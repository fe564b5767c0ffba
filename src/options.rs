//! The option registry: a preset baseline and an ordered sequence of named
//! overrides resolved into one validated configuration.
use vstd::prelude::*;

use crate::engine::{
    deflater_from_engine, deflater_of, deflater_to_engine, duration_from_millis, duration_millis,
    engine_default, engine_preset, filter_at, filter_set_len, filters_in, insert_filter, insert_tag,
    millis_of, new_filter_set, new_tag_set, preset_compression, preset_filters, tag_at, tag_set_len,
    tags_in,
};
use crate::types::{
    MAX_LIBDEFLATE_LEVEL, MIN_LIBDEFLATE_LEVEL, engine_filter, engine_interlacing, filter_of_engine, Deflater, Filter, Interlace, StripPolicy,
};
use crate::value::{
    dedup, filter_items, filters_ok, lemma_dedup_no_duplicates, is_collection, py_bool, py_duration, py_iter_extract_map,
    py_option_extract, Value, ValueError, ValueKind, MAX_TIMEOUT_SECONDS,
};

verus! {

/// Whether two strings are equal, character by character.
pub fn str_eq(a: &str, b: &str) -> (r: bool)
    ensures
        r == (a@ == b@),
{
    let n = a.unicode_len();
    if n != b.unicode_len() {
        return false;
    }
    let mut i: usize = 0;
    while i < n
        invariant
            n == a@.len(),
            n == b@.len(),
            i <= n,
            forall|j: int| 0 <= j < i ==> a@[j] == b@[j],
        decreases n - i,
    {
        if a.get_char(i) != b.get_char(i) {
            return false;
        }
        i = i + 1;
    }
    assert(a@ =~= b@);
    true
}

/// The option names that the registry knows.
#[derive(Clone, Copy, Debug, PartialEq, Eq, Structural)]
pub enum OptionKey {
    Level,
    FixErrors,
    Force,
    Filter,
    Interlace,
    OptimizeAlpha,
    BitDepthReduction,
    ColorTypeReduction,
    PaletteReduction,
    GrayscaleReduction,
    IdatRecoding,
    Scale16,
    Strip,
    Deflate,
    FastEvaluation,
    Timeout,
    Backup,
    Check,
    Pretend,
    PreserveAttrs,
    UseHeuristics,
}

/// The key that the name `s` selects, if any; names are case-sensitive.
pub open spec fn key_of(s: Seq<char>) -> Option<OptionKey> {
    if s == "level"@ {
        Some(OptionKey::Level)
    } else if s == "fix_errors"@ {
        Some(OptionKey::FixErrors)
    } else if s == "force"@ {
        Some(OptionKey::Force)
    } else if s == "filter"@ {
        Some(OptionKey::Filter)
    } else if s == "interlace"@ {
        Some(OptionKey::Interlace)
    } else if s == "optimize_alpha"@ {
        Some(OptionKey::OptimizeAlpha)
    } else if s == "bit_depth_reduction"@ {
        Some(OptionKey::BitDepthReduction)
    } else if s == "color_type_reduction"@ {
        Some(OptionKey::ColorTypeReduction)
    } else if s == "palette_reduction"@ {
        Some(OptionKey::PaletteReduction)
    } else if s == "grayscale_reduction"@ {
        Some(OptionKey::GrayscaleReduction)
    } else if s == "idat_recoding"@ {
        Some(OptionKey::IdatRecoding)
    } else if s == "scale_16"@ {
        Some(OptionKey::Scale16)
    } else if s == "strip"@ {
        Some(OptionKey::Strip)
    } else if s == "deflate"@ {
        Some(OptionKey::Deflate)
    } else if s == "fast_evaluation"@ {
        Some(OptionKey::FastEvaluation)
    } else if s == "timeout"@ {
        Some(OptionKey::Timeout)
    } else if s == "backup"@ {
        Some(OptionKey::Backup)
    } else if s == "check"@ {
        Some(OptionKey::Check)
    } else if s == "pretend"@ {
        Some(OptionKey::Pretend)
    } else if s == "preserve_attrs"@ {
        Some(OptionKey::PreserveAttrs)
    } else if s == "use_heuristics"@ {
        Some(OptionKey::UseHeuristics)
    } else {
        None
    }
}

impl OptionKey {
    /// The key that a name selects, if any.
    pub fn parse(name: &str) -> (r: Option<OptionKey>)
        ensures
            r == key_of(name@),
    {
        if str_eq(name, "level") {
            Some(OptionKey::Level)
        } else if str_eq(name, "fix_errors") {
            Some(OptionKey::FixErrors)
        } else if str_eq(name, "force") {
            Some(OptionKey::Force)
        } else if str_eq(name, "filter") {
            Some(OptionKey::Filter)
        } else if str_eq(name, "interlace") {
            Some(OptionKey::Interlace)
        } else if str_eq(name, "optimize_alpha") {
            Some(OptionKey::OptimizeAlpha)
        } else if str_eq(name, "bit_depth_reduction") {
            Some(OptionKey::BitDepthReduction)
        } else if str_eq(name, "color_type_reduction") {
            Some(OptionKey::ColorTypeReduction)
        } else if str_eq(name, "palette_reduction") {
            Some(OptionKey::PaletteReduction)
        } else if str_eq(name, "grayscale_reduction") {
            Some(OptionKey::GrayscaleReduction)
        } else if str_eq(name, "idat_recoding") {
            Some(OptionKey::IdatRecoding)
        } else if str_eq(name, "scale_16") {
            Some(OptionKey::Scale16)
        } else if str_eq(name, "strip") {
            Some(OptionKey::Strip)
        } else if str_eq(name, "deflate") {
            Some(OptionKey::Deflate)
        } else if str_eq(name, "fast_evaluation") {
            Some(OptionKey::FastEvaluation)
        } else if str_eq(name, "timeout") {
            Some(OptionKey::Timeout)
        } else if str_eq(name, "backup") {
            Some(OptionKey::Backup)
        } else if str_eq(name, "check") {
            Some(OptionKey::Check)
        } else if str_eq(name, "pretend") {
            Some(OptionKey::Pretend)
        } else if str_eq(name, "preserve_attrs") {
            Some(OptionKey::PreserveAttrs)
        } else if str_eq(name, "use_heuristics") {
            Some(OptionKey::UseHeuristics)
        } else {
            None
        }
    }
}

/// A chunk-stripping policy as a mathematical value.
pub enum StripView {
    Nothing,
    Strip(Seq<[u8; 4]>),
    Safe,
    Keep(Seq<[u8; 4]>),
    All,
}

impl View for StripPolicy {
    type V = StripView;

    open spec fn view(&self) -> StripView {
        match self {
            StripPolicy::Nothing => StripView::Nothing,
            StripPolicy::Strip(t) => StripView::Strip(t@),
            StripPolicy::Safe => StripView::Safe,
            StripPolicy::Keep(t) => StripView::Keep(t@),
            StripPolicy::All => StripView::All,
        }
    }
}

impl StripPolicy {
    /// A copy of the policy.
    pub fn duplicate(&self) -> (r: StripPolicy)
        ensures
            r@ == self@,
    {
        match self {
            StripPolicy::Nothing => StripPolicy::Nothing,
            StripPolicy::Strip(t) => StripPolicy::Strip(copy_vec(t)),
            StripPolicy::Safe => StripPolicy::Safe,
            StripPolicy::Keep(t) => StripPolicy::Keep(copy_vec(t)),
            StripPolicy::All => StripPolicy::All,
        }
    }
}

/// A copy of a vector of plain values.
pub fn copy_vec<T: Copy>(t: &Vec<T>) -> (r: Vec<T>)
    ensures
        r@ == t@,
{
    let mut out: Vec<T> = Vec::new();
    let mut i: usize = 0;
    while i < t.len()
        invariant
            i <= t@.len(),
            out@ == t@.take(i as int),
        decreases t@.len() - i,
    {
        out.push(t[i]);
        assert(out@ =~= t@.take(i + 1));
        i = i + 1;
    }
    assert(t@.take(i as int) =~= t@);
    out
}

/// The resolved settings handed to the engine.
#[derive(Debug)]
pub struct Configuration {
    pub fix_errors: bool,
    pub force: bool,
    /// The row filters to try; empty lets the engine choose.
    pub filter: Vec<Filter>,
    /// `None` leaves the interlacing of the input as it is.
    pub interlace: Option<Interlace>,
    pub optimize_alpha: bool,
    pub bit_depth_reduction: bool,
    pub color_type_reduction: bool,
    pub palette_reduction: bool,
    pub grayscale_reduction: bool,
    pub idat_recoding: bool,
    pub scale_16: bool,
    pub strip: StripPolicy,
    pub deflate: Deflater,
    pub fast_evaluation: bool,
    /// In milliseconds; `None` is no timeout.
    pub timeout: Option<u64>,
    /// Accepted for compatibility; this engine has no such setting.
    pub backup: bool,
    /// Accepted for compatibility; this engine has no such setting.
    pub check: bool,
    /// Accepted for compatibility; this engine has no such setting.
    pub pretend: bool,
    /// Keep the input file's permissions and timestamps when writing a file.
    pub preserve_attrs: bool,
    /// Accepted for compatibility; this engine has no such setting.
    pub use_heuristics: bool,
}

/// A configuration as a mathematical value.
pub struct ConfigView {
    pub fix_errors: bool,
    pub force: bool,
    pub filter: Seq<Filter>,
    pub interlace: Option<Interlace>,
    pub optimize_alpha: bool,
    pub bit_depth_reduction: bool,
    pub color_type_reduction: bool,
    pub palette_reduction: bool,
    pub grayscale_reduction: bool,
    pub idat_recoding: bool,
    pub scale_16: bool,
    pub strip: StripView,
    pub deflate: Deflater,
    pub fast_evaluation: bool,
    pub timeout: Option<u64>,
    pub backup: bool,
    pub check: bool,
    pub pretend: bool,
    pub preserve_attrs: bool,
    pub use_heuristics: bool,
}

impl View for Configuration {
    type V = ConfigView;

    open spec fn view(&self) -> ConfigView {
        ConfigView {
            fix_errors: self.fix_errors,
            force: self.force,
            filter: self.filter@,
            interlace: self.interlace,
            optimize_alpha: self.optimize_alpha,
            bit_depth_reduction: self.bit_depth_reduction,
            color_type_reduction: self.color_type_reduction,
            palette_reduction: self.palette_reduction,
            grayscale_reduction: self.grayscale_reduction,
            idat_recoding: self.idat_recoding,
            scale_16: self.scale_16,
            strip: self.strip@,
            deflate: self.deflate,
            fast_evaluation: self.fast_evaluation,
            timeout: self.timeout,
            backup: self.backup,
            check: self.check,
            pretend: self.pretend,
            preserve_attrs: self.preserve_attrs,
            use_heuristics: self.use_heuristics,
        }
    }
}

impl Configuration {
    /// The deflater's parameters are allowed, and the row filters and chunk
    /// names are sets: no element twice.
    pub open spec fn wf(&self) -> bool {
        &&& self.deflate.wf()
        &&& self.filter@.no_duplicates()
        &&& names_unique(self.strip@)
    }
}

/// Whether a policy lists no chunk name twice.
pub open spec fn names_unique(p: StripView) -> bool {
    match p {
        StripView::Strip(t) => t.no_duplicates(),
        StripView::Keep(t) => t.no_duplicates(),
        _ => true,
    }
}

/// The engine's preset `level`, in this crate's terms.
pub open spec fn preset_view(level: u8) -> ConfigView {
    ConfigView {
        fix_errors: false,
        force: false,
        filter: preset_filters(level).map_values(|f: oxipng::RowFilter| filter_of_engine(f)),
        interlace: Some(Interlace::Off),
        optimize_alpha: false,
        bit_depth_reduction: true,
        color_type_reduction: true,
        palette_reduction: true,
        grayscale_reduction: true,
        idat_recoding: true,
        scale_16: false,
        strip: StripView::Nothing,
        deflate: Deflater::Libdeflater { compression: preset_compression(level) },
        fast_evaluation: level <= 2,
        timeout: None,
        backup: false,
        check: false,
        pretend: false,
        preserve_attrs: false,
        use_heuristics: false,
    }
}

/// No preset lists a row filter twice.
pub proof fn lemma_preset_filters_unique(level: u8)
    ensures
        preset_view(level).filter.no_duplicates(),
{
    let f = preset_view(level).filter;
    if level <= 1 {
        assert(f =~= Seq::<Filter>::empty());
    } else if level == 2 {
        assert(f =~= seq![Filter::NoOp, Filter::Sub, Filter::Entropy, Filter::Bigrams]);
    } else if level <= 4 {
        assert(f =~= seq![Filter::NoOp, Filter::Bigrams, Filter::BigEnt, Filter::Brute]);
    } else if level == 5 {
        assert(f =~= seq![
            Filter::NoOp,
            Filter::Sub,
            Filter::Entropy,
            Filter::Bigrams,
            Filter::Up,
            Filter::MinSum,
            Filter::BigEnt,
            Filter::Brute,
        ]);
    } else {
        assert(f =~= seq![
            Filter::NoOp,
            Filter::Sub,
            Filter::Entropy,
            Filter::Bigrams,
            Filter::Average,
            Filter::Paeth,
            Filter::Up,
            Filter::MinSum,
            Filter::BigEnt,
            Filter::Brute,
        ]);
    }
}

/// A duration's milliseconds, capped at the largest that a timeout holds.
pub open spec fn capped_millis(ms: nat) -> u64 {
    if ms > u64::MAX {
        u64::MAX
    } else {
        ms as u64
    }
}

/// The engine's chunk policy, in this crate's terms.
pub open spec fn engine_strip_view(s: oxipng::StripChunks) -> StripView {
    match s {
        oxipng::StripChunks::None => StripView::Nothing,
        oxipng::StripChunks::Strip(t) => StripView::Strip(tags_in(t)),
        oxipng::StripChunks::Safe => StripView::Safe,
        oxipng::StripChunks::Keep(t) => StripView::Keep(tags_in(t)),
        oxipng::StripChunks::All => StripView::All,
    }
}

/// The engine's timeout, in milliseconds.
pub open spec fn engine_timeout_view(t: Option<core::time::Duration>) -> Option<u64> {
    match t {
        Some(d) => Some(capped_millis(millis_of(d))),
        None => None,
    }
}

/// The engine's interlacing instruction, in this crate's terms.
pub open spec fn engine_interlace_view(i: Option<oxipng::Interlacing>) -> Option<Interlace> {
    match i {
        Some(e) => Some(crate::types::interlacing_of_engine(e)),
        None => None,
    }
}

/// The engine's settings `o`, in this crate's terms.
pub open spec fn engine_view(o: oxipng::Options) -> ConfigView {
    ConfigView {
        fix_errors: o.fix_errors,
        force: o.force,
        filter: filters_in(o.filter).map_values(|f: oxipng::RowFilter| filter_of_engine(f)),
        interlace: engine_interlace_view(o.interlace),
        optimize_alpha: o.optimize_alpha,
        bit_depth_reduction: o.bit_depth_reduction,
        color_type_reduction: o.color_type_reduction,
        palette_reduction: o.palette_reduction,
        grayscale_reduction: o.grayscale_reduction,
        idat_recoding: o.idat_recoding,
        scale_16: o.scale_16,
        strip: engine_strip_view(o.strip),
        deflate: deflater_of(o.deflate),
        fast_evaluation: o.fast_evaluation,
        timeout: engine_timeout_view(o.timeout),
        backup: false,
        check: false,
        pretend: false,
        preserve_attrs: false,
        use_heuristics: false,
    }
}

pub(crate) fn filters_from_engine(s: &oxipng::IndexSet<oxipng::RowFilter>) -> (r: Vec<Filter>)
    ensures
        r@ == filters_in(*s).map_values(|f: oxipng::RowFilter| filter_of_engine(f)),
{
    let n = filter_set_len(s);
    let mut out: Vec<Filter> = Vec::new();
    let mut i: usize = 0;
    while i < n
        invariant
            n == filters_in(*s).len(),
            i <= n,
            out@ == filters_in(*s).take(i as int).map_values(|f: oxipng::RowFilter| filter_of_engine(f)),
        decreases n - i,
    {
        match filter_at(s, i) {
            Some(f) => {
                out.push(Filter::from_engine(f));
            },
            None => {},
        }
        assert(out@ =~= filters_in(*s).take(i + 1).map_values(|f: oxipng::RowFilter| filter_of_engine(f)));
        i = i + 1;
    }
    assert(filters_in(*s).take(i as int) =~= filters_in(*s));
    out
}

pub(crate) fn tags_from_engine(s: &oxipng::IndexSet<[u8; 4]>) -> (r: Vec<[u8; 4]>)
    ensures
        r@ == tags_in(*s),
{
    let n = tag_set_len(s);
    let mut out: Vec<[u8; 4]> = Vec::new();
    let mut i: usize = 0;
    while i < n
        invariant
            n == tags_in(*s).len(),
            i <= n,
            out@ == tags_in(*s).take(i as int),
        decreases n - i,
    {
        match tag_at(s, i) {
            Some(t) => {
                out.push(t);
            },
            None => {},
        }
        assert(out@ =~= tags_in(*s).take(i + 1));
        i = i + 1;
    }
    assert(tags_in(*s).take(i as int) =~= tags_in(*s));
    out
}

fn strip_from_engine(s: &oxipng::StripChunks) -> (r: StripPolicy)
    ensures
        r@ == engine_strip_view(*s),
{
    match s {
        oxipng::StripChunks::None => StripPolicy::Nothing,
        oxipng::StripChunks::Strip(t) => StripPolicy::Strip(tags_from_engine(t)),
        oxipng::StripChunks::Safe => StripPolicy::Safe,
        oxipng::StripChunks::Keep(t) => StripPolicy::Keep(tags_from_engine(t)),
        oxipng::StripChunks::All => StripPolicy::All,
    }
}

fn timeout_from_engine(t: &Option<core::time::Duration>) -> (r: Option<u64>)
    ensures
        r == engine_timeout_view(*t),
{
    match t {
        Some(d) => {
            let ms = duration_millis(d);
            if ms > u64::MAX as u128 {
                Some(u64::MAX)
            } else {
                Some(ms as u64)
            }
        },
        None => None,
    }
}

impl Configuration {
    /// The engine's settings, read field by field.
    pub fn from_engine(o: &oxipng::Options) -> (r: Configuration)
        ensures
            r@ == engine_view(*o),
    {
        let strip = strip_from_engine(&o.strip);
        let timeout = timeout_from_engine(&o.timeout);
        let interlace = match o.interlace {
            Some(i) => Some(Interlace::from_engine(i)),
            None => None,
        };
        let filter = filters_from_engine(&o.filter);
        let deflate = deflater_from_engine(&o.deflate);
        Configuration {
            fix_errors: o.fix_errors,
            force: o.force,
            filter,
            interlace,
            optimize_alpha: o.optimize_alpha,
            bit_depth_reduction: o.bit_depth_reduction,
            color_type_reduction: o.color_type_reduction,
            palette_reduction: o.palette_reduction,
            grayscale_reduction: o.grayscale_reduction,
            idat_recoding: o.idat_recoding,
            scale_16: o.scale_16,
            strip,
            deflate,
            fast_evaluation: o.fast_evaluation,
            timeout,
            backup: false,
            check: false,
            pretend: false,
            preserve_attrs: false,
            use_heuristics: false,
        }
    }

    /// The engine's default settings.
    pub fn engine_defaults() -> (r: Configuration)
        ensures
            r@ == preset_view(2),
            r.wf(),
    {
        let o = engine_default();
        let r = Configuration::from_engine(&o);
        assert(r@.filter =~= preset_view(2).filter);
        proof {
            lemma_preset_filters_unique(2);
        }
        r
    }

    /// The engine's settings for a preset level from zero to six.
    pub fn preset(level: u8) -> (r: Configuration)
        requires
            level <= 6,
        ensures
            r@ == preset_view(level),
            r.wf(),
    {
        let o = engine_preset(level);
        let r = Configuration::from_engine(&o);
        assert(r@.filter =~= preset_view(level).filter);
        proof {
            lemma_preset_filters_unique(level);
        }
        r
    }
}

/// Why a set of options was refused.
#[derive(Debug)]
pub enum OptionError {
    /// The preset level is not a whole number.
    LevelNotInteger,
    /// The preset level lies outside zero to six.
    LevelOutOfRange(i64),
    /// No option has this name.
    Unsupported(String),
    /// The option exists, but the value does not fit it.
    InvalidValue(String, ValueError),
}

/// Whether `v` fits the option `k`.
pub open spec fn value_ok(k: OptionKey, v: Value) -> bool {
    match k {
        OptionKey::Level => true,
        OptionKey::Filter => filters_ok(v),
        OptionKey::Interlace => v is Null || v is Interlace,
        OptionKey::Strip => v is Strip,
        OptionKey::Deflate => v matches Value::Deflater(d) && d.wf(),
        OptionKey::Timeout => v is Null || v is Millis || (v matches Value::Int(n) && 0 <= n
            <= MAX_TIMEOUT_SECONDS),
        _ => v is Bool,
    }
}

/// Whether `e` is the error that the value `v` of option `k` is refused with.
pub open spec fn value_error(k: OptionKey, v: Value, e: ValueError) -> bool {
    match k {
        OptionKey::Filter => if !is_collection(v) {
            e == ValueError::WrongType(ValueKind::Collection)
        } else {
            e == ValueError::WrongType(ValueKind::Filter)
        },
        OptionKey::Interlace => e == ValueError::WrongType(ValueKind::Interlace),
        OptionKey::Strip => e == ValueError::WrongType(ValueKind::Strip),
        OptionKey::Deflate => match v {
            Value::Deflater(Deflater::Zopfli { .. }) => e == ValueError::ZeroIterations,
            Value::Deflater(Deflater::Libdeflater { compression }) => e
                == ValueError::CompressionOutOfRange(compression),
            _ => e == ValueError::WrongType(ValueKind::Deflater),
        },
        OptionKey::Timeout => match v {
            Value::Int(n) => e == ValueError::OutOfRange(n),
            _ => e == ValueError::WrongType(ValueKind::Seconds),
        },
        _ => e == ValueError::WrongType(ValueKind::Bool),
    }
}

/// The timeout, in milliseconds, that a fitting value stands for.
pub open spec fn timeout_of(v: Value) -> Option<u64> {
    match v {
        Value::Millis(m) => Some(m),
        Value::Int(n) => Some((n * 1000) as u64),
        _ => None,
    }
}

/// The interlacing instruction that a fitting value stands for.
pub open spec fn interlace_of(v: Value) -> Option<Interlace> {
    match v {
        Value::Interlace(i) => Some(i),
        _ => None,
    }
}

/// `c` with option `k` set to the fitting value `v`.
pub open spec fn apply_spec(c: ConfigView, k: OptionKey, v: Value) -> ConfigView {
    match k {
        OptionKey::Level => c,
        OptionKey::FixErrors => ConfigView { fix_errors: v->Bool_0, ..c },
        OptionKey::Force => ConfigView { force: v->Bool_0, ..c },
        OptionKey::Filter => ConfigView { filter: dedup(filter_items(v)), ..c },
        OptionKey::Interlace => ConfigView { interlace: interlace_of(v), ..c },
        OptionKey::OptimizeAlpha => ConfigView { optimize_alpha: v->Bool_0, ..c },
        OptionKey::BitDepthReduction => ConfigView { bit_depth_reduction: v->Bool_0, ..c },
        OptionKey::ColorTypeReduction => ConfigView { color_type_reduction: v->Bool_0, ..c },
        OptionKey::PaletteReduction => ConfigView { palette_reduction: v->Bool_0, ..c },
        OptionKey::GrayscaleReduction => ConfigView { grayscale_reduction: v->Bool_0, ..c },
        OptionKey::IdatRecoding => ConfigView { idat_recoding: v->Bool_0, ..c },
        OptionKey::Scale16 => ConfigView { scale_16: v->Bool_0, ..c },
        OptionKey::Strip => ConfigView { strip: strip_as_engine(v->Strip_0@), ..c },
        OptionKey::Deflate => ConfigView { deflate: v->Deflater_0, ..c },
        OptionKey::FastEvaluation => ConfigView { fast_evaluation: v->Bool_0, ..c },
        OptionKey::Timeout => ConfigView { timeout: timeout_of(v), ..c },
        OptionKey::Backup => ConfigView { backup: v->Bool_0, ..c },
        OptionKey::Check => ConfigView { check: v->Bool_0, ..c },
        OptionKey::Pretend => ConfigView { pretend: v->Bool_0, ..c },
        OptionKey::PreserveAttrs => ConfigView { preserve_attrs: v->Bool_0, ..c },
        OptionKey::UseHeuristics => ConfigView { use_heuristics: v->Bool_0, ..c },
    }
}

/// Whether `k` is an option that holds a boolean.
pub open spec fn is_flag(k: OptionKey) -> bool {
    !(k is Level || k is Filter || k is Interlace || k is Strip || k is Deflate || k is Timeout)
}

/// `set_flag` for a few of the options; the options are split over several
/// functions to keep each proof small.
fn set_flag_part1(key: OptionKey, b: bool, opts: Configuration) -> (r: Configuration)
    requires
        key is FixErrors || key is Force || key is OptimizeAlpha || key is BitDepthReduction || key is ColorTypeReduction,
    ensures
        r@ == apply_spec(opts@, key, Value::Bool(b)),
        r.deflate == opts.deflate,
{
    match key {
        OptionKey::FixErrors => Configuration { fix_errors: b, ..opts },
        OptionKey::Force => Configuration { force: b, ..opts },
        OptionKey::OptimizeAlpha => Configuration { optimize_alpha: b, ..opts },
        OptionKey::BitDepthReduction => Configuration { bit_depth_reduction: b, ..opts },
        _ => Configuration { color_type_reduction: b, ..opts },
    }
}

/// `set_flag` for a few of the options; the options are split over several
/// functions to keep each proof small.
fn set_flag_part2(key: OptionKey, b: bool, opts: Configuration) -> (r: Configuration)
    requires
        key is PaletteReduction || key is GrayscaleReduction || key is IdatRecoding || key is Scale16 || key is FastEvaluation,
    ensures
        r@ == apply_spec(opts@, key, Value::Bool(b)),
        r.deflate == opts.deflate,
{
    match key {
        OptionKey::PaletteReduction => Configuration { palette_reduction: b, ..opts },
        OptionKey::GrayscaleReduction => Configuration { grayscale_reduction: b, ..opts },
        OptionKey::IdatRecoding => Configuration { idat_recoding: b, ..opts },
        OptionKey::Scale16 => Configuration { scale_16: b, ..opts },
        _ => Configuration { fast_evaluation: b, ..opts },
    }
}

/// `set_flag` for a few of the options; the options are split over several
/// functions to keep each proof small.
#[verifier::rlimit(100)]
fn set_flag_part3(key: OptionKey, b: bool, opts: Configuration) -> (r: Configuration)
    requires
        key is Backup || key is Check || key is Pretend,
    ensures
        r@ == apply_spec(opts@, key, Value::Bool(b)),
        r.deflate == opts.deflate,
{
    match key {
        OptionKey::Backup => Configuration { backup: b, ..opts },
        OptionKey::Check => Configuration { check: b, ..opts },
        _ => Configuration { pretend: b, ..opts },
    }
}

/// `set_flag` for a few of the options; the options are split over several
/// functions to keep each proof small.
#[verifier::rlimit(100)]
fn set_flag_part4(key: OptionKey, b: bool, opts: Configuration) -> (r: Configuration)
    requires
        key is PreserveAttrs || key is UseHeuristics,
    ensures
        r@ == apply_spec(opts@, key, Value::Bool(b)),
        r.deflate == opts.deflate,
{
    match key {
        OptionKey::PreserveAttrs => Configuration { preserve_attrs: b, ..opts },
        _ => Configuration { use_heuristics: b, ..opts },
    }
}

/// `opts` with the boolean option `key` set to `b`.
fn set_flag(key: OptionKey, b: bool, opts: Configuration) -> (r: Configuration)
    requires
        is_flag(key),
    ensures
        r@ == apply_spec(opts@, key, Value::Bool(b)),
        r.deflate == opts.deflate,
{
    match key {
        OptionKey::FixErrors
        | OptionKey::Force
        | OptionKey::OptimizeAlpha
        | OptionKey::BitDepthReduction
        | OptionKey::ColorTypeReduction => set_flag_part1(key, b, opts),
        OptionKey::PaletteReduction
        | OptionKey::GrayscaleReduction
        | OptionKey::IdatRecoding
        | OptionKey::Scale16
        | OptionKey::FastEvaluation => set_flag_part2(key, b, opts),
        OptionKey::Backup | OptionKey::Check | OptionKey::Pretend => set_flag_part3(key, b, opts),
        _ => set_flag_part4(key, b, opts),
    }
}

fn decode_deflater(value: &Value) -> (r: Result<Deflater, ValueError>)
    ensures
        r is Ok <==> value_ok(OptionKey::Deflate, *value),
        r matches Ok(d) ==> d == value->Deflater_0,
        r matches Err(e) ==> value_error(OptionKey::Deflate, *value, e),
{
    match value {
        Value::Deflater(d) => {
            match d {
                Deflater::Zopfli { iterations } => {
                    if *iterations == 0 {
                        return Err(ValueError::ZeroIterations);
                    }
                },
                Deflater::Libdeflater { compression } => {
                    if *compression < MIN_LIBDEFLATE_LEVEL || *compression > MAX_LIBDEFLATE_LEVEL {
                        return Err(ValueError::CompressionOutOfRange(*compression));
                    }
                },
            }
            Ok(*d)
        },
        _ => Err(ValueError::WrongType(ValueKind::Deflater)),
    }
}

fn decode_strip(value: &Value) -> (r: Result<StripPolicy, ValueError>)
    ensures
        r is Ok <==> value_ok(OptionKey::Strip, *value),
        r matches Ok(p) ==> p@ == strip_as_engine(value->Strip_0@) && names_unique(p@),
        r matches Err(e) ==> value_error(OptionKey::Strip, *value, e),
{
    match value {
        Value::Strip(p) => Ok(p.as_set()),
        _ => Err(ValueError::WrongType(ValueKind::Strip)),
    }
}

fn set_filter(value: &Value, opts: Configuration) -> (r: Result<Configuration, ValueError>)
    requires
        opts.wf(),
    ensures
        r is Ok <==> value_ok(OptionKey::Filter, *value),
        r matches Ok(c) ==> c@ == apply_spec(opts@, OptionKey::Filter, *value) && c.wf(),
        r matches Err(e) ==> value_error(OptionKey::Filter, *value, e),
{
    match py_iter_extract_map(value) {
        Ok(x) => Ok(Configuration { filter: x, ..opts }),
        Err(e) => Err(e),
    }
}

fn set_interlace(value: &Value, opts: Configuration) -> (r: Result<Configuration, ValueError>)
    requires
        opts.wf(),
    ensures
        r is Ok <==> value_ok(OptionKey::Interlace, *value),
        r matches Ok(c) ==> c@ == apply_spec(opts@, OptionKey::Interlace, *value) && c.wf(),
        r matches Err(e) ==> value_error(OptionKey::Interlace, *value, e),
{
    match py_option_extract(value) {
        Ok(x) => Ok(Configuration { interlace: x, ..opts }),
        Err(e) => Err(e),
    }
}

fn set_strip(value: &Value, opts: Configuration) -> (r: Result<Configuration, ValueError>)
    requires
        opts.wf(),
    ensures
        r is Ok <==> value_ok(OptionKey::Strip, *value),
        r matches Ok(c) ==> c@ == apply_spec(opts@, OptionKey::Strip, *value) && c.wf(),
        r matches Err(e) ==> value_error(OptionKey::Strip, *value, e),
{
    match decode_strip(value) {
        Ok(x) => Ok(Configuration { strip: x, ..opts }),
        Err(e) => Err(e),
    }
}

fn set_deflate(value: &Value, opts: Configuration) -> (r: Result<Configuration, ValueError>)
    requires
        opts.wf(),
    ensures
        r is Ok <==> value_ok(OptionKey::Deflate, *value),
        r matches Ok(c) ==> c@ == apply_spec(opts@, OptionKey::Deflate, *value) && c.wf(),
        r matches Err(e) ==> value_error(OptionKey::Deflate, *value, e),
{
    match decode_deflater(value) {
        Ok(x) => Ok(Configuration { deflate: x, ..opts }),
        Err(e) => Err(e),
    }
}

fn set_timeout(value: &Value, opts: Configuration) -> (r: Result<Configuration, ValueError>)
    requires
        opts.wf(),
    ensures
        r is Ok <==> value_ok(OptionKey::Timeout, *value),
        r matches Ok(c) ==> c@ == apply_spec(opts@, OptionKey::Timeout, *value) && c.wf(),
        r matches Err(e) ==> value_error(OptionKey::Timeout, *value, e),
{
    match py_duration(value) {
        Ok(x) => Ok(Configuration { timeout: x, ..opts }),
        Err(e) => Err(e),
    }
}

fn set_value(key: OptionKey, value: &Value, opts: Configuration) -> (r: Result<
    Configuration,
    ValueError,
>)
    requires
        opts.wf(),
        !is_flag(key),
    ensures
        r is Ok <==> value_ok(key, *value),
        r matches Ok(c) ==> c@ == apply_spec(opts@, key, *value) && c.wf(),
        r matches Err(e) ==> value_error(key, *value, e),
{
    match key {
        OptionKey::Filter => set_filter(value, opts),
        OptionKey::Interlace => set_interlace(value, opts),
        OptionKey::Strip => set_strip(value, opts),
        OptionKey::Deflate => set_deflate(value, opts),
        OptionKey::Timeout => set_timeout(value, opts),
        _ => Ok(opts),
    }
}

/// `opts` with one option set from a host value.
pub fn parse_kw_opt(key: OptionKey, value: &Value, opts: Configuration) -> (r: Result<
    Configuration,
    ValueError,
>)
    requires
        opts.wf(),
    ensures
        r is Ok <==> value_ok(key, *value),
        r matches Ok(c) ==> c@ == apply_spec(opts@, key, *value) && c.wf(),
        r matches Err(e) ==> value_error(key, *value, e),
{
    if is_flag_key(key) {
        let b = py_bool(value)?;
        Ok(set_flag(key, b, opts))
    } else {
        set_value(key, value, opts)
    }
}

fn is_flag_key(key: OptionKey) -> (r: bool)
    ensures
        r == is_flag(key),
{
    match key {
        OptionKey::Level | OptionKey::Filter | OptionKey::Interlace | OptionKey::Strip
        | OptionKey::Deflate | OptionKey::Timeout => false,
        _ => true,
    }
}

/// The last value given for option `k` among the overrides, if any.
pub open spec fn last_value(ov: Seq<(String, Value)>, k: OptionKey) -> Option<Value>
    decreases ov.len(),
{
    if ov.len() == 0 {
        None
    } else if key_of(ov.last().0@) == Some(k) {
        Some(ov.last().1)
    } else {
        last_value(ov.drop_last(), k)
    }
}

/// The preset level asked for: the last `level` override, else the level
/// given apart from the overrides.
pub open spec fn level_value(preset: Option<i64>, ov: Seq<(String, Value)>) -> Option<Value> {
    match last_value(ov, OptionKey::Level) {
        Some(v) => Some(v),
        None => match preset {
            Some(n) => Some(Value::Int(n)),
            None => None,
        },
    }
}

/// Whether the level asked for, if any, is a preset.
pub open spec fn level_ok(lv: Option<Value>) -> bool {
    match lv {
        None => true,
        Some(Value::Int(n)) => 0 <= n <= 6,
        Some(_) => false,
    }
}

/// Whether `e` is the error that a level which is not a preset is refused with.
pub open spec fn level_error(lv: Option<Value>, e: OptionError) -> bool {
    match lv {
        Some(Value::Int(n)) => e == OptionError::LevelOutOfRange(n),
        _ => e == OptionError::LevelNotInteger,
    }
}

/// The settings that overrides start from: the preset asked for, else the
/// engine's defaults, which are preset two.
pub open spec fn baseline_view(lv: Option<Value>) -> ConfigView {
    match lv {
        Some(Value::Int(n)) => preset_view(n as u8),
        _ => preset_view(2),
    }
}

/// Whether an override names an option and fits it.
pub open spec fn entry_ok(e: (String, Value)) -> bool {
    match key_of(e.0@) {
        Some(k) => value_ok(k, e.1),
        None => false,
    }
}

/// Whether `err` is the error that the override `e` is refused with; it
/// names the option.
pub open spec fn entry_error(e: (String, Value), err: OptionError) -> bool {
    match key_of(e.0@) {
        None => err matches OptionError::Unsupported(s) && s@ == e.0@,
        Some(k) => err matches OptionError::InvalidValue(s, ve) && s@ == e.0@ && value_error(
            k,
            e.1,
            ve,
        ),
    }
}

/// Whether every override names an option and fits it.
pub open spec fn entries_ok(ov: Seq<(String, Value)>) -> bool {
    forall|i: int| 0 <= i < ov.len() ==> entry_ok(#[trigger] ov[i])
}

/// Whether `err` is the error of the first override that is refused.
pub open spec fn first_error(ov: Seq<(String, Value)>, err: OptionError) -> bool {
    exists|i: int|
        #![trigger ov[i]]
        0 <= i < ov.len() && !entry_ok(ov[i]) && entry_error(ov[i], err) && forall|j: int|
            0 <= j < i ==> entry_ok(#[trigger] ov[j])
}

/// `base` with the overrides applied in order.
pub open spec fn resolve_spec(base: ConfigView, ov: Seq<(String, Value)>) -> ConfigView
    decreases ov.len(),
{
    if ov.len() == 0 {
        base
    } else {
        let c = resolve_spec(base, ov.drop_last());
        match key_of(ov.last().0@) {
            Some(k) => apply_spec(c, k, ov.last().1),
            None => c,
        }
    }
}

fn check_level(v: &Value) -> (r: Result<u8, OptionError>)
    ensures
        level_ok(Some(*v)) <==> r is Ok,
        r matches Ok(l) ==> *v == Value::Int(l as i64),
        r matches Err(e) ==> level_error(Some(*v), e),
{
    match v {
        Value::Int(n) => {
            if 0 <= *n && *n <= 6 {
                Ok(*n as u8)
            } else {
                Err(OptionError::LevelOutOfRange(*n))
            }
        },
        _ => Err(OptionError::LevelNotInteger),
    }
}

fn level_setting(preset_level: Option<i64>, overrides: &Vec<(String, Value)>) -> (r: Result<
    Option<u8>,
    OptionError,
>)
    ensures
        level_ok(level_value(preset_level, overrides@)) <==> r is Ok,
        r matches Ok(Some(l)) ==> level_value(preset_level, overrides@) == Some(Value::Int(l as i64)),
        r matches Ok(None) ==> level_value(preset_level, overrides@) is None,
        r matches Err(e) ==> level_error(level_value(preset_level, overrides@), e),
{
    let mut found: Option<usize> = None;
    let mut i: usize = 0;
    while i < overrides.len()
        invariant
            i <= overrides@.len(),
            match found {
                Some(j) => j < i && last_value(overrides@.take(i as int), OptionKey::Level) == Some(
                    overrides@[j as int].1,
                ),
                None => last_value(overrides@.take(i as int), OptionKey::Level) is None,
            },
        decreases overrides@.len() - i,
    {
        assert(overrides@.take(i + 1).drop_last() =~= overrides@.take(i as int));
        match OptionKey::parse(overrides[i].0.as_str()) {
            Some(OptionKey::Level) => {
                found = Some(i);
            },
            _ => {},
        }
        i = i + 1;
    }
    assert(overrides@.take(i as int) =~= overrides@);
    match found {
        Some(j) => {
            let l = check_level(&overrides[j].1)?;
            Ok(Some(l))
        },
        None => match preset_level {
            Some(n) => {
                let v = Value::Int(n);
                let l = check_level(&v)?;
                Ok(Some(l))
            },
            None => Ok(None),
        },
    }
}

/// Resolve a preset level and an ordered sequence of named overrides into
/// one configuration.
///
/// The level is the last `level` override, else `preset_level`; without
/// either the engine's defaults are the baseline. The other overrides are
/// applied in order, so a later one for a name replaces an earlier one. The
/// first override that names no option, or whose value does not fit its
/// option, is the error.
pub fn resolve(preset_level: Option<i64>, overrides: &Vec<(String, Value)>) -> (r: Result<
    Configuration,
    OptionError,
>)
    ensures
        r is Ok <==> level_ok(level_value(preset_level, overrides@)) && entries_ok(overrides@),
        !level_ok(level_value(preset_level, overrides@)) ==> (r matches Err(e) && level_error(
            level_value(preset_level, overrides@),
            e,
        )),
        level_ok(level_value(preset_level, overrides@)) && !entries_ok(overrides@) ==> (r matches Err(
            e,
        ) && first_error(overrides@, e)),
        r matches Ok(c) ==> c.wf() && c@ == resolve_spec(
            baseline_view(level_value(preset_level, overrides@)),
            overrides@,
        ),
        resolves_to(preset_level, overrides@, r),
{
    let level = level_setting(preset_level, overrides)?;
    let mut opts = match level {
        Some(l) => Configuration::preset(l),
        None => Configuration::engine_defaults(),
    };
    let ghost base = opts@;
    assert(base == baseline_view(level_value(preset_level, overrides@)));
    let mut i: usize = 0;
    while i < overrides.len()
        invariant
            i <= overrides@.len(),
            opts.wf(),
            opts@ == resolve_spec(base, overrides@.take(i as int)),
            forall|j: int| 0 <= j < i ==> entry_ok(#[trigger] overrides@[j]),
            level_ok(level_value(preset_level, overrides@)),
            base == baseline_view(level_value(preset_level, overrides@)),
        decreases overrides@.len() - i,
    {
        assert(overrides@.take(i + 1).drop_last() =~= overrides@.take(i as int));
        assert(overrides@.take(i + 1).last() == overrides@[i as int]);
        let name = &overrides[i].0;
        let key = match OptionKey::parse(name.as_str()) {
            Some(k) => k,
            None => {
                return Err(OptionError::Unsupported(name.clone()));
            },
        };
        opts = match parse_kw_opt(key, &overrides[i].1, opts) {
            Ok(c) => c,
            Err(e) => {
                return Err(OptionError::InvalidValue(name.clone(), e));
            },
        };
        i = i + 1;
    }
    assert(overrides@.take(i as int) =~= overrides@);
    Ok(opts)
}

/// Whether `r` is what resolving `preset` and `ov` gives: see `resolve`.
pub open spec fn resolves_to(
    preset: Option<i64>,
    ov: Seq<(String, Value)>,
    r: Result<Configuration, OptionError>,
) -> bool {
    &&& r is Ok <==> level_ok(level_value(preset, ov)) && entries_ok(ov)
    &&& !level_ok(level_value(preset, ov)) ==> (r matches Err(e) && level_error(
        level_value(preset, ov),
        e,
    ))
    &&& level_ok(level_value(preset, ov)) && !entries_ok(ov) ==> (r matches Err(e) && first_error(
        ov,
        e,
    ))
    &&& r matches Ok(c) ==> c.wf() && c@ == resolve_spec(baseline_view(level_value(preset, ov)), ov)
}

/// Resolve keyword options, whose `level`, if any, picks the preset.
pub fn parse_kw_opts_dict(kwopts: &Vec<(String, Value)>) -> (r: Result<Configuration, OptionError>)
    ensures
        resolves_to(None, kwopts@, r),
{
    resolve(None, kwopts)
}

/// Resolve keyword options; without any, the engine's defaults.
pub fn parse_kw_opts(kwds: Option<&Vec<(String, Value)>>) -> (r: Result<
    Configuration,
    OptionError,
>)
    ensures
        kwds is None ==> (r matches Ok(c) && c@ == preset_view(2) && c.wf()),
        kwds matches Some(ov) ==> resolves_to(None, ov@, r),
{
    match kwds {
        Some(kwopts) => parse_kw_opts_dict(kwopts),
        None => Ok(Configuration::engine_defaults()),
    }
}

/// Without overrides, a preset level resolves to exactly the engine's preset.
pub proof fn preset_without_overrides(level: u8)
    requires
        level <= 6,
    ensures
        resolve_spec(baseline_view(level_value(Some(level as i64), seq![])), seq![]) == preset_view(
            level,
        ),
{
    assert(last_value(seq![], OptionKey::Level) is None);
}

/// The engine's chunk policy for a policy of this crate: its names as a set.
pub open spec fn strip_as_engine(p: StripView) -> StripView {
    match p {
        StripView::Strip(t) => StripView::Strip(dedup(t)),
        StripView::Keep(t) => StripView::Keep(dedup(t)),
        _ => p,
    }
}

fn filters_to_engine(fs: &Vec<Filter>) -> (r: oxipng::IndexSet<oxipng::RowFilter>)
    ensures
        filters_in(r) == dedup(fs@.map_values(|f: Filter| engine_filter(f))),
{
    let mut set = new_filter_set();
    let mut i: usize = 0;
    while i < fs.len()
        invariant
            i <= fs@.len(),
            filters_in(set) == dedup(fs@.take(i as int).map_values(|f: Filter| engine_filter(f))),
        decreases fs@.len() - i,
    {
        let ghost prefix = fs@.take(i + 1).map_values(|f: Filter| engine_filter(f));
        assert(prefix.drop_last() =~= fs@.take(i as int).map_values(|f: Filter| engine_filter(f)));
        assert(prefix.last() == engine_filter(fs@[i as int]));
        insert_filter(&mut set, fs[i].to_engine());
        i = i + 1;
    }
    assert(fs@.take(i as int) =~= fs@);
    set
}

fn tags_to_engine(ts: &Vec<[u8; 4]>) -> (r: oxipng::IndexSet<[u8; 4]>)
    ensures
        tags_in(r) == dedup(ts@),
{
    let mut set = new_tag_set();
    let mut i: usize = 0;
    while i < ts.len()
        invariant
            i <= ts@.len(),
            tags_in(set) == dedup(ts@.take(i as int)),
        decreases ts@.len() - i,
    {
        assert(ts@.take(i + 1).drop_last() =~= ts@.take(i as int));
        insert_tag(&mut set, ts[i]);
        i = i + 1;
    }
    assert(ts@.take(i as int) =~= ts@);
    set
}

fn strip_to_engine(p: &StripPolicy) -> (r: oxipng::StripChunks)
    ensures
        engine_strip_view(r) == strip_as_engine(p@),
{
    match p {
        StripPolicy::Nothing => oxipng::StripChunks::None,
        StripPolicy::Strip(t) => oxipng::StripChunks::Strip(tags_to_engine(t)),
        StripPolicy::Safe => oxipng::StripChunks::Safe,
        StripPolicy::Keep(t) => oxipng::StripChunks::Keep(tags_to_engine(t)),
        StripPolicy::All => oxipng::StripChunks::All,
    }
}

fn timeout_to_engine(t: Option<u64>) -> (r: Option<core::time::Duration>)
    ensures
        t is None <==> r is None,
        t matches Some(ms) ==> (r matches Some(d) && millis_of(d) == ms),
{
    match t {
        Some(ms) => Some(duration_from_millis(ms)),
        None => None,
    }
}

impl StripPolicy {
    /// The policy with its chunk names as a set, made by the engine's sets:
    /// repeats go, first occurrences keep their order.
    pub fn as_set(&self) -> (r: StripPolicy)
        ensures
            r@ == strip_as_engine(self@),
            names_unique(r@),
    {
        match self {
            StripPolicy::Nothing => StripPolicy::Nothing,
            StripPolicy::Strip(t) => {
                let r = StripPolicy::Strip(tags_from_engine(&tags_to_engine(t)));
                proof {
                    lemma_dedup_no_duplicates(t@);
                }
                r
            },
            StripPolicy::Safe => StripPolicy::Safe,
            StripPolicy::Keep(t) => {
                let r = StripPolicy::Keep(tags_from_engine(&tags_to_engine(t)));
                proof {
                    lemma_dedup_no_duplicates(t@);
                }
                r
            },
            StripPolicy::All => StripPolicy::All,
        }
    }
}

impl Configuration {
    /// The engine's settings for this configuration. Settings that the
    /// engine does not have are left out; row filters and chunk names go in
    /// as sets.
    pub fn to_engine(&self) -> (r: oxipng::Options)
        requires
            self.wf(),
        ensures
            r.fix_errors == self.fix_errors,
            r.force == self.force,
            filters_in(r.filter) == dedup(self.filter@.map_values(|f: Filter| engine_filter(f))),
            r.interlace == match self.interlace {
                Some(i) => Some(engine_interlacing(i)),
                None => None::<oxipng::Interlacing>,
            },
            r.optimize_alpha == self.optimize_alpha,
            r.bit_depth_reduction == self.bit_depth_reduction,
            r.color_type_reduction == self.color_type_reduction,
            r.palette_reduction == self.palette_reduction,
            r.grayscale_reduction == self.grayscale_reduction,
            r.idat_recoding == self.idat_recoding,
            r.scale_16 == self.scale_16,
            engine_strip_view(r.strip) == strip_as_engine(self.strip@),
            deflater_of(r.deflate) == self.deflate,
            r.fast_evaluation == self.fast_evaluation,
            self.timeout is None <==> r.timeout is None,
            self.timeout matches Some(ms) ==> (r.timeout matches Some(d) && millis_of(d) == ms),
    {
        let interlace = match self.interlace {
            Some(i) => Some(i.to_engine()),
            None => None,
        };
        oxipng::Options {
            fix_errors: self.fix_errors,
            force: self.force,
            filter: filters_to_engine(&self.filter),
            interlace,
            optimize_alpha: self.optimize_alpha,
            bit_depth_reduction: self.bit_depth_reduction,
            color_type_reduction: self.color_type_reduction,
            palette_reduction: self.palette_reduction,
            grayscale_reduction: self.grayscale_reduction,
            idat_recoding: self.idat_recoding,
            scale_16: self.scale_16,
            strip: strip_to_engine(&self.strip),
            deflate: deflater_to_engine(self.deflate),
            fast_evaluation: self.fast_evaluation,
            timeout: timeout_to_engine(self.timeout),
        }
    }
}

/// Resolution is a function of its inputs: two resolutions of the same
/// level and overrides succeed or fail together and, when they succeed, give
/// configurations equal field by field.
pub proof fn resolution_is_deterministic(
    preset: Option<i64>,
    ov: Seq<(String, Value)>,
    r1: Result<Configuration, OptionError>,
    r2: Result<Configuration, OptionError>,
)
    requires
        resolves_to(preset, ov, r1),
        resolves_to(preset, ov, r2),
    ensures
        r1 is Ok <==> r2 is Ok,
        r1 is Ok ==> r1->Ok_0@ == r2->Ok_0@,
{
}

/// `apply_twice` for a few of the options; the options are split over
/// several lemmas, and each case asserted with its key written out, to keep
/// each proof within the solver's limits.
proof fn apply_twice_part1(c: ConfigView, k: OptionKey, v1: Value, v2: Value)
    requires
        k is Level || k is FixErrors || k is Force || k is Filter,
    ensures
        apply_spec(apply_spec(c, k, v1), k, v2) == apply_spec(c, k, v2),
{
    match k {
        OptionKey::Level => {
            assert(apply_spec(apply_spec(c, OptionKey::Level, v1), OptionKey::Level, v2) == apply_spec(c, OptionKey::Level, v2));
        },
        OptionKey::FixErrors => {
            assert(apply_spec(apply_spec(c, OptionKey::FixErrors, v1), OptionKey::FixErrors, v2) == apply_spec(c, OptionKey::FixErrors, v2));
        },
        OptionKey::Force => {
            assert(apply_spec(apply_spec(c, OptionKey::Force, v1), OptionKey::Force, v2) == apply_spec(c, OptionKey::Force, v2));
        },
        OptionKey::Filter => {
            assert(apply_spec(apply_spec(c, OptionKey::Filter, v1), OptionKey::Filter, v2) == apply_spec(c, OptionKey::Filter, v2));
        },
        _ => {},
    }
}

/// `apply_twice` for a few of the options; the options are split over
/// several lemmas, and each case asserted with its key written out, to keep
/// each proof within the solver's limits.
proof fn apply_twice_part2(c: ConfigView, k: OptionKey, v1: Value, v2: Value)
    requires
        k is Interlace || k is OptimizeAlpha || k is BitDepthReduction || k is ColorTypeReduction,
    ensures
        apply_spec(apply_spec(c, k, v1), k, v2) == apply_spec(c, k, v2),
{
    match k {
        OptionKey::Interlace => {
            assert(apply_spec(apply_spec(c, OptionKey::Interlace, v1), OptionKey::Interlace, v2) == apply_spec(c, OptionKey::Interlace, v2));
        },
        OptionKey::OptimizeAlpha => {
            assert(apply_spec(apply_spec(c, OptionKey::OptimizeAlpha, v1), OptionKey::OptimizeAlpha, v2) == apply_spec(c, OptionKey::OptimizeAlpha, v2));
        },
        OptionKey::BitDepthReduction => {
            assert(apply_spec(apply_spec(c, OptionKey::BitDepthReduction, v1), OptionKey::BitDepthReduction, v2) == apply_spec(c, OptionKey::BitDepthReduction, v2));
        },
        OptionKey::ColorTypeReduction => {
            assert(apply_spec(apply_spec(c, OptionKey::ColorTypeReduction, v1), OptionKey::ColorTypeReduction, v2) == apply_spec(c, OptionKey::ColorTypeReduction, v2));
        },
        _ => {},
    }
}

/// `apply_twice` for a few of the options; the options are split over
/// several lemmas, and each case asserted with its key written out, to keep
/// each proof within the solver's limits.
proof fn apply_twice_part3(c: ConfigView, k: OptionKey, v1: Value, v2: Value)
    requires
        k is PaletteReduction || k is GrayscaleReduction || k is IdatRecoding || k is Scale16,
    ensures
        apply_spec(apply_spec(c, k, v1), k, v2) == apply_spec(c, k, v2),
{
    match k {
        OptionKey::PaletteReduction => {
            assert(apply_spec(apply_spec(c, OptionKey::PaletteReduction, v1), OptionKey::PaletteReduction, v2) == apply_spec(c, OptionKey::PaletteReduction, v2));
        },
        OptionKey::GrayscaleReduction => {
            assert(apply_spec(apply_spec(c, OptionKey::GrayscaleReduction, v1), OptionKey::GrayscaleReduction, v2) == apply_spec(c, OptionKey::GrayscaleReduction, v2));
        },
        OptionKey::IdatRecoding => {
            assert(apply_spec(apply_spec(c, OptionKey::IdatRecoding, v1), OptionKey::IdatRecoding, v2) == apply_spec(c, OptionKey::IdatRecoding, v2));
        },
        OptionKey::Scale16 => {
            assert(apply_spec(apply_spec(c, OptionKey::Scale16, v1), OptionKey::Scale16, v2) == apply_spec(c, OptionKey::Scale16, v2));
        },
        _ => {},
    }
}

/// `apply_twice` for a few of the options; the options are split over
/// several lemmas, and each case asserted with its key written out, to keep
/// each proof within the solver's limits.
proof fn apply_twice_part4(c: ConfigView, k: OptionKey, v1: Value, v2: Value)
    requires
        k is Strip || k is Deflate || k is FastEvaluation || k is Timeout,
    ensures
        apply_spec(apply_spec(c, k, v1), k, v2) == apply_spec(c, k, v2),
{
    match k {
        OptionKey::Strip => {
            assert(apply_spec(apply_spec(c, OptionKey::Strip, v1), OptionKey::Strip, v2) == apply_spec(c, OptionKey::Strip, v2));
        },
        OptionKey::Deflate => {
            assert(apply_spec(apply_spec(c, OptionKey::Deflate, v1), OptionKey::Deflate, v2) == apply_spec(c, OptionKey::Deflate, v2));
        },
        OptionKey::FastEvaluation => {
            assert(apply_spec(apply_spec(c, OptionKey::FastEvaluation, v1), OptionKey::FastEvaluation, v2) == apply_spec(c, OptionKey::FastEvaluation, v2));
        },
        OptionKey::Timeout => {
            assert(apply_spec(apply_spec(c, OptionKey::Timeout, v1), OptionKey::Timeout, v2) == apply_spec(c, OptionKey::Timeout, v2));
        },
        _ => {},
    }
}

/// `apply_twice` for a few of the options; the options are split over
/// several lemmas, and each case asserted with its key written out, to keep
/// each proof within the solver's limits.
proof fn apply_twice_part5(c: ConfigView, k: OptionKey, v1: Value, v2: Value)
    requires
        k is Backup || k is Check || k is Pretend || k is PreserveAttrs || k is UseHeuristics,
    ensures
        apply_spec(apply_spec(c, k, v1), k, v2) == apply_spec(c, k, v2),
{
    match k {
        OptionKey::Backup => {
            assert(apply_spec(apply_spec(c, OptionKey::Backup, v1), OptionKey::Backup, v2) == apply_spec(c, OptionKey::Backup, v2));
        },
        OptionKey::Check => {
            assert(apply_spec(apply_spec(c, OptionKey::Check, v1), OptionKey::Check, v2) == apply_spec(c, OptionKey::Check, v2));
        },
        OptionKey::Pretend => {
            assert(apply_spec(apply_spec(c, OptionKey::Pretend, v1), OptionKey::Pretend, v2) == apply_spec(c, OptionKey::Pretend, v2));
        },
        OptionKey::PreserveAttrs => {
            assert(apply_spec(apply_spec(c, OptionKey::PreserveAttrs, v1), OptionKey::PreserveAttrs, v2) == apply_spec(c, OptionKey::PreserveAttrs, v2));
        },
        OptionKey::UseHeuristics => {
            assert(apply_spec(apply_spec(c, OptionKey::UseHeuristics, v1), OptionKey::UseHeuristics, v2) == apply_spec(c, OptionKey::UseHeuristics, v2));
        },
        _ => {},
    }
}

/// Setting an option twice is setting it to the second value.
pub proof fn apply_twice(c: ConfigView, k: OptionKey, v1: Value, v2: Value)
    ensures
        apply_spec(apply_spec(c, k, v1), k, v2) == apply_spec(c, k, v2),
{
    match k {
        OptionKey::Level | OptionKey::FixErrors | OptionKey::Force | OptionKey::Filter => apply_twice_part1(c, k, v1, v2),
        OptionKey::Interlace | OptionKey::OptimizeAlpha | OptionKey::BitDepthReduction | OptionKey::ColorTypeReduction => apply_twice_part2(c, k, v1, v2),
        OptionKey::PaletteReduction | OptionKey::GrayscaleReduction | OptionKey::IdatRecoding | OptionKey::Scale16 => apply_twice_part3(c, k, v1, v2),
        OptionKey::Strip | OptionKey::Deflate | OptionKey::FastEvaluation | OptionKey::Timeout => apply_twice_part4(c, k, v1, v2),
        _ => apply_twice_part5(c, k, v1, v2),
    }
}

/// A later override of an option replaces an earlier one: applying two
/// overrides of one name is applying the second alone.
pub proof fn later_override_wins(
    base: ConfigView,
    ov: Seq<(String, Value)>,
    first: (String, Value),
    second: (String, Value),
)
    requires
        first.0@ == second.0@,
    ensures
        resolve_spec(base, ov.push(first).push(second)) == resolve_spec(base, ov.push(second)),
{
    assert(ov.push(first).push(second).drop_last() == ov.push(first));
    assert(ov.push(first).drop_last() == ov);
    assert(ov.push(second).drop_last() == ov);
    let c = resolve_spec(base, ov);
    assert(resolve_spec(base, ov.push(first)) == match key_of(first.0@) {
        Some(k) => apply_spec(c, k, first.1),
        None => c,
    });
    match key_of(first.0@) {
        Some(k) => apply_twice(c, k, first.1, second.1),
        None => {},
    }
}

} // verus!
