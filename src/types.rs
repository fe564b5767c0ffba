//! The closed option axes: row filters and interlacing, with their
//! one-to-one mapping onto the engine's enumerations.
use vstd::prelude::*;

use crate::value::{
    chunk_items, chunks_error, chunks_ok, dedup, py_iter_to_collection, tag_views, Value, ValueError,
};

verus! {

/// A per-scanline filtering strategy.
#[derive(Clone, Copy, Debug, PartialEq, Eq, Hash, Structural)]
pub enum Filter {
    NoOp,
    Sub,
    Up,
    Average,
    Paeth,
    MinSum,
    Entropy,
    Bigrams,
    BigEnt,
    Brute,
}

/// The engine value that stands for `f`.
pub open spec fn engine_filter(f: Filter) -> oxipng::RowFilter {
    match f {
        Filter::NoOp => oxipng::RowFilter::None,
        Filter::Sub => oxipng::RowFilter::Sub,
        Filter::Up => oxipng::RowFilter::Up,
        Filter::Average => oxipng::RowFilter::Average,
        Filter::Paeth => oxipng::RowFilter::Paeth,
        Filter::MinSum => oxipng::RowFilter::MinSum,
        Filter::Entropy => oxipng::RowFilter::Entropy,
        Filter::Bigrams => oxipng::RowFilter::Bigrams,
        Filter::BigEnt => oxipng::RowFilter::BigEnt,
        Filter::Brute => oxipng::RowFilter::Brute,
    }
}

/// The filter that stands for the engine value `e`.
pub open spec fn filter_of_engine(e: oxipng::RowFilter) -> Filter {
    match e {
        oxipng::RowFilter::None => Filter::NoOp,
        oxipng::RowFilter::Sub => Filter::Sub,
        oxipng::RowFilter::Up => Filter::Up,
        oxipng::RowFilter::Average => Filter::Average,
        oxipng::RowFilter::Paeth => Filter::Paeth,
        oxipng::RowFilter::MinSum => Filter::MinSum,
        oxipng::RowFilter::Entropy => Filter::Entropy,
        oxipng::RowFilter::Bigrams => Filter::Bigrams,
        oxipng::RowFilter::BigEnt => Filter::BigEnt,
        oxipng::RowFilter::Brute => Filter::Brute,
    }
}

impl Filter {
    /// The engine's value for this filter.
    pub fn to_engine(self) -> (r: oxipng::RowFilter)
        ensures
            r == engine_filter(self),
    {
        match self {
            Filter::NoOp => oxipng::RowFilter::None,
            Filter::Sub => oxipng::RowFilter::Sub,
            Filter::Up => oxipng::RowFilter::Up,
            Filter::Average => oxipng::RowFilter::Average,
            Filter::Paeth => oxipng::RowFilter::Paeth,
            Filter::MinSum => oxipng::RowFilter::MinSum,
            Filter::Entropy => oxipng::RowFilter::Entropy,
            Filter::Bigrams => oxipng::RowFilter::Bigrams,
            Filter::BigEnt => oxipng::RowFilter::BigEnt,
            Filter::Brute => oxipng::RowFilter::Brute,
        }
    }

    /// The filter for an engine value.
    pub fn from_engine(e: oxipng::RowFilter) -> (r: Filter)
        ensures
            r == filter_of_engine(e),
    {
        match e {
            oxipng::RowFilter::None => Filter::NoOp,
            oxipng::RowFilter::Sub => Filter::Sub,
            oxipng::RowFilter::Up => Filter::Up,
            oxipng::RowFilter::Average => Filter::Average,
            oxipng::RowFilter::Paeth => Filter::Paeth,
            oxipng::RowFilter::MinSum => Filter::MinSum,
            oxipng::RowFilter::Entropy => Filter::Entropy,
            oxipng::RowFilter::Bigrams => Filter::Bigrams,
            oxipng::RowFilter::BigEnt => Filter::BigEnt,
            oxipng::RowFilter::Brute => Filter::Brute,
        }
    }
}

impl From<Filter> for oxipng::RowFilter {
    fn from(f: Filter) -> (r: oxipng::RowFilter) {
        f.to_engine()
    }
}

impl vstd::std_specs::convert::FromSpecImpl<Filter> for oxipng::RowFilter {
    open spec fn obeys_from_spec() -> bool {
        true
    }

    open spec fn from_spec(f: Filter) -> oxipng::RowFilter {
        engine_filter(f)
    }
}

/// Converting filters into engine values with `from` is a bijection: two
/// filters convert to the same value only if they are equal, and every
/// engine value is the conversion of exactly one filter.
pub proof fn row_filter_from_is_bijective(a: Filter, b: Filter, e: oxipng::RowFilter)
    ensures
        <oxipng::RowFilter as vstd::std_specs::convert::FromSpec<Filter>>::from_spec(a)
            == <oxipng::RowFilter as vstd::std_specs::convert::FromSpec<Filter>>::from_spec(b) ==> a == b,
        <oxipng::RowFilter as vstd::std_specs::convert::FromSpec<Filter>>::from_spec(filter_of_engine(e)) == e,
        <oxipng::RowFilter as vstd::std_specs::convert::FromSpec<Filter>>::from_spec(a) == e <==> a
            == filter_of_engine(e),
{
}

/// Whether an image is written progressively.
#[derive(Clone, Copy, Debug, PartialEq, Eq, Hash, Structural)]
pub enum Interlace {
    Off,
    Adam7,
}

/// The engine value that stands for `i`.
pub open spec fn engine_interlacing(i: Interlace) -> oxipng::Interlacing {
    match i {
        Interlace::Off => oxipng::Interlacing::None,
        Interlace::Adam7 => oxipng::Interlacing::Adam7,
    }
}

/// The interlacing mode that stands for the engine value `e`.
pub open spec fn interlacing_of_engine(e: oxipng::Interlacing) -> Interlace {
    match e {
        oxipng::Interlacing::None => Interlace::Off,
        oxipng::Interlacing::Adam7 => Interlace::Adam7,
    }
}

impl Interlace {
    /// The engine's value for this mode.
    pub fn to_engine(self) -> (r: oxipng::Interlacing)
        ensures
            r == engine_interlacing(self),
    {
        match self {
            Interlace::Off => oxipng::Interlacing::None,
            Interlace::Adam7 => oxipng::Interlacing::Adam7,
        }
    }

    /// The mode for an engine value.
    pub fn from_engine(e: oxipng::Interlacing) -> (r: Interlace)
        ensures
            r == interlacing_of_engine(e),
    {
        match e {
            oxipng::Interlacing::None => Interlace::Off,
            oxipng::Interlacing::Adam7 => Interlace::Adam7,
        }
    }
}

impl From<Interlace> for oxipng::Interlacing {
    fn from(i: Interlace) -> (r: oxipng::Interlacing) {
        i.to_engine()
    }
}

impl vstd::std_specs::convert::FromSpecImpl<Interlace> for oxipng::Interlacing {
    open spec fn obeys_from_spec() -> bool {
        true
    }

    open spec fn from_spec(i: Interlace) -> oxipng::Interlacing {
        engine_interlacing(i)
    }
}

/// Converting interlacing modes with `from` is a bijection, in the same
/// sense as for filters.
pub proof fn interlacing_from_is_bijective(a: Interlace, b: Interlace, e: oxipng::Interlacing)
    ensures
        <oxipng::Interlacing as vstd::std_specs::convert::FromSpec<Interlace>>::from_spec(a)
            == <oxipng::Interlacing as vstd::std_specs::convert::FromSpec<Interlace>>::from_spec(b) ==> a == b,
        <oxipng::Interlacing as vstd::std_specs::convert::FromSpec<Interlace>>::from_spec(interlacing_of_engine(e)) == e,
        <oxipng::Interlacing as vstd::std_specs::convert::FromSpec<Interlace>>::from_spec(a) == e <==> a
            == interlacing_of_engine(e),
{
}

} // verus!

verus! {

/// Which ancillary chunks the engine removes.
#[derive(Debug)]
pub enum StripPolicy {
    /// Strip nothing.
    Nothing,
    /// Strip the named chunks.
    Strip(Vec<[u8; 4]>),
    /// Strip the chunks that do not affect how the image is shown.
    Safe,
    /// Strip every chunk that may go, but the named ones.
    Keep(Vec<[u8; 4]>),
    /// Strip every chunk that may go.
    All,
}

/// The backend that compresses the image data.
#[derive(Clone, Copy, Debug, PartialEq, Eq, Structural)]
pub enum Deflater {
    /// libdeflate at a compression level.
    Libdeflater { compression: u8 },
    /// Zopfli with a number of iterations, never zero.
    Zopfli { iterations: u8 },
}

/// The lowest libdeflate level.
pub const MIN_LIBDEFLATE_LEVEL: u8 = 1;

/// The highest libdeflate level.
pub const MAX_LIBDEFLATE_LEVEL: u8 = 12;

impl Deflater {
    /// A libdeflate level lies in 1 to 12; Zopfli iterates at least once.
    pub open spec fn wf(self) -> bool {
        match self {
            Deflater::Libdeflater { compression } => MIN_LIBDEFLATE_LEVEL <= compression
                <= MAX_LIBDEFLATE_LEVEL,
            Deflater::Zopfli { iterations } => iterations > 0,
        }
    }
}

impl StripPolicy {
    /// The chunk names that the policy lists, if any.
    pub open spec fn tags(self) -> Seq<[u8; 4]> {
        match self {
            StripPolicy::Strip(t) => t@,
            StripPolicy::Keep(t) => t@,
            _ => Seq::empty(),
        }
    }

    /// Strip nothing.
    pub fn none() -> (r: StripPolicy)
        ensures
            r is Nothing,
    {
        StripPolicy::Nothing
    }

    /// Strip the chunks named in a collection of four-byte names.
    pub fn strip(val: &Value) -> (r: Result<StripPolicy, ValueError>)
        ensures
            r is Ok <==> chunks_ok(*val),
            r matches Ok(p) ==> p is Strip && tag_views(p.tags()) == dedup(chunk_items(*val)),
            r matches Err(e) ==> chunks_error(*val, e),
    {
        let tags = py_iter_to_collection(val)?;
        Ok(StripPolicy::Strip(tags))
    }

    /// Strip what does not affect how the image is shown.
    pub fn safe() -> (r: StripPolicy)
        ensures
            r is Safe,
    {
        StripPolicy::Safe
    }

    /// Strip everything that may go, but the chunks named in a collection.
    pub fn keep(val: &Value) -> (r: Result<StripPolicy, ValueError>)
        ensures
            r is Ok <==> chunks_ok(*val),
            r matches Ok(p) ==> p is Keep && tag_views(p.tags()) == dedup(chunk_items(*val)),
            r matches Err(e) ==> chunks_error(*val, e),
    {
        let tags = py_iter_to_collection(val)?;
        Ok(StripPolicy::Keep(tags))
    }

    /// Strip everything that may go.
    pub fn all() -> (r: StripPolicy)
        ensures
            r is All,
    {
        StripPolicy::All
    }
}

impl Deflater {
    /// libdeflate at the given level, which must lie in 1 to 12.
    pub fn libdeflater(compression: u8) -> (r: Result<Deflater, ValueError>)
        ensures
            MIN_LIBDEFLATE_LEVEL <= compression <= MAX_LIBDEFLATE_LEVEL ==> r == Ok::<
                Deflater,
                ValueError,
            >(Deflater::Libdeflater { compression }),
            !(MIN_LIBDEFLATE_LEVEL <= compression <= MAX_LIBDEFLATE_LEVEL) ==> (r matches Err(
                ValueError::CompressionOutOfRange(c),
            ) && c == compression),
            r matches Ok(d) ==> d.wf(),
    {
        if MIN_LIBDEFLATE_LEVEL <= compression && compression <= MAX_LIBDEFLATE_LEVEL {
            Ok(Deflater::Libdeflater { compression })
        } else {
            Err(ValueError::CompressionOutOfRange(compression))
        }
    }

    /// Zopfli with the given number of iterations, which may not be zero.
    pub fn zopfli(iterations: u8) -> (r: Result<Deflater, ValueError>)
        ensures
            iterations > 0 ==> r == Ok::<Deflater, ValueError>(Deflater::Zopfli { iterations }),
            iterations == 0 ==> r matches Err(ValueError::ZeroIterations),
            r matches Ok(d) ==> d.wf(),
    {
        if iterations == 0 {
            Err(ValueError::ZeroIterations)
        } else {
            Ok(Deflater::Zopfli { iterations })
        }
    }
}

/// Settings for the Zopfli backend.
#[derive(Clone, Copy, Debug)]
pub struct Zopfli {
    iterations: u8,
}

impl Zopfli {
    /// The number of compression iterations; never zero.
    pub closed spec fn iterations(self) -> u8 {
        self.iterations
    }

    pub fn new(iterations: u8) -> (r: Result<Zopfli, ValueError>)
        ensures
            iterations > 0 ==> (r matches Ok(z) && z.iterations() == iterations),
            iterations == 0 ==> r matches Err(ValueError::ZeroIterations),
            r matches Ok(z) ==> z.iterations() > 0,
    {
        if iterations == 0 {
            Err(ValueError::ZeroIterations)
        } else {
            Ok(Zopfli { iterations })
        }
    }
}

/// Settings for the libdeflate backend, at a fixed level.
#[derive(Clone, Copy, Debug)]
pub struct Libdeflater {
    compression: u8,
}

/// The level at which `Libdeflater::new` compresses.
pub const LIBDEFLATER_LEVEL: u8 = 2;

impl Libdeflater {
    pub closed spec fn compression(self) -> u8 {
        self.compression
    }

    pub fn new() -> (r: Libdeflater)
        ensures
            r.compression() == LIBDEFLATER_LEVEL,
            MIN_LIBDEFLATE_LEVEL <= r.compression() <= MAX_LIBDEFLATE_LEVEL,
    {
        Libdeflater { compression: LIBDEFLATER_LEVEL }
    }
}

impl From<Zopfli> for Deflater {
    fn from(z: Zopfli) -> (r: Deflater) {
        Deflater::Zopfli { iterations: z.iterations }
    }
}

impl vstd::std_specs::convert::FromSpecImpl<Zopfli> for Deflater {
    open spec fn obeys_from_spec() -> bool {
        true
    }

    open spec fn from_spec(z: Zopfli) -> Deflater {
        Deflater::Zopfli { iterations: z.iterations() }
    }
}

impl From<Libdeflater> for Deflater {
    fn from(l: Libdeflater) -> (r: Deflater) {
        Deflater::Libdeflater { compression: l.compression }
    }
}

impl vstd::std_specs::convert::FromSpecImpl<Libdeflater> for Deflater {
    open spec fn obeys_from_spec() -> bool {
        true
    }

    open spec fn from_spec(l: Libdeflater) -> Deflater {
        Deflater::Libdeflater { compression: l.compression() }
    }
}

} // verus!
