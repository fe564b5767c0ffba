//! The engine's types as this crate sees them, and the calls into the engine.
//!
//! Every function here that is marked `external_body` is trusted: its
//! contract restates what the engine's source shows, and nothing else.
use vstd::prelude::*;

use crate::error::depth_bits;
use crate::raw::{depth_fits, engine_color, expected_len, row_bits, ColorView};
use crate::types::Deflater;

verus! {

#[verifier::external_type_specification]
#[verifier::external_body]
#[verifier::reject_recursive_types(T)]
#[verifier::reject_recursive_types(S)]
pub struct ExIndexSet<T, S>(oxipng::IndexSet<T, S>);

#[verifier::external_type_specification]
pub struct ExRowFilter(oxipng::RowFilter);

#[verifier::external_type_specification]
pub struct ExInterlacing(oxipng::Interlacing);

#[verifier::external_type_specification]
pub struct ExStripChunks(oxipng::StripChunks);

#[verifier::external_type_specification]
#[verifier::external_body]
pub struct ExDeflaters(oxipng::Deflaters);

#[verifier::external_type_specification]
pub struct ExOptions(oxipng::Options);

/// The row filters that an engine filter set holds, in insertion order.
pub uninterp spec fn filters_in(s: oxipng::IndexSet<oxipng::RowFilter>) -> Seq<oxipng::RowFilter>;

/// The chunk names that an engine chunk set holds, in insertion order.
pub uninterp spec fn tags_in(s: oxipng::IndexSet<[u8; 4]>) -> Seq<[u8; 4]>;

/// The backend and its parameter that an engine deflater value holds.
pub uninterp spec fn deflater_of(d: oxipng::Deflaters) -> Deflater;

#[verifier::external_type_specification]
#[verifier::external_body]
pub struct ExRawImage(oxipng::RawImage);

/// What an engine raw image holds.
pub struct ImageView {
    pub width: u32,
    pub height: u32,
    pub color: ColorView,
    /// Bits per channel.
    pub bits: nat,
    /// The pixel buffer.
    pub data: Seq<u8>,
    /// The ancillary chunks to write out, in order.
    pub chunks: Seq<([u8; 4], Seq<u8>)>,
}

/// The dimensions, color model, bit depth, pixels and ancillary chunks that
/// an engine raw image holds.
pub uninterp spec fn image_of(img: oxipng::RawImage) -> ImageView;

/// An image as the engine builds it, before any chunk is added.
pub open spec fn new_image(
    width: u32,
    height: u32,
    color: oxipng::ColorType,
    depth: oxipng::BitDepth,
    data: Seq<u8>,
) -> ImageView {
    ImageView {
        width,
        height,
        color: engine_color(color),
        bits: depth_bits(depth),
        data,
        chunks: Seq::empty(),
    }
}

/// Whether two images agree in everything but their chunks.
pub open spec fn same_pixels(a: ImageView, b: ImageView) -> bool {
    &&& a.width == b.width
    &&& a.height == b.height
    &&& a.color == b.color
    &&& a.bits == b.bits
    &&& a.data == b.data
}

/// Whether `c` is an ICC profile chunk as the engine makes it: named `iCCP`,
/// its data starting with the profile name `icc`, a zero separator and a
/// zero compression method.
pub open spec fn is_iccp_chunk(c: ([u8; 4], Seq<u8>)) -> bool {
    &&& c.0@ == seq![0x69u8, 0x43u8, 0x43u8, 0x50u8]
    &&& c.1.len() >= 5
    &&& c.1.take(5) == seq![0x69u8, 0x63u8, 0x63u8, 0u8, 0u8]
}

/// The whole milliseconds in a duration.
pub uninterp spec fn millis_of(d: core::time::Duration) -> nat;

/// The engine's filter set for a preset level (levels above six act as six).
pub open spec fn preset_filters(level: u8) -> Seq<oxipng::RowFilter> {
    if level <= 1 {
        seq![]
    } else if level == 2 {
        seq![
            oxipng::RowFilter::None,
            oxipng::RowFilter::Sub,
            oxipng::RowFilter::Entropy,
            oxipng::RowFilter::Bigrams,
        ]
    } else if level <= 4 {
        seq![
            oxipng::RowFilter::None,
            oxipng::RowFilter::Bigrams,
            oxipng::RowFilter::BigEnt,
            oxipng::RowFilter::Brute,
        ]
    } else if level == 5 {
        seq![
            oxipng::RowFilter::None,
            oxipng::RowFilter::Sub,
            oxipng::RowFilter::Entropy,
            oxipng::RowFilter::Bigrams,
            oxipng::RowFilter::Up,
            oxipng::RowFilter::MinSum,
            oxipng::RowFilter::BigEnt,
            oxipng::RowFilter::Brute,
        ]
    } else {
        seq![
            oxipng::RowFilter::None,
            oxipng::RowFilter::Sub,
            oxipng::RowFilter::Entropy,
            oxipng::RowFilter::Bigrams,
            oxipng::RowFilter::Average,
            oxipng::RowFilter::Paeth,
            oxipng::RowFilter::Up,
            oxipng::RowFilter::MinSum,
            oxipng::RowFilter::BigEnt,
            oxipng::RowFilter::Brute,
        ]
    }
}

/// The engine's libdeflate level for a preset level.
pub open spec fn preset_compression(level: u8) -> u8 {
    if level == 0 {
        5
    } else if level == 1 {
        10
    } else if level <= 3 {
        11
    } else {
        12
    }
}

/// Whether `o` holds the engine's settings for preset `level`.
pub open spec fn is_preset(o: oxipng::Options, level: u8) -> bool {
    &&& !o.fix_errors
    &&& !o.force
    &&& filters_in(o.filter) == preset_filters(level)
    &&& o.interlace == Some(oxipng::Interlacing::None)
    &&& !o.optimize_alpha
    &&& o.bit_depth_reduction
    &&& o.color_type_reduction
    &&& o.palette_reduction
    &&& o.grayscale_reduction
    &&& o.idat_recoding
    &&& !o.scale_16
    &&& o.strip is None
    &&& deflater_of(o.deflate) == (Deflater::Libdeflater { compression: preset_compression(level) })
    &&& o.fast_evaluation == (level <= 2)
    &&& o.timeout is None
}

/// Relies on `oxipng::Options::default`, which builds the settings of
/// preset two.
#[verifier::external_body]
pub(crate) fn engine_default() -> (r: oxipng::Options)
    ensures
        is_preset(r, 2),
{
    oxipng::Options::default()
}

/// Relies on `oxipng::Options::from_preset`: the default settings with the
/// changes of the level's preset applied; levels above six give preset six.
#[verifier::external_body]
pub(crate) fn engine_preset(level: u8) -> (r: oxipng::Options)
    ensures
        is_preset(r, if level > 6 { 6 } else { level }),
{
    oxipng::Options::from_preset(level)
}

/// Relies on `IndexSet::new`: an empty filter set.
#[verifier::external_body]
pub(crate) fn new_filter_set() -> (r: oxipng::IndexSet<oxipng::RowFilter>)
    ensures
        filters_in(r) == Seq::<oxipng::RowFilter>::empty(),
{
    oxipng::IndexSet::new()
}

/// Relies on `IndexSet::insert`: a value not yet present goes at the end;
/// one already present leaves the set as it was.
#[verifier::external_body]
pub(crate) fn insert_filter(s: &mut oxipng::IndexSet<oxipng::RowFilter>, f: oxipng::RowFilter)
    ensures
        filters_in(*final(s)) == if filters_in(*old(s)).contains(f) {
            filters_in(*old(s))
        } else {
            filters_in(*old(s)).push(f)
        },
{
    s.insert(f);
}

/// Relies on `IndexSet::len`.
#[verifier::external_body]
pub(crate) fn filter_set_len(s: &oxipng::IndexSet<oxipng::RowFilter>) -> (r: usize)
    ensures
        r == filters_in(*s).len(),
{
    s.len()
}

/// Relies on `IndexSet::get_index`: the value at a position, if there is one.
#[verifier::external_body]
pub(crate) fn filter_at(s: &oxipng::IndexSet<oxipng::RowFilter>, i: usize) -> (r: Option<
    oxipng::RowFilter,
>)
    ensures
        i < filters_in(*s).len() ==> r == Some(filters_in(*s)[i as int]),
        i >= filters_in(*s).len() ==> r is None,
{
    s.get_index(i).copied()
}

/// Relies on `IndexSet::new`: an empty chunk-name set.
#[verifier::external_body]
pub(crate) fn new_tag_set() -> (r: oxipng::IndexSet<[u8; 4]>)
    ensures
        tags_in(r) == Seq::<[u8; 4]>::empty(),
{
    oxipng::IndexSet::new()
}

/// Relies on `IndexSet::insert`, as for filter sets.
#[verifier::external_body]
pub(crate) fn insert_tag(s: &mut oxipng::IndexSet<[u8; 4]>, t: [u8; 4])
    ensures
        tags_in(*final(s)) == if tags_in(*old(s)).contains(t) {
            tags_in(*old(s))
        } else {
            tags_in(*old(s)).push(t)
        },
{
    s.insert(t);
}

/// Relies on `IndexSet::len`.
#[verifier::external_body]
pub(crate) fn tag_set_len(s: &oxipng::IndexSet<[u8; 4]>) -> (r: usize)
    ensures
        r == tags_in(*s).len(),
{
    s.len()
}

/// Relies on `IndexSet::get_index`.
#[verifier::external_body]
pub(crate) fn tag_at(s: &oxipng::IndexSet<[u8; 4]>, i: usize) -> (r: Option<[u8; 4]>)
    ensures
        i < tags_in(*s).len() ==> r == Some(tags_in(*s)[i as int]),
        i >= tags_in(*s).len() ==> r is None,
{
    s.get_index(i).copied()
}

/// Relies on the engine's `Deflaters` variants, which carry the backend's
/// parameter as it is given (Zopfli's as a non-zero byte).
#[verifier::external_body]
pub(crate) fn deflater_to_engine(d: Deflater) -> (r: oxipng::Deflaters)
    requires
        d.wf(),
    ensures
        deflater_of(r) == d,
{
    match d {
        Deflater::Libdeflater { compression } => oxipng::Deflaters::Libdeflater { compression },
        Deflater::Zopfli { iterations } => oxipng::Deflaters::Zopfli {
            iterations: std::num::NonZeroU8::new(iterations).unwrap(),
        },
    }
}

/// Relies on the engine's `Deflaters` variants, read back field by field.
#[verifier::external_body]
pub(crate) fn deflater_from_engine(d: &oxipng::Deflaters) -> (r: Deflater)
    ensures
        r == deflater_of(*d),
{
    match d {
        oxipng::Deflaters::Libdeflater { compression } => Deflater::Libdeflater {
            compression: *compression,
        },
        oxipng::Deflaters::Zopfli { iterations } => Deflater::Zopfli { iterations: iterations.get() },
    }
}

/// Relies on `Duration::from_millis`: a duration of exactly `ms` milliseconds.
#[verifier::external_body]
pub(crate) fn duration_from_millis(ms: u64) -> (r: core::time::Duration)
    ensures
        millis_of(r) == ms,
{
    core::time::Duration::from_millis(ms)
}

/// Relies on `Duration::as_millis`: the whole milliseconds in a duration.
#[verifier::external_body]
pub(crate) fn duration_millis(d: &core::time::Duration) -> (r: u128)
    ensures
        r == millis_of(*d),
{
    d.as_millis()
}

/// Whether the engine's color type allows the engine's bit depth.
pub open spec fn depth_allowed(color: oxipng::ColorType, depth: oxipng::BitDepth) -> bool {
    depth_fits(engine_color(color), depth_bits(depth))
}

/// The pixel buffer length that the engine asks for.
pub open spec fn needed_len(width: u32, height: u32, color: oxipng::ColorType, depth: oxipng::BitDepth) -> nat {
    expected_len(width, height, engine_color(color), depth_bits(depth))
}

/// Whether `r` is the engine's refusal of the bit depth `depth` for `color`.
pub open spec fn refused_depth<T>(
    r: Result<T, oxipng::PngError>,
    depth: oxipng::BitDepth,
    color: oxipng::ColorType,
) -> bool {
    r matches Err(oxipng::PngError::InvalidDepthForType(d, c)) && d == depth && c == color
}

/// Whether `r` is the engine's refusal of a buffer of `given` bytes where
/// `needed` are needed.
pub open spec fn refused_length<T>(r: Result<T, oxipng::PngError>, given: nat, needed: nat) -> bool {
    r matches Err(oxipng::PngError::IncorrectDataLength(g, n)) && g == given && n == needed
}

/// Relies on `oxipng::RawImage::new`: it refuses a bit depth that the color
/// type does not allow, then a buffer whose length is not the row length in
/// whole bytes times the height; otherwise it succeeds.
#[verifier::external_body]
pub(crate) fn engine_raw_image(
    width: u32,
    height: u32,
    color: oxipng::ColorType,
    depth: oxipng::BitDepth,
    data: Vec<u8>,
) -> (r: Result<oxipng::RawImage, oxipng::PngError>)
    requires
        row_bits(width, engine_color(color), depth_bits(depth)) <= usize::MAX,
        needed_len(width, height, color, depth) <= usize::MAX,
    ensures
        !depth_allowed(color, depth) ==> refused_depth(r, depth, color),
        depth_allowed(color, depth) && data@.len() != needed_len(width, height, color, depth) ==> refused_length(r, data@.len(), needed_len(width, height, color, depth)),
        depth_allowed(color, depth) && data@.len() == needed_len(width, height, color, depth) ==> r is Ok,
        r matches Ok(img) ==> image_of(img) == new_image(width, height, color, depth, data@),
{
    oxipng::RawImage::new(width, height, color, depth, data)
}

/// Relies on `oxipng::RawImage::add_png_chunk`, which appends a chunk.
#[verifier::external_body]
pub(crate) fn engine_add_chunk(img: &mut oxipng::RawImage, name: [u8; 4], data: Vec<u8>)
    ensures
        same_pixels(image_of(*final(img)), image_of(*old(img))),
        image_of(*final(img)).chunks == image_of(*old(img)).chunks.push((name, data@)),
{
    img.add_png_chunk(name, data)
}

/// Relies on `oxipng::RawImage::add_icc_profile`, which compresses the
/// profile and appends it as an `iCCP` chunk; if compressing fails, it adds
/// nothing.
#[verifier::external_body]
pub(crate) fn engine_add_icc(img: &mut oxipng::RawImage, data: &[u8])
    ensures
        same_pixels(image_of(*final(img)), image_of(*old(img))),
        image_of(*final(img)).chunks == image_of(*old(img)).chunks || (image_of(*final(img)).chunks.len() == image_of(*old(img)).chunks.len() + 1 && image_of(*final(img)).chunks.drop_last() == image_of(*old(img)).chunks && is_iccp_chunk(image_of(*final(img)).chunks.last())),
{
    img.add_icc_profile(data)
}

/// Relies on `oxipng::RawImage::create_optimized_png`, which encodes the
/// image without changing it. libdeflate panics on a level above 12, which
/// `requires` rules out.
#[verifier::external_body]
pub(crate) fn engine_encode(img: &oxipng::RawImage, opts: &oxipng::Options) -> (r: Result<
    Vec<u8>,
    oxipng::PngError,
>)
    requires
        deflater_of(opts.deflate).wf(),
{
    img.create_optimized_png(opts)
}

/// Relies on `oxipng::optimize_from_memory`, which optimizes a PNG file held
/// in memory. libdeflate panics on a level above 12, which `requires` rules
/// out.
#[verifier::external_body]
pub(crate) fn engine_optimize_from_memory(data: &[u8], opts: &oxipng::Options) -> (r: Result<
    Vec<u8>,
    oxipng::PngError,
>)
    requires
        deflater_of(opts.deflate).wf(),
{
    oxipng::optimize_from_memory(data, opts)
}

} // verus!
