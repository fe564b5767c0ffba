//! Translation of the engine's failures into this crate's error type.
use vstd::prelude::*;

use crate::raw::{engine_color, Color};

verus! {

#[verifier::external_type_specification]
pub struct ExBitDepth(oxipng::BitDepth);

#[verifier::external_type_specification]
#[verifier::reject_recursive_types(T)]
pub struct ExRgb<T>(rgb::Rgb<T>);

#[verifier::external_type_specification]
#[verifier::reject_recursive_types(T)]
#[verifier::reject_recursive_types(A)]
pub struct ExRgba<T, A>(rgb::Rgba<T, A>);

#[verifier::external_type_specification]
pub struct ExColorType(oxipng::ColorType);

#[verifier::external_type_specification]
pub struct ExPngError(oxipng::PngError);

/// Bits per channel of an engine bit depth.
pub open spec fn depth_bits(d: oxipng::BitDepth) -> nat {
    match d {
        oxipng::BitDepth::One => 1,
        oxipng::BitDepth::Two => 2,
        oxipng::BitDepth::Four => 4,
        oxipng::BitDepth::Eight => 8,
        oxipng::BitDepth::Sixteen => 16,
    }
}

/// Bits per channel of an engine bit depth.
pub fn bits_of_depth(d: oxipng::BitDepth) -> (r: u8)
    ensures
        r == depth_bits(d),
{
    match d {
        oxipng::BitDepth::One => 1,
        oxipng::BitDepth::Two => 2,
        oxipng::BitDepth::Four => 4,
        oxipng::BitDepth::Eight => 8,
        oxipng::BitDepth::Sixteen => 16,
    }
}

/// A failure reported by the engine, by category.
#[derive(Debug)]
pub enum EngineError {
    /// A deflate stream longer than the format can hold; the limit it broke.
    DeflatedDataTooLong(usize),
    TimedOut,
    NotPng,
    ApngNotSupported,
    ApngOutOfOrder,
    InvalidData,
    TruncatedData,
    /// A chunk that must be there is missing or empty; its name.
    ChunkMissing(String),
    /// A bit depth, in bits, that the color model does not allow, and the model.
    InvalidDepthForType(u8, Color),
    /// A pixel buffer whose length is not the one the image needs: the
    /// length given, then the one needed.
    IncorrectDataLength(usize, usize),
    C2paMetadataPreventsChanges,
    /// Any other failure, with the engine's description.
    Other(String),
    /// A category that this crate does not know.
    Unknown,
}

/// Whether `r` is the translation of the engine failure `e`.
pub open spec fn translates(e: oxipng::PngError, r: EngineError) -> bool {
    match e {
        oxipng::PngError::DeflatedDataTooLong(n) => r == EngineError::DeflatedDataTooLong(n),
        oxipng::PngError::TimedOut => r is TimedOut,
        oxipng::PngError::NotPNG => r is NotPng,
        oxipng::PngError::APNGNotSupported => r is ApngNotSupported,
        oxipng::PngError::APNGOutOfOrder => r is ApngOutOfOrder,
        oxipng::PngError::InvalidData => r is InvalidData,
        oxipng::PngError::TruncatedData => r is TruncatedData,
        oxipng::PngError::ChunkMissing(s) => r matches EngineError::ChunkMissing(t) && t@ == s@,
        oxipng::PngError::InvalidDepthForType(d, c) => r matches EngineError::InvalidDepthForType(n, m)
            && n == depth_bits(d) && m@ == engine_color(c),
        oxipng::PngError::IncorrectDataLength(a, b) => r == EngineError::IncorrectDataLength(a, b),
        oxipng::PngError::C2PAMetadataPreventsChanges => r is C2paMetadataPreventsChanges,
        oxipng::PngError::Other(s) => r matches EngineError::Other(t) && t@ == s@,
        _ => r is Unknown,
    }
}

/// The engine failure `err` as this crate's error; a category that this
/// crate does not know becomes `Unknown`.
pub fn handle_png_error(err: &oxipng::PngError) -> (r: EngineError)
    ensures
        translates(*err, r),
{
    match err {
        oxipng::PngError::DeflatedDataTooLong(n) => EngineError::DeflatedDataTooLong(*n),
        oxipng::PngError::TimedOut => EngineError::TimedOut,
        oxipng::PngError::NotPNG => EngineError::NotPng,
        oxipng::PngError::APNGNotSupported => EngineError::ApngNotSupported,
        oxipng::PngError::APNGOutOfOrder => EngineError::ApngOutOfOrder,
        oxipng::PngError::InvalidData => EngineError::InvalidData,
        oxipng::PngError::TruncatedData => EngineError::TruncatedData,
        oxipng::PngError::ChunkMissing(s) => EngineError::ChunkMissing(String::from_str(s)),
        oxipng::PngError::InvalidDepthForType(d, c) => EngineError::InvalidDepthForType(
            bits_of_depth(*d),
            Color::from_engine(c),
        ),
        oxipng::PngError::IncorrectDataLength(a, b) => EngineError::IncorrectDataLength(*a, *b),
        oxipng::PngError::C2PAMetadataPreventsChanges => EngineError::C2paMetadataPreventsChanges,
        oxipng::PngError::Other(s) => EngineError::Other(String::from_str(s)),
        _ => EngineError::Unknown,
    }
}

} // verus!
