use pyoxipng::{handle_png_error, optimize_from_memory, resolve, Bitmap, Color, EngineError, RawImageError};

#[test]
fn rgba_two_by_two_needs_sixteen_bytes() {
    let b = Bitmap::py_new(vec![0u8; 16], 2, 2, None, Some(8));
    assert!(b.is_ok());
    let r = Bitmap::py_new(vec![0u8; 15], 2, 2, None, Some(8));
    assert!(matches!(r, Err(RawImageError::Engine(EngineError::IncorrectDataLength(15, 16)))));
}

#[test]
fn defaults_are_rgba_eight_bits() {
    assert!(Bitmap::py_new(vec![0u8; 16], 2, 2, None, None).is_ok());
    assert!(Bitmap::py_new(vec![0u8; 16], 2, 2, Some(Color::rgba()), None).is_ok());
}

#[test]
fn bit_depth_must_be_known() {
    let r = Bitmap::py_new(vec![0u8; 16], 2, 2, None, Some(3));
    assert!(matches!(r, Err(RawImageError::InvalidBitDepth(3))));
}

#[test]
fn bit_depth_must_suit_the_color_model() {
    let r = Bitmap::py_new(vec![0u8; 1], 2, 2, Some(Color::rgba()), Some(1));
    assert!(matches!(r, Err(RawImageError::Engine(EngineError::InvalidDepthForType(1, Color::Rgba)))));
    let r = Bitmap::py_new(vec![0u8; 8], 2, 2, Some(Color::indexed(vec![[0, 0, 0, 255]]).unwrap()), Some(16));
    assert!(matches!(r, Err(RawImageError::Engine(EngineError::InvalidDepthForType(16, Color::Indexed { .. })))));
}

#[test]
fn rows_are_padded_to_whole_bytes() {
    // 3 pixels of 1-bit gray: one byte per row.
    assert!(Bitmap::py_new(vec![0u8; 2], 3, 2, Some(Color::grayscale(None)), Some(1)).is_ok());
    let r = Bitmap::py_new(vec![0u8; 1], 3, 2, Some(Color::grayscale(Some(0))), Some(1));
    assert!(matches!(r, Err(RawImageError::Engine(EngineError::IncorrectDataLength(1, 2)))));
    // 16-bit RGB: six bytes per pixel.
    assert!(Bitmap::py_new(vec![0u8; 12], 2, 1, Some(Color::rgb(Some([1, 2, 3]))), Some(16)).is_ok());
}

#[test]
fn palette_length_limits() {
    assert!(matches!(Color::indexed(vec![]), Err(RawImageError::InvalidPaletteLength(0))));
    assert!(Color::indexed(vec![[1, 2, 3, 4]; 256]).is_ok());
    assert!(matches!(Color::indexed(vec![[1, 2, 3, 4]; 257]), Err(RawImageError::InvalidPaletteLength(257))));
    let bad = Color::Indexed { palette: vec![] };
    assert!(matches!(Bitmap::py_new(vec![0u8; 4], 2, 2, Some(bad), Some(8)), Err(RawImageError::InvalidPaletteLength(0))));
}

#[test]
fn chunk_names_are_four_bytes() {
    let mut b = Bitmap::py_new(vec![0u8; 16], 2, 2, None, Some(8)).unwrap();
    assert!(b.add_png_chunk(b"tEXt", b"Comment\0hi".to_vec()).is_ok());
    assert!(matches!(b.add_png_chunk(b"tEX", vec![]), Err(RawImageError::InvalidChunkName)));
    assert!(matches!(b.add_png_chunk(b"tEXtt", vec![]), Err(RawImageError::InvalidChunkName)));
}

#[test]
fn encoding_gives_a_png_and_can_repeat() {
    let mut b = Bitmap::py_new(vec![255u8; 16], 2, 2, Some(Color::grayscale_alpha()), Some(16)).unwrap();
    b.add_icc_profile(b"not really a profile");
    b.add_icc_profile(b"a second profile replaces the first");
    assert!(b.add_png_chunk(b"tEXt", b"Comment\0hello".to_vec()).is_ok());
    let c = resolve(Some(0), &vec![]).unwrap();
    let png = b.create_optimized_png(&c).unwrap();
    assert_eq!(&png[..8], &[0x89, b'P', b'N', b'G', 0x0D, 0x0A, 0x1A, 0x0A]);
    let again = b.create_optimized_png(&c).unwrap();
    assert_eq!(png, again);
    let optimized = optimize_from_memory(&png, &c).unwrap();
    assert_eq!(&optimized[..8], &png[..8]);
}

#[test]
fn optimizing_non_png_bytes_fails() {
    let c = resolve(None, &vec![]).unwrap();
    let r = optimize_from_memory(b"definitely not a png", &c);
    assert!(matches!(r, Err(EngineError::NotPng)));
}

#[test]
fn engine_errors_translate_by_category() {
    assert!(matches!(handle_png_error(&oxipng::PngError::TimedOut), EngineError::TimedOut));
    assert!(matches!(handle_png_error(&oxipng::PngError::TruncatedData), EngineError::TruncatedData));
    assert!(matches!(handle_png_error(&oxipng::PngError::InvalidData), EngineError::InvalidData));
    assert!(matches!(handle_png_error(&oxipng::PngError::APNGNotSupported), EngineError::ApngNotSupported));
    assert!(matches!(
        handle_png_error(&oxipng::PngError::DeflatedDataTooLong(9)),
        EngineError::DeflatedDataTooLong(9)
    ));
    match handle_png_error(&oxipng::PngError::ChunkMissing("IHDR")) {
        EngineError::ChunkMissing(s) => assert_eq!(s, "IHDR"),
        other => panic!("unexpected {:?}", other),
    }
    match handle_png_error(&oxipng::PngError::new("boom")) {
        EngineError::Other(s) => assert_eq!(s, "boom"),
        other => panic!("unexpected {:?}", other),
    }
}

#[test]
fn depth_error_names_the_color_model() {
    let r = Bitmap::py_new(vec![0u8; 2], 2, 2, Some(Color::grayscale_alpha()), Some(2));
    assert!(matches!(r, Err(RawImageError::Engine(EngineError::InvalidDepthForType(2, Color::GrayscaleAlpha)))));
    let rgba = oxipng::ColorType::RGBA;
    let e = oxipng::PngError::InvalidDepthForType(oxipng::BitDepth::Four, rgba);
    assert!(matches!(handle_png_error(&e), EngineError::InvalidDepthForType(4, Color::Rgba)));
}

#[test]
fn encoding_with_chunks_and_profile_at_highest_level() {
    let mut b = Bitmap::py_new(vec![7u8; 12], 2, 2, Some(Color::rgb(None)), Some(8)).unwrap();
    assert!(b.add_png_chunk(b"tEXt", b"Title\0x".to_vec()).is_ok());
    b.add_icc_profile(b"profile bytes");
    let c = resolve(Some(6), &vec![]).unwrap();
    let png = b.create_optimized_png(&c).unwrap();
    assert_eq!(&png[1..4], b"PNG");
}

#[test]
fn color_models_convert_to_the_engine_and_back() {
    let c = Color::indexed(vec![[1, 2, 3, 4], [5, 6, 7, 8]]).unwrap();
    match c.to_engine() {
        oxipng::ColorType::Indexed { palette } => {
            assert_eq!(palette.len(), 2);
            assert_eq!((palette[1].r, palette[1].g, palette[1].b, palette[1].a), (5, 6, 7, 8));
        }
        other => panic!("unexpected {:?}", other),
    }
    match Color::from_engine(&Color::rgb(Some([9, 10, 11])).to_engine()) {
        Color::Rgb { transparent_color } => assert_eq!(transparent_color, Some([9, 10, 11])),
        other => panic!("unexpected {:?}", other),
    }
    assert!(matches!(Color::from_engine(&oxipng::ColorType::GrayscaleAlpha), Color::GrayscaleAlpha));
}
