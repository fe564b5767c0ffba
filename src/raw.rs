//! Raw image staging: a pixel buffer with its color model and bit depth,
//! validated on construction, plus the ancillary chunks that go with it.
use vstd::prelude::*;

use crate::engine::{
    image_of, is_iccp_chunk, engine_add_chunk, engine_add_icc, engine_encode, engine_optimize_from_memory,
    engine_raw_image,
};
use crate::error::{depth_bits, handle_png_error, translates, EngineError};
use crate::options::{copy_vec, Configuration};

verus! {

/// How pixels are laid out, with the color model's own data.
#[derive(Debug)]
pub enum Color {
    /// One gray channel, maybe with a shade that stands for transparency.
    Grayscale { transparent_shade: Option<u16> },
    /// Three channels, maybe with a color that stands for transparency.
    Rgb { transparent_color: Option<[u16; 3]> },
    /// One palette index per pixel; the palette holds 1 to 256 entries.
    Indexed { palette: Vec<[u8; 4]> },
    GrayscaleAlpha,
    Rgba,
}

/// A color model as a mathematical value.
pub enum ColorView {
    Grayscale { transparent_shade: Option<u16> },
    Rgb { transparent_color: Option<(u16, u16, u16)> },
    Indexed { palette: Seq<(u8, u8, u8, u8)> },
    GrayscaleAlpha,
    Rgba,
}

impl View for Color {
    type V = ColorView;

    open spec fn view(&self) -> ColorView {
        match self {
            Color::Grayscale { transparent_shade } => ColorView::Grayscale {
                transparent_shade: *transparent_shade,
            },
            Color::Rgb { transparent_color } => ColorView::Rgb {
                transparent_color: match transparent_color {
                    Some(t) => Some((t[0], t[1], t[2])),
                    None => None,
                },
            },
            Color::Indexed { palette } => ColorView::Indexed {
                palette: palette@.map_values(|p: [u8; 4]| (p[0], p[1], p[2], p[3])),
            },
            Color::GrayscaleAlpha => ColorView::GrayscaleAlpha,
            Color::Rgba => ColorView::Rgba,
        }
    }
}

/// The engine's color type as a color model of this crate.
pub open spec fn engine_color(c: oxipng::ColorType) -> ColorView {
    match c {
        oxipng::ColorType::Grayscale { transparent_shade } => ColorView::Grayscale { transparent_shade },
        oxipng::ColorType::RGB { transparent_color } => ColorView::Rgb {
            transparent_color: match transparent_color {
                Some(t) => Some((t.r, t.g, t.b)),
                None => None,
            },
        },
        oxipng::ColorType::Indexed { palette } => ColorView::Indexed {
            palette: palette@.map_values(|p: rgb::Rgba<u8, u8>| (p.r, p.g, p.b, p.a)),
        },
        oxipng::ColorType::GrayscaleAlpha => ColorView::GrayscaleAlpha,
        oxipng::ColorType::RGBA => ColorView::Rgba,
    }
}

/// The most entries a palette holds.
pub const MAX_PALETTE_LEN: usize = 256;

/// Why an image or a part of it was refused.
#[derive(Debug)]
pub enum RawImageError {
    /// A bit depth other than 1, 2, 4, 8 or 16.
    InvalidBitDepth(u8),
    /// A palette with no entry or more than 256.
    InvalidPaletteLength(usize),
    /// A chunk name that is not four bytes long.
    InvalidChunkName,
    /// Dimensions whose pixel count the machine cannot address.
    TooLarge,
    /// The engine refused the image.
    Engine(EngineError),
}

/// Channels per pixel of a color model.
pub open spec fn channels(c: ColorView) -> nat {
    match c {
        ColorView::Grayscale { .. } => 1,
        ColorView::Indexed { .. } => 1,
        ColorView::GrayscaleAlpha => 2,
        ColorView::Rgb { .. } => 3,
        ColorView::Rgba => 4,
    }
}

/// Whether the color model allows `bits` bits per channel.
pub open spec fn depth_fits(c: ColorView, bits: nat) -> bool {
    match c {
        ColorView::Grayscale { .. } => true,
        ColorView::Indexed { .. } => bits <= 8,
        _ => bits >= 8,
    }
}

/// Bits in one row of pixels.
pub open spec fn row_bits(width: u32, c: ColorView, bits: nat) -> nat {
    bits * channels(c) * (width as nat)
}

/// Bytes that a pixel buffer of these dimensions needs: whole bytes per row.
pub open spec fn expected_len(width: u32, height: u32, c: ColorView, bits: nat) -> nat {
    ((row_bits(width, c, bits) + 7) / 8) * (height as nat)
}

/// Whether `d` is a bit depth that the format knows.
pub open spec fn valid_depth(d: u8) -> bool {
    d == 1 || d == 2 || d == 4 || d == 8 || d == 16
}

impl Color {
    pub open spec fn wf(&self) -> bool {
        self matches Color::Indexed { palette } ==> 1 <= palette@.len() <= MAX_PALETTE_LEN
    }

    pub fn grayscale(transparent_shade: Option<u16>) -> (r: Color)
        ensures
            r == (Color::Grayscale { transparent_shade }),
    {
        Color::Grayscale { transparent_shade }
    }

    pub fn rgb(transparent_color: Option<[u16; 3]>) -> (r: Color)
        ensures
            r == (Color::Rgb { transparent_color }),
    {
        Color::Rgb { transparent_color }
    }

    /// An indexed model; the palette must hold 1 to 256 entries.
    pub fn indexed(palette: Vec<[u8; 4]>) -> (r: Result<Color, RawImageError>)
        ensures
            1 <= palette@.len() <= MAX_PALETTE_LEN ==> (r matches Ok(Color::Indexed { palette: p })
                && p@ == palette@),
            !(1 <= palette@.len() <= MAX_PALETTE_LEN) ==> (r matches Err(
                RawImageError::InvalidPaletteLength(n),
            ) && n == palette@.len()),
    {
        let len = palette.len();
        if len == 0 || len > MAX_PALETTE_LEN {
            Err(RawImageError::InvalidPaletteLength(len))
        } else {
            Ok(Color::Indexed { palette })
        }
    }

    pub fn grayscale_alpha() -> (r: Color)
        ensures
            r is GrayscaleAlpha,
    {
        Color::GrayscaleAlpha
    }

    pub fn rgba() -> (r: Color)
        ensures
            r is Rgba,
    {
        Color::Rgba
    }

    /// Whether the model holds a palette of an allowed length.
    pub fn is_valid(&self) -> (r: bool)
        ensures
            r == self.wf(),
    {
        match self {
            Color::Indexed { palette } => 1 <= palette.len() && palette.len() <= MAX_PALETTE_LEN,
            _ => true,
        }
    }

    fn channel_count(&self) -> (r: u8)
        ensures
            r == channels(self@),
    {
        match self {
            Color::Grayscale { .. } => 1,
            Color::Indexed { .. } => 1,
            Color::GrayscaleAlpha => 2,
            Color::Rgb { .. } => 3,
            Color::Rgba => 4,
        }
    }
}

impl Color {
    /// The engine's color type for this model.
    pub fn to_engine(&self) -> (r: oxipng::ColorType)
        ensures
            engine_color(r) == self@,
    {
        match self {
            Color::Grayscale { transparent_shade } => oxipng::ColorType::Grayscale {
                transparent_shade: *transparent_shade,
            },
            Color::Rgb { transparent_color } => oxipng::ColorType::RGB {
                transparent_color: match transparent_color {
                    Some(t) => Some(rgb::Rgb { r: t[0], g: t[1], b: t[2] }),
                    None => None,
                },
            },
            Color::Indexed { palette } => {
                let mut out: Vec<rgb::Rgba<u8, u8>> = Vec::new();
                let mut i: usize = 0;
                while i < palette.len()
                    invariant
                        i <= palette@.len(),
                        out@.map_values(|p: rgb::Rgba<u8, u8>| (p.r, p.g, p.b, p.a)) == palette@.take(
                            i as int,
                        ).map_values(|p: [u8; 4]| (p[0], p[1], p[2], p[3])),
                    decreases palette@.len() - i,
                {
                    let p = palette[i];
                    let ghost before = out@;
                    out.push(rgb::Rgba { r: p[0], g: p[1], b: p[2], a: p[3] });
                    assert(palette@.take(i + 1) =~= palette@.take(i as int).push(p));
                    assert(out@.map_values(|p: rgb::Rgba<u8, u8>| (p.r, p.g, p.b, p.a)) =~= before.map_values(
                        |p: rgb::Rgba<u8, u8>| (p.r, p.g, p.b, p.a),
                    ).push((p[0], p[1], p[2], p[3])));
                    assert(palette@.take(i + 1).map_values(|p: [u8; 4]| (p[0], p[1], p[2], p[3])) =~= palette@.take(
                        i as int,
                    ).map_values(|p: [u8; 4]| (p[0], p[1], p[2], p[3])).push((p[0], p[1], p[2], p[3])));
                    i = i + 1;
                }
                assert(palette@.take(i as int) =~= palette@);
                oxipng::ColorType::Indexed { palette: out }
            },
            Color::GrayscaleAlpha => oxipng::ColorType::GrayscaleAlpha,
            Color::Rgba => oxipng::ColorType::RGBA,
        }
    }

    /// The model for an engine color type.
    pub fn from_engine(c: &oxipng::ColorType) -> (r: Color)
        ensures
            r@ == engine_color(*c),
    {
        match c {
            oxipng::ColorType::Grayscale { transparent_shade } => Color::Grayscale {
                transparent_shade: *transparent_shade,
            },
            oxipng::ColorType::RGB { transparent_color } => Color::Rgb {
                transparent_color: match transparent_color {
                    Some(t) => Some([t.r, t.g, t.b]),
                    None => None,
                },
            },
            oxipng::ColorType::Indexed { palette } => {
                let mut out: Vec<[u8; 4]> = Vec::new();
                let mut i: usize = 0;
                while i < palette.len()
                    invariant
                        i <= palette@.len(),
                        out@.map_values(|p: [u8; 4]| (p[0], p[1], p[2], p[3])) == palette@.take(
                            i as int,
                        ).map_values(|p: rgb::Rgba<u8, u8>| (p.r, p.g, p.b, p.a)),
                    decreases palette@.len() - i,
                {
                    let p = palette[i];
                    let ghost before = out@;
                    let a: [u8; 4] = [p.r, p.g, p.b, p.a];
                    out.push(a);
                    assert(palette@.take(i + 1) =~= palette@.take(i as int).push(p));
                    assert(out@.map_values(|p: [u8; 4]| (p[0], p[1], p[2], p[3])) =~= before.map_values(
                        |p: [u8; 4]| (p[0], p[1], p[2], p[3]),
                    ).push((p.r, p.g, p.b, p.a)));
                    assert(palette@.take(i + 1).map_values(|p: rgb::Rgba<u8, u8>| (p.r, p.g, p.b, p.a)) =~= palette@.take(
                        i as int,
                    ).map_values(|p: rgb::Rgba<u8, u8>| (p.r, p.g, p.b, p.a)).push((p.r, p.g, p.b, p.a)));
                    i = i + 1;
                }
                assert(palette@.take(i as int) =~= palette@);
                Color::Indexed { palette: out }
            },
            oxipng::ColorType::GrayscaleAlpha => Color::GrayscaleAlpha,
            oxipng::ColorType::RGBA => Color::Rgba,
        }
    }
}

/// The engine's bit depth for a number of bits, if it is one.
pub fn depth_of_bits(d: u8) -> (r: Option<oxipng::BitDepth>)
    ensures
        r is Some <==> valid_depth(d),
        r matches Some(b) ==> depth_bits(b) == d,
{
    match d {
        1 => Some(oxipng::BitDepth::One),
        2 => Some(oxipng::BitDepth::Two),
        4 => Some(oxipng::BitDepth::Four),
        8 => Some(oxipng::BitDepth::Eight),
        16 => Some(oxipng::BitDepth::Sixteen),
        _ => None,
    }
}

/// The color model asked for: RGBA where none is given.
pub open spec fn requested_color(color_type: Option<Color>) -> Color {
    match color_type {
        Some(c) => c,
        None => Color::Rgba,
    }
}

/// The bit depth asked for: eight where none is given.
pub open spec fn requested_depth(bit_depth: Option<u8>) -> u8 {
    match bit_depth {
        Some(d) => d,
        None => 8,
    }
}

/// Whether these dimensions have a row size and a buffer length that the
/// machine can address.
pub open spec fn addressable(width: u32, height: u32, c: ColorView, bits: nat) -> bool {
    row_bits(width, c, bits) <= usize::MAX && expected_len(width, height, c, bits) <= usize::MAX
}

/// A raw bitmap staged for encoding, with the chunks to add to it.
#[derive(Debug)]
pub struct Bitmap {
    width: u32,
    height: u32,
    color: Color,
    depth: oxipng::BitDepth,
    data: Vec<u8>,
    chunks: Vec<([u8; 4], Vec<u8>)>,
    icc_profile: Option<Vec<u8>>,
}

impl Bitmap {
    pub closed spec fn width(&self) -> u32 {
        self.width
    }

    pub closed spec fn height(&self) -> u32 {
        self.height
    }

    pub closed spec fn color(&self) -> Color {
        self.color
    }

    /// Bits per channel.
    pub closed spec fn bits(&self) -> nat {
        depth_bits(self.depth)
    }

    /// The pixel buffer.
    pub closed spec fn data(&self) -> Seq<u8> {
        self.data@
    }

    /// The ancillary chunks, in the order in which they were added.
    pub closed spec fn chunks(&self) -> Seq<([u8; 4], Seq<u8>)> {
        self.chunks@.map_values(|c: ([u8; 4], Vec<u8>)| (c.0, c.1@))
    }

    /// The ICC profile, if one was added.
    pub closed spec fn icc_profile(&self) -> Option<Seq<u8>> {
        match self.icc_profile {
            Some(p) => Some(p@),
            None => None,
        }
    }

    /// The buffer fits the dimensions, color model and bit depth.
    pub closed spec fn wf(&self) -> bool {
        &&& self.color.wf()
        &&& depth_fits(self.color@, self.bits())
        &&& addressable(self.width, self.height, self.color@, self.bits())
        &&& self.data@.len() == expected_len(self.width, self.height, self.color@, self.bits())
    }

    /// Stage a bitmap. The bit depth must be 1, 2, 4, 8 or 16 and allowed
    /// by the color model, and the buffer's length must be what the engine
    /// asks for these dimensions; the engine's refusal is passed on.
    pub fn py_new(
        data: Vec<u8>,
        width: u32,
        height: u32,
        color_type: Option<Color>,
        bit_depth: Option<u8>,
    ) -> (r: Result<Bitmap, RawImageError>)
        ensures
            !valid_depth(requested_depth(bit_depth)) ==> (r matches Err(RawImageError::InvalidBitDepth(d)) && d == requested_depth(bit_depth)),
            valid_depth(requested_depth(bit_depth)) && !requested_color(color_type).wf() ==> r matches Err(RawImageError::InvalidPaletteLength(_)),
            valid_depth(requested_depth(bit_depth)) && requested_color(color_type).wf() && !addressable(width, height, requested_color(color_type)@, requested_depth(bit_depth) as nat) ==> r matches Err(RawImageError::TooLarge),
            valid_depth(requested_depth(bit_depth)) && requested_color(color_type).wf() && addressable(width, height, requested_color(color_type)@, requested_depth(bit_depth) as nat) && !depth_fits(requested_color(color_type)@, requested_depth(bit_depth) as nat) ==> (r matches Err(RawImageError::Engine(EngineError::InvalidDepthForType(d, c))) && d == requested_depth(bit_depth) && c@ == requested_color(color_type)@),
            valid_depth(requested_depth(bit_depth)) && requested_color(color_type).wf() && addressable(width, height, requested_color(color_type)@, requested_depth(bit_depth) as nat) && depth_fits(requested_color(color_type)@, requested_depth(bit_depth) as nat) && data@.len() != expected_len(width, height, requested_color(color_type)@, requested_depth(bit_depth) as nat) ==> (r matches Err(RawImageError::Engine(EngineError::IncorrectDataLength(given, needed))) && given == data@.len() && needed == expected_len(width, height, requested_color(color_type)@, requested_depth(bit_depth) as nat)),
            r is Ok <==> valid_depth(requested_depth(bit_depth)) && requested_color(color_type).wf() && addressable(width, height, requested_color(color_type)@, requested_depth(bit_depth) as nat) && depth_fits(requested_color(color_type)@, requested_depth(bit_depth) as nat) && data@.len() == expected_len(width, height, requested_color(color_type)@, requested_depth(bit_depth) as nat),
            r matches Ok(b) ==> b.wf() && b.width() == width && b.height() == height && b.color() == requested_color(color_type) && b.bits() == requested_depth(bit_depth) && b.data() == data@ && b.chunks() == Seq::<([u8; 4], Seq<u8>)>::empty() && b.icc_profile() is None,
    {
        let bits = match bit_depth {
            Some(d) => d,
            None => 8,
        };
        let depth = match depth_of_bits(bits) {
            Some(b) => b,
            None => {
                return Err(RawImageError::InvalidBitDepth(bits));
            },
        };
        let color = match color_type {
            Some(c) => c,
            None => Color::Rgba,
        };
        if !color.is_valid() {
            let len = match &color {
                Color::Indexed { palette } => palette.len(),
                _ => 0,
            };
            return Err(RawImageError::InvalidPaletteLength(len));
        }
        let ch = color.channel_count();
        assert(bits <= 16);
        assert((bits as nat) * (ch as nat) <= 64) by (nonlinear_arith)
            requires
                bits <= 16,
                ch <= 4,
        ;
        let bpp: usize = (bits as usize) * (ch as usize);
        let row = match bpp.checked_mul(width as usize) {
            Some(x) => x,
            None => {
                return Err(RawImageError::TooLarge);
            },
        };
        let row_bytes: usize = row / 8 + if row % 8 == 0 {
            0
        } else {
            1
        };
        assert(row_bytes == (row_bits(width, color@, bits as nat) + 7) / 8);
        if row_bytes.checked_mul(height as usize).is_none() {
            return Err(RawImageError::TooLarge);
        }
        let engine_color = color.to_engine();
        match engine_raw_image(width, height, engine_color, depth, copy_vec(&data)) {
            Ok(_) => Ok(Bitmap {
                width,
                height,
                color,
                depth,
                data,
                chunks: Vec::new(),
                icc_profile: None,
            }),
            Err(e) => Err(RawImageError::Engine(handle_png_error(&e))),
        }
    }

    /// Add an ancillary chunk, such as `iTXt`, to go out with the image.
    /// The name must be four bytes long; chunks are kept in order, repeats
    /// included.
    pub fn add_png_chunk(&mut self, name: &[u8], data: Vec<u8>) -> (r: Result<(), RawImageError>)
        requires
            old(self).wf(),
        ensures
            r is Ok <==> name@.len() == 4,
            r matches Err(e) ==> e is InvalidChunkName,
            r is Ok ==> final(self).chunks().len() == old(self).chunks().len() + 1,
            r is Ok ==> final(self).chunks().drop_last() == old(self).chunks(),
            r is Ok ==> final(self).chunks().last().0@ == name@ && final(self).chunks().last().1 == data@,
            r is Err ==> final(self).chunks() == old(self).chunks(),
            final(self).wf(),
            final(self).width() == old(self).width(),
            final(self).height() == old(self).height(),
            final(self).color() == old(self).color(),
            final(self).bits() == old(self).bits(),
            final(self).data() == old(self).data(),
            final(self).icc_profile() == old(self).icc_profile(),
    {
        if name.len() != 4 {
            return Err(RawImageError::InvalidChunkName);
        }
        let tag: [u8; 4] = [name[0], name[1], name[2], name[3]];
        assert(tag@ =~= name@);
        self.chunks.push((tag, data));
        assert(self.chunks().drop_last() =~= old(self).chunks());
        Ok(())
    }

    /// Stage an ICC profile; a later one replaces an earlier one.
    pub fn add_icc_profile(&mut self, data: &[u8])
        requires
            old(self).wf(),
        ensures
            final(self).icc_profile() == Some(data@),
            final(self).wf(),
            final(self).width() == old(self).width(),
            final(self).height() == old(self).height(),
            final(self).color() == old(self).color(),
            final(self).bits() == old(self).bits(),
            final(self).data() == old(self).data(),
            final(self).chunks() == old(self).chunks(),
    {
        self.icc_profile = Some(vstd::slice::slice_to_vec(data));
    }

    /// The engine's image for this bitmap: its dimensions, color model, bit
    /// depth and pixels, then its chunks in order, then the ICC profile, if
    /// any, as the engine makes it into a chunk.
    pub fn engine_image(&self) -> (r: oxipng::RawImage)
        requires
            self.wf(),
        ensures
            image_of(r).width == self.width(),
            image_of(r).height == self.height(),
            image_of(r).color == self.color()@,
            image_of(r).bits == self.bits(),
            image_of(r).data == self.data(),
            self.icc_profile() is None ==> image_of(r).chunks == self.chunks(),
            self.icc_profile() is Some ==> image_of(r).chunks == self.chunks() || (image_of(r).chunks.len() == self.chunks().len() + 1 && image_of(r).chunks.drop_last() == self.chunks() && is_iccp_chunk(image_of(r).chunks.last())),
    {
        let created = engine_raw_image(
            self.width,
            self.height,
            self.color.to_engine(),
            self.depth,
            copy_vec(&self.data),
        );
        let mut img = created.unwrap();
        let mut i: usize = 0;
        while i < self.chunks.len()
            invariant
                i <= self.chunks@.len(),
                image_of(img).width == self.width(),
                image_of(img).height == self.height(),
                image_of(img).color == self.color()@,
                image_of(img).bits == self.bits(),
                image_of(img).data == self.data(),
                image_of(img).chunks == self.chunks().take(i as int),
            decreases self.chunks@.len() - i,
        {
            let chunk = &self.chunks[i];
            engine_add_chunk(&mut img, chunk.0, copy_vec(&chunk.1));
            assert(self.chunks()[i as int] == (chunk.0, chunk.1@));
            assert(self.chunks().take(i + 1) =~= self.chunks().take(i as int).push((chunk.0, chunk.1@)));
            i = i + 1;
        }
        assert(self.chunks().take(i as int) =~= self.chunks());
        if let Some(profile) = &self.icc_profile {
            engine_add_icc(&mut img, profile.as_slice());
        }
        img
    }

    /// Encode the bitmap as an optimized PNG with the given settings; the
    /// bitmap itself is left as it is. The engine's failures come back
    /// translated.
    pub fn create_optimized_png(&self, opts: &Configuration) -> (r: Result<Vec<u8>, EngineError>)
        requires
            self.wf(),
            opts.wf(),
        ensures
            r matches Err(e) ==> exists|pe: oxipng::PngError| translates(pe, e),
    {
        let img = self.engine_image();
        match engine_encode(&img, &opts.to_engine()) {
            Ok(bytes) => Ok(bytes),
            Err(e) => Err(handle_png_error(&e)),
        }
    }
}

/// Optimize a PNG file held in memory with the given settings. The engine's
/// failures come back translated.
pub fn optimize_from_memory(data: &[u8], opts: &Configuration) -> (r: Result<Vec<u8>, EngineError>)
    requires
        opts.wf(),
    ensures
        r matches Err(e) ==> exists|pe: oxipng::PngError| translates(pe, e),
{
    match engine_optimize_from_memory(data, &opts.to_engine()) {
        Ok(bytes) => Ok(bytes),
        Err(e) => Err(handle_png_error(&e)),
    }
}

} // verus!
