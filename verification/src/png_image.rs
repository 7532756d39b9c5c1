//! PNG images decoded with the `png` crate, as plain values.
use vstd::prelude::*;
use crate::raster::PngColorType;

verus! {

/// The first frame of the PNG file `raw` as the `png` crate decodes it: its
/// pixel bytes, width, height and colour-type code; `None` when the file
/// cannot be decoded. Decoding depends on the bytes alone.
pub uninterp spec fn png_first_frame(raw: Seq<u8>) -> Option<(Seq<u8>, u32, u32, u8)>;

/// A decoded PNG frame.
pub struct DecodedPng {
    /// The pixel bytes, row after row.
    pub bytes: Vec<u8>,
    pub width: u32,
    pub height: u32,
    /// The colour type as the PNG format numbers it.
    pub color_code: u8,
}

/// Decodes the first frame of the PNG file `raw` with `png::Decoder`:
/// reads the header, fills a buffer of the output size with `next_frame`
/// and keeps the frame's `buffer_size()` bytes. The contract names the
/// result; a file the decoder refuses gives `None` (the decoder's error is
/// not kept).
#[verifier::external_body]
pub fn decode_png(raw: &[u8]) -> (r: Option<DecodedPng>)
    ensures
        match png_first_frame(raw@) {
            Some(f) => r matches Some(d) && d.bytes@ == f.0 && d.width == f.1 && d.height == f.2
                && d.color_code == f.3,
            None => r is None,
        },
{
    let mut reader = png::Decoder::new(std::io::Cursor::new(raw)).read_info().ok()?;
    let mut bytes = vec![0u8; reader.output_buffer_size()?];
    let info = reader.next_frame(&mut bytes).ok()?;
    bytes.truncate(info.buffer_size());
    Some(DecodedPng { bytes, width: info.width, height: info.height, color_code: info.color_type as u8 })
}

/// The colour type that the PNG format numbers `code`: 0 grey, 2 RGB,
/// 3 indexed, 4 grey with alpha, 6 RGBA.
pub open spec fn png_color_type(code: u8) -> Option<PngColorType> {
    if code == 0 {
        Some(PngColorType::Grayscale)
    } else if code == 2 {
        Some(PngColorType::Rgb)
    } else if code == 3 {
        Some(PngColorType::Indexed)
    } else if code == 4 {
        Some(PngColorType::GrayscaleAlpha)
    } else if code == 6 {
        Some(PngColorType::Rgba)
    } else {
        None
    }
}

/// The PNG format's colour-type codes: grey 0, RGB 2, indexed 3, grey with
/// alpha 4, RGBA 6; no other code names a colour type, and distinct codes
/// name distinct colour types.
pub proof fn lemma_png_color_codes(code: u8, other: u8)
    ensures
        png_color_type(0) == Some(PngColorType::Grayscale),
        png_color_type(2) == Some(PngColorType::Rgb),
        png_color_type(3) == Some(PngColorType::Indexed),
        png_color_type(4) == Some(PngColorType::GrayscaleAlpha),
        png_color_type(6) == Some(PngColorType::Rgba),
        png_color_type(code) is None <==> !(code == 0 || code == 2 || code == 3 || code == 4
            || code == 6),
        png_color_type(code) is Some && png_color_type(code) == png_color_type(other) ==> code
            == other,
{
}

impl DecodedPng {
    /// The frame's colour type; `None` for a code the PNG format does not
    /// define.
    pub fn color_type(&self) -> (r: Option<PngColorType>)
        ensures
            r == png_color_type(self.color_code),
            self.color_code == 0 ==> r == Some(PngColorType::Grayscale),
            self.color_code == 2 ==> r == Some(PngColorType::Rgb),
            self.color_code == 3 ==> r == Some(PngColorType::Indexed),
            self.color_code == 4 ==> r == Some(PngColorType::GrayscaleAlpha),
            self.color_code == 6 ==> r == Some(PngColorType::Rgba),
            r is None <==> !(self.color_code == 0 || self.color_code == 2 || self.color_code == 3
                || self.color_code == 4 || self.color_code == 6),
    {
        match self.color_code {
            0 => Some(PngColorType::Grayscale),
            2 => Some(PngColorType::Rgb),
            3 => Some(PngColorType::Indexed),
            4 => Some(PngColorType::GrayscaleAlpha),
            6 => Some(PngColorType::Rgba),
            _ => None,
        }
    }

    /// The pixel bytes.
    pub fn bytes(&self) -> (r: &[u8])
        ensures
            r@ == self.bytes@,
    {
        self.bytes.as_slice()
    }

    /// The width as GL takes it, cut to an `i32`.
    pub fn width(&self) -> (r: i32)
        ensures
            r == self.width as i32,
    {
        self.width as i32
    }

    /// The height as GL takes it, cut to an `i32`.
    pub fn height(&self) -> (r: i32)
        ensures
            r == self.height as i32,
    {
        self.height as i32
    }
}

} // verus!
