//! A captured region of a window as a picture that a web view can show: the
//! pixels are written as PNG, the PNG as base64.

use vstd::prelude::*;
use crate::settings::OcrCoords;

verus! {

/// The PNG file that the `image` crate writes for a picture of `width` by
/// `height` pixels, four bytes to the pixel, or the message with which it
/// refuses to.
pub uninterp spec fn png_encoding(width: u32, height: u32, pixels: Seq<u8>) -> Result<
    Seq<u8>,
    Seq<char>,
>;

/// The character for six bits in the standard alphabet of base64.
pub open spec fn base64_symbol(bits: int) -> char {
    if bits < 26 {
        (0x41 + bits) as char
    } else if bits < 52 {
        (0x61 + bits - 26) as char
    } else if bits < 62 {
        (0x30 + bits - 52) as char
    } else if bits == 62 {
        '+'
    } else {
        '/'
    }
}

/// `bytes` in base64: four characters of the standard alphabet for every
/// three bytes, the last group padded with `=`.
pub open spec fn base64_text(bytes: Seq<u8>) -> Seq<char>
    decreases bytes.len(),
{
    if bytes.len() == 0 {
        Seq::empty()
    } else if bytes.len() == 1 {
        seq![base64_symbol(bytes[0] as int / 4), base64_symbol(bytes[0] as int % 4 * 16), '=', '=']
    } else if bytes.len() == 2 {
        seq![
            base64_symbol(bytes[0] as int / 4),
            base64_symbol(bytes[0] as int % 4 * 16 + bytes[1] as int / 16),
            base64_symbol(bytes[1] as int % 16 * 4),
            '=',
        ]
    } else {
        seq![
            base64_symbol(bytes[0] as int / 4),
            base64_symbol(bytes[0] as int % 4 * 16 + bytes[1] as int / 16),
            base64_symbol(bytes[1] as int % 16 * 4 + bytes[2] as int / 64),
            base64_symbol(bytes[2] as int % 64),
        ] + base64_text(bytes.skip(3))
    }
}

/// `len` bytes hold a picture of `width` by `height` pixels, four bytes to
/// the pixel.
pub open spec fn pixels_fit(width: u32, height: u32, len: nat) -> bool {
    4 * width * height <= len
}

/// Makes a picture of the pixels with `image::RgbaImage::from_raw`, which
/// refuses a buffer that is too small for the dimensions, and writes it as
/// PNG with `write_to`.
#[verifier::external_body]
fn encode_png(width: u32, height: u32, pixels: Vec<u8>) -> (encoded: Option<Result<Vec<u8>, String>>)
    ensures
        encoded is Some <==> pixels_fit(width, height, pixels@.len()),
        encoded matches Some(Ok(bytes)) ==> png_encoding(width, height, pixels@) is Ok
            && png_encoding(width, height, pixels@)->Ok_0 == bytes@,
        encoded matches Some(Err(reason)) ==> png_encoding(width, height, pixels@) is Err
            && png_encoding(width, height, pixels@)->Err_0 == reason@,
{
    let picture = image::RgbaImage::from_raw(width, height, pixels)?;
    let mut png = Vec::new();
    let written = picture.write_to(
        &mut std::io::Cursor::new(&mut png),
        image::ImageOutputFormat::Png,
    );
    Some(written.map(|_| png).map_err(|refusal| refusal.to_string()))
}

/// Writes the bytes in base64 with `base64::encode`, which uses the standard
/// alphabet and pads.
#[verifier::external_body]
fn encode_base64(bytes: &Vec<u8>) -> (text: String)
    ensures
        text@ == base64_text(bytes@),
{
    #[allow(deprecated)]
    base64::encode(bytes)
}

/// The region to capture, from the members that the caller gave: a missing
/// corner is the window's own, a missing side is a hundred pixels long.
pub fn region_or_default(x: Option<i32>, y: Option<i32>, w: Option<i32>, h: Option<i32>) -> (region:
    OcrCoords)
    ensures
        region.x == (if x is Some { x->0 } else { 0 }),
        region.y == (if y is Some { y->0 } else { 0 }),
        region.w == (if w is Some { w->0 } else { 100 }),
        region.h == (if h is Some { h->0 } else { 100 }),
{
    OcrCoords {
        x: match x {
            Some(value) => value,
            None => 0,
        },
        y: match y {
            Some(value) => value,
            None => 0,
        },
        w: match w {
            Some(value) => value,
            None => 100,
        },
        h: match h {
            Some(value) => value,
            None => 100,
        },
    }
}

/// The sentence for pixels that do not make a picture.
pub const NO_PICTURE: &'static str = "Error al crear imagen RGBA";

/// The sentence for a platform on which no window can be captured.
pub const CAPTURE_UNSUPPORTED: &'static str = "Captura de ventana solo disponible en Windows";

/// What a capture yields: the base64 of the PNG, or the sentence that says
/// why there is none.
pub open spec fn capture_text(width: u32, height: u32, pixels: Seq<u8>) -> Result<
    Seq<char>,
    Seq<char>,
> {
    if !pixels_fit(width, height, pixels.len()) {
        Err(NO_PICTURE@)
    } else {
        match png_encoding(width, height, pixels) {
            Ok(png) => Ok(base64_text(png)),
            Err(reason) => Err(reason),
        }
    }
}

/// The captured pixels of a region of `width` by `height`, as base64 of a PNG.
pub fn capture_window_region(width: u32, height: u32, pixels: Vec<u8>) -> (picture: Result<
    String,
    String,
>)
    ensures
        picture matches Ok(text) ==> capture_text(width, height, pixels@) == Ok::<
            Seq<char>,
            Seq<char>,
        >(text@),
        picture matches Err(message) ==> capture_text(width, height, pixels@) == Err::<
            Seq<char>,
            Seq<char>,
        >(message@),
{
    match encode_png(width, height, pixels) {
        None => Err(NO_PICTURE.to_owned()),
        Some(Err(reason)) => Err(reason),
        Some(Ok(png)) => Ok(encode_base64(&png)),
    }
}

} // verus!
