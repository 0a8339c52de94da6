//! PNG encoding of the plots drawn for the reports.
use vstd::prelude::*;
use image::ImageEncoder;

verus! {

/// The bytes that `image`'s PNG encoder writes for an 8-bit RGB image of
/// `width` × `height` pixels given row by row in `pixels`.
pub uninterp spec fn png_rgb8_encoding(pixels: Seq<u8>, width: u32, height: u32) -> Seq<u8>;

/// Calls `image::codecs::png::PngEncoder::write_image` with the default
/// compression and filter on an RGB8 buffer, writing into a fresh `Vec`.
/// Claimed: the bytes written are `png_rgb8_encoding` of the arguments; the
/// encoder's output depends on them alone. When the encoder reports an error
/// (a zero width or height), whatever it had written is returned, as the
/// drawing code ignores that error; nothing is claimed of those bytes beyond
/// the name. The encoder panics unless the buffer holds exactly three bytes
/// per pixel, which `requires` rules out.
#[verifier::external_body]
fn write_png_rgb8(pixels: &Vec<u8>, width: u32, height: u32) -> (png: Vec<u8>)
    requires
        pixels.len() == width * height * 3,
    ensures
        png@ == png_rgb8_encoding(pixels@, width, height),
{
    let mut png = Vec::new();
    let encoder = image::codecs::png::PngEncoder::new(&mut png);
    let _ = encoder.write_image(pixels, width, height, image::ColorType::Rgb8);
    png
}

/// Encodes a drawn RGB8 plot of `width` × `height` pixels as a PNG file.
pub fn encode_png(pixels: &Vec<u8>, width: u32, height: u32) -> (png: Vec<u8>)
    requires
        pixels.len() == width * height * 3,
    ensures
        png@ == png_rgb8_encoding(pixels@, width, height),
{
    write_png_rgb8(pixels, width, height)
}

} // verus!
