use vstd::prelude::*;

use crate::canvas::{pixmap_bytes, pixmap_height, pixmap_width, well_formed};
use crate::error::RenderError;

verus! {

/// The PNG stream (RGBA, 8 bits per channel) that the encoder writes for a
/// `width` x `height` image with the given row-major RGBA bytes.
pub uninterp spec fn png_rgba8(width: u32, height: u32, data: Seq<u8>) -> Seq<u8>;

/// Relies on png's `Encoder` and `Writer::write_image_data`: an RGBA, 8-bit
/// PNG of the pixmap's size and bytes, written to memory with the encoder's
/// fixed default settings; the stream is closed when the writer is dropped.
/// Writing to memory cannot fail; the encoder only refuses a zero side,
/// which no pixmap has, or data whose length is not `width * height * 4`.
#[verifier::external_body]
fn encode_png_rgba8(p: &tiny_skia::Pixmap) -> (r: Result<Vec<u8>, String>)
    ensures
        well_formed(*p) ==> r is Ok,
        r is Ok ==> r->Ok_0@ == png_rgba8(pixmap_width(*p), pixmap_height(*p), pixmap_bytes(*p)),
{
    let mut out: Vec<u8> = Vec::new();
    {
        let mut encoder = png::Encoder::new(&mut out, p.width(), p.height());
        encoder.set_color(png::ColorType::RGBA);
        encoder.set_depth(png::BitDepth::Eight);
        let mut writer = encoder.write_header().map_err(|e| e.to_string())?;
        writer.write_image_data(p.data()).map_err(|e| e.to_string())?;
    }
    Ok(out)
}

/// Serializes a pixmap as an RGBA, 8-bit PNG stream. A pixmap with four
/// bytes per pixel always encodes; an encoder failure becomes
/// `EncodingFailed`.
pub fn write_png(image: &tiny_skia::Pixmap) -> (r: Result<Vec<u8>, RenderError>)
    ensures
        well_formed(*image) ==> r is Ok,
        r is Ok ==> r->Ok_0@ == png_rgba8(pixmap_width(*image), pixmap_height(*image), pixmap_bytes(*image)),
        r is Err ==> r->Err_0 is EncodingFailed,
{
    match encode_png_rgba8(image) {
        Ok(bytes) => Ok(bytes),
        Err(reason) => Err(RenderError::EncodingFailed { reason }),
    }
}

} // verus!
