//! The calls into the `png` crate, with what the library relies on.

use vstd::prelude::*;

verus! {

#[verifier::external_type_specification]
#[verifier::external_body]
pub struct ExDecodingError(png::DecodingError);

#[verifier::external_type_specification]
#[verifier::external_body]
pub struct ExEncodingError(png::EncodingError);

/// What the `png` decoder reads from a byte stream: `None` when it refuses the
/// stream, else the width, the height, the PNG color type code and the bit
/// depth of its output, and the bytes of the first frame.
pub uninterp spec fn png_decoded(bytes: Seq<u8>) -> Option<(u32, u32, u8, u8, Seq<u8>)>;

/// The PNG stream that the `png` encoder writes for an 8-bit RGBA image of
/// the given width and height with the given sample bytes.
pub uninterp spec fn png_encoded(width: u32, height: u32, data: Seq<u8>) -> Seq<u8>;

/// Relies on `png::Decoder::read_info` and `png::Reader::next_frame`: the
/// output header and the first frame, decoded into a buffer of the
/// `buffer_size()` that the header gives. The outcome depends on the bytes
/// alone.
#[verifier::external_body]
pub(crate) fn decode_png(bytes: &[u8]) -> (r: Result<(u32, u32, u8, u8, Vec<u8>), png::DecodingError>)
    ensures
        r is Ok <==> png_decoded(bytes@) is Some,
        r matches Ok((w, h, c, d, data)) ==> png_decoded(bytes@) == Some((w, h, c, d, data@)),
{
    let (info, mut reader) = png::Decoder::new(bytes).read_info()?;
    let mut data = vec![0u8; info.buffer_size()];
    reader.next_frame(&mut data)?;
    Ok((info.width, info.height, info.color_type as u8, info.bit_depth as u8, data))
}

/// Relies on `png::Encoder` with `ColorType::RGBA` and `BitDepth::Eight`:
/// `write_header` refuses a zero width or height and nothing else for this
/// color type and depth, `write_image_data` refuses only data whose length is
/// not four bytes per pixel (its length arithmetic stays in range when the
/// data holds exactly that), and the trailer is written when the writer is
/// dropped. Every write goes into a `Vec`.
#[verifier::external_body]
pub(crate) fn encode_png(width: u32, height: u32, data: &[u8]) -> (r: Result<Vec<u8>, png::EncodingError>)
    requires
        data@.len() == 4 * (width * height),
    ensures
        width == 0 || height == 0 ==> r is Err,
        width > 0 && height > 0 ==> r is Ok,
        r matches Ok(bytes) ==> bytes@ == png_encoded(width, height, data@),
{
    let mut out: Vec<u8> = Vec::new();
    {
        let mut encoder = png::Encoder::new(&mut out, width, height);
        encoder.set_color(png::ColorType::RGBA);
        encoder.set_depth(png::BitDepth::Eight);
        let mut writer = encoder.write_header()?;
        writer.write_image_data(data)?;
    }
    Ok(out)
}

} // verus!
