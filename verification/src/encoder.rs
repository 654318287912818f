//! Serialisation of packed red-green-blue-alpha pixels into a PNG stream.
//!
//! The stream is written by the `png` crate. What is decided here is when
//! the encoder is called at all, with which parameters, and what becomes of
//! its answer.

use vstd::prelude::*;
use crate::error::{CaptureError, CaptureFailure};
use crate::outcome::{CaptureOutcome, EncodedImage};
use crate::pixel::{to_packed_rgba, PixelBuffer, PixelGrid};

verus! {

/// The error of the `png` crate's encoder. Nothing is known of what it
/// holds; it is only told apart from a success.
#[verifier::external_type_specification]
#[verifier::external_body]
pub struct ExPngEncodingError(png::EncodingError);

/// What the `png` crate's encoder writes for an image of `width` by `height`
/// pixels with eight bits per channel and the channels red, green, blue and
/// alpha, given the pixels `rgba`; `None` if it reports an error.
pub uninterp spec fn png_rgba8_stream(width: u32, height: u32, rgba: Seq<u8>) -> Option<Seq<u8>>;

/// The four bytes of `value`, most significant first.
pub open spec fn big_endian(value: u32) -> Seq<u8> {
    seq![
        (value / 0x100_0000) as u8,
        (value / 0x1_0000 % 0x100) as u8,
        (value / 0x100 % 0x100) as u8,
        (value % 0x100) as u8,
    ]
}

/// The start of a PNG stream for an image of `width` by `height` pixels with
/// eight bits per channel and colour type six (red, green, blue, alpha):
/// the signature, then length, name and data of the header chunk.
pub open spec fn rgba8_header(width: u32, height: u32) -> Seq<u8> {
    seq![137u8, 80, 78, 71, 13, 10, 26, 10] + seq![0u8, 0, 0, 13, 73, 72, 68, 82] + big_endian(
        width,
    ) + big_endian(height) + seq![8u8, 6, 0, 0, 0]
}

/// The pixel data has exactly the size that the dimensions declare, and the
/// image is not empty.
pub open spec fn dimensions_match(width: u32, height: u32, len: nat) -> bool {
    width > 0 && height > 0 && len == 4 * width * height
}

/// Runs the `png` crate's `Encoder` into a fresh vector: `Encoder::new`,
/// `set_color(ColorType::Rgba)`, `set_depth(BitDepth::Eight)`,
/// `write_header`, `Writer::write_image_data` and `Writer::finish`.
///
/// Trusted: the outcome is a function of the dimensions and the pixels
/// alone, and a stream that was written starts with the signature and the
/// header chunk for these dimensions, eight bits and colour type six.
/// Nothing is claimed about when the encoder succeeds: on these inputs its
/// only errors are those that writing to and seeking in the vector report,
/// and the encoder hands them on.
#[verifier::external_body]
fn write_png_rgba8(rgba: &[u8], width: u32, height: u32) -> (written: Result<
    Vec<u8>,
    png::EncodingError,
>)
    requires
        dimensions_match(width, height, rgba@.len()),
    ensures
        match written {
            Ok(stream) => png_rgba8_stream(width, height, rgba@) == Some(stream@)
                && rgba8_header(width, height).is_prefix_of(stream@),
            Err(_) => png_rgba8_stream(width, height, rgba@) is None,
        },
{
    let mut stream = Vec::new();
    let mut encoder = png::Encoder::new(&mut stream, width, height);
    encoder.set_color(png::ColorType::Rgba);
    encoder.set_depth(png::BitDepth::Eight);
    let mut writer = encoder.write_header()?;
    writer.write_image_data(rgba)?;
    writer.finish()?;
    Ok(stream)
}

/// Turns the encoder's answer into a capture outcome: the stream becomes
/// the encoded image, and any error of the encoder becomes
/// [`CaptureError::EncodingError`]. The text of such an error is not kept.
pub fn conclude_encoding(written: Result<Vec<u8>, png::EncodingError>) -> (outcome: CaptureOutcome)
    ensures
        match written {
            Ok(stream) => outcome == CaptureOutcome::Success(EncodedImage { bytes: stream }),
            Err(_) => outcome == CaptureOutcome::Failure(
                CaptureFailure::spec_plain(CaptureError::EncodingError),
            ),
        },
{
    match written {
        Ok(stream) => CaptureOutcome::Success(EncodedImage { bytes: stream }),
        Err(_) => CaptureOutcome::failed(CaptureError::EncodingError),
    }
}

/// What encoding `rgba` as an image of `width` by `height` pixels comes to:
/// the stream that the encoder writes, or [`CaptureError::EncodingError`]
/// where the pixels do not fill the declared dimensions exactly, the image
/// is empty, or the encoder reports an error.
pub open spec fn encoded_png(width: u32, height: u32, rgba: Seq<u8>) -> Result<
    Seq<u8>,
    CaptureFailure,
> {
    if dimensions_match(width, height, rgba.len()) {
        match png_rgba8_stream(width, height, rgba) {
            Some(stream) => Ok(stream),
            None => Err(CaptureFailure::spec_plain(CaptureError::EncodingError)),
        }
    } else {
        Err(CaptureFailure::spec_plain(CaptureError::EncodingError))
    }
}

/// Encodes packed red-green-blue-alpha pixels as a PNG image with eight bits
/// per channel.
///
/// The pixels must fill the declared dimensions exactly and the image must
/// not be empty; otherwise, and when the encoder reports an error, the
/// outcome is [`CaptureError::EncodingError`]. An image that was encoded
/// starts with the signature and the header chunk for these dimensions.
pub fn encode_png(rgba: &[u8], width: u32, height: u32) -> (outcome: CaptureOutcome)
    ensures
        outcome@ == encoded_png(width, height, rgba@),
        outcome matches CaptureOutcome::Success(image) ==> rgba8_header(width, height).is_prefix_of(
            image@,
        ),
{
    if width == 0 || height == 0 {
        return CaptureOutcome::failed(CaptureError::EncodingError);
    }
    assert(width * height <= 0xffff_ffff * 0xffff_ffff) by (nonlinear_arith)
        requires
            width <= 0xffff_ffff,
            height <= 0xffff_ffff,
    ;
    assert(4 * width * height == 4 * (width * height)) by (nonlinear_arith);
    let area: u64 = (width as u64) * (height as u64);
    let declared: u128 = 4 * (area as u128);
    if rgba.len() as u128 != declared {
        return CaptureOutcome::failed(CaptureError::EncodingError);
    }
    conclude_encoding(write_png_rgba8(rgba, width, height))
}

/// What converting and encoding a native pixel grid comes to:
/// [`CaptureError::BufferTooShort`] where the grid does not hold its rows,
/// [`CaptureError::EncodingError`] where a dimension does not fit the
/// container's header, and otherwise what encoding the packed pixels comes
/// to.
pub open spec fn encoded_capture(grid: PixelGrid) -> Result<Seq<u8>, CaptureFailure> {
    if !grid.holds_rows() {
        Err(CaptureFailure::spec_plain(CaptureError::BufferTooShort))
    } else if grid.width > u32::MAX || grid.height > u32::MAX {
        Err(CaptureFailure::spec_plain(CaptureError::EncodingError))
    } else {
        encoded_png(grid.width as u32, grid.height as u32, grid.packed_rgba())
    }
}

/// Converts a native pixel buffer to packed red-green-blue-alpha and encodes
/// the result.
pub fn encode_capture(buffer: &PixelBuffer) -> (outcome: CaptureOutcome)
    ensures
        outcome@ == encoded_capture(buffer@),
        outcome matches CaptureOutcome::Success(image) ==> rgba8_header(
            buffer.width as u32,
            buffer.height as u32,
        ).is_prefix_of(image@),
{
    let rgba = match to_packed_rgba(buffer) {
        Ok(rgba) => rgba,
        Err(reason) => {
            return CaptureOutcome::failed(reason);
        },
    };
    if buffer.width > u32::MAX as usize || buffer.height > u32::MAX as usize {
        return CaptureOutcome::failed(CaptureError::EncodingError);
    }
    encode_png(rgba.as_slice(), buffer.width as u32, buffer.height as u32)
}

} // verus!
