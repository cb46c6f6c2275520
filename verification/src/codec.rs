//! The image codec adapter: what the service asks of the image codecs.

use vstd::prelude::*;
use vstd::string::*;
use crate::error::{failure, prefixed, ErrorKind, ErrorView, OcrError};
use crate::raster::Raster;

verus! {

/// Whether the codecs know the format that the leading bytes of a buffer
/// announce.
pub uninterp spec fn recognized_format(bytes: Seq<u8>) -> bool;

/// What the PNG encoder makes of an 8-bit RGB image: the stream, or the
/// message of the error it reports.
pub uninterp spec fn png_stream(width: u32, height: u32, pixels: Seq<u8>) -> Result<
    Seq<u8>,
    Seq<char>,
>;

/// Whether a buffer starts as a PDF document does, with `%PDF`.
pub open spec fn is_pdf(bytes: Seq<u8>) -> bool {
    bytes.len() >= 4 && bytes[0] == 0x25 && bytes[1] == 0x50 && bytes[2] == 0x44 && bytes[3]
        == 0x46
}

/// The message for an upload whose format the codecs do not know.
pub open spec fn unsupported_format_text() -> Seq<char> {
    "Unsupported file type or PDF is not supported by Rust service yet"@
}

/// The start of the message for an image that cannot be decoded.
pub open spec fn decode_failure_prefix() -> Seq<char> {
    "Failed to decode image: "@
}

/// The start of the message for an overlay that cannot be encoded.
pub open spec fn encode_failure_prefix() -> Seq<char> {
    "Failed to encode PNG: "@
}

/// The detail of the message for a decoded image whose buffer does not hold
/// exactly its pixels.
pub open spec fn size_mismatch_text() -> Seq<char> {
    "pixel buffer does not match the image size"@
}

/// Whether `bytes` begins with `prefix`.
pub open spec fn starts_with(bytes: Seq<u8>, prefix: Seq<u8>) -> bool {
    bytes.len() >= prefix.len() && bytes.subrange(0, prefix.len() as int) == prefix
}

/// The four bytes of a number, the most significant first.
pub open spec fn big_endian(value: u32) -> Seq<u8> {
    seq![
        (value / 0x100_0000) as u8,
        (value / 0x1_0000 % 0x100) as u8,
        (value / 0x100 % 0x100) as u8,
        (value % 0x100) as u8,
    ]
}

/// The eight bytes that every PNG stream begins with.
pub open spec fn png_signature() -> Seq<u8> {
    seq![137u8, 80, 78, 71, 13, 10, 26, 10]
}

/// The beginning of the PNG stream of an 8-bit RGB image: the signature,
/// then the header chunk (its length 13 and its name `IHDR`) as far as the
/// width, the height, the bit depth 8 and the colour type 2.
pub open spec fn png_header(width: u32, height: u32) -> Seq<u8> {
    png_signature() + seq![0u8, 0, 0, 13, 73, 72, 68, 82] + big_endian(width) + big_endian(height)
        + seq![8u8, 2u8]
}

/// Calls `image::guess_format` and tells whether it found a format.
///
/// The function compares the start of the buffer with a fixed table of
/// signatures. None of them starts with `%`, so a PDF document is never
/// taken for an image.
#[verifier::external_body]
fn format_is_known(bytes: &[u8]) -> (known: bool)
    ensures
        known == recognized_format(bytes@),
        is_pdf(bytes@) ==> !known,
{
    image::guess_format(bytes).is_ok()
}

/// Calls `image::load_from_memory` and takes the image as 8-bit RGB
/// (`image::DynamicImage::to_rgb8`).
///
/// The call consults the format and decoder hooks that a program may have
/// registered with the codecs, so nothing is claimed of what comes back. A
/// failure is given as the display text of the codec's error.
#[verifier::external_body]
pub(crate) fn load_rgb8(bytes: &[u8]) -> (r: Result<Raster, String>)
{
    match image::load_from_memory(bytes) {
        Ok(decoded) => {
            let rgb = decoded.to_rgb8();
            Ok(Raster { width: rgb.width(), height: rgb.height(), pixels: rgb.into_raw() })
        },
        Err(e) => Err(e.to_string()),
    }
}

/// Calls `image::ImageEncoder::write_image` on an
/// `image::codecs::png::PngEncoder` that writes to a vector, for 8-bit RGB.
///
/// The encoder wants a buffer of exactly the stated size. What it gives
/// depends on the size and the pixels alone: it is `png_stream` of them, a
/// failure as the display text of the codec's error. The encoder refuses an
/// image without width or height, and what it writes begins with the PNG
/// signature and the header chunk, which names the width and the height.
#[verifier::external_body]
fn write_png(raster: &Raster) -> (r: Result<Vec<u8>, String>)
    requires
        raster.wf(),
    ensures
        match png_stream(raster.width, raster.height, raster.pixels@) {
            Ok(stream) => r matches Ok(bytes) && bytes@ == stream,
            Err(detail) => r matches Err(message) && message@ == detail,
        },
        raster.width == 0 || raster.height == 0 ==> r is Err,
        r matches Ok(bytes) ==> starts_with(bytes@, png_header(raster.width, raster.height)),
{
    let mut out: Vec<u8> = Vec::new();
    let encoder = image::codecs::png::PngEncoder::new(&mut out);
    match image::ImageEncoder::write_image(
        encoder,
        &raster.pixels,
        raster.width,
        raster.height,
        image::ExtendedColorType::Rgb8,
    ) {
        Ok(()) => Ok(out),
        Err(e) => Err(e.to_string()),
    }
}

/// Tells whether the buffer starts as an image of a known format does.
pub fn infer_image_format(bytes: &[u8]) -> (r: Result<(), ()>)
    ensures
        r is Ok == recognized_format(bytes@),
        is_pdf(bytes@) ==> r is Err,
{
    if format_is_known(bytes) {
        Ok(())
    } else {
        Err(())
    }
}

/// What a request makes of the outcome of decoding: the raster, where its
/// buffer holds exactly its pixels, or `BadInput` with the decoder's message.
pub open spec fn decoded_or_bad_input(outcome: Result<Raster, String>) -> Result<
    Raster,
    ErrorView,
> {
    match outcome {
        Ok(raster) => if raster.wf() {
            Ok(raster)
        } else {
            Err(failure(ErrorKind::BadInput, decode_failure_prefix() + size_mismatch_text()))
        },
        Err(detail) => Err(failure(ErrorKind::BadInput, decode_failure_prefix() + detail@)),
    }
}

/// What a request makes of the outcome of encoding: the bytes, or
/// `EncodeFailure` with the encoder's message.
pub open spec fn encoded_or_failure(outcome: Result<Vec<u8>, String>) -> Result<
    Seq<u8>,
    ErrorView,
> {
    match outcome {
        Ok(bytes) => Ok(bytes@),
        Err(detail) => Err(failure(ErrorKind::EncodeFailure, encode_failure_prefix() + detail@)),
    }
}

/// Turns the outcome of decoding into the raster or the error of the request.
pub fn accept_decoded(outcome: Result<Raster, String>) -> (r: Result<Raster, OcrError>)
    ensures
        match decoded_or_bad_input(outcome) {
            Ok(raster) => r == Ok::<Raster, OcrError>(raster),
            Err(error) => r matches Err(e) && e@ == error,
        },
{
    match outcome {
        Ok(raster) => if raster.is_well_formed() {
            Ok(raster)
        } else {
            Err(
                OcrError::BadInput(
                    prefixed(
                        "Failed to decode image: ",
                        "pixel buffer does not match the image size",
                    ),
                ),
            )
        },
        Err(detail) => Err(
            OcrError::BadInput(prefixed("Failed to decode image: ", detail.as_str())),
        ),
    }
}

/// Turns the outcome of encoding into the bytes or the error of the request.
pub fn accept_encoded(outcome: Result<Vec<u8>, String>) -> (r: Result<Vec<u8>, OcrError>)
    ensures
        match encoded_or_failure(outcome) {
            Ok(bytes) => r matches Ok(out) && out@ == bytes,
            Err(error) => r matches Err(e) && e@ == error,
        },
{
    match outcome {
        Ok(bytes) => Ok(bytes),
        Err(detail) => Err(
            OcrError::EncodeFailure(prefixed("Failed to encode PNG: ", detail.as_str())),
        ),
    }
}

/// Decodes an image of any known format to 8-bit RGB.
///
/// Whether the bytes decode is the codec's to say. On success the raster is
/// well formed; a failure is `BadInput`, its message the decoder's behind
/// `Failed to decode image: `.
pub fn decode(bytes: &[u8]) -> (r: Result<Raster, OcrError>)
    ensures
        match r {
            Ok(raster) => raster.wf(),
            Err(e) => exists|detail: Seq<char>|
                e@ == failure(ErrorKind::BadInput, decode_failure_prefix() + detail),
        },
{
    let outcome = load_rgb8(bytes);
    let ghost detail = match &outcome {
        Ok(_) => size_mismatch_text(),
        Err(text) => text@,
    };
    let r = accept_decoded(outcome);
    proof {
        if r is Err {
            assert(r->Err_0@ == failure(ErrorKind::BadInput, decode_failure_prefix() + detail));
        }
    }
    r
}

/// What becomes of a raster that is encoded: its PNG stream, or
/// `EncodeFailure` with the encoder's message.
pub open spec fn encoded(width: u32, height: u32, pixels: Seq<u8>) -> Result<Seq<u8>, ErrorView> {
    match png_stream(width, height, pixels) {
        Ok(stream) => Ok(stream),
        Err(detail) => Err(failure(ErrorKind::EncodeFailure, encode_failure_prefix() + detail)),
    }
}

/// Encodes a raster as PNG.
///
/// The result is the encoder's stream for the size and the pixels of the
/// raster. It begins with the PNG signature and the header chunk, which
/// names the width and the height. An image without width or height cannot
/// be encoded. A failure is `EncodeFailure`, its message the encoder's
/// behind `Failed to encode PNG: `.
pub fn encode_png(raster: &Raster) -> (r: Result<Vec<u8>, OcrError>)
    requires
        raster.wf(),
    ensures
        match encoded(raster.width, raster.height, raster.pixels@) {
            Ok(stream) => r matches Ok(bytes) && bytes@ == stream,
            Err(error) => r matches Err(e) && e@ == error,
        },
        raster.width == 0 || raster.height == 0 ==> r is Err,
        r matches Ok(bytes) ==> starts_with(bytes@, png_header(raster.width, raster.height)),
        r matches Err(e) ==> exists|detail: Seq<char>|
            e@ == failure(ErrorKind::EncodeFailure, encode_failure_prefix() + detail),
{
    let outcome = write_png(raster);
    let ghost detail = match &outcome {
        Ok(_) => Seq::<char>::empty(),
        Err(text) => text@,
    };
    let r = accept_encoded(outcome);
    proof {
        if r is Err {
            assert(r->Err_0@ == failure(
                ErrorKind::EncodeFailure,
                encode_failure_prefix() + detail,
            ));
        }
    }
    r
}

/// The formats that the reduced profile of the service takes.
#[derive(Clone, Copy, Debug, PartialEq, Eq, Structural)]
pub enum CodecFormat {
    Png,
    Jpeg,
    WebP,
}

/// Whether a buffer begins as a stream of the format does: a PNG stream with
/// its signature, a JPEG stream with the marker `FF D8`, a WebP stream with
/// `RIFF`, four bytes of length, and `WEBP`.
pub open spec fn has_signature(bytes: Seq<u8>, format: CodecFormat) -> bool {
    match format {
        CodecFormat::Png => starts_with(bytes, png_signature()),
        CodecFormat::Jpeg => starts_with(bytes, seq![0xffu8, 0xd8]),
        CodecFormat::WebP => starts_with(bytes, seq![0x52u8, 0x49, 0x46, 0x46]) && bytes.len()
            >= 12 && bytes.subrange(8, 12) == seq![0x57u8, 0x45, 0x42, 0x50],
    }
}

/// Whether a buffer begins as a stream of one of the formats of the reduced
/// profile does.
pub open spec fn reduced_signature(bytes: Seq<u8>) -> bool {
    has_signature(bytes, CodecFormat::Png) || has_signature(bytes, CodecFormat::Jpeg)
        || has_signature(bytes, CodecFormat::WebP)
}

/// What decoding as one format makes of a buffer: the width, the height and
/// the 8-bit RGB buffer of the image, or nothing where the decoder fails.
pub uninterp spec fn decoded_as(bytes: Seq<u8>, format: CodecFormat) -> Option<
    (u32, u32, Seq<u8>),
>;

/// What decoding as one format gives the service: the decoded image, where
/// its buffer holds exactly its pixels.
pub open spec fn usable_as(bytes: Seq<u8>, format: CodecFormat) -> Option<(u32, u32, Seq<u8>)> {
    match decoded_as(bytes, format) {
        Some((width, height, pixels)) => if pixels.len() == 3 * width * height {
            Some((width, height, pixels))
        } else {
            None
        },
        None => None,
    }
}

/// What the reduced profile makes of a buffer: the image that decoding as
/// PNG gives, else the one that decoding as JPEG gives, else the one that
/// decoding as WebP gives.
pub open spec fn reduced_decoding(bytes: Seq<u8>) -> Option<(u32, u32, Seq<u8>)> {
    if usable_as(bytes, CodecFormat::Png) is Some {
        usable_as(bytes, CodecFormat::Png)
    } else if usable_as(bytes, CodecFormat::Jpeg) is Some {
        usable_as(bytes, CodecFormat::Jpeg)
    } else {
        usable_as(bytes, CodecFormat::WebP)
    }
}

/// Calls `image::load_from_memory_with_format` for the format named and
/// takes the image as 8-bit RGB (`image::DynamicImage::to_rgb8`).
///
/// With a format named the call consults no hook: what it gives depends on
/// the bytes and the format alone, and is `decoded_as` of them. Each of the
/// three decoders begins by reading the signature of its format and fails
/// where it is not there.
#[verifier::external_body]
fn load_rgb8_as(bytes: &[u8], format: CodecFormat) -> (r: Option<Raster>)
    ensures
        match decoded_as(bytes@, format) {
            Some(image) => r matches Some(raster) && raster.content() == image,
            None => r is None,
        },
        r is Some ==> has_signature(bytes@, format),
{
    let format = match format {
        CodecFormat::Png => image::ImageFormat::Png,
        CodecFormat::Jpeg => image::ImageFormat::Jpeg,
        CodecFormat::WebP => image::ImageFormat::WebP,
    };
    image::load_from_memory_with_format(bytes, format).ok().map(|decoded| {
        let rgb = decoded.to_rgb8();
        Raster { width: rgb.width(), height: rgb.height(), pixels: rgb.into_raw() }
    })
}

/// Decodes an image as one format; an image whose buffer does not hold
/// exactly its pixels counts as not decoded.
fn decode_as(bytes: &[u8], format: CodecFormat) -> (r: Option<Raster>)
    ensures
        match usable_as(bytes@, format) {
            Some(image) => r matches Some(raster) && raster.content() == image,
            None => r is None,
        },
        r matches Some(raster) ==> raster.wf() && has_signature(bytes@, format),
{
    match load_rgb8_as(bytes, format) {
        Some(image) => if image.is_well_formed() {
            Some(image)
        } else {
            None
        },
        None => None,
    }
}

/// Decodes an image as the reduced profile does: as PNG, else as JPEG, else
/// as WebP.
///
/// The result is the first image that one of the three decoders gives, in
/// this order; an image whose buffer does not hold exactly its pixels counts
/// as not decoded. An image that comes out is well formed, and bytes that
/// begin as a stream of none of the three formats are not decoded.
pub fn decode_reduced(bytes: &[u8]) -> (r: Option<Raster>)
    ensures
        match reduced_decoding(bytes@) {
            Some(image) => r matches Some(raster) && raster.content() == image,
            None => r is None,
        },
        r matches Some(raster) ==> raster.wf(),
        r is Some ==> reduced_signature(bytes@),
{
    match decode_as(bytes, CodecFormat::Png) {
        Some(image) => Some(image),
        None => match decode_as(bytes, CodecFormat::Jpeg) {
            Some(image) => Some(image),
            None => decode_as(bytes, CodecFormat::WebP),
        },
    }
}

} // verus!
