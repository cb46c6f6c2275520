//! The overlay renderer: the frames of a recognition result drawn over the
//! image it was made from.

use vstd::prelude::*;
use vstd::string::*;
use crate::codec::{
    accept_decoded, decode_failure_prefix, decoded_or_bad_input, encode_failure_prefix, encode_png,
    encoded, load_rgb8, png_stream, size_mismatch_text,
};
use crate::dispatch::missing_file_text;
use crate::envelope::{envelopes, envelopes_of, overlay_envelopes, overlay_lines};
use crate::error::{failure, prefixed, ErrorKind, ErrorView, OcrError};
use crate::form::{DrawForm, DrawFormView};
use crate::json::{parsed_document, Json, JsonView};
use crate::raster::{draw_envelopes, framed_all, Raster};
use crate::text::invalid_result_text;

verus! {

/// The message for a request without a recognition result.
pub open spec fn missing_result_text() -> Seq<char> {
    "missing ocr_result"@
}

/// The start of the message for a recognition result that is no JSON.
pub open spec fn invalid_json_prefix() -> Seq<char> {
    "Invalid ocr_result JSON: "@
}

/// The pixels of an image with the frames of a document drawn over it: one
/// frame for each line that has an envelope, whatever its score.
pub open spec fn overlaid(pixels: Seq<u8>, width: int, document: JsonView) -> Seq<u8> {
    framed_all(pixels, width, overlay_envelopes(document))
}

/// What is wrong with a recognition result given as JSON text, if anything:
/// a text that is no JSON (reported with the parser's message) and a
/// document without the member `result` are both `InvalidResultFormat`.
pub open spec fn result_fault(ocr_result: Seq<char>) -> Option<ErrorView> {
    match parsed_document(ocr_result) {
        Ok(document) => if document.member("result"@) is Some {
            None
        } else {
            Some(failure(ErrorKind::InvalidResultFormat, invalid_result_text()))
        },
        Err(detail) => Some(
            failure(ErrorKind::InvalidResultFormat, invalid_json_prefix() + detail),
        ),
    }
}

/// What becomes of the pixels of an image under a recognition result given
/// as JSON text: the overlay, or the fault of the result.
pub open spec fn rendered(pixels: Seq<u8>, width: int, ocr_result: Seq<char>) -> Result<
    Seq<u8>,
    ErrorView,
> {
    match result_fault(ocr_result) {
        Some(error) => Err(error),
        None => Ok(overlaid(pixels, width, parsed_document(ocr_result)->Ok_0)),
    }
}

/// How an overlay request with both fields ends, given what decoding the
/// image came to.
///
/// An image that did not decode ends the request in `BadInput`, whatever the
/// result text holds. Else a result that cannot be drawn ends it in
/// `InvalidResultFormat`. Else the request ends in the PNG stream of the
/// overlay, or in `EncodeFailure`.
pub open spec fn finished(decoded: Result<Raster, String>, ocr_result: Seq<char>) -> Result<
    Seq<u8>,
    ErrorView,
> {
    match decoded_or_bad_input(decoded) {
        Err(error) => Err(error),
        Ok(image) => match rendered(image.pixels@, image.width as int, ocr_result) {
            Err(error) => Err(error),
            Ok(pixels) => encoded(image.width, image.height, pixels),
        },
    }
}

/// The first failure of a form that lacks a field; nothing where both the
/// image and the result are there.
pub open spec fn missing_field(form: DrawFormView) -> Option<ErrorView> {
    if form.file is None {
        Some(failure(ErrorKind::BadInput, missing_file_text()))
    } else if form.ocr_result is None {
        Some(failure(ErrorKind::BadInput, missing_result_text()))
    } else {
        None
    }
}

/// Draws over an image the frames of the lines of a document.
pub fn overlay(image: Raster, document: &Json) -> (drawn: Raster)
    requires
        image.wf(),
    ensures
        drawn.wf(),
        drawn.width == image.width,
        drawn.height == image.height,
        drawn.pixels@ == overlaid(image.pixels@, image.width as int, document@),
{
    let mut drawn = image;
    let found = envelopes(document);
    draw_envelopes(&mut drawn, &found);
    drawn
}

/// Draws over an image the frames of a recognition result given as JSON
/// text. A text that is no JSON, or a document without the member `result`,
/// is an invalid result.
pub fn render(image: Raster, ocr_result: &str) -> (r: Result<Raster, OcrError>)
    requires
        image.wf(),
    ensures
        match rendered(image.pixels@, image.width as int, ocr_result@) {
            Ok(pixels) => r matches Ok(drawn) && drawn.wf() && drawn.width == image.width
                && drawn.height == image.height && drawn.pixels@ == pixels,
            Err(error) => r matches Err(e) && e@ == error,
        },
{
    match Json::parse(ocr_result) {
        Ok(document) => {
            if document.get("result").is_none() {
                return Err(
                    OcrError::InvalidResultFormat(String::from_str("Invalid OCR result format")),
                );
            }
            Ok(overlay(image, &document))
        },
        Err(detail) => Err(
            OcrError::InvalidResultFormat(
                prefixed("Invalid ocr_result JSON: ", detail.as_str()),
            ),
        ),
    }
}

/// Ends an overlay request whose form holds both fields: takes what decoding
/// the image came to, draws the frames of the result over the image and
/// encodes the whole as PNG.
///
/// A failure to decode is reported before the result text is looked at.
pub fn finish_draw(decoded: Result<Raster, String>, ocr_result: &str) -> (r: Result<
    Vec<u8>,
    OcrError,
>)
    ensures
        match finished(decoded, ocr_result@) {
            Ok(stream) => r matches Ok(bytes) && bytes@ == stream,
            Err(error) => r matches Err(e) && e@ == error,
        },
{
    let image = match accept_decoded(decoded) {
        Ok(image) => image,
        Err(e) => {
            return Err(e);
        },
    };
    let drawn = match render(image, ocr_result) {
        Ok(drawn) => drawn,
        Err(e) => {
            return Err(e);
        },
    };
    encode_png(&drawn)
}

/// Serves an overlay request: decodes the image, draws the frames of the
/// result over it and encodes the whole as PNG.
///
/// A form without image or without result is refused, in this order, before
/// anything is decoded. Whether the image decodes is the codec's to say;
/// with what decoding came to, the request ends as `finished` tells. So the
/// bytes of a success are the PNG stream of the overlay of a well-formed
/// image. The drop score plays no part.
pub fn draw(form: DrawForm) -> (r: Result<Vec<u8>, OcrError>)
    ensures
        match missing_field(form@) {
            Some(error) => r matches Err(e) && e@ == error,
            None => exists|decoded: Result<Raster, String>|
                match #[trigger] finished(decoded, form@.ocr_result->Some_0) {
                    Ok(stream) => r matches Ok(bytes) && bytes@ == stream,
                    Err(error) => r matches Err(e) && e@ == error,
                },
        },
        r matches Ok(bytes) ==> exists|image: Raster|
            #[trigger] image.wf() && (rendered(
                image.pixels@,
                image.width as int,
                form@.ocr_result->Some_0,
            ) matches Ok(pixels) && png_stream(image.width, image.height, pixels) == Ok::<
                Seq<u8>,
                Seq<char>,
            >(bytes@)),
        r matches Err(e) ==> missing_field(form@) is Some || {
            ||| exists|detail: Seq<char>|
                e@ == failure(ErrorKind::BadInput, decode_failure_prefix() + detail)
            ||| result_fault(form@.ocr_result->Some_0) == Some(e@)
            ||| exists|detail: Seq<char>|
                e@ == failure(ErrorKind::EncodeFailure, encode_failure_prefix() + detail)
        },
{
    let DrawForm { file, ocr_result, drop_score: _ } = form;
    let bytes = match file {
        Some(bytes) => bytes,
        None => {
            return Err(OcrError::BadInput(String::from_str("missing file")));
        },
    };
    let text = match ocr_result {
        Some(text) => text,
        None => {
            return Err(OcrError::BadInput(String::from_str("missing ocr_result")));
        },
    };
    let decoded = load_rgb8(bytes.as_slice());
    let ghost outcome = decoded;
    let r = finish_draw(decoded, text.as_str());
    proof {
        let end = finished(outcome, text@);
        match decoded_or_bad_input(outcome) {
            Err(error) => {
                let detail = match outcome {
                    Ok(_) => size_mismatch_text(),
                    Err(message) => message@,
                };
                assert(error == failure(ErrorKind::BadInput, decode_failure_prefix() + detail));
            },
            Ok(image) => {
                assert(image.wf());
                match rendered(image.pixels@, image.width as int, text@) {
                    Err(error) => {
                        assert(result_fault(text@) == Some(error));
                    },
                    Ok(pixels) => {
                        match png_stream(image.width, image.height, pixels) {
                            Ok(_) => {},
                            Err(detail) => {
                                assert(end == Err::<Seq<u8>, ErrorView>(
                                    failure(
                                        ErrorKind::EncodeFailure,
                                        encode_failure_prefix() + detail,
                                    ),
                                ));
                            },
                        }
                    },
                }
            },
        }
    }
    r
}

/// No frames where there are no envelopes.
pub proof fn lemma_no_envelopes_no_frames(pixels: Seq<u8>, width: int)
    ensures
        framed_all(pixels, width, Seq::empty()) == pixels,
{
}

/// An overlay for a document with an empty line list is the image itself:
/// the same pixels, with no frame drawn.
pub proof fn lemma_empty_overlay(pixels: Seq<u8>, width: int, document: JsonView)
    requires
        overlay_lines(document).len() == 0,
    ensures
        overlaid(pixels, width, document) == pixels,
{
    assert(envelopes_of(overlay_lines(document)) =~= Seq::empty());
}

} // verus!
