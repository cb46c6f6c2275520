//! The inference dispatcher: from an upload to a job for the engine, and
//! from what the engine made of the job to the public result.
//!
//! The engine runs outside this library, on a worker of its own. The caller
//! validates the upload, takes a handle out of the model slot, runs the job
//! and hands back the outcome; what is decided at each of these steps is
//! decided here.

use vstd::prelude::*;
use vstd::string::*;
use std::sync::Arc;
use crate::codec::{
    decode, decode_failure_prefix, infer_image_format, is_pdf, recognized_format,
    unsupported_format_text,
};
use crate::error::{failure, model_not_loaded_text, prefixed, ErrorKind, ErrorView, OcrError};
use crate::model::{after_load, after_unload};
use crate::normalize::{
    normalize, normalized, normalized_line, normalized_page, region_views, LineView, PublicResult,
    RegionView, TextRegion,
};
use crate::raster::Raster;

verus! {

/// The message for a request without an upload.
pub open spec fn missing_file_text() -> Seq<char> {
    "missing file"@
}

/// The start of the message for a failure inside the engine.
pub open spec fn inference_failure_prefix() -> Seq<char> {
    "OCR error: "@
}

/// The start of the message for a worker that did not finish.
pub open spec fn task_failure_prefix() -> Seq<char> {
    "Task error: "@
}

/// What the format check makes of an upload: the bytes, or `BadInput` where
/// there is no upload or its format is not known.
pub open spec fn admitted(file: Option<Seq<u8>>) -> Result<Seq<u8>, ErrorView> {
    match file {
        None => Err(failure(ErrorKind::BadInput, missing_file_text())),
        Some(bytes) => if recognized_format(bytes) {
            Ok(bytes)
        } else {
            Err(failure(ErrorKind::BadInput, unsupported_format_text()))
        },
    }
}

/// What the dispatcher makes of the state of the model slot: the model to
/// work with, or `ModelNotLoaded`.
pub open spec fn dispatched<M>(slot: Option<M>) -> Result<M, ErrorView> {
    match slot {
        Some(model) => Ok(model),
        None => Err(failure(ErrorKind::ModelNotLoaded, model_not_loaded_text())),
    }
}

/// A recognition that is ready to run: the decoded image and a handle of its
/// own to the model.
pub struct Job<M> {
    pub image: Raster,
    pub engine: Arc<M>,
}

/// How the run of a job ended.
#[derive(Debug, PartialEq, Eq)]
pub enum Outcome {
    /// The engine returned: for each image of the batch its regions, in the
    /// order in which the engine found them.
    Pages(Vec<Vec<TextRegion>>),
    /// The engine failed, with this message.
    EngineFailure(String),
    /// The worker could not be scheduled or did not finish, with this message.
    TaskFailure(String),
}

/// The detail of the message for an engine that answered without a page.
pub open spec fn no_page_text() -> Seq<char> {
    "the engine returned no page"@
}

/// What a request makes of the outcome of its job: the normalized first page,
/// `InferenceFailure` (also for an answer without any page) or `TaskFailure`.
pub open spec fn concluded(outcome: Outcome) -> Result<Seq<Seq<LineView>>, ErrorView> {
    match outcome {
        Outcome::Pages(pages) => if pages@.len() >= 1 {
            Ok(normalized(region_views(pages@[0]@)))
        } else {
            Err(failure(ErrorKind::InferenceFailure, inference_failure_prefix() + no_page_text()))
        },
        Outcome::EngineFailure(detail) => Err(
            failure(ErrorKind::InferenceFailure, inference_failure_prefix() + detail@),
        ),
        Outcome::TaskFailure(detail) => Err(
            failure(ErrorKind::TaskFailure, task_failure_prefix() + detail@),
        ),
    }
}

/// Checks that there is an upload and that it starts as an image of a known
/// format does. A PDF document is never let through.
pub fn check_upload(file: Option<Vec<u8>>) -> (r: Result<Vec<u8>, OcrError>)
    ensures
        match admitted(
            match file {
                Some(bytes) => Some(bytes@),
                None => None,
            },
        ) {
            Ok(bytes) => r matches Ok(kept) && kept@ == bytes,
            Err(error) => r matches Err(e) && e@ == error,
        },
        file matches Some(bytes) && is_pdf(bytes@) ==> (r matches Err(e) && e@ == failure(
            ErrorKind::BadInput,
            unsupported_format_text(),
        )),
{
    let bytes = match file {
        Some(bytes) => bytes,
        None => {
            return Err(OcrError::BadInput(String::from_str("missing file")));
        },
    };
    match infer_image_format(bytes.as_slice()) {
        Ok(()) => Ok(bytes),
        Err(()) => Err(
            OcrError::BadInput(
                String::from_str(
                    "Unsupported file type or PDF is not supported by Rust service yet",
                ),
            ),
        ),
    }
}

/// Validates an upload and decodes it.
///
/// An upload that is missing or of no known format is refused before any
/// decoding; a PDF document is always of no known format. Whether the rest decodes is the codec's to say: the result is
/// then a well-formed raster, or `BadInput` with the decoder's message.
pub fn prepare(file: Option<Vec<u8>>) -> (r: Result<Raster, OcrError>)
    ensures
        match admitted(
            match file {
                Some(bytes) => Some(bytes@),
                None => None,
            },
        ) {
            Ok(_) => match r {
                Ok(image) => image.wf(),
                Err(e) => exists|detail: Seq<char>|
                    e@ == failure(ErrorKind::BadInput, decode_failure_prefix() + detail),
            },
            Err(error) => r matches Err(e) && e@ == error,
        },
        file matches Some(bytes) && is_pdf(bytes@) ==> (r matches Err(e) && e@ == failure(
            ErrorKind::BadInput,
            unsupported_format_text(),
        )),
{
    match check_upload(file) {
        Ok(bytes) => decode(bytes.as_slice()),
        Err(e) => Err(e),
    }
}

/// Joins a decoded image with the handle that was taken out of the model
/// slot. Without a handle there is no job, and nothing is run.
pub fn dispatch<M>(image: Raster, engine: Option<Arc<M>>) -> (r: Result<Job<M>, OcrError>)
    ensures
        match dispatched(
            match engine {
                Some(handle) => Some(*handle),
                None => None,
            },
        ) {
            Ok(model) => r matches Ok(job) && job.image == image && *job.engine == model,
            Err(error) => r matches Err(e) && e@ == error,
        },
{
    match engine {
        Some(handle) => Ok(Job { image, engine: handle }),
        None => Err(OcrError::ModelNotLoaded),
    }
}

/// Ends a recognition: the first page of what the engine returned goes
/// through the normalizer, a failure becomes the error of the request.
///
/// A run on one image returns one page. An answer without any page is taken
/// for a failure of the engine.
pub fn conclude(outcome: Outcome) -> (r: Result<PublicResult, OcrError>)
    ensures
        match concluded(outcome) {
            Ok(pages) => r matches Ok(result) && result@ == pages,
            Err(error) => r matches Err(e) && e@ == error,
        },
{
    match outcome {
        Outcome::Pages(pages) => if pages.len() >= 1 {
            Ok(normalize(&pages[0]))
        } else {
            Err(OcrError::InferenceFailure(prefixed("OCR error: ", "the engine returned no page")))
        },
        Outcome::EngineFailure(detail) => Err(
            OcrError::InferenceFailure(prefixed("OCR error: ", detail.as_str())),
        ),
        Outcome::TaskFailure(detail) => Err(
            OcrError::TaskFailure(prefixed("Task error: ", detail.as_str())),
        ),
    }
}

/// A recognition that the engine answers ends in a result of exactly one
/// page, which holds one line for each region, in the order of the regions.
pub proof fn lemma_one_page_in_order(regions: Seq<RegionView>)
    ensures
        normalized(regions).len() == 1,
        normalized(regions)[0].len() == regions.len(),
        forall|i: int|
            0 <= i < regions.len() ==> (#[trigger] normalized(regions)[0][i]) == normalized_line(
                regions[i],
            ),
{
    assert(normalized(regions)[0] == normalized_page(regions));
}

/// With an empty model slot a request ends in `ModelNotLoaded`, whatever the
/// image: no model is handed out, so there is no job and nothing is run. A
/// slot is empty before the first load, after an unload, and after a load
/// that failed on an empty slot.
pub proof fn lemma_empty_slot_dispatches_nothing<M>(slot: Option<M>, detail: String)
    ensures
        slot is None ==> dispatched(slot) == Err::<M, ErrorView>(
            failure(ErrorKind::ModelNotLoaded, model_not_loaded_text()),
        ),
        dispatched(after_unload(slot)) == Err::<M, ErrorView>(
            failure(ErrorKind::ModelNotLoaded, model_not_loaded_text()),
        ),
        slot is None ==> dispatched(after_load(slot, Err::<M, String>(detail))) == Err::<
            M,
            ErrorView,
        >(failure(ErrorKind::ModelNotLoaded, model_not_loaded_text())),
{
}

} // verus!
