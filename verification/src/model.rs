//! The model lifecycle manager: the slot that holds the loaded model, and
//! where the artifacts of a model are found.

use vstd::prelude::*;
use vstd::string::*;
use std::sync::Arc;
use crate::error::{failure, prefixed, ErrorKind, OcrError};

verus! {

/// The paths of the three artifacts that a model is built from.
#[derive(Debug, PartialEq, Eq)]
pub struct ModelPaths {
    pub detector: String,
    pub recognizer: String,
    pub dictionary: String,
}

/// The directory that holds the artifacts where none is configured.
pub open spec fn default_directory() -> Seq<char> {
    "../models/ppocrv5"@
}

/// The file name of the detector, behind a slash.
pub open spec fn detector_suffix() -> Seq<char> {
    "/pp-ocrv5_mobile_det.onnx"@
}

/// The file name of the recognizer, behind a slash.
pub open spec fn recognizer_suffix() -> Seq<char> {
    "/pp-ocrv5_mobile_rec.onnx"@
}

/// The file name of the dictionary, behind a slash.
pub open spec fn dictionary_suffix() -> Seq<char> {
    "/ppocrv5_dict.txt"@
}

/// The message of a successful load.
pub open spec fn loaded_text() -> Seq<char> {
    "OCR model loaded successfully"@
}

/// The message of an unload.
pub open spec fn unloaded_text() -> Seq<char> {
    "OCR model unloaded"@
}

/// The start of the message of a failed load.
pub open spec fn build_failure_prefix() -> Seq<char> {
    "Failed to build model: "@
}

/// The name of the environment variable that configures the directory.
pub fn directory_variable() -> (name: &'static str)
    ensures
        name@ == "OCR_MODEL_DIR"@,
{
    "OCR_MODEL_DIR"
}

/// The directory of the artifacts: the configured one, or the default.
pub fn model_directory(configured: Option<String>) -> (directory: String)
    ensures
        directory@ == match configured {
            Some(path) => path@,
            None => default_directory(),
        },
{
    match configured {
        Some(path) => path,
        None => String::from_str("../models/ppocrv5"),
    }
}

/// The paths of the three artifacts under a directory.
pub fn artifact_paths(directory: &str) -> (paths: ModelPaths)
    ensures
        paths.detector@ == directory@ + detector_suffix(),
        paths.recognizer@ == directory@ + recognizer_suffix(),
        paths.dictionary@ == directory@ + dictionary_suffix(),
{
    ModelPaths {
        detector: prefixed(directory, "/pp-ocrv5_mobile_det.onnx"),
        recognizer: prefixed(directory, "/pp-ocrv5_mobile_rec.onnx"),
        dictionary: prefixed(directory, "/ppocrv5_dict.txt"),
    }
}

/// The slot of the one model that may be loaded: empty, or a shared handle
/// to a built model.
///
/// A request takes its own handle out of the slot before it works; such a
/// handle keeps the model alive after the slot has been cleared or refilled.
pub struct ModelSlot<M> {
    handle: Option<Arc<M>>,
}

/// Calls `Arc::clone`: another pointer to the same allocation.
#[verifier::external_body]
fn share<M>(handle: &Arc<M>) -> (shared: Arc<M>)
    ensures
        shared == *handle,
{
    Arc::clone(handle)
}

/// The slot after a load that ended in `built`: the new model where the build
/// succeeded, else the slot as it was.
pub open spec fn after_load<M>(slot: Option<M>, built: Result<M, String>) -> Option<M> {
    match built {
        Ok(model) => Some(model),
        Err(_) => slot,
    }
}

/// The slot after an unload: empty.
pub open spec fn after_unload<M>(slot: Option<M>) -> Option<M> {
    None
}

/// What a status query reports of a slot.
pub open spec fn status_of_slot<M>(slot: Option<M>) -> bool {
    slot is Some
}

impl<M> View for ModelSlot<M> {
    type V = Option<M>;

    closed spec fn view(&self) -> Option<M> {
        match self.handle {
            Some(handle) => Some(*handle),
            None => None,
        }
    }
}

impl<M> ModelSlot<M> {
    /// An empty slot.
    pub fn new() -> (slot: Self)
        ensures
            slot@ is None,
    {
        ModelSlot { handle: None }
    }

    /// Puts a model into the slot in place of what it held.
    pub fn install(&mut self, model: M)
        ensures
            final(self)@ == Some(model),
    {
        self.handle = Some(Arc::new(model));
    }

    /// Clears the slot. Clearing an empty slot changes nothing.
    pub fn unload(&mut self)
        ensures
            final(self)@ == after_unload(old(self)@),
    {
        self.handle = None;
    }

    /// Tells whether the slot holds a model.
    pub fn status(&self) -> (loaded: bool)
        ensures
            loaded == status_of_slot(self@),
    {
        self.handle.is_some()
    }

    /// A handle of its own to the model in the slot, if there is one.
    pub fn snapshot(&self) -> (handle: Option<Arc<M>>)
        ensures
            match handle {
                Some(shared) => self@ == Some(*shared),
                None => self@ is None,
            },
    {
        match &self.handle {
            Some(handle) => Some(share(handle)),
            None => None,
        }
    }
}

/// Ends a load. Where the engine was built it takes the place of what the
/// slot held; where it was not, the slot stays as it was and the failure is
/// reported with the builder's message.
pub fn load_model<M>(slot: &mut ModelSlot<M>, built: Result<M, String>) -> (r: Result<
    String,
    OcrError,
>)
    ensures
        final(slot)@ == after_load(old(slot)@, built),
        match built {
            Ok(_) => r matches Ok(message) && message@ == loaded_text(),
            Err(detail) => r matches Err(e) && e@ == failure(
                ErrorKind::ModelBuildFailure,
                build_failure_prefix() + detail@,
            ),
        },
{
    match built {
        Ok(model) => {
            slot.install(model);
            Ok(String::from_str("OCR model loaded successfully"))
        },
        Err(detail) => Err(
            OcrError::ModelBuildFailure(prefixed("Failed to build model: ", detail.as_str())),
        ),
    }
}

/// Clears the slot and reports it; an empty slot is cleared as well as a
/// full one.
pub fn unload_model<M>(slot: &mut ModelSlot<M>) -> (message: String)
    ensures
        final(slot)@ == after_unload(old(slot)@),
        message@ == unloaded_text(),
{
    slot.unload();
    String::from_str("OCR model unloaded")
}

/// Tells whether a model is loaded.
pub fn model_status<M>(slot: &ModelSlot<M>) -> (loaded: bool)
    ensures
        loaded == status_of_slot(slot@),
{
    slot.status()
}

/// Unloading twice leaves the slot as unloading once does, and after either
/// unload no model is reported.
pub proof fn lemma_unload_idempotent<M>(slot: Option<M>)
    ensures
        after_unload(after_unload(slot)) == after_unload(slot),
        !status_of_slot(after_unload(slot)),
        !status_of_slot(after_unload(after_unload(slot))),
{
}

/// Once a load has succeeded, a model is reported, however often the status
/// is asked for: asking does not change the slot.
pub proof fn lemma_status_after_load<M>(slot: Option<M>, model: M)
    ensures
        status_of_slot(after_load(slot, Ok::<M, String>(model))),
        after_load(slot, Ok::<M, String>(model)) == Some(model),
{
}

/// A load that fails leaves the slot as it was.
pub proof fn lemma_failed_load_keeps_slot<M>(slot: Option<M>, detail: String)
    ensures
        after_load(slot, Err::<M, String>(detail)) == slot,
{
}

/// The recognition capability of a build: not there, or there with its
/// model slot.
pub enum Recognizer<M> {
    Unavailable,
    Available(ModelSlot<M>),
}

impl<M> Recognizer<M> {
    /// The state of the model slot; nothing where the capability is not there.
    pub open spec fn slot(self) -> Option<Option<M>> {
        match self {
            Recognizer::Unavailable => None,
            Recognizer::Available(slot) => Some(slot@),
        }
    }

    /// Tells whether the capability is there.
    pub fn is_available(&self) -> (r: bool)
        ensures
            r == (self.slot() is Some),
    {
        match self {
            Recognizer::Unavailable => false,
            Recognizer::Available(_) => true,
        }
    }

    /// Ends a load as [`load_model`] does; `UnsupportedFeature` where the
    /// capability is not there.
    pub fn load(&mut self, built: Result<M, String>) -> (r: Result<String, OcrError>)
        ensures
            match old(self).slot() {
                None => {
                    &&& final(self).slot() is None
                    &&& r matches Err(e) && e@ == failure(
                        ErrorKind::UnsupportedFeature,
                        crate::error::unsupported_feature_text(),
                    )
                },
                Some(slot) => final(self).slot() == Some(after_load(slot, built)) && match built {
                    Ok(_) => r matches Ok(message) && message@ == loaded_text(),
                    Err(detail) => r matches Err(e) && e@ == failure(
                        ErrorKind::ModelBuildFailure,
                        build_failure_prefix() + detail@,
                    ),
                },
            },
    {
        match self {
            Recognizer::Unavailable => Err(OcrError::UnsupportedFeature),
            Recognizer::Available(slot) => load_model(slot, built),
        }
    }

    /// Clears the slot as [`unload_model`] does; `UnsupportedFeature` where
    /// the capability is not there.
    pub fn unload(&mut self) -> (r: Result<String, OcrError>)
        ensures
            match old(self).slot() {
                None => {
                    &&& final(self).slot() is None
                    &&& r matches Err(e) && e@ == failure(
                        ErrorKind::UnsupportedFeature,
                        crate::error::unsupported_feature_text(),
                    )
                },
                Some(slot) => {
                    &&& final(self).slot() == Some(after_unload(slot))
                    &&& r matches Ok(message) && message@ == unloaded_text()
                },
            },
    {
        match self {
            Recognizer::Unavailable => Err(OcrError::UnsupportedFeature),
            Recognizer::Available(slot) => Ok(unload_model(slot)),
        }
    }

    /// Tells whether a model is loaded; never where the capability is not
    /// there.
    pub fn status(&self) -> (loaded: bool)
        ensures
            loaded == match self.slot() {
                None => false,
                Some(slot) => status_of_slot(slot),
            },
    {
        match self {
            Recognizer::Unavailable => false,
            Recognizer::Available(slot) => slot.status(),
        }
    }

    /// A handle to the loaded model for a request: `UnsupportedFeature` where
    /// the capability is not there, nothing where no model is loaded.
    pub fn snapshot(&self) -> (r: Result<Option<Arc<M>>, OcrError>)
        ensures
            match self.slot() {
                None => r matches Err(e) && e@ == failure(
                    ErrorKind::UnsupportedFeature,
                    crate::error::unsupported_feature_text(),
                ),
                Some(slot) => r matches Ok(handle) && match handle {
                    Some(shared) => slot == Some(*shared),
                    None => slot is None,
                },
            },
    {
        match self {
            Recognizer::Unavailable => Err(OcrError::UnsupportedFeature),
            Recognizer::Available(slot) => Ok(slot.snapshot()),
        }
    }
}

} // verus!
