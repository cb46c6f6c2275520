//! The error taxonomy of the service and the way each error is reported.

use vstd::prelude::*;
use vstd::string::*;

verus! {

/// The kinds of failure a request can end in.
#[derive(Clone, Copy, Debug, PartialEq, Eq, Structural)]
pub enum ErrorKind {
    /// A missing or invalid upload field, or an image that cannot be used.
    BadInput,
    /// A submitted recognition result that is malformed or lacks required fields.
    InvalidResultFormat,
    /// Recognition was asked for while no model was loaded.
    ModelNotLoaded,
    /// The engine could not be built from its artifacts.
    ModelBuildFailure,
    /// The engine failed while predicting.
    InferenceFailure,
    /// The worker that ran the prediction could not be scheduled or did not finish.
    TaskFailure,
    /// The overlay could not be encoded.
    EncodeFailure,
    /// The capability is not available in this build.
    UnsupportedFeature,
}

/// A failed request: its kind together with a human-readable message.
#[derive(Clone, Debug, PartialEq, Eq)]
pub enum OcrError {
    BadInput(String),
    InvalidResultFormat(String),
    ModelNotLoaded,
    ModelBuildFailure(String),
    InferenceFailure(String),
    TaskFailure(String),
    EncodeFailure(String),
    UnsupportedFeature,
}

/// The mathematical content of an [`OcrError`].
pub struct ErrorView {
    pub kind: ErrorKind,
    pub message: Seq<char>,
}

/// The message reported when recognition is asked for without a model.
pub open spec fn model_not_loaded_text() -> Seq<char> {
    "Model not loaded"@
}

/// The message reported when the engine is not part of the build.
pub open spec fn unsupported_feature_text() -> Seq<char> {
    "ocr-service built without feature 'with-ocr'; enable it to use native OCR"@
}

/// An error view of the given kind and message.
pub open spec fn failure(kind: ErrorKind, message: Seq<char>) -> ErrorView {
    ErrorView { kind, message }
}

/// The HTTP status under which an error of the given kind is reported.
pub open spec fn status_of(kind: ErrorKind) -> u16 {
    match kind {
        ErrorKind::BadInput => 400,
        ErrorKind::InvalidResultFormat => 400,
        ErrorKind::ModelNotLoaded => 400,
        ErrorKind::ModelBuildFailure => 500,
        ErrorKind::InferenceFailure => 500,
        ErrorKind::TaskFailure => 500,
        ErrorKind::EncodeFailure => 500,
        ErrorKind::UnsupportedFeature => 501,
    }
}

/// Whether a status code reports a fault of the client.
pub open spec fn is_client_status(status: u16) -> bool {
    400 <= status < 500
}

impl View for OcrError {
    type V = ErrorView;

    open spec fn view(&self) -> ErrorView {
        match *self {
            OcrError::BadInput(m) => failure(ErrorKind::BadInput, m@),
            OcrError::InvalidResultFormat(m) => failure(ErrorKind::InvalidResultFormat, m@),
            OcrError::ModelNotLoaded => failure(ErrorKind::ModelNotLoaded, model_not_loaded_text()),
            OcrError::ModelBuildFailure(m) => failure(ErrorKind::ModelBuildFailure, m@),
            OcrError::InferenceFailure(m) => failure(ErrorKind::InferenceFailure, m@),
            OcrError::TaskFailure(m) => failure(ErrorKind::TaskFailure, m@),
            OcrError::EncodeFailure(m) => failure(ErrorKind::EncodeFailure, m@),
            OcrError::UnsupportedFeature => failure(
                ErrorKind::UnsupportedFeature,
                unsupported_feature_text(),
            ),
        }
    }
}

impl ErrorKind {
    /// The HTTP status under which this kind of error is reported.
    pub fn status(self) -> (code: u16)
        ensures
            code == status_of(self),
    {
        match self {
            ErrorKind::BadInput => 400,
            ErrorKind::InvalidResultFormat => 400,
            ErrorKind::ModelNotLoaded => 400,
            ErrorKind::ModelBuildFailure => 500,
            ErrorKind::InferenceFailure => 500,
            ErrorKind::TaskFailure => 500,
            ErrorKind::EncodeFailure => 500,
            ErrorKind::UnsupportedFeature => 501,
        }
    }

    /// Whether this kind of error is the client's to correct.
    pub fn is_client_error(self) -> (r: bool)
        ensures
            r == is_client_status(status_of(self)),
            r == (self == ErrorKind::BadInput || self == ErrorKind::InvalidResultFormat || self
                == ErrorKind::ModelNotLoaded),
    {
        let code: u16 = self.status();
        400 <= code && code < 500
    }
}

impl OcrError {
    /// The kind of this error.
    pub fn kind(&self) -> (k: ErrorKind)
        ensures
            k == self@.kind,
    {
        match self {
            OcrError::BadInput(_) => ErrorKind::BadInput,
            OcrError::InvalidResultFormat(_) => ErrorKind::InvalidResultFormat,
            OcrError::ModelNotLoaded => ErrorKind::ModelNotLoaded,
            OcrError::ModelBuildFailure(_) => ErrorKind::ModelBuildFailure,
            OcrError::InferenceFailure(_) => ErrorKind::InferenceFailure,
            OcrError::TaskFailure(_) => ErrorKind::TaskFailure,
            OcrError::EncodeFailure(_) => ErrorKind::EncodeFailure,
            OcrError::UnsupportedFeature => ErrorKind::UnsupportedFeature,
        }
    }

    /// The human-readable message that is sent to the caller.
    pub fn message(&self) -> (text: String)
        ensures
            text@ == self@.message,
    {
        match self {
            OcrError::BadInput(m) => m.clone(),
            OcrError::InvalidResultFormat(m) => m.clone(),
            OcrError::ModelNotLoaded => String::from_str("Model not loaded"),
            OcrError::ModelBuildFailure(m) => m.clone(),
            OcrError::InferenceFailure(m) => m.clone(),
            OcrError::TaskFailure(m) => m.clone(),
            OcrError::EncodeFailure(m) => m.clone(),
            OcrError::UnsupportedFeature => String::from_str(
                "ocr-service built without feature 'with-ocr'; enable it to use native OCR",
            ),
        }
    }

    /// The HTTP status under which this error is reported.
    pub fn status(&self) -> (code: u16)
        ensures
            code == status_of(self@.kind),
    {
        self.kind().status()
    }
}

/// Builds the text `prefix` followed by `detail`.
pub fn prefixed(prefix: &str, detail: &str) -> (text: String)
    ensures
        text@ == prefix@ + detail@,
{
    let mut text = String::from_str(prefix);
    text.append(detail);
    text
}

} // verus!
