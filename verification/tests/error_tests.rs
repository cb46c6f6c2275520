use ocr_service::error::{prefixed, ErrorKind, OcrError};

#[test]
fn every_kind_has_its_status() {
    assert_eq!(ErrorKind::BadInput.status(), 400);
    assert_eq!(ErrorKind::InvalidResultFormat.status(), 400);
    assert_eq!(ErrorKind::ModelNotLoaded.status(), 400);
    assert_eq!(ErrorKind::ModelBuildFailure.status(), 500);
    assert_eq!(ErrorKind::InferenceFailure.status(), 500);
    assert_eq!(ErrorKind::TaskFailure.status(), 500);
    assert_eq!(ErrorKind::EncodeFailure.status(), 500);
    assert_eq!(ErrorKind::UnsupportedFeature.status(), 501);
}

#[test]
fn client_errors_are_the_kinds_with_a_status_of_four_hundred() {
    assert!(ErrorKind::BadInput.is_client_error());
    assert!(ErrorKind::InvalidResultFormat.is_client_error());
    assert!(ErrorKind::ModelNotLoaded.is_client_error());
    assert!(!ErrorKind::ModelBuildFailure.is_client_error());
    assert!(!ErrorKind::InferenceFailure.is_client_error());
    assert!(!ErrorKind::TaskFailure.is_client_error());
    assert!(!ErrorKind::EncodeFailure.is_client_error());
    assert!(!ErrorKind::UnsupportedFeature.is_client_error());
}

#[test]
fn every_error_tells_its_kind_and_message() {
    let cases = [
        (OcrError::BadInput("a".to_string()), ErrorKind::BadInput, "a"),
        (OcrError::InvalidResultFormat("b".to_string()), ErrorKind::InvalidResultFormat, "b"),
        (OcrError::ModelNotLoaded, ErrorKind::ModelNotLoaded, "Model not loaded"),
        (OcrError::ModelBuildFailure("c".to_string()), ErrorKind::ModelBuildFailure, "c"),
        (OcrError::InferenceFailure("d".to_string()), ErrorKind::InferenceFailure, "d"),
        (OcrError::TaskFailure("e".to_string()), ErrorKind::TaskFailure, "e"),
        (OcrError::EncodeFailure("f".to_string()), ErrorKind::EncodeFailure, "f"),
        (
            OcrError::UnsupportedFeature,
            ErrorKind::UnsupportedFeature,
            "ocr-service built without feature 'with-ocr'; enable it to use native OCR",
        ),
    ];
    for (error, kind, message) in cases {
        assert_eq!(error.kind(), kind);
        assert_eq!(error.message(), message);
        assert_eq!(error.status(), kind.status());
    }
}

#[test]
fn prefixed_puts_the_detail_behind_the_prefix() {
    assert_eq!(prefixed("Task error: ", "cancelled"), "Task error: cancelled");
    assert_eq!(prefixed("", ""), "");
    assert_eq!(prefixed("a", ""), "a");
}
