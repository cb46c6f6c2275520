use ocr_service::error::OcrError;
use ocr_service::json::Json;
use ocr_service::response::{
    error_body, health, message_body, status_body, text_body, unavailable_status_body,
};

#[test]
fn health_body_says_ok() {
    assert_eq!(health(), Json::parse("{\"status\": \"ok\"}").unwrap());
}

#[test]
fn message_body_carries_the_message() {
    assert_eq!(
        message_body("OCR model unloaded".to_string()),
        Json::parse("{\"message\": \"OCR model unloaded\"}").unwrap()
    );
}

#[test]
fn status_body_carries_the_flag() {
    assert_eq!(status_body(true), Json::parse("{\"loaded\": true}").unwrap());
    assert_eq!(status_body(false), Json::parse("{\"loaded\": false}").unwrap());
}

#[test]
fn error_body_carries_the_message_of_the_error() {
    assert_eq!(
        error_body(&OcrError::ModelNotLoaded),
        Json::parse("{\"error\": \"Model not loaded\"}").unwrap()
    );
    assert_eq!(
        error_body(&OcrError::BadInput("missing file".to_string())),
        Json::parse("{\"error\": \"missing file\"}").unwrap()
    );
}

#[test]
fn text_body_carries_the_text() {
    assert_eq!(text_body("a\nb".to_string()), Json::parse("{\"text\": \"a\\nb\"}").unwrap());
    assert_eq!(text_body(String::new()), Json::parse("{\"text\": \"\"}").unwrap());
}

#[test]
fn status_body_without_the_engine_carries_a_note() {
    assert_eq!(
        unavailable_status_body(),
        Json::parse(
            "{\"loaded\": false, \"note\": \"ocr-service built without feature 'with-ocr'\"}"
        )
        .unwrap()
    );
}
