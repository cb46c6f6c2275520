//! The bodies that the service answers with.

use vstd::prelude::*;
use vstd::string::*;
use crate::error::OcrError;
use crate::json::{lemma_member_views_of, member_views_of, Json, JsonView};

verus! {

/// The object with the one member `key`.
pub open spec fn single_member(key: Seq<char>, value: JsonView) -> JsonView {
    JsonView::Object(seq![(key, value)])
}

/// The body of a health check: `{"status": "ok"}`.
pub open spec fn health_json() -> JsonView {
    single_member("status"@, JsonView::Str("ok"@))
}

/// The body that carries a message: `{"message": text}`.
pub open spec fn message_json(text: Seq<char>) -> JsonView {
    single_member("message"@, JsonView::Str(text))
}

/// The body of a status query: `{"loaded": flag}`.
pub open spec fn status_json(loaded: bool) -> JsonView {
    single_member("loaded"@, JsonView::Bool(loaded))
}

/// The note of a status query where the engine is not part of the build.
pub open spec fn unavailable_note() -> Seq<char> {
    "ocr-service built without feature 'with-ocr'"@
}

/// The body of a status query where the engine is not part of the build:
/// `{"loaded": false, "note": ..}`.
pub open spec fn unavailable_status_json() -> JsonView {
    JsonView::Object(
        seq![("loaded"@, JsonView::Bool(false)), ("note"@, JsonView::Str(unavailable_note()))],
    )
}

/// The body of a failed request: `{"error": text}`.
pub open spec fn error_json(text: Seq<char>) -> JsonView {
    single_member("error"@, JsonView::Str(text))
}

/// The body of a text extraction: `{"text": text}`.
pub open spec fn text_json(text: Seq<char>) -> JsonView {
    single_member("text"@, JsonView::Str(text))
}

/// Builds the object with the one member `key`.
fn object_of(key: &str, value: Json) -> (json: Json)
    ensures
        json@ == single_member(key@, value@),
{
    let mut members: Vec<(String, Json)> = Vec::new();
    members.push((String::from_str(key), value));
    proof {
        lemma_member_views_of(members@);
        assert(member_views_of(members@) =~= seq![(key@, value@)]);
    }
    Json::Object(members)
}

/// The body of a health check.
pub fn health() -> (body: Json)
    ensures
        body@ == health_json(),
{
    object_of("status", Json::Str(String::from_str("ok")))
}

/// The body that carries a message.
pub fn message_body(text: String) -> (body: Json)
    ensures
        body@ == message_json(text@),
{
    object_of("message", Json::Str(text))
}

/// The body of a status query.
pub fn status_body(loaded: bool) -> (body: Json)
    ensures
        body@ == status_json(loaded),
{
    object_of("loaded", Json::Bool(loaded))
}

/// The body of a status query where the engine is not part of the build.
pub fn unavailable_status_body() -> (body: Json)
    ensures
        body@ == unavailable_status_json(),
{
    let mut members: Vec<(String, Json)> = Vec::new();
    members.push((String::from_str("loaded"), Json::Bool(false)));
    members.push(
        (
            String::from_str("note"),
            Json::Str(String::from_str("ocr-service built without feature 'with-ocr'")),
        ),
    );
    proof {
        lemma_member_views_of(members@);
        assert(member_views_of(members@) =~= seq![
            ("loaded"@, JsonView::Bool(false)),
            ("note"@, JsonView::Str(unavailable_note())),
        ]);
    }
    Json::Object(members)
}

/// The body of a failed request: the error's message under `error`.
pub fn error_body(error: &OcrError) -> (body: Json)
    ensures
        body@ == error_json(error@.message),
{
    object_of("error", Json::Str(error.message()))
}

/// The body of a text extraction.
pub fn text_body(text: String) -> (body: Json)
    ensures
        body@ == text_json(text@),
{
    object_of("text", Json::Str(text))
}

} // verus!
