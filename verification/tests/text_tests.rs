use ocr_service::error::{ErrorKind, OcrError};
use ocr_service::json::Json;
use ocr_service::text::{blank, join_with_newlines, ocr2text, white_space};

fn text_doc(text: &str) -> Json {
    Json::parse(text).unwrap()
}

#[test]
fn white_space_agrees_with_the_standard_library_on_every_character() {
    for code in 0u32..=0x10ffff {
        if let Some(c) = char::from_u32(code) {
            assert_eq!(white_space(c), c.is_whitespace(), "code point {:#x}", code);
        }
    }
}

#[test]
fn blank_agrees_with_trimming() {
    let samples = [
        "", " ", "\t\n", "a", " a ", "\u{3000}", "\u{a0}\u{2003}", "\u{200b}", " \u{feff}",
        "text", "\r\n", "\u{85}", "\u{1680} \u{2028}\u{2029}\u{202f}\u{205f}", "é", "  x",
    ];
    for sample in samples {
        assert_eq!(blank(sample), sample.trim().is_empty(), "sample {:?}", sample);
    }
}

#[test]
fn join_puts_a_newline_between_lines() {
    assert_eq!(join_with_newlines(&vec![]), "");
    assert_eq!(join_with_newlines(&vec!["a".to_string()]), "a");
    assert_eq!(join_with_newlines(&vec!["a".to_string(), "b".to_string()]), "a\nb");
    assert_eq!(
        join_with_newlines(&vec!["a".to_string(), "".to_string(), "c".to_string()]),
        "a\n\nc"
    );
}

#[test]
fn ocr2text_reads_a_single_page() {
    let body = text_doc(
        "{\"result\": [[ [[[0,0],[9,0],[9,9],[0,9]], [\"first\", 0.9]], [[[0,10],[9,10],[9,19],[0,19]], [\"second\", 0.8]] ]]}",
    );
    assert_eq!(ocr2text(&body), Ok("first\nsecond".to_string()));
}

#[test]
fn ocr2text_reads_all_pages_of_a_multi_page_result() {
    let body = text_doc(
        "{\"result\": [ {\"page\": 1, \"result\": [[ [[], [\"a\", 1]], [[], [\"b\", 1]] ]]}, {\"page\": 2, \"result\": [[ [[], [\"c\", 1]] ]]} ]}",
    );
    assert_eq!(ocr2text(&body), Ok("a\nb\nc".to_string()));
}

#[test]
fn ocr2text_passes_over_pages_without_a_line_list() {
    let body = text_doc(
        "{\"result\": [ {\"page\": 1}, {\"page\": 2, \"result\": \"x\"}, {\"page\": 3, \"result\": []}, {\"page\": 4, \"result\": [5]}, 7, {\"page\": 5, \"result\": [[ [[], [\"kept\", 1]] ]]} ]}",
    );
    assert_eq!(ocr2text(&body), Ok("kept".to_string()));
}

#[test]
fn ocr2text_passes_over_blank_and_malformed_lines() {
    let body = text_doc(
        "{\"result\": [[ [[], [\"  \", 1]], [[], [\"\", 1]], [[], [5, 1]], [[]], 3, [[], []], [[], \"x\"], [[], [\" kept \", 1]], {\"1\": [\"no\"]} ]]}",
    );
    assert_eq!(ocr2text(&body), Ok(" kept ".to_string()));
}

#[test]
fn ocr2text_without_result_is_an_invalid_result_format() {
    for text in ["{}", "{\"results\": []}", "[]", "null", "\"result\"", "5"] {
        let error = ocr2text(&text_doc(text)).unwrap_err();
        assert_eq!(error, OcrError::InvalidResultFormat("Invalid OCR result format".to_string()));
        assert_eq!(error.kind(), ErrorKind::InvalidResultFormat);
        assert_eq!(error.status(), 400);
        assert!(error.kind().is_client_error());
    }
}

#[test]
fn ocr2text_of_nothing_to_read_is_the_empty_text() {
    for text in [
        "{\"result\": []}",
        "{\"result\": [[]]}",
        "{\"result\": null}",
        "{\"result\": \"x\"}",
        "{\"result\": {}}",
        "{\"result\": [5]}",
        "{\"result\": [{\"pages\": 1}]}",
    ] {
        assert_eq!(ocr2text(&text_doc(text)), Ok(String::new()), "body {}", text);
    }
}

#[test]
fn ocr2text_takes_an_entry_with_a_page_key_for_a_page() {
    let body = text_doc("{\"result\": [ {\"page\": null, \"result\": [[ [[], [\"x\", 1]] ]]} ]}");
    assert_eq!(ocr2text(&body), Ok("x".to_string()));
    let body = text_doc("{\"result\": [ [ [[], [\"y\", 1]] ], {\"page\": 1, \"result\": [[ [[], [\"z\", 1]] ]]} ]}");
    assert_eq!(ocr2text(&body), Ok("y".to_string()));
}
