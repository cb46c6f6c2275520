use ocr_service::codec::encode_png;
use ocr_service::normalize::TextRegion;
use ocr_service::number::Number;
use ocr_service::raster::Raster;
use ocr_service::model::ModelPaths;
use ocr_service::reduced::{
    is_image_field, plain_text, reduced_answer, reduced_image, reduced_model_paths,
    reduced_upload, STATUS_BAD_REQUEST, STATUS_INTERNAL_ERROR,
};

fn found(text: Option<&str>, confidence: Option<f32>) -> TextRegion {
    TextRegion {
        bounding_box: Vec::new(),
        text: text.map(|t| t.to_string()),
        confidence: confidence.map(|c| Number::from_bits((c as f64).to_bits())),
    }
}

#[test]
fn plain_text_ends_every_line_with_a_newline() {
    let pages = vec![vec![found(Some("a"), Some(0.9)), found(Some("b"), Some(0.8))]];
    assert_eq!(plain_text(&pages), "a\nb\n");
}

#[test]
fn plain_text_wants_text_and_confidence() {
    let pages = vec![vec![
        found(Some("kept"), Some(0.9)),
        found(Some("no score"), None),
        found(None, Some(0.9)),
        found(None, None),
        found(Some(""), Some(0.1)),
        found(Some("  "), Some(0.0)),
    ]];
    assert_eq!(plain_text(&pages), "kept\n\n  \n");
}

#[test]
fn plain_text_goes_through_all_pages() {
    let pages = vec![
        vec![found(Some("one"), Some(1.0))],
        vec![],
        vec![found(Some("two"), Some(1.0)), found(Some("three"), Some(1.0))],
    ];
    assert_eq!(plain_text(&pages), "one\ntwo\nthree\n");
    assert_eq!(plain_text(&Vec::new()), "");
}

#[test]
fn reduced_answer_is_the_text_or_an_internal_error() {
    assert_eq!(reduced_answer(Ok(vec![vec![found(Some("x"), Some(0.5))]])), Ok("x\n".to_string()));
    assert_eq!(reduced_answer(Err("engine down".to_string())), Err(500));
    assert_eq!(STATUS_INTERNAL_ERROR, 500);
}

#[test]
fn reduced_image_is_the_raster_or_a_bad_request() {
    let raster = Raster { width: 2, height: 1, pixels: vec![1, 2, 3, 4, 5, 6] };
    let bytes = encode_png(&raster).unwrap();
    assert_eq!(reduced_image(&bytes), Ok(raster));
    assert_eq!(reduced_image(b"%PDF-1.4"), Err(400));
    assert_eq!(STATUS_BAD_REQUEST, 400);
}

#[test]
fn the_image_field_is_named_image() {
    assert!(is_image_field(Some("image")));
    assert!(!is_image_field(Some("file")));
    assert!(!is_image_field(Some("")));
    assert!(!is_image_field(None));
}

#[test]
fn reduced_image_refuses_what_begins_as_no_stream_of_its_formats() {
    for bytes in [&b""[..], &b"BM123456"[..], &b"GIF87a"[..], &b"II*\0"[..], &[0xffu8, 0xd9][..]] {
        assert_eq!(reduced_image(bytes), Err(400));
    }
    let raster = Raster { width: 1, height: 1, pixels: vec![9, 8, 7] };
    let mut bytes = encode_png(&raster).unwrap();
    bytes.truncate(20);
    assert_eq!(reduced_image(&bytes), Err(400));
}

#[test]
fn reduced_model_paths_are_fixed() {
    assert_eq!(
        reduced_model_paths(),
        ModelPaths {
            detector: "models/ppocrv4_mobile_det.onnx".to_string(),
            recognizer: "models/ppocrv4_mobile_rec.onnx".to_string(),
            dictionary: "models/ppocr_keys_v1.txt".to_string(),
        }
    );
}

#[test]
fn reduced_upload_wants_an_image_field() {
    assert_eq!(reduced_upload(None), Err(400));
    assert_eq!(reduced_upload(Some(b"plain".to_vec())), Err(400));
    let raster = Raster { width: 1, height: 2, pixels: vec![1, 2, 3, 4, 5, 6] };
    let bytes = encode_png(&raster).unwrap();
    assert_eq!(reduced_upload(Some(bytes)), Ok(raster));
}
