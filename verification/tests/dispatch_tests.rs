use ocr_service::codec::{
    accept_decoded, decode, decode_reduced, encode_png, infer_image_format,
};
use ocr_service::dispatch::{check_upload, conclude, dispatch, prepare, Outcome};
use ocr_service::error::{ErrorKind, OcrError};
use ocr_service::model::ModelSlot;
use ocr_service::normalize::{Point, TextRegion};
use ocr_service::number::Number;
use ocr_service::raster::Raster;

fn board(width: u32, height: u32) -> Raster {
    let mut pixels = Vec::new();
    for y in 0..height {
        for x in 0..width {
            let shade = if (x + y) % 2 == 0 { 200u8 } else { 30u8 };
            pixels.push(shade);
            pixels.push((x * 7 % 256) as u8);
            pixels.push((y * 11 % 256) as u8);
        }
    }
    Raster { width, height, pixels }
}

fn png_of(raster: &Raster) -> Vec<u8> {
    encode_png(raster).unwrap()
}

fn region_of(text: &str, score: f32) -> TextRegion {
    TextRegion {
        bounding_box: vec![Point { x: Number::from_bits(0), y: Number::from_bits(0) }],
        text: Some(text.to_string()),
        confidence: Some(Number::from_bits((score as f64).to_bits())),
    }
}

#[test]
fn format_of_a_png_is_known() {
    assert_eq!(infer_image_format(&png_of(&board(3, 2))), Ok(()));
    assert_eq!(infer_image_format(&[0xff, 0xd8, 0xff, 0xe0]), Ok(()));
    assert_eq!(infer_image_format(b"GIF89a"), Ok(()));
}

#[test]
fn format_of_a_pdf_is_not_known() {
    assert_eq!(infer_image_format(b"%PDF-1.7\n1 0 obj"), Err(()));
    assert_eq!(infer_image_format(b"%PDF"), Err(()));
}

#[test]
fn format_of_other_bytes_is_not_known() {
    assert_eq!(infer_image_format(b""), Err(()));
    assert_eq!(infer_image_format(b"hello world"), Err(()));
    assert_eq!(infer_image_format(&[0x89]), Err(()));
}

#[test]
fn encoded_png_decodes_to_the_same_raster() {
    let raster = board(5, 4);
    let bytes = png_of(&raster);
    assert_eq!(&bytes[..8], b"\x89PNG\r\n\x1a\n");
    assert_eq!(decode(&bytes), Ok(board(5, 4)));
}

#[test]
fn encoded_png_is_what_the_image_crate_reads() {
    let raster = board(4, 3);
    let read = image::load_from_memory(&png_of(&raster)).unwrap().to_rgb8();
    assert_eq!((read.width(), read.height()), (4, 3));
    assert_eq!(read.into_raw(), raster.pixels);
}

#[test]
fn decode_takes_other_colour_types_to_rgb() {
    let gray = image::GrayImage::from_raw(2, 1, vec![10, 250]).unwrap();
    let mut bytes: Vec<u8> = Vec::new();
    image::DynamicImage::ImageLuma8(gray)
        .write_to(&mut std::io::Cursor::new(&mut bytes), image::ImageFormat::Png)
        .unwrap();
    assert_eq!(
        decode(&bytes),
        Ok(Raster { width: 2, height: 1, pixels: vec![10, 10, 10, 250, 250, 250] })
    );
}

#[test]
fn decode_failure_is_bad_input_with_the_decoder_message() {
    let mut broken = png_of(&board(3, 3));
    broken.truncate(20);
    let detail = image::load_from_memory(&broken).unwrap_err().to_string();
    let error = decode(&broken).unwrap_err();
    assert_eq!(error, OcrError::BadInput(["Failed to decode image: ", detail.as_str()].concat()));
    assert_eq!(error.status(), 400);
    let error = decode(b"not an image").unwrap_err();
    assert_eq!(error.kind(), ErrorKind::BadInput);
    assert!(error.message().starts_with("Failed to decode image: "));
}

#[test]
fn check_upload_wants_a_file() {
    assert_eq!(check_upload(None), Err(OcrError::BadInput("missing file".to_string())));
}

#[test]
fn check_upload_refuses_a_pdf_and_unknown_bytes() {
    let refusal = OcrError::BadInput(
        "Unsupported file type or PDF is not supported by Rust service yet".to_string(),
    );
    assert_eq!(check_upload(Some(b"%PDF-1.4".to_vec())), Err(refusal.clone()));
    assert_eq!(check_upload(Some(Vec::new())), Err(refusal.clone()));
    assert_eq!(check_upload(Some(b"plain text".to_vec())), Err(refusal));
}

#[test]
fn check_upload_hands_the_bytes_of_an_image_on() {
    let bytes = png_of(&board(2, 2));
    assert_eq!(check_upload(Some(bytes.clone())), Ok(bytes));
}

#[test]
fn prepare_decodes_an_image() {
    assert_eq!(prepare(Some(png_of(&board(6, 2)))), Ok(board(6, 2)));
}

#[test]
fn prepare_refuses_before_it_decodes() {
    assert_eq!(prepare(None), Err(OcrError::BadInput("missing file".to_string())));
    assert_eq!(
        prepare(Some(b"%PDF-1.4 body".to_vec())),
        Err(OcrError::BadInput(
            "Unsupported file type or PDF is not supported by Rust service yet".to_string()
        ))
    );
}

#[test]
fn prepare_reports_an_image_that_does_not_decode() {
    let mut broken = png_of(&board(3, 3));
    broken.truncate(30);
    let error = prepare(Some(broken)).unwrap_err();
    assert_eq!(error.kind(), ErrorKind::BadInput);
    assert!(error.message().starts_with("Failed to decode image: "));
}

#[test]
fn dispatch_without_a_model_is_model_not_loaded() {
    let slot: ModelSlot<u8> = ModelSlot::new();
    let answer = dispatch(board(2, 2), slot.snapshot());
    let error = answer.err().unwrap();
    assert_eq!(error, OcrError::ModelNotLoaded);
    assert_eq!(error.message(), "Model not loaded");
    assert_eq!(error.status(), 400);
}

#[test]
fn dispatch_with_a_model_makes_a_job() {
    let mut slot = ModelSlot::new();
    slot.install(17u8);
    let job = dispatch(board(2, 2), slot.snapshot()).ok().unwrap();
    assert_eq!(job.image, board(2, 2));
    assert_eq!(*job.engine, 17);
    slot.unload();
    assert_eq!(*job.engine, 17);
}

#[test]
fn conclude_normalizes_the_first_page() {
    let outcome = Outcome::Pages(vec![vec![region_of("a", 0.5), region_of("b", 0.25)]]);
    let result = conclude(outcome).unwrap();
    assert_eq!(result.pages.len(), 1);
    assert_eq!(result.pages[0].len(), 2);
    assert_eq!(result.pages[0][0].text, "a");
    assert_eq!(result.pages[0][1].text, "b");
    assert_eq!(result.pages[0][1].score, Number::from_bits(0.25f64.to_bits()));
}

#[test]
fn conclude_of_a_page_without_regions_is_an_empty_page() {
    let result = conclude(Outcome::Pages(vec![vec![]])).unwrap();
    assert_eq!(result.pages, vec![vec![]]);
}

#[test]
fn conclude_reports_a_failure_of_the_engine() {
    let error = conclude(Outcome::EngineFailure("session closed".to_string())).unwrap_err();
    assert_eq!(error, OcrError::InferenceFailure("OCR error: session closed".to_string()));
    assert_eq!(error.status(), 500);
}

#[test]
fn conclude_reports_a_failure_of_the_worker() {
    let error = conclude(Outcome::TaskFailure("cancelled".to_string())).unwrap_err();
    assert_eq!(error, OcrError::TaskFailure("Task error: cancelled".to_string()));
    assert_eq!(error.status(), 500);
}

#[test]
fn reduced_decoding_takes_png_jpeg_and_webp() {
    assert_eq!(decode_reduced(&png_of(&board(3, 2))), Some(board(3, 2)));
    let source = image::RgbImage::from_raw(2, 2, board(2, 2).pixels).unwrap();
    let mut webp: Vec<u8> = Vec::new();
    image::DynamicImage::ImageRgb8(source.clone())
        .write_to(&mut std::io::Cursor::new(&mut webp), image::ImageFormat::WebP)
        .unwrap();
    assert_eq!(decode_reduced(&webp), Some(board(2, 2)));
    let mut jpeg: Vec<u8> = Vec::new();
    image::DynamicImage::ImageRgb8(source)
        .write_to(&mut std::io::Cursor::new(&mut jpeg), image::ImageFormat::Jpeg)
        .unwrap();
    let decoded = decode_reduced(&jpeg).unwrap();
    assert_eq!((decoded.width, decoded.height, decoded.pixels.len()), (2, 2, 12));
}

#[test]
fn reduced_decoding_refuses_other_formats() {
    let source = image::RgbImage::from_raw(2, 2, board(2, 2).pixels).unwrap();
    let mut bmp: Vec<u8> = Vec::new();
    image::DynamicImage::ImageRgb8(source)
        .write_to(&mut std::io::Cursor::new(&mut bmp), image::ImageFormat::Bmp)
        .unwrap();
    assert_eq!(decode(&bmp), Ok(board(2, 2)));
    assert_eq!(decode_reduced(&bmp), None);
    assert_eq!(decode_reduced(b"nothing"), None);
}

#[test]
fn encoding_an_image_without_pixels_is_an_encode_failure() {
    let empty = Raster { width: 0, height: 0, pixels: Vec::new() };
    let error = encode_png(&empty).unwrap_err();
    assert_eq!(error.kind(), ErrorKind::EncodeFailure);
    assert!(error.message().starts_with("Failed to encode PNG: "));
    assert!(error.message().len() > "Failed to encode PNG: ".len());
    assert_eq!(error.status(), 500);
}

#[test]
fn encoded_png_begins_with_signature_and_size() {
    let raster = Raster { width: 300, height: 2, pixels: vec![5u8; 3 * 300 * 2] };
    let bytes = png_of(&raster);
    let expected: [u8; 26] = [
        137, 80, 78, 71, 13, 10, 26, 10, 0, 0, 0, 13, 73, 72, 68, 82, 0, 0, 1, 44, 0, 0, 0, 2, 8,
        2,
    ];
    assert_eq!(&bytes[..26], &expected[..]);
    let wide = Raster { width: 0x0001_0203, height: 1, pixels: vec![0u8; 3 * 0x0001_0203] };
    let bytes = png_of(&wide);
    assert_eq!(&bytes[16..24], &[0, 1, 2, 3, 0, 0, 0, 1]);
}

#[test]
fn encoding_wants_width_and_height() {
    for (width, height) in [(0u32, 0u32), (0, 4), (4, 0)] {
        let empty = Raster { width, height, pixels: Vec::new() };
        assert!(empty.is_well_formed());
        assert_eq!(encode_png(&empty).unwrap_err().kind(), ErrorKind::EncodeFailure);
    }
}

#[test]
fn a_raster_is_well_formed_with_three_bytes_a_pixel() {
    assert!(Raster { width: 2, height: 3, pixels: vec![0u8; 18] }.is_well_formed());
    assert!(!Raster { width: 2, height: 3, pixels: vec![0u8; 17] }.is_well_formed());
    assert!(!Raster { width: 2, height: 3, pixels: vec![0u8; 19] }.is_well_formed());
    assert!(!Raster { width: u32::MAX, height: u32::MAX, pixels: vec![0u8; 3] }.is_well_formed());
    assert!(Raster { width: 0, height: u32::MAX, pixels: Vec::new() }.is_well_formed());
}

#[test]
fn a_decoded_image_of_the_wrong_size_is_bad_input() {
    let short = Raster { width: 2, height: 2, pixels: vec![0u8; 11] };
    assert_eq!(
        accept_decoded(Ok(short)),
        Err(OcrError::BadInput(
            "Failed to decode image: pixel buffer does not match the image size".to_string()
        ))
    );
    assert_eq!(accept_decoded(Ok(board(2, 2))), Ok(board(2, 2)));
    assert_eq!(
        accept_decoded(Err("broken".to_string())),
        Err(OcrError::BadInput("Failed to decode image: broken".to_string()))
    );
}

#[test]
fn reduced_decoding_wants_the_signature_of_its_formats() {
    assert_eq!(decode_reduced(b""), None);
    assert_eq!(decode_reduced(b"GIF89a"), None);
    assert_eq!(decode_reduced(b"RIFF\x04\0\0\0WAVEfmt "), None);
    let mut png = png_of(&board(3, 3));
    png[0] = 0x88;
    assert_eq!(decode_reduced(&png), None);
    let mut cut = png_of(&board(3, 3));
    cut.truncate(30);
    assert_eq!(decode_reduced(&cut), None);
}

#[test]
fn conclude_of_an_answer_without_a_page_is_an_inference_failure() {
    let error = conclude(Outcome::Pages(Vec::new())).unwrap_err();
    assert_eq!(
        error,
        OcrError::InferenceFailure("OCR error: the engine returned no page".to_string())
    );
    assert_eq!(error.status(), 500);
}

#[test]
fn encoding_the_same_raster_gives_the_same_stream() {
    let first = png_of(&board(9, 7));
    let second = png_of(&board(9, 7));
    assert_eq!(first, second);
    assert!(first != png_of(&board(7, 9)));
}

#[test]
fn prepare_refuses_a_pdf_as_of_no_known_format() {
    let mut pdf = b"%PDF-1.7\n".to_vec();
    pdf.extend_from_slice(&png_of(&board(2, 2)));
    assert_eq!(
        prepare(Some(pdf)),
        Err(OcrError::BadInput(
            "Unsupported file type or PDF is not supported by Rust service yet".to_string()
        ))
    );
}
