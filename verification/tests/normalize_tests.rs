use ocr_service::json::Json;
use ocr_service::normalize::{normalize, normalize_region, Line, Point, PublicResult, TextRegion};
use ocr_service::number::Number;
use ocr_service::text::ocr2text;

fn single(value: f32) -> Number {
    Number::from_bits((value as f64).to_bits())
}

fn corner(x: f32, y: f32) -> Point {
    Point { x: single(x), y: single(y) }
}

fn quad(left: f32, top: f32, right: f32, bottom: f32) -> Vec<Point> {
    vec![corner(left, top), corner(right, top), corner(right, bottom), corner(left, bottom)]
}

fn region(text: Option<&str>, confidence: Option<f32>) -> TextRegion {
    TextRegion {
        bounding_box: quad(1.5, 2.0, 30.25, 12.0),
        text: text.map(|t| t.to_string()),
        confidence: confidence.map(single),
    }
}

fn wire_value(points: &[(f32, f32)], text: &str, score: f32) -> serde_json::Value {
    let polygon: Vec<serde_json::Value> = points
        .iter()
        .map(|(x, y)| {
            serde_json::Value::Array(vec![serde_json::Value::from(*x), serde_json::Value::from(*y)])
        })
        .collect();
    serde_json::Value::Array(vec![
        serde_json::Value::Array(polygon),
        serde_json::Value::Array(vec![
            serde_json::Value::from(text),
            serde_json::Value::from(score),
        ]),
    ])
}

#[test]
fn normalize_region_keeps_polygon_text_and_score() {
    let line = normalize_region(&region(Some("hello"), Some(0.75)));
    assert_eq!(
        line,
        Line { points: quad(1.5, 2.0, 30.25, 12.0), text: "hello".to_string(), score: single(0.75) }
    );
}

#[test]
fn normalize_region_fills_in_empty_text_and_zero_score() {
    let line = normalize_region(&region(None, None));
    assert_eq!(line.text, "");
    assert_eq!(line.score, Number::from_bits(0));
    assert_eq!(line.score.to_bits(), 0.0f64.to_bits());
    let line = normalize_region(&region(Some("t"), None));
    assert_eq!(line.text, "t");
    assert_eq!(line.score.to_bits(), 0);
    let line = normalize_region(&region(None, Some(0.5)));
    assert_eq!(line.text, "");
    assert_eq!(line.score, single(0.5));
}

#[test]
fn normalize_gives_one_page_with_a_line_for_each_region_in_order() {
    let regions = vec![
        region(Some("first"), Some(0.9)),
        region(None, None),
        region(Some("third"), Some(0.1)),
    ];
    let result = normalize(&regions);
    assert_eq!(result.pages.len(), 1);
    assert_eq!(result.pages[0].len(), 3);
    let texts: Vec<&str> = result.pages[0].iter().map(|line| line.text.as_str()).collect();
    assert_eq!(texts, vec!["first", "", "third"]);
    assert_eq!(result.pages[0][2].score, single(0.1));
}

#[test]
fn normalize_of_no_regions_is_one_empty_page() {
    let result = normalize(&vec![]);
    assert_eq!(result, PublicResult { pages: vec![vec![]] });
    assert_eq!(result.to_json(), Json::parse("{\"result\": [[]]}").unwrap());
}

#[test]
fn to_json_has_the_nesting_of_the_public_schema() {
    let regions = vec![TextRegion {
        bounding_box: vec![corner(1.0, 2.0), corner(3.0, 4.0)],
        text: Some("ab".to_string()),
        confidence: Some(single(0.5)),
    }];
    let json = normalize(&regions).to_json();
    let expected = Json::parse("{\"result\": [[ [ [[1.0, 2.0], [3.0, 4.0]], [\"ab\", 0.5] ] ]]}");
    assert_eq!(json, expected.unwrap());
}

#[test]
fn to_json_agrees_with_the_serializer_on_single_precision_values() {
    let points = [(0.3f32, 17.125f32), (1e-3f32, 1234.5678f32), (-0.0f32, 16777217.0f32)];
    let regions = vec![TextRegion {
        bounding_box: points.iter().map(|(x, y)| corner(*x, *y)).collect(),
        text: Some("größe \"quoted\"".to_string()),
        confidence: Some(single(0.987_654_3)),
    }];
    let line = wire_value(&points, "größe \"quoted\"", 0.987_654_3);
    let mut body = serde_json::Map::new();
    body.insert(
        "result".to_string(),
        serde_json::Value::Array(vec![serde_json::Value::Array(vec![line])]),
    );
    let text = serde_json::to_string(&serde_json::Value::Object(body)).unwrap();
    assert_eq!(normalize(&regions).to_json(), Json::parse(&text).unwrap());
}

#[test]
fn to_json_writes_null_for_what_is_not_finite() {
    let regions = vec![TextRegion {
        bounding_box: vec![Point {
            x: Number::from_bits(f64::NAN.to_bits()),
            y: Number::from_bits(f64::INFINITY.to_bits()),
        }],
        text: None,
        confidence: Some(Number::from_bits(f64::NEG_INFINITY.to_bits())),
    }];
    let json = normalize(&regions).to_json();
    assert_eq!(json, Json::parse("{\"result\": [[ [ [[null, null]], [\"\", null] ] ]]}").unwrap());
    assert_eq!(serde_json::Value::from(f32::NAN), serde_json::Value::Null);
}

#[test]
fn line_to_json_is_polygon_then_text_and_score() {
    let line = Line { points: vec![corner(7.0, 8.0)], text: "x".to_string(), score: single(1.0) };
    assert_eq!(line.to_json(), Json::parse("[[[7.0, 8.0]], [\"x\", 1.0]]").unwrap());
}

#[test]
fn round_trip_gives_the_recognized_texts_joined_by_newlines() {
    let regions = vec![
        region(Some("alpha"), Some(0.9)),
        region(Some("beta gamma"), Some(0.8)),
        region(Some("δ"), None),
    ];
    let body = normalize(&regions).to_json();
    assert_eq!(ocr2text(&body), Ok("alpha\nbeta gamma\nδ".to_string()));
}

#[test]
fn round_trip_through_the_wire_text() {
    let regions = vec![region(Some("one"), Some(0.5)), region(Some("two"), Some(0.25))];
    let line_one = wire_value(&[(1.5, 2.0), (30.25, 2.0), (30.25, 12.0), (1.5, 12.0)], "one", 0.5);
    let line_two = wire_value(&[(1.5, 2.0), (30.25, 2.0), (30.25, 12.0), (1.5, 12.0)], "two", 0.25);
    let mut body = serde_json::Map::new();
    body.insert(
        "result".to_string(),
        serde_json::Value::Array(vec![serde_json::Value::Array(vec![line_one, line_two])]),
    );
    let wire = serde_json::to_string(&serde_json::Value::Object(body)).unwrap();
    let parsed = Json::parse(&wire).unwrap();
    assert_eq!(parsed, normalize(&regions).to_json());
    assert_eq!(ocr2text(&parsed), Ok("one\ntwo".to_string()));
}

#[test]
fn round_trip_leaves_out_regions_without_legible_text() {
    let regions = vec![
        region(Some("kept"), Some(0.9)),
        region(None, Some(0.9)),
        region(Some("   "), Some(0.9)),
        region(Some(""), None),
        region(Some("also kept"), None),
    ];
    let body = normalize(&regions).to_json();
    assert_eq!(ocr2text(&body), Ok("kept\nalso kept".to_string()));
}

#[test]
fn round_trip_of_no_regions_is_the_empty_text() {
    assert_eq!(ocr2text(&normalize(&vec![]).to_json()), Ok(String::new()));
}
