//! The result normalizer: from the regions an engine reports to the public
//! result schema, and from there to the JSON that goes on the wire.

use vstd::prelude::*;
use vstd::string::*;
use crate::json::{lemma_member_views_of, lemma_views_of, views_of, Json, JsonView};
use crate::number::Number;
use crate::text::{
    extracted_text, is_blank, is_multi_page, join_lines, line_text, page_lines, page_texts,
    result_texts,
};

verus! {

/// A corner of a polygon, in image coordinates.
#[derive(Clone, Copy, Debug, PartialEq, Eq, Structural)]
pub struct Point {
    pub x: Number,
    pub y: Number,
}

/// A region of text as the engine reports it: the polygon around it and,
/// where recognition gave them, its text and the confidence in it.
#[derive(Debug, PartialEq, Eq)]
pub struct TextRegion {
    pub bounding_box: Vec<Point>,
    pub text: Option<String>,
    pub confidence: Option<Number>,
}

/// A line of the public result: a polygon with a text and a score.
#[derive(Debug, PartialEq, Eq)]
pub struct Line {
    pub points: Vec<Point>,
    pub text: String,
    pub score: Number,
}

/// The public result: pages of lines.
#[derive(Debug, PartialEq, Eq)]
pub struct PublicResult {
    pub pages: Vec<Vec<Line>>,
}

/// The mathematical content of a [`TextRegion`].
pub struct RegionView {
    pub points: Seq<Point>,
    pub text: Option<Seq<char>>,
    pub confidence: Option<Number>,
}

/// The mathematical content of a [`Line`].
pub struct LineView {
    pub points: Seq<Point>,
    pub text: Seq<char>,
    pub score: Number,
}

impl View for TextRegion {
    type V = RegionView;

    open spec fn view(&self) -> RegionView {
        RegionView {
            points: self.bounding_box@,
            text: match self.text {
                Some(text) => Some(text@),
                None => None,
            },
            confidence: self.confidence,
        }
    }
}

impl View for Line {
    type V = LineView;

    open spec fn view(&self) -> LineView {
        LineView { points: self.points@, text: self.text@, score: self.score }
    }
}

/// The views of a sequence of regions, in order.
pub open spec fn region_views(regions: Seq<TextRegion>) -> Seq<RegionView> {
    Seq::new(regions.len(), |i: int| regions[i]@)
}

/// The views of the lines of a page, in order.
pub open spec fn page_view(lines: Seq<Line>) -> Seq<LineView> {
    Seq::new(lines.len(), |i: int| lines[i]@)
}

impl View for PublicResult {
    type V = Seq<Seq<LineView>>;

    open spec fn view(&self) -> Seq<Seq<LineView>> {
        Seq::new(self.pages@.len(), |i: int| page_view(self.pages@[i]@))
    }
}

/// The line that stands for a region: its polygon, its text or the empty
/// string, its confidence or zero.
pub open spec fn normalized_line(region: RegionView) -> LineView {
    LineView {
        points: region.points,
        text: match region.text {
            Some(text) => text,
            None => Seq::empty(),
        },
        score: match region.confidence {
            Some(score) => score,
            None => Number { bits: 0 },
        },
    }
}

/// The page that stands for the regions of one image: a line for each region,
/// in the order of the regions.
pub open spec fn normalized_page(regions: Seq<RegionView>) -> Seq<LineView> {
    Seq::new(regions.len(), |i: int| normalized_line(regions[i]))
}

/// The public result for the regions of one image: exactly one page.
pub open spec fn normalized(regions: Seq<RegionView>) -> Seq<Seq<LineView>> {
    seq![normalized_page(regions)]
}

/// A number on the wire: itself, or `null` where it is not finite.
pub open spec fn number_json(n: Number) -> JsonView {
    if n.finite() {
        JsonView::Number(n)
    } else {
        JsonView::Null
    }
}

/// A point on the wire: `[x, y]`.
pub open spec fn point_json(point: Point) -> JsonView {
    JsonView::Array(seq![number_json(point.x), number_json(point.y)])
}

/// A polygon on the wire: the list of its points.
pub open spec fn polygon_json(points: Seq<Point>) -> JsonView {
    JsonView::Array(Seq::new(points.len(), |i: int| point_json(points[i])))
}

/// A line on the wire: `[points, [text, score]]`.
pub open spec fn line_json(line: LineView) -> JsonView {
    JsonView::Array(
        seq![
            polygon_json(line.points),
            JsonView::Array(seq![JsonView::Str(line.text), number_json(line.score)]),
        ],
    )
}

/// A page on the wire: the list of its lines.
pub open spec fn page_json(lines: Seq<LineView>) -> JsonView {
    JsonView::Array(Seq::new(lines.len(), |i: int| line_json(lines[i])))
}

/// A result on the wire: the list of its pages.
pub open spec fn result_json(pages: Seq<Seq<LineView>>) -> JsonView {
    JsonView::Array(Seq::new(pages.len(), |i: int| page_json(pages[i])))
}

/// The body of a successful recognition: `{"result": pages}`.
pub open spec fn response_json(pages: Seq<Seq<LineView>>) -> JsonView {
    JsonView::Object(seq![("result"@, result_json(pages))])
}

/// Copies the points of a polygon.
fn copy_points(points: &Vec<Point>) -> (copy: Vec<Point>)
    ensures
        copy@ == points@,
{
    let mut copy: Vec<Point> = Vec::new();
    let mut i: usize = 0;
    while i < points.len()
        invariant
            i <= points.len(),
            copy@ == points@.take(i as int),
        decreases points.len() - i,
    {
        copy.push(points[i]);
        proof {
            assert(copy@ =~= points@.take(i + 1));
        }
        i += 1;
    }
    proof {
        assert(points@.take(points.len() as int) =~= points@);
    }
    copy
}

/// The line that stands for a region.
pub fn normalize_region(region: &TextRegion) -> (line: Line)
    ensures
        line@ == normalized_line(region@),
{
    let text = match &region.text {
        Some(text) => text.clone(),
        None => String::new(),
    };
    let score = match region.confidence {
        Some(score) => score,
        None => Number::zero(),
    };
    Line { points: copy_points(&region.bounding_box), text, score }
}

/// Turns the regions that the engine reports for one image into the public
/// result: one page, which holds one line for each region, in the order in
/// which the engine reported them.
pub fn normalize(regions: &Vec<TextRegion>) -> (result: PublicResult)
    ensures
        result@ == normalized(region_views(regions@)),
        result@.len() == 1,
        result@[0].len() == regions.len(),
{
    let ghost views = region_views(regions@);
    let mut lines: Vec<Line> = Vec::new();
    let mut i: usize = 0;
    while i < regions.len()
        invariant
            i <= regions.len(),
            lines.len() == i,
            forall|j: int| 0 <= j < i ==> (#[trigger] lines[j])@ == normalized_line(regions[j]@),
        decreases regions.len() - i,
    {
        let line = normalize_region(&regions[i]);
        lines.push(line);
        i += 1;
    }
    proof {
        assert(page_view(lines@) =~= normalized_page(views));
    }
    let mut pages: Vec<Vec<Line>> = Vec::new();
    pages.push(lines);
    let result = PublicResult { pages };
    proof {
        assert(result@ =~= normalized(views));
    }
    result
}

/// A number as JSON.
fn number_to_json(n: Number) -> (json: Json)
    ensures
        json@ == number_json(n),
{
    if n.is_finite() {
        Json::Number(n)
    } else {
        Json::Null
    }
}

/// A point as JSON.
fn point_to_json(point: Point) -> (json: Json)
    ensures
        json@ == point_json(point),
{
    let mut pair: Vec<Json> = Vec::new();
    pair.push(number_to_json(point.x));
    pair.push(number_to_json(point.y));
    proof {
        lemma_views_of(pair@);
        assert(views_of(pair@) =~= seq![number_json(point.x), number_json(point.y)]);
    }
    Json::Array(pair)
}

/// A polygon as JSON.
fn polygon_to_json(points: &Vec<Point>) -> (json: Json)
    ensures
        json@ == polygon_json(points@),
{
    let mut items: Vec<Json> = Vec::new();
    let mut i: usize = 0;
    while i < points.len()
        invariant
            i <= points.len(),
            items.len() == i,
            forall|j: int| 0 <= j < i ==> (#[trigger] items[j])@ == point_json(points[j]),
        decreases points.len() - i,
    {
        items.push(point_to_json(points[i]));
        i += 1;
    }
    proof {
        lemma_views_of(items@);
        assert(views_of(items@) =~= Seq::new(points@.len(), |i: int| point_json(points@[i])));
    }
    Json::Array(items)
}

impl Line {
    /// The line as JSON: `[points, [text, score]]`.
    pub fn to_json(&self) -> (json: Json)
        ensures
            json@ == line_json(self@),
    {
        let mut label: Vec<Json> = Vec::new();
        label.push(Json::Str(self.text.clone()));
        label.push(number_to_json(self.score));
        proof {
            lemma_views_of(label@);
            assert(views_of(label@) =~= seq![JsonView::Str(self.text@), number_json(self.score)]);
        }
        let mut parts: Vec<Json> = Vec::new();
        parts.push(polygon_to_json(&self.points));
        parts.push(Json::Array(label));
        proof {
            lemma_views_of(parts@);
            assert(views_of(parts@) =~= seq![
                polygon_json(self.points@),
                JsonView::Array(seq![JsonView::Str(self.text@), number_json(self.score)]),
            ]);
        }
        Json::Array(parts)
    }
}

/// A page as JSON.
fn page_to_json(lines: &Vec<Line>) -> (json: Json)
    ensures
        json@ == page_json(page_view(lines@)),
{
    let mut items: Vec<Json> = Vec::new();
    let mut i: usize = 0;
    while i < lines.len()
        invariant
            i <= lines.len(),
            items.len() == i,
            forall|j: int| 0 <= j < i ==> (#[trigger] items[j])@ == line_json(lines[j]@),
        decreases lines.len() - i,
    {
        items.push(lines[i].to_json());
        i += 1;
    }
    proof {
        lemma_views_of(items@);
        let page = page_view(lines@);
        assert(views_of(items@) =~= Seq::new(page.len(), |i: int| line_json(page[i])));
    }
    Json::Array(items)
}

impl PublicResult {
    /// The result as the body of a successful recognition:
    /// `{"result": [[ [points, [text, score]], .. ]]}`.
    pub fn to_json(&self) -> (json: Json)
        ensures
            json@ == response_json(self@),
    {
        let mut items: Vec<Json> = Vec::new();
        let mut i: usize = 0;
        while i < self.pages.len()
            invariant
                i <= self.pages.len(),
                items.len() == i,
                forall|j: int|
                    0 <= j < i ==> (#[trigger] items[j])@ == page_json(page_view(self.pages[j]@)),
            decreases self.pages.len() - i,
        {
            items.push(page_to_json(&self.pages[i]));
            i += 1;
        }
        let mut members: Vec<(String, Json)> = Vec::new();
        proof {
            lemma_views_of(items@);
            let pages = self@;
            assert(views_of(items@) =~= Seq::new(pages.len(), |i: int| page_json(pages[i])));
        }
        members.push((String::from_str("result"), Json::Array(items)));
        proof {
            lemma_member_views_of(members@);
            assert(crate::json::member_views_of(members@) =~= seq![
                ("result"@, result_json(self@)),
            ]);
        }
        Json::Object(members)
    }
}

/// The texts that recognition gave, in the order of the regions.
pub open spec fn recognized_texts(regions: Seq<RegionView>) -> Seq<Seq<char>>
    decreases regions.len(),
{
    if regions.len() == 0 {
        Seq::empty()
    } else {
        let earlier = recognized_texts(regions.drop_last());
        match regions.last().text {
            Some(text) => earlier.push(text),
            None => earlier,
        }
    }
}

/// The texts that recognition gave and that are not blank, in the order of
/// the regions.
pub open spec fn legible_texts(regions: Seq<RegionView>) -> Seq<Seq<char>>
    decreases regions.len(),
{
    if regions.len() == 0 {
        Seq::empty()
    } else {
        let earlier = legible_texts(regions.drop_last());
        match regions.last().text {
            Some(text) => if is_blank(text) {
                earlier
            } else {
                earlier.push(text)
            },
            None => earlier,
        }
    }
}

/// Whether every text that recognition gave has a character that is not
/// white space.
pub open spec fn all_legible(regions: Seq<RegionView>) -> bool {
    forall|i: int|
        0 <= i < regions.len() ==> match (#[trigger] regions[i]).text {
            Some(text) => !is_blank(text),
            None => true,
        }
}

/// The lines of a normalized page, read back from the wire, contribute the
/// legible texts of the regions.
proof fn lemma_page_texts_of_normalized(regions: Seq<RegionView>)
    ensures
        page_texts(page_json(normalized_page(regions))->Array_0) == legible_texts(regions),
    decreases regions.len(),
{
    let lines = page_json(normalized_page(regions))->Array_0;
    if regions.len() > 0 {
        let shorter = regions.drop_last();
        lemma_page_texts_of_normalized(shorter);
        assert(lines.drop_last() =~= page_json(normalized_page(shorter))->Array_0);
        let line = normalized_line(regions.last());
        assert(lines.last() == line_json(line));
        assert(line_json(line).item(1) == Some(
            JsonView::Array(seq![JsonView::Str(line.text), number_json(line.score)]),
        ));
        assert(line_text(lines.last()) == Some(line.text));
    }
}

/// Where every recognized text is legible, the legible texts are all the
/// recognized texts.
proof fn lemma_legible_is_recognized(regions: Seq<RegionView>)
    requires
        all_legible(regions),
    ensures
        legible_texts(regions) == recognized_texts(regions),
    decreases regions.len(),
{
    if regions.len() > 0 {
        let shorter = regions.drop_last();
        assert forall|i: int| 0 <= i < shorter.len() implies match (#[trigger] shorter[i]).text {
            Some(text) => !is_blank(text),
            None => true,
        } by {
            assert(shorter[i] == regions[i]);
        }
        lemma_legible_is_recognized(shorter);
        assert(regions.last() == regions[regions.len() - 1]);
    }
}

/// The text extracted from the body of a recognition is the legible texts of
/// the regions, joined by newlines in the order of the regions.
pub proof fn lemma_round_trip_legible(regions: Seq<RegionView>)
    ensures
        extracted_text(response_json(normalized(regions))) == Some(
            join_lines(legible_texts(regions)),
        ),
{
    let pages = normalized(regions);
    let result = result_json(pages);
    let body = response_json(pages);
    assert(body.member("result"@) == Some(result));
    assert(result.item(0) == Some(page_json(normalized_page(regions))));
    assert(!is_multi_page(result));
    assert(page_lines(result) == Some(page_json(normalized_page(regions))->Array_0));
    lemma_page_texts_of_normalized(regions);
    assert(result_texts(result) == legible_texts(regions));
}

/// Round trip: where every recognized text is legible, the text extracted
/// from the body of a recognition is exactly the recognized texts, joined by
/// newlines in the order of the regions.
pub proof fn lemma_round_trip(regions: Seq<RegionView>)
    requires
        all_legible(regions),
    ensures
        extracted_text(response_json(normalized(regions))) == Some(
            join_lines(recognized_texts(regions)),
        ),
{
    lemma_round_trip_legible(regions);
    lemma_legible_is_recognized(regions);
}

} // verus!
