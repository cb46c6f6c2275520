//! The rectangles of an overlay: for each line of a recognition result, the
//! axis-aligned envelope of its polygon.

use vstd::prelude::*;
use crate::json::{lemma_views_of, views_of, Json, JsonView};

verus! {

/// The least and greatest pixel coordinates of a polygon along both axes.
#[derive(Clone, Copy, Debug, PartialEq, Eq, Structural)]
pub struct Envelope {
    pub x_min: i32,
    pub y_min: i32,
    pub x_max: i32,
    pub y_max: i32,
}

/// The least of two coordinates.
pub open spec fn lesser(a: i32, b: i32) -> i32 {
    if a <= b {
        a
    } else {
        b
    }
}

/// The greater of two coordinates.
pub open spec fn greater(a: i32, b: i32) -> i32 {
    if a >= b {
        a
    } else {
        b
    }
}

/// The least of a non-empty sequence of coordinates.
pub open spec fn least(values: Seq<i32>) -> i32
    decreases values.len(),
{
    if values.len() <= 1 {
        values[0]
    } else {
        lesser(least(values.drop_last()), values.last())
    }
}

/// The greatest of a non-empty sequence of coordinates.
pub open spec fn greatest(values: Seq<i32>) -> i32
    decreases values.len(),
{
    if values.len() <= 1 {
        values[0]
    } else {
        greater(greatest(values.drop_last()), values.last())
    }
}

/// The pixel coordinate that a point `[x, y]` has along `axis` (0 for x, 1
/// for y): the number at that place, converted as a cast to `i32` converts.
/// A point that is no array, is too short, or holds no number there has none.
pub open spec fn coordinate(point: JsonView, axis: int) -> Option<i32> {
    match point.item(axis) {
        Some(value) => match value.number() {
            Some(n) => Some(n.truncated() as i32),
            None => None,
        },
        None => None,
    }
}

/// The coordinates along `axis` of the points that have one, in order.
pub open spec fn coordinates(points: Seq<JsonView>, axis: int) -> Seq<i32>
    decreases points.len(),
{
    if points.len() == 0 {
        Seq::empty()
    } else {
        let earlier = coordinates(points.drop_last(), axis);
        match coordinate(points.last(), axis) {
            Some(value) => earlier.push(value),
            None => earlier,
        }
    }
}

/// The envelope of the points of a polygon, where at least one point has an
/// x and at least one has a y.
pub open spec fn polygon_envelope(points: Seq<JsonView>) -> Option<Envelope> {
    let xs = coordinates(points, 0);
    let ys = coordinates(points, 1);
    if xs.len() > 0 && ys.len() > 0 {
        Some(
            Envelope {
                x_min: least(xs),
                y_min: least(ys),
                x_max: greatest(xs),
                y_max: greatest(ys),
            },
        )
    } else {
        None
    }
}

/// The envelope of a line `[points, ..]`: that of the polygon at `line[0]`.
pub open spec fn line_envelope(line: JsonView) -> Option<Envelope> {
    match line.item(0) {
        Some(polygon) => match polygon.items() {
            Some(points) => polygon_envelope(points),
            None => None,
        },
        None => None,
    }
}

/// The envelopes of the lines that have one, in the order of the lines.
pub open spec fn envelopes_of(lines: Seq<JsonView>) -> Seq<Envelope>
    decreases lines.len(),
{
    if lines.len() == 0 {
        Seq::empty()
    } else {
        let earlier = envelopes_of(lines.drop_last());
        match line_envelope(lines.last()) {
            Some(envelope) => earlier.push(envelope),
            None => earlier,
        }
    }
}

/// The line list that an overlay is drawn for.
///
/// The document is `{"result": r}`. Where `r` is a non-empty array, the line
/// list is its first element, else `r` itself; what is no array holds no
/// lines, and neither does a document without `result`.
pub open spec fn overlay_lines(document: JsonView) -> Seq<JsonView> {
    match document.member("result"@) {
        Some(result) => {
            let page = match result.item(0) {
                Some(first) => first,
                None => result,
            };
            match page.items() {
                Some(lines) => lines,
                None => Seq::empty(),
            }
        },
        None => Seq::empty(),
    }
}

/// The envelopes that an overlay is drawn for.
pub open spec fn overlay_envelopes(document: JsonView) -> Seq<Envelope> {
    envelopes_of(overlay_lines(document))
}

/// The pixel coordinate of a point along `axis`.
fn point_coordinate(point: &Json, axis: usize) -> (r: Option<i32>)
    ensures
        r == coordinate(point@, axis as int),
{
    match point.at(axis) {
        Some(value) => match value.as_number() {
            Some(n) => Some(n.to_i32()),
            None => None,
        },
        None => None,
    }
}

/// The least and the greatest coordinate along `axis` of the points that
/// have one.
fn axis_range(points: &Vec<Json>, axis: usize) -> (r: Option<(i32, i32)>)
    ensures
        match r {
            Some((low, high)) => {
                let values = coordinates(views_of(points@), axis as int);
                values.len() > 0 && low == least(values) && high == greatest(values)
            },
            None => coordinates(views_of(points@), axis as int).len() == 0,
        },
{
    let ghost views = views_of(points@);
    proof {
        lemma_views_of(points@);
        assert(views.take(0) =~= Seq::empty());
    }
    let mut range: Option<(i32, i32)> = None;
    let mut i: usize = 0;
    while i < points.len()
        invariant
            i <= points.len(),
            views == views_of(points@),
            views.len() == points.len(),
            forall|j: int| 0 <= j < points.len() ==> (#[trigger] views[j]) == points[j]@,
            match range {
                Some((low, high)) => {
                    let values = coordinates(views.take(i as int), axis as int);
                    values.len() > 0 && low == least(values) && high == greatest(values)
                },
                None => coordinates(views.take(i as int), axis as int).len() == 0,
            },
        decreases points.len() - i,
    {
        proof {
            assert(views.take(i + 1).drop_last() =~= views.take(i as int));
            assert(views.take(i + 1).last() == views[i as int]);
        }
        let ghost earlier = coordinates(views.take(i as int), axis as int);
        match point_coordinate(&points[i], axis) {
            Some(value) => {
                proof {
                    assert(earlier.push(value).drop_last() =~= earlier);
                }
                range = match range {
                    Some((low, high)) => Some(
                        (
                            if value < low {
                                value
                            } else {
                                low
                            },
                            if value > high {
                                value
                            } else {
                                high
                            },
                        ),
                    ),
                    None => Some((value, value)),
                };
            },
            None => {},
        }
        i += 1;
    }
    proof {
        assert(views.take(points.len() as int) =~= views);
    }
    range
}

/// The envelope of a line of a recognition result.
pub fn envelope_of_line(line: &Json) -> (r: Option<Envelope>)
    ensures
        r == line_envelope(line@),
{
    match line.at(0) {
        Some(polygon) => match polygon.as_array() {
            Some(points) => {
                match axis_range(points, 0) {
                    Some((x_min, x_max)) => match axis_range(points, 1) {
                        Some((y_min, y_max)) => Some(Envelope { x_min, y_min, x_max, y_max }),
                        None => None,
                    },
                    None => None,
                }
            },
            None => None,
        },
        None => None,
    }
}

/// The envelopes that an overlay is drawn for, in the order of the lines.
///
/// Every line counts, whatever its score.
pub fn envelopes(document: &Json) -> (r: Vec<Envelope>)
    ensures
        r@ == overlay_envelopes(document@),
{
    let mut found: Vec<Envelope> = Vec::new();
    let result = match document.get("result") {
        Some(result) => result,
        None => {
            return found;
        },
    };
    let page = match result.at(0) {
        Some(first) => first,
        None => result,
    };
    let lines = match page.as_array() {
        Some(lines) => lines,
        None => {
            return found;
        },
    };
    let ghost views = views_of(lines@);
    proof {
        lemma_views_of(lines@);
        assert(views.take(0) =~= Seq::empty());
    }
    let mut i: usize = 0;
    while i < lines.len()
        invariant
            i <= lines.len(),
            views == views_of(lines@),
            views.len() == lines.len(),
            forall|j: int| 0 <= j < lines.len() ==> (#[trigger] views[j]) == lines[j]@,
            found@ == envelopes_of(views.take(i as int)),
        decreases lines.len() - i,
    {
        proof {
            assert(views.take(i + 1).drop_last() =~= views.take(i as int));
            assert(views.take(i + 1).last() == views[i as int]);
        }
        match envelope_of_line(&lines[i]) {
            Some(envelope) => {
                found.push(envelope);
            },
            None => {},
        }
        i += 1;
    }
    proof {
        assert(views.take(lines.len() as int) =~= views);
    }
    found
}

} // verus!
