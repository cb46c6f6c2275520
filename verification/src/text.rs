//! The text extractor: the plain text of a recognition result.

use vstd::prelude::*;
use vstd::string::*;
use crate::error::{failure, is_client_status, status_of, ErrorKind, OcrError};
use crate::json::{views_of, Json, JsonView};

verus! {

/// Whether `c` has the Unicode property White_Space.
pub open spec fn is_white_space(c: char) -> bool {
    let code = c as u32;
    ||| 0x09 <= code <= 0x0d
    ||| code == 0x20
    ||| code == 0x85
    ||| code == 0xa0
    ||| code == 0x1680
    ||| 0x2000 <= code <= 0x200a
    ||| code == 0x2028
    ||| code == 0x2029
    ||| code == 0x202f
    ||| code == 0x205f
    ||| code == 0x3000
}

/// Whether a text is empty once leading and trailing white space is cut off,
/// that is, whether it holds white space only.
pub open spec fn is_blank(text: Seq<char>) -> bool {
    forall|i: int| 0 <= i < text.len() ==> is_white_space(#[trigger] text[i])
}

/// Tells whether `c` has the Unicode property White_Space.
pub fn white_space(c: char) -> (r: bool)
    ensures
        r == is_white_space(c),
{
    let code: u32 = c as u32;
    (0x09 <= code && code <= 0x0d) || code == 0x20 || code == 0x85 || code == 0xa0 || code
        == 0x1680 || (0x2000 <= code && code <= 0x200a) || code == 0x2028 || code == 0x2029
        || code == 0x202f || code == 0x205f || code == 0x3000
}

/// Tells whether a text holds white space only.
pub fn blank(text: &str) -> (r: bool)
    ensures
        r == is_blank(text@),
{
    let mut all: bool = true;
    for c in it: text.chars()
        invariant
            it.seq() == text@,
            all == (forall|i: int| 0 <= i < it.index() ==> is_white_space(#[trigger] text@[i])),
    {
        if !white_space(c) {
            all = false;
        }
    }
    all
}

} // verus!

verus! {

/// The views of a sequence of strings, in order.
pub open spec fn line_views(lines: Seq<String>) -> Seq<Seq<char>> {
    Seq::new(lines.len(), |i: int| lines[i]@)
}

/// The text of a line `[box, [text, score]]`: the string at `line[1][0]`.
pub open spec fn line_text(line: JsonView) -> Option<Seq<char>> {
    match line.item(1) {
        Some(pair) => match pair.item(0) {
            Some(first) => first.text(),
            None => None,
        },
        None => None,
    }
}

/// The text that a line contributes: its text, unless that is blank.
pub open spec fn kept_text(line: JsonView) -> Option<Seq<char>> {
    match line_text(line) {
        Some(text) => if is_blank(text) {
            None
        } else {
            Some(text)
        },
        None => None,
    }
}

/// The texts that the lines of one page contribute, in the order of the lines.
pub open spec fn page_texts(lines: Seq<JsonView>) -> Seq<Seq<char>>
    decreases lines.len(),
{
    if lines.len() == 0 {
        Seq::empty()
    } else {
        let earlier = page_texts(lines.drop_last());
        match kept_text(lines.last()) {
            Some(text) => earlier.push(text),
            None => earlier,
        }
    }
}

/// The line list of a single-page result `[lines]`: its first element, where
/// that is an array.
pub open spec fn page_lines(result: JsonView) -> Option<Seq<JsonView>> {
    match result.item(0) {
        Some(first) => first.items(),
        None => None,
    }
}

/// The texts of a single-page result; none where it has no line list.
pub open spec fn single_page_texts(result: JsonView) -> Seq<Seq<char>> {
    match page_lines(result) {
        Some(lines) => page_texts(lines),
        None => Seq::empty(),
    }
}

/// The texts of one entry `{"page": .., "result": [lines]}` of a multi-page
/// result; none where the entry has no such `result`.
pub open spec fn page_entry_texts(entry: JsonView) -> Seq<Seq<char>> {
    match entry.member("result"@) {
        Some(result) => single_page_texts(result),
        None => Seq::empty(),
    }
}

/// The texts of the entries of a multi-page result, page after page.
pub open spec fn multi_page_texts(entries: Seq<JsonView>) -> Seq<Seq<char>>
    decreases entries.len(),
{
    if entries.len() == 0 {
        Seq::empty()
    } else {
        multi_page_texts(entries.drop_last()) + page_entry_texts(entries.last())
    }
}

/// Whether a result is the multi-page variant: an array whose first element
/// is an object with a member `page`.
pub open spec fn is_multi_page(result: JsonView) -> bool {
    match result.item(0) {
        Some(first) => first.member("page"@) is Some,
        None => false,
    }
}

/// The texts of a result in either variant, in the order encountered.
pub open spec fn result_texts(result: JsonView) -> Seq<Seq<char>> {
    if is_multi_page(result) {
        multi_page_texts(result->Array_0)
    } else {
        single_page_texts(result)
    }
}

/// The lines joined by a newline between each two.
pub open spec fn join_lines(lines: Seq<Seq<char>>) -> Seq<char>
    decreases lines.len(),
{
    if lines.len() == 0 {
        Seq::empty()
    } else if lines.len() == 1 {
        lines[0]
    } else {
        join_lines(lines.drop_last()) + seq!['\n'] + lines.last()
    }
}

/// The plain text of a request body `{"result": ..}`; nothing where the body
/// has no member `result`.
pub open spec fn extracted_text(body: JsonView) -> Option<Seq<char>> {
    match body.member("result"@) {
        Some(result) => Some(join_lines(result_texts(result))),
        None => None,
    }
}

/// The message sent when a body has no member `result`.
pub open spec fn invalid_result_text() -> Seq<char> {
    "Invalid OCR result format"@
}

/// The string at `line[1][0]`.
fn text_of_line(line: &Json) -> (r: Option<&str>)
    ensures
        match r {
            Some(text) => line_text(line@) == Some(text@),
            None => line_text(line@) is None,
        },
{
    match line.at(1) {
        Some(pair) => match pair.at(0) {
            Some(first) => first.as_str(),
            None => None,
        },
        None => None,
    }
}

/// Appends to `out` the texts that the lines of one page contribute.
fn collect_lines(lines: &Vec<Json>, out: &mut Vec<String>)
    ensures
        line_views(final(out)@) == line_views(old(out)@) + page_texts(views_of(lines@)),
{
    let ghost views = views_of(lines@);
    let ghost before = line_views(out@);
    proof {
        crate::json::lemma_views_of(lines@);
        assert(views.take(0) =~= Seq::empty());
        assert(before + page_texts(views.take(0)) =~= before);
    }
    let mut i: usize = 0;
    while i < lines.len()
        invariant
            i <= lines.len(),
            views == views_of(lines@),
            views.len() == lines.len(),
            forall|j: int| 0 <= j < lines.len() ==> (#[trigger] views[j]) == lines[j]@,
            line_views(out@) == before + page_texts(views.take(i as int)),
        decreases lines.len() - i,
    {
        let ghost so_far = line_views(out@);
        proof {
            assert(views.take(i + 1).drop_last() =~= views.take(i as int));
            assert(views.take(i + 1).last() == views[i as int]);
        }
        match text_of_line(&lines[i]) {
            Some(text) => {
                if !blank(text) {
                    out.push(String::from_str(text));
                    proof {
                        assert(line_views(out@) =~= so_far.push(text@));
                        assert(so_far.push(text@) =~= before + page_texts(views.take(i + 1)));
                    }
                }
            },
            None => {},
        }
        i += 1;
    }
    proof {
        assert(views.take(lines.len() as int) =~= views);
    }
}

/// Appends to `out` the texts of a single-page result.
fn collect_single_page(result: &Json, out: &mut Vec<String>)
    ensures
        line_views(final(out)@) == line_views(old(out)@) + single_page_texts(result@),
{
    let ghost before = line_views(out@);
    match result.at(0) {
        Some(first) => match first.as_array() {
            Some(lines) => {
                collect_lines(lines, out);
                return ;
            },
            None => {},
        },
        None => {},
    }
    proof {
        assert(before + single_page_texts(result@) =~= before);
    }
}

/// Joins the lines with a newline between each two.
pub fn join_with_newlines(lines: &Vec<String>) -> (text: String)
    ensures
        text@ == join_lines(line_views(lines@)),
{
    let ghost views = line_views(lines@);
    let mut text = String::new();
    let mut i: usize = 0;
    proof {
        assert(views.take(0) =~= Seq::empty());
    }
    while i < lines.len()
        invariant
            i <= lines.len(),
            views == line_views(lines@),
            text@ == join_lines(views.take(i as int)),
        decreases lines.len() - i,
    {
        proof {
            reveal_strlit("\n");
            assert(views.take(i + 1).drop_last() =~= views.take(i as int));
            assert(views.take(i + 1).last() == lines[i as int]@);
            assert("\n"@ =~= seq!['\n']);
        }
        if i > 0 {
            text.append("\n");
        }
        text.append(lines[i].as_str());
        proof {
            if i == 0 {
                assert(text@ =~= lines[0]@);
                assert(views.take(1)[0] == lines[0]@);
            }
        }
        i += 1;
    }
    proof {
        assert(views.take(lines.len() as int) =~= views);
    }
    text
}

/// Derives the plain text of a recognition result.
///
/// The body is `{"result": r}`, where `r` is a single page `[lines]` or a list
/// of entries `{"page": .., "result": [lines]}`. The text of each line is the
/// string at `line[1][0]`; lines without one, or with a blank one, are passed
/// over, and so are pages without a line list. The texts are joined by
/// newlines in the order encountered.
pub fn ocr2text(body: &Json) -> (r: Result<String, OcrError>)
    ensures
        match extracted_text(body@) {
            Some(text) => r matches Ok(s) && s@ == text,
            None => r matches Err(e) && e@ == failure(
                ErrorKind::InvalidResultFormat,
                invalid_result_text(),
            ),
        },
{
    let result = match body.get("result") {
        Some(result) => result,
        None => {
            return Err(OcrError::InvalidResultFormat(String::from_str("Invalid OCR result format")));
        },
    };
    let mut lines: Vec<String> = Vec::new();
    proof {
        assert(line_views(lines@) =~= Seq::empty());
    }
    let multi_page = match result.at(0) {
        Some(first) => first.get("page").is_some(),
        None => false,
    };
    if multi_page {
        match result.as_array() {
            Some(entries) => {
                let ghost views = views_of(entries@);
                proof {
                    crate::json::lemma_views_of(entries@);
                    assert(views.take(0) =~= Seq::empty());
                }
                let mut i: usize = 0;
                while i < entries.len()
                    invariant
                        i <= entries.len(),
                        views == views_of(entries@),
                        views.len() == entries.len(),
                        forall|j: int| 0 <= j < entries.len() ==> (#[trigger] views[j]) == entries[j]@,
                        line_views(lines@) == multi_page_texts(views.take(i as int)),
                    decreases entries.len() - i,
                {
                    proof {
                        assert(views.take(i + 1).drop_last() =~= views.take(i as int));
                        assert(views.take(i + 1).last() == views[i as int]);
                    }
                    let ghost so_far = line_views(lines@);
                    match entries[i].get("result") {
                        Some(page_result) => {
                            collect_single_page(page_result, &mut lines);
                        },
                        None => {
                            proof {
                                assert(so_far + page_entry_texts(views[i as int]) =~= so_far);
                            }
                        },
                    }
                    i += 1;
                }
                proof {
                    assert(views.take(entries.len() as int) =~= views);
                }
            },
            None => {},
        }
    } else {
        collect_single_page(result, &mut lines);
        proof {
            assert(Seq::<Seq<char>>::empty() + single_page_texts(result@) =~= single_page_texts(
                result@,
            ));
        }
    }
    Ok(join_with_newlines(&lines))
}

/// A body without a member `result` has no text to extract, and the failure
/// it ends in is reported as a fault of the client.
pub proof fn lemma_missing_result_is_client_error(body: JsonView)
    requires
        body.member("result"@) is None,
    ensures
        extracted_text(body) is None,
        is_client_status(status_of(ErrorKind::InvalidResultFormat)),
{
}

/// A result without any line gives the empty text, which is no failure.
pub proof fn lemma_no_lines_empty_text(body: JsonView)
    requires
        body.member("result"@) matches Some(result) && result_texts(result).len() == 0,
    ensures
        extracted_text(body) == Some(Seq::<char>::empty()),
{
}

} // verus!
