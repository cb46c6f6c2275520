//! The fields of the multipart forms that carry a request.

use vstd::prelude::*;
use vstd::string::*;
use vstd::utf8::{decode_utf8, valid_utf8};
use crate::number::Number;

verus! {

/// The default detection threshold, 0.3 in single precision.
pub const DEFAULT_DET_DB_THRESH: u64 = 0x3fd3_3333_4000_0000;

/// The default classification threshold, 0.9 in single precision.
pub const DEFAULT_CLS_THRESH: u64 = 0x3fec_cccc_c000_0000;

/// The default drop score, 0.5.
pub const DEFAULT_DROP_SCORE: u64 = 0x3fe0_0000_0000_0000;

/// Calls `std::str::from_utf8`: the bytes as text, where they are valid
/// UTF-8.
#[verifier::external_body]
fn utf8_text(bytes: &[u8]) -> (r: Option<&str>)
    ensures
        r is Some <==> valid_utf8(bytes@),
        r matches Some(text) ==> text@ == decode_utf8(bytes@),
{
    std::str::from_utf8(bytes).ok()
}

/// Tells whether two texts are the same.
pub fn same_text(a: &str, b: &str) -> (same: bool)
    ensures
        same == (a@ == b@),
{
    String::from_str(a) == String::from_str(b)
}

/// The text that a field's data spells, where it is valid UTF-8.
pub open spec fn text_of(data: Seq<u8>) -> Option<Seq<char>> {
    if valid_utf8(data) {
        Some(decode_utf8(data))
    } else {
        None
    }
}

/// The flag that a text spells: `true` or `false`, and nothing else.
pub open spec fn flag_of(text: Seq<char>) -> Option<bool> {
    if text == "true"@ {
        Some(true)
    } else if text == "false"@ {
        Some(false)
    } else {
        None
    }
}

/// The flag that a field's data spells.
pub open spec fn flag_of_data(data: Seq<u8>) -> Option<bool> {
    match text_of(data) {
        Some(text) => flag_of(text),
        None => None,
    }
}

/// Reads a flag: `true` or `false`, and nothing else.
pub fn parse_flag(text: &str) -> (r: Option<bool>)
    ensures
        r == flag_of(text@),
{
    if same_text(text, "true") {
        Some(true)
    } else if same_text(text, "false") {
        Some(false)
    } else {
        None
    }
}

/// The text of a field, where its data is valid UTF-8.
pub fn field_text(data: &[u8]) -> (r: Option<String>)
    ensures
        match r {
            Some(text) => text_of(data@) == Some(text@),
            None => text_of(data@) is None,
        },
{
    match utf8_text(data) {
        Some(text) => Some(String::from_str(text)),
        None => None,
    }
}

/// The form of a recognition request.
#[derive(Debug, PartialEq, Eq)]
pub struct RecognizeForm {
    /// The uploaded image.
    pub file: Option<Vec<u8>>,
    /// The detection threshold.
    pub det_db_thresh: Number,
    /// The classification threshold.
    pub cls_thresh: Number,
    /// Whether the orientation classifier is used.
    pub use_cls: bool,
}

/// The mathematical content of a [`RecognizeForm`].
pub struct RecognizeFormView {
    pub file: Option<Seq<u8>>,
    pub det_db_thresh: Number,
    pub cls_thresh: Number,
    pub use_cls: bool,
}

impl View for RecognizeForm {
    type V = RecognizeFormView;

    open spec fn view(&self) -> RecognizeFormView {
        RecognizeFormView {
            file: match self.file {
                Some(data) => Some(data@),
                None => None,
            },
            det_db_thresh: self.det_db_thresh,
            cls_thresh: self.cls_thresh,
            use_cls: self.use_cls,
        }
    }
}

/// The form before any field has come: no file, the default thresholds, the
/// classifier in use.
pub open spec fn empty_recognize_form() -> RecognizeFormView {
    RecognizeFormView {
        file: None,
        det_db_thresh: Number { bits: DEFAULT_DET_DB_THRESH },
        cls_thresh: Number { bits: DEFAULT_CLS_THRESH },
        use_cls: true,
    }
}

/// The form after one more field.
///
/// `reading` is the number that the data spells, if it spells one. A field of
/// another name changes nothing, and neither does a value that cannot be
/// read; a later field of a name overrides an earlier one.
pub open spec fn recognize_field(
    form: RecognizeFormView,
    name: Seq<char>,
    data: Seq<u8>,
    reading: Option<Number>,
) -> RecognizeFormView {
    if name == "file"@ {
        RecognizeFormView { file: Some(data), ..form }
    } else if name == "det_db_thresh"@ {
        match reading {
            Some(value) => RecognizeFormView { det_db_thresh: value, ..form },
            None => form,
        }
    } else if name == "cls_thresh"@ {
        match reading {
            Some(value) => RecognizeFormView { cls_thresh: value, ..form },
            None => form,
        }
    } else if name == "use_cls"@ {
        match flag_of_data(data) {
            Some(flag) => RecognizeFormView { use_cls: flag, ..form },
            None => form,
        }
    } else {
        form
    }
}

/// Whether a recognition form has a use for a field of this name.
pub open spec fn recognize_takes(name: Seq<char>) -> bool {
    name == "file"@ || name == "det_db_thresh"@ || name == "cls_thresh"@ || name == "use_cls"@
}

impl RecognizeForm {
    /// Tells whether the form has a use for a field of this name, so that
    /// the data of other fields need not be read.
    pub fn takes(name: &str) -> (r: bool)
        ensures
            r == recognize_takes(name@),
    {
        same_text(name, "file") || same_text(name, "det_db_thresh") || same_text(
            name,
            "cls_thresh",
        ) || same_text(name, "use_cls")
    }

    /// The form before any field has come.
    pub fn new() -> (form: RecognizeForm)
        ensures
            form@ == empty_recognize_form(),
    {
        RecognizeForm {
            file: None,
            det_db_thresh: Number::from_bits(DEFAULT_DET_DB_THRESH),
            cls_thresh: Number::from_bits(DEFAULT_CLS_THRESH),
            use_cls: true,
        }
    }

    /// Takes one more field into the form. `reading` is the number that the
    /// data spells in single precision, if it spells one.
    pub fn accept(&mut self, name: &str, data: Vec<u8>, reading: Option<Number>)
        ensures
            final(self)@ == recognize_field(old(self)@, name@, data@, reading),
    {
        if same_text(name, "file") {
            self.file = Some(data);
        } else if same_text(name, "det_db_thresh") {
            match reading {
                Some(value) => {
                    self.det_db_thresh = value;
                },
                None => {},
            }
        } else if same_text(name, "cls_thresh") {
            match reading {
                Some(value) => {
                    self.cls_thresh = value;
                },
                None => {},
            }
        } else if same_text(name, "use_cls") {
            let flag = match utf8_text(data.as_slice()) {
                Some(text) => parse_flag(text),
                None => None,
            };
            match flag {
                Some(value) => {
                    self.use_cls = value;
                },
                None => {},
            }
        }
    }
}

/// The form of an overlay request.
#[derive(Debug, PartialEq, Eq)]
pub struct DrawForm {
    /// The uploaded image.
    pub file: Option<Vec<u8>>,
    /// The recognition result, as JSON text.
    pub ocr_result: Option<String>,
    /// The drop score. It is taken and kept; no line is left out for it.
    pub drop_score: Number,
}

/// The mathematical content of a [`DrawForm`].
pub struct DrawFormView {
    pub file: Option<Seq<u8>>,
    pub ocr_result: Option<Seq<char>>,
    pub drop_score: Number,
}

impl View for DrawForm {
    type V = DrawFormView;

    open spec fn view(&self) -> DrawFormView {
        DrawFormView {
            file: match self.file {
                Some(data) => Some(data@),
                None => None,
            },
            ocr_result: match self.ocr_result {
                Some(text) => Some(text@),
                None => None,
            },
            drop_score: self.drop_score,
        }
    }
}

/// The form before any field has come: no file, no result, the default drop
/// score.
pub open spec fn empty_draw_form() -> DrawFormView {
    DrawFormView { file: None, ocr_result: None, drop_score: Number { bits: DEFAULT_DROP_SCORE } }
}

/// The form after one more field. A result that is not valid UTF-8 changes
/// nothing.
pub open spec fn draw_field(
    form: DrawFormView,
    name: Seq<char>,
    data: Seq<u8>,
    reading: Option<Number>,
) -> DrawFormView {
    if name == "file"@ {
        DrawFormView { file: Some(data), ..form }
    } else if name == "ocr_result"@ {
        match text_of(data) {
            Some(text) => DrawFormView { ocr_result: Some(text), ..form },
            None => form,
        }
    } else if name == "drop_score"@ {
        match reading {
            Some(value) => DrawFormView { drop_score: value, ..form },
            None => form,
        }
    } else {
        form
    }
}

/// Whether an overlay form has a use for a field of this name.
pub open spec fn draw_takes(name: Seq<char>) -> bool {
    name == "file"@ || name == "ocr_result"@ || name == "drop_score"@
}

impl DrawForm {
    /// Tells whether the form has a use for a field of this name, so that
    /// the data of other fields need not be read.
    pub fn takes(name: &str) -> (r: bool)
        ensures
            r == draw_takes(name@),
    {
        same_text(name, "file") || same_text(name, "ocr_result") || same_text(name, "drop_score")
    }

    /// The form before any field has come.
    pub fn new() -> (form: DrawForm)
        ensures
            form@ == empty_draw_form(),
    {
        DrawForm { file: None, ocr_result: None, drop_score: Number::from_bits(DEFAULT_DROP_SCORE) }
    }

    /// Takes one more field into the form. `reading` is the number that the
    /// data spells in single precision, if it spells one.
    pub fn accept(&mut self, name: &str, data: Vec<u8>, reading: Option<Number>)
        ensures
            final(self)@ == draw_field(old(self)@, name@, data@, reading),
    {
        if same_text(name, "file") {
            self.file = Some(data);
        } else if same_text(name, "ocr_result") {
            match field_text(data.as_slice()) {
                Some(text) => {
                    self.ocr_result = Some(text);
                },
                None => {},
            }
        } else if same_text(name, "drop_score") {
            match reading {
                Some(value) => {
                    self.drop_score = value;
                },
                None => {},
            }
        }
    }
}

/// A field that a form has no use for leaves the form as it is, whatever
/// its data.
pub proof fn lemma_other_fields_change_nothing(
    recognize: RecognizeFormView,
    draw: DrawFormView,
    name: Seq<char>,
    data: Seq<u8>,
    reading: Option<Number>,
)
    ensures
        !recognize_takes(name) ==> recognize_field(recognize, name, data, reading) == recognize,
        !draw_takes(name) ==> draw_field(draw, name, data, reading) == draw,
{
}

} // verus!
