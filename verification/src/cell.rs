//! Raw cell values, as a workbook holds them, and the text each one is shown as.

use vstd::prelude::*;
use vstd::string::StringExecFns;

use calamine::CellErrorType;

use crate::decimal::{decimal_text, int_to_string};

verus! {

/// The error that a cell holds in place of a value.
#[derive(Clone, Copy, Debug, PartialEq, Eq, Structural)]
pub enum CellError {
    /// Division by zero.
    Div0,
    /// A value is not available.
    NA,
    /// A name is not known.
    Name,
    /// Two ranges do not intersect.
    Null,
    /// A number is not valid.
    Num,
    /// A cell reference is not valid.
    Ref,
    /// A value has the wrong type.
    Value,
    /// The data is still being fetched.
    GettingData,
}

impl CellError {
    /// The name of the error, as a debugger shows it.
    pub open spec fn name(self) -> Seq<char> {
        match self {
            CellError::Div0 => seq!['D', 'i', 'v', '0'],
            CellError::NA => seq!['N', 'A'],
            CellError::Name => seq!['N', 'a', 'm', 'e'],
            CellError::Null => seq!['N', 'u', 'l', 'l'],
            CellError::Num => seq!['N', 'u', 'm'],
            CellError::Ref => seq!['R', 'e', 'f'],
            CellError::Value => seq!['V', 'a', 'l', 'u', 'e'],
            CellError::GettingData => seq!['G', 'e', 't', 't', 'i', 'n', 'g', 'D', 'a', 't', 'a'],
        }
    }
}

/// The name of a cell error, from the `Debug` that `calamine` derives for its
/// `CellErrorType`: the name of the variant. This is taken on trust; nothing else
/// in this crate is.
#[verifier::external_body]
fn error_debug(e: CellError) -> (text: String)
    ensures
        text@ == e.name(),
{
    let kind = match e {
        CellError::Div0 => CellErrorType::Div0,
        CellError::NA => CellErrorType::NA,
        CellError::Name => CellErrorType::Name,
        CellError::Null => CellErrorType::Null,
        CellError::Num => CellErrorType::Num,
        CellError::Ref => CellErrorType::Ref,
        CellError::Value => CellErrorType::Value,
        CellError::GettingData => CellErrorType::GettingData,
    };
    format!("{kind:?}")
}

/// The value of one cell of a sheet.
///
/// A floating-point number and a serial date-time are held as the text that the
/// standard formatter gives the number.
#[derive(Debug, PartialEq, Eq)]
pub enum CellValue {
    /// A signed integer.
    Int(i64),
    /// A floating-point number, as text.
    Float(String),
    /// A string.
    String(String),
    /// A boolean.
    Bool(bool),
    /// A date, a time or a duration as a serial number, as text.
    DateTime(String),
    /// A date, a time or both in ISO 8601.
    DateTimeIso(String),
    /// A duration in ISO 8601.
    DurationIso(String),
    /// An error.
    Error(CellError),
    /// No value.
    Empty,
}

/// The view of a [`CellValue`].
pub enum CellView {
    Int(i64),
    Float(Seq<char>),
    String(Seq<char>),
    Bool(bool),
    DateTime(Seq<char>),
    DateTimeIso(Seq<char>),
    DurationIso(Seq<char>),
    Error(CellError),
    Empty,
}

impl View for CellValue {
    type V = CellView;

    open spec fn view(&self) -> CellView {
        match self {
            CellValue::Int(i) => CellView::Int(*i),
            CellValue::Float(text) => CellView::Float(text@),
            CellValue::String(text) => CellView::String(text@),
            CellValue::Bool(b) => CellView::Bool(*b),
            CellValue::DateTime(text) => CellView::DateTime(text@),
            CellValue::DateTimeIso(text) => CellView::DateTimeIso(text@),
            CellValue::DurationIso(text) => CellView::DurationIso(text@),
            CellValue::Error(e) => CellView::Error(*e),
            CellValue::Empty => CellView::Empty,
        }
    }
}

impl Clone for CellValue {
    fn clone(&self) -> (copy: CellValue)
        ensures
            copy@ == self@,
    {
        match self {
            CellValue::Int(i) => CellValue::Int(*i),
            CellValue::Float(text) => CellValue::Float(text.clone()),
            CellValue::String(text) => CellValue::String(text.clone()),
            CellValue::Bool(b) => CellValue::Bool(*b),
            CellValue::DateTime(text) => CellValue::DateTime(text.clone()),
            CellValue::DateTimeIso(text) => CellValue::DateTimeIso(text.clone()),
            CellValue::DurationIso(text) => CellValue::DurationIso(text.clone()),
            CellValue::Error(e) => CellValue::Error(*e),
            CellValue::Empty => CellValue::Empty,
        }
    }
}

impl DeepView for CellValue {
    type V = CellView;

    open spec fn deep_view(&self) -> CellView {
        self@
    }
}

/// The text "true".
pub open spec fn true_text() -> Seq<char> {
    seq!['t', 'r', 'u', 'e']
}

/// The text "false".
pub open spec fn false_text() -> Seq<char> {
    seq!['f', 'a', 'l', 's', 'e']
}

/// The text "Error: ", which stands before the name of a cell's error.
pub open spec fn error_prefix() -> Seq<char> {
    seq!['E', 'r', 'r', 'o', 'r', ':', ' ']
}

/// The text that a cell is shown as.
pub open spec fn cell_text(cell: CellView) -> Seq<char> {
    match cell {
        CellView::Int(i) => decimal_text(i as int),
        CellView::Float(text) => text,
        CellView::String(text) => text,
        CellView::Bool(b) => if b {
            true_text()
        } else {
            false_text()
        },
        CellView::DateTime(text) => text,
        CellView::DateTimeIso(text) => text,
        CellView::DurationIso(text) => text,
        CellView::Error(e) => error_prefix() + e.name(),
        CellView::Empty => Seq::empty(),
    }
}

/// Whether a row holds a string cell.
pub open spec fn row_has_text(row: Seq<CellView>) -> bool {
    exists|i: int| 0 <= i < row.len() && #[trigger] row[i] is String
}

/// A cell that holds text is shown as that text, unchanged, whatever the text
/// is: a string, a number or a serial date-time held as text, and a date-time or
/// a duration in ISO 8601.
pub proof fn lemma_text_cells_verbatim(text: Seq<char>)
    ensures
        cell_text(CellView::String(text)) == text,
        cell_text(CellView::Float(text)) == text,
        cell_text(CellView::DateTime(text)) == text,
        cell_text(CellView::DateTimeIso(text)) == text,
        cell_text(CellView::DurationIso(text)) == text,
{
}

/// The text that `cell` is shown as.
pub fn data_to_string(cell: &CellValue) -> (text: String)
    ensures
        text@ == cell_text(cell@),
{
    match cell {
        CellValue::Int(i) => int_to_string(*i),
        CellValue::Float(text) => text.clone(),
        CellValue::String(text) => text.clone(),
        CellValue::Bool(b) => {
            proof {
                reveal_strlit("true");
                reveal_strlit("false");
            }
            let text = if *b {
                "true".to_owned()
            } else {
                "false".to_owned()
            };
            text
        },
        CellValue::DateTime(text) => text.clone(),
        CellValue::DateTimeIso(text) => text.clone(),
        CellValue::DurationIso(text) => text.clone(),
        CellValue::Error(e) => {
            proof {
                reveal_strlit("Error: ");
            }
            let mut text = "Error: ".to_owned();
            let name = error_debug(*e);
            text.append(name.as_str());
            text
        },
        CellValue::Empty => String::new(),
    }
}

/// Whether `row` holds a string cell.
pub fn row_contains_text(row: &[CellValue]) -> (found: bool)
    ensures
        found == row_has_text(row.deep_view()),
{
    let mut i: usize = 0;
    while i < row.len()
        invariant
            i <= row.len(),
            forall|j: int| 0 <= j < i ==> !(#[trigger] row.deep_view()[j] is String),
        decreases row.len() - i,
    {
        if let CellValue::String(_) = &row[i] {
            assert(row.deep_view()[i as int] is String);
            return true;
        }
        i += 1;
    }
    false
}

} // verus!
