//! The failures that operations on the application can report.

use vstd::prelude::*;
use vstd::string::*;
use crate::text::{decimal, push_decimal};

verus! {

/// Every kind of failure an operation can end in.
#[derive(Debug, Clone, PartialEq, Eq)]
pub enum StrataError {
    CommandNotFound,
    CsvParseError(String),
    FailedToReadDir(String),
    IndexOutOfBounds { max: usize, requested: usize },
    InvalidColumnIndex { max: usize, requested: usize },
    InvalidOperationCall { operation: String, focus: String },
    InvalidRowIndex { max: usize, requested: usize },
    InvalidTableName,
    IoError(String),
    ItemNotFound(String),
    NoCellSelected,
    NoItemSelected,
    NoTableAdded,
    NoTableSelected,
    StringParseError(String),
    TableHasNoHeader,
    TableNameDuplicate(String),
    TableNotFound(String),
}

/// A failure with its texts as sequences of characters.
pub enum ErrorView {
    CommandNotFound,
    CsvParseError(Seq<char>),
    FailedToReadDir(Seq<char>),
    IndexOutOfBounds { max: usize, requested: usize },
    InvalidColumnIndex { max: usize, requested: usize },
    InvalidOperationCall { operation: Seq<char>, focus: Seq<char> },
    InvalidRowIndex { max: usize, requested: usize },
    InvalidTableName,
    IoError(Seq<char>),
    ItemNotFound(Seq<char>),
    NoCellSelected,
    NoItemSelected,
    NoTableAdded,
    NoTableSelected,
    StringParseError(Seq<char>),
    TableHasNoHeader,
    TableNameDuplicate(Seq<char>),
    TableNotFound(Seq<char>),
}

impl View for StrataError {
    type V = ErrorView;

    open spec fn view(&self) -> ErrorView {
        match *self {
            StrataError::CommandNotFound => ErrorView::CommandNotFound,
            StrataError::CsvParseError(s) => ErrorView::CsvParseError(s@),
            StrataError::FailedToReadDir(s) => ErrorView::FailedToReadDir(s@),
            StrataError::IndexOutOfBounds { max, requested } => ErrorView::IndexOutOfBounds {
                max,
                requested,
            },
            StrataError::InvalidColumnIndex { max, requested } => ErrorView::InvalidColumnIndex {
                max,
                requested,
            },
            StrataError::InvalidOperationCall { operation, focus } => {
                ErrorView::InvalidOperationCall { operation: operation@, focus: focus@ }
            },
            StrataError::InvalidRowIndex { max, requested } => ErrorView::InvalidRowIndex {
                max,
                requested,
            },
            StrataError::InvalidTableName => ErrorView::InvalidTableName,
            StrataError::IoError(s) => ErrorView::IoError(s@),
            StrataError::ItemNotFound(s) => ErrorView::ItemNotFound(s@),
            StrataError::NoCellSelected => ErrorView::NoCellSelected,
            StrataError::NoItemSelected => ErrorView::NoItemSelected,
            StrataError::NoTableAdded => ErrorView::NoTableAdded,
            StrataError::NoTableSelected => ErrorView::NoTableSelected,
            StrataError::StringParseError(s) => ErrorView::StringParseError(s@),
            StrataError::TableHasNoHeader => ErrorView::TableHasNoHeader,
            StrataError::TableNameDuplicate(s) => ErrorView::TableNameDuplicate(s@),
            StrataError::TableNotFound(s) => ErrorView::TableNotFound(s@),
        }
    }
}

/// What the `{:?}` form of a string writes: the text between double
/// quotes, with the characters that need it escaped.
pub uninterp spec fn debug_text(text: Seq<char>) -> Seq<char>;

/// Formats `text` with `{:?}`, as `core::fmt::Debug` for `str` writes it.
/// Claimed: the outcome depends on the text alone, and is the one that
/// `debug_text` names.
#[verifier::external_body]
fn debug_string(text: &str) -> (r: String)
    ensures
        r@ == debug_text(text@),
{
    format!("{:?}", text)
}

/// The message that reports an index out of range: what `what` names,
/// the largest index there is, and the one asked for.
pub open spec fn range_message(what: Seq<char>, max: usize, requested: usize) -> Seq<char> {
    what + ": max:["@ + decimal(max as nat) + "], requested:["@ + decimal(requested as nat) + "]"@
}

/// The message that reports something about the thing named `name`.
pub open spec fn named_message(what: Seq<char>, name: Seq<char>) -> Seq<char> {
    what + name + "]"@
}

/// The message that the user reads for a failure.
pub open spec fn message_text(e: ErrorView) -> Seq<char> {
    match e {
        ErrorView::CommandNotFound => "Command not found"@,
        ErrorView::CsvParseError(s) => s,
        ErrorView::FailedToReadDir(s) => "Failed to get file name for path: "@ + s,
        ErrorView::IndexOutOfBounds { max, requested } => range_message(
            "Index out of bounds"@,
            max,
            requested,
        ),
        ErrorView::InvalidColumnIndex { max, requested } => range_message(
            "Invalid column index"@,
            max,
            requested,
        ),
        ErrorView::InvalidOperationCall { operation, focus } => {
            "Invalid operation was called:  operation:["@ + debug_text(operation) + "], focus:["@
                + debug_text(focus) + "]"@
        },
        ErrorView::InvalidRowIndex { max, requested } => range_message(
            "Invalid row index"@,
            max,
            requested,
        ),
        ErrorView::InvalidTableName => "Invalid table name"@,
        ErrorView::IoError(s) => s,
        ErrorView::ItemNotFound(s) => named_message("Item not found: item_name:["@, s),
        ErrorView::NoCellSelected => "No cell selected"@,
        ErrorView::NoItemSelected => "No item selected"@,
        ErrorView::NoTableAdded => "No table added"@,
        ErrorView::NoTableSelected => "No table selected"@,
        ErrorView::StringParseError(s) => "String parse failed: "@ + s,
        ErrorView::TableHasNoHeader => "Table Has No Header"@,
        ErrorView::TableNameDuplicate(s) => named_message(
            "Table already exists: table_name:["@,
            s,
        ),
        ErrorView::TableNotFound(s) => named_message("Table not found: table_name:["@, s),
    }
}

/// Writes the message that reports an index out of range.
fn range_text(what: &str, max: usize, requested: usize) -> (r: String)
    ensures
        r@ == range_message(what@, max, requested),
{
    let mut text = what.to_owned();
    text.append(": max:[");
    push_decimal(&mut text, max);
    text.append("], requested:[");
    push_decimal(&mut text, requested);
    text.append("]");
    text
}

/// Writes the message that reports something about the thing named `name`.
fn named_text(what: &str, name: &str) -> (r: String)
    ensures
        r@ == named_message(what@, name@),
{
    let mut text = what.to_owned();
    text.append(name);
    text.append("]");
    text
}

impl StrataError {
    /// The message that the user reads for this failure.
    pub fn to_string(&self) -> (r: String)
        ensures
            r@ == message_text(self@),
    {
        match self {
            StrataError::CommandNotFound => "Command not found".to_owned(),
            StrataError::CsvParseError(s) => s.clone(),
            StrataError::FailedToReadDir(s) => {
                let mut text = "Failed to get file name for path: ".to_owned();
                text.append(s.as_str());
                text
            },
            StrataError::IndexOutOfBounds { max, requested } => range_text(
                "Index out of bounds",
                *max,
                *requested,
            ),
            StrataError::InvalidColumnIndex { max, requested } => range_text(
                "Invalid column index",
                *max,
                *requested,
            ),
            StrataError::InvalidOperationCall { operation, focus } => {
                let mut text = "Invalid operation was called:  operation:[".to_owned();
                text.append(debug_string(operation.as_str()).as_str());
                text.append("], focus:[");
                text.append(debug_string(focus.as_str()).as_str());
                text.append("]");
                text
            },
            StrataError::InvalidRowIndex { max, requested } => range_text(
                "Invalid row index",
                *max,
                *requested,
            ),
            StrataError::InvalidTableName => "Invalid table name".to_owned(),
            StrataError::IoError(s) => s.clone(),
            StrataError::ItemNotFound(s) => named_text("Item not found: item_name:[", s.as_str()),
            StrataError::NoCellSelected => "No cell selected".to_owned(),
            StrataError::NoItemSelected => "No item selected".to_owned(),
            StrataError::NoTableAdded => "No table added".to_owned(),
            StrataError::NoTableSelected => "No table selected".to_owned(),
            StrataError::StringParseError(s) => {
                let mut text = "String parse failed: ".to_owned();
                text.append(s.as_str());
                text
            },
            StrataError::TableHasNoHeader => "Table Has No Header".to_owned(),
            StrataError::TableNameDuplicate(s) => named_text(
                "Table already exists: table_name:[",
                s.as_str(),
            ),
            StrataError::TableNotFound(s) => named_text("Table not found: table_name:[", s.as_str()),
        }
    }
}

} // verus!
