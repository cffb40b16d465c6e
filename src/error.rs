//! The taxonomy of validation errors and how tokenizer failures map onto it.

use crate::text::{contains_text, decimal, decimal_text, has_sub, lower_of, lowercase};
use vstd::prelude::*;
use vstd::string::*;

verus! {

/// Types of CSV validation errors.
#[derive(Debug, Clone, PartialEq)]
pub enum CsvErrorKind {
    FieldCount,
    BareQuote,
    Quote,
    InvalidEscape,
    UnterminatedQuote,
    InvalidLineEnding,
    UnescapedSpecialChars,
    TrailingComma,
    Io(String),
    Utf8(String),
}

/// The mathematical value of a `CsvErrorKind`.
pub enum KindView {
    FieldCount,
    BareQuote,
    Quote,
    InvalidEscape,
    UnterminatedQuote,
    InvalidLineEnding,
    UnescapedSpecialChars,
    TrailingComma,
    Io(Seq<char>),
    Utf8(Seq<char>),
}

impl View for CsvErrorKind {
    type V = KindView;

    open spec fn view(&self) -> KindView {
        match self {
            CsvErrorKind::FieldCount => KindView::FieldCount,
            CsvErrorKind::BareQuote => KindView::BareQuote,
            CsvErrorKind::Quote => KindView::Quote,
            CsvErrorKind::InvalidEscape => KindView::InvalidEscape,
            CsvErrorKind::UnterminatedQuote => KindView::UnterminatedQuote,
            CsvErrorKind::InvalidLineEnding => KindView::InvalidLineEnding,
            CsvErrorKind::UnescapedSpecialChars => KindView::UnescapedSpecialChars,
            CsvErrorKind::TrailingComma => KindView::TrailingComma,
            CsvErrorKind::Io(m) => KindView::Io(m@),
            CsvErrorKind::Utf8(m) => KindView::Utf8(m@),
        }
    }
}

/// The human-readable description of each kind.
pub open spec fn kind_text(k: KindView) -> Seq<char> {
    match k {
        KindView::FieldCount => "wrong number of fields"@,
        KindView::BareQuote => "bare \" in non-quoted-field"@,
        KindView::Quote => "quote in quoted field"@,
        KindView::InvalidEscape => "invalid escape sequence"@,
        KindView::UnterminatedQuote => "unterminated quote"@,
        KindView::InvalidLineEnding => "invalid line ending (RFC 4180 requires CRLF)"@,
        KindView::UnescapedSpecialChars => "field contains unescaped special characters"@,
        KindView::TrailingComma => "trailing comma found"@,
        KindView::Io(m) => "I/O error: "@ + m,
        KindView::Utf8(m) => "UTF-8 error: "@ + m,
    }
}

impl CsvErrorKind {
    /// The human-readable description of this kind.
    pub fn message(&self) -> (r: String)
        ensures
            r@ == kind_text(self@),
    {
        match self {
            CsvErrorKind::FieldCount => String::from_str("wrong number of fields"),
            CsvErrorKind::BareQuote => String::from_str("bare \" in non-quoted-field"),
            CsvErrorKind::Quote => String::from_str("quote in quoted field"),
            CsvErrorKind::InvalidEscape => String::from_str("invalid escape sequence"),
            CsvErrorKind::UnterminatedQuote => String::from_str("unterminated quote"),
            CsvErrorKind::InvalidLineEnding => String::from_str(
                "invalid line ending (RFC 4180 requires CRLF)",
            ),
            CsvErrorKind::UnescapedSpecialChars => String::from_str(
                "field contains unescaped special characters",
            ),
            CsvErrorKind::TrailingComma => String::from_str("trailing comma found"),
            CsvErrorKind::Io(m) => {
                let mut s = String::from_str("I/O error: ");
                s.append(m.as_str());
                s
            },
            CsvErrorKind::Utf8(m) => {
                let mut s = String::from_str("UTF-8 error: ");
                s.append(m.as_str());
                s
            },
        }
    }
}

/// Error information about an invalid record in a CSV file.
#[derive(Debug, Clone, PartialEq)]
pub struct CsvError {
    /// The invalid record; `None` when no record could be decoded.
    pub record: Option<Vec<String>>,
    /// The record number, 1-indexed, where record 1 is the header; 0 means no valid header.
    pub record_num: usize,
    /// The kind of error.
    pub error: CsvErrorKind,
}

/// The mathematical value of a `CsvError`.
pub struct ErrorView {
    pub record: Option<Seq<Seq<char>>>,
    pub record_num: nat,
    pub kind: KindView,
}

impl View for CsvError {
    type V = ErrorView;

    open spec fn view(&self) -> ErrorView {
        ErrorView {
            record: match self.record {
                Some(v) => Some(v.deep_view()),
                None => None,
            },
            record_num: self.record_num as nat,
            kind: self.error@,
        }
    }
}

/// The one-line report of an error.
pub open spec fn error_text(e: ErrorView) -> Seq<char> {
    "Record #"@ + decimal(e.record_num) + " has error: "@ + kind_text(e.kind)
}

impl CsvError {
    /// The one-line report of this error: its record number and its description.
    pub fn to_string(&self) -> (r: String)
        ensures
            r@ == error_text(self@),
    {
        let mut s = String::from_str("Record #");
        let n = decimal_text(self.record_num);
        s.append(n.as_str());
        s.append(" has error: ");
        let m = self.error.message();
        s.append(m.as_str());
        s
    }
}

/// How the tokenizer described a failed read.
#[derive(Debug, Clone, Copy, PartialEq, Eq, Structural)]
pub enum ErrorClass {
    /// The byte source failed.
    Io,
    /// The bytes of a record are not valid UTF-8.
    Utf8,
    /// A record's field count differs from the previous one.
    UnequalLengths,
    /// Any other malformation.
    Parse,
}

/// Io and Utf8 failures leave the stream position untrustworthy.
pub open spec fn is_fatal(class: ErrorClass) -> bool {
    class == ErrorClass::Io || class == ErrorClass::Utf8
}

/// The kind of a parse failure, from the lower-cased text of its message.
pub open spec fn parse_kind(lower: Seq<char>) -> KindView {
    if has_sub(lower, "bare"@) {
        KindView::BareQuote
    } else if has_sub(lower, "unterminated"@) {
        KindView::UnterminatedQuote
    } else if has_sub(lower, "quote"@) {
        KindView::Quote
    } else {
        KindView::InvalidEscape
    }
}

/// The kind reported for a failed read with the given class and message.
pub open spec fn failure_kind(class: ErrorClass, message: Seq<char>) -> KindView {
    match class {
        ErrorClass::UnequalLengths => KindView::FieldCount,
        ErrorClass::Utf8 => KindView::Utf8(message),
        ErrorClass::Io => KindView::Io(message),
        ErrorClass::Parse => parse_kind(lower_of(message)),
    }
}

/// Classifies a parse failure by the lower-cased text of its message.
pub fn kind_from_lowered(lower: &str) -> (r: CsvErrorKind)
    ensures
        r@ == parse_kind(lower@),
{
    if contains_text(lower, "bare") {
        CsvErrorKind::BareQuote
    } else if contains_text(lower, "quote") || contains_text(lower, "unterminated") {
        if contains_text(lower, "unterminated") {
            CsvErrorKind::UnterminatedQuote
        } else {
            CsvErrorKind::Quote
        }
    } else {
        CsvErrorKind::InvalidEscape
    }
}

/// Converts a tokenizer failure, given by its class and message, into an error kind.
pub fn convert_csv_error(class: ErrorClass, message: String) -> (r: CsvErrorKind)
    ensures
        r@ == failure_kind(class, message@),
{
    match class {
        ErrorClass::UnequalLengths => CsvErrorKind::FieldCount,
        ErrorClass::Utf8 => CsvErrorKind::Utf8(message),
        ErrorClass::Io => CsvErrorKind::Io(message),
        ErrorClass::Parse => {
            let lower = lowercase(message.as_str());
            kind_from_lowered(lower.as_str())
        },
    }
}

} // verus!
