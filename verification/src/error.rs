//! The line-scoped diagnostics a parse session can end with. Every error is
//! fatal to the session and carries the 1-based source line number.

use vstd::prelude::*;

use crate::tags::Btor2Tag;

verus! {

/// Model of a parse error, over mathematical integers and byte sequences.
#[verifier::ext_equal]
pub enum ErrorModel {
    SourceUnavailable,
    MalformedLine { line_number: int },
    UnknownTag { line_number: int, token: Seq<u8> },
    ArityMismatch { line_number: int, tag: Btor2Tag, expected: int, actual: int },
    InvalidNumericField { line_number: int, field_index: int },
    UnknownId { line_number: int, referenced_id: int },
    DuplicateId { line_number: int, id: int },
}

/// Why a parse session stopped.
#[derive(Debug)]
pub enum Btor2ParserError {
    /// The underlying input could not be opened or read at all. The verified
    /// core never produces it; an unverified front end that does the actual
    /// I/O reports its failures under this kind.
    SourceUnavailable,
    /// A non-blank line has no viable `id mnemonic` prefix.
    MalformedLine { line_number: u64 },
    /// The mnemonic token is not in the tag table.
    UnknownTag { line_number: u64, token: Vec<u8> },
    /// The field count does not match the dispatched tag's shape.
    ArityMismatch { line_number: u64, tag: Btor2Tag, expected: u64, actual: u64 },
    /// A field expected to be numeric failed to parse, or violated a
    /// numeric constraint such as `width < 1` or bad `slice` bounds.
    InvalidNumericField { line_number: u64, field_index: u64 },
    /// An argument, sort, init or next reference points to an id that was
    /// not declared on an earlier line.
    UnknownId { line_number: u64, referenced_id: i64 },
    /// An id was reused, whether by two lines, two sorts, or one of each.
    DuplicateId { line_number: u64, id: i64 },
}

impl View for Btor2ParserError {
    type V = ErrorModel;

    open spec fn view(&self) -> ErrorModel {
        match self {
            Btor2ParserError::SourceUnavailable => ErrorModel::SourceUnavailable,
            Btor2ParserError::MalformedLine { line_number } => ErrorModel::MalformedLine {
                line_number: *line_number as int,
            },
            Btor2ParserError::UnknownTag { line_number, token } => ErrorModel::UnknownTag {
                line_number: *line_number as int,
                token: token@,
            },
            Btor2ParserError::ArityMismatch { line_number, tag, expected, actual } => {
                ErrorModel::ArityMismatch {
                    line_number: *line_number as int,
                    tag: *tag,
                    expected: *expected as int,
                    actual: *actual as int,
                }
            },
            Btor2ParserError::InvalidNumericField { line_number, field_index } => {
                ErrorModel::InvalidNumericField {
                    line_number: *line_number as int,
                    field_index: *field_index as int,
                }
            },
            Btor2ParserError::UnknownId { line_number, referenced_id } => ErrorModel::UnknownId {
                line_number: *line_number as int,
                referenced_id: *referenced_id as int,
            },
            Btor2ParserError::DuplicateId { line_number, id } => ErrorModel::DuplicateId {
                line_number: *line_number as int,
                id: *id as int,
            },
        }
    }
}

impl Btor2ParserError {
    /// An identical copy of this error.
    pub fn duplicate(&self) -> (r: Btor2ParserError)
        ensures
            r@ == self@,
    {
        match self {
            Btor2ParserError::SourceUnavailable => Btor2ParserError::SourceUnavailable,
            Btor2ParserError::MalformedLine { line_number } => Btor2ParserError::MalformedLine {
                line_number: *line_number,
            },
            Btor2ParserError::UnknownTag { line_number, token } => Btor2ParserError::UnknownTag {
                line_number: *line_number,
                token: crate::ast::clone_bytes(token),
            },
            Btor2ParserError::ArityMismatch { line_number, tag, expected, actual } => {
                Btor2ParserError::ArityMismatch {
                    line_number: *line_number,
                    tag: *tag,
                    expected: *expected,
                    actual: *actual,
                }
            },
            Btor2ParserError::InvalidNumericField { line_number, field_index } => {
                Btor2ParserError::InvalidNumericField {
                    line_number: *line_number,
                    field_index: *field_index,
                }
            },
            Btor2ParserError::UnknownId { line_number, referenced_id } => {
                Btor2ParserError::UnknownId {
                    line_number: *line_number,
                    referenced_id: *referenced_id,
                }
            },
            Btor2ParserError::DuplicateId { line_number, id } => Btor2ParserError::DuplicateId {
                line_number: *line_number,
                id: *id,
            },
        }
    }
}

} // verus!
