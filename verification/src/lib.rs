//! Streaming decoder for the worksheet body of a SpreadsheetML document.
//!
//! The decoder walks the row/cell event stream of one worksheet, resolves
//! each cell's typed value, reconstructs formula text for cells that only
//! reference a shared formula template, and records dynamic-array spill
//! rectangles for containment queries.

use vstd::prelude::*;

pub mod coord;
pub mod events;
pub mod formula;
pub mod metadata;
pub mod numbers;
pub mod pivot;
pub mod reader;
pub mod text;
pub mod theme;
pub mod value;

verus! {

/// Errors raised while decoding a worksheet body.
///
/// Fatal conditions abort the decode of the current worksheet; the caller
/// receives either a complete decode or one of these.
#[derive(Debug, Clone, PartialEq, Eq)]
pub enum DecodeError {
    /// A range or cell-reference text does not match the expected grammar.
    MalformedRange,
    /// The event stream ended inside the named element.
    UnexpectedEof(String),
    /// An element appeared where it is not allowed; carries the expected names.
    UnexpectedNode(String),
    /// The stream ended before the cell-data region of a worksheet began;
    /// carries the first unrecognized element name met.
    NotAWorksheet(String),
    /// A formula was tagged as shared but carried no shared-index attribute.
    MissingSharedIndex,
    /// A shared-index attribute was not a number.
    BadSharedIndex,
    /// A cell carried an unrecognized type code; carries that code.
    UnknownCellType(String),
    /// A number-typed cell held text that is not numeric.
    NumericParse,
    /// A cell referenced a shared-string index outside the table; carries
    /// the offending index.
    SharedStringOutOfRange(usize),
    /// An error-typed cell held text that is not a spreadsheet error literal.
    UnknownErrorLiteral(String),
    /// A formula rewrite shifted a cell reference below row or column one.
    ReferenceOutOfBounds,
    /// A row or column counter left the representable range.
    CounterOverflow,
}

} // verus!
