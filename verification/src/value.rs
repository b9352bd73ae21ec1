//! Typed decoding of a cell's raw text and type code.

use vstd::prelude::*;

use crate::numbers::parse_usize_text;
use crate::text::{digits_range, digits_value_range, is_numeric_text, numeric_text, str_eq};
use crate::DecodeError;

verus! {

/// Number-format classification a style resolves to.
#[derive(Debug, Clone, Copy, PartialEq, Eq, Structural)]
pub enum CellFormat {
    /// A plain number.
    Other,
    /// A date or time of day.
    DateTime,
    /// A span of time.
    TimeDelta,
}

/// A resolved cell style, reduced to what value decoding reads from it.
#[derive(Debug, Clone, Copy, PartialEq, Eq, Structural)]
pub struct CellStyle {
    /// The style's number-format classification.
    pub number_format: CellFormat,
}

/// The fixed spreadsheet error codes.
#[derive(Debug, Clone, Copy, PartialEq, Eq, Structural)]
pub enum CellErrorType {
    /// #DIV/0!
    Div0,
    /// #N/A
    NA,
    /// #NAME?
    Name,
    /// #NULL!
    Null,
    /// #NUM!
    Num,
    /// #REF!
    Ref,
    /// #VALUE!
    Value,
    /// #GETTING_DATA
    GettingData,
}

/// A decoded cell value. A number keeps its text verbatim together with the
/// format class its style resolved to; turning that text into a binary
/// number, date or duration is the caller's concern.
#[derive(Debug, Clone, PartialEq)]
pub enum CellValue {
    /// No stored value.
    Empty,
    /// A boolean.
    Bool(bool),
    /// Numeric text and its format class.
    Number { text: String, format: CellFormat },
    /// Plain text.
    Text(String),
    /// Text resolved from the shared-strings table.
    SharedString(String),
    /// A spreadsheet error code.
    Error(CellErrorType),
    /// Date text kept verbatim.
    DateTimeText(String),
}

/// Ghost model of a cell value, over character sequences.
pub enum SpecCellValue {
    Empty,
    Bool(bool),
    Number(Seq<char>, CellFormat),
    Text(Seq<char>),
    SharedString(Seq<char>),
    Error(CellErrorType),
    DateTimeText(Seq<char>),
}

impl View for CellValue {
    type V = SpecCellValue;

    open spec fn view(&self) -> SpecCellValue {
        match self {
            CellValue::Empty => SpecCellValue::Empty,
            CellValue::Bool(b) => SpecCellValue::Bool(*b),
            CellValue::Number { text, format } => SpecCellValue::Number(text@, *format),
            CellValue::Text(t) => SpecCellValue::Text(t@),
            CellValue::SharedString(t) => SpecCellValue::SharedString(t@),
            CellValue::Error(e) => SpecCellValue::Error(*e),
            CellValue::DateTimeText(t) => SpecCellValue::DateTimeText(t@),
        }
    }
}

/// The spreadsheet error code spelled by `t`, if any.
pub open spec fn spec_error_literal(t: Seq<char>) -> Option<CellErrorType> {
    if t == "#DIV/0!"@ {
        Some(CellErrorType::Div0)
    } else if t == "#N/A"@ {
        Some(CellErrorType::NA)
    } else if t == "#NAME?"@ {
        Some(CellErrorType::Name)
    } else if t == "#NULL!"@ {
        Some(CellErrorType::Null)
    } else if t == "#NUM!"@ {
        Some(CellErrorType::Num)
    } else if t == "#REF!"@ {
        Some(CellErrorType::Ref)
    } else if t == "#VALUE!"@ {
        Some(CellErrorType::Value)
    } else if t == "#GETTING_DATA"@ {
        Some(CellErrorType::GettingData)
    } else {
        None
    }
}

/// Parse one of the fixed spreadsheet error literals.
pub fn parse_error_literal(t: &str) -> (r: Option<CellErrorType>)
    ensures
        r == spec_error_literal(t@),
{
    if str_eq(t, "#DIV/0!") {
        Some(CellErrorType::Div0)
    } else if str_eq(t, "#N/A") {
        Some(CellErrorType::NA)
    } else if str_eq(t, "#NAME?") {
        Some(CellErrorType::Name)
    } else if str_eq(t, "#NULL!") {
        Some(CellErrorType::Null)
    } else if str_eq(t, "#NUM!") {
        Some(CellErrorType::Num)
    } else if str_eq(t, "#REF!") {
        Some(CellErrorType::Ref)
    } else if str_eq(t, "#VALUE!") {
        Some(CellErrorType::Value)
    } else if str_eq(t, "#GETTING_DATA") {
        Some(CellErrorType::GettingData)
    } else {
        None
    }
}

/// What the shared-string index parser yields for `t`: the parsed value, or
/// zero when `t` is not a well-formed index.
pub open spec fn spec_shared_index(t: Seq<char>) -> int {
    if digits_range(t, 0, t.len() as int) && t.len() <= 20 && digits_value_range(
        t,
        0,
        t.len() as int,
    ) <= usize::MAX {
        digits_value_range(t, 0, t.len() as int)
    } else {
        0
    }
}

/// Ghost model of a decoding outcome.
pub enum SpecDecoded {
    /// A value was produced.
    Value(SpecCellValue),
    /// The type code was not recognized.
    ErrUnknownType(Seq<char>),
    /// A number-typed cell held text that is not numeric.
    ErrNumeric,
    /// The shared-string index lies outside the table.
    ErrSharedString(int),
    /// An error-typed cell held an unknown literal.
    ErrBadLiteral(Seq<char>),
    /// An inline-string cell reached the scalar value decoder.
    ErrInlineType,
}

/// The format class dispatch resolves to: the style's, or plain.
pub open spec fn spec_format_of(style: Option<CellStyle>) -> CellFormat {
    match style {
        Some(st) => st.number_format,
        None => CellFormat::Other,
    }
}

/// The outcome of decoding value text `text` with type code `code` under
/// the given format class and shared-strings table.
pub open spec fn spec_decode_value(
    text: Seq<char>,
    code: Option<Seq<char>>,
    fmt: CellFormat,
    strings: Seq<Seq<char>>,
) -> SpecDecoded {
    match code {
        None => if is_numeric_text(text) {
            SpecDecoded::Value(SpecCellValue::Number(text, fmt))
        } else {
            SpecDecoded::Value(SpecCellValue::Text(text))
        },
        Some(c) => if c == "s"@ {
            let idx = spec_shared_index(text);
            if idx < strings.len() {
                SpecDecoded::Value(SpecCellValue::SharedString(strings[idx]))
            } else {
                SpecDecoded::ErrSharedString(idx)
            }
        } else if c == "b"@ {
            SpecDecoded::Value(SpecCellValue::Bool(text != "0"@))
        } else if c == "e"@ {
            match spec_error_literal(text) {
                Some(et) => SpecDecoded::Value(SpecCellValue::Error(et)),
                None => SpecDecoded::ErrBadLiteral(text),
            }
        } else if c == "d"@ {
            SpecDecoded::Value(SpecCellValue::DateTimeText(text))
        } else if c == "str"@ {
            SpecDecoded::Value(SpecCellValue::Text(text))
        } else if c == "n"@ {
            if text.len() == 0 {
                SpecDecoded::Value(SpecCellValue::Empty)
            } else if is_numeric_text(text) {
                SpecDecoded::Value(SpecCellValue::Number(text, fmt))
            } else {
                SpecDecoded::ErrNumeric
            }
        } else if c == "is"@ {
            SpecDecoded::ErrInlineType
        } else {
            SpecDecoded::ErrUnknownType(c)
        },
    }
}

/// View of an optional type code.
pub open spec fn spec_code_view(code: Option<&str>) -> Option<Seq<char>> {
    match code {
        Some(c) => Some(c@),
        None => None,
    }
}

/// Decode the scalar value text of one cell, as the type code directs.
pub fn decode_value(
    text: String,
    code: Option<&str>,
    style: Option<CellStyle>,
    strings: &Vec<String>,
) -> (r: Result<CellValue, DecodeError>)
    ensures
        ({
            let out = spec_decode_value(
                text@,
                spec_code_view(code),
                spec_format_of(style),
                strings.deep_view(),
            );
            match out {
                SpecDecoded::Value(m) => r is Ok && r->Ok_0@ == m,
                SpecDecoded::ErrUnknownType(c) => r is Err && r->Err_0 is UnknownCellType
                    && r->Err_0->UnknownCellType_0@ == c,
                SpecDecoded::ErrNumeric => r == Err::<CellValue, DecodeError>(
                    DecodeError::NumericParse,
                ),
                SpecDecoded::ErrSharedString(i) => r is Err && r->Err_0 is SharedStringOutOfRange
                    && r->Err_0->SharedStringOutOfRange_0 == i,
                SpecDecoded::ErrBadLiteral(t) => r is Err && r->Err_0 is UnknownErrorLiteral
                    && r->Err_0->UnknownErrorLiteral_0@ == t,
                SpecDecoded::ErrInlineType => r is Err && (r->Err_0 matches
                    DecodeError::UnexpectedNode(m) && m@ == "v"@),
            }
        }),
{
    let fmt = match style {
        Some(st) => st.number_format,
        None => CellFormat::Other,
    };
    match code {
        None => {
            if numeric_text(text.as_str()) {
                Ok(CellValue::Number { text, format: fmt })
            } else {
                Ok(CellValue::Text(text))
            }
        },
        Some(c) => {
            if str_eq(c, "s") {
                let idx = match parse_usize_text(text.as_str()) {
                    Some(i) => i,
                    None => 0,
                };
                if idx < strings.len() {
                    Ok(CellValue::SharedString(strings[idx].clone()))
                } else {
                    Err(DecodeError::SharedStringOutOfRange(idx))
                }
            } else if str_eq(c, "b") {
                Ok(CellValue::Bool(!str_eq(text.as_str(), "0")))
            } else if str_eq(c, "e") {
                match parse_error_literal(text.as_str()) {
                    Some(et) => Ok(CellValue::Error(et)),
                    None => Err(DecodeError::UnknownErrorLiteral(text)),
                }
            } else if str_eq(c, "d") {
                Ok(CellValue::DateTimeText(text))
            } else if str_eq(c, "str") {
                Ok(CellValue::Text(text))
            } else if str_eq(c, "n") {
                if text.as_str().unicode_len() == 0 {
                    Ok(CellValue::Empty)
                } else if numeric_text(text.as_str()) {
                    Ok(CellValue::Number { text, format: fmt })
                } else {
                    Err(DecodeError::NumericParse)
                }
            } else if str_eq(c, "is") {
                Err(DecodeError::UnexpectedNode("v".to_owned()))
            } else {
                Err(DecodeError::UnknownCellType(c.to_owned()))
            }
        },
    }
}

} // verus!
