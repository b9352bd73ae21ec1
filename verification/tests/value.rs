use sheetstream::value::{
    decode_value, parse_error_literal, CellErrorType, CellFormat, CellStyle, CellValue,
};
use sheetstream::DecodeError;

fn no_strings() -> Vec<String> {
    Vec::new()
}

#[test]
fn untyped_numeric_text_is_a_number() {
    let strings = no_strings();
    let v = decode_value("3.14".to_string(), None, None, &strings).unwrap();
    match v {
        CellValue::Number { text, format } => {
            assert_eq!(text, "3.14");
            assert_eq!(text.parse::<f64>().unwrap(), 3.14);
            assert_eq!(format, CellFormat::Other);
        }
        other => panic!("expected a number, got {:?}", other),
    }
}

#[test]
fn untyped_plain_text_falls_back_to_string() {
    let strings = no_strings();
    let v = decode_value("hello".to_string(), None, None, &strings).unwrap();
    assert_eq!(v, CellValue::Text("hello".to_string()));
}

#[test]
fn shared_string_lookup() {
    let strings = vec!["Hello".to_string(), "World".to_string()];
    let v = decode_value("1".to_string(), Some("s"), None, &strings).unwrap();
    assert_eq!(v, CellValue::SharedString("World".to_string()));
}

#[test]
fn shared_string_out_of_range_is_a_typed_error() {
    let strings = vec!["Hello".to_string()];
    let r = decode_value("7".to_string(), Some("s"), None, &strings);
    assert_eq!(r, Err(DecodeError::SharedStringOutOfRange(7)));
}

#[test]
fn shared_string_bad_index_reads_as_zero() {
    let strings = vec!["Hello".to_string(), "World".to_string()];
    let v = decode_value("x9".to_string(), Some("s"), None, &strings).unwrap();
    assert_eq!(v, CellValue::SharedString("Hello".to_string()));
}

#[test]
fn booleans() {
    let strings = no_strings();
    let f = decode_value("0".to_string(), Some("b"), None, &strings).unwrap();
    assert_eq!(f, CellValue::Bool(false));
    let t = decode_value("1".to_string(), Some("b"), None, &strings).unwrap();
    assert_eq!(t, CellValue::Bool(true));
}

#[test]
fn number_typed_empty_is_empty() {
    let strings = no_strings();
    let v = decode_value(String::new(), Some("n"), None, &strings).unwrap();
    assert_eq!(v, CellValue::Empty);
}

#[test]
fn number_typed_bad_text_is_fatal() {
    let strings = no_strings();
    let r = decode_value("abc".to_string(), Some("n"), None, &strings);
    assert_eq!(r, Err(DecodeError::NumericParse));
}

#[test]
fn number_with_datetime_style() {
    let strings = no_strings();
    let style = CellStyle { number_format: CellFormat::DateTime };
    let v = decode_value("44927".to_string(), Some("n"), Some(style), &strings).unwrap();
    assert_eq!(
        v,
        CellValue::Number { text: "44927".to_string(), format: CellFormat::DateTime }
    );
}

#[test]
fn error_literals() {
    let strings = no_strings();
    let v = decode_value("#DIV/0!".to_string(), Some("e"), None, &strings).unwrap();
    assert_eq!(v, CellValue::Error(CellErrorType::Div0));
    assert_eq!(parse_error_literal("#N/A"), Some(CellErrorType::NA));
    assert_eq!(parse_error_literal("#NAME?"), Some(CellErrorType::Name));
    assert_eq!(parse_error_literal("#NULL!"), Some(CellErrorType::Null));
    assert_eq!(parse_error_literal("#NUM!"), Some(CellErrorType::Num));
    assert_eq!(parse_error_literal("#REF!"), Some(CellErrorType::Ref));
    assert_eq!(parse_error_literal("#VALUE!"), Some(CellErrorType::Value));
    assert_eq!(parse_error_literal("#GETTING_DATA"), Some(CellErrorType::GettingData));
    assert_eq!(parse_error_literal("#WHAT"), None);
}

#[test]
fn unknown_error_literal_is_fatal() {
    let strings = no_strings();
    let r = decode_value("#WHAT".to_string(), Some("e"), None, &strings);
    assert_eq!(r, Err(DecodeError::UnknownErrorLiteral("#WHAT".to_string())));
}

#[test]
fn date_text_kept_verbatim() {
    let strings = no_strings();
    let v = decode_value("2023-01-01T00:00:00".to_string(), Some("d"), None, &strings).unwrap();
    assert_eq!(v, CellValue::DateTimeText("2023-01-01T00:00:00".to_string()));
}

#[test]
fn formula_result_string_kept_verbatim() {
    let strings = no_strings();
    let v = decode_value("12abc".to_string(), Some("str"), None, &strings).unwrap();
    assert_eq!(v, CellValue::Text("12abc".to_string()));
}

#[test]
fn unknown_type_code_is_fatal() {
    let strings = no_strings();
    let r = decode_value("1".to_string(), Some("q"), None, &strings);
    assert_eq!(r, Err(DecodeError::UnknownCellType("q".to_string())));
}

#[test]
fn inline_string_code_rejected_by_scalar_decoder() {
    let strings = no_strings();
    let r = decode_value("1".to_string(), Some("is"), None, &strings);
    assert_eq!(r, Err(DecodeError::UnexpectedNode("v".to_string())));
}

#[test]
fn numeric_shapes_match_float_parsing() {
    let strings = no_strings();
    for text in [
        "1", "-1", "+1", "1.", ".5", "-.5", "1e3", "1E-3", "2.5e+7", "inf", "-inf",
        "Infinity", "NaN",
    ] {
        let v = decode_value(text.to_string(), None, None, &strings).unwrap();
        assert!(
            matches!(v, CellValue::Number { .. }),
            "{} should read as numeric",
            text
        );
        assert!(text.parse::<f64>().is_ok(), "{} should parse as a float", text);
    }
    for text in ["", ".", "1.2.3", "1e", "e5", "+-1", "0x10", "1 "] {
        let v = decode_value(text.to_string(), None, None, &strings).unwrap();
        assert!(
            matches!(v, CellValue::Text(_)),
            "{} should fall back to text",
            text
        );
        assert!(text.parse::<f64>().is_err(), "{} should not parse as a float", text);
    }
}
