use sheetstream::coord::{decode_column, encode_column, parse_cell_ref, parse_range, parse_row_number, Dimensions};
use sheetstream::DecodeError;

#[test]
fn column_decode_literals() {
    assert_eq!(decode_column("A"), Ok(1));
    assert_eq!(decode_column("Z"), Ok(26));
    assert_eq!(decode_column("AA"), Ok(27));
    assert_eq!(decode_column("AMJ"), Ok(1024));
    assert_eq!(decode_column("XFD"), Ok(16384));
    assert_eq!(decode_column("ZZZ"), Ok(18278));
}

#[test]
fn column_encode_literals() {
    assert_eq!(encode_column(1), "A");
    assert_eq!(encode_column(26), "Z");
    assert_eq!(encode_column(27), "AA");
    assert_eq!(encode_column(52), "AZ");
    assert_eq!(encode_column(53), "BA");
    assert_eq!(encode_column(1024), "AMJ");
    assert_eq!(encode_column(16384), "XFD");
}

#[test]
fn column_roundtrip_every_number() {
    for n in 1u32..=16384 {
        let text = encode_column(n);
        assert_eq!(decode_column(text.as_str()), Ok(n), "column {}", n);
    }
}

#[test]
fn column_decode_rejects_bad_text() {
    assert_eq!(decode_column(""), Err(DecodeError::MalformedRange));
    assert_eq!(decode_column("a"), Err(DecodeError::MalformedRange));
    assert_eq!(decode_column("A1"), Err(DecodeError::MalformedRange));
    assert_eq!(decode_column("ABCD"), Err(DecodeError::MalformedRange));
}

#[test]
fn cell_ref_basics() {
    assert_eq!(parse_cell_ref("A1"), Ok((0, 0)));
    assert_eq!(parse_cell_ref("B5"), Ok((4, 1)));
    assert_eq!(parse_cell_ref("XFD1048576"), Ok((1048575, 16383)));
    assert_eq!(parse_cell_ref("A0"), Err(DecodeError::MalformedRange));
    assert_eq!(parse_cell_ref("1A"), Err(DecodeError::MalformedRange));
    assert_eq!(parse_cell_ref("AB"), Err(DecodeError::MalformedRange));
    assert_eq!(parse_cell_ref(""), Err(DecodeError::MalformedRange));
}

#[test]
fn range_decoding() {
    let d = parse_range("A1:D5").unwrap();
    assert_eq!(d.start, (0, 0));
    assert_eq!(d.end, (4, 3));
    assert!(d.contains(2, 2));
    assert!(!d.contains(5, 0));
}

#[test]
fn range_single_cell() {
    let d = parse_range("C7").unwrap();
    assert_eq!(d.start, (6, 2));
    assert_eq!(d.end, (6, 2));
    assert!(d.contains(6, 2));
    assert!(!d.contains(6, 3));
}

#[test]
fn range_rejects_bad_text() {
    assert_eq!(parse_range("D5:A1"), Err(DecodeError::MalformedRange));
    assert_eq!(parse_range("A1:"), Err(DecodeError::MalformedRange));
    assert_eq!(parse_range(":A1"), Err(DecodeError::MalformedRange));
    assert_eq!(parse_range("A1:B2:C3"), Err(DecodeError::MalformedRange));
    assert_eq!(parse_range("hello"), Err(DecodeError::MalformedRange));
}

#[test]
fn row_number_parse() {
    assert_eq!(parse_row_number("1"), Ok(0));
    assert_eq!(parse_row_number("42"), Ok(41));
    assert_eq!(parse_row_number("0"), Err(DecodeError::MalformedRange));
    assert_eq!(parse_row_number(""), Err(DecodeError::MalformedRange));
    assert_eq!(parse_row_number("5x"), Err(DecodeError::MalformedRange));
}

#[test]
fn dimensions_default_is_origin() {
    let d = Dimensions::default();
    assert_eq!(d.start, (0, 0));
    assert_eq!(d.end, (0, 0));
    assert!(d.contains(0, 0));
    assert!(!d.contains(0, 1));
}
