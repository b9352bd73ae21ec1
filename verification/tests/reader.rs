use sheetstream::events::{XmlAttr, XmlEvent};
use sheetstream::reader::XlsxCellReader;
use sheetstream::value::{CellFormat, CellStyle, CellValue};
use sheetstream::DecodeError;

fn attr(key: &str, value: &str) -> XmlAttr {
    XmlAttr { key: key.to_string(), value: value.to_string() }
}

fn start(name: &str, attrs: Vec<XmlAttr>) -> XmlEvent {
    XmlEvent::Start { name: name.to_string(), attrs }
}

fn empty(name: &str, attrs: Vec<XmlAttr>) -> XmlEvent {
    XmlEvent::Empty { name: name.to_string(), attrs }
}

fn end(name: &str) -> XmlEvent {
    XmlEvent::End { name: name.to_string() }
}

fn text(content: &str) -> XmlEvent {
    XmlEvent::Text { content: content.to_string() }
}

fn reader_over(events: Vec<XmlEvent>) -> XlsxCellReader {
    XlsxCellReader::new(events, Vec::new(), Vec::new(), false).unwrap()
}

/// A worksheet body with one row of two numeric cells.
fn simple_sheet() -> Vec<XmlEvent> {
    vec![
        start("dimension", vec![attr("ref", "A1:B1")]),
        end("dimension"),
        start("sheetData", vec![]),
        start("row", vec![attr("r", "1")]),
        start("c", vec![attr("r", "A1")]),
        start("v", vec![]),
        text("1"),
        end("v"),
        end("c"),
        start("c", vec![attr("r", "B1")]),
        start("v", vec![]),
        text("2.5"),
        end("v"),
        end("c"),
        end("row"),
        end("sheetData"),
    ]
}

#[test]
fn streams_cells_in_document_order() {
    let mut r = reader_over(simple_sheet());
    let d = r.dimensions();
    assert_eq!(d.start, (0, 0));
    assert_eq!(d.end, (0, 1));

    let c1 = r.next_cell().unwrap().unwrap();
    assert_eq!(c1.pos, (0, 0));
    assert_eq!(c1.val, CellValue::Number { text: "1".to_string(), format: CellFormat::Other });
    let c2 = r.next_cell().unwrap().unwrap();
    assert_eq!(c2.pos, (0, 1));
    assert_eq!(c2.val, CellValue::Number { text: "2.5".to_string(), format: CellFormat::Other });
    assert!(r.next_cell().unwrap().is_none());
}

#[test]
fn implicit_positions_follow_the_counters() {
    let events = vec![
        start("sheetData", vec![]),
        start("row", vec![attr("r", "3")]),
        start("c", vec![]),
        start("v", vec![]),
        text("7"),
        end("v"),
        end("c"),
        start("c", vec![]),
        start("v", vec![]),
        text("8"),
        end("v"),
        end("c"),
        end("row"),
        start("row", vec![]),
        start("c", vec![]),
        start("v", vec![]),
        text("9"),
        end("v"),
        end("c"),
        end("row"),
        end("sheetData"),
    ];
    let mut r = reader_over(events);
    // the explicit row attribute sets the row counter; cells count columns
    assert_eq!(r.next_cell().unwrap().unwrap().pos, (2, 0));
    assert_eq!(r.next_cell().unwrap().unwrap().pos, (2, 1));
    // leaving the row advances the row counter and resets the column
    assert_eq!(r.next_cell().unwrap().unwrap().pos, (3, 0));
    assert!(r.next_cell().unwrap().is_none());
}

#[test]
fn explicit_position_resets_the_column_counter() {
    let events = vec![
        start("sheetData", vec![]),
        start("row", vec![attr("r", "1")]),
        start("c", vec![attr("r", "D1")]),
        start("v", vec![]),
        text("1"),
        end("v"),
        end("c"),
        start("c", vec![]),
        start("v", vec![]),
        text("2"),
        end("v"),
        end("c"),
        end("row"),
        end("sheetData"),
    ];
    let mut r = reader_over(events);
    assert_eq!(r.next_cell().unwrap().unwrap().pos, (0, 3));
    assert_eq!(r.next_cell().unwrap().unwrap().pos, (0, 4));
}

#[test]
fn shared_strings_resolve_through_the_reader() {
    let events = vec![
        start("sheetData", vec![]),
        start("row", vec![attr("r", "1")]),
        start("c", vec![attr("r", "A1"), attr("t", "s")]),
        start("v", vec![]),
        text("1"),
        end("v"),
        end("c"),
        end("row"),
        end("sheetData"),
    ];
    let strings = vec!["Hello".to_string(), "World".to_string()];
    let mut r = XlsxCellReader::new(events, strings, Vec::new(), false).unwrap();
    let c = r.next_cell().unwrap().unwrap();
    assert_eq!(c.val, CellValue::SharedString("World".to_string()));
}

#[test]
fn styles_resolve_through_the_reader() {
    let events = vec![
        start("sheetData", vec![]),
        start("row", vec![attr("r", "1")]),
        start("c", vec![attr("r", "A1"), attr("s", "1")]),
        start("v", vec![]),
        text("44927"),
        end("v"),
        end("c"),
        end("row"),
        end("sheetData"),
    ];
    let formats = vec![
        CellStyle { number_format: CellFormat::Other },
        CellStyle { number_format: CellFormat::DateTime },
    ];
    let mut r = XlsxCellReader::new(events, Vec::new(), formats, false).unwrap();
    let (cell, style) = r.next_cell_with_formatting().unwrap().unwrap();
    assert_eq!(style, Some(CellStyle { number_format: CellFormat::DateTime }));
    assert_eq!(
        cell.val,
        CellValue::Number { text: "44927".to_string(), format: CellFormat::DateTime }
    );
    assert_eq!(
        r.get_formatting_by_index(0),
        Some(CellStyle { number_format: CellFormat::Other })
    );
    assert_eq!(r.get_formatting_by_index(2), None);
}

#[test]
fn formula_only_cell_yields_empty() {
    let events = vec![
        start("sheetData", vec![]),
        start("row", vec![attr("r", "1")]),
        start("c", vec![attr("r", "A1")]),
        start("f", vec![]),
        text("B1+1"),
        end("f"),
        end("c"),
        end("row"),
        end("sheetData"),
    ];
    let mut r = reader_over(events);
    let c = r.next_cell().unwrap().unwrap();
    assert_eq!(c.val, CellValue::Empty);
    assert!(r.last_cell_had_formula());
}

#[test]
fn inline_strings_read_their_runs() {
    let events = vec![
        start("sheetData", vec![]),
        start("row", vec![attr("r", "1")]),
        start("c", vec![attr("r", "A1"), attr("t", "inlineStr")]),
        start("is", vec![]),
        start("r", vec![]),
        start("t", vec![]),
        text("Hello "),
        end("t"),
        end("r"),
        start("r", vec![]),
        start("t", vec![]),
        text("World"),
        end("t"),
        end("r"),
        end("is"),
        end("c"),
        end("row"),
        end("sheetData"),
    ];
    let mut r = reader_over(events);
    let c = r.next_cell().unwrap().unwrap();
    assert_eq!(c.val, CellValue::Text("Hello World".to_string()));
}

#[test]
fn test_dynamic_array_spill_detection() {
    let events = vec![
        start("dimension", vec![attr("ref", "A1:A3")]),
        end("dimension"),
        start("sheetData", vec![]),
        start("row", vec![attr("r", "1")]),
        start("c", vec![attr("r", "A1")]),
        start("f", vec![attr("t", "array"), attr("ref", "A1:A3")]),
        text("SEQUENCE(3)"),
        end("f"),
        start("v", vec![]),
        text("1"),
        end("v"),
        end("c"),
        end("row"),
        start("row", vec![attr("r", "2")]),
        start("c", vec![attr("r", "A2")]),
        start("v", vec![]),
        text("2"),
        end("v"),
        end("c"),
        end("row"),
        end("sheetData"),
    ];
    let mut r = reader_over(events);

    // A1 carries its own formula element: inside the rectangle, but the
    // anchor, so not a spill recipient
    let a1 = r.next_cell().unwrap().unwrap();
    assert_eq!(a1.pos, (0, 0));
    assert!(r.last_cell_had_formula(), "A1 owns its formula element");
    assert!(r.is_in_spill((0, 0)));
    let a1_recipient = r.is_in_spill((0, 0)) && !r.last_cell_had_formula();
    assert!(!a1_recipient, "A1 must not be marked as spilled");

    // A2 carries no formula element and lies inside the rectangle: a
    // spill recipient
    let a2 = r.next_cell().unwrap().unwrap();
    assert_eq!(a2.pos, (1, 0));
    assert!(!r.last_cell_had_formula());
    let a2_recipient = r.is_in_spill((1, 0)) && !r.last_cell_had_formula();
    assert!(a2_recipient, "A2 must be marked as spilled");

    // positions outside every recorded rectangle are not in a spill
    assert!(r.is_in_spill((2, 0)));
    assert!(!r.is_in_spill((3, 0)));
    assert!(!r.is_in_spill((0, 1)));
}

#[test]
fn shared_formula_rewrite_relative() {
    // master formula =A1 at A1, shared over rows one to three of column A;
    // the dependent at A3 reconstructs to =A3
    let events = vec![
        start("sheetData", vec![]),
        start("row", vec![attr("r", "1")]),
        start("c", vec![attr("r", "A1")]),
        start("f", vec![attr("t", "shared"), attr("si", "0"), attr("ref", "A1:A3")]),
        text("=A1"),
        end("f"),
        end("c"),
        end("row"),
        start("row", vec![attr("r", "3")]),
        start("c", vec![attr("r", "A3")]),
        empty("f", vec![attr("t", "shared"), attr("si", "0")]),
        end("c"),
        end("row"),
        end("sheetData"),
    ];
    let mut r = reader_over(events);
    let master = r.next_formula().unwrap().unwrap();
    assert_eq!(master.pos, (0, 0));
    assert_eq!(master.val, "=A1");
    let dependent = r.next_formula().unwrap().unwrap();
    assert_eq!(dependent.pos, (2, 0));
    assert_eq!(dependent.val, "=A3");
    assert!(r.next_formula().unwrap().is_none());
}

#[test]
fn shared_formula_rewrite_absolute_lock() {
    // master formula =$A$1+B1 at B1; the dependent at B3 has delta (2, 0),
    // so the locked reference stays and the relative one shifts rows only
    let events = vec![
        start("sheetData", vec![]),
        start("row", vec![attr("r", "1")]),
        start("c", vec![attr("r", "B1")]),
        start("f", vec![attr("t", "shared"), attr("si", "0"), attr("ref", "B1:B3")]),
        text("=$A$1+B1"),
        end("f"),
        end("c"),
        end("row"),
        start("row", vec![attr("r", "3")]),
        start("c", vec![attr("r", "B3")]),
        start("f", vec![attr("t", "shared"), attr("si", "0")]),
        end("f"),
        end("c"),
        end("row"),
        end("sheetData"),
    ];
    let mut r = reader_over(events);
    assert_eq!(r.next_formula().unwrap().unwrap().val, "=$A$1+B1");
    assert_eq!(r.next_formula().unwrap().unwrap().val, "=$A$1+B3");
}

#[test]
fn dependent_outside_declared_range_yields_empty_text() {
    let events = vec![
        start("sheetData", vec![]),
        start("row", vec![attr("r", "1")]),
        start("c", vec![attr("r", "A1")]),
        start("f", vec![attr("t", "shared"), attr("si", "0"), attr("ref", "A1:A2")]),
        text("=B1"),
        end("f"),
        end("c"),
        end("row"),
        start("row", vec![attr("r", "9")]),
        start("c", vec![attr("r", "A9")]),
        empty("f", vec![attr("t", "shared"), attr("si", "0")]),
        end("c"),
        end("row"),
        end("sheetData"),
    ];
    let mut r = reader_over(events);
    assert_eq!(r.next_formula().unwrap().unwrap().val, "=B1");
    assert_eq!(r.next_formula().unwrap().unwrap().val, "");
}

#[test]
fn formula_pass_records_array_rectangles() {
    let events = vec![
        start("sheetData", vec![]),
        start("row", vec![attr("r", "1")]),
        start("c", vec![attr("r", "A1")]),
        start("f", vec![attr("t", "array"), attr("ref", "A1:B2")]),
        text("SEQUENCE(2,2)"),
        end("f"),
        end("c"),
        end("row"),
        end("sheetData"),
    ];
    let mut r = reader_over(events);
    assert_eq!(r.next_formula().unwrap().unwrap().val, "SEQUENCE(2,2)");
    assert!(r.is_in_spill((1, 1)));
    assert!(!r.is_in_spill((2, 0)));
}

#[test]
fn shared_range_is_not_a_spill_rectangle() {
    let events = vec![
        start("sheetData", vec![]),
        start("row", vec![attr("r", "1")]),
        start("c", vec![attr("r", "A1")]),
        start("f", vec![attr("t", "shared"), attr("si", "0"), attr("ref", "A1:A3")]),
        text("=B1"),
        end("f"),
        end("c"),
        end("row"),
        end("sheetData"),
    ];
    let mut r = reader_over(events);
    assert_eq!(r.next_formula().unwrap().unwrap().val, "=B1");
    assert!(!r.is_in_spill((0, 0)));
    assert!(!r.is_in_spill((1, 0)));
}

#[test]
fn shared_formula_without_index_is_fatal() {
    let events = vec![
        start("sheetData", vec![]),
        start("row", vec![attr("r", "1")]),
        start("c", vec![attr("r", "A1")]),
        start("f", vec![attr("t", "shared"), attr("ref", "A1:A2")]),
        text("=B1"),
        end("f"),
        end("c"),
        end("row"),
        end("sheetData"),
    ];
    let mut r = reader_over(events);
    assert_eq!(r.next_formula(), Err(DecodeError::MissingSharedIndex));
}

#[test]
fn shared_formula_bad_index_is_fatal() {
    let events = vec![
        start("sheetData", vec![]),
        start("row", vec![attr("r", "1")]),
        start("c", vec![attr("r", "A1")]),
        start("f", vec![attr("t", "shared"), attr("si", "x"), attr("ref", "A1:A2")]),
        text("=B1"),
        end("f"),
        end("c"),
        end("row"),
        end("sheetData"),
    ];
    let mut r = reader_over(events);
    assert_eq!(r.next_formula(), Err(DecodeError::BadSharedIndex));
}

#[test]
fn unexpected_cell_child_is_fatal() {
    let events = vec![
        start("sheetData", vec![]),
        start("row", vec![attr("r", "1")]),
        start("c", vec![attr("r", "A1")]),
        start("x", vec![]),
        end("x"),
        end("c"),
        end("row"),
        end("sheetData"),
    ];
    let mut r = reader_over(events);
    assert_eq!(
        r.next_cell(),
        Err(DecodeError::UnexpectedNode("v, f, or is".to_string()))
    );
}

#[test]
fn truncated_stream_is_fatal() {
    let events = vec![
        start("sheetData", vec![]),
        start("row", vec![attr("r", "1")]),
        start("c", vec![attr("r", "A1")]),
    ];
    let mut r = reader_over(events);
    assert_eq!(r.next_cell(), Err(DecodeError::UnexpectedEof("c".to_string())));
}

#[test]
fn row_counter_overflow_is_fatal() {
    // the last representable row, then two row ends
    let events = vec![
        start("sheetData", vec![]),
        start("row", vec![attr("r", "4294967295")]),
        end("row"),
        start("row", vec![]),
        end("row"),
        end("sheetData"),
    ];
    let mut r = reader_over(events);
    assert_eq!(r.next_cell(), Err(DecodeError::CounterOverflow));
}

#[test]
fn not_a_worksheet() {
    let events = vec![start("chartSpace", vec![]), end("chartSpace")];
    let r = XlsxCellReader::new(events, Vec::new(), Vec::new(), false);
    assert!(matches!(r, Err(DecodeError::NotAWorksheet(t)) if t == "chartSpace"));
}

#[test]
fn missing_dimension_attribute_is_fatal() {
    let events = vec![start("dimension", vec![])];
    let r = XlsxCellReader::new(events, Vec::new(), Vec::new(), false);
    assert_eq!(r.err(), Some(DecodeError::UnexpectedNode("dimension".to_string())));
}

#[test]
fn row_and_column_metadata_sparsity() {
    // no explicit row or column overrides: both collections stay empty,
    // even though every row and column has an effective default size
    let mut r = reader_over(simple_sheet());
    while r.next_cell().unwrap().is_some() {}
    assert_eq!(r.column_widths().column_definitions.len(), 0);
    assert_eq!(r.row_definitions().row_definitions.len(), 0);
}

#[test]
fn deviating_rows_and_columns_are_retained() {
    let events = vec![
        start("sheetFormatPr", vec![attr("defaultColWidth", "8.43"), attr("baseColWidth", "8"), attr("defaultRowHeight", "15")]),
        end("sheetFormatPr"),
        start("cols", vec![]),
        empty("col", vec![attr("min", "2"), attr("max", "4"), attr("width", "12.5"), attr("customWidth", "1")]),
        end("cols"),
        start("sheetData", vec![]),
        start("row", vec![attr("r", "1"), attr("ht", "30"), attr("customHeight", "true")]),
        start("c", vec![attr("r", "A1")]),
        start("v", vec![]),
        text("1"),
        end("v"),
        end("c"),
        end("row"),
        start("row", vec![attr("r", "2")]),
        start("c", vec![attr("r", "A2")]),
        start("v", vec![]),
        text("2"),
        end("v"),
        end("c"),
        end("row"),
        end("sheetData"),
    ];
    let mut r = reader_over(events);
    while r.next_cell().unwrap().is_some() {}

    let cw = r.column_widths();
    assert_eq!(cw.sheet_format.default_col_width.as_deref(), Some("8.43"));
    assert_eq!(cw.sheet_format.base_col_width, Some(8));
    assert_eq!(cw.sheet_format.default_row_height.as_deref(), Some("15"));
    assert_eq!(cw.column_definitions.len(), 1);
    let def = &cw.column_definitions[0];
    assert_eq!(def.min, 2);
    assert_eq!(def.max, 4);
    assert_eq!(def.width.as_deref(), Some("12.5"));
    assert_eq!(def.custom_width, Some(true));

    // only the first row deviates from the defaults
    let rd = r.row_definitions();
    assert_eq!(rd.row_definitions.len(), 1);
    assert_eq!(rd.row_definitions[0].r, 0);
    assert_eq!(rd.row_definitions[0].height.as_deref(), Some("30"));
    assert_eq!(rd.row_definitions[0].custom_height, Some(true));
    assert!(rd.find_definition_for_row(0).is_some());
    assert!(rd.find_definition_for_row(1).is_none());
}

#[test]
fn self_closing_preamble_elements_are_read() {
    let events = vec![
        empty("dimension", vec![attr("ref", "B2:C3")]),
        empty("sheetFormatPr", vec![attr("defaultRowHeight", "15")]),
        start("sheetData", vec![]),
        end("sheetData"),
    ];
    let mut r = reader_over(events);
    let d = r.dimensions();
    assert_eq!(d.start, (1, 1));
    assert_eq!(d.end, (2, 2));
    assert_eq!(
        r.row_definitions().sheet_format.default_row_height.as_deref(),
        Some("15")
    );
    assert!(r.next_cell().unwrap().is_none());
}

#[test]
fn last_dimension_element_wins() {
    let events = vec![
        start("dimension", vec![attr("ref", "A1:B2")]),
        end("dimension"),
        start("dimension", vec![attr("ref", "C3:D4")]),
        end("dimension"),
        start("sheetData", vec![]),
        end("sheetData"),
    ];
    let r = reader_over(events);
    let d = r.dimensions();
    assert_eq!(d.start, (2, 2));
    assert_eq!(d.end, (3, 3));
}

#[test]
fn empty_cell_data_region_ends_at_once() {
    let events = vec![empty("sheetData", vec![])];
    let mut r = reader_over(events);
    assert!(r.next_cell().unwrap().is_none());
}
