use sheetstream::coord::Dimensions;
use sheetstream::formula::{replace_cell_names, SharedFormulaSlot, SharedFormulaTable};
use sheetstream::DecodeError;

#[test]
fn relative_reference_shifts_by_row_delta() {
    assert_eq!(replace_cell_names("=A1", (2, 0)).unwrap(), "=A3");
}

#[test]
fn absolute_lock_is_untouched() {
    assert_eq!(replace_cell_names("=$A$1+B1", (2, 0)).unwrap(), "=$A$1+B3");
}

#[test]
fn column_delta_shifts_letters() {
    assert_eq!(replace_cell_names("=A1", (0, 2)).unwrap(), "=C1");
    assert_eq!(replace_cell_names("=Z1", (0, 1)).unwrap(), "=AA1");
    assert_eq!(replace_cell_names("=AA1", (0, -1)).unwrap(), "=Z1");
}

#[test]
fn mixed_locks() {
    assert_eq!(replace_cell_names("=$A1+A$1", (1, 1)).unwrap(), "=$A2+B$1");
}

#[test]
fn range_endpoints_shift_independently() {
    assert_eq!(replace_cell_names("SUM(A1:B2)", (2, 1)).unwrap(), "SUM(B3:C4)");
}

#[test]
fn quoted_text_is_never_rewritten() {
    assert_eq!(
        replace_cell_names("=\"A1\"&B1", (2, 0)).unwrap(),
        "=\"A1\"&B3"
    );
    assert_eq!(
        replace_cell_names("=CONCAT(\"B2 and \",B2)", (0, 1)).unwrap(),
        "=CONCAT(\"B2 and \",C2)"
    );
}

#[test]
fn identifiers_pass_through() {
    // a name with more than three letters before its digits is no reference
    assert_eq!(replace_cell_names("=TOTAL1", (5, 5)).unwrap(), "=TOTAL1");
    // a reference-shaped token inside a longer identifier is left alone
    assert_eq!(replace_cell_names("=XA1B", (5, 5)).unwrap(), "=XA1B");
}

#[test]
fn shift_below_first_row_is_an_error() {
    assert_eq!(
        replace_cell_names("=A1", (-1, 0)),
        Err(DecodeError::ReferenceOutOfBounds)
    );
    assert_eq!(
        replace_cell_names("=A1", (0, -1)),
        Err(DecodeError::ReferenceOutOfBounds)
    );
    // a locked reference survives the same delta
    assert_eq!(replace_cell_names("=$A$1", (-1, -1)).unwrap(), "=$A$1");
}

#[test]
fn empty_formula_stays_empty() {
    assert_eq!(replace_cell_names("", (3, 3)).unwrap(), "");
}

#[test]
fn slot_table_stores_and_answers_offsets() {
    let mut table = SharedFormulaTable::new();
    let slot = SharedFormulaSlot {
        template: "=A1".to_string(),
        master: (0, 0),
        range: Dimensions { start: (0, 0), end: (2, 0) },
    };
    table.store(4, slot);
    // slots below the stored index stay empty
    assert!(table.get(0).is_none());
    assert!(table.get(3).is_none());
    assert!(table.get(5).is_none());
    let got = table.get(4).unwrap();
    assert_eq!(got.template, "=A1");
    // offsets exist exactly inside the shared rectangle
    assert_eq!(table.offset_for(4, (0, 0)), Some((0, 0)));
    assert_eq!(table.offset_for(4, (2, 0)), Some((2, 0)));
    assert_eq!(table.offset_for(4, (3, 0)), None);
    assert_eq!(table.offset_for(4, (0, 1)), None);
    assert_eq!(table.offset_for(0, (0, 0)), None);
}

#[test]
fn slot_table_replaces_at_same_index() {
    let mut table = SharedFormulaTable::new();
    table.store(
        0,
        SharedFormulaSlot {
            template: "=B2".to_string(),
            master: (1, 1),
            range: Dimensions { start: (1, 1), end: (1, 2) },
        },
    );
    table.store(
        0,
        SharedFormulaSlot {
            template: "=C3".to_string(),
            master: (2, 2),
            range: Dimensions { start: (2, 2), end: (2, 3) },
        },
    );
    assert_eq!(table.get(0).unwrap().template, "=C3");
    assert_eq!(table.offset_for(0, (2, 3)), Some((0, 1)));
}
