use sheetstream::metadata::{
    ColumnDefinition, ColumnWidths, RowDefinition, RowDefinitions,
};

#[test]
fn test_raw_storage() {
    let mut widths = ColumnWidths::new();
    widths.add_column_definition(ColumnDefinition {
        min: 1,
        max: 3,
        width: Some("10.5".to_string()),
        style: Some(1),
        custom_width: Some(true),
        best_fit: Some(false),
        hidden: None,
        outline_level: None,
        collapsed: None,
    });

    let defs = widths.find_definitions_for_column(2);
    assert_eq!(defs.len(), 1);
    assert_eq!(defs[0].width.as_deref().unwrap().parse::<f64>().unwrap(), 10.5);
}

#[test]
fn definitions_filter_by_column_bounds() {
    let mut widths = ColumnWidths::new();
    widths.add_column_definition(ColumnDefinition {
        min: 1,
        max: 2,
        width: Some("9".to_string()),
        style: None,
        custom_width: None,
        best_fit: None,
        hidden: None,
        outline_level: None,
        collapsed: None,
    });
    widths.add_column_definition(ColumnDefinition {
        min: 2,
        max: 5,
        width: Some("11".to_string()),
        style: None,
        custom_width: None,
        best_fit: None,
        hidden: None,
        outline_level: None,
        collapsed: None,
    });
    assert_eq!(widths.find_definitions_for_column(1).len(), 1);
    assert_eq!(widths.find_definitions_for_column(2).len(), 2);
    assert_eq!(widths.find_definitions_for_column(5).len(), 1);
    assert_eq!(widths.find_definitions_for_column(6).len(), 0);
}

#[test]
fn row_definitions_find_first_match() {
    let mut rows = RowDefinitions::new();
    let def = RowDefinition {
        r: 3,
        height: Some("22".to_string()),
        style: None,
        custom_height: Some(true),
        hidden: None,
        outline_level: None,
        collapsed: None,
        thick_top: None,
        thick_bot: None,
    };
    rows.add_row_definition(def);
    let found = rows.find_definition_for_row(3).unwrap();
    assert_eq!(found.height.as_deref(), Some("22"));
    assert!(rows.find_definition_for_row(4).is_none());
}
