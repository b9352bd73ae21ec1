use sheetstream::pivot::{
    AggregationFunction, PivotCache, PivotSourceType, PivotTableCollection, PivotTableInfo,
};

fn info(name: &str, path: &str) -> PivotTableInfo {
    PivotTableInfo { name: name.to_string(), path: path.to_string(), cache_id: Some(1) }
}

fn cache(id: u32, range: &str) -> PivotCache {
    PivotCache {
        id,
        source_type: PivotSourceType::Worksheet,
        source_range: Some(range.to_string()),
        source_sheet: Some("Sales".to_string()),
        fields: Vec::new(),
        has_records: false,
    }
}

#[test]
fn aggregation_from_str() {
    assert_eq!(AggregationFunction::from_str("sum"), Some(AggregationFunction::Sum));
    assert_eq!(AggregationFunction::from_str("count"), Some(AggregationFunction::Count));
    assert_eq!(AggregationFunction::from_str("average"), Some(AggregationFunction::Average));
    assert_eq!(AggregationFunction::from_str("avg"), Some(AggregationFunction::Average));
    assert_eq!(AggregationFunction::from_str("max"), Some(AggregationFunction::Max));
    assert_eq!(AggregationFunction::from_str("min"), Some(AggregationFunction::Min));
    assert_eq!(AggregationFunction::from_str("product"), Some(AggregationFunction::Product));
    assert_eq!(AggregationFunction::from_str("countNums"), Some(AggregationFunction::CountNums));
    assert_eq!(AggregationFunction::from_str("stdDev"), Some(AggregationFunction::StdDev));
    assert_eq!(AggregationFunction::from_str("stdDevp"), Some(AggregationFunction::StdDevP));
    assert_eq!(AggregationFunction::from_str("var"), Some(AggregationFunction::Var));
    assert_eq!(AggregationFunction::from_str("varp"), Some(AggregationFunction::VarP));
    assert_eq!(AggregationFunction::from_str("SUM"), None);
    assert_eq!(AggregationFunction::from_str(""), None);
}

#[test]
fn collection_tracks_tables_by_sheet() {
    let mut c = PivotTableCollection::new();
    assert!(c.tables_in_sheet("Reports").is_none());
    c.add_table("Reports".to_string(), info("SalesSummary", "xl/pivotTables/pivotTable1.xml"));
    c.add_table("Reports".to_string(), info("Regions", "xl/pivotTables/pivotTable2.xml"));
    c.add_table("Other".to_string(), info("Third", "xl/pivotTables/pivotTable3.xml"));

    let names = c.table_names();
    assert_eq!(names, vec!["SalesSummary", "Regions", "Third"]);

    let reports = c.tables_in_sheet("Reports").unwrap();
    assert_eq!(reports.len(), 2);
    assert_eq!(reports[0].name, "SalesSummary");
    assert_eq!(reports[1].name, "Regions");
    assert_eq!(c.tables_in_sheet("Other").unwrap().len(), 1);
    assert!(c.tables_in_sheet("Missing").is_none());
}

#[test]
fn collection_replaces_cache_with_same_id() {
    let mut c = PivotTableCollection::new();
    c.add_cache(cache(1, "A1:D5"));
    c.add_cache(cache(2, "B2:C3"));
    c.add_cache(cache(1, "A1:Z9"));
    assert_eq!(c.caches.len(), 2);
    assert_eq!(c.caches[0].0, 1);
    assert_eq!(c.caches[0].1.source_range.as_deref(), Some("A1:Z9"));
    assert_eq!(c.caches[1].0, 2);
}
