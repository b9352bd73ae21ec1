//! Pivot-table metadata: the table, field, filter and cache descriptions a
//! workbook carries, and a collection addressing them by sheet and cache
//! identifier.

use vstd::prelude::*;

use crate::text::str_eq;
use crate::value::CellValue;

verus! {

/// A pivot table.
#[derive(Debug, PartialEq)]
pub struct PivotTable {
    /// The name of the pivot table.
    pub name: String,
    /// The sheet containing the pivot table.
    pub sheet_name: String,
    /// The location of the pivot table's top-left cell, zero-based.
    pub location: (u32, u32),
    /// The source data range, when internal to the workbook.
    pub source_range: Option<String>,
    /// The source sheet name, when internal to the workbook.
    pub source_sheet: Option<String>,
    /// The identifier of the pivot cache holding the data.
    pub cache_id: u32,
    /// All fields defined in the pivot table.
    pub fields: Vec<PivotField>,
    /// Indices of fields used as row fields.
    pub row_fields: Vec<u32>,
    /// Indices of fields used as column fields.
    pub column_fields: Vec<u32>,
    /// Data fields being aggregated.
    pub data_fields: Vec<PivotDataField>,
    /// Page and report filters.
    pub filters: Vec<PivotFilter>,
}

/// A field in a pivot table.
#[derive(Debug, Clone, PartialEq)]
pub struct PivotField {
    /// Field name.
    pub name: String,
    /// Field type.
    pub field_type: PivotFieldType,
    /// Field items: the unique values.
    pub items: Vec<String>,
    /// Field index in the cache.
    pub cache_index: Option<u32>,
}

/// Type of a pivot field.
#[derive(Debug, Clone, Copy, PartialEq, Eq, Structural)]
pub enum PivotFieldType {
    /// Row field.
    Row,
    /// Column field.
    Column,
    /// Page or filter field.
    Page,
    /// Data field.
    Data,
    /// Hidden field.
    Hidden,
}

/// A data field in a pivot table: a value being aggregated.
#[derive(Debug, Clone, PartialEq)]
pub struct PivotDataField {
    /// Name of the field.
    pub name: String,
    /// Source field index.
    pub field_index: u32,
    /// Aggregation function.
    pub aggregation: AggregationFunction,
    /// Custom display name for the data field.
    pub display_name: Option<String>,
}

/// Aggregation functions for pivot data fields.
#[derive(Debug, Clone, Copy, PartialEq, Eq, Structural)]
pub enum AggregationFunction {
    /// Sum of values.
    Sum,
    /// Count of values.
    Count,
    /// Average of values.
    Average,
    /// Maximum value.
    Max,
    /// Minimum value.
    Min,
    /// Product of values.
    Product,
    /// Count of numeric values.
    CountNums,
    /// Standard deviation of a sample.
    StdDev,
    /// Standard deviation of a population.
    StdDevP,
    /// Variance of a sample.
    Var,
    /// Variance of a population.
    VarP,
}

/// The aggregation function named by `s`, if any.
pub open spec fn spec_parse_aggregation(s: Seq<char>) -> Option<AggregationFunction> {
    if s == "sum"@ {
        Some(AggregationFunction::Sum)
    } else if s == "count"@ {
        Some(AggregationFunction::Count)
    } else if s == "average"@ || s == "avg"@ {
        Some(AggregationFunction::Average)
    } else if s == "max"@ {
        Some(AggregationFunction::Max)
    } else if s == "min"@ {
        Some(AggregationFunction::Min)
    } else if s == "product"@ {
        Some(AggregationFunction::Product)
    } else if s == "countNums"@ {
        Some(AggregationFunction::CountNums)
    } else if s == "stdDev"@ {
        Some(AggregationFunction::StdDev)
    } else if s == "stdDevp"@ {
        Some(AggregationFunction::StdDevP)
    } else if s == "var"@ {
        Some(AggregationFunction::Var)
    } else if s == "varp"@ {
        Some(AggregationFunction::VarP)
    } else {
        None
    }
}

impl AggregationFunction {
    /// Parse an aggregation function name.
    pub fn from_str(s: &str) -> (r: Option<Self>)
        ensures
            r == spec_parse_aggregation(s@),
    {
        if str_eq(s, "sum") {
            Some(Self::Sum)
        } else if str_eq(s, "count") {
            Some(Self::Count)
        } else if str_eq(s, "average") || str_eq(s, "avg") {
            Some(Self::Average)
        } else if str_eq(s, "max") {
            Some(Self::Max)
        } else if str_eq(s, "min") {
            Some(Self::Min)
        } else if str_eq(s, "product") {
            Some(Self::Product)
        } else if str_eq(s, "countNums") {
            Some(Self::CountNums)
        } else if str_eq(s, "stdDev") {
            Some(Self::StdDev)
        } else if str_eq(s, "stdDevp") {
            Some(Self::StdDevP)
        } else if str_eq(s, "var") {
            Some(Self::Var)
        } else if str_eq(s, "varp") {
            Some(Self::VarP)
        } else {
            None
        }
    }
}

/// A filter applied to a pivot table.
#[derive(Debug, Clone, PartialEq)]
pub struct PivotFilter {
    /// Field index being filtered.
    pub field_index: u32,
    /// Filter type.
    pub filter_type: PivotFilterType,
    /// Filter values.
    pub values: Vec<String>,
}

/// Type of a pivot filter.
#[derive(Debug, Clone, Copy, PartialEq, Eq, Structural)]
pub enum PivotFilterType {
    /// Specific values selected by hand.
    Manual,
    /// Label filter.
    Label,
    /// Value filter.
    Value,
    /// Date filter.
    Date,
}

/// A pivot cache holding the source data.
#[derive(Debug, Clone, PartialEq)]
pub struct PivotCache {
    /// Cache identifier.
    pub id: u32,
    /// Source type.
    pub source_type: PivotSourceType,
    /// Source range, for worksheet sources.
    pub source_range: Option<String>,
    /// Source sheet name, for worksheet sources.
    pub source_sheet: Option<String>,
    /// Cache field definitions.
    pub fields: Vec<PivotCacheField>,
    /// Whether the cache has records.
    pub has_records: bool,
}

/// Type of a pivot data source.
#[derive(Debug, Clone, Copy, PartialEq, Eq, Structural)]
pub enum PivotSourceType {
    /// A worksheet range.
    Worksheet,
    /// An external data source.
    External,
    /// A consolidation.
    Consolidation,
    /// A scenario.
    Scenario,
}

/// A field in a pivot cache.
#[derive(Debug, Clone, PartialEq)]
pub struct PivotCacheField {
    /// Field name.
    pub name: String,
    /// Field data type.
    pub data_type: PivotFieldDataType,
    /// Shared items: the unique values in the field.
    pub shared_items: Vec<CellValue>,
}

/// Data type of a pivot cache field.
#[derive(Debug, Clone, Copy, PartialEq, Eq, Structural)]
pub enum PivotFieldDataType {
    /// Text.
    String,
    /// Numbers.
    Number,
    /// Booleans.
    Boolean,
    /// Dates.
    Date,
    /// Error values.
    Error,
    /// A mixture.
    Mixed,
}

/// Basic information about a pivot table.
#[derive(Debug, PartialEq)]
pub struct PivotTableInfo {
    /// Pivot table name.
    pub name: String,
    /// Path to the pivot table definition within the container.
    pub path: String,
    /// Associated cache identifier.
    pub cache_id: Option<u32>,
}

impl Clone for PivotTableInfo {
    fn clone(&self) -> (r: Self)
        ensures
            r == *self,
    {
        PivotTableInfo {
            name: self.name.clone(),
            path: self.path.clone(),
            cache_id: self.cache_id,
        }
    }
}

/// First index in `cs` keyed by `id`, or the length.
pub open spec fn cache_key_index(cs: Seq<(u32, PivotCache)>, id: u32, i: int) -> int
    decreases cs.len() - i,
{
    if i < 0 || i >= cs.len() {
        cs.len() as int
    } else if cs[i].0 == id {
        i
    } else {
        cache_key_index(cs, id, i + 1)
    }
}

/// The table entries recorded for the sheet named `name`, in stored order.
pub open spec fn spec_tables_in(
    entries: Seq<(String, PivotTableInfo)>,
    name: Seq<char>,
) -> Seq<PivotTableInfo>
    decreases entries.len(),
{
    if entries.len() == 0 {
        Seq::empty()
    } else if entries[0].0@ == name {
        seq![entries[0].1] + spec_tables_in(entries.drop_first(), name)
    } else {
        spec_tables_in(entries.drop_first(), name)
    }
}

/// Metadata about the pivot tables of a workbook: table entries in
/// discovery order, each under its sheet's name, and caches under their
/// identifiers.
#[derive(Debug)]
pub struct PivotTableCollection {
    /// Table entries as (sheet name, table information), in discovery
    /// order.
    pub tables_by_sheet: Vec<(String, PivotTableInfo)>,
    /// Caches as (identifier, cache); an identifier appears at most once
    /// when built through this interface.
    pub caches: Vec<(u32, PivotCache)>,
}

impl Default for PivotTableCollection {
    /// An empty collection.
    fn default() -> (r: Self)
        ensures
            r.tables_by_sheet@.len() == 0,
            r.caches@.len() == 0,
    {
        PivotTableCollection { tables_by_sheet: Vec::new(), caches: Vec::new() }
    }
}

impl PivotTableCollection {
    /// A new empty collection.
    pub fn new() -> (r: Self)
        ensures
            r.tables_by_sheet@.len() == 0,
            r.caches@.len() == 0,
    {
        Default::default()
    }

    /// Record a pivot table under its sheet's name.
    pub fn add_table(&mut self, sheet_name: String, info: PivotTableInfo)
        ensures
            final(self).tables_by_sheet@ == old(self).tables_by_sheet@.push((sheet_name, info)),
            final(self).caches == old(self).caches,
    {
        self.tables_by_sheet.push((sheet_name, info));
    }

    /// Record a pivot cache under its identifier, replacing a cache already
    /// recorded under the same one.
    pub fn add_cache(&mut self, cache: PivotCache)
        ensures
            ({
                let cs = old(self).caches@;
                let i = cache_key_index(cs, cache.id, 0);
                if i < cs.len() {
                    final(self).caches@ == cs.update(i, (cache.id, cache))
                } else {
                    final(self).caches@ == cs.push((cache.id, cache))
                }
            }),
            final(self).tables_by_sheet == old(self).tables_by_sheet,
    {
        let n = self.caches.len();
        let id = cache.id;
        let mut i: usize = 0;
        while i < n
            invariant
                i <= n == self.caches@.len(),
                self.caches == old(self).caches,
                self.tables_by_sheet == old(self).tables_by_sheet,
                id == cache.id,
                cache_key_index(self.caches@, id, 0) == cache_key_index(self.caches@, id, i as int),
            decreases n - i,
        {
            if self.caches[i].0 == id {
                self.caches.set(i, (id, cache));
                return ;
            }
            i += 1;
        }
        self.caches.push((id, cache));
    }

    /// All recorded pivot table names, in discovery order.
    pub fn table_names(&self) -> (r: Vec<String>)
        ensures
            r@.len() == self.tables_by_sheet@.len(),
            forall|i: int|
                0 <= i < r@.len() ==> (#[trigger] r@[i])@ == self.tables_by_sheet@[i].1.name@,
    {
        let entries = &self.tables_by_sheet;
        let n = entries.len();
        let mut out: Vec<String> = Vec::new();
        let mut i: usize = 0;
        while i < n
            invariant
                i <= n == entries@.len(),
                entries@ == self.tables_by_sheet@,
                out@.len() == i,
                forall|j: int| 0 <= j < i ==> (#[trigger] out@[j])@ == entries@[j].1.name@,
            decreases n - i,
        {
            let name = entries[i].1.name.clone();
            out.push(name);
            i += 1;
        }
        out
    }

    /// The tables recorded for the sheet named `sheet_name`, in discovery
    /// order; a sheet with none recorded answers nothing.
    pub fn tables_in_sheet(&self, sheet_name: &str) -> (r: Option<Vec<PivotTableInfo>>)
        ensures
            ({
                let ts = spec_tables_in(self.tables_by_sheet@, sheet_name@);
                match r {
                    Some(v) => ts.len() > 0 && v@ == ts,
                    None => ts.len() == 0,
                }
            }),
    {
        let entries = &self.tables_by_sheet;
        let n = entries.len();
        let mut out: Vec<PivotTableInfo> = Vec::new();
        let mut i: usize = 0;
        proof {
            assert(entries@.skip(0) =~= entries@);
        }
        while i < n
            invariant
                i <= n == entries@.len(),
                entries@ == self.tables_by_sheet@,
                spec_tables_in(entries@, sheet_name@) == out@ + spec_tables_in(
                    entries@.skip(i as int),
                    sheet_name@,
                ),
            decreases n - i,
        {
            proof {
                assert(entries@.skip(i as int)[0] == entries@[i as int]);
                assert(entries@.skip(i as int).drop_first() =~= entries@.skip(i as int + 1));
            }
            if str_eq(entries[i].0.as_str(), sheet_name) {
                out.push(entries[i].1.clone());
                proof {
                    assert(out@ + spec_tables_in(entries@.skip(i as int + 1), sheet_name@)
                        =~= spec_tables_in(entries@, sheet_name@));
                }
            }
            i += 1;
        }
        proof {
            assert(out@ + spec_tables_in(entries@.skip(n as int), sheet_name@) =~= out@);
        }
        if out.len() == 0 {
            None
        } else {
            Some(out)
        }
    }
}

} // verus!
