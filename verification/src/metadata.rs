//! Per-column and per-row layout metadata captured from the worksheet
//! preamble and row elements. Only rows and columns that deviate from the
//! sheet defaults are retained.

use vstd::prelude::*;

verus! {

/// Raw per-column settings from a column element. Width text is kept
/// verbatim; it is stored only when it parses as a number.
#[derive(Debug, PartialEq)]
pub struct ColumnDefinition {
    /// First column affected, one-based.
    pub min: u32,
    /// Last column affected, one-based.
    pub max: u32,
    /// Column width as numeric text.
    pub width: Option<String>,
    /// Style index.
    pub style: Option<u32>,
    /// The width was set by hand.
    pub custom_width: Option<bool>,
    /// The width tracks the content.
    pub best_fit: Option<bool>,
    /// The column is hidden.
    pub hidden: Option<bool>,
    /// Outline level.
    pub outline_level: Option<u8>,
    /// The outline group is collapsed.
    pub collapsed: Option<bool>,
}

/// Copy an optional owned string.
fn clone_opt_string(o: &Option<String>) -> (r: Option<String>)
    ensures
        r == *o,
{
    match o {
        Some(s) => Some(s.clone()),
        None => None,
    }
}

impl Clone for ColumnDefinition {
    fn clone(&self) -> (r: Self)
        ensures
            r == *self,
    {
        ColumnDefinition {
            min: self.min,
            max: self.max,
            width: clone_opt_string(&self.width),
            style: self.style,
            custom_width: self.custom_width,
            best_fit: self.best_fit,
            hidden: self.hidden,
            outline_level: self.outline_level,
            collapsed: self.collapsed,
        }
    }
}

/// Raw sheet format defaults, captured once before cell data begins.
/// Width and height texts are kept verbatim; they are stored only when
/// they parse as numbers.
#[derive(Debug, Clone, PartialEq)]
pub struct SheetFormatProperties {
    /// Default column width as numeric text.
    pub default_col_width: Option<String>,
    /// Base column width.
    pub base_col_width: Option<u8>,
    /// Default row height as numeric text.
    pub default_row_height: Option<String>,
    /// Rows get a custom height by default.
    pub custom_height: Option<bool>,
    /// Rows start hidden by default.
    pub zero_height: Option<bool>,
    /// Rows carry a thick top border by default.
    pub thick_top: Option<bool>,
    /// Rows carry a thick bottom border by default.
    pub thick_bottom: Option<bool>,
    /// Default row outline level.
    pub outline_level_row: Option<u8>,
    /// Default column outline level.
    pub outline_level_col: Option<u8>,
}

/// No sheet format attribute is set.
pub open spec fn sheet_format_unset(f: SheetFormatProperties) -> bool {
    &&& f.default_col_width is None
    &&& f.base_col_width is None
    &&& f.default_row_height is None
    &&& f.custom_height is None
    &&& f.zero_height is None
    &&& f.thick_top is None
    &&& f.thick_bottom is None
    &&& f.outline_level_row is None
    &&& f.outline_level_col is None
}

impl Default for SheetFormatProperties {
    /// All attributes unset.
    fn default() -> (r: Self)
        ensures
            sheet_format_unset(r),
    {
        SheetFormatProperties {
            default_col_width: None,
            base_col_width: None,
            default_row_height: None,
            custom_height: None,
            zero_height: None,
            thick_top: None,
            thick_bottom: None,
            outline_level_row: None,
            outline_level_col: None,
        }
    }
}

/// The column definition covers the one-based column `col`.
pub open spec fn col_def_covers(d: ColumnDefinition, col: u32) -> bool {
    d.min <= col && col <= d.max
}

/// The subsequence of definitions covering `col`, in stored order.
pub open spec fn spec_covering(defs: Seq<ColumnDefinition>, col: u32) -> Seq<ColumnDefinition>
    decreases defs.len(),
{
    if defs.len() == 0 {
        Seq::empty()
    } else if col_def_covers(defs[0], col) {
        seq![defs[0]] + spec_covering(defs.drop_first(), col)
    } else {
        spec_covering(defs.drop_first(), col)
    }
}

/// Column definitions in document order, beside the sheet format defaults.
#[derive(Debug)]
pub struct ColumnWidths {
    /// Definitions as they appeared.
    pub column_definitions: Vec<ColumnDefinition>,
    /// Sheet format defaults.
    pub sheet_format: SheetFormatProperties,
}

impl Default for ColumnWidths {
    /// No definitions and no defaults.
    fn default() -> (r: Self)
        ensures
            r.column_definitions@.len() == 0,
            sheet_format_unset(r.sheet_format),
    {
        ColumnWidths { column_definitions: Vec::new(), sheet_format: Default::default() }
    }
}

impl ColumnWidths {
    /// An empty container.
    pub fn new() -> (r: Self)
        ensures
            r.column_definitions@.len() == 0,
            sheet_format_unset(r.sheet_format),
    {
        Default::default()
    }

    /// Append a column definition.
    pub fn add_column_definition(&mut self, def: ColumnDefinition)
        ensures
            final(self).column_definitions@ == old(self).column_definitions@.push(def),
            final(self).sheet_format == old(self).sheet_format,
    {
        self.column_definitions.push(def);
    }

    /// All definitions that cover the one-based column `col_index`, in
    /// stored order.
    pub fn find_definitions_for_column(&self, col_index: u32) -> (r: Vec<ColumnDefinition>)
        ensures
            r@ == spec_covering(self.column_definitions@, col_index),
    {
        let defs = &self.column_definitions;
        let n = defs.len();
        let mut out: Vec<ColumnDefinition> = Vec::new();
        let mut i: usize = 0;
        proof {
            assert(defs@.skip(0) =~= defs@);
        }
        while i < n
            invariant
                i <= n == defs@.len(),
                spec_covering(defs@, col_index) == out@ + spec_covering(
                    defs@.skip(i as int),
                    col_index,
                ),
            decreases n - i,
        {
            proof {
                assert(defs@.skip(i as int)[0] == defs@[i as int]);
                assert(defs@.skip(i as int).drop_first() =~= defs@.skip(i as int + 1));
            }
            let d = &defs[i];
            if d.min <= col_index && col_index <= d.max {
                out.push(d.clone());
                proof {
                    assert(out@ + spec_covering(defs@.skip(i as int + 1), col_index)
                        =~= spec_covering(defs@, col_index));
                }
            }
            i += 1;
        }
        proof {
            assert(out@ + spec_covering(defs@.skip(n as int), col_index) =~= out@);
        }
        out
    }
}

/// Raw per-row settings from a row element. Height text is kept verbatim;
/// it is stored only when it parses as a number.
#[derive(Debug, PartialEq)]
pub struct RowDefinition {
    /// Row index, zero-based, as the decoder counts rows.
    pub r: u32,
    /// Row height as numeric text.
    pub height: Option<String>,
    /// Style index.
    pub style: Option<u32>,
    /// The height was set by hand.
    pub custom_height: Option<bool>,
    /// The row is hidden.
    pub hidden: Option<bool>,
    /// Outline level.
    pub outline_level: Option<u8>,
    /// The outline group is collapsed.
    pub collapsed: Option<bool>,
    /// The row carries a thick top border.
    pub thick_top: Option<bool>,
    /// The row carries a thick bottom border.
    pub thick_bot: Option<bool>,
}

impl Clone for RowDefinition {
    fn clone(&self) -> (r: Self)
        ensures
            r == *self,
    {
        RowDefinition {
            r: self.r,
            height: clone_opt_string(&self.height),
            style: self.style,
            custom_height: self.custom_height,
            hidden: self.hidden,
            outline_level: self.outline_level,
            collapsed: self.collapsed,
            thick_top: self.thick_top,
            thick_bot: self.thick_bot,
        }
    }
}

impl RowDefinition {
    /// At least one attribute deviates from nothing-set; only such rows are
    /// worth retaining.
    pub open spec fn is_meaningful(self) -> bool {
        ||| self.height is Some
        ||| self.style is Some
        ||| self.custom_height == Some(true)
        ||| self.hidden == Some(true)
        ||| self.outline_level is Some
        ||| self.collapsed == Some(true)
        ||| self.thick_top == Some(true)
        ||| self.thick_bot == Some(true)
    }

    /// Whether at least one attribute deviates from nothing-set.
    pub fn meaningful(&self) -> (r: bool)
        ensures
            r == self.is_meaningful(),
    {
        self.height.is_some() || self.style.is_some() || self.custom_height == Some(true)
            || self.hidden == Some(true) || self.outline_level.is_some() || self.collapsed
            == Some(true) || self.thick_top == Some(true) || self.thick_bot == Some(true)
    }
}

/// The first definition stored for the zero-based row `row`, if any.
pub open spec fn spec_find_row(defs: Seq<RowDefinition>, row: u32) -> Option<RowDefinition>
    decreases defs.len(),
{
    if defs.len() == 0 {
        None
    } else if defs[0].r == row {
        Some(defs[0])
    } else {
        spec_find_row(defs.drop_first(), row)
    }
}

/// Row definitions in document order, beside the sheet format defaults.
#[derive(Debug)]
pub struct RowDefinitions {
    /// Definitions as they appeared.
    pub row_definitions: Vec<RowDefinition>,
    /// Sheet format defaults.
    pub sheet_format: SheetFormatProperties,
}

impl Default for RowDefinitions {
    /// No definitions and no defaults.
    fn default() -> (r: Self)
        ensures
            r.row_definitions@.len() == 0,
            sheet_format_unset(r.sheet_format),
    {
        RowDefinitions { row_definitions: Vec::new(), sheet_format: Default::default() }
    }
}

impl RowDefinitions {
    /// An empty container.
    pub fn new() -> (r: Self)
        ensures
            r.row_definitions@.len() == 0,
            sheet_format_unset(r.sheet_format),
    {
        Default::default()
    }

    /// Append a row definition.
    pub fn add_row_definition(&mut self, def: RowDefinition)
        ensures
            final(self).row_definitions@ == old(self).row_definitions@.push(def),
            final(self).sheet_format == old(self).sheet_format,
    {
        self.row_definitions.push(def);
    }

    /// The first definition stored for the zero-based row `row_index`.
    pub fn find_definition_for_row(&self, row_index: u32) -> (r: Option<RowDefinition>)
        ensures
            r == spec_find_row(self.row_definitions@, row_index),
    {
        let defs = &self.row_definitions;
        let n = defs.len();
        let mut i: usize = 0;
        proof {
            assert(defs@.skip(0) =~= defs@);
        }
        while i < n
            invariant
                i <= n == defs@.len(),
                defs@ == self.row_definitions@,
                spec_find_row(defs@, row_index) == spec_find_row(defs@.skip(i as int), row_index),
            decreases n - i,
        {
            proof {
                assert(defs@.skip(i as int)[0] == defs@[i as int]);
                assert(defs@.skip(i as int).drop_first() =~= defs@.skip(i as int + 1));
            }
            let d = &defs[i];
            if d.r == row_index {
                proof {
                    assert(spec_find_row(defs@.skip(i as int), row_index) == Some(
                        defs@[i as int],
                    ));
                }
                let cloned = d.clone();
                proof {
                    assert(cloned == defs@[i as int]);
                }
                return Some(cloned);
            }
            i += 1;
        }
        None
    }
}

} // verus!
