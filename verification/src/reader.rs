//! The worksheet streaming cell decoder: a forward-only pass over the
//! worksheet body that yields typed cell values, reconstructs shared
//! formulas, and records dynamic-array spill rectangles.

use vstd::prelude::*;

use crate::coord::{parse_cell_ref, parse_range, parse_row_number, spec_cell_ref_at, spec_parse_range, Dimensions};
use crate::events::{get_attribute, spec_attr, spec_bool_attr, XmlAttr, XmlEvent};
use crate::formula::{spec_rewrite, SharedFormulaSlot, SharedFormulaTable};
use crate::metadata::{ColumnDefinition, ColumnWidths, RowDefinition, RowDefinitions};
use crate::numbers::{parse_u32_text, parse_u8_text, parse_usize_text};
use crate::text::{
    digits_range, digits_value_range, is_numeric_text, numeric_text, str_eq,
};
use crate::value::{
    decode_value, spec_code_view, spec_decode_value, spec_format_of, CellFormat, CellStyle,
    CellValue, SpecCellValue, SpecDecoded,
};
use crate::DecodeError;

verus! {

/// One produced cell: a zero-based (row, column) position and a payload.
#[derive(Debug, PartialEq)]
pub struct Cell<T> {
    /// Zero-based (row, column).
    pub pos: (u32, u32),
    /// The payload.
    pub val: T,
}

impl<T> Cell<T> {
    /// Pair a position with a payload.
    pub fn new(pos: (u32, u32), val: T) -> (r: Self)
        ensures
            r.pos == pos,
            r.val == val,
    {
        Cell { pos, val }
    }
}

/// `a` begins `b`.
pub open spec fn seq_prefix<T>(a: Seq<T>, b: Seq<T>) -> bool {
    a.len() <= b.len() && (forall|j: int| 0 <= j < a.len() ==> a[j] == b[j])
}

/// Some recorded rectangle covers the position.
pub open spec fn spec_in_spill(spills: Seq<Dimensions>, pos: (u32, u32)) -> bool {
    exists|k: int| 0 <= k < spills.len() && spills[k].spec_contains(pos.0, pos.1)
}


/// The value of an attribute that parses as a 32-bit number, if both hold.
pub open spec fn spec_u32_attr(attrs: Seq<XmlAttr>, key: Seq<char>) -> Option<int> {
    match spec_attr(attrs, key) {
        Some(v) => if digits_range(v, 0, v.len() as int) && digits_value_range(
            v,
            0,
            v.len() as int,
        ) <= u32::MAX {
            Some(digits_value_range(v, 0, v.len() as int))
        } else {
            None
        },
        None => None,
    }
}

/// The value of an attribute that parses as an 8-bit number, if both hold.
pub open spec fn spec_u8_attr(attrs: Seq<XmlAttr>, key: Seq<char>) -> Option<int> {
    match spec_attr(attrs, key) {
        Some(v) => if digits_range(v, 0, v.len() as int) && digits_value_range(
            v,
            0,
            v.len() as int,
        ) <= u8::MAX {
            Some(digits_value_range(v, 0, v.len() as int))
        } else {
            None
        },
        None => None,
    }
}

/// The truth value of an attribute, if present.
pub open spec fn spec_bool_attr_opt(attrs: Seq<XmlAttr>, key: Seq<char>) -> Option<bool> {
    match spec_attr(attrs, key) {
        Some(v) => Some(spec_bool_attr(v)),
        None => None,
    }
}

/// The text of an attribute that reads as a number, if both hold.
pub open spec fn spec_numtext_attr(attrs: Seq<XmlAttr>, key: Seq<char>) -> Option<Seq<char>> {
    match spec_attr(attrs, key) {
        Some(v) => if is_numeric_text(v) {
            Some(v)
        } else {
            None
        },
        None => None,
    }
}

/// View of an optional owned string.
pub open spec fn opt_view(o: Option<String>) -> Option<Seq<char>> {
    match o {
        Some(t) => Some(t@),
        None => None,
    }
}

/// The rectangle a parsed range names, as the decoder stores it.
pub open spec fn dims_of(p: ((int, int), (int, int))) -> Dimensions {
    let a = p.0;
    let b = p.1;
    Dimensions { start: ((a.0 as u32), (a.1 as u32)), end: ((b.0 as u32), (b.1 as u32)) }
}

/// The spill rectangles after one formula element: unchanged unless the
/// element is array-tagged and carries a range, which is appended; absent
/// when that range is malformed.
pub open spec fn spec_spill_step(
    ty: Option<Seq<char>>,
    rf: Option<Seq<char>>,
    spills: Seq<Dimensions>,
) -> Option<Seq<Dimensions>> {
    match ty {
        Some(t) => if t == "array"@ {
            match rf {
                Some(rv) => match spec_parse_range(rv) {
                    Some(rect) => Some(spills.push(dims_of(rect))),
                    None => None,
                },
                None => Some(spills),
            }
        } else {
            Some(spills)
        },
        None => Some(spills),
    }
}

/// The style a cell element points at: nothing without a style attribute;
/// else the table entry at the attribute read as an index, an unreadable
/// one read as zero, out of range as nothing.
pub open spec fn spec_style_of(attrs: Seq<XmlAttr>, formats: Seq<CellStyle>) -> Option<CellStyle> {
    match spec_attr(attrs, "s"@) {
        Some(v) => {
            let id = crate::value::spec_shared_index(v);
            if id < formats.len() {
                Some(formats[id])
            } else {
                None
            }
        },
        None => None,
    }
}

/// The definition `d` holds exactly what the attribute list states for a
/// column element.
pub open spec fn col_def_matches(d: ColumnDefinition, attrs: Seq<XmlAttr>) -> bool {
    &&& d.min as int == match spec_u32_attr(attrs, "min"@) {
        Some(v) => v,
        None => 1,
    }
    &&& d.max as int == match spec_u32_attr(attrs, "max"@) {
        Some(v) => v,
        None => 1,
    }
    &&& (d.width is Some <==> spec_numtext_attr(attrs, "width"@) is Some)
    &&& (d.width is Some ==> Some(d.width->0@) == spec_numtext_attr(attrs, "width"@))
    &&& (d.style is Some <==> spec_u32_attr(attrs, "style"@) is Some)
    &&& (d.style is Some ==> Some(d.style->0 as int) == spec_u32_attr(attrs, "style"@))
    &&& d.custom_width == spec_bool_attr_opt(attrs, "customWidth"@)
    &&& d.best_fit == spec_bool_attr_opt(attrs, "bestFit"@)
    &&& d.hidden == spec_bool_attr_opt(attrs, "hidden"@)
    &&& (d.outline_level is Some <==> spec_u8_attr(attrs, "outlineLevel"@) is Some)
    &&& (d.outline_level is Some ==> Some(d.outline_level->0 as int) == spec_u8_attr(
        attrs,
        "outlineLevel"@,
    ))
    &&& d.collapsed == spec_bool_attr_opt(attrs, "collapsed"@)
}

/// The definition `d` holds exactly what the attribute list states for a
/// row element at the zero-based row `row`.
pub open spec fn row_def_matches(d: RowDefinition, row: u32, attrs: Seq<XmlAttr>) -> bool {
    &&& d.r == row
    &&& (d.height is Some <==> spec_numtext_attr(attrs, "ht"@) is Some)
    &&& (d.height is Some ==> Some(d.height->0@) == spec_numtext_attr(attrs, "ht"@))
    &&& (d.style is Some <==> spec_u32_attr(attrs, "s"@) is Some)
    &&& (d.style is Some ==> Some(d.style->0 as int) == spec_u32_attr(attrs, "s"@))
    &&& d.custom_height == spec_bool_attr_opt(attrs, "customHeight"@)
    &&& d.hidden == spec_bool_attr_opt(attrs, "hidden"@)
    &&& (d.outline_level is Some <==> spec_u8_attr(attrs, "outlineLevel"@) is Some)
    &&& (d.outline_level is Some ==> Some(d.outline_level->0 as int) == spec_u8_attr(
        attrs,
        "outlineLevel"@,
    ))
    &&& d.collapsed == spec_bool_attr_opt(attrs, "collapsed"@)
    &&& d.thick_top == spec_bool_attr_opt(attrs, "thickTop"@)
    &&& d.thick_bot == spec_bool_attr_opt(attrs, "thickBot"@)
}

/// The attribute list of a row element deviates from nothing-set, so its
/// definition is worth retaining.
pub open spec fn spec_row_meaningful(attrs: Seq<XmlAttr>) -> bool {
    ||| spec_numtext_attr(attrs, "ht"@) is Some
    ||| spec_u32_attr(attrs, "s"@) is Some
    ||| spec_bool_attr_opt(attrs, "customHeight"@) == Some(true)
    ||| spec_bool_attr_opt(attrs, "hidden"@) == Some(true)
    ||| spec_u8_attr(attrs, "outlineLevel"@) is Some
    ||| spec_bool_attr_opt(attrs, "collapsed"@) == Some(true)
    ||| spec_bool_attr_opt(attrs, "thickTop"@) == Some(true)
    ||| spec_bool_attr_opt(attrs, "thickBot"@) == Some(true)
}

/// Look up an attribute and parse it as a 32-bit number.
fn opt_u32_attr(attrs: &Vec<XmlAttr>, key: &str) -> (r: Option<u32>)
    ensures
        r is Some <==> spec_u32_attr(attrs@, key@) is Some,
        r is Some ==> Some(r->0 as int) == spec_u32_attr(attrs@, key@),
{
    match get_attribute(attrs, key) {
        Some(v) => parse_u32_text(v.as_str()),
        None => None,
    }
}

/// Look up an attribute and parse it as an 8-bit number.
fn opt_u8_attr(attrs: &Vec<XmlAttr>, key: &str) -> (r: Option<u8>)
    ensures
        r is Some <==> spec_u8_attr(attrs@, key@) is Some,
        r is Some ==> Some(r->0 as int) == spec_u8_attr(attrs@, key@),
{
    match get_attribute(attrs, key) {
        Some(v) => parse_u8_text(v.as_str()),
        None => None,
    }
}

/// Look up an attribute and read it as a truth value.
fn opt_bool_attr(attrs: &Vec<XmlAttr>, key: &str) -> (r: Option<bool>)
    ensures
        r == spec_bool_attr_opt(attrs@, key@),
{
    match get_attribute(attrs, key) {
        Some(v) => Some(crate::events::bool_attr(v.as_str())),
        None => None,
    }
}

/// Look up an attribute and keep its text when it reads as a number.
fn opt_numtext_attr(attrs: &Vec<XmlAttr>, key: &str) -> (r: Option<String>)
    ensures
        r is Some <==> spec_numtext_attr(attrs@, key@) is Some,
        r is Some ==> Some(r->0@) == spec_numtext_attr(attrs@, key@),
{
    match get_attribute(attrs, key) {
        Some(v) => {
            if numeric_text(v.as_str()) {
                Some(v)
            } else {
                None
            }
        },
        None => None,
    }
}

/// Read a column element's attributes into a definition; absent or
/// unreadable bounds default to column one.
fn parse_col_definition(attrs: &Vec<XmlAttr>) -> (r: ColumnDefinition)
    ensures
        col_def_matches(r, attrs@),
{
    ColumnDefinition {
        min: match opt_u32_attr(attrs, "min") {
            Some(v) => v,
            None => 1,
        },
        max: match opt_u32_attr(attrs, "max") {
            Some(v) => v,
            None => 1,
        },
        width: opt_numtext_attr(attrs, "width"),
        style: opt_u32_attr(attrs, "style"),
        custom_width: opt_bool_attr(attrs, "customWidth"),
        best_fit: opt_bool_attr(attrs, "bestFit"),
        hidden: opt_bool_attr(attrs, "hidden"),
        outline_level: opt_u8_attr(attrs, "outlineLevel"),
        collapsed: opt_bool_attr(attrs, "collapsed"),
    }
}

/// Read a row element's attributes into a definition for row `row`.
fn parse_row_definition(attrs: &Vec<XmlAttr>, row: u32) -> (r: RowDefinition)
    ensures
        row_def_matches(r, row, attrs@),
{
    RowDefinition {
        r: row,
        height: opt_numtext_attr(attrs, "ht"),
        style: opt_u32_attr(attrs, "s"),
        custom_height: opt_bool_attr(attrs, "customHeight"),
        hidden: opt_bool_attr(attrs, "hidden"),
        outline_level: opt_u8_attr(attrs, "outlineLevel"),
        collapsed: opt_bool_attr(attrs, "collapsed"),
        thick_top: opt_bool_attr(attrs, "thickTop"),
        thick_bot: opt_bool_attr(attrs, "thickBot"),
    }
}

/// Index just past the end of the element named `name`, read from `i` with
/// the element's start already consumed and `depth` same-named levels still
/// open; absent when the events end first.
pub open spec fn spec_skip(events: Seq<XmlEvent>, i: int, name: Seq<char>, depth: int) -> Option<
    int,
>
    decreases events.len() - i,
{
    if i < 0 || i >= events.len() {
        None
    } else {
        match events[i] {
            XmlEvent::Start { name: n2, attrs } => spec_skip(
                events,
                i + 1,
                name,
                if n2@ == name && depth < usize::MAX as int {
                    depth + 1
                } else {
                    depth
                },
            ),
            XmlEvent::End { name: n2 } => if n2@ == name {
                if depth == 1 {
                    Some(i + 1)
                } else {
                    spec_skip(events, i + 1, name, depth - 1)
                }
            } else {
                spec_skip(events, i + 1, name, depth)
            },
            _ => spec_skip(events, i + 1, name, depth),
        }
    }
}

pub proof fn lemma_skip_bounds(events: Seq<XmlEvent>, i: int, name: Seq<char>, depth: int)
    ensures
        spec_skip(events, i, name, depth) matches Some(p) ==> i < p <= events.len(),
    decreases events.len() - i,
{
    if 0 <= i < events.len() {
        match events[i] {
            XmlEvent::Start { name: n2, attrs } => {
                lemma_skip_bounds(
                    events,
                    i + 1,
                    name,
                    if n2@ == name && depth < usize::MAX as int {
                        depth + 1
                    } else {
                        depth
                    },
                );
            },
            XmlEvent::End { name: n2 } => {
                lemma_skip_bounds(events, i + 1, name, depth - 1);
                lemma_skip_bounds(events, i + 1, name, depth);
            },
            _ => {
                lemma_skip_bounds(events, i + 1, name, depth);
            },
        }
    }
}

/// Consume events until just past the end of the element named `name`
/// whose start was already consumed, minding same-named nesting.
fn skip_element(events: &Vec<XmlEvent>, ptr: &mut usize, name: &str) -> (r: Result<
    (),
    DecodeError,
>)
    requires
        *old(ptr) <= events@.len(),
    ensures
        *old(ptr) <= *final(ptr) <= events@.len(),
        r is Ok ==> *final(ptr) > *old(ptr),
        match spec_skip(events@, *old(ptr) as int, name@, 1) {
            Some(p) => r is Ok && *final(ptr) == p,
            None => r is Err && (r->Err_0 matches DecodeError::UnexpectedEof(m) && m@ == name@),
        },
{
    let n = events.len();
    let mut depth: usize = 1;
    while *ptr < n
        invariant
            *old(ptr) <= *ptr <= n == events@.len(),
            depth >= 1,
            spec_skip(events@, *old(ptr) as int, name@, 1) == spec_skip(
                events@,
                *ptr as int,
                name@,
                depth as int,
            ),
        decreases n - *ptr,
    {
        let done = match &events[*ptr] {
            XmlEvent::Start { name: n2, attrs: _ } => {
                if str_eq(n2.as_str(), name) && depth < usize::MAX {
                    depth += 1;
                }
                false
            },
            XmlEvent::End { name: n2 } => {
                if str_eq(n2.as_str(), name) {
                    if depth == 1 {
                        true
                    } else {
                        depth -= 1;
                        false
                    }
                } else {
                    false
                }
            },
            _ => false,
        };
        *ptr += 1;
        if done {
            return Ok(());
        }
    }
    Err(DecodeError::UnexpectedEof(name.to_owned()))
}

/// The concatenated text up to the end of the element named `name`, read
/// from `i` with the element's start already consumed, and the index just
/// past that end; absent when the events end first.
pub open spec fn spec_collect_text(events: Seq<XmlEvent>, i: int, name: Seq<char>) -> Option<
    (Seq<char>, int),
>
    decreases events.len() - i,
{
    if i < 0 || i >= events.len() {
        None
    } else {
        match events[i] {
            XmlEvent::Text { content } => match spec_collect_text(events, i + 1, name) {
                Some(t) => Some((content@ + t.0, t.1)),
                None => None,
            },
            XmlEvent::End { name: n2 } => if n2@ == name {
                Some((Seq::empty(), i + 1))
            } else {
                spec_collect_text(events, i + 1, name)
            },
            _ => spec_collect_text(events, i + 1, name),
        }
    }
}

pub proof fn lemma_collect_text_bounds(events: Seq<XmlEvent>, i: int, name: Seq<char>)
    ensures
        spec_collect_text(events, i, name) matches Some(t) ==> i < t.1 <= events.len(),
    decreases events.len() - i,
{
    if 0 <= i < events.len() {
        lemma_collect_text_bounds(events, i + 1, name);
    }
}

/// Concatenate the text events up to the end of the element named `name`
/// whose start was already consumed.
fn collect_text(events: &Vec<XmlEvent>, ptr: &mut usize, name: &str) -> (r: Result<
    String,
    DecodeError,
>)
    requires
        *old(ptr) <= events@.len(),
    ensures
        *old(ptr) <= *final(ptr) <= events@.len(),
        r is Ok ==> *final(ptr) > *old(ptr),
        match spec_collect_text(events@, *old(ptr) as int, name@) {
            Some(t) => r matches Ok(text) && text@ == t.0 && *final(ptr) == t.1,
            None => r is Err && (r->Err_0 matches DecodeError::UnexpectedEof(m) && m@ == name@),
        },
{
    let n = events.len();
    let mut out = String::new();
    while *ptr < n
        invariant
            *old(ptr) <= *ptr <= n == events@.len(),
            match spec_collect_text(events@, *ptr as int, name@) {
                Some(t) => spec_collect_text(events@, *old(ptr) as int, name@) == Some(
                    (out@ + t.0, t.1),
                ),
                None => spec_collect_text(events@, *old(ptr) as int, name@) is None,
            },
        decreases n - *ptr,
    {
        let ghost at: int = *ptr as int;
        let ghost out0 = out@;
        let done = match &events[*ptr] {
            XmlEvent::Text { content } => {
                out.append(content.as_str());
                proof {
                    let nxt = spec_collect_text(events@, at + 1, name@);
                    if nxt is Some {
                        let t = nxt->0;
                        assert(out0 + (events@[at]->Text_content@ + t.0) =~= out@ + t.0);
                    }
                }
                false
            },
            XmlEvent::End { name: n2 } => str_eq(n2.as_str(), name),
            _ => false,
        };
        *ptr += 1;
        if done {
            proof {
                assert(out@ + Seq::<char>::empty() =~= out@);
            }
            return Ok(out);
        }
    }
    Err(DecodeError::UnexpectedEof(name.to_owned()))
}

/// The text, run-seen flag, and end index of an inline-string element read
/// from `i` with the element's start already consumed: `depth` levels are
/// open, `in_t` says a text run is open, and `text` and `found` hold what
/// was gathered so far; absent when the events end first.
pub open spec fn spec_inline(
    events: Seq<XmlEvent>,
    i: int,
    depth: int,
    in_t: bool,
    text: Seq<char>,
    found: bool,
) -> Option<(Seq<char>, bool, int)>
    decreases events.len() - i,
{
    if i < 0 || i >= events.len() {
        None
    } else {
        match events[i] {
            XmlEvent::Start { name: n2, attrs } => spec_inline(
                events,
                i + 1,
                if depth < usize::MAX as int {
                    depth + 1
                } else {
                    depth
                },
                if n2@ == "t"@ {
                    true
                } else {
                    in_t
                },
                text,
                found || n2@ == "t"@,
            ),
            XmlEvent::End { name: n2 } => if depth == 1 {
                Some((text, found, i + 1))
            } else {
                spec_inline(
                    events,
                    i + 1,
                    depth - 1,
                    if n2@ == "t"@ {
                        false
                    } else {
                        in_t
                    },
                    text,
                    found,
                )
            },
            XmlEvent::Empty { name: n2, attrs } => spec_inline(
                events,
                i + 1,
                depth,
                in_t,
                text,
                found || n2@ == "t"@,
            ),
            XmlEvent::Text { content } => spec_inline(
                events,
                i + 1,
                depth,
                in_t,
                if in_t {
                    text + content@
                } else {
                    text
                },
                found,
            ),
        }
    }
}

pub proof fn lemma_inline_bounds(
    events: Seq<XmlEvent>,
    i: int,
    depth: int,
    in_t: bool,
    text: Seq<char>,
    found: bool,
)
    ensures
        spec_inline(events, i, depth, in_t, text, found) matches Some(t) ==> i < t.2
            <= events.len(),
    decreases events.len() - i,
{
    if 0 <= i < events.len() {
        match events[i] {
            XmlEvent::Start { name: n2, attrs } => {
                lemma_inline_bounds(
                    events,
                    i + 1,
                    if depth < usize::MAX as int {
                        depth + 1
                    } else {
                        depth
                    },
                    if n2@ == "t"@ {
                        true
                    } else {
                        in_t
                    },
                    text,
                    found || n2@ == "t"@,
                );
            },
            XmlEvent::End { name: n2 } => {
                lemma_inline_bounds(
                    events,
                    i + 1,
                    depth - 1,
                    if n2@ == "t"@ {
                        false
                    } else {
                        in_t
                    },
                    text,
                    found,
                );
            },
            XmlEvent::Empty { name: n2, attrs } => {
                lemma_inline_bounds(events, i + 1, depth, in_t, text, found || n2@ == "t"@);
            },
            XmlEvent::Text { content } => {
                lemma_inline_bounds(
                    events,
                    i + 1,
                    depth,
                    in_t,
                    if in_t {
                        text + content@
                    } else {
                        text
                    },
                    found,
                );
            },
        }
    }
}

/// Concatenate the text runs nested in an inline-string element whose start
/// was already consumed; the flag reports whether any run element was seen.
fn read_inline_string(events: &Vec<XmlEvent>, ptr: &mut usize) -> (r: Result<
    (String, bool),
    DecodeError,
>)
    requires
        *old(ptr) <= events@.len(),
    ensures
        *old(ptr) <= *final(ptr) <= events@.len(),
        r is Ok ==> *final(ptr) > *old(ptr),
        match spec_inline(events@, *old(ptr) as int, 1, false, Seq::empty(), false) {
            Some(t) => r matches Ok(v) && v.0@ == t.0 && v.1 == t.1 && *final(ptr) == t.2,
            None => r is Err && (r->Err_0 matches DecodeError::UnexpectedEof(m) && m@ == "is"@),
        },
{
    proof {
        reveal_strlit("t");
        assert("t"@ =~= seq!['t']);
    }
    let n = events.len();
    let mut out = String::new();
    let mut found = false;
    let mut depth: usize = 1;
    let mut in_t = false;
    while *ptr < n
        invariant
            *old(ptr) <= *ptr <= n == events@.len(),
            depth >= 1,
            spec_inline(events@, *old(ptr) as int, 1, false, Seq::empty(), false) == spec_inline(
                events@,
                *ptr as int,
                depth as int,
                in_t,
                out@,
                found,
            ),
        decreases n - *ptr,
    {
        let done = match &events[*ptr] {
            XmlEvent::Start { name: n2, attrs: _ } => {
                if depth < usize::MAX {
                    depth += 1;
                }
                if str_eq(n2.as_str(), "t") {
                    in_t = true;
                    found = true;
                }
                false
            },
            XmlEvent::End { name: n2 } => {
                if str_eq(n2.as_str(), "t") {
                    in_t = false;
                }
                if depth == 1 {
                    true
                } else {
                    depth -= 1;
                    false
                }
            },
            XmlEvent::Empty { name: n2, attrs: _ } => {
                if str_eq(n2.as_str(), "t") {
                    found = true;
                }
                false
            },
            XmlEvent::Text { content } => {
                if in_t {
                    out.append(content.as_str());
                }
                false
            },
        };
        *ptr += 1;
        if done {
            return Ok((out, found));
        }
    }
    Err(DecodeError::UnexpectedEof("is".to_owned()))
}

/// Ghost failure of a pull, naming the error the decoder raises.
pub enum SpecPullErr {
    /// The events ended inside the named element.
    Eof(Seq<char>),
    /// An element appeared where it is not allowed.
    Node(Seq<char>),
    /// A range or reference text did not parse.
    Malformed,
    /// A counter left the representable range.
    Overflow,
    /// A shared formula carried no shared-index attribute.
    MissingIndex,
    /// A shared-index attribute was not a number.
    BadIndex,
    /// A rewrite shifted a reference below row or column one.
    OutOfBounds,
    /// Value decoding failed with the given outcome.
    Decode(SpecDecoded),
}

/// The raised error is the one the ghost failure names.
pub open spec fn err_matches(e: DecodeError, m: SpecPullErr) -> bool {
    match m {
        SpecPullErr::Eof(n) => e matches DecodeError::UnexpectedEof(s) && s@ == n,
        SpecPullErr::Node(n) => e matches DecodeError::UnexpectedNode(s) && s@ == n,
        SpecPullErr::Malformed => e == DecodeError::MalformedRange,
        SpecPullErr::Overflow => e == DecodeError::CounterOverflow,
        SpecPullErr::MissingIndex => e == DecodeError::MissingSharedIndex,
        SpecPullErr::BadIndex => e == DecodeError::BadSharedIndex,
        SpecPullErr::OutOfBounds => e == DecodeError::ReferenceOutOfBounds,
        SpecPullErr::Decode(d) => match d {
            SpecDecoded::ErrUnknownType(c) => e matches DecodeError::UnknownCellType(s) && s@
                == c,
            SpecDecoded::ErrNumeric => e == DecodeError::NumericParse,
            SpecDecoded::ErrSharedString(i) => e matches DecodeError::SharedStringOutOfRange(j)
                && j as int == i,
            SpecDecoded::ErrBadLiteral(t) => e matches DecodeError::UnknownErrorLiteral(s) && s@
                == t,
            SpecDecoded::ErrInlineType => e matches DecodeError::UnexpectedNode(s) && s@
                == "v"@,
            SpecDecoded::Value(_) => false,
        },
    }
}

/// Ghost outcome of one walk over a cell element's children.
pub enum SpecBodyOut {
    /// The cell's end was consumed: the decoded value, whether a formula
    /// child stood in the cell, the cursor after, and the spill rectangles.
    Done { value: SpecCellValue, had_formula: bool, ptr: int, spills: Seq<Dimensions> },
    /// Decoding failed.
    Fail(SpecPullErr),
}

/// Walk the children of a cell element from `i`, the cell's start already
/// consumed: a value element decodes its text under the cell's type code
/// and format class, an inline-string element collects its runs, a formula
/// element records an array rectangle, leaves the value empty and raises
/// the had-formula flag, and the cell's end yields what was gathered.
pub open spec fn spec_cell_body(
    events: Seq<XmlEvent>,
    i: int,
    ty: Option<Seq<char>>,
    fmt: CellFormat,
    strings: Seq<Seq<char>>,
    value: SpecCellValue,
    had: bool,
    spills: Seq<Dimensions>,
) -> SpecBodyOut
    decreases events.len() - i,
    via spec_cell_body_dec
{
    if i < 0 || i >= events.len() {
        SpecBodyOut::Fail(SpecPullErr::Eof("c"@))
    } else {
        match events[i] {
            XmlEvent::Start { name, attrs } => if name@ == "f"@ {
                match spec_spill_step(spec_attr(attrs@, "t"@), spec_attr(attrs@, "ref"@), spills) {
                    Some(sp) => match spec_skip(events, i + 1, "f"@, 1) {
                        Some(p) => spec_cell_body(
                            events,
                            p,
                            ty,
                            fmt,
                            strings,
                            SpecCellValue::Empty,
                            true,
                            sp,
                        ),
                        None => SpecBodyOut::Fail(SpecPullErr::Eof("f"@)),
                    },
                    None => SpecBodyOut::Fail(SpecPullErr::Malformed),
                }
            } else if name@ == "v"@ {
                match spec_collect_text(events, i + 1, "v"@) {
                    Some(t) => match spec_decode_value(t.0, ty, fmt, strings) {
                        SpecDecoded::Value(m) => spec_cell_body(
                            events,
                            t.1,
                            ty,
                            fmt,
                            strings,
                            m,
                            had,
                            spills,
                        ),
                        e => SpecBodyOut::Fail(SpecPullErr::Decode(e)),
                    },
                    None => SpecBodyOut::Fail(SpecPullErr::Eof("v"@)),
                }
            } else if name@ == "is"@ {
                match spec_inline(events, i + 1, 1, false, Seq::empty(), false) {
                    Some(t) => spec_cell_body(
                        events,
                        t.2,
                        ty,
                        fmt,
                        strings,
                        if t.1 {
                            SpecCellValue::Text(t.0)
                        } else {
                            SpecCellValue::Empty
                        },
                        had,
                        spills,
                    ),
                    None => SpecBodyOut::Fail(SpecPullErr::Eof("is"@)),
                }
            } else {
                SpecBodyOut::Fail(SpecPullErr::Node("v, f, or is"@))
            },
            XmlEvent::Empty { name, attrs } => if name@ == "f"@ {
                match spec_spill_step(spec_attr(attrs@, "t"@), spec_attr(attrs@, "ref"@), spills) {
                    Some(sp) => spec_cell_body(events, i + 1, ty, fmt, strings, value, true, sp),
                    None => SpecBodyOut::Fail(SpecPullErr::Malformed),
                }
            } else {
                spec_cell_body(events, i + 1, ty, fmt, strings, value, had, spills)
            },
            XmlEvent::End { name } => if name@ == "c"@ {
                SpecBodyOut::Done { value, had_formula: had, ptr: i + 1, spills }
            } else {
                spec_cell_body(events, i + 1, ty, fmt, strings, value, had, spills)
            },
            XmlEvent::Text { content } => spec_cell_body(
                events,
                i + 1,
                ty,
                fmt,
                strings,
                value,
                had,
                spills,
            ),
        }
    }
}

#[via_fn]
proof fn spec_cell_body_dec(
    events: Seq<XmlEvent>,
    i: int,
    ty: Option<Seq<char>>,
    fmt: CellFormat,
    strings: Seq<Seq<char>>,
    value: SpecCellValue,
    had: bool,
    spills: Seq<Dimensions>,
) {
    if 0 <= i < events.len() {
        lemma_skip_bounds(events, i + 1, "f"@, 1);
        lemma_collect_text_bounds(events, i + 1, "v"@);
        lemma_inline_bounds(events, i + 1, 1, false, Seq::empty(), false);
    }
}

/// What a row element does to the scan: the new row counter and whether a
/// deviating definition is retained; absent when its position attribute is
/// unreadable.
pub open spec fn spec_row_start(attrs: Seq<XmlAttr>, row: int) -> Option<(int, bool)> {
    match spec_attr(attrs, "r"@) {
        Some(v) => match crate::coord::spec_row_number(v) {
            Some(rn) => Some((rn, spec_row_meaningful(attrs))),
            None => None,
        },
        None => Some((row, false)),
    }
}

/// Ghost outcome of one cell pull.
pub enum SpecCellPull {
    /// A cell was produced: its position, value, style and own-formula
    /// flag, then the cursor, the counters, the spill rectangles, and the
    /// row definitions retained on the way, as (row, attribute list) pairs.
    Cell {
        pos: (int, int),
        value: SpecCellValue,
        style: Option<CellStyle>,
        had_formula: bool,
        ptr: int,
        row: int,
        col: int,
        spills: Seq<Dimensions>,
        defs: Seq<(u32, Seq<XmlAttr>)>,
    },
    /// The region's end was consumed.
    End { ptr: int, row: int, col: int, defs: Seq<(u32, Seq<XmlAttr>)> },
    /// Decoding failed.
    Fail(SpecPullErr),
}

/// The cell element at `i` with attribute list `attrs`, in the start or
/// self-closing form as `empty` says: its position is the decoded position
/// attribute or the implicit counters, its children decode as
/// `spec_cell_body` says, and the column counter lands one past its column.
pub open spec fn spec_cell_at(
    events: Seq<XmlEvent>,
    i: int,
    attrs: Seq<XmlAttr>,
    empty: bool,
    row: int,
    col: int,
    formats: Seq<CellStyle>,
    strings: Seq<Seq<char>>,
    spills: Seq<Dimensions>,
    defs: Seq<(u32, Seq<XmlAttr>)>,
) -> SpecCellPull {
    let posr = match spec_attr(attrs, "r"@) {
        Some(v) => match spec_cell_ref_at(v, 0, v.len() as int) {
            Some(p) => Some(Some(p)),
            None => None,
        },
        None => Some(None),
    };
    match posr {
        None => SpecCellPull::Fail(SpecPullErr::Malformed),
        Some(e) => {
            let pos = match e {
                Some(p) => p,
                None => (row, col),
            };
            let style = spec_style_of(attrs, formats);
            if empty {
                if pos.1 == u32::MAX {
                    SpecCellPull::Fail(SpecPullErr::Overflow)
                } else {
                    SpecCellPull::Cell {
                        pos,
                        value: SpecCellValue::Empty,
                        style,
                        had_formula: false,
                        ptr: i + 1,
                        row,
                        col: pos.1 + 1,
                        spills,
                        defs,
                    }
                }
            } else {
                match spec_cell_body(
                    events,
                    i + 1,
                    spec_attr(attrs, "t"@),
                    spec_format_of(style),
                    strings,
                    SpecCellValue::Empty,
                    false,
                    spills,
                ) {
                    SpecBodyOut::Done { value, had_formula, ptr, spills } => if pos.1
                        == u32::MAX {
                        SpecCellPull::Fail(SpecPullErr::Overflow)
                    } else {
                        SpecCellPull::Cell {
                            pos,
                            value,
                            style,
                            had_formula,
                            ptr,
                            row,
                            col: pos.1 + 1,
                            spills,
                            defs,
                        }
                    },
                    SpecBodyOut::Fail(m) => SpecCellPull::Fail(m),
                }
            }
        },
    }
}

/// One pull of the cell pass, read from `i` with counters `row` and `col`:
/// a row start sets the row counter and retains a deviating definition, a
/// row end advances the row counter and resets the column counter, the
/// region's end ends the pass, and the first cell element is produced with
/// its children decoded.
pub open spec fn spec_cell_pull(
    events: Seq<XmlEvent>,
    i: int,
    row: int,
    col: int,
    formats: Seq<CellStyle>,
    strings: Seq<Seq<char>>,
    spills: Seq<Dimensions>,
    defs: Seq<(u32, Seq<XmlAttr>)>,
) -> SpecCellPull
    decreases events.len() - i,
{
    if i < 0 || i >= events.len() {
        SpecCellPull::Fail(SpecPullErr::Eof("sheetData"@))
    } else {
        match events[i] {
            XmlEvent::Start { name, attrs } => if name@ == "row"@ {
                match spec_row_start(attrs@, row) {
                    Some(st) => spec_cell_pull(
                        events,
                        i + 1,
                        st.0,
                        col,
                        formats,
                        strings,
                        spills,
                        if st.1 {
                            defs.push(((st.0 as u32), attrs@))
                        } else {
                            defs
                        },
                    ),
                    None => SpecCellPull::Fail(SpecPullErr::Malformed),
                }
            } else if name@ == "c"@ {
                spec_cell_at(events, i, attrs@, false, row, col, formats, strings, spills, defs)
            } else {
                spec_cell_pull(events, i + 1, row, col, formats, strings, spills, defs)
            },
            XmlEvent::Empty { name, attrs } => if name@ == "row"@ {
                match spec_row_start(attrs@, row) {
                    Some(st) => spec_cell_pull(
                        events,
                        i + 1,
                        st.0,
                        col,
                        formats,
                        strings,
                        spills,
                        if st.1 {
                            defs.push(((st.0 as u32), attrs@))
                        } else {
                            defs
                        },
                    ),
                    None => SpecCellPull::Fail(SpecPullErr::Malformed),
                }
            } else if name@ == "c"@ {
                spec_cell_at(events, i, attrs@, true, row, col, formats, strings, spills, defs)
            } else if name@ == "sheetData"@ {
                SpecCellPull::End { ptr: i + 1, row, col, defs }
            } else {
                spec_cell_pull(events, i + 1, row, col, formats, strings, spills, defs)
            },
            XmlEvent::End { name } => if name@ == "row"@ {
                if row == u32::MAX {
                    SpecCellPull::Fail(SpecPullErr::Overflow)
                } else {
                    spec_cell_pull(events, i + 1, row + 1, 0, formats, strings, spills, defs)
                }
            } else if name@ == "sheetData"@ {
                SpecCellPull::End { ptr: i + 1, row, col, defs }
            } else {
                spec_cell_pull(events, i + 1, row, col, formats, strings, spills, defs)
            },
            XmlEvent::Text { content } => spec_cell_pull(
                events,
                i + 1,
                row,
                col,
                formats,
                strings,
                spills,
                defs,
            ),
        }
    }
}

/// The stored definitions grew by exactly the retained (row, attributes)
/// pairs, each holding what its attributes state.
pub open spec fn defs_extended(
    olddefs: Seq<RowDefinition>,
    newdefs: Seq<RowDefinition>,
    added: Seq<(u32, Seq<XmlAttr>)>,
) -> bool {
    &&& newdefs.len() == olddefs.len() + added.len()
    &&& (forall|j: int| 0 <= j < olddefs.len() ==> newdefs[j] == olddefs[j])
    &&& (forall|k: int|
        0 <= k < added.len() ==> row_def_matches(
            #[trigger] newdefs[olddefs.len() + k],
            added[k].0,
            added[k].1,
        ))
}

/// The classifier's answer for a row element with the given attributes:
/// the parsed zero-based row and a definition holding exactly what the
/// attributes state, nothing without a position attribute, the malformed
/// error on an unreadable one.
spec fn classified_row(r: Result<OuterAct, DecodeError>, attrs: Seq<XmlAttr>) -> bool {
    match spec_attr(attrs, "r"@) {
        Some(v) => match crate::coord::spec_row_number(v) {
            Some(rn) => r matches Ok(a) && (a matches OuterAct::RowStart(o) && (o matches Some(rd)
                && rd.0 as int == rn && row_def_matches(rd.1, rd.0, attrs))),
            None => r is Err && r->Err_0 == DecodeError::MalformedRange,
        },
        None => r matches Ok(a) && (a matches OuterAct::RowStart(o) && o is None),
    }
}

/// The classifier's answer for a cell element with the given attributes:
/// its explicit position when a well-formed one is stated, the resolved
/// style, the type code, and the malformed error on an unreadable position.
spec fn classified_cell(
    r: Result<OuterAct, DecodeError>,
    attrs: Seq<XmlAttr>,
    formats: Seq<CellStyle>,
    empty: bool,
) -> bool {
    match spec_attr(attrs, "r"@) {
        Some(v) => match spec_cell_ref_at(v, 0, v.len() as int) {
            Some(p) => r matches Ok(a) && cell_act_matches(a, Some(p), attrs, formats, empty),
            None => r is Err && r->Err_0 == DecodeError::MalformedRange,
        },
        None => r matches Ok(a) && cell_act_matches(a, None, attrs, formats, empty),
    }
}

/// The action carries the stated position, style and type code of a cell
/// element, in the start or self-closing form as `empty` says.
spec fn cell_act_matches(
    a: OuterAct,
    pos: Option<(int, int)>,
    attrs: Seq<XmlAttr>,
    formats: Seq<CellStyle>,
    empty: bool,
) -> bool {
    match a {
        OuterAct::CellStart { explicit, style, ty } => {
            &&& !empty
            &&& match pos {
                Some(p) => explicit matches Some(q) && q.0 as int == p.0 && q.1 as int == p.1,
                None => explicit is None,
            }
            &&& style == spec_style_of(attrs, formats)
            &&& opt_view(ty) == spec_attr(attrs, "t"@)
        },
        OuterAct::CellEmpty { explicit, style, ty } => {
            &&& empty
            &&& match pos {
                Some(p) => explicit matches Some(q) && q.0 as int == p.0 && q.1 as int == p.1,
                None => explicit is None,
            }
            &&& style == spec_style_of(attrs, formats)
            &&& opt_view(ty) == spec_attr(attrs, "t"@)
        },
        _ => false,
    }
}

/// What one worksheet-body event asks of the decoder.
enum OuterAct {
    /// A row start, with the parsed zero-based row and its definition when
    /// a position attribute was present.
    RowStart(Option<(u32, RowDefinition)>),
    /// A row end.
    RowEnd,
    /// A cell element; the body still follows.
    CellStart { explicit: Option<(u32, u32)>, style: Option<CellStyle>, ty: Option<String> },
    /// A self-closing cell element.
    CellEmpty { explicit: Option<(u32, u32)>, style: Option<CellStyle>, ty: Option<String> },
    /// The end of the cell-data region.
    SheetDataEnd,
    /// Anything else, to be skipped.
    Ignore,
}

/// The style the cell element points at, if any: the style attribute read
/// as an index into the style table, an unreadable one as index zero.
fn style_of(attrs: &Vec<XmlAttr>, formats: &Vec<CellStyle>) -> (r: Option<CellStyle>)
    ensures
        r == spec_style_of(attrs@, formats@),
{
    match get_attribute(attrs, "s") {
        Some(v) => {
            let id = match parse_usize_text(v.as_str()) {
                Some(i) => i,
                None => 0,
            };
            if id < formats.len() {
                Some(formats[id])
            } else {
                None
            }
        },
        None => None,
    }
}

/// Classify one event of the cell-data region.
fn classify_outer(ev: &XmlEvent, formats: &Vec<CellStyle>) -> (r: Result<OuterAct, DecodeError>)
    ensures
        match *ev {
            XmlEvent::Start { name, attrs } => if name@ == "row"@ {
                classified_row(r, attrs@)
            } else if name@ == "c"@ {
                classified_cell(r, attrs@, formats@, false)
            } else {
                r matches Ok(a) && a is Ignore
            },
            XmlEvent::Empty { name, attrs } => if name@ == "row"@ {
                classified_row(r, attrs@)
            } else if name@ == "c"@ {
                classified_cell(r, attrs@, formats@, true)
            } else if name@ == "sheetData"@ {
                r matches Ok(a) && a is SheetDataEnd
            } else {
                r matches Ok(a) && a is Ignore
            },
            XmlEvent::End { name } => if name@ == "row"@ {
                r matches Ok(a) && a is RowEnd
            } else if name@ == "sheetData"@ {
                r matches Ok(a) && a is SheetDataEnd
            } else {
                r matches Ok(a) && a is Ignore
            },
            XmlEvent::Text { content } => r matches Ok(a) && a is Ignore,
        },
{
    proof {
        reveal_strlit("row");
        reveal_strlit("c");
        reveal_strlit("sheetData");
        assert("row"@ =~= seq!['r', 'o', 'w']);
        assert("c"@ =~= seq!['c']);
        assert("sheetData"@ =~= seq!['s', 'h', 'e', 'e', 't', 'D', 'a', 't', 'a']);
    }
    match ev {
        XmlEvent::Start { name, attrs } => {
            if str_eq(name.as_str(), "row") {
                match get_attribute(attrs, "r") {
                    Some(rv) => {
                        let row = parse_row_number(rv.as_str())?;
                        let def = parse_row_definition(attrs, row);
                        Ok(OuterAct::RowStart(Some((row, def))))
                    },
                    None => Ok(OuterAct::RowStart(None)),
                }
            } else if str_eq(name.as_str(), "c") {
                let explicit = match get_attribute(attrs, "r") {
                    Some(rv) => Some(parse_cell_ref(rv.as_str())?),
                    None => None,
                };
                let style = style_of(attrs, formats);
                let ty = get_attribute(attrs, "t");
                Ok(OuterAct::CellStart { explicit, style, ty })
            } else {
                Ok(OuterAct::Ignore)
            }
        },
        XmlEvent::Empty { name, attrs } => {
            if str_eq(name.as_str(), "row") {
                match get_attribute(attrs, "r") {
                    Some(rv) => {
                        let row = parse_row_number(rv.as_str())?;
                        let def = parse_row_definition(attrs, row);
                        Ok(OuterAct::RowStart(Some((row, def))))
                    },
                    None => Ok(OuterAct::RowStart(None)),
                }
            } else if str_eq(name.as_str(), "c") {
                let explicit = match get_attribute(attrs, "r") {
                    Some(rv) => Some(parse_cell_ref(rv.as_str())?),
                    None => None,
                };
                let style = style_of(attrs, formats);
                let ty = get_attribute(attrs, "t");
                Ok(OuterAct::CellEmpty { explicit, style, ty })
            } else if str_eq(name.as_str(), "sheetData") {
                Ok(OuterAct::SheetDataEnd)
            } else {
                Ok(OuterAct::Ignore)
            }
        },
        XmlEvent::End { name } => {
            if str_eq(name.as_str(), "row") {
                Ok(OuterAct::RowEnd)
            } else if str_eq(name.as_str(), "sheetData") {
                Ok(OuterAct::SheetDataEnd)
            } else {
                Ok(OuterAct::Ignore)
            }
        },
        XmlEvent::Text { content: _ } => Ok(OuterAct::Ignore),
    }
}

/// What one event inside a cell element asks of the value pass.
enum CellBodyAct {
    /// A formula element; the attributes travel along.
    FormulaStart { ty: Option<String>, reference: Option<String>, si: Option<String> },
    /// A self-closing formula element.
    FormulaEmpty { ty: Option<String>, reference: Option<String>, si: Option<String> },
    /// A value element.
    ValueStart,
    /// An inline-string element.
    InlineStart,
    /// An element to skip whole in the formula pass.
    SkipWhole(String),
    /// The cell's end.
    EndCell,
    /// Anything else, to be skipped.
    Ignore,
}

/// Classify one event inside a cell element for the formula pass, where
/// value and inline-string children are skipped whole.
fn classify_formula_body(ev: &XmlEvent) -> (r: Result<CellBodyAct, DecodeError>)
    ensures
        match *ev {
            XmlEvent::Start { name, attrs } => if name@ == "f"@ {
                r matches Ok(a) && (a matches CellBodyAct::FormulaStart { ty, reference, si }
                    && opt_view(ty) == spec_attr(attrs@, "t"@) && opt_view(reference)
                    == spec_attr(attrs@, "ref"@) && opt_view(si) == spec_attr(attrs@, "si"@))
            } else if name@ == "v"@ || name@ == "is"@ {
                r matches Ok(a) && (a matches CellBodyAct::SkipWhole(nm) && nm@ == name@)
            } else {
                r is Err && (r->Err_0 matches DecodeError::UnexpectedNode(m) && m@
                    == "v, f, or is"@)
            },
            XmlEvent::Empty { name, attrs } => if name@ == "f"@ {
                r matches Ok(a) && (a matches CellBodyAct::FormulaEmpty { ty, reference, si }
                    && opt_view(ty) == spec_attr(attrs@, "t"@) && opt_view(reference)
                    == spec_attr(attrs@, "ref"@) && opt_view(si) == spec_attr(attrs@, "si"@))
            } else {
                r matches Ok(a) && a is Ignore
            },
            XmlEvent::End { name } => if name@ == "c"@ {
                r matches Ok(a) && a is EndCell
            } else {
                r matches Ok(a) && a is Ignore
            },
            XmlEvent::Text { content } => r matches Ok(a) && a is Ignore,
        },
{
    match ev {
        XmlEvent::Start { name, attrs } => {
            if str_eq(name.as_str(), "f") {
                Ok(
                    CellBodyAct::FormulaStart {
                        ty: get_attribute(attrs, "t"),
                        reference: get_attribute(attrs, "ref"),
                        si: get_attribute(attrs, "si"),
                    },
                )
            } else if str_eq(name.as_str(), "v") || str_eq(name.as_str(), "is") {
                Ok(CellBodyAct::SkipWhole(name.clone()))
            } else {
                Err(DecodeError::UnexpectedNode("v, f, or is".to_owned()))
            }
        },
        XmlEvent::Empty { name, attrs } => {
            if str_eq(name.as_str(), "f") {
                Ok(
                    CellBodyAct::FormulaEmpty {
                        ty: get_attribute(attrs, "t"),
                        reference: get_attribute(attrs, "ref"),
                        si: get_attribute(attrs, "si"),
                    },
                )
            } else {
                Ok(CellBodyAct::Ignore)
            }
        },
        XmlEvent::End { name } => {
            if str_eq(name.as_str(), "c") {
                Ok(CellBodyAct::EndCell)
            } else {
                Ok(CellBodyAct::Ignore)
            }
        },
        XmlEvent::Text { content: _ } => Ok(CellBodyAct::Ignore),
    }
}

/// Classify one event inside a cell element.
fn classify_cell_body(ev: &XmlEvent) -> (r: Result<CellBodyAct, DecodeError>)
    ensures
        match *ev {
            XmlEvent::Start { name, attrs } => if name@ == "f"@ {
                r matches Ok(a) && (a matches CellBodyAct::FormulaStart { ty, reference, si }
                    && opt_view(ty) == spec_attr(attrs@, "t"@) && opt_view(reference)
                    == spec_attr(attrs@, "ref"@) && opt_view(si) == spec_attr(attrs@, "si"@))
            } else if name@ == "v"@ {
                r matches Ok(a) && a is ValueStart
            } else if name@ == "is"@ {
                r matches Ok(a) && a is InlineStart
            } else {
                r is Err && (r->Err_0 matches DecodeError::UnexpectedNode(m) && m@
                    == "v, f, or is"@)
            },
            XmlEvent::Empty { name, attrs } => if name@ == "f"@ {
                r matches Ok(a) && (a matches CellBodyAct::FormulaEmpty { ty, reference, si }
                    && opt_view(ty) == spec_attr(attrs@, "t"@) && opt_view(reference)
                    == spec_attr(attrs@, "ref"@) && opt_view(si) == spec_attr(attrs@, "si"@))
            } else {
                r matches Ok(a) && a is Ignore
            },
            XmlEvent::End { name } => if name@ == "c"@ {
                r matches Ok(a) && a is EndCell
            } else {
                r matches Ok(a) && a is Ignore
            },
            XmlEvent::Text { content } => r matches Ok(a) && a is Ignore,
        },
{
    match ev {
        XmlEvent::Start { name, attrs } => {
            if str_eq(name.as_str(), "f") {
                Ok(
                    CellBodyAct::FormulaStart {
                        ty: get_attribute(attrs, "t"),
                        reference: get_attribute(attrs, "ref"),
                        si: get_attribute(attrs, "si"),
                    },
                )
            } else if str_eq(name.as_str(), "v") {
                Ok(CellBodyAct::ValueStart)
            } else if str_eq(name.as_str(), "is") {
                Ok(CellBodyAct::InlineStart)
            } else {
                Err(DecodeError::UnexpectedNode("v, f, or is".to_owned()))
            }
        },
        XmlEvent::Empty { name, attrs } => {
            if str_eq(name.as_str(), "f") {
                Ok(
                    CellBodyAct::FormulaEmpty {
                        ty: get_attribute(attrs, "t"),
                        reference: get_attribute(attrs, "ref"),
                        si: get_attribute(attrs, "si"),
                    },
                )
            } else {
                Ok(CellBodyAct::Ignore)
            }
        },
        XmlEvent::End { name } => {
            if str_eq(name.as_str(), "c") {
                Ok(CellBodyAct::EndCell)
            } else {
                Ok(CellBodyAct::Ignore)
            }
        },
        XmlEvent::Text { content: _ } => Ok(CellBodyAct::Ignore),
    }
}

/// Index just past the end of a column-definitions section entered at `j`,
/// or negative when the section never ends.
pub open spec fn spec_cols_end(events: Seq<XmlEvent>, j: int) -> int
    decreases events.len() - j,
{
    if j < 0 || j >= events.len() {
        -1
    } else {
        match events[j] {
            XmlEvent::End { name } => if name@ == "cols"@ {
                j + 1
            } else {
                spec_cols_end(events, j + 1)
            },
            _ => spec_cols_end(events, j + 1),
        }
    }
}

pub proof fn lemma_cols_end_bounds(events: Seq<XmlEvent>, j: int)
    ensures
        spec_cols_end(events, j) == -1 || j < spec_cols_end(events, j) <= events.len(),
    decreases events.len() - j,
{
    if 0 <= j < events.len() {
        lemma_cols_end_bounds(events, j + 1);
    }
}

/// The attribute lists of the column elements of a column-definitions
/// section, read from `j` inside it, in document order.
pub open spec fn spec_cols_items(events: Seq<XmlEvent>, j: int) -> Seq<Seq<XmlAttr>>
    decreases events.len() - j,
{
    if j < 0 || j >= events.len() {
        Seq::empty()
    } else {
        match events[j] {
            XmlEvent::End { name } => if name@ == "cols"@ {
                Seq::empty()
            } else {
                spec_cols_items(events, j + 1)
            },
            XmlEvent::Start { name, attrs } => if name@ == "col"@ {
                seq![attrs@] + spec_cols_items(events, j + 1)
            } else {
                spec_cols_items(events, j + 1)
            },
            XmlEvent::Empty { name, attrs } => if name@ == "col"@ {
                seq![attrs@] + spec_cols_items(events, j + 1)
            } else {
                spec_cols_items(events, j + 1)
            },
            XmlEvent::Text { content } => spec_cols_items(events, j + 1),
        }
    }
}

/// View of an optional base-column-width value.
pub open spec fn opt_int_view(o: Option<u8>) -> Option<int> {
    match o {
        Some(b) => Some(b as int),
        None => None,
    }
}

/// Ghost outcome of the preamble scan.
pub enum SpecPreamble {
    /// The cell region was reached: the cursor at it, the used range (the
    /// last dimension ref parsed, or the default), the column-element
    /// attribute lists in order, and the captured sheet-format defaults.
    Enter {
        ptr: int,
        dims: Dimensions,
        cols: Seq<Seq<XmlAttr>>,
        fmt_w: Option<Seq<char>>,
        fmt_b: Option<int>,
        fmt_h: Option<Seq<char>>,
    },
    /// A dimension element carried no range attribute.
    NoRef,
    /// A dimension range attribute did not parse.
    BadRef,
    /// A column-definitions section never closed.
    ColsOpen,
    /// The events ended before the cell region; the first unrecognized
    /// element name, if one was seen.
    Ended(Option<Seq<char>>),
}

/// The preamble scan from `i`, with the used range, column attribute
/// lists, sheet-format defaults and first unrecognized element name
/// gathered so far: dimension elements set the used range from their
/// parsed range attribute, column sections contribute their column
/// elements, sheet-format elements fold their readable attributes in, and
/// a sheet-data element enters the cell region.
pub open spec fn spec_preamble(
    events: Seq<XmlEvent>,
    i: int,
    dims: Dimensions,
    cols: Seq<Seq<XmlAttr>>,
    fmt_w: Option<Seq<char>>,
    fmt_b: Option<int>,
    fmt_h: Option<Seq<char>>,
    sh: Option<Seq<char>>,
) -> SpecPreamble
    decreases events.len() - i,
    via spec_preamble_dec
{
    if i < 0 || i >= events.len() {
        SpecPreamble::Ended(sh)
    } else {
        match events[i] {
            XmlEvent::Start { name, attrs } => if name@ == "dimension"@ {
                match spec_attr(attrs@, "ref"@) {
                    Some(v) => match spec_parse_range(v) {
                        Some(rect) => spec_preamble(
                            events,
                            i + 1,
                            dims_of(rect),
                            cols,
                            fmt_w,
                            fmt_b,
                            fmt_h,
                            sh,
                        ),
                        None => SpecPreamble::BadRef,
                    },
                    None => SpecPreamble::NoRef,
                }
            } else if name@ == "cols"@ {
                let e = spec_cols_end(events, i + 1);
                if e >= 0 {
                    spec_preamble(
                        events,
                        e,
                        dims,
                        cols + spec_cols_items(events, i + 1),
                        fmt_w,
                        fmt_b,
                        fmt_h,
                        sh,
                    )
                } else {
                    SpecPreamble::ColsOpen
                }
            } else if name@ == "sheetData"@ {
                SpecPreamble::Enter { ptr: i + 1, dims, cols, fmt_w, fmt_b, fmt_h }
            } else if name@ == "sheetFormatPr"@ {
                spec_preamble(
                    events,
                    i + 1,
                    dims,
                    cols,
                    match spec_numtext_attr(attrs@, "defaultColWidth"@) {
                        Some(w) => Some(w),
                        None => fmt_w,
                    },
                    match spec_u8_attr(attrs@, "baseColWidth"@) {
                        Some(b) => Some(b),
                        None => fmt_b,
                    },
                    match spec_numtext_attr(attrs@, "defaultRowHeight"@) {
                        Some(h) => Some(h),
                        None => fmt_h,
                    },
                    sh,
                )
            } else {
                spec_preamble(
                    events,
                    i + 1,
                    dims,
                    cols,
                    fmt_w,
                    fmt_b,
                    fmt_h,
                    if sh is None {
                        Some(name@)
                    } else {
                        sh
                    },
                )
            },
            XmlEvent::Empty { name, attrs } => if name@ == "dimension"@ {
                match spec_attr(attrs@, "ref"@) {
                    Some(v) => match spec_parse_range(v) {
                        Some(rect) => spec_preamble(
                            events,
                            i + 1,
                            dims_of(rect),
                            cols,
                            fmt_w,
                            fmt_b,
                            fmt_h,
                            sh,
                        ),
                        None => SpecPreamble::BadRef,
                    },
                    None => SpecPreamble::NoRef,
                }
            } else if name@ == "sheetData"@ {
                SpecPreamble::Enter { ptr: i, dims, cols, fmt_w, fmt_b, fmt_h }
            } else if name@ == "sheetFormatPr"@ {
                spec_preamble(
                    events,
                    i + 1,
                    dims,
                    cols,
                    match spec_numtext_attr(attrs@, "defaultColWidth"@) {
                        Some(w) => Some(w),
                        None => fmt_w,
                    },
                    match spec_u8_attr(attrs@, "baseColWidth"@) {
                        Some(b) => Some(b),
                        None => fmt_b,
                    },
                    match spec_numtext_attr(attrs@, "defaultRowHeight"@) {
                        Some(h) => Some(h),
                        None => fmt_h,
                    },
                    sh,
                )
            } else {
                spec_preamble(events, i + 1, dims, cols, fmt_w, fmt_b, fmt_h, sh)
            },
            XmlEvent::End { name } => spec_preamble(events, i + 1, dims, cols, fmt_w, fmt_b, fmt_h, sh),
            XmlEvent::Text { content } => spec_preamble(
                events,
                i + 1,
                dims,
                cols,
                fmt_w,
                fmt_b,
                fmt_h,
                sh,
            ),
        }
    }
}

#[via_fn]
proof fn spec_preamble_dec(
    events: Seq<XmlEvent>,
    i: int,
    dims: Dimensions,
    cols: Seq<Seq<XmlAttr>>,
    fmt_w: Option<Seq<char>>,
    fmt_b: Option<int>,
    fmt_h: Option<Seq<char>>,
    sh: Option<Seq<char>>,
) {
    if 0 <= i < events.len() {
        lemma_cols_end_bounds(events, i + 1);
    }
}

/// Every stored column definition holds exactly what its attribute list
/// states, in document order.
pub open spec fn cols_captured(defs: Seq<ColumnDefinition>, cols: Seq<Seq<XmlAttr>>) -> bool {
    defs.len() == cols.len() && (forall|k: int|
        0 <= k < cols.len() ==> col_def_matches(#[trigger] defs[k], cols[k]))
}

/// The sheet-format defaults hold exactly the captured width, base width
/// and height, with every other attribute unset.
pub open spec fn fmt_captured(
    f: crate::metadata::SheetFormatProperties,
    w: Option<Seq<char>>,
    b: Option<int>,
    h: Option<Seq<char>>,
) -> bool {
    &&& match w {
        Some(x) => f.default_col_width matches Some(s) && s@ == x,
        None => f.default_col_width is None,
    }
    &&& opt_int_view(f.base_col_width) == b
    &&& match h {
        Some(x) => f.default_row_height matches Some(s) && s@ == x,
        None => f.default_row_height is None,
    }
    &&& f.custom_height is None
    &&& f.zero_height is None
    &&& f.thick_top is None
    &&& f.thick_bottom is None
    &&& f.outline_level_row is None
    &&& f.outline_level_col is None
}

/// Ghost model of one shared-formula slot./// Ghost model of one shared-formula slot.
pub struct SpecSlot {
    /// The master cell's formula text.
    pub template: Seq<char>,
    /// The master cell's position.
    pub master: (u32, u32),
    /// The rectangle the formula is shared over.
    pub range: Dimensions,
}

/// Model of a stored slot.
pub open spec fn slot_model(s: SharedFormulaSlot) -> SpecSlot {
    SpecSlot { template: s.template@, master: s.master, range: s.range }
}

/// Model of the whole slot table.
pub open spec fn table_model(t: Seq<Option<SharedFormulaSlot>>) -> Seq<Option<SpecSlot>> {
    Seq::new(
        t.len(),
        |k: int|
            match t[k] {
                Some(s) => Some(slot_model(s)),
                None => None,
            },
    )
}

/// The table after a slot is stored at `si`: grown with empty slots as
/// needed, an existing slot replaced.
pub open spec fn model_store(t: Seq<Option<SpecSlot>>, si: int, slot: SpecSlot) -> Seq<
    Option<SpecSlot>,
> {
    if si < t.len() {
        t.update(si, Some(slot))
    } else {
        t + Seq::new((si - t.len()) as nat, |k: int| None::<SpecSlot>) + seq![Some(slot)]
    }
}

/// The value of a shared-index attribute, if it reads as one: decimal
/// digits of at most the type's maximum spelling length, in range.
pub open spec fn spec_usize_of(v: Seq<char>) -> Option<int> {
    if digits_range(v, 0, v.len() as int) && v.len() <= 20 && digits_value_range(
        v,
        0,
        v.len() as int,
    ) <= usize::MAX {
        Some(digits_value_range(v, 0, v.len() as int))
    } else {
        None
    }
}

/// What one formula element resolves to at position `pos` with text `text`:
/// an unshared formula keeps its text; a shared master stores (template,
/// master, range) at its index and keeps its text; a shared dependent
/// inside its slot's range is rewritten from the template by its offset
/// from the master, and one outside it, or without a slot, keeps its own
/// text; missing or unreadable shared indices and unreadable ranges fail.
pub open spec fn spec_handle_formula(
    pos: (u32, u32),
    text: Seq<char>,
    ty: Option<Seq<char>>,
    rf: Option<Seq<char>>,
    si: Option<Seq<char>>,
    table: Seq<Option<SpecSlot>>,
) -> Result<(Seq<char>, Seq<Option<SpecSlot>>), SpecPullErr> {
    let shared = match ty {
        Some(t) => t == "shared"@,
        None => false,
    };
    if !shared {
        Ok((text, table))
    } else {
        match si {
            None => Err(SpecPullErr::MissingIndex),
            Some(sv) => match spec_usize_of(sv) {
                None => Err(SpecPullErr::BadIndex),
                Some(idx) => match rf {
                    Some(rv) => match spec_parse_range(rv) {
                        Some(rect) => Ok(
                            (
                                text,
                                model_store(
                                    table,
                                    idx,
                                    SpecSlot { template: text, master: pos, range: dims_of(rect) },
                                ),
                            ),
                        ),
                        None => Err(SpecPullErr::Malformed),
                    },
                    None => if 0 <= idx < table.len() && (table[idx] matches Some(sl)
                        && sl.range.spec_contains(pos.0, pos.1)) {
                        let sl = table[idx]->0;
                        match spec_rewrite(
                            sl.template,
                            pos.0 - sl.master.0,
                            pos.1 - sl.master.1,
                        ) {
                            Some(t) => Ok((t, table)),
                            None => Err(SpecPullErr::OutOfBounds),
                        }
                    } else {
                        Ok((text, table))
                    },
                },
            },
        }
    }
}

/// Ghost outcome of one walk over a cell element's children in the
/// formula pass.
pub enum SpecFormulaBodyOut {
    /// The cell's end was consumed: the resolved formula text if a formula
    /// element stood in the cell, the cursor after, the spill rectangles,
    /// and the slot table.
    Done {
        text: Option<Seq<char>>,
        ptr: int,
        spills: Seq<Dimensions>,
        table: Seq<Option<SpecSlot>>,
    },
    /// Decoding failed.
    Fail(SpecPullErr),
}

/// Walk the children of a cell element at `pos` in the formula pass from
/// `i`, the cell's start already consumed: each formula element's collected
/// text is resolved against the slot table and its array rectangle
/// recorded; value and inline-string children are skipped whole.
pub open spec fn spec_formula_body(
    events: Seq<XmlEvent>,
    i: int,
    pos: (u32, u32),
    value: Option<Seq<char>>,
    spills: Seq<Dimensions>,
    table: Seq<Option<SpecSlot>>,
) -> SpecFormulaBodyOut
    decreases events.len() - i,
    via spec_formula_body_dec
{
    if i < 0 || i >= events.len() {
        SpecFormulaBodyOut::Fail(SpecPullErr::Eof("c"@))
    } else {
        match events[i] {
            XmlEvent::Start { name, attrs } => if name@ == "f"@ {
                match spec_collect_text(events, i + 1, "f"@) {
                    Some(t) => match spec_handle_formula(
                        pos,
                        t.0,
                        spec_attr(attrs@, "t"@),
                        spec_attr(attrs@, "ref"@),
                        spec_attr(attrs@, "si"@),
                        table,
                    ) {
                        Ok(h) => match spec_spill_step(
                            spec_attr(attrs@, "t"@),
                            spec_attr(attrs@, "ref"@),
                            spills,
                        ) {
                            Some(sp) => spec_formula_body(events, t.1, pos, Some(h.0), sp, h.1),
                            None => SpecFormulaBodyOut::Fail(SpecPullErr::Malformed),
                        },
                        Err(m) => SpecFormulaBodyOut::Fail(m),
                    },
                    None => SpecFormulaBodyOut::Fail(SpecPullErr::Eof("f"@)),
                }
            } else if name@ == "v"@ || name@ == "is"@ {
                match spec_skip(events, i + 1, name@, 1) {
                    Some(p) => spec_formula_body(events, p, pos, value, spills, table),
                    None => SpecFormulaBodyOut::Fail(SpecPullErr::Eof(name@)),
                }
            } else {
                SpecFormulaBodyOut::Fail(SpecPullErr::Node("v, f, or is"@))
            },
            XmlEvent::Empty { name, attrs } => if name@ == "f"@ {
                match spec_handle_formula(
                    pos,
                    Seq::empty(),
                    spec_attr(attrs@, "t"@),
                    spec_attr(attrs@, "ref"@),
                    spec_attr(attrs@, "si"@),
                    table,
                ) {
                    Ok(h) => match spec_spill_step(
                        spec_attr(attrs@, "t"@),
                        spec_attr(attrs@, "ref"@),
                        spills,
                    ) {
                        Some(sp) => spec_formula_body(events, i + 1, pos, Some(h.0), sp, h.1),
                        None => SpecFormulaBodyOut::Fail(SpecPullErr::Malformed),
                    },
                    Err(m) => SpecFormulaBodyOut::Fail(m),
                }
            } else {
                spec_formula_body(events, i + 1, pos, value, spills, table)
            },
            XmlEvent::End { name } => if name@ == "c"@ {
                SpecFormulaBodyOut::Done { text: value, ptr: i + 1, spills, table }
            } else {
                spec_formula_body(events, i + 1, pos, value, spills, table)
            },
            XmlEvent::Text { content } => spec_formula_body(
                events,
                i + 1,
                pos,
                value,
                spills,
                table,
            ),
        }
    }
}

#[via_fn]
proof fn spec_formula_body_dec(
    events: Seq<XmlEvent>,
    i: int,
    pos: (u32, u32),
    value: Option<Seq<char>>,
    spills: Seq<Dimensions>,
    table: Seq<Option<SpecSlot>>,
) {
    if 0 <= i < events.len() {
        lemma_collect_text_bounds(events, i + 1, "f"@);
        match events[i] {
            XmlEvent::Start { name, attrs } => {
                lemma_skip_bounds(events, i + 1, name@, 1);
            },
            _ => {},
        }
    }
}

/// Ghost outcome of one formula pull.
pub enum SpecFormulaPull {
    /// A cell was produced: its position, resolved formula text (empty for
    /// a cell without one) and style, then the cursor, the counters, the
    /// spill rectangles, and the slot table.
    Cell {
        pos: (int, int),
        text: Seq<char>,
        style: Option<CellStyle>,
        ptr: int,
        row: int,
        col: int,
        spills: Seq<Dimensions>,
        table: Seq<Option<SpecSlot>>,
    },
    /// The region's end was consumed.
    End { ptr: int, row: int, col: int },
    /// Decoding failed.
    Fail(SpecPullErr),
}

/// The cell element at `i` in the formula pass, like `spec_cell_at` but
/// with the children resolved by `spec_formula_body`.
pub open spec fn spec_formula_cell_at(
    events: Seq<XmlEvent>,
    i: int,
    attrs: Seq<XmlAttr>,
    empty: bool,
    row: int,
    col: int,
    formats: Seq<CellStyle>,
    spills: Seq<Dimensions>,
    table: Seq<Option<SpecSlot>>,
) -> SpecFormulaPull {
    let posr = match spec_attr(attrs, "r"@) {
        Some(v) => match spec_cell_ref_at(v, 0, v.len() as int) {
            Some(p) => Some(Some(p)),
            None => None,
        },
        None => Some(None),
    };
    match posr {
        None => SpecFormulaPull::Fail(SpecPullErr::Malformed),
        Some(e) => {
            let pos = match e {
                Some(p) => p,
                None => (row, col),
            };
            let style = spec_style_of(attrs, formats);
            if empty {
                if pos.1 == u32::MAX {
                    SpecFormulaPull::Fail(SpecPullErr::Overflow)
                } else {
                    SpecFormulaPull::Cell {
                        pos,
                        text: Seq::empty(),
                        style,
                        ptr: i + 1,
                        row,
                        col: pos.1 + 1,
                        spills,
                        table,
                    }
                }
            } else {
                match spec_formula_body(
                    events,
                    i + 1,
                    ((pos.0 as u32), (pos.1 as u32)),
                    None,
                    spills,
                    table,
                ) {
                    SpecFormulaBodyOut::Done { text, ptr, spills, table } => if pos.1
                        == u32::MAX {
                        SpecFormulaPull::Fail(SpecPullErr::Overflow)
                    } else {
                        SpecFormulaPull::Cell {
                            pos,
                            text: match text {
                                Some(t) => t,
                                None => Seq::empty(),
                            },
                            style,
                            ptr,
                            row,
                            col: pos.1 + 1,
                            spills,
                            table,
                        }
                    },
                    SpecFormulaBodyOut::Fail(m) => SpecFormulaPull::Fail(m),
                }
            }
        },
    }
}

/// One pull of the formula pass, read from `i` with counters `row` and
/// `col`: a row start sets the row counter, a row end advances it and
/// resets the column counter, the region's end ends the pass, and the
/// first cell element is produced with its formula resolved.
pub open spec fn spec_formula_pull(
    events: Seq<XmlEvent>,
    i: int,
    row: int,
    col: int,
    formats: Seq<CellStyle>,
    spills: Seq<Dimensions>,
    table: Seq<Option<SpecSlot>>,
) -> SpecFormulaPull
    decreases events.len() - i,
{
    if i < 0 || i >= events.len() {
        SpecFormulaPull::Fail(SpecPullErr::Eof("sheetData"@))
    } else {
        match events[i] {
            XmlEvent::Start { name, attrs } => if name@ == "row"@ {
                match spec_row_start(attrs@, row) {
                    Some(st) => spec_formula_pull(events, i + 1, st.0, col, formats, spills, table),
                    None => SpecFormulaPull::Fail(SpecPullErr::Malformed),
                }
            } else if name@ == "c"@ {
                spec_formula_cell_at(events, i, attrs@, false, row, col, formats, spills, table)
            } else {
                spec_formula_pull(events, i + 1, row, col, formats, spills, table)
            },
            XmlEvent::Empty { name, attrs } => if name@ == "row"@ {
                match spec_row_start(attrs@, row) {
                    Some(st) => spec_formula_pull(events, i + 1, st.0, col, formats, spills, table),
                    None => SpecFormulaPull::Fail(SpecPullErr::Malformed),
                }
            } else if name@ == "c"@ {
                spec_formula_cell_at(events, i, attrs@, true, row, col, formats, spills, table)
            } else if name@ == "sheetData"@ {
                SpecFormulaPull::End { ptr: i + 1, row, col }
            } else {
                spec_formula_pull(events, i + 1, row, col, formats, spills, table)
            },
            XmlEvent::End { name } => if name@ == "row"@ {
                if row == u32::MAX {
                    SpecFormulaPull::Fail(SpecPullErr::Overflow)
                } else {
                    spec_formula_pull(events, i + 1, row + 1, 0, formats, spills, table)
                }
            } else if name@ == "sheetData"@ {
                SpecFormulaPull::End { ptr: i + 1, row, col }
            } else {
                spec_formula_pull(events, i + 1, row, col, formats, spills, table)
            },
            XmlEvent::Text { content } => spec_formula_pull(
                events,
                i + 1,
                row,
                col,
                formats,
                spills,
                table,
            ),
        }
    }
}

/// The worksheet streaming decoder. It is constructed once per worksheet
/// over that worksheet's body events, holds the workbook-wide shared
/// strings and resolved styles, and is advanced by repeated pulls until the
/// cell-data region ends.
#[derive(Debug)]
pub struct XlsxCellReader {
    /// The worksheet body events.
    pub events: Vec<XmlEvent>,
    /// The cursor into the events; it only moves forward.
    pub ptr: usize,
    /// The workbook's shared strings.
    pub strings: Vec<String>,
    /// The workbook's resolved cell styles.
    pub formats: Vec<CellStyle>,
    /// The workbook counts dates from the 1904 epoch.
    pub is_1904: bool,
    /// The worksheet's declared used range.
    pub dimensions: Dimensions,
    /// The implicit row counter, zero-based.
    pub row_index: u32,
    /// The implicit column counter, zero-based.
    pub col_index: u32,
    /// The shared-formula slot table.
    pub formulas: SharedFormulaTable,
    /// Column metadata captured in the preamble.
    pub column_widths: ColumnWidths,
    /// Row metadata captured while streaming.
    pub row_definitions: RowDefinitions,
    /// Dynamic-array rectangles recorded so far, in document order.
    pub spill_sources: Vec<Dimensions>,
    /// The last produced cell carried its own formula element.
    pub last_cell_had_formula: bool,
}

impl XlsxCellReader {
    /// Build a decoder: consume the preamble (dimension, sheet format
    /// defaults, column definitions) up to the start of the cell-data
    /// region.
    pub fn new(
        events: Vec<XmlEvent>,
        strings: Vec<String>,
        formats: Vec<CellStyle>,
        is_1904: bool,
    ) -> (r: Result<XlsxCellReader, DecodeError>)
        ensures
            ({
                let out = spec_preamble(
                    events@,
                    0,
                    Dimensions { start: (0u32, 0u32), end: (0u32, 0u32) },
                    Seq::empty(),
                    None,
                    None,
                    None,
                    None,
                );
                match out {
                    SpecPreamble::Enter { ptr, dims, cols, fmt_w, fmt_b, fmt_h } => {
                        &&& r matches Ok(d)
                        &&& d.events@ == events@
                        &&& d.ptr as int == ptr && d.ptr <= d.events@.len()
                        &&& d.strings@ == strings@
                        &&& d.formats@ == formats@
                        &&& d.is_1904 == is_1904
                        &&& d.dimensions == dims && d.dimensions.wf()
                        &&& d.row_index == 0
                        &&& d.col_index == 0
                        &&& d.formulas@.len() == 0
                        &&& d.row_definitions.row_definitions@.len() == 0
                        &&& d.spill_sources@.len() == 0
                        &&& !d.last_cell_had_formula
                        &&& cols_captured(d.column_widths.column_definitions@, cols)
                        &&& fmt_captured(d.column_widths.sheet_format, fmt_w, fmt_b, fmt_h)
                        &&& fmt_captured(d.row_definitions.sheet_format, fmt_w, fmt_b, fmt_h)
                    },
                    SpecPreamble::NoRef => r matches Err(e) && (e matches
                        DecodeError::UnexpectedNode(m) && m@ == "dimension"@),
                    SpecPreamble::BadRef => r matches Err(e) && e == DecodeError::MalformedRange,
                    SpecPreamble::ColsOpen => r matches Err(e) && (e matches
                        DecodeError::UnexpectedEof(m) && m@ == "cols"@),
                    SpecPreamble::Ended(sh) => match sh {
                        Some(t) => r matches Err(e) && (e matches DecodeError::NotAWorksheet(m)
                            && m@ == t),
                        None => r matches Err(e) && (e matches DecodeError::UnexpectedEof(m)
                            && m@ == "worksheet"@),
                    },
                }
            }),
    {
        let n = events.len();
        let mut ptr: usize = 0;
        let mut dimensions: Dimensions = Default::default();
        let mut column_widths = ColumnWidths::new();
        let mut row_definitions = RowDefinitions::new();
        let mut sh_type: Option<String> = None;
        let ghost entry = spec_preamble(
            events@,
            0,
            Dimensions { start: (0u32, 0u32), end: (0u32, 0u32) },
            Seq::empty(),
            None,
            None,
            None,
            None,
        );
        let ghost mut gcols: Seq<Seq<XmlAttr>> = Seq::empty();
        while ptr < n
            invariant
                ptr <= n == events@.len(),
                dimensions.wf(),
                row_definitions.row_definitions@.len() == 0,
                cols_captured(column_widths.column_definitions@, gcols),
                row_definitions.sheet_format == column_widths.sheet_format,
                column_widths.sheet_format.custom_height is None,
                column_widths.sheet_format.zero_height is None,
                column_widths.sheet_format.thick_top is None,
                column_widths.sheet_format.thick_bottom is None,
                column_widths.sheet_format.outline_level_row is None,
                column_widths.sheet_format.outline_level_col is None,
                entry == spec_preamble(
                    events@,
                    0,
                    Dimensions { start: (0u32, 0u32), end: (0u32, 0u32) },
                    Seq::empty(),
                    None,
                    None,
                    None,
                    None,
                ),
                entry == spec_preamble(
                    events@,
                    ptr as int,
                    dimensions,
                    gcols,
                    opt_view(column_widths.sheet_format.default_col_width),
                    opt_int_view(column_widths.sheet_format.base_col_width),
                    opt_view(column_widths.sheet_format.default_row_height),
                    opt_view(sh_type),
                ),
            decreases n - ptr,
        {
            let ghost at: int = ptr as int;
            let mut entered = false;
            match &events[ptr] {
                XmlEvent::Start { name, attrs } => {
                    if str_eq(name.as_str(), "dimension") {
                        match get_attribute(attrs, "ref") {
                            Some(rv) => {
                                match parse_range(rv.as_str()) {
                                    Ok(d) => {
                                        dimensions = d;
                                    },
                                    Err(e) => {
                                        proof {
                                            assert(entry == SpecPreamble::BadRef);
                                        }
                                        return Err(e);
                                    },
                                }
                            },
                            None => {
                                proof {
                                    assert(entry == SpecPreamble::NoRef);
                                }
                                return Err(DecodeError::UnexpectedNode("dimension".to_owned()));
                            },
                        }
                        ptr += 1;
                    } else if str_eq(name.as_str(), "cols") {
                        // column definitions follow until the section ends
                        let ghost p0: int = ptr as int;
                        let ghost mut gnew: Seq<Seq<XmlAttr>> = Seq::empty();
                        ptr += 1;
                        let mut closed = false;
                        while ptr < n
                            invariant_except_break
                                !closed,
                                p0 < ptr <= n == events@.len(),
                                row_definitions.row_definitions@.len() == 0,
                                row_definitions.sheet_format == column_widths.sheet_format,
                                cols_captured(column_widths.column_definitions@, gcols + gnew),
                                spec_cols_end(events@, p0 + 1) == spec_cols_end(
                                    events@,
                                    ptr as int,
                                ),
                                spec_cols_items(events@, p0 + 1) =~= gnew + spec_cols_items(
                                    events@,
                                    ptr as int,
                                ),
                            ensures
                                p0 < ptr <= n == events@.len(),
                                row_definitions.row_definitions@.len() == 0,
                                row_definitions.sheet_format == column_widths.sheet_format,
                                cols_captured(column_widths.column_definitions@, gcols + gnew),
                                closed ==> spec_cols_end(events@, p0 + 1) == ptr as int
                                    && spec_cols_items(events@, p0 + 1) == gnew,
                                !closed ==> ptr == n && spec_cols_end(events@, p0 + 1)
                                    == spec_cols_end(events@, n as int),
                            decreases n - ptr,
                        {
                            let mut done = false;
                            match &events[ptr] {
                                XmlEvent::Start { name: n2, attrs: a2 } => {
                                    if str_eq(n2.as_str(), "col") {
                                        let def = parse_col_definition(a2);
                                        column_widths.add_column_definition(def);
                                        proof {
                                            gnew = gnew.push(a2@);
                                            assert(gcols + gnew =~= (gcols + gnew.drop_last())
                                                + seq![a2@]);
                                        }
                                    }
                                },
                                XmlEvent::Empty { name: n2, attrs: a2 } => {
                                    if str_eq(n2.as_str(), "col") {
                                        let def = parse_col_definition(a2);
                                        column_widths.add_column_definition(def);
                                        proof {
                                            gnew = gnew.push(a2@);
                                            assert(gcols + gnew =~= (gcols + gnew.drop_last())
                                                + seq![a2@]);
                                        }
                                    }
                                },
                                XmlEvent::End { name: n2 } => {
                                    if str_eq(n2.as_str(), "cols") {
                                        proof {
                                            assert(spec_cols_end(events@, ptr as int) == ptr
                                                as int + 1);
                                            assert(spec_cols_items(events@, ptr as int)
                                                =~= Seq::<Seq<XmlAttr>>::empty());
                                            assert(gnew + Seq::<Seq<XmlAttr>>::empty()
                                                =~= gnew);
                                        }
                                        done = true;
                                    }
                                },
                                XmlEvent::Text { content: _ } => {},
                            }
                            ptr += 1;
                            if done {
                                closed = true;
                                break ;
                            }
                        }
                        if !closed {
                            proof {
                                assert(spec_cols_end(events@, n as int) == -1);
                                assert(entry == SpecPreamble::ColsOpen);
                            }
                            return Err(DecodeError::UnexpectedEof("cols".to_owned()));
                        }
                        proof {
                            gcols = gcols + gnew;
                        }
                    } else if str_eq(name.as_str(), "sheetData") {
                        ptr += 1;
                        entered = true;
                    } else if str_eq(name.as_str(), "sheetFormatPr") {
                        let dcw = opt_numtext_attr(attrs, "defaultColWidth");
                        let bcw = opt_u8_attr(attrs, "baseColWidth");
                        let drh = opt_numtext_attr(attrs, "defaultRowHeight");
                        if let Some(w) = dcw {
                            column_widths.sheet_format.default_col_width = Some(w.clone());
                            row_definitions.sheet_format.default_col_width = Some(w);
                        }
                        if let Some(b) = bcw {
                            column_widths.sheet_format.base_col_width = Some(b);
                            row_definitions.sheet_format.base_col_width = Some(b);
                        }
                        if let Some(h) = drh {
                            column_widths.sheet_format.default_row_height = Some(h.clone());
                            row_definitions.sheet_format.default_row_height = Some(h);
                        }
                        ptr += 1;
                    } else {
                        if sh_type.is_none() {
                            sh_type = Some(name.clone());
                        }
                        ptr += 1;
                    }
                },
                XmlEvent::Empty { name, attrs } => {
                    if str_eq(name.as_str(), "dimension") {
                        match get_attribute(attrs, "ref") {
                            Some(rv) => {
                                match parse_range(rv.as_str()) {
                                    Ok(d) => {
                                        dimensions = d;
                                    },
                                    Err(e) => {
                                        proof {
                                            assert(entry == SpecPreamble::BadRef);
                                        }
                                        return Err(e);
                                    },
                                }
                            },
                            None => {
                                proof {
                                    assert(entry == SpecPreamble::NoRef);
                                }
                                return Err(DecodeError::UnexpectedNode("dimension".to_owned()));
                            },
                        }
                        ptr += 1;
                    } else if str_eq(name.as_str(), "sheetData") {
                        // an empty cell-data region: leave the cursor on it
                        // so that the first pull reports the end
                        entered = true;
                    } else if str_eq(name.as_str(), "sheetFormatPr") {
                        let dcw = opt_numtext_attr(attrs, "defaultColWidth");
                        let bcw = opt_u8_attr(attrs, "baseColWidth");
                        let drh = opt_numtext_attr(attrs, "defaultRowHeight");
                        if let Some(w) = dcw {
                            column_widths.sheet_format.default_col_width = Some(w.clone());
                            row_definitions.sheet_format.default_col_width = Some(w);
                        }
                        if let Some(b) = bcw {
                            column_widths.sheet_format.base_col_width = Some(b);
                            row_definitions.sheet_format.base_col_width = Some(b);
                        }
                        if let Some(h) = drh {
                            column_widths.sheet_format.default_row_height = Some(h.clone());
                            row_definitions.sheet_format.default_row_height = Some(h);
                        }
                        ptr += 1;
                    } else {
                        ptr += 1;
                    }
                },
                XmlEvent::End { name: _ } => {
                    ptr += 1;
                },
                XmlEvent::Text { content: _ } => {
                    ptr += 1;
                },
            }
            if entered {
                return Ok(
                    XlsxCellReader {
                        events,
                        ptr,
                        strings,
                        formats,
                        is_1904,
                        dimensions,
                        row_index: 0,
                        col_index: 0,
                        formulas: SharedFormulaTable::new(),
                        column_widths,
                        row_definitions,
                        spill_sources: Vec::new(),
                        last_cell_had_formula: false,
                    },
                );
            }
        }
        proof {
            assert(entry == SpecPreamble::Ended(opt_view(sh_type)));
        }
        match sh_type {
            Some(t) => Err(DecodeError::NotAWorksheet(t)),
            None => Err(DecodeError::UnexpectedEof("worksheet".to_owned())),
        }
    }

    /// Whether a recorded spill rectangle covers the position.
    pub fn is_in_spill(&self, pos: (u32, u32)) -> (r: bool)
        ensures
            r == spec_in_spill(self.spill_sources@, pos),
    {
        let n = self.spill_sources.len();
        let mut k: usize = 0;
        while k < n
            invariant
                k <= n == self.spill_sources@.len(),
                forall|j: int| 0 <= j < k ==> !(#[trigger] self.spill_sources@[j]).spec_contains(
                    pos.0,
                    pos.1,
                ),
            decreases n - k,
        {
            if self.spill_sources[k].contains(pos.0, pos.1) {
                return true;
            }
            k += 1;
        }
        false
    }

    /// Whether the last produced cell carried its own formula element.
    pub fn last_cell_had_formula(&self) -> (r: bool)
        ensures
            r == self.last_cell_had_formula,
    {
        self.last_cell_had_formula
    }

    /// The worksheet's declared used range.
    pub fn dimensions(&self) -> (r: Dimensions)
        ensures
            r == self.dimensions,
    {
        self.dimensions
    }

    /// Column metadata captured in the preamble.
    pub fn column_widths(&self) -> (r: &ColumnWidths)
        ensures
            r == &self.column_widths,
    {
        &self.column_widths
    }

    /// Row metadata captured so far.
    pub fn row_definitions(&self) -> (r: &RowDefinitions)
        ensures
            r == &self.row_definitions,
    {
        &self.row_definitions
    }

    /// The style stored at `style_index`.
    pub fn get_formatting_by_index(&self, style_index: usize) -> (r: Option<CellStyle>)
        ensures
            r == if style_index < self.formats@.len() {
                Some(self.formats@[style_index as int])
            } else {
                None::<CellStyle>
            },
    {
        if style_index < self.formats.len() {
            Some(self.formats[style_index])
        } else {
            None
        }
    }

    /// Record a dynamic-array formula's rectangle, when the formula element
    /// is so tagged and carries one.
    fn record_array_spill(&mut self, ty: &Option<String>, reference: &Option<String>) -> (r:
        Result<(), DecodeError>)
        ensures
            same_config(*old(self), *final(self)),
            final(self).ptr == old(self).ptr,
            final(self).row_index == old(self).row_index,
            final(self).col_index == old(self).col_index,
            final(self).formulas@ == old(self).formulas@,
            final(self).column_widths == old(self).column_widths,
            final(self).row_definitions == old(self).row_definitions,
            final(self).last_cell_had_formula == old(self).last_cell_had_formula,
            seq_prefix(old(self).spill_sources@, final(self).spill_sources@),
            match spec_spill_step(opt_view(*ty), opt_view(*reference), old(self).spill_sources@) {
                Some(sp) => r is Ok && final(self).spill_sources@ == sp,
                None => r is Err && r->Err_0 == DecodeError::MalformedRange,
            },
    {
        if let Some(t) = ty {
            if str_eq(t.as_str(), "array") {
                if let Some(rv) = reference {
                    let dim = parse_range(rv.as_str())?;
                    self.spill_sources.push(dim);
                }
            }
        }
        Ok(())
    }

    /// Consume the body of one cell element up to the cell's end: its
    /// formula, value and inline-string children. Returns the decoded value
    /// and whether a formula element was present.
    fn read_cell_body(&mut self, ty: Option<String>, style: Option<CellStyle>) -> (r: Result<
        (CellValue, bool),
        DecodeError,
    >)
        requires
            old(self).ptr <= old(self).events@.len(),
        ensures
            same_config(*old(self), *final(self)),
            final(self).row_index == old(self).row_index,
            final(self).col_index == old(self).col_index,
            final(self).formulas@ == old(self).formulas@,
            final(self).column_widths == old(self).column_widths,
            final(self).row_definitions == old(self).row_definitions,
            final(self).last_cell_had_formula == old(self).last_cell_had_formula,
            seq_prefix(old(self).spill_sources@, final(self).spill_sources@),
            old(self).ptr <= final(self).ptr <= final(self).events@.len(),
            ({
                let out = spec_cell_body(
                    old(self).events@,
                    old(self).ptr as int,
                    opt_view(ty),
                    spec_format_of(style),
                    old(self).strings.deep_view(),
                    SpecCellValue::Empty,
                    false,
                    old(self).spill_sources@,
                );
                match out {
                    SpecBodyOut::Done { value, had_formula, ptr, spills } => {
                        &&& r matches Ok(v) && v.0@ == value && v.1 == had_formula
                        &&& final(self).ptr == ptr
                        &&& final(self).spill_sources@ == spills
                    },
                    SpecBodyOut::Fail(m) => r matches Err(e) && err_matches(e, m),
                }
            }),
    {
        let mut value = CellValue::Empty;
        let mut had_formula = false;
        while self.ptr < self.events.len()
            invariant
                same_config(*old(self), *self),
                self.row_index == old(self).row_index,
                self.col_index == old(self).col_index,
                self.formulas@ == old(self).formulas@,
                self.column_widths == old(self).column_widths,
                self.row_definitions == old(self).row_definitions,
                self.last_cell_had_formula == old(self).last_cell_had_formula,
                seq_prefix(old(self).spill_sources@, self.spill_sources@),
                old(self).ptr <= self.ptr <= self.events@.len(),
                spec_cell_body(
                    old(self).events@,
                    old(self).ptr as int,
                    opt_view(ty),
                    spec_format_of(style),
                    old(self).strings.deep_view(),
                    SpecCellValue::Empty,
                    false,
                    old(self).spill_sources@,
                ) == spec_cell_body(
                    self.events@,
                    self.ptr as int,
                    opt_view(ty),
                    spec_format_of(style),
                    self.strings.deep_view(),
                    value@,
                    had_formula,
                    self.spill_sources@,
                ),
            decreases self.events@.len() - self.ptr,
        {
            let ghost at: int = self.ptr as int;
            let ghost v0 = value@;
            let ghost h0 = had_formula;
            let ghost sp0 = self.spill_sources@;
            let act = classify_cell_body(&self.events[self.ptr])?;
            match act {
                CellBodyAct::FormulaStart { ty: fty, reference, si: _ } => {
                    had_formula = true;
                    self.record_array_spill(&fty, &reference)?;
                    self.ptr += 1;
                    skip_element(&self.events, &mut self.ptr, "f")?;
                    value = CellValue::Empty;
                },
                CellBodyAct::FormulaEmpty { ty: fty, reference, si: _ } => {
                    had_formula = true;
                    self.record_array_spill(&fty, &reference)?;
                    self.ptr += 1;
                },
                CellBodyAct::ValueStart => {
                    self.ptr += 1;
                    let text = collect_text(&self.events, &mut self.ptr, "v")?;
                    let code = match &ty {
                        Some(s) => Some(s.as_str()),
                        None => None,
                    };
                    proof {
                        assert(spec_code_view(code) == opt_view(ty));
                    }
                    match decode_value(text, code, style, &self.strings) {
                        Ok(v) => {
                            value = v;
                        },
                        Err(e) => {
                            proof {
                                let d = spec_decode_value(
                                    text@,
                                    opt_view(ty),
                                    spec_format_of(style),
                                    self.strings.deep_view(),
                                );
                                assert(!(d is Value));
                                assert(spec_cell_body(
                                    self.events@,
                                    at,
                                    opt_view(ty),
                                    spec_format_of(style),
                                    self.strings.deep_view(),
                                    v0,
                                    h0,
                                    sp0,
                                ) == SpecBodyOut::Fail(SpecPullErr::Decode(d)));
                            }
                            return Err(e);
                        },
                    }
                },
                CellBodyAct::InlineStart => {
                    self.ptr += 1;
                    let got = read_inline_string(&self.events, &mut self.ptr)?;
                    value = if got.1 {
                        CellValue::Text(got.0)
                    } else {
                        CellValue::Empty
                    };
                },
                CellBodyAct::SkipWhole(nm) => {
                    self.ptr += 1;
                    skip_element(&self.events, &mut self.ptr, nm.as_str())?;
                },
                CellBodyAct::EndCell => {
                    self.ptr += 1;
                    return Ok((value, had_formula));
                },
                CellBodyAct::Ignore => {
                    self.ptr += 1;
                },
            }
        }
        Err(DecodeError::UnexpectedEof("c".to_owned()))
    }

    /// Produce the next cell together with its style, or the end of the
    /// cell-data region. Leaving a row resets the column counter and
    /// advances the row counter; each produced cell leaves the column
    /// counter one past its own column.
    pub fn next_cell_with_formatting(&mut self) -> (r: Result<
        Option<(Cell<CellValue>, Option<CellStyle>)>,
        DecodeError,
    >)
        ensures
            same_config(*old(self), *final(self)),
            final(self).formulas@ == old(self).formulas@,
            final(self).column_widths == old(self).column_widths,
            final(self).row_definitions.sheet_format == old(self).row_definitions.sheet_format,
            seq_prefix(old(self).spill_sources@, final(self).spill_sources@),
            seq_prefix(
                old(self).row_definitions.row_definitions@,
                final(self).row_definitions.row_definitions@,
            ),
            ({
                let a = old(self).row_definitions.row_definitions@;
                let b = final(self).row_definitions.row_definitions@;
                forall|j: int| a.len() <= j < b.len() ==> (#[trigger] b[j]).is_meaningful()
            }),
            old(self).ptr <= final(self).ptr,
            r is Ok ==> final(self).ptr <= final(self).events@.len(),
            r is Ok ==> final(self).ptr > old(self).ptr,
            r matches Ok(Some(cf)) ==> final(self).col_index as int == cf.0.pos.1 + 1,
            ({
                let out = spec_cell_pull(
                    old(self).events@,
                    old(self).ptr as int,
                    old(self).row_index as int,
                    old(self).col_index as int,
                    old(self).formats@,
                    old(self).strings.deep_view(),
                    old(self).spill_sources@,
                    Seq::empty(),
                );
                let olddefs = old(self).row_definitions.row_definitions@;
                match out {
                    SpecCellPull::Cell {
                        pos,
                        value,
                        style,
                        had_formula,
                        ptr,
                        row,
                        col,
                        spills,
                        defs,
                    } => {
                        &&& r matches Ok(Some(cf)) && cf.0.pos.0 as int == pos.0 && cf.0.pos.1
                            as int == pos.1 && cf.0.val@ == value && cf.1 == style
                        &&& final(self).last_cell_had_formula == had_formula
                        &&& final(self).ptr as int == ptr
                        &&& final(self).row_index as int == row
                        &&& final(self).col_index as int == col
                        &&& final(self).spill_sources@ == spills
                        &&& defs_extended(
                            olddefs,
                            final(self).row_definitions.row_definitions@,
                            defs,
                        )
                    },
                    SpecCellPull::End { ptr, row, col, defs } => {
                        &&& r matches Ok(None)
                        &&& final(self).ptr as int == ptr
                        &&& final(self).row_index as int == row
                        &&& final(self).col_index as int == col
                        &&& final(self).spill_sources@ == old(self).spill_sources@
                        &&& final(self).last_cell_had_formula == old(
                            self,
                        ).last_cell_had_formula
                        &&& defs_extended(
                            olddefs,
                            final(self).row_definitions.row_definitions@,
                            defs,
                        )
                    },
                    SpecCellPull::Fail(m) => r matches Err(e) && err_matches(e, m),
                }
            }),
    {
        if self.ptr > self.events.len() {
            return Err(DecodeError::UnexpectedEof("sheetData".to_owned()));
        }
        let ghost mut gdefs: Seq<(u32, Seq<XmlAttr>)> = Seq::empty();
        while self.ptr < self.events.len()
            invariant
                same_config(*old(self), *self),
                self.formulas@ == old(self).formulas@,
                self.column_widths == old(self).column_widths,
                self.row_definitions.sheet_format == old(self).row_definitions.sheet_format,
                self.spill_sources@ == old(self).spill_sources@,
                self.last_cell_had_formula == old(self).last_cell_had_formula,
                defs_extended(
                    old(self).row_definitions.row_definitions@,
                    self.row_definitions.row_definitions@,
                    gdefs,
                ),
                ({
                    let a = old(self).row_definitions.row_definitions@;
                    let b = self.row_definitions.row_definitions@;
                    forall|j: int| a.len() <= j < b.len() ==> (#[trigger] b[j]).is_meaningful()
                }),
                old(self).ptr <= self.ptr <= self.events@.len(),
                spec_cell_pull(
                    old(self).events@,
                    old(self).ptr as int,
                    old(self).row_index as int,
                    old(self).col_index as int,
                    old(self).formats@,
                    old(self).strings.deep_view(),
                    old(self).spill_sources@,
                    Seq::empty(),
                ) == spec_cell_pull(
                    self.events@,
                    self.ptr as int,
                    self.row_index as int,
                    self.col_index as int,
                    self.formats@,
                    self.strings.deep_view(),
                    self.spill_sources@,
                    gdefs,
                ),
            decreases self.events@.len() - self.ptr,
        {
            let ghost at: int = self.ptr as int;
            let ghost ev = self.events@[at];
            let ghost aseq: Seq<XmlAttr> = if ev is Start {
                ev->Start_attrs@
            } else if ev is Empty {
                ev->Empty_attrs@
            } else {
                Seq::empty()
            };
            let act = classify_outer(&self.events[self.ptr], &self.formats)?;
            match act {
                OuterAct::RowStart(opt) => {
                    if let Some((row, def)) = opt {
                        proof {
                            assert(row_def_matches(def, row, aseq));
                            assert(def.is_meaningful() == spec_row_meaningful(aseq));
                            assert(spec_row_start(aseq, self.row_index as int) == Some(
                                ((row as int), spec_row_meaningful(aseq)),
                            ));
                        }
                        let m = def.meaningful();
                        self.row_index = row;
                        if m {
                            self.row_definitions.add_row_definition(def);
                            proof {
                                gdefs = gdefs.push((row, aseq));
                            }
                        }
                    }
                    self.ptr += 1;
                },
                OuterAct::RowEnd => {
                    if self.row_index == u32::MAX {
                        return Err(DecodeError::CounterOverflow);
                    }
                    self.row_index = self.row_index + 1;
                    self.col_index = 0;
                    self.ptr += 1;
                },
                OuterAct::SheetDataEnd => {
                    self.ptr += 1;
                    return Ok(None);
                },
                OuterAct::CellStart { explicit, style, ty } => {
                    let pos = match explicit {
                        Some(p) => {
                            self.col_index = p.1;
                            p
                        },
                        None => (self.row_index, self.col_index),
                    };
                    self.ptr += 1;
                    let got = match self.read_cell_body(ty, style) {
                        Ok(g) => g,
                        Err(e) => {
                            return Err(e);
                        },
                    };
                    if pos.1 == u32::MAX {
                        return Err(DecodeError::CounterOverflow);
                    }
                    self.col_index = pos.1 + 1;
                    self.last_cell_had_formula = got.1;
                    return Ok(Some((Cell::new(pos, got.0), style)));
                },
                OuterAct::CellEmpty { explicit, style, ty: _ } => {
                    let pos = match explicit {
                        Some(p) => {
                            self.col_index = p.1;
                            p
                        },
                        None => (self.row_index, self.col_index),
                    };
                    self.ptr += 1;
                    if pos.1 == u32::MAX {
                        return Err(DecodeError::CounterOverflow);
                    }
                    self.col_index = pos.1 + 1;
                    self.last_cell_had_formula = false;
                    return Ok(Some((Cell::new(pos, CellValue::Empty), style)));
                },
                OuterAct::Ignore => {
                    self.ptr += 1;
                },
            }
        }
        Err(DecodeError::UnexpectedEof("sheetData".to_owned()))
    }

    /// Resolve one formula element against the shared-formula table: a
    /// master stores its slot, a dependent is rewritten from its slot's
    /// template by its own offset, and a dependent whose position lies
    /// outside the declared range keeps the element's own (empty) text.
    fn handle_formula(
        &mut self,
        pos: (u32, u32),
        f_text: String,
        ty: &Option<String>,
        reference: &Option<String>,
        si: &Option<String>,
    ) -> (r: Result<String, DecodeError>)
        ensures
            same_config(*old(self), *final(self)),
            final(self).ptr == old(self).ptr,
            final(self).row_index == old(self).row_index,
            final(self).col_index == old(self).col_index,
            final(self).column_widths == old(self).column_widths,
            final(self).row_definitions == old(self).row_definitions,
            final(self).last_cell_had_formula == old(self).last_cell_had_formula,
            final(self).spill_sources@ == old(self).spill_sources@,
            old(self).formulas@.len() <= final(self).formulas@.len(),
            match spec_handle_formula(
                pos,
                f_text@,
                opt_view(*ty),
                opt_view(*reference),
                opt_view(*si),
                table_model(old(self).formulas@),
            ) {
                Ok(t) => r matches Ok(s) && s@ == t.0 && table_model(final(self).formulas@)
                    == t.1,
                Err(m) => r matches Err(e) && err_matches(e, m),
            },
    {
        let is_shared = match ty {
            Some(t) => str_eq(t.as_str(), "shared"),
            None => false,
        };
        if !is_shared {
            return Ok(f_text);
        }
        let sidx = match si {
            Some(s) => match parse_usize_text(s.as_str()) {
                Some(i) => i,
                None => {
                    return Err(DecodeError::BadSharedIndex);
                },
            },
            None => {
                return Err(DecodeError::MissingSharedIndex);
            },
        };
        match reference {
            Some(rv) => {
                // the master cell: remember its template and range
                let rng = parse_range(rv.as_str())?;
                self.formulas.store(
                    sidx,
                    SharedFormulaSlot { template: f_text.clone(), master: pos, range: rng },
                );
                Ok(f_text)
            },
            None => {
                // a dependent cell: rewrite the template by this cell's
                // offset from the master
                let mut rewritten: Option<String> = None;
                match self.formulas.get(sidx) {
                    Some(slot) => {
                        if slot.range.contains(pos.0, pos.1) {
                            let off = (
                                (pos.0 as i64) - (slot.master.0 as i64),
                                (pos.1 as i64) - (slot.master.1 as i64),
                            );
                            let rw = crate::formula::replace_cell_names(
                                slot.template.as_str(),
                                off,
                            )?;
                            rewritten = Some(rw);
                        }
                    },
                    None => {},
                }
                match rewritten {
                    Some(rw) => Ok(rw),
                    None => Ok(f_text),
                }
            },
        }
    }

    /// Consume the body of one cell element in the formula pass: collect
    /// the formula text, resolve sharing, and record array rectangles.
    fn read_formula_cell_body(&mut self, pos: (u32, u32)) -> (r: Result<
        Option<String>,
        DecodeError,
    >)
        requires
            old(self).ptr <= old(self).events@.len(),
        ensures
            same_config(*old(self), *final(self)),
            final(self).row_index == old(self).row_index,
            final(self).col_index == old(self).col_index,
            final(self).column_widths == old(self).column_widths,
            final(self).row_definitions == old(self).row_definitions,
            final(self).last_cell_had_formula == old(self).last_cell_had_formula,
            seq_prefix(old(self).spill_sources@, final(self).spill_sources@),
            old(self).formulas@.len() <= final(self).formulas@.len(),
            old(self).ptr <= final(self).ptr <= final(self).events@.len(),
            ({
                let out = spec_formula_body(
                    old(self).events@,
                    old(self).ptr as int,
                    pos,
                    None,
                    old(self).spill_sources@,
                    table_model(old(self).formulas@),
                );
                match out {
                    SpecFormulaBodyOut::Done { text, ptr, spills, table } => {
                        &&& match text {
                            Some(t) => r matches Ok(v) && (v matches Some(s) && s@ == t),
                            None => r matches Ok(v) && v is None,
                        }
                        &&& final(self).ptr as int == ptr
                        &&& final(self).spill_sources@ == spills
                        &&& table_model(final(self).formulas@) == table
                    },
                    SpecFormulaBodyOut::Fail(m) => r matches Err(e) && err_matches(e, m),
                }
            }),
    {
        let mut value: Option<String> = None;
        while self.ptr < self.events.len()
            invariant
                same_config(*old(self), *self),
                self.row_index == old(self).row_index,
                self.col_index == old(self).col_index,
                self.column_widths == old(self).column_widths,
                self.row_definitions == old(self).row_definitions,
                self.last_cell_had_formula == old(self).last_cell_had_formula,
                seq_prefix(old(self).spill_sources@, self.spill_sources@),
                old(self).formulas@.len() <= self.formulas@.len(),
                old(self).ptr <= self.ptr <= self.events@.len(),
                spec_formula_body(
                    old(self).events@,
                    old(self).ptr as int,
                    pos,
                    None,
                    old(self).spill_sources@,
                    table_model(old(self).formulas@),
                ) == spec_formula_body(
                    self.events@,
                    self.ptr as int,
                    pos,
                    opt_view(value),
                    self.spill_sources@,
                    table_model(self.formulas@),
                ),
            decreases self.events@.len() - self.ptr,
        {
            let act = classify_formula_body(&self.events[self.ptr])?;
            match act {
                CellBodyAct::FormulaStart { ty, reference, si } => {
                    self.ptr += 1;
                    let f_text = collect_text(&self.events, &mut self.ptr, "f")?;
                    let resolved = self.handle_formula(pos, f_text, &ty, &reference, &si)?;
                    value = Some(resolved);
                    self.record_array_spill(&ty, &reference)?;
                },
                CellBodyAct::FormulaEmpty { ty, reference, si } => {
                    self.ptr += 1;
                    let resolved = self.handle_formula(pos, String::new(), &ty, &reference, &si)?;
                    value = Some(resolved);
                    self.record_array_spill(&ty, &reference)?;
                },
                CellBodyAct::SkipWhole(nm) => {
                    self.ptr += 1;
                    skip_element(&self.events, &mut self.ptr, nm.as_str())?;
                },
                CellBodyAct::ValueStart => {
                    self.ptr += 1;
                    skip_element(&self.events, &mut self.ptr, "v")?;
                },
                CellBodyAct::InlineStart => {
                    self.ptr += 1;
                    skip_element(&self.events, &mut self.ptr, "is")?;
                },
                CellBodyAct::EndCell => {
                    self.ptr += 1;
                    return Ok(value);
                },
                CellBodyAct::Ignore => {
                    self.ptr += 1;
                },
            }
        }
        Err(DecodeError::UnexpectedEof("c".to_owned()))
    }

    /// Produce the next cell's formula text together with its style, or the
    /// end of the cell-data region. Shared formulas are reconstructed, so a
    /// dependent cell yields its own rewritten text; a cell without a
    /// formula, or a dependent outside its declared range, yields empty
    /// text.
    pub fn next_formula_with_formatting(&mut self) -> (r: Result<
        Option<(Cell<String>, Option<CellStyle>)>,
        DecodeError,
    >)
        ensures
            same_config(*old(self), *final(self)),
            final(self).column_widths == old(self).column_widths,
            final(self).row_definitions == old(self).row_definitions,
            final(self).last_cell_had_formula == old(self).last_cell_had_formula,
            seq_prefix(old(self).spill_sources@, final(self).spill_sources@),
            old(self).formulas@.len() <= final(self).formulas@.len(),
            old(self).ptr <= final(self).ptr,
            r is Ok ==> final(self).ptr <= final(self).events@.len(),
            r is Ok ==> final(self).ptr > old(self).ptr,
            r matches Ok(Some(cf)) ==> final(self).col_index as int == cf.0.pos.1 + 1,
            ({
                let out = spec_formula_pull(
                    old(self).events@,
                    old(self).ptr as int,
                    old(self).row_index as int,
                    old(self).col_index as int,
                    old(self).formats@,
                    old(self).spill_sources@,
                    table_model(old(self).formulas@),
                );
                match out {
                    SpecFormulaPull::Cell { pos, text, style, ptr, row, col, spills, table } => {
                        &&& r matches Ok(Some(cf)) && cf.0.pos.0 as int == pos.0 && cf.0.pos.1
                            as int == pos.1 && cf.0.val@ == text && cf.1 == style
                        &&& final(self).ptr as int == ptr
                        &&& final(self).row_index as int == row
                        &&& final(self).col_index as int == col
                        &&& final(self).spill_sources@ == spills
                        &&& table_model(final(self).formulas@) == table
                    },
                    SpecFormulaPull::End { ptr, row, col } => {
                        &&& r matches Ok(None)
                        &&& final(self).ptr as int == ptr
                        &&& final(self).row_index as int == row
                        &&& final(self).col_index as int == col
                        &&& final(self).spill_sources@ == old(self).spill_sources@
                        &&& final(self).formulas@ == old(self).formulas@
                    },
                    SpecFormulaPull::Fail(m) => r matches Err(e) && err_matches(e, m),
                }
            }),
    {
        if self.ptr > self.events.len() {
            return Err(DecodeError::UnexpectedEof("sheetData".to_owned()));
        }
        while self.ptr < self.events.len()
            invariant
                same_config(*old(self), *self),
                self.column_widths == old(self).column_widths,
                self.row_definitions == old(self).row_definitions,
                self.last_cell_had_formula == old(self).last_cell_had_formula,
                self.spill_sources@ == old(self).spill_sources@,
                self.formulas@ == old(self).formulas@,
                old(self).ptr <= self.ptr <= self.events@.len(),
                spec_formula_pull(
                    old(self).events@,
                    old(self).ptr as int,
                    old(self).row_index as int,
                    old(self).col_index as int,
                    old(self).formats@,
                    old(self).spill_sources@,
                    table_model(old(self).formulas@),
                ) == spec_formula_pull(
                    self.events@,
                    self.ptr as int,
                    self.row_index as int,
                    self.col_index as int,
                    self.formats@,
                    self.spill_sources@,
                    table_model(self.formulas@),
                ),
            decreases self.events@.len() - self.ptr,
        {
            let ghost at: int = self.ptr as int;
            let ghost ev = self.events@[at];
            let ghost aseq: Seq<XmlAttr> = if ev is Start {
                ev->Start_attrs@
            } else if ev is Empty {
                ev->Empty_attrs@
            } else {
                Seq::empty()
            };
            let act = classify_outer(&self.events[self.ptr], &self.formats)?;
            match act {
                OuterAct::RowStart(opt) => {
                    if let Some((row, _)) = opt {
                        proof {
                            assert(spec_row_start(aseq, self.row_index as int) == Some(
                                ((row as int), spec_row_meaningful(aseq)),
                            ));
                        }
                        self.row_index = row;
                    }
                    self.ptr += 1;
                },
                OuterAct::RowEnd => {
                    if self.row_index == u32::MAX {
                        return Err(DecodeError::CounterOverflow);
                    }
                    self.row_index = self.row_index + 1;
                    self.col_index = 0;
                    self.ptr += 1;
                },
                OuterAct::SheetDataEnd => {
                    self.ptr += 1;
                    return Ok(None);
                },
                OuterAct::CellStart { explicit, style, ty: _ } => {
                    let pos = match explicit {
                        Some(p) => {
                            self.col_index = p.1;
                            p
                        },
                        None => (self.row_index, self.col_index),
                    };
                    self.ptr += 1;
                    let value = match self.read_formula_cell_body(pos) {
                        Ok(v) => v,
                        Err(e) => {
                            return Err(e);
                        },
                    };
                    if pos.1 == u32::MAX {
                        return Err(DecodeError::CounterOverflow);
                    }
                    self.col_index = pos.1 + 1;
                    let text = match value {
                        Some(t) => t,
                        None => String::new(),
                    };
                    return Ok(Some((Cell::new(pos, text), style)));
                },
                OuterAct::CellEmpty { explicit, style, ty: _ } => {
                    let pos = match explicit {
                        Some(p) => {
                            self.col_index = p.1;
                            p
                        },
                        None => (self.row_index, self.col_index),
                    };
                    self.ptr += 1;
                    if pos.1 == u32::MAX {
                        return Err(DecodeError::CounterOverflow);
                    }
                    self.col_index = pos.1 + 1;
                    return Ok(Some((Cell::new(pos, String::new()), style)));
                },
                OuterAct::Ignore => {
                    self.ptr += 1;
                },
            }
        }
        Err(DecodeError::UnexpectedEof("sheetData".to_owned()))
    }

    /// Produce the next cell's formula text, or the end of the region: the
    /// formatting variant's result with the style dropped.
    pub fn next_formula(&mut self) -> (r: Result<Option<Cell<String>>, DecodeError>)
        ensures
            same_config(*old(self), *final(self)),
            final(self).column_widths == old(self).column_widths,
            final(self).row_definitions == old(self).row_definitions,
            seq_prefix(old(self).spill_sources@, final(self).spill_sources@),
            old(self).formulas@.len() <= final(self).formulas@.len(),
            r is Ok ==> final(self).ptr > old(self).ptr,
            r matches Ok(Some(c)) ==> final(self).col_index as int == c.pos.1 + 1,
            ({
                let out = spec_formula_pull(
                    old(self).events@,
                    old(self).ptr as int,
                    old(self).row_index as int,
                    old(self).col_index as int,
                    old(self).formats@,
                    old(self).spill_sources@,
                    table_model(old(self).formulas@),
                );
                match out {
                    SpecFormulaPull::Cell { pos, text, style, ptr, row, col, spills, table } => {
                        &&& r matches Ok(Some(c)) && c.pos.0 as int == pos.0 && c.pos.1 as int
                            == pos.1 && c.val@ == text
                        &&& final(self).ptr as int == ptr
                        &&& final(self).row_index as int == row
                        &&& final(self).col_index as int == col
                        &&& final(self).spill_sources@ == spills
                        &&& table_model(final(self).formulas@) == table
                    },
                    SpecFormulaPull::End { ptr, row, col } => {
                        &&& r matches Ok(None)
                        &&& final(self).ptr as int == ptr
                        &&& final(self).row_index as int == row
                        &&& final(self).col_index as int == col
                        &&& final(self).spill_sources@ == old(self).spill_sources@
                        &&& final(self).formulas@ == old(self).formulas@
                    },
                    SpecFormulaPull::Fail(m) => r matches Err(e) && err_matches(e, m),
                }
            }),
    {
        match self.next_formula_with_formatting() {
            Ok(Some(cf)) => Ok(Some(cf.0)),
            Ok(None) => Ok(None),
            Err(e) => Err(e),
        }
    }

    /// Produce the next cell, or the end of the cell-data region: the
    /// formatting variant's result with the style dropped.
    pub fn next_cell(&mut self) -> (r: Result<Option<Cell<CellValue>>, DecodeError>)
        ensures
            same_config(*old(self), *final(self)),
            final(self).formulas@ == old(self).formulas@,
            final(self).column_widths == old(self).column_widths,
            seq_prefix(old(self).spill_sources@, final(self).spill_sources@),
            seq_prefix(
                old(self).row_definitions.row_definitions@,
                final(self).row_definitions.row_definitions@,
            ),
            r is Ok ==> final(self).ptr > old(self).ptr,
            r matches Ok(Some(c)) ==> final(self).col_index as int == c.pos.1 + 1,
            ({
                let out = spec_cell_pull(
                    old(self).events@,
                    old(self).ptr as int,
                    old(self).row_index as int,
                    old(self).col_index as int,
                    old(self).formats@,
                    old(self).strings.deep_view(),
                    old(self).spill_sources@,
                    Seq::empty(),
                );
                let olddefs = old(self).row_definitions.row_definitions@;
                match out {
                    SpecCellPull::Cell {
                        pos,
                        value,
                        style,
                        had_formula,
                        ptr,
                        row,
                        col,
                        spills,
                        defs,
                    } => {
                        &&& r matches Ok(Some(c)) && c.pos.0 as int == pos.0 && c.pos.1 as int
                            == pos.1 && c.val@ == value
                        &&& final(self).last_cell_had_formula == had_formula
                        &&& final(self).ptr as int == ptr
                        &&& final(self).row_index as int == row
                        &&& final(self).col_index as int == col
                        &&& final(self).spill_sources@ == spills
                        &&& defs_extended(
                            olddefs,
                            final(self).row_definitions.row_definitions@,
                            defs,
                        )
                    },
                    SpecCellPull::End { ptr, row, col, defs } => {
                        &&& r matches Ok(None)
                        &&& final(self).ptr as int == ptr
                        &&& final(self).row_index as int == row
                        &&& final(self).col_index as int == col
                        &&& final(self).spill_sources@ == old(self).spill_sources@
                        &&& defs_extended(
                            olddefs,
                            final(self).row_definitions.row_definitions@,
                            defs,
                        )
                    },
                    SpecCellPull::Fail(m) => r matches Err(e) && err_matches(e, m),
                }
            }),
    {
        match self.next_cell_with_formatting() {
            Ok(Some(cf)) => Ok(Some(cf.0)),
            Ok(None) => Ok(None),
            Err(e) => Err(e),
        }
    }
}

/// The non-cursor state two decoder values share: the events and the
/// worksheet-wide tables.
pub open spec fn same_config(a: XlsxCellReader, b: XlsxCellReader) -> bool {
    &&& a.events@ == b.events@
    &&& a.strings@ == b.strings@
    &&& a.formats@ == b.formats@
    &&& a.is_1904 == b.is_1904
    &&& a.dimensions == b.dimensions
}

} // verus!
