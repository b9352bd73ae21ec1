//! Shared-formula reconstruction: the per-slot offset table and the
//! reference-rewriting pass that shifts a template's relative references by
//! a coordinate delta.

use vstd::prelude::*;

use crate::coord::{
    col_value_exec, col_value_range, digit_end, digits_value_u32, encode_column,
    lemma_digit_end_bounds, lemma_upper_end_bounds, scan_digits, scan_upper, spec_encode_col,
    upper_end, Dimensions,
};
use crate::text::{
    char_eq, digits_value_range, encode_decimal, is_digit, is_lower, is_upper, spec_decimal,
};
use crate::DecodeError;

verus! {

use vstd::string::StrSliceExecFns;

/// One shared-formula slot: the master cell's formula text, the master's
/// position, and the rectangle the formula is shared over. The offset table
/// the slot answers with maps each position inside the rectangle to its
/// componentwise distance from the master.
#[derive(Debug)]
pub struct SharedFormulaSlot {
    /// The master cell's formula text.
    pub template: String,
    /// The master cell's position as (row, column).
    pub master: (u32, u32),
    /// The rectangle the formula is shared over.
    pub range: Dimensions,
}

impl SharedFormulaSlot {
    /// The offset stored for `pos`: its distance from the master when `pos`
    /// lies inside the shared rectangle, absent otherwise.
    pub open spec fn spec_offset(self, pos: (u32, u32)) -> Option<(int, int)> {
        if self.range.spec_contains(pos.0, pos.1) {
            Some((pos.0 - self.master.0, pos.1 - self.master.1))
        } else {
            None
        }
    }
}

/// The slot table, indexed by the dense shared index; gaps between used
/// indices hold empty slots.
#[derive(Debug)]
pub struct SharedFormulaTable {
    slots: Vec<Option<SharedFormulaSlot>>,
}

impl View for SharedFormulaTable {
    type V = Seq<Option<SharedFormulaSlot>>;

    closed spec fn view(&self) -> Seq<Option<SharedFormulaSlot>> {
        self.slots@
    }
}

impl SharedFormulaTable {
    /// An empty table.
    pub fn new() -> (r: Self)
        ensures
            r@.len() == 0,
    {
        SharedFormulaTable { slots: Vec::new() }
    }

    /// Store a slot at index `si`, growing the table with empty slots as
    /// needed; an existing slot at `si` is replaced.
    pub fn store(&mut self, si: usize, slot: SharedFormulaSlot)
        ensures
            final(self)@.len() as int == if si + 1 > old(self)@.len() {
                si as int + 1
            } else {
                old(self)@.len() as int
            },
            final(self)@[si as int] == Some(slot),
            forall|j: int| 0 <= j < final(self)@.len() && j != si ==> final(self)@[j] == if j
                < old(self)@.len() {
                old(self)@[j]
            } else {
                None::<SharedFormulaSlot>
            },
    {
        if si < self.slots.len() {
            self.slots.set(si, Some(slot));
        } else {
            while self.slots.len() < si
                invariant
                    old(self)@.len() <= self@.len() <= si,
                    forall|j: int| 0 <= j < old(self)@.len() ==> self@[j] == old(self)@[j],
                    forall|j: int| old(self)@.len() <= j < self@.len() ==> self@[j]
                        is None,
                decreases si - self.slots.len(),
            {
                self.slots.push(None);
            }
            self.slots.push(Some(slot));
        }
    }

    /// The slot at index `si`, if the table reaches it and it is filled.
    pub fn get(&self, si: usize) -> (r: Option<&SharedFormulaSlot>)
        ensures
            match r {
                Some(s) => si < self@.len() && self@[si as int] == Some(*s),
                None => si >= self@.len() || self@[si as int] is None,
            },
    {
        if si < self.slots.len() {
            match &self.slots[si] {
                Some(s) => Some(s),
                None => None,
            }
        } else {
            None
        }
    }

    /// The offset recorded for `pos` under index `si`: present exactly when
    /// the slot exists and `pos` lies inside its shared rectangle.
    pub fn offset_for(&self, si: usize, pos: (u32, u32)) -> (r: Option<(i64, i64)>)
        ensures
            match r {
                Some(o) => si < self@.len() && (self@[si as int] matches Some(slot)
                    && slot.spec_offset(pos) == Some(((o.0 as int), (o.1 as int)))),
                None => si >= self@.len() || self@[si as int] is None || (
                self@[si as int]->0.spec_offset(pos) is None),
            },
    {
        match self.get(si) {
            Some(slot) => {
                if slot.range.contains(pos.0, pos.1) {
                    Some(
                        (
                            (pos.0 as i64) - (slot.master.0 as i64),
                            (pos.1 as i64) - (slot.master.1 as i64),
                        ),
                    )
                } else {
                    None
                }
            },
            None => None,
        }
    }
}

/// A character that can continue an identifier: letters, digits, the
/// underscore and the absolute-lock mark.
pub open spec fn is_ident_char(c: char) -> bool {
    is_digit(c) || is_upper(c) || is_lower(c) || c == '_' || c == '$'
}

/// Whether `c` can continue an identifier.
pub fn ident_char(c: char) -> (r: bool)
    ensures
        r == is_ident_char(c),
{
    let u = c as u32;
    (48 <= u && u <= 57) || (65 <= u && u <= 90) || (97 <= u && u <= 122) || u == 95 || u == 36
}

/// A single-cell reference recognized inside formula text.
pub struct RefMatch {
    /// The column carries an absolute lock.
    pub dollar_col: bool,
    /// Column number, one-based.
    pub col: int,
    /// The row carries an absolute lock.
    pub dollar_row: bool,
    /// Row number, one-based.
    pub row: int,
    /// Index just past the reference.
    pub end: int,
}

/// The single-cell reference starting at `i`: an optional column lock, one
/// to three column letters, an optional row lock, then a row number, not
/// continued by an identifier character.
pub open spec fn spec_ref_match(s: Seq<char>, i: int) -> Option<RefMatch>
    recommends
        0 <= i < s.len(),
{
    let j = if s[i] == '$' {
        i + 1
    } else {
        i
    };
    let le = upper_end(s, j, s.len() as int);
    if le - j < 1 || le - j > 3 {
        None
    } else {
        let m = if le < s.len() && s[le] == '$' {
            le + 1
        } else {
            le
        };
        let de = digit_end(s, m, s.len() as int);
        if de == m || (de < s.len() && is_ident_char(s[de])) {
            None
        } else {
            let row = digits_value_range(s, m, de);
            if 1 <= row <= u32::MAX {
                Some(
                    RefMatch {
                        dollar_col: s[i] == '$',
                        col: col_value_range(s, j, le),
                        dollar_row: le < s.len() && s[le] == '$',
                        row,
                        end: de,
                    },
                )
            } else {
                None
            }
        }
    }
}

/// Recognize a single-cell reference starting at `i`; the result carries
/// (column lock, column, row lock, row, end index).
fn try_ref_match(s: &str, i: usize) -> (r: Option<(bool, u32, bool, u32, usize)>)
    requires
        i < s@.len(),
    ensures
        match spec_ref_match(s@, i as int) {
            None => r is None,
            Some(rm) => r matches Some(t) && t.0 == rm.dollar_col && t.1 == rm.col && t.2
                == rm.dollar_row && t.3 == rm.row && t.4 == rm.end,
        },
        r matches Some(t) ==> i < t.4 <= s@.len(),
{
    let n = s.unicode_len();
    let dollar_col = char_eq(s.get_char(i), '$');
    let j = if dollar_col {
        i + 1
    } else {
        i
    };
    let le = scan_upper(s, j, n);
    proof {
        lemma_upper_end_bounds(s@, j as int, n as int);
    }
    if le - j < 1 || le - j > 3 {
        return None;
    }
    let dollar_row = le < n && char_eq(s.get_char(le), '$');
    let m = if dollar_row {
        le + 1
    } else {
        le
    };
    let de = scan_digits(s, m, n);
    proof {
        lemma_digit_end_bounds(s@, m as int, n as int);
    }
    if de == m {
        return None;
    }
    if de < n && ident_char(s.get_char(de)) {
        return None;
    }
    let col = col_value_exec(s, j, le);
    match digits_value_u32(s, m, de) {
        Some(row) => {
            if row >= 1 {
                Some((dollar_col, col, dollar_row, row, de))
            } else {
                None
            }
        },
        None => None,
    }
}

/// The spelling a recognized reference is replaced by: locked components
/// keep their number, unlocked ones shift by the delta; absent when a
/// shifted component leaves the valid range.
pub open spec fn spec_rewrite_ref(rm: RefMatch, dr: int, dc: int) -> Option<Seq<char>> {
    let nc = if rm.dollar_col {
        rm.col
    } else {
        rm.col + dc
    };
    let nr = if rm.dollar_row {
        rm.row
    } else {
        rm.row + dr
    };
    if 1 <= nc <= u32::MAX && 1 <= nr <= u32::MAX {
        Some(
            (if rm.dollar_col {
                seq!['$']
            } else {
                Seq::empty()
            }) + spec_encode_col(nc) + (if rm.dollar_row {
                seq!['$']
            } else {
                Seq::empty()
            }) + spec_decimal(nr),
        )
    } else {
        None
    }
}

/// The rewritten text of `s[i..]`, scanning with the in-string flag and
/// whether the previous character could continue an identifier. Quoted
/// regions are copied; recognized references are replaced; absent when a
/// shifted reference leaves the valid range.
pub open spec fn spec_rewrite_from(
    s: Seq<char>,
    i: int,
    in_str: bool,
    prev_ident: bool,
    dr: int,
    dc: int,
) -> Option<Seq<char>>
    decreases s.len() - i,
    via spec_rewrite_from_dec
{
    if i < 0 || i >= s.len() {
        Some(Seq::empty())
    } else {
        let c = s[i];
        if !in_str && !prev_ident && spec_ref_match(s, i) is Some {
            let rm = spec_ref_match(s, i)->0;
            match spec_rewrite_ref(rm, dr, dc) {
                Some(enc) => match spec_rewrite_from(s, rm.end, false, true, dr, dc) {
                    Some(rest) => Some(enc + rest),
                    None => None,
                },
                None => None,
            }
        } else {
            let ns = if in_str {
                c != '"'
            } else {
                c == '"'
            };
            match spec_rewrite_from(s, i + 1, ns, is_ident_char(c), dr, dc) {
                Some(rest) => Some(seq![c] + rest),
                None => None,
            }
        }
    }
}

#[via_fn]
proof fn spec_rewrite_from_dec(
    s: Seq<char>,
    i: int,
    in_str: bool,
    prev_ident: bool,
    dr: int,
    dc: int,
) {
    if 0 <= i < s.len() {
        let j = if s[i] == '$' {
            i + 1
        } else {
            i
        };
        lemma_upper_end_bounds(s, j, s.len() as int);
        let le = upper_end(s, j, s.len() as int);
        if j <= le <= s.len() {
            let m = if le < s.len() && s[le] == '$' {
                le + 1
            } else {
                le
            };
            if m <= s.len() {
                lemma_digit_end_bounds(s, m, s.len() as int);
            }
        }
    }
}

/// The whole formula text rewritten by the delta.
pub open spec fn spec_rewrite(s: Seq<char>, dr: int, dc: int) -> Option<Seq<char>> {
    spec_rewrite_from(s, 0, false, false, dr, dc)
}

/// The loop relation: what is written so far, continued by the rewrite of
/// the rest, is the rewrite of the whole.
spec fn rewrite_inv(
    s: Seq<char>,
    i: int,
    in_str: bool,
    prev_ident: bool,
    dr: int,
    dc: int,
    written: Seq<char>,
) -> bool {
    match spec_rewrite_from(s, i, in_str, prev_ident, dr, dc) {
        Some(rest) => spec_rewrite(s, dr, dc) == Some(written + rest),
        None => spec_rewrite(s, dr, dc) is None,
    }
}

/// Rewrite every single-cell reference in `f` by the (row, column) delta:
/// locked components stay, unlocked ones shift, quoted text is untouched.
/// Errs exactly when a shifted reference leaves the valid range.
pub fn replace_cell_names(f: &str, offset: (i64, i64)) -> (r: Result<String, DecodeError>)
    requires
        -0xFFFF_FFFF <= offset.0 <= 0xFFFF_FFFF,
        -0xFFFF_FFFF <= offset.1 <= 0xFFFF_FFFF,
    ensures
        r is Ok <==> spec_rewrite(f@, offset.0 as int, offset.1 as int) is Some,
        r is Ok ==> Some(r->Ok_0@) == spec_rewrite(f@, offset.0 as int, offset.1 as int),
        r is Err ==> r->Err_0 == DecodeError::ReferenceOutOfBounds,
{
    let ghost dr: int = offset.0 as int;
    let ghost dc: int = offset.1 as int;
    let n = f.unicode_len();
    let mut out = String::new();
    let mut cs: usize = 0;  // start of the pending plain-copy region
    let mut i: usize = 0;
    let mut in_str = false;
    let mut prev_ident = false;
    while i < n
        invariant
            cs <= i <= n == f@.len(),
            -0xFFFF_FFFF <= dr <= 0xFFFF_FFFF,
            -0xFFFF_FFFF <= dc <= 0xFFFF_FFFF,
            dr == offset.0 && dc == offset.1,
            rewrite_inv(
                f@,
                i as int,
                in_str,
                prev_ident,
                dr,
                dc,
                out@ + f@.subrange(cs as int, i as int),
            ),
        decreases n - i,
    {
        let c = f.get_char(i);
        let mut matched = false;
        if !in_str && !prev_ident {
            match try_ref_match(f, i) {
                Some((dcol, col, drow, row, end)) => {
                    let ghost rm = spec_ref_match(f@, i as int)->0;
                    let ghost w = out@ + f@.subrange(cs as int, i as int);
                    let nc: i64 = if dcol {
                        col as i64
                    } else {
                        col as i64 + offset.1
                    };
                    let nr: i64 = if drow {
                        row as i64
                    } else {
                        row as i64 + offset.0
                    };
                    if nc < 1 || nr < 1 || nc > u32::MAX as i64 || nr > u32::MAX as i64 {
                        proof {
                            assert(spec_rewrite_ref(rm, dr, dc) is None);
                            assert(spec_rewrite_from(f@, i as int, in_str, prev_ident, dr, dc)
                                is None);
                        }
                        return Err(DecodeError::ReferenceOutOfBounds);
                    }
                    proof {
                        assert(spec_rewrite_ref(rm, dr, dc) is Some);
                    }
                    // flush the pending plain-copy region, then the
                    // rewritten reference
                    out.append(f.substring_char(cs, i));
                    if dcol {
                        out.append("$");
                    }
                    out.append(encode_column(nc as u32).as_str());
                    if drow {
                        out.append("$");
                    }
                    out.append(encode_decimal(nr as u32).as_str());
                    proof {
                        reveal_strlit("$");
                        assert("$"@ =~= seq!['$']);
                        let enc = spec_rewrite_ref(rm, dr, dc)->0;
                        assert(out@ =~= w + enc);
                        let nxt = spec_rewrite_from(f@, rm.end, false, true, dr, dc);
                        if nxt is Some {
                            assert(w + (enc + nxt->0) =~= (w + enc) + nxt->0);
                            assert((w + enc) + f@.subrange(rm.end, rm.end) =~= w + enc);
                        }
                    }
                    i = end;
                    cs = end;
                    in_str = false;
                    prev_ident = true;
                    matched = true;
                },
                None => {},
            }
        }
        if !matched {
            let ghost w = out@ + f@.subrange(cs as int, i as int);
            let ghost ns: bool = if in_str {
                f@[i as int] != '"'
            } else {
                f@[i as int] == '"'
            };
            proof {
                assert(f@.subrange(cs as int, i as int + 1) =~= f@.subrange(cs as int, i as int)
                    + seq![f@[i as int]]);
                let nxt = spec_rewrite_from(
                    f@,
                    i as int + 1,
                    ns,
                    is_ident_char(f@[i as int]),
                    dr,
                    dc,
                );
                if nxt is Some {
                    assert(w + (seq![f@[i as int]] + nxt->0) =~= (out@ + f@.subrange(
                        cs as int,
                        i as int + 1,
                    )) + nxt->0);
                }
            }
            in_str = if in_str {
                !char_eq(c, '"')
            } else {
                char_eq(c, '"')
            };
            prev_ident = ident_char(c);
            i += 1;
        }
    }
    let tail = f.substring_char(cs, n);
    out.append(tail);
    proof {
        assert(out@ =~= (out@ + Seq::<char>::empty()));
    }
    Ok(out)
}

} // verus!
