//! Coordinate and range model: the bijective base-26 column-letter codec,
//! cell-reference parsing, and inclusive rectangles.

use vstd::prelude::*;

use crate::text::{
    all_digits_range, digit_char, digit_val, digits_range, digits_value_range, first_at, is_digit,
    is_upper, upper_char,
};
use crate::DecodeError;

verus! {

/// Value of a column letter: A is one, Z is twenty-six.
pub open spec fn letter_val(c: char) -> int {
    (c as u32) - 64
}

/// Value of the letter run `s[from..to]` read as a bijective base-26 number.
pub open spec fn col_value_range(s: Seq<char>, from: int, to: int) -> int
    decreases to - from,
{
    if to <= from {
        0
    } else {
        col_value_range(s, from, to - 1) * 26 + letter_val(s[to - 1])
    }
}

/// Every character of `s[from..to]` is an uppercase letter.
pub open spec fn all_upper_range(s: Seq<char>, from: int, to: int) -> bool {
    forall|k: int| from <= k < to ==> is_upper(#[trigger] s[k])
}

/// First index in `s[i..until]` that is not an uppercase letter, or `until`.
pub open spec fn upper_end(s: Seq<char>, i: int, until: int) -> int
    decreases until - i,
{
    if i >= until {
        until
    } else if is_upper(s[i]) {
        upper_end(s, i + 1, until)
    } else {
        i
    }
}

/// First index in `s[i..until]` that is not a digit, or `until`.
pub open spec fn digit_end(s: Seq<char>, i: int, until: int) -> int
    decreases until - i,
{
    if i >= until {
        until
    } else if is_digit(s[i]) {
        digit_end(s, i + 1, until)
    } else {
        i
    }
}

pub proof fn lemma_upper_end_bounds(s: Seq<char>, i: int, until: int)
    requires
        i <= until,
    ensures
        i <= upper_end(s, i, until) <= until,
        all_upper_range(s, i, upper_end(s, i, until)),
        upper_end(s, i, until) < until ==> !is_upper(s[upper_end(s, i, until)]),
    decreases until - i,
{
    if i < until && is_upper(s[i]) {
        lemma_upper_end_bounds(s, i + 1, until);
    }
}

pub proof fn lemma_digit_end_bounds(s: Seq<char>, i: int, until: int)
    requires
        i <= until,
    ensures
        i <= digit_end(s, i, until) <= until,
        all_digits_range(s, i, digit_end(s, i, until)),
        digit_end(s, i, until) < until ==> !is_digit(s[digit_end(s, i, until)]),
    decreases until - i,
{
    if i < until && is_digit(s[i]) {
        lemma_digit_end_bounds(s, i + 1, until);
    }
}

/// Scan uppercase letters in `s[from..until]`; return the first index that
/// does not continue the run.
pub fn scan_upper(s: &str, from: usize, until: usize) -> (r: usize)
    requires
        from <= until <= s@.len(),
    ensures
        r == upper_end(s@, from as int, until as int),
        from <= r <= until,
{
    let mut j = from;
    while j < until
        invariant
            from <= j <= until <= s@.len(),
            upper_end(s@, from as int, until as int) == upper_end(s@, j as int, until as int),
            all_upper_range(s@, from as int, j as int),
        decreases until - j,
    {
        if !upper_char(s.get_char(j)) {
            return j;
        }
        j += 1;
    }
    j
}

/// Scan digits in `s[from..until]`; return the first index that does not
/// continue the run.
pub fn scan_digits(s: &str, from: usize, until: usize) -> (r: usize)
    requires
        from <= until <= s@.len(),
    ensures
        r == digit_end(s@, from as int, until as int),
        from <= r <= until,
{
    let mut j = from;
    while j < until
        invariant
            from <= j <= until <= s@.len(),
            digit_end(s@, from as int, until as int) == digit_end(s@, j as int, until as int),
            all_digits_range(s@, from as int, j as int),
        decreases until - j,
    {
        if !digit_char(s.get_char(j)) {
            return j;
        }
        j += 1;
    }
    j
}

/// The digit run `s[from..to]` is nonnegative and grows with its length.
pub proof fn lemma_digits_value_nonneg(s: Seq<char>, from: int, to: int)
    requires
        all_digits_range(s, from, to),
    ensures
        digits_value_range(s, from, to) >= 0,
    decreases to - from,
{
    if to > from {
        lemma_digits_value_nonneg(s, from, to - 1);
    }
}

/// Compute the value of the digit run `s[from..to]`, refusing values that
/// do not fit.
pub fn digits_value_u32(s: &str, from: usize, to: usize) -> (r: Option<u32>)
    requires
        from <= to <= s@.len(),
        all_digits_range(s@, from as int, to as int),
    ensures
        r is Some <==> (to > from && digits_value_range(s@, from as int, to as int) <= u32::MAX),
        r is Some ==> r->0 == digits_value_range(s@, from as int, to as int),
{
    if to == from {
        return None;
    }
    let mut v: u64 = 0;
    let mut j = from;
    while j < to
        invariant
            from <= j <= to <= s@.len(),
            all_digits_range(s@, from as int, to as int),
            v == digits_value_range(s@, from as int, j as int),
            v <= u32::MAX,
        decreases to - j,
    {
        let d = s.get_char(j) as u32;
        proof {
            assert(is_digit(s@[j as int]));
        }
        v = v * 10 + ((d - 48) as u64);
        if v > u32::MAX as u64 {
            proof {
                lemma_digits_value_grows(s@, from as int, j + 1, to as int);
            }
            return None;
        }
        j += 1;
    }
    Some(v as u32)
}

/// A longer digit run never has a smaller value.
pub proof fn lemma_digits_value_grows(s: Seq<char>, from: int, mid: int, to: int)
    requires
        from <= mid <= to,
        all_digits_range(s, from, to),
    ensures
        digits_value_range(s, from, mid) <= digits_value_range(s, from, to),
    decreases to - mid,
{
    if mid < to {
        lemma_digits_value_nonneg(s, from, to - 1);
        lemma_digits_value_grows(s, from, mid, to - 1);
        assert(digits_value_range(s, from, to) == digits_value_range(s, from, to - 1) * 10
            + digit_val(s[to - 1]));
        assert(digit_val(s[to - 1]) >= 0);
    }
}

/// Letter with the bijective base-26 digit value `i`: zero is A.
pub open spec fn letter_of(i: int) -> char {
    if i == 0 {
        'A'
    } else if i == 1 {
        'B'
    } else if i == 2 {
        'C'
    } else if i == 3 {
        'D'
    } else if i == 4 {
        'E'
    } else if i == 5 {
        'F'
    } else if i == 6 {
        'G'
    } else if i == 7 {
        'H'
    } else if i == 8 {
        'I'
    } else if i == 9 {
        'J'
    } else if i == 10 {
        'K'
    } else if i == 11 {
        'L'
    } else if i == 12 {
        'M'
    } else if i == 13 {
        'N'
    } else if i == 14 {
        'O'
    } else if i == 15 {
        'P'
    } else if i == 16 {
        'Q'
    } else if i == 17 {
        'R'
    } else if i == 18 {
        'S'
    } else if i == 19 {
        'T'
    } else if i == 20 {
        'U'
    } else if i == 21 {
        'V'
    } else if i == 22 {
        'W'
    } else if i == 23 {
        'X'
    } else if i == 24 {
        'Y'
    } else {
        'Z'
    }
}

/// One-character string holding the letter with digit value `i`.
pub fn letter_str(i: u32) -> (r: &'static str)
    requires
        i < 26,
    ensures
        r@ =~= seq![letter_of(i as int)],
{
    proof {
        reveal_strlit("A");
        reveal_strlit("B");
        reveal_strlit("C");
        reveal_strlit("D");
        reveal_strlit("E");
        reveal_strlit("F");
        reveal_strlit("G");
        reveal_strlit("H");
        reveal_strlit("I");
        reveal_strlit("J");
        reveal_strlit("K");
        reveal_strlit("L");
        reveal_strlit("M");
        reveal_strlit("N");
        reveal_strlit("O");
        reveal_strlit("P");
        reveal_strlit("Q");
        reveal_strlit("R");
        reveal_strlit("S");
        reveal_strlit("T");
        reveal_strlit("U");
        reveal_strlit("V");
        reveal_strlit("W");
        reveal_strlit("X");
        reveal_strlit("Y");
        reveal_strlit("Z");
    }
    match i {
        0 => "A",
        1 => "B",
        2 => "C",
        3 => "D",
        4 => "E",
        5 => "F",
        6 => "G",
        7 => "H",
        8 => "I",
        9 => "J",
        10 => "K",
        11 => "L",
        12 => "M",
        13 => "N",
        14 => "O",
        15 => "P",
        16 => "Q",
        17 => "R",
        18 => "S",
        19 => "T",
        20 => "U",
        21 => "V",
        22 => "W",
        23 => "X",
        24 => "Y",
        _ => "Z",
    }
}

/// Bijective base-26 spelling of the column number `n`: one is A, and the
/// empty sequence spells zero.
pub open spec fn spec_encode_col(n: int) -> Seq<char>
    decreases n,
{
    if n <= 0 {
        Seq::empty()
    } else {
        spec_encode_col((n - 1) / 26) + seq![letter_of((n - 1) % 26)]
    }
}

/// A column value is unchanged by widening the sequence on the right.
proof fn lemma_col_value_congruent(s: Seq<char>, t: Seq<char>, from: int, to: int)
    requires
        0 <= from,
        to <= s.len(),
        to <= t.len(),
        forall|k: int| from <= k < to ==> s[k] == t[k],
    ensures
        col_value_range(s, from, to) == col_value_range(t, from, to),
    decreases to - from,
{
    if to > from {
        lemma_col_value_congruent(s, t, from, to - 1);
    }
}

/// The column spelling of `n` decodes back to `n`, is uppercase, and has at
/// most three letters when `n` is at most 18278.
pub proof fn lemma_encode_col_value(n: int)
    requires
        n >= 0,
    ensures
        ({
            let s = spec_encode_col(n);
            &&& col_value_range(s, 0, s.len() as int) == n
            &&& all_upper_range(s, 0, s.len() as int)
            &&& n >= 1 ==> s.len() >= 1
            &&& n == 0 ==> s.len() == 0
            &&& n <= 26 ==> s.len() <= 1
            &&& n <= 702 ==> s.len() <= 2
            &&& n <= 18278 ==> s.len() <= 3
        }),
    decreases n,
{
    if n >= 1 {
        let m = (n - 1) / 26;
        let rem = (n - 1) % 26;
        vstd::arithmetic::div_mod::lemma_fundamental_div_mod(n - 1, 26);
        assert(0 <= m < n);
        lemma_encode_col_value(m);
        let a = spec_encode_col(m);
        let s = spec_encode_col(n);
        assert(s == a + seq![letter_of(rem)]);
        lemma_col_value_congruent(a, s, 0, a.len() as int);
        assert(col_value_range(s, 0, s.len() as int) == col_value_range(s, 0, a.len() as int) * 26
            + letter_val(s[a.len() as int]));
    }
}

/// Spell the column number `n` in column letters.
pub fn encode_column(n: u32) -> (r: String)
    requires
        n >= 1,
    ensures
        r@ == spec_encode_col(n as int),
    decreases n,
{
    let q = (n - 1) / 26;
    let rem = (n - 1) % 26;
    if q == 0 {
        let r = letter_str(rem).to_owned();
        proof {
            assert(spec_encode_col(0) =~= Seq::<char>::empty());
            assert(r@ =~= spec_encode_col(n as int));
        }
        r
    } else {
        let mut s = encode_column(q);
        s.append(letter_str(rem));
        proof {
            assert(s@ =~= spec_encode_col(n as int));
        }
        s
    }
}

/// A column-letter text: one to three uppercase letters.
pub open spec fn spec_decode_column(s: Seq<char>) -> Option<int> {
    if 1 <= s.len() <= 3 && all_upper_range(s, 0, s.len() as int) {
        Some(col_value_range(s, 0, s.len() as int))
    } else {
        None
    }
}

/// Decode a column-letter text into its column number.
pub fn decode_column(s: &str) -> (r: Result<u32, DecodeError>)
    ensures
        r is Ok <==> spec_decode_column(s@) is Some,
        r is Ok ==> Some(r->Ok_0 as int) == spec_decode_column(s@),
        r is Err ==> r->Err_0 == DecodeError::MalformedRange,
{
    let n = s.unicode_len();
    let le = scan_upper(s, 0, n);
    proof {
        lemma_upper_end_bounds(s@, 0, n as int);
    }
    if le != n || n < 1 || n > 3 {
        return Err(DecodeError::MalformedRange);
    }
    Ok(col_value_exec(s, 0, n))
}

/// Law: for every column number up to 16384, the column-letter encoding
/// decodes back to the original number.
pub proof fn lemma_column_roundtrip(n: int)
    requires
        1 <= n <= 16384,
    ensures
        spec_decode_column(spec_encode_col(n)) == Some(n),
{
    lemma_encode_col_value(n);
}

/// A cell reference `s[from..to]`: one to three column letters, then a row
/// number of at least one; both are returned zero-based.
pub open spec fn spec_cell_ref_at(s: Seq<char>, from: int, to: int) -> Option<(int, int)> {
    let le = upper_end(s, from, to);
    let de = digit_end(s, le, to);
    if le - from < 1 || le - from > 3 || de != to || de == le {
        None
    } else {
        let col = col_value_range(s, from, le);
        let row = digits_value_range(s, le, to);
        if 1 <= row <= u32::MAX {
            Some((row - 1, col - 1))
        } else {
            None
        }
    }
}

/// Compute the column value of the letter run `s[from..le]`, one to three
/// letters long.
pub(crate) fn col_value_exec(s: &str, from: usize, le: usize) -> (r: u32)
    requires
        from <= le <= s@.len(),
        le - from <= 3,
        all_upper_range(s@, from as int, le as int),
    ensures
        r == col_value_range(s@, from as int, le as int),
        r <= 18278,
        le > from ==> r >= 1,
{
    let mut v: u32 = 0;
    let mut j = from;
    while j < le
        invariant
            from <= j <= le <= s@.len(),
            le - from <= 3,
            all_upper_range(s@, from as int, le as int),
            v == col_value_range(s@, from as int, j as int),
            v <= 18278,
            j > from ==> v >= 1,
            j - from == 0 ==> v == 0,
            j - from == 1 ==> v <= 26,
            j - from == 2 ==> v <= 702,
        decreases le - j,
    {
        let c = s.get_char(j) as u32;
        proof {
            assert(is_upper(s@[j as int]));
        }
        v = v * 26 + (c - 64);
        j += 1;
    }
    v
}

/// Parse a cell reference such as B5 into a zero-based (row, column) pair.
pub fn parse_cell_ref_at(s: &str, from: usize, to: usize) -> (r: Result<(u32, u32), DecodeError>)
    requires
        from <= to <= s@.len(),
    ensures
        r is Ok <==> spec_cell_ref_at(s@, from as int, to as int) is Some,
        r is Ok ==> spec_cell_ref_at(s@, from as int, to as int) == Some((
            (r->Ok_0.0 as int),
            (r->Ok_0.1 as int),
        )),
        r is Err ==> r->Err_0 == DecodeError::MalformedRange,
{
    let le = scan_upper(s, from, to);
    let de = scan_digits(s, le, to);
    proof {
        lemma_upper_end_bounds(s@, from as int, to as int);
        lemma_digit_end_bounds(s@, le as int, to as int);
    }
    if le - from < 1 || le - from > 3 || de != to || de == le {
        return Err(DecodeError::MalformedRange);
    }
    let col = col_value_exec(s, from, le);
    match digits_value_u32(s, le, to) {
        Some(row) => {
            if row >= 1 {
                Ok((row - 1, col - 1))
            } else {
                Err(DecodeError::MalformedRange)
            }
        },
        None => Err(DecodeError::MalformedRange),
    }
}

/// Parse a whole string as a cell reference.
pub fn parse_cell_ref(s: &str) -> (r: Result<(u32, u32), DecodeError>)
    ensures
        r is Ok <==> spec_cell_ref_at(s@, 0, s@.len() as int) is Some,
        r is Ok ==> spec_cell_ref_at(s@, 0, s@.len() as int) == Some((
            (r->Ok_0.0 as int),
            (r->Ok_0.1 as int),
        )),
        r is Err ==> r->Err_0 == DecodeError::MalformedRange,
{
    let n = s.unicode_len();
    parse_cell_ref_at(s, 0, n)
}

/// A one-based row number in text, returned zero-based.
pub open spec fn spec_row_number(s: Seq<char>) -> Option<int> {
    if digits_range(s, 0, s.len() as int) && 1 <= digits_value_range(s, 0, s.len() as int)
        <= u32::MAX {
        Some(digits_value_range(s, 0, s.len() as int) - 1)
    } else {
        None
    }
}

/// Parse a one-based row number into its zero-based value.
pub fn parse_row_number(s: &str) -> (r: Result<u32, DecodeError>)
    ensures
        r is Ok <==> spec_row_number(s@) is Some,
        r is Ok ==> Some(r->Ok_0 as int) == spec_row_number(s@),
        r is Err ==> r->Err_0 == DecodeError::MalformedRange,
{
    let n = s.unicode_len();
    let de = scan_digits(s, 0, n);
    proof {
        lemma_digit_end_bounds(s@, 0, n as int);
    }
    if de != n || n == 0 {
        return Err(DecodeError::MalformedRange);
    }
    match digits_value_u32(s, 0, n) {
        Some(row) => {
            if row >= 1 {
                Ok(row - 1)
            } else {
                Err(DecodeError::MalformedRange)
            }
        },
        None => Err(DecodeError::MalformedRange),
    }
}

/// An inclusive rectangle of cells, both corners zero-based.
#[derive(Debug, Clone, Copy, PartialEq, Eq)]
pub struct Dimensions {
    /// Top-left corner as (row, column).
    pub start: (u32, u32),
    /// Bottom-right corner as (row, column).
    pub end: (u32, u32),
}

impl Dimensions {
    /// The corners are ordered componentwise.
    pub open spec fn wf(self) -> bool {
        self.start.0 <= self.end.0 && self.start.1 <= self.end.1
    }

    /// The rectangle covers the position.
    pub open spec fn spec_contains(self, row: u32, col: u32) -> bool {
        self.start.0 <= row <= self.end.0 && self.start.1 <= col <= self.end.1
    }

    /// Whether the rectangle covers the position.
    pub fn contains(&self, row: u32, col: u32) -> (r: bool)
        ensures
            r == self.spec_contains(row, col),
    {
        self.start.0 <= row && row <= self.end.0 && self.start.1 <= col && col <= self.end.1
    }
}

impl Default for Dimensions {
    /// The single-cell rectangle at the origin.
    fn default() -> (r: Self)
        ensures
            r.start == (0u32, 0u32),
            r.end == (0u32, 0u32),
    {
        Dimensions { start: (0, 0), end: (0, 0) }
    }
}

/// A range text `s`: either one cell reference, or two joined by a colon
/// with the first corner at or before the second.
pub open spec fn spec_parse_range(s: Seq<char>) -> Option<((int, int), (int, int))> {
    let c = first_at(s, 0, s.len() as int, ':', ':');
    if c == s.len() {
        match spec_cell_ref_at(s, 0, s.len() as int) {
            Some(p) => Some((p, p)),
            None => None,
        }
    } else {
        match (spec_cell_ref_at(s, 0, c), spec_cell_ref_at(s, c + 1, s.len() as int)) {
            (Some(a), Some(b)) => if a.0 <= b.0 && a.1 <= b.1 {
                Some((a, b))
            } else {
                None
            },
            _ => None,
        }
    }
}

/// Parse a range text such as A1:D5 into a rectangle.
pub fn parse_range(s: &str) -> (r: Result<Dimensions, DecodeError>)
    ensures
        r is Ok <==> spec_parse_range(s@) is Some,
        r is Ok ==> ({
            let d = r->Ok_0;
            &&& spec_parse_range(s@) == Some(
                (
                    ((d.start.0 as int), (d.start.1 as int)),
                    ((d.end.0 as int), (d.end.1 as int)),
                ),
            )
            &&& d.wf()
        }),
        r is Err ==> r->Err_0 == DecodeError::MalformedRange,
{
    let n = s.unicode_len();
    let c = crate::text::find_at(s, 0, n, ':', ':');
    if c == n {
        let p = parse_cell_ref_at(s, 0, n)?;
        Ok(Dimensions { start: p, end: p })
    } else {
        let a = parse_cell_ref_at(s, 0, c)?;
        let b = parse_cell_ref_at(s, c + 1, n)?;
        if a.0 <= b.0 && a.1 <= b.1 {
            Ok(Dimensions { start: a, end: b })
        } else {
            Err(DecodeError::MalformedRange)
        }
    }
}

} // verus!
