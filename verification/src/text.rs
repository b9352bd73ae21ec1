//! Character and text utilities shared by the coordinate, value and
//! formula modules.

use vstd::prelude::*;

verus! {

use vstd::string::StringSliceAdditionalSpecFns;

/// A decimal digit character.
pub open spec fn is_digit(c: char) -> bool {
    48 <= (c as u32) && (c as u32) <= 57
}

/// An uppercase letter A through Z.
pub open spec fn is_upper(c: char) -> bool {
    65 <= (c as u32) && (c as u32) <= 90
}

/// A lowercase letter a through z.
pub open spec fn is_lower(c: char) -> bool {
    97 <= (c as u32) && (c as u32) <= 122
}

/// Numeric value of a digit character.
pub open spec fn digit_val(c: char) -> int {
    (c as u32) - 48
}

/// Value of a digit sequence read left to right in base ten.
pub open spec fn digits_value(s: Seq<char>) -> int
    decreases s.len(),
{
    if s.len() == 0 {
        0
    } else {
        digits_value(s.drop_last()) * 10 + digit_val(s.last())
    }
}

/// Every character is a digit; the empty sequence qualifies.
pub open spec fn all_digits(s: Seq<char>) -> bool {
    forall|i: int| 0 <= i < s.len() ==> is_digit(#[trigger] s[i])
}

/// A nonempty run of digits.
pub open spec fn is_digits(s: Seq<char>) -> bool {
    s.len() >= 1 && all_digits(s)
}

pub fn digit_char(c: char) -> (r: bool)
    ensures
        r == is_digit(c),
{
    let u = c as u32;
    48 <= u && u <= 57
}

pub fn upper_char(c: char) -> (r: bool)
    ensures
        r == is_upper(c),
{
    let u = c as u32;
    65 <= u && u <= 90
}

/// Character equality through the scalar values.
pub fn char_eq(a: char, b: char) -> (r: bool)
    ensures
        r == (a == b),
{
    proof {
        broadcast use vstd::utf8::char_u32_cast;

    }
    a as u32 == b as u32
}

/// Whether two string slices hold the same characters.
pub fn str_eq(a: &str, b: &str) -> (r: bool)
    ensures
        r == (a@ == b@),
{
    let ab = a.as_bytes();
    let bb = b.as_bytes();
    if ab.len() != bb.len() {
        return false;
    }
    let n = ab.len();
    let mut i: usize = 0;
    while i < n
        invariant
            n == ab@.len() == bb@.len(),
            i <= n,
            ab@ == a.spec_bytes(),
            bb@ == b.spec_bytes(),
            forall|j: int| 0 <= j < i ==> ab@[j] == bb@[j],
        decreases n - i,
    {
        if ab[i] != bb[i] {
            return false;
        }
        i += 1;
    }
    proof {
        assert(a.spec_bytes() =~= b.spec_bytes());
        vstd::utf8::encode_utf8_decode_utf8(a@);
        vstd::utf8::encode_utf8_decode_utf8(b@);
    }
    true
}

/// Value of the digit run `s[from..to]` read left to right in base ten.
pub open spec fn digits_value_range(s: Seq<char>, from: int, to: int) -> int
    decreases to - from,
{
    if to <= from {
        0
    } else {
        digits_value_range(s, from, to - 1) * 10 + digit_val(s[to - 1])
    }
}

/// Every character of `s[from..to]` is a digit.
pub open spec fn all_digits_range(s: Seq<char>, from: int, to: int) -> bool {
    forall|k: int| from <= k < to ==> is_digit(#[trigger] s[k])
}

/// `s[from..to]` is a nonempty run of digits.
pub open spec fn digits_range(s: Seq<char>, from: int, to: int) -> bool {
    to - from >= 1 && all_digits_range(s, from, to)
}

/// Index of the first occurrence of `a` or `b` in `s[i..until]`, or `until`.
pub open spec fn first_at(s: Seq<char>, i: int, until: int, a: char, b: char) -> int
    decreases until - i,
{
    if i >= until {
        until
    } else if s[i] == a || s[i] == b {
        i
    } else {
        first_at(s, i + 1, until, a, b)
    }
}

pub proof fn lemma_first_at_bounds(s: Seq<char>, i: int, until: int, a: char, b: char)
    requires
        i <= until,
    ensures
        i <= first_at(s, i, until, a, b) <= until,
        ({
            let f = first_at(s, i, until, a, b);
            f < until ==> (s[f] == a || s[f] == b)
        }),
        forall|k: int|
            i <= k < first_at(s, i, until, a, b) ==> #[trigger] s[k] != a && s[k] != b,
    decreases until - i,
{
    if i < until && s[i] != a && s[i] != b {
        lemma_first_at_bounds(s, i + 1, until, a, b);
    }
}

/// Find the first occurrence of `a` or `b` in `s[from..until]`.
pub fn find_at(s: &str, from: usize, until: usize, a: char, b: char) -> (r: usize)
    requires
        from <= until <= s@.len(),
    ensures
        r == first_at(s@, from as int, until as int, a, b),
        from <= r <= until,
{
    let mut j = from;
    while j < until
        invariant
            from <= j <= until <= s@.len(),
            first_at(s@, from as int, until as int, a, b) == first_at(s@, j as int, until as int, a, b),
        decreases until - j,
    {
        let c = s.get_char(j);
        if char_eq(c, a) || char_eq(c, b) {
            return j;
        }
        j += 1;
    }
    j
}

/// Check that `s[from..to]` holds only digits.
pub fn range_digits(s: &str, from: usize, to: usize) -> (r: bool)
    requires
        from <= to <= s@.len(),
    ensures
        r == all_digits_range(s@, from as int, to as int),
{
    let mut j = from;
    while j < to
        invariant
            from <= j <= to <= s@.len(),
            all_digits_range(s@, from as int, j as int),
        decreases to - j,
    {
        if !digit_char(s.get_char(j)) {
            return false;
        }
        j += 1;
    }
    true
}

/// `c` equals the pattern character `p`, ignoring case; `p` is lowercase.
pub open spec fn char_ci_eq(c: char, p: char) -> bool {
    c == p || (97 <= (p as u32) && (p as u32) <= 122 && (c as u32) + 32 == (p as u32))
}

/// `s[from..to]` spells `p`, ignoring case; `p` is lowercase.
pub open spec fn ci_match_at(s: Seq<char>, from: int, to: int, p: Seq<char>) -> bool {
    to - from == p.len() && (forall|k: int| 0 <= k < p.len() ==> char_ci_eq(s[from + k], #[trigger] p[k]))
}

/// Check that `s[from..to]` spells the lowercase pattern `p`, ignoring case.
pub fn rest_ci(s: &str, from: usize, to: usize, p: &str) -> (r: bool)
    requires
        from <= to <= s@.len(),
    ensures
        r == ci_match_at(s@, from as int, to as int, p@),
{
    proof {
        broadcast use vstd::utf8::char_u32_cast;

    }
    let m = p.unicode_len();
    if to - from != m {
        return false;
    }
    let mut k: usize = 0;
    while k < m
        invariant
            from + m == to,
            to <= s@.len(),
            k <= m == p@.len(),
            forall|j: int| 0 <= j < k ==> char_ci_eq(s@[from + j], #[trigger] p@[j]),
        decreases m - k,
    {
        let c = s.get_char(from + k) as u32;
        let pc = p.get_char(k) as u32;
        if !(c == pc || (97 <= pc && pc <= 122 && c + 32 == pc)) {
            proof {
                broadcast use vstd::utf8::char_u32_cast;

            }
            return false;
        }
        k += 1;
    }
    true
}

/// `s[from..to]` spells an infinity or not-a-number literal, ignoring case.
pub open spec fn special_float_at(s: Seq<char>, from: int, to: int) -> bool {
    ci_match_at(s, from, to, "inf"@) || ci_match_at(s, from, to, "infinity"@) || ci_match_at(
        s,
        from,
        to,
        "nan"@,
    )
}

/// `s[from..to]` is a decimal mantissa: digits with at most one point and
/// at least one digit on some side of it.
pub open spec fn mantissa_range(s: Seq<char>, from: int, to: int) -> bool {
    let d = first_at(s, from, to, '.', '.');
    if d == to {
        digits_range(s, from, to)
    } else {
        all_digits_range(s, from, d) && all_digits_range(s, d + 1, to) && (d > from || to > d + 1)
    }
}

/// `s[from..to]` is an exponent tail: an optional sign, then digits.
pub open spec fn exp_tail_range(s: Seq<char>, from: int, to: int) -> bool {
    let f = if from < to && (s[from] == '+' || s[from] == '-') {
        from + 1
    } else {
        from
    };
    digits_range(s, f, to)
}

/// `s[from..to]` is a mantissa with an optional exponent part.
pub open spec fn numeric_body_range(s: Seq<char>, from: int, to: int) -> bool {
    let e = first_at(s, from, to, 'e', 'E');
    if e == to {
        mantissa_range(s, from, to)
    } else {
        mantissa_range(s, from, e) && exp_tail_range(s, e + 1, to)
    }
}

/// The text parses as a floating-point number: an optional sign, then an
/// infinity or not-a-number literal or a mantissa with optional exponent.
pub open spec fn is_numeric_text(s: Seq<char>) -> bool {
    let from: int = if s.len() > 0 && (s[0] == '+' || s[0] == '-') {
        1
    } else {
        0
    };
    special_float_at(s, from, s.len() as int) || numeric_body_range(s, from, s.len() as int)
}

/// Check `s[from..to]` for the mantissa shape.
fn mantissa_exec(s: &str, from: usize, to: usize) -> (r: bool)
    requires
        from <= to <= s@.len(),
    ensures
        r == mantissa_range(s@, from as int, to as int),
{
    let d = find_at(s, from, to, '.', '.');
    if d == to {
        to > from && range_digits(s, from, to)
    } else {
        range_digits(s, from, d) && range_digits(s, d + 1, to) && (d > from || to > d + 1)
    }
}

/// Check `s[from..to]` for the exponent-tail shape.
fn exp_tail_exec(s: &str, from: usize, to: usize) -> (r: bool)
    requires
        from <= to <= s@.len(),
    ensures
        r == exp_tail_range(s@, from as int, to as int),
{
    let mut f = from;
    if from < to {
        let c = s.get_char(from);
        if char_eq(c, '+') || char_eq(c, '-') {
            f = from + 1;
        }
    }
    to > f && range_digits(s, f, to)
}

/// Whether the whole text parses as a floating-point number.
pub fn numeric_text(s: &str) -> (r: bool)
    ensures
        r == is_numeric_text(s@),
{
    let n = s.unicode_len();
    let mut from: usize = 0;
    if n > 0 {
        let c = s.get_char(0);
        if char_eq(c, '+') || char_eq(c, '-') {
            from = 1;
        }
    }
    if rest_ci(s, from, n, "inf") || rest_ci(s, from, n, "infinity") || rest_ci(s, from, n, "nan") {
        return true;
    }
    let e = find_at(s, from, n, 'e', 'E');
    let man_ok = mantissa_exec(s, from, e);
    if e == n {
        man_ok
    } else {
        man_ok && exp_tail_exec(s, e + 1, n)
    }
}

/// Character with the digit value `i`.
pub open spec fn digit_of(i: int) -> char {
    if i == 0 {
        '0'
    } else if i == 1 {
        '1'
    } else if i == 2 {
        '2'
    } else if i == 3 {
        '3'
    } else if i == 4 {
        '4'
    } else if i == 5 {
        '5'
    } else if i == 6 {
        '6'
    } else if i == 7 {
        '7'
    } else if i == 8 {
        '8'
    } else {
        '9'
    }
}

/// One-character string holding the digit with value `i`.
pub fn digit_str(i: u32) -> (r: &'static str)
    requires
        i < 10,
    ensures
        r@ =~= seq![digit_of(i as int)],
{
    proof {
        reveal_strlit("0");
        reveal_strlit("1");
        reveal_strlit("2");
        reveal_strlit("3");
        reveal_strlit("4");
        reveal_strlit("5");
        reveal_strlit("6");
        reveal_strlit("7");
        reveal_strlit("8");
        reveal_strlit("9");
    }
    match i {
        0 => "0",
        1 => "1",
        2 => "2",
        3 => "3",
        4 => "4",
        5 => "5",
        6 => "6",
        7 => "7",
        8 => "8",
        _ => "9",
    }
}

/// Decimal spelling of the nonnegative number `n`.
pub open spec fn spec_decimal(n: int) -> Seq<char>
    decreases n,
{
    if n < 10 {
        seq![digit_of(n)]
    } else {
        spec_decimal(n / 10) + seq![digit_of(n % 10)]
    }
}

/// Spell `n` in decimal.
pub fn encode_decimal(n: u32) -> (r: String)
    ensures
        r@ == spec_decimal(n as int),
    decreases n,
{
    if n < 10 {
        digit_str(n).to_owned()
    } else {
        let mut s = encode_decimal(n / 10);
        s.append(digit_str(n % 10));
        proof {
            assert(s@ =~= spec_decimal(n as int));
        }
        s
    }
}

} // verus!

