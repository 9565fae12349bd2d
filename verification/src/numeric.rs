use vstd::prelude::*;

verus! {

/// A decimal digit.
pub open spec fn is_digit(c: char) -> bool {
    ('0' as u32) <= (c as u32) && (c as u32) <= ('9' as u32)
}

/// Every character of `s` in `[lo, hi)` is a digit.
pub open spec fn all_digits_in(s: Seq<char>, lo: int, hi: int) -> bool {
    forall|k: int| lo <= k < hi ==> is_digit(#[trigger] s[k])
}

/// Where the significand ends: the first `e`/`E` in `[i, hi)`, or `hi`.
pub open spec fn exp_start(s: Seq<char>, i: int, hi: int) -> int
    decreases hi - i,
{
    if i < 0 || i >= hi {
        hi
    } else if s[i] == 'e' || s[i] == 'E' {
        i
    } else {
        exp_start(s, i + 1, hi)
    }
}

/// The first `.` in `[i, hi)`, or `hi`.
pub open spec fn dot_position(s: Seq<char>, i: int, hi: int) -> int
    decreases hi - i,
{
    if i < 0 || i >= hi {
        hi
    } else if s[i] == '.' {
        i
    } else {
        dot_position(s, i + 1, hi)
    }
}

/// Past an optional leading sign.
pub open spec fn sign_end(s: Seq<char>, lo: int, hi: int) -> int {
    if lo < hi && (s[lo] == '+' || s[lo] == '-') {
        lo + 1
    } else {
        lo
    }
}

/// The case-insensitive special words `inf`, `infinity` and `nan`.
pub open spec fn is_special_word(s: Seq<char>, lo: int, hi: int) -> bool {
    (hi - lo == 3 && (s[lo] == 'i' || s[lo] == 'I') && (s[lo + 1] == 'n' || s[lo + 1] == 'N') && (
    s[lo + 2] == 'f' || s[lo + 2] == 'F')) || (hi - lo == 8 && (s[lo] == 'i' || s[lo] == 'I') && (
    s[lo + 1] == 'n' || s[lo + 1] == 'N') && (s[lo + 2] == 'f' || s[lo + 2] == 'F') && (s[lo + 3]
        == 'i' || s[lo + 3] == 'I') && (s[lo + 4] == 'n' || s[lo + 4] == 'N') && (s[lo + 5] == 'i'
        || s[lo + 5] == 'I') && (s[lo + 6] == 't' || s[lo + 6] == 'T') && (s[lo + 7] == 'y' || s[lo
        + 7] == 'Y')) || (hi - lo == 3 && (s[lo] == 'n' || s[lo] == 'N') && (s[lo + 1] == 'a' || s[
    lo + 1] == 'A') && (s[lo + 2] == 'n' || s[lo + 2] == 'N'))
}

/// A significand over `[lo, hi)`: digits with at most one point somewhere,
/// and at least one digit.
pub open spec fn is_significand(s: Seq<char>, lo: int, hi: int) -> bool {
    let d = dot_position(s, lo, hi);
    if d == hi {
        lo < hi && all_digits_in(s, lo, hi)
    } else {
        hi - lo > 1 && all_digits_in(s, lo, d) && all_digits_in(s, d + 1, hi)
    }
}

/// An exponent part over `[lo, hi)`: `e` or `E`, an optional sign, and at
/// least one digit.
pub open spec fn is_exponent(s: Seq<char>, lo: int, hi: int) -> bool {
    lo < hi && (s[lo] == 'e' || s[lo] == 'E') && {
        let r = sign_end(s, lo + 1, hi);
        r < hi && all_digits_in(s, r, hi)
    }
}

/// The grammar that `f64`'s `FromStr` documents: an optional sign, then one
/// of the special words or a significand with an optional exponent.
pub open spec fn is_decimal_number(s: Seq<char>) -> bool {
    let hi = s.len() as int;
    let lo = sign_end(s, 0, hi);
    is_special_word(s, lo, hi) || {
        let e = exp_start(s, lo, hi);
        is_significand(s, lo, e) && (e == hi || is_exponent(s, e, hi))
    }
}

fn digit_char(c: char) -> (b: bool)
    ensures
        b == is_digit(c),
{
    ('0' as u32) <= (c as u32) && (c as u32) <= ('9' as u32)
}

fn all_digits_range(s: &str, lo: usize, hi: usize) -> (b: bool)
    requires
        lo <= hi <= s@.len(),
    ensures
        b == all_digits_in(s@, lo as int, hi as int),
{
    let mut k = lo;
    while k < hi
        invariant
            lo <= k <= hi <= s@.len(),
            all_digits_in(s@, lo as int, k as int),
        decreases hi - k,
    {
        if !digit_char(s.get_char(k)) {
            return false;
        }
        k = k + 1;
    }
    true
}

fn special_word_range(s: &str, lo: usize, hi: usize) -> (b: bool)
    requires
        lo <= hi <= s@.len(),
    ensures
        b == is_special_word(s@, lo as int, hi as int),
{
    if hi - lo == 3 {
        let c0 = s.get_char(lo);
        let c1 = s.get_char(lo + 1);
        let c2 = s.get_char(lo + 2);
        ((c0 == 'i' || c0 == 'I') && (c1 == 'n' || c1 == 'N') && (c2 == 'f' || c2 == 'F')) || ((c0
            == 'n' || c0 == 'N') && (c1 == 'a' || c1 == 'A') && (c2 == 'n' || c2 == 'N'))
    } else if hi - lo == 8 {
        let c0 = s.get_char(lo);
        let c1 = s.get_char(lo + 1);
        let c2 = s.get_char(lo + 2);
        let c3 = s.get_char(lo + 3);
        let c4 = s.get_char(lo + 4);
        let c5 = s.get_char(lo + 5);
        let c6 = s.get_char(lo + 6);
        let c7 = s.get_char(lo + 7);
        (c0 == 'i' || c0 == 'I') && (c1 == 'n' || c1 == 'N') && (c2 == 'f' || c2 == 'F') && (c3
            == 'i' || c3 == 'I') && (c4 == 'n' || c4 == 'N') && (c5 == 'i' || c5 == 'I') && (c6
            == 't' || c6 == 'T') && (c7 == 'y' || c7 == 'Y')
    } else {
        false
    }
}

fn find_exp_start(s: &str, lo: usize, hi: usize) -> (r: usize)
    requires
        lo <= hi <= s@.len(),
    ensures
        r == exp_start(s@, lo as int, hi as int),
        lo <= r <= hi,
{
    let mut k = lo;
    while k < hi
        invariant
            lo <= k <= hi <= s@.len(),
            exp_start(s@, lo as int, hi as int) == exp_start(s@, k as int, hi as int),
        decreases hi - k,
    {
        let c = s.get_char(k);
        if c == 'e' || c == 'E' {
            return k;
        }
        k = k + 1;
    }
    hi
}

fn find_dot(s: &str, lo: usize, hi: usize) -> (r: usize)
    requires
        lo <= hi <= s@.len(),
    ensures
        r == dot_position(s@, lo as int, hi as int),
        lo <= r <= hi,
{
    let mut k = lo;
    while k < hi
        invariant
            lo <= k <= hi <= s@.len(),
            dot_position(s@, lo as int, hi as int) == dot_position(s@, k as int, hi as int),
        decreases hi - k,
    {
        if s.get_char(k) == '.' {
            return k;
        }
        k = k + 1;
    }
    hi
}

fn significand_range(s: &str, lo: usize, hi: usize) -> (b: bool)
    requires
        lo <= hi <= s@.len(),
    ensures
        b == is_significand(s@, lo as int, hi as int),
{
    let d = find_dot(s, lo, hi);
    if d == hi {
        lo < hi && all_digits_range(s, lo, hi)
    } else {
        hi - lo > 1 && all_digits_range(s, lo, d) && all_digits_range(s, d + 1, hi)
    }
}

fn exponent_range(s: &str, lo: usize, hi: usize) -> (b: bool)
    requires
        lo <= hi <= s@.len(),
    ensures
        b == is_exponent(s@, lo as int, hi as int),
{
    if lo >= hi {
        return false;
    }
    let c = s.get_char(lo);
    if !(c == 'e' || c == 'E') {
        return false;
    }
    let mut r = lo + 1;
    if r < hi {
        let c1 = s.get_char(r);
        if c1 == '+' || c1 == '-' {
            r = r + 1;
        }
    }
    r < hi && all_digits_range(s, r, hi)
}

/// Whether a column is a decimal number: exactly the strings that parsing as
/// a double-precision value accepts.
pub fn is_decimal_str(s: &str) -> (b: bool)
    ensures
        b == is_decimal_number(s@),
{
    let hi = s.unicode_len();
    let mut lo: usize = 0;
    if 0 < hi {
        let c = s.get_char(0);
        if c == '+' || c == '-' {
            lo = 1;
        }
    }
    if special_word_range(s, lo, hi) {
        return true;
    }
    let e = find_exp_start(s, lo, hi);
    significand_range(s, lo, e) && (e == hi || exponent_range(s, e, hi))
}

} // verus!
