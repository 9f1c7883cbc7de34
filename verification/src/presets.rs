//! Preset records: parsing numeric fields and applying overrides.
//!
//! A preset record holds six comma-separated fields:
//! `name, value, -, -, precision, -`.  Applying one looks the name up,
//! overwrites the value if the value field parses as a decimal number, and
//! overwrites the display precision if the precision field parses as an
//! unsigned integer.  Unknown names, malformed numbers and wrong field
//! counts are reported and skipped; nothing else changes.
//!
//! The accepted number grammar is an optional sign, digits, and an optional
//! fraction (`-12`, `3.5`, `.25`, `7.`); fraction digits beyond the
//! fixed-point grid are dropped.

use vstd::prelude::*;

use vstd::string::StrSliceExecFns;

use crate::params::{
    pm_with_precision, pm_with_value, spec_lookup, BassError, ParamModel, Parameters,
};
use crate::scalar::{Scalar, SCALE};

verus! {

/// How many fields a preset record holds.
pub const RECORD_LEN: usize = 6;

/// The most integer digits a value field may carry (any more would leave
/// the fixed-point range).
pub const MAX_INT_DIGITS: usize = 26;

/// Whether a character is an ASCII digit.
pub open spec fn is_digit(c: char) -> bool {
    48 <= c as int <= 57
}

/// Whether a character is blank (the whitespace `trim` strips).
pub open spec fn is_blank(c: char) -> bool {
    c == ' ' || c == '\t' || c == '\r' || c == '\n'
}

/// Whether every character of a string is an ASCII digit.
pub open spec fn all_digits(s: Seq<char>) -> bool {
    forall|i: int| 0 <= i < s.len() ==> is_digit(#[trigger] s[i])
}

/// The value of a digit string read in base ten.
pub open spec fn digits_val(s: Seq<char>) -> int
    decreases s.len(),
{
    if s.len() == 0 {
        0
    } else {
        digits_val(s.drop_last()) * 10 + (s.last() as int - 48)
    }
}

/// Ten to the power `n`.
pub open spec fn pow10(n: int) -> int
    decreases n,
{
    if n <= 0 {
        1
    } else {
        10 * pow10(n - 1)
    }
}

/// The first index at or after `k` holding `c`, or the length when none
/// does.
pub open spec fn first_index_from(s: Seq<char>, c: char, k: int) -> int
    decreases s.len() - k,
{
    if k < 0 || k >= s.len() {
        s.len() as int
    } else if s[k] == c {
        k
    } else {
        first_index_from(s, c, k + 1)
    }
}

/// `s` without leading blanks.
pub open spec fn trim_front(s: Seq<char>) -> Seq<char>
    decreases s.len(),
{
    if s.len() > 0 && is_blank(s[0]) {
        trim_front(s.skip(1))
    } else {
        s
    }
}

/// `s` without trailing blanks.
pub open spec fn trim_back(s: Seq<char>) -> Seq<char>
    decreases s.len(),
{
    if s.len() > 0 && is_blank(s.last()) {
        trim_back(s.drop_last())
    } else {
        s
    }
}

/// `s` without leading or trailing blanks.
pub open spec fn spec_trim(s: Seq<char>) -> Seq<char> {
    trim_back(trim_front(s))
}

/// The fixed-point mantissa a fraction digit string denotes: its first
/// twelve digits, scaled to the grid.
pub open spec fn frac_val(f: Seq<char>) -> int {
    let keep = if f.len() <= 12 {
        f.len() as int
    } else {
        12
    };
    digits_val(f.take(keep)) * pow10(12 - keep)
}

/// The mantissa an unsigned decimal string denotes: integer digits, an
/// optional dot, fraction digits; at least one digit in all; no more than
/// `MAX_INT_DIGITS` integer digits.
pub open spec fn parse_unsigned(s: Seq<char>) -> Option<int> {
    let d = first_index_from(s, '.', 0);
    let ip = s.take(d);
    let fp = if d == s.len() {
        Seq::<char>::empty()
    } else {
        s.skip(d + 1)
    };
    if ip.len() + fp.len() == 0 || !all_digits(ip) || !all_digits(fp) || ip.len() > MAX_INT_DIGITS {
        None
    } else {
        Some(digits_val(ip) * SCALE + frac_val(fp))
    }
}

/// The mantissa a signed decimal string denotes.
pub open spec fn parse_decimal(s: Seq<char>) -> Option<int> {
    if s.len() == 0 {
        None
    } else if s[0] == '-' {
        match parse_unsigned(s.skip(1)) {
            Some(m) => Some(-m),
            None => None,
        }
    } else if s[0] == '+' {
        parse_unsigned(s.skip(1))
    } else {
        parse_unsigned(s)
    }
}

/// The value an unsigned integer string denotes: an optional plus sign and
/// digits; `None` beyond `usize::MAX`.
pub open spec fn parse_usize(s: Seq<char>) -> Option<int> {
    let body = if s.len() > 0 && s[0] == '+' {
        s.skip(1)
    } else {
        s
    };
    if body.len() == 0 || !all_digits(body) {
        None
    } else if digits_val(body) > usize::MAX {
        None
    } else {
        Some(digits_val(body))
    }
}

/// A digit string's value is nonnegative and below ten to its length.
proof fn lemma_digits_val_bounds(s: Seq<char>)
    requires
        all_digits(s),
    ensures
        0 <= digits_val(s),
        digits_val(s) < pow10(s.len() as int),
    decreases s.len(),
{
    if s.len() > 0 {
        assert(all_digits(s.drop_last())) by {
            assert(forall|i: int|
                0 <= i < s.len() - 1 ==> s.drop_last()[i] == #[trigger] s[i]);
        }
        lemma_digits_val_bounds(s.drop_last());
        assert(is_digit(s.last()));
        assert(pow10(s.len() as int) == 10 * pow10(s.len() - 1));
    }
}

/// Extending a digit string by one digit multiplies its value by ten and
/// adds the digit.
proof fn lemma_digits_val_step(s: Seq<char>, j: int)
    requires
        0 <= j < s.len(),
    ensures
        digits_val(s.take(j + 1)) == digits_val(s.take(j)) * 10 + (s[j] as int - 48),
{
    assert(s.take(j + 1).drop_last() =~= s.take(j));
    assert(s.take(j + 1).last() == s[j]);
}

/// A digit string's value only grows as digits are appended.
proof fn lemma_digits_val_monotonic(s: Seq<char>, j: int, m: int)
    requires
        all_digits(s),
        0 <= j <= m <= s.len(),
    ensures
        digits_val(s.take(j)) <= digits_val(s.take(m)),
    decreases m - j,
{
    if j < m {
        lemma_digits_val_monotonic(s, j, m - 1);
        lemma_digits_val_step(s, m - 1);
        assert(all_digits(s.take(m - 1))) by {
            assert(forall|i: int| 0 <= i < m - 1 ==> s.take(m - 1)[i] == #[trigger] s[i]);
        }
        lemma_digits_val_bounds(s.take(m - 1));
        assert(is_digit(s[m - 1]));
    }
}

/// Ten to the power of a small exponent.
fn ten_pow(n: usize) -> (r: i128)
    requires
        n <= 12,
    ensures
        r as int == pow10(n as int),
        r >= 1,
{
    let mut r: i128 = 1;
    let mut k: usize = 0;
    while k < n
        invariant
            k <= n <= 12,
            1 <= r,
            r as int == pow10(k as int),
            r <= 1_000_000_000_000,
        decreases n - k,
    {
        proof {
            assert(pow10(k + 1) == 10 * pow10(k as int));
            lemma_pow10_le(k as int + 1, 12);
            lemma_pow10_12_value();
        }
        r = r * 10;
        k = k + 1;
    }
    r
}

/// Parse an unsigned decimal string into a fixed-point mantissa, exactly as
/// `parse_unsigned` reads it.
#[verifier::loop_isolation(false)]
fn parse_unsigned_exec(s: &str) -> (r: Option<i128>)
    ensures
        match r {
            Some(m) => parse_unsigned(s@) == Some(m as int) && m >= 0,
            None => parse_unsigned(s@) is None,
        },
{
    let n = s.unicode_len();
    // Find the dot.
    let mut d: usize = 0;
    while d < n && s.get_char(d) != '.'
        invariant
            d <= n,
            n == s@.len(),
            first_index_from(s@, '.', 0) == first_index_from(s@, '.', d as int),
        decreases n - d,
    {
        d = d + 1;
    }
    assert(first_index_from(s@, '.', 0) == d as int);
    let ghost ip = s@.take(d as int);
    let ghost fp = if d == n {
        Seq::<char>::empty()
    } else {
        s@.skip(d as int + 1)
    };
    if d == n && n == 0 {
        return None;
    }
    if d == n - 1 && d == 0 {
        // A lone dot: no digits at all.
        assert(ip.len() + fp.len() == 0);
        return None;
    }
    if d > MAX_INT_DIGITS {
        return None;
    }
    // Integer part.
    proof {
        lemma_pow10_le(0, MAX_INT_DIGITS as int);
    }
    let mut acc: i128 = 0;
    let mut j: usize = 0;
    while j < d
        invariant
            j <= d <= n,
            d <= MAX_INT_DIGITS,
            n == s@.len(),
            ip == s@.take(d as int),
            all_digits(ip.take(j as int)),
            acc as int == digits_val(ip.take(j as int)),
            0 <= acc,
            (acc as int) < pow10(j as int),
            pow10(j as int) <= pow10(MAX_INT_DIGITS as int),
        decreases d - j,
    {
        let c = s.get_char(j);
        let u = c as u32;
        if u < 48 || u > 57 {
            proof {
                assert(ip[j as int] == c);
                assert(!is_digit(c));
            }
            return None;
        }
        proof {
            lemma_pow10_le(j as int, MAX_INT_DIGITS as int);
            lemma_pow10_le(j as int + 1, MAX_INT_DIGITS as int);
            lemma_pow10_26();
            lemma_digits_val_step(ip, j as int);
            assert(ip[j as int] == c);
            assert forall|i: int| 0 <= i < j + 1 implies is_digit(#[trigger] ip.take(j + 1)[i]) by {
                if i < j {
                    assert(ip.take(j + 1)[i] == ip.take(j as int)[i]);
                } else {
                    assert(ip.take(j + 1)[i] == ip[j as int]);
                }
            }
            assert(pow10(j + 1) == 10 * pow10(j as int));
        }
        acc = acc * 10 + ((u - 48) as i128);
        j = j + 1;
    }
    assert(ip.take(d as int) =~= ip);
    // Fraction part.
    proof {
        lemma_pow10_le(0, 12);
    }
    let mut facc: i128 = 0;
    let mut fcount: usize = 0;
    let mut k: usize = if d == n {
        n
    } else {
        d + 1
    };
    let ghost fstart = k as int;
    proof {
        assert(fp =~= s@.skip(fstart));
    }
    while k < n
        invariant
            fstart <= k as int <= n,
            n == s@.len(),
            d < n ==> fstart == d + 1,
            d == n ==> fstart == n,
            fp == s@.skip(fstart),
            fcount as int == if k as int - fstart <= 12 {
                k as int - fstart
            } else {
                12
            },
            all_digits(fp.take(k as int - fstart)),
            facc as int == digits_val(fp.take(fcount as int)),
            0 <= facc,
            (facc as int) < pow10(fcount as int),
            pow10(fcount as int) <= pow10(12),
        decreases n - k,
    {
        let c = s.get_char(k);
        let u = c as u32;
        if u < 48 || u > 57 {
            proof {
                assert(fp[k as int - fstart] == c);
                assert(!is_digit(c));
            }
            return None;
        }
        proof {
            lemma_pow10_le(fcount as int, 12);
            lemma_pow10_12();
            assert(fp[k as int - fstart] == c);
            assert forall|i: int|
                0 <= i < k as int - fstart + 1 implies is_digit(
                #[trigger] fp.take(k as int - fstart + 1)[i],
            ) by {
                if i < k as int - fstart {
                    assert(fp.take(k as int - fstart + 1)[i] == fp.take(k as int - fstart)[i]);
                } else {
                    assert(fp.take(k as int - fstart + 1)[i] == fp[k as int - fstart]);
                }
            }
        }
        if fcount < 12 {
            proof {
                lemma_pow10_le(fcount as int + 1, 12);
                lemma_digits_val_step(fp, fcount as int);
                assert(fp.take(fcount + 1).last() == fp[fcount as int]);
                assert(pow10(fcount + 1) == 10 * pow10(fcount as int));
            }
            facc = facc * 10 + ((u - 48) as i128);
            fcount = fcount + 1;
        }
        k = k + 1;
    }
    proof {
        assert(all_digits(fp)) by {
            assert(fp.take(n - fstart) =~= fp);
        }
        assert(ip.len() + fp.len() > 0) by {
            if d == n {
                assert(n > 0);
                assert(ip.len() == n);
            } else {
                if d == 0 {
                    assert(fp.len() == n - 1);
                } else {
                    assert(ip.len() == d);
                }
            }
        }
    }
    // Combine.
    let keep: usize = fcount;
    let mult = ten_pow(12 - keep);
    proof {
        let kk = if fp.len() <= 12 {
            fp.len() as int
        } else {
            12
        };
        assert(kk == keep as int);
        assert(frac_val(fp) == digits_val(fp.take(keep as int)) * pow10(12 - keep as int));
        lemma_pow10_le(12 - keep as int, 12);
        lemma_pow10_12();
        lemma_pow10_26();
        assert(0 <= facc as int * (mult as int) < 1_000_000_000_000_000_000_000_000int)
            by (nonlinear_arith)
            requires
                0 <= facc,
                (facc as int) < pow10(fcount as int),
                1 <= mult,
                (mult as int) == pow10(12 - fcount as int),
                pow10(fcount as int) * pow10(12 - fcount as int) <= 1_000_000_000_000int,
        ;
        assert(0 <= (acc as int) * (SCALE as int)
            <= 99_999_999_999_999_999_999_999_999int * 1_000_000_000_000int) by (nonlinear_arith)
            requires
                0 <= acc,
                acc <= 99_999_999_999_999_999_999_999_999i128,
        ;
    }
    let frac: i128 = facc * mult;
    let whole: i128 = acc * SCALE + frac;
    Some(whole)
}

/// pow10 is monotonic in the exponent.
proof fn lemma_pow10_le(a: int, b: int)
    requires
        a <= b,
    ensures
        pow10(a) <= pow10(b),
        1 <= pow10(a),
    decreases b - a,
{
    if a < b {
        lemma_pow10_le(a, b - 1);
        if b > 0 {
            assert(pow10(b) == 10 * pow10(b - 1));
            lemma_pow10_pos(b - 1);
        }
    }
    lemma_pow10_pos(a);
}

/// pow10 is positive.
proof fn lemma_pow10_pos(a: int)
    ensures
        1 <= pow10(a),
    decreases a,
{
    if a > 0 {
        lemma_pow10_pos(a - 1);
    }
}

/// The value of the twelfth power of ten.
proof fn lemma_pow10_12_value()
    ensures
        pow10(12) == 1_000_000_000_000int,
{
    reveal_with_fuel(pow10, 13);
    assert(pow10(12) == 1_000_000_000_000int);
}

/// The twelfth power of ten, and its splittings into factor pairs.
proof fn lemma_pow10_12()
    ensures
        pow10(12) == 1_000_000_000_000int,
        forall|a: int, b: int|
            0 <= a && 0 <= b && a + b == 12 ==> #[trigger] (pow10(a) * pow10(b)) == pow10(12),
{
    lemma_pow10_12_value();
    assert forall|a: int, b: int|
        0 <= a && 0 <= b && a + b == 12 implies #[trigger] (pow10(a) * pow10(b)) == pow10(12) by {
        lemma_pow10_mul(a, b);
    }
}

/// pow10 turns addition into multiplication.
proof fn lemma_pow10_mul(a: int, b: int)
    requires
        0 <= a,
        0 <= b,
    ensures
        pow10(a) * pow10(b) == pow10(a + b),
    decreases a,
{
    if a == 0 {
        assert(pow10(0) == 1);
    } else {
        lemma_pow10_mul(a - 1, b);
        assert(pow10(a) == 10 * pow10(a - 1));
        assert(pow10(a + b) == 10 * pow10(a - 1 + b));
        assert((10 * pow10(a - 1)) * pow10(b) == 10 * (pow10(a - 1) * pow10(b)))
            by (nonlinear_arith);
    }
}

/// The value of the twenty-sixth power of ten.
proof fn lemma_pow10_26()
    ensures
        pow10(MAX_INT_DIGITS as int) == 100_000_000_000_000_000_000_000_000int,
{
    reveal_with_fuel(pow10, 27);
    assert(pow10(26) == 100_000_000_000_000_000_000_000_000int);
}

/// Parse a signed decimal string into a scalar, exactly as `parse_decimal`
/// reads it.
pub fn parse_scalar(s: &str) -> (r: Option<Scalar>)
    ensures
        match r {
            Some(v) => parse_decimal(s@) is Some && v@ == parse_decimal(s@),
            None => parse_decimal(s@) is None,
        },
{
    let n = s.unicode_len();
    if n == 0 {
        return None;
    }
    let c0 = s.get_char(0);
    if c0 == '-' {
        let rest = s.substring_char(1, n);
        assert(rest@ =~= s@.skip(1));
        match parse_unsigned_exec(rest) {
            Some(m) => Some(Scalar::from_raw(-m)),
            None => None,
        }
    } else if c0 == '+' {
        let rest = s.substring_char(1, n);
        assert(rest@ =~= s@.skip(1));
        match parse_unsigned_exec(rest) {
            Some(m) => Some(Scalar::from_raw(m)),
            None => None,
        }
    } else {
        match parse_unsigned_exec(s) {
            Some(m) => Some(Scalar::from_raw(m)),
            None => None,
        }
    }
}

/// Parse an unsigned integer string, exactly as `parse_usize` reads it.
#[verifier::loop_isolation(false)]
pub fn parse_usize_exec(s: &str) -> (r: Option<usize>)
    ensures
        match r {
            Some(v) => parse_usize(s@) == Some(v as int),
            None => parse_usize(s@) is None,
        },
{
    let n = s.unicode_len();
    let start: usize = if n > 0 && s.get_char(0) == '+' {
        1
    } else {
        0
    };
    let ghost body = s@.skip(start as int);
    proof {
        if start == 0 {
            assert(s@.skip(0) =~= s@);
        }
    }
    if n == start {
        return None;
    }
    let mut acc: u128 = 0;
    let mut j: usize = start;
    while j < n
        invariant
            start <= j <= n,
            n == s@.len(),
            body == s@.skip(start as int),
            all_digits(body.take(j as int - start)),
            acc as int == digits_val(body.take(j as int - start)),
            acc <= usize::MAX,
        decreases n - j,
    {
        let c = s.get_char(j);
        let u = c as u32;
        if u < 48 || u > 57 {
            proof {
                assert(body[j as int - start] == c);
                assert(!is_digit(c));
            }
            return None;
        }
        proof {
            assert(body[j as int - start] == c);
            assert(is_digit(c));
            lemma_digits_val_step(body, j as int - start);
            assert forall|i: int|
                0 <= i < j as int - start + 1 implies is_digit(
                #[trigger] body.take(j as int - start + 1)[i],
            ) by {
                if i < j as int - start {
                    assert(body.take(j as int - start + 1)[i] == body.take(j as int - start)[i]);
                } else {
                    assert(body.take(j as int - start + 1)[i] == body[j as int - start]);
                }
            }
        }
        acc = acc * 10 + ((u - 48) as u128);
        if acc > usize::MAX as u128 {
            // Whatever the remaining characters hold, the string cannot
            // denote a value in range: either a later character is not a
            // digit, or the digits only extend this already-too-large
            // prefix.
            proof {
                if all_digits(body) {
                    lemma_digits_val_monotonic(body, j as int - start + 1, body.len() as int);
                    assert(body.take(body.len() as int) =~= body);
                }
            }
            return None;
        }
        j = j + 1;
    }
    proof {
        assert(body.take(n - start as int) =~= body);
    }
    Some(acc as usize)
}


/// Whether a character is blank, decided at run time.
fn is_blank_exec(c: char) -> (r: bool)
    ensures
        r == is_blank(c),
{
    c == ' ' || c == '\t' || c == '\r' || c == '\n'
}

/// `s` without leading or trailing blanks, exactly as `spec_trim` reads it.
#[verifier::loop_isolation(false)]
pub fn trim_str(s: &str) -> (r: &str)
    ensures
        r@ == spec_trim(s@),
{
    let n = s.unicode_len();
    proof {
        assert(s@.skip(0) =~= s@);
    }
    let mut a: usize = 0;
    while a < n && is_blank_exec(s.get_char(a))
        invariant
            a <= n,
            trim_front(s@) == trim_front(s@.skip(a as int)),
        decreases n - a,
    {
        proof {
            assert(s@.skip(a as int).skip(1) =~= s@.skip(a as int + 1));
        }
        a = a + 1;
    }
    proof {
        if a == n {
            assert(s@.skip(a as int) =~= Seq::<char>::empty());
        }
        assert(trim_front(s@) == s@.skip(a as int));
    }
    let mut b: usize = n;
    while b > a && is_blank_exec(s.get_char(b - 1))
        invariant
            a <= b <= n,
            trim_back(s@.skip(a as int)) == trim_back(s@.subrange(a as int, b as int)),
        decreases b,
    {
        proof {
            assert(s@.subrange(a as int, b as int).drop_last() =~= s@.subrange(
                a as int,
                b as int - 1,
            ));
            assert(s@.subrange(a as int, b as int).last() == s@[b as int - 1]);
        }
        b = b - 1;
    }
    proof {
        if b == a {
            assert(s@.subrange(a as int, b as int) =~= Seq::<char>::empty());
        }
        assert(trim_back(s@.subrange(a as int, b as int)) == s@.subrange(a as int, b as int));
    }
    s.substring_char(a, b)
}

/// The first-hit index translates across a prefix skip.
proof fn lemma_first_index_skip(s: Seq<char>, c: char, base: int, k: int)
    requires
        0 <= base <= k <= s.len(),
    ensures
        first_index_from(s, c, k) == base + first_index_from(s.skip(base), c, k - base),
    decreases s.len() - k,
{
    if k >= s.len() {
    } else {
        assert(s.skip(base)[k - base] == s[k]);
        if s[k] != c {
            lemma_first_index_skip(s, c, base, k + 1);
        }
    }
}

/// The first hit lies between the start index and the length.
proof fn lemma_first_index_bounds(s: Seq<char>, c: char, k: int)
    requires
        0 <= k <= s.len(),
    ensures
        k <= first_index_from(s, c, k) <= s.len(),
    decreases s.len() - k,
{
    if k < s.len() && s[k] != c {
        lemma_first_index_bounds(s, c, k + 1);
    }
}

/// A string split at every separator, separators dropped: one more field
/// than separators, fields possibly empty.
pub open spec fn spec_split(s: Seq<char>, sep: char) -> Seq<Seq<char>>
    decreases s.len(),
    via spec_split_decreases
{
    let d = first_index_from(s, sep, 0);
    if d == s.len() {
        seq![s]
    } else {
        seq![s.take(d)] + spec_split(s.skip(d + 1), sep)
    }
}

#[via_fn]
proof fn spec_split_decreases(s: Seq<char>, sep: char) {
    lemma_first_index_bounds(s, sep, 0);
}

/// The views of a sequence of strings.
pub open spec fn str_views(fields: Seq<String>) -> Seq<Seq<char>> {
    fields.map_values(|f: String| f@)
}

/// Split a string at every separator, exactly as `spec_split` reads it.
#[verifier::loop_isolation(false)]
pub fn split_str(line: &str, sep: char) -> (r: Vec<String>)
    ensures
        str_views(r@) == spec_split(line@, sep),
{
    let n = line.unicode_len();
    let mut r: Vec<String> = Vec::new();
    proof {
        assert(line@.skip(0) =~= line@);
        assert(str_views(r@) =~= Seq::<Seq<char>>::empty());
        assert(Seq::<Seq<char>>::empty() + spec_split(line@, sep) =~= spec_split(line@, sep));
    }
    let mut pos: usize = 0;
    let mut done = false;
    while !done
        invariant
            pos <= n,
            n == line@.len(),
            !done ==> spec_split(line@, sep) == str_views(r@) + spec_split(
                line@.skip(pos as int),
                sep,
            ),
            done ==> str_views(r@) == spec_split(line@, sep),
        decreases n - pos + (if done { 0int } else { 1int }),
    {
        let mut e: usize = pos;
        while e < n && line.get_char(e) != sep
            invariant
                pos <= e <= n,
                first_index_from(line@, sep, pos as int) == first_index_from(line@, sep, e as int),
            decreases n - e,
        {
            e = e + 1;
        }
        proof {
            assert(first_index_from(line@, sep, pos as int) == e as int);
            lemma_first_index_skip(line@, sep, pos as int, pos as int);
            assert(first_index_from(line@.skip(pos as int), sep, 0) == e as int - pos as int);
        }
        let field = line.substring_char(pos, e).to_owned();
        proof {
            let rest = line@.skip(pos as int);
            if e < n {
                assert(rest.take(e as int - pos as int) =~= line@.subrange(pos as int, e as int));
                assert(rest.skip(e as int - pos as int + 1) =~= line@.skip(e as int + 1));
                assert(spec_split(rest, sep) == seq![line@.subrange(pos as int, e as int)]
                    + spec_split(line@.skip(e as int + 1), sep));
                assert(str_views(r@.push(field)) =~= str_views(r@).push(field@));
                assert(str_views(r@).push(field@) + spec_split(line@.skip(e as int + 1), sep)
                    =~= str_views(r@) + spec_split(rest, sep));
            } else {
                assert(rest.len() == n - pos);
                assert(spec_split(rest, sep) == seq![rest]);
                assert(field@ == line@.subrange(pos as int, n as int));
                assert(field@ =~= rest);
                assert(str_views(r@.push(field)) =~= str_views(r@).push(field@));
                assert(str_views(r@).push(field@) =~= str_views(r@) + spec_split(rest, sep));
            }
        }
        r.push(field);
        if e < n {
            pos = e + 1;
        } else {
            done = true;
        }
    }
    r
}

/// The outcome of applying one well-addressed preset record: which of its
/// two numeric fields parsed and were stored.
#[derive(Clone, Copy, PartialEq, Eq, Structural, Debug)]
pub struct RecordOutcome {
    pub value_set: bool,
    pub precision_set: bool,
}

/// One parameter after a record: the value taken from the trimmed value
/// field if it parses, then the precision from the trimmed precision field
/// if it parses.
pub open spec fn spec_apply_record_model(
    m: ParamModel,
    vfield: Seq<char>,
    pfield: Seq<char>,
) -> ParamModel {
    let m1 = match parse_decimal(spec_trim(vfield)) {
        Some(x) => pm_with_value(m, Some(x)),
        None => m,
    };
    match parse_usize(spec_trim(pfield)) {
        Some(x) => pm_with_precision(m1, x as nat),
        None => m1,
    }
}

/// The parameter set after a record: unchanged unless the record has
/// exactly `RECORD_LEN` fields and names a known parameter.
pub open spec fn spec_apply_record(s: Seq<ParamModel>, fields: Seq<Seq<char>>) -> Seq<ParamModel> {
    if fields.len() != RECORD_LEN {
        s
    } else {
        match spec_lookup(s, fields[0]) {
            Some(k) => s.update(k, spec_apply_record_model(s[k], fields[1], fields[4])),
            None => s,
        }
    }
}

/// What applying a record reports: an error for a wrong field count or an
/// unknown name, otherwise which fields were stored.
pub open spec fn spec_record_result(s: Seq<ParamModel>, fields: Seq<Seq<char>>) -> Result<
    RecordOutcome,
    BassError,
> {
    if fields.len() != RECORD_LEN {
        Err(BassError::WrongRecordLength)
    } else {
        match spec_lookup(s, fields[0]) {
            Some(k) => Ok(
                RecordOutcome {
                    value_set: parse_decimal(spec_trim(fields[1])) is Some,
                    precision_set: parse_usize(spec_trim(fields[4])) is Some,
                },
            ),
            None => Err(BassError::UnknownParameter),
        }
    }
}

impl Parameters {
    /// Apply one preset record `name, value, -, -, precision, -`: store the
    /// value field on the named parameter if it parses, and the precision
    /// field likewise; report a wrong field count or an unknown name and
    /// change nothing.  No other parameter is touched.
    pub fn apply_record(&mut self, fields: &Vec<String>) -> (r: Result<RecordOutcome, BassError>)
        ensures
            final(self)@ == spec_apply_record(old(self)@, str_views(fields@)),
            r == spec_record_result(old(self)@, str_views(fields@)),
    {
        let ghost fv = str_views(fields@);
        if fields.len() != RECORD_LEN {
            return Err(BassError::WrongRecordLength);
        }
        let k_opt = self.get(fields[0].as_str());
        proof {
            assert(fv[0] == fields@[0]@);
        }
        match k_opt {
            None => Err(BassError::UnknownParameter),
            Some(k) => {
                let ghost s0 = self@;
                let ghost m0 = self@[k as int];
                let tv = trim_str(fields[1].as_str());
                proof {
                    assert(fv[1] == fields@[1]@);
                }
                let value_set: bool = match parse_scalar(tv) {
                    Some(v) => {
                        self.set_value_at(k, v);
                        true
                    },
                    None => false,
                };
                let ghost m1 = spec_apply_record_model_value(m0, fv[1]);
                proof {
                    assert(self@ =~= s0.update(k as int, m1));
                }
                let tp = trim_str(fields[4].as_str());
                proof {
                    assert(fv[4] == fields@[4]@);
                }
                let precision_set: bool = match parse_usize_exec(tp) {
                    Some(x) => {
                        self.set_precision_at(k, x);
                        true
                    },
                    None => false,
                };
                proof {
                    assert(self@ =~= s0.update(
                        k as int,
                        spec_apply_record_model(m0, fv[1], fv[4]),
                    ));
                }
                Ok(RecordOutcome { value_set, precision_set })
            },
        }
    }
}

/// The value half of `spec_apply_record_model`.
pub open spec fn spec_apply_record_model_value(m: ParamModel, vfield: Seq<char>) -> ParamModel {
    match parse_decimal(spec_trim(vfield)) {
        Some(x) => pm_with_value(m, Some(x)),
        None => m,
    }
}


/// A line with a trailing carriage return stripped.
pub open spec fn strip_cr(l: Seq<char>) -> Seq<char> {
    if l.len() > 0 && l.last() == '\r' {
        l.drop_last()
    } else {
        l
    }
}

/// Whether a line holds a record: not blank and not a `#` comment.
pub open spec fn is_data_line(l: Seq<char>) -> bool {
    l.len() > 0 && l[0] != '#'
}

/// The parameter set after applying the records on the lines from `k` on.
pub open spec fn spec_load_from(s: Seq<ParamModel>, lines: Seq<Seq<char>>, k: int) -> Seq<
    ParamModel,
>
    decreases lines.len() - k,
{
    if k < 0 || k >= lines.len() {
        s
    } else {
        let l = strip_cr(lines[k]);
        if is_data_line(l) {
            spec_load_from(spec_apply_record(s, spec_split(l, ',')), lines, k + 1)
        } else {
            spec_load_from(s, lines, k + 1)
        }
    }
}

/// What each record from line `k` on reports, in order.
pub open spec fn spec_load_report_from(
    s: Seq<ParamModel>,
    lines: Seq<Seq<char>>,
    k: int,
) -> Seq<Result<RecordOutcome, BassError>>
    decreases lines.len() - k,
{
    if k < 0 || k >= lines.len() {
        Seq::empty()
    } else {
        let l = strip_cr(lines[k]);
        if is_data_line(l) {
            seq![spec_record_result(s, spec_split(l, ','))] + spec_load_report_from(
                spec_apply_record(s, spec_split(l, ',')),
                lines,
                k + 1,
            )
        } else {
            spec_load_report_from(s, lines, k + 1)
        }
    }
}

impl Parameters {
    /// Apply a whole preset text: one record per line, blank lines and `#`
    /// comment lines skipped, a trailing carriage return tolerated.  Each
    /// record is applied as `apply_record` does, in order, and its report
    /// collected; a bad record is skipped and processing continues.
    #[verifier::loop_isolation(false)]
    pub fn load_preset(&mut self, text: &str) -> (report: Vec<Result<RecordOutcome, BassError>>)
        ensures
            final(self)@ == spec_load_from(old(self)@, spec_split(text@, '\n'), 0),
            report@ == spec_load_report_from(old(self)@, spec_split(text@, '\n'), 0),
    {
        let ghost ls = spec_split(text@, '\n');
        let ghost s0 = self@;
        let lines = split_str(text, '\n');
        let mut report: Vec<Result<RecordOutcome, BassError>> = Vec::new();
        let mut k: usize = 0;
        proof {
            assert(report@ + spec_load_report_from(s0, ls, 0) =~= spec_load_report_from(
                s0,
                ls,
                0,
            ));
        }
        while k < lines.len()
            invariant
                k <= lines.len(),
                str_views(lines@) == ls,
                spec_load_from(s0, ls, 0) == spec_load_from(self@, ls, k as int),
                spec_load_report_from(s0, ls, 0) == report@ + spec_load_report_from(
                    self@,
                    ls,
                    k as int,
                ),
            decreases lines.len() - k,
        {
            proof {
                assert(lines@[k as int]@ == ls[k as int]);
            }
            let line = &lines[k];
            let n = line.as_str().unicode_len();
            let lstr: &str = if n > 0 && line.as_str().get_char(n - 1) == '\r' {
                line.as_str().substring_char(0, n - 1)
            } else {
                line.as_str()
            };
            proof {
                if n > 0 && ls[k as int].last() == '\r' {
                    assert(lstr@ =~= strip_cr(ls[k as int]));
                } else {
                    assert(lstr@ =~= strip_cr(ls[k as int]));
                }
            }
            let m = lstr.unicode_len();
            if m > 0 && lstr.get_char(0) != '#' {
                let fields = split_str(lstr, ',');
                let ghost before = self@;
                let res = self.apply_record(&fields);
                proof {
                    assert(spec_load_from(before, ls, k as int) == spec_load_from(
                        self@,
                        ls,
                        k as int + 1,
                    ));
                    assert(spec_load_report_from(before, ls, k as int) =~= seq![res]
                        + spec_load_report_from(self@, ls, k as int + 1));
                    assert(report@.push(res) + spec_load_report_from(self@, ls, k as int + 1)
                        =~= report@ + spec_load_report_from(before, ls, k as int));
                }
                report.push(res);
            } else {
                proof {
                    assert(!is_data_line(strip_cr(ls[k as int])));
                }
            }
            k = k + 1;
        }
        proof {
            assert(spec_load_from(self@, ls, ls.len() as int) == self@);
            assert(report@ + spec_load_report_from(self@, ls, ls.len() as int) =~= report@);
        }
        report
    }
}


/// Parse a text-entry value for a parameter: the trimmed field as a decimal
/// number, or `MalformedInput` exactly when it does not parse.
pub fn parse_value(s: &str) -> (r: Result<Scalar, BassError>)
    ensures
        match r {
            Ok(v) => parse_decimal(spec_trim(s@)) is Some && v@ == parse_decimal(spec_trim(s@)),
            Err(e) => e == BassError::MalformedInput && parse_decimal(spec_trim(s@)) is None,
        },
{
    match parse_scalar(trim_str(s)) {
        Some(v) => Ok(v),
        None => Err(BassError::MalformedInput),
    }
}

} // verus!
