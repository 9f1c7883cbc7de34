//! Fixed-point scalar arithmetic.
//!
//! Every physical quantity in the model is a `Scalar`: either a finite
//! fixed-point number, stored as an integer count of `10^-12` units, or the
//! non-finite sentinel.  The sentinel absorbs overflow, division by zero and
//! square roots of negative numbers, so all operations are total and a
//! pathological sample in a frequency sweep surfaces as a non-finite value
//! rather than a failure.

use vstd::prelude::*;

verus! {

/// Fixed-point granularity: finite values are integer multiples of 1/SCALE.
pub const SCALE: i128 = 1_000_000_000_000;

/// A physical quantity: a finite fixed-point number (mantissa counting
/// `1/SCALE` units) or the absorbing non-finite sentinel.
#[derive(Clone, Copy, PartialEq, Eq, Structural, Debug)]
pub enum Scalar {
    Finite(i128),
    NonFinite,
}

impl View for Scalar {
    type V = Option<int>;

    open spec fn view(&self) -> Option<int> {
        match *self {
            Scalar::Finite(m) => Some(m as int),
            Scalar::NonFinite => None,
        }
    }
}

/// Whether a mathematical integer is representable as a mantissa.
pub open spec fn in_i128(x: int) -> bool {
    i128::MIN <= x <= i128::MAX
}

/// Exact model of `Scalar::add`: mantissa sum, non-finite on overflow.
pub open spec fn fx_add(a: Option<int>, b: Option<int>) -> Option<int> {
    match (a, b) {
        (Some(x), Some(y)) => if in_i128(x + y) {
            Some(x + y)
        } else {
            None
        },
        _ => None,
    }
}

/// Exact model of `Scalar::sub`.
pub open spec fn fx_sub(a: Option<int>, b: Option<int>) -> Option<int> {
    match (a, b) {
        (Some(x), Some(y)) => if in_i128(x - y) {
            Some(x - y)
        } else {
            None
        },
        _ => None,
    }
}

/// Exact model of `Scalar::neg`.
pub open spec fn fx_neg(a: Option<int>) -> Option<int> {
    match a {
        Some(x) => if in_i128(-x) {
            Some(-x)
        } else {
            None
        },
        None => None,
    }
}

/// Exact model of `Scalar::mul`: the product of two fixed-point numbers,
/// rounded toward negative infinity to the grid (Euclidean division by
/// SCALE); non-finite when the intermediate mantissa product overflows.
pub open spec fn fx_mul(a: Option<int>, b: Option<int>) -> Option<int> {
    match (a, b) {
        (Some(x), Some(y)) => if in_i128(x * y) {
            Some((x * y) / (SCALE as int))
        } else {
            None
        },
        _ => None,
    }
}

/// Exact model of `Scalar::div`: Euclidean quotient of `a * SCALE` by `b`;
/// non-finite on division by zero or overflow.
pub open spec fn fx_div(a: Option<int>, b: Option<int>) -> Option<int> {
    match (a, b) {
        (Some(x), Some(y)) => if y == 0 {
            None
        } else if !in_i128(x * SCALE) {
            None
        } else if !in_i128((x * SCALE) / y) {
            None
        } else {
            Some((x * SCALE) / y)
        },
        _ => None,
    }
}

/// The integer square root: the largest r with r * r <= n.
pub open spec fn sqrt_floor(n: int) -> int
    recommends
        n >= 0,
    decreases n,
{
    if n < 1 {
        0
    } else {
        let r = 2 * sqrt_floor(n / 4);
        if (r + 1) * (r + 1) <= n {
            r + 1
        } else {
            r
        }
    }
}

/// Exact model of `Scalar::sqrt`: the fixed-point square root, rounded down
/// to the grid; non-finite for negative inputs and for mantissas so large
/// that `x * SCALE` exceeds `u128::MAX`.
pub open spec fn fx_sqrt(a: Option<int>) -> Option<int> {
    match a {
        Some(x) => if x < 0 {
            None
        } else if x * SCALE > u128::MAX {
            None
        } else {
            Some(sqrt_floor(x * SCALE))
        },
        None => None,
    }
}

/// A quotient by a positive divisor stays within the dividend's range.
proof fn lemma_div_in_range(p: int, d: int)
    requires
        in_i128(p),
        d >= 1,
    ensures
        in_i128(p / d),
{
    if p >= 0 {
        assert(0 <= p / d <= p) by (nonlinear_arith)
            requires
                p >= 0,
                d >= 1,
        ;
    } else {
        assert(p <= p / d <= 0) by (nonlinear_arith)
            requires
                p < 0,
                d >= 1,
        ;
    }
}

/// `sqrt_floor` is the floor of the real square root.
pub proof fn lemma_sqrt_floor_bounds(n: int)
    requires
        n >= 0,
    ensures
        sqrt_floor(n) >= 0,
        sqrt_floor(n) * sqrt_floor(n) <= n,
        n < (sqrt_floor(n) + 1) * (sqrt_floor(n) + 1),
    decreases n,
{
    if n < 1 {
        assert(sqrt_floor(n) == 0);
    } else {
        let q = n / 4;
        vstd::arithmetic::div_mod::lemma_div_pos_is_pos(n, 4);
        vstd::arithmetic::div_mod::lemma_div_decreases(n, 4);
        lemma_sqrt_floor_bounds(q);
        let r0 = sqrt_floor(q);
        let r = 2 * r0;
        vstd::arithmetic::div_mod::lemma_fundamental_div_mod(n, 4);
        vstd::arithmetic::div_mod::lemma_mod_bound(n, 4);
        assert(4 * q <= n < 4 * (q + 1));
        assert(r * r <= 4 * q) by (nonlinear_arith)
            requires
                r == 2 * r0,
                r0 * r0 <= q,
        ;
        assert(4 * (q + 1) <= (r + 2) * (r + 2)) by (nonlinear_arith)
            requires
                r == 2 * r0,
                q < (r0 + 1) * (r0 + 1),
        ;
        if (r + 1) * (r + 1) <= n {
            assert(sqrt_floor(n) == r + 1);
        } else {
            assert(sqrt_floor(n) == r);
        }
    }
}

/// Any r with r * r <= n < (r + 1)^2 is sqrt_floor(n).
pub proof fn lemma_sqrt_floor_unique(n: int, r: int)
    requires
        n >= 0,
        r >= 0,
        r * r <= n,
        n < (r + 1) * (r + 1),
    ensures
        r == sqrt_floor(n),
{
    lemma_sqrt_floor_bounds(n);
    let s = sqrt_floor(n);
    if r < s {
        assert((r + 1) * (r + 1) <= s * s) by (nonlinear_arith)
            requires
                0 <= r,
                r < s,
        ;
    }
    if s < r {
        assert((s + 1) * (s + 1) <= r * r) by (nonlinear_arith)
            requires
                0 <= s,
                s < r,
        ;
    }
}

/// The integer square root of a u128, by binary search.
fn isqrt_u128(n: u128) -> (r: u128)
    ensures
        r as int == sqrt_floor(n as int),
{
    proof {
        lemma_sqrt_floor_bounds(n as int);
    }
    let mut lo: u128 = 0;
    let mut hi: u128 = 0x1_0000_0000_0000_0000;
    assert((hi as int) * (hi as int) > n as int) by (nonlinear_arith)
        requires
            hi == 0x1_0000_0000_0000_0000u128,
            n <= u128::MAX,
    ;
    while lo + 1 < hi
        invariant
            0 <= lo < hi <= 0x1_0000_0000_0000_0000u128,
            (lo as int) * (lo as int) <= n as int,
            (hi as int) * (hi as int) > n as int,
        decreases hi - lo,
    {
        let mid: u128 = lo + (hi - lo) / 2;
        assert(lo < mid < hi);
        assert((mid as int) * (mid as int) <= u128::MAX as int) by (nonlinear_arith)
            requires
                mid < 0x1_0000_0000_0000_0000u128,
        ;
        let sq: u128 = mid * mid;
        if sq <= n {
            lo = mid;
        } else {
            hi = mid;
        }
    }
    proof {
        lemma_sqrt_floor_unique(n as int, lo as int);
    }
    lo
}

impl Scalar {
    /// The finite value with the given mantissa (a count of 1/SCALE units).
    pub fn from_raw(m: i128) -> (r: Scalar)
        ensures
            r@ == Some(m as int),
    {
        Scalar::Finite(m)
    }

    /// The non-finite sentinel.
    pub fn non_finite() -> (r: Scalar)
        ensures
            r@ == None::<int>,
    {
        Scalar::NonFinite
    }

    /// The finite value equal to the given integer.
    pub fn from_int(i: i64) -> (r: Scalar)
        ensures
            r@ == Some(i * SCALE),
    {
        Scalar::Finite((i as i128) * SCALE)
    }

    /// The finite value equal to `i` millionths.
    pub fn from_micro(i: i64) -> (r: Scalar)
        ensures
            r@ == Some(i * 1_000_000),
    {
        Scalar::Finite((i as i128) * 1_000_000)
    }

    /// Zero.
    pub fn zero() -> (r: Scalar)
        ensures
            r@ == Some(0int),
    {
        Scalar::Finite(0)
    }

    /// One.
    pub fn one() -> (r: Scalar)
        ensures
            r@ == Some(SCALE as int),
    {
        Scalar::Finite(SCALE)
    }

    /// Whether the value is finite.
    pub fn is_finite(&self) -> (b: bool)
        ensures
            b == self@ is Some,
    {
        match *self {
            Scalar::Finite(_) => true,
            Scalar::NonFinite => false,
        }
    }

    /// The mantissa of a finite value.
    pub fn to_raw(&self) -> (r: Option<i128>)
        ensures
            match r {
                Some(m) => self@ == Some(m as int),
                None => self@ is None,
            },
    {
        match *self {
            Scalar::Finite(m) => Some(m),
            Scalar::NonFinite => None,
        }
    }

    /// Fixed-point addition.
    pub fn add(self, other: Scalar) -> (r: Scalar)
        ensures
            r@ == fx_add(self@, other@),
    {
        match (self, other) {
            (Scalar::Finite(x), Scalar::Finite(y)) => match x.checked_add(y) {
                Some(s) => Scalar::Finite(s),
                None => Scalar::NonFinite,
            },
            _ => Scalar::NonFinite,
        }
    }

    /// Fixed-point subtraction.
    pub fn sub(self, other: Scalar) -> (r: Scalar)
        ensures
            r@ == fx_sub(self@, other@),
    {
        match (self, other) {
            (Scalar::Finite(x), Scalar::Finite(y)) => match x.checked_sub(y) {
                Some(s) => Scalar::Finite(s),
                None => Scalar::NonFinite,
            },
            _ => Scalar::NonFinite,
        }
    }

    /// Fixed-point negation.
    pub fn neg(self) -> (r: Scalar)
        ensures
            r@ == fx_neg(self@),
    {
        match self {
            Scalar::Finite(x) => {
                if x == i128::MIN {
                    Scalar::NonFinite
                } else {
                    Scalar::Finite(-x)
                }
            },
            Scalar::NonFinite => Scalar::NonFinite,
        }
    }

    /// Fixed-point multiplication, rounded toward negative infinity.
    pub fn mul(self, other: Scalar) -> (r: Scalar)
        ensures
            r@ == fx_mul(self@, other@),
    {
        match (self, other) {
            (Scalar::Finite(x), Scalar::Finite(y)) => match x.checked_mul(y) {
                Some(p) => {
                    proof {
                        lemma_div_in_range(p as int, SCALE as int);
                    }
                    match p.checked_div_euclid(SCALE) {
                        Some(q) => Scalar::Finite(q),
                        None => Scalar::NonFinite,
                    }
                },
                None => Scalar::NonFinite,
            },
            _ => Scalar::NonFinite,
        }
    }

    /// Fixed-point division (Euclidean), non-finite on a zero divisor.
    pub fn div(self, other: Scalar) -> (r: Scalar)
        ensures
            r@ == fx_div(self@, other@),
    {
        match (self, other) {
            (Scalar::Finite(x), Scalar::Finite(y)) => {
                if y == 0 {
                    Scalar::NonFinite
                } else {
                    match x.checked_mul(SCALE) {
                        Some(p) => match p.checked_div_euclid(y) {
                            Some(q) => Scalar::Finite(q),
                            None => Scalar::NonFinite,
                        },
                        None => Scalar::NonFinite,
                    }
                }
            },
            _ => Scalar::NonFinite,
        }
    }

    /// Fixed-point square root, rounded down; non-finite for negative input.
    pub fn sqrt(self) -> (r: Scalar)
        ensures
            r@ == fx_sqrt(self@),
    {
        match self {
            Scalar::Finite(x) => {
                if x < 0 {
                    Scalar::NonFinite
                } else {
                    match (x as u128).checked_mul(SCALE as u128) {
                        Some(p) => {
                            let r = isqrt_u128(p);
                            proof {
                                lemma_sqrt_floor_bounds(p as int);
                                assert(sqrt_floor(p as int) * sqrt_floor(p as int) <= p as int);
                                assert(in_i128(r as int)) by (nonlinear_arith)
                                    requires
                                        r as int == sqrt_floor(p as int),
                                        r >= 0,
                                        sqrt_floor(p as int) * sqrt_floor(p as int) <= p as int,
                                        p <= u128::MAX,
                                ;
                            }
                            Scalar::Finite(r as i128)
                        },
                        None => Scalar::NonFinite,
                    }
                }
            },
            Scalar::NonFinite => Scalar::NonFinite,
        }
    }
}

} // verus!
