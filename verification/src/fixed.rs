//! A binary fixed-point number: the scalar this crate brings along.
//!
//! A [`Fixed`] holds a signed 64-bit count of units of two to the power -32.
//! Every operation is computed exactly on whole numbers, rounded toward zero
//! where it does not come out even, and held to the 64-bit range: a result
//! beyond it becomes the nearest end of the range. Runs on it are repeatable
//! bit for bit.

use crate::particle::Particle;
use crate::scalar::{ratio, Scalar};
use vstd::arithmetic::div_mod::lemma_div_by_multiple;
use vstd::prelude::*;

verus! {

/// Raw units in one whole: two to the power 32.
pub const ONE_RAW: i64 = 4294967296;

/// A number `raw / 2^32`.
#[derive(Clone, Copy, Debug, PartialEq, Eq, Structural)]
pub struct Fixed {
    pub raw: i64,
}

/// `v`, or the end of the 64-bit range nearest to it.
pub open spec fn saturate(v: int) -> i64 {
    if v > i64::MAX {
        i64::MAX
    } else if v < i64::MIN {
        i64::MIN
    } else {
        v as i64
    }
}

/// The distance of `v` from zero.
pub open spec fn distance(v: int) -> int {
    if v < 0 {
        -v
    } else {
        v
    }
}

/// `n / d` rounded toward zero, for a divisor other than zero.
pub open spec fn truncated_quotient(n: int, d: int) -> int {
    let q = distance(n) / distance(d);
    if (n < 0) != (d < 0) {
        -q
    } else {
        q
    }
}

/// Whether `r` is the largest whole number whose square is at most `n`.
pub open spec fn is_floor_root(r: int, n: int) -> bool {
    0 <= r && r * r <= n < (r + 1) * (r + 1)
}

/// The largest whole number whose square is at most `n`, for `n` from zero up.
pub open spec fn floor_root(n: int) -> int {
    choose|r: int| is_floor_root(r, n)
}

/// At most one number is the floor root of `n`.
pub proof fn floor_root_is_unique(n: int, r1: int, r2: int)
    requires
        is_floor_root(r1, n),
        is_floor_root(r2, n),
    ensures
        r1 == r2,
{
    if r1 < r2 {
        assert((r1 + 1) * (r1 + 1) <= r2 * r2) by (nonlinear_arith)
            requires
                0 <= r1,
                r1 + 1 <= r2,
        ;
    } else if r2 < r1 {
        assert((r2 + 1) * (r2 + 1) <= r1 * r1) by (nonlinear_arith)
            requires
                0 <= r2,
                r2 + 1 <= r1,
        ;
    }
}

fn saturate_wide(v: i128) -> (r: i64)
    ensures
        r == saturate(v as int),
{
    if v > 9223372036854775807i128 {
        9223372036854775807i64
    } else if v < -9223372036854775808i128 {
        -9223372036854775808i64
    } else {
        v as i64
    }
}

fn magnitude(x: i64) -> (m: u128)
    ensures
        m == distance(x as int),
        m <= 0x8000_0000_0000_0000,
{
    if x < 0 {
        let wide: i128 = -(x as i128);
        wide as u128
    } else {
        x as u128
    }
}

fn with_sign(negative: bool, m: u128) -> (r: i64)
    ensures
        r == saturate(
            if negative {
                -(m as int)
            } else {
                m as int
            },
        ),
{
    let capped: u128 = if m > 0x8000_0000_0000_0000u128 {
        0x8000_0000_0000_0000u128
    } else {
        m
    };
    let wide: i128 = capped as i128;
    if negative {
        saturate_wide(-wide)
    } else {
        saturate_wide(wide)
    }
}

/// The floor root of `n`, found by halving an interval that holds it.
pub fn floor_sqrt(n: u128) -> (r: u64)
    ensures
        is_floor_root(r as int, n as int),
        r as int == floor_root(n as int),
{
    let mut low: u128 = 0;
    let mut high: u128 = 0x1_0000_0000_0000_0000;
    assert(0x1_0000_0000_0000_0000int * 0x1_0000_0000_0000_0000int
        == 0x1_0000_0000_0000_0000_0000_0000_0000_0000int) by (nonlinear_arith);
    while high - low > 1
        invariant
            low < high <= 0x1_0000_0000_0000_0000,
            low * low <= n < high * high,
        decreases high - low,
    {
        let middle: u128 = low + (high - low) / 2;
        proof {
            square_against_quotient(middle as int, n as int);
        }
        if middle <= n / middle {
            low = middle;
        } else {
            high = middle;
        }
    }
    proof {
        assert(high == low + 1);
        assert(is_floor_root(low as int, n as int));
        floor_root_is_unique(n as int, low as int, floor_root(n as int));
    }
    low as u64
}

/// A number above zero has its square at most `n` exactly where it is at most
/// `n` divided by it.
proof fn square_against_quotient(m: int, n: int)
    requires
        0 < m,
        0 <= n,
    ensures
        m * m <= n <==> m <= n / m,
{
    vstd::arithmetic::div_mod::lemma_fundamental_div_mod(n, m);
    let q = n / m;
    assert(0 <= n % m < m);
    if m <= q {
        assert(m * m <= m * q) by (nonlinear_arith)
            requires
                0 < m <= q,
        ;
    } else {
        assert(m * (q + 1) <= m * m) by (nonlinear_arith)
            requires
                0 < m,
                q + 1 <= m,
        ;
        assert(m * (q + 1) == m * q + m) by (nonlinear_arith);
    }
}

impl Scalar for Fixed {
    open spec fn of_int(n: i128) -> Self {
        Fixed { raw: saturate(n * ONE_RAW) }
    }

    open spec fn of_unit_bits(bits: u64) -> Self {
        Fixed { raw: (bits / 0x1_0000_0000) as i64 }
    }

    open spec fn sum(self, rhs: Self) -> Self {
        Fixed { raw: saturate(self.raw + rhs.raw) }
    }

    open spec fn difference(self, rhs: Self) -> Self {
        Fixed { raw: saturate(self.raw - rhs.raw) }
    }

    open spec fn product(self, rhs: Self) -> Self {
        Fixed { raw: saturate(truncated_quotient(self.raw * rhs.raw, ONE_RAW as int)) }
    }

    /// Division by zero gives zero.
    open spec fn quotient(self, rhs: Self) -> Self {
        if rhs.raw == 0 {
            Fixed { raw: 0 }
        } else {
            Fixed { raw: saturate(truncated_quotient(self.raw * ONE_RAW, rhs.raw as int)) }
        }
    }

    /// The root of a number below zero is zero.
    open spec fn root(self) -> Self {
        if self.raw <= 0 {
            Fixed { raw: 0 }
        } else {
            Fixed { raw: floor_root(self.raw * ONE_RAW) as i64 }
        }
    }

    open spec fn less(self, rhs: Self) -> bool {
        self.raw < rhs.raw
    }

    open spec fn vanishes(self) -> bool {
        self.raw == 0
    }

    fn from_int(n: i128) -> (r: Self) {
        if n > 0x7fff_ffff {
            Fixed { raw: 9223372036854775807i64 }
        } else if n < -0x8000_0000i128 {
            Fixed { raw: -9223372036854775808i64 }
        } else {
            let wide: i128 = n * 4294967296i128;
            Fixed { raw: saturate_wide(wide) }
        }
    }

    fn from_unit_bits(bits: u64) -> (r: Self) {
        let high: u64 = bits / 0x1_0000_0000u64;
        Fixed { raw: high as i64 }
    }

    fn plus(self, rhs: Self) -> (r: Self) {
        let wide: i128 = (self.raw as i128) + (rhs.raw as i128);
        Fixed { raw: saturate_wide(wide) }
    }

    fn minus(self, rhs: Self) -> (r: Self) {
        let wide: i128 = (self.raw as i128) - (rhs.raw as i128);
        Fixed { raw: saturate_wide(wide) }
    }

    fn times(self, rhs: Self) -> (r: Self) {
        let negative: bool = (self.raw < 0) != (rhs.raw < 0);
        let left: u128 = magnitude(self.raw);
        let right: u128 = magnitude(rhs.raw);
        proof {
            magnitudes_multiply(self.raw as int, rhs.raw as int);
        }
        let q: u128 = (left * right) / 0x1_0000_0000u128;
        Fixed { raw: with_sign(negative, q) }
    }

    fn over(self, rhs: Self) -> (r: Self) {
        if rhs.raw == 0 {
            return Fixed { raw: 0 };
        }
        let negative: bool = (self.raw < 0) != (rhs.raw < 0);
        let left: u128 = magnitude(self.raw);
        let right: u128 = magnitude(rhs.raw);
        proof {
            magnitudes_multiply(self.raw as int, ONE_RAW as int);
        }
        let q: u128 = (left * 0x1_0000_0000u128) / right;
        Fixed { raw: with_sign(negative, q) }
    }

    fn sqrt(self) -> (r: Self) {
        if self.raw <= 0 {
            return Fixed { raw: 0 };
        }
        let wide: u128 = (self.raw as u128) * 0x1_0000_0000u128;
        let found: u64 = floor_sqrt(wide);
        proof {
            assert(found * found <= wide);
            assert(found < 0x1_0000_0000_0000) by (nonlinear_arith)
                requires
                    found * found <= wide,
                    wide < 0x1_0000_0000_0000_0000_0000_0000,
            ;
        }
        Fixed { raw: found as i64 }
    }

    fn lt(self, rhs: Self) -> (r: bool) {
        self.raw < rhs.raw
    }

    fn is_zero(self) -> (r: bool) {
        self.raw == 0
    }

    proof fn zero_laws() {
        assert(is_floor_root(0, 0));
    }

    proof fn order_law(n: i128) {
    }

    proof fn symmetry_laws(a: Self, b: Self) {
        let forth = saturate(a.raw - b.raw) as int;
        let back = saturate(b.raw - a.raw) as int;
        if i64::MIN < a.raw - b.raw <= i64::MAX {
            assert(back == -forth);
            assert(forth * forth == back * back) by (nonlinear_arith)
                requires
                    back == -forth,
            ;
        } else {
            squares_at_the_ends();
        }
    }
}

/// The distance of a product from zero is the product of the distances, it
/// fits 126 bits for 64-bit factors, and a product other than zero is below
/// zero exactly when one factor is.
proof fn magnitudes_multiply(a: int, b: int)
    requires
        i64::MIN <= a <= i64::MAX,
        i64::MIN <= b <= i64::MAX,
    ensures
        distance(a * b) == distance(a) * distance(b),
        distance(a) * distance(b) <= 0x4000_0000_0000_0000_0000_0000_0000_0000,
        a * b != 0 ==> ((a * b < 0) <==> ((a < 0) != (b < 0))),
        a * b == 0 ==> distance(a) * distance(b) == 0,
{
    assert(distance(a * b) == distance(a) * distance(b)) by (nonlinear_arith);
    assert(distance(a) * distance(b) <= 0x8000_0000_0000_0000 * 0x8000_0000_0000_0000)
        by (nonlinear_arith)
        requires
            0 <= distance(a) <= 0x8000_0000_0000_0000,
            0 <= distance(b) <= 0x8000_0000_0000_0000,
    ;
    assert(a * b != 0 ==> ((a * b < 0) <==> ((a < 0) != (b < 0)))) by (nonlinear_arith);
}

/// The squares of both ends of the 64-bit range saturate to the same product.
proof fn squares_at_the_ends()
    ensures
        saturate(truncated_quotient(i64::MAX * i64::MAX, ONE_RAW as int)) == i64::MAX,
        saturate(truncated_quotient(i64::MIN * i64::MIN, ONE_RAW as int)) == i64::MAX,
{
    let top = i64::MAX * i64::MAX;
    let bottom = i64::MIN * i64::MIN;
    assert(top == 85070591730234615847396907784232501249int) by (nonlinear_arith)
        requires
            top == i64::MAX * i64::MAX,
    ;
    assert(bottom == 85070591730234615865843651857942052864int) by (nonlinear_arith)
        requires
            bottom == i64::MIN * i64::MIN,
    ;
    assert(top / 4294967296 > i64::MAX) by (nonlinear_arith)
        requires
            top == 85070591730234615847396907784232501249int,
    ;
    assert(bottom / 4294967296 > i64::MAX) by (nonlinear_arith)
        requires
            bottom == 85070591730234615865843651857942052864int,
    ;
}

/// Whole numbers of 31 bits are held exactly, and so are their sums and
/// products as far as those have 31 bits.
pub proof fn whole_numbers_are_exact(a: i128, b: i128)
    requires
        -0x8000_0000 <= a < 0x8000_0000,
        -0x8000_0000 <= b < 0x8000_0000,
    ensures
        Fixed::of_int(a).raw == a * ONE_RAW,
        -0x8000_0000 <= a + b < 0x8000_0000 ==> Fixed::of_int(a).sum(Fixed::of_int(b))
            == Fixed::of_int((a + b) as i128),
        -0x8000_0000 <= a * b < 0x8000_0000 ==> Fixed::of_int(a).product(Fixed::of_int(b))
            == Fixed::of_int((a * b) as i128),
{
    let one = ONE_RAW as int;
    if -0x8000_0000 <= a * b < 0x8000_0000 {
        let whole = distance(a * b);
        assert((a * one) * (b * one) == (a * b * one) * one) by (nonlinear_arith);
        assert(distance((a * b * one) * one) == (whole * one) * one) by (nonlinear_arith)
            requires
                whole == distance(a * b),
                one > 0,
        ;
        assert(0 <= whole * one) by (nonlinear_arith)
            requires
                0 <= whole,
                0 < one,
        ;
        lemma_div_by_multiple(whole * one, one);
        assert(((a * b * one) * one < 0) == (a * b < 0)) by (nonlinear_arith)
            requires
                one > 0,
        ;
        assert(-(whole * one) == (a * b) * one || whole * one == (a * b) * one)
            by (nonlinear_arith)
            requires
                whole == distance(a * b),
        ;
    }
}

/// For an averaging radius of ten the neighbour scale is 1 / 440.
pub proof fn neighbor_scale_for_radius_ten()
    ensures
        Particle::<Fixed>::neighbor_scale(10) == ratio::<Fixed>(1, 440),
{
    whole_numbers_are_exact(4, 10);
    whole_numbers_are_exact(10, 1);
    whole_numbers_are_exact(40, 11);
}

} // verus!
