//! Signed fixed-point numbers with six decimal places.
//!
//! Every operation computes the exact result, rounds it down to the next
//! millionth and cuts it off at the ends of the representable range.

use vstd::arithmetic::div_mod::lemma_fundamental_div_mod_converse;
use vstd::prelude::*;

verus! {

/// How many raw units make up the value one.
pub const SCALE: i64 = 1_000_000;

/// A signed fixed-point number: `raw` counts millionths.
#[derive(Clone, Copy, Debug, PartialEq, Eq, Structural)]
pub struct Fixed {
    pub raw: i64,
}

impl View for Fixed {
    type V = int;

    /// The number of millionths that the value holds.
    open spec fn view(&self) -> int {
        self.raw as int
    }
}

/// `x` cut off at the ends of the range of `i64`.
pub open spec fn saturate(x: int) -> int {
    if x < i64::MIN {
        i64::MIN as int
    } else if x > i64::MAX {
        i64::MAX as int
    } else {
        x
    }
}

/// Cuts a wide integer off at the ends of the range of `i64`.
pub(crate) fn saturate_i128(x: i128) -> (r: i64)
    ensures
        r == saturate(x as int),
{
    if x < i64::MIN as i128 {
        i64::MIN
    } else if x > i64::MAX as i128 {
        i64::MAX
    } else {
        x as i64
    }
}

/// Division that rounds towards negative infinity.
pub(crate) fn div_floor(x: i128, d: u64) -> (q: i128)
    requires
        d > 0,
        x > i128::MIN,
    ensures
        q == (x as int) / (d as int),
{
    let dd: u128 = d as u128;
    if x >= 0 {
        let m: u128 = x as u128;
        (m / dd) as i128
    } else {
        let m: u128 = (-x) as u128;
        let q: u128 = m / dd;
        let r: u128 = m % dd;
        if r == 0 {
            proof {
                assert(m == dd * q) by (nonlinear_arith)
                    requires
                        q == m / dd,
                        0 == m % dd,
                        dd > 0,
                ;
                assert(x as int == (d as int) * (-(q as int)) + 0) by (nonlinear_arith)
                    requires
                        m == dd * q,
                        x as int == -(m as int),
                        dd == d,
                ;
                lemma_fundamental_div_mod_converse(x as int, d as int, -(q as int), 0);
            }
            -(q as i128)
        } else {
            proof {
                assert(m == dd * q + r) by (nonlinear_arith)
                    requires
                        q == m / dd,
                        r == m % dd,
                        dd > 0,
                ;
                assert(x as int == (d as int) * (-(q as int) - 1) + (dd - r)) by (nonlinear_arith)
                    requires
                        m == dd * q + r,
                        x as int == -(m as int),
                        dd == d,
                ;
                lemma_fundamental_div_mod_converse(
                    x as int,
                    d as int,
                    -(q as int) - 1,
                    (dd - r) as int,
                );
            }
            -(q as i128) - 1
        }
    }
}

impl Fixed {
    /// The fixed-point number of `x` millionths, cut off at the ends of the range.
    pub open spec fn saturating(x: int) -> Fixed {
        Fixed { raw: saturate(x) as i64 }
    }

    /// The sum, cut off at the ends of the range.
    pub open spec fn add_spec(self, rhs: Fixed) -> Fixed {
        Fixed::saturating(self@ + rhs@)
    }

    /// The difference, cut off at the ends of the range.
    pub open spec fn sub_spec(self, rhs: Fixed) -> Fixed {
        Fixed::saturating(self@ - rhs@)
    }

    /// The product, rounded down to a millionth and cut off at the ends of
    /// the range. The product with zero is spelled out, which spares the
    /// solver a multiplication.
    pub open spec fn mul_spec(self, rhs: Fixed) -> Fixed {
        if self@ == 0 || rhs@ == 0 {
            Fixed { raw: 0 }
        } else {
            Fixed::saturating((self@ * rhs@) / 1_000_000)
        }
    }

    /// The distance from zero, cut off at the end of the range.
    pub open spec fn abs_spec(self) -> Fixed {
        if self@ < 0 {
            Fixed::saturating(-self@)
        } else {
            self
        }
    }

    /// The point at the fraction `w` of the way from `self` to `end`:
    /// `self + w * (end - self)`, each step a fixed-point operation.
    pub open spec fn lerp_spec(self, end: Fixed, w: Fixed) -> Fixed {
        self.add_spec(w.mul_spec(end.sub_spec(self)))
    }

    /// The number zero.
    pub fn zero() -> (r: Fixed)
        ensures
            r@ == 0,
    {
        Fixed { raw: 0 }
    }

    /// The number one.
    pub fn one() -> (r: Fixed)
        ensures
            r@ == SCALE,
    {
        Fixed { raw: SCALE }
    }

    /// Adds two numbers; the sum is cut off at the ends of the range.
    pub fn saturating_add(self, rhs: Fixed) -> (r: Fixed)
        ensures
            r == self.add_spec(rhs),
    {
        Fixed { raw: saturate_i128(self.raw as i128 + rhs.raw as i128) }
    }

    /// Subtracts `rhs`; the difference is cut off at the ends of the range.
    pub fn saturating_sub(self, rhs: Fixed) -> (r: Fixed)
        ensures
            r == self.sub_spec(rhs),
    {
        Fixed { raw: saturate_i128(self.raw as i128 - rhs.raw as i128) }
    }

    /// Multiplies two numbers; the product is rounded down to a millionth
    /// and cut off at the ends of the range.
    pub fn saturating_mul(self, rhs: Fixed) -> (r: Fixed)
        ensures
            r == self.mul_spec(rhs),
    {
        let a: i128 = self.raw as i128;
        let b: i128 = rhs.raw as i128;
        assert(-0x4000_0000_0000_0000_0000_0000_0000_0000 <= a * b
            <= 0x4000_0000_0000_0000_0000_0000_0000_0000) by (nonlinear_arith)
            requires
                -0x8000_0000_0000_0000 <= a <= 0x8000_0000_0000_0000,
                -0x8000_0000_0000_0000 <= b <= 0x8000_0000_0000_0000,
        ;
        let p: i128 = a * b;
        Fixed { raw: saturate_i128(div_floor(p, SCALE as u64)) }
    }

    /// The distance from zero; that of the least number is cut off at the
    /// greatest.
    pub fn saturating_abs(self) -> (r: Fixed)
        ensures
            r == self.abs_spec(),
    {
        if self.raw < 0 {
            Fixed { raw: saturate_i128(-(self.raw as i128)) }
        } else {
            self
        }
    }

    /// The point at the fraction `w` of the way from `self` to `end`.
    pub fn lerp(self, end: Fixed, w: Fixed) -> (r: Fixed)
        ensures
            r == self.lerp_spec(end, w),
    {
        self.saturating_add(w.saturating_mul(end.saturating_sub(self)))
    }
}

/// Between its ends a line is followed exactly: for a fraction between zero
/// and one, no step of `lerp` is cut off, and the result lies between the
/// two ends.
pub proof fn lemma_lerp_within(start: Fixed, end: Fixed, w: Fixed)
    requires
        0 <= w@ <= SCALE,
        i64::MIN <= end@ - start@ <= i64::MAX,
    ensures
        start.lerp_spec(end, w)@ == start@ + (w@ * (end@ - start@)) / (SCALE as int),
        start@ <= end@ ==> start@ <= start.lerp_spec(end, w)@ <= end@,
        end@ <= start@ ==> end@ <= start.lerp_spec(end, w)@ <= start@,
        w@ == 0 ==> start.lerp_spec(end, w) == start,
        w@ == SCALE ==> start.lerp_spec(end, w) == end,
{
    let d = end@ - start@;
    let p = w@ * d;
    let q = p / (SCALE as int);
    assert(d >= 0 ==> 0 <= q <= d) by (nonlinear_arith)
        requires
            0 <= w@ <= 1_000_000,
            p == w@ * d,
            q == p / 1_000_000,
    ;
    assert(d <= 0 ==> d <= q <= 0) by (nonlinear_arith)
        requires
            0 <= w@ <= 1_000_000,
            p == w@ * d,
            q == p / 1_000_000,
    ;
    assert(w@ == 0 ==> q == 0) by (nonlinear_arith)
        requires
            p == w@ * d,
            q == p / 1_000_000,
    ;
    assert(w@ == 1_000_000 ==> q == d) by (nonlinear_arith)
        requires
            p == w@ * d,
            q == p / 1_000_000,
    ;
}

} // verus!
