//! Fixed-point readings.
//!
//! Analog inputs (trigger pull, squeeze force, thumbstick axes) and the
//! thresholds they are held against are carried as signed 64-bit numbers in
//! units of 2^-32. Whoever talks to the runtime converts its readings on the
//! way in and out; every comparison that the input rules need is then exact
//! integer arithmetic. Where the runtime's single-precision arithmetic
//! decides a result, as in the pressure of a grab, the sum is rounded as the
//! runtime rounds it.

use vstd::prelude::*;

verus! {

/// The raw value of the number one.
pub const ONE: i64 = 0x1_0000_0000;

/// The raw value of one half.
pub const HALF: i64 = 0x8000_0000;

/// A number in units of 2^-32.
#[derive(Clone, Copy, Debug, PartialEq, Eq, Structural)]
pub struct Fixed {
    pub raw: i64,
}

/// The smaller of two integers.
pub open spec fn min_int(a: int, b: int) -> int {
    if a <= b {
        a
    } else {
        b
    }
}

/// The larger of two integers.
pub open spec fn max_int(a: int, b: int) -> int {
    if a >= b {
        a
    } else {
        b
    }
}

/// `v`, held to the range of a raw value.
pub open spec fn saturate(v: int) -> int {
    max_int(i64::MIN as int, min_int(i64::MAX as int, v))
}

/// The distance, in units, between the single-precision numbers around a
/// count `v` of units that is not negative: one unit below 2^24 units, and
/// twice the distance around `v / 2` from there on.
pub open spec fn single_step(v: int) -> int
    decreases v,
{
    if v < 0x100_0000 {
        1
    } else {
        2 * single_step(v / 2)
    }
}

/// The count of units of the single-precision number nearest to `v` units,
/// for `v` not negative; of two that are equally near, the one that is an
/// even multiple of their distance.
pub open spec fn to_single(v: int) -> int {
    let step = single_step(v);
    let below = v / step;
    let rest = v % step;
    if 2 * rest < step || (2 * rest == step && below % 2 == 0) {
        below * step
    } else {
        (below + 1) * step
    }
}

impl Fixed {
    /// The number as a count of units of 2^-32.
    pub open spec fn units(self) -> int {
        self.raw as int
    }

    /// The distance from zero, in units.
    pub open spec fn abs_units(self) -> int {
        if self.raw < 0 {
            -(self.raw as int)
        } else {
            self.raw as int
        }
    }

    /// True when the point `(x, y)` lies on or outside the circle of radius
    /// `radius` around the origin.
    pub open spec fn reaches(x: Fixed, y: Fixed, radius: Fixed) -> bool {
        radius.raw <= 0 || x.units() * x.units() + y.units() * y.units() >= radius.units()
            * radius.units()
    }

    /// Wraps a raw value.
    pub fn from_raw(raw: i64) -> (r: Fixed)
        ensures
            r.raw == raw,
    {
        Fixed { raw }
    }

    /// Zero.
    pub fn zero() -> (r: Fixed)
        ensures
            r.raw == 0,
    {
        Fixed { raw: 0 }
    }

    /// Decides `self >= other`.
    pub fn ge(self, other: Fixed) -> (r: bool)
        ensures
            r == (self.units() >= other.units()),
    {
        self.raw >= other.raw
    }

    /// Decides `self > other`.
    pub fn gt(self, other: Fixed) -> (r: bool)
        ensures
            r == (self.units() > other.units()),
    {
        self.raw > other.raw
    }

    /// `self + 1` as the runtime computes it, in units: the sum of a
    /// number that is not negative is rounded to the nearest
    /// single-precision number and held to the largest raw value.
    pub open spec fn plus_one_units(self) -> int {
        if self.raw >= 0 {
            saturate(to_single(self.units() + ONE))
        } else {
            self.units() + ONE
        }
    }

    /// `self + 1` as the runtime computes it.
    pub fn plus_one(self) -> (r: Fixed)
        ensures
            r.units() == self.plus_one_units(),
    {
        if self.raw < 0 {
            return Fixed { raw: self.raw + ONE };
        }
        let v: u128 = (self.raw as u128) + (ONE as u128);
        let mut step: u128 = 1;
        let mut top: u128 = v;
        assert(v as int / 1 == v as int);
        while top >= 0x100_0000
            invariant
                v < 0x1_0000_0000_0000_0000u128,
                0 < step,
                step == 1 || top >= 0x80_0000,
                top == (v as int) / (step as int),
                top * step <= v,
                single_step(v as int) == step * single_step(top as int),
            decreases top,
        {
            proof {
                vstd::arithmetic::div_mod::lemma_div_denominator(v as int, step as int, 2);
                let half = (top as int) / 2;
                assert(2 * half <= top);
                assert((2 * step) * half <= top * step) by (nonlinear_arith)
                    requires
                        2 * half <= top,
                        0 < step,
                ;
                assert(step < 0x100_0000_0000u128) by (nonlinear_arith)
                    requires
                        top * step <= v,
                        v < 0x1_0000_0000_0000_0000u128,
                        top >= 0x100_0000,
                        0 < step,
                ;
                assert(single_step(top as int) == 2 * single_step(half));
                assert(step * (2 * single_step(half)) == (2 * step) * single_step(half))
                    by (nonlinear_arith);
                assert(half * (2 * step) == (2 * step) * half) by (nonlinear_arith);
                assert((step as int) * 2 == 2 * (step as int));
            }
            top = top / 2;
            step = step * 2;
        }
        proof {
            assert(single_step(top as int) == 1);
            assert(step * 1 == step);
            assert(single_step(v as int) == step);
            assert(step < 0x200_0000_0000u128) by (nonlinear_arith)
                requires
                    top * step <= v,
                    v < 0x1_0000_0000_0000_0000u128,
                    step == 1 || top >= 0x80_0000,
                    0 < step,
            ;
            assert((top + 1) * step == top * step + step) by (nonlinear_arith);
        }
        let rest: u128 = v % step;
        let down = rest * 2 < step || (rest * 2 == step && top % 2 == 0);
        let rounded: u128 = if down {
            top * step
        } else {
            (top + 1) * step
        };
        if rounded > i64::MAX as u128 {
            Fixed { raw: i64::MAX }
        } else {
            Fixed { raw: rounded as i64 }
        }
    }

    /// `self - other`, held to the range of a raw value.
    pub fn minus(self, other: Fixed) -> (r: Fixed)
        ensures
            r.units() == saturate(self.units() - other.units()),
    {
        let wide: i128 = (self.raw as i128) - (other.raw as i128);
        if wide > i64::MAX as i128 {
            Fixed { raw: i64::MAX }
        } else if wide < i64::MIN as i128 {
            Fixed { raw: i64::MIN }
        } else {
            Fixed { raw: wide as i64 }
        }
    }

    /// The distance from zero as an unsigned count of units.
    pub fn magnitude(self) -> (r: u64)
        ensures
            r == self.abs_units(),
    {
        if self.raw < 0 {
            if self.raw == i64::MIN {
                0x8000_0000_0000_0000u64
            } else {
                (-self.raw) as u64
            }
        } else {
            self.raw as u64
        }
    }

    /// Decides whether `(x, y)` lies on or outside the circle of radius
    /// `radius`.
    pub fn norm_at_least(x: Fixed, y: Fixed, radius: Fixed) -> (r: bool)
        ensures
            r == Self::reaches(x, y, radius),
    {
        if radius.raw <= 0 {
            return true;
        }
        let ax: u128 = x.magnitude() as u128;
        let ay: u128 = y.magnitude() as u128;
        let ar: u128 = radius.raw as u128;
        assert(ax * ax <= 0x8000_0000_0000_0000u128 * 0x8000_0000_0000_0000u128) by (nonlinear_arith)
            requires
                ax <= 0x8000_0000_0000_0000u128,
        ;
        assert(ay * ay <= 0x8000_0000_0000_0000u128 * 0x8000_0000_0000_0000u128) by (nonlinear_arith)
            requires
                ay <= 0x8000_0000_0000_0000u128,
        ;
        assert(ar * ar <= 0x8000_0000_0000_0000u128 * 0x8000_0000_0000_0000u128) by (nonlinear_arith)
            requires
                ar <= 0x8000_0000_0000_0000u128,
        ;
        assert(x.units() * x.units() == ax * ax) by (nonlinear_arith)
            requires
                ax == x.abs_units(),
                x.abs_units() == x.units() || x.abs_units() == -x.units(),
        ;
        assert(y.units() * y.units() == ay * ay) by (nonlinear_arith)
            requires
                ay == y.abs_units(),
                y.abs_units() == y.units() || y.abs_units() == -y.units(),
        ;
        let xx: u128 = ax * ax;
        let yy: u128 = ay * ay;
        let rr: u128 = ar * ar;
        xx + yy >= rr
    }
}

} // verus!
