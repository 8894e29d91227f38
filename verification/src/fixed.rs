//! Fixed-point scalars.
//!
//! Model parameters and scalar inputs are fixed-point numbers: an `i64`
//! counting `SCALE`-ths of a unit. Multiplication scales the double-width
//! product back down, truncating toward zero, and reports an overflow of
//! the representable range as a [`ModelError::ComputeError`] instead of
//! wrapping or panicking.

use vstd::prelude::*;

use crate::errors::ModelError;

verus! {

/// Number of raw steps per whole unit: a `Fixed` with `raw == SCALE`
/// has the value one.
pub const SCALE: i64 = 1_000_000;

/// A fixed-point scalar; `raw` counts `SCALE`-ths of a unit.
#[derive(Clone, Copy, Debug, PartialEq, Eq, Structural)]
pub struct Fixed {
    pub raw: i64,
}

impl View for Fixed {
    type V = int;

    open spec fn view(&self) -> int {
        self.raw as int
    }
}

/// The scaled product of two raw fixed-point values: `a * b / SCALE`,
/// truncated toward zero.
pub open spec fn scaled_mul(a: int, b: int) -> int {
    if a * b >= 0 {
        (a * b) / (SCALE as int)
    } else {
        -((-(a * b)) / (SCALE as int))
    }
}

/// Whether the scaled product of `a` and `b` stays in the range this
/// representation accepts (symmetric around zero).
pub open spec fn mul_fits(a: int, b: int) -> bool {
    -(i64::MAX as int) <= scaled_mul(a, b) <= i64::MAX as int
}

impl Fixed {
    /// Builds a scalar from a raw count of `SCALE`-ths of a unit.
    pub fn from_raw(raw: i64) -> (r: Fixed)
        ensures
            r@ == raw as int,
    {
        Fixed { raw }
    }

    /// Builds a scalar holding `units` whole units.
    pub fn from_units(units: i64) -> (r: Fixed)
        requires
            i64::MIN as int <= units * (SCALE as int) <= i64::MAX as int,
        ensures
            r@ == units * (SCALE as int),
    {
        Fixed { raw: units * SCALE }
    }

    /// The raw count of `SCALE`-ths of a unit.
    pub fn raw(self) -> (r: i64)
        ensures
            r as int == self@,
    {
        self.raw
    }

    /// Fixed-point multiplication: the result is `self * other / SCALE`,
    /// truncated toward zero, or a `ComputeError` when that value leaves
    /// the representable range.
    pub fn times(self, other: Fixed) -> (r: Result<Fixed, ModelError>)
        ensures
            r is Ok <==> mul_fits(self@, other@),
            r is Ok ==> r->Ok_0@ == scaled_mul(self@, other@),
            r is Err ==> r->Err_0 is ComputeError,
    {
        let a: i128 = self.raw as i128;
        let b: i128 = other.raw as i128;
        proof {
            assert((a * b) < 170141183460469231731687303715884105727i128
                && (a * b) > -170141183460469231731687303715884105727i128)
                by (nonlinear_arith)
                requires
                    -9223372036854775808i128 <= a <= 9223372036854775807i128,
                    -9223372036854775808i128 <= b <= 9223372036854775807i128,
            ;
        }
        let p: i128 = a * b;
        let mag: u128 = if p < 0 {
            (-p) as u128
        } else {
            p as u128
        };
        assert(mag == if p < 0 { -(p as int) } else { p as int });
        let q: u128 = mag / 1_000_000u128;
        if q > (i64::MAX as u128) {
            Err(ModelError::ComputeError("fixed-point overflow in scaled multiply".to_owned()))
        } else {
            let m: i64 = q as i64;
            let res: i64 = if p < 0 {
                -m
            } else {
                m
            };
            assert(res as int == scaled_mul(self@, other@));
            Ok(Fixed { raw: res })
        }
    }
}

} // verus!
