//! Exact decimal fixed-point numbers: the state, time and tolerance type
//! of the toolkit.
//!
//! A [`Fixed`] holds a value `m / SCALE` as the signed 64-bit mantissa
//! `m`.  Addition and subtraction are exact; multiplication and division
//! truncate the mathematical quotient toward zero, exactly as the spec
//! functions [`mul_mant`] and [`div_mant`] describe.  Every operation
//! reports a mantissa that leaves the 64-bit range as
//! [`SolverError::Overflow`] instead of panicking or wrapping.

use crate::SolverError;
use vstd::arithmetic::div_mod::{
    lemma_div_multiples_vanish, lemma_div_nonincreasing, lemma_div_pos_is_pos,
};
use vstd::arithmetic::mul::lemma_mul_is_commutative;
use vstd::prelude::*;

verus! {

/// Number of mantissa units per 1.0: twelve decimal digits of fraction.
pub const SCALE: i64 = 1_000_000_000_000;

/// Absolute value of a mathematical integer.
pub open spec fn abs_i(x: int) -> int {
    if x >= 0 {
        x
    } else {
        -x
    }
}

/// Whether a mathematical integer fits in a 64-bit mantissa.
pub open spec fn in_range(x: int) -> bool {
    i64::MIN <= x <= i64::MAX
}

/// Integer division truncated toward zero, the rounding of Rust's `/`.
/// Written branch for branch as `checked_div` specifies it, over
/// Euclidean division of non-negative operands.
pub open spec fn div_trunc(x: int, d: int) -> int {
    if x == 0 {
        0
    } else if x > 0 && d > 0 {
        x / d
    } else if x < 0 && d < 0 {
        (x * -1) / (d * -1)
    } else if x < 0 {
        ((x * -1) / d) * -1
    } else {
        (x / (d * -1)) * -1
    }
}

/// Mantissa of the product of two fixed-point values.
pub open spec fn mul_mant(a: int, b: int) -> int {
    div_trunc(a * b, SCALE as int)
}

/// Mantissa of the quotient of two fixed-point values.
pub open spec fn div_mant(a: int, b: int) -> int {
    div_trunc(a * (SCALE as int), b)
}

/// Result of an exact mantissa addition, with its overflow condition.
pub open spec fn add_res(a: int, b: int) -> Result<int, SolverError> {
    if in_range(a + b) {
        Ok(a + b)
    } else {
        Err(SolverError::Overflow)
    }
}

/// Result of an exact mantissa subtraction, with its overflow condition.
pub open spec fn sub_res(a: int, b: int) -> Result<int, SolverError> {
    if in_range(a - b) {
        Ok(a - b)
    } else {
        Err(SolverError::Overflow)
    }
}

/// Result of a truncating fixed-point multiplication.
pub open spec fn mul_res(a: int, b: int) -> Result<int, SolverError> {
    if in_range(mul_mant(a, b)) {
        Ok(mul_mant(a, b))
    } else {
        Err(SolverError::Overflow)
    }
}

/// Result of a truncating fixed-point division by a nonzero value.
pub open spec fn div_res(a: int, b: int) -> Result<int, SolverError> {
    if in_range(div_mant(a, b)) {
        Ok(div_mant(a, b))
    } else {
        Err(SolverError::Overflow)
    }
}

/// Result of scaling an integer up to a mantissa.
pub open spec fn int_res(n: int) -> Result<int, SolverError> {
    if in_range(n * (SCALE as int)) {
        Ok(n * (SCALE as int))
    } else {
        Err(SolverError::Overflow)
    }
}

/// Whether an executable arithmetic result agrees with its mathematical
/// description: same success or failure, same mantissa, same error.
pub open spec fn agrees(r: Result<Fixed, SolverError>, s: Result<int, SolverError>) -> bool {
    match (r, s) {
        (Ok(f), Ok(m)) => f@ == m,
        (Err(e), Err(m)) => e == m,
        _ => false,
    }
}

/// Truncation toward zero never grows the magnitude of the dividend.
pub proof fn lemma_div_trunc_bounds(x: int, d: int)
    requires
        d != 0,
    ensures
        abs_i(div_trunc(x, d)) <= abs_i(x),
{
    if x == 0 {
    } else if x > 0 && d > 0 {
        lemma_div_nonincreasing(x, d);
        lemma_div_pos_is_pos(x, d);
    } else if x < 0 && d < 0 {
        lemma_div_nonincreasing(x * -1, d * -1);
        lemma_div_pos_is_pos(x * -1, d * -1);
    } else if x < 0 {
        lemma_div_nonincreasing(x * -1, d);
        lemma_div_pos_is_pos(x * -1, d);
    } else {
        lemma_div_nonincreasing(x, d * -1);
        lemma_div_pos_is_pos(x, d * -1);
    }
}

/// Truncation toward zero is exact on multiples of the divisor.
pub proof fn lemma_div_trunc_multiple(q: int, d: int)
    requires
        d > 0,
    ensures
        div_trunc(q * d, d) == q,
{
    let x = q * d;
    if q == 0 {
        assert(x == 0) by (nonlinear_arith)
            requires
                q == 0,
                x == q * d,
        ;
    } else if q > 0 {
        assert(x > 0) by (nonlinear_arith)
            requires
                q > 0,
                d > 0,
                x == q * d,
        ;
        lemma_mul_is_commutative(q, d);
        lemma_div_multiples_vanish(q, d);
    } else {
        assert(x < 0) by (nonlinear_arith)
            requires
                q < 0,
                d > 0,
                x == q * d,
        ;
        assert(x * -1 == (-q) * d) by (nonlinear_arith)
            requires
                x == q * d,
        ;
        lemma_mul_is_commutative(-q, d);
        lemma_div_multiples_vanish(-q, d);
    }
}

/// Multiplying a whole number of scale units by any value is exact:
/// the truncation at the twelfth digit discards nothing.
pub proof fn time_value_res(i: int, h: int)
    ensures
        mul_mant(i * (SCALE as int), h) == i * h,
{
    assert((i * h) * (SCALE as int) == (i * (SCALE as int)) * h) by (nonlinear_arith);
    lemma_div_trunc_multiple(i * h, SCALE as int);
}

/// A 64-bit decimal fixed-point number with value `mantissa / SCALE`.
#[derive(Clone, Copy, Debug, PartialEq, Eq, Structural)]
pub struct Fixed {
    m: i64,
}

impl View for Fixed {
    type V = int;

    closed spec fn view(&self) -> int {
        self.m as int
    }
}

impl Fixed {
    /// The value whose mantissa is `m`, that is `m / SCALE`.
    pub fn from_scaled(m: i64) -> (r: Fixed)
        ensures
            r@ == m,
    {
        Fixed { m }
    }

    /// The mantissa, `SCALE` times the value.
    pub fn as_scaled(&self) -> (r: i64)
        ensures
            r == self@,
    {
        self.m
    }

    /// The whole number `n`, when its mantissa is representable.
    pub fn from_int(n: i64) -> (r: Result<Fixed, SolverError>)
        ensures
            agrees(r, int_res(n as int)),
    {
        match n.checked_mul(SCALE) {
            Some(m) => Ok(Fixed { m }),
            None => Err(SolverError::Overflow),
        }
    }

    /// Exact sum.
    pub fn add(self, rhs: Fixed) -> (r: Result<Fixed, SolverError>)
        ensures
            agrees(r, add_res(self@, rhs@)),
    {
        match self.m.checked_add(rhs.m) {
            Some(m) => Ok(Fixed { m }),
            None => Err(SolverError::Overflow),
        }
    }

    /// Exact difference.
    pub fn sub(self, rhs: Fixed) -> (r: Result<Fixed, SolverError>)
        ensures
            agrees(r, sub_res(self@, rhs@)),
    {
        match self.m.checked_sub(rhs.m) {
            Some(m) => Ok(Fixed { m }),
            None => Err(SolverError::Overflow),
        }
    }

    /// Product, truncated toward zero at the twelfth fractional digit.
    pub fn mul(self, rhs: Fixed) -> (r: Result<Fixed, SolverError>)
        ensures
            agrees(r, mul_res(self@, rhs@)),
    {
        let a = self.m as i128;
        let b = rhs.m as i128;
        proof {
            lemma_i64_product_in_i128(a as int, b as int);
        }
        let p = a * b;
        proof {
            lemma_div_trunc_bounds(p as int, SCALE as int);
        }
        let q = match p.checked_div(SCALE as i128) {
            Some(q) => q,
            None => {
                proof {
                    assert(false);
                }
                0
            },
        };
        if i64::MIN as i128 <= q && q <= i64::MAX as i128 {
            Ok(Fixed { m: q as i64 })
        } else {
            Err(SolverError::Overflow)
        }
    }

    /// Quotient, truncated toward zero at the twelfth fractional digit.
    pub fn div(self, rhs: Fixed) -> (r: Result<Fixed, SolverError>)
        requires
            rhs@ != 0,
        ensures
            agrees(r, div_res(self@, rhs@)),
    {
        let a = self.m as i128;
        let b = rhs.m as i128;
        proof {
            lemma_i64_product_in_i128(a as int, SCALE as int);
        }
        let p = a * (SCALE as i128);
        proof {
            lemma_div_trunc_bounds(p as int, b as int);
        }
        let q = match p.checked_div(b) {
            Some(q) => q,
            None => {
                proof {
                    assert(false);
                }
                0
            },
        };
        if i64::MIN as i128 <= q && q <= i64::MAX as i128 {
            Ok(Fixed { m: q as i64 })
        } else {
            Err(SolverError::Overflow)
        }
    }

    /// Whether the magnitude of this value is at most the non-negative
    /// bound `t`.
    pub fn abs_le(&self, t: &Fixed) -> (r: bool)
        requires
            t@ >= 0,
        ensures
            r == (abs_i(self@) <= t@),
    {
        if self.m >= 0 {
            self.m <= t.m
        } else {
            self.m >= -t.m
        }
    }
}

/// The product of two 64-bit mantissas always fits a 128-bit register.
proof fn lemma_i64_product_in_i128(a: int, b: int)
    requires
        i64::MIN <= a <= i64::MAX,
        i64::MIN <= b <= i64::MAX,
    ensures
        i128::MIN <= a * b <= i128::MAX,
{
    assert(i128::MIN <= a * b <= i128::MAX) by (nonlinear_arith)
        requires
            -0x8000_0000_0000_0000 <= a <= 0x7fff_ffff_ffff_ffff,
            -0x8000_0000_0000_0000 <= b <= 0x7fff_ffff_ffff_ffff,
    ;
}

} // verus!
