//! Lengths as fixed-point integers, and the tri-state number built on them.
//!
//! A length counts thousandths of a pixel. Every operation is total: sums,
//! differences and products are taken exactly and then confined to
//! `-MAX_LENGTH ..= MAX_LENGTH`, so no result ever leaves that range.

use vstd::prelude::*;

verus! {

/// Length units per pixel.
pub const UNITS_PER_PIXEL: i64 = 1000;

/// Largest magnitude of a length. Results beyond it saturate.
pub const MAX_LENGTH: i64 = 1_099_511_627_776;

/// `x` confined to the range of lengths.
pub open spec fn clamp_length(x: int) -> i64 {
    if x < -MAX_LENGTH {
        (-MAX_LENGTH) as i64
    } else if x > MAX_LENGTH {
        MAX_LENGTH
    } else {
        x as i64
    }
}

/// Whether `x` is a length that no operation needs to saturate.
pub open spec fn is_length(x: int) -> bool {
    -MAX_LENGTH <= x <= MAX_LENGTH
}

/// The quotient `n / d` rounded toward zero, for a positive divisor.
pub open spec fn quotient(n: int, d: int) -> int {
    if n >= 0 {
        n / d
    } else {
        -((-n) / d)
    }
}

/// `x * num / den` as a length; zero where the divisor is not positive.
pub open spec fn scaled(x: int, num: int, den: int) -> i64 {
    if den <= 0 {
        0
    } else {
        clamp_length(quotient(x * num, den))
    }
}

/// The larger of `x` and zero.
pub open spec fn non_negative(x: int) -> int {
    if x < 0 {
        0
    } else {
        x
    }
}

proof fn lemma_product_fits(a: int, b: int)
    requires
        -0x8000_0000_0000_0000 <= a <= 0x7fff_ffff_ffff_ffff,
        -0x8000_0000_0000_0000 <= b <= 0x7fff_ffff_ffff_ffff,
    ensures
        -0x4000_0000_0000_0000_0000_0000_0000_0000 <= a * b
            <= 0x4000_0000_0000_0000_0000_0000_0000_0000,
{
    assert(a * b <= 0x4000_0000_0000_0000_0000_0000_0000_0000) by (nonlinear_arith)
        requires
            -0x8000_0000_0000_0000 <= a <= 0x8000_0000_0000_0000,
            -0x8000_0000_0000_0000 <= b <= 0x8000_0000_0000_0000,
    ;
    assert(a * b >= -0x4000_0000_0000_0000_0000_0000_0000_0000) by (nonlinear_arith)
        requires
            -0x8000_0000_0000_0000 <= a <= 0x8000_0000_0000_0000,
            -0x8000_0000_0000_0000 <= b <= 0x8000_0000_0000_0000,
    ;
}

/// Confines a wide intermediate value to the range of lengths.
pub fn saturate(x: i128) -> (r: i64)
    ensures
        r == clamp_length(x as int),
        is_length(r as int),
{
    if x < -(MAX_LENGTH as i128) {
        -MAX_LENGTH
    } else if x > MAX_LENGTH as i128 {
        MAX_LENGTH
    } else {
        x as i64
    }
}

/// Saturating sum of two lengths.
pub fn sat_add(a: i64, b: i64) -> (r: i64)
    ensures
        r == clamp_length(a + b),
        is_length(r as int),
{
    saturate(a as i128 + b as i128)
}

/// Saturating difference of two lengths.
pub fn sat_sub(a: i64, b: i64) -> (r: i64)
    ensures
        r == clamp_length(a - b),
        is_length(r as int),
{
    saturate(a as i128 - b as i128)
}

/// `x * num / den`, rounded toward zero and saturated; zero where `den` is
/// not positive.
pub fn scale(x: i64, num: i64, den: i64) -> (r: i64)
    ensures
        r == scaled(x as int, num as int, den as int),
        is_length(r as int),
{
    if den <= 0 {
        return 0;
    }
    proof {
        lemma_product_fits(x as int, num as int);
    }
    let product: i128 = (x as i128) * (num as i128);
    let divisor: i128 = den as i128;
    if product >= 0 {
        saturate(product / divisor)
    } else {
        let positive: i128 = -product;
        let q: i128 = positive / divisor;
        saturate(-q)
    }
}

/// The larger of `x` and zero.
pub fn at_least_zero(x: i64) -> (r: i64)
    ensures
        r == non_negative(x as int),
{
    if x < 0 {
        0
    } else {
        x
    }
}

/// A value that is either known or not yet resolvable.
///
/// `Undefined` stands for "no constraint yet", which is different from a
/// constraint of zero. Two numbers compare only where both are defined.
#[derive(Clone, Copy, Debug, PartialEq, Eq, Structural)]
pub enum Number {
    Undefined,
    Defined(i64),
}

impl Number {
    /// Whether the number holds a value.
    pub open spec fn spec_is_defined(self) -> bool {
        self is Defined
    }

    /// The sum; undefined as soon as one side is.
    pub open spec fn spec_add(self, rhs: Number) -> Number {
        match (self, rhs) {
            (Number::Defined(a), Number::Defined(b)) => Number::Defined(clamp_length(a + b)),
            _ => Number::Undefined,
        }
    }

    /// The smaller of two defined values; a lone defined side wins.
    pub open spec fn spec_min(self, rhs: Number) -> Number {
        match (self, rhs) {
            (Number::Defined(a), Number::Defined(b)) => Number::Defined(
                if a <= b {
                    a
                } else {
                    b
                },
            ),
            (Number::Defined(a), Number::Undefined) => Number::Defined(a),
            (Number::Undefined, other) => other,
        }
    }

    /// The larger of two defined values; a lone defined side wins.
    pub open spec fn spec_max(self, rhs: Number) -> Number {
        match (self, rhs) {
            (Number::Defined(a), Number::Defined(b)) => Number::Defined(
                if a >= b {
                    a
                } else {
                    b
                },
            ),
            (Number::Defined(a), Number::Undefined) => Number::Defined(a),
            (Number::Undefined, other) => other,
        }
    }

    /// The value where defined, `default` otherwise.
    pub open spec fn spec_get_or(self, default: i64) -> i64 {
        match self {
            Number::Defined(v) => v,
            Number::Undefined => default,
        }
    }

    /// A defined number holding `v`, saturated to the range of lengths.
    pub fn defined(v: i64) -> (r: Number)
        ensures
            r == Number::Defined(clamp_length(v as int)),
    {
        Number::Defined(saturate(v as i128))
    }

    /// The number that holds no value.
    pub fn undefined() -> (r: Number)
        ensures
            r == Number::Undefined,
    {
        Number::Undefined
    }

    /// Whether the number holds a value.
    #[verifier::when_used_as_spec(spec_is_defined)]
    pub fn is_defined(self) -> (r: bool)
        ensures
            r == self.spec_is_defined(),
    {
        match self {
            Number::Defined(_) => true,
            Number::Undefined => false,
        }
    }

    /// The sum; undefined as soon as one side is.
    pub fn add(self, rhs: Number) -> (r: Number)
        ensures
            r == self.spec_add(rhs),
    {
        match (self, rhs) {
            (Number::Defined(a), Number::Defined(b)) => Number::Defined(sat_add(a, b)),
            _ => Number::Undefined,
        }
    }

    /// The smaller of two defined values; a lone defined side wins.
    pub fn min(self, rhs: Number) -> (r: Number)
        ensures
            r == self.spec_min(rhs),
    {
        match (self, rhs) {
            (Number::Defined(a), Number::Defined(b)) => Number::Defined(
                if a <= b {
                    a
                } else {
                    b
                },
            ),
            (Number::Defined(a), Number::Undefined) => Number::Defined(a),
            (Number::Undefined, other) => other,
        }
    }

    /// The larger of two defined values; a lone defined side wins.
    pub fn max(self, rhs: Number) -> (r: Number)
        ensures
            r == self.spec_max(rhs),
    {
        match (self, rhs) {
            (Number::Defined(a), Number::Defined(b)) => Number::Defined(
                if a >= b {
                    a
                } else {
                    b
                },
            ),
            (Number::Defined(a), Number::Undefined) => Number::Defined(a),
            (Number::Undefined, other) => other,
        }
    }

    /// The value where defined, `default` otherwise.
    pub fn get_or(self, default: i64) -> (r: i64)
        ensures
            r == self.spec_get_or(default),
    {
        match self {
            Number::Defined(v) => v,
            Number::Undefined => default,
        }
    }
}

impl Default for Number {
    fn default() -> (r: Number)
        ensures
            r == Number::Undefined,
    {
        Number::Undefined
    }
}

} // verus!
