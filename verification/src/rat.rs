//! Exact rational values.
//!
//! The camera's projection matrix and the screen-to-clip coordinate
//! maps are ratios of small integers, so they are carried exactly as a
//! numerator over a positive denominator instead of floating point.
//! The rendering shell converts them to floats at the very edge.

use vstd::prelude::*;

verus! {

/// Greatest magnitude a rational's numerator or denominator may take
/// (2^30), so that cross products of two rationals stay inside `i64`.
pub const RAT_LIMIT: i64 = 1073741824;

/// A value usable as a numerator or denominator.
pub open spec fn in_rat_range(v: i64) -> bool {
    -RAT_LIMIT <= v <= RAT_LIMIT
}

/// An exact rational number `num / den`.
#[derive(Clone, Copy, Debug, PartialEq, Eq, Structural)]
pub struct Rat {
    pub num: i64,
    pub den: i64,
}

/// A rational at the specification level, with unbounded parts.
pub ghost struct Ratio {
    pub num: int,
    pub den: int,
}

/// The mathematical value of a stored rational.
pub open spec fn ratio_of(r: Rat) -> Ratio {
    Ratio { num: r.num as int, den: r.den as int }
}

/// Product of two rationals: numerators and denominators multiply.
pub open spec fn ratio_mul(a: Ratio, b: Ratio) -> Ratio {
    Ratio { num: a.num * b.num, den: a.den * b.den }
}

/// Sum of two rationals over the common denominator `a.den * b.den`.
pub open spec fn ratio_add(a: Ratio, b: Ratio) -> Ratio {
    Ratio { num: a.num * b.den + b.num * a.den, den: a.den * b.den }
}

/// Equality of rational values by cross multiplication. Meaningful for
/// nonzero denominators, which every well-formed `Rat` has.
pub open spec fn ratio_eq(a: Ratio, b: Ratio) -> bool {
    a.num * b.den == b.num * a.den
}

/// The rational with value `n`.
pub open spec fn ratio_whole(n: int) -> Ratio {
    Ratio { num: n, den: 1 }
}

impl Rat {
    /// Positive denominator and both parts within the rational range.
    pub open spec fn wf(self) -> bool {
        &&& 1 <= self.den <= RAT_LIMIT
        &&& in_rat_range(self.num)
    }

    pub fn new(num: i64, den: i64) -> (r: Self)
        ensures
            r == (Rat { num, den }),
    {
        Self { num, den }
    }

    /// The rational with integer value `n`.
    pub fn whole(n: i64) -> (r: Self)
        ensures
            r == (Rat { num: n, den: 1i64 }),
            ratio_of(r) == ratio_whole(n as int),
    {
        Self { num: n, den: 1 }
    }

    /// Whether two rationals denote the same value.
    pub fn equals(&self, other: &Rat) -> (r: bool)
        requires
            self.wf(),
            other.wf(),
        ensures
            r == ratio_eq(ratio_of(*self), ratio_of(*other)),
    {
        proof {
            lemma_cross_products_fit(*self, *other);
        }
        self.num * other.den == other.num * self.den
    }
}

/// Cross products of two well-formed rationals stay inside `i64`.
proof fn lemma_cross_products_fit(a: Rat, b: Rat)
    requires
        a.wf(),
        b.wf(),
    ensures
        i64::MIN <= a.num * b.den <= i64::MAX,
        i64::MIN <= b.num * a.den <= i64::MAX,
{
    assert(a.num * b.den <= RAT_LIMIT * RAT_LIMIT && a.num * b.den >= -(RAT_LIMIT * RAT_LIMIT)
        && b.num * a.den <= RAT_LIMIT * RAT_LIMIT && b.num * a.den >= -(RAT_LIMIT * RAT_LIMIT))
        by (nonlinear_arith)
        requires
            -RAT_LIMIT <= a.num <= RAT_LIMIT,
            1 <= b.den <= RAT_LIMIT,
            -RAT_LIMIT <= b.num <= RAT_LIMIT,
            1 <= a.den <= RAT_LIMIT,
    ;
}

} // verus!
