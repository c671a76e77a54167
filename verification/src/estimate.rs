//! The value an experiment reports: a non-negative fraction.

use vstd::prelude::*;

verus! {

/// An estimate of π held as the exact fraction `num / den`.
///
/// A zero denominator is not an error. As in IEEE arithmetic, `n / 0` with `n > 0` stands
/// for +∞ and `0 / 0` stands for "not a number"; the experiments yield these when the
/// statistic they divide by is zero.
#[derive(Clone, Copy, Debug, PartialEq, Eq, Structural)]
pub struct Estimate {
    pub num: u128,
    pub den: u128,
}

impl Estimate {
    /// The fraction is `0 / 0`.
    pub open spec fn spec_is_nan(&self) -> bool {
        self.num == 0 && self.den == 0
    }

    /// The fraction is `n / 0` with `n > 0`.
    pub open spec fn spec_is_infinite(&self) -> bool {
        self.num > 0 && self.den == 0
    }

    /// The fraction has a non-zero denominator.
    pub open spec fn spec_is_finite(&self) -> bool {
        self.den > 0
    }

    /// The fraction is finite and lies in the closed interval `[lo, hi]`.
    pub open spec fn spec_within(self, lo: int, hi: int) -> bool {
        self.den > 0 && lo * self.den <= self.num && self.num <= hi * self.den
    }

    /// Whether the estimate is "not a number".
    #[verifier::when_used_as_spec(spec_is_nan)]
    pub fn is_nan(&self) -> (b: bool)
        ensures
            b == self.spec_is_nan(),
    {
        self.num == 0 && self.den == 0
    }

    /// Whether the estimate is +∞.
    #[verifier::when_used_as_spec(spec_is_infinite)]
    pub fn is_infinite(&self) -> (b: bool)
        ensures
            b == self.spec_is_infinite(),
    {
        self.num > 0 && self.den == 0
    }

    /// Whether the estimate is an ordinary number.
    #[verifier::when_used_as_spec(spec_is_finite)]
    pub fn is_finite(&self) -> (b: bool)
        ensures
            b == self.spec_is_finite(),
    {
        self.den > 0
    }
}

} // verus!
