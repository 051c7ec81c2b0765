//! Exact positions in the unit interval.

use vstd::prelude::*;

verus! {

/// A rational number in `[0, 1]`, held as numerator over denominator.
///
/// The denominator is never zero and the numerator never exceeds it.
#[derive(Clone, Copy, Debug)]
pub struct Fraction {
    num: u64,
    den: u64,
}

impl Fraction {
    #[verifier::type_invariant]
    spec fn inv(self) -> bool {
        self.wf()
    }

    /// The numerator.
    pub closed spec fn num(self) -> int {
        self.num as int
    }

    /// The denominator.
    pub closed spec fn den(self) -> int {
        self.den as int
    }

    /// The fraction lies in the unit interval and has a denominator.
    pub open spec fn wf(self) -> bool {
        0 <= self.num() <= self.den() && 0 < self.den() && self.den() <= u64::MAX as int
    }

    /// `num / den`, or `None` where that is no number in `[0, 1]`.
    pub fn new(num: u64, den: u64) -> (r: Option<Fraction>)
        ensures
            r.is_some() <==> (den > 0 && num <= den),
            r matches Some(f) ==> f.num() == num && f.den() == den && f.wf(),
    {
        if den == 0 || num > den {
            None
        } else {
            Some(Fraction { num, den })
        }
    }

    /// Zero.
    pub fn zero() -> (r: Fraction)
        ensures
            r.num() == 0,
            r.den() == 1,
            r.wf(),
    {
        Fraction { num: 0, den: 1 }
    }

    /// One.
    pub fn one() -> (r: Fraction)
        ensures
            r.num() == 1,
            r.den() == 1,
            r.wf(),
    {
        Fraction { num: 1, den: 1 }
    }

    /// One half.
    pub fn half() -> (r: Fraction)
        ensures
            r.num() == 1,
            r.den() == 2,
            r.wf(),
    {
        Fraction { num: 1, den: 2 }
    }

    /// The numerator.
    pub fn numerator(&self) -> (n: u64)
        ensures
            n == self.num(),
            self.wf(),
    {
        proof {
            use_type_invariant(self);
        }
        self.num
    }

    /// The denominator.
    pub fn denominator(&self) -> (d: u64)
        ensures
            d == self.den(),
            self.wf(),
    {
        proof {
            use_type_invariant(self);
        }
        self.den
    }

    /// `1 - self`.
    pub fn complement(&self) -> (r: Fraction)
        ensures
            r.num() == self.den() - self.num(),
            r.den() == self.den(),
            r.wf(),
    {
        proof {
            use_type_invariant(self);
        }
        Fraction { num: self.den - self.num, den: self.den }
    }
}

} // verus!
