//! Rational numbers.

use vstd::prelude::*;

verus! {

/// A rational number, stored as numerator and denominator.
#[derive(Debug, Clone, Copy, PartialEq, Eq, Structural)]
pub struct Rational {
    pub num: u32,
    pub den: u32,
}

impl Rational {
    /// Creates a rational number from a numerator and a denominator.
    pub fn new(num: u32, den: u32) -> (r: Rational)
        ensures
            r.num == num,
            r.den == den,
    {
        Rational { num, den }
    }
}

} // verus!
