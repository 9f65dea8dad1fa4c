//! Exact rational scalars for frame coordinate arithmetic.
//!
//! The renderer's per-frame coordinate formulas (em-to-NDC scale, jittered
//! sample translations) are computed on exact rationals, so their contracts
//! can state the mathematical value precisely. The embedder rounds each
//! result to the nearest 32-bit float only at the GPU boundary. Every
//! finite 32-bit float is such a rational, so nothing is lost coming in.

use vstd::prelude::*;

verus! {

/// An exact rational number `num / den` with a positive denominator.
#[derive(Debug, Clone, Copy, PartialEq, Eq, Structural)]
pub struct Ratio {
    /// Numerator.
    pub num: i128,
    /// Denominator; always positive.
    pub den: i128,
}

impl Ratio {
    /// A denominator is always positive.
    pub open spec fn wf(self) -> bool {
        0 < self.den
    }

    /// Bounded tightly enough (magnitudes at most 2^60) that one frame's
    /// coordinate arithmetic cannot overflow 128-bit intermediates.
    pub open spec fn small(self) -> bool {
        &&& 0 < self.den <= 0x1000_0000_0000_0000
        &&& -0x1000_0000_0000_0000 <= self.num <= 0x1000_0000_0000_0000
    }

    /// Whether the two rationals denote the same value.
    pub open spec fn same_value(self, other: Ratio) -> bool {
        self.num * other.den == other.num * self.den
    }

    /// Constructs `num / den`.
    pub fn new(num: i64, den: i64) -> (r: Ratio)
        requires
            den > 0,
        ensures
            r.num == num,
            r.den == den,
            r.wf(),
    {
        Ratio { num: num as i128, den: den as i128 }
    }

    /// Compares two rationals by value, by cross-multiplication.
    pub fn value_eq(&self, other: &Ratio) -> (r: bool)
        requires
            self.wf(),
            other.wf(),
            i128::MIN <= self.num * other.den <= i128::MAX,
            i128::MIN <= other.num * self.den <= i128::MAX,
        ensures
            r == self.same_value(*other),
    {
        self.num * other.den == other.num * self.den
    }
}

/// A pair of exact rationals: one 2D point or vector.
#[derive(Debug, Clone, Copy, PartialEq, Eq, Structural)]
pub struct RatioVec2 {
    pub x: Ratio,
    pub y: Ratio,
}

} // verus!
