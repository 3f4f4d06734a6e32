//! Exact fractions: slider positions and the thresholds they are held against.

use vstd::prelude::*;

verus! {

/// The raw controller value that stands for a slider at its end stop and for a
/// button that is down.
pub const FULL_SCALE: u8 = 127;

/// A non-negative fraction, `numerator / denominator`. Comparisons are made by
/// cross-multiplication, so none of them rounds. With a zero denominator it is
/// no number: no slider position reaches or exceeds it.
#[derive(Clone, Copy, Debug)]
pub struct Fraction {
    pub numerator: u32,
    pub denominator: u32,
}

/// `value * factor`, which always fits.
fn scale(value: u32, factor: u8) -> (product: u64)
    ensures
        product == value * factor,
{
    assert(value as int * factor as int <= 0xffff_ffff * 255) by (nonlinear_arith)
        requires
            0 <= value <= 0xffff_ffff,
            0 <= factor <= 255,
    ;
    value as u64 * factor as u64
}

impl Fraction {
    /// The position `level / FULL_SCALE` of a slider whose raw value is `level`.
    pub open spec fn of_level(level: u8) -> Fraction {
        Fraction { numerator: level as u32, denominator: FULL_SCALE as u32 }
    }

    /// This fraction is a number and at most `level / FULL_SCALE`.
    pub open spec fn reached_by(self, level: u8) -> bool {
        self.denominator > 0 && self.numerator * FULL_SCALE <= self.denominator * level
    }

    /// This fraction is a number and less than `level / FULL_SCALE`.
    pub open spec fn exceeded_by(self, level: u8) -> bool {
        self.denominator > 0 && self.numerator * FULL_SCALE < self.denominator * level
    }

    /// The position of a slider whose raw value is `level`.
    pub fn from_level(level: u8) -> (fraction: Fraction)
        ensures
            fraction == Fraction::of_level(level),
    {
        Fraction { numerator: level as u32, denominator: FULL_SCALE as u32 }
    }

    /// Whether a slider at raw value `level` is at or above this fraction of
    /// its travel.
    pub fn is_reached_by(&self, level: u8) -> (reached: bool)
        ensures
            reached == self.reached_by(level),
    {
        let scaled: u64 = scale(self.numerator, FULL_SCALE);
        let position: u64 = scale(self.denominator, level);
        self.denominator > 0 && scaled <= position
    }

    /// Whether a slider at raw value `level` is strictly above this fraction of
    /// its travel.
    pub fn is_exceeded_by(&self, level: u8) -> (exceeded: bool)
        ensures
            exceeded == self.exceeded_by(level),
    {
        let scaled: u64 = scale(self.numerator, FULL_SCALE);
        let position: u64 = scale(self.denominator, level);
        self.denominator > 0 && scaled < position
    }
}

} // verus!
