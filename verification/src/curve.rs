//! Threshold curves: how much approval or turnout a referendum needs, as a
//! function of the fraction of its decision period that has elapsed.

use crate::fraction::{
    difference_parts, lemma_product_parts_bounded, lemma_product_parts_monotone, product_parts,
    Fraction, BILLION,
};
use vstd::prelude::*;

verus! {

/// The shape of a threshold over the decision period.
#[derive(Clone, Copy, Debug, PartialEq, Eq, Structural)]
pub enum Curve {
    /// Starts at `begin` and falls in a straight line by `delta` over the
    /// whole period, never below zero.
    LinearDecreasing { begin: Fraction, delta: Fraction },
}

impl Curve {
    /// The threshold, in parts per billion, once `elapsed` parts per billion
    /// of the period have gone by: `max(0, begin - delta * elapsed)`.
    pub open spec fn threshold_parts(self, elapsed: int) -> int {
        match self {
            Curve::LinearDecreasing { begin, delta } => difference_parts(
                begin.value(),
                product_parts(delta.value(), elapsed),
            ),
        }
    }

    /// The threshold that applies once the fraction `elapsed` of the period
    /// has gone by.
    pub fn threshold(&self, elapsed: Fraction) -> (r: Fraction)
        ensures
            r.value() == self.threshold_parts(elapsed.value()),
            r.parts as int == r.value(),
    {
        match self {
            Curve::LinearDecreasing { begin, delta } => {
                let fall = delta.mul(elapsed);
                begin.saturating_sub(fall)
            },
        }
    }

    /// Whether `value` meets the threshold that applies at `elapsed`.
    pub fn passing(&self, elapsed: Fraction, value: Fraction) -> (r: bool)
        ensures
            r == (value.value() >= self.threshold_parts(elapsed.value())),
    {
        value.ge(self.threshold(elapsed))
    }
}

/// A threshold is a fraction: it lies between nothing and one whole, and it
/// never exceeds the value the curve begins at.
pub proof fn lemma_threshold_bounded(curve: Curve, elapsed: Fraction)
    ensures
        0 <= curve.threshold_parts(elapsed.value()) <= BILLION,
{
    match curve {
        Curve::LinearDecreasing { begin, delta } => {
            lemma_product_parts_bounded(delta.value(), elapsed.value());
        },
    }
}

/// A threshold never rises as time goes by: with more of the period elapsed,
/// the threshold is the same or lower.
pub proof fn lemma_threshold_non_increasing(curve: Curve, earlier: Fraction, later: Fraction)
    requires
        earlier.value() <= later.value(),
    ensures
        curve.threshold_parts(later.value()) <= curve.threshold_parts(earlier.value()),
{
    match curve {
        Curve::LinearDecreasing { begin, delta } => {
            lemma_product_parts_monotone(delta.value(), earlier.value(), later.value());
        },
    }
}

} // verus!
