//! Fixed-point fractions in parts per billion.
//!
//! A [`Fraction`] stands for a `sp_runtime::Perbill`: it holds the number of
//! parts as a plain integer, and every arithmetic step is carried out by
//! `Perbill` itself.

use sp_runtime::traits::Saturating;
use sp_runtime::Perbill;
use vstd::prelude::*;

verus! {

/// The number of parts that make up one whole.
pub const BILLION: u32 = 1_000_000_000;

/// `parts` limited to one whole, the way `Perbill::from_parts` reads it.
pub open spec fn clamp_parts(parts: u32) -> int {
    if parts > BILLION {
        BILLION as int
    } else {
        parts as int
    }
}

/// The parts of `percent` hundredths, where anything above 100 counts as 100.
pub open spec fn percent_parts(percent: int) -> int {
    if percent > 100 {
        BILLION as int
    } else {
        percent * 10_000_000
    }
}

/// The parts of `p / q` rounded down. A ratio that does not lie in `[0, 1]`
/// (`q` is zero, or `p` exceeds `q`) counts as one whole.
pub open spec fn ratio_parts(p: int, q: int) -> int {
    if q <= 0 || p > q {
        BILLION as int
    } else {
        p * BILLION / q
    }
}

/// The parts of the product of two fractions, rounded down.
pub open spec fn product_parts(a: int, b: int) -> int {
    a * b / (BILLION as int)
}

/// The parts of `a - b`, or zero where `b` is the larger.
pub open spec fn difference_parts(a: int, b: int) -> int {
    if a >= b {
        a - b
    } else {
        0
    }
}

/// Calls `Perbill::from_percent` and hands back the parts of what it built.
/// Believed of it: a percentage above 100 is read as 100, and each hundredth
/// is worth ten million parts.
#[verifier::external_body]
fn perbill_from_percent(percent: u32) -> (parts: u32)
    ensures
        parts as int == percent_parts(percent as int),
{
    Perbill::from_percent(percent).deconstruct()
}

/// Calls `Perbill::from_rational` on two `u64` and hands back the parts of
/// what it built. Believed of it: for `0 < q` and `p <= q` the result is
/// `p * 1_000_000_000 / q` rounded down, and on every other input it is one
/// whole.
#[verifier::external_body]
fn perbill_from_rational(p: u64, q: u64) -> (parts: u32)
    ensures
        parts as int == ratio_parts(p as int, q as int),
{
    Perbill::from_rational(p, q).deconstruct()
}

/// Multiplies two `Perbill` values, built with `Perbill::from_parts`, with
/// their `*` operator. Believed of it: each operand is limited to one whole,
/// and the product of the parts is divided by one billion, rounding down.
#[verifier::external_body]
fn perbill_mul(a: u32, b: u32) -> (parts: u32)
    ensures
        parts as int == product_parts(clamp_parts(a), clamp_parts(b)),
{
    (Perbill::from_parts(a) * Perbill::from_parts(b)).deconstruct()
}

/// Calls `Saturating::saturating_sub` on two `Perbill` values built with
/// `Perbill::from_parts`. Believed of it: each operand is limited to one
/// whole, and the difference of the parts stops at zero.
#[verifier::external_body]
fn perbill_saturating_sub(a: u32, b: u32) -> (parts: u32)
    ensures
        parts as int == difference_parts(clamp_parts(a), clamp_parts(b)),
{
    Perbill::from_parts(a).saturating_sub(Perbill::from_parts(b)).deconstruct()
}

/// A fraction in `[0, 1]`, held as parts per billion.
#[derive(Clone, Copy, Debug, PartialEq, Eq, Structural)]
pub struct Fraction {
    /// Parts per billion; a number above one billion is read as one billion.
    pub parts: u32,
}

impl Fraction {
    /// The number of parts per billion that this fraction stands for.
    pub open spec fn value(self) -> int {
        clamp_parts(self.parts)
    }

    /// The fraction of `parts` per billion, at most one whole.
    pub fn from_parts(parts: u32) -> (r: Fraction)
        ensures
            r.parts as int == clamp_parts(parts),
            r.value() == clamp_parts(parts),
    {
        if parts > BILLION {
            Fraction { parts: BILLION }
        } else {
            Fraction { parts }
        }
    }

    /// Nothing.
    pub fn zero() -> (r: Fraction)
        ensures
            r.parts == 0,
            r.value() == 0,
    {
        Fraction { parts: 0 }
    }

    /// One whole.
    pub fn one() -> (r: Fraction)
        ensures
            r.parts == BILLION,
            r.value() == BILLION,
    {
        Fraction { parts: BILLION }
    }

    /// `percent` hundredths, at most one whole.
    pub fn from_percent(percent: u32) -> (r: Fraction)
        ensures
            r.parts as int == percent_parts(percent as int),
            r.value() == percent_parts(percent as int),
    {
        Fraction { parts: perbill_from_percent(percent) }
    }

    /// The ratio `p / q` rounded down to a whole number of parts; one whole
    /// where the ratio does not lie in `[0, 1]`.
    pub fn from_rational(p: u64, q: u64) -> (r: Fraction)
        ensures
            r.parts as int == ratio_parts(p as int, q as int),
            r.value() == ratio_parts(p as int, q as int),
    {
        proof {
            lemma_ratio_parts_bounded(p as int, q as int);
        }
        Fraction { parts: perbill_from_rational(p, q) }
    }

    /// The parts per billion, at most one billion.
    pub fn deconstruct(self) -> (parts: u32)
        ensures
            parts as int == self.value(),
            parts <= BILLION,
    {
        if self.parts > BILLION {
            BILLION
        } else {
            self.parts
        }
    }

    /// The product of two fractions, rounded down.
    pub fn mul(self, rhs: Fraction) -> (r: Fraction)
        ensures
            r.parts as int == product_parts(self.value(), rhs.value()),
            r.value() == product_parts(self.value(), rhs.value()),
    {
        proof {
            lemma_product_parts_bounded(self.value(), rhs.value());
        }
        Fraction { parts: perbill_mul(self.parts, rhs.parts) }
    }

    /// `self - rhs`, or nothing where `rhs` is the larger.
    pub fn saturating_sub(self, rhs: Fraction) -> (r: Fraction)
        ensures
            r.parts as int == difference_parts(self.value(), rhs.value()),
            r.value() == difference_parts(self.value(), rhs.value()),
    {
        Fraction { parts: perbill_saturating_sub(self.parts, rhs.parts) }
    }

    /// Whether `self` is at least `rhs`.
    pub fn ge(self, rhs: Fraction) -> (r: bool)
        ensures
            r == (self.value() >= rhs.value()),
    {
        self.deconstruct() >= rhs.deconstruct()
    }
}

/// A ratio never exceeds one whole.
pub proof fn lemma_ratio_parts_bounded(p: int, q: int)
    requires
        0 <= p,
    ensures
        0 <= ratio_parts(p, q) <= BILLION,
{
    if q > 0 && p <= q {
        assert(0 <= p * BILLION / q <= BILLION) by (nonlinear_arith)
            requires
                0 <= p <= q,
                0 < q,
        ;
    }
}

/// The product of two fractions is no larger than either of them.
pub proof fn lemma_product_parts_bounded(a: int, b: int)
    requires
        0 <= a <= BILLION,
        0 <= b <= BILLION,
    ensures
        0 <= product_parts(a, b) <= a,
        product_parts(a, b) <= b,
{
    assert(0 <= a * b / (BILLION as int) <= a && a * b / (BILLION as int) <= b)
        by (nonlinear_arith)
        requires
            0 <= a <= BILLION,
            0 <= b <= BILLION,
    ;
}

/// A product grows with its second factor.
pub proof fn lemma_product_parts_monotone(a: int, b1: int, b2: int)
    requires
        0 <= a,
        0 <= b1 <= b2,
    ensures
        product_parts(a, b1) <= product_parts(a, b2),
{
    assert(a * b1 / (BILLION as int) <= a * b2 / (BILLION as int)) by (nonlinear_arith)
        requires
            0 <= a,
            0 <= b1 <= b2,
    ;
}

} // verus!
