//! The vote tally of a referendum, and the two fractions the engine reads
//! from it.

use crate::fraction::{percent_parts, ratio_parts, Fraction};
use vstd::prelude::*;

verus! {

/// The votes cast on a referendum so far.
#[derive(Clone, Copy, Debug, PartialEq, Eq, Structural)]
pub struct Tally {
    /// Votes in favour.
    pub ayes: u32,
    /// Votes against.
    pub nays: u32,
}

impl Default for Tally {
    fn default() -> (r: Tally)
        ensures
            r == (Tally { ayes: 0, nays: 0 }),
    {
        Tally { ayes: 0, nays: 0 }
    }
}

impl Tally {
    /// The number of votes cast, for and against.
    pub open spec fn votes(self) -> int {
        self.ayes + self.nays
    }

    /// Turnout in parts per billion: each vote is one hundredth of the
    /// electorate, and turnout never exceeds one whole.
    pub open spec fn turnout_parts(self) -> int {
        percent_parts(self.votes())
    }

    /// Approval in parts per billion: the share of the votes cast that are in
    /// favour, rounded down, and nothing while no vote has been cast.
    pub open spec fn approval_parts(self) -> int {
        if self.votes() == 0 {
            0
        } else {
            ratio_parts(self.ayes as int, self.votes())
        }
    }

    /// The votes in favour.
    pub fn ayes(&self) -> (r: u32)
        ensures
            r == self.ayes,
    {
        self.ayes
    }

    /// The turnout: one hundredth per vote cast, at most one whole.
    pub fn turnout(&self) -> (r: Fraction)
        ensures
            r.value() == self.turnout_parts(),
            r.parts as int == r.value(),
    {
        let votes: u64 = self.ayes as u64 + self.nays as u64;
        if votes > 100 {
            Fraction::from_percent(100)
        } else {
            Fraction::from_percent(votes as u32)
        }
    }

    /// The approval: the share of the votes cast that are in favour, and
    /// nothing while no vote has been cast.
    pub fn approval(&self) -> (r: Fraction)
        ensures
            r.value() == self.approval_parts(),
            r.parts as int == r.value(),
    {
        let votes: u64 = self.ayes as u64 + self.nays as u64;
        if votes == 0 {
            Fraction::zero()
        } else {
            Fraction::from_rational(self.ayes as u64, votes)
        }
    }
}

} // verus!
