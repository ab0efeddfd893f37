//! The referendum store: every referendum ever submitted, by index.
//!
//! Records are never removed, so a closed referendum can still be looked
//! up, and the index of a referendum is its position in the store.

use crate::error::Error;
use crate::ledger::AccountId;
use crate::tally::Tally;
use crate::tracks::TrackId;
use vstd::prelude::*;

verus! {

/// The index of a referendum: its position in the order of submission.
pub type ReferendumIndex = u32;

/// A point in time, counted in blocks.
pub type Moment = u64;

/// The reference to the content of a proposal.
pub type ProposalHash = [u8; 32];

/// When an approved proposal is to be enacted.
#[derive(Clone, Copy, Debug, PartialEq, Eq, Structural)]
pub enum Enactment {
    /// At the given time.
    At(Moment),
    /// The given time after approval.
    After(Moment),
}

/// A deposit that is held for a referendum.
#[derive(Clone, Copy, Debug, PartialEq, Eq, Structural)]
pub struct Deposit {
    /// The account that the deposit was taken from.
    pub who: AccountId,
    /// The amount that is held.
    pub amount: u64,
    /// When the deposit was placed.
    pub placed_at: Moment,
}

/// The state of a referendum that occupies a deciding slot.
#[derive(Clone, Copy, Debug, PartialEq, Eq, Structural)]
pub struct Deciding {
    /// When the referendum was admitted to its slot.
    pub since: Moment,
    /// Since when the referendum has been passing without a break, if it is.
    pub confirming: Option<Moment>,
}

/// Where a referendum stands.
#[derive(Clone, Copy, Debug, PartialEq, Eq, Structural)]
pub enum Status {
    /// Open: waiting for a slot, or deciding in one.
    Ongoing { deciding: Option<Deciding> },
    /// Closed: passed and confirmed.
    Approved,
    /// Closed: the decision period ended without a confirmation.
    Rejected,
    /// Closed by an administrator, deposits returned.
    Cancelled,
    /// Closed: the decision period ended and turnout was never sufficient.
    TimedOut,
    /// Closed by an administrator, deposits slashed.
    Killed,
}

/// One referendum.
#[derive(Clone, Copy, Debug)]
pub struct Referendum {
    /// The track, fixed at submission.
    pub track: TrackId,
    /// The proposal to enact on approval.
    pub proposal_hash: ProposalHash,
    /// When the proposal is to be enacted.
    pub enactment: Enactment,
    /// The deposit of the submitter, taken at submission.
    pub submission_deposit: Deposit,
    /// The decision deposit, once it is placed.
    pub decision_deposit: Option<Deposit>,
    /// The votes so far.
    pub tally: Tally,
    /// Where the referendum stands.
    pub status: Status,
    /// When the referendum is to be looked at next.
    pub alarm: Option<Moment>,
    /// When the proposal is enacted, once the referendum is approved.
    pub enact_at: Option<Moment>,
}

impl Referendum {
    /// The referendum is open.
    pub open spec fn is_ongoing(self) -> bool {
        self.status is Ongoing
    }

    /// The referendum occupies a deciding slot.
    pub open spec fn is_deciding(self) -> bool {
        self.status matches Status::Ongoing { deciding: Some(_) }
    }

    /// The referendum has its decision deposit and waits for a slot.
    pub open spec fn is_queued(self) -> bool {
        self.status == (Status::Ongoing { deciding: None }) && self.decision_deposit is Some
    }

    /// The referendum occupies a deciding slot of `track`.
    pub open spec fn is_deciding_on(self, track: TrackId) -> bool {
        self.track == track && self.is_deciding()
    }

    /// The referendum waits for a deciding slot of `track`.
    pub open spec fn is_queued_on(self, track: TrackId) -> bool {
        self.track == track && self.is_queued()
    }

    /// What holds of every record in the store: an open referendum has
    /// exactly one wake-up pending and a closed one has none, only a
    /// referendum with a decision deposit occupies a slot, and an approved
    /// one has its time of enactment.
    pub open spec fn wf(self) -> bool {
        &&& self.is_ongoing() <==> self.alarm is Some
        &&& self.is_deciding() ==> self.decision_deposit is Some
        &&& self.status is Approved <==> self.enact_at is Some
    }

    /// Whether the referendum is open.
    pub fn ongoing(&self) -> (r: bool)
        ensures
            r == self.is_ongoing(),
    {
        match self.status {
            Status::Ongoing { .. } => true,
            _ => false,
        }
    }

    /// The state of the deciding slot, if the referendum occupies one.
    pub fn deciding(&self) -> (r: Option<Deciding>)
        ensures
            r is Some == self.is_deciding(),
            r is Some ==> self.status == (Status::Ongoing { deciding: r }),
    {
        match self.status {
            Status::Ongoing { deciding } => deciding,
            _ => None,
        }
    }

    /// Whether the referendum has its decision deposit and waits for a slot.
    pub fn queued(&self) -> (r: bool)
        ensures
            r == self.is_queued(),
    {
        match self.status {
            Status::Ongoing { deciding: None } => self.decision_deposit.is_some(),
            _ => false,
        }
    }
}

/// The referenda, in the order of submission.
#[derive(Clone, Debug)]
pub struct ReferendumStore {
    /// The records; the index of a referendum is its position.
    pub records: Vec<Referendum>,
}

impl View for ReferendumStore {
    type V = Seq<Referendum>;

    open spec fn view(&self) -> Seq<Referendum> {
        self.records@
    }
}

/// Whether `records` holds an open referendum under `index`.
pub open spec fn ongoing_at(records: Seq<Referendum>, index: ReferendumIndex) -> bool {
    index < records.len() && records[index as int].is_ongoing()
}

impl ReferendumStore {
    /// A store without records.
    pub fn new() -> (r: ReferendumStore)
        ensures
            r@ == Seq::<Referendum>::empty(),
    {
        ReferendumStore { records: Vec::new() }
    }

    /// The number of referenda submitted so far, which is the index that the
    /// next one gets.
    pub fn len(&self) -> (r: usize)
        ensures
            r == self@.len(),
    {
        self.records.len()
    }

    /// Adds `record` and returns its index: the next unused one.
    pub fn insert(&mut self, record: Referendum) -> (index: ReferendumIndex)
        requires
            old(self)@.len() < u32::MAX,
        ensures
            index == old(self)@.len(),
            final(self)@ == old(self)@.push(record),
    {
        let index = self.records.len() as u32;
        self.records.push(record);
        index
    }

    /// The record under `index`, if there is one.
    pub fn get(&self, index: ReferendumIndex) -> (r: Option<&Referendum>)
        ensures
            index < self@.len() ==> r == Some(&self@[index as int]),
            index >= self@.len() ==> r is None,
    {
        if (index as usize) < self.records.len() {
            Some(&self.records[index as usize])
        } else {
            None
        }
    }

    /// The record under `index`, open to change, if there is one. Whatever
    /// the caller leaves in it becomes the record under `index`; no other
    /// record changes.
    pub fn get_mut(&mut self, index: ReferendumIndex) -> (r: Option<&mut Referendum>)
        ensures
            match r {
                Some(record) => index < old(self)@.len() && *record == old(self)@[index as int]
                    && final(self)@ == old(self)@.update(index as int, *final(record)),
                None => index >= old(self)@.len() && final(self)@ == old(self)@,
            },
    {
        if (index as usize) < self.records.len() {
            Some(&mut self.records[index as usize])
        } else {
            None
        }
    }

    /// The record under `index` if it is open; fails where there is no such
    /// record or the referendum has been closed.
    pub fn ensure_ongoing(&self, index: ReferendumIndex) -> (r: Result<&Referendum, Error>)
        ensures
            ongoing_at(self@, index) ==> r == Ok::<&Referendum, Error>(&self@[index as int]),
            !ongoing_at(self@, index) ==> r == Err::<&Referendum, Error>(Error::NotOngoing),
    {
        match self.get(index) {
            Some(record) => {
                if record.ongoing() {
                    Ok(record)
                } else {
                    Err(Error::NotOngoing)
                }
            },
            None => Err(Error::NotOngoing),
        }
    }
}

} // verus!
