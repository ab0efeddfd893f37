//! The engine as a mathematical state machine: what each operation makes of
//! the sequence of records and of the balances, and what holds of every
//! state that the operations can reach.

use crate::deciding::{admitted, enactment_time, verdict, Verdict};
use crate::error::Error;
use crate::ledger::{free_of, refunded, reserved, reserved_of, slashed, AccountId, Balance};
use crate::store::{
    ongoing_at, Deciding, Deposit, Enactment, Moment, ProposalHash, Referendum, ReferendumIndex,
    Status,
};
use crate::tally::Tally;
use crate::tracks::{Origin, TrackId, TrackInfo, TrackRegistry};
use vstd::prelude::*;

verus! {

/// What is fixed when the engine is set up.
#[derive(Clone, Debug)]
pub struct Rules {
    /// The tracks and the classes of origin.
    pub registry: TrackRegistry,
    /// The deposit that every submitter has to place.
    pub submission_deposit: u64,
    /// How many referenda may wait for a deciding slot of one track.
    pub max_queued: u32,
}

/// The state after an operation: the records, the balances, and the error
/// if the operation was refused.
pub struct Outcome {
    pub records: Seq<Referendum>,
    pub accounts: Map<AccountId, Balance>,
    pub error: Option<Error>,
}

/// Whether `record` counts for `track`: as deciding, or else as queued.
pub open spec fn occupies(record: Referendum, track: TrackId, deciding: bool) -> bool {
    if deciding {
        record.is_deciding_on(track)
    } else {
        record.is_queued_on(track)
    }
}

/// One if `record` counts for `track`, else nothing.
pub open spec fn weight(record: Referendum, track: TrackId, deciding: bool) -> nat {
    if occupies(record, track, deciding) {
        1
    } else {
        0
    }
}

/// How many of `records` count for `track`: as deciding, or else as queued.
pub open spec fn count(records: Seq<Referendum>, track: TrackId, deciding: bool) -> nat
    decreases records.len(),
{
    if records.len() == 0 {
        0
    } else {
        count(records.drop_last(), track, deciding) + weight(records.last(), track, deciding)
    }
}

/// How many referenda occupy a deciding slot of `track`.
pub open spec fn deciding_count(records: Seq<Referendum>, track: TrackId) -> nat {
    count(records, track, true)
}

/// How many referenda wait for a deciding slot of `track`.
pub open spec fn queued_count(records: Seq<Referendum>, track: TrackId) -> nat {
    count(records, track, false)
}

/// Whether the queued referendum `a` is served no later than the queued
/// referendum `b`: the earlier decision deposit goes first, and of two
/// placed at the same time the one submitted first.
pub open spec fn goes_before(records: Seq<Referendum>, a: int, b: int) -> bool {
    let at_a = records[a].decision_deposit->0.placed_at;
    let at_b = records[b].decision_deposit->0.placed_at;
    at_a < at_b || (at_a == at_b && a <= b)
}

/// Whether `index` is the first in the queue of `track`.
pub open spec fn is_queue_head(records: Seq<Referendum>, track: TrackId, index: int) -> bool {
    &&& 0 <= index < records.len()
    &&& records[index].is_queued_on(track)
    &&& forall|other: int|
        0 <= other < records.len() && (#[trigger] records[other]).is_queued_on(track)
            ==> goes_before(records, index, other)
}

/// The first in the queue of `track`, if anyone waits.
pub open spec fn queue_head(records: Seq<Referendum>, track: TrackId) -> Option<ReferendumIndex> {
    if exists|index: int| is_queue_head(records, track, index) {
        Some((choose|index: int| is_queue_head(records, track, index)) as u32)
    } else {
        None
    }
}

/// The time of the next look at a referendum that stays open at `now`.
pub open spec fn next_look(now: Moment) -> Moment {
    (now + 1) as u64
}

/// `record` once it has been given a deciding slot at `now`.
pub open spec fn in_slot(record: Referendum, info: TrackInfo, now: Moment) -> Referendum {
    Referendum {
        status: Status::Ongoing { deciding: Some(admitted(info, record.tally, now)) },
        alarm: Some(next_look(now)),
        ..record
    }
}

/// `record` once a look at `now` has left it as it is, to be looked at
/// again at the next moment.
pub open spec fn waiting_on(record: Referendum, now: Moment) -> Referendum {
    Referendum { alarm: Some(next_look(now)), ..record }
}

/// `record` once a look at `now` has left it in the slot state `deciding`.
pub open spec fn deciding_on(record: Referendum, deciding: Deciding, now: Moment) -> Referendum {
    Referendum {
        status: Status::Ongoing { deciding: Some(deciding) },
        alarm: Some(next_look(now)),
        ..record
    }
}

/// `record` once it has been closed with `status`: it has no wake-up left.
pub open spec fn closed_as(record: Referendum, status: Status, enact_at: Option<Moment>) -> Referendum {
    Referendum { status, alarm: None, enact_at, ..record }
}

/// `records` after the referendum `index` has been given a deciding slot at
/// `now`.
pub open spec fn slot_given(
    records: Seq<Referendum>,
    info: TrackInfo,
    index: int,
    now: Moment,
) -> Seq<Referendum> {
    records.update(index, in_slot(records[index], info, now))
}

/// `records` after the first in the queue of `track`, if anyone waits, has
/// been given a deciding slot at `now`.
pub open spec fn next_admitted(
    records: Seq<Referendum>,
    info: TrackInfo,
    track: TrackId,
    now: Moment,
) -> Seq<Referendum> {
    match queue_head(records, track) {
        Some(index) => slot_given(records, info, index as int, now),
        None => records,
    }
}

/// `records` after the referendum `index` stays as it is and is to be
/// looked at again after `now`.
pub open spec fn kept_waiting(records: Seq<Referendum>, index: int, now: Moment) -> Seq<
    Referendum,
> {
    records.update(index, waiting_on(records[index], now))
}

/// `records` after `deposit` has become the decision deposit of the
/// referendum `index`, before the referendum is considered for a slot.
pub open spec fn deposit_placed(
    records: Seq<Referendum>,
    index: int,
    deposit: Deposit,
    now: Moment,
) -> Seq<Referendum> {
    records.update(
        index,
        Referendum {
            decision_deposit: Some(deposit),
            alarm: Some(next_look(now)),
            ..records[index]
        },
    )
}

/// `records` after the deciding referendum `index` goes on in the slot
/// state `deciding`.
pub open spec fn kept_deciding(
    records: Seq<Referendum>,
    index: int,
    deciding: Deciding,
    now: Moment,
) -> Seq<Referendum> {
    records.update(index, deciding_on(records[index], deciding, now))
}

/// `records` after the referendum `index` has been closed with `status`:
/// its wake-up is cancelled, and if it held a deciding slot, the slot goes
/// to the first in the queue of its track.
pub open spec fn closed(
    records: Seq<Referendum>,
    info: TrackInfo,
    index: int,
    status: Status,
    enact_at: Option<Moment>,
    now: Moment,
) -> Seq<Referendum> {
    let record = records[index];
    let without = records.update(index, closed_as(record, status, enact_at));
    if record.is_deciding() {
        next_admitted(without, info, record.track, now)
    } else {
        without
    }
}

/// The balances after `deposit` has left the reserved balance of its
/// owner: slashed, or else refunded.
pub open spec fn released(accounts: Map<AccountId, Balance>, deposit: Deposit, slash: bool) -> Map<
    AccountId,
    Balance,
> {
    if slash {
        slashed(accounts, deposit.who, deposit.amount)
    } else {
        refunded(accounts, deposit.who, deposit.amount)
    }
}

/// What the decision deposit of `record` adds to what is held from `who`.
pub open spec fn decision_held(record: Referendum, who: AccountId) -> int {
    match record.decision_deposit {
        Some(deposit) => if deposit.who == who {
            deposit.amount as int
        } else {
            0
        },
        None => 0,
    }
}

/// Whether the ledger still holds both deposits of `record`.
pub open spec fn can_settle(accounts: Map<AccountId, Balance>, record: Referendum) -> bool {
    let submission = record.submission_deposit;
    &&& submission.amount + decision_held(record, submission.who) <= reserved_of(
        accounts,
        submission.who,
    )
    &&& match record.decision_deposit {
        Some(deposit) => deposit.amount <= reserved_of(accounts, deposit.who),
        None => true,
    }
}

/// The balances after both deposits of `record` have left the reserved
/// balances of their owners, each slashed or else refunded.
pub open spec fn settled(
    accounts: Map<AccountId, Balance>,
    record: Referendum,
    slash_submission: bool,
    slash_decision: bool,
) -> Map<AccountId, Balance> {
    let first = released(accounts, record.submission_deposit, slash_submission);
    match record.decision_deposit {
        Some(deposit) => released(first, deposit, slash_decision),
        None => first,
    }
}

/// The record of a referendum that `who` submits at `now`.
pub open spec fn submitted(
    track: TrackId,
    proposal_hash: ProposalHash,
    enactment: Enactment,
    who: AccountId,
    amount: u64,
    now: Moment,
) -> Referendum {
    Referendum {
        track,
        proposal_hash,
        enactment,
        submission_deposit: Deposit { who, amount, placed_at: now },
        decision_deposit: None,
        tally: Tally { ayes: 0, nays: 0 },
        status: Status::Ongoing { deciding: None },
        alarm: Some(next_look(now)),
        enact_at: None,
    }
}

impl Rules {
    /// The configuration of the track of `record`.
    pub open spec fn track_of(&self, record: Referendum) -> TrackInfo {
        self.registry.info_of(record.track)->0
    }

    /// What holds of every state the engine can reach: each record is well
    /// formed and belongs to a track of the registry, and no track has more
    /// referenda deciding than it has slots.
    pub open spec fn well_formed(&self, records: Seq<Referendum>) -> bool {
        &&& self.registry.wf()
        &&& records.len() <= u32::MAX
        &&& forall|i: int|
            0 <= i < records.len() ==> (#[trigger] records[i]).wf() && self.registry.info_of(
                records[i].track,
            ) is Some
        &&& forall|track: TrackId|
            self.registry.info_of(track) is Some ==> #[trigger] deciding_count(records, track)
                <= self.registry.info_of(track)->0.max_deciding
    }

    /// Whether the waiting referendum `index` may take a deciding slot: it
    /// has its decision deposit, its track has a free slot, and nobody is
    /// ahead of it in the queue.
    pub open spec fn admissible(&self, records: Seq<Referendum>, index: int) -> bool {
        let record = records[index];
        &&& record.is_queued()
        &&& deciding_count(records, record.track) < self.track_of(record).max_deciding
        &&& is_queue_head(records, record.track, index)
    }

    /// The refusal of an operation: nothing changes.
    pub open spec fn refused(
        records: Seq<Referendum>,
        accounts: Map<AccountId, Balance>,
        error: Error,
    ) -> Outcome {
        Outcome { records, accounts, error: Some(error) }
    }

    /// A submission by `who` at `now`. The new record gets the next index,
    /// `records.len()`.
    pub open spec fn submit(
        &self,
        records: Seq<Referendum>,
        accounts: Map<AccountId, Balance>,
        who: AccountId,
        origin: Origin,
        proposal_hash: ProposalHash,
        enactment: Enactment,
        now: Moment,
    ) -> Outcome {
        match self.registry.class_of(origin) {
            None => Self::refused(records, accounts, Error::Unclassifiable),
            Some(track) => if now == u64::MAX {
                Self::refused(records, accounts, Error::SchedulerFailure)
            } else if self.submission_deposit > free_of(accounts, who) {
                Self::refused(records, accounts, Error::LedgerFailure)
            } else {
                Outcome {
                    records: records.push(
                        submitted(
                            track,
                            proposal_hash,
                            enactment,
                            who,
                            self.submission_deposit,
                            now,
                        ),
                    ),
                    accounts: reserved(accounts, who, self.submission_deposit),
                    error: None,
                }
            },
        }
    }

    /// The placing of the decision deposit of the referendum `index` by
    /// `who` at `now`.
    pub open spec fn place_decision_deposit(
        &self,
        records: Seq<Referendum>,
        accounts: Map<AccountId, Balance>,
        index: ReferendumIndex,
        who: AccountId,
        now: Moment,
    ) -> Outcome {
        if !ongoing_at(records, index) {
            Self::refused(records, accounts, Error::NotOngoing)
        } else if records[index as int].decision_deposit is Some {
            Self::refused(records, accounts, Error::AlreadyDeposited)
        } else if now == u64::MAX {
            Self::refused(records, accounts, Error::SchedulerFailure)
        } else {
            let record = records[index as int];
            let info = self.track_of(record);
            let deposit = Deposit { who, amount: info.decision_deposit, placed_at: now };
            let placed = deposit_placed(records, index as int, deposit, now);
            if !self.admissible(placed, index as int) && queued_count(records, record.track)
                >= self.max_queued {
                Self::refused(records, accounts, Error::QueueFull)
            } else if info.decision_deposit > free_of(accounts, who) {
                Self::refused(records, accounts, Error::LedgerFailure)
            } else {
                Outcome {
                    records: if self.admissible(placed, index as int) {
                        slot_given(placed, info, index as int, now)
                    } else {
                        placed
                    },
                    accounts: reserved(accounts, who, info.decision_deposit),
                    error: None,
                }
            }
        }
    }

    /// The closing of the open referendum `index` with `status` at `now`,
    /// where its deposits are slashed or else refunded.
    pub open spec fn close(
        &self,
        records: Seq<Referendum>,
        accounts: Map<AccountId, Balance>,
        index: int,
        status: Status,
        enact_at: Option<Moment>,
        slash_submission: bool,
        slash_decision: bool,
        now: Moment,
    ) -> Outcome {
        let record = records[index];
        if !can_settle(accounts, record) {
            Self::refused(records, accounts, Error::LedgerFailure)
        } else {
            Outcome {
                records: closed(records, self.track_of(record), index, status, enact_at, now),
                accounts: settled(accounts, record, slash_submission, slash_decision),
                error: None,
            }
        }
    }

    /// The cancelling of the referendum `index` at `now`: both deposits are
    /// refunded.
    pub open spec fn cancel(
        &self,
        records: Seq<Referendum>,
        accounts: Map<AccountId, Balance>,
        index: ReferendumIndex,
        now: Moment,
    ) -> Outcome {
        if !ongoing_at(records, index) {
            Self::refused(records, accounts, Error::NotOngoing)
        } else if now == u64::MAX {
            Self::refused(records, accounts, Error::SchedulerFailure)
        } else {
            self.close(records, accounts, index as int, Status::Cancelled, None, false, false, now)
        }
    }

    /// The killing of the referendum `index` at `now`: both deposits are
    /// slashed.
    pub open spec fn kill(
        &self,
        records: Seq<Referendum>,
        accounts: Map<AccountId, Balance>,
        index: ReferendumIndex,
        now: Moment,
    ) -> Outcome {
        if !ongoing_at(records, index) {
            Self::refused(records, accounts, Error::NotOngoing)
        } else if now == u64::MAX {
            Self::refused(records, accounts, Error::SchedulerFailure)
        } else {
            self.close(records, accounts, index as int, Status::Killed, None, true, true, now)
        }
    }

    /// One look at the deciding referendum `index`, in the slot state
    /// `deciding`, at `now`.
    pub open spec fn look_at_deciding(
        &self,
        records: Seq<Referendum>,
        accounts: Map<AccountId, Balance>,
        index: int,
        deciding: Deciding,
        now: Moment,
    ) -> Outcome {
        let record = records[index];
        let info = self.track_of(record);
        match verdict(info, deciding, record.tally, now) {
            Verdict::Approve => {
                let at = enactment_time(record.enactment, now, info.min_enactment_period);
                if at > u64::MAX {
                    Self::refused(records, accounts, Error::SchedulerFailure)
                } else {
                    self.close(
                        records,
                        accounts,
                        index,
                        Status::Approved,
                        Some(at as u64),
                        false,
                        false,
                        now,
                    )
                }
            },
            Verdict::Reject => self.close(
                records,
                accounts,
                index,
                Status::Rejected,
                None,
                info.policy.slash_on_rejection,
                false,
                now,
            ),
            Verdict::TimeOut => self.close(
                records,
                accounts,
                index,
                Status::TimedOut,
                None,
                info.policy.slash_on_rejection,
                false,
                now,
            ),
            Verdict::Confirm { since } => Outcome {
                records: kept_deciding(
                    records,
                    index,
                    Deciding { since: deciding.since, confirming: Some(since) },
                    now,
                ),
                accounts,
                error: None,
            },
            Verdict::Deliberate => Outcome {
                records: kept_deciding(
                    records,
                    index,
                    Deciding { since: deciding.since, confirming: None },
                    now,
                ),
                accounts,
                error: None,
            },
        }
    }

    /// What a look at `now` that is not refused leaves under `index`: a
    /// deciding referendum is closed or kept as its verdict says, and a
    /// waiting one takes a slot if it may.
    pub open spec fn look_leaves(
        &self,
        records: Seq<Referendum>,
        index: int,
        now: Moment,
    ) -> Referendum {
        let record = records[index];
        let info = self.track_of(record);
        match record.status {
            Status::Ongoing { deciding: Some(deciding) } => match verdict(
                info,
                deciding,
                record.tally,
                now,
            ) {
                Verdict::Approve => closed_as(
                    record,
                    Status::Approved,
                    Some(enactment_time(record.enactment, now, info.min_enactment_period) as u64),
                ),
                Verdict::Reject => closed_as(record, Status::Rejected, None),
                Verdict::TimeOut => closed_as(record, Status::TimedOut, None),
                Verdict::Confirm { since } => deciding_on(
                    record,
                    Deciding { since: deciding.since, confirming: Some(since) },
                    now,
                ),
                Verdict::Deliberate => deciding_on(
                    record,
                    Deciding { since: deciding.since, confirming: None },
                    now,
                ),
            },
            _ => if self.admissible(records, index) {
                in_slot(record, info, now)
            } else {
                waiting_on(record, now)
            },
        }
    }

    /// The balances after a look that left `left` of `record`: where it
    /// closed the referendum, both deposits have been settled, the
    /// submission deposit of a rejected or timed out one as the policy says.
    pub open spec fn look_pays(
        &self,
        accounts: Map<AccountId, Balance>,
        record: Referendum,
        left: Referendum,
    ) -> Map<AccountId, Balance> {
        match left.status {
            Status::Approved => settled(accounts, record, false, false),
            Status::Rejected => settled(
                accounts,
                record,
                self.track_of(record).policy.slash_on_rejection,
                false,
            ),
            Status::TimedOut => settled(
                accounts,
                record,
                self.track_of(record).policy.slash_on_rejection,
                false,
            ),
            _ => accounts,
        }
    }

    /// One look at the referendum `index` at `now`, as a wake-up causes it.
    pub open spec fn on_alarm(
        &self,
        records: Seq<Referendum>,
        accounts: Map<AccountId, Balance>,
        index: ReferendumIndex,
        now: Moment,
    ) -> Outcome {
        if !ongoing_at(records, index) {
            Self::refused(records, accounts, Error::NotOngoing)
        } else if now == u64::MAX {
            Self::refused(records, accounts, Error::SchedulerFailure)
        } else {
            let record = records[index as int];
            match record.status {
                Status::Ongoing { deciding: Some(deciding) } => self.look_at_deciding(
                    records,
                    accounts,
                    index as int,
                    deciding,
                    now,
                ),
                _ => Outcome {
                    records: if self.admissible(records, index as int) {
                        slot_given(records, self.track_of(record), index as int, now)
                    } else {
                        kept_waiting(records, index as int, now)
                    },
                    accounts,
                    error: None,
                },
            }
        }
    }
}

} // verus!
