//! The deciding engine: the operations that submit, fund, decide and close
//! referenda, each proved to do what the state machine of the model says.

use crate::deciding::{decide, enter_slot, resolve_enactment, Verdict};
use crate::error::Error;
use crate::invariants::{
    lemma_closed_keeps_well_formed, lemma_look,
    lemma_place_decision_deposit_keeps_well_formed, lemma_queue_head,
    lemma_slot_given_keeps_well_formed, lemma_submit_keeps_well_formed,
    lemma_update_keeps_well_formed,
};
use crate::ledger::{AccountId, Ledger};
use crate::model::{
    can_settle, count, deciding_count, goes_before, is_queue_head, queue_head, queued_count,
    released, settled, slot_given, Outcome, Rules,
};
use crate::store::{
    ongoing_at, Deciding, Deposit, Enactment, Moment, ProposalHash, Referendum, ReferendumIndex,
    ReferendumStore, Status,
};
use crate::tally::Tally;
use crate::tracks::{Origin, TrackId};
use vstd::prelude::*;

verus! {

/// The engine: its rules and the referenda it looks after.
#[derive(Clone, Debug)]
pub struct Referenda {
    /// What was fixed when the engine was set up.
    pub rules: Rules,
    /// The referenda.
    pub store: ReferendumStore,
}

/// Lets `deposit` leave the reserved balance of its owner: slashed, or else
/// refunded. Fails, and changes nothing, where the ledger does not hold it.
pub fn release(ledger: &mut Ledger, deposit: &Deposit, slash: bool) -> (r: Result<(), Error>)
    requires
        old(ledger).wf(),
    ensures
        final(ledger).wf(),
        deposit.amount <= crate::ledger::reserved_of(old(ledger)@, deposit.who) ==> r is Ok
            && final(ledger)@ == released(old(ledger)@, *deposit, slash),
        deposit.amount > crate::ledger::reserved_of(old(ledger)@, deposit.who) ==> r == Err::<
            (),
            Error,
        >(Error::LedgerFailure) && final(ledger)@ == old(ledger)@,
{
    if slash {
        ledger.slash(deposit.who, deposit.amount)
    } else {
        ledger.refund(deposit.who, deposit.amount)
    }
}

/// Lets both deposits of `record` leave the reserved balances of their
/// owners, each slashed or else refunded. Fails, and changes nothing, where
/// the ledger does not hold both.
pub fn settle(
    ledger: &mut Ledger,
    record: &Referendum,
    slash_submission: bool,
    slash_decision: bool,
) -> (r: Result<(), Error>)
    requires
        old(ledger).wf(),
    ensures
        final(ledger).wf(),
        can_settle(old(ledger)@, *record) ==> r is Ok && final(ledger)@ == settled(
            old(ledger)@,
            *record,
            slash_submission,
            slash_decision,
        ),
        !can_settle(old(ledger)@, *record) ==> r == Err::<(), Error>(Error::LedgerFailure)
            && final(ledger)@ == old(ledger)@,
{
    let submission = record.submission_deposit;
    let held = ledger.reserved_balance(submission.who);
    if submission.amount > held {
        return Err(Error::LedgerFailure);
    }
    match record.decision_deposit {
        Some(decision) => {
            if decision.amount > ledger.reserved_balance(decision.who) {
                return Err(Error::LedgerFailure);
            }
            if decision.who == submission.who && decision.amount > held - submission.amount {
                return Err(Error::LedgerFailure);
            }
            let first = release(ledger, &submission, slash_submission);
            let second = release(ledger, &decision, slash_decision);
            assert(first is Ok && second is Ok);
            Ok(())
        },
        None => release(ledger, &submission, slash_submission),
    }
}

impl Referenda {
    /// The state is one that the operations can reach.
    pub open spec fn wf(&self) -> bool {
        self.rules.well_formed(self.store@)
    }

    /// The engine and `ledger` are in the state of `outcome`, under the
    /// rules of `before`.
    pub open spec fn reached(&self, ledger: &Ledger, before: &Referenda, outcome: Outcome) -> bool {
        &&& self.rules == before.rules
        &&& self.store@ == outcome.records
        &&& ledger@ == outcome.accounts
    }

    /// An engine under `rules`, with no referendum yet.
    pub fn new(rules: Rules) -> (r: Referenda)
        requires
            rules.registry.wf(),
        ensures
            r.rules == rules,
            r.store@ == Seq::<Referendum>::empty(),
            r.wf(),
    {
        let r = Referenda { rules, store: ReferendumStore::new() };
        proof {
            assert forall|track: TrackId| #[trigger] deciding_count(r.store@, track) == 0 by {}
        }
        r
    }

    /// How many referenda wait for, or else occupy, a slot of `track`.
    fn count_on(&self, track: TrackId, deciding: bool) -> (r: usize)
        ensures
            r == count(self.store@, track, deciding),
    {
        let mut n: usize = 0;
        let mut i: usize = 0;
        while i < self.store.records.len()
            invariant
                i <= self.store@.len(),
                n <= i,
                n == count(self.store@.take(i as int), track, deciding),
            decreases self.store@.len() - i,
        {
            let record = &self.store.records[i];
            proof {
                let next = self.store@.take(i + 1);
                assert(next.drop_last() =~= self.store@.take(i as int));
                assert(next.last() == self.store@[i as int]);
            }
            let counts = if deciding {
                record.deciding().is_some()
            } else {
                record.queued()
            };
            if record.track == track && counts {
                n += 1;
            }
            i += 1;
        }
        proof {
            assert(self.store@.take(i as int) =~= self.store@);
        }
        n
    }

    /// How many referenda occupy a deciding slot of `track`.
    pub fn deciding_on(&self, track: TrackId) -> (r: usize)
        ensures
            r == deciding_count(self.store@, track),
    {
        self.count_on(track, true)
    }

    /// How many referenda wait for a deciding slot of `track`.
    pub fn queued_on(&self, track: TrackId) -> (r: usize)
        ensures
            r == queued_count(self.store@, track),
    {
        self.count_on(track, false)
    }

    /// The first in the queue of `track`: of the referenda that wait, the
    /// one with the earliest decision deposit, and of several placed at the
    /// same time the one submitted first.
    pub fn queue_head(&self, track: TrackId) -> (r: Option<ReferendumIndex>)
        requires
            self.store@.len() <= u32::MAX,
        ensures
            r == queue_head(self.store@, track),
            r matches Some(index) ==> is_queue_head(self.store@, track, index as int),
            r is None ==> forall|k: int|
                0 <= k < self.store@.len() ==> !(#[trigger] self.store@[k]).is_queued_on(track),
    {
        let mut best: Option<ReferendumIndex> = None;
        let mut i: usize = 0;
        while i < self.store.records.len()
            invariant
                i <= self.store@.len() <= u32::MAX,
                match best {
                    Some(b) => b < i && self.store@[b as int].is_queued_on(track) && forall|
                        k: int,
                    |
                        0 <= k < i && (#[trigger] self.store@[k]).is_queued_on(track)
                            ==> goes_before(self.store@, b as int, k),
                    None => forall|k: int|
                        0 <= k < i ==> !(#[trigger] self.store@[k]).is_queued_on(track),
                },
            decreases self.store@.len() - i,
        {
            let record = &self.store.records[i];
            if record.track == track && record.queued() {
                match best {
                    None => {
                        best = Some(i as u32);
                    },
                    Some(b) => {
                        let at_best = self.store.records[b as usize].decision_deposit.unwrap().placed_at;
                        let at_this = record.decision_deposit.unwrap().placed_at;
                        if at_this < at_best {
                            best = Some(i as u32);
                        }
                    },
                }
            }
            i += 1;
        }
        proof {
            lemma_queue_head(self.store@, track);
            if let Some(b) = best {
                assert(is_queue_head(self.store@, track, b as int));
            }
        }
        best
    }

    /// Whether the referendum `index` may take a deciding slot now. It may
    /// if it has one already. Otherwise it needs its decision deposit, a
    /// free slot on its track, and nobody ahead of it in the queue.
    pub fn check_admission(&self, index: ReferendumIndex) -> (r: Result<(), Error>)
        requires
            self.wf(),
        ensures
            !ongoing_at(self.store@, index) ==> r == Err::<(), Error>(Error::NotOngoing),
            ongoing_at(self.store@, index) ==> {
                let record = self.store@[index as int];
                if record.is_deciding() {
                    r is Ok
                } else if record.decision_deposit is None {
                    r == Err::<(), Error>(Error::DepositRequired)
                } else if self.rules.admissible(self.store@, index as int) {
                    r is Ok
                } else {
                    r == Err::<(), Error>(Error::QueueFull)
                }
            },
    {
        let record = match self.store.ensure_ongoing(index) {
            Ok(record) => *record,
            Err(e) => {
                return Err(e);
            },
        };
        if record.deciding().is_some() {
            return Ok(());
        }
        if record.decision_deposit.is_none() {
            return Err(Error::DepositRequired);
        }
        let info = self.rules.registry.info(record.track).unwrap();
        let busy = self.deciding_on(record.track);
        let head = self.queue_head(record.track);
        proof {
            lemma_queue_head(self.store@, record.track);
        }
        if busy < info.max_deciding as usize && head == Some(index) {
            Ok(())
        } else {
            Err(Error::QueueFull)
        }
    }

    /// Gives the waiting referendum `index` a deciding slot at `now`.
    fn give_slot(&mut self, index: ReferendumIndex, now: Moment)
        requires
            old(self).wf(),
            index < old(self).store@.len(),
            now < u64::MAX,
            old(self).store@[index as int].is_queued(),
            deciding_count(old(self).store@, old(self).store@[index as int].track) < old(
                self,
            ).rules.track_of(old(self).store@[index as int]).max_deciding,
        ensures
            final(self).rules == old(self).rules,
            final(self).store@ == slot_given(
                old(self).store@,
                old(self).rules.track_of(old(self).store@[index as int]),
                index as int,
                now,
            ),
            final(self).wf(),
    {
        let record = self.store.records[index as usize];
        let info = self.rules.registry.info(record.track).unwrap();
        let deciding = enter_slot(&info, &record.tally, now);
        proof {
            lemma_slot_given_keeps_well_formed(self.rules, self.store@, index as int, now);
        }
        self.store.records[index as usize] = Referendum {
            status: Status::Ongoing { deciding: Some(deciding) },
            alarm: Some(now + 1),
            ..record
        };
    }

    /// Closes the open referendum `index` with `status` at `now`: settles
    /// its deposits, cancels its wake-up, and hands the slot it may have
    /// held to the first in the queue. Fails, and changes nothing, where
    /// the ledger does not hold both deposits.
    fn close(
        &mut self,
        ledger: &mut Ledger,
        index: ReferendumIndex,
        status: Status,
        enact_at: Option<Moment>,
        slash_submission: bool,
        slash_decision: bool,
        now: Moment,
    ) -> (r: Result<(), Error>)
        requires
            old(self).wf(),
            old(ledger).wf(),
            ongoing_at(old(self).store@, index),
            now < u64::MAX,
            !(status is Ongoing),
            status is Approved <==> enact_at is Some,
        ensures
            final(self).wf(),
            final(ledger).wf(),
            final(self).reached(
                final(ledger),
                old(self),
                old(self).rules.close(
                    old(self).store@,
                    old(ledger)@,
                    index as int,
                    status,
                    enact_at,
                    slash_submission,
                    slash_decision,
                    now,
                ),
            ),
            r == match old(self).rules.close(
                old(self).store@,
                old(ledger)@,
                index as int,
                status,
                enact_at,
                slash_submission,
                slash_decision,
                now,
            ).error {
                Some(e) => Err::<(), Error>(e),
                None => Ok::<(), Error>(()),
            },
    {
        let record = self.store.records[index as usize];
        match settle(ledger, &record, slash_submission, slash_decision) {
            Err(e) => {
                return Err(e);
            },
            Ok(()) => {},
        }
        let gone = Referendum { status, alarm: None, enact_at, ..record };
        proof {
            lemma_update_keeps_well_formed(self.rules, self.store@, index as int, gone);
            lemma_closed_keeps_well_formed(
                self.rules,
                self.store@,
                index as int,
                status,
                enact_at,
                now,
            );
        }
        self.store.records[index as usize] = gone;
        if record.deciding().is_some() {
            match self.queue_head(record.track) {
                Some(next) => {
                    self.give_slot(next, now);
                },
                None => {},
            }
        }
        Ok(())
    }

    /// Submits a proposal: classifies `origin` into a track, holds the
    /// submission deposit of `who`, and files the referendum under the next
    /// index, to be looked at after `now`.
    ///
    /// Fails, and changes nothing, where the origin has no track
    /// (`Unclassifiable`), no later time exists (`SchedulerFailure`), or
    /// `who` cannot afford the deposit (`LedgerFailure`), in this order.
    pub fn submit(
        &mut self,
        ledger: &mut Ledger,
        who: AccountId,
        origin: &Origin,
        proposal_hash: ProposalHash,
        enactment: Enactment,
        now: Moment,
    ) -> (r: Result<ReferendumIndex, Error>)
        requires
            old(self).wf(),
            old(ledger).wf(),
            old(self).store@.len() < u32::MAX,
        ensures
            final(self).wf(),
            final(ledger).wf(),
            final(self).reached(
                final(ledger),
                old(self),
                old(self).rules.submit(
                    old(self).store@,
                    old(ledger)@,
                    who,
                    *origin,
                    proposal_hash,
                    enactment,
                    now,
                ),
            ),
            r == match old(self).rules.submit(
                old(self).store@,
                old(ledger)@,
                who,
                *origin,
                proposal_hash,
                enactment,
                now,
            ).error {
                Some(e) => Err::<ReferendumIndex, Error>(e),
                None => Ok::<ReferendumIndex, Error>(old(self).store@.len() as u32),
            },
    {
        proof {
            lemma_submit_keeps_well_formed(
                self.rules,
                self.store@,
                ledger@,
                who,
                *origin,
                proposal_hash,
                enactment,
                now,
            );
        }
        let track = match self.rules.registry.track_for(origin) {
            Ok(track) => track,
            Err(_) => {
                return Err(Error::Unclassifiable);
            },
        };
        if now == u64::MAX {
            return Err(Error::SchedulerFailure);
        }
        match ledger.reserve(who, self.rules.submission_deposit) {
            Err(e) => {
                return Err(e);
            },
            Ok(()) => {},
        }
        let record = Referendum {
            track,
            proposal_hash,
            enactment,
            submission_deposit: Deposit {
                who,
                amount: self.rules.submission_deposit,
                placed_at: now,
            },
            decision_deposit: None,
            tally: Tally { ayes: 0, nays: 0 },
            status: Status::Ongoing { deciding: None },
            alarm: Some(now + 1),
            enact_at: None,
        };
        Ok(self.store.insert(record))
    }

    /// Places the decision deposit of the referendum `index` for `who`, and
    /// gives the referendum a deciding slot if its track has a free one and
    /// nobody is ahead of it; it waits in the queue otherwise.
    ///
    /// Fails, and changes nothing, where the referendum is not open
    /// (`NotOngoing`), has its deposit already (`AlreadyDeposited`), no
    /// later time exists (`SchedulerFailure`), it would have to wait and
    /// the queue of its track is full (`QueueFull`), or `who` cannot afford
    /// the deposit (`LedgerFailure`), in this order.
    pub fn place_decision_deposit(
        &mut self,
        ledger: &mut Ledger,
        index: ReferendumIndex,
        who: AccountId,
        now: Moment,
    ) -> (r: Result<(), Error>)
        requires
            old(self).wf(),
            old(ledger).wf(),
        ensures
            final(self).wf(),
            final(ledger).wf(),
            final(self).reached(
                final(ledger),
                old(self),
                old(self).rules.place_decision_deposit(
                    old(self).store@,
                    old(ledger)@,
                    index,
                    who,
                    now,
                ),
            ),
            r == match old(self).rules.place_decision_deposit(
                old(self).store@,
                old(ledger)@,
                index,
                who,
                now,
            ).error {
                Some(e) => Err::<(), Error>(e),
                None => Ok::<(), Error>(()),
            },
    {
        proof {
            lemma_place_decision_deposit_keeps_well_formed(
                self.rules,
                self.store@,
                ledger@,
                index,
                who,
                now,
            );
        }
        let record = match self.store.ensure_ongoing(index) {
            Ok(record) => *record,
            Err(e) => {
                return Err(e);
            },
        };
        if record.decision_deposit.is_some() {
            return Err(Error::AlreadyDeposited);
        }
        if now == u64::MAX {
            return Err(Error::SchedulerFailure);
        }
        let info = self.rules.registry.info(record.track).unwrap();
        let placed = Referendum {
            decision_deposit: Some(Deposit { who, amount: info.decision_deposit, placed_at: now }),
            alarm: Some(now + 1),
            ..record
        };
        let head = self.queue_head(record.track);
        let first = match head {
            Some(head) => {
                let at = self.store.records[head as usize].decision_deposit.unwrap().placed_at;
                now < at || (now == at && index <= head)
            },
            None => true,
        };
        let admitted = first && self.deciding_on(record.track) < info.max_deciding as usize;
        proof {
            let before = self.store@;
            let after = before.update(index as int, placed);
            lemma_update_keeps_well_formed(self.rules, before, index as int, placed);
            assert forall|other: int|
                0 <= other < after.len() && (#[trigger] after[other]).is_queued_on(
                    record.track,
                ) && first implies goes_before(after, index as int, other) by {
                if other != index {
                    assert(before[other].is_queued_on(record.track));
                }
            }
            if let Some(h) = head {
                assert(after[h as int] == before[h as int]);
                assert(after[h as int].is_queued_on(record.track));
            }
            assert(first == is_queue_head(after, record.track, index as int));
        }
        if !admitted && self.queued_on(record.track) >= self.rules.max_queued as usize {
            return Err(Error::QueueFull);
        }
        match ledger.reserve(who, info.decision_deposit) {
            Err(e) => {
                return Err(e);
            },
            Ok(()) => {},
        }
        self.store.records[index as usize] = placed;
        if admitted {
            self.give_slot(index, now);
        }
        Ok(())
    }

    /// Cancels the referendum `index`: closes it as cancelled, refunds both
    /// deposits, cancels its wake-up and hands its slot, if it held one, to
    /// the first in the queue.
    ///
    /// Fails, and changes nothing, where the referendum is not open
    /// (`NotOngoing`), no later time exists (`SchedulerFailure`), or the
    /// ledger does not hold both deposits (`LedgerFailure`), in this order.
    pub fn cancel(&mut self, ledger: &mut Ledger, index: ReferendumIndex, now: Moment) -> (r:
        Result<(), Error>)
        requires
            old(self).wf(),
            old(ledger).wf(),
        ensures
            final(self).wf(),
            final(ledger).wf(),
            final(self).reached(
                final(ledger),
                old(self),
                old(self).rules.cancel(old(self).store@, old(ledger)@, index, now),
            ),
            r == match old(self).rules.cancel(old(self).store@, old(ledger)@, index, now).error {
                Some(e) => Err::<(), Error>(e),
                None => Ok::<(), Error>(()),
            },
    {
        if self.store.ensure_ongoing(index).is_err() {
            return Err(Error::NotOngoing);
        }
        if now == u64::MAX {
            return Err(Error::SchedulerFailure);
        }
        self.close(ledger, index, Status::Cancelled, None, false, false, now)
    }

    /// Kills the referendum `index`: closes it as killed, slashes both
    /// deposits, cancels its wake-up and hands its slot, if it held one, to
    /// the first in the queue.
    ///
    /// Fails, and changes nothing, where the referendum is not open
    /// (`NotOngoing`), no later time exists (`SchedulerFailure`), or the
    /// ledger does not hold both deposits (`LedgerFailure`), in this order.
    pub fn kill(&mut self, ledger: &mut Ledger, index: ReferendumIndex, now: Moment) -> (r: Result<
        (),
        Error,
    >)
        requires
            old(self).wf(),
            old(ledger).wf(),
        ensures
            final(self).wf(),
            final(ledger).wf(),
            final(self).reached(
                final(ledger),
                old(self),
                old(self).rules.kill(old(self).store@, old(ledger)@, index, now),
            ),
            r == match old(self).rules.kill(old(self).store@, old(ledger)@, index, now).error {
                Some(e) => Err::<(), Error>(e),
                None => Ok::<(), Error>(()),
            },
    {
        if self.store.ensure_ongoing(index).is_err() {
            return Err(Error::NotOngoing);
        }
        if now == u64::MAX {
            return Err(Error::SchedulerFailure);
        }
        self.close(ledger, index, Status::Killed, None, true, true, now)
    }

    /// Looks at the referendum `index` at `now`, as its wake-up asks.
    ///
    /// A waiting referendum takes a deciding slot if it may, and waits on
    /// otherwise. A deciding one is closed where the decision says so, with
    /// its deposits settled and its slot handed on, and goes on deciding
    /// where it does not. A referendum that stays open is looked at again
    /// at the next moment.
    ///
    /// Fails, and changes nothing, where the referendum is not open
    /// (`NotOngoing`), no later time exists or the time of enactment cannot
    /// be expressed (`SchedulerFailure`), or the ledger does not hold both
    /// deposits of a referendum that is to be closed (`LedgerFailure`).
    pub fn on_alarm(&mut self, ledger: &mut Ledger, index: ReferendumIndex, now: Moment) -> (r:
        Result<(), Error>)
        requires
            old(self).wf(),
            old(ledger).wf(),
        ensures
            final(self).wf(),
            final(ledger).wf(),
            final(self).reached(
                final(ledger),
                old(self),
                old(self).rules.on_alarm(old(self).store@, old(ledger)@, index, now),
            ),
            r == match old(self).rules.on_alarm(old(self).store@, old(ledger)@, index, now).error {
                Some(e) => Err::<(), Error>(e),
                None => Ok::<(), Error>(()),
            },
    {
        proof {
            lemma_look(self.rules, self.store@, ledger@, index, now);
        }
        let record = match self.store.ensure_ongoing(index) {
            Ok(record) => *record,
            Err(e) => {
                return Err(e);
            },
        };
        if now == u64::MAX {
            return Err(Error::SchedulerFailure);
        }
        let info = self.rules.registry.info(record.track).unwrap();
        match record.deciding() {
            Some(deciding) => {
                match decide(&info, &deciding, &record.tally, now) {
                    Verdict::Approve => {
                        match resolve_enactment(&record.enactment, now, info.min_enactment_period) {
                            Some(at) => self.close(
                                ledger,
                                index,
                                Status::Approved,
                                Some(at),
                                false,
                                false,
                                now,
                            ),
                            None => Err(Error::SchedulerFailure),
                        }
                    },
                    Verdict::Reject => {
                        let slash = info.policy.slash_on_rejection;
                        self.close(ledger, index, Status::Rejected, None, slash, false, now)
                    },
                    Verdict::TimeOut => {
                        let slash = info.policy.slash_on_rejection;
                        self.close(ledger, index, Status::TimedOut, None, slash, false, now)
                    },
                    Verdict::Confirm { since } => {
                        self.store.records[index as usize] = Referendum {
                            status: Status::Ongoing {
                                deciding: Some(
                                    Deciding { since: deciding.since, confirming: Some(since) },
                                ),
                            },
                            alarm: Some(now + 1),
                            ..record
                        };
                        Ok(())
                    },
                    Verdict::Deliberate => {
                        self.store.records[index as usize] = Referendum {
                            status: Status::Ongoing {
                                deciding: Some(Deciding { since: deciding.since, confirming: None }),
                            },
                            alarm: Some(now + 1),
                            ..record
                        };
                        Ok(())
                    },
                }
            },
            None => {
                if self.check_admission(index).is_ok() {
                    self.give_slot(index, now);
                } else {
                    self.store.records[index as usize] = Referendum {
                        alarm: Some(now + 1),
                        ..record
                    };
                }
                Ok(())
            },
        }
    }

    /// Replaces the tally of the open referendum `index` by `tally`. Fails,
    /// and changes nothing, where the referendum is not open.
    pub fn set_tally(&mut self, index: ReferendumIndex, tally: Tally) -> (r: Result<(), Error>)
        requires
            old(self).wf(),
        ensures
            final(self).wf(),
            final(self).rules == old(self).rules,
            ongoing_at(old(self).store@, index) ==> r is Ok && final(self).store@ == old(
                self,
            ).store@.update(index as int, Referendum { tally, ..old(self).store@[index as int] }),
            !ongoing_at(old(self).store@, index) ==> r == Err::<(), Error>(Error::NotOngoing)
                && final(self).store@ == old(self).store@,
    {
        let record = match self.store.ensure_ongoing(index) {
            Ok(record) => *record,
            Err(e) => {
                return Err(e);
            },
        };
        let voted = Referendum { tally, ..record };
        proof {
            lemma_update_keeps_well_formed(self.rules, self.store@, index as int, voted);
        }
        self.store.records[index as usize] = voted;
        Ok(())
    }

    /// The record of the referendum `index` if it is open; fails where
    /// there is no such referendum or it has been closed.
    pub fn ensure_ongoing(&self, index: ReferendumIndex) -> (r: Result<&Referendum, Error>)
        ensures
            ongoing_at(self.store@, index) ==> r == Ok::<&Referendum, Error>(
                &self.store@[index as int],
            ),
            !ongoing_at(self.store@, index) ==> r == Err::<&Referendum, Error>(Error::NotOngoing),
    {
        self.store.ensure_ongoing(index)
    }
}

} // verus!
