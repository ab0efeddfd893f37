//! What the engine promises of one operation, stated over the state machine
//! of the model and proved from it.

use crate::deciding::{confirming_since, enactment_time, is_passing, time_between};
use crate::invariants::lemma_look;
use crate::ledger::{accounts_wf, free_of, reserved_of, AccountId, Balance};
use crate::model::{can_settle, decision_held, deciding_count, settled, Rules};
use crate::store::{
    ongoing_at, Enactment, Moment, ProposalHash, Referendum, ReferendumIndex, Status,
};
use crate::tracks::{Origin, TrackId};
use vstd::prelude::*;

verus! {

/// The wake-ups that are pending for `record`.
pub open spec fn wake_ups(record: Referendum) -> Set<Moment> {
    Set::new(|at: Moment| record.alarm == Some(at))
}

/// What the submission deposit of `record` adds to what is held from `who`.
pub open spec fn submission_held(record: Referendum, who: AccountId) -> int {
    if record.submission_deposit.who == who {
        record.submission_deposit.amount as int
    } else {
        0
    }
}

/// A referendum never has more than one wake-up pending: an open one has
/// exactly one, and a closed one has none.
pub proof fn lemma_one_wake_up(rules: Rules, records: Seq<Referendum>, index: int)
    requires
        rules.well_formed(records),
        0 <= index < records.len(),
    ensures
        wake_ups(records[index]).finite(),
        wake_ups(records[index]).len() <= 1,
        wake_ups(records[index]).len() == 1 <==> records[index].is_ongoing(),
{
    let record = records[index];
    assert(record.wf());
    match record.alarm {
        Some(at) => {
            assert(wake_ups(record) =~= Set::<Moment>::empty().insert(at));
        },
        None => {
            assert(wake_ups(record) =~= Set::<Moment>::empty());
        },
    }
}

/// An accepted submission adds one referendum, open, with one wake-up at
/// the next moment, and leaves every earlier referendum as it was.
pub proof fn lemma_submission_adds_one_wake_up(
    rules: Rules,
    records: Seq<Referendum>,
    accounts: Map<AccountId, Balance>,
    who: AccountId,
    origin: Origin,
    proposal_hash: ProposalHash,
    enactment: Enactment,
    now: Moment,
)
    requires
        rules.submit(records, accounts, who, origin, proposal_hash, enactment, now).error is None,
    ensures
        ({
            let after = rules.submit(
                records,
                accounts,
                who,
                origin,
                proposal_hash,
                enactment,
                now,
            ).records;
            &&& after.len() == records.len() + 1
            &&& forall|i: int| 0 <= i < records.len() ==> after[i] == records[i]
            &&& after[records.len() as int].is_ongoing()
            &&& after[records.len() as int].alarm == Some((now + 1) as u64)
            &&& now < now + 1 <= u64::MAX
            &&& wake_ups(after[records.len() as int]) =~= set![(now + 1) as u64]
        }),
{
}

/// A look that is not refused leaves the referendum with the one wake-up
/// it needs: at the next moment if it stays open, whatever wake-up it had
/// before, and none if it is closed.
pub proof fn lemma_look_reschedules(
    rules: Rules,
    records: Seq<Referendum>,
    accounts: Map<AccountId, Balance>,
    index: ReferendumIndex,
    now: Moment,
)
    requires
        rules.well_formed(records),
        rules.on_alarm(records, accounts, index, now).error is None,
    ensures
        ({
            let after = rules.on_alarm(records, accounts, index, now).records[index as int];
            if after.is_ongoing() {
                after.alarm == Some((now + 1) as u64)
            } else {
                after.alarm is None
            }
        }),
{
    lemma_look(rules, records, accounts, index, now);
}

/// A track never has more referenda deciding than it has slots.
pub proof fn lemma_slots_respected(rules: Rules, records: Seq<Referendum>, track: TrackId)
    requires
        rules.well_formed(records),
        rules.registry.info_of(track) is Some,
    ensures
        deciding_count(records, track) <= rules.registry.info_of(track)->0.max_deciding,
{
}

/// A look approves a referendum only if it is deciding, approval and
/// turnout both meet their thresholds at that look, and it has passed
/// without a break for the whole confirmation period. The proposal is then
/// to be enacted at the time it asked for, but no earlier than the minimum
/// of its track after the look.
pub proof fn lemma_look_approves_only_confirmed(
    rules: Rules,
    records: Seq<Referendum>,
    accounts: Map<AccountId, Balance>,
    index: ReferendumIndex,
    now: Moment,
)
    requires
        rules.well_formed(records),
        ongoing_at(records, index),
        rules.on_alarm(records, accounts, index, now).error is None,
        rules.on_alarm(records, accounts, index, now).records[index as int].status is Approved,
    ensures
        records[index as int].status matches Status::Ongoing { deciding: Some(deciding) }
            && is_passing(
            rules.track_of(records[index as int]),
            records[index as int].tally,
            deciding.since,
            now,
        ) && time_between(confirming_since(deciding, now), now) >= rules.track_of(
            records[index as int],
        ).confirm_period,
        rules.on_alarm(records, accounts, index, now).records[index as int].enact_at matches Some(
            at,
        ) && at == enactment_time(
            records[index as int].enactment,
            now,
            rules.track_of(records[index as int]).min_enactment_period,
        ) && at >= now + rules.track_of(records[index as int]).min_enactment_period,
{
    lemma_look(rules, records, accounts, index, now);
}

/// A look at a deciding referendum before the end of its decision period,
/// at which a threshold is missed, leaves it deciding with no confirmation
/// under way: the look is never refused, and the referendum is not closed.
pub proof fn lemma_failing_look_keeps_deciding(
    rules: Rules,
    records: Seq<Referendum>,
    accounts: Map<AccountId, Balance>,
    index: ReferendumIndex,
    now: Moment,
)
    requires
        rules.well_formed(records),
        ongoing_at(records, index),
        now < u64::MAX,
        records[index as int].status matches Status::Ongoing { deciding: Some(deciding) }
            && !is_passing(
            rules.track_of(records[index as int]),
            records[index as int].tally,
            deciding.since,
            now,
        ) && time_between(deciding.since, now) < rules.track_of(
            records[index as int],
        ).decision_period,
    ensures
        rules.on_alarm(records, accounts, index, now).error is None,
        rules.on_alarm(records, accounts, index, now).accounts == accounts,
        rules.on_alarm(records, accounts, index, now).records[index as int].status
            matches Status::Ongoing { deciding: Some(after) } && after.confirming is None
            && after.since == records[index as int].status->deciding->0.since,
{
    lemma_look(rules, records, accounts, index, now);
}

/// A look at a deciding referendum whose decision period is over closes it
/// unless the look is refused: the referendum is then approved, rejected
/// or timed out, and never left deciding. One that misses a threshold at
/// that look is not approved.
pub proof fn lemma_overdue_look_closes(
    rules: Rules,
    records: Seq<Referendum>,
    accounts: Map<AccountId, Balance>,
    index: ReferendumIndex,
    now: Moment,
)
    requires
        rules.well_formed(records),
        ongoing_at(records, index),
        records[index as int].status matches Status::Ongoing { deciding: Some(deciding) }
            && time_between(deciding.since, now) >= rules.track_of(
            records[index as int],
        ).decision_period,
        rules.on_alarm(records, accounts, index, now).error is None,
    ensures
        ({
            let status = rules.on_alarm(records, accounts, index, now).records[index as int].status;
            status is Approved || status is Rejected || status is TimedOut
        }),
        rules.on_alarm(records, accounts, index, now).records[index as int].alarm is None,
        !is_passing(
            rules.track_of(records[index as int]),
            records[index as int].tally,
            records[index as int].status->deciding->0.since,
            now,
        ) ==> !(rules.on_alarm(records, accounts, index, now).records[index as int].status
            is Approved),
{
    lemma_look(rules, records, accounts, index, now);
}

/// What settling the deposits of a referendum does to the balances of any
/// account: both deposits leave its reserved balance, and those that are
/// refunded, not slashed, arrive in its free balance.
pub proof fn lemma_settled_balances(
    accounts: Map<AccountId, Balance>,
    record: Referendum,
    slash_submission: bool,
    slash_decision: bool,
    who: AccountId,
)
    requires
        accounts_wf(accounts),
        can_settle(accounts, record),
    ensures
        accounts_wf(settled(accounts, record, slash_submission, slash_decision)),
        reserved_of(settled(accounts, record, slash_submission, slash_decision), who)
            == reserved_of(accounts, who) - submission_held(record, who) - decision_held(
            record,
            who,
        ),
        free_of(settled(accounts, record, slash_submission, slash_decision), who) == free_of(
            accounts,
            who,
        ) + (if slash_submission {
            0
        } else {
            submission_held(record, who)
        }) + (if slash_decision {
            0
        } else {
            decision_held(record, who)
        }),
{
}

/// How the deposits of a referendum fare when it is closed. A cancelled
/// referendum has both refunded and a killed one has both slashed. One
/// that a look approves has both refunded; one that a look rejects or times
/// out has its decision deposit refunded, and its submission deposit
/// slashed or refunded as the policy says. A look that leaves the
/// referendum open leaves the balances alone.
pub proof fn lemma_deposits_follow_status(
    rules: Rules,
    records: Seq<Referendum>,
    accounts: Map<AccountId, Balance>,
    index: ReferendumIndex,
    now: Moment,
)
    requires
        rules.well_formed(records),
        ongoing_at(records, index),
    ensures
        rules.cancel(records, accounts, index, now).error is None ==> rules.cancel(
            records,
            accounts,
            index,
            now,
        ).accounts == settled(accounts, records[index as int], false, false),
        rules.kill(records, accounts, index, now).error is None ==> rules.kill(
            records,
            accounts,
            index,
            now,
        ).accounts == settled(accounts, records[index as int], true, true),
        rules.on_alarm(records, accounts, index, now).error is None ==> rules.on_alarm(
            records,
            accounts,
            index,
            now,
        ).accounts == match rules.on_alarm(records, accounts, index, now).records[index as int].status {
            Status::Approved => settled(accounts, records[index as int], false, false),
            Status::Rejected => settled(
                accounts,
                records[index as int],
                rules.track_of(records[index as int]).policy.slash_on_rejection,
                false,
            ),
            Status::TimedOut => settled(
                accounts,
                records[index as int],
                rules.track_of(records[index as int]).policy.slash_on_rejection,
                false,
            ),
            _ => accounts,
        },
{
    lemma_look(rules, records, accounts, index, now);
}

} // verus!
