//! What the engine promises of a whole block, in which every wake-up that
//! is due is served, and of a run of blocks.

use crate::deciding::{
    confirming_since, enactment_time, is_passing, time_between, verdict, Verdict,
};
use crate::invariants::{changed_by_another, lemma_look};
use crate::ledger::{AccountId, Balance};
use crate::model::{closed_as, deciding_count, deciding_on, in_slot, waiting_on, Rules};
use crate::runtime::{
    advanced, fired, is_due, lemma_advanced_keeps_length, lemma_fired_keeps_well_formed,
};
use crate::store::{Deciding, Moment, Referendum, Status};
use crate::tally::Tally;
use crate::tracks::TrackId;
use vstd::prelude::*;

verus! {

/// Whether `after` is what a block at `now` can make of the referendum
/// `before`, whose wake-up is served in that block if `due`.
///
/// A closed referendum stays as it is. A deciding one is left alone unless
/// its wake-up is served; it then goes on deciding as its verdict says, or
/// is closed as its verdict says, or stays as it is where the closing look
/// is refused. A waiting one may be given a slot; otherwise it is looked at
/// again at the next moment if its wake-up is served, and left alone if not.
/// One without decision deposit is never given a slot.
pub open spec fn served(
    rules: Rules,
    before: Referendum,
    after: Referendum,
    now: Moment,
    due: bool,
) -> bool {
    let info = rules.track_of(before);
    match before.status {
        Status::Ongoing { deciding: Some(deciding) } => if !due {
            after == before
        } else {
            match verdict(info, deciding, before.tally, now) {
                Verdict::Confirm { since } => after == deciding_on(
                    before,
                    Deciding { since: deciding.since, confirming: Some(since) },
                    now,
                ),
                Verdict::Deliberate => after == deciding_on(
                    before,
                    Deciding { since: deciding.since, confirming: None },
                    now,
                ),
                Verdict::Approve => after == before || (enactment_time(
                    before.enactment,
                    now,
                    info.min_enactment_period,
                ) <= u64::MAX && after == closed_as(
                    before,
                    Status::Approved,
                    Some(enactment_time(before.enactment, now, info.min_enactment_period) as u64),
                )),
                Verdict::Reject => after == before || after == closed_as(
                    before,
                    Status::Rejected,
                    None,
                ),
                Verdict::TimeOut => after == before || after == closed_as(
                    before,
                    Status::TimedOut,
                    None,
                ),
            }
        },
        Status::Ongoing { deciding: None } => if before.decision_deposit is Some && after
            == in_slot(before, info, now) {
            true
        } else if due {
            after == waiting_on(before, now)
        } else {
            after == before
        },
        _ => after == before,
    }
}

/// What the wake-ups served from `from` up to `to` make of the referendum
/// `index`: what `served` says, where its wake-up is served if it is due
/// and its index lies in that range.
pub proof fn lemma_served(
    rules: Rules,
    records: Seq<Referendum>,
    accounts: Map<AccountId, Balance>,
    now: Moment,
    from: int,
    to: int,
    index: int,
)
    requires
        rules.well_formed(records),
        now < u64::MAX,
        0 <= from,
        0 <= index < records.len(),
    ensures
        served(
            rules,
            records[index],
            fired(rules, records, accounts, now, from, to).0[index],
            now,
            from <= index < to && is_due(records[index], now),
        ),
    decreases to - from,
{
    if from >= to {
    } else if 0 <= from < records.len() && from <= u32::MAX && is_due(records[from], now) {
        let outcome = rules.on_alarm(records, accounts, from as u32, now);
        lemma_look(rules, records, accounts, from as u32, now);
        lemma_served(rules, outcome.records, outcome.accounts, now, from + 1, to, index);
        if outcome.error is None && index != from {
            assert(changed_by_another(
                rules,
                records[index],
                outcome.records[index],
                now,
            ));
        }
    } else {
        lemma_served(rules, records, accounts, now, from + 1, to, index);
    }
}

/// What a block at `now` makes of the referendum `index`: what `served`
/// says, where its wake-up is served if it is due.
pub proof fn lemma_block_serves(
    rules: Rules,
    records: Seq<Referendum>,
    accounts: Map<AccountId, Balance>,
    now: Moment,
    index: int,
)
    requires
        rules.well_formed(records),
        now < u64::MAX,
        0 <= index < records.len(),
    ensures
        served(
            rules,
            records[index],
            fired(rules, records, accounts, now, 0, records.len() as int).0[index],
            now,
            is_due(records[index], now),
        ),
{
    lemma_served(rules, records, accounts, now, 0, records.len() as int, index);
}

/// After a block every referendum has the one wake-up it needs and no
/// more: a closed one has none, and an open one has exactly one, which
/// lies after the block unless the referendum is as it was before. A
/// wake-up that was served has been replaced or cancelled, or stands as it
/// was because the look was refused.
pub proof fn lemma_block_keeps_one_wake_up(
    rules: Rules,
    records: Seq<Referendum>,
    accounts: Map<AccountId, Balance>,
    now: Moment,
    index: int,
)
    requires
        rules.well_formed(records),
        now < u64::MAX,
        0 <= index < records.len(),
    ensures
        ({
            let after = fired(rules, records, accounts, now, 0, records.len() as int).0[index];
            &&& after.is_ongoing() <==> after.alarm is Some
            &&& after.is_ongoing() ==> after.alarm == Some((now + 1) as u64) || after
                == records[index]
            &&& !records[index].is_ongoing() ==> after == records[index]
        }),
{
    lemma_block_serves(rules, records, accounts, now, index);
    lemma_fired_keeps_well_formed(rules, records, accounts, now, 0, records.len() as int);
    assert(records[index].wf());
}

/// After a block no track has more referenda deciding than it has slots,
/// whatever wake-ups were served and whatever the tallies.
pub proof fn lemma_block_respects_slots(
    rules: Rules,
    records: Seq<Referendum>,
    accounts: Map<AccountId, Balance>,
    now: Moment,
    track: TrackId,
)
    requires
        rules.well_formed(records),
        rules.registry.info_of(track) is Some,
    ensures
        deciding_count(fired(rules, records, accounts, now, 0, records.len() as int).0, track)
            <= rules.registry.info_of(track)->0.max_deciding,
{
    lemma_fired_keeps_well_formed(rules, records, accounts, now, 0, records.len() as int);
}

/// After a run of blocks no track has more referenda deciding than it has
/// slots.
pub proof fn lemma_run_respects_slots(
    rules: Rules,
    records: Seq<Referendum>,
    accounts: Map<AccountId, Balance>,
    block: Moment,
    target: Moment,
    track: TrackId,
)
    requires
        rules.well_formed(records),
        rules.registry.info_of(track) is Some,
    ensures
        deciding_count(advanced(rules, records, accounts, block, target).0, track)
            <= rules.registry.info_of(track)->0.max_deciding,
{
    lemma_advanced_keeps_length(rules, records, accounts, block, target);
}

/// A referendum that is open before a block and approved after it was
/// deciding with its wake-up due, met both thresholds at the time of the
/// block, and had then passed without a break for the whole confirmation
/// period. Its proposal is to be enacted at the time it asked for, but no
/// earlier than the minimum of its track after the block.
pub proof fn lemma_block_approves_only_confirmed(
    rules: Rules,
    records: Seq<Referendum>,
    accounts: Map<AccountId, Balance>,
    now: Moment,
    index: int,
)
    requires
        rules.well_formed(records),
        now < u64::MAX,
        0 <= index < records.len(),
        records[index].is_ongoing(),
        fired(rules, records, accounts, now, 0, records.len() as int).0[index].status is Approved,
    ensures
        is_due(records[index], now),
        records[index].status matches Status::Ongoing { deciding: Some(deciding) } && is_passing(
            rules.track_of(records[index]),
            records[index].tally,
            deciding.since,
            now,
        ) && time_between(confirming_since(deciding, now), now) >= rules.track_of(
            records[index],
        ).confirm_period,
        fired(rules, records, accounts, now, 0, records.len() as int).0[index] == closed_as(
            records[index],
            Status::Approved,
            Some(
                enactment_time(
                    records[index].enactment,
                    now,
                    rules.track_of(records[index]).min_enactment_period,
                ) as u64,
            ),
        ),
        enactment_time(
            records[index].enactment,
            now,
            rules.track_of(records[index]).min_enactment_period,
        ) >= now + rules.track_of(records[index]).min_enactment_period,
{
    lemma_block_serves(rules, records, accounts, now, index);
}

/// A block in which a deciding referendum is looked at before the end of
/// its decision period, and misses a threshold, leaves it deciding since
/// the same time with no confirmation under way: it is neither rejected
/// nor approved, and both its deposits stay with it.
pub proof fn lemma_block_failing_look_resets(
    rules: Rules,
    records: Seq<Referendum>,
    accounts: Map<AccountId, Balance>,
    now: Moment,
    index: int,
)
    requires
        rules.well_formed(records),
        now < u64::MAX,
        0 <= index < records.len(),
        is_due(records[index], now),
        records[index].status matches Status::Ongoing { deciding: Some(deciding) }
            && !is_passing(
            rules.track_of(records[index]),
            records[index].tally,
            deciding.since,
            now,
        ) && time_between(deciding.since, now) < rules.track_of(records[index]).decision_period,
    ensures
        fired(rules, records, accounts, now, 0, records.len() as int).0[index] == deciding_on(
            records[index],
            Deciding { since: records[index].status->deciding->0.since, confirming: None },
            now,
        ),
{
    lemma_block_serves(rules, records, accounts, now, index);
}

/// A block in which a deciding referendum with no confirmation under way
/// is looked at before the end of its decision period, and meets both
/// thresholds, starts its confirmation at the time of the block, whatever
/// confirmation it had earlier; unless the confirmation period is nothing,
/// it is not approved in that block.
pub proof fn lemma_block_passing_look_confirms(
    rules: Rules,
    records: Seq<Referendum>,
    accounts: Map<AccountId, Balance>,
    now: Moment,
    index: int,
)
    requires
        rules.well_formed(records),
        now < u64::MAX,
        0 <= index < records.len(),
        is_due(records[index], now),
        records[index].status matches Status::Ongoing { deciding: Some(deciding) }
            && deciding.confirming is None && is_passing(
            rules.track_of(records[index]),
            records[index].tally,
            deciding.since,
            now,
        ) && time_between(deciding.since, now) < rules.track_of(records[index]).decision_period,
        rules.track_of(records[index]).confirm_period > 0,
    ensures
        fired(rules, records, accounts, now, 0, records.len() as int).0[index] == deciding_on(
            records[index],
            Deciding { since: records[index].status->deciding->0.since, confirming: Some(now) },
            now,
        ),
{
    lemma_block_serves(rules, records, accounts, now, index);
}

/// A block in which a deciding referendum is looked at after the end of
/// its decision period closes it, as approved, rejected or timed out, or
/// leaves it exactly as it was, wake-up included, because the ledger
/// refused to settle its deposits. One that misses a threshold is not
/// approved.
pub proof fn lemma_block_overdue_look_closes(
    rules: Rules,
    records: Seq<Referendum>,
    accounts: Map<AccountId, Balance>,
    now: Moment,
    index: int,
)
    requires
        rules.well_formed(records),
        now < u64::MAX,
        0 <= index < records.len(),
        is_due(records[index], now),
        records[index].status matches Status::Ongoing { deciding: Some(deciding) }
            && time_between(deciding.since, now) >= rules.track_of(records[index]).decision_period,
    ensures
        ({
            let after = fired(rules, records, accounts, now, 0, records.len() as int).0[index];
            &&& after == records[index] || (after.alarm is None && (after.status is Approved
                || after.status is Rejected || after.status is TimedOut))
            &&& !is_passing(
                rules.track_of(records[index]),
                records[index].tally,
                records[index].status->deciding->0.since,
                now,
            ) ==> !(after.status is Approved)
        }),
{
    lemma_block_serves(rules, records, accounts, now, index);
}

/// A block leaves a closed referendum as it is, and gives no slot to a
/// referendum without decision deposit.
pub proof fn lemma_block_leaves_closed_alone(
    rules: Rules,
    records: Seq<Referendum>,
    accounts: Map<AccountId, Balance>,
    now: Moment,
    index: int,
)
    requires
        rules.well_formed(records),
        now < u64::MAX,
        0 <= index < records.len(),
    ensures
        !records[index].is_ongoing() ==> fired(
            rules,
            records,
            accounts,
            now,
            0,
            records.len() as int,
        ).0[index] == records[index],
        records[index].decision_deposit is None ==> !fired(
            rules,
            records,
            accounts,
            now,
            0,
            records.len() as int,
        ).0[index].is_deciding(),
{
    lemma_block_serves(rules, records, accounts, now, index);
    assert(records[index].wf());
}

/// A run of blocks leaves a closed referendum as it is.
pub proof fn lemma_run_leaves_closed_alone(
    rules: Rules,
    records: Seq<Referendum>,
    accounts: Map<AccountId, Balance>,
    block: Moment,
    target: Moment,
    index: int,
)
    requires
        rules.well_formed(records),
        target < u64::MAX,
        0 <= index < records.len(),
        !records[index].is_ongoing(),
    ensures
        advanced(rules, records, accounts, block, target).0[index] == records[index],
    decreases target - block,
{
    if block < target {
        let now = (block + 1) as u64;
        let next = fired(rules, records, accounts, now, 0, records.len() as int);
        lemma_block_serves(rules, records, accounts, now, index);
        lemma_fired_keeps_well_formed(rules, records, accounts, now, 0, records.len() as int);
        lemma_run_leaves_closed_alone(rules, next.0, next.1, now, target, index);
    }
}

/// Whether `after` is what a run of blocks up to `target` can make of a
/// referendum that was deciding since `since`, with `tally`: it is closed as
/// approved, rejected or timed out and has no wake-up, or it is deciding
/// since the same time with a wake-up no later than the moment after
/// `target`.
pub open spec fn closed_or_deciding(
    after: Referendum,
    track: TrackId,
    tally: Tally,
    since: Moment,
    target: Moment,
) -> bool {
    ||| after.alarm is None && (after.status is Approved || after.status is Rejected
        || after.status is TimedOut)
    ||| after.track == track && after.tally == tally && (after.status
        matches Status::Ongoing { deciding: Some(deciding) } && deciding.since == since)
        && (after.alarm matches Some(at) && at <= target + 1)
}

/// No referendum goes on deciding beyond its decision period. After a run
/// of blocks that reaches the end of the decision period of a deciding
/// referendum, the referendum is closed, as approved, rejected or timed
/// out; or its closing look is still outstanding, with a wake-up that is
/// due, because the ledger refused to settle its deposits. One that misses
/// a threshold at every block of the run is not approved.
pub proof fn lemma_run_closes_deciding(
    rules: Rules,
    records: Seq<Referendum>,
    accounts: Map<AccountId, Balance>,
    block: Moment,
    target: Moment,
    index: int,
)
    requires
        rules.well_formed(records),
        target < u64::MAX,
        0 <= index < records.len(),
        records[index].is_deciding(),
        records[index].alarm matches Some(at) && at <= block + 1,
    ensures
        ({
            let before = records[index];
            let since = before.status->deciding->0.since;
            let info = rules.track_of(before);
            let after = advanced(rules, records, accounts, block, target).0[index];
            &&& closed_or_deciding(
                after,
                before.track,
                before.tally,
                since,
                if block < target {
                    target
                } else {
                    block
                },
            )
            &&& block < target && time_between(since, target) >= info.decision_period
                && after.is_ongoing() ==> is_due(after, target)
            &&& (forall|t: Moment|
                block < t <= target ==> !#[trigger] is_passing(info, before.tally, since, t))
                ==> !(after.status is Approved)
        }),
    decreases target - block,
{
    if block < target {
        let before = records[index];
        let since = before.status->deciding->0.since;
        let info = rules.track_of(before);
        let now = (block + 1) as u64;
        let next = fired(rules, records, accounts, now, 0, records.len() as int);
        lemma_block_serves(rules, records, accounts, now, index);
        lemma_fired_keeps_well_formed(rules, records, accounts, now, 0, records.len() as int);
        assert(before.wf());
        let mid = next.0[index];
        if mid.is_ongoing() {
            assert(mid.is_deciding() && mid.status->deciding->0.since == since);
            assert(rules.track_of(mid) == info);
            lemma_run_closes_deciding(rules, next.0, next.1, now, target, index);
            if forall|t: Moment|
                block < t <= target ==> !#[trigger] is_passing(info, before.tally, since, t) {
                assert(!is_passing(info, before.tally, since, now));
                assert forall|t: Moment| now < t <= target implies !#[trigger] is_passing(
                    info,
                    mid.tally,
                    since,
                    t,
                ) by {}
            }
        } else {
            lemma_run_leaves_closed_alone(rules, next.0, next.1, now, target, index);
            if forall|t: Moment|
                block < t <= target ==> !#[trigger] is_passing(info, before.tally, since, t) {
                assert(!is_passing(info, before.tally, since, now));
            }
        }
    }
}

/// What a block pays out for the one referendum it closes. Where no other
/// referendum that was open before the block is closed in it, the balances
/// after the block are those before it with the deposits of the referendum
/// `index` settled as its new status says: both refunded where it is
/// approved, the decision deposit refunded and the submission deposit
/// slashed or refunded as the policy says where it is rejected or timed
/// out, and nothing changed where it is still open.
pub proof fn lemma_block_pays(
    rules: Rules,
    records: Seq<Referendum>,
    accounts: Map<AccountId, Balance>,
    now: Moment,
    index: int,
)
    requires
        rules.well_formed(records),
        now < u64::MAX,
        0 <= index < records.len(),
        forall|other: int|
            0 <= other < records.len() && other != index && records[other].is_ongoing()
                ==> (#[trigger] fired(
                rules,
                records,
                accounts,
                now,
                0,
                records.len() as int,
            ).0[other]).is_ongoing(),
    ensures
        fired(rules, records, accounts, now, 0, records.len() as int).1 == if records[index].is_ongoing() {
            rules.look_pays(
                accounts,
                records[index],
                fired(rules, records, accounts, now, 0, records.len() as int).0[index],
            )
        } else {
            accounts
        },
{
    lemma_paid(rules, records, accounts, now, 0, records.len() as int, index);
}

/// What the wake-ups served from `from` up to `to` pay out, where of the
/// referenda in that range none but `index` is closed.
pub proof fn lemma_paid(
    rules: Rules,
    records: Seq<Referendum>,
    accounts: Map<AccountId, Balance>,
    now: Moment,
    from: int,
    to: int,
    index: int,
)
    requires
        rules.well_formed(records),
        now < u64::MAX,
        0 <= from,
        0 <= index < records.len(),
        forall|other: int|
            from <= other < to && other < records.len() && other != index
                && records[other].is_ongoing() ==> (#[trigger] fired(
                rules,
                records,
                accounts,
                now,
                from,
                to,
            ).0[other]).is_ongoing(),
    ensures
        fired(rules, records, accounts, now, from, to).1 == if records[index].is_ongoing() {
            rules.look_pays(
                accounts,
                records[index],
                fired(rules, records, accounts, now, from, to).0[index],
            )
        } else {
            accounts
        },
    decreases to - from,
{
    lemma_served(rules, records, accounts, now, from, to, index);
    assert(records[index].wf());
    if from >= to {
    } else if 0 <= from < records.len() && from <= u32::MAX && is_due(records[from], now) {
        let outcome = rules.on_alarm(records, accounts, from as u32, now);
        let last = fired(rules, outcome.records, outcome.accounts, now, from + 1, to);
        lemma_look(rules, records, accounts, from as u32, now);
        assert(records[from].wf());
        assert forall|other: int|
            from + 1 <= other < to && other < outcome.records.len() && other != index
                && outcome.records[other].is_ongoing() implies (#[trigger] last.0[other]).is_ongoing() by {
            if outcome.error is None {
                assert(changed_by_another(
                    rules,
                    records[other],
                    outcome.records[other],
                    now,
                ));
            }
            assert(fired(rules, records, accounts, now, from, to).0[other] == last.0[other]);
        }
        lemma_paid(rules, outcome.records, outcome.accounts, now, from + 1, to, index);
        lemma_served(rules, outcome.records, outcome.accounts, now, from + 1, to, from);
        lemma_served(rules, outcome.records, outcome.accounts, now, from + 1, to, index);
        assert(outcome.records[index].wf());
        if outcome.error is None {
            if from != index {
                assert(changed_by_another(
                    rules,
                    records[index],
                    outcome.records[index],
                    now,
                ));
                assert(fired(rules, records, accounts, now, from, to).0[from] == last.0[from]);
                assert(outcome.records[from].is_ongoing());
            }
        }
    } else {
        assert forall|other: int|
            from + 1 <= other < to && other < records.len() && other != index
                && records[other].is_ongoing() implies (#[trigger] fired(
            rules,
            records,
            accounts,
            now,
            from + 1,
            to,
        ).0[other]).is_ongoing() by {
            assert(fired(rules, records, accounts, now, from, to).0[other] == fired(
                rules,
                records,
                accounts,
                now,
                from + 1,
                to,
            ).0[other]);
        }
        lemma_paid(rules, records, accounts, now, from + 1, to, index);
    }
}

} // verus!
