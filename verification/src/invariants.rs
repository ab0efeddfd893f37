//! What every reachable state of the engine satisfies, and the proof that
//! each operation keeps it so.

use crate::ledger::{AccountId, Balance};
use crate::model::{
    closed, closed_as, count, deciding_count, deposit_placed, in_slot, is_queue_head, queue_head,
    slot_given, submitted, weight, Outcome, Rules,
};
use crate::store::{
    Deposit, Enactment, Moment, ProposalHash, Referendum, ReferendumIndex, Status,
};
use crate::tracks::{Origin, TrackId};
use vstd::prelude::*;

verus! {

/// Replacing one record changes a count by what the new record weighs more
/// than the old one.
pub proof fn lemma_count_update(
    records: Seq<Referendum>,
    i: int,
    record: Referendum,
    track: TrackId,
    deciding: bool,
)
    requires
        0 <= i < records.len(),
    ensures
        count(records.update(i, record), track, deciding) + weight(records[i], track, deciding)
            == count(records, track, deciding) + weight(record, track, deciding),
    decreases records.len(),
{
    let after = records.update(i, record);
    if i == records.len() - 1 {
        assert(after.drop_last() =~= records.drop_last());
    } else {
        assert(after.drop_last() =~= records.drop_last().update(i, record));
        lemma_count_update(records.drop_last(), i, record, track, deciding);
    }
}

/// Adding a record raises a count by what the record weighs.
pub proof fn lemma_count_push(
    records: Seq<Referendum>,
    record: Referendum,
    track: TrackId,
    deciding: bool,
)
    ensures
        count(records.push(record), track, deciding) == count(records, track, deciding) + weight(
            record,
            track,
            deciding,
        ),
{
    assert(records.push(record).drop_last() =~= records);
}

/// A queue has one head at most.
pub proof fn lemma_queue_head_unique(records: Seq<Referendum>, track: TrackId, a: int, b: int)
    requires
        is_queue_head(records, track, a),
        is_queue_head(records, track, b),
    ensures
        a == b,
{
}

/// The head of a queue is the referendum that the queue names as its head,
/// and a queue in which nobody waits names none.
pub proof fn lemma_queue_head(records: Seq<Referendum>, track: TrackId)
    requires
        records.len() <= u32::MAX,
    ensures
        forall|index: int| #[trigger]
            is_queue_head(records, track, index) ==> queue_head(records, track) == Some(
                index as u32,
            ),
        queue_head(records, track) matches Some(index) ==> is_queue_head(
            records,
            track,
            index as int,
        ),
        (forall|index: int|
            0 <= index < records.len() ==> !(#[trigger] records[index]).is_queued_on(track))
            ==> queue_head(records, track) is None,
{
    if exists|index: int| is_queue_head(records, track, index) {
        let head = choose|index: int| is_queue_head(records, track, index);
        assert forall|index: int| #[trigger]
            is_queue_head(records, track, index) implies queue_head(records, track) == Some(
            index as u32,
        ) by {
            lemma_queue_head_unique(records, track, head, index);
        }
    }
}

/// Replacing a record by a well-formed one of the same track keeps the
/// state well formed, provided that the new record takes a deciding slot
/// only where its track has a free one.
pub proof fn lemma_update_keeps_well_formed(
    rules: Rules,
    records: Seq<Referendum>,
    i: int,
    record: Referendum,
)
    requires
        rules.well_formed(records),
        0 <= i < records.len(),
        record.wf(),
        record.track == records[i].track,
        record.is_deciding() && !records[i].is_deciding() ==> deciding_count(
            records,
            record.track,
        ) < rules.track_of(record).max_deciding,
    ensures
        rules.well_formed(records.update(i, record)),
        forall|track: TrackId| #[trigger]
            deciding_count(records.update(i, record), track) + weight(records[i], track, true)
                == deciding_count(records, track) + weight(record, track, true),
{
    let after = records.update(i, record);
    assert forall|track: TrackId| #[trigger]
        deciding_count(after, track) + weight(records[i], track, true) == deciding_count(
            records,
            track,
        ) + weight(record, track, true) by {
        lemma_count_update(records, i, record, track, true);
    }
    assert forall|k: int| 0 <= k < after.len() implies (#[trigger] after[k]).wf()
        && rules.registry.info_of(after[k].track) is Some by {
        if k != i {
            assert(after[k] == records[k]);
        }
    }
    assert forall|track: TrackId| rules.registry.info_of(track) is Some implies #[trigger]
        deciding_count(after, track) <= rules.registry.info_of(track)->0.max_deciding by {
        assert(deciding_count(records, track) <= rules.registry.info_of(track)->0.max_deciding);
    }
}

/// Giving a slot to a waiting referendum keeps the state well formed where
/// its track has a free slot.
pub proof fn lemma_slot_given_keeps_well_formed(
    rules: Rules,
    records: Seq<Referendum>,
    index: int,
    now: Moment,
)
    requires
        rules.well_formed(records),
        0 <= index < records.len(),
        records[index].is_queued(),
        deciding_count(records, records[index].track) < rules.track_of(
            records[index],
        ).max_deciding,
    ensures
        rules.well_formed(slot_given(records, rules.track_of(records[index]), index, now)),
        slot_given(records, rules.track_of(records[index]), index, now).len() == records.len(),
{
    let info = rules.track_of(records[index]);
    let after = slot_given(records, info, index, now);
    lemma_update_keeps_well_formed(rules, records, index, after[index]);
}

/// What an operation on one referendum may do to another: nothing, or give
/// it the deciding slot it waited for.
pub open spec fn changed_by_another(
    rules: Rules,
    before: Referendum,
    after: Referendum,
    now: Moment,
) -> bool {
    after == before || (before.is_queued() && after == in_slot(
        before,
        rules.track_of(before),
        now,
    ))
}

/// Closing an open referendum keeps the state well formed: the slot it
/// leaves is the one its successor takes, and no other referendum changes.
pub proof fn lemma_closed_keeps_well_formed(
    rules: Rules,
    records: Seq<Referendum>,
    index: int,
    status: Status,
    enact_at: Option<Moment>,
    now: Moment,
)
    requires
        rules.well_formed(records),
        0 <= index < records.len(),
        records[index].is_ongoing(),
        !(status is Ongoing),
        status is Approved <==> enact_at is Some,
    ensures
        rules.well_formed(
            closed(records, rules.track_of(records[index]), index, status, enact_at, now),
        ),
        closed(records, rules.track_of(records[index]), index, status, enact_at, now).len()
            == records.len(),
        closed(records, rules.track_of(records[index]), index, status, enact_at, now)[index]
            == closed_as(records[index], status, enact_at),
        forall|other: int|
            0 <= other < records.len() && other != index ==> changed_by_another(
                rules,
                records[other],
                #[trigger] closed(
                    records,
                    rules.track_of(records[index]),
                    index,
                    status,
                    enact_at,
                    now,
                )[other],
                now,
            ),
{
    let record = records[index];
    let info = rules.track_of(record);
    let gone = closed_as(record, status, enact_at);
    let without = records.update(index, gone);
    lemma_update_keeps_well_formed(rules, records, index, gone);
    if record.is_deciding() {
        lemma_queue_head(without, record.track);
        match queue_head(without, record.track) {
            Some(next) => {
                assert(is_queue_head(without, record.track, next as int));
                assert(next as int != index);
                assert(deciding_count(without, record.track) + weight(record, record.track, true)
                    == deciding_count(records, record.track) + weight(gone, record.track, true));
                assert(rules.track_of(without[next as int]) == info);
                lemma_slot_given_keeps_well_formed(rules, without, next as int, now);
            },
            None => {},
        }
    }
}

/// Whatever operation is refused leaves the state as it was.
pub open spec fn unchanged_if_refused(
    records: Seq<Referendum>,
    accounts: Map<AccountId, Balance>,
    outcome: Outcome,
) -> bool {
    outcome.error is Some ==> outcome.records == records && outcome.accounts == accounts
}

/// A submission keeps the state well formed, and adds one record or, where
/// it is refused, none.
pub proof fn lemma_submit_keeps_well_formed(
    rules: Rules,
    records: Seq<Referendum>,
    accounts: Map<AccountId, Balance>,
    who: AccountId,
    origin: Origin,
    proposal_hash: ProposalHash,
    enactment: Enactment,
    now: Moment,
)
    requires
        rules.well_formed(records),
        records.len() < u32::MAX,
    ensures
        rules.well_formed(
            rules.submit(records, accounts, who, origin, proposal_hash, enactment, now).records,
        ),
        unchanged_if_refused(
            records,
            accounts,
            rules.submit(records, accounts, who, origin, proposal_hash, enactment, now),
        ),
{
    let outcome = rules.submit(records, accounts, who, origin, proposal_hash, enactment, now);
    if outcome.error is None {
        let track = rules.registry.class_of(origin)->0;
        let record = submitted(
            track,
            proposal_hash,
            enactment,
            who,
            rules.submission_deposit,
            now,
        );
        crate::tracks::lemma_class_has_track(rules.registry, origin);
        let after = records.push(record);
        assert forall|k: int| 0 <= k < after.len() implies (#[trigger] after[k]).wf()
            && rules.registry.info_of(after[k].track) is Some by {
            if k < records.len() {
                assert(after[k] == records[k]);
            }
        }
        assert forall|t: TrackId| rules.registry.info_of(t) is Some implies #[trigger]
            deciding_count(after, t) <= rules.registry.info_of(t)->0.max_deciding by {
            lemma_count_push(records, record, t, true);
            assert(deciding_count(records, t) <= rules.registry.info_of(t)->0.max_deciding);
        }
    }
}

/// Placing a decision deposit keeps the state well formed and the number
/// of records.
pub proof fn lemma_place_decision_deposit_keeps_well_formed(
    rules: Rules,
    records: Seq<Referendum>,
    accounts: Map<AccountId, Balance>,
    index: ReferendumIndex,
    who: AccountId,
    now: Moment,
)
    requires
        rules.well_formed(records),
    ensures
        rules.well_formed(
            rules.place_decision_deposit(records, accounts, index, who, now).records,
        ),
        rules.place_decision_deposit(records, accounts, index, who, now).records.len()
            == records.len(),
        unchanged_if_refused(
            records,
            accounts,
            rules.place_decision_deposit(records, accounts, index, who, now),
        ),
{
    let outcome = rules.place_decision_deposit(records, accounts, index, who, now);
    if outcome.error is None {
        let record = records[index as int];
        let deposit = Deposit {
            who,
            amount: rules.track_of(record).decision_deposit,
            placed_at: now,
        };
        let placed = deposit_placed(records, index as int, deposit, now);
        lemma_update_keeps_well_formed(rules, records, index as int, placed[index as int]);
        if rules.admissible(placed, index as int) {
            lemma_slot_given_keeps_well_formed(rules, placed, index as int, now);
        }
    }
}

/// Cancelling keeps the state well formed and the number of records, and
/// leaves the referendum closed without a wake-up.
pub proof fn lemma_cancel_keeps_well_formed(
    rules: Rules,
    records: Seq<Referendum>,
    accounts: Map<AccountId, Balance>,
    index: ReferendumIndex,
    now: Moment,
)
    requires
        rules.well_formed(records),
    ensures
        rules.well_formed(rules.cancel(records, accounts, index, now).records),
        rules.cancel(records, accounts, index, now).records.len() == records.len(),
        unchanged_if_refused(records, accounts, rules.cancel(records, accounts, index, now)),
        rules.cancel(records, accounts, index, now).error is None ==> rules.cancel(
            records,
            accounts,
            index,
            now,
        ).records[index as int] == closed_as(records[index as int], Status::Cancelled, None),
{
    if rules.cancel(records, accounts, index, now).error is None {
        lemma_closed_keeps_well_formed(rules, records, index as int, Status::Cancelled, None, now);
    }
}

/// Killing keeps the state well formed and the number of records, and
/// leaves the referendum closed without a wake-up.
pub proof fn lemma_kill_keeps_well_formed(
    rules: Rules,
    records: Seq<Referendum>,
    accounts: Map<AccountId, Balance>,
    index: ReferendumIndex,
    now: Moment,
)
    requires
        rules.well_formed(records),
    ensures
        rules.well_formed(rules.kill(records, accounts, index, now).records),
        rules.kill(records, accounts, index, now).records.len() == records.len(),
        unchanged_if_refused(records, accounts, rules.kill(records, accounts, index, now)),
        rules.kill(records, accounts, index, now).error is None ==> rules.kill(
            records,
            accounts,
            index,
            now,
        ).records[index as int] == closed_as(records[index as int], Status::Killed, None),
{
    if rules.kill(records, accounts, index, now).error is None {
        lemma_closed_keeps_well_formed(rules, records, index as int, Status::Killed, None, now);
    }
}

/// What one look does. It keeps the state well formed and the number of
/// records, and changes nothing where it is refused. Where it is not, it
/// leaves under the index what `look_leaves` says, settles the deposits as
/// `look_pays` says, and does to any other referendum no more than give it
/// the slot it waited for.
pub proof fn lemma_look(
    rules: Rules,
    records: Seq<Referendum>,
    accounts: Map<AccountId, Balance>,
    index: ReferendumIndex,
    now: Moment,
)
    requires
        rules.well_formed(records),
    ensures
        rules.well_formed(rules.on_alarm(records, accounts, index, now).records),
        rules.on_alarm(records, accounts, index, now).records.len() == records.len(),
        unchanged_if_refused(records, accounts, rules.on_alarm(records, accounts, index, now)),
        rules.on_alarm(records, accounts, index, now).error is None ==> {
            let outcome = rules.on_alarm(records, accounts, index, now);
            &&& index < records.len()
            &&& records[index as int].is_ongoing()
            &&& now < u64::MAX
            &&& outcome.records[index as int] == rules.look_leaves(records, index as int, now)
            &&& outcome.accounts == rules.look_pays(
                accounts,
                records[index as int],
                outcome.records[index as int],
            )
            &&& forall|other: int|
                0 <= other < records.len() && other != index ==> changed_by_another(
                    rules,
                    records[other],
                    #[trigger] outcome.records[other],
                    now,
                )
        },
{
    let outcome = rules.on_alarm(records, accounts, index, now);
    if outcome.error is None {
        let i = index as int;
        let record = records[i];
        let left = rules.look_leaves(records, i, now);
        if left.is_ongoing() {
            lemma_update_keeps_well_formed(rules, records, i, left);
            assert(outcome.records =~= records.update(i, left));
        } else {
            lemma_closed_keeps_well_formed(rules, records, i, left.status, left.enact_at, now);
        }
    }
}

} // verus!
