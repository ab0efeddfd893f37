//! A self-contained world to run the engine in: a clock, a ledger with six
//! funded accounts, and an engine over the bundled tracks.

use crate::engine::Referenda;
use crate::error::Error;
use crate::invariants::lemma_look;
use crate::ledger::{free_of, AccountId, Balance, Ledger};
use crate::model::Rules;
use crate::proposal::{blake2_256, set_balance_bytes, set_balance_proposal_hash};
use crate::store::{
    ongoing_at, Enactment, Moment, ProposalHash, Referendum, ReferendumIndex,
};
use crate::tally::Tally;
use crate::tracks::{Origin, TestTracksInfo};
use vstd::prelude::*;

verus! {

/// The deposit that a submitter places in the bundled configuration.
pub const SUBMISSION_DEPOSIT: u64 = 2;

/// The number of referenda that may wait for a slot of one track in the
/// bundled configuration.
pub const MAX_QUEUED: u32 = 2;

/// The accounts one to five, in order.
#[derive(Clone, Copy, Debug)]
pub struct OneToFive;

impl OneToFive {
    /// The members, in ascending order.
    pub fn sorted_members() -> (r: Vec<AccountId>)
        ensures
            r@ == seq![1u64, 2u64, 3u64, 4u64, 5u64],
    {
        let mut members: Vec<AccountId> = Vec::new();
        members.push(1);
        members.push(2);
        members.push(3);
        members.push(4);
        members.push(5);
        assert(members@ =~= seq![1u64, 2u64, 3u64, 4u64, 5u64]);
        members
    }

    /// Whether `who` is a member.
    pub fn contains(who: AccountId) -> (r: bool)
        ensures
            r == (1 <= who <= 5),
            r == seq![1u64, 2u64, 3u64, 4u64, 5u64].contains(who),
    {
        let members = Self::sorted_members();
        let mut i: usize = 0;
        while i < members.len()
            invariant
                members@ == seq![1u64, 2u64, 3u64, 4u64, 5u64],
                i <= members@.len(),
                forall|k: int| 0 <= k < i ==> members@[k] != who,
            decreases members@.len() - i,
        {
            if members[i] == who {
                assert(members@[i as int] == who);
                return true;
            }
            i += 1;
        }
        false
    }
}

/// The world: the time, the balances and the referenda.
#[derive(Clone, Debug)]
pub struct TestExt {
    /// The current time.
    pub block_number: Moment,
    /// The balances.
    pub ledger: Ledger,
    /// The engine.
    pub referenda: Referenda,
}

/// The balances that the world begins with: accounts one to six, with ten
/// times their number.
pub open spec fn genesis_accounts() -> Map<AccountId, Balance> {
    Map::<AccountId, Balance>::empty().insert(1, Balance { free: 10, reserved: 0 }).insert(
        2,
        Balance { free: 20, reserved: 0 },
    ).insert(3, Balance { free: 30, reserved: 0 }).insert(
        4,
        Balance { free: 40, reserved: 0 },
    ).insert(5, Balance { free: 50, reserved: 0 }).insert(6, Balance { free: 60, reserved: 0 })
}

/// Whether a wake-up of `record` is due at `now`.
pub open spec fn is_due(record: Referendum, now: Moment) -> bool {
    record.alarm matches Some(at) && at <= now
}

/// The state after the wake-ups that are due at `now` have been served for
/// the referenda from `from` up to `to`, in the order of their indices. A
/// look that is refused changes nothing, and is due again at the next
/// moment.
pub open spec fn fired(
    rules: Rules,
    records: Seq<Referendum>,
    accounts: Map<AccountId, Balance>,
    now: Moment,
    from: int,
    to: int,
) -> (Seq<Referendum>, Map<AccountId, Balance>)
    decreases to - from,
{
    if from >= to {
        (records, accounts)
    } else if 0 <= from < records.len() && from <= u32::MAX && is_due(records[from], now) {
        let outcome = rules.on_alarm(records, accounts, from as u32, now);
        fired(rules, outcome.records, outcome.accounts, now, from + 1, to)
    } else {
        fired(rules, records, accounts, now, from + 1, to)
    }
}

/// The state after the clock has gone from `block` to `target`, one moment
/// at a time, serving at each moment the wake-ups that are due.
pub open spec fn advanced(
    rules: Rules,
    records: Seq<Referendum>,
    accounts: Map<AccountId, Balance>,
    block: Moment,
    target: Moment,
) -> (Seq<Referendum>, Map<AccountId, Balance>)
    decreases target - block,
{
    if block >= target {
        (records, accounts)
    } else {
        let next = fired(rules, records, accounts, (block + 1) as u64, 0, records.len() as int);
        advanced(rules, next.0, next.1, (block + 1) as u64, target)
    }
}

impl TestExt {
    /// The ledger and the engine are each in a state they can reach.
    pub open spec fn wf(&self) -> bool {
        self.ledger.wf() && self.referenda.wf()
    }

    /// The world as it begins: block one, the six funded accounts, the
    /// bundled tracks, and no referendum.
    pub open spec fn is_fresh(&self) -> bool {
        &&& self.block_number == 1
        &&& self.ledger@ == genesis_accounts()
        &&& self.referenda.store@ == Seq::<Referendum>::empty()
        &&& self.referenda.rules.registry.tracks@ == TestTracksInfo::table()
        &&& self.referenda.rules.registry.classes@ == TestTracksInfo::classes()
        &&& self.referenda.rules.submission_deposit == SUBMISSION_DEPOSIT
        &&& self.referenda.rules.max_queued == MAX_QUEUED
        &&& self.wf()
    }
}

/// The world as it begins.
pub fn new_test_ext() -> (ext: TestExt)
    ensures
        ext.is_fresh(),
{
    let mut ledger = Ledger::new();
    let mut who: AccountId = 1;
    while who <= 6
        invariant
            1 <= who <= 7,
            ledger.wf(),
            forall|k: AccountId|
                ledger@.contains_key(k) <==> 1 <= k < who,
            forall|k: AccountId|
                1 <= k < who ==> #[trigger] ledger@[k] == (Balance {
                    free: (10 * k) as u64,
                    reserved: 0,
                }),
        decreases 7 - who,
    {
        let funded = ledger.endow(who, 10 * who);
        assert(funded is Ok);
        who += 1;
    }
    assert(ledger@ =~= genesis_accounts());
    let rules = Rules {
        registry: TestTracksInfo::registry(),
        submission_deposit: SUBMISSION_DEPOSIT,
        max_queued: MAX_QUEUED,
    };
    TestExt { block_number: 1, ledger, referenda: Referenda::new(rules) }
}

/// Runs `execute` twice, each time in a world of its own as it begins:
/// first with `false`, then with `true`. Returns what the two runs gave.
pub fn new_test_ext_execute_with_cond<R, F: Fn(TestExt, bool) -> R>(execute: F) -> (r: (R, R))
    requires
        forall|ext: TestExt, cond: bool| ext.is_fresh() ==> call_requires(execute, (ext, cond)),
    ensures
        exists|first: TestExt, second: TestExt|
            first.is_fresh() && second.is_fresh() && call_ensures(execute, (first, false), r.0)
                && call_ensures(execute, (second, true), r.1),
{
    let first = new_test_ext();
    let second = new_test_ext();
    let without = execute(first, false);
    let with = execute(second, true);
    (without, with)
}

/// Whether `after` and `r` are what the submission of the proposal `hash`
/// by `who` makes of `before`: at the time that `before` shows, with the
/// highest privilege, to be enacted `delay` after approval.
pub open spec fn proposed(
    before: TestExt,
    after: TestExt,
    who: AccountId,
    hash: ProposalHash,
    delay: Moment,
    r: Result<ReferendumIndex, Error>,
) -> bool {
    let outcome = before.referenda.rules.submit(
        before.referenda.store@,
        before.ledger@,
        who,
        Origin::Root,
        hash,
        Enactment::After(delay),
        before.block_number,
    );
    &&& after.referenda.reached(&after.ledger, &before.referenda, outcome)
    &&& r == match outcome.error {
        Some(e) => Err::<ReferendumIndex, Error>(e),
        None => Ok::<ReferendumIndex, Error>(before.referenda.store@.len() as u32),
    }
}

/// Whether `after` is what becomes of the world `before` when, with
/// the clock at nothing, account one submits the proposal `hash` to be
/// enacted one moment after approval, and the clock then moves on to two.
pub open spec fn begun(before: TestExt, after: TestExt, hash: ProposalHash) -> bool {
    let outcome = before.referenda.rules.submit(
        before.referenda.store@,
        before.ledger@,
        1,
        Origin::Root,
        hash,
        Enactment::After(1),
        0,
    );
    &&& outcome.error is None
    &&& (after.referenda.store@, after.ledger@) == advanced(
        before.referenda.rules,
        outcome.records,
        outcome.accounts,
        0,
        2,
    )
}

/// Submits, for `who` and at the current time, the proposal to set the
/// balance of the beneficiary to `value`, to be enacted with the highest
/// privilege `delay` after its approval.
pub fn propose_set_balance(ext: &mut TestExt, who: AccountId, value: u64, delay: Moment) -> (r:
    Result<ReferendumIndex, Error>)
    requires
        old(ext).wf(),
        old(ext).referenda.store@.len() < u32::MAX,
    ensures
        final(ext).wf(),
        final(ext).block_number == old(ext).block_number,
        exists|hash: ProposalHash|
            hash@ == blake2_256(set_balance_bytes(value)) && #[trigger] proposed(
                *old(ext),
                *final(ext),
                who,
                hash,
                delay,
                r,
            ),
{
    let hash = set_balance_proposal_hash(value);
    let now = ext.block_number;
    let r = ext.referenda.submit(
        &mut ext.ledger,
        who,
        &Origin::Root,
        hash,
        Enactment::After(delay),
        now,
    );
    assert(proposed(*old(ext), *ext, who, hash, delay, r));
    r
}

/// Moves the clock on by one moment and serves the wake-ups that are due
/// then, in the order of the referenda.
pub fn next_block(ext: &mut TestExt)
    requires
        old(ext).wf(),
        old(ext).block_number < u64::MAX,
    ensures
        final(ext).wf(),
        final(ext).block_number == old(ext).block_number + 1,
        final(ext).referenda.rules == old(ext).referenda.rules,
        (final(ext).referenda.store@, final(ext).ledger@) == fired(
            old(ext).referenda.rules,
            old(ext).referenda.store@,
            old(ext).ledger@,
            (old(ext).block_number + 1) as u64,
            0,
            old(ext).referenda.store@.len() as int,
        ),
{
    ext.block_number = ext.block_number + 1;
    let now = ext.block_number;
    let n = ext.referenda.store.len();
    let mut i: usize = 0;
    while i < n
        invariant
            ext.wf(),
            ext.block_number == now,
            ext.referenda.rules == old(ext).referenda.rules,
            ext.referenda.store@.len() == n,
            i <= n,
            fired(ext.referenda.rules, ext.referenda.store@, ext.ledger@, now, i as int, n as int)
                == fired(
                old(ext).referenda.rules,
                old(ext).referenda.store@,
                old(ext).ledger@,
                now,
                0,
                n as int,
            ),
        decreases n - i,
    {
        let due = match ext.referenda.store.records[i].alarm {
            Some(at) => at <= now,
            None => false,
        };
        if due {
            proof {
                lemma_look(
                    ext.referenda.rules,
                    ext.referenda.store@,
                    ext.ledger@,
                    i as u32,
                    now,
                );
            }
            let _ = ext.referenda.on_alarm(&mut ext.ledger, i as u32, now);
        }
        i += 1;
    }
}

/// Moves the clock on, moment by moment, until it shows `n`; does nothing
/// where it shows `n` or more already.
pub fn fast_forward_to(ext: &mut TestExt, n: Moment)
    requires
        old(ext).wf(),
    ensures
        final(ext).wf(),
        final(ext).block_number == if old(ext).block_number >= n {
            old(ext).block_number
        } else {
            n
        },
        final(ext).referenda.rules == old(ext).referenda.rules,
        (final(ext).referenda.store@, final(ext).ledger@) == advanced(
            old(ext).referenda.rules,
            old(ext).referenda.store@,
            old(ext).ledger@,
            old(ext).block_number,
            n,
        ),
{
    while ext.block_number < n
        invariant
            ext.wf(),
            ext.referenda.rules == old(ext).referenda.rules,
            old(ext).block_number <= ext.block_number,
            ext.block_number <= n || ext.block_number == old(ext).block_number,
            advanced(
                ext.referenda.rules,
                ext.referenda.store@,
                ext.ledger@,
                ext.block_number,
                n,
            ) == advanced(
                old(ext).referenda.rules,
                old(ext).referenda.store@,
                old(ext).ledger@,
                old(ext).block_number,
                n,
            ),
        decreases n - ext.block_number,
    {
        next_block(ext);
    }
}

/// Starts the clock at nothing, lets account one propose to set the
/// balance of the beneficiary to two, and moves the clock on to two.
/// Returns the index of the referendum that it filed: the next unused one.
///
/// Meant for a world in which the proposal is accepted: the store has room,
/// the highest privilege has a track, and account one can afford the
/// submission deposit.
pub fn begin_referendum(ext: &mut TestExt) -> (index: ReferendumIndex)
    requires
        old(ext).wf(),
        old(ext).referenda.store@.len() < u32::MAX,
        old(ext).referenda.rules.registry.class_of(Origin::Root) is Some,
        old(ext).referenda.rules.submission_deposit <= free_of(old(ext).ledger@, 1),
    ensures
        index == old(ext).referenda.store@.len(),
        final(ext).wf(),
        final(ext).block_number == 2,
        final(ext).referenda.rules == old(ext).referenda.rules,
        final(ext).referenda.store@.len() == old(ext).referenda.store@.len() + 1,
        exists|hash: ProposalHash|
            hash@ == blake2_256(set_balance_bytes(2)) && #[trigger] begun(
                *old(ext),
                *final(ext),
                hash,
            ),
{
    ext.block_number = 0;
    let ghost start = *ext;
    let submitted = propose_set_balance(ext, 1, 2, 1);
    let ghost hash = choose|hash: ProposalHash|
        hash@ == blake2_256(set_balance_bytes(2)) && #[trigger] proposed(
            start,
            *ext,
            1,
            hash,
            1,
            submitted,
        );
    proof {
        lemma_advanced_keeps_length(
            ext.referenda.rules,
            ext.referenda.store@,
            ext.ledger@,
            0,
            2,
        );
    }
    let index = submitted.unwrap();
    fast_forward_to(ext, 2);
    assert(begun(*old(ext), *ext, hash));
    index
}

/// The tally of the open referendum `index`.
pub fn tally(ext: &TestExt, index: ReferendumIndex) -> (r: Tally)
    requires
        ongoing_at(ext.referenda.store@, index),
    ensures
        r == ext.referenda.store@[index as int].tally,
{
    match ext.referenda.ensure_ongoing(index) {
        Ok(record) => record.tally,
        Err(_) => Tally { ayes: 0, nays: 0 },
    }
}

/// Serving wake-ups keeps the state well formed and the number of records.
pub proof fn lemma_fired_keeps_well_formed(
    rules: Rules,
    records: Seq<Referendum>,
    accounts: Map<AccountId, Balance>,
    now: Moment,
    from: int,
    to: int,
)
    requires
        rules.well_formed(records),
    ensures
        rules.well_formed(fired(rules, records, accounts, now, from, to).0),
        fired(rules, records, accounts, now, from, to).0.len() == records.len(),
    decreases to - from,
{
    if from >= to {
    } else if 0 <= from < records.len() && from <= u32::MAX && is_due(records[from], now) {
        let outcome = rules.on_alarm(records, accounts, from as u32, now);
        lemma_look(rules, records, accounts, from as u32, now);
        lemma_fired_keeps_well_formed(rules, outcome.records, outcome.accounts, now, from + 1, to);
    } else {
        lemma_fired_keeps_well_formed(rules, records, accounts, now, from + 1, to);
    }
}

/// Moving the clock on keeps the state well formed and the number of
/// records.
pub proof fn lemma_advanced_keeps_length(
    rules: Rules,
    records: Seq<Referendum>,
    accounts: Map<AccountId, Balance>,
    block: Moment,
    target: Moment,
)
    requires
        rules.well_formed(records),
    ensures
        rules.well_formed(advanced(rules, records, accounts, block, target).0),
        advanced(rules, records, accounts, block, target).0.len() == records.len(),
    decreases target - block,
{
    if block < target {
        let next = fired(rules, records, accounts, (block + 1) as u64, 0, records.len() as int);
        lemma_fired_keeps_well_formed(
            rules,
            records,
            accounts,
            (block + 1) as u64,
            0,
            records.len() as int,
        );
        lemma_advanced_keeps_length(rules, next.0, next.1, (block + 1) as u64, target);
    }
}

} // verus!
