use referenda::error::Error;
use referenda::proposal::set_balance_proposal_hash;
use referenda::runtime::{
    begin_referendum, fast_forward_to, new_test_ext, new_test_ext_execute_with_cond, next_block,
    propose_set_balance, tally, OneToFive, MAX_QUEUED, SUBMISSION_DEPOSIT,
};
use referenda::store::{Deciding, Enactment, Status};
use referenda::tally::Tally;
use referenda::tracks::Origin;

#[test]
fn one_to_five_are_the_members() {
    assert_eq!(OneToFive::sorted_members(), vec![1, 2, 3, 4, 5]);
    assert!(!OneToFive::contains(0));
    for who in 1..=5u64 {
        assert!(OneToFive::contains(who));
    }
    assert!(!OneToFive::contains(6));
    assert!(!OneToFive::contains(u64::MAX));
}

#[test]
fn fresh_world_has_six_funded_accounts_and_no_referendum() {
    let ext = new_test_ext();
    assert_eq!(ext.block_number, 1);
    for who in 1..=6u64 {
        assert_eq!(ext.ledger.free_balance(who), 10 * who);
        assert_eq!(ext.ledger.reserved_balance(who), 0);
    }
    assert_eq!(ext.ledger.free_balance(7), 0);
    assert_eq!(ext.referenda.store.len(), 0);
    assert_eq!(ext.referenda.rules.submission_deposit, 2);
    assert_eq!(ext.referenda.rules.max_queued, 2);
    assert_eq!(SUBMISSION_DEPOSIT, 2);
    assert_eq!(MAX_QUEUED, 2);
    for (_, track) in ext.referenda.rules.registry.tracks() {
        assert!(!track.policy.slash_on_rejection);
        assert!(!track.policy.time_out_on_low_turnout);
    }
    assert_eq!(ext.referenda.rules.registry.tracks().len(), 2);
    assert!(ext.referenda.rules.registry.is_well_formed());
}

#[test]
fn closure_runs_once_without_and_once_with_the_condition() {
    let (without, with) = new_test_ext_execute_with_cond(|mut ext, cond| {
        let index = begin_referendum(&mut ext);
        if cond {
            next_block(&mut ext);
        }
        (cond, index, ext.block_number, ext.referenda.store.len())
    });
    assert_eq!(without, (false, 0, 2, 1));
    assert_eq!(with, (true, 0, 3, 1));
}

#[test]
fn proposing_files_a_referendum_on_the_root_track() {
    let mut ext = new_test_ext();
    assert_eq!(propose_set_balance(&mut ext, 1, 2, 1), Ok(0));
    assert_eq!(propose_set_balance(&mut ext, 2, 5, 3), Ok(1));
    let first = *ext.referenda.store.get(0).unwrap();
    assert_eq!(first.track, 0);
    assert_eq!(first.proposal_hash, set_balance_proposal_hash(2));
    assert_eq!(first.enactment, Enactment::After(1));
    assert_eq!(first.submission_deposit.who, 1);
    assert_eq!(first.submission_deposit.amount, 2);
    assert_eq!(first.submission_deposit.placed_at, 1);
    assert_eq!(first.decision_deposit, None);
    assert_eq!(first.tally, Tally { ayes: 0, nays: 0 });
    assert_eq!(first.status, Status::Ongoing { deciding: None });
    assert_eq!(first.alarm, Some(2));
    assert_eq!(first.enact_at, None);
    let second = *ext.referenda.store.get(1).unwrap();
    assert_eq!(second.proposal_hash, set_balance_proposal_hash(5));
    assert_eq!(second.enactment, Enactment::After(3));
    assert_eq!(ext.ledger.free_balance(1), 8);
    assert_eq!(ext.ledger.reserved_balance(1), 2);
    assert_eq!(ext.ledger.free_balance(2), 18);
    assert_eq!(propose_set_balance(&mut ext, 9, 2, 1), Err(Error::LedgerFailure));
    assert_eq!(ext.referenda.store.len(), 2);
    assert_eq!(ext.block_number, 1);
}

#[test]
fn clock_moves_one_block_at_a_time() {
    let mut ext = new_test_ext();
    next_block(&mut ext);
    assert_eq!(ext.block_number, 2);
    fast_forward_to(&mut ext, 10);
    assert_eq!(ext.block_number, 10);
    fast_forward_to(&mut ext, 5);
    assert_eq!(ext.block_number, 10);
    fast_forward_to(&mut ext, 10);
    assert_eq!(ext.block_number, 10);
}

#[test]
fn begin_referendum_submits_the_first_and_moves_to_block_two() {
    let mut ext = new_test_ext();
    assert_eq!(begin_referendum(&mut ext), 0);
    assert_eq!(ext.block_number, 2);
    assert_eq!(ext.referenda.store.len(), 1);
    let record = *ext.referenda.store.get(0).unwrap();
    assert_eq!(record.proposal_hash, set_balance_proposal_hash(2));
    assert_eq!(record.submission_deposit.placed_at, 0);
    assert_eq!(record.status, Status::Ongoing { deciding: None });
    assert_eq!(record.alarm, Some(3));
    assert_eq!(tally(&ext, 0), Tally { ayes: 0, nays: 0 });
    assert_eq!(ext.ledger.free_balance(1), 8);
    assert_eq!(ext.ledger.reserved_balance(1), 2);
}

#[test]
fn tally_reads_the_votes_of_an_open_referendum() {
    let mut ext = new_test_ext();
    let index = begin_referendum(&mut ext);
    ext.referenda.set_tally(index, Tally { ayes: 7, nays: 3 }).unwrap();
    assert_eq!(tally(&ext, index), Tally { ayes: 7, nays: 3 });
}

#[test]
fn referendum_on_the_root_track_is_approved_by_the_clock() {
    let mut ext = new_test_ext();
    let index = begin_referendum(&mut ext);
    ext.referenda.set_tally(index, Tally { ayes: 100, nays: 0 }).unwrap();
    let now = ext.block_number;
    assert_eq!(ext.referenda.place_decision_deposit(&mut ext.ledger, index, 2, now), Ok(()));
    assert_eq!(ext.ledger.free_balance(2), 10);
    assert_eq!(ext.ledger.reserved_balance(2), 10);
    fast_forward_to(&mut ext, 5);
    assert_eq!(
        ext.referenda.store.get(0).unwrap().status,
        Status::Ongoing { deciding: Some(Deciding { since: 2, confirming: Some(2) }) }
    );
    assert_eq!(ext.referenda.store.get(0).unwrap().alarm, Some(6));
    next_block(&mut ext);
    assert_eq!(ext.referenda.store.get(0).unwrap().status, Status::Approved);
    assert_eq!(ext.referenda.store.get(0).unwrap().enact_at, Some(10));
    assert_eq!(ext.referenda.store.get(0).unwrap().alarm, None);
    assert_eq!(ext.ledger.free_balance(1), 10);
    assert_eq!(ext.ledger.reserved_balance(1), 0);
    assert_eq!(ext.ledger.free_balance(2), 20);
    assert_eq!(ext.ledger.reserved_balance(2), 0);
    fast_forward_to(&mut ext, 20);
    assert_eq!(ext.referenda.store.get(0).unwrap().status, Status::Approved);
}

#[test]
fn referendum_without_votes_is_rejected_by_the_clock() {
    let mut ext = new_test_ext();
    let index = begin_referendum(&mut ext);
    let now = ext.block_number;
    ext.referenda.place_decision_deposit(&mut ext.ledger, index, 2, now).unwrap();
    fast_forward_to(&mut ext, 5);
    assert_eq!(
        ext.referenda.store.get(0).unwrap().status,
        Status::Ongoing { deciding: Some(Deciding { since: 2, confirming: None }) }
    );
    fast_forward_to(&mut ext, 6);
    assert_eq!(ext.referenda.store.get(0).unwrap().status, Status::Rejected);
    assert_eq!(ext.ledger.free_balance(1), 10);
    assert_eq!(ext.ledger.free_balance(2), 20);
}

#[test]
fn referendum_without_decision_deposit_stays_open() {
    let mut ext = new_test_ext();
    let index = begin_referendum(&mut ext);
    fast_forward_to(&mut ext, 50);
    let record = *ext.referenda.store.get(index).unwrap();
    assert_eq!(record.status, Status::Ongoing { deciding: None });
    assert_eq!(record.alarm, Some(51));
    assert_eq!(ext.referenda.deciding_on(0), 0);
    assert_eq!(ext.referenda.check_admission(index), Err(Error::DepositRequired));
}

#[test]
fn root_track_decides_one_referendum_at_a_time() {
    let mut ext = new_test_ext();
    for who in 1..=4u64 {
        assert_eq!(propose_set_balance(&mut ext, who, who, 0), Ok(who as u32 - 1));
    }
    assert_eq!(ext.referenda.place_decision_deposit(&mut ext.ledger, 0, 5, 1), Ok(()));
    assert_eq!(ext.referenda.place_decision_deposit(&mut ext.ledger, 1, 5, 1), Ok(()));
    assert_eq!(ext.referenda.place_decision_deposit(&mut ext.ledger, 2, 5, 1), Ok(()));
    assert_eq!(
        ext.referenda.place_decision_deposit(&mut ext.ledger, 3, 5, 1),
        Err(Error::QueueFull)
    );
    assert_eq!(ext.ledger.reserved_balance(5), 30);
    for block in 2..=12u64 {
        fast_forward_to(&mut ext, block);
        assert!(ext.referenda.deciding_on(0) <= 1);
    }
    assert_eq!(ext.referenda.store.get(0).unwrap().status, Status::Rejected);
    assert_eq!(ext.referenda.store.get(1).unwrap().status, Status::Rejected);
    assert_eq!(
        ext.referenda.store.get(2).unwrap().status,
        Status::Ongoing { deciding: Some(Deciding { since: 9, confirming: None }) }
    );
    assert_eq!(ext.referenda.store.get(3).unwrap().status, Status::Ongoing { deciding: None });
    assert_eq!(ext.ledger.reserved_balance(5), 10);
    assert_eq!(ext.ledger.free_balance(5), 40);
}

#[test]
fn unsigned_origin_goes_to_the_second_track() {
    let mut ext = new_test_ext();
    let hash = set_balance_proposal_hash(1);
    let now = ext.block_number;
    let index = ext
        .referenda
        .submit(&mut ext.ledger, 3, &Origin::Unsigned, hash, Enactment::At(4), now)
        .unwrap();
    assert_eq!(ext.referenda.store.get(index).unwrap().track, 1);
    ext.referenda.set_tally(index, Tally { ayes: 6, nays: 4 }).unwrap();
    ext.referenda.place_decision_deposit(&mut ext.ledger, index, 3, now).unwrap();
    assert_eq!(ext.ledger.reserved_balance(3), 3);
    assert_eq!(
        ext.referenda.store.get(index).unwrap().status,
        Status::Ongoing { deciding: Some(Deciding { since: 1, confirming: Some(1) }) }
    );
    fast_forward_to(&mut ext, 3);
    assert_eq!(ext.referenda.store.get(index).unwrap().status, Status::Approved);
    assert_eq!(ext.referenda.store.get(index).unwrap().enact_at, Some(5));
    assert_eq!(ext.ledger.free_balance(3), 30);
}

#[test]
fn a_wake_up_is_served_only_when_it_is_due() {
    let mut ext = new_test_ext();
    let index = begin_referendum(&mut ext);
    let at = ext.referenda.store.get(index).unwrap().alarm;
    assert_eq!(at, Some(3));
    ext.referenda.store.get_mut(index).unwrap().alarm = Some(7);
    fast_forward_to(&mut ext, 6);
    assert_eq!(ext.referenda.store.get(index).unwrap().alarm, Some(7));
    next_block(&mut ext);
    assert_eq!(ext.referenda.store.get(index).unwrap().alarm, Some(8));
}

#[test]
fn every_open_referendum_has_one_wake_up_and_every_closed_one_none() {
    let mut ext = new_test_ext();
    for who in 1..=3u64 {
        propose_set_balance(&mut ext, who, who, 0).unwrap();
    }
    ext.referenda.set_tally(0, Tally { ayes: 100, nays: 0 }).unwrap();
    ext.referenda.place_decision_deposit(&mut ext.ledger, 0, 4, 1).unwrap();
    ext.referenda.place_decision_deposit(&mut ext.ledger, 1, 5, 1).unwrap();
    for block in 2..=15u64 {
        fast_forward_to(&mut ext, block);
        if block == 3 {
            let now = ext.block_number;
            ext.referenda.kill(&mut ext.ledger, 2, now).unwrap();
        }
        for index in 0..3u32 {
            let record = *ext.referenda.store.get(index).unwrap();
            if record.ongoing() {
                assert_eq!(record.alarm, Some(block + 1));
            } else {
                assert_eq!(record.alarm, None);
            }
        }
        assert!(ext.referenda.deciding_on(0) <= 1);
    }
    assert_eq!(ext.referenda.store.get(0).unwrap().status, Status::Approved);
    assert_eq!(ext.referenda.store.get(1).unwrap().status, Status::Rejected);
    assert_eq!(ext.referenda.store.get(2).unwrap().status, Status::Killed);
    assert_eq!(ext.ledger.free_balance(3), 28);
    assert_eq!(ext.ledger.reserved_balance(3), 0);
}

#[test]
fn begin_referendum_in_a_world_with_referenda_returns_the_next_index() {
    let mut ext = new_test_ext();
    assert_eq!(propose_set_balance(&mut ext, 2, 9, 0), Ok(0));
    assert_eq!(propose_set_balance(&mut ext, 3, 9, 0), Ok(1));
    let first = *ext.referenda.store.get(0).unwrap();
    assert_eq!(begin_referendum(&mut ext), 2);
    assert_eq!(ext.block_number, 2);
    assert_eq!(ext.referenda.store.len(), 3);
    assert_eq!(ext.referenda.store.get(0).unwrap().proposal_hash, first.proposal_hash);
    assert_eq!(ext.referenda.store.get(0).unwrap().submission_deposit, first.submission_deposit);
    let record = *ext.referenda.store.get(2).unwrap();
    assert_eq!(record.proposal_hash, set_balance_proposal_hash(2));
    assert_eq!(record.submission_deposit.who, 1);
    assert_eq!(record.submission_deposit.placed_at, 0);
    assert_eq!(begin_referendum(&mut ext), 3);
    assert_eq!(ext.referenda.store.len(), 4);
}

#[test]
fn a_block_changes_a_deciding_referendum_only_through_its_own_look() {
    let mut ext = new_test_ext();
    for who in 1..=2u64 {
        propose_set_balance(&mut ext, who, who, 0).unwrap();
    }
    ext.referenda.place_decision_deposit(&mut ext.ledger, 0, 4, 1).unwrap();
    ext.referenda.place_decision_deposit(&mut ext.ledger, 1, 5, 1).unwrap();
    ext.referenda.store.get_mut(0).unwrap().alarm = Some(4);
    let before = *ext.referenda.store.get(0).unwrap();
    fast_forward_to(&mut ext, 3);
    let after = *ext.referenda.store.get(0).unwrap();
    assert_eq!(after.status, before.status);
    assert_eq!(after.alarm, Some(4));
    assert_eq!(ext.referenda.store.get(1).unwrap().alarm, Some(4));
    assert_eq!(ext.referenda.store.get(1).unwrap().status, Status::Ongoing { deciding: None });
    next_block(&mut ext);
    assert_eq!(
        ext.referenda.store.get(0).unwrap().status,
        Status::Ongoing { deciding: Some(Deciding { since: 1, confirming: None }) }
    );
    assert_eq!(ext.referenda.store.get(0).unwrap().alarm, Some(5));
}

#[test]
fn a_passing_look_after_a_dip_starts_the_confirmation_anew() {
    let mut ext = new_test_ext();
    let index = begin_referendum(&mut ext);
    ext.referenda.set_tally(index, Tally { ayes: 100, nays: 0 }).unwrap();
    ext.referenda.place_decision_deposit(&mut ext.ledger, index, 2, 2).unwrap();
    ext.referenda.set_tally(index, Tally { ayes: 0, nays: 100 }).unwrap();
    next_block(&mut ext);
    assert_eq!(
        ext.referenda.store.get(index).unwrap().status,
        Status::Ongoing { deciding: Some(Deciding { since: 2, confirming: None }) }
    );
    assert_eq!(ext.ledger.reserved_balance(1), 2);
    assert_eq!(ext.ledger.reserved_balance(2), 10);
    ext.referenda.set_tally(index, Tally { ayes: 100, nays: 0 }).unwrap();
    next_block(&mut ext);
    assert_eq!(
        ext.referenda.store.get(index).unwrap().status,
        Status::Ongoing { deciding: Some(Deciding { since: 2, confirming: Some(4) }) }
    );
    fast_forward_to(&mut ext, 6);
    assert_eq!(ext.referenda.store.get(index).unwrap().status, Status::Rejected);
}

#[test]
fn a_closing_look_that_the_ledger_refuses_stays_due() {
    let mut ext = new_test_ext();
    let index = begin_referendum(&mut ext);
    ext.referenda.place_decision_deposit(&mut ext.ledger, index, 2, 2).unwrap();
    ext.ledger.slash(2, 10).unwrap();
    fast_forward_to(&mut ext, 5);
    assert_eq!(ext.referenda.store.get(index).unwrap().alarm, Some(6));
    fast_forward_to(&mut ext, 9);
    let record = *ext.referenda.store.get(index).unwrap();
    assert_eq!(
        record.status,
        Status::Ongoing { deciding: Some(Deciding { since: 2, confirming: None }) }
    );
    assert_eq!(record.alarm, Some(6));
    assert_eq!(ext.ledger.reserved_balance(1), 2);
    ext.ledger.endow(2, 10).unwrap();
    ext.ledger.reserve(2, 10).unwrap();
    next_block(&mut ext);
    let record = *ext.referenda.store.get(index).unwrap();
    assert_eq!(record.status, Status::Rejected);
    assert_eq!(record.alarm, None);
    assert_eq!(ext.ledger.free_balance(1), 10);
    assert_eq!(ext.ledger.free_balance(2), 20);
}

#[test]
fn a_block_that_closes_one_referendum_settles_its_deposits_only() {
    let mut ext = new_test_ext();
    for who in 1..=3u64 {
        propose_set_balance(&mut ext, who, who, 0).unwrap();
    }
    ext.referenda.place_decision_deposit(&mut ext.ledger, 0, 4, 1).unwrap();
    ext.referenda.place_decision_deposit(&mut ext.ledger, 1, 5, 1).unwrap();
    fast_forward_to(&mut ext, 4);
    let held: Vec<u64> = (1..=6u64).map(|who| ext.ledger.reserved_balance(who)).collect();
    assert_eq!(held, vec![2, 2, 2, 10, 10, 0]);
    next_block(&mut ext);
    assert_eq!(ext.referenda.store.get(0).unwrap().status, Status::Rejected);
    let held: Vec<u64> = (1..=6u64).map(|who| ext.ledger.reserved_balance(who)).collect();
    assert_eq!(held, vec![0, 2, 2, 0, 10, 0]);
    let free: Vec<u64> = (1..=6u64).map(|who| ext.ledger.free_balance(who)).collect();
    assert_eq!(free, vec![10, 18, 28, 40, 40, 60]);
}
