use referenda::curve::Curve;
use referenda::deciding::Policy;
use referenda::engine::Referenda;
use referenda::error::Error;
use referenda::fraction::Fraction;
use referenda::ledger::Ledger;
use referenda::model::Rules;
use referenda::store::{Deciding, Enactment, Status};
use referenda::tally::Tally;
use referenda::tracks::{Origin, TrackInfo, TrackRegistry};

fn half_way_curve() -> Curve {
    Curve::LinearDecreasing { begin: Fraction::from_percent(100), delta: Fraction::from_percent(50) }
}

fn track(max_deciding: u32, policy: Policy) -> TrackInfo {
    TrackInfo {
        name: "plain",
        max_deciding,
        decision_deposit: 10,
        prepare_period: 0,
        decision_period: 4,
        confirm_period: 2,
        min_enactment_period: 3,
        min_approval: half_way_curve(),
        min_turnout: half_way_curve(),
        policy,
    }
}

fn engine(max_deciding: u32, max_queued: u32, policy: Policy) -> (Referenda, Ledger) {
    let registry = TrackRegistry {
        tracks: vec![(7u8, track(max_deciding, policy))],
        classes: vec![(Origin::Root, 7u8)],
    };
    let rules = Rules { registry, submission_deposit: 2, max_queued };
    let mut ledger = Ledger::new();
    for who in 1..=5u64 {
        assert_eq!(ledger.endow(who, 100), Ok(()));
    }
    (Referenda::new(rules), ledger)
}

fn lenient() -> Policy {
    Policy { slash_on_rejection: false, time_out_on_low_turnout: false }
}

fn status_of(engine: &Referenda, index: u32) -> Status {
    engine.store.get(index).unwrap().status
}

#[test]
fn passing_from_the_start_is_approved_after_the_confirm_period() {
    let (mut engine, mut ledger) = engine(1, 2, lenient());
    let index = engine.submit(&mut ledger, 1, &Origin::Root, [9u8; 32], Enactment::After(1), 10).unwrap();
    assert_eq!(index, 0);
    assert_eq!(engine.set_tally(0, Tally { ayes: 100, nays: 0 }), Ok(()));
    assert_eq!(engine.place_decision_deposit(&mut ledger, 0, 2, 10), Ok(()));
    assert_eq!(
        status_of(&engine, 0),
        Status::Ongoing { deciding: Some(Deciding { since: 10, confirming: Some(10) }) }
    );
    assert_eq!(engine.on_alarm(&mut ledger, 0, 11), Ok(()));
    assert_eq!(
        status_of(&engine, 0),
        Status::Ongoing { deciding: Some(Deciding { since: 10, confirming: Some(10) }) }
    );
    assert_eq!(engine.store.get(0).unwrap().alarm, Some(12));
    assert_eq!(engine.on_alarm(&mut ledger, 0, 12), Ok(()));
    assert_eq!(status_of(&engine, 0), Status::Approved);
    assert_eq!(engine.store.get(0).unwrap().alarm, None);
    assert_eq!(engine.store.get(0).unwrap().enact_at, Some(15));
    assert_eq!(ledger.free_balance(1), 100);
    assert_eq!(ledger.reserved_balance(1), 0);
    assert_eq!(ledger.free_balance(2), 100);
    assert_eq!(ledger.reserved_balance(2), 0);
}

#[test]
fn no_support_is_rejected_when_the_decision_period_ends() {
    let (mut engine, mut ledger) = engine(1, 2, lenient());
    engine.submit(&mut ledger, 1, &Origin::Root, [0u8; 32], Enactment::At(100), 0).unwrap();
    assert_eq!(engine.place_decision_deposit(&mut ledger, 0, 2, 0), Ok(()));
    for now in 1..4u64 {
        assert_eq!(engine.on_alarm(&mut ledger, 0, now), Ok(()));
        assert_eq!(
            status_of(&engine, 0),
            Status::Ongoing { deciding: Some(Deciding { since: 0, confirming: None }) }
        );
        assert_eq!(engine.store.get(0).unwrap().alarm, Some(now + 1));
    }
    assert_eq!(engine.on_alarm(&mut ledger, 0, 4), Ok(()));
    assert_eq!(status_of(&engine, 0), Status::Rejected);
    assert_eq!(engine.store.get(0).unwrap().alarm, None);
    assert_eq!(engine.store.get(0).unwrap().enact_at, None);
    assert_eq!(ledger.free_balance(1), 100);
    assert_eq!(ledger.free_balance(2), 100);
    assert_eq!(engine.on_alarm(&mut ledger, 0, 5), Err(Error::NotOngoing));
}

#[test]
fn second_referendum_waits_until_the_first_is_closed() {
    let (mut engine, mut ledger) = engine(1, 2, lenient());
    engine.submit(&mut ledger, 1, &Origin::Root, [1u8; 32], Enactment::After(0), 0).unwrap();
    engine.submit(&mut ledger, 2, &Origin::Root, [2u8; 32], Enactment::After(0), 0).unwrap();
    assert_eq!(engine.place_decision_deposit(&mut ledger, 0, 1, 1), Ok(()));
    assert_eq!(engine.place_decision_deposit(&mut ledger, 1, 2, 1), Ok(()));
    assert_eq!(engine.deciding_on(7), 1);
    assert_eq!(engine.queued_on(7), 1);
    assert_eq!(engine.queue_head(7), Some(1));
    assert_eq!(status_of(&engine, 1), Status::Ongoing { deciding: None });
    assert_eq!(engine.check_admission(1), Err(Error::QueueFull));
    for now in 2..5u64 {
        assert_eq!(engine.on_alarm(&mut ledger, 0, now), Ok(()));
        assert_eq!(engine.on_alarm(&mut ledger, 1, now), Ok(()));
        assert_eq!(status_of(&engine, 1), Status::Ongoing { deciding: None });
        assert_eq!(engine.deciding_on(7), 1);
    }
    assert_eq!(engine.on_alarm(&mut ledger, 0, 5), Ok(()));
    assert_eq!(status_of(&engine, 0), Status::Rejected);
    assert_eq!(
        status_of(&engine, 1),
        Status::Ongoing { deciding: Some(Deciding { since: 5, confirming: None }) }
    );
    assert_eq!(engine.store.get(1).unwrap().alarm, Some(6));
    assert_eq!(engine.deciding_on(7), 1);
    assert_eq!(engine.queued_on(7), 0);
    assert_eq!(engine.queue_head(7), None);
}

#[test]
fn origin_without_a_track_is_refused_and_leaves_no_record() {
    let (mut engine, mut ledger) = engine(1, 2, lenient());
    let r = engine.submit(&mut ledger, 1, &Origin::Signed(1), [0u8; 32], Enactment::After(1), 0);
    assert_eq!(r, Err(Error::Unclassifiable));
    assert_eq!(engine.store.len(), 0);
    assert_eq!(ledger.free_balance(1), 100);
    assert_eq!(ledger.reserved_balance(1), 0);
    let r = engine.submit(&mut ledger, 1, &Origin::Unsigned, [0u8; 32], Enactment::After(1), 0);
    assert_eq!(r, Err(Error::Unclassifiable));
    assert_eq!(engine.store.len(), 0);
}

#[test]
fn a_dip_during_confirmation_restarts_the_confirm_timer() {
    let (mut engine, mut ledger) = engine(1, 2, lenient());
    engine.submit(&mut ledger, 1, &Origin::Root, [0u8; 32], Enactment::After(0), 0).unwrap();
    engine.set_tally(0, Tally { ayes: 100, nays: 0 }).unwrap();
    engine.place_decision_deposit(&mut ledger, 0, 1, 0).unwrap();
    assert_eq!(
        status_of(&engine, 0),
        Status::Ongoing { deciding: Some(Deciding { since: 0, confirming: Some(0) }) }
    );
    engine.set_tally(0, Tally { ayes: 10, nays: 90 }).unwrap();
    assert_eq!(engine.on_alarm(&mut ledger, 0, 1), Ok(()));
    assert_eq!(
        status_of(&engine, 0),
        Status::Ongoing { deciding: Some(Deciding { since: 0, confirming: None }) }
    );
    engine.set_tally(0, Tally { ayes: 100, nays: 0 }).unwrap();
    assert_eq!(engine.on_alarm(&mut ledger, 0, 2), Ok(()));
    assert_eq!(
        status_of(&engine, 0),
        Status::Ongoing { deciding: Some(Deciding { since: 0, confirming: Some(2) }) }
    );
    assert_eq!(engine.on_alarm(&mut ledger, 0, 3), Ok(()));
    assert_eq!(
        status_of(&engine, 0),
        Status::Ongoing { deciding: Some(Deciding { since: 0, confirming: Some(2) }) }
    );
    assert_eq!(engine.on_alarm(&mut ledger, 0, 4), Ok(()));
    assert_eq!(status_of(&engine, 0), Status::Approved);
}

#[test]
fn low_turnout_at_the_end_times_out_where_the_policy_says_so() {
    let policy = Policy { slash_on_rejection: true, time_out_on_low_turnout: true };
    let (mut engine, mut ledger) = engine(1, 2, policy);
    engine.submit(&mut ledger, 1, &Origin::Root, [0u8; 32], Enactment::After(0), 0).unwrap();
    engine.set_tally(0, Tally { ayes: 10, nays: 0 }).unwrap();
    engine.place_decision_deposit(&mut ledger, 0, 2, 0).unwrap();
    assert_eq!(engine.on_alarm(&mut ledger, 0, 4), Ok(()));
    assert_eq!(status_of(&engine, 0), Status::TimedOut);
    assert_eq!(ledger.free_balance(1), 98);
    assert_eq!(ledger.reserved_balance(1), 0);
    assert_eq!(ledger.free_balance(2), 100);
    assert_eq!(ledger.reserved_balance(2), 0);
}

#[test]
fn enough_turnout_but_little_approval_is_rejected_and_slashed_by_policy() {
    let policy = Policy { slash_on_rejection: true, time_out_on_low_turnout: true };
    let (mut engine, mut ledger) = engine(1, 2, policy);
    engine.submit(&mut ledger, 1, &Origin::Root, [0u8; 32], Enactment::After(0), 0).unwrap();
    engine.set_tally(0, Tally { ayes: 10, nays: 50 }).unwrap();
    engine.place_decision_deposit(&mut ledger, 0, 2, 0).unwrap();
    assert_eq!(engine.on_alarm(&mut ledger, 0, 9), Ok(()));
    assert_eq!(status_of(&engine, 0), Status::Rejected);
    assert_eq!(ledger.free_balance(1), 98);
    assert_eq!(ledger.free_balance(2), 100);
}

#[test]
fn cancel_refunds_and_kill_slashes_both_deposits() {
    let (mut engine, mut ledger) = engine(2, 2, lenient());
    engine.submit(&mut ledger, 1, &Origin::Root, [0u8; 32], Enactment::After(0), 0).unwrap();
    engine.submit(&mut ledger, 3, &Origin::Root, [0u8; 32], Enactment::After(0), 0).unwrap();
    engine.place_decision_deposit(&mut ledger, 0, 2, 0).unwrap();
    engine.place_decision_deposit(&mut ledger, 1, 3, 0).unwrap();
    assert_eq!(ledger.free_balance(1), 98);
    assert_eq!(ledger.reserved_balance(1), 2);
    assert_eq!(ledger.free_balance(2), 90);
    assert_eq!(ledger.reserved_balance(2), 10);
    assert_eq!(ledger.free_balance(3), 88);
    assert_eq!(ledger.reserved_balance(3), 12);
    assert_eq!(engine.cancel(&mut ledger, 0, 1), Ok(()));
    assert_eq!(status_of(&engine, 0), Status::Cancelled);
    assert_eq!(engine.store.get(0).unwrap().alarm, None);
    assert_eq!(ledger.free_balance(1), 100);
    assert_eq!(ledger.reserved_balance(1), 0);
    assert_eq!(ledger.free_balance(2), 100);
    assert_eq!(ledger.reserved_balance(2), 0);
    assert_eq!(engine.kill(&mut ledger, 1, 1), Ok(()));
    assert_eq!(status_of(&engine, 1), Status::Killed);
    assert_eq!(engine.store.get(1).unwrap().alarm, None);
    assert_eq!(ledger.free_balance(3), 88);
    assert_eq!(ledger.reserved_balance(3), 0);
    assert_eq!(engine.cancel(&mut ledger, 0, 2), Err(Error::NotOngoing));
    assert_eq!(engine.kill(&mut ledger, 1, 2), Err(Error::NotOngoing));
    assert_eq!(engine.kill(&mut ledger, 5, 2), Err(Error::NotOngoing));
    assert_eq!(engine.deciding_on(7), 0);
}

#[test]
fn cancelling_the_deciding_referendum_admits_the_head_of_the_queue() {
    let (mut engine, mut ledger) = engine(1, 2, lenient());
    for who in 1..=3u64 {
        engine.submit(&mut ledger, who, &Origin::Root, [0u8; 32], Enactment::After(0), 0).unwrap();
    }
    engine.place_decision_deposit(&mut ledger, 0, 1, 1).unwrap();
    engine.place_decision_deposit(&mut ledger, 2, 3, 2).unwrap();
    engine.place_decision_deposit(&mut ledger, 1, 2, 3).unwrap();
    assert_eq!(engine.queue_head(7), Some(2));
    assert_eq!(engine.cancel(&mut ledger, 0, 4), Ok(()));
    assert_eq!(
        status_of(&engine, 2),
        Status::Ongoing { deciding: Some(Deciding { since: 4, confirming: None }) }
    );
    assert_eq!(status_of(&engine, 1), Status::Ongoing { deciding: None });
    assert_eq!(engine.queue_head(7), Some(1));
    assert_eq!(engine.deciding_on(7), 1);
}

#[test]
fn deposits_placed_at_the_same_time_queue_in_order_of_submission() {
    let (mut engine, mut ledger) = engine(0, 5, lenient());
    for who in 1..=3u64 {
        engine.submit(&mut ledger, who, &Origin::Root, [0u8; 32], Enactment::After(0), 0).unwrap();
    }
    engine.place_decision_deposit(&mut ledger, 2, 3, 5).unwrap();
    engine.place_decision_deposit(&mut ledger, 1, 2, 5).unwrap();
    assert_eq!(engine.queue_head(7), Some(1));
    assert_eq!(engine.queued_on(7), 2);
    assert_eq!(engine.deciding_on(7), 0);
    assert_eq!(engine.on_alarm(&mut ledger, 1, 6), Ok(()));
    assert_eq!(status_of(&engine, 1), Status::Ongoing { deciding: None });
}

#[test]
fn every_error_has_an_input_that_gives_it() {
    let (mut engine, mut ledger) = engine(1, 1, lenient());
    assert_eq!(
        engine.submit(&mut ledger, 1, &Origin::Signed(3), [0u8; 32], Enactment::After(0), 0),
        Err(Error::Unclassifiable)
    );
    assert_eq!(
        engine.submit(&mut ledger, 9, &Origin::Root, [0u8; 32], Enactment::After(0), 0),
        Err(Error::LedgerFailure)
    );
    assert_eq!(
        engine.submit(&mut ledger, 1, &Origin::Root, [0u8; 32], Enactment::After(0), u64::MAX),
        Err(Error::SchedulerFailure)
    );
    assert_eq!(engine.store.len(), 0);
    for who in 1..=3u64 {
        engine.submit(&mut ledger, who, &Origin::Root, [0u8; 32], Enactment::After(0), 0).unwrap();
    }
    assert_eq!(engine.check_admission(0), Err(Error::DepositRequired));
    assert_eq!(engine.check_admission(3), Err(Error::NotOngoing));
    assert_eq!(engine.place_decision_deposit(&mut ledger, 3, 1, 0), Err(Error::NotOngoing));
    assert_eq!(engine.place_decision_deposit(&mut ledger, 0, 9, 0), Err(Error::LedgerFailure));
    assert_eq!(engine.store.get(0).unwrap().decision_deposit, None);
    assert_eq!(
        engine.place_decision_deposit(&mut ledger, 0, 1, u64::MAX),
        Err(Error::SchedulerFailure)
    );
    assert_eq!(engine.place_decision_deposit(&mut ledger, 0, 1, 0), Ok(()));
    assert_eq!(engine.check_admission(0), Ok(()));
    assert_eq!(engine.place_decision_deposit(&mut ledger, 0, 1, 0), Err(Error::AlreadyDeposited));
    assert_eq!(engine.place_decision_deposit(&mut ledger, 1, 2, 0), Ok(()));
    assert_eq!(engine.place_decision_deposit(&mut ledger, 2, 3, 0), Err(Error::QueueFull));
    assert_eq!(engine.store.get(2).unwrap().decision_deposit, None);
    assert_eq!(ledger.reserved_balance(3), 2);
    assert_eq!(engine.on_alarm(&mut ledger, 0, u64::MAX), Err(Error::SchedulerFailure));
    assert_eq!(engine.cancel(&mut ledger, 0, u64::MAX), Err(Error::SchedulerFailure));
    assert_eq!(engine.set_tally(7, Tally { ayes: 1, nays: 1 }), Err(Error::NotOngoing));
    assert_eq!(engine.ensure_ongoing(7).err(), Some(Error::NotOngoing));
    assert_eq!(ledger.slash(1, 12), Ok(()));
    assert_eq!(engine.cancel(&mut ledger, 0, 1), Err(Error::LedgerFailure));
    assert_eq!(
        status_of(&engine, 0),
        Status::Ongoing { deciding: Some(Deciding { since: 0, confirming: None }) }
    );
    assert_eq!(engine.on_alarm(&mut ledger, 0, 4), Err(Error::LedgerFailure));
    assert!(engine.ensure_ongoing(0).is_ok());
}

#[test]
fn approval_that_cannot_be_scheduled_is_refused() {
    let (mut engine, mut ledger) = engine(1, 2, lenient());
    engine.submit(&mut ledger, 1, &Origin::Root, [0u8; 32], Enactment::After(u64::MAX), 0).unwrap();
    engine.set_tally(0, Tally { ayes: 100, nays: 0 }).unwrap();
    engine.place_decision_deposit(&mut ledger, 0, 1, 0).unwrap();
    assert_eq!(engine.on_alarm(&mut ledger, 0, 2), Err(Error::SchedulerFailure));
    assert!(engine.ensure_ongoing(0).is_ok());
    assert_eq!(ledger.reserved_balance(1), 12);
}

#[test]
fn enactment_is_no_earlier_than_the_minimum_after_approval() {
    let (mut engine, mut ledger) = engine(2, 2, lenient());
    engine.submit(&mut ledger, 1, &Origin::Root, [0u8; 32], Enactment::At(3), 0).unwrap();
    engine.submit(&mut ledger, 2, &Origin::Root, [0u8; 32], Enactment::At(50), 0).unwrap();
    for index in 0..2u32 {
        engine.set_tally(index, Tally { ayes: 80, nays: 20 }).unwrap();
        engine.place_decision_deposit(&mut ledger, index, 3, 0).unwrap();
    }
    assert_eq!(
        status_of(&engine, 0),
        Status::Ongoing { deciding: Some(Deciding { since: 0, confirming: None }) }
    );
    for now in 1..=3u64 {
        engine.on_alarm(&mut ledger, 0, now).unwrap();
        engine.on_alarm(&mut ledger, 1, now).unwrap();
    }
    assert_eq!(
        status_of(&engine, 0),
        Status::Ongoing { deciding: Some(Deciding { since: 0, confirming: Some(2) }) }
    );
    engine.on_alarm(&mut ledger, 0, 4).unwrap();
    engine.on_alarm(&mut ledger, 1, 4).unwrap();
    assert_eq!(status_of(&engine, 0), Status::Approved);
    assert_eq!(status_of(&engine, 1), Status::Approved);
    assert_eq!(engine.store.get(0).unwrap().enact_at, Some(7));
    assert_eq!(engine.store.get(1).unwrap().enact_at, Some(50));
}

#[test]
fn each_track_follows_its_own_policy() {
    let harsh = Policy { slash_on_rejection: true, time_out_on_low_turnout: false };
    let registry = TrackRegistry {
        tracks: vec![(1u8, track(1, lenient())), (2u8, track(1, harsh))],
        classes: vec![(Origin::Root, 1u8), (Origin::Unsigned, 2u8)],
    };
    let rules = Rules { registry, submission_deposit: 2, max_queued: 0 };
    let mut ledger = Ledger::new();
    ledger.endow(1, 100).unwrap();
    ledger.endow(2, 100).unwrap();
    let mut engine = Referenda::new(rules);
    engine.submit(&mut ledger, 1, &Origin::Root, [0u8; 32], Enactment::After(0), 0).unwrap();
    engine.submit(&mut ledger, 2, &Origin::Unsigned, [0u8; 32], Enactment::After(0), 0).unwrap();
    engine.place_decision_deposit(&mut ledger, 0, 1, 0).unwrap();
    engine.place_decision_deposit(&mut ledger, 1, 2, 0).unwrap();
    assert_eq!(engine.on_alarm(&mut ledger, 0, 4), Ok(()));
    assert_eq!(engine.on_alarm(&mut ledger, 1, 4), Ok(()));
    assert_eq!(status_of(&engine, 0), Status::Rejected);
    assert_eq!(status_of(&engine, 1), Status::Rejected);
    assert_eq!(ledger.free_balance(1), 100);
    assert_eq!(ledger.free_balance(2), 98);
    assert_eq!(ledger.reserved_balance(1), 0);
    assert_eq!(ledger.reserved_balance(2), 0);
}
