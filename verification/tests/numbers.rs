use referenda::curve::Curve;
use referenda::deciding::{decide, elapsed, enter_slot, passing, resolve_enactment, time_from, Policy, Verdict};
use referenda::fraction::{Fraction, BILLION};
use referenda::store::{Deciding, Enactment};
use referenda::tally::Tally;
use referenda::tracks::TrackInfo;
use sp_runtime::Perbill;

fn percent(x: u32) -> Fraction {
    Fraction::from_percent(x)
}

fn falling(begin: u32, delta: u32) -> Curve {
    Curve::LinearDecreasing { begin: percent(begin), delta: percent(delta) }
}

fn track() -> TrackInfo {
    TrackInfo {
        name: "plain",
        max_deciding: 1,
        decision_deposit: 10,
        prepare_period: 0,
        decision_period: 4,
        confirm_period: 2,
        min_enactment_period: 3,
        min_approval: falling(100, 50),
        min_turnout: falling(100, 100),
        policy: Policy { slash_on_rejection: false, time_out_on_low_turnout: false },
    }
}

fn strict(mut track: TrackInfo) -> TrackInfo {
    track.policy = Policy { slash_on_rejection: false, time_out_on_low_turnout: true };
    track
}

#[test]
fn fractions_are_built_as_parts_per_billion() {
    assert_eq!(BILLION, 1_000_000_000);
    assert_eq!(Fraction::zero().parts, 0);
    assert_eq!(Fraction::one().parts, 1_000_000_000);
    assert_eq!(Fraction::from_parts(7).parts, 7);
    assert_eq!(Fraction::from_parts(u32::MAX).parts, 1_000_000_000);
    assert_eq!(percent(0).parts, 0);
    assert_eq!(percent(1).parts, 10_000_000);
    assert_eq!(percent(50).parts, 500_000_000);
    assert_eq!(percent(100).parts, 1_000_000_000);
    assert_eq!(percent(101).parts, 1_000_000_000);
    assert_eq!(percent(u32::MAX).parts, 1_000_000_000);
    assert_eq!(Fraction { parts: 2_000_000_000 }.deconstruct(), 1_000_000_000);
    assert_eq!(Fraction { parts: 5 }.deconstruct(), 5);
}

#[test]
fn ratios_round_down_and_stop_at_one_whole() {
    assert_eq!(Fraction::from_rational(1, 3).parts, 333_333_333);
    assert_eq!(Fraction::from_rational(2, 3).parts, 666_666_666);
    assert_eq!(Fraction::from_rational(1, 2).parts, 500_000_000);
    assert_eq!(Fraction::from_rational(0, 5).parts, 0);
    assert_eq!(Fraction::from_rational(5, 5).parts, 1_000_000_000);
    assert_eq!(Fraction::from_rational(6, 5).parts, 1_000_000_000);
    assert_eq!(Fraction::from_rational(0, 0).parts, 1_000_000_000);
    assert_eq!(Fraction::from_rational(3, 0).parts, 1_000_000_000);
    assert_eq!(Fraction::from_rational(u64::MAX - 1, u64::MAX).parts, 999_999_999);
    assert_eq!(Fraction::from_rational(1, u64::MAX).parts, 0);
}

#[test]
fn products_round_down_and_differences_stop_at_nothing() {
    assert_eq!(percent(50).mul(percent(50)).parts, 250_000_000);
    assert_eq!(percent(100).mul(percent(37)).parts, 370_000_000);
    assert_eq!(percent(0).mul(percent(37)).parts, 0);
    assert_eq!(Fraction::from_parts(1).mul(Fraction::from_parts(999_999_999)).parts, 0);
    assert_eq!(Fraction::from_parts(3).mul(Fraction::from_parts(500_000_000)).parts, 1);
    assert_eq!(Fraction { parts: u32::MAX }.mul(Fraction { parts: u32::MAX }).parts, 1_000_000_000);
    assert_eq!(percent(70).saturating_sub(percent(30)).parts, 400_000_000);
    assert_eq!(percent(30).saturating_sub(percent(70)).parts, 0);
    assert_eq!(percent(30).saturating_sub(percent(30)).parts, 0);
    assert_eq!(Fraction { parts: u32::MAX }.saturating_sub(percent(25)).parts, 750_000_000);
    assert!(percent(30).ge(percent(30)));
    assert!(percent(31).ge(percent(30)));
    assert!(!percent(29).ge(percent(30)));
    assert!(Fraction { parts: u32::MAX }.ge(Fraction::one()));
    assert!(Fraction::one().ge(Fraction { parts: u32::MAX }));
}

#[test]
fn fractions_agree_with_perbill() {
    for x in [0u32, 1, 33, 99, 100, 250] {
        assert_eq!(percent(x).parts, Perbill::from_percent(x).deconstruct());
    }
    for (p, q) in [(1u64, 3u64), (7, 9), (0, 1), (9, 9), (10, 9), (1, 0)] {
        assert_eq!(Fraction::from_rational(p, q).parts, Perbill::from_rational(p, q).deconstruct());
    }
    for (a, b) in [(123_456_789u32, 987_654_321u32), (1, 1), (1_000_000_000, 5), (0, 9)] {
        let x = Fraction::from_parts(a);
        let y = Fraction::from_parts(b);
        assert_eq!(x.mul(y).parts, (Perbill::from_parts(a) * Perbill::from_parts(b)).deconstruct());
    }
}

#[test]
fn linear_curve_falls_from_begin_by_delta() {
    let curve = falling(100, 50);
    assert_eq!(curve.threshold(percent(0)).parts, 1_000_000_000);
    assert_eq!(curve.threshold(percent(25)).parts, 875_000_000);
    assert_eq!(curve.threshold(percent(50)).parts, 750_000_000);
    assert_eq!(curve.threshold(percent(100)).parts, 500_000_000);
    let steep = falling(10, 100);
    assert_eq!(steep.threshold(percent(0)).parts, 100_000_000);
    assert_eq!(steep.threshold(percent(5)).parts, 50_000_000);
    assert_eq!(steep.threshold(percent(10)).parts, 0);
    assert_eq!(steep.threshold(percent(60)).parts, 0);
    assert_eq!(steep.threshold(percent(100)).parts, 0);
    let none = falling(55, 5);
    assert_eq!(none.threshold(Fraction::from_rational(1, 2)).parts, 525_000_000);
}

#[test]
fn threshold_never_rises_and_stays_a_fraction() {
    let curves = [falling(100, 50), falling(100, 100), falling(55, 5), falling(10, 10), falling(20, 90)];
    for curve in curves {
        let mut last = u32::MAX;
        for step in 0..=1000u64 {
            let now = curve.threshold(Fraction::from_rational(step, 1000)).parts;
            assert!(now <= 1_000_000_000);
            assert!(now <= last);
            last = now;
        }
    }
}

#[test]
fn passing_compares_value_with_threshold() {
    let curve = falling(100, 50);
    assert!(curve.passing(percent(50), percent(75)));
    assert!(curve.passing(percent(50), percent(76)));
    assert!(!curve.passing(percent(50), percent(74)));
    assert!(!curve.passing(percent(0), percent(99)));
    assert!(curve.passing(percent(0), percent(100)));
}

#[test]
fn tally_reports_turnout_and_approval() {
    let tally = Tally { ayes: 1, nays: 2 };
    assert_eq!(tally.ayes(), 1);
    assert_eq!(tally.turnout().parts, 30_000_000);
    assert_eq!(tally.approval().parts, 333_333_333);
    let even = Tally { ayes: 5, nays: 5 };
    assert_eq!(even.turnout().parts, 100_000_000);
    assert_eq!(even.approval().parts, 500_000_000);
    let all = Tally { ayes: 100, nays: 0 };
    assert_eq!(all.turnout().parts, 1_000_000_000);
    assert_eq!(all.approval().parts, 1_000_000_000);
    let against = Tally { ayes: 0, nays: 7 };
    assert_eq!(against.approval().parts, 0);
    assert_eq!(against.turnout().parts, 70_000_000);
}

#[test]
fn tally_without_votes_has_no_approval_and_no_turnout() {
    let empty = Tally::default();
    assert_eq!(empty, Tally { ayes: 0, nays: 0 });
    assert_eq!(empty.approval().parts, 0);
    assert_eq!(empty.turnout().parts, 0);
}

#[test]
fn tally_with_very_many_votes_does_not_overflow() {
    let huge = Tally { ayes: u32::MAX, nays: u32::MAX };
    assert_eq!(huge.turnout().parts, 1_000_000_000);
    assert_eq!(huge.approval().parts, 500_000_000);
    let most = Tally { ayes: u32::MAX, nays: 1 };
    assert_eq!(most.approval().parts, 999_999_999);
}

#[test]
fn elapsed_fraction_is_clamped_to_one_whole() {
    assert_eq!(time_from(3, 10), 7);
    assert_eq!(time_from(10, 3), 0);
    assert_eq!(elapsed(10, 10, 4).parts, 0);
    assert_eq!(elapsed(10, 11, 4).parts, 250_000_000);
    assert_eq!(elapsed(10, 13, 4).parts, 750_000_000);
    assert_eq!(elapsed(10, 14, 4).parts, 1_000_000_000);
    assert_eq!(elapsed(10, 99, 4).parts, 1_000_000_000);
    assert_eq!(elapsed(10, 5, 4).parts, 0);
    assert_eq!(elapsed(10, 10, 0).parts, 1_000_000_000);
    assert_eq!(elapsed(0, 1, 3).parts, 333_333_333);
}

#[test]
fn verdict_follows_tally_and_time() {
    let track = track();
    let all = Tally { ayes: 100, nays: 0 };
    let none = Tally { ayes: 0, nays: 0 };
    let split = Tally { ayes: 50, nays: 50 };
    let plain = Deciding { since: 10, confirming: None };
    assert!(passing(&track, &all, 10, 10));
    assert!(!passing(&track, &split, 10, 13));
    assert!(passing(&track, &split, 10, 14));
    assert_eq!(decide(&track, &plain, &all, 10), Verdict::Confirm { since: 10 });
    assert_eq!(decide(&track, &plain, &none, 10), Verdict::Deliberate);
    let confirming = Deciding { since: 10, confirming: Some(10) };
    assert_eq!(decide(&track, &confirming, &all, 11), Verdict::Confirm { since: 10 });
    assert_eq!(decide(&track, &confirming, &all, 12), Verdict::Approve);
    assert_eq!(decide(&track, &confirming, &none, 11), Verdict::Deliberate);
    assert_eq!(decide(&track, &confirming, &none, 14), Verdict::Reject);
    assert_eq!(decide(&strict(track), &confirming, &none, 14), Verdict::Reject);
    let mut demanding = track;
    demanding.min_turnout = falling(100, 50);
    assert_eq!(decide(&strict(demanding), &confirming, &none, 14), Verdict::TimeOut);
    assert_eq!(decide(&demanding, &confirming, &none, 14), Verdict::Reject);
    assert_eq!(
        decide(&strict(demanding), &plain, &Tally { ayes: 0, nays: 49 }, 14),
        Verdict::TimeOut
    );
    assert_eq!(
        decide(&strict(demanding), &plain, &Tally { ayes: 0, nays: 50 }, 14),
        Verdict::Reject
    );
    assert_eq!(decide(&strict(demanding), &plain, &none, 13), Verdict::Deliberate);
    assert_eq!(decide(&strict(track), &plain, &split, 13), Verdict::Deliberate);
    assert_eq!(decide(&strict(track), &plain, &split, 14), Verdict::Reject);
    let late = Deciding { since: 10, confirming: Some(13) };
    assert_eq!(decide(&track, &late, &all, 14), Verdict::Reject);
    assert_eq!(decide(&track, &late, &all, 15), Verdict::Approve);
    let few_against = Tally { ayes: 0, nays: 3 };
    assert_eq!(decide(&strict(track), &plain, &few_against, 14), Verdict::Reject);
}

#[test]
fn entering_a_slot_starts_confirming_only_when_passing() {
    let track = track();
    assert_eq!(
        enter_slot(&track, &Tally { ayes: 100, nays: 0 }, 5),
        Deciding { since: 5, confirming: Some(5) }
    );
    assert_eq!(
        enter_slot(&track, &Tally { ayes: 99, nays: 1 }, 5),
        Deciding { since: 5, confirming: None }
    );
}

#[test]
fn enactment_resolves_to_an_absolute_time() {
    assert_eq!(resolve_enactment(&Enactment::At(100), 10, 3), Some(100));
    assert_eq!(resolve_enactment(&Enactment::At(12), 10, 3), Some(13));
    assert_eq!(resolve_enactment(&Enactment::At(13), 10, 3), Some(13));
    assert_eq!(resolve_enactment(&Enactment::After(1), 10, 3), Some(13));
    assert_eq!(resolve_enactment(&Enactment::After(5), 10, 3), Some(15));
    assert_eq!(resolve_enactment(&Enactment::After(u64::MAX), 10, 3), None);
    assert_eq!(resolve_enactment(&Enactment::After(0), 10, u64::MAX), None);
    assert_eq!(resolve_enactment(&Enactment::At(u64::MAX), u64::MAX - 3, 3), Some(u64::MAX));
}
