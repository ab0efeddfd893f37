//! The decision that the engine takes each time it looks at a referendum
//! in a deciding slot: a function of the track, the slot's state, the tally
//! and the time, and of nothing else.

use crate::curve::{lemma_threshold_non_increasing, Curve};
use crate::fraction::{ratio_parts, Fraction, BILLION};
use crate::store::{Deciding, Enactment, Moment};
use crate::tally::Tally;
use crate::tracks::TrackInfo;
use vstd::prelude::*;

verus! {

/// The choices that the configuration of a track leaves to the operator.
#[derive(Clone, Copy, Debug, PartialEq, Eq, Structural)]
pub struct Policy {
    /// Whether the submission deposit of a referendum is slashed when its
    /// decision period ends without approval; it is refunded otherwise.
    pub slash_on_rejection: bool,
    /// Whether a referendum whose turnout is still insufficient when its
    /// decision period ends is closed as timed out; it is rejected otherwise.
    pub time_out_on_low_turnout: bool,
}

/// What becomes of a deciding referendum at one look.
#[derive(Clone, Copy, Debug, PartialEq, Eq, Structural)]
pub enum Verdict {
    /// It has passed for the whole confirmation period: approved.
    Approve,
    /// Its decision period is over: rejected.
    Reject,
    /// Its decision period is over and turnout is insufficient: timed out.
    TimeOut,
    /// It is passing, and has been without a break since `since`.
    Confirm { since: Moment },
    /// It is not passing; any confirmation so far is forgotten.
    Deliberate,
}

/// The time from `from` to `to`; nothing where `to` is the earlier.
pub open spec fn time_between(from: Moment, to: Moment) -> int {
    if to >= from {
        to - from
    } else {
        0
    }
}

/// The part of a decision period of length `period` that has gone by at
/// `now` for a referendum deciding since `since`, in parts per billion and
/// at most one whole. A period of no length is over at once.
pub open spec fn elapsed_parts(since: Moment, now: Moment, period: Moment) -> int {
    let gone = time_between(since, now);
    if gone >= period {
        BILLION as int
    } else {
        ratio_parts(gone, period as int)
    }
}

/// Whether `approval` and `turnout` both meet the thresholds of `track`
/// once `elapsed` parts per billion of the decision period have gone by.
pub open spec fn meets_thresholds(track: TrackInfo, approval: int, turnout: int, elapsed: int) -> bool {
    approval >= track.min_approval.threshold_parts(elapsed) && turnout
        >= track.min_turnout.threshold_parts(elapsed)
}

/// Whether a referendum of `track`, deciding since `since`, passes at `now`
/// with `tally`.
pub open spec fn is_passing(track: TrackInfo, tally: Tally, since: Moment, now: Moment) -> bool {
    meets_thresholds(
        track,
        tally.approval_parts(),
        tally.turnout_parts(),
        elapsed_parts(since, now, track.decision_period),
    )
}

/// Since when a referendum that passes at `now` has been confirming: since
/// the start of its unbroken confirmation, which is `now` if there was none.
pub open spec fn confirming_since(deciding: Deciding, now: Moment) -> Moment {
    match deciding.confirming {
        Some(since) => since,
        None => now,
    }
}

/// The verdict on a referendum of `track` in the slot state `deciding`, with
/// `tally`, at `now`.
///
/// Passing for the whole confirmation period approves. Failing that, the end
/// of the decision period closes the referendum. Before the end, a passing
/// referendum confirms and a failing one starts over.
pub open spec fn verdict(
    track: TrackInfo,
    deciding: Deciding,
    tally: Tally,
    now: Moment,
) -> Verdict {
    let passing = is_passing(track, tally, deciding.since, now);
    let since = confirming_since(deciding, now);
    if passing && time_between(since, now) >= track.confirm_period {
        Verdict::Approve
    } else if time_between(deciding.since, now) >= track.decision_period {
        if track.policy.time_out_on_low_turnout && tally.turnout_parts()
            < track.min_turnout.threshold_parts(BILLION as int) {
            Verdict::TimeOut
        } else {
            Verdict::Reject
        }
    } else if passing {
        Verdict::Confirm { since }
    } else {
        Verdict::Deliberate
    }
}

/// The slot state of a referendum of `track` that is admitted at `now` with
/// `tally`: it confirms from the start if it passes already.
pub open spec fn admitted(track: TrackInfo, tally: Tally, now: Moment) -> Deciding {
    Deciding {
        since: now,
        confirming: if is_passing(track, tally, now, now) {
            Some(now)
        } else {
            None
        },
    }
}

/// The time at which a proposal approved at `now` is enacted: the time it
/// asks for, but no earlier than `min_period` after approval.
pub open spec fn enactment_time(enactment: Enactment, now: Moment, min_period: Moment) -> int {
    let desired = match enactment {
        Enactment::At(at) => at as int,
        Enactment::After(delay) => now + delay,
    };
    if desired >= now + min_period {
        desired
    } else {
        now + min_period
    }
}

/// The time from `from` to `to`; nothing where `to` is the earlier.
pub fn time_from(from: Moment, to: Moment) -> (r: Moment)
    ensures
        r as int == time_between(from, to),
{
    if to >= from {
        to - from
    } else {
        0
    }
}

/// The fraction of a decision period of length `period` that has gone by at
/// `now` for a referendum deciding since `since`.
pub fn elapsed(since: Moment, now: Moment, period: Moment) -> (r: Fraction)
    ensures
        r.value() == elapsed_parts(since, now, period),
        r.parts as int == r.value(),
{
    let gone = time_from(since, now);
    if gone >= period {
        Fraction::one()
    } else {
        proof {
            crate::fraction::lemma_ratio_parts_bounded(gone as int, period as int);
        }
        Fraction::from_rational(gone, period)
    }
}

/// Whether a referendum of `track`, deciding since `since`, passes at `now`
/// with `tally`.
pub fn passing(track: &TrackInfo, tally: &Tally, since: Moment, now: Moment) -> (r: bool)
    ensures
        r == is_passing(*track, *tally, since, now),
{
    let x = elapsed(since, now, track.decision_period);
    track.min_approval.passing(x, tally.approval()) && track.min_turnout.passing(
        x,
        tally.turnout(),
    )
}

/// The verdict on a referendum of `track` in the slot state `deciding`, with
/// `tally`, at `now`.
pub fn decide(
    track: &TrackInfo,
    deciding: &Deciding,
    tally: &Tally,
    now: Moment,
) -> (r: Verdict)
    ensures
        r == verdict(*track, *deciding, *tally, now),
{
    let is_passing = passing(track, tally, deciding.since, now);
    let since = match deciding.confirming {
        Some(since) => since,
        None => now,
    };
    if is_passing && time_from(since, now) >= track.confirm_period {
        Verdict::Approve
    } else if time_from(deciding.since, now) >= track.decision_period {
        if track.policy.time_out_on_low_turnout && !track.min_turnout.passing(
            Fraction::one(),
            tally.turnout(),
        ) {
            Verdict::TimeOut
        } else {
            Verdict::Reject
        }
    } else if is_passing {
        Verdict::Confirm { since }
    } else {
        Verdict::Deliberate
    }
}

/// The slot state of a referendum of `track` that is admitted at `now` with
/// `tally`.
pub fn enter_slot(track: &TrackInfo, tally: &Tally, now: Moment) -> (r: Deciding)
    ensures
        r == admitted(*track, *tally, now),
{
    let confirming = if passing(track, tally, now, now) {
        Some(now)
    } else {
        None
    };
    Deciding { since: now, confirming }
}

/// The time at which a proposal approved at `now` is enacted; none where
/// that time lies beyond the last moment that can be expressed.
pub fn resolve_enactment(enactment: &Enactment, now: Moment, min_period: Moment) -> (r: Option<
    Moment,
>)
    ensures
        enactment_time(*enactment, now, min_period) <= u64::MAX ==> r == Some(
            enactment_time(*enactment, now, min_period) as u64,
        ),
        enactment_time(*enactment, now, min_period) > u64::MAX ==> r is None,
{
    let desired = match enactment {
        Enactment::At(at) => Some(*at),
        Enactment::After(delay) => now.checked_add(*delay),
    };
    let earliest = now.checked_add(min_period);
    match (desired, earliest) {
        (Some(desired), Some(earliest)) => if desired >= earliest {
            Some(desired)
        } else {
            Some(earliest)
        },
        _ => None,
    }
}

/// The elapsed fraction lies between nothing and one whole, and it is one
/// whole exactly when the decision period is over.
pub proof fn lemma_elapsed_whole(since: Moment, now: Moment, period: Moment)
    ensures
        0 <= elapsed_parts(since, now, period) <= BILLION,
        elapsed_parts(since, now, period) == BILLION <==> time_between(since, now) >= period,
{
    let gone = time_between(since, now);
    if gone < period {
        assert(0 <= gone * BILLION / (period as int) < BILLION) by (nonlinear_arith)
            requires
                0 <= gone < period,
        ;
    }
}

/// The elapsed fraction never falls as time goes by.
pub proof fn lemma_elapsed_non_decreasing(
    since: Moment,
    earlier: Moment,
    later: Moment,
    period: Moment,
)
    requires
        earlier <= later,
    ensures
        elapsed_parts(since, earlier, period) <= elapsed_parts(since, later, period),
{
    lemma_elapsed_whole(since, earlier, period);
    lemma_elapsed_whole(since, later, period);
    let a = time_between(since, earlier);
    let b = time_between(since, later);
    if b < period {
        assert(a * BILLION / (period as int) <= b * BILLION / (period as int))
            by (nonlinear_arith)
            requires
                0 <= a <= b,
                0 < period,
        ;
    }
}

/// The threshold that a deciding referendum has to meet never rises as
/// time goes by.
pub proof fn lemma_threshold_falls_over_time(
    curve: Curve,
    since: Moment,
    earlier: Moment,
    later: Moment,
    period: Moment,
)
    requires
        earlier <= later,
    ensures
        curve.threshold_parts(elapsed_parts(since, later, period)) <= curve.threshold_parts(
            elapsed_parts(since, earlier, period),
        ),
{
    lemma_elapsed_non_decreasing(since, earlier, later, period);
    lemma_elapsed_whole(since, earlier, period);
    lemma_elapsed_whole(since, later, period);
    let x = Fraction { parts: elapsed_parts(since, earlier, period) as u32 };
    let y = Fraction { parts: elapsed_parts(since, later, period) as u32 };
    lemma_threshold_non_increasing(curve, x, y);
}

/// A referendum is approved only at a look at which approval and turnout
/// both meet their thresholds, and only once it has passed without a break
/// for the whole confirmation period.
pub proof fn lemma_approval_needs_confirmation(
    track: TrackInfo,
    deciding: Deciding,
    tally: Tally,
    now: Moment,
)
    requires
        verdict(track, deciding, tally, now) == Verdict::Approve,
    ensures
        tally.approval_parts() >= track.min_approval.threshold_parts(
            elapsed_parts(deciding.since, now, track.decision_period),
        ),
        tally.turnout_parts() >= track.min_turnout.threshold_parts(
            elapsed_parts(deciding.since, now, track.decision_period),
        ),
        time_between(confirming_since(deciding, now), now) >= track.confirm_period,
        track.confirm_period > 0 ==> deciding.confirming is Some,
{
}

/// A look at which a threshold is missed, before the decision period is
/// over, does not reject the referendum: it goes on deciding, and whatever
/// confirmation it had is forgotten.
pub proof fn lemma_failing_look_resets(
    track: TrackInfo,
    deciding: Deciding,
    tally: Tally,
    now: Moment,
)
    requires
        !is_passing(track, tally, deciding.since, now),
        time_between(deciding.since, now) < track.decision_period,
    ensures
        verdict(track, deciding, tally, now) == Verdict::Deliberate,
{
}

/// A look at a passing referendum before the end of its decision period
/// keeps the start of its confirmation, or sets it to now if it had none.
pub proof fn lemma_passing_look_confirms(
    track: TrackInfo,
    deciding: Deciding,
    tally: Tally,
    now: Moment,
)
    requires
        is_passing(track, tally, deciding.since, now),
        time_between(deciding.since, now) < track.decision_period,
    ensures
        verdict(track, deciding, tally, now) == Verdict::Approve || verdict(
            track,
            deciding,
            tally,
            now,
        ) == (Verdict::Confirm { since: confirming_since(deciding, now) }),
{
}

/// Once the decision period is over, every look closes the referendum: it
/// is approved, rejected or timed out, and never left deciding.
pub proof fn lemma_decision_period_ends(
    track: TrackInfo,
    deciding: Deciding,
    tally: Tally,
    now: Moment,
)
    requires
        time_between(deciding.since, now) >= track.decision_period,
    ensures
        verdict(track, deciding, tally, now) == Verdict::Approve || verdict(
            track,
            deciding,
            tally,
            now,
        ) == Verdict::Reject || verdict(track, deciding, tally, now) == Verdict::TimeOut,
        !is_passing(track, tally, deciding.since, now) ==> verdict(
            track,
            deciding,
            tally,
            now,
        ) != Verdict::Approve,
{
}

} // verus!
