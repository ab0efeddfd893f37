//! The ways in which an operation of the engine can fail.

use vstd::prelude::*;

verus! {

/// Why an operation was refused. A refused operation changes nothing.
#[derive(Clone, Copy, Debug, PartialEq, Eq, Structural)]
pub enum Error {
    /// The origin of the proposal has no track.
    Unclassifiable,
    /// There is no referendum under the index, or it has been closed.
    NotOngoing,
    /// The referendum has no decision deposit yet.
    DepositRequired,
    /// The referendum has its decision deposit already.
    AlreadyDeposited,
    /// The track has no free deciding slot and its queue takes no more.
    QueueFull,
    /// The deposit ledger could not hold, return or slash a deposit.
    LedgerFailure,
    /// No later time is left at which a wake-up or an enactment could be
    /// scheduled.
    SchedulerFailure,
}

} // verus!
