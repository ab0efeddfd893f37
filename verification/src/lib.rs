//! An on-chain referendum engine: proposals are submitted against a track,
//! admitted to a bounded set of deciding slots once a decision deposit is
//! placed, and then approved or rejected by comparing the live vote tally
//! with thresholds that shrink as the decision period elapses.

pub mod blocks;
pub mod curve;
pub mod deciding;
pub mod engine;
pub mod error;
pub mod fraction;
pub mod invariants;
pub mod laws;
pub mod ledger;
pub mod model;
pub mod proposal;
pub mod runtime;
pub mod store;
pub mod tally;
pub mod tracks;
