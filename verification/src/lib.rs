//! Staking of assets that an outside authority holds in custody: a deposit
//! records the asset as staked and has it frozen, a withdrawal after the
//! freeze period credits points for the days staked and has it released.
//!
//! The transitions decide and compute; they perform nothing. Each answers
//! either with the custody request that is due next or with `Done`, and is
//! called again with the outcomes of the requests performed so far. Records
//! change only when a transition is committed.

pub mod address;
pub mod custody;
pub mod errors;
pub mod identity;
pub mod laws;
pub mod stake;
pub mod state;
pub mod unstake;
