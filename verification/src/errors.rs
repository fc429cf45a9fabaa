use vstd::prelude::*;

verus! {

/// A failure reported by the asset-authority service. The code is passed
/// through as it came; the transitions never look inside it.
#[derive(Clone, Copy, Debug, PartialEq, Eq, Structural)]
pub struct CustodyError {
    pub code: u64,
}

/// Why a transition was refused. Every refusal is final for that attempt and
/// leaves all records as they were.
#[derive(Clone, Copy, Debug, PartialEq, Eq, Structural)]
pub enum StakeError {
    /// The asset is not held in the custody domain of the asset authority.
    InvalidAsset,
    /// The asset has no backing data.
    AssetNotInitialized,
    /// The collection is the asset itself, or is not held in the custody domain.
    InvalidCollection,
    /// The collection has no backing data.
    CollectionNotInitialized,
    /// The user already holds as many stakes as the configuration allows.
    MaxStakeReached,
    /// The acting user is not the owner named in the stake record.
    NotOwner,
    /// The freeze period has not yet run out.
    FreezePeriodNotPassed,
    /// The record slot is not the one derived from configuration and asset.
    InvalidSeeds,
    /// A live stake record already occupies the slot.
    AlreadyStaked,
    /// The slot holds no stake record.
    NotStaked,
    /// The reward would carry the points past what the counter can hold.
    PointsOverflow,
    /// The user's count of active stakes is already zero.
    CounterUnderflow,
    /// The asset-authority service failed.
    Custody(CustodyError),
}

} // verus!
