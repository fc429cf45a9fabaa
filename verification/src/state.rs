use crate::errors::StakeError;
use crate::identity::Identity;
use vstd::prelude::*;

verus! {

/// Seconds in one day.
pub const SECONDS_PER_DAY: u64 = 86400;

/// The deployment's settings. The transitions only read them.
#[derive(Clone, Copy, Debug, PartialEq, Eq, Structural)]
pub struct StakeConfig {
    /// How many stakes one user may hold at a time.
    pub max_stake: u32,
    /// The freeze period, in days.
    pub freeze_period: u32,
    /// Points granted for each whole day an asset stayed staked.
    pub points_per_stake: u32,
    pub bump: u8,
}

/// What is kept for each user.
#[derive(Clone, Copy, Debug, PartialEq, Eq, Structural)]
pub struct UserAccount {
    /// The number of stakes the user holds now.
    pub amount_staked: u32,
    /// The points collected so far.
    pub points: u64,
    pub bump: u8,
}

/// The record of one staked asset. It exists exactly while the asset is staked.
#[derive(Clone, Copy, Debug, PartialEq, Eq)]
pub struct StakeAccount {
    pub owner: Identity,
    /// The staked asset.
    pub mint: Identity,
    /// When the asset was staked, in seconds since the epoch.
    pub staked_at: i64,
    pub bump: u8,
}

/// The storage slot of a stake record: where it lies, and what it holds.
#[derive(Clone, Copy, Debug, PartialEq, Eq)]
pub struct RecordSlot {
    pub key: Identity,
    pub record: Option<StakeAccount>,
}

/// What a transition reads of an account it was handed but does not own.
#[derive(Clone, Copy, Debug, PartialEq, Eq)]
pub struct AccountInfo {
    pub key: Identity,
    /// The program in whose custody the account lies.
    pub owner: Identity,
    pub data_is_empty: bool,
}

impl StakeConfig {
    /// The freeze period in seconds.
    pub open spec fn freeze_seconds(self) -> int {
        self.freeze_period * SECONDS_PER_DAY
    }

    /// A user account agrees with the configuration while it holds no more
    /// stakes than the configuration allows.
    pub open spec fn admits(self, user_account: UserAccount) -> bool {
        user_account.amount_staked <= self.max_stake
    }
}

impl StakeAccount {
    /// Seconds that the asset has been staked at time `now`.
    pub open spec fn elapsed(self, now: i64) -> int {
        now - self.staked_at
    }

    /// Whole days that the asset has been staked at time `now`; a day that
    /// has only begun does not count.
    pub open spec fn days_staked(self, now: i64) -> int {
        self.elapsed(now) / (SECONDS_PER_DAY as int)
    }

    /// Whether the freeze period is over at time `now`.
    pub open spec fn thawed(self, config: StakeConfig, now: i64) -> bool {
        self.elapsed(now) >= config.freeze_seconds()
    }

    /// The points that a withdrawal at time `now` earns.
    pub open spec fn points_earned(self, config: StakeConfig, now: i64) -> int {
        self.days_staked(now) * config.points_per_stake
    }
}

/// The first reason, if any, to turn away an asset and its collection: the
/// asset must lie in the custody domain and hold data, the collection must
/// be another account than the asset, lie in the same domain and hold data.
pub open spec fn accounts_refusal(
    asset: AccountInfo,
    collection: AccountInfo,
    core_program: Identity,
) -> Option<StakeError> {
    if asset.owner != core_program {
        Some(StakeError::InvalidAsset)
    } else if asset.data_is_empty {
        Some(StakeError::AssetNotInitialized)
    } else if asset.key == collection.key {
        Some(StakeError::InvalidCollection)
    } else if collection.owner != core_program {
        Some(StakeError::InvalidCollection)
    } else if collection.data_is_empty {
        Some(StakeError::CollectionNotInitialized)
    } else {
        None
    }
}

/// Tests an asset and its collection, and names the first fault found.
pub fn check_accounts(
    asset: &AccountInfo,
    collection: &AccountInfo,
    core_program: &Identity,
) -> (r: Result<(), StakeError>)
    ensures
        r == match accounts_refusal(*asset, *collection, *core_program) {
            Some(e) => Err::<(), StakeError>(e),
            None => Ok(()),
        },
{
    if asset.owner != *core_program {
        Err(StakeError::InvalidAsset)
    } else if asset.data_is_empty {
        Err(StakeError::AssetNotInitialized)
    } else if asset.key == collection.key {
        Err(StakeError::InvalidCollection)
    } else if collection.owner != *core_program {
        Err(StakeError::InvalidCollection)
    } else if collection.data_is_empty {
        Err(StakeError::CollectionNotInitialized)
    } else {
        Ok(())
    }
}

/// The points a withdrawal at time `now` earns, or `None` before the freeze
/// period is over.
pub fn reward(record: &StakeAccount, config: &StakeConfig, now: i64) -> (r: Option<u128>)
    ensures
        r is Some <==> record.thawed(*config, now),
        r matches Some(points) ==> points == record.points_earned(*config, now),
{
    let elapsed: i128 = now as i128 - record.staked_at as i128;
    let freeze: i128 = config.freeze_period as i128 * 86400;
    if elapsed < freeze {
        return None;
    }
    let seconds: u128 = elapsed as u128;
    let days: u128 = seconds / 86400;
    let rate: u128 = config.points_per_stake as u128;
    assert(days * rate <= 0x1_0000_0000_0000_0000 * 0x1_0000_0000) by (nonlinear_arith)
        requires
            days <= 0x1_0000_0000_0000_0000,
            rate <= 0x1_0000_0000,
    ;
    Some(days * rate)
}

} // verus!
