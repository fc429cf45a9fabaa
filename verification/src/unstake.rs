use crate::address::{derived_view, points_to, program_address, stake_record_address, stake_seeds};
use crate::custody::{CustodyCall, CustodyOutcome, Step};
use crate::errors::StakeError;
use crate::identity::Identity;
use crate::state::{accounts_refusal, check_accounts, reward, AccountInfo, RecordSlot, StakeConfig, UserAccount};
use vstd::prelude::*;

verus! {

/// Everything one withdrawal works on: who acts, which asset of which
/// collection, the slot of the asset's stake record, the configuration and the
/// user's account.
#[derive(Clone, Copy, Debug, PartialEq, Eq)]
pub struct Unstake {
    /// The staking program, among whose accounts the stake records lie.
    pub program: Identity,
    /// The acting user, who has signed the request.
    pub user: Identity,
    pub asset: AccountInfo,
    pub collection: AccountInfo,
    pub stake_account: RecordSlot,
    /// Where the configuration lies.
    pub config_key: Identity,
    pub config: StakeConfig,
    pub user_account: UserAccount,
    /// The asset-authority service, in whose custody assets and collections lie.
    pub core_program: Identity,
}

impl Unstake {
    /// The seeds from which the address of the asset's stake record derives.
    pub open spec fn record_seeds(self) -> Seq<Seq<u8>> {
        stake_seeds(self.config_key@, self.asset.key@)
    }

    /// The first reason, if any, to refuse the withdrawal at time `now`, given
    /// what the seeds derive to: a fault of asset or collection, a slot that is
    /// not the derived one or holds no record, a user who does not own the
    /// record, a freeze period still running, points or stake count that would
    /// leave their range.
    pub open spec fn refusal(self, derived: Option<(Seq<u8>, u8)>, now: i64) -> Option<StakeError> {
        if accounts_refusal(self.asset, self.collection, self.core_program) is Some {
            accounts_refusal(self.asset, self.collection, self.core_program)
        } else if !points_to(derived, self.stake_account.key) {
            Some(StakeError::InvalidSeeds)
        } else if self.stake_account.record is None {
            Some(StakeError::NotStaked)
        } else if self.stake_account.record->0.owner != self.user {
            Some(StakeError::NotOwner)
        } else if !self.stake_account.record->0.thawed(self.config, now) {
            Some(StakeError::FreezePeriodNotPassed)
        } else if self.user_account.points + self.stake_account.record->0.points_earned(self.config, now)
            > u64::MAX {
            Some(StakeError::PointsOverflow)
        } else if self.user_account.amount_staked == 0 {
            Some(StakeError::CounterUnderflow)
        } else {
            None
        }
    }

    /// The first custody request of a withdrawal: unfreeze the asset, in the
    /// name of the stake record.
    pub open spec fn thaw_call(self) -> CustodyCall {
        CustodyCall::SetFreezeDelegation {
            asset: self.asset.key,
            collection: self.collection.key,
            authority: self.stake_account.key,
            frozen: false,
        }
    }

    /// The second custody request of a withdrawal: take the delegation off
    /// the asset, in the name of the stake record.
    pub open spec fn release_call(self) -> CustodyCall {
        CustodyCall::RemoveFreezeDelegation {
            asset: self.asset.key,
            collection: self.collection.key,
            authority: self.stake_account.key,
        }
    }

    /// The state after the withdrawal at time `now`: the record gone, its
    /// reward added to the user's points, one stake less on the account.
    pub open spec fn settled(self, now: i64) -> Unstake {
        Unstake {
            stake_account: RecordSlot { key: self.stake_account.key, record: None },
            user_account: UserAccount {
                amount_staked: (self.user_account.amount_staked - 1) as u32,
                points: (self.user_account.points + self.stake_account.record->0.points_earned(
                    self.config,
                    now,
                )) as u64,
                ..self.user_account
            },
            ..self
        }
    }

    /// Whether the withdrawal is committed: nothing refuses it, and both
    /// custody requests have been performed and went well.
    pub open spec fn commits(self, derived: Option<(Seq<u8>, u8)>, now: i64, custody: Seq<CustodyOutcome>) -> bool {
        self.refusal(derived, now) is None && custody.len() > 1 && custody[0] is Ok && custody[1] is Ok
    }

    /// What the withdrawal answers, given what the seeds derive to and the
    /// outcomes of the custody requests performed so far.
    pub open spec fn result(self, derived: Option<(Seq<u8>, u8)>, now: i64, custody: Seq<CustodyOutcome>) -> Result<
        Step,
        StakeError,
    > {
        if self.refusal(derived, now) is Some {
            Err(self.refusal(derived, now)->0)
        } else if custody.len() == 0 {
            Ok(Step::Call(self.thaw_call()))
        } else if custody[0] is Err {
            Err(StakeError::Custody(custody[0]->Err_0))
        } else if custody.len() == 1 {
            Ok(Step::Call(self.release_call()))
        } else if custody[1] is Err {
            Err(StakeError::Custody(custody[1]->Err_0))
        } else {
            Ok(Step::Done)
        }
    }

    /// The state the withdrawal leaves: the new one where it is committed,
    /// the old one in every other case.
    pub open spec fn after(self, derived: Option<(Seq<u8>, u8)>, now: i64, custody: Seq<CustodyOutcome>) -> Unstake {
        if self.commits(derived, now, custody) {
            self.settled(now)
        } else {
            self
        }
    }

    /// Withdraws the asset at time `now`. `custody` holds the outcomes of the
    /// custody requests that were performed for this withdrawal so far, in
    /// order. A refusal wins over everything; with no outcome yet the answer
    /// is the request to unfreeze; after that one went well, the request to
    /// take the delegation off; a failed request fails the withdrawal; two
    /// requests that went well commit it. Only a committed withdrawal changes
    /// anything.
    pub fn unstake(&mut self, now: i64, custody: &[CustodyOutcome]) -> (r: Result<Step, StakeError>)
        ensures
            r == old(self).result(
                program_address(old(self).record_seeds(), old(self).program@),
                now,
                custody@,
            ),
            *final(self) == old(self).after(
                program_address(old(self).record_seeds(), old(self).program@),
                now,
                custody@,
            ),
    {
        let derived = stake_record_address(&self.program, &self.config_key, &self.asset.key);
        self.unstake_at(derived, now, custody)
    }

    /// The withdrawal, for a record address that was derived beforehand.
    pub fn unstake_at(&mut self, derived: Option<(Identity, u8)>, now: i64, custody: &[CustodyOutcome]) -> (r: Result<
        Step,
        StakeError,
    >)
        ensures
            r == old(self).result(derived_view(derived), now, custody@),
            *final(self) == old(self).after(derived_view(derived), now, custody@),
    {
        if let Err(e) = check_accounts(&self.asset, &self.collection, &self.core_program) {
            return Err(e);
        }
        match derived {
            Some((address, _)) => {
                proof {
                    Identity::lemma_view_injective(address, self.stake_account.key);
                }
                if address != self.stake_account.key {
                    return Err(StakeError::InvalidSeeds);
                }
            },
            None => {
                return Err(StakeError::InvalidSeeds);
            },
        }
        let record = match self.stake_account.record {
            Some(record) => record,
            None => {
                return Err(StakeError::NotStaked);
            },
        };
        if record.owner != self.user {
            return Err(StakeError::NotOwner);
        }
        let earned: u128 = match reward(&record, &self.config, now) {
            Some(earned) => earned,
            None => {
                return Err(StakeError::FreezePeriodNotPassed);
            },
        };
        if earned > (u64::MAX - self.user_account.points) as u128 {
            return Err(StakeError::PointsOverflow);
        }
        if self.user_account.amount_staked == 0 {
            return Err(StakeError::CounterUnderflow);
        }
        if custody.len() == 0 {
            return Ok(
                Step::Call(
                    CustodyCall::SetFreezeDelegation {
                        asset: self.asset.key,
                        collection: self.collection.key,
                        authority: self.stake_account.key,
                        frozen: false,
                    },
                ),
            );
        }
        if let Err(e) = custody[0] {
            return Err(StakeError::Custody(e));
        }
        if custody.len() == 1 {
            return Ok(
                Step::Call(
                    CustodyCall::RemoveFreezeDelegation {
                        asset: self.asset.key,
                        collection: self.collection.key,
                        authority: self.stake_account.key,
                    },
                ),
            );
        }
        if let Err(e) = custody[1] {
            return Err(StakeError::Custody(e));
        }
        self.user_account.points = self.user_account.points + earned as u64;
        self.user_account.amount_staked = self.user_account.amount_staked - 1;
        self.stake_account.record = None;
        Ok(Step::Done)
    }
}

} // verus!
