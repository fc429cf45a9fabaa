use crate::address::{bump_of, derived_view, points_to, program_address, stake_record_address, stake_seeds};
use crate::custody::{CustodyCall, CustodyOutcome, Step};
use crate::errors::StakeError;
use crate::identity::Identity;
use crate::state::{accounts_refusal, check_accounts, AccountInfo, RecordSlot, StakeAccount, StakeConfig, UserAccount};
use vstd::prelude::*;

verus! {

/// Everything one deposit works on: who acts, which asset of which
/// collection, the slot of the asset's stake record, the configuration and the
/// user's account.
#[derive(Clone, Copy, Debug, PartialEq, Eq)]
pub struct Stake {
    /// The staking program, among whose accounts the stake records lie.
    pub program: Identity,
    /// The acting user, who has signed the request.
    pub user: Identity,
    pub asset: AccountInfo,
    pub collection: AccountInfo,
    pub stake_account: RecordSlot,
    /// Where the configuration lies.
    pub config_key: Identity,
    pub config: StakeConfig,
    pub user_account: UserAccount,
    /// The asset-authority service, in whose custody assets and collections lie.
    pub core_program: Identity,
}

impl Stake {
    /// The seeds from which the address of the asset's stake record derives.
    pub open spec fn record_seeds(self) -> Seq<Seq<u8>> {
        stake_seeds(self.config_key@, self.asset.key@)
    }

    /// The first reason, if any, to refuse the deposit, given what the seeds
    /// derive to: a fault of asset or collection, a user at the limit, a slot
    /// that is not the derived one, a slot already taken.
    pub open spec fn refusal(self, derived: Option<(Seq<u8>, u8)>) -> Option<StakeError> {
        if accounts_refusal(self.asset, self.collection, self.core_program) is Some {
            accounts_refusal(self.asset, self.collection, self.core_program)
        } else if self.user_account.amount_staked >= self.config.max_stake {
            Some(StakeError::MaxStakeReached)
        } else if !points_to(derived, self.stake_account.key) {
            Some(StakeError::InvalidSeeds)
        } else if self.stake_account.record is Some {
            Some(StakeError::AlreadyStaked)
        } else {
            None
        }
    }

    /// The custody request of a deposit: freeze the asset, and let only the
    /// stake record lift the freeze.
    pub open spec fn freeze_call(self) -> CustodyCall {
        CustodyCall::AddFreezeDelegation {
            asset: self.asset.key,
            collection: self.collection.key,
            payer: self.user,
            controlling_authority: self.stake_account.key,
        }
    }

    /// The state after the deposit: a new record of the asset, owned by the
    /// user and dated `now`, and one more stake on the user's account.
    pub open spec fn staked(self, bump: u8, now: i64) -> Stake {
        Stake {
            stake_account: RecordSlot {
                key: self.stake_account.key,
                record: Some(
                    StakeAccount { owner: self.user, mint: self.asset.key, staked_at: now, bump },
                ),
            },
            user_account: UserAccount {
                amount_staked: (self.user_account.amount_staked + 1) as u32,
                ..self.user_account
            },
            ..self
        }
    }

    /// Whether the deposit is committed: nothing refuses it, and the freeze
    /// request has been performed and went well.
    pub open spec fn commits(self, derived: Option<(Seq<u8>, u8)>, custody: Seq<CustodyOutcome>) -> bool {
        self.refusal(derived) is None && custody.len() > 0 && custody[0] is Ok
    }

    /// What the deposit answers, given what the seeds derive to and the
    /// outcomes of the custody requests performed so far.
    pub open spec fn result(self, derived: Option<(Seq<u8>, u8)>, custody: Seq<CustodyOutcome>) -> Result<Step, StakeError> {
        if self.refusal(derived) is Some {
            Err(self.refusal(derived)->0)
        } else if custody.len() == 0 {
            Ok(Step::Call(self.freeze_call()))
        } else if custody[0] is Err {
            Err(StakeError::Custody(custody[0]->Err_0))
        } else {
            Ok(Step::Done)
        }
    }

    /// The state the deposit leaves: the new one where it is committed, the
    /// old one in every other case.
    pub open spec fn after(self, derived: Option<(Seq<u8>, u8)>, now: i64, custody: Seq<CustodyOutcome>) -> Stake {
        if self.commits(derived, custody) {
            self.staked(bump_of(derived), now)
        } else {
            self
        }
    }

    /// Deposits the asset at time `now`. `custody` holds the outcomes of the
    /// custody requests that were performed for this deposit so far, in order.
    /// A refusal wins over everything; with no outcome yet the answer is the
    /// freeze request to perform; a failed request fails the deposit; a
    /// request that went well commits it. Only a committed deposit changes
    /// anything.
    pub fn stake(&mut self, now: i64, custody: &[CustodyOutcome]) -> (r: Result<Step, StakeError>)
        ensures
            r == old(self).result(program_address(old(self).record_seeds(), old(self).program@), custody@),
            *final(self) == old(self).after(
                program_address(old(self).record_seeds(), old(self).program@),
                now,
                custody@,
            ),
    {
        let derived = stake_record_address(&self.program, &self.config_key, &self.asset.key);
        self.stake_at(derived, now, custody)
    }

    /// The deposit, for a record address that was derived beforehand.
    pub fn stake_at(&mut self, derived: Option<(Identity, u8)>, now: i64, custody: &[CustodyOutcome]) -> (r: Result<
        Step,
        StakeError,
    >)
        ensures
            r == old(self).result(derived_view(derived), custody@),
            *final(self) == old(self).after(derived_view(derived), now, custody@),
    {
        if let Err(e) = check_accounts(&self.asset, &self.collection, &self.core_program) {
            return Err(e);
        }
        if self.user_account.amount_staked >= self.config.max_stake {
            return Err(StakeError::MaxStakeReached);
        }
        let bump: u8 = match derived {
            Some((address, bump)) => {
                proof {
                    Identity::lemma_view_injective(address, self.stake_account.key);
                }
                if address != self.stake_account.key {
                    return Err(StakeError::InvalidSeeds);
                }
                bump
            },
            None => {
                return Err(StakeError::InvalidSeeds);
            },
        };
        if self.stake_account.record.is_some() {
            return Err(StakeError::AlreadyStaked);
        }
        if custody.len() == 0 {
            return Ok(
                Step::Call(
                    CustodyCall::AddFreezeDelegation {
                        asset: self.asset.key,
                        collection: self.collection.key,
                        payer: self.user,
                        controlling_authority: self.stake_account.key,
                    },
                ),
            );
        }
        if let Err(e) = custody[0] {
            return Err(StakeError::Custody(e));
        }
        self.stake_account.record = Some(
            StakeAccount { owner: self.user, mint: self.asset.key, staked_at: now, bump },
        );
        self.user_account.amount_staked = self.user_account.amount_staked + 1;
        Ok(Step::Done)
    }
}

} // verus!
