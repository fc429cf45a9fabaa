use crate::address::{bump_of, points_to};
use crate::custody::{CustodyOutcome, Step};
use crate::errors::StakeError;
use crate::stake::Stake;
use crate::state::{accounts_refusal, SECONDS_PER_DAY};
use crate::unstake::Unstake;
use vstd::prelude::*;

verus! {

/// One deposit as it was attempted: the state it found, what the record's
/// seeds derived to, the time, and the custody outcomes it was given.
pub struct Deposit {
    pub before: Stake,
    pub derived: Option<(Seq<u8>, u8)>,
    pub now: i64,
    pub custody: Seq<CustodyOutcome>,
}

impl Deposit {
    /// Whether the deposit was committed.
    pub open spec fn committed(self) -> bool {
        self.before.result(self.derived, self.custody) == Ok::<Step, StakeError>(Step::Done)
    }

    /// The state the deposit left.
    pub open spec fn after(self) -> Stake {
        self.before.after(self.derived, self.now, self.custody)
    }
}

/// Deposits of one user in a row, all committed: each finds the user's
/// account as the one before left it, and all run under one configuration.
pub open spec fn committed_in_a_row(deposits: Seq<Deposit>) -> bool {
    &&& forall|i: int| 0 <= i < deposits.len() ==> (#[trigger] deposits[i]).committed()
    &&& forall|i: int|
        0 < i < deposits.len() ==> {
            &&& (#[trigger] deposits[i]).before.user_account == deposits[i - 1].after().user_account
            &&& deposits[i].before.config == deposits[0].before.config
        }
}

/// A deposit is committed exactly when it answers `Done`, and a deposit that
/// is not committed changes nothing.
pub proof fn lemma_stake_all_or_nothing(ctx: Stake, derived: Option<(Seq<u8>, u8)>, now: i64, custody: Seq<CustodyOutcome>)
    ensures
        ctx.result(derived, custody) == Ok::<Step, StakeError>(Step::Done) <==> ctx.commits(derived, custody),
        !ctx.commits(derived, custody) ==> ctx.after(derived, now, custody) == ctx,
        ctx.commits(derived, custody) ==> ctx.after(derived, now, custody) == ctx.staked(
            bump_of(derived),
            now,
        ),
{
}

/// A withdrawal is committed exactly when it answers `Done`, and a withdrawal
/// that is not committed changes nothing.
pub proof fn lemma_unstake_all_or_nothing(ctx: Unstake, derived: Option<(Seq<u8>, u8)>, now: i64, custody: Seq<CustodyOutcome>)
    ensures
        ctx.result(derived, now, custody) == Ok::<Step, StakeError>(Step::Done) <==> ctx.commits(derived, now, custody),
        !ctx.commits(derived, now, custody) ==> ctx.after(derived, now, custody) == ctx,
        ctx.commits(derived, now, custody) ==> ctx.after(derived, now, custody) == ctx.settled(now),
{
}

/// While a live record of the asset exists, a deposit of that asset fails,
/// whatever else holds, and leaves the user's account and the record as they
/// were.
pub proof fn lemma_no_double_stake(ctx: Stake, derived: Option<(Seq<u8>, u8)>, now: i64, custody: Seq<CustodyOutcome>)
    requires
        ctx.stake_account.record is Some,
    ensures
        ctx.result(derived, custody) is Err,
        ctx.after(derived, now, custody) == ctx,
        ctx.refusal(derived) is Some,
        accounts_refusal(ctx.asset, ctx.collection, ctx.core_program) is None
            && ctx.user_account.amount_staked < ctx.config.max_stake
            && points_to(derived, ctx.stake_account.key) ==> ctx.result(derived, custody) == Err::<
            Step,
            StakeError,
        >(StakeError::AlreadyStaked),
{
}

/// A deposit is committed only while the user holds fewer stakes than the
/// configuration allows, and then adds exactly one; a user at the limit is
/// refused, with `MaxStakeReached` where asset and collection are in order.
pub proof fn lemma_capacity(ctx: Stake, derived: Option<(Seq<u8>, u8)>, now: i64, custody: Seq<CustodyOutcome>)
    ensures
        ctx.commits(derived, custody) ==> {
            &&& ctx.user_account.amount_staked < ctx.config.max_stake
            &&& ctx.after(derived, now, custody).user_account.amount_staked == ctx.user_account.amount_staked
                + 1
            &&& ctx.after(derived, now, custody).user_account.points == ctx.user_account.points
            &&& ctx.after(derived, now, custody).config == ctx.config
        },
        ctx.user_account.amount_staked >= ctx.config.max_stake ==> {
            &&& ctx.result(derived, custody) is Err
            &&& ctx.after(derived, now, custody) == ctx
            &&& accounts_refusal(ctx.asset, ctx.collection, ctx.core_program) is None ==> ctx.result(
                derived,
                custody,
            ) == Err::<Step, StakeError>(StakeError::MaxStakeReached)
        },
{
}

/// After `n` committed deposits in a row the user holds `n` stakes more than
/// before the first, and never more than the configuration allows.
pub proof fn lemma_count_after_deposits(deposits: Seq<Deposit>)
    requires
        deposits.len() > 0,
        committed_in_a_row(deposits),
    ensures
        deposits.last().after().user_account.amount_staked == deposits[0].before.user_account.amount_staked
            + deposits.len(),
        deposits.last().after().user_account.amount_staked <= deposits[0].before.config.max_stake,
    decreases deposits.len(),
{
    let last = deposits.last();
    lemma_capacity(last.before, last.derived, last.now, last.custody);
    if deposits.len() > 1 {
        let front = deposits.drop_last();
        assert(committed_in_a_row(front)) by {
            assert forall|i: int| 0 <= i < front.len() implies (#[trigger] front[i]).committed() by {
                assert(front[i] == deposits[i]);
            }
            assert forall|i: int| 0 < i < front.len() implies {
                &&& (#[trigger] front[i]).before.user_account == front[i - 1].after().user_account
                &&& front[i].before.config == front[0].before.config
            } by {
                assert(front[i] == deposits[i]);
                assert(front[i - 1] == deposits[i - 1]);
            }
        }
        lemma_count_after_deposits(front);
        assert(front.last() == deposits[deposits.len() - 2]);
        assert(front[0] == deposits[0]);
        assert(deposits[deposits.len() - 1].before.user_account == deposits[deposits.len() - 2].after().user_account);
    }
}

/// Starting from a user without stakes, the deposit that is committed as the
/// `max_stake`-th brings the count to `max_stake`, and the next attempt on
/// that account fails: with `MaxStakeReached` where asset and collection are
/// in order.
pub proof fn lemma_capacity_reached(
    deposits: Seq<Deposit>,
    next: Stake,
    derived: Option<(Seq<u8>, u8)>,
    now: i64,
    custody: Seq<CustodyOutcome>,
)
    requires
        deposits.len() > 0,
        committed_in_a_row(deposits),
        deposits[0].before.user_account.amount_staked == 0,
        deposits.len() == deposits[0].before.config.max_stake,
        next.user_account == deposits.last().after().user_account,
        next.config == deposits[0].before.config,
    ensures
        deposits.last().after().user_account.amount_staked == next.config.max_stake,
        next.result(derived, custody) is Err,
        next.after(derived, now, custody) == next,
        accounts_refusal(next.asset, next.collection, next.core_program) is None ==> next.result(derived, custody)
            == Err::<Step, StakeError>(StakeError::MaxStakeReached),
{
    lemma_count_after_deposits(deposits);
    lemma_capacity(next, derived, now, custody);
}

/// Before the freeze period is over a withdrawal by the owner fails with
/// `FreezePeriodNotPassed` and changes nothing; from the second on which it
/// ends, the freeze period no longer stands in the way, and at that very
/// second the withdrawal is committed once both custody requests went well.
/// Stated for an asset and collection in order, the record in its derived
/// slot, and, for the success, points and stake count that stay in range.
pub proof fn lemma_time_lock(ctx: Unstake, derived: Option<(Seq<u8>, u8)>, now: i64, custody: Seq<CustodyOutcome>)
    requires
        accounts_refusal(ctx.asset, ctx.collection, ctx.core_program) is None,
        points_to(derived, ctx.stake_account.key),
        ctx.stake_account.record is Some,
        ctx.stake_account.record->0.owner == ctx.user,
    ensures
        now < ctx.stake_account.record->0.staked_at + ctx.config.freeze_period * SECONDS_PER_DAY ==> {
            &&& ctx.result(derived, now, custody) == Err::<Step, StakeError>(StakeError::FreezePeriodNotPassed)
            &&& ctx.after(derived, now, custody) == ctx
        },
        now >= ctx.stake_account.record->0.staked_at + ctx.config.freeze_period * SECONDS_PER_DAY
            ==> ctx.refusal(derived, now) != Some(StakeError::FreezePeriodNotPassed),
        now == ctx.stake_account.record->0.staked_at + ctx.config.freeze_period * SECONDS_PER_DAY
            && ctx.user_account.points + ctx.config.freeze_period * ctx.config.points_per_stake <= u64::MAX
            && ctx.user_account.amount_staked > 0 ==> {
            &&& ctx.refusal(derived, now) is None
            &&& custody.len() >= 2 && custody[0] is Ok && custody[1] is Ok ==> ctx.result(derived, now, custody)
                == Ok::<Step, StakeError>(Step::Done)
        },
{
    let record = ctx.stake_account.record->0;
    if now == record.staked_at + ctx.config.freeze_period * SECONDS_PER_DAY {
        assert(record.days_staked(now) == ctx.config.freeze_period) by {
            assert(record.elapsed(now) == ctx.config.freeze_period * 86400);
        }
    }
}

/// A committed withdrawal credits the whole days between deposit and
/// withdrawal, times the points per day; nothing else touches the points.
pub proof fn lemma_reward(ctx: Unstake, derived: Option<(Seq<u8>, u8)>, now: i64, custody: Seq<CustodyOutcome>)
    requires
        ctx.commits(derived, now, custody),
    ensures
        ctx.stake_account.record is Some,
        now - ctx.stake_account.record->0.staked_at >= 0,
        ctx.after(derived, now, custody).user_account.points == ctx.user_account.points + ((now
            - ctx.stake_account.record->0.staked_at) / 86400) * ctx.config.points_per_stake,
        ctx.after(derived, now, custody).user_account.points >= ctx.user_account.points,
        ctx.after(derived, now, custody).user_account.amount_staked == ctx.user_account.amount_staked - 1,
{
    let record = ctx.stake_account.record->0;
    let days = record.days_staked(now);
    let rate = ctx.config.points_per_stake as int;
    assert(record.elapsed(now) >= 0);
    assert(days >= 0);
    assert(days * rate >= 0) by (nonlinear_arith)
        requires
            days >= 0,
            rate >= 0,
    ;
}

/// Points are never taken away, and a user account that holds no more
/// stakes than the configuration allows stays so: through a deposit and
/// through a withdrawal, committed or not. Neither changes the configuration.
pub proof fn lemma_accounts_stay_in_range(
    deposit: Stake,
    withdrawal: Unstake,
    derived: Option<(Seq<u8>, u8)>,
    now: i64,
    custody: Seq<CustodyOutcome>,
)
    ensures
        deposit.after(derived, now, custody).user_account.points == deposit.user_account.points,
        deposit.after(derived, now, custody).config == deposit.config,
        deposit.config.admits(deposit.user_account) ==> deposit.config.admits(
            deposit.after(derived, now, custody).user_account,
        ),
        withdrawal.after(derived, now, custody).user_account.points >= withdrawal.user_account.points,
        withdrawal.after(derived, now, custody).config == withdrawal.config,
        withdrawal.config.admits(withdrawal.user_account) ==> withdrawal.config.admits(
            withdrawal.after(derived, now, custody).user_account,
        ),
{
    if withdrawal.commits(derived, now, custody) {
        lemma_reward(withdrawal, derived, now, custody);
    }
}

/// A withdrawal by anyone but the owner named in the record fails with
/// `NotOwner` at every time and changes nothing. Stated for an asset and
/// collection in order and the record in its derived slot.
pub proof fn lemma_only_owner_unstakes(ctx: Unstake, derived: Option<(Seq<u8>, u8)>, now: i64, custody: Seq<CustodyOutcome>)
    requires
        accounts_refusal(ctx.asset, ctx.collection, ctx.core_program) is None,
        points_to(derived, ctx.stake_account.key),
        ctx.stake_account.record is Some,
        ctx.stake_account.record->0.owner != ctx.user,
    ensures
        ctx.result(derived, now, custody) == Err::<Step, StakeError>(StakeError::NotOwner),
        ctx.after(derived, now, custody) == ctx,
{
}

/// Whoever the user and whatever the accounts: where the record's owner is
/// not the acting user, no withdrawal is committed.
pub proof fn lemma_stranger_never_commits(ctx: Unstake, derived: Option<(Seq<u8>, u8)>, now: i64, custody: Seq<CustodyOutcome>)
    requires
        ctx.stake_account.record is Some ==> ctx.stake_account.record->0.owner != ctx.user,
    ensures
        ctx.result(derived, now, custody) is Err,
        ctx.after(derived, now, custody) == ctx,
{
}

/// After a committed withdrawal no record of the asset is left, and a
/// deposit of the same asset that finds slot and account as the withdrawal
/// left them is committed once its freeze request went well, with a fresh
/// record dated at the time of that deposit. Stated for a user account that
/// held no more stakes than the configuration allows.
pub proof fn lemma_record_lifecycle(
    ctx: Unstake,
    derived: Option<(Seq<u8>, u8)>,
    now: i64,
    custody: Seq<CustodyOutcome>,
    next: Stake,
    later: i64,
    freeze: Seq<CustodyOutcome>,
)
    requires
        ctx.commits(derived, now, custody),
        ctx.config.admits(ctx.user_account),
        next.program == ctx.program,
        next.config_key == ctx.config_key,
        next.config == ctx.config,
        next.core_program == ctx.core_program,
        next.asset == ctx.asset,
        next.collection == ctx.collection,
        next.stake_account == ctx.after(derived, now, custody).stake_account,
        next.user_account == ctx.after(derived, now, custody).user_account,
        freeze.len() > 0,
        freeze[0] is Ok,
    ensures
        ctx.after(derived, now, custody).stake_account.record is None,
        next.record_seeds() == ctx.record_seeds(),
        next.result(derived, freeze) == Ok::<Step, StakeError>(Step::Done),
        next.after(derived, later, freeze).stake_account.record matches Some(record) && record.staked_at == later
            && record.owner == next.user && record.mint == next.asset.key,
        next.after(derived, later, freeze).user_account.amount_staked == ctx.user_account.amount_staked,
{
}

} // verus!
