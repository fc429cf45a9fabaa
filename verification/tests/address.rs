use nft_staking::address::{stake_record_address, user_account_address};
use nft_staking::custody::Step;
use nft_staking::errors::StakeError;
use nft_staking::identity::Identity;
use nft_staking::stake::Stake;
use nft_staking::state::{AccountInfo, RecordSlot, StakeAccount, StakeConfig, UserAccount};
use nft_staking::unstake::Unstake;
use solana_program::pubkey::Pubkey;

fn id(n: u8) -> Identity {
    Identity { bytes: [n; 32] }
}

fn counting(from: u8) -> Identity {
    let mut bytes = [0u8; 32];
    for (i, b) in bytes.iter_mut().enumerate() {
        *b = from.wrapping_add(i as u8);
    }
    Identity { bytes }
}

fn expected(program: &Identity, config: &Identity, asset: &Identity) -> (Identity, u8) {
    let (address, bump) = Pubkey::find_program_address(
        &[b"stake", &config.bytes, &asset.bytes],
        &Pubkey::new_from_array(program.bytes),
    );
    (Identity { bytes: address.to_bytes() }, bump)
}

#[test]
fn record_address_is_the_program_address_of_the_stake_seeds() {
    for (program, config, asset) in [
        (id(1), id(2), id(3)),
        (id(0), id(0), id(0)),
        (id(255), id(254), id(253)),
        (counting(7), counting(100), counting(200)),
    ] {
        let derived = stake_record_address(&program, &config, &asset);
        assert_eq!(derived, Some(expected(&program, &config, &asset)));
    }
}

#[test]
fn record_address_is_none_of_its_inputs() {
    let (program, config, asset) = (id(1), id(2), id(3));
    let (address, _) = stake_record_address(&program, &config, &asset).unwrap();
    assert_ne!(address, program);
    assert_ne!(address, config);
    assert_ne!(address, asset);
}

#[test]
fn record_address_depends_on_each_input() {
    let base = stake_record_address(&id(1), &id(2), &id(3)).unwrap();
    assert_ne!(stake_record_address(&id(9), &id(2), &id(3)).unwrap().0, base.0);
    assert_ne!(stake_record_address(&id(1), &id(9), &id(3)).unwrap().0, base.0);
    assert_ne!(stake_record_address(&id(1), &id(2), &id(9)).unwrap().0, base.0);
    assert_ne!(stake_record_address(&id(1), &id(3), &id(2)).unwrap().0, base.0);
    assert_eq!(stake_record_address(&id(1), &id(2), &id(3)).unwrap(), base);
}

#[test]
fn record_address_differs_from_that_of_other_seeds() {
    let program = Pubkey::new_from_array([1; 32]);
    let (other, _) = Pubkey::find_program_address(&[b"user", &[2u8; 32], &[3u8; 32]], &program);
    let (address, _) = stake_record_address(&id(1), &id(2), &id(3)).unwrap();
    assert_ne!(address.bytes, other.to_bytes());
}

#[test]
fn user_account_address_is_the_program_address_of_the_user_seeds() {
    for (program, owner) in [(id(1), id(2)), (id(0), id(0)), (counting(9), counting(90))] {
        let (address, bump) =
            Pubkey::find_program_address(&[b"user", &owner.bytes], &Pubkey::new_from_array(program.bytes));
        assert_eq!(user_account_address(&program, &owner), Some((Identity { bytes: address.to_bytes() }, bump)));
    }
    assert_ne!(user_account_address(&id(1), &id(2)), user_account_address(&id(1), &id(3)));
    assert_ne!(user_account_address(&id(1), &id(2)), user_account_address(&id(2), &id(2)));
}

fn account(key: Identity, owner: Identity) -> AccountInfo {
    AccountInfo { key, owner, data_is_empty: false }
}

fn deposit(slot: RecordSlot) -> Stake {
    Stake {
        program: id(1),
        user: id(10),
        asset: account(id(3), id(50)),
        collection: account(id(4), id(50)),
        stake_account: slot,
        config_key: id(2),
        config: StakeConfig { max_stake: 2, freeze_period: 1, points_per_stake: 5, bump: 0 },
        user_account: UserAccount { amount_staked: 0, points: 0, bump: 0 },
        core_program: id(50),
    }
}

fn withdrawal(slot: RecordSlot) -> Unstake {
    Unstake {
        program: id(1),
        user: id(10),
        asset: account(id(3), id(50)),
        collection: account(id(4), id(50)),
        stake_account: slot,
        config_key: id(2),
        config: StakeConfig { max_stake: 2, freeze_period: 1, points_per_stake: 5, bump: 0 },
        user_account: UserAccount { amount_staked: 1, points: 0, bump: 0 },
        core_program: id(50),
    }
}

#[test]
fn stake_records_the_derived_bump() {
    let (key, bump) = expected(&id(1), &id(2), &id(3));
    let mut s = deposit(RecordSlot { key, record: None });
    assert_eq!(s.stake(11, &[Ok(())]), Ok(Step::Done));
    assert_eq!(
        s.stake_account.record,
        Some(StakeAccount { owner: id(10), mint: id(3), staked_at: 11, bump })
    );
}

#[test]
fn stake_refuses_a_slot_that_is_not_the_derived_one() {
    let (key, _) = expected(&id(1), &id(2), &id(3));
    let (of_other_asset, _) = expected(&id(1), &id(2), &id(4));
    for wrong in [of_other_asset, id(3), id(0)] {
        assert_ne!(wrong, key);
        let mut s = deposit(RecordSlot { key: wrong, record: None });
        let before = s;
        assert_eq!(s.stake(11, &[Ok(())]), Err(StakeError::InvalidSeeds));
        assert_eq!(s, before);
    }
}

#[test]
fn unstake_refuses_a_slot_that_is_not_the_derived_one() {
    let (key, _) = expected(&id(1), &id(2), &id(3));
    let (of_other_program, _) = expected(&id(9), &id(2), &id(3));
    let record = StakeAccount { owner: id(10), mint: id(3), staked_at: 0, bump: 1 };
    let mut u = withdrawal(RecordSlot { key: of_other_program, record: Some(record) });
    let before = u;
    assert_eq!(u.unstake(86400, &[Ok(()), Ok(())]), Err(StakeError::InvalidSeeds));
    assert_eq!(u, before);
    let mut v = withdrawal(RecordSlot { key, record: Some(record) });
    assert_eq!(v.unstake(86400, &[Ok(()), Ok(())]), Ok(Step::Done));
}

#[test]
fn a_given_address_stands_in_for_the_derived_one() {
    let mut s = deposit(RecordSlot { key: id(77), record: None });
    assert_eq!(s.stake_at(Some((id(77), 200)), 5, &[Ok(())]), Ok(Step::Done));
    assert_eq!(s.stake_account.record.unwrap().bump, 200);

    let mut t = deposit(RecordSlot { key: id(77), record: None });
    assert_eq!(t.stake_at(Some((id(78), 200)), 5, &[Ok(())]), Err(StakeError::InvalidSeeds));
    let mut n = deposit(RecordSlot { key: id(77), record: None });
    assert_eq!(n.stake_at(None, 5, &[Ok(())]), Err(StakeError::InvalidSeeds));

    let mut u = withdrawal(s.stake_account);
    assert_eq!(u.unstake_at(None, 5 + 86400, &[Ok(()), Ok(())]), Err(StakeError::InvalidSeeds));
    assert_eq!(u.unstake_at(Some((id(78), 1)), 5 + 86400, &[Ok(()), Ok(())]), Err(StakeError::InvalidSeeds));
    assert_eq!(u.unstake_at(Some((id(77), 1)), 5 + 86400, &[Ok(()), Ok(())]), Ok(Step::Done));
    assert_eq!(u.user_account.points, 5);
}
