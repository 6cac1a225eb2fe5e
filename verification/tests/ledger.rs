use staking::errors::Error;
use staking::ops::{claim_points_fn, get_points_fn, stake_fn, unstake_fn};
use staking::record::{create_pda_account, owner_matches, StakeAccount};

fn owner_a() -> [u8; 32] {
    [7u8; 32]
}

fn owner_b() -> [u8; 32] {
    let mut o = [7u8; 32];
    o[31] = 8;
    o
}

#[test]
fn create_initializes_record() {
    let rec = create_pda_account(owner_a(), 1_700_000_000, 254);
    assert_eq!(rec.owner, owner_a());
    assert_eq!(rec.staked_amount, 0);
    assert_eq!(rec.total_points, 0);
    assert_eq!(rec.last_updated_time, 1_700_000_000);
    assert_eq!(rec.bump, 254);
}

#[test]
fn owner_matches_same_and_different() {
    assert!(owner_matches(&owner_a(), &owner_a()));
    assert!(!owner_matches(&owner_a(), &owner_b()));
}

#[test]
fn one_unit_for_one_day_earns_one_million_points() {
    // Deposit one whole unit at t = 0; withdrawing it a day later first
    // accrues exactly 1_000_000 points, then empties the balance.
    let owner = owner_a();
    let mut rec = create_pda_account(owner, 0, 3);
    assert_eq!(stake_fn(&mut rec, &owner, 1_000_000_000, 0), Ok(()));
    assert_eq!(rec.staked_amount, 1_000_000_000);
    assert_eq!(rec.total_points, 0);
    assert_eq!(rec.last_updated_time, 0);

    assert_eq!(unstake_fn(&mut rec, &owner, 1_000_000_000, 86_400), Ok(()));
    assert_eq!(rec.staked_amount, 0);
    assert_eq!(rec.total_points, 1_000_000);
    assert_eq!(rec.last_updated_time, 86_400);
}

#[test]
fn deposit_accrues_against_pre_deposit_balance() {
    let owner = owner_a();
    let mut rec = create_pda_account(owner, 0, 3);
    assert_eq!(stake_fn(&mut rec, &owner, 1_000_000_000, 0), Ok(()));
    // A day later the second deposit first accrues for the first unit only.
    assert_eq!(stake_fn(&mut rec, &owner, 2_000_000_000, 86_400), Ok(()));
    assert_eq!(rec.staked_amount, 3_000_000_000);
    assert_eq!(rec.total_points, 1_000_000);
    assert_eq!(rec.last_updated_time, 86_400);
}

#[test]
fn balance_overflow_rejected_without_mutation() {
    let owner = owner_a();
    let mut rec = create_pda_account(owner, 0, 3);
    assert_eq!(stake_fn(&mut rec, &owner, u64::MAX, 0), Ok(()));
    let before = rec;
    assert_eq!(stake_fn(&mut rec, &owner, 1, 0), Err(Error::Overflow));
    assert_eq!(rec, before);
}

#[test]
fn points_overflow_rejected_without_mutation() {
    let owner = owner_a();
    let mut rec = StakeAccount {
        owner,
        staked_amount: 1_000_000_000,
        total_points: u64::MAX,
        last_updated_time: 0,
        bump: 3,
    };
    let before = rec;
    assert_eq!(stake_fn(&mut rec, &owner, 1, 86_400), Err(Error::Overflow));
    assert_eq!(rec, before);
}

#[test]
fn zero_amount_rejected() {
    let owner = owner_a();
    let mut rec = create_pda_account(owner, 0, 3);
    assert_eq!(stake_fn(&mut rec, &owner, 0, 10), Err(Error::InvalidAmount));
    assert_eq!(unstake_fn(&mut rec, &owner, 0, 10), Err(Error::InvalidAmount));
    assert_eq!(rec, create_pda_account(owner, 0, 3));
}

#[test]
fn unauthorized_requests_never_mutate() {
    let owner = owner_a();
    let intruder = owner_b();
    let mut rec = create_pda_account(owner, 0, 3);
    assert_eq!(stake_fn(&mut rec, &owner, 500, 0), Ok(()));
    let before = rec;
    assert_eq!(stake_fn(&mut rec, &intruder, 500, 100), Err(Error::Unauthorized));
    assert_eq!(rec, before);
    assert_eq!(unstake_fn(&mut rec, &intruder, 100, 100), Err(Error::Unauthorized));
    assert_eq!(rec, before);
}

#[test]
fn insufficient_stake_leaves_record_unchanged() {
    let owner = owner_a();
    let mut rec = create_pda_account(owner, 0, 3);
    assert_eq!(stake_fn(&mut rec, &owner, 100, 0), Ok(()));
    let before = rec;
    assert_eq!(unstake_fn(&mut rec, &owner, 101, 50), Err(Error::InsufficientStake));
    assert_eq!(rec, before);
    assert_eq!(unstake_fn(&mut rec, &owner, 100, 50), Ok(()));
    assert_eq!(rec.staked_amount, 0);
}

#[test]
fn clock_running_backwards_rejected() {
    let owner = owner_a();
    let mut rec = create_pda_account(owner, 1_000, 3);
    assert_eq!(stake_fn(&mut rec, &owner, 42, 1_000), Ok(()));
    let before = rec;
    assert_eq!(stake_fn(&mut rec, &owner, 42, 999), Err(Error::InvalidTimestamp));
    assert_eq!(rec, before);
    assert_eq!(unstake_fn(&mut rec, &owner, 42, 999), Err(Error::InvalidTimestamp));
    assert_eq!(rec, before);
}

#[test]
fn points_and_update_time_never_decrease() {
    let owner = owner_a();
    let mut rec = create_pda_account(owner, 0, 3);
    let ops: [(bool, u64, u64); 6] = [
        (true, 2_000_000_000, 10),
        (false, 500_000_000, 86_410),
        (true, 1, 86_410),
        (false, 5_000_000_000, 90_000),
        (true, 1_000_000_000, 172_800),
        (false, 1_500_000_001, 259_200),
    ];
    let mut points = rec.total_points;
    let mut time = rec.last_updated_time;
    for (deposit, amount, now) in ops {
        let _ = if deposit {
            stake_fn(&mut rec, &owner, amount, now)
        } else {
            unstake_fn(&mut rec, &owner, amount, now)
        };
        assert!(rec.total_points >= points);
        assert!(rec.last_updated_time >= time);
        points = rec.total_points;
        time = rec.last_updated_time;
    }
}

#[test]
fn hooks_accept_and_do_nothing() {
    let rec = create_pda_account(owner_a(), 0, 3);
    assert_eq!(claim_points_fn(&rec), Ok(()));
    assert_eq!(get_points_fn(&rec), Ok(()));
}
