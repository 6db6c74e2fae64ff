use corn_vault::state::{CornError, UserInteractions, Vault, MAX_DEPOSIT, MIN_DEPOSIT};
use corn_vault::vault::{create_corn_vault, deposit_corn, withdraw_corn};

const TOKEN: [u8; 32] = [7; 32];
const T0: u64 = 1_700_000_000;

fn opened(amount: u64) -> Vault {
    let mut v = Vault::unfunded(TOKEN);
    assert_eq!(create_corn_vault(&mut v, TOKEN, amount, amount, 50_000, 1), Ok(amount));
    v
}

#[test]
fn open_sets_ledger() {
    let v = opened(1_000_000);
    assert_eq!(v.amount, 1_000_000);
    assert_eq!(v.start_pool, 1_000_000);
    assert_eq!(v.amount_staked, 0);
    assert_eq!(v.base_rate, 50_000);
    assert_eq!(v.base_hour, 1);
    assert_eq!(v.total_stakers, 0);
    assert_eq!(v.current_stakers, 0);
    assert_eq!(v.token, TOKEN);
}

#[test]
fn open_errors() {
    let mut v = Vault::unfunded(TOKEN);
    assert_eq!(create_corn_vault(&mut v, TOKEN, 10, 0, 50_000, 1), Err(CornError::InvalidAmount));
    assert_eq!(create_corn_vault(&mut v, TOKEN, 10, 11, 50_000, 1), Err(CornError::InsufficientFunds));
    assert_eq!(v, Vault::unfunded(TOKEN));
    let mut w = opened(1_000_000);
    let before = w;
    assert_eq!(create_corn_vault(&mut w, TOKEN, 5_000_000, 5_000_000, 50_000, 1), Err(CornError::AlreadyExists));
    assert_eq!(w, before);
}

#[test]
fn small_pool_cannot_pay_reward() {
    let mut v = opened(1_000_000);
    let mut u = UserInteractions::new();
    assert_eq!(deposit_corn(&mut v, &mut u, 200_000_000, 200_000_000, 0, T0), Ok(200_000_000));
    let (v0, u0) = (v, u);
    // the reward of 220_500_000 exceeds the pool of 1_000_000
    assert_eq!(withdraw_corn(&mut v, &mut u, 0, false, T0 + 7_200), Err(CornError::EmptyVault));
    assert_eq!(v, v0);
    assert_eq!(u, u0);
}

#[test]
fn full_exit_after_two_hours() {
    let mut v = opened(1_000_000_000);
    let mut u = UserInteractions::new();
    assert_eq!(deposit_corn(&mut v, &mut u, 200_000_000, 200_000_000, 0, T0), Ok(200_000_000));
    assert_eq!(withdraw_corn(&mut v, &mut u, 0, false, T0 + 7_200), Ok(220_500_000));
    assert_eq!(v.amount, 1_000_000_000 - 20_500_000);
    assert_eq!(v.amount_staked, 0);
    assert_eq!(v.current_stakers, 0);
    assert_eq!(v.total_stakers, 1);
    assert_eq!(u, UserInteractions::new());
}

#[test]
fn harvest_pays_gain_and_keeps_stake() {
    let mut v = opened(1_000_000_000);
    let mut u = UserInteractions::new();
    deposit_corn(&mut v, &mut u, 200_000_000, 200_000_000, 2, T0).unwrap();
    assert_eq!(withdraw_corn(&mut v, &mut u, 2, true, T0 + 7_200), Ok(20_500_000));
    assert_eq!(v.amount, 1_000_000_000 - 20_500_000);
    assert_eq!(v.amount_staked, 200_000_000);
    assert_eq!(v.current_stakers, 1);
    assert_eq!(u.total_deposits[2], 200_000_000);
    assert_eq!(u.time_deposits[2], T0);
    assert_eq!(u.stake_deposits[2], T0 + 7_200);
}

#[test]
fn deposit_into_occupied_slot_refused() {
    let mut v = opened(1_000_000_000);
    let mut u = UserInteractions::new();
    deposit_corn(&mut v, &mut u, 500_000_000, 200_000_000, 1, T0).unwrap();
    let (v0, u0) = (v, u);
    assert_eq!(deposit_corn(&mut v, &mut u, 500_000_000, 300_000_000, 1, T0 + 5), Err(CornError::AlreadyStaked));
    assert_eq!(v, v0);
    assert_eq!(u, u0);
}

#[test]
fn zero_reward_harvest_restarts_clock() {
    let mut v = opened(1_000_000_000);
    let mut u = UserInteractions::new();
    deposit_corn(&mut v, &mut u, 200_000_000, 200_000_000, 0, T0).unwrap();
    let v0 = v;
    assert_eq!(withdraw_corn(&mut v, &mut u, 0, true, T0 + 3_599), Ok(0));
    assert_eq!(u.stake_deposits[0], T0 + 3_599);
    assert_eq!(u.total_deposits[0], 200_000_000);
    assert_eq!(v, v0);
}

#[test]
fn reward_beyond_pool_refused() {
    let mut v = opened(1_000_000_000);
    let mut u = UserInteractions::new();
    deposit_corn(&mut v, &mut u, MAX_DEPOSIT, 1_000_000_000_000, 4, T0).unwrap();
    let (v0, u0) = (v, u);
    assert_eq!(withdraw_corn(&mut v, &mut u, 4, true, T0 + 3_600), Err(CornError::EmptyVault));
    assert_eq!(v, v0);
    assert_eq!(u, u0);
}

#[test]
fn early_harvest_keeps_stake() {
    let mut v = opened(1_000_000_000);
    let mut u = UserInteractions::new();
    v.base_hour = 3;
    deposit_corn(&mut v, &mut u, 200_000_000, 200_000_000, 3, T0).unwrap();
    assert_eq!(withdraw_corn(&mut v, &mut u, 3, true, T0 + 2 * 3_600 + 3_599), Ok(0));
    assert_eq!(v.amount_staked, 200_000_000);
    assert_eq!(u.total_deposits[3], 200_000_000);
}

#[test]
fn full_exit_clears_slot_once() {
    let mut v = opened(1_000_000_000);
    let mut u = UserInteractions::new();
    deposit_corn(&mut v, &mut u, 200_000_000, 200_000_000, 0, T0).unwrap();
    assert_eq!(withdraw_corn(&mut v, &mut u, 0, false, T0 + 60), Ok(200_000_000));
    assert_eq!((u.total_deposits[0], u.time_deposits[0], u.stake_deposits[0]), (0, 0, 0));
    assert_eq!(withdraw_corn(&mut v, &mut u, 0, false, T0 + 120), Err(CornError::NoDeposits));
}

#[test]
fn staker_counts_follow_slots() {
    let mut v = opened(1_000_000_000);
    let mut alice = UserInteractions::new();
    let mut bob = UserInteractions::new();
    deposit_corn(&mut v, &mut alice, MAX_DEPOSIT, MIN_DEPOSIT, 0, T0).unwrap();
    deposit_corn(&mut v, &mut alice, MAX_DEPOSIT, MIN_DEPOSIT, 1, T0).unwrap();
    deposit_corn(&mut v, &mut bob, MAX_DEPOSIT, MIN_DEPOSIT, 0, T0).unwrap();
    assert_eq!((v.total_stakers, v.current_stakers), (2, 2));
    assert_eq!(v.amount_staked, 3 * MIN_DEPOSIT);
    withdraw_corn(&mut v, &mut alice, 0, false, T0).unwrap();
    assert_eq!((v.total_stakers, v.current_stakers), (2, 2));
    withdraw_corn(&mut v, &mut alice, 1, false, T0).unwrap();
    assert_eq!((v.total_stakers, v.current_stakers), (2, 1));
    withdraw_corn(&mut v, &mut bob, 0, false, T0).unwrap();
    assert_eq!((v.total_stakers, v.current_stakers), (2, 0));
    assert!(v.current_stakers <= v.total_stakers);
    assert!(v.amount_staked <= v.amount);
}

#[test]
fn deposit_errors() {
    let mut v = opened(1_000_000_000);
    let mut u = UserInteractions::new();
    assert_eq!(deposit_corn(&mut v, &mut u, u64::MAX, MIN_DEPOSIT - 1, 0, T0), Err(CornError::InvalidAmount));
    assert_eq!(deposit_corn(&mut v, &mut u, u64::MAX, MAX_DEPOSIT + 1, 0, T0), Err(CornError::InvalidAmount));
    assert_eq!(deposit_corn(&mut v, &mut u, u64::MAX, MIN_DEPOSIT, 5, T0), Err(CornError::OutOfRange));
    assert_eq!(deposit_corn(&mut v, &mut u, MIN_DEPOSIT - 1, MIN_DEPOSIT, 0, T0), Err(CornError::InsufficientFunds));
    v.amount_staked = u64::MAX - MIN_DEPOSIT + 1;
    assert_eq!(deposit_corn(&mut v, &mut u, u64::MAX, MIN_DEPOSIT, 0, T0), Err(CornError::MathOverflow));
    assert_eq!(u, UserInteractions::new());
}

#[test]
fn deposit_bounds_accepted() {
    let mut v = opened(1_000_000_000);
    let mut u = UserInteractions::new();
    assert_eq!(deposit_corn(&mut v, &mut u, u64::MAX, MIN_DEPOSIT, 0, T0), Ok(MIN_DEPOSIT));
    assert_eq!(deposit_corn(&mut v, &mut u, u64::MAX, MAX_DEPOSIT, 4, T0), Ok(MAX_DEPOSIT));
    assert_eq!(v.amount_staked, MIN_DEPOSIT + MAX_DEPOSIT);
    assert_eq!((v.total_stakers, v.current_stakers), (1, 1));
}

#[test]
fn withdraw_errors() {
    let mut v = opened(1_000_000_000);
    let mut u = UserInteractions::new();
    assert_eq!(withdraw_corn(&mut v, &mut u, 5, false, T0), Err(CornError::OutOfRange));
    assert_eq!(withdraw_corn(&mut v, &mut u, 0, false, T0), Err(CornError::NoDeposits));
    deposit_corn(&mut v, &mut u, MAX_DEPOSIT, MIN_DEPOSIT, 0, T0).unwrap();
    v.amount_staked = MIN_DEPOSIT - 1;
    let (v0, u0) = (v, u);
    assert_eq!(withdraw_corn(&mut v, &mut u, 0, false, T0), Err(CornError::MathOverflow));
    assert_eq!(v, v0);
    assert_eq!(u, u0);
}

#[test]
fn clock_behind_stake_counts_no_time() {
    let mut v = opened(1_000_000_000);
    let mut u = UserInteractions::new();
    deposit_corn(&mut v, &mut u, MAX_DEPOSIT, MIN_DEPOSIT, 0, T0).unwrap();
    assert_eq!(withdraw_corn(&mut v, &mut u, 0, true, T0 - 100_000), Ok(0));
    assert_eq!(u.stake_deposits[0], T0 - 100_000);
}

#[test]
fn empty_pool_harvest_pays_nothing() {
    let mut v = Vault::unfunded(TOKEN);
    v.base_hour = 1;
    let mut u = UserInteractions::new();
    deposit_corn(&mut v, &mut u, MAX_DEPOSIT, MIN_DEPOSIT, 0, T0).unwrap();
    let v0 = v;
    assert_eq!(withdraw_corn(&mut v, &mut u, 0, true, T0 + 7_200), Ok(0));
    assert_eq!(withdraw_corn(&mut v, &mut u, 0, true, T0 + 14_400), Ok(0));
    assert_eq!(u.total_deposits[0], MIN_DEPOSIT);
    assert_eq!(u.stake_deposits[0], T0 + 14_400);
    assert_eq!(v, v0);
}

#[test]
fn empty_pool_full_exit_returns_principal() {
    let mut v = Vault::unfunded(TOKEN);
    let mut u = UserInteractions::new();
    deposit_corn(&mut v, &mut u, MAX_DEPOSIT, MIN_DEPOSIT, 0, T0).unwrap();
    assert_eq!(withdraw_corn(&mut v, &mut u, 0, false, T0 + 7_200), Ok(MIN_DEPOSIT));
    assert_eq!(u, UserInteractions::new());
    assert_eq!(v.amount_staked, 0);
    assert_eq!(v.amount, 0);
}

#[test]
fn open_refuses_zero_interval() {
    let mut v = Vault::unfunded(TOKEN);
    assert_eq!(create_corn_vault(&mut v, TOKEN, 1_000_000, 1_000_000, 50_000, 0), Err(CornError::InvalidAmount));
    assert_eq!(v, Vault::unfunded(TOKEN));
}
