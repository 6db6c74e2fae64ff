//! The three operations on a vault: open, deposit and withdraw.
//!
//! Each takes the records it reads and writes, with the caller's balance and
//! the current time, and returns the amount that the caller must then move:
//! into custody for open and deposit, out of custody for withdraw (nothing when
//! it is `0`). On an error no record is changed.
use vstd::prelude::*;
use crate::reward::{calculate_reward, reward_of, sat_u64};
use crate::state::{
    all_slots_empty,
    slots_empty,
    CornError,
    UserInteractions,
    Vault,
    MAX_DEPOSIT,
    MIN_DEPOSIT,
    SLOT_COUNT,
};

verus! {

/// The error, if any, with which opening the vault is refused.
pub open spec fn create_error(v: Vault, creator_balance: u64, amount: u64, base_hour: u32) -> Option<CornError> {
    if amount == 0 || base_hour == 0 {
        Some(CornError::InvalidAmount)
    } else if v.amount != 0 {
        Some(CornError::AlreadyExists)
    } else if creator_balance < amount {
        Some(CornError::InsufficientFunds)
    } else {
        None
    }
}

/// The ledger of a vault just funded with `amount`.
pub open spec fn opened_vault(token: [u8; 32], amount: u64, base_rate: u32, base_hour: u32) -> Vault {
    Vault {
        token,
        amount,
        amount_staked: 0,
        start_pool: amount,
        base_rate,
        base_hour,
        total_stakers: 0,
        current_stakers: 0,
    }
}

/// Opening took the ledger `v0` to `v1` with result `r`.
pub open spec fn create_step(
    v0: Vault,
    token: [u8; 32],
    creator_balance: u64,
    amount: u64,
    base_rate: u32,
    base_hour: u32,
    r: Result<u64, CornError>,
    v1: Vault,
) -> bool {
    match r {
        Ok(moved) => create_error(v0, creator_balance, amount, base_hour) is None && moved == amount && v1
            == opened_vault(token, amount, base_rate, base_hour),
        Err(e) => create_error(v0, creator_balance, amount, base_hour) == Some(e) && v1 == v0,
    }
}

/// The error, if any, with which a deposit is refused.
pub open spec fn deposit_error(
    v: Vault,
    u: UserInteractions,
    depositor_balance: u64,
    amount: u64,
    index: u32,
) -> Option<CornError> {
    if amount < MIN_DEPOSIT || amount > MAX_DEPOSIT {
        Some(CornError::InvalidAmount)
    } else if index >= SLOT_COUNT {
        Some(CornError::OutOfRange)
    } else if depositor_balance < amount {
        Some(CornError::InsufficientFunds)
    } else if u.total_deposits@[index as int] != 0 {
        Some(CornError::AlreadyStaked)
    } else if v.amount_staked + amount > u64::MAX || (slots_empty(u.total_deposits@) && (
    v.total_stakers == u64::MAX || v.current_stakers == u64::MAX)) {
        Some(CornError::MathOverflow)
    } else {
        None
    }
}

/// A deposit took the ledger `v0` and slots `u0` to `v1` and `u1` with result
/// `r`. A depositor whose slots were all free becomes a new active staker.
pub open spec fn deposit_step(
    v0: Vault,
    u0: UserInteractions,
    depositor_balance: u64,
    amount: u64,
    index: u32,
    now: u64,
    r: Result<u64, CornError>,
    v1: Vault,
    u1: UserInteractions,
) -> bool {
    let first = slots_empty(u0.total_deposits@);
    match r {
        Ok(moved) => {
            &&& deposit_error(v0, u0, depositor_balance, amount, index) is None
            &&& moved == amount
            &&& v1 == Vault {
                amount_staked: (v0.amount_staked + amount) as u64,
                total_stakers: if first {
                    (v0.total_stakers + 1) as u64
                } else {
                    v0.total_stakers
                },
                current_stakers: if first {
                    (v0.current_stakers + 1) as u64
                } else {
                    v0.current_stakers
                },
                ..v0
            }
            &&& u1.total_deposits@ == u0.total_deposits@.update(index as int, amount)
            &&& u1.time_deposits@ == u0.time_deposits@.update(index as int, now)
            &&& u1.stake_deposits@ == u0.stake_deposits@.update(index as int, now)
        },
        Err(e) => deposit_error(v0, u0, depositor_balance, amount, index) == Some(e) && v1 == v0
            && u1 == u0,
    }
}

/// Milliseconds from `since` to `now`: `0` when the clock reads at or before
/// `since`, clipped to `u64`.
pub open spec fn elapsed_ms(now: u64, since: u64) -> u64 {
    let seconds: nat = if now >= since {
        (now - since) as nat
    } else {
        0
    };
    sat_u64(seconds * 1000)
}

/// The reward calculation for slot `index` at time `now`.
pub open spec fn slot_reward(v: Vault, u: UserInteractions, index: u32, now: u64) -> Option<u64> {
    reward_of(
        u.total_deposits@[index as int],
        elapsed_ms(now, u.stake_deposits@[index as int]),
        v.base_hour as u64,
        v.base_rate,
        v.amount,
        v.start_pool,
    )
}

/// A positive reward is owed on slot `index` at time `now`.
pub open spec fn pays_reward(v: Vault, u: UserInteractions, index: u32, now: u64) -> bool {
    match slot_reward(v, u, index, now) {
        Some(total) => total > 0,
        None => false,
    }
}

/// What the pool pays out of its own reserve: the reward above the principal.
pub open spec fn harvest_gain(v: Vault, u: UserInteractions, index: u32, now: u64) -> int {
    if pays_reward(v, u, index, now) {
        slot_reward(v, u, index, now)->Some_0 - u.total_deposits@[index as int]
    } else {
        0
    }
}

/// The error, if any, with which a withdrawal is refused.
pub open spec fn withdraw_error(
    v: Vault,
    u: UserInteractions,
    index: u32,
    reward_only: bool,
    now: u64,
) -> Option<CornError> {
    if index >= SLOT_COUNT {
        Some(CornError::OutOfRange)
    } else if u.total_deposits@[index as int] == 0 {
        Some(CornError::NoDeposits)
    } else if pays_reward(v, u, index, now) && v.amount < slot_reward(v, u, index, now)->Some_0 {
        Some(CornError::EmptyVault)
    } else if pays_reward(v, u, index, now) && slot_reward(v, u, index, now)->Some_0
        < u.total_deposits@[index as int] {
        Some(CornError::MathOverflow)
    } else if !reward_only && v.amount_staked < u.total_deposits@[index as int] {
        Some(CornError::MathOverflow)
    } else {
        None
    }
}

/// The amount a withdrawal moves out of custody.
///
/// When a positive reward is owed: the gain for a harvest, principal and gain
/// for a full exit. When nothing is owed, whether because no interval has
/// passed yet or because the vault pays no reward at all (empty pool, no
/// starting pool, zero interval): nothing for a harvest, the principal for a
/// full exit.
pub open spec fn withdraw_payout(
    v: Vault,
    u: UserInteractions,
    index: u32,
    reward_only: bool,
    now: u64,
) -> int {
    let principal = u.total_deposits@[index as int];
    match slot_reward(v, u, index, now) {
        Some(total) => if total > 0 {
            if reward_only {
                total - principal
            } else {
                total as int
            }
        } else if reward_only {
            0
        } else {
            principal as int
        },
        None => if reward_only {
            0
        } else {
            principal as int
        },
    }
}

/// A withdrawal took the ledger `v0` and slots `u0` to `v1` and `u1` with
/// result `r`.
///
/// The gain is taken from the pool. A harvest restarts the slot's reward clock
/// and keeps its principal; a full exit frees the slot and unstakes the
/// principal. A depositor left with no occupied slot stops counting as active.
pub open spec fn withdraw_step(
    v0: Vault,
    u0: UserInteractions,
    index: u32,
    reward_only: bool,
    now: u64,
    r: Result<u64, CornError>,
    v1: Vault,
    u1: UserInteractions,
) -> bool {
    let i = index as int;
    let principal = u0.total_deposits@[i];
    match r {
        Ok(moved) => {
            &&& withdraw_error(v0, u0, index, reward_only, now) is None
            &&& moved == withdraw_payout(v0, u0, index, reward_only, now)
            &&& v1 == Vault {
                amount: (v0.amount - harvest_gain(v0, u0, index, now)) as u64,
                amount_staked: if reward_only {
                    v0.amount_staked
                } else {
                    (v0.amount_staked - principal) as u64
                },
                current_stakers: if slots_empty(u1.total_deposits@) && v0.current_stakers > 0 {
                    (v0.current_stakers - 1) as u64
                } else {
                    v0.current_stakers
                },
                ..v0
            }
            &&& if reward_only {
                &&& u1.total_deposits@ == u0.total_deposits@
                &&& u1.time_deposits@ == u0.time_deposits@
                &&& u1.stake_deposits@ == u0.stake_deposits@.update(i, now)
            } else {
                &&& u1.total_deposits@ == u0.total_deposits@.update(i, 0)
                &&& u1.time_deposits@ == u0.time_deposits@.update(i, 0)
                &&& u1.stake_deposits@ == u0.stake_deposits@.update(i, 0)
            }
        },
        Err(e) => withdraw_error(v0, u0, index, reward_only, now) == Some(e) && v1 == v0 && u1
            == u0,
    }
}

/// Funds the vault with `amount` from a creator holding `creator_balance`,
/// compounding every `base_hour` hours (at least one); returns the amount to
/// move into custody.
pub fn create_corn_vault(
    vault: &mut Vault,
    token: [u8; 32],
    creator_balance: u64,
    amount: u64,
    base_rate: u32,
    base_hour: u32,
) -> (r: Result<u64, CornError>)
    ensures
        create_step(*old(vault), token, creator_balance, amount, base_rate, base_hour, r, *final(vault)),
{
    if amount == 0 || base_hour == 0 {
        return Err(CornError::InvalidAmount);
    }
    if vault.amount != 0 {
        return Err(CornError::AlreadyExists);
    }
    if creator_balance < amount {
        return Err(CornError::InsufficientFunds);
    }
    vault.token = token;
    vault.amount = amount;
    vault.amount_staked = 0;
    vault.start_pool = amount;
    vault.base_rate = base_rate;
    vault.base_hour = base_hour;
    vault.total_stakers = 0;
    vault.current_stakers = 0;
    Ok(amount)
}

/// Stakes `amount` in the free slot `index` at time `now`, from a depositor
/// holding `depositor_balance`; returns the amount to move into custody.
pub fn deposit_corn(
    vault: &mut Vault,
    user: &mut UserInteractions,
    depositor_balance: u64,
    amount: u64,
    index: u32,
    now: u64,
) -> (r: Result<u64, CornError>)
    ensures
        deposit_step(*old(vault), *old(user), depositor_balance, amount, index, now, r, *final(vault), *final(user)),
{
    if amount < MIN_DEPOSIT || amount > MAX_DEPOSIT {
        return Err(CornError::InvalidAmount);
    }
    if index >= SLOT_COUNT {
        return Err(CornError::OutOfRange);
    }
    if depositor_balance < amount {
        return Err(CornError::InsufficientFunds);
    }
    let i = index as usize;
    if user.total_deposits[i] != 0 {
        return Err(CornError::AlreadyStaked);
    }
    let is_first_stake = all_slots_empty(&user.total_deposits);
    let staked = match vault.amount_staked.checked_add(amount) {
        Some(s) => s,
        None => return Err(CornError::MathOverflow),
    };
    if is_first_stake {
        if vault.total_stakers == u64::MAX || vault.current_stakers == u64::MAX {
            return Err(CornError::MathOverflow);
        }
        vault.total_stakers = vault.total_stakers + 1;
        vault.current_stakers = vault.current_stakers + 1;
    }
    vault.amount_staked = staked;
    user.total_deposits[i] = amount;
    user.time_deposits[i] = now;
    user.stake_deposits[i] = now;
    Ok(amount)
}

/// Harvests the reward of slot `index` (`reward_only`) or leaves the slot with
/// principal and reward, at time `now`; returns the amount to move out of
/// custody.
pub fn withdraw_corn(
    vault: &mut Vault,
    user: &mut UserInteractions,
    index: u32,
    reward_only: bool,
    now: u64,
) -> (r: Result<u64, CornError>)
    ensures
        withdraw_step(*old(vault), *old(user), index, reward_only, now, r, *final(vault), *final(user)),
{
    if index >= SLOT_COUNT {
        return Err(CornError::OutOfRange);
    }
    let i = index as usize;
    let amount = user.total_deposits[i];
    if amount == 0 {
        return Err(CornError::NoDeposits);
    }
    let stake_time = user.stake_deposits[i];
    let seconds = now.saturating_sub(stake_time);
    let time_elapsed: u64 = match seconds.checked_mul(1_000) {
        Some(ms) => ms,
        None => u64::MAX,
    };
    assert(time_elapsed == elapsed_ms(now, stake_time));
    let mut withdraw_amount = amount;
    let mut pool = vault.amount;
    match calculate_reward(
        amount,
        time_elapsed,
        vault.base_hour as u64,
        vault.base_rate,
        vault.amount,
        vault.start_pool,
    ) {
        Some(reward) => {
            if reward > 0 {
                if vault.amount < reward {
                    return Err(CornError::EmptyVault);
                }
                let gain = match reward.checked_sub(withdraw_amount) {
                    Some(g) => g,
                    None => return Err(CornError::MathOverflow),
                };
                pool = vault.amount - gain;
                withdraw_amount = if reward_only {
                    gain
                } else {
                    reward
                };
            } else if reward_only {
                withdraw_amount = 0;
            }
        },
        None => {
            if reward_only {
                withdraw_amount = 0;
            }
        },
    }
    let staked = if reward_only {
        vault.amount_staked
    } else {
        match vault.amount_staked.checked_sub(amount) {
            Some(s) => s,
            None => return Err(CornError::MathOverflow),
        }
    };
    vault.amount = pool;
    vault.amount_staked = staked;
    if reward_only {
        user.stake_deposits[i] = now;
    } else {
        user.total_deposits[i] = 0;
        user.time_deposits[i] = 0;
        user.stake_deposits[i] = 0;
    }
    if all_slots_empty(&user.total_deposits) {
        vault.current_stakers = vault.current_stakers.saturating_sub(1);
    }
    Ok(withdraw_amount)
}

} // verus!
