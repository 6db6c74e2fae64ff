//! Properties that hold across the vault's operations.
use vstd::prelude::*;
use crate::reward::held_hours;
use crate::state::{solvent, staker_counts_consistent, CornError, UserInteractions, Vault, SLOT_COUNT};
use crate::vault::{create_step, deposit_step, elapsed_ms, harvest_gain, withdraw_step};

verus! {

/// Opening a vault leaves it solvent: nothing is staked in a freshly funded
/// vault, and a refused opening changes nothing.
pub proof fn lemma_open_keeps_solvency(
    v0: Vault,
    token: [u8; 32],
    creator_balance: u64,
    amount: u64,
    base_rate: u32,
    base_hour: u32,
    r: Result<u64, CornError>,
    v1: Vault,
)
    requires
        solvent(v0),
        create_step(v0, token, creator_balance, amount, base_rate, base_hour, r, v1),
    ensures
        solvent(v1),
{
}

/// A deposit keeps the vault solvent when the unstaked part of the pool
/// covers the amount deposited. (A deposit does not add to the pool, so a
/// larger one leaves more staked than the pool holds.)
pub proof fn lemma_deposit_keeps_solvency(
    v0: Vault,
    u0: UserInteractions,
    depositor_balance: u64,
    amount: u64,
    index: u32,
    now: u64,
    r: Result<u64, CornError>,
    v1: Vault,
    u1: UserInteractions,
)
    requires
        solvent(v0),
        deposit_step(v0, u0, depositor_balance, amount, index, now, r, v1, u1),
        amount <= v0.amount - v0.amount_staked,
    ensures
        solvent(v1),
{
}

/// A withdrawal keeps the vault solvent when the gain it takes from the pool
/// fits in the unstaked part of the pool, counting, for a full exit, the
/// principal that leaves the stake.
pub proof fn lemma_withdraw_keeps_solvency(
    v0: Vault,
    u0: UserInteractions,
    index: u32,
    reward_only: bool,
    now: u64,
    r: Result<u64, CornError>,
    v1: Vault,
    u1: UserInteractions,
)
    requires
        solvent(v0),
        withdraw_step(v0, u0, index, reward_only, now, r, v1, u1),
        index < SLOT_COUNT ==> harvest_gain(v0, u0, index, now) <= v0.amount - v0.amount_staked + (
        if reward_only {
            0
        } else {
            u0.total_deposits@[index as int] as int
        }),
    ensures
        solvent(v1),
{
}

/// Opening a vault keeps the active stakers within the lifetime stakers.
pub proof fn lemma_open_keeps_staker_counts(
    v0: Vault,
    token: [u8; 32],
    creator_balance: u64,
    amount: u64,
    base_rate: u32,
    base_hour: u32,
    r: Result<u64, CornError>,
    v1: Vault,
)
    requires
        staker_counts_consistent(v0),
        create_step(v0, token, creator_balance, amount, base_rate, base_hour, r, v1),
    ensures
        staker_counts_consistent(v1),
{
}

/// A deposit keeps the active stakers within the lifetime stakers: a new
/// active staker is always also a new lifetime staker.
pub proof fn lemma_deposit_keeps_staker_counts(
    v0: Vault,
    u0: UserInteractions,
    depositor_balance: u64,
    amount: u64,
    index: u32,
    now: u64,
    r: Result<u64, CornError>,
    v1: Vault,
    u1: UserInteractions,
)
    requires
        staker_counts_consistent(v0),
        deposit_step(v0, u0, depositor_balance, amount, index, now, r, v1, u1),
    ensures
        staker_counts_consistent(v1),
{
}

/// A withdrawal keeps the active stakers within the lifetime stakers: it
/// never adds an active staker nor removes a lifetime one.
pub proof fn lemma_withdraw_keeps_staker_counts(
    v0: Vault,
    u0: UserInteractions,
    index: u32,
    reward_only: bool,
    now: u64,
    r: Result<u64, CornError>,
    v1: Vault,
    u1: UserInteractions,
)
    requires
        staker_counts_consistent(v0),
        withdraw_step(v0, u0, index, reward_only, now, r, v1, u1),
    ensures
        staker_counts_consistent(v1),
{
}

/// A harvest before one full compounding interval has passed pays nothing,
/// keeps the principal and the amount staked, restarts the slot's reward
/// clock at `now`, and leaves the pool and the active stakers as they were.
pub proof fn lemma_early_harvest_pays_nothing(
    v0: Vault,
    u0: UserInteractions,
    index: u32,
    now: u64,
    r: Result<u64, CornError>,
    v1: Vault,
    u1: UserInteractions,
)
    requires
        withdraw_step(v0, u0, index, true, now, r, v1, u1),
        index < SLOT_COUNT,
        u0.total_deposits@[index as int] > 0,
        held_hours(elapsed_ms(now, u0.stake_deposits@[index as int]) as nat) < v0.base_hour,
    ensures
        r == Ok::<u64, CornError>(0),
        v1.amount_staked == v0.amount_staked,
        v1.amount == v0.amount,
        v1.current_stakers == v0.current_stakers,
        u1.total_deposits@ == u0.total_deposits@,
        u1.stake_deposits@[index as int] == now,
{
    let i = index as int;
    assert(u1.total_deposits@[i] != 0);
}

/// A full exit clears the slot's principal, deposit time and reward clock, and
/// a second full exit from the same slot is refused with `NoDeposits`.
pub proof fn lemma_full_exit_clears_slot(
    v0: Vault,
    u0: UserInteractions,
    index: u32,
    now: u64,
    moved: u64,
    v1: Vault,
    u1: UserInteractions,
    later: u64,
    r2: Result<u64, CornError>,
    v2: Vault,
    u2: UserInteractions,
)
    requires
        withdraw_step(v0, u0, index, false, now, Ok(moved), v1, u1),
        withdraw_step(v1, u1, index, false, later, r2, v2, u2),
    ensures
        u1.total_deposits@[index as int] == 0,
        u1.time_deposits@[index as int] == 0,
        u1.stake_deposits@[index as int] == 0,
        r2 == Err::<u64, CornError>(CornError::NoDeposits),
{
}

/// A harvest moves out only the gain that the pool pays, never principal, and
/// keeps the principal in its slot.
pub proof fn lemma_harvest_pays_only_gain(
    v0: Vault,
    u0: UserInteractions,
    index: u32,
    now: u64,
    moved: u64,
    v1: Vault,
    u1: UserInteractions,
)
    requires
        withdraw_step(v0, u0, index, true, now, Ok(moved), v1, u1),
    ensures
        moved == harvest_gain(v0, u0, index, now),
        v0.amount - v1.amount == moved,
        u1.total_deposits@ == u0.total_deposits@,
        v1.amount_staked == v0.amount_staked,
{
}

} // verus!
