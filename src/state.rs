//! The vault's shared ledger, a depositor's stake slots, and the error kinds.
use vstd::prelude::*;

verus! {

/// Number of stake slots each depositor has against one vault.
pub const SLOT_COUNT: u32 = 5;

/// Smallest amount one deposit may lock.
pub const MIN_DEPOSIT: u64 = 100_000_000;

/// Largest amount one deposit may lock.
pub const MAX_DEPOSIT: u64 = 1_000_000_000_000_000_000;

/// Why an operation on the vault was refused. A refused operation changes
/// nothing.
#[derive(Clone, Copy, Debug, PartialEq, Eq, Structural)]
pub enum CornError {
    /// The slot holds no stake.
    NoDeposits,
    /// The amount is outside the accepted range.
    InvalidAmount,
    /// The slot index is not below `SLOT_COUNT`.
    OutOfRange,
    /// The vault has already been funded.
    AlreadyExists,
    /// The caller's balance does not cover the amount.
    InsufficientFunds,
    /// The slot already holds a stake.
    AlreadyStaked,
    /// The pool cannot pay the reward that is owed.
    EmptyVault,
    /// The clock gave a time that is not a count of seconds since the epoch;
    /// raised by the caller that reads the clock.
    TimeConversionError,
    /// A checked arithmetic step failed.
    MathOverflow,
}

/// The shared ledger of one asset's vault.
///
/// `amount` is the pool balance: principal and unspent reward together.
/// `base_rate` is the per-step reward rate in millionths (see
/// `reward::RATE_DENOMINATOR`) and `base_hour` the compounding interval in
/// hours.
#[derive(Clone, Copy, Debug, PartialEq, Eq)]
pub struct Vault {
    pub token: [u8; 32],
    pub amount: u64,
    pub amount_staked: u64,
    pub start_pool: u64,
    pub base_rate: u32,
    pub base_hour: u32,
    pub total_stakers: u64,
    pub current_stakers: u64,
}

/// One depositor's stake slots against one vault: for each slot its principal
/// (`0` when the slot is free), the time of the deposit, and the time from
/// which the next reward is measured.
#[derive(Clone, Copy, Debug, PartialEq, Eq)]
pub struct UserInteractions {
    pub total_deposits: [u64; 5],
    pub time_deposits: [u64; 5],
    pub stake_deposits: [u64; 5],
}

/// Every slot is free.
pub open spec fn slots_empty(principals: Seq<u64>) -> bool {
    forall|i: int| 0 <= i < principals.len() ==> principals[i] == 0
}

/// The vault holds at least what is staked in it.
pub open spec fn solvent(v: Vault) -> bool {
    v.amount_staked <= v.amount
}

/// No more depositors are active than ever deposited.
pub open spec fn staker_counts_consistent(v: Vault) -> bool {
    v.current_stakers <= v.total_stakers
}

impl Vault {
    /// A ledger that has not been funded yet.
    pub fn unfunded(token: [u8; 32]) -> (r: Vault)
        ensures
            r.token == token,
            r.amount == 0,
            r.amount_staked == 0,
            r.start_pool == 0,
            r.base_rate == 0,
            r.base_hour == 0,
            r.total_stakers == 0,
            r.current_stakers == 0,
    {
        Vault {
            token,
            amount: 0,
            amount_staked: 0,
            start_pool: 0,
            base_rate: 0,
            base_hour: 0,
            total_stakers: 0,
            current_stakers: 0,
        }
    }
}

impl UserInteractions {
    /// A depositor whose slots are all free.
    pub fn new() -> (r: UserInteractions)
        ensures
            r.total_deposits@ == seq![0u64, 0, 0, 0, 0],
            r.time_deposits@ == seq![0u64, 0, 0, 0, 0],
            r.stake_deposits@ == seq![0u64, 0, 0, 0, 0],
    {
        let r = UserInteractions { total_deposits: [0; 5], time_deposits: [0; 5], stake_deposits: [0; 5] };
        assert(r.total_deposits@ =~= seq![0u64, 0, 0, 0, 0]);
        assert(r.time_deposits@ =~= seq![0u64, 0, 0, 0, 0]);
        assert(r.stake_deposits@ =~= seq![0u64, 0, 0, 0, 0]);
        r
    }
}

/// Whether every slot is free.
pub fn all_slots_empty(principals: &[u64; 5]) -> (r: bool)
    ensures
        r == slots_empty(principals@),
{
    let mut i: usize = 0;
    while i < 5
        invariant
            i <= 5,
            principals@.len() == 5,
            forall|j: int| 0 <= j < i ==> principals@[j] == 0,
        decreases 5 - i,
    {
        if principals[i] != 0 {
            return false;
        }
        i = i + 1;
    }
    true
}

} // verus!
