//! Compounding reward computation.
use vstd::prelude::*;
use vstd::arithmetic::div_mod::{
    lemma_div_denominator,
    lemma_fundamental_div_mod,
    lemma_fundamental_div_mod_converse,
    lemma_hoist_over_denominator,
};

verus! {

/// Milliseconds in one hour.
pub const MS_PER_HOUR: u64 = 3_600_000;

/// Most whole hours that one evaluation compounds over.
pub const MAX_HELD_HOURS: u64 = 24;

/// `base_rate` is counted in millionths: a rate of `RATE_DENOMINATOR` doubles
/// the amount in each step while the pool stands at its starting size.
pub const RATE_DENOMINATOR: u64 = 1_000_000;

/// A natural number clipped to the range of `u64`.
pub open spec fn sat_u64(x: nat) -> u64 {
    if x > u64::MAX as nat {
        u64::MAX
    } else {
        x as u64
    }
}

/// Growth of `amount` in one compounding step: the step rate is
/// `base_rate / RATE_DENOMINATOR` scaled by the pool ratio
/// `vault_amount / start_pool`, and the growth is floored.
pub open spec fn step_gain(amount: nat, base_rate: nat, vault_amount: nat, start_pool: nat) -> nat {
    ((amount * base_rate * vault_amount) as int / (RATE_DENOMINATOR * start_pool) as int) as nat
}

/// `amount` after `steps` compounding steps, each floored.
pub open spec fn compound(amount: nat, steps: nat, base_rate: nat, vault_amount: nat, start_pool: nat) -> nat
    decreases steps,
{
    if steps == 0 {
        amount
    } else {
        let before = compound(amount, (steps - 1) as nat, base_rate, vault_amount, start_pool);
        before + step_gain(before, base_rate, vault_amount, start_pool)
    }
}

/// Whole hours in `elapsed_ms`, capped at `MAX_HELD_HOURS`.
pub open spec fn held_hours(elapsed_ms: nat) -> nat {
    let hours = elapsed_ms / (MS_PER_HOUR as nat);
    if hours < MAX_HELD_HOURS as nat {
        hours
    } else {
        MAX_HELD_HOURS as nat
    }
}

/// The new total of a stake of `amount` after `elapsed_ms`.
///
/// A degenerate vault (empty pool, no starting pool, or a zero interval) pays
/// nothing at all (`None`). Before one full interval of `base_hour` hours the
/// total is `0`. Otherwise the amount compounds once for each hour in
/// `1..=held_hours` that is a multiple of `base_hour`, and the total is clipped
/// to `u64`.
pub open spec fn reward_of(
    amount: u64,
    elapsed_ms: u64,
    base_hour: u64,
    base_rate: u32,
    vault_amount: u64,
    start_pool: u64,
) -> Option<u64> {
    if vault_amount == 0 || start_pool == 0 || base_hour == 0 {
        None
    } else if held_hours(elapsed_ms as nat) < base_hour {
        Some(0)
    } else {
        let steps = held_hours(elapsed_ms as nat) / (base_hour as nat);
        Some(sat_u64(compound(amount as nat, steps, base_rate as nat, vault_amount as nat, start_pool as nat)))
    }
}

proof fn lemma_split_product_over_divisor(x: int, v: int, s: int)
    requires
        x >= 0,
        v >= 0,
        s > 0,
    ensures
        (x * v) / s == (x / s) * v + ((x % s) * v) / s,
{
    lemma_fundamental_div_mod(x, s);
    let q = x / s;
    let r = x % s;
    assert(x * v == r * v + (q * v) * s) by (nonlinear_arith)
        requires
            x == s * q + r,
    ;
    lemma_hoist_over_denominator(r * v, q * v, s as nat);
}

proof fn lemma_hour_counts_multiples(hour: int, base_hour: int)
    requires
        hour >= 1,
        base_hour > 0,
    ensures
        hour / base_hour == (hour - 1) / base_hour + (if hour % base_hour == 0 { 1int } else { 0 }),
{
    let prev = hour - 1;
    lemma_fundamental_div_mod(prev, base_hour);
    let q = prev / base_hour;
    let r = prev % base_hour;
    if r + 1 < base_hour {
        assert(hour == q * base_hour + (r + 1)) by (nonlinear_arith)
            requires
                prev == base_hour * q + r,
                hour == prev + 1,
        ;
        lemma_fundamental_div_mod_converse(hour, base_hour, q, r + 1);
    } else {
        assert(hour == (q + 1) * base_hour + 0) by (nonlinear_arith)
            requires
                prev == base_hour * q + r,
                r + 1 == base_hour,
                hour == prev + 1,
        ;
        lemma_fundamental_div_mod_converse(hour, base_hour, q + 1, 0);
    }
}

proof fn lemma_saturated_step(c: nat, base_rate: nat, vault_amount: nat, start_pool: nat)
    ensures
        sat_u64(sat_u64(c) as nat + step_gain(sat_u64(c) as nat, base_rate, vault_amount, start_pool))
            == sat_u64(c + step_gain(c, base_rate, vault_amount, start_pool)),
{
}

/// One compounding step on a `u64` amount, clipped to `u64`.
fn compound_step(current: u64, base_rate: u32, vault_amount: u64, start_pool: u64) -> (r: u64)
    requires
        start_pool > 0,
    ensures
        r == sat_u64(current as nat + step_gain(current as nat, base_rate as nat, vault_amount as nat, start_pool as nat)),
{
    assert(current * base_rate <= u64::MAX * u32::MAX) by (nonlinear_arith)
        requires
            current <= u64::MAX,
            base_rate <= u32::MAX,
    ;
    let x: u128 = current as u128 * base_rate as u128;
    let s: u128 = start_pool as u128;
    let v: u128 = vault_amount as u128;
    let whole: u128 = x / s;
    let part: u128 = x % s;
    assert(part * v < 0x1_0000_0000_0000_0000_0000_0000_0000_0000) by (nonlinear_arith)
        requires
            part < s,
            s <= u64::MAX,
            v <= u64::MAX,
    ;
    let low: u128 = part * v / s;
    proof {
        lemma_split_product_over_divisor(x as int, v as int, s as int);
        lemma_div_denominator((x * v) as int, s as int, RATE_DENOMINATOR as int);
        assert(x * v == current * base_rate * vault_amount) by (nonlinear_arith)
            requires
                x == current * base_rate,
                v == vault_amount,
        ;
        assert(s * RATE_DENOMINATOR == RATE_DENOMINATOR * start_pool);
    }
    let ghost gain = step_gain(current as nat, base_rate as nat, vault_amount as nat, start_pool as nat);
    match whole.checked_mul(v) {
        None => {
            proof {
                assert((x * v) / (s as int) >= 0x1_0000_0000_0000_0000_0000_0000_0000_0000) by (nonlinear_arith)
                    requires
                        (x * v) / (s as int) == whole * v + (part * v) / (s as int),
                        whole * v > u128::MAX,
                        part * v >= 0,
                        s > 0,
                ;
            }
            u64::MAX
        },
        Some(high) => {
            match high.checked_add(low) {
                None => u64::MAX,
                Some(total) => {
                    let growth: u128 = total / RATE_DENOMINATOR as u128;
                    let sum: u128 = current as u128 + growth;
                    assert(sum == current + gain);
                    if sum > u64::MAX as u128 {
                        u64::MAX
                    } else {
                        sum as u64
                    }
                },
            }
        },
    }
}

/// Total that a stake of `amount` has grown to after `time_elapsed_ms`, or
/// `None` for a degenerate vault; see `reward_of`.
///
/// The arithmetic is exact on integers and rounds down after every step,
/// where a single rounding of the real product at the end would round only
/// once: the total can fall short of that by up to one unit per step (a stake
/// of 1_000_000_007 over 24 steps of 5% gives 3_225_099_948, not
/// 3_225_099_966).
pub fn calculate_reward(
    amount: u64,
    time_elapsed_ms: u64,
    base_hour: u64,
    base_rate: u32,
    vault_amount: u64,
    start_pool: u64,
) -> (r: Option<u64>)
    ensures
        r == reward_of(amount, time_elapsed_ms, base_hour, base_rate, vault_amount, start_pool),
{
    if vault_amount == 0 || start_pool == 0 || base_hour == 0 {
        return None;
    }
    let hours: u64 = time_elapsed_ms / MS_PER_HOUR;
    let held: u64 = if hours < MAX_HELD_HOURS {
        hours
    } else {
        MAX_HELD_HOURS
    };
    assert(held == held_hours(time_elapsed_ms as nat));
    if held < base_hour {
        return Some(0);
    }
    let mut current_amount: u64 = amount;
    let mut hour: u64 = 1;
    while hour <= held
        invariant
            1 <= hour <= held + 1,
            held <= MAX_HELD_HOURS,
            base_hour > 0,
            start_pool > 0,
            current_amount == sat_u64(
                compound(
                    amount as nat,
                    ((hour - 1) as nat / (base_hour as nat)) as nat,
                    base_rate as nat,
                    vault_amount as nat,
                    start_pool as nat,
                ),
            ),
        decreases held + 1 - hour,
    {
        proof {
            lemma_hour_counts_multiples(hour as int, base_hour as int);
        }
        if hour % base_hour == 0 {
            let ghost before = compound(
                amount as nat,
                ((hour - 1) as nat / (base_hour as nat)) as nat,
                base_rate as nat,
                vault_amount as nat,
                start_pool as nat,
            );
            proof {
                lemma_saturated_step(before, base_rate as nat, vault_amount as nat, start_pool as nat);
            }
            current_amount = compound_step(current_amount, base_rate, vault_amount, start_pool);
        }
        hour = hour + 1;
    }
    Some(current_amount)
}

proof fn lemma_compound_grows(amount: nat, fewer: nat, more: nat, base_rate: nat, vault_amount: nat, start_pool: nat)
    requires
        fewer <= more,
    ensures
        compound(amount, fewer, base_rate, vault_amount, start_pool)
            <= compound(amount, more, base_rate, vault_amount, start_pool),
    decreases more - fewer,
{
    if fewer < more {
        lemma_compound_grows(amount, fewer, (more - 1) as nat, base_rate, vault_amount, start_pool);
    }
}

/// However long a stake has been held, one evaluation compounds over at most
/// one day: any elapsed time of a day or more gives the same result as exactly
/// one day, and no result exceeds `MAX_HELD_HOURS` steps of growth.
pub proof fn lemma_reward_capped_at_one_day(
    amount: u64,
    elapsed_ms: u64,
    base_hour: u64,
    base_rate: u32,
    vault_amount: u64,
    start_pool: u64,
)
    ensures
        elapsed_ms >= MAX_HELD_HOURS * MS_PER_HOUR ==> reward_of(amount, elapsed_ms, base_hour, base_rate, vault_amount, start_pool)
            == reward_of(amount, (MAX_HELD_HOURS * MS_PER_HOUR) as u64, base_hour, base_rate, vault_amount, start_pool),
        forall|total: u64|
            reward_of(amount, elapsed_ms, base_hour, base_rate, vault_amount, start_pool) == Some(total) ==> total
                <= sat_u64(compound(amount as nat, MAX_HELD_HOURS as nat, base_rate as nat, vault_amount as nat, start_pool as nat)),
{
    if vault_amount != 0 && start_pool != 0 && base_hour != 0 {
        let held = held_hours(elapsed_ms as nat);
        let steps = held / (base_hour as nat);
        assert(steps <= held) by (nonlinear_arith)
            requires
                base_hour >= 1,
                steps == held / (base_hour as nat),
        ;
        lemma_compound_grows(amount as nat, steps, MAX_HELD_HOURS as nat, base_rate as nat, vault_amount as nat, start_pool as nat);
    }
}

} // verus!
