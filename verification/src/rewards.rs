//! The reward accrual engine: brings a user's pending reward and the pool's
//! remaining reward budget up to date as a function of elapsed time and the
//! current stake, and recomputes the emission rate when the pool is funded.

use crate::state::ErrorCode;
use crate::state::Pool;
use crate::state::User;
use vstd::prelude::*;

verus! {

/// Total reward notionally emitted per year, the base of the accrual formula.
pub const TOTAL_ANNUAL_REWARD: u64 = 2_100_000;

/// Fixed-point scale of the stored reward rate.
pub const PRECISION: u128 = 1_000_000_000;

/// Days per year, the final divisor of the accrual formula. The elapsed-time
/// variable it divides is measured in seconds; that mismatch is a known quirk
/// of the formula and is kept as it stands.
pub const DAYS_PER_YEAR: u64 = 365;

/// The divisor that stands in for the pool-wide stake, floored at one so an
/// empty pool never divides by zero.
pub open spec fn stake_denominator(total_staked: u64) -> u64 {
    if total_staked < 1 {
        1
    } else {
        total_staked
    }
}

/// The step multiplier applied to the base reward unit, by elapsed seconds
/// since the last update: exact at every tier boundary.
pub open spec fn tier_multiplier(elapsed: u64) -> u64 {
    if elapsed < 1 {
        0
    } else if elapsed < 4 {
        1
    } else if elapsed < 8 {
        2
    } else if elapsed < 16 {
        3
    } else {
        4
    }
}

/// The base reward unit:
/// `floor(TOTAL_ANNUAL_REWARD * balance_staked * elapsed / stake_denominator / DAYS_PER_YEAR)`.
pub open spec fn reward_unit(balance_staked: u64, elapsed: u64, total_staked: u64) -> int {
    TOTAL_ANNUAL_REWARD * balance_staked * elapsed / stake_denominator(total_staked) as int
        / DAYS_PER_YEAR as int
}

/// The reward unit with its tier multiplier applied, before capping at the
/// pool's remaining budget.
pub open spec fn reward_candidate(balance_staked: u64, elapsed: u64, total_staked: u64) -> int {
    reward_unit(balance_staked, elapsed, total_staked) * tier_multiplier(elapsed)
}

/// Whether the checked accrual arithmetic faults: one of the two products of
/// the base unit, the tier multiplication, or the final addition into the
/// pending counter leaves `u64`.
pub open spec fn accrual_overflows(
    balance_staked: u64,
    elapsed: u64,
    total_staked: u64,
    pending: u64,
    total_reward: u64,
) -> bool {
    ||| TOTAL_ANNUAL_REWARD * balance_staked > u64::MAX
    ||| TOTAL_ANNUAL_REWARD * balance_staked * elapsed > u64::MAX
    ||| reward_candidate(balance_staked, elapsed, total_staked) > u64::MAX
    ||| {
        let cand = reward_candidate(balance_staked, elapsed, total_staked);
        if total_reward > cand {
            pending + cand > u64::MAX
        } else {
            pending + total_reward > u64::MAX
        }
    }
}

/// The accrual step. A non-monotone clock reading or any overflow in the
/// checked reward math is a fatal `MathOverflow` rejection. Otherwise the
/// candidate reward is added to the user's pending counter and subtracted
/// from the pool's budget — or, when the budget no longer covers it, the
/// whole remaining budget is handed over and the budget reaches zero — and
/// the pool's update time advances to `now`.
pub open spec fn spec_accrue(pool: Pool, user: User, total_staked: u64, now: u64) -> Result<
    (Pool, User),
    ErrorCode,
> {
    if now < pool.last_update_time {
        Err(ErrorCode::MathOverflow)
    } else {
        let elapsed = (now - pool.last_update_time) as u64;
        if accrual_overflows(
            user.balance_staked,
            elapsed,
            total_staked,
            user.reward_a_per_token_pending,
            pool.total_reward,
        ) {
            Err(ErrorCode::MathOverflow)
        } else {
            let cand = reward_candidate(user.balance_staked, elapsed, total_staked);
            if pool.total_reward > cand {
                Ok(
                    (
                        Pool {
                            last_update_time: now,
                            total_reward: (pool.total_reward - cand) as u64,
                            ..pool
                        },
                        User {
                            reward_a_per_token_pending: (user.reward_a_per_token_pending
                                + cand) as u64,
                            ..user
                        },
                    ),
                )
            } else {
                Ok(
                    (
                        Pool { last_update_time: now, total_reward: 0, ..pool },
                        User {
                            reward_a_per_token_pending: (user.reward_a_per_token_pending
                                + pool.total_reward) as u64,
                            ..user
                        },
                    ),
                )
            }
        }
    }
}

/// Computes the accrual step without touching the records: on success,
/// the pool's new reward budget and the user's new pending counter.
pub(crate) fn accrue_compute(pool: &Pool, user: &User, total_staked: u64, now: u64) -> (r: Result<
    (u64, u64),
    ErrorCode,
>)
    ensures
        match spec_accrue(*pool, *user, total_staked, now) {
            Ok(pu) => r == Ok::<(u64, u64), ErrorCode>(
                (pu.0.total_reward, pu.1.reward_a_per_token_pending),
            ),
            Err(e) => r == Err::<(u64, u64), ErrorCode>(e),
        },
{
    if now < pool.last_update_time {
        return Err(ErrorCode::MathOverflow);
    }
    let elapsed: u64 = now - pool.last_update_time;
    let denom: u64 = if total_staked < 1 {
        1
    } else {
        total_staked
    };
    let p1: u64 = match TOTAL_ANNUAL_REWARD.checked_mul(user.balance_staked) {
        Some(v) => v,
        None => {
            return Err(ErrorCode::MathOverflow);
        },
    };
    let p2: u64 = match p1.checked_mul(elapsed) {
        Some(v) => v,
        None => {
            return Err(ErrorCode::MathOverflow);
        },
    };
    let unit: u64 = p2 / denom / DAYS_PER_YEAR;
    let m: u64 = if elapsed < 1 {
        0
    } else if elapsed < 4 {
        1
    } else if elapsed < 8 {
        2
    } else if elapsed < 16 {
        3
    } else {
        4
    };
    let cand: u64 = match unit.checked_mul(m) {
        Some(v) => v,
        None => {
            return Err(ErrorCode::MathOverflow);
        },
    };
    if pool.total_reward > cand {
        let pending: u64 = match user.reward_a_per_token_pending.checked_add(cand) {
            Some(v) => v,
            None => {
                return Err(ErrorCode::MathOverflow);
            },
        };
        Ok(((pool.total_reward - cand), pending))
    } else {
        let pending: u64 = match user.reward_a_per_token_pending.checked_add(pool.total_reward) {
            Some(v) => v,
            None => {
                return Err(ErrorCode::MathOverflow);
            },
        };
        Ok((0, pending))
    }
}

/// Brings the user's pending reward and the pool's budget and update time up
/// to date. `total_staked` is the pool-wide stake to divide by, passed by the
/// caller *before* any balance change of the enclosing operation. A rejection
/// leaves both records exactly as they were.
pub fn update_rewards(pool: &mut Pool, user: &mut User, total_staked: u64, now: u64) -> (r: Result<
    (),
    ErrorCode,
>)
    ensures
        match spec_accrue(*old(pool), *old(user), total_staked, now) {
            Ok(pu) => r is Ok && *final(pool) == pu.0 && *final(user) == pu.1,
            Err(e) => r == Err::<(), ErrorCode>(e) && *final(pool) == *old(pool) && *final(user)
                == *old(user),
        },
{
    let (new_total_reward, new_pending) = match accrue_compute(pool, user, total_staked, now) {
        Ok(v) => v,
        Err(e) => {
            return Err(e);
        },
    };
    pool.total_reward = new_total_reward;
    pool.last_update_time = now;
    user.reward_a_per_token_pending = new_pending;
    Ok(())
}

/// The rate the pool emits at after a funding of `amount`: the combined
/// remaining budget, scaled by `PRECISION`, spread evenly over one full
/// reward period.
pub open spec fn spec_rate_after_funding(pool: Pool, amount: u64) -> u128 {
    ((pool.total_reward + amount) * PRECISION / pool.reward_duration as int) as u128
}

/// Recomputes the emission rate for a funding of `amount`: the pool's
/// undistributed budget plus the new amount, scaled by `PRECISION` and spread
/// evenly over one full reward period. The scaled product always fits the
/// wide rate field, so no overflow can fault here.
pub fn rate_after_funding(pool: &Pool, amount: u64) -> (r: u128)
    requires
        pool.wf(),
    ensures
        r == spec_rate_after_funding(*pool, amount),
{
    let combined: u128 = pool.total_reward as u128 + amount as u128;
    assert(combined * PRECISION <= u128::MAX) by (nonlinear_arith)
        requires
            combined <= 0xFFFF_FFFF_FFFF_FFFFu128 + 0xFFFF_FFFF_FFFF_FFFFu128,
    ;
    let scaled: u128 = combined * PRECISION;
    scaled / (pool.reward_duration as u128)
}

} // verus!
