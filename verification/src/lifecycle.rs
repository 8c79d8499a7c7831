//! The lifecycle operations: initialize, user creation and closure,
//! pause/unpause, deposit/withdraw, fund, claim, vault sweep, rate
//! migration and pool close-out.
//!
//! Each operation validates its preconditions against the current records,
//! brings the reward bookkeeping up to date *before* any balance change,
//! then mutates the records and reports the transfer the caller must make.
//! A rejection of any kind leaves every record exactly as it was, so the
//! caller can treat an operation together with its transfer as one atomic
//! step: perform the transfer on success and otherwise discard nothing.

use crate::funders::is_authorized_funder;
use crate::rewards::accrue_compute;
use crate::rewards::rate_after_funding;
use crate::rewards::spec_accrue;
use crate::rewards::spec_rate_after_funding;
use crate::state::Address;
use crate::state::ErrorCode;
use crate::state::EventClaim;
use crate::state::EventDeposit;
use crate::state::EventFund;
use crate::state::EventWithdraw;
use crate::state::FunderList;
use crate::state::Pool;
use crate::state::User;
use crate::state::INITIAL_REWARD_BUDGET;
use crate::state::MIN_DURATION;
use vstd::prelude::*;

verus! {

/// The pool record `initialize_pool` creates: unpaused, empty, never funded,
/// with the initial reward budget and its clock set to `now`.
pub open spec fn spec_initial_pool(
    authority: Address,
    staking_mint: Address,
    staking_vault: Address,
    reward_a_mint: Address,
    reward_a_vault: Address,
    base_key: Address,
    pool_bump: u8,
    reward_duration: u64,
    now: u64,
) -> Pool {
    Pool {
        authority,
        paused: false,
        staking_mint,
        staking_vault,
        reward_a_mint,
        reward_a_vault,
        base_key,
        reward_duration,
        reward_duration_end: 0,
        last_update_time: now,
        reward_a_rate_legacy: 0,
        reward_a_per_token_stored: 0,
        user_stake_count: 0,
        funders: FunderList::empty_spec(),
        reward_a_rate_u128: 0,
        pool_bump: pool_bump,
        total_staked: 0,
        total_reward: INITIAL_REWARD_BUDGET,
    }
}

/// Creates a new pool. The reward period must be at least `MIN_DURATION`
/// seconds; the new pool starts unpaused, with nothing staked, no users, a
/// free funder list, the initial reward budget, and a funding period that
/// has never been opened.
pub fn initialize_pool(
    authority: Address,
    staking_mint: Address,
    staking_vault: Address,
    reward_a_mint: Address,
    reward_a_vault: Address,
    base_key: Address,
    pool_bump: u8,
    reward_duration: u64,
    now: u64,
) -> (r: Result<Pool, ErrorCode>)
    ensures
        reward_duration < MIN_DURATION ==> r == Err::<Pool, ErrorCode>(ErrorCode::DurationTooShort),
        reward_duration >= MIN_DURATION ==> r == Ok::<Pool, ErrorCode>(
            spec_initial_pool(
                authority,
                staking_mint,
                staking_vault,
                reward_a_mint,
                reward_a_vault,
                base_key,
                pool_bump,
                reward_duration,
                now,
            ),
        ),
        r matches Ok(p) ==> p.wf(),
{
    if reward_duration < MIN_DURATION {
        return Err(ErrorCode::DurationTooShort);
    }
    Ok(
        Pool {
            authority,
            paused: false,
            staking_mint,
            staking_vault,
            reward_a_mint,
            reward_a_vault,
            base_key,
            reward_duration,
            reward_duration_end: 0,
            last_update_time: now,
            reward_a_rate_legacy: 0,
            reward_a_per_token_stored: 0,
            user_stake_count: 0,
            funders: FunderList::empty(),
            reward_a_rate_u128: 0,
            pool_bump,
            total_staked: 0,
            total_reward: INITIAL_REWARD_BUDGET,
        },
    )
}

/// What `create_user` rejects: a paused pool, or a user counter that can no
/// longer be incremented.
pub open spec fn spec_create_user_err(pool: Pool) -> Option<ErrorCode> {
    if pool.paused {
        Some(ErrorCode::PoolPaused)
    } else if pool.user_stake_count + 1 > u32::MAX {
        Some(ErrorCode::MathOverflow)
    } else {
        None
    }
}

/// Opens a zeroed user record for `owner` at the derived `user_address` and
/// counts it in the pool. Rejected while the pool is paused; a rejection
/// changes nothing.
pub fn create_user(pool: &mut Pool, user_address: Address, owner: Address, nonce: u8) -> (r: Result<
    User,
    ErrorCode,
>)
    ensures
        match spec_create_user_err(*old(pool)) {
            Some(e) => r == Err::<User, ErrorCode>(e) && *final(pool) == *old(pool),
            None => r == Ok::<User, ErrorCode>(
                User {
                    pool: user_address,
                    owner,
                    reward_a_per_token_complete: 0,
                    reward_a_per_token_pending: 0,
                    balance_staked: 0,
                    nonce,
                },
            ) && *final(pool) == Pool {
                user_stake_count: (old(pool).user_stake_count + 1) as u32,
                ..*old(pool)
            },
        },
        r is Ok ==> final(pool).user_stake_count == old(pool).user_stake_count + 1,
{
    if pool.paused {
        return Err(ErrorCode::PoolPaused);
    }
    let new_count: u32 = match pool.user_stake_count.checked_add(1) {
        Some(v) => v,
        None => {
            return Err(ErrorCode::MathOverflow);
        },
    };
    pool.user_stake_count = new_count;
    Ok(
        User {
            pool: user_address,
            owner,
            reward_a_per_token_complete: 0,
            reward_a_per_token_pending: 0,
            balance_staked: 0,
            nonce,
        },
    )
}

/// What `pause` rejects: a caller other than the authority, a pool already
/// paused, or a funding period that is still running or was never opened.
pub open spec fn spec_pause_err(pool: Pool, caller: Address, now: u64) -> Option<ErrorCode> {
    if caller != pool.authority {
        Some(ErrorCode::Unauthorized)
    } else if pool.paused {
        Some(ErrorCode::PoolPaused)
    } else if !(pool.reward_duration_end < now && pool.reward_duration_end > 0) {
        Some(ErrorCode::RewardPeriodNotEnded)
    } else {
        None
    }
}

/// Admin-only: pauses the pool. Allowed only once the pool has been funded
/// to completion: the funding period must have been opened and have elapsed.
pub fn pause(pool: &mut Pool, caller: Address, now: u64) -> (r: Result<(), ErrorCode>)
    ensures
        match spec_pause_err(*old(pool), caller, now) {
            Some(e) => r == Err::<(), ErrorCode>(e) && *final(pool) == *old(pool),
            None => r is Ok && *final(pool) == Pool { paused: true, ..*old(pool) },
        },
{
    if !(caller == pool.authority) {
        return Err(ErrorCode::Unauthorized);
    }
    if pool.paused {
        return Err(ErrorCode::PoolPaused);
    }
    if !(pool.reward_duration_end < now && pool.reward_duration_end > 0) {
        return Err(ErrorCode::RewardPeriodNotEnded);
    }
    pool.paused = true;
    Ok(())
}

/// Admin-only: unpauses a paused pool, allowing deposits, user creation and
/// funding again.
pub fn unpause(pool: &mut Pool, caller: Address) -> (r: Result<(), ErrorCode>)
    ensures
        caller != old(pool).authority ==> r == Err::<(), ErrorCode>(ErrorCode::Unauthorized)
            && *final(pool) == *old(pool),
        caller == old(pool).authority && !old(pool).paused ==> r == Err::<(), ErrorCode>(
            ErrorCode::PoolNotPaused,
        ) && *final(pool) == *old(pool),
        caller == old(pool).authority && old(pool).paused ==> r is Ok && *final(pool) == (Pool {
            paused: false,
            ..*old(pool)
        }),
{
    if !(caller == pool.authority) {
        return Err(ErrorCode::Unauthorized);
    }
    if !pool.paused {
        return Err(ErrorCode::PoolNotPaused);
    }
    pool.paused = false;
    Ok(())
}

/// The deposit step: rejected for a zero amount or a paused pool; otherwise
/// the accrual step runs with the pre-deposit stake total, and then both the
/// user's stake and the pool's total grow by `amount` under checked
/// arithmetic.
pub open spec fn spec_deposit(pool: Pool, user: User, amount: u64, now: u64) -> Result<
    (Pool, User),
    ErrorCode,
> {
    if amount == 0 {
        Err(ErrorCode::AmountMustBeGreaterThanZero)
    } else if pool.paused {
        Err(ErrorCode::PoolPaused)
    } else {
        match spec_accrue(pool, user, pool.total_staked, now) {
            Err(e) => Err(e),
            Ok(pu) => {
                if pu.1.balance_staked + amount > u64::MAX || pu.0.total_staked + amount
                    > u64::MAX {
                    Err(ErrorCode::MathOverflow)
                } else {
                    Ok(
                        (
                            Pool { total_staked: (pu.0.total_staked + amount) as u64, ..pu.0 },
                            User { balance_staked: (pu.1.balance_staked + amount) as u64, ..pu.1 },
                        ),
                    )
                }
            },
        }
    }
}

/// Deposits `amount` staking tokens: the user's stake and the pool's total
/// grow together. On success the caller must transfer `amount` from the
/// depositor's source into the staking vault, authorized by the depositor,
/// and commit; a rejection changes nothing.
pub fn deposit(pool: &mut Pool, user: &mut User, amount: u64, now: u64) -> (r: Result<
    EventDeposit,
    ErrorCode,
>)
    ensures
        match spec_deposit(*old(pool), *old(user), amount, now) {
            Ok(pu) => r == Ok::<EventDeposit, ErrorCode>(EventDeposit { amount }) && *final(pool)
                == pu.0 && *final(user) == pu.1,
            Err(e) => r == Err::<EventDeposit, ErrorCode>(e) && *final(pool) == *old(pool)
                && *final(user) == *old(user),
        },
        r is Ok ==> final(pool).total_staked - old(pool).total_staked
            == final(user).balance_staked - old(user).balance_staked,
{
    if amount == 0 {
        return Err(ErrorCode::AmountMustBeGreaterThanZero);
    }
    if pool.paused {
        return Err(ErrorCode::PoolPaused);
    }
    let (new_total_reward, new_pending) = match accrue_compute(pool, user, pool.total_staked, now) {
        Ok(v) => v,
        Err(e) => {
            return Err(e);
        },
    };
    let new_balance: u64 = match user.balance_staked.checked_add(amount) {
        Some(v) => v,
        None => {
            return Err(ErrorCode::MathOverflow);
        },
    };
    let new_total_staked: u64 = match pool.total_staked.checked_add(amount) {
        Some(v) => v,
        None => {
            return Err(ErrorCode::MathOverflow);
        },
    };
    pool.total_reward = new_total_reward;
    pool.last_update_time = now;
    pool.total_staked = new_total_staked;
    user.reward_a_per_token_pending = new_pending;
    user.balance_staked = new_balance;
    Ok(EventDeposit { amount })
}

/// The withdraw step: rejected for a zero amount or one exceeding the
/// user's stake; otherwise the accrual step runs with the pre-withdraw
/// stake total, and then both balances shrink by `spt_amount` under checked
/// arithmetic.
pub open spec fn spec_withdraw(pool: Pool, user: User, spt_amount: u64, now: u64) -> Result<
    (Pool, User),
    ErrorCode,
> {
    if spt_amount == 0 {
        Err(ErrorCode::AmountMustBeGreaterThanZero)
    } else if user.balance_staked < spt_amount {
        Err(ErrorCode::InsufficientFundWithdraw)
    } else {
        match spec_accrue(pool, user, pool.total_staked, now) {
            Err(e) => Err(e),
            Ok(pu) => {
                if pu.0.total_staked < spt_amount {
                    Err(ErrorCode::MathOverflow)
                } else {
                    Ok(
                        (
                            Pool { total_staked: (pu.0.total_staked - spt_amount) as u64, ..pu.0 },
                            User {
                                balance_staked: (pu.1.balance_staked - spt_amount) as u64,
                                ..pu.1
                            },
                        ),
                    )
                }
            },
        }
    }
}

/// Withdraws `spt_amount` staking tokens: the user's stake and the pool's
/// total shrink together. On success the caller must transfer `spt_amount`
/// out of the staking vault to the user's destination, authorized by the
/// pool's derived authority, and commit; a rejection changes nothing.
pub fn withdraw(pool: &mut Pool, user: &mut User, spt_amount: u64, now: u64) -> (r: Result<
    EventWithdraw,
    ErrorCode,
>)
    ensures
        match spec_withdraw(*old(pool), *old(user), spt_amount, now) {
            Ok(pu) => r == Ok::<EventWithdraw, ErrorCode>(EventWithdraw { amount: spt_amount })
                && *final(pool) == pu.0 && *final(user) == pu.1,
            Err(e) => r == Err::<EventWithdraw, ErrorCode>(e) && *final(pool) == *old(pool)
                && *final(user) == *old(user),
        },
        r is Ok ==> final(pool).total_staked - old(pool).total_staked
            == final(user).balance_staked - old(user).balance_staked,
{
    if spt_amount == 0 {
        return Err(ErrorCode::AmountMustBeGreaterThanZero);
    }
    if user.balance_staked < spt_amount {
        return Err(ErrorCode::InsufficientFundWithdraw);
    }
    let (new_total_reward, new_pending) = match accrue_compute(pool, user, pool.total_staked, now) {
        Ok(v) => v,
        Err(e) => {
            return Err(e);
        },
    };
    if pool.total_staked < spt_amount {
        return Err(ErrorCode::MathOverflow);
    }
    let new_balance: u64 = user.balance_staked - spt_amount;
    let new_total_staked: u64 = pool.total_staked - spt_amount;
    pool.total_reward = new_total_reward;
    pool.last_update_time = now;
    pool.total_staked = new_total_staked;
    user.reward_a_per_token_pending = new_pending;
    user.balance_staked = new_balance;
    Ok(EventWithdraw { amount: spt_amount })
}

/// The funding step: rejected for a paused pool or an unauthorized funder;
/// otherwise the rate is recomputed over the combined budget, the funding
/// period restarts for one full duration from `now`, and the amount joins
/// the reward budget under checked arithmetic. The narrow legacy rate
/// mirror is rewritten only when the new rate fits it.
pub open spec fn spec_fund(pool: Pool, funder: Address, amount_a: u64, now: u64) -> Result<
    Pool,
    ErrorCode,
> {
    if pool.paused {
        Err(ErrorCode::PoolPaused)
    } else if !is_authorized_funder(pool, funder) {
        Err(ErrorCode::Unauthorized)
    } else if now + pool.reward_duration > u64::MAX || pool.total_reward + amount_a > u64::MAX {
        Err(ErrorCode::MathOverflow)
    } else {
        let rate = spec_rate_after_funding(pool, amount_a);
        Ok(
            Pool {
                reward_a_rate_u128: rate,
                reward_a_rate_legacy: if rate <= u64::MAX {
                    rate as u64
                } else {
                    pool.reward_a_rate_legacy
                },
                last_update_time: now,
                reward_duration_end: (now + pool.reward_duration) as u64,
                total_reward: (pool.total_reward + amount_a) as u64,
                ..pool
            },
        )
    }
}

/// Funds the pool with `amount_a` reward tokens and restarts the funding
/// period: the emission rate is recomputed so the combined remaining budget
/// distributes evenly over one full reward period. The accrual step runs
/// with no user here, which touches nothing. On success the caller
/// must transfer `amount_a` from the funder's source into the reward vault
/// (nothing when it is zero), authorized by the funder, and commit; a
/// rejection changes nothing.
pub fn fund(pool: &mut Pool, funder: Address, amount_a: u64, now: u64) -> (r: Result<
    EventFund,
    ErrorCode,
>)
    requires
        old(pool).wf(),
    ensures
        match spec_fund(*old(pool), funder, amount_a, now) {
            Ok(p2) => r == Ok::<EventFund, ErrorCode>(EventFund { amount_a }) && *final(pool) == p2,
            Err(e) => r == Err::<EventFund, ErrorCode>(e) && *final(pool) == *old(pool),
        },
{
    if pool.paused {
        return Err(ErrorCode::PoolPaused);
    }
    if !(funder == pool.authority || pool.funders.s0 == funder || pool.funders.s1 == funder
        || pool.funders.s2 == funder) {
        return Err(ErrorCode::Unauthorized);
    }
    let new_end: u64 = match now.checked_add(pool.reward_duration) {
        Some(v) => v,
        None => {
            return Err(ErrorCode::MathOverflow);
        },
    };
    let new_total_reward: u64 = match pool.total_reward.checked_add(amount_a) {
        Some(v) => v,
        None => {
            return Err(ErrorCode::MathOverflow);
        },
    };
    let rate: u128 = rate_after_funding(pool, amount_a);
    pool.reward_a_rate_u128 = rate;
    if rate <= u64::MAX as u128 {
        pool.reward_a_rate_legacy = rate as u64;
    }
    pool.last_update_time = now;
    pool.reward_duration_end = new_end;
    pool.total_reward = new_total_reward;
    Ok(EventFund { amount_a })
}

/// The claim step: the accrual step runs first; then whatever is pending is
/// paid out, capped at the reward vault's balance, and the pending counter
/// is zeroed unconditionally — a shortfall against an underfunded vault is
/// discarded, not kept pending.
pub open spec fn spec_claim(pool: Pool, user: User, reward_vault_balance: u64, now: u64) -> Result<
    (Pool, User, u64),
    ErrorCode,
> {
    match spec_accrue(pool, user, pool.total_staked, now) {
        Err(e) => Err(e),
        Ok(pu) => {
            let pending = pu.1.reward_a_per_token_pending;
            let payable = if pending > reward_vault_balance {
                reward_vault_balance
            } else {
                pending
            };
            Ok((pu.0, User { reward_a_per_token_pending: 0, ..pu.1 }, payable))
        },
    }
}

/// Claims the user's pending reward. The payout never exceeds the reward
/// vault's balance at call time, and the pending counter never grows: it is
/// zero after every successful claim. On success the caller must transfer
/// the event's amount from the reward vault to the user's destination
/// (nothing when it is zero), authorized by the pool's derived authority,
/// and commit; a rejection changes nothing.
pub fn claim(pool: &mut Pool, user: &mut User, reward_vault_balance: u64, now: u64) -> (r: Result<
    EventClaim,
    ErrorCode,
>)
    ensures
        match spec_claim(*old(pool), *old(user), reward_vault_balance, now) {
            Ok(puc) => r == Ok::<EventClaim, ErrorCode>(EventClaim { amount_a: puc.2 })
                && *final(pool) == puc.0 && *final(user) == puc.1,
            Err(e) => r == Err::<EventClaim, ErrorCode>(e) && *final(pool) == *old(pool)
                && *final(user) == *old(user),
        },
        r matches Ok(ev) ==> ev.amount_a <= reward_vault_balance
            && final(user).reward_a_per_token_pending == 0,
{
    let (new_total_reward, new_pending) = match accrue_compute(pool, user, pool.total_staked, now) {
        Ok(v) => v,
        Err(e) => {
            return Err(e);
        },
    };
    pool.total_reward = new_total_reward;
    pool.last_update_time = now;
    let payable: u64 = if new_pending > reward_vault_balance {
        reward_vault_balance
    } else {
        new_pending
    };
    user.reward_a_per_token_pending = 0;
    Ok(EventClaim { amount_a: payable })
}

/// What `withdraw_extra_token` rejects, and the sweepable excess otherwise.
pub open spec fn spec_withdraw_extra(
    pool: Pool,
    caller: Address,
    staking_vault_balance: u64,
    now: u64,
) -> Result<u64, ErrorCode> {
    if caller != pool.authority {
        Err(ErrorCode::Unauthorized)
    } else if !(pool.reward_duration_end < now) {
        Err(ErrorCode::RewardPeriodNotEnded)
    } else if staking_vault_balance < pool.total_staked {
        Err(ErrorCode::MathOverflow)
    } else {
        Ok((staking_vault_balance - pool.total_staked) as u64)
    }
}

/// Admin-only sweep of tokens mistakenly sent straight to the staking
/// vault: the excess of the vault's balance over the recorded stake. A
/// vault short of the recorded stake is a fatal arithmetic rejection. On
/// success the caller must transfer the returned excess (nothing when it is
/// zero) out of the staking vault to the admin-designated destination,
/// authorized by the pool's derived authority.
pub fn withdraw_extra_token(
    pool: &Pool,
    caller: Address,
    staking_vault_balance: u64,
    now: u64,
) -> (r: Result<u64, ErrorCode>)
    ensures
        r == spec_withdraw_extra(*pool, caller, staking_vault_balance, now),
        r matches Ok(excess) ==> staking_vault_balance - excess == pool.total_staked,
{
    if !(caller == pool.authority) {
        return Err(ErrorCode::Unauthorized);
    }
    if !(pool.reward_duration_end < now) {
        return Err(ErrorCode::RewardPeriodNotEnded);
    }
    match staking_vault_balance.checked_sub(pool.total_staked) {
        Some(v) => Ok(v),
        None => Err(ErrorCode::MathOverflow),
    }
}

/// What `close_user` rejects: a caller other than the record's owner, a
/// record still holding stake or pending reward, or a user counter that
/// would go negative.
pub open spec fn spec_close_user_err(pool: Pool, user: User, caller: Address) -> Option<ErrorCode> {
    if caller != user.owner {
        Some(ErrorCode::Unauthorized)
    } else if user.balance_staked != 0 || user.reward_a_per_token_pending != 0 {
        Some(ErrorCode::UserNotEmpty)
    } else if pool.user_stake_count == 0 {
        Some(ErrorCode::MathOverflow)
    } else {
        None
    }
}

/// Closes a user record: allowed only for its owner and only once nothing
/// is staked and no reward is pending. The pool stops counting the record;
/// destroying it and refunding its storage to the owner is the caller's
/// step on success.
pub fn close_user(pool: &mut Pool, user: &User, caller: Address) -> (r: Result<(), ErrorCode>)
    ensures
        match spec_close_user_err(*old(pool), *user, caller) {
            Some(e) => r == Err::<(), ErrorCode>(e) && *final(pool) == *old(pool),
            None => r is Ok && *final(pool) == Pool {
                user_stake_count: (old(pool).user_stake_count - 1) as u32,
                ..*old(pool)
            },
        },
        r is Ok ==> final(pool).user_stake_count == old(pool).user_stake_count - 1,
{
    if !(caller == user.owner) {
        return Err(ErrorCode::Unauthorized);
    }
    if user.balance_staked != 0 || user.reward_a_per_token_pending != 0 {
        return Err(ErrorCode::UserNotEmpty);
    }
    let new_count: u32 = match pool.user_stake_count.checked_sub(1) {
        Some(v) => v,
        None => {
            return Err(ErrorCode::MathOverflow);
        },
    };
    pool.user_stake_count = new_count;
    Ok(())
}

/// The one-time rate migration: when the wide rate field is unset but the
/// narrow legacy mirror is not, the legacy value is carried forward;
/// otherwise nothing changes. Idempotent.
pub open spec fn spec_migrate(pool: Pool) -> Pool {
    if pool.reward_a_rate_u128 == 0 && pool.reward_a_rate_legacy != 0 {
        Pool { reward_a_rate_u128: pool.reward_a_rate_legacy as u128, ..pool }
    } else {
        pool
    }
}

/// Callable by anyone: carries the narrow legacy rate mirror forward into
/// the wide rate field when only the mirror is set. A second call is a
/// no-op.
pub fn migrate_farming_rate(pool: &mut Pool) -> (r: Result<(), ErrorCode>)
    ensures
        r is Ok,
        *final(pool) == spec_migrate(*old(pool)),
{
    if pool.reward_a_rate_u128 == 0 && pool.reward_a_rate_legacy != 0 {
        pool.reward_a_rate_u128 = pool.reward_a_rate_legacy as u128;
    }
    Ok(())
}

/// The transfers that settle a pool close-out: each vault is drained in
/// full to its refund destination.
#[derive(Clone, Copy, PartialEq, Eq, Structural, Debug)]
pub struct PoolCloseout {
    /// Amount leaving the staking vault (always zero: the sweep must have
    /// emptied it first).
    pub staking_refund: u64,
    /// Amount leaving the reward vault.
    pub reward_refund: u64,
}

/// What `close_pool` rejects: a caller other than the authority, an
/// unpaused pool, a funding period still running or never opened, open user
/// records, or a staking vault not yet swept empty.
pub open spec fn spec_close_pool_err(
    pool: Pool,
    caller: Address,
    staking_vault_balance: u64,
    now: u64,
) -> Option<ErrorCode> {
    if caller != pool.authority {
        Some(ErrorCode::Unauthorized)
    } else if !pool.paused {
        Some(ErrorCode::PoolNotPaused)
    } else if !(pool.reward_duration_end > 0 && pool.reward_duration_end < now) {
        Some(ErrorCode::RewardPeriodNotEnded)
    } else if pool.user_stake_count != 0 {
        Some(ErrorCode::PoolNotEmpty)
    } else if staking_vault_balance != 0 {
        Some(ErrorCode::StakingVaultNotEmpty)
    } else {
        None
    }
}

/// Admin-only close-out of a pool: allowed only when the pool is paused,
/// its funding period was opened and has elapsed, no user records remain,
/// and the staking vault was swept empty. On success the caller must drain
/// both vaults in full to the refund destinations — zeroing them — then
/// destroy the vaults and the pool record, refunding their storage.
pub fn close_pool(
    pool: &Pool,
    caller: Address,
    staking_vault_balance: u64,
    reward_vault_balance: u64,
    now: u64,
) -> (r: Result<PoolCloseout, ErrorCode>)
    ensures
        match spec_close_pool_err(*pool, caller, staking_vault_balance, now) {
            Some(e) => r == Err::<PoolCloseout, ErrorCode>(e),
            None => r == Ok::<PoolCloseout, ErrorCode>(
                PoolCloseout {
                    staking_refund: staking_vault_balance,
                    reward_refund: reward_vault_balance,
                },
            ),
        },
        pool.user_stake_count > 0 || !pool.paused || pool.reward_duration_end >= now
            || pool.reward_duration_end == 0 ==> r is Err,
        r matches Ok(c) ==> c.staking_refund == staking_vault_balance && c.reward_refund
            == reward_vault_balance,
{
    if !(caller == pool.authority) {
        return Err(ErrorCode::Unauthorized);
    }
    if !pool.paused {
        return Err(ErrorCode::PoolNotPaused);
    }
    if !(pool.reward_duration_end > 0 && pool.reward_duration_end < now) {
        return Err(ErrorCode::RewardPeriodNotEnded);
    }
    if pool.user_stake_count != 0 {
        return Err(ErrorCode::PoolNotEmpty);
    }
    if staking_vault_balance != 0 {
        return Err(ErrorCode::StakingVaultNotEmpty);
    }
    Ok(PoolCloseout { staking_refund: staking_vault_balance, reward_refund: reward_vault_balance })
}

/// Administrative top-up of the pool's reward accounting alone: adds
/// `charge_amount` to the undistributed budget without any vault transfer.
pub fn charge_reward(pool: &mut Pool, charge_amount: u64) -> (r: Result<(), ErrorCode>)
    ensures
        old(pool).total_reward + charge_amount > u64::MAX ==> r == Err::<(), ErrorCode>(
            ErrorCode::MathOverflow,
        ) && *final(pool) == *old(pool),
        old(pool).total_reward + charge_amount <= u64::MAX ==> r is Ok && *final(pool) == (Pool {
            total_reward: (old(pool).total_reward + charge_amount) as u64,
            ..*old(pool)
        }),
{
    let new_total_reward: u64 = match pool.total_reward.checked_add(charge_amount) {
        Some(v) => v,
        None => {
            return Err(ErrorCode::MathOverflow);
        },
    };
    pool.total_reward = new_total_reward;
    Ok(())
}

/// Read-only: the undistributed reward budget remaining in the pool's
/// accounting.
pub fn remaining_reward(pool: &Pool) -> (r: u64)
    ensures
        r == pool.total_reward,
{
    pool.total_reward
}

} // verus!
