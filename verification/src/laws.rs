//! The library-wide laws: how the pool's aggregate counters track the set
//! of user records, how the funder list round-trips, and the idempotence of
//! the rate migration.

use crate::funders::spec_authorize;
use crate::funders::spec_deauthorize;
use crate::lifecycle::spec_claim;
use crate::lifecycle::spec_deposit;
use crate::lifecycle::spec_fund;
use crate::lifecycle::spec_migrate;
use crate::lifecycle::spec_withdraw;
use crate::rewards::spec_accrue;
use crate::state::Address;
use crate::state::ErrorCode;
use crate::state::FunderList;
use crate::state::Pool;
use crate::state::User;
use vstd::prelude::*;

verus! {

/// The sum of `balance_staked` over a sequence of user records.
pub open spec fn sum_staked(users: Seq<User>) -> int
    decreases users.len(),
{
    if users.len() == 0 {
        0
    } else {
        sum_staked(users.drop_last()) + users.last().balance_staked
    }
}

/// Replacing one record changes the sum by exactly that record's change of
/// stake.
pub proof fn lemma_sum_staked_update(users: Seq<User>, i: int, u2: User)
    requires
        0 <= i < users.len(),
    ensures
        sum_staked(users.update(i, u2)) == sum_staked(users) - users[i].balance_staked
            + u2.balance_staked,
    decreases users.len(),
{
    let updated = users.update(i, u2);
    if i == users.len() - 1 {
        assert(updated.drop_last() =~= users.drop_last());
    } else {
        assert(updated.drop_last() =~= users.drop_last().update(i, u2));
        assert(updated.last() == users.last());
        lemma_sum_staked_update(users.drop_last(), i, u2);
    }
}

/// Appending a record grows the sum by its stake.
pub proof fn lemma_sum_staked_push(users: Seq<User>, u: User)
    ensures
        sum_staked(users.push(u)) == sum_staked(users) + u.balance_staked,
{
    assert(users.push(u).drop_last() =~= users);
}

/// Law: the pool's `total_staked` always equals the sum of all users'
/// `balance_staked`. Every operation either touches neither (the ensures of
/// `fund`, `claim`, `pause` and the rest leave both fields unchanged), or —
/// as `deposit` and `withdraw` ensure — moves the pool total and the one
/// touched user's stake by the same delta; replacing that user's record
/// then preserves the equality over the whole record set.
pub proof fn lemma_total_staked_invariant(
    users: Seq<User>,
    i: int,
    pool: Pool,
    pool2: Pool,
    u2: User,
)
    requires
        0 <= i < users.len(),
        pool.total_staked == sum_staked(users),
        pool2.total_staked - pool.total_staked == u2.balance_staked - users[i].balance_staked,
    ensures
        pool2.total_staked == sum_staked(users.update(i, u2)),
{
    lemma_sum_staked_update(users, i, u2);
}

/// Law: a successful deposit keeps the pool's `total_staked` equal to the
/// sum of all users' `balance_staked`: the pool total and the depositor's
/// record grow by the same amount.
pub proof fn lemma_deposit_preserves_stake_sum(
    users: Seq<User>,
    i: int,
    pool: Pool,
    amount: u64,
    now: u64,
)
    requires
        0 <= i < users.len(),
        pool.total_staked == sum_staked(users),
        spec_deposit(pool, users[i], amount, now) is Ok,
    ensures
        spec_deposit(pool, users[i], amount, now)->Ok_0.0.total_staked == sum_staked(
            users.update(i, spec_deposit(pool, users[i], amount, now)->Ok_0.1),
        ),
{
    let pu = spec_deposit(pool, users[i], amount, now)->Ok_0;
    lemma_sum_staked_update(users, i, pu.1);
}

/// Law: a successful withdrawal keeps the pool's `total_staked` equal to
/// the sum of all users' `balance_staked`: the pool total and the
/// withdrawing record shrink by the same amount.
pub proof fn lemma_withdraw_preserves_stake_sum(
    users: Seq<User>,
    i: int,
    pool: Pool,
    spt_amount: u64,
    now: u64,
)
    requires
        0 <= i < users.len(),
        pool.total_staked == sum_staked(users),
        spec_withdraw(pool, users[i], spt_amount, now) is Ok,
    ensures
        spec_withdraw(pool, users[i], spt_amount, now)->Ok_0.0.total_staked == sum_staked(
            users.update(i, spec_withdraw(pool, users[i], spt_amount, now)->Ok_0.1),
        ),
{
    let pu = spec_withdraw(pool, users[i], spt_amount, now)->Ok_0;
    lemma_sum_staked_update(users, i, pu.1);
}

/// Law: a claim never pays out more than the reward vault's balance at
/// call time, and never leaves the user's pending counter above zero.
pub proof fn lemma_claim_caps_payout(pool: Pool, user: User, reward_vault_balance: u64, now: u64)
    ensures
        spec_claim(pool, user, reward_vault_balance, now) matches Ok(puc) ==> puc.2
            <= reward_vault_balance && puc.1.reward_a_per_token_pending == 0,
{
}

/// Law: `user_stake_count` always equals the number of currently open user
/// records — creating a record increments the counter as the record set
/// grows by one. `create_user` ensures exactly that increment.
pub proof fn lemma_user_count_after_create(pool: Pool, pool2: Pool, users: Seq<User>, u: User)
    requires
        pool.user_stake_count == users.len(),
        pool2.user_stake_count == pool.user_stake_count + 1,
    ensures
        pool2.user_stake_count == users.push(u).len(),
{
}

/// Law: `user_stake_count` always equals the number of currently open user
/// records — closing a record decrements the counter as the record set
/// shrinks by one. `close_user` ensures exactly that decrement.
pub proof fn lemma_user_count_after_close(pool: Pool, pool2: Pool, users: Seq<User>, i: int)
    requires
        0 <= i < users.len(),
        pool.user_stake_count == users.len(),
        pool2.user_stake_count == pool.user_stake_count - 1,
    ensures
        pool2.user_stake_count == users.remove(i).len(),
{
}

/// Law: authorizing a funder and then immediately deauthorizing the same
/// address restores the funder list to exactly its prior state.
pub proof fn lemma_authorize_then_deauthorize(f: FunderList, authority: Address, a: Address)
    requires
        spec_authorize(f, authority, a) is Ok,
    ensures
        spec_deauthorize(spec_authorize(f, authority, a)->Ok_0, authority, a) == Ok::<
            FunderList,
            ErrorCode,
        >(f),
{
}

/// Law: the primary authority can never be added to the funder list, nor
/// removed from it through deauthorization.
pub proof fn lemma_authority_never_a_funder(f: FunderList, authority: Address)
    ensures
        spec_authorize(f, authority, authority) == Err::<FunderList, ErrorCode>(
            ErrorCode::FunderAlreadyAuthorized,
        ),
        spec_deauthorize(f, authority, authority) == Err::<FunderList, ErrorCode>(
            ErrorCode::CannotDeauthorizePoolAuthority,
        ),
{
}

/// The schedule invariant: the end of the funding period lies at most one
/// reward period past the last update. `initialize_pool` establishes it
/// (the period end starts at zero), and only `fund` moves the period end.
pub open spec fn schedule_wf(pool: Pool) -> bool {
    pool.reward_duration_end <= pool.last_update_time + pool.reward_duration
}

/// Law: the end of the funding period only advances forward via funding —
/// under a monotone clock, a successful fund never pulls it backward.
pub proof fn lemma_fund_advances_period_end(pool: Pool, funder: Address, amount_a: u64, now: u64)
    requires
        schedule_wf(pool),
        now >= pool.last_update_time,
        spec_fund(pool, funder, amount_a, now) is Ok,
    ensures
        spec_fund(pool, funder, amount_a, now)->Ok_0.reward_duration_end
            >= pool.reward_duration_end,
        schedule_wf(spec_fund(pool, funder, amount_a, now)->Ok_0),
{
}

/// The accrual step keeps the schedule invariant and does not move the
/// period end: its clock reading never precedes the last update.
pub proof fn lemma_accrue_keeps_schedule(pool: Pool, user: User, total_staked: u64, now: u64)
    requires
        schedule_wf(pool),
        spec_accrue(pool, user, total_staked, now) is Ok,
    ensures
        spec_accrue(pool, user, total_staked, now)->Ok_0.0.reward_duration_end
            == pool.reward_duration_end,
        schedule_wf(spec_accrue(pool, user, total_staked, now)->Ok_0.0),
{
}

/// Law: the rate migration is idempotent — migrating twice leaves exactly
/// the state of migrating once.
pub proof fn lemma_migrate_idempotent(pool: Pool)
    ensures
        spec_migrate(spec_migrate(pool)) == spec_migrate(pool),
{
}

} // verus!
