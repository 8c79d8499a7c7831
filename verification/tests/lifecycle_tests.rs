//! Tests of the lifecycle operations: initialization, user records,
//! pause/unpause, deposit/withdraw, funding, claims, the vault sweep, rate
//! migration and pool close-out.

use farming::lifecycle::charge_reward;
use farming::lifecycle::claim;
use farming::lifecycle::close_pool;
use farming::lifecycle::close_user;
use farming::lifecycle::create_user;
use farming::lifecycle::deposit;
use farming::lifecycle::fund;
use farming::lifecycle::initialize_pool;
use farming::lifecycle::migrate_farming_rate;
use farming::lifecycle::pause;
use farming::lifecycle::remaining_reward;
use farming::lifecycle::unpause;
use farming::lifecycle::withdraw;
use farming::lifecycle::withdraw_extra_token;
use farming::Address;
use farming::ErrorCode;
use farming::Pool;
use farming::User;

fn addr(tag: u64) -> Address {
    Address { w0: tag, w1: 0, w2: 0, w3: 0 }
}

fn admin() -> Address {
    addr(1)
}

fn fresh_pool(now: u64) -> Pool {
    initialize_pool(
        admin(),
        addr(2),
        addr(3),
        addr(4),
        addr(5),
        addr(6),
        255,
        100,
        now,
    )
    .unwrap()
}

fn open_user(pool: &mut Pool, owner: Address) -> User {
    create_user(pool, addr(90), owner, 253).unwrap()
}

#[test]
fn test_initialize_pool_fields() {
    let pool = fresh_pool(42);
    assert_eq!(pool.authority, admin());
    assert!(!pool.paused);
    assert_eq!(pool.staking_mint, addr(2));
    assert_eq!(pool.staking_vault, addr(3));
    assert_eq!(pool.reward_a_mint, addr(4));
    assert_eq!(pool.reward_a_vault, addr(5));
    assert_eq!(pool.base_key, addr(6));
    assert_eq!(pool.reward_duration, 100);
    assert_eq!(pool.reward_duration_end, 0);
    assert_eq!(pool.last_update_time, 42);
    assert_eq!(pool.reward_a_rate_legacy, 0);
    assert_eq!(pool.reward_a_rate_u128, 0);
    assert_eq!(pool.user_stake_count, 0);
    assert_eq!(pool.total_staked, 0);
    assert_eq!(pool.total_reward, 2_100_000);
    assert_eq!(pool.pool_bump, 255);
    let zero = Address { w0: 0, w1: 0, w2: 0, w3: 0 };
    assert_eq!(pool.funders.s0, zero);
    assert_eq!(pool.funders.s1, zero);
    assert_eq!(pool.funders.s2, zero);
}

#[test]
fn test_initialize_pool_duration_too_short() {
    let r = initialize_pool(
        admin(),
        addr(2),
        addr(3),
        addr(4),
        addr(5),
        addr(6),
        255,
        0,
        42,
    );
    assert_eq!(r, Err(ErrorCode::DurationTooShort));
}

#[test]
fn test_create_user_counts_and_zeroes() {
    let mut pool = fresh_pool(0);
    let user = create_user(&mut pool, addr(90), addr(9), 253).unwrap();
    assert_eq!(pool.user_stake_count, 1);
    assert_eq!(user.pool, addr(90));
    assert_eq!(user.owner, addr(9));
    assert_eq!(user.balance_staked, 0);
    assert_eq!(user.reward_a_per_token_pending, 0);
    assert_eq!(user.reward_a_per_token_complete, 0);
    assert_eq!(user.nonce, 253);
}

#[test]
fn test_create_user_rejected_when_paused() {
    let mut pool = fresh_pool(0);
    pool.paused = true;
    let r = create_user(&mut pool, addr(90), addr(9), 253);
    assert_eq!(r, Err(ErrorCode::PoolPaused));
    assert_eq!(pool.user_stake_count, 0);
}

#[test]
fn test_deposit_zero_amount_rejected() {
    let mut pool = fresh_pool(0);
    let mut user = open_user(&mut pool, addr(9));
    let r = deposit(&mut pool, &mut user, 0, 5);
    assert_eq!(r, Err(ErrorCode::AmountMustBeGreaterThanZero));
}

#[test]
fn test_deposit_paused_rejected() {
    let mut pool = fresh_pool(0);
    let mut user = open_user(&mut pool, addr(9));
    pool.paused = true;
    let before = pool;
    let r = deposit(&mut pool, &mut user, 10, 5);
    assert_eq!(r, Err(ErrorCode::PoolPaused));
    assert_eq!(pool, before);
}

#[test]
fn test_deposit_withdraw_tracks_total_staked() {
    // The pool's total always equals the sum of the users' stakes.
    let mut pool = fresh_pool(0);
    let mut alice = open_user(&mut pool, addr(9));
    let mut bob = open_user(&mut pool, addr(10));
    let ev = deposit(&mut pool, &mut alice, 600, 0).unwrap();
    assert_eq!(ev.amount, 600);
    deposit(&mut pool, &mut bob, 400, 0).unwrap();
    assert_eq!(pool.total_staked, 1000);
    assert_eq!(alice.balance_staked + bob.balance_staked, 1000);
    let ev = withdraw(&mut pool, &mut alice, 150, 0).unwrap();
    assert_eq!(ev.amount, 150);
    assert_eq!(pool.total_staked, 850);
    assert_eq!(alice.balance_staked + bob.balance_staked, 850);
    withdraw(&mut pool, &mut bob, 400, 0).unwrap();
    assert_eq!(pool.total_staked, 450);
    assert_eq!(alice.balance_staked + bob.balance_staked, 450);
}

#[test]
fn test_withdraw_insufficient_rejected() {
    let mut pool = fresh_pool(0);
    let mut user = open_user(&mut pool, addr(9));
    deposit(&mut pool, &mut user, 100, 0).unwrap();
    let before_pool = pool;
    let before_user = user;
    let r = withdraw(&mut pool, &mut user, 101, 1);
    assert_eq!(r, Err(ErrorCode::InsufficientFundWithdraw));
    assert_eq!(pool, before_pool);
    assert_eq!(user, before_user);
}

#[test]
fn test_withdraw_zero_rejected() {
    let mut pool = fresh_pool(0);
    let mut user = open_user(&mut pool, addr(9));
    let r = withdraw(&mut pool, &mut user, 0, 1);
    assert_eq!(r, Err(ErrorCode::AmountMustBeGreaterThanZero));
}

#[test]
fn test_pause_needs_elapsed_funding_period() {
    let mut pool = fresh_pool(0);
    // Never funded: reward_duration_end is zero.
    assert_eq!(pause(&mut pool, admin(), 50), Err(ErrorCode::RewardPeriodNotEnded));
    fund(&mut pool, admin(), 0, 10).unwrap();
    assert_eq!(pool.reward_duration_end, 110);
    // Still running.
    assert_eq!(pause(&mut pool, admin(), 100), Err(ErrorCode::RewardPeriodNotEnded));
    // Elapsed.
    pause(&mut pool, admin(), 111).unwrap();
    assert!(pool.paused);
    // Pausing a paused pool is rejected.
    assert_eq!(pause(&mut pool, admin(), 112), Err(ErrorCode::PoolPaused));
}

#[test]
fn test_pause_unpause_authority_only() {
    let mut pool = fresh_pool(0);
    assert_eq!(pause(&mut pool, addr(77), 50), Err(ErrorCode::Unauthorized));
    assert_eq!(unpause(&mut pool, addr(77)), Err(ErrorCode::Unauthorized));
}

#[test]
fn test_unpause() {
    let mut pool = fresh_pool(0);
    assert_eq!(unpause(&mut pool, admin()), Err(ErrorCode::PoolNotPaused));
    fund(&mut pool, admin(), 0, 10).unwrap();
    pause(&mut pool, admin(), 111).unwrap();
    unpause(&mut pool, admin()).unwrap();
    assert!(!pool.paused);
}

#[test]
fn test_fund_recomputes_rate_and_schedule() {
    let mut pool = fresh_pool(0);
    let ev = fund(&mut pool, admin(), 900_000, 7).unwrap();
    assert_eq!(ev.amount_a, 900_000);
    // (2_100_000 + 900_000) * 1_000_000_000 / 100
    assert_eq!(pool.reward_a_rate_u128, 30_000_000_000_000);
    assert_eq!(pool.reward_a_rate_legacy, 30_000_000_000_000);
    assert_eq!(pool.total_reward, 3_000_000);
    assert_eq!(pool.reward_duration_end, 107);
    assert_eq!(pool.last_update_time, 7);
}

#[test]
fn test_fund_paused_rejected() {
    let mut pool = fresh_pool(0);
    pool.paused = true;
    assert_eq!(fund(&mut pool, admin(), 10, 7), Err(ErrorCode::PoolPaused));
}

#[test]
fn test_fund_unauthorized_rejected() {
    let mut pool = fresh_pool(0);
    let before = pool;
    assert_eq!(fund(&mut pool, addr(77), 10, 7), Err(ErrorCode::Unauthorized));
    assert_eq!(pool, before);
}

#[test]
fn test_fund_schedule_overflow_rejected() {
    let mut pool = fresh_pool(0);
    let before = pool;
    let r = fund(&mut pool, admin(), 10, u64::MAX - 50);
    assert_eq!(r, Err(ErrorCode::MathOverflow));
    assert_eq!(pool, before);
}

#[test]
fn test_claim_pays_pending() {
    let mut pool = fresh_pool(0);
    pool.total_staked = 1000;
    let mut user = open_user(&mut pool, addr(9));
    user.balance_staked = 1000;
    // 10 seconds accrue 172_602; the vault easily covers it.
    let ev = claim(&mut pool, &mut user, 5_000_000, 10).unwrap();
    assert_eq!(ev.amount_a, 172_602);
    assert_eq!(user.reward_a_per_token_pending, 0);
    assert_eq!(pool.total_reward, 1_927_398);
}

#[test]
fn test_claim_shortfall_is_discarded() {
    // An underfunded vault pays what it holds; the rest of the pending
    // amount is discarded, not kept pending.
    let mut pool = fresh_pool(0);
    pool.total_staked = 1000;
    let mut user = open_user(&mut pool, addr(9));
    user.balance_staked = 1000;
    let ev = claim(&mut pool, &mut user, 1_000, 10).unwrap();
    assert_eq!(ev.amount_a, 1_000);
    assert_eq!(user.reward_a_per_token_pending, 0);
}

#[test]
fn test_claim_never_exceeds_vault_balance() {
    for vault_balance in [0u64, 1, 1_000, 172_601, 172_602, 172_603, 5_000_000] {
        let mut pool = fresh_pool(0);
        pool.total_staked = 1000;
        let mut user = open_user(&mut pool, addr(9));
        user.balance_staked = 1000;
        let ev = claim(&mut pool, &mut user, vault_balance, 10).unwrap();
        assert!(ev.amount_a <= vault_balance);
        assert_eq!(user.reward_a_per_token_pending, 0);
    }
}

#[test]
fn test_claim_nothing_pending() {
    let mut pool = fresh_pool(0);
    let mut user = open_user(&mut pool, addr(9));
    let ev = claim(&mut pool, &mut user, 5_000_000, 0).unwrap();
    assert_eq!(ev.amount_a, 0);
    assert_eq!(user.reward_a_per_token_pending, 0);
}

#[test]
fn test_withdraw_extra_token_sweeps_excess() {
    let mut pool = fresh_pool(0);
    let mut user = open_user(&mut pool, addr(9));
    deposit(&mut pool, &mut user, 700, 0).unwrap();
    // The funding period (never opened, end = 0) counts as elapsed here.
    let excess = withdraw_extra_token(&pool, admin(), 750, 1).unwrap();
    assert_eq!(excess, 50);
    let none = withdraw_extra_token(&pool, admin(), 700, 1).unwrap();
    assert_eq!(none, 0);
}

#[test]
fn test_withdraw_extra_token_rejections() {
    let mut pool = fresh_pool(0);
    let mut user = open_user(&mut pool, addr(9));
    deposit(&mut pool, &mut user, 700, 0).unwrap();
    assert_eq!(withdraw_extra_token(&pool, addr(77), 750, 1), Err(ErrorCode::Unauthorized));
    fund(&mut pool, admin(), 0, 1).unwrap();
    // Funding period now runs to 101: the sweep must wait for it.
    assert_eq!(withdraw_extra_token(&pool, admin(), 750, 50), Err(ErrorCode::RewardPeriodNotEnded));
    // A vault short of the recorded stake is a fatal arithmetic rejection.
    assert_eq!(withdraw_extra_token(&pool, admin(), 699, 200), Err(ErrorCode::MathOverflow));
}

#[test]
fn test_close_user() {
    let mut pool = fresh_pool(0);
    let user = open_user(&mut pool, addr(9));
    assert_eq!(pool.user_stake_count, 1);
    assert_eq!(close_user(&mut pool, &user, addr(77)), Err(ErrorCode::Unauthorized));
    close_user(&mut pool, &user, addr(9)).unwrap();
    assert_eq!(pool.user_stake_count, 0);
    // The counter cannot go negative.
    assert_eq!(close_user(&mut pool, &user, addr(9)), Err(ErrorCode::MathOverflow));
}

#[test]
fn test_close_user_rejected_while_nonempty() {
    let mut pool = fresh_pool(0);
    let mut user = open_user(&mut pool, addr(9));
    deposit(&mut pool, &mut user, 5, 0).unwrap();
    assert_eq!(close_user(&mut pool, &user, addr(9)), Err(ErrorCode::UserNotEmpty));
    withdraw(&mut pool, &mut user, 5, 0).unwrap();
    user.reward_a_per_token_pending = 3;
    assert_eq!(close_user(&mut pool, &user, addr(9)), Err(ErrorCode::UserNotEmpty));
    user.reward_a_per_token_pending = 0;
    close_user(&mut pool, &user, addr(9)).unwrap();
    assert_eq!(pool.user_stake_count, 0);
}

#[test]
fn test_close_pool_conditions() {
    let mut pool = fresh_pool(0);
    let user = open_user(&mut pool, addr(9));
    fund(&mut pool, admin(), 0, 1).unwrap();

    // Not the authority.
    assert_eq!(
        close_pool(&pool, addr(77), 0, 500, 200),
        Err(ErrorCode::Unauthorized)
    );
    // Not paused.
    assert_eq!(
        close_pool(&pool, admin(), 0, 500, 200),
        Err(ErrorCode::PoolNotPaused)
    );
    pause(&mut pool, admin(), 150).unwrap();
    // Open user records remain.
    assert_eq!(
        close_pool(&pool, admin(), 0, 500, 200),
        Err(ErrorCode::PoolNotEmpty)
    );
    close_user(&mut pool, &user, addr(9)).unwrap();
    // Funding period not yet elapsed at this clock reading.
    assert_eq!(
        close_pool(&pool, admin(), 0, 500, 90),
        Err(ErrorCode::RewardPeriodNotEnded)
    );
    // Staking vault not swept empty.
    assert_eq!(
        close_pool(&pool, admin(), 30, 500, 200),
        Err(ErrorCode::StakingVaultNotEmpty)
    );
    // All conditions hold: both vaults are drained in full.
    let closeout = close_pool(&pool, admin(), 0, 500, 200).unwrap();
    assert_eq!(closeout.staking_refund, 0);
    assert_eq!(closeout.reward_refund, 500);
}

#[test]
fn test_close_pool_never_funded_rejected() {
    let mut pool = fresh_pool(0);
    pool.paused = true;
    // reward_duration_end is still zero: the pool was never funded.
    assert_eq!(
        close_pool(&pool, admin(), 0, 500, 200),
        Err(ErrorCode::RewardPeriodNotEnded)
    );
}

#[test]
fn test_migrate_rate_is_idempotent() {
    let mut pool = fresh_pool(0);
    pool.reward_a_rate_legacy = 5_000;
    migrate_farming_rate(&mut pool).unwrap();
    assert_eq!(pool.reward_a_rate_u128, 5_000);
    let once = pool;
    migrate_farming_rate(&mut pool).unwrap();
    assert_eq!(pool, once);
}

#[test]
fn test_migrate_rate_keeps_wide_rate() {
    let mut pool = fresh_pool(0);
    pool.reward_a_rate_legacy = 5_000;
    pool.reward_a_rate_u128 = 9_000;
    migrate_farming_rate(&mut pool).unwrap();
    assert_eq!(pool.reward_a_rate_u128, 9_000);
}

#[test]
fn test_get_reward_a_rate_prefers_wide() {
    let mut pool = fresh_pool(0);
    pool.reward_a_rate_legacy = 5_000;
    assert_eq!(pool.get_reward_a_rate(), 5_000);
    pool.reward_a_rate_u128 = 9_000;
    assert_eq!(pool.get_reward_a_rate(), 9_000);
}

#[test]
fn test_charge_reward_tops_up_accounting() {
    let mut pool = fresh_pool(0);
    charge_reward(&mut pool, 400).unwrap();
    assert_eq!(remaining_reward(&pool), 2_100_400);
    let r = charge_reward(&mut pool, u64::MAX);
    assert_eq!(r, Err(ErrorCode::MathOverflow));
    assert_eq!(remaining_reward(&pool), 2_100_400);
}

#[test]
fn test_full_pool_lifetime() {
    // A whole pool lifetime: two stakers, a funding, claims, withdrawals,
    // user closure, pause and close-out, with the vault balances tracked
    // alongside.
    let mut pool = fresh_pool(0);
    let mut alice = open_user(&mut pool, addr(9));
    let mut bob = open_user(&mut pool, addr(10));
    deposit(&mut pool, &mut alice, 600, 0).unwrap();
    deposit(&mut pool, &mut bob, 400, 5).unwrap();
    assert_eq!(pool.total_staked, 1000);
    assert_eq!(pool.total_reward, 2_100_000);

    let ev = fund(&mut pool, admin(), 900_000, 6).unwrap();
    assert_eq!(ev.amount_a, 900_000);
    let mut reward_vault = 900_000u64;
    assert_eq!(pool.total_reward, 3_000_000);
    assert_eq!(pool.reward_duration_end, 106);
    assert_eq!(pool.reward_a_rate_u128, 30_000_000_000_000);

    // Four seconds of accrual for alice's 600 of 1000 staked: tier x2.
    let ev = claim(&mut pool, &mut alice, reward_vault, 10).unwrap();
    assert_eq!(ev.amount_a, 27_616);
    reward_vault -= ev.amount_a;
    assert_eq!(pool.total_reward, 2_972_384);

    withdraw(&mut pool, &mut alice, 600, 10).unwrap();
    assert_eq!(pool.total_staked, 400);
    // Two seconds of accrual for bob's 400 of 400 staked: tier x1.
    withdraw(&mut pool, &mut bob, 400, 12).unwrap();
    assert_eq!(bob.reward_a_per_token_pending, 11_506);
    assert_eq!(pool.total_staked, 0);
    let ev = claim(&mut pool, &mut bob, reward_vault, 12).unwrap();
    assert_eq!(ev.amount_a, 11_506);
    reward_vault -= ev.amount_a;
    assert_eq!(pool.total_reward, 2_960_878);

    close_user(&mut pool, &alice, addr(9)).unwrap();
    close_user(&mut pool, &bob, addr(10)).unwrap();
    assert_eq!(pool.user_stake_count, 0);
    pause(&mut pool, admin(), 107).unwrap();
    let closeout = close_pool(&pool, admin(), 0, reward_vault, 108).unwrap();
    assert_eq!(closeout.staking_refund, 0);
    assert_eq!(closeout.reward_refund, 860_878);
}
