//! The persisted data model: addresses, the pool record, the user record,
//! the bounded funder list, the error taxonomy and the emitted events.

use vstd::bytes::spec_u64_to_le_bytes;
use vstd::prelude::*;

verus! {

/// Shortest reward period a pool may be initialized with, in seconds.
pub const MIN_DURATION: u64 = 1;

/// Reward budget a freshly initialized pool starts with.
pub const INITIAL_REWARD_BUDGET: u64 = 2_100_000;

/// An opaque fixed-width account identifier: 32 bytes held as four 64-bit
/// words (little-endian within each word, see [`crate::encoding`]).
#[derive(Clone, Copy, PartialEq, Eq, Structural, Debug)]
pub struct Address {
    pub w0: u64,
    pub w1: u64,
    pub w2: u64,
    pub w3: u64,
}

impl View for Address {
    type V = Seq<u8>;

    open spec fn view(&self) -> Seq<u8> {
        spec_u64_to_le_bytes(self.w0) + spec_u64_to_le_bytes(self.w1)
            + spec_u64_to_le_bytes(self.w2) + spec_u64_to_le_bytes(self.w3)
    }
}

impl Address {
    /// The all-zero address, used as the sentinel for a free funder slot.
    pub open spec fn zero_spec() -> Address {
        Address { w0: 0, w1: 0, w2: 0, w3: 0 }
    }

    /// The all-zero sentinel address.
    pub fn zero() -> (r: Address)
        ensures
            r == Address::zero_spec(),
    {
        Address { w0: 0, w1: 0, w2: 0, w3: 0 }
    }
}

/// The bounded registry of addresses allowed to fund a pool besides its
/// authority: exactly three slots, scanned linearly, with the all-zero
/// address marking a free slot.
#[derive(Clone, Copy, PartialEq, Eq, Structural, Debug)]
pub struct FunderList {
    pub s0: Address,
    pub s1: Address,
    pub s2: Address,
}

impl View for FunderList {
    type V = Seq<Address>;

    open spec fn view(&self) -> Seq<Address> {
        seq![self.s0, self.s1, self.s2]
    }
}

impl FunderList {
    /// A list with every slot free.
    pub open spec fn empty_spec() -> FunderList {
        FunderList { s0: Address::zero_spec(), s1: Address::zero_spec(), s2: Address::zero_spec() }
    }

    /// A list with every slot free.
    pub fn empty() -> (r: FunderList)
        ensures
            r == FunderList::empty_spec(),
    {
        FunderList { s0: Address::zero(), s1: Address::zero(), s2: Address::zero() }
    }

    /// Whether `a` occupies one of the three slots.
    pub open spec fn listed(self, a: Address) -> bool {
        self.s0 == a || self.s1 == a || self.s2 == a
    }
}

/// One staking configuration: its vault addresses, funding schedule and
/// accounting totals.
#[derive(Clone, Copy, PartialEq, Eq, Structural, Debug)]
pub struct Pool {
    /// Privileged admin address.
    pub authority: Address,
    /// Paused state of the pool.
    pub paused: bool,
    /// Mint of the token that can be staked.
    pub staking_mint: Address,
    /// Vault holding staked tokens.
    pub staking_vault: Address,
    /// Mint of the reward token.
    pub reward_a_mint: Address,
    /// Vault holding reward tokens.
    pub reward_a_vault: Address,
    /// Base key the pool address was derived from.
    pub base_key: Address,
    /// The period over which rewards are distributed, in seconds.
    pub reward_duration: u64,
    /// The timestamp at which the current reward period ends.
    pub reward_duration_end: u64,
    /// The last time reward state was updated.
    pub last_update_time: u64,
    /// Narrow legacy mirror of the reward rate, kept for older readers.
    pub reward_a_rate_legacy: u64,
    /// Last calculated reward per pool token (legacy, unused by accrual).
    pub reward_a_per_token_stored: u128,
    /// Number of currently open user records for this pool.
    pub user_stake_count: u32,
    /// Addresses authorized to fund the pool besides the authority.
    pub funders: FunderList,
    /// The reward rate in its wide canonical form.
    pub reward_a_rate_u128: u128,
    /// Derivation bump of the pool address.
    pub pool_bump: u8,
    /// Sum of all users' staked balances.
    pub total_staked: u64,
    /// Undistributed reward budget remaining in the pool's accounting.
    pub total_reward: u64,
}

impl Pool {
    /// Structural well-formedness: established by `initialize_pool` and
    /// preserved by every operation.
    pub open spec fn wf(self) -> bool {
        self.reward_duration >= MIN_DURATION
    }

    /// The reward rate in effect: the wide field when set, else the legacy
    /// narrow mirror widened.
    pub open spec fn spec_reward_a_rate(self) -> u128 {
        if self.reward_a_rate_u128 == 0 {
            self.reward_a_rate_legacy as u128
        } else {
            self.reward_a_rate_u128
        }
    }

    /// Returns the reward rate in effect, preferring the wide field.
    pub fn get_reward_a_rate(&self) -> (r: u128)
        ensures
            r == self.spec_reward_a_rate(),
    {
        if self.reward_a_rate_u128 == 0 {
            return self.reward_a_rate_legacy as u128;
        }
        self.reward_a_rate_u128
    }
}

/// One depositor's stake and pending reward within a given pool.
#[derive(Clone, Copy, PartialEq, Eq, Structural, Debug)]
pub struct User {
    /// Pool this record belongs to.
    pub pool: Address,
    /// The owner of this record.
    pub owner: Address,
    /// Legacy reward-per-token checkpoint, unused by the active accrual.
    pub reward_a_per_token_complete: u128,
    /// Reward amount pending claim.
    pub reward_a_per_token_pending: u64,
    /// The amount staked.
    pub balance_staked: u64,
    /// Derivation bump of the user address, opaque to the logic.
    pub nonce: u8,
}

/// A named rejection: every failed operation leaves the records untouched
/// and reports one of these.
#[derive(Clone, Copy, PartialEq, Eq, Structural, Debug)]
pub enum ErrorCode {
    /// Insufficient funds to withdraw.
    InsufficientFundWithdraw,
    /// Amount must be greater than zero.
    AmountMustBeGreaterThanZero,
    /// Reward B cannot be funded - pool is single deposit.
    SingleDepositTokenBCannotBeFunded,
    /// Pool is paused.
    PoolPaused,
    /// Duration is shorter than the allowed minimum.
    DurationTooShort,
    /// Provided funder is already authorized to fund.
    FunderAlreadyAuthorized,
    /// Maximum funders already authorized.
    MaxFunders,
    /// Cannot deauthorize the primary pool authority.
    CannotDeauthorizePoolAuthority,
    /// Authority not found for deauthorization.
    CannotDeauthorizeMissingAuthority,
    /// Math operation overflow.
    MathOverflow,
    /// The caller is not allowed to perform this operation.
    Unauthorized,
    /// The operation needs the pool to be paused, and it is not.
    PoolNotPaused,
    /// The funding period has not yet elapsed (or the pool was never funded).
    RewardPeriodNotEnded,
    /// Open user records remain for this pool.
    PoolNotEmpty,
    /// The user record still holds stake or pending reward.
    UserNotEmpty,
    /// The staking vault still holds tokens beyond the recorded stake.
    StakingVaultNotEmpty,
}

/// Notification of a settled deposit.
#[derive(Clone, Copy, PartialEq, Eq, Structural, Debug)]
pub struct EventDeposit {
    pub amount: u64,
}

/// Notification of a settled withdrawal.
#[derive(Clone, Copy, PartialEq, Eq, Structural, Debug)]
pub struct EventWithdraw {
    pub amount: u64,
}

/// Notification of a settled funding.
#[derive(Clone, Copy, PartialEq, Eq, Structural, Debug)]
pub struct EventFund {
    pub amount_a: u64,
}

/// Notification of a settled claim, carrying the amount actually paid.
#[derive(Clone, Copy, PartialEq, Eq, Structural, Debug)]
pub struct EventClaim {
    pub amount_a: u64,
}

/// Notification that a funder was added.
#[derive(Clone, Copy, PartialEq, Eq, Structural, Debug)]
pub struct EventAuthorizeFunder {
    pub new_funder: Address,
}

/// Notification that a funder was removed.
#[derive(Clone, Copy, PartialEq, Eq, Structural, Debug)]
pub struct EventUnauthorizeFunder {
    pub funder: Address,
}

} // verus!
