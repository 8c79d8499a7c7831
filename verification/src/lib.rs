//! A dual-token staking pool: depositors lock a staking asset and accrue a
//! reward asset over time under a funded, time-bounded emission schedule.
//!
//! The crate holds the pool/user reward-accrual and lifecycle state machine:
//! precondition checks, tiered reward accrual, funder authorization, and the
//! close-out rules. Each operation is a function from the persisted state, an
//! injected clock reading and the relevant vault balances to the next state
//! and the transfer it asks the token ledger to make; the caller performs the
//! transfer and commits or discards the whole step atomically.

pub mod encoding;
pub mod funders;
pub mod laws;
pub mod lifecycle;
pub mod pda;
pub mod rewards;
pub mod state;

pub use state::Address;
pub use state::ErrorCode;
pub use state::FunderList;
pub use state::Pool;
pub use state::User;
