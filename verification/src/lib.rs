//! Core of an on-chain staking / yield-fund program: fee and yield accounting
//! in fixed-point arithmetic, the pool state machine, the per-user stake
//! ledger, tier scoring and rebalancing, a multi-signature timelocked
//! governance flow, and the protective guard layer (reentrancy, rate limits,
//! slippage, deadlines, MEV cooldowns).
//!
//! The host runtime that loads accounts, verifies signatures, keeps the clock
//! and moves funds is an external collaborator: every function here is a pure
//! state transition on plain values. A handler either returns the updated
//! state together with the event it emits, or an error code with all state
//! left exactly as it was — mirroring the host's atomic abort semantics.

pub mod admin;
pub mod errors;
pub mod events;
pub mod governance;
pub mod guards;
pub mod ledger;
pub mod math;
pub mod oracle;
pub mod rebalance;
pub mod state;
