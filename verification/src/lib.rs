//! A token-streaming and vesting ledger.
//!
//! A sender locks a fixed amount of a fungible token so that a receiver can
//! withdraw it incrementally over time; the sender may reclaim the unvested
//! remainder under a cancellation policy.  The crate verifies the accrual
//! and settlement engine: the pure split of a locked amount into vested and
//! unvested parts at any point in time, and the state machine that applies
//! that split to a persistent stream record across create, withdraw and
//! cancel operations.
//!
//! The host environment around the ledger (caller authorization, the clock,
//! the token-transfer primitive and event publication) is kept outside: the
//! entry points take the current timestamp and the authorized caller as
//! plain arguments and report the token movements they order through their
//! results.

pub mod contract;
pub mod errors;
pub mod storage;
pub mod types;
pub mod utils;
