//! StreamPay: linear payment streams, verified.
//!
//! A sender escrows a fixed amount of a token and the contract releases it to
//! a recipient linearly over a time window. The recipient can withdraw the
//! vested portion at any time, and either party can cancel an active stream.
//!
//! This crate holds the contract's decisions as verified code: the vesting
//! arithmetic, the per-call rules of every entrypoint, and a complete
//! in-memory model of the contract state whose invariants are proved.

pub mod config;
pub mod constants;
pub mod contract;
pub mod effects;
pub mod error;
pub mod laws;
pub mod normalize;
pub mod storage;
pub mod types;
pub mod vesting;
pub mod views;

pub use crate::constants::{ADMIN_TIMELOCK_DELAY, MIN_STREAM_AMOUNT};
pub use crate::contract::StreamPayContract;
