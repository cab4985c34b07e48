//! Errors returned by the contract's entrypoints.

use vstd::prelude::*;

verus! {

/// Errors that the contract can return to callers.
#[derive(Clone, Copy, Debug, PartialEq, Eq, Structural, PartialOrd, Ord)]
pub enum Error {
    /// The contract has already been initialized.
    AlreadyInitialized,
    /// The contract has not been initialized yet.
    NotInitialized,
    /// No stream exists for the given id.
    StreamNotFound,
    /// The provided amount is zero or negative.
    InvalidAmount,
    /// The start/end time range is invalid.
    InvalidTimeRange,
    /// The caller is not authorized for this action.
    Unauthorized,
    /// An arithmetic operation overflowed.
    Overflow,
    /// The stream has already been cancelled.
    AlreadyCancelled,
    /// There is nothing available to withdraw.
    NothingToWithdraw,
    /// The stream has already completed and is fully withdrawn.
    AlreadyCompleted,
    /// The stream's end time is not in the future.
    EndTimeInPast,
    /// The requested amount is below the minimum stream amount.
    AmountBelowMinimum,
    /// The stream is not active, so the requested operation is not allowed.
    StreamNotActive,
    /// No admin action has been scheduled.
    NoPendingAdminAction,
    /// The scheduled admin action cannot execute until its timelock expires.
    TimelockNotExpired,
    /// The requested admin action would not change contract administration.
    InvalidAdminAction,
    /// The operation would push the total escrowed supply above the global cap.
    SupplyCapExceeded,
    /// A batch entrypoint was called without any operations.
    EmptyBatch,
}

} // verus!
