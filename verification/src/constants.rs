//! Limits and validation boundaries of the contract.

use vstd::prelude::*;

verus! {

/// The smallest `total_amount` accepted when a stream is created.
///
/// Requiring a minimum avoids dust streams whose per-second vesting truncates
/// to zero and that only bloat persistent storage.
pub const MIN_STREAM_AMOUNT: i128 = 1;

/// The smallest amount (streamed or topped-up) the contract accepts at all.
///
/// Any non-positive amount is rejected with `Error::InvalidAmount` before the
/// more specific `MIN_STREAM_AMOUNT` floor is consulted.
pub const MIN_VALID_AMOUNT: i128 = 1;

/// Delay, in seconds of ledger time, between scheduling an admin transfer and
/// the earliest moment at which it may be executed (one day).
pub const ADMIN_TIMELOCK_DELAY: u64 = 86_400;

/// Errors returned when a proposed amount violates the contract's limits.
///
/// They mirror the amount-related variants of the contract's main error type.
#[derive(Clone, Copy, Debug, PartialEq, Eq, Structural, PartialOrd, Ord)]
pub enum LimitError {
    /// The provided amount is zero or negative.
    InvalidAmount,
    /// The requested amount is below `MIN_STREAM_AMOUNT`.
    AmountBelowMinimum,
}

/// What it means for an amount to be acceptable as escrow.
pub open spec fn valid_amount(amount: int) -> bool {
    amount >= MIN_VALID_AMOUNT && amount >= MIN_STREAM_AMOUNT
}

/// Returns `true` when `amount` clears both the non-positive guard and the
/// `MIN_STREAM_AMOUNT` floor, i.e. it is a valid escrow amount.
///
/// Stream creation and top-ups both go through this check.
pub fn is_valid_amount(amount: i128) -> (r: bool)
    ensures
        r == valid_amount(amount as int),
        r <==> amount >= 1,
{
    amount >= MIN_VALID_AMOUNT && amount >= MIN_STREAM_AMOUNT
}

} // verus!
