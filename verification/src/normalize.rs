//! Normalization of caller-supplied times.

use vstd::prelude::*;

verus! {

/// The start of a stream given `start_time` at ledger time `now`: the
/// sentinel `0` means "now", any other value stands as given.
pub open spec fn normalized_start(now: u64, start_time: u64) -> u64 {
    if start_time == 0 {
        now
    } else {
        start_time
    }
}

/// `value` moved into `[start, end]`: `start` below it, `end` above it.
pub open spec fn clamped(start: u64, end: u64, value: u64) -> u64 {
    if value < start {
        start
    } else if value > end {
        end
    } else {
        value
    }
}

/// Resolves a requested `start_time`: `0` stands for the current ledger time
/// `now`; any other value is kept.
pub fn normalize_start_time(now: u64, start_time: u64) -> (r: u64)
    ensures
        r == normalized_start(now, start_time),
{
    if start_time == 0 {
        now
    } else {
        start_time
    }
}

/// Clamps `value` into the window `[start, end]`.
pub fn clamp_to_window(start: u64, end: u64, value: u64) -> (r: u64)
    ensures
        r == clamped(start, end, value),
        start <= end ==> start <= r <= end,
{
    if value < start {
        start
    } else if value > end {
        end
    } else {
        value
    }
}

} // verus!
