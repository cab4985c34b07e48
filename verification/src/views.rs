//! Read-only queries on one stream, given what storage holds under its id.

use vstd::prelude::*;
use crate::error::Error;
use crate::types::{Status, Stream, StreamSummary};
use crate::vesting::{
    div_toward_zero, elapsed, elapsed_secs, progress_at, progress_bps as progress_of, unvested, unvested_amount,
    vested, vested_amount, withdrawable, withdrawable_at,
};

verus! {

/// The stored stream as a spec value.
pub open spec fn found_view(found: Option<&Stream>) -> Option<Stream> {
    match found {
        Some(s) => Some(*s),
        None => None,
    }
}

/// The share of the total of `s` that has been withdrawn, in basis points:
/// `0` for a non-positive total, otherwise `withdrawn * 10_000 / total`
/// (rounded toward zero), the product being checked.
pub open spec fn withdrawn_bps(s: Stream) -> Result<u32, Error> {
    if s.total <= 0 {
        Ok(0)
    } else if !(i128::MIN <= s.withdrawn * 10_000 <= i128::MAX) {
        Err(Error::Overflow)
    } else {
        Ok(div_toward_zero(s.withdrawn * 10_000, s.total as int) as u32)
    }
}

/// The summary of `s` at `now`.
pub open spec fn summary_at(s: Stream, now: u64) -> Result<StreamSummary, Error> {
    if vested_amount(s, now) is Err {
        Err(vested_amount(s, now)->Err_0)
    } else if withdrawable_at(s, now) is Err {
        Err(withdrawable_at(s, now)->Err_0)
    } else {
        Ok(StreamSummary {
            total: s.total,
            vested: vested_amount(s, now)->Ok_0,
            withdrawn: s.withdrawn,
            withdrawable: withdrawable_at(s, now)->Ok_0,
            progress_bps: progress_at(s, now),
            status: s.status,
        })
    }
}

/// Returns the stored stream, or `StreamNotFound`.
pub fn get_stream(found: Option<&Stream>) -> (r: Result<Stream, Error>)
    ensures
        r == (match found_view(found) {
            Some(s) => Ok(s),
            None => Err(Error::StreamNotFound),
        }),
{
    match found {
        Some(s) => Ok(s.clone()),
        None => Err(Error::StreamNotFound),
    }
}

/// Returns the lifecycle status of the stored stream.
pub fn get_status(found: Option<&Stream>) -> (r: Result<Status, Error>)
    ensures
        r == (match found_view(found) {
            Some(s) => Ok(s.status),
            None => Err(Error::StreamNotFound),
        }),
{
    match found {
        Some(s) => Ok(s.status),
        None => Err(Error::StreamNotFound),
    }
}

/// Returns whether the stored stream is still active.
pub fn is_active(found: Option<&Stream>) -> (r: Result<bool, Error>)
    ensures
        r == (match found_view(found) {
            Some(s) => Ok(s.status == Status::Active),
            None => Err(Error::StreamNotFound),
        }),
{
    match found {
        Some(s) => Ok(s.status == Status::Active),
        None => Err(Error::StreamNotFound),
    }
}

/// Returns the length in seconds of the window of the stored stream.
pub fn duration(found: Option<&Stream>) -> (r: Result<u64, Error>)
    requires
        found matches Some(s) ==> s.start <= s.end,
    ensures
        r == (match found_view(found) {
            Some(s) => Ok((s.end - s.start) as u64),
            None => Err(Error::StreamNotFound),
        }),
{
    match found {
        Some(s) => Ok(s.end - s.start),
        None => Err(Error::StreamNotFound),
    }
}

/// Returns the seconds of the window of the stored stream elapsed at `now`.
pub fn elapsed_at(found: Option<&Stream>, now: u64) -> (r: Result<u64, Error>)
    ensures
        r == (match found_view(found) {
            Some(s) => Ok(elapsed_secs(s, now)),
            None => Err(Error::StreamNotFound),
        }),
{
    match found {
        Some(s) => Ok(elapsed(s, now)),
        None => Err(Error::StreamNotFound),
    }
}

/// Returns the amount of the stored stream vested at `now`.
pub fn streamed_amount(found: Option<&Stream>, now: u64) -> (r: Result<i128, Error>)
    ensures
        r == (match found_view(found) {
            Some(s) => vested_amount(s, now),
            None => Err(Error::StreamNotFound),
        }),
{
    match found {
        Some(s) => vested(s, now),
        None => Err(Error::StreamNotFound),
    }
}

/// Returns the time progress of the stored stream at `now`, in basis points.
pub fn progress_bps(found: Option<&Stream>, now: u64) -> (r: Result<u32, Error>)
    ensures
        r == (match found_view(found) {
            Some(s) => Ok(progress_at(s, now)),
            None => Err(Error::StreamNotFound),
        }),
{
    match found {
        Some(s) => Ok(progress_of(s, now)),
        None => Err(Error::StreamNotFound),
    }
}

/// Returns the share of the total of the stored stream already withdrawn,
/// in basis points.
pub fn percent_withdrawn(found: Option<&Stream>) -> (r: Result<u32, Error>)
    ensures
        r == (match found_view(found) {
            Some(s) => withdrawn_bps(s),
            None => Err(Error::StreamNotFound),
        }),
{
    let s = match found {
        Some(s) => s,
        None => return Err(Error::StreamNotFound),
    };
    if s.total <= 0 {
        return Ok(0);
    }
    let scaled = match s.withdrawn.checked_mul(10_000) {
        Some(x) => x,
        None => return Err(Error::Overflow),
    };
    proof {
        let x = scaled as int;
        let d = s.total as int;
        if x > 0 {
            assert(0 <= x / d <= x) by (nonlinear_arith)
                requires x > 0, d >= 1;
        } else if x < 0 {
            assert(0 <= (x * -1) / d <= x * -1) by (nonlinear_arith)
                requires x < 0, d >= 1;
        }
    }
    let bps = scaled / s.total;
    Ok(bps as u32)
}

/// Returns the amount of the stored stream not yet vested at `now`.
pub fn remaining_amount(found: Option<&Stream>, now: u64) -> (r: Result<i128, Error>)
    ensures
        r == (match found_view(found) {
            Some(s) => unvested_amount(s, now),
            None => Err(Error::StreamNotFound),
        }),
{
    match found {
        Some(s) => unvested(s, now),
        None => Err(Error::StreamNotFound),
    }
}

/// Returns the vested-but-unwithdrawn amount of the stored stream at `now`:
/// what a withdrawal would pay.
pub fn withdrawable_amount(found: Option<&Stream>, now: u64) -> (r: Result<i128, Error>)
    ensures
        r == (match found_view(found) {
            Some(s) => withdrawable_at(s, now),
            None => Err(Error::StreamNotFound),
        }),
{
    match found {
        Some(s) => withdrawable(s, now),
        None => Err(Error::StreamNotFound),
    }
}

/// Returns the total, vested, withdrawn, withdrawable, progress and status
/// of the stored stream at `now` in one value.
pub fn get_summary(found: Option<&Stream>, now: u64) -> (r: Result<StreamSummary, Error>)
    ensures
        r == (match found_view(found) {
            Some(s) => summary_at(s, now),
            None => Err(Error::StreamNotFound),
        }),
{
    let s = match found {
        Some(s) => s,
        None => return Err(Error::StreamNotFound),
    };
    let v = vested(s, now)?;
    let w = withdrawable(s, now)?;
    Ok(StreamSummary {
        total: s.total,
        vested: v,
        withdrawn: s.withdrawn,
        withdrawable: w,
        progress_bps: progress_of(s, now),
        status: s.status,
    })
}

} // verus!
