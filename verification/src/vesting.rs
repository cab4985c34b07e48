//! Linear vesting arithmetic.
//!
//! Given a stream's total amount and time window, [`vested`] computes how much
//! has vested at a ledger timestamp:
//!
//! * `0` before `start`
//! * `total` at or after `end`
//! * a linear interpolation in between, truncated toward zero
//!
//! All arithmetic is checked; on overflow the functions return
//! `Error::Overflow`.

use vstd::prelude::*;
use crate::error::Error;
use crate::normalize::clamp_to_window;
use crate::types::Stream;

verus! {

/// Division of `a` by a positive `d`, rounding toward zero (as Rust's `/`).
pub open spec fn div_toward_zero(a: int, d: int) -> int {
    if a >= 0 {
        a / d
    } else {
        -((-a) / d)
    }
}

/// Whether `x` is a value of `i128`.
pub open spec fn fits_i128(x: int) -> bool {
    i128::MIN <= x <= i128::MAX
}

/// The amount of `s` vested at `now`: nothing before the start, everything at
/// or after the end, `total * (now - start) / (end - start)` in between; the
/// product must fit in an `i128`.
pub open spec fn vested_amount(s: Stream, now: u64) -> Result<i128, Error> {
    if now <= s.start {
        Ok(0)
    } else if now >= s.end {
        Ok(s.total)
    } else if !fits_i128(s.total * (now - s.start)) {
        Err(Error::Overflow)
    } else {
        Ok(div_toward_zero(s.total * (now - s.start), s.end - s.start) as i128)
    }
}

/// Computes the linearly vested amount of `stream` at timestamp `now`.
pub fn vested(stream: &Stream, now: u64) -> (r: Result<i128, Error>)
    ensures
        r == vested_amount(*stream, now),
{
    if now <= stream.start {
        return Ok(0);
    }
    if now >= stream.end {
        return Ok(stream.total);
    }
    let elapsed = (now - stream.start) as i128;
    let duration = (stream.end - stream.start) as i128;
    let numerator = match stream.total.checked_mul(elapsed) {
        Some(n) => n,
        None => return Err(Error::Overflow),
    };
    proof {
        let x = numerator as int;
        let d = duration as int;
        assert(d >= 1);
        if x > 0 {
            assert(0 <= x / d <= x) by (nonlinear_arith)
                requires x > 0, d >= 1;
        } else if x < 0 {
            assert(0 <= (x * -1) / d <= x * -1) by (nonlinear_arith)
                requires x < 0, d >= 1;
        }
    }
    match numerator.checked_div(duration) {
        Some(v) => Ok(v),
        None => Err(Error::Overflow),
    }
}

/// The amount of `s` not yet vested at `now`: `total - vested`.
pub open spec fn unvested_amount(s: Stream, now: u64) -> Result<i128, Error> {
    match vested_amount(s, now) {
        Err(e) => Err(e),
        Ok(v) => if fits_i128(s.total - v) {
            Ok((s.total - v) as i128)
        } else {
            Err(Error::Overflow)
        },
    }
}

/// The vested amount of `s` at `now` that the recipient has not yet
/// withdrawn: `vested - withdrawn`.
pub open spec fn withdrawable_at(s: Stream, now: u64) -> Result<i128, Error> {
    match vested_amount(s, now) {
        Err(e) => Err(e),
        Ok(v) => if fits_i128(v - s.withdrawn) {
            Ok((v - s.withdrawn) as i128)
        } else {
            Err(Error::Overflow)
        },
    }
}

/// Seconds of the window of `s` elapsed at `now`: `min(now, end) - start`,
/// and `0` where that is not positive.
pub open spec fn elapsed_secs(s: Stream, now: u64) -> u64 {
    let t: u64 = if now < s.end { now } else { s.end };
    if t > s.start {
        (t - s.start) as u64
    } else {
        0
    }
}

/// Time progress of `s` at `now` in basis points: `0` up to the start,
/// `10_000` from the end on, `10_000 * (now - start) / (end - start)`
/// (rounded down) in between.
pub open spec fn progress_at(s: Stream, now: u64) -> u32 {
    if now <= s.start {
        0
    } else if now >= s.end {
        10_000
    } else {
        ((now - s.start) * 10_000 / (s.end - s.start)) as u32
    }
}

/// Returns the amount of `stream` that has not vested at `now`.
pub fn unvested(stream: &Stream, now: u64) -> (r: Result<i128, Error>)
    ensures
        r == unvested_amount(*stream, now),
{
    let v = vested(stream, now)?;
    stream.total.checked_sub(v).ok_or(Error::Overflow)
}

/// Returns the vested-but-unwithdrawn amount of `stream` at `now`.
pub fn withdrawable(stream: &Stream, now: u64) -> (r: Result<i128, Error>)
    ensures
        r == withdrawable_at(*stream, now),
{
    let v = vested(stream, now)?;
    v.checked_sub(stream.withdrawn).ok_or(Error::Overflow)
}

/// Returns how many seconds of the window of `stream` have elapsed at `now`,
/// clamped to `[0, end - start]`.
pub fn elapsed(stream: &Stream, now: u64) -> (r: u64)
    ensures
        r == elapsed_secs(*stream, now),
        stream.start <= stream.end ==> r <= stream.end - stream.start,
{
    let t = clamp_to_window(stream.start, stream.end, now);
    if t > stream.start {
        t - stream.start
    } else {
        0
    }
}

/// Returns the length of the window of `stream` in seconds.
pub fn duration(stream: &Stream) -> (r: u64)
    requires
        stream.start <= stream.end,
    ensures
        r == stream.end - stream.start,
{
    stream.end - stream.start
}

/// Returns the vesting progress of `stream` at `now` in basis points
/// (`0..=10_000`), by elapsed time only.
pub fn progress_bps(stream: &Stream, now: u64) -> (r: u32)
    ensures
        r == progress_at(*stream, now),
        r <= 10_000,
{
    if now <= stream.start {
        return 0;
    }
    if now >= stream.end {
        return 10_000;
    }
    let e = (now - stream.start) as u128;
    let d = (stream.end - stream.start) as u128;
    proof {
        let ei = e as int;
        let di = d as int;
        assert((ei * 10_000) / di < 10_000) by (nonlinear_arith)
            requires ei < di, di > 0, ei >= 0;
        assert(ei * 10_000 <= u128::MAX) by (nonlinear_arith)
            requires ei < 0x1_0000_0000_0000_0000int, ei >= 0;
    }
    let bps = e * 10_000 / d;
    bps as u32
}

/// Vesting never pays out less than nothing nor more than the total: for a
/// non-negative total, whenever the vested amount is defined it lies in
/// `[0, total]`.
pub proof fn lemma_vested_bounds(s: Stream, now: u64)
    requires
        s.total >= 0,
    ensures
        vested_amount(s, now) matches Ok(v) ==> 0 <= v <= s.total,
{
    if s.start < now < s.end {
        let x = s.total * (now - s.start);
        let d = s.end - s.start;
        assert(0 <= x / d <= s.total) by (nonlinear_arith)
            requires x == s.total * (now - s.start), d == s.end - s.start, s.total >= 0,
                s.start < now < s.end;
    }
}

/// Vesting only moves forward: for a non-negative total, the vested amount at
/// a later time is at least the vested amount at an earlier one.
pub proof fn lemma_vested_monotone(s: Stream, t1: u64, t2: u64)
    requires
        s.total >= 0,
        t1 <= t2,
        vested_amount(s, t1) is Ok,
        vested_amount(s, t2) is Ok,
    ensures
        vested_amount(s, t1)->Ok_0 <= vested_amount(s, t2)->Ok_0,
{
    lemma_vested_bounds(s, t1);
    lemma_vested_bounds(s, t2);
    if s.start < t1 && t2 < s.end {
        let d = s.end - s.start;
        let x1 = s.total * (t1 - s.start);
        let x2 = s.total * (t2 - s.start);
        assert(x1 <= x2) by (nonlinear_arith)
            requires x1 == s.total * (t1 - s.start), x2 == s.total * (t2 - s.start),
                s.total >= 0, t1 <= t2;
        assert(x1 / d <= x2 / d) by (nonlinear_arith)
            requires 0 <= x1 <= x2, d > 0;
    }
}

/// At every timestamp the vested and the unvested amounts of a stream with a
/// non-negative total add up to exactly the total.
pub proof fn lemma_vested_plus_unvested(s: Stream, now: u64)
    requires
        s.total >= 0,
        vested_amount(s, now) is Ok,
    ensures
        unvested_amount(s, now) is Ok,
        vested_amount(s, now)->Ok_0 + unvested_amount(s, now)->Ok_0 == s.total,
{
    lemma_vested_bounds(s, now);
}

} // verus!
