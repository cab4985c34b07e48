//! Tests of the amount, time and vesting helpers.

use streampay::constants::is_valid_amount;
use streampay::error::Error;
use streampay::normalize::{clamp_to_window, normalize_start_time};
use streampay::types::{Account, Status, Stream};
use streampay::vesting::{duration, elapsed, progress_bps, unvested, vested, withdrawable};

#[test]
fn test_is_valid_amount_helper() {
    // Only amounts >= MIN_STREAM_AMOUNT (1) are valid; 0 and negatives are not.
    assert!(is_valid_amount(1));
    assert!(is_valid_amount(1_000));
    assert!(!is_valid_amount(0));
    assert!(!is_valid_amount(-1));
}

#[test]
fn test_normalize_start_time_helper() {
    // The 0 sentinel resolves to the ledger clock; other values pass through.
    assert_eq!(normalize_start_time(1_000, 0), 1_000);
    assert_eq!(normalize_start_time(1_000, 500), 500);
    assert_eq!(normalize_start_time(1_000, 2_000), 2_000);
    assert_eq!(normalize_start_time(0, 0), 0);
}

#[test]
fn test_clamp_to_window_helper() {
    // Values are clamped into [start, end] and untouched inside it.
    assert_eq!(clamp_to_window(100, 200, 50), 100);
    assert_eq!(clamp_to_window(100, 200, 100), 100);
    assert_eq!(clamp_to_window(100, 200, 150), 150);
    assert_eq!(clamp_to_window(100, 200, 200), 200);
    assert_eq!(clamp_to_window(100, 200, 500), 200);
}

fn stream(total: i128, withdrawn: i128, start: u64, end: u64) -> Stream {
    Stream {
        sender: Account(String::from("sender")),
        recipient: Account(String::from("recipient")),
        total,
        withdrawn,
        start,
        end,
        status: Status::Active,
    }
}

#[test]
fn vested_follows_the_linear_formula() {
    let s = stream(1_000, 0, 100, 200);
    assert_eq!(vested(&s, 0), Ok(0));
    assert_eq!(vested(&s, 100), Ok(0));
    assert_eq!(vested(&s, 101), Ok(10));
    assert_eq!(vested(&s, 133), Ok(330));
    assert_eq!(vested(&s, 199), Ok(990));
    assert_eq!(vested(&s, 200), Ok(1_000));
    assert_eq!(vested(&s, u64::MAX), Ok(1_000));
}

#[test]
fn vested_truncates_and_releases_dust_at_end() {
    // 10 tokens over 3 seconds: 3 after one second, 6 after two, all 10 at the end.
    let s = stream(10, 0, 0, 3);
    assert_eq!(vested(&s, 1), Ok(3));
    assert_eq!(vested(&s, 2), Ok(6));
    assert_eq!(vested(&s, 3), Ok(10));
}

#[test]
fn vested_reports_overflow() {
    let s = stream(i128::MAX, 0, 0, 10);
    assert_eq!(vested(&s, 5), Err(Error::Overflow));
    // At the end no multiplication takes place.
    assert_eq!(vested(&s, 10), Ok(i128::MAX));
}

#[test]
fn vested_of_a_negative_total_rounds_toward_zero() {
    let s = stream(-10, 0, 0, 3);
    assert_eq!(vested(&s, 1), Ok(-3));
}

#[test]
fn streamed_plus_remaining_is_total() {
    let s = stream(777, 0, 10, 77);
    for t in [0_u64, 10, 11, 40, 76, 77, 1_000] {
        let v = vested(&s, t).unwrap();
        let u = unvested(&s, t).unwrap();
        assert_eq!(v + u, 777);
    }
}

#[test]
fn vested_never_decreases_over_time() {
    let s = stream(12_345, 0, 1_000, 1_777);
    let mut last = 0;
    for t in (900_u64..1_900).step_by(7) {
        let v = vested(&s, t).unwrap();
        assert!(v >= last);
        assert!(v <= 12_345);
        last = v;
    }
}

#[test]
fn withdrawable_subtracts_withdrawn() {
    let s = stream(1_000, 300, 100, 200);
    assert_eq!(withdrawable(&s, 150), Ok(200));
    assert_eq!(withdrawable(&s, 120), Ok(-100));
    assert_eq!(unvested(&s, 150), Ok(500));
}

#[test]
fn elapsed_duration_and_progress() {
    let s = stream(1_000, 0, 100, 300);
    assert_eq!(duration(&s), 200);
    assert_eq!(elapsed(&s, 10), 0);
    assert_eq!(elapsed(&s, 150), 50);
    assert_eq!(elapsed(&s, 1_000), 200);
    assert_eq!(progress_bps(&s, 100), 0);
    assert_eq!(progress_bps(&s, 101), 50);
    assert_eq!(progress_bps(&s, 299), 9_950);
    assert_eq!(progress_bps(&s, 300), 10_000);
}

#[test]
fn progress_of_a_long_window_does_not_overflow() {
    let s = stream(1, 0, 0, u64::MAX);
    assert_eq!(progress_bps(&s, u64::MAX / 2), 4_999);
}
