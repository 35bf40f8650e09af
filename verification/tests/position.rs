//! The normalized position model: construction paths, clamping, round
//! trips, and the completion threshold.

use thump::seeker::{SeekPos, PPM_SCALE, TRACK_DONE_PPM};

#[test]
fn from_elapsed_halfway() {
    let p = SeekPos::from_secs_percent(100_000, 200_000);
    assert_eq!(p.get(), 500_000);
}

#[test]
fn from_elapsed_start_and_end() {
    assert_eq!(SeekPos::from_secs_percent(0, 200_000).get(), 0);
    assert_eq!(SeekPos::from_secs_percent(200_000, 200_000).get(), PPM_SCALE);
}

#[test]
fn from_elapsed_zero_total_is_zero() {
    // No division by zero and no panic: an unknown duration reads as the start.
    assert_eq!(SeekPos::from_secs_percent(0, 0).get(), 0);
    assert_eq!(SeekPos::from_secs_percent(123_456, 0).get(), 0);
    assert_eq!(SeekPos::from_secs_percent(u64::MAX, 0).get(), 0);
}

#[test]
fn from_elapsed_past_end_clamps() {
    assert_eq!(SeekPos::from_secs_percent(200_001, 200_000).get(), PPM_SCALE);
    assert_eq!(SeekPos::from_secs_percent(u64::MAX, 1).get(), PPM_SCALE);
}

#[test]
fn round_trip_exact_on_even_split() {
    let total: u64 = 200_000;
    let elapsed: u64 = 100_000;
    let back = SeekPos::from_secs_percent(elapsed, total).to_millis(total);
    assert_eq!(back, elapsed);
}

#[test]
fn round_trip_within_tolerance() {
    // An odd split rounds, but by no more than total / PPM_SCALE + 1 ms.
    let total: u64 = 3_600_123;
    for elapsed in [1u64, 997, 1_799_999, 3_600_122] {
        let back = SeekPos::from_secs_percent(elapsed, total).to_millis(total);
        assert!(back <= elapsed);
        assert!(elapsed - back <= total / PPM_SCALE + 1);
    }
}

#[test]
fn from_range_is_clamped_low() {
    assert_eq!(SeekPos::from_range(-50, 200).get(), 0);
    assert_eq!(SeekPos::from_range(i64::MIN, 200).get(), 0);
    assert_eq!(SeekPos::from_range(0, 200).get(), 0);
}

#[test]
fn from_range_is_clamped_high() {
    assert_eq!(SeekPos::from_range(250, 200).get(), PPM_SCALE);
    assert_eq!(SeekPos::from_range(200, 200).get(), PPM_SCALE);
    assert_eq!(SeekPos::from_range(i64::MAX, 200).get(), PPM_SCALE);
}

#[test]
fn from_range_interior() {
    assert_eq!(SeekPos::from_range(100, 200).get(), 500_000);
    assert_eq!(SeekPos::from_range(50, 200).get(), 250_000);
    assert_eq!(SeekPos::from_range(1, 3).get(), 333_333);
}

#[test]
fn from_range_zero_width_is_zero() {
    assert_eq!(SeekPos::from_range(10, 0).get(), 0);
    assert_eq!(SeekPos::from_range(-10, 0).get(), 0);
}

#[test]
fn from_ppm_clamps_to_scale() {
    assert_eq!(SeekPos::from_ppm(250_000).get(), 250_000);
    assert_eq!(SeekPos::from_ppm(PPM_SCALE).get(), PPM_SCALE);
    assert_eq!(SeekPos::from_ppm(2_000_000).get(), PPM_SCALE);
}

#[test]
fn to_millis_scales() {
    assert_eq!(SeekPos::from_ppm(250_000).to_millis(1_000), 250);
    assert_eq!(SeekPos::from_ppm(0).to_millis(1_000), 0);
    assert_eq!(SeekPos::from_ppm(PPM_SCALE).to_millis(1_000), 1_000);
    assert_eq!(SeekPos::zero().to_millis(u64::MAX), 0);
}

#[test]
fn completion_threshold() {
    assert_eq!(TRACK_DONE_PPM, 999_999);
    assert!(SeekPos::from_ppm(999_999).is_complete());
    assert!(SeekPos::from_ppm(PPM_SCALE).is_complete());
    assert!(!SeekPos::from_ppm(999_998).is_complete());
    assert!(!SeekPos::zero().is_complete());
}
