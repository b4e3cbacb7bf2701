//! Lock scheduler tiers and entropy handling, and the fee arithmetic.
use fossr::fees::fee;
use fossr::lock::calculate_lock_duration;
use fossr::state::ErrorCode;

#[test]
fn tier_boundary_amount_takes_higher_tier() {
    // Exactly at the first threshold: the shorter tier applies, not the lower
    // one. Entropy [1,0,..,0], time 10, slot 2 combine to offset 13.
    let entropy = [1u8, 0, 0, 0, 0, 0, 0, 0];
    let d = calculate_lock_duration(100_000_000, 10, 2, &entropy).unwrap();
    assert_eq!(d, 240 + 13);
    // One below the threshold: the lower tier with its longer range.
    let d = calculate_lock_duration(99_999_999, 10, 2, &entropy).unwrap();
    assert_eq!(d, 300 + 13);
}

#[test]
fn every_tier_has_its_range() {
    let entropy = [1u8, 0, 0, 0, 0, 0, 0, 0];
    let d1 = calculate_lock_duration(10_000_000, 10, 2, &entropy).unwrap();
    let d2 = calculate_lock_duration(100_000_000, 10, 2, &entropy).unwrap();
    let d3 = calculate_lock_duration(500_000_000, 10, 2, &entropy).unwrap();
    let d4 = calculate_lock_duration(1_000_000_000, 10, 2, &entropy).unwrap();
    assert!((300..18000).contains(&d1));
    assert!((240..14400).contains(&d2));
    assert!((180..10800).contains(&d3));
    assert!((60..3600).contains(&d4));
    assert_eq!((d1, d2, d3, d4), (313, 253, 193, 73));
}

#[test]
fn entropy_reads_first_eight_bytes_little_endian() {
    // 0x3039 = 12345 as the seed, nothing else mixed in.
    let entropy = [0x39u8, 0x30, 0, 0, 0, 0, 0, 0, 0xFF, 0xFF];
    let d = calculate_lock_duration(10_000_000, 0, 0, &entropy).unwrap();
    assert_eq!(d, 300 + 12345);
}

#[test]
fn short_entropy_falls_back_to_timestamp() {
    let entropy = [1u8, 2, 3];
    let d = calculate_lock_duration(10_000_000, 100, 0, &entropy).unwrap();
    // Seed and timestamp are both 100; offset is 200.
    assert_eq!(d, 300 + 200);
}

#[test]
fn wrapping_mixes_negative_timestamps() {
    // Time -1 doubles to two below the wraparound; slot 5 lands on 3.
    let d = calculate_lock_duration(10_000_000, -1, 5, &[]).unwrap();
    assert_eq!(d, 303);
}

#[test]
fn fee_is_exact_floor() {
    assert_eq!(fee(1_000_000_000_000_000, 69), Ok(690_000_000_000));
    assert_eq!(fee(1_000_000_000_000_000, 621), Ok(6_210_000_000_000));
    assert_eq!(fee(1_000_000_000, 10), Ok(100_000));
    assert_eq!(fee(12_345, 10), Ok(1));
    assert_eq!(fee(99, 69), Ok(0));
    assert_eq!(fee(0, 621), Ok(0));
}

#[test]
fn fee_reports_overflow() {
    assert_eq!(fee(u64::MAX, 2), Err(ErrorCode::ArithmeticOverflow));
    assert_eq!(fee(u64::MAX / 69, 69), Ok((u64::MAX / 69) * 69 / 100_000));
}
