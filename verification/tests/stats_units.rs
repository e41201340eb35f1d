use diskspace::stats::{saturating_mul_u64, saturating_sub_u64, VolumeStats};

#[test]
fn blocks_scale_to_exact_byte_counts() {
    let stats = VolumeStats::from_blocks(100, 40, 30, 512);
    assert_eq!(stats.total, 51200);
    assert_eq!(stats.free, 20480);
    assert_eq!(stats.available, 15360);
    assert_eq!(stats.used, 30720);
    assert_eq!(stats.used + stats.free, stats.total);
}

#[test]
fn byte_counts_pass_through_with_used_derived() {
    let stats = VolumeStats::from_bytes(1000, 2000, 5000);
    assert_eq!(stats.available, 1000);
    assert_eq!(stats.free, 2000);
    assert_eq!(stats.total, 5000);
    assert_eq!(stats.used, 3000);
}

#[test]
fn used_is_floored_at_zero_when_free_exceeds_total() {
    let stats = VolumeStats::from_bytes(0, 700, 500);
    assert_eq!(stats.used, 0);
}

#[test]
fn scaling_saturates_instead_of_wrapping() {
    let stats = VolumeStats::from_blocks(u64::MAX, 1, 1, 2);
    assert_eq!(stats.total, u64::MAX);
    assert_eq!(stats.free, 2);
    assert_eq!(stats.used, u64::MAX - 2);
}

#[test]
fn saturating_helpers_match_expected_values() {
    assert_eq!(saturating_sub_u64(10, 3), 7);
    assert_eq!(saturating_sub_u64(3, 10), 0);
    assert_eq!(saturating_mul_u64(0, u64::MAX), 0);
    assert_eq!(saturating_mul_u64(u64::MAX, 1), u64::MAX);
    assert_eq!(saturating_mul_u64(u64::MAX / 2, 3), u64::MAX);
    assert_eq!(saturating_mul_u64(6, 7), 42);
}
