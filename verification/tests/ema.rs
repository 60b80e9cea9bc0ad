use rustlink::ema::{smooth, WEIGHT_ONE};

#[test]
fn weight_one_is_a_billion() {
    assert_eq!(WEIGHT_ONE, 1_000_000_000);
}

#[test]
fn two_tenths_of_ten_milliseconds() {
    assert_eq!(smooth(200_000_000, 10_000_000, 0), 2_000_000);
}

#[test]
fn weight_zero_returns_the_previous_estimate() {
    for (sample, previous) in [(0u64, 0u64), (5, 9), (u64::MAX, 3), (3, u64::MAX), (1, 0)] {
        assert_eq!(smooth(0, sample, previous), previous);
    }
}

#[test]
fn weight_one_returns_the_sample() {
    for (sample, previous) in [(0u64, 0u64), (5, 9), (u64::MAX, 3), (3, u64::MAX), (0, 1)] {
        assert_eq!(smooth(WEIGHT_ONE, sample, previous), sample);
    }
}

#[test]
fn blend_is_rounded_to_the_nearest_whole_number() {
    // half of 3 is 1.5: halves go upwards
    assert_eq!(smooth(500_000_000, 3, 0), 2);
    assert_eq!(smooth(500_000_000, 0, 3), 2);
    // 0.25 * 1 = 0.25 goes down, 0.75 * 1 = 0.75 goes up
    assert_eq!(smooth(250_000_000, 1, 0), 0);
    assert_eq!(smooth(750_000_000, 1, 0), 1);
    // 0.3 * 10 + 0.7 * 20 = 17
    assert_eq!(smooth(300_000_000, 10, 20), 17);
    // 0.1 * 1004 + 0.9 * 1000 = 1000.4
    assert_eq!(smooth(100_000_000, 1004, 1000), 1000);
    // 0.1 * 1005 + 0.9 * 1000 = 1000.5
    assert_eq!(smooth(100_000_000, 1005, 1000), 1001);
}

#[test]
fn equal_inputs_are_a_fixed_point() {
    for alpha in [0u32, 1, 123_456_789, 500_000_000, 999_999_999, WEIGHT_ONE] {
        for value in [0u64, 1, 1_000_000, u64::MAX] {
            assert_eq!(smooth(alpha, value, value), value);
        }
    }
}

#[test]
fn largest_inputs_do_not_overflow() {
    assert_eq!(smooth(500_000_000, u64::MAX, u64::MAX), u64::MAX);
    assert_eq!(smooth(500_000_000, u64::MAX, 0), 1u64 << 63);
    assert_eq!(smooth(500_000_000, 0, u64::MAX), 1u64 << 63);
    assert_eq!(smooth(1, u64::MAX, 0), 18_446_744_074);
}

#[test]
fn smoothed_value_lies_between_its_inputs() {
    let values = [0u64, 1, 2, 999, 1_000_000_007, u64::MAX / 3, u64::MAX];
    for alpha in [0u32, 1, 333_333_333, 500_000_000, 999_999_999, WEIGHT_ONE] {
        for sample in values {
            for previous in values {
                let estimate = smooth(alpha, sample, previous);
                assert!(estimate >= sample.min(previous));
                assert!(estimate <= sample.max(previous));
            }
        }
    }
}
