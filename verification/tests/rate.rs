use cue_pacer::cue::Cue;
use cue_pacer::rate::{compute_rate, Rate, DEFAULT_SLOW_THRESHOLD, MILLION};

const SEC: u64 = 1_000_000_000;

fn cue() -> Cue {
    Cue::new(10 * SEC, 15 * SEC, String::from("text")).unwrap()
}

fn rate(millionths: u32) -> Rate {
    Rate { millionths }
}

#[test]
fn rate_at_the_edge_of_the_slow_zone_is_the_target() {
    assert_eq!(compute_rate(14 * SEC, &cue(), 0, 0, Rate::one(), 200_000), rate(1_000_000));
}

#[test]
fn rate_halfway_through_the_slow_zone_is_half_the_target() {
    assert_eq!(compute_rate(14 * SEC + SEC / 2, &cue(), 0, 0, Rate::one(), 200_000), rate(500_000));
}

#[test]
fn rate_past_the_end_is_zero() {
    assert_eq!(compute_rate(16 * SEC, &cue(), 0, 0, Rate::one(), 200_000), rate(0));
    assert_eq!(compute_rate(15 * SEC + 1, &cue(), 3, 3, rate(2_500_000), 200_000), rate(0));
}

#[test]
fn rate_at_the_very_end_is_zero() {
    assert_eq!(compute_rate(15 * SEC, &cue(), 0, 0, Rate::one(), 200_000), rate(0));
}

#[test]
fn rate_far_from_the_end_is_the_target() {
    for target in [0, 1, 800_000, MILLION, 1_200_000, u32::MAX] {
        assert_eq!(compute_rate(10 * SEC, &cue(), 0, 0, rate(target), 200_000), rate(target));
        assert_eq!(compute_rate(14 * SEC - 1, &cue(), 0, 0, rate(target), 200_000), rate(target));
        assert_eq!(compute_rate(0, &cue(), 0, 0, rate(target), 200_000), rate(target));
    }
}

#[test]
fn rate_ramp_scales_the_target_and_rounds_down() {
    assert_eq!(compute_rate(14 * SEC + SEC / 2, &cue(), 0, 0, rate(1_200_000), 200_000), rate(600_000));
    assert_eq!(compute_rate(14 * SEC + SEC / 4, &cue(), 0, 0, rate(1_000_001), 200_000), rate(750_000));
    assert_eq!(
        compute_rate(14 * SEC + 3 * SEC / 4, &cue(), 0, 0, Rate::one(), DEFAULT_SLOW_THRESHOLD),
        rate(500_000)
    );
}

#[test]
fn rate_behind_the_deadline_is_twice_the_share_left() {
    assert_eq!(compute_rate(12 * SEC + SEC / 2, &cue(), 0, 1, Rate::one(), 200_000), rate(1_000_000));
    assert_eq!(compute_rate(10 * SEC, &cue(), 0, 1, Rate::one(), 200_000), rate(2_000_000));
    assert_eq!(compute_rate(14 * SEC, &cue(), 2, 1, rate(1_200_000), 200_000), rate(480_000));
    assert_eq!(compute_rate(5 * SEC, &cue(), 0, 1, Rate::one(), 200_000), rate(4_000_000));
}

#[test]
fn rate_behind_the_deadline_is_zero_past_the_end() {
    assert_eq!(compute_rate(15 * SEC, &cue(), 0, 1, Rate::one(), 200_000), rate(0));
    assert_eq!(compute_rate(20 * SEC, &cue(), 0, 1, Rate::one(), 200_000), rate(0));
}

#[test]
fn rate_behind_the_deadline_stops_at_the_largest_rate() {
    let late = Cue::new(u64::MAX - 1, u64::MAX, String::new()).unwrap();
    assert_eq!(compute_rate(0, &late, 0, 1, Rate::one(), 200_000), Rate::max());
    assert_eq!(compute_rate(0, &late, 0, 1, Rate::max(), 200_000), rate(u32::MAX));
}

#[test]
fn rate_for_a_cue_of_no_length() {
    let point = Cue::new(10 * SEC, 10 * SEC, String::new()).unwrap();
    assert_eq!(compute_rate(9 * SEC, &point, 0, 0, rate(700_000), 200_000), rate(700_000));
    assert_eq!(compute_rate(10 * SEC, &point, 0, 0, rate(700_000), 200_000), rate(0));
    assert_eq!(compute_rate(11 * SEC, &point, 0, 0, rate(700_000), 200_000), rate(0));
    assert_eq!(compute_rate(10 * SEC, &point, 1, 0, rate(700_000), 200_000), rate(0));
    assert_eq!(compute_rate(10 * SEC - 1, &point, 1, 0, rate(700_000), 200_000), rate(1_400_000));
}

#[test]
fn rate_with_no_slow_zone() {
    assert_eq!(compute_rate(15 * SEC - 1, &cue(), 0, 0, Rate::one(), 0), rate(1_000_000));
    assert_eq!(compute_rate(15 * SEC, &cue(), 0, 0, Rate::one(), 0), rate(0));
}

#[test]
fn rate_with_the_whole_cue_as_slow_zone() {
    assert_eq!(compute_rate(10 * SEC, &cue(), 0, 0, Rate::one(), MILLION), rate(1_000_000));
    assert_eq!(compute_rate(11 * SEC, &cue(), 0, 0, Rate::one(), MILLION), rate(800_000));
    assert_eq!(compute_rate(9 * SEC, &cue(), 0, 0, Rate::one(), MILLION), rate(1_000_000));
}

#[test]
fn rate_constants() {
    assert_eq!(Rate::zero(), rate(0));
    assert_eq!(Rate::one(), rate(1_000_000));
    assert_eq!(Rate::max(), rate(4_294_967_295));
    assert_eq!(DEFAULT_SLOW_THRESHOLD, 100_000);
}
