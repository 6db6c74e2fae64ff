use corn_vault::reward::{calculate_reward, MS_PER_HOUR};

#[test]
fn two_steps_at_five_percent() {
    assert_eq!(calculate_reward(200_000_000, 7_200_000, 1, 50_000, 1_000_000, 1_000_000), Some(220_500_000));
}

#[test]
fn degenerate_vault_pays_nothing() {
    assert_eq!(calculate_reward(200_000_000, 7_200_000, 1, 50_000, 0, 1_000_000), None);
    assert_eq!(calculate_reward(200_000_000, 7_200_000, 1, 50_000, 1_000_000, 0), None);
    assert_eq!(calculate_reward(200_000_000, 7_200_000, 0, 50_000, 1_000_000, 1_000_000), None);
}

#[test]
fn before_first_interval_total_is_zero() {
    assert_eq!(calculate_reward(200_000_000, 3 * MS_PER_HOUR - 1, 3, 50_000, 1_000_000, 1_000_000), Some(0));
    assert_eq!(calculate_reward(200_000_000, 0, 1, 50_000, 1_000_000, 1_000_000), Some(0));
}

#[test]
fn only_multiples_of_base_hour_compound() {
    // five hours with a two-hour interval: two steps
    assert_eq!(calculate_reward(200_000_000, 5 * MS_PER_HOUR, 2, 50_000, 1_000_000_000, 1_000_000_000), Some(220_500_000));
}

#[test]
fn pool_ratio_scales_rate() {
    // half the starting pool: 2.5% per step
    assert_eq!(calculate_reward(200_000_000, 2 * MS_PER_HOUR, 1, 50_000, 500, 1_000), Some(210_125_000));
    assert_eq!(calculate_reward(123_456_789, 3 * MS_PER_HOUR, 1, 33_333, 7, 9), Some(133_309_978));
}

#[test]
fn reward_capped_at_one_day() {
    let day = calculate_reward(200_000_000, 24 * MS_PER_HOUR, 1, 50_000, 1_000_000_000, 1_000_000_000);
    assert_eq!(day, Some(645_019_974));
    assert_eq!(calculate_reward(200_000_000, 240 * MS_PER_HOUR, 1, 50_000, 1_000_000_000, 1_000_000_000), day);
    assert_eq!(calculate_reward(200_000_000, u64::MAX, 1, 50_000, 1_000_000_000, 1_000_000_000), day);
}

#[test]
fn total_clips_to_u64() {
    assert_eq!(calculate_reward(u64::MAX, MS_PER_HOUR, 1, 50_000, 1, 1), Some(u64::MAX));
    assert_eq!(calculate_reward(1_000_000_000_000_000_000, 24 * MS_PER_HOUR, 1, 1_000_000, 5, 1), Some(u64::MAX));
}

#[test]
fn rounding_down_each_step() {
    assert_eq!(calculate_reward(1_000_000_007, 24 * MS_PER_HOUR, 1, 50_000, 1, 1), Some(3_225_099_948));
}
