//! Tests for the timing minigame, damage tiers, and the two timers.

use encounter_core::config::{
    GOOD_DAMAGE, HIT_DAMAGE, INDICATOR_SPEED, PERFECT_DAMAGE, SPAWN_PERIOD_MS,
    TRACK_HALF_WIDTH,
};
use encounter_core::timing::{
    damage_for_tier, damage_tier, AttackIndicator, BulletSpawner, Countdown, Tier,
};

#[test]
fn tier_zero_distance_is_perfect() {
    assert_eq!(damage_tier(0), Tier::Perfect);
}

#[test]
fn tier_below_first_limit_is_perfect() {
    assert_eq!(damage_tier(24_999), Tier::Perfect);
}

#[test]
fn tier_boundary_is_stricter_good() {
    // distance 25 units falls in Good, not Perfect
    assert_eq!(damage_tier(25_000), Tier::Good);
}

#[test]
fn tier_below_second_limit_is_good() {
    assert_eq!(damage_tier(69_999), Tier::Good);
}

#[test]
fn tier_boundary_is_stricter_hit() {
    // distance 70 units falls in Hit, not Good
    assert_eq!(damage_tier(70_000), Tier::Hit);
}

#[test]
fn tier_far_distance_is_hit() {
    assert_eq!(damage_tier(160_000), Tier::Hit);
}

#[test]
fn tier_damage_values() {
    assert_eq!(damage_for_tier(Tier::Perfect), PERFECT_DAMAGE);
    assert_eq!(damage_for_tier(Tier::Good), GOOD_DAMAGE);
    assert_eq!(damage_for_tier(Tier::Hit), HIT_DAMAGE);
    assert_eq!(damage_for_tier(Tier::Perfect), 15);
    assert_eq!(damage_for_tier(Tier::Good), 10);
    assert_eq!(damage_for_tier(Tier::Hit), 5);
}

#[test]
fn countdown_expires_exactly_once() {
    let mut c = Countdown::from_ms(800);
    assert!(!c.tick(799));
    assert_eq!(c.remaining_ms, 1);
    assert!(c.tick(1));
    assert_eq!(c.remaining_ms, 0);
    // already expired: the edge does not repeat
    assert!(!c.tick(5));
    assert!(!c.tick(0));
}

#[test]
fn countdown_overshoot_expires_on_the_crossing_tick() {
    let mut c = Countdown::from_ms(100);
    assert!(c.tick(10_000));
    assert_eq!(c.remaining_ms, 0);
}

#[test]
fn countdown_zero_dt_never_expires() {
    let mut c = Countdown::from_ms(100);
    assert!(!c.tick(0));
    assert_eq!(c.remaining_ms, 100);
}

#[test]
fn spawner_fires_each_full_period() {
    let mut s = BulletSpawner::new();
    assert_eq!(s.period_ms, SPAWN_PERIOD_MS);
    assert!(!s.tick(499));
    assert!(s.tick(1));
    assert_eq!(s.elapsed_ms, 0);
    assert!(!s.tick(499));
    assert!(s.tick(2));
    assert_eq!(s.elapsed_ms, 1);
}

#[test]
fn spawner_keeps_remainder_past_period() {
    let mut s = BulletSpawner::new();
    assert!(s.tick(1_200));
    assert_eq!(s.elapsed_ms, 200);
}

#[test]
fn indicator_starts_at_track_start_moving_right() {
    let ind = AttackIndicator::new();
    assert_eq!(ind.offset, -TRACK_HALF_WIDTH);
    assert_eq!(ind.direction, 1);
    assert_eq!(ind.speed, INDICATOR_SPEED);
}

#[test]
fn indicator_moves_at_speed_times_dt() {
    let mut ind = AttackIndicator::new();
    // 220 u/s for one second from -160 units: -160000 + 220000 = 60000
    ind.step(1_000);
    assert_eq!(ind.offset, 60_000);
    assert_eq!(ind.direction, 1);
}

#[test]
fn indicator_clamps_and_reverses_at_the_bound() {
    let mut ind = AttackIndicator::new();
    ind.step(1_000);
    ind.step(1_000);
    assert_eq!(ind.offset, TRACK_HALF_WIDTH);
    assert_eq!(ind.direction, -1);
    ind.step(2_000);
    // -160000 reached after travelling 440000 leftwards, clamped
    assert_eq!(ind.offset, -TRACK_HALF_WIDTH);
    assert_eq!(ind.direction, 1);
}

#[test]
fn indicator_zero_dt_is_still() {
    let mut ind = AttackIndicator::new();
    ind.step(0);
    assert_eq!(ind.offset, -TRACK_HALF_WIDTH);
    assert_eq!(ind.direction, 1);
}

#[test]
fn indicator_distance_is_absolute_offset() {
    let mut ind = AttackIndicator::new();
    assert_eq!(ind.distance_from_center(), TRACK_HALF_WIDTH);
    ind.step(1_000);
    assert_eq!(ind.distance_from_center(), 60_000);
}
