//! Tests for the pattern catalog, the projectile integrator, and the
//! collision resolver.

use encounter_core::bullets::{
    check_bullet_collision, spawn_bullet, spawn_cross, spawn_pattern, spawn_spiral,
    spawn_spread, spawn_wave, update_bullets,
};
use encounter_core::components::{BattleEvent, Bullet, DamageSource};
use encounter_core::config::{BULLET_DAMAGE, BULLET_LIFETIME_MS};

#[test]
fn cross_pattern_is_four_cardinal_bullets() {
    // Cross at the origin with per-bullet speed 70
    let out = spawn_cross(0, 0);
    assert_eq!(out.len(), 4);
    let vels: Vec<(i64, i64)> = out.iter().map(|b| (b.vx, b.vy)).collect();
    assert!(vels.contains(&(70, 0)));
    assert!(vels.contains(&(-70, 0)));
    assert!(vels.contains(&(0, 70)));
    assert!(vels.contains(&(0, -70)));
    for b in out.iter() {
        assert_eq!((b.x, b.y), (0, 0));
        assert_eq!(b.damage, BULLET_DAMAGE);
        assert_eq!(b.lifetime_ms, BULLET_LIFETIME_MS);
    }
}

#[test]
fn wave_pattern_is_three_spaced_bullets_moving_down() {
    let out = spawn_wave(0, 80_000);
    assert_eq!(out.len(), 3);
    assert_eq!((out[0].x, out[0].y), (-60_000, 80_000));
    assert_eq!((out[1].x, out[1].y), (0, 80_000));
    assert_eq!((out[2].x, out[2].y), (60_000, 80_000));
    for b in out.iter() {
        assert_eq!((b.vx, b.vy), (0, -70));
    }
}

#[test]
fn spiral_pattern_is_six_radial_bullets() {
    let out = spawn_spiral(0, 0);
    assert_eq!(out.len(), 6);
    assert_eq!((out[0].vx, out[0].vy), (65, 0));
    assert_eq!((out[3].vx, out[3].vy), (-65, 0));
    // opposite emissions cancel: the batch is symmetric about the origin
    for i in 0..3 {
        assert_eq!(out[i].vx, -out[i + 3].vx);
        assert_eq!(out[i].vy, -out[i + 3].vy);
    }
}

#[test]
fn spread_pattern_is_five_bullets_fanned_downward() {
    let out = spawn_spread(0, 0);
    assert_eq!(out.len(), 5);
    assert_eq!((out[2].vx, out[2].vy), (0, -75));
    for b in out.iter() {
        assert!(b.vy < 0);
    }
    // the fan is symmetric about straight down
    assert_eq!(out[0].vx, -out[4].vx);
    assert_eq!(out[1].vx, -out[3].vx);
}

#[test]
fn pattern_identifier_reduced_modulo_catalog() {
    // identifier 7 maps to the Cross pattern (7 mod 4 = 3)
    let out = spawn_pattern(7, 0, 0);
    let cross = spawn_cross(0, 0);
    assert_eq!(out, cross);
    // identifier 0 maps to Wave
    let wave = spawn_pattern(0, 0, 80_000);
    assert_eq!(wave, spawn_wave(0, 80_000));
}

#[test]
fn bullets_advance_by_velocity_times_dt() {
    let mut v = vec![spawn_bullet(0, 0, 70, -30)];
    update_bullets(&mut v, 1_000);
    assert_eq!(v.len(), 1);
    assert_eq!((v[0].x, v[0].y), (70_000, -30_000));
    assert_eq!(v[0].lifetime_ms, BULLET_LIFETIME_MS - 1_000);
}

#[test]
fn bullet_expires_when_lifetime_runs_out() {
    let mut b = spawn_bullet(0, 0, 0, 0);
    b.lifetime_ms = 500;
    let mut v = vec![b];
    update_bullets(&mut v, 499);
    assert_eq!(v.len(), 1);
    update_bullets(&mut v, 1);
    assert_eq!(v.len(), 0);
}

#[test]
fn bullet_expires_outside_horizontal_bound() {
    // starts just inside, leaves 500 units from the centre
    let mut v = vec![spawn_bullet(499_000, 0, 1_000, 0)];
    update_bullets(&mut v, 1_000);
    assert_eq!(v.len(), 0);
}

#[test]
fn bullet_expires_outside_vertical_bound() {
    let mut v = vec![spawn_bullet(0, -299_000, 0, -1_000)];
    update_bullets(&mut v, 1_100);
    assert_eq!(v.len(), 0);
}

#[test]
fn bullet_on_the_bound_stays() {
    let mut v = vec![spawn_bullet(499_000, 0, 1, 0)];
    update_bullets(&mut v, 1_000);
    assert_eq!(v.len(), 1);
    assert_eq!(v[0].x, 500_000);
}

#[test]
fn collision_consumes_bullet_and_applies_its_damage() {
    let mut v = vec![spawn_bullet(0, -50_000, 0, 0)];
    let mut events: Vec<BattleEvent> = Vec::new();
    let damage = check_bullet_collision(&mut v, 0, -50_000, false, &mut events);
    assert_eq!(damage, BULLET_DAMAGE);
    assert_eq!(v.len(), 0);
    assert_eq!(events.len(), 1);
    match events[0] {
        BattleEvent::DamageDealt { amount, tier, source, x, y } => {
            assert_eq!(amount, BULLET_DAMAGE);
            assert_eq!(tier, None);
            assert_eq!(source, DamageSource::Projectile);
            assert_eq!((x, y), (0, -50_000));
        }
        _ => panic!("expected a damage notification"),
    }
}

#[test]
fn defended_hit_applies_exactly_one_damage() {
    // the bullet's own damage value is irrelevant while defending
    let mut b = spawn_bullet(10_000, -50_000, 0, 0);
    b.damage = 999;
    let mut v = vec![b];
    let mut events: Vec<BattleEvent> = Vec::new();
    let damage = check_bullet_collision(&mut v, 0, -50_000, true, &mut events);
    assert_eq!(damage, 1);
    assert_eq!(v.len(), 0);
}

#[test]
fn collision_misses_at_the_hit_radius() {
    // exactly 25 units away: strictly-below test does not connect
    let mut v = vec![spawn_bullet(25_000, 0, 0, 0)];
    let mut events: Vec<BattleEvent> = Vec::new();
    let damage = check_bullet_collision(&mut v, 0, 0, false, &mut events);
    assert_eq!(damage, 0);
    assert_eq!(v.len(), 1);
    assert_eq!(events.len(), 0);
}

#[test]
fn collision_connects_just_inside_the_hit_radius() {
    let mut v = vec![spawn_bullet(24_999, 0, 0, 0)];
    let mut events: Vec<BattleEvent> = Vec::new();
    let damage = check_bullet_collision(&mut v, 0, 0, false, &mut events);
    assert_eq!(damage, BULLET_DAMAGE);
    assert_eq!(v.len(), 0);
}

#[test]
fn multiple_hits_apply_independently_in_one_pass() {
    let mut v = vec![
        spawn_bullet(0, 0, 0, 0),
        spawn_bullet(100_000, 0, 0, 0),
        spawn_bullet(10_000, 0, 0, 0),
    ];
    let mut events: Vec<BattleEvent> = Vec::new();
    let damage = check_bullet_collision(&mut v, 0, 0, false, &mut events);
    assert_eq!(damage, 2 * BULLET_DAMAGE);
    assert_eq!(v.len(), 1);
    assert_eq!(v[0].x, 100_000);
    assert_eq!(events.len(), 2);
}
