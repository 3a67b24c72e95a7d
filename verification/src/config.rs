//! The single table of tuning constants for the encounter core.
//!
//! Distances are in milli-units (one thousandth of a world unit), speeds in
//! world units per second, durations in milliseconds, damage in health
//! points. A speed multiplied by a duration therefore yields milli-units
//! directly: `u/s * ms = milli-units`.

use vstd::prelude::*;

verus! {

/// Milli-units per world unit.
pub const MILLI: i64 = 1000;

// --- Phase durations (§ state machine) ---

/// Duration of the Intro phase.
pub const INTRO_MS: u32 = 800;
/// Duration of the EnemyTelegraph phase.
pub const TELEGRAPH_MS: u32 = 1500;
/// Duration of the BulletHell phase.
pub const BULLET_HELL_MS: u32 = 4000;
/// Duration of the Resolution phase.
pub const RESOLUTION_MS: u32 = 1000;

// --- Combatants ---

/// Health the player enters every battle with.
pub const PLAYER_MAX_HEALTH: i32 = 30;

// --- Timing minigame ---

/// Half-width of the timing track; the indicator offset stays in
/// `[-TRACK_HALF_WIDTH, TRACK_HALF_WIDTH]`.
pub const TRACK_HALF_WIDTH: i64 = 160 * MILLI;
/// Speed of the oscillating indicator, world units per second.
pub const INDICATOR_SPEED: i64 = 220;
/// A commit distance strictly below this is a Perfect.
pub const PERFECT_LIMIT: i64 = 25 * MILLI;
/// A commit distance strictly below this (and not Perfect) is a Good.
pub const GOOD_LIMIT: i64 = 70 * MILLI;
/// Damage dealt by a Perfect attack.
pub const PERFECT_DAMAGE: i32 = 15;
/// Damage dealt by a Good attack.
pub const GOOD_DAMAGE: i32 = 10;
/// Damage dealt by any other attack.
pub const HIT_DAMAGE: i32 = 5;

// --- Arena and bullet-hell movement ---

/// Full width of the battle arena.
pub const ARENA_WIDTH: i64 = 350 * MILLI;
/// Full height of the battle arena.
pub const ARENA_HEIGHT: i64 = 280 * MILLI;
/// Half-size of the player square; movement is clamped to the arena
/// shrunk by this margin.
pub const PLAYER_HALF_SIZE: i64 = 15 * MILLI;
/// Horizontal bound for the player's centre: half the arena width minus
/// the player's half-size.
pub const PLAYER_BOUND_X: i64 = 175 * MILLI - PLAYER_HALF_SIZE;
/// Vertical bound for the player's centre: half the arena height minus
/// the player's half-size.
pub const PLAYER_BOUND_Y: i64 = 140 * MILLI - PLAYER_HALF_SIZE;
/// Dodge speed while moving along a single axis, units per second.
pub const DODGE_SPEED: i64 = 150;
/// Per-axis dodge speed while moving diagonally (the axis share of the
/// same overall speed, rounded to whole units per second).
pub const DODGE_SPEED_DIAGONAL: i64 = 106;
/// Where the player's soul starts when a battle begins (milli-units,
/// relative to the arena centre).
pub const PLAYER_START_X: i64 = 0;
/// See [`PLAYER_START_X`].
pub const PLAYER_START_Y: i64 = -50 * MILLI;

// --- Bullets ---

/// Interval between bullet spawn batches during BulletHell.
pub const SPAWN_PERIOD_MS: u32 = 500;
/// Damage of every spawned bullet.
pub const BULLET_DAMAGE: i32 = 4;
/// Damage applied by a bullet hit while the player is defending.
pub const DEFENDED_DAMAGE: i32 = 1;
/// Safety expiry for a bullet that never leaves the bounded region.
pub const BULLET_LIFETIME_MS: u32 = 8000;
/// A bullet farther than this from the arena centre, horizontally,
/// is destroyed.
pub const BULLET_BOUND_X: i64 = 500 * MILLI;
/// A bullet farther than this from the arena centre, vertically,
/// is destroyed.
pub const BULLET_BOUND_Y: i64 = 300 * MILLI;
/// A bullet within this distance of the player's centre hits.
pub const HIT_RADIUS: i64 = 25 * MILLI;
/// Where patterns are emitted from, relative to the arena centre: the
/// enemy stands above the player's half of the arena.
pub const SPAWN_ORIGIN_X: i64 = 0;
/// See [`SPAWN_ORIGIN_X`].
pub const SPAWN_ORIGIN_Y: i64 = 80 * MILLI;

// --- Pattern catalog speeds ---

/// Downward speed of every Wave bullet.
pub const WAVE_SPEED: i64 = 70;
/// Horizontal spacing between Wave bullets, milli-units.
pub const WAVE_SPACING: i64 = 60 * MILLI;
/// Radial speed of every Spiral bullet.
pub const SPIRAL_SPEED: i64 = 65;
/// Outward speed of every Spread bullet.
pub const SPREAD_SPEED: i64 = 75;
/// Speed of every Cross bullet.
pub const CROSS_SPEED: i64 = 70;

// --- Machine limits ---

/// Hard cap on live bullets; a spawn batch that would push the collection
/// past it is dropped. Unreachable in practice: one batch of at most six
/// bullets fires per cadence period, and BulletHell lasts a few periods.
pub const MAX_LIVE_BULLETS: usize = 4096;
/// Largest damage value a well-formed bullet may carry.
pub const MAX_BULLET_DAMAGE: i32 = 1000;
/// Largest speed component a well-formed bullet or indicator may carry,
/// units per second.
pub const MAX_SPEED: i64 = 1000;
/// Upper bound on the damage one tick can apply to the player.
pub const MAX_TICK_DAMAGE: i32 = 4096 * 1000;

// --- Event intensities ---

/// Screen-shake intensity, in thousandths of full scale, for a Perfect.
pub const SHAKE_PERFECT_MILLI: u32 = 600;
/// Screen-shake intensity, in thousandths, for any other attack.
pub const SHAKE_ATTACK_MILLI: u32 = 300;

} // verus!
