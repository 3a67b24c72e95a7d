//! Time-keeping for the encounter: a one-shot countdown with a
//! "just expired" edge, the repeating spawn cadence, and the oscillating
//! attack indicator of the timing minigame with its damage tiers.

use vstd::prelude::*;
use crate::config::{
    GOOD_DAMAGE, GOOD_LIMIT, HIT_DAMAGE, INDICATOR_SPEED, MAX_SPEED, PERFECT_DAMAGE,
    PERFECT_LIMIT, SPAWN_PERIOD_MS, TRACK_HALF_WIDTH,
};

verus! {

// --- One-shot countdown ---

/// A phase countdown: seconds remaining, in milliseconds. Expiry is an
/// edge: the tick that crosses zero reports it, later ticks do not.
#[derive(Clone, Copy, PartialEq, Eq, Structural, Debug)]
pub struct Countdown {
    pub remaining_ms: u32,
}

/// True exactly on the tick that takes the countdown from positive
/// remaining time to zero.
pub open spec fn countdown_expires(c: Countdown, dt_ms: u32) -> bool {
    c.remaining_ms > 0 && dt_ms >= c.remaining_ms
}

/// The countdown after a tick of `dt_ms`.
pub open spec fn countdown_after(c: Countdown, dt_ms: u32) -> Countdown {
    if dt_ms >= c.remaining_ms {
        Countdown { remaining_ms: 0 }
    } else {
        Countdown { remaining_ms: (c.remaining_ms - dt_ms) as u32 }
    }
}

impl Countdown {
    /// A countdown with `ms` milliseconds to go.
    pub fn from_ms(ms: u32) -> (c: Countdown)
        ensures
            c.remaining_ms == ms,
    {
        Countdown { remaining_ms: ms }
    }

    /// Advances the countdown and reports whether it expired on this tick.
    pub fn tick(&mut self, dt_ms: u32) -> (expired: bool)
        ensures
            *final(self) == countdown_after(*old(self), dt_ms),
            expired == countdown_expires(*old(self), dt_ms),
    {
        let expired = self.remaining_ms > 0 && dt_ms >= self.remaining_ms;
        if dt_ms >= self.remaining_ms {
            self.remaining_ms = 0;
        } else {
            self.remaining_ms = self.remaining_ms - dt_ms;
        }
        expired
    }
}

// --- Repeating spawn cadence ---

/// The repeating cadence that paces bullet spawn batches: it fires each
/// time the accumulated elapsed time completes a period, at most once per
/// tick, and keeps the remainder.
#[derive(Clone, Copy, PartialEq, Eq, Structural, Debug)]
pub struct BulletSpawner {
    pub period_ms: u32,
    pub elapsed_ms: u32,
}

impl BulletSpawner {
    /// Well-formed: a positive period, with strictly less than one period
    /// accumulated.
    pub open spec fn wf(self) -> bool {
        0 < self.period_ms && self.elapsed_ms < self.period_ms
    }

    /// A fresh cadence with the standard spawn period.
    pub fn new() -> (s: BulletSpawner)
        ensures
            s.wf(),
            s.period_ms == SPAWN_PERIOD_MS,
            s.elapsed_ms == 0,
    {
        BulletSpawner { period_ms: SPAWN_PERIOD_MS, elapsed_ms: 0 }
    }

    /// Advances the cadence and reports whether it fired on this tick.
    pub fn tick(&mut self, dt_ms: u32) -> (fired: bool)
        requires
            old(self).wf(),
        ensures
            final(self).wf(),
            *final(self) == spawner_after(*old(self), dt_ms),
            fired == spawner_fires(*old(self), dt_ms),
    {
        let total: u64 = self.elapsed_ms as u64 + dt_ms as u64;
        if total >= self.period_ms as u64 {
            self.elapsed_ms = (total % self.period_ms as u64) as u32;
            true
        } else {
            self.elapsed_ms = total as u32;
            false
        }
    }
}

/// True when the accumulated time reaches a full period this tick.
pub open spec fn spawner_fires(s: BulletSpawner, dt_ms: u32) -> bool {
    s.elapsed_ms + dt_ms >= s.period_ms
}

/// The cadence after a tick: the remainder past the period is kept.
pub open spec fn spawner_after(s: BulletSpawner, dt_ms: u32) -> BulletSpawner {
    if s.elapsed_ms + dt_ms >= s.period_ms {
        BulletSpawner {
            period_ms: s.period_ms,
            elapsed_ms: ((s.elapsed_ms + dt_ms) % (s.period_ms as int)) as u32,
        }
    } else {
        BulletSpawner { period_ms: s.period_ms, elapsed_ms: (s.elapsed_ms + dt_ms) as u32 }
    }
}

// --- Timing minigame ---

/// The oscillating indicator of the timing minigame: a signed offset from
/// the track centre, in milli-units, moving at constant speed and
/// reversing at the track bounds.
#[derive(Clone, Copy, PartialEq, Eq, Structural, Debug)]
pub struct AttackIndicator {
    /// Signed distance from the track centre, milli-units.
    pub offset: i64,
    /// Sweep speed, world units per second.
    pub speed: i64,
    /// Direction of travel: `1` or `-1`.
    pub direction: i64,
}

impl AttackIndicator {
    /// Well-formed: on the track, moving at a sane speed in one of the two
    /// directions.
    pub open spec fn wf(self) -> bool {
        &&& -TRACK_HALF_WIDTH <= self.offset <= TRACK_HALF_WIDTH
        &&& 0 <= self.speed <= MAX_SPEED
        &&& (self.direction == 1 || self.direction == -1i64)
    }

    /// A fresh indicator at the track start, sweeping right.
    pub fn new() -> (ind: AttackIndicator)
        ensures
            ind == indicator_reset(),
            ind.wf(),
    {
        AttackIndicator { offset: -TRACK_HALF_WIDTH, speed: INDICATOR_SPEED, direction: 1 }
    }

    /// Advances the indicator by `dt_ms`: it moves at its speed in its
    /// direction and, past a track bound, is clamped to the bound with the
    /// direction flipped.
    pub fn step(&mut self, dt_ms: u32)
        requires
            old(self).wf(),
        ensures
            *final(self) == indicator_after(*old(self), dt_ms),
            final(self).wf(),
    {
        let dtl: i64 = dt_ms as i64;
        assert(0 <= self.speed * dtl <= MAX_SPEED * 4294967295i64) by (nonlinear_arith)
            requires
                0 <= self.speed <= MAX_SPEED,
                0 <= dtl <= 4294967295i64,
        ;
        let travel: i64 = self.speed * dtl;
        let moved: i64 = if self.direction == 1 {
            self.offset + travel
        } else {
            self.offset - travel
        };
        if moved > TRACK_HALF_WIDTH {
            self.offset = TRACK_HALF_WIDTH;
            self.direction = -1;
        } else if moved < -TRACK_HALF_WIDTH {
            self.offset = -TRACK_HALF_WIDTH;
            self.direction = 1;
        } else {
            self.offset = moved;
        }
    }

    /// The commit reading: the indicator's absolute distance from the
    /// track centre.
    pub fn distance_from_center(&self) -> (d: i64)
        requires
            self.wf(),
        ensures
            d == indicator_distance(*self),
    {
        if self.offset < 0 {
            -self.offset
        } else {
            self.offset
        }
    }
}

/// The indicator every re-entry into PlayerTurn starts with.
pub open spec fn indicator_reset() -> AttackIndicator {
    AttackIndicator {
        offset: (-TRACK_HALF_WIDTH) as i64,
        speed: INDICATOR_SPEED,
        direction: 1,
    }
}

/// The indicator after one tick: one move of `direction * speed * dt`,
/// one clamp, one flip at most.
pub open spec fn indicator_after(ind: AttackIndicator, dt_ms: u32) -> AttackIndicator {
    let moved = if ind.direction == 1 {
        ind.offset + ind.speed * dt_ms
    } else {
        ind.offset - ind.speed * dt_ms
    };
    if moved > TRACK_HALF_WIDTH {
        AttackIndicator { offset: TRACK_HALF_WIDTH, direction: -1i64, ..ind }
    } else if moved < -TRACK_HALF_WIDTH {
        AttackIndicator { offset: (-TRACK_HALF_WIDTH) as i64, direction: 1, ..ind }
    } else {
        AttackIndicator { offset: moved as i64, ..ind }
    }
}

/// Absolute offset from the track centre.
pub open spec fn indicator_distance(ind: AttackIndicator) -> int {
    if ind.offset < 0 {
        -ind.offset
    } else {
        ind.offset as int
    }
}

// --- Damage tiers ---

/// The discrete accuracy classification of a timing commit.
#[derive(Clone, Copy, PartialEq, Eq, Structural, Debug)]
pub enum Tier {
    Perfect,
    Good,
    Hit,
}

/// The tier of a commit distance: strictly below [`PERFECT_LIMIT`] is
/// Perfect, strictly below [`GOOD_LIMIT`] is Good, anything else is Hit.
/// Total over all distances; a boundary value falls in the stricter tier.
pub open spec fn tier_of(distance: int) -> Tier {
    if distance < PERFECT_LIMIT {
        Tier::Perfect
    } else if distance < GOOD_LIMIT {
        Tier::Good
    } else {
        Tier::Hit
    }
}

/// The damage each tier deals.
pub open spec fn tier_damage(t: Tier) -> int {
    match t {
        Tier::Perfect => PERFECT_DAMAGE as int,
        Tier::Good => GOOD_DAMAGE as int,
        Tier::Hit => HIT_DAMAGE as int,
    }
}

/// Classifies a commit distance into its tier.
pub fn damage_tier(distance: i64) -> (t: Tier)
    ensures
        t == tier_of(distance as int),
{
    if distance < PERFECT_LIMIT {
        Tier::Perfect
    } else if distance < GOOD_LIMIT {
        Tier::Good
    } else {
        Tier::Hit
    }
}

/// The damage an attack of tier `t` deals.
pub fn damage_for_tier(t: Tier) -> (d: i32)
    ensures
        d as int == tier_damage(t),
{
    match t {
        Tier::Perfect => PERFECT_DAMAGE,
        Tier::Good => GOOD_DAMAGE,
        Tier::Hit => HIT_DAMAGE,
    }
}

} // verus!
