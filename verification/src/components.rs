//! Shared data types of the encounter core: phases, combatants, rooms,
//! bullets, action signals, and the events the core emits for its
//! presentation collaborators.

use vstd::prelude::*;
use crate::config::{
    BULLET_BOUND_X, BULLET_BOUND_Y, BULLET_LIFETIME_MS, MAX_BULLET_DAMAGE, MAX_SPEED,
    PLAYER_MAX_HEALTH,
};

verus! {

/// A named state of the encounter controller. Win and Loss are outcomes
/// reported to the collaborator that owns the encounter, not phases.
#[derive(Clone, Copy, PartialEq, Eq, Structural, Debug)]
pub enum BattlePhase {
    Intro,
    PlayerTurn,
    EnemyTelegraph,
    BulletHell,
    Resolution,
}

/// How an encounter ends.
#[derive(Clone, Copy, PartialEq, Eq, Structural, Debug)]
pub enum Outcome {
    Win,
    Loss,
}

/// The player combatant. Health is a signed count that may go negative
/// transiently; the display layer clamps, the simulation does not.
#[derive(Clone, Copy, PartialEq, Eq, Structural, Debug)]
pub struct Player {
    pub health: i32,
    pub max_health: i32,
}

impl Player {
    /// The player every battle starts with, at full health.
    pub fn new() -> (p: Player)
        ensures
            p.health == PLAYER_MAX_HEALTH,
            p.max_health == PLAYER_MAX_HEALTH,
    {
        Player { health: PLAYER_MAX_HEALTH, max_health: PLAYER_MAX_HEALTH }
    }
}

/// The opposing combatant of one room. `attack_pattern` selects the
/// bullet pattern; any value is valid input, it is reduced modulo the
/// size of the pattern catalog.
#[derive(Clone, Copy, PartialEq, Eq, Structural, Debug)]
pub struct Enemy {
    pub health: i32,
    pub max_health: i32,
    pub room_index: usize,
    pub attack_pattern: usize,
}

/// One room of the overworld; `cleared` is written by the encounter's
/// outcome step and nowhere else in the core.
#[derive(Clone, Copy, PartialEq, Eq, Structural, Debug)]
pub struct Room {
    pub index: usize,
    pub cleared: bool,
}

/// Global progress: which room the active encounter belongs to, and how
/// many rooms have been cleared.
#[derive(Clone, Copy, PartialEq, Eq, Structural, Debug)]
pub struct GameProgress {
    pub current_room: usize,
    pub rooms_cleared: usize,
    pub total_rooms: usize,
}

/// One live projectile: position and constant velocity, a damage value,
/// and a remaining-lifetime countdown. Positions are milli-units from the
/// arena centre; velocities are world units per second.
#[derive(Clone, Copy, PartialEq, Eq, Structural, Debug)]
pub struct Bullet {
    pub x: i64,
    pub y: i64,
    pub vx: i64,
    pub vy: i64,
    pub damage: i32,
    pub lifetime_ms: u32,
}

impl Bullet {
    /// Well-formed: inside the bounded region, with sane speed and damage.
    pub open spec fn wf(self) -> bool {
        &&& -BULLET_BOUND_X <= self.x <= BULLET_BOUND_X
        &&& -BULLET_BOUND_Y <= self.y <= BULLET_BOUND_Y
        &&& -MAX_SPEED <= self.vx <= MAX_SPEED
        &&& -MAX_SPEED <= self.vy <= MAX_SPEED
        &&& 0 <= self.damage <= MAX_BULLET_DAMAGE
        &&& self.lifetime_ms <= BULLET_LIFETIME_MS
    }
}

/// The discrete action signals sampled once per tick. `attack` and
/// `defend` are edge-triggered presses; the move components are
/// level-triggered and each is `-1`, `0` or `1`.
#[derive(Clone, Copy, PartialEq, Eq, Structural, Debug)]
pub struct Actions {
    pub attack: bool,
    pub defend: bool,
    pub move_x: i8,
    pub move_y: i8,
}

impl Actions {
    /// Well-formed: each move component is a sign.
    pub open spec fn wf(self) -> bool {
        &&& -1 <= self.move_x <= 1
        &&& -1 <= self.move_y <= 1
    }

    /// No signal at all this tick.
    pub open spec fn is_none(self) -> bool {
        self == Actions { attack: false, defend: false, move_x: 0i8, move_y: 0i8 }
    }

    /// A tick with no signals.
    pub fn none() -> (a: Actions)
        ensures
            a.is_none(),
            a.wf(),
    {
        Actions { attack: false, defend: false, move_x: 0, move_y: 0 }
    }
}

/// Who dealt a damage notification.
#[derive(Clone, Copy, PartialEq, Eq, Structural, Debug)]
pub enum DamageSource {
    PlayerAttack,
    EnemyAttack,
    Projectile,
}

/// A fire-and-forget notification for the presentation layer. Positions
/// are milli-units from the arena centre; shake intensity is in
/// thousandths of full scale.
#[derive(Clone, Copy, PartialEq, Eq, Structural, Debug)]
pub enum BattleEvent {
    PhaseChanged { new_phase: BattlePhase },
    DamageDealt {
        amount: i32,
        tier: Option<crate::timing::Tier>,
        source: DamageSource,
        x: i64,
        y: i64,
    },
    ShakeRequest { intensity_milli: u32 },
    EncounterResolved { outcome: Outcome },
}

} // verus!
