//! The encounter controller: the battle phase state machine, the per-tick
//! orchestration of the timing minigame and bullet-hell simulations, and
//! the outcome evaluation that ends an encounter.
//!
//! Within one tick the order is fixed: (1) the phase timer advances,
//! (2) the sub-phase simulations advance — the indicator during
//! PlayerTurn; bullet integration, expiry and cadence-paced spawning
//! during BulletHell — (3) collisions are resolved against the positions
//! just computed, (4) the tick's action signals are processed, and
//! (5) timer-driven phase transitions are evaluated last, against the
//! phase the tick began in, so a transition takes effect starting next
//! tick.

use vstd::prelude::*;
use crate::components::{
    Actions, BattleEvent, BattlePhase, Bullet, DamageSource, Enemy, GameProgress, Outcome,
    Player, Room,
};
use crate::timing::{
    countdown_after, countdown_expires, indicator_after, indicator_distance, indicator_reset,
    spawner_after, spawner_fires, tier_damage, tier_of, AttackIndicator, BulletSpawner,
    Countdown, Tier,
};
use crate::bullets::{
    all_bullets_wf, check_bullet_collision, collision_damage, collision_events, pattern_batch,
    spawn_pattern, step_bullets, surviving_bullets, update_bullets,
};
use crate::config::{
    BULLET_HELL_MS, DODGE_SPEED, DODGE_SPEED_DIAGONAL, INTRO_MS, MAX_LIVE_BULLETS,
    MAX_TICK_DAMAGE, PERFECT_DAMAGE, PLAYER_BOUND_X, PLAYER_BOUND_Y, PLAYER_START_X,
    PLAYER_START_Y, RESOLUTION_MS, SHAKE_ATTACK_MILLI, SHAKE_PERFECT_MILLI, SPAWN_ORIGIN_X,
    SPAWN_ORIGIN_Y, TELEGRAPH_MS,
};

verus! {

/// The state of one encounter, from Intro until it concludes: the phase
/// machine, the phase-scoped countdown, per-encounter counters, and the
/// two embedded mini-simulations.
pub struct CurrentBattle {
    pub phase: BattlePhase,
    pub phase_timer: Countdown,
    /// Set by a Defend action; an all-phase stance, cleared only at
    /// Resolution.
    pub player_defended: bool,
    /// Reserved counter; reset each Resolution, never read by the core.
    pub combo_count: usize,
    /// The timing minigame's indicator; meaningful only during
    /// PlayerTurn, reinitialized fresh on every re-entry.
    pub indicator: AttackIndicator,
    /// The repeating cadence pacing spawn batches; ticks only during
    /// BulletHell and is not reset between BulletHell phases.
    pub spawner: BulletSpawner,
    /// The live projectiles; empty outside BulletHell.
    pub bullets: Vec<Bullet>,
    /// The player soul's position in the arena, milli-units from the
    /// arena centre.
    pub player_x: i64,
    /// See [`Self::player_x`].
    pub player_y: i64,
    /// Once set, the encounter is over and ticking it is a no-op; the
    /// owner is expected to destroy the battle.
    pub concluded: Option<Outcome>,
}

/// The mathematical view of a [`CurrentBattle`]: the same fields with the
/// bullet collection abstracted to a sequence.
#[verifier::ext_equal]
pub struct BattleModel {
    pub phase: BattlePhase,
    pub phase_timer: Countdown,
    pub player_defended: bool,
    pub combo_count: usize,
    pub indicator: AttackIndicator,
    pub spawner: BulletSpawner,
    pub bullets: Seq<Bullet>,
    pub player_x: i64,
    pub player_y: i64,
    pub concluded: Option<Outcome>,
}

impl View for CurrentBattle {
    type V = BattleModel;

    open spec fn view(&self) -> BattleModel {
        BattleModel {
            phase: self.phase,
            phase_timer: self.phase_timer,
            player_defended: self.player_defended,
            combo_count: self.combo_count,
            indicator: self.indicator,
            spawner: self.spawner,
            bullets: self.bullets@,
            player_x: self.player_x,
            player_y: self.player_y,
            concluded: self.concluded,
        }
    }
}

/// Well-formedness of a battle state: sound sub-simulations, a bounded
/// bullet collection, the player inside the arena, and no live bullet
/// outside BulletHell.
pub open spec fn model_wf(m: BattleModel) -> bool {
    &&& m.indicator.wf()
    &&& m.spawner.wf()
    &&& all_bullets_wf(m.bullets)
    &&& m.bullets.len() <= MAX_LIVE_BULLETS
    &&& -PLAYER_BOUND_X <= m.player_x <= PLAYER_BOUND_X
    &&& -PLAYER_BOUND_Y <= m.player_y <= PLAYER_BOUND_Y
    &&& (m.phase != BattlePhase::BulletHell ==> m.bullets.len() == 0)
}

/// The state every encounter starts in.
pub open spec fn initial_model() -> BattleModel {
    BattleModel {
        phase: BattlePhase::Intro,
        phase_timer: Countdown { remaining_ms: INTRO_MS },
        player_defended: false,
        combo_count: 0,
        indicator: indicator_reset(),
        spawner: BulletSpawner { period_ms: crate::config::SPAWN_PERIOD_MS, elapsed_ms: 0 },
        bullets: Seq::empty(),
        player_x: PLAYER_START_X,
        player_y: PLAYER_START_Y,
        concluded: None,
    }
}

impl CurrentBattle {
    /// Well-formed battle state; established by [`CurrentBattle::new`]
    /// and preserved by every tick.
    pub open spec fn wf(&self) -> bool {
        model_wf(self@)
    }

    /// A fresh encounter in Intro, with a full phase timer, a fresh
    /// indicator and cadence, no bullets, and the player soul at its
    /// battle start position.
    pub fn new() -> (b: CurrentBattle)
        ensures
            b@ == initial_model(),
            b.wf(),
    {
        let b = CurrentBattle {
            phase: BattlePhase::Intro,
            phase_timer: Countdown::from_ms(INTRO_MS),
            player_defended: false,
            combo_count: 0,
            indicator: AttackIndicator::new(),
            spawner: BulletSpawner::new(),
            bullets: Vec::new(),
            player_x: PLAYER_START_X,
            player_y: PLAYER_START_Y,
            concluded: None,
        };
        proof {
            assert(b@ =~= initial_model());
        }
        b
    }

    /// Advances the oscillating indicator while the phase is PlayerTurn;
    /// outside it the minigame is stopped.
    pub fn update_attack_indicator(&mut self, dt_ms: u32)
        requires
            old(self).wf(),
        ensures
            final(self)@ == indicator_step(old(self)@, dt_ms),
            final(self).wf(),
    {
        if self.phase == BattlePhase::PlayerTurn {
            self.indicator.step(dt_ms);
        }
        proof {
            assert(final(self)@ =~= indicator_step(old(self)@, dt_ms));
        }
    }

    /// Advances every live bullet and destroys the expired and
    /// out-of-bounds ones, during BulletHell.
    pub fn update_bullets(&mut self, dt_ms: u32)
        requires
            old(self).wf(),
        ensures
            final(self)@ == bullets_step(old(self)@, dt_ms),
            final(self).wf(),
    {
        if self.phase == BattlePhase::BulletHell {
            update_bullets(&mut self.bullets, dt_ms);
        }
        proof {
            assert(final(self)@ =~= bullets_step(old(self)@, dt_ms));
        }
    }

    /// Ticks the spawn cadence during BulletHell and, each time it fires,
    /// emits the batch of the pattern selected by the enemy's
    /// attack-pattern identifier. A batch that would push the collection
    /// past its hard cap is dropped.
    pub fn spawn_bullet_patterns(&mut self, dt_ms: u32, enemy: &Enemy)
        requires
            old(self).wf(),
        ensures
            final(self)@ == spawn_step(old(self)@, dt_ms, enemy.attack_pattern),
            final(self).wf(),
    {
        if self.phase != BattlePhase::BulletHell {
            proof {
                assert(final(self)@ =~= spawn_step(old(self)@, dt_ms, enemy.attack_pattern));
            }
            return;
        }
        let fired = self.spawner.tick(dt_ms);
        if fired {
            let batch = spawn_pattern(enemy.attack_pattern, SPAWN_ORIGIN_X, SPAWN_ORIGIN_Y);
            if self.bullets.len() + batch.len() <= MAX_LIVE_BULLETS {
                let ghost pre = self.bullets@;
                let mut batch = batch;
                self.bullets.append(&mut batch);
                proof {
                    assert forall|j: int| 0 <= j < self.bullets@.len()
                        implies #[trigger] self.bullets@[j].wf() by {
                        if j < pre.len() {
                            assert(pre[j].wf());
                        } else {
                            assert(self.bullets@[j] == pattern_batch(
                                enemy.attack_pattern,
                                SPAWN_ORIGIN_X,
                                SPAWN_ORIGIN_Y,
                            )[j - pre.len()]);
                        }
                    }
                }
            }
        }
        proof {
            assert(final(self)@ =~= spawn_step(old(self)@, dt_ms, enemy.attack_pattern));
        }
    }
}

impl CurrentBattle {
    /// Commits the phase to EnemyTelegraph with a fresh telegraph timer;
    /// called by both action kinds of the player's turn.
    fn start_enemy_turn(&mut self, events: &mut Vec<BattleEvent>)
        ensures
            final(self)@ == (BattleModel {
                phase: BattlePhase::EnemyTelegraph,
                phase_timer: Countdown { remaining_ms: TELEGRAPH_MS },
                ..old(self)@
            }),
            final(events)@ == old(events)@ + seq![
                BattleEvent::PhaseChanged { new_phase: BattlePhase::EnemyTelegraph },
            ],
    {
        self.phase = BattlePhase::EnemyTelegraph;
        self.phase_timer = Countdown::from_ms(TELEGRAPH_MS);
        events.push(BattleEvent::PhaseChanged { new_phase: BattlePhase::EnemyTelegraph });
        proof {
            assert(final(events)@ =~= old(events)@ + seq![
                BattleEvent::PhaseChanged { new_phase: BattlePhase::EnemyTelegraph },
            ]);
        }
    }

    /// Processes this tick's Attack and Defend signals. During PlayerTurn
    /// an Attack commits the indicator's offset, classifies it into a
    /// damage tier and applies that damage to the enemy; a Defend sets
    /// the defending stance instead; either transitions the phase to
    /// EnemyTelegraph. During EnemyTelegraph one late Defend is honored,
    /// only if the player has not already defended. All other signals are
    /// ignored in every other phase.
    pub fn player_turn_input(
        &mut self,
        actions: &Actions,
        enemy: &mut Enemy,
        events: &mut Vec<BattleEvent>,
    )
        requires
            old(self).wf(),
            old(enemy).health - PERFECT_DAMAGE >= i32::MIN,
        ensures
            final(self)@ == player_input_effect(old(self)@, *actions, old(enemy).health as int)
                .battle,
            final(enemy).health as int == player_input_effect(
                old(self)@,
                *actions,
                old(enemy).health as int,
            ).enemy_health,
            final(events)@ == old(events)@ + player_input_effect(
                old(self)@,
                *actions,
                old(enemy).health as int,
            ).events,
            final(self).wf(),
            final(enemy).max_health == old(enemy).max_health,
            final(enemy).room_index == old(enemy).room_index,
            final(enemy).attack_pattern == old(enemy).attack_pattern,
    {
        let ghost eff = player_input_effect(old(self)@, *actions, old(enemy).health as int);
        if self.phase == BattlePhase::PlayerTurn {
            if actions.attack {
                let d = self.indicator.distance_from_center();
                let t = crate::timing::damage_tier(d);
                let dmg = crate::timing::damage_for_tier(t);
                enemy.health = enemy.health - dmg;
                events.push(BattleEvent::DamageDealt {
                    amount: dmg,
                    tier: Some(t),
                    source: DamageSource::PlayerAttack,
                    x: SPAWN_ORIGIN_X,
                    y: SPAWN_ORIGIN_Y,
                });
                let intensity = match t {
                    Tier::Perfect => SHAKE_PERFECT_MILLI,
                    _ => SHAKE_ATTACK_MILLI,
                };
                events.push(BattleEvent::ShakeRequest { intensity_milli: intensity });
                self.start_enemy_turn(events);
            }
            if actions.defend {
                self.player_defended = true;
                self.start_enemy_turn(events);
            }
        } else if self.phase == BattlePhase::EnemyTelegraph && actions.defend
            && !self.player_defended {
            self.player_defended = true;
        }
        proof {
            assert(final(self)@ =~= eff.battle);
            assert(final(events)@ =~= old(events)@ + eff.events);
        }
    }

    /// Applies this tick's level-triggered movement during BulletHell:
    /// the player soul moves at the dodge speed — shared between the axes
    /// when moving diagonally — and is clamped to the arena minus its
    /// half-size. Movement in any other phase is ignored.
    pub fn bullet_hell_player_movement(&mut self, actions: &Actions, dt_ms: u32)
        requires
            old(self).wf(),
            actions.wf(),
        ensures
            final(self)@ == movement_step(old(self)@, *actions, dt_ms),
            final(self).wf(),
    {
        if self.phase != BattlePhase::BulletHell {
            proof {
                assert(final(self)@ =~= movement_step(old(self)@, *actions, dt_ms));
            }
            return;
        }
        let sp: i64 = if actions.move_x != 0 && actions.move_y != 0 {
            DODGE_SPEED_DIAGONAL
        } else {
            DODGE_SPEED
        };
        let dtl: i64 = dt_ms as i64;
        assert(0 <= sp * dtl <= 1000i64 * 4294967295i64) by (nonlinear_arith)
            requires
                0 <= sp <= 1000i64,
                0 <= dtl <= 4294967295i64,
        ;
        let travel: i64 = sp * dtl;
        let nx: i64 = if actions.move_x == 1 {
            self.player_x + travel
        } else if actions.move_x == -1 {
            self.player_x - travel
        } else {
            self.player_x
        };
        self.player_x = if nx > PLAYER_BOUND_X {
            PLAYER_BOUND_X
        } else if nx < -PLAYER_BOUND_X {
            -PLAYER_BOUND_X
        } else {
            nx
        };
        let ny: i64 = if actions.move_y == 1 {
            self.player_y + travel
        } else if actions.move_y == -1 {
            self.player_y - travel
        } else {
            self.player_y
        };
        self.player_y = if ny > PLAYER_BOUND_Y {
            PLAYER_BOUND_Y
        } else if ny < -PLAYER_BOUND_Y {
            -PLAYER_BOUND_Y
        } else {
            ny
        };
        proof {
            assert(final(self)@ =~= movement_step(old(self)@, *actions, dt_ms));
        }
    }
}

/// The effect of an attack commit: the tiered damage notification, the
/// shake request — stronger for a Perfect — and the phase change.
pub open spec fn attack_events(t: Tier) -> Seq<BattleEvent> {
    seq![
        BattleEvent::DamageDealt {
            amount: tier_damage(t) as i32,
            tier: Some(t),
            source: DamageSource::PlayerAttack,
            x: SPAWN_ORIGIN_X,
            y: SPAWN_ORIGIN_Y,
        },
        BattleEvent::ShakeRequest {
            intensity_milli: if t == Tier::Perfect {
                SHAKE_PERFECT_MILLI
            } else {
                SHAKE_ATTACK_MILLI
            },
        },
        BattleEvent::PhaseChanged { new_phase: BattlePhase::EnemyTelegraph },
    ]
}

/// The result of processing one tick's Attack and Defend signals.
#[verifier::ext_equal]
pub struct InputEffect {
    pub battle: BattleModel,
    pub enemy_health: int,
    pub events: Seq<BattleEvent>,
}

/// Processing of Attack and Defend: both signals are honored against the
/// phase the processing starts in, as the two commit checks of the
/// player's turn run back to back — an Attack together with a Defend
/// both applies the attack damage and sets the stance.
pub open spec fn player_input_effect(m: BattleModel, a: Actions, eh0: int) -> InputEffect {
    if m.phase == BattlePhase::PlayerTurn && (a.attack || a.defend) {
        let t = tier_of(indicator_distance(m.indicator));
        let eh1 = if a.attack {
            eh0 - tier_damage(t)
        } else {
            eh0
        };
        let evs = (if a.attack {
            attack_events(t)
        } else {
            Seq::empty()
        }) + (if a.defend {
            seq![BattleEvent::PhaseChanged { new_phase: BattlePhase::EnemyTelegraph }]
        } else {
            Seq::empty()
        });
        InputEffect {
            battle: BattleModel {
                phase: BattlePhase::EnemyTelegraph,
                phase_timer: Countdown { remaining_ms: TELEGRAPH_MS },
                player_defended: m.player_defended || a.defend,
                ..m
            },
            enemy_health: eh1,
            events: evs,
        }
    } else if m.phase == BattlePhase::EnemyTelegraph && a.defend && !m.player_defended {
        InputEffect {
            battle: BattleModel { player_defended: true, ..m },
            enemy_health: eh0,
            events: Seq::empty(),
        }
    } else {
        InputEffect { battle: m, enemy_health: eh0, events: Seq::empty() }
    }
}

/// One clamped axis move: `dir` is a sign, `travel` the distance covered
/// this tick.
pub open spec fn axis_move(pos: i64, dir: i8, travel: int, bound: int) -> int {
    let moved = if dir == 1 {
        pos + travel
    } else if dir == -1 {
        pos - travel
    } else {
        pos as int
    };
    if moved > bound {
        bound
    } else if moved < -bound {
        -bound
    } else {
        moved
    }
}

/// The movement of one tick: active only during BulletHell.
pub open spec fn movement_step(m: BattleModel, a: Actions, dt_ms: u32) -> BattleModel {
    if m.phase == BattlePhase::BulletHell {
        let sp: int = if a.move_x != 0 && a.move_y != 0 {
            DODGE_SPEED_DIAGONAL as int
        } else {
            DODGE_SPEED as int
        };
        BattleModel {
            player_x: axis_move(m.player_x, a.move_x, sp * dt_ms, PLAYER_BOUND_X as int) as i64,
            player_y: axis_move(m.player_y, a.move_y, sp * dt_ms, PLAYER_BOUND_Y as int) as i64,
            ..m
        }
    } else {
        m
    }
}

/// The indicator advance of one tick: active only during PlayerTurn.
pub open spec fn indicator_step(m: BattleModel, dt_ms: u32) -> BattleModel {
    if m.phase == BattlePhase::PlayerTurn {
        BattleModel { indicator: indicator_after(m.indicator, dt_ms), ..m }
    } else {
        m
    }
}

/// The bullet integration of one tick: active only during BulletHell.
pub open spec fn bullets_step(m: BattleModel, dt_ms: u32) -> BattleModel {
    if m.phase == BattlePhase::BulletHell {
        BattleModel { bullets: step_bullets(m.bullets, dt_ms), ..m }
    } else {
        m
    }
}

/// The cadence and spawn of one tick: during BulletHell the cadence
/// advances and, when it fires, the selected pattern's batch is appended
/// unless that would pass the hard cap on live bullets.
pub open spec fn spawn_step(m: BattleModel, dt_ms: u32, pattern: usize) -> BattleModel {
    if m.phase == BattlePhase::BulletHell {
        let fired = spawner_fires(m.spawner, dt_ms);
        let sp = spawner_after(m.spawner, dt_ms);
        let batch = pattern_batch(pattern, SPAWN_ORIGIN_X, SPAWN_ORIGIN_Y);
        let bullets = if fired && m.bullets.len() + batch.len() <= MAX_LIVE_BULLETS {
            m.bullets + batch
        } else {
            m.bullets
        };
        BattleModel { spawner: sp, bullets: bullets, ..m }
    } else {
        m
    }
}

/// The rooms after a win: every room whose index matches the active room
/// is marked cleared; all others are untouched.
pub open spec fn rooms_marked(rooms: Seq<Room>, idx: usize) -> Seq<Room> {
    rooms.map_values(
        |r: Room|
            if r.index == idx {
                Room { index: r.index, cleared: true }
            } else {
                r
            },
    )
}

/// Marks every room whose index matches `idx` as cleared; the only point
/// at which the core mutates Room state.
pub fn mark_room_cleared(rooms: &mut Vec<Room>, idx: usize)
    ensures
        final(rooms)@ == rooms_marked(old(rooms)@, idx),
{
    let ghost s = rooms@;
    let mut out: Vec<Room> = Vec::new();
    let mut i: usize = 0;
    while i < rooms.len()
        invariant
            i <= s.len(),
            rooms@ == s,
            out@ == rooms_marked(s.subrange(0, i as int), idx),
        decreases s.len() - i,
    {
        let r = rooms[i];
        if r.index == idx {
            out.push(Room { index: r.index, cleared: true });
        } else {
            out.push(r);
        }
        proof {
            let pre = s.subrange(0, i as int);
            let cur = s.subrange(0, i + 1);
            assert(cur.drop_last() =~= pre);
            assert(cur.last() == s[i as int]);
            assert(out@ =~= rooms_marked(cur, idx));
        }
        i = i + 1;
    }
    proof {
        assert(s.subrange(0, s.len() as int) =~= s);
    }
    *rooms = out;
}

/// The result of the timer-driven transition step.
#[verifier::ext_equal]
pub struct PhaseStepEffect {
    pub battle: BattleModel,
    pub outcome: Option<Outcome>,
    pub events: Seq<BattleEvent>,
}

/// The timer-driven transitions, evaluated last in a tick against the
/// phase the tick began in (`start_phase`): Intro and a completed
/// Resolution enter PlayerTurn with a fresh indicator, EnemyTelegraph
/// enters BulletHell, BulletHell enters Resolution with every live
/// bullet force-destroyed, and a completed Resolution first evaluates
/// the outcome — a lost player takes precedence over a beaten enemy.
pub open spec fn phase_step_effect(
    start_phase: BattlePhase,
    expired: bool,
    m: BattleModel,
    ph: int,
    eh: int,
) -> PhaseStepEffect {
    if !expired {
        PhaseStepEffect { battle: m, outcome: None, events: Seq::empty() }
    } else {
        match start_phase {
            BattlePhase::Intro => PhaseStepEffect {
                battle: BattleModel {
                    phase: BattlePhase::PlayerTurn,
                    indicator: indicator_reset(),
                    ..m
                },
                outcome: None,
                events: seq![
                    BattleEvent::PhaseChanged { new_phase: BattlePhase::PlayerTurn },
                ],
            },
            BattlePhase::PlayerTurn => PhaseStepEffect {
                battle: m,
                outcome: None,
                events: Seq::empty(),
            },
            BattlePhase::EnemyTelegraph => PhaseStepEffect {
                battle: BattleModel {
                    phase: BattlePhase::BulletHell,
                    phase_timer: Countdown { remaining_ms: BULLET_HELL_MS },
                    ..m
                },
                outcome: None,
                events: seq![
                    BattleEvent::PhaseChanged { new_phase: BattlePhase::BulletHell },
                ],
            },
            BattlePhase::BulletHell => PhaseStepEffect {
                battle: BattleModel {
                    phase: BattlePhase::Resolution,
                    phase_timer: Countdown { remaining_ms: RESOLUTION_MS },
                    bullets: Seq::empty(),
                    ..m
                },
                outcome: None,
                events: seq![
                    BattleEvent::PhaseChanged { new_phase: BattlePhase::Resolution },
                ],
            },
            BattlePhase::Resolution => {
                if ph <= 0 {
                    PhaseStepEffect {
                        battle: BattleModel { concluded: Some(Outcome::Loss), ..m },
                        outcome: Some(Outcome::Loss),
                        events: seq![
                            BattleEvent::EncounterResolved { outcome: Outcome::Loss },
                        ],
                    }
                } else if eh <= 0 {
                    PhaseStepEffect {
                        battle: BattleModel { concluded: Some(Outcome::Win), ..m },
                        outcome: Some(Outcome::Win),
                        events: seq![
                            BattleEvent::EncounterResolved { outcome: Outcome::Win },
                        ],
                    }
                } else {
                    PhaseStepEffect {
                        battle: BattleModel {
                            phase: BattlePhase::PlayerTurn,
                            player_defended: false,
                            combo_count: 0,
                            indicator: indicator_reset(),
                            ..m
                        },
                        outcome: None,
                        events: seq![
                            BattleEvent::PhaseChanged { new_phase: BattlePhase::PlayerTurn },
                        ],
                    }
                }
            },
        }
    }
}

impl CurrentBattle {
    /// The timer-driven transition step of a tick, evaluated against the
    /// phase the tick began in. On a completed Resolution it evaluates
    /// the outcome: a player at zero or below loses — taking precedence
    /// over a beaten enemy — else a beaten enemy wins the encounter,
    /// marking the active room cleared and incrementing the cleared-room
    /// counter; else the battle loops back to PlayerTurn with the
    /// defended flag and combo counter reset.
    pub fn battle_phase_system(
        &mut self,
        start_phase: BattlePhase,
        expired: bool,
        player: &Player,
        enemy: &Enemy,
        rooms: &mut Vec<Room>,
        progress: &mut GameProgress,
        events: &mut Vec<BattleEvent>,
    ) -> (outcome: Option<Outcome>)
        requires
            old(self).wf(),
            old(progress).rooms_cleared < usize::MAX,
            old(self)@.phase == start_phase || (start_phase == BattlePhase::PlayerTurn
                && old(self)@.phase == BattlePhase::EnemyTelegraph),
        ensures
            ({
                let eff = phase_step_effect(
                    start_phase,
                    expired,
                    old(self)@,
                    player.health as int,
                    enemy.health as int,
                );
                &&& final(self)@ == eff.battle
                &&& final(self).wf()
                &&& outcome == eff.outcome
                &&& final(events)@ == old(events)@ + eff.events
                &&& (eff.outcome == Some(Outcome::Win) ==> final(rooms)@ == rooms_marked(
                    old(rooms)@,
                    old(progress).current_room,
                ) && *final(progress) == (GameProgress {
                    rooms_cleared: (old(progress).rooms_cleared + 1) as usize,
                    ..*old(progress)
                }))
                &&& (eff.outcome != Some(Outcome::Win) ==> final(rooms)@ == old(rooms)@
                    && *final(progress) == *old(progress))
            }),
    {
        let ghost eff = phase_step_effect(
            start_phase,
            expired,
            old(self)@,
            player.health as int,
            enemy.health as int,
        );
        if !expired {
            proof {
                assert(final(events)@ =~= old(events)@ + eff.events);
            }
            return None;
        }
        let outcome: Option<Outcome> = match start_phase {
            BattlePhase::Intro => {
                self.phase = BattlePhase::PlayerTurn;
                self.indicator = AttackIndicator::new();
                events.push(BattleEvent::PhaseChanged { new_phase: BattlePhase::PlayerTurn });
                None
            },
            BattlePhase::PlayerTurn => None,
            BattlePhase::EnemyTelegraph => {
                self.phase = BattlePhase::BulletHell;
                self.phase_timer = Countdown::from_ms(BULLET_HELL_MS);
                events.push(BattleEvent::PhaseChanged { new_phase: BattlePhase::BulletHell });
                None
            },
            BattlePhase::BulletHell => {
                self.phase = BattlePhase::Resolution;
                self.phase_timer = Countdown::from_ms(RESOLUTION_MS);
                self.bullets = Vec::new();
                events.push(BattleEvent::PhaseChanged { new_phase: BattlePhase::Resolution });
                None
            },
            BattlePhase::Resolution => {
                if player.health <= 0 {
                    self.concluded = Some(Outcome::Loss);
                    events.push(BattleEvent::EncounterResolved { outcome: Outcome::Loss });
                    Some(Outcome::Loss)
                } else if enemy.health <= 0 {
                    mark_room_cleared(rooms, progress.current_room);
                    progress.rooms_cleared = progress.rooms_cleared + 1;
                    self.concluded = Some(Outcome::Win);
                    events.push(BattleEvent::EncounterResolved { outcome: Outcome::Win });
                    Some(Outcome::Win)
                } else {
                    self.phase = BattlePhase::PlayerTurn;
                    self.player_defended = false;
                    self.combo_count = 0;
                    self.indicator = AttackIndicator::new();
                    events.push(BattleEvent::PhaseChanged {
                        new_phase: BattlePhase::PlayerTurn,
                    });
                    None
                }
            },
        };
        proof {
            assert(final(self)@ =~= eff.battle);
            assert(final(events)@ =~= old(events)@ + eff.events);
        }
        outcome
    }
}

/// What one tick returned to the host loop: the notifications it emitted,
/// in order, and the outcome if the encounter resolved on this tick.
pub struct TickOutput {
    pub events: Vec<BattleEvent>,
    pub outcome: Option<Outcome>,
}

/// The full effect of one tick on the battle, the two combatants' health,
/// and the emitted notifications.
#[verifier::ext_equal]
pub struct TickEffect {
    pub battle: BattleModel,
    pub player_health: int,
    pub enemy_health: int,
    pub outcome: Option<Outcome>,
    pub events: Seq<BattleEvent>,
}

/// One tick of the encounter core as a function of the starting state:
/// the five steps in their fixed order — phase timer, sub-phase
/// simulations, collision resolution against the freshly computed
/// positions, action signals, and timer-driven transitions last.
/// A concluded battle does not tick.
pub open spec fn tick_effect(
    m: BattleModel,
    dt_ms: u32,
    a: Actions,
    ph0: int,
    eh0: int,
    pattern: usize,
) -> TickEffect {
    if m.concluded is Some {
        TickEffect {
            battle: m,
            player_health: ph0,
            enemy_health: eh0,
            outcome: None,
            events: Seq::empty(),
        }
    } else {
        let expired = countdown_expires(m.phase_timer, dt_ms);
        let m1 = BattleModel { phase_timer: countdown_after(m.phase_timer, dt_ms), ..m };
        let m2 = indicator_step(m1, dt_ms);
        let m3 = bullets_step(m2, dt_ms);
        let m4 = spawn_step(m3, dt_ms, pattern);
        let in_hell = m.phase == BattlePhase::BulletHell;
        let dmg = if in_hell {
            collision_damage(m4.bullets, m.player_x, m.player_y, m.player_defended)
        } else {
            0
        };
        let ev_hits = if in_hell {
            collision_events(m4.bullets, m.player_x, m.player_y, m.player_defended)
        } else {
            Seq::empty()
        };
        let m5 = if in_hell {
            BattleModel { bullets: surviving_bullets(m4.bullets, m.player_x, m.player_y), ..m4 }
        } else {
            m4
        };
        let ph1 = ph0 - dmg;
        let ie = player_input_effect(m5, a, eh0);
        let m6 = movement_step(ie.battle, a, dt_ms);
        let pe = phase_step_effect(m.phase, expired, m6, ph1, ie.enemy_health);
        TickEffect {
            battle: pe.battle,
            player_health: ph1,
            enemy_health: ie.enemy_health,
            outcome: pe.outcome,
            events: ev_hits + ie.events + pe.events,
        }
    }
}

impl CurrentBattle {
    /// One frame of the encounter: advances the phase timer, the
    /// phase-appropriate sub-simulations and collisions, processes the
    /// tick's action signals, and evaluates phase transitions last, so a
    /// transition this tick takes effect starting next tick. Returns the
    /// notifications emitted this tick and, on the tick a completed
    /// Resolution ends the encounter, the outcome; on a win the active
    /// room is marked cleared and the cleared-room counter increments.
    /// Ticking an already concluded battle changes nothing.
    pub fn tick(
        &mut self,
        dt_ms: u32,
        actions: &Actions,
        player: &mut Player,
        enemy: &mut Enemy,
        rooms: &mut Vec<Room>,
        progress: &mut GameProgress,
    ) -> (out: TickOutput)
        requires
            old(self).wf(),
            actions.wf(),
            old(player).health - MAX_TICK_DAMAGE >= i32::MIN,
            old(enemy).health - PERFECT_DAMAGE >= i32::MIN,
            old(progress).rooms_cleared < usize::MAX,
        ensures
            ({
                let eff = tick_effect(
                    old(self)@,
                    dt_ms,
                    *actions,
                    old(player).health as int,
                    old(enemy).health as int,
                    old(enemy).attack_pattern,
                );
                &&& final(self)@ == eff.battle
                &&& final(self).wf()
                &&& final(player).health as int == eff.player_health
                &&& final(player).max_health == old(player).max_health
                &&& final(enemy).health as int == eff.enemy_health
                &&& final(enemy).max_health == old(enemy).max_health
                &&& final(enemy).room_index == old(enemy).room_index
                &&& final(enemy).attack_pattern == old(enemy).attack_pattern
                &&& out.outcome == eff.outcome
                &&& out.events@ == eff.events
                &&& (eff.outcome == Some(Outcome::Win) ==> final(rooms)@ == rooms_marked(
                    old(rooms)@,
                    old(progress).current_room,
                ) && *final(progress) == (GameProgress {
                    rooms_cleared: (old(progress).rooms_cleared + 1) as usize,
                    ..*old(progress)
                }))
                &&& (eff.outcome != Some(Outcome::Win) ==> final(rooms)@ == old(rooms)@
                    && *final(progress) == *old(progress))
            }),
    {
        let ghost eff = tick_effect(
            old(self)@,
            dt_ms,
            *actions,
            old(player).health as int,
            old(enemy).health as int,
            old(enemy).attack_pattern,
        );
        if self.concluded.is_some() {
            return TickOutput { events: Vec::new(), outcome: None };
        }
        let start_phase = self.phase;
        let expired = self.phase_timer.tick(dt_ms);
        self.update_attack_indicator(dt_ms);
        self.update_bullets(dt_ms);
        self.spawn_bullet_patterns(dt_ms, enemy);
        let mut events: Vec<BattleEvent> = Vec::new();
        let in_hell = self.phase == BattlePhase::BulletHell;
        let dmg: i32 = if in_hell {
            let px = self.player_x;
            let py = self.player_y;
            let defended = self.player_defended;
            check_bullet_collision(&mut self.bullets, px, py, defended, &mut events)
        } else {
            0
        };
        player.health = player.health - dmg;
        self.player_turn_input(actions, enemy, &mut events);
        self.bullet_hell_player_movement(actions, dt_ms);
        let outcome = self.battle_phase_system(
            start_phase,
            expired,
            player,
            enemy,
            rooms,
            progress,
            &mut events,
        );
        proof {
            assert(self@ =~= eff.battle);
            assert(events@ =~= eff.events);
        }
        TickOutput { events, outcome }
    }
}

} // verus!
