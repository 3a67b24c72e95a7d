//! The general laws of the encounter core, each stated over the spec
//! functions that the executable contracts use, and proved for every
//! input the law admits.

use vstd::prelude::*;
use crate::components::{Actions, BattlePhase, Bullet};
use crate::timing::{tier_damage, tier_of, Tier};
use crate::bullets::{
    bullet_after, bullet_hits, bullet_live, collision_damage, hit_bullets, step_bullets,
    surviving_bullets,
};
use crate::combat::{tick_effect, BattleModel};
use crate::config::{GOOD_DAMAGE, GOOD_LIMIT, HIT_DAMAGE, PERFECT_DAMAGE, PERFECT_LIMIT};

verus! {

/// The damage tier is a pure, total, deterministic function of the
/// commit distance: for every distance at least zero, exactly one tier
/// applies, split at the two limits, and a boundary value falls in the
/// stricter tier.
pub proof fn lemma_damage_tier_total(distance: int)
    requires
        0 <= distance,
    ensures
        distance < PERFECT_LIMIT ==> tier_of(distance) == Tier::Perfect,
        PERFECT_LIMIT <= distance < GOOD_LIMIT ==> tier_of(distance) == Tier::Good,
        GOOD_LIMIT <= distance ==> tier_of(distance) == Tier::Hit,
        tier_damage(tier_of(PERFECT_LIMIT as int)) == GOOD_DAMAGE,
        tier_damage(tier_of(GOOD_LIMIT as int)) == HIT_DAMAGE,
        tier_damage(Tier::Perfect) == PERFECT_DAMAGE,
        tier_damage(Tier::Good) == GOOD_DAMAGE,
        tier_damage(Tier::Hit) == HIT_DAMAGE,
{
}

/// The edges the phase machine may take in one tick: it stays, or moves
/// one step along
/// Intro, PlayerTurn, EnemyTelegraph, BulletHell, Resolution, and from
/// Resolution only back to PlayerTurn.
pub open spec fn phase_may_advance(from: BattlePhase, to: BattlePhase) -> bool {
    ||| to == from
    ||| match from {
        BattlePhase::Intro => to == BattlePhase::PlayerTurn,
        BattlePhase::PlayerTurn => to == BattlePhase::EnemyTelegraph,
        BattlePhase::EnemyTelegraph => to == BattlePhase::BulletHell,
        BattlePhase::BulletHell => to == BattlePhase::Resolution,
        BattlePhase::Resolution => to == BattlePhase::PlayerTurn,
    }
}

/// No tick skips a phase or revisits one out of order: whatever the
/// state, the elapsed time and the signals, the phase after a tick is
/// the phase before it or its one allowed successor.
pub proof fn lemma_phase_sequence(
    m: BattleModel,
    dt_ms: u32,
    a: Actions,
    ph0: int,
    eh0: int,
    pattern: usize,
)
    ensures
        phase_may_advance(m.phase, tick_effect(m, dt_ms, a, ph0, eh0, pattern).battle.phase),
{
}

/// Exiting BulletHell always yields zero live projectiles immediately,
/// however many were alive the previous tick.
pub proof fn lemma_bullet_hell_exit_clears(
    m: BattleModel,
    dt_ms: u32,
    a: Actions,
    ph0: int,
    eh0: int,
    pattern: usize,
)
    requires
        m.phase == BattlePhase::BulletHell,
    ensures
        ({
            let eff = tick_effect(m, dt_ms, a, ph0, eh0, pattern);
            eff.battle.phase != BattlePhase::BulletHell ==> eff.battle.bullets.len() == 0
        }),
{
}

/// While the player is defending, every connecting projectile applies
/// exactly one point of damage, independent of its own damage value: the
/// total collision damage is the number of connecting projectiles.
pub proof fn lemma_defended_damage_is_per_hit(s: Seq<Bullet>, px: i64, py: i64)
    ensures
        collision_damage(s, px, py, true) == hit_bullets(s, px, py).len(),
    decreases s.len(),
{
    if s.len() > 0 {
        lemma_defended_damage_is_per_hit(s.drop_last(), px, py);
    }
}

/// A projectile that no tick has moved is the projectile itself: the
/// integrator at zero elapsed time changes no position and no lifetime.
proof fn lemma_bullet_after_zero(b: Bullet)
    ensures
        bullet_after(b, 0) == b,
{
}

/// At zero elapsed time the integrator only discards already expired
/// projectiles: every survivor is one of the originals, unmoved.
proof fn lemma_step_zero_keeps_no_overlap(s: Seq<Bullet>, px: i64, py: i64)
    requires
        forall|i: int| 0 <= i < s.len() ==> !bullet_hits(#[trigger] s[i], px, py),
    ensures
        forall|j: int|
            0 <= j < step_bullets(s, 0).len() ==> !bullet_hits(
                #[trigger] step_bullets(s, 0)[j],
                px,
                py,
            ),
    decreases s.len(),
{
    if s.len() > 0 {
        lemma_step_zero_keeps_no_overlap(s.drop_last(), px, py);
        lemma_bullet_after_zero(s.last());
        let rest = step_bullets(s.drop_last(), 0);
        let cur = step_bullets(s, 0);
        assert(!bullet_hits(s[s.len() - 1], px, py));
        assert forall|j: int| 0 <= j < cur.len() implies !bullet_hits(cur[j], px, py) by {
            if bullet_live(s.last()) {
                if j < rest.len() {
                    assert(!bullet_hits(rest[j], px, py));
                } else {
                    assert(cur[j] == s.last());
                }
            } else {
                assert(!bullet_hits(rest[j], px, py));
            }
        }
    }
}

/// Projectiles that nowhere overlap the player deal no collision damage
/// and are all kept.
proof fn lemma_no_overlap_no_damage(s: Seq<Bullet>, px: i64, py: i64, defended: bool)
    requires
        forall|i: int| 0 <= i < s.len() ==> !bullet_hits(#[trigger] s[i], px, py),
    ensures
        collision_damage(s, px, py, defended) == 0,
        surviving_bullets(s, px, py) == s,
    decreases s.len(),
{
    if s.len() > 0 {
        lemma_no_overlap_no_damage(s.drop_last(), px, py, defended);
        assert(surviving_bullets(s, px, py) =~= s);
    }
}

/// A tick of zero elapsed time with no action signals changes no
/// combatant health, no phase, and resolves no outcome — so Room state
/// and the cleared-room counter stay untouched too. The one hypothesis
/// beyond well-formedness: no live projectile already overlaps the
/// player, as a projectile standing on the player connects whenever the
/// collision step runs, however little time has passed.
pub proof fn lemma_zero_dt_no_signals_is_stutter(
    m: BattleModel,
    a: Actions,
    ph0: int,
    eh0: int,
    pattern: usize,
)
    requires
        crate::combat::model_wf(m),
        a.is_none(),
        forall|i: int|
            0 <= i < m.bullets.len() ==> !bullet_hits(
                #[trigger] m.bullets[i],
                m.player_x,
                m.player_y,
            ),
    ensures
        ({
            let eff = tick_effect(m, 0, a, ph0, eh0, pattern);
            &&& eff.player_health == ph0
            &&& eff.enemy_health == eh0
            &&& eff.battle.phase == m.phase
            &&& eff.outcome is None
        }),
{
    if m.concluded is None {
        lemma_step_zero_keeps_no_overlap(m.bullets, m.player_x, m.player_y);
        lemma_no_overlap_no_damage(
            step_bullets(m.bullets, 0),
            m.player_x,
            m.player_y,
            m.player_defended,
        );
    }
}

} // verus!
