//! The bullet-hell simulation: the pattern catalog that emits spawn
//! batches, the projectile integrator with expiry, and the collision
//! resolver against the player's position.

use vstd::prelude::*;
use crate::components::{BattleEvent, Bullet, DamageSource};
use crate::config::{
    BULLET_BOUND_X, BULLET_BOUND_Y, BULLET_DAMAGE, BULLET_LIFETIME_MS, CROSS_SPEED,
    HIT_RADIUS, MAX_BULLET_DAMAGE, MAX_LIVE_BULLETS, MAX_SPEED, PLAYER_BOUND_X,
    PLAYER_BOUND_Y, SPIRAL_SPEED, SPREAD_SPEED, WAVE_SPACING, WAVE_SPEED,
};

verus! {

/// Every bullet in the sequence is well-formed.
pub open spec fn all_bullets_wf(s: Seq<Bullet>) -> bool {
    forall|i: int| 0 <= i < s.len() ==> #[trigger] s[i].wf()
}

/// An emission origin far enough inside the bounded region that every
/// bullet of a batch starts well-formed.
pub open spec fn spawn_origin_ok(ox: i64, oy: i64) -> bool {
    &&& -(BULLET_BOUND_X - WAVE_SPACING) <= ox <= BULLET_BOUND_X - WAVE_SPACING
    &&& -BULLET_BOUND_Y <= oy <= BULLET_BOUND_Y
}

// --- Spawning one bullet ---

/// The bullet every pattern emits: standard damage and safety lifetime.
pub open spec fn fresh_bullet(x: int, y: int, vx: int, vy: int) -> Bullet {
    Bullet {
        x: x as i64,
        y: y as i64,
        vx: vx as i64,
        vy: vy as i64,
        damage: BULLET_DAMAGE,
        lifetime_ms: BULLET_LIFETIME_MS,
    }
}

/// Creates one bullet at `(x, y)` with velocity `(vx, vy)`, with the
/// standard per-bullet damage and lifetime ceiling.
pub fn spawn_bullet(x: i64, y: i64, vx: i64, vy: i64) -> (b: Bullet)
    ensures
        b == fresh_bullet(x as int, y as int, vx as int, vy as int),
{
    Bullet { x, y, vx, vy, damage: BULLET_DAMAGE, lifetime_ms: BULLET_LIFETIME_MS }
}

// --- The pattern catalog ---

/// Wave: three bullets spaced evenly along a horizontal line through the
/// origin, all moving straight down toward the player's side.
pub open spec fn wave_batch(ox: i64, oy: i64) -> Seq<Bullet> {
    seq![
        fresh_bullet(ox - WAVE_SPACING, oy as int, 0, -WAVE_SPEED),
        fresh_bullet(ox as int, oy as int, 0, -WAVE_SPEED),
        fresh_bullet(ox + WAVE_SPACING, oy as int, 0, -WAVE_SPEED),
    ]
}

/// Spiral: six bullets at equal angular increments around a full circle,
/// moving radially outward at uniform speed. The velocity components are
/// the speed times the unit vector at each sixth of a turn, rounded to
/// whole units per second.
pub open spec fn spiral_batch(ox: i64, oy: i64) -> Seq<Bullet> {
    seq![
        fresh_bullet(ox as int, oy as int, SPIRAL_SPEED as int, 0),
        fresh_bullet(ox as int, oy as int, 33, 56),
        fresh_bullet(ox as int, oy as int, -33, 56),
        fresh_bullet(ox as int, oy as int, -SPIRAL_SPEED, 0),
        fresh_bullet(ox as int, oy as int, -33, -56),
        fresh_bullet(ox as int, oy as int, 33, -56),
    ]
}

/// Spread: five bullets in a narrow downward fan, at angular steps of
/// three tenths of a radian up to six tenths either side of straight
/// down, each at uniform speed; components rounded to whole units per
/// second.
pub open spec fn spread_batch(ox: i64, oy: i64) -> Seq<Bullet> {
    seq![
        fresh_bullet(ox as int, oy as int, -42, -62),
        fresh_bullet(ox as int, oy as int, -22, -72),
        fresh_bullet(ox as int, oy as int, 0, -SPREAD_SPEED),
        fresh_bullet(ox as int, oy as int, 22, -72),
        fresh_bullet(ox as int, oy as int, 42, -62),
    ]
}

/// Cross: four bullets, one per cardinal direction, at uniform speed.
pub open spec fn cross_batch(ox: i64, oy: i64) -> Seq<Bullet> {
    seq![
        fresh_bullet(ox as int, oy as int, CROSS_SPEED as int, 0),
        fresh_bullet(ox as int, oy as int, -CROSS_SPEED, 0),
        fresh_bullet(ox as int, oy as int, 0, CROSS_SPEED as int),
        fresh_bullet(ox as int, oy as int, 0, -CROSS_SPEED),
    ]
}

/// The batch the pattern with identifier `pattern` emits: the identifier
/// is brought into the catalog's range with a modulo, so any enemy
/// identifier is valid input.
pub open spec fn pattern_batch(pattern: usize, ox: i64, oy: i64) -> Seq<Bullet> {
    if pattern as int % 4 == 0 {
        wave_batch(ox, oy)
    } else if pattern as int % 4 == 1 {
        spiral_batch(ox, oy)
    } else if pattern as int % 4 == 2 {
        spread_batch(ox, oy)
    } else {
        cross_batch(ox, oy)
    }
}

/// Emits the Wave batch from `(ox, oy)`.
pub fn spawn_wave(ox: i64, oy: i64) -> (out: Vec<Bullet>)
    requires
        spawn_origin_ok(ox, oy),
    ensures
        out@ == wave_batch(ox, oy),
        all_bullets_wf(out@),
{
    let mut out: Vec<Bullet> = Vec::new();
    out.push(spawn_bullet(ox - WAVE_SPACING, oy, 0, -WAVE_SPEED));
    out.push(spawn_bullet(ox, oy, 0, -WAVE_SPEED));
    out.push(spawn_bullet(ox + WAVE_SPACING, oy, 0, -WAVE_SPEED));
    proof {
        assert(out@ =~= wave_batch(ox, oy));
    }
    out
}

/// Emits the Spiral batch from `(ox, oy)`.
pub fn spawn_spiral(ox: i64, oy: i64) -> (out: Vec<Bullet>)
    requires
        spawn_origin_ok(ox, oy),
    ensures
        out@ == spiral_batch(ox, oy),
        all_bullets_wf(out@),
{
    let mut out: Vec<Bullet> = Vec::new();
    out.push(spawn_bullet(ox, oy, SPIRAL_SPEED, 0));
    out.push(spawn_bullet(ox, oy, 33, 56));
    out.push(spawn_bullet(ox, oy, -33, 56));
    out.push(spawn_bullet(ox, oy, -SPIRAL_SPEED, 0));
    out.push(spawn_bullet(ox, oy, -33, -56));
    out.push(spawn_bullet(ox, oy, 33, -56));
    proof {
        assert(out@ =~= spiral_batch(ox, oy));
    }
    out
}

/// Emits the Spread batch from `(ox, oy)`.
pub fn spawn_spread(ox: i64, oy: i64) -> (out: Vec<Bullet>)
    requires
        spawn_origin_ok(ox, oy),
    ensures
        out@ == spread_batch(ox, oy),
        all_bullets_wf(out@),
{
    let mut out: Vec<Bullet> = Vec::new();
    out.push(spawn_bullet(ox, oy, -42, -62));
    out.push(spawn_bullet(ox, oy, -22, -72));
    out.push(spawn_bullet(ox, oy, 0, -SPREAD_SPEED));
    out.push(spawn_bullet(ox, oy, 22, -72));
    out.push(spawn_bullet(ox, oy, 42, -62));
    proof {
        assert(out@ =~= spread_batch(ox, oy));
    }
    out
}

/// Emits the Cross batch from `(ox, oy)`.
pub fn spawn_cross(ox: i64, oy: i64) -> (out: Vec<Bullet>)
    requires
        spawn_origin_ok(ox, oy),
    ensures
        out@ == cross_batch(ox, oy),
        all_bullets_wf(out@),
{
    let mut out: Vec<Bullet> = Vec::new();
    out.push(spawn_bullet(ox, oy, CROSS_SPEED, 0));
    out.push(spawn_bullet(ox, oy, -CROSS_SPEED, 0));
    out.push(spawn_bullet(ox, oy, 0, CROSS_SPEED));
    out.push(spawn_bullet(ox, oy, 0, -CROSS_SPEED));
    proof {
        assert(out@ =~= cross_batch(ox, oy));
    }
    out
}

/// Emits the batch of the pattern selected by `pattern`, reduced into
/// the catalog's range with a modulo.
pub fn spawn_pattern(pattern: usize, ox: i64, oy: i64) -> (out: Vec<Bullet>)
    requires
        spawn_origin_ok(ox, oy),
    ensures
        out@ == pattern_batch(pattern, ox, oy),
        all_bullets_wf(out@),
        3 <= out@.len() <= 6,
{
    match pattern % 4 {
        0 => spawn_wave(ox, oy),
        1 => spawn_spiral(ox, oy),
        2 => spawn_spread(ox, oy),
        _ => spawn_cross(ox, oy),
    }
}

// --- Integration and expiry ---

/// One bullet after a tick: position advanced by velocity times elapsed
/// time, lifetime counted down.
pub open spec fn bullet_after(b: Bullet, dt_ms: u32) -> Bullet {
    Bullet {
        x: (b.x + b.vx * dt_ms) as i64,
        y: (b.y + b.vy * dt_ms) as i64,
        lifetime_ms: if dt_ms >= b.lifetime_ms {
            0u32
        } else {
            (b.lifetime_ms - dt_ms) as u32
        },
        ..b
    }
}

/// A bullet survives a tick when its lifetime has not run out and it is
/// still inside the bounded region (a bullet exactly on a bound stays).
pub open spec fn bullet_live(b: Bullet) -> bool {
    &&& b.lifetime_ms > 0
    &&& -BULLET_BOUND_X <= b.x <= BULLET_BOUND_X
    &&& -BULLET_BOUND_Y <= b.y <= BULLET_BOUND_Y
}

/// The live bullets after a tick, in order: each advanced, the expired
/// and out-of-bounds ones destroyed.
pub open spec fn step_bullets(s: Seq<Bullet>, dt_ms: u32) -> Seq<Bullet>
    decreases s.len(),
{
    if s.len() == 0 {
        Seq::empty()
    } else {
        let rest = step_bullets(s.drop_last(), dt_ms);
        let nb = bullet_after(s.last(), dt_ms);
        if bullet_live(nb) {
            rest.push(nb)
        } else {
            rest
        }
    }
}

/// Advances one bullet by `dt_ms`.
fn advance_bullet(b: &Bullet, dt_ms: u32) -> (nb: Bullet)
    requires
        b.wf(),
    ensures
        nb == bullet_after(*b, dt_ms),
{
    let dtl: i64 = dt_ms as i64;
    assert(-(MAX_SPEED * 4294967295i64) <= b.vx * dtl <= MAX_SPEED * 4294967295i64)
        by (nonlinear_arith)
        requires
            -MAX_SPEED <= b.vx <= MAX_SPEED,
            0 <= dtl <= 4294967295i64,
    ;
    assert(-(MAX_SPEED * 4294967295i64) <= b.vy * dtl <= MAX_SPEED * 4294967295i64)
        by (nonlinear_arith)
        requires
            -MAX_SPEED <= b.vy <= MAX_SPEED,
            0 <= dtl <= 4294967295i64,
    ;
    Bullet {
        x: b.x + b.vx * dtl,
        y: b.y + b.vy * dtl,
        lifetime_ms: if dt_ms >= b.lifetime_ms {
            0
        } else {
            b.lifetime_ms - dt_ms
        },
        ..*b
    }
}

/// Advances every live bullet by `dt_ms` and destroys each that expires
/// or leaves the bounded region. The survivors keep their order.
pub fn update_bullets(bullets: &mut Vec<Bullet>, dt_ms: u32)
    requires
        all_bullets_wf(old(bullets)@),
    ensures
        final(bullets)@ == step_bullets(old(bullets)@, dt_ms),
        all_bullets_wf(final(bullets)@),
        final(bullets)@.len() <= old(bullets)@.len(),
{
    let ghost s = bullets@;
    let mut out: Vec<Bullet> = Vec::new();
    let mut i: usize = 0;
    while i < bullets.len()
        invariant
            i <= s.len(),
            bullets@ == s,
            all_bullets_wf(s),
            out@ == step_bullets(s.subrange(0, i as int), dt_ms),
            all_bullets_wf(out@),
            out@.len() <= i,
        decreases s.len() - i,
    {
        proof {
            assert(s[i as int].wf());
        }
        let nb = advance_bullet(&bullets[i], dt_ms);
        let live = nb.lifetime_ms > 0
            && -BULLET_BOUND_X <= nb.x && nb.x <= BULLET_BOUND_X
            && -BULLET_BOUND_Y <= nb.y && nb.y <= BULLET_BOUND_Y;
        if live {
            let ghost prev = out@;
            out.push(nb);
            proof {
                assert(nb.wf());
                assert forall|j: int| 0 <= j < out@.len() implies #[trigger] out@[j].wf() by {
                    if j < prev.len() {
                        assert(prev[j].wf());
                    } else {
                        assert(out@[j] == nb);
                    }
                }
            }
        }
        proof {
            let pre = s.subrange(0, i as int);
            let cur = s.subrange(0, i + 1);
            assert(cur.drop_last() =~= pre);
            assert(cur.last() == s[i as int]);
        }
        i = i + 1;
    }
    proof {
        assert(s.subrange(0, s.len() as int) =~= s);
    }
    *bullets = out;
}

// --- Collision resolution ---

/// A bullet overlaps the player when the squared Euclidean distance
/// between their centres is strictly below the squared hit radius.
pub open spec fn bullet_hits(b: Bullet, px: i64, py: i64) -> bool {
    (b.x - px) * (b.x - px) + (b.y - py) * (b.y - py) < HIT_RADIUS * HIT_RADIUS
}

/// The damage one connecting bullet applies: exactly one point while the
/// player is defending, else the bullet's own damage value.
pub open spec fn hit_damage(defended: bool, b: Bullet) -> int {
    if defended {
        1
    } else {
        b.damage as int
    }
}

/// The bullets that survive collision resolution, in order: each bullet
/// that overlaps the player is consumed.
pub open spec fn surviving_bullets(s: Seq<Bullet>, px: i64, py: i64) -> Seq<Bullet>
    decreases s.len(),
{
    if s.len() == 0 {
        Seq::empty()
    } else {
        let rest = surviving_bullets(s.drop_last(), px, py);
        if bullet_hits(s.last(), px, py) {
            rest
        } else {
            rest.push(s.last())
        }
    }
}

/// The bullets that connect with the player this tick, in order.
pub open spec fn hit_bullets(s: Seq<Bullet>, px: i64, py: i64) -> Seq<Bullet>
    decreases s.len(),
{
    if s.len() == 0 {
        Seq::empty()
    } else {
        let rest = hit_bullets(s.drop_last(), px, py);
        if bullet_hits(s.last(), px, py) {
            rest.push(s.last())
        } else {
            rest
        }
    }
}

/// The total damage the connecting bullets apply, each independently.
pub open spec fn collision_damage(s: Seq<Bullet>, px: i64, py: i64, defended: bool) -> int
    decreases s.len(),
{
    if s.len() == 0 {
        0
    } else {
        collision_damage(s.drop_last(), px, py, defended) + if bullet_hits(
            s.last(),
            px,
            py,
        ) {
            hit_damage(defended, s.last())
        } else {
            0
        }
    }
}

/// The damage notification each connecting bullet emits, at the point of
/// impact.
pub open spec fn hit_event(defended: bool, b: Bullet) -> BattleEvent {
    BattleEvent::DamageDealt {
        amount: hit_damage(defended, b) as i32,
        tier: None,
        source: DamageSource::Projectile,
        x: b.x,
        y: b.y,
    }
}

/// The damage notifications of a collision pass, in bullet order.
pub open spec fn collision_events(s: Seq<Bullet>, px: i64, py: i64, defended: bool)
    -> Seq<BattleEvent> {
    hit_bullets(s, px, py).map_values(|b: Bullet| hit_event(defended, b))
}

/// Tests each live bullet against the player's position: each bullet
/// within the hit radius is destroyed and applies its damage — one point
/// while the player defends — and emits a damage notification. Returns
/// the total damage applied and the notifications, in bullet order.
pub fn check_bullet_collision(
    bullets: &mut Vec<Bullet>,
    px: i64,
    py: i64,
    defended: bool,
    events: &mut Vec<BattleEvent>,
) -> (damage: i32)
    requires
        all_bullets_wf(old(bullets)@),
        old(bullets)@.len() <= MAX_LIVE_BULLETS,
        -PLAYER_BOUND_X <= px <= PLAYER_BOUND_X,
        -PLAYER_BOUND_Y <= py <= PLAYER_BOUND_Y,
    ensures
        final(bullets)@ == surviving_bullets(old(bullets)@, px, py),
        all_bullets_wf(final(bullets)@),
        final(bullets)@.len() <= old(bullets)@.len(),
        damage as int == collision_damage(old(bullets)@, px, py, defended),
        0 <= damage <= MAX_LIVE_BULLETS * MAX_BULLET_DAMAGE,
        final(events)@ == old(events)@ + collision_events(old(bullets)@, px, py, defended),
{
    let ghost s = bullets@;
    let ghost evs0 = events@;
    let mut out: Vec<Bullet> = Vec::new();
    let mut damage: i32 = 0;
    let mut i: usize = 0;
    while i < bullets.len()
        invariant
            i <= s.len(),
            s.len() <= MAX_LIVE_BULLETS,
            bullets@ == s,
            all_bullets_wf(s),
            -PLAYER_BOUND_X <= px <= PLAYER_BOUND_X,
            -PLAYER_BOUND_Y <= py <= PLAYER_BOUND_Y,
            out@ == surviving_bullets(s.subrange(0, i as int), px, py),
            all_bullets_wf(out@),
            out@.len() <= i,
            damage as int == collision_damage(s.subrange(0, i as int), px, py, defended),
            0 <= damage <= i * MAX_BULLET_DAMAGE,
            events@ == evs0 + collision_events(s.subrange(0, i as int), px, py, defended),
        decreases s.len() - i,
    {
        let b = bullets[i];
        proof {
            assert(s[i as int].wf());
        }
        let dx: i64 = b.x - px;
        let dy: i64 = b.y - py;
        assert(0 <= dx * dx <= 700000i64 * 700000i64) by (nonlinear_arith)
            requires
                -700000 <= dx <= 700000i64,
        ;
        assert(0 <= dy * dy <= 700000i64 * 700000i64) by (nonlinear_arith)
            requires
                -700000 <= dy <= 700000i64,
        ;
        let hits = dx * dx + dy * dy < HIT_RADIUS * HIT_RADIUS;
        if hits {
            let amount = if defended {
                crate::config::DEFENDED_DAMAGE
            } else {
                b.damage
            };
            damage = damage + amount;
            events.push(BattleEvent::DamageDealt {
                amount,
                tier: None,
                source: DamageSource::Projectile,
                x: b.x,
                y: b.y,
            });
        } else {
            let ghost prev = out@;
            out.push(b);
            proof {
                assert forall|j: int| 0 <= j < out@.len() implies #[trigger] out@[j].wf() by {
                    if j < prev.len() {
                        assert(prev[j].wf());
                    } else {
                        assert(out@[j] == b);
                    }
                }
            }
        }
        proof {
            let pre = s.subrange(0, i as int);
            let cur = s.subrange(0, i + 1);
            assert(cur.drop_last() =~= pre);
            assert(cur.last() == s[i as int]);
            if bullet_hits(s[i as int], px, py) {
                assert(hit_bullets(cur, px, py) == hit_bullets(pre, px, py).push(s[i as int]));
                assert(collision_events(cur, px, py, defended) =~= collision_events(
                    pre,
                    px,
                    py,
                    defended,
                ).push(hit_event(defended, s[i as int])));
            } else {
                assert(collision_events(cur, px, py, defended) =~= collision_events(
                    pre,
                    px,
                    py,
                    defended,
                ));
            }
        }
        i = i + 1;
    }
    proof {
        assert(s.subrange(0, s.len() as int) =~= s);
    }
    *bullets = out;
    damage
}

} // verus!
