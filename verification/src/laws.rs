//! The simulation's cross-cutting laws, stated and proved once.
//!
//! Each law here relates several resolver contracts; the per-function laws
//! (the velocity clamp after thrust, score saturation) live directly in the
//! `ensures` of `MovementSystem::run` and `WinnerSystem::run`.

use vstd::prelude::*;
use vstd::arithmetic::div_mod::lemma_fundamental_div_mod;
use crate::components::applied_damage;
use crate::components::struct_after;
use crate::components::Side;
use crate::components::STRUCT_FLOOR;
use crate::laser::aged_laser;
use crate::laser::aged_pool;
use crate::laser::laser_expires;
use crate::collision_system::collision_fold;
use crate::collision_system::collision_spec_parts;
use crate::collision_system::hit_ship;
use crate::collision_system::hits_ship;
use crate::winner::respawned_ship;
use crate::world::LaserEntity;
use crate::world::ShipEntity;
use crate::world::ARENA_MID_Y_FX;
use crate::world::ARENA_WIDTH_FX;

verus! {

/// Whether a projectile spawned with lifetime `t` is still in the pool
/// after `k` aging passes of `dt` each: it survives each pass while its
/// remaining lifetime exceeds the pass's elapsed time.
pub open spec fn alive_after(t: int, dt: int, k: nat) -> bool
    decreases k,
{
    if k == 0 {
        true
    } else {
        t > dt && alive_after(t - dt, dt, (k - 1) as nat)
    }
}

/// Projectile lifetime, first half: a projectile with lifetime `t` aged in
/// passes of `dt` is present after `k` passes exactly when `k * dt < t` —
/// so it is never deleted early.
pub proof fn lemma_projectile_lifetime(t: int, dt: int, k: nat)
    requires
        t > 0,
        dt > 0,
    ensures
        alive_after(t, dt, k) <==> k * dt < t,
    decreases k,
{
    if k == 0 {
        assert(0 * dt == 0) by (nonlinear_arith);
    } else {
        assert((k - 1) as nat * dt == k * dt - dt) by (nonlinear_arith)
            requires
                k >= 1,
        ;
        if t > dt {
            lemma_projectile_lifetime(t - dt, dt, (k - 1) as nat);
        } else {
            assert(k * dt >= dt) by (nonlinear_arith)
                requires
                    k >= 1,
                    dt > 0,
            ;
        }
    }
}

/// Projectile lifetime, second half: the projectile is deleted after
/// exactly `ceil(t / dt)` passes — present through pass `ceil(t / dt) - 1`,
/// absent from pass `ceil(t / dt)` on.
pub proof fn lemma_projectile_lifetime_ceil(t: int, dt: int)
    requires
        t > 0,
        dt > 0,
    ensures
        !alive_after(t, dt, (((t + dt - 1) / dt)) as nat),
        ((t + dt - 1) / dt) >= 1,
        alive_after(t, dt, (((t + dt - 1) / dt) - 1) as nat),
{
    let k0 = (t + dt - 1) / dt;
    lemma_fundamental_div_mod(t + dt - 1, dt);
    let r = (t + dt - 1) % dt;
    assert(dt * k0 == t + dt - 1 - r);
    assert(k0 * dt == dt * k0) by (nonlinear_arith);
    assert(k0 * dt >= t);
    assert((k0 - 1) * dt == k0 * dt - dt) by (nonlinear_arith);
    assert((k0 - 1) * dt < t);
    assert(k0 >= 1) by (nonlinear_arith)
        requires
            k0 * dt >= t,
            t > 0,
            dt > 0,
    ;
    lemma_projectile_lifetime(t, dt, k0 as nat);
    lemma_projectile_lifetime(t, dt, (k0 - 1) as nat);
}

/// The pool after `k` aging passes of `dt` each.
pub open spec fn aged_k(s: Seq<LaserEntity>, dt: int, k: nat) -> Seq<LaserEntity>
    decreases k,
{
    if k == 0 {
        s
    } else {
        aged_k(aged_pool(s, dt), dt, (k - 1) as nat)
    }
}

proof fn lemma_aged_k_empty(dt: int, k: nat)
    ensures
        aged_k(Seq::<LaserEntity>::empty(), dt, k) == Seq::<LaserEntity>::empty(),
    decreases k,
{
    if k > 0 {
        assert(aged_pool(Seq::<LaserEntity>::empty(), dt) == Seq::<LaserEntity>::empty());
        lemma_aged_k_empty(dt, (k - 1) as nat);
    }
}

/// Projectile lifetime grounded in the pool the Weapon Resolver maintains:
/// a lone projectile with lifetime `t`, aged in passes of `dt`, is still in
/// the pool after `k` passes exactly when `alive_after(t, dt, k)` holds —
/// and while present its timer reads `t - k * dt`.
pub proof fn lemma_single_projectile_pool(l: LaserEntity, dt: int, k: nat)
    requires
        l.laser.timer > 0,
        dt > 0,
    ensures
        alive_after(l.laser.timer as int, dt, k) ==> aged_k(seq![l], dt, k) == seq![
            LaserEntity {
                laser: crate::components::Laser {
                    timer: (l.laser.timer - k * dt) as i64,
                    ..l.laser
                },
                ..l
            },
        ],
        !alive_after(l.laser.timer as int, dt, k) ==> aged_k(seq![l], dt, k) == Seq::<
            LaserEntity,
        >::empty(),
    decreases k,
{
    let t = l.laser.timer as int;
    if k == 0 {
        assert(0 * dt == 0) by (nonlinear_arith);
        assert(seq![l][0] == LaserEntity {
            laser: crate::components::Laser { timer: (t - 0) as i64, ..l.laser },
            ..l
        });
        assert(aged_k(seq![l], dt, k) =~= seq![
            LaserEntity {
                laser: crate::components::Laser { timer: (t - 0 * dt) as i64, ..l.laser },
                ..l
            },
        ]);
    } else {
        assert((k - 1) as nat * dt == k * dt - dt) by (nonlinear_arith)
            requires
                k >= 1,
        ;
        assert(seq![l].first() == l);
        assert(seq![l].drop_first() =~= Seq::<LaserEntity>::empty());
        assert(aged_pool(Seq::<LaserEntity>::empty(), dt) == Seq::<LaserEntity>::empty());
        if laser_expires(l, dt) {
            assert(aged_pool(seq![l], dt) == Seq::<LaserEntity>::empty());
            lemma_aged_k_empty(dt, (k - 1) as nat);
            assert(!alive_after(t, dt, k));
        } else {
            let l2 = aged_laser(l, dt);
            assert(aged_pool(seq![l], dt) =~= seq![l2]);
            assert(l2.laser.timer == t - dt);
            lemma_single_projectile_pool(l2, dt, (k - 1) as nat);
            assert(alive_after(t, dt, k) == alive_after(t - dt, dt, (k - 1) as nat));
            if alive_after(t, dt, k) {
                assert(l2.laser.timer - (k - 1) as nat * dt == t - k * dt);
                assert(LaserEntity {
                    laser: crate::components::Laser {
                        timer: (l2.laser.timer - (k - 1) as nat * dt) as i64,
                        ..l2.laser
                    },
                    ..l2
                } == LaserEntity {
                    laser: crate::components::Laser { timer: (t - k * dt) as i64, ..l.laser },
                    ..l
                });
            }
        }
    }
}

/// No projectile persists past its lifetime: every projectile still in the
/// pool after an aging pass has a positive timer.
pub proof fn lemma_aged_pool_alive(s: Seq<LaserEntity>, elapsed: int)
    requires
        elapsed >= 0,
    ensures
        forall|j: int|
            0 <= j < aged_pool(s, elapsed).len() ==> #[trigger] aged_pool(s, elapsed)[j].laser.timer
                > 0,
    decreases s.len(),
{
    if s.len() > 0 {
        lemma_aged_pool_alive(s.drop_first(), elapsed);
        if !laser_expires(s.first(), elapsed) {
            assert forall|j: int| 0 <= j < aged_pool(s, elapsed).len() implies #[trigger] aged_pool(
                s,
                elapsed,
            )[j].laser.timer > 0 by {
                if j > 0 {
                    assert(aged_pool(s, elapsed)[j] == aged_pool(s.drop_first(), elapsed)[j - 1]);
                }
            }
        }
    }
}

proof fn lemma_collision_fold_structure(
    o: crate::collision_system::CollisionOutcome,
    s: Seq<LaserEntity>,
    light0: ShipEntity,
    dark0: ShipEntity,
)
    requires
        o.light_structure >= STRUCT_FLOOR,
        o.dark_structure >= STRUCT_FLOOR,
    ensures
        collision_fold(o, s, light0, dark0).light_structure <= o.light_structure,
        collision_fold(o, s, light0, dark0).dark_structure <= o.dark_structure,
        collision_fold(o, s, light0, dark0).light_structure >= STRUCT_FLOOR,
        collision_fold(o, s, light0, dark0).dark_structure >= STRUCT_FLOOR,
        (forall|i: int|
            0 <= i < s.len() && hits_ship(#[trigger] s[i], light0) ==> s[i].laser.damage
                <= light0.combat.armour) ==> collision_fold(o, s, light0, dark0).light_structure
            == o.light_structure,
        (forall|i: int|
            0 <= i < s.len() && hits_ship(#[trigger] s[i], dark0) ==> s[i].laser.damage
                <= dark0.combat.armour) ==> collision_fold(o, s, light0, dark0).dark_structure
            == o.dark_structure,
    decreases s.len(),
{
    if s.len() > 0 {
        let o2 = crate::collision_system::laser_hit_step(o, s.first(), light0, dark0);
        lemma_collision_fold_structure(o2, s.drop_first(), light0, dark0);
        assert forall|i: int| 0 <= i < s.drop_first().len() implies #[trigger] s.drop_first()[i]
            == s[i + 1] by {}
    }
}

/// Structure never increases from the Collision Resolver's pass, whatever
/// the pool holds and whether or not the hulls touch.
pub proof fn lemma_collision_structure_monotone(
    light0: ShipEntity,
    dark0: ShipEntity,
    pool: Seq<LaserEntity>,
)
    requires
        light0.combat.structure >= STRUCT_FLOOR,
        dark0.combat.structure >= STRUCT_FLOOR,
    ensures
        collision_spec_parts(light0, dark0, pool).light_structure <= light0.combat.structure,
        collision_spec_parts(light0, dark0, pool).dark_structure <= dark0.combat.structure,
{
    lemma_collision_fold_structure(
        crate::collision_system::outcome_init(light0, dark0),
        pool,
        light0,
        dark0,
    );
}

/// The damage floor over a whole collision pass: when every projectile that
/// strikes a ship carries damage at or below that ship's armour, and the
/// hulls do not touch, the pass leaves the ship's structure exactly
/// unchanged — zero applied damage, never negative.
pub proof fn lemma_damage_floor_pool(light0: ShipEntity, dark0: ShipEntity, pool: Seq<LaserEntity>)
    requires
        light0.combat.structure >= STRUCT_FLOOR,
        dark0.combat.structure >= STRUCT_FLOOR,
        forall|i: int|
            0 <= i < pool.len() && hits_ship(#[trigger] pool[i], light0) ==> pool[i].laser.damage
                <= light0.combat.armour,
        !crate::collision_system::ships_overlap(light0, dark0),
    ensures
        collision_spec_parts(light0, dark0, pool).light_structure == light0.combat.structure,
{
    lemma_collision_fold_structure(
        crate::collision_system::outcome_init(light0, dark0),
        pool,
        light0,
        dark0,
    );
}

/// The damage floor: a projectile whose damage does not exceed the ship's
/// armour applies exactly zero damage — never negative, and the hit leaves
/// the ship's structure unchanged.
pub proof fn lemma_damage_floor(e: ShipEntity, l: LaserEntity, jitter: int)
    requires
        l.laser.damage <= e.combat.armour,
        e.combat.structure >= STRUCT_FLOOR,
    ensures
        applied_damage(l.laser.damage as int, e.combat.armour as int) == 0,
        hit_ship(e, l, jitter).combat.structure == e.combat.structure,
{
    assert(struct_after(e.combat.structure as int, 0) == e.combat.structure);
}

/// Applied damage is never negative, whatever the projectile and armour.
pub proof fn lemma_damage_nonnegative(damage: int, armour: int)
    ensures
        applied_damage(damage, armour) >= 0,
{
}

/// Respawn state: after any destruction event both ships sit at half arena
/// height at their starting headings, with zero velocity and a full hull.
pub proof fn lemma_respawn_state(e: ShipEntity)
    ensures
        respawned_ship(e).physical.vx == 0,
        respawned_ship(e).physical.vy == 0,
        respawned_ship(e).combat.structure == e.combat.max_structure,
        respawned_ship(e).spatial.y == ARENA_MID_Y_FX,
{
}

/// Respawn symmetry: two ships of equal collision radius respawn at mirror
/// images across the arena's vertical midline (their x coordinates sum to
/// the arena width at equal height).
pub proof fn lemma_respawn_symmetry(light: ShipEntity, dark: ShipEntity)
    requires
        light.ship.side == Side::Light,
        dark.ship.side == Side::Dark,
        crate::components::physical_wf(light.physical),
        crate::components::physical_wf(dark.physical),
        light.physical.radius == dark.physical.radius,
    ensures
        respawned_ship(light).spatial.x + respawned_ship(dark).spatial.x == ARENA_WIDTH_FX,
        respawned_ship(light).spatial.y == respawned_ship(dark).spatial.y,
{
}

} // verus!
