//! Integrator for ships: advances position from velocity and enforces the
//! toroidal arena wrap.
//!
//! Ships follow the per-frame-displacement convention: velocity is added to
//! position once per tick, undiluted by elapsed time.  Projectiles instead
//! integrate `velocity * elapsed` (see the projectile mover); the two
//! conventions are never mixed for one entity class.  Wrap-around fires only
//! when an entity is past an arena edge by more than its radius while still
//! moving outward, and teleports it to the opposite edge offset by its
//! radius; an entity drifting back toward the arena is left alone.

use vstd::prelude::*;
use crate::fx::CFG_LIMIT;
use crate::fx::VEL_LIMIT;
use crate::world::world_wf;
use crate::world::ShipEntity;
use crate::world::World;
use crate::world::ARENA_HEIGHT_FX;
use crate::world::ARENA_WIDTH_FX;
use crate::components::Spatial;

verus! {

/// One axis of the toroidal wrap: a position past an edge by more than
/// `radius`, still moving outward, reappears at the opposite edge.
pub open spec fn wrap_axis(pos: int, vel: int, radius: int, limit: int) -> int {
    if pos <= -radius && vel < 0 {
        limit + radius
    } else if pos >= limit + radius && vel > 0 {
        -radius
    } else {
        pos
    }
}

/// Wrapping a freshly integrated coordinate keeps it inside any box that
/// holds the arena plus one radius, provided the displacement moved with the
/// velocity's sign.
pub proof fn lemma_wrap_axis_in_bounds(
    pos0: int,
    delta: int,
    vel: int,
    radius: int,
    limit: int,
    bound: int,
)
    requires
        -bound <= pos0 <= bound,
        0 <= radius,
        0 < limit,
        limit + radius <= bound,
        vel > 0 ==> delta >= 0,
        vel < 0 ==> delta <= 0,
        vel == 0 ==> delta == 0,
    ensures
        -bound <= wrap_axis(pos0 + delta, vel, radius, limit) <= bound,
{
}

/// Apply the toroidal wrap to one axis.
pub fn wrap_coord(pos: i64, vel: i64, radius: i64, limit: i64) -> (r: i64)
    requires
        -200_000_000_000 <= pos <= 200_000_000_000,
        -VEL_LIMIT <= vel <= VEL_LIMIT,
        0 <= radius <= CFG_LIMIT,
        0 < limit <= 2_000_000,
    ensures
        r == wrap_axis(pos as int, vel as int, radius as int, limit as int),
{
    if pos <= -radius && vel < 0 {
        limit + radius
    } else if pos >= limit + radius && vel > 0 {
        -radius
    } else {
        pos
    }
}

/// A ship entity after one integration step: position advanced by velocity,
/// then wrapped on each axis independently.
pub open spec fn integrated_ship(e: ShipEntity) -> ShipEntity {
    ShipEntity {
        spatial: Spatial {
            x: wrap_axis(
                e.spatial.x + e.physical.vx,
                e.physical.vx as int,
                e.physical.radius as int,
                ARENA_WIDTH_FX as int,
            ) as i64,
            y: wrap_axis(
                e.spatial.y + e.physical.vy,
                e.physical.vy as int,
                e.physical.radius as int,
                ARENA_HEIGHT_FX as int,
            ) as i64,
            rot: e.spatial.rot,
        },
        physical: e.physical,
        ship: e.ship,
        combat: e.combat,
    }
}

/// Advance one ship and wrap it at the arena edges.
fn integrate_ship(e: &mut ShipEntity)
    requires
        crate::world::ship_entity_wf(*old(e), old(e).ship.side),
    ensures
        *final(e) == integrated_ship(*old(e)),
        crate::world::ship_entity_wf(*final(e), old(e).ship.side),
{
    let x1 = e.spatial.x + e.physical.vx;
    let y1 = e.spatial.y + e.physical.vy;
    proof {
        lemma_wrap_axis_in_bounds(
            old(e).spatial.x as int,
            old(e).physical.vx as int,
            old(e).physical.vx as int,
            old(e).physical.radius as int,
            ARENA_WIDTH_FX as int,
            crate::fx::SHIP_POS_LIMIT as int,
        );
        lemma_wrap_axis_in_bounds(
            old(e).spatial.y as int,
            old(e).physical.vy as int,
            old(e).physical.vy as int,
            old(e).physical.radius as int,
            ARENA_HEIGHT_FX as int,
            crate::fx::SHIP_POS_LIMIT as int,
        );
    }
    e.spatial.x = wrap_coord(x1, e.physical.vx, e.physical.radius, ARENA_WIDTH_FX);
    e.spatial.y = wrap_coord(y1, e.physical.vy, e.physical.radius, ARENA_HEIGHT_FX);
}

/// The Integrator: one pass over both ships, after the Movement Resolver.
pub struct PhysicsSystem;

impl PhysicsSystem {
    /// Advance both ships' positions from their velocities and wrap them at
    /// the arena edges.  Projectiles, combat state and scores are untouched.
    pub fn run(&self, world: &mut World)
        requires
            world_wf(*old(world)),
        ensures
            world_wf(*final(world)),
            final(world).light == integrated_ship(old(world).light),
            final(world).dark == integrated_ship(old(world).dark),
            final(world).lasers@ == old(world).lasers@,
            final(world).scores == old(world).scores,
    {
        integrate_ship(&mut world.light);
        integrate_ship(&mut world.dark);
    }
}

} // verus!
