//! Mover for projectiles: advances every projectile by
//! `velocity * elapsed` and enforces the same toroidal wrap as the ship
//! integrator.

use vstd::prelude::*;
use crate::components::Spatial;
use crate::fx::fx_mul;
use crate::fx::lemma_fx_mul_sign;
use crate::fx::mul_fx;
use crate::fx::ELAPSED_LIMIT;
use crate::fx::POS_LIMIT;
use crate::physics::lemma_wrap_axis_in_bounds;
use crate::physics::wrap_axis;
use crate::physics::wrap_coord;
use crate::world::laser_entity_wf;
use crate::world::world_wf;
use crate::world::LaserEntity;
use crate::world::World;
use crate::world::ARENA_HEIGHT_FX;
use crate::world::ARENA_WIDTH_FX;

verus! {

/// A projectile entity after one integration step: position advanced by
/// `velocity * elapsed`, then wrapped on each axis independently.
pub open spec fn moved_laser(l: LaserEntity, elapsed: int) -> LaserEntity {
    LaserEntity {
        spatial: Spatial {
            x: wrap_axis(
                l.spatial.x + fx_mul(l.physical.vx as int, elapsed),
                l.physical.vx as int,
                l.physical.radius as int,
                ARENA_WIDTH_FX as int,
            ) as i64,
            y: wrap_axis(
                l.spatial.y + fx_mul(l.physical.vy as int, elapsed),
                l.physical.vy as int,
                l.physical.radius as int,
                ARENA_HEIGHT_FX as int,
            ) as i64,
            rot: l.spatial.rot,
        },
        physical: l.physical,
        laser: l.laser,
    }
}

/// Advance one projectile and wrap it at the arena edges.
fn move_one_laser(l: &LaserEntity, elapsed: i64) -> (r: LaserEntity)
    requires
        laser_entity_wf(*l),
        0 <= elapsed <= ELAPSED_LIMIT,
    ensures
        r == moved_laser(*l, elapsed as int),
        laser_entity_wf(r),
{
    let dx = mul_fx(l.physical.vx, elapsed);
    let dy = mul_fx(l.physical.vy, elapsed);
    proof {
        lemma_fx_mul_sign(l.physical.vx as int, elapsed as int);
        lemma_fx_mul_sign(l.physical.vy as int, elapsed as int);
        crate::fx::lemma_fx_mul_bound(
            l.physical.vx as int,
            elapsed as int,
            1_000_000_000,
            100_000,
            100_000_000_000,
        );
        crate::fx::lemma_fx_mul_bound(
            l.physical.vy as int,
            elapsed as int,
            1_000_000_000,
            100_000,
            100_000_000_000,
        );
        lemma_wrap_axis_in_bounds(
            l.spatial.x as int,
            dx as int,
            l.physical.vx as int,
            l.physical.radius as int,
            ARENA_WIDTH_FX as int,
            POS_LIMIT as int,
        );
        lemma_wrap_axis_in_bounds(
            l.spatial.y as int,
            dy as int,
            l.physical.vy as int,
            l.physical.radius as int,
            ARENA_HEIGHT_FX as int,
            POS_LIMIT as int,
        );
    }
    LaserEntity {
        spatial: Spatial {
            x: wrap_coord(l.spatial.x + dx, l.physical.vx, l.physical.radius, ARENA_WIDTH_FX),
            y: wrap_coord(l.spatial.y + dy, l.physical.vy, l.physical.radius, ARENA_HEIGHT_FX),
            rot: l.spatial.rot,
        },
        physical: l.physical,
        laser: l.laser,
    }
}

/// The projectile mover: one pass over the projectile pool, after the
/// Movement Resolver and beside the ship integrator.
pub struct MoveLaserSystem;

impl MoveLaserSystem {
    /// Advance every projectile by `velocity * elapsed` and wrap it at the
    /// arena edges.  Ships, combat state and scores are untouched.
    pub fn run(&self, world: &mut World, elapsed: i64)
        requires
            world_wf(*old(world)),
            0 <= elapsed <= ELAPSED_LIMIT,
        ensures
            world_wf(*final(world)),
            final(world).lasers@ == old(world).lasers@.map_values(
                |l: LaserEntity| moved_laser(l, elapsed as int),
            ),
            final(world).light == old(world).light,
            final(world).dark == old(world).dark,
            final(world).scores == old(world).scores,
    {
        let ghost pool0 = world.lasers@;
        let mut moved: Vec<LaserEntity> = Vec::new();
        let n = world.lasers.len();
        let mut i: usize = 0;
        while i < n
            invariant
                n == pool0.len(),
                world.lasers@ == pool0,
                crate::world::lasers_wf(pool0),
                0 <= i <= n,
                moved@ == pool0.subrange(0, i as int).map_values(
                    |l: LaserEntity| moved_laser(l, elapsed as int),
                ),
                crate::world::lasers_wf(moved@),
                0 <= elapsed <= ELAPSED_LIMIT,
            decreases n - i,
        {
            let m = move_one_laser(&world.lasers[i], elapsed);
            moved.push(m);
            proof {
                assert(pool0.subrange(0, i + 1 as int).map_values(
                    |l: LaserEntity| moved_laser(l, elapsed as int),
                ) =~= pool0.subrange(0, i as int).map_values(
                    |l: LaserEntity| moved_laser(l, elapsed as int),
                ).push(moved_laser(pool0[i as int], elapsed as int)));
            }
            i = i + 1;
        }
        proof {
            assert(pool0.subrange(0, n as int) =~= pool0);
        }
        world.lasers = moved;
    }
}

} // verus!
