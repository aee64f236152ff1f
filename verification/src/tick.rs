//! Per-tick control flow: the five resolvers in dependency order.
//!
//! Movement Resolver, then the Integrator (ships, then projectiles), then
//! the Weapon Resolver, the Collision Resolver and the Outcome Resolver, all
//! on the same elapsed time.  The contract states the tick as the
//! composition of the resolvers' own specifications: everything is pinned
//! except the recoil-jittered headings, exactly as the Collision Resolver
//! pins its own pass, and a heading never jittered is unchanged.

use vstd::prelude::*;
use crate::collision_system::collision_spec_parts;
use crate::collision_system::CollisionSystem;
use crate::components::Combat;
use crate::components::Cue;
use crate::components::Physical;
use crate::fx::ELAPSED_LIMIT;
use crate::input::input_wf;
use crate::input::InputState;
use crate::laser::aged_pool;
use crate::laser::reloaded_ship;
use crate::laser::spawns_for;
use crate::laser::weapon_cues;
use crate::laser::LaserSystem;
use crate::move_laser::moved_laser;
use crate::move_laser::MoveLaserSystem;
use crate::physics::integrated_ship;
use crate::physics::PhysicsSystem;
use crate::rng::RandomGen;
use crate::ship_movement::moved_ship;
use crate::ship_movement::movement_cues;
use crate::ship_movement::MovementSystem;
use crate::winner::bump_score;
use crate::winner::respawned_ship;
use crate::winner::WinnerSystem;
use crate::world::world_wf;
use crate::world::LaserEntity;
use crate::world::ShipEntity;
use crate::world::World;

verus! {

/// A ship as it stands after the Collision Resolver's pass, up to its
/// (possibly jittered) heading: the pre-collision ship carrying the
/// structure and velocity the collision outcome decided.
pub open spec fn collided_ship(e: ShipEntity, structure: int, vx: int, vy: int) -> ShipEntity {
    ShipEntity {
        spatial: e.spatial,
        physical: Physical { vx: vx as i64, vy: vy as i64, ..e.physical },
        ship: e.ship,
        combat: Combat { structure: structure as i64, ..e.combat },
    }
}

/// Advance the simulation by one tick: all five resolvers run to completion
/// synchronously, in dependency order, on the same elapsed time.  The
/// post-state is the composition of the resolver specifications — movement,
/// ship integration, projectile movement, the weapon state machine, the
/// collision outcome, then destruction/scoring/respawn — and the returned
/// cues are the stages' cue sequences in order.  Scores never decrease and
/// never pass 999.
pub fn run_tick(world: &mut World, input: &InputState, elapsed: i64, rng: &RandomGen) -> (cues: Vec<
    Cue,
>)
    requires
        world_wf(*old(world)),
        input_wf(*input),
        0 <= elapsed <= ELAPSED_LIMIT,
    ensures
        world_wf(*final(world)),
        ({
            let light2 = integrated_ship(
                moved_ship(old(world).light, input.light, elapsed as int),
            );
            let dark2 = integrated_ship(moved_ship(old(world).dark, input.dark, elapsed as int));
            let light3 = reloaded_ship(light2, input.light.shoot, elapsed as int);
            let dark3 = reloaded_ship(dark2, input.dark.shoot, elapsed as int);
            let pool3 = aged_pool(
                old(world).lasers@.map_values(|l: LaserEntity| moved_laser(l, elapsed as int)),
                elapsed as int,
            ) + spawns_for(light2, input.light.shoot) + spawns_for(dark2, input.dark.shoot);
            let o = collision_spec_parts(light3, dark3, pool3);
            let light4 = collided_ship(light3, o.light_structure, o.light_vx, o.light_vy);
            let dark4 = collided_ship(dark3, o.dark_structure, o.dark_vx, o.dark_vy);
            let destroyed = o.light_structure <= 0 || o.dark_structure <= 0;
            &&& cues@ == movement_cues(old(world).light, input.light) + movement_cues(
                old(world).dark,
                input.dark,
            ) + weapon_cues(light2, input.light.shoot) + weapon_cues(dark2, input.dark.shoot)
                + o.cues
            &&& final(world).scores.score_dark == (if o.light_structure <= 0 {
                bump_score(old(world).scores.score_dark as int)
            } else {
                old(world).scores.score_dark as int
            })
            &&& final(world).scores.score_light == (if o.dark_structure <= 0 && o.light_structure
                > 0 {
                bump_score(old(world).scores.score_light as int)
            } else {
                old(world).scores.score_light as int
            })
            &&& (destroyed ==> {
                &&& final(world).light == respawned_ship(light4)
                &&& final(world).dark == respawned_ship(dark4)
                &&& final(world).lasers@ == Seq::<LaserEntity>::empty()
            })
            &&& (!destroyed ==> {
                &&& final(world).lasers@ == o.kept
                &&& final(world).light.combat == light4.combat
                &&& final(world).light.physical == light4.physical
                &&& final(world).light.ship == light4.ship
                &&& final(world).light.spatial.x == light4.spatial.x
                &&& final(world).light.spatial.y == light4.spatial.y
                &&& final(world).dark.combat == dark4.combat
                &&& final(world).dark.physical == dark4.physical
                &&& final(world).dark.ship == dark4.ship
                &&& final(world).dark.spatial.x == dark4.spatial.x
                &&& final(world).dark.spatial.y == dark4.spatial.y
                &&& (o.light_jitters == 0 ==> final(world).light.spatial.rot
                    == light3.spatial.rot)
                &&& (o.dark_jitters == 0 ==> final(world).dark.spatial.rot == dark3.spatial.rot)
            })
        }),
        old(world).scores.score_light <= final(world).scores.score_light <= 999,
        old(world).scores.score_dark <= final(world).scores.score_dark <= 999,
{
    let ghost w0 = *world;
    let mut cues: Vec<Cue> = Vec::new();
    MovementSystem.run(world, input, elapsed, &mut cues);
    PhysicsSystem.run(world);
    MoveLaserSystem.run(world, elapsed);
    let ghost light2 = world.light;
    let ghost dark2 = world.dark;
    LaserSystem.run(world, input, elapsed, &mut cues);
    let ghost light3 = world.light;
    let ghost dark3 = world.dark;
    let ghost pool3 = world.lasers@;
    CollisionSystem.run(world, rng, &mut cues);
    proof {
        let o = collision_spec_parts(light3, dark3, pool3);
        assert(cues@ =~= movement_cues(w0.light, input.light) + movement_cues(
            w0.dark,
            input.dark,
        ) + weapon_cues(light2, input.light.shoot) + weapon_cues(dark2, input.dark.shoot)
            + o.cues);
        let light4 = collided_ship(light3, o.light_structure, o.light_vx, o.light_vy);
        let dark4 = collided_ship(dark3, o.dark_structure, o.dark_vx, o.dark_vy);
        assert(respawned_ship(world.light) == respawned_ship(light4));
        assert(respawned_ship(world.dark) == respawned_ship(dark4));
    }
    WinnerSystem.run(world);
    cues
}

} // verus!
