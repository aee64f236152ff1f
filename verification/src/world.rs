//! The entity pool: exactly two ships, a pool of projectiles, and the scores.
//!
//! Ships are created once at initialization and never deleted; the outcome
//! resolver only repositions and resets them.  Projectiles are created by the
//! weapon resolver and deleted by the collision resolver (spent or expired)
//! or the outcome resolver (respawn clears all).

use vstd::prelude::*;
use crate::components::Combat;
use crate::components::combat_wf;
use crate::components::Laser;
use crate::components::laser_wf;
use crate::components::LaserType;
use crate::components::Physical;
use crate::components::physical_wf;
use crate::components::ScoreBoard;
use crate::components::scores_wf;
use crate::components::Ship;
use crate::components::ship_spatial_wf;
use crate::components::ship_wf;
use crate::components::laser_spatial_wf;
use crate::components::Side;
use crate::components::Spatial;
use crate::trig::TAU_FX;

verus! {

/// Arena width in fixed-point units.
pub const ARENA_WIDTH_FX: i64 = 1_920_000;

/// Arena height in fixed-point units.
pub const ARENA_HEIGHT_FX: i64 = 1_228_800;

/// Collision radius of a projectile, in fixed-point units.
pub const LASER_RADIUS_FX: i64 = 4000;

/// Half the arena height: the vertical coordinate ships respawn at.
pub const ARENA_MID_Y_FX: i64 = 614_400;

/// The heading a ship respawns with: a quarter-turn-and-a-bit toward the
/// arena's middle, positive for the light side and negated for the dark side.
pub const START_ROT_FX: i64 = 1600;

/// A ship entity: one of each record a ship owns.
#[derive(Clone, Copy, Debug, PartialEq, Eq, Structural)]
pub struct ShipEntity {
    pub spatial: Spatial,
    pub physical: Physical,
    pub ship: Ship,
    pub combat: Combat,
}

/// A projectile entity: one of each record a projectile owns.
#[derive(Clone, Copy, Debug, PartialEq, Eq, Structural)]
pub struct LaserEntity {
    pub spatial: Spatial,
    pub physical: Physical,
    pub laser: Laser,
}

/// The shared pool of entities the resolvers read and mutate each tick.
#[derive(Clone, Debug)]
pub struct World {
    pub light: ShipEntity,
    pub dark: ShipEntity,
    pub lasers: Vec<LaserEntity>,
    pub scores: ScoreBoard,
}

pub open spec fn ship_entity_wf(e: ShipEntity, side: Side) -> bool {
    &&& ship_spatial_wf(e.spatial)
    &&& physical_wf(e.physical)
    &&& ship_wf(e.ship)
    &&& combat_wf(e.combat)
    &&& e.ship.side == side
}

pub open spec fn laser_entity_wf(e: LaserEntity) -> bool {
    &&& laser_spatial_wf(e.spatial)
    &&& physical_wf(e.physical)
    &&& laser_wf(e.laser)
}

pub open spec fn lasers_wf(s: Seq<LaserEntity>) -> bool {
    forall|i: int| 0 <= i < s.len() ==> laser_entity_wf(#[trigger] s[i])
}

/// Well-formedness of the whole pool: both ships carry full, bounded records
/// of their own faction, every projectile is bounded, scores are in range.
pub open spec fn world_wf(w: World) -> bool {
    &&& ship_entity_wf(w.light, Side::Light)
    &&& ship_entity_wf(w.dark, Side::Dark)
    &&& lasers_wf(w.lasers@)
    &&& scores_wf(w.scores)
}

/// The spatial record a ship respawns with: its own starting corner at half
/// arena height, turned toward the middle.
pub open spec fn start_spatial(side: Side, radius: int) -> Spatial {
    match side {
        Side::Light => Spatial { x: (radius * 4) as i64, y: ARENA_MID_Y_FX, rot: START_ROT_FX },
        Side::Dark => Spatial {
            x: (ARENA_WIDTH_FX - radius * 4) as i64,
            y: ARENA_MID_Y_FX,
            rot: (TAU_FX - START_ROT_FX) as i64,
        },
    }
}

/// Build the initial pool: one light and one dark ship at their starting
/// positions with full structure, no projectiles, and zero scores.
pub fn initialise_ships() -> (w: World)
    ensures
        world_wf(w),
        w.light.spatial == start_spatial(Side::Light, w.light.physical.radius as int),
        w.dark.spatial == start_spatial(Side::Dark, w.dark.physical.radius as int),
        w.light.physical == (Physical {
            acceleration: 1250,
            agility: 50,
            vx: 0,
            vy: 0,
            max_velocity: 5000,
            rotation: 0,
            radius: 43_000,
            mass: 100_000,
        }),
        w.dark.physical == (Physical {
            acceleration: 1350,
            agility: 50,
            vx: 0,
            vy: 0,
            max_velocity: 5000,
            rotation: 0,
            radius: 41_000,
            mass: 100_000,
        }),
        w.light.ship == (Ship { side: Side::Light, thrust_timer: 0 }),
        w.dark.ship == (Ship { side: Side::Dark, thrust_timer: 0 }),
        w.light.combat == (Combat {
            structure: 150,
            max_structure: 150,
            armour: 6,
            laser_damage: 20,
            laser_timer: 6000,
            laser_velocity: 10_000,
            laser_type: LaserType::Single,
            reload_timer: 0,
            time_to_reload: 200,
            burst_rate: 8,
            burst_delay: 50,
            burst_timer: 0,
            missile_damage: 25,
            missile_timer: 30_000,
            missile_explosion_radius: 6000,
            missile_velocity: 5000,
        }),
        w.dark.combat == (Combat {
            structure: 130,
            max_structure: 130,
            armour: 5,
            laser_damage: 15,
            laser_timer: 4000,
            laser_velocity: 10_000,
            laser_type: LaserType::Dual,
            reload_timer: 0,
            time_to_reload: 300,
            burst_rate: 8,
            burst_delay: 50,
            burst_timer: 0,
            missile_damage: 25,
            missile_timer: 30_000,
            missile_explosion_radius: 6000,
            missile_velocity: 5000,
        }),
        w.lasers@ == Seq::<LaserEntity>::empty(),
        w.scores == (ScoreBoard { score_light: 0, score_dark: 0 }),
{
    let light_phys = Physical::new(43_000, 100_000, 1250, 50);
    let dark_phys = Physical::new(41_000, 100_000, 1350, 50);
    let light = ShipEntity {
        spatial: Spatial { x: 43_000 * 4, y: ARENA_MID_Y_FX, rot: START_ROT_FX },
        physical: light_phys,
        ship: Ship::new(Side::Light),
        combat: Combat::new(150, 6, 20, 6000, 10_000, LaserType::Single, 200, 25, 30_000, 6000, 5000),
    };
    let dark = ShipEntity {
        spatial: Spatial {
            x: ARENA_WIDTH_FX - 41_000 * 4,
            y: ARENA_MID_Y_FX,
            rot: TAU_FX - START_ROT_FX,
        },
        physical: dark_phys,
        ship: Ship::new(Side::Dark),
        combat: Combat::new(130, 5, 15, 4000, 10_000, LaserType::Dual, 300, 25, 30_000, 6000, 5000),
    };
    World { light, dark, lasers: Vec::new(), scores: ScoreBoard { score_light: 0, score_dark: 0 } }
}

} // verus!
