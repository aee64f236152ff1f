//! Outcome Resolver: destruction, scoring and respawn.
//!
//! A ship whose structure has reached zero ends the round: the opposing
//! side's score rises by one (saturating at 999), every projectile of both
//! sides is deleted so no stray damage crosses the respawn, and both ships —
//! winner and loser alike — return to their symmetric starting coordinates
//! at their starting headings with zero velocity and a full hull.  The light
//! ship is examined first; a ship respawned in the same pass is no longer
//! destroyed when its own turn comes.

use vstd::prelude::*;
use crate::components::Combat;
use crate::components::Physical;
use crate::components::Side;
use crate::components::Spatial;
use crate::world::ship_entity_wf;
use crate::world::start_spatial;
use crate::world::world_wf;
use crate::world::ShipEntity;
use crate::world::World;
use crate::world::ARENA_MID_Y_FX;
use crate::world::ARENA_WIDTH_FX;
use crate::world::START_ROT_FX;
use crate::trig::TAU_FX;

verus! {

/// Whether this pass observes a destroyed ship and resets the round.
pub open spec fn destruction_event(w: World) -> bool {
    w.light.combat.structure <= 0 || w.dark.combat.structure <= 0
}

/// A score raised by one, saturating at the 999 cap.
pub open spec fn bump_score(s: int) -> int {
    if s + 1 > 999 {
        999
    } else {
        s + 1
    }
}

/// A ship as it respawns: at its side's starting coordinates and heading,
/// at rest, with a full hull.  Weapon and thrust timers carry over.
pub open spec fn respawned_ship(e: ShipEntity) -> ShipEntity {
    ShipEntity {
        spatial: start_spatial(e.ship.side, e.physical.radius as int),
        physical: Physical { vx: 0, vy: 0, rotation: 0, ..e.physical },
        ship: e.ship,
        combat: Combat { structure: e.combat.max_structure, ..e.combat },
    }
}

/// Reposition one ship at its starting state.
fn respawn(e: &mut ShipEntity)
    requires
        ship_entity_wf(*old(e), old(e).ship.side),
    ensures
        *final(e) == respawned_ship(*old(e)),
        ship_entity_wf(*final(e), old(e).ship.side),
{
    match e.ship.side {
        Side::Light => {
            e.spatial = Spatial {
                x: e.physical.radius * 4,
                y: ARENA_MID_Y_FX,
                rot: START_ROT_FX,
            };
        },
        Side::Dark => {
            e.spatial = Spatial {
                x: ARENA_WIDTH_FX - e.physical.radius * 4,
                y: ARENA_MID_Y_FX,
                rot: TAU_FX - START_ROT_FX,
            };
        },
    }
    e.physical.vx = 0;
    e.physical.vy = 0;
    e.physical.rotation = 0;
    e.combat.structure = e.combat.max_structure;
}

/// The Outcome Resolver: one pass after the Collision Resolver.
pub struct WinnerSystem;

impl WinnerSystem {
    /// Run the resolver for this tick.  Scores never decrease and never
    /// pass 999 (the saturation law); on any destruction event both ships
    /// are respawned and the projectile pool is cleared, and otherwise
    /// nothing changes.
    pub fn run(&self, world: &mut World)
        requires
            world_wf(*old(world)),
        ensures
            world_wf(*final(world)),
            destruction_event(*old(world)) ==> {
                &&& final(world).light == respawned_ship(old(world).light)
                &&& final(world).dark == respawned_ship(old(world).dark)
                &&& final(world).lasers@ == Seq::<crate::world::LaserEntity>::empty()
            },
            !destruction_event(*old(world)) ==> {
                &&& final(world).light == old(world).light
                &&& final(world).dark == old(world).dark
                &&& final(world).lasers@ == old(world).lasers@
            },
            final(world).scores.score_dark == if old(world).light.combat.structure <= 0 {
                bump_score(old(world).scores.score_dark as int)
            } else {
                old(world).scores.score_dark as int
            },
            final(world).scores.score_light == if old(world).dark.combat.structure <= 0
                && old(world).light.combat.structure > 0 {
                bump_score(old(world).scores.score_light as int)
            } else {
                old(world).scores.score_light as int
            },
            old(world).scores.score_light <= final(world).scores.score_light <= 999,
            old(world).scores.score_dark <= final(world).scores.score_dark <= 999,
    {
        if world.light.combat.structure <= 0 {
            let bumped = world.scores.score_dark + 1;
            world.scores.score_dark = if bumped > 999 {
                999
            } else {
                bumped
            };
            world.lasers = Vec::new();
            respawn(&mut world.light);
            respawn(&mut world.dark);
        }
        if world.dark.combat.structure <= 0 {
            let bumped = world.scores.score_light + 1;
            world.scores.score_light = if bumped > 999 {
                999
            } else {
                bumped
            };
            world.lasers = Vec::new();
            respawn(&mut world.light);
            respawn(&mut world.dark);
        }
    }
}

} // verus!
