//! Movement Resolver: converts player intent into rotation and velocity
//! changes, one ship at a time.
//!
//! If a rotation axis is present and nonzero the heading turns by
//! `agility * axis`.  If a thrust axis is present and positive, an
//! acceleration vector aligned to the (already rotated) heading and scaled by
//! `acceleration * elapsed * axis` is added to the velocity, whose magnitude
//! is then clamped to `max_velocity`; the thrust cue plays when its cooldown
//! has run out.  An absent or non-positive thrust axis ends the thrust cue.
//! A drift axis translates the ship sideways along the arena's x axis,
//! independent of heading.

use vstd::prelude::*;
use crate::components::Cue;
use crate::components::Physical;
use crate::components::Ship;
use crate::components::Spatial;
use crate::components::THRUST_COOLDOWN;
use crate::fx::add_clamped;
use crate::fx::clamp_spec;
use crate::fx::clamp_vel_spec;
use crate::fx::clamp_velocity;
use crate::fx::fx_mul;
use crate::fx::lemma_fx_mul_bound;
use crate::fx::mul_fx;
use crate::fx::vel_sq;
use crate::fx::ELAPSED_LIMIT;
use crate::fx::SHIP_POS_LIMIT;
use crate::input::input_wf;
use crate::input::side_input_wf;
use crate::input::InputState;
use crate::input::SideInput;
use crate::trig::heading;
use crate::trig::heading_x_spec;
use crate::trig::heading_y_spec;
use crate::trig::norm_angle;
use crate::trig::norm_spec;
use crate::world::ship_entity_wf;
use crate::world::world_wf;
use crate::world::ShipEntity;
use crate::world::World;

verus! {

/// Whether this tick's intent applies thrust.
pub open spec fn thrusting(inp: SideInput) -> bool {
    inp.accelerate is Some && inp.accelerate->0 > 0
}

/// The rotation after the rotation axis is applied.
pub open spec fn rotated_rot(rot: int, agility: int, axis: Option<i64>) -> int {
    if axis is Some && axis->0 != 0 {
        norm_spec(rot + fx_mul(agility, axis->0 as int))
    } else {
        rot
    }
}

/// The magnitude of this tick's thrust: `acceleration * elapsed * axis`.
pub open spec fn thrust_scale(accel: int, elapsed: int, axis: int) -> int {
    fx_mul(fx_mul(accel, elapsed), axis)
}

/// The velocity after thrust along the heading `rot` is added and the
/// magnitude is clamped.
pub open spec fn thrust_vel_spec(
    vx: int,
    vy: int,
    rot: int,
    accel: int,
    elapsed: int,
    axis: int,
    max: int,
) -> (int, int) {
    let scale = thrust_scale(accel, elapsed, axis);
    clamp_vel_spec(
        vx + fx_mul(heading_x_spec(rot), scale),
        vy + fx_mul(heading_y_spec(rot), scale),
        max,
    )
}

/// The ship's x position after lateral drift, saturated at the position box.
pub open spec fn drifted_x(x: int, accel: int, axis: Option<i64>) -> int {
    if axis is Some && axis->0 != 0 {
        clamp_spec(x - fx_mul(accel, axis->0 as int), -SHIP_POS_LIMIT as int, SHIP_POS_LIMIT as int)
    } else {
        x
    }
}

/// The thrust-cue cooldown after this tick: reset when it had run out and
/// thrust was applied, counting down while thrust continues.
pub open spec fn next_thrust_timer(tt: int, elapsed: int, applies: bool) -> int {
    if applies {
        if tt <= 0 {
            THRUST_COOLDOWN as int
        } else {
            tt - elapsed
        }
    } else {
        tt
    }
}

/// The whole ship entity after the Movement Resolver's pass over it.
pub open spec fn moved_ship(e: ShipEntity, inp: SideInput, elapsed: int) -> ShipEntity {
    let rot2 = rotated_rot(e.spatial.rot as int, e.physical.agility as int, inp.rotate);
    let v2 = if thrusting(inp) {
        thrust_vel_spec(
            e.physical.vx as int,
            e.physical.vy as int,
            rot2,
            e.physical.acceleration as int,
            elapsed,
            inp.accelerate->0 as int,
            e.physical.max_velocity as int,
        )
    } else {
        (e.physical.vx as int, e.physical.vy as int)
    };
    let x2 = drifted_x(e.spatial.x as int, e.physical.acceleration as int, inp.drift);
    ShipEntity {
        spatial: Spatial { x: x2 as i64, y: e.spatial.y, rot: rot2 as i64 },
        physical: Physical {
            acceleration: e.physical.acceleration,
            agility: e.physical.agility,
            vx: v2.0 as i64,
            vy: v2.1 as i64,
            max_velocity: e.physical.max_velocity,
            rotation: e.physical.rotation,
            radius: e.physical.radius,
            mass: e.physical.mass,
        },
        ship: Ship {
            side: e.ship.side,
            thrust_timer: next_thrust_timer(e.ship.thrust_timer as int, elapsed, thrusting(inp))
                as i64,
        },
        combat: e.combat,
    }
}

/// The cues the Movement Resolver emits for one ship: the thrust effect is
/// shown while thrusting (with the thrust sound when its cooldown has run
/// out) and hidden otherwise.
pub open spec fn movement_cues(e: ShipEntity, inp: SideInput) -> Seq<Cue> {
    if thrusting(inp) {
        if e.ship.thrust_timer <= 0 {
            seq![Cue::ThrustShown(e.ship.side), Cue::ThrustSound(e.ship.side)]
        } else {
            seq![Cue::ThrustShown(e.ship.side)]
        }
    } else {
        seq![Cue::ThrustHidden(e.ship.side)]
    }
}

/// Apply one tick of movement to one ship from its own side's intent.
pub fn move_ship(e: &mut ShipEntity, inp: SideInput, elapsed: i64, cues: &mut Vec<Cue>)
    requires
        ship_entity_wf(*old(e), old(e).ship.side),
        side_input_wf(inp),
        0 <= elapsed <= ELAPSED_LIMIT,
    ensures
        *final(e) == moved_ship(*old(e), inp, elapsed as int),
        ship_entity_wf(*final(e), old(e).ship.side),
        final(cues)@ == old(cues)@ + movement_cues(*old(e), inp),
        thrusting(inp) ==> vel_sq(final(e).physical.vx as int, final(e).physical.vy as int) <= (
        final(e).physical.max_velocity as int) * (final(e).physical.max_velocity as int),
{
    let ghost e0 = *e;
    let side = e.ship.side;

    // Rotation axis: turn the heading by agility * axis.
    if let Some(axis) = inp.rotate {
        if axis != 0 {
            let delta = mul_fx(e.physical.agility, axis);
            proof {
                lemma_fx_mul_bound(e.physical.agility as int, axis as int, 10_000_000, 1000, 10_000_000);
            }
            e.spatial.rot = norm_angle(e.spatial.rot + delta);
        }
    }
    assert(e.spatial.rot == rotated_rot(e0.spatial.rot as int, e0.physical.agility as int, inp.rotate));

    // Thrust axis: accelerate along the heading, clamp the magnitude, and
    // gate the thrust sound on its cooldown.
    if let Some(axis) = inp.accelerate {
        if axis > 0 {
            let scale0 = mul_fx(e.physical.acceleration, elapsed);
            proof {
                lemma_fx_mul_bound(
                    e.physical.acceleration as int,
                    elapsed as int,
                    10_000_000,
                    100_000,
                    1_000_000_000,
                );
            }
            let scale = mul_fx(scale0, axis);
            proof {
                lemma_fx_mul_bound(scale0 as int, axis as int, 1_000_000_000, 1000, 1_000_000_000);
            }
            let h = heading(e.spatial.rot);
            let dx = mul_fx(h.0, scale);
            let dy = mul_fx(h.1, scale);
            proof {
                lemma_fx_mul_bound(h.0 as int, scale as int, 1000, 1_000_000_000, 1_000_000_000);
                lemma_fx_mul_bound(h.1 as int, scale as int, 1000, 1_000_000_000, 1_000_000_000);
            }
            let v = clamp_velocity(e.physical.vx + dx, e.physical.vy + dy, e.physical.max_velocity);
            e.physical.vx = v.0;
            e.physical.vy = v.1;
            cues.push(Cue::ThrustShown(side));
            if e.ship.thrust_timer <= 0 {
                cues.push(Cue::ThrustSound(side));
                e.ship.thrust_timer = THRUST_COOLDOWN;
            } else {
                e.ship.thrust_timer = e.ship.thrust_timer - elapsed;
            }
        } else {
            cues.push(Cue::ThrustHidden(side));
        }
    } else {
        cues.push(Cue::ThrustHidden(side));
    }

    // Drift axis: translate sideways, independent of heading.
    if let Some(axis) = inp.drift {
        if axis != 0 {
            let delta = mul_fx(e.physical.acceleration, axis);
            proof {
                lemma_fx_mul_bound(
                    e.physical.acceleration as int,
                    axis as int,
                    10_000_000,
                    1000,
                    10_000_000,
                );
            }
            e.spatial.x = add_clamped(e.spatial.x, -delta, SHIP_POS_LIMIT);
        }
    }
}

/// The Movement Resolver: one pass over both ships.
pub struct MovementSystem;

impl MovementSystem {
    /// Run the resolver for this tick: each ship moves from its own side's
    /// intent, and after any thrust the velocity magnitude is within
    /// `max_velocity` (the velocity-clamp invariant).
    pub fn run(&self, world: &mut World, input: &InputState, elapsed: i64, cues: &mut Vec<Cue>)
        requires
            world_wf(*old(world)),
            input_wf(*input),
            0 <= elapsed <= ELAPSED_LIMIT,
        ensures
            world_wf(*final(world)),
            final(world).light == moved_ship(old(world).light, input.light, elapsed as int),
            final(world).dark == moved_ship(old(world).dark, input.dark, elapsed as int),
            final(world).lasers@ == old(world).lasers@,
            final(world).scores == old(world).scores,
            final(cues)@ == old(cues)@ + movement_cues(old(world).light, input.light)
                + movement_cues(old(world).dark, input.dark),
            thrusting(input.light) ==> vel_sq(
                final(world).light.physical.vx as int,
                final(world).light.physical.vy as int,
            ) <= (old(world).light.physical.max_velocity as int) * (
            old(world).light.physical.max_velocity as int),
            thrusting(input.dark) ==> vel_sq(
                final(world).dark.physical.vx as int,
                final(world).dark.physical.vy as int,
            ) <= (old(world).dark.physical.max_velocity as int) * (
            old(world).dark.physical.max_velocity as int),
    {
        move_ship(&mut world.light, input.light, elapsed, cues);
        move_ship(&mut world.dark, input.dark, elapsed, cues);
    }
}

} // verus!
