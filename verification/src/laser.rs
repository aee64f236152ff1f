//! Weapon Resolver: fires and ages projectiles.
//!
//! Per ship and tick: while `reload_timer` is positive it counts down
//! (clamped at zero) and nothing fires.  When it has run out and the side's
//! fire intent is asserted, the timer resets to `time_to_reload` and the
//! configured spawn policy emits projectiles at the muzzle — one along the
//! forward axis for `Single`, two offset to its left and right for `Dual` —
//! carrying the ship's heading scaled by `laser_velocity`, with
//! `timer = laser_timer`, `damage = laser_damage` and the ship's side.
//! Independently every existing projectile ages by `elapsed` and expires
//! (is deleted) when its timer reaches zero; a projectile spawned this tick
//! starts aging next tick.

use vstd::prelude::*;
use crate::components::Combat;
use crate::components::Cue;
use crate::components::Laser;
use crate::components::Physical;
use crate::components::Spatial;
use crate::components::DEFAULT_MAX_VELOCITY;
use crate::fx::fx_mul;
use crate::fx::lemma_fx_mul_bound;
use crate::fx::mul_fx;
use crate::fx::ELAPSED_LIMIT;
use crate::input::InputState;
use crate::spawn::buf_view;
use crate::spawn::NewLaser;
use crate::spawn::SpawnBuffer;
use crate::trig::cos_fx;
use crate::trig::cos_spec;
use crate::trig::heading;
use crate::trig::heading_x_spec;
use crate::trig::heading_y_spec;
use crate::trig::sin_fx;
use crate::trig::sin_spec;
use crate::world::laser_entity_wf;
use crate::world::lasers_wf;
use crate::world::ship_entity_wf;
use crate::world::world_wf;
use crate::world::LaserEntity;
use crate::world::ShipEntity;
use crate::world::World;

verus! {

/// Whether a projectile's lifetime runs out when aged by `elapsed`.
pub open spec fn laser_expires(l: LaserEntity, elapsed: int) -> bool {
    l.laser.timer - elapsed <= 0
}

/// A projectile aged by `elapsed`.
pub open spec fn aged_laser(l: LaserEntity, elapsed: int) -> LaserEntity {
    LaserEntity {
        laser: Laser {
            timer: (l.laser.timer - elapsed) as i64,
            damage: l.laser.damage,
            side: l.laser.side,
        },
        ..l
    }
}

/// The pool after one aging pass: every timer decremented by `elapsed`,
/// expired projectiles removed, order kept.
pub open spec fn aged_pool(s: Seq<LaserEntity>, elapsed: int) -> Seq<LaserEntity>
    decreases s.len(),
{
    if s.len() == 0 {
        Seq::empty()
    } else if laser_expires(s.first(), elapsed) {
        aged_pool(s.drop_first(), elapsed)
    } else {
        seq![aged_laser(s.first(), elapsed)] + aged_pool(s.drop_first(), elapsed)
    }
}

/// Aging distributes over appending one projectile at the end.
pub proof fn lemma_aged_pool_push(s: Seq<LaserEntity>, x: LaserEntity, elapsed: int)
    ensures
        aged_pool(s.push(x), elapsed) == if laser_expires(x, elapsed) {
            aged_pool(s, elapsed)
        } else {
            aged_pool(s, elapsed).push(aged_laser(x, elapsed))
        },
    decreases s.len(),
{
    if s.len() == 0 {
        assert(s.push(x).first() == x);
        assert(s.push(x).drop_first() =~= Seq::<LaserEntity>::empty());
        assert(aged_pool(Seq::<LaserEntity>::empty(), elapsed) == Seq::<LaserEntity>::empty());
        assert(s =~= Seq::<LaserEntity>::empty());
        if !laser_expires(x, elapsed) {
            assert(aged_pool(s.push(x), elapsed) == seq![aged_laser(x, elapsed)]
                + Seq::<LaserEntity>::empty());
            assert(aged_pool(s.push(x), elapsed) =~= aged_pool(s, elapsed).push(
                aged_laser(x, elapsed),
            ));
        }
    } else {
        assert(s.push(x).drop_first() =~= s.drop_first().push(x));
        lemma_aged_pool_push(s.drop_first(), x, elapsed);
        if !laser_expires(x, elapsed) {
            assert(seq![aged_laser(s.first(), elapsed)] + aged_pool(s.drop_first(), elapsed).push(
                aged_laser(x, elapsed),
            ) =~= (seq![aged_laser(s.first(), elapsed)] + aged_pool(s.drop_first(), elapsed)).push(
                aged_laser(x, elapsed),
            ));
        }
    }
}

/// Whether this ship fires this tick: weapon ready and intent asserted.
pub open spec fn fires(c: Combat, shoot: bool) -> bool {
    c.reload_timer <= 0 && shoot
}

/// The reload timer after this tick: reset on firing, otherwise counting
/// down to zero.
pub open spec fn next_reload(c: Combat, shoot: bool, elapsed: int) -> int {
    if c.reload_timer <= 0 {
        if shoot {
            c.time_to_reload as int
        } else {
            c.reload_timer as int
        }
    } else {
        if c.reload_timer - elapsed <= 0 {
            0
        } else {
            c.reload_timer - elapsed
        }
    }
}

/// The ship after its weapon pass: only the reload timer changes.
pub open spec fn reloaded_ship(e: ShipEntity, shoot: bool, elapsed: int) -> ShipEntity {
    ShipEntity {
        combat: Combat { reload_timer: next_reload(e.combat, shoot, elapsed) as i64, ..e.combat },
        ..e
    }
}

/// Muzzle velocity: the ship's heading scaled by `laser_velocity`.
pub open spec fn muzzle_vx(e: ShipEntity) -> int {
    fx_mul(heading_x_spec(e.spatial.rot as int), e.combat.laser_velocity as int)
}

pub open spec fn muzzle_vy(e: ShipEntity) -> int {
    fx_mul(heading_y_spec(e.spatial.rot as int), e.combat.laser_velocity as int)
}

/// The kinematic record every fresh projectile carries.
pub open spec fn laser_physical(mvx: int, mvy: int) -> Physical {
    Physical {
        acceleration: 0,
        agility: 0,
        vx: mvx as i64,
        vy: mvy as i64,
        max_velocity: DEFAULT_MAX_VELOCITY,
        rotation: 0,
        radius: 8000,
        mass: 4000,
    }
}

/// The muzzle: the ship's position offset 80.0 along its heading.
pub open spec fn muzzle_x(e: ShipEntity) -> int {
    e.spatial.x + fx_mul(heading_x_spec(e.spatial.rot as int), 80_000)
}

pub open spec fn muzzle_y(e: ShipEntity) -> int {
    e.spatial.y + fx_mul(heading_y_spec(e.spatial.rot as int), 80_000)
}

/// A projectile spawned by this ship at the given position.
pub open spec fn spawned_laser_at(e: ShipEntity, x: int, y: int) -> LaserEntity {
    LaserEntity {
        spatial: Spatial { x: x as i64, y: y as i64, rot: e.spatial.rot },
        physical: laser_physical(muzzle_vx(e), muzzle_vy(e)),
        laser: Laser {
            timer: e.combat.laser_timer,
            damage: e.combat.laser_damage,
            side: e.ship.side,
        },
    }
}

/// The projectiles this ship adds to the pool this tick: none unless it
/// fires; one at the muzzle for the `Single` policy; for `Dual`, two offset
/// 25.0 to the left and right of the muzzle.
pub open spec fn spawns_for(e: ShipEntity, shoot: bool) -> Seq<LaserEntity> {
    if fires(e.combat, shoot) {
        match e.combat.laser_type {
            crate::components::LaserType::Single => seq![
                spawned_laser_at(e, muzzle_x(e), muzzle_y(e)),
            ],
            crate::components::LaserType::Dual => {
                let rx = fx_mul(cos_spec(e.spatial.rot as int), 25_000);
                let ry = fx_mul(sin_spec(e.spatial.rot as int), 25_000);
                seq![
                    spawned_laser_at(e, muzzle_x(e) - rx, muzzle_y(e) - ry),
                    spawned_laser_at(e, muzzle_x(e) + rx, muzzle_y(e) + ry),
                ]
            },
        }
    } else {
        Seq::empty()
    }
}

/// The fired cue this ship emits this tick.
pub open spec fn weapon_cues(e: ShipEntity, shoot: bool) -> Seq<Cue> {
    if fires(e.combat, shoot) {
        seq![Cue::WeaponFired(e.ship.side)]
    } else {
        Seq::empty()
    }
}

/// Age every projectile by `elapsed` and delete the expired (their removal
/// counts as expiry, not destruction, so no cue is emitted).
fn age_lasers(lasers: &mut Vec<LaserEntity>, elapsed: i64)
    requires
        lasers_wf(old(lasers)@),
        0 <= elapsed <= ELAPSED_LIMIT,
    ensures
        final(lasers)@ == aged_pool(old(lasers)@, elapsed as int),
        lasers_wf(final(lasers)@),
{
    let ghost pool0 = lasers@;
    let mut kept: Vec<LaserEntity> = Vec::new();
    let n = lasers.len();
    let mut i: usize = 0;
    proof {
        assert(pool0.subrange(0, 0) =~= Seq::<LaserEntity>::empty());
    }
    while i < n
        invariant
            n == pool0.len(),
            lasers@ == pool0,
            lasers_wf(pool0),
            0 <= i <= n,
            kept@ == aged_pool(pool0.subrange(0, i as int), elapsed as int),
            lasers_wf(kept@),
            0 <= elapsed <= ELAPSED_LIMIT,
        decreases n - i,
    {
        let l = lasers[i];
        proof {
            assert(pool0.subrange(0, i + 1 as int) =~= pool0.subrange(0, i as int).push(
                pool0[i as int],
            ));
            lemma_aged_pool_push(pool0.subrange(0, i as int), pool0[i as int], elapsed as int);
        }
        let t = l.laser.timer - elapsed;
        if t > 0 {
            kept.push(
                LaserEntity {
                    spatial: l.spatial,
                    physical: l.physical,
                    laser: Laser { timer: t, damage: l.laser.damage, side: l.laser.side },
                },
            );
        }
        i = i + 1;
    }
    proof {
        assert(pool0.subrange(0, n as int) =~= pool0);
    }
    *lasers = kept;
}

/// One ship's weapon pass: update the reload timer, emit the fired cue, and
/// append this tick's spawns to the pool through the spawn buffer.
fn resolve_weapon(
    e: &mut ShipEntity,
    shoot: bool,
    elapsed: i64,
    lasers: &mut Vec<LaserEntity>,
    cues: &mut Vec<Cue>,
)
    requires
        ship_entity_wf(*old(e), old(e).ship.side),
        lasers_wf(old(lasers)@),
        0 <= elapsed <= ELAPSED_LIMIT,
    ensures
        *final(e) == reloaded_ship(*old(e), shoot, elapsed as int),
        ship_entity_wf(*final(e), old(e).ship.side),
        final(lasers)@ == old(lasers)@ + spawns_for(*old(e), shoot),
        lasers_wf(final(lasers)@),
        final(cues)@ == old(cues)@ + weapon_cues(*old(e), shoot),
{
    let ghost e0 = *e;
    let mut buffer = SpawnBuffer::new();
    if e.combat.reload_timer <= 0 {
        if shoot {
            e.combat.reload_timer = e.combat.time_to_reload;
            let h = heading(e.spatial.rot);
            let mvx = mul_fx(h.0, e.combat.laser_velocity);
            let mvy = mul_fx(h.1, e.combat.laser_velocity);
            let ox = mul_fx(h.0, 80_000);
            let oy = mul_fx(h.1, 80_000);
            proof {
                lemma_fx_mul_bound(h.0 as int, e0.combat.laser_velocity as int, 1000, 10_000_000, 10_000_000);
                lemma_fx_mul_bound(h.1 as int, e0.combat.laser_velocity as int, 1000, 10_000_000, 10_000_000);
                lemma_fx_mul_bound(h.0 as int, 80_000, 1000, 80_000, 80_000);
                lemma_fx_mul_bound(h.1 as int, 80_000, 1000, 80_000, 80_000);
            }
            buffer.push(
                NewLaser {
                    spatial: Spatial { x: e.spatial.x + ox, y: e.spatial.y + oy, rot: e.spatial.rot },
                    physical: Physical {
                        acceleration: 0,
                        agility: 0,
                        vx: mvx,
                        vy: mvy,
                        max_velocity: DEFAULT_MAX_VELOCITY,
                        rotation: 0,
                        radius: 8000,
                        mass: 4000,
                    },
                },
            );
        }
    } else {
        let t = e.combat.reload_timer - elapsed;
        if t <= 0 {
            e.combat.reload_timer = 0;
        } else {
            e.combat.reload_timer = t;
        }
    }
    if !buffer.is_empty() {
        cues.push(Cue::WeaponFired(e.ship.side));
    }
    let spawned = buffer.drain();
    if spawned.len() > 0 {
        let nl = spawned[0];
        let laser = Laser::new(e.combat.laser_timer, e.combat.laser_damage, e.ship.side);
        match e.combat.laser_type {
            crate::components::LaserType::Single => {
                lasers.push(LaserEntity { spatial: nl.spatial, physical: nl.physical, laser });
            },
            crate::components::LaserType::Dual => {
                let rx = mul_fx(cos_fx(nl.spatial.rot), 25_000);
                let ry = mul_fx(sin_fx(nl.spatial.rot), 25_000);
                proof {
                    lemma_fx_mul_bound(
                        cos_spec(nl.spatial.rot as int),
                        25_000,
                        1000,
                        25_000,
                        25_000,
                    );
                    lemma_fx_mul_bound(
                        sin_spec(nl.spatial.rot as int),
                        25_000,
                        1000,
                        25_000,
                        25_000,
                    );
                }
                lasers.push(
                    LaserEntity {
                        spatial: Spatial {
                            x: nl.spatial.x - rx,
                            y: nl.spatial.y - ry,
                            rot: nl.spatial.rot,
                        },
                        physical: nl.physical,
                        laser,
                    },
                );
                lasers.push(
                    LaserEntity {
                        spatial: Spatial {
                            x: nl.spatial.x + rx,
                            y: nl.spatial.y + ry,
                            rot: nl.spatial.rot,
                        },
                        physical: nl.physical,
                        laser,
                    },
                );
            },
        }
    }
    proof {
        assert(final(lasers)@ =~= old(lasers)@ + spawns_for(e0, shoot));
    }
}

/// The Weapon Resolver: both ships' weapon passes, then projectile aging.
pub struct LaserSystem;

impl LaserSystem {
    /// Run the resolver for this tick: age the existing pool (a projectile
    /// expires the tick its timer reaches zero), then let each ship's
    /// weapon state machine fire or reload from its own side's intent.
    /// Newly spawned projectiles join the pool this tick but start aging
    /// next tick.
    pub fn run(&self, world: &mut World, input: &InputState, elapsed: i64, cues: &mut Vec<Cue>)
        requires
            world_wf(*old(world)),
            0 <= elapsed <= ELAPSED_LIMIT,
        ensures
            world_wf(*final(world)),
            final(world).light == reloaded_ship(old(world).light, input.light.shoot, elapsed as int),
            final(world).dark == reloaded_ship(old(world).dark, input.dark.shoot, elapsed as int),
            final(world).lasers@ == aged_pool(old(world).lasers@, elapsed as int) + spawns_for(
                old(world).light,
                input.light.shoot,
            ) + spawns_for(old(world).dark, input.dark.shoot),
            final(cues)@ == old(cues)@ + weapon_cues(old(world).light, input.light.shoot)
                + weapon_cues(old(world).dark, input.dark.shoot),
            final(world).scores == old(world).scores,
    {
        age_lasers(&mut world.lasers, elapsed);
        resolve_weapon(&mut world.light, input.light.shoot, elapsed, &mut world.lasers, cues);
        resolve_weapon(&mut world.dark, input.dark.shoot, elapsed, &mut world.lasers, cues);
    }
}

} // verus!
