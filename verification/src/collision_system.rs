//! Collision Resolver: projectile-ship and ship-ship overlap, damage,
//! knockback and recoil jitter.
//!
//! The overlap test compares squared distance against the sum of the squared
//! radii (`dx^2 + dy^2 <= r1^2 + r2^2`).  That tolerance — deliberately not
//! the strict circle-circle test `distance <= r1 + r2` — is the game's
//! collision policy, chosen and documented here once and stated exactly in
//! `circles_overlap`.
//!
//! A projectile never strikes its own faction, strikes at most one ship
//! (checked light first), and is deleted by its first hit.  Applied damage
//! is `max(0, damage - armour)`; a surviving ship takes knockback of one
//! hundredth of the projectile velocity and a uniformly random recoil jitter
//! of its heading.  Overlapping ships both take fixed contact damage, and
//! each survivor has its velocity reversed and its heading jittered.

use vstd::prelude::*;
use crate::components::applied_damage;
use crate::components::struct_after;
use crate::components::Combat;
use crate::components::Cue;
use crate::components::Physical;
use crate::components::Side;
use crate::components::Spatial;
use crate::components::CONTACT_DAMAGE;
use crate::components::STRUCT_FLOOR;
use crate::fx::add_clamped;
use crate::fx::clamp_spec;
use crate::fx::fx_mul;
use crate::fx::lemma_fx_mul_bound;
use crate::fx::mul_fx;
use crate::fx::CFG_LIMIT;
use crate::fx::POS_LIMIT;
use crate::fx::VEL_LIMIT;
use crate::rng::RandomGen;
use crate::trig::norm_angle;
use crate::trig::norm_spec;
use crate::trig::TAU_FX;
use crate::world::lasers_wf;
use crate::world::ship_entity_wf;
use crate::world::world_wf;
use crate::world::LaserEntity;
use crate::world::ShipEntity;
use crate::world::World;
use crate::world::LASER_RADIUS_FX;

verus! {

/// Knockback coefficient: one hundredth of the projectile velocity, as a
/// fixed-point factor.
pub const KNOCKBACK_FX: i64 = 10;

/// The game's overlap tolerance: squared distance against the sum of the
/// squared radii.
pub open spec fn circles_overlap(ax: int, ay: int, ar: int, bx: int, by: int, br: int) -> bool {
    (ax - bx) * (ax - bx) + (ay - by) * (ay - by) <= ar * ar + br * br
}

/// Test two circles for overlap under the game's tolerance.
pub fn circles_collide(a_x: i64, a_y: i64, a_r: i64, b_x: i64, b_y: i64, b_r: i64) -> (r: bool)
    requires
        -POS_LIMIT <= a_x <= POS_LIMIT,
        -POS_LIMIT <= a_y <= POS_LIMIT,
        -POS_LIMIT <= b_x <= POS_LIMIT,
        -POS_LIMIT <= b_y <= POS_LIMIT,
        0 <= a_r <= CFG_LIMIT,
        0 <= b_r <= CFG_LIMIT,
    ensures
        r == circles_overlap(a_x as int, a_y as int, a_r as int, b_x as int, b_y as int, b_r as int),
{
    let dx = a_x - b_x;
    let dy = a_y - b_y;
    assert(dx * dx <= 4_000_000_000_000_000_000 && dy * dy <= 4_000_000_000_000_000_000 && 0 <= dx
        * dx && 0 <= dy * dy) by (nonlinear_arith)
        requires
            -2_000_000_000 <= dx <= 2_000_000_000,
            -2_000_000_000 <= dy <= 2_000_000_000,
    ;
    assert(a_r * a_r <= 100_000_000_000_000 && b_r * b_r <= 100_000_000_000_000 && 0 <= a_r * a_r
        && 0 <= b_r * b_r) by (nonlinear_arith)
        requires
            0 <= a_r <= 10_000_000,
            0 <= b_r <= 10_000_000,
    ;
    let distance = dx * dx + dy * dy;
    distance <= a_r * a_r + b_r * b_r
}

/// Whether a projectile strikes this ship: opposing faction and overlap.
pub open spec fn hits_ship(l: LaserEntity, e: ShipEntity) -> bool {
    &&& l.laser.side != e.ship.side
    &&& circles_overlap(
        l.spatial.x as int,
        l.spatial.y as int,
        LASER_RADIUS_FX as int,
        e.spatial.x as int,
        e.spatial.y as int,
        e.physical.radius as int,
    )
}

/// A ship after one projectile hit: damage floored at zero is taken from
/// structure; a survivor is knocked back by a hundredth of the projectile
/// velocity and its heading recoils by `jitter`.
pub open spec fn hit_ship(e: ShipEntity, l: LaserEntity, jitter: int) -> ShipEntity {
    let st = struct_after(
        e.combat.structure as int,
        applied_damage(l.laser.damage as int, e.combat.armour as int),
    );
    if st > 0 {
        ShipEntity {
            spatial: Spatial {
                x: e.spatial.x,
                y: e.spatial.y,
                rot: norm_spec(e.spatial.rot + jitter) as i64,
            },
            physical: Physical {
                vx: clamp_spec(
                    e.physical.vx + fx_mul(l.physical.vx as int, KNOCKBACK_FX as int),
                    -VEL_LIMIT as int,
                    VEL_LIMIT as int,
                ) as i64,
                vy: clamp_spec(
                    e.physical.vy + fx_mul(l.physical.vy as int, KNOCKBACK_FX as int),
                    -VEL_LIMIT as int,
                    VEL_LIMIT as int,
                ) as i64,
                ..e.physical
            },
            ship: e.ship,
            combat: Combat { structure: st as i64, ..e.combat },
        }
    } else {
        ShipEntity { combat: Combat { structure: st as i64, ..e.combat }, ..e }
    }
}

/// A ship after hull contact: fixed contact damage floored by armour; a
/// survivor has its velocity reversed and its heading recoils by `jitter`.
pub open spec fn contact_ship(e: ShipEntity, jitter: int) -> ShipEntity {
    let st = struct_after(
        e.combat.structure as int,
        applied_damage(CONTACT_DAMAGE as int, e.combat.armour as int),
    );
    if st > 0 {
        ShipEntity {
            spatial: Spatial {
                x: e.spatial.x,
                y: e.spatial.y,
                rot: norm_spec(e.spatial.rot + jitter) as i64,
            },
            physical: Physical {
                vx: (-e.physical.vx) as i64,
                vy: (-e.physical.vy) as i64,
                ..e.physical
            },
            ship: e.ship,
            combat: Combat { structure: st as i64, ..e.combat },
        }
    } else {
        ShipEntity { combat: Combat { structure: st as i64, ..e.combat }, ..e }
    }
}

/// Everything the Collision Resolver decides that does not depend on the
/// random jitter: both ships' structure and velocity, the surviving pool,
/// the emitted cues, and how often each heading was jittered.
pub struct CollisionOutcome {
    pub light_structure: int,
    pub light_vx: int,
    pub light_vy: int,
    pub dark_structure: int,
    pub dark_vx: int,
    pub dark_vy: int,
    pub light_jitters: int,
    pub dark_jitters: int,
    pub kept: Seq<LaserEntity>,
    pub cues: Seq<Cue>,
}

/// The outcome before any collision is processed.
pub open spec fn outcome_init(light0: ShipEntity, dark0: ShipEntity) -> CollisionOutcome {
    CollisionOutcome {
        light_structure: light0.combat.structure as int,
        light_vx: light0.physical.vx as int,
        light_vy: light0.physical.vy as int,
        dark_structure: dark0.combat.structure as int,
        dark_vx: dark0.physical.vx as int,
        dark_vy: dark0.physical.vy as int,
        light_jitters: 0,
        dark_jitters: 0,
        kept: Seq::empty(),
        cues: Seq::empty(),
    }
}

/// The per-hit cues: the impact sound, an impact effect at the projectile,
/// and the destruction cue when the hit drains the hull.
pub open spec fn hit_cues(l: LaserEntity, st: int, side: Side) -> Seq<Cue> {
    seq![Cue::ImpactSound, Cue::ImpactEffect { x: l.spatial.x, y: l.spatial.y }] + if st <= 0 {
        seq![Cue::ShipDestroyed(side)]
    } else {
        Seq::empty()
    }
}

/// One projectile processed against both ships, light first, single-hit: a
/// projectile that strikes is spent; one that strikes nothing is kept.
pub open spec fn laser_hit_step(
    o: CollisionOutcome,
    l: LaserEntity,
    light0: ShipEntity,
    dark0: ShipEntity,
) -> CollisionOutcome {
    if hits_ship(l, light0) {
        let st = struct_after(
            o.light_structure,
            applied_damage(l.laser.damage as int, light0.combat.armour as int),
        );
        CollisionOutcome {
            light_structure: st,
            light_vx: if st > 0 {
                clamp_spec(
                    o.light_vx + fx_mul(l.physical.vx as int, KNOCKBACK_FX as int),
                    -VEL_LIMIT as int,
                    VEL_LIMIT as int,
                )
            } else {
                o.light_vx
            },
            light_vy: if st > 0 {
                clamp_spec(
                    o.light_vy + fx_mul(l.physical.vy as int, KNOCKBACK_FX as int),
                    -VEL_LIMIT as int,
                    VEL_LIMIT as int,
                )
            } else {
                o.light_vy
            },
            light_jitters: if st > 0 {
                o.light_jitters + 1
            } else {
                o.light_jitters
            },
            cues: o.cues + hit_cues(l, st, Side::Light),
            ..o
        }
    } else if hits_ship(l, dark0) {
        let st = struct_after(
            o.dark_structure,
            applied_damage(l.laser.damage as int, dark0.combat.armour as int),
        );
        CollisionOutcome {
            dark_structure: st,
            dark_vx: if st > 0 {
                clamp_spec(
                    o.dark_vx + fx_mul(l.physical.vx as int, KNOCKBACK_FX as int),
                    -VEL_LIMIT as int,
                    VEL_LIMIT as int,
                )
            } else {
                o.dark_vx
            },
            dark_vy: if st > 0 {
                clamp_spec(
                    o.dark_vy + fx_mul(l.physical.vy as int, KNOCKBACK_FX as int),
                    -VEL_LIMIT as int,
                    VEL_LIMIT as int,
                )
            } else {
                o.dark_vy
            },
            dark_jitters: if st > 0 {
                o.dark_jitters + 1
            } else {
                o.dark_jitters
            },
            cues: o.cues + hit_cues(l, st, Side::Dark),
            ..o
        }
    } else {
        CollisionOutcome { kept: o.kept.push(l), ..o }
    }
}

/// The projectile phase folded over the pool in order.
pub open spec fn collision_fold(
    o: CollisionOutcome,
    s: Seq<LaserEntity>,
    light0: ShipEntity,
    dark0: ShipEntity,
) -> CollisionOutcome
    decreases s.len(),
{
    if s.len() == 0 {
        o
    } else {
        collision_fold(laser_hit_step(o, s.first(), light0, dark0), s.drop_first(), light0, dark0)
    }
}

/// The projectile fold distributes over appending one projectile.
pub proof fn lemma_collision_fold_push(
    o: CollisionOutcome,
    s: Seq<LaserEntity>,
    x: LaserEntity,
    light0: ShipEntity,
    dark0: ShipEntity,
)
    ensures
        collision_fold(o, s.push(x), light0, dark0) == laser_hit_step(
            collision_fold(o, s, light0, dark0),
            x,
            light0,
            dark0,
        ),
    decreases s.len(),
{
    if s.len() == 0 {
        assert(s.push(x).first() == x);
        assert(s.push(x).drop_first() =~= Seq::<LaserEntity>::empty());
        assert(collision_fold(o, s.push(x), light0, dark0) == collision_fold(
            laser_hit_step(o, x, light0, dark0),
            Seq::<LaserEntity>::empty(),
            light0,
            dark0,
        ));
        assert(collision_fold(
            laser_hit_step(o, x, light0, dark0),
            Seq::<LaserEntity>::empty(),
            light0,
            dark0,
        ) == laser_hit_step(o, x, light0, dark0));
        assert(collision_fold(o, s, light0, dark0) == o);
    } else {
        assert(s.push(x).first() == s.first());
        assert(s.push(x).drop_first() =~= s.drop_first().push(x));
        assert(collision_fold(o, s.push(x), light0, dark0) == collision_fold(
            laser_hit_step(o, s.first(), light0, dark0),
            s.drop_first().push(x),
            light0,
            dark0,
        ));
        lemma_collision_fold_push(laser_hit_step(o, s.first(), light0, dark0), s.drop_first(), x, light0, dark0);
        assert(collision_fold(o, s, light0, dark0) == collision_fold(
            laser_hit_step(o, s.first(), light0, dark0),
            s.drop_first(),
            light0,
            dark0,
        ));
    }
}

/// Whether the two ships' hulls overlap, under the game's tolerance.
pub open spec fn ships_overlap(light: ShipEntity, dark: ShipEntity) -> bool {
    circles_overlap(
        light.spatial.x as int,
        light.spatial.y as int,
        light.physical.radius as int,
        dark.spatial.x as int,
        dark.spatial.y as int,
        dark.physical.radius as int,
    )
}

/// The ship-ship contact phase applied to the outcome of the projectile
/// phase: both hulls take floored contact damage, each survivor's velocity
/// is reversed, and the impact sound plays once.
pub open spec fn contact_outcome(
    o: CollisionOutcome,
    light0: ShipEntity,
    dark0: ShipEntity,
) -> CollisionOutcome {
    if ships_overlap(light0, dark0) {
        let lst = struct_after(
            o.light_structure,
            applied_damage(CONTACT_DAMAGE as int, light0.combat.armour as int),
        );
        let dst = struct_after(
            o.dark_structure,
            applied_damage(CONTACT_DAMAGE as int, dark0.combat.armour as int),
        );
        CollisionOutcome {
            light_structure: lst,
            light_vx: if lst > 0 {
                -o.light_vx
            } else {
                o.light_vx
            },
            light_vy: if lst > 0 {
                -o.light_vy
            } else {
                o.light_vy
            },
            light_jitters: if lst > 0 {
                o.light_jitters + 1
            } else {
                o.light_jitters
            },
            dark_structure: dst,
            dark_vx: if dst > 0 {
                -o.dark_vx
            } else {
                o.dark_vx
            },
            dark_vy: if dst > 0 {
                -o.dark_vy
            } else {
                o.dark_vy
            },
            dark_jitters: if dst > 0 {
                o.dark_jitters + 1
            } else {
                o.dark_jitters
            },
            cues: o.cues + seq![Cue::ImpactSound] + (if lst <= 0 {
                seq![Cue::ShipDestroyed(Side::Light)]
            } else {
                Seq::empty()
            }) + (if dst <= 0 {
                seq![Cue::ShipDestroyed(Side::Dark)]
            } else {
                Seq::empty()
            }),
            ..o
        }
    } else {
        o
    }
}

/// Everything jitter-independent the Collision Resolver decides this tick,
/// from the two ships and the pool it starts from.
pub open spec fn collision_spec_parts(
    light0: ShipEntity,
    dark0: ShipEntity,
    pool: Seq<LaserEntity>,
) -> CollisionOutcome {
    contact_outcome(
        collision_fold(outcome_init(light0, dark0), pool, light0, dark0),
        light0,
        dark0,
    )
}

/// The same, read off a whole world.
pub open spec fn collision_spec(w: World) -> CollisionOutcome {
    collision_spec_parts(w.light, w.dark, w.lasers@)
}

/// Apply one projectile hit to a ship, with the drawn recoil jitter.
pub fn apply_laser_hit(e: &mut ShipEntity, l: &LaserEntity, jitter: i64, cues: &mut Vec<Cue>)
    requires
        ship_entity_wf(*old(e), old(e).ship.side),
        crate::world::laser_entity_wf(*l),
        -500 <= jitter <= 500,
    ensures
        *final(e) == hit_ship(*old(e), *l, jitter as int),
        ship_entity_wf(*final(e), old(e).ship.side),
        final(cues)@ == old(cues)@ + hit_cues(
            *l,
            struct_after(
                old(e).combat.structure as int,
                applied_damage(l.laser.damage as int, old(e).combat.armour as int),
            ),
            old(e).ship.side,
        ),
{
    let mut d = l.laser.damage - e.combat.armour;
    if d <= 0 {
        d = 0;
    }
    let mut st = e.combat.structure - d;
    if st < STRUCT_FLOOR {
        st = STRUCT_FLOOR;
    }
    e.combat.structure = st;
    cues.push(Cue::ImpactSound);
    cues.push(Cue::ImpactEffect { x: l.spatial.x, y: l.spatial.y });
    if st <= 0 {
        cues.push(Cue::ShipDestroyed(e.ship.side));
    } else {
        let kx = mul_fx(l.physical.vx, KNOCKBACK_FX);
        let ky = mul_fx(l.physical.vy, KNOCKBACK_FX);
        proof {
            lemma_fx_mul_bound(l.physical.vx as int, KNOCKBACK_FX as int, VEL_LIMIT as int, 10, 10_000_000);
            lemma_fx_mul_bound(l.physical.vy as int, KNOCKBACK_FX as int, VEL_LIMIT as int, 10, 10_000_000);
        }
        e.spatial.rot = norm_angle(e.spatial.rot + jitter);
        e.physical.vx = add_clamped(e.physical.vx, kx, VEL_LIMIT);
        e.physical.vy = add_clamped(e.physical.vy, ky, VEL_LIMIT);
    }
}

/// Apply hull-contact damage to one ship, with the drawn recoil jitter.
pub fn apply_contact(e: &mut ShipEntity, jitter: i64, cues: &mut Vec<Cue>)
    requires
        ship_entity_wf(*old(e), old(e).ship.side),
        -500 <= jitter <= 500,
    ensures
        *final(e) == contact_ship(*old(e), jitter as int),
        ship_entity_wf(*final(e), old(e).ship.side),
        final(cues)@ == old(cues)@ + if final(e).combat.structure <= 0 {
            seq![Cue::ShipDestroyed(old(e).ship.side)]
        } else {
            Seq::<Cue>::empty()
        },
{
    let mut d = CONTACT_DAMAGE - e.combat.armour;
    if d <= 0 {
        d = 0;
    }
    let mut st = e.combat.structure - d;
    if st < STRUCT_FLOOR {
        st = STRUCT_FLOOR;
    }
    e.combat.structure = st;
    if st <= 0 {
        cues.push(Cue::ShipDestroyed(e.ship.side));
    } else {
        e.spatial.rot = norm_angle(e.spatial.rot + jitter);
        e.physical.vx = -e.physical.vx;
        e.physical.vy = -e.physical.vy;
    }
}

/// The Collision Resolver: one pass after the Integrator and the Weapon
/// Resolver.
pub struct CollisionSystem;

impl CollisionSystem {
    /// Run the resolver for this tick.  Everything except the recoil
    /// rotation is pinned by `collision_spec`: structure and velocity of
    /// both ships, the surviving pool, and the cue sequence.  A heading
    /// that was never jittered is unchanged.
    pub fn run(&self, world: &mut World, rng: &RandomGen, cues: &mut Vec<Cue>)
        requires
            world_wf(*old(world)),
        ensures
            world_wf(*final(world)),
            final(world).light.combat.structure == collision_spec(*old(world)).light_structure,
            final(world).dark.combat.structure == collision_spec(*old(world)).dark_structure,
            final(world).light.physical.vx == collision_spec(*old(world)).light_vx,
            final(world).light.physical.vy == collision_spec(*old(world)).light_vy,
            final(world).dark.physical.vx == collision_spec(*old(world)).dark_vx,
            final(world).dark.physical.vy == collision_spec(*old(world)).dark_vy,
            final(world).lasers@ == collision_spec(*old(world)).kept,
            final(cues)@ == old(cues)@ + collision_spec(*old(world)).cues,
            final(world).light.combat == (Combat {
                structure: final(world).light.combat.structure,
                ..old(world).light.combat
            }),
            final(world).dark.combat == (Combat {
                structure: final(world).dark.combat.structure,
                ..old(world).dark.combat
            }),
            final(world).light.physical == (Physical {
                vx: final(world).light.physical.vx,
                vy: final(world).light.physical.vy,
                ..old(world).light.physical
            }),
            final(world).dark.physical == (Physical {
                vx: final(world).dark.physical.vx,
                vy: final(world).dark.physical.vy,
                ..old(world).dark.physical
            }),
            final(world).light.spatial.x == old(world).light.spatial.x,
            final(world).light.spatial.y == old(world).light.spatial.y,
            final(world).dark.spatial.x == old(world).dark.spatial.x,
            final(world).dark.spatial.y == old(world).dark.spatial.y,
            final(world).light.ship == old(world).light.ship,
            final(world).dark.ship == old(world).dark.ship,
            collision_spec(*old(world)).light_jitters == 0 ==> final(world).light.spatial.rot
                == old(world).light.spatial.rot,
            collision_spec(*old(world)).dark_jitters == 0 ==> final(world).dark.spatial.rot
                == old(world).dark.spatial.rot,
            final(world).scores == old(world).scores,
    {
        let ghost w0 = *world;
        let ghost light0 = world.light;
        let ghost dark0 = world.dark;
        let ghost cues0 = cues@;
        let ghost pool0 = world.lasers@;
        let mut kept: Vec<LaserEntity> = Vec::new();
        let n = world.lasers.len();
        let mut i: usize = 0;
        proof {
            assert(pool0.subrange(0, 0) =~= Seq::<LaserEntity>::empty());
        }
        while i < n
            invariant
                n == pool0.len(),
                world.lasers@ == pool0,
                lasers_wf(pool0),
                lasers_wf(kept@),
                0 <= i <= n,
                ship_entity_wf(world.light, Side::Light),
                ship_entity_wf(world.dark, Side::Dark),
                light0 == w0.light,
                dark0 == w0.dark,
                ship_entity_wf(light0, Side::Light),
                ship_entity_wf(dark0, Side::Dark),
                ({
                    let o = collision_fold(outcome_init(light0, dark0), pool0.subrange(0, i as int), light0, dark0);
                    &&& world.light.combat.structure == o.light_structure
                    &&& world.dark.combat.structure == o.dark_structure
                    &&& world.light.physical.vx == o.light_vx
                    &&& world.light.physical.vy == o.light_vy
                    &&& world.dark.physical.vx == o.dark_vx
                    &&& world.dark.physical.vy == o.dark_vy
                    &&& kept@ == o.kept
                    &&& cues@ == cues0 + o.cues
                    &&& o.light_jitters >= 0
                    &&& o.dark_jitters >= 0
                    &&& (o.light_jitters == 0 ==> world.light.spatial.rot == light0.spatial.rot)
                    &&& (o.dark_jitters == 0 ==> world.dark.spatial.rot == dark0.spatial.rot)
                }),
                world.light.combat == (Combat {
                    structure: world.light.combat.structure,
                    ..light0.combat
                }),
                world.dark.combat == (Combat {
                    structure: world.dark.combat.structure,
                    ..dark0.combat
                }),
                world.light.physical == (Physical {
                    vx: world.light.physical.vx,
                    vy: world.light.physical.vy,
                    ..light0.physical
                }),
                world.dark.physical == (Physical {
                    vx: world.dark.physical.vx,
                    vy: world.dark.physical.vy,
                    ..dark0.physical
                }),
                world.light.spatial.x == light0.spatial.x,
                world.light.spatial.y == light0.spatial.y,
                world.dark.spatial.x == dark0.spatial.x,
                world.dark.spatial.y == dark0.spatial.y,
                world.light.ship == light0.ship,
                world.dark.ship == dark0.ship,
                world.scores == w0.scores,
            decreases n - i,
        {
            let l = world.lasers[i];
            proof {
                assert(pool0.subrange(0, i + 1 as int) =~= pool0.subrange(0, i as int).push(
                    pool0[i as int],
                ));
                lemma_collision_fold_push(
                    outcome_init(light0, dark0),
                    pool0.subrange(0, i as int),
                    pool0[i as int],
                    light0,
                    dark0,
                );
            }
            if l.laser.side != world.light.ship.side && circles_collide(
                l.spatial.x,
                l.spatial.y,
                LASER_RADIUS_FX,
                world.light.spatial.x,
                world.light.spatial.y,
                world.light.physical.radius,
            ) {
                let jitter = rng.next_jitter();
                apply_laser_hit(&mut world.light, &l, jitter, cues);
            } else if l.laser.side != world.dark.ship.side && circles_collide(
                l.spatial.x,
                l.spatial.y,
                LASER_RADIUS_FX,
                world.dark.spatial.x,
                world.dark.spatial.y,
                world.dark.physical.radius,
            ) {
                let jitter = rng.next_jitter();
                apply_laser_hit(&mut world.dark, &l, jitter, cues);
            } else {
                kept.push(l);
            }
            proof {
                let o2 = collision_fold(
                    outcome_init(light0, dark0),
                    pool0.subrange(0, i + 1 as int),
                    light0,
                    dark0,
                );
                assert(cues@ =~= cues0 + o2.cues);
            }
            i = i + 1;
        }
        proof {
            assert(pool0.subrange(0, n as int) =~= pool0);
        }
        world.lasers = kept;

        // Ship-ship contact: both hulls take floored contact damage, each
        // survivor's velocity is reversed and its heading jittered.
        if circles_collide(
            world.light.spatial.x,
            world.light.spatial.y,
            world.light.physical.radius,
            world.dark.spatial.x,
            world.dark.spatial.y,
            world.dark.physical.radius,
        ) {
            cues.push(Cue::ImpactSound);
            let lj = rng.next_jitter();
            apply_contact(&mut world.light, lj, cues);
            let dj = rng.next_jitter();
            apply_contact(&mut world.dark, dj, cues);
        }
        proof {
            let cs = collision_spec(w0);
            assert(cues@ =~= cues0 + cs.cues);
        }
    }
}

} // verus!
