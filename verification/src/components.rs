//! The records attached to entities, and their well-formedness.
//!
//! A ship entity owns a spatial, a kinematic (`Physical`), a `Ship` and a
//! `Combat` record; a projectile entity owns a spatial, a kinematic and a
//! `Laser` record.  Well-formedness bounds every fixed-point field so that
//! the resolvers' arithmetic is exact, and it is preserved by every resolver.

use vstd::prelude::*;
use crate::fx::CFG_LIMIT;
use crate::fx::ELAPSED_LIMIT;
use crate::fx::FX_ONE;
use crate::fx::POS_LIMIT;
use crate::fx::SHIP_POS_LIMIT;
use crate::fx::VEL_LIMIT;
use crate::trig::TAU_FX;

verus! {

/// Largest damage, armour or structure-maximum value a configuration may hold.
pub const DMG_LIMIT: i64 = 1_000_000;

/// Structure saturates here instead of underflowing: far below any value the
/// outcome resolver can observe before respawning the ship.
pub const STRUCT_FLOOR: i64 = -1_000_000_000_000;

/// Cooldown between two thrust cues, in fixed-point seconds.
pub const THRUST_COOLDOWN: i64 = 2000;

/// Fixed damage each hull takes on ship-ship contact, before armour.
pub const CONTACT_DAMAGE: i64 = 30;

/// The damage a hit applies: the incoming damage less the ship's armour,
/// floored at zero (armour never heals).
pub open spec fn applied_damage(damage: int, armour: int) -> int {
    if damage - armour <= 0 {
        0
    } else {
        damage - armour
    }
}

/// Structure after damage is applied: plain subtraction, saturated at the
/// deep floor so repeated overkill cannot underflow.
pub open spec fn struct_after(structure: int, damage: int) -> int {
    if structure - damage < STRUCT_FLOOR {
        STRUCT_FLOOR as int
    } else {
        structure - damage
    }
}

/// Default velocity-magnitude cap of a freshly built kinematic record.
pub const DEFAULT_MAX_VELOCITY: i64 = 5 * FX_ONE;

/// The two factions.  A faction is a tag, not a hierarchy.
#[derive(Clone, Copy, Debug, PartialEq, Eq, Structural)]
pub enum Side {
    Light,
    Dark,
}

/// The faction a ship does not belong to.
pub open spec fn opposing(side: Side) -> Side {
    match side {
        Side::Light => Side::Dark,
        Side::Dark => Side::Light,
    }
}

/// Position and rotation in arena coordinates, attached to every ship and
/// projectile.
#[derive(Clone, Copy, Debug, PartialEq, Eq, Structural)]
pub struct Spatial {
    pub x: i64,
    pub y: i64,
    pub rot: i64,
}

/// Kinematic state and per-ship handling configuration.
#[derive(Clone, Copy, Debug, PartialEq, Eq, Structural)]
pub struct Physical {
    pub acceleration: i64,
    pub agility: i64,
    pub vx: i64,
    pub vy: i64,
    pub max_velocity: i64,
    pub rotation: i64,
    pub radius: i64,
    pub mass: i64,
}

/// Faction tag and thrust-cue cooldown of a ship.
#[derive(Clone, Copy, Debug, PartialEq, Eq, Structural)]
pub struct Ship {
    pub side: Side,
    pub thrust_timer: i64,
}

/// Weapon spawn policy: one projectile along the forward axis, or two offset
/// symmetrically to its left and right.
#[derive(Clone, Copy, Debug, PartialEq, Eq, Structural)]
pub enum LaserType {
    Single,
    Dual,
}

/// Hit points, damage reduction and weapon configuration of a ship.  The
/// burst and missile fields are reserved for future weapon types; no resolver
/// reads them.
#[derive(Clone, Copy, Debug, PartialEq, Eq, Structural)]
pub struct Combat {
    pub structure: i64,
    pub max_structure: i64,
    pub armour: i64,
    pub laser_damage: i64,
    pub laser_timer: i64,
    pub laser_velocity: i64,
    pub laser_type: LaserType,
    pub reload_timer: i64,
    pub time_to_reload: i64,
    pub burst_rate: i64,
    pub burst_delay: i64,
    pub burst_timer: i64,
    pub missile_damage: i64,
    pub missile_timer: i64,
    pub missile_explosion_radius: i64,
    pub missile_velocity: i64,
}

/// Remaining lifetime, damage and owning faction of a projectile.
#[derive(Clone, Copy, Debug, PartialEq, Eq, Structural)]
pub struct Laser {
    pub timer: i64,
    pub damage: i64,
    pub side: Side,
}

/// Marker for a short-lived impact-effect entity.
#[derive(Clone, Copy, Debug, PartialEq, Eq, Structural)]
pub struct LaserImpact;

/// Visibility of a ship's thrust effect.
#[derive(Clone, Copy, Debug, PartialEq, Eq, Structural)]
pub struct Thrust {
    pub show: bool,
}

/// The two sides' scores: non-decreasing, capped at 999.
#[derive(Clone, Copy, Debug, PartialEq, Eq, Structural)]
pub struct ScoreBoard {
    pub score_light: i64,
    pub score_dark: i64,
}

/// States of a reserved enemy auto-pilot; no resolver drives it yet.
#[derive(Clone, Copy, Debug, PartialEq, Eq, Structural, Hash)]
pub enum EnemyAi {
    CloseDistance,
    Escape,
    MaintainDistance,
    Attack,
    Evade,
}

/// Identifier of a playable animation.
#[derive(Clone, Copy, Debug, PartialEq, Eq, Structural, Hash)]
pub enum AnimationId {
    LaserImpact,
}

/// Playback state of an animated effect entity.
#[derive(Clone, Debug)]
pub struct Animation {
    pub current: AnimationId,
    pub types: Vec<AnimationId>,
    pub show: bool,
}

/// A fire-and-forget event emitted by the core for the audio, visual and
/// score-display collaborators; it carries no state back into the core.
#[derive(Clone, Copy, Debug, PartialEq, Eq, Structural)]
pub enum Cue {
    /// The thrust sound should play for this side.
    ThrustSound(Side),
    /// This side's thrust effect becomes visible.
    ThrustShown(Side),
    /// This side's thrust effect is hidden.
    ThrustHidden(Side),
    /// This side fired its weapon.
    WeaponFired(Side),
    /// A projectile or a hull struck a ship.
    ImpactSound,
    /// An impact effect should be spawned at this position.
    ImpactEffect { x: i64, y: i64 },
    /// This side's ship was reduced to zero structure.
    ShipDestroyed(Side),
}

impl Default for ScoreBoard {
    /// Both scores start at zero.
    fn default() -> (r: ScoreBoard)
        ensures
            r.score_light == 0 && r.score_dark == 0,
    {
        ScoreBoard { score_light: 0, score_dark: 0 }
    }
}

impl Default for EnemyAi {
    /// The auto-pilot starts by closing the distance.
    fn default() -> (r: EnemyAi)
        ensures
            r == EnemyAi::CloseDistance,
    {
        EnemyAi::CloseDistance
    }
}

impl Default for LaserImpact {
    fn default() -> (r: LaserImpact)
        ensures
            r == LaserImpact,
    {
        LaserImpact
    }
}

impl Ship {
    /// A ship of the given faction with its thrust cue ready.
    pub fn new(side: Side) -> (r: Ship)
        ensures
            r.side == side,
            r.thrust_timer == 0,
    {
        Ship { side, thrust_timer: 0 }
    }
}

impl Physical {
    /// A kinematic record at rest with the default velocity cap of 5.0.
    pub fn new(radius: i64, mass: i64, acceleration: i64, agility: i64) -> (r: Physical)
        ensures
            r == (Physical {
                acceleration,
                agility,
                vx: 0,
                vy: 0,
                max_velocity: DEFAULT_MAX_VELOCITY,
                rotation: 0,
                radius,
                mass,
            }),
    {
        Physical {
            acceleration,
            agility,
            vx: 0,
            vy: 0,
            max_velocity: DEFAULT_MAX_VELOCITY,
            rotation: 0,
            radius,
            mass,
        }
    }
}

impl Combat {
    /// A combat record with a full hull, a ready weapon, and the default
    /// reserved burst configuration.
    pub fn new(
        structure: i64,
        armour: i64,
        laser_damage: i64,
        laser_timer: i64,
        laser_velocity: i64,
        laser_type: LaserType,
        time_to_reload: i64,
        missile_damage: i64,
        missile_timer: i64,
        missile_explosion_radius: i64,
        missile_velocity: i64,
    ) -> (r: Combat)
        ensures
            r == (Combat {
                structure,
                max_structure: structure,
                armour,
                laser_damage,
                laser_timer,
                laser_velocity,
                laser_type,
                reload_timer: 0,
                time_to_reload,
                burst_rate: 8,
                burst_delay: 50,
                burst_timer: 0,
                missile_damage,
                missile_timer,
                missile_explosion_radius,
                missile_velocity,
            }),
    {
        Combat {
            structure,
            max_structure: structure,
            armour,
            laser_damage,
            laser_timer,
            laser_velocity,
            laser_type,
            reload_timer: 0,
            time_to_reload,
            burst_rate: 8,
            burst_delay: 50,
            burst_timer: 0,
            missile_damage,
            missile_timer,
            missile_explosion_radius,
            missile_velocity,
        }
    }
}

impl Laser {
    /// A projectile record as copied from the firing ship at spawn time.
    pub fn new(timer: i64, damage: i64, side: Side) -> (r: Laser)
        ensures
            r == (Laser { timer, damage, side }),
    {
        Laser { timer, damage, side }
    }
}

impl Animation {
    /// A visible animation currently playing `current`.
    pub fn new(current: AnimationId, types: Vec<AnimationId>) -> (r: Animation)
        ensures
            r.current == current,
            r.types == types,
            r.show,
    {
        Animation { current, types, show: true }
    }
}

/// Bounds on a ship's spatial record: inside the saturation box, rotation
/// normalized.
pub open spec fn ship_spatial_wf(s: Spatial) -> bool {
    &&& -SHIP_POS_LIMIT <= s.x <= SHIP_POS_LIMIT
    &&& -SHIP_POS_LIMIT <= s.y <= SHIP_POS_LIMIT
    &&& 0 <= s.rot < TAU_FX
}

/// Bounds on a projectile's spatial record; spawn offsets may carry it
/// slightly past the ship box.
pub open spec fn laser_spatial_wf(s: Spatial) -> bool {
    &&& -POS_LIMIT <= s.x <= POS_LIMIT
    &&& -POS_LIMIT <= s.y <= POS_LIMIT
    &&& 0 <= s.rot < TAU_FX
}

/// Bounds on a kinematic record.
pub open spec fn physical_wf(p: Physical) -> bool {
    &&& 0 <= p.acceleration <= CFG_LIMIT
    &&& 0 <= p.agility <= CFG_LIMIT
    &&& -VEL_LIMIT <= p.vx <= VEL_LIMIT
    &&& -VEL_LIMIT <= p.vy <= VEL_LIMIT
    &&& 0 <= p.max_velocity <= CFG_LIMIT
    &&& 0 <= p.radius <= CFG_LIMIT
    &&& 0 <= p.mass <= CFG_LIMIT
    &&& -CFG_LIMIT <= p.rotation <= CFG_LIMIT
}

/// Bounds on a combat record.  Structure starts at `max_structure` and only
/// moves between the saturation floor and that maximum.
pub open spec fn combat_wf(c: Combat) -> bool {
    &&& STRUCT_FLOOR <= c.structure <= c.max_structure
    &&& 1 <= c.max_structure <= DMG_LIMIT
    &&& 0 <= c.armour <= DMG_LIMIT
    &&& 0 <= c.laser_damage <= DMG_LIMIT
    &&& 0 <= c.laser_timer <= CFG_LIMIT
    &&& 0 <= c.laser_velocity <= CFG_LIMIT
    &&& 0 <= c.reload_timer <= CFG_LIMIT
    &&& 0 <= c.time_to_reload <= CFG_LIMIT
}

/// Bounds on a ship record.
pub open spec fn ship_wf(s: Ship) -> bool {
    -ELAPSED_LIMIT <= s.thrust_timer <= THRUST_COOLDOWN
}

/// Bounds on a projectile record.
pub open spec fn laser_wf(l: Laser) -> bool {
    &&& 0 <= l.timer <= CFG_LIMIT
    &&& 0 <= l.damage <= DMG_LIMIT
}

/// Scores stay within `[0, 999]`.
pub open spec fn scores_wf(s: ScoreBoard) -> bool {
    &&& 0 <= s.score_light <= 999
    &&& 0 <= s.score_dark <= 999
}

} // verus!
