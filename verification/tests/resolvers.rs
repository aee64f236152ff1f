use paladin::collision_system::circles_collide;
use paladin::collision_system::CollisionSystem;
use paladin::components::Cue;
use paladin::components::Laser;
use paladin::components::Physical;
use paladin::components::Side;
use paladin::components::Spatial;
use paladin::input::InputState;
use paladin::input::SideInput;
use paladin::laser::LaserSystem;
use paladin::move_laser::MoveLaserSystem;
use paladin::physics::PhysicsSystem;
use paladin::rng::RandomGen;
use paladin::ship_movement::MovementSystem;
use paladin::world::initialise_ships;
use paladin::world::LaserEntity;
use paladin::world::World;

fn idle_input() -> InputState {
    InputState { light: SideInput::none(), dark: SideInput::none() }
}

fn pool_laser(x: i64, y: i64, vx: i64, vy: i64, timer: i64, damage: i64, side: Side) -> LaserEntity {
    let mut physical = Physical::new(8000, 4000, 0, 0);
    physical.vx = vx;
    physical.vy = vy;
    LaserEntity {
        spatial: Spatial { x, y, rot: 0 },
        physical,
        laser: Laser::new(timer, damage, side),
    }
}

#[test]
fn thrust_accelerates_along_heading_and_plays_the_cue() {
    let mut w = initialise_ships();
    w.light.spatial.rot = 0;
    let mut input = idle_input();
    input.light.accelerate = Some(1000);
    let mut cues: Vec<Cue> = Vec::new();
    MovementSystem.run(&mut w, &input, 1000, &mut cues);
    // heading at rotation 0 is (0, 1), so thrust of 1.25 * 1.0s lands on vy.
    assert_eq!(w.light.physical.vx, 0);
    assert_eq!(w.light.physical.vy, 1250);
    assert!(cues.contains(&Cue::ThrustShown(Side::Light)));
    assert!(cues.contains(&Cue::ThrustSound(Side::Light)));
    assert_eq!(w.light.ship.thrust_timer, 2000);
    // The idle dark ship is told to hide its thrust effect.
    assert!(cues.contains(&Cue::ThrustHidden(Side::Dark)));
}

#[test]
fn velocity_magnitude_is_clamped_after_thrust() {
    let mut w = initialise_ships();
    w.light.spatial.rot = 0;
    w.light.physical.vy = 4900;
    let mut input = idle_input();
    input.light.accelerate = Some(1000);
    let mut cues: Vec<Cue> = Vec::new();
    MovementSystem.run(&mut w, &input, 1000, &mut cues);
    // 4900 + 1250 exceeds the cap of 5000 and is clamped to it exactly.
    assert_eq!(w.light.physical.vy, 5000);
    assert_eq!(w.light.physical.vx, 0);
    let vx = w.light.physical.vx as i128;
    let vy = w.light.physical.vy as i128;
    let max = w.light.physical.max_velocity as i128;
    assert!(vx * vx + vy * vy <= max * max);
}

#[test]
fn rotation_axis_turns_by_agility_times_axis() {
    let mut w = initialise_ships();
    let mut input = idle_input();
    input.light.rotate = Some(1000);
    let mut cues: Vec<Cue> = Vec::new();
    MovementSystem.run(&mut w, &input, 1000, &mut cues);
    assert_eq!(w.light.spatial.rot, 1650);
    assert_eq!(w.dark.spatial.rot, 4684);
}

#[test]
fn drift_translates_sideways_independent_of_heading() {
    let mut w = initialise_ships();
    let mut input = idle_input();
    input.light.drift = Some(1000);
    let mut cues: Vec<Cue> = Vec::new();
    MovementSystem.run(&mut w, &input, 1000, &mut cues);
    assert_eq!(w.light.spatial.x, 172_000 - 1250);
    assert_eq!(w.light.spatial.y, 614_400);
}

#[test]
fn integrator_adds_velocity_and_wraps_only_when_leaving() {
    let mut w = initialise_ships();
    w.light.physical.vx = 100;
    w.light.physical.vy = -200;
    PhysicsSystem.run(&mut w);
    assert_eq!(w.light.spatial.x, 172_100);
    assert_eq!(w.light.spatial.y, 614_200);

    // Past the right edge by more than the radius, still moving out: wraps.
    w.light.spatial.x = 1_963_000;
    w.light.physical.vx = 1;
    w.light.physical.vy = 0;
    PhysicsSystem.run(&mut w);
    assert_eq!(w.light.spatial.x, -43_000);

    // Past the edge but moving back in: left alone.
    w.light.spatial.x = 1_963_000;
    w.light.physical.vx = -1;
    PhysicsSystem.run(&mut w);
    assert_eq!(w.light.spatial.x, 1_962_999);
}

#[test]
fn projectiles_move_by_velocity_times_elapsed() {
    let mut w = initialise_ships();
    w.lasers.push(pool_laser(100_000, 200_000, 10_000, -4000, 6000, 20, Side::Light));
    MoveLaserSystem.run(&mut w, 500);
    assert_eq!(w.lasers.len(), 1);
    assert_eq!(w.lasers[0].spatial.x, 105_000);
    assert_eq!(w.lasers[0].spatial.y, 198_000);
    // The timer is untouched by movement.
    assert_eq!(w.lasers[0].laser.timer, 6000);
}

#[test]
fn firing_spawns_a_single_laser_and_reloads() {
    let mut w = initialise_ships();
    let mut input = idle_input();
    input.light.shoot = true;
    let mut cues: Vec<Cue> = Vec::new();
    LaserSystem.run(&mut w, &input, 100, &mut cues);
    assert_eq!(w.lasers.len(), 1);
    let l = &w.lasers[0];
    assert_eq!(l.laser.timer, 6000);
    assert_eq!(l.laser.damage, 20);
    assert_eq!(l.laser.side, Side::Light);
    // Heading at rotation 1600 is (-999, -29) thousandths.
    assert_eq!(l.physical.vx, -9990);
    assert_eq!(l.physical.vy, -290);
    assert_eq!(l.spatial.x, 172_000 - 79_920);
    assert_eq!(l.spatial.y, 614_400 - 2320);
    assert_eq!(w.light.combat.reload_timer, 200);
    assert_eq!(cues, vec![Cue::WeaponFired(Side::Light)]);
}

#[test]
fn dual_policy_spawns_two_symmetric_lasers() {
    let mut w = initialise_ships();
    let mut input = idle_input();
    input.dark.shoot = true;
    let mut cues: Vec<Cue> = Vec::new();
    LaserSystem.run(&mut w, &input, 100, &mut cues);
    assert_eq!(w.lasers.len(), 2);
    assert_eq!(w.lasers[0].laser.damage, 15);
    assert_eq!(w.lasers[1].laser.damage, 15);
    assert_eq!(w.lasers[0].laser.side, Side::Dark);
    assert_eq!(w.lasers[1].laser.side, Side::Dark);
    assert_eq!(w.lasers[0].laser.timer, 4000);
    // The two spawns sit symmetrically about the muzzle.
    assert_eq!(
        w.lasers[0].spatial.x + w.lasers[1].spatial.x,
        2 * (w.dark.spatial.x + (w.lasers[0].physical.vx * 8)),
    );
    assert_eq!(w.dark.combat.reload_timer, 300);
    assert_eq!(cues, vec![Cue::WeaponFired(Side::Dark)]);
}

#[test]
fn reloading_gates_fire_and_counts_down_to_zero() {
    let mut w = initialise_ships();
    w.light.combat.reload_timer = 200;
    let mut input = idle_input();
    input.light.shoot = true;
    let mut cues: Vec<Cue> = Vec::new();
    LaserSystem.run(&mut w, &input, 50, &mut cues);
    assert_eq!(w.lasers.len(), 0);
    assert_eq!(w.light.combat.reload_timer, 150);
    assert!(cues.is_empty());
    // A decrement past zero clamps at zero.
    LaserSystem.run(&mut w, &input, 1000, &mut cues);
    assert_eq!(w.light.combat.reload_timer, 0);
    assert_eq!(w.lasers.len(), 0);
    // Ready again: the next asserted intent fires.
    LaserSystem.run(&mut w, &input, 1000, &mut cues);
    assert_eq!(w.lasers.len(), 1);
}

#[test]
fn collision_overlap_uses_the_sum_of_squared_radii() {
    // Distance 9000 against radii 5000 and 8000: 81e6 <= 25e6 + 64e6.
    assert!(circles_collide(0, 0, 5000, 9000, 0, 8000));
    // Distance 10000: 100e6 > 89e6 under the game's tolerance, although the
    // strict circle test (10000 <= 13000) would still call it an overlap.
    assert!(!circles_collide(0, 0, 5000, 10_000, 0, 8000));
}

#[test]
fn projectile_hit_applies_floored_damage_and_knockback() {
    let mut w = initialise_ships();
    // An opposing projectile directly on the light ship.
    w.lasers.push(pool_laser(
        w.light.spatial.x,
        w.light.spatial.y,
        10_000,
        0,
        6000,
        20,
        Side::Dark,
    ));
    let mut cues: Vec<Cue> = Vec::new();
    CollisionSystem.run(&mut w, &RandomGen, &mut cues);
    // Applied damage is 20 - 6; the projectile is spent.
    assert_eq!(w.light.combat.structure, 136);
    assert_eq!(w.lasers.len(), 0);
    // Knockback: one hundredth of the projectile velocity.
    assert_eq!(w.light.physical.vx, 100);
    assert_eq!(w.light.physical.vy, 0);
    assert_eq!(cues[0], Cue::ImpactSound);
    assert!(matches!(cues[1], Cue::ImpactEffect { .. }));
    assert_eq!(w.dark.combat.structure, 130);
}

#[test]
fn damage_at_or_below_armour_is_exactly_zero() {
    let mut w = initialise_ships();
    w.lasers.push(pool_laser(
        w.light.spatial.x,
        w.light.spatial.y,
        0,
        0,
        6000,
        6,
        Side::Dark,
    ));
    let mut cues: Vec<Cue> = Vec::new();
    CollisionSystem.run(&mut w, &RandomGen, &mut cues);
    assert_eq!(w.light.combat.structure, 150);
    assert_eq!(w.lasers.len(), 0);
}

#[test]
fn friendly_fire_is_excluded() {
    let mut w = initialise_ships();
    w.lasers.push(pool_laser(
        w.light.spatial.x,
        w.light.spatial.y,
        0,
        0,
        6000,
        20,
        Side::Light,
    ));
    let mut cues: Vec<Cue> = Vec::new();
    CollisionSystem.run(&mut w, &RandomGen, &mut cues);
    assert_eq!(w.light.combat.structure, 150);
    // The projectile struck nothing and stays in the pool.
    assert_eq!(w.lasers.len(), 1);
    assert!(cues.is_empty());
}

#[test]
fn jitter_draws_stay_in_range() {
    let rng = RandomGen;
    for _ in 0..1000 {
        let j = rng.next_jitter();
        assert!((-500..500).contains(&j));
    }
}

#[test]
fn thrust_within_cooldown_counts_down_without_sound() {
    let mut w = initialise_ships();
    w.light.ship.thrust_timer = 500;
    let mut input = idle_input();
    input.light.accelerate = Some(1000);
    let mut cues: Vec<Cue> = Vec::new();
    MovementSystem.run(&mut w, &input, 100, &mut cues);
    assert_eq!(w.light.ship.thrust_timer, 400);
    assert!(cues.contains(&Cue::ThrustShown(Side::Light)));
    assert!(!cues.contains(&Cue::ThrustSound(Side::Light)));
}

#[test]
fn non_positive_thrust_axis_hides_the_effect() {
    let mut w = initialise_ships();
    let mut input = idle_input();
    input.light.accelerate = Some(0);
    let mut cues: Vec<Cue> = Vec::new();
    MovementSystem.run(&mut w, &input, 100, &mut cues);
    assert!(cues.contains(&Cue::ThrustHidden(Side::Light)));
    assert_eq!(w.light.physical.vx, 0);
    assert_eq!(w.light.physical.vy, 0);
}

#[test]
fn lethal_hit_skips_knockback_and_signals_destruction() {
    let mut w = initialise_ships();
    w.light.combat.structure = 10;
    let rot_before = w.light.spatial.rot;
    w.lasers.push(pool_laser(
        w.light.spatial.x,
        w.light.spatial.y,
        10_000,
        0,
        6000,
        20,
        Side::Dark,
    ));
    let mut cues: Vec<Cue> = Vec::new();
    CollisionSystem.run(&mut w, &RandomGen, &mut cues);
    assert_eq!(w.light.combat.structure, 10 - 14);
    // A destroyed ship takes neither knockback nor recoil jitter.
    assert_eq!(w.light.physical.vx, 0);
    assert_eq!(w.light.spatial.rot, rot_before);
    assert!(cues.contains(&Cue::ShipDestroyed(Side::Light)));
    assert_eq!(w.lasers.len(), 0);
}
