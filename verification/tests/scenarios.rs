use paladin::collision_system::CollisionSystem;
use paladin::components::Cue;
use paladin::components::Laser;
use paladin::components::Physical;
use paladin::components::Side;
use paladin::components::Spatial;
use paladin::input::InputState;
use paladin::input::SideInput;
use paladin::laser::LaserSystem;
use paladin::rng::RandomGen;
use paladin::tick::run_tick;
use paladin::winner::WinnerSystem;
use paladin::world::initialise_ships;
use paladin::world::LaserEntity;
use paladin::world::ARENA_WIDTH_FX;

fn idle_input() -> InputState {
    InputState { light: SideInput::none(), dark: SideInput::none() }
}

fn far_laser(timer: i64) -> LaserEntity {
    // A projectile far from both ships, so only aging touches it.
    LaserEntity {
        spatial: Spatial { x: 900_000, y: 100_000, rot: 0 },
        physical: Physical::new(8000, 4000, 0, 0),
        laser: Laser::new(timer, 20, Side::Light),
    }
}

#[test]
fn projectile_with_six_seconds_lives_exactly_six_one_second_ticks() {
    let mut w = initialise_ships();
    w.lasers.push(far_laser(6000));
    let input = idle_input();
    let mut cues: Vec<Cue> = Vec::new();
    // Present through five aging passes of 1.0s each...
    for k in 1..=5 {
        LaserSystem.run(&mut w, &input, 1000, &mut cues);
        assert_eq!(w.lasers.len(), 1, "absent after pass {k}");
        assert_eq!(w.lasers[0].laser.timer, 6000 - 1000 * k);
    }
    // ...and deleted by the sixth (ceil(6.0 / 1.0) = 6), no earlier.
    LaserSystem.run(&mut w, &input, 1000, &mut cues);
    assert_eq!(w.lasers.len(), 0);
}

#[test]
fn hit_to_exactly_zero_scores_and_respawns_in_the_same_tick() {
    let mut w = initialise_ships();
    w.light.combat.structure = 0;
    w.lasers.push(far_laser(6000));
    WinnerSystem.run(&mut w);
    assert_eq!(w.scores.score_dark, 1);
    assert_eq!(w.scores.score_light, 0);
    assert_eq!(w.light.combat.structure, 150);
    assert_eq!(w.dark.combat.structure, 130);
    // The pool is cleared so no stray damage crosses the respawn.
    assert_eq!(w.lasers.len(), 0);
    assert_eq!(w.light.spatial.x, 172_000);
    assert_eq!(w.dark.spatial.x, 1_756_000);
}

#[test]
fn winner_pass_without_destruction_changes_nothing() {
    let mut w = initialise_ships();
    w.lasers.push(far_laser(6000));
    WinnerSystem.run(&mut w);
    assert_eq!(w.scores.score_light, 0);
    assert_eq!(w.scores.score_dark, 0);
    assert_eq!(w.lasers.len(), 1);
    assert_eq!(w.light.combat.structure, 150);
}

#[test]
fn scores_saturate_at_999() {
    let mut w = initialise_ships();
    w.scores.score_dark = 999;
    w.light.combat.structure = -5;
    WinnerSystem.run(&mut w);
    assert_eq!(w.scores.score_dark, 999);
    // Destroy again: still capped.
    w.light.combat.structure = 0;
    WinnerSystem.run(&mut w);
    assert_eq!(w.scores.score_dark, 999);

    let mut w2 = initialise_ships();
    w2.scores.score_light = 998;
    w2.dark.combat.structure = -1;
    WinnerSystem.run(&mut w2);
    assert_eq!(w2.scores.score_light, 999);
    WinnerSystem.run(&mut w2);
    assert_eq!(w2.scores.score_light, 999);
}

#[test]
fn respawn_mirrors_ships_of_equal_radius() {
    let mut w = initialise_ships();
    w.light.physical.radius = 42_000;
    w.dark.physical.radius = 42_000;
    w.light.physical.vx = 777;
    w.dark.physical.vy = -333;
    w.dark.combat.structure = -10;
    WinnerSystem.run(&mut w);
    // Mirror images across the vertical midline, at equal height.
    assert_eq!(w.light.spatial.x + w.dark.spatial.x, ARENA_WIDTH_FX);
    assert_eq!(w.light.spatial.y, w.dark.spatial.y);
    // Velocities exactly zero, structures back at their maxima.
    assert_eq!(w.light.physical.vx, 0);
    assert_eq!(w.light.physical.vy, 0);
    assert_eq!(w.dark.physical.vx, 0);
    assert_eq!(w.dark.physical.vy, 0);
    assert_eq!(w.light.combat.structure, w.light.combat.max_structure);
    assert_eq!(w.dark.combat.structure, w.dark.combat.max_structure);
}

#[test]
fn overlapping_ships_take_contact_damage_and_reverse() {
    let mut w = initialise_ships();
    // Park the dark ship on top of the light ship.
    w.dark.spatial.x = w.light.spatial.x;
    w.dark.spatial.y = w.light.spatial.y;
    w.light.physical.vx = 100;
    w.light.physical.vy = 200;
    w.dark.physical.vx = -50;
    w.dark.physical.vy = 75;
    let mut cues: Vec<Cue> = Vec::new();
    CollisionSystem.run(&mut w, &RandomGen, &mut cues);
    // Fixed contact damage of 30, reduced by each ship's own armour.
    assert_eq!(w.light.combat.structure, 150 - 24);
    assert_eq!(w.dark.combat.structure, 130 - 25);
    // Both velocities exactly negated.
    assert_eq!(w.light.physical.vx, -100);
    assert_eq!(w.light.physical.vy, -200);
    assert_eq!(w.dark.physical.vx, 50);
    assert_eq!(w.dark.physical.vy, -75);
    assert_eq!(cues, vec![Cue::ImpactSound]);
}

#[test]
fn a_full_tick_fires_moves_and_keeps_the_scores() {
    let mut w = initialise_ships();
    let mut input = idle_input();
    input.light.shoot = true;
    let cues = run_tick(&mut w, &input, 100, &RandomGen);
    assert_eq!(w.lasers.len(), 1);
    assert_eq!(w.light.combat.reload_timer, 200);
    assert!(cues.contains(&Cue::WeaponFired(Side::Light)));
    assert_eq!(w.scores.score_light, 0);
    assert_eq!(w.scores.score_dark, 0);

    // Holding fire: the weapon reloads across further ticks and the
    // projectile drifts without expiring (its lifetime is 6.0s).
    input.light.shoot = false;
    for _ in 0..10 {
        let _ = run_tick(&mut w, &input, 100, &RandomGen);
    }
    assert_eq!(w.lasers.len(), 1);
    assert_eq!(w.light.combat.reload_timer, 0);
    assert_eq!(w.lasers[0].laser.timer, 6000 - 10 * 100);
}

#[test]
fn a_tick_resolves_a_hit_end_to_end() {
    let mut w = initialise_ships();
    // An opposing projectile resting on the light ship; one tick ages it,
    // detects the overlap, applies 20 - 6 damage and deletes it.
    w.lasers.push(LaserEntity {
        spatial: Spatial { x: w.light.spatial.x, y: w.light.spatial.y, rot: 0 },
        physical: Physical::new(8000, 4000, 0, 0),
        laser: Laser::new(6000, 20, Side::Dark),
    });
    let input = idle_input();
    let cues = run_tick(&mut w, &input, 100, &RandomGen);
    assert_eq!(w.light.combat.structure, 136);
    assert_eq!(w.lasers.len(), 0);
    assert!(cues.contains(&Cue::ImpactSound));
    assert_eq!(w.scores.score_light, 0);
    assert_eq!(w.scores.score_dark, 0);
}
