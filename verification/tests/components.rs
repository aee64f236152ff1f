use paladin::components::Animation;
use paladin::components::AnimationId;
use paladin::components::Combat;
use paladin::components::EnemyAi;
use paladin::components::Laser;
use paladin::components::LaserType;
use paladin::components::Physical;
use paladin::components::ScoreBoard;
use paladin::components::Ship;
use paladin::components::Side;
use paladin::fx::add_clamped;
use paladin::fx::clamp_velocity;
use paladin::fx::isqrt;
use paladin::fx::mul_fx;
use paladin::trig::cos_fx;
use paladin::trig::norm_angle;
use paladin::trig::sin_fx;
use paladin::world::initialise_ships;

#[test]
fn ship_new_starts_with_ready_thrust_cue() {
    let s = Ship::new(Side::Dark);
    assert_eq!(s.side, Side::Dark);
    assert_eq!(s.thrust_timer, 0);
}

#[test]
fn physical_new_is_at_rest_with_default_cap() {
    let p = Physical::new(43_000, 100_000, 1250, 50);
    assert_eq!(p.vx, 0);
    assert_eq!(p.vy, 0);
    assert_eq!(p.max_velocity, 5000);
    assert_eq!(p.radius, 43_000);
    assert_eq!(p.mass, 100_000);
    assert_eq!(p.acceleration, 1250);
    assert_eq!(p.agility, 50);
    assert_eq!(p.rotation, 0);
}

#[test]
fn combat_new_is_full_and_ready() {
    let c = Combat::new(150, 6, 20, 6000, 10_000, LaserType::Single, 200, 25, 30_000, 6000, 5000);
    assert_eq!(c.structure, 150);
    assert_eq!(c.max_structure, 150);
    assert_eq!(c.armour, 6);
    assert_eq!(c.laser_damage, 20);
    assert_eq!(c.laser_timer, 6000);
    assert_eq!(c.laser_velocity, 10_000);
    assert_eq!(c.laser_type, LaserType::Single);
    assert_eq!(c.reload_timer, 0);
    assert_eq!(c.time_to_reload, 200);
    assert_eq!(c.burst_rate, 8);
    assert_eq!(c.missile_damage, 25);
}

#[test]
fn laser_new_copies_its_fields() {
    let l = Laser::new(6000, 20, Side::Light);
    assert_eq!(l.timer, 6000);
    assert_eq!(l.damage, 20);
    assert_eq!(l.side, Side::Light);
}

#[test]
fn scoreboard_default_is_zero_zero() {
    let s = ScoreBoard::default();
    assert_eq!(s.score_light, 0);
    assert_eq!(s.score_dark, 0);
}

#[test]
fn enemy_ai_default_closes_distance() {
    assert_eq!(EnemyAi::default(), EnemyAi::CloseDistance);
}

#[test]
fn animation_new_is_shown() {
    let a = Animation::new(AnimationId::LaserImpact, vec![AnimationId::LaserImpact]);
    assert_eq!(a.current, AnimationId::LaserImpact);
    assert_eq!(a.types, vec![AnimationId::LaserImpact]);
    assert!(a.show);
}

#[test]
fn initial_world_matches_configuration() {
    let w = initialise_ships();
    assert_eq!(w.light.combat.structure, 150);
    assert_eq!(w.light.combat.armour, 6);
    assert_eq!(w.dark.combat.structure, 130);
    assert_eq!(w.dark.combat.armour, 5);
    assert_eq!(w.light.ship.side, Side::Light);
    assert_eq!(w.dark.ship.side, Side::Dark);
    assert_eq!(w.light.spatial.x, 172_000);
    assert_eq!(w.light.spatial.y, 614_400);
    assert_eq!(w.dark.spatial.x, 1_756_000);
    assert_eq!(w.dark.spatial.y, 614_400);
    assert_eq!(w.light.spatial.rot, 1600);
    assert_eq!(w.dark.spatial.rot, 4684);
    assert_eq!(w.lasers.len(), 0);
    assert_eq!(w.scores.score_light, 0);
    assert_eq!(w.scores.score_dark, 0);
}

#[test]
fn mul_fx_truncates_toward_zero() {
    assert_eq!(mul_fx(1500, 2000), 3000);
    assert_eq!(mul_fx(1500, -2000), -3000);
    assert_eq!(mul_fx(999, 1), 0);
    assert_eq!(mul_fx(-999, 1), 0);
    assert_eq!(mul_fx(0, 123_456), 0);
}

#[test]
fn add_clamped_saturates_at_the_limit() {
    assert_eq!(add_clamped(5, 10, 7), 7);
    assert_eq!(add_clamped(-5, -10, 7), -7);
    assert_eq!(add_clamped(5, 1, 7), 6);
}

#[test]
fn isqrt_rounds_down() {
    assert_eq!(isqrt(0), 0);
    assert_eq!(isqrt(1), 1);
    assert_eq!(isqrt(24), 4);
    assert_eq!(isqrt(25), 5);
    assert_eq!(isqrt(26), 5);
    assert_eq!(isqrt(100_000_000), 10_000);
}

#[test]
fn clamp_velocity_scales_a_three_four_five_triangle() {
    assert_eq!(clamp_velocity(6000, 8000, 5000), (3000, 4000));
    assert_eq!(clamp_velocity(3000, 4000, 5000), (3000, 4000));
    assert_eq!(clamp_velocity(-6000, 8000, 5000), (-3000, 4000));
    assert_eq!(clamp_velocity(0, 0, 0), (0, 0));
}

#[test]
fn trig_is_exact_at_the_axes() {
    assert_eq!(sin_fx(0), 0);
    assert_eq!(sin_fx(1571), 1000);
    assert_eq!(sin_fx(3142), 0);
    assert_eq!(sin_fx(4713), -1000);
    assert_eq!(cos_fx(0), 1000);
    assert_eq!(norm_angle(-1600), 4684);
    assert_eq!(norm_angle(6284), 0);
    assert_eq!(norm_angle(7000), 716);
}

#[test]
fn marker_components_have_defaults() {
    let _ = paladin::components::LaserImpact::default();
    let t = paladin::components::Thrust { show: false };
    assert!(!t.show);
}
