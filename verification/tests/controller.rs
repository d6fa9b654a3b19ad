use character_controller::controller::{
    controller_fly, controller_grounded, controller_jump, controller_move, probe_distance,
    probe_ray, simulate_frame, simulate_world, toggle_flying, Character, CharacterProperties,
    CollisionShape, Grounded, Jump, Movement, MovementMode, Velocity,
};
use character_controller::vec3::Vec3;

fn props() -> CharacterProperties {
    CharacterProperties { walk_speed: 5_000_000, run_speed: 8_000_000, jump_speed: 6_000_000 }
}

fn vec(x: i64, y: i64, z: i64) -> Vec3 {
    Vec3 { x, y, z }
}

#[test]
fn default_properties() {
    let p = CharacterProperties::default();
    assert_eq!(p.walk_speed, 5_000_000);
    assert_eq!(p.run_speed, 8_000_000);
    assert_eq!(p.jump_speed, 6_000_000);
}

#[test]
fn interp_speed_endpoints_and_midpoint() {
    let p = props();
    assert_eq!(p.interp_speed(0), 5_000_000);
    assert_eq!(p.interp_speed(1_000_000), 8_000_000);
    assert_eq!(p.interp_speed(500_000), 6_500_000);
}

#[test]
fn interp_speed_monotone_samples() {
    let p = props();
    let mut last = p.interp_speed(0);
    for frac in [100_000, 250_000, 400_000, 700_000, 999_999, 1_000_000] {
        let s = p.interp_speed(frac);
        assert!(s >= last);
        last = s;
    }
}

#[test]
fn move_half_speed_straight_ahead() {
    // walk 5, run 8, fraction one half, direction along x: horizontal
    // velocity becomes (6.5, unchanged, 0).
    let mut v = Velocity { linear: vec(0, 1_234, 0) };
    let m = Movement { vector: vec(1_000_000, 0, 0), speed: 500_000 };
    controller_move(&mut v, &props(), &m);
    assert_eq!(v.linear, vec(6_500_000, 1_234, 0));
}

#[test]
fn move_normalizes_long_directions() {
    // A direction of length 5 along x still yields speed 6.5 along x.
    let mut v = Velocity { linear: vec(0, 0, 0) };
    let m = Movement { vector: vec(5_000_000, 0, 0), speed: 500_000 };
    controller_move(&mut v, &props(), &m);
    assert_eq!(v.linear, vec(6_500_000, 0, 0));
}

#[test]
fn move_ignores_vertical_intent_component() {
    // Intent with a vertical part: only its horizontal shadow matters.
    let mut v = Velocity { linear: vec(0, 0, 0) };
    let m = Movement { vector: vec(3_000_000, 9_000_000, 4_000_000), speed: 0 };
    controller_move(&mut v, &props(), &m);
    // horizontal length is 5.0; components scale to walk speed 5.0
    assert_eq!(v.linear, vec(3_000_000, 0, 4_000_000));
}

#[test]
fn move_damps_without_horizontal_intent() {
    // Purely vertical intent counts as no horizontal intent: the
    // horizontal velocity halves and the vertical one stays.
    let mut v = Velocity { linear: vec(4_000_000, 7_000_000, -6_000_000) };
    let m = Movement { vector: vec(0, 5_000_000, 0), speed: 1_000_000 };
    controller_move(&mut v, &props(), &m);
    assert_eq!(v.linear, vec(2_000_000, 7_000_000, -3_000_000));
}

#[test]
fn move_damping_truncates_toward_zero() {
    let mut v = Velocity { linear: vec(5, 0, -5) };
    let m = Movement { vector: vec(0, 0, 0), speed: 0 };
    controller_move(&mut v, &props(), &m);
    // 5 halves to 2 and -5 to -2: magnitudes shrink, signs never flip
    assert_eq!(v.linear, vec(2, 0, -2));
    controller_move(&mut v, &props(), &m);
    assert_eq!(v.linear, vec(1, 0, -1));
    controller_move(&mut v, &props(), &m);
    assert_eq!(v.linear, vec(0, 0, 0));
    controller_move(&mut v, &props(), &m);
    assert_eq!(v.linear, vec(0, 0, 0));
}

#[test]
fn extreme_magnitudes_stay_exact() {
    // The largest admitted speeds and velocities still compute exactly.
    let p = CharacterProperties {
        walk_speed: 1_000_000_000,
        run_speed: 1_000_000_000,
        jump_speed: 1_000_000_000,
    };
    let mut v = Velocity { linear: vec(1_000_000_000, 1_000_000_000, -999_999_999) };
    let m = Movement { vector: vec(0, 0, 0), speed: 1_000_000 };
    controller_move(&mut v, &p, &m);
    assert_eq!(v.linear, vec(500_000_000, 1_000_000_000, -499_999_999));
    let m = Movement { vector: vec(1_000_000_000, 0, 0), speed: 1_000_000 };
    controller_move(&mut v, &p, &m);
    assert_eq!(v.linear, vec(1_000_000_000, 1_000_000_000, 0));
}

#[test]
fn jump_airborne_is_ignored() {
    let mut v = Velocity { linear: vec(10, -3_000_000, 5) };
    controller_jump(&mut v, &props(), &Jump(true), &Grounded(false));
    assert_eq!(v.linear, vec(10, -3_000_000, 5));
}

#[test]
fn jump_not_requested_is_ignored() {
    let mut v = Velocity { linear: vec(10, -3_000_000, 5) };
    controller_jump(&mut v, &props(), &Jump(false), &Grounded(true));
    assert_eq!(v.linear, vec(10, -3_000_000, 5));
}

#[test]
fn jump_grounded_sets_vertical_velocity() {
    // The impulse overwrites residual fall speed with exactly 6.0.
    let mut v = Velocity { linear: vec(10, -3_000_000, 5) };
    controller_jump(&mut v, &props(), &Jump(true), &Grounded(true));
    assert_eq!(v.linear, vec(10, 6_000_000, 5));
}

#[test]
fn fly_full_vertical_intent() {
    // Flying at full fraction straight up: velocity becomes (0, 8, 0).
    let mut v = Velocity { linear: vec(123, 0, -456) };
    let m = Movement { vector: vec(0, 1_000_000, 0), speed: 1_000_000 };
    controller_fly(&mut v, &props(), &m);
    assert_eq!(v.linear, vec(0, 8_000_000, 0));
}

#[test]
fn fly_damps_all_axes_without_intent() {
    let mut v = Velocity { linear: vec(4_000_000, -2_000_000, 6_000_000) };
    let m = Movement { vector: vec(0, 0, 0), speed: 500_000 };
    controller_fly(&mut v, &props(), &m);
    assert_eq!(v.linear, vec(2_000_000, -1_000_000, 3_000_000));
}

#[test]
fn probe_distance_capsule() {
    let shape = CollisionShape::Capsule { half_segment: 500_000, radius: 500_000 };
    assert_eq!(probe_distance(&shape), 1_010_000);
}

#[test]
fn probe_distance_sphere() {
    let shape = CollisionShape::Sphere { radius: 300_000 };
    assert_eq!(probe_distance(&shape), 310_000);
}

#[test]
fn grounded_capsule_hit_inside_probe() {
    // Capsule 0.5 + 0.5 with margin 0.01 probes 1.01: a hit at 1.005
    // grounds the body.
    let shape = CollisionShape::Capsule { half_segment: 500_000, radius: 500_000 };
    let mut g = Grounded(false);
    controller_grounded(&mut g, &shape, Some(1_005_000));
    assert!(g.0);
}

#[test]
fn grounded_capsule_hit_beyond_probe() {
    let shape = CollisionShape::Capsule { half_segment: 500_000, radius: 500_000 };
    let mut g = Grounded(true);
    controller_grounded(&mut g, &shape, Some(1_020_000));
    assert!(!g.0);
}

#[test]
fn grounded_miss_clears_flag() {
    let shape = CollisionShape::Sphere { radius: 500_000 };
    let mut g = Grounded(true);
    controller_grounded(&mut g, &shape, None);
    assert!(!g.0);
}

#[test]
fn probe_ray_follows_gravity() {
    // Gravity (0, -9.81, 0) with a one-unit capsule: the cast vector is
    // gravity normalized times the probe distance 1.01.
    let gravity = vec(0, -9_810_000, 0);
    let shape = CollisionShape::Capsule { half_segment: 500_000, radius: 500_000 };
    let ray = probe_ray(&gravity, &shape);
    assert_eq!(ray, vec(0, -1_010_000, 0));
}

fn character(mode: MovementMode) -> Character {
    Character {
        properties: props(),
        shape: CollisionShape::Capsule { half_segment: 500_000, radius: 500_000 },
        movement: Movement { vector: vec(0, 0, 0), speed: 0 },
        jump: Jump(false),
        grounded: Grounded(false),
        mode,
        velocity: Velocity { linear: vec(0, 0, 0) },
    }
}

#[test]
fn frame_grounded_detects_moves_and_jumps() {
    let mut ch = character(MovementMode::Grounded);
    ch.movement = Movement { vector: vec(1_000_000, 0, 0), speed: 500_000 };
    ch.jump = Jump(true);
    ch.velocity = Velocity { linear: vec(0, -2_000_000, 0) };
    simulate_frame(&mut ch, Some(1_000_000));
    assert!(ch.grounded.0);
    assert_eq!(ch.velocity.linear, vec(6_500_000, 6_000_000, 0));
}

#[test]
fn frame_grounded_jump_misses_without_contact() {
    let mut ch = character(MovementMode::Grounded);
    ch.jump = Jump(true);
    ch.velocity = Velocity { linear: vec(0, -2_000_000, 0) };
    simulate_frame(&mut ch, Some(1_500_000));
    assert!(!ch.grounded.0);
    assert_eq!(ch.velocity.linear, vec(0, -2_000_000, 0));
}

#[test]
fn frame_flying_ignores_ground_and_jump() {
    let mut ch = character(MovementMode::Flying);
    ch.movement = Movement { vector: vec(0, 1_000_000, 0), speed: 1_000_000 };
    ch.jump = Jump(true);
    simulate_frame(&mut ch, Some(0));
    assert!(!ch.grounded.0);
    assert_eq!(ch.velocity.linear, vec(0, 8_000_000, 0));
}

#[test]
fn world_steps_each_character_with_its_own_probe() {
    let mut walker = character(MovementMode::Grounded);
    walker.jump = Jump(true);
    walker.velocity = Velocity { linear: vec(0, -1_000_000, 0) };
    let mut flier = character(MovementMode::Flying);
    flier.movement = Movement { vector: vec(0, 0, 1_000_000), speed: 0 };
    let mut chars = vec![walker, flier];
    let hits = vec![Some(900_000), None];
    simulate_world(&mut chars, &hits);
    assert!(chars[0].grounded.0);
    assert_eq!(chars[0].velocity.linear.y, 6_000_000);
    assert!(!chars[1].grounded.0);
    assert_eq!(chars[1].velocity.linear, vec(0, 0, 5_000_000));
}

#[test]
fn toggling_flight_keeps_velocity() {
    let mut ch = character(MovementMode::Grounded);
    ch.grounded = Grounded(true);
    ch.velocity = Velocity { linear: vec(1, 2, 3) };
    toggle_flying(&mut ch, false);
    assert_eq!(ch.mode, MovementMode::Grounded);
    assert!(ch.grounded.0);
    toggle_flying(&mut ch, true);
    assert_eq!(ch.mode, MovementMode::Flying);
    assert!(!ch.grounded.0);
    assert_eq!(ch.velocity.linear, vec(1, 2, 3));
    toggle_flying(&mut ch, true);
    assert_eq!(ch.mode, MovementMode::Grounded);
}
