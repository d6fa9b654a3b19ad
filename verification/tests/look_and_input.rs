use character_controller::controller::{Jump, Movement};
use character_controller::fixed::{add_sat, clamp, isqrt, SCALE};
use character_controller::input::{
    input_to_jump, input_to_look, input_to_movement, MouseSettings, MoveKeys,
};
use character_controller::look::{
    controller_pitch, controller_yaw, BodyRotation, Head, Look, LookRotation, Rot2, PITCH_BOUND,
};
use character_controller::modes::{toggle_modes, Modes};
use character_controller::vec3::Vec3;

fn vec(x: i64, y: i64, z: i64) -> Vec3 {
    Vec3 { x, y, z }
}

fn no_keys() -> MoveKeys {
    MoveKeys {
        forward: false,
        backward: false,
        right: false,
        left: false,
        up: false,
        down: false,
        run: false,
    }
}

#[test]
fn isqrt_samples() {
    assert_eq!(isqrt(0), 0);
    assert_eq!(isqrt(1), 1);
    assert_eq!(isqrt(3), 1);
    assert_eq!(isqrt(4), 2);
    assert_eq!(isqrt(999_999), 999);
    assert_eq!(isqrt(1_000_000_000_000), 1_000_000);
}

#[test]
fn saturating_addition_sticks_to_ends() {
    assert_eq!(add_sat(i64::MAX, 1), i64::MAX);
    assert_eq!(add_sat(i64::MIN, -1), i64::MIN);
    assert_eq!(add_sat(40, 2), 42);
}

#[test]
fn clamp_pulls_into_interval() {
    assert_eq!(clamp(10, -5, 5), 5);
    assert_eq!(clamp(-10, -5, 5), -5);
    assert_eq!(clamp(3, -5, 5), 3);
}

#[test]
fn pitch_clamped_on_huge_delta() {
    // An arbitrarily large pitch delta in one frame still ends inside
    // the clamp, a mille-radian short of straight up.
    let mut look = Look { yaw: 0, pitch: 0 };
    input_to_look(&mut look, 0, 1_000_000_000, SCALE, true);
    assert_eq!(look.pitch, PITCH_BOUND);
    input_to_look(&mut look, 0, -1_000_000_000, SCALE, true);
    input_to_look(&mut look, 0, -1_000_000_000, SCALE, true);
    assert_eq!(look.pitch, -PITCH_BOUND);
    assert_eq!(look.yaw, 0);
}

#[test]
fn default_mouse_sensitivity() {
    let s = MouseSettings::default();
    assert_eq!(s.sensitivity, 5_000);
    // a mouse delta of 200 counts turns one radian at stock sensitivity
    let mut look = Look { yaw: 0, pitch: 0 };
    input_to_look(&mut look, 200_000_000, 0, s.sensitivity, true);
    assert_eq!(look.yaw, 1_000_000);
}

#[test]
fn look_accumulates_scaled_deltas() {
    let mut look = Look { yaw: 100, pitch: 200 };
    // sensitivity one half: deltas (2.0, 0.5) add (1.0, 0.25)
    input_to_look(&mut look, 2_000_000, 500_000, 500_000, true);
    assert_eq!(look.yaw, 1_000_100);
    assert_eq!(look.pitch, 250_200);
}

#[test]
fn look_ignores_tiny_and_non_gameplay_deltas() {
    let mut look = Look { yaw: 7, pitch: 8 };
    input_to_look(&mut look, 1_000, 0, SCALE, true);
    assert_eq!(look, Look { yaw: 7, pitch: 8 });
    input_to_look(&mut look, 2_000_000, 2_000_000, SCALE, false);
    assert_eq!(look, Look { yaw: 7, pitch: 8 });
}

#[test]
fn body_forward_is_level() {
    // Yaw of cosine 0.6, sine 0.8: the body's forward vector has no
    // vertical component, whatever the head's pitch.
    let body = BodyRotation { yaw: Rot2 { c: 600_000, s: 800_000 } };
    let f = body.forward();
    assert_eq!(f, vec(-800_000, 0, -600_000));
    assert_eq!(f.y, 0);
}

#[test]
fn combined_look_vectors() {
    // Yaw (0.6, 0.8), pitch (0.8, -0.6): exact fixed-point images of the
    // yaw-then-pitch rotation applied to the canonical axes.
    let rot = LookRotation {
        yaw: Rot2 { c: 600_000, s: 800_000 },
        pitch: Rot2 { c: 800_000, s: -600_000 },
    };
    assert_eq!(rot.forward(), vec(-640_000, -600_000, -480_000));
    assert_eq!(rot.right(), vec(600_000, 0, -800_000));
    assert_eq!(rot.up(), vec(-480_000, 800_000, -360_000));
}

#[test]
fn yaw_resolver_rebuilds_bodies() {
    let mut bodies = vec![
        BodyRotation { yaw: Rot2 { c: SCALE, s: 0 } },
        BodyRotation { yaw: Rot2 { c: SCALE, s: 0 } },
    ];
    let yaws = vec![Rot2 { c: 600_000, s: 800_000 }, Rot2 { c: 0, s: SCALE }];
    controller_yaw(&mut bodies, &yaws);
    assert_eq!(bodies[0].yaw, yaws[0]);
    assert_eq!(bodies[1].yaw, yaws[1]);
}

#[test]
fn pitch_resolver_follows_parent() {
    let mut heads = vec![
        Head { body: 1, rotation: Rot2 { c: SCALE, s: 0 } },
        Head { body: 5, rotation: Rot2 { c: 123, s: 456 } },
    ];
    let pitches = vec![Rot2 { c: 0, s: SCALE }, Rot2 { c: 800_000, s: 600_000 }];
    controller_pitch(&mut heads, &pitches);
    // head 0 follows body 1; head 1 points at no live body and is kept
    assert_eq!(heads[0].rotation, Rot2 { c: 800_000, s: 600_000 });
    assert_eq!(heads[1].rotation, Rot2 { c: 123, s: 456 });
}

#[test]
fn movement_composes_forward_and_right() {
    // Identity look: forward (0,0,-1), right (1,0,0). Forward plus right
    // normalizes to the unit diagonal.
    let rot = LookRotation { yaw: Rot2 { c: SCALE, s: 0 }, pitch: Rot2 { c: SCALE, s: 0 } };
    let mut movement = Movement { vector: vec(0, 0, 0), speed: 0 };
    let keys = MoveKeys { forward: true, right: true, run: true, ..no_keys() };
    input_to_movement(&mut movement, &rot, &keys, true);
    assert_eq!(movement.vector, vec(707_107, 0, -707_107));
    assert_eq!(movement.speed, SCALE);
}

#[test]
fn movement_opposed_keys_cancel() {
    let rot = LookRotation { yaw: Rot2 { c: SCALE, s: 0 }, pitch: Rot2 { c: SCALE, s: 0 } };
    let mut movement = Movement { vector: vec(9, 9, 9), speed: 1_000_000 };
    let keys = MoveKeys { forward: true, backward: true, ..no_keys() };
    input_to_movement(&mut movement, &rot, &keys, true);
    assert_eq!(movement.vector, vec(0, 0, 0));
    assert_eq!(movement.speed, 0);
}

#[test]
fn movement_ignored_outside_gameplay() {
    let rot = LookRotation { yaw: Rot2 { c: SCALE, s: 0 }, pitch: Rot2 { c: SCALE, s: 0 } };
    let mut movement = Movement { vector: vec(9, 9, 9), speed: 1_000_000 };
    let keys = MoveKeys { forward: true, ..no_keys() };
    input_to_movement(&mut movement, &rot, &keys, false);
    assert_eq!(movement.vector, vec(9, 9, 9));
    assert_eq!(movement.speed, 1_000_000);
}

#[test]
fn jump_latch_respects_gameplay() {
    let mut jump = Jump(false);
    input_to_jump(&mut jump, true, false);
    assert!(!jump.0);
    input_to_jump(&mut jump, true, true);
    assert!(jump.0);
    input_to_jump(&mut jump, false, true);
    assert!(!jump.0);
}

#[test]
fn modes_gate_gameplay() {
    let mut modes = Modes::default();
    assert!(modes.gameplay());
    toggle_modes(&mut modes, true, false);
    assert!(modes.inspect);
    assert!(!modes.gameplay());
    toggle_modes(&mut modes, false, true);
    assert!(modes.profiler);
    toggle_modes(&mut modes, true, false);
    assert!(!modes.inspect);
    assert!(!modes.gameplay());
    toggle_modes(&mut modes, false, true);
    assert!(modes.gameplay());
}
