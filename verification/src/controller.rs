//! The character controller proper: per-frame rules that turn movement
//! intent and physics state into a body's velocity, and ground probing.
//!
//! Each public function is one per-entity pass of the per-frame schedule;
//! the caller runs it over every controlled entity once per simulation step.

use vstd::prelude::*;

verus! {

use vstd::arithmetic::div_mod::lemma_div_multiples_vanish;
use vstd::arithmetic::mul::lemma_mul_inequality;
use crate::fixed::{
    lemma_scale_mag, lemma_tdiv_mono, mag, scale_mul, half, sqrt, tdiv, FIX_MAX, SCALE,
};
use crate::vec3::Vec3;

/// Raw squared-length threshold under which a direction counts as "no
/// intent": the fixed-point image of the reference threshold 1e-6.
pub const MIN_LEN_SQ: i64 = 1_000_000;

/// Walk, run and jump speeds of one controllable character.
#[derive(Clone, Copy, Debug, PartialEq, Eq, Structural)]
pub struct CharacterProperties {
    pub walk_speed: i64,
    pub run_speed: i64,
    pub jump_speed: i64,
}

impl CharacterProperties {
    /// Positive speeds, run at least walk, all within the admitted range.
    pub open spec fn wf(self) -> bool {
        0 <= self.walk_speed <= self.run_speed <= FIX_MAX && 0 <= self.jump_speed <= FIX_MAX
    }

    /// The blended target speed: walk at fraction 0, run at fraction `SCALE`.
    pub open spec fn target_speed(self, frac: int) -> int {
        self.walk_speed + tdiv(frac * (self.run_speed - self.walk_speed), SCALE as int)
    }

    /// Blend walk and run speed by the given fraction of `SCALE`.
    pub fn interp_speed(&self, frac: i64) -> (r: i64)
        requires
            self.wf(),
            0 <= frac <= SCALE,
        ensures
            r == self.target_speed(frac as int),
            self.walk_speed <= r <= self.run_speed,
            frac == 0 ==> r == self.walk_speed,
            frac == SCALE ==> r == self.run_speed,
    {
        let d = self.run_speed - self.walk_speed;
        proof {
            assert(mag(frac as int) * mag(d as int) <= i64::MAX) by (nonlinear_arith)
                requires
                    0 <= frac <= 1_000_000,
                    0 <= d <= 1_000_000_000,
            ;
            lemma_scale_mag(frac as int, d as int, SCALE as int);
            if frac == 0 {
                assert(0int * d == 0) by (nonlinear_arith);
                lemma_div_multiples_vanish(0, SCALE as int);
            }
            if frac == SCALE {
                assert(frac as int * d == SCALE as int * d);
                assert(frac as int * d >= 0) by (nonlinear_arith)
                    requires
                        frac >= 0,
                        d >= 0,
                ;
                lemma_div_multiples_vanish(d as int, SCALE as int);
            }
        }
        let m = scale_mul(frac, d, SCALE);
        self.walk_speed + m
    }
}

impl Default for CharacterProperties {
    /// The stock character: walk 5.0, run 8.0, jump 6.0.
    fn default() -> (r: Self)
        ensures
            r.walk_speed == 5 * SCALE,
            r.run_speed == 8 * SCALE,
            r.jump_speed == 6 * SCALE,
            r.wf(),
    {
        CharacterProperties {
            walk_speed: 5_000_000,
            run_speed: 8_000_000,
            jump_speed: 6_000_000,
        }
    }
}

/// The velocity the controller proposes; the physics engine integrates it.
#[derive(Clone, Copy, Debug, PartialEq, Eq, Structural)]
pub struct Velocity {
    pub linear: Vec3,
}

impl Velocity {
    pub open spec fn wf(self) -> bool {
        self.linear.wf()
    }
}

/// Per-frame movement intent: a direction (not necessarily normalized,
/// zero means "no intent") and a walk-to-run fraction of `SCALE`.
#[derive(Clone, Copy, Debug, PartialEq, Eq, Structural)]
pub struct Movement {
    pub vector: Vec3,
    pub speed: i64,
}

impl Movement {
    pub open spec fn wf(self) -> bool {
        self.vector.wf() && 0 <= self.speed <= SCALE
    }
}

/// Edge-triggered jump request, valid for the frame it is raised in.
#[derive(Clone, Copy, Debug, PartialEq, Eq, Structural)]
pub struct Jump(pub bool);

/// Ground contact state, refreshed once per frame by the grounded detector.
#[derive(Clone, Copy, Debug, PartialEq, Eq, Structural)]
pub struct Grounded(pub bool);

/// Horizontal velocity after one pass of the horizontal movement rule:
/// with horizontal intent, the projected direction normalized and scaled
/// to the blended target speed; without, the old components halved.
pub open spec fn move_target_xz(v: Vec3, p: CharacterProperties, m: Movement) -> (int, int) {
    if m.vector.xz_len2() > MIN_LEN_SQ {
        let n = sqrt(m.vector.xz_len2() as nat) as int;
        let speed = p.target_speed(m.speed as int);
        (tdiv(m.vector.x * speed, n), tdiv(m.vector.z * speed, n))
    } else {
        (tdiv(v.x as int, 2), tdiv(v.z as int, 2))
    }
}

/// Full velocity after one pass of the flight rule: with intent, the
/// direction normalized and scaled to the blended target speed on all
/// three axes; without, the whole velocity halved.
pub open spec fn fly_target(v: Vec3, p: CharacterProperties, m: Movement) -> (int, int, int) {
    if m.vector.len2() > MIN_LEN_SQ {
        let n = sqrt(m.vector.len2() as nat) as int;
        let speed = p.target_speed(m.speed as int);
        (tdiv(m.vector.x * speed, n), tdiv(m.vector.y * speed, n), tdiv(m.vector.z * speed, n))
    } else {
        (tdiv(v.x as int, 2), tdiv(v.y as int, 2), tdiv(v.z as int, 2))
    }
}

/// Vertical velocity after one pass of the jump rule: the jump speed when
/// a jump is requested while grounded, otherwise unchanged.
pub open spec fn jump_target_y(v: Vec3, p: CharacterProperties, jump: bool, grounded: bool) -> int {
    if jump && grounded {
        p.jump_speed as int
    } else {
        v.y as int
    }
}

/// Horizontal movement controller: writes the horizontal velocity from the
/// intent, leaving the vertical component to gravity and the jump rule.
/// Applies only to non-flying bodies.
pub fn controller_move(velocity: &mut Velocity, properties: &CharacterProperties, movement: &Movement)
    requires
        old(velocity).wf(),
        properties.wf(),
        movement.wf(),
    ensures
        final(velocity).wf(),
        final(velocity).linear.y == old(velocity).linear.y,
        final(velocity).linear.x == move_target_xz(old(velocity).linear, *properties, *movement).0,
        final(velocity).linear.z == move_target_xz(old(velocity).linear, *properties, *movement).1,
{
    let proj = movement.vector.horizontal();
    let lsq = proj.len_sq();
    if lsq > MIN_LEN_SQ {
        let speed = properties.interp_speed(movement.speed);
        let desired = proj.scaled_to(speed);
        velocity.linear.x = desired.x;
        velocity.linear.z = desired.z;
    } else {
        velocity.linear.x = half(velocity.linear.x);
        velocity.linear.z = half(velocity.linear.z);
    }
}

/// Vertical impulse controller: a jump requested while grounded overwrites
/// the vertical velocity with the jump speed; any other combination leaves
/// the velocity untouched. Applies only to non-flying bodies.
pub fn controller_jump(
    velocity: &mut Velocity,
    properties: &CharacterProperties,
    jump: &Jump,
    grounded: &Grounded,
)
    requires
        old(velocity).wf(),
        properties.wf(),
    ensures
        final(velocity).wf(),
        final(velocity).linear.x == old(velocity).linear.x,
        final(velocity).linear.z == old(velocity).linear.z,
        final(velocity).linear.y == jump_target_y(
            old(velocity).linear,
            *properties,
            jump.0,
            grounded.0,
        ),
        !(jump.0 && grounded.0) ==> *final(velocity) == *old(velocity),
{
    if jump.0 && grounded.0 {
        velocity.linear.y = properties.jump_speed;
    }
}

/// Flight controller: intent drives the full three-dimensional velocity,
/// with no gravity-relative split. Applies only to flying bodies; mutually
/// exclusive with the horizontal and jump rules.
pub fn controller_fly(velocity: &mut Velocity, properties: &CharacterProperties, movement: &Movement)
    requires
        old(velocity).wf(),
        properties.wf(),
        movement.wf(),
    ensures
        final(velocity).wf(),
        final(velocity).linear.x == fly_target(old(velocity).linear, *properties, *movement).0,
        final(velocity).linear.y == fly_target(old(velocity).linear, *properties, *movement).1,
        final(velocity).linear.z == fly_target(old(velocity).linear, *properties, *movement).2,
{
    let lsq = movement.vector.len_sq();
    if lsq > MIN_LEN_SQ {
        let speed = properties.interp_speed(movement.speed);
        let desired = movement.vector.scaled_to(speed);
        velocity.linear = desired;
    } else {
        velocity.linear = Vec3 {
            x: half(velocity.linear.x),
            y: half(velocity.linear.y),
            z: half(velocity.linear.z),
        };
    }
}

/// Extra ray length past the shape's extent when probing for ground
/// contact: 0.01 world units in fixed point.
pub const GROUND_EPS: i64 = 10_000;

/// The collision shape a controlled body probes the ground with. The
/// grounded rule is defined for exactly these shapes; anything else is a
/// configuration error of the surrounding scene, not a state this
/// controller can hold.
#[derive(Clone, Copy, Debug, PartialEq, Eq, Structural)]
pub enum CollisionShape {
    Sphere { radius: i64 },
    Capsule { half_segment: i64, radius: i64 },
}

impl CollisionShape {
    /// Non-negative extents, small enough that the probe ray stays in range.
    pub open spec fn wf(self) -> bool {
        match self {
            CollisionShape::Sphere { radius } => 0 <= radius && radius + GROUND_EPS <= FIX_MAX,
            CollisionShape::Capsule { half_segment, radius } => 0 <= half_segment && 0 <= radius
                && half_segment + radius + GROUND_EPS <= FIX_MAX,
        }
    }

    /// How far the shape reaches from the body's origin along the probe.
    pub open spec fn extent(self) -> int {
        match self {
            CollisionShape::Sphere { radius } => radius as int,
            CollisionShape::Capsule { half_segment, radius } => half_segment + radius,
        }
    }
}

/// Longest hit distance that still counts as ground contact.
pub open spec fn probe_len(shape: CollisionShape) -> int {
    shape.extent() + GROUND_EPS
}

/// Maximum ground-probe distance: the shape's extent plus the margin.
pub fn probe_distance(shape: &CollisionShape) -> (r: i64)
    requires
        shape.wf(),
    ensures
        r == probe_len(*shape),
        GROUND_EPS <= r <= FIX_MAX,
{
    GROUND_EPS + match *shape {
        CollisionShape::Sphere { radius } => radius,
        CollisionShape::Capsule { half_segment, radius } => half_segment + radius,
    }
}

/// Whether a probe result means ground contact: a hit within the probe
/// distance. A miss is not an error, merely "not grounded".
pub open spec fn grounded_after(shape: CollisionShape, nearest_hit: Option<i64>) -> bool {
    match nearest_hit {
        Option::Some(d) => d <= probe_len(shape),
        Option::None => false,
    }
}

/// Grounded detector: refresh the contact flag from the nearest hit the
/// physics engine reported along the gravity ray (the casting body itself
/// excluded by the caster). Overwrites the flag and nothing else. Must run
/// before the jump rule consumes the flag in the same frame.
pub fn controller_grounded(grounded: &mut Grounded, shape: &CollisionShape, nearest_hit: Option<i64>)
    requires
        shape.wf(),
    ensures
        final(grounded).0 == grounded_after(*shape, nearest_hit),
{
    let dist = probe_distance(shape);
    grounded.0 = match nearest_hit {
        Option::Some(d) => d <= dist,
        Option::None => false,
    };
}

/// The cast vector for the ground probe: gravity rescaled to the probe
/// length, as the fixed-point image of `gravity.normalize() * distance`.
pub fn probe_ray(gravity: &Vec3, shape: &CollisionShape) -> (r: Vec3)
    requires
        gravity.wf(),
        gravity.len2() >= 1,
        shape.wf(),
    ensures
        ({
            let n = sqrt(gravity.len2() as nat) as int;
            r.x == tdiv(gravity.x * probe_len(*shape), n) && r.y == tdiv(
                gravity.y * probe_len(*shape),
                n,
            ) && r.z == tdiv(gravity.z * probe_len(*shape), n)
        }),
        r.wf(),
{
    let dist = probe_distance(shape);
    gravity.scaled_to(dist)
}

/// Which of the two mutually exclusive movement regimes drives a body:
/// gravity-relative grounded movement with jumping, or free flight.
#[derive(Clone, Copy, Debug, PartialEq, Eq, Structural)]
pub enum MovementMode {
    Grounded,
    Flying,
}

/// Everything one controlled character carries through a frame.
#[derive(Clone, Copy, Debug, PartialEq, Eq, Structural)]
pub struct Character {
    pub properties: CharacterProperties,
    pub shape: CollisionShape,
    pub movement: Movement,
    pub jump: Jump,
    pub grounded: Grounded,
    pub mode: MovementMode,
    pub velocity: Velocity,
}

impl Character {
    /// Component well-formedness, plus the mode invariant: the ground flag
    /// is never set while the body flies — flight logic never consults it.
    pub open spec fn wf(self) -> bool {
        self.properties.wf() && self.shape.wf() && self.movement.wf() && self.velocity.wf() && (
        self.mode == MovementMode::Flying ==> !self.grounded.0)
    }
}

/// What one frame does to one character: the contract of `simulate_frame`,
/// relating the state before (`pre`) to the state after (`post`). Exactly
/// one regime writes the velocity: a flying body runs the flight rule
/// alone, leaving the ground flag untouched; a grounded-regime body
/// refreshes ground contact first, then runs the horizontal rule and the
/// jump rule, in that order.
pub open spec fn frame_rel(pre: Character, nearest_hit: Option<i64>, post: Character) -> bool {
    &&& post.wf()
    &&& post.properties == pre.properties
    &&& post.shape == pre.shape
    &&& post.movement == pre.movement
    &&& post.jump == pre.jump
    &&& post.mode == pre.mode
    &&& pre.mode == MovementMode::Flying ==> ({
        let t = fly_target(pre.velocity.linear, pre.properties, pre.movement);
        post.grounded == pre.grounded && post.velocity.linear.x == t.0 && post.velocity.linear.y
            == t.1 && post.velocity.linear.z == t.2
    })
    &&& pre.mode == MovementMode::Grounded ==> ({
        let g = grounded_after(pre.shape, nearest_hit);
        let t = move_target_xz(pre.velocity.linear, pre.properties, pre.movement);
        let y = jump_target_y(pre.velocity.linear, pre.properties, pre.jump.0, g);
        post.grounded.0 == g && post.velocity.linear.x == t.0 && post.velocity.linear.z == t.1
            && post.velocity.linear.y == y
    })
}

/// One simulation frame for one character; see `frame_rel` for what it
/// promises.
pub fn simulate_frame(ch: &mut Character, nearest_hit: Option<i64>)
    requires
        old(ch).wf(),
    ensures
        frame_rel(*old(ch), nearest_hit, *final(ch)),
{
    match ch.mode {
        MovementMode::Flying => {
            controller_fly(&mut ch.velocity, &ch.properties, &ch.movement);
        },
        MovementMode::Grounded => {
            controller_grounded(&mut ch.grounded, &ch.shape, nearest_hit);
            controller_move(&mut ch.velocity, &ch.properties, &ch.movement);
            controller_jump(&mut ch.velocity, &ch.properties, &ch.jump, &ch.grounded);
        },
    }
}

/// One simulation frame over the whole set of controlled characters, as
/// the per-frame schedule runs it: each character steps independently,
/// against the probe result the physics engine reported for it.
pub fn simulate_world(chars: &mut Vec<Character>, hits: &Vec<Option<i64>>)
    requires
        old(chars).len() == hits.len(),
        forall|i: int| 0 <= i < old(chars).len() ==> old(chars)[i].wf(),
    ensures
        final(chars).len() == old(chars).len(),
        forall|i: int|
            0 <= i < final(chars).len() ==> frame_rel(old(chars)[i], hits[i], final(chars)[i]),
{
    let mut out: Vec<Character> = Vec::new();
    let mut j: usize = 0;
    while j < chars.len()
        invariant
            j <= chars.len(),
            chars.len() == hits.len(),
            chars@ == old(chars)@,
            forall|i: int| 0 <= i < chars.len() ==> chars[i].wf(),
            out.len() == j,
            forall|i: int| 0 <= i < j ==> frame_rel(chars[i], hits[i], out[i]),
        decreases chars.len() - j,
    {
        let mut c = chars[j];
        simulate_frame(&mut c, hits[j]);
        out.push(c);
        j += 1;
    }
    *chars = out;
}

/// Flip flight mode on an external request. Entering or leaving flight
/// clears the ground flag until the detector refreshes it, and leaves the
/// velocity alone: the next frame's regime simply overwrites it, so a
/// one-frame carry-over from the previous mode is expected.
pub fn toggle_flying(ch: &mut Character, requested: bool)
    requires
        old(ch).wf(),
    ensures
        final(ch).wf(),
        !requested ==> *final(ch) == *old(ch),
        requested ==> final(ch).mode == (if old(ch).mode == MovementMode::Grounded {
            MovementMode::Flying
        } else {
            MovementMode::Grounded
        }),
        requested ==> !final(ch).grounded.0,
        requested ==> final(ch).velocity == old(ch).velocity,
        requested ==> final(ch).properties == old(ch).properties && final(ch).shape == old(ch).shape,
        requested ==> final(ch).movement == old(ch).movement && final(ch).jump == old(ch).jump,
{
    if requested {
        ch.mode = match ch.mode {
            MovementMode::Grounded => MovementMode::Flying,
            MovementMode::Flying => MovementMode::Grounded,
        };
        ch.grounded.0 = false;
    }
}

/// Damping strictly decays a scalar toward zero and never flips its sign:
/// halving leaves at most half the magnitude (exactly half for even
/// values, the fixed-point grain below it otherwise), and a value already
/// at rest stays at rest.
pub proof fn lemma_damping_decays(a: int)
    ensures
        a > 0 ==> 0 <= tdiv(a, 2) < a,
        a < 0 ==> a < tdiv(a, 2) <= 0,
        a == 0 ==> tdiv(a, 2) == 0,
        2 * mag(tdiv(a, 2)) <= mag(a),
        mag(a) < 2 * mag(tdiv(a, 2)) + 2,
{
}

/// With no horizontal intent, the horizontal movement rule strictly decays
/// the horizontal velocity toward rest and never flips its sign: each
/// component keeps its sign, loses at least half its magnitude (exactly
/// half, up to the fixed-point grain), and rest stays rest.
pub proof fn lemma_move_damping_decays(v: Vec3, p: CharacterProperties, m: Movement)
    requires
        m.vector.xz_len2() <= MIN_LEN_SQ,
    ensures
        ({
            let t = move_target_xz(v, p, m);
            &&& v.x > 0 ==> 0 <= t.0 < v.x
            &&& v.x < 0 ==> v.x < t.0 <= 0
            &&& v.x == 0 ==> t.0 == 0
            &&& v.z > 0 ==> 0 <= t.1 < v.z
            &&& v.z < 0 ==> v.z < t.1 <= 0
            &&& v.z == 0 ==> t.1 == 0
            &&& 2 * mag(t.0) <= mag(v.x as int) < 2 * mag(t.0) + 2
            &&& 2 * mag(t.1) <= mag(v.z as int) < 2 * mag(t.1) + 2
        }),
{
    lemma_damping_decays(v.x as int);
    lemma_damping_decays(v.z as int);
}

/// The blended target speed never decreases as the speed fraction grows,
/// and meets the walk speed at fraction zero, the run speed at full
/// fraction.
pub proof fn lemma_target_speed_monotone(p: CharacterProperties, f1: int, f2: int)
    requires
        p.wf(),
        0 <= f1 <= f2 <= SCALE,
    ensures
        p.target_speed(f1) <= p.target_speed(f2),
        p.target_speed(0) == p.walk_speed,
        p.target_speed(SCALE as int) == p.run_speed,
{
    let d = p.run_speed - p.walk_speed;
    lemma_mul_inequality(f1, f2, d);
    assert(f1 * d >= 0) by (nonlinear_arith)
        requires
            f1 >= 0,
            d >= 0,
    ;
    lemma_tdiv_mono(f1 * d, f2 * d, SCALE as int);
    assert(0int * d == 0) by (nonlinear_arith);
    lemma_div_multiples_vanish(0, SCALE as int);
    assert(SCALE as int * d >= 0) by (nonlinear_arith)
        requires
            d >= 0,
    ;
    lemma_div_multiples_vanish(d as int, SCALE as int);
}

} // verus!
