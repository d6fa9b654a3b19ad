//! Look/orientation resolver: accumulated yaw and pitch angles, and their
//! decomposition into a yaw-only body orientation and a pitch-only head
//! orientation.
//!
//! Angles are fixed-point radians. A rotation is carried as the cosine and
//! sine of its angle in fixed point (`Rot2`), evaluated at the boundary by
//! whoever owns the trigonometry; every rule about composing and applying
//! rotations is exact integer arithmetic here.

use vstd::prelude::*;

verus! {

use crate::fixed::{mag, scale_mul, tdiv, SCALE};
use crate::vec3::Vec3;

/// Pitch is clamped into `[-PITCH_BOUND, PITCH_BOUND]`: the fixed-point
/// value of a right angle less a mille-radian, so the view can never reach
/// straight up or straight down and flip over.
pub const PITCH_BOUND: i64 = 1_569_796;

/// Accumulated look angles of one player, in fixed-point radians. Yaw is
/// unbounded; pitch always stays within the clamp.
#[derive(Clone, Copy, Debug, PartialEq, Eq, Structural)]
pub struct Look {
    pub yaw: i64,
    pub pitch: i64,
}

impl Look {
    pub open spec fn wf(self) -> bool {
        -PITCH_BOUND <= self.pitch <= PITCH_BOUND
    }
}

impl Default for Look {
    /// Level view straight ahead.
    fn default() -> (r: Self)
        ensures
            r.yaw == 0 && r.pitch == 0,
            r.wf(),
    {
        Look { yaw: 0, pitch: 0 }
    }
}

/// A planar rotation, given by the fixed-point cosine and sine of its angle.
#[derive(Clone, Copy, Debug, PartialEq, Eq, Structural)]
pub struct Rot2 {
    pub c: i64,
    pub s: i64,
}

impl Rot2 {
    pub open spec fn wf(self) -> bool {
        -SCALE <= self.c <= SCALE && -SCALE <= self.s <= SCALE
    }

    /// The rotation by angle zero.
    pub fn identity() -> (r: Rot2)
        ensures
            r.c == SCALE && r.s == 0,
            r.wf(),
    {
        Rot2 { c: SCALE, s: 0 }
    }
}

/// The combined yaw-then-pitch rotation of a look state (pitch applied in
/// the yawed frame). It exists only to derive direction vectors for
/// movement and the camera; it is never written back as any entity's
/// stored orientation.
#[derive(Clone, Copy, Debug, PartialEq, Eq, Structural)]
pub struct LookRotation {
    pub yaw: Rot2,
    pub pitch: Rot2,
}

impl LookRotation {
    /// Pitch stays strictly inside a half turn, so its cosine is never
    /// negative.
    pub open spec fn wf(self) -> bool {
        self.yaw.wf() && self.pitch.wf() && self.pitch.c >= 0
    }

    /// Forward: the combined rotation applied to the negative depth axis.
    pub open spec fn fwd(self) -> (int, int, int) {
        (
            -tdiv(self.yaw.s * self.pitch.c, SCALE as int),
            self.pitch.s as int,
            -tdiv(self.yaw.c * self.pitch.c, SCALE as int),
        )
    }

    /// Right: the combined rotation applied to the lateral axis. Pitching
    /// happens about this very axis, so only yaw shows in it.
    pub open spec fn rgt(self) -> (int, int, int) {
        (self.yaw.c as int, 0, -self.yaw.s as int)
    }

    /// Up: the combined rotation applied to the vertical axis.
    pub open spec fn upw(self) -> (int, int, int) {
        (
            tdiv(self.yaw.s * self.pitch.s, SCALE as int),
            self.pitch.c as int,
            tdiv(self.yaw.c * self.pitch.s, SCALE as int),
        )
    }

    pub fn forward(&self) -> (r: Vec3)
        requires
            self.wf(),
        ensures
            (r.x as int, r.y as int, r.z as int) == self.fwd(),
            r.wf(),
            -SCALE <= r.x <= SCALE && -SCALE <= r.y <= SCALE && -SCALE <= r.z <= SCALE,
    {
        proof {
            lemma_unit_product(self.yaw.s as int, self.pitch.c as int);
            lemma_unit_product(self.yaw.c as int, self.pitch.c as int);
        }
        Vec3 {
            x: -(scale_mul(self.yaw.s, self.pitch.c, SCALE)),
            y: self.pitch.s,
            z: -(scale_mul(self.yaw.c, self.pitch.c, SCALE)),
        }
    }

    pub fn right(&self) -> (r: Vec3)
        requires
            self.wf(),
        ensures
            (r.x as int, r.y as int, r.z as int) == self.rgt(),
            r.wf(),
            -SCALE <= r.x <= SCALE && -SCALE <= r.y <= SCALE && -SCALE <= r.z <= SCALE,
    {
        Vec3 { x: self.yaw.c, y: 0, z: -self.yaw.s }
    }

    pub fn up(&self) -> (r: Vec3)
        requires
            self.wf(),
        ensures
            (r.x as int, r.y as int, r.z as int) == self.upw(),
            r.wf(),
            -SCALE <= r.x <= SCALE && -SCALE <= r.y <= SCALE && -SCALE <= r.z <= SCALE,
    {
        proof {
            lemma_unit_product(self.yaw.s as int, self.pitch.s as int);
            lemma_unit_product(self.yaw.c as int, self.pitch.s as int);
        }
        Vec3 {
            x: scale_mul(self.yaw.s, self.pitch.s, SCALE),
            y: self.pitch.c,
            z: scale_mul(self.yaw.c, self.pitch.s, SCALE),
        }
    }
}

/// Orientation of a root body: a pure yaw rotation about the world
/// vertical axis, rebuilt from the accumulated yaw every frame.
#[derive(Clone, Copy, Debug, PartialEq, Eq, Structural)]
pub struct BodyRotation {
    pub yaw: Rot2,
}

impl BodyRotation {
    /// Forward vector of the body orientation alone.
    pub open spec fn fwd(self) -> (int, int, int) {
        (-self.yaw.s as int, 0, -self.yaw.c as int)
    }

    pub fn forward(&self) -> (r: Vec3)
        requires
            self.yaw.wf(),
        ensures
            (r.x as int, r.y as int, r.z as int) == self.fwd(),
            r.y == 0,
            r.wf(),
    {
        Vec3 { x: -self.yaw.s, y: 0, z: -self.yaw.c }
    }
}

/// Pitch never leaks into the body: the forward vector derived from a body
/// orientation is level, whatever pitch the head has accumulated — the
/// body orientation is a function of yaw alone, and its vertical component
/// is identically zero.
pub proof fn lemma_body_forward_level(b: BodyRotation)
    ensures
        b.fwd().1 == 0,
{
}

/// Orientation of a head sub-entity: a pure pitch rotation about its local
/// right axis, and the index of the body entity it follows. The relation
/// is a back-reference, not ownership.
#[derive(Clone, Copy, Debug, PartialEq, Eq, Structural)]
pub struct Head {
    pub body: usize,
    pub rotation: Rot2,
}

/// Look resolver, yaw half: rebuild every body's orientation afresh from
/// the current yaw rotation (`look_yaw[i]` belongs to body `i`). Deriving
/// instead of incrementing keeps drift out of the stored orientation even
/// though the yaw angle itself accumulates without bound.
pub fn controller_yaw(bodies: &mut Vec<BodyRotation>, look_yaw: &Vec<Rot2>)
    requires
        old(bodies).len() == look_yaw.len(),
    ensures
        final(bodies).len() == old(bodies).len(),
        forall|i: int| 0 <= i < final(bodies).len() ==> final(bodies)[i].yaw == look_yaw[i],
{
    let mut out: Vec<BodyRotation> = Vec::new();
    let mut j: usize = 0;
    while j < look_yaw.len()
        invariant
            j <= look_yaw.len(),
            out.len() == j,
            forall|i: int| 0 <= i < j ==> out[i].yaw == look_yaw[i],
        decreases look_yaw.len() - j,
    {
        out.push(BodyRotation { yaw: look_yaw[j] });
        j += 1;
    }
    *bodies = out;
}

/// Look resolver, pitch half: rebuild every head's orientation afresh from
/// its body's current pitch rotation, looked up through the head's
/// back-reference; a head pointing at no live body keeps its orientation.
pub fn controller_pitch(heads: &mut Vec<Head>, body_pitch: &Vec<Rot2>)
    ensures
        final(heads).len() == old(heads).len(),
        forall|i: int|
            0 <= i < final(heads).len() ==> final(heads)[i].body == old(heads)[i].body,
        forall|i: int|
            0 <= i < final(heads).len() ==> final(heads)[i].rotation == (if old(heads)[i].body
                < body_pitch.len() {
                body_pitch[old(heads)[i].body as int]
            } else {
                old(heads)[i].rotation
            }),
{
    let mut out: Vec<Head> = Vec::new();
    let mut j: usize = 0;
    while j < heads.len()
        invariant
            j <= heads.len(),
            out.len() == j,
            heads@ == old(heads)@,
            forall|i: int|
                0 <= i < j ==> out[i].body == heads[i].body && out[i].rotation == (if heads[i].body
                    < body_pitch.len() {
                    body_pitch[heads[i].body as int]
                } else {
                    heads[i].rotation
                }),
        decreases heads.len() - j,
    {
        let h = heads[j];
        if h.body < body_pitch.len() {
            out.push(Head { body: h.body, rotation: body_pitch[h.body] });
        } else {
            out.push(h);
        }
        j += 1;
    }
    *heads = out;
}

/// The product of two fixed-point unit components fits in `i64`.
proof fn lemma_unit_product(a: int, b: int)
    requires
        -SCALE <= a <= SCALE,
        -SCALE <= b <= SCALE,
    ensures
        mag(a) * mag(b) <= i64::MAX,
        -SCALE <= tdiv(a * b, SCALE as int) <= SCALE,
{
    assert(mag(a) * mag(b) <= i64::MAX) by (nonlinear_arith)
        requires
            0 <= mag(a) <= 1_000_000,
            0 <= mag(b) <= 1_000_000,
    ;
    crate::fixed::lemma_scale_mag(a, b, SCALE as int);
}

} // verus!
