//! From polled input to controller state: accumulating look deltas and
//! composing the movement intent out of the look frame's direction vectors.
//!
//! Key and mouse polling happen outside; these rules take the already
//! polled key states and summed mouse deltas and decide what the intent
//! and look state become. All of them are gated on gameplay mode: with an
//! editor overlay open, input leaves the controller state alone.

use vstd::prelude::*;

verus! {

use crate::controller::{Jump, Movement, MIN_LEN_SQ};
use crate::fixed::{clamped, in_range, mag, sat_add, scale_mul, sqrt, tdiv, add_sat, clamp, SCALE};
use crate::look::{Look, LookRotation, PITCH_BOUND};
use crate::vec3::Vec3;

/// The movement-relevant key states of one frame, already resolved from
/// whatever key map the surrounding program uses.
#[derive(Clone, Copy, Debug, PartialEq, Eq, Structural)]
pub struct MoveKeys {
    pub forward: bool,
    pub backward: bool,
    pub right: bool,
    pub left: bool,
    pub up: bool,
    pub down: bool,
    pub run: bool,
}

/// Mouse sensitivity: how much of a radian one count of mouse travel
/// turns, as a fraction of `SCALE`.
#[derive(Clone, Copy, Debug, PartialEq, Eq, Structural)]
pub struct MouseSettings {
    pub sensitivity: i64,
}

impl MouseSettings {
    pub open spec fn wf(self) -> bool {
        0 <= self.sensitivity <= SCALE
    }
}

impl Default for MouseSettings {
    /// The stock sensitivity, five thousandths of a radian per count.
    fn default() -> (r: Self)
        ensures
            r.sensitivity == 5_000,
            r.wf(),
    {
        MouseSettings { sensitivity: 5_000 }
    }
}

/// Contribution of one opposed key pair along one component: the value for
/// the positive key, its negation for the opposite one, cancelling when
/// both are held.
pub open spec fn signed(plus: bool, minus: bool, v: int) -> int {
    (if plus {
        v
    } else {
        0
    }) - (if minus {
        v
    } else {
        0
    })
}

/// The raw (unnormalized) intent direction: forward/backward along the
/// look's forward vector, strafing along its right vector, rising and
/// sinking along its up vector.
pub open spec fn move_direction(look: LookRotation, keys: MoveKeys) -> (int, int, int) {
    (
        signed(keys.forward, keys.backward, look.fwd().0) + signed(keys.right, keys.left, look.rgt().0)
            + signed(keys.up, keys.down, look.upw().0),
        signed(keys.forward, keys.backward, look.fwd().1) + signed(keys.right, keys.left, look.rgt().1)
            + signed(keys.up, keys.down, look.upw().1),
        signed(keys.forward, keys.backward, look.fwd().2) + signed(keys.right, keys.left, look.rgt().2)
            + signed(keys.up, keys.down, look.upw().2),
    )
}

/// Accumulate a frame's summed mouse delta into the look angles: the delta
/// scaled by the sensitivity is added to yaw and pitch, and pitch is
/// clamped back into its bound. Deltas below the intent threshold, or any
/// delta outside gameplay mode, leave the look alone — and whatever
/// happens, pitch ends inside its clamp.
pub fn input_to_look(look: &mut Look, delta_x: i64, delta_y: i64, sensitivity: i64, gameplay: bool)
    requires
        old(look).wf(),
        0 <= sensitivity <= SCALE,
        in_range(delta_x as int),
        in_range(delta_y as int),
    ensures
        final(look).wf(),
        -PITCH_BOUND <= final(look).pitch <= PITCH_BOUND,
        gameplay && delta_x * delta_x + delta_y * delta_y > MIN_LEN_SQ ==> final(look).yaw
            == sat_add(old(look).yaw as int, tdiv(delta_x * sensitivity, SCALE as int)),
        gameplay && delta_x * delta_x + delta_y * delta_y > MIN_LEN_SQ ==> final(look).pitch
            == clamped(
            sat_add(old(look).pitch as int, tdiv(delta_y * sensitivity, SCALE as int)),
            -PITCH_BOUND as int,
            PITCH_BOUND as int,
        ),
        !(gameplay && delta_x * delta_x + delta_y * delta_y > MIN_LEN_SQ) ==> *final(look) == *old(
            look,
        ),
{
    proof {
        lemma_delta_products(delta_x as int, delta_y as int, sensitivity as int);
    }
    let lsq = delta_x * delta_x + delta_y * delta_y;
    if gameplay && lsq > MIN_LEN_SQ {
        let dyaw = scale_mul(delta_x, sensitivity, SCALE);
        look.yaw = add_sat(look.yaw, dyaw);
        let dpitch = scale_mul(delta_y, sensitivity, SCALE);
        look.pitch = clamp(add_sat(look.pitch, dpitch), -PITCH_BOUND, PITCH_BOUND);
    }
}

/// Latch the edge-triggered jump request for this frame.
pub fn input_to_jump(jump: &mut Jump, jump_just_pressed: bool, gameplay: bool)
    ensures
        gameplay ==> final(jump).0 == jump_just_pressed,
        !gameplay ==> *final(jump) == *old(jump),
{
    if gameplay {
        jump.0 = jump_just_pressed;
    }
}

/// Compose this frame's movement intent from the held keys and the look
/// frame: the signed sum of forward, right and up contributions,
/// normalized to unit length when any intent remains, and a run fraction
/// of one with the run key held, zero without.
#[verifier::rlimit(60)]
pub fn input_to_movement(
    movement: &mut Movement,
    look: &LookRotation,
    keys: &MoveKeys,
    gameplay: bool,
)
    requires
        old(movement).wf(),
        look.wf(),
    ensures
        final(movement).wf(),
        !gameplay ==> *final(movement) == *old(movement),
        gameplay ==> final(movement).speed == (if keys.run {
            SCALE as int
        } else {
            0int
        }),
        gameplay ==> ({
            let d = move_direction(*look, *keys);
            let l2 = d.0 * d.0 + d.1 * d.1 + d.2 * d.2;
            &&& (l2 >= 1 ==> final(movement).vector.x == tdiv(d.0 * SCALE, sqrt(l2 as nat) as int)
                && final(movement).vector.y == tdiv(d.1 * SCALE, sqrt(l2 as nat) as int)
                && final(movement).vector.z == tdiv(d.2 * SCALE, sqrt(l2 as nat) as int))
            &&& (l2 == 0 ==> final(movement).vector.x == 0 && final(movement).vector.y == 0
                && final(movement).vector.z == 0)
        }),
{
    if gameplay {
        let f = look.forward();
        let r = look.right();
        let u = look.up();
        let mut dir = Vec3::zero();
        if keys.forward {
            dir = dir.plus(&f);
        }
        if keys.backward {
            dir = dir.minus(&f);
        }
        if keys.right {
            dir = dir.plus(&r);
        }
        if keys.left {
            dir = dir.minus(&r);
        }
        if keys.up {
            dir = dir.plus(&u);
        }
        if keys.down {
            dir = dir.minus(&u);
        }
        proof {
            let d = move_direction(*look, *keys);
            assert(dir.x == d.0 && dir.y == d.1 && dir.z == d.2);
        }
        let lsq = dir.len_sq();
        movement.vector = if lsq >= 1 {
            dir.scaled_to(SCALE)
        } else {
            Vec3::zero()
        };
        movement.speed = if keys.run {
            SCALE
        } else {
            0
        };
    }
}

/// Squares and sensitivity products of admissible deltas fit in `i64`.
proof fn lemma_delta_products(dx: int, dy: int, s: int)
    requires
        in_range(dx),
        in_range(dy),
        0 <= s <= SCALE,
    ensures
        0 <= dx * dx <= 1_000_000_000_000_000_000,
        0 <= dy * dy <= 1_000_000_000_000_000_000,
        mag(dx) * mag(s) <= i64::MAX,
        mag(dy) * mag(s) <= i64::MAX,
{
    assert(0 <= dx * dx <= 1_000_000_000_000_000_000 && 0 <= dy * dy <= 1_000_000_000_000_000_000)
        by (nonlinear_arith)
        requires
            -1_000_000_000 <= dx <= 1_000_000_000,
            -1_000_000_000 <= dy <= 1_000_000_000,
    ;
    assert(mag(dx) * mag(s) <= i64::MAX && mag(dy) * mag(s) <= i64::MAX) by (nonlinear_arith)
        requires
            0 <= mag(dx) <= 1_000_000_000,
            0 <= mag(dy) <= 1_000_000_000,
            0 <= mag(s) <= 1_000_000,
    ;
}

} // verus!
