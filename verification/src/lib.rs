//! A physics-driven character controller: converts per-frame movement intent
//! (direction, speed fraction, jump request, flight toggle) and live physics
//! state (ground contact, gravity) into a rigid body's velocity, and resolves
//! accumulated look angles into a yaw-only body orientation and a pitch-only
//! head orientation.
//!
//! All quantities are fixed-point integers counting millionths of a world
//! unit (or of a radian), so every rule of the controller is exact integer
//! arithmetic. The surrounding engine — input polling, the physics engine's
//! ray casts and integration, rendering — converts at the boundary.

pub mod controller;
pub mod fixed;
pub mod input;
pub mod look;
pub mod modes;
pub mod vec3;

use vstd::prelude::*;

verus! {

} // verus!
