//! The orbit camera's state, and the one rule that guards it.
//!
//! The camera stands at `pos` and has turned by the accumulated `angle`
//! (radians, signed) about `rotation_axis`, which is meant to have length one.
//! Orbiting and panning are arithmetic on these scalars and are done by the
//! caller, who writes the fields. The field of view is different: a new value
//! is taken only if it lies between `FOV_MIN` and `FOV_MAX`, and is otherwise
//! dropped, not clamped. A write to the field itself goes past this rule.

use vstd::prelude::*;
use crate::scalar::{within, ONE, ZERO};

verus! {

/// The pattern of `0.001`, the smallest field of view that is taken.
pub const FOV_MIN: u32 = 0x3a83_126f;

/// The pattern of `100000.0`, the largest field of view that is taken.
pub const FOV_MAX: u32 = 0x47c3_5000;

/// The pattern of `80.0`, the field of view of a new camera.
pub const FOV_DEFAULT: u32 = 0x42a0_0000;

#[derive(Clone, Copy, Debug, PartialEq, Eq)]
pub struct Camera {
    pub pos: [u32; 3],
    pub rotation_axis: [u32; 3],
    pub angle: u32,
    pub fov: u32,
}

impl Camera {
    /// Whether `fov` is a number from `0.001` to `100000.0`. Both bounds are
    /// positive and finite, so this is the order of the patterns; a negative
    /// number, an infinity or a NaN has a pattern above `FOV_MAX`.
    pub open spec fn fov_allowed(fov: u32) -> bool {
        within(fov, FOV_MIN, FOV_MAX)
    }

    /// A camera at the origin that has not turned, with the second axis as
    /// its rotation axis.
    pub fn new() -> (camera: Camera)
        ensures
            camera == (Camera {
                pos: [ZERO, ZERO, ZERO],
                rotation_axis: [ZERO, ONE, ZERO],
                angle: ZERO,
                fov: FOV_DEFAULT,
            }),
    {
        Camera {
            pos: [ZERO, ZERO, ZERO],
            rotation_axis: [ZERO, ONE, ZERO],
            angle: ZERO,
            fov: FOV_DEFAULT,
        }
    }

    /// Takes `fov` as the new field of view if it is allowed, and says
    /// whether it was. A value that is not allowed leaves the camera as it
    /// is.
    pub fn set_field_of_view(&mut self, fov: u32) -> (taken: bool)
        ensures
            taken == Camera::fov_allowed(fov),
            taken ==> *final(self) == (Camera { fov, ..*old(self) }),
            !taken ==> *final(self) == *old(self),
    {
        if fov >= FOV_MIN && fov <= FOV_MAX {
            self.fov = fov;
            true
        } else {
            false
        }
    }
}

} // verus!
