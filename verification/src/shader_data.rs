//! Data handed to shaders, in the exact form the orchestration tracks it.
//!
//! Camera-transform quantities are held as integer counts of thousandths of
//! a unit (and thousandths of a degree for the field of view), which
//! represents every value the camera state machine manipulates exactly. The
//! embedding computes the floating-point view-projection matrix from a
//! captured [`CameraUniform`] when it serializes the uniform buffer.

use vstd::prelude::*;

verus! {

/// Three components in thousandths of a unit.
#[derive(Clone, Copy, Debug, PartialEq, Eq, Structural)]
pub struct Vec3m {
    pub x: i64,
    pub y: i64,
    pub z: i64,
}

/// Everything the view-projection matrix and the camera uniform block are
/// computed from, captured at upload time.
#[derive(Clone, Copy, Debug, PartialEq, Eq, Structural)]
pub struct CameraUniform {
    pub position: Vec3m,
    pub pivot: Vec3m,
    pub world_up: Vec3m,
    /// Vertical field of view, thousandths of a degree.
    pub fov_y_millideg: u32,
    /// Near plane distance, thousandths of a unit.
    pub near_millis: u64,
    /// Far plane distance, thousandths of a unit.
    pub far_millis: u64,
    /// Viewport size the aspect ratio was taken from.
    pub viewport_width: u32,
    pub viewport_height: u32,
}

/// Per-draw push constants: whether the shader flips the V texture
/// coordinate, and whether it applies gamma correction (set exactly when the
/// surface format is not sRGB).
#[derive(Clone, Copy, Debug, PartialEq, Eq, Structural)]
pub struct ShaderPushConstants {
    pub flipv: u32,
    pub gamma_correct: u32,
}

} // verus!
