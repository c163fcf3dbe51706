//! Vertex data, stored exactly.
//!
//! Every coordinate of the built-in geometry is a multiple of one half, so
//! components are held as integer counts of half units: a stored value `h`
//! stands for the coordinate `h / 2`. The GPU-side form scales positions by
//! an exact fraction, so those are held as unreduced fractions.

use vstd::prelude::*;

verus! {

/// Three components in half units.
#[derive(Clone, Copy, Debug, PartialEq, Eq, Structural)]
pub struct Vec3h {
    pub x: i32,
    pub y: i32,
    pub z: i32,
}

/// Two components in half units.
#[derive(Clone, Copy, Debug, PartialEq, Eq, Structural)]
pub struct Vec2h {
    pub x: i32,
    pub y: i32,
}

/// An exact, unreduced fraction `num / den`. Equal construction paths give
/// field-identical values, which is what buffer comparisons rely on.
#[derive(Clone, Copy, Debug, PartialEq, Eq, Structural)]
pub struct Frac {
    pub num: i128,
    pub den: u128,
}

impl Frac {
    /// A fraction denotes a value only when its denominator is positive.
    pub open spec fn wf(self) -> bool {
        self.den > 0
    }

    /// Equality of the denoted rational values.
    pub open spec fn same_value(self, other: Frac) -> bool {
        self.num * other.den == other.num * self.den
    }
}

/// A mesh vertex: position, normal, color and texture coordinates,
/// all in half units.
#[derive(Clone, Copy, Debug, PartialEq, Eq, Structural)]
pub struct Vertex {
    pub position: Vec3h,
    pub normal: Vec3h,
    pub color: Vec3h,
    pub texcoord: Vec2h,
}

/// A position with exact fractional components.
#[derive(Clone, Copy, Debug, PartialEq, Eq, Structural)]
pub struct FracVec3 {
    pub x: Frac,
    pub y: Frac,
    pub z: Frac,
}

/// One vertex as a vertex buffer holds it. Positions are fractions because
/// the fullscreen quad rewrites them with an exact per-axis scale; the other
/// attributes are copied through unchanged.
#[derive(Clone, Copy, Debug, PartialEq, Eq, Structural)]
pub struct ShaderVertex {
    pub position: FracVec3,
    pub normal: Vec3h,
    pub color: Vec3h,
    pub texcoord: Vec2h,
}

/// The buffer form of a vertex: each position component `h` (half units)
/// becomes the fraction `h / 2`, unscaled.
pub open spec fn vertex_shader_data(v: Vertex) -> ShaderVertex {
    ShaderVertex {
        position: FracVec3 {
            x: Frac { num: v.position.x as i128, den: 2 },
            y: Frac { num: v.position.y as i128, den: 2 },
            z: Frac { num: v.position.z as i128, den: 2 },
        },
        normal: v.normal,
        color: v.color,
        texcoord: v.texcoord,
    }
}

impl Vertex {
    /// The datum this vertex contributes to a freshly built vertex buffer.
    pub fn as_shader_data(&self) -> (r: ShaderVertex)
        ensures
            r == vertex_shader_data(*self),
    {
        ShaderVertex {
            position: FracVec3 {
                x: Frac { num: self.position.x as i128, den: 2 },
                y: Frac { num: self.position.y as i128, den: 2 },
                z: Frac { num: self.position.z as i128, den: 2 },
            },
            normal: self.normal,
            color: self.color,
            texcoord: self.texcoord,
        }
    }
}

} // verus!
