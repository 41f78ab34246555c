//! The primitives of a scene. They are plain values: the store holds them by
//! value and nothing is checked when one is made, so a negative radius or a
//! colour channel above one is kept as given.

use vstd::prelude::*;
use crate::scalar::{same_number, scalar_eq, ONE, ZERO};

verus! {

/// Whether two vectors are equal as numbers, component by component.
pub open spec fn same_vector(a: [u32; 3], b: [u32; 3]) -> bool {
    &&& same_number(a[0], b[0])
    &&& same_number(a[1], b[1])
    &&& same_number(a[2], b[2])
}

pub fn vector_eq(a: &[u32; 3], b: &[u32; 3]) -> (r: bool)
    ensures
        r == same_vector(*a, *b),
{
    scalar_eq(a[0], b[0]) && scalar_eq(a[1], b[1]) && scalar_eq(a[2], b[2])
}

#[derive(Clone, Copy, Debug, PartialEq, Eq)]
pub struct Sphere {
    pub pos: [u32; 3],
    pub color: [u32; 3],
    pub radius: u32,
}

#[derive(Clone, Copy, Debug, PartialEq, Eq)]
pub struct Triangle {
    pub v1: [u32; 3],
    pub v2: [u32; 3],
    pub v3: [u32; 3],
    pub color: [u32; 3],
}

/// `dim` holds the extents along each axis from `pos`.
#[derive(Clone, Copy, Debug, PartialEq, Eq)]
pub struct Cube {
    pub pos: [u32; 3],
    pub dim: [u32; 3],
    pub color: [u32; 3],
}

/// `iterations` is a subdivision count, kept as a scalar like every other
/// field.
#[derive(Clone, Copy, Debug, PartialEq, Eq)]
pub struct MengerSponge {
    pub pos: [u32; 3],
    pub iterations: u32,
    pub color: [u32; 3],
}

/// A sphere widened to three four-component vectors. Position and colour
/// carry `1.0` in the fourth component; the radius stands first in a vector
/// that is zero elsewhere.
#[derive(Clone, Copy, Debug, PartialEq, Eq)]
pub struct GlSphere {
    pub pos: [u32; 4],
    pub color: [u32; 4],
    pub radius: [u32; 4],
}

impl Sphere {
    pub fn new(pos: [u32; 3], color: [u32; 3], radius: u32) -> (s: Self)
        ensures
            s == (Sphere { pos, color, radius }),
    {
        Sphere { pos, color, radius }
    }

    /// Whether the two spheres are equal as numbers in every field.
    pub open spec fn same(self, other: Sphere) -> bool {
        &&& same_vector(self.pos, other.pos)
        &&& same_vector(self.color, other.color)
        &&& same_number(self.radius, other.radius)
    }

    pub fn same_as(&self, other: &Sphere) -> (r: bool)
        ensures
            r == self.same(*other),
    {
        vector_eq(&self.pos, &other.pos) && vector_eq(&self.color, &other.color) && scalar_eq(
            self.radius,
            other.radius,
        )
    }

    pub fn to_gl_sphere(&self) -> (g: GlSphere)
        ensures
            g == GlSphere::of(self.pos, self.color, self.radius),
    {
        GlSphere::new(self.pos, self.color, self.radius)
    }
}

impl GlSphere {
    /// The widened form of a sphere with the given fields.
    pub open spec fn of(pos: [u32; 3], color: [u32; 3], radius: u32) -> GlSphere {
        GlSphere {
            pos: [pos[0], pos[1], pos[2], ONE],
            color: [color[0], color[1], color[2], ONE],
            radius: [radius, ZERO, ZERO, ZERO],
        }
    }

    pub fn new(pos: [u32; 3], color: [u32; 3], radius: u32) -> (g: Self)
        ensures
            g == GlSphere::of(pos, color, radius),
    {
        GlSphere {
            pos: [pos[0], pos[1], pos[2], ONE],
            color: [color[0], color[1], color[2], ONE],
            radius: [radius, ZERO, ZERO, ZERO],
        }
    }
}

impl Triangle {
    pub fn new(v1: [u32; 3], v2: [u32; 3], v3: [u32; 3], color: [u32; 3]) -> (t: Self)
        ensures
            t == (Triangle { v1, v2, v3, color }),
    {
        Triangle { v1, v2, v3, color }
    }
}

impl Cube {
    pub fn new(pos: [u32; 3], dim: [u32; 3], color: [u32; 3]) -> (c: Self)
        ensures
            c == (Cube { pos, dim, color }),
    {
        Cube { pos, dim, color }
    }
}

impl MengerSponge {
    pub fn new(pos: [u32; 3], iterations: u32, color: [u32; 3]) -> (m: Self)
        ensures
            m == (MengerSponge { pos, iterations, color }),
    {
        MengerSponge { pos, iterations, color }
    }
}

/// The size in bytes of a widened sphere: three vectors of four scalars of
/// four bytes.
pub const GL_SPHERE_BYTES: usize = 48;

/// The widened form of `sphere`.
pub open spec fn widened(sphere: Sphere) -> GlSphere {
    GlSphere::of(sphere.pos, sphere.color, sphere.radius)
}

/// Widens every sphere, in order: the data of a buffer of spheres.
pub fn to_gl_spheres(values: &Vec<Sphere>) -> (gl_values: Vec<GlSphere>)
    ensures
        gl_values@.len() == values@.len(),
        forall|i: int| 0 <= i < values@.len() ==> gl_values@[i] == widened(#[trigger] values@[i]),
{
    let mut gl_values: Vec<GlSphere> = Vec::new();
    let mut i: usize = 0;
    while i < values.len()
        invariant
            i <= values@.len(),
            gl_values@.len() == i,
            forall|j: int| 0 <= j < i ==> gl_values@[j] == widened(#[trigger] values@[j]),
        decreases values@.len() - i,
    {
        gl_values.push(values[i].to_gl_sphere());
        i += 1;
    }
    gl_values
}

/// The size in bytes of a buffer of `count` widened spheres, where it can be
/// addressed.
pub fn gl_spheres_size(count: usize) -> (size: Option<usize>)
    ensures
        size == if count * GL_SPHERE_BYTES <= usize::MAX {
            Some((count * GL_SPHERE_BYTES) as usize)
        } else {
            None
        },
{
    count.checked_mul(GL_SPHERE_BYTES)
}

} // verus!
