use vstd::prelude::*;
use crate::color::Color;
use crate::fx::{COORD_LIMIT, FX};

verus! {

/// A two-component fixed-point vector (texture coordinates).
#[derive(Clone, Copy, PartialEq, Eq, Structural, Debug)]
pub struct Vec2Fx {
    pub x: i64,
    pub y: i64,
}

/// A three-component fixed-point vector.
#[derive(Clone, Copy, PartialEq, Eq, Structural, Debug)]
pub struct Vec3Fx {
    pub x: i64,
    pub y: i64,
    pub z: i64,
}

/// A four-component fixed-point vector (homogeneous coordinates).
#[derive(Clone, Copy, PartialEq, Eq, Structural, Debug)]
pub struct Vec4Fx {
    pub x: i64,
    pub y: i64,
    pub z: i64,
    pub w: i64,
}

impl Vec2Fx {
    pub fn new(x: i64, y: i64) -> (v: Vec2Fx)
        ensures
            v.x == x && v.y == y,
    {
        Vec2Fx { x, y }
    }

    /// Both components are small enough for the rasterizer's edge products.
    pub open spec fn in_coord_range(self) -> bool {
        &&& -COORD_LIMIT <= self.x <= COORD_LIMIT
        &&& -COORD_LIMIT <= self.y <= COORD_LIMIT
    }
}

impl Vec3Fx {
    pub fn new(x: i64, y: i64, z: i64) -> (v: Vec3Fx)
        ensures
            v.x == x && v.y == y && v.z == z,
    {
        Vec3Fx { x, y, z }
    }

    /// All components are small enough for the rasterizer's edge products.
    pub open spec fn in_coord_range(self) -> bool {
        &&& -COORD_LIMIT <= self.x <= COORD_LIMIT
        &&& -COORD_LIMIT <= self.y <= COORD_LIMIT
        &&& -COORD_LIMIT <= self.z <= COORD_LIMIT
    }
}

/// One mesh vertex: immutable object-space attributes plus the fields the
/// vertex transform stage fills in once per frame. In the stage's output,
/// `position` holds the model-transformed (world-space) position, so the
/// rasterizer interpolates world coordinates for the shading stage.
#[derive(Clone, Copy, PartialEq, Eq, Structural, Debug)]
pub struct Vertex {
    pub position: Vec3Fx,
    pub normal: Vec3Fx,
    pub tex_coords: Vec2Fx,
    pub color: Color,
    pub transformed_position: Vec3Fx,
    pub transformed_normal: Vec3Fx,
}

impl Vertex {
    /// Everything the rasterizer interpolates stays within the coordinate
    /// range its fixed-point products are sized for.
    pub open spec fn raster_ready(self) -> bool {
        &&& self.position.in_coord_range()
        &&& self.normal.in_coord_range()
        &&& self.tex_coords.in_coord_range()
        &&& self.transformed_position.in_coord_range()
        &&& self.transformed_normal.in_coord_range()
    }

    /// A vertex with its transformed fields still unset (equal to the
    /// object-space position and normal).
    pub fn new(position: Vec3Fx, normal: Vec3Fx, tex_coords: Vec2Fx, color: Color) -> (v: Vertex)
        ensures
            v.position == position,
            v.normal == normal,
            v.tex_coords == tex_coords,
            v.color == color,
            v.transformed_position == position,
            v.transformed_normal == normal,
    {
        Vertex {
            position,
            normal,
            tex_coords,
            color,
            transformed_position: position,
            transformed_normal: normal,
        }
    }
}

/// One rasterized sample: an integer pixel coordinate with the attributes
/// interpolated at its center. Fragments are transient; the shading stage
/// consumes them immediately.
#[derive(Clone, Copy, PartialEq, Eq, Structural, Debug)]
pub struct Fragment {
    pub x: i64,
    pub y: i64,
    pub color: Color,
    pub depth: i64,
    pub normal: Vec3Fx,
    pub intensity: i64,
    pub world_pos: Vec3Fx,
    pub tex_coords: Option<Vec2Fx>,
}

impl Fragment {
    /// The interpolated lighting intensity is a fraction of `FX`.
    pub open spec fn intensity_in_range(self) -> bool {
        0 <= self.intensity <= FX
    }
}

} // verus!
