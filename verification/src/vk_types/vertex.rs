//! A vertex as the shaders read it.

use crate::vk;
use crate::vk_compute::Vector4;
use vstd::prelude::*;

verus! {

/// Three single-precision numbers, each as its bit pattern.
#[derive(Clone, Copy, Debug, PartialEq, Eq, Structural)]
pub struct Vector3 {
    pub x: u32,
    pub y: u32,
    pub z: u32,
}

/// One vertex of a mesh. The texture coordinates sit between position,
/// normal and colour, so that the members fill whole groups of four
/// floats. Every member holds the bit patterns of its floats.
#[derive(Clone, Copy, Debug, PartialEq, Eq, Structural)]
pub struct Vertex {
    pub position: Vector3,
    pub uv_x: u32,
    pub normal: Vector3,
    pub uv_y: u32,
    pub color: Vector4,
}

impl Vertex {
    /// The vertex at the origin with no normal and no texture coordinates,
    /// in opaque black.
    pub open spec fn origin() -> Vertex {
        Vertex {
            position: Vector3 { x: 0, y: 0, z: 0 },
            uv_x: 0,
            normal: Vector3 { x: 0, y: 0, z: 0 },
            uv_y: 0,
            color: Vector4 { x: 0, y: 0, z: 0, w: vk::F32_ONE },
        }
    }
}

impl Default for Vertex {
    fn default() -> (v: Vertex)
        ensures
            v == Vertex::origin(),
    {
        Vertex {
            position: Vector3 { x: 0, y: 0, z: 0 },
            uv_x: 0,
            normal: Vector3 { x: 0, y: 0, z: 0 },
            uv_y: 0,
            color: Vector4 { x: 0, y: 0, z: 0, w: vk::F32_ONE },
        }
    }
}

} // verus!
