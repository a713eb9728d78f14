//! Compute effects that fill the background of a frame.

use crate::vk;
use vstd::prelude::*;

verus! {

/// Four single-precision numbers, each as its bit pattern.
#[derive(Clone, Copy, Debug, PartialEq, Eq, Structural)]
pub struct Vector4 {
    pub x: u32,
    pub y: u32,
    pub z: u32,
    pub w: u32,
}

/// The parameters that a compute effect receives as push constants.
#[derive(Clone, Copy, Debug, PartialEq, Eq, Structural)]
pub struct ComputePushConstants {
    pub data1: Vector4,
    pub data2: Vector4,
    pub data3: Vector4,
    pub data4: Vector4,
}

/// Bytes of the push constants of a compute effect.
pub const COMPUTE_PUSH_CONSTANTS_SIZE: u32 = 64;

/// The vector of four zeros.
pub open spec fn zero_vector() -> Vector4 {
    Vector4 { x: 0, y: 0, z: 0, w: 0 }
}

impl ComputePushConstants {
    /// The parameters with every number zero.
    pub open spec fn zero() -> ComputePushConstants {
        ComputePushConstants {
            data1: zero_vector(),
            data2: zero_vector(),
            data3: zero_vector(),
            data4: zero_vector(),
        }
    }
}

impl Default for ComputePushConstants {
    fn default() -> (c: ComputePushConstants)
        ensures
            c == ComputePushConstants::zero(),
    {
        let zero = Vector4 { x: 0, y: 0, z: 0, w: 0 };
        ComputePushConstants { data1: zero, data2: zero, data3: zero, data4: zero }
    }
}

/// A background effect: a compute pipeline with its layout and parameters.
#[derive(Clone, Copy, Debug, PartialEq, Eq)]
pub struct ComputeEffect {
    pub name: &'static str,
    pub pipeline: vk::Handle,
    pub layout: vk::Handle,
    pub data: ComputePushConstants,
}

} // verus!
