//! Lights of a scene.

use crate::gpu::ResourceId;
use crate::pass::lighting;
use vstd::prelude::*;

verus! {

/// The buffer the lighting pass reads the point lights from, its slot in the
/// shader-visible heap, and what the buffer holds.
pub struct LightDataBuffer {
    pub point_buffer: ResourceId,
    pub start_srvs: u32,
    pub contents: Vec<lighting::PointLight>,
}

/// A point light: its intensity as a single-precision bit pattern. Its
/// position is that of the entity's transform.
#[derive(Clone, Copy, Debug, PartialEq, Eq, Structural)]
pub struct PointLight {
    pub intensity: u32,
}

} // verus!
