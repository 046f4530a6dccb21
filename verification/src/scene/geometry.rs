//! Scene geometry.
//!
//! The geometry of a scene is held at several levels:
//!
//!  * Mesh: the one pair of GPU buffers that stores the vertices and indices
//!    of the whole scene. Vertex data holds positions only, three floats each.
//!
//!  * Geometry: a submesh, which is a range of the mesh's indices and the
//!    vertex that its indices count from.
//!
//!  * DrawData: what the GPU needs of a `Geometry` to find a submesh again.
//!
//!  * Instance: one placement of a `Geometry` in the world, by an entity that
//!    also has a transform.

use crate::gpu::{Format, ResourceId};
use vstd::prelude::*;

verus! {

/// Bytes of one vertex position.
pub const VERTEX_POS_SIZE: u32 = 12;

/// Bytes of one index.
pub const INDEX_SIZE: u32 = 4;

/// Bytes of one draw-data record.
pub const DRAW_DATA_SIZE: u32 = 8;

/// Vertex position: three single-precision bit patterns.
#[derive(Clone, Copy, Debug, PartialEq, Eq)]
pub struct VertexPos(pub [u32; 3]);

/// The buffers that hold the whole scene's geometry.
#[derive(Clone, Copy, Debug, PartialEq, Eq, Structural)]
pub struct Mesh {
    pub vertex_buffer: ResourceId,
    pub vertex_buffer_size: u32,
    pub vertex_stride: u32,
    pub index_buffer: ResourceId,
    pub index_format: Format,
    pub index_buffer_size: u32,
    /// First of three consecutive slots in the shader-visible heap: index
    /// buffer, vertex positions, draw data.
    pub start_srvs: u32,
}

/// A submesh: usually the geometry of one object.
#[derive(Clone, Copy, Debug, PartialEq, Eq, Structural)]
pub struct Geometry {
    pub id: usize,
    pub base_index: usize,
    pub num_indices: usize,
    pub base_vertex: usize,
}

/// A submesh as the GPU finds it.
#[derive(Clone, Copy, Debug, PartialEq, Eq, Structural)]
pub struct DrawData {
    pub base_index: u32,
    pub base_vertex: u32,
}

/// The buffer of draw-data records, one per submesh.
#[derive(Clone, Copy, Debug, PartialEq, Eq, Structural)]
pub struct DrawDataBuffer(pub ResourceId);

/// One placement of a submesh in the world. `geometry` is the submesh's place
/// among the scene's geometries.
#[derive(Clone, Copy, Debug, PartialEq, Eq, Structural)]
pub struct Instance {
    pub geometry: usize,
}

} // verus!
