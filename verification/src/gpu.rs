//! Plain descriptions of GPU objects and of the work recorded for the GPU.
//!
//! Nothing here touches a device. A value of these types says what is to be
//! created or recorded; whoever owns the device carries it out. Floating-point
//! parameters are held as their IEEE-754 bit patterns.

use vstd::prelude::*;

verus! {

/// Bit pattern of the single-precision value `0.0`.
pub const F32_ZERO: u32 = 0;

/// Bit pattern of the single-precision value `1.0`.
pub const F32_ONE: u32 = 0x3F80_0000;

/// Bit pattern of the largest finite single-precision value.
pub const F32_MAX: u32 = 0x7F7F_FFFF;

/// The state a presentable image is in while it is shown.
pub const STATE_PRESENT: u32 = 0x0;

pub const STATE_VERTEX_AND_CONSTANT_BUFFER: u32 = 0x1;

pub const STATE_INDEX_BUFFER: u32 = 0x2;

pub const STATE_RENDER_TARGET: u32 = 0x4;

pub const STATE_UNORDERED_ACCESS: u32 = 0x8;

pub const STATE_DEPTH_WRITE: u32 = 0x10;

pub const STATE_NON_PIXEL_SHADER_RESOURCE: u32 = 0x40;

pub const STATE_PIXEL_SHADER_RESOURCE: u32 = 0x80;

pub const STATE_COPY_DEST: u32 = 0x400;

pub const STATE_COPY_SOURCE: u32 = 0x800;

/// A vertex buffer that pixel shaders also read.
pub const STATE_VERTEX_BUFFER_AND_PIXEL_SHADER_RESOURCE: u32 = 0x81;

/// An index buffer that pixel shaders also read.
pub const STATE_INDEX_BUFFER_AND_PIXEL_SHADER_RESOURCE: u32 = 0x82;

/// Readable from every shader stage.
pub const STATE_ALL_SHADER_RESOURCE: u32 = 0xC0;

/// A barrier on every subresource of a resource.
pub const ALL_SUBRESOURCES: u32 = 0xFFFF_FFFF;

pub const RESOURCE_FLAG_NONE: u32 = 0x0;

pub const RESOURCE_FLAG_ALLOW_RENDER_TARGET: u32 = 0x1;

pub const RESOURCE_FLAG_ALLOW_DEPTH_STENCIL: u32 = 0x2;

pub const RESOURCE_FLAG_ALLOW_UNORDERED_ACCESS: u32 = 0x4;

pub const BARRIER_FLAG_NONE: u32 = 0x0;

/// Placement alignment of textures and buffers, in bytes.
pub const DEFAULT_RESOURCE_PLACEMENT_ALIGNMENT: u64 = 65536;

/// The identity mapping of the four components a shader reads.
pub const DEFAULT_SHADER_4_COMPONENT_MAPPING: u32 = 0x1688;

/// Texel and element formats the renderer uses.
#[derive(Clone, Copy, Debug, PartialEq, Eq, Structural)]
pub enum Format {
    Unknown,
    R32G32B32Float,
    R16G16B16A16Typeless,
    R16G16B16A16Float,
    R16G16B16A16Uint,
    R8G8B8A8Unorm,
    R8G8B8A8UnormSrgb,
    D32Float,
    R32Uint,
}

/// Where a committed allocation lives.
#[derive(Clone, Copy, Debug, PartialEq, Eq, Structural)]
pub enum HeapType {
    /// Device-local memory.
    Default,
    /// Memory the CPU writes and the GPU reads.
    Upload,
    /// Memory the GPU writes and the CPU reads.
    Readback,
}

#[derive(Clone, Copy, Debug, PartialEq, Eq, Structural)]
pub enum ResourceDimension {
    Buffer,
    Texture2D,
}

#[derive(Clone, Copy, Debug, PartialEq, Eq, Structural)]
pub enum TextureLayout {
    Unknown,
    RowMajor,
}

/// Size, format and use of a committed allocation.
#[derive(Clone, Copy, Debug, PartialEq, Eq, Structural)]
pub struct ResourceDesc {
    pub dimension: ResourceDimension,
    pub alignment: u64,
    pub width: u64,
    pub height: u32,
    pub depth_or_array_size: u16,
    pub format: Format,
    pub mip_levels: u16,
    pub sample_count: u32,
    pub sample_quality: u32,
    pub layout: TextureLayout,
    pub flags: u32,
}

impl ResourceDesc {
    /// A linear buffer of `width` bytes.
    pub open spec fn spec_buffer(width: u64) -> ResourceDesc {
        ResourceDesc {
            dimension: ResourceDimension::Buffer,
            alignment: 0,
            width,
            height: 1,
            depth_or_array_size: 1,
            format: Format::Unknown,
            mip_levels: 1,
            sample_count: 1,
            sample_quality: 0,
            layout: TextureLayout::RowMajor,
            flags: RESOURCE_FLAG_NONE,
        }
    }

    /// A two-dimensional texture with one mip level and one array slice.
    pub open spec fn spec_texture_2d(
        width: u32,
        height: u32,
        format: Format,
        samples: u32,
        alignment: u64,
        flags: u32,
    ) -> ResourceDesc {
        ResourceDesc {
            dimension: ResourceDimension::Texture2D,
            alignment,
            width: width as u64,
            height,
            depth_or_array_size: 1,
            format,
            mip_levels: 1,
            sample_count: samples,
            sample_quality: 0,
            layout: TextureLayout::Unknown,
            flags,
        }
    }

    pub fn buffer(width: u64) -> (desc: ResourceDesc)
        ensures
            desc == Self::spec_buffer(width),
    {
        ResourceDesc {
            dimension: ResourceDimension::Buffer,
            alignment: 0,
            width,
            height: 1,
            depth_or_array_size: 1,
            format: Format::Unknown,
            mip_levels: 1,
            sample_count: 1,
            sample_quality: 0,
            layout: TextureLayout::RowMajor,
            flags: RESOURCE_FLAG_NONE,
        }
    }

    pub fn texture_2d(
        width: u32,
        height: u32,
        format: Format,
        samples: u32,
        alignment: u64,
        flags: u32,
    ) -> (desc: ResourceDesc)
        ensures
            desc == Self::spec_texture_2d(width, height, format, samples, alignment, flags),
    {
        ResourceDesc {
            dimension: ResourceDimension::Texture2D,
            alignment,
            width: width as u64,
            height,
            depth_or_array_size: 1,
            format,
            mip_levels: 1,
            sample_count: samples,
            sample_quality: 0,
            layout: TextureLayout::Unknown,
            flags,
        }
    }
}

/// The value a render target or depth target is most often cleared to.
#[derive(Clone, Copy, Debug, PartialEq, Eq, Structural)]
pub enum ClearValue {
    /// Red, green, blue and alpha, as bit patterns.
    Color { format: Format, red: u32, green: u32, blue: u32, alpha: u32 },
    /// Depth as a bit pattern, and stencil.
    DepthStencil { format: Format, depth: u32, stencil: u8 },
}

/// A resource, named by its place in the engine's resource table.
#[derive(Clone, Copy, Debug, PartialEq, Eq, Structural)]
pub struct ResourceId(pub usize);

/// Where a resource comes from.
#[derive(Clone, Copy, Debug, PartialEq, Eq, Structural)]
pub enum ResourceOrigin {
    /// A committed allocation on a heap of the given type.
    Committed(HeapType),
    /// The presentable image with the given index, owned by the swapchain.
    BackBuffer(u32),
}

/// What a resource in the engine's table was created as.
#[derive(Clone, Copy, Debug, PartialEq, Eq, Structural)]
pub struct ResourceRecord {
    pub origin: ResourceOrigin,
    pub desc: ResourceDesc,
    pub initial_state: u32,
    pub clear_value: Option<ClearValue>,
}

/// CPU and GPU address of one descriptor slot.
#[derive(Clone, Copy, Debug, PartialEq, Eq, Structural)]
pub struct DescriptorHandle {
    pub cpu: u64,
    pub gpu: u64,
}

/// How a resource is seen through a descriptor.
#[derive(Clone, Copy, Debug, PartialEq, Eq, Structural)]
pub enum ViewDesc {
    /// Shader resource view of a structured buffer.
    BufferSrv { num_elements: u32, stride: u32 },
    /// Shader resource view of the first mip level of a texture.
    Texture2DSrv { format: Format },
    /// Unordered access view of the first mip level of a texture.
    Texture2DUav { format: Format },
    /// Render target view of a texture.
    Texture2DRtv { format: Format },
    /// Depth stencil view of a texture.
    Texture2DDsv { format: Format },
}

/// A descriptor to be written: the resource, how it is viewed, and the CPU
/// address of the slot that receives it.
#[derive(Clone, Copy, Debug, PartialEq, Eq, Structural)]
pub struct ViewRecord {
    pub resource: ResourceId,
    pub desc: ViewDesc,
    pub slot: u64,
}

/// A synchronisation point between two uses of a resource.
#[derive(Clone, Copy, Debug, PartialEq, Eq, Structural)]
pub enum ResourceBarrier {
    /// The resource leaves state `before` and enters state `after`.
    Transition { resource: ResourceId, subresource: u32, before: u32, after: u32, flags: u32 },
    /// All unordered accesses to the resource finish before later ones start.
    Uav { resource: ResourceId, flags: u32 },
}

/// Which of the three passes a signature or pipeline state belongs to.
#[derive(Clone, Copy, Debug, PartialEq, Eq, Structural)]
pub enum PassKind {
    Geometry,
    Lighting,
    DisplayMap,
}

/// One entry of a command list.
#[derive(Clone, Copy, Debug, PartialEq, Eq, Structural)]
pub enum Command {
    /// Binds the two shader-visible descriptor heaps.
    SetDescriptorHeaps,
    ResourceBarrier(ResourceBarrier),
    /// Copies all of `source` into `dest`.
    CopyResource { dest: ResourceId, source: ResourceId },
    /// Copies tightly packed texels from a buffer into the first subresource of
    /// a texture.
    CopyBufferToTexture {
        dest: ResourceId,
        source: ResourceId,
        format: Format,
        width: u32,
        height: u32,
        row_pitch: u32,
    },
    /// Clears a render target to transparent black.
    ClearRenderTargetView { view: u64 },
    /// Clears a depth target to the far plane.
    ClearDepthStencilView { view: u64, depth: u32 },
    SetGraphicsRootSignature(PassKind),
    SetComputeRootSignature(PassKind),
    SetPipelineState(PassKind),
    SetTriangleListTopology,
    /// Viewport and scissor rectangle over the whole target, depth 0 to 1.
    SetViewportAndScissor { width: u32, height: u32 },
    SetRenderTargets { render_target: u64, depth_stencil: Option<u64> },
    /// Binds the view-data slot at `offset` bytes into the view-data buffer.
    SetGraphicsRootConstantBufferView { parameter: u32, offset: u64 },
    SetIndexBuffer { buffer: ResourceId, size: u32, format: Format },
    SetVertexBuffer { buffer: ResourceId, size: u32, stride: u32 },
    SetGraphicsRootDescriptorTable { parameter: u32, base: u64 },
    SetComputeRootDescriptorTable { parameter: u32, base: u64 },
    /// Two consecutive 32-bit root constants.
    SetGraphicsRootConstantPair { parameter: u32, first: u32, second: u32 },
    SetGraphicsRootConstant { parameter: u32, value: u32 },
    SetComputeRootConstant { parameter: u32, value: u32 },
    DrawIndexedInstanced {
        index_count: u32,
        instance_count: u32,
        start_index: u32,
        base_vertex: u32,
        start_instance: u32,
    },
    DrawInstanced { vertex_count: u32, instance_count: u32, start_vertex: u32, start_instance: u32 },
    Dispatch { x: u32, y: u32, z: u32 },
    Close,
}

} // verus!
