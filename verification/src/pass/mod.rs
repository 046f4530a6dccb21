//! The three render passes and the pieces their binding signatures and
//! pipeline states are described with.

use crate::engine::{CompileOutput, Engine, SerializeOutput};
use crate::gpu::Format;
use vstd::prelude::*;

pub mod geometry;
pub mod lighting;
pub mod pipeline;
pub mod postprocess;

verus! {

/// Format of the depth target.
pub const DS_FORMAT: Format = Format::D32Float;

/// A range placed directly behind the range before it.
pub const DESCRIPTOR_RANGE_OFFSET_APPEND: u32 = 0xFFFF_FFFF;

/// A range without an upper bound.
pub const UNBOUNDED_DESCRIPTORS: u32 = 0xFFFF_FFFF;

pub const ROOT_SIGNATURE_FLAG_NONE: u32 = 0x0;

pub const ROOT_SIGNATURE_FLAG_ALLOW_INPUT_ASSEMBLER_INPUT_LAYOUT: u32 = 0x1;

#[derive(Clone, Copy, Debug, PartialEq, Eq, Structural)]
pub enum ShaderVisibility {
    All,
    Vertex,
    Pixel,
}

#[derive(Clone, Copy, Debug, PartialEq, Eq, Structural)]
pub enum DescriptorRangeType {
    Srv,
    Uav,
    Cbv,
    Sampler,
}

#[derive(Clone, Copy, Debug, PartialEq, Eq, Structural)]
pub enum RootDescriptorType {
    Cbv,
    Srv,
    Uav,
}

/// A run of descriptors of one kind in a descriptor table.
#[derive(Clone, Copy, Debug, PartialEq, Eq, Structural)]
pub struct DescriptorRange {
    pub range_type: DescriptorRangeType,
    pub num_descriptors: u32,
    pub base_shader_register: u32,
    pub register_space: u32,
    pub offset_from_table_start: u32,
}

/// The register a root descriptor is bound to.
#[derive(Clone, Copy, Debug, PartialEq, Eq, Structural)]
pub struct RootDescriptor {
    pub shader_register: u32,
    pub register_space: u32,
}

/// A block of 32-bit constants in the root signature.
#[derive(Clone, Copy, Debug, PartialEq, Eq, Structural)]
pub struct RootConstants {
    pub shader_register: u32,
    pub register_space: u32,
    pub num_32bit_values: u32,
}

/// One parameter of a binding signature.
#[derive(Clone, Copy, Debug, PartialEq, Eq, Structural)]
pub enum RootParameter {
    /// A descriptor bound directly.
    Descriptor { ty: RootDescriptorType, visibility: ShaderVisibility, descriptor: RootDescriptor },
    /// A descriptor table of one range.
    Table { visibility: ShaderVisibility, range: DescriptorRange },
    /// Constants bound directly.
    Constants { visibility: ShaderVisibility, constants: RootConstants },
}

#[derive(Clone, Copy, Debug, PartialEq, Eq, Structural)]
pub enum Filter {
    /// Nearest texel, nearest mip level.
    MinMagMipPoint,
    /// Linear between texels and between mip levels.
    MinMagMipLinear,
}

/// What a sampler reads for coordinates outside the texture.
#[derive(Clone, Copy, Debug, PartialEq, Eq, Structural)]
pub enum TextureAddressMode {
    /// The texel at the nearest edge.
    Clamp,
    /// The border colour.
    Border,
}

/// The colour a sampler reads outside the texture where it addresses the
/// border.
#[derive(Clone, Copy, Debug, PartialEq, Eq, Structural)]
pub enum BorderColor {
    TransparentBlack,
}

/// How two depths are compared.
#[derive(Clone, Copy, Debug, PartialEq, Eq, Structural)]
pub enum ComparisonFunc {
    /// The nearer fragment wins.
    Less,
    /// Every fragment wins.
    Always,
}

/// A sampler compiled into the signature. It addresses all three coordinates
/// alike, never compares, and uses every mip level.
#[derive(Clone, Copy, Debug, PartialEq, Eq, Structural)]
pub struct StaticSampler {
    pub filter: Filter,
    pub address: TextureAddressMode,
    pub border_color: BorderColor,
    pub shader_register: u32,
    pub register_space: u32,
    pub visibility: ShaderVisibility,
}

/// The layout of resource bindings a pipeline expects.
pub struct RootSignatureDesc {
    pub parameters: Vec<RootParameter>,
    pub static_samplers: Vec<StaticSampler>,
    pub flags: u32,
}

/// One shader to compile: a name for diagnostics, the source file, the entry
/// point and the target profile.
#[derive(Clone, Copy, Debug, PartialEq, Eq)]
pub struct ShaderSource {
    pub name: &'static str,
    pub path: &'static str,
    pub entry_point: &'static str,
    pub target: &'static str,
}

/// One vertex attribute read from a vertex buffer, tightly packed, once per
/// vertex.
#[derive(Clone, Copy, Debug, PartialEq, Eq)]
pub struct InputElement {
    pub semantic_name: &'static str,
    pub semantic_index: u32,
    pub format: Format,
    pub input_slot: u32,
}

/// What distinguishes the graphics pipeline states of the renderer. All of them
/// draw solid triangles without culling or blending, counter-clockwise front
/// faces, depth clipping on, one sample per pixel, to one render target.
#[derive(Clone, Copy, Debug, PartialEq, Eq)]
pub struct GraphicsPipelineDesc {
    pub input_layout: Option<InputElement>,
    pub render_target_format: Format,
    /// Format of the depth target, `Unknown` where none is bound.
    pub depth_stencil_format: Format,
    /// Whether fragments are tested against the depth target and written to
    /// it.
    pub depth_enable: bool,
    /// How a fragment's depth is compared with the depth target's.
    pub depth_func: ComparisonFunc,
}

/// Why a pass could not be built.
#[derive(Debug, PartialEq, Eq)]
pub enum PassError {
    /// A shader did not compile; the compiler's diagnostic text.
    ShaderCompile(String),
    /// The binding-signature layout did not serialise; the serialiser's
    /// diagnostic text.
    RootSignature(String),
}

/// A root parameter that binds one descriptor directly.
pub fn gen_root_descriptor_param(
    ty: RootDescriptorType,
    visibility: ShaderVisibility,
    descriptor: RootDescriptor,
) -> (parameter: RootParameter)
    ensures
        parameter == (RootParameter::Descriptor { ty, visibility, descriptor }),
{
    RootParameter::Descriptor { ty, visibility, descriptor }
}

/// A root parameter that binds a descriptor table of one range.
pub fn gen_root_table_param(visibility: ShaderVisibility, table: DescriptorRange) -> (parameter:
    RootParameter)
    ensures
        parameter == (RootParameter::Table { visibility, range: table }),
{
    RootParameter::Table { visibility, range: table }
}

/// A root parameter that binds 32-bit constants.
pub fn gen_root_constants_param(visibility: ShaderVisibility, constants: RootConstants) -> (parameter:
    RootParameter)
    ensures
        parameter == (RootParameter::Constants { visibility, constants }),
{
    RootParameter::Constants { visibility, constants }
}

/// A pass error with its text as a sequence of characters.
pub enum PassErrorView {
    ShaderCompile(Seq<char>),
    RootSignature(Seq<char>),
}

impl View for PassError {
    type V = PassErrorView;

    open spec fn view(&self) -> PassErrorView {
        match self {
            PassError::ShaderCompile(message) => PassErrorView::ShaderCompile(message@),
            PassError::RootSignature(message) => PassErrorView::RootSignature(message@),
        }
    }
}

/// What building a shader stage yields: the bytecode on success, else the
/// compiler's diagnostic text as a compile error.
pub open spec fn spec_stage(output: CompileOutput) -> Result<Seq<u8>, PassErrorView> {
    if crate::engine::spec_succeeded(output.code) {
        Ok(output.bytecode@)
    } else {
        Err(PassErrorView::ShaderCompile(crate::engine::utf8_lossy(output.diagnostics@)))
    }
}

/// What serialising a signature yields: the blob where serialising succeeded,
/// else the serialiser's diagnostic text as a signature error.
pub open spec fn spec_signature(output: SerializeOutput) -> Result<Seq<u8>, PassErrorView> {
    if crate::engine::spec_serialized(output) {
        Ok(output.blob@)
    } else {
        Err(
            PassErrorView::RootSignature(
                crate::engine::utf8_lossy(crate::engine::spec_serializer_diagnostics(output)),
            ),
        )
    }
}

/// Builds one shader stage of a pass.
pub fn build_stage(output: CompileOutput) -> (stage: Result<Vec<u8>, PassError>)
    ensures
        match stage {
            Ok(bytecode) => spec_stage(output) == Ok::<Seq<u8>, PassErrorView>(bytecode@),
            Err(error) => spec_stage(output) == Err::<Seq<u8>, PassErrorView>(error@),
        },
{
    match Engine::create_shader(output) {
        Ok(bytecode) => Ok(bytecode),
        Err(message) => Err(PassError::ShaderCompile(message)),
    }
}

/// Builds the signature of a pass.
pub fn build_signature(output: SerializeOutput) -> (signature: Result<Vec<u8>, PassError>)
    ensures
        match signature {
            Ok(blob) => spec_signature(output) == Ok::<Seq<u8>, PassErrorView>(blob@),
            Err(error) => spec_signature(output) == Err::<Seq<u8>, PassErrorView>(error@),
        },
{
    match Engine::create_root_signature(output) {
        Ok(blob) => Ok(blob),
        Err(message) => Err(PassError::RootSignature(message)),
    }
}

/// What building a pass of two shader stages and a signature yields: the two
/// bytecodes and the blob, or the first failure in that order.
pub open spec fn spec_build_graphics(
    vs: CompileOutput,
    ps: CompileOutput,
    signature: SerializeOutput,
) -> Result<(Seq<u8>, Seq<u8>, Seq<u8>), PassErrorView> {
    match spec_stage(vs) {
        Err(error) => Err(error),
        Ok(vertex) => match spec_stage(ps) {
            Err(error) => Err(error),
            Ok(pixel) => match spec_signature(signature) {
                Err(error) => Err(error),
                Ok(blob) => Ok((vertex, pixel, blob)),
            },
        },
    }
}

/// What building a pass of one compute stage and a signature yields: the
/// bytecode and the blob, or the first failure in that order.
pub open spec fn spec_build_compute(cs: CompileOutput, signature: SerializeOutput) -> Result<
    (Seq<u8>, Seq<u8>),
    PassErrorView,
> {
    match spec_stage(cs) {
        Err(error) => Err(error),
        Ok(compute) => match spec_signature(signature) {
            Err(error) => Err(error),
            Ok(blob) => Ok((compute, blob)),
        },
    }
}

} // verus!
