//! Lighting pass: a compute pass that shades the visibility buffer tile by
//! tile.

use crate::engine::{CompileOutput, SerializeOutput};
use crate::pass::{
    build_signature, build_stage, gen_root_constants_param, gen_root_table_param,
    spec_build_compute, BorderColor, DescriptorRange, DescriptorRangeType, Filter, PassError,
    PassErrorView, RootConstants, RootParameter, RootSignatureDesc, ShaderSource,
    ShaderVisibility, StaticSampler, TextureAddressMode, DESCRIPTOR_RANGE_OFFSET_APPEND,
    ROOT_SIGNATURE_FLAG_NONE, UNBOUNDED_DESCRIPTORS,
};
use vstd::prelude::*;

verus! {

/// Threads of a compute tile along x. Matches the thread count in the shader.
pub const TILE_THREADS_X: u32 = 16;

/// Threads of a compute tile along y. Matches the thread count in the shader.
pub const TILE_THREADS_Y: u32 = 16;

/// Bytes of one point light in the light buffer.
pub const POINT_LIGHT_SIZE: u32 = 16;

/// Root parameter of the lighting output.
pub const PARAM_LIGHTING_UAV: u32 = 0;

/// Root parameter of the visibility buffer.
pub const PARAM_VISIBILITY: u32 = 1;

/// Root parameter of the table of scene textures.
pub const PARAM_TEXTURES: u32 = 2;

/// Root parameter of the table over index buffer, vertex buffer and draw data.
pub const PARAM_DRAW_BUFFERS: u32 = 3;

/// Root parameter of the light constants.
pub const PARAM_LIGHT_DATA: u32 = 4;

/// Root parameter of the point-light buffer.
pub const PARAM_POINT_LIGHTS: u32 = 5;

/// Number of buffers behind [`PARAM_DRAW_BUFFERS`].
pub const NUM_DRAW_BUFFERS: u32 = 3;

/// Constants of the lighting pass.
#[derive(Clone, Copy, Debug, PartialEq, Eq, Structural)]
pub struct LightData {
    pub num_point_lights: u32,
}

/// One point light as the shader reads it: position and intensity, each a
/// single-precision bit pattern.
#[derive(Clone, Copy, Debug, PartialEq, Eq)]
pub struct PointLight {
    pub position: [u32; 3],
    pub intensity: u32,
}

/// The lighting pass, built.
pub struct Lighting {
    /// The serialised binding signature.
    pub signature: Vec<u8>,
    /// The compute shader the pipeline state consists of.
    pub pipeline: Vec<u8>,
}

/// A table of `count` descriptors of one kind.
pub open spec fn spec_table(
    range_type: DescriptorRangeType,
    count: u32,
    register: u32,
    space: u32,
) -> RootParameter {
    RootParameter::Table {
        visibility: ShaderVisibility::All,
        range: DescriptorRange {
            range_type,
            num_descriptors: count,
            base_shader_register: register,
            register_space: space,
            offset_from_table_start: DESCRIPTOR_RANGE_OFFSET_APPEND,
        },
    }
}

fn table(range_type: DescriptorRangeType, count: u32, register: u32, space: u32) -> (parameter:
    RootParameter)
    ensures
        parameter == spec_table(range_type, count, register, space),
{
    gen_root_table_param(
        ShaderVisibility::All,
        DescriptorRange {
            range_type,
            num_descriptors: count,
            base_shader_register: register,
            register_space: space,
            offset_from_table_start: DESCRIPTOR_RANGE_OFFSET_APPEND,
        },
    )
}

impl Lighting {
    /// The parameters of the binding signature, in order: the lighting output,
    /// the visibility buffer, all scene textures, the three draw buffers, the
    /// light constants and the point-light buffer.
    pub open spec fn spec_parameters() -> Seq<RootParameter> {
        seq![
            spec_table(DescriptorRangeType::Uav, 1, 0, 3),
            spec_table(DescriptorRangeType::Srv, 1, 1, 3),
            spec_table(DescriptorRangeType::Srv, UNBOUNDED_DESCRIPTORS, 0, 2),
            spec_table(DescriptorRangeType::Srv, NUM_DRAW_BUFFERS, 0, 1),
            RootParameter::Constants {
                visibility: ShaderVisibility::All,
                constants: RootConstants {
                    shader_register: 0,
                    register_space: 4,
                    num_32bit_values: 1,
                },
            },
            spec_table(DescriptorRangeType::Srv, 1, 0, 4),
        ]
    }

    /// The sampler scene textures are read with: linear, clamped to the edge.
    pub open spec fn spec_static_samplers() -> Seq<StaticSampler> {
        seq![
            StaticSampler {
                filter: Filter::MinMagMipLinear,
                address: TextureAddressMode::Clamp,
                border_color: BorderColor::TransparentBlack,
                shader_register: 0,
                register_space: 2,
                visibility: ShaderVisibility::All,
            },
        ]
    }

    /// The compute shader to compile.
    pub fn shaders() -> (source: ShaderSource)
        ensures
            source == (ShaderSource {
                name: "lighting_cs",
                path: "shaders/lighting.hlsl",
                entry_point: "cs_lighting",
                target: "cs_5_1",
            }),
    {
        ShaderSource {
            name: "lighting_cs",
            path: "shaders/lighting.hlsl",
            entry_point: "cs_lighting",
            target: "cs_5_1",
        }
    }

    /// The layout of the binding signature.
    pub fn root_signature() -> (desc: RootSignatureDesc)
        ensures
            desc.parameters@ == Self::spec_parameters(),
            desc.static_samplers@ == Self::spec_static_samplers(),
            desc.flags == ROOT_SIGNATURE_FLAG_NONE,
    {
        let mut parameters: Vec<RootParameter> = Vec::new();
        parameters.push(table(DescriptorRangeType::Uav, 1, 0, 3));
        parameters.push(table(DescriptorRangeType::Srv, 1, 1, 3));
        parameters.push(table(DescriptorRangeType::Srv, UNBOUNDED_DESCRIPTORS, 0, 2));
        parameters.push(table(DescriptorRangeType::Srv, NUM_DRAW_BUFFERS, 0, 1));
        parameters.push(
            gen_root_constants_param(
                ShaderVisibility::All,
                RootConstants { shader_register: 0, register_space: 4, num_32bit_values: 1 },
            ),
        );
        parameters.push(table(DescriptorRangeType::Srv, 1, 0, 4));
        let mut static_samplers: Vec<StaticSampler> = Vec::new();
        static_samplers.push(
            StaticSampler {
                filter: Filter::MinMagMipLinear,
                address: TextureAddressMode::Clamp,
                border_color: BorderColor::TransparentBlack,
                shader_register: 0,
                register_space: 2,
                visibility: ShaderVisibility::All,
            },
        );
        assert(parameters@ =~= Self::spec_parameters());
        assert(static_samplers@ =~= Self::spec_static_samplers());
        RootSignatureDesc { parameters, static_samplers, flags: ROOT_SIGNATURE_FLAG_NONE }
    }

    /// Builds the pass from what compiling its shader and serialising its
    /// signature handed back. Either both succeeded and the pass is ready, or
    /// the first failure is returned and nothing is built.
    pub fn new(cs: CompileOutput, signature: SerializeOutput) -> (pass: Result<Lighting, PassError>)
        ensures
            match pass {
                Ok(lighting) => spec_build_compute(cs, signature) == Ok::<
                    (Seq<u8>, Seq<u8>),
                    PassErrorView,
                >((lighting.pipeline@, lighting.signature@)),
                Err(error) => spec_build_compute(cs, signature) == Err::<
                    (Seq<u8>, Seq<u8>),
                    PassErrorView,
                >(error@),
            },
    {
        let pipeline = match build_stage(cs) {
            Ok(bytecode) => bytecode,
            Err(error) => {
                return Err(error);
            },
        };
        let signature = match build_signature(signature) {
            Ok(blob) => blob,
            Err(error) => {
                return Err(error);
            },
        };
        Ok(Lighting { signature, pipeline })
    }
}

} // verus!
