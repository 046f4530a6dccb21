//! Geometry pass: rasterises the scene into the visibility buffer.

use crate::engine::{CompileOutput, SerializeOutput};
use crate::gpu::Format;
use crate::pass::{
    build_signature, build_stage, gen_root_constants_param, gen_root_descriptor_param,
    gen_root_table_param, spec_build_graphics, ComparisonFunc, DescriptorRange,
    DescriptorRangeType,
    GraphicsPipelineDesc, InputElement, PassError, PassErrorView, RootConstants, RootDescriptor,
    RootDescriptorType, RootParameter, RootSignatureDesc, ShaderSource, ShaderVisibility,
    StaticSampler, DESCRIPTOR_RANGE_OFFSET_APPEND, DS_FORMAT,
    ROOT_SIGNATURE_FLAG_ALLOW_INPUT_ASSEMBLER_INPUT_LAYOUT,
};
use vstd::prelude::*;

verus! {

/// Root parameter of the view-data constant buffer.
pub const PARAM_VIEW_DATA: u32 = 0;

/// Root parameter of the table over the scene's index and vertex buffers.
pub const PARAM_MESH_TABLE: u32 = 1;

/// Root parameter of the per-draw base index and base vertex.
pub const PARAM_DRAW_CONSTANTS: u32 = 2;

/// Root parameter of the draw identifier.
pub const PARAM_DRAW_ID: u32 = 3;

/// The geometry pass, built.
pub struct Geometry {
    /// The serialised binding signature.
    pub signature: Vec<u8>,
    /// The pipeline state.
    pub pipeline: GraphicsPipelineDesc,
    pub vertex_shader: Vec<u8>,
    pub pixel_shader: Vec<u8>,
}

impl Geometry {
    /// The parameters of the binding signature, in order: the view data, the
    /// table over the index and vertex buffers, the per-draw base index and
    /// base vertex, and the draw identifier.
    pub open spec fn spec_parameters() -> Seq<RootParameter> {
        seq![
            RootParameter::Descriptor {
                ty: RootDescriptorType::Cbv,
                visibility: ShaderVisibility::All,
                descriptor: RootDescriptor { shader_register: 0, register_space: 0 },
            },
            RootParameter::Table {
                visibility: ShaderVisibility::Pixel,
                range: DescriptorRange {
                    range_type: DescriptorRangeType::Srv,
                    num_descriptors: 2,
                    base_shader_register: 0,
                    register_space: 1,
                    offset_from_table_start: DESCRIPTOR_RANGE_OFFSET_APPEND,
                },
            },
            RootParameter::Constants {
                visibility: ShaderVisibility::Pixel,
                constants: RootConstants {
                    shader_register: 0,
                    register_space: 2,
                    num_32bit_values: 2,
                },
            },
            RootParameter::Constants {
                visibility: ShaderVisibility::Pixel,
                constants: RootConstants {
                    shader_register: 1,
                    register_space: 2,
                    num_32bit_values: 1,
                },
            },
        ]
    }

    /// The pipeline state: positions as three floats per vertex, the
    /// visibility buffer as render target, depth tested so that the nearer
    /// fragment wins, and written.
    pub open spec fn spec_pipeline() -> GraphicsPipelineDesc {
        GraphicsPipelineDesc {
            input_layout: Some(
                InputElement {
                    semantic_name: "Attr",
                    semantic_index: 0,
                    format: Format::R32G32B32Float,
                    input_slot: 0,
                },
            ),
            render_target_format: Format::R16G16B16A16Uint,
            depth_stencil_format: DS_FORMAT,
            depth_enable: true,
            depth_func: ComparisonFunc::Less,
        }
    }

    /// The vertex shader and the pixel shader to compile.
    pub fn shaders() -> (sources: (ShaderSource, ShaderSource))
        ensures
            sources.0 == (ShaderSource {
                name: "geometry_vs",
                path: "shaders/geometry.hlsl",
                entry_point: "vs_main",
                target: "vs_5_1",
            }),
            sources.1 == (ShaderSource {
                name: "geometry_ps",
                path: "shaders/geometry.hlsl",
                entry_point: "ps_main",
                target: "ps_5_1",
            }),
    {
        (
            ShaderSource {
                name: "geometry_vs",
                path: "shaders/geometry.hlsl",
                entry_point: "vs_main",
                target: "vs_5_1",
            },
            ShaderSource {
                name: "geometry_ps",
                path: "shaders/geometry.hlsl",
                entry_point: "ps_main",
                target: "ps_5_1",
            },
        )
    }

    /// The layout of the binding signature. The input assembler reads a
    /// vertex buffer; there is no static sampler.
    pub fn root_signature() -> (desc: RootSignatureDesc)
        ensures
            desc.parameters@ == Self::spec_parameters(),
            desc.static_samplers@ == Seq::<StaticSampler>::empty(),
            desc.flags == ROOT_SIGNATURE_FLAG_ALLOW_INPUT_ASSEMBLER_INPUT_LAYOUT,
    {
        let table_data = DescriptorRange {
            range_type: DescriptorRangeType::Srv,
            num_descriptors: 2,
            base_shader_register: 0,
            register_space: 1,
            offset_from_table_start: DESCRIPTOR_RANGE_OFFSET_APPEND,
        };
        let mut parameters: Vec<RootParameter> = Vec::new();
        parameters.push(
            gen_root_descriptor_param(
                RootDescriptorType::Cbv,
                ShaderVisibility::All,
                RootDescriptor { shader_register: 0, register_space: 0 },
            ),
        );
        parameters.push(gen_root_table_param(ShaderVisibility::Pixel, table_data));
        parameters.push(
            gen_root_constants_param(
                ShaderVisibility::Pixel,
                RootConstants { shader_register: 0, register_space: 2, num_32bit_values: 2 },
            ),
        );
        parameters.push(
            gen_root_constants_param(
                ShaderVisibility::Pixel,
                RootConstants { shader_register: 1, register_space: 2, num_32bit_values: 1 },
            ),
        );
        assert(parameters@ =~= Self::spec_parameters());
        RootSignatureDesc {
            parameters,
            static_samplers: Vec::new(),
            flags: ROOT_SIGNATURE_FLAG_ALLOW_INPUT_ASSEMBLER_INPUT_LAYOUT,
        }
    }

    /// Builds the pass from what compiling its two shaders and serialising its
    /// signature handed back. Either everything succeeded and the pass is
    /// ready, or the first failure is returned and nothing is built.
    pub fn new(vs: CompileOutput, ps: CompileOutput, signature: SerializeOutput) -> (pass: Result<
        Geometry,
        PassError,
    >)
        ensures
            match pass {
                Ok(geometry) => {
                    &&& spec_build_graphics(vs, ps, signature) == Ok::<
                        (Seq<u8>, Seq<u8>, Seq<u8>),
                        PassErrorView,
                    >((geometry.vertex_shader@, geometry.pixel_shader@, geometry.signature@))
                    &&& geometry.pipeline == Self::spec_pipeline()
                },
                Err(error) => spec_build_graphics(vs, ps, signature) == Err::<
                    (Seq<u8>, Seq<u8>, Seq<u8>),
                    PassErrorView,
                >(error@),
            },
    {
        let vertex_shader = match build_stage(vs) {
            Ok(bytecode) => bytecode,
            Err(error) => {
                return Err(error);
            },
        };
        let pixel_shader = match build_stage(ps) {
            Ok(bytecode) => bytecode,
            Err(error) => {
                return Err(error);
            },
        };
        let signature = match build_signature(signature) {
            Ok(blob) => blob,
            Err(error) => {
                return Err(error);
            },
        };
        let pipeline = GraphicsPipelineDesc {
            input_layout: Some(
                InputElement {
                    semantic_name: "Attr",
                    semantic_index: 0,
                    format: Format::R32G32B32Float,
                    input_slot: 0,
                },
            ),
            render_target_format: Format::R16G16B16A16Uint,
            depth_stencil_format: DS_FORMAT,
            depth_enable: true,
            depth_func: ComparisonFunc::Less,
        };
        Ok(Geometry { signature, pipeline, vertex_shader, pixel_shader })
    }
}

} // verus!
