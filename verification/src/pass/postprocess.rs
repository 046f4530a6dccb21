//! Post-processing: maps the lit image to the display's colour space with one
//! fullscreen triangle.

use crate::engine::{CompileOutput, SerializeOutput};
use crate::gpu::Format;
use crate::pass::{
    build_signature, build_stage, gen_root_table_param, spec_build_graphics, BorderColor,
    ComparisonFunc, DescriptorRange, DescriptorRangeType, Filter, GraphicsPipelineDesc, PassError,
    PassErrorView, RootParameter, RootSignatureDesc, ShaderSource, ShaderVisibility,
    StaticSampler, TextureAddressMode, DESCRIPTOR_RANGE_OFFSET_APPEND, ROOT_SIGNATURE_FLAG_NONE,
};
use vstd::prelude::*;

verus! {

/// Root parameter of the lit image.
pub const PARAM_LIT_IMAGE: u32 = 0;

/// Vertices of the fullscreen triangle.
pub const FULLSCREEN_TRIANGLE_VERTICES: u32 = 3;

/// The display-mapping step, built.
pub struct DisplayMap {
    /// The serialised binding signature.
    pub signature: Vec<u8>,
    /// The pipeline state.
    pub pipeline: GraphicsPipelineDesc,
    pub vertex_shader: Vec<u8>,
    pub pixel_shader: Vec<u8>,
}

/// The post-processing pass, built.
pub struct PostProcess {
    pub display_map: DisplayMap,
}

impl PostProcess {
    /// The one parameter of the binding signature: the lit image.
    pub open spec fn spec_parameters() -> Seq<RootParameter> {
        seq![
            RootParameter::Table {
                visibility: ShaderVisibility::Pixel,
                range: DescriptorRange {
                    range_type: DescriptorRangeType::Srv,
                    num_descriptors: 1,
                    base_shader_register: 0,
                    register_space: 0,
                    offset_from_table_start: DESCRIPTOR_RANGE_OFFSET_APPEND,
                },
            },
        ]
    }

    /// The sampler the lit image is read with: the nearest texel, and the
    /// transparent black border outside the image.
    pub open spec fn spec_static_samplers() -> Seq<StaticSampler> {
        seq![
            StaticSampler {
                filter: Filter::MinMagMipPoint,
                address: TextureAddressMode::Border,
                border_color: BorderColor::TransparentBlack,
                shader_register: 0,
                register_space: 0,
                visibility: ShaderVisibility::Pixel,
            },
        ]
    }

    /// The pipeline state: no vertex buffer, no depth target, the back buffer
    /// in display colour space as render target.
    pub open spec fn spec_pipeline() -> GraphicsPipelineDesc {
        GraphicsPipelineDesc {
            input_layout: None,
            render_target_format: Format::R8G8B8A8UnormSrgb,
            depth_stencil_format: Format::Unknown,
            depth_enable: false,
            depth_func: ComparisonFunc::Less,
        }
    }

    /// The vertex shader and the pixel shader to compile.
    pub fn shaders() -> (sources: (ShaderSource, ShaderSource))
        ensures
            sources.0 == (ShaderSource {
                name: "display_map_vs",
                path: "shaders/displaymap.hlsl",
                entry_point: "vs_main",
                target: "vs_5_1",
            }),
            sources.1 == (ShaderSource {
                name: "display_map_ps",
                path: "shaders/displaymap.hlsl",
                entry_point: "ps_displaymap",
                target: "ps_5_1",
            }),
    {
        (
            ShaderSource {
                name: "display_map_vs",
                path: "shaders/displaymap.hlsl",
                entry_point: "vs_main",
                target: "vs_5_1",
            },
            ShaderSource {
                name: "display_map_ps",
                path: "shaders/displaymap.hlsl",
                entry_point: "ps_displaymap",
                target: "ps_5_1",
            },
        )
    }

    /// The layout of the binding signature.
    pub fn root_signature() -> (desc: RootSignatureDesc)
        ensures
            desc.parameters@ == Self::spec_parameters(),
            desc.static_samplers@ == Self::spec_static_samplers(),
            desc.flags == ROOT_SIGNATURE_FLAG_NONE,
    {
        let table_input = DescriptorRange {
            range_type: DescriptorRangeType::Srv,
            num_descriptors: 1,
            base_shader_register: 0,
            register_space: 0,
            offset_from_table_start: DESCRIPTOR_RANGE_OFFSET_APPEND,
        };
        let mut parameters: Vec<RootParameter> = Vec::new();
        parameters.push(gen_root_table_param(ShaderVisibility::Pixel, table_input));
        let mut static_samplers: Vec<StaticSampler> = Vec::new();
        static_samplers.push(
            StaticSampler {
                filter: Filter::MinMagMipPoint,
                address: TextureAddressMode::Border,
                border_color: BorderColor::TransparentBlack,
                shader_register: 0,
                register_space: 0,
                visibility: ShaderVisibility::Pixel,
            },
        );
        assert(parameters@ =~= Self::spec_parameters());
        assert(static_samplers@ =~= Self::spec_static_samplers());
        RootSignatureDesc { parameters, static_samplers, flags: ROOT_SIGNATURE_FLAG_NONE }
    }

    /// Builds the pass from what compiling its two shaders and serialising its
    /// signature handed back. Either everything succeeded and the pass is
    /// ready, or the first failure is returned and nothing is built.
    pub fn new(vs: CompileOutput, ps: CompileOutput, signature: SerializeOutput) -> (pass: Result<
        PostProcess,
        PassError,
    >)
        ensures
            match pass {
                Ok(post_process) => {
                    &&& spec_build_graphics(vs, ps, signature) == Ok::<
                        (Seq<u8>, Seq<u8>, Seq<u8>),
                        PassErrorView,
                    >(
                        (
                            post_process.display_map.vertex_shader@,
                            post_process.display_map.pixel_shader@,
                            post_process.display_map.signature@,
                        ),
                    )
                    &&& post_process.display_map.pipeline == Self::spec_pipeline()
                },
                Err(error) => spec_build_graphics(vs, ps, signature) == Err::<
                    (Seq<u8>, Seq<u8>, Seq<u8>),
                    PassErrorView,
                >(error@),
            },
    {
        let vertex_shader = match build_stage(vs) {
            Ok(bytecode) => bytecode,
            Err(error) => {
                return Err(error);
            },
        };
        let pixel_shader = match build_stage(ps) {
            Ok(bytecode) => bytecode,
            Err(error) => {
                return Err(error);
            },
        };
        let signature = match build_signature(signature) {
            Ok(blob) => blob,
            Err(error) => {
                return Err(error);
            },
        };
        let pipeline = GraphicsPipelineDesc {
            input_layout: None,
            render_target_format: Format::R8G8B8A8UnormSrgb,
            depth_stencil_format: Format::Unknown,
            depth_enable: false,
            depth_func: ComparisonFunc::Less,
        };
        Ok(PostProcess { display_map: DisplayMap { signature, pipeline, vertex_shader, pixel_shader } })
    }
}

} // verus!
