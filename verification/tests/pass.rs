use hati::engine::{CompileOutput, DescriptorHeap, Engine, SerializeOutput};
use hati::gpu::{
    ClearValue, DescriptorHandle, Format, HeapType, ResourceDesc, ResourceId, ResourceOrigin,
    ResourceRecord, ViewDesc, ViewRecord,
};
use hati::pass::geometry::Geometry;
use hati::pass::lighting::{Lighting, TILE_THREADS_X, TILE_THREADS_Y};
use hati::pass::pipeline::{Pipeline, PipelineError, PipelineInputs, PipelineSettings};
use hati::pass::postprocess::PostProcess;
use hati::pass::{
    gen_root_constants_param, gen_root_descriptor_param, gen_root_table_param, DescriptorRange,
    BorderColor, ComparisonFunc, DescriptorRangeType, Filter, GraphicsPipelineDesc, InputElement,
    PassError, RootConstants, RootDescriptor, RootDescriptorType, RootParameter, ShaderSource,
    ShaderVisibility, StaticSampler, TextureAddressMode, DS_FORMAT,
};

fn compiled(bytes: &[u8]) -> CompileOutput {
    CompileOutput { code: 0, bytecode: bytes.to_vec(), diagnostics: Vec::new() }
}

fn broken(text: &str) -> CompileOutput {
    CompileOutput { code: -1, bytecode: Vec::new(), diagnostics: text.as_bytes().to_vec() }
}

fn serialized(bytes: &[u8]) -> SerializeOutput {
    SerializeOutput { code: 0, blob: bytes.to_vec(), diagnostics: None }
}

fn rejected(text: &str) -> SerializeOutput {
    SerializeOutput { code: -1, blob: Vec::new(), diagnostics: Some(text.as_bytes().to_vec()) }
}

fn heap(cpu: u64, gpu: u64, increment: u32, capacity: u32) -> DescriptorHeap {
    DescriptorHeap { start: DescriptorHandle { cpu, gpu }, increment, capacity }
}

fn engine() -> Engine {
    Engine::new(2, heap(0x1000, 0x8000_0000, 32, 2048), heap(0x9000, 0x9000_0000, 16, 128))
}

fn inputs() -> PipelineInputs {
    PipelineInputs {
        rtv_heap: heap(0x20_0000, 0, 8, 1),
        depth_heap: heap(0x30_0000, 0, 8, 1),
        geometry_vs: compiled(&[1]),
        geometry_ps: compiled(&[2]),
        geometry_signature: serialized(&[3]),
        lighting_cs: compiled(&[4]),
        lighting_signature: serialized(&[5]),
        display_map_vs: compiled(&[6]),
        display_map_ps: compiled(&[7]),
        display_map_signature: serialized(&[8]),
    }
}

fn settings(width: u32, height: u32) -> PipelineSettings {
    PipelineSettings { width, height, samples: 1 }
}

fn table(
    visibility: ShaderVisibility,
    range_type: DescriptorRangeType,
    count: u32,
    register: u32,
    space: u32,
) -> RootParameter {
    RootParameter::Table {
        visibility,
        range: DescriptorRange {
            range_type,
            num_descriptors: count,
            base_shader_register: register,
            register_space: space,
            offset_from_table_start: 0xFFFF_FFFF,
        },
    }
}

#[test]
fn root_parameters_hold_what_they_were_made_of() {
    let descriptor = RootDescriptor { shader_register: 2, register_space: 1 };
    assert_eq!(
        gen_root_descriptor_param(RootDescriptorType::Cbv, ShaderVisibility::All, descriptor),
        RootParameter::Descriptor {
            ty: RootDescriptorType::Cbv,
            visibility: ShaderVisibility::All,
            descriptor,
        }
    );
    let range = DescriptorRange {
        range_type: DescriptorRangeType::Uav,
        num_descriptors: 4,
        base_shader_register: 1,
        register_space: 3,
        offset_from_table_start: 0xFFFF_FFFF,
    };
    assert_eq!(
        gen_root_table_param(ShaderVisibility::Pixel, range),
        RootParameter::Table { visibility: ShaderVisibility::Pixel, range }
    );
    let constants = RootConstants { shader_register: 0, register_space: 2, num_32bit_values: 2 };
    assert_eq!(
        gen_root_constants_param(ShaderVisibility::Vertex, constants),
        RootParameter::Constants { visibility: ShaderVisibility::Vertex, constants }
    );
}

#[test]
fn geometry_signature_layout() {
    let desc = Geometry::root_signature();
    assert_eq!(
        desc.parameters,
        vec![
            RootParameter::Descriptor {
                ty: RootDescriptorType::Cbv,
                visibility: ShaderVisibility::All,
                descriptor: RootDescriptor { shader_register: 0, register_space: 0 },
            },
            table(ShaderVisibility::Pixel, DescriptorRangeType::Srv, 2, 0, 1),
            RootParameter::Constants {
                visibility: ShaderVisibility::Pixel,
                constants: RootConstants { shader_register: 0, register_space: 2, num_32bit_values: 2 },
            },
            RootParameter::Constants {
                visibility: ShaderVisibility::Pixel,
                constants: RootConstants { shader_register: 1, register_space: 2, num_32bit_values: 1 },
            },
        ]
    );
    assert!(desc.static_samplers.is_empty());
    assert_eq!(desc.flags, 1);
}

#[test]
fn lighting_signature_layout() {
    let desc = Lighting::root_signature();
    assert_eq!(
        desc.parameters,
        vec![
            table(ShaderVisibility::All, DescriptorRangeType::Uav, 1, 0, 3),
            table(ShaderVisibility::All, DescriptorRangeType::Srv, 1, 1, 3),
            table(ShaderVisibility::All, DescriptorRangeType::Srv, 0xFFFF_FFFF, 0, 2),
            table(ShaderVisibility::All, DescriptorRangeType::Srv, 3, 0, 1),
            RootParameter::Constants {
                visibility: ShaderVisibility::All,
                constants: RootConstants { shader_register: 0, register_space: 4, num_32bit_values: 1 },
            },
            table(ShaderVisibility::All, DescriptorRangeType::Srv, 1, 0, 4),
        ]
    );
    assert_eq!(
        desc.static_samplers,
        vec![StaticSampler {
            filter: Filter::MinMagMipLinear,
            address: TextureAddressMode::Clamp,
            border_color: BorderColor::TransparentBlack,
            shader_register: 0,
            register_space: 2,
            visibility: ShaderVisibility::All,
        }]
    );
    assert_eq!(desc.flags, 0);
    assert_eq!(TILE_THREADS_X, 16);
    assert_eq!(TILE_THREADS_Y, 16);
}

#[test]
fn display_map_signature_layout() {
    let desc = PostProcess::root_signature();
    assert_eq!(
        desc.parameters,
        vec![table(ShaderVisibility::Pixel, DescriptorRangeType::Srv, 1, 0, 0)]
    );
    assert_eq!(
        desc.static_samplers,
        vec![StaticSampler {
            filter: Filter::MinMagMipPoint,
            address: TextureAddressMode::Border,
            border_color: BorderColor::TransparentBlack,
            shader_register: 0,
            register_space: 0,
            visibility: ShaderVisibility::Pixel,
        }]
    );
    assert_eq!(desc.flags, 0);
}

#[test]
fn shader_sources() {
    assert_eq!(
        Geometry::shaders(),
        (
            ShaderSource {
                name: "geometry_vs",
                path: "shaders/geometry.hlsl",
                entry_point: "vs_main",
                target: "vs_5_1",
            },
            ShaderSource {
                name: "geometry_ps",
                path: "shaders/geometry.hlsl",
                entry_point: "ps_main",
                target: "ps_5_1",
            },
        )
    );
    assert_eq!(
        Lighting::shaders(),
        ShaderSource {
            name: "lighting_cs",
            path: "shaders/lighting.hlsl",
            entry_point: "cs_lighting",
            target: "cs_5_1",
        }
    );
    assert_eq!(
        PostProcess::shaders(),
        (
            ShaderSource {
                name: "display_map_vs",
                path: "shaders/displaymap.hlsl",
                entry_point: "vs_main",
                target: "vs_5_1",
            },
            ShaderSource {
                name: "display_map_ps",
                path: "shaders/displaymap.hlsl",
                entry_point: "ps_displaymap",
                target: "ps_5_1",
            },
        )
    );
}

#[test]
fn geometry_pass_is_built_from_its_pieces() {
    let pass = Geometry::new(compiled(&[1, 2]), compiled(&[3]), serialized(&[4, 5, 6])).unwrap();
    assert_eq!(pass.vertex_shader, vec![1, 2]);
    assert_eq!(pass.pixel_shader, vec![3]);
    assert_eq!(pass.signature, vec![4, 5, 6]);
    assert_eq!(
        pass.pipeline,
        GraphicsPipelineDesc {
            input_layout: Some(InputElement {
                semantic_name: "Attr",
                semantic_index: 0,
                format: Format::R32G32B32Float,
                input_slot: 0,
            }),
            render_target_format: Format::R16G16B16A16Uint,
            depth_stencil_format: Format::D32Float,
            depth_enable: true,
            depth_func: ComparisonFunc::Less,
        }
    );
    assert_eq!(DS_FORMAT, Format::D32Float);
}

#[test]
fn geometry_pass_fails_with_its_first_failure() {
    let vs = Geometry::new(broken("vs"), broken("ps"), rejected("sig"));
    assert_eq!(vs.err(), Some(PassError::ShaderCompile(String::from("vs"))));
    let ps = Geometry::new(compiled(&[1]), broken("ps"), rejected("sig"));
    assert_eq!(ps.err(), Some(PassError::ShaderCompile(String::from("ps"))));
    let signature = Geometry::new(compiled(&[1]), compiled(&[2]), rejected("sig"));
    assert_eq!(signature.err(), Some(PassError::RootSignature(String::from("sig"))));
}

#[test]
fn lighting_pass_is_built_or_fails_whole() {
    let pass = Lighting::new(compiled(&[9, 8]), serialized(&[7])).unwrap();
    assert_eq!(pass.pipeline, vec![9, 8]);
    assert_eq!(pass.signature, vec![7]);
    let cs = Lighting::new(broken("cs"), rejected("sig"));
    assert_eq!(cs.err(), Some(PassError::ShaderCompile(String::from("cs"))));
    let signature = Lighting::new(compiled(&[1]), rejected("sig"));
    assert_eq!(signature.err(), Some(PassError::RootSignature(String::from("sig"))));
}

#[test]
fn post_process_pass_is_built_or_fails_whole() {
    let pass = PostProcess::new(compiled(&[1]), compiled(&[2]), serialized(&[3])).unwrap();
    assert_eq!(pass.display_map.vertex_shader, vec![1]);
    assert_eq!(pass.display_map.pixel_shader, vec![2]);
    assert_eq!(pass.display_map.signature, vec![3]);
    assert_eq!(
        pass.display_map.pipeline,
        GraphicsPipelineDesc {
            input_layout: None,
            render_target_format: Format::R8G8B8A8UnormSrgb,
            depth_stencil_format: Format::Unknown,
            depth_enable: false,
            depth_func: ComparisonFunc::Less,
        }
    );
    let vs = PostProcess::new(broken("vs"), compiled(&[2]), serialized(&[3]));
    assert_eq!(vs.err(), Some(PassError::ShaderCompile(String::from("vs"))));
    let ps = PostProcess::new(compiled(&[1]), broken("ps"), serialized(&[3]));
    assert_eq!(ps.err(), Some(PassError::ShaderCompile(String::from("ps"))));
    let signature = PostProcess::new(compiled(&[1]), compiled(&[2]), rejected("sig"));
    assert_eq!(signature.err(), Some(PassError::RootSignature(String::from("sig"))));
}

#[test]
fn pipeline_creates_its_targets_and_views() {
    let mut engine = engine();
    engine.allocate_descriptors(5, 0);
    engine.create_committed_resource(HeapType::Upload, ResourceDesc::buffer(16), 0, None);
    let pipeline = Pipeline::new(&mut engine, settings(1440, 704), inputs()).unwrap();
    assert_eq!(pipeline.settings, settings(1440, 704));
    assert_eq!(pipeline.depth_target, ResourceId(1));
    assert_eq!(pipeline.geometry_buffer, ResourceId(2));
    assert_eq!(pipeline.lighting_buffer, ResourceId(3));
    assert_eq!(pipeline.srv_uav_start, 5);
    assert_eq!(pipeline.geometry_rtv_uint, 0x20_0000);
    assert_eq!(pipeline.dsv, 0x30_0000);
    assert_eq!(pipeline.geometry_srv_uint, 0x8000_0000 + 5 * 32);
    assert_eq!(pipeline.lighting_uav, 0x8000_0000 + 6 * 32);
    assert_eq!(pipeline.lighting_srv, 0x8000_0000 + 7 * 32);
    assert_eq!(pipeline.geometry.vertex_shader, vec![1]);
    assert_eq!(pipeline.geometry.pixel_shader, vec![2]);
    assert_eq!(pipeline.geometry.signature, vec![3]);
    assert_eq!(pipeline.lighting.pipeline, vec![4]);
    assert_eq!(pipeline.lighting.signature, vec![5]);
    assert_eq!(pipeline.post_process.display_map.vertex_shader, vec![6]);
    assert_eq!(pipeline.post_process.display_map.pixel_shader, vec![7]);
    assert_eq!(pipeline.post_process.display_map.signature, vec![8]);
    assert_eq!(pipeline.tiles(), (90, 44));

    assert_eq!(engine.descriptor_cursors(), (8, 0));
    assert_eq!(engine.resource_count(), 4);
    assert_eq!(
        engine.resource(ResourceId(1)),
        Some(ResourceRecord {
            origin: ResourceOrigin::Committed(HeapType::Default),
            desc: ResourceDesc::texture_2d(1440, 704, Format::D32Float, 1, 65536, 2),
            initial_state: 0x10,
            clear_value: Some(ClearValue::DepthStencil {
                format: Format::D32Float,
                depth: 0x3F80_0000,
                stencil: 0,
            }),
        })
    );
    assert_eq!(
        engine.resource(ResourceId(2)),
        Some(ResourceRecord {
            origin: ResourceOrigin::Committed(HeapType::Default),
            desc: ResourceDesc::texture_2d(1440, 704, Format::R16G16B16A16Typeless, 1, 65536, 1),
            initial_state: 0x40,
            clear_value: Some(ClearValue::Color {
                format: Format::R16G16B16A16Float,
                red: 0,
                green: 0,
                blue: 0,
                alpha: 0,
            }),
        })
    );
    assert_eq!(
        engine.resource(ResourceId(3)),
        Some(ResourceRecord {
            origin: ResourceOrigin::Committed(HeapType::Default),
            desc: ResourceDesc::texture_2d(1440, 704, Format::R16G16B16A16Typeless, 1, 65536, 4),
            initial_state: 0x80,
            clear_value: None,
        })
    );
    assert_eq!(engine.view_count(), 5);
    assert_eq!(
        engine.view(0),
        Some(ViewRecord {
            resource: ResourceId(2),
            desc: ViewDesc::Texture2DRtv { format: Format::R16G16B16A16Uint },
            slot: 0x20_0000,
        })
    );
    assert_eq!(
        engine.view(1),
        Some(ViewRecord {
            resource: ResourceId(2),
            desc: ViewDesc::Texture2DSrv { format: Format::R16G16B16A16Uint },
            slot: 0x1000 + 5 * 32,
        })
    );
    assert_eq!(
        engine.view(2),
        Some(ViewRecord {
            resource: ResourceId(3),
            desc: ViewDesc::Texture2DUav { format: Format::R16G16B16A16Float },
            slot: 0x1000 + 6 * 32,
        })
    );
    assert_eq!(
        engine.view(3),
        Some(ViewRecord {
            resource: ResourceId(3),
            desc: ViewDesc::Texture2DSrv { format: Format::R16G16B16A16Float },
            slot: 0x1000 + 7 * 32,
        })
    );
    assert_eq!(
        engine.view(4),
        Some(ViewRecord {
            resource: ResourceId(1),
            desc: ViewDesc::Texture2DDsv { format: Format::D32Float },
            slot: 0x30_0000,
        })
    );
}

fn refused(settings: PipelineSettings, inputs: PipelineInputs) -> PipelineError {
    let mut engine = engine();
    engine.allocate_descriptors(2, 1);
    let error = Pipeline::new(&mut engine, settings, inputs).err().unwrap();
    assert_eq!(engine.descriptor_cursors(), (2, 1));
    assert_eq!(engine.resource_count(), 0);
    assert_eq!(engine.view_count(), 0);
    error
}

#[test]
fn resolution_must_be_whole_tiles() {
    assert_eq!(refused(settings(1441, 704), inputs()), PipelineError::UnalignedResolution);
    assert_eq!(refused(settings(1440, 700), inputs()), PipelineError::UnalignedResolution);
    assert_eq!(refused(settings(15, 15), inputs()), PipelineError::UnalignedResolution);
    assert_eq!(refused(settings(1455, 719), inputs()), PipelineError::UnalignedResolution);
    assert_eq!(refused(settings(u32::MAX, 16), inputs()), PipelineError::UnalignedResolution);
    let mut engine = engine();
    assert!(Pipeline::new(&mut engine, settings(16, 16), inputs()).is_ok());
    let mut engine = self::engine();
    let empty = Pipeline::new(&mut engine, settings(0, 0), inputs()).unwrap();
    assert_eq!(empty.tiles(), (0, 0));
}

#[test]
fn pass_fails_where_serializing_failed_without_diagnostics() {
    let failed = SerializeOutput { code: -1, blob: vec![1, 2], diagnostics: None };
    let pass = Lighting::new(compiled(&[1]), failed);
    assert_eq!(pass.err(), Some(PassError::RootSignature(String::new())));
}

#[test]
fn pipeline_needs_its_descriptor_slots() {
    let mut no_rtv = inputs();
    no_rtv.rtv_heap = heap(0x20_0000, 0, 8, 0);
    assert_eq!(refused(settings(64, 64), no_rtv), PipelineError::ResourceCreation);
    let mut no_dsv = inputs();
    no_dsv.depth_heap = heap(u64::MAX, u64::MAX, 8, 0);
    assert_eq!(refused(settings(64, 64), no_dsv), PipelineError::ResourceCreation);
    let mut engine =
        Engine::new(2, heap(u64::MAX - 40, 0, 32, 2048), heap(0x9000, 0x9000_0000, 16, 128));
    let wrapped = Pipeline::new(&mut engine, settings(64, 64), inputs());
    assert_eq!(wrapped.err(), Some(PipelineError::ResourceCreation));
    assert_eq!(engine.descriptor_cursors(), (0, 0));
}

#[test]
fn pipeline_fails_with_the_first_pass_that_fails() {
    let mut first = inputs();
    first.geometry_ps = broken("geometry ps");
    first.lighting_cs = broken("lighting cs");
    assert_eq!(
        refused(settings(64, 64), first),
        PipelineError::Pass(PassError::ShaderCompile(String::from("geometry ps")))
    );
    let mut second = inputs();
    second.lighting_signature = rejected("lighting signature");
    second.display_map_vs = broken("display map vs");
    assert_eq!(
        refused(settings(64, 64), second),
        PipelineError::Pass(PassError::RootSignature(String::from("lighting signature")))
    );
    let mut third = inputs();
    third.display_map_signature = rejected("display map signature");
    assert_eq!(
        refused(settings(64, 64), third),
        PipelineError::Pass(PassError::RootSignature(String::from("display map signature")))
    );
    let mut settings_first = inputs();
    settings_first.geometry_vs = broken("geometry vs");
    assert_eq!(refused(settings(60, 64), settings_first), PipelineError::UnalignedResolution);
}
