use hati::binding::{track_bindings, Bound};
use hati::engine::{CommandList, CompileOutput, DescriptorHeap, Engine, SerializeOutput};
use hati::frame::{
    geometries_fit, prepare_frame, record_frame, track_states, FrameInputs, FrameTargets,
    RecordError, TargetStates,
};
use hati::gpu::{Command, DescriptorHandle, Format, PassKind, ResourceBarrier, ResourceId};
use hati::pass::pipeline::{Pipeline, PipelineInputs, PipelineSettings};
use hati::scene::geometry::{Geometry, Instance, VertexPos};
use hati::scene::loader::SceneLoader;
use hati::scene::source::{LightSource, Node, SceneSource, SubMesh};
use hati::scene::transform::LocalTransform;
use hati::scene::Scene;
use hati::swapchain::Swapchain;
use hati::sync::{FrameSync, ViewData, ViewDataRing};

const ONE: u32 = 0x3F80_0000;
const IDENTITY: [[u32; 4]; 4] = [[ONE, 0, 0, 0], [0, ONE, 0, 0], [0, 0, ONE, 0], [0, 0, 0, ONE]];

const STEADY: TargetStates = TargetStates { present: 0, geometry: 0x40, lighting: 0x80, depth: 0x10 };

fn heap(cpu: u64, gpu: u64, increment: u32, capacity: u32) -> DescriptorHeap {
    DescriptorHeap { start: DescriptorHandle { cpu, gpu }, increment, capacity }
}

fn compiled(byte: u8) -> CompileOutput {
    CompileOutput { code: 0, bytecode: vec![byte], diagnostics: Vec::new() }
}

fn serialized(byte: u8) -> SerializeOutput {
    SerializeOutput { code: 0, blob: vec![byte], diagnostics: None }
}

fn open_list(engine: &Engine) -> CommandList {
    let mut list = engine.create_command_list();
    list.reset();
    list
}

struct Renderer {
    engine: Engine,
    swapchain: Swapchain,
    pipeline: Pipeline,
    scene: Scene,
}

fn renderer(width: u32, height: u32, source: &SceneSource, lights: &Vec<LightSource>) -> Renderer {
    let mut engine =
        Engine::new(2, heap(0x1000, 0x8000_0000, 32, 2048), heap(0x9000, 0x9000_0000, 16, 128));
    let swapchain = engine.create_swapchain(width, height, heap(0x4000, 0, 24, 2)).unwrap();
    let inputs = PipelineInputs {
        rtv_heap: heap(0x20_0000, 0, 8, 1),
        depth_heap: heap(0x30_0000, 0, 8, 1),
        geometry_vs: compiled(1),
        geometry_ps: compiled(2),
        geometry_signature: serialized(3),
        lighting_cs: compiled(4),
        lighting_signature: serialized(5),
        display_map_vs: compiled(6),
        display_map_ps: compiled(7),
        display_map_signature: serialized(8),
    };
    let settings = PipelineSettings { width, height, samples: 1 };
    let pipeline = Pipeline::new(&mut engine, settings, inputs).unwrap();
    let mut scene = Scene::new();
    let mut loader = SceneLoader::new(&mut scene);
    loader.set_upload_list(open_list(&engine));
    loader.load_hati_scene(&mut scene, &mut engine, lights, source).unwrap();
    Renderer { engine, swapchain, pipeline, scene }
}

fn triangle() -> SceneSource {
    SceneSource {
        meshes: vec![SubMesh {
            vertices: vec![VertexPos([0, 0, 0]), VertexPos([ONE, 0, 0]), VertexPos([0, ONE, 0])],
            faces: vec![[0, 1, 2]],
        }],
        nodes: vec![Node { transform: IDENTITY, meshes: vec![0], parent: None }],
    }
}

fn one_light() -> Vec<LightSource> {
    vec![LightSource { intensity: 0x447A_0000, transform: IDENTITY }]
}

fn transition(resource: usize, before: u32, after: u32) -> Command {
    Command::ResourceBarrier(ResourceBarrier::Transition {
        resource: ResourceId(resource),
        subresource: 0xFFFF_FFFF,
        before,
        after,
        flags: 0,
    })
}

fn targets(renderer: &Renderer, present: ResourceId) -> FrameTargets {
    FrameTargets {
        present,
        geometry: renderer.pipeline.geometry_buffer,
        lighting: renderer.pipeline.lighting_buffer,
        depth: renderer.pipeline.depth_target,
    }
}

#[test]
fn first_frame_of_a_triangle_and_a_light() {
    let renderer = renderer(1440, 704, &triangle(), &one_light());
    let mut sync = FrameSync::new(renderer.engine.frame_latency()).unwrap();
    let mut ring = ViewDataRing::new(2, ViewData { view: [0; 16], proj: [0; 16], position: [0; 4] }).unwrap();

    assert_eq!(sync.wait_target(), None);
    let slot = sync.begin_frame(0).unwrap();
    assert_eq!(slot, 0);
    let frame = renderer.swapchain.begin_frame(1).unwrap();
    let (present_target, present_rtv) = renderer.swapchain.get_render_target(frame);
    assert_eq!((present_target, present_rtv), (ResourceId(1), 0x4018));
    let view = ViewData { view: [1; 16], proj: [2; 16], position: [3; 4] };
    ring.write(sync.tick(), view);

    let mut list = open_list(&renderer.engine);
    let recorded = record_frame(
        &mut list,
        &renderer.engine,
        &renderer.pipeline,
        &renderer.scene,
        present_target,
        present_rtv,
        ring.offset(sync.tick()),
    );
    assert_eq!(recorded, Ok(()));
    assert!(!list.recording);
    assert_eq!(sync.end_frame(), 0);

    let draws: Vec<&Command> = list
        .commands
        .iter()
        .filter(|command| matches!(command, Command::DrawIndexedInstanced { .. }))
        .collect();
    assert_eq!(
        draws,
        vec![&Command::DrawIndexedInstanced {
            index_count: 3,
            instance_count: 1,
            start_index: 0,
            base_vertex: 0,
            start_instance: 0,
        }]
    );
    let dispatches: Vec<&Command> = list
        .commands
        .iter()
        .filter(|command| matches!(command, Command::Dispatch { .. }))
        .collect();
    assert_eq!(dispatches, vec![&Command::Dispatch { x: 90, y: 44, z: 1 }]);
    assert_eq!((1440 + 15) / 16, 90);
    assert_eq!((704 + 15) / 16, 44);

    let position = |wanted: &Command| list.commands.iter().position(|c| c == wanted).unwrap();
    let geometry_written = position(draws[0]);
    let geometry_readable = position(&transition(3, 0x4, 0x40));
    let lighting = position(dispatches[0]);
    assert!(geometry_written < geometry_readable);
    assert!(geometry_readable < lighting);

    assert_eq!(
        list.commands,
        vec![
            Command::SetDescriptorHeaps,
            transition(1, 0x0, 0x4),
            transition(3, 0x40, 0x4),
            transition(4, 0x80, 0x8),
            Command::ClearRenderTargetView { view: 0x20_0000 },
            Command::ClearDepthStencilView { view: 0x30_0000, depth: ONE },
            Command::SetGraphicsRootSignature(PassKind::Geometry),
            Command::SetPipelineState(PassKind::Geometry),
            Command::SetTriangleListTopology,
            Command::SetViewportAndScissor { width: 1440, height: 704 },
            Command::SetRenderTargets { render_target: 0x20_0000, depth_stencil: Some(0x30_0000) },
            Command::SetGraphicsRootConstantBufferView { parameter: 0, offset: 0 },
            Command::SetIndexBuffer { buffer: ResourceId(8), size: 12, format: Format::R32Uint },
            Command::SetVertexBuffer { buffer: ResourceId(6), size: 36, stride: 12 },
            Command::SetGraphicsRootDescriptorTable { parameter: 1, base: 0x8000_0000 + 4 * 32 },
            Command::SetGraphicsRootConstantPair { parameter: 2, first: 0, second: 0 },
            Command::SetGraphicsRootConstant { parameter: 3, value: 0 },
            Command::DrawIndexedInstanced {
                index_count: 3,
                instance_count: 1,
                start_index: 0,
                base_vertex: 0,
                start_instance: 0,
            },
            transition(3, 0x4, 0x40),
            Command::SetComputeRootSignature(PassKind::Lighting),
            Command::SetPipelineState(PassKind::Lighting),
            Command::SetComputeRootDescriptorTable { parameter: 0, base: 0x8000_0000 + 32 },
            Command::SetComputeRootDescriptorTable { parameter: 1, base: 0x8000_0000 },
            Command::SetComputeRootDescriptorTable { parameter: 2, base: 0x8000_0000 },
            Command::SetComputeRootDescriptorTable { parameter: 3, base: 0x8000_0000 + 4 * 32 },
            Command::SetComputeRootConstant { parameter: 4, value: 1 },
            Command::SetComputeRootDescriptorTable { parameter: 5, base: 0x8000_0000 + 3 * 32 },
            Command::Dispatch { x: 90, y: 44, z: 1 },
            Command::ResourceBarrier(ResourceBarrier::Uav { resource: ResourceId(4), flags: 0 }),
            transition(4, 0x8, 0x80),
            Command::SetGraphicsRootSignature(PassKind::DisplayMap),
            Command::SetPipelineState(PassKind::DisplayMap),
            Command::SetTriangleListTopology,
            Command::SetViewportAndScissor { width: 1440, height: 704 },
            Command::SetRenderTargets { render_target: 0x4018, depth_stencil: None },
            Command::SetGraphicsRootDescriptorTable { parameter: 0, base: 0x8000_0000 + 2 * 32 },
            Command::DrawInstanced {
                vertex_count: 3,
                instance_count: 1,
                start_vertex: 0,
                start_instance: 0,
            },
            transition(1, 0x4, 0x0),
            Command::Close,
        ]
    );

    let end = track_states(targets(&renderer, present_target), STEADY, &list.commands);
    assert_eq!(end, Some(STEADY));
    assert_eq!(
        track_bindings(&list.commands),
        Some(Bound {
            graphics: Some(PassKind::DisplayMap),
            compute: Some(PassKind::Lighting),
            state: Some(PassKind::DisplayMap),
        })
    );
}

#[test]
fn every_instance_is_drawn_once_in_entity_order() {
    let source = SceneSource {
        meshes: vec![
            SubMesh { vertices: vec![VertexPos([0, 0, 0]); 4], faces: vec![[0, 1, 2], [0, 2, 3]] },
            SubMesh { vertices: vec![VertexPos([0, 0, 0]); 3], faces: vec![[0, 1, 2]] },
        ],
        nodes: vec![
            Node { transform: IDENTITY, meshes: vec![1], parent: None },
            Node { transform: IDENTITY, meshes: vec![0, 1], parent: Some(0) },
        ],
    };
    let renderer = renderer(64, 32, &source, &Vec::new());
    let (present_target, present_rtv) = renderer.swapchain.get_render_target(0);
    let mut list = open_list(&renderer.engine);
    list.record(Command::SetTriangleListTopology);
    record_frame(
        &mut list,
        &renderer.engine,
        &renderer.pipeline,
        &renderer.scene,
        present_target,
        present_rtv,
        256,
    )
    .unwrap();
    assert_eq!(list.commands[0], Command::SetTriangleListTopology);
    assert_eq!(list.commands[1], Command::SetDescriptorHeaps);
    let draws: Vec<Command> = list
        .commands
        .iter()
        .filter(|command| {
            matches!(
                command,
                Command::DrawIndexedInstanced { .. }
                    | Command::SetGraphicsRootConstantPair { .. }
                    | Command::SetGraphicsRootConstant { .. }
            )
        })
        .copied()
        .collect();
    let draw = |id: u32, index_count: u32, start_index: u32, base_vertex: u32| {
        vec![
            Command::SetGraphicsRootConstantPair { parameter: 2, first: start_index, second: base_vertex },
            Command::SetGraphicsRootConstant { parameter: 3, value: id },
            Command::DrawIndexedInstanced {
                index_count,
                instance_count: 1,
                start_index,
                base_vertex,
                start_instance: 0,
            },
        ]
    };
    assert_eq!(draws, [draw(1, 3, 6, 4), draw(0, 6, 0, 0), draw(1, 3, 6, 4)].concat());
    assert!(list.commands.contains(&Command::Dispatch { x: 4, y: 2, z: 1 }));
    assert!(list.commands.contains(&Command::SetComputeRootConstant { parameter: 4, value: 0 }));
    assert!(list
        .commands
        .contains(&Command::SetGraphicsRootConstantBufferView { parameter: 0, offset: 256 }));
    assert_eq!(list.commands.len(), 1 + 36 + 9);
    let end = track_states(targets(&renderer, present_target), STEADY, &list.commands);
    assert_eq!(end, Some(STEADY));
}

#[test]
fn entities_without_transform_or_instance_are_not_drawn() {
    let mut renderer = renderer(16, 16, &triangle(), &one_light());
    renderer.scene.world.create_entity(None, Some(Instance { geometry: 0 }), None);
    renderer.scene.world.create_entity(
        Some(LocalTransform { transform: IDENTITY, parent: None }),
        None,
        None,
    );
    let (present_target, present_rtv) = renderer.swapchain.get_render_target(0);
    let mut list = open_list(&renderer.engine);
    record_frame(
        &mut list,
        &renderer.engine,
        &renderer.pipeline,
        &renderer.scene,
        present_target,
        present_rtv,
        0,
    )
    .unwrap();
    let draws = list
        .commands
        .iter()
        .filter(|command| matches!(command, Command::DrawIndexedInstanced { .. }))
        .count();
    assert_eq!(draws, 1);
}

#[test]
fn frames_follow_each_other() {
    let renderer = renderer(32, 32, &triangle(), &one_light());
    let mut sync = FrameSync::new(2).unwrap();
    let mut all: Vec<Command> = Vec::new();
    for completed in 0..4u64 {
        let slot = sync.begin_frame(completed).unwrap();
        let (present_target, present_rtv) = renderer.swapchain.get_render_target(slot as usize);
        let mut list = open_list(&renderer.engine);
        record_frame(
            &mut list,
            &renderer.engine,
            &renderer.pipeline,
            &renderer.scene,
            present_target,
            present_rtv,
            slot * 256,
        )
        .unwrap();
        let end = track_states(targets(&renderer, present_target), STEADY, &list.commands);
        assert_eq!(end, Some(STEADY));
        if slot == 0 {
            all.extend(list.commands);
        }
        sync.end_frame();
    }
    let end = track_states(targets(&renderer, ResourceId(0)), STEADY, &all);
    assert_eq!(end, Some(STEADY));
}

#[test]
fn omitted_barrier_is_found() {
    let renderer = renderer(32, 32, &triangle(), &one_light());
    let (present_target, present_rtv) = renderer.swapchain.get_render_target(0);
    let mut list = open_list(&renderer.engine);
    record_frame(
        &mut list,
        &renderer.engine,
        &renderer.pipeline,
        &renderer.scene,
        present_target,
        present_rtv,
        0,
    )
    .unwrap();
    let targets = targets(&renderer, present_target);
    assert_eq!(track_states(targets, STEADY, &list.commands), Some(STEADY));
    for (i, command) in list.commands.iter().enumerate() {
        if matches!(command, Command::ResourceBarrier(ResourceBarrier::Transition { .. })) {
            let mut without = list.commands.clone();
            without.remove(i);
            assert_eq!(track_states(targets, STEADY, &without), None);
        }
    }
    let mut swapped = list.commands.clone();
    let readable = swapped.iter().position(|c| c == &transition(3, 0x4, 0x40)).unwrap();
    let dispatch = swapped.iter().position(|c| matches!(c, Command::Dispatch { .. })).unwrap();
    swapped.swap(readable, dispatch);
    assert_eq!(track_states(targets, STEADY, &swapped), None);
}

#[test]
fn states_are_tracked_through_barriers() {
    let targets = FrameTargets {
        present: ResourceId(0),
        geometry: ResourceId(1),
        lighting: ResourceId(2),
        depth: ResourceId(3),
    };
    assert_eq!(track_states(targets, STEADY, &Vec::new()), Some(STEADY));
    let moved = track_states(targets, STEADY, &vec![transition(0, 0, 4), transition(3, 0x10, 0x20)]);
    assert_eq!(moved, Some(TargetStates { present: 4, geometry: 0x40, lighting: 0x80, depth: 0x20 }));
    assert_eq!(track_states(targets, STEADY, &vec![transition(0, 4, 0)]), None);
    assert_eq!(track_states(targets, STEADY, &vec![transition(9, 0, 4)]), None);
    let partial = Command::ResourceBarrier(ResourceBarrier::Transition {
        resource: ResourceId(0),
        subresource: 0,
        before: 0,
        after: 4,
        flags: 0,
    });
    assert_eq!(track_states(targets, STEADY, &vec![partial]), None);
    let uav = Command::ResourceBarrier(ResourceBarrier::Uav { resource: ResourceId(2), flags: 0 });
    assert_eq!(track_states(targets, STEADY, &vec![uav]), None);
    assert_eq!(
        track_states(targets, STEADY, &vec![transition(2, 0x80, 0x8), uav]),
        Some(TargetStates { present: 0, geometry: 0x40, lighting: 0x8, depth: 0x10 })
    );
    assert_eq!(track_states(targets, STEADY, &vec![Command::Close]), Some(STEADY));
    assert_eq!(track_states(targets, STEADY, &vec![transition(0, 0, 4), Command::Close]), None);
    assert_eq!(track_states(targets, STEADY, &vec![Command::Dispatch { x: 1, y: 1, z: 1 }]), None);
    assert_eq!(
        track_states(targets, STEADY, &vec![Command::ClearRenderTargetView { view: 0 }]),
        None
    );
    assert_eq!(
        track_states(targets, STEADY, &vec![Command::ClearDepthStencilView { view: 0, depth: 0 }]),
        Some(STEADY)
    );
}

#[test]
fn frame_needs_a_loaded_scene() {
    let mut renderer = renderer(32, 32, &triangle(), &one_light());
    let (present_target, present_rtv) = renderer.swapchain.get_render_target(0);
    renderer.scene.unload();
    let mut list = open_list(&renderer.engine);
    list.record(Command::SetTriangleListTopology);
    let recorded = record_frame(
        &mut list,
        &renderer.engine,
        &renderer.pipeline,
        &renderer.scene,
        present_target,
        present_rtv,
        0,
    );
    assert_eq!(recorded, Err(RecordError::SceneNotReady));
    assert!(list.recording);
    assert_eq!(list.commands, vec![Command::SetTriangleListTopology]);
}

#[test]
fn frame_needs_a_light_buffer() {
    let mut renderer = renderer(32, 32, &triangle(), &one_light());
    let mut loader = SceneLoader::new(&mut renderer.scene);
    loader.set_upload_list(open_list(&renderer.engine));
    loader.load_obj(&mut renderer.scene, &mut renderer.engine, &triangle()).unwrap();
    let prepared =
        prepare_frame(&renderer.engine, &renderer.pipeline, &renderer.scene, ResourceId(0), 0, 0);
    assert_eq!(prepared, Err(RecordError::SceneNotReady));
}

#[test]
fn back_buffer_must_not_be_a_pipeline_target() {
    let renderer = renderer(32, 32, &triangle(), &one_light());
    for target in [
        renderer.pipeline.geometry_buffer,
        renderer.pipeline.lighting_buffer,
        renderer.pipeline.depth_target,
    ] {
        let prepared =
            prepare_frame(&renderer.engine, &renderer.pipeline, &renderer.scene, target, 0, 0);
        assert_eq!(prepared, Err(RecordError::TargetInUse));
    }
}

#[test]
fn frame_inputs_are_gathered_from_the_scene() {
    let renderer = renderer(32, 32, &triangle(), &one_light());
    let prepared =
        prepare_frame(&renderer.engine, &renderer.pipeline, &renderer.scene, ResourceId(1), 0x4018, 256);
    assert_eq!(
        prepared,
        Ok(FrameInputs {
            present_target: ResourceId(1),
            present_rtv: 0x4018,
            view_data_offset: 256,
            mesh_table: 0x8000_0000 + 4 * 32,
            texture_table: 0x8000_0000,
            light_table: 0x8000_0000 + 3 * 32,
            num_point_lights: 1,
        })
    );
}

#[test]
fn descriptor_tables_must_exist() {
    let mut renderer = renderer(32, 32, &triangle(), &one_light());
    renderer.scene.texture_srvs.start_id = 2048;
    let prepared =
        prepare_frame(&renderer.engine, &renderer.pipeline, &renderer.scene, ResourceId(0), 0, 0);
    assert_eq!(prepared, Err(RecordError::DescriptorSlot));
    renderer.scene.texture_srvs.start_id = 2047;
    let prepared =
        prepare_frame(&renderer.engine, &renderer.pipeline, &renderer.scene, ResourceId(0), 0, 0);
    assert_eq!(prepared.unwrap().texture_table, 0x8000_0000 + 2047 * 32);
}

#[test]
fn geometry_ranges_must_fit_in_32_bits() {
    let fits = Geometry {
        id: u32::MAX as usize,
        base_index: u32::MAX as usize,
        num_indices: u32::MAX as usize,
        base_vertex: u32::MAX as usize,
    };
    assert!(geometries_fit(&Vec::new()));
    assert!(geometries_fit(&vec![fits]));
    if usize::BITS > 32 {
        let over = u32::MAX as usize + 1;
        assert!(!geometries_fit(&vec![fits, Geometry { id: over, ..fits }]));
        assert!(!geometries_fit(&vec![Geometry { base_index: over, ..fits }]));
        assert!(!geometries_fit(&vec![Geometry { num_indices: over, ..fits }]));
        assert!(!geometries_fit(&vec![Geometry { base_vertex: over, ..fits }, fits]));
        let mut renderer = renderer(32, 32, &triangle(), &one_light());
        renderer.scene.assets.geometries.push(Geometry { id: over, ..fits });
        let prepared =
            prepare_frame(&renderer.engine, &renderer.pipeline, &renderer.scene, ResourceId(0), 0, 0);
        assert_eq!(prepared, Err(RecordError::SizeOverflow));
    }
}
