use hati::engine::{CommandList, DescriptorHeap, Engine};
use hati::gpu::{
    Command, DescriptorHandle, Format, HeapType, ResourceBarrier, ResourceDesc, ResourceId,
    ResourceOrigin, ResourceRecord, ViewDesc, ViewRecord,
};
use hati::pass::lighting;
use hati::scene::camera::{Camera, CameraAction, ElementState, KeyboardInput};
use hati::scene::geometry::{DrawData, DrawDataBuffer, Geometry, Instance, Mesh, VertexPos};
use hati::scene::light::PointLight;
use hati::scene::loader::{slots_exist, SceneLoader};
use hati::scene::source::{
    build_geometries, check_nodes, check_source, count_totals, gather_mesh_data, LightSource, Node,
    SceneLoadError, SceneSource, SubMesh,
};
use hati::scene::transform::{LocalTransform, TransformError};
use hati::scene::{Scene, SceneState};

const ONE: u32 = 0x3F80_0000;
const IDENTITY: [[u32; 4]; 4] = [[ONE, 0, 0, 0], [0, ONE, 0, 0], [0, 0, ONE, 0], [0, 0, 0, ONE]];

fn heap(cpu: u64, gpu: u64, increment: u32, capacity: u32) -> DescriptorHeap {
    DescriptorHeap { start: DescriptorHandle { cpu, gpu }, increment, capacity }
}

fn engine() -> Engine {
    Engine::new(2, heap(0x1000, 0x8000_0000, 32, 2048), heap(0x9000, 0x9000_0000, 16, 128))
}

fn open_list(engine: &Engine) -> CommandList {
    let mut list = engine.create_command_list();
    list.reset();
    list
}

fn matrix(tag: u32) -> [[u32; 4]; 4] {
    [
        [tag, tag + 1, tag + 2, tag + 3],
        [tag + 4, tag + 5, tag + 6, tag + 7],
        [tag + 8, tag + 9, tag + 10, tag + 11],
        [tag + 12, tag + 13, tag + 14, tag + 15],
    ]
}

fn submesh(vertices: u32, faces: u32, tag: u32) -> SubMesh {
    SubMesh {
        vertices: (0..vertices).map(|i| VertexPos([tag + i, tag + i + 100, tag + i + 200])).collect(),
        faces: (0..faces).map(|i| [tag + 3 * i, tag + 3 * i + 1, tag + 3 * i + 2]).collect(),
    }
}

fn node(tag: u32, meshes: &[u32], parent: Option<usize>) -> Node {
    Node { transform: matrix(tag), meshes: meshes.to_vec(), parent }
}

fn source() -> SceneSource {
    SceneSource {
        meshes: vec![submesh(4, 2, 1000), submesh(3, 1, 2000), submesh(8, 12, 3000)],
        nodes: vec![
            node(10, &[], None),
            node(20, &[0, 2], Some(0)),
            node(30, &[1], Some(1)),
            node(40, &[2], Some(0)),
        ],
    }
}

fn lights() -> Vec<LightSource> {
    vec![
        LightSource { intensity: 7, transform: matrix(500) },
        LightSource { intensity: 8, transform: matrix(600) },
    ]
}

fn buffer(heap: HeapType, width: u64, state: u32) -> ResourceRecord {
    ResourceRecord {
        origin: ResourceOrigin::Committed(heap),
        desc: ResourceDesc::buffer(width),
        initial_state: state,
        clear_value: None,
    }
}

fn after_copy(resource: usize, after: u32) -> Command {
    Command::ResourceBarrier(ResourceBarrier::Transition {
        resource: ResourceId(resource),
        subresource: 0xFFFF_FFFF,
        before: 0x400,
        after,
        flags: 0,
    })
}

#[test]
fn new_scene_is_empty() {
    let scene = Scene::new();
    assert_eq!(scene.state, SceneState::Empty);
    assert_eq!(scene.entity_count(), 0);
    assert_eq!(scene.geometry_count(), 0);
    assert!(scene.world.transforms.is_empty());
    assert!(scene.world.instances.is_empty());
    assert!(scene.world.point_lights.is_empty());
    assert!(scene.world.light_buffer.is_none());
    assert!(scene.assets.mesh.is_none());
    assert!(scene.assets.draw_data.is_none());
    assert!(scene.assets.textures.is_empty());
    assert!(scene.point_lights.is_empty());
    assert_eq!(scene.texture_srvs.start_id, 0);
}

#[test]
fn entities_are_indices_into_aligned_tables() {
    let mut scene = Scene::new();
    let transform = LocalTransform { transform: matrix(1), parent: None };
    let first = scene.world.create_entity(Some(transform), None, None);
    let second = scene.world.create_entity(None, Some(Instance { geometry: 0 }), None);
    let third = scene.world.create_entity(None, None, Some(PointLight { intensity: 3 }));
    assert_eq!((first, second, third), (0, 1, 2));
    assert_eq!(scene.world.len(), 3);
    assert_eq!(scene.world.transforms, vec![Some(transform), None, None]);
    assert_eq!(scene.world.instances, vec![None, Some(Instance { geometry: 0 }), None]);
    assert_eq!(scene.world.point_lights, vec![None, None, Some(PointLight { intensity: 3 })]);
    scene.world.delete_all();
    assert_eq!(scene.world.len(), 0);
    assert!(scene.world.instances.is_empty());
    assert!(scene.world.point_lights.is_empty());
}

#[test]
fn totals_count_vertices_and_indices() {
    assert_eq!(count_totals(&Vec::new()), Some((0, 0)));
    assert_eq!(count_totals(&source().meshes), Some((15, 45)));
    assert_eq!(count_totals(&vec![submesh(0, 0, 0), submesh(1, 0, 0)]), Some((1, 0)));
}

#[test]
fn combined_buffers_hold_the_submeshes_in_order() {
    let meshes = vec![submesh(2, 1, 10), submesh(1, 2, 50)];
    let (vertices, indices) = gather_mesh_data(&meshes);
    assert_eq!(
        vertices,
        vec![VertexPos([10, 110, 210]), VertexPos([11, 111, 211]), VertexPos([50, 150, 250])]
    );
    assert_eq!(indices, vec![10, 11, 12, 50, 51, 52, 53, 54, 55]);
    let (no_vertices, no_indices) = gather_mesh_data(&Vec::new());
    assert!(no_vertices.is_empty());
    assert!(no_indices.is_empty());
}

#[test]
fn draw_data_matches_cumulative_offsets() {
    let source = source();
    let (geometries, draw_data) = build_geometries(&source.meshes);
    assert_eq!(
        geometries,
        vec![
            Geometry { id: 0, base_index: 0, num_indices: 6, base_vertex: 0 },
            Geometry { id: 1, base_index: 6, num_indices: 3, base_vertex: 4 },
            Geometry { id: 2, base_index: 9, num_indices: 36, base_vertex: 7 },
        ]
    );
    assert_eq!(
        draw_data,
        vec![
            DrawData { base_index: 0, base_vertex: 0 },
            DrawData { base_index: 6, base_vertex: 4 },
            DrawData { base_index: 9, base_vertex: 7 },
        ]
    );
    let mut base_index = 0;
    let mut base_vertex = 0;
    for (i, mesh) in source.meshes.iter().enumerate() {
        assert_eq!(draw_data[i].base_index, base_index);
        assert_eq!(draw_data[i].base_vertex, base_vertex);
        base_index += 3 * mesh.faces.len() as u32;
        base_vertex += mesh.vertices.len() as u32;
    }
}

#[test]
fn nodes_are_checked_in_order() {
    assert_eq!(check_nodes(&source().nodes, 3), Ok(()));
    assert_eq!(check_nodes(&Vec::new(), 0), Ok(()));
    assert_eq!(check_nodes(&source().nodes, 2), Err(SceneLoadError::UnknownMesh));
    let own_parent = vec![node(1, &[], Some(0))];
    assert_eq!(check_nodes(&own_parent, 1), Err(SceneLoadError::UnknownParent));
    let later_parent = vec![node(1, &[], None), node(2, &[], Some(2)), node(3, &[], Some(0))];
    assert_eq!(check_nodes(&later_parent, 1), Err(SceneLoadError::UnknownParent));
    let mesh_first = vec![node(1, &[5], None), node(2, &[], Some(9))];
    assert_eq!(check_nodes(&mesh_first, 1), Err(SceneLoadError::UnknownMesh));
    let parent_first = vec![node(1, &[5], Some(3))];
    assert_eq!(check_nodes(&parent_first, 1), Err(SceneLoadError::UnknownParent));
}

#[test]
fn source_is_checked_before_it_is_loaded() {
    assert_eq!(check_source(&source()), Ok((15, 45)));
    let bad = SceneSource { meshes: vec![submesh(1, 1, 0)], nodes: vec![node(1, &[1], None)] };
    assert_eq!(check_source(&bad), Err(SceneLoadError::UnknownMesh));
}

#[test]
fn descriptor_slots_must_exist() {
    let small = heap(0x1000, 0, 32, 4);
    assert!(slots_exist(&small, 0, 4));
    assert!(slots_exist(&small, 4, 0));
    assert!(slots_exist(&small, 9, 0));
    assert!(!slots_exist(&small, 1, 4));
    assert!(!slots_exist(&small, u32::MAX, 1));
    assert!(!slots_exist(&small, u32::MAX, 2));
    assert!(!slots_exist(&heap(u64::MAX - 32, 0, 32, 4), 0, 3));
    assert!(slots_exist(&heap(u64::MAX - 32, 0, 32, 4), 0, 2));
}

#[test]
fn loading_creates_entities_geometries_and_buffers() {
    let mut engine = engine();
    engine.allocate_descriptors(3, 0);
    engine.create_committed_resource(HeapType::Default, ResourceDesc::buffer(1), 0, None);
    let mut scene = Scene::new();
    let mut loader = SceneLoader::new(&mut scene);
    assert_eq!(scene.state, SceneState::Loading);
    assert!(loader.upload_cmd_list.is_none());
    loader.set_upload_list(open_list(&engine));
    let upload = loader.load_hati_scene(&mut scene, &mut engine, &lights(), &source()).unwrap();

    assert_eq!(scene.state, SceneState::Ready);
    assert_eq!(scene.entity_count(), 10);
    assert_eq!(scene.geometry_count(), 3);
    assert_eq!(scene.point_lights, vec![0, 1]);

    let transform = |matrix, parent| Some(LocalTransform { transform: matrix, parent });
    assert_eq!(
        scene.world.transforms,
        vec![
            transform(matrix(500), None),
            transform(matrix(600), None),
            transform(matrix(10), None),
            transform(matrix(20), Some(2)),
            transform(IDENTITY, Some(3)),
            transform(IDENTITY, Some(3)),
            transform(matrix(30), Some(3)),
            transform(IDENTITY, Some(6)),
            transform(matrix(40), Some(2)),
            transform(IDENTITY, Some(8)),
        ]
    );
    let instance = |geometry| Some(Instance { geometry });
    assert_eq!(
        scene.world.instances,
        vec![None, None, None, None, instance(0), instance(2), None, instance(1), None, instance(2)]
    );
    let light = |intensity| Some(PointLight { intensity });
    assert_eq!(
        scene.world.point_lights,
        vec![light(7), light(8), None, None, None, None, None, None, None, None]
    );

    let light_buffer = scene.world.light_buffer.as_ref().unwrap();
    assert_eq!(light_buffer.point_buffer, ResourceId(1));
    assert_eq!(light_buffer.start_srvs, 3);
    assert_eq!(
        light_buffer.contents,
        vec![
            lighting::PointLight { position: [512, 513, 514], intensity: 7 },
            lighting::PointLight { position: [612, 613, 614], intensity: 8 },
        ]
    );

    assert_eq!(
        scene.assets.geometries,
        vec![
            Geometry { id: 0, base_index: 0, num_indices: 6, base_vertex: 0 },
            Geometry { id: 1, base_index: 6, num_indices: 3, base_vertex: 4 },
            Geometry { id: 2, base_index: 9, num_indices: 36, base_vertex: 7 },
        ]
    );
    assert_eq!(
        scene.assets.mesh,
        Some(Mesh {
            vertex_buffer: ResourceId(2),
            vertex_buffer_size: 180,
            vertex_stride: 12,
            index_buffer: ResourceId(4),
            index_format: Format::R32Uint,
            index_buffer_size: 180,
            start_srvs: 4,
        })
    );
    assert_eq!(scene.assets.draw_data, Some(DrawDataBuffer(ResourceId(6))));

    assert_eq!(upload.resources, vec![ResourceId(3), ResourceId(5), ResourceId(7)]);
    assert_eq!(upload.vertices.len(), 15);
    assert_eq!(upload.vertices[4], VertexPos([2000, 2100, 2200]));
    assert_eq!(upload.indices.len(), 45);
    assert_eq!(&upload.indices[6..9], &[2000, 2001, 2002]);
    assert_eq!(
        upload.draw_data,
        vec![
            DrawData { base_index: 0, base_vertex: 0 },
            DrawData { base_index: 6, base_vertex: 4 },
            DrawData { base_index: 9, base_vertex: 7 },
        ]
    );
    assert!(upload.texels.is_empty());

    assert_eq!(engine.resource_count(), 8);
    assert_eq!(engine.resource(ResourceId(1)), Some(buffer(HeapType::Upload, 32, 0x40)));
    assert_eq!(engine.resource(ResourceId(2)), Some(buffer(HeapType::Default, 180, 0x400)));
    assert_eq!(engine.resource(ResourceId(3)), Some(buffer(HeapType::Upload, 180, 0x800)));
    assert_eq!(engine.resource(ResourceId(4)), Some(buffer(HeapType::Default, 180, 0x400)));
    assert_eq!(engine.resource(ResourceId(5)), Some(buffer(HeapType::Upload, 180, 0x800)));
    assert_eq!(engine.resource(ResourceId(6)), Some(buffer(HeapType::Default, 24, 0x400)));
    assert_eq!(engine.resource(ResourceId(7)), Some(buffer(HeapType::Upload, 24, 0x800)));

    assert_eq!(engine.descriptor_cursors(), (7, 0));
    assert_eq!(engine.view_count(), 4);
    let srv = |resource, num_elements, stride, slot: u64| {
        Some(ViewRecord {
            resource: ResourceId(resource),
            desc: ViewDesc::BufferSrv { num_elements, stride },
            slot: 0x1000 + 32 * slot,
        })
    };
    assert_eq!(engine.view(0), srv(1, 2, 16, 3));
    assert_eq!(engine.view(1), srv(2, 15, 12, 5));
    assert_eq!(engine.view(2), srv(4, 45, 4, 4));
    assert_eq!(engine.view(3), srv(6, 3, 8, 6));

    let list = loader.upload_cmd_list.as_ref().unwrap();
    assert!(list.recording);
    assert_eq!(
        list.commands,
        vec![
            Command::CopyResource { dest: ResourceId(2), source: ResourceId(3) },
            Command::CopyResource { dest: ResourceId(4), source: ResourceId(5) },
            Command::CopyResource { dest: ResourceId(6), source: ResourceId(7) },
            after_copy(2, 0x81),
            after_copy(4, 0x82),
            after_copy(6, 0x40),
        ]
    );
}

#[test]
fn loading_without_lights() {
    let mut engine = engine();
    let mut scene = Scene::new();
    let mut loader = SceneLoader::new(&mut scene);
    loader.set_upload_list(open_list(&engine));
    let upload = loader.load_obj(&mut scene, &mut engine, &source()).unwrap();
    assert_eq!(scene.state, SceneState::Ready);
    assert_eq!(scene.entity_count(), 8);
    assert_eq!(scene.geometry_count(), 3);
    assert!(scene.point_lights.is_empty());
    assert!(scene.world.light_buffer.is_none());
    assert_eq!(scene.world.transforms[1].unwrap().parent, Some(0));
    assert_eq!(scene.world.instances[2], Some(Instance { geometry: 0 }));
    assert_eq!(scene.assets.mesh.unwrap().start_srvs, 0);
    assert_eq!(scene.assets.mesh.unwrap().vertex_buffer, ResourceId(0));
    assert_eq!(scene.assets.draw_data, Some(DrawDataBuffer(ResourceId(4))));
    assert_eq!(upload.resources, vec![ResourceId(1), ResourceId(3), ResourceId(5)]);
    assert_eq!(engine.resource_count(), 6);
    assert_eq!(engine.view_count(), 3);
    assert_eq!(engine.descriptor_cursors(), (3, 0));
    assert_eq!(loader.upload_cmd_list.as_ref().unwrap().commands.len(), 6);
}

#[test]
fn loading_an_empty_scene() {
    let mut engine = engine();
    let mut scene = Scene::new();
    let mut loader = SceneLoader::new(&mut scene);
    loader.set_upload_list(open_list(&engine));
    let empty = SceneSource { meshes: Vec::new(), nodes: Vec::new() };
    let upload = loader.load_hati_scene(&mut scene, &mut engine, &Vec::new(), &empty).unwrap();
    assert_eq!(scene.state, SceneState::Ready);
    assert_eq!(scene.entity_count(), 0);
    assert_eq!(scene.geometry_count(), 0);
    assert!(upload.draw_data.is_empty());
    assert!(upload.vertices.is_empty());
    assert!(upload.indices.is_empty());
    assert!(scene.world.light_buffer.as_ref().unwrap().contents.is_empty());
    assert_eq!(engine.resource(ResourceId(0)), Some(buffer(HeapType::Upload, 0, 0x40)));
    assert_eq!(engine.resource(ResourceId(1)), Some(buffer(HeapType::Default, 0, 0x400)));
    assert_eq!(engine.descriptor_cursors(), (4, 0));
}

#[test]
fn reloading_yields_the_same_counts() {
    let mut engine = engine();
    engine.allocate_descriptors(3, 0);
    let mut scene = Scene::new();
    let mut loader = SceneLoader::new(&mut scene);
    loader.set_upload_list(open_list(&engine));
    loader.load_hati_scene(&mut scene, &mut engine, &lights(), &source()).unwrap();
    let entities = scene.entity_count();
    let geometries = scene.geometry_count();
    let transforms = scene.world.transforms.clone();
    let instances = scene.world.instances.clone();
    let mesh = scene.assets.mesh;
    let cursors = engine.descriptor_cursors();

    let mut loader = SceneLoader::new(&mut scene);
    assert_eq!(scene.entity_count(), 0);
    assert_eq!(scene.geometry_count(), 0);
    assert_eq!(scene.state, SceneState::Loading);
    engine.reset_descriptors(3, 0);
    loader.set_upload_list(open_list(&engine));
    loader.load_hati_scene(&mut scene, &mut engine, &lights(), &source()).unwrap();
    assert_eq!(scene.entity_count(), entities);
    assert_eq!(scene.geometry_count(), geometries);
    assert_eq!(scene.world.transforms, transforms);
    assert_eq!(scene.world.instances, instances);
    assert_eq!(engine.descriptor_cursors(), cursors);
    assert_eq!(scene.assets.mesh.unwrap().start_srvs, mesh.unwrap().start_srvs);
    assert_eq!(scene.assets.mesh.unwrap().vertex_buffer, ResourceId(8));
}

#[test]
fn reloading_without_reset_takes_new_slots() {
    let mut engine = engine();
    let mut scene = Scene::new();
    let mut loader = SceneLoader::new(&mut scene);
    loader.set_upload_list(open_list(&engine));
    loader.load_obj(&mut scene, &mut engine, &source()).unwrap();
    loader.load_obj(&mut scene, &mut engine, &source()).unwrap();
    assert_eq!(scene.entity_count(), 8);
    assert_eq!(scene.geometry_count(), 3);
    assert_eq!(scene.assets.mesh.unwrap().start_srvs, 3);
    assert_eq!(engine.descriptor_cursors(), (6, 0));
    assert_eq!(loader.upload_cmd_list.as_ref().unwrap().commands.len(), 12);
}

fn refused(lights: &Vec<LightSource>, source: &SceneSource, engine: &mut Engine) -> SceneLoadError {
    let mut scene = Scene::new();
    scene.world.create_entity(None, None, None);
    let mut loader = SceneLoader::new(&mut scene);
    loader.set_upload_list(open_list(engine));
    let cursors = engine.descriptor_cursors();
    let error = loader.load_hati_scene(&mut scene, engine, lights, source).err().unwrap();
    assert_eq!(scene.state, SceneState::Loading);
    assert_eq!(scene.entity_count(), 0);
    assert_eq!(scene.geometry_count(), 0);
    assert!(scene.assets.mesh.is_none());
    assert_eq!(engine.descriptor_cursors(), cursors);
    assert_eq!(engine.resource_count(), 0);
    assert_eq!(engine.view_count(), 0);
    assert!(loader.upload_cmd_list.as_ref().unwrap().commands.is_empty());
    error
}

#[test]
fn malformed_scenes_are_refused() {
    let unknown_mesh =
        SceneSource { meshes: vec![submesh(3, 1, 0)], nodes: vec![node(1, &[0, 1], None)] };
    assert_eq!(refused(&lights(), &unknown_mesh, &mut engine()), SceneLoadError::UnknownMesh);
    let unknown_parent =
        SceneSource { meshes: vec![submesh(3, 1, 0)], nodes: vec![node(1, &[0], Some(1))] };
    assert_eq!(refused(&lights(), &unknown_parent, &mut engine()), SceneLoadError::UnknownParent);
}

#[test]
fn scenes_without_descriptor_slots_are_refused() {
    let mut wrapped =
        Engine::new(2, heap(u64::MAX - 70, 0, 32, 2048), heap(0x9000, 0x9000_0000, 16, 128));
    assert_eq!(refused(&lights(), &source(), &mut wrapped), SceneLoadError::DescriptorSlot);
    let mut scene = Scene::new();
    let mut loader = SceneLoader::new(&mut scene);
    loader.set_upload_list(open_list(&wrapped));
    assert!(loader.load_obj(&mut scene, &mut wrapped, &source()).is_ok());
}

#[test]
fn image_is_staged_row_by_row() {
    let mut engine = engine();
    engine.create_committed_resource(HeapType::Default, ResourceDesc::buffer(1), 0, None);
    let mut scene = Scene::new();
    let mut loader = SceneLoader::new(&mut scene);
    loader.set_upload_list(open_list(&engine));
    let pixels: Vec<u8> = (0..24).collect();
    let (texture, upload) = loader.load_image_rgba8(&mut engine, &pixels, 3, 2).unwrap();
    assert_eq!(texture, ResourceId(1));
    assert_eq!(upload.resources, vec![ResourceId(2)]);
    assert_eq!(upload.texels, pixels);
    assert!(upload.vertices.is_empty());
    assert_eq!(
        engine.resource(texture),
        Some(ResourceRecord {
            origin: ResourceOrigin::Committed(HeapType::Default),
            desc: ResourceDesc::texture_2d(3, 2, Format::R8G8B8A8Unorm, 1, 0, 0),
            initial_state: 0x400,
            clear_value: None,
        })
    );
    assert_eq!(engine.resource(ResourceId(2)), Some(buffer(HeapType::Upload, 24, 0x800)));
    assert_eq!(engine.view_count(), 0);
    assert_eq!(engine.descriptor_cursors(), (0, 0));
    assert_eq!(
        loader.upload_cmd_list.as_ref().unwrap().commands,
        vec![
            Command::CopyBufferToTexture {
                dest: ResourceId(1),
                source: ResourceId(2),
                format: Format::R8G8B8A8Unorm,
                width: 3,
                height: 2,
                row_pitch: 12,
            },
            after_copy(1, 0xC0),
        ]
    );
}

#[test]
fn image_must_hold_four_bytes_per_texel() {
    let mut engine = engine();
    let mut scene = Scene::new();
    let mut loader = SceneLoader::new(&mut scene);
    loader.set_upload_list(open_list(&engine));
    let short = loader.load_image_rgba8(&mut engine, &vec![0; 23], 3, 2);
    assert_eq!(short.err(), Some(SceneLoadError::ImageSize));
    let long = loader.load_image_rgba8(&mut engine, &vec![0; 25], 3, 2);
    assert_eq!(long.err(), Some(SceneLoadError::ImageSize));
    let wide = loader.load_image_rgba8(&mut engine, &Vec::new(), 0x4000_0000, 0);
    assert_eq!(wide.err(), Some(SceneLoadError::SizeOverflow));
    let large = loader.load_image_rgba8(&mut engine, &Vec::new(), 0x1_0000, 0x1_0000);
    assert_eq!(large.err(), Some(SceneLoadError::SizeOverflow));
    assert_eq!(engine.resource_count(), 0);
    assert!(loader.upload_cmd_list.as_ref().unwrap().commands.is_empty());
    let empty = loader.load_image_rgba8(&mut engine, &Vec::new(), 0, 7);
    assert!(empty.is_ok());
}

fn camera() -> Camera {
    Camera {
        position: [0, 0x42C8_0000, 0],
        rotation: [0xBF99_999A, 0, 0],
        up: [0, ONE, 0],
        view_move: (false, false),
        view_rotate: (false, false, false, false),
        depth_range: (0, ONE),
        focal_length: ONE,
    }
}

fn key(state: ElementState, action: CameraAction) -> KeyboardInput {
    KeyboardInput { state, action: Some(action) }
}

#[test]
fn keys_hold_and_release_controls() {
    let mut camera = camera();
    camera.on_event(key(ElementState::Pressed, CameraAction::MoveForward));
    assert_eq!(camera.view_move, (true, false));
    camera.on_event(key(ElementState::Pressed, CameraAction::MoveBackward));
    assert_eq!(camera.view_move, (true, true));
    camera.on_event(key(ElementState::Released, CameraAction::MoveForward));
    assert_eq!(camera.view_move, (false, true));
    assert_eq!(camera.view_rotate, (false, false, false, false));
    camera.on_event(key(ElementState::Pressed, CameraAction::YawLeft));
    assert_eq!(camera.view_rotate, (true, false, false, false));
    camera.on_event(key(ElementState::Pressed, CameraAction::PitchUp));
    assert_eq!(camera.view_rotate, (true, true, false, false));
    camera.on_event(key(ElementState::Pressed, CameraAction::YawRight));
    assert_eq!(camera.view_rotate, (true, true, true, false));
    camera.on_event(key(ElementState::Pressed, CameraAction::PitchDown));
    assert_eq!(camera.view_rotate, (true, true, true, true));
    camera.on_event(key(ElementState::Released, CameraAction::YawLeft));
    camera.on_event(key(ElementState::Released, CameraAction::PitchDown));
    assert_eq!(camera.view_rotate, (false, true, true, false));
    assert_eq!(camera.view_move, (false, true));
    camera.on_event(key(ElementState::Released, CameraAction::PitchUp));
    camera.on_event(key(ElementState::Released, CameraAction::YawRight));
    camera.on_event(key(ElementState::Released, CameraAction::MoveBackward));
    assert_eq!(camera, self::camera());
}

#[test]
fn other_keys_change_nothing() {
    let mut camera = camera();
    camera.on_event(key(ElementState::Pressed, CameraAction::PitchUp));
    let before = camera;
    camera.on_event(KeyboardInput { state: ElementState::Pressed, action: None });
    camera.on_event(KeyboardInput { state: ElementState::Released, action: None });
    camera.on_event(key(ElementState::Pressed, CameraAction::PitchUp));
    assert_eq!(camera, before);
}

fn transform(parent: Option<usize>) -> Option<LocalTransform> {
    Some(LocalTransform { transform: IDENTITY, parent })
}

#[test]
fn world_transform_follows_the_parents() {
    let storage =
        vec![transform(None), transform(Some(0)), None, transform(Some(1)), transform(Some(2))];
    assert_eq!(storage[0].unwrap().world_transform(&storage), Ok(vec![]));
    assert_eq!(storage[1].unwrap().world_transform(&storage), Ok(vec![0]));
    assert_eq!(storage[3].unwrap().world_transform(&storage), Ok(vec![1, 0]));
    assert_eq!(storage[4].unwrap().world_transform(&storage), Ok(vec![]));
    let outside = LocalTransform { transform: IDENTITY, parent: Some(9) };
    assert_eq!(outside.world_transform(&storage), Ok(vec![]));
    let child = LocalTransform { transform: IDENTITY, parent: Some(3) };
    assert_eq!(child.world_transform(&storage), Ok(vec![3, 1, 0]));
    assert_eq!(child.local_transform(), IDENTITY);
    assert_eq!(LocalTransform::identity(Some(4)), LocalTransform { transform: IDENTITY, parent: Some(4) });
}

#[test]
fn longest_chain_is_not_a_cycle() {
    let storage = vec![transform(None), transform(Some(0)), transform(Some(1))];
    let child = LocalTransform { transform: IDENTITY, parent: Some(2) };
    assert_eq!(child.world_transform(&storage), Ok(vec![2, 1, 0]));
    let unordered = vec![transform(Some(2)), transform(None), transform(Some(1))];
    assert_eq!(unordered[0].unwrap().world_transform(&unordered), Ok(vec![2, 1]));
}

#[test]
fn parent_cycle_is_an_error() {
    let own = vec![transform(Some(0))];
    assert_eq!(own[0].unwrap().world_transform(&own), Err(TransformError::Cycle));
    let ring = vec![transform(Some(1)), transform(Some(2)), transform(Some(0)), transform(Some(0))];
    assert_eq!(ring[0].unwrap().world_transform(&ring), Err(TransformError::Cycle));
    assert_eq!(ring[3].unwrap().world_transform(&ring), Err(TransformError::Cycle));
}

#[test]
fn loaded_scenes_have_no_cycle() {
    let mut engine = engine();
    let mut scene = Scene::new();
    let mut loader = SceneLoader::new(&mut scene);
    loader.set_upload_list(open_list(&engine));
    loader.load_hati_scene(&mut scene, &mut engine, &lights(), &source()).unwrap();
    let chains: Vec<Vec<usize>> = scene
        .world
        .transforms
        .iter()
        .map(|transform| transform.unwrap().world_transform(&scene.world.transforms).unwrap())
        .collect();
    assert_eq!(chains[0], Vec::<usize>::new());
    assert_eq!(chains[3], vec![2]);
    assert_eq!(chains[7], vec![6, 3, 2]);
    assert_eq!(chains[9], vec![8, 2]);
}

#[test]
fn unload_clears_everything() {
    let mut engine = engine();
    let mut scene = Scene::new();
    let mut loader = SceneLoader::new(&mut scene);
    loader.set_upload_list(open_list(&engine));
    loader.load_hati_scene(&mut scene, &mut engine, &lights(), &source()).unwrap();
    scene.unload();
    assert_eq!(scene.state, SceneState::Empty);
    assert_eq!(scene.entity_count(), 0);
    assert_eq!(scene.geometry_count(), 0);
    assert!(scene.point_lights.is_empty());
    assert!(scene.world.light_buffer.is_none());
    assert!(scene.assets.mesh.is_none());
    assert!(scene.assets.draw_data.is_none());
    assert_eq!(engine.descriptor_cursors(), (4, 0));
}
