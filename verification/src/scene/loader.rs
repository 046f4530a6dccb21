//! Loading a scene: from an imported scene to entities, assets and the plan
//! of what is uploaded to the GPU.

use crate::descriptor::Allocation;
use crate::engine::{gen_resource_transition, CommandList, DescriptorHeap, Engine};
use crate::gpu::{
    Command, Format, HeapType, ResourceBarrier, ResourceDesc, ResourceId, ResourceOrigin,
    ResourceRecord, ViewDesc, ViewRecord, ALL_SUBRESOURCES, BARRIER_FLAG_NONE, RESOURCE_FLAG_NONE,
    STATE_ALL_SHADER_RESOURCE, STATE_COPY_DEST, STATE_COPY_SOURCE,
    STATE_INDEX_BUFFER_AND_PIXEL_SHADER_RESOURCE, STATE_NON_PIXEL_SHADER_RESOURCE,
    STATE_VERTEX_BUFFER_AND_PIXEL_SHADER_RESOURCE,
};
use crate::pass::lighting;
use crate::scene::geometry::{
    DrawData, DrawDataBuffer, Instance, Mesh, VertexPos, DRAW_DATA_SIZE, INDEX_SIZE,
    VERTEX_POS_SIZE,
};
use crate::scene::light::{LightDataBuffer, PointLight};
use crate::scene::source::{
    build_geometries, check_source, gather_mesh_data, lemma_nodes_valid, spec_all_indices,
    spec_all_vertices, spec_draw_data, spec_geometry, spec_light_data, spec_node_error,
    spec_nodes_error,
    spec_source_error, spec_total_indices, spec_total_vertices, LightSource, Node,
    SceneLoadError, SceneSource, SubMesh,
};
use crate::scene::transform::{spec_identity, LocalTransform};
use crate::scene::{Scene, SceneState};
use vstd::prelude::*;

verus! {

/// The staging buffers of an upload, with what is to be written to each. They
/// must stay alive until the GPU has executed the copies of the upload
/// command list.
pub struct UploadResources {
    pub resources: Vec<ResourceId>,
    /// What the first staging buffer holds where geometry was uploaded.
    pub vertices: Vec<VertexPos>,
    /// What the second staging buffer holds where geometry was uploaded.
    pub indices: Vec<u32>,
    /// What the third staging buffer holds where geometry was uploaded.
    pub draw_data: Vec<DrawData>,
    /// What the staging buffer holds where an image was uploaded.
    pub texels: Vec<u8>,
}

/// The component tables of a world.
pub struct Tables {
    pub transforms: Seq<Option<LocalTransform>>,
    pub instances: Seq<Option<Instance>>,
    pub point_lights: Seq<Option<PointLight>>,
}

/// The tables after one entity per light is created, in order: each with the
/// light's transform, without parent, and its intensity.
pub open spec fn spec_add_lights(tables: Tables, lights: Seq<LightSource>) -> Tables {
    Tables {
        transforms: tables.transforms + Seq::new(
            lights.len(),
            |i: int| Some(LocalTransform { transform: lights[i].transform, parent: None }),
        ),
        instances: tables.instances + Seq::new(lights.len(), |i: int| None::<Instance>),
        point_lights: tables.point_lights + Seq::new(
            lights.len(),
            |i: int| Some(PointLight { intensity: lights[i].intensity }),
        ),
    }
}

/// The tables after the entities of one node are created, and the node's own
/// entity. The node's entity comes first, with the node's transform below the
/// entity of the node's parent. One entity per placed submesh follows, with
/// the identity transform below the node's entity. `node_entities` holds the
/// entity of every node before this one.
pub open spec fn spec_add_node(tables: Tables, node_entities: Seq<usize>, node: Node) -> Tables {
    let entity = tables.transforms.len() as usize;
    let parent = match node.parent {
        Some(p) => Some(node_entities[p as int]),
        None => None,
    };
    Tables {
        transforms: tables.transforms.push(
            Some(LocalTransform { transform: node.transform, parent }),
        ) + Seq::new(
            node.meshes@.len(),
            |j: int| Some(LocalTransform { transform: spec_identity(), parent: Some(entity) }),
        ),
        instances: tables.instances.push(None) + Seq::new(
            node.meshes@.len(),
            |j: int| Some(Instance { geometry: node.meshes@[j] as usize }),
        ),
        point_lights: tables.point_lights.push(None) + Seq::new(
            node.meshes@.len(),
            |j: int| None::<PointLight>,
        ),
    }
}

/// The tables after the entities of all nodes are created, node by node, and
/// the entity of each node.
pub open spec fn spec_add_nodes(tables: Tables, nodes: Seq<Node>) -> (Tables, Seq<usize>)
    decreases nodes.len(),
{
    if nodes.len() == 0 {
        (tables, Seq::empty())
    } else {
        let (before, node_entities) = spec_add_nodes(tables, nodes.drop_last());
        (
            spec_add_node(before, node_entities, nodes.last()),
            node_entities.push(before.transforms.len() as usize),
        )
    }
}

/// The component tables of a world without entities.
pub open spec fn spec_no_tables() -> Tables {
    Tables { transforms: Seq::empty(), instances: Seq::empty(), point_lights: Seq::empty() }
}

/// The component tables of `world`.
pub open spec fn spec_tables(world: crate::scene::World) -> Tables {
    Tables {
        transforms: world.transforms@,
        instances: world.instances@,
        point_lights: world.point_lights@,
    }
}

/// A buffer of `width` bytes on heap `heap`, created in state `state`.
pub open spec fn spec_buffer_record(heap: HeapType, width: u64, state: u32) -> ResourceRecord {
    ResourceRecord {
        origin: ResourceOrigin::Committed(heap),
        desc: ResourceDesc::spec_buffer(width),
        initial_state: state,
        clear_value: None,
    }
}

/// The buffer the point lights are written to: CPU-writable, read by the
/// lighting pass where it is.
pub open spec fn spec_light_record(count: nat) -> ResourceRecord {
    spec_buffer_record(
        HeapType::Upload,
        (count * lighting::POINT_LIGHT_SIZE) as u64,
        STATE_NON_PIXEL_SHADER_RESOURCE,
    )
}

/// The six buffers of a geometry upload, in order of creation: for vertices,
/// indices and draw data each a device-local buffer that starts out as copy
/// destination, directly followed by its staging buffer of the same size.
pub open spec fn spec_mesh_records(vertices: u32, indices: u32, geometries: nat) -> Seq<ResourceRecord> {
    let vertex_bytes = (vertices * VERTEX_POS_SIZE) as u64;
    let index_bytes = (indices * INDEX_SIZE) as u64;
    let draw_bytes = (geometries * DRAW_DATA_SIZE) as u64;
    seq![
        spec_buffer_record(HeapType::Default, vertex_bytes, STATE_COPY_DEST),
        spec_buffer_record(HeapType::Upload, vertex_bytes, STATE_COPY_SOURCE),
        spec_buffer_record(HeapType::Default, index_bytes, STATE_COPY_DEST),
        spec_buffer_record(HeapType::Upload, index_bytes, STATE_COPY_SOURCE),
        spec_buffer_record(HeapType::Default, draw_bytes, STATE_COPY_DEST),
        spec_buffer_record(HeapType::Upload, draw_bytes, STATE_COPY_SOURCE),
    ]
}

/// The three descriptors of a geometry upload, in the order they are written:
/// vertex positions in the second slot, indices in the first, draw data in the
/// third. `first` names the vertex buffer.
pub open spec fn spec_mesh_views(
    first: int,
    vertices: u32,
    indices: u32,
    geometries: nat,
    heap: DescriptorHeap,
    start: u32,
) -> Seq<ViewRecord> {
    seq![
        ViewRecord {
            resource: ResourceId(first as usize),
            desc: ViewDesc::BufferSrv { num_elements: vertices, stride: VERTEX_POS_SIZE },
            slot: heap.spec_handle((start + 1) as u32).cpu,
        },
        ViewRecord {
            resource: ResourceId((first + 2) as usize),
            desc: ViewDesc::BufferSrv { num_elements: indices, stride: INDEX_SIZE },
            slot: heap.spec_handle(start).cpu,
        },
        ViewRecord {
            resource: ResourceId((first + 4) as usize),
            desc: ViewDesc::BufferSrv { num_elements: geometries as u32, stride: DRAW_DATA_SIZE },
            slot: heap.spec_handle((start + 2) as u32).cpu,
        },
    ]
}

/// A transition of all of `resource` out of the copy-destination state.
pub open spec fn spec_after_copy(resource: int, after: u32) -> Command {
    Command::ResourceBarrier(
        ResourceBarrier::Transition {
            resource: ResourceId(resource as usize),
            subresource: ALL_SUBRESOURCES,
            before: STATE_COPY_DEST,
            after,
            flags: BARRIER_FLAG_NONE,
        },
    )
}

/// The commands of a geometry upload: each staging buffer is copied to its
/// device-local buffer, then each device-local buffer leaves the
/// copy-destination state for the state it is drawn and shaded from. `first`
/// names the vertex buffer.
pub open spec fn spec_mesh_commands(first: int) -> Seq<Command> {
    seq![
        Command::CopyResource {
            dest: ResourceId(first as usize),
            source: ResourceId((first + 1) as usize),
        },
        Command::CopyResource {
            dest: ResourceId((first + 2) as usize),
            source: ResourceId((first + 3) as usize),
        },
        Command::CopyResource {
            dest: ResourceId((first + 4) as usize),
            source: ResourceId((first + 5) as usize),
        },
        spec_after_copy(first, STATE_VERTEX_BUFFER_AND_PIXEL_SHADER_RESOURCE),
        spec_after_copy(first + 2, STATE_INDEX_BUFFER_AND_PIXEL_SHADER_RESOURCE),
        spec_after_copy(first + 4, STATE_NON_PIXEL_SHADER_RESOURCE),
    ]
}

/// The mesh of a geometry upload whose vertex buffer is resource `first` and
/// whose descriptors start at slot `start`.
pub open spec fn spec_mesh(first: int, vertices: u32, indices: u32, start: u32) -> Mesh {
    Mesh {
        vertex_buffer: ResourceId(first as usize),
        vertex_buffer_size: (vertices * VERTEX_POS_SIZE) as u32,
        vertex_stride: VERTEX_POS_SIZE,
        index_buffer: ResourceId((first + 2) as usize),
        index_format: Format::R32Uint,
        index_buffer_size: (indices * INDEX_SIZE) as u32,
        start_srvs: start,
    }
}

/// Creates the entities of all nodes, node by node.
fn load_nodes(scene: &mut Scene, nodes: &Vec<Node>)
    requires
        old(scene).wf(),
        spec_nodes_error(nodes@, old(scene).assets.geometries@.len()).is_none(),
    ensures
        final(scene).wf(),
        spec_tables(final(scene).world) == spec_add_nodes(spec_tables(old(scene).world), nodes@).0,
        final(scene).world.light_buffer == old(scene).world.light_buffer,
        final(scene).assets == old(scene).assets,
        final(scene).point_lights == old(scene).point_lights,
        final(scene).texture_srvs == old(scene).texture_srvs,
        final(scene).state == old(scene).state,
{
    let mut node_entities: Vec<usize> = Vec::new();
    let mut k: usize = 0;
    while k < nodes.len()
        invariant
            k <= nodes.len(),
            scene.wf(),
            spec_nodes_error(nodes@, scene.assets.geometries@.len()).is_none(),
            spec_tables(scene.world) == spec_add_nodes(
                spec_tables(old(scene).world),
                nodes@.take(k as int),
            ).0,
            node_entities@ == spec_add_nodes(spec_tables(old(scene).world), nodes@.take(k as int)).1,
            node_entities@.len() == k,
            forall|i: int| 0 <= i < k ==> #[trigger] node_entities@[i] < scene.world.spec_len(),
            scene.world.light_buffer == old(scene).world.light_buffer,
            scene.assets == old(scene).assets,
            scene.point_lights == old(scene).point_lights,
            scene.texture_srvs == old(scene).texture_srvs,
            scene.state == old(scene).state,
        decreases nodes.len() - k,
    {
        let node = &nodes[k];
        let ghost before = spec_tables(scene.world);
        let ghost entities_before = node_entities@;
        proof {
            lemma_nodes_valid(nodes@, scene.assets.geometries@.len(), k as int);
            assert(nodes@.take(k as int + 1).drop_last() =~= nodes@.take(k as int));
            assert(nodes@.take(k as int + 1).last() == nodes@[k as int]);
        }
        let parent: Option<usize> = match node.parent {
            Some(p) => Some(node_entities[p]),
            None => None,
        };
        let entity = scene.world.create_entity(
            Some(LocalTransform { transform: node.transform, parent }),
            None,
            None,
        );
        let mut j: usize = 0;
        while j < node.meshes.len()
            invariant
                j <= node.meshes.len(),
                k < nodes.len(),
                node == &nodes@[k as int],
                entity == before.transforms.len(),
                scene.wf(),
                spec_node_error(*node, k as int, scene.assets.geometries@.len()).is_none(),
                scene.world.transforms@ == before.transforms.push(
                    Some(LocalTransform { transform: node.transform, parent }),
                ) + Seq::new(
                    j as nat,
                    |i: int|
                        Some(LocalTransform { transform: spec_identity(), parent: Some(entity) }),
                ),
                scene.world.instances@ == before.instances.push(None) + Seq::new(
                    j as nat,
                    |i: int| Some(Instance { geometry: node.meshes@[i] as usize }),
                ),
                scene.world.point_lights@ == before.point_lights.push(None) + Seq::new(
                    j as nat,
                    |i: int| None::<PointLight>,
                ),
                scene.world.light_buffer == old(scene).world.light_buffer,
                scene.assets == old(scene).assets,
                scene.point_lights == old(scene).point_lights,
                scene.texture_srvs == old(scene).texture_srvs,
                scene.state == old(scene).state,
            decreases node.meshes.len() - j,
        {
            let geometry: usize = node.meshes[j] as usize;
            assert(geometry < scene.assets.geometries@.len()) by {
                if node.meshes@[j as int] >= scene.assets.geometries@.len() {
                    assert(0 <= j < node.meshes@.len() && node.meshes@[j as int]
                        >= scene.assets.geometries@.len());
                }
            }
            let ghost transforms_before = scene.world.transforms@;
            let ghost instances_before = scene.world.instances@;
            let placed = scene.world.create_entity(
                Some(LocalTransform::identity(Some(entity))),
                Some(Instance { geometry }),
                None,
            );
            j = j + 1;
            proof {
                assert(scene.world.transforms@ =~= before.transforms.push(
                    Some(LocalTransform { transform: node.transform, parent }),
                ) + Seq::new(
                    j as nat,
                    |i: int|
                        Some(LocalTransform { transform: spec_identity(), parent: Some(entity) }),
                ));
                assert(scene.world.instances@ =~= before.instances.push(None) + Seq::new(
                    j as nat,
                    |i: int| Some(Instance { geometry: node.meshes@[i] as usize }),
                ));
                assert(scene.world.point_lights@ =~= before.point_lights.push(None) + Seq::new(
                    j as nat,
                    |i: int| None::<PointLight>,
                ));
                assert forall|e: int| 0 <= e < scene.world.instances@.len() implies match #[trigger] scene.world.instances@[e] {
                    Some(instance) => instance.geometry < scene.assets.geometries@.len(),
                    None => true,
                } by {
                    if e < instances_before.len() {
                        assert(scene.world.instances@[e] == instances_before[e]);
                    }
                }
                assert forall|e: int| 0 <= e < scene.world.transforms@.len() implies match #[trigger] scene.world.transforms@[e] {
                    Some(component) => match component.parent {
                        Some(parent) => parent < e,
                        None => true,
                    },
                    None => true,
                } by {
                    if e < transforms_before.len() {
                        assert(scene.world.transforms@[e] == transforms_before[e]);
                    }
                }
            }
        }
        node_entities.push(entity);
        k = k + 1;
        proof {
            let after = spec_add_node(before, entities_before, *node);
            assert(spec_tables(scene.world).transforms =~= after.transforms);
            assert(spec_tables(scene.world).instances =~= after.instances);
            assert(spec_tables(scene.world).point_lights =~= after.point_lights);
        }
    }
    proof {
        assert(nodes@.take(k as int) =~= nodes@);
    }
}

/// The descriptor of the light buffer: resource `buffer` as a buffer of
/// `count` lights, in slot `start` of `heap`.
pub open spec fn spec_light_view(buffer: int, count: nat, heap: DescriptorHeap, start: u32) -> ViewRecord {
    ViewRecord {
        resource: ResourceId(buffer as usize),
        desc: ViewDesc::BufferSrv {
            num_elements: count as u32,
            stride: lighting::POINT_LIGHT_SIZE,
        },
        slot: heap.spec_handle(start).cpu,
    }
}

/// An allocation of `count` resource-view slots at `start` and of no sampler
/// slot at `sampler`.
pub open spec fn spec_resource_views(start: int, count: u32, sampler: u32) -> Allocation {
    Allocation {
        resource_view_base: start as u32,
        resource_view_count: count,
        sampler_base: sampler,
        sampler_count: 0,
    }
}

/// What loading lights leaves in the scene: every light entity stands at its
/// place in the light buffer, and the light buffer, which is resource
/// `buffer` with its descriptor in slot `start`, holds every light as the
/// lighting pass reads it.
pub open spec fn spec_lights_loaded(scene: Scene, buffer: int, start: u32, lights: Seq<LightSource>) -> bool {
    &&& scene.point_lights@ == Seq::new(lights.len(), |i: int| i as usize)
    &&& scene.world.light_buffer.is_some()
    &&& scene.world.light_buffer.unwrap().point_buffer == ResourceId(buffer as usize)
    &&& scene.world.light_buffer.unwrap().start_srvs == start
    &&& scene.world.light_buffer.unwrap().contents@ == Seq::new(
        lights.len(),
        |i: int| spec_light_data(lights[i]),
    )
}

/// What uploading geometry leaves in the scene, the upload list and the
/// upload. The scene has one geometry per submesh, each with its range of the
/// combined buffers, the mesh and the draw data. The upload list has the
/// copies and transitions appended, and the upload holds the three staging
/// buffers with what is to be written to them. `first` names the vertex
/// buffer, `start` is the first of the three descriptor slots.
pub open spec fn spec_geometry_loaded(
    scene: Scene,
    first: int,
    start: u32,
    commands_before: Seq<Command>,
    commands_after: Seq<Command>,
    upload: UploadResources,
    meshes: Seq<SubMesh>,
) -> bool {
    let vertices = spec_total_vertices(meshes) as u32;
    let indices = spec_total_indices(meshes) as u32;
    &&& scene.assets.geometries@ == Seq::new(meshes.len(), |i: int| spec_geometry(meshes, i))
    &&& scene.assets.mesh == Some(spec_mesh(first, vertices, indices, start))
    &&& scene.assets.draw_data == Some(DrawDataBuffer(ResourceId((first + 4) as usize)))
    &&& upload.resources@ == seq![
        ResourceId((first + 1) as usize),
        ResourceId((first + 3) as usize),
        ResourceId((first + 5) as usize),
    ]
    &&& upload.vertices@ == spec_all_vertices(meshes)
    &&& upload.indices@ == spec_all_indices(meshes)
    &&& upload.draw_data@ == Seq::new(meshes.len(), |i: int| spec_draw_data(meshes, i))
    &&& upload.texels@ == Seq::<u8>::empty()
    &&& commands_after == commands_before + spec_mesh_commands(first)
}

/// The `count` slots from `start` on exist in `heap`.
pub open spec fn spec_slots_exist(heap: DescriptorHeap, start: u32, count: u32) -> bool {
    &&& start + count <= u32::MAX
    &&& forall|slot: u32| start <= slot < start + count ==> #[trigger] heap.spec_addressable(slot)
}

/// Whether the `count` slots from `start` on exist in `heap`.
pub fn slots_exist(heap: &DescriptorHeap, start: u32, count: u32) -> (exist: bool)
    ensures
        exist == spec_slots_exist(*heap, start, count),
{
    if count > u32::MAX - start {
        return false;
    }
    let mut i: u32 = 0;
    while i < count
        invariant
            i <= count,
            start + count <= u32::MAX,
            forall|slot: u32| start <= slot < start + i ==> #[trigger] heap.spec_addressable(slot),
        decreases count - i,
    {
        if heap.handle(start + i).is_none() {
            return false;
        }
        i = i + 1;
    }
    true
}

/// Creates one entity per light and the buffer the lighting pass reads the
/// lights from.
fn load_lights(scene: &mut Scene, engine: &mut Engine, lights: &Vec<LightSource>)
    requires
        old(scene).wf(),
        old(scene).spec_is_clear(),
        old(engine).wf(),
        lights@.len() <= u32::MAX,
        old(engine).descriptors().spec_can_allocate(1, 0),
        spec_slots_exist(
            old(engine).spec_cbv_srv_uav_heap(),
            old(engine).descriptors().spec_resource_view_cursor(),
            1,
        ),
    ensures
        final(scene).wf(),
        final(engine).wf(),
        spec_tables(final(scene).world) == spec_add_lights(spec_tables(old(scene).world), lights@),
        spec_lights_loaded(
            *final(scene),
            old(engine).resources().len() as int,
            old(engine).descriptors().spec_resource_view_cursor(),
            lights@,
        ),
        final(engine).spec_grew(
            *old(engine),
            seq![spec_light_record(lights@.len())],
            seq![
                spec_light_view(
                    old(engine).resources().len() as int,
                    lights@.len(),
                    old(engine).spec_cbv_srv_uav_heap(),
                    old(engine).descriptors().spec_resource_view_cursor(),
                ),
            ],
            seq![
                spec_resource_views(
                    old(engine).descriptors().spec_resource_view_cursor() as int,
                    1,
                    old(engine).descriptors().spec_sampler_cursor(),
                ),
            ],
            1,
        ),
        final(scene).assets == old(scene).assets,
        final(scene).texture_srvs == old(scene).texture_srvs,
        final(scene).state == old(scene).state,
{
    let mut contents: Vec<lighting::PointLight> = Vec::new();
    let mut i: usize = 0;
    while i < lights.len()
        invariant
            i <= lights.len(),
            scene.wf(),
            scene.world.spec_len() == i,
            spec_tables(scene.world) == spec_add_lights(
                spec_tables(old(scene).world),
                lights@.take(i as int),
            ),
            scene.point_lights@ == Seq::new(i as nat, |k: int| k as usize),
            contents@ == Seq::new(i as nat, |k: int| spec_light_data(lights@[k])),
            old(scene).world.spec_len() == 0,
            scene.world.light_buffer == old(scene).world.light_buffer,
            scene.assets == old(scene).assets,
            scene.texture_srvs == old(scene).texture_srvs,
            scene.state == old(scene).state,
        decreases lights.len() - i,
    {
        let light = &lights[i];
        let ghost transforms_before = scene.world.transforms@;
        let ghost instances_before = scene.world.instances@;
        let ghost lights_before = scene.point_lights@;
        let e = scene.world.create_entity(
            Some(LocalTransform { transform: light.transform, parent: None }),
            None,
            Some(PointLight { intensity: light.intensity }),
        );
        scene.point_lights.push(e);
        contents.push(
            lighting::PointLight {
                position: [light.transform[3][0], light.transform[3][1], light.transform[3][2]],
                intensity: light.intensity,
            },
        );
        i = i + 1;
        proof {
            let after = spec_add_lights(spec_tables(old(scene).world), lights@.take(i as int));
            assert(spec_tables(scene.world).transforms =~= after.transforms);
            assert(spec_tables(scene.world).instances =~= after.instances);
            assert(spec_tables(scene.world).point_lights =~= after.point_lights);
            assert(scene.point_lights@ =~= Seq::new(i as nat, |k: int| k as usize));
            assert(contents@ =~= Seq::new(i as nat, |k: int| spec_light_data(lights@[k])));
            assert forall|k: int| 0 <= k < scene.point_lights@.len() implies #[trigger] scene.point_lights@[k]
                < scene.world.spec_len() by {
                if k < lights_before.len() {
                    assert(scene.point_lights@[k] == lights_before[k]);
                }
            }
            assert forall|k: int| 0 <= k < scene.world.instances@.len() implies match #[trigger] scene.world.instances@[k] {
                Some(instance) => instance.geometry < scene.assets.geometries@.len(),
                None => true,
            } by {
                if k < instances_before.len() {
                    assert(scene.world.instances@[k] == instances_before[k]);
                }
            }
            assert forall|k: int| 0 <= k < scene.world.transforms@.len() implies match #[trigger] scene.world.transforms@[k] {
                Some(component) => match component.parent {
                    Some(parent) => parent < k,
                    None => true,
                },
                None => true,
            } by {
                if k < transforms_before.len() {
                    assert(scene.world.transforms@[k] == transforms_before[k]);
                }
            }
        }
    }
    proof {
        assert(lights@.take(i as int) =~= lights@);
    }
    let num_point_lights: usize = lights.len();
    let point_light_data_size: u64 = num_point_lights as u64 * lighting::POINT_LIGHT_SIZE as u64;
    let light_data_point = engine.create_committed_resource(
        HeapType::Upload,
        ResourceDesc::buffer(point_light_data_size),
        STATE_NON_PIXEL_SHADER_RESOURCE,
        None,
    );
    let light_srvs: u32 = engine.allocate_descriptors(1, 0).0;
    assert(engine.spec_cbv_srv_uav_heap().spec_addressable(light_srvs));
    let light_point_srv = engine.cbv_srv_uav_heap().handle(light_srvs).unwrap();
    engine.create_view(
        light_data_point,
        ViewDesc::BufferSrv {
            num_elements: num_point_lights as u32,
            stride: lighting::POINT_LIGHT_SIZE,
        },
        light_point_srv.cpu,
    );
    scene.world.light_buffer = Some(
        LightDataBuffer { point_buffer: light_data_point, start_srvs: light_srvs, contents },
    );
    proof {
        assert(engine.resources() =~= old(engine).resources() + seq![
            spec_light_record(lights@.len()),
        ]);
        assert(engine.views() =~= old(engine).views() + seq![
            spec_light_view(
                old(engine).resources().len() as int,
                lights@.len(),
                old(engine).spec_cbv_srv_uav_heap(),
                light_srvs,
            ),
        ]);
        assert(engine.descriptors().issued() =~= old(engine).descriptors().issued() + seq![
            spec_resource_views(
                light_srvs as int,
                1,
                old(engine).descriptors().spec_sampler_cursor(),
            ),
        ]);
    }
}

/// Why geometry cannot be uploaded, if it cannot: the scene is looked at
/// before the descriptor slots.
pub open spec fn spec_geometry_error(engine: Engine, source: SceneSource) -> Option<SceneLoadError> {
    match spec_source_error(source) {
        Some(error) => Some(error),
        None => if !spec_slots_exist(
            engine.spec_cbv_srv_uav_heap(),
            engine.descriptors().spec_resource_view_cursor(),
            3,
        ) {
            Some(SceneLoadError::DescriptorSlot)
        } else {
            None
        },
    }
}

/// Why a scene with lights cannot be loaded, if it cannot: the number of
/// lights is looked at first, then the scene, then the descriptor slots.
pub open spec fn spec_scene_error(engine: Engine, lights: Seq<LightSource>, source: SceneSource) -> Option<
    SceneLoadError,
> {
    if lights.len() > u32::MAX {
        Some(SceneLoadError::SizeOverflow)
    } else {
        match spec_source_error(source) {
            Some(error) => Some(error),
            None => if !spec_slots_exist(
                engine.spec_cbv_srv_uav_heap(),
                engine.descriptors().spec_resource_view_cursor(),
                4,
            ) {
                Some(SceneLoadError::DescriptorSlot)
            } else {
                None
            },
        }
    }
}

/// Uploads the geometry of a checked scene and creates the entities of its
/// nodes.
fn load_assimp(
    upload_list: &mut CommandList,
    scene: &mut Scene,
    engine: &mut Engine,
    source: &SceneSource,
    totals: (u32, u32),
) -> (upload: UploadResources)
    requires
        old(upload_list).recording,
        old(scene).wf(),
        old(scene).assets.spec_is_empty(),
        old(engine).wf(),
        spec_source_error(*source).is_none(),
        totals.0 == spec_total_vertices(source.meshes@),
        totals.1 == spec_total_indices(source.meshes@),
        old(engine).descriptors().spec_can_allocate(3, 0),
        spec_slots_exist(
            old(engine).spec_cbv_srv_uav_heap(),
            old(engine).descriptors().spec_resource_view_cursor(),
            3,
        ),
    ensures
        final(upload_list).recording,
        final(scene).wf(),
        final(engine).wf(),
        spec_tables(final(scene).world) == spec_add_nodes(
            spec_tables(old(scene).world),
            source.nodes@,
        ).0,
        spec_geometry_loaded(
            *final(scene),
            old(engine).resources().len() as int,
            old(engine).descriptors().spec_resource_view_cursor(),
            old(upload_list).commands@,
            final(upload_list).commands@,
            upload,
            source.meshes@,
        ),
        final(engine).spec_grew(
            *old(engine),
            spec_mesh_records(totals.0, totals.1, source.meshes@.len()),
            spec_mesh_views(
                old(engine).resources().len() as int,
                totals.0,
                totals.1,
                source.meshes@.len(),
                old(engine).spec_cbv_srv_uav_heap(),
                old(engine).descriptors().spec_resource_view_cursor(),
            ),
            seq![
                spec_resource_views(
                    old(engine).descriptors().spec_resource_view_cursor() as int,
                    3,
                    old(engine).descriptors().spec_sampler_cursor(),
                ),
            ],
            3,
        ),
        final(scene).assets.textures == old(scene).assets.textures,
        final(scene).assets.texture_views == old(scene).assets.texture_views,
        final(scene).world.light_buffer == old(scene).world.light_buffer,
        final(scene).point_lights == old(scene).point_lights,
        final(scene).texture_srvs == old(scene).texture_srvs,
        final(scene).state == old(scene).state,
{
    let num_vertices: u32 = totals.0;
    let num_indices: u32 = totals.1;
    let ghost first = engine.resources().len() as int;
    let ghost heap = engine.spec_cbv_srv_uav_heap();

    let vertex_buffer_size: u64 = num_vertices as u64 * VERTEX_POS_SIZE as u64;
    let vertex_buffer = engine.create_committed_resource(
        HeapType::Default,
        ResourceDesc::buffer(vertex_buffer_size),
        STATE_COPY_DEST,
        None,
    );
    let vertex_buffer_upload = engine.create_committed_resource(
        HeapType::Upload,
        ResourceDesc::buffer(vertex_buffer_size),
        STATE_COPY_SOURCE,
        None,
    );

    let index_buffer_size: u64 = num_indices as u64 * INDEX_SIZE as u64;
    let index_buffer = engine.create_committed_resource(
        HeapType::Default,
        ResourceDesc::buffer(index_buffer_size),
        STATE_COPY_DEST,
        None,
    );
    let index_buffer_upload = engine.create_committed_resource(
        HeapType::Upload,
        ResourceDesc::buffer(index_buffer_size),
        STATE_COPY_SOURCE,
        None,
    );

    // Descriptors of index buffer, vertex buffer and draw data, which shading
    // needs to find a triangle's vertices again.
    let buffer_srvs: u32 = engine.allocate_descriptors(3, 0).0;
    assert(heap.spec_addressable(buffer_srvs));
    assert(heap.spec_addressable((buffer_srvs + 1) as u32));
    assert(heap.spec_addressable((buffer_srvs + 2) as u32));
    let index_srv = engine.cbv_srv_uav_heap().handle(buffer_srvs).unwrap();
    let vertex_srv = engine.cbv_srv_uav_heap().handle(buffer_srvs + 1).unwrap();
    let draw_data_srv = engine.cbv_srv_uav_heap().handle(buffer_srvs + 2).unwrap();
    engine.create_view(
        vertex_buffer,
        ViewDesc::BufferSrv { num_elements: num_vertices, stride: VERTEX_POS_SIZE },
        vertex_srv.cpu,
    );
    engine.create_view(
        index_buffer,
        ViewDesc::BufferSrv { num_elements: num_indices, stride: INDEX_SIZE },
        index_srv.cpu,
    );

    scene.assets.mesh = Some(
        Mesh {
            vertex_buffer,
            vertex_buffer_size: num_vertices * VERTEX_POS_SIZE,
            vertex_stride: VERTEX_POS_SIZE,
            index_buffer,
            index_format: Format::R32Uint,
            index_buffer_size: num_indices * INDEX_SIZE,
            start_srvs: buffer_srvs,
        },
    );

    let (vertices, indices) = gather_mesh_data(&source.meshes);
    let (geometries, draw_data_cpu) = build_geometries(&source.meshes);
    let num_geometries: usize = geometries.len();
    scene.assets.geometries = geometries;

    let draw_data_buffer_size: u64 = num_geometries as u64 * DRAW_DATA_SIZE as u64;
    let draw_data = engine.create_committed_resource(
        HeapType::Default,
        ResourceDesc::buffer(draw_data_buffer_size),
        STATE_COPY_DEST,
        None,
    );
    let draw_data_upload = engine.create_committed_resource(
        HeapType::Upload,
        ResourceDesc::buffer(draw_data_buffer_size),
        STATE_COPY_SOURCE,
        None,
    );
    engine.create_view(
        draw_data,
        ViewDesc::BufferSrv { num_elements: num_geometries as u32, stride: DRAW_DATA_SIZE },
        draw_data_srv.cpu,
    );

    // Staging vertex and index buffer and draw data.
    upload_list.record(Command::CopyResource { dest: vertex_buffer, source: vertex_buffer_upload });
    upload_list.record(Command::CopyResource { dest: index_buffer, source: index_buffer_upload });
    upload_list.record(Command::CopyResource { dest: draw_data, source: draw_data_upload });

    // The vertex and index buffer are bound for drawing and read by the pixel
    // shader of the geometry pass; the draw data is read by the lighting pass.
    upload_list.resource_barrier(
        gen_resource_transition(
            vertex_buffer,
            ALL_SUBRESOURCES,
            STATE_COPY_DEST,
            STATE_VERTEX_BUFFER_AND_PIXEL_SHADER_RESOURCE,
            BARRIER_FLAG_NONE,
        ),
    );
    upload_list.resource_barrier(
        gen_resource_transition(
            index_buffer,
            ALL_SUBRESOURCES,
            STATE_COPY_DEST,
            STATE_INDEX_BUFFER_AND_PIXEL_SHADER_RESOURCE,
            BARRIER_FLAG_NONE,
        ),
    );
    upload_list.resource_barrier(
        gen_resource_transition(
            draw_data,
            ALL_SUBRESOURCES,
            STATE_COPY_DEST,
            STATE_NON_PIXEL_SHADER_RESOURCE,
            BARRIER_FLAG_NONE,
        ),
    );

    scene.assets.draw_data = Some(DrawDataBuffer(draw_data));

    let mut resources: Vec<ResourceId> = Vec::new();
    resources.push(vertex_buffer_upload);
    resources.push(index_buffer_upload);
    resources.push(draw_data_upload);

    proof {
        assert(engine.resources() =~= old(engine).resources() + spec_mesh_records(
            num_vertices,
            num_indices,
            source.meshes@.len(),
        ));
        assert(engine.views() =~= old(engine).views() + spec_mesh_views(
            first,
            num_vertices,
            num_indices,
            source.meshes@.len(),
            heap,
            buffer_srvs,
        ));
        assert(upload_list.commands@ =~= old(upload_list).commands@ + spec_mesh_commands(first));
        assert(resources@ =~= seq![
            ResourceId((first + 1) as usize),
            ResourceId((first + 3) as usize),
            ResourceId((first + 5) as usize),
        ]);
        assert(engine.descriptors().issued() =~= old(engine).descriptors().issued() + seq![
            spec_resource_views(
                buffer_srvs as int,
                3,
                old(engine).descriptors().spec_sampler_cursor(),
            ),
        ]);
    }

    load_nodes(scene, &source.nodes);

    UploadResources { resources, vertices, indices, draw_data: draw_data_cpu, texels: Vec::new() }
}

/// Loads scenes: what it loads replaces what the scene held.
pub struct SceneLoader {
    /// The command list that uploads are recorded into.
    pub upload_cmd_list: Option<CommandList>,
}

impl SceneLoader {
    /// The upload list is set and recording.
    pub open spec fn spec_ready(&self) -> bool {
        self.upload_cmd_list.is_some() && self.upload_cmd_list.unwrap().recording
    }

    /// The commands of the upload list.
    pub open spec fn spec_commands(&self) -> Seq<Command> {
        self.upload_cmd_list.unwrap().commands@
    }

    /// A loader for `scene`, which is torn down and from now on loading.
    pub fn new(scene: &mut Scene) -> (loader: SceneLoader)
        ensures
            final(scene).spec_is_clear(),
            final(scene).wf(),
            final(scene).state == SceneState::Loading,
            loader.upload_cmd_list.is_none(),
    {
        scene.unload();
        scene.state = SceneState::Loading;
        SceneLoader { upload_cmd_list: None }
    }

    /// Sets the command list that uploads are recorded into.
    pub fn set_upload_list(&mut self, list: CommandList)
        ensures
            final(self).upload_cmd_list == Some(list),
    {
        self.upload_cmd_list = Some(list);
    }

    /// Loads a scene with its point lights: the lights first, then the
    /// geometry and the nodes. What the scene held before is torn down.
    /// Where the scene cannot be loaded it stays empty and loading, and the
    /// engine and the upload list are left as they were.
    pub fn load_hati_scene(
        &mut self,
        scene: &mut Scene,
        engine: &mut Engine,
        lights: &Vec<LightSource>,
        source: &SceneSource,
    ) -> (upload: Result<UploadResources, SceneLoadError>)
        requires
            old(self).spec_ready(),
            old(engine).wf(),
            old(engine).descriptors().spec_can_allocate(4, 0),
        ensures
            final(self).spec_ready(),
            final(scene).wf(),
            final(engine).wf(),
            match upload {
                Err(error) => {
                    &&& spec_scene_error(*old(engine), lights@, *source) == Some(error)
                    &&& final(scene).spec_is_clear()
                    &&& final(scene).state == SceneState::Loading
                    &&& *final(engine) == *old(engine)
                    &&& final(self).spec_commands() == old(self).spec_commands()
                },
                Ok(resources) => {
                    let first = old(engine).resources().len() as int;
                    let start = old(engine).descriptors().spec_resource_view_cursor();
                    let sampler = old(engine).descriptors().spec_sampler_cursor();
                    let heap = old(engine).spec_cbv_srv_uav_heap();
                    let vertices = spec_total_vertices(source.meshes@) as u32;
                    let indices = spec_total_indices(source.meshes@) as u32;
                    &&& spec_scene_error(*old(engine), lights@, *source).is_none()
                    &&& final(scene).state == SceneState::Ready
                    &&& spec_tables(final(scene).world) == spec_add_nodes(
                        spec_add_lights(spec_no_tables(), lights@),
                        source.nodes@,
                    ).0
                    &&& spec_lights_loaded(*final(scene), first, start, lights@)
                    &&& spec_geometry_loaded(
                        *final(scene),
                        first + 1,
                        (start + 1) as u32,
                        old(self).spec_commands(),
                        final(self).spec_commands(),
                        resources,
                        source.meshes@,
                    )
                    &&& final(scene).assets.textures@.len() == 0
                    &&& final(scene).assets.texture_views@.len() == 0
                    &&& final(scene).texture_srvs.start_id == 0
                    &&& final(engine).spec_grew(
                        *old(engine),
                        seq![spec_light_record(lights@.len())] + spec_mesh_records(
                            vertices,
                            indices,
                            source.meshes@.len(),
                        ),
                        seq![spec_light_view(first, lights@.len(), heap, start)] + spec_mesh_views(
                            first + 1,
                            vertices,
                            indices,
                            source.meshes@.len(),
                            heap,
                            (start + 1) as u32,
                        ),
                        seq![
                            spec_resource_views(start as int, 1, sampler),
                            spec_resource_views(start + 1, 3, sampler),
                        ],
                        4,
                    )
                },
            },
    {
        scene.unload();
        scene.state = SceneState::Loading;
        if lights.len() > u32::MAX as usize {
            return Err(SceneLoadError::SizeOverflow);
        }
        let totals = match check_source(source) {
            Ok(totals) => totals,
            Err(error) => {
                return Err(error);
            },
        };
        let cursor: u32 = engine.descriptor_cursors().0;
        let heap = engine.cbv_srv_uav_heap();
        if !slots_exist(&heap, cursor, 4) {
            return Err(SceneLoadError::DescriptorSlot);
        }
        assert(spec_tables(scene.world) =~= spec_no_tables()) by {
            assert(spec_tables(scene.world).transforms =~= spec_no_tables().transforms);
            assert(spec_tables(scene.world).instances =~= spec_no_tables().instances);
            assert(spec_tables(scene.world).point_lights =~= spec_no_tables().point_lights);
        }
        load_lights(scene, engine, lights);
        let mut list = self.upload_cmd_list.take().unwrap();
        let upload = load_assimp(&mut list, scene, engine, source, totals);
        self.upload_cmd_list = Some(list);
        scene.state = SceneState::Ready;
        proof {
            let first = old(engine).resources().len() as int;
            let start = old(engine).descriptors().spec_resource_view_cursor();
            let sampler = old(engine).descriptors().spec_sampler_cursor();
            let heap = old(engine).spec_cbv_srv_uav_heap();
            assert(engine.resources() =~= old(engine).resources() + (seq![
                spec_light_record(lights@.len()),
            ] + spec_mesh_records(totals.0, totals.1, source.meshes@.len())));
            assert(engine.views() =~= old(engine).views() + (seq![
                spec_light_view(first, lights@.len(), heap, start),
            ] + spec_mesh_views(
                first + 1,
                totals.0,
                totals.1,
                source.meshes@.len(),
                heap,
                (start + 1) as u32,
            )));
            assert(engine.descriptors().issued() =~= old(engine).descriptors().issued() + seq![
                spec_resource_views(start as int, 1, sampler),
                spec_resource_views(start + 1, 3, sampler),
            ]);
        }
        Ok(upload)
    }

    /// Loads a scene without lights: the geometry and the nodes. What the
    /// scene held before is torn down. Where the scene cannot be loaded it
    /// stays empty and loading, and the engine and the upload list are left as
    /// they were.
    pub fn load_obj(&mut self, scene: &mut Scene, engine: &mut Engine, source: &SceneSource) -> (upload:
        Result<UploadResources, SceneLoadError>)
        requires
            old(self).spec_ready(),
            old(engine).wf(),
            old(engine).descriptors().spec_can_allocate(3, 0),
        ensures
            final(self).spec_ready(),
            final(scene).wf(),
            final(engine).wf(),
            match upload {
                Err(error) => {
                    &&& spec_geometry_error(*old(engine), *source) == Some(error)
                    &&& final(scene).spec_is_clear()
                    &&& final(scene).state == SceneState::Loading
                    &&& *final(engine) == *old(engine)
                    &&& final(self).spec_commands() == old(self).spec_commands()
                },
                Ok(resources) => {
                    let first = old(engine).resources().len() as int;
                    let start = old(engine).descriptors().spec_resource_view_cursor();
                    let vertices = spec_total_vertices(source.meshes@) as u32;
                    let indices = spec_total_indices(source.meshes@) as u32;
                    &&& spec_geometry_error(*old(engine), *source).is_none()
                    &&& final(scene).state == SceneState::Ready
                    &&& spec_tables(final(scene).world) == spec_add_nodes(
                        spec_no_tables(),
                        source.nodes@,
                    ).0
                    &&& final(scene).point_lights@.len() == 0
                    &&& final(scene).world.light_buffer.is_none()
                    &&& spec_geometry_loaded(
                        *final(scene),
                        first,
                        start,
                        old(self).spec_commands(),
                        final(self).spec_commands(),
                        resources,
                        source.meshes@,
                    )
                    &&& final(scene).assets.textures@.len() == 0
                    &&& final(scene).assets.texture_views@.len() == 0
                    &&& final(scene).texture_srvs.start_id == 0
                    &&& final(engine).spec_grew(
                        *old(engine),
                        spec_mesh_records(vertices, indices, source.meshes@.len()),
                        spec_mesh_views(
                            first,
                            vertices,
                            indices,
                            source.meshes@.len(),
                            old(engine).spec_cbv_srv_uav_heap(),
                            start,
                        ),
                        seq![
                            spec_resource_views(
                                start as int,
                                3,
                                old(engine).descriptors().spec_sampler_cursor(),
                            ),
                        ],
                        3,
                    )
                },
            },
    {
        scene.unload();
        scene.state = SceneState::Loading;
        let totals = match check_source(source) {
            Ok(totals) => totals,
            Err(error) => {
                return Err(error);
            },
        };
        let cursor: u32 = engine.descriptor_cursors().0;
        let heap = engine.cbv_srv_uav_heap();
        if !slots_exist(&heap, cursor, 3) {
            return Err(SceneLoadError::DescriptorSlot);
        }
        assert(spec_tables(scene.world) =~= spec_no_tables()) by {
            assert(spec_tables(scene.world).transforms =~= spec_no_tables().transforms);
            assert(spec_tables(scene.world).instances =~= spec_no_tables().instances);
            assert(spec_tables(scene.world).point_lights =~= spec_no_tables().point_lights);
        }
        let mut list = self.upload_cmd_list.take().unwrap();
        let upload = load_assimp(&mut list, scene, engine, source, totals);
        self.upload_cmd_list = Some(list);
        scene.state = SceneState::Ready;
        Ok(upload)
    }

    /// Uploads an image of `width` by `height` texels, four bytes each, row
    /// after row without padding. Returns the texture and the staging buffer
    /// with what is to be written to it. Where the image cannot be uploaded,
    /// the engine and the upload list are left as they were.
    pub fn load_image_rgba8(&mut self, engine: &mut Engine, pixels: &Vec<u8>, width: u32, height: u32) -> (image:
        Result<(ResourceId, UploadResources), SceneLoadError>)
        requires
            old(self).spec_ready(),
            old(engine).wf(),
        ensures
            final(self).spec_ready(),
            final(engine).wf(),
            match image {
                Err(error) => {
                    &&& spec_image_error(pixels@.len(), width, height) == Some(error)
                    &&& *final(engine) == *old(engine)
                    &&& final(self).spec_commands() == old(self).spec_commands()
                },
                Ok((texture, upload)) => {
                    let first = old(engine).resources().len() as int;
                    &&& spec_image_error(pixels@.len(), width, height).is_none()
                    &&& texture == ResourceId(first as usize)
                    &&& upload.resources@ == seq![ResourceId((first + 1) as usize)]
                    &&& upload.texels@ == pixels@
                    &&& upload.vertices@.len() == 0
                    &&& upload.indices@.len() == 0
                    &&& upload.draw_data@.len() == 0
                    &&& final(self).spec_commands() == old(self).spec_commands() + spec_image_commands(
                        first,
                        width,
                        height,
                    )
                    &&& final(engine).spec_grew(
                        *old(engine),
                        spec_image_records(width, height),
                        Seq::empty(),
                        Seq::empty(),
                        0,
                    )
                },
            },
    {
        assert(width * height <= u32::MAX * u32::MAX) by (nonlinear_arith)
            requires
                width <= u32::MAX,
                height <= u32::MAX,
        ;
        if width as u64 * height as u64 > u32::MAX as u64 || width > u32::MAX / 4 {
            return Err(SceneLoadError::SizeOverflow);
        }
        let num_texels: u32 = width * height;
        let size: u64 = 4 * num_texels as u64;
        if pixels.len() as u64 != size {
            return Err(SceneLoadError::ImageSize);
        }
        assert(4 * (width * height) == (4 * width) * height) by (nonlinear_arith);
        let image = engine.create_committed_resource(
            HeapType::Default,
            ResourceDesc::texture_2d(width, height, Format::R8G8B8A8Unorm, 1, 0, RESOURCE_FLAG_NONE),
            STATE_COPY_DEST,
            None,
        );
        let upload_buffer = engine.create_committed_resource(
            HeapType::Upload,
            ResourceDesc::buffer(size),
            STATE_COPY_SOURCE,
            None,
        );

        let row_pitch: usize = 4 * width as usize;
        let mut texels: Vec<u8> = Vec::new();
        let mut y: usize = 0;
        while y < height as usize
            invariant
                y <= height,
                row_pitch == 4 * width,
                pixels@.len() == row_pitch * height,
                pixels@.len() <= usize::MAX,
                texels@ == pixels@.take(y * row_pitch),
            decreases height - y,
        {
            let mut x: usize = 0;
            proof {
                lemma_row_in_image(y as int, height as int, row_pitch as int);
                assert(y * row_pitch + row_pitch <= pixels@.len());
            }
            let row_start: usize = y * row_pitch;
            while x < row_pitch
                invariant
                    x <= row_pitch,
                    y < height,
                    row_start == y * row_pitch,
                    row_start + row_pitch <= pixels@.len(),
                    pixels@.len() <= usize::MAX,
                    texels@ == pixels@.take(row_start + x),
                decreases row_pitch - x,
            {
                texels.push(pixels[row_start + x]);
                assert(pixels@.take(row_start + x + 1) =~= pixels@.take(row_start + x).push(
                    pixels@[row_start + x],
                ));
                x = x + 1;
            }
            y = y + 1;
            assert(y * row_pitch == row_start + row_pitch) by (nonlinear_arith)
                requires
                    row_start == (y - 1) * row_pitch,
            ;
        }
        assert(texels@ =~= pixels@) by {
            assert(y * row_pitch == pixels@.len()) by (nonlinear_arith)
                requires
                    y == height,
                    pixels@.len() == row_pitch * height,
            ;
        }

        let mut list = self.upload_cmd_list.take().unwrap();
        list.record(
            Command::CopyBufferToTexture {
                dest: image,
                source: upload_buffer,
                format: Format::R8G8B8A8Unorm,
                width,
                height,
                row_pitch: 4 * width,
            },
        );
        // The image is only ever read by shaders.
        list.resource_barrier(
            gen_resource_transition(
                image,
                ALL_SUBRESOURCES,
                STATE_COPY_DEST,
                STATE_ALL_SHADER_RESOURCE,
                BARRIER_FLAG_NONE,
            ),
        );
        self.upload_cmd_list = Some(list);

        let mut resources: Vec<ResourceId> = Vec::new();
        resources.push(upload_buffer);
        proof {
            let first = old(engine).resources().len() as int;
            assert(engine.resources() =~= old(engine).resources() + spec_image_records(width, height));
            assert(engine.views() =~= old(engine).views() + Seq::<ViewRecord>::empty());
            assert(engine.descriptors().issued() =~= old(engine).descriptors().issued() + Seq::<
                Allocation,
            >::empty());
            assert(self.spec_commands() =~= old(self).spec_commands() + spec_image_commands(
                first,
                width,
                height,
            ));
            assert(resources@ =~= seq![ResourceId((first + 1) as usize)]);
        }
        Ok(
            (
                image,
                UploadResources {
                    resources,
                    vertices: Vec::new(),
                    indices: Vec::new(),
                    draw_data: Vec::new(),
                    texels,
                },
            ),
        )
    }
}

/// Why an image cannot be uploaded, if it cannot: the number of its texels and
/// the bytes of one row must fit in 32 bits, and it must hold four bytes per
/// texel.
pub open spec fn spec_image_error(bytes: nat, width: u32, height: u32) -> Option<SceneLoadError> {
    if width * height > u32::MAX || 4 * width > u32::MAX {
        Some(SceneLoadError::SizeOverflow)
    } else if bytes != 4 * (width * height) {
        Some(SceneLoadError::ImageSize)
    } else {
        None
    }
}

/// The texture of an image upload, which starts out as copy destination, and
/// its staging buffer.
pub open spec fn spec_image_records(width: u32, height: u32) -> Seq<ResourceRecord> {
    seq![
        ResourceRecord {
            origin: ResourceOrigin::Committed(HeapType::Default),
            desc: ResourceDesc::spec_texture_2d(
                width,
                height,
                Format::R8G8B8A8Unorm,
                1,
                0,
                RESOURCE_FLAG_NONE,
            ),
            initial_state: STATE_COPY_DEST,
            clear_value: None,
        },
        spec_buffer_record(HeapType::Upload, (4 * (width * height)) as u64, STATE_COPY_SOURCE),
    ]
}

/// The commands of an image upload: the staging buffer is copied to the
/// texture, then the texture becomes readable from every shader stage.
/// `first` names the texture.
pub open spec fn spec_image_commands(first: int, width: u32, height: u32) -> Seq<Command> {
    seq![
        Command::CopyBufferToTexture {
            dest: ResourceId(first as usize),
            source: ResourceId((first + 1) as usize),
            format: Format::R8G8B8A8Unorm,
            width,
            height,
            row_pitch: (4 * width) as u32,
        },
        spec_after_copy(first, STATE_ALL_SHADER_RESOURCE),
    ]
}

/// Row `y` of an image of `height` rows lies inside the image.
pub proof fn lemma_row_in_image(y: int, height: int, row_pitch: int)
    requires
        0 <= y < height,
        0 <= row_pitch,
    ensures
        0 <= y * row_pitch,
        y * row_pitch + row_pitch <= row_pitch * height,
{
    assert(0 <= y * row_pitch) by (nonlinear_arith)
        requires
            0 <= y,
            0 <= row_pitch,
    ;
    assert(y * row_pitch + row_pitch <= row_pitch * height) by (nonlinear_arith)
        requires
            y + 1 <= height,
            0 <= row_pitch,
    ;
}

/// Number of entities a scene has after it is loaded: one per light, one per
/// node, and one per submesh that a node places.
pub open spec fn spec_entity_count(lights: nat, nodes: Seq<Node>) -> nat
    decreases nodes.len(),
{
    if nodes.len() == 0 {
        lights
    } else {
        spec_entity_count(lights, nodes.drop_last()) + 1 + nodes.last().meshes@.len()
    }
}

/// Loading creates exactly one entity per light, per node and per placed
/// submesh, in every component table.
pub proof fn lemma_entity_count(lights: Seq<LightSource>, nodes: Seq<Node>)
    ensures
        spec_add_nodes(spec_add_lights(spec_no_tables(), lights), nodes).0.transforms.len()
            == spec_entity_count(lights.len(), nodes),
        spec_add_nodes(spec_add_lights(spec_no_tables(), lights), nodes).0.instances.len()
            == spec_entity_count(lights.len(), nodes),
        spec_add_nodes(spec_add_lights(spec_no_tables(), lights), nodes).0.point_lights.len()
            == spec_entity_count(lights.len(), nodes),
    decreases nodes.len(),
{
    if nodes.len() > 0 {
        lemma_entity_count(lights, nodes.drop_last());
    }
}

/// Loading the same source twice, each time into a scene that was torn down,
/// yields the same entities and the same geometries: what is loaded depends on
/// the source alone.
pub proof fn lemma_reload_is_stable(
    first: Scene,
    second: Scene,
    lights: Seq<LightSource>,
    source: SceneSource,
)
    requires
        spec_tables(first.world) == spec_add_nodes(
            spec_add_lights(spec_no_tables(), lights),
            source.nodes@,
        ).0,
        spec_tables(second.world) == spec_add_nodes(
            spec_add_lights(spec_no_tables(), lights),
            source.nodes@,
        ).0,
        first.assets.geometries@ == Seq::new(
            source.meshes@.len(),
            |i: int| spec_geometry(source.meshes@, i),
        ),
        second.assets.geometries@ == Seq::new(
            source.meshes@.len(),
            |i: int| spec_geometry(source.meshes@, i),
        ),
    ensures
        first.world.spec_len() == second.world.spec_len(),
        first.world.spec_len() == spec_entity_count(lights.len(), source.nodes@),
        first.world.transforms@ == second.world.transforms@,
        first.world.instances@ == second.world.instances@,
        first.world.point_lights@ == second.world.point_lights@,
        first.assets.geometries@.len() == source.meshes@.len(),
        first.assets.geometries@ == second.assets.geometries@,
{
    lemma_entity_count(lights, source.nodes@);
}

/// Every transition of a geometry upload leaves the state in which its buffer
/// was created, and every copy reads a staging buffer that was created as copy
/// source.
pub proof fn lemma_upload_leaves_creation_states(
    first: int,
    vertices: u32,
    indices: u32,
    geometries: nat,
    i: int,
)
    requires
        0 <= i < 3,
    ensures
        spec_mesh_commands(first)[i] == (Command::CopyResource {
            dest: ResourceId((first + 2 * i) as usize),
            source: ResourceId((first + 2 * i + 1) as usize),
        }),
        spec_mesh_records(vertices, indices, geometries)[2 * i + 1].initial_state
            == STATE_COPY_SOURCE,
        spec_mesh_records(vertices, indices, geometries)[2 * i + 1].origin
            == ResourceOrigin::Committed(HeapType::Upload),
        spec_mesh_records(vertices, indices, geometries)[2 * i].desc.width == spec_mesh_records(
            vertices,
            indices,
            geometries,
        )[2 * i + 1].desc.width,
        spec_mesh_commands(first)[3 + i] matches Command::ResourceBarrier(
            ResourceBarrier::Transition { resource, before, .. },
        ) && resource == ResourceId((first + 2 * i) as usize) && before == spec_mesh_records(
            vertices,
            indices,
            geometries,
        )[2 * i].initial_state,
{
}

/// What is staged for a geometry upload fills its staging buffer exactly: each
/// buffer is as wide as the vertices, indices and draw-data records of the
/// scene take.
pub proof fn lemma_staged_data_fills_buffers(meshes: Seq<SubMesh>)
    requires
        crate::scene::source::spec_fits(meshes),
    ensures
        ({
            let records = spec_mesh_records(
                spec_total_vertices(meshes) as u32,
                spec_total_indices(meshes) as u32,
                meshes.len(),
            );
            &&& records[1].desc.width == spec_all_vertices(meshes).len() * VERTEX_POS_SIZE
            &&& records[3].desc.width == spec_all_indices(meshes).len() * INDEX_SIZE
            &&& records[5].desc.width == meshes.len() * DRAW_DATA_SIZE
            &&& records[0].desc.width == records[1].desc.width
            &&& records[2].desc.width == records[3].desc.width
            &&& records[4].desc.width == records[5].desc.width
        }),
{
    crate::scene::source::lemma_combined_lengths(meshes);
}

} // verus!
