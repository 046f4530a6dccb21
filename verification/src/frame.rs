//! Recording one frame: the commands of the three passes and the resource
//! barriers between them.
//!
//! Between frames the back buffer is presentable, the visibility buffer is
//! readable by compute shaders, the lit image is readable by pixel shaders and
//! the depth target is writable. A frame moves each target through the states
//! in which the passes use it and leaves it as it found it, so that frames
//! can follow each other without end.

use crate::engine::{gen_resource_transition, gen_uav_barrier, CommandList, Engine};
use crate::gpu::{
    Command, PassKind, ResourceBarrier, ResourceId, ALL_SUBRESOURCES, BARRIER_FLAG_NONE, F32_ONE,
    STATE_DEPTH_WRITE, STATE_NON_PIXEL_SHADER_RESOURCE, STATE_PIXEL_SHADER_RESOURCE,
    STATE_PRESENT, STATE_RENDER_TARGET, STATE_UNORDERED_ACCESS,
};
use crate::pass::geometry::{PARAM_DRAW_CONSTANTS, PARAM_DRAW_ID, PARAM_MESH_TABLE, PARAM_VIEW_DATA};
use crate::pass::lighting::{
    PARAM_DRAW_BUFFERS, PARAM_LIGHTING_UAV, PARAM_LIGHT_DATA, PARAM_POINT_LIGHTS, PARAM_TEXTURES,
    PARAM_VISIBILITY,
};
use crate::pass::pipeline::Pipeline;
use crate::pass::postprocess::{FULLSCREEN_TRIANGLE_VERTICES, PARAM_LIT_IMAGE};
use crate::scene::geometry::{Geometry, Instance, Mesh};
use crate::scene::transform::LocalTransform;
use crate::scene::Scene;
use vstd::prelude::*;

verus! {

/// The four targets a frame renders to.
#[derive(Clone, Copy, Debug, PartialEq, Eq, Structural)]
pub struct FrameTargets {
    /// The back buffer.
    pub present: ResourceId,
    /// The visibility buffer.
    pub geometry: ResourceId,
    /// The lit image.
    pub lighting: ResourceId,
    pub depth: ResourceId,
}

/// The state each target is in.
#[derive(Clone, Copy, Debug, PartialEq, Eq, Structural)]
pub struct TargetStates {
    pub present: u32,
    pub geometry: u32,
    pub lighting: u32,
    pub depth: u32,
}

impl FrameTargets {
    /// No two targets are the same resource.
    pub open spec fn spec_distinct(&self) -> bool {
        &&& self.present != self.geometry
        &&& self.present != self.lighting
        &&& self.present != self.depth
        &&& self.geometry != self.lighting
        &&& self.geometry != self.depth
        &&& self.lighting != self.depth
    }
}

/// The states of the targets between frames.
pub open spec fn spec_steady() -> TargetStates {
    TargetStates {
        present: STATE_PRESENT,
        geometry: STATE_NON_PIXEL_SHADER_RESOURCE,
        lighting: STATE_PIXEL_SHADER_RESOURCE,
        depth: STATE_DEPTH_WRITE,
    }
}

/// The states after `command`, if the command is a legal barrier or no barrier
/// at all. A transition is legal where it names all of one target and the
/// target is in the state the transition leaves. A barrier between unordered
/// accesses is legal on the lit image while it is accessed unordered.
pub open spec fn spec_step(targets: FrameTargets, states: TargetStates, command: Command) -> Option<
    TargetStates,
> {
    match command {
        Command::ResourceBarrier(
            ResourceBarrier::Transition { resource, subresource, before, after, flags },
        ) => {
            if subresource != ALL_SUBRESOURCES {
                None
            } else if resource == targets.present {
                if states.present == before {
                    Some(TargetStates { present: after, ..states })
                } else {
                    None
                }
            } else if resource == targets.geometry {
                if states.geometry == before {
                    Some(TargetStates { geometry: after, ..states })
                } else {
                    None
                }
            } else if resource == targets.lighting {
                if states.lighting == before {
                    Some(TargetStates { lighting: after, ..states })
                } else {
                    None
                }
            } else if resource == targets.depth {
                if states.depth == before {
                    Some(TargetStates { depth: after, ..states })
                } else {
                    None
                }
            } else {
                None
            }
        },
        Command::ResourceBarrier(ResourceBarrier::Uav { resource, flags }) => {
            if resource == targets.lighting && states.lighting == STATE_UNORDERED_ACCESS {
                Some(states)
            } else {
                None
            }
        },
        _ => Some(states),
    }
}

/// The targets are in the states in which `command` uses them. Clearing and
/// drawing into the visibility buffer need it as render target and the depth
/// target writable. The lighting dispatch reads the visibility buffer and
/// writes the lit image unordered. The fullscreen triangle reads the lit
/// image and draws into the back buffer. A list is closed with the back
/// buffer presentable.
pub open spec fn spec_access_ok(states: TargetStates, command: Command) -> bool {
    match command {
        Command::ClearRenderTargetView { .. } => states.geometry == STATE_RENDER_TARGET,
        Command::ClearDepthStencilView { .. } => states.depth == STATE_DEPTH_WRITE,
        Command::DrawIndexedInstanced { .. } => states.geometry == STATE_RENDER_TARGET
            && states.depth == STATE_DEPTH_WRITE,
        Command::Dispatch { .. } => states.geometry == STATE_NON_PIXEL_SHADER_RESOURCE
            && states.lighting == STATE_UNORDERED_ACCESS,
        Command::DrawInstanced { .. } => states.lighting == STATE_PIXEL_SHADER_RESOURCE
            && states.present == STATE_RENDER_TARGET,
        Command::Close => states.present == STATE_PRESENT,
        _ => true,
    }
}

/// The states after one more command, if the targets are in the states in
/// which the command uses them and the command is legal.
pub open spec fn spec_advance(targets: FrameTargets, states: Option<TargetStates>, command: Command) -> Option<
    TargetStates,
> {
    match states {
        Some(current) => if spec_access_ok(current, command) {
            spec_step(targets, current, command)
        } else {
            None
        },
        None => None,
    }
}

/// The states after `commands`, if every command finds the targets in the
/// states in which it uses them and every barrier is legal.
pub open spec fn spec_run(targets: FrameTargets, states: TargetStates, commands: Seq<Command>) -> Option<
    TargetStates,
>
    decreases commands.len(),
{
    if commands.len() == 0 {
        Some(states)
    } else {
        spec_advance(targets, spec_run(targets, states, commands.drop_last()), commands.last())
    }
}

/// Running one more command advances the states by that command.
pub proof fn lemma_run_push(
    targets: FrameTargets,
    states: TargetStates,
    commands: Seq<Command>,
    command: Command,
)
    ensures
        spec_run(targets, states, commands.push(command)) == spec_advance(
            targets,
            spec_run(targets, states, commands),
            command,
        ),
{
    assert(commands.push(command).drop_last() =~= commands);
}

/// Running two runs of commands one after the other runs the second from where
/// the first ends.
pub proof fn lemma_run_concat(
    targets: FrameTargets,
    states: TargetStates,
    first: Seq<Command>,
    second: Seq<Command>,
)
    ensures
        spec_run(targets, states, first + second) == match spec_run(targets, states, first) {
            Some(between) => spec_run(targets, between, second),
            None => None,
        },
    decreases second.len(),
{
    if second.len() == 0 {
        assert(first + second =~= first);
    } else {
        lemma_run_concat(targets, states, first, second.drop_last());
        assert((first + second).drop_last() =~= first + second.drop_last());
        assert((first + second).last() == second.last());
    }
}

/// Follows the targets through `commands`, starting in `states`. Returns the
/// states after the last command, or nothing where a command finds a target
/// in a state in which it cannot use it or a barrier is not legal.
pub fn track_states(targets: FrameTargets, states: TargetStates, commands: &Vec<Command>) -> (end:
    Option<TargetStates>)
    ensures
        end == spec_run(targets, states, commands@),
{
    let mut current: TargetStates = states;
    let mut i: usize = 0;
    while i < commands.len()
        invariant
            i <= commands.len(),
            spec_run(targets, states, commands@.take(i as int)) == Some(current),
        decreases commands.len() - i,
    {
        let command: Command = commands[i];
        proof {
            lemma_run_push(targets, states, commands@.take(i as int), command);
            assert(commands@.take(i as int).push(command) =~= commands@.take(i as int + 1));
            lemma_run_concat(
                targets,
                states,
                commands@.take(i as int + 1),
                commands@.skip(i as int + 1),
            );
            assert(commands@.take(i as int + 1) + commands@.skip(i as int + 1) =~= commands@);
        }
        let usable: bool = match command {
            Command::ClearRenderTargetView { .. } => current.geometry == STATE_RENDER_TARGET,
            Command::ClearDepthStencilView { .. } => current.depth == STATE_DEPTH_WRITE,
            Command::DrawIndexedInstanced { .. } => current.geometry == STATE_RENDER_TARGET
                && current.depth == STATE_DEPTH_WRITE,
            Command::Dispatch { .. } => current.geometry == STATE_NON_PIXEL_SHADER_RESOURCE
                && current.lighting == STATE_UNORDERED_ACCESS,
            Command::DrawInstanced { .. } => current.lighting == STATE_PIXEL_SHADER_RESOURCE
                && current.present == STATE_RENDER_TARGET,
            Command::Close => current.present == STATE_PRESENT,
            _ => true,
        };
        if !usable {
            return None;
        }
        match command {
            Command::ResourceBarrier(
                ResourceBarrier::Transition { resource, subresource, before, after, flags },
            ) => {
                if subresource != ALL_SUBRESOURCES {
                    return None;
                } else if resource == targets.present {
                    if current.present != before {
                        return None;
                    }
                    current.present = after;
                } else if resource == targets.geometry {
                    if current.geometry != before {
                        return None;
                    }
                    current.geometry = after;
                } else if resource == targets.lighting {
                    if current.lighting != before {
                        return None;
                    }
                    current.lighting = after;
                } else if resource == targets.depth {
                    if current.depth != before {
                        return None;
                    }
                    current.depth = after;
                } else {
                    return None;
                }
            },
            Command::ResourceBarrier(ResourceBarrier::Uav { resource, flags }) => {
                if !(resource == targets.lighting && current.lighting == STATE_UNORDERED_ACCESS) {
                    return None;
                }
            },
            _ => {},
        }
        i = i + 1;
    }
    proof {
        assert(commands@.take(i as int) =~= commands@);
    }
    Some(current)
}

/// Why a frame cannot be recorded.
#[derive(Clone, Copy, Debug, PartialEq, Eq, Structural)]
pub enum RecordError {
    /// The scene has no mesh or no light buffer.
    SceneNotReady,
    /// The back buffer is one of the pipeline's own targets.
    TargetInUse,
    /// A descriptor table starts at a slot that does not exist.
    DescriptorSlot,
    /// A geometry's range, the number of geometries or the number of lights
    /// exceeds 32 bits.
    SizeOverflow,
}

/// A transition of all of `resource` from `before` to `after`.
pub open spec fn spec_transition(resource: ResourceId, before: u32, after: u32) -> Command {
    Command::ResourceBarrier(
        ResourceBarrier::Transition {
            resource,
            subresource: ALL_SUBRESOURCES,
            before,
            after,
            flags: BARRIER_FLAG_NONE,
        },
    )
}

/// What a frame needs besides pipeline and scene: the back buffer with its
/// render target view, the byte offset of the frame's view data, and the GPU
/// addresses at which the scene's descriptor tables start.
#[derive(Clone, Copy, Debug, PartialEq, Eq, Structural)]
pub struct FrameInputs {
    pub present_target: ResourceId,
    pub present_rtv: u64,
    pub view_data_offset: u64,
    pub mesh_table: u64,
    pub texture_table: u64,
    pub light_table: u64,
    pub num_point_lights: u32,
}

/// The targets of a frame of `pipeline` that renders to `present`.
pub open spec fn spec_targets(pipeline: Pipeline, present: ResourceId) -> FrameTargets {
    FrameTargets {
        present,
        geometry: pipeline.geometry_buffer,
        lighting: pipeline.lighting_buffer,
        depth: pipeline.depth_target,
    }
}

/// How a frame begins: the descriptor heaps are bound, the back buffer and the
/// visibility buffer become render targets and the lit image becomes writable
/// by compute, then the visibility buffer and the depth target are cleared.
pub open spec fn spec_begin(pipeline: Pipeline, inputs: FrameInputs) -> Seq<Command> {
    seq![
        Command::SetDescriptorHeaps,
        spec_transition(inputs.present_target, STATE_PRESENT, STATE_RENDER_TARGET),
        spec_transition(
            pipeline.geometry_buffer,
            STATE_NON_PIXEL_SHADER_RESOURCE,
            STATE_RENDER_TARGET,
        ),
        spec_transition(
            pipeline.lighting_buffer,
            STATE_PIXEL_SHADER_RESOURCE,
            STATE_UNORDERED_ACCESS,
        ),
        Command::ClearRenderTargetView { view: pipeline.geometry_rtv_uint },
        Command::ClearDepthStencilView { view: pipeline.dsv, depth: F32_ONE },
    ]
}

/// What the geometry pass binds before it draws: its signature and state, the
/// visibility buffer and depth target over the whole resolution, the frame's
/// view data, the scene's index and vertex buffer, and the table over both.
pub open spec fn spec_geometry_setup(pipeline: Pipeline, inputs: FrameInputs, mesh: Mesh) -> Seq<Command> {
    seq![
        Command::SetGraphicsRootSignature(PassKind::Geometry),
        Command::SetPipelineState(PassKind::Geometry),
        Command::SetTriangleListTopology,
        Command::SetViewportAndScissor {
            width: pipeline.settings.width,
            height: pipeline.settings.height,
        },
        Command::SetRenderTargets {
            render_target: pipeline.geometry_rtv_uint,
            depth_stencil: Some(pipeline.dsv),
        },
        Command::SetGraphicsRootConstantBufferView {
            parameter: PARAM_VIEW_DATA,
            offset: inputs.view_data_offset,
        },
        Command::SetIndexBuffer {
            buffer: mesh.index_buffer,
            size: mesh.index_buffer_size,
            format: mesh.index_format,
        },
        Command::SetVertexBuffer {
            buffer: mesh.vertex_buffer,
            size: mesh.vertex_buffer_size,
            stride: mesh.vertex_stride,
        },
        Command::SetGraphicsRootDescriptorTable {
            parameter: PARAM_MESH_TABLE,
            base: inputs.mesh_table,
        },
    ]
}

/// The draw of one geometry: its base index and base vertex and its
/// identifier as root constants, then one indexed draw of one instance over
/// its range.
pub open spec fn spec_draw(geometry: Geometry) -> Seq<Command> {
    seq![
        Command::SetGraphicsRootConstantPair {
            parameter: PARAM_DRAW_CONSTANTS,
            first: geometry.base_index as u32,
            second: geometry.base_vertex as u32,
        },
        Command::SetGraphicsRootConstant { parameter: PARAM_DRAW_ID, value: geometry.id as u32 },
        Command::DrawIndexedInstanced {
            index_count: geometry.num_indices as u32,
            instance_count: 1,
            start_index: geometry.base_index as u32,
            base_vertex: geometry.base_vertex as u32,
            start_instance: 0,
        },
    ]
}

/// The geometry that entity `entity` draws, if it draws any: it does where it
/// has both a transform and an instance.
pub open spec fn spec_drawn(
    transforms: Seq<Option<LocalTransform>>,
    instances: Seq<Option<Instance>>,
    entity: int,
) -> Option<usize> {
    if transforms[entity].is_some() && instances[entity].is_some() {
        Some(instances[entity].unwrap().geometry)
    } else {
        None
    }
}

/// The draws of the first `count` entities, in order of their indices.
pub open spec fn spec_draws(
    transforms: Seq<Option<LocalTransform>>,
    instances: Seq<Option<Instance>>,
    geometries: Seq<Geometry>,
    count: nat,
) -> Seq<Command>
    decreases count,
{
    if count == 0 {
        Seq::empty()
    } else {
        let before = spec_draws(transforms, instances, geometries, (count - 1) as nat);
        match spec_drawn(transforms, instances, count - 1) {
            Some(geometry) => before + spec_draw(geometries[geometry as int]),
            None => before,
        }
    }
}

/// The lighting pass: the visibility buffer becomes readable, the pass binds
/// its signature, its state and its tables, and dispatches one thread group
/// per tile. Then the unordered writes to the lit image finish, and the lit
/// image becomes readable by pixel shaders.
pub open spec fn spec_lighting(pipeline: Pipeline, inputs: FrameInputs) -> Seq<Command> {
    seq![
        spec_transition(
            pipeline.geometry_buffer,
            STATE_RENDER_TARGET,
            STATE_NON_PIXEL_SHADER_RESOURCE,
        ),
        Command::SetComputeRootSignature(PassKind::Lighting),
        Command::SetPipelineState(PassKind::Lighting),
        Command::SetComputeRootDescriptorTable {
            parameter: PARAM_LIGHTING_UAV,
            base: pipeline.lighting_uav,
        },
        Command::SetComputeRootDescriptorTable {
            parameter: PARAM_VISIBILITY,
            base: pipeline.geometry_srv_uint,
        },
        Command::SetComputeRootDescriptorTable {
            parameter: PARAM_TEXTURES,
            base: inputs.texture_table,
        },
        Command::SetComputeRootDescriptorTable {
            parameter: PARAM_DRAW_BUFFERS,
            base: inputs.mesh_table,
        },
        Command::SetComputeRootConstant {
            parameter: PARAM_LIGHT_DATA,
            value: inputs.num_point_lights,
        },
        Command::SetComputeRootDescriptorTable {
            parameter: PARAM_POINT_LIGHTS,
            base: inputs.light_table,
        },
        Command::Dispatch {
            x: pipeline.settings.spec_tiles().0,
            y: pipeline.settings.spec_tiles().1,
            z: 1,
        },
        Command::ResourceBarrier(
            ResourceBarrier::Uav { resource: pipeline.lighting_buffer, flags: BARRIER_FLAG_NONE },
        ),
        spec_transition(
            pipeline.lighting_buffer,
            STATE_UNORDERED_ACCESS,
            STATE_PIXEL_SHADER_RESOURCE,
        ),
    ]
}

/// Post-processing and the end of the frame: the pass binds its signature and
/// state, the back buffer over the whole resolution and the lit image, and
/// draws the fullscreen triangle. Then the back buffer becomes presentable and
/// the list is closed.
pub open spec fn spec_post_process(pipeline: Pipeline, inputs: FrameInputs) -> Seq<Command> {
    seq![
        Command::SetGraphicsRootSignature(PassKind::DisplayMap),
        Command::SetPipelineState(PassKind::DisplayMap),
        Command::SetTriangleListTopology,
        Command::SetViewportAndScissor {
            width: pipeline.settings.width,
            height: pipeline.settings.height,
        },
        Command::SetRenderTargets { render_target: inputs.present_rtv, depth_stencil: None },
        Command::SetGraphicsRootDescriptorTable {
            parameter: PARAM_LIT_IMAGE,
            base: pipeline.lighting_srv,
        },
        Command::DrawInstanced {
            vertex_count: FULLSCREEN_TRIANGLE_VERTICES,
            instance_count: 1,
            start_vertex: 0,
            start_instance: 0,
        },
        spec_transition(inputs.present_target, STATE_RENDER_TARGET, STATE_PRESENT),
        Command::Close,
    ]
}

/// The commands of one frame.
pub open spec fn spec_frame(pipeline: Pipeline, inputs: FrameInputs, scene: Scene) -> Seq<Command> {
    spec_begin(pipeline, inputs) + spec_geometry_setup(
        pipeline,
        inputs,
        scene.assets.mesh.unwrap(),
    ) + spec_draws(
        scene.world.transforms@,
        scene.world.instances@,
        scene.assets.geometries@,
        scene.world.transforms@.len(),
    ) + spec_lighting(pipeline, inputs) + spec_post_process(pipeline, inputs)
}

/// The states of the targets while the geometry pass draws.
pub open spec fn spec_drawing() -> TargetStates {
    TargetStates {
        present: STATE_RENDER_TARGET,
        geometry: STATE_RENDER_TARGET,
        lighting: STATE_UNORDERED_ACCESS,
        depth: STATE_DEPTH_WRITE,
    }
}

/// The states of the targets after the lighting pass.
pub open spec fn spec_lit() -> TargetStates {
    TargetStates {
        present: STATE_RENDER_TARGET,
        geometry: STATE_NON_PIXEL_SHADER_RESOURCE,
        lighting: STATE_PIXEL_SHADER_RESOURCE,
        depth: STATE_DEPTH_WRITE,
    }
}

/// The draws of any entities leave the targets in the states for drawing.
pub proof fn lemma_draws_keep_states(
    targets: FrameTargets,
    transforms: Seq<Option<LocalTransform>>,
    instances: Seq<Option<Instance>>,
    geometries: Seq<Geometry>,
    count: nat,
)
    ensures
        spec_run(targets, spec_drawing(), spec_draws(transforms, instances, geometries, count))
            == Some(spec_drawing()),
    decreases count,
{
    if count > 0 {
        let before = spec_draws(transforms, instances, geometries, (count - 1) as nat);
        lemma_draws_keep_states(targets, transforms, instances, geometries, (count - 1) as nat);
        match spec_drawn(transforms, instances, count - 1) {
            Some(geometry) => {
                let draw = spec_draw(geometries[geometry as int]);
                lemma_run_concat(targets, spec_drawing(), before, draw);
                reveal_with_fuel(spec_run, 4);
                assert(spec_run(targets, spec_drawing(), draw) == Some(spec_drawing()));
            },
            None => {},
        }
    }
}

/// The beginning of a frame takes the targets from the states between frames
/// to the states for drawing.
pub proof fn lemma_begin_states(pipeline: Pipeline, inputs: FrameInputs)
    requires
        spec_targets(pipeline, inputs.present_target).spec_distinct(),
    ensures
        spec_run(
            spec_targets(pipeline, inputs.present_target),
            spec_steady(),
            spec_begin(pipeline, inputs),
        ) == Some(spec_drawing()),
{
    reveal_with_fuel(spec_run, 7);
}

/// What the geometry pass binds leaves the targets in the states for drawing.
pub proof fn lemma_setup_states(pipeline: Pipeline, inputs: FrameInputs, mesh: Mesh)
    ensures
        spec_run(
            spec_targets(pipeline, inputs.present_target),
            spec_drawing(),
            spec_geometry_setup(pipeline, inputs, mesh),
        ) == Some(spec_drawing()),
{
    reveal_with_fuel(spec_run, 10);
}

/// The lighting pass takes the targets from the states for drawing to the
/// states in which the lit image can be read.
pub proof fn lemma_lighting_states(pipeline: Pipeline, inputs: FrameInputs)
    requires
        spec_targets(pipeline, inputs.present_target).spec_distinct(),
    ensures
        spec_run(
            spec_targets(pipeline, inputs.present_target),
            spec_drawing(),
            spec_lighting(pipeline, inputs),
        ) == Some(spec_lit()),
{
    reveal_with_fuel(spec_run, 13);
}

/// Post-processing and the end of the frame take the targets back to the
/// states between frames.
pub proof fn lemma_post_process_states(pipeline: Pipeline, inputs: FrameInputs)
    requires
        spec_targets(pipeline, inputs.present_target).spec_distinct(),
    ensures
        spec_run(
            spec_targets(pipeline, inputs.present_target),
            spec_lit(),
            spec_post_process(pipeline, inputs),
        ) == Some(spec_steady()),
{
    reveal_with_fuel(spec_run, 10);
}

/// Every frame is a legal sequence: each barrier finds its target in the
/// state it leaves, each pass finds its targets in the states in which it
/// uses them, and at the end every target is back in the state in which the
/// frame found it. In particular the visibility buffer is a render target
/// while it is drawn into and has become readable before the lighting pass
/// reads it, and the lit image is written unordered by the lighting pass and
/// has become readable before post-processing reads it.
pub proof fn lemma_frame_is_legal(pipeline: Pipeline, inputs: FrameInputs, scene: Scene)
    requires
        spec_targets(pipeline, inputs.present_target).spec_distinct(),
    ensures
        spec_run(
            spec_targets(pipeline, inputs.present_target),
            spec_steady(),
            spec_frame(pipeline, inputs, scene),
        ) == Some(spec_steady()),
{
    let targets = spec_targets(pipeline, inputs.present_target);
    let begin = spec_begin(pipeline, inputs);
    let setup = spec_geometry_setup(pipeline, inputs, scene.assets.mesh.unwrap());
    let draws = spec_draws(
        scene.world.transforms@,
        scene.world.instances@,
        scene.assets.geometries@,
        scene.world.transforms@.len(),
    );
    let lighting = spec_lighting(pipeline, inputs);
    let post = spec_post_process(pipeline, inputs);
    lemma_begin_states(pipeline, inputs);
    lemma_setup_states(pipeline, inputs, scene.assets.mesh.unwrap());
    lemma_draws_keep_states(
        targets,
        scene.world.transforms@,
        scene.world.instances@,
        scene.assets.geometries@,
        scene.world.transforms@.len(),
    );
    lemma_lighting_states(pipeline, inputs);
    lemma_post_process_states(pipeline, inputs);
    lemma_run_concat(targets, spec_steady(), begin, setup);
    lemma_run_concat(targets, spec_steady(), begin + setup, draws);
    lemma_run_concat(targets, spec_steady(), begin + setup + draws, lighting);
    lemma_run_concat(targets, spec_steady(), begin + setup + draws + lighting, post);
}

/// Every range and identifier of `geometries` fits in 32 bits.
pub open spec fn spec_geometries_fit(geometries: Seq<Geometry>) -> bool {
    forall|i: int|
        0 <= i < geometries.len() ==> {
            &&& (#[trigger] geometries[i]).id <= u32::MAX
            &&& geometries[i].base_index <= u32::MAX
            &&& geometries[i].num_indices <= u32::MAX
            &&& geometries[i].base_vertex <= u32::MAX
        }
}

/// Why a frame of `pipeline` over `scene` to the back buffer `present_target`
/// cannot be recorded, if it cannot. The scene is looked at first, then the
/// back buffer, then sizes, then the descriptor tables.
pub open spec fn spec_record_error(
    engine: Engine,
    pipeline: Pipeline,
    scene: Scene,
    present_target: ResourceId,
) -> Option<RecordError> {
    let heap = engine.spec_cbv_srv_uav_heap();
    if scene.assets.mesh.is_none() || scene.world.light_buffer.is_none() {
        Some(RecordError::SceneNotReady)
    } else if !spec_targets(pipeline, present_target).spec_distinct() {
        Some(RecordError::TargetInUse)
    } else if scene.point_lights@.len() > u32::MAX || !spec_geometries_fit(scene.assets.geometries@) {
        Some(RecordError::SizeOverflow)
    } else if scene.texture_srvs.start_id > u32::MAX || !heap.spec_addressable(
        scene.assets.mesh.unwrap().start_srvs,
    ) || !heap.spec_addressable(scene.texture_srvs.start_id as u32) || !heap.spec_addressable(
        scene.world.light_buffer.unwrap().start_srvs,
    ) {
        Some(RecordError::DescriptorSlot)
    } else {
        None
    }
}

/// What a frame over `scene` to the back buffer `present_target` needs.
pub open spec fn spec_frame_inputs(
    engine: Engine,
    scene: Scene,
    present_target: ResourceId,
    present_rtv: u64,
    view_data_offset: u64,
) -> FrameInputs {
    let heap = engine.spec_cbv_srv_uav_heap();
    FrameInputs {
        present_target,
        present_rtv,
        view_data_offset,
        mesh_table: heap.spec_handle(scene.assets.mesh.unwrap().start_srvs).gpu,
        texture_table: heap.spec_handle(scene.texture_srvs.start_id as u32).gpu,
        light_table: heap.spec_handle(scene.world.light_buffer.unwrap().start_srvs).gpu,
        num_point_lights: scene.point_lights@.len() as u32,
    }
}

/// Whether every range and identifier of `geometries` fits in 32 bits.
pub fn geometries_fit(geometries: &Vec<Geometry>) -> (fit: bool)
    ensures
        fit == spec_geometries_fit(geometries@),
{
    let limit: usize = u32::MAX as usize;
    let mut i: usize = 0;
    while i < geometries.len()
        invariant
            i <= geometries.len(),
            limit == u32::MAX,
            spec_geometries_fit(geometries@.take(i as int)),
        decreases geometries.len() - i,
    {
        let geometry: Geometry = geometries[i];
        if geometry.id > limit || geometry.base_index > limit || geometry.num_indices > limit
            || geometry.base_vertex > limit {
            return false;
        }
        proof {
            assert forall|k: int| 0 <= k < i + 1 implies {
                &&& (#[trigger] geometries@.take(i as int + 1)[k]).id <= u32::MAX
                &&& geometries@.take(i as int + 1)[k].base_index <= u32::MAX
                &&& geometries@.take(i as int + 1)[k].num_indices <= u32::MAX
                &&& geometries@.take(i as int + 1)[k].base_vertex <= u32::MAX
            } by {
                if k < i {
                    assert(geometries@.take(i as int + 1)[k] == geometries@.take(i as int)[k]);
                }
            }
        }
        i = i + 1;
    }
    proof {
        assert(geometries@.take(i as int) =~= geometries@);
    }
    true
}

/// Looks for what keeps a frame from being recorded, and gathers what the
/// frame needs where nothing does.
pub fn prepare_frame(
    engine: &Engine,
    pipeline: &Pipeline,
    scene: &Scene,
    present_target: ResourceId,
    present_rtv: u64,
    view_data_offset: u64,
) -> (inputs: Result<FrameInputs, RecordError>)
    ensures
        match inputs {
            Ok(gathered) => {
                &&& spec_record_error(*engine, *pipeline, *scene, present_target).is_none()
                &&& gathered == spec_frame_inputs(
                    *engine,
                    *scene,
                    present_target,
                    present_rtv,
                    view_data_offset,
                )
            },
            Err(error) => spec_record_error(*engine, *pipeline, *scene, present_target) == Some(
                error,
            ),
        },
{
    let mesh: Mesh = match scene.assets.mesh {
        Some(mesh) => mesh,
        None => {
            return Err(RecordError::SceneNotReady);
        },
    };
    let light_start: u32 = match &scene.world.light_buffer {
        Some(lights) => lights.start_srvs,
        None => {
            return Err(RecordError::SceneNotReady);
        },
    };
    if present_target == pipeline.geometry_buffer || present_target == pipeline.lighting_buffer
        || present_target == pipeline.depth_target || pipeline.geometry_buffer
        == pipeline.lighting_buffer || pipeline.geometry_buffer == pipeline.depth_target
        || pipeline.lighting_buffer == pipeline.depth_target {
        return Err(RecordError::TargetInUse);
    }
    if scene.point_lights.len() > u32::MAX as usize || !geometries_fit(&scene.assets.geometries) {
        return Err(RecordError::SizeOverflow);
    }
    if scene.texture_srvs.start_id > u32::MAX as usize {
        return Err(RecordError::DescriptorSlot);
    }
    let heap = engine.cbv_srv_uav_heap();
    let mesh_table = heap.handle(mesh.start_srvs);
    let texture_table = heap.handle(scene.texture_srvs.start_id as u32);
    let light_table = heap.handle(light_start);
    match (mesh_table, texture_table, light_table) {
        (Some(mesh_table), Some(texture_table), Some(light_table)) => Ok(
            FrameInputs {
                present_target,
                present_rtv,
                view_data_offset,
                mesh_table: mesh_table.gpu,
                texture_table: texture_table.gpu,
                light_table: light_table.gpu,
                num_point_lights: scene.point_lights.len() as u32,
            },
        ),
        _ => Err(RecordError::DescriptorSlot),
    }
}

/// Records how a frame begins.
pub fn record_begin(cmd_list: &mut CommandList, engine: &Engine, pipeline: &Pipeline, inputs: &FrameInputs)
    requires
        old(cmd_list).recording,
    ensures
        final(cmd_list).recording,
        final(cmd_list).commands@ == old(cmd_list).commands@ + spec_begin(*pipeline, *inputs),
{
    engine.bind_descriptor_heaps(cmd_list);
    cmd_list.resource_barrier(
        gen_resource_transition(
            inputs.present_target,
            ALL_SUBRESOURCES,
            STATE_PRESENT,
            STATE_RENDER_TARGET,
            BARRIER_FLAG_NONE,
        ),
    );
    cmd_list.resource_barrier(
        gen_resource_transition(
            pipeline.geometry_buffer,
            ALL_SUBRESOURCES,
            STATE_NON_PIXEL_SHADER_RESOURCE,
            STATE_RENDER_TARGET,
            BARRIER_FLAG_NONE,
        ),
    );
    cmd_list.resource_barrier(
        gen_resource_transition(
            pipeline.lighting_buffer,
            ALL_SUBRESOURCES,
            STATE_PIXEL_SHADER_RESOURCE,
            STATE_UNORDERED_ACCESS,
            BARRIER_FLAG_NONE,
        ),
    );
    cmd_list.record(Command::ClearRenderTargetView { view: pipeline.geometry_rtv_uint });
    cmd_list.record(Command::ClearDepthStencilView { view: pipeline.dsv, depth: F32_ONE });
    assert(cmd_list.commands@ =~= old(cmd_list).commands@ + spec_begin(*pipeline, *inputs));
}

/// Records the geometry pass: one draw per entity that has a transform and an
/// instance, in order of the entities.
pub fn record_geometry(
    cmd_list: &mut CommandList,
    pipeline: &Pipeline,
    inputs: &FrameInputs,
    scene: &Scene,
)
    requires
        old(cmd_list).recording,
        scene.wf(),
        scene.assets.mesh.is_some(),
        spec_geometries_fit(scene.assets.geometries@),
    ensures
        final(cmd_list).recording,
        final(cmd_list).commands@ == old(cmd_list).commands@ + spec_geometry_setup(
            *pipeline,
            *inputs,
            scene.assets.mesh.unwrap(),
        ) + spec_draws(
            scene.world.transforms@,
            scene.world.instances@,
            scene.assets.geometries@,
            scene.world.transforms@.len(),
        ),
{
    let mesh: Mesh = scene.assets.mesh.unwrap();
    cmd_list.record(Command::SetGraphicsRootSignature(PassKind::Geometry));
    cmd_list.record(Command::SetPipelineState(PassKind::Geometry));
    cmd_list.record(Command::SetTriangleListTopology);
    cmd_list.record(
        Command::SetViewportAndScissor {
            width: pipeline.settings.width,
            height: pipeline.settings.height,
        },
    );
    cmd_list.record(
        Command::SetRenderTargets {
            render_target: pipeline.geometry_rtv_uint,
            depth_stencil: Some(pipeline.dsv),
        },
    );
    cmd_list.record(
        Command::SetGraphicsRootConstantBufferView {
            parameter: PARAM_VIEW_DATA,
            offset: inputs.view_data_offset,
        },
    );
    cmd_list.record(
        Command::SetIndexBuffer {
            buffer: mesh.index_buffer,
            size: mesh.index_buffer_size,
            format: mesh.index_format,
        },
    );
    cmd_list.record(
        Command::SetVertexBuffer {
            buffer: mesh.vertex_buffer,
            size: mesh.vertex_buffer_size,
            stride: mesh.vertex_stride,
        },
    );
    cmd_list.record(
        Command::SetGraphicsRootDescriptorTable {
            parameter: PARAM_MESH_TABLE,
            base: inputs.mesh_table,
        },
    );
    let ghost bound = old(cmd_list).commands@ + spec_geometry_setup(*pipeline, *inputs, mesh);
    assert(cmd_list.commands@ =~= bound);

    let mut entity: usize = 0;
    while entity < scene.world.transforms.len()
        invariant
            entity <= scene.world.transforms@.len(),
            scene.wf(),
            spec_geometries_fit(scene.assets.geometries@),
            cmd_list.recording,
            cmd_list.commands@ == bound + spec_draws(
                scene.world.transforms@,
                scene.world.instances@,
                scene.assets.geometries@,
                entity as nat,
            ),
        decreases scene.world.transforms@.len() - entity,
    {
        let ghost before = cmd_list.commands@;
        if scene.world.transforms[entity].is_some() {
            match scene.world.instances[entity] {
                Some(instance) => {
                    let geometry: Geometry = scene.assets.geometries[instance.geometry];
                    cmd_list.record(
                        Command::SetGraphicsRootConstantPair {
                            parameter: PARAM_DRAW_CONSTANTS,
                            first: geometry.base_index as u32,
                            second: geometry.base_vertex as u32,
                        },
                    );
                    cmd_list.record(
                        Command::SetGraphicsRootConstant {
                            parameter: PARAM_DRAW_ID,
                            value: geometry.id as u32,
                        },
                    );
                    cmd_list.record(
                        Command::DrawIndexedInstanced {
                            index_count: geometry.num_indices as u32,
                            instance_count: 1,
                            start_index: geometry.base_index as u32,
                            base_vertex: geometry.base_vertex as u32,
                            start_instance: 0,
                        },
                    );
                    assert(cmd_list.commands@ =~= before + spec_draw(geometry));
                },
                None => {},
            }
        }
        entity = entity + 1;
        assert(cmd_list.commands@ =~= bound + spec_draws(
            scene.world.transforms@,
            scene.world.instances@,
            scene.assets.geometries@,
            entity as nat,
        ));
    }
}

/// Records the lighting pass.
pub fn record_lighting(cmd_list: &mut CommandList, pipeline: &Pipeline, inputs: &FrameInputs)
    requires
        old(cmd_list).recording,
        pipeline.wf(),
    ensures
        final(cmd_list).recording,
        final(cmd_list).commands@ == old(cmd_list).commands@ + spec_lighting(*pipeline, *inputs),
{
    // Visibility buffer: render target to shader resource.
    cmd_list.resource_barrier(
        gen_resource_transition(
            pipeline.geometry_buffer,
            ALL_SUBRESOURCES,
            STATE_RENDER_TARGET,
            STATE_NON_PIXEL_SHADER_RESOURCE,
            BARRIER_FLAG_NONE,
        ),
    );
    cmd_list.record(Command::SetComputeRootSignature(PassKind::Lighting));
    cmd_list.record(Command::SetPipelineState(PassKind::Lighting));
    cmd_list.record(
        Command::SetComputeRootDescriptorTable {
            parameter: PARAM_LIGHTING_UAV,
            base: pipeline.lighting_uav,
        },
    );
    cmd_list.record(
        Command::SetComputeRootDescriptorTable {
            parameter: PARAM_VISIBILITY,
            base: pipeline.geometry_srv_uint,
        },
    );
    cmd_list.record(
        Command::SetComputeRootDescriptorTable {
            parameter: PARAM_TEXTURES,
            base: inputs.texture_table,
        },
    );
    cmd_list.record(
        Command::SetComputeRootDescriptorTable {
            parameter: PARAM_DRAW_BUFFERS,
            base: inputs.mesh_table,
        },
    );
    cmd_list.record(
        Command::SetComputeRootConstant {
            parameter: PARAM_LIGHT_DATA,
            value: inputs.num_point_lights,
        },
    );
    cmd_list.record(
        Command::SetComputeRootDescriptorTable {
            parameter: PARAM_POINT_LIGHTS,
            base: inputs.light_table,
        },
    );
    let tiles = pipeline.tiles();
    cmd_list.record(Command::Dispatch { x: tiles.0, y: tiles.1, z: 1 });
    cmd_list.resource_barrier(gen_uav_barrier(pipeline.lighting_buffer, BARRIER_FLAG_NONE));
    cmd_list.resource_barrier(
        gen_resource_transition(
            pipeline.lighting_buffer,
            ALL_SUBRESOURCES,
            STATE_UNORDERED_ACCESS,
            STATE_PIXEL_SHADER_RESOURCE,
            BARRIER_FLAG_NONE,
        ),
    );
    assert(cmd_list.commands@ =~= old(cmd_list).commands@ + spec_lighting(*pipeline, *inputs));
}

/// Records post-processing and the end of the frame, and closes the list.
pub fn record_post_process(cmd_list: &mut CommandList, pipeline: &Pipeline, inputs: &FrameInputs)
    requires
        old(cmd_list).recording,
    ensures
        !final(cmd_list).recording,
        final(cmd_list).commands@ == old(cmd_list).commands@ + spec_post_process(
            *pipeline,
            *inputs,
        ),
{
    cmd_list.record(Command::SetGraphicsRootSignature(PassKind::DisplayMap));
    cmd_list.record(Command::SetPipelineState(PassKind::DisplayMap));
    cmd_list.record(Command::SetTriangleListTopology);
    cmd_list.record(
        Command::SetViewportAndScissor {
            width: pipeline.settings.width,
            height: pipeline.settings.height,
        },
    );
    cmd_list.record(
        Command::SetRenderTargets { render_target: inputs.present_rtv, depth_stencil: None },
    );
    cmd_list.record(
        Command::SetGraphicsRootDescriptorTable {
            parameter: PARAM_LIT_IMAGE,
            base: pipeline.lighting_srv,
        },
    );
    cmd_list.record(
        Command::DrawInstanced {
            vertex_count: FULLSCREEN_TRIANGLE_VERTICES,
            instance_count: 1,
            start_vertex: 0,
            start_instance: 0,
        },
    );
    // Back buffer: render target to present.
    cmd_list.resource_barrier(
        gen_resource_transition(
            inputs.present_target,
            ALL_SUBRESOURCES,
            STATE_RENDER_TARGET,
            STATE_PRESENT,
            BARRIER_FLAG_NONE,
        ),
    );
    cmd_list.close();
    assert(cmd_list.commands@ =~= old(cmd_list).commands@ + spec_post_process(*pipeline, *inputs));
}

/// Records one frame into a list that was reset: the geometry pass over the
/// scene's instances, the lighting pass and post-processing to the back
/// buffer `present_target`, with the barriers between them. The list is
/// closed afterwards. What is recorded is a legal sequence that leaves every
/// target in the state in which it found it. Where the frame cannot be
/// recorded the list is left as it was.
pub fn record_frame(
    cmd_list: &mut CommandList,
    engine: &Engine,
    pipeline: &Pipeline,
    scene: &Scene,
    present_target: ResourceId,
    present_rtv: u64,
    view_data_offset: u64,
) -> (recorded: Result<(), RecordError>)
    requires
        old(cmd_list).recording,
        pipeline.wf(),
        scene.wf(),
    ensures
        match recorded {
            Ok(_) => {
                let inputs = spec_frame_inputs(
                    *engine,
                    *scene,
                    present_target,
                    present_rtv,
                    view_data_offset,
                );
                &&& spec_record_error(*engine, *pipeline, *scene, present_target).is_none()
                &&& !final(cmd_list).recording
                &&& final(cmd_list).commands@ == old(cmd_list).commands@ + spec_frame(
                    *pipeline,
                    inputs,
                    *scene,
                )
                &&& spec_run(
                    spec_targets(*pipeline, present_target),
                    spec_steady(),
                    spec_frame(*pipeline, inputs, *scene),
                ) == Some(spec_steady())
            },
            Err(error) => {
                &&& spec_record_error(*engine, *pipeline, *scene, present_target) == Some(error)
                &&& *final(cmd_list) == *old(cmd_list)
            },
        },
{
    let inputs = match prepare_frame(
        engine,
        pipeline,
        scene,
        present_target,
        present_rtv,
        view_data_offset,
    ) {
        Ok(inputs) => inputs,
        Err(error) => {
            return Err(error);
        },
    };
    record_begin(cmd_list, engine, pipeline, &inputs);
    record_geometry(cmd_list, pipeline, &inputs, scene);
    record_lighting(cmd_list, pipeline, &inputs);
    record_post_process(cmd_list, pipeline, &inputs);
    proof {
        lemma_frame_is_legal(*pipeline, inputs, *scene);
        assert(cmd_list.commands@ =~= old(cmd_list).commands@ + spec_frame(
            *pipeline,
            inputs,
            *scene,
        ));
    }
    Ok(())
}

/// The targets are created in the states between frames: the first frame
/// finds them as every later frame does.
pub proof fn lemma_targets_are_created_steady(
    settings: crate::pass::pipeline::PipelineSettings,
    width: u32,
    height: u32,
    buffer: u32,
)
    ensures
        crate::pass::pipeline::spec_targets(settings)[0].initial_state == spec_steady().depth,
        crate::pass::pipeline::spec_targets(settings)[1].initial_state == spec_steady().geometry,
        crate::pass::pipeline::spec_targets(settings)[2].initial_state == spec_steady().lighting,
        crate::swapchain::spec_back_buffer(width, height, buffer).initial_state
            == spec_steady().present,
{
}

} // verus!
