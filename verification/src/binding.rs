//! Bindings against signatures.
//!
//! A command that binds a root parameter is only meaningful against the
//! signature that is set: the parameter must exist in it and be of the kind
//! the command binds. This module follows the signatures through a command
//! list and shows that every frame binds what its passes declare.

use crate::frame::{
    spec_begin, spec_draw, spec_draws, spec_frame, spec_geometry_setup, spec_lighting,
    spec_post_process, FrameInputs,
};
use crate::gpu::{Command, PassKind};
use crate::pass::geometry::Geometry;
use crate::pass::lighting::Lighting;
use crate::pass::pipeline::Pipeline;
use crate::pass::postprocess::PostProcess;
use crate::pass::{RootDescriptorType, RootParameter};
use crate::scene::geometry::{Instance, Mesh};
use crate::scene::transform::LocalTransform;
use crate::scene::Scene;
use vstd::prelude::*;

verus! {

/// What is set on a command list: the signature for draws, the signature for
/// dispatches, and the pipeline state.
#[derive(Clone, Copy, Debug, PartialEq, Eq, Structural)]
pub struct Bound {
    pub graphics: Option<PassKind>,
    pub compute: Option<PassKind>,
    pub state: Option<PassKind>,
}

/// Nothing is set, as on a list that was reset.
pub open spec fn spec_unbound() -> Bound {
    Bound { graphics: None, compute: None, state: None }
}

/// The parameters of the signature of pass `kind`.
pub open spec fn spec_signature_of(kind: PassKind) -> Seq<RootParameter> {
    match kind {
        PassKind::Geometry => Geometry::spec_parameters(),
        PassKind::Lighting => Lighting::spec_parameters(),
        PassKind::DisplayMap => PostProcess::spec_parameters(),
    }
}

/// Pass `kind` draws; the lighting pass dispatches.
pub open spec fn spec_is_graphics(kind: PassKind) -> bool {
    kind != PassKind::Lighting
}

/// Parameter `parameter` of the signature `signature` is a descriptor table.
pub open spec fn spec_is_table(signature: Option<PassKind>, parameter: u32) -> bool {
    &&& signature.is_some()
    &&& parameter < spec_signature_of(signature.unwrap()).len()
    &&& spec_signature_of(signature.unwrap())[parameter as int] is Table
}

/// Parameter `parameter` of the signature `signature` is a block of at least
/// `count` constants.
pub open spec fn spec_is_constants(signature: Option<PassKind>, parameter: u32, count: u32) -> bool {
    &&& signature.is_some()
    &&& parameter < spec_signature_of(signature.unwrap()).len()
    &&& match spec_signature_of(signature.unwrap())[parameter as int] {
        RootParameter::Constants { constants, .. } => count <= constants.num_32bit_values,
        _ => false,
    }
}

/// Parameter `parameter` of the signature `signature` is a constant buffer
/// bound directly.
pub open spec fn spec_is_constant_buffer(signature: Option<PassKind>, parameter: u32) -> bool {
    &&& signature.is_some()
    &&& parameter < spec_signature_of(signature.unwrap()).len()
    &&& match spec_signature_of(signature.unwrap())[parameter as int] {
        RootParameter::Descriptor { ty, .. } => ty == RootDescriptorType::Cbv,
        _ => false,
    }
}

/// What is set after `command`, if the command fits what is set before it. A
/// binding needs its parameter in the signature that is set, of the kind it
/// binds. A draw needs the state of the pass whose signature is set for
/// draws, a dispatch that of the pass whose signature is set for dispatches.
pub open spec fn spec_bind(bound: Bound, command: Command) -> Option<Bound> {
    match command {
        Command::SetGraphicsRootSignature(kind) => if spec_is_graphics(kind) {
            Some(Bound { graphics: Some(kind), ..bound })
        } else {
            None
        },
        Command::SetComputeRootSignature(kind) => if !spec_is_graphics(kind) {
            Some(Bound { compute: Some(kind), ..bound })
        } else {
            None
        },
        Command::SetPipelineState(kind) => Some(Bound { state: Some(kind), ..bound }),
        Command::SetGraphicsRootConstantBufferView { parameter, .. } => if spec_is_constant_buffer(
            bound.graphics,
            parameter,
        ) {
            Some(bound)
        } else {
            None
        },
        Command::SetGraphicsRootDescriptorTable { parameter, .. } => if spec_is_table(
            bound.graphics,
            parameter,
        ) {
            Some(bound)
        } else {
            None
        },
        Command::SetComputeRootDescriptorTable { parameter, .. } => if spec_is_table(
            bound.compute,
            parameter,
        ) {
            Some(bound)
        } else {
            None
        },
        Command::SetGraphicsRootConstantPair { parameter, .. } => if spec_is_constants(
            bound.graphics,
            parameter,
            2,
        ) {
            Some(bound)
        } else {
            None
        },
        Command::SetGraphicsRootConstant { parameter, .. } => if spec_is_constants(
            bound.graphics,
            parameter,
            1,
        ) {
            Some(bound)
        } else {
            None
        },
        Command::SetComputeRootConstant { parameter, .. } => if spec_is_constants(
            bound.compute,
            parameter,
            1,
        ) {
            Some(bound)
        } else {
            None
        },
        Command::DrawIndexedInstanced { .. } => if bound.graphics == Some(PassKind::Geometry)
            && bound.state == Some(PassKind::Geometry) {
            Some(bound)
        } else {
            None
        },
        Command::DrawInstanced { .. } => if bound.graphics == Some(PassKind::DisplayMap)
            && bound.state == Some(PassKind::DisplayMap) {
            Some(bound)
        } else {
            None
        },
        Command::Dispatch { .. } => if bound.compute == Some(PassKind::Lighting) && bound.state
            == Some(PassKind::Lighting) {
            Some(bound)
        } else {
            None
        },
        _ => Some(bound),
    }
}

/// What is set after `commands`, if every command fits what is set before it.
pub open spec fn spec_bind_all(bound: Bound, commands: Seq<Command>) -> Option<Bound>
    decreases commands.len(),
{
    if commands.len() == 0 {
        Some(bound)
    } else {
        match spec_bind_all(bound, commands.drop_last()) {
            Some(before) => spec_bind(before, commands.last()),
            None => None,
        }
    }
}

/// Binding two runs of commands one after the other binds the second from
/// where the first ends.
pub proof fn lemma_bind_concat(bound: Bound, first: Seq<Command>, second: Seq<Command>)
    ensures
        spec_bind_all(bound, first + second) == match spec_bind_all(bound, first) {
            Some(between) => spec_bind_all(between, second),
            None => None,
        },
    decreases second.len(),
{
    if second.len() == 0 {
        assert(first + second =~= first);
    } else {
        lemma_bind_concat(bound, first, second.drop_last());
        assert((first + second).drop_last() =~= first + second.drop_last());
        assert((first + second).last() == second.last());
    }
}

/// What is set while the geometry pass draws.
pub open spec fn spec_bound_geometry() -> Bound {
    Bound { graphics: Some(PassKind::Geometry), compute: None, state: Some(PassKind::Geometry) }
}

/// What is set after the lighting pass.
pub open spec fn spec_bound_lighting() -> Bound {
    Bound {
        graphics: Some(PassKind::Geometry),
        compute: Some(PassKind::Lighting),
        state: Some(PassKind::Lighting),
    }
}

/// What is set at the end of a frame.
pub open spec fn spec_bound_display_map() -> Bound {
    Bound {
        graphics: Some(PassKind::DisplayMap),
        compute: Some(PassKind::Lighting),
        state: Some(PassKind::DisplayMap),
    }
}

/// The beginning of a frame binds nothing.
pub proof fn lemma_begin_binds(pipeline: Pipeline, inputs: FrameInputs)
    ensures
        spec_bind_all(spec_unbound(), spec_begin(pipeline, inputs)) == Some(spec_unbound()),
{
    reveal_with_fuel(spec_bind_all, 7);
}

/// What the geometry pass binds is declared by its signature.
pub proof fn lemma_setup_binds(pipeline: Pipeline, inputs: FrameInputs, mesh: Mesh)
    ensures
        spec_bind_all(spec_unbound(), spec_geometry_setup(pipeline, inputs, mesh)) == Some(
            spec_bound_geometry(),
        ),
{
    reveal_with_fuel(spec_bind_all, 10);
}

/// What every draw binds is declared by the signature of the geometry pass.
pub proof fn lemma_draws_bind(
    transforms: Seq<Option<LocalTransform>>,
    instances: Seq<Option<Instance>>,
    geometries: Seq<crate::scene::geometry::Geometry>,
    count: nat,
)
    ensures
        spec_bind_all(spec_bound_geometry(), spec_draws(transforms, instances, geometries, count))
            == Some(spec_bound_geometry()),
    decreases count,
{
    if count > 0 {
        let before = spec_draws(transforms, instances, geometries, (count - 1) as nat);
        lemma_draws_bind(transforms, instances, geometries, (count - 1) as nat);
        match crate::frame::spec_drawn(transforms, instances, count - 1) {
            Some(geometry) => {
                let draw = spec_draw(geometries[geometry as int]);
                lemma_bind_concat(spec_bound_geometry(), before, draw);
                reveal_with_fuel(spec_bind_all, 4);
                assert(spec_bind_all(spec_bound_geometry(), draw) == Some(spec_bound_geometry()));
            },
            None => {},
        }
    }
}

/// What the lighting pass binds is declared by its signature.
pub proof fn lemma_lighting_binds(pipeline: Pipeline, inputs: FrameInputs)
    ensures
        spec_bind_all(spec_bound_geometry(), spec_lighting(pipeline, inputs)) == Some(
            spec_bound_lighting(),
        ),
{
    reveal_with_fuel(spec_bind_all, 13);
}

/// What post-processing binds is declared by its signature.
pub proof fn lemma_post_process_binds(pipeline: Pipeline, inputs: FrameInputs)
    ensures
        spec_bind_all(spec_bound_lighting(), spec_post_process(pipeline, inputs)) == Some(
            spec_bound_display_map(),
        ),
{
    reveal_with_fuel(spec_bind_all, 10);
}

/// Every frame binds what its passes declare: each root parameter a frame
/// binds exists in the signature that is set and is of the kind that is
/// bound, and each draw and dispatch runs with the signature and the state of
/// its own pass.
pub proof fn lemma_frame_binds_what_passes_declare(
    pipeline: Pipeline,
    inputs: FrameInputs,
    scene: Scene,
)
    ensures
        spec_bind_all(spec_unbound(), spec_frame(pipeline, inputs, scene)) == Some(
            spec_bound_display_map(),
        ),
{
    let begin = spec_begin(pipeline, inputs);
    let setup = spec_geometry_setup(pipeline, inputs, scene.assets.mesh.unwrap());
    let draws = spec_draws(
        scene.world.transforms@,
        scene.world.instances@,
        scene.assets.geometries@,
        scene.world.transforms@.len(),
    );
    let lighting = spec_lighting(pipeline, inputs);
    let post = spec_post_process(pipeline, inputs);
    lemma_begin_binds(pipeline, inputs);
    lemma_setup_binds(pipeline, inputs, scene.assets.mesh.unwrap());
    lemma_draws_bind(
        scene.world.transforms@,
        scene.world.instances@,
        scene.assets.geometries@,
        scene.world.transforms@.len(),
    );
    lemma_lighting_binds(pipeline, inputs);
    lemma_post_process_binds(pipeline, inputs);
    lemma_bind_concat(spec_unbound(), begin, setup);
    lemma_bind_concat(spec_unbound(), begin + setup, draws);
    lemma_bind_concat(spec_unbound(), begin + setup + draws, lighting);
    lemma_bind_concat(spec_unbound(), begin + setup + draws + lighting, post);
}

/// Parameter `parameter` of the signature of pass `kind`, if it has one.
pub fn signature_parameter(kind: PassKind, parameter: u32) -> (found: Option<RootParameter>)
    ensures
        found == if parameter < spec_signature_of(kind).len() {
            Some(spec_signature_of(kind)[parameter as int])
        } else {
            None
        },
{
    let desc = match kind {
        PassKind::Geometry => Geometry::root_signature(),
        PassKind::Lighting => Lighting::root_signature(),
        PassKind::DisplayMap => PostProcess::root_signature(),
    };
    if (parameter as usize) < desc.parameters.len() {
        Some(desc.parameters[parameter as usize])
    } else {
        None
    }
}

/// The kind of root parameter a command binds.
#[derive(Clone, Copy, Debug, PartialEq, Eq, Structural)]
pub enum Binding {
    ConstantBuffer,
    Table,
    /// At least this many 32-bit constants.
    Constants(u32),
}

/// Parameter `parameter` of the signature `signature` is of kind `binding`.
pub open spec fn spec_declares(signature: Option<PassKind>, parameter: u32, binding: Binding) -> bool {
    match binding {
        Binding::ConstantBuffer => spec_is_constant_buffer(signature, parameter),
        Binding::Table => spec_is_table(signature, parameter),
        Binding::Constants(count) => spec_is_constants(signature, parameter, count),
    }
}

/// Whether parameter `parameter` of the signature that is set is of kind
/// `binding`.
pub fn declares(signature: Option<PassKind>, parameter: u32, binding: Binding) -> (declared: bool)
    ensures
        declared == spec_declares(signature, parameter, binding),
{
    let kind = match signature {
        Some(kind) => kind,
        None => {
            return false;
        },
    };
    match signature_parameter(kind, parameter) {
        Some(RootParameter::Descriptor { ty, visibility, descriptor }) => match binding {
            Binding::ConstantBuffer => match ty {
                RootDescriptorType::Cbv => true,
                _ => false,
            },
            _ => false,
        },
        Some(RootParameter::Table { visibility, range }) => match binding {
            Binding::Table => true,
            _ => false,
        },
        Some(RootParameter::Constants { visibility, constants }) => match binding {
            Binding::Constants(count) => count <= constants.num_32bit_values,
            _ => false,
        },
        None => false,
    }
}

/// Follows what is set through `commands`, starting with nothing set. Returns
/// what is set after the last command, or nothing where a command does not
/// fit what is set before it.
pub fn track_bindings(commands: &Vec<Command>) -> (end: Option<Bound>)
    ensures
        end == spec_bind_all(spec_unbound(), commands@),
{
    let mut bound = Bound { graphics: None, compute: None, state: None };
    let mut i: usize = 0;
    while i < commands.len()
        invariant
            i <= commands.len(),
            spec_bind_all(spec_unbound(), commands@.take(i as int)) == Some(bound),
        decreases commands.len() - i,
    {
        let command: Command = commands[i];
        proof {
            assert(commands@.take(i as int + 1).drop_last() =~= commands@.take(i as int));
            assert(commands@.take(i as int + 1).last() == command);
            lemma_bind_concat(
                spec_unbound(),
                commands@.take(i as int + 1),
                commands@.skip(i as int + 1),
            );
            assert(commands@.take(i as int + 1) + commands@.skip(i as int + 1) =~= commands@);
        }
        let fits: bool = match command {
            Command::SetGraphicsRootSignature(kind) => match kind {
                PassKind::Lighting => false,
                _ => {
                    bound.graphics = Some(kind);
                    true
                },
            },
            Command::SetComputeRootSignature(kind) => match kind {
                PassKind::Lighting => {
                    bound.compute = Some(kind);
                    true
                },
                _ => false,
            },
            Command::SetPipelineState(kind) => {
                bound.state = Some(kind);
                true
            },
            Command::SetGraphicsRootConstantBufferView { parameter, offset } => declares(
                bound.graphics,
                parameter,
                Binding::ConstantBuffer,
            ),
            Command::SetGraphicsRootDescriptorTable { parameter, base } => declares(
                bound.graphics,
                parameter,
                Binding::Table,
            ),
            Command::SetComputeRootDescriptorTable { parameter, base } => declares(
                bound.compute,
                parameter,
                Binding::Table,
            ),
            Command::SetGraphicsRootConstantPair { parameter, first, second } => declares(
                bound.graphics,
                parameter,
                Binding::Constants(2),
            ),
            Command::SetGraphicsRootConstant { parameter, value } => declares(
                bound.graphics,
                parameter,
                Binding::Constants(1),
            ),
            Command::SetComputeRootConstant { parameter, value } => declares(
                bound.compute,
                parameter,
                Binding::Constants(1),
            ),
            Command::DrawIndexedInstanced { .. } => is_pass(bound.graphics, PassKind::Geometry)
                && is_pass(bound.state, PassKind::Geometry),
            Command::DrawInstanced { .. } => is_pass(bound.graphics, PassKind::DisplayMap)
                && is_pass(bound.state, PassKind::DisplayMap),
            Command::Dispatch { .. } => is_pass(bound.compute, PassKind::Lighting) && is_pass(
                bound.state,
                PassKind::Lighting,
            ),
            _ => true,
        };
        if !fits {
            return None;
        }
        i = i + 1;
    }
    proof {
        assert(commands@.take(i as int) =~= commands@);
    }
    Some(bound)
}

/// Whether `set` is pass `kind`.
fn is_pass(set: Option<PassKind>, kind: PassKind) -> (same: bool)
    ensures
        same == (set == Some(kind)),
{
    match set {
        Some(found) => found == kind,
        None => false,
    }
}

} // verus!
