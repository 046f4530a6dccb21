//! The device context as the renderer sees it: the frame latency, the two
//! shader-visible descriptor heaps with their allocator, and the table of
//! committed allocations and descriptors that have been asked for.

use crate::descriptor::{spec_live, spec_within, Allocation, DescriptorAllocator};
use crate::gpu::{
    ClearValue, Command, DescriptorHandle, HeapType, ResourceBarrier, ResourceDesc, ResourceId,
    ResourceOrigin, ResourceRecord, ViewDesc, ViewRecord,
};
use vstd::prelude::*;

verus! {

/// Why the device context or one of its objects could not be had.
#[derive(Clone, Copy, Debug, PartialEq, Eq, Structural)]
pub enum EngineError {
    /// No adapter supports the required feature level.
    Initialization,
    /// An allocation, descriptor, pipeline or fence could not be created.
    ResourceCreation,
}

/// A platform result code reports success when it is not negative.
pub open spec fn spec_succeeded(code: i32) -> bool {
    code >= 0
}

pub fn succeeded(code: i32) -> (ok: bool)
    ensures
        ok == spec_succeeded(code),
{
    code >= 0
}

/// Serialising succeeded: the result code reports success and the serialiser
/// produced no diagnostics.
pub open spec fn spec_serialized(output: SerializeOutput) -> bool {
    spec_succeeded(output.code) && output.diagnostics.is_none()
}

/// The diagnostic blob of a serialisation, empty where there is none.
pub open spec fn spec_serializer_diagnostics(output: SerializeOutput) -> Seq<u8> {
    match output.diagnostics {
        Some(diagnostics) => diagnostics@,
        None => Seq::empty(),
    }
}

/// The text that a lossy UTF-8 decoding makes of `bytes`.
pub uninterp spec fn utf8_lossy(bytes: Seq<u8>) -> Seq<char>;

/// Decodes a diagnostic blob with `String::from_utf8_lossy`. Nothing is claimed
/// of the text but that it is the one decoding of these bytes.
#[verifier::external_body]
fn diagnostic_text(bytes: &Vec<u8>) -> (text: String)
    ensures
        text@ == utf8_lossy(bytes@),
{
    String::from_utf8_lossy(bytes).into_owned()
}

/// What the shader compiler handed back for one entry point.
pub struct CompileOutput {
    /// The compiler's result code.
    pub code: i32,
    /// The compiled bytecode; meaningful only on success.
    pub bytecode: Vec<u8>,
    /// The compiler's diagnostic blob; meaningful only on failure.
    pub diagnostics: Vec<u8>,
}

/// What serialising a binding-signature layout handed back.
pub struct SerializeOutput {
    /// The serialiser's result code.
    pub code: i32,
    /// The serialised layout; meaningful only on success.
    pub blob: Vec<u8>,
    /// The serialiser's diagnostic blob, if it produced one.
    pub diagnostics: Option<Vec<u8>>,
}

/// A descriptor heap: the address of its first slot, the distance between
/// slots and the number of slots. Slots have an extent: a heap whose increment
/// is zero has no slot that can be addressed.
#[derive(Clone, Copy, Debug, PartialEq, Eq, Structural)]
pub struct DescriptorHeap {
    pub start: DescriptorHandle,
    pub increment: u32,
    pub capacity: u32,
}

impl DescriptorHeap {
    /// Slot `index` exists, slots have an extent, and both addresses of the
    /// slot fit in 64 bits.
    pub open spec fn spec_addressable(&self, index: u32) -> bool {
        &&& index < self.capacity
        &&& self.increment > 0
        &&& self.start.cpu + index * self.increment <= u64::MAX
        &&& self.start.gpu + index * self.increment <= u64::MAX
    }

    /// The addresses of slot `index`.
    pub open spec fn spec_handle(&self, index: u32) -> DescriptorHandle {
        DescriptorHandle {
            cpu: (self.start.cpu + index * self.increment) as u64,
            gpu: (self.start.gpu + index * self.increment) as u64,
        }
    }

    /// The addresses of slot `index`, if the heap has such a slot.
    pub fn handle(&self, index: u32) -> (handle: Option<DescriptorHandle>)
        ensures
            handle.is_some() == self.spec_addressable(index),
            handle.is_some() ==> handle.unwrap() == self.spec_handle(index),
    {
        if index >= self.capacity || self.increment == 0 {
            return None;
        }
        assert(index * self.increment <= u32::MAX * u32::MAX) by (nonlinear_arith)
            requires
                index <= u32::MAX,
                self.increment <= u32::MAX,
        ;
        let offset: u64 = index as u64 * self.increment as u64;
        match (self.start.cpu.checked_add(offset), self.start.gpu.checked_add(offset)) {
            (Some(cpu), Some(gpu)) => Some(DescriptorHandle { cpu, gpu }),
            _ => None,
        }
    }
}

/// The device context.
pub struct Engine {
    frame_latency: u64,
    descriptors: DescriptorAllocator,
    cbv_srv_uav_heap: DescriptorHeap,
    sampler_heap: DescriptorHeap,
    resources: Vec<ResourceRecord>,
    views: Vec<ViewRecord>,
}

impl Engine {
    pub closed spec fn spec_frame_latency(&self) -> u64 {
        self.frame_latency
    }

    /// The allocator over the two shader-visible heaps.
    pub closed spec fn descriptors(&self) -> DescriptorAllocator {
        self.descriptors
    }

    /// The shader-visible resource-view heap.
    pub closed spec fn spec_cbv_srv_uav_heap(&self) -> DescriptorHeap {
        self.cbv_srv_uav_heap
    }

    /// The shader-visible sampler heap.
    pub closed spec fn spec_sampler_heap(&self) -> DescriptorHeap {
        self.sampler_heap
    }

    /// The committed allocations asked for so far, in order of creation.
    pub closed spec fn resources(&self) -> Seq<ResourceRecord> {
        self.resources@
    }

    /// The descriptors asked for so far, in order of creation.
    pub closed spec fn views(&self) -> Seq<ViewRecord> {
        self.views@
    }

    /// The allocator is well formed and spans exactly the two heaps.
    pub open spec fn wf(&self) -> bool {
        &&& self.descriptors().wf()
        &&& self.descriptors().spec_resource_view_capacity() == self.spec_cbv_srv_uav_heap().capacity
        &&& self.descriptors().spec_sampler_capacity() == self.spec_sampler_heap().capacity
    }

    /// This context is `before` with `records` appended to its resources,
    /// `views` to its descriptors and `allocations` to its live allocations,
    /// and with the resource-view cursor moved on by `resource_views` slots.
    /// Nothing else differs.
    pub open spec fn spec_grew(
        &self,
        before: Engine,
        records: Seq<ResourceRecord>,
        views: Seq<ViewRecord>,
        allocations: Seq<Allocation>,
        resource_views: nat,
    ) -> bool {
        &&& self.resources() == before.resources() + records
        &&& self.views() == before.views() + views
        &&& self.descriptors().issued() == before.descriptors().issued() + allocations
        &&& self.descriptors().spec_resource_view_cursor()
            == before.descriptors().spec_resource_view_cursor() + resource_views
        &&& self.descriptors().spec_sampler_cursor() == before.descriptors().spec_sampler_cursor()
        &&& self.spec_frame_latency() == before.spec_frame_latency()
        &&& self.spec_cbv_srv_uav_heap() == before.spec_cbv_srv_uav_heap()
        &&& self.spec_sampler_heap() == before.spec_sampler_heap()
    }

    /// The first adapter, in the order the platform reports them, on which a
    /// device of the required feature level can be opened. `supported[i]` says
    /// whether adapter `i` passed that probe.
    pub fn select_adapter(supported: &Vec<bool>) -> (selected: Result<usize, EngineError>)
        ensures
            match selected {
                Ok(index) => {
                    &&& index < supported.len()
                    &&& supported[index as int]
                    &&& forall|j: int| 0 <= j < index ==> !supported[j]
                },
                Err(error) => {
                    &&& error == EngineError::Initialization
                    &&& forall|j: int| 0 <= j < supported.len() ==> !supported[j]
                },
            },
    {
        let mut adapter_id: usize = 0;
        while adapter_id < supported.len()
            invariant
                adapter_id <= supported.len(),
                forall|j: int| 0 <= j < adapter_id ==> !supported[j],
            decreases supported.len() - adapter_id,
        {
            if supported[adapter_id] {
                return Ok(adapter_id);
            }
            adapter_id = adapter_id + 1;
        }
        Err(EngineError::Initialization)
    }

    /// A context over the two shader-visible heaps, with nothing allocated and
    /// nothing created.
    pub fn new(frame_latency: u64, cbv_srv_uav_heap: DescriptorHeap, sampler_heap: DescriptorHeap) -> (engine: Self)
        ensures
            engine.wf(),
            engine.spec_frame_latency() == frame_latency,
            engine.spec_cbv_srv_uav_heap() == cbv_srv_uav_heap,
            engine.spec_sampler_heap() == sampler_heap,
            engine.descriptors().spec_resource_view_cursor() == 0,
            engine.descriptors().spec_sampler_cursor() == 0,
            engine.descriptors().issued() == Seq::<Allocation>::empty(),
            engine.resources() == Seq::<ResourceRecord>::empty(),
            engine.views() == Seq::<ViewRecord>::empty(),
    {
        Engine {
            frame_latency,
            descriptors: DescriptorAllocator::new(cbv_srv_uav_heap.capacity, sampler_heap.capacity),
            cbv_srv_uav_heap,
            sampler_heap,
            resources: Vec::new(),
            views: Vec::new(),
        }
    }

    /// An empty command list, closed as a new list is before its first reset.
    pub fn create_command_list(&self) -> (list: CommandList)
        ensures
            list.commands@ == Seq::<Command>::empty(),
            !list.recording,
    {
        CommandList { commands: Vec::new(), recording: false }
    }

    /// Enters a committed allocation into the resource table and names it.
    pub fn create_committed_resource(
        &mut self,
        ty: HeapType,
        desc: ResourceDesc,
        initial: u32,
        clear_value: Option<ClearValue>,
    ) -> (id: ResourceId)
        ensures
            id.0 == old(self).resources().len(),
            final(self).resources() == old(self).resources().push(
                (ResourceRecord {
                    origin: ResourceOrigin::Committed(ty),
                    desc,
                    initial_state: initial,
                    clear_value,
                }),
            ),
            final(self).views() == old(self).views(),
            final(self).descriptors() == old(self).descriptors(),
            final(self).spec_frame_latency() == old(self).spec_frame_latency(),
            final(self).spec_cbv_srv_uav_heap() == old(self).spec_cbv_srv_uav_heap(),
            final(self).spec_sampler_heap() == old(self).spec_sampler_heap(),
    {
        let id = ResourceId(self.resources.len());
        self.resources.push(
            ResourceRecord {
                origin: ResourceOrigin::Committed(ty),
                desc,
                initial_state: initial,
                clear_value,
            },
        );
        id
    }

    /// Enters a presentable image of the swapchain into the resource table and
    /// names it. It starts out in the state in which it is presented.
    pub fn adopt_back_buffer(&mut self, buffer: u32, desc: ResourceDesc) -> (id: ResourceId)
        ensures
            id.0 == old(self).resources().len(),
            final(self).resources() == old(self).resources().push(
                (ResourceRecord {
                    origin: ResourceOrigin::BackBuffer(buffer),
                    desc,
                    initial_state: crate::gpu::STATE_PRESENT,
                    clear_value: None,
                }),
            ),
            final(self).views() == old(self).views(),
            final(self).descriptors() == old(self).descriptors(),
            final(self).spec_frame_latency() == old(self).spec_frame_latency(),
            final(self).spec_cbv_srv_uav_heap() == old(self).spec_cbv_srv_uav_heap(),
            final(self).spec_sampler_heap() == old(self).spec_sampler_heap(),
    {
        let id = ResourceId(self.resources.len());
        self.resources.push(
            ResourceRecord {
                origin: ResourceOrigin::BackBuffer(buffer),
                desc,
                initial_state: crate::gpu::STATE_PRESENT,
                clear_value: None,
            },
        );
        id
    }

    /// Enters a descriptor into the view table: `resource`, seen as `desc`, is
    /// to be written to the slot at CPU address `slot`.
    pub fn create_view(&mut self, resource: ResourceId, desc: ViewDesc, slot: u64)
        ensures
            final(self).views() == old(self).views().push((ViewRecord { resource, desc, slot })),
            final(self).resources() == old(self).resources(),
            final(self).descriptors() == old(self).descriptors(),
            final(self).spec_frame_latency() == old(self).spec_frame_latency(),
            final(self).spec_cbv_srv_uav_heap() == old(self).spec_cbv_srv_uav_heap(),
            final(self).spec_sampler_heap() == old(self).spec_sampler_heap(),
    {
        self.views.push(ViewRecord { resource, desc, slot });
    }

    /// The bytecode of a compiled shader, or the compiler's diagnostic text
    /// where compilation failed.
    pub fn create_shader(output: CompileOutput) -> (shader: Result<Vec<u8>, String>)
        ensures
            match shader {
                Ok(bytecode) => spec_succeeded(output.code) && bytecode@ == output.bytecode@,
                Err(message) => !spec_succeeded(output.code) && message@ == utf8_lossy(
                    output.diagnostics@,
                ),
            },
    {
        if !succeeded(output.code) {
            Err(diagnostic_text(&output.diagnostics))
        } else {
            Ok(output.bytecode)
        }
    }

    /// The serialised layout a binding signature is created from, or the
    /// serialiser's diagnostic text where serialising failed: where the result
    /// code reports a failure or the serialiser produced diagnostics. No
    /// signature is created from a layout that did not serialise.
    pub fn create_root_signature(output: SerializeOutput) -> (signature: Result<Vec<u8>, String>)
        ensures
            match signature {
                Ok(blob) => spec_serialized(output) && blob@ == output.blob@,
                Err(message) => !spec_serialized(output) && message@ == utf8_lossy(
                    spec_serializer_diagnostics(output),
                ),
            },
    {
        match output.diagnostics {
            Some(diagnostics) => Err(diagnostic_text(&diagnostics)),
            None => if succeeded(output.code) {
                Ok(output.blob)
            } else {
                let nothing: Vec<u8> = Vec::new();
                Err(diagnostic_text(&nothing))
            },
        }
    }

    /// Whether the platform created what it was asked for, by its result
    /// code. A creation that failed is not recovered from.
    pub fn check_created(code: i32) -> (created: Result<(), EngineError>)
        ensures
            created.is_ok() == spec_succeeded(code),
            created.is_err() ==> created == Err::<(), EngineError>(EngineError::ResourceCreation),
    {
        if succeeded(code) {
            Ok(())
        } else {
            Err(EngineError::ResourceCreation)
        }
    }

    /// The number of frames the CPU may have outstanding.
    pub fn frame_latency(&self) -> (latency: u64)
        ensures
            latency == self.spec_frame_latency(),
    {
        self.frame_latency
    }

    /// The shader-visible resource-view heap.
    pub fn cbv_srv_uav_heap(&self) -> (heap: DescriptorHeap)
        ensures
            heap == self.spec_cbv_srv_uav_heap(),
    {
        self.cbv_srv_uav_heap
    }

    /// The shader-visible sampler heap.
    pub fn sampler_heap(&self) -> (heap: DescriptorHeap)
        ensures
            heap == self.spec_sampler_heap(),
    {
        self.sampler_heap
    }

    /// Moves the cursors of both heaps; see [`DescriptorAllocator::reset`].
    pub fn reset_descriptors(&mut self, cbv_srv_uav: u32, sampler: u32)
        requires
            old(self).wf(),
        ensures
            final(self).wf(),
            final(self).descriptors().spec_resource_view_cursor() == cbv_srv_uav,
            final(self).descriptors().spec_sampler_cursor() == sampler,
            final(self).descriptors().issued() == crate::descriptor::retained(
                old(self).descriptors().issued(),
                cbv_srv_uav as int,
                sampler as int,
            ),
            final(self).resources() == old(self).resources(),
            final(self).views() == old(self).views(),
            final(self).spec_frame_latency() == old(self).spec_frame_latency(),
            final(self).spec_cbv_srv_uav_heap() == old(self).spec_cbv_srv_uav_heap(),
            final(self).spec_sampler_heap() == old(self).spec_sampler_heap(),
    {
        self.descriptors.reset(cbv_srv_uav, sampler);
    }

    /// The next free slot of the resource-view heap and of the sampler heap.
    pub fn descriptor_cursors(&self) -> (cursors: (u32, u32))
        ensures
            cursors.0 == self.descriptors().spec_resource_view_cursor(),
            cursors.1 == self.descriptors().spec_sampler_cursor(),
    {
        (self.descriptors.resource_view_cursor(), self.descriptors.sampler_cursor())
    }

    /// Whether [`Engine::allocate_descriptors`] may be called with these sizes.
    pub fn can_allocate_descriptors(&self, cbv_srv_uav: u32, sampler: u32) -> (fits: bool)
        ensures
            fits == self.descriptors().spec_can_allocate(cbv_srv_uav, sampler),
    {
        self.descriptors.can_allocate(cbv_srv_uav, sampler)
    }

    /// Takes the next slots of both heaps; see [`DescriptorAllocator::allocate`].
    pub fn allocate_descriptors(&mut self, cbv_srv_uav: u32, sampler: u32) -> (base: (u32, u32))
        requires
            old(self).wf(),
            old(self).descriptors().spec_can_allocate(cbv_srv_uav, sampler),
        ensures
            final(self).wf(),
            base.0 == old(self).descriptors().spec_resource_view_cursor(),
            base.1 == old(self).descriptors().spec_sampler_cursor(),
            final(self).descriptors().spec_resource_view_cursor() == base.0 + cbv_srv_uav,
            final(self).descriptors().spec_sampler_cursor() == base.1 + sampler,
            final(self).descriptors().issued() == old(self).descriptors().issued().push(
                (Allocation {
                    resource_view_base: base.0,
                    resource_view_count: cbv_srv_uav,
                    sampler_base: base.1,
                    sampler_count: sampler,
                }),
            ),
            final(self).resources() == old(self).resources(),
            final(self).views() == old(self).views(),
            final(self).spec_frame_latency() == old(self).spec_frame_latency(),
            final(self).spec_cbv_srv_uav_heap() == old(self).spec_cbv_srv_uav_heap(),
            final(self).spec_sampler_heap() == old(self).spec_sampler_heap(),
    {
        self.descriptors.allocate(cbv_srv_uav, sampler)
    }

    /// Records the binding of the two shader-visible heaps.
    pub fn bind_descriptor_heaps(&self, cmd_list: &mut CommandList)
        requires
            old(cmd_list).recording,
        ensures
            final(cmd_list).recording,
            final(cmd_list).commands@ == old(cmd_list).commands@.push(Command::SetDescriptorHeaps),
    {
        cmd_list.commands.push(Command::SetDescriptorHeaps);
    }

    /// Number of committed allocations asked for so far.
    pub fn resource_count(&self) -> (count: usize)
        ensures
            count == self.resources().len(),
    {
        self.resources.len()
    }

    /// What was asked for when `id` was created.
    pub fn resource(&self, id: ResourceId) -> (record: Option<ResourceRecord>)
        ensures
            record == if id.0 < self.resources().len() {
                Some(self.resources()[id.0 as int])
            } else {
                None
            },
    {
        if id.0 < self.resources.len() {
            Some(self.resources[id.0])
        } else {
            None
        }
    }

    /// Number of descriptors asked for so far.
    pub fn view_count(&self) -> (count: usize)
        ensures
            count == self.views().len(),
    {
        self.views.len()
    }

    /// The `index`-th descriptor asked for.
    pub fn view(&self, index: usize) -> (record: Option<ViewRecord>)
        ensures
            record == if index < self.views().len() {
                Some(self.views()[index as int])
            } else {
                None
            },
    {
        if index < self.views.len() {
            Some(self.views[index])
        } else {
            None
        }
    }
}

/// A list of recorded commands. Commands may be appended only while the list
/// is recording.
pub struct CommandList {
    pub commands: Vec<Command>,
    pub recording: bool,
}

impl CommandList {
    /// Empties the list and opens it for recording.
    pub fn reset(&mut self)
        ensures
            final(self).recording,
            final(self).commands@ == Seq::<Command>::empty(),
    {
        self.commands = Vec::new();
        self.recording = true;
    }

    /// Records one barrier.
    pub fn resource_barrier(&mut self, barrier: ResourceBarrier)
        requires
            old(self).recording,
        ensures
            final(self).recording,
            final(self).commands@ == old(self).commands@.push(Command::ResourceBarrier(barrier)),
    {
        self.commands.push(Command::ResourceBarrier(barrier));
    }

    /// Records one command.
    pub fn record(&mut self, command: Command)
        requires
            old(self).recording,
        ensures
            final(self).recording,
            final(self).commands@ == old(self).commands@.push(command),
    {
        self.commands.push(command);
    }

    /// Ends recording. The list can be submitted once it is closed.
    pub fn close(&mut self)
        requires
            old(self).recording,
        ensures
            !final(self).recording,
            final(self).commands@ == old(self).commands@.push(Command::Close),
    {
        self.commands.push(Command::Close);
        self.recording = false;
    }
}

/// A barrier that moves `resource` from state `before` to state `after`.
pub fn gen_resource_transition(
    resource: ResourceId,
    subresource: u32,
    before: u32,
    after: u32,
    flags: u32,
) -> (barrier: ResourceBarrier)
    ensures
        barrier == (ResourceBarrier::Transition { resource, subresource, before, after, flags }),
{
    ResourceBarrier::Transition { resource, subresource, before, after, flags }
}

/// A barrier between unordered accesses to `resource`.
pub fn gen_uav_barrier(resource: ResourceId, flags: u32) -> (barrier: ResourceBarrier)
    ensures
        barrier == (ResourceBarrier::Uav { resource, flags }),
{
    ResourceBarrier::Uav { resource, flags }
}

/// Where a context grows, the descriptor slots it hands out are live
/// afterwards, and the slots that were live before stay live.
pub proof fn lemma_grown_engine_keeps_descriptors(
    before: Engine,
    after: Engine,
    records: Seq<ResourceRecord>,
    views: Seq<ViewRecord>,
    allocations: Seq<Allocation>,
    resource_views: nat,
    base: int,
    count: int,
)
    requires
        after.spec_grew(before, records, views, allocations, resource_views),
    ensures
        forall|k: int|
            0 <= k < allocations.len() ==> spec_live(
                after.descriptors().issued(),
                #[trigger] allocations[k].resource_view_base as int,
                allocations[k].resource_view_count as int,
            ),
        spec_live(before.descriptors().issued(), base, count) ==> spec_live(
            after.descriptors().issued(),
            base,
            count,
        ),
{
    let old_issued = before.descriptors().issued();
    let new_issued = after.descriptors().issued();
    assert forall|k: int| 0 <= k < allocations.len() implies spec_live(
        new_issued,
        #[trigger] allocations[k].resource_view_base as int,
        allocations[k].resource_view_count as int,
    ) by {
        assert(new_issued[old_issued.len() + k] == allocations[k]);
        assert(spec_within(
            new_issued,
            old_issued.len() + k,
            allocations[k].resource_view_base as int,
            allocations[k].resource_view_count as int,
        ));
    }
    if spec_live(old_issued, base, count) {
        let i = choose|i: int| spec_within(old_issued, i, base, count);
        assert(new_issued[i] == old_issued[i]);
        assert(spec_within(new_issued, i, base, count));
    }
}

/// Two slots of a heap have different addresses, on the CPU and on the GPU.
pub proof fn lemma_slots_differ(heap: DescriptorHeap, first: u32, second: u32)
    requires
        heap.spec_addressable(first),
        heap.spec_addressable(second),
        first != second,
    ensures
        heap.spec_handle(first).cpu != heap.spec_handle(second).cpu,
        heap.spec_handle(first).gpu != heap.spec_handle(second).gpu,
        first < second ==> heap.spec_handle(first).cpu + heap.increment <= heap.spec_handle(
            second,
        ).cpu,
{
    let increment = heap.increment as int;
    if first < second {
        assert(first * increment + increment <= second * increment) by (nonlinear_arith)
            requires
                first + 1 <= second,
                increment > 0,
        ;
    } else {
        assert(second * increment + increment <= first * increment) by (nonlinear_arith)
            requires
                second + 1 <= first,
                increment > 0,
        ;
    }
}

/// The resource table names its entries with machine-sized indices.
pub proof fn lemma_resource_ids_fit(engine: Engine)
    ensures
        engine.resources().len() <= usize::MAX,
        engine.views().len() <= usize::MAX,
{
    assert(engine.resources.len() == engine.resources@.len());
    assert(engine.views.len() == engine.views@.len());
}

} // verus!
