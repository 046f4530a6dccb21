//! Descriptor heap bookkeeping.
//!
//! The renderer owns two shader-visible descriptor heaps, one for resource
//! views and one for samplers. Slots are handed out by a bump allocator: every
//! allocation takes the next free slots of both heaps, and nothing is ever
//! returned one by one. The cursors are only moved back by an explicit
//! [`DescriptorAllocator::reset`], which retires the allocations above the new
//! cursors.

use vstd::prelude::*;

verus! {

/// Slots in the shader-visible resource-view heap.
pub const NUM_CBV_SRV_UAV_DESCRIPTORS: u32 = 2048;

/// Slots in the shader-visible sampler heap.
pub const NUM_SAMPLER_DESCRIPTORS: u32 = 128;

/// One allocation as the allocator remembers it: a range of resource-view
/// slots and a range of sampler slots.
#[derive(Clone, Copy, Debug, PartialEq, Eq, Structural)]
pub struct Allocation {
    pub resource_view_base: u32,
    pub resource_view_count: u32,
    pub sampler_base: u32,
    pub sampler_count: u32,
}

impl Allocation {
    /// First resource-view slot behind the range.
    pub open spec fn resource_view_end(self) -> int {
        self.resource_view_base + self.resource_view_count
    }

    /// First sampler slot behind the range.
    pub open spec fn sampler_end(self) -> int {
        self.sampler_base + self.sampler_count
    }

    /// The allocation lies entirely below the two given cursors.
    pub open spec fn ends_within(self, resource_view: int, sampler: int) -> bool {
        self.resource_view_end() <= resource_view && self.sampler_end() <= sampler
    }

    /// Slot `slot` of the resource-view heap belongs to this allocation.
    pub open spec fn holds_resource_view(self, slot: int) -> bool {
        self.resource_view_base <= slot < self.resource_view_end()
    }

    /// Slot `slot` of the sampler heap belongs to this allocation.
    pub open spec fn holds_sampler(self, slot: int) -> bool {
        self.sampler_base <= slot < self.sampler_end()
    }
}

/// Number of leading allocations of `issued` that lie below both cursors.
pub open spec fn live_count(issued: Seq<Allocation>, resource_view: int, sampler: int) -> nat
    decreases issued.len(),
{
    if issued.len() == 0 || !issued.first().ends_within(resource_view, sampler) {
        0
    } else {
        1 + live_count(issued.drop_first(), resource_view, sampler)
    }
}

/// The allocations that survive moving the cursors to `resource_view` and
/// `sampler`: the longest prefix of `issued` that lies below both.
pub open spec fn retained(issued: Seq<Allocation>, resource_view: int, sampler: int) -> Seq<
    Allocation,
> {
    issued.take(live_count(issued, resource_view, sampler) as int)
}

/// `live_count` never exceeds the length, and every allocation it counts lies
/// below the cursors.
pub proof fn lemma_live_count(issued: Seq<Allocation>, resource_view: int, sampler: int)
    ensures
        live_count(issued, resource_view, sampler) <= issued.len(),
        forall|i: int|
            0 <= i < live_count(issued, resource_view, sampler) ==> (#[trigger] issued[i]).ends_within(
                resource_view,
                sampler,
            ),
        live_count(issued, resource_view, sampler) < issued.len() ==> !issued[live_count(
            issued,
            resource_view,
            sampler,
        ) as int].ends_within(resource_view, sampler),
    decreases issued.len(),
{
    if issued.len() == 0 || !issued.first().ends_within(resource_view, sampler) {
    } else {
        let rest = issued.drop_first();
        lemma_live_count(rest, resource_view, sampler);
        let k = live_count(rest, resource_view, sampler);
        assert forall|i: int| 0 <= i < k + 1 implies (#[trigger] issued[i]).ends_within(
            resource_view,
            sampler,
        ) by {
            if i > 0 {
                assert(issued[i] == rest[i - 1]);
            }
        }
        if k + 1 < issued.len() {
            assert(issued[k as int + 1] == rest[k as int]);
        }
    }
}

/// Bump allocator over the two shader-visible descriptor heaps.
pub struct DescriptorAllocator {
    resource_view_capacity: u32,
    sampler_capacity: u32,
    resource_view_next: u32,
    sampler_next: u32,
    issued: Ghost<Seq<Allocation>>,
}

impl DescriptorAllocator {
    /// Slots of the resource-view heap.
    pub closed spec fn spec_resource_view_capacity(&self) -> u32 {
        self.resource_view_capacity
    }

    /// Slots of the sampler heap.
    pub closed spec fn spec_sampler_capacity(&self) -> u32 {
        self.sampler_capacity
    }

    /// Next free resource-view slot.
    pub closed spec fn spec_resource_view_cursor(&self) -> u32 {
        self.resource_view_next
    }

    /// Next free sampler slot.
    pub closed spec fn spec_sampler_cursor(&self) -> u32 {
        self.sampler_next
    }

    /// The allocations handed out and not retired by a reset, oldest first.
    pub closed spec fn issued(&self) -> Seq<Allocation> {
        self.issued@
    }

    /// Every live allocation lies below the cursors and inside the heaps, and
    /// each one starts where the one before it ends or later.
    pub open spec fn wf(&self) -> bool {
        &&& forall|i: int|
            0 <= i < self.issued().len() ==> {
                &&& (#[trigger] self.issued()[i]).ends_within(
                    self.spec_resource_view_cursor() as int,
                    self.spec_sampler_cursor() as int,
                )
                &&& self.issued()[i].ends_within(
                    self.spec_resource_view_capacity() as int,
                    self.spec_sampler_capacity() as int,
                )
            }
        &&& forall|i: int, j: int|
            0 <= i < j < self.issued().len() ==> {
                &&& (#[trigger] self.issued()[i]).resource_view_end() <= (
                #[trigger] self.issued()[j]).resource_view_base
                &&& self.issued()[i].sampler_end() <= self.issued()[j].sampler_base
            }
    }

    /// An allocation of the given sizes fits into what is left of both heaps.
    pub open spec fn spec_can_allocate(&self, resource_views: u32, samplers: u32) -> bool {
        &&& self.spec_resource_view_cursor() + resource_views <= self.spec_resource_view_capacity()
        &&& self.spec_sampler_cursor() + samplers <= self.spec_sampler_capacity()
    }

    /// An allocator over heaps of the given capacities, with nothing allocated.
    pub fn new(resource_view_capacity: u32, sampler_capacity: u32) -> (allocator: Self)
        ensures
            allocator.wf(),
            allocator.spec_resource_view_capacity() == resource_view_capacity,
            allocator.spec_sampler_capacity() == sampler_capacity,
            allocator.spec_resource_view_cursor() == 0,
            allocator.spec_sampler_cursor() == 0,
            allocator.issued() == Seq::<Allocation>::empty(),
    {
        DescriptorAllocator {
            resource_view_capacity,
            sampler_capacity,
            resource_view_next: 0,
            sampler_next: 0,
            issued: Ghost(Seq::empty()),
        }
    }

    /// Whether [`DescriptorAllocator::allocate`] may be called with these sizes.
    pub fn can_allocate(&self, resource_views: u32, samplers: u32) -> (fits: bool)
        ensures
            fits == self.spec_can_allocate(resource_views, samplers),
    {
        let resource_view_room: bool = match self.resource_view_next.checked_add(resource_views) {
            Some(end) => end <= self.resource_view_capacity,
            None => false,
        };
        let sampler_room: bool = match self.sampler_next.checked_add(samplers) {
            Some(end) => end <= self.sampler_capacity,
            None => false,
        };
        resource_view_room && sampler_room
    }

    /// Takes the next `resource_views` slots of the resource-view heap and the
    /// next `samplers` slots of the sampler heap, and returns the first slot of
    /// each range. A size of zero yields an empty range at the cursor and leaves
    /// that cursor where it was.
    pub fn allocate(&mut self, resource_views: u32, samplers: u32) -> (base: (u32, u32))
        requires
            old(self).wf(),
            old(self).spec_can_allocate(resource_views, samplers),
        ensures
            final(self).wf(),
            base.0 == old(self).spec_resource_view_cursor(),
            base.1 == old(self).spec_sampler_cursor(),
            final(self).spec_resource_view_cursor() == old(self).spec_resource_view_cursor()
                + resource_views,
            final(self).spec_sampler_cursor() == old(self).spec_sampler_cursor() + samplers,
            final(self).spec_resource_view_capacity() == old(self).spec_resource_view_capacity(),
            final(self).spec_sampler_capacity() == old(self).spec_sampler_capacity(),
            final(self).issued() == old(self).issued().push(
                (Allocation {
                    resource_view_base: base.0,
                    resource_view_count: resource_views,
                    sampler_base: base.1,
                    sampler_count: samplers,
                }),
            ),
    {
        let base: (u32, u32) = (self.resource_view_next, self.sampler_next);
        let ghost entry = Allocation {
            resource_view_base: base.0,
            resource_view_count: resource_views,
            sampler_base: base.1,
            sampler_count: samplers,
        };
        self.resource_view_next = self.resource_view_next + resource_views;
        self.sampler_next = self.sampler_next + samplers;
        self.issued = Ghost(self.issued@.push(entry));
        proof {
            let before = old(self).issued();
            let after = self.issued();
            assert forall|i: int| 0 <= i < after.len() implies {
                &&& (#[trigger] after[i]).ends_within(
                    self.spec_resource_view_cursor() as int,
                    self.spec_sampler_cursor() as int,
                )
                &&& after[i].ends_within(
                    self.spec_resource_view_capacity() as int,
                    self.spec_sampler_capacity() as int,
                )
            } by {
                if i < before.len() {
                    assert(after[i] == before[i]);
                }
            }
            assert forall|i: int, j: int| 0 <= i < j < after.len() implies {
                &&& (#[trigger] after[i]).resource_view_end() <= (#[trigger] after[j]).resource_view_base
                &&& after[i].sampler_end() <= after[j].sampler_base
            } by {
                assert(after[i] == before[i]);
                if j < before.len() {
                    assert(after[j] == before[j]);
                }
            }
        }
        base
    }

    /// Moves both cursors to the given slots. The allocations that no longer
    /// lie below the new cursors are retired: their slots will be handed out
    /// again.
    pub fn reset(&mut self, resource_view: u32, sampler: u32)
        requires
            old(self).wf(),
        ensures
            final(self).wf(),
            final(self).spec_resource_view_cursor() == resource_view,
            final(self).spec_sampler_cursor() == sampler,
            final(self).spec_resource_view_capacity() == old(self).spec_resource_view_capacity(),
            final(self).spec_sampler_capacity() == old(self).spec_sampler_capacity(),
            final(self).issued() == retained(
                old(self).issued(),
                resource_view as int,
                sampler as int,
            ),
    {
        proof {
            lemma_live_count(self.issued@, resource_view as int, sampler as int);
        }
        self.resource_view_next = resource_view;
        self.sampler_next = sampler;
        self.issued = Ghost(retained(self.issued@, resource_view as int, sampler as int));
        proof {
            let before = old(self).issued();
            let after = self.issued();
            assert forall|i: int| 0 <= i < after.len() implies {
                &&& (#[trigger] after[i]).ends_within(
                    self.spec_resource_view_cursor() as int,
                    self.spec_sampler_cursor() as int,
                )
                &&& after[i].ends_within(
                    self.spec_resource_view_capacity() as int,
                    self.spec_sampler_capacity() as int,
                )
            } by {
                assert(after[i] == before[i]);
            }
            assert forall|i: int, j: int| 0 <= i < j < after.len() implies {
                &&& (#[trigger] after[i]).resource_view_end() <= (#[trigger] after[j]).resource_view_base
                &&& after[i].sampler_end() <= after[j].sampler_base
            } by {
                assert(after[i] == before[i]);
                assert(after[j] == before[j]);
            }
        }
    }

    pub fn resource_view_capacity(&self) -> (capacity: u32)
        ensures
            capacity == self.spec_resource_view_capacity(),
    {
        self.resource_view_capacity
    }

    pub fn sampler_capacity(&self) -> (capacity: u32)
        ensures
            capacity == self.spec_sampler_capacity(),
    {
        self.sampler_capacity
    }

    pub fn resource_view_cursor(&self) -> (cursor: u32)
        ensures
            cursor == self.spec_resource_view_cursor(),
    {
        self.resource_view_next
    }

    pub fn sampler_cursor(&self) -> (cursor: u32)
        ensures
            cursor == self.spec_sampler_cursor(),
    {
        self.sampler_next
    }
}

/// No slot of either heap belongs to two live allocations, and every live
/// allocation lies inside the heaps.
pub proof fn lemma_allocations_never_overlap(
    allocator: DescriptorAllocator,
    i: int,
    j: int,
    slot: int,
)
    requires
        allocator.wf(),
        0 <= i < allocator.issued().len(),
        0 <= j < allocator.issued().len(),
        i != j,
    ensures
        !(allocator.issued()[i].holds_resource_view(slot) && allocator.issued()[j].holds_resource_view(
            slot,
        )),
        !(allocator.issued()[i].holds_sampler(slot) && allocator.issued()[j].holds_sampler(slot)),
        allocator.issued()[i].resource_view_end() <= allocator.spec_resource_view_capacity(),
        allocator.issued()[i].sampler_end() <= allocator.spec_sampler_capacity(),
{
    if i < j {
        assert(allocator.issued()[i].resource_view_end() <= allocator.issued()[j].resource_view_base);
    } else {
        assert(allocator.issued()[j].resource_view_end() <= allocator.issued()[i].resource_view_base);
    }
}

/// An allocation of no slots succeeds wherever the cursors are inside the
/// heaps, returns the cursors, and leaves them unchanged.
pub proof fn lemma_empty_allocation_fits(allocator: DescriptorAllocator)
    requires
        allocator.spec_resource_view_cursor() <= allocator.spec_resource_view_capacity(),
        allocator.spec_sampler_cursor() <= allocator.spec_sampler_capacity(),
    ensures
        allocator.spec_can_allocate(0, 0),
{
}

/// The `count` resource-view slots from `base` on lie in the `i`-th of
/// `issued`.
pub open spec fn spec_within(issued: Seq<Allocation>, i: int, base: int, count: int) -> bool {
    &&& 0 <= i < issued.len()
    &&& issued[i].resource_view_base <= base
    &&& 0 <= count
    &&& base + count <= issued[i].resource_view_end()
}

/// The `count` resource-view slots from `base` on are live: they lie in one
/// allocation that was handed out and not retired.
pub open spec fn spec_live(issued: Seq<Allocation>, base: int, count: int) -> bool {
    exists|i: int| spec_within(issued, i, base, count)
}

/// What an allocation hands out is live, and what was live before stays live.
pub proof fn lemma_allocation_is_live(
    issued: Seq<Allocation>,
    allocation: Allocation,
    base: int,
    count: int,
)
    ensures
        spec_live(
            issued.push(allocation),
            allocation.resource_view_base as int,
            allocation.resource_view_count as int,
        ),
        spec_live(issued, base, count) ==> spec_live(issued.push(allocation), base, count),
{
    assert(spec_within(
        issued.push(allocation),
        issued.len() as int,
        allocation.resource_view_base as int,
        allocation.resource_view_count as int,
    ));
    if spec_live(issued, base, count) {
        let i = choose|i: int| spec_within(issued, i, base, count);
        assert(spec_within(issued.push(allocation), i, base, count));
    }
}

/// A reset that leaves both cursors at or behind the end of a live allocation
/// leaves live what lies in that allocation.
pub proof fn lemma_reset_keeps_below(
    allocator: DescriptorAllocator,
    i: int,
    base: int,
    count: int,
    resource_view: int,
    sampler: int,
)
    requires
        allocator.wf(),
        spec_within(allocator.issued(), i, base, count),
        allocator.issued()[i].ends_within(resource_view, sampler),
    ensures
        spec_live(retained(allocator.issued(), resource_view, sampler), base, count),
{
    let issued = allocator.issued();
    lemma_live_count(issued, resource_view, sampler);
    let kept = live_count(issued, resource_view, sampler) as int;
    if kept <= i {
        // The allocation at `kept` does not end within the cursors, yet it ends
        // no later than the one at `i`, which does.
        if kept < i {
            assert(issued[kept].resource_view_end() <= issued[i].resource_view_base);
            assert(issued[kept].sampler_end() <= issued[i].sampler_base);
        }
        assert(issued[kept].ends_within(resource_view, sampler));
    }
    assert(retained(issued, resource_view, sampler)[i] == issued[i]);
    assert(spec_within(retained(issued, resource_view, sampler), i, base, count));
}

/// Ranges that lie in two different live allocations share no slot.
pub proof fn lemma_live_ranges_are_apart(
    allocator: DescriptorAllocator,
    i: int,
    first_base: int,
    first_count: int,
    j: int,
    second_base: int,
    second_count: int,
)
    requires
        allocator.wf(),
        spec_within(allocator.issued(), i, first_base, first_count),
        spec_within(allocator.issued(), j, second_base, second_count),
        i != j,
    ensures
        first_base + first_count <= second_base || second_base + second_count <= first_base,
        first_base + first_count <= allocator.spec_resource_view_capacity(),
        second_base + second_count <= allocator.spec_resource_view_capacity(),
{
    if i < j {
        assert(allocator.issued()[i].resource_view_end() <= allocator.issued()[j].resource_view_base);
    } else {
        assert(allocator.issued()[j].resource_view_end() <= allocator.issued()[i].resource_view_base);
    }
}

} // verus!
