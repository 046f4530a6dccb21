//! The presentable images and their render target views.

use crate::engine::{DescriptorHeap, Engine, EngineError};
use crate::gpu::{
    Format, ResourceDesc, ResourceId, ResourceOrigin, ResourceRecord, ViewDesc, ViewRecord,
    RESOURCE_FLAG_ALLOW_RENDER_TARGET, STATE_PRESENT,
};
use vstd::prelude::*;

verus! {

/// Index of a presentable image.
pub type Frame = usize;

/// Format the presentable images are created with.
pub const BACK_BUFFER_FORMAT: Format = Format::R8G8B8A8Unorm;

/// Format the presentable images are rendered to with.
pub const BACK_BUFFER_VIEW_FORMAT: Format = Format::R8G8B8A8UnormSrgb;

/// How a finished image is presented: without waiting for vertical sync, and
/// without flags.
#[derive(Clone, Copy, Debug, PartialEq, Eq, Structural)]
pub struct Present {
    pub sync_interval: u32,
    pub flags: u32,
}

/// The swapchain: `render_targets.len()` presentable images of the window's
/// size, presented by flipping, with the contents of a presented image
/// discarded.
pub struct Swapchain {
    width: u32,
    height: u32,
    render_targets: Vec<ResourceId>,
    rtv_pool: DescriptorHeap,
}

/// What a presentable image is entered into the resource table as.
pub open spec fn spec_back_buffer(width: u32, height: u32, buffer: u32) -> ResourceRecord {
    ResourceRecord {
        origin: ResourceOrigin::BackBuffer(buffer),
        desc: ResourceDesc::spec_texture_2d(
            width,
            height,
            BACK_BUFFER_FORMAT,
            1,
            0,
            RESOURCE_FLAG_ALLOW_RENDER_TARGET,
        ),
        initial_state: STATE_PRESENT,
        clear_value: None,
    }
}

/// The render target view of presentable image `buffer`, which is resource
/// `first + buffer`.
pub open spec fn spec_back_buffer_view(first: int, rtv_pool: DescriptorHeap, buffer: u32) -> ViewRecord {
    ViewRecord {
        resource: ResourceId((first + buffer) as usize),
        desc: ViewDesc::Texture2DRtv { format: BACK_BUFFER_VIEW_FORMAT },
        slot: rtv_pool.spec_handle(buffer).cpu,
    }
}

/// A swapchain of `buffer_count` images can be created over `rtv_pool`: there
/// is at least one image, their number fits in 32 bits, and the pool has a
/// slot for the last of them.
pub open spec fn spec_can_create(buffer_count: u64, rtv_pool: DescriptorHeap) -> bool {
    &&& 0 < buffer_count <= u32::MAX
    &&& rtv_pool.spec_addressable((buffer_count - 1) as u32)
}

/// A pool that has slot `last` has every slot before it.
pub proof fn lemma_addressable_below(pool: DescriptorHeap, index: u32, last: u32)
    requires
        index <= last,
        pool.spec_addressable(last),
    ensures
        pool.spec_addressable(index),
{
    assert(index * pool.increment <= last * pool.increment) by (nonlinear_arith)
        requires
            index <= last,
            pool.increment >= 0,
    ;
}

impl Swapchain {
    /// The presentable images, in order.
    pub closed spec fn spec_render_targets(&self) -> Seq<ResourceId> {
        self.render_targets@
    }

    /// Number of presentable images.
    pub open spec fn spec_len(&self) -> nat {
        self.spec_render_targets().len()
    }

    /// The heap that holds one render target view per image.
    pub closed spec fn spec_rtv_pool(&self) -> DescriptorHeap {
        self.rtv_pool
    }

    pub closed spec fn spec_width(&self) -> u32 {
        self.width
    }

    pub closed spec fn spec_height(&self) -> u32 {
        self.height
    }

    /// There is at least one image, the pool has a slot for each, and no two
    /// images are the same resource.
    pub open spec fn wf(&self) -> bool {
        &&& spec_can_create(self.spec_len() as u64, self.spec_rtv_pool())
        &&& self.spec_len() <= u32::MAX
        &&& forall|i: int, j: int|
            0 <= i < j < self.spec_len() ==> #[trigger] self.spec_render_targets()[i]
                != #[trigger] self.spec_render_targets()[j]
    }

    /// Number of presentable images.
    pub fn len(&self) -> (count: usize)
        ensures
            count == self.spec_len(),
    {
        self.render_targets.len()
    }

    /// Width and height of the images.
    pub fn extent(&self) -> (extent: (u32, u32))
        ensures
            extent == (self.spec_width(), self.spec_height()),
    {
        (self.width, self.height)
    }

    /// Image `idx` and the CPU address of its render target view. There must
    /// be such an image.
    pub fn get_render_target(&self, idx: usize) -> (target: (ResourceId, u64))
        requires
            self.wf(),
            idx < self.spec_len(),
        ensures
            target.0 == self.spec_render_targets()[idx as int],
            target.1 == self.spec_rtv_pool().spec_handle(idx as u32).cpu,
    {
        proof {
            lemma_addressable_below(self.rtv_pool, idx as u32, (self.spec_len() - 1) as u32);
        }
        let handle = self.rtv_pool.handle(idx as u32).unwrap();
        (self.render_targets[idx], handle.cpu)
    }

    /// The image to render the next frame to, given the index the platform
    /// reports as current. The platform rotates the images; an index that
    /// names no image is refused.
    pub fn begin_frame(&self, current: u32) -> (frame: Option<Frame>)
        ensures
            frame == if current < self.spec_len() {
                Some(current as usize)
            } else {
                None
            },
    {
        if (current as usize) < self.render_targets.len() {
            Some(current as usize)
        } else {
            None
        }
    }

    /// How the image that was rendered to is presented.
    pub fn end_frame(&self) -> (present: Present)
        ensures
            present == (Present { sync_interval: 0, flags: 0 }),
    {
        Present { sync_interval: 0, flags: 0 }
    }
}

/// Two images of a swapchain are different resources, and their render target
/// views stand in different slots, one increment or more apart.
pub proof fn lemma_render_targets_differ(swapchain: Swapchain, first: usize, second: usize)
    requires
        swapchain.wf(),
        first < second < swapchain.spec_len(),
    ensures
        swapchain.spec_render_targets()[first as int] != swapchain.spec_render_targets()[second as int],
        swapchain.spec_rtv_pool().spec_handle(first as u32).cpu + swapchain.spec_rtv_pool().increment
            <= swapchain.spec_rtv_pool().spec_handle(second as u32).cpu,
{
    let pool = swapchain.spec_rtv_pool();
    let last = (swapchain.spec_len() - 1) as u32;
    lemma_addressable_below(pool, first as u32, last);
    lemma_addressable_below(pool, second as u32, last);
    crate::engine::lemma_slots_differ(pool, first as u32, second as u32);
}

impl Engine {
    /// A swapchain of as many images as the frame latency, each `width` by
    /// `height`, with one render target view per image in `rtv_pool`. The
    /// images and views are entered into the engine's tables. Where no such
    /// swapchain can be created the engine is left as it was.
    pub fn create_swapchain(&mut self, width: u32, height: u32, rtv_pool: DescriptorHeap) -> (swapchain:
        Result<Swapchain, EngineError>)
        requires
            old(self).wf(),
        ensures
            final(self).wf(),
            final(self).descriptors() == old(self).descriptors(),
            final(self).spec_frame_latency() == old(self).spec_frame_latency(),
            final(self).spec_cbv_srv_uav_heap() == old(self).spec_cbv_srv_uav_heap(),
            final(self).spec_sampler_heap() == old(self).spec_sampler_heap(),
            match swapchain {
                Err(error) => {
                    &&& error == EngineError::ResourceCreation
                    &&& !spec_can_create(old(self).spec_frame_latency(), rtv_pool)
                    &&& *final(self) == *old(self)
                },
                Ok(created) => {
                    let first = old(self).resources().len() as int;
                    let count = old(self).spec_frame_latency() as nat;
                    &&& spec_can_create(old(self).spec_frame_latency(), rtv_pool)
                    &&& created.wf()
                    &&& created.spec_len() == old(self).spec_frame_latency()
                    &&& created.spec_width() == width
                    &&& created.spec_height() == height
                    &&& created.spec_rtv_pool() == rtv_pool
                    &&& created.spec_render_targets() == Seq::new(
                        count,
                        |i: int| ResourceId((first + i) as usize),
                    )
                    &&& final(self).resources() == old(self).resources() + Seq::new(
                        count,
                        |i: int| spec_back_buffer(width, height, i as u32),
                    )
                    &&& final(self).views() == old(self).views() + Seq::new(
                        count,
                        |i: int| spec_back_buffer_view(first, rtv_pool, i as u32),
                    )
                },
            },
    {
        let latency: u64 = self.frame_latency();
        if latency == 0 || latency > u32::MAX as u64 {
            return Err(EngineError::ResourceCreation);
        }
        let buffer_count: u32 = latency as u32;
        if rtv_pool.handle(buffer_count - 1).is_none() {
            return Err(EngineError::ResourceCreation);
        }
        let ghost first = self.resources().len() as int;
        let mut render_targets: Vec<ResourceId> = Vec::new();
        let mut i: u32 = 0;
        while i < buffer_count
            invariant
                i <= buffer_count,
                buffer_count == old(self).spec_frame_latency(),
                rtv_pool.spec_addressable((buffer_count - 1) as u32),
                first == old(self).resources().len(),
                self.wf(),
                self.descriptors() == old(self).descriptors(),
                self.spec_frame_latency() == old(self).spec_frame_latency(),
                self.spec_cbv_srv_uav_heap() == old(self).spec_cbv_srv_uav_heap(),
                self.spec_sampler_heap() == old(self).spec_sampler_heap(),
                render_targets@ == Seq::new(i as nat, |k: int| ResourceId((first + k) as usize)),
                self.resources() == old(self).resources() + Seq::new(
                    i as nat,
                    |k: int| spec_back_buffer(width, height, k as u32),
                ),
                self.views() == old(self).views() + Seq::new(
                    i as nat,
                    |k: int| spec_back_buffer_view(first, rtv_pool, k as u32),
                ),
            decreases buffer_count - i,
        {
            proof {
                lemma_addressable_below(rtv_pool, i, (buffer_count - 1) as u32);
            }
            let resource = self.adopt_back_buffer(
                i,
                ResourceDesc::texture_2d(
                    width,
                    height,
                    BACK_BUFFER_FORMAT,
                    1,
                    0,
                    RESOURCE_FLAG_ALLOW_RENDER_TARGET,
                ),
            );
            let rtv = rtv_pool.handle(i).unwrap();
            self.create_view(
                resource,
                ViewDesc::Texture2DRtv { format: BACK_BUFFER_VIEW_FORMAT },
                rtv.cpu,
            );
            render_targets.push(resource);
            i = i + 1;
            assert(render_targets@ =~= Seq::new(
                i as nat,
                |k: int| ResourceId((first + k) as usize),
            ));
            assert(self.resources() =~= old(self).resources() + Seq::new(
                i as nat,
                |k: int| spec_back_buffer(width, height, k as u32),
            ));
            assert(self.views() =~= old(self).views() + Seq::new(
                i as nat,
                |k: int| spec_back_buffer_view(first, rtv_pool, k as u32),
            ));
        }
        proof {
            crate::engine::lemma_resource_ids_fit(*self);
            assert forall|a: int, b: int| 0 <= a < b < render_targets@.len() implies #[trigger] render_targets@[a]
                != #[trigger] render_targets@[b] by {
                assert(render_targets@[a] == ResourceId((first + a) as usize));
                assert(render_targets@[b] == ResourceId((first + b) as usize));
            }
        }
        Ok(Swapchain { width, height, render_targets, rtv_pool })
    }
}

} // verus!
