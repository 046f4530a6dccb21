//! The rendering pipeline: the three passes and the targets they render to.

use crate::descriptor::Allocation;
use crate::engine::{CompileOutput, DescriptorHeap, Engine, SerializeOutput};
use crate::gpu::{
    ClearValue, Format, HeapType, ResourceDesc, ResourceId, ResourceOrigin, ResourceRecord, ViewDesc, ViewRecord,
    DEFAULT_RESOURCE_PLACEMENT_ALIGNMENT, F32_ONE, F32_ZERO, RESOURCE_FLAG_ALLOW_DEPTH_STENCIL,
    RESOURCE_FLAG_ALLOW_RENDER_TARGET, RESOURCE_FLAG_ALLOW_UNORDERED_ACCESS, STATE_DEPTH_WRITE,
    STATE_NON_PIXEL_SHADER_RESOURCE, STATE_PIXEL_SHADER_RESOURCE,
};
use crate::pass::geometry::Geometry;
use crate::pass::lighting::{Lighting, TILE_THREADS_X, TILE_THREADS_Y};
use crate::pass::postprocess::PostProcess;
use crate::pass::{
    spec_build_compute, spec_build_graphics, PassError, PassErrorView, DS_FORMAT,
};
use vstd::prelude::*;

verus! {

/// Slots of the shader-visible resource-view heap that the pipeline takes: the
/// visibility buffer as shader resource, the lit image as unordered access
/// target, and the lit image as shader resource.
pub const PIPELINE_SRV_UAV_COUNT: u32 = 3;

/// Slots the pipeline needs in its render-target-view heap.
pub const PIPELINE_RTV_COUNT: u32 = 1;

/// Slots the pipeline needs in its depth-stencil-view heap.
pub const PIPELINE_DSV_COUNT: u32 = 1;

/// Resolution and sample count the pipeline is built for.
#[derive(Clone, Copy, Debug, PartialEq, Eq, Structural)]
pub struct PipelineSettings {
    pub width: u32,
    pub height: u32,
    pub samples: u32,
}

impl PipelineSettings {
    /// One sample per pixel, and a resolution that whole tiles cover.
    pub open spec fn spec_valid(&self) -> bool {
        &&& self.samples == 1
        &&& self.width % TILE_THREADS_X == 0
        &&& self.height % TILE_THREADS_Y == 0
    }

    /// Tiles along x and along y.
    pub open spec fn spec_tiles(&self) -> (u32, u32) {
        (self.width / TILE_THREADS_X, self.height / TILE_THREADS_Y)
    }
}

/// Why the pipeline could not be configured.
#[derive(Debug, PartialEq, Eq)]
pub enum PipelineError {
    /// Width or height is not a multiple of the tile size.
    UnalignedResolution,
    /// A descriptor slot the pipeline needs does not exist.
    ResourceCreation,
    /// One of the passes could not be built.
    Pass(PassError),
}

/// A pipeline error with the text of a pass error as a sequence of characters.
pub enum PipelineErrorView {
    UnalignedResolution,
    ResourceCreation,
    Pass(PassErrorView),
}

impl View for PipelineError {
    type V = PipelineErrorView;

    open spec fn view(&self) -> PipelineErrorView {
        match self {
            PipelineError::UnalignedResolution => PipelineErrorView::UnalignedResolution,
            PipelineError::ResourceCreation => PipelineErrorView::ResourceCreation,
            PipelineError::Pass(error) => PipelineErrorView::Pass(error@),
        }
    }
}

/// What the platform handed back for the pieces the pipeline is built from.
pub struct PipelineInputs {
    /// The heap for the pipeline's render target view.
    pub rtv_heap: DescriptorHeap,
    /// The heap for the pipeline's depth stencil view.
    pub depth_heap: DescriptorHeap,
    pub geometry_vs: CompileOutput,
    pub geometry_ps: CompileOutput,
    pub geometry_signature: SerializeOutput,
    pub lighting_cs: CompileOutput,
    pub lighting_signature: SerializeOutput,
    pub display_map_vs: CompileOutput,
    pub display_map_ps: CompileOutput,
    pub display_map_signature: SerializeOutput,
}

/// The pipeline, configured: passes built, targets and their views asked for.
pub struct Pipeline {
    pub settings: PipelineSettings,
    pub geometry: Geometry,
    pub lighting: Lighting,
    pub post_process: PostProcess,
    /// The visibility buffer: draw identifier, local index and two barycentric
    /// coordinates per pixel, sixteen bits each.
    pub geometry_buffer: ResourceId,
    /// CPU address of the visibility buffer's render target view.
    pub geometry_rtv_uint: u64,
    /// GPU address of the visibility buffer's shader resource view.
    pub geometry_srv_uint: u64,
    /// The lit image, four half-precision channels per pixel.
    pub lighting_buffer: ResourceId,
    /// GPU address of the lit image's shader resource view.
    pub lighting_srv: u64,
    /// GPU address of the lit image's unordered access view.
    pub lighting_uav: u64,
    pub depth_target: ResourceId,
    /// CPU address of the depth target's depth stencil view.
    pub dsv: u64,
    /// First of the pipeline's slots in the shader-visible heap.
    pub srv_uav_start: u32,
}

/// The three targets the pipeline creates, in order of creation: depth
/// target, visibility buffer, lit image.
pub open spec fn spec_targets(settings: PipelineSettings) -> Seq<ResourceRecord> {
    seq![
        ResourceRecord {
            origin: ResourceOrigin::Committed(HeapType::Default),
            desc: ResourceDesc::spec_texture_2d(
                settings.width,
                settings.height,
                DS_FORMAT,
                settings.samples,
                DEFAULT_RESOURCE_PLACEMENT_ALIGNMENT,
                RESOURCE_FLAG_ALLOW_DEPTH_STENCIL,
            ),
            initial_state: STATE_DEPTH_WRITE,
            clear_value: Some(
                ClearValue::DepthStencil { format: DS_FORMAT, depth: F32_ONE, stencil: 0 },
            ),
        },
        ResourceRecord {
            origin: ResourceOrigin::Committed(HeapType::Default),
            desc: ResourceDesc::spec_texture_2d(
                settings.width,
                settings.height,
                Format::R16G16B16A16Typeless,
                settings.samples,
                DEFAULT_RESOURCE_PLACEMENT_ALIGNMENT,
                RESOURCE_FLAG_ALLOW_RENDER_TARGET,
            ),
            initial_state: STATE_NON_PIXEL_SHADER_RESOURCE,
            clear_value: Some(
                ClearValue::Color {
                    format: Format::R16G16B16A16Float,
                    red: F32_ZERO,
                    green: F32_ZERO,
                    blue: F32_ZERO,
                    alpha: F32_ZERO,
                },
            ),
        },
        ResourceRecord {
            origin: ResourceOrigin::Committed(HeapType::Default),
            desc: ResourceDesc::spec_texture_2d(
                settings.width,
                settings.height,
                Format::R16G16B16A16Typeless,
                settings.samples,
                DEFAULT_RESOURCE_PLACEMENT_ALIGNMENT,
                RESOURCE_FLAG_ALLOW_UNORDERED_ACCESS,
            ),
            initial_state: STATE_PIXEL_SHADER_RESOURCE,
            clear_value: None,
        },
    ]
}

/// The five descriptors the pipeline writes, in order. `first` names the depth
/// target, the visibility buffer and the lit image follow it. `start` is the
/// first of the pipeline's three slots in the shader-visible heap.
pub open spec fn spec_target_views(
    first: int,
    rtv_heap: DescriptorHeap,
    depth_heap: DescriptorHeap,
    shader_heap: DescriptorHeap,
    start: u32,
) -> Seq<ViewRecord> {
    seq![
        ViewRecord {
            resource: ResourceId((first + 1) as usize),
            desc: ViewDesc::Texture2DRtv { format: Format::R16G16B16A16Uint },
            slot: rtv_heap.spec_handle(0).cpu,
        },
        ViewRecord {
            resource: ResourceId((first + 1) as usize),
            desc: ViewDesc::Texture2DSrv { format: Format::R16G16B16A16Uint },
            slot: shader_heap.spec_handle(start).cpu,
        },
        ViewRecord {
            resource: ResourceId((first + 2) as usize),
            desc: ViewDesc::Texture2DUav { format: Format::R16G16B16A16Float },
            slot: shader_heap.spec_handle((start + 1) as u32).cpu,
        },
        ViewRecord {
            resource: ResourceId((first + 2) as usize),
            desc: ViewDesc::Texture2DSrv { format: Format::R16G16B16A16Float },
            slot: shader_heap.spec_handle((start + 2) as u32).cpu,
        },
        ViewRecord {
            resource: ResourceId(first as usize),
            desc: ViewDesc::Texture2DDsv { format: DS_FORMAT },
            slot: depth_heap.spec_handle(0).cpu,
        },
    ]
}

/// Every descriptor slot the pipeline writes exists.
pub open spec fn spec_slots_exist(
    rtv_heap: DescriptorHeap,
    depth_heap: DescriptorHeap,
    shader_heap: DescriptorHeap,
    start: u32,
) -> bool {
    &&& rtv_heap.spec_addressable(0)
    &&& depth_heap.spec_addressable(0)
    &&& start + 2 <= u32::MAX
    &&& shader_heap.spec_addressable(start)
    &&& shader_heap.spec_addressable((start + 1) as u32)
    &&& shader_heap.spec_addressable((start + 2) as u32)
}

/// The first pass that fails to build, in the order geometry, lighting,
/// display mapping, with its first failure.
pub open spec fn spec_pass_failure(inputs: PipelineInputs) -> Option<PassErrorView> {
    match spec_build_graphics(inputs.geometry_vs, inputs.geometry_ps, inputs.geometry_signature) {
        Err(error) => Some(error),
        Ok(_) => match spec_build_compute(inputs.lighting_cs, inputs.lighting_signature) {
            Err(error) => Some(error),
            Ok(_) => match spec_build_graphics(
                inputs.display_map_vs,
                inputs.display_map_ps,
                inputs.display_map_signature,
            ) {
                Err(error) => Some(error),
                Ok(_) => None,
            },
        },
    }
}

/// Why the pipeline cannot be configured, if it cannot. The resolution is
/// looked at first, then the descriptor slots, then the passes.
pub open spec fn spec_configuration_error(
    engine: Engine,
    settings: PipelineSettings,
    inputs: PipelineInputs,
) -> Option<PipelineErrorView> {
    if settings.width % TILE_THREADS_X != 0 || settings.height % TILE_THREADS_Y != 0 {
        Some(PipelineErrorView::UnalignedResolution)
    } else if !spec_slots_exist(
        inputs.rtv_heap,
        inputs.depth_heap,
        engine.spec_cbv_srv_uav_heap(),
        engine.descriptors().spec_resource_view_cursor(),
    ) {
        Some(PipelineErrorView::ResourceCreation)
    } else {
        match spec_pass_failure(inputs) {
            Some(error) => Some(PipelineErrorView::Pass(error)),
            None => None,
        }
    }
}

impl Pipeline {
    /// The pipeline's settings are valid and its three targets are distinct.
    pub open spec fn wf(&self) -> bool {
        &&& self.settings.spec_valid()
        &&& self.depth_target != self.geometry_buffer
        &&& self.depth_target != self.lighting_buffer
        &&& self.geometry_buffer != self.lighting_buffer
    }

    /// Configures the pipeline for one sample per pixel: checks the resolution,
    /// builds the three passes, and asks the engine for the depth target, the
    /// visibility buffer and the lit image with their five descriptors. Where
    /// anything fails, the first failure is returned and the engine is left as
    /// it was. Multisampling is not supported.
    pub fn new(engine: &mut Engine, settings: PipelineSettings, inputs: PipelineInputs) -> (pipeline:
        Result<Pipeline, PipelineError>)
        requires
            old(engine).wf(),
            old(engine).descriptors().spec_can_allocate(PIPELINE_SRV_UAV_COUNT, 0),
            settings.samples == 1,
        ensures
            final(engine).wf(),
            match pipeline {
                Err(error) => {
                    &&& spec_configuration_error(*old(engine), settings, inputs) == Some(error@)
                    &&& *final(engine) == *old(engine)
                },
                Ok(built) => {
                    let first = old(engine).resources().len() as int;
                    let start = old(engine).descriptors().spec_resource_view_cursor();
                    let shader_heap = old(engine).spec_cbv_srv_uav_heap();
                    &&& spec_configuration_error(*old(engine), settings, inputs).is_none()
                    &&& built.wf()
                    &&& built.settings == settings
                    &&& built.depth_target == ResourceId(first as usize)
                    &&& built.geometry_buffer == ResourceId((first + 1) as usize)
                    &&& built.lighting_buffer == ResourceId((first + 2) as usize)
                    &&& built.srv_uav_start == start
                    &&& built.geometry_rtv_uint == inputs.rtv_heap.spec_handle(0).cpu
                    &&& built.dsv == inputs.depth_heap.spec_handle(0).cpu
                    &&& built.geometry_srv_uint == shader_heap.spec_handle(start).gpu
                    &&& built.lighting_uav == shader_heap.spec_handle((start + 1) as u32).gpu
                    &&& built.lighting_srv == shader_heap.spec_handle((start + 2) as u32).gpu
                    &&& spec_build_graphics(
                        inputs.geometry_vs,
                        inputs.geometry_ps,
                        inputs.geometry_signature,
                    ) == Ok::<(Seq<u8>, Seq<u8>, Seq<u8>), PassErrorView>(
                        (
                            built.geometry.vertex_shader@,
                            built.geometry.pixel_shader@,
                            built.geometry.signature@,
                        ),
                    )
                    &&& built.geometry.pipeline == Geometry::spec_pipeline()
                    &&& spec_build_compute(inputs.lighting_cs, inputs.lighting_signature) == Ok::<
                        (Seq<u8>, Seq<u8>),
                        PassErrorView,
                    >((built.lighting.pipeline@, built.lighting.signature@))
                    &&& spec_build_graphics(
                        inputs.display_map_vs,
                        inputs.display_map_ps,
                        inputs.display_map_signature,
                    ) == Ok::<(Seq<u8>, Seq<u8>, Seq<u8>), PassErrorView>(
                        (
                            built.post_process.display_map.vertex_shader@,
                            built.post_process.display_map.pixel_shader@,
                            built.post_process.display_map.signature@,
                        ),
                    )
                    &&& built.post_process.display_map.pipeline == PostProcess::spec_pipeline()
                    &&& final(engine).spec_grew(
                        *old(engine),
                        spec_targets(settings),
                        spec_target_views(
                            first,
                            inputs.rtv_heap,
                            inputs.depth_heap,
                            shader_heap,
                            start,
                        ),
                        seq![
                            (Allocation {
                                resource_view_base: start,
                                resource_view_count: PIPELINE_SRV_UAV_COUNT,
                                sampler_base: old(engine).descriptors().spec_sampler_cursor(),
                                sampler_count: 0,
                            }),
                        ],
                        PIPELINE_SRV_UAV_COUNT as nat,
                    )
                },
            },
    {
        if settings.width % TILE_THREADS_X != 0 || settings.height % TILE_THREADS_Y != 0 {
            return Err(PipelineError::UnalignedResolution);
        }
        let start: u32 = engine.descriptor_cursors().0;
        let shader_heap = engine.cbv_srv_uav_heap();
        let rtv = inputs.rtv_heap.handle(0);
        let dsv = inputs.depth_heap.handle(0);
        let geometry_srv = shader_heap.handle(start);
        let lighting_uav = shader_heap.handle(start + 1);
        let lighting_srv = shader_heap.handle(start + 2);
        let (rtv, dsv, geometry_srv, lighting_uav, lighting_srv) = match (
            rtv,
            dsv,
            geometry_srv,
            lighting_uav,
            lighting_srv,
        ) {
            (Some(a), Some(b), Some(c), Some(d), Some(e)) => (a, b, c, d, e),
            _ => {
                return Err(PipelineError::ResourceCreation);
            },
        };
        let geometry = match Geometry::new(
            inputs.geometry_vs,
            inputs.geometry_ps,
            inputs.geometry_signature,
        ) {
            Ok(pass) => pass,
            Err(error) => {
                return Err(PipelineError::Pass(error));
            },
        };
        let lighting = match Lighting::new(inputs.lighting_cs, inputs.lighting_signature) {
            Ok(pass) => pass,
            Err(error) => {
                return Err(PipelineError::Pass(error));
            },
        };
        let post_process = match PostProcess::new(
            inputs.display_map_vs,
            inputs.display_map_ps,
            inputs.display_map_signature,
        ) {
            Ok(pass) => pass,
            Err(error) => {
                return Err(PipelineError::Pass(error));
            },
        };

        let depth_target = engine.create_committed_resource(
            HeapType::Default,
            ResourceDesc::texture_2d(
                settings.width,
                settings.height,
                DS_FORMAT,
                settings.samples,
                DEFAULT_RESOURCE_PLACEMENT_ALIGNMENT,
                RESOURCE_FLAG_ALLOW_DEPTH_STENCIL,
            ),
            STATE_DEPTH_WRITE,
            Some(ClearValue::DepthStencil { format: DS_FORMAT, depth: F32_ONE, stencil: 0 }),
        );
        let geometry_buffer = engine.create_committed_resource(
            HeapType::Default,
            ResourceDesc::texture_2d(
                settings.width,
                settings.height,
                Format::R16G16B16A16Typeless,
                settings.samples,
                DEFAULT_RESOURCE_PLACEMENT_ALIGNMENT,
                RESOURCE_FLAG_ALLOW_RENDER_TARGET,
            ),
            STATE_NON_PIXEL_SHADER_RESOURCE,
            Some(
                ClearValue::Color {
                    format: Format::R16G16B16A16Float,
                    red: F32_ZERO,
                    green: F32_ZERO,
                    blue: F32_ZERO,
                    alpha: F32_ZERO,
                },
            ),
        );
        let lighting_buffer = engine.create_committed_resource(
            HeapType::Default,
            ResourceDesc::texture_2d(
                settings.width,
                settings.height,
                Format::R16G16B16A16Typeless,
                settings.samples,
                DEFAULT_RESOURCE_PLACEMENT_ALIGNMENT,
                RESOURCE_FLAG_ALLOW_UNORDERED_ACCESS,
            ),
            STATE_PIXEL_SHADER_RESOURCE,
            None,
        );
        assert(engine.resources() =~= old(engine).resources() + spec_targets(settings));

        let base = engine.allocate_descriptors(PIPELINE_SRV_UAV_COUNT, 0);

        engine.create_view(
            geometry_buffer,
            ViewDesc::Texture2DRtv { format: Format::R16G16B16A16Uint },
            rtv.cpu,
        );
        engine.create_view(
            geometry_buffer,
            ViewDesc::Texture2DSrv { format: Format::R16G16B16A16Uint },
            geometry_srv.cpu,
        );
        engine.create_view(
            lighting_buffer,
            ViewDesc::Texture2DUav { format: Format::R16G16B16A16Float },
            lighting_uav.cpu,
        );
        engine.create_view(
            lighting_buffer,
            ViewDesc::Texture2DSrv { format: Format::R16G16B16A16Float },
            lighting_srv.cpu,
        );
        engine.create_view(depth_target, ViewDesc::Texture2DDsv { format: DS_FORMAT }, dsv.cpu);
        assert(engine.descriptors().issued() =~= old(engine).descriptors().issued() + seq![
            (Allocation {
                resource_view_base: start,
                resource_view_count: PIPELINE_SRV_UAV_COUNT,
                sampler_base: old(engine).descriptors().spec_sampler_cursor(),
                sampler_count: 0,
            }),
        ]);
        assert(engine.views() =~= old(engine).views() + spec_target_views(
            old(engine).resources().len() as int,
            inputs.rtv_heap,
            inputs.depth_heap,
            shader_heap,
            start,
        ));

        Ok(
            Pipeline {
                settings,
                geometry,
                lighting,
                post_process,
                geometry_buffer,
                geometry_rtv_uint: rtv.cpu,
                geometry_srv_uint: geometry_srv.gpu,
                lighting_buffer,
                lighting_srv: lighting_srv.gpu,
                lighting_uav: lighting_uav.gpu,
                depth_target,
                dsv: dsv.cpu,
                srv_uav_start: base.0,
            },
        )
    }

    /// Thread groups of the lighting dispatch along x and along y: one per
    /// tile. Whole tiles cover the resolution, so no pixel is left out.
    pub fn tiles(&self) -> (groups: (u32, u32))
        requires
            self.wf(),
        ensures
            groups == self.settings.spec_tiles(),
            groups.0 * TILE_THREADS_X == self.settings.width,
            groups.1 * TILE_THREADS_Y == self.settings.height,
    {
        (self.settings.width / TILE_THREADS_X, self.settings.height / TILE_THREADS_Y)
    }
}

} // verus!
