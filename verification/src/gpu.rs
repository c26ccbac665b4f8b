use vstd::prelude::*;

use crate::frame::{
    ComputeStage, IMMEDIATES_SIZE, WORKGROUP_SIDE, cascade_of, frame_dispatches_of, immediate_bytes,
    lemma_frame_schedule,
};
use crate::options::AppOptions;

verus! {

/// Pixel formats of the render targets.
#[derive(Clone, Copy, Debug)]
pub enum TextureFormat {
    /// Four 32-bit float channels: the radiance stored in a cascade.
    Rgba32Float,
    /// Four 16-bit normalised channels: the post-processed image.
    Rgba16Unorm,
}

/// A two-dimensional, single-sampled texture without mipmaps, usable as a sampled
/// texture, as a storage texture and as the source of a copy.
#[derive(Clone, Copy, Debug)]
pub struct TextureSpec {
    pub width: u32,
    pub height: u32,
    pub format: TextureFormat,
}

/// How a shader may use a storage texture.
#[derive(Clone, Copy, Debug)]
pub enum StorageAccess {
    ReadWrite,
    WriteOnly,
}

/// Where a storage texture is bound in its bind group, and how shaders use it.
#[derive(Clone, Copy, Debug)]
pub struct StorageBinding {
    pub binding: u32,
    pub access: StorageAccess,
}

/// The number of particles that the particle storage buffer has room for.
pub const PARTICLE_CAPACITY: u64 = 32;

/// The bind group layouts that pipelines are made of.
#[derive(Clone, Copy, Debug)]
pub enum BindGroupSlot {
    /// The array of cascade storage textures, at binding 0.
    Cascades,
    /// The particle storage buffer, at binding 0.
    World,
    /// The cascade array at binding 0 and the post-process target at binding 1.
    PostProcess,
}

/// The shader sources that pipelines are compiled from.
#[derive(Clone, Copy, Debug)]
pub enum ShaderSource {
    /// The radiance cascade shaders: generation, merging and final gather.
    RadianceCascades,
    /// The post-process shader.
    PostProcess,
}

/// The entry points of the compute shaders.
#[derive(Clone, Copy, Debug)]
pub enum EntryPoint {
    GenCascades,
    MergeCascades,
    FinalPass,
    Main,
}

impl EntryPoint {
    /// The name of the entry point in its shader source.
    pub fn name(&self) -> (name: &'static str)
        ensures
            name@ == match *self {
                EntryPoint::GenCascades => "gen_cascades"@,
                EntryPoint::MergeCascades => "merge_cascades"@,
                EntryPoint::FinalPass => "final_pass"@,
                EntryPoint::Main => "main"@,
            },
    {
        match self {
            EntryPoint::GenCascades => "gen_cascades",
            EntryPoint::MergeCascades => "merge_cascades",
            EntryPoint::FinalPass => "final_pass",
            EntryPoint::Main => "main",
        }
    }
}

/// A compute pipeline: its shader, its entry point, the bind group layouts at group
/// 0, 1, ... and the number of bytes of immediate data its passes hand it.
#[derive(Clone, Debug)]
pub struct PipelineSpec {
    pub source: ShaderSource,
    pub entry_point: EntryPoint,
    pub bind_groups: Vec<BindGroupSlot>,
    pub immediate_size: u32,
}

/// The GPU resources that the renderer creates, and how they are sized.
#[derive(Debug)]
pub struct GpuPlan {
    /// Every cascade texture has this shape.
    pub cascade_texture: TextureSpec,
    /// How many cascade textures there are.
    pub cascade_count: u32,
    /// The length of the binding array of cascades; none when there are no cascades.
    pub cascade_array_count: Option<u32>,
    /// Where the cascade array is bound, in the cascade and post-process groups.
    pub cascade_binding: StorageBinding,
    /// The target of the post-process pass, copied to the surface every frame.
    pub post_process_texture: TextureSpec,
    /// Where the post-process target is bound, in the post-process group.
    pub post_process_binding: StorageBinding,
    pub rc_pipeline: PipelineSpec,
    pub merge_pipeline: PipelineSpec,
    pub final_pipeline: PipelineSpec,
    pub pp_pipeline: PipelineSpec,
}

pub open spec fn texture_of(dims: (u32, u32), format: TextureFormat) -> TextureSpec {
    TextureSpec { width: dims.0, height: dims.1, format }
}

pub open spec fn pipeline_is(
    p: PipelineSpec,
    source: ShaderSource,
    entry_point: EntryPoint,
    bind_groups: Seq<BindGroupSlot>,
    immediate_size: u32,
) -> bool {
    &&& p.source == source
    &&& p.entry_point == entry_point
    &&& p.bind_groups@ == bind_groups
    &&& p.immediate_size == immediate_size
}

fn pipeline(
    source: ShaderSource,
    entry_point: EntryPoint,
    bind_groups: Vec<BindGroupSlot>,
    immediate_size: u32,
) -> (p: PipelineSpec)
    ensures
        pipeline_is(p, source, entry_point, bind_groups@, immediate_size),
{
    PipelineSpec { source, entry_point, bind_groups, immediate_size }
}

impl GpuPlan {
    /// What `new` builds for a renderer whose targets are `dimensions` pixels, with
    /// `num_cascades` cascades.
    pub open spec fn built_for(&self, dimensions: (u32, u32), num_cascades: u32) -> bool {
        &&& self.cascade_texture == texture_of(dimensions, TextureFormat::Rgba32Float)
        &&& self.cascade_count == num_cascades
        &&& self.cascade_array_count == (if num_cascades == 0 {
            None
        } else {
            Some(num_cascades)
        })
        &&& self.cascade_binding == (StorageBinding { binding: 0, access: StorageAccess::ReadWrite })
        &&& self.post_process_texture == texture_of(dimensions, TextureFormat::Rgba16Unorm)
        &&& self.post_process_binding == (StorageBinding { binding: 1, access: StorageAccess::WriteOnly })
        &&& pipeline_is(
            self.rc_pipeline,
            ShaderSource::RadianceCascades,
            EntryPoint::GenCascades,
            seq![BindGroupSlot::Cascades, BindGroupSlot::World],
            IMMEDIATES_SIZE,
        )
        &&& pipeline_is(
            self.merge_pipeline,
            ShaderSource::RadianceCascades,
            EntryPoint::MergeCascades,
            seq![BindGroupSlot::Cascades],
            IMMEDIATES_SIZE,
        )
        &&& pipeline_is(
            self.final_pipeline,
            ShaderSource::RadianceCascades,
            EntryPoint::FinalPass,
            seq![BindGroupSlot::Cascades],
            0,
        )
        &&& pipeline_is(
            self.pp_pipeline,
            ShaderSource::PostProcess,
            EntryPoint::Main,
            seq![BindGroupSlot::PostProcess],
            0,
        )
    }

    /// The resources of a renderer whose targets are `dimensions` pixels, with
    /// `num_cascades` cascades. Every cascade and the post-process target have the
    /// renderer's dimensions; shaders read and write the cascades, bound at 0, and
    /// only write the post-process target, bound at 1. Generation and
    /// merging take the cascades at group 0, generation the particles at group 1, and
    /// both take `IMMEDIATES_SIZE` bytes of immediate data; the final gather takes the
    /// cascades alone and the post-process pass its own group, without immediates.
    pub fn new(dimensions: (u32, u32), num_cascades: u32) -> (plan: GpuPlan)
        ensures
            plan.built_for(dimensions, num_cascades),
    {
        let cascade_texture = TextureSpec {
            width: dimensions.0,
            height: dimensions.1,
            format: TextureFormat::Rgba32Float,
        };
        let cascade_array_count = if num_cascades == 0 {
            None
        } else {
            Some(num_cascades)
        };
        let post_process_texture = TextureSpec {
            width: dimensions.0,
            height: dimensions.1,
            format: TextureFormat::Rgba16Unorm,
        };
        let rc_pipeline = pipeline(
            ShaderSource::RadianceCascades,
            EntryPoint::GenCascades,
            vec![BindGroupSlot::Cascades, BindGroupSlot::World],
            IMMEDIATES_SIZE,
        );
        let merge_pipeline = pipeline(
            ShaderSource::RadianceCascades,
            EntryPoint::MergeCascades,
            vec![BindGroupSlot::Cascades],
            IMMEDIATES_SIZE,
        );
        let final_pipeline = pipeline(
            ShaderSource::RadianceCascades,
            EntryPoint::FinalPass,
            vec![BindGroupSlot::Cascades],
            0,
        );
        let pp_pipeline = pipeline(
            ShaderSource::PostProcess,
            EntryPoint::Main,
            vec![BindGroupSlot::PostProcess],
            0,
        );
        assert(rc_pipeline.bind_groups@ =~= seq![BindGroupSlot::Cascades, BindGroupSlot::World]);
        assert(merge_pipeline.bind_groups@ =~= seq![BindGroupSlot::Cascades]);
        assert(final_pipeline.bind_groups@ =~= seq![BindGroupSlot::Cascades]);
        assert(pp_pipeline.bind_groups@ =~= seq![BindGroupSlot::PostProcess]);
        GpuPlan {
            cascade_texture,
            cascade_count: num_cascades,
            cascade_array_count,
            cascade_binding: StorageBinding { binding: 0, access: StorageAccess::ReadWrite },
            post_process_texture,
            post_process_binding: StorageBinding { binding: 1, access: StorageAccess::WriteOnly },
            rc_pipeline,
            merge_pipeline,
            final_pipeline,
            pp_pipeline,
        }
    }

    /// The pipeline that runs the passes of `stage`.
    pub open spec fn spec_pipeline_for(&self, stage: ComputeStage) -> PipelineSpec {
        match stage {
            ComputeStage::GenerateCascade => self.rc_pipeline,
            ComputeStage::MergeCascade => self.merge_pipeline,
            ComputeStage::FinalGather => self.final_pipeline,
            ComputeStage::PostProcess => self.pp_pipeline,
        }
    }

    /// The pipeline that runs the passes of `stage`.
    pub fn pipeline_for(&self, stage: ComputeStage) -> (p: &PipelineSpec)
        ensures
            *p == self.spec_pipeline_for(stage),
    {
        match stage {
            ComputeStage::GenerateCascade => &self.rc_pipeline,
            ComputeStage::MergeCascade => &self.merge_pipeline,
            ComputeStage::FinalGather => &self.final_pipeline,
            ComputeStage::PostProcess => &self.pp_pipeline,
        }
    }
}

/// Every target the renderer creates has exactly the requested dimensions: each
/// cascade texture and the post-process target are `dimensions.0` pixels wide and
/// `dimensions.1` high, so the post-process target is as large as the window's
/// surface texture it is copied into, and no pixel of it is cut to whole tiles.
/// There is one cascade texture per cascade, bound as an array (of no stated length
/// when empty) at 0 for reading and writing; the post-process target is bound at 1
/// for writing.
pub proof fn lemma_plan_targets_have_requested_size(
    plan: GpuPlan,
    dimensions: (u32, u32),
    num_cascades: u32,
)
    requires
        plan.built_for(dimensions, num_cascades),
    ensures
        plan.cascade_texture.width == dimensions.0,
        plan.cascade_texture.height == dimensions.1,
        plan.post_process_texture.width == dimensions.0,
        plan.post_process_texture.height == dimensions.1,
        plan.cascade_texture.format is Rgba32Float,
        plan.post_process_texture.format is Rgba16Unorm,
        plan.cascade_count == num_cascades,
        num_cascades == 0 ==> plan.cascade_array_count is None,
        num_cascades != 0 ==> plan.cascade_array_count == Some(num_cascades),
        plan.cascade_binding.binding == 0,
        plan.cascade_binding.access is ReadWrite,
        plan.post_process_binding.binding == 1,
        plan.post_process_binding.access is WriteOnly,
{
}

/// The bind group layouts of each pipeline, for every size and cascade count: only
/// generation reads the particles, as its second group; merging and the final gather
/// take the cascade array alone; the post-process pass takes only its own group.
/// Generation and merging take twelve bytes of immediate data, the others none.
pub proof fn lemma_plan_pipeline_groups(plan: GpuPlan, dimensions: (u32, u32), num_cascades: u32)
    requires
        plan.built_for(dimensions, num_cascades),
    ensures
        plan.rc_pipeline.bind_groups@.len() == 2,
        plan.rc_pipeline.bind_groups@[0] is Cascades,
        plan.rc_pipeline.bind_groups@[1] is World,
        plan.merge_pipeline.bind_groups@.len() == 1,
        plan.merge_pipeline.bind_groups@[0] is Cascades,
        plan.final_pipeline.bind_groups@.len() == 1,
        plan.final_pipeline.bind_groups@[0] is Cascades,
        plan.pp_pipeline.bind_groups@.len() == 1,
        plan.pp_pipeline.bind_groups@[0] is PostProcess,
        forall|i: int|
            0 <= i < plan.merge_pipeline.bind_groups@.len() ==> !(
            #[trigger] plan.merge_pipeline.bind_groups@[i] is World),
        forall|i: int|
            0 <= i < plan.final_pipeline.bind_groups@.len() ==> !(
            #[trigger] plan.final_pipeline.bind_groups@[i] is World),
        plan.rc_pipeline.immediate_size == 12,
        plan.merge_pipeline.immediate_size == 12,
        plan.final_pipeline.immediate_size == 0,
        plan.pp_pipeline.immediate_size == 0,
{
}

/// Every pipeline is compiled from the shader source that defines its entry point:
/// `gen_cascades`, `merge_cascades` and `final_pass` from the radiance cascade
/// shaders, `main` from the post-process shader; and each pipeline has the entry
/// point of its stage.
pub proof fn lemma_plan_entry_points_and_sources(
    plan: GpuPlan,
    dimensions: (u32, u32),
    num_cascades: u32,
)
    requires
        plan.built_for(dimensions, num_cascades),
    ensures
        plan.rc_pipeline.entry_point is GenCascades,
        plan.rc_pipeline.source is RadianceCascades,
        plan.merge_pipeline.entry_point is MergeCascades,
        plan.merge_pipeline.source is RadianceCascades,
        plan.final_pipeline.entry_point is FinalPass,
        plan.final_pipeline.source is RadianceCascades,
        plan.pp_pipeline.entry_point is Main,
        plan.pp_pipeline.source is PostProcess,
        forall|stage: ComputeStage|
            (#[trigger] plan.spec_pipeline_for(stage)).source is PostProcess
                <==> plan.spec_pipeline_for(stage).entry_point is Main,
        forall|stage: ComputeStage|
            (#[trigger] plan.spec_pipeline_for(stage)).source is PostProcess <==> stage is PostProcess,
{
}

/// The resources and the frames of one renderer fit together. Every pass of a frame
/// runs a pipeline that takes immediate data exactly when the pass carries some, and
/// the encoded data is as long as the pipeline takes; every cascade a pass names has
/// its texture; and the workgroups of every pass stay inside the cascade textures and
/// the post-process target.
pub proof fn lemma_frame_fits_resources(
    plan: GpuPlan,
    options: AppOptions,
    cursor: (u32, u32),
)
    requires
        options.num_cascades >= 1,
        plan.built_for(options.window_dimensions, options.num_cascades),
    ensures
        ({
            let p = frame_dispatches_of(options, cursor);
            &&& plan.cascade_array_count == Some(plan.cascade_count)
            &&& forall|i: int|
                0 <= i < p.len() ==> ((#[trigger] p[i]).immediates is Some <==> plan.spec_pipeline_for(
                    p[i].stage,
                ).immediate_size > 0)
            &&& forall|i: int|
                0 <= i < p.len() && (#[trigger] p[i]).immediates is Some ==> immediate_bytes(
                    p[i].immediates.unwrap(),
                ).len() == plan.spec_pipeline_for(p[i].stage).immediate_size
            &&& forall|i: int|
                0 <= i < p.len() && (#[trigger] p[i]).immediates is Some ==> cascade_of(p[i])
                    < plan.cascade_count
            &&& forall|i: int|
                0 <= i < p.len() ==> WORKGROUP_SIDE * (#[trigger] p[i]).workgroups.0
                    <= plan.cascade_texture.width && WORKGROUP_SIDE * p[i].workgroups.1
                    <= plan.cascade_texture.height && WORKGROUP_SIDE * p[i].workgroups.0
                    <= plan.post_process_texture.width && WORKGROUP_SIDE * p[i].workgroups.1
                    <= plan.post_process_texture.height
        }),
{
    lemma_frame_schedule(options, cursor);
    let p = frame_dispatches_of(options, cursor);
    let n = options.num_cascades as int;
    assert forall|i: int| 0 <= i < p.len() implies ((#[trigger] p[i]).immediates is Some
        <==> plan.spec_pipeline_for(p[i].stage).immediate_size > 0) by {
        if i < n {
        } else if i < 2 * n - 1 {
        } else {
        }
    }
}

} // verus!
