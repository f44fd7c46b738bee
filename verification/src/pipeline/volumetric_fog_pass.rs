//! Fog in a grid of froxels: scattering is injected, integrated along the view, and laid over the
//! scene.

use vstd::prelude::*;

use crate::pipeline::gpu::{
    bind_buffer, bind_sampler, bind_view, binds, bound, compute_stage, computes, dispatch,
    dispatch_step, fragment_stage, fullscreen, fullscreen_step, group, groups_for, overlays,
    sampler_entry, steps, storage_and_sampled, storage_texture_entry, texture_entry,
    uniform_buffer, uniform_entry, Buffer, BufferDesc, Command, Layout, LayoutEntry, Load,
    Pipeline, Resource, SampleType, Sampler, SamplerDesc, SamplerKind, Step, TexView, TextureDesc,
    TextureDimension, TextureFormat, ViewDimension,
};
use crate::pipeline::validity::{all_valid, described, is_color_target, is_depth_source, valid};
use crate::scalar::{identity_matrix, Mat4};

verus! {

/// The grid of froxels.
pub const FROXEL_W: u32 = 160;

pub const FROXEL_H: u32 = 88;

pub const FROXEL_D: u32 = 128;

/// Seven matrices and eight vectors.
pub const FOG_INJECT_UNIFORM_SIZE: u64 = 576;

/// Two vectors.
pub const FOG_GRID_UNIFORM_SIZE: u64 = 32;

pub open spec fn inject_entries() -> Seq<LayoutEntry> {
    seq![
        uniform_entry(0, compute_stage(), 0),
        storage_texture_entry(1, TextureFormat::Rgba16Float, ViewDimension::D3),
        texture_entry(2, compute_stage(), SampleType::Depth, ViewDimension::D2Array),
        sampler_entry(3, compute_stage(), SamplerKind::Comparison),
        texture_entry(4, compute_stage(), SampleType::FilterableFloat, ViewDimension::D3),
        sampler_entry(5, compute_stage(), SamplerKind::Filtering),
    ]
}

/// Uniforms, the volume to write, the shadow map, and the volume of the frame before.
pub fn inject_layout() -> (entries: Vec<LayoutEntry>)
    ensures
        entries@ == inject_entries(),
{
    vec![
        uniform_entry(0, compute_stage(), 0),
        storage_texture_entry(1, TextureFormat::Rgba16Float, ViewDimension::D3),
        texture_entry(2, compute_stage(), SampleType::Depth, ViewDimension::D2Array),
        sampler_entry(3, compute_stage(), SamplerKind::Comparison),
        texture_entry(4, compute_stage(), SampleType::FilterableFloat, ViewDimension::D3),
        sampler_entry(5, compute_stage(), SamplerKind::Filtering),
    ]
}

pub open spec fn integrate_entries() -> Seq<LayoutEntry> {
    seq![
        uniform_entry(0, compute_stage(), 0),
        texture_entry(1, compute_stage(), SampleType::UnfilterableFloat, ViewDimension::D3),
        storage_texture_entry(2, TextureFormat::Rgba16Float, ViewDimension::D3),
    ]
}

/// Uniforms, the scattering, and the volume to write.
pub fn integrate_layout() -> (entries: Vec<LayoutEntry>)
    ensures
        entries@ == integrate_entries(),
{
    vec![
        uniform_entry(0, compute_stage(), 0),
        texture_entry(1, compute_stage(), SampleType::UnfilterableFloat, ViewDimension::D3),
        storage_texture_entry(2, TextureFormat::Rgba16Float, ViewDimension::D3),
    ]
}

pub open spec fn composite_entries() -> Seq<LayoutEntry> {
    seq![
        uniform_entry(0, fragment_stage(), 0),
        texture_entry(1, fragment_stage(), SampleType::FilterableFloat, ViewDimension::D3),
        sampler_entry(2, fragment_stage(), SamplerKind::Filtering),
        texture_entry(3, fragment_stage(), SampleType::Depth, ViewDimension::D2),
    ]
}

/// Uniforms, the integrated fog, a sampler, and the scene's depth.
pub fn composite_layout() -> (entries: Vec<LayoutEntry>)
    ensures
        entries@ == composite_entries(),
{
    vec![
        uniform_entry(0, fragment_stage(), 0),
        texture_entry(1, fragment_stage(), SampleType::FilterableFloat, ViewDimension::D3),
        sampler_entry(2, fragment_stage(), SamplerKind::Filtering),
        texture_entry(3, fragment_stage(), SampleType::Depth, ViewDimension::D2),
    ]
}

/// Density and scattered light are found for every froxel.
pub open spec fn inject_step(current: TexView, previous: TexView) -> Step {
    dispatch_step(
        Pipeline::FogInject,
        bound(
            Layout::FogInject,
            seq![
                bind_buffer(0, Buffer::FogInjectUniforms),
                bind_view(1, current),
                bind_view(2, TexView::ShadowArray),
                bind_sampler(3, Sampler::ShadowCompare),
                bind_view(4, previous),
                bind_sampler(5, Sampler::FogPrevious),
            ],
        ),
        groups_for(FROXEL_W, 8),
        groups_for(FROXEL_H, 8),
        FROXEL_D,
    )
}

fn inject_command(current: TexView, previous: TexView) -> (c: Command)
    ensures
        c@ == inject_step(current, previous),
{
    let c = dispatch(
        Pipeline::FogInject,
        group(
            Layout::FogInject,
            vec![
                bind_buffer(0, Buffer::FogInjectUniforms),
                bind_view(1, current),
                bind_view(2, TexView::ShadowArray),
                bind_sampler(3, Sampler::ShadowCompare),
                bind_view(4, previous),
                bind_sampler(5, Sampler::FogPrevious),
            ],
        ),
        groups_for(FROXEL_W, 8),
        groups_for(FROXEL_H, 8),
        FROXEL_D,
    );
    assert(c@ =~~= inject_step(current, previous));
    c
}

/// Each column of froxels is added up from front to back.
pub open spec fn integrate_step(current: TexView) -> Step {
    dispatch_step(
        Pipeline::FogIntegrate,
        bound(
            Layout::FogIntegrate,
            seq![
                bind_buffer(0, Buffer::FogIntegrateUniforms),
                bind_view(1, current),
                bind_view(2, TexView::FogIntegrated),
            ],
        ),
        groups_for(FROXEL_W, 8),
        groups_for(FROXEL_H, 8),
        1,
    )
}

fn integrate_command(current: TexView) -> (c: Command)
    ensures
        c@ == integrate_step(current),
{
    let c = dispatch(
        Pipeline::FogIntegrate,
        group(
            Layout::FogIntegrate,
            vec![
                bind_buffer(0, Buffer::FogIntegrateUniforms),
                bind_view(1, current),
                bind_view(2, TexView::FogIntegrated),
            ],
        ),
        groups_for(FROXEL_W, 8),
        groups_for(FROXEL_H, 8),
        1,
    );
    assert(c@ =~~= integrate_step(current));
    c
}

/// The fog is laid over the scene.
pub open spec fn composite_step(depth: TexView, scene: TexView) -> Step {
    fullscreen_step(
        Pipeline::FogComposite,
        bound(
            Layout::FogComposite,
            seq![
                bind_buffer(0, Buffer::FogCompositeUniforms),
                bind_view(1, TexView::FogIntegrated),
                bind_sampler(2, Sampler::FogComposite),
                bind_view(3, depth),
            ],
        ),
        scene,
        Load::Keep,
    )
}

fn composite_command(depth: TexView, scene: TexView) -> (c: Command)
    ensures
        c@ == composite_step(depth, scene),
{
    let c = fullscreen(
        Pipeline::FogComposite,
        group(
            Layout::FogComposite,
            vec![
                bind_buffer(0, Buffer::FogCompositeUniforms),
                bind_view(1, TexView::FogIntegrated),
                bind_sampler(2, Sampler::FogComposite),
                bind_view(3, depth),
            ],
        ),
        scene,
        Load::Keep,
    );
    assert(c@ =~~= composite_step(depth, scene));
    c
}

/// The fog pass, and what it remembers from frame to frame.
#[derive(Clone, Copy, Debug, PartialEq, Eq, Structural)]
pub struct VolumetricFogPass {
    /// Counts frames, starting over after the largest `u32`.
    pub frame_index: u32,
    pub prev_inv_view_proj: Mat4,
}

/// What the uniforms hold of the pass itself.
#[derive(Clone, Copy, Debug, PartialEq, Eq, Structural)]
pub struct FogUniformInputs {
    /// The frame before is blended in.
    pub temporal: bool,
    pub frame_index: u32,
    pub prev_inv_view_proj: Mat4,
}

/// A volume of the size of the froxel grid.
#[verifier::allow_in_spec]
pub fn froxel_volume(view: TexView) -> TextureDesc
    returns
        (TextureDesc {
            view,
            width: FROXEL_W,
            height: FROXEL_H,
            layers: FROXEL_D,
            mip_levels: 1,
            dimension: TextureDimension::D3,
            format: TextureFormat::Rgba16Float,
            usage: storage_and_sampled(),
        }),
{
    TextureDesc {
        view,
        width: FROXEL_W,
        height: FROXEL_H,
        layers: FROXEL_D,
        mip_levels: 1,
        dimension: TextureDimension::D3,
        format: TextureFormat::Rgba16Float,
        usage: storage_and_sampled(),
    }
}

pub open spec fn fog_textures() -> Seq<TextureDesc> {
    seq![
        froxel_volume(TexView::FogScatter(false)),
        froxel_volume(TexView::FogScatter(true)),
        froxel_volume(TexView::FogIntegrated),
    ]
}

pub open spec fn fog_buffers() -> Seq<BufferDesc> {
    seq![
        uniform_buffer(Buffer::FogInjectUniforms, FOG_INJECT_UNIFORM_SIZE),
        uniform_buffer(Buffer::FogIntegrateUniforms, FOG_GRID_UNIFORM_SIZE),
        uniform_buffer(Buffer::FogCompositeUniforms, FOG_GRID_UNIFORM_SIZE),
    ]
}

impl VolumetricFogPass {
    pub fn new() -> (pass: VolumetricFogPass)
        ensures
            pass == (VolumetricFogPass { frame_index: 0, prev_inv_view_proj: identity_matrix() }),
    {
        VolumetricFogPass { frame_index: 0, prev_inv_view_proj: Mat4::identity() }
    }

    pub fn textures() -> (descs: Vec<TextureDesc>)
        ensures
            descs@ == fog_textures(),
    {
        vec![
            froxel_volume(TexView::FogScatter(false)),
            froxel_volume(TexView::FogScatter(true)),
            froxel_volume(TexView::FogIntegrated),
        ]
    }

    pub fn buffers() -> (descs: Vec<BufferDesc>)
        ensures
            descs@ == fog_buffers(),
    {
        vec![
            uniform_buffer(Buffer::FogInjectUniforms, FOG_INJECT_UNIFORM_SIZE),
            uniform_buffer(Buffer::FogIntegrateUniforms, FOG_GRID_UNIFORM_SIZE),
            uniform_buffer(Buffer::FogCompositeUniforms, FOG_GRID_UNIFORM_SIZE),
        ]
    }

    /// The sampler with which the fog is laid over the scene.
    pub fn fog_sampler() -> (desc: SamplerDesc)
        ensures
            desc == (SamplerDesc {
                sampler: Sampler::FogComposite,
                repeat_u: false,
                repeat_v: false,
                repeat_w: false,
                linear_between_levels: false,
                compare: false,
            }),
    {
        SamplerDesc {
            sampler: Sampler::FogComposite,
            repeat_u: false,
            repeat_v: false,
            repeat_w: false,
            linear_between_levels: false,
            compare: false,
        }
    }

    /// The sampler with which the frame before is read.
    pub fn prev_sampler() -> (desc: SamplerDesc)
        ensures
            desc == (SamplerDesc {
                sampler: Sampler::FogPrevious,
                repeat_u: false,
                repeat_v: false,
                repeat_w: false,
                linear_between_levels: false,
                compare: false,
            }),
    {
        SamplerDesc {
            sampler: Sampler::FogPrevious,
            repeat_u: false,
            repeat_v: false,
            repeat_w: false,
            linear_between_levels: false,
            compare: false,
        }
    }

    /// The volume that a frame fills: the two take turns.
    pub open spec fn current(self) -> TexView {
        TexView::FogScatter(self.frame_index % 2 != 0)
    }

    /// The volume that the frame before filled.
    pub open spec fn previous(self) -> TexView {
        TexView::FogScatter(self.frame_index % 2 == 0)
    }

    /// What the uniforms hold of the pass this frame. A frame whose counter is 0 has nothing to
    /// blend with.
    pub fn uniform_inputs(&self) -> (inputs: FogUniformInputs)
        ensures
            inputs == (FogUniformInputs {
                temporal: self.frame_index > 0,
                frame_index: self.frame_index,
                prev_inv_view_proj: self.prev_inv_view_proj,
            }),
    {
        FogUniformInputs {
            temporal: self.frame_index > 0,
            frame_index: self.frame_index,
            prev_inv_view_proj: self.prev_inv_view_proj,
        }
    }

    /// What a frame records.
    pub open spec fn frame_steps(self, depth: TexView, scene: TexView) -> Seq<Step> {
        seq![
            inject_step(self.current(), self.previous()),
            integrate_step(self.current()),
            composite_step(depth, scene),
        ]
    }

    /// Records a frame: scattering is injected, integrated and laid over the scene.
    pub fn encode(&mut self, depth: TexView, scene_color: TexView, inv_view_proj: Mat4) -> (commands:
        Vec<Command>)
        ensures
            steps(commands@) == old(self).frame_steps(depth, scene_color),
            *final(self) == (VolumetricFogPass {
                frame_index: if old(self).frame_index == u32::MAX {
                    0
                } else {
                    (old(self).frame_index + 1) as u32
                },
                prev_inv_view_proj: inv_view_proj,
            }),
    {
        let even = self.frame_index.is_multiple_of(2);
        let current = TexView::FogScatter(!even);
        let previous = TexView::FogScatter(even);
        let commands = vec![
            inject_command(current, previous),
            integrate_command(current),
            composite_command(depth, scene_color),
        ];
        assert(steps(commands@) =~= old(self).frame_steps(depth, scene_color));
        self.prev_inv_view_proj = inv_view_proj;
        self.frame_index = self.frame_index.wrapping_add(1);
        commands
    }
}

/// Every command of a frame can be carried out: a frame never reads the volume that it fills.
pub proof fn fog_commands_are_valid(pass: VolumetricFogPass, depth: TexView, scene: TexView)
    requires
        is_depth_source(depth),
        is_color_target(scene),
    ensures
        all_valid(pass.frame_steps(depth, scene)),
{
    assert(valid(inject_step(pass.current(), pass.previous())));
    assert(valid(integrate_step(pass.current())));
    assert(valid(composite_step(depth, scene)));
}

/// A frame reads the volume that the frame before it filled, even where the count starts over.
pub proof fn fog_reads_the_frame_before(before: VolumetricFogPass, after: VolumetricFogPass)
    requires
        after.frame_index == if before.frame_index == u32::MAX {
            0
        } else {
            before.frame_index + 1
        },
    ensures
        after.previous() == before.current(),
        after.previous() != after.current(),
{
}

/// The volumes are created as their views need them.
pub proof fn fog_textures_fit_their_views()
    ensures
        forall|i: int| 0 <= i < 3 ==> described(#[trigger] fog_textures()[i]),
{
}

/// Light is injected into a grid of 160 by 88 by 128 cells, blended with the grid of the frame before,
/// integrated along every ray, and laid over the scene. The two grids take turns.
pub proof fn fog_is_laid_over_the_scene(pass: VolumetricFogPass, depth: TexView, scene: TexView)
    ensures
        ({
            let all = pass.frame_steps(depth, scene);
            let odd = pass.frame_index % 2 == 1;
            &&& all.len() == 3
            &&& all[0]->Dispatch_pipeline == Pipeline::FogInject
            &&& all[0]->Dispatch_groups.len() == 1
            &&& binds(
                all[0]->Dispatch_groups[0],
                Layout::FogInject,
                seq![
                    Resource::Buffer(Buffer::FogInjectUniforms),
                    Resource::View(TexView::FogScatter(odd)),
                    Resource::View(TexView::ShadowArray),
                    Resource::Sampler(Sampler::ShadowCompare),
                    Resource::View(TexView::FogScatter(!odd)),
                    Resource::Sampler(Sampler::FogPrevious),
                ],
            )
            &&& (all[0] matches Step::Dispatch { x, y, z, .. } && x == 20 && y == 11 && z == 128)
            &&& computes(
                all[1],
                Pipeline::FogIntegrate,
                Layout::FogIntegrate,
                seq![
                    Resource::Buffer(Buffer::FogIntegrateUniforms),
                    Resource::View(TexView::FogScatter(odd)),
                    Resource::View(TexView::FogIntegrated),
                ],
                160,
                88,
            )
            &&& overlays(
                all[2],
                Pipeline::FogComposite,
                Layout::FogComposite,
                seq![
                    Resource::Buffer(Buffer::FogCompositeUniforms),
                    Resource::View(TexView::FogIntegrated),
                    Resource::Sampler(Sampler::FogComposite),
                    Resource::View(depth),
                ],
                scene,
                Load::Keep,
            )
        }),
{
}

/// Fog is held in a grid of 160 by 88 by 128 cells: what is scattered, now and before, and what it adds
/// up to.
pub proof fn fog_volumes_have_their_cells(i: int)
    requires
        0 <= i < 3,
    ensures
        fog_textures().len() == 3,
        fog_textures()[0].view == TexView::FogScatter(false),
        fog_textures()[1].view == TexView::FogScatter(true),
        fog_textures()[2].view == TexView::FogIntegrated,
        fog_textures()[i].width == 160 && fog_textures()[i].height == 88
            && fog_textures()[i].layers == 128,
        fog_textures()[i].dimension == TextureDimension::D3,
        fog_textures()[i].format == TextureFormat::Rgba16Float,
        fog_textures()[i].usage.storage_binding && fog_textures()[i].usage.texture_binding,
{
}

} // verus!
