//! Temporal anti-aliasing: each frame is blended with the one before, along the motion of its
//! pixels.

use vstd::prelude::*;

use crate::pipeline::gpu::{
    bind_buffer, bind_sampler, bind_view, bound, compute_stage, computes, dispatch, dispatch_step,
    group, groups_for, has_texels, sampler_entry, steps, storage_target, storage_texture_entry,
    texture_entry, uniform_buffer, uniform_entry, Buffer, BufferDesc, Command, Layout, LayoutEntry,
    Pipeline, Resource, SampleType, Sampler, SamplerDesc, SamplerKind, Step, TexView, TextureDesc,
    TextureFormat, ViewDimension,
};
use crate::pipeline::validity::{all_valid, described, is_color_source, is_depth_source, valid};
use crate::scalar::{identity_matrix, zero, Mat4, Scalar};
use crate::scene::vertex::Vec2;

verus! {

/// Two matrices and three vectors.
pub const TAA_UNIFORM_SIZE: u64 = 176;

pub open spec fn motion_entries() -> Seq<LayoutEntry> {
    seq![
        uniform_entry(0, compute_stage(), 0),
        texture_entry(1, compute_stage(), SampleType::Depth, ViewDimension::D2),
        storage_texture_entry(2, TextureFormat::Rgba16Float, ViewDimension::D2),
    ]
}

/// Uniforms, depth, and the motion to write.
pub fn motion_layout() -> (entries: Vec<LayoutEntry>)
    ensures
        entries@ == motion_entries(),
{
    vec![
        uniform_entry(0, compute_stage(), 0),
        texture_entry(1, compute_stage(), SampleType::Depth, ViewDimension::D2),
        storage_texture_entry(2, TextureFormat::Rgba16Float, ViewDimension::D2),
    ]
}

pub open spec fn resolve_entries() -> Seq<LayoutEntry> {
    seq![
        uniform_entry(0, compute_stage(), 0),
        texture_entry(1, compute_stage(), SampleType::UnfilterableFloat, ViewDimension::D2),
        texture_entry(2, compute_stage(), SampleType::UnfilterableFloat, ViewDimension::D2),
        texture_entry(3, compute_stage(), SampleType::FilterableFloat, ViewDimension::D2),
        sampler_entry(4, compute_stage(), SamplerKind::Filtering),
        storage_texture_entry(5, TextureFormat::Rgba16Float, ViewDimension::D2),
    ]
}

/// Uniforms, the scene's colour, motion, the history, a sampler, and the result to write.
pub fn resolve_layout() -> (entries: Vec<LayoutEntry>)
    ensures
        entries@ == resolve_entries(),
{
    vec![
        uniform_entry(0, compute_stage(), 0),
        texture_entry(1, compute_stage(), SampleType::UnfilterableFloat, ViewDimension::D2),
        texture_entry(2, compute_stage(), SampleType::UnfilterableFloat, ViewDimension::D2),
        texture_entry(3, compute_stage(), SampleType::FilterableFloat, ViewDimension::D2),
        sampler_entry(4, compute_stage(), SamplerKind::Filtering),
        storage_texture_entry(5, TextureFormat::Rgba16Float, ViewDimension::D2),
    ]
}

/// How far every pixel moved since the frame before.
pub open spec fn motion_step(depth: TexView, w: u32, h: u32) -> Step {
    dispatch_step(
        Pipeline::TaaMotion,
        bound(
            Layout::TaaMotion,
            seq![
                bind_buffer(0, Buffer::TaaUniforms),
                bind_view(1, depth),
                bind_view(2, TexView::TaaMotion),
            ],
        ),
        groups_for(w, 8),
        groups_for(h, 8),
        1,
    )
}

fn motion_command(depth: TexView, w: u32, h: u32) -> (c: Command)
    ensures
        c@ == motion_step(depth, w, h),
{
    let c = dispatch(
        Pipeline::TaaMotion,
        group(
            Layout::TaaMotion,
            vec![
                bind_buffer(0, Buffer::TaaUniforms),
                bind_view(1, depth),
                bind_view(2, TexView::TaaMotion),
            ],
        ),
        groups_for(w, 8),
        groups_for(h, 8),
        1,
    );
    assert(c@ =~~= motion_step(depth, w, h));
    c
}

/// The frame is blended with the history.
pub open spec fn resolve_step(
    scene: TexView,
    read: TexView,
    write: TexView,
    w: u32,
    h: u32,
) -> Step {
    dispatch_step(
        Pipeline::TaaResolve,
        bound(
            Layout::TaaResolve,
            seq![
                bind_buffer(0, Buffer::TaaUniforms),
                bind_view(1, scene),
                bind_view(2, TexView::TaaMotion),
                bind_view(3, read),
                bind_sampler(4, Sampler::TaaHistory),
                bind_view(5, write),
            ],
        ),
        groups_for(w, 8),
        groups_for(h, 8),
        1,
    )
}

fn resolve_command(scene: TexView, read: TexView, write: TexView, w: u32, h: u32) -> (c: Command)
    ensures
        c@ == resolve_step(scene, read, write, w, h),
{
    let c = dispatch(
        Pipeline::TaaResolve,
        group(
            Layout::TaaResolve,
            vec![
                bind_buffer(0, Buffer::TaaUniforms),
                bind_view(1, scene),
                bind_view(2, TexView::TaaMotion),
                bind_view(3, read),
                bind_sampler(4, Sampler::TaaHistory),
                bind_view(5, write),
            ],
        ),
        groups_for(w, 8),
        groups_for(h, 8),
        1,
    );
    assert(c@ =~~= resolve_step(scene, read, write, w, h));
    c
}

/// Temporal anti-aliasing, and what it remembers from frame to frame.
#[derive(Clone, Copy, Debug, PartialEq, Eq, Structural)]
pub struct TaaPass {
    pub width: u32,
    pub height: u32,
    /// Counts frames since the textures were created.
    pub frame_count: u32,
    /// Which of the two histories the next frame writes.
    pub write_to_a: bool,
    pub prev_view_proj: Mat4,
    pub prev_jitter: Vec2,
}

/// What the uniforms hold of the pass itself.
#[derive(Clone, Copy, Debug, PartialEq, Eq, Structural)]
pub struct TaaUniformInputs {
    pub width: u32,
    pub height: u32,
    /// There is no history to blend with yet.
    pub first_frame: bool,
    pub prev_view_proj: Mat4,
    pub prev_jitter: Vec2,
}

pub open spec fn taa_textures(width: u32, height: u32) -> Seq<TextureDesc> {
    seq![
        storage_target(TexView::TaaMotion, width, height, TextureFormat::Rgba16Float),
        storage_target(TexView::TaaHistory(true), width, height, TextureFormat::Rgba16Float),
        storage_target(TexView::TaaHistory(false), width, height, TextureFormat::Rgba16Float),
    ]
}

impl TaaPass {
    pub fn new(width: u32, height: u32) -> (pass: TaaPass)
        ensures
            pass == (TaaPass {
                width,
                height,
                frame_count: 0,
                write_to_a: true,
                prev_view_proj: identity_matrix(),
                prev_jitter: Vec2 { x: zero(), y: zero() },
            }),
    {
        TaaPass {
            width,
            height,
            frame_count: 0,
            write_to_a: true,
            prev_view_proj: Mat4::identity(),
            prev_jitter: Vec2 { x: Scalar::from_bits(0), y: Scalar::from_bits(0) },
        }
    }

    /// The textures of the pass at its present size: motion and the two histories.
    pub fn textures(&self) -> (descs: Vec<TextureDesc>)
        ensures
            descs@ == taa_textures(self.width, self.height),
    {
        let width: u32 = self.width;
        let height: u32 = self.height;
        vec![
            storage_target(TexView::TaaMotion, width, height, TextureFormat::Rgba16Float),
            storage_target(TexView::TaaHistory(true), width, height, TextureFormat::Rgba16Float),
            storage_target(TexView::TaaHistory(false), width, height, TextureFormat::Rgba16Float),
        ]
    }

    pub fn uniforms() -> (desc: BufferDesc)
        ensures
            desc == uniform_buffer(Buffer::TaaUniforms, TAA_UNIFORM_SIZE),
    {
        uniform_buffer(Buffer::TaaUniforms, TAA_UNIFORM_SIZE)
    }

    /// The sampler with which the history is read.
    pub fn history_sampler() -> (desc: SamplerDesc)
        ensures
            desc == (SamplerDesc {
                sampler: Sampler::TaaHistory,
                repeat_u: false,
                repeat_v: false,
                repeat_w: false,
                linear_between_levels: false,
                compare: false,
            }),
    {
        SamplerDesc {
            sampler: Sampler::TaaHistory,
            repeat_u: false,
            repeat_v: false,
            repeat_w: false,
            linear_between_levels: false,
            compare: false,
        }
    }

    /// The element of the jitter sequence that the frame uses, from one to sixteen in turn.
    pub fn jitter_index(&self) -> (index: u32)
        ensures
            index == self.frame_count % 16 + 1,
    {
        (self.frame_count % 16) + 1
    }

    /// Fits the pass to a screen. The textures are new, so the frames that follow have no history.
    pub fn resize(&mut self, width: u32, height: u32)
        ensures
            *final(self) == (TaaPass { width, height, frame_count: 0, ..*old(self) }),
    {
        self.width = width;
        self.height = height;
        self.frame_count = 0;
    }

    /// What the uniforms hold of the pass this frame.
    pub fn uniform_inputs(&self) -> (inputs: TaaUniformInputs)
        ensures
            inputs == (TaaUniformInputs {
                width: self.width,
                height: self.height,
                first_frame: self.frame_count < 2,
                prev_view_proj: self.prev_view_proj,
                prev_jitter: self.prev_jitter,
            }),
    {
        TaaUniformInputs {
            width: self.width,
            height: self.height,
            first_frame: self.frame_count < 2,
            prev_view_proj: self.prev_view_proj,
            prev_jitter: self.prev_jitter,
        }
    }

    /// What a frame records.
    pub open spec fn frame_steps(self, depth: TexView, scene: TexView) -> Seq<Step> {
        seq![
            motion_step(depth, self.width, self.height),
            resolve_step(
                scene,
                TexView::TaaHistory(!self.write_to_a),
                TexView::TaaHistory(self.write_to_a),
                self.width,
                self.height,
            ),
        ]
    }

    /// Records a frame: motion vectors, then the blend with the history. Afterwards
    /// [`TaaPass::output_view`] is the result.
    pub fn encode(&mut self, depth: TexView, scene_color: TexView, view_proj: Mat4, jitter: Vec2) -> (
    commands: Vec<Command>)
        ensures
            steps(commands@) == old(self).frame_steps(depth, scene_color),
            *final(self) == (TaaPass {
                prev_view_proj: view_proj,
                prev_jitter: jitter,
                frame_count: if old(self).frame_count == u32::MAX {
                    u32::MAX
                } else {
                    (old(self).frame_count + 1) as u32
                },
                write_to_a: !old(self).write_to_a,
                ..*old(self)
            }),
    {
        let commands = vec![
            motion_command(depth, self.width, self.height),
            resolve_command(
                scene_color,
                TexView::TaaHistory(!self.write_to_a),
                TexView::TaaHistory(self.write_to_a),
                self.width,
                self.height,
            ),
        ];
        assert(steps(commands@) =~= old(self).frame_steps(depth, scene_color));
        self.prev_view_proj = view_proj;
        self.prev_jitter = jitter;
        self.frame_count = self.frame_count.saturating_add(1);
        self.write_to_a = !self.write_to_a;
        commands
    }

    /// The history that was written last.
    pub open spec fn output(self) -> TexView {
        TexView::TaaHistory(!self.write_to_a)
    }

    /// The history that was written last.
    pub fn output_view(&self) -> (view: TexView)
        ensures
            view == self.output(),
    {
        TexView::TaaHistory(!self.write_to_a)
    }
}

/// Every command of a frame can be carried out: a frame never reads the history that it writes.
pub proof fn taa_commands_are_valid(pass: TaaPass, depth: TexView, scene: TexView)
    requires
        is_depth_source(depth),
        is_color_source(scene),
        scene != TexView::TaaHistory(pass.write_to_a),
    ensures
        all_valid(pass.frame_steps(depth, scene)),
{
    assert(valid(motion_step(depth, pass.width, pass.height)));
    let read = TexView::TaaHistory(!pass.write_to_a);
    let write = TexView::TaaHistory(pass.write_to_a);
    assert(valid(resolve_step(scene, read, write, pass.width, pass.height)));
}

/// After a frame, the output is the history which that frame wrote, and the next frame reads it.
pub proof fn taa_output_is_the_last_result(
    before: TaaPass,
    after: TaaPass,
    depth: TexView,
    scene: TexView,
)
    requires
        after.write_to_a == !before.write_to_a,
    ensures
        before.frame_steps(depth, scene)[1]->Dispatch_groups[0].bindings[5].resource
            == Resource::View(after.output()),
        after.frame_steps(depth, scene)[1]->Dispatch_groups[0].bindings[3].resource
            == Resource::View(after.output()),
{
}

/// The textures are created as their views need them.
pub proof fn taa_textures_fit_their_views(width: u32, height: u32)
    ensures
        forall|i: int| 0 <= i < 3 ==> described(#[trigger] taa_textures(width, height)[i]),
{
}

/// How far pixels moved is found from the depth; then the scene is blended along it with the history
/// that the frame before wrote, into the other one.
pub proof fn taa_blends_with_the_other_history(pass: TaaPass, depth: TexView, scene: TexView)
    ensures
        ({
            let all = pass.frame_steps(depth, scene);
            &&& all.len() == 2
            &&& computes(
                all[0],
                Pipeline::TaaMotion,
                Layout::TaaMotion,
                seq![
                    Resource::Buffer(Buffer::TaaUniforms),
                    Resource::View(depth),
                    Resource::View(TexView::TaaMotion),
                ],
                pass.width as int,
                pass.height as int,
            )
            &&& computes(
                all[1],
                Pipeline::TaaResolve,
                Layout::TaaResolve,
                seq![
                    Resource::Buffer(Buffer::TaaUniforms),
                    Resource::View(scene),
                    Resource::View(TexView::TaaMotion),
                    Resource::View(TexView::TaaHistory(!pass.write_to_a)),
                    Resource::Sampler(Sampler::TaaHistory),
                    Resource::View(TexView::TaaHistory(pass.write_to_a)),
                ],
                pass.width as int,
                pass.height as int,
            )
        }),
{
}

/// Motion and both histories are held for every pixel.
pub proof fn taa_textures_cover_the_screen(width: u32, height: u32)
    ensures
        taa_textures(width, height).len() == 3,
        has_texels(
            taa_textures(width, height)[0],
            TexView::TaaMotion,
            width as int,
            height as int,
            TextureFormat::Rgba16Float,
        ),
        has_texels(
            taa_textures(width, height)[1],
            TexView::TaaHistory(true),
            width as int,
            height as int,
            TextureFormat::Rgba16Float,
        ),
        has_texels(
            taa_textures(width, height)[2],
            TexView::TaaHistory(false),
            width as int,
            height as int,
            TextureFormat::Rgba16Float,
        ),
{
}

} // verus!
