//! Screen-space ambient occlusion.

use vstd::prelude::*;

use crate::pipeline::gpu::{
    bind_buffer, bind_view, bound, compute_stage, computes, dispatch, dispatch_step, group,
    groups_for, has_texels, steps, storage_target, storage_texture_entry, texture_entry,
    uniform_buffer, uniform_entry, Buffer, BufferDesc, Command, Layout, LayoutEntry, Pipeline,
    Resource, SampleType, Step, TexView, TextureDesc, TextureFormat, ViewDimension,
};
use crate::pipeline::validity::{all_valid, described, is_color_source, is_depth_source, valid};

verus! {

/// Three matrices and two vectors.
pub const SSAO_UNIFORM_SIZE: u64 = 224;

pub open spec fn sample_entries() -> Seq<LayoutEntry> {
    seq![
        uniform_entry(0, compute_stage(), SSAO_UNIFORM_SIZE),
        texture_entry(1, compute_stage(), SampleType::UnfilterableFloat, ViewDimension::D2),
        texture_entry(2, compute_stage(), SampleType::UnfilterableFloat, ViewDimension::D2),
        storage_texture_entry(3, TextureFormat::R32Float, ViewDimension::D2),
    ]
}

/// Uniforms, normals, depth, and the occlusion to write.
pub fn sample_layout() -> (entries: Vec<LayoutEntry>)
    ensures
        entries@ == sample_entries(),
{
    vec![
        uniform_entry(0, compute_stage(), SSAO_UNIFORM_SIZE),
        texture_entry(1, compute_stage(), SampleType::UnfilterableFloat, ViewDimension::D2),
        texture_entry(2, compute_stage(), SampleType::UnfilterableFloat, ViewDimension::D2),
        storage_texture_entry(3, TextureFormat::R32Float, ViewDimension::D2),
    ]
}

pub open spec fn blur_entries() -> Seq<LayoutEntry> {
    seq![
        uniform_entry(0, compute_stage(), SSAO_UNIFORM_SIZE),
        texture_entry(1, compute_stage(), SampleType::UnfilterableFloat, ViewDimension::D2),
        texture_entry(2, compute_stage(), SampleType::UnfilterableFloat, ViewDimension::D2),
        texture_entry(3, compute_stage(), SampleType::UnfilterableFloat, ViewDimension::D2),
        storage_texture_entry(4, TextureFormat::R32Float, ViewDimension::D2),
    ]
}

/// Uniforms, normals, depth, the raw occlusion, and the blurred one to write.
pub fn blur_layout() -> (entries: Vec<LayoutEntry>)
    ensures
        entries@ == blur_entries(),
{
    vec![
        uniform_entry(0, compute_stage(), SSAO_UNIFORM_SIZE),
        texture_entry(1, compute_stage(), SampleType::UnfilterableFloat, ViewDimension::D2),
        texture_entry(2, compute_stage(), SampleType::UnfilterableFloat, ViewDimension::D2),
        texture_entry(3, compute_stage(), SampleType::UnfilterableFloat, ViewDimension::D2),
        storage_texture_entry(4, TextureFormat::R32Float, ViewDimension::D2),
    ]
}

/// Occlusion is found for every pixel.
pub open spec fn sample_step(normal: TexView, depth: TexView, w: u32, h: u32) -> Step {
    dispatch_step(
        Pipeline::SsaoSample,
        bound(
            Layout::SsaoSample,
            seq![
                bind_buffer(0, Buffer::SsaoUniforms),
                bind_view(1, normal),
                bind_view(2, depth),
                bind_view(3, TexView::SsaoRaw),
            ],
        ),
        groups_for(w, 8),
        groups_for(h, 8),
        1,
    )
}

fn sample_command(normal: TexView, depth: TexView, w: u32, h: u32) -> (c: Command)
    ensures
        c@ == sample_step(normal, depth, w, h),
{
    let c = dispatch(
        Pipeline::SsaoSample,
        group(
            Layout::SsaoSample,
            vec![
                bind_buffer(0, Buffer::SsaoUniforms),
                bind_view(1, normal),
                bind_view(2, depth),
                bind_view(3, TexView::SsaoRaw),
            ],
        ),
        groups_for(w, 8),
        groups_for(h, 8),
        1,
    );
    assert(c@ =~~= sample_step(normal, depth, w, h));
    c
}

/// It is smoothed.
pub open spec fn blur_step(normal: TexView, depth: TexView, w: u32, h: u32) -> Step {
    dispatch_step(
        Pipeline::SsaoBlur,
        bound(
            Layout::SsaoBlur,
            seq![
                bind_buffer(0, Buffer::SsaoUniforms),
                bind_view(1, normal),
                bind_view(2, depth),
                bind_view(3, TexView::SsaoRaw),
                bind_view(4, TexView::SsaoBlurred),
            ],
        ),
        groups_for(w, 8),
        groups_for(h, 8),
        1,
    )
}

fn blur_command(normal: TexView, depth: TexView, w: u32, h: u32) -> (c: Command)
    ensures
        c@ == blur_step(normal, depth, w, h),
{
    let c = dispatch(
        Pipeline::SsaoBlur,
        group(
            Layout::SsaoBlur,
            vec![
                bind_buffer(0, Buffer::SsaoUniforms),
                bind_view(1, normal),
                bind_view(2, depth),
                bind_view(3, TexView::SsaoRaw),
                bind_view(4, TexView::SsaoBlurred),
            ],
        ),
        groups_for(w, 8),
        groups_for(h, 8),
        1,
    );
    assert(c@ =~~= blur_step(normal, depth, w, h));
    c
}

/// Screen-space ambient occlusion at the size of the screen.
#[derive(Clone, Copy, Debug, PartialEq, Eq, Structural)]
pub struct SsaoPass {
    pub width: u32,
    pub height: u32,
}

pub open spec fn ssao_textures(width: u32, height: u32) -> Seq<TextureDesc> {
    seq![
        storage_target(TexView::SsaoRaw, width, height, TextureFormat::R32Float),
        storage_target(TexView::SsaoBlurred, width, height, TextureFormat::R32Float),
    ]
}

impl SsaoPass {
    pub fn new(width: u32, height: u32) -> (pass: SsaoPass)
        ensures
            pass == (SsaoPass { width, height }),
    {
        SsaoPass { width, height }
    }

    /// The textures of the pass.
    pub fn textures(&self) -> (descs: Vec<TextureDesc>)
        ensures
            descs@ == ssao_textures(self.width, self.height),
    {
        let width: u32 = self.width;
        let height: u32 = self.height;
        vec![
            storage_target(TexView::SsaoRaw, width, height, TextureFormat::R32Float),
            storage_target(TexView::SsaoBlurred, width, height, TextureFormat::R32Float),
        ]
    }

    pub fn uniforms() -> (desc: BufferDesc)
        ensures
            desc == uniform_buffer(Buffer::SsaoUniforms, SSAO_UNIFORM_SIZE),
    {
        uniform_buffer(Buffer::SsaoUniforms, SSAO_UNIFORM_SIZE)
    }

    /// What a frame records.
    pub open spec fn frame_steps(self, normal: TexView, depth: TexView) -> Seq<Step> {
        seq![
            sample_step(normal, depth, self.width, self.height),
            blur_step(normal, depth, self.width, self.height),
        ]
    }

    /// Records the pass from world-space normals and depth.
    pub fn execute(&self, normal: TexView, depth: TexView) -> (commands: Vec<Command>)
        ensures
            steps(commands@) == self.frame_steps(normal, depth),
    {
        let commands = vec![
            sample_command(normal, depth, self.width, self.height),
            blur_command(normal, depth, self.width, self.height),
        ];
        assert(steps(commands@) =~= self.frame_steps(normal, depth));
        commands
    }

    /// The smoothed occlusion.
    pub fn ao_view(&self) -> (view: TexView)
        ensures
            view == TexView::SsaoBlurred,
    {
        TexView::SsaoBlurred
    }
}

/// Every command of the pass can be carried out. The depth may be a native depth buffer or its copy
/// as floats, but not the pass's own output.
pub proof fn ssao_commands_are_valid(pass: SsaoPass, normal: TexView, depth: TexView)
    requires
        is_color_source(normal),
        is_depth_source(depth) || depth == TexView::VisibilityDepthFloat,
    ensures
        all_valid(pass.frame_steps(normal, depth)),
{
    assert(valid(sample_step(normal, depth, pass.width, pass.height)));
    assert(valid(blur_step(normal, depth, pass.width, pass.height)));
}

/// The textures are created as their views need them.
pub proof fn ssao_textures_fit_their_views(width: u32, height: u32)
    ensures
        forall|i: int| 0 <= i < 2 ==> described(#[trigger] ssao_textures(width, height)[i]),
{
}

/// Occlusion is found from normals and depth, then smoothed along them, with a thread for every pixel.
pub proof fn ssao_smooths_what_it_finds(
    pass: SsaoPass,
    normal: TexView,
    depth: TexView,
)
    ensures
        ({
            let all = pass.frame_steps(normal, depth);
            &&& all.len() == 2
            &&& computes(
                all[0],
                Pipeline::SsaoSample,
                Layout::SsaoSample,
                seq![
                    Resource::Buffer(Buffer::SsaoUniforms),
                    Resource::View(normal),
                    Resource::View(depth),
                    Resource::View(TexView::SsaoRaw),
                ],
                pass.width as int,
                pass.height as int,
            )
            &&& computes(
                all[1],
                Pipeline::SsaoBlur,
                Layout::SsaoBlur,
                seq![
                    Resource::Buffer(Buffer::SsaoUniforms),
                    Resource::View(normal),
                    Resource::View(depth),
                    Resource::View(TexView::SsaoRaw),
                    Resource::View(TexView::SsaoBlurred),
                ],
                pass.width as int,
                pass.height as int,
            )
        }),
{
}

/// Occlusion is held for every pixel, before and after it is smoothed.
pub proof fn ssao_textures_cover_the_screen(width: u32, height: u32)
    ensures
        ssao_textures(width, height).len() == 2,
        has_texels(
            ssao_textures(width, height)[0],
            TexView::SsaoRaw,
            width as int,
            height as int,
            TextureFormat::R32Float,
        ),
        has_texels(
            ssao_textures(width, height)[1],
            TexView::SsaoBlurred,
            width as int,
            height as int,
            TextureFormat::R32Float,
        ),
{
}

} // verus!
