//! Ground-truth ambient occlusion with bent normals.

use vstd::prelude::*;

use crate::pipeline::gpu::{
    bind_buffer, bind_view, bound, compute_stage, computes, dispatch, dispatch_step, group,
    groups_for, has_texels, steps, storage_target, storage_texture_entry, texture_entry,
    uniform_buffer, uniform_entry, Buffer, BufferDesc, Command, Layout, LayoutEntry, Pipeline,
    Resource, SampleType, Step, TexView, TextureDesc, TextureFormat, ViewDimension,
};
use crate::pipeline::validity::{all_valid, described, is_color_source, is_depth_source, valid};

verus! {

/// Three matrices and two vectors.
pub const GTAO_UNIFORM_SIZE: u64 = 224;

pub open spec fn sample_entries() -> Seq<LayoutEntry> {
    seq![
        uniform_entry(0, compute_stage(), GTAO_UNIFORM_SIZE),
        texture_entry(1, compute_stage(), SampleType::UnfilterableFloat, ViewDimension::D2),
        texture_entry(2, compute_stage(), SampleType::Depth, ViewDimension::D2),
        storage_texture_entry(3, TextureFormat::R32Float, ViewDimension::D2),
        storage_texture_entry(4, TextureFormat::Rgba16Float, ViewDimension::D2),
    ]
}

/// Uniforms, normals, depth, and the occlusion and bent normals to write.
pub fn sample_layout() -> (entries: Vec<LayoutEntry>)
    ensures
        entries@ == sample_entries(),
{
    vec![
        uniform_entry(0, compute_stage(), GTAO_UNIFORM_SIZE),
        texture_entry(1, compute_stage(), SampleType::UnfilterableFloat, ViewDimension::D2),
        texture_entry(2, compute_stage(), SampleType::Depth, ViewDimension::D2),
        storage_texture_entry(3, TextureFormat::R32Float, ViewDimension::D2),
        storage_texture_entry(4, TextureFormat::Rgba16Float, ViewDimension::D2),
    ]
}

pub open spec fn blur_entries() -> Seq<LayoutEntry> {
    seq![
        uniform_entry(0, compute_stage(), GTAO_UNIFORM_SIZE),
        texture_entry(1, compute_stage(), SampleType::UnfilterableFloat, ViewDimension::D2),
        texture_entry(2, compute_stage(), SampleType::Depth, ViewDimension::D2),
        texture_entry(3, compute_stage(), SampleType::UnfilterableFloat, ViewDimension::D2),
        texture_entry(4, compute_stage(), SampleType::UnfilterableFloat, ViewDimension::D2),
        storage_texture_entry(5, TextureFormat::R32Float, ViewDimension::D2),
        storage_texture_entry(6, TextureFormat::Rgba16Float, ViewDimension::D2),
    ]
}

/// Uniforms, normals, depth, the raw results, and the blurred ones to write.
pub fn blur_layout() -> (entries: Vec<LayoutEntry>)
    ensures
        entries@ == blur_entries(),
{
    vec![
        uniform_entry(0, compute_stage(), GTAO_UNIFORM_SIZE),
        texture_entry(1, compute_stage(), SampleType::UnfilterableFloat, ViewDimension::D2),
        texture_entry(2, compute_stage(), SampleType::Depth, ViewDimension::D2),
        texture_entry(3, compute_stage(), SampleType::UnfilterableFloat, ViewDimension::D2),
        texture_entry(4, compute_stage(), SampleType::UnfilterableFloat, ViewDimension::D2),
        storage_texture_entry(5, TextureFormat::R32Float, ViewDimension::D2),
        storage_texture_entry(6, TextureFormat::Rgba16Float, ViewDimension::D2),
    ]
}

/// Occlusion and the least occluded direction are found for every pixel.
pub open spec fn sample_step(normal: TexView, depth: TexView, w: u32, h: u32) -> Step {
    dispatch_step(
        Pipeline::GtaoSample,
        bound(
            Layout::GtaoSample,
            seq![
                bind_buffer(0, Buffer::GtaoUniforms),
                bind_view(1, normal),
                bind_view(2, depth),
                bind_view(3, TexView::GtaoRaw),
                bind_view(4, TexView::GtaoBentRaw),
            ],
        ),
        groups_for(w, 8),
        groups_for(h, 8),
        1,
    )
}

fn sample_command(normal: TexView, depth: TexView, w: u32, h: u32) -> (c: Command)
    ensures
        c@ == sample_step(normal, depth, w, h),
{
    let c = dispatch(
        Pipeline::GtaoSample,
        group(
            Layout::GtaoSample,
            vec![
                bind_buffer(0, Buffer::GtaoUniforms),
                bind_view(1, normal),
                bind_view(2, depth),
                bind_view(3, TexView::GtaoRaw),
                bind_view(4, TexView::GtaoBentRaw),
            ],
        ),
        groups_for(w, 8),
        groups_for(h, 8),
        1,
    );
    assert(c@ =~~= sample_step(normal, depth, w, h));
    c
}

/// Both are smoothed.
pub open spec fn blur_step(normal: TexView, depth: TexView, w: u32, h: u32) -> Step {
    dispatch_step(
        Pipeline::GtaoBlur,
        bound(
            Layout::GtaoBlur,
            seq![
                bind_buffer(0, Buffer::GtaoUniforms),
                bind_view(1, normal),
                bind_view(2, depth),
                bind_view(3, TexView::GtaoRaw),
                bind_view(4, TexView::GtaoBentRaw),
                bind_view(5, TexView::GtaoBlurred),
                bind_view(6, TexView::GtaoBentBlurred),
            ],
        ),
        groups_for(w, 8),
        groups_for(h, 8),
        1,
    )
}

fn blur_command(normal: TexView, depth: TexView, w: u32, h: u32) -> (c: Command)
    ensures
        c@ == blur_step(normal, depth, w, h),
{
    let c = dispatch(
        Pipeline::GtaoBlur,
        group(
            Layout::GtaoBlur,
            vec![
                bind_buffer(0, Buffer::GtaoUniforms),
                bind_view(1, normal),
                bind_view(2, depth),
                bind_view(3, TexView::GtaoRaw),
                bind_view(4, TexView::GtaoBentRaw),
                bind_view(5, TexView::GtaoBlurred),
                bind_view(6, TexView::GtaoBentBlurred),
            ],
        ),
        groups_for(w, 8),
        groups_for(h, 8),
        1,
    );
    assert(c@ =~~= blur_step(normal, depth, w, h));
    c
}

/// Ground-truth ambient occlusion at the size of the screen.
#[derive(Clone, Copy, Debug, PartialEq, Eq, Structural)]
pub struct GtaoPass {
    pub width: u32,
    pub height: u32,
}

pub open spec fn gtao_textures(width: u32, height: u32) -> Seq<TextureDesc> {
    seq![
        storage_target(TexView::GtaoRaw, width, height, TextureFormat::R32Float),
        storage_target(TexView::GtaoBlurred, width, height, TextureFormat::R32Float),
        storage_target(TexView::GtaoBentRaw, width, height, TextureFormat::Rgba16Float),
        storage_target(TexView::GtaoBentBlurred, width, height, TextureFormat::Rgba16Float),
    ]
}

impl GtaoPass {
    pub fn new(width: u32, height: u32) -> (pass: GtaoPass)
        ensures
            pass == (GtaoPass { width, height }),
    {
        GtaoPass { width, height }
    }

    /// Fits the pass to a screen; its textures are to be created anew.
    pub fn resize(&mut self, width: u32, height: u32)
        ensures
            *final(self) == (GtaoPass { width, height }),
    {
        self.width = width;
        self.height = height;
    }

    /// The textures of the pass at its present size.
    pub fn textures(&self) -> (descs: Vec<TextureDesc>)
        ensures
            descs@ == gtao_textures(self.width, self.height),
    {
        let width: u32 = self.width;
        let height: u32 = self.height;
        vec![
            storage_target(TexView::GtaoRaw, width, height, TextureFormat::R32Float),
            storage_target(TexView::GtaoBlurred, width, height, TextureFormat::R32Float),
            storage_target(TexView::GtaoBentRaw, width, height, TextureFormat::Rgba16Float),
            storage_target(TexView::GtaoBentBlurred, width, height, TextureFormat::Rgba16Float),
        ]
    }

    pub fn uniforms() -> (desc: BufferDesc)
        ensures
            desc == uniform_buffer(Buffer::GtaoUniforms, GTAO_UNIFORM_SIZE),
    {
        uniform_buffer(Buffer::GtaoUniforms, GTAO_UNIFORM_SIZE)
    }

    /// What a frame records.
    pub open spec fn frame_steps(self, normal: TexView, depth: TexView) -> Seq<Step> {
        seq![
            sample_step(normal, depth, self.width, self.height),
            blur_step(normal, depth, self.width, self.height),
        ]
    }

    /// Records the pass from world-space normals and depth.
    pub fn execute(&self, normal: TexView, depth: TexView) -> (commands: Vec<Command>)
        ensures
            steps(commands@) == self.frame_steps(normal, depth),
    {
        let commands = vec![
            sample_command(normal, depth, self.width, self.height),
            blur_command(normal, depth, self.width, self.height),
        ];
        assert(steps(commands@) =~= self.frame_steps(normal, depth));
        commands
    }

    /// The smoothed occlusion.
    pub fn ao_view(&self) -> (view: TexView)
        ensures
            view == TexView::GtaoBlurred,
    {
        TexView::GtaoBlurred
    }

    /// The smoothed bent normals.
    pub fn bent_normal_view(&self) -> (view: TexView)
        ensures
            view == TexView::GtaoBentBlurred,
    {
        TexView::GtaoBentBlurred
    }
}

/// Every command of the pass can be carried out, for normals that the pass does not write itself.
pub proof fn gtao_commands_are_valid(pass: GtaoPass, normal: TexView, depth: TexView)
    requires
        is_color_source(normal),
        normal != TexView::GtaoBentRaw,
        normal != TexView::GtaoBentBlurred,
        is_depth_source(depth),
    ensures
        all_valid(pass.frame_steps(normal, depth)),
{
    assert(valid(sample_step(normal, depth, pass.width, pass.height)));
    assert(valid(blur_step(normal, depth, pass.width, pass.height)));
}

/// The textures are created as their views need them.
pub proof fn gtao_textures_fit_their_views(width: u32, height: u32)
    ensures
        forall|i: int| 0 <= i < 4 ==> described(#[trigger] gtao_textures(width, height)[i]),
{
}

/// Occlusion and bent normals are found from normals and depth, then both are smoothed.
pub proof fn gtao_smooths_what_it_finds(
    pass: GtaoPass,
    normal: TexView,
    depth: TexView,
)
    ensures
        ({
            let all = pass.frame_steps(normal, depth);
            &&& all.len() == 2
            &&& computes(
                all[0],
                Pipeline::GtaoSample,
                Layout::GtaoSample,
                seq![
                    Resource::Buffer(Buffer::GtaoUniforms),
                    Resource::View(normal),
                    Resource::View(depth),
                    Resource::View(TexView::GtaoRaw),
                    Resource::View(TexView::GtaoBentRaw),
                ],
                pass.width as int,
                pass.height as int,
            )
            &&& computes(
                all[1],
                Pipeline::GtaoBlur,
                Layout::GtaoBlur,
                seq![
                    Resource::Buffer(Buffer::GtaoUniforms),
                    Resource::View(normal),
                    Resource::View(depth),
                    Resource::View(TexView::GtaoRaw),
                    Resource::View(TexView::GtaoBentRaw),
                    Resource::View(TexView::GtaoBlurred),
                    Resource::View(TexView::GtaoBentBlurred),
                ],
                pass.width as int,
                pass.height as int,
            )
        }),
{
}

/// Occlusion and bent normals are held for every pixel, before and after they are smoothed.
pub proof fn gtao_textures_cover_the_screen(width: u32, height: u32)
    ensures
        gtao_textures(width, height).len() == 4,
        has_texels(
            gtao_textures(width, height)[0],
            TexView::GtaoRaw,
            width as int,
            height as int,
            TextureFormat::R32Float,
        ),
        has_texels(
            gtao_textures(width, height)[1],
            TexView::GtaoBlurred,
            width as int,
            height as int,
            TextureFormat::R32Float,
        ),
        has_texels(
            gtao_textures(width, height)[2],
            TexView::GtaoBentRaw,
            width as int,
            height as int,
            TextureFormat::Rgba16Float,
        ),
        has_texels(
            gtao_textures(width, height)[3],
            TexView::GtaoBentBlurred,
            width as int,
            height as int,
            TextureFormat::Rgba16Float,
        ),
{
}

} // verus!
