//! Screen-space global illumination.

use vstd::prelude::*;

use crate::pipeline::gpu::{
    bind_buffer, bind_view, bound, compute_fragment_stages, compute_stage, computes, dispatch,
    dispatch_step, fullscreen, fullscreen_step, group, groups_for, has_texels, overlays, steps,
    storage_target, storage_texture_entry, texture_entry, uniform_buffer, uniform_entry, Buffer,
    BufferDesc, Command, Layout, LayoutEntry, Load, Pipeline, Resource, SampleType, Step, TexView,
    TextureDesc, TextureFormat, ViewDimension,
};
use crate::pipeline::validity::{
    all_valid, described, is_color_source, is_color_target, is_depth_source, valid,
};

verus! {

/// Four matrices and two vectors.
pub const SSGI_UNIFORM_SIZE: u64 = 288;

pub open spec fn sample_entries() -> Seq<LayoutEntry> {
    seq![
        uniform_entry(0, compute_stage(), SSGI_UNIFORM_SIZE),
        texture_entry(
            1,
            compute_fragment_stages(),
            SampleType::UnfilterableFloat,
            ViewDimension::D2,
        ),
        texture_entry(2, compute_fragment_stages(), SampleType::Depth, ViewDimension::D2),
        texture_entry(
            3,
            compute_fragment_stages(),
            SampleType::UnfilterableFloat,
            ViewDimension::D2,
        ),
        storage_texture_entry(4, TextureFormat::Rgba16Float, ViewDimension::D2),
    ]
}

/// Uniforms, normals, depth, the scene's colour, and the light to write.
pub fn sample_layout() -> (entries: Vec<LayoutEntry>)
    ensures
        entries@ == sample_entries(),
{
    vec![
        uniform_entry(0, compute_stage(), SSGI_UNIFORM_SIZE),
        texture_entry(
            1,
            compute_fragment_stages(),
            SampleType::UnfilterableFloat,
            ViewDimension::D2,
        ),
        texture_entry(2, compute_fragment_stages(), SampleType::Depth, ViewDimension::D2),
        texture_entry(
            3,
            compute_fragment_stages(),
            SampleType::UnfilterableFloat,
            ViewDimension::D2,
        ),
        storage_texture_entry(4, TextureFormat::Rgba16Float, ViewDimension::D2),
    ]
}

pub open spec fn blur_entries() -> Seq<LayoutEntry> {
    sample_entries()
}

/// As for sampling, with the raw light in place of the scene's colour.
pub fn blur_layout() -> (entries: Vec<LayoutEntry>)
    ensures
        entries@ == blur_entries(),
{
    sample_layout()
}

pub open spec fn composite_entries() -> Seq<LayoutEntry> {
    seq![
        texture_entry(
            0,
            compute_fragment_stages(),
            SampleType::UnfilterableFloat,
            ViewDimension::D2,
        ),
    ]
}

/// The smoothed light.
pub fn composite_layout() -> (entries: Vec<LayoutEntry>)
    ensures
        entries@ == composite_entries(),
{
    vec![
        texture_entry(
            0,
            compute_fragment_stages(),
            SampleType::UnfilterableFloat,
            ViewDimension::D2,
        ),
    ]
}

/// Light that bounces between visible surfaces is gathered.
pub open spec fn sample_step(
    normal: TexView,
    depth: TexView,
    color: TexView,
    w: u32,
    h: u32,
) -> Step {
    dispatch_step(
        Pipeline::SsgiSample,
        bound(
            Layout::SsgiSample,
            seq![
                bind_buffer(0, Buffer::SsgiUniforms),
                bind_view(1, normal),
                bind_view(2, depth),
                bind_view(3, color),
                bind_view(4, TexView::SsgiRaw),
            ],
        ),
        groups_for(w, 8),
        groups_for(h, 8),
        1,
    )
}

fn sample_command(
    normal: TexView,
    depth: TexView,
    color: TexView,
    w: u32,
    h: u32,
) -> (c: Command)
    ensures
        c@ == sample_step(normal, depth, color, w, h),
{
    let c = dispatch(
        Pipeline::SsgiSample,
        group(
            Layout::SsgiSample,
            vec![
                bind_buffer(0, Buffer::SsgiUniforms),
                bind_view(1, normal),
                bind_view(2, depth),
                bind_view(3, color),
                bind_view(4, TexView::SsgiRaw),
            ],
        ),
        groups_for(w, 8),
        groups_for(h, 8),
        1,
    );
    assert(c@ =~~= sample_step(normal, depth, color, w, h));
    c
}

/// It is smoothed.
pub open spec fn blur_step(normal: TexView, depth: TexView, w: u32, h: u32) -> Step {
    dispatch_step(
        Pipeline::SsgiBlur,
        bound(
            Layout::SsgiBlur,
            seq![
                bind_buffer(0, Buffer::SsgiUniforms),
                bind_view(1, normal),
                bind_view(2, depth),
                bind_view(3, TexView::SsgiRaw),
                bind_view(4, TexView::SsgiBlurred),
            ],
        ),
        groups_for(w, 8),
        groups_for(h, 8),
        1,
    )
}

fn blur_command(normal: TexView, depth: TexView, w: u32, h: u32) -> (c: Command)
    ensures
        c@ == blur_step(normal, depth, w, h),
{
    let c = dispatch(
        Pipeline::SsgiBlur,
        group(
            Layout::SsgiBlur,
            vec![
                bind_buffer(0, Buffer::SsgiUniforms),
                bind_view(1, normal),
                bind_view(2, depth),
                bind_view(3, TexView::SsgiRaw),
                bind_view(4, TexView::SsgiBlurred),
            ],
        ),
        groups_for(w, 8),
        groups_for(h, 8),
        1,
    );
    assert(c@ =~~= blur_step(normal, depth, w, h));
    c
}

/// It is added to the scene.
pub open spec fn composite_step(color: TexView) -> Step {
    fullscreen_step(
        Pipeline::SsgiComposite,
        bound(
            Layout::SsgiComposite,
            seq![
                bind_view(0, TexView::SsgiBlurred),
            ],
        ),
        color,
        Load::Keep,
    )
}

fn composite_command(color: TexView) -> (c: Command)
    ensures
        c@ == composite_step(color),
{
    let c = fullscreen(
        Pipeline::SsgiComposite,
        group(
            Layout::SsgiComposite,
            vec![
                bind_view(0, TexView::SsgiBlurred),
            ],
        ),
        color,
        Load::Keep,
    );
    assert(c@ =~~= composite_step(color));
    c
}

/// Screen-space global illumination at the size of the screen.
#[derive(Clone, Copy, Debug, PartialEq, Eq, Structural)]
pub struct SsgiPass {
    pub width: u32,
    pub height: u32,
}

pub open spec fn ssgi_textures(width: u32, height: u32) -> Seq<TextureDesc> {
    seq![
        storage_target(TexView::SsgiRaw, width, height, TextureFormat::Rgba16Float),
        storage_target(TexView::SsgiBlurred, width, height, TextureFormat::Rgba16Float),
    ]
}

impl SsgiPass {
    pub fn new(width: u32, height: u32) -> (pass: SsgiPass)
        ensures
            pass == (SsgiPass { width, height }),
    {
        SsgiPass { width, height }
    }

    /// Fits the pass to a screen; its textures are to be created anew.
    pub fn resize(&mut self, width: u32, height: u32)
        ensures
            *final(self) == (SsgiPass { width, height }),
    {
        self.width = width;
        self.height = height;
    }

    /// The textures of the pass at its present size.
    pub fn textures(&self) -> (descs: Vec<TextureDesc>)
        ensures
            descs@ == ssgi_textures(self.width, self.height),
    {
        let width: u32 = self.width;
        let height: u32 = self.height;
        vec![
            storage_target(TexView::SsgiRaw, width, height, TextureFormat::Rgba16Float),
            storage_target(TexView::SsgiBlurred, width, height, TextureFormat::Rgba16Float),
        ]
    }

    pub fn uniforms() -> (desc: BufferDesc)
        ensures
            desc == uniform_buffer(Buffer::SsgiUniforms, SSGI_UNIFORM_SIZE),
    {
        uniform_buffer(Buffer::SsgiUniforms, SSGI_UNIFORM_SIZE)
    }

    /// What a frame records.
    pub open spec fn frame_steps(
        self,
        normal: TexView,
        depth: TexView,
        color: TexView,
    ) -> Seq<Step> {
        seq![
            sample_step(normal, depth, color, self.width, self.height),
            blur_step(normal, depth, self.width, self.height),
            composite_step(color),
        ]
    }

    /// Records the pass. The light is gathered from `color` and added to it.
    pub fn execute(&self, normal: TexView, depth: TexView, color: TexView) -> (commands:
        Vec<Command>)
        ensures
            steps(commands@) == self.frame_steps(normal, depth, color),
    {
        let commands = vec![
            sample_command(normal, depth, color, self.width, self.height),
            blur_command(normal, depth, self.width, self.height),
            composite_command(color),
        ];
        assert(steps(commands@) =~= self.frame_steps(normal, depth, color));
        commands
    }
}

/// Every command of the pass can be carried out.
pub proof fn ssgi_commands_are_valid(
    pass: SsgiPass,
    normal: TexView,
    depth: TexView,
    color: TexView,
)
    requires
        is_color_source(normal),
        normal != TexView::SsgiRaw,
        normal != TexView::SsgiBlurred,
        is_depth_source(depth),
        is_color_source(color),
        is_color_target(color),
    ensures
        all_valid(pass.frame_steps(normal, depth, color)),
{
    assert(valid(sample_step(normal, depth, color, pass.width, pass.height)));
    assert(valid(blur_step(normal, depth, pass.width, pass.height)));
    assert(valid(composite_step(color)));
}

/// The textures are created as their views need them.
pub proof fn ssgi_textures_fit_their_views(width: u32, height: u32)
    ensures
        forall|i: int| 0 <= i < 2 ==> described(#[trigger] ssgi_textures(width, height)[i]),
{
}

/// Light is gathered from the colour, smoothed, and added to the colour.
pub proof fn ssgi_adds_what_it_gathers(
    pass: SsgiPass,
    normal: TexView,
    depth: TexView,
    color: TexView,
)
    ensures
        ({
            let all = pass.frame_steps(normal, depth, color);
            &&& all.len() == 3
            &&& computes(
                all[0],
                Pipeline::SsgiSample,
                Layout::SsgiSample,
                seq![
                    Resource::Buffer(Buffer::SsgiUniforms),
                    Resource::View(normal),
                    Resource::View(depth),
                    Resource::View(color),
                    Resource::View(TexView::SsgiRaw),
                ],
                pass.width as int,
                pass.height as int,
            )
            &&& computes(
                all[1],
                Pipeline::SsgiBlur,
                Layout::SsgiBlur,
                seq![
                    Resource::Buffer(Buffer::SsgiUniforms),
                    Resource::View(normal),
                    Resource::View(depth),
                    Resource::View(TexView::SsgiRaw),
                    Resource::View(TexView::SsgiBlurred),
                ],
                pass.width as int,
                pass.height as int,
            )
            &&& overlays(
                all[2],
                Pipeline::SsgiComposite,
                Layout::SsgiComposite,
                seq![
                    Resource::View(TexView::SsgiBlurred),
                ],
                color,
                Load::Keep,
            )
        }),
{
}

/// Light is held for every pixel, before and after it is smoothed.
pub proof fn ssgi_textures_cover_the_screen(width: u32, height: u32)
    ensures
        ssgi_textures(width, height).len() == 2,
        has_texels(
            ssgi_textures(width, height)[0],
            TexView::SsgiRaw,
            width as int,
            height as int,
            TextureFormat::Rgba16Float,
        ),
        has_texels(
            ssgi_textures(width, height)[1],
            TexView::SsgiBlurred,
            width as int,
            height as int,
            TextureFormat::Rgba16Float,
        ),
{
}

} // verus!
