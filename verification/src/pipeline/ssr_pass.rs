//! Screen-space reflections.

use vstd::prelude::*;

use crate::pipeline::gpu::{
    bind_buffer, bind_view, bound, compute_fragment_stages, compute_stage, computes, dispatch,
    dispatch_step, fragment_stage, fullscreen, fullscreen_step, group, groups_for, has_texels,
    overlays, steps, storage_target, storage_texture_entry, texture_entry, uniform_buffer,
    uniform_entry, Buffer, BufferDesc, Command, Layout, LayoutEntry, Load, Pipeline, Resource,
    SampleType, Step, TexView, TextureDesc, TextureFormat, ViewDimension,
};
use crate::pipeline::validity::{
    all_valid, described, is_color_source, is_color_target, is_depth_source, valid,
};

verus! {

/// Four matrices and three vectors.
pub const SSR_UNIFORM_SIZE: u64 = 304;

pub open spec fn trace_entries() -> Seq<LayoutEntry> {
    seq![
        uniform_entry(0, compute_stage(), SSR_UNIFORM_SIZE),
        texture_entry(
            1,
            compute_fragment_stages(),
            SampleType::UnfilterableFloat,
            ViewDimension::D2,
        ),
        texture_entry(2, compute_stage(), SampleType::Depth, ViewDimension::D2),
        texture_entry(
            3,
            compute_fragment_stages(),
            SampleType::UnfilterableFloat,
            ViewDimension::D2,
        ),
        texture_entry(
            4,
            compute_fragment_stages(),
            SampleType::UnfilterableFloat,
            ViewDimension::D2,
        ),
        storage_texture_entry(5, TextureFormat::Rgba16Float, ViewDimension::D2),
    ]
}

/// Uniforms, normals, depth, the scene's colour, the depth pyramid, and the reflections to write.
pub fn trace_layout() -> (entries: Vec<LayoutEntry>)
    ensures
        entries@ == trace_entries(),
{
    vec![
        uniform_entry(0, compute_stage(), SSR_UNIFORM_SIZE),
        texture_entry(
            1,
            compute_fragment_stages(),
            SampleType::UnfilterableFloat,
            ViewDimension::D2,
        ),
        texture_entry(2, compute_stage(), SampleType::Depth, ViewDimension::D2),
        texture_entry(
            3,
            compute_fragment_stages(),
            SampleType::UnfilterableFloat,
            ViewDimension::D2,
        ),
        texture_entry(
            4,
            compute_fragment_stages(),
            SampleType::UnfilterableFloat,
            ViewDimension::D2,
        ),
        storage_texture_entry(5, TextureFormat::Rgba16Float, ViewDimension::D2),
    ]
}

pub open spec fn composite_entries() -> Seq<LayoutEntry> {
    seq![
        texture_entry(0, fragment_stage(), SampleType::UnfilterableFloat, ViewDimension::D2),
    ]
}

/// The reflections.
pub fn composite_layout() -> (entries: Vec<LayoutEntry>)
    ensures
        entries@ == composite_entries(),
{
    vec![
        texture_entry(0, fragment_stage(), SampleType::UnfilterableFloat, ViewDimension::D2),
    ]
}

/// Reflected rays are traced through the depth buffer.
pub open spec fn trace_step(
    normal: TexView,
    depth: TexView,
    color: TexView,
    hzb: TexView,
    w: u32,
    h: u32,
) -> Step {
    dispatch_step(
        Pipeline::SsrTrace,
        bound(
            Layout::SsrTrace,
            seq![
                bind_buffer(0, Buffer::SsrUniforms),
                bind_view(1, normal),
                bind_view(2, depth),
                bind_view(3, color),
                bind_view(4, hzb),
                bind_view(5, TexView::SsrReflection),
            ],
        ),
        groups_for(w, 8),
        groups_for(h, 8),
        1,
    )
}

fn trace_command(
    normal: TexView,
    depth: TexView,
    color: TexView,
    hzb: TexView,
    w: u32,
    h: u32,
) -> (c: Command)
    ensures
        c@ == trace_step(normal, depth, color, hzb, w, h),
{
    let c = dispatch(
        Pipeline::SsrTrace,
        group(
            Layout::SsrTrace,
            vec![
                bind_buffer(0, Buffer::SsrUniforms),
                bind_view(1, normal),
                bind_view(2, depth),
                bind_view(3, color),
                bind_view(4, hzb),
                bind_view(5, TexView::SsrReflection),
            ],
        ),
        groups_for(w, 8),
        groups_for(h, 8),
        1,
    );
    assert(c@ =~~= trace_step(normal, depth, color, hzb, w, h));
    c
}

/// The reflections are added to the scene.
pub open spec fn composite_step(color: TexView) -> Step {
    fullscreen_step(
        Pipeline::SsrComposite,
        bound(
            Layout::SsrComposite,
            seq![
                bind_view(0, TexView::SsrReflection),
            ],
        ),
        color,
        Load::Keep,
    )
}

fn composite_command(color: TexView) -> (c: Command)
    ensures
        c@ == composite_step(color),
{
    let c = fullscreen(
        Pipeline::SsrComposite,
        group(
            Layout::SsrComposite,
            vec![
                bind_view(0, TexView::SsrReflection),
            ],
        ),
        color,
        Load::Keep,
    );
    assert(c@ =~~= composite_step(color));
    c
}

/// Screen-space reflections at the size of the screen.
#[derive(Clone, Copy, Debug, PartialEq, Eq, Structural)]
pub struct SsrPass {
    pub width: u32,
    pub height: u32,
}

pub open spec fn ssr_textures(width: u32, height: u32) -> Seq<TextureDesc> {
    seq![
        storage_target(TexView::SsrReflection, width, height, TextureFormat::Rgba16Float),
    ]
}

impl SsrPass {
    pub fn new(width: u32, height: u32) -> (pass: SsrPass)
        ensures
            pass == (SsrPass { width, height }),
    {
        SsrPass { width, height }
    }

    /// Fits the pass to a screen; its textures are to be created anew.
    pub fn resize(&mut self, width: u32, height: u32)
        ensures
            *final(self) == (SsrPass { width, height }),
    {
        self.width = width;
        self.height = height;
    }

    /// The textures of the pass at its present size.
    pub fn textures(&self) -> (descs: Vec<TextureDesc>)
        ensures
            descs@ == ssr_textures(self.width, self.height),
    {
        let width: u32 = self.width;
        let height: u32 = self.height;
        vec![
            storage_target(TexView::SsrReflection, width, height, TextureFormat::Rgba16Float),
        ]
    }

    pub fn uniforms() -> (desc: BufferDesc)
        ensures
            desc == uniform_buffer(Buffer::SsrUniforms, SSR_UNIFORM_SIZE),
    {
        uniform_buffer(Buffer::SsrUniforms, SSR_UNIFORM_SIZE)
    }

    /// What a frame records.
    pub open spec fn frame_steps(
        self,
        normal: TexView,
        depth: TexView,
        color: TexView,
        hzb: TexView,
    ) -> Seq<Step> {
        seq![
            trace_step(normal, depth, color, hzb, self.width, self.height),
            composite_step(color),
        ]
    }

    /// Records the pass. Reflections are found in `color` and added to it.
    pub fn execute(
        &self,
        normal: TexView,
        depth: TexView,
        color: TexView,
        hzb: TexView,
    ) -> (commands: Vec<Command>)
        ensures
            steps(commands@) == self.frame_steps(normal, depth, color, hzb),
    {
        let commands = vec![
            trace_command(normal, depth, color, hzb, self.width, self.height),
            composite_command(color),
        ];
        assert(steps(commands@) =~= self.frame_steps(normal, depth, color, hzb));
        commands
    }
}

/// Every command of the pass can be carried out.
pub proof fn ssr_commands_are_valid(
    pass: SsrPass,
    normal: TexView,
    depth: TexView,
    color: TexView,
    hzb: TexView,
)
    requires
        is_color_source(normal),
        normal != TexView::SsrReflection,
        is_depth_source(depth),
        is_color_source(color),
        is_color_target(color),
        hzb is HzbFull || hzb is Hzb,
    ensures
        all_valid(pass.frame_steps(normal, depth, color, hzb)),
{
    assert(valid(trace_step(normal, depth, color, hzb, pass.width, pass.height)));
    assert(valid(composite_step(color)));
}

/// The texture is created as its view needs it.
pub proof fn ssr_textures_fit_their_views(width: u32, height: u32)
    ensures
        described(ssr_textures(width, height)[0]),
{
}

/// Reflections are traced through the colour along the depth pyramid, and added to the colour.
pub proof fn ssr_adds_what_it_traces(
    pass: SsrPass,
    normal: TexView,
    depth: TexView,
    color: TexView,
    hzb: TexView,
)
    ensures
        ({
            let all = pass.frame_steps(normal, depth, color, hzb);
            &&& all.len() == 2
            &&& computes(
                all[0],
                Pipeline::SsrTrace,
                Layout::SsrTrace,
                seq![
                    Resource::Buffer(Buffer::SsrUniforms),
                    Resource::View(normal),
                    Resource::View(depth),
                    Resource::View(color),
                    Resource::View(hzb),
                    Resource::View(TexView::SsrReflection),
                ],
                pass.width as int,
                pass.height as int,
            )
            &&& overlays(
                all[1],
                Pipeline::SsrComposite,
                Layout::SsrComposite,
                seq![
                    Resource::View(TexView::SsrReflection),
                ],
                color,
                Load::Keep,
            )
        }),
{
}

/// Reflections are held for every pixel.
pub proof fn ssr_texture_covers_the_screen(width: u32, height: u32)
    ensures
        ssr_textures(width, height).len() == 1,
        has_texels(
            ssr_textures(width, height)[0],
            TexView::SsrReflection,
            width as int,
            height as int,
            TextureFormat::Rgba16Float,
        ),
{
}

} // verus!
