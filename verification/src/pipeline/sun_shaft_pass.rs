//! Shafts of sunlight: drawn at half size where the sun is unobstructed, and added to the scene.

use vstd::prelude::*;

use crate::pipeline::gpu::{
    at_least_one, bind_buffer, bind_sampler, bind_view, bound, fragment_stage, fullscreen,
    fullscreen_step, group, overlays, sampler_entry, steps, texture_entry, uniform_buffer,
    uniform_entry, Buffer, BufferDesc, Command, Layout, LayoutEntry, Load, Pipeline, Resource,
    SampleType, Sampler, SamplerDesc, SamplerKind, Step, TexView, TextureDesc, TextureDimension,
    TextureFormat, TextureUsages, ViewDimension,
};
use crate::pipeline::validity::{all_valid, described, is_color_target, is_depth_source, valid};
use crate::scalar::{zero, Scalar};

verus! {

/// Four vectors.
pub const SUN_SHAFT_UNIFORM_SIZE: u64 = 64;

pub open spec fn occlusion_entries() -> Seq<LayoutEntry> {
    seq![
        uniform_entry(0, fragment_stage(), SUN_SHAFT_UNIFORM_SIZE),
        texture_entry(1, fragment_stage(), SampleType::UnfilterableFloat, ViewDimension::D2),
    ]
}

/// Uniforms and depth.
pub fn occlusion_layout() -> (entries: Vec<LayoutEntry>)
    ensures
        entries@ == occlusion_entries(),
{
    vec![
        uniform_entry(0, fragment_stage(), SUN_SHAFT_UNIFORM_SIZE),
        texture_entry(1, fragment_stage(), SampleType::UnfilterableFloat, ViewDimension::D2),
    ]
}

pub open spec fn composite_entries() -> Seq<LayoutEntry> {
    seq![
        uniform_entry(0, fragment_stage(), SUN_SHAFT_UNIFORM_SIZE),
        texture_entry(1, fragment_stage(), SampleType::FilterableFloat, ViewDimension::D2),
        sampler_entry(2, fragment_stage(), SamplerKind::Filtering),
    ]
}

/// Uniforms, the shafts and a sampler.
pub fn composite_layout() -> (entries: Vec<LayoutEntry>)
    ensures
        entries@ == composite_entries(),
{
    vec![
        uniform_entry(0, fragment_stage(), SUN_SHAFT_UNIFORM_SIZE),
        texture_entry(1, fragment_stage(), SampleType::FilterableFloat, ViewDimension::D2),
        sampler_entry(2, fragment_stage(), SamplerKind::Filtering),
    ]
}

/// Where the sun shines past what is in front of it.
pub open spec fn occlusion_step(depth: TexView) -> Step {
    fullscreen_step(
        Pipeline::SunShaftOcclusion,
        bound(
            Layout::SunShaftOcclusion,
            seq![
                bind_buffer(0, Buffer::SunShaftUniforms),
                bind_view(1, depth),
            ],
        ),
        TexView::SunShaft,
        Load::Clear,
    )
}

fn occlusion_command(depth: TexView) -> (c: Command)
    ensures
        c@ == occlusion_step(depth),
{
    let c = fullscreen(
        Pipeline::SunShaftOcclusion,
        group(
            Layout::SunShaftOcclusion,
            vec![
                bind_buffer(0, Buffer::SunShaftUniforms),
                bind_view(1, depth),
            ],
        ),
        TexView::SunShaft,
        Load::Clear,
    );
    assert(c@ =~~= occlusion_step(depth));
    c
}

/// The shafts are added to the scene.
pub open spec fn composite_step(scene: TexView) -> Step {
    fullscreen_step(
        Pipeline::SunShaftComposite,
        bound(
            Layout::SunShaftComposite,
            seq![
                bind_buffer(0, Buffer::SunShaftUniforms),
                bind_view(1, TexView::SunShaft),
                bind_sampler(2, Sampler::SunShaft),
            ],
        ),
        scene,
        Load::Keep,
    )
}

fn composite_command(scene: TexView) -> (c: Command)
    ensures
        c@ == composite_step(scene),
{
    let c = fullscreen(
        Pipeline::SunShaftComposite,
        group(
            Layout::SunShaftComposite,
            vec![
                bind_buffer(0, Buffer::SunShaftUniforms),
                bind_view(1, TexView::SunShaft),
                bind_sampler(2, Sampler::SunShaft),
            ],
        ),
        scene,
        Load::Keep,
    );
    assert(c@ =~~= composite_step(scene));
    c
}

/// Shafts of sunlight at half the size of the screen.
#[derive(Clone, Copy, Debug, PartialEq, Eq, Structural)]
pub struct SunShaftPass {
    pub shaft_width: u32,
    pub shaft_height: u32,
}

/// Half a length, at least one.
#[verifier::allow_in_spec]
pub fn half_of(n: u32) -> u32
    returns
        at_least_one(at_least_one(n) / 2),
{
    at_least_one(at_least_one(n) / 2)
}

/// The texture of the shafts.
#[verifier::allow_in_spec]
pub fn shaft_target(width: u32, height: u32) -> TextureDesc
    returns
        (TextureDesc {
            view: TexView::SunShaft,
            width,
            height,
            layers: 1,
            mip_levels: 1,
            dimension: TextureDimension::D2,
            format: TextureFormat::Rgba8Unorm,
            usage: TextureUsages {
                copy_src: false,
                copy_dst: false,
                texture_binding: true,
                storage_binding: false,
                render_attachment: true,
            },
        }),
{
    TextureDesc {
        view: TexView::SunShaft,
        width,
        height,
        layers: 1,
        mip_levels: 1,
        dimension: TextureDimension::D2,
        format: TextureFormat::Rgba8Unorm,
        usage: TextureUsages {
            copy_src: false,
            copy_dst: false,
            texture_binding: true,
            storage_binding: false,
            render_attachment: true,
        },
    }
}

impl SunShaftPass {
    /// The pass for a screen of the given size.
    pub fn new_for_size(width: u32, height: u32) -> (pass: SunShaftPass)
        ensures
            pass == (SunShaftPass { shaft_width: half_of(width), shaft_height: half_of(height) }),
    {
        SunShaftPass { shaft_width: half_of(width), shaft_height: half_of(height) }
    }

    /// Fits the pass to a screen; its texture is to be created anew.
    pub fn resize(&mut self, width: u32, height: u32)
        ensures
            *final(self) == (SunShaftPass {
                shaft_width: half_of(width),
                shaft_height: half_of(height),
            }),
    {
        self.shaft_width = half_of(width);
        self.shaft_height = half_of(height);
    }

    /// The texture of the pass at its present size.
    pub fn texture(&self) -> (desc: TextureDesc)
        ensures
            desc == shaft_target(self.shaft_width, self.shaft_height),
    {
        shaft_target(self.shaft_width, self.shaft_height)
    }

    pub fn uniforms() -> (desc: BufferDesc)
        ensures
            desc == uniform_buffer(Buffer::SunShaftUniforms, SUN_SHAFT_UNIFORM_SIZE),
    {
        uniform_buffer(Buffer::SunShaftUniforms, SUN_SHAFT_UNIFORM_SIZE)
    }

    /// The sampler of the shafts.
    pub fn sampler() -> (desc: SamplerDesc)
        ensures
            desc == (SamplerDesc {
                sampler: Sampler::SunShaft,
                repeat_u: false,
                repeat_v: false,
                repeat_w: false,
                linear_between_levels: false,
                compare: false,
            }),
    {
        SamplerDesc {
            sampler: Sampler::SunShaft,
            repeat_u: false,
            repeat_v: false,
            repeat_w: false,
            linear_between_levels: false,
            compare: false,
        }
    }

    /// What a frame records.
    pub open spec fn frame_steps(self, depth: TexView, scene: TexView) -> Seq<Step> {
        seq![occlusion_step(depth), composite_step(scene)]
    }

    /// Records a frame: the shafts are drawn afresh and added to the scene.
    pub fn encode(&self, depth: TexView, scene_color: TexView) -> (commands: Vec<Command>)
        ensures
            steps(commands@) == self.frame_steps(depth, scene_color),
    {
        let commands = vec![occlusion_command(depth), composite_command(scene_color)];
        assert(steps(commands@) =~= self.frame_steps(depth, scene_color));
        commands
    }
}

/// Whether the sun counts as being on the screen: it is in front of the camera, and its position in
/// normalised device coordinates is at most 1.3 from the centre on both axes.
pub open spec fn sun_in_view(clip_w: Scalar, ndc_x: Scalar, ndc_y: Scalar) -> bool {
    let limit = Scalar { bits: 0x3FA6_6666 };
    let neg_limit = Scalar { bits: 0xBFA6_6666 };
    &&& zero().lt(clip_w)
    &&& at_most(neg_limit, ndc_x) && at_most(ndc_x, limit)
    &&& at_most(neg_limit, ndc_y) && at_most(ndc_y, limit)
}

/// `a <= b`, false where either is not a number.
pub open spec fn at_most(a: Scalar, b: Scalar) -> bool {
    a.lt(b) || a.eq_value(b)
}

/// Whether shafts are drawn for the sun at this place.
pub fn sun_on_screen(clip_w: Scalar, ndc_x: Scalar, ndc_y: Scalar) -> (r: bool)
    ensures
        r == sun_in_view(clip_w, ndc_x, ndc_y),
{
    let limit = Scalar::from_bits(0x3FA6_6666);
    let neg_limit = Scalar::from_bits(0xBFA6_6666);
    Scalar::from_bits(0).less(clip_w) && (neg_limit.less(ndc_x) || neg_limit.same(ndc_x)) && (
    ndc_x.less(limit) || ndc_x.same(limit)) && (neg_limit.less(ndc_y) || neg_limit.same(ndc_y)) && (
    ndc_y.less(limit) || ndc_y.same(limit))
}

/// Both commands can be carried out, for a native depth buffer or its copy as floats.
pub proof fn sun_shaft_commands_are_valid(pass: SunShaftPass, depth: TexView, scene: TexView)
    requires
        is_depth_source(depth) || depth == TexView::VisibilityDepthFloat,
        is_color_target(scene),
    ensures
        all_valid(pass.frame_steps(depth, scene)),
{
    assert(valid(occlusion_step(depth)));
    assert(valid(composite_step(scene)));
}

/// The texture is created as its view needs it, and is never empty.
pub proof fn shaft_texture_fits_its_view(width: u32, height: u32)
    ensures
        described(shaft_target(half_of(width), half_of(height))),
{
}

/// The shafts are drawn afresh where the depth lets the sun through, and added to the scene.
pub proof fn sun_shafts_are_added(pass: SunShaftPass, depth: TexView, scene: TexView)
    ensures
        ({
            let all = pass.frame_steps(depth, scene);
            &&& all.len() == 2
            &&& overlays(
                all[0],
                Pipeline::SunShaftOcclusion,
                Layout::SunShaftOcclusion,
                seq![
                    Resource::Buffer(Buffer::SunShaftUniforms),
                    Resource::View(depth),
                ],
                TexView::SunShaft,
                Load::Clear,
            )
            &&& overlays(
                all[1],
                Pipeline::SunShaftComposite,
                Layout::SunShaftComposite,
                seq![
                    Resource::Buffer(Buffer::SunShaftUniforms),
                    Resource::View(TexView::SunShaft),
                    Resource::Sampler(Sampler::SunShaft),
                ],
                scene,
                Load::Keep,
            )
        }),
{
}

/// The sun counts as seen exactly where it is in front of the camera and neither coordinate is more
/// than 1.3 from the centre; never where a coordinate is not a number.
pub proof fn sun_is_seen_near_the_screen(clip_w: Scalar, ndc_x: Scalar, ndc_y: Scalar)
    ensures
        ({
            let high = Scalar { bits: 0x3FA6_6666 };
            let low = Scalar { bits: 0xBFA6_6666 };
            sun_in_view(clip_w, ndc_x, ndc_y) <==> !ndc_x.is_nan() && !ndc_y.is_nan() && (Scalar {
                bits: 0,
            }).lt(clip_w) && !ndc_x.lt(low) && !high.lt(ndc_x) && !ndc_y.lt(low) && !high.lt(
                ndc_y,
            )
        }),
{
}

/// The shafts are drawn at half the size of the screen, and never at none.
pub proof fn shafts_have_half_the_size(width: u32, height: u32)
    ensures
        ({
            let t = shaft_target(half_of(width), half_of(height));
            &&& t.view == TexView::SunShaft
            &&& width >= 2 ==> t.width == width / 2
            &&& width < 2 ==> t.width == 1
            &&& height >= 2 ==> t.height == height / 2
            &&& height < 2 ==> t.height == 1
            &&& t.format == TextureFormat::Rgba8Unorm
            &&& t.usage.render_attachment && t.usage.texture_binding
        }),
{
}

} // verus!
