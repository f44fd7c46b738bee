//! Volumetric clouds at a fraction of the screen's resolution, blended with the frame before.

use vstd::prelude::*;

use crate::pipeline::gpu::{
    at_least_one, bind_buffer, bind_sampler, bind_view, bound, compute_stage, computes, dispatch,
    dispatch_step, fragment_stage, fullscreen, fullscreen_step, group, groups_for, has_texels,
    overlays, sampler_entry, steps, storage_and_sampled, storage_target, storage_texture_entry,
    texture_entry, uniform_buffer, uniform_entry, Buffer, BufferDesc, Command, Layout, LayoutEntry,
    Load, Pipeline, Resource, SampleType, Sampler, SamplerDesc, SamplerKind, Step, TexView,
    TextureDesc, TextureFormat, TextureUsages, ViewDimension,
};
use crate::pipeline::validity::{
    all_valid, described, is_color_source, is_color_target, is_depth_source, valid,
};
use crate::scalar::{identity_matrix, zero, Mat4, Scalar};
use crate::scene::settings::CloudResolution;

verus! {

/// The full size of the uniforms: two matrices and nine vectors.
pub const CLOUD_UNIFORM_SIZE: u64 = 272;

/// Indices of the timestamps around each of the three cloud passes.
#[derive(Clone, Copy, Debug)]
pub struct CloudTimingSlots {
    pub march: (u32, u32),
    pub temporal: (u32, u32),
    pub composite: (u32, u32),
}

pub open spec fn march_entries() -> Seq<LayoutEntry> {
    seq![
        uniform_entry(0, compute_stage(), 0),
        texture_entry(1, compute_stage(), SampleType::FilterableFloat, ViewDimension::D3),
        texture_entry(2, compute_stage(), SampleType::FilterableFloat, ViewDimension::D3),
        texture_entry(3, compute_stage(), SampleType::FilterableFloat, ViewDimension::D2),
        sampler_entry(4, compute_stage(), SamplerKind::Filtering),
        texture_entry(5, compute_stage(), SampleType::UnfilterableFloat, ViewDimension::D2),
        storage_texture_entry(6, TextureFormat::Rgba16Float, ViewDimension::D2),
        texture_entry(7, compute_stage(), SampleType::Depth, ViewDimension::D2),
        storage_texture_entry(8, TextureFormat::R32Float, ViewDimension::D2),
        texture_entry(9, compute_stage(), SampleType::FilterableFloat, ViewDimension::D2),
        sampler_entry(10, compute_stage(), SamplerKind::Filtering),
    ]
}

/// Uniforms, the noise, the history, the clouds to write, the scene's depth, the clouds' depth to
/// write, and the sky.
pub fn march_layout() -> (entries: Vec<LayoutEntry>)
    ensures
        entries@ == march_entries(),
{
    vec![
        uniform_entry(0, compute_stage(), 0),
        texture_entry(1, compute_stage(), SampleType::FilterableFloat, ViewDimension::D3),
        texture_entry(2, compute_stage(), SampleType::FilterableFloat, ViewDimension::D3),
        texture_entry(3, compute_stage(), SampleType::FilterableFloat, ViewDimension::D2),
        sampler_entry(4, compute_stage(), SamplerKind::Filtering),
        texture_entry(5, compute_stage(), SampleType::UnfilterableFloat, ViewDimension::D2),
        storage_texture_entry(6, TextureFormat::Rgba16Float, ViewDimension::D2),
        texture_entry(7, compute_stage(), SampleType::Depth, ViewDimension::D2),
        storage_texture_entry(8, TextureFormat::R32Float, ViewDimension::D2),
        texture_entry(9, compute_stage(), SampleType::FilterableFloat, ViewDimension::D2),
        sampler_entry(10, compute_stage(), SamplerKind::Filtering),
    ]
}

pub open spec fn temporal_entries() -> Seq<LayoutEntry> {
    seq![
        uniform_entry(0, compute_stage(), 0),
        texture_entry(1, compute_stage(), SampleType::UnfilterableFloat, ViewDimension::D2),
        texture_entry(2, compute_stage(), SampleType::FilterableFloat, ViewDimension::D2),
        storage_texture_entry(3, TextureFormat::Rgba16Float, ViewDimension::D2),
        texture_entry(4, compute_stage(), SampleType::UnfilterableFloat, ViewDimension::D2),
        sampler_entry(5, compute_stage(), SamplerKind::Filtering),
    ]
}

/// Uniforms, the raw clouds, the history, the clouds to write, their depth, and a sampler.
pub fn temporal_layout() -> (entries: Vec<LayoutEntry>)
    ensures
        entries@ == temporal_entries(),
{
    vec![
        uniform_entry(0, compute_stage(), 0),
        texture_entry(1, compute_stage(), SampleType::UnfilterableFloat, ViewDimension::D2),
        texture_entry(2, compute_stage(), SampleType::FilterableFloat, ViewDimension::D2),
        storage_texture_entry(3, TextureFormat::Rgba16Float, ViewDimension::D2),
        texture_entry(4, compute_stage(), SampleType::UnfilterableFloat, ViewDimension::D2),
        sampler_entry(5, compute_stage(), SamplerKind::Filtering),
    ]
}

pub open spec fn composite_entries() -> Seq<LayoutEntry> {
    seq![
        texture_entry(0, fragment_stage(), SampleType::FilterableFloat, ViewDimension::D2),
        sampler_entry(1, fragment_stage(), SamplerKind::Filtering),
        texture_entry(2, fragment_stage(), SampleType::Depth, ViewDimension::D2),
        uniform_entry(3, fragment_stage(), 0),
        texture_entry(4, fragment_stage(), SampleType::UnfilterableFloat, ViewDimension::D2),
    ]
}

/// The clouds, a sampler, the scene's depth, uniforms, and the clouds' depth.
pub fn composite_layout() -> (entries: Vec<LayoutEntry>)
    ensures
        entries@ == composite_entries(),
{
    vec![
        texture_entry(0, fragment_stage(), SampleType::FilterableFloat, ViewDimension::D2),
        sampler_entry(1, fragment_stage(), SamplerKind::Filtering),
        texture_entry(2, fragment_stage(), SampleType::Depth, ViewDimension::D2),
        uniform_entry(3, fragment_stage(), 0),
        texture_entry(4, fragment_stage(), SampleType::UnfilterableFloat, ViewDimension::D2),
    ]
}

/// Rays are marched through the cloud layer.
pub open spec fn march_step(
    history: TexView,
    depth: TexView,
    sky: TexView,
    sky_sampler: Sampler,
    w: u32,
    h: u32,
) -> Step {
    dispatch_step(
        Pipeline::CloudMarch,
        bound(
            Layout::CloudMarch,
            seq![
                bind_buffer(0, Buffer::CloudUniforms),
                bind_view(1, TexView::NoiseShape),
                bind_view(2, TexView::NoiseDetail),
                bind_view(3, TexView::NoiseWeather),
                bind_sampler(4, Sampler::NoiseRepeat),
                bind_view(5, history),
                bind_view(6, TexView::CloudRaw),
                bind_view(7, depth),
                bind_view(8, TexView::CloudDepth),
                bind_view(9, sky),
                bind_sampler(10, sky_sampler),
            ],
        ),
        groups_for(w, 8),
        groups_for(h, 8),
        1,
    )
}

fn march_command(
    history: TexView,
    depth: TexView,
    sky: TexView,
    sky_sampler: Sampler,
    w: u32,
    h: u32,
) -> (c: Command)
    ensures
        c@ == march_step(history, depth, sky, sky_sampler, w, h),
{
    let c = dispatch(
        Pipeline::CloudMarch,
        group(
            Layout::CloudMarch,
            vec![
                bind_buffer(0, Buffer::CloudUniforms),
                bind_view(1, TexView::NoiseShape),
                bind_view(2, TexView::NoiseDetail),
                bind_view(3, TexView::NoiseWeather),
                bind_sampler(4, Sampler::NoiseRepeat),
                bind_view(5, history),
                bind_view(6, TexView::CloudRaw),
                bind_view(7, depth),
                bind_view(8, TexView::CloudDepth),
                bind_view(9, sky),
                bind_sampler(10, sky_sampler),
            ],
        ),
        groups_for(w, 8),
        groups_for(h, 8),
        1,
    );
    assert(c@ =~~= march_step(history, depth, sky, sky_sampler, w, h));
    c
}

/// The new clouds are blended with the history.
pub open spec fn temporal_step(history: TexView, current: TexView, w: u32, h: u32) -> Step {
    dispatch_step(
        Pipeline::CloudTemporal,
        bound(
            Layout::CloudTemporal,
            seq![
                bind_buffer(0, Buffer::CloudUniforms),
                bind_view(1, TexView::CloudRaw),
                bind_view(2, history),
                bind_view(3, current),
                bind_view(4, TexView::CloudDepth),
                bind_sampler(5, Sampler::CloudTemporal),
            ],
        ),
        groups_for(w, 8),
        groups_for(h, 8),
        1,
    )
}

fn temporal_command(history: TexView, current: TexView, w: u32, h: u32) -> (c: Command)
    ensures
        c@ == temporal_step(history, current, w, h),
{
    let c = dispatch(
        Pipeline::CloudTemporal,
        group(
            Layout::CloudTemporal,
            vec![
                bind_buffer(0, Buffer::CloudUniforms),
                bind_view(1, TexView::CloudRaw),
                bind_view(2, history),
                bind_view(3, current),
                bind_view(4, TexView::CloudDepth),
                bind_sampler(5, Sampler::CloudTemporal),
            ],
        ),
        groups_for(w, 8),
        groups_for(h, 8),
        1,
    );
    assert(c@ =~~= temporal_step(history, current, w, h));
    c
}

/// The clouds are laid over the scene.
pub open spec fn composite_step(current: TexView, depth: TexView, scene: TexView) -> Step {
    fullscreen_step(
        Pipeline::CloudComposite,
        bound(
            Layout::CloudComposite,
            seq![
                bind_view(0, current),
                bind_sampler(1, Sampler::CloudComposite),
                bind_view(2, depth),
                bind_buffer(3, Buffer::CloudUniforms),
                bind_view(4, TexView::CloudDepth),
            ],
        ),
        scene,
        Load::Keep,
    )
}

fn composite_command(current: TexView, depth: TexView, scene: TexView) -> (c: Command)
    ensures
        c@ == composite_step(current, depth, scene),
{
    let c = fullscreen(
        Pipeline::CloudComposite,
        group(
            Layout::CloudComposite,
            vec![
                bind_view(0, current),
                bind_sampler(1, Sampler::CloudComposite),
                bind_view(2, depth),
                bind_buffer(3, Buffer::CloudUniforms),
                bind_view(4, TexView::CloudDepth),
            ],
        ),
        scene,
        Load::Keep,
    );
    assert(c@ =~~= composite_step(current, depth, scene));
    c
}

/// The cloud pass: its size, and what it remembers from frame to frame.
#[derive(Clone, Copy, Debug, PartialEq, Eq, Structural)]
pub struct CloudPass {
    /// The size of the clouds, a fraction of the screen's.
    pub quarter_w: u32,
    pub quarter_h: u32,
    /// The screen is larger by this factor.
    pub resolution_divisor: u32,
    /// Counts frames, starting over after the largest `u32`.
    pub frame_index: u32,
    /// Counts frames since the textures were created.
    pub frame_count: u32,
    /// Which of the two colour textures holds the newest clouds.
    pub current: bool,
    pub prev_view_proj: Mat4,
    pub prev_elapsed: Scalar,
}

/// What the uniforms hold of the pass itself.
#[derive(Clone, Copy, Debug, PartialEq, Eq, Structural)]
pub struct CloudUniformInputs {
    /// There is no history to blend with yet.
    pub first_frame: bool,
    pub frame_index: u32,
    pub resolution_divisor: u32,
    pub width: u32,
    pub height: u32,
    pub prev_view_proj: Mat4,
    pub prev_elapsed: Scalar,
}

/// The factor by which the screen is larger than the clouds.
#[verifier::allow_in_spec]
pub fn divisor_of(resolution: CloudResolution) -> u32
    returns
        (match resolution {
            CloudResolution::Quarter => 4u32,
            CloudResolution::Half => 2u32,
        }),
{
    match resolution {
        CloudResolution::Quarter => 4,
        CloudResolution::Half => 2,
    }
}

pub open spec fn cloud_textures(w: u32, h: u32) -> Seq<TextureDesc> {
    seq![
        cloud_target(TexView::CloudRaw, w, h),
        cloud_target(TexView::CloudColor(false), w, h),
        storage_target(TexView::CloudDepth, w, h, TextureFormat::R32Float),
        cloud_target(TexView::CloudColor(true), w, h),
    ]
}

/// A texture of clouds, which can be drawn to as well.
#[verifier::allow_in_spec]
pub fn cloud_target(view: TexView, width: u32, height: u32) -> TextureDesc
    returns
        (TextureDesc {
            usage: TextureUsages { render_attachment: true, ..storage_and_sampled() },
            ..storage_target(view, width, height, TextureFormat::Rgba16Float)
        }),
{
    let mut desc = storage_target(view, width, height, TextureFormat::Rgba16Float);
    desc.usage.render_attachment = true;
    desc
}

impl CloudPass {
    /// The screen is larger than the clouds by a positive factor.
    pub open spec fn wf(self) -> bool {
        self.resolution_divisor > 0
    }

    /// The pass at a quarter of the size of the screen.
    pub fn new(width: u32, height: u32) -> (pass: CloudPass)
        ensures
            pass.wf(),
            pass == (CloudPass {
                quarter_w: at_least_one(width / 4),
                quarter_h: at_least_one(height / 4),
                resolution_divisor: 4,
                frame_index: 0,
                frame_count: 0,
                current: false,
                prev_view_proj: identity_matrix(),
                prev_elapsed: zero(),
            }),
    {
        CloudPass {
            quarter_w: at_least_one(width / 4),
            quarter_h: at_least_one(height / 4),
            resolution_divisor: 4,
            frame_index: 0,
            frame_count: 0,
            current: false,
            prev_view_proj: Mat4::identity(),
            prev_elapsed: Scalar::from_bits(0),
        }
    }

    /// The textures of the pass at its present size.
    pub fn textures(&self) -> (descs: Vec<TextureDesc>)
        ensures
            descs@ == cloud_textures(self.quarter_w, self.quarter_h),
    {
        let w: u32 = self.quarter_w;
        let h: u32 = self.quarter_h;
        vec![
            cloud_target(TexView::CloudRaw, w, h),
            cloud_target(TexView::CloudColor(false), w, h),
            storage_target(TexView::CloudDepth, w, h, TextureFormat::R32Float),
            cloud_target(TexView::CloudColor(true), w, h),
        ]
    }

    pub fn uniforms() -> (desc: BufferDesc)
        ensures
            desc == uniform_buffer(Buffer::CloudUniforms, CLOUD_UNIFORM_SIZE),
    {
        uniform_buffer(Buffer::CloudUniforms, CLOUD_UNIFORM_SIZE)
    }

    /// The sampler with which clouds are laid over the scene.
    pub fn composite_sampler() -> (desc: SamplerDesc)
        ensures
            desc == (SamplerDesc {
                sampler: Sampler::CloudComposite,
                repeat_u: false,
                repeat_v: false,
                repeat_w: false,
                linear_between_levels: false,
                compare: false,
            }),
    {
        SamplerDesc {
            sampler: Sampler::CloudComposite,
            repeat_u: false,
            repeat_v: false,
            repeat_w: false,
            linear_between_levels: false,
            compare: false,
        }
    }

    /// The sampler with which the history is read.
    pub fn temporal_sampler() -> (desc: SamplerDesc)
        ensures
            desc == (SamplerDesc {
                sampler: Sampler::CloudTemporal,
                repeat_u: false,
                repeat_v: false,
                repeat_w: false,
                linear_between_levels: false,
                compare: false,
            }),
    {
        SamplerDesc {
            sampler: Sampler::CloudTemporal,
            repeat_u: false,
            repeat_v: false,
            repeat_w: false,
            linear_between_levels: false,
            compare: false,
        }
    }

    /// Takes the resolution of a profile. The textures keep their size until the next resize.
    pub fn set_resolution(&mut self, resolution: CloudResolution)
        ensures
            *final(self) == (CloudPass {
                resolution_divisor: divisor_of(resolution),
                ..*old(self)
            }),
            final(self).wf(),
    {
        self.resolution_divisor = divisor_of(resolution);
    }

    /// Fits the pass to a screen. The textures are new, so the frames that follow have no history.
    pub fn resize(&mut self, width: u32, height: u32)
        requires
            old(self).wf(),
        ensures
            *final(self) == (CloudPass {
                quarter_w: at_least_one(width / old(self).resolution_divisor),
                quarter_h: at_least_one(height / old(self).resolution_divisor),
                frame_count: 0,
                current: false,
                ..*old(self)
            }),
            final(self).wf(),
    {
        self.quarter_w = at_least_one(width / self.resolution_divisor);
        self.quarter_h = at_least_one(height / self.resolution_divisor);
        self.frame_count = 0;
        self.current = false;
    }

    /// What the uniforms hold of the pass this frame. The time is remembered for the next.
    pub fn write_uniforms(&mut self, elapsed_secs: Scalar) -> (inputs: CloudUniformInputs)
        ensures
            *final(self) == (CloudPass { prev_elapsed: elapsed_secs, ..*old(self) }),
            inputs == (CloudUniformInputs {
                first_frame: old(self).frame_count < 2,
                frame_index: old(self).frame_index,
                resolution_divisor: old(self).resolution_divisor,
                width: old(self).quarter_w,
                height: old(self).quarter_h,
                prev_view_proj: old(self).prev_view_proj,
                prev_elapsed: old(self).prev_elapsed,
            }),
    {
        let inputs = CloudUniformInputs {
            first_frame: self.frame_count < 2,
            frame_index: self.frame_index,
            resolution_divisor: self.resolution_divisor,
            width: self.quarter_w,
            height: self.quarter_h,
            prev_view_proj: self.prev_view_proj,
            prev_elapsed: self.prev_elapsed,
        };
        self.prev_elapsed = elapsed_secs;
        inputs
    }

    /// What a frame records, given the textures that hold the history and take the new clouds.
    pub open spec fn frame_steps(
        self,
        scene: TexView,
        depth: TexView,
        sky: TexView,
        sky_sampler: Sampler,
    ) -> Seq<Step> {
        let history = TexView::CloudColor(self.current);
        let current = TexView::CloudColor(!self.current);
        seq![
            march_step(history, depth, sky, sky_sampler, self.quarter_w, self.quarter_h),
            temporal_step(history, current, self.quarter_w, self.quarter_h),
            composite_step(current, depth, scene),
        ]
    }

    /// Records a frame. What was newest before becomes the history.
    pub fn encode(
        &mut self,
        scene_color: TexView,
        depth: TexView,
        view_proj: Mat4,
        sky: TexView,
        sky_sampler: Sampler,
    ) -> (commands: Vec<Command>)
        ensures
            steps(commands@) == old(self).frame_steps(scene_color, depth, sky, sky_sampler),
            *final(self) == (CloudPass {
                current: !old(self).current,
                prev_view_proj: view_proj,
                frame_index: if old(self).frame_index == u32::MAX {
                    0
                } else {
                    (old(self).frame_index + 1) as u32
                },
                frame_count: if old(self).frame_count == u32::MAX {
                    u32::MAX
                } else {
                    (old(self).frame_count + 1) as u32
                },
                ..*old(self)
            }),
    {
        let history = TexView::CloudColor(self.current);
        self.current = !self.current;
        let current = TexView::CloudColor(self.current);
        let commands = vec![
            march_command(history, depth, sky, sky_sampler, self.quarter_w, self.quarter_h),
            temporal_command(history, current, self.quarter_w, self.quarter_h),
            composite_command(current, depth, scene_color),
        ];
        assert(steps(commands@) =~= old(self).frame_steps(scene_color, depth, sky, sky_sampler));
        self.prev_view_proj = view_proj;
        self.frame_index = self.frame_index.wrapping_add(1);
        self.frame_count = self.frame_count.saturating_add(1);
        commands
    }

    /// The timestamps around each command of a frame, where timing is on.
    pub fn timestamps(timing: Option<CloudTimingSlots>) -> (writes: Vec<Option<(u32, u32)>>)
        ensures
            writes@ == match timing {
                Some(slots) => seq![
                    Some(slots.march),
                    Some(slots.temporal),
                    Some(slots.composite),
                ],
                None => seq![None, None, None],
            },
    {
        match timing {
            Some(slots) => vec![Some(slots.march), Some(slots.temporal), Some(slots.composite)],
            None => vec![None, None, None],
        }
    }
}

/// The slots of the three cloud passes, if all three were given one.
pub fn cloud_timing_slots(
    march: Option<(u32, u32)>,
    temporal: Option<(u32, u32)>,
    composite: Option<(u32, u32)>,
) -> (slots: Option<CloudTimingSlots>)
    ensures
        slots is Some <==> march is Some && temporal is Some && composite is Some,
        slots matches Some(s) ==> march == Some(s.march) && temporal == Some(s.temporal)
            && composite == Some(s.composite),
{
    match (march, temporal, composite) {
        (Some(march), Some(temporal), Some(composite)) => Some(
            CloudTimingSlots { march, temporal, composite },
        ),
        _ => None,
    }
}

/// Every command of a frame can be carried out: what holds the history is never what is written.
pub proof fn cloud_commands_are_valid(
    pass: CloudPass,
    scene: TexView,
    depth: TexView,
    sky: TexView,
    sky_sampler: Sampler,
)
    requires
        is_color_target(scene),
        !(scene is CloudColor),
        is_depth_source(depth),
        is_color_source(sky),
        sky != TexView::CloudRaw,
        sky_sampler != Sampler::ShadowCompare,
    ensures
        all_valid(pass.frame_steps(scene, depth, sky, sky_sampler)),
{
    let history = TexView::CloudColor(pass.current);
    let current = TexView::CloudColor(!pass.current);
    assert(valid(march_step(history, depth, sky, sky_sampler, pass.quarter_w, pass.quarter_h)));
    assert(valid(temporal_step(history, current, pass.quarter_w, pass.quarter_h)));
    assert(valid(composite_step(current, depth, scene)));
}

/// The textures are created as their views need them.
pub proof fn cloud_textures_fit_their_views(w: u32, h: u32)
    ensures
        forall|i: int| 0 <= i < 4 ==> described(#[trigger] cloud_textures(w, h)[i]),
{
}

/// The history that a frame reads is what the frame before it wrote.
pub proof fn clouds_read_the_frame_before(
    before: CloudPass,
    after: CloudPass,
    scene: TexView,
    depth: TexView,
    sky: TexView,
    sky_sampler: Sampler,
)
    requires
        after.current == !before.current,
    ensures
        ({
            let written = before.frame_steps(scene, depth, sky, sky_sampler)[1];
            let read = after.frame_steps(scene, depth, sky, sky_sampler)[1];
            written->Dispatch_groups[0].bindings[3].resource
                == read->Dispatch_groups[0].bindings[2].resource
        }),
{
}

/// Clouds are marched through the noise, blended with those of the frame before, and laid over the
/// scene.
pub proof fn clouds_are_laid_over_the_scene(
    pass: CloudPass,
    scene: TexView,
    depth: TexView,
    sky: TexView,
    sky_sampler: Sampler,
)
    ensures
        ({
            let all = pass.frame_steps(scene, depth, sky, sky_sampler);
            &&& all.len() == 3
            &&& computes(
                all[0],
                Pipeline::CloudMarch,
                Layout::CloudMarch,
                seq![
                    Resource::Buffer(Buffer::CloudUniforms),
                    Resource::View(TexView::NoiseShape),
                    Resource::View(TexView::NoiseDetail),
                    Resource::View(TexView::NoiseWeather),
                    Resource::Sampler(Sampler::NoiseRepeat),
                    Resource::View(TexView::CloudColor(pass.current)),
                    Resource::View(TexView::CloudRaw),
                    Resource::View(depth),
                    Resource::View(TexView::CloudDepth),
                    Resource::View(sky),
                    Resource::Sampler(sky_sampler),
                ],
                pass.quarter_w as int,
                pass.quarter_h as int,
            )
            &&& computes(
                all[1],
                Pipeline::CloudTemporal,
                Layout::CloudTemporal,
                seq![
                    Resource::Buffer(Buffer::CloudUniforms),
                    Resource::View(TexView::CloudRaw),
                    Resource::View(TexView::CloudColor(pass.current)),
                    Resource::View(TexView::CloudColor(!pass.current)),
                    Resource::View(TexView::CloudDepth),
                    Resource::Sampler(Sampler::CloudTemporal),
                ],
                pass.quarter_w as int,
                pass.quarter_h as int,
            )
            &&& overlays(
                all[2],
                Pipeline::CloudComposite,
                Layout::CloudComposite,
                seq![
                    Resource::View(TexView::CloudColor(!pass.current)),
                    Resource::Sampler(Sampler::CloudComposite),
                    Resource::View(depth),
                    Resource::Buffer(Buffer::CloudUniforms),
                    Resource::View(TexView::CloudDepth),
                ],
                scene,
                Load::Keep,
            )
        }),
{
}

/// Clouds, both their colours and their depth are held at the size of clouds.
pub proof fn cloud_textures_have_the_size_of_clouds(width: u32, height: u32)
    ensures
        cloud_textures(width, height).len() == 4,
        has_texels(
            cloud_textures(width, height)[0],
            TexView::CloudRaw,
            width as int,
            height as int,
            TextureFormat::Rgba16Float,
        ),
        has_texels(
            cloud_textures(width, height)[1],
            TexView::CloudColor(false),
            width as int,
            height as int,
            TextureFormat::Rgba16Float,
        ),
        has_texels(
            cloud_textures(width, height)[2],
            TexView::CloudDepth,
            width as int,
            height as int,
            TextureFormat::R32Float,
        ),
        has_texels(
            cloud_textures(width, height)[3],
            TexView::CloudColor(true),
            width as int,
            height as int,
            TextureFormat::Rgba16Float,
        ),
{
}

} // verus!
