//! The order of a frame: shadows, two phases of culling and rasterization, shading, sky, effects and
//! tone mapping.

use vstd::prelude::*;

use crate::dag_cut::{acyclic, cut};
use crate::pipeline::bloom_pass::{
    bloom_commands_are_valid, bloom_steps, level_size_list, BloomPass,
};
use crate::pipeline::capture::{can_capture, ReadbackPlan};
use crate::pipeline::cloud_pass::{cloud_commands_are_valid, divisor_of, CloudPass};
use crate::pipeline::cull_pass::{
    cull_commands_are_valid, cull_group, cull_step, dispatch_group, phase2_dispatch_group, queued,
    CullPass,
};
use crate::pipeline::forward_character::{
    character_command_is_valid, character_step, scene_group, ForwardCharacterPass,
};
use crate::pipeline::gpu::{
    at_least_one, bind_buffer, bound, fragment_stage, group, steps, uniform_entry, BindGroup,
    Buffer, Command, GroupContents, Layout, LayoutEntry, Load, Pipeline, Resource, Sampler, Step,
    TexView, TextureDesc, TextureDimension, TextureFormat, TextureUsages, HDR_FORMAT,
};
use crate::pipeline::hw_raster_pass::{
    clear_lists_steps, dispatch_group as hw_dispatch_group, frame_group, mesh_group,
    prepare_indirect_step, raster_commands_are_valid, raster_step, DispatchLists, HwRasterPass,
    VisibilityBuffer,
};
use crate::pipeline::hzb_pass::{mip_count_for, pyramid_commands_are_valid, pyramid_steps, HzbPass};
use crate::pipeline::noise_textures::{detail_step, shape_step, NoiseTextures};
use crate::pipeline::shadow_pass::{
    shadow_commands_are_valid, shadow_steps, slot_stride, ShadowPass,
};
use crate::pipeline::sky_lut_pass::{sky_lut_steps, AtmosphereKey, SkyLutPass};
use crate::pipeline::ssao_pass::{ssao_commands_are_valid, SsaoPass};
use crate::pipeline::ssgi_pass::{ssgi_commands_are_valid, SsgiPass};
use crate::pipeline::sun_shaft_pass::{half_of, sun_shaft_commands_are_valid, SunShaftPass};
use crate::pipeline::sw_raster_pass::SwRasterPass;
use crate::pipeline::taa_pass::{taa_commands_are_valid, TaaPass};
use crate::pipeline::uniforms::{atmosphere_params, flag, flag_value, ScreenView, SunOnScreen};
use crate::pipeline::upload::{puts_all, Upload};
use crate::pipeline::validity::{all_valid, described, valid};
use crate::scalar::{identity_matrix, one, whole, zero, Mat4, Scalar, Vec4};
use crate::scene::bounds::Vec3;
use crate::scene::lighting::CameraView;
use crate::scene::settings::{CloudResolution, SceneSettings, SkyProbe};
use crate::scene::shadow::CascadeSet;
use crate::scene::vertex::Vec2;
use crate::scene_upload::RuntimeSceneGpu;

verus! {

/// How many meshlets the lists for rasterization hold.
pub const MAX_MESHLETS: u32 = 65536;

/// Shadows reach 140 units deep until they are configured.
pub const DEFAULT_SHADOW_DEPTH_BITS: u32 = 0x430C_0000;

/// Global illumination is left out up to an intensity of a thousandth.
pub const GI_THRESHOLD_BITS: u32 = 0x3A83_126F;

/// No step in time is longer than a quarter of a second.
pub const LONGEST_DT_BITS: u32 = 0x3E80_0000;

pub open spec fn art_direction_entries() -> Seq<LayoutEntry> {
    seq![
        uniform_entry(0, fragment_stage(), 0),
        uniform_entry(1, fragment_stage(), 0),
    ]
}

/// The art direction and its palette.
pub fn art_direction_layout() -> (entries: Vec<LayoutEntry>)
    ensures
        entries@ == art_direction_entries(),
{
    vec![
        uniform_entry(0, fragment_stage(), 0),
        uniform_entry(1, fragment_stage(), 0),
    ]
}

/// The art direction and its palette.
pub open spec fn art_direction_group() -> GroupContents {
    bound(
        Layout::ArtDirection,
        seq![
            bind_buffer(0, Buffer::ArtDirectionUniforms),
            bind_buffer(1, Buffer::ArtDirectionPalette),
        ],
    )
}

/// A pass that the host brings with it, where the frame needs it.
#[derive(Clone, Copy, Debug)]
pub enum ExternalPass {
    /// Shades visible triangles.
    Material,
    /// Fills what no triangle covers.
    Sky,
    Outline,
    /// Maps HDR colour, darkened by ambient occlusion where there is any, to what is shown.
    Tonemap { source: TexView, ao: Option<TexView>, target: TexView },
}

/// A part of a frame.
#[derive(Debug)]
pub enum FrameSegment {
    Recorded(Vec<Command>),
    External(ExternalPass),
}

/// One step of a frame.
#[verifier::ext_equal]
pub enum FrameStep {
    Recorded(Step),
    External(ExternalPass),
}

/// Commands as steps of a frame.
pub open spec fn recorded(commands: Seq<Step>) -> Seq<FrameStep> {
    commands.map_values(|s: Step| FrameStep::Recorded(s))
}

pub open spec fn segment_steps(segment: FrameSegment) -> Seq<FrameStep> {
    match segment {
        FrameSegment::Recorded(commands) => recorded(steps(commands@)),
        FrameSegment::External(pass) => seq![FrameStep::External(pass)],
    }
}

/// The steps of all segments, in order.
pub open spec fn frame_steps(segments: Seq<FrameSegment>) -> Seq<FrameStep>
    decreases segments.len(),
{
    if segments.len() == 0 {
        Seq::empty()
    } else {
        frame_steps(segments.drop_last()) + segment_steps(segments.last())
    }
}

/// The items, or none.
pub open spec fn provided<A>(condition: bool, s: Seq<A>) -> Seq<A> {
    if condition {
        s
    } else {
        Seq::empty()
    }
}

fn add_segment(segments: &mut Vec<FrameSegment>, segment: FrameSegment)
    ensures
        frame_steps(final(segments)@) == frame_steps(old(segments)@) + segment_steps(segment),
{
    segments.push(segment);
    assert(segments@.drop_last() =~= old(segments)@);
}

fn record(segments: &mut Vec<FrameSegment>, commands: Vec<Command>)
    ensures
        frame_steps(final(segments)@) == frame_steps(old(segments)@) + recorded(steps(commands@)),
{
    add_segment(segments, FrameSegment::Recorded(commands));
}

fn record_one(segments: &mut Vec<FrameSegment>, command: Command)
    ensures
        frame_steps(final(segments)@) == frame_steps(old(segments)@) + recorded(seq![command@]),
{
    let ghost step = command@;
    let commands = vec![command];
    assert(steps(commands@) =~= seq![step]);
    add_segment(segments, FrameSegment::Recorded(commands));
}

fn bring(segments: &mut Vec<FrameSegment>, pass: ExternalPass)
    ensures
        frame_steps(final(segments)@) == frame_steps(old(segments)@) + seq![
            FrameStep::External(pass),
        ],
{
    add_segment(segments, FrameSegment::External(pass));
}

/// Where shadows are centred.
#[derive(Clone, Copy, Debug, PartialEq, Eq, Structural)]
pub struct ShadowFocus {
    pub center: Vec3,
    pub base_radius: Scalar,
}

/// Everything that draws a frame, and what it keeps from one frame to the next.
#[derive(Debug)]
pub struct VisbufPipeline {
    pub width: u32,
    pub height: u32,
    pub hw_raster: HwRasterPass,
    pub cull_pass: CullPass,
    pub sw_raster: SwRasterPass,
    pub hzb_pass: HzbPass,
    pub shadow_pass: ShadowPass,
    pub sky_lut_pass: SkyLutPass,
    pub cloud_pass: CloudPass,
    pub ssgi_pass: Option<SsgiPass>,
    pub ssao_pass: Option<SsaoPass>,
    pub sun_shaft_pass: SunShaftPass,
    pub bloom_pass: Option<BloomPass>,
    pub taa_pass: Option<TaaPass>,
    pub forward_character: ForwardCharacterPass,
    pub noise_textures: NoiseTextures,
    pub vis_buffer: VisibilityBuffer,
    pub dispatch_lists: DispatchLists,
    /// A scene's buffers are bound.
    pub scene_bound: bool,
    pub shadow_focus: Option<ShadowFocus>,
    pub shadow_depth: Scalar,
    /// The outline would not be seen.
    pub art_direction_outline_skip: bool,
    pub art_direction_bloom_tint: Vec3,
    pub art_direction_bloom_softness: Scalar,
    pub art_direction_color_grade: Vec4,
    pub art_direction_lod_bias: Scalar,
    pub character_model: Mat4,
    pub character_visible: bool,
    pub last_manual_exposure: Scalar,
    pub last_dt: Scalar,
    pub last_elapsed: Scalar,
    /// The depth pyramid shows the frame before.
    pub hzb_ready: bool,
    pub frame_index: u32,
}

/// What the host computes for a frame.
#[derive(Debug)]
pub struct FrameInputs {
    pub camera: CameraView,
    pub screen: ScreenView,
    /// Where in a pixel the frame samples.
    pub jitter: Vec2,
    /// The camera's matrix, shifted by the jitter where frames are blended.
    pub jittered_view_proj: Mat4,
    pub frustum_planes: [Vec4; 6],
    /// The error in pixels below which a group is drawn.
    pub error_threshold_px: Scalar,
    /// What turns an error at some distance into a part of the screen's height.
    pub fov_factor: Scalar,
    /// The error of every group, projected to pixels.
    pub projected_errors: Vec<Scalar>,
    pub cascades: CascadeSet,
    pub probe: SkyProbe,
    pub sun: SunOnScreen,
    pub elapsed_secs: Scalar,
    /// The time since the frame before.
    pub elapsed_delta: Scalar,
}

/// What precedes a frame: the uploads first, then the segments.
#[derive(Debug)]
pub struct Preparation {
    pub uploads: Vec<Upload>,
    pub segments: Vec<FrameSegment>,
}

/// A frame, ready to be carried out: the uploads first, then the segments.
#[derive(Debug)]
pub struct RecordedFrame {
    pub uploads: Vec<Upload>,
    pub segments: Vec<FrameSegment>,
    /// How many groups the cut has, as far as they fit.
    pub group_count: u32,
}

/// What is read back, and how.
#[derive(Debug)]
pub struct CapturePlan {
    pub texture: TextureDesc,
    pub tonemap: ExternalPass,
    pub exposure: Scalar,
    pub dt: Scalar,
    /// `None` where the image does not fit.
    pub readback: Option<ReadbackPlan>,
}

/// The colour of the scene before tone mapping.
#[verifier::allow_in_spec]
pub fn scene_color_target(width: u32, height: u32) -> TextureDesc
    returns
        (TextureDesc {
            view: TexView::SceneColor,
            width,
            height,
            layers: 1,
            mip_levels: 1,
            dimension: TextureDimension::D2,
            format: HDR_FORMAT,
            usage: TextureUsages {
                copy_src: false,
                copy_dst: false,
                texture_binding: true,
                storage_binding: false,
                render_attachment: true,
            },
        }),
{
    TextureDesc {
        view: TexView::SceneColor,
        width,
        height,
        layers: 1,
        mip_levels: 1,
        dimension: TextureDimension::D2,
        format: HDR_FORMAT,
        usage: TextureUsages {
            copy_src: false,
            copy_dst: false,
            texture_binding: true,
            storage_binding: false,
            render_attachment: true,
        },
    }
}

/// The image that is read back, in the format of what is shown.
#[verifier::allow_in_spec]
pub fn capture_target(width: u32, height: u32, format: TextureFormat) -> TextureDesc
    returns
        (TextureDesc {
            view: TexView::Capture,
            width,
            height,
            layers: 1,
            mip_levels: 1,
            dimension: TextureDimension::D2,
            format,
            usage: TextureUsages {
                copy_src: true,
                copy_dst: false,
                texture_binding: false,
                storage_binding: false,
                render_attachment: true,
            },
        }),
{
    TextureDesc {
        view: TexView::Capture,
        width,
        height,
        layers: 1,
        mip_levels: 1,
        dimension: TextureDimension::D2,
        format,
        usage: TextureUsages {
            copy_src: true,
            copy_dst: false,
            texture_binding: false,
            storage_binding: false,
            render_attachment: true,
        },
    }
}

// ---------------------------------------------------------------------------------------------
// What a frame is
// ---------------------------------------------------------------------------------------------

/// Everything starts empty.
pub open spec fn cleared() -> Seq<Step> {
    seq![Step::Clear { buffer: Buffer::VisibilityStorage }] + clear_lists_steps() + seq![
        Step::Clear { buffer: Buffer::Phase2Count },
    ]
}

/// The second phase of culling, over at most so many meshlets.
pub open spec fn second_cull(rejects: u32) -> Seq<Step> {
    if rejects == 0 {
        Seq::empty()
    } else {
        seq![
            cull_step(
                Pipeline::MeshletCullPhase2,
                frame_group(),
                cull_group(),
                phase2_dispatch_group(TexView::HzbFull),
                rejects,
            ),
        ]
    }
}

/// An upper bound for what the first phase can have hidden: all meshlets, as far as they fit.
pub open spec fn most_rejects(meshlets: nat) -> u32 {
    if meshlets <= MAX_MESHLETS {
        meshlets as u32
    } else {
        MAX_MESHLETS
    }
}

/// The clouds at the resolution of a profile.
pub open spec fn fitted_clouds(
    clouds: CloudPass,
    resolution: CloudResolution,
    width: u32,
    height: u32,
) -> CloudPass {
    if clouds.resolution_divisor == divisor_of(resolution) {
        clouds
    } else {
        CloudPass {
            resolution_divisor: divisor_of(resolution),
            quarter_w: at_least_one(width / divisor_of(resolution)),
            quarter_h: at_least_one(height / divisor_of(resolution)),
            frame_count: 0,
            current: false,
            ..clouds
        }
    }
}

/// A count that starts again after the last number.
pub open spec fn next_index(n: u32) -> u32 {
    if n == u32::MAX {
        0
    } else {
        (n + 1) as u32
    }
}

/// A count that stays at the last number.
pub open spec fn next_count(n: u32) -> u32 {
    if n == u32::MAX {
        u32::MAX
    } else {
        (n + 1) as u32
    }
}

impl CloudPass {
    /// The clouds after a frame: the textures have changed places, and the frame is remembered.
    pub open spec fn after_frame(self, view_proj: Mat4, elapsed_secs: Scalar) -> CloudPass {
        CloudPass {
            current: !self.current,
            prev_view_proj: view_proj,
            prev_elapsed: elapsed_secs,
            frame_index: next_index(self.frame_index),
            frame_count: next_count(self.frame_count),
            ..self
        }
    }
}

/// Temporal anti-aliasing after a frame: the histories have changed places, and the frame is
/// remembered.
pub open spec fn blended(taa: Option<TaaPass>, view_proj: Mat4, jitter: Vec2) -> Option<TaaPass> {
    match taa {
        Some(taa) => Some(
            TaaPass {
                prev_view_proj: view_proj,
                prev_jitter: jitter,
                frame_count: next_count(taa.frame_count),
                write_to_a: !taa.write_to_a,
                ..taa
            },
        ),
        None => None,
    }
}

/// A step in time, never backwards and never too long.
pub open spec fn limited_dt(delta: Scalar) -> Scalar {
    delta.max_of(zero()).min_of(Scalar { bits: LONGEST_DT_BITS })
}

impl VisbufPipeline {
    /// Sizes agree, and every pass is well-formed.
    pub open spec fn wf(self) -> bool {
        &&& self.shadow_pass.well_formed()
        &&& self.cloud_pass.wf()
        &&& self.bloom_pass matches Some(bloom) ==> bloom.wf()
        &&& self.hzb_pass == (HzbPass {
            width: self.width,
            height: self.height,
            mip_count: mip_count_for(self.width, self.height),
        })
        &&& self.vis_buffer == (VisibilityBuffer { width: self.width, height: self.height })
        &&& self.dispatch_lists.max_meshlets == MAX_MESHLETS
    }

    /// Depth from the sun.
    pub open spec fn shadow_stage(self, list: Seq<usize>) -> Seq<FrameStep> {
        recorded(shadow_steps(self.shadow_pass.dyn_alignment, list))
    }

    /// Meshlets that the pyramid of the frame before does not hide are drawn.
    pub open spec fn first_phase(self, group_count: u32) -> Seq<FrameStep> {
        recorded(cleared()) + provided(
            self.scene_bound,
            recorded(
                seq![
                    cull_step(
                        Pipeline::MeshletCull,
                        frame_group(),
                        cull_group(),
                        dispatch_group(TexView::HzbFull),
                        group_count,
                    ),
                ],
            ),
        ) + recorded(seq![prepare_indirect_step()]) + provided(
            self.scene_bound,
            recorded(
                seq![
                    raster_step(frame_group(), mesh_group(), hw_dispatch_group(), Load::Clear),
                ],
            ),
        )
    }

    /// The pyramid is made from what has been drawn so far.
    pub open spec fn pyramid(self) -> Seq<FrameStep> {
        recorded(
            pyramid_steps(
                TexView::VisibilityDepth,
                self.width,
                self.height,
                self.hzb_pass.mip_count,
            ),
        )
    }

    /// Meshlets that the new pyramid does not hide either are drawn as well.
    pub open spec fn second_phase(self, rejects: u32) -> Seq<FrameStep> {
        recorded(seq![Step::Clear { buffer: Buffer::HwDispatchCount }]) + provided(
            self.scene_bound,
            recorded(second_cull(rejects)),
        ) + recorded(seq![prepare_indirect_step()]) + provided(
            self.scene_bound,
            recorded(
                seq![
                    raster_step(frame_group(), mesh_group(), hw_dispatch_group(), Load::Keep),
                ],
            ),
        )
    }

    /// Visible triangles are shaded, and the character is drawn.
    pub open spec fn shading(self) -> Seq<FrameStep> {
        provided(self.scene_bound, seq![FrameStep::External(ExternalPass::Material)]) + provided(
            self.character_visible,
            recorded(
                seq![
                    character_step(
                        scene_group(Buffer::LightingUniforms),
                        TexView::SceneColor,
                        TexView::VisibilityDepth,
                    ),
                ],
            ),
        )
    }

    /// Sky and clouds are added.
    pub open spec fn sky_stage(self, clouds: CloudPass) -> Seq<FrameStep> {
        seq![FrameStep::External(ExternalPass::Sky)] + recorded(
            clouds.frame_steps(
                TexView::SceneColor,
                TexView::VisibilityDepth,
                TexView::SkyView,
                Sampler::SkyLut,
            ),
        )
    }

    /// Whether global illumination is part of a frame.
    pub open spec fn lights_globally(self, gi_intensity: Scalar) -> bool {
        self.ssgi_pass is Some && (Scalar { bits: GI_THRESHOLD_BITS }).lt(gi_intensity)
    }

    /// Effects on the lit scene: global illumination, occlusion, shafts of light, outlines.
    pub open spec fn effects(self, gi_intensity: Scalar) -> Seq<FrameStep> {
        provided(
            self.lights_globally(gi_intensity),
            recorded(
                self.ssgi_pass->0.frame_steps(
                    TexView::MaterialNormal,
                    TexView::VisibilityDepth,
                    TexView::SceneColor,
                ),
            ),
        ) + provided(
            self.ssao_pass is Some,
            recorded(
                self.ssao_pass->0.frame_steps(TexView::MaterialNormal, TexView::VisibilityDepth),
            ),
        ) + recorded(
            self.sun_shaft_pass.frame_steps(TexView::VisibilityDepth, TexView::SceneColor),
        ) + provided(
            !self.art_direction_outline_skip,
            seq![FrameStep::External(ExternalPass::Outline)],
        )
    }

    /// Bloom, and the blend with the frames before.
    pub open spec fn finish(self) -> Seq<FrameStep> {
        provided(
            self.bloom_pass is Some,
            recorded(
                bloom_steps(self.bloom_pass->0.sizes(), TexView::SceneColor, TexView::SceneColor),
            ),
        ) + provided(
            self.taa_pass is Some,
            recorded(
                self.taa_pass->0.frame_steps(TexView::VisibilityDepth, TexView::SceneColor),
            ),
        )
    }

    /// The colour that is tone mapped: the newest blend, or the scene where frames are not blended.
    pub open spec fn source(self) -> TexView {
        match self.taa_pass {
            Some(taa) => taa.output(),
            None => TexView::SceneColor,
        }
    }

    /// Tone mapping of the newest colour.
    pub open spec fn tonemap(self, target: TexView) -> ExternalPass {
        ExternalPass::Tonemap {
            source: self.source(),
            ao: if self.ssao_pass is Some {
                Some(TexView::SsaoBlurred)
            } else {
                None
            },
            target,
        }
    }

    /// The groups to draw.
    pub open spec fn cut_of(self, scene: RuntimeSceneGpu, input: FrameInputs) -> Seq<u32> {
        cut(scene.dag.groups@, input.projected_errors@, input.error_threshold_px)
    }

    /// The whole frame, but for tone mapping.
    pub open spec fn drawing(
        self,
        scene: RuntimeSceneGpu,
        settings: SceneSettings,
        input: FrameInputs,
    ) -> Seq<FrameStep> {
        let rejects = most_rejects(scene.dag.meshlets@.len());
        let count = queued(self.cut_of(scene, input)).len() as u32;
        let clouds = fitted_clouds(
            self.cloud_pass,
            settings.cloud_profile.resolution,
            self.width,
            self.height,
        );
        self.shadow_stage(scene.shadow_opaque_list@) + self.first_phase(count) + self.pyramid()
            + self.second_phase(rejects) + self.shading() + self.pyramid() + self.sky_stage(clouds)
            + self.effects(settings.gi_intensity) + self.finish()
    }

    /// What is kept for the next frame.
    pub open spec fn after_frame(
        self,
        settings: SceneSettings,
        input: FrameInputs,
    ) -> VisbufPipeline {
        let clouds = fitted_clouds(
            self.cloud_pass,
            settings.cloud_profile.resolution,
            self.width,
            self.height,
        );
        VisbufPipeline {
            cloud_pass: clouds.after_frame(input.camera.view_proj, input.elapsed_secs),
            taa_pass: blended(self.taa_pass, input.camera.view_proj, input.jitter),
            last_manual_exposure: settings.exposure,
            last_dt: limited_dt(input.elapsed_delta),
            last_elapsed: input.elapsed_secs,
            hzb_ready: true,
            frame_index: next_index(self.frame_index),
            ..self
        }
    }

    /// A pipeline as it is made: nothing drawn, every optional pass there, no scene bound.
    pub open spec fn is_new(self, width: u32, height: u32, min_uniform_align: u32) -> bool {
        &&& self.width == width
        &&& self.height == height
        &&& self.shadow_pass.dyn_alignment == slot_stride(min_uniform_align)
        &&& self.sky_lut_pass == (SkyLutPass {
            cached: AtmosphereKey {
                sun_direction: Vec3 { x: zero(), y: zero(), z: zero() },
                rayleigh_strength: zero(),
                mie_strength: zero(),
                mie_anisotropy: zero(),
            },
            dirty: true,
        })
        &&& self.cloud_pass == (CloudPass {
            quarter_w: at_least_one(width / 4),
            quarter_h: at_least_one(height / 4),
            resolution_divisor: 4,
            frame_index: 0,
            frame_count: 0,
            current: false,
            prev_view_proj: identity_matrix(),
            prev_elapsed: zero(),
        })
        &&& self.ssgi_pass == Some(SsgiPass { width, height })
        &&& self.ssao_pass == Some(SsaoPass { width, height })
        &&& self.sun_shaft_pass == (SunShaftPass {
            shaft_width: half_of(width),
            shaft_height: half_of(height),
        })
        &&& (self.bloom_pass matches Some(bloom) && bloom.sizes() == level_size_list(
            width,
            height,
        ))
        &&& self.taa_pass == Some(
            TaaPass {
                width,
                height,
                frame_count: 0,
                write_to_a: true,
                prev_view_proj: identity_matrix(),
                prev_jitter: Vec2 { x: zero(), y: zero() },
            },
        )
        &&& !self.noise_textures.generated
        &&& !self.scene_bound
        &&& self.shadow_focus is None
        &&& self.shadow_depth == (Scalar { bits: DEFAULT_SHADOW_DEPTH_BITS })
        &&& self.art_direction_outline_skip
        &&& self.art_direction_bloom_tint == (Vec3 { x: one(), y: one(), z: one() })
        &&& self.art_direction_bloom_softness == zero()
        &&& self.art_direction_color_grade == (Vec4 {
            x: one(),
            y: one(),
            z: one(),
            w: zero(),
        })
        &&& self.art_direction_lod_bias == zero()
        &&& self.character_model == identity_matrix()
        &&& !self.character_visible
        &&& self.last_manual_exposure == one()
        &&& self.last_dt == zero()
        &&& self.last_elapsed == zero()
        &&& !self.hzb_ready
        &&& self.frame_index == 0
    }

    /// The pipeline before, fitted to a screen: what depends on frames before starts anew.
    pub open spec fn is_resized(self, before: VisbufPipeline, width: u32, height: u32) -> bool {
        &&& (self.bloom_pass is Some <==> before.bloom_pass is Some)
        &&& (self.bloom_pass matches Some(bloom) ==> bloom.sizes() == level_size_list(
            width,
            height,
        ))
        &&& self == (VisbufPipeline {
            width,
            height,
            vis_buffer: VisibilityBuffer { width, height },
            hzb_pass: HzbPass { width, height, mip_count: mip_count_for(width, height) },
            cloud_pass: CloudPass {
                quarter_w: at_least_one(width / before.cloud_pass.resolution_divisor),
                quarter_h: at_least_one(height / before.cloud_pass.resolution_divisor),
                frame_count: 0,
                current: false,
                ..before.cloud_pass
            },
            ssgi_pass: match before.ssgi_pass {
                Some(_) => Some(SsgiPass { width, height }),
                None => None,
            },
            ssao_pass: match before.ssao_pass {
                Some(_) => Some(SsaoPass { width, height }),
                None => None,
            },
            bloom_pass: self.bloom_pass,
            sun_shaft_pass: SunShaftPass {
                shaft_width: half_of(width),
                shaft_height: half_of(height),
            },
            taa_pass: match before.taa_pass {
                Some(taa) => Some(TaaPass { width, height, frame_count: 0, ..taa }),
                None => None,
            },
            hzb_ready: false,
            ..before
        })
    }

    /// What precedes a frame: noise the first time, and the tables of the atmosphere where they
    /// changed.
    pub open spec fn preparation(self, atmosphere: AtmosphereKey) -> Seq<FrameStep> {
        provided(
            !self.noise_textures.generated,
            recorded(seq![shape_step(), detail_step()]),
        ) + provided(
            self.sky_lut_pass.dirty || !atmosphere.matches(self.sky_lut_pass.cached),
            recorded(sky_lut_steps()),
        )
    }

    /// The work is what is due before a frame, with the parameters of the tables where they are made.
    pub open spec fn prepares(self, work: Preparation, atmosphere: AtmosphereKey) -> bool {
        let due = self.sky_lut_pass.dirty || !atmosphere.matches(self.sky_lut_pass.cached);
        &&& frame_steps(work.segments@) == self.preparation(atmosphere)
        &&& work.uploads@.len() == if due {
            1nat
        } else {
            0
        }
        &&& due ==> work.uploads@[0].puts(
            Buffer::SkyLutUniforms,
            0,
            atmosphere_params(self.after_preparation(atmosphere).sky_lut_pass).word_list(),
        )
    }

    /// Noise and tables are up to date.
    pub open spec fn after_preparation(self, atmosphere: AtmosphereKey) -> VisbufPipeline {
        VisbufPipeline {
            noise_textures: NoiseTextures { generated: true },
            sky_lut_pass: SkyLutPass {
                cached: if atmosphere.matches(self.sky_lut_pass.cached) {
                    self.sky_lut_pass.cached
                } else {
                    atmosphere
                },
                dirty: false,
            },
            ..self
        }
    }

    /// The plan reads back what this pipeline drew last.
    pub open spec fn captures(self, plan: CapturePlan, surface_format: TextureFormat) -> bool {
        &&& plan.texture == capture_target(self.width, self.height, surface_format)
        &&& plan.tonemap == self.tonemap(TexView::Capture)
        &&& plan.exposure == self.last_manual_exposure
        &&& plan.dt == self.last_dt
        &&& plan.readback is Some <==> can_capture(self.width, self.height)
        &&& (plan.readback matches Some(p) ==> p.well_formed() && p.width == self.width && p.height
            == self.height)
    }

    /// The frame is the one that is due: its steps, and what is uploaded for it.
    pub open spec fn draws(
        self,
        frame: RecordedFrame,
        scene: RuntimeSceneGpu,
        settings: SceneSettings,
        input: FrameInputs,
    ) -> bool {
        &&& frame_steps(frame.segments@) == self.drawing(scene, settings, input).push(
            FrameStep::External(self.after_frame(settings, input).tonemap(TexView::Surface)),
        )
        &&& puts_all(frame.uploads@, self.frame_writes(scene, settings, input))
        &&& frame.group_count == queued(self.cut_of(scene, input)).len()
    }

    // -----------------------------------------------------------------------------------------
    // Construction and configuration
    // -----------------------------------------------------------------------------------------
    /// A pipeline for a screen, on a device that aligns uniform offsets to `min_uniform_align`.
    pub fn new(width: u32, height: u32, min_uniform_align: u32) -> (pipeline: VisbufPipeline)
        requires
            0 < min_uniform_align,
            min_uniform_align * 3 <= u32::MAX,
        ensures
            pipeline.wf(),
            pipeline.is_new(width, height, min_uniform_align),
    {
        let z = Scalar::from_bits(0);
        let o = Scalar::from_bits(0x3F80_0000);
        let mut hzb_pass = HzbPass::new();
        hzb_pass.resize(width, height);
        VisbufPipeline {
            width,
            height,
            hw_raster: HwRasterPass::new(),
            cull_pass: CullPass::new(),
            sw_raster: SwRasterPass::new(),
            hzb_pass,
            shadow_pass: ShadowPass::new(min_uniform_align),
            sky_lut_pass: SkyLutPass::new(),
            cloud_pass: CloudPass::new(width, height),
            ssgi_pass: Some(SsgiPass::new(width, height)),
            ssao_pass: Some(SsaoPass::new(width, height)),
            sun_shaft_pass: SunShaftPass::new_for_size(width, height),
            bloom_pass: Some(BloomPass::new(width, height)),
            taa_pass: Some(TaaPass::new(width, height)),
            forward_character: ForwardCharacterPass::new(),
            noise_textures: NoiseTextures::new(),
            vis_buffer: VisibilityBuffer::new(width, height),
            dispatch_lists: DispatchLists::new(MAX_MESHLETS),
            scene_bound: false,
            shadow_focus: None,
            shadow_depth: Scalar::from_bits(DEFAULT_SHADOW_DEPTH_BITS),
            art_direction_outline_skip: true,
            art_direction_bloom_tint: Vec3::splat(o),
            art_direction_bloom_softness: z,
            art_direction_color_grade: Vec4::new(o, o, o, z),
            art_direction_lod_bias: z,
            character_model: Mat4::identity(),
            character_visible: false,
            last_manual_exposure: o,
            last_dt: z,
            last_elapsed: z,
            hzb_ready: false,
            frame_index: 0,
        }
    }

    /// The art direction and its palette.
    pub fn create_art_direction_bind_group(&self) -> (g: BindGroup)
        ensures
            g@ == art_direction_group(),
    {
        let g = group(
            Layout::ArtDirection,
            vec![
                bind_buffer(0, Buffer::ArtDirectionUniforms),
                bind_buffer(1, Buffer::ArtDirectionPalette),
            ],
        );
        assert(g@ =~= art_direction_group());
        g
    }

    /// The colour of the scene at the present size.
    pub fn scene_color(&self) -> (desc: TextureDesc)
        ensures
            desc == scene_color_target(self.width, self.height),
    {
        scene_color_target(self.width, self.height)
    }

    /// Binds the buffers of a scene. From now on its meshlets are drawn.
    pub fn sync_scene_resources(&mut self)
        requires
            old(self).wf(),
        ensures
            *final(self) == (VisbufPipeline { scene_bound: true, ..*old(self) }),
            final(self).wf(),
    {
        self.scene_bound = true;
    }

    /// Fits everything to a screen. What depends on frames before starts anew.
    pub fn resize(&mut self, width: u32, height: u32)
        requires
            old(self).wf(),
        ensures
            final(self).wf(),
            final(self).is_resized(*old(self), width, height),
    {
        self.width = width;
        self.height = height;
        self.vis_buffer = VisibilityBuffer::new(width, height);
        self.hzb_pass.resize(width, height);
        self.cloud_pass.resize(width, height);
        if self.ssgi_pass.is_some() {
            self.ssgi_pass = Some(SsgiPass::new(width, height));
        }
        if self.ssao_pass.is_some() {
            self.ssao_pass = Some(SsaoPass::new(width, height));
        }
        if self.bloom_pass.is_some() {
            self.bloom_pass = Some(BloomPass::new(width, height));
        }
        self.sun_shaft_pass.resize(width, height);
        match self.taa_pass {
            Some(taa) => {
                let mut resized = taa;
                resized.resize(width, height);
                self.taa_pass = Some(resized);
            },
            None => {},
        }
        self.hzb_ready = false;
    }

    /// What shaders know of the depth pyramid: whether it can be used, its levels, and its size.
    pub open spec fn pyramid_vector(self) -> Vec4 {
        Vec4 {
            x: flag_value(self.hzb_ready),
            y: whole(self.hzb_pass.mip_count as nat),
            z: whole(self.width as nat),
            w: whole(self.height as nat),
        }
    }

    /// What shaders know of the depth pyramid.
    pub fn hzb_params(&self) -> (v: Vec4)
        ensures
            v == self.pyramid_vector(),
    {
        Vec4::new(
            flag(self.hzb_ready),
            Scalar::from_whole(self.hzb_pass.mip_count),
            Scalar::from_whole(self.width),
            Scalar::from_whole(self.height),
        )
    }

    // -----------------------------------------------------------------------------------------
    // Frames
    // -----------------------------------------------------------------------------------------
    /// Records what precedes a frame.
    pub fn prepare(&mut self, atmosphere: AtmosphereKey) -> (work: Preparation)
        ensures
            old(self).prepares(work, atmosphere),
            *final(self) == old(self).after_preparation(atmosphere),
    {
        let mut segments: Vec<FrameSegment> = Vec::new();
        let mut uploads: Vec<Upload> = Vec::new();
        record(&mut segments, self.noise_textures.ensure_generated());
        self.sky_lut_pass.update(atmosphere);
        if self.sky_lut_pass.dirty {
            uploads.push(self.sky_lut_pass.write_uniforms());
        }
        record(&mut segments, self.sky_lut_pass.generate_if_dirty());
        assert(frame_steps(segments@) =~= old(self).preparation(atmosphere));
        Preparation { uploads, segments }
    }

    /// The clouds at the resolution of a profile.
    pub(crate) fn fit_clouds(&self, resolution: CloudResolution) -> (clouds: CloudPass)
        requires
            self.wf(),
        ensures
            clouds == fitted_clouds(self.cloud_pass, resolution, self.width, self.height),
            clouds.wf(),
    {
        let mut clouds = self.cloud_pass;
        if clouds.resolution_divisor != divisor_of(resolution) {
            clouds.set_resolution(resolution);
            clouds.resize(self.width, self.height);
        }
        clouds
    }

    fn record_first_phase(&self, segments: &mut Vec<FrameSegment>, group_count: u32)
        ensures
            frame_steps(final(segments)@) == frame_steps(old(segments)@) + self.first_phase(
                group_count,
            ),
    {
        let ghost before = frame_steps(segments@);
        record_one(segments, self.vis_buffer.clear());
        record(segments, self.dispatch_lists.clear());
        record_one(segments, self.cull_pass.clear_phase2());
        assert(frame_steps(segments@) =~= before + recorded(cleared()));
        if self.scene_bound {
            record_one(
                segments,
                self.cull_pass.encode(
                    self.hw_raster.create_frame_bind_group(),
                    self.cull_pass.create_cull_bind_group(),
                    self.cull_pass.create_dispatch_bind_group(TexView::HzbFull),
                    group_count,
                ),
            );
        }
        record_one(segments, self.dispatch_lists.prepare_indirect());
        if self.scene_bound {
            record_one(
                segments,
                self.hw_raster.encode(
                    self.hw_raster.create_frame_bind_group(),
                    self.hw_raster.create_mesh_bind_group(),
                    self.hw_raster.create_dispatch_bind_group(),
                ),
            );
        }
        assert(frame_steps(segments@) =~= before + self.first_phase(group_count));
    }

    fn record_pyramid(&self, segments: &mut Vec<FrameSegment>)
        ensures
            frame_steps(final(segments)@) == frame_steps(old(segments)@) + self.pyramid(),
    {
        record(segments, self.hzb_pass.encode(TexView::VisibilityDepth, self.width, self.height));
    }

    fn record_second_phase(&self, segments: &mut Vec<FrameSegment>, rejects: u32)
        ensures
            frame_steps(final(segments)@) == frame_steps(old(segments)@) + self.second_phase(rejects),
    {
        let ghost before = frame_steps(segments@);
        record_one(segments, self.dispatch_lists.clear_hw_count());
        if self.scene_bound {
            record(
                segments,
                self.cull_pass.encode_phase2(
                    self.hw_raster.create_frame_bind_group(),
                    self.cull_pass.create_cull_bind_group(),
                    self.cull_pass.create_phase2_dispatch_bind_group(TexView::HzbFull),
                    rejects,
                ),
            );
        }
        record_one(segments, self.dispatch_lists.prepare_indirect());
        if self.scene_bound {
            record_one(
                segments,
                self.hw_raster.encode_phase2(
                    self.hw_raster.create_frame_bind_group(),
                    self.hw_raster.create_mesh_bind_group(),
                    self.hw_raster.create_dispatch_bind_group(),
                ),
            );
        }
        assert(frame_steps(segments@) =~= before + self.second_phase(rejects));
    }

    fn record_shading(&self, segments: &mut Vec<FrameSegment>)
        ensures
            frame_steps(final(segments)@) == frame_steps(old(segments)@) + self.shading(),
    {
        let ghost before = frame_steps(segments@);
        if self.scene_bound {
            bring(segments, ExternalPass::Material);
        }
        if self.character_visible {
            record_one(
                segments,
                self.forward_character.encode(
                    self.forward_character.create_scene_bind_group(Buffer::LightingUniforms),
                    TexView::SceneColor,
                    TexView::VisibilityDepth,
                ),
            );
        }
        assert(frame_steps(segments@) =~= before + self.shading());
    }

    fn record_effects(&self, segments: &mut Vec<FrameSegment>, gi_intensity: Scalar)
        ensures
            frame_steps(final(segments)@) == frame_steps(old(segments)@) + self.effects(gi_intensity),
    {
        let ghost before = frame_steps(segments@);
        if Scalar::from_bits(GI_THRESHOLD_BITS).less(gi_intensity) {
            if let Some(ssgi) = &self.ssgi_pass {
                record(
                    segments,
                    ssgi.execute(
                        TexView::MaterialNormal,
                        TexView::VisibilityDepth,
                        TexView::SceneColor,
                    ),
                );
            }
        }
        if let Some(ssao) = &self.ssao_pass {
            record(segments, ssao.execute(TexView::MaterialNormal, TexView::VisibilityDepth));
        }
        record(
            segments,
            self.sun_shaft_pass.encode(TexView::VisibilityDepth, TexView::SceneColor),
        );
        if !self.art_direction_outline_skip {
            bring(segments, ExternalPass::Outline);
        }
        assert(frame_steps(segments@) =~= before + self.effects(gi_intensity));
    }

    fn record_sky(
        &mut self,
        segments: &mut Vec<FrameSegment>,
        settings: &SceneSettings,
        input: &FrameInputs,
    )
        requires
            old(self).wf(),
        ensures
            ({
                let clouds = fitted_clouds(
                    old(self).cloud_pass,
                    settings.cloud_profile.resolution,
                    old(self).width,
                    old(self).height,
                );
                &&& frame_steps(final(segments)@) == frame_steps(old(segments)@) + old(
                    self,
                ).sky_stage(clouds)
                &&& *final(self) == (VisbufPipeline {
                    cloud_pass: clouds.after_frame(input.camera.view_proj, input.elapsed_secs),
                    ..*old(self)
                })
                &&& final(self).wf()
            }),
    {
        let ghost before = frame_steps(segments@);
        bring(segments, ExternalPass::Sky);
        self.cloud_pass = self.fit_clouds(settings.cloud_profile.resolution);
        let ghost clouds = self.cloud_pass;
        self.cloud_pass.write_uniforms(input.elapsed_secs);
        record(
            segments,
            self.cloud_pass.encode(
                TexView::SceneColor,
                TexView::VisibilityDepth,
                input.camera.view_proj,
                TexView::SkyView,
                Sampler::SkyLut,
            ),
        );
        assert(frame_steps(segments@) =~= before + old(self).sky_stage(clouds));
    }

    fn record_finish(&mut self, segments: &mut Vec<FrameSegment>, input: &FrameInputs)
        requires
            old(self).wf(),
        ensures
            frame_steps(final(segments)@) == frame_steps(old(segments)@) + old(self).finish(),
            *final(self) == (VisbufPipeline {
                taa_pass: blended(old(self).taa_pass, input.camera.view_proj, input.jitter),
                ..*old(self)
            }),
            final(self).wf(),
    {
        let ghost before = frame_steps(segments@);
        if let Some(bloom) = &self.bloom_pass {
            record(segments, bloom.execute(TexView::SceneColor, TexView::SceneColor));
        }
        match self.taa_pass {
            Some(taa) => {
                let mut next = taa;
                record(
                    segments,
                    next.encode(
                        TexView::VisibilityDepth,
                        TexView::SceneColor,
                        input.camera.view_proj,
                        input.jitter,
                    ),
                );
                self.taa_pass = Some(next);
            },
            None => {},
        }
        assert(frame_steps(segments@) =~= before + old(self).finish());
    }

    /// The colour that is tone mapped.
    fn tonemap_source(&self) -> (view: TexView)
        ensures
            view == self.source(),
    {
        match &self.taa_pass {
            Some(taa) => taa.output_view(),
            None => TexView::SceneColor,
        }
    }

    fn tonemap_to(&self, target: TexView) -> (pass: ExternalPass)
        ensures
            pass == self.tonemap(target),
    {
        let ao = match &self.ssao_pass {
            Some(ssao) => Some(ssao.ao_view()),
            None => None,
        };
        ExternalPass::Tonemap { source: self.tonemap_source(), ao, target }
    }

    /// Records a frame.
    pub fn render(
        &mut self,
        scene: &RuntimeSceneGpu,
        settings: &SceneSettings,
        input: &FrameInputs,
    ) -> (frame: RecordedFrame)
        requires
            old(self).wf(),
            scene.dag.groups@.len() <= u32::MAX,
            acyclic(scene.dag.groups@),
            input.projected_errors@.len() == scene.dag.groups@.len(),
            forall|i: int|
                0 <= i < scene.shadow_opaque_list@.len() ==> scene.shadow_opaque_list@[i]
                    < scene.shadow_meshes@.len(),
        ensures
            final(self).wf(),
            *final(self) == old(self).after_frame(*settings, *input),
            old(self).draws(frame, *scene, *settings, *input),
    {
        let ghost start = *self;
        let queue = self.cull_pass.cpu_dag_cut_adaptive(
            &scene.dag,
            input.projected_errors.as_slice(),
            input.error_threshold_px,
        );
        let group_count: u32 = queue.count;
        let uploads = self.frame_uploads(scene, settings, input, queue.uploads);
        let meshlets: usize = scene.dag.total_meshlet_count();
        let rejects: u32 = if meshlets <= MAX_MESHLETS as usize {
            meshlets as u32
        } else {
            MAX_MESHLETS
        };

        let mut segments: Vec<FrameSegment> = Vec::new();
        record(
            &mut segments,
            self.shadow_pass.encode(
                scene.shadow_meshes.len(),
                scene.shadow_opaque_list.as_slice(),
            ),
        );
        assert(frame_steps(segments@) =~= start.shadow_stage(scene.shadow_opaque_list@));
        self.record_first_phase(&mut segments, group_count);
        self.record_pyramid(&mut segments);
        self.hzb_ready = true;
        self.record_second_phase(&mut segments, rejects);
        self.record_shading(&mut segments);
        self.record_pyramid(&mut segments);
        self.record_sky(&mut segments, settings, input);
        self.record_effects(&mut segments, settings.gi_intensity);
        self.record_finish(&mut segments, input);

        self.last_manual_exposure = settings.exposure;
        self.last_dt =
        input.elapsed_delta.max(Scalar::from_bits(0)).min(Scalar::from_bits(LONGEST_DT_BITS));
        self.last_elapsed = input.elapsed_secs;
        self.frame_index = self.frame_index.wrapping_add(1);
        let ghost before_tonemap = frame_steps(segments@);
        assert(before_tonemap == start.drawing(*scene, *settings, *input));
        bring(&mut segments, self.tonemap_to(TexView::Surface));
        assert(frame_steps(segments@) =~= before_tonemap.push(
            FrameStep::External(self.tonemap(TexView::Surface)),
        ));
        RecordedFrame { uploads, segments, group_count }
    }

    /// Plans the reading back of the frame that was drawn last: it is tone mapped once more, to an
    /// image that can be copied.
    pub fn capture_frame(&self, surface_format: TextureFormat) -> (plan: CapturePlan)
        ensures
            self.captures(plan, surface_format),
    {
        CapturePlan {
            texture: capture_target(self.width, self.height, surface_format),
            tonemap: self.tonemap_to(TexView::Capture),
            exposure: self.last_manual_exposure,
            dt: self.last_dt,
            readback: ReadbackPlan::new(self.width, self.height),
        }
    }
}

// ---------------------------------------------------------------------------------------------
// Laws
// ---------------------------------------------------------------------------------------------

/// Every recorded command of the steps can be carried out.
pub open spec fn all_recorded_valid(s: Seq<FrameStep>) -> bool {
    forall|i: int| 0 <= i < s.len() && (#[trigger] s[i]) is Recorded ==> valid(s[i]->Recorded_0)
}

proof fn lemma_recorded_valid(commands: Seq<Step>)
    requires
        all_valid(commands),
    ensures
        all_recorded_valid(recorded(commands)),
{
    assert forall|i: int| 0 <= i < commands.len() implies valid(
        (#[trigger] recorded(commands)[i])->Recorded_0,
    ) by {
        assert(valid(commands[i]));
    }
}

proof fn lemma_one_valid(step: Step)
    requires
        valid(step),
    ensures
        all_recorded_valid(recorded(seq![step])),
{
    assert(all_valid(seq![step]));
    lemma_recorded_valid(seq![step]);
}

proof fn lemma_join_valid(a: Seq<FrameStep>, b: Seq<FrameStep>)
    requires
        all_recorded_valid(a),
        all_recorded_valid(b),
    ensures
        all_recorded_valid(a + b),
{
    assert forall|i: int| 0 <= i < (a + b).len() && (#[trigger] (a + b)[i]) is Recorded implies valid(
        (a + b)[i]->Recorded_0,
    ) by {
        if i < a.len() {
            assert((a + b)[i] == a[i]);
        } else {
            assert((a + b)[i] == b[i - a.len()]);
        }
    }
}

proof fn lemma_phases_valid(pipeline: VisbufPipeline, count: u32, rejects: u32)
    ensures
        all_recorded_valid(pipeline.first_phase(count)),
        all_recorded_valid(pipeline.second_phase(rejects)),
{
    cull_commands_are_valid(count);
    cull_commands_are_valid(rejects);
    raster_commands_are_valid(Load::Clear);
    raster_commands_are_valid(Load::Keep);
    assert(all_valid(cleared()));
    lemma_recorded_valid(cleared());
    let cull = cull_step(
        Pipeline::MeshletCull,
        frame_group(),
        cull_group(),
        dispatch_group(TexView::HzbFull),
        count,
    );
    let clear = Step::Clear { buffer: Buffer::HwDispatchCount };
    lemma_one_valid(cull);
    lemma_one_valid(clear);
    lemma_one_valid(prepare_indirect_step());
    lemma_one_valid(raster_step(frame_group(), mesh_group(), hw_dispatch_group(), Load::Clear));
    lemma_one_valid(raster_step(frame_group(), mesh_group(), hw_dispatch_group(), Load::Keep));
    assert(all_valid(second_cull(rejects)));
    lemma_recorded_valid(second_cull(rejects));
    let a1 = recorded(cleared());
    let a2 = provided(pipeline.scene_bound, recorded(seq![cull]));
    let a3 = recorded(seq![prepare_indirect_step()]);
    let a4 = provided(
        pipeline.scene_bound,
        recorded(seq![raster_step(frame_group(), mesh_group(), hw_dispatch_group(), Load::Clear)]),
    );
    lemma_join_valid(a1, a2);
    lemma_join_valid(a1 + a2, a3);
    lemma_join_valid(a1 + a2 + a3, a4);
    let b1 = recorded(seq![clear]);
    let b2 = provided(pipeline.scene_bound, recorded(second_cull(rejects)));
    let b4 = provided(
        pipeline.scene_bound,
        recorded(seq![raster_step(frame_group(), mesh_group(), hw_dispatch_group(), Load::Keep)]),
    );
    lemma_join_valid(b1, b2);
    lemma_join_valid(b1 + b2, a3);
    lemma_join_valid(b1 + b2 + a3, b4);
}

proof fn lemma_effects_valid(pipeline: VisbufPipeline, gi: Scalar)
    ensures
        all_recorded_valid(pipeline.effects(gi)),
        all_recorded_valid(pipeline.finish()),
{
    let normal = TexView::MaterialNormal;
    let depth = TexView::VisibilityDepth;
    let scene = TexView::SceneColor;
    let ssgi = pipeline.ssgi_pass->0;
    let ssao = pipeline.ssao_pass->0;
    let taa = pipeline.taa_pass->0;
    let sizes = pipeline.bloom_pass->0.sizes();
    ssgi_commands_are_valid(ssgi, normal, depth, scene);
    lemma_recorded_valid(ssgi.frame_steps(normal, depth, scene));
    ssao_commands_are_valid(ssao, normal, depth);
    lemma_recorded_valid(ssao.frame_steps(normal, depth));
    sun_shaft_commands_are_valid(pipeline.sun_shaft_pass, depth, scene);
    lemma_recorded_valid(pipeline.sun_shaft_pass.frame_steps(depth, scene));
    bloom_commands_are_valid(sizes, scene, scene);
    lemma_recorded_valid(bloom_steps(sizes, scene, scene));
    taa_commands_are_valid(taa, depth, scene);
    lemma_recorded_valid(taa.frame_steps(depth, scene));
    let e1 = provided(
        pipeline.lights_globally(gi),
        recorded(ssgi.frame_steps(normal, depth, scene)),
    );
    let e2 = provided(pipeline.ssao_pass is Some, recorded(ssao.frame_steps(normal, depth)));
    let e3 = recorded(pipeline.sun_shaft_pass.frame_steps(depth, scene));
    let e4 = provided(
        !pipeline.art_direction_outline_skip,
        seq![FrameStep::External(ExternalPass::Outline)],
    );
    lemma_join_valid(e1, e2);
    lemma_join_valid(e1 + e2, e3);
    lemma_join_valid(e1 + e2 + e3, e4);
    let f1 = provided(pipeline.bloom_pass is Some, recorded(bloom_steps(sizes, scene, scene)));
    let f2 = provided(pipeline.taa_pass is Some, recorded(taa.frame_steps(depth, scene)));
    lemma_join_valid(f1, f2);
}

/// Every command of a frame can be carried out, whatever the state of the pipeline.
pub proof fn frame_commands_are_valid(
    pipeline: VisbufPipeline,
    scene: RuntimeSceneGpu,
    settings: SceneSettings,
    input: FrameInputs,
)
    ensures
        all_recorded_valid(pipeline.drawing(scene, settings, input)),
{
    let rejects = most_rejects(scene.dag.meshlets@.len());
    let count = queued(pipeline.cut_of(scene, input)).len() as u32;
    let clouds = fitted_clouds(
        pipeline.cloud_pass,
        settings.cloud_profile.resolution,
        pipeline.width,
        pipeline.height,
    );
    let list = scene.shadow_opaque_list@;
    shadow_commands_are_valid(pipeline.shadow_pass.dyn_alignment, list);
    lemma_recorded_valid(shadow_steps(pipeline.shadow_pass.dyn_alignment, list));
    lemma_phases_valid(pipeline, count, rejects);
    pyramid_commands_are_valid(
        TexView::VisibilityDepth,
        pipeline.width,
        pipeline.height,
        pipeline.hzb_pass.mip_count,
    );
    lemma_recorded_valid(
        pyramid_steps(
            TexView::VisibilityDepth,
            pipeline.width,
            pipeline.height,
            pipeline.hzb_pass.mip_count,
        ),
    );
    character_command_is_valid();
    let character = character_step(
        scene_group(Buffer::LightingUniforms),
        TexView::SceneColor,
        TexView::VisibilityDepth,
    );
    lemma_one_valid(character);
    let material = provided(
        pipeline.scene_bound,
        seq![FrameStep::External(ExternalPass::Material)],
    );
    lemma_join_valid(material, provided(pipeline.character_visible, recorded(seq![character])));
    cloud_commands_are_valid(
        clouds,
        TexView::SceneColor,
        TexView::VisibilityDepth,
        TexView::SkyView,
        Sampler::SkyLut,
    );
    let cloud_steps = clouds.frame_steps(
        TexView::SceneColor,
        TexView::VisibilityDepth,
        TexView::SkyView,
        Sampler::SkyLut,
    );
    lemma_recorded_valid(cloud_steps);
    lemma_join_valid(seq![FrameStep::External(ExternalPass::Sky)], recorded(cloud_steps));
    lemma_effects_valid(pipeline, settings.gi_intensity);
    let s1 = pipeline.shadow_stage(list);
    let s2 = s1 + pipeline.first_phase(count);
    let s3 = s2 + pipeline.pyramid();
    let s4 = s3 + pipeline.second_phase(rejects);
    let s5 = s4 + pipeline.shading();
    let s6 = s5 + pipeline.pyramid();
    let s7 = s6 + pipeline.sky_stage(clouds);
    let s8 = s7 + pipeline.effects(settings.gi_intensity);
    lemma_join_valid(s1, pipeline.first_phase(count));
    lemma_join_valid(s2, pipeline.pyramid());
    lemma_join_valid(s3, pipeline.second_phase(rejects));
    lemma_join_valid(s4, pipeline.shading());
    lemma_join_valid(s5, pipeline.pyramid());
    lemma_join_valid(s6, pipeline.sky_stage(clouds));
    lemma_join_valid(s7, pipeline.effects(settings.gi_intensity));
    lemma_join_valid(s8, pipeline.finish());
}

/// What is tone mapped after a frame is the blend that this frame wrote, or the scene's colour where
/// frames are not blended.
pub proof fn tone_mapping_reads_the_newest_colour(
    before: VisbufPipeline,
    settings: SceneSettings,
    input: FrameInputs,
)
    ensures
        before.taa_pass matches Some(taa) ==> taa.frame_steps(
            TexView::VisibilityDepth,
            TexView::SceneColor,
        )[1]->Dispatch_groups[0].bindings[5].resource == Resource::View(
            before.after_frame(settings, input).source(),
        ),
        before.taa_pass is None ==> before.after_frame(settings, input).source()
            == TexView::SceneColor,
{
}

/// A step in time is a number between zero and a quarter, whatever the clock says; one in that range
/// is kept.
pub proof fn time_steps_are_limited(delta: Scalar)
    ensures
        !limited_dt(delta).is_nan(),
        0 <= limited_dt(delta).rank() <= (Scalar { bits: LONGEST_DT_BITS }).rank(),
        !delta.is_nan() && 0 < delta.rank() <= (Scalar { bits: LONGEST_DT_BITS }).rank()
            ==> limited_dt(delta) == delta,
{
}

/// The target of a frame is created as its view needs it, where the screen has any pixels.
pub proof fn scene_color_fits_its_view(width: u32, height: u32)
    requires
        width > 0,
        height > 0,
    ensures
        described(scene_color_target(width, height)),
{
}

} // verus!
