//! What every frame holds, step by step.

use vstd::arithmetic::power2::pow2;
use vstd::prelude::*;

use crate::dag_cut::cut;
use crate::pipeline::bloom_pass::{
    bloom_has_five_levels, bloom_spreads_over_the_levels, bloom_steps,
};
use crate::pipeline::cloud_pass::clouds_are_laid_over_the_scene;
use crate::pipeline::cull_pass::{cull_queues, culls, hidden_meshlets_are_culled_again, queued};
use crate::pipeline::forward_character::character_is_drawn_over_the_scene;
use crate::pipeline::gpu::{
    binds, computes, overlays, Attachment, Buffer, Command, Draw, Layout, Load, Pipeline, Resource,
    Sampler, Step, TexView,
};
use crate::pipeline::hw_raster_pass::{counts_instances, kept_meshlets_are_rasterized, rasterizes};
use crate::pipeline::hzb_pass::{pyramid_levels_follow_each_other, pyramid_steps};
use crate::pipeline::shadow_pass::{casts, every_cascade_draws_every_mesh, shadow_steps};
use crate::pipeline::ssao_pass::ssao_smooths_what_it_finds;
use crate::pipeline::ssgi_pass::ssgi_adds_what_it_gathers;
use crate::pipeline::sun_shaft_pass::sun_shafts_are_added;
use crate::pipeline::taa_pass::taa_blends_with_the_other_history;
use crate::pipeline::visbuf_pipeline::{
    fitted_clouds, frame_steps, most_rejects, segment_steps, ExternalPass, FrameInputs,
    FrameSegment, FrameStep, RecordedFrame, VisbufPipeline,
};
use crate::scalar::Scalar;
use crate::scene::settings::{CloudResolution, SceneSettings};
use crate::scene_upload::RuntimeSceneGpu;

verus! {

/// So many where the condition holds, else none.
pub open spec fn times(condition: bool, n: int) -> int {
    if condition {
        n
    } else {
        0
    }
}

/// Where each stage stands in a frame.
#[verifier::rlimit(80)]
#[verifier::spinoff_prover]
proof fn lemma_places(
    p: VisbufPipeline,
    scene: RuntimeSceneGpu,
    settings: SceneSettings,
    input: FrameInputs,
)
    requires
        p.wf(),
    ensures
        ({
            let d = p.drawing(scene, settings, input);
            let m = p.hzb_pass.mip_count as int;
            let pyramid = 10 + times(p.scene_bound, 2);
            let second = pyramid + m;
            let shading = second + 2 + times(p.scene_bound, 1) + times(
                p.scene_bound && scene.dag.meshlets@.len() > 0,
                1,
            );
            let again = shading + times(p.scene_bound, 1) + times(p.character_visible, 1);
            let sky = again + m;
            let effects = sky + 4;
            let gi = p.ssgi_pass is Some && (Scalar { bits: 0x3A83_126F }).lt(settings.gi_intensity);
            let bloom = effects + times(gi, 3) + times(p.ssao_pass is Some, 2) + 2 + times(
                !p.art_direction_outline_skip,
                1,
            );
            let taa = bloom + times(p.bloom_pass is Some, 10);
            let end = taa + times(p.taa_pass is Some, 2);
            let rejects = most_rejects(scene.dag.meshlets@.len());
            let count = queued(p.cut_of(scene, input)).len() as u32;
            let clouds = fitted_clouds(
                p.cloud_pass,
                settings.cloud_profile.resolution,
                p.width,
                p.height,
            );
            let s0 = p.shadow_stage(scene.shadow_opaque_list@);
            let s1 = p.first_phase(count);
            let s2 = p.pyramid();
            let s3 = p.second_phase(rejects);
            let s4 = p.shading();
            let s6 = p.sky_stage(clouds);
            let s7 = p.effects(settings.gi_intensity);
            let s8 = p.finish();
            &&& d.len() == end
            &&& s0.len() == 4
            &&& s1.len() == pyramid - 4
            &&& s2.len() == m
            &&& s3.len() == shading - second
            &&& s4.len() == again - shading
            &&& s6.len() == 4
            &&& s7.len() == bloom - effects
            &&& s8.len() == end - bloom
            &&& forall|i: int| 0 <= i < s0.len() ==> d[i] == #[trigger] s0[i]
            &&& forall|i: int| 0 <= i < s1.len() ==> d[4 + i] == #[trigger] s1[i]
            &&& forall|i: int| 0 <= i < s2.len() ==> d[pyramid + i] == #[trigger] s2[i]
            &&& forall|i: int| 0 <= i < s3.len() ==> d[second + i] == #[trigger] s3[i]
            &&& forall|i: int| 0 <= i < s4.len() ==> d[shading + i] == #[trigger] s4[i]
            &&& forall|i: int| 0 <= i < s2.len() ==> d[again + i] == #[trigger] s2[i]
            &&& forall|i: int| 0 <= i < s6.len() ==> d[sky + i] == #[trigger] s6[i]
            &&& forall|i: int| 0 <= i < s7.len() ==> d[effects + i] == #[trigger] s7[i]
            &&& forall|i: int| 0 <= i < s8.len() ==> d[bloom + i] == #[trigger] s8[i]
        }),
{
}

/// A frame starts with the shadows: each of the four cascades draws every mesh of the scene's list.
#[verifier::rlimit(60)]
#[verifier::spinoff_prover]
pub proof fn frames_start_with_all_shadows(
    p: VisbufPipeline,
    scene: RuntimeSceneGpu,
    settings: SceneSettings,
    input: FrameInputs,
    cascade: int,
)
    requires
        p.wf(),
        0 <= cascade < 4,
    ensures
        ({
            let d = p.drawing(scene, settings, input);
            &&& d.len() > 4
            &&& d[cascade] is Recorded
            &&& casts(
                d[cascade]->Recorded_0,
                cascade,
                p.shadow_pass.dyn_alignment * cascade,
                scene.shadow_opaque_list@,
            )
        }),
{
    lemma_places(p, scene, settings, input);
    every_cascade_draws_every_mesh(p.shadow_pass, scene.shadow_opaque_list@, cascade);
    let all = p.shadow_stage(scene.shadow_opaque_list@);
    assert(all[cascade] == FrameStep::Recorded(
        shadow_steps(p.shadow_pass.dyn_alignment, scene.shadow_opaque_list@)[cascade],
    ));
}

/// A recorded step of a frame is a command of one of its segments.
proof fn lemma_command_of(segments: Seq<FrameSegment>, k: int) -> (at: (int, int))
    requires
        0 <= k < frame_steps(segments).len(),
        frame_steps(segments)[k] is Recorded,
    ensures
        0 <= at.0 < segments.len(),
        segments[at.0] matches FrameSegment::Recorded(commands) && 0 <= at.1 < commands@.len()
            && commands@[at.1]@ == frame_steps(segments)[k]->Recorded_0,
    decreases segments.len(),
{
    let rest = segments.drop_last();
    let before = frame_steps(rest).len() as int;
    if k < before {
        assert(frame_steps(segments)[k] == frame_steps(rest)[k]);
        lemma_command_of(rest, k)
    } else {
        assert(frame_steps(segments)[k] == segment_steps(segments.last())[k - before]);
        (segments.len() - 1, k - before)
    }
}

/// Whatever is rendered, every mesh of the scene's list of shadow casters is drawn into every cascade:
/// the frame holds a command that draws it into the cascade's layer, after clearing that.
pub proof fn every_mesh_casts_into_every_cascade(
    p: VisbufPipeline,
    frame: RecordedFrame,
    scene: RuntimeSceneGpu,
    settings: SceneSettings,
    input: FrameInputs,
    i: int,
    cascade: u32,
) -> (at: (int, int))
    requires
        p.wf(),
        p.draws(frame, scene, settings, input),
        0 <= i < scene.shadow_opaque_list@.len(),
        cascade < 4,
    ensures
        0 <= at.0 < frame.segments@.len(),
        frame.segments@[at.0] matches FrameSegment::Recorded(commands) && 0 <= at.1
            < commands@.len() && (commands@[at.1] matches Command::Render {
            pipeline,
            depth,
            draws,
            ..
        } && pipeline == Pipeline::Shadow && depth == Some(
            Attachment { view: TexView::ShadowCascade(cascade), load: Load::Clear },
        ) && draws@.contains(Draw::ShadowMesh(scene.shadow_opaque_list@[i]))),
{
    frames_start_with_all_shadows(p, scene, settings, input, cascade as int);
    let all = frame_steps(frame.segments@);
    assert(all[cascade as int] == p.drawing(scene, settings, input)[cascade as int]);
    let at = lemma_command_of(frame.segments@, cascade as int);
    let step = all[cascade as int]->Recorded_0;
    assert(step->Render_draws[i] == Draw::ShadowMesh(scene.shadow_opaque_list@[i]));
    at
}

/// After the shadows everything that is counted starts at zero. Then, where a scene is bound, the
/// groups of the cut are culled against the pyramid of the frame before, at most 16384 of them, and
/// what they kept is drawn afresh.
#[verifier::rlimit(60)]
#[verifier::spinoff_prover]
pub proof fn frames_draw_what_is_not_hidden(
    p: VisbufPipeline,
    scene: RuntimeSceneGpu,
    settings: SceneSettings,
    input: FrameInputs,
)
    requires
        p.wf(),
    ensures
        ({
            let d = p.drawing(scene, settings, input);
            let c = cut(scene.dag.groups@, input.projected_errors@, input.error_threshold_px).len();
            let last = 9 + times(p.scene_bound, 1);
            &&& d[4] == FrameStep::Recorded(Step::Clear { buffer: Buffer::VisibilityStorage })
            &&& d[5] == FrameStep::Recorded(Step::Clear { buffer: Buffer::HwDispatchCount })
            &&& d[6] == FrameStep::Recorded(Step::Clear { buffer: Buffer::SwDispatchCount })
            &&& d[7] is Recorded
            &&& counts_instances(d[7]->Recorded_0)
            &&& d[8] == FrameStep::Recorded(Step::Clear { buffer: Buffer::Phase2Count })
            &&& p.scene_bound ==> {
            &&& d[9] is Recorded
            &&& culls(
                d[9]->Recorded_0,
                Pipeline::MeshletCull,
                cull_queues(
                    Buffer::GroupQueue,
                    Buffer::GroupQueueCount,
                    TexView::HzbFull,
                    Buffer::Phase2Queue,
                    Buffer::Phase2Count,
                ),
                if c <= 16384 {
                    c as int
                } else {
                    16384
                },
            )
            }
            &&& d[last] is Recorded
            &&& counts_instances(d[last]->Recorded_0)
            &&& p.scene_bound ==> {
            &&& d[last + 1] is Recorded
            &&& rasterizes(d[last + 1]->Recorded_0, Load::Clear)
            }
        }),
{
    lemma_places(p, scene, settings, input);
    let n = queued(p.cut_of(scene, input)).len() as u32;
    hidden_meshlets_are_culled_again(TexView::HzbFull, n);
    kept_meshlets_are_rasterized(Load::Clear);
    let s = p.first_phase(n);
    assert(p.drawing(scene, settings, input)[4] == s[0]);
    assert(p.drawing(scene, settings, input)[5] == s[1]);
    assert(p.drawing(scene, settings, input)[6] == s[2]);
    assert(p.drawing(scene, settings, input)[7] == s[3]);
    assert(p.drawing(scene, settings, input)[8] == s[4]);
    assert(p.drawing(scene, settings, input)[9] == s[5]);
    if p.scene_bound {
        assert(p.drawing(scene, settings, input)[10] == s[6]);
        assert(p.drawing(scene, settings, input)[11] == s[7]);
    }
}

/// The pyramid is made twice, level by level, from the depth of what has been drawn: before the second
/// phase and after the character.
#[verifier::rlimit(60)]
#[verifier::spinoff_prover]
pub proof fn frames_make_the_pyramid_twice(
    p: VisbufPipeline,
    scene: RuntimeSceneGpu,
    settings: SceneSettings,
    input: FrameInputs,
    mip: u32,
)
    requires
        p.wf(),
        mip < p.hzb_pass.mip_count,
    ensures
        ({
            let d = p.drawing(scene, settings, input);
            let m = p.hzb_pass.mip_count as int;
            let pyramid = 10 + times(p.scene_bound, 2);
            let second = pyramid + m;
            let shading = second + 2 + times(p.scene_bound, 1) + times(
                p.scene_bound && scene.dag.meshlets@.len() > 0,
                1,
            );
            let again = shading + times(p.scene_bound, 1) + times(p.character_visible, 1);
            let w = p.width as int / pow2(mip as nat) as int;
            let h = p.height as int / pow2(mip as nat) as int;
            &&& d[pyramid + mip] is Recorded
            &&& mip == 0 ==> computes(
                d[pyramid]->Recorded_0,
                Pipeline::HzbDepthCopy,
                Layout::HzbDepthCopy,
                seq![
                    Resource::View(TexView::VisibilityDepth),
                    Resource::View(TexView::Hzb(0)),
                ],
                p.width as int,
                p.height as int,
            )
            &&& mip > 0 ==> computes(
                d[pyramid + mip]->Recorded_0,
                Pipeline::HzbBuild,
                Layout::HzbBuild,
                seq![
                    Resource::View(TexView::Hzb((mip - 1) as u32)),
                    Resource::View(TexView::Hzb(mip)),
                ],
                if w == 0 {
                    1
                } else {
                    w
                },
                if h == 0 {
                    1
                } else {
                    h
                },
            )
            &&& d[again + mip] is Recorded
            &&& mip == 0 ==> computes(
                d[again]->Recorded_0,
                Pipeline::HzbDepthCopy,
                Layout::HzbDepthCopy,
                seq![
                    Resource::View(TexView::VisibilityDepth),
                    Resource::View(TexView::Hzb(0)),
                ],
                p.width as int,
                p.height as int,
            )
            &&& mip > 0 ==> computes(
                d[again + mip]->Recorded_0,
                Pipeline::HzbBuild,
                Layout::HzbBuild,
                seq![
                    Resource::View(TexView::Hzb((mip - 1) as u32)),
                    Resource::View(TexView::Hzb(mip)),
                ],
                if w == 0 {
                    1
                } else {
                    w
                },
                if h == 0 {
                    1
                } else {
                    h
                },
            )
        }),
{
    lemma_places(p, scene, settings, input);
    let all = pyramid_steps(TexView::VisibilityDepth, p.width, p.height, p.hzb_pass.mip_count);
    pyramid_levels_follow_each_other(
        TexView::VisibilityDepth,
        p.width,
        p.height,
        p.hzb_pass.mip_count,
        mip,
    );
    let s = p.pyramid();
    assert(s[mip as int] == FrameStep::Recorded(all[mip as int]));
}

/// The second phase starts with an empty list: what the first one hid is culled against the new
/// pyramid, for at most 65536 meshlets of the scene, and what is kept is drawn over what is there.
#[verifier::rlimit(60)]
#[verifier::spinoff_prover]
pub proof fn frames_draw_what_is_no_longer_hidden(
    p: VisbufPipeline,
    scene: RuntimeSceneGpu,
    settings: SceneSettings,
    input: FrameInputs,
)
    requires
        p.wf(),
    ensures
        ({
            let d = p.drawing(scene, settings, input);
            let m = p.hzb_pass.mip_count as int;
            let pyramid = 10 + times(p.scene_bound, 2);
            let second = pyramid + m;
            let shading = second + 2 + times(p.scene_bound, 1) + times(
                p.scene_bound && scene.dag.meshlets@.len() > 0,
                1,
            );
            let n = scene.dag.meshlets@.len();
            let last = shading - 1 - times(p.scene_bound, 1);
            &&& d[second] == FrameStep::Recorded(Step::Clear { buffer: Buffer::HwDispatchCount })
            &&& p.scene_bound && n > 0 ==> {
            &&& d[second + 1] is Recorded
            &&& culls(
                d[second + 1]->Recorded_0,
                Pipeline::MeshletCullPhase2,
                cull_queues(
                    Buffer::Phase2Queue,
                    Buffer::Phase2Count,
                    TexView::HzbFull,
                    Buffer::Phase2ScratchList,
                    Buffer::Phase2ScratchCount,
                ),
                if n <= 65536 {
                    n as int
                } else {
                    65536
                },
            )
            }
            &&& d[last] is Recorded
            &&& counts_instances(d[last]->Recorded_0)
            &&& p.scene_bound ==> {
            &&& d[last + 1] is Recorded
            &&& rasterizes(d[last + 1]->Recorded_0, Load::Keep)
            }
        }),
{
    lemma_places(p, scene, settings, input);
    let n = most_rejects(scene.dag.meshlets@.len());
    hidden_meshlets_are_culled_again(TexView::HzbFull, n);
    kept_meshlets_are_rasterized(Load::Keep);
    let s = p.second_phase(n);
    assert(s[0] == FrameStep::Recorded(Step::Clear { buffer: Buffer::HwDispatchCount }));
    assert(s[s.len() - 1] == s.last());
    assert(s[1] == s[1]);
    assert(s[2] == s[2]);
    assert(s[3] == s[3]);
}

/// Then visible triangles are shaded, where a scene is bound, and the character is drawn over them,
/// where it is visible.
#[verifier::rlimit(60)]
#[verifier::spinoff_prover]
pub proof fn frames_shade_what_was_drawn(
    p: VisbufPipeline,
    scene: RuntimeSceneGpu,
    settings: SceneSettings,
    input: FrameInputs,
)
    requires
        p.wf(),
    ensures
        ({
            let d = p.drawing(scene, settings, input);
            let m = p.hzb_pass.mip_count as int;
            let pyramid = 10 + times(p.scene_bound, 2);
            let second = pyramid + m;
            let shading = second + 2 + times(p.scene_bound, 1) + times(
                p.scene_bound && scene.dag.meshlets@.len() > 0,
                1,
            );
            let again = shading + times(p.scene_bound, 1) + times(p.character_visible, 1);
            &&& p.scene_bound ==> {
            &&& d[shading] == FrameStep::External(ExternalPass::Material)
            }
            &&& p.character_visible ==> {
            &&& d[again - 1] matches FrameStep::Recorded(Step::Render {
                pipeline,
                groups,
                offset,
                color,
                depth,
                draws,
            }) && pipeline == Pipeline::ForwardCharacter && groups.len() == 2 && binds(
                groups[0],
                Layout::CharacterScene,
                seq![Resource::Buffer(Buffer::LightingUniforms)],
            ) && binds(
                groups[1],
                Layout::CharacterModel,
                seq![Resource::Buffer(Buffer::CharacterModel)],
            ) && color == Some(Attachment { view: TexView::SceneColor, load: Load::Keep }) && depth
                == Some(Attachment { view: TexView::VisibilityDepth, load: Load::Keep }) && draws
                == seq![Draw::Character] && offset == 0
            }
        }),
{
    lemma_places(p, scene, settings, input);
    character_is_drawn_over_the_scene(
        Buffer::LightingUniforms,
        TexView::SceneColor,
        TexView::VisibilityDepth,
    );
    let s = p.shading();
    assert(s[0] == s[0]);
    assert(s[1] == s[1]);
}

/// The sky fills what is not covered, and clouds are laid over the scene, at the resolution of the
/// profile. Where that has changed, the clouds that are blended are those of no frame before.
#[verifier::rlimit(60)]
#[verifier::spinoff_prover]
pub proof fn frames_add_sky_and_clouds(
    p: VisbufPipeline,
    scene: RuntimeSceneGpu,
    settings: SceneSettings,
    input: FrameInputs,
)
    requires
        p.wf(),
    ensures
        ({
            let d = p.drawing(scene, settings, input);
            let m = p.hzb_pass.mip_count as int;
            let pyramid = 10 + times(p.scene_bound, 2);
            let second = pyramid + m;
            let shading = second + 2 + times(p.scene_bound, 1) + times(
                p.scene_bound && scene.dag.meshlets@.len() > 0,
                1,
            );
            let again = shading + times(p.scene_bound, 1) + times(p.character_visible, 1);
            let sky = again + m;
            let divisor: u32 = match settings.cloud_profile.resolution {
                CloudResolution::Quarter => 4,
                CloudResolution::Half => 2,
            };
            let same = p.cloud_pass.resolution_divisor == divisor;
            let current = same && p.cloud_pass.current;
            let width = if same {
                p.cloud_pass.quarter_w as int
            } else if p.width < divisor {
                1
            } else {
                p.width as int / divisor as int
            };
            let height = if same {
                p.cloud_pass.quarter_h as int
            } else if p.height < divisor {
                1
            } else {
                p.height as int / divisor as int
            };
            &&& d[sky] == FrameStep::External(ExternalPass::Sky)
            &&& d[sky + 1] is Recorded
            &&& computes(
                d[sky + 1]->Recorded_0,
                Pipeline::CloudMarch,
                Layout::CloudMarch,
                seq![
                    Resource::Buffer(Buffer::CloudUniforms),
                    Resource::View(TexView::NoiseShape),
                    Resource::View(TexView::NoiseDetail),
                    Resource::View(TexView::NoiseWeather),
                    Resource::Sampler(Sampler::NoiseRepeat),
                    Resource::View(TexView::CloudColor(current)),
                    Resource::View(TexView::CloudRaw),
                    Resource::View(TexView::VisibilityDepth),
                    Resource::View(TexView::CloudDepth),
                    Resource::View(TexView::SkyView),
                    Resource::Sampler(Sampler::SkyLut),
                ],
                width,
                height,
            )
            &&& d[sky + 2] is Recorded
            &&& computes(
                d[sky + 2]->Recorded_0,
                Pipeline::CloudTemporal,
                Layout::CloudTemporal,
                seq![
                    Resource::Buffer(Buffer::CloudUniforms),
                    Resource::View(TexView::CloudRaw),
                    Resource::View(TexView::CloudColor(current)),
                    Resource::View(TexView::CloudColor(!current)),
                    Resource::View(TexView::CloudDepth),
                    Resource::Sampler(Sampler::CloudTemporal),
                ],
                width,
                height,
            )
            &&& d[sky + 3] is Recorded
            &&& overlays(
                d[sky + 3]->Recorded_0,
                Pipeline::CloudComposite,
                Layout::CloudComposite,
                seq![
                    Resource::View(TexView::CloudColor(!current)),
                    Resource::Sampler(Sampler::CloudComposite),
                    Resource::View(TexView::VisibilityDepth),
                    Resource::Buffer(Buffer::CloudUniforms),
                    Resource::View(TexView::CloudDepth),
                ],
                TexView::SceneColor,
                Load::Keep,
            )
        }),
{
    lemma_places(p, scene, settings, input);
    let clouds = fitted_clouds(
        p.cloud_pass,
        settings.cloud_profile.resolution,
        p.width,
        p.height,
    );
    clouds_are_laid_over_the_scene(
        clouds,
        TexView::SceneColor,
        TexView::VisibilityDepth,
        TexView::SkyView,
        Sampler::SkyLut,
    );
    let all = clouds.frame_steps(
        TexView::SceneColor,
        TexView::VisibilityDepth,
        TexView::SkyView,
        Sampler::SkyLut,
    );
    let s = p.sky_stage(clouds);
    assert(s[0] == FrameStep::External(ExternalPass::Sky));
    assert(s[1] == FrameStep::Recorded(all[0]));
    assert(s[2] == FrameStep::Recorded(all[1]));
    assert(s[3] == FrameStep::Recorded(all[2]));
}

/// Effects follow: bounced light, where its intensity is above a thousandth; occlusion; shafts of
/// light; and outlines, unless they are left out. All read the depth and the normals of the frame.
#[verifier::rlimit(60)]
#[verifier::spinoff_prover]
pub proof fn frames_add_their_effects(
    p: VisbufPipeline,
    scene: RuntimeSceneGpu,
    settings: SceneSettings,
    input: FrameInputs,
)
    requires
        p.wf(),
    ensures
        ({
            let d = p.drawing(scene, settings, input);
            let m = p.hzb_pass.mip_count as int;
            let pyramid = 10 + times(p.scene_bound, 2);
            let second = pyramid + m;
            let shading = second + 2 + times(p.scene_bound, 1) + times(
                p.scene_bound && scene.dag.meshlets@.len() > 0,
                1,
            );
            let again = shading + times(p.scene_bound, 1) + times(p.character_visible, 1);
            let sky = again + m;
            let effects = sky + 4;
            let gi = p.ssgi_pass is Some && (Scalar { bits: 0x3A83_126F }).lt(settings.gi_intensity);
            let bloom = effects + times(gi, 3) + times(p.ssao_pass is Some, 2) + 2 + times(
                !p.art_direction_outline_skip,
                1,
            );
            let ssao = effects + times(gi, 3);
            let shafts = ssao + times(p.ssao_pass is Some, 2);
            &&& gi ==> {
            &&& d[effects] is Recorded
            &&& computes(
                d[effects]->Recorded_0,
                Pipeline::SsgiSample,
                Layout::SsgiSample,
                seq![
                    Resource::Buffer(Buffer::SsgiUniforms),
                    Resource::View(TexView::MaterialNormal),
                    Resource::View(TexView::VisibilityDepth),
                    Resource::View(TexView::SceneColor),
                    Resource::View(TexView::SsgiRaw),
                ],
                p.ssgi_pass->0.width as int,
                p.ssgi_pass->0.height as int,
            )
            &&& d[effects + 1] is Recorded
            &&& computes(
                d[effects + 1]->Recorded_0,
                Pipeline::SsgiBlur,
                Layout::SsgiBlur,
                seq![
                    Resource::Buffer(Buffer::SsgiUniforms),
                    Resource::View(TexView::MaterialNormal),
                    Resource::View(TexView::VisibilityDepth),
                    Resource::View(TexView::SsgiRaw),
                    Resource::View(TexView::SsgiBlurred),
                ],
                p.ssgi_pass->0.width as int,
                p.ssgi_pass->0.height as int,
            )
            &&& d[effects + 2] is Recorded
            &&& overlays(
                d[effects + 2]->Recorded_0,
                Pipeline::SsgiComposite,
                Layout::SsgiComposite,
                seq![
                    Resource::View(TexView::SsgiBlurred),
                ],
                TexView::SceneColor,
                Load::Keep,
            )
            }
            &&& p.ssao_pass is Some ==> {
            &&& d[ssao] is Recorded
            &&& computes(
                d[ssao]->Recorded_0,
                Pipeline::SsaoSample,
                Layout::SsaoSample,
                seq![
                    Resource::Buffer(Buffer::SsaoUniforms),
                    Resource::View(TexView::MaterialNormal),
                    Resource::View(TexView::VisibilityDepth),
                    Resource::View(TexView::SsaoRaw),
                ],
                p.ssao_pass->0.width as int,
                p.ssao_pass->0.height as int,
            )
            &&& d[ssao + 1] is Recorded
            &&& computes(
                d[ssao + 1]->Recorded_0,
                Pipeline::SsaoBlur,
                Layout::SsaoBlur,
                seq![
                    Resource::Buffer(Buffer::SsaoUniforms),
                    Resource::View(TexView::MaterialNormal),
                    Resource::View(TexView::VisibilityDepth),
                    Resource::View(TexView::SsaoRaw),
                    Resource::View(TexView::SsaoBlurred),
                ],
                p.ssao_pass->0.width as int,
                p.ssao_pass->0.height as int,
            )
            }
            &&& d[shafts] is Recorded
            &&& overlays(
                d[shafts]->Recorded_0,
                Pipeline::SunShaftOcclusion,
                Layout::SunShaftOcclusion,
                seq![
                    Resource::Buffer(Buffer::SunShaftUniforms),
                    Resource::View(TexView::VisibilityDepth),
                ],
                TexView::SunShaft,
                Load::Clear,
            )
            &&& d[shafts + 1] is Recorded
            &&& overlays(
                d[shafts + 1]->Recorded_0,
                Pipeline::SunShaftComposite,
                Layout::SunShaftComposite,
                seq![
                    Resource::Buffer(Buffer::SunShaftUniforms),
                    Resource::View(TexView::SunShaft),
                    Resource::Sampler(Sampler::SunShaft),
                ],
                TexView::SceneColor,
                Load::Keep,
            )
            &&& !p.art_direction_outline_skip ==> {
            &&& d[shafts + 2] == FrameStep::External(ExternalPass::Outline)
            }
        }),
{
    lemma_places(p, scene, settings, input);
    let depth = TexView::VisibilityDepth;
    let normal = TexView::MaterialNormal;
    let color = TexView::SceneColor;
    let gi = p.ssgi_pass is Some && (Scalar { bits: 0x3A83_126F }).lt(settings.gi_intensity);
    let s = p.effects(settings.gi_intensity);
    let ssao = times(gi, 3);
    let shafts = ssao + times(p.ssao_pass is Some, 2);
    ssgi_adds_what_it_gathers(p.ssgi_pass->0, normal, depth, color);
    ssao_smooths_what_it_finds(p.ssao_pass->0, normal, depth);
    sun_shafts_are_added(p.sun_shaft_pass, depth, color);
    if gi {
        let all = p.ssgi_pass->0.frame_steps(normal, depth, color);
        assert(s[0] == FrameStep::Recorded(all[0]));
        assert(s[1] == FrameStep::Recorded(all[1]));
        assert(s[2] == FrameStep::Recorded(all[2]));
    }
    if p.ssao_pass is Some {
        let all = p.ssao_pass->0.frame_steps(normal, depth);
        assert(s[ssao] == FrameStep::Recorded(all[0]));
        assert(s[ssao + 1] == FrameStep::Recorded(all[1]));
    }
    let all = p.sun_shaft_pass.frame_steps(depth, color);
    assert(s[shafts] == FrameStep::Recorded(all[0]));
    assert(s[shafts + 1] == FrameStep::Recorded(all[1]));
    if !p.art_direction_outline_skip {
        assert(s[shafts + 2] == FrameStep::External(ExternalPass::Outline));
    }
}

/// Bloom takes from the scene and adds to it, where there is bloom.
#[verifier::rlimit(60)]
#[verifier::spinoff_prover]
pub proof fn frames_bloom(
    p: VisbufPipeline,
    scene: RuntimeSceneGpu,
    settings: SceneSettings,
    input: FrameInputs,
)
    requires
        p.wf(),
    ensures
        ({
            let d = p.drawing(scene, settings, input);
            let m = p.hzb_pass.mip_count as int;
            let pyramid = 10 + times(p.scene_bound, 2);
            let second = pyramid + m;
            let shading = second + 2 + times(p.scene_bound, 1) + times(
                p.scene_bound && scene.dag.meshlets@.len() > 0,
                1,
            );
            let again = shading + times(p.scene_bound, 1) + times(p.character_visible, 1);
            let sky = again + m;
            let effects = sky + 4;
            let gi = p.ssgi_pass is Some && (Scalar { bits: 0x3A83_126F }).lt(settings.gi_intensity);
            let bloom = effects + times(gi, 3) + times(p.ssao_pass is Some, 2) + 2 + times(
                !p.art_direction_outline_skip,
                1,
            );
            let taa = bloom + times(p.bloom_pass is Some, 10);
            &&& p.bloom_pass is Some ==> {
            &&& d[bloom + 9] is Recorded
            &&& overlays(
                d[bloom + 9]->Recorded_0,
                Pipeline::BloomComposite,
                Layout::BloomComposite,
                seq![
                    Resource::View(TexView::BloomAlt(0)),
                    Resource::Sampler(Sampler::Bloom),
                    Resource::Slice { buffer: Buffer::BloomUniforms, offset: 0, size: 48 },
                ],
                TexView::SceneColor,
                Load::Keep,
            )
            &&& d[bloom] is Recorded
            &&& computes(
                d[bloom]->Recorded_0,
                Pipeline::BloomThreshold,
                Layout::BloomThreshold,
                seq![
                    Resource::Slice { buffer: Buffer::BloomUniforms, offset: 0, size: 48 },
                    Resource::View(TexView::SceneColor),
                    Resource::View(TexView::BloomLevel(0)),
                ],
                p.bloom_pass->0.sizes()[0].0 as int,
                p.bloom_pass->0.sizes()[0].1 as int,
            )
            &&& d[bloom + 1] is Recorded
            &&& computes(
                d[bloom + 1]->Recorded_0,
                Pipeline::BloomDownsample,
                Layout::BloomDownsample,
                seq![
                    Resource::Slice { buffer: Buffer::BloomUniforms, offset: 256, size: 48 },
                    Resource::View(TexView::BloomLevel(0)),
                    Resource::View(TexView::BloomLevel(1)),
                ],
                p.bloom_pass->0.sizes()[1].0 as int,
                p.bloom_pass->0.sizes()[1].1 as int,
            )
            &&& d[bloom + 2] is Recorded
            &&& computes(
                d[bloom + 2]->Recorded_0,
                Pipeline::BloomDownsample,
                Layout::BloomDownsample,
                seq![
                    Resource::Slice { buffer: Buffer::BloomUniforms, offset: 512, size: 48 },
                    Resource::View(TexView::BloomLevel(1)),
                    Resource::View(TexView::BloomLevel(2)),
                ],
                p.bloom_pass->0.sizes()[2].0 as int,
                p.bloom_pass->0.sizes()[2].1 as int,
            )
            &&& d[bloom + 3] is Recorded
            &&& computes(
                d[bloom + 3]->Recorded_0,
                Pipeline::BloomDownsample,
                Layout::BloomDownsample,
                seq![
                    Resource::Slice { buffer: Buffer::BloomUniforms, offset: 768, size: 48 },
                    Resource::View(TexView::BloomLevel(2)),
                    Resource::View(TexView::BloomLevel(3)),
                ],
                p.bloom_pass->0.sizes()[3].0 as int,
                p.bloom_pass->0.sizes()[3].1 as int,
            )
            &&& d[bloom + 4] is Recorded
            &&& computes(
                d[bloom + 4]->Recorded_0,
                Pipeline::BloomDownsample,
                Layout::BloomDownsample,
                seq![
                    Resource::Slice { buffer: Buffer::BloomUniforms, offset: 1024, size: 48 },
                    Resource::View(TexView::BloomLevel(3)),
                    Resource::View(TexView::BloomLevel(4)),
                ],
                p.bloom_pass->0.sizes()[4].0 as int,
                p.bloom_pass->0.sizes()[4].1 as int,
            )
            &&& d[bloom + 5] is Recorded
            &&& computes(
                d[bloom + 5]->Recorded_0,
                Pipeline::BloomUpsample,
                Layout::BloomUpsample,
                seq![
                    Resource::Slice { buffer: Buffer::BloomUniforms, offset: 1280, size: 48 },
                    Resource::View(TexView::BloomLevel(4)),
                    Resource::View(TexView::BloomLevel(3)),
                    Resource::View(TexView::BloomAlt(3)),
                ],
                p.bloom_pass->0.sizes()[3].0 as int,
                p.bloom_pass->0.sizes()[3].1 as int,
            )
            &&& d[bloom + 6] is Recorded
            &&& computes(
                d[bloom + 6]->Recorded_0,
                Pipeline::BloomUpsample,
                Layout::BloomUpsample,
                seq![
                    Resource::Slice { buffer: Buffer::BloomUniforms, offset: 1536, size: 48 },
                    Resource::View(TexView::BloomAlt(3)),
                    Resource::View(TexView::BloomLevel(2)),
                    Resource::View(TexView::BloomAlt(2)),
                ],
                p.bloom_pass->0.sizes()[2].0 as int,
                p.bloom_pass->0.sizes()[2].1 as int,
            )
            &&& d[bloom + 7] is Recorded
            &&& computes(
                d[bloom + 7]->Recorded_0,
                Pipeline::BloomUpsample,
                Layout::BloomUpsample,
                seq![
                    Resource::Slice { buffer: Buffer::BloomUniforms, offset: 1792, size: 48 },
                    Resource::View(TexView::BloomAlt(2)),
                    Resource::View(TexView::BloomLevel(1)),
                    Resource::View(TexView::BloomAlt(1)),
                ],
                p.bloom_pass->0.sizes()[1].0 as int,
                p.bloom_pass->0.sizes()[1].1 as int,
            )
            &&& d[bloom + 8] is Recorded
            &&& computes(
                d[bloom + 8]->Recorded_0,
                Pipeline::BloomUpsample,
                Layout::BloomUpsample,
                seq![
                    Resource::Slice { buffer: Buffer::BloomUniforms, offset: 2048, size: 48 },
                    Resource::View(TexView::BloomAlt(1)),
                    Resource::View(TexView::BloomLevel(0)),
                    Resource::View(TexView::BloomAlt(0)),
                ],
                p.bloom_pass->0.sizes()[0].0 as int,
                p.bloom_pass->0.sizes()[0].1 as int,
            )
            }
        }),
{
    lemma_places(p, scene, settings, input);
    if p.bloom_pass is Some {
        let sizes = p.bloom_pass->0.sizes();
        let all = bloom_steps(sizes, TexView::SceneColor, TexView::SceneColor);
        let s = p.finish();
        bloom_has_five_levels(p.bloom_pass->0);
        bloom_spreads_over_the_levels(sizes, TexView::SceneColor, TexView::SceneColor);
        assert(s[0] == FrameStep::Recorded(all[0]));
        assert(s[1] == FrameStep::Recorded(all[1]));
        assert(s[2] == FrameStep::Recorded(all[2]));
        assert(s[3] == FrameStep::Recorded(all[3]));
        assert(s[4] == FrameStep::Recorded(all[4]));
        assert(s[5] == FrameStep::Recorded(all[5]));
        assert(s[6] == FrameStep::Recorded(all[6]));
        assert(s[7] == FrameStep::Recorded(all[7]));
        assert(s[8] == FrameStep::Recorded(all[8]));
        assert(s[9] == FrameStep::Recorded(all[9]));
    }
}

/// At the end frames are blended, where they are: the scene with the history of the frame before, into
/// the other one. Nothing follows but tone mapping.
#[verifier::rlimit(60)]
#[verifier::spinoff_prover]
pub proof fn frames_end_with_the_blend(
    p: VisbufPipeline,
    scene: RuntimeSceneGpu,
    settings: SceneSettings,
    input: FrameInputs,
)
    requires
        p.wf(),
    ensures
        ({
            let d = p.drawing(scene, settings, input);
            let m = p.hzb_pass.mip_count as int;
            let pyramid = 10 + times(p.scene_bound, 2);
            let second = pyramid + m;
            let shading = second + 2 + times(p.scene_bound, 1) + times(
                p.scene_bound && scene.dag.meshlets@.len() > 0,
                1,
            );
            let again = shading + times(p.scene_bound, 1) + times(p.character_visible, 1);
            let sky = again + m;
            let effects = sky + 4;
            let gi = p.ssgi_pass is Some && (Scalar { bits: 0x3A83_126F }).lt(settings.gi_intensity);
            let bloom = effects + times(gi, 3) + times(p.ssao_pass is Some, 2) + 2 + times(
                !p.art_direction_outline_skip,
                1,
            );
            let taa = bloom + times(p.bloom_pass is Some, 10);
            let end = taa + times(p.taa_pass is Some, 2);
            &&& d.len() == end
            &&& p.taa_pass is Some ==> {
            &&& d[taa] is Recorded
            &&& computes(
                d[taa]->Recorded_0,
                Pipeline::TaaMotion,
                Layout::TaaMotion,
                seq![
                    Resource::Buffer(Buffer::TaaUniforms),
                    Resource::View(TexView::VisibilityDepth),
                    Resource::View(TexView::TaaMotion),
                ],
                p.taa_pass->0.width as int,
                p.taa_pass->0.height as int,
            )
            &&& d[taa + 1] is Recorded
            &&& computes(
                d[taa + 1]->Recorded_0,
                Pipeline::TaaResolve,
                Layout::TaaResolve,
                seq![
                    Resource::Buffer(Buffer::TaaUniforms),
                    Resource::View(TexView::SceneColor),
                    Resource::View(TexView::TaaMotion),
                    Resource::View(TexView::TaaHistory(!p.taa_pass->0.write_to_a)),
                    Resource::Sampler(Sampler::TaaHistory),
                    Resource::View(TexView::TaaHistory(p.taa_pass->0.write_to_a)),
                ],
                p.taa_pass->0.width as int,
                p.taa_pass->0.height as int,
            )
            }
        }),
{
    lemma_places(p, scene, settings, input);
    if p.taa_pass is Some {
        taa_blends_with_the_other_history(
            p.taa_pass->0,
            TexView::VisibilityDepth,
            TexView::SceneColor,
        );
        let all = p.taa_pass->0.frame_steps(TexView::VisibilityDepth, TexView::SceneColor);
        let s = p.finish();
        let at = times(p.bloom_pass is Some, 10);
        assert(s[at] == FrameStep::Recorded(all[0]));
        assert(s[at + 1] == FrameStep::Recorded(all[1]));
    }
}

/// What a rendered frame ends with: the newest colour is tone mapped to the surface, which is the
/// history that the frame has just written, or the scene where frames are not blended, darkened by
/// the smoothed occlusion where there is any.
pub proof fn frames_are_tone_mapped_last(
    p: VisbufPipeline,
    frame: RecordedFrame,
    scene: RuntimeSceneGpu,
    settings: SceneSettings,
    input: FrameInputs,
)
    requires
        p.draws(frame, scene, settings, input),
    ensures
        frame_steps(frame.segments@).len() == p.drawing(scene, settings, input).len() + 1,
        forall|k: int|
            0 <= k < p.drawing(scene, settings, input).len() ==> frame_steps(frame.segments@)[k]
                == #[trigger] p.drawing(scene, settings, input)[k],
        frame_steps(frame.segments@).last() matches FrameStep::External(ExternalPass::Tonemap {
            source,
            ao,
            target,
        }) && target == TexView::Surface && source == (if p.taa_pass is Some {
            TexView::TaaHistory(p.taa_pass->0.write_to_a)
        } else {
            TexView::SceneColor
        }) && ao == (if p.ssao_pass is Some {
            Some(TexView::SsaoBlurred)
        } else {
            None
        }),
{
}

/// The number of groups that a frame reports is that of its cut, as far as the queue holds them.
pub proof fn frames_count_their_groups(
    p: VisbufPipeline,
    frame: RecordedFrame,
    scene: RuntimeSceneGpu,
    settings: SceneSettings,
    input: FrameInputs,
)
    requires
        p.draws(frame, scene, settings, input),
    ensures
        ({
            let c = cut(scene.dag.groups@, input.projected_errors@, input.error_threshold_px).len();
            frame.group_count == if c <= 16384 {
                c
            } else {
                16384
            }
        }),
{
}

} // verus!
