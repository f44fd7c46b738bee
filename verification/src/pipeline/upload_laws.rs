//! What every frame uploads, word by word.

use vstd::prelude::*;

use crate::dag_cut::cut;
use crate::pipeline::bloom_pass::{bloom_has_five_levels, slot_contents, BloomUniformWrite};
use crate::pipeline::cloud_pass::CloudUniformInputs;
use crate::pipeline::cull_pass::queue_writes;
use crate::pipeline::frame_laws::times;
use crate::pipeline::frame_uploads::{cloud_memory, cloud_view, taa_memory};
use crate::pipeline::gpu::Buffer;
use crate::pipeline::hw_raster_pass::frame_words_stand_in_order;
use crate::pipeline::shadow_pass::cascade_writes;
use crate::pipeline::taa_pass::TaaUniformInputs;
use crate::pipeline::uniforms::{
    bloom_words, cloud_uniforms, ssao_uniforms, ssgi_uniforms, sun_shaft_uniforms, taa_uniforms,
    CloudHostValues,
};
use crate::pipeline::upload::{Upload, Write};
use crate::pipeline::visbuf_pipeline::{fitted_clouds, FrameInputs, RecordedFrame, VisbufPipeline};
use crate::scalar::{reciprocal, whole, Scalar};
use crate::scene::bounds::Vec3;
use crate::scene::lighting::{
    lighting_words_stand_in_order, matrix_at, matrix_words, vector_at, words_are,
};
use crate::scene::settings::{CloudResolution, SceneSettings};
use crate::scene_upload::RuntimeSceneGpu;

verus! {

/// How many uploads there are before each part.
#[verifier::rlimit(40)]
#[verifier::spinoff_prover]
proof fn lemma_counts(
    p: VisbufPipeline,
    frame: RecordedFrame,
    scene: RuntimeSceneGpu,
    settings: SceneSettings,
    input: FrameInputs,
)
    ensures
        ({
            let c = cut(scene.dag.groups@, input.projected_errors@, input.error_threshold_px);
            let character = 8 + times(c.len() > 0, 1);
            let clouds = character + times(p.character_visible, 1);
            let gi = p.ssgi_pass is Some && (Scalar { bits: 0x3A83_126F }).lt(settings.gi_intensity);
            let ssao = clouds + 1 + times(gi, 1);
            let bloom = ssao + times(p.ssao_pass is Some, 1);
            let taa = bloom + times(p.bloom_pass is Some, 9);
            let end = taa + times(p.taa_pass is Some, 1);
            &&& queue_writes(c).len() == character - 7
            &&& p.bloom_writes().len() == taa - bloom
            &&& p.opening_writes(scene, settings, input).len() == clouds
            &&& p.effect_writes(settings, input).len() == bloom - clouds - 1
            &&& p.closing_writes(input).len() == end - bloom
            &&& p.frame_writes(scene, settings, input).len() == end
        }),
{
}

/// Every upload puts the words of its part.
#[verifier::rlimit(40)]
#[verifier::spinoff_prover]
proof fn lemma_parts(
    p: VisbufPipeline,
    frame: RecordedFrame,
    scene: RuntimeSceneGpu,
    settings: SceneSettings,
    input: FrameInputs,
)
    requires
        p.draws(frame, scene, settings, input),
    ensures
        ({
            let c = cut(scene.dag.groups@, input.projected_errors@, input.error_threshold_px);
            let character = 8 + times(c.len() > 0, 1);
            let clouds = character + times(p.character_visible, 1);
            let gi = p.ssgi_pass is Some && (Scalar { bits: 0x3A83_126F }).lt(settings.gi_intensity);
            let ssao = clouds + 1 + times(gi, 1);
            let bloom = ssao + times(p.ssao_pass is Some, 1);
            let taa = bloom + times(p.bloom_pass is Some, 9);
            let end = taa + times(p.taa_pass is Some, 1);
            let u = frame.uploads@;
            let w = p.frame_writes(scene, settings, input);
            let opening = p.opening_writes(scene, settings, input);
            let effects = p.effect_writes(settings, input);
            let closing = p.closing_writes(input);
            &&& u.len() == end
            &&& forall|i: int|
                0 <= i < end ==> (#[trigger] u[i]).puts(w[i].buffer, w[i].offset, w[i].words)
            &&& forall|i: int| 0 <= i < clouds ==> w[i] == #[trigger] opening[i]
            &&& w[clouds] == p.cloud_write(settings, input)
            &&& forall|i: int|
                0 <= i < effects.len() ==> w[clouds + 1 + i] == #[trigger] effects[i]
            &&& forall|i: int| 0 <= i < closing.len() ==> w[bloom + i] == #[trigger] closing[i]
        }),
{
    lemma_counts(p, frame, scene, settings, input);
}

/// The upload puts the words of a write.
pub open spec fn carries_out(upload: Upload, write: Write) -> bool {
    upload.puts(write.buffer, write.offset, write.words)
}

/// What opens a frame.
#[verifier::rlimit(40)]
#[verifier::spinoff_prover]
proof fn lemma_opening(
    p: VisbufPipeline,
    frame: RecordedFrame,
    scene: RuntimeSceneGpu,
    settings: SceneSettings,
    input: FrameInputs,
)
    requires
        p.draws(frame, scene, settings, input),
    ensures
        ({
            let c = cut(scene.dag.groups@, input.projected_errors@, input.error_threshold_px);
            let character = 8 + times(c.len() > 0, 1);
            let clouds = character + times(p.character_visible, 1);
            let u = frame.uploads@;
            let slots = cascade_writes(p.shadow_pass.dyn_alignment, input.cascades.light_vps@);
            let queue = queue_writes(c);
            &&& u[0].puts(Buffer::FrameUniforms, 0, p.frame_uniforms(input).word_list())
            &&& u[1].puts(
                Buffer::LightingUniforms,
                0,
                p.lighting(settings, input).word_list(),
            )
            &&& carries_out(u[2], slots[0])
            &&& carries_out(u[3], slots[1])
            &&& carries_out(u[4], slots[2])
            &&& carries_out(u[5], slots[3])
            &&& u[6].puts(
                Buffer::SunShaftUniforms,
                0,
                sun_shaft_uniforms(input.sun, settings, p.width, p.height).word_list(),
            )
            &&& carries_out(u[7], queue[0])
            &&& c.len() > 0 ==> carries_out(u[8], queue[1])
            &&& p.character_visible ==> u[character].puts(
                Buffer::CharacterModel,
                0,
                matrix_words(p.character_model),
            )
            &&& carries_out(u[clouds], p.cloud_write(settings, input))
        }),
{
    lemma_counts(p, frame, scene, settings, input);
    lemma_parts(p, frame, scene, settings, input);
    let c = cut(scene.dag.groups@, input.projected_errors@, input.error_threshold_px);
    let character = 8 + times(c.len() > 0, 1);
    let clouds = character + times(p.character_visible, 1);
    let u = frame.uploads@;
    let w = p.frame_writes(scene, settings, input);
    let opening = p.opening_writes(scene, settings, input);
    assert(w[0] == opening[0] && carries_out(u[0], w[0]));
    assert(w[1] == opening[1] && carries_out(u[1], w[1]));
    assert(w[2] == opening[2] && carries_out(u[2], w[2]));
    assert(w[3] == opening[3] && carries_out(u[3], w[3]));
    assert(w[4] == opening[4] && carries_out(u[4], w[4]));
    assert(w[5] == opening[5] && carries_out(u[5], w[5]));
    assert(w[6] == opening[6] && carries_out(u[6], w[6]));
    assert(w[7] == opening[7] && carries_out(u[7], w[7]));
    if c.len() > 0 {
        assert(w[8] == opening[8] && carries_out(u[8], w[8]));
    }
    if p.character_visible {
        assert(w[character] == opening[character] && carries_out(u[character], w[character]));
    }
    assert(carries_out(u[clouds], w[clouds]));
}

/// What follows the clouds.
#[verifier::rlimit(40)]
#[verifier::spinoff_prover]
proof fn lemma_rest(
    p: VisbufPipeline,
    frame: RecordedFrame,
    scene: RuntimeSceneGpu,
    settings: SceneSettings,
    input: FrameInputs,
)
    requires
        p.draws(frame, scene, settings, input),
    ensures
        ({
            let c = cut(scene.dag.groups@, input.projected_errors@, input.error_threshold_px);
            let character = 8 + times(c.len() > 0, 1);
            let clouds = character + times(p.character_visible, 1);
            let gi = p.ssgi_pass is Some && (Scalar { bits: 0x3A83_126F }).lt(settings.gi_intensity);
            let ssao = clouds + 1 + times(gi, 1);
            let bloom = ssao + times(p.ssao_pass is Some, 1);
            let taa = bloom + times(p.bloom_pass is Some, 9);
            let end = taa + times(p.taa_pass is Some, 1);
            let u = frame.uploads@;
            let blooming = p.bloom_writes();
            &&& u.len() == end
            &&& gi ==> u[clouds + 1].puts(
                Buffer::SsgiUniforms,
                0,
                ssgi_uniforms(
                    input.screen,
                    p.width,
                    p.height,
                    settings.gi_intensity,
                    p.frame_index,
                ).word_list(),
            )
            &&& p.ssao_pass is Some ==> u[ssao].puts(
                Buffer::SsaoUniforms,
                0,
                ssao_uniforms(input.screen, p.width, p.height).word_list(),
            )
            &&& blooming.len() == taa - bloom
            &&& forall|i: int|
                0 <= i < blooming.len() ==> carries_out(u[bloom + i], #[trigger] blooming[i])
            &&& p.taa_pass is Some ==> u[taa].puts(
                Buffer::TaaUniforms,
                0,
                taa_uniforms(
                    taa_memory(p.taa_pass->0),
                    input.camera.inv_view_proj,
                    input.jitter,
                ).word_list(),
            )
        }),
{
    lemma_counts(p, frame, scene, settings, input);
    lemma_parts(p, frame, scene, settings, input);
    let c = cut(scene.dag.groups@, input.projected_errors@, input.error_threshold_px);
    let character = 8 + times(c.len() > 0, 1);
    let clouds = character + times(p.character_visible, 1);
    let gi = p.ssgi_pass is Some && (Scalar { bits: 0x3A83_126F }).lt(settings.gi_intensity);
    let ssao = clouds + 1 + times(gi, 1);
    let bloom = ssao + times(p.ssao_pass is Some, 1);
    let taa = bloom + times(p.bloom_pass is Some, 9);
    let end = taa + times(p.taa_pass is Some, 1);
    let u = frame.uploads@;
    let w = p.frame_writes(scene, settings, input);
    let effects = p.effect_writes(settings, input);
    let closing = p.closing_writes(input);
    let blooming = p.bloom_writes();
    if gi {
        assert(w[clouds + 1] == effects[0] && carries_out(u[clouds + 1], w[clouds + 1]));
    }
    if p.ssao_pass is Some {
        assert(w[ssao] == effects[ssao - clouds - 1] && carries_out(u[ssao], w[ssao]));
    }
    assert forall|i: int| 0 <= i < blooming.len() implies carries_out(
        u[bloom + i],
        #[trigger] blooming[i],
    ) by {
        assert(w[bloom + i] == closing[i] && carries_out(u[bloom + i], w[bloom + i]));
    }
    if p.taa_pass is Some {
        assert(w[taa] == closing[taa - bloom] && carries_out(u[taa], w[taa]));
    }
}

/// The first upload tells every pass over meshlets of the frame: the shifted camera, the size of the
/// screen, the error up to which groups are drawn, the planes, and the pyramid of the frame before,
/// which is used only where there is one.
#[verifier::rlimit(60)]
#[verifier::spinoff_prover]
pub proof fn frames_upload_their_view(
    p: VisbufPipeline,
    frame: RecordedFrame,
    scene: RuntimeSceneGpu,
    settings: SceneSettings,
    input: FrameInputs,
) -> (w: Seq<u32>)
    requires
        p.draws(frame, scene, settings, input),
    ensures
        frame.uploads@[0].puts(Buffer::FrameUniforms, 0, w),
        w.len() == 56,
        matrix_at(w, 0, input.jittered_view_proj),
        words_are(
            w,
            16,
            input.camera.position.x.bits,
            input.camera.position.y.bits,
            input.camera.position.z.bits,
            0x3F80_0000,
        ),
        words_are(
            w,
            20,
            whole(p.width as nat).bits,
            whole(p.height as nat).bits,
            reciprocal(p.width as nat).bits,
            reciprocal(p.height as nat).bits,
        ),
        words_are(w, 24, input.error_threshold_px.bits, input.fov_factor.bits, 0, 0),
        vector_at(w, 28, input.frustum_planes@[0]),
        vector_at(w, 32, input.frustum_planes@[1]),
        vector_at(w, 36, input.frustum_planes@[2]),
        vector_at(w, 40, input.frustum_planes@[3]),
        vector_at(w, 44, input.frustum_planes@[4]),
        vector_at(w, 48, input.frustum_planes@[5]),
        words_are(
            w,
            52,
            if p.hzb_ready {
                0x3F80_0000u32
            } else {
                0
            },
            whole(p.hzb_pass.mip_count as nat).bits,
            whole(p.width as nat).bits,
            whole(p.height as nat).bits,
        ),
{
    lemma_opening(p, frame, scene, settings, input);
    let w = p.frame_uniforms(input).word_list();
    frame_words_stand_in_order(p.frame_uniforms(input));
    assert(frame.uploads@[0].puts(Buffer::FrameUniforms, 0, w));
    w
}

/// The second upload is the light of a frame: each direction of the sky's probe in its own place, the
/// colour from above before the one from below, and likewise sun, fog, sky and cascades.
#[verifier::rlimit(80)]
#[verifier::spinoff_prover]
pub proof fn frames_upload_their_light(
    p: VisbufPipeline,
    frame: RecordedFrame,
    scene: RuntimeSceneGpu,
    settings: SceneSettings,
    input: FrameInputs,
) -> (w: Seq<u32>)
    requires
        p.draws(frame, scene, settings, input),
    ensures
        frame.uploads@[1].puts(Buffer::LightingUniforms, 0, w),
        matrix_at(w, 0, input.camera.view_proj),
        matrix_at(w, 16, input.camera.inv_view_proj),
        words_are(
            w,
            32,
            input.camera.position.x.bits,
            input.camera.position.y.bits,
            input.camera.position.z.bits,
            0x3F80_0000,
        ),
        words_are(
            w,
            36,
            settings.sun_direction.x.bits,
            settings.sun_direction.y.bits,
            settings.sun_direction.z.bits,
            0,
        ),
        words_are(
            w,
            40,
            settings.sun_color.x.bits,
            settings.sun_color.y.bits,
            settings.sun_color.z.bits,
            settings.sun_strength.bits,
        ),
        words_are(
            w,
            44,
            settings.fog_color.x.bits,
            settings.fog_color.y.bits,
            settings.fog_color.z.bits,
            settings.fog_sky_mix.bits,
        ),
        words_are(
            w,
            48,
            settings.sky_zenith.x.bits,
            settings.sky_zenith.y.bits,
            settings.sky_zenith.z.bits,
            settings.sky_strength.bits,
        ),
        words_are(
            w,
            52,
            settings.sky_horizon.x.bits,
            settings.sky_horizon.y.bits,
            settings.sky_horizon.z.bits,
            0x3F80_0000,
        ),
        words_are(
            w,
            56,
            settings.fog_density.bits,
            settings.fog_height_falloff.bits,
            settings.fog_start.bits,
            settings.fog_end.bits,
        ),
        words_are(
            w,
            60,
            settings.exposure.bits,
            settings.tonemap_strength.bits,
            settings.contact_shadow_strength.bits,
            settings.gi_intensity.bits,
        ),
        matrix_at(w, 64, input.cascades.light_vps@[0]),
        words_are(
            w,
            80,
            input.probe.up.x.bits,
            input.probe.up.y.bits,
            input.probe.up.z.bits,
            0,
        ),
        words_are(
            w,
            84,
            input.probe.down.x.bits,
            input.probe.down.y.bits,
            input.probe.down.z.bits,
            0,
        ),
        words_are(
            w,
            88,
            input.probe.right.x.bits,
            input.probe.right.y.bits,
            input.probe.right.z.bits,
            0,
        ),
        words_are(
            w,
            92,
            input.probe.left.x.bits,
            input.probe.left.y.bits,
            input.probe.left.z.bits,
            0,
        ),
        words_are(
            w,
            96,
            input.probe.front.x.bits,
            input.probe.front.y.bits,
            input.probe.front.z.bits,
            0,
        ),
        words_are(
            w,
            100,
            input.probe.back.x.bits,
            input.probe.back.y.bits,
            input.probe.back.z.bits,
            0,
        ),
        words_are(
            w,
            104,
            settings.sun_angular_radius.bits,
            settings.rayleigh_strength.bits,
            settings.mie_strength.bits,
            settings.mie_anisotropy.bits,
        ),
        words_are(
            w,
            108,
            settings.horizon_haze.bits,
            settings.shaft_intensity.bits,
            settings.shaft_decay.bits,
            settings.cloud_coverage.bits,
        ),
        words_are(
            w,
            112,
            input.elapsed_secs.bits,
            if settings.wind.frozen {
                0
            } else {
                input.elapsed_secs.bits
            },
            0,
            0,
        ),
        words_are(
            w,
            116,
            whole(p.width as nat).bits,
            whole(p.height as nat).bits,
            0,
            0,
        ),
        words_are(
            w,
            120,
            settings.wind.direction.x.bits,
            settings.wind.direction.y.bits,
            settings.wind.mean_speed.bits,
            settings.wind.gust_strength.bits,
        ),
        matrix_at(w, 124, input.cascades.light_vps@[1]),
        matrix_at(w, 140, input.cascades.light_vps@[2]),
        matrix_at(w, 156, input.cascades.light_vps@[3]),
        words_are(
            w,
            172,
            input.cascades.splits@[0].bits,
            input.cascades.splits@[1].bits,
            input.cascades.splits@[2].bits,
            input.cascades.splits@[3].bits,
        ),
{
    lemma_opening(p, frame, scene, settings, input);
    let w = p.lighting(settings, input).word_list();
    lighting_words_stand_in_order(p.lighting(settings, input));
    assert(frame.uploads@[1].puts(Buffer::LightingUniforms, 0, w));
    w
}

/// The matrix of each cascade is uploaded to the place at which its shadows read it.
#[verifier::rlimit(40)]
#[verifier::spinoff_prover]
pub proof fn frames_upload_their_cascades(
    p: VisbufPipeline,
    frame: RecordedFrame,
    scene: RuntimeSceneGpu,
    settings: SceneSettings,
    input: FrameInputs,
    cascade: int,
) -> (w: Seq<u32>)
    requires
        p.wf(),
        p.draws(frame, scene, settings, input),
        0 <= cascade < 4,
    ensures
        frame.uploads@[2 + cascade].buffer == Buffer::ShadowUniforms,
        frame.uploads@[2 + cascade].offset == p.shadow_pass.dyn_alignment * cascade,
        frame.uploads@[2 + cascade].puts(
            Buffer::ShadowUniforms,
            frame.uploads@[2 + cascade].offset,
            w,
        ),
        w.len() == 16,
        matrix_at(w, 0, input.cascades.light_vps@[cascade]),
{
    lemma_opening(p, frame, scene, settings, input);
    let stride = p.shadow_pass.dyn_alignment;
    assert(0 <= stride * cascade <= u32::MAX) by (nonlinear_arith)
        requires
            0 <= cascade <= 3,
            0 <= stride * 3 <= u32::MAX,
            0 <= stride,
    ;
    let write = cascade_writes(stride, input.cascades.light_vps@)[cascade];
    assert(carries_out(frame.uploads@[2 + cascade], write));
    write.words
}

/// The cut is uploaded: its groups in their order, the first 16384 of them, where there are any, and
/// after them their number.
#[verifier::rlimit(40)]
#[verifier::spinoff_prover]
pub proof fn frames_upload_their_cut(
    p: VisbufPipeline,
    frame: RecordedFrame,
    scene: RuntimeSceneGpu,
    settings: SceneSettings,
    input: FrameInputs,
) -> (w: Seq<u32>)
    requires
        p.wf(),
        p.draws(frame, scene, settings, input),
    ensures
        ({
            let c = cut(scene.dag.groups@, input.projected_errors@, input.error_threshold_px);
            let character = 8 + times(c.len() > 0, 1);
            let u = frame.uploads@;
            let n = if c.len() <= 16384 {
                c.len()
            } else {
                16384
            };
            &&& w.len() == n
            &&& forall|i: int| 0 <= i < n ==> w[i] == c[i]
            &&& c.len() > 0 ==> u[7].puts(Buffer::GroupQueue, 0, w)
            &&& u[character - 1].puts(Buffer::GroupQueueCount, 0, seq![n as u32])
        }),
{
    lemma_opening(p, frame, scene, settings, input);
    let c = cut(scene.dag.groups@, input.projected_errors@, input.error_threshold_px);
    let character = 8 + times(c.len() > 0, 1);
    let u = frame.uploads@;
    crate::pipeline::cull_pass::queued(c)
}

/// The shafts of light are told of the sun and the screen; the character of its place, where it is
/// drawn.
#[verifier::rlimit(40)]
#[verifier::spinoff_prover]
pub proof fn frames_upload_sun_and_character(
    p: VisbufPipeline,
    frame: RecordedFrame,
    scene: RuntimeSceneGpu,
    settings: SceneSettings,
    input: FrameInputs,
)
    requires
        p.wf(),
        p.draws(frame, scene, settings, input),
    ensures
        ({
            let c = cut(scene.dag.groups@, input.projected_errors@, input.error_threshold_px);
            let character = 8 + times(c.len() > 0, 1);
            let clouds = character + times(p.character_visible, 1);
            let u = frame.uploads@;
            &&& u[6].puts(
                Buffer::SunShaftUniforms,
                0,
                sun_shaft_uniforms(input.sun, settings, p.width, p.height).word_list(),
            )
            &&& p.character_visible ==> u[character].puts(
                Buffer::CharacterModel,
                0,
                matrix_words(p.character_model),
            )
            &&& matrix_at(matrix_words(p.character_model), 0, p.character_model)
        }),
{
    lemma_opening(p, frame, scene, settings, input);
    let c = cut(scene.dag.groups@, input.projected_errors@, input.error_threshold_px);
    let character = 8 + times(c.len() > 0, 1);
    let clouds = character + times(p.character_visible, 1);
    let u = frame.uploads@;
}

/// Clouds are told of the camera, of the frame before, and of the size that they are drawn at; they
/// have no history for two frames, nor where their resolution has just changed.
#[verifier::rlimit(40)]
#[verifier::spinoff_prover]
pub proof fn frames_upload_their_clouds(
    p: VisbufPipeline,
    frame: RecordedFrame,
    scene: RuntimeSceneGpu,
    settings: SceneSettings,
    input: FrameInputs,
)
    requires
        p.wf(),
        p.draws(frame, scene, settings, input),
    ensures
        ({
            let c = cut(scene.dag.groups@, input.projected_errors@, input.error_threshold_px);
            let character = 8 + times(c.len() > 0, 1);
            let clouds = character + times(p.character_visible, 1);
            let u = frame.uploads@;
            let divisor: u32 = match settings.cloud_profile.resolution {
                CloudResolution::Quarter => 4,
                CloudResolution::Half => 2,
            };
            let same = p.cloud_pass.resolution_divisor == divisor;
            u[clouds].puts(
                Buffer::CloudUniforms,
                0,
                cloud_uniforms(
                    CloudUniformInputs {
                        first_frame: !same || p.cloud_pass.frame_count < 2,
                        frame_index: p.cloud_pass.frame_index,
                        resolution_divisor: divisor,
                        width: if same {
                            p.cloud_pass.quarter_w
                        } else if p.width < divisor {
                            1
                        } else {
                            p.width / divisor
                        },
                        height: if same {
                            p.cloud_pass.quarter_h
                        } else if p.height < divisor {
                            1
                        } else {
                            p.height / divisor
                        },
                        prev_view_proj: p.cloud_pass.prev_view_proj,
                        prev_elapsed: p.cloud_pass.prev_elapsed,
                    },
                    CloudHostValues {
                        inv_view_proj: input.camera.inv_view_proj,
                        camera_position: input.camera.position,
                        sky_ambient: Vec3 {
                            x: Scalar { bits: 0x3E19_999A },
                            y: Scalar { bits: 0x3E19_999A },
                            z: Scalar { bits: 0x3E19_999A },
                        },
                        elapsed_secs: input.elapsed_secs,
                    },
                    settings,
                ).word_list(),
            )
        }),
{
    lemma_opening(p, frame, scene, settings, input);
    let c = cut(scene.dag.groups@, input.projected_errors@, input.error_threshold_px);
    let character = 8 + times(c.len() > 0, 1);
    let clouds = character + times(p.character_visible, 1);
    let u = frame.uploads@;
    let fitted = fitted_clouds(
        p.cloud_pass,
        settings.cloud_profile.resolution,
        p.width,
        p.height,
    );
    let divisor: u32 = match settings.cloud_profile.resolution {
        CloudResolution::Quarter => 4,
        CloudResolution::Half => 2,
    };
    let same = p.cloud_pass.resolution_divisor == divisor;
    assert(cloud_memory(fitted).first_frame == (!same || p.cloud_pass.frame_count < 2));
    assert(cloud_view(input).elapsed_secs == input.elapsed_secs);
}

/// Bounced light and occlusion are told of the screen, where they are part of the frame.
#[verifier::rlimit(40)]
#[verifier::spinoff_prover]
pub proof fn frames_upload_their_effects(
    p: VisbufPipeline,
    frame: RecordedFrame,
    scene: RuntimeSceneGpu,
    settings: SceneSettings,
    input: FrameInputs,
)
    requires
        p.wf(),
        p.draws(frame, scene, settings, input),
    ensures
        ({
            let c = cut(scene.dag.groups@, input.projected_errors@, input.error_threshold_px);
            let character = 8 + times(c.len() > 0, 1);
            let clouds = character + times(p.character_visible, 1);
            let gi = p.ssgi_pass is Some && (Scalar { bits: 0x3A83_126F }).lt(settings.gi_intensity);
            let ssao = clouds + 1 + times(gi, 1);
            let bloom = ssao + times(p.ssao_pass is Some, 1);
            let u = frame.uploads@;
            &&& gi ==> u[clouds + 1].puts(
                Buffer::SsgiUniforms,
                0,
                ssgi_uniforms(
                    input.screen,
                    p.width,
                    p.height,
                    settings.gi_intensity,
                    p.frame_index,
                ).word_list(),
            )
            &&& p.ssao_pass is Some ==> u[ssao].puts(
                Buffer::SsaoUniforms,
                0,
                ssao_uniforms(input.screen, p.width, p.height).word_list(),
            )
        }),
{
    lemma_rest(p, frame, scene, settings, input);
    let c = cut(scene.dag.groups@, input.projected_errors@, input.error_threshold_px);
    let character = 8 + times(c.len() > 0, 1);
    let clouds = character + times(p.character_visible, 1);
    let gi = p.ssgi_pass is Some && (Scalar { bits: 0x3A83_126F }).lt(settings.gi_intensity);
    let ssao = clouds + 1 + times(gi, 1);
    let bloom = ssao + times(p.ssao_pass is Some, 1);
    let u = frame.uploads@;
}

/// The slots of bloom hold the size of the level that each step writes, the first that of the screen as
/// well; all hold the tint and the softness.
#[verifier::rlimit(40)]
#[verifier::spinoff_prover]
pub proof fn frames_upload_their_bloom(
    p: VisbufPipeline,
    frame: RecordedFrame,
    scene: RuntimeSceneGpu,
    settings: SceneSettings,
    input: FrameInputs,
    slot: int,
)
    requires
        p.wf(),
        p.draws(frame, scene, settings, input),
        0 <= slot < 9,
    ensures
        ({
            let c = cut(scene.dag.groups@, input.projected_errors@, input.error_threshold_px);
            let character = 8 + times(c.len() > 0, 1);
            let clouds = character + times(p.character_visible, 1);
            let gi = p.ssgi_pass is Some && (Scalar { bits: 0x3A83_126F }).lt(settings.gi_intensity);
            let ssao = clouds + 1 + times(gi, 1);
            let bloom = ssao + times(p.ssao_pass is Some, 1);
            let taa = bloom + times(p.bloom_pass is Some, 9);
            let u = frame.uploads@;
            let sizes = p.bloom_pass->0.sizes();
            let level = if slot <= 4 {
                slot
            } else {
                8 - slot
            };
            p.bloom_pass is Some ==> u[bloom + slot].puts(
                Buffer::BloomUniforms,
                (256 * slot) as u64,
                bloom_words(
                    BloomUniformWrite {
                        offset: (256 * slot) as u64,
                        full_width: if slot == 0 {
                            p.width
                        } else {
                            0
                        },
                        full_height: if slot == 0 {
                            p.height
                        } else {
                            0
                        },
                        level_width: sizes[level].0,
                        level_height: sizes[level].1,
                    },
                    p.art_direction_bloom_tint,
                    p.art_direction_bloom_softness,
                ),
            )
        }),
{
    lemma_rest(p, frame, scene, settings, input);
    let c = cut(scene.dag.groups@, input.projected_errors@, input.error_threshold_px);
    let character = 8 + times(c.len() > 0, 1);
    let clouds = character + times(p.character_visible, 1);
    let gi = p.ssgi_pass is Some && (Scalar { bits: 0x3A83_126F }).lt(settings.gi_intensity);
    let ssao = clouds + 1 + times(gi, 1);
    let bloom = ssao + times(p.ssao_pass is Some, 1);
    let taa = bloom + times(p.bloom_pass is Some, 9);
    let u = frame.uploads@;
    if p.bloom_pass is Some {
        let at = bloom + slot;
        bloom_has_five_levels(p.bloom_pass->0);
        let contents = slot_contents(p.bloom_pass->0.sizes(), p.width, p.height, slot);
        let write = p.bloom_writes()[slot];
        assert(carries_out(u[at], write));
        assert(write.words == bloom_words(
            contents,
            p.art_direction_bloom_tint,
            p.art_direction_bloom_softness,
        ));
    }
}

/// The blend is told of the camera and the shift of this frame and of the one before; it has no history
/// for two frames. Nothing else is uploaded.
#[verifier::rlimit(40)]
#[verifier::spinoff_prover]
pub proof fn frames_upload_their_blend(
    p: VisbufPipeline,
    frame: RecordedFrame,
    scene: RuntimeSceneGpu,
    settings: SceneSettings,
    input: FrameInputs,
)
    requires
        p.wf(),
        p.draws(frame, scene, settings, input),
    ensures
        ({
            let c = cut(scene.dag.groups@, input.projected_errors@, input.error_threshold_px);
            let character = 8 + times(c.len() > 0, 1);
            let clouds = character + times(p.character_visible, 1);
            let gi = p.ssgi_pass is Some && (Scalar { bits: 0x3A83_126F }).lt(settings.gi_intensity);
            let ssao = clouds + 1 + times(gi, 1);
            let bloom = ssao + times(p.ssao_pass is Some, 1);
            let taa = bloom + times(p.bloom_pass is Some, 9);
            let end = taa + times(p.taa_pass is Some, 1);
            let u = frame.uploads@;
            &&& u.len() == end
            &&& p.taa_pass is Some ==> u[taa].puts(
                Buffer::TaaUniforms,
                0,
                taa_uniforms(
                    TaaUniformInputs {
                        width: p.taa_pass->0.width,
                        height: p.taa_pass->0.height,
                        first_frame: p.taa_pass->0.frame_count < 2,
                        prev_view_proj: p.taa_pass->0.prev_view_proj,
                        prev_jitter: p.taa_pass->0.prev_jitter,
                    },
                    input.camera.inv_view_proj,
                    input.jitter,
                ).word_list(),
            )
        }),
{
    lemma_rest(p, frame, scene, settings, input);
    let c = cut(scene.dag.groups@, input.projected_errors@, input.error_threshold_px);
    let character = 8 + times(c.len() > 0, 1);
    let clouds = character + times(p.character_visible, 1);
    let gi = p.ssgi_pass is Some && (Scalar { bits: 0x3A83_126F }).lt(settings.gi_intensity);
    let ssao = clouds + 1 + times(gi, 1);
    let bloom = ssao + times(p.ssao_pass is Some, 1);
    let taa = bloom + times(p.bloom_pass is Some, 9);
    let end = taa + times(p.taa_pass is Some, 1);
    let u = frame.uploads@;
}

} // verus!
