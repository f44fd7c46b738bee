//! What a pipeline is when it is made, and what a frame, a new size or a preparation changes of it.

use vstd::prelude::*;

use crate::pipeline::frame_laws::times;
use crate::pipeline::gpu::{
    binds, computes, Buffer, Layout, Pipeline, Resource, Step, TexView, TextureDimension,
    TextureFormat,
};
use crate::pipeline::noise_textures::{detail_step, noise_fills_its_volumes, shape_step};
use crate::pipeline::sky_lut_pass::{sky_lut_steps, sky_tables_build_on_each_other, AtmosphereKey};
use crate::pipeline::uniforms::sky_tables_read;
use crate::pipeline::visbuf_pipeline::{
    frame_steps, limited_dt, CapturePlan, ExternalPass, FrameInputs, FrameStep, Preparation,
    VisbufPipeline,
};
use crate::scalar::{identity_matrix, Scalar};
use crate::scene::lighting::words_are;
use crate::scene::settings::{CloudResolution, SceneSettings};

verus! {

/// A new pipeline fits its screen, with every pass in it, but has drawn nothing: no scene is bound, no
/// character shown, no outline drawn, nothing of a frame before is remembered, and the tables of the
/// sky and the noise are still to be made.
pub proof fn new_pipelines_have_drawn_nothing(
    p: VisbufPipeline,
    width: u32,
    height: u32,
    min_uniform_align: u32,
)
    requires
        p.is_new(width, height, min_uniform_align),
    ensures
        p.width == width && p.height == height,
        !p.scene_bound && !p.character_visible && p.art_direction_outline_skip && !p.hzb_ready,
        !p.noise_textures.generated,
        p.sky_lut_pass.dirty,
        p.frame_index == 0,
        p.ssgi_pass matches Some(pass) && pass.width == width && pass.height == height,
        p.ssao_pass matches Some(pass) && pass.width == width && pass.height == height,
        p.taa_pass matches Some(pass) && pass.width == width && pass.height == height
            && pass.frame_count == 0 && pass.write_to_a,
        p.bloom_pass is Some,
        p.bloom_pass->0.sizes().len() == 5,
        width >= 2 ==> p.bloom_pass->0.sizes()[0].0 == width / 2,
        height >= 2 ==> p.bloom_pass->0.sizes()[0].1 == height / 2,
        width >= 2 ==> p.sun_shaft_pass.shaft_width == width / 2,
        height >= 2 ==> p.sun_shaft_pass.shaft_height == height / 2,
        p.cloud_pass.resolution_divisor == 4,
        width >= 4 ==> p.cloud_pass.quarter_w == width / 4,
        width < 4 ==> p.cloud_pass.quarter_w == 1,
        height >= 4 ==> p.cloud_pass.quarter_h == height / 4,
        height < 4 ==> p.cloud_pass.quarter_h == 1,
        p.cloud_pass.frame_count == 0 && p.cloud_pass.frame_index == 0 && !p.cloud_pass.current,
        p.shadow_focus is None,
        p.shadow_depth.bits == 0x430C_0000,
        p.art_direction_bloom_tint.x.bits == 0x3F80_0000,
        p.art_direction_bloom_tint.y.bits == 0x3F80_0000,
        p.art_direction_bloom_tint.z.bits == 0x3F80_0000,
        p.art_direction_bloom_softness.bits == 0,
        p.art_direction_color_grade.x.bits == 0x3F80_0000,
        p.art_direction_color_grade.y.bits == 0x3F80_0000,
        p.art_direction_color_grade.z.bits == 0x3F80_0000,
        p.art_direction_color_grade.w.bits == 0,
        p.art_direction_lod_bias.bits == 0,
        p.character_model == identity_matrix(),
        p.last_manual_exposure.bits == 0x3F80_0000,
        p.last_dt.bits == 0 && p.last_elapsed.bits == 0,
{
    reveal_with_fuel(crate::pipeline::bloom_pass::halved, 2);
}

/// A new size reaches every pass that depends on it, and what frames before left is forgotten. Which
/// passes there are, and everything else, stays.
pub proof fn new_sizes_reach_every_pass(
    before: VisbufPipeline,
    p: VisbufPipeline,
    width: u32,
    height: u32,
)
    requires
        before.wf(),
        p.is_resized(before, width, height),
    ensures
        p.width == width && p.height == height,
        p.vis_buffer.width == width && p.vis_buffer.height == height,
        p.hzb_pass.width == width && p.hzb_pass.height == height,
        !p.hzb_ready,
        p.ssgi_pass is Some <==> before.ssgi_pass is Some,
        p.ssgi_pass is Some ==> p.ssgi_pass->0.width == width && p.ssgi_pass->0.height == height,
        p.ssao_pass is Some <==> before.ssao_pass is Some,
        p.ssao_pass is Some ==> p.ssao_pass->0.width == width && p.ssao_pass->0.height == height,
        p.taa_pass is Some <==> before.taa_pass is Some,
        p.taa_pass is Some ==> p.taa_pass->0.width == width && p.taa_pass->0.height == height
            && p.taa_pass->0.frame_count == 0,
        p.bloom_pass is Some <==> before.bloom_pass is Some,
        p.bloom_pass is Some && width >= 2 ==> p.bloom_pass->0.sizes()[0].0 == width / 2,
        p.bloom_pass is Some && height >= 2 ==> p.bloom_pass->0.sizes()[0].1 == height / 2,
        width >= 2 ==> p.sun_shaft_pass.shaft_width == width / 2,
        height >= 2 ==> p.sun_shaft_pass.shaft_height == height / 2,
        p.cloud_pass.resolution_divisor == before.cloud_pass.resolution_divisor,
        width >= p.cloud_pass.resolution_divisor ==> p.cloud_pass.quarter_w == width as int
            / p.cloud_pass.resolution_divisor as int,
        height >= p.cloud_pass.resolution_divisor ==> p.cloud_pass.quarter_h == height as int
            / p.cloud_pass.resolution_divisor as int,
        p.cloud_pass.frame_count == 0 && !p.cloud_pass.current,
        p.hw_raster == before.hw_raster,
        p.cull_pass == before.cull_pass,
        p.sw_raster == before.sw_raster,
        p.shadow_pass == before.shadow_pass,
        p.sky_lut_pass == before.sky_lut_pass,
        p.forward_character == before.forward_character,
        p.noise_textures == before.noise_textures,
        p.dispatch_lists == before.dispatch_lists,
        p.scene_bound == before.scene_bound,
        p.shadow_focus == before.shadow_focus,
        p.shadow_depth == before.shadow_depth,
        p.art_direction_outline_skip == before.art_direction_outline_skip,
        p.art_direction_bloom_tint == before.art_direction_bloom_tint,
        p.art_direction_bloom_softness == before.art_direction_bloom_softness,
        p.art_direction_color_grade == before.art_direction_color_grade,
        p.art_direction_lod_bias == before.art_direction_lod_bias,
        p.character_model == before.character_model,
        p.character_visible == before.character_visible,
        p.last_manual_exposure == before.last_manual_exposure,
        p.last_dt == before.last_dt,
        p.last_elapsed == before.last_elapsed,
        p.frame_index == before.frame_index,
{
    reveal_with_fuel(crate::pipeline::bloom_pass::halved, 2);
    let d = before.cloud_pass.resolution_divisor;
    if width >= d {
        assert(width as int / d as int >= 1) by (nonlinear_arith)
            requires
                width >= d,
                d > 0,
        ;
    }
    if height >= d {
        assert(height as int / d as int >= 1) by (nonlinear_arith)
            requires
                height >= d,
                d > 0,
        ;
    }
}

/// What a frame leaves for the next one: its camera, its shift and its time; the textures of clouds and
/// of the blend have changed places, and the pyramid can be used. Nothing else changes.
pub proof fn frames_leave_their_traces(
    p: VisbufPipeline,
    settings: SceneSettings,
    input: FrameInputs,
)
    ensures
        ({
            let q = p.after_frame(settings, input);
            let divisor: u32 = match settings.cloud_profile.resolution {
                CloudResolution::Quarter => 4,
                CloudResolution::Half => 2,
            };
            let same = p.cloud_pass.resolution_divisor == divisor;
            &&& q.hzb_ready
            &&& q.last_manual_exposure == settings.exposure
            &&& q.last_elapsed == input.elapsed_secs
            &&& p.frame_index < u32::MAX ==> q.frame_index == p.frame_index + 1
            &&& p.frame_index == u32::MAX ==> q.frame_index == 0
            &&& q.cloud_pass.resolution_divisor == divisor
            &&& same ==> q.cloud_pass.quarter_w == p.cloud_pass.quarter_w
                && q.cloud_pass.quarter_h == p.cloud_pass.quarter_h
            &&& !same && p.width >= divisor ==> q.cloud_pass.quarter_w == p.width / divisor
            &&& !same && p.height >= divisor ==> q.cloud_pass.quarter_h == p.height / divisor
            &&& same ==> q.cloud_pass.current == !p.cloud_pass.current
            &&& !same ==> q.cloud_pass.current && q.cloud_pass.frame_count == 1
            &&& same && p.cloud_pass.frame_count < u32::MAX ==> q.cloud_pass.frame_count
                == p.cloud_pass.frame_count + 1
            &&& same && p.cloud_pass.frame_count == u32::MAX ==> q.cloud_pass.frame_count
                == u32::MAX
            &&& p.cloud_pass.frame_index < u32::MAX ==> q.cloud_pass.frame_index
                == p.cloud_pass.frame_index + 1
            &&& q.cloud_pass.prev_view_proj == input.camera.view_proj
            &&& q.cloud_pass.prev_elapsed == input.elapsed_secs
            &&& q.taa_pass is Some <==> p.taa_pass is Some
            &&& p.taa_pass is Some ==> q.taa_pass->0.write_to_a == !p.taa_pass->0.write_to_a
                && q.taa_pass->0.prev_view_proj == input.camera.view_proj
                && q.taa_pass->0.prev_jitter == input.jitter && q.taa_pass->0.width
                == p.taa_pass->0.width && q.taa_pass->0.height == p.taa_pass->0.height
            &&& p.taa_pass is Some && p.taa_pass->0.frame_count < u32::MAX
                ==> q.taa_pass->0.frame_count == p.taa_pass->0.frame_count + 1
            &&& p.taa_pass is Some && p.taa_pass->0.frame_count == u32::MAX
                ==> q.taa_pass->0.frame_count == u32::MAX
            &&& q.width == p.width
            &&& q.height == p.height
            &&& q.hw_raster == p.hw_raster
            &&& q.cull_pass == p.cull_pass
            &&& q.sw_raster == p.sw_raster
            &&& q.hzb_pass == p.hzb_pass
            &&& q.shadow_pass == p.shadow_pass
            &&& q.sky_lut_pass == p.sky_lut_pass
            &&& q.ssgi_pass == p.ssgi_pass
            &&& q.ssao_pass == p.ssao_pass
            &&& q.sun_shaft_pass == p.sun_shaft_pass
            &&& q.bloom_pass == p.bloom_pass
            &&& q.forward_character == p.forward_character
            &&& q.noise_textures == p.noise_textures
            &&& q.vis_buffer == p.vis_buffer
            &&& q.dispatch_lists == p.dispatch_lists
            &&& q.scene_bound == p.scene_bound
            &&& q.shadow_focus == p.shadow_focus
            &&& q.shadow_depth == p.shadow_depth
            &&& q.art_direction_outline_skip == p.art_direction_outline_skip
            &&& q.art_direction_bloom_tint == p.art_direction_bloom_tint
            &&& q.art_direction_bloom_softness == p.art_direction_bloom_softness
            &&& q.art_direction_color_grade == p.art_direction_color_grade
            &&& q.art_direction_lod_bias == p.art_direction_lod_bias
            &&& q.character_model == p.character_model
            &&& q.character_visible == p.character_visible
        }),
{
}

/// The step in time that a frame remembers is the one the clock gave, but for steps backwards, which
/// count as none, and steps longer than a quarter of a second, which count as that.
pub proof fn frames_limit_their_step(p: VisbufPipeline, settings: SceneSettings, input: FrameInputs)
    ensures
        ({
            let dt = p.after_frame(settings, input).last_dt;
            let delta = input.elapsed_delta;
            let quarter = Scalar { bits: 0x3E80_0000 };
            &&& (Scalar { bits: 0 }).lt(delta) && delta.lt(quarter) ==> dt == delta
            &&& !(Scalar { bits: 0 }).lt(delta) ==> dt.magnitude() == 0
            &&& !delta.is_nan() && !delta.lt(quarter) ==> dt == quarter
        }),
{
}

/// Before a frame the noise is made, where it has not been, and after it the tables of the sky, where
/// they are asked for or the sky's numbers have changed. Nothing else is.
#[verifier::rlimit(40)]
pub proof fn preparations_make_what_is_missing(
    p: VisbufPipeline,
    work: Preparation,
    key: AtmosphereKey,
)
    requires
        p.prepares(work, key),
    ensures
        ({
            let d = frame_steps(work.segments@);
            let cached = p.sky_lut_pass.cached;
            let same = key.sun_direction.x.eq_value(cached.sun_direction.x)
                && key.sun_direction.y.eq_value(cached.sun_direction.y)
                && key.sun_direction.z.eq_value(cached.sun_direction.z)
                && key.rayleigh_strength.eq_value(cached.rayleigh_strength)
                && key.mie_strength.eq_value(cached.mie_strength) && key.mie_anisotropy.eq_value(
                cached.mie_anisotropy,
            );
            let due = p.sky_lut_pass.dirty || !same;
            let sky = times(!p.noise_textures.generated, 2);
            &&& d.len() == sky + times(due, 3)
            &&& work.uploads@.len() == times(due, 1)
            &&& !p.noise_textures.generated ==> {
                &&& d[0] matches FrameStep::Recorded(Step::Dispatch {
                    pipeline,
                    groups,
                    x,
                    y,
                    z,
                }) && pipeline == Pipeline::NoiseShape && groups.len() == 1 && binds(
                    groups[0],
                    Layout::NoiseGen,
                    seq![Resource::View(TexView::NoiseShape)],
                ) && x == 32 && y == 32 && z == 32
                &&& d[1] matches FrameStep::Recorded(Step::Dispatch {
                    pipeline,
                    groups,
                    x,
                    y,
                    z,
                }) && pipeline == Pipeline::NoiseDetail && groups.len() == 1 && binds(
                    groups[0],
                    Layout::NoiseGen,
                    seq![Resource::View(TexView::NoiseDetail)],
                ) && x == 8 && y == 8 && z == 8
            }
            &&& due ==> {
                &&& d[sky] is Recorded && d[sky + 1] is Recorded && d[sky + 2] is Recorded
                &&& computes(
                    d[sky]->Recorded_0,
                    Pipeline::SkyTransmittance,
                    Layout::SkyLut,
                    seq![
                        Resource::Buffer(Buffer::SkyLutUniforms),
                        Resource::View(TexView::SkyDummy),
                        Resource::View(TexView::SkyDummy),
                        Resource::View(TexView::SkyTransmittance),
                    ],
                    256,
                    64,
                )
                &&& computes(
                    d[sky + 1]->Recorded_0,
                    Pipeline::SkyMultiscatter,
                    Layout::SkyLut,
                    seq![
                        Resource::Buffer(Buffer::SkyLutUniforms),
                        Resource::View(TexView::SkyTransmittance),
                        Resource::View(TexView::SkyDummy),
                        Resource::View(TexView::SkyMultiscatter),
                    ],
                    32,
                    32,
                )
                &&& computes(
                    d[sky + 2]->Recorded_0,
                    Pipeline::SkyView,
                    Layout::SkyLut,
                    seq![
                        Resource::Buffer(Buffer::SkyLutUniforms),
                        Resource::View(TexView::SkyTransmittance),
                        Resource::View(TexView::SkyMultiscatter),
                        Resource::View(TexView::SkyView),
                    ],
                    192,
                    108,
                )
            }
        }),
{
    noise_fills_its_volumes();
    sky_tables_build_on_each_other();
    let d = frame_steps(work.segments@);
    let sky = times(!p.noise_textures.generated, 2);
    let all = sky_lut_steps();
    if !p.noise_textures.generated {
        assert(d[0] == FrameStep::Recorded(shape_step()));
        assert(d[1] == FrameStep::Recorded(detail_step()));
    }
    if p.sky_lut_pass.dirty || !key.matches(p.sky_lut_pass.cached) {
        assert(d[sky] == FrameStep::Recorded(all[0]));
        assert(d[sky + 1] == FrameStep::Recorded(all[1]));
        assert(d[sky + 2] == FrameStep::Recorded(all[2]));
    }
}

/// The tables are made for the sky as it is now: its numbers are what is uploaded for them.
pub proof fn preparations_upload_the_sky(
    p: VisbufPipeline,
    work: Preparation,
    key: AtmosphereKey,
) -> (w: Seq<u32>)
    requires
        p.prepares(work, key),
        work.uploads@.len() > 0,
        !key.matches(p.sky_lut_pass.cached),
    ensures
        work.uploads@[0].puts(Buffer::SkyLutUniforms, 0, w),
        words_are(
            w,
            0,
            key.sun_direction.x.bits,
            key.sun_direction.y.bits,
            key.sun_direction.z.bits,
            0,
        ),
        words_are(
            w,
            4,
            key.rayleigh_strength.bits,
            key.mie_strength.bits,
            key.mie_anisotropy.bits,
            0,
        ),
{
    let pass = p.after_preparation(key).sky_lut_pass;
    sky_tables_read(pass);
    crate::pipeline::uniforms::atmosphere_params(pass).word_list()
}

/// After a preparation noise and tables are up to date: another one with the same numbers, none of
/// which is a NaN, makes nothing. Nothing else changes.
pub proof fn preparations_are_not_repeated(p: VisbufPipeline, key: AtmosphereKey)
    ensures
        ({
            let q = p.after_preparation(key);
            &&& q.noise_textures.generated
            &&& !q.sky_lut_pass.dirty
            &&& key.matches(key) ==> q.preparation(key).len() == 0
            &&& !key.matches(p.sky_lut_pass.cached) ==> q.sky_lut_pass.cached == key
            &&& key.matches(p.sky_lut_pass.cached) ==> q.sky_lut_pass.cached
                == p.sky_lut_pass.cached
            &&& q.width == p.width
            &&& q.height == p.height
            &&& q.hw_raster == p.hw_raster
            &&& q.cull_pass == p.cull_pass
            &&& q.sw_raster == p.sw_raster
            &&& q.hzb_pass == p.hzb_pass
            &&& q.shadow_pass == p.shadow_pass
            &&& q.cloud_pass == p.cloud_pass
            &&& q.ssgi_pass == p.ssgi_pass
            &&& q.ssao_pass == p.ssao_pass
            &&& q.sun_shaft_pass == p.sun_shaft_pass
            &&& q.bloom_pass == p.bloom_pass
            &&& q.taa_pass == p.taa_pass
            &&& q.forward_character == p.forward_character
            &&& q.vis_buffer == p.vis_buffer
            &&& q.dispatch_lists == p.dispatch_lists
            &&& q.scene_bound == p.scene_bound
            &&& q.shadow_focus == p.shadow_focus
            &&& q.shadow_depth == p.shadow_depth
            &&& q.art_direction_outline_skip == p.art_direction_outline_skip
            &&& q.art_direction_bloom_tint == p.art_direction_bloom_tint
            &&& q.art_direction_bloom_softness == p.art_direction_bloom_softness
            &&& q.art_direction_color_grade == p.art_direction_color_grade
            &&& q.art_direction_lod_bias == p.art_direction_lod_bias
            &&& q.character_model == p.character_model
            &&& q.character_visible == p.character_visible
            &&& q.last_manual_exposure == p.last_manual_exposure
            &&& q.last_dt == p.last_dt
            &&& q.last_elapsed == p.last_elapsed
            &&& q.hzb_ready == p.hzb_ready
            &&& q.frame_index == p.frame_index
        }),
{
}

/// What is read back is the frame that was drawn last: the newest colour, mapped with its exposure to an
/// image of the screen's size in the format that is shown, which can be copied.
pub proof fn captures_show_the_last_frame(
    before: VisbufPipeline,
    settings: SceneSettings,
    input: FrameInputs,
    plan: CapturePlan,
    format: TextureFormat,
)
    requires
        before.after_frame(settings, input).captures(plan, format),
    ensures
        plan.texture.view == TexView::Capture,
        plan.texture.width == before.width && plan.texture.height == before.height,
        plan.texture.layers == 1 && plan.texture.mip_levels == 1,
        plan.texture.dimension == TextureDimension::D2,
        plan.texture.format == format,
        plan.texture.usage.copy_src && plan.texture.usage.render_attachment,
        plan.exposure == settings.exposure,
        plan.dt == limited_dt(input.elapsed_delta),
        plan.tonemap matches ExternalPass::Tonemap { source, ao, target } && target
            == TexView::Capture && source == (if before.taa_pass is Some {
            TexView::TaaHistory(before.taa_pass->0.write_to_a)
        } else {
            TexView::SceneColor
        }) && ao == (if before.ssao_pass is Some {
            Some(TexView::SsaoBlurred)
        } else {
            None
        }),
        plan.readback is Some <==> 4 * before.width <= 0xFFFF_FF00 && 4 * before.width
            * before.height <= 0xFFFF_FFFF,
        plan.readback is Some ==> plan.readback->0.width == before.width
            && plan.readback->0.height == before.height,
{
    crate::pipeline::capture::captures_fit_32_bits(before.width, before.height);
}

} // verus!
