//! The layouts that pipelines are made for, and what they draw to.

use vstd::prelude::*;

use crate::pipeline::{
    bloom_pass, cloud_pass, cull_pass, dag_traverse_pass, forward_character, gtao_pass,
    hw_raster_pass, hzb_pass, ibl_pass, motion_blur_pass, noise_textures, redwood_animation_pass,
    shadow_pass, sky_lut_pass, ssao_pass, ssgi_pass, ssr_pass, sun_shaft_pass, sw_raster_pass,
    taa_pass, visbuf_pipeline, volumetric_fog_pass,
};
use crate::pipeline::gpu::{BindingType, Layout, LayoutEntry, Pipeline, TextureFormat};

verus! {

/// How what a pipeline draws is combined with what is there.
#[derive(Clone, Copy, Debug, PartialEq, Eq, Structural)]
pub enum Blend {
    /// The new colour replaces the old, without blending.
    Replace,
    /// The new colour is added; alpha is composited over.
    Add,
    /// The new colour is added; alpha stays.
    AddKeepAlpha,
    /// The old colour is scaled by the new alpha, and the new colour is added; alpha is composited
    /// over.
    Transmit,
}

/// The slots of a layout.
pub open spec fn entries_of(layout: Layout) -> Seq<LayoutEntry> {
    match layout {
        Layout::Frame => hw_raster_pass::frame_entries(),
        Layout::Mesh => hw_raster_pass::mesh_entries(),
        Layout::HwDispatch => hw_raster_pass::dispatch_entries(),
        Layout::SwDispatch => sw_raster_pass::dispatch_entries(),
        Layout::CullData => cull_pass::cull_entries(),
        Layout::CullDispatch => cull_pass::dispatch_entries(),
        Layout::DagTraverse => dag_traverse_pass::dag_entries(),
        Layout::ArtDirection => visbuf_pipeline::art_direction_entries(),
        Layout::HzbDepthCopy => hzb_pass::depth_copy_entries(),
        Layout::HzbBuild => hzb_pass::build_entries(),
        Layout::BloomThreshold => bloom_pass::threshold_entries(),
        Layout::BloomDownsample => bloom_pass::downsample_entries(),
        Layout::BloomUpsample => bloom_pass::upsample_entries(),
        Layout::BloomComposite => bloom_pass::composite_entries(),
        Layout::CloudMarch => cloud_pass::march_entries(),
        Layout::CloudTemporal => cloud_pass::temporal_entries(),
        Layout::CloudComposite => cloud_pass::composite_entries(),
        Layout::NoiseGen => noise_textures::noise_entries(),
        Layout::SkyLut => sky_lut_pass::sky_lut_entries(),
        Layout::TaaMotion => taa_pass::motion_entries(),
        Layout::TaaResolve => taa_pass::resolve_entries(),
        Layout::SsgiSample => ssgi_pass::sample_entries(),
        Layout::SsgiBlur => ssgi_pass::blur_entries(),
        Layout::SsgiComposite => ssgi_pass::composite_entries(),
        Layout::SsaoSample => ssao_pass::sample_entries(),
        Layout::SsaoBlur => ssao_pass::blur_entries(),
        Layout::GtaoSample => gtao_pass::sample_entries(),
        Layout::GtaoBlur => gtao_pass::blur_entries(),
        Layout::SsrTrace => ssr_pass::trace_entries(),
        Layout::SsrComposite => ssr_pass::composite_entries(),
        Layout::FogInject => volumetric_fog_pass::inject_entries(),
        Layout::FogIntegrate => volumetric_fog_pass::integrate_entries(),
        Layout::FogComposite => volumetric_fog_pass::composite_entries(),
        Layout::MotionTileMax => motion_blur_pass::tile_max_entries(),
        Layout::MotionBlur => motion_blur_pass::blur_entries(),
        Layout::SunShaftOcclusion => sun_shaft_pass::occlusion_entries(),
        Layout::SunShaftComposite => sun_shaft_pass::composite_entries(),
        Layout::Brdf => ibl_pass::brdf_entries(),
        Layout::Prefilter => ibl_pass::prefilter_entries(),
        Layout::ShadowCascade => shadow_pass::cascade_entries(),
        Layout::RedwoodCommon => redwood_animation_pass::common_entries(),
        Layout::RedwoodRest => redwood_animation_pass::rest_entries(),
        Layout::RedwoodOutput => redwood_animation_pass::output_entries(),
        Layout::CharacterScene => forward_character::scene_entries(),
        Layout::CharacterModel => forward_character::model_entries(),
    }
}

/// The slots of a layout.
pub fn layout_entries(layout: Layout) -> (entries: Vec<LayoutEntry>)
    ensures
        entries@ == entries_of(layout),
{
    match layout {
        Layout::Frame => hw_raster_pass::frame_layout(),
        Layout::Mesh => hw_raster_pass::mesh_layout(),
        Layout::HwDispatch => hw_raster_pass::dispatch_layout(),
        Layout::SwDispatch => sw_raster_pass::dispatch_layout(),
        Layout::CullData => cull_pass::cull_layout(),
        Layout::CullDispatch => cull_pass::dispatch_layout(),
        Layout::DagTraverse => dag_traverse_pass::dag_layout(),
        Layout::ArtDirection => visbuf_pipeline::art_direction_layout(),
        Layout::HzbDepthCopy => hzb_pass::depth_copy_layout(),
        Layout::HzbBuild => hzb_pass::build_layout(),
        Layout::BloomThreshold => bloom_pass::threshold_layout(),
        Layout::BloomDownsample => bloom_pass::downsample_layout(),
        Layout::BloomUpsample => bloom_pass::upsample_layout(),
        Layout::BloomComposite => bloom_pass::composite_layout(),
        Layout::CloudMarch => cloud_pass::march_layout(),
        Layout::CloudTemporal => cloud_pass::temporal_layout(),
        Layout::CloudComposite => cloud_pass::composite_layout(),
        Layout::NoiseGen => noise_textures::noise_layout(),
        Layout::SkyLut => sky_lut_pass::sky_lut_layout(),
        Layout::TaaMotion => taa_pass::motion_layout(),
        Layout::TaaResolve => taa_pass::resolve_layout(),
        Layout::SsgiSample => ssgi_pass::sample_layout(),
        Layout::SsgiBlur => ssgi_pass::blur_layout(),
        Layout::SsgiComposite => ssgi_pass::composite_layout(),
        Layout::SsaoSample => ssao_pass::sample_layout(),
        Layout::SsaoBlur => ssao_pass::blur_layout(),
        Layout::GtaoSample => gtao_pass::sample_layout(),
        Layout::GtaoBlur => gtao_pass::blur_layout(),
        Layout::SsrTrace => ssr_pass::trace_layout(),
        Layout::SsrComposite => ssr_pass::composite_layout(),
        Layout::FogInject => volumetric_fog_pass::inject_layout(),
        Layout::FogIntegrate => volumetric_fog_pass::integrate_layout(),
        Layout::FogComposite => volumetric_fog_pass::composite_layout(),
        Layout::MotionTileMax => motion_blur_pass::tile_max_layout(),
        Layout::MotionBlur => motion_blur_pass::blur_layout(),
        Layout::SunShaftOcclusion => sun_shaft_pass::occlusion_layout(),
        Layout::SunShaftComposite => sun_shaft_pass::composite_layout(),
        Layout::Brdf => ibl_pass::brdf_layout(),
        Layout::Prefilter => ibl_pass::prefilter_layout(),
        Layout::ShadowCascade => shadow_pass::cascade_layout(),
        Layout::RedwoodCommon => redwood_animation_pass::common_layout(),
        Layout::RedwoodRest => redwood_animation_pass::rest_layout(),
        Layout::RedwoodOutput => redwood_animation_pass::output_layout(),
        Layout::CharacterScene => forward_character::scene_layout(),
        Layout::CharacterModel => forward_character::model_layout(),
    }
}

/// The layouts of a pipeline's groups.
pub open spec fn layouts_of(pipeline: Pipeline) -> Seq<Layout> {
    match pipeline {
        Pipeline::HwVisibility => seq![Layout::Frame, Layout::Mesh, Layout::HwDispatch],
        Pipeline::SwRaster => seq![Layout::Frame, Layout::Mesh, Layout::SwDispatch],
        Pipeline::MeshletCull => seq![Layout::Frame, Layout::CullData, Layout::CullDispatch],
        Pipeline::MeshletCullPhase2 => seq![Layout::Frame, Layout::CullData, Layout::CullDispatch],
        Pipeline::DagTraverse => seq![Layout::Frame, Layout::DagTraverse],
        Pipeline::DagPrepareIndirect => seq![Layout::Frame, Layout::DagTraverse],
        Pipeline::HzbDepthCopy => seq![Layout::HzbDepthCopy],
        Pipeline::HzbBuild => seq![Layout::HzbBuild],
        Pipeline::BloomThreshold => seq![Layout::BloomThreshold],
        Pipeline::BloomDownsample => seq![Layout::BloomDownsample],
        Pipeline::BloomUpsample => seq![Layout::BloomUpsample],
        Pipeline::BloomComposite => seq![Layout::BloomComposite],
        Pipeline::CloudMarch => seq![Layout::CloudMarch],
        Pipeline::CloudTemporal => seq![Layout::CloudTemporal],
        Pipeline::CloudComposite => seq![Layout::CloudComposite],
        Pipeline::NoiseShape => seq![Layout::NoiseGen],
        Pipeline::NoiseDetail => seq![Layout::NoiseGen],
        Pipeline::SkyTransmittance => seq![Layout::SkyLut],
        Pipeline::SkyMultiscatter => seq![Layout::SkyLut],
        Pipeline::SkyView => seq![Layout::SkyLut],
        Pipeline::TaaMotion => seq![Layout::TaaMotion],
        Pipeline::TaaResolve => seq![Layout::TaaResolve],
        Pipeline::SsgiSample => seq![Layout::SsgiSample],
        Pipeline::SsgiBlur => seq![Layout::SsgiBlur],
        Pipeline::SsgiComposite => seq![Layout::SsgiComposite],
        Pipeline::SsaoSample => seq![Layout::SsaoSample],
        Pipeline::SsaoBlur => seq![Layout::SsaoBlur],
        Pipeline::GtaoSample => seq![Layout::GtaoSample],
        Pipeline::GtaoBlur => seq![Layout::GtaoBlur],
        Pipeline::SsrTrace => seq![Layout::SsrTrace],
        Pipeline::SsrComposite => seq![Layout::SsrComposite],
        Pipeline::FogInject => seq![Layout::FogInject],
        Pipeline::FogIntegrate => seq![Layout::FogIntegrate],
        Pipeline::FogComposite => seq![Layout::FogComposite],
        Pipeline::MotionTileMax => seq![Layout::MotionTileMax],
        Pipeline::MotionBlur => seq![Layout::MotionBlur],
        Pipeline::SunShaftOcclusion => seq![Layout::SunShaftOcclusion],
        Pipeline::SunShaftComposite => seq![Layout::SunShaftComposite],
        Pipeline::BrdfLut => seq![Layout::Brdf],
        Pipeline::SkyToCubemap => seq![Layout::Prefilter],
        Pipeline::PrefilterMip => seq![Layout::Prefilter],
        Pipeline::Shadow => seq![Layout::ShadowCascade],
        Pipeline::RedwoodSimulate => seq![Layout::RedwoodCommon],
        Pipeline::RedwoodDeform => seq![
            Layout::RedwoodCommon,
            Layout::RedwoodRest,
            Layout::RedwoodOutput,
        ],
        Pipeline::ForwardCharacter => seq![Layout::CharacterScene, Layout::CharacterModel],
    }
}

/// The layouts of a pipeline's groups, from group zero on.
pub fn pipeline_layouts(pipeline: Pipeline) -> (layouts: Vec<Layout>)
    ensures
        layouts@ == layouts_of(pipeline),
{
    match pipeline {
        Pipeline::HwVisibility => vec![Layout::Frame, Layout::Mesh, Layout::HwDispatch],
        Pipeline::SwRaster => vec![Layout::Frame, Layout::Mesh, Layout::SwDispatch],
        Pipeline::MeshletCull => vec![Layout::Frame, Layout::CullData, Layout::CullDispatch],
        Pipeline::MeshletCullPhase2 => vec![Layout::Frame, Layout::CullData, Layout::CullDispatch],
        Pipeline::DagTraverse => vec![Layout::Frame, Layout::DagTraverse],
        Pipeline::DagPrepareIndirect => vec![Layout::Frame, Layout::DagTraverse],
        Pipeline::HzbDepthCopy => vec![Layout::HzbDepthCopy],
        Pipeline::HzbBuild => vec![Layout::HzbBuild],
        Pipeline::BloomThreshold => vec![Layout::BloomThreshold],
        Pipeline::BloomDownsample => vec![Layout::BloomDownsample],
        Pipeline::BloomUpsample => vec![Layout::BloomUpsample],
        Pipeline::BloomComposite => vec![Layout::BloomComposite],
        Pipeline::CloudMarch => vec![Layout::CloudMarch],
        Pipeline::CloudTemporal => vec![Layout::CloudTemporal],
        Pipeline::CloudComposite => vec![Layout::CloudComposite],
        Pipeline::NoiseShape => vec![Layout::NoiseGen],
        Pipeline::NoiseDetail => vec![Layout::NoiseGen],
        Pipeline::SkyTransmittance => vec![Layout::SkyLut],
        Pipeline::SkyMultiscatter => vec![Layout::SkyLut],
        Pipeline::SkyView => vec![Layout::SkyLut],
        Pipeline::TaaMotion => vec![Layout::TaaMotion],
        Pipeline::TaaResolve => vec![Layout::TaaResolve],
        Pipeline::SsgiSample => vec![Layout::SsgiSample],
        Pipeline::SsgiBlur => vec![Layout::SsgiBlur],
        Pipeline::SsgiComposite => vec![Layout::SsgiComposite],
        Pipeline::SsaoSample => vec![Layout::SsaoSample],
        Pipeline::SsaoBlur => vec![Layout::SsaoBlur],
        Pipeline::GtaoSample => vec![Layout::GtaoSample],
        Pipeline::GtaoBlur => vec![Layout::GtaoBlur],
        Pipeline::SsrTrace => vec![Layout::SsrTrace],
        Pipeline::SsrComposite => vec![Layout::SsrComposite],
        Pipeline::FogInject => vec![Layout::FogInject],
        Pipeline::FogIntegrate => vec![Layout::FogIntegrate],
        Pipeline::FogComposite => vec![Layout::FogComposite],
        Pipeline::MotionTileMax => vec![Layout::MotionTileMax],
        Pipeline::MotionBlur => vec![Layout::MotionBlur],
        Pipeline::SunShaftOcclusion => vec![Layout::SunShaftOcclusion],
        Pipeline::SunShaftComposite => vec![Layout::SunShaftComposite],
        Pipeline::BrdfLut => vec![Layout::Brdf],
        Pipeline::SkyToCubemap => vec![Layout::Prefilter],
        Pipeline::PrefilterMip => vec![Layout::Prefilter],
        Pipeline::Shadow => vec![Layout::ShadowCascade],
        Pipeline::RedwoodSimulate => vec![Layout::RedwoodCommon],
        Pipeline::RedwoodDeform => vec![
            Layout::RedwoodCommon,
            Layout::RedwoodRest,
            Layout::RedwoodOutput,
        ],
        Pipeline::ForwardCharacter => vec![Layout::CharacterScene, Layout::CharacterModel],
    }
}

/// The format of the colour that a pipeline draws. A pipeline that draws none computes, or draws
/// depth alone.
#[verifier::allow_in_spec]
pub fn target_of(pipeline: Pipeline) -> Option<TextureFormat>
    returns
        (match pipeline {
            Pipeline::HwVisibility => Some(TextureFormat::R32Uint),
            Pipeline::SunShaftOcclusion => Some(TextureFormat::Rgba8Unorm),
            Pipeline::BloomComposite
            | Pipeline::CloudComposite
            | Pipeline::SsgiComposite
            | Pipeline::SsrComposite
            | Pipeline::FogComposite
            | Pipeline::SunShaftComposite
            | Pipeline::ForwardCharacter => Some(TextureFormat::Rgba16Float),
            _ => None,
        }),
{
    match pipeline {
        Pipeline::HwVisibility => Some(TextureFormat::R32Uint),
        Pipeline::SunShaftOcclusion => Some(TextureFormat::Rgba8Unorm),
        Pipeline::BloomComposite
        | Pipeline::CloudComposite
        | Pipeline::SsgiComposite
        | Pipeline::SsrComposite
        | Pipeline::FogComposite
        | Pipeline::SunShaftComposite
        | Pipeline::ForwardCharacter => Some(TextureFormat::Rgba16Float),
        _ => None,
    }
}

/// How a pipeline's colour is combined with what is there.
#[verifier::allow_in_spec]
pub fn blend_of(pipeline: Pipeline) -> Blend
    returns
        (match pipeline {
            Pipeline::BloomComposite => Blend::AddKeepAlpha,
            Pipeline::CloudComposite | Pipeline::FogComposite => Blend::Transmit,
            Pipeline::SsgiComposite
            | Pipeline::SsrComposite
            | Pipeline::SunShaftComposite => Blend::Add,
            _ => Blend::Replace,
        }),
{
    match pipeline {
        Pipeline::BloomComposite => Blend::AddKeepAlpha,
        Pipeline::CloudComposite | Pipeline::FogComposite => Blend::Transmit,
        Pipeline::SsgiComposite | Pipeline::SsrComposite | Pipeline::SunShaftComposite => Blend::Add,
        _ => Blend::Replace,
    }
}

/// Whether a pipeline draws with depth: nearer fragments win and are written.
#[verifier::allow_in_spec]
pub fn writes_depth(pipeline: Pipeline) -> bool
    returns
        (match pipeline {
            Pipeline::HwVisibility | Pipeline::Shadow | Pipeline::ForwardCharacter => true,
            _ => false,
        }),
{
    match pipeline {
        Pipeline::HwVisibility | Pipeline::Shadow | Pipeline::ForwardCharacter => true,
        _ => false,
    }
}

/// Whether a pipeline drops triangles that face away.
#[verifier::allow_in_spec]
pub fn culls_back_faces(pipeline: Pipeline) -> bool
    returns
        (match pipeline {
            Pipeline::Shadow | Pipeline::ForwardCharacter => true,
            _ => false,
        }),
{
    match pipeline {
        Pipeline::Shadow | Pipeline::ForwardCharacter => true,
        _ => false,
    }
}

/// A pipeline that blends draws HDR colour, and without depth.
pub proof fn composites_blend(pipeline: Pipeline)
    ensures
        blend_of(pipeline) != Blend::Replace ==> target_of(pipeline) == Some(
            TextureFormat::Rgba16Float,
        ) && !writes_depth(pipeline),
{
}

/// Whether a pipeline draws: it has a colour or a depth to draw to.
pub open spec fn is_drawn(pipeline: Pipeline) -> bool {
    target_of(pipeline) is Some || writes_depth(pipeline)
}

/// The slots of a layout are numbered from zero, and a shader of the pipeline sees each of them: one
/// that computes, or one that draws.
#[verifier::rlimit(80)]
pub proof fn shaders_see_their_slots(pipeline: Pipeline, g: int, i: int)
    requires
        0 <= g < layouts_of(pipeline).len(),
        0 <= i < entries_of(layouts_of(pipeline)[g]).len(),
    ensures
        ({
            let entry = entries_of(layouts_of(pipeline)[g])[i];
            &&& entry.binding == i
            &&& is_drawn(pipeline) ==> entry.stages.vertex || entry.stages.fragment
            &&& !is_drawn(pipeline) ==> entry.stages.compute
        }),
{
}

/// Lists that culling fills and the queue of what it hides can be written; queues that it reads, what it
/// knows of the meshlets, the geometry, and the lists that are drawn cannot.
pub proof fn shaders_write_what_they_fill()
    ensures
        ({
            let e = entries_of(Layout::CullDispatch);
            &&& e.len() == 9
            &&& e[0].ty == (BindingType::Storage { read_only: false })
            &&& e[1].ty == (BindingType::Storage { read_only: false })
            &&& e[2].ty == (BindingType::Storage { read_only: false })
            &&& e[3].ty == (BindingType::Storage { read_only: false })
            &&& e[4].ty == (BindingType::Storage { read_only: true })
            &&& e[5].ty == (BindingType::Storage { read_only: true })
            &&& e[6].ty is Texture
            &&& e[7].ty == (BindingType::Storage { read_only: false })
            &&& e[8].ty == (BindingType::Storage { read_only: false })
        }),
        forall|i: int|
            0 <= i < entries_of(Layout::CullData).len() ==> (#[trigger] entries_of(
                Layout::CullData,
            )[i]).ty == (BindingType::Storage { read_only: true }),
        forall|i: int|
            0 <= i < entries_of(Layout::Mesh).len() ==> (#[trigger] entries_of(Layout::Mesh)[i]).ty
                == (BindingType::Storage { read_only: true }),
        entries_of(Layout::HwDispatch)[0].ty == (BindingType::Storage { read_only: true }),
        entries_of(Layout::SwDispatch)[0].ty == (BindingType::Storage { read_only: true }),
        entries_of(Layout::SwDispatch)[1].ty == (BindingType::Storage { read_only: false }),
        entries_of(Layout::DagTraverse).len() == 6,
        entries_of(Layout::DagTraverse)[0].ty == (BindingType::Storage { read_only: true }),
        forall|i: int|
            1 <= i < 6 ==> (#[trigger] entries_of(Layout::DagTraverse)[i]).ty == (
            BindingType::Storage { read_only: false }),
        entries_of(Layout::RedwoodCommon)[1].ty == (BindingType::Storage { read_only: true }),
        entries_of(Layout::RedwoodCommon)[2].ty == (BindingType::Storage { read_only: false }),
        entries_of(Layout::RedwoodRest)[0].ty == (BindingType::Storage { read_only: true }),
        entries_of(Layout::RedwoodOutput)[0].ty == (BindingType::Storage { read_only: false }),
        entries_of(Layout::Frame)[0].ty is Uniform,
        entries_of(Layout::ShadowCascade)[0].ty == (BindingType::Uniform {
            dynamic_offset: true,
            min_size: 64,
        }),
{
}

/// Light is added to what is there, bloom without touching what lies in alpha; clouds and fog let a part
/// of it through; everything else replaces it. Only the visibility buffer, shadows and the character
/// are drawn with depth, and of those the latter two drop what faces away.
pub proof fn composites_combine_with_what_is_there(pipeline: Pipeline)
    ensures
        blend_of(pipeline) == Blend::Add <==> pipeline == Pipeline::SsgiComposite || pipeline
            == Pipeline::SsrComposite || pipeline == Pipeline::SunShaftComposite,
        blend_of(pipeline) == Blend::AddKeepAlpha <==> pipeline == Pipeline::BloomComposite,
        blend_of(pipeline) == Blend::Transmit <==> pipeline == Pipeline::CloudComposite || pipeline
            == Pipeline::FogComposite,
        writes_depth(pipeline) <==> pipeline == Pipeline::HwVisibility || pipeline
            == Pipeline::Shadow || pipeline == Pipeline::ForwardCharacter,
        culls_back_faces(pipeline) <==> pipeline == Pipeline::Shadow || pipeline
            == Pipeline::ForwardCharacter,
        target_of(pipeline) == Some(TextureFormat::R32Uint) <==> pipeline
            == Pipeline::HwVisibility,
        target_of(pipeline) == Some(TextureFormat::Rgba8Unorm) <==> pipeline
            == Pipeline::SunShaftOcclusion,
        target_of(pipeline) == Some(TextureFormat::Rgba16Float) <==> blend_of(pipeline)
            != Blend::Replace || pipeline == Pipeline::ForwardCharacter,
{
}

} // verus!
