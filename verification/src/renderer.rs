//! The renderer that a host drives.

use vstd::prelude::*;

use crate::dag_cut::acyclic;
use crate::pipeline::gpu::{Buffer, TextureFormat};
use crate::pipeline::sky_lut_pass::AtmosphereKey;
use crate::pipeline::upload::{words_to, Upload};
use crate::pipeline::visbuf_pipeline::{
    CapturePlan, FrameInputs, Preparation, RecordedFrame, ShadowFocus, VisbufPipeline,
};
use crate::scalar::{Scalar, Vec4};
use crate::scene::bounds::Vec3;
use crate::scene::settings::SceneSettings;
use crate::scene_upload::RuntimeSceneGpu;

verus! {

#[derive(Debug)]
pub struct Renderer {
    pub pipeline: VisbufPipeline,
}

impl Renderer {
    /// A renderer for a screen, on a device that aligns uniform offsets to `min_uniform_align`.
    pub fn new(width: u32, height: u32, min_uniform_align: u32) -> (renderer: Renderer)
        requires
            0 < min_uniform_align,
            min_uniform_align * 3 <= u32::MAX,
        ensures
            renderer.pipeline.wf(),
            renderer.pipeline.is_new(width, height, min_uniform_align),
    {
        Renderer { pipeline: VisbufPipeline::new(width, height, min_uniform_align) }
    }

    /// Fits the renderer to a screen and binds the scene again.
    pub fn resize(&mut self, width: u32, height: u32)
        requires
            old(self).pipeline.wf(),
        ensures
            final(self).pipeline.wf(),
            exists|resized: VisbufPipeline|
                #[trigger] resized.is_resized(old(self).pipeline, width, height)
                    && final(self).pipeline == (VisbufPipeline { scene_bound: true, ..resized }),
    {
        self.pipeline.resize(width, height);
        self.pipeline.sync_scene_resources();
    }

    /// Sets where shadows are centred and how deep they reach.
    pub fn configure_shadow(
        &mut self,
        shadow_center: Vec3,
        shadow_base_radius: Scalar,
        shadow_depth: Scalar,
    )
        ensures
            final(self).pipeline == (VisbufPipeline {
                shadow_focus: Some(
                    ShadowFocus { center: shadow_center, base_radius: shadow_base_radius },
                ),
                shadow_depth,
                ..old(self).pipeline
            }),
    {
        self.pipeline.shadow_focus =
        Some(ShadowFocus { center: shadow_center, base_radius: shadow_base_radius });
        self.pipeline.shadow_depth = shadow_depth;
    }

    /// What precedes a frame, before there is an image to draw to.
    pub fn prepare(&mut self, atmosphere: AtmosphereKey) -> (work: Preparation)
        requires
            old(self).pipeline.wf(),
        ensures
            final(self).pipeline.wf(),
            old(self).pipeline.prepares(work, atmosphere),
            final(self).pipeline == old(self).pipeline.after_preparation(atmosphere),
    {
        self.pipeline.prepare(atmosphere)
    }

    /// Records a frame.
    pub fn render(
        &mut self,
        scene: &RuntimeSceneGpu,
        settings: &SceneSettings,
        input: &FrameInputs,
    ) -> (frame: RecordedFrame)
        requires
            old(self).pipeline.wf(),
            scene.dag.groups@.len() <= u32::MAX,
            acyclic(scene.dag.groups@),
            input.projected_errors@.len() == scene.dag.groups@.len(),
            forall|i: int|
                0 <= i < scene.shadow_opaque_list@.len() ==> scene.shadow_opaque_list@[i]
                    < scene.shadow_meshes@.len(),
        ensures
            final(self).pipeline.wf(),
            final(self).pipeline == old(self).pipeline.after_frame(*settings, *input),
            old(self).pipeline.draws(frame, *scene, *settings, *input),
    {
        self.pipeline.render(scene, settings, input)
    }

    /// Plans the reading back of the frame that was drawn last.
    pub fn capture_frame(&self, surface_format: TextureFormat) -> (plan: CapturePlan)
        ensures
            self.pipeline.captures(plan, surface_format),
    {
        self.pipeline.capture_frame(surface_format)
    }

    /// The buffer of the art direction, for the host to fill.
    pub fn art_direction_buffer(&self) -> (buffer: Buffer)
        ensures
            buffer == Buffer::ArtDirectionUniforms,
    {
        Buffer::ArtDirectionUniforms
    }

    /// The buffer of its palette, for the host to fill.
    pub fn art_direction_palette_buffer(&self) -> (buffer: Buffer)
        ensures
            buffer == Buffer::ArtDirectionPalette,
    {
        Buffer::ArtDirectionPalette
    }

    /// What the host writes where the bark's parameters change: their words.
    pub fn write_bark_params(&self, words: &[u32]) -> (upload: Upload)
        ensures
            upload.puts(Buffer::BarkUniforms, 0, words@),
    {
        words_to(Buffer::BarkUniforms, words)
    }

    /// Leaves the outline out, or draws it.
    pub fn set_outline_skip(&mut self, skip: bool)
        ensures
            final(self).pipeline == (VisbufPipeline {
                art_direction_outline_skip: skip,
                ..old(self).pipeline
            }),
    {
        self.pipeline.art_direction_outline_skip = skip;
    }

    /// Sets how many more pixels of error are accepted.
    pub fn set_lod_bias(&mut self, bias: Scalar)
        ensures
            final(self).pipeline == (VisbufPipeline {
                art_direction_lod_bias: bias,
                ..old(self).pipeline
            }),
    {
        self.pipeline.art_direction_lod_bias = bias;
    }

    /// Sets what the art direction asks of bloom and tone mapping.
    pub fn set_art_direction_post(
        &mut self,
        bloom_tint: Vec3,
        bloom_softness: Scalar,
        color_grade: Vec4,
    )
        ensures
            final(self).pipeline == (VisbufPipeline {
                art_direction_bloom_tint: bloom_tint,
                art_direction_bloom_softness: bloom_softness,
                art_direction_color_grade: color_grade,
                ..old(self).pipeline
            }),
    {
        self.pipeline.art_direction_bloom_tint = bloom_tint;
        self.pipeline.art_direction_bloom_softness = bloom_softness;
        self.pipeline.art_direction_color_grade = color_grade;
    }
}

} // verus!
