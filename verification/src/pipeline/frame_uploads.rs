//! What the host writes into buffers before a frame.

use vstd::prelude::*;

use crate::pipeline::bloom_pass::{slot_contents, BloomUniformWrite};
use crate::pipeline::cloud_pass::{CloudPass, CloudUniformInputs};
use crate::pipeline::cull_pass::queue_writes;
use crate::pipeline::gpu::Buffer;
use crate::pipeline::hw_raster_pass::VisbufFrameUniforms;
use crate::pipeline::shadow_pass::cascade_writes;
use crate::pipeline::taa_pass::{TaaPass, TaaUniformInputs};
use crate::pipeline::uniforms::{
    bloom_words, cloud_uniforms, extend, extended, size_vector, sizes, ssao_uniforms, ssgi_uniforms,
    sun_shaft_uniforms, taa_uniforms, CloudHostValues,
};
use crate::pipeline::upload::{
    puts_all, uploads_follow_each_other, words_to, write_to, Upload, Write,
};
use crate::pipeline::visbuf_pipeline::{
    fitted_clouds, provided, FrameInputs, VisbufPipeline, GI_THRESHOLD_BITS,
};
use crate::scalar::{one, zero, Scalar, Vec4};
use crate::scene::bounds::Vec3;
use crate::scene::lighting::{lighting_of, matrix_words, LightingUniforms};
use crate::scene::settings::SceneSettings;
use crate::scene_upload::RuntimeSceneGpu;

verus! {

/// The sky's light on clouds until they sample it themselves: 0.15 of every colour.
pub const SKY_AMBIENT_BITS: u32 = 0x3E19_999A;

/// What clouds remember of the frames before.
pub open spec fn cloud_memory(clouds: CloudPass) -> CloudUniformInputs {
    CloudUniformInputs {
        first_frame: clouds.frame_count < 2,
        frame_index: clouds.frame_index,
        resolution_divisor: clouds.resolution_divisor,
        width: clouds.quarter_w,
        height: clouds.quarter_h,
        prev_view_proj: clouds.prev_view_proj,
        prev_elapsed: clouds.prev_elapsed,
    }
}

/// What temporal anti-aliasing remembers of the frames before.
pub open spec fn taa_memory(taa: TaaPass) -> TaaUniformInputs {
    TaaUniformInputs {
        width: taa.width,
        height: taa.height,
        first_frame: taa.frame_count < 2,
        prev_view_proj: taa.prev_view_proj,
        prev_jitter: taa.prev_jitter,
    }
}

/// What clouds are told of the camera.
pub open spec fn cloud_view(input: FrameInputs) -> CloudHostValues {
    let ambient = Scalar { bits: SKY_AMBIENT_BITS };
    CloudHostValues {
        inv_view_proj: input.camera.inv_view_proj,
        camera_position: input.camera.position,
        sky_ambient: Vec3 { x: ambient, y: ambient, z: ambient },
        elapsed_secs: input.elapsed_secs,
    }
}

/// What goes into a slot of bloom.
pub open spec fn bloom_write(slot: BloomUniformWrite, tint: Vec3, softness: Scalar) -> Write {
    Write {
        buffer: Buffer::BloomUniforms,
        offset: slot.offset,
        words: bloom_words(slot, tint, softness),
    }
}

impl VisbufPipeline {
    /// What every pass over meshlets reads of a frame.
    pub open spec fn frame_uniforms(self, input: FrameInputs) -> VisbufFrameUniforms {
        VisbufFrameUniforms {
            view_proj: input.jittered_view_proj,
            camera_position: extended(input.camera.position, one()),
            screen_size: size_vector(self.width, self.height),
            error_threshold: Vec4 {
                x: input.error_threshold_px,
                y: input.fov_factor,
                z: zero(),
                w: zero(),
            },
            frustum_planes: input.frustum_planes,
            hzb_params: self.pyramid_vector(),
        }
    }

    /// What lit passes read of a frame.
    pub open spec fn lighting(self, settings: SceneSettings, input: FrameInputs) -> LightingUniforms {
        lighting_of(
            input.camera,
            settings,
            input.cascades,
            input.elapsed_secs,
            self.width,
            self.height,
            input.probe,
        )
    }

    /// What opens a frame: frame and light, cascades, shafts of light, the cut, and the character
    /// where it is drawn.
    pub open spec fn opening_writes(
        self,
        scene: RuntimeSceneGpu,
        settings: SceneSettings,
        input: FrameInputs,
    ) -> Seq<Write> {
        seq![
            write_to(Buffer::FrameUniforms, self.frame_uniforms(input).word_list()),
            write_to(Buffer::LightingUniforms, self.lighting(settings, input).word_list()),
        ] + cascade_writes(self.shadow_pass.dyn_alignment, input.cascades.light_vps@) + seq![
            write_to(
                Buffer::SunShaftUniforms,
                sun_shaft_uniforms(input.sun, settings, self.width, self.height).word_list(),
            ),
        ] + queue_writes(self.cut_of(scene, input)) + provided(
            self.character_visible,
            seq![write_to(Buffer::CharacterModel, matrix_words(self.character_model))],
        )
    }

    /// What clouds read, at the resolution of the profile.
    pub open spec fn cloud_write(self, settings: SceneSettings, input: FrameInputs) -> Write {
        let clouds = fitted_clouds(
            self.cloud_pass,
            settings.cloud_profile.resolution,
            self.width,
            self.height,
        );
        write_to(
            Buffer::CloudUniforms,
            cloud_uniforms(cloud_memory(clouds), cloud_view(input), settings).word_list(),
        )
    }

    /// What effects on the lit scene read.
    pub open spec fn effect_writes(self, settings: SceneSettings, input: FrameInputs) -> Seq<Write> {
        provided(
            self.lights_globally(settings.gi_intensity),
            seq![
                write_to(
                    Buffer::SsgiUniforms,
                    ssgi_uniforms(
                        input.screen,
                        self.width,
                        self.height,
                        settings.gi_intensity,
                        self.frame_index,
                    ).word_list(),
                ),
            ],
        ) + provided(
            self.ssao_pass is Some,
            seq![
                write_to(
                    Buffer::SsaoUniforms,
                    ssao_uniforms(input.screen, self.width, self.height).word_list(),
                ),
            ],
        )
    }

    /// What goes into the slots of bloom.
    pub open spec fn bloom_writes(self) -> Seq<Write> {
        match self.bloom_pass {
            Some(bloom) => Seq::new(
                9,
                |slot: int|
                    bloom_write(
                        slot_contents(bloom.sizes(), self.width, self.height, slot),
                        self.art_direction_bloom_tint,
                        self.art_direction_bloom_softness,
                    ),
            ),
            None => Seq::empty(),
        }
    }

    /// What bloom and the blend with the frames before read.
    pub open spec fn closing_writes(self, input: FrameInputs) -> Seq<Write> {
        self.bloom_writes() + provided(
            self.taa_pass is Some,
            seq![
                write_to(
                    Buffer::TaaUniforms,
                    taa_uniforms(
                        taa_memory(self.taa_pass->0),
                        input.camera.inv_view_proj,
                        input.jitter,
                    ).word_list(),
                ),
            ],
        )
    }

    /// Everything that is written for a frame, in order.
    pub open spec fn frame_writes(
        self,
        scene: RuntimeSceneGpu,
        settings: SceneSettings,
        input: FrameInputs,
    ) -> Seq<Write> {
        self.opening_writes(scene, settings, input).push(self.cloud_write(settings, input))
            + self.effect_writes(settings, input) + self.closing_writes(input)
    }

    /// Gathers what is written for a frame.
    pub(crate) fn frame_uploads(
        &self,
        scene: &RuntimeSceneGpu,
        settings: &SceneSettings,
        input: &FrameInputs,
        queued_uploads: Vec<Upload>,
    ) -> (uploads: Vec<Upload>)
        requires
            self.wf(),
            puts_all(queued_uploads@, queue_writes(self.cut_of(*scene, *input))),
        ensures
            puts_all(uploads@, self.frame_writes(*scene, *settings, *input)),
    {
        let ghost opening = self.opening_writes(*scene, *settings, *input);
        let ghost cloud = self.cloud_write(*settings, *input);
        let ghost effects = self.effect_writes(*settings, *input);
        let ghost closing = self.closing_writes(*input);
        let mut uploads = self.opening_uploads(scene, settings, input, queued_uploads);
        let mut clouds = self.fit_clouds(settings.cloud_profile.resolution);
        let memory = clouds.write_uniforms(input.elapsed_secs);
        uploads.push(cloud_upload(&memory, settings, input));
        assert(puts_all(uploads@, opening.push(cloud)));
        let mut for_effects = self.effect_uploads(settings, input);
        proof {
            uploads_follow_each_other(uploads@, opening.push(cloud), for_effects@, effects);
        }
        uploads.append(&mut for_effects);
        let mut for_closing = self.closing_uploads(input);
        proof {
            uploads_follow_each_other(
                uploads@,
                opening.push(cloud) + effects,
                for_closing@,
                closing,
            );
        }
        uploads.append(&mut for_closing);
        uploads
    }

    fn opening_uploads(
        &self,
        scene: &RuntimeSceneGpu,
        settings: &SceneSettings,
        input: &FrameInputs,
        queued_uploads: Vec<Upload>,
    ) -> (uploads: Vec<Upload>)
        requires
            self.wf(),
            puts_all(queued_uploads@, queue_writes(self.cut_of(*scene, *input))),
        ensures
            puts_all(uploads@, self.opening_writes(*scene, *settings, *input)),
    {
        let ghost selected = self.cut_of(*scene, *input);
        let z = Scalar::from_bits(0);
        let uniforms = VisbufFrameUniforms {
            view_proj: input.jittered_view_proj,
            camera_position: extend(input.camera.position, Scalar::from_bits(0x3F80_0000)),
            screen_size: sizes(self.width, self.height),
            error_threshold: Vec4::new(input.error_threshold_px, input.fov_factor, z, z),
            frustum_planes: input.frustum_planes,
            hzb_params: self.hzb_params(),
        };
        assert(uniforms == self.frame_uniforms(*input));
        let lighting = LightingUniforms::from_camera(
            &input.camera,
            settings,
            &input.cascades,
            input.elapsed_secs,
            self.width,
            self.height,
            &input.probe,
        );
        let words = lighting.words();
        let mut uploads: Vec<Upload> = Vec::new();
        uploads.push(self.hw_raster.write_uniforms(&uniforms));
        uploads.push(words_to(Buffer::LightingUniforms, words.as_slice()));
        let ghost head = seq![
            write_to(Buffer::FrameUniforms, self.frame_uniforms(*input).word_list()),
            write_to(Buffer::LightingUniforms, self.lighting(*settings, *input).word_list()),
        ];
        assert(puts_all(uploads@, head));

        let mut cascades = self.shadow_pass.write_uniforms(&input.cascades.light_vps);
        let ghost slots = cascade_writes(
            self.shadow_pass.dyn_alignment,
            input.cascades.light_vps@,
        );
        proof {
            uploads_follow_each_other(uploads@, head, cascades@, slots);
        }
        uploads.append(&mut cascades);
        let ghost shaft = write_to(
            Buffer::SunShaftUniforms,
            sun_shaft_uniforms(input.sun, *settings, self.width, self.height).word_list(),
        );
        uploads.push(
            self.sun_shaft_pass.write_uniforms(&input.sun, settings, self.width, self.height),
        );
        assert(puts_all(uploads@, head + slots + seq![shaft]));

        let mut rest = queued_uploads;
        proof {
            uploads_follow_each_other(
                uploads@,
                head + slots + seq![shaft],
                rest@,
                queue_writes(selected),
            );
        }
        uploads.append(&mut rest);
        let ghost all = head + slots + seq![shaft] + queue_writes(selected);
        assert(puts_all(uploads@, all));
        if self.character_visible {
            uploads.push(self.forward_character.write_model(self.character_model));
        }
        let ghost character = provided(
            self.character_visible,
            seq![write_to(Buffer::CharacterModel, matrix_words(self.character_model))],
        );
        assert(puts_all(uploads@, all + character));
        uploads
    }

    fn effect_uploads(&self, settings: &SceneSettings, input: &FrameInputs) -> (uploads:
        Vec<Upload>)
        ensures
            puts_all(uploads@, self.effect_writes(*settings, *input)),
    {
        let mut uploads: Vec<Upload> = Vec::new();
        if Scalar::from_bits(GI_THRESHOLD_BITS).less(settings.gi_intensity) {
            if let Some(ssgi) = &self.ssgi_pass {
                uploads.push(
                    ssgi.write_uniforms(
                        &input.screen,
                        self.width,
                        self.height,
                        settings.gi_intensity,
                        self.frame_index,
                    ),
                );
            }
        }
        if let Some(ssao) = &self.ssao_pass {
            uploads.push(ssao.write_uniforms(&input.screen, self.width, self.height));
        }
        uploads
    }

    fn bloom_uploads(&self) -> (uploads: Vec<Upload>)
        requires
            self.wf(),
        ensures
            puts_all(uploads@, self.bloom_writes()),
    {
        let mut uploads: Vec<Upload> = Vec::new();
        if let Some(bloom) = &self.bloom_pass {
            let slots = bloom.uniform_writes(self.width, self.height);
            let mut i: usize = 0;
            while i < slots.len()
                invariant
                    i <= slots@.len() == 9,
                    self.bloom_pass == Some(*bloom),
                    slots@ == Seq::new(
                        9,
                        |slot: int| slot_contents(bloom.sizes(), self.width, self.height, slot),
                    ),
                    puts_all(uploads@, self.bloom_writes().take(i as int)),
                decreases slots@.len() - i,
            {
                let upload = slots[i].upload(
                    self.art_direction_bloom_tint,
                    self.art_direction_bloom_softness,
                );
                uploads.push(upload);
                i = i + 1;
            }
            assert(self.bloom_writes().take(9) =~= self.bloom_writes());
        }
        uploads
    }

    fn closing_uploads(&self, input: &FrameInputs) -> (uploads: Vec<Upload>)
        requires
            self.wf(),
        ensures
            puts_all(uploads@, self.closing_writes(*input)),
    {
        let mut uploads = self.bloom_uploads();
        if let Some(taa) = &self.taa_pass {
            let memory = taa.uniform_inputs();
            uploads.push(memory.upload(input.camera.inv_view_proj, input.jitter));
        }
        uploads
    }
}

/// What the host writes for clouds.
fn cloud_upload(
    memory: &CloudUniformInputs,
    settings: &SceneSettings,
    input: &FrameInputs,
) -> (upload: Upload)
    ensures
        upload.puts(
            Buffer::CloudUniforms,
            0,
            cloud_uniforms(*memory, cloud_view(*input), *settings).word_list(),
        ),
{
    let host = CloudHostValues {
        inv_view_proj: input.camera.inv_view_proj,
        camera_position: input.camera.position,
        sky_ambient: Vec3::splat(Scalar::from_bits(SKY_AMBIENT_BITS)),
        elapsed_secs: input.elapsed_secs,
    };
    memory.upload(&host, settings)
}

} // verus!
