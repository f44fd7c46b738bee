use prism::dag_merge::merge_meshlet_dags;
use prism::pipeline::capture::{unpack_rows, ReadbackPlan};
use prism::pipeline::gpu::{Buffer, Command, Load, Pipeline, TexView, TextureFormat};
use prism::pipeline::sky_lut_pass::AtmosphereKey;
use prism::pipeline::uniforms::{ScreenView, SunOnScreen};
use prism::pipeline::upload::Upload;
use prism::pipeline::visbuf_pipeline::{
    ExternalPass, FrameInputs, FrameSegment, RecordedFrame, VisbufPipeline,
};
use prism::pipeline::DebugOverlay;
use prism::renderer::Renderer;
use prism::scalar::{Mat4, Scalar, Vec4};
use prism::scene::bounds::Vec3;
use prism::scene::lighting::CameraView;
use prism::scene::settings::SkyProbe;
use prism::scene::shadow::CascadeSet;
use prism::scene::{CloudProfile, CloudResolution, SceneSettings, Vec2, WindSettings};
use prism::scene_upload::RuntimeSceneGpu;

fn s(value: f32) -> Scalar {
    Scalar::from_bits(value.to_bits())
}

fn f(value: Scalar) -> f32 {
    f32::from_bits(value.to_bits())
}

fn settings(gi: f32) -> SceneSettings {
    let z = s(0.0);
    let o = Vec3::splat(z);
    SceneSettings {
        sun_direction: Vec3::new(z, s(1.0), z),
        sun_color: o,
        sun_strength: z,
        sun_angular_radius: z,
        fog_density: z,
        fog_height_falloff: z,
        fog_start: z,
        fog_end: z,
        fog_color: o,
        fog_sky_mix: z,
        sky_zenith: o,
        sky_horizon: o,
        sky_strength: z,
        rayleigh_strength: z,
        mie_strength: z,
        mie_anisotropy: z,
        horizon_haze: z,
        shaft_intensity: z,
        shaft_decay: z,
        ambient_up: o,
        ambient_down: o,
        ambient_right: o,
        ambient_left: o,
        ambient_front: o,
        ambient_back: o,
        exposure: s(1.25),
        tonemap_strength: z,
        contact_shadow_strength: z,
        ambient_intensity: z,
        gi_intensity: s(gi),
        cloud_coverage: z,
        cloud_profile: CloudProfile::default(),
        wind: WindSettings::default(),
        fog_volume_density: z,
        fog_volume_albedo: o,
        fog_volume_anisotropy: z,
        focus_distance: z,
        aperture: z,
        dof_enabled: false,
        motion_blur_enabled: false,
        fxaa_enabled: false,
        area_lights: vec![],
        ca_strength: z,
        film_grain_strength: z,
    }
}

fn scene() -> RuntimeSceneGpu {
    RuntimeSceneGpu {
        dag: merge_meshlet_dags(&[]),
        shadow_meshes: vec![],
        shadow_opaque_list: vec![],
        shadow_transparent_list: vec![],
        resident_chunks: vec![],
    }
}

fn matrix(k: f32) -> Mat4 {
    let row = Vec4::new(s(k), s(k), s(k), s(k));
    Mat4 { x_axis: row, y_axis: row, z_axis: row, w_axis: row }
}

fn inputs(elapsed: f32, delta: f32) -> FrameInputs {
    let none = Vec4::new(s(0.0), s(0.0), s(0.0), s(0.0));
    let dark = Vec3::splat(s(0.0));
    FrameInputs {
        camera: CameraView {
            view_proj: matrix(1.0),
            inv_view_proj: matrix(2.0),
            position: Vec3::new(s(4.0), s(5.0), s(6.0)),
        },
        screen: ScreenView {
            view: matrix(11.0),
            inv_view: matrix(12.0),
            projection: matrix(13.0),
            inv_projection: matrix(14.0),
        },
        jitter: Vec2 { x: s(0.25), y: s(-0.25) },
        jittered_view_proj: matrix(3.0),
        frustum_planes: [none; 6],
        error_threshold_px: s(1.5),
        fov_factor: s(0.75),
        projected_errors: vec![],
        cascades: CascadeSet {
            light_vps: [matrix(20.0), matrix(21.0), matrix(22.0), matrix(23.0)],
            splits: [s(1.0); 4],
        },
        probe: SkyProbe { up: dark, down: dark, right: dark, left: dark, front: dark, back: dark },
        sun: SunOnScreen { position: Vec2 { x: s(0.5), y: s(0.5) }, strength: s(1.0) },
        elapsed_secs: s(elapsed),
        elapsed_delta: s(delta),
    }
}

fn floats(upload: &Upload) -> Vec<f32> {
    upload.bytes.chunks_exact(4).map(|b| f32::from_ne_bytes([b[0], b[1], b[2], b[3]])).collect()
}

fn upload_to(frame: &RecordedFrame, buffer: Buffer) -> Option<Vec<f32>> {
    frame.uploads.iter().find(|u| u.buffer == buffer).map(floats)
}

fn name(command: &Command) -> String {
    match command {
        Command::Clear { buffer } => format!("clear {:?}", buffer),
        Command::Copy { from, to, .. } => format!("copy {:?} {:?}", from, to),
        Command::Dispatch { pipeline, .. } => format!("{:?}", pipeline),
        Command::DispatchIndirect { pipeline, .. } => format!("{:?}", pipeline),
        Command::Render { pipeline, .. } => format!("{:?}", pipeline),
    }
}

fn names(segments: &[FrameSegment]) -> Vec<String> {
    let mut list = Vec::new();
    for segment in segments {
        match segment {
            FrameSegment::Recorded(commands) => list.extend(commands.iter().map(name)),
            FrameSegment::External(ExternalPass::Tonemap { .. }) => list.push("Tonemap".into()),
            FrameSegment::External(pass) => list.push(format!("{:?}", pass)),
        }
    }
    list
}

#[test]
fn a_frame_has_its_passes_in_order() {
    let mut pipeline = VisbufPipeline::new(64, 32, 256);
    pipeline.sync_scene_resources();
    let input = inputs(1.0, 1.0);
    let frame = pipeline.render(&scene(), &settings(0.5), &input);
    let list = names(&frame.segments);
    let expected = vec![
        "Shadow",
        "Shadow",
        "Shadow",
        "Shadow",
        "clear VisibilityStorage",
        "clear HwDispatchCount",
        "clear SwDispatchCount",
        "copy HwDispatchCount HwIndirectDraw",
        "clear Phase2Count",
        "MeshletCull",
        "copy HwDispatchCount HwIndirectDraw",
        "HwVisibility",
        "HzbDepthCopy",
        "HzbBuild",
        "HzbBuild",
        "HzbBuild",
        "HzbBuild",
        "HzbBuild",
        "clear HwDispatchCount",
        "copy HwDispatchCount HwIndirectDraw",
        "HwVisibility",
        "Material",
        "HzbDepthCopy",
        "HzbBuild",
        "HzbBuild",
        "HzbBuild",
        "HzbBuild",
        "HzbBuild",
        "Sky",
        "CloudMarch",
        "CloudTemporal",
        "CloudComposite",
        "SsgiSample",
        "SsgiBlur",
        "SsgiComposite",
        "SsaoSample",
        "SsaoBlur",
        "SunShaftOcclusion",
        "SunShaftComposite",
        "BloomThreshold",
        "BloomDownsample",
        "BloomDownsample",
        "BloomDownsample",
        "BloomDownsample",
        "BloomUpsample",
        "BloomUpsample",
        "BloomUpsample",
        "BloomUpsample",
        "BloomComposite",
        "TaaMotion",
        "TaaResolve",
        "Tonemap",
    ];
    assert_eq!(list, expected);
}

#[test]
fn a_frame_uploads_what_its_passes_read() {
    let mut pipeline = VisbufPipeline::new(64, 32, 256);
    pipeline.sync_scene_resources();
    let frame = pipeline.render(&scene(), &settings(0.5), &inputs(1.0, 1.0));
    let buffers: Vec<Buffer> = frame.uploads.iter().map(|u| u.buffer).collect();
    let mut expected = vec![Buffer::FrameUniforms, Buffer::LightingUniforms];
    expected.extend([Buffer::ShadowUniforms; 4]);
    expected.extend([
        Buffer::SunShaftUniforms,
        Buffer::GroupQueueCount,
        Buffer::CloudUniforms,
        Buffer::SsgiUniforms,
        Buffer::SsaoUniforms,
    ]);
    expected.extend([Buffer::BloomUniforms; 9]);
    expected.push(Buffer::TaaUniforms);
    assert_eq!(buffers, expected);

    let uniforms = floats(&frame.uploads[0]);
    assert_eq!(uniforms.len(), 56);
    assert_eq!(uniforms[0], 3.0);
    assert_eq!(uniforms[16..20], [4.0, 5.0, 6.0, 1.0]);
    assert_eq!(uniforms[20..24], [64.0, 32.0, 1.0 / 64.0, 1.0 / 32.0]);
    assert_eq!(uniforms[24..28], [1.5, 0.75, 0.0, 0.0]);
    assert_eq!(uniforms[52..56], [0.0, 6.0, 64.0, 32.0]);
    let light = floats(&frame.uploads[1]);
    assert_eq!(light.len(), 176);
    assert_eq!((light[0], light[16], light[32]), (1.0, 2.0, 4.0));
    for (i, upload) in frame.uploads[2..6].iter().enumerate() {
        assert_eq!(upload.offset, 256 * i as u64);
        assert_eq!(floats(upload), vec![20.0 + i as f32; 16]);
    }
    let ssgi = upload_to(&frame, Buffer::SsgiUniforms).expect("global illumination is on");
    assert_eq!(ssgi[68..72], [0.5, 2.0, 0.0, 0.0]);
    let taa = upload_to(&frame, Buffer::TaaUniforms).expect("frames are blended");
    assert_eq!((taa[0], taa[36], taa[41]), (2.0, 0.25, 1.0));
    let clouds = upload_to(&frame, Buffer::CloudUniforms).expect("there are clouds");
    assert_eq!(clouds[44..48], [0.15, 0.15, 0.15, 4.0]);

    let next = pipeline.render(&scene(), &settings(0.5), &inputs(2.0, 1.0));
    assert_eq!(floats(&next.uploads[0])[52..56], [1.0, 6.0, 64.0, 32.0]);
    let ssgi = upload_to(&next, Buffer::SsgiUniforms).expect("global illumination is on");
    assert_eq!(ssgi[70], 1.0);
    let clouds = upload_to(&next, Buffer::CloudUniforms).expect("there are clouds");
    assert_eq!(clouds[64], 1.0);
}

#[test]
fn optional_passes_are_left_out() {
    let mut pipeline = VisbufPipeline::new(64, 32, 256);
    pipeline.taa_pass = None;
    pipeline.ssao_pass = None;
    pipeline.bloom_pass = None;
    pipeline.art_direction_outline_skip = false;
    pipeline.character_visible = true;
    let input = inputs(1.0, 1.0);
    let frame = pipeline.render(&scene(), &settings(0.001), &input);
    let list = names(&frame.segments);
    for absent in ["MeshletCull", "HwVisibility", "Material", "SsgiSample", "SsaoSample"] {
        assert!(!list.contains(&absent.to_string()), "{} is not drawn", absent);
    }
    assert!(list.contains(&"Outline".to_string()));
    assert!(list.contains(&"ForwardCharacter".to_string()));
    let model = upload_to(&frame, Buffer::CharacterModel).expect("the character is drawn");
    assert_eq!(model.len(), 16);
    for absent in [
        Buffer::SsgiUniforms,
        Buffer::SsaoUniforms,
        Buffer::BloomUniforms,
        Buffer::TaaUniforms,
    ] {
        assert!(upload_to(&frame, absent).is_none(), "{:?} is not written", absent);
    }
    match frame.segments.last() {
        Some(FrameSegment::External(ExternalPass::Tonemap { source, ao, target })) => {
            assert_eq!(*source, TexView::SceneColor);
            assert_eq!(*ao, None);
            assert_eq!(*target, TexView::Surface);
        }
        _ => panic!("a frame ends with tone mapping"),
    }
}

#[test]
fn frames_keep_time_and_history() {
    let mut pipeline = VisbufPipeline::new(64, 32, 256);
    assert_eq!(f(pipeline.hzb_params().x), 0.0);
    assert_eq!(f(pipeline.hzb_params().y), 6.0);
    let input = inputs(3.0, 3.0);
    pipeline.render(&scene(), &settings(0.0), &input);
    assert_eq!(f(pipeline.last_dt), 0.25);
    assert_eq!(f(pipeline.last_elapsed), 3.0);
    assert_eq!(f(pipeline.last_manual_exposure), 1.25);
    assert_eq!(pipeline.frame_index, 1);
    assert_eq!(f(pipeline.hzb_params().x), 1.0);
    for (delta, kept) in [(-1.0, 0.0), (0.125, 0.125), (f32::NAN, 0.0)] {
        let input = inputs(3.0, delta);
        pipeline.render(&scene(), &settings(0.0), &input);
        assert_eq!(f(pipeline.last_dt), kept);
    }
    pipeline.frame_index = u32::MAX;
    let input = inputs(3.0, 0.0);
    pipeline.render(&scene(), &settings(0.0), &input);
    assert_eq!(pipeline.frame_index, 0);
    pipeline.resize(128, 64);
    assert!(!pipeline.hzb_ready);
    assert_eq!(pipeline.hzb_pass.mip_count, 7);
    assert_eq!(pipeline.scene_color().width, 128);
}

#[test]
fn clouds_follow_the_profile() {
    let mut pipeline = VisbufPipeline::new(64, 32, 256);
    assert_eq!(pipeline.cloud_pass.resolution_divisor, 4);
    let input = inputs(1.0, 0.0);
    let frame = pipeline.render(&scene(), &settings(0.0), &input);
    let clouds = upload_to(&frame, Buffer::CloudUniforms).expect("there are clouds");
    assert_eq!(clouds[47], 4.0);
    assert_eq!(clouds[52..54], [16.0, 8.0]);
    assert_eq!(pipeline.cloud_pass.resolution_divisor, 4);
    let mut half = settings(0.0);
    half.cloud_profile.resolution = CloudResolution::Half;
    let frame = pipeline.render(&scene(), &half, &input);
    let clouds = upload_to(&frame, Buffer::CloudUniforms).expect("there are clouds");
    assert_eq!(clouds[52..54], [32.0, 16.0]);
    assert_eq!(clouds[49], 1.0);
    assert_eq!(pipeline.cloud_pass.resolution_divisor, 2);
}

#[test]
fn preparation_happens_once() {
    let key = AtmosphereKey {
        sun_direction: Vec3::new(s(0.0), s(1.0), s(0.0)),
        rayleigh_strength: s(1.0),
        mie_strength: s(1.0),
        mie_anisotropy: s(0.8),
    };
    let mut renderer = Renderer::new(64, 32, 256);
    let work = renderer.prepare(key);
    assert_eq!(work.uploads.len(), 1);
    assert_eq!(work.uploads[0].bytes.len(), 48);
    let first = names(&work.segments);
    assert_eq!(
        first,
        vec!["NoiseShape", "NoiseDetail", "SkyTransmittance", "SkyMultiscatter", "SkyView"]
    );
    let again = renderer.prepare(key);
    assert!(names(&again.segments).is_empty());
    assert!(again.uploads.is_empty());
}

#[test]
fn renderer_is_configured() {
    let mut renderer = Renderer::new(64, 32, 256);
    renderer.configure_shadow(Vec3::splat(s(1.0)), s(2.0), s(420.0));
    renderer.set_outline_skip(false);
    renderer.set_lod_bias(s(0.5));
    renderer.set_art_direction_post(
        Vec3::splat(s(0.9)),
        s(0.1),
        Vec4::new(s(1.0), s(2.0), s(3.0), s(4.0)),
    );
    assert_eq!(f(renderer.pipeline.shadow_depth), 420.0);
    assert_eq!(renderer.pipeline.shadow_focus.map(|x| f(x.base_radius)), Some(2.0));
    assert!(!renderer.pipeline.art_direction_outline_skip);
    assert_eq!(f(renderer.pipeline.art_direction_lod_bias), 0.5);
    assert_eq!(f(renderer.pipeline.art_direction_color_grade.w), 4.0);
    assert_eq!(renderer.art_direction_buffer(), Buffer::ArtDirectionUniforms);
    assert_eq!(renderer.art_direction_palette_buffer(), Buffer::ArtDirectionPalette);
    let bark = renderer.write_bark_params(&[1, 2]);
    assert_eq!((bark.buffer, bark.bytes.len()), (Buffer::BarkUniforms, 8));
    renderer.resize(32, 32);
    assert!(renderer.pipeline.scene_bound);
    let input = inputs(1.0, 0.0);
    let frame = renderer.render(&scene(), &settings(0.0), &input);
    let list = names(&frame.segments);
    assert!(list.contains(&"MeshletCull".to_string()));
    let plan = renderer.capture_frame(TextureFormat::Bgra8Unorm);
    assert_eq!(f(plan.exposure), 1.25);
    assert_eq!(plan.texture.view, TexView::Capture);
    assert!(plan.texture.usage.copy_src);
    assert_eq!(plan.readback.map(|p| p.padded_bytes_per_row), Some(256));
}

#[test]
fn second_phase_is_bounded_by_the_lists() {
    let mut pipeline = VisbufPipeline::new(64, 32, 256);
    pipeline.sync_scene_resources();
    let input = inputs(1.0, 0.0);
    let mut full = scene();
    let meshlet = prism::meshlet::Meshlet {
        vertex_offset: 0,
        triangle_offset: 0,
        vertex_count: 0,
        triangle_count: 0,
    };
    full.dag.meshlets = vec![meshlet; 70000];
    let frame = pipeline.render(&full, &settings(0.0), &input);
    let mut found = false;
    for segment in &frame.segments {
        if let FrameSegment::Recorded(commands) = segment {
            for command in commands {
                if let Command::Dispatch { pipeline: Pipeline::MeshletCullPhase2, x, .. } = command {
                    assert_eq!(*x, 1024);
                    found = true;
                }
                if let Command::Render { pipeline: Pipeline::HwVisibility, color, .. } = command {
                    let load = color.map(|a| a.load);
                    assert_eq!(load, Some(if found { Load::Keep } else { Load::Clear }));
                }
            }
        }
    }
    assert!(found);
}

#[test]
fn rows_are_padded_to_the_alignment() {
    let plan = ReadbackPlan::new(3, 2).expect("a small image fits");
    assert_eq!((plan.unpadded_bytes_per_row, plan.padded_bytes_per_row), (12, 256));
    assert_eq!(plan.buffer_size, 512);
    let exact = ReadbackPlan::new(64, 1).expect("a small image fits");
    assert_eq!(exact.padded_bytes_per_row, 256);
    assert_eq!(ReadbackPlan::new(65, 1).map(|p| p.padded_bytes_per_row), Some(512));
    assert!(ReadbackPlan::new(u32::MAX, 1).is_none());
    assert!(ReadbackPlan::new(65536, 65536).is_none());
    assert!(ReadbackPlan::new(0, 0).is_some());
}

#[test]
fn images_lose_padding_and_change_channel_order() {
    let plan = ReadbackPlan::new(2, 2).expect("a small image fits");
    let mut mapped = vec![0_u8; 512];
    mapped[0..8].copy_from_slice(&[1, 2, 3, 4, 5, 6, 7, 8]);
    mapped[256..264].copy_from_slice(&[9, 10, 11, 12, 13, 14, 15, 16]);
    let plain = unpack_rows(&plan, &mapped, TextureFormat::Rgba8Unorm);
    assert_eq!(plain.rgba, vec![1, 2, 3, 4, 5, 6, 7, 8, 9, 10, 11, 12, 13, 14, 15, 16]);
    assert_eq!((plain.width, plain.height), (2, 2));
    for format in [TextureFormat::Bgra8Unorm, TextureFormat::Bgra8UnormSrgb] {
        let swapped = unpack_rows(&plan, &mapped, format);
        assert_eq!(swapped.rgba, vec![3, 2, 1, 4, 7, 6, 5, 8, 11, 10, 9, 12, 15, 14, 13, 16]);
    }
}

#[test]
fn overlays_are_off_by_default() {
    assert_eq!(DebugOverlay::default(), DebugOverlay::Off);
}
