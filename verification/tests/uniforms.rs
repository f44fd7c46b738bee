use prism::pipeline::bloom_pass::BloomPass;
use prism::pipeline::cloud_pass::CloudPass;
use prism::pipeline::gpu::{Buffer, TexView};
use prism::pipeline::gtao_pass::GtaoPass;
use prism::pipeline::ibl_pass::{EnvironmentKey, IblPass};
use prism::pipeline::motion_blur_pass::MotionBlurPass;
use prism::pipeline::sky_lut_pass::{AtmosphereKey, SkyLutPass};
use prism::pipeline::ssao_pass::SsaoPass;
use prism::pipeline::ssgi_pass::SsgiPass;
use prism::pipeline::ssr_pass::SsrPass;
use prism::pipeline::sun_shaft_pass::SunShaftPass;
use prism::pipeline::taa_pass::TaaPass;
use prism::pipeline::uniforms::{CloudHostValues, FogHostValues, ScreenView, SunOnScreen};
use prism::pipeline::upload::Upload;
use prism::pipeline::volumetric_fog_pass::VolumetricFogPass;
use prism::scalar::{Mat4, Scalar, Vec4};
use prism::scene::bounds::Vec3;
use prism::scene::shadow::CascadeSet;
use prism::scene::{CloudProfile, SceneSettings, Vec2, WindSettings};

fn s(value: f32) -> Scalar {
    Scalar::from_bits(value.to_bits())
}

fn v(x: f32, y: f32, z: f32) -> Vec3 {
    Vec3::new(s(x), s(y), s(z))
}

fn matrix(k: f32) -> Mat4 {
    let row = Vec4::new(s(k), s(k), s(k), s(k));
    Mat4 { x_axis: row, y_axis: row, z_axis: row, w_axis: row }
}

fn words(upload: &Upload) -> Vec<u32> {
    upload.bytes.chunks_exact(4).map(|b| u32::from_ne_bytes([b[0], b[1], b[2], b[3]])).collect()
}

fn floats(upload: &Upload) -> Vec<f32> {
    words(upload).iter().map(|w| f32::from_bits(*w)).collect()
}

fn screen() -> ScreenView {
    ScreenView {
        view: matrix(1.0),
        inv_view: matrix(2.0),
        projection: matrix(3.0),
        inv_projection: matrix(4.0),
    }
}

fn settings() -> SceneSettings {
    let z = s(0.0);
    let o = v(0.0, 0.0, 0.0);
    SceneSettings {
        sun_direction: v(0.1, 0.2, 0.3),
        sun_color: v(1.0, 2.0, 3.0),
        sun_strength: s(4.0),
        sun_angular_radius: z,
        fog_density: z,
        fog_height_falloff: s(0.17),
        fog_start: z,
        fog_end: z,
        fog_color: v(0.5, 0.6, 0.7),
        fog_sky_mix: z,
        sky_zenith: o,
        sky_horizon: o,
        sky_strength: z,
        rayleigh_strength: s(1.05),
        mie_strength: s(0.18),
        mie_anisotropy: s(0.76),
        horizon_haze: s(0.28),
        shaft_intensity: s(0.18),
        shaft_decay: s(0.95),
        ambient_up: o,
        ambient_down: o,
        ambient_right: o,
        ambient_left: o,
        ambient_front: o,
        ambient_back: o,
        exposure: z,
        tonemap_strength: z,
        contact_shadow_strength: z,
        ambient_intensity: z,
        gi_intensity: z,
        cloud_coverage: s(0.4),
        cloud_profile: CloudProfile::default(),
        wind: WindSettings::default(),
        fog_volume_density: s(0.02),
        fog_volume_albedo: v(0.9, 0.8, 0.7),
        fog_volume_anisotropy: s(0.3),
        focus_distance: z,
        aperture: z,
        dof_enabled: false,
        motion_blur_enabled: false,
        fxaa_enabled: false,
        area_lights: vec![],
        ca_strength: z,
        film_grain_strength: z,
    }
}

#[test]
fn occlusion_uniforms_differ_in_the_last_parameter() {
    let ssao = floats(&SsaoPass::new(640, 480).write_uniforms(&screen(), 640, 480));
    let gtao = floats(&GtaoPass::new(640, 480).write_uniforms(&screen(), 640, 480, 7));
    assert_eq!(ssao.len(), 56);
    assert_eq!((ssao[0], ssao[16], ssao[32]), (3.0, 1.0, 4.0));
    assert_eq!(ssao[48..52], [640.0, 480.0, 1.0 / 640.0, 1.0 / 480.0]);
    assert_eq!(ssao[52..56], [0.5, 0.025, 1.5, 0.0]);
    assert_eq!(gtao[52..56], [0.5, 0.025, 1.5, 7.0]);
}

#[test]
fn screen_space_light_uniforms() {
    let ssgi = floats(&SsgiPass::new(1, 1).write_uniforms(&screen(), 3, 7, s(0.5), 9));
    assert_eq!((ssgi[0], ssgi[16], ssgi[32], ssgi[48]), (1.0, 2.0, 3.0, 4.0));
    assert_eq!(ssgi[64..68], [3.0, 7.0, 1.0 / 3.0, 1.0 / 7.0]);
    assert_eq!(ssgi[68..72], [0.5, 2.0, 9.0, 0.0]);
    let ssr = floats(&SsrPass::new(1, 1).write_uniforms(&screen(), 3, 7, 9));
    assert_eq!(ssr[68..76], [50.0, 0.15, 2.0, 128.0, 0.95, 0.1, 0.02, 9.0]);
    let blur = floats(&MotionBlurPass::new(3, 7).write_uniforms());
    assert_eq!(blur, vec![3.0, 7.0, 1.0 / 3.0, 1.0 / 7.0, 20.0, 20.0, 0.0, 0.0]);
}

#[test]
fn anti_aliasing_uniforms_flag_the_first_frames() {
    let mut taa = TaaPass::new(640, 480);
    let jitter = Vec2 { x: s(0.25), y: s(-0.25) };
    let first = floats(&taa.uniform_inputs().upload(matrix(5.0), jitter));
    assert_eq!(first.len(), 44);
    assert_eq!(first[32..36], [640.0, 480.0, 1.0 / 640.0, 1.0 / 480.0]);
    assert_eq!(first[36..44], [0.25, -0.25, 0.0, 0.0, 0.1, 1.0, 0.0, 0.0]);
    for _ in 0..2 {
        taa.encode(TexView::VisibilityDepth, TexView::SceneColor, matrix(6.0), jitter);
    }
    let third = floats(&taa.uniform_inputs().upload(matrix(5.0), jitter));
    assert_eq!(third[16], 6.0);
    assert_eq!(third[36..44], [0.25, -0.25, 0.25, -0.25, 0.1, 0.0, 0.0, 0.0]);
}

#[test]
fn cloud_uniforms_follow_the_profile() {
    let mut clouds = CloudPass::new(640, 480);
    let inputs = clouds.write_uniforms(s(3.0));
    let host = CloudHostValues {
        inv_view_proj: matrix(5.0),
        camera_position: v(1.0, 2.0, 3.0),
        sky_ambient: v(0.15, 0.15, 0.15),
        elapsed_secs: s(3.0),
    };
    let upload = inputs.upload(&host, &settings());
    assert_eq!(upload.buffer, Buffer::CloudUniforms);
    let w = floats(&upload);
    assert_eq!(w.len(), 68);
    assert_eq!(w[32..40], [1.0, 2.0, 3.0, 1.0, 0.1, 0.2, 0.3, 0.0]);
    assert_eq!(w[40..48], [1.0, 2.0, 3.0, 4.0, 0.15, 0.15, 0.15, 4.0]);
    assert_eq!(w[48..52], [0.4, 1.0, 3.0, 0.0]);
    assert_eq!(w[52..56], [160.0, 120.0, 1.0 / 160.0, 1.0 / 120.0]);
    assert_eq!(w[56..64], [16.0, 1.8, 3.2, 0.6, 1.0, 48.0, 6.0, 0.88]);
    assert_eq!(w[64..68], [0.0, 0.0, 0.0, 0.0]);
    let later = clouds.write_uniforms(s(4.0)).upload(&host, &settings());
    assert_eq!(floats(&later)[64], 3.0);
}

#[test]
fn fog_uniforms_weigh_the_frame_before() {
    let mut fog = VolumetricFogPass::new();
    let host = FogHostValues {
        view_proj: matrix(1.0),
        inv_view_proj: matrix(2.0),
        camera_position: v(1.0, 2.0, 3.0),
        ambient_color: v(0.1, 0.1, 0.1),
        near_plane: s(0.1),
        far_plane: s(250.0),
        cascades: CascadeSet {
            light_vps: [matrix(10.0), matrix(11.0), matrix(12.0), matrix(13.0)],
            splits: [s(1.0), s(2.0), s(3.0), s(4.0)],
        },
    };
    let first = floats(&fog.uniform_inputs().inject_upload(&host, &settings()));
    assert_eq!(first.len(), 144);
    assert_eq!(first[44..52], [0.02, 0.17, 0.3, 0.0, 0.9, 0.8, 0.7, 0.1]);
    assert_eq!(first[52..56], [160.0, 88.0, 128.0, 250.0]);
    assert_eq!((first[60], first[76], first[92], first[108]), (10.0, 11.0, 12.0, 13.0));
    assert_eq!(first[124..128], [1.0, 2.0, 3.0, 4.0]);
    fog.encode(TexView::VisibilityDepthFloat, TexView::SceneColor, matrix(2.0));
    let second = floats(&fog.uniform_inputs().inject_upload(&host, &settings()));
    assert_eq!(second[47], 0.85);
    assert_eq!((first[59], second[59]), (0.0, 1.0));
    assert_eq!(second[16], 2.0);
    let grid = floats(&fog.uniform_inputs().integrate_upload(&host));
    assert_eq!(grid, vec![160.0, 88.0, 128.0, 250.0, 0.1, 0.0, 0.0, 0.0]);
    assert_eq!(fog.uniform_inputs().composite_upload(&host).buffer, Buffer::FogCompositeUniforms);
}

#[test]
fn sun_and_sky_uniforms() {
    let sun = SunOnScreen { position: Vec2 { x: s(0.5), y: s(0.25) }, strength: s(0.75) };
    let pass = SunShaftPass::new_for_size(640, 480);
    let shaft = floats(&pass.write_uniforms(&sun, &settings(), 640, 480));
    assert_eq!(shaft[0..8], [0.5, 0.25, 0.75, 0.28, 1.0, 2.0, 3.0, 4.0]);
    assert_eq!(shaft[8..16], [0.18, 0.95, 0.92, 0.28, 640.0, 480.0, 0.0, 0.0]);
    let mut sky = SkyLutPass::new();
    sky.update(AtmosphereKey {
        sun_direction: v(0.0, 1.0, 0.0),
        rayleigh_strength: s(1.05),
        mie_strength: s(0.18),
        mie_anisotropy: s(0.76),
    });
    let params = floats(&sky.write_uniforms());
    assert_eq!(params, vec![0.0, 1.0, 0.0, 0.0, 1.05, 0.18, 0.76, 0.0, 0.0, 0.0, 0.0, 0.0]);
}

#[test]
fn environment_uniforms_name_their_face() {
    let mut ibl = IblPass::new();
    let faces = ibl.update_cubemap(EnvironmentKey {
        sun_direction: v(0.0, 1.0, 0.0),
        sun_strength: s(4.0),
        rayleigh_strength: s(1.05),
        mie_strength: s(0.18),
        mie_anisotropy: s(0.76),
    });
    let upload = faces[8].upload(v(0.0, 1.0, 0.0), &settings());
    assert_eq!((upload.buffer, upload.offset), (Buffer::PrefilterUniforms, 2048));
    assert_eq!(words(&upload)[0..4], [2, 1, 64, 6]);
    let offsets: Vec<u64> =
        faces.iter().map(|face| face.upload(v(0.0, 1.0, 0.0), &settings()).offset).collect();
    assert!(offsets.iter().enumerate().all(|(i, offset)| *offset == 256 * i as u64));
    let f = floats(&upload);
    assert_eq!(f.len(), 28);
    assert_eq!(f[4..12], [0.0, 1.0, 0.0, 0.0, 1.0, 2.0, 3.0, 4.0]);
    assert_eq!(f[12..16], [0.5, 0.6, 0.7, 1.0]);
    assert_eq!(f[24..28], [1.05, 0.18, 0.76, 0.4]);
}

#[test]
fn bloom_uniforms_go_to_their_slots() {
    let bloom = BloomPass::new(640, 480);
    let writes = bloom.uniform_writes(640, 480);
    let upload = writes[0].upload(v(1.0, 0.9, 0.8), s(0.2));
    assert_eq!(upload.offset, 0);
    let w = floats(&upload);
    assert_eq!(w, vec![640.0, 480.0, 320.0, 240.0, 0.5, 0.35, 0.2, 0.0, 1.0, 0.9, 0.8, 0.0]);
    let upload = writes[1].upload(v(1.0, 0.9, 0.8), s(0.2));
    assert_eq!(upload.offset, 256);
    assert_eq!(floats(&upload)[0..4], [0.0, 0.0, 160.0, 120.0]);
}
