use glam::Vec3 as Float3;
use prism::scalar::Scalar;
use prism::scene::bounds::Vec3;
use prism::scene::settings::{AreaLight, CloudProfile, SceneSettings, WindSettings};
use prism::soundstage::redwood_stage::{hero, low_angle, neutral_debug, silhouette};
use prism::soundstage::{soundstage_for_preset, LookDevPreset, SoundstageConfig};

fn s(value: f32) -> Scalar {
    Scalar::from_bits(value.to_bits())
}

fn f(value: Scalar) -> f32 {
    f32::from_bits(value.to_bits())
}

fn v(x: f32, y: f32, z: f32) -> Vec3 {
    Vec3::new(s(x), s(y), s(z))
}

fn along(x: f32, y: f32, z: f32) -> Vec3 {
    let n = Float3::new(x, y, z).normalize();
    v(n.x, n.y, n.z)
}

fn settings() -> SceneSettings {
    let z = s(0.0);
    let o = v(0.0, 0.0, 0.0);
    SceneSettings {
        sun_direction: v(0.1, 0.2, 0.3),
        sun_color: v(1.0, 2.0, 3.0),
        sun_strength: s(4.0),
        sun_angular_radius: s(0.01),
        fog_density: s(5.0),
        fog_height_falloff: s(6.0),
        fog_start: s(7.0),
        fog_end: s(8.0),
        fog_color: o,
        fog_sky_mix: z,
        sky_zenith: o,
        sky_horizon: v(0.5, 0.5, 0.5),
        sky_strength: z,
        rayleigh_strength: z,
        mie_strength: z,
        mie_anisotropy: z,
        horizon_haze: z,
        shaft_intensity: z,
        shaft_decay: z,
        ambient_up: o,
        ambient_down: o,
        ambient_right: o,
        ambient_left: o,
        ambient_front: o,
        ambient_back: o,
        exposure: s(1.5),
        tonemap_strength: z,
        contact_shadow_strength: z,
        ambient_intensity: z,
        gi_intensity: s(0.4),
        cloud_coverage: s(0.25),
        cloud_profile: CloudProfile::default(),
        wind: WindSettings { frozen: true, ..WindSettings::default() },
        fog_volume_density: z,
        fog_volume_albedo: o,
        fog_volume_anisotropy: z,
        focus_distance: z,
        aperture: z,
        dof_enabled: false,
        motion_blur_enabled: false,
        fxaa_enabled: false,
        area_lights: vec![AreaLight::Sphere { position: o, radius: z, color: o, intensity: z }],
        ca_strength: z,
        film_grain_strength: s(0.6),
    }
}

#[test]
fn hero_stage_has_its_look() {
    let stage = hero(settings());
    let look = &stage.scene_settings;
    assert_eq!(look.sun_direction, along(-0.52, 0.58, -0.38));
    assert_eq!(look.sun_color, v(1.00, 0.94, 0.84));
    assert_eq!(look.sun_strength, s(1.34));
    assert_eq!(look.sun_angular_radius, s(0.0105));
    assert_eq!(look.fog_density, s(0.0010));
    assert_eq!(look.fog_height_falloff, s(0.17));
    assert_eq!(look.fog_start, s(120.0));
    assert_eq!(look.fog_end, s(420.0));
    assert_eq!(look.fog_color, v(0.56, 0.67, 0.82));
    assert_eq!(look.fog_sky_mix, s(0.01));
    assert_eq!(look.sky_zenith, v(0.20, 0.36, 0.70));
    assert_eq!(look.sky_horizon, v(0.72, 0.82, 0.94));
    assert_eq!(look.sky_strength, s(0.22));
    assert_eq!(look.rayleigh_strength, s(1.05));
    assert_eq!(look.mie_strength, s(0.18));
    assert_eq!(look.mie_anisotropy, s(0.76));
    assert_eq!(look.horizon_haze, s(0.28));
    assert_eq!(look.shaft_intensity, s(0.18));
    assert_eq!(look.shaft_decay, s(0.95));
    assert_eq!(look.ambient_up, v(0.30, 0.34, 0.42));
    assert_eq!(look.ambient_down, v(0.15, 0.12, 0.09));
    assert_eq!(look.ambient_right, v(0.17, 0.18, 0.21));
    assert_eq!(look.ambient_left, v(0.15, 0.17, 0.20));
    assert_eq!(look.ambient_front, v(0.16, 0.18, 0.21));
    assert_eq!(look.ambient_back, v(0.15, 0.16, 0.19));
    assert_eq!(look.exposure, s(1.06));
    assert_eq!(look.tonemap_strength, s(1.0));
    assert_eq!(look.contact_shadow_strength, s(0.18));
    let from = &stage.camera_bookmark;
    assert_eq!(from.position, v(74.250, 24.600, 48.500));
    assert_eq!(from.yaw, s(0.57 + std::f32::consts::PI));
    assert_eq!(from.pitch, s(0.16));
    assert_eq!(from.fov_y_degrees, s(23.5));
    assert_eq!(f64::from_bits(stage.clear_color.r), 0.18);
    assert_eq!(f64::from_bits(stage.clear_color.g), 0.32);
    assert_eq!(f64::from_bits(stage.clear_color.b), 0.58);
    assert_eq!(f64::from_bits(stage.clear_color.a), 1.0);
    assert_eq!(look.wind, WindSettings::default());
}

#[test]
fn low_angle_stage_has_its_look() {
    let stage = low_angle(settings());
    let look = &stage.scene_settings;
    assert_eq!(look.sun_direction, along(-0.60, 0.56, 0.30));
    assert_eq!(look.sun_color, v(0.99, 0.95, 0.88));
    assert_eq!(look.sun_strength, s(1.18));
    assert_eq!(look.sun_angular_radius, s(0.0100));
    assert_eq!(look.fog_density, s(0.0012));
    assert_eq!(look.fog_height_falloff, s(0.17));
    assert_eq!(look.fog_start, s(110.0));
    assert_eq!(look.fog_end, s(400.0));
    assert_eq!(look.fog_color, v(0.53, 0.64, 0.79));
    assert_eq!(look.fog_sky_mix, s(0.01));
    assert_eq!(look.sky_zenith, v(0.18, 0.33, 0.64));
    assert_eq!(look.sky_horizon, v(0.68, 0.79, 0.92));
    assert_eq!(look.sky_strength, s(0.20));
    assert_eq!(look.rayleigh_strength, s(0.98));
    assert_eq!(look.mie_strength, s(0.18));
    assert_eq!(look.mie_anisotropy, s(0.78));
    assert_eq!(look.horizon_haze, s(0.30));
    assert_eq!(look.shaft_intensity, s(0.16));
    assert_eq!(look.shaft_decay, s(0.95));
    assert_eq!(look.ambient_up, v(0.24, 0.28, 0.38));
    assert_eq!(look.ambient_down, v(0.15, 0.12, 0.09));
    assert_eq!(look.ambient_right, v(0.14, 0.16, 0.18));
    assert_eq!(look.ambient_left, v(0.14, 0.16, 0.18));
    assert_eq!(look.ambient_front, v(0.14, 0.16, 0.18));
    assert_eq!(look.ambient_back, v(0.14, 0.16, 0.18));
    assert_eq!(look.exposure, s(1.03));
    assert_eq!(look.tonemap_strength, s(1.0));
    assert_eq!(look.contact_shadow_strength, s(0.16));
    let from = &stage.camera_bookmark;
    assert_eq!(from.position, v(72.400, 14.200, -41.300));
    assert_eq!(from.yaw, s(-0.50 + std::f32::consts::PI));
    assert_eq!(from.pitch, s(0.05));
    assert_eq!(from.fov_y_degrees, s(21.5));
    assert_eq!(f64::from_bits(stage.clear_color.r), 0.16);
    assert_eq!(f64::from_bits(stage.clear_color.g), 0.30);
    assert_eq!(f64::from_bits(stage.clear_color.b), 0.54);
    assert_eq!(f64::from_bits(stage.clear_color.a), 1.0);
    assert_eq!(look.wind, WindSettings::default());
}

#[test]
fn silhouette_stage_has_its_look() {
    let stage = silhouette(settings());
    let look = &stage.scene_settings;
    assert_eq!(look.sun_direction, along(-0.58, 0.55, -0.30));
    assert_eq!(look.sun_color, v(0.97, 0.94, 0.89));
    assert_eq!(look.sun_strength, s(1.26));
    assert_eq!(look.sun_angular_radius, s(0.0100));
    assert_eq!(look.fog_density, s(0.0013));
    assert_eq!(look.fog_height_falloff, s(0.15));
    assert_eq!(look.fog_start, s(100.0));
    assert_eq!(look.fog_end, s(390.0));
    assert_eq!(look.fog_color, v(0.48, 0.58, 0.72));
    assert_eq!(look.fog_sky_mix, s(0.00));
    assert_eq!(look.sky_zenith, v(0.15, 0.28, 0.52));
    assert_eq!(look.sky_horizon, v(0.64, 0.74, 0.88));
    assert_eq!(look.sky_strength, s(0.21));
    assert_eq!(look.rayleigh_strength, s(0.94));
    assert_eq!(look.mie_strength, s(0.22));
    assert_eq!(look.mie_anisotropy, s(0.79));
    assert_eq!(look.horizon_haze, s(0.34));
    assert_eq!(look.shaft_intensity, s(0.14));
    assert_eq!(look.shaft_decay, s(0.94));
    assert_eq!(look.ambient_up, v(0.19, 0.22, 0.30));
    assert_eq!(look.ambient_down, v(0.12, 0.10, 0.07));
    assert_eq!(look.ambient_right, v(0.12, 0.13, 0.16));
    assert_eq!(look.ambient_left, v(0.12, 0.13, 0.16));
    assert_eq!(look.ambient_front, v(0.12, 0.13, 0.16));
    assert_eq!(look.ambient_back, v(0.12, 0.13, 0.16));
    assert_eq!(look.exposure, s(1.04));
    assert_eq!(look.tonemap_strength, s(1.0));
    assert_eq!(look.contact_shadow_strength, s(0.15));
    let from = &stage.camera_bookmark;
    assert_eq!(from.position, v(29.300, 25.613, 54.827));
    assert_eq!(from.yaw, s(1.08 + std::f32::consts::PI));
    assert_eq!(from.pitch, s(0.24));
    assert_eq!(from.fov_y_degrees, s(24.0));
    assert_eq!(f64::from_bits(stage.clear_color.r), 0.14);
    assert_eq!(f64::from_bits(stage.clear_color.g), 0.26);
    assert_eq!(f64::from_bits(stage.clear_color.b), 0.48);
    assert_eq!(f64::from_bits(stage.clear_color.a), 1.0);
    assert_eq!(look.wind, WindSettings::default());
}

#[test]
fn neutral_debug_stage_has_its_look() {
    let stage = neutral_debug(settings());
    let look = &stage.scene_settings;
    assert_eq!(look.sun_direction, along(-0.42, 0.60, -0.50));
    assert_eq!(look.sun_color, v(1.0, 1.0, 1.0));
    assert_eq!(look.sun_strength, s(1.10));
    assert_eq!(look.sun_angular_radius, s(0.0098));
    assert_eq!(look.fog_density, s(0.0009));
    assert_eq!(look.fog_height_falloff, s(0.10));
    assert_eq!(look.fog_start, s(130.0));
    assert_eq!(look.fog_end, s(420.0));
    assert_eq!(look.fog_color, v(0.57, 0.67, 0.78));
    assert_eq!(look.fog_sky_mix, s(0.02));
    assert_eq!(look.sky_zenith, v(0.30, 0.42, 0.60));
    assert_eq!(look.sky_horizon, v(0.74, 0.82, 0.92));
    assert_eq!(look.sky_strength, s(0.21));
    assert_eq!(look.rayleigh_strength, s(0.86));
    assert_eq!(look.mie_strength, s(0.14));
    assert_eq!(look.mie_anisotropy, s(0.70));
    assert_eq!(look.horizon_haze, s(0.22));
    assert_eq!(look.shaft_intensity, s(0.08));
    assert_eq!(look.shaft_decay, s(0.96));
    assert_eq!(look.ambient_up, v(0.34, 0.38, 0.45));
    assert_eq!(look.ambient_down, v(0.20, 0.16, 0.14));
    assert_eq!(look.ambient_right, v(0.30, 0.31, 0.31));
    assert_eq!(look.ambient_left, v(0.30, 0.31, 0.31));
    assert_eq!(look.ambient_front, v(0.30, 0.31, 0.31));
    assert_eq!(look.ambient_back, v(0.30, 0.31, 0.31));
    assert_eq!(look.exposure, s(1.10));
    assert_eq!(look.tonemap_strength, s(0.88));
    assert_eq!(look.contact_shadow_strength, s(0.08));
    let from = &stage.camera_bookmark;
    assert_eq!(from.position, v(37.109, 22.311, 39.771));
    assert_eq!(from.yaw, s(0.82 + std::f32::consts::PI));
    assert_eq!(from.pitch, s(0.24));
    assert_eq!(from.fov_y_degrees, s(32.0));
    assert_eq!(f64::from_bits(stage.clear_color.r), 0.34);
    assert_eq!(f64::from_bits(stage.clear_color.g), 0.42);
    assert_eq!(f64::from_bits(stage.clear_color.b), 0.55);
    assert_eq!(f64::from_bits(stage.clear_color.a), 1.0);
    assert_eq!(look.wind, WindSettings::default());
}

#[test]
fn presets_lead_to_their_stages() {
    let position = |stage: SoundstageConfig| stage.camera_bookmark.position;
    let of = |preset: LookDevPreset| position(soundstage_for_preset(preset, settings()));
    assert_eq!(of(LookDevPreset::Hero), position(hero(settings())));
    assert_eq!(of(LookDevPreset::LowAngle), position(low_angle(settings())));
    assert_eq!(of(LookDevPreset::Silhouette), position(silhouette(settings())));
    assert_eq!(of(LookDevPreset::NeutralDebug), position(neutral_debug(settings())));
    assert_ne!(of(LookDevPreset::Hero), of(LookDevPreset::NeutralDebug));
}

#[test]
fn stages_keep_what_they_do_not_fix() {
    let base = settings();
    let stage = silhouette(settings());
    assert_eq!(stage.scene_settings.gi_intensity, base.gi_intensity);
    assert_eq!(stage.scene_settings.cloud_coverage, base.cloud_coverage);
    assert_eq!(stage.scene_settings.cloud_profile, base.cloud_profile);
    assert_eq!(stage.scene_settings.area_lights, base.area_lights);
    assert_eq!(stage.scene_settings.film_grain_strength, base.film_grain_strength);
}

#[test]
fn navigation_is_that_of_the_redwood() {
    let limits = hero(settings()).camera_navigation;
    assert_eq!(f(limits.min_pitch), -0.65);
    assert_eq!(f(limits.max_pitch), 1.15);
    assert_eq!(f(limits.min_height), 2.5);
    assert_eq!(f(limits.max_height), 82.0);
    assert_eq!(limits.roam_center, v(0.0, 11.0, 0.0));
    assert_eq!(f(limits.roam_radius), 118.0);
    assert_eq!(f(limits.base_move_speed), 24.0);
    assert_eq!(f(limits.sprint_multiplier), 2.4);
    assert_eq!(f(limits.mouse_sensitivity), 0.010);
    assert_eq!(f(limits.wheel_dolly_speed), 7.0);
}

#[test]
fn cameras_start_within_their_limits() {
    for preset in [
        LookDevPreset::Hero,
        LookDevPreset::LowAngle,
        LookDevPreset::Silhouette,
        LookDevPreset::NeutralDebug,
    ] {
        let stage = soundstage_for_preset(preset, settings());
        let limits = stage.camera_navigation;
        let from = stage.camera_bookmark;
        assert!(f(limits.min_height) < f(from.position.y));
        assert!(f(from.position.y) < f(limits.max_height));
        assert!(f(limits.min_pitch) < f(from.pitch) && f(from.pitch) < f(limits.max_pitch));
        assert_eq!(limits.roam_center, stage.layout.shadow_center);
        assert!(f(stage.scene_settings.sun_direction.y) > 0.0);
    }
}
