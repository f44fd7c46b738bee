//! Settings of a scene's light, sky and wind.

use vstd::prelude::*;

use crate::scalar::Scalar;
use crate::scene::bounds::Vec3;
use crate::scene::vertex::Vec2;

verus! {

/// How large clouds are rendered.
#[derive(Clone, Copy, Debug, PartialEq, Eq, Structural)]
pub enum CloudResolution {
    /// A quarter of the screen's width and height.
    Quarter,
    /// Half the screen's width and height.
    Half,
}

/// The parameters of the cloud volume.
#[derive(Clone, Copy, Debug, PartialEq, Eq, Structural)]
pub struct CloudProfile {
    pub coverage: Scalar,
    pub density_scale: Scalar,
    pub cloud_base_km: Scalar,
    pub cloud_top_km: Scalar,
    pub detail_erosion: Scalar,
    pub wind_speed: Scalar,
    pub march_steps: u32,
    pub light_steps: u32,
    pub temporal_blend: Scalar,
    pub resolution: CloudResolution,
}

/// A light cover between 1.8 and 3.2 km, at a quarter of the screen's size: coverage 0.35, density
/// 16, erosion 0.6, wind 1, and 0.88 of the frame before.
pub open spec fn default_cloud_profile() -> CloudProfile {
    CloudProfile {
        coverage: Scalar { bits: 0x3EB3_3333 },
        density_scale: Scalar { bits: 0x4180_0000 },
        cloud_base_km: Scalar { bits: 0x3FE6_6666 },
        cloud_top_km: Scalar { bits: 0x404C_CCCD },
        detail_erosion: Scalar { bits: 0x3F19_999A },
        wind_speed: Scalar { bits: 0x3F80_0000 },
        march_steps: 48,
        light_steps: 6,
        temporal_blend: Scalar { bits: 0x3F61_47AE },
        resolution: CloudResolution::Quarter,
    }
}

impl Default for CloudProfile {
    fn default() -> (profile: CloudProfile)
        ensures
            profile == default_cloud_profile(),
            profile.coverage.bits == 0x3EB3_3333,
            profile.density_scale.bits == 0x4180_0000,
            profile.cloud_base_km.bits == 0x3FE6_6666,
            profile.cloud_top_km.bits == 0x404C_CCCD,
            profile.detail_erosion.bits == 0x3F19_999A,
            profile.wind_speed.bits == 0x3F80_0000,
            profile.march_steps == 48,
            profile.light_steps == 6,
            profile.temporal_blend.bits == 0x3F61_47AE,
            profile.resolution == CloudResolution::Quarter,
    {
        CloudProfile {
            coverage: Scalar::from_bits(0x3EB3_3333),
            density_scale: Scalar::from_bits(0x4180_0000),
            cloud_base_km: Scalar::from_bits(0x3FE6_6666),
            cloud_top_km: Scalar::from_bits(0x404C_CCCD),
            detail_erosion: Scalar::from_bits(0x3F19_999A),
            wind_speed: Scalar::from_bits(0x3F80_0000),
            march_steps: 48,
            light_steps: 6,
            temporal_blend: Scalar::from_bits(0x3F61_47AE),
            resolution: CloudResolution::Quarter,
        }
    }
}

/// A light with an extent.
#[derive(Clone, Copy, Debug, PartialEq, Eq, Structural)]
pub enum AreaLight {
    Sphere { position: Vec3, radius: Scalar, color: Vec3, intensity: Scalar },
    Tube { start: Vec3, end: Vec3, radius: Scalar, color: Vec3, intensity: Scalar },
}

/// Wind that moves foliage.
#[derive(Clone, Copy, Debug, PartialEq, Eq, Structural)]
pub struct WindSettings {
    pub direction: Vec2,
    pub mean_speed: Scalar,
    pub gust_strength: Scalar,
    pub gust_frequency: Scalar,
    pub turbulence: Scalar,
    /// Foliage stands still.
    pub frozen: bool,
}

/// A breeze along (1, 0.3): speed 1, gusts of 0.35 at frequency 0.28, turbulence 0.65.
pub open spec fn default_wind() -> WindSettings {
    WindSettings {
        direction: Vec2 { x: Scalar { bits: 0x3F80_0000 }, y: Scalar { bits: 0x3E99_999A } },
        mean_speed: Scalar { bits: 0x3F80_0000 },
        gust_strength: Scalar { bits: 0x3EB3_3333 },
        gust_frequency: Scalar { bits: 0x3E8F_5C29 },
        turbulence: Scalar { bits: 0x3F26_6666 },
        frozen: false,
    }
}

impl Default for WindSettings {
    fn default() -> (wind: WindSettings)
        ensures
            wind == default_wind(),
            wind.direction.x.bits == 0x3F80_0000,
            wind.direction.y.bits == 0x3E99_999A,
            wind.mean_speed.bits == 0x3F80_0000,
            wind.gust_strength.bits == 0x3EB3_3333,
            wind.gust_frequency.bits == 0x3E8F_5C29,
            wind.turbulence.bits == 0x3F26_6666,
            !wind.frozen,
    {
        WindSettings {
            direction: Vec2 { x: Scalar::from_bits(0x3F80_0000), y: Scalar::from_bits(0x3E99_999A) },
            mean_speed: Scalar::from_bits(0x3F80_0000),
            gust_strength: Scalar::from_bits(0x3EB3_3333),
            gust_frequency: Scalar::from_bits(0x3E8F_5C29),
            turbulence: Scalar::from_bits(0x3F26_6666),
            frozen: false,
        }
    }
}

/// Light and environment of a scene.
#[derive(Debug)]
pub struct SceneSettings {
    pub sun_direction: Vec3,
    pub sun_color: Vec3,
    pub sun_strength: Scalar,
    pub sun_angular_radius: Scalar,
    pub fog_density: Scalar,
    pub fog_height_falloff: Scalar,
    pub fog_start: Scalar,
    pub fog_end: Scalar,
    pub fog_color: Vec3,
    pub fog_sky_mix: Scalar,
    pub sky_zenith: Vec3,
    pub sky_horizon: Vec3,
    pub sky_strength: Scalar,
    pub rayleigh_strength: Scalar,
    pub mie_strength: Scalar,
    pub mie_anisotropy: Scalar,
    pub horizon_haze: Scalar,
    pub shaft_intensity: Scalar,
    pub shaft_decay: Scalar,
    pub ambient_up: Vec3,
    pub ambient_down: Vec3,
    pub ambient_right: Vec3,
    pub ambient_left: Vec3,
    pub ambient_front: Vec3,
    pub ambient_back: Vec3,
    pub exposure: Scalar,
    pub tonemap_strength: Scalar,
    pub contact_shadow_strength: Scalar,
    pub ambient_intensity: Scalar,
    pub gi_intensity: Scalar,
    pub cloud_coverage: Scalar,
    pub cloud_profile: CloudProfile,
    pub wind: WindSettings,
    pub fog_volume_density: Scalar,
    pub fog_volume_albedo: Vec3,
    pub fog_volume_anisotropy: Scalar,
    pub focus_distance: Scalar,
    pub aperture: Scalar,
    pub dof_enabled: bool,
    pub motion_blur_enabled: bool,
    pub fxaa_enabled: bool,
    pub area_lights: Vec<AreaLight>,
    pub ca_strength: Scalar,
    pub film_grain_strength: Scalar,
}

/// The ambient light that reaches a point from the six directions of the axes.
#[derive(Clone, Copy, Debug, PartialEq, Eq, Structural)]
pub struct SkyProbe {
    pub up: Vec3,
    pub down: Vec3,
    pub right: Vec3,
    pub left: Vec3,
    pub front: Vec3,
    pub back: Vec3,
}

} // verus!
