//! The stages on which the redwood is shown.

use vstd::prelude::*;

use crate::scalar::{zero, Scalar};
use crate::scene::bounds::Vec3;
use crate::scene::settings::{default_wind, SceneSettings, WindSettings};
use crate::soundstage::{
    redwood_layout, CameraBookmark, CameraNavigationConfig, ClearColor, LookDevPreset,
    SoundstageConfig, SoundstageLayout,
};

verus! {

/// What a stage fixes of the light and the environment.
#[derive(Clone, Copy, Debug, PartialEq, Eq, Structural)]
pub struct StageLook {
    pub sun_direction: Vec3,
    pub sun_color: Vec3,
    pub sun_strength: Scalar,
    pub sun_angular_radius: Scalar,
    pub fog_density: Scalar,
    pub fog_height_falloff: Scalar,
    pub fog_start: Scalar,
    pub fog_end: Scalar,
    pub fog_color: Vec3,
    pub fog_sky_mix: Scalar,
    pub sky_zenith: Vec3,
    pub sky_horizon: Vec3,
    pub sky_strength: Scalar,
    pub rayleigh_strength: Scalar,
    pub mie_strength: Scalar,
    pub mie_anisotropy: Scalar,
    pub horizon_haze: Scalar,
    pub shaft_intensity: Scalar,
    pub shaft_decay: Scalar,
    pub ambient_up: Vec3,
    pub ambient_down: Vec3,
    pub ambient_right: Vec3,
    pub ambient_left: Vec3,
    pub ambient_front: Vec3,
    pub ambient_back: Vec3,
    pub exposure: Scalar,
    pub tonemap_strength: Scalar,
    pub contact_shadow_strength: Scalar,
}

/// The number with a bit pattern.
#[verifier::allow_in_spec]
pub fn number(bits: u32) -> Scalar
    returns
        (Scalar { bits }),
{
    Scalar { bits }
}

/// The vector whose coordinates have these bit patterns.
#[verifier::allow_in_spec]
pub fn vector(x: u32, y: u32, z: u32) -> Vec3
    returns
        (Vec3 { x: Scalar { bits: x }, y: Scalar { bits: y }, z: Scalar { bits: z } }),
{
    Vec3 { x: Scalar { bits: x }, y: Scalar { bits: y }, z: Scalar { bits: z } }
}

/// Pitch from -0.65 to 1.15, height from 2.5 to 82, within 118 of (0, 11, 0); speed 24, times 2.4 in
/// a hurry, 0.01 per step of the mouse and 7 per step of its wheel.
#[verifier::allow_in_spec]
pub fn camera_navigation() -> CameraNavigationConfig
    returns
        (CameraNavigationConfig {
            min_pitch: number(0xBF26_6666),
            max_pitch: number(0x3F93_3333),
            min_height: number(0x4020_0000),
            max_height: number(0x42A4_0000),
            roam_center: vector(0, 0x4130_0000, 0),
            roam_radius: number(0x42EC_0000),
            base_move_speed: number(0x41C0_0000),
            sprint_multiplier: number(0x4019_999A),
            mouse_sensitivity: number(0x3C23_D70A),
            wheel_dolly_speed: number(0x40E0_0000),
        }),
{
    CameraNavigationConfig {
        min_pitch: number(0xBF26_6666),
        max_pitch: number(0x3F93_3333),
        min_height: number(0x4020_0000),
        max_height: number(0x42A4_0000),
        roam_center: vector(0, 0x4130_0000, 0),
        roam_radius: number(0x42EC_0000),
        base_move_speed: number(0x41C0_0000),
        sprint_multiplier: number(0x4019_999A),
        mouse_sensitivity: number(0x3C23_D70A),
        wheel_dolly_speed: number(0x40E0_0000),
    }
}

/// The light of [`hero`].
#[verifier::allow_in_spec]
pub fn hero_look() -> StageLook
    returns
        (StageLook {
            // along (-0.52, 0.58, -0.38)
            sun_direction: vector(0xBF19_9746, 0x3F2B_501D, 0xBEE0_7AA2),
            // (1, 0.94, 0.84)
            sun_color: vector(0x3F80_0000, 0x3F70_A3D7, 0x3F57_0A3D),
            // 1.34
            sun_strength: number(0x3FAB_851F),
            // 0.0105
            sun_angular_radius: number(0x3C2C_0831),
            // 0.001
            fog_density: number(0x3A83_126F),
            // 0.17
            fog_height_falloff: number(0x3E2E_147B),
            // 120
            fog_start: number(0x42F0_0000),
            // 420
            fog_end: number(0x43D2_0000),
            // (0.56, 0.67, 0.82)
            fog_color: vector(0x3F0F_5C29, 0x3F2B_851F, 0x3F51_EB85),
            // 0.01
            fog_sky_mix: number(0x3C23_D70A),
            // (0.2, 0.36, 0.7)
            sky_zenith: vector(0x3E4C_CCCD, 0x3EB8_51EC, 0x3F33_3333),
            // (0.72, 0.82, 0.94)
            sky_horizon: vector(0x3F38_51EC, 0x3F51_EB85, 0x3F70_A3D7),
            // 0.22
            sky_strength: number(0x3E61_47AE),
            // 1.05
            rayleigh_strength: number(0x3F86_6666),
            // 0.18
            mie_strength: number(0x3E38_51EC),
            // 0.76
            mie_anisotropy: number(0x3F42_8F5C),
            // 0.28
            horizon_haze: number(0x3E8F_5C29),
            // 0.18
            shaft_intensity: number(0x3E38_51EC),
            // 0.95
            shaft_decay: number(0x3F73_3333),
            // (0.3, 0.34, 0.42)
            ambient_up: vector(0x3E99_999A, 0x3EAE_147B, 0x3ED7_0A3D),
            // (0.15, 0.12, 0.09)
            ambient_down: vector(0x3E19_999A, 0x3DF5_C28F, 0x3DB8_51EC),
            // (0.17, 0.18, 0.21)
            ambient_right: vector(0x3E2E_147B, 0x3E38_51EC, 0x3E57_0A3D),
            // (0.15, 0.17, 0.2)
            ambient_left: vector(0x3E19_999A, 0x3E2E_147B, 0x3E4C_CCCD),
            // (0.16, 0.18, 0.21)
            ambient_front: vector(0x3E23_D70A, 0x3E38_51EC, 0x3E57_0A3D),
            // (0.15, 0.16, 0.19)
            ambient_back: vector(0x3E19_999A, 0x3E23_D70A, 0x3E42_8F5C),
            // 1.06
            exposure: number(0x3F87_AE14),
            // 1
            tonemap_strength: number(0x3F80_0000),
            // 0.18
            contact_shadow_strength: number(0x3E38_51EC),
        }),
{
    StageLook {
        sun_direction: vector(0xBF19_9746, 0x3F2B_501D, 0xBEE0_7AA2),
        sun_color: vector(0x3F80_0000, 0x3F70_A3D7, 0x3F57_0A3D),
        sun_strength: number(0x3FAB_851F),
        sun_angular_radius: number(0x3C2C_0831),
        fog_density: number(0x3A83_126F),
        fog_height_falloff: number(0x3E2E_147B),
        fog_start: number(0x42F0_0000),
        fog_end: number(0x43D2_0000),
        fog_color: vector(0x3F0F_5C29, 0x3F2B_851F, 0x3F51_EB85),
        fog_sky_mix: number(0x3C23_D70A),
        sky_zenith: vector(0x3E4C_CCCD, 0x3EB8_51EC, 0x3F33_3333),
        sky_horizon: vector(0x3F38_51EC, 0x3F51_EB85, 0x3F70_A3D7),
        sky_strength: number(0x3E61_47AE),
        rayleigh_strength: number(0x3F86_6666),
        mie_strength: number(0x3E38_51EC),
        mie_anisotropy: number(0x3F42_8F5C),
        horizon_haze: number(0x3E8F_5C29),
        shaft_intensity: number(0x3E38_51EC),
        shaft_decay: number(0x3F73_3333),
        ambient_up: vector(0x3E99_999A, 0x3EAE_147B, 0x3ED7_0A3D),
        ambient_down: vector(0x3E19_999A, 0x3DF5_C28F, 0x3DB8_51EC),
        ambient_right: vector(0x3E2E_147B, 0x3E38_51EC, 0x3E57_0A3D),
        ambient_left: vector(0x3E19_999A, 0x3E2E_147B, 0x3E4C_CCCD),
        ambient_front: vector(0x3E23_D70A, 0x3E38_51EC, 0x3E57_0A3D),
        ambient_back: vector(0x3E19_999A, 0x3E23_D70A, 0x3E42_8F5C),
        exposure: number(0x3F87_AE14),
        tonemap_strength: number(0x3F80_0000),
        contact_shadow_strength: number(0x3E38_51EC),
    }
}

/// From (74.25, 24.6, 48.5), turned by 0.57 and half a turn, tilted by 0.16,
/// with a field of view of 23.5 degrees.
#[verifier::allow_in_spec]
pub fn hero_bookmark() -> CameraBookmark
    returns
        (CameraBookmark {
            position: vector(0x4294_8000, 0x41C4_CCCD, 0x4242_0000),
            yaw: number(0x406D_8ABC),
            pitch: number(0x3E23_D70A),
            fov_y_degrees: number(0x41BC_0000),
        }),
{
    CameraBookmark {
        position: vector(0x4294_8000, 0x41C4_CCCD, 0x4242_0000),
        yaw: number(0x406D_8ABC),
        pitch: number(0x3E23_D70A),
        fov_y_degrees: number(0x41BC_0000),
    }
}

/// The colour (0.18, 0.32, 0.58, 1).
#[verifier::allow_in_spec]
pub fn hero_clear_color() -> ClearColor
    returns
        (ClearColor {
            r: 0x3FC7_0A3D_70A3_D70A,
            g: 0x3FD4_7AE1_47AE_147B,
            b: 0x3FE2_8F5C_28F5_C28F,
            a: 0x3FF0_0000_0000_0000,
        }),
{
    ClearColor {
        r: 0x3FC7_0A3D_70A3_D70A,
        g: 0x3FD4_7AE1_47AE_147B,
        b: 0x3FE2_8F5C_28F5_C28F,
        a: 0x3FF0_0000_0000_0000,
    }
}

/// The light of [`low_angle`].
#[verifier::allow_in_spec]
pub fn low_angle_look() -> StageLook
    returns
        (StageLook {
            // along (-0.6, 0.56, 0.3)
            sun_direction: vector(0xBF2F_C685, 0x3F24_0E9E, 0x3EAF_C685),
            // (0.99, 0.95, 0.88)
            sun_color: vector(0x3F7D_70A4, 0x3F73_3333, 0x3F61_47AE),
            // 1.18
            sun_strength: number(0x3F97_0A3D),
            // 0.01
            sun_angular_radius: number(0x3C23_D70A),
            // 0.0012
            fog_density: number(0x3A9D_4952),
            // 0.17
            fog_height_falloff: number(0x3E2E_147B),
            // 110
            fog_start: number(0x42DC_0000),
            // 400
            fog_end: number(0x43C8_0000),
            // (0.53, 0.64, 0.79)
            fog_color: vector(0x3F07_AE14, 0x3F23_D70A, 0x3F4A_3D71),
            // 0.01
            fog_sky_mix: number(0x3C23_D70A),
            // (0.18, 0.33, 0.64)
            sky_zenith: vector(0x3E38_51EC, 0x3EA8_F5C3, 0x3F23_D70A),
            // (0.68, 0.79, 0.92)
            sky_horizon: vector(0x3F2E_147B, 0x3F4A_3D71, 0x3F6B_851F),
            // 0.2
            sky_strength: number(0x3E4C_CCCD),
            // 0.98
            rayleigh_strength: number(0x3F7A_E148),
            // 0.18
            mie_strength: number(0x3E38_51EC),
            // 0.78
            mie_anisotropy: number(0x3F47_AE14),
            // 0.3
            horizon_haze: number(0x3E99_999A),
            // 0.16
            shaft_intensity: number(0x3E23_D70A),
            // 0.95
            shaft_decay: number(0x3F73_3333),
            // (0.24, 0.28, 0.38)
            ambient_up: vector(0x3E75_C28F, 0x3E8F_5C29, 0x3EC2_8F5C),
            // (0.15, 0.12, 0.09)
            ambient_down: vector(0x3E19_999A, 0x3DF5_C28F, 0x3DB8_51EC),
            // (0.14, 0.16, 0.18)
            ambient_right: vector(0x3E0F_5C29, 0x3E23_D70A, 0x3E38_51EC),
            // (0.14, 0.16, 0.18)
            ambient_left: vector(0x3E0F_5C29, 0x3E23_D70A, 0x3E38_51EC),
            // (0.14, 0.16, 0.18)
            ambient_front: vector(0x3E0F_5C29, 0x3E23_D70A, 0x3E38_51EC),
            // (0.14, 0.16, 0.18)
            ambient_back: vector(0x3E0F_5C29, 0x3E23_D70A, 0x3E38_51EC),
            // 1.03
            exposure: number(0x3F83_D70A),
            // 1
            tonemap_strength: number(0x3F80_0000),
            // 0.16
            contact_shadow_strength: number(0x3E23_D70A),
        }),
{
    StageLook {
        sun_direction: vector(0xBF2F_C685, 0x3F24_0E9E, 0x3EAF_C685),
        sun_color: vector(0x3F7D_70A4, 0x3F73_3333, 0x3F61_47AE),
        sun_strength: number(0x3F97_0A3D),
        sun_angular_radius: number(0x3C23_D70A),
        fog_density: number(0x3A9D_4952),
        fog_height_falloff: number(0x3E2E_147B),
        fog_start: number(0x42DC_0000),
        fog_end: number(0x43C8_0000),
        fog_color: vector(0x3F07_AE14, 0x3F23_D70A, 0x3F4A_3D71),
        fog_sky_mix: number(0x3C23_D70A),
        sky_zenith: vector(0x3E38_51EC, 0x3EA8_F5C3, 0x3F23_D70A),
        sky_horizon: vector(0x3F2E_147B, 0x3F4A_3D71, 0x3F6B_851F),
        sky_strength: number(0x3E4C_CCCD),
        rayleigh_strength: number(0x3F7A_E148),
        mie_strength: number(0x3E38_51EC),
        mie_anisotropy: number(0x3F47_AE14),
        horizon_haze: number(0x3E99_999A),
        shaft_intensity: number(0x3E23_D70A),
        shaft_decay: number(0x3F73_3333),
        ambient_up: vector(0x3E75_C28F, 0x3E8F_5C29, 0x3EC2_8F5C),
        ambient_down: vector(0x3E19_999A, 0x3DF5_C28F, 0x3DB8_51EC),
        ambient_right: vector(0x3E0F_5C29, 0x3E23_D70A, 0x3E38_51EC),
        ambient_left: vector(0x3E0F_5C29, 0x3E23_D70A, 0x3E38_51EC),
        ambient_front: vector(0x3E0F_5C29, 0x3E23_D70A, 0x3E38_51EC),
        ambient_back: vector(0x3E0F_5C29, 0x3E23_D70A, 0x3E38_51EC),
        exposure: number(0x3F83_D70A),
        tonemap_strength: number(0x3F80_0000),
        contact_shadow_strength: number(0x3E23_D70A),
    }
}

/// From (72.4, 14.2, -41.3), turned by -0.5 and half a turn, tilted by 0.05,
/// with a field of view of 21.5 degrees.
#[verifier::allow_in_spec]
pub fn low_angle_bookmark() -> CameraBookmark
    returns
        (CameraBookmark {
            position: vector(0x4290_CCCD, 0x4163_3333, 0xC225_3333),
            yaw: number(0x4029_0FDB),
            pitch: number(0x3D4C_CCCD),
            fov_y_degrees: number(0x41AC_0000),
        }),
{
    CameraBookmark {
        position: vector(0x4290_CCCD, 0x4163_3333, 0xC225_3333),
        yaw: number(0x4029_0FDB),
        pitch: number(0x3D4C_CCCD),
        fov_y_degrees: number(0x41AC_0000),
    }
}

/// The colour (0.16, 0.3, 0.54, 1).
#[verifier::allow_in_spec]
pub fn low_angle_clear_color() -> ClearColor
    returns
        (ClearColor {
            r: 0x3FC4_7AE1_47AE_147B,
            g: 0x3FD3_3333_3333_3333,
            b: 0x3FE1_47AE_147A_E148,
            a: 0x3FF0_0000_0000_0000,
        }),
{
    ClearColor {
        r: 0x3FC4_7AE1_47AE_147B,
        g: 0x3FD3_3333_3333_3333,
        b: 0x3FE1_47AE_147A_E148,
        a: 0x3FF0_0000_0000_0000,
    }
}

/// The light of [`silhouette`].
#[verifier::allow_in_spec]
pub fn silhouette_look() -> StageLook
    returns
        (StageLook {
            // along (-0.58, 0.55, -0.3)
            sun_direction: vector(0xBF2D_E9ED, 0x3F24_EB12, 0xBEB3_E92B),
            // (0.97, 0.94, 0.89)
            sun_color: vector(0x3F78_51EC, 0x3F70_A3D7, 0x3F63_D70A),
            // 1.26
            sun_strength: number(0x3FA1_47AE),
            // 0.01
            sun_angular_radius: number(0x3C23_D70A),
            // 0.0013
            fog_density: number(0x3AAA_64C3),
            // 0.15
            fog_height_falloff: number(0x3E19_999A),
            // 100
            fog_start: number(0x42C8_0000),
            // 390
            fog_end: number(0x43C3_0000),
            // (0.48, 0.58, 0.72)
            fog_color: vector(0x3EF5_C28F, 0x3F14_7AE1, 0x3F38_51EC),
            // 0
            fog_sky_mix: number(0),
            // (0.15, 0.28, 0.52)
            sky_zenith: vector(0x3E19_999A, 0x3E8F_5C29, 0x3F05_1EB8),
            // (0.64, 0.74, 0.88)
            sky_horizon: vector(0x3F23_D70A, 0x3F3D_70A4, 0x3F61_47AE),
            // 0.21
            sky_strength: number(0x3E57_0A3D),
            // 0.94
            rayleigh_strength: number(0x3F70_A3D7),
            // 0.22
            mie_strength: number(0x3E61_47AE),
            // 0.79
            mie_anisotropy: number(0x3F4A_3D71),
            // 0.34
            horizon_haze: number(0x3EAE_147B),
            // 0.14
            shaft_intensity: number(0x3E0F_5C29),
            // 0.94
            shaft_decay: number(0x3F70_A3D7),
            // (0.19, 0.22, 0.3)
            ambient_up: vector(0x3E42_8F5C, 0x3E61_47AE, 0x3E99_999A),
            // (0.12, 0.1, 0.07)
            ambient_down: vector(0x3DF5_C28F, 0x3DCC_CCCD, 0x3D8F_5C29),
            // (0.12, 0.13, 0.16)
            ambient_right: vector(0x3DF5_C28F, 0x3E05_1EB8, 0x3E23_D70A),
            // (0.12, 0.13, 0.16)
            ambient_left: vector(0x3DF5_C28F, 0x3E05_1EB8, 0x3E23_D70A),
            // (0.12, 0.13, 0.16)
            ambient_front: vector(0x3DF5_C28F, 0x3E05_1EB8, 0x3E23_D70A),
            // (0.12, 0.13, 0.16)
            ambient_back: vector(0x3DF5_C28F, 0x3E05_1EB8, 0x3E23_D70A),
            // 1.04
            exposure: number(0x3F85_1EB8),
            // 1
            tonemap_strength: number(0x3F80_0000),
            // 0.15
            contact_shadow_strength: number(0x3E19_999A),
        }),
{
    StageLook {
        sun_direction: vector(0xBF2D_E9ED, 0x3F24_EB12, 0xBEB3_E92B),
        sun_color: vector(0x3F78_51EC, 0x3F70_A3D7, 0x3F63_D70A),
        sun_strength: number(0x3FA1_47AE),
        sun_angular_radius: number(0x3C23_D70A),
        fog_density: number(0x3AAA_64C3),
        fog_height_falloff: number(0x3E19_999A),
        fog_start: number(0x42C8_0000),
        fog_end: number(0x43C3_0000),
        fog_color: vector(0x3EF5_C28F, 0x3F14_7AE1, 0x3F38_51EC),
        fog_sky_mix: number(0),
        sky_zenith: vector(0x3E19_999A, 0x3E8F_5C29, 0x3F05_1EB8),
        sky_horizon: vector(0x3F23_D70A, 0x3F3D_70A4, 0x3F61_47AE),
        sky_strength: number(0x3E57_0A3D),
        rayleigh_strength: number(0x3F70_A3D7),
        mie_strength: number(0x3E61_47AE),
        mie_anisotropy: number(0x3F4A_3D71),
        horizon_haze: number(0x3EAE_147B),
        shaft_intensity: number(0x3E0F_5C29),
        shaft_decay: number(0x3F70_A3D7),
        ambient_up: vector(0x3E42_8F5C, 0x3E61_47AE, 0x3E99_999A),
        ambient_down: vector(0x3DF5_C28F, 0x3DCC_CCCD, 0x3D8F_5C29),
        ambient_right: vector(0x3DF5_C28F, 0x3E05_1EB8, 0x3E23_D70A),
        ambient_left: vector(0x3DF5_C28F, 0x3E05_1EB8, 0x3E23_D70A),
        ambient_front: vector(0x3DF5_C28F, 0x3E05_1EB8, 0x3E23_D70A),
        ambient_back: vector(0x3DF5_C28F, 0x3E05_1EB8, 0x3E23_D70A),
        exposure: number(0x3F85_1EB8),
        tonemap_strength: number(0x3F80_0000),
        contact_shadow_strength: number(0x3E19_999A),
    }
}

/// From (29.3, 25.613, 54.827), turned by 1.08 and half a turn, tilted by 0.24,
/// with a field of view of 24 degrees.
#[verifier::allow_in_spec]
pub fn silhouette_bookmark() -> CameraBookmark
    returns
        (CameraBookmark {
            position: vector(0x41EA_6666, 0x41CC_E76D, 0x425B_4ED9),
            yaw: number(0x4087_174A),
            pitch: number(0x3E75_C28F),
            fov_y_degrees: number(0x41C0_0000),
        }),
{
    CameraBookmark {
        position: vector(0x41EA_6666, 0x41CC_E76D, 0x425B_4ED9),
        yaw: number(0x4087_174A),
        pitch: number(0x3E75_C28F),
        fov_y_degrees: number(0x41C0_0000),
    }
}

/// The colour (0.14, 0.26, 0.48, 1).
#[verifier::allow_in_spec]
pub fn silhouette_clear_color() -> ClearColor
    returns
        (ClearColor {
            r: 0x3FC1_EB85_1EB8_51EC,
            g: 0x3FD0_A3D7_0A3D_70A4,
            b: 0x3FDE_B851_EB85_1EB8,
            a: 0x3FF0_0000_0000_0000,
        }),
{
    ClearColor {
        r: 0x3FC1_EB85_1EB8_51EC,
        g: 0x3FD0_A3D7_0A3D_70A4,
        b: 0x3FDE_B851_EB85_1EB8,
        a: 0x3FF0_0000_0000_0000,
    }
}

/// The light of [`neutral_debug`].
#[verifier::allow_in_spec]
pub fn neutral_debug_look() -> StageLook
    returns
        (StageLook {
            // along (-0.42, 0.6, -0.5)
            sun_direction: vector(0xBEF2_7DF6, 0x3F2D_3567, 0xBF10_572B),
            // (1, 1, 1)
            sun_color: vector(0x3F80_0000, 0x3F80_0000, 0x3F80_0000),
            // 1.1
            sun_strength: number(0x3F8C_CCCD),
            // 0.0098
            sun_angular_radius: number(0x3C20_902E),
            // 0.0009
            fog_density: number(0x3A6B_EDFA),
            // 0.1
            fog_height_falloff: number(0x3DCC_CCCD),
            // 130
            fog_start: number(0x4302_0000),
            // 420
            fog_end: number(0x43D2_0000),
            // (0.57, 0.67, 0.78)
            fog_color: vector(0x3F11_EB85, 0x3F2B_851F, 0x3F47_AE14),
            // 0.02
            fog_sky_mix: number(0x3CA3_D70A),
            // (0.3, 0.42, 0.6)
            sky_zenith: vector(0x3E99_999A, 0x3ED7_0A3D, 0x3F19_999A),
            // (0.74, 0.82, 0.92)
            sky_horizon: vector(0x3F3D_70A4, 0x3F51_EB85, 0x3F6B_851F),
            // 0.21
            sky_strength: number(0x3E57_0A3D),
            // 0.86
            rayleigh_strength: number(0x3F5C_28F6),
            // 0.14
            mie_strength: number(0x3E0F_5C29),
            // 0.7
            mie_anisotropy: number(0x3F33_3333),
            // 0.22
            horizon_haze: number(0x3E61_47AE),
            // 0.08
            shaft_intensity: number(0x3DA3_D70A),
            // 0.96
            shaft_decay: number(0x3F75_C28F),
            // (0.34, 0.38, 0.45)
            ambient_up: vector(0x3EAE_147B, 0x3EC2_8F5C, 0x3EE6_6666),
            // (0.2, 0.16, 0.14)
            ambient_down: vector(0x3E4C_CCCD, 0x3E23_D70A, 0x3E0F_5C29),
            // (0.3, 0.31, 0.31)
            ambient_right: vector(0x3E99_999A, 0x3E9E_B852, 0x3E9E_B852),
            // (0.3, 0.31, 0.31)
            ambient_left: vector(0x3E99_999A, 0x3E9E_B852, 0x3E9E_B852),
            // (0.3, 0.31, 0.31)
            ambient_front: vector(0x3E99_999A, 0x3E9E_B852, 0x3E9E_B852),
            // (0.3, 0.31, 0.31)
            ambient_back: vector(0x3E99_999A, 0x3E9E_B852, 0x3E9E_B852),
            // 1.1
            exposure: number(0x3F8C_CCCD),
            // 0.88
            tonemap_strength: number(0x3F61_47AE),
            // 0.08
            contact_shadow_strength: number(0x3DA3_D70A),
        }),
{
    StageLook {
        sun_direction: vector(0xBEF2_7DF6, 0x3F2D_3567, 0xBF10_572B),
        sun_color: vector(0x3F80_0000, 0x3F80_0000, 0x3F80_0000),
        sun_strength: number(0x3F8C_CCCD),
        sun_angular_radius: number(0x3C20_902E),
        fog_density: number(0x3A6B_EDFA),
        fog_height_falloff: number(0x3DCC_CCCD),
        fog_start: number(0x4302_0000),
        fog_end: number(0x43D2_0000),
        fog_color: vector(0x3F11_EB85, 0x3F2B_851F, 0x3F47_AE14),
        fog_sky_mix: number(0x3CA3_D70A),
        sky_zenith: vector(0x3E99_999A, 0x3ED7_0A3D, 0x3F19_999A),
        sky_horizon: vector(0x3F3D_70A4, 0x3F51_EB85, 0x3F6B_851F),
        sky_strength: number(0x3E57_0A3D),
        rayleigh_strength: number(0x3F5C_28F6),
        mie_strength: number(0x3E0F_5C29),
        mie_anisotropy: number(0x3F33_3333),
        horizon_haze: number(0x3E61_47AE),
        shaft_intensity: number(0x3DA3_D70A),
        shaft_decay: number(0x3F75_C28F),
        ambient_up: vector(0x3EAE_147B, 0x3EC2_8F5C, 0x3EE6_6666),
        ambient_down: vector(0x3E4C_CCCD, 0x3E23_D70A, 0x3E0F_5C29),
        ambient_right: vector(0x3E99_999A, 0x3E9E_B852, 0x3E9E_B852),
        ambient_left: vector(0x3E99_999A, 0x3E9E_B852, 0x3E9E_B852),
        ambient_front: vector(0x3E99_999A, 0x3E9E_B852, 0x3E9E_B852),
        ambient_back: vector(0x3E99_999A, 0x3E9E_B852, 0x3E9E_B852),
        exposure: number(0x3F8C_CCCD),
        tonemap_strength: number(0x3F61_47AE),
        contact_shadow_strength: number(0x3DA3_D70A),
    }
}

/// From (37.109, 22.311, 39.771), turned by 0.82 and half a turn, tilted by 0.24,
/// with a field of view of 32 degrees.
#[verifier::allow_in_spec]
pub fn neutral_debug_bookmark() -> CameraBookmark
    returns
        (CameraBookmark {
            position: vector(0x4214_6F9E, 0x41B2_7CEE, 0x421F_1581),
            yaw: number(0x407D_8ABC),
            pitch: number(0x3E75_C28F),
            fov_y_degrees: number(0x4200_0000),
        }),
{
    CameraBookmark {
        position: vector(0x4214_6F9E, 0x41B2_7CEE, 0x421F_1581),
        yaw: number(0x407D_8ABC),
        pitch: number(0x3E75_C28F),
        fov_y_degrees: number(0x4200_0000),
    }
}

/// The colour (0.34, 0.42, 0.55, 1).
#[verifier::allow_in_spec]
pub fn neutral_debug_clear_color() -> ClearColor
    returns
        (ClearColor {
            r: 0x3FD5_C28F_5C28_F5C3,
            g: 0x3FDA_E147_AE14_7AE1,
            b: 0x3FE1_9999_9999_999A,
            a: 0x3FF0_0000_0000_0000,
        }),
{
    ClearColor {
        r: 0x3FD5_C28F_5C28_F5C3,
        g: 0x3FDA_E147_AE14_7AE1,
        b: 0x3FE1_9999_9999_999A,
        a: 0x3FF0_0000_0000_0000,
    }
}

/// Settings in which a stage's look replaces what it fixes, with a breeze, and everything else is
/// that of `base`.
pub open spec fn dressed(base: SceneSettings, look: StageLook) -> SceneSettings {
    SceneSettings {
        sun_direction: look.sun_direction,
        sun_color: look.sun_color,
        sun_strength: look.sun_strength,
        sun_angular_radius: look.sun_angular_radius,
        fog_density: look.fog_density,
        fog_height_falloff: look.fog_height_falloff,
        fog_start: look.fog_start,
        fog_end: look.fog_end,
        fog_color: look.fog_color,
        fog_sky_mix: look.fog_sky_mix,
        sky_zenith: look.sky_zenith,
        sky_horizon: look.sky_horizon,
        sky_strength: look.sky_strength,
        rayleigh_strength: look.rayleigh_strength,
        mie_strength: look.mie_strength,
        mie_anisotropy: look.mie_anisotropy,
        horizon_haze: look.horizon_haze,
        shaft_intensity: look.shaft_intensity,
        shaft_decay: look.shaft_decay,
        ambient_up: look.ambient_up,
        ambient_down: look.ambient_down,
        ambient_right: look.ambient_right,
        ambient_left: look.ambient_left,
        ambient_front: look.ambient_front,
        ambient_back: look.ambient_back,
        exposure: look.exposure,
        tonemap_strength: look.tonemap_strength,
        contact_shadow_strength: look.contact_shadow_strength,
        wind: default_wind(),
        ..base
    }
}

fn dress(base: SceneSettings, look: StageLook) -> (settings: SceneSettings)
    ensures
        settings == dressed(base, look),
{
    SceneSettings {
        sun_direction: look.sun_direction,
        sun_color: look.sun_color,
        sun_strength: look.sun_strength,
        sun_angular_radius: look.sun_angular_radius,
        fog_density: look.fog_density,
        fog_height_falloff: look.fog_height_falloff,
        fog_start: look.fog_start,
        fog_end: look.fog_end,
        fog_color: look.fog_color,
        fog_sky_mix: look.fog_sky_mix,
        sky_zenith: look.sky_zenith,
        sky_horizon: look.sky_horizon,
        sky_strength: look.sky_strength,
        rayleigh_strength: look.rayleigh_strength,
        mie_strength: look.mie_strength,
        mie_anisotropy: look.mie_anisotropy,
        horizon_haze: look.horizon_haze,
        shaft_intensity: look.shaft_intensity,
        shaft_decay: look.shaft_decay,
        ambient_up: look.ambient_up,
        ambient_down: look.ambient_down,
        ambient_right: look.ambient_right,
        ambient_left: look.ambient_left,
        ambient_front: look.ambient_front,
        ambient_back: look.ambient_back,
        exposure: look.exposure,
        tonemap_strength: look.tonemap_strength,
        contact_shadow_strength: look.contact_shadow_strength,
        wind: WindSettings::default(),
        ..base
    }
}

/// The look of a preset's stage.
pub open spec fn look_of(preset: LookDevPreset) -> StageLook {
    match preset {
        LookDevPreset::Hero => hero_look(),
        LookDevPreset::LowAngle => low_angle_look(),
        LookDevPreset::Silhouette => silhouette_look(),
        LookDevPreset::NeutralDebug => neutral_debug_look(),
    }
}

/// Where a preset's camera starts.
pub open spec fn bookmark_of(preset: LookDevPreset) -> CameraBookmark {
    match preset {
        LookDevPreset::Hero => hero_bookmark(),
        LookDevPreset::LowAngle => low_angle_bookmark(),
        LookDevPreset::Silhouette => silhouette_bookmark(),
        LookDevPreset::NeutralDebug => neutral_debug_bookmark(),
    }
}

/// What a preset shows where nothing is drawn.
pub open spec fn clear_color_of(preset: LookDevPreset) -> ClearColor {
    match preset {
        LookDevPreset::Hero => hero_clear_color(),
        LookDevPreset::LowAngle => low_angle_clear_color(),
        LookDevPreset::Silhouette => silhouette_clear_color(),
        LookDevPreset::NeutralDebug => neutral_debug_clear_color(),
    }
}

/// The stage of a preset.
pub open spec fn stage_of(preset: LookDevPreset, base: SceneSettings) -> SoundstageConfig {
    SoundstageConfig {
        scene_settings: dressed(base, look_of(preset)),
        layout: redwood_layout(),
        camera_bookmark: bookmark_of(preset),
        camera_navigation: camera_navigation(),
        clear_color: clear_color_of(preset),
    }
}

/// The tree in warm light, from afar. Of `base` stays what the stage does not fix.
pub fn hero(base: SceneSettings) -> (stage: SoundstageConfig)
    ensures
        stage == stage_of(LookDevPreset::Hero, base),
{
    SoundstageConfig {
        scene_settings: dress(base, hero_look()),
        layout: SoundstageLayout::redwood(),
        camera_bookmark: hero_bookmark(),
        camera_navigation: camera_navigation(),
        clear_color: hero_clear_color(),
    }
}

/// The tree from below. Of `base` stays what the stage does not fix.
pub fn low_angle(base: SceneSettings) -> (stage: SoundstageConfig)
    ensures
        stage == stage_of(LookDevPreset::LowAngle, base),
{
    SoundstageConfig {
        scene_settings: dress(base, low_angle_look()),
        layout: SoundstageLayout::redwood(),
        camera_bookmark: low_angle_bookmark(),
        camera_navigation: camera_navigation(),
        clear_color: low_angle_clear_color(),
    }
}

/// The tree against the light. Of `base` stays what the stage does not fix.
pub fn silhouette(base: SceneSettings) -> (stage: SoundstageConfig)
    ensures
        stage == stage_of(LookDevPreset::Silhouette, base),
{
    SoundstageConfig {
        scene_settings: dress(base, silhouette_look()),
        layout: SoundstageLayout::redwood(),
        camera_bookmark: silhouette_bookmark(),
        camera_navigation: camera_navigation(),
        clear_color: silhouette_clear_color(),
    }
}

/// The tree in white light. Of `base` stays what the stage does not fix.
pub fn neutral_debug(base: SceneSettings) -> (stage: SoundstageConfig)
    ensures
        stage == stage_of(LookDevPreset::NeutralDebug, base),
{
    SoundstageConfig {
        scene_settings: dress(base, neutral_debug_look()),
        layout: SoundstageLayout::redwood(),
        camera_bookmark: neutral_debug_bookmark(),
        camera_navigation: camera_navigation(),
        clear_color: neutral_debug_clear_color(),
    }
}

/// Every camera starts within the limits of navigation: its height and its pitch are in range. It
/// roams around the centre of the shadows, and the sun stands above the horizon.
pub proof fn stages_are_within_reach(preset: LookDevPreset, base: SceneSettings)
    ensures
        ({
            let stage = stage_of(preset, base);
            let limits = stage.camera_navigation;
            let from = stage.camera_bookmark;
            &&& limits.min_height.lt(from.position.y) && from.position.y.lt(limits.max_height)
            &&& limits.min_pitch.lt(from.pitch) && from.pitch.lt(limits.max_pitch)
            &&& limits.roam_center == stage.layout.shadow_center
            &&& zero().lt(stage.scene_settings.sun_direction.y)
        }),
{
}

/// All stages share the ground, the limits of navigation and the wind, and keep of the settings
/// what no stage fixes.
pub proof fn stages_share_the_ground(a: LookDevPreset, b: LookDevPreset, base: SceneSettings)
    ensures
        stage_of(a, base).layout == stage_of(b, base).layout,
        stage_of(a, base).camera_navigation == stage_of(b, base).camera_navigation,
        stage_of(a, base).scene_settings.wind == stage_of(b, base).scene_settings.wind,
        dressed(stage_of(a, base).scene_settings, look_of(b)) == stage_of(b, base).scene_settings,
{
}

/// What a stage does not fix stays as it was; what it fixes, the camera, the ground and the colour
/// behind everything do not depend on what was there before.
pub proof fn stages_keep_what_they_do_not_fix(
    preset: LookDevPreset,
    base: SceneSettings,
    other: SceneSettings,
)
    ensures
        ({
            let s = stage_of(preset, base).scene_settings;
            let t = stage_of(preset, other).scene_settings;
            &&& s.ambient_intensity == base.ambient_intensity
            &&& s.gi_intensity == base.gi_intensity
            &&& s.cloud_coverage == base.cloud_coverage
            &&& s.cloud_profile == base.cloud_profile
            &&& s.fog_volume_density == base.fog_volume_density
            &&& s.fog_volume_albedo == base.fog_volume_albedo
            &&& s.fog_volume_anisotropy == base.fog_volume_anisotropy
            &&& s.focus_distance == base.focus_distance
            &&& s.aperture == base.aperture
            &&& s.dof_enabled == base.dof_enabled
            &&& s.motion_blur_enabled == base.motion_blur_enabled
            &&& s.fxaa_enabled == base.fxaa_enabled
            &&& s.area_lights == base.area_lights
            &&& s.ca_strength == base.ca_strength
            &&& s.film_grain_strength == base.film_grain_strength
            &&& s.sun_direction == t.sun_direction
            &&& s.sun_color == t.sun_color
            &&& s.sun_strength == t.sun_strength
            &&& s.sun_angular_radius == t.sun_angular_radius
            &&& s.fog_density == t.fog_density
            &&& s.fog_height_falloff == t.fog_height_falloff
            &&& s.fog_start == t.fog_start
            &&& s.fog_end == t.fog_end
            &&& s.fog_color == t.fog_color
            &&& s.fog_sky_mix == t.fog_sky_mix
            &&& s.sky_zenith == t.sky_zenith
            &&& s.sky_horizon == t.sky_horizon
            &&& s.sky_strength == t.sky_strength
            &&& s.rayleigh_strength == t.rayleigh_strength
            &&& s.mie_strength == t.mie_strength
            &&& s.mie_anisotropy == t.mie_anisotropy
            &&& s.horizon_haze == t.horizon_haze
            &&& s.shaft_intensity == t.shaft_intensity
            &&& s.shaft_decay == t.shaft_decay
            &&& s.ambient_up == t.ambient_up
            &&& s.ambient_down == t.ambient_down
            &&& s.ambient_right == t.ambient_right
            &&& s.ambient_left == t.ambient_left
            &&& s.ambient_front == t.ambient_front
            &&& s.ambient_back == t.ambient_back
            &&& s.exposure == t.exposure
            &&& s.tonemap_strength == t.tonemap_strength
            &&& s.contact_shadow_strength == t.contact_shadow_strength
            &&& s.wind == t.wind
        }),
        stage_of(preset, base).layout == stage_of(preset, other).layout,
        stage_of(preset, base).camera_bookmark == stage_of(preset, other).camera_bookmark,
        stage_of(preset, base).camera_navigation == stage_of(preset, other).camera_navigation,
        stage_of(preset, base).clear_color == stage_of(preset, other).clear_color,
{
}

} // verus!
