//! Presets under which a scene is looked at.

use vstd::prelude::*;

use crate::scalar::Scalar;
use crate::scene::bounds::Vec3;
use crate::scene::settings::SceneSettings;

pub mod redwood_stage;

verus! {

#[derive(Clone, Copy, Debug, PartialEq, Eq, Structural)]
pub enum LookDevPreset {
    Hero,
    LowAngle,
    Silhouette,
    NeutralDebug,
}

/// The preset that a name stands for.
pub open spec fn preset_named(name: Seq<char>) -> Option<LookDevPreset> {
    if name == "hero"@ {
        Some(LookDevPreset::Hero)
    } else if name == "low_angle"@ {
        Some(LookDevPreset::LowAngle)
    } else if name == "silhouette"@ {
        Some(LookDevPreset::Silhouette)
    } else if name == "neutral_debug"@ {
        Some(LookDevPreset::NeutralDebug)
    } else {
        None
    }
}

/// The name of a preset.
pub open spec fn name_of(preset: LookDevPreset) -> Seq<char> {
    match preset {
        LookDevPreset::Hero => "hero"@,
        LookDevPreset::LowAngle => "low_angle"@,
        LookDevPreset::Silhouette => "silhouette"@,
        LookDevPreset::NeutralDebug => "neutral_debug"@,
    }
}

impl LookDevPreset {
    pub fn hero_default() -> (preset: LookDevPreset)
        ensures
            preset == LookDevPreset::Hero,
    {
        LookDevPreset::Hero
    }

    /// The preset with a name, if there is one.
    pub fn from_name(value: &str) -> (preset: Option<LookDevPreset>)
        ensures
            preset == preset_named(value@),
    {
        let name = value.to_owned();
        if name == "hero".to_owned() {
            Some(LookDevPreset::Hero)
        } else if name == "low_angle".to_owned() {
            Some(LookDevPreset::LowAngle)
        } else if name == "silhouette".to_owned() {
            Some(LookDevPreset::Silhouette)
        } else if name == "neutral_debug".to_owned() {
            Some(LookDevPreset::NeutralDebug)
        } else {
            None
        }
    }
}

/// Every preset is found by its name, and a name that is found is that of its preset.
pub proof fn presets_are_found_by_name(preset: LookDevPreset, name: Seq<char>)
    ensures
        preset_named(name_of(preset)) == Some(preset),
        preset_named(name) == Some(preset) ==> name == name_of(preset),
{
    reveal_strlit("hero");
    reveal_strlit("low_angle");
    reveal_strlit("silhouette");
    reveal_strlit("neutral_debug");
    assert("hero"@.len() == 4);
    assert("low_angle"@.len() == 9);
    assert("silhouette"@.len() == 10);
    assert("neutral_debug"@.len() == 13);
}

/// The ground, and the part of it that casts and catches shadows.
#[derive(Clone, Copy, Debug, PartialEq, Eq, Structural)]
pub struct SoundstageLayout {
    pub ground_radius: Scalar,
    pub ground_thickness: Scalar,
    pub shadow_center: Vec3,
    pub shadow_focus_radius: Scalar,
    pub shadow_depth: Scalar,
}

/// A ground of radius 320 and thickness 7.5; shadows around (0, 11, 0), 200 wide and 420 deep.
pub open spec fn redwood_layout() -> SoundstageLayout {
    SoundstageLayout {
        ground_radius: Scalar { bits: 0x43A0_0000 },
        ground_thickness: Scalar { bits: 0x40F0_0000 },
        shadow_center: Vec3 {
            x: Scalar { bits: 0 },
            y: Scalar { bits: 0x4130_0000 },
            z: Scalar { bits: 0 },
        },
        shadow_focus_radius: Scalar { bits: 0x4348_0000 },
        shadow_depth: Scalar { bits: 0x43D2_0000 },
    }
}

impl SoundstageLayout {
    /// The layout that all presets share.
    pub fn redwood() -> (layout: SoundstageLayout)
        ensures
            layout == redwood_layout(),
            layout.ground_radius.bits == 0x43A0_0000,
            layout.ground_thickness.bits == 0x40F0_0000,
            layout.shadow_center.x.bits == 0,
            layout.shadow_center.y.bits == 0x4130_0000,
            layout.shadow_center.z.bits == 0,
            layout.shadow_focus_radius.bits == 0x4348_0000,
            layout.shadow_depth.bits == 0x43D2_0000,
    {
        SoundstageLayout {
            ground_radius: Scalar::from_bits(0x43A0_0000),
            ground_thickness: Scalar::from_bits(0x40F0_0000),
            shadow_center: Vec3::new(
                Scalar::from_bits(0),
                Scalar::from_bits(0x4130_0000),
                Scalar::from_bits(0),
            ),
            shadow_focus_radius: Scalar::from_bits(0x4348_0000),
            shadow_depth: Scalar::from_bits(0x43D2_0000),
        }
    }
}

/// Where a camera starts: its position, its angles in radians and its field of view.
#[derive(Clone, Copy, Debug, PartialEq, Eq, Structural)]
pub struct CameraBookmark {
    pub position: Vec3,
    pub yaw: Scalar,
    pub pitch: Scalar,
    pub fov_y_degrees: Scalar,
}

/// How a camera may be moved.
#[derive(Clone, Copy, Debug, PartialEq, Eq, Structural)]
pub struct CameraNavigationConfig {
    pub min_pitch: Scalar,
    pub max_pitch: Scalar,
    pub min_height: Scalar,
    pub max_height: Scalar,
    pub roam_center: Vec3,
    pub roam_radius: Scalar,
    pub base_move_speed: Scalar,
    pub sprint_multiplier: Scalar,
    pub mouse_sensitivity: Scalar,
    pub wheel_dolly_speed: Scalar,
}

/// A colour, as the bit patterns of double-precision numbers.
#[derive(Clone, Copy, Debug, PartialEq, Eq, Structural)]
pub struct ClearColor {
    pub r: u64,
    pub g: u64,
    pub b: u64,
    pub a: u64,
}

/// A stage on which a scene is shown.
#[derive(Debug)]
pub struct SoundstageConfig {
    pub scene_settings: SceneSettings,
    pub layout: SoundstageLayout,
    pub camera_bookmark: CameraBookmark,
    pub camera_navigation: CameraNavigationConfig,
    pub clear_color: ClearColor,
}

/// The stage of a preset. Of `base` stays what the stage does not fix.
pub fn soundstage_for_preset(preset: LookDevPreset, base: SceneSettings) -> (stage:
    SoundstageConfig)
    ensures
        stage == redwood_stage::stage_of(preset, base),
{
    match preset {
        LookDevPreset::Hero => redwood_stage::hero(base),
        LookDevPreset::LowAngle => redwood_stage::low_angle(base),
        LookDevPreset::Silhouette => redwood_stage::silhouette(base),
        LookDevPreset::NeutralDebug => redwood_stage::neutral_debug(base),
    }
}

/// There are four names, and every other name stands for nothing.
pub proof fn presets_have_four_names(name: Seq<char>)
    ensures
        name == "hero"@ ==> preset_named(name) == Some(LookDevPreset::Hero),
        name == "low_angle"@ ==> preset_named(name) == Some(LookDevPreset::LowAngle),
        name == "silhouette"@ ==> preset_named(name) == Some(LookDevPreset::Silhouette),
        name == "neutral_debug"@ ==> preset_named(name) == Some(LookDevPreset::NeutralDebug),
        name != "hero"@ && name != "low_angle"@ && name != "silhouette"@ && name
            != "neutral_debug"@ ==> preset_named(name) is None,
{
    reveal_strlit("hero");
    reveal_strlit("low_angle");
    reveal_strlit("silhouette");
    reveal_strlit("neutral_debug");
    assert("hero"@.len() == 4);
    assert("low_angle"@.len() == 9);
    assert("silhouette"@.len() == 10);
    assert("neutral_debug"@.len() == 13);
}

} // verus!
