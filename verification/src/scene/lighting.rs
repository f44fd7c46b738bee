//! The uniforms that lit passes share.

use vstd::prelude::*;

use crate::scalar::{one, whole, zero, Mat4, Scalar, Vec4};
use crate::scene::bounds::Vec3;
use crate::scene::settings::{SceneSettings, SkyProbe};
use crate::scene::shadow::CascadeSet;

verus! {

/// What lighting knows of the camera.
#[derive(Clone, Copy, Debug, PartialEq, Eq, Structural)]
pub struct CameraView {
    pub view_proj: Mat4,
    pub inv_view_proj: Mat4,
    pub position: Vec3,
}

/// The uniforms of lit passes, in the order in which shaders read them.
#[derive(Clone, Copy, Debug, PartialEq, Eq, Structural)]
pub struct LightingUniforms {
    pub view_proj: Mat4,
    pub inv_view_proj: Mat4,
    pub camera_position: Vec4,
    pub sun_direction: Vec4,
    pub sun_color: Vec4,
    pub fog_color: Vec4,
    pub sky_zenith: Vec4,
    pub sky_horizon: Vec4,
    pub fog_params: Vec4,
    pub lighting_params: Vec4,
    pub light_vp: Mat4,
    pub ambient_up: Vec4,
    pub ambient_down: Vec4,
    pub ambient_right: Vec4,
    pub ambient_left: Vec4,
    pub ambient_front: Vec4,
    pub ambient_back: Vec4,
    pub atmosphere_params: Vec4,
    pub shaft_params: Vec4,
    pub time_params: Vec4,
    pub screen_size: Vec4,
    pub wind_params: Vec4,
    pub light_vp_1: Mat4,
    pub light_vp_2: Mat4,
    pub light_vp_3: Mat4,
    pub cascade_splits: Vec4,
}

/// How many words the uniforms have.
pub const LIGHTING_WORDS: usize = 176;

/// The size of the uniforms in bytes.
pub const LIGHTING_UNIFORM_SIZE: u64 = 704;

/// What each uniform holds. Time stands still for what the wind moves while it is frozen.
pub open spec fn lighting_of(
    view: CameraView,
    settings: SceneSettings,
    cascades: CascadeSet,
    elapsed_secs: Scalar,
    screen_width: u32,
    screen_height: u32,
    probe: SkyProbe,
) -> LightingUniforms {
    LightingUniforms {
        view_proj: view.view_proj,
        inv_view_proj: view.inv_view_proj,
        camera_position: Vec4 {
            x: view.position.x,
            y: view.position.y,
            z: view.position.z,
            w: one(),
        },
        sun_direction: Vec4 {
            x: settings.sun_direction.x,
            y: settings.sun_direction.y,
            z: settings.sun_direction.z,
            w: zero(),
        },
        sun_color: Vec4 {
            x: settings.sun_color.x,
            y: settings.sun_color.y,
            z: settings.sun_color.z,
            w: settings.sun_strength,
        },
        fog_color: Vec4 {
            x: settings.fog_color.x,
            y: settings.fog_color.y,
            z: settings.fog_color.z,
            w: settings.fog_sky_mix,
        },
        sky_zenith: Vec4 {
            x: settings.sky_zenith.x,
            y: settings.sky_zenith.y,
            z: settings.sky_zenith.z,
            w: settings.sky_strength,
        },
        sky_horizon: Vec4 {
            x: settings.sky_horizon.x,
            y: settings.sky_horizon.y,
            z: settings.sky_horizon.z,
            w: one(),
        },
        fog_params: Vec4 {
            x: settings.fog_density,
            y: settings.fog_height_falloff,
            z: settings.fog_start,
            w: settings.fog_end,
        },
        lighting_params: Vec4 {
            x: settings.exposure,
            y: settings.tonemap_strength,
            z: settings.contact_shadow_strength,
            w: settings.gi_intensity,
        },
        light_vp: cascades.light_vps@[0],
        ambient_up: Vec4 { x: probe.up.x, y: probe.up.y, z: probe.up.z, w: zero() },
        ambient_down: Vec4 { x: probe.down.x, y: probe.down.y, z: probe.down.z, w: zero() },
        ambient_right: Vec4 {
            x: probe.right.x,
            y: probe.right.y,
            z: probe.right.z,
            w: zero(),
        },
        ambient_left: Vec4 { x: probe.left.x, y: probe.left.y, z: probe.left.z, w: zero() },
        ambient_front: Vec4 {
            x: probe.front.x,
            y: probe.front.y,
            z: probe.front.z,
            w: zero(),
        },
        ambient_back: Vec4 { x: probe.back.x, y: probe.back.y, z: probe.back.z, w: zero() },
        atmosphere_params: Vec4 {
            x: settings.sun_angular_radius,
            y: settings.rayleigh_strength,
            z: settings.mie_strength,
            w: settings.mie_anisotropy,
        },
        shaft_params: Vec4 {
            x: settings.horizon_haze,
            y: settings.shaft_intensity,
            z: settings.shaft_decay,
            w: settings.cloud_coverage,
        },
        time_params: Vec4 {
            x: elapsed_secs,
            y: if settings.wind.frozen {
                zero()
            } else {
                elapsed_secs
            },
            z: zero(),
            w: zero(),
        },
        screen_size: Vec4 {
            x: whole(screen_width as nat),
            y: whole(screen_height as nat),
            z: zero(),
            w: zero(),
        },
        wind_params: Vec4 {
            x: settings.wind.direction.x,
            y: settings.wind.direction.y,
            z: settings.wind.mean_speed,
            w: settings.wind.gust_strength,
        },
        light_vp_1: cascades.light_vps@[1],
        light_vp_2: cascades.light_vps@[2],
        light_vp_3: cascades.light_vps@[3],
        cascade_splits: Vec4 {
            x: cascades.splits@[0],
            y: cascades.splits@[1],
            z: cascades.splits@[2],
            w: cascades.splits@[3],
        },
    }
}

pub open spec fn vector_words(v: Vec4) -> Seq<u32> {
    seq![v.x.bits, v.y.bits, v.z.bits, v.w.bits]
}

pub open spec fn matrix_words(m: Mat4) -> Seq<u32> {
    vector_words(m.x_axis) + vector_words(m.y_axis) + vector_words(m.z_axis) + vector_words(
        m.w_axis,
    )
}

pub(crate) fn push_vector(words: &mut Vec<u32>, v: Vec4)
    ensures
        final(words)@ == old(words)@ + vector_words(v),
{
    words.push(v.x.to_bits());
    words.push(v.y.to_bits());
    words.push(v.z.to_bits());
    words.push(v.w.to_bits());
    assert(words@ =~= old(words)@ + vector_words(v));
}

pub(crate) fn push_matrix(words: &mut Vec<u32>, m: Mat4)
    ensures
        final(words)@ == old(words)@ + matrix_words(m),
{
    push_vector(words, m.x_axis);
    push_vector(words, m.y_axis);
    push_vector(words, m.z_axis);
    push_vector(words, m.w_axis);
    assert(words@ =~= old(words)@ + matrix_words(m));
}

impl LightingUniforms {
    /// Gathers the uniforms of a frame.
    pub fn from_camera(
        view: &CameraView,
        settings: &SceneSettings,
        cascades: &CascadeSet,
        elapsed_secs: Scalar,
        screen_width: u32,
        screen_height: u32,
        probe: &SkyProbe,
    ) -> (u: LightingUniforms)
        ensures
            u == lighting_of(
                *view,
                *settings,
                *cascades,
                elapsed_secs,
                screen_width,
                screen_height,
                *probe,
            ),
            u.view_proj == view.view_proj,
            u.inv_view_proj == view.inv_view_proj,
            u.camera_position.x == view.position.x,
            u.camera_position.y == view.position.y,
            u.camera_position.z == view.position.z,
            u.camera_position.w.bits == 0x3F80_0000,
            u.sun_direction.x == settings.sun_direction.x,
            u.sun_direction.y == settings.sun_direction.y,
            u.sun_direction.z == settings.sun_direction.z,
            u.sun_direction.w.bits == 0,
            u.sun_color.x == settings.sun_color.x,
            u.sun_color.y == settings.sun_color.y,
            u.sun_color.z == settings.sun_color.z,
            u.sun_color.w == settings.sun_strength,
            u.fog_color.x == settings.fog_color.x,
            u.fog_color.y == settings.fog_color.y,
            u.fog_color.z == settings.fog_color.z,
            u.fog_color.w == settings.fog_sky_mix,
            u.sky_zenith.x == settings.sky_zenith.x,
            u.sky_zenith.y == settings.sky_zenith.y,
            u.sky_zenith.z == settings.sky_zenith.z,
            u.sky_zenith.w == settings.sky_strength,
            u.sky_horizon.x == settings.sky_horizon.x,
            u.sky_horizon.y == settings.sky_horizon.y,
            u.sky_horizon.z == settings.sky_horizon.z,
            u.sky_horizon.w.bits == 0x3F80_0000,
            u.fog_params.x == settings.fog_density,
            u.fog_params.y == settings.fog_height_falloff,
            u.fog_params.z == settings.fog_start,
            u.fog_params.w == settings.fog_end,
            u.lighting_params.x == settings.exposure,
            u.lighting_params.y == settings.tonemap_strength,
            u.lighting_params.z == settings.contact_shadow_strength,
            u.lighting_params.w == settings.gi_intensity,
            u.light_vp == cascades.light_vps@[0],
            u.light_vp_1 == cascades.light_vps@[1],
            u.light_vp_2 == cascades.light_vps@[2],
            u.light_vp_3 == cascades.light_vps@[3],
            u.cascade_splits.x == cascades.splits@[0],
            u.cascade_splits.y == cascades.splits@[1],
            u.cascade_splits.z == cascades.splits@[2],
            u.cascade_splits.w == cascades.splits@[3],
            u.ambient_up.x == probe.up.x,
            u.ambient_up.y == probe.up.y,
            u.ambient_up.z == probe.up.z,
            u.ambient_up.w.bits == 0,
            u.ambient_down.x == probe.down.x,
            u.ambient_down.y == probe.down.y,
            u.ambient_down.z == probe.down.z,
            u.ambient_down.w.bits == 0,
            u.ambient_right.x == probe.right.x,
            u.ambient_right.y == probe.right.y,
            u.ambient_right.z == probe.right.z,
            u.ambient_right.w.bits == 0,
            u.ambient_left.x == probe.left.x,
            u.ambient_left.y == probe.left.y,
            u.ambient_left.z == probe.left.z,
            u.ambient_left.w.bits == 0,
            u.ambient_front.x == probe.front.x,
            u.ambient_front.y == probe.front.y,
            u.ambient_front.z == probe.front.z,
            u.ambient_front.w.bits == 0,
            u.ambient_back.x == probe.back.x,
            u.ambient_back.y == probe.back.y,
            u.ambient_back.z == probe.back.z,
            u.ambient_back.w.bits == 0,
            u.atmosphere_params.x == settings.sun_angular_radius,
            u.atmosphere_params.y == settings.rayleigh_strength,
            u.atmosphere_params.z == settings.mie_strength,
            u.atmosphere_params.w == settings.mie_anisotropy,
            u.shaft_params.x == settings.horizon_haze,
            u.shaft_params.y == settings.shaft_intensity,
            u.shaft_params.z == settings.shaft_decay,
            u.shaft_params.w == settings.cloud_coverage,
            u.time_params.x == elapsed_secs,
            settings.wind.frozen ==> u.time_params.y.bits == 0,
            !settings.wind.frozen ==> u.time_params.y == elapsed_secs,
            u.time_params.z.bits == 0,
            u.time_params.w.bits == 0,
            u.screen_size.x == whole(screen_width as nat),
            u.screen_size.y == whole(screen_height as nat),
            u.screen_size.z.bits == 0,
            u.screen_size.w.bits == 0,
            u.wind_params.x == settings.wind.direction.x,
            u.wind_params.y == settings.wind.direction.y,
            u.wind_params.z == settings.wind.mean_speed,
            u.wind_params.w == settings.wind.gust_strength,
    {
        let z = Scalar::from_bits(0);
        let o = Scalar::from_bits(0x3F80_0000);
        LightingUniforms {
            view_proj: view.view_proj,
            inv_view_proj: view.inv_view_proj,
            camera_position: Vec4 {
                x: view.position.x,
                y: view.position.y,
                z: view.position.z,
                w: o,
            },
            sun_direction: Vec4 {
                x: settings.sun_direction.x,
                y: settings.sun_direction.y,
                z: settings.sun_direction.z,
                w: z,
            },
            sun_color: Vec4 {
                x: settings.sun_color.x,
                y: settings.sun_color.y,
                z: settings.sun_color.z,
                w: settings.sun_strength,
            },
            fog_color: Vec4 {
                x: settings.fog_color.x,
                y: settings.fog_color.y,
                z: settings.fog_color.z,
                w: settings.fog_sky_mix,
            },
            sky_zenith: Vec4 {
                x: settings.sky_zenith.x,
                y: settings.sky_zenith.y,
                z: settings.sky_zenith.z,
                w: settings.sky_strength,
            },
            sky_horizon: Vec4 {
                x: settings.sky_horizon.x,
                y: settings.sky_horizon.y,
                z: settings.sky_horizon.z,
                w: o,
            },
            fog_params: Vec4 {
                x: settings.fog_density,
                y: settings.fog_height_falloff,
                z: settings.fog_start,
                w: settings.fog_end,
            },
            lighting_params: Vec4 {
                x: settings.exposure,
                y: settings.tonemap_strength,
                z: settings.contact_shadow_strength,
                w: settings.gi_intensity,
            },
            light_vp: cascades.light_vps[0],
            ambient_up: Vec4 { x: probe.up.x, y: probe.up.y, z: probe.up.z, w: z },
            ambient_down: Vec4 { x: probe.down.x, y: probe.down.y, z: probe.down.z, w: z },
            ambient_right: Vec4 {
                x: probe.right.x,
                y: probe.right.y,
                z: probe.right.z,
                w: z,
            },
            ambient_left: Vec4 { x: probe.left.x, y: probe.left.y, z: probe.left.z, w: z },
            ambient_front: Vec4 {
                x: probe.front.x,
                y: probe.front.y,
                z: probe.front.z,
                w: z,
            },
            ambient_back: Vec4 { x: probe.back.x, y: probe.back.y, z: probe.back.z, w: z },
            atmosphere_params: Vec4 {
                x: settings.sun_angular_radius,
                y: settings.rayleigh_strength,
                z: settings.mie_strength,
                w: settings.mie_anisotropy,
            },
            shaft_params: Vec4 {
                x: settings.horizon_haze,
                y: settings.shaft_intensity,
                z: settings.shaft_decay,
                w: settings.cloud_coverage,
            },
            time_params: Vec4 {
                x: elapsed_secs,
                y: if settings.wind.frozen {
                    z
                } else {
                    elapsed_secs
                },
                z: z,
                w: z,
            },
            screen_size: Vec4 {
                x: Scalar::from_whole(screen_width),
                y: Scalar::from_whole(screen_height),
                z: z,
                w: z,
            },
            wind_params: Vec4 {
                x: settings.wind.direction.x,
                y: settings.wind.direction.y,
                z: settings.wind.mean_speed,
                w: settings.wind.gust_strength,
            },
            light_vp_1: cascades.light_vps[1],
            light_vp_2: cascades.light_vps[2],
            light_vp_3: cascades.light_vps[3],
            cascade_splits: Vec4 {
                x: cascades.splits[0],
                y: cascades.splits[1],
                z: cascades.splits[2],
                w: cascades.splits[3],
            },
        }
    }

    /// The words of all uniforms, field after field.
    pub open spec fn word_list(self) -> Seq<u32> {
        matrix_words(self.view_proj)
            + matrix_words(self.inv_view_proj)
            + vector_words(self.camera_position)
            + vector_words(self.sun_direction)
            + vector_words(self.sun_color)
            + vector_words(self.fog_color)
            + vector_words(self.sky_zenith)
            + vector_words(self.sky_horizon)
            + vector_words(self.fog_params)
            + vector_words(self.lighting_params)
            + matrix_words(self.light_vp)
            + vector_words(self.ambient_up)
            + vector_words(self.ambient_down)
            + vector_words(self.ambient_right)
            + vector_words(self.ambient_left)
            + vector_words(self.ambient_front)
            + vector_words(self.ambient_back)
            + vector_words(self.atmosphere_params)
            + vector_words(self.shaft_params)
            + vector_words(self.time_params)
            + vector_words(self.screen_size)
            + vector_words(self.wind_params)
            + matrix_words(self.light_vp_1)
            + matrix_words(self.light_vp_2)
            + matrix_words(self.light_vp_3)
            + vector_words(self.cascade_splits)
    }

    /// The words of the uniforms as shaders read them.
    pub fn words(&self) -> (words: Vec<u32>)
        ensures
            words@ == self.word_list(),
    {
        let mut words: Vec<u32> = Vec::new();
        push_matrix(&mut words, self.view_proj);
        push_matrix(&mut words, self.inv_view_proj);
        push_vector(&mut words, self.camera_position);
        push_vector(&mut words, self.sun_direction);
        push_vector(&mut words, self.sun_color);
        push_vector(&mut words, self.fog_color);
        push_vector(&mut words, self.sky_zenith);
        push_vector(&mut words, self.sky_horizon);
        push_vector(&mut words, self.fog_params);
        push_vector(&mut words, self.lighting_params);
        push_matrix(&mut words, self.light_vp);
        push_vector(&mut words, self.ambient_up);
        push_vector(&mut words, self.ambient_down);
        push_vector(&mut words, self.ambient_right);
        push_vector(&mut words, self.ambient_left);
        push_vector(&mut words, self.ambient_front);
        push_vector(&mut words, self.ambient_back);
        push_vector(&mut words, self.atmosphere_params);
        push_vector(&mut words, self.shaft_params);
        push_vector(&mut words, self.time_params);
        push_vector(&mut words, self.screen_size);
        push_vector(&mut words, self.wind_params);
        push_matrix(&mut words, self.light_vp_1);
        push_matrix(&mut words, self.light_vp_2);
        push_matrix(&mut words, self.light_vp_3);
        push_vector(&mut words, self.cascade_splits);
        assert(words@ =~= self.word_list());
        words
    }
}

/// A matrix has sixteen words.
proof fn lemma_matrix_len(m: Mat4)
    ensures
        matrix_words(m).len() == 16,
{
}

/// The uniforms fill their buffer exactly.
pub proof fn lighting_fills_its_buffer(u: LightingUniforms)
    ensures
        u.word_list().len() == LIGHTING_WORDS,
        4 * u.word_list().len() == LIGHTING_UNIFORM_SIZE,
{
    lemma_matrix_len(u.view_proj);
    lemma_matrix_len(u.inv_view_proj);
    lemma_matrix_len(u.light_vp);
    lemma_matrix_len(u.light_vp_1);
    lemma_matrix_len(u.light_vp_2);
    lemma_matrix_len(u.light_vp_3);
}

/// From place `at` on, the words are the patterns of a vector's coordinates.
pub open spec fn vector_at(words: Seq<u32>, at: int, v: Vec4) -> bool {
    &&& 0 <= at <= words.len() - 4
    &&& words[at] == v.x.bits
    &&& words[at + 1] == v.y.bits
    &&& words[at + 2] == v.z.bits
    &&& words[at + 3] == v.w.bits
}

/// From place `at` on, the words are these four.
pub open spec fn words_are(words: Seq<u32>, at: int, x: u32, y: u32, z: u32, w: u32) -> bool {
    &&& 0 <= at <= words.len() - 4
    &&& words[at] == x
    &&& words[at + 1] == y
    &&& words[at + 2] == z
    &&& words[at + 3] == w
}

/// From place `at` on, the words are the patterns of a matrix, column after column.
pub open spec fn matrix_at(words: Seq<u32>, at: int, m: Mat4) -> bool {
    &&& vector_at(words, at, m.x_axis)
    &&& vector_at(words, at + 4, m.y_axis)
    &&& vector_at(words, at + 8, m.z_axis)
    &&& vector_at(words, at + 12, m.w_axis)
}

/// Where each uniform stands among the words that shaders read.
#[verifier::rlimit(60)]
pub proof fn lighting_words_stand_in_order(u: LightingUniforms)
    ensures
        matrix_at(u.word_list(), 0, u.view_proj),
        matrix_at(u.word_list(), 16, u.inv_view_proj),
        vector_at(u.word_list(), 32, u.camera_position),
        vector_at(u.word_list(), 36, u.sun_direction),
        vector_at(u.word_list(), 40, u.sun_color),
        vector_at(u.word_list(), 44, u.fog_color),
        vector_at(u.word_list(), 48, u.sky_zenith),
        vector_at(u.word_list(), 52, u.sky_horizon),
        vector_at(u.word_list(), 56, u.fog_params),
        vector_at(u.word_list(), 60, u.lighting_params),
        matrix_at(u.word_list(), 64, u.light_vp),
        vector_at(u.word_list(), 80, u.ambient_up),
        vector_at(u.word_list(), 84, u.ambient_down),
        vector_at(u.word_list(), 88, u.ambient_right),
        vector_at(u.word_list(), 92, u.ambient_left),
        vector_at(u.word_list(), 96, u.ambient_front),
        vector_at(u.word_list(), 100, u.ambient_back),
        vector_at(u.word_list(), 104, u.atmosphere_params),
        vector_at(u.word_list(), 108, u.shaft_params),
        vector_at(u.word_list(), 112, u.time_params),
        vector_at(u.word_list(), 116, u.screen_size),
        vector_at(u.word_list(), 120, u.wind_params),
        matrix_at(u.word_list(), 124, u.light_vp_1),
        matrix_at(u.word_list(), 140, u.light_vp_2),
        matrix_at(u.word_list(), 156, u.light_vp_3),
        vector_at(u.word_list(), 172, u.cascade_splits),
{
    lemma_matrix_len(u.view_proj);
    lemma_matrix_len(u.inv_view_proj);
    lemma_matrix_len(u.light_vp);
    lemma_matrix_len(u.light_vp_1);
    lemma_matrix_len(u.light_vp_2);
    lemma_matrix_len(u.light_vp_3);
}

/// Whether any of the ambient colours was set by hand, by the squares of their lengths: one of them
/// is above a ten-thousandth.
pub open spec fn any_ambient_set(squared_lengths: Seq<Scalar>) -> bool {
    exists|i: int|
        0 <= i < squared_lengths.len() && (Scalar { bits: 0x38D1_B717 }).lt(
            #[trigger] squared_lengths[i],
        )
}

/// Whether the probe is blended with ambient colours that were set by hand.
pub fn has_manual_ambient(squared_lengths: &[Scalar]) -> (r: bool)
    ensures
        r == any_ambient_set(squared_lengths@),
{
    let least = Scalar::from_bits(0x38D1_B717);
    let mut i: usize = 0;
    while i < squared_lengths.len()
        invariant
            i <= squared_lengths@.len(),
            least == (Scalar { bits: 0x38D1_B717 }),
            forall|k: int| 0 <= k < i ==> !least.lt(#[trigger] squared_lengths@[k]),
        decreases squared_lengths@.len() - i,
    {
        if least.less(squared_lengths[i]) {
            assert(least.lt(squared_lengths@[i as int]));
            return true;
        }
        i = i + 1;
    }
    false
}

} // verus!
