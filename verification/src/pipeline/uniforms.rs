//! What passes tell their shaders, word by word.

use vstd::prelude::*;

use crate::pipeline::bloom_pass::{BloomUniformWrite, BLOOM_UNIFORM_SIZE};
use crate::pipeline::cloud_pass::{CloudUniformInputs, CLOUD_UNIFORM_SIZE};
use crate::pipeline::gpu::Buffer;
use crate::pipeline::gtao_pass::{GtaoPass, GTAO_UNIFORM_SIZE};
use crate::pipeline::ibl_pass::{prefilter_offset, PrefilterStep, PREFILTER_UNIFORM_SIZE};
use crate::pipeline::motion_blur_pass::{MotionBlurPass, MOTION_BLUR_UNIFORM_SIZE};
use crate::pipeline::sky_lut_pass::{SkyLutPass, SKY_LUT_UNIFORM_SIZE};
use crate::pipeline::ssao_pass::{SsaoPass, SSAO_UNIFORM_SIZE};
use crate::pipeline::ssgi_pass::{SsgiPass, SSGI_UNIFORM_SIZE};
use crate::pipeline::ssr_pass::{SsrPass, SSR_UNIFORM_SIZE};
use crate::pipeline::sun_shaft_pass::{SunShaftPass, SUN_SHAFT_UNIFORM_SIZE};
use crate::pipeline::taa_pass::{TaaUniformInputs, TAA_UNIFORM_SIZE};
use crate::pipeline::upload::{words_at, words_to, Upload};
use crate::pipeline::volumetric_fog_pass::{
    FogUniformInputs, FOG_GRID_UNIFORM_SIZE, FOG_INJECT_UNIFORM_SIZE,
};
use crate::scalar::{one, reciprocal, whole, zero, Mat4, Scalar, Vec4};
use crate::scene::bounds::Vec3;
use crate::scene::lighting::{
    matrix_at, matrix_words, push_matrix, push_vector, vector_words, words_are,
};
use crate::scene::settings::SceneSettings;
use crate::scene::shadow::CascadeSet;
use crate::scene::vertex::Vec2;

verus! {

/// What ambient occlusion reads, of either kind.
#[derive(Clone, Copy, Debug, PartialEq, Eq, Structural)]
pub struct AmbientOcclusionUniforms {
    pub projection: Mat4,
    pub view: Mat4,
    pub inv_projection: Mat4,
    pub screen_size: Vec4,
    pub params: Vec4,
}

impl AmbientOcclusionUniforms {
    /// The words of all fields, one after the other.
    pub open spec fn word_list(self) -> Seq<u32> {
        matrix_words(self.projection)
            + matrix_words(self.view)
            + matrix_words(self.inv_projection)
            + vector_words(self.screen_size)
            + vector_words(self.params)
    }

    fn words(&self) -> (words: Vec<u32>)
        ensures
            words@ == self.word_list(),
    {
        let mut words: Vec<u32> = Vec::new();
        push_matrix(&mut words, self.projection);
        push_matrix(&mut words, self.view);
        push_matrix(&mut words, self.inv_projection);
        push_vector(&mut words, self.screen_size);
        push_vector(&mut words, self.params);
        assert(words@ =~= self.word_list());
        words
    }
}

/// What screen-space global illumination reads.
#[derive(Clone, Copy, Debug, PartialEq, Eq, Structural)]
pub struct SsgiUniforms {
    pub view: Mat4,
    pub inv_view: Mat4,
    pub projection: Mat4,
    pub inv_projection: Mat4,
    pub screen_size: Vec4,
    pub params: Vec4,
}

impl SsgiUniforms {
    /// The words of all fields, one after the other.
    pub open spec fn word_list(self) -> Seq<u32> {
        matrix_words(self.view)
            + matrix_words(self.inv_view)
            + matrix_words(self.projection)
            + matrix_words(self.inv_projection)
            + vector_words(self.screen_size)
            + vector_words(self.params)
    }

    fn words(&self) -> (words: Vec<u32>)
        ensures
            words@ == self.word_list(),
    {
        let mut words: Vec<u32> = Vec::new();
        push_matrix(&mut words, self.view);
        push_matrix(&mut words, self.inv_view);
        push_matrix(&mut words, self.projection);
        push_matrix(&mut words, self.inv_projection);
        push_vector(&mut words, self.screen_size);
        push_vector(&mut words, self.params);
        assert(words@ =~= self.word_list());
        words
    }
}

/// What screen-space reflections read.
#[derive(Clone, Copy, Debug, PartialEq, Eq, Structural)]
pub struct SsrUniforms {
    pub view: Mat4,
    pub inv_view: Mat4,
    pub projection: Mat4,
    pub inv_projection: Mat4,
    pub screen_size: Vec4,
    pub params: Vec4,
    pub params2: Vec4,
}

impl SsrUniforms {
    /// The words of all fields, one after the other.
    pub open spec fn word_list(self) -> Seq<u32> {
        matrix_words(self.view)
            + matrix_words(self.inv_view)
            + matrix_words(self.projection)
            + matrix_words(self.inv_projection)
            + vector_words(self.screen_size)
            + vector_words(self.params)
            + vector_words(self.params2)
    }

    fn words(&self) -> (words: Vec<u32>)
        ensures
            words@ == self.word_list(),
    {
        let mut words: Vec<u32> = Vec::new();
        push_matrix(&mut words, self.view);
        push_matrix(&mut words, self.inv_view);
        push_matrix(&mut words, self.projection);
        push_matrix(&mut words, self.inv_projection);
        push_vector(&mut words, self.screen_size);
        push_vector(&mut words, self.params);
        push_vector(&mut words, self.params2);
        assert(words@ =~= self.word_list());
        words
    }
}

/// What motion blur reads.
#[derive(Clone, Copy, Debug, PartialEq, Eq, Structural)]
pub struct MotionBlurUniforms {
    pub screen_size: Vec4,
    pub params: Vec4,
}

impl MotionBlurUniforms {
    /// The words of all fields, one after the other.
    pub open spec fn word_list(self) -> Seq<u32> {
        vector_words(self.screen_size)
            + vector_words(self.params)
    }

    fn words(&self) -> (words: Vec<u32>)
        ensures
            words@ == self.word_list(),
    {
        let mut words: Vec<u32> = Vec::new();
        push_vector(&mut words, self.screen_size);
        push_vector(&mut words, self.params);
        assert(words@ =~= self.word_list());
        words
    }
}

/// What temporal anti-aliasing reads.
#[derive(Clone, Copy, Debug, PartialEq, Eq, Structural)]
pub struct TaaUniforms {
    pub inv_view_proj: Mat4,
    pub prev_view_proj: Mat4,
    pub screen_size: Vec4,
    pub jitter: Vec4,
    pub params: Vec4,
}

impl TaaUniforms {
    /// The words of all fields, one after the other.
    pub open spec fn word_list(self) -> Seq<u32> {
        matrix_words(self.inv_view_proj)
            + matrix_words(self.prev_view_proj)
            + vector_words(self.screen_size)
            + vector_words(self.jitter)
            + vector_words(self.params)
    }

    fn words(&self) -> (words: Vec<u32>)
        ensures
            words@ == self.word_list(),
    {
        let mut words: Vec<u32> = Vec::new();
        push_matrix(&mut words, self.inv_view_proj);
        push_matrix(&mut words, self.prev_view_proj);
        push_vector(&mut words, self.screen_size);
        push_vector(&mut words, self.jitter);
        push_vector(&mut words, self.params);
        assert(words@ =~= self.word_list());
        words
    }
}

/// What clouds read.
#[derive(Clone, Copy, Debug, PartialEq, Eq, Structural)]
pub struct CloudUniforms {
    pub inv_view_proj: Mat4,
    pub prev_view_proj: Mat4,
    pub camera_position: Vec4,
    pub sun_direction: Vec4,
    pub sun_color: Vec4,
    pub sky_ambient: Vec4,
    pub cloud_params: Vec4,
    pub screen_params: Vec4,
    pub cloud_profile: Vec4,
    pub cloud_profile2: Vec4,
    pub prev_time: Vec4,
}

impl CloudUniforms {
    /// The words of all fields, one after the other.
    pub open spec fn word_list(self) -> Seq<u32> {
        matrix_words(self.inv_view_proj)
            + matrix_words(self.prev_view_proj)
            + vector_words(self.camera_position)
            + vector_words(self.sun_direction)
            + vector_words(self.sun_color)
            + vector_words(self.sky_ambient)
            + vector_words(self.cloud_params)
            + vector_words(self.screen_params)
            + vector_words(self.cloud_profile)
            + vector_words(self.cloud_profile2)
            + vector_words(self.prev_time)
    }

    fn words(&self) -> (words: Vec<u32>)
        ensures
            words@ == self.word_list(),
    {
        let mut words: Vec<u32> = Vec::new();
        push_matrix(&mut words, self.inv_view_proj);
        push_matrix(&mut words, self.prev_view_proj);
        push_vector(&mut words, self.camera_position);
        push_vector(&mut words, self.sun_direction);
        push_vector(&mut words, self.sun_color);
        push_vector(&mut words, self.sky_ambient);
        push_vector(&mut words, self.cloud_params);
        push_vector(&mut words, self.screen_params);
        push_vector(&mut words, self.cloud_profile);
        push_vector(&mut words, self.cloud_profile2);
        push_vector(&mut words, self.prev_time);
        assert(words@ =~= self.word_list());
        words
    }
}

/// What the injection of light into fog reads.
#[derive(Clone, Copy, Debug, PartialEq, Eq, Structural)]
pub struct FogInjectUniforms {
    pub inv_view_proj: Mat4,
    pub prev_inv_view_proj: Mat4,
    pub camera_position: Vec4,
    pub sun_direction: Vec4,
    pub sun_color: Vec4,
    pub fog_params: Vec4,
    pub fog_albedo: Vec4,
    pub grid_params: Vec4,
    pub ambient_color: Vec4,
    pub light_vp: Mat4,
    pub light_vp_1: Mat4,
    pub light_vp_2: Mat4,
    pub light_vp_3: Mat4,
    pub cascade_splits: Vec4,
    pub view_proj: Mat4,
}

impl FogInjectUniforms {
    /// The words of all fields, one after the other.
    pub open spec fn word_list(self) -> Seq<u32> {
        matrix_words(self.inv_view_proj)
            + matrix_words(self.prev_inv_view_proj)
            + vector_words(self.camera_position)
            + vector_words(self.sun_direction)
            + vector_words(self.sun_color)
            + vector_words(self.fog_params)
            + vector_words(self.fog_albedo)
            + vector_words(self.grid_params)
            + vector_words(self.ambient_color)
            + matrix_words(self.light_vp)
            + matrix_words(self.light_vp_1)
            + matrix_words(self.light_vp_2)
            + matrix_words(self.light_vp_3)
            + vector_words(self.cascade_splits)
            + matrix_words(self.view_proj)
    }

    fn words(&self) -> (words: Vec<u32>)
        ensures
            words@ == self.word_list(),
    {
        let mut words: Vec<u32> = Vec::new();
        push_matrix(&mut words, self.inv_view_proj);
        push_matrix(&mut words, self.prev_inv_view_proj);
        push_vector(&mut words, self.camera_position);
        push_vector(&mut words, self.sun_direction);
        push_vector(&mut words, self.sun_color);
        push_vector(&mut words, self.fog_params);
        push_vector(&mut words, self.fog_albedo);
        push_vector(&mut words, self.grid_params);
        push_vector(&mut words, self.ambient_color);
        push_matrix(&mut words, self.light_vp);
        push_matrix(&mut words, self.light_vp_1);
        push_matrix(&mut words, self.light_vp_2);
        push_matrix(&mut words, self.light_vp_3);
        push_vector(&mut words, self.cascade_splits);
        push_matrix(&mut words, self.view_proj);
        assert(words@ =~= self.word_list());
        words
    }
}

/// What the integration and the compositing of fog read.
#[derive(Clone, Copy, Debug, PartialEq, Eq, Structural)]
pub struct FogGridUniforms {
    pub grid_params: Vec4,
    pub near_plane: Vec4,
}

impl FogGridUniforms {
    /// The words of all fields, one after the other.
    pub open spec fn word_list(self) -> Seq<u32> {
        vector_words(self.grid_params)
            + vector_words(self.near_plane)
    }

    fn words(&self) -> (words: Vec<u32>)
        ensures
            words@ == self.word_list(),
    {
        let mut words: Vec<u32> = Vec::new();
        push_vector(&mut words, self.grid_params);
        push_vector(&mut words, self.near_plane);
        assert(words@ =~= self.word_list());
        words
    }
}

/// What shafts of sunlight read.
#[derive(Clone, Copy, Debug, PartialEq, Eq, Structural)]
pub struct SunShaftUniforms {
    pub sun_screen: Vec4,
    pub sun_color: Vec4,
    pub shaft_params: Vec4,
    pub screen_size: Vec4,
}

impl SunShaftUniforms {
    /// The words of all fields, one after the other.
    pub open spec fn word_list(self) -> Seq<u32> {
        vector_words(self.sun_screen)
            + vector_words(self.sun_color)
            + vector_words(self.shaft_params)
            + vector_words(self.screen_size)
    }

    fn words(&self) -> (words: Vec<u32>)
        ensures
            words@ == self.word_list(),
    {
        let mut words: Vec<u32> = Vec::new();
        push_vector(&mut words, self.sun_screen);
        push_vector(&mut words, self.sun_color);
        push_vector(&mut words, self.shaft_params);
        push_vector(&mut words, self.screen_size);
        assert(words@ =~= self.word_list());
        words
    }
}

/// What the tables of the atmosphere are made from.
#[derive(Clone, Copy, Debug, PartialEq, Eq, Structural)]
pub struct AtmosphereParams {
    pub sun_direction: Vec4,
    pub rayleigh_mie: Vec4,
    pub screen_size: Vec4,
}

impl AtmosphereParams {
    /// The words of all fields, one after the other.
    pub open spec fn word_list(self) -> Seq<u32> {
        vector_words(self.sun_direction)
            + vector_words(self.rayleigh_mie)
            + vector_words(self.screen_size)
    }

    fn words(&self) -> (words: Vec<u32>)
        ensures
            words@ == self.word_list(),
    {
        let mut words: Vec<u32> = Vec::new();
        push_vector(&mut words, self.sun_direction);
        push_vector(&mut words, self.rayleigh_mie);
        push_vector(&mut words, self.screen_size);
        assert(words@ =~= self.word_list());
        words
    }
}

/// The camera's matrices, as screen-space effects read them.
#[derive(Clone, Copy, Debug, PartialEq, Eq, Structural)]
pub struct ScreenView {
    pub view: Mat4,
    pub inv_view: Mat4,
    pub projection: Mat4,
    pub inv_projection: Mat4,
}

/// A width and a height as numbers, and their reciprocals.
pub open spec fn size_vector(width: u32, height: u32) -> Vec4 {
    Vec4 {
        x: whole(width as nat),
        y: whole(height as nat),
        z: reciprocal(width as nat),
        w: reciprocal(height as nat),
    }
}

pub(crate) fn sizes(width: u32, height: u32) -> (v: Vec4)
    ensures
        v == size_vector(width, height),
{
    Vec4::new(
        Scalar::from_whole(width),
        Scalar::from_whole(height),
        Scalar::reciprocal_of_whole(width),
        Scalar::reciprocal_of_whole(height),
    )
}

fn zero_scalar() -> (s: Scalar)
    ensures
        s == zero(),
{
    Scalar::from_bits(0)
}

pub(crate) fn flag(set: bool) -> (s: Scalar)
    ensures
        s == flag_value(set),
{
    if set {
        Scalar::from_bits(0x3F80_0000)
    } else {
        Scalar::from_bits(0)
    }
}

/// One or zero.
pub open spec fn flag_value(set: bool) -> Scalar {
    if set {
        one()
    } else {
        zero()
    }
}

/// A vector and a fourth component.
pub open spec fn extended(v: Vec3, w: Scalar) -> Vec4 {
    Vec4 { x: v.x, y: v.y, z: v.z, w }
}

pub(crate) fn extend(v: Vec3, w: Scalar) -> (r: Vec4)
    ensures
        r == extended(v, w),
{
    Vec4::new(v.x, v.y, v.z, w)
}

/// Occlusion within half a unit, with a bias of 0.025 and an intensity of 1.5.
pub open spec fn ssao_uniforms(
    screen: ScreenView,
    width: u32,
    height: u32,
) -> AmbientOcclusionUniforms {
    AmbientOcclusionUniforms {
        projection: screen.projection,
        view: screen.view,
        inv_projection: screen.inv_projection,
        screen_size: size_vector(width, height),
        params: Vec4 {
            x: Scalar { bits: 0x3F00_0000 },
            y: Scalar { bits: 0x3CCC_CCCD },
            z: Scalar { bits: 0x3FC0_0000 },
            w: zero(),
        },
    }
}

impl SsaoPass {
    /// What the host writes before a frame.
    pub fn write_uniforms(
        &self,
        screen: &ScreenView,
        width: u32,
        height: u32,
    ) -> (upload: Upload)
        ensures
            upload.puts(
                Buffer::SsaoUniforms,
                0,
                ssao_uniforms(*screen, width, height).word_list(),
            ),
    {
        let uniforms = AmbientOcclusionUniforms {
            projection: screen.projection,
            view: screen.view,
            inv_projection: screen.inv_projection,
            screen_size: sizes(width, height),
            params: Vec4::new(
                Scalar::from_bits(0x3F00_0000),
                Scalar::from_bits(0x3CCC_CCCD),
                Scalar::from_bits(0x3FC0_0000),
                zero_scalar(),
            ),
        };
        let words = uniforms.words();
        words_to(Buffer::SsaoUniforms, words.as_slice())
    }
}

/// Occlusion as above, rotated by the number of the frame.
pub open spec fn gtao_uniforms(
    screen: ScreenView,
    width: u32,
    height: u32,
    frame_index: u32,
) -> AmbientOcclusionUniforms {
    AmbientOcclusionUniforms {
        projection: screen.projection,
        view: screen.view,
        inv_projection: screen.inv_projection,
        screen_size: size_vector(width, height),
        params: Vec4 {
            x: Scalar { bits: 0x3F00_0000 },
            y: Scalar { bits: 0x3CCC_CCCD },
            z: Scalar { bits: 0x3FC0_0000 },
            w: whole(frame_index as nat),
        },
    }
}

impl GtaoPass {
    /// What the host writes before a frame.
    pub fn write_uniforms(
        &self,
        screen: &ScreenView,
        width: u32,
        height: u32,
        frame_index: u32,
    ) -> (upload: Upload)
        ensures
            upload.puts(
                Buffer::GtaoUniforms,
                0,
                gtao_uniforms(*screen, width, height, frame_index).word_list(),
            ),
    {
        let uniforms = AmbientOcclusionUniforms {
            projection: screen.projection,
            view: screen.view,
            inv_projection: screen.inv_projection,
            screen_size: sizes(width, height),
            params: Vec4::new(
                Scalar::from_bits(0x3F00_0000),
                Scalar::from_bits(0x3CCC_CCCD),
                Scalar::from_bits(0x3FC0_0000),
                Scalar::from_whole(frame_index),
            ),
        };
        let words = uniforms.words();
        words_to(Buffer::GtaoUniforms, words.as_slice())
    }
}

/// Light gathered from up to two units away.
pub open spec fn ssgi_uniforms(
    screen: ScreenView,
    width: u32,
    height: u32,
    gi_intensity: Scalar,
    frame_index: u32,
) -> SsgiUniforms {
    SsgiUniforms {
        view: screen.view,
        inv_view: screen.inv_view,
        projection: screen.projection,
        inv_projection: screen.inv_projection,
        screen_size: size_vector(width, height),
        params: Vec4 {
            x: gi_intensity,
            y: Scalar { bits: 0x4000_0000 },
            z: whole(frame_index as nat),
            w: zero(),
        },
    }
}

impl SsgiPass {
    /// What the host writes before a frame.
    pub fn write_uniforms(
        &self,
        screen: &ScreenView,
        width: u32,
        height: u32,
        gi_intensity: Scalar,
        frame_index: u32,
    ) -> (upload: Upload)
        ensures
            upload.puts(
                Buffer::SsgiUniforms,
                0,
                ssgi_uniforms(*screen, width, height, gi_intensity, frame_index).word_list(),
            ),
    {
        let uniforms = SsgiUniforms {
            view: screen.view,
            inv_view: screen.inv_view,
            projection: screen.projection,
            inv_projection: screen.inv_projection,
            screen_size: sizes(width, height),
            params: Vec4::new(
                gi_intensity,
                Scalar::from_bits(0x4000_0000),
                Scalar::from_whole(frame_index),
                zero_scalar(),
            ),
        };
        let words = uniforms.words();
        words_to(Buffer::SsgiUniforms, words.as_slice())
    }
}

/// Rays of at most 50 units in 128 steps of two pixels, with a thickness of 0.15; not on surfaces
/// rougher than 0.95; fading between 0.1 and 0.02 from the edge of the screen.
pub open spec fn ssr_uniforms(
    screen: ScreenView,
    width: u32,
    height: u32,
    frame_index: u32,
) -> SsrUniforms {
    SsrUniforms {
        view: screen.view,
        inv_view: screen.inv_view,
        projection: screen.projection,
        inv_projection: screen.inv_projection,
        screen_size: size_vector(width, height),
        params: Vec4 {
            x: Scalar { bits: 0x4248_0000 },
            y: Scalar { bits: 0x3E19_999A },
            z: Scalar { bits: 0x4000_0000 },
            w: Scalar { bits: 0x4300_0000 },
        },
        params2: Vec4 {
            x: Scalar { bits: 0x3F73_3333 },
            y: Scalar { bits: 0x3DCC_CCCD },
            z: Scalar { bits: 0x3CA3_D70A },
            w: whole(frame_index as nat),
        },
    }
}

impl SsrPass {
    /// What the host writes before a frame.
    pub fn write_uniforms(
        &self,
        screen: &ScreenView,
        width: u32,
        height: u32,
        frame_index: u32,
    ) -> (upload: Upload)
        ensures
            upload.puts(
                Buffer::SsrUniforms,
                0,
                ssr_uniforms(*screen, width, height, frame_index).word_list(),
            ),
    {
        let uniforms = SsrUniforms {
            view: screen.view,
            inv_view: screen.inv_view,
            projection: screen.projection,
            inv_projection: screen.inv_projection,
            screen_size: sizes(width, height),
            params: Vec4::new(
                Scalar::from_bits(0x4248_0000),
                Scalar::from_bits(0x3E19_999A),
                Scalar::from_bits(0x4000_0000),
                Scalar::from_bits(0x4300_0000),
            ),
            params2: Vec4::new(
                Scalar::from_bits(0x3F73_3333),
                Scalar::from_bits(0x3DCC_CCCD),
                Scalar::from_bits(0x3CA3_D70A),
                Scalar::from_whole(frame_index),
            ),
        };
        let words = uniforms.words();
        words_to(Buffer::SsrUniforms, words.as_slice())
    }
}

/// Blur of at most 20 pixels, over tiles of 20 pixels.
pub open spec fn motion_blur_uniforms(pass: MotionBlurPass) -> MotionBlurUniforms {
    MotionBlurUniforms {
        screen_size: size_vector(pass.width, pass.height),
        params: Vec4 {
            x: Scalar { bits: 0x41A0_0000 },
            y: Scalar { bits: 0x41A0_0000 },
            z: zero(),
            w: zero(),
        },
    }
}

impl MotionBlurPass {
    /// What the host writes before a frame.
    pub fn write_uniforms(&self) -> (upload: Upload)
        ensures
            upload.puts(Buffer::MotionBlurUniforms, 0, motion_blur_uniforms(*self).word_list()),
    {
        let uniforms = MotionBlurUniforms {
            screen_size: sizes(self.width, self.height),
            params: Vec4::new(
                Scalar::from_bits(0x41A0_0000),
                Scalar::from_bits(0x41A0_0000),
                zero_scalar(),
                zero_scalar(),
            ),
        };
        let words = uniforms.words();
        words_to(Buffer::MotionBlurUniforms, words.as_slice())
    }
}

/// A tenth of the new frame is blended in; all of it while there is no history.
pub open spec fn taa_uniforms(
    pass: TaaUniformInputs,
    inv_view_proj: Mat4,
    jitter: Vec2,
) -> TaaUniforms {
    TaaUniforms {
        inv_view_proj,
        prev_view_proj: pass.prev_view_proj,
        screen_size: size_vector(pass.width, pass.height),
        jitter: Vec4 {
            x: jitter.x,
            y: jitter.y,
            z: pass.prev_jitter.x,
            w: pass.prev_jitter.y,
        },
        params: Vec4 {
            x: Scalar { bits: 0x3DCC_CCCD },
            y: flag_value(pass.first_frame),
            z: zero(),
            w: zero(),
        },
    }
}

impl TaaUniformInputs {
    /// What the host writes before a frame.
    pub fn upload(&self, inv_view_proj: Mat4, jitter: Vec2) -> (upload: Upload)
        ensures
            upload.puts(
                Buffer::TaaUniforms,
                0,
                taa_uniforms(*self, inv_view_proj, jitter).word_list(),
            ),
    {
        let uniforms = TaaUniforms {
            inv_view_proj,
            prev_view_proj: self.prev_view_proj,
            screen_size: sizes(self.width, self.height),
            jitter: Vec4::new(jitter.x, jitter.y, self.prev_jitter.x, self.prev_jitter.y),
            params: Vec4::new(
                Scalar::from_bits(0x3DCC_CCCD),
                flag(self.first_frame),
                zero_scalar(),
                zero_scalar(),
            ),
        };
        let words = uniforms.words();
        words_to(Buffer::TaaUniforms, words.as_slice())
    }
}

/// What the host computes for clouds: the camera, and a placeholder for the sky's light.
#[derive(Clone, Copy, Debug, PartialEq, Eq, Structural)]
pub struct CloudHostValues {
    pub inv_view_proj: Mat4,
    pub camera_position: Vec3,
    pub sky_ambient: Vec3,
    pub elapsed_secs: Scalar,
}

/// Clouds under the light, the wind and the profile of the scene.
pub open spec fn cloud_uniforms(
    pass: CloudUniformInputs,
    host: CloudHostValues,
    settings: SceneSettings,
) -> CloudUniforms {
    CloudUniforms {
        inv_view_proj: host.inv_view_proj,
        prev_view_proj: pass.prev_view_proj,
        camera_position: extended(host.camera_position, one()),
        sun_direction: extended(settings.sun_direction, zero()),
        sun_color: extended(settings.sun_color, settings.sun_strength),
        sky_ambient: extended(host.sky_ambient, whole(pass.resolution_divisor as nat)),
        cloud_params: Vec4 {
            x: settings.cloud_coverage,
            y: flag_value(pass.first_frame),
            z: host.elapsed_secs,
            w: whole(pass.frame_index as nat),
        },
        screen_params: size_vector(pass.width, pass.height),
        cloud_profile: Vec4 {
            x: settings.cloud_profile.density_scale,
            y: settings.cloud_profile.cloud_base_km,
            z: settings.cloud_profile.cloud_top_km,
            w: settings.cloud_profile.detail_erosion,
        },
        cloud_profile2: Vec4 {
            x: settings.cloud_profile.wind_speed,
            y: whole(settings.cloud_profile.march_steps as nat),
            z: whole(settings.cloud_profile.light_steps as nat),
            w: settings.cloud_profile.temporal_blend,
        },
        prev_time: Vec4 { x: pass.prev_elapsed, y: zero(), z: zero(), w: zero() },
    }
}

impl CloudUniformInputs {
    /// What the host writes before a frame.
    pub fn upload(
        &self,
        host: &CloudHostValues,
        settings: &SceneSettings,
    ) -> (upload: Upload)
        ensures
            upload.puts(
                Buffer::CloudUniforms,
                0,
                cloud_uniforms(*self, *host, *settings).word_list(),
            ),
    {
        let uniforms = CloudUniforms {
            inv_view_proj: host.inv_view_proj,
            prev_view_proj: self.prev_view_proj,
            camera_position: extend(host.camera_position, Scalar::from_bits(0x3F80_0000)),
            sun_direction: extend(settings.sun_direction, zero_scalar()),
            sun_color: extend(settings.sun_color, settings.sun_strength),
            sky_ambient: extend(host.sky_ambient, Scalar::from_whole(self.resolution_divisor)),
            cloud_params: Vec4::new(
                settings.cloud_coverage,
                flag(self.first_frame),
                host.elapsed_secs,
                Scalar::from_whole(self.frame_index),
            ),
            screen_params: sizes(self.width, self.height),
            cloud_profile: Vec4::new(
                settings.cloud_profile.density_scale,
                settings.cloud_profile.cloud_base_km,
                settings.cloud_profile.cloud_top_km,
                settings.cloud_profile.detail_erosion,
            ),
            cloud_profile2: Vec4::new(
                settings.cloud_profile.wind_speed,
                Scalar::from_whole(settings.cloud_profile.march_steps),
                Scalar::from_whole(settings.cloud_profile.light_steps),
                settings.cloud_profile.temporal_blend,
            ),
            prev_time: Vec4::new(self.prev_elapsed, zero_scalar(), zero_scalar(), zero_scalar()),
        };
        let words = uniforms.words();
        words_to(Buffer::CloudUniforms, words.as_slice())
    }
}

/// What the host computes for fog.
#[derive(Clone, Copy, Debug)]
pub struct FogHostValues {
    pub view_proj: Mat4,
    pub inv_view_proj: Mat4,
    pub camera_position: Vec3,
    pub ambient_color: Vec3,
    pub near_plane: Scalar,
    pub far_plane: Scalar,
    pub cascades: CascadeSet,
}

/// The weight of the frame before: 0.85, or nothing where there is none.
pub open spec fn fog_weight(temporal: bool) -> Scalar {
    if temporal {
        Scalar { bits: 0x3F59_999A }
    } else {
        zero()
    }
}

fn weight(temporal: bool) -> (s: Scalar)
    ensures
        s == fog_weight(temporal),
{
    if temporal {
        Scalar::from_bits(0x3F59_999A)
    } else {
        Scalar::from_bits(0)
    }
}

/// Fog in the light of the scene, over the grid of froxels.
pub open spec fn fog_inject_uniforms(
    pass: FogUniformInputs,
    host: FogHostValues,
    settings: SceneSettings,
) -> FogInjectUniforms {
    FogInjectUniforms {
        inv_view_proj: host.inv_view_proj,
        prev_inv_view_proj: pass.prev_inv_view_proj,
        camera_position: extended(host.camera_position, one()),
        sun_direction: extended(settings.sun_direction, zero()),
        sun_color: extended(settings.sun_color, settings.sun_strength),
        fog_params: Vec4 {
            x: settings.fog_volume_density,
            y: settings.fog_height_falloff,
            z: settings.fog_volume_anisotropy,
            w: fog_weight(pass.temporal),
        },
        fog_albedo: extended(settings.fog_volume_albedo, host.near_plane),
        grid_params: Vec4 {
            x: Scalar { bits: 0x4320_0000 },
            y: Scalar { bits: 0x42B0_0000 },
            z: Scalar { bits: 0x4300_0000 },
            w: host.far_plane,
        },
        ambient_color: extended(host.ambient_color, whole(pass.frame_index as nat)),
        light_vp: host.cascades.light_vps@[0],
        light_vp_1: host.cascades.light_vps@[1],
        light_vp_2: host.cascades.light_vps@[2],
        light_vp_3: host.cascades.light_vps@[3],
        cascade_splits: Vec4 {
            x: host.cascades.splits@[0],
            y: host.cascades.splits@[1],
            z: host.cascades.splits@[2],
            w: host.cascades.splits@[3],
        },
        view_proj: host.view_proj,
    }
}

impl FogUniformInputs {
    /// What the host writes before light is injected.
    pub fn inject_upload(
        &self,
        host: &FogHostValues,
        settings: &SceneSettings,
    ) -> (upload: Upload)
        ensures
            upload.puts(
                Buffer::FogInjectUniforms,
                0,
                fog_inject_uniforms(*self, *host, *settings).word_list(),
            ),
    {
        let uniforms = FogInjectUniforms {
            inv_view_proj: host.inv_view_proj,
            prev_inv_view_proj: self.prev_inv_view_proj,
            camera_position: extend(host.camera_position, Scalar::from_bits(0x3F80_0000)),
            sun_direction: extend(settings.sun_direction, zero_scalar()),
            sun_color: extend(settings.sun_color, settings.sun_strength),
            fog_params: Vec4::new(
                settings.fog_volume_density,
                settings.fog_height_falloff,
                settings.fog_volume_anisotropy,
                weight(self.temporal),
            ),
            fog_albedo: extend(settings.fog_volume_albedo, host.near_plane),
            grid_params: Vec4::new(
                Scalar::from_bits(0x4320_0000),
                Scalar::from_bits(0x42B0_0000),
                Scalar::from_bits(0x4300_0000),
                host.far_plane,
            ),
            ambient_color: extend(host.ambient_color, Scalar::from_whole(self.frame_index)),
            light_vp: host.cascades.light_vps[0],
            light_vp_1: host.cascades.light_vps[1],
            light_vp_2: host.cascades.light_vps[2],
            light_vp_3: host.cascades.light_vps[3],
            cascade_splits: Vec4::new(
                host.cascades.splits[0],
                host.cascades.splits[1],
                host.cascades.splits[2],
                host.cascades.splits[3],
            ),
            view_proj: host.view_proj,
        };
        let words = uniforms.words();
        words_to(Buffer::FogInjectUniforms, words.as_slice())
    }
}

/// The grid and the near plane.
pub open spec fn fog_grid_uniforms(host: FogHostValues) -> FogGridUniforms {
    FogGridUniforms {
        grid_params: Vec4 {
            x: Scalar { bits: 0x4320_0000 },
            y: Scalar { bits: 0x42B0_0000 },
            z: Scalar { bits: 0x4300_0000 },
            w: host.far_plane,
        },
        near_plane: Vec4 { x: host.near_plane, y: zero(), z: zero(), w: zero() },
    }
}

impl FogUniformInputs {
    /// What the host writes before fog is integrated.
    pub fn integrate_upload(&self, host: &FogHostValues) -> (upload: Upload)
        ensures
            upload.puts(Buffer::FogIntegrateUniforms, 0, fog_grid_uniforms(*host).word_list()),
    {
        let uniforms = FogGridUniforms {
            grid_params: Vec4::new(
                Scalar::from_bits(0x4320_0000),
                Scalar::from_bits(0x42B0_0000),
                Scalar::from_bits(0x4300_0000),
                host.far_plane,
            ),
            near_plane: Vec4::new(host.near_plane, zero_scalar(), zero_scalar(), zero_scalar()),
        };
        let words = uniforms.words();
        words_to(Buffer::FogIntegrateUniforms, words.as_slice())
    }
}

impl FogUniformInputs {
    /// What the host writes before fog is composited.
    pub fn composite_upload(&self, host: &FogHostValues) -> (upload: Upload)
        ensures
            upload.puts(Buffer::FogCompositeUniforms, 0, fog_grid_uniforms(*host).word_list()),
    {
        let uniforms = FogGridUniforms {
            grid_params: Vec4::new(
                Scalar::from_bits(0x4320_0000),
                Scalar::from_bits(0x42B0_0000),
                Scalar::from_bits(0x4300_0000),
                host.far_plane,
            ),
            near_plane: Vec4::new(host.near_plane, zero_scalar(), zero_scalar(), zero_scalar()),
        };
        let words = uniforms.words();
        words_to(Buffer::FogCompositeUniforms, words.as_slice())
    }
}

/// Where the sun is on the screen: its position, and how much of its light faces the camera, which is
/// nothing where it is off the screen.
#[derive(Clone, Copy, Debug, PartialEq, Eq, Structural)]
pub struct SunOnScreen {
    pub position: Vec2,
    pub strength: Scalar,
}

/// Shafts with the decay and the haze of the scene.
pub open spec fn sun_shaft_uniforms(
    sun: SunOnScreen,
    settings: SceneSettings,
    width: u32,
    height: u32,
) -> SunShaftUniforms {
    SunShaftUniforms {
        sun_screen: Vec4 {
            x: sun.position.x,
            y: sun.position.y,
            z: sun.strength,
            w: settings.horizon_haze,
        },
        sun_color: extended(settings.sun_color, settings.sun_strength),
        shaft_params: Vec4 {
            x: settings.shaft_intensity,
            y: settings.shaft_decay,
            z: Scalar { bits: 0x3F6B_851F },
            w: settings.horizon_haze,
        },
        screen_size: Vec4 { x: whole(width as nat), y: whole(height as nat), z: zero(), w: zero() },
    }
}

impl SunShaftPass {
    /// What the host writes before a frame.
    pub fn write_uniforms(
        &self,
        sun: &SunOnScreen,
        settings: &SceneSettings,
        width: u32,
        height: u32,
    ) -> (upload: Upload)
        ensures
            upload.puts(
                Buffer::SunShaftUniforms,
                0,
                sun_shaft_uniforms(*sun, *settings, width, height).word_list(),
            ),
    {
        let uniforms = SunShaftUniforms {
            sun_screen: Vec4::new(
                sun.position.x,
                sun.position.y,
                sun.strength,
                settings.horizon_haze,
            ),
            sun_color: extend(settings.sun_color, settings.sun_strength),
            shaft_params: Vec4::new(
                settings.shaft_intensity,
                settings.shaft_decay,
                Scalar::from_bits(0x3F6B_851F),
                settings.horizon_haze,
            ),
            screen_size: Vec4::new(
                Scalar::from_whole(width),
                Scalar::from_whole(height),
                zero_scalar(),
                zero_scalar(),
            ),
        };
        let words = uniforms.words();
        words_to(Buffer::SunShaftUniforms, words.as_slice())
    }
}

/// The cached parameters.
pub open spec fn atmosphere_params(pass: SkyLutPass) -> AtmosphereParams {
    AtmosphereParams {
        sun_direction: extended(pass.cached.sun_direction, zero()),
        rayleigh_mie: Vec4 {
            x: pass.cached.rayleigh_strength,
            y: pass.cached.mie_strength,
            z: pass.cached.mie_anisotropy,
            w: zero(),
        },
        screen_size: Vec4 { x: zero(), y: zero(), z: zero(), w: zero() },
    }
}

impl SkyLutPass {
    /// What the host writes before the tables are made.
    pub fn write_uniforms(&self) -> (upload: Upload)
        ensures
            upload.puts(Buffer::SkyLutUniforms, 0, atmosphere_params(*self).word_list()),
    {
        let uniforms = AtmosphereParams {
            sun_direction: extend(self.cached.sun_direction, zero_scalar()),
            rayleigh_mie: Vec4::new(
                self.cached.rayleigh_strength,
                self.cached.mie_strength,
                self.cached.mie_anisotropy,
                zero_scalar(),
            ),
            screen_size: Vec4::new(zero_scalar(), zero_scalar(), zero_scalar(), zero_scalar()),
        };
        let words = uniforms.words();
        words_to(Buffer::SkyLutUniforms, words.as_slice())
    }
}

/// What bloom reads in one slot: the sizes of the screen and of the level, a threshold of 0.5, an
/// intensity of 0.35, and the art direction's softness and tint.
pub open spec fn bloom_words(slot: BloomUniformWrite, tint: Vec3, softness: Scalar) -> Seq<u32> {
    vector_words(
        Vec4 {
            x: whole(slot.full_width as nat),
            y: whole(slot.full_height as nat),
            z: whole(slot.level_width as nat),
            w: whole(slot.level_height as nat),
        },
    ) + vector_words(
        Vec4 {
            x: Scalar { bits: 0x3F00_0000 },
            y: Scalar { bits: 0x3EB3_3333 },
            z: softness,
            w: zero(),
        },
    ) + vector_words(extended(tint, zero()))
}

impl BloomUniformWrite {
    /// What the host writes into the slot.
    pub fn upload(&self, tint: Vec3, softness: Scalar) -> (upload: Upload)
        ensures
            upload.puts(Buffer::BloomUniforms, self.offset, bloom_words(*self, tint, softness)),
    {
        let z = Scalar::from_bits(0);
        let mut words: Vec<u32> = Vec::new();
        push_vector(
            &mut words,
            Vec4::new(
                Scalar::from_whole(self.full_width),
                Scalar::from_whole(self.full_height),
                Scalar::from_whole(self.level_width),
                Scalar::from_whole(self.level_height),
            ),
        );
        push_vector(
            &mut words,
            Vec4::new(Scalar::from_bits(0x3F00_0000), Scalar::from_bits(0x3EB3_3333), softness, z),
        );
        push_vector(&mut words, extend(tint, z));
        assert(words@ =~= bloom_words(*self, tint, softness));
        words_at(Buffer::BloomUniforms, self.offset, words.as_slice())
    }
}

/// The uniforms of one face of the environment map, word by word.
pub open spec fn prefilter_words(
    at: PrefilterStep,
    sun: Vec3,
    settings: SceneSettings,
) -> Seq<u32> {
    seq![at.face, at.mip_level, at.face_size, at.max_mip] + vector_words(extended(sun, zero()))
        + vector_words(extended(settings.sun_color, settings.sun_strength)) + vector_words(
        extended(settings.fog_color, one()),
    ) + vector_words(extended(settings.sky_zenith, one())) + vector_words(
        extended(settings.sky_horizon, one()),
    ) + vector_words(
        Vec4 {
            x: settings.rayleigh_strength,
            y: settings.mie_strength,
            z: settings.mie_anisotropy,
            w: settings.cloud_coverage,
        },
    )
}

impl PrefilterStep {
    /// What the host writes into the slot of a face before the face is rendered. `sun` is the
    /// direction of the sun, of length one.
    pub fn upload(&self, sun: Vec3, settings: &SceneSettings) -> (upload: Upload)
        ensures
            upload.puts(
                Buffer::PrefilterUniforms,
                prefilter_offset(*self),
                prefilter_words(*self, sun, *settings),
            ),
    {
        let o = Scalar::from_bits(0x3F80_0000);
        let mut words: Vec<u32> = vec![self.face, self.mip_level, self.face_size, self.max_mip];
        push_vector(&mut words, extend(sun, Scalar::from_bits(0)));
        push_vector(&mut words, extend(settings.sun_color, settings.sun_strength));
        push_vector(&mut words, extend(settings.fog_color, o));
        push_vector(&mut words, extend(settings.sky_zenith, o));
        push_vector(&mut words, extend(settings.sky_horizon, o));
        push_vector(
            &mut words,
            Vec4::new(
                settings.rayleigh_strength,
                settings.mie_strength,
                settings.mie_anisotropy,
                settings.cloud_coverage,
            ),
        );
        assert(words@ =~= prefilter_words(*self, sun, *settings));
        words_at(Buffer::PrefilterUniforms, self.uniform_offset(), words.as_slice())
    }
}

/// Every pass's uniforms fill its buffer exactly, or the slot that its command binds.
pub proof fn uniforms_fill_their_buffers(
    ao: AmbientOcclusionUniforms,
    ssgi: SsgiUniforms,
    ssr: SsrUniforms,
    blur: MotionBlurUniforms,
    taa: TaaUniforms,
    cloud: CloudUniforms,
    inject: FogInjectUniforms,
    grid: FogGridUniforms,
    shaft: SunShaftUniforms,
    sky: AtmosphereParams,
    at: PrefilterStep,
    sun: Vec3,
    settings: SceneSettings,
    slot: BloomUniformWrite,
    softness: Scalar,
)
    ensures
        4 * bloom_words(slot, sun, softness).len() == BLOOM_UNIFORM_SIZE,
        4 * ao.word_list().len() == SSAO_UNIFORM_SIZE,
        4 * ao.word_list().len() == GTAO_UNIFORM_SIZE,
        4 * ssgi.word_list().len() == SSGI_UNIFORM_SIZE,
        4 * ssr.word_list().len() == SSR_UNIFORM_SIZE,
        4 * blur.word_list().len() == MOTION_BLUR_UNIFORM_SIZE,
        4 * taa.word_list().len() == TAA_UNIFORM_SIZE,
        4 * cloud.word_list().len() == CLOUD_UNIFORM_SIZE,
        4 * inject.word_list().len() == FOG_INJECT_UNIFORM_SIZE,
        4 * grid.word_list().len() == FOG_GRID_UNIFORM_SIZE,
        4 * shaft.word_list().len() == SUN_SHAFT_UNIFORM_SIZE,
        4 * sky.word_list().len() == SKY_LUT_UNIFORM_SIZE,
        4 * prefilter_words(at, sun, settings).len() == PREFILTER_UNIFORM_SIZE,
{
}

/// What ambient occlusion reads: the camera, the size of the screen, a radius of a half, a bias of
/// 0.025, an intensity of 1.5.
#[verifier::rlimit(40)]
pub proof fn ssao_reads(
    screen: ScreenView,
    width: u32,
    height: u32,
)
    ensures
        ({
            let w = ssao_uniforms(screen, width, height).word_list();
            &&& matrix_at(w, 0, screen.projection)
            &&& matrix_at(w, 16, screen.view)
            &&& matrix_at(w, 32, screen.inv_projection)
            &&& words_are(
                w,
                48,
                whole(width as nat).bits,
                whole(height as nat).bits,
                reciprocal(width as nat).bits,
                reciprocal(height as nat).bits,
            )
            &&& words_are(w, 52, 0x3F00_0000, 0x3CCC_CCCD, 0x3FC0_0000, 0)
            &&& w.len() == 56
        }),
{
}

/// What horizon-based occlusion reads: the same, and the number of the frame.
#[verifier::rlimit(40)]
pub proof fn gtao_reads(
    screen: ScreenView,
    width: u32,
    height: u32,
    frame_index: u32,
)
    ensures
        ({
            let w = gtao_uniforms(screen, width, height, frame_index).word_list();
            &&& matrix_at(w, 0, screen.projection)
            &&& matrix_at(w, 16, screen.view)
            &&& matrix_at(w, 32, screen.inv_projection)
            &&& words_are(
                w,
                48,
                whole(width as nat).bits,
                whole(height as nat).bits,
                reciprocal(width as nat).bits,
                reciprocal(height as nat).bits,
            )
            &&& words_are(
                w,
                52,
                0x3F00_0000,
                0x3CCC_CCCD,
                0x3FC0_0000,
                whole(frame_index as nat).bits,
            )
            &&& w.len() == 56
        }),
{
}

/// What global illumination reads: the camera, the size of the screen, the intensity, a radius of two,
/// the number of the frame.
#[verifier::rlimit(40)]
pub proof fn ssgi_reads(
    screen: ScreenView,
    width: u32,
    height: u32,
    gi_intensity: Scalar,
    frame_index: u32,
)
    ensures
        ({
            let w = ssgi_uniforms(screen, width, height, gi_intensity, frame_index).word_list();
            &&& matrix_at(w, 0, screen.view)
            &&& matrix_at(w, 16, screen.inv_view)
            &&& matrix_at(w, 32, screen.projection)
            &&& matrix_at(w, 48, screen.inv_projection)
            &&& words_are(
                w,
                64,
                whole(width as nat).bits,
                whole(height as nat).bits,
                reciprocal(width as nat).bits,
                reciprocal(height as nat).bits,
            )
            &&& words_are(w, 68, gi_intensity.bits, 0x4000_0000, whole(frame_index as nat).bits, 0)
            &&& w.len() == 72
        }),
{
}

/// What reflections read: the camera, the size of the screen, 50 units, a thickness of 0.15, two pixels,
/// 128 steps, a roughness of 0.95, fades at 0.1 and 0.02, the number of the frame.
#[verifier::rlimit(40)]
pub proof fn ssr_reads(
    screen: ScreenView,
    width: u32,
    height: u32,
    frame_index: u32,
)
    ensures
        ({
            let w = ssr_uniforms(screen, width, height, frame_index).word_list();
            &&& matrix_at(w, 0, screen.view)
            &&& matrix_at(w, 16, screen.inv_view)
            &&& matrix_at(w, 32, screen.projection)
            &&& matrix_at(w, 48, screen.inv_projection)
            &&& words_are(
                w,
                64,
                whole(width as nat).bits,
                whole(height as nat).bits,
                reciprocal(width as nat).bits,
                reciprocal(height as nat).bits,
            )
            &&& words_are(w, 68, 0x4248_0000, 0x3E19_999A, 0x4000_0000, 0x4300_0000)
            &&& words_are(
                w,
                72,
                0x3F73_3333,
                0x3DCC_CCCD,
                0x3CA3_D70A,
                whole(frame_index as nat).bits,
            )
            &&& w.len() == 76
        }),
{
}

/// What motion blur reads: the size of the screen, 20 pixels, tiles of 20 pixels.
#[verifier::rlimit(40)]
pub proof fn motion_blur_reads(
    pass: MotionBlurPass,
)
    ensures
        ({
            let w = motion_blur_uniforms(pass).word_list();
            &&& words_are(
                w,
                0,
                whole(pass.width as nat).bits,
                whole(pass.height as nat).bits,
                reciprocal(pass.width as nat).bits,
                reciprocal(pass.height as nat).bits,
            )
            &&& words_are(w, 4, 0x41A0_0000, 0x41A0_0000, 0, 0)
            &&& w.len() == 8
        }),
{
}

/// What temporal anti-aliasing reads: the camera now and before, the size of the screen, the jitter now
/// and before, a tenth, and whether there is no history.
#[verifier::rlimit(40)]
pub proof fn taa_reads(
    pass: TaaUniformInputs,
    inv_view_proj: Mat4,
    jitter: Vec2,
)
    ensures
        ({
            let w = taa_uniforms(pass, inv_view_proj, jitter).word_list();
            &&& matrix_at(w, 0, inv_view_proj)
            &&& matrix_at(w, 16, pass.prev_view_proj)
            &&& words_are(
                w,
                32,
                whole(pass.width as nat).bits,
                whole(pass.height as nat).bits,
                reciprocal(pass.width as nat).bits,
                reciprocal(pass.height as nat).bits,
            )
            &&& words_are(
                w,
                36,
                jitter.x.bits,
                jitter.y.bits,
                pass.prev_jitter.x.bits,
                pass.prev_jitter.y.bits,
            )
            &&& words_are(w, 40, 0x3DCC_CCCD, if pass.first_frame {
                    0x3F80_0000u32
                } else {
                    0
                }, 0, 0)
            &&& w.len() == 44
        }),
{
}

/// What clouds read: the camera now and before, the sun, the light of the sky, the coverage, whether
/// there is no history, the time now and before, the number of the frame, their size, and the profile.
#[verifier::rlimit(40)]
pub proof fn clouds_read(
    pass: CloudUniformInputs,
    host: CloudHostValues,
    settings: SceneSettings,
)
    ensures
        ({
            let w = cloud_uniforms(pass, host, settings).word_list();
            &&& matrix_at(w, 0, host.inv_view_proj)
            &&& matrix_at(w, 16, pass.prev_view_proj)
            &&& words_are(
                w,
                32,
                host.camera_position.x.bits,
                host.camera_position.y.bits,
                host.camera_position.z.bits,
                0x3F80_0000,
            )
            &&& words_are(
                w,
                36,
                settings.sun_direction.x.bits,
                settings.sun_direction.y.bits,
                settings.sun_direction.z.bits,
                0,
            )
            &&& words_are(
                w,
                40,
                settings.sun_color.x.bits,
                settings.sun_color.y.bits,
                settings.sun_color.z.bits,
                settings.sun_strength.bits,
            )
            &&& words_are(
                w,
                44,
                host.sky_ambient.x.bits,
                host.sky_ambient.y.bits,
                host.sky_ambient.z.bits,
                whole(pass.resolution_divisor as nat).bits,
            )
            &&& words_are(w, 48, settings.cloud_coverage.bits, if pass.first_frame {
                    0x3F80_0000u32
                } else {
                    0
                }, host.elapsed_secs.bits, whole(pass.frame_index as nat).bits)
            &&& words_are(
                w,
                52,
                whole(pass.width as nat).bits,
                whole(pass.height as nat).bits,
                reciprocal(pass.width as nat).bits,
                reciprocal(pass.height as nat).bits,
            )
            &&& words_are(
                w,
                56,
                settings.cloud_profile.density_scale.bits,
                settings.cloud_profile.cloud_base_km.bits,
                settings.cloud_profile.cloud_top_km.bits,
                settings.cloud_profile.detail_erosion.bits,
            )
            &&& words_are(
                w,
                60,
                settings.cloud_profile.wind_speed.bits,
                whole(settings.cloud_profile.march_steps as nat).bits,
                whole(settings.cloud_profile.light_steps as nat).bits,
                settings.cloud_profile.temporal_blend.bits,
            )
            &&& words_are(w, 64, pass.prev_elapsed.bits, 0, 0, 0)
            &&& w.len() == 68
        }),
{
}

/// What the injection of light into fog reads: the camera now and before, the sun, the fog with 0.85 of
/// the frame before or nothing, the planes, the grid of 160 by 88 by 128, the ambient light, the number
/// of the frame, and the cascades.
#[verifier::rlimit(40)]
pub proof fn fog_injection_reads(
    pass: FogUniformInputs,
    host: FogHostValues,
    settings: SceneSettings,
)
    ensures
        ({
            let w = fog_inject_uniforms(pass, host, settings).word_list();
            &&& matrix_at(w, 0, host.inv_view_proj)
            &&& matrix_at(w, 16, pass.prev_inv_view_proj)
            &&& words_are(
                w,
                32,
                host.camera_position.x.bits,
                host.camera_position.y.bits,
                host.camera_position.z.bits,
                0x3F80_0000,
            )
            &&& words_are(
                w,
                36,
                settings.sun_direction.x.bits,
                settings.sun_direction.y.bits,
                settings.sun_direction.z.bits,
                0,
            )
            &&& words_are(
                w,
                40,
                settings.sun_color.x.bits,
                settings.sun_color.y.bits,
                settings.sun_color.z.bits,
                settings.sun_strength.bits,
            )
            &&& words_are(w, 44, settings.fog_volume_density.bits, settings.fog_height_falloff.bits, settings.fog_volume_anisotropy.bits, if pass.temporal {
                    0x3F59_999Au32
                } else {
                    0
                })
            &&& words_are(
                w,
                48,
                settings.fog_volume_albedo.x.bits,
                settings.fog_volume_albedo.y.bits,
                settings.fog_volume_albedo.z.bits,
                host.near_plane.bits,
            )
            &&& words_are(w, 52, 0x4320_0000, 0x42B0_0000, 0x4300_0000, host.far_plane.bits)
            &&& words_are(
                w,
                56,
                host.ambient_color.x.bits,
                host.ambient_color.y.bits,
                host.ambient_color.z.bits,
                whole(pass.frame_index as nat).bits,
            )
            &&& matrix_at(w, 60, host.cascades.light_vps@[0])
            &&& matrix_at(w, 76, host.cascades.light_vps@[1])
            &&& matrix_at(w, 92, host.cascades.light_vps@[2])
            &&& matrix_at(w, 108, host.cascades.light_vps@[3])
            &&& words_are(
                w,
                124,
                host.cascades.splits@[0].bits,
                host.cascades.splits@[1].bits,
                host.cascades.splits@[2].bits,
                host.cascades.splits@[3].bits,
            )
            &&& matrix_at(w, 128, host.view_proj)
            &&& w.len() == 144
        }),
{
}

/// What the integration and the compositing of fog read: the grid of 160 by 88 by 128, and the planes.
#[verifier::rlimit(40)]
pub proof fn fog_grid_reads(
    host: FogHostValues,
)
    ensures
        ({
            let w = fog_grid_uniforms(host).word_list();
            &&& words_are(w, 0, 0x4320_0000, 0x42B0_0000, 0x4300_0000, host.far_plane.bits)
            &&& words_are(w, 4, host.near_plane.bits, 0, 0, 0)
            &&& w.len() == 8
        }),
{
}

/// What shafts of sunlight read: where the sun stands and how strongly it shines, its colour, the
/// intensity, the decay, a weight of 0.92, the haze, and the size of the screen.
#[verifier::rlimit(40)]
pub proof fn sun_shafts_read(
    sun: SunOnScreen,
    settings: SceneSettings,
    width: u32,
    height: u32,
)
    ensures
        ({
            let w = sun_shaft_uniforms(sun, settings, width, height).word_list();
            &&& words_are(
                w,
                0,
                sun.position.x.bits,
                sun.position.y.bits,
                sun.strength.bits,
                settings.horizon_haze.bits,
            )
            &&& words_are(
                w,
                4,
                settings.sun_color.x.bits,
                settings.sun_color.y.bits,
                settings.sun_color.z.bits,
                settings.sun_strength.bits,
            )
            &&& words_are(
                w,
                8,
                settings.shaft_intensity.bits,
                settings.shaft_decay.bits,
                0x3F6B_851F,
                settings.horizon_haze.bits,
            )
            &&& words_are(w, 12, whole(width as nat).bits, whole(height as nat).bits, 0, 0)
            &&& w.len() == 16
        }),
{
}

/// What the tables of the atmosphere are made from: the sun, and the strengths of scattering.
#[verifier::rlimit(40)]
pub proof fn sky_tables_read(
    pass: SkyLutPass,
)
    ensures
        ({
            let w = atmosphere_params(pass).word_list();
            &&& words_are(
                w,
                0,
                pass.cached.sun_direction.x.bits,
                pass.cached.sun_direction.y.bits,
                pass.cached.sun_direction.z.bits,
                0,
            )
            &&& words_are(
                w,
                4,
                pass.cached.rayleigh_strength.bits,
                pass.cached.mie_strength.bits,
                pass.cached.mie_anisotropy.bits,
                0,
            )
            &&& words_are(w, 8, 0, 0, 0, 0)
            &&& w.len() == 12
        }),
{
}

/// What bloom reads in a slot: the sizes of the screen and of the level, a threshold of a half, an
/// intensity of 0.35, the softness, and the tint.
#[verifier::rlimit(40)]
pub proof fn bloom_reads(
    slot: BloomUniformWrite,
    tint: Vec3,
    softness: Scalar,
)
    ensures
        ({
            let w = bloom_words(slot, tint, softness);
            &&& words_are(
                w,
                0,
                whole(slot.full_width as nat).bits,
                whole(slot.full_height as nat).bits,
                whole(slot.level_width as nat).bits,
                whole(slot.level_height as nat).bits,
            )
            &&& words_are(w, 4, 0x3F00_0000, 0x3EB3_3333, softness.bits, 0)
            &&& words_are(w, 8, tint.x.bits, tint.y.bits, tint.z.bits, 0)
            &&& w.len() == 12
        }),
{
}

/// What a face of the environment map reads: which face of which level it is, its size, the last level,
/// the sun, fog, sky and atmosphere.
#[verifier::rlimit(40)]
pub proof fn environment_faces_read(
    at: PrefilterStep,
    sun: Vec3,
    settings: SceneSettings,
)
    ensures
        ({
            let w = prefilter_words(at, sun, settings);
            &&& words_are(w, 0, at.face, at.mip_level, at.face_size, at.max_mip)
            &&& words_are(w, 4, sun.x.bits, sun.y.bits, sun.z.bits, 0)
            &&& words_are(
                w,
                8,
                settings.sun_color.x.bits,
                settings.sun_color.y.bits,
                settings.sun_color.z.bits,
                settings.sun_strength.bits,
            )
            &&& words_are(
                w,
                12,
                settings.fog_color.x.bits,
                settings.fog_color.y.bits,
                settings.fog_color.z.bits,
                0x3F80_0000,
            )
            &&& words_are(
                w,
                16,
                settings.sky_zenith.x.bits,
                settings.sky_zenith.y.bits,
                settings.sky_zenith.z.bits,
                0x3F80_0000,
            )
            &&& words_are(
                w,
                20,
                settings.sky_horizon.x.bits,
                settings.sky_horizon.y.bits,
                settings.sky_horizon.z.bits,
                0x3F80_0000,
            )
            &&& words_are(
                w,
                24,
                settings.rayleigh_strength.bits,
                settings.mie_strength.bits,
                settings.mie_anisotropy.bits,
                settings.cloud_coverage.bits,
            )
            &&& w.len() == 28
        }),
{
}

} // verus!
