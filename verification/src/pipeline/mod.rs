//! The passes of a frame.

pub mod area_light_pass;
pub mod bloom_pass;
pub mod capture;
pub mod cloud_pass;
pub mod cull_pass;
pub mod dag_traverse_pass;
pub mod forward_character;
pub mod frame_laws;
pub mod frame_uploads;
pub mod gpu;
pub mod gtao_pass;
pub mod hw_raster_pass;
pub mod hzb_pass;
pub mod ibl_pass;
pub mod layouts;
pub mod motion_blur_pass;
pub mod noise_textures;
pub mod redwood_animation_pass;
pub mod shadow_pass;
pub mod sky_lut_pass;
pub mod ssao_pass;
pub mod ssgi_pass;
pub mod ssr_pass;
pub mod state_laws;
pub mod sun_shaft_pass;
pub mod sw_raster_pass;
pub mod taa_pass;
pub mod uniforms;
pub mod upload;
pub mod upload_laws;
pub mod validity;
pub mod visbuf_pipeline;
pub mod volumetric_fog_pass;

pub use self::capture::{CapturedFrame, DebugOverlay};
pub use self::gpu::HDR_FORMAT;
