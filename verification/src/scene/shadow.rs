//! The shadow map and the ranges of its cascades.

use vstd::prelude::*;

use crate::pipeline::gpu::{
    Sampler, SamplerDesc, TexView, TextureDesc, TextureDimension, TextureFormat, TextureUsages,
};
use crate::pipeline::validity::described;
use crate::scalar::{Mat4, Scalar};

verus! {

/// The number of cascades.
pub const NUM_CASCADES: usize = 4;

/// The width and height of a cascade, in texels.
pub const SHADOW_MAP_SIZE: u32 = 2048;

/// The matrices and far distances of all cascades.
#[derive(Clone, Copy, Debug)]
pub struct CascadeSet {
    pub light_vps: [Mat4; 4],
    /// How far each cascade reaches from the camera.
    pub splits: [Scalar; 4],
}

/// From where to where a cascade reaches.
#[derive(Clone, Copy, Debug, PartialEq, Eq, Structural)]
pub struct CascadeRange {
    pub near: Scalar,
    pub far: Scalar,
}

pub open spec fn range_of(near: Scalar, splits: Seq<Scalar>, cascade: int) -> CascadeRange {
    CascadeRange {
        near: if cascade == 0 {
            near
        } else {
            splits[cascade - 1]
        },
        far: splits[cascade],
    }
}

/// A cascade begins where the one before ends, the first at the camera's near plane.
pub fn cascade_range(near: Scalar, splits: &[Scalar; 4], cascade: usize) -> (range: CascadeRange)
    requires
        cascade < NUM_CASCADES,
    ensures
        range == range_of(near, splits@, cascade as int),
{
    CascadeRange {
        near: if cascade == 0 {
            near
        } else {
            splits[cascade - 1]
        },
        far: splits[cascade],
    }
}

/// The shadow map: depth from the sun, one layer for each cascade.
#[derive(Clone, Copy, Debug, PartialEq, Eq, Structural)]
pub struct ShadowMap;

/// The texture with all layers.
#[verifier::allow_in_spec]
pub fn shadow_texture() -> TextureDesc
    returns
        (TextureDesc {
            view: TexView::ShadowArray,
            width: SHADOW_MAP_SIZE,
            height: SHADOW_MAP_SIZE,
            layers: 4,
            mip_levels: 1,
            dimension: TextureDimension::D2,
            format: TextureFormat::Depth32Float,
            usage: TextureUsages {
                copy_src: false,
                copy_dst: false,
                texture_binding: true,
                storage_binding: false,
                render_attachment: true,
            },
        }),
{
    TextureDesc {
        view: TexView::ShadowArray,
        width: SHADOW_MAP_SIZE,
        height: SHADOW_MAP_SIZE,
        layers: NUM_CASCADES as u32,
        mip_levels: 1,
        dimension: TextureDimension::D2,
        format: TextureFormat::Depth32Float,
        usage: TextureUsages {
            copy_src: false,
            copy_dst: false,
            texture_binding: true,
            storage_binding: false,
            render_attachment: true,
        },
    }
}

impl ShadowMap {
    pub fn new() -> (map: ShadowMap)
        ensures
            map == ShadowMap,
    {
        ShadowMap
    }

    pub fn texture(&self) -> (desc: TextureDesc)
        ensures
            desc == shadow_texture(),
    {
        shadow_texture()
    }

    /// The sampler that tells whether a depth is at most the stored one.
    pub fn sampler(&self) -> (desc: SamplerDesc)
        ensures
            desc == (SamplerDesc {
                sampler: Sampler::ShadowCompare,
                repeat_u: false,
                repeat_v: false,
                repeat_w: false,
                linear_between_levels: false,
                compare: true,
            }),
    {
        SamplerDesc {
            sampler: Sampler::ShadowCompare,
            repeat_u: false,
            repeat_v: false,
            repeat_w: false,
            linear_between_levels: false,
            compare: true,
        }
    }
}

/// Cascades follow each other without gap or overlap, from the near plane to the last split.
pub proof fn cascades_follow_each_other(near: Scalar, splits: Seq<Scalar>, cascade: int)
    requires
        splits.len() == NUM_CASCADES,
        0 <= cascade < NUM_CASCADES,
    ensures
        range_of(near, splits, 0).near == near,
        range_of(near, splits, 3).far == splits[3],
        cascade > 0 ==> range_of(near, splits, cascade).near == range_of(
            near,
            splits,
            cascade - 1,
        ).far,
{
}

/// The texture is created as its views need it.
pub proof fn shadow_texture_fits_its_view()
    ensures
        described(shadow_texture()),
{
}

/// A cascade reaches up to its own split, and from the split before.
pub proof fn cascades_end_at_their_split(near: Scalar, splits: Seq<Scalar>, cascade: int)
    requires
        splits.len() == 4,
        0 <= cascade < 4,
    ensures
        range_of(near, splits, cascade).far == splits[cascade],
        cascade == 0 ==> range_of(near, splits, cascade).near == near,
        cascade > 0 ==> range_of(near, splits, cascade).near == splits[cascade - 1],
{
}

/// The shadow map has four layers of 2048 texels squared, which are drawn to and sampled as depth.
pub proof fn shadow_map_has_a_layer_for_each_cascade()
    ensures
        shadow_texture().view == TexView::ShadowArray,
        shadow_texture().width == 2048 && shadow_texture().height == 2048,
        shadow_texture().layers == 4,
        shadow_texture().mip_levels == 1,
        shadow_texture().dimension == TextureDimension::D2,
        shadow_texture().format == TextureFormat::Depth32Float,
        shadow_texture().usage.render_attachment,
        shadow_texture().usage.texture_binding,
{
}

} // verus!
