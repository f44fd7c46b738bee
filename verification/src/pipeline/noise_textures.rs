//! Noise for clouds: two volumes that a shader fills, and a weather map.

use vstd::prelude::*;

use crate::pipeline::gpu::{
    bind_view, binds, bound, dispatch, dispatch_step, group, groups_for, steps,
    storage_and_sampled, storage_texture_entry, Command, Layout, LayoutEntry, Pipeline, Resource,
    Sampler, SamplerDesc, Step, TexView, TextureDesc, TextureDimension, TextureFormat,
    TextureUsages, ViewDimension,
};
use crate::pipeline::validity::{described, valid};

verus! {

/// The edge of the shape volume.
pub const SHAPE_SIZE: u32 = 128;

/// The edge of the detail volume.
pub const DETAIL_SIZE: u32 = 32;

/// The edge of the weather map.
pub const WEATHER_SIZE: u32 = 512;

pub open spec fn noise_entries() -> Seq<LayoutEntry> {
    seq![
        storage_texture_entry(0, TextureFormat::Rgba8Unorm, ViewDimension::D3),
    ]
}

/// The volume to write.
pub fn noise_layout() -> (entries: Vec<LayoutEntry>)
    ensures
        entries@ == noise_entries(),
{
    vec![
        storage_texture_entry(0, TextureFormat::Rgba8Unorm, ViewDimension::D3),
    ]
}

/// The volume that shapes clouds is filled.
pub open spec fn shape_step() -> Step {
    dispatch_step(
        Pipeline::NoiseShape,
        bound(
            Layout::NoiseGen,
            seq![
                bind_view(0, TexView::NoiseShape),
            ],
        ),
        groups_for(SHAPE_SIZE, 4),
        groups_for(SHAPE_SIZE, 4),
        groups_for(SHAPE_SIZE, 4),
    )
}

fn shape_command() -> (c: Command)
    ensures
        c@ == shape_step(),
{
    let c = dispatch(
        Pipeline::NoiseShape,
        group(
            Layout::NoiseGen,
            vec![
                bind_view(0, TexView::NoiseShape),
            ],
        ),
        groups_for(SHAPE_SIZE, 4),
        groups_for(SHAPE_SIZE, 4),
        groups_for(SHAPE_SIZE, 4),
    );
    assert(c@ =~~= shape_step());
    c
}

/// The volume that erodes their edges is filled.
pub open spec fn detail_step() -> Step {
    dispatch_step(
        Pipeline::NoiseDetail,
        bound(
            Layout::NoiseGen,
            seq![
                bind_view(0, TexView::NoiseDetail),
            ],
        ),
        groups_for(DETAIL_SIZE, 4),
        groups_for(DETAIL_SIZE, 4),
        groups_for(DETAIL_SIZE, 4),
    )
}

fn detail_command() -> (c: Command)
    ensures
        c@ == detail_step(),
{
    let c = dispatch(
        Pipeline::NoiseDetail,
        group(
            Layout::NoiseGen,
            vec![
                bind_view(0, TexView::NoiseDetail),
            ],
        ),
        groups_for(DETAIL_SIZE, 4),
        groups_for(DETAIL_SIZE, 4),
        groups_for(DETAIL_SIZE, 4),
    );
    assert(c@ =~~= detail_step());
    c
}

/// Noise for clouds, made once.
#[derive(Clone, Copy, Debug, PartialEq, Eq, Structural)]
pub struct NoiseTextures {
    pub generated: bool,
}

/// A cube of noise.
#[verifier::allow_in_spec]
pub fn noise_volume(view: TexView, size: u32) -> TextureDesc
    returns
        (TextureDesc {
            view,
            width: size,
            height: size,
            layers: size,
            mip_levels: 1,
            dimension: TextureDimension::D3,
            format: TextureFormat::Rgba8Unorm,
            usage: storage_and_sampled(),
        }),
{
    TextureDesc {
        view,
        width: size,
        height: size,
        layers: size,
        mip_levels: 1,
        dimension: TextureDimension::D3,
        format: TextureFormat::Rgba8Unorm,
        usage: storage_and_sampled(),
    }
}

/// The weather map, which the host fills.
#[verifier::allow_in_spec]
pub fn weather_map() -> TextureDesc
    returns
        (TextureDesc {
            view: TexView::NoiseWeather,
            width: WEATHER_SIZE,
            height: WEATHER_SIZE,
            layers: 1,
            mip_levels: 1,
            dimension: TextureDimension::D2,
            format: TextureFormat::Rgba8Unorm,
            usage: TextureUsages {
                copy_src: false,
                copy_dst: true,
                texture_binding: true,
                storage_binding: false,
                render_attachment: false,
            },
        }),
{
    TextureDesc {
        view: TexView::NoiseWeather,
        width: WEATHER_SIZE,
        height: WEATHER_SIZE,
        layers: 1,
        mip_levels: 1,
        dimension: TextureDimension::D2,
        format: TextureFormat::Rgba8Unorm,
        usage: TextureUsages {
            copy_src: false,
            copy_dst: true,
            texture_binding: true,
            storage_binding: false,
            render_attachment: false,
        },
    }
}

pub open spec fn noise_texture_list() -> Seq<TextureDesc> {
    seq![
        noise_volume(TexView::NoiseShape, SHAPE_SIZE),
        noise_volume(TexView::NoiseDetail, DETAIL_SIZE),
        weather_map(),
    ]
}

impl NoiseTextures {
    pub fn new() -> (noise: NoiseTextures)
        ensures
            !noise.generated,
    {
        NoiseTextures { generated: false }
    }

    pub fn textures() -> (descs: Vec<TextureDesc>)
        ensures
            descs@ == noise_texture_list(),
    {
        vec![
            noise_volume(TexView::NoiseShape, SHAPE_SIZE),
            noise_volume(TexView::NoiseDetail, DETAIL_SIZE),
            weather_map(),
        ]
    }

    /// The sampler of the noise, which tiles in every direction.
    pub fn sampler() -> (desc: SamplerDesc)
        ensures
            desc == (SamplerDesc {
                sampler: Sampler::NoiseRepeat,
                repeat_u: true,
                repeat_v: true,
                repeat_w: true,
                linear_between_levels: true,
                compare: false,
            }),
    {
        SamplerDesc {
            sampler: Sampler::NoiseRepeat,
            repeat_u: true,
            repeat_v: true,
            repeat_w: true,
            linear_between_levels: true,
            compare: false,
        }
    }

    /// Records the making of the noise, the first time only. Where anything is recorded, the host
    /// also fills the weather map.
    pub fn ensure_generated(&mut self) -> (commands: Vec<Command>)
        ensures
            steps(commands@) == if old(self).generated {
                Seq::empty()
            } else {
                seq![shape_step(), detail_step()]
            },
            final(self).generated,
    {
        if self.generated {
            let none: Vec<Command> = Vec::new();
            assert(steps(none@) =~= Seq::empty());
            return none;
        }
        self.generated = true;
        let commands = vec![shape_command(), detail_command()];
        assert(steps(commands@) =~= seq![shape_step(), detail_step()]);
        commands
    }
}

/// Where the texel at `(x, y)` of the weather map begins, and that its four bytes lie inside.
pub fn weather_texel_offset(x: usize, y: usize) -> (offset: usize)
    requires
        x < WEATHER_SIZE,
        y < WEATHER_SIZE,
    ensures
        offset == (y * 512 + x) * 4,
        offset + 4 <= 1048576,
{
    (y * 512 + x) * 4
}

/// The integer cell `v` of a noise that repeats after `period` cells.
pub fn wrap_cell(v: i32, period: i32) -> (cell: i32)
    requires
        0 < period <= 0x4000_0000,
    ensures
        cell == v as int % period as int,
        0 <= cell < period,
{
    match v.checked_rem_euclid(period) {
        Some(cell) => cell,
        None => 0,
    }
}

/// Both commands can be carried out.
pub proof fn noise_commands_are_valid()
    ensures
        valid(shape_step()),
        valid(detail_step()),
{
}

/// The textures are created as their views need them.
pub proof fn noise_textures_fit_their_views()
    ensures
        forall|i: int| 0 <= i < 3 ==> described(#[trigger] noise_texture_list()[i]),
{
}

/// A noise that repeats has the same cell one period further on.
pub proof fn wrapped_cells_repeat(v: int, period: int)
    requires
        period > 0,
    ensures
        (v + period) % period == v % period,
{
    vstd::arithmetic::div_mod::lemma_mod_add_multiples_vanish(v, period);
}

/// Every texel of both volumes of noise is written: 128 and 32 in each direction, four to a thread
/// group.
pub proof fn noise_fills_its_volumes()
    ensures
        shape_step() matches Step::Dispatch { pipeline, groups, x, y, z } && pipeline
            == Pipeline::NoiseShape && groups.len() == 1 && binds(
            groups[0],
            Layout::NoiseGen,
            seq![Resource::View(TexView::NoiseShape)],
        ) && x == 32 && y == 32 && z == 32,
        detail_step() matches Step::Dispatch { pipeline, groups, x, y, z } && pipeline
            == Pipeline::NoiseDetail && groups.len() == 1 && binds(
            groups[0],
            Layout::NoiseGen,
            seq![Resource::View(TexView::NoiseDetail)],
        ) && x == 8 && y == 8 && z == 8,
        noise_texture_list().len() == 3,
        noise_texture_list()[0].view == TexView::NoiseShape,
        noise_texture_list()[0].width == 128 && noise_texture_list()[0].height == 128
            && noise_texture_list()[0].layers == 128,
        noise_texture_list()[1].view == TexView::NoiseDetail,
        noise_texture_list()[1].width == 32 && noise_texture_list()[1].height == 32
            && noise_texture_list()[1].layers == 32,
        noise_texture_list()[2].view == TexView::NoiseWeather,
        noise_texture_list()[2].width == 512 && noise_texture_list()[2].height == 512,
{
}

} // verus!
