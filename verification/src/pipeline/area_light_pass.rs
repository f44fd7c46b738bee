//! Lights with an extent: the list that shaders read, and the tables that shade them.

use vstd::prelude::*;

use crate::pipeline::gpu::{
    uniform_buffer, Buffer, BufferDesc, TexView, TextureDesc, TextureDimension, TextureFormat,
    TextureUsages,
};
use crate::pipeline::upload::{holds_words, words_to, Upload};
use crate::pipeline::validity::described;
use crate::scalar::{one, whole, zero, Scalar, Vec4};
use crate::scene::bounds::Vec3;
use crate::scene::lighting::{push_vector, vector_words, words_are};
use crate::scene::settings::AreaLight;

verus! {

/// The most lights a frame has.
pub const MAX_AREA_LIGHTS: usize = 16;

/// The width and height of the tables.
pub const LTC_LUT_SIZE: u32 = 64;

/// The bytes of a row of a table.
pub const LTC_BYTES_PER_ROW: u32 = LTC_LUT_SIZE * 16;

/// A vector and sixteen lights of four vectors.
pub const AREA_LIGHT_UNIFORM_SIZE: u64 = 1040;

/// A table that the host fills.
#[verifier::allow_in_spec]
pub fn ltc_table(view: TexView) -> TextureDesc
    returns
        (TextureDesc {
            view,
            width: LTC_LUT_SIZE,
            height: LTC_LUT_SIZE,
            layers: 1,
            mip_levels: 1,
            dimension: TextureDimension::D2,
            format: TextureFormat::Rgba32Float,
            usage: TextureUsages {
                copy_src: false,
                copy_dst: true,
                texture_binding: true,
                storage_binding: false,
                render_attachment: false,
            },
        }),
{
    TextureDesc {
        view,
        width: LTC_LUT_SIZE,
        height: LTC_LUT_SIZE,
        layers: 1,
        mip_levels: 1,
        dimension: TextureDimension::D2,
        format: TextureFormat::Rgba32Float,
        usage: TextureUsages {
            copy_src: false,
            copy_dst: true,
            texture_binding: true,
            storage_binding: false,
            render_attachment: false,
        },
    }
}

/// A light as shaders read it.
#[derive(Clone, Copy, Debug, PartialEq, Eq, Structural)]
pub struct GpuAreaLight {
    /// A sphere's centre or a tube's start, and the radius.
    pub pos_radius: Vec4,
    /// Colour times intensity, and zero for a sphere or one for a tube.
    pub color_type: Vec4,
    /// A tube's end.
    pub end_unused: Vec4,
    pub pad: Vec4,
}

pub open spec fn zero_vector() -> Vec4 {
    Vec4 { x: zero(), y: zero(), z: zero(), w: zero() }
}

/// A place in the list without a light.
pub open spec fn no_light() -> GpuAreaLight {
    GpuAreaLight {
        pos_radius: zero_vector(),
        color_type: zero_vector(),
        end_unused: zero_vector(),
        pad: zero_vector(),
    }
}

/// A light with its radiance, colour times intensity.
pub open spec fn packed(light: AreaLight, radiance: Vec3) -> GpuAreaLight {
    match light {
        AreaLight::Sphere { position, radius, .. } => GpuAreaLight {
            pos_radius: Vec4 { x: position.x, y: position.y, z: position.z, w: radius },
            color_type: Vec4 { x: radiance.x, y: radiance.y, z: radiance.z, w: zero() },
            end_unused: zero_vector(),
            pad: zero_vector(),
        },
        AreaLight::Tube { start, end, radius, .. } => GpuAreaLight {
            pos_radius: Vec4 { x: start.x, y: start.y, z: start.z, w: radius },
            color_type: Vec4 { x: radiance.x, y: radiance.y, z: radiance.z, w: one() },
            end_unused: Vec4 { x: end.x, y: end.y, z: end.z, w: zero() },
            pad: zero_vector(),
        },
    }
}

/// The lights that fit, from the first, and empty places after them.
pub open spec fn light_list(lights: Seq<AreaLight>, radiances: Seq<Vec3>) -> Seq<GpuAreaLight> {
    Seq::new(
        16,
        |i: int|
            if i < lights.len() {
                packed(lights[i], radiances[i])
            } else {
                no_light()
            },
    )
}

pub open spec fn light_words(light: GpuAreaLight) -> Seq<u32> {
    vector_words(light.pos_radius) + vector_words(light.color_type) + vector_words(
        light.end_unused,
    ) + vector_words(light.pad)
}

pub open spec fn list_words(lights: Seq<GpuAreaLight>) -> Seq<u32>
    decreases lights.len(),
{
    if lights.len() == 0 {
        Seq::empty()
    } else {
        list_words(lights.drop_last()) + light_words(lights.last())
    }
}

/// How many of the lights are used.
pub open spec fn used_lights(count: nat) -> nat {
    if count <= 16 {
        count
    } else {
        16
    }
}

/// The upload holds the number of lights and then the lights.
pub open spec fn uploads_lights(
    upload: Upload,
    lights: Seq<AreaLight>,
    radiances: Seq<Vec3>,
) -> bool {
    upload.puts(
        Buffer::AreaLights,
        0,
        seq![whole(used_lights(lights.len())).bits, 0, 0, 0] + list_words(
            light_list(lights, radiances),
        ),
    )
}

fn pack_light(light: &AreaLight, radiance: Vec3) -> (g: GpuAreaLight)
    ensures
        g == packed(*light, radiance),
{
    let z = Scalar::from_bits(0);
    let none = Vec4::new(z, z, z, z);
    match light {
        AreaLight::Sphere { position, radius, .. } => GpuAreaLight {
            pos_radius: Vec4::new(position.x, position.y, position.z, *radius),
            color_type: Vec4::new(radiance.x, radiance.y, radiance.z, z),
            end_unused: none,
            pad: none,
        },
        AreaLight::Tube { start, end, radius, .. } => GpuAreaLight {
            pos_radius: Vec4::new(start.x, start.y, start.z, *radius),
            color_type: Vec4::new(
                radiance.x,
                radiance.y,
                radiance.z,
                Scalar::from_bits(0x3F80_0000),
            ),
            end_unused: Vec4::new(end.x, end.y, end.z, z),
            pad: none,
        },
    }
}

/// Lights with an extent, and the tables that shade them.
#[derive(Clone, Copy, Debug, PartialEq, Eq, Structural)]
pub struct AreaLightPass {
    pub light_count: u32,
}

pub open spec fn area_light_textures() -> Seq<TextureDesc> {
    seq![ltc_table(TexView::LtcMatrix), ltc_table(TexView::LtcAmplitude)]
}

impl AreaLightPass {
    /// A pass without lights.
    pub fn new() -> (pass: AreaLightPass)
        ensures
            pass.light_count == 0,
    {
        AreaLightPass { light_count: 0 }
    }

    pub fn textures() -> (descs: Vec<TextureDesc>)
        ensures
            descs@ == area_light_textures(),
    {
        vec![ltc_table(TexView::LtcMatrix), ltc_table(TexView::LtcAmplitude)]
    }

    pub fn uniforms() -> (desc: BufferDesc)
        ensures
            desc == uniform_buffer(Buffer::AreaLights, AREA_LIGHT_UNIFORM_SIZE),
    {
        uniform_buffer(Buffer::AreaLights, AREA_LIGHT_UNIFORM_SIZE)
    }

    /// Takes the lights of a scene, each with its radiance. Lights beyond the sixteenth are left out.
    pub fn update_lights(&mut self, lights: &[AreaLight], radiances: &[Vec3]) -> (upload: Upload)
        requires
            radiances@.len() == lights@.len(),
        ensures
            final(self).light_count == used_lights(lights@.len()),
            uploads_lights(upload, lights@, radiances@),
    {
        let count: u32 = if lights.len() <= MAX_AREA_LIGHTS {
            lights.len() as u32
        } else {
            MAX_AREA_LIGHTS as u32
        };
        self.light_count = count;
        let number = Scalar::from_whole(count);
        let z = Scalar::from_bits(0);
        let none = Vec4::new(z, z, z, z);
        let ghost all = light_list(lights@, radiances@);
        let mut words: Vec<u32> = vec![number.to_bits(), 0, 0, 0];
        let ghost head = seq![number.bits, 0, 0, 0];
        assert(words@ =~= head + list_words(all.take(0)));
        let mut i: usize = 0;
        while i < MAX_AREA_LIGHTS
            invariant
                i <= 16,
                radiances@.len() == lights@.len(),
                all == light_list(lights@, radiances@),
                none == zero_vector(),
                words@ == head + list_words(all.take(i as int)),
            decreases 16 - i,
        {
            let light = if i < lights.len() {
                pack_light(&lights[i], radiances[i])
            } else {
                GpuAreaLight { pos_radius: none, color_type: none, end_unused: none, pad: none }
            };
            assert(light == all[i as int]);
            let ghost before = words@;
            push_vector(&mut words, light.pos_radius);
            push_vector(&mut words, light.color_type);
            push_vector(&mut words, light.end_unused);
            push_vector(&mut words, light.pad);
            assert(words@ =~= before + light_words(light));
            i = i + 1;
            assert(all.take(i as int).drop_last() =~= all.take(i as int - 1));
            assert(words@ =~= head + list_words(all.take(i as int)));
        }
        assert(all.take(16) =~= all);
        words_to(Buffer::AreaLights, words.as_slice())
    }
}

/// The words of any list of lights fill the buffer exactly.
pub proof fn lights_fill_their_buffer(
    count: Scalar,
    lights: Seq<AreaLight>,
    radiances: Seq<Vec3>,
)
    ensures
        4 * (seq![count.bits, 0, 0, 0] + list_words(light_list(lights, radiances))).len()
            == AREA_LIGHT_UNIFORM_SIZE,
{
    lemma_list_length(light_list(lights, radiances));
}

proof fn lemma_list_length(lights: Seq<GpuAreaLight>)
    ensures
        list_words(lights).len() == 16 * lights.len(),
    decreases lights.len(),
{
    if lights.len() > 0 {
        lemma_list_length(lights.drop_last());
    }
}

/// The tables are created as their views need them.
pub proof fn area_light_textures_fit_their_views()
    ensures
        forall|i: int| 0 <= i < 2 ==> described(#[trigger] area_light_textures()[i]),
{
}

/// What is uploaded of lights: how many they are, at most sixteen; then each in its place, sixteen
/// words long, a sphere by its centre and radius, a tube by its start, radius and end, both with their
/// radiance and their kind; zeros where there is no light.
pub proof fn lights_stand_in_their_places(
    upload: Upload,
    lights: Seq<AreaLight>,
    radiances: Seq<Vec3>,
    i: int,
) -> (w: Seq<u32>)
    requires
        uploads_lights(upload, lights, radiances),
        0 <= i < 16,
    ensures
        upload.buffer == Buffer::AreaLights,
        upload.offset == 0,
        holds_words(upload.bytes@, w),
        w.len() == 260,
        lights.len() <= 16 ==> words_are(w, 0, whole(lights.len()).bits, 0, 0, 0),
        lights.len() > 16 ==> words_are(w, 0, whole(16).bits, 0, 0, 0),
        i < lights.len() ==> match lights[i] {
            AreaLight::Sphere { position, radius, .. } => {
                &&& words_are(
                    w,
                    4 + 16 * i,
                    position.x.bits,
                    position.y.bits,
                    position.z.bits,
                    radius.bits,
                )
                &&& words_are(
                    w,
                    8 + 16 * i,
                    radiances[i].x.bits,
                    radiances[i].y.bits,
                    radiances[i].z.bits,
                    0,
                )
                &&& words_are(w, 12 + 16 * i, 0, 0, 0, 0)
            },
            AreaLight::Tube { start, end, radius, .. } => {
                &&& words_are(
                    w,
                    4 + 16 * i,
                    start.x.bits,
                    start.y.bits,
                    start.z.bits,
                    radius.bits,
                )
                &&& words_are(
                    w,
                    8 + 16 * i,
                    radiances[i].x.bits,
                    radiances[i].y.bits,
                    radiances[i].z.bits,
                    0x3F80_0000,
                )
                &&& words_are(w, 12 + 16 * i, end.x.bits, end.y.bits, end.z.bits, 0)
            },
        },
        i >= lights.len() ==> words_are(w, 4 + 16 * i, 0, 0, 0, 0) && words_are(
            w,
            8 + 16 * i,
            0,
            0,
            0,
            0,
        ) && words_are(w, 12 + 16 * i, 0, 0, 0, 0),
        words_are(w, 16 + 16 * i, 0, 0, 0, 0),
{
    let list = light_list(lights, radiances);
    let w = seq![whole(used_lights(lights.len())).bits, 0, 0, 0] + list_words(list);
    lemma_list_length(list);
    lemma_place_in_list(list, i);
    assert(w[4 + 16 * i] == light_words(list[i])[0]);
    assert(w[5 + 16 * i] == light_words(list[i])[1]);
    assert(w[6 + 16 * i] == light_words(list[i])[2]);
    assert(w[7 + 16 * i] == light_words(list[i])[3]);
    assert(w[8 + 16 * i] == light_words(list[i])[4]);
    assert(w[9 + 16 * i] == light_words(list[i])[5]);
    assert(w[10 + 16 * i] == light_words(list[i])[6]);
    assert(w[11 + 16 * i] == light_words(list[i])[7]);
    assert(w[12 + 16 * i] == light_words(list[i])[8]);
    assert(w[13 + 16 * i] == light_words(list[i])[9]);
    assert(w[14 + 16 * i] == light_words(list[i])[10]);
    assert(w[15 + 16 * i] == light_words(list[i])[11]);
    assert(w[16 + 16 * i] == light_words(list[i])[12]);
    assert(w[17 + 16 * i] == light_words(list[i])[13]);
    assert(w[18 + 16 * i] == light_words(list[i])[14]);
    assert(w[19 + 16 * i] == light_words(list[i])[15]);
    w
}

proof fn lemma_place_in_list(lights: Seq<GpuAreaLight>, i: int)
    requires
        0 <= i < lights.len(),
    ensures
        forall|k: int|
            0 <= k < 16 ==> list_words(lights)[16 * i + k] == #[trigger] light_words(lights[i])[k],
    decreases lights.len(),
{
    let rest = lights.drop_last();
    lemma_list_length(rest);
    if i < rest.len() {
        lemma_place_in_list(rest, i);
        assert(rest[i] == lights[i]);
        assert forall|k: int| 0 <= k < 16 implies list_words(lights)[16 * i + k]
            == #[trigger] light_words(lights[i])[k] by {
            assert(list_words(rest)[16 * i + k] == light_words(rest[i])[k]);
        }
    }
}

/// Both tables have 64 by 64 texels of four numbers, which the host writes and shaders sample.
pub proof fn light_tables_have_their_size(i: int)
    requires
        0 <= i < 2,
    ensures
        area_light_textures().len() == 2,
        area_light_textures()[0].view == TexView::LtcMatrix,
        area_light_textures()[1].view == TexView::LtcAmplitude,
        area_light_textures()[i].width == 64 && area_light_textures()[i].height == 64,
        area_light_textures()[i].layers == 1 && area_light_textures()[i].mip_levels == 1,
        area_light_textures()[i].format == TextureFormat::Rgba32Float,
        area_light_textures()[i].usage.copy_dst,
        area_light_textures()[i].usage.texture_binding,
        LTC_BYTES_PER_ROW == 1024,
{
}

} // verus!
