//! Image-based lighting: a table of the BRDF, and an environment map whose levels are filtered for
//! growing roughness.

use vstd::arithmetic::power2::pow2;
use vstd::prelude::*;

use crate::pipeline::gpu::{
    at_least_one, bind_sampler, bind_slice, bind_view, bound, compute_stage, computes, dispatch,
    dispatch_step, group, groups_for, has_texels, sampler_entry, steps, storage_and_sampled,
    storage_target, storage_texture_entry, texture_entry, uniform_buffer, uniform_entry, Buffer,
    BufferDesc, Command, Layout, LayoutEntry, Pipeline, Resource, SampleType, Sampler, SamplerDesc,
    SamplerKind, Step, TexView, TextureDesc, TextureDimension, TextureFormat, ViewDimension,
    UNIFORM_ALIGN,
};
use crate::pipeline::validity::{bound_as, described, is_color_source, valid};
use crate::scalar::{zero, Scalar};
use crate::scene::bounds::Vec3;

verus! {

/// The width and height of a face of the environment map.
pub const CUBEMAP_SIZE: u32 = 128;

/// The width and height of the table of the BRDF.
pub const BRDF_LUT_SIZE: u32 = 256;

/// The number of levels of the environment map.
pub const MIP_LEVELS: u32 = 7;

/// Four integers and six vectors.
pub const PREFILTER_UNIFORM_SIZE: u64 = 112;

/// One slot for each face of each level.
pub const PREFILTER_UNIFORM_SLOTS: u64 = 42;

pub open spec fn brdf_entries() -> Seq<LayoutEntry> {
    seq![
        storage_texture_entry(0, TextureFormat::Rg16Float, ViewDimension::D2),
    ]
}

/// The table to write.
pub fn brdf_layout() -> (entries: Vec<LayoutEntry>)
    ensures
        entries@ == brdf_entries(),
{
    vec![
        storage_texture_entry(0, TextureFormat::Rg16Float, ViewDimension::D2),
    ]
}

pub open spec fn prefilter_entries() -> Seq<LayoutEntry> {
    seq![
        uniform_entry(0, compute_stage(), 0),
        texture_entry(1, compute_stage(), SampleType::FilterableFloat, ViewDimension::D2),
        sampler_entry(2, compute_stage(), SamplerKind::Filtering),
        texture_entry(3, compute_stage(), SampleType::FilterableFloat, ViewDimension::Cube),
        sampler_entry(4, compute_stage(), SamplerKind::Filtering),
        storage_texture_entry(5, TextureFormat::Rgba16Float, ViewDimension::D2),
    ]
}

/// Uniforms, the sky, the environment map, and the face to write.
pub fn prefilter_layout() -> (entries: Vec<LayoutEntry>)
    ensures
        entries@ == prefilter_entries(),
{
    vec![
        uniform_entry(0, compute_stage(), 0),
        texture_entry(1, compute_stage(), SampleType::FilterableFloat, ViewDimension::D2),
        sampler_entry(2, compute_stage(), SamplerKind::Filtering),
        texture_entry(3, compute_stage(), SampleType::FilterableFloat, ViewDimension::Cube),
        sampler_entry(4, compute_stage(), SamplerKind::Filtering),
        storage_texture_entry(5, TextureFormat::Rgba16Float, ViewDimension::D2),
    ]
}

/// The split-sum table is made.
pub open spec fn brdf_step() -> Step {
    dispatch_step(
        Pipeline::BrdfLut,
        bound(
            Layout::Brdf,
            seq![
                bind_view(0, TexView::BrdfLut),
            ],
        ),
        groups_for(BRDF_LUT_SIZE, 8),
        groups_for(BRDF_LUT_SIZE, 8),
        1,
    )
}

fn brdf_command() -> (c: Command)
    ensures
        c@ == brdf_step(),
{
    let c = dispatch(
        Pipeline::BrdfLut,
        group(
            Layout::Brdf,
            vec![
                bind_view(0, TexView::BrdfLut),
            ],
        ),
        groups_for(BRDF_LUT_SIZE, 8),
        groups_for(BRDF_LUT_SIZE, 8),
        1,
    );
    assert(c@ =~~= brdf_step());
    c
}

/// One face of one level: what its uniforms hold, apart from light and atmosphere.
#[derive(Clone, Copy, Debug, PartialEq, Eq, Structural)]
pub struct PrefilterStep {
    pub face: u32,
    pub mip_level: u32,
    pub face_size: u32,
    pub max_mip: u32,
}

/// The width and height of a face at a level.
pub open spec fn face_size_at(mip: nat) -> u32
    decreases mip,
{
    if mip == 0 {
        CUBEMAP_SIZE
    } else {
        at_least_one(face_size_at((mip - 1) as nat) / 2)
    }
}

pub open spec fn prefilter_face(mip: int, face: int) -> PrefilterStep {
    PrefilterStep {
        face: face as u32,
        mip_level: mip as u32,
        face_size: face_size_at(mip as nat),
        max_mip: 6,
    }
}

/// Where the uniforms of a face stand in their buffer.
pub open spec fn prefilter_offset(at: PrefilterStep) -> u64 {
    (UNIFORM_ALIGN * (6 * at.mip_level + at.face)) as u64
}

impl PrefilterStep {
    /// Where the uniforms of the face stand in their buffer.
    pub fn uniform_offset(&self) -> (offset: u64)
        ensures
            offset == prefilter_offset(*self),
            offset == UNIFORM_ALIGN * (6 * self.mip_level + self.face),
    {
        UNIFORM_ALIGN * (6 * self.mip_level as u64 + self.face as u64)
    }
}

/// All faces, level by level: a level is filtered from those before it.
pub open spec fn prefilter_faces() -> Seq<PrefilterStep> {
    Seq::new(42, |k: int| prefilter_face(k / 6, k % 6))
}

/// The sky is rendered into the first level; the others are filtered from the map.
pub open spec fn prefilter_pipeline(mip: u32) -> Pipeline {
    if mip == 0 {
        Pipeline::SkyToCubemap
    } else {
        Pipeline::PrefilterMip
    }
}

pub open spec fn prefilter_step(at: PrefilterStep, sky: TexView, sky_sampler: Sampler) -> Step {
    dispatch_step(
        prefilter_pipeline(at.mip_level),
        bound(
            Layout::Prefilter,
            seq![
                bind_slice(
                    0,
                    Buffer::PrefilterUniforms,
                    prefilter_offset(at),
                    PREFILTER_UNIFORM_SIZE,
                ),
                bind_view(1, sky),
                bind_sampler(2, sky_sampler),
                bind_view(3, TexView::EnvCube),
                bind_sampler(4, Sampler::Cubemap),
                bind_view(5, TexView::EnvFace { mip: at.mip_level, face: at.face }),
            ],
        ),
        groups_for(at.face_size, 8),
        groups_for(at.face_size, 8),
        1,
    )
}

/// The command for one face, which reads the slot of its own uniforms.
pub fn prefilter_command(at: PrefilterStep, sky: TexView, sky_sampler: Sampler) -> (c: Command)
    ensures
        c@ == prefilter_step(at, sky, sky_sampler),
{
    let pipeline = if at.mip_level == 0 {
        Pipeline::SkyToCubemap
    } else {
        Pipeline::PrefilterMip
    };
    let c = dispatch(
        pipeline,
        group(
            Layout::Prefilter,
            vec![
                bind_slice(
                    0,
                    Buffer::PrefilterUniforms,
                    at.uniform_offset(),
                    PREFILTER_UNIFORM_SIZE,
                ),
                bind_view(1, sky),
                bind_sampler(2, sky_sampler),
                bind_view(3, TexView::EnvCube),
                bind_sampler(4, Sampler::Cubemap),
                bind_view(5, TexView::EnvFace { mip: at.mip_level, face: at.face }),
            ],
        ),
        groups_for(at.face_size, 8),
        groups_for(at.face_size, 8),
        1,
    );
    assert(c@ =~~= prefilter_step(at, sky, sky_sampler));
    c
}

/// What the environment map depends on.
#[derive(Clone, Copy, Debug, PartialEq, Eq, Structural)]
pub struct EnvironmentKey {
    /// The direction of the sun, of length one.
    pub sun_direction: Vec3,
    pub sun_strength: Scalar,
    pub rayleigh_strength: Scalar,
    pub mie_strength: Scalar,
    pub mie_anisotropy: Scalar,
}

impl EnvironmentKey {
    /// All values are the same numbers.
    pub open spec fn matches(self, other: EnvironmentKey) -> bool {
        &&& self.sun_direction.matches(other.sun_direction)
        &&& self.sun_strength.eq_value(other.sun_strength)
        &&& self.rayleigh_strength.eq_value(other.rayleigh_strength)
        &&& self.mie_strength.eq_value(other.mie_strength)
        &&& self.mie_anisotropy.eq_value(other.mie_anisotropy)
    }
}

/// Image-based lighting, and what its tables were made for.
#[derive(Clone, Copy, Debug, PartialEq, Eq, Structural)]
pub struct IblPass {
    pub brdf_generated: bool,
    pub last: EnvironmentKey,
}

pub open spec fn ibl_textures() -> Seq<TextureDesc> {
    seq![
        storage_target(
            TexView::BrdfLut,
            BRDF_LUT_SIZE,
            BRDF_LUT_SIZE,
            TextureFormat::Rg16Float,
        ),
        environment_target(),
    ]
}

/// The environment map: six faces with all their levels.
#[verifier::allow_in_spec]
pub fn environment_target() -> TextureDesc
    returns
        (TextureDesc {
            view: TexView::EnvCube,
            width: CUBEMAP_SIZE,
            height: CUBEMAP_SIZE,
            layers: 6,
            mip_levels: MIP_LEVELS,
            dimension: TextureDimension::D2,
            format: TextureFormat::Rgba16Float,
            usage: storage_and_sampled(),
        }),
{
    TextureDesc {
        view: TexView::EnvCube,
        width: CUBEMAP_SIZE,
        height: CUBEMAP_SIZE,
        layers: 6,
        mip_levels: MIP_LEVELS,
        dimension: TextureDimension::D2,
        format: TextureFormat::Rgba16Float,
        usage: storage_and_sampled(),
    }
}

impl IblPass {
    pub fn new() -> (pass: IblPass)
        ensures
            !pass.brdf_generated,
            pass.last == (EnvironmentKey {
                sun_direction: Vec3 { x: zero(), y: zero(), z: zero() },
                sun_strength: zero(),
                rayleigh_strength: zero(),
                mie_strength: zero(),
                mie_anisotropy: zero(),
            }),
    {
        let z = Scalar::from_bits(0);
        IblPass {
            brdf_generated: false,
            last: EnvironmentKey {
                sun_direction: Vec3::splat(z),
                sun_strength: z,
                rayleigh_strength: z,
                mie_strength: z,
                mie_anisotropy: z,
            },
        }
    }

    /// The table of the BRDF and the environment map.
    pub fn textures() -> (descs: Vec<TextureDesc>)
        ensures
            descs@ == ibl_textures(),
    {
        vec![
            storage_target(
                TexView::BrdfLut,
                BRDF_LUT_SIZE,
                BRDF_LUT_SIZE,
                TextureFormat::Rg16Float,
            ),
            environment_target(),
        ]
    }

    pub fn uniforms() -> (desc: BufferDesc)
        ensures
            desc == uniform_buffer(Buffer::PrefilterUniforms, 10752),
    {
        uniform_buffer(Buffer::PrefilterUniforms, UNIFORM_ALIGN * PREFILTER_UNIFORM_SLOTS)
    }

    /// The sampler of the environment map, smooth between its levels too.
    pub fn cubemap_sampler() -> (desc: SamplerDesc)
        ensures
            desc == (SamplerDesc {
                sampler: Sampler::Cubemap,
                repeat_u: false,
                repeat_v: false,
                repeat_w: false,
                linear_between_levels: true,
                compare: false,
            }),
    {
        SamplerDesc {
            sampler: Sampler::Cubemap,
            repeat_u: false,
            repeat_v: false,
            repeat_w: false,
            linear_between_levels: true,
            compare: false,
        }
    }

    /// The sampler of the BRDF's table.
    pub fn brdf_lut_sampler() -> (desc: SamplerDesc)
        ensures
            desc == (SamplerDesc {
                sampler: Sampler::BrdfLut,
                repeat_u: false,
                repeat_v: false,
                repeat_w: false,
                linear_between_levels: false,
                compare: false,
            }),
    {
        SamplerDesc {
            sampler: Sampler::BrdfLut,
            repeat_u: false,
            repeat_v: false,
            repeat_w: false,
            linear_between_levels: false,
            compare: false,
        }
    }

    /// Records the making of the BRDF's table, the first time only.
    pub fn ensure_brdf_lut(&mut self) -> (commands: Vec<Command>)
        ensures
            steps(commands@) == if old(self).brdf_generated {
                Seq::empty()
            } else {
                seq![brdf_step()]
            },
            *final(self) == (IblPass { brdf_generated: true, ..*old(self) }),
    {
        if self.brdf_generated {
            let none: Vec<Command> = Vec::new();
            assert(steps(none@) =~= Seq::empty());
            return none;
        }
        self.brdf_generated = true;
        let commands = vec![brdf_command()];
        assert(steps(commands@) =~= seq![brdf_step()]);
        commands
    }

    /// Whether the environment map shows other values than these.
    pub fn is_dirty(&self, key: EnvironmentKey) -> (dirty: bool)
        ensures
            dirty == !key.matches(self.last),
    {
        !(key.sun_direction.same(self.last.sun_direction) && key.sun_strength.same(
            self.last.sun_strength,
        ) && key.rayleigh_strength.same(self.last.rayleigh_strength) && key.mie_strength.same(
            self.last.mie_strength,
        ) && key.mie_anisotropy.same(self.last.mie_anisotropy))
    }

    /// The faces to render for new values, in order; none where the map is up to date.
    pub fn update_cubemap(&mut self, key: EnvironmentKey) -> (faces: Vec<PrefilterStep>)
        ensures
            key.matches(old(self).last) ==> faces@.len() == 0 && *final(self) == *old(self),
            !key.matches(old(self).last) ==> faces@ == prefilter_faces() && *final(self) == (
            IblPass { last: key, ..*old(self) }),
    {
        let mut faces: Vec<PrefilterStep> = Vec::new();
        if !self.is_dirty(key) {
            return faces;
        }
        self.last = key;
        let ghost all = prefilter_faces();
        let mut size: u32 = CUBEMAP_SIZE;
        let mut mip: u32 = 0;
        while mip < MIP_LEVELS
            invariant
                all == prefilter_faces(),
                mip <= 7,
                size == face_size_at(mip as nat),
                faces@ == all.take(6 * mip),
            decreases 7 - mip,
        {
            let mut face: u32 = 0;
            while face < 6
                invariant
                    all == prefilter_faces(),
                    mip < 7,
                    face <= 6,
                    size == face_size_at(mip as nat),
                    faces@ == all.take(6 * mip + face),
                decreases 6 - face,
            {
                faces.push(
                    PrefilterStep { face, mip_level: mip, face_size: size, max_mip: MIP_LEVELS - 1 },
                );
                let ghost k = 6 * mip + face;
                assert(k / 6 == mip && k % 6 == face);
                assert(all[k] == prefilter_face(mip as int, face as int));
                face = face + 1;
                assert(faces@ =~= all.take(6 * mip + face));
            }
            size = at_least_one(size / 2);
            mip = mip + 1;
        }
        assert(faces@ =~= all);
        faces
    }

    /// The environment map with all its faces and levels.
    pub fn env_cubemap_view(&self) -> (view: TexView)
        ensures
            view == TexView::EnvCube,
    {
        TexView::EnvCube
    }

    /// The table of the BRDF.
    pub fn brdf_lut_view(&self) -> (view: TexView)
        ensures
            view == TexView::BrdfLut,
    {
        TexView::BrdfLut
    }
}

/// The resources of every face match the layout. (The map that is read and the face that is written
/// share texels, so nothing is claimed of their being apart.)
pub proof fn prefilter_resources_match(at: PrefilterStep, sky: TexView, sky_sampler: Sampler)
    requires
        is_color_source(sky),
        sky_sampler != Sampler::ShadowCompare,
    ensures
        bound_as(
            prefilter_step(at, sky, sky_sampler)->Dispatch_groups,
            prefilter_pipeline(at.mip_level),
        ),
{
}

/// The command that makes the BRDF's table can be carried out.
pub proof fn brdf_command_is_valid()
    ensures
        valid(brdf_step()),
{
}

/// Each face of each level comes up once, and the faces of a level are half as wide as those of the
/// level before.
pub proof fn every_face_is_rendered_once(mip: int, face: int)
    requires
        0 <= mip < MIP_LEVELS,
        0 <= face < 6,
    ensures
        prefilter_faces()[6 * mip + face] == prefilter_face(mip, face),
        forall|k: int|
            0 <= k < 42 && (#[trigger] prefilter_faces()[k]).mip_level == mip
                && prefilter_faces()[k].face == face ==> k == 6 * mip + face,
        mip > 0 ==> 2 * prefilter_face(mip, face).face_size == prefilter_face(
            mip - 1,
            face,
        ).face_size,
{
    reveal_with_fuel(face_size_at, 8);
    assert((6 * mip + face) / 6 == mip && (6 * mip + face) % 6 == face);
}

/// Each face has a uniform slot to itself: no two faces share a byte of them, and all lie inside
/// the buffer, which has 10752 bytes. The command of a face binds its slot and no other.
pub proof fn faces_read_their_own_uniforms(a: int, b: int, sky: TexView, sky_sampler: Sampler)
    requires
        0 <= a < b < PREFILTER_UNIFORM_SLOTS,
    ensures
        ({
            let first = prefilter_offset(prefilter_faces()[a]);
            let second = prefilter_offset(prefilter_faces()[b]);
            &&& first % UNIFORM_ALIGN == 0
            &&& second % UNIFORM_ALIGN == 0
            &&& first + PREFILTER_UNIFORM_SIZE <= second
            &&& second + PREFILTER_UNIFORM_SIZE <= 10752
            &&& prefilter_step(
                prefilter_faces()[a],
                sky,
                sky_sampler,
            )->Dispatch_groups[0].bindings[0].resource == (Resource::Slice {
                buffer: Buffer::PrefilterUniforms,
                offset: first,
                size: PREFILTER_UNIFORM_SIZE,
            })
            &&& prefilter_step(
                prefilter_faces()[b],
                sky,
                sky_sampler,
            )->Dispatch_groups[0].bindings[0].resource == (Resource::Slice {
                buffer: Buffer::PrefilterUniforms,
                offset: second,
                size: PREFILTER_UNIFORM_SIZE,
            })
        }),
{
}

/// The textures are created as their views need them.
pub proof fn ibl_textures_fit_their_views()
    ensures
        forall|i: int| 0 <= i < 2 ==> described(#[trigger] ibl_textures()[i]),
{
}

/// The table of the BRDF has 256 by 256 texels, each with a thread.
pub proof fn brdf_table_is_filled()
    ensures
        computes(
            brdf_step(),
            Pipeline::BrdfLut,
            Layout::Brdf,
            seq![Resource::View(TexView::BrdfLut)],
            256,
            256,
        ),
        ibl_textures().len() == 2,
        has_texels(ibl_textures()[0], TexView::BrdfLut, 256, 256, TextureFormat::Rg16Float),
        ibl_textures()[1].view == TexView::EnvCube,
        ibl_textures()[1].width == 128 && ibl_textures()[1].height == 128,
        ibl_textures()[1].layers == 6 && ibl_textures()[1].mip_levels == 7,
        ibl_textures()[1].format == TextureFormat::Rgba16Float,
{
}

/// The environment is rendered level by level and face by face: the sky into the faces of the first
/// level, 128 texels wide, and each further level, half as wide, from the map.
pub proof fn environment_is_rendered_level_by_level(
    mip: int,
    face: int,
    sky: TexView,
    sky_sampler: Sampler,
)
    requires
        0 <= mip < 7,
        0 <= face < 6,
    ensures
        ({
            let at = prefilter_faces()[6 * mip + face];
            let width = 128int / pow2(mip as nat) as int;
            &&& prefilter_faces().len() == 42
            &&& at.face == face
            &&& at.mip_level == mip
            &&& at.max_mip == 6
            &&& at.face_size == width
            &&& computes(
                prefilter_step(at, sky, sky_sampler),
                if mip == 0 {
                    Pipeline::SkyToCubemap
                } else {
                    Pipeline::PrefilterMip
                },
                Layout::Prefilter,
                seq![
                    Resource::Slice {
                        buffer: Buffer::PrefilterUniforms,
                        offset: (256 * (6 * mip + face)) as u64,
                        size: 112,
                    },
                    Resource::View(sky),
                    Resource::Sampler(sky_sampler),
                    Resource::View(TexView::EnvCube),
                    Resource::Sampler(Sampler::Cubemap),
                    Resource::View(TexView::EnvFace { mip: mip as u32, face: face as u32 }),
                ],
                width,
                width,
            )
        }),
{
    reveal_with_fuel(face_size_at, 8);
    vstd::arithmetic::power2::lemma2_to64();
    assert((6 * mip + face) / 6 == mip && (6 * mip + face) % 6 == face);
    let width = 128int / pow2(mip as nat) as int;
    if mip == 0 {
        assert(width == 128int / 1int);
        assert(face_size_at(0) == 128);
    }
    if mip == 1 {
        assert(width == 128int / 2int);
        assert(face_size_at(1) == 64);
    }
    if mip == 2 {
        assert(width == 128int / 4int);
        assert(face_size_at(2) == 32);
    }
    if mip == 3 {
        assert(width == 128int / 8int);
        assert(face_size_at(3) == 16);
    }
    if mip == 4 {
        assert(width == 128int / 16int);
        assert(face_size_at(4) == 8);
    }
    if mip == 5 {
        assert(width == 128int / 32int);
        assert(face_size_at(5) == 4);
    }
    if mip == 6 {
        assert(width == 128int / 64int);
        assert(face_size_at(6) == 2);
    }
    let at = prefilter_faces()[6 * mip + face];
    assert(at == prefilter_face(mip, face));
    assert(at.face_size == width);
    assert(prefilter_offset(at) == (256 * (6 * mip + face)) as u64);
}

/// Two sets of values show the same environment exactly where every number is the same.
pub proof fn environments_differ_in_a_number(a: EnvironmentKey, b: EnvironmentKey)
    ensures
        a.matches(b) <==> a.sun_direction.x.eq_value(b.sun_direction.x)
            && a.sun_direction.y.eq_value(b.sun_direction.y) && a.sun_direction.z.eq_value(
            b.sun_direction.z,
        ) && a.sun_strength.eq_value(b.sun_strength) && a.rayleigh_strength.eq_value(
            b.rayleigh_strength,
        ) && a.mie_strength.eq_value(b.mie_strength) && a.mie_anisotropy.eq_value(
            b.mie_anisotropy,
        ),
{
}

} // verus!
