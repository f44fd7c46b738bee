//! Tables of the atmosphere: transmittance, multiple scattering, and the sky itself. They are made
//! again only where a parameter changes.

use vstd::prelude::*;

use crate::pipeline::gpu::{
    bind_buffer, bind_view, bound, compute_stage, computes, dispatch, dispatch_step, group,
    groups_for, has_texels, steps, storage_target, storage_texture_entry, texture_entry,
    uniform_buffer, uniform_entry, Buffer, BufferDesc, Command, Layout, LayoutEntry, Pipeline,
    Resource, SampleType, Sampler, SamplerDesc, Step, TexView, TextureDesc, TextureFormat,
    ViewDimension,
};
use crate::pipeline::validity::{all_valid, described, valid};
use crate::scalar::{zero, Scalar};
use crate::scene::bounds::Vec3;

verus! {

pub const TRANSMITTANCE_W: u32 = 256;

pub const TRANSMITTANCE_H: u32 = 64;

pub const MULTISCATTER_W: u32 = 32;

pub const MULTISCATTER_H: u32 = 32;

pub const SKY_VIEW_W: u32 = 192;

pub const SKY_VIEW_H: u32 = 108;

/// Three vectors.
pub const SKY_LUT_UNIFORM_SIZE: u64 = 48;

pub open spec fn sky_lut_entries() -> Seq<LayoutEntry> {
    seq![
        uniform_entry(0, compute_stage(), 0),
        texture_entry(1, compute_stage(), SampleType::UnfilterableFloat, ViewDimension::D2),
        texture_entry(2, compute_stage(), SampleType::UnfilterableFloat, ViewDimension::D2),
        storage_texture_entry(3, TextureFormat::Rgba16Float, ViewDimension::D2),
    ]
}

/// Uniforms, the two tables that may be read, and the table to write.
pub fn sky_lut_layout() -> (entries: Vec<LayoutEntry>)
    ensures
        entries@ == sky_lut_entries(),
{
    vec![
        uniform_entry(0, compute_stage(), 0),
        texture_entry(1, compute_stage(), SampleType::UnfilterableFloat, ViewDimension::D2),
        texture_entry(2, compute_stage(), SampleType::UnfilterableFloat, ViewDimension::D2),
        storage_texture_entry(3, TextureFormat::Rgba16Float, ViewDimension::D2),
    ]
}

/// How much light reaches each height: needs no other table.
pub open spec fn transmittance_step() -> Step {
    dispatch_step(
        Pipeline::SkyTransmittance,
        bound(
            Layout::SkyLut,
            seq![
                bind_buffer(0, Buffer::SkyLutUniforms),
                bind_view(1, TexView::SkyDummy),
                bind_view(2, TexView::SkyDummy),
                bind_view(3, TexView::SkyTransmittance),
            ],
        ),
        groups_for(TRANSMITTANCE_W, 8),
        groups_for(TRANSMITTANCE_H, 8),
        1,
    )
}

fn transmittance_command() -> (c: Command)
    ensures
        c@ == transmittance_step(),
{
    let c = dispatch(
        Pipeline::SkyTransmittance,
        group(
            Layout::SkyLut,
            vec![
                bind_buffer(0, Buffer::SkyLutUniforms),
                bind_view(1, TexView::SkyDummy),
                bind_view(2, TexView::SkyDummy),
                bind_view(3, TexView::SkyTransmittance),
            ],
        ),
        groups_for(TRANSMITTANCE_W, 8),
        groups_for(TRANSMITTANCE_H, 8),
        1,
    );
    assert(c@ =~~= transmittance_step());
    c
}

/// Light scattered more than once: needs the transmittance.
pub open spec fn multiscatter_step() -> Step {
    dispatch_step(
        Pipeline::SkyMultiscatter,
        bound(
            Layout::SkyLut,
            seq![
                bind_buffer(0, Buffer::SkyLutUniforms),
                bind_view(1, TexView::SkyTransmittance),
                bind_view(2, TexView::SkyDummy),
                bind_view(3, TexView::SkyMultiscatter),
            ],
        ),
        groups_for(MULTISCATTER_W, 8),
        groups_for(MULTISCATTER_H, 8),
        1,
    )
}

fn multiscatter_command() -> (c: Command)
    ensures
        c@ == multiscatter_step(),
{
    let c = dispatch(
        Pipeline::SkyMultiscatter,
        group(
            Layout::SkyLut,
            vec![
                bind_buffer(0, Buffer::SkyLutUniforms),
                bind_view(1, TexView::SkyTransmittance),
                bind_view(2, TexView::SkyDummy),
                bind_view(3, TexView::SkyMultiscatter),
            ],
        ),
        groups_for(MULTISCATTER_W, 8),
        groups_for(MULTISCATTER_H, 8),
        1,
    );
    assert(c@ =~~= multiscatter_step());
    c
}

/// The sky in every direction: needs both other tables.
pub open spec fn sky_view_step() -> Step {
    dispatch_step(
        Pipeline::SkyView,
        bound(
            Layout::SkyLut,
            seq![
                bind_buffer(0, Buffer::SkyLutUniforms),
                bind_view(1, TexView::SkyTransmittance),
                bind_view(2, TexView::SkyMultiscatter),
                bind_view(3, TexView::SkyView),
            ],
        ),
        groups_for(SKY_VIEW_W, 8),
        groups_for(SKY_VIEW_H, 8),
        1,
    )
}

fn sky_view_command() -> (c: Command)
    ensures
        c@ == sky_view_step(),
{
    let c = dispatch(
        Pipeline::SkyView,
        group(
            Layout::SkyLut,
            vec![
                bind_buffer(0, Buffer::SkyLutUniforms),
                bind_view(1, TexView::SkyTransmittance),
                bind_view(2, TexView::SkyMultiscatter),
                bind_view(3, TexView::SkyView),
            ],
        ),
        groups_for(SKY_VIEW_W, 8),
        groups_for(SKY_VIEW_H, 8),
        1,
    );
    assert(c@ =~~= sky_view_step());
    c
}

/// What the tables depend on.
#[derive(Clone, Copy, Debug, PartialEq, Eq, Structural)]
pub struct AtmosphereKey {
    /// The direction of the sun, of length one.
    pub sun_direction: Vec3,
    pub rayleigh_strength: Scalar,
    pub mie_strength: Scalar,
    pub mie_anisotropy: Scalar,
}

impl AtmosphereKey {
    /// All values are the same numbers.
    pub open spec fn matches(self, other: AtmosphereKey) -> bool {
        &&& self.sun_direction.matches(other.sun_direction)
        &&& self.rayleigh_strength.eq_value(other.rayleigh_strength)
        &&& self.mie_strength.eq_value(other.mie_strength)
        &&& self.mie_anisotropy.eq_value(other.mie_anisotropy)
    }

    fn same(self, other: AtmosphereKey) -> (r: bool)
        ensures
            r == self.matches(other),
    {
        self.sun_direction.same(other.sun_direction) && self.rayleigh_strength.same(
            other.rayleigh_strength,
        ) && self.mie_strength.same(other.mie_strength) && self.mie_anisotropy.same(
            other.mie_anisotropy,
        )
    }
}

/// The tables of the atmosphere, and what they were made for.
#[derive(Clone, Copy, Debug, PartialEq, Eq, Structural)]
pub struct SkyLutPass {
    pub cached: AtmosphereKey,
    /// The tables do not show the cached values yet.
    pub dirty: bool,
}

pub open spec fn sky_lut_textures() -> Seq<TextureDesc> {
    seq![
        storage_target(
            TexView::SkyTransmittance,
            TRANSMITTANCE_W,
            TRANSMITTANCE_H,
            TextureFormat::Rgba16Float,
        ),
        storage_target(
            TexView::SkyMultiscatter,
            MULTISCATTER_W,
            MULTISCATTER_H,
            TextureFormat::Rgba16Float,
        ),
        storage_target(TexView::SkyView, SKY_VIEW_W, SKY_VIEW_H, TextureFormat::Rgba16Float),
        storage_target(TexView::SkyDummy, 1, 1, TextureFormat::Rgba16Float),
    ]
}

pub open spec fn sky_lut_steps() -> Seq<Step> {
    seq![transmittance_step(), multiscatter_step(), sky_view_step()]
}

/// A pass whose tables have yet to be made.
pub open spec fn fresh_sky_pass() -> SkyLutPass {
    SkyLutPass {
        cached: AtmosphereKey {
            sun_direction: Vec3 { x: zero(), y: zero(), z: zero() },
            rayleigh_strength: zero(),
            mie_strength: zero(),
            mie_anisotropy: zero(),
        },
        dirty: true,
    }
}

impl SkyLutPass {
    /// The pass after it was given these parameters.
    pub open spec fn updated(self, key: AtmosphereKey) -> SkyLutPass {
        if key.matches(self.cached) {
            self
        } else {
            SkyLutPass { cached: key, dirty: true }
        }
    }

    /// What the pass records when it is asked for its tables.
    pub open spec fn needed_steps(self) -> Seq<Step> {
        if self.dirty {
            sky_lut_steps()
        } else {
            Seq::empty()
        }
    }

    /// The pass after it was asked for its tables.
    pub open spec fn generated(self) -> SkyLutPass {
        SkyLutPass { dirty: false, ..self }
    }

    /// A pass whose tables have yet to be made.
    pub fn new() -> (pass: SkyLutPass)
        ensures
            pass == fresh_sky_pass(),
    {
        let z = Scalar::from_bits(0);
        SkyLutPass {
            cached: AtmosphereKey {
                sun_direction: Vec3::splat(z),
                rayleigh_strength: z,
                mie_strength: z,
                mie_anisotropy: z,
            },
            dirty: true,
        }
    }

    /// The three tables, and a texel for slots that a step does not use.
    pub fn textures() -> (descs: Vec<TextureDesc>)
        ensures
            descs@ == sky_lut_textures(),
    {
        vec![
            storage_target(
                TexView::SkyTransmittance,
                TRANSMITTANCE_W,
                TRANSMITTANCE_H,
                TextureFormat::Rgba16Float,
            ),
            storage_target(
                TexView::SkyMultiscatter,
                MULTISCATTER_W,
                MULTISCATTER_H,
                TextureFormat::Rgba16Float,
            ),
            storage_target(TexView::SkyView, SKY_VIEW_W, SKY_VIEW_H, TextureFormat::Rgba16Float),
            storage_target(TexView::SkyDummy, 1, 1, TextureFormat::Rgba16Float),
        ]
    }

    pub fn uniforms() -> (desc: BufferDesc)
        ensures
            desc == uniform_buffer(Buffer::SkyLutUniforms, SKY_LUT_UNIFORM_SIZE),
    {
        uniform_buffer(Buffer::SkyLutUniforms, SKY_LUT_UNIFORM_SIZE)
    }

    /// The sampler of the tables. The azimuth wraps around.
    pub fn lut_sampler() -> (desc: SamplerDesc)
        ensures
            desc == (SamplerDesc {
                sampler: Sampler::SkyLut,
                repeat_u: true,
                repeat_v: false,
                repeat_w: false,
                linear_between_levels: false,
                compare: false,
            }),
    {
        SamplerDesc {
            sampler: Sampler::SkyLut,
            repeat_u: true,
            repeat_v: false,
            repeat_w: false,
            linear_between_levels: false,
            compare: false,
        }
    }

    /// Takes the parameters of the atmosphere. The tables are marked for renewal where any of them
    /// is not the number that it was.
    pub fn update(&mut self, key: AtmosphereKey)
        ensures
            *final(self) == old(self).updated(key),
    {
        if !key.same(self.cached) {
            self.cached = key;
            self.dirty = true;
        }
    }

    /// Records the making of the tables, unless they are up to date.
    pub fn generate_if_dirty(&mut self) -> (commands: Vec<Command>)
        ensures
            steps(commands@) == old(self).needed_steps(),
            *final(self) == old(self).generated(),
    {
        if !self.dirty {
            let none: Vec<Command> = Vec::new();
            assert(steps(none@) =~= Seq::empty());
            return none;
        }
        self.dirty = false;
        let commands = vec![transmittance_command(), multiscatter_command(), sky_view_command()];
        assert(steps(commands@) =~= sky_lut_steps());
        commands
    }
}

/// Every command can be carried out, and each table is written before it is read.
pub proof fn sky_lut_commands_are_valid()
    ensures
        all_valid(sky_lut_steps()),
        sky_lut_steps()[0]->Dispatch_groups[0].bindings[3].resource
            == sky_lut_steps()[1]->Dispatch_groups[0].bindings[1].resource,
        sky_lut_steps()[0]->Dispatch_groups[0].bindings[3].resource
            == sky_lut_steps()[2]->Dispatch_groups[0].bindings[1].resource,
        sky_lut_steps()[1]->Dispatch_groups[0].bindings[3].resource
            == sky_lut_steps()[2]->Dispatch_groups[0].bindings[2].resource,
{
    assert(valid(transmittance_step()));
    assert(valid(multiscatter_step()));
    assert(valid(sky_view_step()));
}

/// Parameters that are numbers count as unchanged when they are given again; a NaN never does.
pub proof fn unchanged_parameters_keep_the_tables(key: AtmosphereKey)
    ensures
        key.matches(key) <==> !key.sun_direction.x.is_nan() && !key.sun_direction.y.is_nan()
            && !key.sun_direction.z.is_nan() && !key.rayleigh_strength.is_nan()
            && !key.mie_strength.is_nan() && !key.mie_anisotropy.is_nan(),
{
}

/// What a host asks of the pass.
pub enum SkyCall {
    /// `update` with these parameters.
    Update { key: AtmosphereKey },
    /// `generate_if_dirty`.
    Generate,
}

/// The pass after these calls on a new one.
pub open spec fn sky_pass_after(calls: Seq<SkyCall>) -> SkyLutPass
    decreases calls.len(),
{
    if calls.len() == 0 {
        fresh_sky_pass()
    } else {
        match calls.last() {
            SkyCall::Update { key } => sky_pass_after(calls.drop_last()).updated(key),
            SkyCall::Generate => sky_pass_after(calls.drop_last()).generated(),
        }
    }
}

/// Call `i` gives parameters that are not the numbers that the pass held just before it.
pub open spec fn changes_the_sky(calls: Seq<SkyCall>, i: int) -> bool {
    calls[i] matches SkyCall::Update { key } && !key.matches(sky_pass_after(calls.take(i)).cached)
}

/// Call `i` asks for the tables and has them made.
pub open spec fn makes_tables(calls: Seq<SkyCall>, i: int) -> bool {
    calls[i] is Generate && sky_pass_after(calls.take(i)).needed_steps() == sky_lut_steps()
}

proof fn lemma_needed_steps(pass: SkyLutPass)
    ensures
        pass.dirty <==> pass.needed_steps() == sky_lut_steps(),
        !pass.dirty <==> pass.needed_steps().len() == 0,
{
    assert(sky_lut_steps().len() == 3);
}

proof fn lemma_dirty_after(calls: Seq<SkyCall>)
    ensures
        sky_pass_after(calls).dirty <==> forall|g: int|
            0 <= g < calls.len() && #[trigger] makes_tables(calls, g) ==> exists|u: int|
                g < u < calls.len() && #[trigger] changes_the_sky(calls, u),
    decreases calls.len(),
{
    if calls.len() > 0 {
        let rest = calls.drop_last();
        let n = rest.len() as int;
        lemma_dirty_after(rest);
        lemma_needed_steps(sky_pass_after(rest));
        assert(calls.take(n) =~= rest);
        assert forall|i: int| 0 <= i < n implies makes_tables(calls, i) == makes_tables(rest, i)
            && changes_the_sky(calls, i) == changes_the_sky(rest, i) by {
            assert(calls.take(i) =~= rest.take(i));
        }
        if changes_the_sky(calls, n) {
        } else if makes_tables(calls, n) {
        } else if sky_pass_after(rest).dirty {
            assert forall|g: int| 0 <= g < n + 1 && makes_tables(calls, g) implies exists|u: int|
                g < u < n + 1 && #[trigger] changes_the_sky(calls, u) by {
                assert(makes_tables(rest, g));
                let u = choose|u: int| g < u < n && #[trigger] changes_the_sky(rest, u);
                assert(changes_the_sky(calls, u));
            }
        } else {
            let g = choose|g: int|
                0 <= g < n && #[trigger] makes_tables(rest, g) && !exists|u: int|
                    g < u < n && #[trigger] changes_the_sky(rest, u);
            assert(makes_tables(calls, g));
        }
    }
}

/// Whatever was asked of the pass before, call `n` has the tables made exactly where it asks for
/// them and either no call before it did, or since the last one that did some update gave other
/// numbers than those held just before it. Where it does not have them made it records nothing. So
/// the tables are made once, however often they are asked for without an update in between.
pub proof fn tables_are_made_where_parameters_changed(calls: Seq<SkyCall>, n: int)
    requires
        0 <= n < calls.len(),
        calls[n] is Generate,
    ensures
        makes_tables(calls, n) <==> forall|g: int|
            0 <= g < n && #[trigger] makes_tables(calls, g) ==> exists|u: int|
                g < u < n && #[trigger] changes_the_sky(calls, u),
        !makes_tables(calls, n) ==> sky_pass_after(calls.take(n)).needed_steps().len() == 0,
        (exists|g: int|
            0 <= g < n && (#[trigger] calls[g]) is Generate && forall|i: int|
                g < i < n ==> !((#[trigger] calls[i]) is Update)) ==> !makes_tables(calls, n),
{
    let before = calls.take(n);
    lemma_dirty_after(before);
    lemma_needed_steps(sky_pass_after(before));
    assert forall|i: int| 0 <= i < n implies makes_tables(calls, i) == makes_tables(before, i)
        && changes_the_sky(calls, i) == changes_the_sky(before, i) by {
        assert(calls.take(i) =~= before.take(i));
    }
    if makes_tables(calls, n) {
        assert forall|g: int| 0 <= g < n && makes_tables(calls, g) implies exists|u: int|
            g < u < n && #[trigger] changes_the_sky(calls, u) by {
            assert(makes_tables(before, g));
            let u = choose|u: int| g < u < n && #[trigger] changes_the_sky(before, u);
            assert(changes_the_sky(calls, u));
        }
        if exists|g: int|
            0 <= g < n && (#[trigger] calls[g]) is Generate && forall|i: int|
                g < i < n ==> !((#[trigger] calls[i]) is Update) {
            let g = choose|g: int|
                0 <= g < n && (#[trigger] calls[g]) is Generate && forall|i: int|
                    g < i < n ==> !((#[trigger] calls[i]) is Update);
            lemma_clean_without_updates(calls, g, n);
        }
    } else {
        let g = choose|g: int|
            0 <= g < n && #[trigger] makes_tables(before, g) && !exists|u: int|
                g < u < n && #[trigger] changes_the_sky(before, u);
        assert(makes_tables(calls, g));
        assert forall|u: int| g < u < n implies !#[trigger] changes_the_sky(calls, u) by {
            assert(!changes_the_sky(before, u));
        }
    }
}

proof fn lemma_clean_without_updates(calls: Seq<SkyCall>, g: int, n: int)
    requires
        0 <= g < n <= calls.len(),
        calls[g] is Generate,
        forall|i: int| g < i < n ==> !((#[trigger] calls[i]) is Update),
    ensures
        !sky_pass_after(calls.take(n)).dirty,
    decreases n,
{
    assert(calls.take(n).drop_last() =~= calls.take(n - 1));
    assert(calls.take(n).last() == calls[n - 1]);
    if n > g + 1 {
        lemma_clean_without_updates(calls, g, n - 1);
    }
}

/// The textures are created as their views need them.
pub proof fn sky_lut_textures_fit_their_views()
    ensures
        forall|i: int| 0 <= i < 4 ==> described(#[trigger] sky_lut_textures()[i]),
{
}

/// The tables are made in turn: the transmittance from the parameters alone, the scattering from the
/// transmittance, the sky from both.
pub proof fn sky_tables_build_on_each_other()
    ensures
        ({
            let all = sky_lut_steps();
            &&& all.len() == 3
            &&& computes(
                all[0],
                Pipeline::SkyTransmittance,
                Layout::SkyLut,
                seq![
                    Resource::Buffer(Buffer::SkyLutUniforms),
                    Resource::View(TexView::SkyDummy),
                    Resource::View(TexView::SkyDummy),
                    Resource::View(TexView::SkyTransmittance),
                ],
                256,
                64,
            )
            &&& computes(
                all[1],
                Pipeline::SkyMultiscatter,
                Layout::SkyLut,
                seq![
                    Resource::Buffer(Buffer::SkyLutUniforms),
                    Resource::View(TexView::SkyTransmittance),
                    Resource::View(TexView::SkyDummy),
                    Resource::View(TexView::SkyMultiscatter),
                ],
                32,
                32,
            )
            &&& computes(
                all[2],
                Pipeline::SkyView,
                Layout::SkyLut,
                seq![
                    Resource::Buffer(Buffer::SkyLutUniforms),
                    Resource::View(TexView::SkyTransmittance),
                    Resource::View(TexView::SkyMultiscatter),
                    Resource::View(TexView::SkyView),
                ],
                192,
                108,
            )
        }),
{
}

/// Parameters that are the numbers held before change nothing; any others are held from then on and
/// ask for new tables. Tables are made exactly where they are asked for, and then no longer.
pub proof fn new_parameters_ask_for_tables(pass: SkyLutPass, key: AtmosphereKey)
    ensures
        ({
            let same = key.sun_direction.x.eq_value(pass.cached.sun_direction.x)
                && key.sun_direction.y.eq_value(pass.cached.sun_direction.y)
                && key.sun_direction.z.eq_value(pass.cached.sun_direction.z)
                && key.rayleigh_strength.eq_value(pass.cached.rayleigh_strength)
                && key.mie_strength.eq_value(pass.cached.mie_strength)
                && key.mie_anisotropy.eq_value(pass.cached.mie_anisotropy);
            &&& same ==> pass.updated(key) == pass
            &&& !same ==> pass.updated(key).cached == key && pass.updated(key).dirty
        }),
        pass.dirty ==> pass.needed_steps().len() == 3,
        !pass.dirty ==> pass.needed_steps().len() == 0,
        !pass.generated().dirty,
        pass.generated().cached == pass.cached,
        fresh_sky_pass().dirty,
{
}

/// The tables of the sky are as large as they are filled.
pub proof fn sky_tables_have_their_sizes()
    ensures
        sky_lut_textures().len() == 4,
        has_texels(
            sky_lut_textures()[0],
            TexView::SkyTransmittance,
            256,
            64,
            TextureFormat::Rgba16Float,
        ),
        has_texels(
            sky_lut_textures()[1],
            TexView::SkyMultiscatter,
            32,
            32,
            TextureFormat::Rgba16Float,
        ),
        has_texels(
            sky_lut_textures()[2],
            TexView::SkyView,
            192,
            108,
            TextureFormat::Rgba16Float,
        ),
        has_texels(
            sky_lut_textures()[3],
            TexView::SkyDummy,
            1,
            1,
            TextureFormat::Rgba16Float,
        ),
{
}

} // verus!
