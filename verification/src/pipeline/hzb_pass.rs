//! The pyramid of depths: each level holds the depths of the level before at half its size.

use vstd::prelude::*;

use vstd::arithmetic::power2::pow2;

use crate::pipeline::gpu::{
    at_least_one, bind_view, bound, compute_stage, computes, dispatch, dispatch_step, group,
    groups_for, steps, storage_texture_entry, texture_entry, Command, Layout, LayoutEntry,
    Pipeline, Resource, SampleType, Step, TexView, TextureDesc, TextureDimension, TextureFormat,
    TextureUsages, ViewDimension,
};
use crate::pipeline::validity::{all_valid, described, is_depth_source, valid};

verus! {

pub open spec fn depth_copy_entries() -> Seq<LayoutEntry> {
    seq![
        texture_entry(0, compute_stage(), SampleType::Depth, ViewDimension::D2),
        storage_texture_entry(1, TextureFormat::R32Float, ViewDimension::D2),
    ]
}

/// A native depth buffer, and the level to write.
pub fn depth_copy_layout() -> (entries: Vec<LayoutEntry>)
    ensures
        entries@ == depth_copy_entries(),
{
    vec![
        texture_entry(0, compute_stage(), SampleType::Depth, ViewDimension::D2),
        storage_texture_entry(1, TextureFormat::R32Float, ViewDimension::D2),
    ]
}

pub open spec fn build_entries() -> Seq<LayoutEntry> {
    seq![
        texture_entry(0, compute_stage(), SampleType::UnfilterableFloat, ViewDimension::D2),
        storage_texture_entry(1, TextureFormat::R32Float, ViewDimension::D2),
    ]
}

/// A level to read, and the next one to write.
pub fn build_layout() -> (entries: Vec<LayoutEntry>)
    ensures
        entries@ == build_entries(),
{
    vec![
        texture_entry(0, compute_stage(), SampleType::UnfilterableFloat, ViewDimension::D2),
        storage_texture_entry(1, TextureFormat::R32Float, ViewDimension::D2),
    ]
}

/// Depth becomes the first level.
pub open spec fn depth_copy_step(depth: TexView, width: u32, height: u32) -> Step {
    dispatch_step(
        Pipeline::HzbDepthCopy,
        bound(
            Layout::HzbDepthCopy,
            seq![
                bind_view(0, depth),
                bind_view(1, TexView::Hzb(0)),
            ],
        ),
        groups_for(width, 8),
        groups_for(height, 8),
        1,
    )
}

fn depth_copy_command(depth: TexView, width: u32, height: u32) -> (c: Command)
    ensures
        c@ == depth_copy_step(depth, width, height),
{
    let c = dispatch(
        Pipeline::HzbDepthCopy,
        group(
            Layout::HzbDepthCopy,
            vec![
                bind_view(0, depth),
                bind_view(1, TexView::Hzb(0)),
            ],
        ),
        groups_for(width, 8),
        groups_for(height, 8),
        1,
    );
    assert(c@ =~~= depth_copy_step(depth, width, height));
    c
}

/// How many times `n` can be halved before it is one or less: the integral part of its logarithm.
pub open spec fn halvings(n: nat) -> nat
    decreases n,
{
    if n <= 1 {
        0
    } else {
        1 + halvings(n / 2)
    }
}

/// The number of levels for a screen.
pub open spec fn mip_count_for(width: u32, height: u32) -> u32 {
    at_least_one(
        halvings(
            (if width >= height {
                width
            } else {
                height
            }) as nat,
        ) as u32,
    )
}

/// A length at a level: halved as often, and at least one.
pub open spec fn length_at(n: u32, mip: nat) -> u32 {
    at_least_one(halved(n, mip))
}

/// `n` halved `times` times.
pub open spec fn halved(n: u32, times: nat) -> u32
    decreases times,
{
    if times == 0 {
        n
    } else {
        halved(n, (times - 1) as nat) / 2
    }
}

/// A level is made from the one before.
pub open spec fn build_step(mip: u32, mip_width: u32, mip_height: u32) -> Step {
    dispatch_step(
        Pipeline::HzbBuild,
        bound(
            Layout::HzbBuild,
            seq![
                bind_view(0, TexView::Hzb((mip - 1) as u32)),
                bind_view(1, TexView::Hzb(mip)),
            ],
        ),
        groups_for(mip_width, 8),
        groups_for(mip_height, 8),
        1,
    )
}

fn build_command(mip: u32, mip_width: u32, mip_height: u32) -> (c: Command)
    requires
        mip > 0,
    ensures
        c@ == build_step(mip, mip_width, mip_height),
{
    let c = dispatch(
        Pipeline::HzbBuild,
        group(
            Layout::HzbBuild,
            vec![
                bind_view(0, TexView::Hzb(mip - 1)),
                bind_view(1, TexView::Hzb(mip)),
            ],
        ),
        groups_for(mip_width, 8),
        groups_for(mip_height, 8),
        1,
    );
    assert(c@ =~~= build_step(mip, mip_width, mip_height));
    c
}

/// A level of the pyramid of a screen.
pub open spec fn level_step(width: u32, height: u32, mip: int) -> Step {
    build_step(mip as u32, length_at(width, mip as nat), length_at(height, mip as nat))
}

/// All levels, each from the one before.
pub open spec fn pyramid_steps(depth: TexView, width: u32, height: u32, mip_count: u32) -> Seq<
    Step,
> {
    Seq::new(
        mip_count as nat,
        |mip: int|
            if mip == 0 {
                depth_copy_step(depth, width, height)
            } else {
                level_step(width, height, mip)
            },
    )
}

/// The pyramid of depths, by which meshlets are found to be hidden.
#[derive(Clone, Copy, Debug, PartialEq, Eq, Structural)]
pub struct HzbPass {
    pub width: u32,
    pub height: u32,
    /// Zero until the pyramid has a size.
    pub mip_count: u32,
}

#[verifier::allow_in_spec]
pub fn pyramid_usage() -> TextureUsages
    returns
        (TextureUsages {
            copy_src: false,
            copy_dst: true,
            texture_binding: true,
            storage_binding: true,
            render_attachment: false,
        }),
{
    TextureUsages {
        copy_src: false,
        copy_dst: true,
        texture_binding: true,
        storage_binding: true,
        render_attachment: false,
    }
}

/// The texture with all levels.
#[verifier::allow_in_spec]
pub fn pyramid_texture(width: u32, height: u32, mip_count: u32) -> TextureDesc
    returns
        (TextureDesc {
            view: TexView::HzbFull,
            width: at_least_one(width),
            height: at_least_one(height),
            layers: 1,
            mip_levels: mip_count,
            dimension: TextureDimension::D2,
            format: TextureFormat::R32Float,
            usage: pyramid_usage(),
        }),
{
    TextureDesc {
        view: TexView::HzbFull,
        width: at_least_one(width),
        height: at_least_one(height),
        layers: 1,
        mip_levels: mip_count,
        dimension: TextureDimension::D2,
        format: TextureFormat::R32Float,
        usage: pyramid_usage(),
    }
}

impl HzbPass {
    /// A pyramid without a size, for which nothing is recorded.
    pub fn new() -> (pass: HzbPass)
        ensures
            pass == (HzbPass { width: 0, height: 0, mip_count: 0 }),
    {
        HzbPass { width: 0, height: 0, mip_count: 0 }
    }

    /// Fits the pyramid to a screen; its texture is to be created anew.
    pub fn resize(&mut self, width: u32, height: u32)
        ensures
            *final(self) == (HzbPass { width, height, mip_count: mip_count_for(width, height) }),
    {
        let longer: u32 = if width >= height {
            width
        } else {
            height
        };
        let mut n: u32 = longer;
        let mut count: u32 = 0;
        while n > 1
            invariant
                count + halvings(n as nat) == halvings(longer as nat),
                count + n <= 0x1_0000_0000,
                n == longer || count + n <= longer,
                count == 0 ==> n == longer,
                count <= longer,
            decreases n,
        {
            n = n / 2;
            count = count + 1;
        }
        self.width = width;
        self.height = height;
        self.mip_count = at_least_one(count);
    }

    /// The texture of the pyramid, once it has a size.
    pub fn texture(&self) -> (desc: Option<TextureDesc>)
        ensures
            desc == if self.mip_count == 0 {
                None
            } else {
                Some(pyramid_texture(self.width, self.height, self.mip_count))
            },
    {
        if self.mip_count == 0 {
            None
        } else {
            Some(pyramid_texture(self.width, self.height, self.mip_count))
        }
    }

    /// Records the making of the pyramid from a native depth buffer; nothing before it has a size.
    pub fn encode(&self, depth: TexView, width: u32, height: u32) -> (commands: Vec<Command>)
        ensures
            steps(commands@) == pyramid_steps(depth, width, height, self.mip_count),
    {
        let mut commands: Vec<Command> = Vec::new();
        let ghost all = pyramid_steps(depth, width, height, self.mip_count);
        if self.mip_count == 0 {
            assert(steps(commands@) =~= all);
            return commands;
        }
        commands.push(depth_copy_command(depth, width, height));
        assert(steps(commands@) =~= all.take(1));
        let mut w: u32 = width;
        let mut h: u32 = height;
        let mut mip: u32 = 1;
        while mip < self.mip_count
            invariant
                all == pyramid_steps(depth, width, height, self.mip_count),
                1 <= mip <= self.mip_count,
                w == halved(width, (mip - 1) as nat),
                h == halved(height, (mip - 1) as nat),
                steps(commands@) == all.take(mip as int),
            decreases self.mip_count - mip,
        {
            w = w / 2;
            h = h / 2;
            let ghost before = steps(commands@);
            commands.push(build_command(mip, at_least_one(w), at_least_one(h)));
            assert(steps(commands@) =~= before.push(all[mip as int]));
            mip = mip + 1;
            assert(steps(commands@) =~= all.take(mip as int));
        }
        assert(steps(commands@) =~= all);
        commands
    }
}

/// Every command can be carried out, and each level is made from the one that was made before it.
pub proof fn pyramid_commands_are_valid(depth: TexView, width: u32, height: u32, mip_count: u32)
    requires
        is_depth_source(depth),
    ensures
        all_valid(pyramid_steps(depth, width, height, mip_count)),
        forall|mip: int|
            1 <= mip < mip_count ==> (#[trigger] pyramid_steps(
                depth,
                width,
                height,
                mip_count,
            )[mip])->Dispatch_groups[0].bindings[0].resource == pyramid_steps(
                depth,
                width,
                height,
                mip_count,
            )[mip - 1]->Dispatch_groups[0].bindings[1].resource,
{
    let all = pyramid_steps(depth, width, height, mip_count);
    assert forall|mip: int| 0 <= mip < all.len() implies valid(#[trigger] all[mip]) by {
        if mip == 0 {
            assert(valid(depth_copy_step(depth, width, height)));
        } else {
            assert(valid(level_step(width, height, mip)));
        }
    }
}

/// The texture is created as its view needs it.
pub proof fn pyramid_texture_fits_its_view(width: u32, height: u32)
    ensures
        described(pyramid_texture(width, height, mip_count_for(width, height))),
{
}

/// The number of levels is exact: the longer side holds that many halvings and not one more.
pub proof fn levels_reach_one_texel(width: u32, height: u32)
    requires
        width > 1 || height > 1,
    ensures
        pow2(mip_count_for(width, height) as nat) <= if width >= height {
            width
        } else {
            height
        },
        (if width >= height {
            width
        } else {
            height
        }) < pow2((mip_count_for(width, height) + 1) as nat),
        mip_count_for(width, height) <= 31,
{
    let longer: nat = (if width >= height {
        width
    } else {
        height
    }) as nat;
    lemma_halvings(longer);
    vstd::arithmetic::power2::lemma2_to64();
    if halvings(longer) > 32 {
        vstd::arithmetic::power2::lemma_pow2_strictly_increases(32, halvings(longer));
    }
}

proof fn lemma_halvings(n: nat)
    requires
        n >= 1,
    ensures
        pow2(halvings(n)) <= n < pow2(halvings(n) + 1),
    decreases n,
{
    vstd::arithmetic::power2::lemma2_to64();
    if n > 1 {
        lemma_halvings(n / 2);
        vstd::arithmetic::power2::lemma_pow2_unfold(halvings(n));
        vstd::arithmetic::power2::lemma_pow2_unfold(halvings(n) + 1);
    }
}

/// The pyramid starts from the depth, and each further level is made from the one before it, with a
/// thread for every texel: the sides halve, rounded down, never below one.
pub proof fn pyramid_levels_follow_each_other(
    depth: TexView,
    width: u32,
    height: u32,
    mip_count: u32,
    mip: u32,
)
    requires
        mip < mip_count,
    ensures
        ({
            let all = pyramid_steps(depth, width, height, mip_count);
            let w = width as int / pow2(mip as nat) as int;
            let h = height as int / pow2(mip as nat) as int;
            &&& all.len() == mip_count
            &&& mip == 0 ==> computes(
                all[0],
                Pipeline::HzbDepthCopy,
                Layout::HzbDepthCopy,
                seq![Resource::View(depth), Resource::View(TexView::Hzb(0))],
                width as int,
                height as int,
            )
            &&& mip > 0 ==> computes(
                all[mip as int],
                Pipeline::HzbBuild,
                Layout::HzbBuild,
                seq![
                    Resource::View(TexView::Hzb((mip - 1) as u32)),
                    Resource::View(TexView::Hzb(mip)),
                ],
                if w == 0 {
                    1
                } else {
                    w
                },
                if h == 0 {
                    1
                } else {
                    h
                },
            )
        }),
{
    lemma_halved(width, mip as nat);
    lemma_halved(height, mip as nat);
    let all = pyramid_steps(depth, width, height, mip_count);
    if mip > 0 {
        assert(all[mip as int] == level_step(width, height, mip as int));
    }
}

proof fn lemma_halved(n: u32, times: nat)
    ensures
        halved(n, times) == n as int / pow2(times) as int,
    decreases times,
{
    vstd::arithmetic::power2::lemma2_to64();
    if times == 0 {
        assert(n as int / 1 == n as int);
    } else {
        let k = (times - 1) as nat;
        let p = pow2(k) as int;
        lemma_halved(n, k);
        vstd::arithmetic::power2::lemma_pow2_unfold(times);
        vstd::arithmetic::power2::lemma_pow2_pos(k);
        vstd::arithmetic::div_mod::lemma_div_denominator(n as int, p, 2);
        assert((n as int / p) / 2 == n as int / (p * 2));
        assert(p * 2 == pow2(times) as int);
        assert(halved(n, times) == halved(n, k) / 2);
    }
}

/// The pyramid starts at the size of the screen, and has a level for every halving.
pub proof fn pyramid_starts_at_the_screen(width: u32, height: u32, mip_count: u32)
    ensures
        pyramid_texture(width, height, mip_count).view == TexView::HzbFull,
        width > 0 ==> pyramid_texture(width, height, mip_count).width == width,
        height > 0 ==> pyramid_texture(width, height, mip_count).height == height,
        pyramid_texture(width, height, mip_count).mip_levels == mip_count,
        pyramid_texture(width, height, mip_count).format == TextureFormat::R32Float,
{
}

} // verus!
