//! Bloom: bright parts of the scene are blurred over five successively halved levels and added
//! back.

use vstd::arithmetic::power2::{lemma2_to64, lemma_pow2_pos, lemma_pow2_unfold, pow2};
use vstd::prelude::*;

use crate::pipeline::gpu::{
    at_least_one, bind_sampler, bind_slice, bind_view, bound, compute_stage, computes, dispatch,
    dispatch_step, fragment_stage, fullscreen, fullscreen_step, group, groups_for, has_texels,
    overlays, sampler_entry, steps, storage_target, storage_texture_entry, texture_entry,
    uniform_buffer, uniform_entry, Binding, Buffer, BufferDesc, Command, Layout, LayoutEntry, Load,
    Pipeline, Resource, SampleType, Sampler, SamplerDesc, SamplerKind, Step, TexView, TextureDesc,
    TextureFormat, ViewDimension, UNIFORM_ALIGN,
};
use crate::pipeline::validity::{all_valid, is_color_source, is_color_target, valid};

verus! {

pub const BLOOM_LEVELS: usize = 5;

/// One slot for the threshold, four for downsampling, four for upsampling.
pub const BLOOM_UNIFORM_SLOTS: u64 = 9;

/// Three vectors of four single-precision values.
pub const BLOOM_UNIFORM_SIZE: u64 = 48;

/// A length halved so many times, never below one.
pub open spec fn halved(n: u32, times: nat) -> u32
    decreases times,
{
    if times == 0 {
        n
    } else {
        at_least_one(halved(n, (times - 1) as nat) / 2)
    }
}

/// The size of each level: the first is half the screen.
pub open spec fn level_size(width: u32, height: u32, level: int) -> (u32, u32) {
    (halved(width, (level + 1) as nat), halved(height, (level + 1) as nat))
}

pub open spec fn level_size_list(width: u32, height: u32) -> Seq<(u32, u32)> {
    Seq::new(BLOOM_LEVELS as nat, |i: int| level_size(width, height, i))
}

/// The sizes of the levels: half, quarter, eighth, sixteenth and thirty-second of the screen.
pub fn compute_level_sizes(width: u32, height: u32) -> (sizes: Vec<(u32, u32)>)
    ensures
        sizes@ == level_size_list(width, height),
{
    let mut sizes: Vec<(u32, u32)> = Vec::with_capacity(BLOOM_LEVELS);
    let mut w: u32 = width;
    let mut h: u32 = height;
    let mut i: usize = 0;
    while i < BLOOM_LEVELS
        invariant
            i <= BLOOM_LEVELS,
            w == halved(width, i as nat),
            h == halved(height, i as nat),
            sizes@ == level_size_list(width, height).take(i as int),
        decreases BLOOM_LEVELS - i,
    {
        w = at_least_one(w / 2);
        h = at_least_one(h / 2);
        sizes.push((w, h));
        i = i + 1;
        assert(sizes@ =~= level_size_list(width, height).take(i as int));
    }
    assert(sizes@ =~= level_size_list(width, height));
    sizes
}

pub open spec fn threshold_entries() -> Seq<LayoutEntry> {
    seq![
        uniform_entry(0, compute_stage(), BLOOM_UNIFORM_SIZE),
        texture_entry(1, compute_stage(), SampleType::UnfilterableFloat, ViewDimension::D2),
        storage_texture_entry(2, TextureFormat::Rgba16Float, ViewDimension::D2),
    ]
}

/// Uniforms, the scene, and the first level to write.
pub fn threshold_layout() -> (entries: Vec<LayoutEntry>)
    ensures
        entries@ == threshold_entries(),
{
    vec![
        uniform_entry(0, compute_stage(), BLOOM_UNIFORM_SIZE),
        texture_entry(1, compute_stage(), SampleType::UnfilterableFloat, ViewDimension::D2),
        storage_texture_entry(2, TextureFormat::Rgba16Float, ViewDimension::D2),
    ]
}

pub open spec fn downsample_entries() -> Seq<LayoutEntry> {
    threshold_entries()
}

/// Uniforms, the larger level, and the smaller level to write.
pub fn downsample_layout() -> (entries: Vec<LayoutEntry>)
    ensures
        entries@ == downsample_entries(),
{
    threshold_layout()
}

pub open spec fn upsample_entries() -> Seq<LayoutEntry> {
    seq![
        uniform_entry(0, compute_stage(), BLOOM_UNIFORM_SIZE),
        texture_entry(1, compute_stage(), SampleType::UnfilterableFloat, ViewDimension::D2),
        texture_entry(2, compute_stage(), SampleType::UnfilterableFloat, ViewDimension::D2),
        storage_texture_entry(3, TextureFormat::Rgba16Float, ViewDimension::D2),
    ]
}

/// Uniforms, the smaller level, the level of the same size, and the level to write.
pub fn upsample_layout() -> (entries: Vec<LayoutEntry>)
    ensures
        entries@ == upsample_entries(),
{
    vec![
        uniform_entry(0, compute_stage(), BLOOM_UNIFORM_SIZE),
        texture_entry(1, compute_stage(), SampleType::UnfilterableFloat, ViewDimension::D2),
        texture_entry(2, compute_stage(), SampleType::UnfilterableFloat, ViewDimension::D2),
        storage_texture_entry(3, TextureFormat::Rgba16Float, ViewDimension::D2),
    ]
}

pub open spec fn composite_entries() -> Seq<LayoutEntry> {
    seq![
        texture_entry(0, fragment_stage(), SampleType::FilterableFloat, ViewDimension::D2),
        sampler_entry(1, fragment_stage(), SamplerKind::Filtering),
        uniform_entry(2, fragment_stage(), 0),
    ]
}

/// The blurred light, a sampler and uniforms.
pub fn composite_layout() -> (entries: Vec<LayoutEntry>)
    ensures
        entries@ == composite_entries(),
{
    vec![
        texture_entry(0, fragment_stage(), SampleType::FilterableFloat, ViewDimension::D2),
        sampler_entry(1, fragment_stage(), SamplerKind::Filtering),
        uniform_entry(2, fragment_stage(), 0),
    ]
}

/// What one uniform slot holds, apart from the tint and the strength parameters that all share.
/// Only the threshold knows the full size.
#[derive(Clone, Copy, Debug, PartialEq, Eq, Structural)]
pub struct BloomUniformWrite {
    pub offset: u64,
    pub full_width: u32,
    pub full_height: u32,
    pub level_width: u32,
    pub level_height: u32,
}

/// The bloom pass for one screen size.
#[derive(Debug)]
pub struct BloomPass {
    level_sizes: Vec<(u32, u32)>,
}

/// The binding of a uniform slot.
pub open spec fn slot_binding(binding: u32, slot: u64) -> Binding {
    bind_slice(binding, Buffer::BloomUniforms, (UNIFORM_ALIGN * slot) as u64, BLOOM_UNIFORM_SIZE)
}

fn bind_slot(binding: u32, slot: u64) -> (b: Binding)
    requires
        slot < BLOOM_UNIFORM_SLOTS,
    ensures
        b == slot_binding(binding, slot),
{
    bind_slice(binding, Buffer::BloomUniforms, UNIFORM_ALIGN * slot, BLOOM_UNIFORM_SIZE)
}

pub open spec fn threshold_step(sizes: Seq<(u32, u32)>, scene: TexView) -> Step {
    dispatch_step(
        Pipeline::BloomThreshold,
        bound(
            Layout::BloomThreshold,
            seq![
                slot_binding(0, 0),
                bind_view(1, scene),
                bind_view(2, TexView::BloomLevel(0)),
            ],
        ),
        groups_for(sizes[0].0, 8),
        groups_for(sizes[0].1, 8),
        1,
    )
}

/// Level `i` is reduced to level `i + 1`.
pub open spec fn downsample_step(sizes: Seq<(u32, u32)>, i: int) -> Step {
    dispatch_step(
        Pipeline::BloomDownsample,
        bound(
            Layout::BloomDownsample,
            seq![
                slot_binding(0, (1 + i) as u64),
                bind_view(1, TexView::BloomLevel(i as u32)),
                bind_view(2, TexView::BloomLevel((i + 1) as u32)),
            ],
        ),
        groups_for(sizes[i + 1].0, 8),
        groups_for(sizes[i + 1].1, 8),
        1,
    )
}

/// What the upsampling to level `i` starts from: the smallest level, or what the step before wrote.
pub open spec fn upsample_source(i: int) -> TexView {
    if i == BLOOM_LEVELS - 2 {
        TexView::BloomLevel((i + 1) as u32)
    } else {
        TexView::BloomAlt((i + 1) as u32)
    }
}

/// The `k`th upsampling: to level `3 - k`, joined with what downsampling left there.
pub open spec fn upsample_step(sizes: Seq<(u32, u32)>, k: int) -> Step {
    let i = BLOOM_LEVELS - 2 - k;
    dispatch_step(
        Pipeline::BloomUpsample,
        bound(
            Layout::BloomUpsample,
            seq![
                slot_binding(0, (5 + k) as u64),
                bind_view(1, upsample_source(i)),
                bind_view(2, TexView::BloomLevel(i as u32)),
                bind_view(3, TexView::BloomAlt(i as u32)),
            ],
        ),
        groups_for(sizes[i].0, 8),
        groups_for(sizes[i].1, 8),
        1,
    )
}

pub open spec fn composite_step(target: TexView) -> Step {
    fullscreen_step(
        Pipeline::BloomComposite,
        bound(
            Layout::BloomComposite,
            seq![
                bind_view(0, TexView::BloomAlt(0)),
                bind_sampler(1, Sampler::Bloom),
                slot_binding(2, 0),
            ],
        ),
        target,
        Load::Keep,
    )
}

/// Threshold, four steps down, four steps up, and the addition to the target.
pub open spec fn bloom_steps(sizes: Seq<(u32, u32)>, scene: TexView, target: TexView) -> Seq<Step> {
    seq![threshold_step(sizes, scene)] + Seq::new(4, |i: int| downsample_step(sizes, i))
        + Seq::new(4, |k: int| upsample_step(sizes, k)) + seq![composite_step(target)]
}

/// What each slot holds.
pub open spec fn slot_contents(
    sizes: Seq<(u32, u32)>,
    full_width: u32,
    full_height: u32,
    slot: int,
) -> BloomUniformWrite {
    let level = if slot == 0 {
        0
    } else if slot < 5 {
        slot
    } else {
        8 - slot
    };
    BloomUniformWrite {
        offset: (UNIFORM_ALIGN * slot) as u64,
        full_width: if slot == 0 {
            full_width
        } else {
            0
        },
        full_height: if slot == 0 {
            full_height
        } else {
            0
        },
        level_width: sizes[level].0,
        level_height: sizes[level].1,
    }
}

/// The levels and their alternates.
pub open spec fn level_textures(sizes: Seq<(u32, u32)>) -> Seq<TextureDesc> {
    Seq::new(
        5,
        |i: int|
            storage_target(
                TexView::BloomLevel(i as u32),
                sizes[i].0,
                sizes[i].1,
                TextureFormat::Rgba16Float,
            ),
    ) + Seq::new(
        5,
        |i: int|
            storage_target(
                TexView::BloomAlt(i as u32),
                sizes[i].0,
                sizes[i].1,
                TextureFormat::Rgba16Float,
            ),
    )
}

impl BloomPass {
    /// The sizes of the five levels.
    pub closed spec fn sizes(self) -> Seq<(u32, u32)> {
        self.level_sizes@
    }

    /// There are five levels.
    pub closed spec fn wf(self) -> bool {
        self.level_sizes@.len() == BLOOM_LEVELS
    }

    pub fn new(width: u32, height: u32) -> (pass: BloomPass)
        ensures
            pass.wf(),
            pass.sizes() == level_size_list(width, height),
    {
        BloomPass { level_sizes: compute_level_sizes(width, height) }
    }

    /// The textures of the pass: the levels, then their alternates.
    pub fn textures(&self) -> (descs: Vec<TextureDesc>)
        requires
            self.wf(),
        ensures
            descs@ == level_textures(self.sizes()),
    {
        let mut descs: Vec<TextureDesc> = Vec::new();
        let mut i: usize = 0;
        while i < BLOOM_LEVELS
            invariant
                self.wf(),
                i <= 5,
                descs@ == level_textures(self.sizes()).take(i as int),
            decreases 5 - i,
        {
            let size = self.level_sizes[i];
            descs.push(
                storage_target(
                    TexView::BloomLevel(i as u32),
                    size.0,
                    size.1,
                    TextureFormat::Rgba16Float,
                ),
            );
            i = i + 1;
            assert(descs@ =~= level_textures(self.sizes()).take(i as int));
        }
        let mut j: usize = 0;
        while j < BLOOM_LEVELS
            invariant
                self.wf(),
                j <= 5,
                descs@ == level_textures(self.sizes()).take(5 + j),
            decreases 5 - j,
        {
            let size = self.level_sizes[j];
            descs.push(
                storage_target(
                    TexView::BloomAlt(j as u32),
                    size.0,
                    size.1,
                    TextureFormat::Rgba16Float,
                ),
            );
            j = j + 1;
            assert(descs@ =~= level_textures(self.sizes()).take(5 + j));
        }
        assert(descs@ =~= level_textures(self.sizes()));
        descs
    }

    /// The buffer that holds all uniform slots.
    pub fn uniforms() -> (desc: BufferDesc)
        ensures
            desc == uniform_buffer(Buffer::BloomUniforms, 2304),
    {
        uniform_buffer(Buffer::BloomUniforms, UNIFORM_ALIGN * BLOOM_UNIFORM_SLOTS)
    }

    pub fn sampler() -> (desc: SamplerDesc)
        ensures
            desc == (SamplerDesc {
                sampler: Sampler::Bloom,
                repeat_u: false,
                repeat_v: false,
                repeat_w: false,
                linear_between_levels: false,
                compare: false,
            }),
    {
        SamplerDesc {
            sampler: Sampler::Bloom,
            repeat_u: false,
            repeat_v: false,
            repeat_w: false,
            linear_between_levels: false,
            compare: false,
        }
    }

    /// The contents of every uniform slot for this frame.
    pub fn uniform_writes(&self, full_width: u32, full_height: u32) -> (writes: Vec<
        BloomUniformWrite,
    >)
        requires
            self.wf(),
        ensures
            writes@ == Seq::new(
                9,
                |slot: int| slot_contents(self.sizes(), full_width, full_height, slot),
            ),
    {
        let mut writes: Vec<BloomUniformWrite> = Vec::new();
        let ghost all = Seq::new(
            9,
            |slot: int| slot_contents(self.sizes(), full_width, full_height, slot),
        );
        let mut slot: usize = 0;
        while slot < 9
            invariant
                self.wf(),
                slot <= 9,
                all == Seq::new(
                    9,
                    |slot: int| slot_contents(self.sizes(), full_width, full_height, slot),
                ),
                writes@ == all.take(slot as int),
            decreases 9 - slot,
        {
            let level: usize = if slot == 0 {
                0
            } else if slot < 5 {
                slot
            } else {
                8 - slot
            };
            let size = self.level_sizes[level];
            writes.push(
                BloomUniformWrite {
                    offset: UNIFORM_ALIGN * slot as u64,
                    full_width: if slot == 0 {
                        full_width
                    } else {
                        0
                    },
                    full_height: if slot == 0 {
                        full_height
                    } else {
                        0
                    },
                    level_width: size.0,
                    level_height: size.1,
                },
            );
            slot = slot + 1;
            assert(writes@ =~= all.take(slot as int));
        }
        assert(writes@ =~= all);
        writes
    }

    /// Records the pass: light is taken from `scene_color` and added to `target`.
    pub fn execute(&self, scene_color: TexView, target: TexView) -> (commands: Vec<Command>)
        requires
            self.wf(),
        ensures
            steps(commands@) == bloom_steps(self.sizes(), scene_color, target),
    {
        let ghost all = bloom_steps(self.sizes(), scene_color, target);
        let mut commands: Vec<Command> = Vec::new();
        let first = self.level_sizes[0];
        commands.push(
            dispatch(
                Pipeline::BloomThreshold,
                group(
                    Layout::BloomThreshold,
                    vec![
                        bind_slot(0, 0),
                        bind_view(1, scene_color),
                        bind_view(2, TexView::BloomLevel(0)),
                    ],
                ),
                groups_for(first.0, 8),
                groups_for(first.1, 8),
                1,
            ),
        );
        assert(steps(commands@) =~= all.take(1));
        let mut i: usize = 0;
        while i < BLOOM_LEVELS - 1
            invariant
                self.wf(),
                i <= 4,
                all == bloom_steps(self.sizes(), scene_color, target),
                steps(commands@) == all.take(1 + i),
            decreases 4 - i,
        {
            let out = self.level_sizes[i + 1];
            let ghost before = commands@;
            let command = dispatch(
                Pipeline::BloomDownsample,
                group(
                    Layout::BloomDownsample,
                    vec![
                        bind_slot(0, 1 + i as u64),
                        bind_view(1, TexView::BloomLevel(i as u32)),
                        bind_view(2, TexView::BloomLevel((i + 1) as u32)),
                    ],
                ),
                groups_for(out.0, 8),
                groups_for(out.1, 8),
                1,
            );
            assert(command@ =~~= downsample_step(self.sizes(), i as int));
            commands.push(command);
            i = i + 1;
            assert(steps(commands@) =~= steps(before).push(command@));
            assert(steps(commands@) =~= all.take(1 + i));
        }
        let mut k: usize = 0;
        while k < BLOOM_LEVELS - 1
            invariant
                self.wf(),
                k <= 4,
                all == bloom_steps(self.sizes(), scene_color, target),
                steps(commands@) == all.take(5 + k),
            decreases 4 - k,
        {
            let level: usize = BLOOM_LEVELS - 2 - k;
            let out = self.level_sizes[level];
            let source = if level == BLOOM_LEVELS - 2 {
                TexView::BloomLevel((level + 1) as u32)
            } else {
                TexView::BloomAlt((level + 1) as u32)
            };
            let ghost before = commands@;
            let command = dispatch(
                Pipeline::BloomUpsample,
                group(
                    Layout::BloomUpsample,
                    vec![
                        bind_slot(0, 5 + k as u64),
                        bind_view(1, source),
                        bind_view(2, TexView::BloomLevel(level as u32)),
                        bind_view(3, TexView::BloomAlt(level as u32)),
                    ],
                ),
                groups_for(out.0, 8),
                groups_for(out.1, 8),
                1,
            );
            assert(command@ =~~= upsample_step(self.sizes(), k as int));
            commands.push(command);
            k = k + 1;
            assert(steps(commands@) =~= steps(before).push(command@));
            assert(steps(commands@) =~= all.take(5 + k));
        }
        let ghost before = commands@;
        let command = fullscreen(
            Pipeline::BloomComposite,
            group(
                Layout::BloomComposite,
                vec![
                    bind_view(0, TexView::BloomAlt(0)),
                    bind_sampler(1, Sampler::Bloom),
                    bind_slot(2, 0),
                ],
            ),
            target,
            Load::Keep,
        );
        assert(command@ =~~= composite_step(target));
        commands.push(command);
        assert(steps(commands@) =~= steps(before).push(command@));
        assert(steps(commands@) =~= all);
        commands
    }
}

/// Every command of the pass can be carried out, for any scene other than the level that the first
/// command writes.
pub proof fn bloom_commands_are_valid(sizes: Seq<(u32, u32)>, scene: TexView, target: TexView)
    requires
        is_color_source(scene),
        is_color_target(target),
        scene != TexView::BloomLevel(0),
    ensures
        all_valid(bloom_steps(sizes, scene, target)),
{
    let all = bloom_steps(sizes, scene, target);
    assert forall|i: int| 0 <= i < all.len() implies valid(#[trigger] all[i]) by {
        if i == 0 {
            assert(valid(threshold_step(sizes, scene)));
        } else if i < 5 {
            assert(all[i] == downsample_step(sizes, i - 1));
        } else if i < 9 {
            assert(all[i] == upsample_step(sizes, i - 5));
        } else {
            assert(valid(composite_step(target)));
        }
    }
}

/// The sizes of the levels are the screen's divided by powers of two, rounded down, but at least
/// one.
pub proof fn levels_divide_by_powers_of_two(n: u32, times: nat)
    ensures
        halved(n, times) == if times > 0 && (n as int) / (pow2(times) as int) == 0 {
            1
        } else {
            (n as int) / (pow2(times) as int)
        },
    decreases times,
{
    lemma_pow2_pos(times);
    if times == 0 {
        assert(pow2(0) == 1) by {
            lemma2_to64();
        }
    } else {
        let k = (times - 1) as nat;
        levels_divide_by_powers_of_two(n, k);
        lemma_pow2_pos(k);
        lemma_pow2_unfold(times);
        vstd::arithmetic::div_mod::lemma_div_denominator(n as int, pow2(k) as int, 2);
        assert(pow2(k) * 2 == pow2(times));
        vstd::arithmetic::div_mod::lemma_div_pos_is_pos(n as int, pow2(k) as int);
    }
}

/// No two uniform slots share a byte, and all lie inside the buffer.
pub proof fn uniform_slots_are_disjoint(a: int, b: int)
    requires
        0 <= a < b < BLOOM_UNIFORM_SLOTS,
    ensures
        UNIFORM_ALIGN * a + BLOOM_UNIFORM_SIZE <= UNIFORM_ALIGN * b,
        UNIFORM_ALIGN * b + BLOOM_UNIFORM_SIZE <= 2304,
{
}

/// The uniform slot that a step of the blur reads holds the size of the level that it writes, and
/// no other step of the blur reads that slot.
pub proof fn blur_steps_read_the_size_they_write(sizes: Seq<(u32, u32)>, i: int, k: int)
    requires
        0 <= i < 4,
        0 <= k < 4,
    ensures
        ({
            let down = slot_contents(sizes, 0, 0, 1 + i);
            let up = slot_contents(sizes, 0, 0, 5 + k);
            &&& downsample_step(sizes, i)->Dispatch_groups[0].bindings[0] == bind_slice(
                0,
                Buffer::BloomUniforms,
                down.offset,
                BLOOM_UNIFORM_SIZE,
            )
            &&& downsample_step(sizes, i)->Dispatch_groups[0].bindings[2] == bind_view(
                2,
                TexView::BloomLevel((i + 1) as u32),
            )
            &&& (down.level_width, down.level_height) == sizes[i + 1]
            &&& upsample_step(sizes, k)->Dispatch_groups[0].bindings[0] == bind_slice(
                0,
                Buffer::BloomUniforms,
                up.offset,
                BLOOM_UNIFORM_SIZE,
            )
            &&& upsample_step(sizes, k)->Dispatch_groups[0].bindings[3] == bind_view(
                3,
                TexView::BloomAlt((3 - k) as u32),
            )
            &&& (up.level_width, up.level_height) == sizes[3 - k]
            &&& down.offset != up.offset
        }),
{
}

/// The light flows through without a gap: each step reads what the one before it wrote, and the
/// last result is what is added to the target.
pub proof fn blur_steps_chain(sizes: Seq<(u32, u32)>, scene: TexView, target: TexView, i: int)
    requires
        0 <= i < 9,
    ensures
        written_view(bloom_steps(sizes, scene, target)[i]) == read_view(
            bloom_steps(sizes, scene, target)[i + 1],
        ),
{
    let all = bloom_steps(sizes, scene, target);
    if i < 4 {
        assert(all[i + 1] == downsample_step(sizes, i));
        if i > 0 {
            assert(all[i] == downsample_step(sizes, i - 1));
        }
    } else if i < 8 {
        assert(all[i + 1] == upsample_step(sizes, i - 4));
        if i == 4 {
            assert(all[i] == downsample_step(sizes, 3));
        } else {
            assert(all[i] == upsample_step(sizes, i - 5));
        }
    } else {
        assert(all[8] == upsample_step(sizes, 3));
        assert(all[9] == composite_step(target));
    }
}

/// The view that a step of the pass writes: the last one it binds.
pub open spec fn written_view(step: Step) -> Resource {
    step->Dispatch_groups[0].bindings.last().resource
}

/// The view that a step of the pass takes its light from.
pub open spec fn read_view(step: Step) -> Resource {
    match step {
        Step::Render { groups, .. } => groups[0].bindings[0].resource,
        _ => step->Dispatch_groups[0].bindings[1].resource,
    }
}

/// Bright light is taken from the scene into the first level, halved four times, added up again level
/// by level, and laid over the target; every texel of the level that is written has a thread.
pub proof fn bloom_spreads_over_the_levels(sizes: Seq<(u32, u32)>, scene: TexView, target: TexView)
    requires
        sizes.len() == 5,
    ensures
        ({
            let all = bloom_steps(sizes, scene, target);
            &&& all.len() == 10
            &&& computes(
                all[0],
                Pipeline::BloomThreshold,
                Layout::BloomThreshold,
                seq![
                    Resource::Slice { buffer: Buffer::BloomUniforms, offset: 0, size: 48 },
                    Resource::View(scene),
                    Resource::View(TexView::BloomLevel(0)),
                ],
                sizes[0].0 as int,
                sizes[0].1 as int,
            )
            &&& computes(
                all[1],
                Pipeline::BloomDownsample,
                Layout::BloomDownsample,
                seq![
                    Resource::Slice { buffer: Buffer::BloomUniforms, offset: 256, size: 48 },
                    Resource::View(TexView::BloomLevel(0)),
                    Resource::View(TexView::BloomLevel(1)),
                ],
                sizes[1].0 as int,
                sizes[1].1 as int,
            )
            &&& computes(
                all[2],
                Pipeline::BloomDownsample,
                Layout::BloomDownsample,
                seq![
                    Resource::Slice { buffer: Buffer::BloomUniforms, offset: 512, size: 48 },
                    Resource::View(TexView::BloomLevel(1)),
                    Resource::View(TexView::BloomLevel(2)),
                ],
                sizes[2].0 as int,
                sizes[2].1 as int,
            )
            &&& computes(
                all[3],
                Pipeline::BloomDownsample,
                Layout::BloomDownsample,
                seq![
                    Resource::Slice { buffer: Buffer::BloomUniforms, offset: 768, size: 48 },
                    Resource::View(TexView::BloomLevel(2)),
                    Resource::View(TexView::BloomLevel(3)),
                ],
                sizes[3].0 as int,
                sizes[3].1 as int,
            )
            &&& computes(
                all[4],
                Pipeline::BloomDownsample,
                Layout::BloomDownsample,
                seq![
                    Resource::Slice { buffer: Buffer::BloomUniforms, offset: 1024, size: 48 },
                    Resource::View(TexView::BloomLevel(3)),
                    Resource::View(TexView::BloomLevel(4)),
                ],
                sizes[4].0 as int,
                sizes[4].1 as int,
            )
            &&& computes(
                all[5],
                Pipeline::BloomUpsample,
                Layout::BloomUpsample,
                seq![
                    Resource::Slice { buffer: Buffer::BloomUniforms, offset: 1280, size: 48 },
                    Resource::View(TexView::BloomLevel(4)),
                    Resource::View(TexView::BloomLevel(3)),
                    Resource::View(TexView::BloomAlt(3)),
                ],
                sizes[3].0 as int,
                sizes[3].1 as int,
            )
            &&& computes(
                all[6],
                Pipeline::BloomUpsample,
                Layout::BloomUpsample,
                seq![
                    Resource::Slice { buffer: Buffer::BloomUniforms, offset: 1536, size: 48 },
                    Resource::View(TexView::BloomAlt(3)),
                    Resource::View(TexView::BloomLevel(2)),
                    Resource::View(TexView::BloomAlt(2)),
                ],
                sizes[2].0 as int,
                sizes[2].1 as int,
            )
            &&& computes(
                all[7],
                Pipeline::BloomUpsample,
                Layout::BloomUpsample,
                seq![
                    Resource::Slice { buffer: Buffer::BloomUniforms, offset: 1792, size: 48 },
                    Resource::View(TexView::BloomAlt(2)),
                    Resource::View(TexView::BloomLevel(1)),
                    Resource::View(TexView::BloomAlt(1)),
                ],
                sizes[1].0 as int,
                sizes[1].1 as int,
            )
            &&& computes(
                all[8],
                Pipeline::BloomUpsample,
                Layout::BloomUpsample,
                seq![
                    Resource::Slice { buffer: Buffer::BloomUniforms, offset: 2048, size: 48 },
                    Resource::View(TexView::BloomAlt(1)),
                    Resource::View(TexView::BloomLevel(0)),
                    Resource::View(TexView::BloomAlt(0)),
                ],
                sizes[0].0 as int,
                sizes[0].1 as int,
            )
            &&& overlays(
                all[9],
                Pipeline::BloomComposite,
                Layout::BloomComposite,
                seq![
                    Resource::View(TexView::BloomAlt(0)),
                    Resource::Sampler(Sampler::Bloom),
                    Resource::Slice { buffer: Buffer::BloomUniforms, offset: 0, size: 48 },
                ],
                target,
                Load::Keep,
            )
        }),
{
    let all = bloom_steps(sizes, scene, target);
    assert(all[0] == threshold_step(sizes, scene));
    assert(all[1] == downsample_step(sizes, 0));
    assert(all[2] == downsample_step(sizes, 1));
    assert(all[3] == downsample_step(sizes, 2));
    assert(all[4] == downsample_step(sizes, 3));
    assert(all[5] == upsample_step(sizes, 0));
    assert(all[6] == upsample_step(sizes, 1));
    assert(all[7] == upsample_step(sizes, 2));
    assert(all[8] == upsample_step(sizes, 3));
    assert(all[9] == composite_step(target));
}

/// The slots hold the size of the level that is written with them, and the first one that of the
/// screen as well.
pub proof fn bloom_slots_hold_sizes(sizes: Seq<(u32, u32)>, full_width: u32, full_height: u32, slot: int)
    requires
        0 <= slot < 9,
    ensures
        ({
            let c = slot_contents(sizes, full_width, full_height, slot);
            let level = if slot <= 4 {
                slot
            } else {
                8 - slot
            };
            &&& c.offset == 256 * slot
            &&& (c.level_width, c.level_height) == sizes[level]
            &&& slot == 0 ==> c.full_width == full_width && c.full_height == full_height
            &&& slot > 0 ==> c.full_width == 0 && c.full_height == 0
        }),
{
}

/// There are five levels: half of the screen, and each half of the one before, rounded down, never
/// below one.
pub proof fn bloom_levels_halve(width: u32, height: u32, level: int)
    requires
        0 <= level < 5,
    ensures
        ({
            let sizes = level_size_list(width, height);
            let before = if level == 0 {
                (width, height)
            } else {
                sizes[level - 1]
            };
            &&& sizes.len() == 5
            &&& sizes[level].0 == if before.0 / 2 == 0 {
                1
            } else {
                before.0 / 2
            }
            &&& sizes[level].1 == if before.1 / 2 == 0 {
                1
            } else {
                before.1 / 2
            }
        }),
{
    reveal_with_fuel(halved, 2);
}

/// A pass has five levels.
pub proof fn bloom_has_five_levels(pass: BloomPass)
    requires
        pass.wf(),
    ensures
        pass.sizes().len() == 5,
{
}

/// Each level and its alternate have the size of that level.
pub proof fn bloom_textures_have_the_sizes_of_levels(sizes: Seq<(u32, u32)>, level: u32)
    requires
        level < 5,
    ensures
        level_textures(sizes).len() == 10,
        has_texels(
            level_textures(sizes)[level as int],
            TexView::BloomLevel(level),
            sizes[level as int].0 as int,
            sizes[level as int].1 as int,
            TextureFormat::Rgba16Float,
        ),
        has_texels(
            level_textures(sizes)[5 + level],
            TexView::BloomAlt(level),
            sizes[level as int].0 as int,
            sizes[level as int].1 as int,
            TextureFormat::Rgba16Float,
        ),
{
}

} // verus!
