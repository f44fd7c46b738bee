//! Rendering of the shadow map.

use vstd::prelude::*;

use crate::pipeline::gpu::{
    bind_slice, binds, bound, group, groups_cover_exactly, groups_for, steps, uniform_buffer,
    vertex_fragment_stages, Attachment, BindGroup, BindingType, Buffer, BufferDesc, Command, Draw,
    GroupContents, Layout, LayoutEntry, Load, Pipeline, Resource, Step, TexView,
};
use crate::pipeline::upload::{holds_words, puts_all, words_at, Upload, Write};
use crate::pipeline::validity::all_valid;
use crate::scalar::Mat4;
use crate::scene::lighting::{matrix_at, matrix_words, push_matrix};
use crate::scene::shadow::NUM_CASCADES;

verus! {

/// The bytes of a cascade's matrix.
pub const CASCADE_UNIFORM_SIZE: u64 = 64;

pub open spec fn cascade_entries() -> Seq<LayoutEntry> {
    seq![
        LayoutEntry {
            binding: 0,
            stages: vertex_fragment_stages(),
            ty: BindingType::Uniform { dynamic_offset: true, min_size: CASCADE_UNIFORM_SIZE },
        },
    ]
}

/// The matrix of one cascade, found by a dynamic offset.
pub fn cascade_layout() -> (entries: Vec<LayoutEntry>)
    ensures
        entries@ == cascade_entries(),
{
    vec![
        LayoutEntry {
            binding: 0,
            stages: vertex_fragment_stages(),
            ty: BindingType::Uniform { dynamic_offset: true, min_size: CASCADE_UNIFORM_SIZE },
        },
    ]
}

/// The matrix at the offset that the pass gives.
pub open spec fn cascade_group() -> GroupContents {
    bound(
        Layout::ShadowCascade,
        seq![
            bind_slice(0, Buffer::ShadowUniforms, 0, CASCADE_UNIFORM_SIZE),
        ],
    )
}

/// The least multiple of the device's alignment that holds a matrix.
pub open spec fn slot_stride(min_align: u32) -> u32 {
    (groups_for(64, min_align) * min_align) as u32
}

/// One cascade: every listed mesh is drawn into its layer, which starts afresh.
pub open spec fn cascade_step(stride: u32, cascade: int, list: Seq<usize>) -> Step {
    Step::Render {
        pipeline: Pipeline::Shadow,
        groups: seq![cascade_group()],
        offset: (stride * cascade) as u32,
        color: None,
        depth: Some(Attachment { view: TexView::ShadowCascade(cascade as u32), load: Load::Clear }),
        draws: list.map_values(|i: usize| Draw::ShadowMesh(i)),
    }
}

pub open spec fn shadow_steps(stride: u32, list: Seq<usize>) -> Seq<Step> {
    Seq::new(4, |cascade: int| cascade_step(stride, cascade, list))
}

/// What goes into a cascade's slot.
pub open spec fn cascade_write(stride: u32, cascade: int, light_vp: Mat4) -> Write {
    Write {
        buffer: Buffer::ShadowUniforms,
        offset: (stride * cascade) as u64,
        words: matrix_words(light_vp),
    }
}

/// What goes into all slots.
pub open spec fn cascade_writes(stride: u32, light_vps: Seq<Mat4>) -> Seq<Write> {
    Seq::new(4, |i: int| cascade_write(stride, i, light_vps[i]))
}

/// Depth from the sun, cascade by cascade.
#[derive(Clone, Copy, Debug, PartialEq, Eq, Structural)]
pub struct ShadowPass {
    /// The distance between the slots of two cascades.
    pub dyn_alignment: u32,
}

impl ShadowPass {
    /// The offsets of all slots fit.
    pub open spec fn well_formed(self) -> bool {
        &&& self.dyn_alignment >= CASCADE_UNIFORM_SIZE
        &&& self.dyn_alignment * 3 <= u32::MAX
    }

    /// The pass for a device that aligns uniform offsets to `min_align`.
    pub fn new(min_align: u32) -> (pass: ShadowPass)
        requires
            0 < min_align,
            min_align * 3 <= u32::MAX,
        ensures
            pass.dyn_alignment == slot_stride(min_align),
            pass.well_formed(),
    {
        proof {
            lemma_stride(min_align);
        }
        ShadowPass { dyn_alignment: groups_for(64, min_align) * min_align }
    }

    pub fn uniform_desc(&self) -> (desc: BufferDesc)
        requires
            self.well_formed(),
        ensures
            desc == uniform_buffer(Buffer::ShadowUniforms, (self.dyn_alignment * 4) as u64),
    {
        uniform_buffer(Buffer::ShadowUniforms, self.dyn_alignment as u64 * NUM_CASCADES as u64)
    }

    /// The group that all cascades are drawn with.
    pub fn create_cascade_bind_group(&self) -> (g: BindGroup)
        ensures
            g@ == cascade_group(),
    {
        let g = group(
            Layout::ShadowCascade,
            vec![
                bind_slice(0, Buffer::ShadowUniforms, 0, CASCADE_UNIFORM_SIZE),
            ],
        );
        assert(g@ =~= cascade_group());
        g
    }

    /// What the host writes before a frame: each matrix into its slot.
    pub fn write_uniforms(&self, light_vps: &[Mat4; 4]) -> (uploads: Vec<Upload>)
        requires
            self.well_formed(),
        ensures
            puts_all(uploads@, cascade_writes(self.dyn_alignment, light_vps@)),
    {
        let mut uploads: Vec<Upload> = Vec::new();
        let mut i: usize = 0;
        while i < NUM_CASCADES
            invariant
                self.well_formed(),
                i <= 4,
                puts_all(
                    uploads@,
                    cascade_writes(self.dyn_alignment, light_vps@).take(i as int),
                ),
            decreases 4 - i,
        {
            let mut words: Vec<u32> = Vec::new();
            push_matrix(&mut words, light_vps[i]);
            assert(words@ =~= matrix_words(light_vps@[i as int]));
            assert(0 <= self.dyn_alignment * i <= u32::MAX) by (nonlinear_arith)
                requires
                    i <= 3,
                    self.dyn_alignment * 3 <= u32::MAX,
            ;
            uploads.push(
                words_at(
                    Buffer::ShadowUniforms,
                    self.dyn_alignment as u64 * i as u64,
                    words.as_slice(),
                ),
            );
            i = i + 1;
        }
        assert(cascade_writes(self.dyn_alignment, light_vps@).take(4) =~= cascade_writes(
            self.dyn_alignment,
            light_vps@,
        ));
        uploads
    }

    /// Records all cascades. `opaque_list` names meshes by their position among `mesh_count`.
    pub fn encode(&self, mesh_count: usize, opaque_list: &[usize]) -> (commands: Vec<Command>)
        requires
            self.well_formed(),
            forall|i: int| 0 <= i < opaque_list@.len() ==> opaque_list@[i] < mesh_count,
        ensures
            steps(commands@) == shadow_steps(self.dyn_alignment, opaque_list@),
    {
        let mut commands: Vec<Command> = Vec::new();
        let ghost all = shadow_steps(self.dyn_alignment, opaque_list@);
        let mut cascade: u32 = 0;
        while cascade < 4
            invariant
                self.well_formed(),
                cascade <= 4,
                all == shadow_steps(self.dyn_alignment, opaque_list@),
                steps(commands@) == all.take(cascade as int),
            decreases 4 - cascade,
        {
            let mut draws: Vec<Draw> = Vec::new();
            let mut i: usize = 0;
            while i < opaque_list.len()
                invariant
                    i <= opaque_list@.len(),
                    draws@ == opaque_list@.take(i as int).map_values(
                        |i: usize| Draw::ShadowMesh(i),
                    ),
                decreases opaque_list@.len() - i,
            {
                draws.push(Draw::ShadowMesh(opaque_list[i]));
                i = i + 1;
                assert(draws@ =~= opaque_list@.take(i as int).map_values(
                    |i: usize| Draw::ShadowMesh(i),
                ));
            }
            assert(opaque_list@.take(i as int) =~= opaque_list@);
            assert(0 <= self.dyn_alignment * cascade <= u32::MAX) by (nonlinear_arith)
                requires
                    cascade <= 3,
                    self.dyn_alignment * 3 <= u32::MAX,
            ;
            let c = Command::Render {
                pipeline: Pipeline::Shadow,
                groups: vec![self.create_cascade_bind_group()],
                offset: self.dyn_alignment * cascade,
                color: None,
                depth: Some(Attachment { view: TexView::ShadowCascade(cascade), load: Load::Clear }),
                draws,
            };
            assert(c@ =~~= cascade_step(self.dyn_alignment, cascade as int, opaque_list@));
            let ghost before = steps(commands@);
            commands.push(c);
            assert(steps(commands@) =~= before.push(all[cascade as int]));
            cascade = cascade + 1;
            assert(steps(commands@) =~= all.take(cascade as int));
        }
        assert(steps(commands@) =~= all);
        commands
    }
}

proof fn lemma_stride(min_align: u32)
    requires
        0 < min_align,
        min_align * 3 <= u32::MAX,
    ensures
        64 <= groups_for(64, min_align) * min_align,
        groups_for(64, min_align) * min_align * 3 <= u32::MAX,
{
    groups_cover_exactly(64, min_align);
    let g = groups_for(64, min_align);
    assert((g - 1) * min_align < 64);
    assert(g * min_align == (g - 1) * min_align + min_align) by (nonlinear_arith);
    if min_align >= 64 {
        assert(g <= 1) by (nonlinear_arith)
            requires
                (g - 1) * min_align < 64,
                min_align >= 64,
        ;
        assert(g * min_align <= min_align) by (nonlinear_arith)
            requires
                g <= 1,
        ;
    }
}

/// Slots hold their matrices without overlap, are aligned as the device asks, and no smaller stride
/// would do.
pub proof fn cascade_slots_are_apart(min_align: u32, a: int, b: int)
    requires
        0 < min_align,
        min_align * 3 <= u32::MAX,
        0 <= a < b < 4,
    ensures
        slot_stride(min_align) * a + 64 <= slot_stride(min_align) * b,
        slot_stride(min_align) * a + 64 <= slot_stride(min_align) * 4,
        (slot_stride(min_align) * a) % (min_align as int) == 0,
        slot_stride(min_align) - min_align < 64,
{
    lemma_stride(min_align);
    groups_cover_exactly(64, min_align);
    let s = slot_stride(min_align) as int;
    let g = groups_for(64, min_align) as int;
    let m = min_align as int;
    assert(s * a + 64 <= s * b) by (nonlinear_arith)
        requires
            s >= 64,
            a + 1 <= b,
    ;
    assert(s * a + 64 <= s * 4) by (nonlinear_arith)
        requires
            s >= 64,
            a + 1 <= 4,
    ;
    assert(s * a == (g * a) * m) by (nonlinear_arith)
        requires
            s == g * m,
    ;
    vstd::arithmetic::div_mod::lemma_mod_multiples_basic(g * a, m);
    assert(s - m == (g - 1) * m) by (nonlinear_arith)
        requires
            s == g * m,
    ;
}

/// Every command can be carried out, and every cascade has its own layer.
pub proof fn shadow_commands_are_valid(stride: u32, list: Seq<usize>)
    ensures
        all_valid(shadow_steps(stride, list)),
        forall|a: int, b: int|
            0 <= a < b < 4 ==> (#[trigger] shadow_steps(stride, list)[a])->Render_depth != (
            #[trigger] shadow_steps(stride, list)[b])->Render_depth,
{
}

/// The step draws these meshes, each of them and no other, in their order, into the layer of a
/// cascade, which starts afresh; the matrix of the cascade is read at `offset`.
pub open spec fn casts(step: Step, cascade: int, offset: int, meshes: Seq<usize>) -> bool {
    match step {
        Step::Render { pipeline, groups, offset: o, color, depth, draws } => {
            &&& pipeline == Pipeline::Shadow
            &&& groups.len() == 1
            &&& binds(
                groups[0],
                Layout::ShadowCascade,
                seq![Resource::Slice { buffer: Buffer::ShadowUniforms, offset: 0, size: 64 }],
            )
            &&& o == offset
            &&& color is None
            &&& depth matches Some(target) && target.load == Load::Clear && target.view
                == TexView::ShadowCascade(cascade as u32)
            &&& draws.len() == meshes.len()
            &&& forall|i: int|
                0 <= i < meshes.len() ==> #[trigger] draws[i] == Draw::ShadowMesh(meshes[i])
        },
        _ => false,
    }
}

/// There are four cascades, and each draws every listed mesh with the matrix in its own slot.
pub proof fn every_cascade_draws_every_mesh(pass: ShadowPass, list: Seq<usize>, cascade: int)
    requires
        pass.well_formed(),
        0 <= cascade < 4,
    ensures
        shadow_steps(pass.dyn_alignment, list).len() == 4,
        casts(
            shadow_steps(pass.dyn_alignment, list)[cascade],
            cascade,
            pass.dyn_alignment * cascade,
            list,
        ),
{
    assert(0 <= pass.dyn_alignment * cascade <= u32::MAX) by (nonlinear_arith)
        requires
            0 <= cascade <= 3,
            0 <= pass.dyn_alignment * 3 <= u32::MAX,
            0 <= pass.dyn_alignment,
    ;
}

/// The matrix that a cascade is drawn with is written where its step reads it.
pub proof fn cascades_find_their_matrix(
    pass: ShadowPass,
    uploads: Seq<Upload>,
    light_vps: Seq<Mat4>,
    cascade: int,
) -> (w: Seq<u32>)
    requires
        pass.well_formed(),
        puts_all(uploads, cascade_writes(pass.dyn_alignment, light_vps)),
        0 <= cascade < 4,
    ensures
        uploads.len() == 4,
        uploads[cascade].buffer == Buffer::ShadowUniforms,
        uploads[cascade].offset == pass.dyn_alignment * cascade,
        holds_words(uploads[cascade].bytes@, w),
        w.len() == 16,
        matrix_at(w, 0, light_vps[cascade]),
{
    assert(0 <= pass.dyn_alignment * cascade <= u32::MAX) by (nonlinear_arith)
        requires
            0 <= cascade <= 3,
            0 <= pass.dyn_alignment * 3 <= u32::MAX,
            0 <= pass.dyn_alignment,
    ;
    let write = cascade_writes(pass.dyn_alignment, light_vps)[cascade];
    assert(uploads[cascade].puts(write.buffer, write.offset, write.words));
    write.words
}

/// Slots are as far apart as the smallest multiple of the device's alignment that holds 64 bytes.
pub proof fn slots_are_aligned(min_align: u32, other: int)
    requires
        0 < min_align,
        min_align * 3 <= u32::MAX,
        other >= 64,
        other % (min_align as int) == 0,
    ensures
        slot_stride(min_align) >= 64,
        slot_stride(min_align) as int % (min_align as int) == 0,
        slot_stride(min_align) <= other,
{
    lemma_stride(min_align);
    groups_cover_exactly(64, min_align);
    let m = min_align as int;
    let g = groups_for(64, min_align) as int;
    let s = slot_stride(min_align) as int;
    vstd::arithmetic::div_mod::lemma_mod_multiples_basic(g, m);
    vstd::arithmetic::div_mod::lemma_fundamental_div_mod(other, m);
    let q = other / m;
    assert(g - 1 < q) by (nonlinear_arith)
        requires
            (g - 1) * m < 64,
            m * q >= 64,
            m > 0,
    ;
    assert(s <= other) by (nonlinear_arith)
        requires
            s == g * m,
            g <= q,
            other == m * q,
            m > 0,
    ;
}

} // verus!
