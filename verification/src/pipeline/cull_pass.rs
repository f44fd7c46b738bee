//! Culling of meshlets in two phases, and the queue of groups that the host fills.

use vstd::prelude::*;

use crate::dag_cut::{acyclic, adaptive_cut, cut};
use crate::meshlet::MeshletDag;
use crate::pipeline::gpu::{
    bind_buffer, bind_view, binds, bound, compute_stage, covers, dispatch, group,
    groups_cover_exactly, groups_for, steps, storage_entry, texture_entry, BindGroup, Buffer,
    BufferDesc, BufferUsages, Command, GroupContents, Layout, LayoutEntry, Pipeline, Resource,
    SampleType, Step, TexView, ViewDimension,
};
use crate::pipeline::hw_raster_pass::{counter_buffer, frame_group, list_buffer};
use crate::pipeline::upload::{puts_all, words_to, write_to, Upload, Write};
use crate::pipeline::validity::valid;
use crate::scalar::Scalar;

verus! {

/// How many groups the host can queue.
pub const GROUP_QUEUE_CAPACITY: u32 = 16384;

/// How many meshlets can wait for the second phase.
pub const PHASE2_QUEUE_CAPACITY: u32 = 65536;

pub open spec fn cull_entries() -> Seq<LayoutEntry> {
    seq![
        storage_entry(0, true, compute_stage()),
        storage_entry(1, true, compute_stage()),
        storage_entry(2, true, compute_stage()),
    ]
}

/// The bounds of meshlets, the groups, and the meshlets.
pub fn cull_layout() -> (entries: Vec<LayoutEntry>)
    ensures
        entries@ == cull_entries(),
{
    vec![
        storage_entry(0, true, compute_stage()),
        storage_entry(1, true, compute_stage()),
        storage_entry(2, true, compute_stage()),
    ]
}

pub open spec fn dispatch_entries() -> Seq<LayoutEntry> {
    seq![
        storage_entry(0, false, compute_stage()),
        storage_entry(1, false, compute_stage()),
        storage_entry(2, false, compute_stage()),
        storage_entry(3, false, compute_stage()),
        storage_entry(4, true, compute_stage()),
        storage_entry(5, true, compute_stage()),
        texture_entry(6, compute_stage(), SampleType::UnfilterableFloat, ViewDimension::D2),
        storage_entry(7, false, compute_stage()),
        storage_entry(8, false, compute_stage()),
    ]
}

/// Both lists with their counters, the queue to read with its count, the depth pyramid, and the
/// queue of what is hidden with its count.
pub fn dispatch_layout() -> (entries: Vec<LayoutEntry>)
    ensures
        entries@ == dispatch_entries(),
{
    vec![
        storage_entry(0, false, compute_stage()),
        storage_entry(1, false, compute_stage()),
        storage_entry(2, false, compute_stage()),
        storage_entry(3, false, compute_stage()),
        storage_entry(4, true, compute_stage()),
        storage_entry(5, true, compute_stage()),
        texture_entry(6, compute_stage(), SampleType::UnfilterableFloat, ViewDimension::D2),
        storage_entry(7, false, compute_stage()),
        storage_entry(8, false, compute_stage()),
    ]
}

/// What culling knows of the meshlets.
pub open spec fn cull_group() -> GroupContents {
    bound(
        Layout::CullData,
        seq![
            bind_buffer(0, Buffer::MeshletBounds),
            bind_buffer(1, Buffer::MeshletGroups),
            bind_buffer(2, Buffer::MeshletDescs),
        ],
    )
}

/// The first phase on groups that the host queued.
pub open spec fn dispatch_group(hzb_view: TexView) -> GroupContents {
    bound(
        Layout::CullDispatch,
        seq![
            bind_buffer(0, Buffer::HwDispatchList),
            bind_buffer(1, Buffer::HwDispatchCount),
            bind_buffer(2, Buffer::SwDispatchList),
            bind_buffer(3, Buffer::SwDispatchCount),
            bind_buffer(4, Buffer::GroupQueue),
            bind_buffer(5, Buffer::GroupQueueCount),
            bind_view(6, hzb_view),
            bind_buffer(7, Buffer::Phase2Queue),
            bind_buffer(8, Buffer::Phase2Count),
        ],
    )
}

/// The first phase on groups that the traversal queued.
pub open spec fn dispatch_gpu_driven_group(
    hzb_view: TexView,
    gpu_group_queue: Buffer,
    gpu_group_count: Buffer,
) -> GroupContents {
    bound(
        Layout::CullDispatch,
        seq![
            bind_buffer(0, Buffer::HwDispatchList),
            bind_buffer(1, Buffer::HwDispatchCount),
            bind_buffer(2, Buffer::SwDispatchList),
            bind_buffer(3, Buffer::SwDispatchCount),
            bind_buffer(4, gpu_group_queue),
            bind_buffer(5, gpu_group_count),
            bind_view(6, hzb_view),
            bind_buffer(7, Buffer::Phase2Queue),
            bind_buffer(8, Buffer::Phase2Count),
        ],
    )
}

/// The second phase: what the first one hid is read, and buffers of their own take the place of the
/// queue to write.
pub open spec fn phase2_dispatch_group(hzb_view: TexView) -> GroupContents {
    bound(
        Layout::CullDispatch,
        seq![
            bind_buffer(0, Buffer::HwDispatchList),
            bind_buffer(1, Buffer::HwDispatchCount),
            bind_buffer(2, Buffer::SwDispatchList),
            bind_buffer(3, Buffer::SwDispatchCount),
            bind_buffer(4, Buffer::Phase2Queue),
            bind_buffer(5, Buffer::Phase2Count),
            bind_view(6, hzb_view),
            bind_buffer(7, Buffer::Phase2ScratchList),
            bind_buffer(8, Buffer::Phase2ScratchCount),
        ],
    )
}

pub open spec fn cull_buffers() -> Seq<BufferDesc> {
    seq![
        list_buffer(Buffer::GroupQueue, GROUP_QUEUE_CAPACITY),
        list_buffer(Buffer::GroupQueueCount, 1),
        phase2_queue_buffer(),
        counter_buffer(Buffer::Phase2Count),
        scratch_buffer(Buffer::Phase2ScratchList),
        scratch_buffer(Buffer::Phase2ScratchCount),
    ]
}

#[verifier::allow_in_spec]
pub fn phase2_queue_buffer() -> BufferDesc
    returns
        (BufferDesc {
            buffer: Buffer::Phase2Queue,
            size: 262144,
            usage: counter_buffer(Buffer::Phase2Queue).usage,
        }),
{
    BufferDesc {
        buffer: Buffer::Phase2Queue,
        size: PHASE2_QUEUE_CAPACITY as u64 * 4,
        usage: counter_buffer(Buffer::Phase2Queue).usage,
    }
}

/// One word that fills a slot and is never written.
#[verifier::allow_in_spec]
pub fn scratch_buffer(buffer: Buffer) -> BufferDesc
    returns
        (BufferDesc {
            buffer,
            size: 4,
            usage: BufferUsages {
                uniform: false,
                storage: true,
                indirect: false,
                vertex: false,
                index: false,
                copy_src: false,
                copy_dst: false,
            },
        }),
{
    BufferDesc {
        buffer,
        size: 4,
        usage: BufferUsages {
            uniform: false,
            storage: true,
            indirect: false,
            vertex: false,
            index: false,
            copy_src: false,
            copy_dst: false,
        },
    }
}

/// One thread for each item of a queue, in groups of 64.
pub open spec fn cull_step(
    pipeline: Pipeline,
    frame: GroupContents,
    cull: GroupContents,
    dispatch: GroupContents,
    items: u32,
) -> Step {
    Step::Dispatch {
        pipeline,
        groups: seq![frame, cull, dispatch],
        x: groups_for(items, 64),
        y: 1,
        z: 1,
    }
}

fn cull_command(
    pipeline: Pipeline,
    frame: BindGroup,
    cull: BindGroup,
    dispatch: BindGroup,
    items: u32,
) -> (c: Command)
    ensures
        c@ == cull_step(pipeline, frame@, cull@, dispatch@, items),
{
    let ghost expected = cull_step(pipeline, frame@, cull@, dispatch@, items);
    let c = Command::Dispatch {
        pipeline,
        groups: vec![frame, cull, dispatch],
        x: groups_for(items, 64),
        y: 1,
        z: 1,
    };
    assert(c@ =~~= expected);
    c
}

pub open spec fn cull_indirect_step(
    frame: GroupContents,
    cull: GroupContents,
    dispatch: GroupContents,
    args: Buffer,
) -> Step {
    Step::DispatchIndirect {
        pipeline: Pipeline::MeshletCull,
        groups: seq![frame, cull, dispatch],
        args,
    }
}

/// As many groups of a cut as the queue can hold, from the first.
pub open spec fn queued(selected: Seq<u32>) -> Seq<u32> {
    selected.take(
        if selected.len() <= GROUP_QUEUE_CAPACITY {
            selected.len() as int
        } else {
            GROUP_QUEUE_CAPACITY as int
        },
    )
}

/// What queues a cut: its groups, where there are any, and how many they are.
pub open spec fn queue_writes(selected: Seq<u32>) -> Seq<Write> {
    let groups = queued(selected);
    let count = write_to(Buffer::GroupQueueCount, seq![groups.len() as u32]);
    if groups.len() == 0 {
        seq![count]
    } else {
        seq![write_to(Buffer::GroupQueue, groups), count]
    }
}

/// What the host uploads for a cut.
#[derive(Debug)]
pub struct QueuedCut {
    pub uploads: Vec<Upload>,
    /// How many groups are in the queue.
    pub count: u32,
}

/// The two phases of culling. The first tests meshlets against the depth pyramid of the frame before;
/// the second tests those that it hid against the pyramid of this frame.
#[derive(Clone, Copy, Debug, PartialEq, Eq, Structural)]
pub struct CullPass;

impl CullPass {
    pub fn new() -> (pass: CullPass)
        ensures
            pass == CullPass,
    {
        CullPass
    }

    pub fn buffers() -> (descs: Vec<BufferDesc>)
        ensures
            descs@ == cull_buffers(),
    {
        vec![
            list_buffer(Buffer::GroupQueue, GROUP_QUEUE_CAPACITY),
            list_buffer(Buffer::GroupQueueCount, 1),
            phase2_queue_buffer(),
            counter_buffer(Buffer::Phase2Count),
            scratch_buffer(Buffer::Phase2ScratchList),
            scratch_buffer(Buffer::Phase2ScratchCount),
        ]
    }

    /// Cuts the hierarchy where the projected error of a group, in pixels, is below the threshold, and
    /// queues the groups of the cut. Of groups that do not fit the queue, the later ones are left out.
    pub fn cpu_dag_cut_adaptive(
        &self,
        dag: &MeshletDag,
        projected_errors: &[Scalar],
        error_threshold_px: Scalar,
    ) -> (result: QueuedCut)
        requires
            dag.groups@.len() <= u32::MAX,
            acyclic(dag.groups@),
            projected_errors@.len() == dag.groups@.len(),
        ensures
            puts_all(
                result.uploads@,
                queue_writes(cut(dag.groups@, projected_errors@, error_threshold_px)),
            ),
            result.count == queued(
                cut(dag.groups@, projected_errors@, error_threshold_px),
            ).len(),
    {
        let mut selected = adaptive_cut(dag, projected_errors, error_threshold_px);
        let ghost all = selected@;
        let mut uploads: Vec<Upload> = Vec::new();
        if selected.len() > GROUP_QUEUE_CAPACITY as usize {
            selected.truncate(GROUP_QUEUE_CAPACITY as usize);
        }
        assert(selected@ =~= queued(all));
        let count: u32 = selected.len() as u32;
        if count > 0 {
            uploads.push(words_to(Buffer::GroupQueue, selected.as_slice()));
        }
        let words: Vec<u32> = vec![count];
        assert(words@ =~= seq![count]);
        uploads.push(words_to(Buffer::GroupQueueCount, words.as_slice()));
        QueuedCut { uploads, count }
    }

    /// What culling knows of the meshlets.
    pub fn create_cull_bind_group(&self) -> (g: BindGroup)
        ensures
            g@ == cull_group(),
    {
        let g = group(
            Layout::CullData,
            vec![
                bind_buffer(0, Buffer::MeshletBounds),
                bind_buffer(1, Buffer::MeshletGroups),
                bind_buffer(2, Buffer::MeshletDescs),
            ],
        );
        assert(g@ =~= cull_group());
        g
    }

    /// The first phase on groups that the host queued.
    pub fn create_dispatch_bind_group(&self, hzb_view: TexView) -> (g: BindGroup)
        ensures
            g@ == dispatch_group(hzb_view),
    {
        let g = group(
            Layout::CullDispatch,
            vec![
                bind_buffer(0, Buffer::HwDispatchList),
                bind_buffer(1, Buffer::HwDispatchCount),
                bind_buffer(2, Buffer::SwDispatchList),
                bind_buffer(3, Buffer::SwDispatchCount),
                bind_buffer(4, Buffer::GroupQueue),
                bind_buffer(5, Buffer::GroupQueueCount),
                bind_view(6, hzb_view),
                bind_buffer(7, Buffer::Phase2Queue),
                bind_buffer(8, Buffer::Phase2Count),
            ],
        );
        assert(g@ =~= dispatch_group(hzb_view));
        g
    }

    /// The first phase on groups that the traversal queued.
    pub fn create_dispatch_bind_group_gpu_driven(
        &self,
        hzb_view: TexView,
        gpu_group_queue: Buffer,
        gpu_group_count: Buffer,
    ) -> (g: BindGroup)
        ensures
            g@ == dispatch_gpu_driven_group(hzb_view, gpu_group_queue, gpu_group_count),
    {
        let g = group(
            Layout::CullDispatch,
            vec![
                bind_buffer(0, Buffer::HwDispatchList),
                bind_buffer(1, Buffer::HwDispatchCount),
                bind_buffer(2, Buffer::SwDispatchList),
                bind_buffer(3, Buffer::SwDispatchCount),
                bind_buffer(4, gpu_group_queue),
                bind_buffer(5, gpu_group_count),
                bind_view(6, hzb_view),
                bind_buffer(7, Buffer::Phase2Queue),
                bind_buffer(8, Buffer::Phase2Count),
            ],
        );
        assert(g@ =~= dispatch_gpu_driven_group(hzb_view, gpu_group_queue, gpu_group_count));
        g
    }

    /// The second phase, on what the first one hid.
    pub fn create_phase2_dispatch_bind_group(&self, hzb_view: TexView) -> (g: BindGroup)
        ensures
            g@ == phase2_dispatch_group(hzb_view),
    {
        let g = group(
            Layout::CullDispatch,
            vec![
                bind_buffer(0, Buffer::HwDispatchList),
                bind_buffer(1, Buffer::HwDispatchCount),
                bind_buffer(2, Buffer::SwDispatchList),
                bind_buffer(3, Buffer::SwDispatchCount),
                bind_buffer(4, Buffer::Phase2Queue),
                bind_buffer(5, Buffer::Phase2Count),
                bind_view(6, hzb_view),
                bind_buffer(7, Buffer::Phase2ScratchList),
                bind_buffer(8, Buffer::Phase2ScratchCount),
            ],
        );
        assert(g@ =~= phase2_dispatch_group(hzb_view));
        g
    }

    /// Empties the queue of the second phase.
    pub fn clear_phase2(&self) -> (c: Command)
        ensures
            c@ == (Step::Clear { buffer: Buffer::Phase2Count }),
    {
        Command::Clear { buffer: Buffer::Phase2Count }
    }

    /// Records the first phase over `group_count` groups.
    pub fn encode(
        &self,
        frame_bg: BindGroup,
        cull_bg: BindGroup,
        dispatch_bg: BindGroup,
        group_count: u32,
    ) -> (c: Command)
        ensures
            c@ == cull_step(
                Pipeline::MeshletCull,
                frame_bg@,
                cull_bg@,
                dispatch_bg@,
                group_count,
            ),
    {
        cull_command(Pipeline::MeshletCull, frame_bg, cull_bg, dispatch_bg, group_count)
    }

    /// Records the first phase with the number of threads read from a buffer.
    pub fn encode_indirect(
        &self,
        frame_bg: BindGroup,
        cull_bg: BindGroup,
        dispatch_bg: BindGroup,
        indirect_buffer: Buffer,
    ) -> (c: Command)
        ensures
            c@ == cull_indirect_step(frame_bg@, cull_bg@, dispatch_bg@, indirect_buffer),
    {
        let ghost expected = cull_indirect_step(
            frame_bg@,
            cull_bg@,
            dispatch_bg@,
            indirect_buffer,
        );
        let c = Command::DispatchIndirect {
            pipeline: Pipeline::MeshletCull,
            groups: vec![frame_bg, cull_bg, dispatch_bg],
            args: indirect_buffer,
        };
        assert(c@ =~~= expected);
        c
    }

    /// Records the second phase over at most `reject_count` meshlets; nothing where that is zero.
    pub fn encode_phase2(
        &self,
        frame_bg: BindGroup,
        cull_bg: BindGroup,
        phase2_dispatch_bg: BindGroup,
        reject_count: u32,
    ) -> (commands: Vec<Command>)
        ensures
            steps(commands@) == if reject_count == 0 {
                Seq::empty()
            } else {
                seq![
                    cull_step(
                        Pipeline::MeshletCullPhase2,
                        frame_bg@,
                        cull_bg@,
                        phase2_dispatch_bg@,
                        reject_count,
                    ),
                ]
            },
    {
        if reject_count == 0 {
            let none: Vec<Command> = Vec::new();
            assert(steps(none@) =~= Seq::empty());
            return none;
        }
        let ghost expected = cull_step(
            Pipeline::MeshletCullPhase2,
            frame_bg@,
            cull_bg@,
            phase2_dispatch_bg@,
            reject_count,
        );
        let commands = vec![
            cull_command(
                Pipeline::MeshletCullPhase2,
                frame_bg,
                cull_bg,
                phase2_dispatch_bg,
                reject_count,
            ),
        ];
        assert(steps(commands@) =~= seq![expected]);
        commands
    }
}

/// With the groups that the passes create, both phases can be carried out. In particular no buffer is
/// bound for reading and for writing at once, in the second phase as in the first.
#[verifier::rlimit(60)]
pub proof fn cull_commands_are_valid(items: u32)
    ensures
        valid(
            cull_step(
                Pipeline::MeshletCull,
                frame_group(),
                cull_group(),
                dispatch_group(TexView::HzbFull),
                items,
            ),
        ),
        valid(
            cull_indirect_step(
                frame_group(),
                cull_group(),
                dispatch_gpu_driven_group(
                    TexView::HzbFull,
                    Buffer::DagOutputQueue,
                    Buffer::DagOutputCount,
                ),
                Buffer::DagIndirectArgs,
            ),
        ),
        valid(
            cull_step(
                Pipeline::MeshletCullPhase2,
                frame_group(),
                cull_group(),
                phase2_dispatch_group(TexView::HzbFull),
                items,
            ),
        ),
{
}

/// A cut that fits the queue is queued whole; of any other, the first part.
pub proof fn queue_keeps_the_front_of_a_cut(selected: Seq<u32>)
    ensures
        queued(selected).len() <= GROUP_QUEUE_CAPACITY,
        selected.len() <= GROUP_QUEUE_CAPACITY ==> queued(selected) == selected,
        forall|i: int| 0 <= i < queued(selected).len() ==> queued(selected)[i] == selected[i],
        4 * queued(selected).len() <= cull_buffers()[0].size,
{
    if selected.len() <= GROUP_QUEUE_CAPACITY {
        assert(queued(selected) =~= selected);
    }
}

/// The step culls so many items of a queue, in groups of 64: it reads the frame, what is known of the
/// meshlets, and these resources.
pub open spec fn culls(step: Step, pipeline: Pipeline, queues: Seq<Resource>, items: int) -> bool {
    match step {
        Step::Dispatch { pipeline: p, groups, x, y, z } => {
            &&& p == pipeline
            &&& groups.len() == 3
            &&& binds(groups[0], Layout::Frame, seq![Resource::Buffer(Buffer::FrameUniforms)])
            &&& binds(
                groups[1],
                Layout::CullData,
                seq![
                    Resource::Buffer(Buffer::MeshletBounds),
                    Resource::Buffer(Buffer::MeshletGroups),
                    Resource::Buffer(Buffer::MeshletDescs),
                ],
            )
            &&& binds(groups[2], Layout::CullDispatch, queues)
            &&& covers(x, 64, items)
            &&& y == 1
            &&& z == 1
        },
        _ => false,
    }
}

/// Both lists of meshlets to draw with their counters, then a queue to read with its count, the depth
/// pyramid, and a queue to write with its count.
pub open spec fn cull_queues(
    read: Buffer,
    read_count: Buffer,
    hzb: TexView,
    write: Buffer,
    write_count: Buffer,
) -> Seq<Resource> {
    seq![
        Resource::Buffer(Buffer::HwDispatchList),
        Resource::Buffer(Buffer::HwDispatchCount),
        Resource::Buffer(Buffer::SwDispatchList),
        Resource::Buffer(Buffer::SwDispatchCount),
        Resource::Buffer(read),
        Resource::Buffer(read_count),
        Resource::View(hzb),
        Resource::Buffer(write),
        Resource::Buffer(write_count),
    ]
}

/// The first phase has a thread for every queued group and keeps what it hides for the second, which
/// has a thread for every meshlet that may be kept.
pub proof fn hidden_meshlets_are_culled_again(hzb: TexView, items: u32)
    ensures
        culls(
            cull_step(
                Pipeline::MeshletCull,
                frame_group(),
                cull_group(),
                dispatch_group(hzb),
                items,
            ),
            Pipeline::MeshletCull,
            cull_queues(
                Buffer::GroupQueue,
                Buffer::GroupQueueCount,
                hzb,
                Buffer::Phase2Queue,
                Buffer::Phase2Count,
            ),
            items as int,
        ),
        culls(
            cull_step(
                Pipeline::MeshletCullPhase2,
                frame_group(),
                cull_group(),
                phase2_dispatch_group(hzb),
                items,
            ),
            Pipeline::MeshletCullPhase2,
            cull_queues(
                Buffer::Phase2Queue,
                Buffer::Phase2Count,
                hzb,
                Buffer::Phase2ScratchList,
                Buffer::Phase2ScratchCount,
            ),
            items as int,
        ),
{
    groups_cover_exactly(items, 64);
}

/// The first phase can read the queue of the traversal instead, and as many groups of threads as a
/// buffer says.
pub proof fn traversed_groups_are_culled(hzb: TexView, queue: Buffer, count: Buffer, args: Buffer)
    ensures
        match cull_indirect_step(
            frame_group(),
            cull_group(),
            dispatch_gpu_driven_group(hzb, queue, count),
            args,
        ) {
            Step::DispatchIndirect { pipeline, groups, args: a } => {
                &&& pipeline == Pipeline::MeshletCull
                &&& a == args
                &&& groups.len() == 3
                &&& binds(groups[0], Layout::Frame, seq![Resource::Buffer(Buffer::FrameUniforms)])
                &&& binds(
                    groups[1],
                    Layout::CullData,
                    seq![
                        Resource::Buffer(Buffer::MeshletBounds),
                        Resource::Buffer(Buffer::MeshletGroups),
                        Resource::Buffer(Buffer::MeshletDescs),
                    ],
                )
                &&& binds(
                    groups[2],
                    Layout::CullDispatch,
                    cull_queues(queue, count, hzb, Buffer::Phase2Queue, Buffer::Phase2Count),
                )
            },
            _ => false,
        },
{
}

/// A cut is queued by what is uploaded last, the number of its groups, and before that, where there
/// are any, by the groups themselves: the first 16384 of them, in their order.
pub proof fn cuts_are_queued_with_their_count(uploads: Seq<Upload>, selected: Seq<u32>) -> (w: Seq<
    u32,
>)
    requires
        puts_all(uploads, queue_writes(selected)),
    ensures
        w.len() == if selected.len() <= 16384 {
            selected.len()
        } else {
            16384
        },
        forall|i: int| 0 <= i < w.len() ==> w[i] == selected[i],
        uploads.len() == if selected.len() == 0 {
            1nat
        } else {
            2
        },
        uploads.last().puts(Buffer::GroupQueueCount, 0, seq![w.len() as u32]),
        selected.len() > 0 ==> uploads[0].puts(Buffer::GroupQueue, 0, w),
{
    let w = queued(selected);
    let all = queue_writes(selected);
    assert(uploads[uploads.len() - 1].puts(
        all[all.len() - 1].buffer,
        all[all.len() - 1].offset,
        all[all.len() - 1].words,
    ));
    assert(uploads[0].puts(all[0].buffer, all[0].offset, all[0].words));
    w
}

/// The queue of groups holds 16384 words, that of hidden meshlets 65536, and each count is one word.
pub proof fn cull_buffers_hold_their_queues()
    ensures
        cull_buffers().len() == 6,
        cull_buffers()[0].buffer == Buffer::GroupQueue && cull_buffers()[0].size == 4 * 16384,
        cull_buffers()[1].buffer == Buffer::GroupQueueCount && cull_buffers()[1].size == 4,
        cull_buffers()[2].buffer == Buffer::Phase2Queue && cull_buffers()[2].size == 4 * 65536,
        cull_buffers()[3].buffer == Buffer::Phase2Count && cull_buffers()[3].size == 4,
        cull_buffers()[4].buffer == Buffer::Phase2ScratchList && cull_buffers()[4].size == 4,
        cull_buffers()[5].buffer == Buffer::Phase2ScratchCount && cull_buffers()[5].size == 4,
        forall|i: int| 0 <= i < 6 ==> (#[trigger] cull_buffers()[i]).usage.storage,
        forall|i: int| 0 <= i < 4 ==> (#[trigger] cull_buffers()[i]).usage.copy_dst,
{
}

} // verus!
