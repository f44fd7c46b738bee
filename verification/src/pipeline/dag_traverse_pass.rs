//! Traversal of the hierarchy of groups by the device, from roots that the host queues.

use vstd::prelude::*;

use crate::meshlet::{root_list, MeshletDag};
use crate::pipeline::gpu::{
    at_least_one, bind_buffer, binds, bound, compute_stage, group, groups_for, steps,
    storage_entry, BindGroup, Buffer, BufferDesc, BufferUsages, Command, GroupContents, Layout,
    LayoutEntry, Pipeline, Resource, Step,
};
use crate::pipeline::hw_raster_pass::{frame_group, list_buffer, HwRasterPass};
use crate::pipeline::upload::{words_to, Upload};
use crate::pipeline::validity::{all_valid, valid};

verus! {

/// How many groups can wait for traversal.
pub const WORK_QUEUE_CAPACITY: u32 = 16384;

/// How many groups can be selected.
pub const OUTPUT_QUEUE_CAPACITY: u32 = 16384;

pub open spec fn dag_entries() -> Seq<LayoutEntry> {
    seq![
        storage_entry(0, true, compute_stage()),
        storage_entry(1, false, compute_stage()),
        storage_entry(2, false, compute_stage()),
        storage_entry(3, false, compute_stage()),
        storage_entry(4, false, compute_stage()),
        storage_entry(5, false, compute_stage()),
    ]
}

/// The groups, the queue with its counters, the selection with its count, and the arguments of the
/// next dispatch.
pub fn dag_layout() -> (entries: Vec<LayoutEntry>)
    ensures
        entries@ == dag_entries(),
{
    vec![
        storage_entry(0, true, compute_stage()),
        storage_entry(1, false, compute_stage()),
        storage_entry(2, false, compute_stage()),
        storage_entry(3, false, compute_stage()),
        storage_entry(4, false, compute_stage()),
        storage_entry(5, false, compute_stage()),
    ]
}

/// What traversal reads and writes.
pub open spec fn dag_group() -> GroupContents {
    bound(
        Layout::DagTraverse,
        seq![
            bind_buffer(0, Buffer::MeshletGroups),
            bind_buffer(1, Buffer::DagWorkQueue),
            bind_buffer(2, Buffer::DagWorkCounters),
            bind_buffer(3, Buffer::DagOutputQueue),
            bind_buffer(4, Buffer::DagOutputCount),
            bind_buffer(5, Buffer::DagIndirectArgs),
        ],
    )
}

pub open spec fn dag_buffers() -> Seq<BufferDesc> {
    seq![
        list_buffer(Buffer::DagWorkQueue, WORK_QUEUE_CAPACITY),
        list_buffer(Buffer::DagWorkCounters, 4),
        list_buffer(Buffer::DagOutputQueue, OUTPUT_QUEUE_CAPACITY),
        list_buffer(Buffer::DagOutputCount, 1),
        indirect_args_buffer(),
    ]
}

/// The size of the next dispatch: three words.
#[verifier::allow_in_spec]
pub fn indirect_args_buffer() -> BufferDesc
    returns
        (BufferDesc {
            buffer: Buffer::DagIndirectArgs,
            size: 12,
            usage: BufferUsages {
                uniform: false,
                storage: true,
                indirect: true,
                vertex: false,
                index: false,
                copy_src: false,
                copy_dst: true,
            },
        }),
{
    BufferDesc {
        buffer: Buffer::DagIndirectArgs,
        size: 12,
        usage: BufferUsages {
            uniform: false,
            storage: true,
            indirect: true,
            vertex: false,
            index: false,
            copy_src: false,
            copy_dst: true,
        },
    }
}

/// As many threads as there can be groups in the queue, in groups of 64, and at least one.
pub open spec fn workgroups_for(group_count: nat) -> u32 {
    at_least_one(
        groups_for(
            if group_count <= WORK_QUEUE_CAPACITY {
                group_count as u32
            } else {
                WORK_QUEUE_CAPACITY
            },
            64,
        ),
    )
}

/// The roots that fit the queue, from the first.
pub open spec fn seeds(roots: Seq<u32>) -> Seq<u32> {
    roots.take(
        if roots.len() <= WORK_QUEUE_CAPACITY {
            roots.len() as int
        } else {
            WORK_QUEUE_CAPACITY as int
        },
    )
}

/// The uploads before a traversal. Without roots, nothing is selected and the next dispatch is empty;
/// otherwise the roots are queued and the selection is emptied.
pub open spec fn seeded(uploads: Seq<Upload>, roots: Seq<u32>) -> bool {
    if roots.len() == 0 {
        &&& uploads.len() == 2
        &&& uploads[0].puts(Buffer::DagOutputCount, 0, seq![0])
        &&& uploads[1].puts(Buffer::DagIndirectArgs, 0, seq![0, 1, 1])
    } else {
        &&& uploads.len() == 3
        &&& uploads[0].puts(Buffer::DagWorkQueue, 0, seeds(roots))
        &&& uploads[1].puts(Buffer::DagWorkCounters, 0, seq![0, seeds(roots).len() as u32, 0, 0])
        &&& uploads[2].puts(Buffer::DagOutputCount, 0, seq![0])
    }
}

/// The traversal, and a thread that writes the size of the dispatch after it.
pub open spec fn traverse_steps(
    frame: GroupContents,
    dag: GroupContents,
    workgroups: u32,
) -> Seq<Step> {
    seq![
        Step::Dispatch {
            pipeline: Pipeline::DagTraverse,
            groups: seq![frame, dag],
            x: workgroups,
            y: 1,
            z: 1,
        },
        Step::Dispatch {
            pipeline: Pipeline::DagPrepareIndirect,
            groups: seq![frame, dag],
            x: 1,
            y: 1,
            z: 1,
        },
    ]
}

/// Traversal of the hierarchy of groups by the device.
#[derive(Debug)]
pub struct DagTraversePass {
    pub roots: Vec<u32>,
    pub traverse_workgroups: u32,
}

impl DagTraversePass {
    /// A pass without roots.
    pub fn new() -> (pass: DagTraversePass)
        ensures
            pass.roots@ == Seq::<u32>::empty(),
            pass.traverse_workgroups == 1,
    {
        DagTraversePass { roots: Vec::new(), traverse_workgroups: 1 }
    }

    pub fn buffers() -> (descs: Vec<BufferDesc>)
        ensures
            descs@ == dag_buffers(),
    {
        vec![
            list_buffer(Buffer::DagWorkQueue, WORK_QUEUE_CAPACITY),
            list_buffer(Buffer::DagWorkCounters, 4),
            list_buffer(Buffer::DagOutputQueue, OUTPUT_QUEUE_CAPACITY),
            list_buffer(Buffer::DagOutputCount, 1),
            indirect_args_buffer(),
        ]
    }

    /// Takes the roots of a scene's hierarchy.
    pub fn sync_roots(&mut self, dag: &MeshletDag)
        requires
            dag.groups@.len() <= u32::MAX,
        ensures
            final(self).roots@ == root_list(dag.groups@),
            final(self).traverse_workgroups == workgroups_for(dag.groups@.len()),
    {
        self.roots = dag.root_group_indices();
        let count: u32 = if dag.groups.len() <= WORK_QUEUE_CAPACITY as usize {
            dag.groups.len() as u32
        } else {
            WORK_QUEUE_CAPACITY
        };
        self.traverse_workgroups = at_least_one(groups_for(count, 64));
    }

    /// What traversal reads and writes.
    pub fn create_bind_group(&self) -> (g: BindGroup)
        ensures
            g@ == dag_group(),
    {
        let g = group(
            Layout::DagTraverse,
            vec![
                bind_buffer(0, Buffer::MeshletGroups),
                bind_buffer(1, Buffer::DagWorkQueue),
                bind_buffer(2, Buffer::DagWorkCounters),
                bind_buffer(3, Buffer::DagOutputQueue),
                bind_buffer(4, Buffer::DagOutputCount),
                bind_buffer(5, Buffer::DagIndirectArgs),
            ],
        );
        assert(g@ =~= dag_group());
        g
    }

    /// Where the selected groups are found.
    pub fn output_queue_buffer(&self) -> (buffer: Buffer)
        ensures
            buffer == Buffer::DagOutputQueue,
    {
        Buffer::DagOutputQueue
    }

    /// Where their number is found.
    pub fn output_count_buffer(&self) -> (buffer: Buffer)
        ensures
            buffer == Buffer::DagOutputCount,
    {
        Buffer::DagOutputCount
    }

    /// Where the size of the culling dispatch is found.
    pub fn indirect_args_buffer(&self) -> (buffer: Buffer)
        ensures
            buffer == Buffer::DagIndirectArgs,
    {
        Buffer::DagIndirectArgs
    }

    /// What the host writes before each frame.
    pub fn seed_work_queue(&self) -> (uploads: Vec<Upload>)
        ensures
            seeded(uploads@, self.roots@),
    {
        let none: Vec<u32> = vec![0];
        assert(none@ =~= seq![0]);
        if self.roots.len() == 0 {
            let args: Vec<u32> = vec![0, 1, 1];
            assert(args@ =~= seq![0, 1, 1]);
            return vec![
                words_to(Buffer::DagOutputCount, none.as_slice()),
                words_to(Buffer::DagIndirectArgs, args.as_slice()),
            ];
        }
        let mut first: Vec<u32> = Vec::new();
        let mut i: usize = 0;
        while i < self.roots.len() && i < WORK_QUEUE_CAPACITY as usize
            invariant
                i <= self.roots@.len(),
                i <= WORK_QUEUE_CAPACITY,
                first@ == self.roots@.take(i as int),
            decreases self.roots@.len() - i,
        {
            first.push(self.roots[i]);
            i = i + 1;
            assert(first@ =~= self.roots@.take(i as int));
        }
        assert(first@ =~= seeds(self.roots@));
        let counters: Vec<u32> = vec![0, first.len() as u32, 0, 0];
        assert(counters@ =~= seq![0, seeds(self.roots@).len() as u32, 0, 0]);
        vec![
            words_to(Buffer::DagWorkQueue, first.as_slice()),
            words_to(Buffer::DagWorkCounters, counters.as_slice()),
            words_to(Buffer::DagOutputCount, none.as_slice()),
        ]
    }

    /// Records the traversal; nothing where there are no roots.
    pub fn encode(&self) -> (commands: Vec<Command>)
        ensures
            steps(commands@) == if self.roots@.len() == 0 {
                Seq::empty()
            } else {
                traverse_steps(frame_group(), dag_group(), self.traverse_workgroups)
            },
    {
        if self.roots.len() == 0 {
            let none: Vec<Command> = Vec::new();
            assert(steps(none@) =~= Seq::empty());
            return none;
        }
        let raster = HwRasterPass::new();
        let ghost expected = traverse_steps(
            frame_group(),
            dag_group(),
            self.traverse_workgroups,
        );
        let traverse = Command::Dispatch {
            pipeline: Pipeline::DagTraverse,
            groups: vec![raster.create_frame_bind_group(), self.create_bind_group()],
            x: self.traverse_workgroups,
            y: 1,
            z: 1,
        };
        assert(traverse@ =~~= expected[0]);
        let prepare = Command::Dispatch {
            pipeline: Pipeline::DagPrepareIndirect,
            groups: vec![raster.create_frame_bind_group(), self.create_bind_group()],
            x: 1,
            y: 1,
            z: 1,
        };
        assert(prepare@ =~~= expected[1]);
        let commands = vec![traverse, prepare];
        assert(steps(commands@) =~= expected);
        commands
    }
}

/// Both commands can be carried out.
pub proof fn traverse_commands_are_valid(workgroups: u32)
    ensures
        all_valid(traverse_steps(frame_group(), dag_group(), workgroups)),
{
    let s = traverse_steps(frame_group(), dag_group(), workgroups);
    assert(valid(s[0]));
    assert(valid(s[1]));
}

/// The queue has a thread for each group that can be in it, and its seeds fit its buffer.
pub proof fn traversal_covers_the_queue(group_count: nat, roots: Seq<u32>)
    ensures
        group_count <= WORK_QUEUE_CAPACITY ==> workgroups_for(group_count) * 64 >= group_count,
        group_count > WORK_QUEUE_CAPACITY ==> workgroups_for(group_count) * 64
            == WORK_QUEUE_CAPACITY,
        workgroups_for(group_count) >= 1,
        4 * seeds(roots).len() <= dag_buffers()[0].size,
        roots.len() <= WORK_QUEUE_CAPACITY ==> seeds(roots) == roots,
{
    if roots.len() <= WORK_QUEUE_CAPACITY {
        assert(seeds(roots) =~= roots);
    }
}

/// A traversal starts from the roots: the first of them, as many as the queue holds, are queued in
/// order, their number is the end of the queue, and nothing is selected yet. Without roots nothing is
/// traversed, selected or dispatched.
pub proof fn traversal_starts_from_the_roots(uploads: Seq<Upload>, roots: Seq<u32>)
    requires
        seeded(uploads, roots),
    ensures
        roots.len() == 0 ==> uploads.len() == 2 && uploads[0].puts(
            Buffer::DagOutputCount,
            0,
            seq![0],
        ) && uploads[1].puts(Buffer::DagIndirectArgs, 0, seq![0, 1, 1]),
        0 < roots.len() <= 16384 ==> uploads.len() == 3 && uploads[0].puts(
            Buffer::DagWorkQueue,
            0,
            roots,
        ) && uploads[1].puts(Buffer::DagWorkCounters, 0, seq![0, roots.len() as u32, 0, 0])
            && uploads[2].puts(Buffer::DagOutputCount, 0, seq![0]),
        roots.len() > 16384 ==> uploads.len() == 3 && uploads[0].puts(
            Buffer::DagWorkQueue,
            0,
            roots.take(16384),
        ) && uploads[1].puts(Buffer::DagWorkCounters, 0, seq![0, 16384, 0, 0]) && uploads[2].puts(
            Buffer::DagOutputCount,
            0,
            seq![0],
        ),
{
    if roots.len() <= 16384 {
        assert(seeds(roots) =~= roots);
    }
}

/// The traversal has as many groups of threads as it was given, and one thread afterwards writes the
/// size of the next dispatch; both know the frame, the hierarchy and the queues.
pub proof fn traversal_prepares_the_next_dispatch(workgroups: u32)
    ensures
        ({
            let all = traverse_steps(frame_group(), dag_group(), workgroups);
            let queues = seq![
                Resource::Buffer(Buffer::MeshletGroups),
                Resource::Buffer(Buffer::DagWorkQueue),
                Resource::Buffer(Buffer::DagWorkCounters),
                Resource::Buffer(Buffer::DagOutputQueue),
                Resource::Buffer(Buffer::DagOutputCount),
                Resource::Buffer(Buffer::DagIndirectArgs),
            ];
            let frame = seq![Resource::Buffer(Buffer::FrameUniforms)];
            &&& all.len() == 2
            &&& (all[0] matches Step::Dispatch { pipeline, groups, x, y, z } && pipeline
                == Pipeline::DagTraverse && groups.len() == 2 && binds(
                groups[0],
                Layout::Frame,
                frame,
            ) && binds(groups[1], Layout::DagTraverse, queues) && x == workgroups && y == 1 && z
                == 1)
            &&& (all[1] matches Step::Dispatch { pipeline, groups, x, y, z } && pipeline
                == Pipeline::DagPrepareIndirect && groups.len() == 2 && binds(
                groups[0],
                Layout::Frame,
                frame,
            ) && binds(groups[1], Layout::DagTraverse, queues) && x == 1 && y == 1 && z == 1)
        }),
{
}

} // verus!
