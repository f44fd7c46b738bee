//! Animation of a tree in the wind: its rig moves level by level, and its vertices follow.

use vstd::prelude::*;

use crate::pipeline::gpu::{
    at_least_one, bind_buffer, binds, bound, compute_stage, covers, group, groups_cover_exactly,
    groups_for, storage_entry, uniform_buffer, uniform_entry, BindGroup, Buffer, BufferDesc,
    Command, GroupContents, Layout, LayoutEntry, Pipeline, Resource, Step,
};
use crate::pipeline::upload::{words_to, Upload};
use crate::pipeline::validity::{all_valid, valid};
use crate::scalar::{zero, Scalar, Vec4};
use crate::scene::settings::WindSettings;
use crate::scene::vertex::Vec2;

verus! {

/// Twenty words.
pub const REDWOOD_UNIFORM_SIZE: u64 = 80;

pub open spec fn common_entries() -> Seq<LayoutEntry> {
    seq![
        uniform_entry(0, compute_stage(), 0),
        storage_entry(1, true, compute_stage()),
        storage_entry(2, false, compute_stage()),
    ]
}

/// Uniforms, the nodes of the rig, and their states.
pub fn common_layout() -> (entries: Vec<LayoutEntry>)
    ensures
        entries@ == common_entries(),
{
    vec![
        uniform_entry(0, compute_stage(), 0),
        storage_entry(1, true, compute_stage()),
        storage_entry(2, false, compute_stage()),
    ]
}

pub open spec fn rest_entries() -> Seq<LayoutEntry> {
    seq![
        storage_entry(0, true, compute_stage()),
    ]
}

/// Vertices at rest.
pub fn rest_layout() -> (entries: Vec<LayoutEntry>)
    ensures
        entries@ == rest_entries(),
{
    vec![
        storage_entry(0, true, compute_stage()),
    ]
}

pub open spec fn output_entries() -> Seq<LayoutEntry> {
    seq![
        storage_entry(0, false, compute_stage()),
    ]
}

/// Vertices to write.
pub fn output_layout() -> (entries: Vec<LayoutEntry>)
    ensures
        entries@ == output_entries(),
{
    vec![
        storage_entry(0, false, compute_stage()),
    ]
}

/// The rig.
pub open spec fn common_group() -> GroupContents {
    bound(
        Layout::RedwoodCommon,
        seq![
            bind_buffer(0, Buffer::RedwoodUniforms),
            bind_buffer(1, Buffer::RigNodes),
            bind_buffer(2, Buffer::RigStates),
        ],
    )
}

/// Vertices at rest.
pub open spec fn rest_group(buffer: Buffer) -> GroupContents {
    bound(
        Layout::RedwoodRest,
        seq![
            bind_buffer(0, buffer),
        ],
    )
}

/// Vertices to write.
pub open spec fn output_group(buffer: Buffer) -> GroupContents {
    bound(
        Layout::RedwoodOutput,
        seq![
            bind_buffer(0, buffer),
        ],
    )
}

/// The nodes of one level of the rig.
#[derive(Clone, Copy, Debug, PartialEq, Eq, Structural)]
pub struct AnimatedRedwoodLevelRange {
    pub start: u32,
    pub count: u32,
}

/// A tree that bends in the wind.
#[derive(Debug)]
pub struct AnimatedRedwood {
    /// The levels of the rig, from the roots.
    pub level_ranges: Vec<AnimatedRedwoodLevelRange>,
    pub rest_vertex_count: u32,
    pub shadow_vertex_count: u32,
}

/// How many nodes the levels have together.
pub open spec fn node_total(ranges: Seq<AnimatedRedwoodLevelRange>) -> nat
    decreases ranges.len(),
{
    if ranges.len() == 0 {
        0
    } else {
        node_total(ranges.drop_last()) + ranges.last().count as nat
    }
}

/// What one frame of the animation depends on besides the tree.
#[derive(Clone, Copy, Debug, PartialEq, Eq, Structural)]
pub struct AnimationInputs {
    pub time: Scalar,
    pub dt: Scalar,
    /// The direction of the wind, of length one, or zero where there is none.
    pub wind_direction: Vec2,
    pub wind: WindSettings,
    /// The art direction of foliage: amplitude, response, sharpness of gusts, transmission.
    pub style: Vec4,
}

/// The uniforms of one dispatch, word by word.
pub open spec fn animation_words(
    range: AnimatedRedwoodLevelRange,
    node_count: u32,
    vertex_count: u32,
    inputs: AnimationInputs,
) -> Seq<u32> {
    seq![
        range.start,
        range.count,
        node_count,
        vertex_count,
        inputs.time.bits,
        inputs.dt.bits,
        0,
        0,
        inputs.wind_direction.x.bits,
        inputs.wind_direction.y.bits,
        if inputs.wind.frozen {
            0x3F80_0000
        } else {
            0
        },
        0,
        inputs.wind.mean_speed.bits,
        inputs.wind.gust_strength.bits,
        inputs.wind.gust_frequency.bits,
        inputs.wind.turbulence.bits,
        inputs.style.x.bits,
        inputs.style.y.bits,
        inputs.style.z.bits,
        inputs.style.w.bits,
    ]
}

/// Groups of 64 threads for so many items, and at least one.
pub open spec fn threads_for(items: u32) -> u32 {
    at_least_one(groups_for(items, 64))
}

/// A level of the rig moves.
pub open spec fn simulate_step(range: AnimatedRedwoodLevelRange) -> Step {
    Step::Dispatch {
        pipeline: Pipeline::RedwoodSimulate,
        groups: seq![common_group()],
        x: threads_for(range.count),
        y: 1,
        z: 1,
    }
}

/// Vertices follow the rig.
pub open spec fn deform_step(rest: Buffer, output: Buffer, vertex_count: u32) -> Step {
    Step::Dispatch {
        pipeline: Pipeline::RedwoodDeform,
        groups: seq![common_group(), rest_group(rest), output_group(output)],
        x: threads_for(vertex_count),
        y: 1,
        z: 1,
    }
}

/// All levels in order, then the vertices of the scene, then those of the shadow.
pub open spec fn animation_steps(
    ranges: Seq<AnimatedRedwoodLevelRange>,
    rest_vertex_count: u32,
    shadow_vertex_count: u32,
) -> Seq<Step> {
    ranges.map_values(|r: AnimatedRedwoodLevelRange| simulate_step(r)) + seq![
        deform_step(Buffer::RestVertices, Buffer::MeshVertices, rest_vertex_count),
        deform_step(Buffer::ShadowRestVertices, Buffer::ShadowVertices, shadow_vertex_count),
    ]
}

/// One dispatch of the animation: its uniforms, which are written after the dispatch before it was
/// submitted and before its own command is.
#[derive(Debug)]
pub struct AnimationStep {
    pub upload: Upload,
    pub command: Command,
}

/// All nodes.
pub open spec fn whole_rig(node_count: u32) -> AnimatedRedwoodLevelRange {
    AnimatedRedwoodLevelRange { start: 0, count: node_count }
}

/// The uniforms of each dispatch in turn: those of the levels, then, with all nodes, those of the
/// vertices of the scene and of the shadow.
pub open spec fn animation_uniforms(
    ranges: Seq<AnimatedRedwoodLevelRange>,
    rest_vertex_count: u32,
    shadow_vertex_count: u32,
    inputs: AnimationInputs,
) -> Seq<Seq<u32>> {
    let nodes = node_total(ranges) as u32;
    ranges.map_values(
        |r: AnimatedRedwoodLevelRange| animation_words(r, nodes, rest_vertex_count, inputs),
    ) + seq![
        animation_words(whole_rig(nodes), nodes, rest_vertex_count, inputs),
        animation_words(whole_rig(nodes), nodes, shadow_vertex_count, inputs),
    ]
}

/// The dispatches do what the animation asks, in its order, each with its own uniforms.
pub open spec fn animates(
    frame: Seq<AnimationStep>,
    tree: AnimatedRedwood,
    inputs: AnimationInputs,
) -> bool {
    let all = animation_steps(
        tree.level_ranges@,
        tree.rest_vertex_count,
        tree.shadow_vertex_count,
    );
    let uniforms = animation_uniforms(
        tree.level_ranges@,
        tree.rest_vertex_count,
        tree.shadow_vertex_count,
        inputs,
    );
    &&& frame.len() == all.len()
    &&& forall|i: int|
        0 <= i < frame.len() ==> (#[trigger] frame[i]).command@ == all[i] && frame[i].upload.puts(
            Buffer::RedwoodUniforms,
            0,
            uniforms[i],
        )
}

/// No frame is due: time does not advance, or the rig has no levels.
pub open spec fn at_rest(tree: AnimatedRedwood, inputs: AnimationInputs) -> bool {
    inputs.dt.lt(zero()) || inputs.dt.eq_value(zero()) || tree.level_ranges@.len() == 0
}

/// Animation of a tree in the wind.
#[derive(Clone, Copy, Debug, PartialEq, Eq, Structural)]
pub struct RedwoodAnimationPass;

impl RedwoodAnimationPass {
    pub fn new() -> (pass: RedwoodAnimationPass)
        ensures
            pass == RedwoodAnimationPass,
    {
        RedwoodAnimationPass
    }

    pub fn uniforms() -> (desc: BufferDesc)
        ensures
            desc == uniform_buffer(Buffer::RedwoodUniforms, REDWOOD_UNIFORM_SIZE),
    {
        uniform_buffer(Buffer::RedwoodUniforms, REDWOOD_UNIFORM_SIZE)
    }

    fn write_uniforms(
        &self,
        range: AnimatedRedwoodLevelRange,
        node_count: u32,
        vertex_count: u32,
        inputs: &AnimationInputs,
    ) -> (upload: Upload)
        ensures
            upload.puts(
                Buffer::RedwoodUniforms,
                0,
                animation_words(range, node_count, vertex_count, *inputs),
            ),
    {
        let frozen: u32 = if inputs.wind.frozen {
            0x3F80_0000
        } else {
            0
        };
        let words: Vec<u32> = vec![
            range.start,
            range.count,
            node_count,
            vertex_count,
            inputs.time.to_bits(),
            inputs.dt.to_bits(),
            0,
            0,
            inputs.wind_direction.x.to_bits(),
            inputs.wind_direction.y.to_bits(),
            frozen,
            0,
            inputs.wind.mean_speed.to_bits(),
            inputs.wind.gust_strength.to_bits(),
            inputs.wind.gust_frequency.to_bits(),
            inputs.wind.turbulence.to_bits(),
            inputs.style.x.to_bits(),
            inputs.style.y.to_bits(),
            inputs.style.z.to_bits(),
            inputs.style.w.to_bits(),
        ];
        assert(words@ =~= animation_words(range, node_count, vertex_count, *inputs));
        words_to(Buffer::RedwoodUniforms, words.as_slice())
    }

    /// The rig.
    fn create_common_bind_group(&self) -> (g: BindGroup)
        ensures
            g@ == common_group(),
    {
        let g = group(
            Layout::RedwoodCommon,
            vec![
                bind_buffer(0, Buffer::RedwoodUniforms),
                bind_buffer(1, Buffer::RigNodes),
                bind_buffer(2, Buffer::RigStates),
            ],
        );
        assert(g@ =~= common_group());
        g
    }

    /// Vertices at rest.
    fn create_rest_bind_group(&self, buffer: Buffer) -> (g: BindGroup)
        ensures
            g@ == rest_group(buffer),
    {
        let g = group(
            Layout::RedwoodRest,
            vec![
                bind_buffer(0, buffer),
            ],
        );
        assert(g@ =~= rest_group(buffer));
        g
    }

    /// Vertices to write.
    fn create_output_bind_group(&self, buffer: Buffer) -> (g: BindGroup)
        ensures
            g@ == output_group(buffer),
    {
        let g = group(
            Layout::RedwoodOutput,
            vec![
                bind_buffer(0, buffer),
            ],
        );
        assert(g@ =~= output_group(buffer));
        g
    }

    fn simulate(&self, range: AnimatedRedwoodLevelRange) -> (c: Command)
        ensures
            c@ == simulate_step(range),
    {
        let c = Command::Dispatch {
            pipeline: Pipeline::RedwoodSimulate,
            groups: vec![self.create_common_bind_group()],
            x: at_least_one(groups_for(range.count, 64)),
            y: 1,
            z: 1,
        };
        assert(c@ =~~= simulate_step(range));
        c
    }

    fn deform(&self, rest: Buffer, output: Buffer, vertex_count: u32) -> (c: Command)
        ensures
            c@ == deform_step(rest, output, vertex_count),
    {
        let c = Command::Dispatch {
            pipeline: Pipeline::RedwoodDeform,
            groups: vec![
                self.create_common_bind_group(),
                self.create_rest_bind_group(rest),
                self.create_output_bind_group(output),
            ],
            x: at_least_one(groups_for(vertex_count, 64)),
            y: 1,
            z: 1,
        };
        assert(c@ =~~= deform_step(rest, output, vertex_count));
        c
    }

    /// The dispatches of a frame of the animation, to be submitted one by one, or nothing where no
    /// frame is due.
    pub fn encode(&self, tree: &AnimatedRedwood, inputs: &AnimationInputs) -> (frame: Option<
        Vec<AnimationStep>,
    >)
        requires
            node_total(tree.level_ranges@) <= u32::MAX,
        ensures
            frame is None <==> at_rest(*tree, *inputs),
            frame matches Some(f) ==> animates(f@, *tree, *inputs),
    {
        let zero_value = Scalar::from_bits(0);
        if inputs.dt.less(zero_value) || inputs.dt.same(zero_value) || tree.level_ranges.len() == 0 {
            return None;
        }
        let ghost ranges = tree.level_ranges@;
        let mut node_count: u32 = 0;
        let mut i: usize = 0;
        while i < tree.level_ranges.len()
            invariant
                i <= tree.level_ranges@.len(),
                node_total(tree.level_ranges@) <= u32::MAX,
                node_count == node_total(tree.level_ranges@.take(i as int)),
            decreases tree.level_ranges@.len() - i,
        {
            proof {
                lemma_prefix_total(tree.level_ranges@, i as int + 1);
                assert(tree.level_ranges@.take(i as int + 1).drop_last()
                    =~= tree.level_ranges@.take(i as int));
            }
            node_count = node_count + tree.level_ranges[i].count;
            i = i + 1;
        }
        assert(tree.level_ranges@.take(i as int) =~= tree.level_ranges@);

        let ghost all = animation_steps(ranges, tree.rest_vertex_count, tree.shadow_vertex_count);
        let ghost uniforms = animation_uniforms(
            ranges,
            tree.rest_vertex_count,
            tree.shadow_vertex_count,
            *inputs,
        );
        let mut frame: Vec<AnimationStep> = Vec::new();
        let mut level: usize = 0;
        while level < tree.level_ranges.len()
            invariant
                ranges == tree.level_ranges@,
                node_count == node_total(ranges),
                all == animation_steps(ranges, tree.rest_vertex_count, tree.shadow_vertex_count),
                uniforms == animation_uniforms(
                    ranges,
                    tree.rest_vertex_count,
                    tree.shadow_vertex_count,
                    *inputs,
                ),
                level <= ranges.len(),
                frame@.len() == level,
                forall|k: int|
                    0 <= k < level ==> (#[trigger] frame@[k]).command@ == all[k]
                        && frame@[k].upload.puts(Buffer::RedwoodUniforms, 0, uniforms[k]),
            decreases ranges.len() - level,
        {
            let range = tree.level_ranges[level];
            let upload = self.write_uniforms(range, node_count, tree.rest_vertex_count, inputs);
            frame.push(AnimationStep { upload, command: self.simulate(range) });
            level = level + 1;
        }
        let rig = AnimatedRedwoodLevelRange { start: 0, count: node_count };
        frame.push(
            AnimationStep {
                upload: self.write_uniforms(rig, node_count, tree.rest_vertex_count, inputs),
                command: self.deform(
                    Buffer::RestVertices,
                    Buffer::MeshVertices,
                    tree.rest_vertex_count,
                ),
            },
        );
        frame.push(
            AnimationStep {
                upload: self.write_uniforms(rig, node_count, tree.shadow_vertex_count, inputs),
                command: self.deform(
                    Buffer::ShadowRestVertices,
                    Buffer::ShadowVertices,
                    tree.shadow_vertex_count,
                ),
            },
        );
        Some(frame)
    }
}

proof fn lemma_prefix_total(ranges: Seq<AnimatedRedwoodLevelRange>, n: int)
    requires
        0 <= n <= ranges.len(),
    ensures
        node_total(ranges.take(n)) <= node_total(ranges),
    decreases ranges.len(),
{
    if n == ranges.len() {
        assert(ranges.take(n) =~= ranges);
    } else {
        lemma_prefix_total(ranges.drop_last(), n);
        assert(ranges.drop_last().take(n) =~= ranges.take(n));
    }
}

/// Every command can be carried out, and vertices move after every level of the rig has.
pub proof fn animation_commands_are_valid(
    ranges: Seq<AnimatedRedwoodLevelRange>,
    rest_vertex_count: u32,
    shadow_vertex_count: u32,
)
    ensures
        all_valid(animation_steps(ranges, rest_vertex_count, shadow_vertex_count)),
{
    let all = animation_steps(ranges, rest_vertex_count, shadow_vertex_count);
    assert forall|i: int| 0 <= i < all.len() implies valid(#[trigger] all[i]) by {
        if i < ranges.len() {
            assert(valid(simulate_step(ranges[i])));
        } else if i == ranges.len() {
            assert(valid(deform_step(Buffer::RestVertices, Buffer::MeshVertices, rest_vertex_count)));
        } else {
            assert(valid(
                deform_step(Buffer::ShadowRestVertices, Buffer::ShadowVertices, shadow_vertex_count),
            ));
        }
    }
}

/// There are uniforms for every dispatch. Those of a level name its nodes, and its dispatch has a
/// thread for each of them; those of the vertices name all nodes and their number of vertices, and
/// their dispatch has a thread for each vertex.
pub proof fn dispatches_have_their_own_uniforms(
    ranges: Seq<AnimatedRedwoodLevelRange>,
    rest_vertex_count: u32,
    shadow_vertex_count: u32,
    inputs: AnimationInputs,
)
    requires
        node_total(ranges) <= u32::MAX,
    ensures
        ({
            let n = ranges.len() as int;
            let all = animation_steps(ranges, rest_vertex_count, shadow_vertex_count);
            let uniforms = animation_uniforms(
                ranges,
                rest_vertex_count,
                shadow_vertex_count,
                inputs,
            );
            &&& all.len() == n + 2
            &&& uniforms.len() == n + 2
            &&& forall|i: int|
                0 <= i < n ==> (#[trigger] uniforms[i])[0] == ranges[i].start && uniforms[i][1]
                    == ranges[i].count && all[i]->Dispatch_x * 64 >= ranges[i].count
            &&& forall|i: int|
                0 <= i < n + 2 ==> (#[trigger] uniforms[i])[2] == node_total(ranges)
            &&& uniforms[n][0] == 0 && uniforms[n][1] == node_total(ranges)
            &&& uniforms[n][3] == rest_vertex_count
            &&& all[n]->Dispatch_x * 64 >= rest_vertex_count
            &&& uniforms[n + 1][0] == 0 && uniforms[n + 1][1] == node_total(ranges)
            &&& uniforms[n + 1][3] == shadow_vertex_count
            &&& all[n + 1]->Dispatch_x * 64 >= shadow_vertex_count
        }),
{
}

/// The uniforms fill their buffer, and every node and vertex has a thread.
pub proof fn animation_covers_the_tree(
    range: AnimatedRedwoodLevelRange,
    node_count: u32,
    vertex_count: u32,
    inputs: AnimationInputs,
)
    ensures
        4 * animation_words(range, node_count, vertex_count, inputs).len() == REDWOOD_UNIFORM_SIZE,
        threads_for(range.count) * 64 >= range.count,
        threads_for(vertex_count) * 64 >= vertex_count,
{
}

/// The step moves items of the rig or of its vertices, in groups of 64 and one at least, with the rig
/// and these buffers.
pub open spec fn moves(
    step: Step,
    pipeline: Pipeline,
    buffers: Seq<(Layout, Buffer)>,
    items: int,
) -> bool {
    match step {
        Step::Dispatch { pipeline: p, groups, x, y, z } => {
            &&& p == pipeline
            &&& groups.len() == 1 + buffers.len()
            &&& binds(
                groups[0],
                Layout::RedwoodCommon,
                seq![
                    Resource::Buffer(Buffer::RedwoodUniforms),
                    Resource::Buffer(Buffer::RigNodes),
                    Resource::Buffer(Buffer::RigStates),
                ],
            )
            &&& forall|i: int|
                0 <= i < buffers.len() ==> binds(
                    #[trigger] groups[1 + i],
                    buffers[i].0,
                    seq![Resource::Buffer(buffers[i].1)],
                )
            &&& items > 0 ==> covers(x, 64, items)
            &&& items == 0 ==> x == 1
            &&& y == 1
            &&& z == 1
        },
        _ => false,
    }
}

/// The words tell a dispatch of its nodes, of all nodes and vertices, of the time, and of the wind.
pub open spec fn tells(
    w: Seq<u32>,
    start: int,
    count: int,
    nodes: int,
    vertices: u32,
    inputs: AnimationInputs,
) -> bool {
    &&& w.len() == 20
    &&& w[0] == start && w[1] == count && w[2] == nodes && w[3] == vertices
    &&& w[4] == inputs.time.bits && w[5] == inputs.dt.bits && w[6] == 0 && w[7] == 0
    &&& w[8] == inputs.wind_direction.x.bits && w[9] == inputs.wind_direction.y.bits
    &&& w[10] == if inputs.wind.frozen {
        0x3F80_0000u32
    } else {
        0
    }
    &&& w[11] == 0
    &&& w[12] == inputs.wind.mean_speed.bits && w[13] == inputs.wind.gust_strength.bits
    &&& w[14] == inputs.wind.gust_frequency.bits && w[15] == inputs.wind.turbulence.bits
    &&& w[16] == inputs.style.x.bits && w[17] == inputs.style.y.bits
    &&& w[18] == inputs.style.z.bits && w[19] == inputs.style.w.bits
}

/// A frame of the animation moves every level of the rig in its order, then the vertices of the scene,
/// then those of the shadow; each dispatch is told its own range.
pub proof fn trees_move_from_the_roots_out(
    frame: Seq<AnimationStep>,
    tree: AnimatedRedwood,
    inputs: AnimationInputs,
    i: int,
) -> (w: Seq<u32>)
    requires
        node_total(tree.level_ranges@) <= u32::MAX,
        animates(frame, tree, inputs),
        0 <= i < frame.len(),
    ensures
        ({
            let n = tree.level_ranges@.len() as int;
            let nodes = node_total(tree.level_ranges@) as int;
            &&& frame.len() == n + 2
            &&& frame[i].upload.puts(Buffer::RedwoodUniforms, 0, w)
            &&& i < n ==> moves(
                frame[i].command@,
                Pipeline::RedwoodSimulate,
                Seq::empty(),
                tree.level_ranges@[i].count as int,
            ) && tells(
                w,
                tree.level_ranges@[i].start as int,
                tree.level_ranges@[i].count as int,
                nodes,
                tree.rest_vertex_count,
                inputs,
            )
            &&& i == n ==> moves(
                frame[i].command@,
                Pipeline::RedwoodDeform,
                seq![
                    (Layout::RedwoodRest, Buffer::RestVertices),
                    (Layout::RedwoodOutput, Buffer::MeshVertices),
                ],
                tree.rest_vertex_count as int,
            ) && tells(w, 0, nodes, nodes, tree.rest_vertex_count, inputs)
            &&& i == n + 1 ==> moves(
                frame[i].command@,
                Pipeline::RedwoodDeform,
                seq![
                    (Layout::RedwoodRest, Buffer::ShadowRestVertices),
                    (Layout::RedwoodOutput, Buffer::ShadowVertices),
                ],
                tree.shadow_vertex_count as int,
            ) && tells(w, 0, nodes, nodes, tree.shadow_vertex_count, inputs)
        }),
{
    let n = tree.level_ranges@.len() as int;
    let uniforms = animation_uniforms(
        tree.level_ranges@,
        tree.rest_vertex_count,
        tree.shadow_vertex_count,
        inputs,
    );
    let all = animation_steps(
        tree.level_ranges@,
        tree.rest_vertex_count,
        tree.shadow_vertex_count,
    );
    assert(frame[i].command@ == all[i]);
    if i < n {
        groups_cover_exactly(tree.level_ranges@[i].count, 64);
        assert(all[i] == simulate_step(tree.level_ranges@[i]));
    }
    groups_cover_exactly(tree.rest_vertex_count, 64);
    groups_cover_exactly(tree.shadow_vertex_count, 64);
    uniforms[i]
}

/// The nodes of all levels are counted: each level adds its own, and none has none.
pub proof fn levels_add_their_nodes(ranges: Seq<AnimatedRedwoodLevelRange>)
    ensures
        ranges.len() == 0 ==> node_total(ranges) == 0,
        ranges.len() > 0 ==> node_total(ranges) == node_total(ranges.drop_last())
            + ranges.last().count,
{
}

/// No frame is due exactly where the time since the last one is not above zero, and a number, or the
/// rig has no levels.
pub proof fn trees_rest_where_time_does(tree: AnimatedRedwood, inputs: AnimationInputs)
    ensures
        at_rest(tree, inputs) <==> (!inputs.dt.is_nan() && !(Scalar { bits: 0 }).lt(inputs.dt))
            || tree.level_ranges@.len() == 0,
{
}

} // verus!
