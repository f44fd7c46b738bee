//! Joining meshlet hierarchies into one.

use vstd::prelude::*;

use crate::dag_cut::{
    acyclic, cut, cut_children, cut_group, cut_stack, good_enough, ranked, some_rank,
};
use crate::meshlet::{
    is_child, is_root, listed_before, root_list, root_list_is_exact, roots_before, DagContents,
    Meshlet, MeshletDag, MeshletGroup,
};
use crate::scalar::Scalar;

verus! {

pub open spec fn empty_contents() -> DagContents {
    DagContents {
        meshlets: Seq::empty(),
        meshlet_vertices: Seq::empty(),
        meshlet_triangles: Seq::empty(),
        groups: Seq::empty(),
        vertices: Seq::empty(),
        level_offsets: seq![0u32],
    }
}

pub open spec fn shifted_meshlet(m: Meshlet, vertices: int, triangles: int) -> Meshlet {
    Meshlet {
        vertex_offset: (m.vertex_offset + vertices) as u32,
        triangle_offset: (m.triangle_offset + triangles) as u32,
        ..m
    }
}

/// A group whose meshlets and children have moved up. The child offset of a leaf stays as it is.
pub open spec fn shifted_group(g: MeshletGroup, meshlets: int, groups: int) -> MeshletGroup {
    MeshletGroup {
        meshlet_start: (g.meshlet_start + meshlets) as u32,
        child_start: if g.child_count > 0 {
            (g.child_start + groups) as u32
        } else {
            g.child_start
        },
        ..g
    }
}

/// A hierarchy with another behind it, the references of the second moved to where its data went.
pub open spec fn appended(acc: DagContents, d: DagContents) -> DagContents {
    DagContents {
        meshlets: acc.meshlets + d.meshlets.map_values(
            |m: Meshlet|
                shifted_meshlet(
                    m,
                    acc.meshlet_vertices.len() as int,
                    acc.meshlet_triangles.len() as int,
                ),
        ),
        meshlet_vertices: acc.meshlet_vertices + d.meshlet_vertices.map_values(
            |v: u32| (v + acc.vertices.len()) as u32,
        ),
        meshlet_triangles: acc.meshlet_triangles + d.meshlet_triangles,
        groups: acc.groups + d.groups.map_values(
            |g: MeshletGroup|
                shifted_group(g, acc.meshlets.len() as int, acc.groups.len() as int),
        ),
        vertices: acc.vertices + d.vertices,
        level_offsets: acc.level_offsets,
    }
}

/// All hierarchies, one behind the other.
pub open spec fn concatenated(dags: Seq<DagContents>) -> DagContents
    decreases dags.len(),
{
    if dags.len() == 0 {
        empty_contents()
    } else {
        appended(concatenated(dags.drop_last()), dags.last())
    }
}

/// What merging gives: a single hierarchy is kept as it is, level offsets included.
pub open spec fn merged(dags: Seq<DagContents>) -> DagContents {
    if dags.len() == 1 {
        dags[0]
    } else {
        concatenated(dags)
    }
}

/// Every reference of `d` still fits its field when `d` is put behind `acc`.
pub open spec fn fits(acc: DagContents, d: DagContents) -> bool {
    &&& acc.vertices.len() <= u32::MAX
    &&& acc.meshlet_vertices.len() <= u32::MAX
    &&& acc.meshlet_triangles.len() <= u32::MAX
    &&& acc.meshlets.len() <= u32::MAX
    &&& acc.groups.len() <= u32::MAX
    &&& forall|i: int|
        0 <= i < d.meshlet_vertices.len() ==> (#[trigger] d.meshlet_vertices[i])
            + acc.vertices.len() <= u32::MAX
    &&& forall|i: int|
        0 <= i < d.meshlets.len() ==> (#[trigger] d.meshlets[i]).vertex_offset
            + acc.meshlet_vertices.len() <= u32::MAX && d.meshlets[i].triangle_offset
            + acc.meshlet_triangles.len() <= u32::MAX
    &&& forall|i: int|
        0 <= i < d.groups.len() ==> (#[trigger] d.groups[i]).meshlet_start + acc.meshlets.len()
            <= u32::MAX && (d.groups[i].child_count > 0 ==> d.groups[i].child_start
            + acc.groups.len() <= u32::MAX)
}

/// Every hierarchy fits behind those before it.
pub open spec fn mergeable(dags: Seq<DagContents>) -> bool {
    forall|k: int|
        0 <= k < dags.len() ==> fits(concatenated(dags.take(k)), #[trigger] dags[k])
}

pub open spec fn contents(dags: Seq<MeshletDag>) -> Seq<DagContents> {
    dags.map_values(|d: MeshletDag| d@)
}

impl MeshletDag {
    /// A hierarchy without data.
    pub fn empty() -> (dag: MeshletDag)
        ensures
            dag@ == empty_contents(),
    {
        let dag = MeshletDag {
            meshlets: Vec::new(),
            meshlet_vertices: Vec::new(),
            meshlet_triangles: Vec::new(),
            groups: Vec::new(),
            vertices: Vec::new(),
            level_offsets: vec![0],
        };
        assert(dag@ =~= empty_contents());
        dag
    }

    /// A second hierarchy with the same contents.
    pub fn duplicate(&self) -> (dag: MeshletDag)
        ensures
            dag@ == self@,
    {
        let dag = MeshletDag {
            meshlets: self.meshlets.clone(),
            meshlet_vertices: self.meshlet_vertices.clone(),
            meshlet_triangles: self.meshlet_triangles.clone(),
            groups: self.groups.clone(),
            vertices: self.vertices.clone(),
            level_offsets: self.level_offsets.clone(),
        };
        assert(dag@ =~= self@);
        dag
    }

    /// Puts a copy of another hierarchy behind this one.
    fn append_shifted(&mut self, dag: &MeshletDag)
        requires
            fits(old(self)@, dag@),
        ensures
            final(self)@ == appended(old(self)@, dag@),
    {
        let ghost acc = self@;
        let vertex_base: u32 = self.vertices.len() as u32;
        let meshlet_vertex_base: u32 = self.meshlet_vertices.len() as u32;
        let tri_base: u32 = self.meshlet_triangles.len() as u32;
        let meshlet_base: u32 = self.meshlets.len() as u32;
        let group_base: u32 = self.groups.len() as u32;
        let ghost goal = appended(acc, dag@);

        self.vertices.extend_from_slice(dag.vertices.as_slice());
        self.meshlet_triangles.extend_from_slice(dag.meshlet_triangles.as_slice());
        assert(self.vertices@ =~= goal.vertices);
        assert(self.meshlet_triangles@ =~= goal.meshlet_triangles);

        let mut i: usize = 0;
        while i < dag.meshlet_vertices.len()
            invariant
                i <= dag.meshlet_vertices@.len(),
                fits(acc, dag@),
                goal == appended(acc, dag@),
                vertex_base == acc.vertices.len(),
                self.meshlet_vertices@ == goal.meshlet_vertices.take(
                    acc.meshlet_vertices.len() + i,
                ),
                self.vertices@ == goal.vertices,
                self.meshlet_triangles@ == goal.meshlet_triangles,
                self.meshlets@ == acc.meshlets,
                self.groups@ == acc.groups,
                self.level_offsets@ == acc.level_offsets,
            decreases dag.meshlet_vertices@.len() - i,
        {
            assert(dag@.meshlet_vertices[i as int] + acc.vertices.len() <= u32::MAX);
            self.meshlet_vertices.push(dag.meshlet_vertices[i] + vertex_base);
            i = i + 1;
            assert(self.meshlet_vertices@ =~= goal.meshlet_vertices.take(
                acc.meshlet_vertices.len() + i,
            ));
        }
        assert(self.meshlet_vertices@ =~= goal.meshlet_vertices);

        let mut j: usize = 0;
        while j < dag.meshlets.len()
            invariant
                j <= dag.meshlets@.len(),
                fits(acc, dag@),
                goal == appended(acc, dag@),
                meshlet_vertex_base == acc.meshlet_vertices.len(),
                tri_base == acc.meshlet_triangles.len(),
                self.meshlets@ == goal.meshlets.take(acc.meshlets.len() + j),
                self.vertices@ == goal.vertices,
                self.meshlet_triangles@ == goal.meshlet_triangles,
                self.meshlet_vertices@ == goal.meshlet_vertices,
                self.groups@ == acc.groups,
                self.level_offsets@ == acc.level_offsets,
            decreases dag.meshlets@.len() - j,
        {
            let mut meshlet: Meshlet = dag.meshlets[j];
            assert(meshlet == dag@.meshlets[j as int]);
            meshlet.vertex_offset = meshlet.vertex_offset + meshlet_vertex_base;
            meshlet.triangle_offset = meshlet.triangle_offset + tri_base;
            self.meshlets.push(meshlet);
            j = j + 1;
            assert(self.meshlets@ =~= goal.meshlets.take(acc.meshlets.len() + j));
        }
        assert(self.meshlets@ =~= goal.meshlets);

        let mut k: usize = 0;
        while k < dag.groups.len()
            invariant
                k <= dag.groups@.len(),
                fits(acc, dag@),
                goal == appended(acc, dag@),
                meshlet_base == acc.meshlets.len(),
                group_base == acc.groups.len(),
                self.groups@ == goal.groups.take(acc.groups.len() + k),
                self.vertices@ == goal.vertices,
                self.meshlet_triangles@ == goal.meshlet_triangles,
                self.meshlet_vertices@ == goal.meshlet_vertices,
                self.meshlets@ == goal.meshlets,
                self.level_offsets@ == acc.level_offsets,
            decreases dag.groups@.len() - k,
        {
            let mut group: MeshletGroup = dag.groups[k];
            assert(group == dag@.groups[k as int]);
            group.meshlet_start = group.meshlet_start + meshlet_base;
            if group.child_count > 0 {
                group.child_start = group.child_start + group_base;
            }
            self.groups.push(group);
            k = k + 1;
            assert(self.groups@ =~= goal.groups.take(acc.groups.len() + k));
        }
        assert(self.groups@ =~= goal.groups);
        assert(self@ =~= goal);
    }
}

/// Joins hierarchies into one, in order.
pub fn merge_meshlet_dags(dags: &[MeshletDag]) -> (dag: MeshletDag)
    requires
        dags@.len() > 1 ==> mergeable(contents(dags@)),
    ensures
        dag@ == merged(contents(dags@)),
{
    if dags.len() == 0 {
        return MeshletDag::empty();
    }
    if dags.len() == 1 {
        return dags[0].duplicate();
    }
    let mut result = MeshletDag::empty();
    let mut i: usize = 0;
    while i < dags.len()
        invariant
            i <= dags@.len(),
            mergeable(contents(dags@)),
            result@ == concatenated(contents(dags@).take(i as int)),
        decreases dags@.len() - i,
    {
        let ghost all = contents(dags@);
        assert(all[i as int] == dags@[i as int]@);
        assert(fits(concatenated(all.take(i as int)), all[i as int]));
        result.append_shifted(&dags[i]);
        assert(all.take(i + 1).drop_last() == all.take(i as int));
        i = i + 1;
    }
    assert(contents(dags@).take(i as int) == contents(dags@));
    result
}

/// Whether every reference of a hierarchy still fits when it is put behind one with tables of these
/// lengths.
fn fits_behind(
    Ghost(acc): Ghost<DagContents>,
    vertices: u32,
    meshlet_vertices: u32,
    triangles: u32,
    meshlets: u32,
    groups: u32,
    dag: &MeshletDag,
) -> (r: bool)
    requires
        acc.vertices.len() == vertices,
        acc.meshlet_vertices.len() == meshlet_vertices,
        acc.meshlet_triangles.len() == triangles,
        acc.meshlets.len() == meshlets,
        acc.groups.len() == groups,
    ensures
        r == fits(acc, dag@),
{
    let mut i: usize = 0;
    while i < dag.meshlet_vertices.len()
        invariant
            i <= dag.meshlet_vertices@.len(),
            acc.vertices.len() == vertices,
            forall|x: int|
                0 <= x < i ==> (#[trigger] dag@.meshlet_vertices[x]) + acc.vertices.len()
                    <= u32::MAX,
        decreases dag.meshlet_vertices@.len() - i,
    {
        if dag.meshlet_vertices[i] > u32::MAX - vertices {
            assert(!(dag@.meshlet_vertices[i as int] + acc.vertices.len() <= u32::MAX));
            return false;
        }
        i = i + 1;
    }
    let mut j: usize = 0;
    while j < dag.meshlets.len()
        invariant
            j <= dag.meshlets@.len(),
            acc.meshlet_vertices.len() == meshlet_vertices,
            acc.meshlet_triangles.len() == triangles,
            forall|x: int|
                0 <= x < j ==> (#[trigger] dag@.meshlets[x]).vertex_offset
                    + acc.meshlet_vertices.len() <= u32::MAX && dag@.meshlets[x].triangle_offset
                    + acc.meshlet_triangles.len() <= u32::MAX,
        decreases dag.meshlets@.len() - j,
    {
        let meshlet: Meshlet = dag.meshlets[j];
        assert(meshlet == dag@.meshlets[j as int]);
        if meshlet.vertex_offset > u32::MAX - meshlet_vertices || meshlet.triangle_offset > u32::MAX
            - triangles {
            return false;
        }
        j = j + 1;
    }
    let mut k: usize = 0;
    while k < dag.groups.len()
        invariant
            k <= dag.groups@.len(),
            acc.meshlets.len() == meshlets,
            acc.groups.len() == groups,
            forall|x: int|
                0 <= x < k ==> (#[trigger] dag@.groups[x]).meshlet_start + acc.meshlets.len()
                    <= u32::MAX && (dag@.groups[x].child_count > 0 ==> dag@.groups[x].child_start
                    + acc.groups.len() <= u32::MAX),
        decreases dag.groups@.len() - k,
    {
        let group: MeshletGroup = dag.groups[k];
        assert(group == dag@.groups[k as int]);
        if group.meshlet_start > u32::MAX - meshlets || (group.child_count > 0 && group.child_start
            > u32::MAX - groups) {
            return false;
        }
        k = k + 1;
    }
    true
}

/// Whether hierarchies can be joined: every reference still fits its field.
pub fn can_merge(dags: &[MeshletDag]) -> (r: bool)
    ensures
        r == mergeable(contents(dags@)),
{
    let ghost all = contents(dags@);
    let mut vertices: u128 = 0;
    let mut meshlet_vertices: u128 = 0;
    let mut triangles: u128 = 0;
    let mut meshlets: u128 = 0;
    let mut groups: u128 = 0;
    let mut i: usize = 0;
    while i < dags.len()
        invariant
            i <= dags@.len(),
            all == contents(dags@),
            ({
                let acc = concatenated(all.take(i as int));
                &&& acc.vertices.len() == vertices
                &&& acc.meshlet_vertices.len() == meshlet_vertices
                &&& acc.meshlet_triangles.len() == triangles
                &&& acc.meshlets.len() == meshlets
                &&& acc.groups.len() == groups
            }),
            forall|k: int| 0 <= k < i ==> fits(concatenated(all.take(k)), #[trigger] all[k]),
        decreases dags@.len() - i,
    {
        let ghost acc = concatenated(all.take(i as int));
        assert(all[i as int] == dags@[i as int]@);
        let limit: u128 = u32::MAX as u128;
        if vertices > limit || meshlet_vertices > limit || triangles > limit || meshlets > limit
            || groups > limit {
            assert(!fits(acc, all[i as int]));
            return false;
        }
        let dag = &dags[i];
        let fitting = fits_behind(
            Ghost(acc),
            vertices as u32,
            meshlet_vertices as u32,
            triangles as u32,
            meshlets as u32,
            groups as u32,
            dag,
        );
        if !fitting {
            assert(!fits(acc, all[i as int]));
            return false;
        }
        assert(all.take(i + 1).drop_last() == all.take(i as int));
        assert(all.take(i + 1).last() == dag@);
        vertices = vertices + dag.vertices.len() as u128;
        meshlet_vertices = meshlet_vertices + dag.meshlet_vertices.len() as u128;
        triangles = triangles + dag.meshlet_triangles.len() as u128;
        meshlets = meshlets + dag.meshlets.len() as u128;
        groups = groups + dag.groups.len() as u128;
        i = i + 1;
    }
    true
}

// ---------------------------------------------------------------------------------------------
// What a merge promises
// ---------------------------------------------------------------------------------------------

/// Every reference points into the hierarchy's own data.
pub open spec fn well_formed(d: DagContents) -> bool {
    &&& forall|i: int|
        0 <= i < d.meshlet_vertices.len() ==> (#[trigger] d.meshlet_vertices[i])
            < d.vertices.len()
    &&& forall|i: int|
        0 <= i < d.meshlets.len() ==> (#[trigger] d.meshlets[i]).vertex_offset
            + d.meshlets[i].vertex_count <= d.meshlet_vertices.len()
            && d.meshlets[i].triangle_offset + 3 * d.meshlets[i].triangle_count
            <= d.meshlet_triangles.len()
    &&& forall|i: int|
        0 <= i < d.groups.len() ==> (#[trigger] d.groups[i]).meshlet_start
            + d.groups[i].meshlet_count <= d.meshlets.len()
    &&& children_exist(d.groups)
}

/// Every child of every group is a group.
pub open spec fn children_exist(groups: Seq<MeshletGroup>) -> bool {
    forall|i: int|
        0 <= i < groups.len() && (#[trigger] groups[i]).child_count > 0 ==> groups[i].child_start
            + groups[i].child_count <= groups.len()
}

/// All tables are short enough to be indexed by `u32`.
pub open spec fn indexable(d: DagContents) -> bool {
    &&& d.vertices.len() <= u32::MAX
    &&& d.meshlet_vertices.len() <= u32::MAX
    &&& d.meshlet_triangles.len() <= u32::MAX
    &&& d.meshlets.len() <= u32::MAX
    &&& d.groups.len() <= u32::MAX
}

/// Well-formed hierarchies whose joint tables can be indexed merge without any reference
/// overflowing, and the result is well formed.
pub proof fn merge_keeps_references_valid(dags: Seq<DagContents>)
    requires
        forall|k: int| 0 <= k < dags.len() ==> well_formed(#[trigger] dags[k]),
        indexable(concatenated(dags)),
    ensures
        mergeable(dags),
        well_formed(concatenated(dags)),
    decreases dags.len(),
{
    if dags.len() > 0 {
        let rest = dags.drop_last();
        let acc = concatenated(rest);
        let d = dags.last();
        assert forall|k: int| 0 <= k < rest.len() implies well_formed(#[trigger] rest[k]) by {
            assert(rest[k] == dags[k]);
        }
        merge_keeps_references_valid(rest);
        assert(d == dags[dags.len() - 1]);
        lemma_append_fits(acc, d);
        lemma_append_well_formed(acc, d);
        assert forall|k: int| 0 <= k < dags.len() implies fits(
            concatenated(dags.take(k)),
            #[trigger] dags[k],
        ) by {
            if k < rest.len() {
                assert(rest.take(k) == dags.take(k));
                assert(rest[k] == dags[k]);
            } else {
                assert(dags.take(k) == rest);
            }
        }
    }
}

proof fn lemma_append_fits(acc: DagContents, d: DagContents)
    requires
        well_formed(d),
        indexable(appended(acc, d)),
    ensures
        fits(acc, d),
{
    assert forall|i: int| 0 <= i < d.groups.len() implies (#[trigger] d.groups[i]).meshlet_start
        + acc.meshlets.len() <= u32::MAX && (d.groups[i].child_count > 0
        ==> d.groups[i].child_start + acc.groups.len() <= u32::MAX) by {
        assert(appended(acc, d).groups.len() == acc.groups.len() + d.groups.len());
        assert(appended(acc, d).meshlets.len() == acc.meshlets.len() + d.meshlets.len());
    }
}

proof fn lemma_append_well_formed(acc: DagContents, d: DagContents)
    requires
        well_formed(acc),
        well_formed(d),
        fits(acc, d),
    ensures
        well_formed(appended(acc, d)),
{
    let r = appended(acc, d);
    assert forall|i: int| 0 <= i < r.meshlet_vertices.len() implies (
    #[trigger] r.meshlet_vertices[i]) < r.vertices.len() by {
        if i >= acc.meshlet_vertices.len() {
            let j = i - acc.meshlet_vertices.len();
            assert(d.meshlet_vertices[j] < d.vertices.len());
        }
    }
    assert forall|i: int| 0 <= i < r.meshlets.len() implies (#[trigger] r.meshlets[i]).vertex_offset
        + r.meshlets[i].vertex_count <= r.meshlet_vertices.len() && r.meshlets[i].triangle_offset
        + 3 * r.meshlets[i].triangle_count <= r.meshlet_triangles.len() by {
        if i >= acc.meshlets.len() {
            let j = i - acc.meshlets.len();
            assert(d.meshlets[j].vertex_offset + acc.meshlet_vertices.len() <= u32::MAX);
        } else {
            assert(r.meshlets[i] == acc.meshlets[i]);
        }
    }
    assert forall|i: int| 0 <= i < r.groups.len() implies (#[trigger] r.groups[i]).meshlet_start
        + r.groups[i].meshlet_count <= r.meshlets.len() by {
        if i >= acc.groups.len() {
            let j = i - acc.groups.len();
            assert(d.groups[j].meshlet_start + acc.meshlets.len() <= u32::MAX);
        } else {
            assert(r.groups[i] == acc.groups[i]);
        }
    }
    lemma_append_children(acc, d);
}

proof fn lemma_append_children(acc: DagContents, d: DagContents)
    requires
        children_exist(acc.groups),
        children_exist(d.groups),
        fits(acc, d),
    ensures
        children_exist(appended(acc, d).groups),
        forall|p: int, c: int|
            0 <= p < acc.groups.len() ==> #[trigger] is_child(appended(acc, d).groups, p, c)
                == is_child(acc.groups, p, c),
        forall|p: int, c: int|
            acc.groups.len() <= p ==> #[trigger] is_child(appended(acc, d).groups, p, c)
                == is_child(d.groups, p - acc.groups.len(), c - acc.groups.len()),
{
    let n = acc.groups.len();
    let r = appended(acc, d).groups;
    assert forall|i: int| n <= i < r.len() implies (#[trigger] r[i]).child_count
        == d.groups[i - n].child_count && (r[i].child_count > 0 ==> r[i].child_start
        == d.groups[i - n].child_start + n) by {
        assert(d.groups[i - n].meshlet_start + acc.meshlets.len() <= u32::MAX);
    }
    assert forall|i: int| 0 <= i < n implies #[trigger] r[i] == acc.groups[i] by {}
}

/// The data of every hierarchy is found in the merged one, behind the data of those before it.
pub proof fn merge_keeps_every_part(dags: Seq<DagContents>, k: int)
    requires
        0 <= k < dags.len(),
    ensures
        ({
            let base = concatenated(dags.take(k));
            let whole = concatenated(dags);
            let part = dags[k];
            &&& forall|i: int|
                0 <= i < part.vertices.len() ==> whole.vertices[base.vertices.len() + i]
                    == #[trigger] part.vertices[i]
            &&& forall|i: int|
                0 <= i < part.meshlet_triangles.len()
                    ==> whole.meshlet_triangles[base.meshlet_triangles.len() + i]
                    == #[trigger] part.meshlet_triangles[i]
            &&& forall|i: int|
                0 <= i < part.meshlet_vertices.len()
                    ==> whole.meshlet_vertices[base.meshlet_vertices.len() + i] == (
                #[trigger] part.meshlet_vertices[i] + base.vertices.len()) as u32
            &&& forall|i: int|
                0 <= i < part.meshlets.len() ==> whole.meshlets[base.meshlets.len() + i]
                    == shifted_meshlet(
                    #[trigger] part.meshlets[i],
                    base.meshlet_vertices.len() as int,
                    base.meshlet_triangles.len() as int,
                )
            &&& forall|i: int|
                0 <= i < part.groups.len() ==> whole.groups[base.groups.len() + i]
                    == shifted_group(
                    #[trigger] part.groups[i],
                    base.meshlets.len() as int,
                    base.groups.len() as int,
                )
        }),
    decreases dags.len(),
{
    let rest = dags.drop_last();
    if k < rest.len() {
        merge_keeps_every_part(rest, k);
        assert(rest.take(k) == dags.take(k));
        assert(rest[k] == dags[k]);
        lemma_prefix_shorter(rest, k);
    } else {
        assert(dags.take(k) == rest);
    }
}

proof fn lemma_prefix_shorter(dags: Seq<DagContents>, k: int)
    requires
        0 <= k < dags.len(),
    ensures
        concatenated(dags.take(k)).vertices.len() + dags[k].vertices.len() <= concatenated(
            dags,
        ).vertices.len(),
        concatenated(dags.take(k)).meshlet_vertices.len() + dags[k].meshlet_vertices.len()
            <= concatenated(dags).meshlet_vertices.len(),
        concatenated(dags.take(k)).meshlet_triangles.len() + dags[k].meshlet_triangles.len()
            <= concatenated(dags).meshlet_triangles.len(),
        concatenated(dags.take(k)).meshlets.len() + dags[k].meshlets.len() <= concatenated(
            dags,
        ).meshlets.len(),
        concatenated(dags.take(k)).groups.len() + dags[k].groups.len() <= concatenated(
            dags,
        ).groups.len(),
    decreases dags.len(),
{
    let rest = dags.drop_last();
    if k < rest.len() {
        lemma_prefix_shorter(rest, k);
        assert(rest.take(k) == dags.take(k));
        assert(rest[k] == dags[k]);
    } else {
        assert(dags.take(k) == rest);
    }
}

/// Nothing in front of a hierarchy moves nothing.
proof fn lemma_append_to_nothing(d: DagContents)
    ensures
        appended(empty_contents(), d) == (DagContents { level_offsets: seq![0u32], ..d }),
{
    let e = appended(empty_contents(), d);
    assert(e.meshlets =~= d.meshlets);
    assert(e.meshlet_vertices =~= d.meshlet_vertices);
    assert(e.meshlet_triangles =~= d.meshlet_triangles);
    assert(e.groups =~= d.groups);
    assert(e.vertices =~= d.vertices);
}

proof fn lemma_append_associative(a: DagContents, b: DagContents, c: DagContents)
    requires
        fits(a, b),
        fits(appended(a, b), c),
    ensures
        appended(appended(a, b), c) == appended(a, appended(b, c)),
        fits(b, c),
        fits(a, appended(b, c)),
{
    let ab = appended(a, b);
    let bc = appended(b, c);
    assert(fits(a, bc)) by {
        assert forall|i: int| 0 <= i < bc.meshlet_vertices.len() implies (
        #[trigger] bc.meshlet_vertices[i]) + a.vertices.len() <= u32::MAX by {
            if i < b.meshlet_vertices.len() {
                assert(bc.meshlet_vertices[i] == b.meshlet_vertices[i]);
            } else {
                let v = c.meshlet_vertices[i - b.meshlet_vertices.len()];
                assert(v + ab.vertices.len() <= u32::MAX);
            }
        }
        assert forall|i: int| 0 <= i < bc.meshlets.len() implies (
        #[trigger] bc.meshlets[i]).vertex_offset + a.meshlet_vertices.len() <= u32::MAX
            && bc.meshlets[i].triangle_offset + a.meshlet_triangles.len() <= u32::MAX by {
            if i < b.meshlets.len() {
                assert(bc.meshlets[i] == b.meshlets[i]);
            } else {
                let m = c.meshlets[i - b.meshlets.len()];
                assert(m.vertex_offset + ab.meshlet_vertices.len() <= u32::MAX);
            }
        }
        assert forall|i: int| 0 <= i < bc.groups.len() implies (
        #[trigger] bc.groups[i]).meshlet_start + a.meshlets.len() <= u32::MAX && (
        bc.groups[i].child_count > 0 ==> bc.groups[i].child_start + a.groups.len()
            <= u32::MAX) by {
            if i < b.groups.len() {
                assert(bc.groups[i] == b.groups[i]);
            } else {
                let g = c.groups[i - b.groups.len()];
                assert(g.meshlet_start + ab.meshlets.len() <= u32::MAX);
            }
        }
    }
    let left = appended(ab, c);
    let right = appended(a, bc);
    assert forall|i: int| 0 <= i < left.meshlets.len() implies left.meshlets[i]
        == right.meshlets[i] by {
        let n = a.meshlets.len() + b.meshlets.len();
        if i >= n {
            assert(c.meshlets[i - n].vertex_offset + ab.meshlet_vertices.len() <= u32::MAX);
        } else if i >= a.meshlets.len() {
            assert(b.meshlets[i - a.meshlets.len()].vertex_offset + a.meshlet_vertices.len()
                <= u32::MAX);
        }
    }
    assert(left.meshlets =~= right.meshlets);
    assert forall|i: int| 0 <= i < left.meshlet_vertices.len() implies left.meshlet_vertices[i]
        == right.meshlet_vertices[i] by {
        let n = a.meshlet_vertices.len() + b.meshlet_vertices.len();
        if i >= n {
            assert(c.meshlet_vertices[i - n] + ab.vertices.len() <= u32::MAX);
        }
    }
    assert(left.meshlet_vertices =~= right.meshlet_vertices);
    assert(left.meshlet_triangles =~= right.meshlet_triangles);
    assert forall|i: int| 0 <= i < left.groups.len() implies left.groups[i]
        == right.groups[i] by {
        let n = a.groups.len() + b.groups.len();
        if i >= n {
            assert(c.groups[i - n].meshlet_start + ab.meshlets.len() <= u32::MAX);
        }
    }
    assert(left.groups =~= right.groups);
    assert(left.vertices =~= right.vertices);
}

proof fn lemma_concatenated_in_parts(x: Seq<DagContents>, y: Seq<DagContents>)
    requires
        mergeable(x + y),
    ensures
        concatenated(x + y) == appended(concatenated(x), concatenated(y)),
        mergeable(x),
        mergeable(y),
        y.len() > 0 ==> fits(concatenated(x), concatenated(y)),
    decreases y.len(),
{
    let all = x + y;
    assert(mergeable(x)) by {
        assert forall|k: int| 0 <= k < x.len() implies fits(
            concatenated(x.take(k)),
            #[trigger] x[k],
        ) by {
            assert(all[k] == x[k]);
            assert(all.take(k) =~= x.take(k));
        }
    }
    if y.len() == 0 {
        assert(all =~= x);
        assert(appended(concatenated(x), empty_contents()) =~= concatenated(x));
    } else {
        let rest = y.drop_last();
        let d = y.last();
        assert(all.drop_last() =~= x + rest);
        assert(mergeable(x + rest)) by {
            assert forall|k: int| 0 <= k < (x + rest).len() implies fits(
                concatenated((x + rest).take(k)),
                #[trigger] (x + rest)[k],
            ) by {
                assert(all[k] == (x + rest)[k]);
                assert(all.take(k) =~= (x + rest).take(k));
            }
        }
        lemma_concatenated_in_parts(x, rest);
        let last = all.len() - 1;
        assert(all[last] == d);
        assert(all.take(last) =~= x + rest);
        assert(fits(concatenated(x + rest), d));
        if rest.len() == 0 {
            assert(x + rest =~= x);
            lemma_append_to_nothing(d);
            assert(appended(concatenated(x), d) =~= appended(concatenated(x), concatenated(y)));
            assert(y.take(0) =~= rest);
        } else {
            lemma_append_associative(concatenated(x), concatenated(rest), d);
        }
        assert forall|k: int| 0 <= k < y.len() implies fits(
            concatenated(y.take(k)),
            #[trigger] y[k],
        ) by {
            if k < rest.len() {
                assert(rest[k] == y[k]);
                assert(rest.take(k) =~= y.take(k));
            } else {
                assert(y.take(k) =~= rest);
            }
        }
    }
}

/// Merging in parts is merging at once: two lists, each merged by itself, give together what both
/// give in one go. (A list of one hierarchy keeps its level offsets, so that case is left out.)
#[verifier::rlimit(40)]
pub proof fn merging_in_parts_is_merging_at_once(x: Seq<DagContents>, y: Seq<DagContents>)
    requires
        (x + y).len() != 1,
        mergeable(x + y),
    ensures
        merged(seq![merged(x), merged(y)]) == merged(x + y),
        mergeable(x),
        mergeable(y),
        y.len() > 0 ==> mergeable(seq![merged(x), merged(y)]),
{
    lemma_concatenated_in_parts(x, y);
    let base = concatenated(x);
    lemma_merged_as_part(empty_contents(), x);
    lemma_merged_as_part(base, y);
    lemma_level_offsets(x);
    lemma_append_to_nothing(base);
    assert(appended(empty_contents(), merged(x)) == base);
    lemma_pair(merged(x), merged(y));
    if (x + y).len() == 0 {
        assert(x + y =~= x);
    }
}

proof fn lemma_pair(first: DagContents, second: DagContents)
    ensures
        ({
            let pair = seq![first, second];
            let alone = appended(empty_contents(), first);
            &&& concatenated(pair) == appended(alone, second)
            &&& fits(alone, second) ==> mergeable(pair)
        }),
{
    let pair = seq![first, second];
    let alone = appended(empty_contents(), first);
    assert(pair.take(0) =~= Seq::empty());
    assert(concatenated(pair.take(0)) == empty_contents());
    assert(pair.take(1).drop_last() =~= pair.take(0));
    assert(pair.take(1).last() == first);
    assert(concatenated(pair.take(1)) == alone);
    assert(pair.drop_last() =~= pair.take(1));
    assert(pair.last() == second);
    assert(fits(empty_contents(), first));
    if fits(alone, second) {
        assert forall|k: int| 0 <= k < pair.len() implies fits(
            concatenated(pair.take(k)),
            #[trigger] pair[k],
        ) by {
            assert(k == 0 || k == 1);
        }
    }
}

/// Behind others, a merged list is what its hierarchies are, one behind the other.
proof fn lemma_merged_as_part(acc: DagContents, dags: Seq<DagContents>)
    ensures
        appended(acc, merged(dags)) == appended(acc, concatenated(dags)),
        fits(acc, merged(dags)) == fits(acc, concatenated(dags)),
{
    if dags.len() == 1 {
        assert(dags.drop_last() =~= Seq::empty());
        assert(concatenated(dags.drop_last()) == empty_contents());
        lemma_append_to_nothing(dags[0]);
    }
}

proof fn lemma_level_offsets(dags: Seq<DagContents>)
    ensures
        concatenated(dags).level_offsets == seq![0u32],
    decreases dags.len(),
{
    if dags.len() > 0 {
        lemma_level_offsets(dags.drop_last());
    }
}

/// It does not matter which two of three hierarchies that fit behind each other are merged first.
pub proof fn merging_is_associative(a: DagContents, b: DagContents, c: DagContents)
    requires
        mergeable(seq![a, b, c]),
    ensures
        mergeable(seq![a, b]),
        mergeable(seq![b, c]),
        mergeable(seq![merged(seq![a, b]), c]),
        mergeable(seq![a, merged(seq![b, c])]),
        merged(seq![merged(seq![a, b]), c]) == merged(seq![a, b, c]),
        merged(seq![a, merged(seq![b, c])]) == merged(seq![a, b, c]),
{
    assert(seq![a, b] + seq![c] =~= seq![a, b, c]);
    assert(seq![a] + seq![b, c] =~= seq![a, b, c]);
    merging_in_parts_is_merging_at_once(seq![a, b], seq![c]);
    merging_in_parts_is_merging_at_once(seq![a], seq![b, c]);
}

/// The roots of one hierarchy behind another are the roots of the first, then those of the second.
pub proof fn merged_roots_are_the_roots_of_the_parts(acc: DagContents, d: DagContents)
    requires
        children_exist(acc.groups),
        children_exist(d.groups),
        fits(acc, d),
        acc.groups.len() + d.groups.len() <= u32::MAX,
    ensures
        root_list(appended(acc, d).groups) == root_list(acc.groups) + root_list(
            d.groups,
        ).map_values(|g: u32| (g + acc.groups.len()) as u32),
{
    lemma_append_children(acc, d);
    let r = appended(acc, d).groups;
    let n = acc.groups.len();
    assert forall|g: int| 0 <= g < n implies is_root(r, g) == is_root(acc.groups, g) by {
        if listed_before(r, r.len() as int, g) {
            let p = choose|p: int| p < r.len() && #[trigger] is_child(r, p, g);
            if p >= n {
                assert(is_child(d.groups, p - n, g - n));
            } else {
                assert(is_child(acc.groups, p, g));
            }
        }
        if listed_before(acc.groups, n as int, g) {
            let p = choose|p: int| p < n && #[trigger] is_child(acc.groups, p, g);
            assert(is_child(r, p, g));
        }
    }
    assert forall|g: int| n <= g < r.len() implies is_root(r, g) == is_root(d.groups, g - n) by {
        if listed_before(r, r.len() as int, g) {
            let p = choose|p: int| p < r.len() && #[trigger] is_child(r, p, g);
            if p < n {
                assert(is_child(acc.groups, p, g));
                assert(acc.groups[p].child_count > 0);
            } else {
                assert(is_child(d.groups, p - n, g - n));
            }
        }
        if listed_before(d.groups, d.groups.len() as int, g - n) {
            let p = choose|p: int| p < d.groups.len() && #[trigger] is_child(d.groups, p, g - n);
            assert(is_child(r, p + n, g));
        }
    }
    lemma_roots_first(acc.groups, r, n);
    lemma_roots_second(acc.groups, d.groups, r, d.groups.len());
    assert(n + d.groups.len() == r.len());
}

proof fn lemma_roots_first(a: Seq<MeshletGroup>, r: Seq<MeshletGroup>, m: nat)
    requires
        m <= a.len(),
        forall|g: int| 0 <= g < a.len() ==> is_root(r, g) == is_root(a, g),
    ensures
        roots_before(r, m) == roots_before(a, m),
    decreases m,
{
    if m > 0 {
        lemma_roots_first(a, r, (m - 1) as nat);
    }
}

proof fn lemma_roots_second(
    a: Seq<MeshletGroup>,
    b: Seq<MeshletGroup>,
    r: Seq<MeshletGroup>,
    m: nat,
)
    requires
        m <= b.len(),
        r.len() == a.len() + b.len(),
        a.len() + b.len() <= u32::MAX,
        forall|g: int| a.len() <= g < r.len() ==> is_root(r, g) == is_root(b, g - a.len()),
        roots_before(r, a.len()) == root_list(a),
    ensures
        roots_before(r, a.len() + m) == root_list(a) + roots_before(b, m).map_values(
            |g: u32| (g + a.len()) as u32,
        ),
    decreases m,
{
    let f = |g: u32| (g + a.len()) as u32;
    if m > 0 {
        lemma_roots_second(a, b, r, (m - 1) as nat);
        assert(is_root(r, a.len() + m - 1) == is_root(b, m - 1));
        assert(roots_before(b, m).map_values(f) =~= if is_root(b, m - 1) {
            roots_before(b, (m - 1) as nat).map_values(f).push((a.len() + m - 1) as u32)
        } else {
            roots_before(b, (m - 1) as nat).map_values(f)
        });
    } else {
        assert(roots_before(b, 0).map_values(f) =~= Seq::empty());
    }
    assert(roots_before(r, a.len() + m) =~= root_list(a) + roots_before(b, m).map_values(f));
}

/// Merging changes nothing about what is drawn: the cut of one hierarchy behind another is the cut
/// of the second, with its groups renumbered, and then the cut of the first.
pub proof fn merged_cut_is_the_cuts_of_the_parts(
    acc: DagContents,
    d: DagContents,
    acc_errors: Seq<Scalar>,
    d_errors: Seq<Scalar>,
    threshold: Scalar,
)
    requires
        acyclic(acc.groups),
        acyclic(d.groups),
        fits(acc, d),
        acc.groups.len() + d.groups.len() <= u32::MAX,
        acc_errors.len() == acc.groups.len(),
        d_errors.len() == d.groups.len(),
    ensures
        acyclic(appended(acc, d).groups),
        cut(appended(acc, d).groups, acc_errors + d_errors, threshold) == cut(
            d.groups,
            d_errors,
            threshold,
        ).map_values(|g: u32| (g + acc.groups.len()) as u32) + cut(
            acc.groups,
            acc_errors,
            threshold,
        ),
{
    lemma_acyclic_children_exist(acc.groups);
    lemma_acyclic_children_exist(d.groups);
    lemma_append_acyclic(acc, d);
    merged_roots_are_the_roots_of_the_parts(acc, d);
    let r = appended(acc, d).groups;
    let e = acc_errors + d_errors;
    let n = acc.groups.len();
    let f = |g: u32| (g + n) as u32;
    root_list_is_exact(acc.groups);
    root_list_is_exact(d.groups);
    assert forall|k: int| 0 <= k < root_list(acc.groups).len() implies (#[trigger] root_list(
        acc.groups,
    )[k]) < n by {
        assert(root_list(acc.groups).contains(root_list(acc.groups)[k]));
    }
    assert forall|k: int| 0 <= k < root_list(d.groups).len() implies (#[trigger] root_list(
        d.groups,
    )[k]) < d.groups.len() by {
        assert(root_list(d.groups).contains(root_list(d.groups)[k]));
    }
    lemma_first_cut(acc, d, e, acc_errors, threshold, root_list(acc.groups));
    lemma_second_cut(acc, d, e, d_errors, threshold, root_list(d.groups));
    lemma_stack_concat(
        r,
        e,
        threshold,
        root_list(acc.groups),
        root_list(d.groups).map_values(f),
    );
}

proof fn lemma_acyclic_children_exist(groups: Seq<MeshletGroup>)
    requires
        acyclic(groups),
    ensures
        children_exist(groups),
{
    assert(ranked(groups, some_rank(groups)));
    assert forall|i: int|
        0 <= i < groups.len() && (#[trigger] groups[i]).child_count > 0 implies groups[i].child_start
        + groups[i].child_count <= groups.len() by {
        assert(is_child(groups, i, groups[i].child_start + groups[i].child_count - 1));
    }
}

proof fn lemma_append_acyclic(acc: DagContents, d: DagContents)
    requires
        acyclic(acc.groups),
        acyclic(d.groups),
        fits(acc, d),
    ensures
        acyclic(appended(acc, d).groups),
{
    lemma_acyclic_children_exist(acc.groups);
    lemma_acyclic_children_exist(d.groups);
    lemma_append_children(acc, d);
    let r = appended(acc, d).groups;
    let n = acc.groups.len();
    let ra = some_rank(acc.groups);
    let rd = some_rank(d.groups);
    assert(ranked(acc.groups, ra));
    assert(ranked(d.groups, rd));
    let rank = ra + rd;
    assert forall|p: int, c: int| #[trigger] is_child(r, p, c) implies c < r.len() && rank[c]
        < rank[p] by {
        if p < n {
            assert(is_child(acc.groups, p, c));
        } else {
            assert(is_child(d.groups, p - n, c - n));
        }
    }
    assert(ranked(r, rank));
}

proof fn lemma_stack_concat(
    groups: Seq<MeshletGroup>,
    errors: Seq<Scalar>,
    threshold: Scalar,
    low: Seq<u32>,
    high: Seq<u32>,
)
    ensures
        cut_stack(groups, errors, threshold, low + high) == cut_stack(
            groups,
            errors,
            threshold,
            high,
        ) + cut_stack(groups, errors, threshold, low),
    decreases high.len(),
{
    let both = low + high;
    if high.len() == 0 {
        assert(both == low);
    } else {
        assert(both.drop_last() == low + high.drop_last());
        assert(both.last() == high.last());
        lemma_stack_concat(groups, errors, threshold, low, high.drop_last());
    }
    assert(cut_stack(groups, errors, threshold, both) =~= cut_stack(
        groups,
        errors,
        threshold,
        high,
    ) + cut_stack(groups, errors, threshold, low));
}

proof fn lemma_first_cut(
    acc: DagContents,
    d: DagContents,
    e: Seq<Scalar>,
    errors: Seq<Scalar>,
    threshold: Scalar,
    stack: Seq<u32>,
)
    requires
        acyclic(acc.groups),
        acyclic(d.groups),
        fits(acc, d),
        errors.len() == acc.groups.len(),
        errors.len() <= e.len(),
        forall|i: int| 0 <= i < errors.len() ==> e[i] == errors[i],
        forall|k: int| 0 <= k < stack.len() ==> (#[trigger] stack[k]) < acc.groups.len(),
    ensures
        cut_stack(appended(acc, d).groups, e, threshold, stack) == cut_stack(
            acc.groups,
            errors,
            threshold,
            stack,
        ),
    decreases stack.len(),
{
    if stack.len() > 0 {
        assert(stack[stack.len() - 1] < acc.groups.len());
        assert forall|k: int| 0 <= k < stack.drop_last().len() implies (#[trigger] stack.drop_last()[
            k
        ]) < acc.groups.len() by {
            assert(stack.drop_last()[k] == stack[k]);
        }
        lemma_first_cut(acc, d, e, errors, threshold, stack.drop_last());
        lemma_first_group(acc, d, e, errors, threshold, stack.last() as int);
    }
}

proof fn lemma_first_group(
    acc: DagContents,
    d: DagContents,
    e: Seq<Scalar>,
    errors: Seq<Scalar>,
    threshold: Scalar,
    g: int,
)
    requires
        acyclic(acc.groups),
        acyclic(d.groups),
        fits(acc, d),
        errors.len() == acc.groups.len(),
        errors.len() <= e.len(),
        forall|i: int| 0 <= i < errors.len() ==> e[i] == errors[i],
        0 <= g < acc.groups.len(),
    ensures
        cut_group(appended(acc, d).groups, e, threshold, g) == cut_group(
            acc.groups,
            errors,
            threshold,
            g,
        ),
    decreases some_rank(acc.groups)[g], 1nat, 0nat,
{
    lemma_append_acyclic(acc, d);
    assert(appended(acc, d).groups[g] == acc.groups[g]);
    assert(good_enough(appended(acc, d).groups, e, threshold, g) == good_enough(
        acc.groups,
        errors,
        threshold,
        g,
    ));
    lemma_first_children(acc, d, e, errors, threshold, g, acc.groups[g].child_count as nat);
}

proof fn lemma_first_children(
    acc: DagContents,
    d: DagContents,
    e: Seq<Scalar>,
    errors: Seq<Scalar>,
    threshold: Scalar,
    p: int,
    n: nat,
)
    requires
        acyclic(acc.groups),
        acyclic(d.groups),
        fits(acc, d),
        errors.len() == acc.groups.len(),
        errors.len() <= e.len(),
        forall|i: int| 0 <= i < errors.len() ==> e[i] == errors[i],
        0 <= p < acc.groups.len(),
        n <= acc.groups[p].child_count,
    ensures
        cut_children(appended(acc, d).groups, e, threshold, p, n) == cut_children(
            acc.groups,
            errors,
            threshold,
            p,
            n,
        ),
    decreases some_rank(acc.groups)[p], 0nat, n,
{
    lemma_append_acyclic(acc, d);
    assert(appended(acc, d).groups[p] == acc.groups[p]);
    if n > 0 {
        let c = acc.groups[p].child_start + n - 1;
        assert(ranked(acc.groups, some_rank(acc.groups)));
        assert(is_child(acc.groups, p, c));
        lemma_first_group(acc, d, e, errors, threshold, c);
        lemma_first_children(acc, d, e, errors, threshold, p, (n - 1) as nat);
    }
}

proof fn lemma_second_cut(
    acc: DagContents,
    d: DagContents,
    e: Seq<Scalar>,
    errors: Seq<Scalar>,
    threshold: Scalar,
    stack: Seq<u32>,
)
    requires
        acyclic(acc.groups),
        acyclic(d.groups),
        fits(acc, d),
        acc.groups.len() + d.groups.len() <= u32::MAX,
        errors.len() == d.groups.len(),
        e.len() == acc.groups.len() + errors.len(),
        forall|i: int| 0 <= i < errors.len() ==> e[acc.groups.len() + i] == #[trigger] errors[i],
        forall|k: int| 0 <= k < stack.len() ==> (#[trigger] stack[k]) < d.groups.len(),
    ensures
        cut_stack(
            appended(acc, d).groups,
            e,
            threshold,
            stack.map_values(|g: u32| (g + acc.groups.len()) as u32),
        ) == cut_stack(d.groups, errors, threshold, stack).map_values(
            |g: u32| (g + acc.groups.len()) as u32,
        ),
    decreases stack.len(),
{
    let f = |g: u32| (g + acc.groups.len()) as u32;
    let r = appended(acc, d).groups;
    if stack.len() > 0 {
        let rest = stack.drop_last();
        assert(stack[stack.len() - 1] < d.groups.len());
        assert forall|k: int| 0 <= k < rest.len() implies (#[trigger] rest[k]) < d.groups.len() by {
            assert(rest[k] == stack[k]);
        }
        lemma_second_cut(acc, d, e, errors, threshold, rest);
        lemma_second_group(acc, d, e, errors, threshold, stack.last() as int);
        assert(stack.map_values(f).drop_last() == rest.map_values(f));
        assert(stack.map_values(f).last() == stack.last() + acc.groups.len());
        assert(cut_stack(r, e, threshold, stack.map_values(f)) =~= cut_stack(
            d.groups,
            errors,
            threshold,
            stack,
        ).map_values(f));
    } else {
        assert(stack.map_values(f) =~= Seq::empty());
        assert(cut_stack(d.groups, errors, threshold, stack).map_values(f) =~= Seq::empty());
    }
}

proof fn lemma_second_group(
    acc: DagContents,
    d: DagContents,
    e: Seq<Scalar>,
    errors: Seq<Scalar>,
    threshold: Scalar,
    g: int,
)
    requires
        acyclic(acc.groups),
        acyclic(d.groups),
        fits(acc, d),
        acc.groups.len() + d.groups.len() <= u32::MAX,
        errors.len() == d.groups.len(),
        e.len() == acc.groups.len() + errors.len(),
        forall|i: int| 0 <= i < errors.len() ==> e[acc.groups.len() + i] == #[trigger] errors[i],
        0 <= g < d.groups.len(),
    ensures
        cut_group(appended(acc, d).groups, e, threshold, acc.groups.len() + g) == cut_group(
            d.groups,
            errors,
            threshold,
            g,
        ).map_values(|g: u32| (g + acc.groups.len()) as u32),
    decreases some_rank(d.groups)[g], 1nat, 0nat,
{
    lemma_append_acyclic(acc, d);
    let f = |g: u32| (g + acc.groups.len()) as u32;
    let r = appended(acc, d).groups;
    let at = acc.groups.len() + g;
    assert(r[at] == shifted_group(
        d.groups[g],
        acc.meshlets.len() as int,
        acc.groups.len() as int,
    ));
    assert(e[acc.groups.len() + g] == errors[g]);
    if good_enough(d.groups, errors, threshold, g) {
        assert(cut_group(d.groups, errors, threshold, g).map_values(f) =~= seq![at as u32]);
    } else {
        lemma_second_children(acc, d, e, errors, threshold, g, d.groups[g].child_count as nat);
    }
}

proof fn lemma_second_children(
    acc: DagContents,
    d: DagContents,
    e: Seq<Scalar>,
    errors: Seq<Scalar>,
    threshold: Scalar,
    p: int,
    n: nat,
)
    requires
        acyclic(acc.groups),
        acyclic(d.groups),
        fits(acc, d),
        acc.groups.len() + d.groups.len() <= u32::MAX,
        errors.len() == d.groups.len(),
        e.len() == acc.groups.len() + errors.len(),
        forall|i: int| 0 <= i < errors.len() ==> e[acc.groups.len() + i] == #[trigger] errors[i],
        0 <= p < d.groups.len(),
        n <= d.groups[p].child_count,
    ensures
        cut_children(appended(acc, d).groups, e, threshold, acc.groups.len() + p, n)
            == cut_children(d.groups, errors, threshold, p, n).map_values(
            |g: u32| (g + acc.groups.len()) as u32,
        ),
    decreases some_rank(d.groups)[p], 0nat, n,
{
    lemma_append_acyclic(acc, d);
    let f = |g: u32| (g + acc.groups.len()) as u32;
    let r = appended(acc, d).groups;
    let at = acc.groups.len() + p;
    assert(r[at] == shifted_group(
        d.groups[p],
        acc.meshlets.len() as int,
        acc.groups.len() as int,
    ));
    if n > 0 {
        let c = d.groups[p].child_start + n - 1;
        assert(ranked(d.groups, some_rank(d.groups)));
        assert(is_child(d.groups, p, c));
        lemma_second_group(acc, d, e, errors, threshold, c);
        lemma_second_children(acc, d, e, errors, threshold, p, (n - 1) as nat);
        assert(r[at].child_start + n - 1 == acc.groups.len() + c);
        assert(cut_children(r, e, threshold, at, n) =~= cut_children(
            d.groups,
            errors,
            threshold,
            p,
            n,
        ).map_values(f));
    } else {
        assert(cut_children(d.groups, errors, threshold, p, n).map_values(f) =~= Seq::empty());
    }
}

/// Merged parts keep pointing at their own data: every reference of a part is moved by exactly as many
/// rows as stand before the part, and nothing else about it changes.
pub proof fn merged_parts_point_at_their_own_data(dags: Seq<DagContents>, k: int, i: int)
    requires
        mergeable(dags),
        0 <= k < dags.len(),
        0 <= i,
    ensures
        ({
            let base = concatenated(dags.take(k));
            let whole = concatenated(dags);
            let part = dags[k];
            &&& i < part.vertices.len() ==> whole.vertices[base.vertices.len() + i]
                == part.vertices[i]
            &&& i < part.meshlet_triangles.len()
                ==> whole.meshlet_triangles[base.meshlet_triangles.len() + i]
                == part.meshlet_triangles[i]
            &&& i < part.meshlet_vertices.len()
                ==> whole.meshlet_vertices[base.meshlet_vertices.len() + i]
                == part.meshlet_vertices[i] + base.vertices.len()
            &&& i < part.meshlets.len() ==> {
                let m = whole.meshlets[base.meshlets.len() + i];
                &&& m.vertex_offset == part.meshlets[i].vertex_offset + base.meshlet_vertices.len()
                &&& m.triangle_offset == part.meshlets[i].triangle_offset
                    + base.meshlet_triangles.len()
                &&& m.vertex_count == part.meshlets[i].vertex_count
                &&& m.triangle_count == part.meshlets[i].triangle_count
            }
            &&& i < part.groups.len() ==> {
                let g = whole.groups[base.groups.len() + i];
                &&& g.meshlet_start == part.groups[i].meshlet_start + base.meshlets.len()
                &&& g.meshlet_count == part.groups[i].meshlet_count
                &&& g.child_count == part.groups[i].child_count
                &&& g.child_count > 0 ==> g.child_start == part.groups[i].child_start
                    + base.groups.len()
                &&& g.child_count == 0 ==> g.child_start == part.groups[i].child_start
                &&& g.error == part.groups[i].error
                &&& g.bounds == part.groups[i].bounds
                &&& g.level == part.groups[i].level
            }
        }),
{
    merge_keeps_every_part(dags, k);
    let base = concatenated(dags.take(k));
    let part = dags[k];
    assert(fits(base, part));
    if i < part.meshlet_vertices.len() {
        assert(part.meshlet_vertices[i] + base.vertices.len() <= u32::MAX);
    }
    if i < part.meshlets.len() {
        assert(part.meshlets[i].vertex_offset + base.meshlet_vertices.len() <= u32::MAX);
    }
    if i < part.groups.len() {
        assert(part.groups[i].meshlet_start + base.meshlets.len() <= u32::MAX);
    }
}

/// The tables of a merge have the rows of all parts and no others; it starts one level. No hierarchy
/// merges to an empty one, and a single one to itself.
pub proof fn merged_tables_have_all_rows(dags: Seq<DagContents>)
    requires
        dags.len() > 0,
    ensures
        ({
            let whole = concatenated(dags);
            let before = concatenated(dags.drop_last());
            let last = dags.last();
            &&& whole.vertices.len() == before.vertices.len() + last.vertices.len()
            &&& whole.meshlet_vertices.len() == before.meshlet_vertices.len()
                + last.meshlet_vertices.len()
            &&& whole.meshlet_triangles.len() == before.meshlet_triangles.len()
                + last.meshlet_triangles.len()
            &&& whole.meshlets.len() == before.meshlets.len() + last.meshlets.len()
            &&& whole.groups.len() == before.groups.len() + last.groups.len()
            &&& whole.level_offsets == before.level_offsets
        }),
        concatenated(Seq::<DagContents>::empty()).vertices.len() == 0,
        concatenated(Seq::<DagContents>::empty()).meshlet_vertices.len() == 0,
        concatenated(Seq::<DagContents>::empty()).meshlet_triangles.len() == 0,
        concatenated(Seq::<DagContents>::empty()).meshlets.len() == 0,
        concatenated(Seq::<DagContents>::empty()).groups.len() == 0,
        concatenated(Seq::<DagContents>::empty()).level_offsets == seq![0u32],
        merged(Seq::<DagContents>::empty()) == concatenated(Seq::<DagContents>::empty()),
        dags.len() == 1 ==> merged(dags) == dags[0],
        dags.len() > 1 ==> merged(dags) == concatenated(dags),
{
}

} // verus!
