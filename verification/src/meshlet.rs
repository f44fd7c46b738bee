//! The meshlet hierarchy: groups of meshlets, each coarser than the groups it refers to.

use vstd::prelude::*;

use crate::scalar::Scalar;
use crate::scene::bounds::Vec3;
use crate::scene::vertex::Vertex;

verus! {

#[derive(Clone, Copy, Debug, PartialEq, Eq, Structural)]
pub struct MeshletBounds {
    pub center: Vec3,
    pub radius: Scalar,
    pub cone_axis: Vec3,
    pub cone_cutoff: Scalar,
}

/// A run of indices into the vertex table and a run of triangle corners.
#[derive(Clone, Copy, Debug, PartialEq, Eq, Structural)]
pub struct Meshlet {
    pub vertex_offset: u32,
    pub triangle_offset: u32,
    pub vertex_count: u32,
    pub triangle_count: u32,
}

/// A run of meshlets that are drawn together or replaced together by the finer groups
/// `child_start .. child_start + child_count`.
#[derive(Clone, Copy, Debug, PartialEq, Eq, Structural)]
pub struct MeshletGroup {
    pub meshlet_start: u32,
    pub meshlet_count: u32,
    pub child_start: u32,
    pub child_count: u32,
    pub error: Scalar,
    pub bounds: MeshletBounds,
    pub level: u32,
}

#[derive(Clone, Debug)]
pub struct MeshletDag {
    pub meshlets: Vec<Meshlet>,
    pub meshlet_vertices: Vec<u32>,
    pub meshlet_triangles: Vec<u8>,
    pub groups: Vec<MeshletGroup>,
    pub vertices: Vec<Vertex>,
    pub level_offsets: Vec<u32>,
}

/// The contents of a [`MeshletDag`].
#[verifier::ext_equal]
pub struct DagContents {
    pub meshlets: Seq<Meshlet>,
    pub meshlet_vertices: Seq<u32>,
    pub meshlet_triangles: Seq<u8>,
    pub groups: Seq<MeshletGroup>,
    pub vertices: Seq<Vertex>,
    pub level_offsets: Seq<u32>,
}

impl View for MeshletDag {
    type V = DagContents;

    open spec fn view(&self) -> DagContents {
        DagContents {
            meshlets: self.meshlets@,
            meshlet_vertices: self.meshlet_vertices@,
            meshlet_triangles: self.meshlet_triangles@,
            groups: self.groups@,
            vertices: self.vertices@,
            level_offsets: self.level_offsets@,
        }
    }
}

// ---------------------------------------------------------------------------------------------
// Parents, children and roots
// ---------------------------------------------------------------------------------------------

/// Whether group `p` lists group `c` among its finer groups.
pub open spec fn is_child(groups: Seq<MeshletGroup>, p: int, c: int) -> bool {
    &&& 0 <= p < groups.len()
    &&& groups[p].child_start <= c < groups[p].child_start + groups[p].child_count
}

/// Whether some group before `n` lists `c`.
pub open spec fn listed_before(groups: Seq<MeshletGroup>, n: int, c: int) -> bool {
    exists|p: int| p < n && #[trigger] is_child(groups, p, c)
}

/// A group that no group lists.
pub open spec fn is_root(groups: Seq<MeshletGroup>, g: int) -> bool {
    0 <= g < groups.len() && !listed_before(groups, groups.len() as int, g)
}

/// The roots among the first `n` groups, in ascending order.
pub open spec fn roots_before(groups: Seq<MeshletGroup>, n: nat) -> Seq<u32>
    decreases n,
{
    if n == 0 {
        Seq::empty()
    } else if is_root(groups, n - 1) {
        roots_before(groups, (n - 1) as nat).push((n - 1) as u32)
    } else {
        roots_before(groups, (n - 1) as nat)
    }
}

/// All the roots, in ascending order.
pub open spec fn root_list(groups: Seq<MeshletGroup>) -> Seq<u32> {
    roots_before(groups, groups.len())
}

/// The list of roots ascends strictly, and holds a group exactly where no group lists it.
pub proof fn root_list_is_exact(groups: Seq<MeshletGroup>)
    requires
        groups.len() <= u32::MAX,
    ensures
        forall|i: int, j: int|
            0 <= i < j < root_list(groups).len() ==> root_list(groups)[i] < root_list(groups)[j],
        forall|g: u32| #[trigger] root_list(groups).contains(g) <==> is_root(groups, g as int),
{
    lemma_roots_before(groups, groups.len());
    assert forall|g: u32| #[trigger] root_list(groups).contains(g) <==> is_root(
        groups,
        g as int,
    ) by {
        if is_root(groups, g as int) {
            assert(root_list(groups).contains(g));
        }
    }
}

proof fn lemma_roots_before(groups: Seq<MeshletGroup>, n: nat)
    requires
        n <= groups.len() <= u32::MAX,
    ensures
        forall|i: int|
            0 <= i < roots_before(groups, n).len() ==> (#[trigger] roots_before(groups, n)[i]) < n
                && is_root(groups, roots_before(groups, n)[i] as int),
        forall|i: int, j: int|
            0 <= i < j < roots_before(groups, n).len() ==> roots_before(groups, n)[i]
                < roots_before(groups, n)[j],
        forall|g: u32|
            g < n && is_root(groups, g as int) ==> #[trigger] roots_before(groups, n).contains(g),
    decreases n,
{
    if n > 0 {
        let m = (n - 1) as nat;
        lemma_roots_before(groups, m);
        let prev = roots_before(groups, m);
        let cur = roots_before(groups, n);
        assert forall|g: u32| g < n && is_root(groups, g as int) implies #[trigger] cur.contains(
            g,
        ) by {
            if g < m {
                assert(prev.contains(g));
                let k = choose|k: int| 0 <= k < prev.len() && prev[k] == g;
                assert(cur[k] == g);
            } else {
                assert(cur[cur.len() - 1] == g);
            }
        }
    }
}

impl MeshletDag {
    /// The number of meshlets of all groups.
    pub fn total_meshlet_count(&self) -> (n: usize)
        ensures
            n == self.meshlets@.len(),
    {
        self.meshlets.len()
    }

    /// The groups that no other group refers to, in ascending order. Merged hierarchies may have
    /// roots of different heights, so the level of a group plays no part.
    pub fn root_group_indices(&self) -> (roots: Vec<u32>)
        requires
            self.groups@.len() <= u32::MAX,
        ensures
            roots@ == root_list(self.groups@),
    {
        let n: usize = self.groups.len();
        let mut listed: Vec<bool> = Vec::new();
        let mut i: usize = 0;
        while i < n
            invariant
                i <= n,
                listed@.len() == i,
                forall|c: int| 0 <= c < i ==> !(#[trigger] listed@[c]),
            decreases n - i,
        {
            listed.push(false);
            i = i + 1;
        }
        let mut p: usize = 0;
        while p < n
            invariant
                n == self.groups@.len(),
                n == listed@.len(),
                p <= n,
                forall|c: int|
                    0 <= c < n ==> (#[trigger] listed@[c] <==> listed_before(
                        self.groups@,
                        p as int,
                        c,
                    )),
            decreases n - p,
        {
            let first: u64 = self.groups[p].child_start as u64;
            let end: u64 = first + self.groups[p].child_count as u64;
            let mut c: u64 = first;
            let ghost before = listed@;
            while c < end && c < n as u64
                invariant
                    n == self.groups@.len(),
                    n == listed@.len(),
                    p < n,
                    first == self.groups@[p as int].child_start,
                    end == first + self.groups@[p as int].child_count,
                    first <= c,
                    first <= end,
                    c <= end,
                    before.len() == n,
                    forall|k: int|
                        0 <= k < n ==> (#[trigger] before[k] <==> listed_before(
                            self.groups@,
                            p as int,
                            k,
                        )),
                    forall|k: int|
                        0 <= k < n ==> (#[trigger] listed@[k] <==> before[k] || first <= k < c),
                decreases end - c,
            {
                listed.set(c as usize, true);
                c = c + 1;
            }
            assert forall|k: int| 0 <= k < n implies (#[trigger] listed@[k] <==> listed_before(
                self.groups@,
                p + 1,
                k,
            )) by {
                if listed@[k] {
                    if before[k] {
                        let q = choose|q: int| q < p && #[trigger] is_child(self.groups@, q, k);
                        assert(q < p + 1 && is_child(self.groups@, q, k));
                    } else {
                        assert(is_child(self.groups@, p as int, k));
                    }
                }
                if listed_before(self.groups@, p + 1, k) {
                    let q = choose|q: int| q < p + 1 && #[trigger] is_child(self.groups@, q, k);
                    if q < p {
                        assert(before[k]);
                    }
                }
            }
            p = p + 1;
        }
        let mut roots: Vec<u32> = Vec::new();
        let mut g: usize = 0;
        while g < n
            invariant
                n == self.groups@.len(),
                n == listed@.len(),
                n <= u32::MAX,
                g <= n,
                roots@ == roots_before(self.groups@, g as nat),
                forall|c: int|
                    0 <= c < n ==> (#[trigger] listed@[c] <==> listed_before(
                        self.groups@,
                        n as int,
                        c,
                    )),
            decreases n - g,
        {
            if !listed[g] {
                roots.push(g as u32);
            }
            g = g + 1;
        }
        roots
    }
}

/// A group is among the roots exactly where it lies in no group's range of finer groups, and the roots
/// ascend.
pub proof fn roots_lie_in_no_range(groups: Seq<MeshletGroup>, g: u32)
    requires
        groups.len() <= u32::MAX,
    ensures
        root_list(groups).contains(g) <==> g < groups.len() && (forall|p: int|
            0 <= p < groups.len() ==> !((#[trigger] groups[p]).child_start <= g
                < groups[p].child_start + groups[p].child_count)),
        forall|i: int, j: int|
            0 <= i < j < root_list(groups).len() ==> root_list(groups)[i] < root_list(groups)[j],
{
    root_list_is_exact(groups);
    let n = groups.len() as int;
    if g < n && !listed_before(groups, n, g as int) {
        assert forall|p: int| 0 <= p < groups.len() implies !((#[trigger] groups[p]).child_start
            <= g < groups[p].child_start + groups[p].child_count) by {
            assert(p < n && !is_child(groups, p, g as int));
        }
    }
    if listed_before(groups, n, g as int) {
        let p = choose|p: int| p < n && #[trigger] is_child(groups, p, g as int);
        assert(groups[p].child_start <= g < groups[p].child_start + groups[p].child_count);
    }
    assert(root_list(groups).contains(g) <==> is_root(groups, g as int));
}

} // verus!
