//! Choosing which groups of a meshlet hierarchy to draw.
//!
//! Starting from the roots, a group is drawn where it is good enough or has nothing finer to offer;
//! otherwise its children are considered in its place.

use vstd::prelude::*;

use crate::meshlet::{is_child, is_root, root_list, root_list_is_exact, MeshletDag, MeshletGroup};
use crate::scalar::Scalar;

verus! {

/// Every group ranks above its children, all of which exist.
pub open spec fn ranked(groups: Seq<MeshletGroup>, rank: Seq<nat>) -> bool {
    &&& rank.len() == groups.len()
    &&& forall|p: int, c: int|
        #[trigger] is_child(groups, p, c) ==> c < groups.len() && rank[c] < rank[p]
}

/// No chain of children leads back to where it started, and every child exists.
pub open spec fn acyclic(groups: Seq<MeshletGroup>) -> bool {
    exists|rank: Seq<nat>| #[trigger] ranked(groups, rank)
}

/// Some ranking of an acyclic hierarchy.
pub open spec fn some_rank(groups: Seq<MeshletGroup>) -> Seq<nat> {
    choose|rank: Seq<nat>| #[trigger] ranked(groups, rank)
}

/// How many of the flags are not set.
spec fn unset(flags: Seq<bool>) -> nat
    decreases flags.len(),
{
    if flags.len() == 0 {
        0
    } else {
        unset(flags.drop_last()) + if flags.last() {
            0nat
        } else {
            1
        }
    }
}

proof fn lemma_setting_one(flags: Seq<bool>, g: int)
    requires
        0 <= g < flags.len(),
        !flags[g],
    ensures
        unset(flags) > 0,
        unset(flags.update(g, true)) == unset(flags) - 1,
    decreases flags.len(),
{
    if g == flags.len() - 1 {
        assert(flags.update(g, true).drop_last() =~= flags.drop_last());
    } else {
        lemma_setting_one(flags.drop_last(), g);
        assert(flags.update(g, true).drop_last() =~= flags.drop_last().update(g, true));
    }
}

/// Every settled group has settled children that rank below it.
spec fn settled(groups: Seq<MeshletGroup>, done: Seq<bool>, rank: Seq<nat>) -> bool {
    forall|p: int, c: int|
        #[trigger] is_child(groups, p, c) && done[p] ==> c < groups.len() && done[c] && rank[c]
            < rank[p]
}

/// A set of groups, each of which has a child in the set, is not ranked by anything.
proof fn lemma_no_rank(groups: Seq<MeshletGroup>, done: Seq<bool>, rank: Seq<nat>, g: int)
    requires
        done.len() == groups.len(),
        0 <= g < groups.len(),
        !done[g],
        stuck(groups, done, groups.len() as int),
    ensures
        !ranked(groups, rank),
    decreases rank[g],
{
    if ranked(groups, rank) {
        let c = choose|c: int| is_child(groups, g, c) && c < groups.len() && !(#[trigger] done[c]);
        assert(is_child(groups, g, c));
        lemma_no_rank(groups, done, rank, c);
    }
}

/// Every child of every group exists.
spec fn children_exist(groups: Seq<MeshletGroup>) -> bool {
    forall|p: int, c: int| #[trigger] is_child(groups, p, c) ==> c < groups.len()
}

/// Every group that is not settled has a child that is not settled.
spec fn stuck(groups: Seq<MeshletGroup>, done: Seq<bool>, n: int) -> bool {
    forall|p: int|
        0 <= p < n && !(#[trigger] done[p]) ==> exists|c: int|
            is_child(groups, p, c) && c < groups.len() && !(#[trigger] done[c])
}

fn test_children_exist(groups: &[MeshletGroup]) -> (r: bool)
    ensures
        r == children_exist(groups@),
{
    let n: usize = groups.len();
    let mut i: usize = 0;
    while i < n
        invariant
            i <= n,
            n == groups@.len(),
            forall|p: int, c: int| p < i && #[trigger] is_child(groups@, p, c) ==> c < n,
        decreases n - i,
    {
        let group = groups[i];
        let end: u64 = group.child_start as u64 + group.child_count as u64;
        if group.child_count > 0 && end > n as u64 {
            assert(is_child(groups@, i as int, group.child_start + group.child_count - 1));
            return false;
        }
        i = i + 1;
    }
    true
}

fn test_children_done(groups: &[MeshletGroup], done: &Vec<bool>, g: usize) -> (r: bool)
    requires
        g < groups@.len(),
        done@.len() == groups@.len(),
        children_exist(groups@),
    ensures
        r ==> forall|c: int| #[trigger] is_child(groups@, g as int, c) ==> done@[c],
        !r ==> exists|c: int|
            is_child(groups@, g as int, c) && c < groups@.len() && !(#[trigger] done@[c]),
{
    let n: usize = groups.len();
    let group = groups[g];
    let mut k: u32 = 0;
    while k < group.child_count
        invariant
            g < groups@.len() == n,
            group == groups@[g as int],
            done@.len() == groups@.len(),
            k <= group.child_count,
            children_exist(groups@),
            forall|c: int| group.child_start <= c < group.child_start + k ==> done@[c],
        decreases group.child_count - k,
    {
        assert(is_child(groups@, g as int, group.child_start + k));
        let c: usize = group.child_start as usize + k as usize;
        if !done[c] {
            assert(!done@[c as int]);
            return false;
        }
        k = k + 1;
    }
    true
}

/// Whether a hierarchy can be traversed: every child exists, and no group is below itself.
pub fn is_acyclic(dag: &MeshletDag) -> (r: bool)
    ensures
        r == acyclic(dag.groups@),
{
    let groups = dag.groups.as_slice();
    if !test_children_exist(groups) {
        proof {
            if acyclic(groups@) {
                assert(ranked(groups@, some_rank(groups@)));
            }
        }
        return false;
    }
    let n: usize = groups.len();
    let mut done: Vec<bool> = Vec::new();
    let mut i: usize = 0;
    while i < n
        invariant
            i <= n,
            done@.len() == i,
            forall|k: int| 0 <= k < i ==> !done@[k],
            unset(done@) == i,
        decreases n - i,
    {
        let ghost before = done@;
        done.push(false);
        assert(done@.drop_last() =~= before);
        i = i + 1;
    }
    let ghost mut rank: Seq<nat> = Seq::new(n as nat, |i: int| 0);
    let ghost mut stamp: nat = 0;
    let mut left: usize = n;
    let mut progress = true;
    while progress && left > 0
        invariant
            n == groups@.len(),
            children_exist(groups@),
            done@.len() == n,
            rank.len() == n,
            left == unset(done@),
            settled(groups@, done@, rank),
            forall|k: int| 0 <= k < n && done@[k] ==> #[trigger] rank[k] < stamp,
            !progress ==> stuck(groups@, done@, n as int),
        decreases
                left + (if progress {
                    1int
                } else {
                    0
                }),
    {
        progress = false;
        let ghost start = left;
        let mut g: usize = 0;
        while g < n
            invariant
                n == groups@.len(),
                children_exist(groups@),
                g <= n,
                done@.len() == n,
                rank.len() == n,
                left == unset(done@),
                settled(groups@, done@, rank),
                forall|k: int| 0 <= k < n && done@[k] ==> #[trigger] rank[k] < stamp,
                progress ==> left < start,
                !progress ==> left == start && stuck(groups@, done@, g as int),
            decreases n - g,
        {
            if !done[g] && test_children_done(groups, &done, g) {
                let ghost before = done@;
                let ghost old_rank = rank;
                proof {
                    lemma_setting_one(done@, g as int);
                    rank = rank.update(g as int, stamp);
                    stamp = stamp + 1;
                }
                done.set(g, true);
                left = left - 1;
                progress = true;
                proof {
                    lemma_settle_one(groups@, before, old_rank, g as int, (stamp - 1) as nat);
                }
            }
            g = g + 1;
        }
    }
    proof {
        if left == 0 {
            assert forall|k: int| 0 <= k < n implies done@[k] by {
                if !done@[k] {
                    lemma_setting_one(done@, k);
                }
            }
            assert(ranked(groups@, rank));
        } else {
            let u = lemma_some_unset(done@);
            lemma_no_rank(groups@, done@, some_rank(groups@), u);
        }
    }
    left == 0
}

proof fn lemma_settle_one(
    groups: Seq<MeshletGroup>,
    done: Seq<bool>,
    rank: Seq<nat>,
    g: int,
    stamp: nat,
)
    requires
        done.len() == groups.len(),
        rank.len() == groups.len(),
        children_exist(groups),
        settled(groups, done, rank),
        0 <= g < groups.len(),
        !done[g],
        forall|k: int| 0 <= k < groups.len() && done[k] ==> #[trigger] rank[k] < stamp,
        forall|c: int| #[trigger] is_child(groups, g, c) ==> done[c],
    ensures
        settled(groups, done.update(g, true), rank.update(g, stamp)),
{
    let next = done.update(g, true);
    let ranks = rank.update(g, stamp);
    assert forall|p: int, c: int| #[trigger] is_child(groups, p, c) && next[p] implies c
        < groups.len() && next[c] && ranks[c] < ranks[p] by {
        if p == g {
            assert(done[c]);
            assert(rank[c] < stamp);
        } else {
            assert(done[p]);
            assert(done[c]);
        }
    }
}

proof fn lemma_some_unset(flags: Seq<bool>) -> (g: int)
    requires
        unset(flags) > 0,
    ensures
        0 <= g < flags.len(),
        !flags[g],
    decreases flags.len(),
{
    if flags.last() {
        lemma_some_unset(flags.drop_last())
    } else {
        flags.len() - 1
    }
}

/// Whether a group is drawn when it is considered: it is a leaf, or its projected error is below
/// the threshold.
pub open spec fn good_enough(
    groups: Seq<MeshletGroup>,
    errors: Seq<Scalar>,
    threshold: Scalar,
    g: int,
) -> bool {
    groups[g].child_count == 0 || errors[g].lt(threshold)
}

/// What is drawn for group `g`: the group itself if it is good enough, otherwise what is drawn for
/// its children.
pub open spec fn cut_group(
    groups: Seq<MeshletGroup>,
    errors: Seq<Scalar>,
    threshold: Scalar,
    g: int,
) -> Seq<u32>
    decreases some_rank(groups)[g], 1nat, 0nat,
{
    if !acyclic(groups) || g < 0 || g >= groups.len() {
        Seq::empty()
    } else if good_enough(groups, errors, threshold, g) {
        seq![g as u32]
    } else {
        cut_children(groups, errors, threshold, g, groups[g].child_count as nat)
    }
}

/// What is drawn for the first `n` children of `p`, the last of them first.
pub open spec fn cut_children(
    groups: Seq<MeshletGroup>,
    errors: Seq<Scalar>,
    threshold: Scalar,
    p: int,
    n: nat,
) -> Seq<u32>
    decreases some_rank(groups)[p], 0nat, n,
{
    if !acyclic(groups) || p < 0 || p >= groups.len() || n == 0 || n > groups[p].child_count {
        Seq::empty()
    } else {
        let c = groups[p].child_start + n - 1;
        proof {
            assert(ranked(groups, some_rank(groups)));
            assert(is_child(groups, p, c));
        }
        cut_group(groups, errors, threshold, c) + cut_children(
            groups,
            errors,
            threshold,
            p,
            (n - 1) as nat,
        )
    }
}

/// What is drawn for a stack of groups, from the top down.
pub open spec fn cut_stack(
    groups: Seq<MeshletGroup>,
    errors: Seq<Scalar>,
    threshold: Scalar,
    stack: Seq<u32>,
) -> Seq<u32>
    decreases stack.len(),
{
    if stack.len() == 0 {
        Seq::empty()
    } else {
        cut_group(groups, errors, threshold, stack.last() as int) + cut_stack(
            groups,
            errors,
            threshold,
            stack.drop_last(),
        )
    }
}

/// The groups to draw, in the order in which the traversal finds them.
pub open spec fn cut(groups: Seq<MeshletGroup>, errors: Seq<Scalar>, threshold: Scalar) -> Seq<
    u32,
> {
    cut_stack(groups, errors, threshold, root_list(groups))
}

/// The number of groups that a traversal which refines everything would visit below `g`, and `g`.
spec fn weight(groups: Seq<MeshletGroup>, g: int) -> nat
    decreases some_rank(groups)[g], 1nat, 0nat,
{
    if !acyclic(groups) || g < 0 || g >= groups.len() {
        1
    } else {
        1 + weight_children(groups, g, groups[g].child_count as nat)
    }
}

spec fn weight_children(groups: Seq<MeshletGroup>, p: int, n: nat) -> nat
    decreases some_rank(groups)[p], 0nat, n,
{
    if !acyclic(groups) || p < 0 || p >= groups.len() || n == 0 || n > groups[p].child_count {
        0
    } else {
        let c = groups[p].child_start + n - 1;
        proof {
            assert(ranked(groups, some_rank(groups)));
            assert(is_child(groups, p, c));
        }
        weight(groups, c) + weight_children(groups, p, (n - 1) as nat)
    }
}

spec fn weight_stack(groups: Seq<MeshletGroup>, stack: Seq<u32>) -> nat
    decreases stack.len(),
{
    if stack.len() == 0 {
        0
    } else {
        weight(groups, stack.last() as int) + weight_stack(groups, stack.drop_last())
    }
}

/// Traverses the hierarchy from its roots. `errors` holds each group's simplification error as
/// projected to the screen.
pub fn adaptive_cut(dag: &MeshletDag, errors: &[Scalar], threshold: Scalar) -> (selected: Vec<u32>)
    requires
        dag.groups@.len() <= u32::MAX,
        acyclic(dag.groups@),
        errors@.len() == dag.groups@.len(),
    ensures
        selected@ == cut(dag.groups@, errors@, threshold),
{
    let mut stack: Vec<u32> = dag.root_group_indices();
    let mut selected: Vec<u32> = Vec::new();
    let ghost groups = dag.groups@;
    proof {
        root_list_is_exact(groups);
        assert forall|k: int| 0 <= k < stack@.len() implies (#[trigger] stack@[k])
            < groups.len() by {
            assert(root_list(groups).contains(stack@[k]));
        }
        assert(ranked(groups, some_rank(groups)));
    }
    while stack.len() > 0
        invariant
            groups == dag.groups@,
            groups.len() <= u32::MAX,
            acyclic(groups),
            ranked(groups, some_rank(groups)),
            errors@.len() == groups.len(),
            forall|k: int| 0 <= k < stack@.len() ==> (#[trigger] stack@[k]) < groups.len(),
            selected@ + cut_stack(groups, errors@, threshold, stack@) == cut(
                groups,
                errors@,
                threshold,
            ),
        decreases weight_stack(groups, stack@),
    {
        let ghost before = stack@;
        let ghost done = selected@;
        let g: u32 = stack[stack.len() - 1];
        stack.pop();
        let ghost rest = stack@;
        assert(before.last() == g);
        assert(before.drop_last() == rest);
        let group: MeshletGroup = dag.groups[g as usize];
        if group.child_count == 0 || errors[g as usize].less(threshold) {
            selected.push(g);
            assert(selected@ + cut_stack(groups, errors@, threshold, rest) == done + (seq![g]
                + cut_stack(groups, errors@, threshold, rest)));
        } else {
            let mut ci: u32 = 0;
            while ci < group.child_count
                invariant
                    groups == dag.groups@,
                    groups.len() <= u32::MAX,
                    acyclic(groups),
                    ranked(groups, some_rank(groups)),
                    g < groups.len(),
                    group == groups[g as int],
                    ci <= group.child_count,
                    forall|k: int| 0 <= k < stack@.len() ==> (#[trigger] stack@[k]) < groups.len(),
                    cut_stack(groups, errors@, threshold, stack@) == cut_children(
                        groups,
                        errors@,
                        threshold,
                        g as int,
                        ci as nat,
                    ) + cut_stack(groups, errors@, threshold, rest),
                    weight_stack(groups, stack@) == weight_children(groups, g as int, ci as nat)
                        + weight_stack(groups, rest),
                decreases group.child_count - ci,
            {
                let ghost lower = stack@;
                assert(is_child(groups, g as int, group.child_start + ci));
                let child: u32 = group.child_start + ci;
                stack.push(child);
                ci = ci + 1;
                proof {
                    assert(stack@.drop_last() == lower);
                    assert(stack@.last() == child);
                    let below = cut_stack(groups, errors@, threshold, rest);
                    let first = cut_group(groups, errors@, threshold, child as int);
                    let others = cut_children(
                        groups,
                        errors@,
                        threshold,
                        g as int,
                        (ci - 1) as nat,
                    );
                    assert(first + (others + below) == (first + others) + below);
                }
            }
            assert(done + cut_stack(groups, errors@, threshold, stack@) == cut(
                groups,
                errors@,
                threshold,
            ));
        }
    }
    assert(selected@ + Seq::<u32>::empty() == selected@);
    selected
}

// ---------------------------------------------------------------------------------------------
// What a cut promises
// ---------------------------------------------------------------------------------------------

/// A chain of groups, each listed by the one before it.
pub open spec fn descends(groups: Seq<MeshletGroup>, path: Seq<int>) -> bool {
    &&& path.len() > 0
    &&& 0 <= path[0] < groups.len()
    &&& forall|i: int|
        0 <= i < path.len() - 1 ==> is_child(groups, #[trigger] path[i], path[i + 1])
}

/// A chain that leads from `from` to `to` through groups that are not good enough.
pub open spec fn refines_to(
    groups: Seq<MeshletGroup>,
    errors: Seq<Scalar>,
    threshold: Scalar,
    path: Seq<int>,
    from: int,
    to: int,
) -> bool {
    &&& descends(groups, path)
    &&& path[0] == from
    &&& path.last() == to
    &&& forall|i: int|
        0 <= i < path.len() - 1 ==> !good_enough(groups, errors, threshold, #[trigger] path[i])
}

/// Each group has at most one group that lists it.
pub open spec fn forest(groups: Seq<MeshletGroup>) -> bool {
    forall|p: int, q: int, c: int|
        #[trigger] is_child(groups, p, c) && #[trigger] is_child(groups, q, c) ==> p == q
}

/// Every chain from a root to a leaf meets the cut, at the first group on it that is good enough.
pub proof fn cut_meets_every_path(
    groups: Seq<MeshletGroup>,
    errors: Seq<Scalar>,
    threshold: Scalar,
    path: Seq<int>,
)
    requires
        groups.len() <= u32::MAX,
        acyclic(groups),
        descends(groups, path),
        is_root(groups, path[0]),
        groups[path.last()].child_count == 0,
    ensures
        exists|i: int|
            0 <= i < path.len() && good_enough(groups, errors, threshold, #[trigger] path[i]) && (
            forall|j: int|
                0 <= j < i ==> !good_enough(groups, errors, threshold, #[trigger] path[j])) && cut(
                groups,
                errors,
                threshold,
            ).contains(path[i] as u32),
{
    lemma_path_in_range(groups, path);
    let i = lemma_group_meets_path(groups, errors, threshold, path);
    root_list_is_exact(groups);
    assert(root_list(groups).contains(path[0] as u32));
    lemma_stack_contains(
        groups,
        errors,
        threshold,
        root_list(groups),
        path[0] as u32,
        path[i] as u32,
    );
}

/// Every group of the cut is good enough, and a chain from a root leads to it through groups that
/// are not: nothing is drawn finer than it needs to be.
pub proof fn cut_is_no_finer_than_needed(
    groups: Seq<MeshletGroup>,
    errors: Seq<Scalar>,
    threshold: Scalar,
    g: u32,
)
    requires
        groups.len() <= u32::MAX,
        acyclic(groups),
        cut(groups, errors, threshold).contains(g),
    ensures
        g < groups.len(),
        good_enough(groups, errors, threshold, g as int),
        exists|path: Seq<int>|
            is_root(groups, path[0]) && #[trigger] refines_to(
                groups,
                errors,
                threshold,
                path,
                path[0],
                g as int,
            ),
{
    root_list_is_exact(groups);
    let r = lemma_stack_origin(groups, errors, threshold, root_list(groups), g);
    assert(root_list(groups).contains(r));
    let path = lemma_group_origin(groups, errors, threshold, r as int, g);
    assert(refines_to(groups, errors, threshold, path, path[0], g as int));
}

/// A group of the cut is a leaf, or its error is below the threshold. A chain of groups leads to it
/// from a group that no group lists, each among the children of the one before it, and every group
/// on the way has children and an error that is not below the threshold.
pub proof fn cut_refines_by_error(
    groups: Seq<MeshletGroup>,
    errors: Seq<Scalar>,
    threshold: Scalar,
    k: int,
) -> (path: Seq<int>)
    requires
        groups.len() <= u32::MAX,
        acyclic(groups),
        0 <= k < cut(groups, errors, threshold).len(),
    ensures
        ({
            let g = cut(groups, errors, threshold)[k] as int;
            &&& g < groups.len()
            &&& groups[g].child_count == 0 || errors[g].lt(threshold)
            &&& path.len() > 0
            &&& path.last() == g
            &&& 0 <= path[0] < groups.len()
            &&& forall|p: int|
                0 <= p < groups.len() ==> !((#[trigger] groups[p]).child_start <= path[0]
                    < groups[p].child_start + groups[p].child_count)
            &&& forall|i: int|
                0 <= i < path.len() - 1 ==> {
                    let q = #[trigger] path[i];
                    &&& 0 <= q < groups.len()
                    &&& groups[q].child_count > 0
                    &&& !errors[q].lt(threshold)
                    &&& groups[q].child_start <= path[i + 1] < groups[q].child_start
                        + groups[q].child_count
                }
        }),
{
    let g = cut(groups, errors, threshold)[k];
    assert(cut(groups, errors, threshold).contains(g));
    cut_is_no_finer_than_needed(groups, errors, threshold, g);
    let path = choose|path: Seq<int>|
        is_root(groups, path[0]) && #[trigger] refines_to(
            groups,
            errors,
            threshold,
            path,
            path[0],
            g as int,
        );
    lemma_path_in_range(groups, path);
    assert forall|p: int| 0 <= p < groups.len() implies !((#[trigger] groups[p]).child_start
        <= path[0] < groups[p].child_start + groups[p].child_count) by {
        assert(!is_child(groups, p, path[0]));
    }
    assert forall|i: int| 0 <= i < path.len() - 1 implies ({
        let q = #[trigger] path[i];
        &&& 0 <= q < groups.len()
        &&& groups[q].child_count > 0
        &&& !errors[q].lt(threshold)
        &&& groups[q].child_start <= path[i + 1] < groups[q].child_start + groups[q].child_count
    }) by {
        assert(!good_enough(groups, errors, threshold, path[i]));
        assert(is_child(groups, path[i], path[i + 1]));
    }
    path
}

/// Nothing is left out: along every chain of groups from one that no group lists down to a leaf,
/// the first group that is a leaf or whose error is below the threshold is drawn.
pub proof fn cut_draws_what_is_fine_enough(
    groups: Seq<MeshletGroup>,
    errors: Seq<Scalar>,
    threshold: Scalar,
    path: Seq<int>,
    n: int,
)
    requires
        groups.len() <= u32::MAX,
        acyclic(groups),
        0 <= n < path.len(),
        0 <= path[0] < groups.len(),
        forall|p: int|
            0 <= p < groups.len() ==> !((#[trigger] groups[p]).child_start <= path[0]
                < groups[p].child_start + groups[p].child_count),
        forall|i: int|
            0 <= i < path.len() - 1 ==> {
                let q = #[trigger] path[i];
                &&& 0 <= q < groups.len()
                &&& groups[q].child_start <= path[i + 1] < groups[q].child_start
                    + groups[q].child_count
            },
        groups[path.last()].child_count == 0,
        forall|i: int| 0 <= i < n ==> !errors[#[trigger] path[i]].lt(threshold),
        groups[path[n]].child_count == 0 || errors[path[n]].lt(threshold),
    ensures
        cut(groups, errors, threshold).contains(path[n] as u32),
{
    assert(is_root(groups, path[0])) by {
        assert forall|p: int| !#[trigger] is_child(groups, p, path[0]) by {
            if 0 <= p < groups.len() {
                assert(!(groups[p].child_start <= path[0] < groups[p].child_start
                    + groups[p].child_count));
            }
        }
    }
    assert forall|i: int| 0 <= i < path.len() - 1 implies is_child(
        groups,
        #[trigger] path[i],
        path[i + 1],
    ) by {
        assert(0 <= path[i] < groups.len());
    }
    assert(descends(groups, path));
    cut_meets_every_path(groups, errors, threshold, path);
    let i = choose|i: int|
        0 <= i < path.len() && good_enough(groups, errors, threshold, #[trigger] path[i]) && (
        forall|j: int|
            0 <= j < i ==> !good_enough(groups, errors, threshold, #[trigger] path[j])) && cut(
            groups,
            errors,
            threshold,
        ).contains(path[i] as u32);
    if i < n {
        assert(groups[path[i]].child_start <= path[i + 1] < groups[path[i]].child_start
            + groups[path[i]].child_count);
        assert(!errors[path[i]].lt(threshold));
    } else if n < i {
        assert(!good_enough(groups, errors, threshold, path[n]));
    }
}

/// A group that has children and whose error is not below the threshold is never drawn.
pub proof fn larger_errors_are_never_drawn(
    groups: Seq<MeshletGroup>,
    errors: Seq<Scalar>,
    threshold: Scalar,
    g: u32,
)
    requires
        groups.len() <= u32::MAX,
        acyclic(groups),
        g < groups.len(),
        groups[g as int].child_count > 0,
        !errors[g as int].lt(threshold),
    ensures
        !cut(groups, errors, threshold).contains(g),
{
    let all = cut(groups, errors, threshold);
    if all.contains(g) {
        let k = choose|k: int| 0 <= k < all.len() && all[k] == g;
        let _path = cut_refines_by_error(groups, errors, threshold, k);
    }
}

/// In a hierarchy that can be traversed, a chain of groups, each among the children of the one before
/// it, meets only groups that exist and never returns to where it started.
pub proof fn chains_never_return(groups: Seq<MeshletGroup>, path: Seq<int>)
    requires
        acyclic(groups),
        path.len() > 1,
        forall|i: int|
            0 <= i < path.len() - 1 ==> {
                let q = #[trigger] path[i];
                &&& 0 <= q < groups.len()
                &&& groups[q].child_start <= path[i + 1] < groups[q].child_start
                    + groups[q].child_count
            },
    ensures
        0 <= path.last() < groups.len(),
        path.last() != path[0],
{
    assert(ranked(groups, some_rank(groups)));
    lemma_chain_falls(groups, path, path.len() - 1);
}

proof fn lemma_chain_falls(groups: Seq<MeshletGroup>, path: Seq<int>, n: int)
    requires
        ranked(groups, some_rank(groups)),
        0 < n < path.len(),
        forall|i: int|
            0 <= i < path.len() - 1 ==> {
                let q = #[trigger] path[i];
                &&& 0 <= q < groups.len()
                &&& groups[q].child_start <= path[i + 1] < groups[q].child_start
                    + groups[q].child_count
            },
    ensures
        0 <= path[n] < groups.len(),
        some_rank(groups)[path[n]] < some_rank(groups)[path[0]],
    decreases n,
{
    let q = path[n - 1];
    assert(groups[q].child_start <= path[n - 1 + 1] < groups[q].child_start
        + groups[q].child_count);
    assert(is_child(groups, q, path[n]));
    if n > 1 {
        lemma_chain_falls(groups, path, n - 1);
    }
}

/// A hierarchy can be traversed where its groups can be numbered such that every child exists and has
/// a smaller number than the group that lists it.
pub proof fn numbered_groups_are_acyclic(groups: Seq<MeshletGroup>, number: Seq<nat>)
    requires
        number.len() == groups.len(),
        forall|p: int, c: int|
            #![trigger groups[p], number[c]]
            0 <= p < groups.len() && groups[p].child_start <= c && c < groups[p].child_start
                + groups[p].child_count ==> c < groups.len() && number[c] < number[p],
    ensures
        acyclic(groups),
{
    assert(ranked(groups, number)) by {
        assert forall|p: int, c: int| #[trigger] is_child(groups, p, c) implies c < groups.len()
            && number[c] < number[p] by {
            let group = groups[p];
            let at = number[c];
        }
    }
}

/// In a hierarchy whose groups have at most one parent each, no group is drawn twice.
pub proof fn cut_of_a_forest_repeats_nothing(
    groups: Seq<MeshletGroup>,
    errors: Seq<Scalar>,
    threshold: Scalar,
)
    requires
        groups.len() <= u32::MAX,
        acyclic(groups),
        forest(groups),
    ensures
        cut(groups, errors, threshold).no_duplicates(),
{
    root_list_is_exact(groups);
    assert forall|k: int| 0 <= k < root_list(groups).len() implies is_root(
        groups,
        #[trigger] root_list(groups)[k] as int,
    ) by {
        assert(root_list(groups).contains(root_list(groups)[k]));
    }
    lemma_stack_distinct(groups, errors, threshold, root_list(groups));
}

proof fn lemma_path_in_range(groups: Seq<MeshletGroup>, path: Seq<int>)
    requires
        acyclic(groups),
        descends(groups, path),
    ensures
        forall|i: int| 0 <= i < path.len() ==> 0 <= #[trigger] path[i] < groups.len(),
{
    assert(ranked(groups, some_rank(groups)));
    assert forall|i: int| 0 <= i < path.len() implies 0 <= #[trigger] path[i] < groups.len() by {
        if i > 0 {
            assert(is_child(groups, path[i - 1], path[i - 1 + 1]));
        }
    }
}

/// The ranks fall along a chain.
proof fn lemma_path_falls(groups: Seq<MeshletGroup>, path: Seq<int>, i: int)
    requires
        acyclic(groups),
        descends(groups, path),
        0 <= i < path.len(),
    ensures
        some_rank(groups)[path[i]] <= some_rank(groups)[path[0]],
    decreases i,
{
    assert(ranked(groups, some_rank(groups)));
    if i > 0 {
        lemma_path_falls(groups, path, i - 1);
        assert(is_child(groups, path[i - 1], path[i - 1 + 1]));
    }
}

/// What is drawn for a child is drawn for its parent, once the parent is refined.
proof fn lemma_children_contain(
    groups: Seq<MeshletGroup>,
    errors: Seq<Scalar>,
    threshold: Scalar,
    p: int,
    n: nat,
    k: int,
    g: u32,
)
    requires
        acyclic(groups),
        0 <= p < groups.len(),
        0 <= k < n <= groups[p].child_count,
        cut_group(groups, errors, threshold, groups[p].child_start + k).contains(g),
    ensures
        cut_children(groups, errors, threshold, p, n).contains(g),
    decreases n,
{
    let first = cut_group(groups, errors, threshold, groups[p].child_start + n - 1);
    let others = cut_children(groups, errors, threshold, p, (n - 1) as nat);
    if k == n - 1 {
        let at = choose|at: int| 0 <= at < first.len() && first[at] == g;
        assert((first + others)[at] == g);
    } else {
        lemma_children_contain(groups, errors, threshold, p, (n - 1) as nat, k, g);
        let at = choose|at: int| 0 <= at < others.len() && others[at] == g;
        assert((first + others)[first.len() + at] == g);
    }
}

proof fn lemma_stack_contains(
    groups: Seq<MeshletGroup>,
    errors: Seq<Scalar>,
    threshold: Scalar,
    stack: Seq<u32>,
    r: u32,
    g: u32,
)
    requires
        stack.contains(r),
        cut_group(groups, errors, threshold, r as int).contains(g),
    ensures
        cut_stack(groups, errors, threshold, stack).contains(g),
    decreases stack.len(),
{
    let top = cut_group(groups, errors, threshold, stack.last() as int);
    let below = cut_stack(groups, errors, threshold, stack.drop_last());
    if stack.last() == r {
        let at = choose|at: int| 0 <= at < top.len() && top[at] == g;
        assert((top + below)[at] == g);
    } else {
        let k = choose|k: int| 0 <= k < stack.len() && stack[k] == r;
        assert(stack.drop_last()[k] == r);
        lemma_stack_contains(groups, errors, threshold, stack.drop_last(), r, g);
        let at = choose|at: int| 0 <= at < below.len() && below[at] == g;
        assert((top + below)[top.len() + at] == g);
    }
}

proof fn lemma_group_meets_path(
    groups: Seq<MeshletGroup>,
    errors: Seq<Scalar>,
    threshold: Scalar,
    path: Seq<int>,
) -> (i: int)
    requires
        groups.len() <= u32::MAX,
        acyclic(groups),
        descends(groups, path),
        groups[path.last()].child_count == 0,
    ensures
        0 <= i < path.len(),
        good_enough(groups, errors, threshold, path[i]),
        forall|j: int| 0 <= j < i ==> !good_enough(groups, errors, threshold, #[trigger] path[j]),
        cut_group(groups, errors, threshold, path[0]).contains(path[i] as u32),
    decreases path.len(),
{
    let g = path[0];
    if good_enough(groups, errors, threshold, g) {
        assert(cut_group(groups, errors, threshold, g)[0] == g as u32);
        0
    } else {
        assert(path.len() > 1);
        assert(is_child(groups, path[0], path[0int + 1]));
        assert(ranked(groups, some_rank(groups)));
        let tail = path.subrange(1, path.len() as int);
        assert forall|i: int| 0 <= i < tail.len() - 1 implies is_child(
            groups,
            #[trigger] tail[i],
            tail[i + 1],
        ) by {
            assert(is_child(groups, path[i + 1], path[i + 1 + 1]));
        }
        let i = lemma_group_meets_path(groups, errors, threshold, tail);
        assert(tail[i] == path[i + 1]);
        assert forall|j: int| 0 <= j < i + 1 implies !good_enough(
            groups,
            errors,
            threshold,
            #[trigger] path[j],
        ) by {
            if j > 0 {
                assert(tail[j - 1] == path[j]);
            }
        }
        lemma_children_contain(
            groups,
            errors,
            threshold,
            g,
            groups[g].child_count as nat,
            path[1] - groups[g].child_start,
            path[i + 1] as u32,
        );
        i + 1
    }
}

proof fn lemma_stack_origin(
    groups: Seq<MeshletGroup>,
    errors: Seq<Scalar>,
    threshold: Scalar,
    stack: Seq<u32>,
    g: u32,
) -> (r: u32)
    requires
        cut_stack(groups, errors, threshold, stack).contains(g),
    ensures
        stack.contains(r),
        cut_group(groups, errors, threshold, r as int).contains(g),
    decreases stack.len(),
{
    let whole = cut_stack(groups, errors, threshold, stack);
    let at = choose|at: int| 0 <= at < whole.len() && whole[at] == g;
    let top = cut_group(groups, errors, threshold, stack.last() as int);
    let below = cut_stack(groups, errors, threshold, stack.drop_last());
    if at < top.len() {
        assert(top[at] == g);
        stack.last()
    } else {
        assert(below[at - top.len()] == g);
        let r = lemma_stack_origin(groups, errors, threshold, stack.drop_last(), g);
        let k = choose|k: int| 0 <= k < stack.drop_last().len() && stack.drop_last()[k] == r;
        assert(stack[k] == r);
        r
    }
}

proof fn lemma_children_origin(
    groups: Seq<MeshletGroup>,
    errors: Seq<Scalar>,
    threshold: Scalar,
    p: int,
    n: nat,
    g: u32,
) -> (k: int)
    requires
        acyclic(groups),
        0 <= p < groups.len(),
        n <= groups[p].child_count,
        cut_children(groups, errors, threshold, p, n).contains(g),
    ensures
        0 <= k < n,
        cut_group(groups, errors, threshold, groups[p].child_start + k).contains(g),
    decreases n,
{
    let whole = cut_children(groups, errors, threshold, p, n);
    let at = choose|at: int| 0 <= at < whole.len() && whole[at] == g;
    let first = cut_group(groups, errors, threshold, groups[p].child_start + n - 1);
    let others = cut_children(groups, errors, threshold, p, (n - 1) as nat);
    if at < first.len() {
        assert(first[at] == g);
        n - 1
    } else {
        assert(others[at - first.len()] == g);
        lemma_children_origin(groups, errors, threshold, p, (n - 1) as nat, g)
    }
}

proof fn lemma_group_origin(
    groups: Seq<MeshletGroup>,
    errors: Seq<Scalar>,
    threshold: Scalar,
    from: int,
    g: u32,
) -> (path: Seq<int>)
    requires
        groups.len() <= u32::MAX,
        acyclic(groups),
        0 <= from < groups.len(),
        cut_group(groups, errors, threshold, from).contains(g),
    ensures
        g < groups.len(),
        good_enough(groups, errors, threshold, g as int),
        refines_to(groups, errors, threshold, path, from, g as int),
    decreases some_rank(groups)[from],
{
    if good_enough(groups, errors, threshold, from) {
        seq![from]
    } else {
        let k = lemma_children_origin(
            groups,
            errors,
            threshold,
            from,
            groups[from].child_count as nat,
            g,
        );
        let c = groups[from].child_start + k;
        assert(ranked(groups, some_rank(groups)));
        assert(is_child(groups, from, c));
        let tail = lemma_group_origin(groups, errors, threshold, c, g);
        let path = seq![from] + tail;
        assert forall|i: int| 0 <= i < path.len() - 1 implies is_child(
            groups,
            #[trigger] path[i],
            path[i + 1],
        ) by {
            if i > 0 {
                assert(is_child(groups, tail[i - 1], tail[i - 1 + 1]));
            }
        }
        assert forall|i: int| 0 <= i < path.len() - 1 implies !good_enough(
            groups,
            errors,
            threshold,
            #[trigger] path[i],
        ) by {
            if i > 0 {
                assert(path[i] == tail[i - 1]);
            }
        }
        path
    }
}

/// In a forest, of two chains to the same group the shorter is the end of the longer.
proof fn lemma_chains_agree(
    groups: Seq<MeshletGroup>,
    long: Seq<int>,
    short: Seq<int>,
    back: int,
)
    requires
        forest(groups),
        descends(groups, long),
        descends(groups, short),
        long.last() == short.last(),
        short.len() <= long.len(),
        0 <= back < short.len(),
    ensures
        long[long.len() - 1 - back] == short[short.len() - 1 - back],
    decreases back,
{
    if back > 0 {
        lemma_chains_agree(groups, long, short, back - 1);
        let i = long.len() - 1 - back;
        let j = short.len() - 1 - back;
        assert(is_child(groups, long[i], long[i + 1]));
        assert(is_child(groups, short[j], short[j + 1]));
    }
}

/// Two groups below which the same group lies are equal, or one lies below a group that lists it
/// and that is itself below the other.
proof fn lemma_common_group(groups: Seq<MeshletGroup>, a: Seq<int>, b: Seq<int>) -> (p: int)
    requires
        acyclic(groups),
        forest(groups),
        descends(groups, a),
        descends(groups, b),
        a.last() == b.last(),
        a[0] != b[0],
    ensures
        is_child(groups, p, a[0]) && some_rank(groups)[p] <= some_rank(groups)[b[0]] || is_child(
            groups,
            p,
            b[0],
        ) && some_rank(groups)[p] <= some_rank(groups)[a[0]],
{
    if a.len() <= b.len() {
        lemma_chains_agree(groups, b, a, a.len() - 1);
        let i = b.len() - a.len();
        assert(b[i] == a[0]);
        assert(is_child(groups, b[i - 1], b[i - 1 + 1]));
        lemma_path_falls(groups, b, i - 1);
        b[i - 1]
    } else {
        lemma_chains_agree(groups, a, b, b.len() - 1);
        let i = a.len() - b.len();
        assert(a[i] == b[0]);
        assert(is_child(groups, a[i - 1], a[i - 1 + 1]));
        lemma_path_falls(groups, a, i - 1);
        a[i - 1]
    }
}

proof fn lemma_concat_distinct(a: Seq<u32>, b: Seq<u32>)
    requires
        a.no_duplicates(),
        b.no_duplicates(),
        forall|g: u32| a.contains(g) ==> !b.contains(g),
    ensures
        (a + b).no_duplicates(),
{
    let s = a + b;
    assert forall|i: int, j: int| 0 <= i < s.len() && 0 <= j < s.len() && i != j implies s[i]
        != s[j] by {
        if i < a.len() && j >= a.len() {
            assert(a.contains(a[i]));
            assert(b[j - a.len()] == s[j]);
        } else if j < a.len() && i >= a.len() {
            assert(a.contains(a[j]));
            assert(b[i - a.len()] == s[i]);
        }
    }
}

proof fn lemma_group_distinct(
    groups: Seq<MeshletGroup>,
    errors: Seq<Scalar>,
    threshold: Scalar,
    g: int,
)
    requires
        groups.len() <= u32::MAX,
        acyclic(groups),
        forest(groups),
        0 <= g < groups.len(),
    ensures
        cut_group(groups, errors, threshold, g).no_duplicates(),
    decreases some_rank(groups)[g], 1nat, 0nat,
{
    if !good_enough(groups, errors, threshold, g) {
        lemma_children_distinct(
            groups,
            errors,
            threshold,
            g,
            groups[g].child_count as nat,
        );
    }
}

proof fn lemma_children_distinct(
    groups: Seq<MeshletGroup>,
    errors: Seq<Scalar>,
    threshold: Scalar,
    p: int,
    n: nat,
)
    requires
        groups.len() <= u32::MAX,
        acyclic(groups),
        forest(groups),
        0 <= p < groups.len(),
        n <= groups[p].child_count,
    ensures
        cut_children(groups, errors, threshold, p, n).no_duplicates(),
    decreases some_rank(groups)[p], 0nat, n,
{
    if n > 0 {
        assert(ranked(groups, some_rank(groups)));
        let c = groups[p].child_start + n - 1;
        assert(is_child(groups, p, c));
        lemma_group_distinct(groups, errors, threshold, c);
        lemma_children_distinct(groups, errors, threshold, p, (n - 1) as nat);
        let first = cut_group(groups, errors, threshold, c);
        let others = cut_children(groups, errors, threshold, p, (n - 1) as nat);
        assert forall|g: u32| first.contains(g) implies !others.contains(g) by {
            if others.contains(g) {
                let k = lemma_children_origin(
                    groups,
                    errors,
                    threshold,
                    p,
                    (n - 1) as nat,
                    g,
                );
                let d = groups[p].child_start + k;
                assert(is_child(groups, p, d));
                let a = lemma_group_origin(groups, errors, threshold, c, g);
                let b = lemma_group_origin(groups, errors, threshold, d, g);
                let q = lemma_common_group(groups, a, b);
                assert(q == p);
            }
        }
        lemma_concat_distinct(first, others);
    }
}

proof fn lemma_stack_distinct(
    groups: Seq<MeshletGroup>,
    errors: Seq<Scalar>,
    threshold: Scalar,
    stack: Seq<u32>,
)
    requires
        groups.len() <= u32::MAX,
        acyclic(groups),
        forest(groups),
        forall|k: int| 0 <= k < stack.len() ==> is_root(groups, #[trigger] stack[k] as int),
        forall|i: int, j: int| 0 <= i < j < stack.len() ==> stack[i] < stack[j],
    ensures
        cut_stack(groups, errors, threshold, stack).no_duplicates(),
    decreases stack.len(),
{
    if stack.len() > 0 {
        let r = stack.last();
        let rest = stack.drop_last();
        assert(is_root(groups, stack[stack.len() - 1] as int));
        assert forall|k: int| 0 <= k < rest.len() implies is_root(
            groups,
            #[trigger] rest[k] as int,
        ) by {
            assert(rest[k] == stack[k]);
        }
        lemma_group_distinct(groups, errors, threshold, r as int);
        lemma_stack_distinct(groups, errors, threshold, rest);
        let top = cut_group(groups, errors, threshold, r as int);
        let below = cut_stack(groups, errors, threshold, rest);
        assert forall|g: u32| top.contains(g) implies !below.contains(g) by {
            if below.contains(g) {
                let s = lemma_stack_origin(groups, errors, threshold, rest, g);
                let k = choose|k: int| 0 <= k < rest.len() && rest[k] == s;
                assert(stack[k] == s);
                let a = lemma_group_origin(groups, errors, threshold, r as int, g);
                let b = lemma_group_origin(groups, errors, threshold, s as int, g);
                let q = lemma_common_group(groups, a, b);
            }
        }
        lemma_concat_distinct(top, below);
    }
}

} // verus!
