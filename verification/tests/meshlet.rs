use prism::dag_cut::{adaptive_cut, is_acyclic};
use prism::dag_merge::{can_merge, merge_meshlet_dags};
use prism::meshlet::{Meshlet, MeshletBounds, MeshletDag, MeshletGroup};
use prism::scalar::Scalar;
use prism::scene::bounds::Vec3;

fn s(value: f32) -> Scalar {
    Scalar::from_bits(value.to_bits())
}

fn bounds() -> MeshletBounds {
    MeshletBounds {
        center: Vec3::new(s(0.0), s(0.0), s(0.0)),
        radius: s(1.0),
        cone_axis: Vec3::new(s(0.0), s(1.0), s(0.0)),
        cone_cutoff: s(1.0),
    }
}

fn group(meshlet_start: u32, child_start: u32, child_count: u32, error: f32) -> MeshletGroup {
    MeshletGroup {
        meshlet_start,
        meshlet_count: 1,
        child_start,
        child_count,
        error: s(error),
        bounds: bounds(),
        level: if child_count > 0 { 1 } else { 0 },
    }
}

fn dag(groups: Vec<MeshletGroup>) -> MeshletDag {
    MeshletDag {
        meshlets: Vec::new(),
        meshlet_vertices: Vec::new(),
        meshlet_triangles: Vec::new(),
        groups,
        vertices: Vec::new(),
        level_offsets: vec![0],
    }
}

#[test]
fn root_group_detection_handles_merged_dags_with_different_heights() {
    let dag = MeshletDag {
        meshlets: Vec::new(),
        meshlet_vertices: Vec::new(),
        meshlet_triangles: Vec::new(),
        groups: vec![
            MeshletGroup {
                meshlet_start: 0,
                meshlet_count: 1,
                child_start: 0,
                child_count: 0,
                error: s(0.0),
                bounds: bounds(),
                level: 0,
            },
            MeshletGroup {
                meshlet_start: 1,
                meshlet_count: 1,
                child_start: 0,
                child_count: 0,
                error: s(0.0),
                bounds: bounds(),
                level: 0,
            },
            MeshletGroup {
                meshlet_start: 2,
                meshlet_count: 1,
                child_start: 0,
                child_count: 2,
                error: s(1.0),
                bounds: bounds(),
                level: 1,
            },
            MeshletGroup {
                meshlet_start: 3,
                meshlet_count: 1,
                child_start: 0,
                child_count: 0,
                error: s(0.0),
                bounds: bounds(),
                level: 0,
            },
        ],
        vertices: Vec::new(),
        level_offsets: vec![0],
    };

    assert_eq!(dag.root_group_indices(), vec![2, 3]);
}

#[test]
fn cut_takes_children_of_groups_that_are_too_coarse() {
    let d = dag(vec![
        group(0, 0, 0, 0.0),
        group(1, 0, 0, 0.0),
        group(2, 0, 2, 4.0),
        group(3, 0, 0, 0.0),
    ]);
    assert!(is_acyclic(&d));
    let errors = vec![s(9.0), s(9.0), s(4.0), s(9.0)];
    // The last root is considered first, and the last child of a group before the others.
    assert_eq!(adaptive_cut(&d, &errors, s(1.0)), vec![3, 1, 0]);
    assert_eq!(adaptive_cut(&d, &errors, s(5.0)), vec![3, 2]);
    // A group at the threshold is refined, and so is one whose error is not a number.
    assert_eq!(adaptive_cut(&d, &errors, s(4.0)), vec![3, 1, 0]);
    let unknown = vec![s(0.0), s(0.0), s(f32::NAN), s(0.0)];
    assert_eq!(adaptive_cut(&d, &unknown, s(5.0)), vec![3, 1, 0]);
}

#[test]
fn cut_of_nothing_is_empty() {
    let d = dag(Vec::new());
    assert!(is_acyclic(&d));
    assert!(adaptive_cut(&d, &[], s(1.0)).is_empty());
    assert!(d.root_group_indices().is_empty());
}

#[test]
fn cycles_and_missing_children_are_found() {
    assert!(!is_acyclic(&dag(vec![group(0, 0, 1, 0.0)])));
    assert!(!is_acyclic(&dag(vec![group(0, 1, 1, 0.0), group(1, 0, 1, 0.0)])));
    assert!(!is_acyclic(&dag(vec![group(0, 1, 1, 0.0)])));
    assert!(!is_acyclic(&dag(vec![group(0, u32::MAX, 2, 0.0)])));
    // A chain whose children come later settles over several rounds.
    assert!(is_acyclic(&dag(vec![
        group(0, 1, 1, 0.0),
        group(1, 2, 1, 0.0),
        group(2, 3, 1, 0.0),
        group(3, 0, 0, 0.0),
    ])));
    // Two groups may share a child.
    assert!(is_acyclic(&dag(vec![
        group(0, 2, 1, 0.0),
        group(1, 2, 1, 0.0),
        group(2, 0, 0, 0.0),
    ])));
}

fn small(vertex_ref: u32) -> MeshletDag {
    MeshletDag {
        meshlets: vec![Meshlet {
            vertex_offset: 0,
            triangle_offset: 0,
            vertex_count: 1,
            triangle_count: 1,
        }],
        meshlet_vertices: vec![vertex_ref],
        meshlet_triangles: vec![0, 0, 0],
        groups: vec![group(0, 0, 0, 0.0), group(0, 0, 1, 2.0)],
        vertices: Vec::new(),
        level_offsets: vec![0],
    }
}

#[test]
fn merging_moves_references_behind_what_was_there() {
    let merged = merge_meshlet_dags(&[small(0), small(0), small(0)]);
    assert_eq!(merged.total_meshlet_count(), 3);
    assert_eq!(merged.meshlets[2].vertex_offset, 2);
    assert_eq!(merged.meshlets[2].triangle_offset, 6);
    assert_eq!(merged.groups[4].meshlet_start, 2);
    assert_eq!(merged.groups[5].child_start, 4);
    assert_eq!(merged.groups[5].child_count, 1);
    assert_eq!(merged.root_group_indices(), vec![1, 3, 5]);
    assert!(is_acyclic(&merged));
    let errors = vec![s(9.0), s(0.5), s(9.0), s(3.0), s(9.0), s(0.5)];
    assert_eq!(adaptive_cut(&merged, &errors, s(1.0)), vec![5, 2, 1]);
}

#[test]
fn merging_in_parts_is_merging_at_once() {
    let parts = || {
        let mut first = small(0);
        first.meshlet_vertices.push(5);
        let mut third = small(3);
        third.level_offsets = vec![0, 1, 2];
        (first, small(2), third)
    };
    let (a, b, c) = parts();
    let whole = format!("{:?}", merge_meshlet_dags(&[a, b, c]));
    let (a, b, c) = parts();
    let left = merge_meshlet_dags(&[a, b]);
    assert_eq!(format!("{:?}", merge_meshlet_dags(&[left, c])), whole);
    let (a, b, c) = parts();
    let right = merge_meshlet_dags(&[b, c]);
    assert_eq!(format!("{:?}", merge_meshlet_dags(&[a, right])), whole);
}

#[test]
fn merging_one_or_none_changes_nothing() {
    assert_eq!(merge_meshlet_dags(&[]).groups.len(), 0);
    let one = merge_meshlet_dags(&[small(7)]);
    assert_eq!(one.meshlet_vertices, vec![7]);
    assert_eq!(one.groups.len(), 2);
}

#[test]
fn references_that_would_not_fit_cannot_be_merged() {
    assert!(can_merge(&[]));
    assert!(can_merge(&[small(u32::MAX), small(u32::MAX)]));
    let mut far = small(0);
    far.meshlets[0].triangle_offset = u32::MAX - 3;
    assert!(can_merge(&[small(0), far.clone()]));
    far.meshlets[0].triangle_offset = u32::MAX - 2;
    assert!(!can_merge(&[small(0), far.clone()]));
    assert!(can_merge(&[far]));
    let mut childless = small(0);
    childless.groups[0].child_start = u32::MAX;
    assert!(can_merge(&[small(0), childless.clone()]));
    childless.groups[0].child_count = 1;
    assert!(!can_merge(&[small(0), childless]));
}
