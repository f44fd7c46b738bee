use prism::scene_data::{pack_visibility_id, unpack_visibility_id, VISIBILITY_EMPTY};

#[test]
fn visibility_id_roundtrips() {
    let packed = pack_visibility_id(17, 23);
    assert_ne!(packed, VISIBILITY_EMPTY);
    assert_eq!(unpack_visibility_id(packed), Some((17, 23)));
    assert_eq!(unpack_visibility_id(VISIBILITY_EMPTY), None);
}

#[test]
fn distinct_triangles_have_distinct_ids() {
    assert_ne!(pack_visibility_id(0, 0), pack_visibility_id(0, 1));
    assert_ne!(pack_visibility_id(0, 0), pack_visibility_id(1, 0));
    assert_ne!(pack_visibility_id(0, 0), VISIBILITY_EMPTY);
}
