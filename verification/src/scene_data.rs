//! Identifiers in the visibility buffer: which triangle of which meshlet covers a pixel.

use vstd::prelude::*;

verus! {

/// The value of a pixel that no geometry covers.
pub const VISIBILITY_EMPTY: u32 = 0;

/// Added to every packed identifier, so that none is mistaken for an empty pixel.
pub const VISIBILITY_ID_BIAS: u32 = 1;

/// The meshlet and the triangle side by side, before the bias.
pub open spec fn side_by_side(meshlet_idx: u32, tri_idx: u32) -> u32 {
    (meshlet_idx << 8u32) | tri_idx
}

/// A meshlet and a triangle that fit their fields, other than the one pair whose identifier would
/// be past the largest `u32`.
pub open spec fn packable(meshlet_idx: u32, tri_idx: u32) -> bool {
    &&& meshlet_idx < 0x0100_0000
    &&& tri_idx < 0x100
    &&& !(meshlet_idx == 0x00FF_FFFF && tri_idx == 0xFF)
}

/// Packs a meshlet index and the index of a triangle within it.
pub fn pack_visibility_id(meshlet_idx: u32, tri_idx: u32) -> (id: u32)
    requires
        side_by_side(meshlet_idx, tri_idx) < u32::MAX,
    ensures
        id == side_by_side(meshlet_idx, tri_idx) + VISIBILITY_ID_BIAS,
        meshlet_idx < 0x0100_0000 && tri_idx < 0x100 ==> id == meshlet_idx * 0x100 + tri_idx + 1,
{
    proof {
        lemma_side_by_side(meshlet_idx, tri_idx);
    }
    ((meshlet_idx << 8) | tri_idx) + VISIBILITY_ID_BIAS
}

/// The meshlet and triangle that a pixel holds, if it is covered.
pub fn unpack_visibility_id(vis_id: u32) -> (r: Option<(u32, u32)>)
    ensures
        r is None <==> vis_id == VISIBILITY_EMPTY,
        r matches Some(ids) ==> ids.0 == (vis_id - 1) / 0x100 && ids.1 == (vis_id - 1) % 0x100,
{
    if vis_id == VISIBILITY_EMPTY {
        return None;
    }
    let packed: u32 = vis_id - VISIBILITY_ID_BIAS;
    assert(packed >> 8 == packed / 0x100) by (bit_vector);
    assert(packed & 0xFF == packed % 0x100) by (bit_vector);
    Some((packed >> 8, packed & 0xFF))
}

proof fn lemma_side_by_side(meshlet_idx: u32, tri_idx: u32)
    ensures
        meshlet_idx < 0x0100_0000 && tri_idx < 0x100 ==> side_by_side(meshlet_idx, tri_idx)
            == meshlet_idx * 0x100 + tri_idx,
{
    assert(meshlet_idx < 0x0100_0000 && tri_idx < 0x100 ==> ((meshlet_idx << 8u32) | tri_idx)
        == meshlet_idx * 0x100 + tri_idx) by (bit_vector);
}

/// What is packed is what is unpacked, and it never looks like an empty pixel.
pub proof fn packed_ids_unpack(meshlet_idx: u32, tri_idx: u32, id: u32)
    requires
        packable(meshlet_idx, tri_idx),
        id == side_by_side(meshlet_idx, tri_idx) + VISIBILITY_ID_BIAS,
    ensures
        side_by_side(meshlet_idx, tri_idx) < u32::MAX,
        id != VISIBILITY_EMPTY,
        (id - 1) / 0x100 == meshlet_idx,
        (id - 1) % 0x100 == tri_idx as int,
{
    lemma_side_by_side(meshlet_idx, tri_idx);
}

/// Two different pairs never share an identifier.
pub proof fn packed_ids_are_distinct(m1: u32, t1: u32, m2: u32, t2: u32)
    requires
        packable(m1, t1),
        packable(m2, t2),
        side_by_side(m1, t1) == side_by_side(m2, t2),
    ensures
        m1 == m2,
        t1 == t2,
{
    lemma_side_by_side(m1, t1);
    lemma_side_by_side(m2, t2);
}

/// Packing again what a covered pixel unpacks to gives back the pixel.
pub proof fn unpacked_ids_repack(vis_id: u32)
    requires
        vis_id != VISIBILITY_EMPTY,
    ensures
        side_by_side(((vis_id - 1) / 0x100) as u32, ((vis_id - 1) % 0x100) as u32)
            + VISIBILITY_ID_BIAS == vis_id,
{
    lemma_side_by_side(((vis_id - 1) / 0x100) as u32, ((vis_id - 1) % 0x100) as u32);
}

} // verus!
