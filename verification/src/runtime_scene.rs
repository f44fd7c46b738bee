//! Scenes that have been cut into chunks, and what of them is resident.

use std::collections::BTreeMap;
use vstd::prelude::*;
use vstd::std_specs::btree::{increasing_seq, into_iter};
use vstd::std_specs::cmp::OrdSpec;
use vstd::std_specs::iter::IteratorSpec;

use crate::material::MaterialId;
use crate::meshlet::MeshletDag;
use crate::scalar::{zero, Scalar};
use crate::scene::bounds::{Aabb, BoundingSphere};
use crate::scene::vertex::Vertex;
use crate::source_scene::{SourceNodeId, SourceTransform};

verus! {

#[derive(Clone, Copy, Debug, PartialEq, Eq, PartialOrd, Ord, Hash, Structural)]
pub struct ChunkId(pub u32);

#[derive(Clone, Copy, Debug, PartialEq, Eq, PartialOrd, Ord, Hash, Structural)]
pub struct RuntimePrototypeId(pub u32);

#[derive(Clone, Copy, Debug, PartialEq, Eq, Hash, Structural)]
pub struct RuntimeInstanceId(pub u32);

#[derive(Clone, Debug)]
pub struct PrototypeSurface {
    pub label: String,
    pub vertices: Vec<Vertex>,
    pub indices: Vec<u32>,
    pub material_id: MaterialId,
    pub casts_shadows: bool,
    pub alpha_tested: bool,
    pub local_bounds: Aabb,
}

#[derive(Clone, Debug)]
pub struct RuntimePrototype {
    pub id: RuntimePrototypeId,
    pub label: String,
    pub surfaces: Vec<PrototypeSurface>,
}

#[derive(Clone, Debug)]
pub struct RuntimeInstance {
    pub id: RuntimeInstanceId,
    pub source_node_id: SourceNodeId,
    pub prototype_id: RuntimePrototypeId,
    pub chunk_id: ChunkId,
    pub label: String,
    pub transform: SourceTransform,
    pub world_bounds: Aabb,
}

#[derive(Clone, Debug)]
pub struct RuntimeChunk {
    pub id: ChunkId,
    pub bounds: Aabb,
    pub instance_ids: Vec<RuntimeInstanceId>,
    pub prototype_ids: Vec<RuntimePrototypeId>,
}

#[derive(Clone, Debug)]
pub struct ChunkCompileInput {
    pub id: ChunkId,
    pub node_ids: Vec<SourceNodeId>,
    pub bounds: Aabb,
}

#[derive(Clone, Copy, Debug, PartialEq, Eq, Structural)]
pub struct MaterialEntry {
    pub id: MaterialId,
    pub alpha_tested: bool,
    pub casts_shadows: bool,
}

#[derive(Clone, Debug)]
pub struct MaterialTable {
    pub materials: Vec<MaterialEntry>,
}

/// Whether a list of entries has one for a material.
pub open spec fn knows(materials: Seq<MaterialEntry>, id: MaterialId) -> bool {
    exists|i: int| 0 <= i < materials.len() && (#[trigger] materials[i]).id == id
}

/// No two entries are for the same material.
pub open spec fn one_entry_each(materials: Seq<MaterialEntry>) -> bool {
    forall|i: int, j: int|
        0 <= i < j < materials.len() ==> (#[trigger] materials[i]).id != (
        #[trigger] materials[j]).id
}

/// The table after an entry is offered: unchanged if the material is known, else longer by it.
pub open spec fn registered(materials: Seq<MaterialEntry>, entry: MaterialEntry) -> Seq<
    MaterialEntry,
> {
    if knows(materials, entry.id) {
        materials
    } else {
        materials.push(entry)
    }
}

impl Default for MaterialTable {
    fn default() -> (table: MaterialTable)
        ensures
            table.materials@ == Seq::<MaterialEntry>::empty(),
    {
        MaterialTable { materials: Vec::new() }
    }
}

impl MaterialTable {
    /// Adds an entry, unless the table already has one for its material.
    pub fn register(&mut self, entry: MaterialEntry)
        ensures
            final(self).materials@ == registered(old(self).materials@, entry),
    {
        let mut i: usize = 0;
        while i < self.materials.len()
            invariant
                i <= self.materials@.len(),
                self.materials@ == old(self).materials@,
                forall|j: int| 0 <= j < i ==> (#[trigger] self.materials@[j]).id != entry.id,
            decreases self.materials@.len() - i,
        {
            if self.materials[i].id == entry.id {
                return ;
            }
            i = i + 1;
        }
        self.materials.push(entry);
    }
}

/// Registering keeps one entry for each material, keeps what was there, makes the material known,
/// and changes nothing the second time.
pub proof fn registering_keeps_entries_unique(
    materials: Seq<MaterialEntry>,
    entry: MaterialEntry,
    again: MaterialEntry,
)
    requires
        again.id == entry.id,
    ensures
        one_entry_each(materials) ==> one_entry_each(registered(materials, entry)),
        materials == registered(materials, entry).take(materials.len() as int),
        knows(registered(materials, entry), entry.id),
        registered(registered(materials, entry), again) == registered(materials, entry),
{
    let after = registered(materials, entry);
    assert(materials =~= after.take(materials.len() as int));
    if !knows(materials, entry.id) {
        assert(after[materials.len() as int].id == entry.id);
        assert forall|i: int, j: int|
            one_entry_each(materials) && 0 <= i < j < after.len() implies (#[trigger] after[i]).id
            != (#[trigger] after[j]).id by {
            assert(after[i] == materials[i]);
            if j < materials.len() {
                assert(after[j] == materials[j]);
            }
        }
    }
}

#[derive(Clone, Debug)]
pub struct SceneSpatialIndex {
    pub chunk_bounds: Vec<(ChunkId, BoundingSphere)>,
}

impl Default for SceneSpatialIndex {
    fn default() -> (index: SceneSpatialIndex)
        ensures
            index.chunk_bounds@ == Seq::<(ChunkId, BoundingSphere)>::empty(),
    {
        SceneSpatialIndex { chunk_bounds: Vec::new() }
    }
}

/// The chunks among the first `n` whose sphere covers part of the screen, in order.
pub open spec fn visible_before(
    chunk_bounds: Seq<(ChunkId, BoundingSphere)>,
    diameters: Seq<Scalar>,
    n: nat,
) -> Seq<ChunkId>
    decreases n,
{
    if n == 0 {
        Seq::empty()
    } else if zero().lt(diameters[n - 1]) {
        visible_before(chunk_bounds, diameters, (n - 1) as nat).push(chunk_bounds[n - 1].0)
    } else {
        visible_before(chunk_bounds, diameters, (n - 1) as nat)
    }
}

impl SceneSpatialIndex {
    /// The chunks whose bounding sphere has a positive diameter on the screen. The diameters are
    /// those of the spheres of `chunk_bounds`, in the same order.
    pub fn visible_chunks(&self, diameters: &[Scalar]) -> (chunks: Vec<ChunkId>)
        requires
            diameters@.len() == self.chunk_bounds@.len(),
        ensures
            chunks@ == visible_before(
                self.chunk_bounds@,
                diameters@,
                self.chunk_bounds@.len(),
            ),
    {
        let mut chunks: Vec<ChunkId> = Vec::new();
        let mut i: usize = 0;
        while i < self.chunk_bounds.len()
            invariant
                i <= self.chunk_bounds@.len(),
                diameters@.len() == self.chunk_bounds@.len(),
                chunks@ == visible_before(self.chunk_bounds@, diameters@, i as nat),
            decreases self.chunk_bounds@.len() - i,
        {
            if Scalar::from_bits(0).less(diameters[i]) {
                chunks.push(self.chunk_bounds[i].0);
            }
            i = i + 1;
        }
        chunks
    }
}

/// A chunk is visible exactly where its diameter is above zero: there is an ascending list of
/// positions that names a position exactly where the diameter there is above zero, and the visible
/// chunks are those at these positions, in order.
pub proof fn visible_chunks_have_a_diameter(
    chunk_bounds: Seq<(ChunkId, BoundingSphere)>,
    diameters: Seq<Scalar>,
    n: nat,
) -> (at: Seq<int>)
    requires
        n <= chunk_bounds.len(),
        diameters.len() == chunk_bounds.len(),
    ensures
        forall|i: int, j: int| 0 <= i < j < at.len() ==> at[i] < at[j],
        forall|i: int| #[trigger] at.contains(i) <==> 0 <= i < n && zero().lt(diameters[i]),
        visible_before(chunk_bounds, diameters, n).len() == at.len(),
        forall|k: int|
            0 <= k < at.len() ==> #[trigger] visible_before(chunk_bounds, diameters, n)[k]
                == chunk_bounds[at[k]].0,
    decreases n,
{
    if n == 0 {
        Seq::empty()
    } else {
        let m = (n - 1) as nat;
        let before = visible_chunks_have_a_diameter(chunk_bounds, diameters, m);
        assert forall|k: int| 0 <= k < before.len() implies 0 <= #[trigger] before[k] < m by {
            assert(before.contains(before[k]));
        }
        if zero().lt(diameters[m as int]) {
            let at = before.push(m as int);
            assert forall|i: int| #[trigger] at.contains(i) <==> 0 <= i < n && zero().lt(
                diameters[i],
            ) by {
                if before.contains(i) {
                    let k = choose|k: int| 0 <= k < before.len() && before[k] == i;
                    assert(at[k] == i);
                }
                if i == m {
                    assert(at[before.len() as int] == i);
                }
                if at.contains(i) && i != m {
                    let k = choose|k: int| 0 <= k < at.len() && at[k] == i;
                    assert(before[k] == i);
                }
            }
            at
        } else {
            before
        }
    }
}

#[derive(Clone, Debug)]
pub struct MeshletSet {
    pub dag: MeshletDag,
}

#[derive(Clone, Debug)]
pub struct RuntimeScene {
    pub label: String,
    pub chunks: Vec<RuntimeChunk>,
    pub instances: Vec<RuntimeInstance>,
    pub prototypes: Vec<RuntimePrototype>,
    pub material_table: MaterialTable,
    pub spatial_index: SceneSpatialIndex,
}

/// A chunk with its meshlet hierarchy built.
#[derive(Clone, Debug)]
pub struct CompiledChunk {
    pub id: ChunkId,
    pub meshlet_set: MeshletSet,
}

/// A scene with the hierarchies of its chunks.
#[derive(Clone, Debug)]
pub struct CompiledScene {
    pub runtime_scene: RuntimeScene,
    pub compiled_chunks: Vec<CompiledChunk>,
}

#[derive(Clone, Copy, Debug, PartialEq, Eq, Structural)]
pub enum ChunkResidentState {
    Unloaded,
    LoadedCpu,
}

/// Which chunks are loaded. A chunk that was never mentioned has no state.
pub struct SceneResidencyManager {
    chunk_states: BTreeMap<u32, ChunkResidentState>,
}

/// The ids of chunks, in order.
pub open spec fn chunk_ids(chunks: Seq<RuntimeChunk>) -> Seq<ChunkId> {
    chunks.map_values(|c: RuntimeChunk| c.id)
}

impl View for SceneResidencyManager {
    type V = Map<u32, ChunkResidentState>;

    closed spec fn view(&self) -> Map<u32, ChunkResidentState> {
        self.chunk_states@
    }
}

/// Whether a chunk is loaded.
pub open spec fn is_loaded(states: Map<u32, ChunkResidentState>, id: ChunkId) -> bool {
    states.contains_key(id.0) && states[id.0] == ChunkResidentState::LoadedCpu
}

/// A list that holds exactly the loaded chunks, in ascending order.
pub open spec fn lists_loaded(states: Map<u32, ChunkResidentState>, ids: Seq<ChunkId>) -> bool {
    &&& forall|i: int, j: int|
        0 <= i < j < ids.len() ==> (#[trigger] ids[i]).0 < (#[trigger] ids[j]).0
    &&& forall|id: ChunkId| #[trigger] ids.contains(id) <==> is_loaded(states, id)
}

impl SceneResidencyManager {
    /// A manager in which every chunk of the scene is loaded, and no other.
    pub fn new(scene: &RuntimeScene) -> (manager: SceneResidencyManager)
        ensures
            forall|id: u32| #[trigger]
                manager@.contains_key(id) <==> chunk_ids(scene.chunks@).contains(ChunkId(id)),
            forall|id: u32| #[trigger]
                manager@.contains_key(id) ==> manager@[id] == ChunkResidentState::LoadedCpu,
    {
        broadcast use vstd::std_specs::btree::group_btree_axioms;

        let mut chunk_states: BTreeMap<u32, ChunkResidentState> = BTreeMap::new();
        let ghost ids = chunk_ids(scene.chunks@);
        let mut i: usize = 0;
        while i < scene.chunks.len()
            invariant
                i <= scene.chunks@.len(),
                ids == chunk_ids(scene.chunks@),
                forall|id: u32| #[trigger]
                    chunk_states@.contains_key(id) <==> ids.take(i as int).contains(ChunkId(id)),
                forall|id: u32| #[trigger]
                    chunk_states@.contains_key(id) ==> chunk_states@[id]
                        == ChunkResidentState::LoadedCpu,
            decreases scene.chunks@.len() - i,
        {
            broadcast use vstd::std_specs::btree::group_btree_axioms;

            let ghost before = chunk_states@;
            let id: u32 = scene.chunks[i].id.0;
            chunk_states.insert(id, ChunkResidentState::LoadedCpu);
            proof {
                let next = ids.take(i + 1);
                let prev = ids.take(i as int);
                assert(next == prev.push(ChunkId(id)));
                assert forall|k: u32| #[trigger]
                    chunk_states@.contains_key(k) <==> next.contains(ChunkId(k)) by {
                    if prev.contains(ChunkId(k)) {
                        let at = choose|at: int|
                            0 <= at < prev.len() && prev[at] == ChunkId(k);
                        assert(next[at] == ChunkId(k));
                    }
                    if k == id {
                        assert(next[i as int] == ChunkId(k));
                    }
                    if next.contains(ChunkId(k)) && k != id {
                        let at = choose|at: int|
                            0 <= at < next.len() && next[at] == ChunkId(k);
                        assert(prev[at] == ChunkId(k));
                    }
                }
            }
            i = i + 1;
        }
        assert(ids.take(i as int) == ids);
        SceneResidencyManager { chunk_states }
    }

    /// Marks a chunk as unloaded.
    pub fn evict_chunk(&mut self, chunk_id: ChunkId)
        ensures
            final(self)@ == old(self)@.insert(chunk_id.0, ChunkResidentState::Unloaded),
    {
        broadcast use vstd::std_specs::btree::group_btree_axioms;

        self.chunk_states.insert(chunk_id.0, ChunkResidentState::Unloaded);
    }

    /// Marks a chunk as loaded.
    pub fn request_chunk(&mut self, chunk_id: ChunkId)
        ensures
            final(self)@ == old(self)@.insert(chunk_id.0, ChunkResidentState::LoadedCpu),
    {
        broadcast use vstd::std_specs::btree::group_btree_axioms;

        self.chunk_states.insert(chunk_id.0, ChunkResidentState::LoadedCpu);
    }

    /// The loaded chunks, in ascending order of their ids.
    pub fn loaded_chunks(&self) -> (ids: Vec<ChunkId>)
        ensures
            lists_loaded(self@, ids@),
    {
        broadcast use vstd::std_specs::btree::group_btree_axioms;

        let mut ids: Vec<ChunkId> = Vec::new();
        let entries = self.chunk_states.iter();
        let ghost all: Seq<(u32, ChunkResidentState)> = into_iter(entries);
        assert(all == entries.remaining().unref());
        assert(ascending_keys(all)) by {
            let keys = entries.remaining().map_values(
                |kv: (&u32, &ChunkResidentState)| *kv.0,
            );
            lemma_increasing(keys);
            assert forall|i: int, j: int| 0 <= i < j < all.len() implies (#[trigger] all[i]).0 < (
            #[trigger] all[j]).0 by {
                assert(keys[i] < keys[j]);
            }
        }
        assert(pairs_of(all, self@)) by {
            assert forall|i: int| 0 <= i < all.len() implies self@.contains_key(
                (#[trigger] all[i]).0,
            ) && self@[all[i].0] == all[i].1 by {
                assert(self@.contains_key(*entries.remaining()[i].0));
            }
            assert forall|k: u32| #[trigger] self@.contains_key(k) implies all.contains(
                (k, self@[k]),
            ) by {
                let v = entries.remaining();
                assert(v.contains((&k, &self@[k])));
                let at = choose|at: int| 0 <= at < v.len() && v[at] == (&k, &self@[k]);
                assert(all[at] == (k, self@[k]));
            }
        }
        for entry in it: entries
            invariant
                it.seq().unref() == all,
                ids@ == loaded_before(all, it.index() as nat),
        {
            if *entry.1 == ChunkResidentState::LoadedCpu {
                ids.push(ChunkId(*entry.0));
            }
        }
        proof {
            lemma_loaded_before(all, all.len(), self@);
        }
        ids
    }
}

proof fn lemma_increasing(keys: Seq<u32>)
    requires
        increasing_seq(keys),
    ensures
        forall|i: int, j: int| 0 <= i < j < keys.len() ==> keys[i] < keys[j],
{
    broadcast use vstd::std_specs::btree::group_btree_axioms;

    assert forall|i: int, j: int| 0 <= i < j < keys.len() implies keys[i] < keys[j] by {
        assert(keys[i].cmp_spec(&keys[j]) is Less);
    }
}

/// The loaded chunks among the first `n` entries, in order.
spec fn loaded_before(entries: Seq<(u32, ChunkResidentState)>, n: nat) -> Seq<ChunkId>
    decreases n,
{
    if n == 0 {
        Seq::empty()
    } else if entries[n - 1].1 == ChunkResidentState::LoadedCpu {
        loaded_before(entries, (n - 1) as nat).push(ChunkId(entries[n - 1].0))
    } else {
        loaded_before(entries, (n - 1) as nat)
    }
}

spec fn ascending_keys(entries: Seq<(u32, ChunkResidentState)>) -> bool {
    forall|i: int, j: int|
        0 <= i < j < entries.len() ==> (#[trigger] entries[i]).0 < (#[trigger] entries[j]).0
}

spec fn pairs_of(
    entries: Seq<(u32, ChunkResidentState)>,
    states: Map<u32, ChunkResidentState>,
) -> bool {
    &&& forall|i: int|
        0 <= i < entries.len() ==> states.contains_key((#[trigger] entries[i]).0)
            && states[entries[i].0] == entries[i].1
    &&& forall|k: u32| #[trigger]
        states.contains_key(k) ==> entries.contains((k, states[k]))
}

proof fn lemma_loaded_before(
    entries: Seq<(u32, ChunkResidentState)>,
    n: nat,
    states: Map<u32, ChunkResidentState>,
)
    requires
        n <= entries.len(),
        ascending_keys(entries),
        pairs_of(entries, states),
    ensures
        forall|i: int|
            0 <= i < loaded_before(entries, n).len() ==> is_loaded(
                states,
                #[trigger] loaded_before(entries, n)[i],
            ) && (n < entries.len() ==> loaded_before(entries, n)[i].0 < entries[n as int].0),
        forall|i: int, j: int|
            0 <= i < j < loaded_before(entries, n).len() ==> (#[trigger] loaded_before(
                entries,
                n,
            )[i]).0 < (#[trigger] loaded_before(entries, n)[j]).0,
        forall|k: int|
            0 <= k < n && (#[trigger] entries[k]).1 == ChunkResidentState::LoadedCpu
                ==> loaded_before(entries, n).contains(ChunkId(entries[k].0)),
        n == entries.len() ==> lists_loaded(states, loaded_before(entries, n)),
    decreases n,
{
    if n > 0 {
        let m = (n - 1) as nat;
        lemma_loaded_before(entries, m, states);
        let prev = loaded_before(entries, m);
        let cur = loaded_before(entries, n);
        assert forall|k: int|
            0 <= k < n && (#[trigger] entries[k]).1
                == ChunkResidentState::LoadedCpu implies cur.contains(ChunkId(entries[k].0)) by {
            if k < m {
                assert(prev.contains(ChunkId(entries[k].0)));
                let at = choose|at: int| 0 <= at < prev.len() && prev[at] == ChunkId(entries[k].0);
                assert(cur[at] == ChunkId(entries[k].0));
            } else {
                assert(cur[cur.len() - 1] == ChunkId(entries[k].0));
            }
        }
    }
    let cur = loaded_before(entries, n);
    if n == entries.len() {
        assert forall|id: ChunkId| #[trigger] cur.contains(id) <==> is_loaded(states, id) by {
            if is_loaded(states, id) {
                assert(entries.contains((id.0, states[id.0])));
                let k = choose|k: int|
                    0 <= k < entries.len() && entries[k] == (id.0, states[id.0]);
                assert(entries[k].1 == ChunkResidentState::LoadedCpu);
                assert(cur.contains(ChunkId(entries[k].0)));
            }
        }
    }
}

/// A list of the loaded chunks ascends, and holds a chunk exactly where its state says that it is
/// loaded.
pub proof fn loaded_lists_are_exact(states: Map<u32, ChunkResidentState>, ids: Seq<ChunkId>)
    requires
        lists_loaded(states, ids),
    ensures
        forall|i: int, j: int| 0 <= i < j < ids.len() ==> (#[trigger] ids[i]).0 < (#[trigger] ids[j]).0,
        forall|i: int|
            0 <= i < ids.len() ==> states.contains_key((#[trigger] ids[i]).0) && states[ids[i].0]
                == ChunkResidentState::LoadedCpu,
        forall|id: u32|
            #[trigger] states.contains_key(id) && states[id] == ChunkResidentState::LoadedCpu
                ==> exists|i: int| 0 <= i < ids.len() && (#[trigger] ids[i]).0 == id,
{
    assert forall|i: int| 0 <= i < ids.len() implies states.contains_key((#[trigger] ids[i]).0)
        && states[ids[i].0] == ChunkResidentState::LoadedCpu by {
        assert(ids.contains(ids[i]));
    }
    assert forall|id: u32|
        #[trigger] states.contains_key(id) && states[id]
            == ChunkResidentState::LoadedCpu implies exists|i: int|
        0 <= i < ids.len() && (#[trigger] ids[i]).0 == id by {
        assert(is_loaded(states, ChunkId(id)));
        assert(ids.contains(ChunkId(id)));
        let i = choose|i: int| 0 <= i < ids.len() && ids[i] == ChunkId(id);
        assert(ids[i].0 == id);
    }
}

/// An entry is added exactly where no entry before it has its material: behind the others, which stay
/// as they are.
pub proof fn unknown_materials_are_added(materials: Seq<MaterialEntry>, entry: MaterialEntry)
    ensures
        (exists|i: int| 0 <= i < materials.len() && (#[trigger] materials[i]).id == entry.id)
            ==> registered(materials, entry) == materials,
        (forall|i: int| 0 <= i < materials.len() ==> (#[trigger] materials[i]).id != entry.id)
            ==> registered(materials, entry) == materials.push(entry),
{
}

/// A scene's chunks are all loaded to begin with; evicting one unloads it and nothing else, and
/// requesting it again brings it back.
pub proof fn residency_follows_requests(
    states: Map<u32, ChunkResidentState>,
    id: ChunkId,
    other: ChunkId,
)
    requires
        other != id,
    ensures
        ({
            let evicted = states.insert(id.0, ChunkResidentState::Unloaded);
            let requested = evicted.insert(id.0, ChunkResidentState::LoadedCpu);
            &&& !is_loaded(evicted, id)
            &&& is_loaded(evicted, other) == is_loaded(states, other)
            &&& is_loaded(requested, id)
            &&& is_loaded(requested, other) == is_loaded(states, other)
            &&& is_loaded(states, id) ==> requested == states
        }),
{
    let evicted = states.insert(id.0, ChunkResidentState::Unloaded);
    let requested = evicted.insert(id.0, ChunkResidentState::LoadedCpu);
    if is_loaded(states, id) {
        assert(requested =~= states);
    }
}

} // verus!
