//! What of a scene goes to the device: the hierarchy of the resident chunks, and the meshes that
//! cast shadows.

use vstd::prelude::*;

use crate::dag_merge::{can_merge, contents, merge_meshlet_dags, mergeable, merged};
use crate::meshlet::{DagContents, MeshletDag};
use crate::runtime_scene::{
    chunk_ids, lists_loaded, ChunkId, ChunkResidentState, CompiledChunk, CompiledScene,
    PrototypeSurface, RuntimeChunk, RuntimeScene, SceneResidencyManager,
};

verus! {

/// One mesh to upload: a surface of an instance's prototype, placed by the instance.
#[derive(Clone, Debug)]
pub struct ShadowMesh {
    pub instance: usize,
    pub surface: usize,
    pub label: String,
}

/// The parts of a scene that the device needs.
pub struct RuntimeSceneGpu {
    pub dag: MeshletDag,
    pub shadow_meshes: Vec<ShadowMesh>,
    pub shadow_opaque_list: Vec<usize>,
    pub shadow_transparent_list: Vec<usize>,
    pub resident_chunks: Vec<ChunkId>,
}

/// A surface by the index of its instance and its own index in the prototype.
pub struct SurfaceRef {
    pub instance: int,
    pub surface: int,
}

/// The hierarchies of the resident ones among the first `n` chunks.
pub open spec fn resident_dags(
    chunks: Seq<CompiledChunk>,
    resident: Seq<ChunkId>,
    n: nat,
) -> Seq<DagContents>
    decreases n,
{
    if n == 0 {
        Seq::empty()
    } else if resident.contains(chunks[n - 1].id) {
        resident_dags(chunks, resident, (n - 1) as nat).push(chunks[n - 1].meshlet_set.dag@)
    } else {
        resident_dags(chunks, resident, (n - 1) as nat)
    }
}

/// The surfaces of an instance's prototype.
pub open spec fn surfaces_of(scene: RuntimeScene, instance: int) -> Seq<PrototypeSurface> {
    scene.prototypes@[scene.instances@[instance].prototype_id.0 as int].surfaces@
}

/// The surfaces of the resident ones among the first `n` instances, instance by instance.
pub open spec fn resident_surfaces(
    scene: RuntimeScene,
    resident: Seq<ChunkId>,
    n: nat,
) -> Seq<SurfaceRef>
    decreases n,
{
    if n == 0 {
        Seq::empty()
    } else if resident.contains(scene.instances@[n - 1].chunk_id) {
        resident_surfaces(scene, resident, (n - 1) as nat) + Seq::new(
            surfaces_of(scene, n - 1).len(),
            |s: int| SurfaceRef { instance: n - 1, surface: s },
        )
    } else {
        resident_surfaces(scene, resident, (n - 1) as nat)
    }
}

/// The surface that a reference names.
pub open spec fn surface_at(scene: RuntimeScene, r: SurfaceRef) -> PrototypeSurface {
    surfaces_of(scene, r.instance)[r.surface]
}

/// The positions, among the first `n` meshes, of those that cast shadows with or without an alpha
/// test.
pub open spec fn casters_before(
    scene: RuntimeScene,
    refs: Seq<SurfaceRef>,
    alpha_tested: bool,
    n: nat,
) -> Seq<usize>
    decreases n,
{
    if n == 0 {
        Seq::empty()
    } else {
        let s = surface_at(scene, refs[n - 1]);
        let rest = casters_before(scene, refs, alpha_tested, (n - 1) as nat);
        if s.casts_shadows && s.alpha_tested == alpha_tested {
            rest.push((n - 1) as usize)
        } else {
            rest
        }
    }
}

/// Every resident instance has a prototype.
pub open spec fn prototypes_exist(scene: RuntimeScene, resident: Seq<ChunkId>) -> bool {
    forall|i: int|
        0 <= i < scene.instances@.len() && resident.contains(
            (#[trigger] scene.instances@[i]).chunk_id,
        ) ==> scene.instances@[i].prototype_id.0 < scene.prototypes@.len()
}

/// The meshes of a list are the surfaces of another, in order, labelled by instance and surface.
pub open spec fn meshes_match(
    scene: RuntimeScene,
    meshes: Seq<ShadowMesh>,
    refs: Seq<SurfaceRef>,
) -> bool {
    &&& meshes.len() == refs.len()
    &&& forall|m: int|
        0 <= m < meshes.len() ==> {
            &&& (#[trigger] meshes[m]).instance == refs[m].instance
            &&& meshes[m].surface == refs[m].surface
            &&& meshes[m].label@ == scene.instances@[refs[m].instance].label@ + seq!['-']
                + surface_at(scene, refs[m]).label@
        }
}

/// The loaded chunks, or all chunks of the scene where none is loaded.
pub open spec fn resident_or_all(
    scene: RuntimeScene,
    loaded: Seq<ChunkId>,
) -> Seq<ChunkId> {
    if loaded.len() == 0 {
        chunk_ids(scene.chunks@)
    } else {
        loaded
    }
}

/// Two labels with a hyphen between them.
fn joined_label(first: &str, second: &str) -> (label: String)
    ensures
        label@ == first@ + seq!['-'] + second@,
{
    proof {
        reveal_strlit("-");
    }
    assert("-"@ =~= seq!['-']);
    first.to_owned().concat("-").concat(second)
}

fn holds(ids: &[ChunkId], id: ChunkId) -> (r: bool)
    ensures
        r == ids@.contains(id),
{
    let mut i: usize = 0;
    while i < ids.len()
        invariant
            i <= ids@.len(),
            forall|j: int| 0 <= j < i ==> ids@[j] != id,
        decreases ids@.len() - i,
    {
        if ids[i] == id {
            return true;
        }
        i = i + 1;
    }
    false
}

fn all_chunk_ids(chunks: &[RuntimeChunk]) -> (ids: Vec<ChunkId>)
    ensures
        ids@ == chunk_ids(chunks@),
{
    let mut ids: Vec<ChunkId> = Vec::new();
    let mut i: usize = 0;
    while i < chunks.len()
        invariant
            i <= chunks@.len(),
            ids@ == chunk_ids(chunks@).take(i as int),
        decreases chunks@.len() - i,
    {
        ids.push(chunks[i].id);
        i = i + 1;
        assert(ids@ =~= chunk_ids(chunks@).take(i as int));
    }
    assert(ids@ =~= chunk_ids(chunks@));
    ids
}

fn collect_dags(chunks: &[CompiledChunk], resident: &[ChunkId]) -> (dags: Vec<MeshletDag>)
    ensures
        contents(dags@) == resident_dags(chunks@, resident@, chunks@.len()),
{
    let mut dags: Vec<MeshletDag> = Vec::new();
    assert(contents(dags@) =~= Seq::empty());
    let mut i: usize = 0;
    while i < chunks.len()
        invariant
            i <= chunks@.len(),
            contents(dags@) == resident_dags(chunks@, resident@, i as nat),
        decreases chunks@.len() - i,
    {
        if holds(resident, chunks[i].id) {
            let ghost before = dags@;
            let dag = chunks[i].meshlet_set.dag.duplicate();
            dags.push(dag);
            assert(contents(dags@) =~= contents(before).push(dag@));
        }
        i = i + 1;
    }
    dags
}

fn resident_chunk_list(scene: &RuntimeScene, residency: &SceneResidencyManager) -> (ids: Vec<
    ChunkId,
>)
    ensures
        exists|loaded: Seq<ChunkId>| #[trigger]
            lists_loaded(residency@, loaded) && ids@ == resident_or_all(*scene, loaded),
{
    let loaded = residency.loaded_chunks();
    assert(lists_loaded(residency@, loaded@));
    if loaded.len() == 0 {
        all_chunk_ids(scene.chunks.as_slice())
    } else {
        loaded
    }
}

/// Whether every resident instance has a prototype.
fn has_prototypes(scene: &RuntimeScene, resident: &[ChunkId]) -> (r: bool)
    ensures
        r == prototypes_exist(*scene, resident@),
{
    let mut i: usize = 0;
    while i < scene.instances.len()
        invariant
            i <= scene.instances@.len(),
            forall|j: int|
                0 <= j < i && resident@.contains((#[trigger] scene.instances@[j]).chunk_id)
                    ==> scene.instances@[j].prototype_id.0 < scene.prototypes@.len(),
        decreases scene.instances@.len() - i,
    {
        let instance = &scene.instances[i];
        assert(*instance == scene.instances@[i as int]);
        if holds(resident, instance.chunk_id) && instance.prototype_id.0 as usize
            >= scene.prototypes.len() {
            return false;
        }
        i = i + 1;
    }
    true
}

/// Whether the resident surfaces can be counted.
fn is_countable(scene: &RuntimeScene, resident: &[ChunkId]) -> (r: bool)
    requires
        prototypes_exist(*scene, resident@),
    ensures
        r == (resident_surfaces(*scene, resident@, scene.instances@.len()).len() <= usize::MAX),
{
    let mut total: usize = 0;
    let mut i: usize = 0;
    while i < scene.instances.len()
        invariant
            i <= scene.instances@.len(),
            prototypes_exist(*scene, resident@),
            total == resident_surfaces(*scene, resident@, i as nat).len(),
        decreases scene.instances@.len() - i,
    {
        let instance = &scene.instances[i];
        assert(*instance == scene.instances@[i as int]);
        if holds(resident, instance.chunk_id) {
            let prototype = &scene.prototypes[instance.prototype_id.0 as usize];
            let count: usize = prototype.surfaces.len();
            assert(count == surfaces_of(*scene, i as int).len());
            match total.checked_add(count) {
                Some(sum) => {
                    total = sum;
                },
                None => {
                    proof {
                        lemma_prefix_len(*scene, resident@, (i + 1) as nat, scene.instances@.len());
                    }
                    return false;
                },
            }
        }
        i = i + 1;
    }
    true
}

/// Every resident instance has a prototype, the hierarchies of the resident chunks can be merged,
/// and the meshes can be counted.
pub open spec fn uploadable(compiled: CompiledScene, resident: Seq<ChunkId>) -> bool {
    let scene = compiled.runtime_scene;
    let dags = resident_dags(
        compiled.compiled_chunks@,
        resident,
        compiled.compiled_chunks@.len(),
    );
    &&& prototypes_exist(scene, resident)
    &&& dags.len() > 1 ==> mergeable(dags)
    &&& resident_surfaces(scene, resident, scene.instances@.len()).len() <= usize::MAX
}

impl RuntimeSceneGpu {
    /// The hierarchies of the given chunks merged into one, the placed surfaces of their
    /// instances, and the positions of those that cast shadows.
    pub open spec fn holds_chunks(self, compiled: CompiledScene, resident: Seq<ChunkId>) -> bool {
        let scene = compiled.runtime_scene;
        let refs = resident_surfaces(scene, resident, scene.instances@.len());
        &&& self.resident_chunks@ == resident
        &&& self.dag@ == merged(
            resident_dags(
                compiled.compiled_chunks@,
                resident,
                compiled.compiled_chunks@.len(),
            ),
        )
        &&& meshes_match(scene, self.shadow_meshes@, refs)
        &&& self.shadow_opaque_list@ == casters_before(scene, refs, false, refs.len())
        &&& self.shadow_transparent_list@ == casters_before(scene, refs, true, refs.len())
    }

    /// Gathers what the device needs of the loaded chunks, or of all chunks where none is loaded.
    pub fn upload(compiled: &CompiledScene, residency: &SceneResidencyManager) -> (r:
        RuntimeSceneGpu)
        requires
            forall|loaded: Seq<ChunkId>| #[trigger]
                lists_loaded(residency@, loaded) ==> uploadable(
                    *compiled,
                    resident_or_all(compiled.runtime_scene, loaded),
                ),
        ensures
            exists|loaded: Seq<ChunkId>| #[trigger]
                lists_loaded(residency@, loaded) && r.holds_chunks(
                    *compiled,
                    resident_or_all(compiled.runtime_scene, loaded),
                ),
    {
        let resident_chunks = resident_chunk_list(&compiled.runtime_scene, residency);
        Self::upload_resident(compiled, resident_chunks)
    }

    /// Gathers the same where it can be gathered.
    pub fn try_upload(compiled: &CompiledScene, residency: &SceneResidencyManager) -> (r: Option<
        RuntimeSceneGpu,
    >)
        ensures
            exists|loaded: Seq<ChunkId>| #[trigger]
                lists_loaded(residency@, loaded) && ({
                    let resident = resident_or_all(compiled.runtime_scene, loaded);
                    match r {
                        Some(gpu) => uploadable(*compiled, resident) && gpu.holds_chunks(
                            *compiled,
                            resident,
                        ),
                        None => !uploadable(*compiled, resident),
                    }
                }),
    {
        let scene = &compiled.runtime_scene;
        let resident_chunks = resident_chunk_list(scene, residency);
        let dags = collect_dags(compiled.compiled_chunks.as_slice(), resident_chunks.as_slice());
        if !has_prototypes(scene, resident_chunks.as_slice()) || (dags.len() > 1 && !can_merge(
            dags.as_slice(),
        )) {
            return None;
        }
        if !is_countable(scene, resident_chunks.as_slice()) {
            return None;
        }
        Some(Self::upload_resident(compiled, resident_chunks))
    }

    fn upload_resident(compiled: &CompiledScene, resident_chunks: Vec<ChunkId>) -> (r:
        RuntimeSceneGpu)
        requires
            uploadable(*compiled, resident_chunks@),
        ensures
            r.holds_chunks(*compiled, resident_chunks@),
    {
        let scene = &compiled.runtime_scene;
        let dags = collect_dags(compiled.compiled_chunks.as_slice(), resident_chunks.as_slice());
        let dag = merge_meshlet_dags(dags.as_slice());

        let mut shadow_meshes: Vec<ShadowMesh> = Vec::new();
        let mut shadow_opaque_list: Vec<usize> = Vec::new();
        let mut shadow_transparent_list: Vec<usize> = Vec::new();
        let ghost resident = resident_chunks@;
        let ghost all = resident_surfaces(*scene, resident, scene.instances@.len());
        let mut i: usize = 0;
        while i < scene.instances.len()
            invariant
                *scene == compiled.runtime_scene,
                resident == resident_chunks@,
                i <= scene.instances@.len(),
                prototypes_exist(*scene, resident),
                all == resident_surfaces(*scene, resident, scene.instances@.len()),
                all.len() <= usize::MAX,
                meshes_match(*scene, shadow_meshes@, resident_surfaces(*scene, resident, i as nat)),
                ({
                    let refs = resident_surfaces(*scene, resident, i as nat);
                    &&& shadow_opaque_list@ == casters_before(*scene, refs, false, refs.len())
                    &&& shadow_transparent_list@ == casters_before(*scene, refs, true, refs.len())
                }),
            decreases scene.instances@.len() - i,
        {
            let instance = &scene.instances[i];
            let ghost done = resident_surfaces(*scene, resident, i as nat);
            let ghost next = resident_surfaces(*scene, resident, (i + 1) as nat);
            if holds(resident_chunks.as_slice(), instance.chunk_id) {
                assert(scene.instances@[i as int].prototype_id.0 < scene.prototypes@.len());
                let prototype = &scene.prototypes[instance.prototype_id.0 as usize];
                let ghost surfaces = surfaces_of(*scene, i as int);
                assert(prototype.surfaces@ == surfaces);
                assert(next == done + Seq::new(
                    surfaces.len(),
                    |s: int| SurfaceRef { instance: i as int, surface: s },
                ));
                proof {
                    lemma_prefix_len(*scene, resident, (i + 1) as nat, scene.instances@.len());
                }
                assert(next.take(done.len() as int) =~= done);
                let mut s: usize = 0;
                while s < prototype.surfaces.len()
                    invariant
                        *scene == compiled.runtime_scene,
                        i < scene.instances@.len(),
                        *instance == scene.instances@[i as int],
                        prototype.surfaces@ == surfaces,
                        surfaces == surfaces_of(*scene, i as int),
                        s <= surfaces.len(),
                        next.len() <= usize::MAX,
                        next == done + Seq::new(
                            surfaces.len(),
                            |s: int| SurfaceRef { instance: i as int, surface: s },
                        ),
                        meshes_match(*scene, shadow_meshes@, next.take(done.len() + s)),
                        ({
                            let refs = next.take(done.len() + s);
                            &&& shadow_opaque_list@ == casters_before(
                                *scene,
                                refs,
                                false,
                                refs.len(),
                            )
                            &&& shadow_transparent_list@ == casters_before(
                                *scene,
                                refs,
                                true,
                                refs.len(),
                            )
                        }),
                    decreases surfaces.len() - s,
                {
                    let surface = &prototype.surfaces[s];
                    let ghost refs = next.take(done.len() + s);
                    let ghost more = next.take(done.len() + s + 1);
                    proof {
                        assert(more == refs.push(
                            SurfaceRef { instance: i as int, surface: s as int },
                        ));
                        lemma_casters_prefix(*scene, refs, more, false, refs.len());
                        lemma_casters_prefix(*scene, refs, more, true, refs.len());
                    }
                    let mesh_idx: usize = shadow_meshes.len();
                    let label = joined_label(instance.label.as_str(), surface.label.as_str());
                    shadow_meshes.push(ShadowMesh { instance: i, surface: s, label });
                    if surface.casts_shadows {
                        if surface.alpha_tested {
                            shadow_transparent_list.push(mesh_idx);
                        } else {
                            shadow_opaque_list.push(mesh_idx);
                        }
                    }
                    s = s + 1;
                }
                assert(next.take(next.len() as int) =~= next);
            }
            i = i + 1;
        }
        RuntimeSceneGpu {
            dag,
            shadow_meshes,
            shadow_opaque_list,
            shadow_transparent_list,
            resident_chunks,
        }
    }
}

/// There is one list of the loaded chunks: what the manager holds settles what is uploaded.
pub proof fn loaded_list_is_unique(
    states: Map<u32, ChunkResidentState>,
    a: Seq<ChunkId>,
    b: Seq<ChunkId>,
)
    requires
        lists_loaded(states, a),
        lists_loaded(states, b),
    ensures
        a == b,
{
    lemma_ascending_prefix(a, b, a.len());
    lemma_ascending_prefix(b, a, b.len());
    assert(a =~= b);
}

/// Of two ascending lists with the same members, each begins with the other's beginning.
proof fn lemma_ascending_prefix(a: Seq<ChunkId>, b: Seq<ChunkId>, n: nat)
    requires
        n <= a.len(),
        forall|i: int, j: int|
            0 <= i < j < a.len() ==> (#[trigger] a[i]).0 < (#[trigger] a[j]).0,
        forall|i: int, j: int|
            0 <= i < j < b.len() ==> (#[trigger] b[i]).0 < (#[trigger] b[j]).0,
        forall|id: ChunkId| #[trigger] a.contains(id) <==> b.contains(id),
    ensures
        n <= b.len(),
        forall|i: int| 0 <= i < n ==> #[trigger] a[i] == b[i],
    decreases n,
{
    if n > 0 {
        let k = n - 1;
        lemma_ascending_prefix(a, b, k as nat);
        assert(a.contains(a[k]));
        let j = choose|j: int| 0 <= j < b.len() && b[j] == a[k];
        assert(j >= k) by {
            if j < k {
                assert(a[j] == b[j]);
            }
        }
        assert(b.contains(b[k]));
        assert(a.contains(b[k]));
        let i = choose|i: int| 0 <= i < a.len() && a[i] == b[k];
        assert(i >= k) by {
            if i < k {
                assert(a[i] == b[i]);
            }
        }
        if j > k && i > k {
            assert(b[k].0 < b[j].0);
            assert(a[k].0 < a[i].0);
        }
    }
}

proof fn lemma_prefix_len(scene: RuntimeScene, resident: Seq<ChunkId>, m: nat, n: nat)
    requires
        m <= n,
    ensures
        resident_surfaces(scene, resident, m).len() <= resident_surfaces(scene, resident, n).len(),
    decreases n,
{
    if m < n {
        lemma_prefix_len(scene, resident, m, (n - 1) as nat);
    }
}

proof fn lemma_casters_prefix(
    scene: RuntimeScene,
    refs: Seq<SurfaceRef>,
    more: Seq<SurfaceRef>,
    alpha_tested: bool,
    n: nat,
)
    requires
        n <= refs.len() <= more.len(),
        forall|i: int| 0 <= i < refs.len() ==> more[i] == refs[i],
    ensures
        casters_before(scene, more, alpha_tested, n) == casters_before(
            scene,
            refs,
            alpha_tested,
            n,
        ),
    decreases n,
{
    if n > 0 {
        lemma_casters_prefix(scene, refs, more, alpha_tested, (n - 1) as nat);
    }
}

/// A mesh is in the list of casters exactly where its surface casts shadows with the list's kind
/// of alpha test; the list ascends, so the two lists share no mesh and repeat none.
pub proof fn caster_list_is_exact(
    scene: RuntimeScene,
    refs: Seq<SurfaceRef>,
    alpha_tested: bool,
    n: nat,
)
    requires
        n <= refs.len() <= usize::MAX,
    ensures
        forall|m: usize|
            #[trigger] casters_before(scene, refs, alpha_tested, n).contains(m) <==> m < n
                && surface_at(scene, refs[m as int]).casts_shadows && surface_at(
                scene,
                refs[m as int],
            ).alpha_tested == alpha_tested,
        forall|i: int, j: int|
            0 <= i < j < casters_before(scene, refs, alpha_tested, n).len()
                ==> casters_before(scene, refs, alpha_tested, n)[i] < casters_before(
                scene,
                refs,
                alpha_tested,
                n,
            )[j],
    decreases n,
{
    let cur = casters_before(scene, refs, alpha_tested, n);
    if n > 0 {
        let k = (n - 1) as nat;
        caster_list_is_exact(scene, refs, alpha_tested, k);
        let prev = casters_before(scene, refs, alpha_tested, k);
        assert forall|i: int| 0 <= i < prev.len() implies (#[trigger] prev[i]) < k by {
            assert(prev.contains(prev[i]));
        }
        assert forall|m: usize| #[trigger] cur.contains(m) <==> m < n && surface_at(
            scene,
            refs[m as int],
        ).casts_shadows && surface_at(scene, refs[m as int]).alpha_tested == alpha_tested by {
            if m < k {
                if prev.contains(m) {
                    let at = choose|at: int| 0 <= at < prev.len() && prev[at] == m;
                    assert(cur[at] == m);
                }
                if cur.contains(m) {
                    let at = choose|at: int| 0 <= at < cur.len() && cur[at] == m;
                    assert(prev[at] == m);
                }
            } else if m == k {
                if cur.len() > prev.len() {
                    assert(cur[prev.len() as int] == m);
                }
                if cur.contains(m) && cur.len() == prev.len() {
                    let at = choose|at: int| 0 <= at < cur.len() && cur[at] == m;
                    assert(prev[at] == m);
                }
            } else {
                if cur.contains(m) {
                    let at = choose|at: int| 0 <= at < cur.len() && cur[at] == m;
                    if at < prev.len() {
                        assert(prev[at] == m);
                    }
                }
            }
        }
    }
}

/// The hierarchies that are merged are those of the resident chunks, each once and in order: there is
/// an ascending list of positions that names a chunk exactly where its id is among the resident ones,
/// and the hierarchies are those of the chunks at these positions.
pub proof fn resident_hierarchies_are_exact(
    chunks: Seq<CompiledChunk>,
    resident: Seq<ChunkId>,
    n: nat,
) -> (at: Seq<int>)
    requires
        n <= chunks.len(),
    ensures
        forall|i: int, j: int| 0 <= i < j < at.len() ==> at[i] < at[j],
        forall|k: int|
            0 <= k < at.len() ==> 0 <= #[trigger] at[k] < n && exists|j: int|
                0 <= j < resident.len() && resident[j] == chunks[at[k]].id,
        forall|i: int, j: int|
            0 <= i < n && 0 <= j < resident.len() && (#[trigger] chunks[i]).id
                == #[trigger] resident[j] ==> at.contains(i),
        resident_dags(chunks, resident, n).len() == at.len(),
        forall|k: int|
            0 <= k < at.len() ==> #[trigger] resident_dags(chunks, resident, n)[k]
                == chunks[at[k]].meshlet_set.dag@,
    decreases n,
{
    if n == 0 {
        Seq::empty()
    } else {
        let m = (n - 1) as nat;
        let before = resident_hierarchies_are_exact(chunks, resident, m);
        if resident.contains(chunks[m as int].id) {
            let at = before.push(m as int);
            assert forall|i: int, j: int|
                0 <= i < n && 0 <= j < resident.len() && (#[trigger] chunks[i]).id
                    == #[trigger] resident[j] implies at.contains(i) by {
                if i < m {
                    assert(before.contains(i));
                    let k = choose|k: int| 0 <= k < before.len() && before[k] == i;
                    assert(at[k] == i);
                } else {
                    assert(at[before.len() as int] == i);
                }
            }
            assert forall|k: int| 0 <= k < at.len() implies 0 <= #[trigger] at[k] < n && exists|
                j: int,
            |
                0 <= j < resident.len() && resident[j] == chunks[at[k]].id by {
                if k < before.len() {
                    assert(at[k] == before[k]);
                }
            }
            at
        } else {
            assert forall|i: int, j: int|
                0 <= i < n && 0 <= j < resident.len() && (#[trigger] chunks[i]).id
                    == #[trigger] resident[j] implies before.contains(i) by {
                if i == m {
                    assert(resident.contains(resident[j]));
                }
            }
            before
        }
    }
}

/// The position of a surface among all surfaces: by instance first, then by surface.
pub open spec fn comes_before(a: SurfaceRef, b: SurfaceRef) -> bool {
    a.instance < b.instance || a.instance == b.instance && a.surface < b.surface
}

/// Every surface of every resident instance is listed, once and in order, and no other.
pub proof fn resident_surfaces_are_exact(scene: RuntimeScene, resident: Seq<ChunkId>, n: nat)
    requires
        n <= scene.instances@.len(),
    ensures
        forall|i: int, j: int|
            0 <= i < j < resident_surfaces(scene, resident, n).len() ==> comes_before(
                #[trigger] resident_surfaces(scene, resident, n)[i],
                #[trigger] resident_surfaces(scene, resident, n)[j],
            ),
        forall|k: int|
            0 <= k < resident_surfaces(scene, resident, n).len() ==> {
                let r = #[trigger] resident_surfaces(scene, resident, n)[k];
                &&& 0 <= r.instance < n
                &&& resident.contains(scene.instances@[r.instance].chunk_id)
                &&& 0 <= r.surface
                    < scene.prototypes@[scene.instances@[r.instance].prototype_id.0 as int].surfaces@.len()
            },
        forall|i: int, s: int|
            0 <= i < n && resident.contains(scene.instances@[i].chunk_id) && 0 <= s
                < scene.prototypes@[scene.instances@[i].prototype_id.0 as int].surfaces@.len()
                ==> #[trigger] resident_surfaces(scene, resident, n).contains(
                (SurfaceRef { instance: i, surface: s }),
            ),
    decreases n,
{
    if n > 0 {
        let m = (n - 1) as nat;
        resident_surfaces_are_exact(scene, resident, m);
        let before = resident_surfaces(scene, resident, m);
        let all = resident_surfaces(scene, resident, n);
        assert forall|i: int, s: int|
            0 <= i < n && resident.contains(scene.instances@[i].chunk_id) && 0 <= s
                < scene.prototypes@[scene.instances@[i].prototype_id.0 as int].surfaces@.len() implies
        #[trigger] all.contains((SurfaceRef { instance: i, surface: s })) by {
            let r = SurfaceRef { instance: i, surface: s };
            if i < m {
                assert(before.contains(r));
                let k = choose|k: int| 0 <= k < before.len() && before[k] == r;
                assert(all[k] == r);
            } else {
                assert(all[before.len() + s] == r);
            }
        }
    }
}

/// What is uploaded of some chunks: the hierarchies of those chunks and of no other, merged; meshes of
/// surfaces of instances in them and of no other, each once, named after both; and in the two lists the positions of exactly those meshes that cast shadows without and with an alpha test.
pub proof fn uploads_hold_what_is_resident(
    gpu: RuntimeSceneGpu,
    compiled: CompiledScene,
    resident: Seq<ChunkId>,
) -> (at: Seq<int>)
    requires
        gpu.holds_chunks(compiled, resident),
        gpu.shadow_meshes@.len() <= usize::MAX,
    ensures
        gpu.resident_chunks@ == resident,
        forall|i: int, j: int| 0 <= i < j < at.len() ==> at[i] < at[j],
        forall|i: int|
            0 <= i < compiled.compiled_chunks@.len() ==> (at.contains(i) <==> resident.contains(
                (#[trigger] compiled.compiled_chunks@[i]).id,
            )),
        forall|k: int| 0 <= k < at.len() ==> 0 <= #[trigger] at[k] < compiled.compiled_chunks@.len(),
        gpu.dag@ == merged(
            Seq::new(at.len(), |k: int| compiled.compiled_chunks@[at[k]].meshlet_set.dag@),
        ),
        ({
            let scene = compiled.runtime_scene;
            let meshes = gpu.shadow_meshes@;
            &&& forall|m: int|
                0 <= m < meshes.len() ==> {
                    let mesh = #[trigger] meshes[m];
                    let instance = scene.instances@[mesh.instance as int];
                    let surfaces = scene.prototypes@[instance.prototype_id.0 as int].surfaces@;
                    &&& mesh.instance < scene.instances@.len()
                    &&& resident.contains(instance.chunk_id)
                    &&& mesh.surface < surfaces.len()
                    &&& mesh.label@ == instance.label@ + seq!['-']
                        + surfaces[mesh.surface as int].label@
                    &&& gpu.shadow_opaque_list@.contains(m as usize) == (
                    surfaces[mesh.surface as int].casts_shadows
                        && !surfaces[mesh.surface as int].alpha_tested)
                    &&& gpu.shadow_transparent_list@.contains(m as usize) == (
                    surfaces[mesh.surface as int].casts_shadows
                        && surfaces[mesh.surface as int].alpha_tested)
                }
            &&& forall|a: int, b: int|
                0 <= a < b < meshes.len() ==> (#[trigger] meshes[a]).instance < (
                #[trigger] meshes[b]).instance || meshes[a].instance == meshes[b].instance
                    && meshes[a].surface < meshes[b].surface
        }),
        forall|k: int|
            0 <= k < gpu.shadow_opaque_list@.len() ==> (#[trigger] gpu.shadow_opaque_list@[k])
                < gpu.shadow_meshes@.len(),
        forall|k: int|
            0 <= k < gpu.shadow_transparent_list@.len() ==> (
            #[trigger] gpu.shadow_transparent_list@[k]) < gpu.shadow_meshes@.len(),
        forall|i: int, j: int|
            0 <= i < j < gpu.shadow_opaque_list@.len() ==> gpu.shadow_opaque_list@[i]
                < gpu.shadow_opaque_list@[j],
        forall|i: int, j: int|
            0 <= i < j < gpu.shadow_transparent_list@.len() ==> gpu.shadow_transparent_list@[i]
                < gpu.shadow_transparent_list@[j],
{
    let scene = compiled.runtime_scene;
    let chunks = compiled.compiled_chunks@;
    let meshes = gpu.shadow_meshes@;
    let refs = resident_surfaces(scene, resident, scene.instances@.len());
    let at = resident_hierarchies_are_exact(chunks, resident, chunks.len());
    assert(resident_dags(chunks, resident, chunks.len()) =~= Seq::new(
        at.len(),
        |k: int| chunks[at[k]].meshlet_set.dag@,
    ));
    assert forall|i: int| 0 <= i < chunks.len() implies (at.contains(i) <==> resident.contains(
        (#[trigger] chunks[i]).id,
    )) by {
        if at.contains(i) {
            let k = choose|k: int| 0 <= k < at.len() && at[k] == i;
            assert(0 <= at[k] < chunks.len());
        }
        if resident.contains(chunks[i].id) {
            let j = choose|j: int| 0 <= j < resident.len() && resident[j] == chunks[i].id;
            assert(chunks[i].id == resident[j]);
        }
    }
    resident_surfaces_are_exact(scene, resident, scene.instances@.len());
    caster_list_is_exact(scene, refs, false, refs.len());
    caster_list_is_exact(scene, refs, true, refs.len());
    let opaque = gpu.shadow_opaque_list@;
    let tested = gpu.shadow_transparent_list@;
    assert forall|k: int| 0 <= k < opaque.len() implies (#[trigger] opaque[k]) < meshes.len() by {
        assert(opaque.contains(opaque[k]));
    }
    assert forall|k: int| 0 <= k < tested.len() implies (#[trigger] tested[k]) < meshes.len() by {
        assert(tested.contains(tested[k]));
    }
    assert forall|m: int| 0 <= m < meshes.len() implies ({
        let mesh = #[trigger] meshes[m];
        let instance = scene.instances@[mesh.instance as int];
        let surfaces = scene.prototypes@[instance.prototype_id.0 as int].surfaces@;
        &&& mesh.instance < scene.instances@.len()
        &&& resident.contains(instance.chunk_id)
        &&& mesh.surface < surfaces.len()
        &&& mesh.label@ == instance.label@ + seq!['-'] + surfaces[mesh.surface as int].label@
        &&& opaque.contains(m as usize) == (surfaces[mesh.surface as int].casts_shadows
            && !surfaces[mesh.surface as int].alpha_tested)
        &&& tested.contains(m as usize) == (surfaces[mesh.surface as int].casts_shadows
            && surfaces[mesh.surface as int].alpha_tested)
    }) by {
        let r = refs[m];
        assert(m as usize == m);
        assert(meshes[m].instance == r.instance && meshes[m].surface == r.surface);
        assert(surface_at(scene, r) == scene.prototypes@[scene.instances@[r.instance].prototype_id.0 as int].surfaces@[r.surface]);
        let a = opaque.contains(m as usize);
        let b = tested.contains(m as usize);
    }
    assert forall|a: int, b: int| 0 <= a < b < meshes.len() implies (#[trigger] meshes[a]).instance
        < (#[trigger] meshes[b]).instance || meshes[a].instance == meshes[b].instance
        && meshes[a].surface < meshes[b].surface by {
        assert(comes_before(refs[a], refs[b]));
    }
    at
}

/// Every surface of every resident instance has a mesh.
pub proof fn resident_surfaces_have_a_mesh(
    gpu: RuntimeSceneGpu,
    compiled: CompiledScene,
    resident: Seq<ChunkId>,
    i: int,
    s: int,
) -> (m: int)
    requires
        gpu.holds_chunks(compiled, resident),
        0 <= i < compiled.runtime_scene.instances@.len(),
        resident.contains(compiled.runtime_scene.instances@[i].chunk_id),
        0 <= s < compiled.runtime_scene.prototypes@[
            compiled.runtime_scene.instances@[i].prototype_id.0 as int
        ].surfaces@.len(),
    ensures
        0 <= m < gpu.shadow_meshes@.len(),
        gpu.shadow_meshes@[m].instance == i,
        gpu.shadow_meshes@[m].surface == s,
{
    let scene = compiled.runtime_scene;
    let refs = resident_surfaces(scene, resident, scene.instances@.len());
    resident_surfaces_are_exact(scene, resident, scene.instances@.len());
    let r = SurfaceRef { instance: i, surface: s };
    assert(refs.contains(r));
    choose|m: int| 0 <= m < refs.len() && refs[m] == r
}

/// A chunk that is not resident leaves no mesh behind: none of its instances has one.
pub proof fn evicted_chunks_are_not_uploaded(
    gpu: RuntimeSceneGpu,
    compiled: CompiledScene,
    resident: Seq<ChunkId>,
    evicted: ChunkId,
    m: int,
)
    requires
        gpu.holds_chunks(compiled, resident),
        gpu.shadow_meshes@.len() <= usize::MAX,
        !resident.contains(evicted),
        0 <= m < gpu.shadow_meshes@.len(),
    ensures
        compiled.runtime_scene.instances@[gpu.shadow_meshes@[m].instance as int].chunk_id
            != evicted,
{
    let _at = uploads_hold_what_is_resident(gpu, compiled, resident);
    assert(gpu.shadow_meshes@[m].instance < compiled.runtime_scene.instances@.len());
}

/// What is resident are the loaded chunks where any is loaded, and otherwise all chunks of the scene.
pub proof fn unloaded_scenes_are_wholly_resident(scene: RuntimeScene, loaded: Seq<ChunkId>)
    ensures
        loaded.len() > 0 ==> resident_or_all(scene, loaded) == loaded,
        loaded.len() == 0 ==> resident_or_all(scene, loaded).len() == scene.chunks@.len(),
        loaded.len() == 0 ==> forall|i: int|
            0 <= i < scene.chunks@.len() ==> #[trigger] resident_or_all(scene, loaded)[i]
                == scene.chunks@[i].id,
{
}

/// A scene can be uploaded exactly where every resident instance names a prototype that exists, more
/// than one hierarchy can be merged, and the surfaces can be counted.
pub proof fn uploadable_scenes_are_complete(compiled: CompiledScene, resident: Seq<ChunkId>)
    ensures
        uploadable(compiled, resident) <==> {
            let scene = compiled.runtime_scene;
            let dags = resident_dags(
                compiled.compiled_chunks@,
                resident,
                compiled.compiled_chunks@.len(),
            );
            &&& forall|i: int, j: int|
                0 <= i < scene.instances@.len() && 0 <= j < resident.len() && (
                #[trigger] scene.instances@[i]).chunk_id == (#[trigger] resident[j])
                    ==> scene.instances@[i].prototype_id.0 < scene.prototypes@.len()
            &&& dags.len() <= 1 || mergeable(dags)
            &&& resident_surfaces(scene, resident, scene.instances@.len()).len() <= usize::MAX
        },
{
    let scene = compiled.runtime_scene;
    if prototypes_exist(scene, resident) {
        assert forall|i: int, j: int|
            0 <= i < scene.instances@.len() && 0 <= j < resident.len() && (
            #[trigger] scene.instances@[i]).chunk_id == (
            #[trigger] resident[j]) implies scene.instances@[i].prototype_id.0
            < scene.prototypes@.len() by {
            assert(resident.contains(resident[j]));
        }
    }
}

} // verus!
