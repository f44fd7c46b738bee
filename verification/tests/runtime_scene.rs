use prism::dag_merge::merge_meshlet_dags;
use prism::material::MaterialId;
use prism::meshlet::MeshletDag;
use prism::runtime_scene::{
    ChunkId, CompiledChunk, CompiledScene, MaterialEntry, MaterialTable, MeshletSet,
    PrototypeSurface, RuntimeChunk, RuntimeInstance, RuntimeInstanceId, RuntimePrototype,
    RuntimePrototypeId, RuntimeScene, SceneResidencyManager, SceneSpatialIndex,
};
use prism::scalar::Scalar;
use prism::scene::bounds::{bounds_of_points, Aabb, BoundingSphere, Vec3};
use prism::scene::{compute_mesh_bounds, Vec2, Vertex, MATERIAL_TRUNK};
use prism::scene_upload::RuntimeSceneGpu;
use prism::source_scene::{SourceNodeId, SourceTransform};

fn s(value: f32) -> Scalar {
    Scalar::from_bits(value.to_bits())
}

fn f(value: Scalar) -> f32 {
    f32::from_bits(value.to_bits())
}

fn v(x: f32, y: f32, z: f32) -> Vec3 {
    Vec3::new(s(x), s(y), s(z))
}

fn unit_box() -> Aabb {
    Aabb { min: v(-1.0, -1.0, -1.0), max: v(1.0, 1.0, 1.0) }
}

fn vertex(x: f32, y: f32, z: f32) -> Vertex {
    Vertex {
        position: v(x, y, z),
        normal: v(0.0, 1.0, 0.0),
        material: MATERIAL_TRUNK,
        feature_id: 0,
        uv: Vec2 { x: s(0.0), y: s(0.0) },
        ao: s(1.0),
        semantic_channels: 0,
    }
}

fn surface(label: &str, casts_shadows: bool, alpha_tested: bool) -> PrototypeSurface {
    PrototypeSurface {
        label: label.into(),
        vertices: vec![],
        indices: vec![],
        material_id: MaterialId(MATERIAL_TRUNK),
        casts_shadows,
        alpha_tested,
        local_bounds: unit_box(),
    }
}

#[test]
fn transform_aabb_moves_bounds() {
    let bounds = compute_mesh_bounds(&[vertex(0.0, 0.0, 0.0)]);
    let transform = glam::Affine3A::from_translation(glam::Vec3::X * 4.0);
    let corners: Vec<Vec3> = bounds
        .corners()
        .iter()
        .map(|c| {
            let p = transform.transform_point3(glam::Vec3::new(f(c.x), f(c.y), f(c.z)));
            v(p.x, p.y, p.z)
        })
        .collect();
    let moved = bounds_of_points(&corners);
    let center = (f(moved.min.x) + f(moved.max.x)) * 0.5;
    assert!((center - 4.0).abs() < 0.01);
}

#[test]
fn residency_manager_tracks_loaded_chunks() {
    let scene = RuntimeScene {
        label: "test".into(),
        chunks: vec![RuntimeChunk {
            id: ChunkId(0),
            bounds: unit_box(),
            instance_ids: vec![RuntimeInstanceId(0)],
            prototype_ids: vec![RuntimePrototypeId(0)],
        }],
        instances: vec![],
        prototypes: vec![RuntimePrototype {
            id: RuntimePrototypeId(0),
            label: "proto".into(),
            surfaces: vec![surface("surface", true, false)],
        }],
        material_table: MaterialTable::default(),
        spatial_index: SceneSpatialIndex::default(),
    };

    let mut residency = SceneResidencyManager::new(&scene);
    assert_eq!(residency.loaded_chunks(), vec![ChunkId(0)]);
    residency.evict_chunk(ChunkId(0));
    assert!(residency.loaded_chunks().is_empty());
    residency.request_chunk(ChunkId(0));
    assert_eq!(residency.loaded_chunks(), vec![ChunkId(0)]);
}

#[test]
fn corners_of_a_box_are_its_eight_points() {
    let b = Aabb { min: v(0.0, 1.0, 2.0), max: v(3.0, 4.0, 5.0) };
    let corners = b.corners();
    assert_eq!(corners.len(), 8);
    assert_eq!(corners[0], b.min);
    assert_eq!(corners[7], b.max);
    assert_eq!(corners[1], v(3.0, 1.0, 2.0));
    assert_eq!(corners[4], v(3.0, 4.0, 2.0));
    assert_eq!(bounds_of_points(&corners), b);
    let flat = Aabb { min: v(-1.0, 0.0, -3.5), max: v(-1.0, f32::INFINITY, 2.0) };
    assert_eq!(bounds_of_points(&flat.corners()), flat);
    // Between the two zeros the corners only give back the number.
    let zeros = Aabb { min: v(-0.0, 0.0, 0.0), max: v(0.0, 1.0, 1.0) };
    let again = bounds_of_points(&zeros.corners());
    assert!(again.min.same(zeros.min) && again.max.same(zeros.max));
}

#[test]
fn material_table_keeps_one_entry_for_each_material() {
    let mut table = MaterialTable::default();
    let entry = |id: u32, alpha_tested: bool| MaterialEntry {
        id: MaterialId(id),
        alpha_tested,
        casts_shadows: true,
    };
    table.register(entry(1, false));
    table.register(entry(2, true));
    table.register(entry(1, true));
    assert_eq!(table.materials.len(), 2);
    assert!(!table.materials[0].alpha_tested);
}

#[test]
fn chunks_without_extent_on_screen_are_not_visible() {
    let sphere = BoundingSphere { center: v(0.0, 0.0, 0.0), radius: s(1.0) };
    let index = SceneSpatialIndex {
        chunk_bounds: vec![(ChunkId(4), sphere), (ChunkId(7), sphere), (ChunkId(9), sphere)],
    };
    let visible = index.visible_chunks(&[s(0.0), s(0.25), s(f32::NAN)]);
    assert_eq!(visible, vec![ChunkId(7)]);
}

fn empty_chunk(id: u32) -> CompiledChunk {
    CompiledChunk { id: ChunkId(id), meshlet_set: MeshletSet { dag: merge_meshlet_dags(&[]) } }
}

fn instance(id: u32, chunk: u32, label: &str) -> RuntimeInstance {
    RuntimeInstance {
        id: RuntimeInstanceId(id),
        source_node_id: SourceNodeId(id),
        prototype_id: RuntimePrototypeId(0),
        chunk_id: ChunkId(chunk),
        label: label.into(),
        transform: SourceTransform::identity(),
        world_bounds: unit_box(),
    }
}

fn two_chunks() -> CompiledScene {
    let chunk = |id: u32| RuntimeChunk {
        id: ChunkId(id),
        bounds: unit_box(),
        instance_ids: vec![RuntimeInstanceId(id)],
        prototype_ids: vec![RuntimePrototypeId(0)],
    };
    CompiledScene {
        runtime_scene: RuntimeScene {
            label: "two".into(),
            chunks: vec![chunk(0), chunk(1)],
            instances: vec![instance(0, 0, "tree"), instance(1, 1, "rock")],
            prototypes: vec![RuntimePrototype {
                id: RuntimePrototypeId(0),
                label: "proto".into(),
                surfaces: vec![
                    surface("trunk", true, false),
                    surface("leaves", true, true),
                    surface("glow", false, false),
                ],
            }],
            material_table: MaterialTable::default(),
            spatial_index: SceneSpatialIndex::default(),
        },
        compiled_chunks: vec![empty_chunk(0), empty_chunk(1)],
    }
}

#[test]
fn upload_places_the_surfaces_of_loaded_chunks() {
    let compiled = two_chunks();
    let mut residency = SceneResidencyManager::new(&compiled.runtime_scene);
    residency.evict_chunk(ChunkId(0));
    let gpu = RuntimeSceneGpu::upload(&compiled, &residency);
    assert_eq!(gpu.resident_chunks, vec![ChunkId(1)]);
    let labels: Vec<&str> = gpu.shadow_meshes.iter().map(|m| m.label.as_str()).collect();
    assert_eq!(labels, vec!["rock-trunk", "rock-leaves", "rock-glow"]);
    assert_eq!(gpu.shadow_opaque_list, vec![0]);
    assert_eq!(gpu.shadow_transparent_list, vec![1]);
}

#[test]
fn upload_takes_all_chunks_where_none_is_loaded() {
    let compiled = two_chunks();
    let mut residency = SceneResidencyManager::new(&compiled.runtime_scene);
    residency.evict_chunk(ChunkId(0));
    residency.evict_chunk(ChunkId(1));
    let gpu = RuntimeSceneGpu::upload(&compiled, &residency);
    assert_eq!(gpu.resident_chunks, vec![ChunkId(0), ChunkId(1)]);
    assert_eq!(gpu.shadow_meshes.len(), 6);
    assert_eq!(gpu.shadow_opaque_list, vec![0, 3]);
    assert_eq!(gpu.shadow_transparent_list, vec![1, 4]);
    let dag: &MeshletDag = &gpu.dag;
    assert!(dag.groups.is_empty());
}

#[test]
fn scenes_that_cannot_be_uploaded_are_refused() {
    let compiled = two_chunks();
    let residency = SceneResidencyManager::new(&compiled.runtime_scene);
    let gpu = RuntimeSceneGpu::upload(&compiled, &residency);
    let tried = RuntimeSceneGpu::try_upload(&compiled, &residency).expect("the scene is sound");
    assert_eq!(tried.shadow_meshes.len(), gpu.shadow_meshes.len());
    assert_eq!(tried.shadow_opaque_list, gpu.shadow_opaque_list);

    let mut stray = two_chunks();
    stray.runtime_scene.instances[0].prototype_id = RuntimePrototypeId(99);
    assert!(RuntimeSceneGpu::try_upload(&stray, &residency).is_none());

    let mut broken = two_chunks();
    let last = broken.compiled_chunks.len() - 1;
    assert!(last > 0);
    for chunk in &mut broken.compiled_chunks {
        chunk.meshlet_set.dag.vertices = vec![vertex(0.0, 0.0, 0.0)];
        chunk.meshlet_set.dag.meshlet_vertices = vec![0];
    }
    assert!(RuntimeSceneGpu::try_upload(&broken, &residency).is_some());
    broken.compiled_chunks[last].meshlet_set.dag.meshlet_vertices = vec![u32::MAX];
    assert!(RuntimeSceneGpu::try_upload(&broken, &residency).is_none());
}
