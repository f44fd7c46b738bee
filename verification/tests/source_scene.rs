use prism::scalar::Scalar;
use prism::scene::bounds::Vec3;
use prism::soundstage::{LookDevPreset, SoundstageLayout};
use prism::source_scene::{
    ChunkingConfig, ProceduralSubject, SourceBounds, SourceGeometry, SourceLodPolicy,
    SourceMaterialRef, SourceScene, SourceSceneBuilder, SourceTransform, SourceTriangleMesh,
};

fn s(value: f32) -> Scalar {
    Scalar::from_bits(value.to_bits())
}

fn f(value: Scalar) -> f32 {
    f32::from_bits(value.to_bits())
}

#[test]
fn redwood_soundstage_builder_produces_expected_nodes() {
    let layout = SoundstageLayout::redwood();
    let scene = SourceSceneBuilder::redwood_soundstage(&layout, Some(7));
    assert_eq!(scene.nodes.len(), 3);
    assert!(matches!(
        scene.nodes[0].geometry,
        SourceGeometry::ProceduralSubject(ProceduralSubject::RedwoodTree { .. })
    ));
}

#[test]
fn redwood_soundstage_is_built_as_laid_out() {
    let layout = SoundstageLayout::redwood();
    let scene = SourceSceneBuilder::redwood_soundstage(&layout, Some(7));
    assert_eq!(scene.label, "redwood_soundstage");
    assert_eq!(f(scene.chunking.chunk_size), 1280.0);
    let names: Vec<&str> = scene.nodes.iter().map(|n| n.name.as_str()).collect();
    assert_eq!(names, vec!["hero_redwood", "ground_slab", "humanoid"]);
    assert!(matches!(
        scene.nodes[0].geometry,
        SourceGeometry::ProceduralSubject(ProceduralSubject::RedwoodTree {
            seed: Some(7),
            foliage_tier: 2,
        })
    ));
    match &scene.nodes[1].geometry {
        SourceGeometry::ProceduralSubject(ProceduralSubject::GroundSlab {
            radius,
            thickness,
            segments,
        }) => {
            assert_eq!((f(*radius), f(*thickness), *segments), (320.0, 7.5, 128));
        }
        _ => panic!("the ground is a slab"),
    }
    let place = scene.nodes[2].transform.translation;
    assert_eq!((f(place.x), f(place.y), f(place.z)), (15.0, 0.0, 10.0));
    assert!(scene.nodes.iter().all(|n| n.casts_shadows));
    assert_eq!(scene.nodes[2].id.0, 2);
}

#[test]
fn grown_soundstage_has_a_grown_tree() {
    let layout = SoundstageLayout::redwood();
    let scene = SourceSceneBuilder::redwood_soundstage_growth(&layout, None);
    assert_eq!(scene.label, "redwood_soundstage_growth");
    assert_eq!(scene.nodes[0].name, "hero_redwood_growth");
    assert!(matches!(
        scene.nodes[0].geometry,
        SourceGeometry::ProceduralSubject(ProceduralSubject::GrowthTree {
            seed: None,
            foliage_tier: 1,
        })
    ));
}

#[test]
fn instanced_geometry_can_be_authored() {
    let mut builder = SourceSceneBuilder::new("instanced");
    builder.push_node(
        "instanced_mesh",
        SourceGeometry::Instanced {
            base: Box::new(SourceGeometry::TriangleMesh(SourceTriangleMesh {
                label: "tri".into(),
                vertices: vec![],
                indices: vec![],
            })),
            transforms: vec![SourceTransform::identity(), SourceTransform::identity()],
        },
        SourceTransform::identity(),
    );
    let scene = builder.build();
    assert_eq!(scene.nodes.len(), 1);
}

#[test]
fn chunks_are_at_least_one_unit_wide() {
    let build = |size: f32| SourceSceneBuilder::new("x").with_chunk_size(s(size)).build();
    assert_eq!(f(build(0.25).chunking.chunk_size), 1.0);
    assert_eq!(f(build(-3.0).chunking.chunk_size), 1.0);
    assert_eq!(f(build(f32::NAN).chunking.chunk_size), 1.0);
    assert_eq!(f(build(64.0).chunking.chunk_size), 64.0);
    assert_eq!(f(SourceScene::new("y").chunking.chunk_size), 512.0);
    assert_eq!(f(ChunkingConfig::default().chunk_size), 512.0);
}

#[test]
fn defaults_leave_everything_to_the_compiler() {
    assert_eq!(SourceBounds::default(), SourceBounds::Auto);
    assert_eq!(SourceLodPolicy::default(), SourceLodPolicy::Auto);
    assert_eq!(SourceMaterialRef::default().override_material, None);
    let moved = SourceTransform::from_translation(Vec3::new(s(1.0), s(2.0), s(3.0)));
    assert_eq!(f(moved.x_axis.x), 1.0);
    assert_eq!(f(moved.x_axis.y), 0.0);
    assert_eq!(f(moved.translation.z), 3.0);
    assert_eq!(SourceTransform::default(), SourceTransform::identity());
}

#[test]
fn presets_are_named() {
    assert_eq!(LookDevPreset::hero_default(), LookDevPreset::Hero);
    assert_eq!(LookDevPreset::from_name("hero"), Some(LookDevPreset::Hero));
    assert_eq!(LookDevPreset::from_name("low_angle"), Some(LookDevPreset::LowAngle));
    assert_eq!(LookDevPreset::from_name("silhouette"), Some(LookDevPreset::Silhouette));
    assert_eq!(LookDevPreset::from_name("neutral_debug"), Some(LookDevPreset::NeutralDebug));
    assert_eq!(LookDevPreset::from_name("Hero"), None);
    assert_eq!(LookDevPreset::from_name(""), None);
    let layout = SoundstageLayout::redwood();
    assert_eq!(f(layout.shadow_center.y), 11.0);
    assert_eq!((f(layout.shadow_focus_radius), f(layout.shadow_depth)), (200.0, 420.0));
}
