use prism::material::MaterialId;
use prism::pipeline::gpu::{Sampler, TexView, TextureFormat};
use prism::scalar::{Mat4, Scalar, Vec4};
use prism::scene::bounds::{Aabb, Vec3};
use prism::scene::graph::{compute_geometry_bounds, compute_lipschitz};
use prism::scene::lighting::{has_manual_ambient, CameraView, LightingUniforms};
use prism::scene::settings::SkyProbe;
use prism::scene::shadow::{cascade_range, CascadeSet, ShadowMap};
use prism::scene::vertex::VertexFormat;
use prism::scene::{
    pack_foliage_channels, unpack_alpha, unpack_emissive, AreaLight, CloudProfile, CloudResolution,
    GeometryDef, ParametricDef, ParametricKind, SceneGraph, SceneHandle, SceneSettings,
    SdfPrimitive, SdfTree, Vec2, Vertex, WindSettings,
};
use prism::source_scene::SourceTransform;

fn s(value: f32) -> Scalar {
    Scalar::from_bits(value.to_bits())
}

fn f(value: Scalar) -> f32 {
    f32::from_bits(value.to_bits())
}

fn v(x: f32, y: f32, z: f32) -> Vec3 {
    Vec3::new(s(x), s(y), s(z))
}

fn around(center: [f32; 3], half: [f32; 3]) -> Aabb {
    Aabb {
        min: v(center[0] - half[0], center[1] - half[1], center[2] - half[2]),
        max: v(center[0] + half[0], center[1] + half[1], center[2] + half[2]),
    }
}

fn primitive_box(p: &SdfPrimitive) -> Aabb {
    match p {
        SdfPrimitive::Sphere { center, radius } => {
            around([f(center.x), f(center.y), f(center.z)], [f(*radius); 3])
        }
        SdfPrimitive::TaperedCapsule { a, b, radius_a, radius_b } => {
            let r = f(*radius_a).max(f(*radius_b));
            let first = around([f(a.x), f(a.y), f(a.z)], [r; 3]);
            first.union(&around([f(b.x), f(b.y), f(b.z)], [r; 3]))
        }
        SdfPrimitive::Box { center, half_extents } => around(
            [f(center.x), f(center.y), f(center.z)],
            [f(half_extents.x), f(half_extents.y), f(half_extents.z)],
        ),
        SdfPrimitive::Plane { .. } => around([0.0; 3], [1000.0; 3]),
    }
}

fn tree_boxes(tree: &SdfTree) -> Vec<Aabb> {
    tree.primitives().iter().map(primitive_box).collect()
}

fn sphere(x: f32, y: f32, z: f32, radius: f32) -> SdfTree {
    SdfTree::Primitive(SdfPrimitive::Sphere { center: v(x, y, z), radius: s(radius) })
}

#[test]
fn scene_graph_add_and_retrieve() {
    let mut graph = SceneGraph::new();
    let tree = sphere(0.0, 0.0, 0.0, 5.0);
    let boxes = tree_boxes(&tree);
    let h = graph.add(GeometryDef::Sdf(tree), MaterialId(0), &boxes);
    assert_eq!(h, SceneHandle(0));
    assert!(graph.node(h).is_some());
    assert_eq!(graph.nodes().len(), 1);
}

#[test]
fn unknown_handles_find_nothing() {
    let mut graph = SceneGraph::default();
    let card = GeometryDef::Parametric(ParametricDef { kind: ParametricKind::LeafCard });
    let first = graph.add(card, MaterialId(1), &[]);
    let tree = sphere(1.0, 0.0, 0.0, 1.0);
    let boxes = tree_boxes(&tree);
    let second = graph.add(GeometryDef::Sdf(tree), MaterialId(2), &boxes);
    assert_eq!(graph.node(first).map(|n| n.material), Some(MaterialId(1)));
    assert_eq!(graph.node(second).map(|n| n.material), Some(MaterialId(2)));
    assert!(graph.node(SceneHandle(2)).is_none());
    assert_eq!(graph.nodes()[0].world_bounds, around([0.0; 3], [1.0; 3]));
}

#[test]
fn bounds_computation_sphere() {
    let tree = sphere(1.0, 2.0, 3.0, 5.0);
    let boxes = tree_boxes(&tree);
    let bounds = compute_geometry_bounds(&GeometryDef::Sdf(tree), &boxes);
    assert!((f(bounds.min.x) - (-4.0)).abs() < 1e-5);
    assert!((f(bounds.max.x) - 6.0).abs() < 1e-5);
}

#[test]
fn bounds_computation_smooth_union() {
    let tree = SdfTree::SmoothUnion {
        a: Box::new(sphere(0.0, 0.0, 0.0, 1.0)),
        b: Box::new(sphere(5.0, 0.0, 0.0, 2.0)),
        radius: s(0.5),
    };
    let boxes = tree_boxes(&tree);
    let bounds = compute_geometry_bounds(&GeometryDef::Sdf(tree), &boxes);
    assert!(f(bounds.min.x) <= -1.0);
    assert!(f(bounds.max.x) >= 7.0);
}

#[test]
fn bounds_of_differences_are_those_of_the_left_side() {
    let tree = SdfTree::Union(
        Box::new(SdfTree::Difference(
            Box::new(sphere(0.0, 0.0, 0.0, 1.0)),
            Box::new(sphere(100.0, 0.0, 0.0, 1.0)),
        )),
        Box::new(SdfTree::Intersection(
            Box::new(sphere(5.0, 0.0, 0.0, 1.0)),
            Box::new(sphere(-100.0, 0.0, 0.0, 1.0)),
        )),
    );
    let boxes = tree_boxes(&tree);
    assert_eq!(boxes.len(), 4);
    let bounds = tree.bounds(&boxes);
    assert_eq!(f(bounds.min.x), -1.0);
    assert_eq!(f(bounds.max.x), 6.0);
}

#[test]
fn bounds_of_instances_join_their_boxes() {
    let geometry = GeometryDef::Instanced {
        base: Box::new(GeometryDef::Sdf(sphere(0.0, 0.0, 0.0, 1.0))),
        transforms: vec![SourceTransform::identity(), SourceTransform::from_translation(v(9.0, 0.0, 0.0))],
    };
    let boxes = vec![around([0.0; 3], [1.0; 3]), around([9.0, 0.0, 0.0], [1.0; 3])];
    let bounds = compute_geometry_bounds(&geometry, &boxes);
    assert_eq!(f(bounds.max.x), 10.0);
    assert_eq!(f(bounds.min.x), -1.0);
    assert_eq!(f(compute_lipschitz(&geometry)), 1.0);
}

#[test]
fn pack_unpack_foliage_channels_roundtrip() {
    let packed = pack_foliage_channels(s(0.75), s(0.5));
    let alpha = f(unpack_alpha(packed));
    let emissive = f(unpack_emissive(packed));
    assert!((alpha - 0.75).abs() < 0.005);
    assert!((emissive - 0.5).abs() < 0.005);
}

#[test]
fn pack_foliage_channels_extremes() {
    let zero = pack_foliage_channels(s(0.0), s(0.0));
    assert_eq!(f(unpack_alpha(zero)), 0.0);
    assert_eq!(f(unpack_emissive(zero)), 0.0);

    let full = pack_foliage_channels(s(1.0), s(1.0));
    assert!((f(unpack_alpha(full)) - 1.0).abs() < 0.005);
    assert!((f(unpack_emissive(full)) - 1.0).abs() < 0.005);
}

#[test]
fn foliage_channels_round_as_floats_do() {
    let level = |x: f32| (x.clamp(0.0, 1.0) * 255.0).round() as u32;
    let mut samples = vec![
        -1.0,
        -0.0,
        0.75,
        1.0,
        2.0,
        f32::INFINITY,
        f32::NEG_INFINITY,
        f32::NAN,
        f32::MIN_POSITIVE,
        1e-45,
        0.5 / 255.0,
        0.0019607841,
        0.0019607842,
    ];
    for n in 0..=510_u32 {
        let x = n as f32 / 510.0;
        for step in 0..5_u32 {
            samples.push(f32::from_bits(x.to_bits().wrapping_add(step).wrapping_sub(2)));
        }
    }
    for k in 0..4000_u32 {
        samples.push(f32::from_bits(0x3800_0000 + k * 31_337));
    }
    for x in samples {
        let packed = pack_foliage_channels(s(x), s(1.0));
        assert_eq!(packed, level(x) + 0xFF00, "{}", x);
    }
    for n in 0..=255_u32 {
        assert_eq!(unpack_alpha(n | 0xABCD_0000).to_bits(), (n as f32 / 255.0).to_bits());
        assert_eq!(unpack_emissive(n << 8).to_bits(), (n as f32 / 255.0).to_bits());
        assert_eq!(pack_foliage_channels(unpack_alpha(n), unpack_emissive(n)), n);
    }
}

#[test]
fn lipschitz_is_one_for_standard_primitives() {
    let geometry = GeometryDef::Sdf(SdfTree::SmoothUnion {
        a: Box::new(sphere(0.0, 0.0, 0.0, 1.0)),
        b: Box::new(SdfTree::Primitive(SdfPrimitive::TaperedCapsule {
            a: v(0.0, 0.0, 0.0),
            b: v(0.0, 10.0, 0.0),
            radius_a: s(1.0),
            radius_b: s(0.5),
        })),
        radius: s(0.5),
    });
    assert!((f(compute_lipschitz(&geometry)) - 1.0).abs() < 1e-6);
}

#[test]
fn boxes_grow_and_start_empty() {
    let mut b = Aabb::empty();
    assert_eq!(f(b.min.x), f32::INFINITY);
    b.expand_point(v(1.0, 2.0, 3.0));
    assert_eq!(b, Aabb { min: v(1.0, 2.0, 3.0), max: v(1.0, 2.0, 3.0) });
    b.expand_point(v(-1.0, 4.0, 3.0));
    assert_eq!(b.min, v(-1.0, 2.0, 3.0));
    assert_eq!(b.max, v(1.0, 4.0, 3.0));
}

#[test]
fn default_clouds_and_wind() {
    let clouds = CloudProfile::default();
    assert_eq!(f(clouds.coverage), 0.35);
    assert_eq!(f(clouds.density_scale), 16.0);
    assert_eq!(f(clouds.cloud_base_km), 1.8);
    assert_eq!(f(clouds.cloud_top_km), 3.2);
    assert_eq!(f(clouds.detail_erosion), 0.6);
    assert_eq!(f(clouds.wind_speed), 1.0);
    assert_eq!((clouds.march_steps, clouds.light_steps), (48, 6));
    assert_eq!(f(clouds.temporal_blend), 0.88);
    assert_eq!(clouds.resolution, CloudResolution::Quarter);
    let wind = WindSettings::default();
    assert_eq!((f(wind.direction.x), f(wind.direction.y)), (1.0, 0.3));
    assert_eq!((f(wind.mean_speed), f(wind.gust_strength)), (1.0, 0.35));
    assert_eq!((f(wind.gust_frequency), f(wind.turbulence)), (0.28, 0.65));
    assert!(!wind.frozen);
}

#[test]
fn vertices_lie_as_shaders_read_them() {
    let layout = Vertex::layout();
    assert_eq!(layout.array_stride, 48);
    let offsets: Vec<u64> = layout.attributes.iter().map(|a| a.offset).collect();
    assert_eq!(offsets, vec![0, 12, 24, 28, 32, 40, 44]);
    assert_eq!(layout.attributes[4].format, VertexFormat::Float32x2);
}

fn settings() -> SceneSettings {
    let z = s(0.0);
    let o = v(0.0, 0.0, 0.0);
    SceneSettings {
        sun_direction: v(0.1, 0.2, 0.3),
        sun_color: v(1.0, 2.0, 3.0),
        sun_strength: s(4.0),
        sun_angular_radius: s(0.01),
        fog_density: s(5.0),
        fog_height_falloff: s(6.0),
        fog_start: s(7.0),
        fog_end: s(8.0),
        fog_color: o,
        fog_sky_mix: z,
        sky_zenith: o,
        sky_horizon: v(0.5, 0.5, 0.5),
        sky_strength: z,
        rayleigh_strength: z,
        mie_strength: z,
        mie_anisotropy: z,
        horizon_haze: z,
        shaft_intensity: z,
        shaft_decay: z,
        ambient_up: o,
        ambient_down: o,
        ambient_right: o,
        ambient_left: o,
        ambient_front: o,
        ambient_back: o,
        exposure: s(1.5),
        tonemap_strength: z,
        contact_shadow_strength: z,
        ambient_intensity: z,
        gi_intensity: z,
        cloud_coverage: s(0.25),
        cloud_profile: CloudProfile::default(),
        wind: WindSettings { frozen: true, ..WindSettings::default() },
        fog_volume_density: z,
        fog_volume_albedo: o,
        fog_volume_anisotropy: z,
        focus_distance: z,
        aperture: z,
        dof_enabled: false,
        motion_blur_enabled: false,
        fxaa_enabled: false,
        area_lights: vec![AreaLight::Sphere { position: o, radius: z, color: o, intensity: z }],
        ca_strength: z,
        film_grain_strength: z,
    }
}

#[test]
fn lighting_uniforms_are_laid_out_in_order() {
    let row = |k: f32| Vec4::new(s(k), s(k), s(k), s(k));
    let matrix = |k: f32| Mat4 { x_axis: row(k), y_axis: row(k), z_axis: row(k), w_axis: row(k) };
    let probe_face = v(0.7, 0.8, 0.9);
    let u = LightingUniforms::from_camera(
        &CameraView {
            view_proj: matrix(1.0),
            inv_view_proj: matrix(2.0),
            position: v(3.0, 4.0, 5.0),
        },
        &settings(),
        &CascadeSet {
            light_vps: [matrix(10.0), matrix(11.0), matrix(12.0), matrix(13.0)],
            splits: [s(20.0), s(21.0), s(22.0), s(23.0)],
        },
        s(99.0),
        1920,
        1080,
        &SkyProbe {
            up: probe_face,
            down: probe_face,
            right: probe_face,
            left: probe_face,
            front: probe_face,
            back: probe_face,
        },
    );
    let words = u.words();
    assert_eq!(words.len(), 176);
    let at = |i: usize| f32::from_bits(words[i]);
    assert_eq!((at(0), at(16), at(32), at(35)), (1.0, 2.0, 3.0, 1.0));
    assert_eq!((at(36), at(39), at(40), at(43)), (0.1, 0.0, 1.0, 4.0));
    // Fog parameters, the first cascade, and the probe.
    assert_eq!((at(56), at(59), at(64), at(80)), (5.0, 8.0, 10.0, 0.7));
    // Time goes on, but not for what the wind moves.
    assert_eq!((at(112), at(113)), (99.0, 0.0));
    assert_eq!((at(116), at(117)), (1920.0, 1080.0));
    assert_eq!((at(124), at(140), at(156)), (11.0, 12.0, 13.0));
    assert_eq!((at(172), at(175)), (20.0, 23.0));
}

#[test]
fn ambient_is_manual_above_a_threshold() {
    assert!(!has_manual_ambient(&[s(0.0), s(1e-4)]));
    assert!(has_manual_ambient(&[s(0.0), s(1.1e-4)]));
    assert!(!has_manual_ambient(&[s(f32::NAN)]));
}

#[test]
fn cascades_meet_at_their_splits() {
    let splits = [s(4.0), s(16.0), s(64.0), s(256.0)];
    let first = cascade_range(s(0.1), &splits, 0);
    let third = cascade_range(s(0.1), &splits, 2);
    assert_eq!((f(first.near), f(first.far)), (0.1, 4.0));
    assert_eq!((f(third.near), f(third.far)), (16.0, 64.0));
    let map = ShadowMap::new();
    let texture = map.texture();
    assert_eq!((texture.width, texture.height, texture.layers), (2048, 2048, 4));
    assert_eq!(texture.format, TextureFormat::Depth32Float);
    assert_eq!(texture.view, TexView::ShadowArray);
    assert_eq!(map.sampler().sampler, Sampler::ShadowCompare);
    assert!(map.sampler().compare);
}

#[test]
fn directions_compare_as_numbers() {
    assert!(v(0.0, 1.0, 2.0).same(v(-0.0, 1.0, 2.0)));
    assert!(!v(f32::NAN, 1.0, 2.0).same(v(f32::NAN, 1.0, 2.0)));
    let uv = Vec2 { x: s(1.0), y: s(2.0) };
    assert_eq!(uv, Vec2 { x: s(1.0), y: s(2.0) });
}
