//! Authored scenes.

use vstd::prelude::*;

use crate::material::MaterialId;
use crate::scalar::{one, quadruple, zero, Scalar};
use crate::scene::bounds::{Aabb, Vec3};
use crate::scene::graph::{ParametricDef, SdfTree};
use crate::scene::vertex::Vertex;
use crate::soundstage::SoundstageLayout;

verus! {

#[derive(Clone, Copy, Debug, PartialEq, Eq, PartialOrd, Ord, Hash, Structural)]
pub struct SourceNodeId(pub u32);

/// A placement: the images of the three axes, and a translation.
#[derive(Clone, Copy, Debug, PartialEq, Eq, Structural)]
pub struct SourceTransform {
    pub x_axis: Vec3,
    pub y_axis: Vec3,
    pub z_axis: Vec3,
    pub translation: Vec3,
}

/// The placement that moves by `translation` and does nothing else.
pub open spec fn translated(translation: Vec3) -> SourceTransform {
    SourceTransform {
        x_axis: Vec3 { x: one(), y: zero(), z: zero() },
        y_axis: Vec3 { x: zero(), y: one(), z: zero() },
        z_axis: Vec3 { x: zero(), y: zero(), z: one() },
        translation,
    }
}

/// The placement that changes nothing.
pub open spec fn untransformed() -> SourceTransform {
    translated(Vec3 { x: zero(), y: zero(), z: zero() })
}

impl SourceTransform {
    pub fn identity() -> (t: SourceTransform)
        ensures
            t == untransformed(),
    {
        SourceTransform::from_translation(Vec3::splat(Scalar::from_bits(0)))
    }

    pub fn from_translation(translation: Vec3) -> (t: SourceTransform)
        ensures
            t == translated(translation),
    {
        let o = Scalar::from_bits(0x3F80_0000);
        let z = Scalar::from_bits(0);
        SourceTransform {
            x_axis: Vec3::new(o, z, z),
            y_axis: Vec3::new(z, o, z),
            z_axis: Vec3::new(z, z, o),
            translation,
        }
    }
}

impl Default for SourceTransform {
    fn default() -> (t: SourceTransform)
        ensures
            t == untransformed(),
    {
        SourceTransform::identity()
    }
}

#[derive(Clone, Copy, Debug, PartialEq, Eq, Structural)]
pub enum SourceBounds {
    /// Computed from the geometry.
    Auto,
    Explicit(Aabb),
}

impl Default for SourceBounds {
    fn default() -> (b: SourceBounds)
        ensures
            b == SourceBounds::Auto,
    {
        SourceBounds::Auto
    }
}

#[derive(Clone, Copy, Debug, PartialEq, Eq)]
pub struct SourceMaterialRef {
    pub override_material: Option<MaterialId>,
}

impl Default for SourceMaterialRef {
    fn default() -> (m: SourceMaterialRef)
        ensures
            m.override_material is None,
    {
        SourceMaterialRef { override_material: None }
    }
}

#[derive(Clone, Copy, Debug, PartialEq, Eq, Structural)]
pub enum SourceLodPolicy {
    Auto,
    ForceMeshlets,
}

impl Default for SourceLodPolicy {
    fn default() -> (p: SourceLodPolicy)
        ensures
            p == SourceLodPolicy::Auto,
    {
        SourceLodPolicy::Auto
    }
}

#[derive(Clone, Copy, Debug, PartialEq, Eq, Structural)]
pub struct ChunkingConfig {
    pub chunk_size: Scalar,
}

/// Chunks are 512 units wide.
pub open spec fn default_chunking() -> ChunkingConfig {
    ChunkingConfig { chunk_size: Scalar { bits: 0x4400_0000 } }
}

impl Default for ChunkingConfig {
    fn default() -> (c: ChunkingConfig)
        ensures
            c == default_chunking(),
    {
        ChunkingConfig { chunk_size: Scalar::from_bits(0x4400_0000) }
    }
}

#[derive(Debug)]
pub struct SourceTriangleMesh {
    pub label: String,
    pub vertices: Vec<Vertex>,
    pub indices: Vec<u32>,
}

/// A subject that is grown or built from parameters. Without a seed, a tree has that of its default
/// parameters.
#[derive(Clone, Copy, Debug)]
pub enum ProceduralSubject {
    RedwoodTree { seed: Option<u64>, foliage_tier: u32 },
    GrowthTree { seed: Option<u64>, foliage_tier: u32 },
    GroundSlab { radius: Scalar, thickness: Scalar, segments: u32 },
    Humanoid,
}

#[derive(Debug)]
pub enum SourceGeometry {
    Sdf(SdfTree),
    Parametric(ParametricDef),
    ProceduralSubject(ProceduralSubject),
    TriangleMesh(SourceTriangleMesh),
    Instanced { base: Box<SourceGeometry>, transforms: Vec<SourceTransform> },
}

#[derive(Debug)]
pub struct SourceNode {
    pub id: SourceNodeId,
    pub name: String,
    pub transform: SourceTransform,
    pub geometry: SourceGeometry,
    pub material: SourceMaterialRef,
    pub lod_policy: SourceLodPolicy,
    pub bounds: SourceBounds,
    pub casts_shadows: bool,
}

impl SourceNode {
    /// A node with everything but name, geometry and placement left at its default.
    pub open spec fn is_plain(
        self,
        id: int,
        name: Seq<char>,
        geometry: SourceGeometry,
        transform: SourceTransform,
    ) -> bool {
        &&& self.id.0 == id
        &&& self.name@ == name
        &&& self.geometry == geometry
        &&& self.transform == transform
        &&& self.material.override_material is None
        &&& self.lod_policy == SourceLodPolicy::Auto
        &&& self.bounds == SourceBounds::Auto
        &&& self.casts_shadows
    }
}

#[derive(Debug)]
pub struct SourceScene {
    pub label: String,
    pub nodes: Vec<SourceNode>,
    pub chunking: ChunkingConfig,
}

impl SourceScene {
    /// A scene without nodes.
    pub fn new(label: &str) -> (scene: SourceScene)
        ensures
            scene.label@ == label@,
            scene.nodes@ == Seq::<SourceNode>::empty(),
            scene.chunking == default_chunking(),
    {
        SourceScene {
            label: label.to_owned(),
            nodes: Vec::new(),
            chunking: ChunkingConfig::default(),
        }
    }
}

/// A scene in the making. Nodes are numbered in the order in which they are pushed.
#[derive(Debug)]
pub struct SourceSceneBuilder {
    scene: SourceScene,
    next_id: u32,
}

impl View for SourceSceneBuilder {
    type V = SourceScene;

    closed spec fn view(&self) -> SourceScene {
        self.scene
    }
}

/// Chunks are never narrower than one unit.
pub open spec fn limited_chunk_size(chunk_size: Scalar) -> Scalar {
    chunk_size.max_of(one())
}

/// The scene under the redwood: the tree, the ground and a person beside it, in chunks four times as
/// wide as the ground's radius.
pub open spec fn is_redwood_scene(
    scene: SourceScene,
    label: Seq<char>,
    tree_name: Seq<char>,
    tree: ProceduralSubject,
    layout: SoundstageLayout,
) -> bool {
    &&& scene.label@ == label
    &&& scene.chunking.chunk_size == limited_chunk_size(quadruple(layout.ground_radius))
    &&& scene.nodes@.len() == 3
    &&& scene.nodes@[0].is_plain(
        0,
        tree_name,
        SourceGeometry::ProceduralSubject(tree),
        untransformed(),
    )
    &&& scene.nodes@[1].is_plain(
        1,
        "ground_slab"@,
        SourceGeometry::ProceduralSubject(
            ProceduralSubject::GroundSlab {
                radius: layout.ground_radius,
                thickness: layout.ground_thickness,
                segments: 128,
            },
        ),
        untransformed(),
    )
    &&& scene.nodes@[2].is_plain(
        2,
        "humanoid"@,
        SourceGeometry::ProceduralSubject(ProceduralSubject::Humanoid),
        translated(
            Vec3 {
                x: Scalar { bits: 0x4170_0000 },
                y: zero(),
                z: Scalar { bits: 0x4120_0000 },
            },
        ),
    )
}

impl SourceSceneBuilder {
    /// Every node has its position as its id.
    pub closed spec fn wf(self) -> bool {
        &&& self.next_id == self.scene.nodes@.len()
        &&& forall|i: int|
            0 <= i < self.scene.nodes@.len() ==> (#[trigger] self.scene.nodes@[i]).id.0 == i
    }

    pub fn new(label: &str) -> (builder: SourceSceneBuilder)
        ensures
            builder.wf(),
            builder@.label@ == label@,
            builder@.nodes@ == Seq::<SourceNode>::empty(),
            builder@.chunking == default_chunking(),
    {
        SourceSceneBuilder { scene: SourceScene::new(label), next_id: 0 }
    }

    /// Sets how wide chunks are.
    pub fn with_chunk_size(self, chunk_size: Scalar) -> (builder: SourceSceneBuilder)
        requires
            self.wf(),
        ensures
            builder.wf(),
            builder@ == (SourceScene {
                chunking: ChunkingConfig { chunk_size: limited_chunk_size(chunk_size) },
                ..self@
            }),
    {
        let mut builder = self;
        builder.scene.chunking.chunk_size = chunk_size.max(Scalar::from_bits(0x3F80_0000));
        builder
    }

    /// Adds a node.
    pub fn push_node(&mut self, name: &str, geometry: SourceGeometry, transform: SourceTransform) -> (
    id: SourceNodeId)
        requires
            old(self).wf(),
            old(self)@.nodes@.len() < u32::MAX,
        ensures
            final(self).wf(),
            id.0 == old(self)@.nodes@.len(),
            final(self)@.label == old(self)@.label,
            final(self)@.chunking == old(self)@.chunking,
            final(self)@.nodes@.len() == old(self)@.nodes@.len() + 1,
            final(self)@.nodes@.drop_last() == old(self)@.nodes@,
            final(self)@.nodes@.last().is_plain(id.0 as int, name@, geometry, transform),
            final(self)@.nodes@.last().id == id,
            final(self)@.nodes@.last().name@ == name@,
            final(self)@.nodes@.last().geometry == geometry,
            final(self)@.nodes@.last().transform == transform,
            final(self)@.nodes@.last().material.override_material is None,
            final(self)@.nodes@.last().lod_policy == SourceLodPolicy::Auto,
            final(self)@.nodes@.last().bounds == SourceBounds::Auto,
            final(self)@.nodes@.last().casts_shadows,
    {
        let id = SourceNodeId(self.next_id);
        self.next_id = self.next_id + 1;
        self.scene.nodes.push(
            SourceNode {
                id,
                name: name.to_owned(),
                transform,
                geometry,
                material: SourceMaterialRef::default(),
                lod_policy: SourceLodPolicy::Auto,
                bounds: SourceBounds::Auto,
                casts_shadows: true,
            },
        );
        assert(self.scene.nodes@.drop_last() =~= old(self).scene.nodes@);
        id
    }

    pub fn build(self) -> (scene: SourceScene)
        ensures
            scene == self@,
    {
        self.scene
    }

    fn push_surroundings(&mut self, layout: &SoundstageLayout)
        requires
            old(self).wf(),
            old(self)@.nodes@.len() == 1,
        ensures
            final(self).wf(),
            final(self)@.label == old(self)@.label,
            final(self)@.chunking == old(self)@.chunking,
            final(self)@.nodes@.len() == 3,
            final(self)@.nodes@[0] == old(self)@.nodes@[0],
            final(self)@.nodes@[1].is_plain(
                1,
                "ground_slab"@,
                SourceGeometry::ProceduralSubject(
                    ProceduralSubject::GroundSlab {
                        radius: layout.ground_radius,
                        thickness: layout.ground_thickness,
                        segments: 128,
                    },
                ),
                untransformed(),
            ),
            final(self)@.nodes@[2].is_plain(
                2,
                "humanoid"@,
                SourceGeometry::ProceduralSubject(ProceduralSubject::Humanoid),
                translated(
                    Vec3 {
                        x: Scalar { bits: 0x4170_0000 },
                        y: zero(),
                        z: Scalar { bits: 0x4120_0000 },
                    },
                ),
            ),
    {
        let ghost first = self@.nodes@[0];
        self.push_node(
            "ground_slab",
            SourceGeometry::ProceduralSubject(
                ProceduralSubject::GroundSlab {
                    radius: layout.ground_radius,
                    thickness: layout.ground_thickness,
                    segments: 128,
                },
            ),
            SourceTransform::identity(),
        );
        let ghost two = self@.nodes@;
        assert(two[0] == two.drop_last()[0]);
        self.push_node(
            "humanoid",
            SourceGeometry::ProceduralSubject(ProceduralSubject::Humanoid),
            SourceTransform::from_translation(
                Vec3::new(
                    Scalar::from_bits(0x4170_0000),
                    Scalar::from_bits(0),
                    Scalar::from_bits(0x4120_0000),
                ),
            ),
        );
        let ghost three = self@.nodes@;
        assert(three[0] == three.drop_last()[0]);
        assert(three[1] == three.drop_last()[1]);
    }

    /// The scene with a tree from stored proportions.
    pub fn redwood_soundstage(layout: &SoundstageLayout, seed: Option<u64>) -> (scene: SourceScene)
        ensures
            is_redwood_scene(
                scene,
                "redwood_soundstage"@,
                "hero_redwood"@,
                ProceduralSubject::RedwoodTree { seed, foliage_tier: 2 },
                *layout,
            ),
    {
        let mut builder = SourceSceneBuilder::new("redwood_soundstage").with_chunk_size(
            layout.ground_radius.times_four(),
        );
        builder.push_node(
            "hero_redwood",
            SourceGeometry::ProceduralSubject(
                ProceduralSubject::RedwoodTree { seed, foliage_tier: 2 },
            ),
            SourceTransform::identity(),
        );
        builder.push_surroundings(layout);
        builder.build()
    }

    /// The scene with a tree that is grown.
    pub fn redwood_soundstage_growth(layout: &SoundstageLayout, seed: Option<u64>) -> (scene:
        SourceScene)
        ensures
            is_redwood_scene(
                scene,
                "redwood_soundstage_growth"@,
                "hero_redwood_growth"@,
                ProceduralSubject::GrowthTree { seed, foliage_tier: 1 },
                *layout,
            ),
    {
        let mut builder = SourceSceneBuilder::new("redwood_soundstage_growth").with_chunk_size(
            layout.ground_radius.times_four(),
        );
        builder.push_node(
            "hero_redwood_growth",
            SourceGeometry::ProceduralSubject(
                ProceduralSubject::GrowthTree { seed, foliage_tier: 1 },
            ),
            SourceTransform::identity(),
        );
        builder.push_surroundings(layout);
        builder.build()
    }
}

/// Nodes are numbered by their position, so no two share an id.
pub proof fn node_ids_are_unique(builder: SourceSceneBuilder, i: int, k: int)
    requires
        builder.wf(),
        0 <= i < builder@.nodes@.len(),
        0 <= k < builder@.nodes@.len(),
    ensures
        builder@.nodes@[i].id.0 == i,
        builder@.nodes@[i].id == builder@.nodes@[k].id ==> i == k,
{
}

/// A chunk is as wide as was asked, but for widths below one and what is not a number, which become
/// one.
pub proof fn chunks_are_one_unit_wide_at_least(chunk_size: Scalar)
    ensures
        (Scalar { bits: 0x3F80_0000 }).lt(chunk_size) ==> limited_chunk_size(chunk_size)
            == chunk_size,
        !(Scalar { bits: 0x3F80_0000 }).lt(chunk_size) ==> limited_chunk_size(chunk_size).bits
            == 0x3F80_0000,
{
}

/// The placement that moves keeps every axis where it is and has the translation it was given; the
/// one that changes nothing moves by zero.
pub proof fn placements_keep_the_axes(translation: Vec3)
    ensures
        translated(translation).translation == translation,
        translated(translation).x_axis.x.bits == 0x3F80_0000,
        translated(translation).x_axis.y.bits == 0 && translated(translation).x_axis.z.bits == 0,
        translated(translation).y_axis.y.bits == 0x3F80_0000,
        translated(translation).y_axis.x.bits == 0 && translated(translation).y_axis.z.bits == 0,
        translated(translation).z_axis.z.bits == 0x3F80_0000,
        translated(translation).z_axis.x.bits == 0 && translated(translation).z_axis.y.bits == 0,
        untransformed().translation.x.bits == 0 && untransformed().translation.y.bits == 0
            && untransformed().translation.z.bits == 0,
        untransformed().x_axis == translated(translation).x_axis,
        untransformed().y_axis == translated(translation).y_axis,
        untransformed().z_axis == translated(translation).z_axis,
{
}

/// The scene under the redwood holds the tree, then a ground as large and as thick as the layout says,
/// then a person 15 units to the side and 10 in front of it. All cast shadows.
pub proof fn redwood_scenes_hold_three_subjects(
    scene: SourceScene,
    label: Seq<char>,
    tree_name: Seq<char>,
    tree: ProceduralSubject,
    layout: SoundstageLayout,
)
    requires
        is_redwood_scene(scene, label, tree_name, tree, layout),
    ensures
        scene.label@ == label,
        scene.nodes@.len() == 3,
        forall|i: int|
            0 <= i < 3 ==> (#[trigger] scene.nodes@[i]).id.0 == i && scene.nodes@[i].casts_shadows
                && scene.nodes@[i].bounds == SourceBounds::Auto && scene.nodes@[i].lod_policy
                == SourceLodPolicy::Auto && scene.nodes@[i].material.override_material is None,
        scene.nodes@[0].name@ == tree_name,
        scene.nodes@[0].geometry == SourceGeometry::ProceduralSubject(tree),
        scene.nodes@[0].transform.translation.x.bits == 0,
        scene.nodes@[0].transform.translation.y.bits == 0,
        scene.nodes@[0].transform.translation.z.bits == 0,
        scene.nodes@[1].name@ == "ground_slab"@,
        scene.nodes@[1].geometry matches SourceGeometry::ProceduralSubject(
            ProceduralSubject::GroundSlab { radius, thickness, segments },
        ) && radius == layout.ground_radius && thickness == layout.ground_thickness && segments
            == 128,
        scene.nodes@[1].transform.translation.x.bits == 0,
        scene.nodes@[1].transform.translation.y.bits == 0,
        scene.nodes@[1].transform.translation.z.bits == 0,
        scene.nodes@[2].name@ == "humanoid"@,
        scene.nodes@[2].geometry == SourceGeometry::ProceduralSubject(ProceduralSubject::Humanoid),
        scene.nodes@[2].transform.translation.x.bits == 0x4170_0000,
        scene.nodes@[2].transform.translation.y.bits == 0,
        scene.nodes@[2].transform.translation.z.bits == 0x4120_0000,
        (Scalar { bits: 0x3F80_0000 }).lt(quadruple(layout.ground_radius))
            ==> scene.chunking.chunk_size == quadruple(layout.ground_radius),
{
}

} // verus!
