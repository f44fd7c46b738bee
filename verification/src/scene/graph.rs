//! Geometry by definition: trees of signed distance fields, parametric shapes and their instances.

use vstd::prelude::*;

use crate::material::MaterialId;
use crate::scalar::{one, Scalar};
use crate::scene::bounds::{
    bounds_of_boxes, box_around_all, box_reaches_its_boxes, every_face_is_that_of_a_box,
    join_reaches_both, Aabb, Vec3,
};
use crate::source_scene::SourceTransform;

verus! {

#[derive(Clone, Copy, Debug, PartialEq, Eq, Hash, Structural)]
pub struct SceneHandle(pub u32);

#[derive(Clone, Copy, Debug, PartialEq, Eq, Structural)]
pub enum ParametricKind {
    LeafCard,
}

#[derive(Clone, Copy, Debug, PartialEq, Eq, Structural)]
pub struct ParametricDef {
    pub kind: ParametricKind,
}

#[derive(Clone, Copy, Debug, PartialEq, Eq, Structural)]
pub enum SdfPrimitive {
    Sphere { center: Vec3, radius: Scalar },
    TaperedCapsule { a: Vec3, b: Vec3, radius_a: Scalar, radius_b: Scalar },
    Box { center: Vec3, half_extents: Vec3 },
    Plane { normal: Vec3, offset: Scalar },
}

/// Primitives, combined.
#[derive(Debug)]
pub enum SdfTree {
    Primitive(SdfPrimitive),
    Union(Box<SdfTree>, Box<SdfTree>),
    SmoothUnion { a: Box<SdfTree>, b: Box<SdfTree>, radius: Scalar },
    Intersection(Box<SdfTree>, Box<SdfTree>),
    Difference(Box<SdfTree>, Box<SdfTree>),
}

#[derive(Debug)]
pub enum GeometryDef {
    Sdf(SdfTree),
    Parametric(ParametricDef),
    Instanced { base: Box<GeometryDef>, transforms: Vec<SourceTransform> },
}

// ---------------------------------------------------------------------------------------------
// Bounds
// ---------------------------------------------------------------------------------------------

impl SdfTree {
    /// How many primitives the tree has.
    pub open spec fn leaf_count(self) -> nat
        decreases self,
    {
        match self {
            SdfTree::Primitive(_) => 1,
            SdfTree::Union(a, b) => a.leaf_count() + b.leaf_count(),
            SdfTree::SmoothUnion { a, b, .. } => a.leaf_count() + b.leaf_count(),
            SdfTree::Intersection(a, b) => a.leaf_count() + b.leaf_count(),
            SdfTree::Difference(a, b) => a.leaf_count() + b.leaf_count(),
        }
    }

    /// The primitives from left to right.
    pub open spec fn leaves(self) -> Seq<SdfPrimitive>
        decreases self,
    {
        match self {
            SdfTree::Primitive(p) => seq![p],
            SdfTree::Union(a, b) => a.leaves() + b.leaves(),
            SdfTree::SmoothUnion { a, b, .. } => a.leaves() + b.leaves(),
            SdfTree::Intersection(a, b) => a.leaves() + b.leaves(),
            SdfTree::Difference(a, b) => a.leaves() + b.leaves(),
        }
    }

    /// A box around the tree, from the boxes of its primitives, of which the leftmost is at `start`. A
    /// union joins the boxes of both sides; an intersection or a difference only shrinks its left
    /// side, so the box of that side will do.
    pub open spec fn box_of(self, boxes: Seq<Aabb>, start: int) -> Aabb
        decreases self,
    {
        match self {
            SdfTree::Primitive(_) => boxes[start],
            SdfTree::Union(a, b) => a.box_of(boxes, start).join(
                b.box_of(boxes, start + a.leaf_count()),
            ),
            SdfTree::SmoothUnion { a, b, .. } => a.box_of(boxes, start).join(
                b.box_of(boxes, start + a.leaf_count()),
            ),
            SdfTree::Intersection(a, _) => a.box_of(boxes, start),
            SdfTree::Difference(a, _) => a.box_of(boxes, start),
        }
    }

    /// Whether the primitive at `k` can add to the shape: it is not on the right side of an
    /// intersection or a difference.
    pub open spec fn adds(self, k: int, start: int) -> bool
        decreases self,
    {
        match self {
            SdfTree::Primitive(_) => k == start,
            SdfTree::Union(a, b) => a.adds(k, start) || b.adds(k, start + a.leaf_count()),
            SdfTree::SmoothUnion { a, b, .. } => a.adds(k, start) || b.adds(
                k,
                start + a.leaf_count(),
            ),
            SdfTree::Intersection(a, _) => a.adds(k, start),
            SdfTree::Difference(a, _) => a.adds(k, start),
        }
    }

    /// How fast the distance can change over space: as fast as in the fastest primitive.
    pub open spec fn steepness(self) -> Scalar
        decreases self,
    {
        match self {
            SdfTree::Primitive(_) => one(),
            SdfTree::Union(a, b) => a.steepness().max_of(b.steepness()),
            SdfTree::SmoothUnion { a, b, .. } => a.steepness().max_of(b.steepness()),
            SdfTree::Intersection(a, b) => a.steepness().max_of(b.steepness()),
            SdfTree::Difference(a, b) => a.steepness().max_of(b.steepness()),
        }
    }

    /// The primitives from left to right, for which the host computes boxes.
    pub fn primitives(&self) -> (list: Vec<SdfPrimitive>)
        ensures
            list@ == self.leaves(),
    {
        let mut list: Vec<SdfPrimitive> = Vec::new();
        self.collect(&mut list);
        assert(list@ =~= self.leaves());
        list
    }

    fn collect(&self, list: &mut Vec<SdfPrimitive>)
        ensures
            final(list)@ == old(list)@ + self.leaves(),
        decreases self,
    {
        let ghost before = list@;
        match self {
            SdfTree::Primitive(p) => {
                list.push(*p);
            },
            SdfTree::Union(a, b) => {
                a.collect(list);
                b.collect(list);
            },
            SdfTree::SmoothUnion { a, b, .. } => {
                a.collect(list);
                b.collect(list);
            },
            SdfTree::Intersection(a, b) => {
                a.collect(list);
                b.collect(list);
            },
            SdfTree::Difference(a, b) => {
                a.collect(list);
                b.collect(list);
            },
        }
        assert(list@ =~= before + self.leaves());
    }

    fn count(&self) -> (n: usize)
        requires
            self.leaf_count() <= usize::MAX,
        ensures
            n == self.leaf_count(),
        decreases self,
    {
        match self {
            SdfTree::Primitive(_) => 1,
            SdfTree::Union(a, b) => a.count() + b.count(),
            SdfTree::SmoothUnion { a, b, .. } => a.count() + b.count(),
            SdfTree::Intersection(a, b) => a.count() + b.count(),
            SdfTree::Difference(a, b) => a.count() + b.count(),
        }
    }

    fn bounds_from(&self, boxes: &[Aabb], start: usize) -> (b: Aabb)
        requires
            start + self.leaf_count() <= boxes@.len(),
            boxes@.len() <= usize::MAX,
        ensures
            b == self.box_of(boxes@, start as int),
        decreases self,
    {
        proof {
            lemma_some_leaf(*self);
        }
        match self {
            SdfTree::Primitive(_) => boxes[start],
            SdfTree::Union(a, b) => {
                let left = a.bounds_from(boxes, start);
                let right = b.bounds_from(boxes, start + a.count());
                left.union(&right)
            },
            SdfTree::SmoothUnion { a, b, .. } => {
                let left = a.bounds_from(boxes, start);
                let right = b.bounds_from(boxes, start + a.count());
                left.union(&right)
            },
            SdfTree::Intersection(a, _) => a.bounds_from(boxes, start),
            SdfTree::Difference(a, _) => a.bounds_from(boxes, start),
        }
    }

    /// A box around the tree, from the boxes of its primitives.
    pub fn bounds(&self, leaf_boxes: &[Aabb]) -> (b: Aabb)
        requires
            leaf_boxes@.len() == self.leaf_count(),
        ensures
            b == self.box_of(leaf_boxes@, 0),
    {
        let _total: usize = leaf_boxes.len();
        self.bounds_from(leaf_boxes, 0)
    }

    /// The Lipschitz constant of the distance.
    pub fn lipschitz(&self) -> (l: Scalar)
        ensures
            l == self.steepness(),
        decreases self,
    {
        match self {
            SdfTree::Primitive(_) => Scalar::from_bits(0x3F80_0000),
            SdfTree::Union(a, b) => a.lipschitz().max(b.lipschitz()),
            SdfTree::SmoothUnion { a, b, .. } => a.lipschitz().max(b.lipschitz()),
            SdfTree::Intersection(a, b) => a.lipschitz().max(b.lipschitz()),
            SdfTree::Difference(a, b) => a.lipschitz().max(b.lipschitz()),
        }
    }
}

proof fn lemma_some_leaf(tree: SdfTree)
    ensures
        tree.leaf_count() >= 1,
    decreases tree,
{
    match tree {
        SdfTree::Primitive(_) => {},
        SdfTree::Union(a, b) => {
            lemma_some_leaf(*a);
        },
        SdfTree::SmoothUnion { a, b, .. } => {
            lemma_some_leaf(*a);
        },
        SdfTree::Intersection(a, b) => {
            lemma_some_leaf(*a);
        },
        SdfTree::Difference(a, b) => {
            lemma_some_leaf(*a);
        },
    }
}

/// The box from -1 to 1 on every axis.
pub open spec fn unit_box() -> Aabb {
    let low = Scalar { bits: 0xBF80_0000 };
    Aabb {
        min: Vec3 { x: low, y: low, z: low },
        max: Vec3 { x: one(), y: one(), z: one() },
    }
}

impl GeometryDef {
    /// How many boxes its bounds are made from: those of a tree's primitives, or those of the base
    /// under each transform.
    pub open spec fn boxes_needed(self) -> nat {
        match self {
            GeometryDef::Sdf(tree) => tree.leaf_count(),
            GeometryDef::Parametric(_) => 0,
            GeometryDef::Instanced { transforms, .. } => transforms@.len(),
        }
    }

    pub open spec fn box_of(self, boxes: Seq<Aabb>) -> Aabb {
        match self {
            GeometryDef::Sdf(tree) => tree.box_of(boxes, 0),
            GeometryDef::Parametric(_) => unit_box(),
            GeometryDef::Instanced { .. } => box_around_all(boxes),
        }
    }

    pub open spec fn steepness(self) -> Scalar
        decreases self,
    {
        match self {
            GeometryDef::Sdf(tree) => tree.steepness(),
            GeometryDef::Parametric(_) => one(),
            GeometryDef::Instanced { base, .. } => base.steepness(),
        }
    }
}

/// A box around geometry, from the boxes it needs.
pub fn compute_geometry_bounds(geometry: &GeometryDef, boxes: &[Aabb]) -> (b: Aabb)
    requires
        boxes@.len() == geometry.boxes_needed(),
    ensures
        b == geometry.box_of(boxes@),
{
    match geometry {
        GeometryDef::Sdf(tree) => tree.bounds(boxes),
        GeometryDef::Parametric(_) => {
            let low = Scalar::from_bits(0xBF80_0000);
            let high = Scalar::from_bits(0x3F80_0000);
            Aabb { min: Vec3::splat(low), max: Vec3::splat(high) }
        },
        GeometryDef::Instanced { .. } => bounds_of_boxes(boxes),
    }
}

/// The Lipschitz constant of geometry.
pub fn compute_lipschitz(geometry: &GeometryDef) -> (l: Scalar)
    ensures
        l == geometry.steepness(),
    decreases geometry,
{
    match geometry {
        GeometryDef::Sdf(tree) => tree.lipschitz(),
        GeometryDef::Parametric(_) => Scalar::from_bits(0x3F80_0000),
        GeometryDef::Instanced { base, .. } => compute_lipschitz(base),
    }
}

/// Distances of trees change no faster than space: the constant is one for every tree.
pub proof fn trees_are_one_lipschitz(tree: SdfTree)
    ensures
        tree.steepness() == one(),
    decreases tree,
{
    match tree {
        SdfTree::Primitive(_) => {},
        SdfTree::Union(a, b) => {
            trees_are_one_lipschitz(*a);
            trees_are_one_lipschitz(*b);
        },
        SdfTree::SmoothUnion { a, b, .. } => {
            trees_are_one_lipschitz(*a);
            trees_are_one_lipschitz(*b);
        },
        SdfTree::Intersection(a, b) => {
            trees_are_one_lipschitz(*a);
            trees_are_one_lipschitz(*b);
        },
        SdfTree::Difference(a, b) => {
            trees_are_one_lipschitz(*a);
            trees_are_one_lipschitz(*b);
        },
    }
}

/// The constant is one for all geometry.
pub proof fn geometry_is_one_lipschitz(geometry: GeometryDef)
    ensures
        geometry.steepness() == one(),
    decreases geometry,
{
    match geometry {
        GeometryDef::Sdf(tree) => trees_are_one_lipschitz(tree),
        GeometryDef::Parametric(_) => {},
        GeometryDef::Instanced { base, .. } => geometry_is_one_lipschitz(*base),
    }
}

/// The list of primitives has as many as the tree counts.
pub proof fn leaves_are_counted(tree: SdfTree)
    ensures
        tree.leaves().len() == tree.leaf_count(),
    decreases tree,
{
    match tree {
        SdfTree::Primitive(_) => {},
        SdfTree::Union(a, b) => {
            leaves_are_counted(*a);
            leaves_are_counted(*b);
        },
        SdfTree::SmoothUnion { a, b, .. } => {
            leaves_are_counted(*a);
            leaves_are_counted(*b);
        },
        SdfTree::Intersection(a, b) => {
            leaves_are_counted(*a);
            leaves_are_counted(*b);
        },
        SdfTree::Difference(a, b) => {
            leaves_are_counted(*a);
            leaves_are_counted(*b);
        },
    }
}

/// The box of a tree reaches every point that the box of a primitive reaches, where that primitive
/// can add to the shape.
pub proof fn tree_box_reaches_its_parts(
    tree: SdfTree,
    boxes: Seq<Aabb>,
    start: int,
    k: int,
    p: Vec3,
)
    requires
        0 <= start,
        start + tree.leaf_count() <= boxes.len(),
        forall|i: int| 0 <= i < boxes.len() ==> (#[trigger] boxes[i]).is_number(),
        p.is_number(),
        tree.adds(k, start),
        boxes[k].reaches(p),
    ensures
        tree.box_of(boxes, start).reaches(p),
{
    lemma_reaches(tree, boxes, start, k, p);
}

proof fn lemma_box_is_number(tree: SdfTree, boxes: Seq<Aabb>, start: int)
    requires
        0 <= start,
        start + tree.leaf_count() <= boxes.len(),
        forall|i: int| 0 <= i < boxes.len() ==> (#[trigger] boxes[i]).is_number(),
    ensures
        tree.box_of(boxes, start).is_number(),
    decreases tree,
{
    match tree {
        SdfTree::Primitive(_) => {},
        SdfTree::Union(a, b) => {
            lemma_box_is_number(*a, boxes, start);
            lemma_box_is_number(*b, boxes, start + a.leaf_count());
        },
        SdfTree::SmoothUnion { a, b, .. } => {
            lemma_box_is_number(*a, boxes, start);
            lemma_box_is_number(*b, boxes, start + a.leaf_count());
        },
        SdfTree::Intersection(a, b) => {
            lemma_box_is_number(*a, boxes, start);
        },
        SdfTree::Difference(a, b) => {
            lemma_box_is_number(*a, boxes, start);
        },
    }
}

proof fn lemma_reaches(tree: SdfTree, boxes: Seq<Aabb>, start: int, k: int, p: Vec3)
    requires
        0 <= start,
        start + tree.leaf_count() <= boxes.len(),
        forall|i: int| 0 <= i < boxes.len() ==> (#[trigger] boxes[i]).is_number(),
        p.is_number(),
        tree.adds(k, start),
        boxes[k].reaches(p),
    ensures
        tree.box_of(boxes, start).reaches(p),
    decreases tree,
{
    match tree {
        SdfTree::Primitive(_) => {},
        SdfTree::Union(a, b) => {
            lemma_box_is_number(*a, boxes, start);
            lemma_box_is_number(*b, boxes, start + a.leaf_count());
            if a.adds(k, start) {
                lemma_reaches(*a, boxes, start, k, p);
            } else {
                lemma_reaches(*b, boxes, start + a.leaf_count(), k, p);
            }
            join_reaches_both(
                a.box_of(boxes, start),
                b.box_of(boxes, start + a.leaf_count()),
                p,
            );
        },
        SdfTree::SmoothUnion { a, b, .. } => {
            lemma_box_is_number(*a, boxes, start);
            lemma_box_is_number(*b, boxes, start + a.leaf_count());
            if a.adds(k, start) {
                lemma_reaches(*a, boxes, start, k, p);
            } else {
                lemma_reaches(*b, boxes, start + a.leaf_count(), k, p);
            }
            join_reaches_both(
                a.box_of(boxes, start),
                b.box_of(boxes, start + a.leaf_count()),
                p,
            );
        },
        SdfTree::Intersection(a, b) => {
            lemma_reaches(*a, boxes, start, k, p);
        },
        SdfTree::Difference(a, b) => {
            lemma_reaches(*a, boxes, start, k, p);
        },
    }
}

// ---------------------------------------------------------------------------------------------
// The graph
// ---------------------------------------------------------------------------------------------

#[derive(Debug)]
pub struct SceneNode {
    pub handle: SceneHandle,
    pub geometry: GeometryDef,
    pub material: MaterialId,
    pub world_bounds: Aabb,
    pub lipschitz_constant: Scalar,
}

/// Nodes, each found by its handle.
#[derive(Debug)]
pub struct SceneGraph {
    nodes: Vec<SceneNode>,
    next_handle: u32,
}

impl View for SceneGraph {
    type V = Seq<SceneNode>;

    closed spec fn view(&self) -> Seq<SceneNode> {
        self.nodes@
    }
}

/// The node of a piece of geometry.
pub open spec fn node_of(
    handle: u32,
    geometry: GeometryDef,
    material: MaterialId,
    boxes: Seq<Aabb>,
) -> SceneNode {
    SceneNode {
        handle: SceneHandle(handle),
        geometry,
        material,
        world_bounds: geometry.box_of(boxes),
        lipschitz_constant: geometry.steepness(),
    }
}

impl SceneGraph {
    /// Handles count the nodes.
    pub closed spec fn wf(self) -> bool {
        &&& self.nodes@.len() == self.next_handle
        &&& forall|i: int| 0 <= i < self.nodes@.len() ==> (#[trigger] self.nodes@[i]).handle.0 == i
    }

    /// A graph without nodes.
    pub fn new() -> (graph: SceneGraph)
        ensures
            graph.wf(),
            graph@ == Seq::<SceneNode>::empty(),
    {
        SceneGraph { nodes: Vec::new(), next_handle: 0 }
    }

    /// Adds geometry, with the boxes its bounds are made from.
    pub fn add(&mut self, geometry: GeometryDef, material: MaterialId, boxes: &[Aabb]) -> (handle:
        SceneHandle)
        requires
            old(self).wf(),
            old(self)@.len() < u32::MAX,
            boxes@.len() == geometry.boxes_needed(),
        ensures
            final(self).wf(),
            handle.0 == old(self)@.len(),
            final(self)@ == old(self)@.push(node_of(handle.0, geometry, material, boxes@)),
            final(self)@.last().handle == handle,
            final(self)@.last().geometry == geometry,
            final(self)@.last().material == material,
            final(self)@.last().world_bounds == geometry.box_of(boxes@),
            final(self)@.last().lipschitz_constant == geometry.steepness(),
    {
        let handle = SceneHandle(self.next_handle);
        self.next_handle = self.next_handle + 1;
        let world_bounds = compute_geometry_bounds(&geometry, boxes);
        let lipschitz_constant = compute_lipschitz(&geometry);
        self.nodes.push(
            SceneNode { handle, geometry, material, world_bounds, lipschitz_constant },
        );
        handle
    }

    pub fn nodes(&self) -> (nodes: &[SceneNode])
        ensures
            nodes@ == self@,
    {
        self.nodes.as_slice()
    }

    /// The node with a handle, if the graph gave it out.
    pub fn node(&self, handle: SceneHandle) -> (node: Option<&SceneNode>)
        requires
            self.wf(),
        ensures
            node is Some <==> handle.0 < self@.len(),
            node matches Some(n) ==> *n == self@[handle.0 as int],
    {
        let mut i: usize = 0;
        while i < self.nodes.len()
            invariant
                self.wf(),
                i <= self.nodes@.len(),
                forall|k: int| 0 <= k < i ==> (#[trigger] self.nodes@[k]).handle != handle,
            decreases self.nodes@.len() - i,
        {
            if self.nodes[i].handle.0 == handle.0 {
                return Some(&self.nodes[i]);
            }
            i = i + 1;
        }
        assert(handle.0 < self.nodes@.len() ==> self.nodes@[handle.0 as int].handle == handle);
        None
    }
}

impl Default for SceneGraph {
    fn default() -> (graph: SceneGraph)
        ensures
            graph.wf(),
            graph@ == Seq::<SceneNode>::empty(),
    {
        SceneGraph::new()
    }
}

/// A node stays under its handle while others are added, and no two nodes share a handle.
pub proof fn handles_stay_valid(
    before: SceneGraph,
    added: SceneNode,
    after: SceneGraph,
    i: int,
    k: int,
)
    requires
        before.wf(),
        after.wf(),
        after@ == before@.push(added),
        0 <= i < before@.len(),
        0 <= k < after@.len(),
    ensures
        after@[i] == before@[i],
        after@[i].handle.0 == i,
        after@[k].handle == after@[i].handle ==> k == i,
{
}

/// What an intersection or a difference takes away does not change the box: it is that of the left
/// side, whatever the right side is.
pub proof fn carving_keeps_the_box(a: SdfTree, b: SdfTree, boxes: Seq<Aabb>, start: int)
    ensures
        SdfTree::Intersection(Box::new(a), Box::new(b)).box_of(boxes, start) == a.box_of(
            boxes,
            start,
        ),
        SdfTree::Difference(Box::new(a), Box::new(b)).box_of(boxes, start) == a.box_of(
            boxes,
            start,
        ),
{
}

/// The box of a union has each face from one of its sides, the one that lies further out; the right
/// side's primitives follow those of the left. How smooth the union is plays no part.
pub proof fn unions_span_both_sides(
    a: SdfTree,
    b: SdfTree,
    radius: Scalar,
    boxes: Seq<Aabb>,
    start: int,
)
    ensures
        ({
            let u = SdfTree::Union(Box::new(a), Box::new(b)).box_of(boxes, start);
            let s = (SdfTree::SmoothUnion { a: Box::new(a), b: Box::new(b), radius }).box_of(
                boxes,
                start,
            );
            let left = a.box_of(boxes, start);
            let right = b.box_of(boxes, start + a.leaves().len());
            &&& s == u
            &&& u.min.x == if left.min.x.lt(right.min.x) { left.min.x } else { right.min.x }
            &&& u.min.y == if left.min.y.lt(right.min.y) { left.min.y } else { right.min.y }
            &&& u.min.z == if left.min.z.lt(right.min.z) { left.min.z } else { right.min.z }
            &&& u.max.x == if right.max.x.lt(left.max.x) { left.max.x } else { right.max.x }
            &&& u.max.y == if right.max.y.lt(left.max.y) { left.max.y } else { right.max.y }
            &&& u.max.z == if right.max.z.lt(left.max.z) { left.max.z } else { right.max.z }
        }),
{
    leaves_are_counted(a);
}

/// A primitive has the box that was computed for it. Every tree lists its primitives from left to
/// right, whatever joins them.
pub proof fn primitives_stand_from_left_to_right(
    p: SdfPrimitive,
    a: SdfTree,
    b: SdfTree,
    radius: Scalar,
    boxes: Seq<Aabb>,
    start: int,
)
    ensures
        SdfTree::Primitive(p).box_of(boxes, start) == boxes[start],
        SdfTree::Primitive(p).leaves() == seq![p],
        SdfTree::Union(Box::new(a), Box::new(b)).leaves() == a.leaves() + b.leaves(),
        (SdfTree::SmoothUnion { a: Box::new(a), b: Box::new(b), radius }).leaves() == a.leaves()
            + b.leaves(),
        SdfTree::Intersection(Box::new(a), Box::new(b)).leaves() == a.leaves() + b.leaves(),
        SdfTree::Difference(Box::new(a), Box::new(b)).leaves() == a.leaves() + b.leaves(),
{
}

/// The box around instances reaches every point that the box of one of them reaches, and their
/// distances change no faster than space.
pub proof fn instances_are_inside_their_box(
    geometry: GeometryDef,
    boxes: Seq<Aabb>,
    k: int,
    p: Vec3,
)
    requires
        geometry is Instanced,
        forall|i: int| 0 <= i < boxes.len() ==> (#[trigger] boxes[i]).is_number(),
        0 <= k < boxes.len(),
        p.is_number(),
        boxes[k].reaches(p),
    ensures
        geometry.box_of(boxes).reaches(p),
        geometry.steepness().bits == 0x3F80_0000,
{
    box_reaches_its_boxes(boxes, k, p);
    geometry_is_one_lipschitz(geometry);
}

/// Each face of the box around instances is a face of the box of one of them.
pub proof fn instances_fill_their_box(geometry: GeometryDef, boxes: Seq<Aabb>) -> (at: Seq<int>)
    requires
        geometry is Instanced,
        boxes.len() > 0,
    ensures
        at.len() == 6,
        forall|j: int| 0 <= j < 6 ==> 0 <= #[trigger] at[j] < boxes.len(),
        geometry.box_of(boxes).min.x == boxes[at[0]].min.x,
        geometry.box_of(boxes).min.y == boxes[at[1]].min.y,
        geometry.box_of(boxes).min.z == boxes[at[2]].min.z,
        geometry.box_of(boxes).max.x == boxes[at[3]].max.x,
        geometry.box_of(boxes).max.y == boxes[at[4]].max.y,
        geometry.box_of(boxes).max.z == boxes[at[5]].max.z,
{
    every_face_is_that_of_a_box(boxes)
}

/// A parametric shape reaches from -1 to 1 on every axis, and needs no box; a tree needs one for each
/// primitive, instances one for each placement.
pub proof fn geometry_needs_its_boxes(shape: ParametricDef, tree: SdfTree, boxes: Seq<Aabb>)
    ensures
        GeometryDef::Parametric(shape).boxes_needed() == 0,
        ({
            let b = GeometryDef::Parametric(shape).box_of(boxes);
            &&& b.min.x.bits == 0xBF80_0000 && b.min.y.bits == 0xBF80_0000 && b.min.z.bits
                == 0xBF80_0000
            &&& b.max.x.bits == 0x3F80_0000 && b.max.y.bits == 0x3F80_0000 && b.max.z.bits
                == 0x3F80_0000
        }),
        GeometryDef::Sdf(tree).boxes_needed() == tree.leaves().len(),
        GeometryDef::Sdf(tree).box_of(boxes) == tree.box_of(boxes, 0),
{
    leaves_are_counted(tree);
}

} // verus!
