//! Boxes and spheres around geometry.

use vstd::prelude::*;

use crate::scalar::Scalar;

verus! {

#[derive(Clone, Copy, Debug, PartialEq, Eq, Hash, Structural)]
pub struct Vec3 {
    pub x: Scalar,
    pub y: Scalar,
    pub z: Scalar,
}

#[derive(Clone, Copy, Debug, PartialEq, Eq, Structural)]
pub struct BoundingSphere {
    pub center: Vec3,
    pub radius: Scalar,
}

/// An axis-aligned box. The empty box has every minimum at positive infinity and every maximum at
/// negative infinity.
#[derive(Clone, Copy, Debug, PartialEq, Eq, Structural)]
pub struct Aabb {
    pub min: Vec3,
    pub max: Vec3,
}

/// `a` where it is below `b`, otherwise `b`.
pub open spec fn lower(a: Scalar, b: Scalar) -> Scalar {
    if a.lt(b) {
        a
    } else {
        b
    }
}

/// `a` where it is above `b`, otherwise `b`.
pub open spec fn upper(a: Scalar, b: Scalar) -> Scalar {
    if b.lt(a) {
        a
    } else {
        b
    }
}

impl Vec3 {
    pub open spec fn lower_of(self, other: Vec3) -> Vec3 {
        Vec3 { x: lower(self.x, other.x), y: lower(self.y, other.y), z: lower(self.z, other.z) }
    }

    pub open spec fn upper_of(self, other: Vec3) -> Vec3 {
        Vec3 { x: upper(self.x, other.x), y: upper(self.y, other.y), z: upper(self.z, other.z) }
    }

    /// No coordinate is a NaN.
    pub open spec fn is_number(self) -> bool {
        !self.x.is_nan() && !self.y.is_nan() && !self.z.is_nan()
    }

    /// All coordinates are the same numbers.
    pub open spec fn matches(self, other: Vec3) -> bool {
        self.x.eq_value(other.x) && self.y.eq_value(other.y) && self.z.eq_value(other.z)
    }

    /// Whether all coordinates are the same numbers.
    pub fn same(self, other: Vec3) -> (r: bool)
        ensures
            r == self.matches(other),
    {
        self.x.same(other.x) && self.y.same(other.y) && self.z.same(other.z)
    }

    pub fn new(x: Scalar, y: Scalar, z: Scalar) -> (v: Vec3)
        ensures
            v == (Vec3 { x, y, z }),
    {
        Vec3 { x, y, z }
    }

    /// All three coordinates at one value.
    pub fn splat(value: Scalar) -> (v: Vec3)
        ensures
            v == (Vec3 { x: value, y: value, z: value }),
    {
        Vec3 { x: value, y: value, z: value }
    }

    /// Coordinate by coordinate, the lower value.
    pub fn min(self, other: Vec3) -> (v: Vec3)
        ensures
            v == self.lower_of(other),
    {
        Vec3 {
            x: if self.x.less(other.x) { self.x } else { other.x },
            y: if self.y.less(other.y) { self.y } else { other.y },
            z: if self.z.less(other.z) { self.z } else { other.z },
        }
    }

    /// Coordinate by coordinate, the higher value.
    pub fn max(self, other: Vec3) -> (v: Vec3)
        ensures
            v == self.upper_of(other),
    {
        Vec3 {
            x: if other.x.less(self.x) { self.x } else { other.x },
            y: if other.y.less(self.y) { self.y } else { other.y },
            z: if other.z.less(self.z) { self.z } else { other.z },
        }
    }
}

/// The box that contains nothing.
pub open spec fn empty_box() -> Aabb {
    Aabb {
        min: Vec3 {
            x: crate::scalar::infinity(),
            y: crate::scalar::infinity(),
            z: crate::scalar::infinity(),
        },
        max: Vec3 {
            x: crate::scalar::neg_infinity(),
            y: crate::scalar::neg_infinity(),
            z: crate::scalar::neg_infinity(),
        },
    }
}

impl Aabb {
    /// The box grown to reach a point.
    pub open spec fn with_point(self, p: Vec3) -> Aabb {
        Aabb { min: self.min.lower_of(p), max: self.max.upper_of(p) }
    }

    /// The box around two boxes.
    pub open spec fn join(self, other: Aabb) -> Aabb {
        Aabb { min: self.min.lower_of(other.min), max: self.max.upper_of(other.max) }
    }

    /// Whether the point lies inside or on the faces, coordinate by coordinate.
    pub open spec fn reaches(self, p: Vec3) -> bool {
        &&& !p.x.lt(self.min.x) && !self.max.x.lt(p.x)
        &&& !p.y.lt(self.min.y) && !self.max.y.lt(p.y)
        &&& !p.z.lt(self.min.z) && !self.max.z.lt(p.z)
    }

    /// No coordinate of either corner is a NaN.
    pub open spec fn is_number(self) -> bool {
        self.min.is_number() && self.max.is_number()
    }

    /// The eight corners: the lowest, the three that raise one coordinate, the three that raise
    /// two, the highest.
    pub open spec fn corner_points(self) -> Seq<Vec3> {
        seq![
            self.min,
            Vec3 { x: self.max.x, y: self.min.y, z: self.min.z },
            Vec3 { x: self.min.x, y: self.max.y, z: self.min.z },
            Vec3 { x: self.min.x, y: self.min.y, z: self.max.z },
            Vec3 { x: self.max.x, y: self.max.y, z: self.min.z },
            Vec3 { x: self.max.x, y: self.min.y, z: self.max.z },
            Vec3 { x: self.min.x, y: self.max.y, z: self.max.z },
            self.max,
        ]
    }

    pub fn empty() -> (b: Aabb)
        ensures
            b == empty_box(),
    {
        Aabb {
            min: Vec3::splat(Scalar::from_bits(0x7F80_0000)),
            max: Vec3::splat(Scalar::from_bits(0xFF80_0000)),
        }
    }

    pub fn expand_point(&mut self, p: Vec3)
        ensures
            *final(self) == old(self).with_point(p),
    {
        self.min = self.min.min(p);
        self.max = self.max.max(p);
    }

    pub fn union(&self, other: &Aabb) -> (b: Aabb)
        ensures
            b == self.join(*other),
    {
        Aabb { min: self.min.min(other.min), max: self.max.max(other.max) }
    }

    /// The eight corners, for a host to transform.
    pub fn corners(&self) -> (points: Vec<Vec3>)
        ensures
            points@ == self.corner_points(),
    {
        vec![
            self.min,
            Vec3::new(self.max.x, self.min.y, self.min.z),
            Vec3::new(self.min.x, self.max.y, self.min.z),
            Vec3::new(self.min.x, self.min.y, self.max.z),
            Vec3::new(self.max.x, self.max.y, self.min.z),
            Vec3::new(self.max.x, self.min.y, self.max.z),
            Vec3::new(self.min.x, self.max.y, self.max.z),
            self.max,
        ]
    }
}

/// The empty box grown by each point in turn.
pub open spec fn box_around(points: Seq<Vec3>) -> Aabb
    decreases points.len(),
{
    if points.len() == 0 {
        empty_box()
    } else {
        box_around(points.drop_last()).with_point(points.last())
    }
}

/// The empty box joined with each box in turn.
pub open spec fn box_around_all(boxes: Seq<Aabb>) -> Aabb
    decreases boxes.len(),
{
    if boxes.len() == 0 {
        empty_box()
    } else {
        box_around_all(boxes.drop_last()).join(boxes.last())
    }
}

/// The smallest box around a list of points, such as the transformed corners of another box.
pub fn bounds_of_points(points: &[Vec3]) -> (b: Aabb)
    ensures
        b == box_around(points@),
{
    let mut result = Aabb::empty();
    let mut i: usize = 0;
    while i < points.len()
        invariant
            i <= points.len(),
            result == box_around(points@.take(i as int)),
        decreases points.len() - i,
    {
        assert(points@.take(i + 1).drop_last() == points@.take(i as int));
        result.expand_point(points[i]);
        i = i + 1;
    }
    assert(points@.take(i as int) == points@);
    result
}

/// The box around a list of boxes, such as the placed copies of an instanced shape.
pub fn bounds_of_boxes(boxes: &[Aabb]) -> (b: Aabb)
    ensures
        b == box_around_all(boxes@),
{
    let mut result = Aabb::empty();
    let mut i: usize = 0;
    while i < boxes.len()
        invariant
            i <= boxes.len(),
            result == box_around_all(boxes@.take(i as int)),
        decreases boxes.len() - i,
    {
        assert(boxes@.take(i + 1).drop_last() == boxes@.take(i as int));
        result = result.union(&boxes[i]);
        i = i + 1;
    }
    assert(boxes@.take(i as int) == boxes@);
    result
}

/// The box around a list of points reaches every one of them that has no NaN coordinate, provided
/// the others have none either.
pub proof fn box_reaches_its_points(points: Seq<Vec3>)
    requires
        forall|i: int| 0 <= i < points.len() ==> (#[trigger] points[i]).is_number(),
    ensures
        box_around(points).is_number(),
        forall|i: int|
            0 <= i < points.len() ==> box_around(points).reaches(#[trigger] points[i]),
    decreases points.len(),
{
    if points.len() > 0 {
        let rest = points.drop_last();
        assert forall|i: int| 0 <= i < rest.len() implies (#[trigger] rest[i]).is_number() by {
            assert(rest[i] == points[i]);
        }
        box_reaches_its_points(rest);
        assert forall|i: int| 0 <= i < points.len() implies box_around(points).reaches(
            #[trigger] points[i],
        ) by {
            if i < rest.len() {
                assert(rest[i] == points[i]);
            }
        }
    }
}

/// A coordinate that runs from `a` up to `b`.
pub open spec fn runs_up(a: Scalar, b: Scalar) -> bool {
    !a.is_nan() && !b.is_nan() && !b.lt(a)
}

/// A coordinate that does not run from one zero to the other.
pub open spec fn one_zero(a: Scalar, b: Scalar) -> bool {
    a.eq_value(b) ==> a == b
}

proof fn lemma_corner_range(a: Scalar, b: Scalar)
    requires
        runs_up(a, b),
    ensures
        ({
            let up = upper(crate::scalar::neg_infinity(), a);
            let low = lower(crate::scalar::infinity(), a);
            &&& up == a && low == a
            &&& lower(a, b).eq_value(a) && lower(b, a).eq_value(a)
            &&& upper(a, b).eq_value(b) && upper(b, a).eq_value(b)
            &&& one_zero(a, b) ==> lower(a, b) == a && lower(b, a) == a && upper(a, b) == b
                && upper(b, a) == b
        }),
{
}

/// The box around the corners of a box whose coordinates run upwards is that box again: its
/// coordinates are the same numbers, and the same values to the bit where none runs from one zero
/// to the other.
pub proof fn box_around_corners_is_the_box(b: Aabb)
    requires
        runs_up(b.min.x, b.max.x),
        runs_up(b.min.y, b.max.y),
        runs_up(b.min.z, b.max.z),
    ensures
        box_around(b.corner_points()).min.matches(b.min),
        box_around(b.corner_points()).max.matches(b.max),
        one_zero(b.min.x, b.max.x) && one_zero(b.min.y, b.max.y) && one_zero(b.min.z, b.max.z)
            ==> box_around(b.corner_points()) == b,
{
    let points = b.corner_points();
    assert(box_around(points.take(0)) == empty_box());
    lemma_box_around_take(points, 0);
    lemma_box_around_take(points, 1);
    lemma_box_around_take(points, 2);
    lemma_box_around_take(points, 3);
    lemma_box_around_take(points, 4);
    lemma_box_around_take(points, 5);
    lemma_box_around_take(points, 6);
    lemma_box_around_take(points, 7);
    assert(points.take(8) =~= points);
    lemma_corner_range(b.min.x, b.max.x);
    lemma_corner_range(b.min.y, b.max.y);
    lemma_corner_range(b.min.z, b.max.z);
}

proof fn lemma_box_around_take(points: Seq<Vec3>, i: int)
    requires
        0 <= i < points.len(),
    ensures
        box_around(points.take(i + 1)) == box_around(points.take(i)).with_point(points[i]),
{
    assert(points.take(i + 1).drop_last() =~= points.take(i));
}

/// Joining two boxes loses no point that either reaches.
pub proof fn join_reaches_both(a: Aabb, b: Aabb, p: Vec3)
    requires
        a.is_number(),
        b.is_number(),
        p.is_number(),
        a.reaches(p) || b.reaches(p),
    ensures
        a.join(b).reaches(p),
        a.join(b).is_number(),
{
}

/// The empty box reaches no point that has a finite coordinate.
pub proof fn empty_reaches_nothing(p: Vec3)
    requires
        !p.x.is_nan(),
        p.x.magnitude() < crate::scalar::INFINITY_BITS,
    ensures
        !empty_box().reaches(p),
{
}

/// Every face of the box around points goes through one of them.
pub proof fn every_face_touches_a_point(points: Seq<Vec3>) -> (at: Seq<int>)
    requires
        points.len() > 0,
    ensures
        at.len() == 6,
        forall|j: int| 0 <= j < 6 ==> 0 <= #[trigger] at[j] < points.len(),
        box_around(points).min.x == points[at[0]].x,
        box_around(points).min.y == points[at[1]].y,
        box_around(points).min.z == points[at[2]].z,
        box_around(points).max.x == points[at[3]].x,
        box_around(points).max.y == points[at[4]].y,
        box_around(points).max.z == points[at[5]].z,
    decreases points.len(),
{
    let rest = points.drop_last();
    let last = points.len() - 1;
    if rest.len() == 0 {
        assert(box_around(rest) == empty_box());
        seq![last, last, last, last, last, last]
    } else {
        let before = every_face_touches_a_point(rest);
        assert(forall|j: int| 0 <= j < 6 ==> rest[#[trigger] before[j]] == points[before[j]]);
        seq![
            if box_around(points).min.x == box_around(rest).min.x {
                before[0]
            } else {
                last
            },
            if box_around(points).min.y == box_around(rest).min.y {
                before[1]
            } else {
                last
            },
            if box_around(points).min.z == box_around(rest).min.z {
                before[2]
            } else {
                last
            },
            if box_around(points).max.x == box_around(rest).max.x {
                before[3]
            } else {
                last
            },
            if box_around(points).max.y == box_around(rest).max.y {
                before[4]
            } else {
                last
            },
            if box_around(points).max.z == box_around(rest).max.z {
                before[5]
            } else {
                last
            },
        ]
    }
}

/// Every face of the box around boxes is a face of one of them.
pub proof fn every_face_is_that_of_a_box(boxes: Seq<Aabb>) -> (at: Seq<int>)
    requires
        boxes.len() > 0,
    ensures
        at.len() == 6,
        forall|j: int| 0 <= j < 6 ==> 0 <= #[trigger] at[j] < boxes.len(),
        box_around_all(boxes).min.x == boxes[at[0]].min.x,
        box_around_all(boxes).min.y == boxes[at[1]].min.y,
        box_around_all(boxes).min.z == boxes[at[2]].min.z,
        box_around_all(boxes).max.x == boxes[at[3]].max.x,
        box_around_all(boxes).max.y == boxes[at[4]].max.y,
        box_around_all(boxes).max.z == boxes[at[5]].max.z,
    decreases boxes.len(),
{
    let rest = boxes.drop_last();
    let last = boxes.len() - 1;
    if rest.len() == 0 {
        assert(box_around_all(rest) == empty_box());
        seq![last, last, last, last, last, last]
    } else {
        let before = every_face_is_that_of_a_box(rest);
        assert(forall|j: int| 0 <= j < 6 ==> rest[#[trigger] before[j]] == boxes[before[j]]);
        seq![
            if box_around_all(boxes).min.x == box_around_all(rest).min.x {
                before[0]
            } else {
                last
            },
            if box_around_all(boxes).min.y == box_around_all(rest).min.y {
                before[1]
            } else {
                last
            },
            if box_around_all(boxes).min.z == box_around_all(rest).min.z {
                before[2]
            } else {
                last
            },
            if box_around_all(boxes).max.x == box_around_all(rest).max.x {
                before[3]
            } else {
                last
            },
            if box_around_all(boxes).max.y == box_around_all(rest).max.y {
                before[4]
            } else {
                last
            },
            if box_around_all(boxes).max.z == box_around_all(rest).max.z {
                before[5]
            } else {
                last
            },
        ]
    }
}

/// The box around boxes reaches every point that one of them reaches.
pub proof fn box_reaches_its_boxes(boxes: Seq<Aabb>, k: int, p: Vec3)
    requires
        forall|i: int| 0 <= i < boxes.len() ==> (#[trigger] boxes[i]).is_number(),
        0 <= k < boxes.len(),
        p.is_number(),
        boxes[k].reaches(p),
    ensures
        box_around_all(boxes).reaches(p),
{
    lemma_around_boxes(boxes, k, p);
}

proof fn lemma_around_boxes(boxes: Seq<Aabb>, k: int, p: Vec3)
    requires
        forall|i: int| 0 <= i < boxes.len() ==> (#[trigger] boxes[i]).is_number(),
        p.is_number(),
    ensures
        box_around_all(boxes).is_number(),
        0 <= k < boxes.len() && boxes[k].reaches(p) ==> box_around_all(boxes).reaches(p),
    decreases boxes.len(),
{
    if boxes.len() > 0 {
        let rest = boxes.drop_last();
        assert forall|i: int| 0 <= i < rest.len() implies (#[trigger] rest[i]).is_number() by {
            assert(rest[i] == boxes[i]);
        }
        lemma_around_boxes(rest, k, p);
        assert(boxes.last() == boxes[boxes.len() - 1]);
        if 0 <= k < rest.len() {
            assert(rest[k] == boxes[k]);
        }
    }
}

/// There is a corner for every choice of a low or a high value on each axis, and there are eight.
pub proof fn corners_take_every_choice(b: Aabb, right: bool, top: bool, far: bool)
    ensures
        b.corner_points().len() == 8,
        b.corner_points().contains(
            Vec3 {
                x: if right {
                    b.max.x
                } else {
                    b.min.x
                },
                y: if top {
                    b.max.y
                } else {
                    b.min.y
                },
                z: if far {
                    b.max.z
                } else {
                    b.min.z
                },
            },
        ),
{
    let c = b.corner_points();
    assert(c[0] == b.min);
    assert(c[1] == c[1]);
    assert(c[2] == c[2]);
    assert(c[3] == c[3]);
    assert(c[4] == c[4]);
    assert(c[5] == c[5]);
    assert(c[6] == c[6]);
    assert(c[7] == b.max);
}

/// A point added to a box moves each face out to it, or leaves the face where it is; two boxes are
/// joined face by face in the same way.
pub proof fn boxes_grow_face_by_face(a: Aabb, b: Aabb, p: Vec3)
    ensures
        a.with_point(p).min.x == if a.min.x.lt(p.x) { a.min.x } else { p.x },
        a.with_point(p).min.y == if a.min.y.lt(p.y) { a.min.y } else { p.y },
        a.with_point(p).min.z == if a.min.z.lt(p.z) { a.min.z } else { p.z },
        a.with_point(p).max.x == if p.x.lt(a.max.x) { a.max.x } else { p.x },
        a.with_point(p).max.y == if p.y.lt(a.max.y) { a.max.y } else { p.y },
        a.with_point(p).max.z == if p.z.lt(a.max.z) { a.max.z } else { p.z },
        a.join(b).min.x == if a.min.x.lt(b.min.x) { a.min.x } else { b.min.x },
        a.join(b).min.y == if a.min.y.lt(b.min.y) { a.min.y } else { b.min.y },
        a.join(b).min.z == if a.min.z.lt(b.min.z) { a.min.z } else { b.min.z },
        a.join(b).max.x == if b.max.x.lt(a.max.x) { a.max.x } else { b.max.x },
        a.join(b).max.y == if b.max.y.lt(a.max.y) { a.max.y } else { b.max.y },
        a.join(b).max.z == if b.max.z.lt(a.max.z) { a.max.z } else { b.max.z },
{
}

} // verus!
