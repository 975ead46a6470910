//! World-space axis-aligned bounding boxes and the pairwise overlap query.
//!
//! A node's world box is its designated root payload's local box with the
//! node's own (world) transform applied directly to the two corners — exact
//! for the translate/scale transforms this library builds, as long as no
//! axis is mirrored by a negative scale. The overlap test is a closed-set
//! comparison per axis: touching boundaries count as intersecting.

use vstd::prelude::*;

use crate::scene::{root_payload, own_transform, SceneNode};
use crate::transform::{apply_fits, apply_m, Vec3, Vec3M};

verus! {

/// An axis-aligned bounding box: a minimum and a maximum corner. It may be
/// degenerate (a point), and a mirroring transform may produce corners in
/// reversed order; the overlap test is defined on the raw corners either
/// way.
#[derive(Clone, Copy, PartialEq, Eq, Structural, Debug)]
pub struct Aabb {
    pub min: Vec3,
    pub max: Vec3,
}

/// Mathematical model of an `Aabb`.
pub struct AabbM {
    pub min: Vec3M,
    pub max: Vec3M,
}

impl View for Aabb {
    type V = AabbM;

    open spec fn view(&self) -> AabbM {
        AabbM { min: self.min@, max: self.max@ }
    }
}

/// Closed-set overlap of two boxes: on every axis the first box starts no
/// later than the second ends and ends no earlier than the second starts.
pub open spec fn boxes_intersect_m(a: AabbM, b: AabbM) -> bool {
    &&& a.min.x <= b.max.x && a.max.x >= b.min.x
    &&& a.min.y <= b.max.y && a.max.y >= b.min.y
    &&& a.min.z <= b.max.z && a.max.z >= b.min.z
}

/// Closed-set membership of a point in a box.
pub open spec fn point_in_box_m(bbox_min: Vec3M, bbox_max: Vec3M, point: Vec3M) -> bool {
    &&& bbox_min.x <= point.x <= bbox_max.x
    &&& bbox_min.y <= point.y <= bbox_max.y
    &&& bbox_min.z <= point.z <= bbox_max.z
}

/// The node's world-space box: its root payload's local corners taken
/// through its own (world) transform. `None` when the node has no root
/// payload.
pub open spec fn spec_world_bbox(n: SceneNode) -> Option<AabbM> {
    match root_payload(n) {
        Some(p) => Some(
            AabbM {
                min: apply_m(own_transform(n), p.bbox_min@),
                max: apply_m(own_transform(n), p.bbox_max@),
            },
        ),
        None => None,
    }
}

/// The transformed corners of the node's world box are representable.
pub open spec fn world_bbox_fits(n: SceneNode) -> bool {
    root_payload(n) matches Some(p) ==> apply_fits(own_transform(n), p.bbox_min@) && apply_fits(
        own_transform(n),
        p.bbox_max@,
    )
}

/// The overlap verdict for two nodes: their world boxes compared when both
/// nodes carry a root payload, `None` otherwise.
pub open spec fn spec_check_intersection(a: SceneNode, b: SceneNode) -> Option<bool> {
    match (spec_world_bbox(a), spec_world_bbox(b)) {
        (Some(wa), Some(wb)) => Some(boxes_intersect_m(wa, wb)),
        _ => None,
    }
}

/// Law: the overlap test is symmetric in its two boxes.
pub proof fn lemma_boxes_intersect_symmetric(a: AabbM, b: AabbM)
    ensures
        boxes_intersect_m(a, b) == boxes_intersect_m(b, a),
{
}

/// Law: the overlap verdict is symmetric in the two nodes, including which
/// of them is missing a payload.
pub proof fn lemma_check_intersection_symmetric(a: SceneNode, b: SceneNode)
    ensures
        spec_check_intersection(a, b) == spec_check_intersection(b, a),
{
}

/// Law: a node whose transform scales every axis by zero has a point-sized
/// world box sitting at the transform's translation, whatever the payload's
/// local extent.
pub proof fn lemma_zero_scale_point_bbox(n: SceneNode)
    requires
        root_payload(n) is Some,
        own_transform(n).sx == 0,
        own_transform(n).sy == 0,
        own_transform(n).sz == 0,
    ensures
        spec_world_bbox(n) matches Some(b) && b.min == b.max && b.min == (Vec3M {
            x: own_transform(n).tx,
            y: own_transform(n).ty,
            z: own_transform(n).tz,
        }),
{
}

/// Closed-set membership of a point in a box, on the raw corners.
pub fn check_point_bbox_intersection(bbox_min: &Vec3, bbox_max: &Vec3, point: &Vec3) -> (r: bool)
    ensures
        r == point_in_box_m(bbox_min@, bbox_max@, point@),
{
    point.x >= bbox_min.x && point.x <= bbox_max.x && point.y >= bbox_min.y && point.y
        <= bbox_max.y && point.z >= bbox_min.z && point.z <= bbox_max.z
}

/// Closed-set overlap of two boxes given by their corners.
pub fn check_bbox_bbox_intersection(
    bbox1_min: &Vec3,
    bbox1_max: &Vec3,
    bbox2_min: &Vec3,
    bbox2_max: &Vec3,
) -> (r: bool)
    ensures
        r == boxes_intersect_m(
            (AabbM { min: bbox1_min@, max: bbox1_max@ }),
            (AabbM { min: bbox2_min@, max: bbox2_max@ }),
        ),
{
    bbox1_min.x <= bbox2_max.x && bbox1_max.x >= bbox2_min.x && bbox1_min.y <= bbox2_max.y
        && bbox1_max.y >= bbox2_min.y && bbox1_min.z <= bbox2_max.z && bbox1_max.z >= bbox2_min.z
}

impl SceneNode {
    /// Whether the corners of this node's world box are representable; a
    /// runtime check for [`SceneNode::world_bbox`]'s precondition.
    pub fn bbox_fits(&self) -> (b: bool)
        ensures
            b == world_bbox_fits(*self),
    {
        let t = self.get_matrix();
        match (self.get_bbox_min(), self.get_bbox_max()) {
            (Some(lo), Some(hi)) => {
                let a = t.try_apply(&lo);
                let b = t.try_apply(&hi);
                a.is_some() && b.is_some()
            },
            _ => true,
        }
    }

    /// The node's world-space bounding box: the root payload's local box
    /// taken through the node's own transform. `None` exactly when the node
    /// has no root payload.
    pub fn world_bbox(&self) -> (r: Option<Aabb>)
        requires
            world_bbox_fits(*self),
        ensures
            r is Some <==> root_payload(*self) is Some,
            r matches Some(bb) ==> spec_world_bbox(*self) == Some(bb@),
    {
        let t = self.get_matrix();
        match (self.get_bbox_min(), self.get_bbox_max()) {
            (Some(lo), Some(hi)) => {
                let min = t.apply(&lo);
                let max = t.apply(&hi);
                Some(Aabb { min, max })
            },
            _ => None,
        }
    }

    /// Whether this node's world box overlaps `other`'s, boundaries
    /// included. `None` exactly when either node has no root payload to
    /// take a box from.
    pub fn check_intersection(&self, other: &SceneNode) -> (r: Option<bool>)
        requires
            world_bbox_fits(*self),
            world_bbox_fits(*other),
        ensures
            r == spec_check_intersection(*self, *other),
    {
        match (self.world_bbox(), other.world_bbox()) {
            (Some(wa), Some(wb)) => Some(
                check_bbox_bbox_intersection(&wa.min, &wa.max, &wb.min, &wb.max),
            ),
            _ => None,
        }
    }
}

} // verus!
