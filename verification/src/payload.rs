//! Drawable payloads: opaque device-geometry handles plus per-instance
//! material parameters and a local-space bounding box.

use vstd::prelude::*;

use crate::transform::Vec3;

verus! {

/// A drawable payload. The geometry and texture fields are opaque handles to
/// device-resident resources supplied by an asset loader; the library never
/// inspects them. The bounding box is in the payload's local space.
#[derive(Clone, Copy, PartialEq, Eq, Structural, Debug)]
pub struct Payload {
    /// Opaque handle to device-resident geometry.
    pub geometry: u64,
    /// Opaque handle to the bound texture.
    pub texture: u32,
    /// Base color, as a fixed-point triple.
    pub color: Vec3,
    /// Specular reflectance, as a fixed-point triple.
    pub specular_reflectance: Vec3,
    /// Specular (Phong) shininess exponent, fixed-point.
    pub phong_q: i64,
    /// Minimum corner of the local-space bounding box.
    pub bbox_min: Vec3,
    /// Maximum corner of the local-space bounding box.
    pub bbox_max: Vec3,
}

impl Payload {
    /// Well-formedness: the local bounding box has `min <= max` on every
    /// axis. A degenerate (point) box is legal.
    pub open spec fn wf(self) -> bool {
        self.bbox_min.x <= self.bbox_max.x && self.bbox_min.y <= self.bbox_max.y
            && self.bbox_min.z <= self.bbox_max.z
    }

    /// Build a payload from the values an asset loader supplies.
    pub fn new(
        geometry: u64,
        texture: u32,
        color: Vec3,
        specular_reflectance: Vec3,
        phong_q: i64,
        bbox_min: Vec3,
        bbox_max: Vec3,
    ) -> (r: Payload)
        requires
            bbox_min.x <= bbox_max.x,
            bbox_min.y <= bbox_max.y,
            bbox_min.z <= bbox_max.z,
        ensures
            r == (Payload {
                geometry,
                texture,
                color,
                specular_reflectance,
                phong_q,
                bbox_min,
                bbox_max,
            }),
            r.wf(),
    {
        Payload { geometry, texture, color, specular_reflectance, phong_q, bbox_min, bbox_max }
    }
}

} // verus!
