//! A scene-graph library: affine transforms over integer coordinates, a
//! recursive node tree with value-semantics composition, a pre-order draw
//! traversal, and axis-aligned bounding-box overlap queries.

pub mod bbox;
pub mod payload;
pub mod scene;
pub mod transform;
