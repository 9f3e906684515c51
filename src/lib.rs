//! Shapes for collision detection, with fixed-point integer coordinates.
//!
//! Every shape exposes the same capabilities through the `Shape` trait: its
//! bounding box, its mass properties, its type tag, a lower bound on its
//! thickness, whether it is known to be convex, and its specialised views.
//! `RoundShape` grows any roundable shape by a ball. `ShapeHandle` holds any
//! shape and recovers the concrete one on demand. `convex_hull_utils` finds
//! support points of point sets.
pub mod bounding_volume;
pub mod compound;
pub mod convex_hull_utils;
pub mod handle;
pub mod mass_properties;
pub mod math;
pub mod mesh;
pub mod primitives;
pub mod round_shape;
pub mod shape;
