//! A small 2D rigid-body simulation library.
//!
//! The engine owns a collection of movable and static bodies held in a
//! generational arena, advances their motion under gravity and damping,
//! detects pairwise collisions between circles and convex polygons, and
//! resolves interpenetration through staged position/velocity corrections.
//!
//! All scalar quantities are fixed-point numbers: an `i64` counting
//! millionths of a simulation unit (see [`fixed`]). This keeps every
//! computation of the engine exact and deterministic.

pub mod fixed;
pub mod vec2;
pub mod trig;

pub mod gen_vec;
pub mod arena_laws;

pub mod circle_body;
pub mod convex_body;
pub mod body;

pub mod col_relations;
pub mod physics_world;
pub mod world_laws;
