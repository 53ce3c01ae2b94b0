//! Procedural generation of named, grid-shaped numeric attributes over a 2d map.
//!
//! The crate composes small, declarative value generators (identity, gradient,
//! noise, distance-based, index-based) and applies ordered transformation
//! steps (row/column distortion, cross-attribute blending) to the byte grids
//! of a [`map2d::Map2d`]. Steps are configured through plain mirror records
//! that reference attributes by name and are validated into runtime steps
//! bound to numeric attribute ids; validating a record and converting the
//! step back round-trips exactly.

pub mod attribute;
pub mod distance;
pub mod distortion1d;
pub mod generator1d;
pub mod generator2d;
pub mod gradient;
pub mod interpolation;
pub mod map2d;
pub mod modify;
pub mod noise;
pub mod rendering;
pub mod selector;
pub mod size2d;
pub mod step;
