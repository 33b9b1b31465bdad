//! Seed-driven classification of a two-dimensional world into seven layers
//! of named terrain attributes.
//!
//! A world is described by a seed alone. Every layer is a sparse grid whose
//! cells are computed from a reproducible noise sample and from the layers
//! that come before it in the chain water, terrain, biome, detail, flora,
//! urban, special.

pub mod layer;
pub mod world;
