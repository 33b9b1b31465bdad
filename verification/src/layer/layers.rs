//! The seven classification layers, in the order in which they depend on
//! each other.

pub mod biome;
pub mod detail;
pub mod flora;
pub mod special;
pub mod terrain;
pub mod urban;
pub mod water;
