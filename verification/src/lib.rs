//! A verified explicit finite-difference integration kernel for a 2D
//! scalar/vector field, together with the grid state it evolves and two
//! small utility modules.
//!
//! Field samples are binary32 values carried as `u32` bit patterns; the
//! arithmetic itself is done by a software IEEE 754 implementation behind
//! the narrow trusted interface in [`floats`].
pub mod core_types;
pub mod floats;
pub mod linguistics;
pub mod simulation;
pub mod tiling;

pub use core_types::Field;
pub use core_types::Params;
pub use core_types::ShapeError;
pub use core_types::State;
pub use simulation::step;
