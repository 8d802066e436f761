//! Field-solve core of an electrostatic particle-in-cell simulation:
//! scalar and vector grids over a generic numeric element type, and an
//! engine that relaxes Poisson's equation and differentiates the
//! resulting potential into an electric field.

pub mod coordinate_triplet;
pub mod engine;
pub mod error;
pub mod laws;
pub mod numeric;
pub mod scalar_field;
pub mod text;
pub mod vector_field;
