//! Error values surfaced by grid construction and by the field solve.

use vstd::prelude::*;

verus! {

/// Construction failure of a grid: the requested shape cannot be
/// addressed through the linear-index scheme.
#[derive(Debug, Clone, Copy, PartialEq, Eq, Structural)]
pub enum GridError {
    /// The element count `nx * ny * nz` (or the plane offset `nx * ny`)
    /// does not fit in `usize`.
    ShapeOverflow,
}

/// Failure of the electrostatic engine, either at construction or
/// during a solve.
#[derive(Debug, Clone, Copy, PartialEq)]
pub enum SolveError<T> {
    /// An axis was given fewer than 3 cells, so the spacing and the
    /// difference stencils are not defined.
    DegenerateCells,
    /// A grid of the requested shape cannot be allocated.
    ShapeOverflow,
    /// The relaxation reached its iteration cap before the residual
    /// norm met the tolerance; carries the tolerance asked for and the
    /// cap that was exhausted.
    NonConvergence { tolerance: T, max_iter: u64 },
}

} // verus!
