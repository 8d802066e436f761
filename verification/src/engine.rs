//! The electrostatic engine: a Gauss-Seidel successive-over-relaxation
//! Poisson solve for the potential, followed by a finite-difference
//! differentiation of the potential into the electric field.

use crate::coordinate_triplet::CoordinateTriplet;
use crate::error::SolveError;
use crate::numeric::Numeric;
use crate::numeric::SolverNumeric;
use crate::scalar_field::ScalarField;
use crate::scalar_field::filled;
use crate::vector_field::VectorField;
use vstd::prelude::*;

verus! {

/// Gauss-Seidel iterations between convergence checks.
pub const CONV_CHECK_ITER: u64 = 25;

/// The scalar constants that drive one relaxation solve.
#[derive(Debug, Clone, Copy, PartialEq)]
pub struct SorParams<T> {
    /// over-relaxation factor applied to each update
    pub sor_acc: T,

    /// residual norm at or under which the solve has converged
    pub tolerance: T,

    /// error norm assumed before the first convergence check
    pub init_err: T,

    /// inverse vacuum permittivity, multiplies the charge density
    pub inv_vac_perm: T,

    /// iteration cap: reaching it before convergence fails the solve
    pub max_iter: u64,
}

/// The immutable ingredients of a relaxation sweep, gathered so that
/// the sweep and residual specifications depend on nothing else.
pub ghost struct SolveCfg<T> {
    /// charge density in linear-buffer order
    pub rho: Seq<T>,

    /// inverse squared spacing along x
    pub dx2: T,

    /// inverse squared spacing along y
    pub dy2: T,

    /// inverse squared spacing along z
    pub dz2: T,

    /// inverse vacuum permittivity
    pub inv_perm: T,

    /// over-relaxation factor
    pub sor: T,

    /// cell counts along each axis
    pub nx: int,

    /// cell counts along each axis
    pub ny: int,

    /// cell counts along each axis
    pub nz: int,
}

/// Column-major linear index of cell `(i, j, k)` in a grid with `nx`
/// cells along x and `ny` along y.
pub open spec fn lin3(nx: int, ny: int, i: int, j: int, k: int) -> int {
    i + nx * j + nx * ny * k
}

/// The Gauss-Seidel estimate for interior cell `(i, j, k)`: the
/// discretized Poisson equation solved for the cell's own value, using
/// the current (partially updated) potential `p`.
pub open spec fn cell_new<T: SolverNumeric>(
    cfg: SolveCfg<T>,
    p: Seq<T>,
    i: int,
    j: int,
    k: int,
) -> T {
    cfg.rho[lin3(cfg.nx, cfg.ny, i, j, k)].mul_spec(cfg.inv_perm).add_spec(
        cfg.dx2.mul_spec(
            p[lin3(cfg.nx, cfg.ny, i + 1, j, k)].add_spec(p[lin3(cfg.nx, cfg.ny, i - 1, j, k)]),
        ),
    ).add_spec(
        cfg.dy2.mul_spec(
            p[lin3(cfg.nx, cfg.ny, i, j + 1, k)].sub_spec(p[lin3(cfg.nx, cfg.ny, i, j - 1, k)]),
        ),
    ).add_spec(
        cfg.dz2.mul_spec(
            p[lin3(cfg.nx, cfg.ny, i, j, k + 1)].sub_spec(p[lin3(cfg.nx, cfg.ny, i, j, k - 1)]),
        ),
    ).div_spec(
        T::from_usize_spec(2).mul_spec(cfg.dx2.add_spec(cfg.dy2).add_spec(cfg.dz2)),
    )
}

/// The over-relaxed update of interior cell `(i, j, k)`:
/// `p + sor * (cell_new - p)`.
pub open spec fn relaxed<T: SolverNumeric>(
    cfg: SolveCfg<T>,
    p: Seq<T>,
    i: int,
    j: int,
    k: int,
) -> T {
    let n = lin3(cfg.nx, cfg.ny, i, j, k);
    p[n].add_spec(cfg.sor.mul_spec(cell_new(cfg, p, i, j, k).sub_spec(p[n])))
}

/// The potential after the in-place update of interior cell `(i, j, k)`.
pub open spec fn after_cell<T: SolverNumeric>(
    cfg: SolveCfg<T>,
    p: Seq<T>,
    i: int,
    j: int,
    k: int,
) -> Seq<T> {
    p.update(lin3(cfg.nx, cfg.ny, i, j, k), relaxed(cfg, p, i, j, k))
}

/// The potential after updating, in order, the interior cells
/// `(i, j, 1) .. (i, j, kk - 1)` of one row.
pub open spec fn sweep_row<T: SolverNumeric>(
    cfg: SolveCfg<T>,
    p: Seq<T>,
    i: int,
    j: int,
    kk: int,
) -> Seq<T>
    decreases kk,
{
    if kk <= 1 {
        p
    } else {
        after_cell(cfg, sweep_row(cfg, p, i, j, kk - 1), i, j, kk - 1)
    }
}

/// The potential after sweeping, in order, the interior rows
/// `(i, 1) .. (i, jj - 1)` of one plane.
pub open spec fn sweep_plane<T: SolverNumeric>(
    cfg: SolveCfg<T>,
    p: Seq<T>,
    i: int,
    jj: int,
) -> Seq<T>
    decreases jj,
{
    if jj <= 1 {
        p
    } else {
        sweep_row(cfg, sweep_plane(cfg, p, i, jj - 1), i, jj - 1, cfg.nz - 1)
    }
}

/// The potential after sweeping, in order, the interior planes
/// `1 .. ii - 1`.
pub open spec fn sweep_cube<T: SolverNumeric>(cfg: SolveCfg<T>, p: Seq<T>, ii: int) -> Seq<T>
    decreases ii,
{
    if ii <= 1 {
        p
    } else {
        sweep_plane(cfg, sweep_cube(cfg, p, ii - 1), ii - 1, cfg.ny - 1)
    }
}

/// One full lexicographic in-place Gauss-Seidel sweep over the
/// interior cells (i outermost, j middle, k innermost, ascending).
pub open spec fn sweep<T: SolverNumeric>(cfg: SolveCfg<T>, p: Seq<T>) -> Seq<T> {
    sweep_cube(cfg, p, cfg.nx - 1)
}

/// The residual of the discretized Poisson equation at interior cell
/// `(i, j, k)` of potential `p`.
pub open spec fn res_cell<T: SolverNumeric>(
    cfg: SolveCfg<T>,
    p: Seq<T>,
    i: int,
    j: int,
    k: int,
) -> T {
    T::zero_spec().sub_spec(p[lin3(cfg.nx, cfg.ny, i, j, k)]).mul_spec(
        T::from_usize_spec(2),
    ).mul_spec(cfg.dx2.add_spec(cfg.dy2).add_spec(cfg.dz2)).add_spec(
        cfg.rho[lin3(cfg.nx, cfg.ny, i, j, k)].mul_spec(cfg.inv_perm),
    ).add_spec(
        cfg.dx2.mul_spec(
            p[lin3(cfg.nx, cfg.ny, i + 1, j, k)].add_spec(p[lin3(cfg.nx, cfg.ny, i - 1, j, k)]),
        ),
    ).add_spec(
        cfg.dy2.mul_spec(
            p[lin3(cfg.nx, cfg.ny, i, j + 1, k)].sub_spec(p[lin3(cfg.nx, cfg.ny, i, j - 1, k)]),
        ),
    ).add_spec(
        cfg.dz2.mul_spec(
            p[lin3(cfg.nx, cfg.ny, i, j, k + 1)].sub_spec(p[lin3(cfg.nx, cfg.ny, i, j, k - 1)]),
        ),
    )
}

/// `acc` grown by the squared residuals of interior cells
/// `(i, j, 1) .. (i, j, kk - 1)`, in order.
pub open spec fn racc_row<T: SolverNumeric>(
    cfg: SolveCfg<T>,
    p: Seq<T>,
    acc: T,
    i: int,
    j: int,
    kk: int,
) -> T
    decreases kk,
{
    if kk <= 1 {
        acc
    } else {
        let a = racc_row(cfg, p, acc, i, j, kk - 1);
        let r = res_cell(cfg, p, i, j, kk - 1);
        a.add_spec(r.mul_spec(r))
    }
}

/// `acc` grown by the squared residuals of the interior rows
/// `(i, 1) .. (i, jj - 1)`, in order.
pub open spec fn racc_plane<T: SolverNumeric>(
    cfg: SolveCfg<T>,
    p: Seq<T>,
    acc: T,
    i: int,
    jj: int,
) -> T
    decreases jj,
{
    if jj <= 1 {
        acc
    } else {
        racc_row(cfg, p, racc_plane(cfg, p, acc, i, jj - 1), i, jj - 1, cfg.nz - 1)
    }
}

/// `acc` grown by the squared residuals of the interior planes
/// `1 .. ii - 1`, in order.
pub open spec fn racc_cube<T: SolverNumeric>(
    cfg: SolveCfg<T>,
    p: Seq<T>,
    acc: T,
    ii: int,
) -> T
    decreases ii,
{
    if ii <= 1 {
        acc
    } else {
        racc_plane(cfg, p, racc_cube(cfg, p, acc, ii - 1), ii - 1, cfg.ny - 1)
    }
}

/// The accumulated squared residual over all interior cells, starting
/// from zero.
pub open spec fn residual_acc<T: SolverNumeric>(cfg: SolveCfg<T>, p: Seq<T>) -> T {
    racc_cube(cfg, p, T::zero_spec(), cfg.nx - 1)
}

/// The L2 error norm of potential `p`: the accumulated squared
/// residual divided by the total cell count, under the square root.
pub open spec fn l2_norm<T: SolverNumeric>(cfg: SolveCfg<T>, p: Seq<T>) -> T {
    residual_acc(cfg, p).div_spec(
        T::from_usize_spec((cfg.nx * cfg.ny * cfg.nz) as usize),
    ).sqrt_spec()
}

/// The relaxation loop, started at potential `p`, error norm `l2` and
/// iteration count `ctr`: sweeps until the norm (recomputed every
/// `CONV_CHECK_ITER` sweeps) meets `tol`, or the iteration cap is hit.
/// Yields whether it converged, and the final potential either way.
pub open spec fn run_from<T: SolverNumeric>(
    cfg: SolveCfg<T>,
    tol: T,
    max_iter: u64,
    p: Seq<T>,
    l2: T,
    ctr: u64,
) -> (bool, Seq<T>)
    decreases max_iter - ctr,
{
    if !tol.lt_spec(l2) {
        (true, p)
    } else {
        let p1 = sweep(cfg, p);
        let l2p = if ctr % CONV_CHECK_ITER == 0 {
            l2_norm(cfg, p1)
        } else {
            l2
        };
        if ctr >= max_iter {
            (false, p1)
        } else {
            run_from(cfg, tol, max_iter, p1, l2p, (ctr + 1) as u64)
        }
    }
}

/// The ingredients of the finite-difference differentiation: the
/// potential and, per axis, the coefficient `-1 / (2 * delta)`.
pub ghost struct FieldCfg<T> {
    /// potential in linear-buffer order
    pub p: Seq<T>,

    /// x-axis coefficient `-1 / (2 * delta.x)`
    pub cx: T,

    /// y-axis coefficient `-1 / (2 * delta.y)`
    pub cy: T,

    /// z-axis coefficient `-1 / (2 * delta.z)`
    pub cz: T,

    /// cell counts along each axis
    pub nx: int,

    /// cell counts along each axis
    pub ny: int,

    /// cell counts along each axis
    pub nz: int,
}

/// The differentiation coefficient `-1 / (2 * d)` for spacing `d`.
pub open spec fn neg_half_inv<T: SolverNumeric>(d: T) -> T {
    T::zero_spec().sub_spec(T::from_usize_spec(1)).div_spec(T::from_usize_spec(2).mul_spec(d))
}

/// The x component of the electric field at cell `(i, j, k)`: the
/// negative x-derivative of the potential by a central difference on
/// interior indices and one-sided second-order differences on the two
/// boundary indices.
pub open spec fn ex_at<T: SolverNumeric>(c: FieldCfg<T>, i: int, j: int, k: int) -> T {
    if i != 0 && i != c.nx - 1 {
        c.cx.mul_spec(
            c.p[lin3(c.nx, c.ny, i + 1, j, k)].sub_spec(c.p[lin3(c.nx, c.ny, i - 1, j, k)]),
        )
    } else if i == 0 {
        c.cx.mul_spec(
            T::zero_spec().sub_spec(T::from_usize_spec(3)).mul_spec(
                c.p[lin3(c.nx, c.ny, i, j, k)],
            ).add_spec(
                T::from_usize_spec(4).mul_spec(c.p[lin3(c.nx, c.ny, i + 1, j, k)]),
            ).sub_spec(c.p[lin3(c.nx, c.ny, i + 2, j, k)]),
        )
    } else {
        c.cx.mul_spec(
            c.p[lin3(c.nx, c.ny, i - 2, j, k)].sub_spec(
                T::from_usize_spec(4).mul_spec(c.p[lin3(c.nx, c.ny, i - 1, j, k)]),
            ).add_spec(T::from_usize_spec(3).mul_spec(c.p[lin3(c.nx, c.ny, i, j, k)])),
        )
    }
}

/// The y component of the electric field at cell `(i, j, k)`, with
/// the same stencil selection applied to the j index.
pub open spec fn ey_at<T: SolverNumeric>(c: FieldCfg<T>, i: int, j: int, k: int) -> T {
    if j != 0 && j != c.ny - 1 {
        c.cy.mul_spec(
            c.p[lin3(c.nx, c.ny, i, j + 1, k)].sub_spec(c.p[lin3(c.nx, c.ny, i, j - 1, k)]),
        )
    } else if j == 0 {
        c.cy.mul_spec(
            T::zero_spec().sub_spec(T::from_usize_spec(3)).mul_spec(
                c.p[lin3(c.nx, c.ny, i, j, k)],
            ).add_spec(
                T::from_usize_spec(4).mul_spec(c.p[lin3(c.nx, c.ny, i, j + 1, k)]),
            ).sub_spec(c.p[lin3(c.nx, c.ny, i, j + 2, k)]),
        )
    } else {
        c.cy.mul_spec(
            c.p[lin3(c.nx, c.ny, i, j - 2, k)].sub_spec(
                T::from_usize_spec(4).mul_spec(c.p[lin3(c.nx, c.ny, i, j - 1, k)]),
            ).add_spec(T::from_usize_spec(3).mul_spec(c.p[lin3(c.nx, c.ny, i, j, k)])),
        )
    }
}

/// The z component of the electric field at cell `(i, j, k)`, with
/// the same stencil selection applied to the k index.
pub open spec fn ez_at<T: SolverNumeric>(c: FieldCfg<T>, i: int, j: int, k: int) -> T {
    if k != 0 && k != c.nz - 1 {
        c.cz.mul_spec(
            c.p[lin3(c.nx, c.ny, i, j, k + 1)].sub_spec(c.p[lin3(c.nx, c.ny, i, j, k - 1)]),
        )
    } else if k == 0 {
        c.cz.mul_spec(
            T::zero_spec().sub_spec(T::from_usize_spec(3)).mul_spec(
                c.p[lin3(c.nx, c.ny, i, j, k)],
            ).add_spec(
                T::from_usize_spec(4).mul_spec(c.p[lin3(c.nx, c.ny, i, j, k + 1)]),
            ).sub_spec(c.p[lin3(c.nx, c.ny, i, j, k + 2)]),
        )
    } else {
        c.cz.mul_spec(
            c.p[lin3(c.nx, c.ny, i, j, k - 2)].sub_spec(
                T::from_usize_spec(4).mul_spec(c.p[lin3(c.nx, c.ny, i, j, k - 1)]),
            ).add_spec(T::from_usize_spec(3).mul_spec(c.p[lin3(c.nx, c.ny, i, j, k)])),
        )
    }
}

/// Two distinct cells of one grid have distinct linear indices.
pub proof fn lemma_lin3_distinct(
    nx: int,
    ny: int,
    a: int,
    b: int,
    c: int,
    i: int,
    j: int,
    k: int,
)
    by (nonlinear_arith)
    requires
        0 <= a < nx,
        0 <= i < nx,
        0 <= b < ny,
        0 <= j < ny,
        0 <= c,
        0 <= k,
        a != i || b != j || c != k,
    ensures
        lin3(nx, ny, a, b, c) != lin3(nx, ny, i, j, k),
{
}

/// An electrostatic particle-in-cell engine: owns the charge-density,
/// potential, electric-field and cell-volume grids together with the
/// precomputed geometric constants, and exposes one `update` operation.
#[derive(Debug, PartialEq)]
pub struct Electrostatic<T> {
    /// (m) size of the bounding box
    pub(crate) size: CoordinateTriplet<T>,

    /// number of cells along each axis
    pub(crate) cells: CoordinateTriplet<usize>,

    /// (m) spatial increment along each axis
    pub(crate) delta: CoordinateTriplet<T>,

    /// (V) electric potential
    pub(crate) potential: ScalarField<T>,

    /// (C m^-3) electric charge density
    pub(crate) charge_density: ScalarField<T>,

    /// (V m^-1) electric field
    pub(crate) electric_field: VectorField<T>,

    /// (m^3) cell volumes; zero-filled, reserved for later use
    pub(crate) cell_vol: ScalarField<T>,

    /// (m^-2) inverse squared spatial increments
    pub(crate) delta_inv_sq: CoordinateTriplet<T>,

    /// the scalar constants of the relaxation solve
    pub(crate) params: SorParams<T>,
}

impl<T> Electrostatic<T> {
    /// (m) size of the bounding box.
    pub closed spec fn spec_size(&self) -> CoordinateTriplet<T> {
        self.size
    }

    /// Number of cells along each axis.
    pub closed spec fn spec_cells(&self) -> CoordinateTriplet<usize> {
        self.cells
    }

    /// (m) spatial increment along each axis.
    pub closed spec fn spec_delta(&self) -> CoordinateTriplet<T> {
        self.delta
    }

    /// (m^-2) inverse squared spatial increments.
    pub closed spec fn spec_delta_inv_sq(&self) -> CoordinateTriplet<T> {
        self.delta_inv_sq
    }

    /// (V) electric potential grid.
    pub closed spec fn spec_potential(&self) -> ScalarField<T> {
        self.potential
    }

    /// (C m^-3) charge density grid.
    pub closed spec fn spec_charge_density(&self) -> ScalarField<T> {
        self.charge_density
    }

    /// (V m^-1) electric field grid.
    pub closed spec fn spec_electric_field(&self) -> VectorField<T> {
        self.electric_field
    }

    /// (m^3) cell volume grid.
    pub closed spec fn spec_cell_vol(&self) -> ScalarField<T> {
        self.cell_vol
    }

    /// The scalar constants of the relaxation solve.
    pub closed spec fn spec_params(&self) -> SorParams<T> {
        self.params
    }

    /// The configuration two engine states share when a solve stage
    /// only rewrites field data: geometry, solver constants and the
    /// cell-volume grid.
    pub open spec fn same_geometry(&self, other: &Electrostatic<T>) -> bool {
        &&& self.spec_size() == other.spec_size()
        &&& self.spec_cells() == other.spec_cells()
        &&& self.spec_delta() == other.spec_delta()
        &&& self.spec_delta_inv_sq() == other.spec_delta_inv_sq()
        &&& self.spec_params() == other.spec_params()
        &&& self.spec_cell_vol() == other.spec_cell_vol()
    }

    /// Well-formed: every axis has at least 3 cells (so interior cells
    /// and one-sided stencils exist) and all four grids share the
    /// engine's shape.
    pub open spec fn wf(&self) -> bool {
        &&& self.spec_cells().x >= 3
        &&& self.spec_cells().y >= 3
        &&& self.spec_cells().z >= 3
        &&& self.spec_potential().wf()
        &&& self.spec_potential().spec_cells() == self.spec_cells()
        &&& self.spec_charge_density().wf()
        &&& self.spec_charge_density().spec_cells() == self.spec_cells()
        &&& self.spec_electric_field().wf()
        &&& self.spec_electric_field().spec_cells() == self.spec_cells()
        &&& self.spec_cell_vol().wf()
        &&& self.spec_cell_vol().spec_cells() == self.spec_cells()
    }
}

impl<T: SolverNumeric> Electrostatic<T> {
    /// The immutable ingredients of this engine's relaxation sweeps.
    pub open spec fn solve_cfg(&self) -> SolveCfg<T> {
        SolveCfg {
            rho: self.spec_charge_density().spec_data(),
            dx2: self.spec_delta_inv_sq().x,
            dy2: self.spec_delta_inv_sq().y,
            dz2: self.spec_delta_inv_sq().z,
            inv_perm: self.spec_params().inv_vac_perm,
            sor: self.spec_params().sor_acc,
            nx: self.spec_cells().x as int,
            ny: self.spec_cells().y as int,
            nz: self.spec_cells().z as int,
        }
    }

    /// The ingredients of this engine's field differentiation.
    pub open spec fn field_cfg(&self) -> FieldCfg<T> {
        FieldCfg {
            p: self.spec_potential().spec_data(),
            cx: neg_half_inv(self.spec_delta().x),
            cy: neg_half_inv(self.spec_delta().y),
            cz: neg_half_inv(self.spec_delta().z),
            nx: self.spec_cells().x as int,
            ny: self.spec_cells().y as int,
            nz: self.spec_cells().z as int,
        }
    }

    /// All three electric-field components at cell `(a, b, d)` hold
    /// the stencil values of configuration `c`.
    pub open spec fn field_done(&self, c: FieldCfg<T>, a: int, b: int, d: int) -> bool {
        &&& self.spec_electric_field().x.spec_index(a, b, d) == ex_at(c, a, b, d)
        &&& self.spec_electric_field().y.spec_index(a, b, d) == ey_at(c, a, b, d)
        &&& self.spec_electric_field().z.spec_index(a, b, d) == ez_at(c, a, b, d)
    }

    /// Builds an engine over a grid of `cells` cells spanning a box of
    /// physical extent `size`, with zero-filled charge density,
    /// potential, electric field and cell volumes.
    ///
    /// The spacing along each axis is `size / (cells - 1)`, and the
    /// solver constant along each axis is `1 / spacing^2`.
    ///
    /// Fails exactly when an axis has fewer than 3 cells (the
    /// stencils need them) or the element count overflows `usize`.
    pub fn new(size: &[T; 3], cells: &[usize; 3], params: SorParams<T>) -> (r: Result<
        Electrostatic<T>,
        SolveError<T>,
    >)
        ensures
            r is Ok <==> {
                &&& cells[0] >= 3
                &&& cells[1] >= 3
                &&& cells[2] >= 3
                &&& cells[0] * cells[1] <= usize::MAX
                &&& cells[0] * cells[1] * cells[2] <= usize::MAX
            },
            (cells[0] < 3 || cells[1] < 3 || cells[2] < 3) ==> r == Err::<Electrostatic<T>, _>(
                SolveError::<T>::DegenerateCells,
            ),
            r matches Err(e) ==> (e == SolveError::<T>::DegenerateCells || e == SolveError::<
                T,
            >::ShapeOverflow),
            r matches Ok(eng) ==> {
                &&& eng.wf()
                &&& eng.spec_size().x == size[0]
                &&& eng.spec_size().y == size[1]
                &&& eng.spec_size().z == size[2]
                &&& eng.spec_cells().x == cells[0]
                &&& eng.spec_cells().y == cells[1]
                &&& eng.spec_cells().z == cells[2]
                &&& eng.spec_delta().x == size[0].div_spec(
                    T::from_usize_spec((cells[0] - 1) as usize),
                )
                &&& eng.spec_delta().y == size[1].div_spec(
                    T::from_usize_spec((cells[1] - 1) as usize),
                )
                &&& eng.spec_delta().z == size[2].div_spec(
                    T::from_usize_spec((cells[2] - 1) as usize),
                )
                &&& eng.spec_delta_inv_sq().x == T::from_usize_spec(1).div_spec(
                    eng.spec_delta().x.mul_spec(eng.spec_delta().x),
                )
                &&& eng.spec_delta_inv_sq().y == T::from_usize_spec(1).div_spec(
                    eng.spec_delta().y.mul_spec(eng.spec_delta().y),
                )
                &&& eng.spec_delta_inv_sq().z == T::from_usize_spec(1).div_spec(
                    eng.spec_delta().z.mul_spec(eng.spec_delta().z),
                )
                &&& filled(eng.spec_potential().spec_data(), T::zero_spec())
                &&& filled(eng.spec_charge_density().spec_data(), T::zero_spec())
                &&& filled(eng.spec_electric_field().x.spec_data(), T::zero_spec())
                &&& filled(eng.spec_electric_field().y.spec_data(), T::zero_spec())
                &&& filled(eng.spec_electric_field().z.spec_data(), T::zero_spec())
                &&& filled(eng.spec_cell_vol().spec_data(), T::zero_spec())
                &&& eng.spec_params() == params
            },
    {
        if cells[0] < 3 || cells[1] < 3 || cells[2] < 3 {
            return Err(SolveError::DegenerateCells);
        }
        let size_t = CoordinateTriplet { x: size[0], y: size[1], z: size[2] };
        let cells_t = CoordinateTriplet { x: cells[0], y: cells[1], z: cells[2] };

        let dx = size_t.x.div(T::from_usize(cells_t.x - 1));
        let dy = size_t.y.div(T::from_usize(cells_t.y - 1));
        let dz = size_t.z.div(T::from_usize(cells_t.z - 1));
        let delta = CoordinateTriplet { x: dx, y: dy, z: dz };

        let one = T::from_usize(1);
        let delta_inv_sq = CoordinateTriplet {
            x: one.div(dx.mul(dx)),
            y: one.div(dy.mul(dy)),
            z: one.div(dz.mul(dz)),
        };

        let potential = match ScalarField::<T>::new(&cells_t) {
            Ok(g) => g,
            Err(_) => {
                return Err(SolveError::ShapeOverflow);
            },
        };
        let charge_density = match ScalarField::<T>::new(&cells_t) {
            Ok(g) => g,
            Err(_) => {
                return Err(SolveError::ShapeOverflow);
            },
        };
        let electric_field = match VectorField::<T>::new(&cells_t) {
            Ok(g) => g,
            Err(_) => {
                return Err(SolveError::ShapeOverflow);
            },
        };
        let cell_vol = match ScalarField::<T>::new(&cells_t) {
            Ok(g) => g,
            Err(_) => {
                return Err(SolveError::ShapeOverflow);
            },
        };

        Ok(
            Electrostatic {
                size: size_t,
                cells: cells_t,
                delta,
                potential,
                charge_density,
                electric_field,
                cell_vol,
                delta_inv_sq,
                params,
            },
        )
    }

    /// One full in-place Gauss-Seidel sweep over the interior cells,
    /// over-relaxing each update; the resulting potential is exactly
    /// the specification-level `sweep` of the previous potential.
    #[verifier::loop_isolation(false)]
    fn sweep_once(&mut self)
        requires
            old(self).wf(),
        ensures
            final(self).wf(),
            final(self).same_geometry(old(self)),
            final(self).spec_charge_density() == old(self).spec_charge_density(),
            final(self).spec_electric_field() == old(self).spec_electric_field(),
            final(self).spec_potential().spec_cells() == old(self).spec_cells(),
            final(self).spec_potential().spec_data() == sweep(
                old(self).solve_cfg(),
                old(self).spec_potential().spec_data(),
            ),
    {
        let ghost cfg = self.solve_cfg();
        let ghost p0 = self.spec_potential().spec_data();
        let nx = self.cells.x;
        let ny = self.cells.y;
        let nz = self.cells.z;

        let mut i: usize = 1;
        while i < nx - 1
            invariant
                self.wf(),
                self.solve_cfg() == cfg,
                self.same_geometry(old(self)),
                self.spec_charge_density() == old(self).spec_charge_density(),
                self.spec_electric_field() == old(self).spec_electric_field(),
                self.spec_potential().spec_cells() == old(self).spec_cells(),
                1 <= i <= nx - 1,
                self.spec_potential().spec_data() == sweep_cube(cfg, p0, i as int),
            decreases nx - 1 - i,
        {
            let ghost p_plane = sweep_cube(cfg, p0, i as int);
            let mut j: usize = 1;
            while j < ny - 1
                invariant
                    self.wf(),
                    self.solve_cfg() == cfg,
                    self.same_geometry(old(self)),
                    self.spec_charge_density() == old(self).spec_charge_density(),
                    self.spec_electric_field() == old(self).spec_electric_field(),
                    self.spec_potential().spec_cells() == old(self).spec_cells(),
                    1 <= j <= ny - 1,
                    self.spec_potential().spec_data() == sweep_plane(
                        cfg,
                        p_plane,
                        i as int,
                        j as int,
                    ),
                decreases ny - 1 - j,
            {
                let ghost p_row = sweep_plane(cfg, p_plane, i as int, j as int);
                let mut k: usize = 1;
                while k < nz - 1
                    invariant
                        self.wf(),
                        self.solve_cfg() == cfg,
                        self.same_geometry(old(self)),
                        self.spec_charge_density() == old(self).spec_charge_density(),
                        self.spec_electric_field() == old(self).spec_electric_field(),
                        self.spec_potential().spec_cells() == old(self).spec_cells(),
                        1 <= k <= nz - 1,
                        self.spec_potential().spec_data() == sweep_row(
                            cfg,
                            p_row,
                            i as int,
                            j as int,
                            k as int,
                        ),
                    decreases nz - 1 - k,
                {
                    let ghost p_cur = self.spec_potential().spec_data();
                    let rho_c = self.charge_density.get(i, j, k);
                    let p_c = self.potential.get(i, j, k);
                    let p_xp = self.potential.get(i + 1, j, k);
                    let p_xm = self.potential.get(i - 1, j, k);
                    let p_yp = self.potential.get(i, j + 1, k);
                    let p_ym = self.potential.get(i, j - 1, k);
                    let p_zp = self.potential.get(i, j, k + 1);
                    let p_zm = self.potential.get(i, j, k - 1);

                    let potential_new = rho_c.mul(self.params.inv_vac_perm).add(
                        self.delta_inv_sq.x.mul(p_xp.add(p_xm)),
                    ).add(self.delta_inv_sq.y.mul(p_yp.sub(p_ym))).add(
                        self.delta_inv_sq.z.mul(p_zp.sub(p_zm)),
                    ).div(
                        T::from_usize(2).mul(
                            self.delta_inv_sq.x.add(self.delta_inv_sq.y).add(self.delta_inv_sq.z),
                        ),
                    );

                    let relaxed_val = p_c.add(self.params.sor_acc.mul(potential_new.sub(p_c)));
                    self.potential.set(i, j, k, relaxed_val);
                    proof {
                        assert(relaxed_val == relaxed(cfg, p_cur, i as int, j as int, k as int));
                        assert(self.spec_potential().spec_data() == after_cell(
                            cfg,
                            p_cur,
                            i as int,
                            j as int,
                            k as int,
                        ));
                        assert(sweep_row(cfg, p_row, i as int, j as int, k + 1) == after_cell(
                            cfg,
                            sweep_row(cfg, p_row, i as int, j as int, k as int),
                            i as int,
                            j as int,
                            k as int,
                        ));
                    }
                    k += 1;
                }
                proof {
                    assert(sweep_plane(cfg, p_plane, i as int, j + 1) == sweep_row(
                        cfg,
                        sweep_plane(cfg, p_plane, i as int, j as int),
                        i as int,
                        j as int,
                        cfg.nz - 1,
                    ));
                }
                j += 1;
            }
            proof {
                assert(sweep_cube(cfg, p0, i + 1) == sweep_plane(
                    cfg,
                    sweep_cube(cfg, p0, i as int),
                    i as int,
                    cfg.ny - 1,
                ));
            }
            i += 1;
        }
        proof {
            assert(sweep(cfg, p0) == sweep_cube(cfg, p0, cfg.nx - 1));
        }
    }

    /// The L2 error norm of the current potential: root of the
    /// interior squared-residual sum over the total cell count.
    #[verifier::loop_isolation(false)]
    fn residual_norm(&self) -> (r: T)
        requires
            self.wf(),
        ensures
            r == l2_norm(self.solve_cfg(), self.spec_potential().spec_data()),
    {
        let ghost cfg = self.solve_cfg();
        let ghost p = self.spec_potential().spec_data();
        let nx = self.cells.x;
        let ny = self.cells.y;
        let nz = self.cells.z;

        let mut res_acc: T = T::zero();
        let mut i: usize = 1;
        while i < nx - 1
            invariant
                1 <= i <= nx - 1,
                res_acc == racc_cube(cfg, p, T::zero_spec(), i as int),
            decreases nx - 1 - i,
        {
            let ghost acc_plane = racc_cube(cfg, p, T::zero_spec(), i as int);
            let mut j: usize = 1;
            while j < ny - 1
                invariant
                    1 <= j <= ny - 1,
                    res_acc == racc_plane(cfg, p, acc_plane, i as int, j as int),
                decreases ny - 1 - j,
            {
                let ghost acc_row = racc_plane(cfg, p, acc_plane, i as int, j as int);
                let mut k: usize = 1;
                while k < nz - 1
                    invariant
                        1 <= k <= nz - 1,
                        res_acc == racc_row(cfg, p, acc_row, i as int, j as int, k as int),
                    decreases nz - 1 - k,
                {
                    let rho_c = self.charge_density.get(i, j, k);
                    let p_c = self.potential.get(i, j, k);
                    let p_xp = self.potential.get(i + 1, j, k);
                    let p_xm = self.potential.get(i - 1, j, k);
                    let p_yp = self.potential.get(i, j + 1, k);
                    let p_ym = self.potential.get(i, j - 1, k);
                    let p_zp = self.potential.get(i, j, k + 1);
                    let p_zm = self.potential.get(i, j, k - 1);

                    let res = T::zero().sub(p_c).mul(T::from_usize(2)).mul(
                        self.delta_inv_sq.x.add(self.delta_inv_sq.y).add(self.delta_inv_sq.z),
                    ).add(rho_c.mul(self.params.inv_vac_perm)).add(
                        self.delta_inv_sq.x.mul(p_xp.add(p_xm)),
                    ).add(self.delta_inv_sq.y.mul(p_yp.sub(p_ym))).add(
                        self.delta_inv_sq.z.mul(p_zp.sub(p_zm)),
                    );

                    res_acc = res_acc.add(res.mul(res));
                    proof {
                        assert(res == res_cell(cfg, p, i as int, j as int, k as int));
                        assert(racc_row(cfg, p, acc_row, i as int, j as int, k + 1) == racc_row(
                            cfg,
                            p,
                            acc_row,
                            i as int,
                            j as int,
                            k as int,
                        ).add_spec(
                            res_cell(cfg, p, i as int, j as int, k as int).mul_spec(
                                res_cell(cfg, p, i as int, j as int, k as int),
                            ),
                        ));
                    }
                    k += 1;
                }
                proof {
                    assert(racc_plane(cfg, p, acc_plane, i as int, j + 1) == racc_row(
                        cfg,
                        p,
                        racc_plane(cfg, p, acc_plane, i as int, j as int),
                        i as int,
                        j as int,
                        cfg.nz - 1,
                    ));
                }
                j += 1;
            }
            proof {
                assert(racc_cube(cfg, p, T::zero_spec(), i + 1) == racc_plane(
                    cfg,
                    p,
                    racc_cube(cfg, p, T::zero_spec(), i as int),
                    i as int,
                    cfg.ny - 1,
                ));
            }
            i += 1;
        }
        proof {
            self.spec_potential().lemma_len_bound();
            assert(nx * ny <= nx * ny * nz) by (nonlinear_arith)
                requires
                    nx >= 0,
                    ny >= 0,
                    nz >= 1,
            {
            }
        }
        let total = nx * ny * nz;
        res_acc.div(T::from_usize(total)).sqrt()
    }

    /// Solves Poisson's equation for the potential in place by
    /// Gauss-Seidel successive over-relaxation, starting from the
    /// current potential (warm start).
    ///
    /// The result is exactly what the specification-level `run_from`
    /// yields from the current state: `Ok` when the residual norm met
    /// the tolerance, and a `NonConvergence` error carrying the
    /// tolerance and the iteration cap when the cap was exhausted
    /// first; either way the potential is left at the last sweep's
    /// state, and nothing else changes.
    pub fn solve_potential(&mut self) -> (r: Result<(), SolveError<T>>)
        requires
            old(self).wf(),
        ensures
            final(self).wf(),
            final(self).same_geometry(old(self)),
            final(self).spec_charge_density() == old(self).spec_charge_density(),
            final(self).spec_electric_field() == old(self).spec_electric_field(),
            final(self).spec_potential().spec_cells() == old(self).spec_cells(),
            ({
                let run = run_from(
                    old(self).solve_cfg(),
                    old(self).spec_params().tolerance,
                    old(self).spec_params().max_iter,
                    old(self).spec_potential().spec_data(),
                    old(self).spec_params().init_err,
                    0,
                );
                &&& final(self).spec_potential().spec_data() == run.1
                &&& (r is Ok <==> run.0)
                &&& (r matches Err(e) ==> e == (SolveError::NonConvergence {
                    tolerance: old(self).spec_params().tolerance,
                    max_iter: old(self).spec_params().max_iter,
                }))
            }),
    {
        let ghost cfg = self.solve_cfg();
        let ghost p0 = self.spec_potential().spec_data();
        let ghost tol_g = self.spec_params().tolerance;
        let ghost max_g = self.spec_params().max_iter;
        let ghost init_g = self.spec_params().init_err;

        let mut loop_ctr: u64 = 0;
        let mut l2_err_norm: T = self.params.init_err;

        loop
            invariant
                self.wf(),
                self.solve_cfg() == cfg,
                self.same_geometry(old(self)),
                self.spec_charge_density() == old(self).spec_charge_density(),
                self.spec_electric_field() == old(self).spec_electric_field(),
                self.spec_potential().spec_cells() == old(self).spec_cells(),
                tol_g == self.spec_params().tolerance,
                max_g == self.spec_params().max_iter,
                cfg == old(self).solve_cfg(),
                p0 == old(self).spec_potential().spec_data(),
                init_g == old(self).spec_params().init_err,
                loop_ctr <= max_g,
                run_from(cfg, tol_g, max_g, p0, init_g, 0) == run_from(
                    cfg,
                    tol_g,
                    max_g,
                    self.spec_potential().spec_data(),
                    l2_err_norm,
                    loop_ctr,
                ),
            ensures
                self.wf(),
                self.same_geometry(old(self)),
                self.spec_charge_density() == old(self).spec_charge_density(),
                self.spec_electric_field() == old(self).spec_electric_field(),
                self.spec_potential().spec_cells() == old(self).spec_cells(),
                cfg == old(self).solve_cfg(),
                p0 == old(self).spec_potential().spec_data(),
                init_g == old(self).spec_params().init_err,
                tol_g == old(self).spec_params().tolerance,
                max_g == old(self).spec_params().max_iter,
                run_from(cfg, tol_g, max_g, p0, init_g, 0) == run_from(
                    cfg,
                    tol_g,
                    max_g,
                    self.spec_potential().spec_data(),
                    l2_err_norm,
                    loop_ctr,
                ),
                !tol_g.lt_spec(l2_err_norm),
            decreases max_g - loop_ctr,
        {
            if !(self.params.tolerance.lt(l2_err_norm)) {
                break;
            }
            let ghost p_prev = self.spec_potential().spec_data();
            let ghost l2_prev = l2_err_norm;
            let ghost ctr_prev = loop_ctr;

            self.sweep_once();

            if loop_ctr % CONV_CHECK_ITER == 0 {
                l2_err_norm = self.residual_norm();
            }

            if loop_ctr == self.params.max_iter {
                proof {
                    assert(run_from(cfg, tol_g, max_g, p_prev, l2_prev, ctr_prev) == (
                        false,
                        self.spec_potential().spec_data(),
                    ));
                }
                return Err(
                    SolveError::NonConvergence {
                        tolerance: self.params.tolerance,
                        max_iter: self.params.max_iter,
                    },
                );
            }
            loop_ctr += 1;
            proof {
                assert(run_from(cfg, tol_g, max_g, p_prev, l2_prev, ctr_prev) == run_from(
                    cfg,
                    tol_g,
                    max_g,
                    self.spec_potential().spec_data(),
                    l2_err_norm,
                    loop_ctr,
                ));
            }
        }
        proof {
            assert(run_from(
                cfg,
                tol_g,
                max_g,
                self.spec_potential().spec_data(),
                l2_err_norm,
                loop_ctr,
            ) == (true, self.spec_potential().spec_data()));
        }
        Ok(())
    }

    /// Differentiates the potential into the electric field: per axis,
    /// the negative gradient by a central difference at interior
    /// indices and one-sided second-order differences at the two
    /// boundary indices.  Overwrites every cell of the field grid;
    /// nothing else changes.
    #[verifier::loop_isolation(false)]
    pub fn solve_electric_field(&mut self) -> (r: Result<(), SolveError<T>>)
        requires
            old(self).wf(),
        ensures
            final(self).wf(),
            final(self).same_geometry(old(self)),
            final(self).spec_charge_density() == old(self).spec_charge_density(),
            final(self).spec_potential() == old(self).spec_potential(),
            final(self).spec_electric_field().spec_cells() == old(self).spec_cells(),
            r is Ok,
            forall|a: int, b: int, d: int| #![auto]
                0 <= a < old(self).spec_cells().x && 0 <= b < old(self).spec_cells().y && 0 <= d
                    < old(self).spec_cells().z ==> final(self).field_done(
                    old(self).field_cfg(),
                    a,
                    b,
                    d,
                ),
    {
        let ghost fcfg = self.field_cfg();
        let nx = self.cells.x;
        let ny = self.cells.y;
        let nz = self.cells.z;

        let n_two_dx_inv = T::zero().sub(T::from_usize(1)).div(
            T::from_usize(2).mul(self.delta.x),
        );
        let n_two_dy_inv = T::zero().sub(T::from_usize(1)).div(
            T::from_usize(2).mul(self.delta.y),
        );
        let n_two_dz_inv = T::zero().sub(T::from_usize(1)).div(
            T::from_usize(2).mul(self.delta.z),
        );

        let mut i: usize = 0;
        while i < nx
            invariant
                self.wf(),
                self.same_geometry(old(self)),
                self.spec_charge_density() == old(self).spec_charge_density(),
                self.spec_potential() == old(self).spec_potential(),
                self.spec_electric_field().spec_cells() == old(self).spec_cells(),
                self.field_cfg() == fcfg,
                i <= nx,
                forall|a: int, b: int, d: int| #![auto]
                    0 <= a < i && 0 <= b < ny && 0 <= d < nz ==> self.field_done(fcfg, a, b, d),
            decreases nx - i,
        {
            let mut j: usize = 0;
            while j < ny
                invariant
                    self.wf(),
                    self.same_geometry(old(self)),
                    self.spec_charge_density() == old(self).spec_charge_density(),
                    self.spec_potential() == old(self).spec_potential(),
                    self.spec_electric_field().spec_cells() == old(self).spec_cells(),
                    self.field_cfg() == fcfg,
                    j <= ny,
                    forall|a: int, b: int, d: int| #![auto]
                        0 <= a < nx && 0 <= b < ny && 0 <= d < nz && (a < i || (a == i && b < j))
                            ==> self.field_done(fcfg, a, b, d),
                decreases ny - j,
            {
                let mut k: usize = 0;
                while k < nz
                    invariant
                        self.wf(),
                        self.same_geometry(old(self)),
                        self.spec_charge_density() == old(self).spec_charge_density(),
                        self.spec_potential() == old(self).spec_potential(),
                        self.spec_electric_field().spec_cells() == old(self).spec_cells(),
                        self.field_cfg() == fcfg,
                        k <= nz,
                        forall|a: int, b: int, d: int| #![auto]
                            0 <= a < nx && 0 <= b < ny && 0 <= d < nz && (a < i || (a == i && (b
                                < j || (b == j && d < k)))) ==> self.field_done(fcfg, a, b, d),
                    decreases nz - k,
                {
                    let ghost pre = *self;

                    let vx = if i != 0 && i != nx - 1 {
                        n_two_dx_inv.mul(
                            self.potential.get(i + 1, j, k).sub(self.potential.get(i - 1, j, k)),
                        )
                    } else if i == 0 {
                        n_two_dx_inv.mul(
                            T::zero().sub(T::from_usize(3)).mul(self.potential.get(i, j, k)).add(
                                T::from_usize(4).mul(self.potential.get(i + 1, j, k)),
                            ).sub(self.potential.get(i + 2, j, k)),
                        )
                    } else {
                        n_two_dx_inv.mul(
                            self.potential.get(i - 2, j, k).sub(
                                T::from_usize(4).mul(self.potential.get(i - 1, j, k)),
                            ).add(T::from_usize(3).mul(self.potential.get(i, j, k))),
                        )
                    };
                    self.electric_field.x.set(i, j, k, vx);

                    let vy = if j != 0 && j != ny - 1 {
                        n_two_dy_inv.mul(
                            self.potential.get(i, j + 1, k).sub(self.potential.get(i, j - 1, k)),
                        )
                    } else if j == 0 {
                        n_two_dy_inv.mul(
                            T::zero().sub(T::from_usize(3)).mul(self.potential.get(i, j, k)).add(
                                T::from_usize(4).mul(self.potential.get(i, j + 1, k)),
                            ).sub(self.potential.get(i, j + 2, k)),
                        )
                    } else {
                        n_two_dy_inv.mul(
                            self.potential.get(i, j - 2, k).sub(
                                T::from_usize(4).mul(self.potential.get(i, j - 1, k)),
                            ).add(T::from_usize(3).mul(self.potential.get(i, j, k))),
                        )
                    };
                    self.electric_field.y.set(i, j, k, vy);

                    let vz = if k != 0 && k != nz - 1 {
                        n_two_dz_inv.mul(
                            self.potential.get(i, j, k + 1).sub(self.potential.get(i, j, k - 1)),
                        )
                    } else if k == 0 {
                        n_two_dz_inv.mul(
                            T::zero().sub(T::from_usize(3)).mul(self.potential.get(i, j, k)).add(
                                T::from_usize(4).mul(self.potential.get(i, j, k + 1)),
                            ).sub(self.potential.get(i, j, k + 2)),
                        )
                    } else {
                        n_two_dz_inv.mul(
                            self.potential.get(i, j, k - 2).sub(
                                T::from_usize(4).mul(self.potential.get(i, j, k - 1)),
                            ).add(T::from_usize(3).mul(self.potential.get(i, j, k))),
                        )
                    };
                    self.electric_field.z.set(i, j, k, vz);

                    proof {
                        crate::scalar_field::lemma_lin_bounds(
                            nx as int,
                            ny as int,
                            nz as int,
                            i as int,
                            j as int,
                            k as int,
                        );
                        assert(vx == ex_at(fcfg, i as int, j as int, k as int));
                        assert(vy == ey_at(fcfg, i as int, j as int, k as int));
                        assert(vz == ez_at(fcfg, i as int, j as int, k as int));
                        assert(self.field_done(fcfg, i as int, j as int, k as int));
                        assert forall|a: int, b: int, d: int|
                            0 <= a < nx && 0 <= b < ny && 0 <= d < nz && (a < i || (a == i && (b
                                < j || (b == j && d < k + 1)))) implies self.field_done(
                            fcfg,
                            a,
                            b,
                            d,
                        ) by {
                            if a == i && b == j && d == k {
                            } else {
                                crate::scalar_field::lemma_lin_bounds(
                                    nx as int,
                                    ny as int,
                                    nz as int,
                                    a,
                                    b,
                                    d,
                                );
                                lemma_lin3_distinct(
                                    nx as int,
                                    ny as int,
                                    a,
                                    b,
                                    d,
                                    i as int,
                                    j as int,
                                    k as int,
                                );
                                assert(pre.field_done(fcfg, a, b, d));
                            }
                        }
                    }
                    k += 1;
                }
                j += 1;
            }
            i += 1;
        }
        Ok(())
    }

    /// One engine step: solves the potential in place, then, if and
    /// only if the solve converged, differentiates it into the
    /// electric field.  On non-convergence the error is propagated,
    /// the potential keeps the last sweep's state and the electric
    /// field is untouched.
    pub fn update(&mut self) -> (r: Result<(), SolveError<T>>)
        requires
            old(self).wf(),
        ensures
            final(self).wf(),
            final(self).same_geometry(old(self)),
            final(self).spec_charge_density() == old(self).spec_charge_density(),
            final(self).spec_potential().spec_cells() == old(self).spec_cells(),
            ({
                let run = run_from(
                    old(self).solve_cfg(),
                    old(self).spec_params().tolerance,
                    old(self).spec_params().max_iter,
                    old(self).spec_potential().spec_data(),
                    old(self).spec_params().init_err,
                    0,
                );
                let post_cfg = (FieldCfg {
                    p: run.1,
                    cx: neg_half_inv(old(self).spec_delta().x),
                    cy: neg_half_inv(old(self).spec_delta().y),
                    cz: neg_half_inv(old(self).spec_delta().z),
                    nx: old(self).spec_cells().x as int,
                    ny: old(self).spec_cells().y as int,
                    nz: old(self).spec_cells().z as int,
                });
                &&& final(self).spec_potential().spec_data() == run.1
                &&& (r is Ok <==> run.0)
                &&& (r matches Err(e) ==> e == (SolveError::NonConvergence {
                    tolerance: old(self).spec_params().tolerance,
                    max_iter: old(self).spec_params().max_iter,
                }))
                &&& (!run.0 ==> final(self).spec_electric_field() == old(
                    self,
                ).spec_electric_field())
                &&& (run.0 ==> final(self).spec_electric_field().spec_cells() == old(
                    self,
                ).spec_cells())
                &&& (run.0 ==> forall|a: int, b: int, d: int| #![auto]
                    0 <= a < old(self).spec_cells().x && 0 <= b < old(self).spec_cells().y && 0
                        <= d < old(self).spec_cells().z ==> final(self).field_done(
                        post_cfg,
                        a,
                        b,
                        d,
                    ))
            }),
    {
        match self.solve_potential() {
            Ok(_) => {},
            Err(e) => {
                return Err(e);
            },
        }
        let ghost mid = *self;
        let r2 = self.solve_electric_field();
        proof {
            let run = run_from(
                old(self).solve_cfg(),
                old(self).spec_params().tolerance,
                old(self).spec_params().max_iter,
                old(self).spec_potential().spec_data(),
                old(self).spec_params().init_err,
                0,
            );
            assert(mid.field_cfg() == (FieldCfg {
                p: run.1,
                cx: neg_half_inv(old(self).spec_delta().x),
                cy: neg_half_inv(old(self).spec_delta().y),
                cz: neg_half_inv(old(self).spec_delta().z),
                nx: old(self).spec_cells().x as int,
                ny: old(self).spec_cells().y as int,
                nz: old(self).spec_cells().z as int,
            }));
        }
        match r2 {
            Ok(_) => Ok(()),
            Err(e) => Err(e),
        }
    }

    /// (m) size of the bounding box.
    pub fn size(&self) -> (r: CoordinateTriplet<T>)
        ensures
            r == self.spec_size(),
    {
        self.size
    }

    /// Number of cells along each axis.
    pub fn cells(&self) -> (r: CoordinateTriplet<usize>)
        ensures
            r == self.spec_cells(),
    {
        self.cells
    }

    /// (m) spatial increment along each axis.
    pub fn delta(&self) -> (r: CoordinateTriplet<T>)
        ensures
            r == self.spec_delta(),
    {
        self.delta
    }

    /// (m^-2) inverse squared spatial increments.
    pub fn delta_inv_sq(&self) -> (r: CoordinateTriplet<T>)
        ensures
            r == self.spec_delta_inv_sq(),
    {
        self.delta_inv_sq
    }

    /// The scalar constants of the relaxation solve.
    pub fn params(&self) -> (r: SorParams<T>)
        ensures
            r == self.spec_params(),
    {
        self.params
    }

    /// (V) the potential grid.
    pub fn potential(&self) -> (r: &ScalarField<T>)
        ensures
            *r == self.spec_potential(),
    {
        &self.potential
    }

    /// (C m^-3) the charge density grid.
    pub fn charge_density(&self) -> (r: &ScalarField<T>)
        ensures
            *r == self.spec_charge_density(),
    {
        &self.charge_density
    }

    /// (V m^-1) the electric field grid.
    pub fn electric_field(&self) -> (r: &VectorField<T>)
        ensures
            *r == self.spec_electric_field(),
    {
        &self.electric_field
    }

    /// (m^3) the cell volume grid.
    pub fn cell_vol(&self) -> (r: &ScalarField<T>)
        ensures
            *r == self.spec_cell_vol(),
    {
        &self.cell_vol
    }

    /// Deposits a charge-density value at cell `(i, j, k)`; this is
    /// the write collaborators perform between updates.
    pub fn set_charge_density(&mut self, i: usize, j: usize, k: usize, value: T)
        requires
            old(self).wf(),
            old(self).spec_charge_density().valid_idx(i as int, j as int, k as int),
        ensures
            final(self).wf(),
            final(self).same_geometry(old(self)),
            final(self).spec_potential() == old(self).spec_potential(),
            final(self).spec_electric_field() == old(self).spec_electric_field(),
            final(self).spec_charge_density().spec_cells() == old(self).spec_cells(),
            final(self).spec_charge_density().spec_data() == old(
                self,
            ).spec_charge_density().spec_data().update(
                old(self).spec_charge_density().lin(i as int, j as int, k as int),
                value,
            ),
    {
        self.charge_density.set(i, j, k, value);
    }

    /// Seeds the potential at cell `(i, j, k)`: the solver warm-starts
    /// from whatever the potential grid holds.
    pub fn set_potential(&mut self, i: usize, j: usize, k: usize, value: T)
        requires
            old(self).wf(),
            old(self).spec_potential().valid_idx(i as int, j as int, k as int),
        ensures
            final(self).wf(),
            final(self).same_geometry(old(self)),
            final(self).spec_charge_density() == old(self).spec_charge_density(),
            final(self).spec_electric_field() == old(self).spec_electric_field(),
            final(self).spec_potential().spec_cells() == old(self).spec_cells(),
            final(self).spec_potential().spec_data() == old(
                self,
            ).spec_potential().spec_data().update(
                old(self).spec_potential().lin(i as int, j as int, k as int),
                value,
            ),
    {
        self.potential.set(i, j, k, value);
    }

    /// Reads the potential at cell `(i, j, k)`.
    pub fn get_potential(&self, i: usize, j: usize, k: usize) -> (r: T)
        requires
            self.wf(),
            self.spec_potential().valid_idx(i as int, j as int, k as int),
        ensures
            r == self.spec_potential().spec_index(i as int, j as int, k as int),
    {
        self.potential.get(i, j, k)
    }

    /// Reads the three electric-field components at cell `(i, j, k)`.
    pub fn get_electric_field(&self, i: usize, j: usize, k: usize) -> (r: CoordinateTriplet<T>)
        requires
            self.wf(),
            self.spec_electric_field().x.valid_idx(i as int, j as int, k as int),
        ensures
            r.x == self.spec_electric_field().x.spec_index(i as int, j as int, k as int),
            r.y == self.spec_electric_field().y.spec_index(i as int, j as int, k as int),
            r.z == self.spec_electric_field().z.spec_index(i as int, j as int, k as int),
    {
        CoordinateTriplet {
            x: self.electric_field.x.get(i, j, k),
            y: self.electric_field.y.get(i, j, k),
            z: self.electric_field.z.get(i, j, k),
        }
    }
}

} // verus!
