//! Laws of the grid operations, stated over the same spec-level views
//! the operation contracts use.

use crate::engine::SolveCfg;
use crate::engine::after_cell;
use crate::engine::cell_new;
use crate::engine::l2_norm;
use crate::engine::racc_cube;
use crate::engine::racc_plane;
use crate::engine::racc_row;
use crate::engine::relaxed;
use crate::engine::res_cell;
use crate::engine::residual_acc;
use crate::engine::run_from;
use crate::engine::sweep;
use crate::engine::sweep_cube;
use crate::engine::sweep_plane;
use crate::engine::sweep_row;
use crate::numeric::Numeric;
use crate::numeric::SolverNumeric;
use crate::scalar_field::ScalarField;
use crate::scalar_field::filled;
use crate::scalar_field::lemma_lin_bounds;
use vstd::prelude::*;

verus! {

/// A solver configuration whose charge density is zero everywhere,
/// over a grid of at least 3 cells per axis whose potential buffer
/// has one element per cell.
pub open spec fn zero_charge_cfg(cfg: SolveCfg<u64>, p: Seq<u64>) -> bool {
    &&& 3 <= cfg.nx
    &&& 3 <= cfg.ny
    &&& 3 <= cfg.nz
    &&& p.len() == cfg.nx * cfg.ny * cfg.nz
    &&& cfg.rho.len() == p.len()
    &&& filled(cfg.rho, 0u64)
    &&& filled(p, 0u64)
}

/// `u64` multiplication and division by or of zero yield zero.
proof fn lemma_u64_zero_ops(x: u64)
    ensures
        x.mul_spec(0u64) == 0u64,
        (0u64).mul_spec(x) == 0u64,
        (0u64).div_spec(x) == 0u64,
        (0u64).add_spec(x) == x,
        x.add_spec(0u64) == x,
        (0u64).sub_spec(0u64) == 0u64,
{
    assert(x as nat * 0 == 0) by (nonlinear_arith);
    assert(0 as nat * (x as nat) == 0) by (nonlinear_arith);
    if x != 0 {
        assert(0u64 / x == 0);
    }
}

/// On a zero grid every interior relaxation update writes zero back.
proof fn lemma_zero_cell(cfg: SolveCfg<u64>, p: Seq<u64>, i: int, j: int, k: int)
    requires
        zero_charge_cfg(cfg, p),
        1 <= i < cfg.nx - 1,
        1 <= j < cfg.ny - 1,
        1 <= k < cfg.nz - 1,
    ensures
        cell_new(cfg, p, i, j, k) == 0u64,
        relaxed(cfg, p, i, j, k) == 0u64,
        filled(after_cell(cfg, p, i, j, k), 0u64),
        after_cell(cfg, p, i, j, k).len() == p.len(),
        res_cell(cfg, p, i, j, k) == 0u64,
{
    lemma_lin_bounds(cfg.nx, cfg.ny, cfg.nz, i, j, k);
    lemma_lin_bounds(cfg.nx, cfg.ny, cfg.nz, i + 1, j, k);
    lemma_lin_bounds(cfg.nx, cfg.ny, cfg.nz, i - 1, j, k);
    lemma_lin_bounds(cfg.nx, cfg.ny, cfg.nz, i, j + 1, k);
    lemma_lin_bounds(cfg.nx, cfg.ny, cfg.nz, i, j - 1, k);
    lemma_lin_bounds(cfg.nx, cfg.ny, cfg.nz, i, j, k + 1);
    lemma_lin_bounds(cfg.nx, cfg.ny, cfg.nz, i, j, k - 1);
    lemma_u64_zero_ops(cfg.inv_perm);
    lemma_u64_zero_ops(cfg.dx2);
    lemma_u64_zero_ops(cfg.dy2);
    lemma_u64_zero_ops(cfg.dz2);
    lemma_u64_zero_ops(cfg.sor);
    lemma_u64_zero_ops((2u64).mul_spec(cfg.dx2.add_spec(cfg.dy2).add_spec(cfg.dz2)));
    assert(cell_new(cfg, p, i, j, k) == 0u64);
    assert(relaxed(cfg, p, i, j, k) == 0u64);
    lemma_u64_zero_ops(2u64);
    lemma_u64_zero_ops(cfg.dx2.add_spec(cfg.dy2).add_spec(cfg.dz2));
    assert(res_cell(cfg, p, i, j, k) == 0u64);
}

/// A row of zero updates keeps the grid zero.
proof fn lemma_zero_sweep_row(cfg: SolveCfg<u64>, p: Seq<u64>, i: int, j: int, kk: int)
    requires
        zero_charge_cfg(cfg, p),
        1 <= i < cfg.nx - 1,
        1 <= j < cfg.ny - 1,
        kk <= cfg.nz - 1,
    ensures
        sweep_row(cfg, p, i, j, kk) == p,
    decreases kk,
{
    if kk <= 1 {
    } else {
        lemma_zero_sweep_row(cfg, p, i, j, kk - 1);
        lemma_zero_cell(cfg, sweep_row(cfg, p, i, j, kk - 1), i, j, kk - 1);
        assert(sweep_row(cfg, p, i, j, kk) =~= p);
    }
}

/// A plane of zero updates keeps the grid zero.
proof fn lemma_zero_sweep_plane(cfg: SolveCfg<u64>, p: Seq<u64>, i: int, jj: int)
    requires
        zero_charge_cfg(cfg, p),
        1 <= i < cfg.nx - 1,
        jj <= cfg.ny - 1,
    ensures
        sweep_plane(cfg, p, i, jj) == p,
    decreases jj,
{
    if jj <= 1 {
    } else {
        lemma_zero_sweep_plane(cfg, p, i, jj - 1);
        lemma_zero_sweep_row(cfg, p, i, jj - 1, cfg.nz - 1);
    }
}

/// A full sweep of zero updates keeps the grid zero.
proof fn lemma_zero_sweep_cube(cfg: SolveCfg<u64>, p: Seq<u64>, ii: int)
    requires
        zero_charge_cfg(cfg, p),
        ii <= cfg.nx - 1,
    ensures
        sweep_cube(cfg, p, ii) == p,
    decreases ii,
{
    if ii <= 1 {
    } else {
        lemma_zero_sweep_cube(cfg, p, ii - 1);
        lemma_zero_sweep_plane(cfg, p, ii - 1, cfg.ny - 1);
    }
}

/// Zero residuals accumulate to the starting value along a row.
proof fn lemma_zero_racc_row(cfg: SolveCfg<u64>, p: Seq<u64>, acc: u64, i: int, j: int, kk: int)
    requires
        zero_charge_cfg(cfg, p),
        1 <= i < cfg.nx - 1,
        1 <= j < cfg.ny - 1,
        kk <= cfg.nz - 1,
    ensures
        racc_row(cfg, p, acc, i, j, kk) == acc,
    decreases kk,
{
    if kk <= 1 {
    } else {
        lemma_zero_racc_row(cfg, p, acc, i, j, kk - 1);
        lemma_zero_cell(cfg, p, i, j, kk - 1);
        lemma_u64_zero_ops(0u64);
    }
}

/// Zero residuals accumulate to the starting value over a plane.
proof fn lemma_zero_racc_plane(cfg: SolveCfg<u64>, p: Seq<u64>, acc: u64, i: int, jj: int)
    requires
        zero_charge_cfg(cfg, p),
        1 <= i < cfg.nx - 1,
        jj <= cfg.ny - 1,
    ensures
        racc_plane(cfg, p, acc, i, jj) == acc,
    decreases jj,
{
    if jj <= 1 {
    } else {
        lemma_zero_racc_plane(cfg, p, acc, i, jj - 1);
        lemma_zero_racc_row(cfg, p, racc_plane(cfg, p, acc, i, jj - 1), i, jj - 1, cfg.nz - 1);
    }
}

/// Zero residuals accumulate to the starting value over the cube.
proof fn lemma_zero_racc_cube(cfg: SolveCfg<u64>, p: Seq<u64>, acc: u64, ii: int)
    requires
        zero_charge_cfg(cfg, p),
        ii <= cfg.nx - 1,
    ensures
        racc_cube(cfg, p, acc, ii) == acc,
    decreases ii,
{
    if ii <= 1 {
    } else {
        lemma_zero_racc_cube(cfg, p, acc, ii - 1);
        lemma_zero_racc_plane(cfg, p, racc_cube(cfg, p, acc, ii - 1), ii - 1, cfg.ny - 1);
    }
}

/// Trivial steady state, for the `u64` scalar instantiation: with zero
/// charge density everywhere and a zero initial potential, the
/// relaxation converges (provided the iteration cap allows at least
/// one sweep), and the final potential is zero everywhere.
pub proof fn lemma_zero_charge_converges(
    cfg: SolveCfg<u64>,
    tol: u64,
    max_iter: u64,
    p: Seq<u64>,
    init: u64,
)
    requires
        zero_charge_cfg(cfg, p),
        max_iter >= 1,
    ensures
        run_from(cfg, tol, max_iter, p, init, 0).0,
        filled(run_from(cfg, tol, max_iter, p, init, 0).1, 0u64),
{
    if !tol.lt_spec(init) {
        assert(run_from(cfg, tol, max_iter, p, init, 0) == (true, p));
    } else {
        lemma_zero_sweep_cube(cfg, p, cfg.nx - 1);
        assert(sweep(cfg, p) == p);
        lemma_zero_racc_cube(cfg, p, 0u64, cfg.nx - 1);
        assert(residual_acc(cfg, p) == 0u64);
        assert(l2_norm(cfg, p) == 0u64) by {
            crate::numeric::lemma_isqrt_bracket(0);
        }
        assert(!tol.lt_spec(0u64));
        assert(run_from(cfg, tol, max_iter, p, 0u64, 1) == (true, p));
        assert(run_from(cfg, tol, max_iter, p, init, 0) == (true, p));
    }
}

/// Index round-trip: writing `value` at cell `(i, j, k)` of a
/// well-formed grid and reading the same cell back yields `value`,
/// for every shape and every in-bounds index.  `h` is the grid `set`
/// leaves behind, as its contract describes it.
pub proof fn lemma_set_get_round_trip<T: Numeric>(
    g: ScalarField<T>,
    h: ScalarField<T>,
    i: int,
    j: int,
    k: int,
    value: T,
)
    requires
        g.wf(),
        g.valid_idx(i, j, k),
        h.spec_cells() == g.spec_cells(),
        h.spec_data() == g.spec_data().update(g.lin(i, j, k), value),
    ensures
        h.spec_index(i, j, k) == value,
{
    lemma_lin_bounds(
        g.spec_cells().x as int,
        g.spec_cells().y as int,
        g.spec_cells().z as int,
        i,
        j,
        k,
    );
    g.lemma_len_bound();
}

/// Elementwise arithmetic law, order-sensitive: starting from a grid
/// filled with `v` and applying `+= a`, `*= b`, `-= c`, `/= d` in that
/// order yields `((v + a) * b - c) / d` at every cell.  The sequences
/// are the grid contents after each step, as the broadcast-operator
/// contracts describe them.
pub proof fn lemma_value_ops_on_constant<T: Numeric>(
    s0: Seq<T>,
    s1: Seq<T>,
    s2: Seq<T>,
    s3: Seq<T>,
    s4: Seq<T>,
    v: T,
    a: T,
    b: T,
    c: T,
    d: T,
)
    requires
        filled(s0, v),
        s1.len() == s0.len(),
        forall|m: int| 0 <= m < s0.len() ==> s1[m] == s0[m].add_spec(a),
        s2.len() == s1.len(),
        forall|m: int| 0 <= m < s1.len() ==> s2[m] == s1[m].mul_spec(b),
        s3.len() == s2.len(),
        forall|m: int| 0 <= m < s2.len() ==> s3[m] == s2[m].sub_spec(c),
        s4.len() == s3.len(),
        forall|m: int| 0 <= m < s3.len() ==> s4[m] == s3[m].div_spec(d),
    ensures
        filled(s4, v.add_spec(a).mul_spec(b).sub_spec(c).div_spec(d)),
{
}

/// Pointwise law of grid-grid addition: on two constant-filled grids
/// of one shape it yields the constant `v1 + v2` everywhere.  `out`
/// is the left grid's contents after the operation, as the operator's
/// contract describes them.
pub proof fn lemma_field_add_on_constants<T: Numeric>(
    s1: Seq<T>,
    s2: Seq<T>,
    out: Seq<T>,
    v1: T,
    v2: T,
)
    requires
        filled(s1, v1),
        filled(s2, v2),
        s2.len() == s1.len(),
        out.len() == s1.len(),
        forall|m: int| 0 <= m < s1.len() ==> out[m] == s1[m].add_spec(s2[m]),
    ensures
        filled(out, v1.add_spec(v2)),
{
}

/// Pointwise law of grid-grid subtraction on constant-filled grids.
pub proof fn lemma_field_sub_on_constants<T: Numeric>(
    s1: Seq<T>,
    s2: Seq<T>,
    out: Seq<T>,
    v1: T,
    v2: T,
)
    requires
        filled(s1, v1),
        filled(s2, v2),
        s2.len() == s1.len(),
        out.len() == s1.len(),
        forall|m: int| 0 <= m < s1.len() ==> out[m] == s1[m].sub_spec(s2[m]),
    ensures
        filled(out, v1.sub_spec(v2)),
{
}

/// Pointwise law of grid-grid multiplication on constant-filled grids.
pub proof fn lemma_field_mul_on_constants<T: Numeric>(
    s1: Seq<T>,
    s2: Seq<T>,
    out: Seq<T>,
    v1: T,
    v2: T,
)
    requires
        filled(s1, v1),
        filled(s2, v2),
        s2.len() == s1.len(),
        out.len() == s1.len(),
        forall|m: int| 0 <= m < s1.len() ==> out[m] == s1[m].mul_spec(s2[m]),
    ensures
        filled(out, v1.mul_spec(v2)),
{
}

/// Pointwise law of grid-grid division on constant-filled grids.
pub proof fn lemma_field_div_on_constants<T: Numeric>(
    s1: Seq<T>,
    s2: Seq<T>,
    out: Seq<T>,
    v1: T,
    v2: T,
)
    requires
        filled(s1, v1),
        filled(s2, v2),
        s2.len() == s1.len(),
        out.len() == s1.len(),
        forall|m: int| 0 <= m < s1.len() ==> out[m] == s1[m].div_spec(s2[m]),
    ensures
        filled(out, v1.div_spec(v2)),
{
}

} // verus!
