//! Engine construction and solve behaviour, exercised through an
//! `f64`-backed scalar newtype and through the built-in `u64` scalars.

use picrs::coordinate_triplet::CoordinateTriplet;
use picrs::engine::Electrostatic;
use picrs::engine::SorParams;
use picrs::error::SolveError;
use picrs::numeric::Numeric;
use picrs::numeric::SolverNumeric;
use picrs::scalar_field::ScalarField;
use picrs::vector_field::VectorField;

/// A 64-bit floating-point grid scalar.
#[derive(Debug, Clone, Copy, PartialEq)]
struct R64(f64);

impl Numeric for R64 {
    fn zero_spec() -> R64 {
        R64(0.0)
    }

    fn add_spec(self, rhs: R64) -> R64 {
        R64(self.0 + rhs.0)
    }

    fn sub_spec(self, rhs: R64) -> R64 {
        R64(self.0 - rhs.0)
    }

    fn mul_spec(self, rhs: R64) -> R64 {
        R64(self.0 * rhs.0)
    }

    fn div_spec(self, rhs: R64) -> R64 {
        R64(self.0 / rhs.0)
    }

    fn zero() -> R64 {
        R64(0.0)
    }

    fn add(self, rhs: R64) -> R64 {
        R64(self.0 + rhs.0)
    }

    fn sub(self, rhs: R64) -> R64 {
        R64(self.0 - rhs.0)
    }

    fn mul(self, rhs: R64) -> R64 {
        R64(self.0 * rhs.0)
    }

    fn div(self, rhs: R64) -> R64 {
        R64(self.0 / rhs.0)
    }
}

impl SolverNumeric for R64 {
    fn from_usize_spec(n: usize) -> R64 {
        R64(n as f64)
    }

    fn sqrt_spec(self) -> R64 {
        R64(self.0.sqrt())
    }

    fn lt_spec(self, rhs: R64) -> bool {
        self.0 < rhs.0
    }

    fn from_usize(n: usize) -> R64 {
        R64(n as f64)
    }

    fn sqrt(self) -> R64 {
        R64(self.0.sqrt())
    }

    fn lt(self, rhs: R64) -> bool {
        self.0 < rhs.0
    }
}

/// (F m^-1) vacuum permittivity.
const VAC_PERM: f64 = 8.8541878188e-12;

/// The solver constants of the reference configuration.
fn params() -> SorParams<R64> {
    SorParams {
        sor_acc: R64(1.4),
        tolerance: R64(1e-5),
        init_err: R64(f64::MAX),
        inv_vac_perm: R64(1.0 / VAC_PERM),
        max_iter: 10000,
    }
}

fn setup() -> Result<Electrostatic<R64>, SolveError<R64>> {
    let size: [R64; 3] = [R64(1.0), R64(2.0), R64(3.0)];
    let cells: [usize; 3] = [3, 11, 31];
    Electrostatic::new(&size, &cells, params())
}

#[test]
fn mod_new_success() {
    assert!(setup().is_ok());
}

#[test]
fn mod_new_correct_size() {
    let electrostatic = setup().unwrap();

    assert_eq!(electrostatic.size().x, R64(1.0));
    assert_eq!(electrostatic.size().y, R64(2.0));
    assert_eq!(electrostatic.size().z, R64(3.0));
}

#[test]
fn mod_new_correct_cells() {
    let electrostatic = setup().unwrap();

    assert_eq!(electrostatic.cells().x, 3);
    assert_eq!(electrostatic.cells().y, 11);
    assert_eq!(electrostatic.cells().z, 31);
}

#[test]
fn mod_new_correct_delta() {
    let electrostatic = setup().unwrap();

    assert_eq!(electrostatic.delta().x, R64(0.5));
    assert_eq!(electrostatic.delta().y, R64(0.2));
    assert_eq!(electrostatic.delta().z, R64(0.1));
}

#[test]
fn mod_new_correct_potential() {
    let electrostatic = setup().unwrap();
    let cells = CoordinateTriplet::new(3, 11, 31).unwrap();

    assert_eq!(*electrostatic.potential(), ScalarField::new(&cells).unwrap());
}

#[test]
fn mod_new_correct_charge_density() {
    let electrostatic = setup().unwrap();
    let cells = CoordinateTriplet::new(3, 11, 31).unwrap();

    assert_eq!(*electrostatic.charge_density(), ScalarField::new(&cells).unwrap());
}

#[test]
fn mod_new_correct_electric_field() {
    let electrostatic = setup().unwrap();
    let cells = CoordinateTriplet::new(3, 11, 31).unwrap();

    assert_eq!(*electrostatic.electric_field(), VectorField::new(&cells).unwrap());
}

#[test]
fn mod_new_correct_cell_vol() {
    let electrostatic = setup().unwrap();
    let cells = CoordinateTriplet::new(3, 11, 31).unwrap();

    assert_eq!(*electrostatic.cell_vol(), ScalarField::new(&cells).unwrap());
}

#[test]
fn mod_new_correct_delta_inv_sq() {
    let electrostatic = setup().unwrap();

    let delta = electrostatic.delta();
    assert_eq!(electrostatic.delta_inv_sq().x, R64(1.0 / (delta.x.0 * delta.x.0)));
    assert_eq!(electrostatic.delta_inv_sq().y, R64(1.0 / (delta.y.0 * delta.y.0)));
    assert_eq!(electrostatic.delta_inv_sq().z, R64(1.0 / (delta.z.0 * delta.z.0)));
}

#[test]
fn concrete_scenario_delta_inv_sq_values() {
    let electrostatic = setup().unwrap();

    let dis = electrostatic.delta_inv_sq();
    assert_eq!(dis.x, R64(4.0));
    assert!((dis.y.0 - 25.0).abs() < 1e-9);
    assert!((dis.z.0 - 100.0).abs() < 1e-9);
}

#[test]
fn new_degenerate_cells_rejected() {
    let size: [R64; 3] = [R64(1.0), R64(1.0), R64(1.0)];
    let cells: [usize; 3] = [2, 5, 5];
    let r = Electrostatic::new(&size, &cells, params());
    assert_eq!(r, Err(SolveError::DegenerateCells));
}

#[test]
fn new_shape_overflow_rejected() {
    let size: [R64; 3] = [R64(1.0), R64(1.0), R64(1.0)];
    let cells: [usize; 3] = [usize::MAX, 3, 3];
    let r = Electrostatic::new(&size, &cells, params());
    assert_eq!(r, Err(SolveError::ShapeOverflow));
}

#[test]
fn zero_charge_zero_potential_converges() {
    let size: [R64; 3] = [R64(1.0), R64(1.0), R64(1.0)];
    let cells: [usize; 3] = [10, 10, 10];
    let mut engine = Electrostatic::new(&size, &cells, params()).unwrap();

    assert!(engine.update().is_ok());
    for i in 0..10 {
        for j in 0..10 {
            for k in 0..10 {
                assert_eq!(engine.get_potential(i, j, k), R64(0.0));
            }
        }
    }
}

#[test]
fn unreachable_tolerance_fails_at_cap() {
    let size: [R64; 3] = [R64(1.0), R64(1.0), R64(1.0)];
    let cells: [usize; 3] = [4, 4, 4];
    let mut p = params();
    p.tolerance = R64(-1.0);
    p.max_iter = 50;
    let mut engine = Electrostatic::new(&size, &cells, p).unwrap();
    engine.set_charge_density(2, 2, 2, R64(1e-8));

    let r = engine.update();
    assert_eq!(r, Err(SolveError::NonConvergence { tolerance: R64(-1.0), max_iter: 50 }));
}

#[test]
fn linear_profile_exact_gradient() {
    let size: [R64; 3] = [R64(1.0), R64(1.0), R64(1.0)];
    let cells: [usize; 3] = [3, 3, 3];
    let mut engine = Electrostatic::new(&size, &cells, params()).unwrap();

    // potential linear along x (slope 1 per cell, spacing 0.5),
    // constant along y and z
    for i in 0..3 {
        for j in 0..3 {
            for k in 0..3 {
                engine.set_potential(i, j, k, R64(i as f64));
            }
        }
    }
    assert!(engine.solve_electric_field().is_ok());

    // E = -dP/dx = -(1.0 / 0.5) = -2 exactly, under the central and
    // both one-sided stencils; the y and z derivatives are exactly 0
    for i in 0..3 {
        for j in 0..3 {
            for k in 0..3 {
                let e = engine.get_electric_field(i, j, k);
                assert_eq!(e.x, R64(-2.0));
                assert_eq!(e.y, R64(0.0));
                assert_eq!(e.z, R64(0.0));
            }
        }
    }
}

#[test]
fn warm_start_keeps_potential_across_updates() {
    // an unreachable tolerance and a cap of zero make every update
    // run exactly one sweep and report non-convergence, leaving the
    // partially relaxed potential in place (not rolled back)
    let size: [R64; 3] = [R64(1.0), R64(1.0), R64(1.0)];
    let cells: [usize; 3] = [5, 5, 5];
    let mut p = params();
    p.tolerance = R64(-1.0);
    p.max_iter = 0;
    let mut engine = Electrostatic::new(&size, &cells, p).unwrap();
    engine.set_potential(2, 2, 2, R64(1.0));

    assert!(engine.update().is_err());
    let after_first = engine.get_potential(2, 2, 2);
    assert!(engine.update().is_err());
    let after_second = engine.get_potential(2, 2, 2);
    // the first sweep relaxes the seeded cell; the second update
    // starts from that state rather than from the seed (or from
    // zero), so the cell moves again
    assert_ne!(after_first, R64(1.0));
    assert_ne!(after_second, after_first);
    assert_ne!(after_second, R64(0.0));
}

#[test]
fn integer_engine_trivial_solve() {
    let size: [u64; 3] = [10, 10, 10];
    let cells: [usize; 3] = [3, 3, 3];
    let p: SorParams<u64> = SorParams {
        sor_acc: 1,
        tolerance: 0,
        init_err: u64::MAX,
        inv_vac_perm: 1,
        max_iter: 10,
    };
    let mut engine = Electrostatic::new(&size, &cells, p).unwrap();
    assert!(engine.update().is_ok());
    assert_eq!(engine.get_potential(1, 1, 1), 0);
}

#[test]
fn u64_sqrt_is_integer_square_root() {
    assert_eq!(0u64.sqrt(), 0);
    assert_eq!(1u64.sqrt(), 1);
    assert_eq!(10u64.sqrt(), 3);
    assert_eq!(16u64.sqrt(), 4);
    assert_eq!(u64::MAX.sqrt(), 0xFFFF_FFFF);
}
