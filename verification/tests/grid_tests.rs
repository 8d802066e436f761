//! Grid construction, indexing, iteration, rendering and elementwise
//! arithmetic, exercised through an `f64`-backed scalar newtype and
//! the built-in `u64` scalars.

use picrs::coordinate_triplet::CoordinateTriplet;
use picrs::numeric::Numeric;
use picrs::scalar_field::ScalarField;
use picrs::text::Text;
use picrs::vector_field::VectorField;

/// A 64-bit floating-point grid scalar.
#[derive(Debug, Clone, Copy, PartialEq)]
struct R64(f64);

impl Numeric for R64 {
    fn zero_spec() -> R64 {
        R64(0.0)
    }

    fn add_spec(self, rhs: R64) -> R64 {
        R64(self.0 + rhs.0)
    }

    fn sub_spec(self, rhs: R64) -> R64 {
        R64(self.0 - rhs.0)
    }

    fn mul_spec(self, rhs: R64) -> R64 {
        R64(self.0 * rhs.0)
    }

    fn div_spec(self, rhs: R64) -> R64 {
        R64(self.0 / rhs.0)
    }

    fn zero() -> R64 {
        R64(0.0)
    }

    fn add(self, rhs: R64) -> R64 {
        R64(self.0 + rhs.0)
    }

    fn sub(self, rhs: R64) -> R64 {
        R64(self.0 - rhs.0)
    }

    fn mul(self, rhs: R64) -> R64 {
        R64(self.0 * rhs.0)
    }

    fn div(self, rhs: R64) -> R64 {
        R64(self.0 / rhs.0)
    }
}

impl Text for R64 {
    fn to_text(&self) -> String {
        format!("{}", self.0)
    }
}

/// A scalar grid of the reference test shape.
fn setup() -> ScalarField<R64> {
    let cells = CoordinateTriplet::new(2, 4, 6).unwrap();
    ScalarField::new(&cells).unwrap()
}

/// A vector grid of the reference test shape.
fn setup_vector() -> VectorField<R64> {
    let cells = CoordinateTriplet::new(2, 4, 6).unwrap();
    VectorField::new(&cells).unwrap()
}

#[test]
fn coordinate_triplet_new() {
    let a: CoordinateTriplet<f64> = CoordinateTriplet::new(1.0, 2.0, 3.0).unwrap();
    assert_eq!(CoordinateTriplet { x: 1.0, y: 2.0, z: 3.0 }, a);

    let b: CoordinateTriplet<u64> = CoordinateTriplet::new(1, 2, 3).unwrap();
    assert_eq!(CoordinateTriplet { x: 1, y: 2, z: 3 }, b);
}

#[test]
fn coordinate_triplet_new_success() {
    let a: CoordinateTriplet<f64> = CoordinateTriplet::new(1.0, 2.0, 3.0).unwrap();
    assert_eq!(CoordinateTriplet { x: 1.0, y: 2.0, z: 3.0 }, a);

    let b: CoordinateTriplet<usize> = CoordinateTriplet::new(1, 2, 3).unwrap();
    assert_eq!(CoordinateTriplet { x: 1, y: 2, z: 3 }, b);
}

#[test]
fn coordinate_triplet_render() {
    let b: CoordinateTriplet<u64> = CoordinateTriplet::new(1, 2, 3).unwrap();
    assert_eq!(b.render(), "(1, 2, 3)");

    let c: CoordinateTriplet<u64> = CoordinateTriplet::new(10, 255, 4096).unwrap();
    assert_eq!(c.render(), "(10, 255, 4096)");
}

#[test]
fn scalar_new_success() {
    let cells = CoordinateTriplet::new(2, 4, 6).unwrap();
    let scalar_field_f64: Result<ScalarField<R64>, _> = ScalarField::new(&cells);
    let scalar_field_u64: Result<ScalarField<u64>, _> = ScalarField::new(&cells);

    assert!(scalar_field_f64.is_ok());
    assert!(scalar_field_u64.is_ok())
}

#[test]
fn scalar_new_correct_cells() {
    let scalar_field = setup();

    assert_eq!(scalar_field.cells(), CoordinateTriplet::new(2, 4, 6).unwrap());
}

#[test]
fn new_correct_r_offset() {
    let scalar_field = setup();

    assert_eq!(scalar_field.r_offset(), 2);
}

#[test]
fn new_correct_p_offset() {
    let scalar_field = setup();

    assert_eq!(scalar_field.p_offset(), 8);
}

#[test]
fn new_correct_data() {
    let scalar_field = setup();

    assert_eq!(scalar_field.len(), 48);
    for elem in scalar_field.iter() {
        assert_eq!(elem, R64(0.0));
    }
}

#[test]
fn impl_iter() {
    let scalar_field = setup();

    scalar_field.iter().iter().for_each(|num| {
        assert_eq!(*num, R64(0.0));
    });
}

#[test]
fn impl_iter_mut() {
    let mut scalar_field = setup();

    scalar_field.iter_mut(|num: R64| R64(num.0 + 1.0));
    scalar_field.iter().iter().for_each(|num| assert_eq!(*num, R64(1.0)));
}

#[test]
fn impl_index() {
    let scalar_field = setup();

    assert_eq!(scalar_field.get(0, 0, 0), R64(0.0));
    assert_eq!(scalar_field.get(1, 2, 0), R64(0.0));
    assert_eq!(scalar_field.get(2, 2, 2), R64(0.0));
}

#[test]
fn impl_index_mut() {
    let mut scalar_field = setup();
    scalar_field.set(0, 0, 0, R64(10.0));
    scalar_field.set(1, 2, 0, R64(20.0));
    scalar_field.set(2, 2, 2, R64(30.0));

    assert_eq!(scalar_field.get(0, 0, 0), R64(10.0));
    assert_eq!(scalar_field.get(1, 2, 0), R64(20.0));
    assert_eq!(scalar_field.get(2, 2, 2), R64(30.0));
}

#[test]
fn scalar_impl_display() {
    let scalar_field = setup();

    // this will fail if the textual rendering is missing; the output
    // itself is not worth checking here
    println!("{}", scalar_field.render());
}

#[test]
fn scalar_render_line_format() {
    let cells = CoordinateTriplet::new(1, 1, 2).unwrap();
    let mut g: ScalarField<u64> = ScalarField::new(&cells).unwrap();
    g.set(0, 0, 1, 7);
    assert_eq!(g.render(), "ScalarField(0, 0, 0) = 0\nScalarField(0, 0, 1) = 7\n");
}

#[test]
fn scalar_impl_add_assign_scalar_field() {
    let mut scalar_field1 = setup();
    scalar_field1.add_assign_value(R64(1.0));

    let mut scalar_field2 = setup();
    scalar_field2.add_assign_value(R64(2.0));

    scalar_field1.add_assign_field(&scalar_field2);

    scalar_field1.iter().iter().for_each(|num| assert_eq!(*num, R64(3.0)));
}

#[test]
fn scalar_impl_sub_assign_scalar_field() {
    let mut scalar_field1 = setup();
    scalar_field1.sub_assign_value(R64(1.0));

    let mut scalar_field2 = setup();
    scalar_field2.sub_assign_value(R64(2.0));

    scalar_field1.sub_assign_field(&scalar_field2);

    scalar_field1.iter().iter().for_each(|num| assert_eq!(*num, R64(1.0)));
}

#[test]
fn scalar_impl_mul_assign_scalar_field() {
    let mut scalar_field1 = setup();
    scalar_field1.add_assign_value(R64(1.0));

    let mut scalar_field2 = setup();
    scalar_field2.add_assign_value(R64(2.0));

    scalar_field1.mul_assign_field(&scalar_field2);

    scalar_field1.iter().iter().for_each(|num| assert_eq!(*num, R64(2.0)));
}

#[test]
fn scalar_impl_div_assign_scalar_field() {
    let mut scalar_field1 = setup();
    scalar_field1.add_assign_value(R64(1.0));

    let mut scalar_field2 = setup();
    scalar_field2.add_assign_value(R64(2.0));

    scalar_field1.div_assign_field(&scalar_field2);

    scalar_field1.iter().iter().for_each(|num| assert_eq!(*num, R64(0.5)));
}

#[test]
fn scalar_impl_add_assign_t() {
    let mut scalar_field = setup();
    scalar_field.add_assign_value(R64(1.0));

    scalar_field.iter().iter().for_each(|num| assert_eq!(*num, R64(1.0)));
}

#[test]
fn scalar_impl_sub_assign_t() {
    let mut scalar_field = setup();
    scalar_field.add_assign_value(R64(10.0));
    scalar_field.sub_assign_value(R64(5.0));

    scalar_field.iter().iter().for_each(|num| assert_eq!(*num, R64(5.0)));
}

#[test]
fn scalar_impl_mul_assign_t() {
    let mut scalar_field = setup();
    scalar_field.add_assign_value(R64(10.0));
    scalar_field.mul_assign_value(R64(5.0));

    scalar_field.iter().iter().for_each(|num| assert_eq!(*num, R64(50.0)));
}

#[test]
fn scalar_impl_div_assign_t() {
    let mut scalar_field = setup();
    scalar_field.add_assign_value(R64(10.0));
    scalar_field.div_assign_value(R64(5.0));

    scalar_field.iter().iter().for_each(|num| assert_eq!(*num, R64(2.0)));
}

#[test]
fn vector_new_success() {
    let cells = CoordinateTriplet::new(2, 4, 6).unwrap();
    let vector_field_f64: Result<VectorField<R64>, _> = VectorField::new(&cells);
    let vector_field_u64: Result<VectorField<u64>, _> = VectorField::new(&cells);

    assert!(vector_field_f64.is_ok());
    assert!(vector_field_u64.is_ok())
}

#[test]
fn vector_new_correct_cells() {
    let vector_field = setup_vector();

    assert_eq!(vector_field.cells(), CoordinateTriplet::new(2, 4, 6).unwrap());
}

#[test]
fn new_correct_x() {
    let vector_field = setup_vector();
    let cells = CoordinateTriplet::new(2, 4, 6).unwrap();

    assert_eq!(vector_field.x, ScalarField::new(&cells).unwrap());
}

#[test]
fn new_correct_y() {
    let vector_field = setup_vector();
    let cells = CoordinateTriplet::new(2, 4, 6).unwrap();

    assert_eq!(vector_field.y, ScalarField::new(&cells).unwrap());
}

#[test]
fn new_correct_z() {
    let vector_field = setup_vector();
    let cells = CoordinateTriplet::new(2, 4, 6).unwrap();

    assert_eq!(vector_field.z, ScalarField::new(&cells).unwrap());
}

#[test]
fn vector_impl_display() {
    let vector_field = setup_vector();

    // this will fail if the textual rendering is missing; the output
    // itself is not worth checking here
    println!("{}", vector_field.render());
}

#[test]
fn impl_add_assign_vector_field() {
    let mut vector_field1 = setup_vector();
    vector_field1.add_assign_value(R64(1.0));

    let mut vector_field2 = setup_vector();
    vector_field2.add_assign_value(R64(2.0));

    vector_field1.add_assign_field(&vector_field2);

    vector_field1.x.iter().iter().for_each(|num| assert_eq!(*num, R64(3.0)));
    vector_field1.y.iter().iter().for_each(|num| assert_eq!(*num, R64(3.0)));
    vector_field1.z.iter().iter().for_each(|num| assert_eq!(*num, R64(3.0)));
}

#[test]
fn impl_sub_assign_vector_field() {
    let mut vector_field1 = setup_vector();
    vector_field1.sub_assign_value(R64(1.0));

    let mut vector_field2 = setup_vector();
    vector_field2.sub_assign_value(R64(2.0));

    vector_field1.sub_assign_field(&vector_field2);

    vector_field1.x.iter().iter().for_each(|num| assert_eq!(*num, R64(1.0)));
    vector_field1.y.iter().iter().for_each(|num| assert_eq!(*num, R64(1.0)));
    vector_field1.z.iter().iter().for_each(|num| assert_eq!(*num, R64(1.0)));
}

#[test]
fn impl_mul_assign_vector_field() {
    let mut vector_field1 = setup_vector();
    vector_field1.add_assign_value(R64(1.0));

    let mut vector_field2 = setup_vector();
    vector_field2.add_assign_value(R64(2.0));

    vector_field1.mul_assign_field(&vector_field2);

    vector_field1.x.iter().iter().for_each(|num| assert_eq!(*num, R64(2.0)));
    vector_field1.y.iter().iter().for_each(|num| assert_eq!(*num, R64(2.0)));
    vector_field1.z.iter().iter().for_each(|num| assert_eq!(*num, R64(2.0)));
}

#[test]
fn impl_div_assign_vector_field() {
    let mut vector_field1 = setup_vector();
    vector_field1.add_assign_value(R64(1.0));

    let mut vector_field2 = setup_vector();
    vector_field2.add_assign_value(R64(2.0));

    vector_field1.div_assign_field(&vector_field2);

    vector_field1.x.iter().iter().for_each(|num| assert_eq!(*num, R64(0.5)));
    vector_field1.y.iter().iter().for_each(|num| assert_eq!(*num, R64(0.5)));
    vector_field1.z.iter().iter().for_each(|num| assert_eq!(*num, R64(0.5)));
}

#[test]
fn vector_impl_add_assign_t() {
    let mut vector_field = setup_vector();
    vector_field.add_assign_value(R64(1.0));

    vector_field.x.iter().iter().for_each(|num| assert_eq!(*num, R64(1.0)));
    vector_field.y.iter().iter().for_each(|num| assert_eq!(*num, R64(1.0)));
    vector_field.z.iter().iter().for_each(|num| assert_eq!(*num, R64(1.0)));
}

#[test]
fn vector_impl_sub_assign_t() {
    let mut vector_field = setup_vector();
    vector_field.add_assign_value(R64(10.0));
    vector_field.sub_assign_value(R64(5.0));

    vector_field.x.iter().iter().for_each(|num| assert_eq!(*num, R64(5.0)));
    vector_field.y.iter().iter().for_each(|num| assert_eq!(*num, R64(5.0)));
    vector_field.z.iter().iter().for_each(|num| assert_eq!(*num, R64(5.0)));
}

#[test]
fn vector_impl_mul_assign_t() {
    let mut vector_field = setup_vector();
    vector_field.add_assign_value(R64(10.0));
    vector_field.mul_assign_value(R64(5.0));

    vector_field.x.iter().iter().for_each(|num| assert_eq!(*num, R64(50.0)));
    vector_field.y.iter().iter().for_each(|num| assert_eq!(*num, R64(50.0)));
    vector_field.z.iter().iter().for_each(|num| assert_eq!(*num, R64(50.0)));
}

#[test]
fn vector_impl_div_assign_t() {
    let mut vector_field = setup_vector();
    vector_field.add_assign_value(R64(10.0));
    vector_field.div_assign_value(R64(5.0));

    vector_field.x.iter().iter().for_each(|num| assert_eq!(*num, R64(2.0)));
    vector_field.y.iter().iter().for_each(|num| assert_eq!(*num, R64(2.0)));
    vector_field.z.iter().iter().for_each(|num| assert_eq!(*num, R64(2.0)));
}

#[test]
fn vector_impl_add_assign_scalar_field() {
    let mut vector_field = setup_vector();
    let cells: CoordinateTriplet<usize> = CoordinateTriplet::new(2, 4, 6).unwrap();
    let mut scalar_field: ScalarField<R64> = ScalarField::new(&cells).unwrap();
    vector_field.add_assign_value(R64(1.0));
    scalar_field.add_assign_value(R64(2.0));
    vector_field.add_assign_scalar_field(&scalar_field);

    vector_field.x.iter().iter().for_each(|num| assert_eq!(*num, R64(3.0)));
    vector_field.y.iter().iter().for_each(|num| assert_eq!(*num, R64(3.0)));
    vector_field.z.iter().iter().for_each(|num| assert_eq!(*num, R64(3.0)));
}

#[test]
fn vector_impl_sub_assign_scalar_field() {
    let mut vector_field = setup_vector();
    let cells: CoordinateTriplet<usize> = CoordinateTriplet::new(2, 4, 6).unwrap();
    let mut scalar_field: ScalarField<R64> = ScalarField::new(&cells).unwrap();
    vector_field.sub_assign_value(R64(10.0));
    scalar_field.sub_assign_value(R64(2.0));
    vector_field.sub_assign_scalar_field(&scalar_field);

    vector_field.x.iter().iter().for_each(|num| assert_eq!(*num, R64(-8.0)));
    vector_field.y.iter().iter().for_each(|num| assert_eq!(*num, R64(-8.0)));
    vector_field.z.iter().iter().for_each(|num| assert_eq!(*num, R64(-8.0)));
}

#[test]
fn vector_impl_mul_assign_scalar_field() {
    let mut vector_field = setup_vector();
    let cells: CoordinateTriplet<usize> = CoordinateTriplet::new(2, 4, 6).unwrap();
    let mut scalar_field: ScalarField<R64> = ScalarField::new(&cells).unwrap();
    vector_field.add_assign_value(R64(2.0));
    scalar_field.add_assign_value(R64(10.0));
    vector_field.mul_assign_scalar_field(&scalar_field);

    vector_field.x.iter().iter().for_each(|num| assert_eq!(*num, R64(20.0)));
    vector_field.y.iter().iter().for_each(|num| assert_eq!(*num, R64(20.0)));
    vector_field.z.iter().iter().for_each(|num| assert_eq!(*num, R64(20.0)));
}

#[test]
fn vector_impl_div_assign_scalar_field() {
    let mut vector_field = setup_vector();
    let cells: CoordinateTriplet<usize> = CoordinateTriplet::new(2, 4, 6).unwrap();
    let mut scalar_field: ScalarField<R64> = ScalarField::new(&cells).unwrap();
    vector_field.add_assign_value(R64(10.0));
    scalar_field.add_assign_value(R64(2.0));
    vector_field.div_assign_scalar_field(&scalar_field);

    vector_field.x.iter().iter().for_each(|num| assert_eq!(*num, R64(5.0)));
    vector_field.y.iter().iter().for_each(|num| assert_eq!(*num, R64(5.0)));
    vector_field.z.iter().iter().for_each(|num| assert_eq!(*num, R64(5.0)));
}

#[test]
fn scalar_new_shape_overflow() {
    let cells = CoordinateTriplet::new(usize::MAX, 2, 2).unwrap();
    let r: Result<ScalarField<u64>, _> = ScalarField::new(&cells);
    assert_eq!(r, Err(picrs::error::GridError::ShapeOverflow));
}

#[test]
fn set_get_round_trip_various_shapes() {
    for &(nx, ny, nz) in &[(3usize, 3usize, 3usize), (2, 4, 6), (5, 1, 7)] {
        let cells = CoordinateTriplet::new(nx, ny, nz).unwrap();
        let mut g: ScalarField<u64> = ScalarField::new(&cells).unwrap();
        let (i, j, k) = (nx - 1, ny - 1, nz - 1);
        g.set(i, j, k, 42);
        assert_eq!(g.get(i, j, k), 42);
        g.set(0, 0, 0, 7);
        assert_eq!(g.get(0, 0, 0), 7);
        assert_eq!(g.get(i, j, k), 42);
    }
}

#[test]
fn value_ops_chain_law() {
    // ((v + a) * b - c) / d at every cell, applied in that order
    let mut g = setup();
    g.add_assign_value(R64(2.0));
    g.add_assign_value(R64(1.0));
    g.mul_assign_value(R64(2.0));
    g.sub_assign_value(R64(1.0));
    g.div_assign_value(R64(5.0));
    g.iter().iter().for_each(|num| assert_eq!(*num, R64(((2.0 + 1.0) * 2.0 - 1.0) / 5.0)));
}

#[test]
fn u64_grid_wrapping_arithmetic() {
    let cells = CoordinateTriplet::new(2, 2, 2).unwrap();
    let mut g: ScalarField<u64> = ScalarField::new(&cells).unwrap();
    g.add_assign_value(u64::MAX);
    g.add_assign_value(2);
    // wrapping addition
    g.iter().iter().for_each(|num| assert_eq!(*num, 1));
    // division by zero yields zero, so the operation is total
    g.div_assign_value(0);
    g.iter().iter().for_each(|num| assert_eq!(*num, 0));
}
