//! A 3-D vector grid composed of three scalar grids of one shape.

use crate::coordinate_triplet::CoordinateTriplet;
use crate::error::GridError;
use crate::numeric::Numeric;
use crate::scalar_field::ScalarField;
use crate::scalar_field::filled;
use crate::text::Text;
use crate::text::dec_digits;
use crate::text::usize_to_string;
use vstd::prelude::*;
use vstd::string::*;

verus! {

/// A vector field: three scalar component grids of identical shape,
/// one per axis.  A cell's vector value is the triplet of same-index
/// samples from the three component grids.
#[derive(Debug, PartialEq)]
pub struct VectorField<T> {
    /// number of cells along each axis
    pub cells: CoordinateTriplet<usize>,

    /// x component of the field
    pub x: ScalarField<T>,

    /// y component of the field
    pub y: ScalarField<T>,

    /// z component of the field
    pub z: ScalarField<T>,
}

impl<T> VectorField<T> {
    /// The grid shape.
    pub open spec fn spec_cells(&self) -> CoordinateTriplet<usize> {
        self.cells
    }

    /// Well-formed: all three component grids are well formed and
    /// share this field's shape.
    pub open spec fn wf(&self) -> bool {
        &&& self.x.wf()
        &&& self.y.wf()
        &&& self.z.wf()
        &&& self.x.spec_cells() == self.spec_cells()
        &&& self.y.spec_cells() == self.spec_cells()
        &&& self.z.spec_cells() == self.spec_cells()
    }
}

/// One line of the vector dump: `VectorField(i, j, k) = [x, y, z]`.
pub open spec fn vector_line<T: Text>(i: int, j: int, k: int, vx: T, vy: T, vz: T) -> Seq<
    char,
> {
    "VectorField("@ + dec_digits(i as nat) + ", "@ + dec_digits(j as nat) + ", "@ + dec_digits(
        k as nat,
    ) + ") = ["@ + vx.text_spec() + ", "@ + vy.text_spec() + ", "@ + vz.text_spec() + "]\n"@
}

impl<T: Text> VectorField<T> {
    /// The dump line of cell `(i, j, k)`.
    pub open spec fn render_cell(&self, i: int, j: int, k: int) -> Seq<char> {
        vector_line(
            i,
            j,
            k,
            self.x.spec_index(i, j, k),
            self.y.spec_index(i, j, k),
            self.z.spec_index(i, j, k),
        )
    }

    /// The dump lines of cells `(i, j, 0) .. (i, j, kk - 1)`.
    pub open spec fn render_row(&self, i: int, j: int, kk: int) -> Seq<char>
        decreases kk,
    {
        if kk <= 0 {
            Seq::empty()
        } else {
            self.render_row(i, j, kk - 1) + self.render_cell(i, j, kk - 1)
        }
    }

    /// The dump lines of rows `(i, 0) .. (i, jj - 1)`.
    pub open spec fn render_plane(&self, i: int, jj: int) -> Seq<char>
        decreases jj,
    {
        if jj <= 0 {
            Seq::empty()
        } else {
            self.render_plane(i, jj - 1) + self.render_row(i, jj - 1, self.spec_cells().z as int)
        }
    }

    /// The dump lines of planes `0 .. ii - 1`.
    pub open spec fn render_cube(&self, ii: int) -> Seq<char>
        decreases ii,
    {
        if ii <= 0 {
            Seq::empty()
        } else {
            self.render_cube(ii - 1) + self.render_plane(ii - 1, self.spec_cells().y as int)
        }
    }

    /// The full textual dump: one line per cell, i outermost, j
    /// middle, k innermost.
    pub open spec fn render_spec(&self) -> Seq<char> {
        self.render_cube(self.spec_cells().x as int)
    }
}

impl<T: Numeric + Text> VectorField<T> {
    /// The dump line of cell `(i, j, k)` as a string.
    #[verifier::rlimit(60)]
    fn cell_text(&self, i: usize, j: usize, k: usize) -> (r: String)
        requires
            self.wf(),
            self.x.valid_idx(i as int, j as int, k as int),
        ensures
            r@ == self.render_cell(i as int, j as int, k as int),
    {
        let mut line = String::new();
        line.append("VectorField(");
        let si = usize_to_string(i);
        line.append(si.as_str());
        line.append(", ");
        let sj = usize_to_string(j);
        line.append(sj.as_str());
        line.append(", ");
        let sk = usize_to_string(k);
        line.append(sk.as_str());
        line.append(") = [");
        let tx = self.x.get(i, j, k).to_text();
        line.append(tx.as_str());
        line.append(", ");
        let ty = self.y.get(i, j, k).to_text();
        line.append(ty.as_str());
        line.append(", ");
        let tz = self.z.get(i, j, k).to_text();
        line.append(tz.as_str());
        line.append("]\n");
        proof {
            assert(line@ =~= self.render_cell(i as int, j as int, k as int));
        }
        line
    }

    /// Writes the field in a text format: one
    /// `VectorField(i, j, k) = [x, y, z]` line per cell, iterating i
    /// outermost, j middle, k innermost.
    #[verifier::loop_isolation(false)]
    pub fn render(&self) -> (r: String)
        requires
            self.wf(),
        ensures
            r@ == self.render_spec(),
    {
        let mut out = String::new();
        let nx = self.cells.x;
        let ny = self.cells.y;
        let nz = self.cells.z;
        let mut i: usize = 0;
        while i < nx
            invariant
                i <= nx,
                out@ == self.render_cube(i as int),
            decreases nx - i,
        {
            let mut j: usize = 0;
            while j < ny
                invariant
                    j <= ny,
                    out@ == self.render_cube(i as int) + self.render_plane(i as int, j as int),
                decreases ny - j,
            {
                let mut k: usize = 0;
                proof {
                    assert(out@ =~= self.render_cube(i as int) + self.render_plane(
                        i as int,
                        j as int,
                    ) + self.render_row(i as int, j as int, 0));
                }
                while k < nz
                    invariant
                        k <= nz,
                        out@ == self.render_cube(i as int) + self.render_plane(i as int, j as int)
                            + self.render_row(i as int, j as int, k as int),
                    decreases nz - k,
                {
                    let ghost pre = out@;
                    let line = self.cell_text(i, j, k);
                    out.append(line.as_str());
                    proof {
                        assert(self.render_row(i as int, j as int, k + 1) == self.render_row(
                            i as int,
                            j as int,
                            k as int,
                        ) + self.render_cell(i as int, j as int, k as int));
                        assert(out@ =~= self.render_cube(i as int) + self.render_plane(
                            i as int,
                            j as int,
                        ) + self.render_row(i as int, j as int, k + 1));
                    }
                    k += 1;
                }
                proof {
                    assert(self.render_plane(i as int, j + 1) == self.render_plane(
                        i as int,
                        j as int,
                    ) + self.render_row(i as int, j as int, self.spec_cells().z as int));
                    assert(out@ =~= self.render_cube(i as int) + self.render_plane(
                        i as int,
                        j + 1,
                    ));
                }
                j += 1;
            }
            proof {
                assert(self.render_cube(i + 1) == self.render_cube(i as int) + self.render_plane(
                    i as int,
                    self.spec_cells().y as int,
                ));
                assert(out@ =~= self.render_cube(i + 1));
            }
            i += 1;
        }
        out
    }
}

impl<T: Numeric> VectorField<T> {
    /// Allocates a vector grid of the given shape with all three
    /// components zero-filled.
    ///
    /// Fails exactly when a scalar grid of that shape cannot be
    /// allocated.
    pub fn new(cells: &CoordinateTriplet<usize>) -> (r: Result<VectorField<T>, GridError>)
        ensures
            r is Ok <==> cells.x * cells.y <= usize::MAX && cells.x * cells.y * cells.z
                <= usize::MAX,
            r matches Ok(g) ==> {
                &&& g.wf()
                &&& g.spec_cells() == *cells
                &&& filled(g.x.spec_data(), T::zero_spec())
                &&& filled(g.y.spec_data(), T::zero_spec())
                &&& filled(g.z.spec_data(), T::zero_spec())
            },
            r matches Err(e) ==> e == GridError::ShapeOverflow,
    {
        let x = match ScalarField::<T>::new(cells) {
            Ok(g) => g,
            Err(e) => {
                return Err(e);
            },
        };
        let y = match ScalarField::<T>::new(cells) {
            Ok(g) => g,
            Err(e) => {
                return Err(e);
            },
        };
        let z = match ScalarField::<T>::new(cells) {
            Ok(g) => g,
            Err(e) => {
                return Err(e);
            },
        };
        Ok(VectorField { cells: *cells, x, y, z })
    }

    /// The grid shape.
    pub fn cells(&self) -> (r: CoordinateTriplet<usize>)
        ensures
            r == self.spec_cells(),
    {
        self.cells
    }

    /// Componentwise `self[q] += rhs[q]` over vector grids of one shape.
    pub fn add_assign_field(&mut self, rhs: &VectorField<T>)
        requires
            old(self).wf(),
            rhs.wf(),
            rhs.spec_cells() == old(self).spec_cells(),
        ensures
            final(self).wf(),
            final(self).spec_cells() == old(self).spec_cells(),
            forall|m: int| 0 <= m < old(self).x.spec_data().len() ==> final(self).x.spec_data()[m]
                == old(self).x.spec_data()[m].add_spec(rhs.x.spec_data()[m]),
            forall|m: int| 0 <= m < old(self).y.spec_data().len() ==> final(self).y.spec_data()[m]
                == old(self).y.spec_data()[m].add_spec(rhs.y.spec_data()[m]),
            forall|m: int| 0 <= m < old(self).z.spec_data().len() ==> final(self).z.spec_data()[m]
                == old(self).z.spec_data()[m].add_spec(rhs.z.spec_data()[m]),
    {
        self.x.add_assign_field(&rhs.x);
        self.y.add_assign_field(&rhs.y);
        self.z.add_assign_field(&rhs.z);
    }

    /// Componentwise `self[q] -= rhs[q]` over vector grids of one shape.
    pub fn sub_assign_field(&mut self, rhs: &VectorField<T>)
        requires
            old(self).wf(),
            rhs.wf(),
            rhs.spec_cells() == old(self).spec_cells(),
        ensures
            final(self).wf(),
            final(self).spec_cells() == old(self).spec_cells(),
            forall|m: int| 0 <= m < old(self).x.spec_data().len() ==> final(self).x.spec_data()[m]
                == old(self).x.spec_data()[m].sub_spec(rhs.x.spec_data()[m]),
            forall|m: int| 0 <= m < old(self).y.spec_data().len() ==> final(self).y.spec_data()[m]
                == old(self).y.spec_data()[m].sub_spec(rhs.y.spec_data()[m]),
            forall|m: int| 0 <= m < old(self).z.spec_data().len() ==> final(self).z.spec_data()[m]
                == old(self).z.spec_data()[m].sub_spec(rhs.z.spec_data()[m]),
    {
        self.x.sub_assign_field(&rhs.x);
        self.y.sub_assign_field(&rhs.y);
        self.z.sub_assign_field(&rhs.z);
    }

    /// Componentwise `self[q] *= rhs[q]` over vector grids of one shape.
    pub fn mul_assign_field(&mut self, rhs: &VectorField<T>)
        requires
            old(self).wf(),
            rhs.wf(),
            rhs.spec_cells() == old(self).spec_cells(),
        ensures
            final(self).wf(),
            final(self).spec_cells() == old(self).spec_cells(),
            forall|m: int| 0 <= m < old(self).x.spec_data().len() ==> final(self).x.spec_data()[m]
                == old(self).x.spec_data()[m].mul_spec(rhs.x.spec_data()[m]),
            forall|m: int| 0 <= m < old(self).y.spec_data().len() ==> final(self).y.spec_data()[m]
                == old(self).y.spec_data()[m].mul_spec(rhs.y.spec_data()[m]),
            forall|m: int| 0 <= m < old(self).z.spec_data().len() ==> final(self).z.spec_data()[m]
                == old(self).z.spec_data()[m].mul_spec(rhs.z.spec_data()[m]),
    {
        self.x.mul_assign_field(&rhs.x);
        self.y.mul_assign_field(&rhs.y);
        self.z.mul_assign_field(&rhs.z);
    }

    /// Componentwise `self[q] /= rhs[q]` over vector grids of one shape.
    pub fn div_assign_field(&mut self, rhs: &VectorField<T>)
        requires
            old(self).wf(),
            rhs.wf(),
            rhs.spec_cells() == old(self).spec_cells(),
        ensures
            final(self).wf(),
            final(self).spec_cells() == old(self).spec_cells(),
            forall|m: int| 0 <= m < old(self).x.spec_data().len() ==> final(self).x.spec_data()[m]
                == old(self).x.spec_data()[m].div_spec(rhs.x.spec_data()[m]),
            forall|m: int| 0 <= m < old(self).y.spec_data().len() ==> final(self).y.spec_data()[m]
                == old(self).y.spec_data()[m].div_spec(rhs.y.spec_data()[m]),
            forall|m: int| 0 <= m < old(self).z.spec_data().len() ==> final(self).z.spec_data()[m]
                == old(self).z.spec_data()[m].div_spec(rhs.z.spec_data()[m]),
    {
        self.x.div_assign_field(&rhs.x);
        self.y.div_assign_field(&rhs.y);
        self.z.div_assign_field(&rhs.z);
    }

    /// Broadcast `self[q] += rhs` over every cell of every component.
    pub fn add_assign_value(&mut self, rhs: T)
        requires
            old(self).wf(),
        ensures
            final(self).wf(),
            final(self).spec_cells() == old(self).spec_cells(),
            forall|m: int| 0 <= m < old(self).x.spec_data().len() ==> final(self).x.spec_data()[m]
                == old(self).x.spec_data()[m].add_spec(rhs),
            forall|m: int| 0 <= m < old(self).y.spec_data().len() ==> final(self).y.spec_data()[m]
                == old(self).y.spec_data()[m].add_spec(rhs),
            forall|m: int| 0 <= m < old(self).z.spec_data().len() ==> final(self).z.spec_data()[m]
                == old(self).z.spec_data()[m].add_spec(rhs),
    {
        self.x.add_assign_value(rhs);
        self.y.add_assign_value(rhs);
        self.z.add_assign_value(rhs);
    }

    /// Broadcast `self[q] -= rhs` over every cell of every component.
    pub fn sub_assign_value(&mut self, rhs: T)
        requires
            old(self).wf(),
        ensures
            final(self).wf(),
            final(self).spec_cells() == old(self).spec_cells(),
            forall|m: int| 0 <= m < old(self).x.spec_data().len() ==> final(self).x.spec_data()[m]
                == old(self).x.spec_data()[m].sub_spec(rhs),
            forall|m: int| 0 <= m < old(self).y.spec_data().len() ==> final(self).y.spec_data()[m]
                == old(self).y.spec_data()[m].sub_spec(rhs),
            forall|m: int| 0 <= m < old(self).z.spec_data().len() ==> final(self).z.spec_data()[m]
                == old(self).z.spec_data()[m].sub_spec(rhs),
    {
        self.x.sub_assign_value(rhs);
        self.y.sub_assign_value(rhs);
        self.z.sub_assign_value(rhs);
    }

    /// Broadcast `self[q] *= rhs` over every cell of every component.
    pub fn mul_assign_value(&mut self, rhs: T)
        requires
            old(self).wf(),
        ensures
            final(self).wf(),
            final(self).spec_cells() == old(self).spec_cells(),
            forall|m: int| 0 <= m < old(self).x.spec_data().len() ==> final(self).x.spec_data()[m]
                == old(self).x.spec_data()[m].mul_spec(rhs),
            forall|m: int| 0 <= m < old(self).y.spec_data().len() ==> final(self).y.spec_data()[m]
                == old(self).y.spec_data()[m].mul_spec(rhs),
            forall|m: int| 0 <= m < old(self).z.spec_data().len() ==> final(self).z.spec_data()[m]
                == old(self).z.spec_data()[m].mul_spec(rhs),
    {
        self.x.mul_assign_value(rhs);
        self.y.mul_assign_value(rhs);
        self.z.mul_assign_value(rhs);
    }

    /// Broadcast `self[q] /= rhs` over every cell of every component.
    pub fn div_assign_value(&mut self, rhs: T)
        requires
            old(self).wf(),
        ensures
            final(self).wf(),
            final(self).spec_cells() == old(self).spec_cells(),
            forall|m: int| 0 <= m < old(self).x.spec_data().len() ==> final(self).x.spec_data()[m]
                == old(self).x.spec_data()[m].div_spec(rhs),
            forall|m: int| 0 <= m < old(self).y.spec_data().len() ==> final(self).y.spec_data()[m]
                == old(self).y.spec_data()[m].div_spec(rhs),
            forall|m: int| 0 <= m < old(self).z.spec_data().len() ==> final(self).z.spec_data()[m]
                == old(self).z.spec_data()[m].div_spec(rhs),
    {
        self.x.div_assign_value(rhs);
        self.y.div_assign_value(rhs);
        self.z.div_assign_value(rhs);
    }

    /// Broadcast the scalar grid's value at each cell to all three
    /// components at that cell: `self.c[q] += rhs[q]` for each axis `c`.
    pub fn add_assign_scalar_field(&mut self, rhs: &ScalarField<T>)
        requires
            old(self).wf(),
            rhs.wf(),
            rhs.spec_cells() == old(self).spec_cells(),
        ensures
            final(self).wf(),
            final(self).spec_cells() == old(self).spec_cells(),
            forall|m: int| 0 <= m < old(self).x.spec_data().len() ==> final(self).x.spec_data()[m]
                == old(self).x.spec_data()[m].add_spec(rhs.spec_data()[m]),
            forall|m: int| 0 <= m < old(self).y.spec_data().len() ==> final(self).y.spec_data()[m]
                == old(self).y.spec_data()[m].add_spec(rhs.spec_data()[m]),
            forall|m: int| 0 <= m < old(self).z.spec_data().len() ==> final(self).z.spec_data()[m]
                == old(self).z.spec_data()[m].add_spec(rhs.spec_data()[m]),
    {
        self.x.add_assign_field(rhs);
        self.y.add_assign_field(rhs);
        self.z.add_assign_field(rhs);
    }

    /// Subtract the scalar grid's value at each cell from all three
    /// components at that cell.
    pub fn sub_assign_scalar_field(&mut self, rhs: &ScalarField<T>)
        requires
            old(self).wf(),
            rhs.wf(),
            rhs.spec_cells() == old(self).spec_cells(),
        ensures
            final(self).wf(),
            final(self).spec_cells() == old(self).spec_cells(),
            forall|m: int| 0 <= m < old(self).x.spec_data().len() ==> final(self).x.spec_data()[m]
                == old(self).x.spec_data()[m].sub_spec(rhs.spec_data()[m]),
            forall|m: int| 0 <= m < old(self).y.spec_data().len() ==> final(self).y.spec_data()[m]
                == old(self).y.spec_data()[m].sub_spec(rhs.spec_data()[m]),
            forall|m: int| 0 <= m < old(self).z.spec_data().len() ==> final(self).z.spec_data()[m]
                == old(self).z.spec_data()[m].sub_spec(rhs.spec_data()[m]),
    {
        self.x.sub_assign_field(rhs);
        self.y.sub_assign_field(rhs);
        self.z.sub_assign_field(rhs);
    }

    /// Multiply all three components at each cell by the scalar grid's
    /// value at that cell.
    pub fn mul_assign_scalar_field(&mut self, rhs: &ScalarField<T>)
        requires
            old(self).wf(),
            rhs.wf(),
            rhs.spec_cells() == old(self).spec_cells(),
        ensures
            final(self).wf(),
            final(self).spec_cells() == old(self).spec_cells(),
            forall|m: int| 0 <= m < old(self).x.spec_data().len() ==> final(self).x.spec_data()[m]
                == old(self).x.spec_data()[m].mul_spec(rhs.spec_data()[m]),
            forall|m: int| 0 <= m < old(self).y.spec_data().len() ==> final(self).y.spec_data()[m]
                == old(self).y.spec_data()[m].mul_spec(rhs.spec_data()[m]),
            forall|m: int| 0 <= m < old(self).z.spec_data().len() ==> final(self).z.spec_data()[m]
                == old(self).z.spec_data()[m].mul_spec(rhs.spec_data()[m]),
    {
        self.x.mul_assign_field(rhs);
        self.y.mul_assign_field(rhs);
        self.z.mul_assign_field(rhs);
    }

    /// Divide all three components at each cell by the scalar grid's
    /// value at that cell.
    pub fn div_assign_scalar_field(&mut self, rhs: &ScalarField<T>)
        requires
            old(self).wf(),
            rhs.wf(),
            rhs.spec_cells() == old(self).spec_cells(),
        ensures
            final(self).wf(),
            final(self).spec_cells() == old(self).spec_cells(),
            forall|m: int| 0 <= m < old(self).x.spec_data().len() ==> final(self).x.spec_data()[m]
                == old(self).x.spec_data()[m].div_spec(rhs.spec_data()[m]),
            forall|m: int| 0 <= m < old(self).y.spec_data().len() ==> final(self).y.spec_data()[m]
                == old(self).y.spec_data()[m].div_spec(rhs.spec_data()[m]),
            forall|m: int| 0 <= m < old(self).z.spec_data().len() ==> final(self).z.spec_data()[m]
                == old(self).z.spec_data()[m].div_spec(rhs.spec_data()[m]),
    {
        self.x.div_assign_field(rhs);
        self.y.div_assign_field(rhs);
        self.z.div_assign_field(rhs);
    }
}

} // verus!
