//! A dense 3-D scalar grid stored as one contiguous buffer.

use crate::coordinate_triplet::CoordinateTriplet;
use crate::error::GridError;
use crate::numeric::Numeric;
use crate::text::Text;
use crate::text::dec_digits;
use crate::text::usize_to_string;
use vstd::prelude::*;
use vstd::string::*;

verus! {

/// True when every element of `s` equals `v`.
pub open spec fn filled<T>(s: Seq<T>, v: T) -> bool {
    forall|q: int| 0 <= q < s.len() ==> s[q] == v
}

/// A scalar field: one value per cell of a 3-D grid, kept in a flat
/// buffer under column-major linear addressing (the x index varies
/// fastest in memory).
#[derive(Debug, PartialEq)]
pub struct ScalarField<T> {
    /// scalar field data, `cells.x * cells.y * cells.z` elements
    pub(crate) data: Vec<T>,

    /// number of cells along each axis
    pub(crate) cells: CoordinateTriplet<usize>,

    /// distance in the buffer between consecutive y indices
    pub(crate) r_offset: usize,

    /// distance in the buffer between consecutive z indices
    pub(crate) p_offset: usize,
}

impl<T> ScalarField<T> {
    /// The elements in linear-buffer order.
    pub closed spec fn spec_data(&self) -> Seq<T> {
        self.data@
    }

    /// The grid shape.
    pub closed spec fn spec_cells(&self) -> CoordinateTriplet<usize> {
        self.cells
    }

    /// The derived offsets agree with the shape.
    pub closed spec fn offsets_ok(&self) -> bool {
        &&& self.r_offset == self.cells.x
        &&& self.p_offset == self.cells.x * self.cells.y
    }

    /// Well-formed: the buffer holds exactly one element per cell and
    /// the offsets match the shape.
    pub open spec fn wf(&self) -> bool {
        &&& self.offsets_ok()
        &&& self.spec_data().len() == self.spec_cells().x * self.spec_cells().y
            * self.spec_cells().z
    }

    /// Whether `(i, j, k)` addresses a cell of this grid.
    pub open spec fn valid_idx(&self, i: int, j: int, k: int) -> bool {
        &&& 0 <= i < self.spec_cells().x
        &&& 0 <= j < self.spec_cells().y
        &&& 0 <= k < self.spec_cells().z
    }

    /// Column-major linear index of cell `(i, j, k)`.
    pub open spec fn lin(&self, i: int, j: int, k: int) -> int {
        i + self.spec_cells().x * j + self.spec_cells().x * self.spec_cells().y * k
    }

    /// The element stored at cell `(i, j, k)`.
    pub open spec fn spec_index(&self, i: int, j: int, k: int) -> T {
        self.spec_data()[self.lin(i, j, k)]
    }
}

/// Bounds of the column-major linear index: inside a grid of shape
/// `(nx, ny, nz)` every partial sum of the index formula stays below
/// the element count.
pub proof fn lemma_lin_bounds(nx: int, ny: int, nz: int, i: int, j: int, k: int)
    by (nonlinear_arith)
    requires
        0 <= i < nx,
        0 <= j < ny,
        0 <= k < nz,
    ensures
        nx * j <= nx * ny * nz,
        i + nx * j <= nx * ny * nz,
        nx * ny * k <= nx * ny * nz,
        0 <= i + nx * j + nx * ny * k < nx * ny * nz,
{
}

impl<T> ScalarField<T> {
    /// The buffer is a `Vec`, so its element count fits in `usize`.
    pub proof fn lemma_len_bound(&self)
        ensures
            self.spec_data().len() <= usize::MAX,
    {
        vstd::std_specs::vec::axiom_spec_len(&self.data);
    }

    /// Inside a well-formed grid the linear-index computation stays in
    /// bounds at every step.
    proof fn lemma_idx_fits(&self, i: int, j: int, k: int)
        requires
            self.wf(),
            self.valid_idx(i, j, k),
        ensures
            self.spec_data().len() <= usize::MAX,
            self.r_offset * j <= usize::MAX,
            i + self.r_offset * j <= usize::MAX,
            self.p_offset * k <= usize::MAX,
            0 <= i + self.r_offset * j + self.p_offset * k < self.spec_data().len(),
            self.lin(i, j, k) == i + self.r_offset * j + self.p_offset * k,
    {
        assert(self.spec_data().len() <= usize::MAX) by {
            vstd::std_specs::vec::axiom_spec_len(&self.data);
        }
        lemma_lin_bounds(
            self.spec_cells().x as int,
            self.spec_cells().y as int,
            self.spec_cells().z as int,
            i,
            j,
            k,
        );
    }
}

/// One line of the scalar dump: `ScalarField(i, j, k) = v`.
pub open spec fn scalar_line<T: Text>(i: int, j: int, k: int, v: T) -> Seq<char> {
    "ScalarField("@ + dec_digits(i as nat) + ", "@ + dec_digits(j as nat) + ", "@ + dec_digits(
        k as nat,
    ) + ") = "@ + v.text_spec() + "\n"@
}

impl<T: Text> ScalarField<T> {
    /// The dump lines of cells `(i, j, 0) .. (i, j, kk - 1)`.
    pub open spec fn render_row(&self, i: int, j: int, kk: int) -> Seq<char>
        decreases kk,
    {
        if kk <= 0 {
            Seq::empty()
        } else {
            self.render_row(i, j, kk - 1) + scalar_line(
                i,
                j,
                kk - 1,
                self.spec_index(i, j, kk - 1),
            )
        }
    }

    /// The dump lines of rows `(i, 0) .. (i, jj - 1)`.
    pub open spec fn render_plane(&self, i: int, jj: int) -> Seq<char>
        decreases jj,
    {
        if jj <= 0 {
            Seq::empty()
        } else {
            self.render_plane(i, jj - 1) + self.render_row(i, jj - 1, self.spec_cells().z as int)
        }
    }

    /// The dump lines of planes `0 .. ii - 1`.
    pub open spec fn render_cube(&self, ii: int) -> Seq<char>
        decreases ii,
    {
        if ii <= 0 {
            Seq::empty()
        } else {
            self.render_cube(ii - 1) + self.render_plane(ii - 1, self.spec_cells().y as int)
        }
    }

    /// The full textual dump: one line per cell, i outermost, j
    /// middle, k innermost.
    pub open spec fn render_spec(&self) -> Seq<char> {
        self.render_cube(self.spec_cells().x as int)
    }
}

impl<T: Numeric + Text> ScalarField<T> {
    /// Writes the grid in a text format: one `ScalarField(i, j, k) = v`
    /// line per cell, iterating i outermost, j middle, k innermost.
    #[verifier::loop_isolation(false)]
    pub fn render(&self) -> (r: String)
        requires
            self.wf(),
        ensures
            r@ == self.render_spec(),
    {
        let mut out = String::new();
        let nx = self.cells.x;
        let ny = self.cells.y;
        let nz = self.cells.z;
        let mut i: usize = 0;
        while i < nx
            invariant
                i <= nx,
                out@ == self.render_cube(i as int),
            decreases nx - i,
        {
            let mut j: usize = 0;
            while j < ny
                invariant
                    j <= ny,
                    out@ == self.render_cube(i as int) + self.render_plane(i as int, j as int),
                decreases ny - j,
            {
                let mut k: usize = 0;
                proof {
                    assert(out@ =~= self.render_cube(i as int) + self.render_plane(
                        i as int,
                        j as int,
                    ) + self.render_row(i as int, j as int, 0));
                }
                while k < nz
                    invariant
                        k <= nz,
                        out@ == self.render_cube(i as int) + self.render_plane(i as int, j as int)
                            + self.render_row(i as int, j as int, k as int),
                    decreases nz - k,
                {
                    let ghost pre = out@;
                    out.append("ScalarField(");
                    let si = usize_to_string(i);
                    out.append(si.as_str());
                    out.append(", ");
                    let sj = usize_to_string(j);
                    out.append(sj.as_str());
                    out.append(", ");
                    let sk = usize_to_string(k);
                    out.append(sk.as_str());
                    out.append(") = ");
                    let v = self.get(i, j, k);
                    let tv = v.to_text();
                    out.append(tv.as_str());
                    out.append("\n");
                    proof {
                        assert(out@ =~= pre + scalar_line(
                            i as int,
                            j as int,
                            k as int,
                            self.spec_index(i as int, j as int, k as int),
                        ));
                        assert(self.render_row(i as int, j as int, k + 1) == self.render_row(
                            i as int,
                            j as int,
                            k as int,
                        ) + scalar_line(
                            i as int,
                            j as int,
                            k as int,
                            self.spec_index(i as int, j as int, k as int),
                        ));
                        assert(out@ =~= self.render_cube(i as int) + self.render_plane(
                            i as int,
                            j as int,
                        ) + self.render_row(i as int, j as int, k + 1));
                    }
                    k += 1;
                }
                proof {
                    assert(self.render_plane(i as int, j + 1) == self.render_plane(
                        i as int,
                        j as int,
                    ) + self.render_row(i as int, j as int, self.spec_cells().z as int));
                    assert(out@ =~= self.render_cube(i as int) + self.render_plane(
                        i as int,
                        j + 1,
                    ));
                }
                j += 1;
            }
            proof {
                assert(self.render_cube(i + 1) == self.render_cube(i as int) + self.render_plane(
                    i as int,
                    self.spec_cells().y as int,
                ));
                assert(out@ =~= self.render_cube(i + 1));
            }
            i += 1;
        }
        out
    }
}

impl<T: Numeric> ScalarField<T> {
    /// Allocates a zero-filled grid of the given shape.
    ///
    /// Fails exactly when the plane offset `nx * ny` or the element
    /// count `nx * ny * nz` does not fit in `usize`.
    pub fn new(cells: &CoordinateTriplet<usize>) -> (r: Result<ScalarField<T>, GridError>)
        ensures
            r is Ok <==> cells.x * cells.y <= usize::MAX && cells.x * cells.y * cells.z
                <= usize::MAX,
            r matches Ok(g) ==> {
                &&& g.wf()
                &&& g.spec_cells() == *cells
                &&& filled(g.spec_data(), T::zero_spec())
            },
            r matches Err(e) ==> e == GridError::ShapeOverflow,
    {
        let r_offset = cells.x;
        let p_offset = match cells.x.checked_mul(cells.y) {
            Some(p) => p,
            None => {
                return Err(GridError::ShapeOverflow);
            },
        };
        let total = match p_offset.checked_mul(cells.z) {
            Some(t) => t,
            None => {
                return Err(GridError::ShapeOverflow);
            },
        };
        let mut data: Vec<T> = Vec::new();
        while data.len() < total
            invariant
                data@.len() <= total,
                filled(data@, T::zero_spec()),
            decreases total - data.len(),
        {
            data.push(T::zero());
        }
        Ok(ScalarField { data, cells: *cells, r_offset, p_offset })
    }

    /// Reads the element at cell `(i, j, k)`.
    pub fn get(&self, i: usize, j: usize, k: usize) -> (r: T)
        requires
            self.wf(),
            self.valid_idx(i as int, j as int, k as int),
        ensures
            r == self.spec_index(i as int, j as int, k as int),
    {
        proof {
            self.lemma_idx_fits(i as int, j as int, k as int);
        }
        self.data[i + self.r_offset * j + self.p_offset * k]
    }

    /// The grid shape.
    pub fn cells(&self) -> (r: CoordinateTriplet<usize>)
        ensures
            r == self.spec_cells(),
    {
        self.cells
    }

    /// The distance in the buffer between consecutive y indices.
    pub fn r_offset(&self) -> (r: usize)
        requires
            self.wf(),
        ensures
            r == self.spec_cells().x,
    {
        self.r_offset
    }

    /// The distance in the buffer between consecutive z indices.
    pub fn p_offset(&self) -> (r: usize)
        requires
            self.wf(),
        ensures
            r == self.spec_cells().x * self.spec_cells().y,
    {
        self.p_offset
    }

    /// The number of elements in the buffer.
    pub fn len(&self) -> (r: usize)
        ensures
            r == self.spec_data().len(),
    {
        self.data.len()
    }

    /// The elements, copied out in linear-buffer order.
    pub fn iter(&self) -> (r: Vec<T>)
        ensures
            r@ == self.spec_data(),
    {
        let mut out: Vec<T> = Vec::new();
        let mut q: usize = 0;
        while q < self.data.len()
            invariant
                out@.len() == q,
                q <= self.spec_data().len(),
                forall|m: int| 0 <= m < q ==> out@[m] == self.spec_data()[m],
            decreases self.spec_data().len() - q,
        {
            out.push(self.data[q]);
            q += 1;
        }
        proof {
            assert(out@ =~= self.spec_data());
        }
        out
    }

    /// Applies `f` to every element in place, in linear-buffer order.
    pub fn iter_mut<F: Fn(T) -> T>(&mut self, f: F)
        requires
            old(self).wf(),
            forall|x: T| #![auto] f.requires((x,)),
        ensures
            final(self).wf(),
            final(self).spec_cells() == old(self).spec_cells(),
            final(self).spec_data().len() == old(self).spec_data().len(),
            forall|m: int| #![auto]
                0 <= m < old(self).spec_data().len() ==> f.ensures(
                    (old(self).spec_data()[m],),
                    final(self).spec_data()[m],
                ),
    {
        let mut q: usize = 0;
        while q < self.data.len()
            invariant
                self.wf(),
                self.spec_cells() == old(self).spec_cells(),
                self.spec_data().len() == old(self).spec_data().len(),
                q <= self.spec_data().len(),
                forall|x: T| #![auto] f.requires((x,)),
                forall|m: int| #![auto]
                    0 <= m < q ==> f.ensures(
                        (old(self).spec_data()[m],),
                        self.spec_data()[m],
                    ),
                forall|m: int| q <= m < self.spec_data().len() ==> self.spec_data()[m] == old(
                    self,
                ).spec_data()[m],
            decreases self.spec_data().len() - q,
        {
            let v = f(self.data[q]);
            self.data[q] = v;
            q += 1;
        }
    }

    /// Writes `value` to cell `(i, j, k)`; every other cell is kept.
    pub fn set(&mut self, i: usize, j: usize, k: usize, value: T)
        requires
            old(self).wf(),
            old(self).valid_idx(i as int, j as int, k as int),
        ensures
            final(self).wf(),
            final(self).spec_cells() == old(self).spec_cells(),
            final(self).spec_data() == old(self).spec_data().update(
                old(self).lin(i as int, j as int, k as int),
                value,
            ),
    {
        proof {
            self.lemma_idx_fits(i as int, j as int, k as int);
        }
        let idx = i + self.r_offset * j + self.p_offset * k;
        self.data[idx] = value;
    }

    /// Elementwise `self[q] += rhs[q]` over grids of one shape.
    pub fn add_assign_field(&mut self, rhs: &ScalarField<T>)
        requires
            old(self).wf(),
            rhs.wf(),
            rhs.spec_cells() == old(self).spec_cells(),
        ensures
            final(self).wf(),
            final(self).spec_cells() == old(self).spec_cells(),
            final(self).spec_data().len() == old(self).spec_data().len(),
            forall|m: int| 0 <= m < old(self).spec_data().len() ==> final(self).spec_data()[m]
                == old(self).spec_data()[m].add_spec(rhs.spec_data()[m]),
    {
        let mut q: usize = 0;
        while q < self.data.len()
            invariant
                self.wf(),
                rhs.wf(),
                self.spec_cells() == old(self).spec_cells(),
                rhs.spec_cells() == old(self).spec_cells(),
                self.spec_data().len() == old(self).spec_data().len(),
                q <= self.spec_data().len(),
                forall|m: int| 0 <= m < q ==> self.spec_data()[m] == old(self).spec_data()[m].add_spec(rhs.spec_data()[m]),
                forall|m: int| q <= m < self.spec_data().len() ==> self.spec_data()[m] == old(self).spec_data()[m],
            decreases self.spec_data().len() - q,
        {
            let v = self.data[q].add(rhs.data[q]);
            self.data[q] = v;
            q += 1;
        }
    }

    /// Elementwise `self[q] -= rhs[q]` over grids of one shape.
    pub fn sub_assign_field(&mut self, rhs: &ScalarField<T>)
        requires
            old(self).wf(),
            rhs.wf(),
            rhs.spec_cells() == old(self).spec_cells(),
        ensures
            final(self).wf(),
            final(self).spec_cells() == old(self).spec_cells(),
            final(self).spec_data().len() == old(self).spec_data().len(),
            forall|m: int| 0 <= m < old(self).spec_data().len() ==> final(self).spec_data()[m]
                == old(self).spec_data()[m].sub_spec(rhs.spec_data()[m]),
    {
        let mut q: usize = 0;
        while q < self.data.len()
            invariant
                self.wf(),
                rhs.wf(),
                self.spec_cells() == old(self).spec_cells(),
                rhs.spec_cells() == old(self).spec_cells(),
                self.spec_data().len() == old(self).spec_data().len(),
                q <= self.spec_data().len(),
                forall|m: int| 0 <= m < q ==> self.spec_data()[m] == old(self).spec_data()[m].sub_spec(rhs.spec_data()[m]),
                forall|m: int| q <= m < self.spec_data().len() ==> self.spec_data()[m] == old(self).spec_data()[m],
            decreases self.spec_data().len() - q,
        {
            let v = self.data[q].sub(rhs.data[q]);
            self.data[q] = v;
            q += 1;
        }
    }

    /// Elementwise `self[q] *= rhs[q]` over grids of one shape.
    pub fn mul_assign_field(&mut self, rhs: &ScalarField<T>)
        requires
            old(self).wf(),
            rhs.wf(),
            rhs.spec_cells() == old(self).spec_cells(),
        ensures
            final(self).wf(),
            final(self).spec_cells() == old(self).spec_cells(),
            final(self).spec_data().len() == old(self).spec_data().len(),
            forall|m: int| 0 <= m < old(self).spec_data().len() ==> final(self).spec_data()[m]
                == old(self).spec_data()[m].mul_spec(rhs.spec_data()[m]),
    {
        let mut q: usize = 0;
        while q < self.data.len()
            invariant
                self.wf(),
                rhs.wf(),
                self.spec_cells() == old(self).spec_cells(),
                rhs.spec_cells() == old(self).spec_cells(),
                self.spec_data().len() == old(self).spec_data().len(),
                q <= self.spec_data().len(),
                forall|m: int| 0 <= m < q ==> self.spec_data()[m] == old(self).spec_data()[m].mul_spec(rhs.spec_data()[m]),
                forall|m: int| q <= m < self.spec_data().len() ==> self.spec_data()[m] == old(self).spec_data()[m],
            decreases self.spec_data().len() - q,
        {
            let v = self.data[q].mul(rhs.data[q]);
            self.data[q] = v;
            q += 1;
        }
    }

    /// Elementwise `self[q] /= rhs[q]` over grids of one shape.
    pub fn div_assign_field(&mut self, rhs: &ScalarField<T>)
        requires
            old(self).wf(),
            rhs.wf(),
            rhs.spec_cells() == old(self).spec_cells(),
        ensures
            final(self).wf(),
            final(self).spec_cells() == old(self).spec_cells(),
            final(self).spec_data().len() == old(self).spec_data().len(),
            forall|m: int| 0 <= m < old(self).spec_data().len() ==> final(self).spec_data()[m]
                == old(self).spec_data()[m].div_spec(rhs.spec_data()[m]),
    {
        let mut q: usize = 0;
        while q < self.data.len()
            invariant
                self.wf(),
                rhs.wf(),
                self.spec_cells() == old(self).spec_cells(),
                rhs.spec_cells() == old(self).spec_cells(),
                self.spec_data().len() == old(self).spec_data().len(),
                q <= self.spec_data().len(),
                forall|m: int| 0 <= m < q ==> self.spec_data()[m] == old(self).spec_data()[m].div_spec(rhs.spec_data()[m]),
                forall|m: int| q <= m < self.spec_data().len() ==> self.spec_data()[m] == old(self).spec_data()[m],
            decreases self.spec_data().len() - q,
        {
            let v = self.data[q].div(rhs.data[q]);
            self.data[q] = v;
            q += 1;
        }
    }

    /// Broadcast `self[q] += rhs` over every element.
    pub fn add_assign_value(&mut self, rhs: T)
        requires
            old(self).wf(),
        ensures
            final(self).wf(),
            final(self).spec_cells() == old(self).spec_cells(),
            final(self).spec_data().len() == old(self).spec_data().len(),
            forall|m: int| 0 <= m < old(self).spec_data().len() ==> final(self).spec_data()[m]
                == old(self).spec_data()[m].add_spec(rhs),
    {
        let mut q: usize = 0;
        while q < self.data.len()
            invariant
                self.wf(),
                self.spec_cells() == old(self).spec_cells(),
                self.spec_data().len() == old(self).spec_data().len(),
                q <= self.spec_data().len(),
                forall|m: int| 0 <= m < q ==> self.spec_data()[m] == old(self).spec_data()[m].add_spec(rhs),
                forall|m: int| q <= m < self.spec_data().len() ==> self.spec_data()[m] == old(self).spec_data()[m],
            decreases self.spec_data().len() - q,
        {
            let v = self.data[q].add(rhs);
            self.data[q] = v;
            q += 1;
        }
    }

    /// Broadcast `self[q] -= rhs` over every element.
    pub fn sub_assign_value(&mut self, rhs: T)
        requires
            old(self).wf(),
        ensures
            final(self).wf(),
            final(self).spec_cells() == old(self).spec_cells(),
            final(self).spec_data().len() == old(self).spec_data().len(),
            forall|m: int| 0 <= m < old(self).spec_data().len() ==> final(self).spec_data()[m]
                == old(self).spec_data()[m].sub_spec(rhs),
    {
        let mut q: usize = 0;
        while q < self.data.len()
            invariant
                self.wf(),
                self.spec_cells() == old(self).spec_cells(),
                self.spec_data().len() == old(self).spec_data().len(),
                q <= self.spec_data().len(),
                forall|m: int| 0 <= m < q ==> self.spec_data()[m] == old(self).spec_data()[m].sub_spec(rhs),
                forall|m: int| q <= m < self.spec_data().len() ==> self.spec_data()[m] == old(self).spec_data()[m],
            decreases self.spec_data().len() - q,
        {
            let v = self.data[q].sub(rhs);
            self.data[q] = v;
            q += 1;
        }
    }

    /// Broadcast `self[q] *= rhs` over every element.
    pub fn mul_assign_value(&mut self, rhs: T)
        requires
            old(self).wf(),
        ensures
            final(self).wf(),
            final(self).spec_cells() == old(self).spec_cells(),
            final(self).spec_data().len() == old(self).spec_data().len(),
            forall|m: int| 0 <= m < old(self).spec_data().len() ==> final(self).spec_data()[m]
                == old(self).spec_data()[m].mul_spec(rhs),
    {
        let mut q: usize = 0;
        while q < self.data.len()
            invariant
                self.wf(),
                self.spec_cells() == old(self).spec_cells(),
                self.spec_data().len() == old(self).spec_data().len(),
                q <= self.spec_data().len(),
                forall|m: int| 0 <= m < q ==> self.spec_data()[m] == old(self).spec_data()[m].mul_spec(rhs),
                forall|m: int| q <= m < self.spec_data().len() ==> self.spec_data()[m] == old(self).spec_data()[m],
            decreases self.spec_data().len() - q,
        {
            let v = self.data[q].mul(rhs);
            self.data[q] = v;
            q += 1;
        }
    }

    /// Broadcast `self[q] /= rhs` over every element.
    pub fn div_assign_value(&mut self, rhs: T)
        requires
            old(self).wf(),
        ensures
            final(self).wf(),
            final(self).spec_cells() == old(self).spec_cells(),
            final(self).spec_data().len() == old(self).spec_data().len(),
            forall|m: int| 0 <= m < old(self).spec_data().len() ==> final(self).spec_data()[m]
                == old(self).spec_data()[m].div_spec(rhs),
    {
        let mut q: usize = 0;
        while q < self.data.len()
            invariant
                self.wf(),
                self.spec_cells() == old(self).spec_cells(),
                self.spec_data().len() == old(self).spec_data().len(),
                q <= self.spec_data().len(),
                forall|m: int| 0 <= m < q ==> self.spec_data()[m] == old(self).spec_data()[m].div_spec(rhs),
                forall|m: int| q <= m < self.spec_data().len() ==> self.spec_data()[m] == old(self).spec_data()[m],
            decreases self.spec_data().len() - q,
        {
            let v = self.data[q].div(rhs);
            self.data[q] = v;
            q += 1;
        }
    }
}

} // verus!
