//! A generic three-component value.

use crate::error::GridError;
use crate::text::Text;
use vstd::prelude::*;
use vstd::string::*;

verus! {

/// Generic data that by nature has `(x, y, z)` components: physical
/// sizes, cell counts, spacings, vector samples.
///
/// Pure data: no invariant beyond the existence of the components.
#[derive(Debug, Clone, Copy, PartialEq, Eq, Structural)]
pub struct CoordinateTriplet<T> {
    /// x component
    pub x: T,

    /// y component
    pub y: T,

    /// z component
    pub z: T,
}

impl<T> CoordinateTriplet<T> {
    /// Builds the triplet from its three components.  Always succeeds;
    /// the fallible signature is kept so that callers treat
    /// construction uniformly with the grid types.
    pub fn new(x: T, y: T, z: T) -> (r: Result<CoordinateTriplet<T>, GridError>)
        ensures
            r matches Ok(t) && t.x == x && t.y == y && t.z == z,
    {
        Ok(CoordinateTriplet { x, y, z })
    }
}

impl<T: Text> CoordinateTriplet<T> {
    /// The textual rendering `(x, y, z)`.
    pub open spec fn render_spec(&self) -> Seq<char> {
        "("@ + self.x.text_spec() + ", "@ + self.y.text_spec() + ", "@ + self.z.text_spec()
            + ")"@
    }

    /// Writes the triplet in a text format: `(x, y, z)`.
    pub fn render(&self) -> (r: String)
        ensures
            r@ == self.render_spec(),
    {
        let mut out = String::new();
        out.append("(");
        let tx = self.x.to_text();
        out.append(tx.as_str());
        out.append(", ");
        let ty = self.y.to_text();
        out.append(ty.as_str());
        out.append(", ");
        let tz = self.z.to_text();
        out.append(tz.as_str());
        out.append(")");
        proof {
            assert(out@ =~= self.render_spec());
        }
        out
    }
}

} // verus!
