//! The simulation grid state and its step coefficients.
//!
//! A [`Field`] is a dense two-dimensional array of binary32 samples, each
//! carried as its `u32` bit pattern.  A [`State`] bundles the four fields
//! the integration kernel works on, and [`State::check_compat`] is the
//! shape-compatibility check every step must pass first.
use vstd::prelude::*;

verus! {

/// A dense 2D field of binary32 samples, stored row-major as bit patterns.
///
/// Every `Field` keeps the invariant that it holds exactly `height` rows of
/// exactly `width` cells each.
pub struct Field {
    h: usize,
    w: usize,
    rows: Vec<Vec<u32>>,
}

impl Field {
    #[verifier::type_invariant]
    spec fn inv(self) -> bool {
        &&& self.rows@.len() == self.h
        &&& forall|y: int| 0 <= y < self.rows@.len() ==> (#[trigger] self.rows@[y])@.len() == self.w
    }

    /// The number of rows.
    pub closed spec fn nrows(self) -> int {
        self.h as int
    }

    /// The number of columns.
    pub closed spec fn ncols(self) -> int {
        self.w as int
    }

    /// The bit pattern of the sample at row `y`, column `x`.
    pub closed spec fn cell(self, y: int, x: int) -> u32 {
        self.rows@[y]@[x]
    }

    /// A field of `h` rows and `w` columns with every cell set to `fill`.
    pub fn new(h: usize, w: usize, fill: u32) -> (f: Field)
        ensures
            f.nrows() == h,
            f.ncols() == w,
            forall|y: int, x: int| 0 <= y < h && 0 <= x < w ==> f.cell(y, x) == fill,
    {
        let mut rows: Vec<Vec<u32>> = Vec::new();
        for y in 0..h
            invariant
                rows@.len() == y,
                forall|yy: int| 0 <= yy < y ==> (#[trigger] rows@[yy])@.len() == w,
                forall|yy: int, xx: int|
                    0 <= yy < y && 0 <= xx < w ==> rows@[yy]@[xx] == fill,
        {
            let mut row: Vec<u32> = Vec::new();
            for x in 0..w
                invariant
                    row@.len() == x,
                    forall|xx: int| 0 <= xx < x ==> row@[xx] == fill,
            {
                row.push(fill);
            }
            rows.push(row);
        }
        Field { h, w, rows }
    }

    /// A field made of the given rows, provided they all have one length.
    ///
    /// Returns `None` exactly when two rows differ in length.  An empty row
    /// list gives the empty `0 x 0` field.
    pub fn from_rows(rows: Vec<Vec<u32>>) -> (r: Option<Field>)
        ensures
            match r {
                Some(f) => {
                    &&& f.nrows() == rows@.len()
                    &&& f.ncols() == (if rows@.len() > 0 {
                        rows@[0]@.len() as int
                    } else {
                        0
                    })
                    &&& forall|y: int, x: int|
                        0 <= y < f.nrows() && 0 <= x < f.ncols() ==> f.cell(y, x) == rows@[y]@[x]
                },
                None => exists|y: int|
                    0 <= y < rows@.len() && (#[trigger] rows@[y])@.len() != rows@[0]@.len(),
            },
    {
        let h = rows.len();
        let w = if h > 0 {
            rows[0].len()
        } else {
            0
        };
        for y in 0..h
            invariant
                h == rows@.len(),
                w == (if h > 0 {
                    rows@[0]@.len() as int
                } else {
                    0
                }),
                forall|yy: int| 0 <= yy < y ==> (#[trigger] rows@[yy])@.len() == w,
        {
            if rows[y].len() != w {
                return None;
            }
        }
        Some(Field { h, w, rows })
    }

    /// The number of rows.
    pub fn height(&self) -> (r: usize)
        ensures
            r == self.nrows(),
    {
        self.h
    }

    /// The number of columns.
    pub fn width(&self) -> (r: usize)
        ensures
            r == self.ncols(),
    {
        self.w
    }

    /// The bit pattern of the sample at row `y`, column `x`.
    pub fn at(&self, y: usize, x: usize) -> (r: u32)
        requires
            y < self.nrows(),
            x < self.ncols(),
        ensures
            r == self.cell(y as int, x as int),
    {
        proof {
            use_type_invariant(self);
        }
        self.rows[y][x]
    }

    /// A field with the given dimensions whose cells are taken from `rows`.
    pub(crate) fn from_parts(h: usize, w: usize, rows: Vec<Vec<u32>>) -> (f: Field)
        requires
            rows@.len() == h,
            forall|y: int| 0 <= y < h ==> (#[trigger] rows@[y])@.len() == w,
        ensures
            f.nrows() == h,
            f.ncols() == w,
            forall|y: int, x: int| 0 <= y < h && 0 <= x < w ==> f.cell(y, x) == rows@[y]@[x],
    {
        Field { h, w, rows }
    }
}

/// The two scalar step coefficients, each a binary32 bit pattern:
/// `alpha` is the relaxation rate toward the source field, `beta` the gain
/// on the velocity-divergence term.
pub struct Params {
    pub alpha: u32,
    pub beta: u32,
}

/// The field named by a shape-compatibility failure: the first of `vx`,
/// `vy`, `s` whose dimensions differ from those of `phi`.
#[derive(Clone, Copy, Debug, PartialEq, Eq, Structural)]
pub enum ShapeError {
    Vx,
    Vy,
    S,
}

/// The evolvable grid: the scalar field `phi`, the two velocity components
/// `vx` and `vy`, and the source field `s` that `phi` relaxes toward.  The
/// kernel requires all four to share the dimensions of `phi`.
pub struct State {
    pub phi: Field,
    pub vx: Field,
    pub vy: Field,
    pub s: Field,
}

impl State {
    /// All four fields share the dimensions of `phi`.
    pub open spec fn compat(self) -> bool {
        &&& self.vx.nrows() == self.phi.nrows() && self.vx.ncols() == self.phi.ncols()
        &&& self.vy.nrows() == self.phi.nrows() && self.vy.ncols() == self.phi.ncols()
        &&& self.s.nrows() == self.phi.nrows() && self.s.ncols() == self.phi.ncols()
    }

    /// The outcome of the compatibility check: the first mismatched field,
    /// in the order `vx`, `vy`, `s`, or success.
    pub open spec fn spec_check_compat(self) -> Result<(), ShapeError> {
        if !(self.vx.nrows() == self.phi.nrows() && self.vx.ncols() == self.phi.ncols()) {
            Err(ShapeError::Vx)
        } else if !(self.vy.nrows() == self.phi.nrows() && self.vy.ncols() == self.phi.ncols()) {
            Err(ShapeError::Vy)
        } else if !(self.s.nrows() == self.phi.nrows() && self.s.ncols() == self.phi.ncols()) {
            Err(ShapeError::S)
        } else {
            Ok(())
        }
    }

    /// The dimensions of `phi`, the authoritative shape of the state.
    pub fn shape(&self) -> (r: (usize, usize))
        ensures
            r.0 == self.phi.nrows(),
            r.1 == self.phi.ncols(),
    {
        (self.phi.height(), self.phi.width())
    }

    /// Verifies that `vx`, `vy` and `s` have the same dimensions as `phi`.
    ///
    /// Succeeds exactly when the state satisfies the shape invariant;
    /// otherwise names the first mismatched field.
    pub fn check_compat(&self) -> (r: Result<(), ShapeError>)
        ensures
            r == self.spec_check_compat(),
            r is Ok <==> self.compat(),
    {
        let h = self.phi.height();
        let w = self.phi.width();
        if !(self.vx.height() == h && self.vx.width() == w) {
            Err(ShapeError::Vx)
        } else if !(self.vy.height() == h && self.vy.width() == w) {
            Err(ShapeError::Vy)
        } else if !(self.s.height() == h && self.s.width() == w) {
            Err(ShapeError::S)
        } else {
            Ok(())
        }
    }
}

} // verus!
