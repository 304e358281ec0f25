//! The integration kernel: one explicit Euler step of the
//! relaxation-plus-advection dynamics.
//!
//! Every cell of the new `phi` is pinned down exactly by [`step_cell`]:
//! a centered-difference divergence of the velocity field, accumulated
//! horizontally then vertically on interior cells only, feeds the pointwise
//! update `phi + dt * (alpha * (s - phi) + beta * div)`, all in binary32
//! arithmetic on bit patterns.
use crate::core_types::Params;
use crate::core_types::ShapeError;
use crate::core_types::State;
use crate::floats::HALF_BITS;
use crate::floats::ZERO_BITS;
use crate::floats::add_bits;
use crate::floats::f_add;
use crate::floats::f_mul;
use crate::floats::f_sub;
use crate::floats::mul_bits;
use crate::floats::sub_bits;
use vstd::prelude::*;

verus! {

/// Column `x` is horizontally interior to a grid `w` columns wide: it has a
/// neighbour on each side.
pub open spec fn x_interior(w: int, x: int) -> bool {
    1 <= x && x < w - 1
}

/// Row `y` is vertically interior to a grid `h` rows tall.
pub open spec fn y_interior(h: int, y: int) -> bool {
    1 <= y && y < h - 1
}

/// The horizontal centered difference `0.5 * (vx[y, x+1] - vx[y, x-1])`.
pub open spec fn h_term(st: State, y: int, x: int) -> u32 {
    mul_bits(HALF_BITS, sub_bits(st.vx.cell(y, x + 1), st.vx.cell(y, x - 1)))
}

/// The vertical centered difference `0.5 * (vy[y+1, x] - vy[y-1, x])`.
pub open spec fn v_term(st: State, y: int, x: int) -> u32 {
    mul_bits(HALF_BITS, sub_bits(st.vy.cell(y + 1, x), st.vy.cell(y - 1, x)))
}

/// The divergence scratch cell at `(y, x)`: starting from `+0.0`, the
/// horizontal term is accumulated on horizontally interior cells, then the
/// vertical term on vertically interior cells.  Border cells keep only the
/// contribution of the dimension in which they are interior; corners keep
/// none.
pub open spec fn div_cell(st: State, y: int, x: int) -> u32 {
    let d0 = ZERO_BITS;
    let d1 = if x_interior(st.phi.ncols(), x) {
        add_bits(d0, h_term(st, y, x))
    } else {
        d0
    };
    if y_interior(st.phi.nrows(), y) {
        add_bits(d1, v_term(st, y, x))
    } else {
        d1
    }
}

/// The pointwise explicit Euler update of one cell:
/// `phi + dt * (alpha * (s - phi) + beta * div)`.
pub open spec fn step_cell(st: State, p: Params, dt: u32, y: int, x: int) -> u32 {
    let phi0 = st.phi.cell(y, x);
    let dphi = add_bits(
        mul_bits(p.alpha, sub_bits(st.s.cell(y, x), phi0)),
        mul_bits(p.beta, div_cell(st, y, x)),
    );
    add_bits(phi0, mul_bits(dt, dphi))
}

/// The new `phi` field, cell by cell, for a shape-compatible state.
fn step_new_phi(st: &State, p: &Params, dt: u32) -> (out: crate::core_types::Field)
    requires
        st.compat(),
    ensures
        out.nrows() == st.phi.nrows(),
        out.ncols() == st.phi.ncols(),
        forall|y: int, x: int|
            0 <= y < st.phi.nrows() && 0 <= x < st.phi.ncols() ==> out.cell(y, x) == step_cell(
                *st,
                *p,
                dt,
                y,
                x,
            ),
{
    let h = st.phi.height();
    let w = st.phi.width();
    let mut rows: Vec<Vec<u32>> = Vec::new();
    for y in 0..h
        invariant
            st.compat(),
            h == st.phi.nrows(),
            w == st.phi.ncols(),
            rows@.len() == y,
            forall|yy: int| 0 <= yy < y ==> (#[trigger] rows@[yy])@.len() == w,
            forall|yy: int, xx: int|
                0 <= yy < y && 0 <= xx < w ==> rows@[yy]@[xx] == step_cell(*st, *p, dt, yy, xx),
    {
        let mut row: Vec<u32> = Vec::new();
        for x in 0..w
            invariant
                st.compat(),
                h == st.phi.nrows(),
                w == st.phi.ncols(),
                y < h,
                row@.len() == x,
                forall|xx: int|
                    0 <= xx < x ==> row@[xx] == step_cell(*st, *p, dt, y as int, xx),
        {
            let mut d: u32 = ZERO_BITS;
            if x >= 1 && x + 1 < w {
                d = f_add(d, f_mul(HALF_BITS, f_sub(st.vx.at(y, x + 1), st.vx.at(y, x - 1))));
            }
            if y >= 1 && y + 1 < h {
                d = f_add(d, f_mul(HALF_BITS, f_sub(st.vy.at(y + 1, x), st.vy.at(y - 1, x))));
            }
            assert(d == div_cell(*st, y as int, x as int));
            let phi0 = st.phi.at(y, x);
            let dphi = f_add(f_mul(p.alpha, f_sub(st.s.at(y, x), phi0)), f_mul(p.beta, d));
            row.push(f_add(phi0, f_mul(dt, dphi)));
        }
        rows.push(row);
    }
    crate::core_types::Field::from_parts(h, w, rows)
}

/// One explicit Euler step of size `dt`: advances `phi` in place, leaving
/// `vx`, `vy` and `s` untouched.
///
/// Succeeds exactly when the state satisfies the shape invariant; on a
/// mismatch the state is left unchanged and the first mismatched field is
/// named, as by [`State::check_compat`].  On success every cell of the new
/// `phi` equals [`step_cell`] of the old state.
pub fn step(state: &mut State, p: &Params, dt: u32) -> (r: Result<(), ShapeError>)
    ensures
        r == old(state).spec_check_compat(),
        r is Ok <==> old(state).compat(),
        r is Ok ==> {
            &&& final(state).vx == old(state).vx
            &&& final(state).vy == old(state).vy
            &&& final(state).s == old(state).s
            &&& final(state).phi.nrows() == old(state).phi.nrows()
            &&& final(state).phi.ncols() == old(state).phi.ncols()
            &&& forall|y: int, x: int|
                0 <= y < old(state).phi.nrows() && 0 <= x < old(state).phi.ncols()
                    ==> final(state).phi.cell(y, x) == step_cell(*old(state), *p, dt, y, x)
        },
        r is Err ==> *final(state) == *old(state),
{
    let c = state.check_compat();
    match c {
        Ok(()) => {
            let new_phi = step_new_phi(&*state, p, dt);
            state.phi = new_phi;
            Ok(())
        },
        Err(e) => Err(e),
    }
}

/// Border degeneracy.  On a grid narrower than three columns no cell is
/// horizontally interior, so the divergence carries no horizontal term; on
/// one shorter than three rows it carries no vertical term; and on a grid
/// degenerate in both dimensions the divergence is identically the `+0.0`
/// bit pattern, so the update reduces to
/// `phi + dt * (alpha * (s - phi) + beta * 0.0)`.
pub proof fn lemma_border_degeneracy(st: State, p: Params, dt: u32, y: int, x: int)
    requires
        0 <= y < st.phi.nrows(),
        0 <= x < st.phi.ncols(),
    ensures
        st.phi.ncols() < 3 ==> div_cell(st, y, x) == (if y_interior(st.phi.nrows(), y) {
            add_bits(ZERO_BITS, v_term(st, y, x))
        } else {
            ZERO_BITS
        }),
        st.phi.nrows() < 3 ==> div_cell(st, y, x) == (if x_interior(st.phi.ncols(), x) {
            add_bits(ZERO_BITS, h_term(st, y, x))
        } else {
            ZERO_BITS
        }),
        st.phi.nrows() < 3 && st.phi.ncols() < 3 ==> div_cell(st, y, x) == ZERO_BITS,
        st.phi.nrows() < 3 && st.phi.ncols() < 3 ==> step_cell(st, p, dt, y, x) == add_bits(
            st.phi.cell(y, x),
            mul_bits(
                dt,
                add_bits(
                    mul_bits(p.alpha, sub_bits(st.s.cell(y, x), st.phi.cell(y, x))),
                    mul_bits(p.beta, ZERO_BITS),
                ),
            ),
        ),
{
}

/// No hidden state.  The updated cell is a function of the four fields, the
/// coefficients and the time step alone: two states with equal fields step
/// to equal cells, so independently built copies of one input give
/// identical outputs.
pub proof fn lemma_step_deterministic(a: State, b: State, p: Params, dt: u32, y: int, x: int)
    ensures
        a.phi == b.phi && a.vx == b.vx && a.vy == b.vy && a.s == b.s ==> step_cell(a, p, dt, y, x)
            == step_cell(b, p, dt, y, x),
{
    if a.phi == b.phi && a.vx == b.vx && a.vy == b.vy && a.s == b.s {
        assert(a == b);
    }
}

} // verus!
