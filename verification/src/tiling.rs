//! Random tile-label generation (stub).
use rand::Rng;
use vstd::prelude::*;

verus! {

/// Relies on `rand::thread_rng` and `rand::Rng::gen_range` on the range
/// `0..k`: a draw strictly below `k`.  The range is nonempty since
/// `k >= 1`, so the call does not panic; nothing more is promised of a
/// random draw.
#[verifier::external_body]
fn random_below(k: u8) -> (r: u8)
    requires
        k >= 1,
    ensures
        r < k,
{
    rand::thread_rng().gen_range(0..k)
}

/// An `h` by `w` grid of random tile labels, each drawn from `[0, k)`.
pub fn random_tiling(h: usize, w: usize, k: u8) -> (t: Vec<Vec<u8>>)
    requires
        k >= 1,
    ensures
        t@.len() == h,
        forall|y: int| 0 <= y < h ==> (#[trigger] t@[y])@.len() == w,
        forall|y: int, x: int| 0 <= y < h && 0 <= x < w ==> #[trigger] t@[y]@[x] < k,
{
    let mut t: Vec<Vec<u8>> = Vec::new();
    for y in 0..h
        invariant
            k >= 1,
            t@.len() == y,
            forall|yy: int| 0 <= yy < y ==> (#[trigger] t@[yy])@.len() == w,
            forall|yy: int, xx: int| 0 <= yy < y && 0 <= xx < w ==> #[trigger] t@[yy]@[xx] < k,
    {
        let mut row: Vec<u8> = Vec::new();
        for x in 0..w
            invariant
                k >= 1,
                row@.len() == x,
                forall|xx: int| 0 <= xx < x ==> #[trigger] row@[xx] < k,
        {
            row.push(random_below(k));
        }
        t.push(row);
    }
    t
}

} // verus!
