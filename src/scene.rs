use vstd::prelude::*;

verus! {

/// Cubes stand on each side of the origin, this many per side.
pub const CUBES_PER_SIDE: i32 = 500;

/// The x positions of the row of cubes, from `-CUBES_PER_SIDE` up to
/// `CUBES_PER_SIDE - 1`, one unit apart.
pub fn cube_columns() -> (r: Vec<i32>)
    ensures
        r@.len() == 2 * CUBES_PER_SIDE,
        forall|i: int| 0 <= i < r@.len() ==> r@[i] == i - CUBES_PER_SIDE,
{
    let mut r: Vec<i32> = Vec::new();
    let mut x: i32 = -CUBES_PER_SIDE;
    while x < CUBES_PER_SIDE
        invariant
            -CUBES_PER_SIDE <= x <= CUBES_PER_SIDE,
            r@.len() == x + CUBES_PER_SIDE,
            forall|i: int| 0 <= i < r@.len() ==> r@[i] == i - CUBES_PER_SIDE,
        decreases CUBES_PER_SIDE - x,
    {
        r.push(x);
        x = x + 1;
    }
    r
}

} // verus!
