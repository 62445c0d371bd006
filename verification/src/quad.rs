//! The one shape that is drawn: a quad that covers the window, as two
//! triangles over four corners.
//!
//! The corners are kept as whole numbers; in normalised device coordinates
//! every one of them is -1 or 1.

use vstd::prelude::*;

verus! {

/// The corners of the quad, each an `(x, y)`: bottom left, bottom right, top
/// right, top left.
pub open spec fn corners() -> Seq<(i32, i32)> {
    seq![(-1i32, -1i32), (1i32, -1i32), (1i32, 1i32), (-1i32, 1i32)]
}

/// The indices of the corners, three for each triangle.
pub open spec fn indices() -> Seq<u32> {
    seq![0u32, 1u32, 2u32, 2u32, 3u32, 0u32]
}

/// Twice the signed area of the triangle `a`, `b`, `c`. It is positive
/// exactly if the three corners come in counter-clockwise order.
pub open spec fn doubled_area(a: (i32, i32), b: (i32, i32), c: (i32, i32)) -> int {
    (b.0 - a.0) * (c.1 - a.1) - (c.0 - a.0) * (b.1 - a.1)
}

/// Twice the signed area of triangle number `t` of an index list.
pub open spec fn doubled_area_of(corners: Seq<(i32, i32)>, indices: Seq<u32>, t: int) -> int {
    doubled_area(
        corners[indices[3 * t] as int],
        corners[indices[3 * t + 1] as int],
        corners[indices[3 * t + 2] as int],
    )
}

/// The index list is a list of triangles over the corners, each of them
/// wound counter-clockwise.
pub open spec fn winds_counter_clockwise(corners: Seq<(i32, i32)>, indices: Seq<u32>) -> bool {
    &&& indices.len() % 3 == 0
    &&& forall|i: int| 0 <= i < indices.len() ==> (#[trigger] indices[i]) < corners.len()
    &&& forall|t: int|
        0 <= t < indices.len() / 3 ==> #[trigger] doubled_area_of(corners, indices, t) > 0
}

/// The four corners of the quad.
pub fn quad_corners() -> (quad: Vec<(i32, i32)>)
    ensures
        quad@ == corners(),
{
    let quad: Vec<(i32, i32)> = vec![(-1i32, -1i32), (1i32, -1i32), (1i32, 1i32), (-1i32, 1i32)];
    assert(quad@ =~= corners());
    quad
}

/// The six indices of the quad's two triangles: 0, 1, 2 and 2, 3, 0.
pub fn quad_indices() -> (list: Vec<u32>)
    ensures
        list@ == indices(),
{
    let list: Vec<u32> = vec![0u32, 1u32, 2u32, 2u32, 3u32, 0u32];
    assert(list@ =~= indices());
    list
}

/// The quad's two triangles name corners that exist, are both wound
/// counter-clockwise, and together have the area of the square that the four
/// corners span.
pub proof fn lemma_quad_winds_counter_clockwise()
    ensures
        winds_counter_clockwise(corners(), indices()),
        doubled_area_of(corners(), indices(), 0) + doubled_area_of(corners(), indices(), 1) == 2
            * (2 * 2),
{
    let c = corners();
    let i = indices();
    assert(c[0] == (-1i32, -1i32) && c[1] == (1i32, -1i32) && c[2] == (1i32, 1i32) && c[3] == (
        -1i32,
        1i32,
    ));
    assert(i[0] == 0 && i[1] == 1 && i[2] == 2 && i[3] == 2 && i[4] == 3 && i[5] == 0);
    assert(2 * 2 - 2 * 0 == 4 && (-2) * (-2) - (-2) * 0 == 4) by (nonlinear_arith);
    assert(doubled_area(c[0], c[1], c[2]) == 2 * 2 - 2 * 0);
    assert(doubled_area(c[2], c[3], c[0]) == (-2) * (-2) - (-2) * 0);
    assert(doubled_area_of(c, i, 0) == 4);
    assert(doubled_area_of(c, i, 1) == 4);
    assert forall|t: int| 0 <= t < indices().len() / 3 implies #[trigger] doubled_area_of(
        corners(),
        indices(),
        t,
    ) > 0 by {
        assert(t == 0 || t == 1);
    }
}

} // verus!
