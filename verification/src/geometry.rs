//! The quad: two triangles that together cover normalized device space.
//!
//! A coordinate is -1, 0 or 1 and is held as an integer; the host widens it
//! to a 32-bit float when it uploads the buffer.

use vstd::prelude::*;

verus! {

/// How many coordinates make up one vertex.
pub const COMPONENTS_PER_VERTEX: usize = 3;

/// How many coordinates the quad has in all.
pub const QUAD_COORDINATES: usize = 18;

/// The quad's coordinates, vertex by vertex, `x`, `y`, `z` each.
pub open spec fn quad_coordinates() -> Seq<i8> {
    seq![
        -1i8, -1i8, 0i8,
        -1i8, 1i8, 0i8,
        1i8, 1i8, 0i8,
        1i8, 1i8, 0i8,
        1i8, -1i8, 0i8,
        -1i8, -1i8, 0i8,
    ]
}

pub open spec fn quad_x(vertex: int) -> int {
    quad_coordinates()[3 * vertex] as int
}

pub open spec fn quad_y(vertex: int) -> int {
    quad_coordinates()[3 * vertex + 1] as int
}

pub open spec fn quad_z(vertex: int) -> int {
    quad_coordinates()[3 * vertex + 2] as int
}

/// On which side of the line from vertex `a` to vertex `b` the point
/// `(px / s, py / s)` lies: negative to its right, positive to its left,
/// zero on it. (The cross product of the two directions, times `s`.)
pub open spec fn side(a: int, b: int, px: int, py: int, s: int) -> int {
    (quad_x(b) - quad_x(a)) * (py - quad_y(a) * s) - (quad_y(b) - quad_y(a)) * (px - quad_x(a)
        * s)
}

/// The point `(px / s, py / s)` lies in the quad's triangle `t`, its edges
/// included. Both triangles are wound clockwise, so the inside is to the
/// right of every edge.
pub open spec fn in_triangle(t: int, px: int, py: int, s: int) -> bool {
    &&& side(3 * t, 3 * t + 1, px, py, s) <= 0
    &&& side(3 * t + 1, 3 * t + 2, px, py, s) <= 0
    &&& side(3 * t + 2, 3 * t, px, py, s) <= 0
}

/// The point `(px / s, py / s)` lies in the square from -1 to 1.
pub open spec fn in_square(px: int, py: int, s: int) -> bool {
    -s <= px <= s && -s <= py <= s
}

/// The quad as the array that is uploaded.
pub open spec fn quad_array() -> [i8; 18] {
    [
        -1i8, -1i8, 0i8,
        -1i8, 1i8, 0i8,
        1i8, 1i8, 0i8,
        1i8, 1i8, 0i8,
        1i8, -1i8, 0i8,
        -1i8, -1i8, 0i8,
    ]
}

/// The array holds the quad's coordinates, and nothing else does: an array
/// with these coordinates is this array.
pub proof fn lemma_quad_array(v: [i8; 18])
    ensures
        quad_array()@ == quad_coordinates(),
        v@ == quad_coordinates() <==> v == quad_array(),
{
    assert(quad_array()@ =~= quad_coordinates());
    if v@ == quad_coordinates() {
        assert(v@ =~= quad_array()@);
        assert(v =~= quad_array());
    }
}

/// The quad as an array, ready to be uploaded.
pub fn quad_vertices() -> (v: [i8; 18])
    ensures
        v == quad_array(),
        v@ == quad_coordinates(),
{
    let v: [i8; 18] = [-1, -1, 0, -1, 1, 0, 1, 1, 0, 1, 1, 0, 1, -1, 0, -1, -1, 0];
    proof {
        assert(v@ =~= quad_coordinates());
        lemma_quad_array(v);
    }
    v
}

/// Where the six vertices lie: on the corners of the square, in the plane
/// `z = 0`, in this order.
pub proof fn lemma_quad_corners()
    ensures
        quad_coordinates().len() == 18,
        quad_x(0) == -1 && quad_y(0) == -1,
        quad_x(1) == -1 && quad_y(1) == 1,
        quad_x(2) == 1 && quad_y(2) == 1,
        quad_x(3) == 1 && quad_y(3) == 1,
        quad_x(4) == 1 && quad_y(4) == -1,
        quad_x(5) == -1 && quad_y(5) == -1,
        forall|vertex: int| 0 <= vertex < 6 ==> quad_z(vertex) == 0,
{
}

/// The two triangles cover exactly the square: a point with rational
/// coordinates lies in the square if and only if it lies in one of them.
/// They share no more than the diagonal from (-1, -1) to (1, 1).
pub proof fn lemma_quad_covers_square(px: int, py: int, s: int)
    requires
        s > 0,
    ensures
        in_square(px, py, s) <==> in_triangle(0, px, py, s) || in_triangle(1, px, py, s),
        in_triangle(0, px, py, s) && in_triangle(1, px, py, s) ==> px == py,
{
    lemma_quad_corners();
}

/// Both triangles are wound clockwise, and each has area 2, half of the
/// square's: the cross product of two of its edges is -4.
pub proof fn lemma_quad_winding()
    ensures
        side(0, 1, quad_x(2), quad_y(2), 1) == -4,
        side(3, 4, quad_x(5), quad_y(5), 1) == -4,
{
    lemma_quad_corners();
}

} // verus!
