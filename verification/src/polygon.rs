use vstd::prelude::*;
use crate::point::Point;

verus! {

/// The normal of the edge that leaves vertex `i` of the closed polygon `poly`:
/// for the edge vector `(dx, dy)` to the next vertex, the vector `(dy, -dx)`.
/// The last vertex is followed by the first.
pub open spec fn edge_normal(poly: Seq<Point>, i: int) -> (int, int) {
    let from = poly[i];
    let to = poly[(i + 1) % (poly.len() as int)];
    (to.y - from.y, from.x - to.x)
}

/// The projection of `pt` onto the axis `n`: their dot product.
pub open spec fn projection(n: (int, int), pt: Point) -> int {
    n.0 * pt.x + n.1 * pt.y
}

/// Whether every vertex of `a` projects onto `n` at or below every vertex of `b`.
pub open spec fn lies_below(n: (int, int), a: Seq<Point>, b: Seq<Point>) -> bool {
    forall|i: int, j: int|
        0 <= i < a.len() && 0 <= j < b.len() ==> projection(n, #[trigger] a[i]) <= projection(
            n,
            #[trigger] b[j],
        )
}

/// Whether the axis `n` separates `a` from `b`: the closed intervals that the
/// two project onto have no common interior, one ending where or before the
/// other begins. Intervals that only touch count as separated, and so does a
/// polygon without vertices from any other.
pub open spec fn axis_separates(n: (int, int), a: Seq<Point>, b: Seq<Point>) -> bool {
    lies_below(n, a, b) || lies_below(n, b, a)
}

/// Whether the normal of one of the first `k` edges of `poly` separates `a`
/// from `b`.
pub open spec fn edge_separates_before(
    poly: Seq<Point>,
    k: int,
    a: Seq<Point>,
    b: Seq<Point>,
) -> bool {
    exists|i: int| 0 <= i < k && #[trigger] axis_separates(edge_normal(poly, i), a, b)
}

/// Whether two closed convex polygons overlap: no edge normal of either one
/// separates them.
pub open spec fn polygons_overlap(a: Seq<Point>, b: Seq<Point>) -> bool {
    &&& !edge_separates_before(a, a.len() as int, a, b)
    &&& !edge_separates_before(b, b.len() as int, a, b)
}

/// Whether `lo` is the least and `hi` the greatest projection onto `n` among
/// the vertices of `poly`.
spec fn spans(n: (int, int), poly: Seq<Point>, lo: int, hi: int) -> bool {
    &&& forall|i: int| 0 <= i < poly.len() ==> lo <= projection(n, #[trigger] poly[i]) <= hi
    &&& exists|i: int| 0 <= i < poly.len() && projection(n, #[trigger] poly[i]) == lo
    &&& exists|i: int| 0 <= i < poly.len() && projection(n, #[trigger] poly[i]) == hi
}

/// Whether `v` can be a component of an edge normal: a difference of two
/// coordinates.
spec fn is_coordinate_difference(v: int) -> bool {
    -0x1_0000_0000 < v < 0x1_0000_0000
}

/// The projection of a grid point onto an axis made of coordinate differences
/// stays within 65 bits and a sign.
proof fn lemma_projection_bound(nx: int, ny: int, x: int, y: int)
    by (nonlinear_arith)
    requires
        -0x1_0000_0000 < nx < 0x1_0000_0000,
        -0x1_0000_0000 < ny < 0x1_0000_0000,
        -0x8000_0000 <= x < 0x8000_0000,
        -0x8000_0000 <= y < 0x8000_0000,
    ensures
        -0x8000_0000_0000_0000 < nx * x < 0x8000_0000_0000_0000,
        -0x8000_0000_0000_0000 < ny * y < 0x8000_0000_0000_0000,
{
}

/// Projects `pt` onto the axis `(nx, ny)`.
fn project(nx: i64, ny: i64, pt: Point) -> (v: i128)
    requires
        is_coordinate_difference(nx as int),
        is_coordinate_difference(ny as int),
    ensures
        v == projection((nx as int, ny as int), pt),
{
    proof {
        lemma_projection_bound(nx as int, ny as int, pt.x as int, pt.y as int);
    }
    (nx as i128) * (pt.x as i128) + (ny as i128) * (pt.y as i128)
}

/// The least and the greatest projection of the vertices of `poly` onto the
/// axis `(nx, ny)`; `None` for a polygon without vertices.
fn extent(nx: i64, ny: i64, poly: &Vec<Point>) -> (e: Option<(i128, i128)>)
    requires
        is_coordinate_difference(nx as int),
        is_coordinate_difference(ny as int),
    ensures
        e is None <==> poly.len() == 0,
        e matches Some((lo, hi)) ==> spans((nx as int, ny as int), poly@, lo as int, hi as int),
{
    if poly.len() == 0 {
        return None;
    }
    let ghost n = (nx as int, ny as int);
    let first: i128 = project(nx, ny, poly[0]);
    let mut lo: i128 = first;
    let mut hi: i128 = first;
    let ghost mut at_lo: int = 0;
    let ghost mut at_hi: int = 0;
    let mut k: usize = 1;
    while k < poly.len()
        invariant
            1 <= k <= poly.len(),
            n == (nx as int, ny as int),
            is_coordinate_difference(nx as int),
            is_coordinate_difference(ny as int),
            forall|i: int| 0 <= i < k ==> lo <= projection(n, #[trigger] poly@[i]) <= hi,
            0 <= at_lo < k && projection(n, poly@[at_lo]) == lo,
            0 <= at_hi < k && projection(n, poly@[at_hi]) == hi,
        decreases poly.len() - k,
    {
        let projected: i128 = project(nx, ny, poly[k]);
        if projected < lo {
            lo = projected;
            proof {
                at_lo = k as int;
            }
        }
        if projected > hi {
            hi = projected;
            proof {
                at_hi = k as int;
            }
        }
        k = k + 1;
    }
    Some((lo, hi))
}

/// Decides whether the axis `(nx, ny)` separates `a` from `b`.
fn separates(nx: i64, ny: i64, a: &Vec<Point>, b: &Vec<Point>) -> (apart: bool)
    requires
        is_coordinate_difference(nx as int),
        is_coordinate_difference(ny as int),
    ensures
        apart == axis_separates((nx as int, ny as int), a@, b@),
{
    let ghost n = (nx as int, ny as int);
    match (extent(nx, ny, a), extent(nx, ny, b)) {
        (Some((lo_a, hi_a)), Some((lo_b, hi_b))) => {
            proof {
                let top_a = choose|i: int| 0 <= i < a@.len() && projection(n, #[trigger] a@[i]) == hi_a;
                let bottom_a = choose|i: int| 0 <= i < a@.len() && projection(n, #[trigger] a@[i]) == lo_a;
                let top_b = choose|i: int| 0 <= i < b@.len() && projection(n, #[trigger] b@[i]) == hi_b;
                let bottom_b = choose|i: int| 0 <= i < b@.len() && projection(n, #[trigger] b@[i]) == lo_b;
                assert(lies_below(n, a@, b@) ==> projection(n, a@[top_a]) <= projection(n, b@[bottom_b]));
                assert(lies_below(n, b@, a@) ==> projection(n, b@[top_b]) <= projection(n, a@[bottom_a]));
                assert(hi_a <= lo_b ==> lies_below(n, a@, b@));
                assert(hi_b <= lo_a ==> lies_below(n, b@, a@));
            }
            hi_a <= lo_b || hi_b <= lo_a
        },
        _ => true,
    }
}

/// Decides whether the normal of some edge of `poly` separates `a` from `b`.
fn some_edge_separates(poly: &Vec<Point>, a: &Vec<Point>, b: &Vec<Point>) -> (found: bool)
    ensures
        found == edge_separates_before(poly@, poly@.len() as int, a@, b@),
{
    let count: usize = poly.len();
    let mut i: usize = 0;
    while i < count
        invariant
            count == poly@.len(),
            0 <= i <= count,
            !edge_separates_before(poly@, i as int, a@, b@),
        decreases count - i,
    {
        let next: usize = (i + 1) % count;
        let from = poly[i];
        let to = poly[next];
        let nx: i64 = to.y as i64 - from.y as i64;
        let ny: i64 = from.x as i64 - to.x as i64;
        assert((nx as int, ny as int) == edge_normal(poly@, i as int));
        if separates(nx, ny, a, b) {
            return true;
        }
        i = i + 1;
    }
    false
}

/// Decides whether two closed convex polygons overlap, by separating axes:
/// they do unless the normal of an edge of either one separates them.
pub fn are_polygons_intersecting(poly_a: Vec<Point>, poly_b: Vec<Point>) -> (overlap: bool)
    ensures
        overlap == polygons_overlap(poly_a@, poly_b@),
{
    if some_edge_separates(&poly_a, &poly_a, &poly_b) {
        return false;
    }
    !some_edge_separates(&poly_b, &poly_a, &poly_b)
}

/// The answer is a function of the two vertex sequences: any two results that
/// `are_polygons_intersecting` may give for the same polygons are equal.
pub proof fn lemma_are_polygons_intersecting_repeatable(
    poly_a: Vec<Point>,
    poly_b: Vec<Point>,
    first: bool,
    second: bool,
)
    requires
        call_ensures(are_polygons_intersecting, (poly_a, poly_b), first),
        call_ensures(are_polygons_intersecting, (poly_a, poly_b), second),
    ensures
        first == second,
{
}

/// Overlap does not depend on which polygon is named first.
pub proof fn lemma_overlap_symmetric(a: Seq<Point>, b: Seq<Point>)
    ensures
        polygons_overlap(a, b) == polygons_overlap(b, a),
{
    assert forall|poly: Seq<Point>, k: int|
        edge_separates_before(poly, k, a, b) == edge_separates_before(poly, k, b, a) by {
        if edge_separates_before(poly, k, a, b) {
            let i = choose|i: int| 0 <= i < k && #[trigger] axis_separates(edge_normal(poly, i), a, b);
            assert(axis_separates(edge_normal(poly, i), b, a));
        }
        if edge_separates_before(poly, k, b, a) {
            let i = choose|i: int| 0 <= i < k && #[trigger] axis_separates(edge_normal(poly, i), b, a);
            assert(axis_separates(edge_normal(poly, i), a, b));
        }
    }
}

/// Polygons without vertices: two of them overlap, and one of them overlaps
/// no polygon that has a vertex, since every axis separates them.
pub proof fn lemma_overlap_without_vertices(a: Seq<Point>, b: Seq<Point>)
    requires
        a.len() == 0 || b.len() == 0,
    ensures
        polygons_overlap(a, b) <==> a.len() == 0 && b.len() == 0,
{
    if a.len() > 0 {
        assert(axis_separates(edge_normal(a, 0), a, b));
    }
    if b.len() > 0 {
        assert(axis_separates(edge_normal(b, 0), a, b));
    }
}

/// A polygon of a single vertex overlaps nothing: its one edge has the zero
/// vector as its normal, onto which everything projects to zero.
pub proof fn lemma_single_vertex_overlaps_nothing(a: Seq<Point>, b: Seq<Point>)
    requires
        a.len() == 1,
    ensures
        !polygons_overlap(a, b),
        !polygons_overlap(b, a),
{
    assert(edge_normal(a, 0) == (0int, 0int));
    assert(axis_separates(edge_normal(a, 0), a, b));
    lemma_overlap_symmetric(a, b);
}

/// Where two polygons overlap they interlock on the normal of every edge of
/// either one: some vertex of the first projects strictly above some vertex of
/// the second, and some vertex of the second strictly above some vertex of the
/// first.
pub proof fn lemma_overlap_interlocks(a: Seq<Point>, b: Seq<Point>, poly: Seq<Point>, i: int)
    requires
        polygons_overlap(a, b),
        poly == a || poly == b,
        0 <= i < poly.len(),
    ensures
        exists|k: int, l: int|
            0 <= k < a.len() && 0 <= l < b.len() && projection(
                edge_normal(poly, i),
                #[trigger] a[k],
            ) > projection(edge_normal(poly, i), #[trigger] b[l]),
        exists|k: int, l: int|
            0 <= k < a.len() && 0 <= l < b.len() && projection(
                edge_normal(poly, i),
                #[trigger] a[k],
            ) < projection(edge_normal(poly, i), #[trigger] b[l]),
{
    let n = edge_normal(poly, i);
    assert(!axis_separates(n, a, b));
    assert(!lies_below(n, a, b));
    assert(!lies_below(n, b, a));
}

} // verus!
