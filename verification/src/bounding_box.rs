use vstd::prelude::*;
use crate::point::Point;

verus! {

/// The smaller of two integers.
pub open spec fn lower(a: int, b: int) -> int {
    if a <= b { a } else { b }
}

/// The larger of two integers.
pub open spec fn upper(a: int, b: int) -> int {
    if a >= b { a } else { b }
}

/// Whether `q` lies in the closed axis-aligned box with corners `p` and `r`.
/// The corners may come in any order.
pub open spec fn in_box(p: Point, q: Point, r: Point) -> bool {
    &&& q.x <= upper(p.x as int, r.x as int)
    &&& q.x >= lower(p.x as int, r.x as int)
    &&& q.y <= upper(p.y as int, r.y as int)
    &&& q.y >= lower(p.y as int, r.y as int)
}

/// Decides whether `q` lies in the closed box with corners `p` and `r`.
pub fn is_point_in_box(p: Point, q: Point, r: Point) -> (inside: bool)
    ensures
        inside == in_box(p, q, r),
{
    let x_hi: i32 = if p.x >= r.x { p.x } else { r.x };
    let x_lo: i32 = if p.x <= r.x { p.x } else { r.x };
    let y_hi: i32 = if p.y >= r.y { p.y } else { r.y };
    let y_lo: i32 = if p.y <= r.y { p.y } else { r.y };
    q.x <= x_hi && q.x >= x_lo && q.y <= y_hi && q.y >= y_lo
}

/// The box does not depend on the order of its corners.
pub proof fn lemma_box_corners_exchange(p: Point, q: Point, r: Point)
    ensures
        in_box(p, q, r) == in_box(r, q, p),
{
}

/// A point lies in a box exactly if each coordinate lies between the corners'.
pub proof fn lemma_in_box_between(p: Point, q: Point, r: Point)
    ensures
        in_box(p, q, r) <==> {
            &&& (p.x <= q.x <= r.x || r.x <= q.x <= p.x)
            &&& (p.y <= q.y <= r.y || r.y <= q.y <= p.y)
        },
{
}

/// The answer is a function of the three points: any two results that
/// `is_point_in_box` may give for the same points are equal.
pub proof fn lemma_is_point_in_box_repeatable(p: Point, q: Point, r: Point, first: bool, second: bool)
    requires
        call_ensures(is_point_in_box, (p, q, r), first),
        call_ensures(is_point_in_box, (p, q, r), second),
    ensures
        first == second,
{
}

} // verus!
