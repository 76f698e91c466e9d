use vstd::prelude::*;
use crate::point::Point;

verus! {

/// The rotational sense of an ordered triple of points.
#[derive(Clone, Copy, Debug, PartialEq, Eq, Structural)]
pub enum Orientation {
    Collinear,
    Clockwise,
    CounterClockwise,
}

impl Orientation {
    /// The orientation that a signed turn value stands for: zero is collinear,
    /// a positive value clockwise, a negative value counter-clockwise.
    pub open spec fn of_value(v: int) -> Orientation {
        if v == 0 {
            Orientation::Collinear
        } else if v > 0 {
            Orientation::Clockwise
        } else {
            Orientation::CounterClockwise
        }
    }

    /// The integer code of an orientation: 0 collinear, 1 clockwise,
    /// 2 counter-clockwise.
    pub open spec fn code_of(self) -> int {
        match self {
            Orientation::Collinear => 0,
            Orientation::Clockwise => 1,
            Orientation::CounterClockwise => 2,
        }
    }

    /// The orientation seen from the other side: clockwise and
    /// counter-clockwise change places, collinear stays.
    pub open spec fn reversed(self) -> Orientation {
        match self {
            Orientation::Collinear => Orientation::Collinear,
            Orientation::Clockwise => Orientation::CounterClockwise,
            Orientation::CounterClockwise => Orientation::Clockwise,
        }
    }

    /// Classifies a signed turn value.
    pub fn from_value(v: i128) -> (o: Orientation)
        ensures
            o == Orientation::of_value(v as int),
    {
        if v == 0 {
            Orientation::Collinear
        } else if v > 0 {
            Orientation::Clockwise
        } else {
            Orientation::CounterClockwise
        }
    }

    /// The integer code of this orientation.
    pub fn code(self) -> (c: i32)
        ensures
            c == self.code_of(),
    {
        match self {
            Orientation::Collinear => 0,
            Orientation::Clockwise => 1,
            Orientation::CounterClockwise => 2,
        }
    }
}

/// The turn value of the triple `p`, `q`, `r`: the cross product of the step
/// from `p` to `q` with the step from `q` to `r`, signed so that a right turn
/// is positive.
pub open spec fn turn(p: Point, q: Point, r: Point) -> int {
    (q.y - p.y) * (r.x - q.x) - (q.x - p.x) * (r.y - q.y)
}

/// The orientation of the triple `p`, `q`, `r`.
pub open spec fn orientation_of(p: Point, q: Point, r: Point) -> Orientation {
    Orientation::of_value(turn(p, q, r))
}

/// A product of two differences of `i32` values stays within 64 bits and a sign.
proof fn lemma_product_bound(a: int, b: int)
    by (nonlinear_arith)
    requires
        -0x1_0000_0000 < a < 0x1_0000_0000,
        -0x1_0000_0000 < b < 0x1_0000_0000,
    ensures
        -0x1_0000_0000_0000_0000 < a * b < 0x1_0000_0000_0000_0000,
{
}

/// Computes the orientation of the triple `p`, `q`, `r`, exactly.
pub fn triangle_orientation(p: Point, q: Point, r: Point) -> (o: Orientation)
    ensures
        o == orientation_of(p, q, r),
        o is Collinear <==> turn(p, q, r) == 0,
        o is Clockwise <==> turn(p, q, r) > 0,
        o is CounterClockwise <==> turn(p, q, r) < 0,
{
    let rise: i128 = q.y as i128 - p.y as i128;
    let run: i128 = q.x as i128 - p.x as i128;
    let next_rise: i128 = r.y as i128 - q.y as i128;
    let next_run: i128 = r.x as i128 - q.x as i128;
    proof {
        lemma_product_bound(rise as int, next_run as int);
        lemma_product_bound(run as int, next_rise as int);
    }
    let val: i128 = rise * next_run - run * next_rise;
    Orientation::from_value(val)
}

/// Computes the orientation of the triple `p`, `q`, `r` as its integer code:
/// 0 for collinear, 1 for clockwise, 2 for counter-clockwise.
pub fn get_triangle_orientation(p: Point, q: Point, r: Point) -> (c: i32)
    ensures
        c == orientation_of(p, q, r).code_of(),
        c == 0 <==> turn(p, q, r) == 0,
        c == 1 <==> turn(p, q, r) > 0,
        c == 2 <==> turn(p, q, r) < 0,
{
    triangle_orientation(p, q, r).code()
}

/// Exchanging the last two points of a triple negates its turn value.
pub proof fn lemma_turn_negates(p: Point, q: Point, r: Point)
    ensures
        turn(p, r, q) == -turn(p, q, r),
{
    let ax: int = q.x - p.x;
    let ay: int = q.y - p.y;
    let bx: int = r.x - q.x;
    let by: int = r.y - q.y;
    assert((ay + by) * (-bx) - (ax + bx) * (-by) == -(ay * bx - ax * by)) by (nonlinear_arith);
}

/// Exchanging the last two points of a triple reverses its orientation: a
/// triple that is not collinear turns the other way, and stays not collinear.
pub proof fn lemma_orientation_reverses(p: Point, q: Point, r: Point)
    ensures
        orientation_of(p, r, q) == orientation_of(p, q, r).reversed(),
        !(orientation_of(p, q, r) is Collinear) ==> {
            &&& !(orientation_of(p, r, q) is Collinear)
            &&& orientation_of(p, r, q) != orientation_of(p, q, r)
        },
{
    lemma_turn_negates(p, q, r);
}

/// Rotating a triple, so that its first point becomes its last, keeps its
/// turn value and so its orientation.
pub proof fn lemma_orientation_rotates(p: Point, q: Point, r: Point)
    ensures
        turn(q, r, p) == turn(p, q, r),
        orientation_of(q, r, p) == orientation_of(p, q, r),
{
    let ax: int = q.x - p.x;
    let ay: int = q.y - p.y;
    let bx: int = r.x - q.x;
    let by: int = r.y - q.y;
    assert(by * (-(ax + bx)) - bx * (-(ay + by)) == ay * bx - ax * by) by (nonlinear_arith);
}

/// A triple in which a point occurs twice is collinear.
pub proof fn lemma_repeated_point_collinear(p: Point, q: Point)
    ensures
        orientation_of(p, p, q) is Collinear,
        orientation_of(p, q, q) is Collinear,
        orientation_of(p, q, p) is Collinear,
{
    let dx: int = q.x - p.x;
    let dy: int = q.y - p.y;
    assert(dy * (-dx) - dx * (-dy) == 0) by (nonlinear_arith);
}

/// The orientation is a function of the three points: any two results that
/// `triangle_orientation` may give for the same points are equal.
pub proof fn lemma_triangle_orientation_repeatable(
    p: Point,
    q: Point,
    r: Point,
    first: Orientation,
    second: Orientation,
)
    requires
        call_ensures(triangle_orientation, (p, q, r), first),
        call_ensures(triangle_orientation, (p, q, r), second),
    ensures
        first == second,
{
}

/// The code is a function of the three points: any two results that
/// `get_triangle_orientation` may give for the same points are equal.
pub proof fn lemma_get_triangle_orientation_repeatable(
    p: Point,
    q: Point,
    r: Point,
    first: i32,
    second: i32,
)
    requires
        call_ensures(get_triangle_orientation, (p, q, r), first),
        call_ensures(get_triangle_orientation, (p, q, r), second),
    ensures
        first == second,
{
}

} // verus!
