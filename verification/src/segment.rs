use vstd::prelude::*;
use crate::bounding_box::{in_box, is_point_in_box};
use crate::orientation::{orientation_of, triangle_orientation, Orientation};
use crate::point::Point;

verus! {

/// The rule that decides from four orientations and four box memberships
/// whether two segments meet: either the orientations show a crossing in
/// general position, or one of them is collinear and the point it was taken
/// for lies in the box of the segment it was taken against.
pub open spec fn meeting_rule(
    o1: Orientation,
    o2: Orientation,
    o3: Orientation,
    o4: Orientation,
    in1: bool,
    in2: bool,
    in3: bool,
    in4: bool,
) -> bool {
    ||| (o1 != o2 && o3 != o4)
    ||| (o1 is Collinear && in1)
    ||| (o2 is Collinear && in2)
    ||| (o3 is Collinear && in3)
    ||| (o4 is Collinear && in4)
}

/// Whether the segment from `p1` to `q1` and the segment from `p2` to `q2`
/// meet, by the orientation rule. The second and the third orientation are
/// both taken of `p1`, `q1`, `q2`.
pub open spec fn segments_meet(p1: Point, q1: Point, p2: Point, q2: Point) -> bool {
    meeting_rule(
        orientation_of(p1, q1, p2),
        orientation_of(p1, q1, q2),
        orientation_of(p1, q1, q2),
        orientation_of(p2, q2, q1),
        in_box(p1, p2, q1),
        in_box(p1, q2, q1),
        in_box(p2, p1, q2),
        in_box(p2, q1, q2),
    )
}

/// Applies the meeting rule to four orientations and four box memberships.
pub fn apply_meeting_rule(
    o1: Orientation,
    o2: Orientation,
    o3: Orientation,
    o4: Orientation,
    in1: bool,
    in2: bool,
    in3: bool,
    in4: bool,
) -> (meet: bool)
    ensures
        meet == meeting_rule(o1, o2, o3, o4, in1, in2, in3, in4),
{
    (o1 != o2 && o3 != o4)
        || (o1 == Orientation::Collinear && in1)
        || (o2 == Orientation::Collinear && in2)
        || (o3 == Orientation::Collinear && in3)
        || (o4 == Orientation::Collinear && in4)
}

/// Decides whether the segment from `p1` to `q1` and the segment from `p2` to
/// `q2` meet.
pub fn are_lines_intersecting(p1: Point, q1: Point, p2: Point, q2: Point) -> (meet: bool)
    ensures
        meet == segments_meet(p1, q1, p2, q2),
{
    let o1 = triangle_orientation(p1, q1, p2);
    let o2 = triangle_orientation(p1, q1, q2);
    let o3 = triangle_orientation(p1, q1, q2);
    let o4 = triangle_orientation(p2, q2, q1);
    apply_meeting_rule(
        o1,
        o2,
        o3,
        o4,
        is_point_in_box(p1, p2, q1),
        is_point_in_box(p1, q2, q1),
        is_point_in_box(p2, p1, q2),
        is_point_in_box(p2, q1, q2),
    )
}

/// The answer is a function of the four end points: any two results that
/// `are_lines_intersecting` may give for the same points are equal.
pub proof fn lemma_are_lines_intersecting_repeatable(
    p1: Point,
    q1: Point,
    p2: Point,
    q2: Point,
    first: bool,
    second: bool,
)
    requires
        call_ensures(are_lines_intersecting, (p1, q1, p2, q2), first),
        call_ensures(are_lines_intersecting, (p1, q1, p2, q2), second),
    ensures
        first == second,
{
}

/// Two segments of which an end point of the second lies on the first meet:
/// a point that is collinear with a segment and lies in its box is found by
/// the rule, whatever the other orientations are.
pub proof fn lemma_end_point_on_segment_meets(p1: Point, q1: Point, p2: Point, q2: Point)
    requires
        (orientation_of(p1, q1, p2) is Collinear && in_box(p1, p2, q1)) || (orientation_of(
            p1,
            q1,
            q2,
        ) is Collinear && in_box(p1, q2, q1)),
    ensures
        segments_meet(p1, q1, p2, q2),
{
}

} // verus!
