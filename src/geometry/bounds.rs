//! Bounding boxes of sets of positions.

use vstd::prelude::*;
use crate::geometry::{Box, Position, Size};

verus! {

/// Whether `b` is the smallest box that holds every position of `points`:
/// its left and right edges are the least and the greatest `x`, its top and
/// bottom edges the least and the greatest `y`.
pub open spec fn is_bounding_box(points: Seq<Position<i32>>, b: Box<i32>) -> bool {
    &&& forall|k: int|
        0 <= k < points.len() ==> {
            &&& b.position.x <= #[trigger] points[k].x <= b.position.x + b.size.width
            &&& b.position.y <= points[k].y <= b.position.y + b.size.height
        }
    &&& exists|k: int| 0 <= k < points.len() && #[trigger] points[k].x == b.position.x
    &&& exists|k: int|
        0 <= k < points.len() && #[trigger] points[k].x == b.position.x + b.size.width
    &&& exists|k: int| 0 <= k < points.len() && #[trigger] points[k].y == b.position.y
    &&& exists|k: int|
        0 <= k < points.len() && #[trigger] points[k].y == b.position.y + b.size.height
}

/// Whether the spread of the coordinates of `points` fits in an `i32`, so that
/// the width and the height of their bounding box can be represented.
pub open spec fn extents_fit(points: Seq<Position<i32>>) -> bool {
    forall|i: int, j: int|
        #![trigger points[i], points[j]]
        0 <= i < points.len() && 0 <= j < points.len() ==> {
            &&& points[i].x - points[j].x <= i32::MAX
            &&& points[i].y - points[j].y <= i32::MAX
        }
}

/// Computes the bounding box of a set of positions.
///
/// An empty set gives the box at the origin with zero size.
pub fn compute_bounds(points: &Vec<Position<i32>>) -> (r: Box<i32>)
    requires
        extents_fit(points@),
    ensures
        points@.len() == 0 ==> r == (Box {
            position: Position { x: 0i32, y: 0i32 },
            size: Size { width: 0i32, height: 0i32 },
        }),
        points@.len() > 0 ==> is_bounding_box(points@, r),
{
    if points.len() == 0 {
        return Box::new(Position::new(0, 0), Size::new(0, 0));
    }
    let mut left: i32 = points[0].x;
    let mut top: i32 = points[0].y;
    let mut right: i32 = points[0].x;
    let mut bottom: i32 = points[0].y;
    let ghost mut il: int = 0;
    let ghost mut it: int = 0;
    let ghost mut ir: int = 0;
    let ghost mut ib: int = 0;
    let mut i: usize = 0;
    while i < points.len()
        invariant
            0 <= i <= points@.len(),
            points@.len() > 0,
            0 <= il < points@.len(),
            0 <= it < points@.len(),
            0 <= ir < points@.len(),
            0 <= ib < points@.len(),
            points@[il].x == left,
            points@[ir].x == right,
            points@[it].y == top,
            points@[ib].y == bottom,
            left <= right,
            top <= bottom,
            forall|k: int|
                0 <= k < i ==> {
                    &&& left <= #[trigger] points@[k].x <= right
                    &&& top <= points@[k].y <= bottom
                },
        decreases points@.len() - i,
    {
        let point = points[i];
        if point.x < left {
            left = point.x;
            proof {
                il = i as int;
            }
        } else if point.x > right {
            right = point.x;
            proof {
                ir = i as int;
            }
        }
        if point.y < top {
            top = point.y;
            proof {
                it = i as int;
            }
        } else if point.y > bottom {
            bottom = point.y;
            proof {
                ib = i as int;
            }
        }
        i = i + 1;
    }
    assert(right - left <= i32::MAX) by {
        assert(points@[ir].x - points@[il].x <= i32::MAX);
    }
    assert(bottom - top <= i32::MAX) by {
        assert(points@[ib].y - points@[it].y <= i32::MAX);
    }
    let r = Box::new(Position::new(left, top), Size::new(right - left, bottom - top));
    assert(points@[il].x == r.position.x);
    assert(points@[ir].x == r.position.x + r.size.width);
    assert(points@[it].y == r.position.y);
    assert(points@[ib].y == r.position.y + r.size.height);
    r
}

} // verus!
