//! What holds of every point, whichever way it was obtained.

use crate::model::PointView;
use crate::point::Point;
use vstd::prelude::*;
use vstd::std_specs::ops::AddSpec;
use vstd::std_specs::ops::SubSpec;

verus! {

/// The point that a builder with bounds `(bx, by)` builds at `(x, y)`, where
/// `x < bx` and `y < by`, has exactly `(x, y)` as its coordinates and lies in
/// bounds.
pub proof fn lemma_build_get(bx: usize, by: usize, x: usize, y: usize)
    requires
        x < bx,
        y < by,
    ensures
        PointView::built((bx as nat, by as nat), x as nat, y as nat).x == x,
        PointView::built((bx as nat, by as nat), x as nat, y as nat).y == y,
        PointView::built((bx as nat, by as nat), x as nat, y as nat).in_bounds(),
{
}

/// From a point in bounds, each of the four steps exists exactly when the
/// coordinate it moves stays in `[0, bound)`, and then it changes that one
/// coordinate by one and nothing else.
pub proof fn lemma_steps(p: Point)
    requires
        p@.in_bounds(),
    ensures
        p@.north() == if p@.y + 1 < p@.y_bound {
            Some(p@.at(p@.x, p@.y + 1))
        } else {
            None
        },
        p@.south() == if p@.y >= 1 {
            Some(p@.at(p@.x, (p@.y - 1) as nat))
        } else {
            None
        },
        p@.east() == if p@.x + 1 < p@.x_bound {
            Some(p@.at(p@.x + 1, p@.y))
        } else {
            None
        },
        p@.west() == if p@.x >= 1 {
            Some(p@.at((p@.x - 1) as nat, p@.y))
        } else {
            None
        },
{
}

/// A point in bounds is without any neighbor only as the single cell of a
/// grid of one by one.
pub proof fn lemma_alone_iff_single_cell(p: Point)
    requires
        p@.in_bounds(),
    ensures
        !p@.has_neighbor() <==> p@.x_bound == 1 && p@.y_bound == 1,
{
}

/// Stepping north and then south leads back to the point one started from.
/// Nothing is asked of `p` itself: a north step that exists starts in bounds.
pub proof fn lemma_north_then_south(p: Point, there: Point, back: Point)
    requires
        p@.north() == Some(there@),
        there@.south() == Some(back@),
    ensures
        back == p,
{
    back.lemma_eq_iff_fields(p);
}

/// Stepping east and then west leads back to the point one started from.
/// Nothing is asked of `p` itself: an east step that exists starts in bounds.
pub proof fn lemma_east_then_west(p: Point, there: Point, back: Point)
    requires
        p@.east() == Some(there@),
        there@.west() == Some(back@),
    ensures
        back == p,
{
    back.lemma_eq_iff_fields(p);
}

/// Where the checked sum exists, `+` may be used and gives that same point.
pub proof fn lemma_plus_where_checked_add(p: Point, q: Point, sum: Point)
    requires
        p@.checked_add(q@) == Some(sum@),
    ensures
        p.add_req(q),
        sum@ == p@.plus(q@),
{
    p.lemma_view_fits();
}

/// Where the checked difference exists, `-` may be used and gives that same
/// point.
pub proof fn lemma_minus_where_checked_sub(p: Point, q: Point, difference: Point)
    requires
        p@.checked_sub(q@) == Some(difference@),
    ensures
        p.sub_req(q),
        difference@ == p@.minus(q@),
{
}

} // verus!
