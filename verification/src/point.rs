//! Points, and the builder that hands a shared pair of bounds to each of them.

use crate::decimal::decimal;
use crate::decimal::decimal_string;
use crate::model::PointView;
use vstd::prelude::*;
use vstd::std_specs::cmp::PartialEqSpec;
use vstd::std_specs::cmp::PartialEqSpecImpl;
use vstd::std_specs::ops::AddSpecImpl;
use vstd::std_specs::ops::SubSpecImpl;

verus! {

/// Remembers a pair of exclusive upper bounds and stamps them on every point
/// it builds.
pub struct PointBuilder(usize, usize);

impl View for PointBuilder {
    type V = (nat, nat);

    /// The bounds for x and y.
    closed spec fn view(&self) -> (nat, nat) {
        (self.0 as nat, self.1 as nat)
    }
}

impl PointBuilder {
    /// A builder whose points carry `x` and `y` as bounds. Nothing is asked
    /// of the bounds: with a zero bound no point it builds is in bounds.
    pub fn new(x: usize, y: usize) -> (b: Self)
        ensures
            b@ == (x as nat, y as nat),
    {
        PointBuilder(x, y)
    }

    /// The point at `(x, y)` under this builder's bounds. The coordinates
    /// are taken as given, inside the bounds or not.
    pub fn build(&self, x: usize, y: usize) -> (p: Point)
        ensures
            p@ == PointView::built(self@, x as nat, y as nat),
    {
        Point(x, y, self.0, self.1)
    }
}

/// A position `(x, y)` together with the bounds `(x_bound, y_bound)` it was
/// built under, in that order.
#[derive(Copy, Clone, Debug, Hash)]
pub struct Point(usize, usize, usize, usize);

impl View for Point {
    type V = PointView;

    /// The four numbers, each as a natural.
    closed spec fn view(&self) -> PointView {
        PointView {
            x: self.0 as nat,
            y: self.1 as nat,
            x_bound: self.2 as nat,
            y_bound: self.3 as nat,
        }
    }
}

impl DeepView for Point {
    type V = PointView;

    open spec fn deep_view(&self) -> PointView {
        self@
    }
}

impl Point {
    /// A builder for points under the bounds `x` and `y`.
    pub fn builder(x: usize, y: usize) -> (b: PointBuilder)
        ensures
            b@ == (x as nat, y as nat),
    {
        PointBuilder::new(x, y)
    }

    /// Adds `other` coordinate by coordinate and keeps the bounds of `self`.
    /// The answer is `None` unless the sum lies inside those bounds; a sum
    /// that leaves the machine range lies outside any bound. The bounds of
    /// `other` do not matter.
    pub fn checked_add(self, other: Self) -> (r: Option<Self>)
        ensures
            r.deep_view() == self@.checked_add(other@),
            r matches Some(p) ==> p@.in_bounds(),
    {
        match (self.0.checked_add(other.0), self.1.checked_add(other.1)) {
            (Some(x), Some(y)) => {
                if x < self.2 && y < self.3 {
                    Some(Point(x, y, self.2, self.3))
                } else {
                    None
                }
            },
            _ => None,
        }
    }

    /// Subtracts `other` coordinate by coordinate and keeps the bounds of
    /// `self`. The answer is `None` exactly when a coordinate of `other`
    /// exceeds that of `self`; the upper bounds are not looked at.
    pub fn checked_sub(self, other: Self) -> (r: Option<Self>)
        ensures
            r.deep_view() == self@.checked_sub(other@),
            r matches Some(p) ==> p@.x + other@.x == self@.x && p@.y + other@.y == self@.y,
            r matches Some(p) ==> (self@.in_bounds() ==> p@.in_bounds()),
    {
        match (self.0.checked_sub(other.0), self.1.checked_sub(other.1)) {
            (Some(x), Some(y)) => Some(Point(x, y, self.2, self.3)),
            _ => None,
        }
    }

    /// The coordinates, without the bounds.
    pub fn get(self) -> (c: (usize, usize))
        ensures
            c.0 == self@.x,
            c.1 == self@.y,
    {
        (self.0, self.1)
    }

    /// The cardinal neighbors that exist, in the order north, south, east,
    /// west. A point without any neighbor has no business on a grid, so the
    /// caller has to rule that case out.
    pub fn check_neighbors(self) -> (r: Vec<Point>)
        requires
            self@.has_neighbor(),
        ensures
            r.deep_view() == self@.neighbors(),
            0 < r@.len() <= 4,
    {
        let mut rtn: Vec<Point> = Vec::with_capacity(4);
        if let Some(result) = self.north() {
            rtn.push(result);
        }
        assert(rtn.deep_view() =~= PointView::present(self@.north()));
        if let Some(result) = self.south() {
            rtn.push(result);
        }
        assert(rtn.deep_view() =~= PointView::present(self@.north()) + PointView::present(
            self@.south(),
        ));
        if let Some(result) = self.east() {
            rtn.push(result);
        }
        assert(rtn.deep_view() =~= PointView::present(self@.north()) + PointView::present(
            self@.south(),
        ) + PointView::present(self@.east()));
        if let Some(result) = self.west() {
            rtn.push(result);
        }
        assert(rtn.deep_view() =~= self@.neighbors());
        rtn
    }

    /// The point one step up the y axis, or `None` where that step leaves
    /// the bounds.
    pub fn north(self) -> (r: Option<Self>)
        ensures
            r.deep_view() == self@.north(),
    {
        self.checked_add(Point(0, 1, 0, 0))
    }

    /// The point one step down the y axis, or `None` at `y == 0`.
    pub fn south(self) -> (r: Option<Self>)
        ensures
            r.deep_view() == self@.south(),
    {
        self.checked_sub(Point(0, 1, 0, 0))
    }

    /// The point one step up the x axis, or `None` where that step leaves
    /// the bounds.
    pub fn east(self) -> (r: Option<Self>)
        ensures
            r.deep_view() == self@.east(),
    {
        self.checked_add(Point(1, 0, 0, 0))
    }

    /// The point one step down the x axis, or `None` at `x == 0`.
    pub fn west(self) -> (r: Option<Self>)
        ensures
            r.deep_view() == self@.west(),
    {
        self.checked_sub(Point(1, 0, 0, 0))
    }

    /// The coordinates as text: x in decimal, a comma, a space, y in
    /// decimal. The bounds are not shown.
    pub fn to_string(&self) -> (s: String)
        ensures
            s@ == decimal(self@.x) + seq![',', ' '] + decimal(self@.y),
    {
        let mut s = decimal_string(self.0);
        proof {
            reveal_strlit(", ");
        }
        s.append(", ");
        s.append(decimal_string(self.1).as_str());
        assert(s@ =~= decimal(self@.x) + seq![',', ' '] + decimal(self@.y)) by {
            assert(", "@ =~= seq![',', ' ']);
        }
        s
    }

    /// The four numbers of a point are machine words.
    pub proof fn lemma_view_fits(self)
        ensures
            self@.fits(),
    {
    }

    /// Two points are the same point exactly when they agree on x, on y, on
    /// the x bound and on the y bound; `==` in compiled code decides just
    /// that. Equal coordinates under different bounds make different points.
    pub proof fn lemma_eq_iff_fields(self, other: Point)
        ensures
            self == other <==> {
                &&& self@.x == other@.x
                &&& self@.y == other@.y
                &&& self@.x_bound == other@.x_bound
                &&& self@.y_bound == other@.y_bound
            },
            self == other <==> self@ == other@,
            PartialEqSpec::eq_spec(&self, &other) <==> self == other,
    {
    }
}

impl PartialEq for Point {
    /// Two points are the same when they agree on both coordinates and on
    /// both bounds.
    fn eq(&self, other: &Self) -> (r: bool) {
        self.0 == other.0 && self.1 == other.1 && self.2 == other.2 && self.3 == other.3
    }
}

impl PartialEqSpecImpl for Point {
    open spec fn obeys_eq_spec() -> bool {
        true
    }

    open spec fn eq_spec(&self, other: &Self) -> bool {
        self@ == other@
    }
}

impl Eq for Point {}

impl Default for Point {
    /// The origin under zero bounds, which is therefore not in bounds.
    fn default() -> (p: Self)
        ensures
            p@ == PointView::built((0, 0), 0, 0),
            !p@.in_bounds(),
    {
        Point(0, 0, 0, 0)
    }
}

impl core::ops::Add for Point {
    type Output = Point;

    /// The sum with no check against the bounds, under the bounds of `self`.
    fn add(self, other: Self) -> (r: Self)
        ensures
            r@ == self@.plus(other@),
    {
        Point(self.0 + other.0, self.1 + other.1, self.2, self.3)
    }
}

impl AddSpecImpl for Point {
    open spec fn obeys_add_spec() -> bool {
        true
    }

    /// Neither sum may leave the machine range.
    open spec fn add_req(self, other: Self) -> bool {
        self@.x + other@.x <= usize::MAX && self@.y + other@.y <= usize::MAX
    }

    /// The point that `+` returns. Its view is what `add` ensures.
    closed spec fn add_spec(self, other: Self) -> Self {
        Point((self.0 + other.0) as usize, (self.1 + other.1) as usize, self.2, self.3)
    }
}

impl core::ops::Sub for Point {
    type Output = Point;

    /// The difference with no check at all, under the bounds of `self`.
    fn sub(self, other: Self) -> (r: Self)
        ensures
            r@ == self@.minus(other@),
    {
        Point(self.0 - other.0, self.1 - other.1, self.2, self.3)
    }
}

impl SubSpecImpl for Point {
    open spec fn obeys_sub_spec() -> bool {
        true
    }

    /// Neither difference may drop below zero.
    open spec fn sub_req(self, other: Self) -> bool {
        other@.x <= self@.x && other@.y <= self@.y
    }

    /// The point that `-` returns. Its view is what `sub` ensures.
    closed spec fn sub_spec(self, other: Self) -> Self {
        Point((self.0 - other.0) as usize, (self.1 - other.1) as usize, self.2, self.3)
    }
}

} // verus!
