//! The mathematical model of a point: four naturals and the functions on
//! them that the contracts of [`crate::Point`] are written in.

use vstd::prelude::*;

verus! {

/// What a point is, seen as numbers: its coordinates and, for each axis, the
/// exclusive upper bound it carries.
pub struct PointView {
    pub x: nat,
    pub y: nat,
    pub x_bound: nat,
    pub y_bound: nat,
}

impl PointView {
    /// Each coordinate lies below its bound.
    pub open spec fn in_bounds(self) -> bool {
        self.x < self.x_bound && self.y < self.y_bound
    }

    /// Every one of the four numbers is a machine word.
    pub open spec fn fits(self) -> bool {
        &&& self.x <= usize::MAX
        &&& self.y <= usize::MAX
        &&& self.x_bound <= usize::MAX
        &&& self.y_bound <= usize::MAX
    }

    /// The point at `(x, y)` under the pair of bounds `bounds`, x bound
    /// first.
    pub open spec fn built(bounds: (nat, nat), x: nat, y: nat) -> PointView {
        PointView { x, y, x_bound: bounds.0, y_bound: bounds.1 }
    }

    /// The same bounds around other coordinates.
    pub open spec fn at(self, x: nat, y: nat) -> PointView {
        PointView { x, y, x_bound: self.x_bound, y_bound: self.y_bound }
    }

    /// A displacement: coordinates `(dx, dy)` with bounds that play no part.
    pub open spec fn step(dx: nat, dy: nat) -> PointView {
        PointView { x: dx, y: dy, x_bound: 0, y_bound: 0 }
    }

    /// Coordinate-wise sum under the bounds of `self`.
    pub open spec fn plus(self, other: PointView) -> PointView {
        self.at(self.x + other.x, self.y + other.y)
    }

    /// Coordinate-wise difference under the bounds of `self`; meaningful
    /// where `other` exceeds `self` on neither axis.
    pub open spec fn minus(self, other: PointView) -> PointView
        recommends
            other.x <= self.x,
            other.y <= self.y,
    {
        self.at((self.x - other.x) as nat, (self.y - other.y) as nat)
    }

    /// The sum, provided it stays inside the bounds of `self`. The bounds of
    /// `other` are not consulted.
    pub open spec fn checked_add(self, other: PointView) -> Option<PointView> {
        if self.plus(other).in_bounds() {
            Some(self.plus(other))
        } else {
            None
        }
    }

    /// The difference, provided neither coordinate would drop below zero.
    /// The upper bounds are not consulted.
    pub open spec fn checked_sub(self, other: PointView) -> Option<PointView> {
        if other.x <= self.x && other.y <= self.y {
            Some(self.minus(other))
        } else {
            None
        }
    }

    /// One step up the y axis.
    pub open spec fn north(self) -> Option<PointView> {
        self.checked_add(Self::step(0, 1))
    }

    /// One step down the y axis.
    pub open spec fn south(self) -> Option<PointView> {
        self.checked_sub(Self::step(0, 1))
    }

    /// One step up the x axis.
    pub open spec fn east(self) -> Option<PointView> {
        self.checked_add(Self::step(1, 0))
    }

    /// One step down the x axis.
    pub open spec fn west(self) -> Option<PointView> {
        self.checked_sub(Self::step(1, 0))
    }

    /// At least one of the four steps exists.
    pub open spec fn has_neighbor(self) -> bool {
        ||| self.north() is Some
        ||| self.south() is Some
        ||| self.east() is Some
        ||| self.west() is Some
    }

    /// The steps that exist, in the order north, south, east, west.
    pub open spec fn neighbors(self) -> Seq<PointView> {
        Self::present(self.north()) + Self::present(self.south()) + Self::present(self.east())
            + Self::present(self.west())
    }

    /// An optional value as a sequence of length zero or one.
    pub open spec fn present(step: Option<PointView>) -> Seq<PointView> {
        match step {
            Some(p) => seq![p],
            None => Seq::empty(),
        }
    }
}

} // verus!
