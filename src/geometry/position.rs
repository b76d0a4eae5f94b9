//! A two-dimensional position.

use vstd::prelude::*;
use core::ops::Neg;
use vstd::std_specs::ops::{AddSpec, SubSpec, MulSpec, DivSpec, NegSpec};
use vstd::std_specs::ops::{AddSpecImpl, SubSpecImpl, MulSpecImpl, DivSpecImpl, NegSpecImpl};

verus! {

/// A position in the plane, with an `x` and a `y` coordinate.
///
/// The arithmetic operators act on both coordinates: `+` and `-` with another
/// position, `*` and `/` with a scalar, and unary `-`.
#[derive(Copy, Clone, PartialEq, Eq, Hash, Debug, Default)]
pub struct Position<T> {
    pub x: T,
    pub y: T,
}

impl<T> Position<T> {
    /// A position from its two coordinates.
    pub fn new(x: T, y: T) -> (r: Position<T>)
        ensures
            r.x == x,
            r.y == y,
    {
        Position { x: x, y: y }
    }
}

impl<T: core::ops::Add<Output = T>> core::ops::Add for Position<T> {
    type Output = Position<T>;

    fn add(self, other: Position<T>) -> (r: Position<T>) {
        Position { x: self.x + other.x, y: self.y + other.y }
    }
}

impl<T: core::ops::Add<Output = T>> AddSpecImpl for Position<T> {
    open spec fn obeys_add_spec() -> bool {
        T::obeys_add_spec()
    }

    open spec fn add_req(self, rhs: Position<T>) -> bool {
        self.x.add_req(rhs.x) && self.y.add_req(rhs.y)
    }

    open spec fn add_spec(self, rhs: Position<T>) -> Position<T> {
        Position { x: self.x.add_spec(rhs.x), y: self.y.add_spec(rhs.y) }
    }
}

impl<T: core::ops::Sub<Output = T>> core::ops::Sub for Position<T> {
    type Output = Position<T>;

    fn sub(self, other: Position<T>) -> (r: Position<T>) {
        Position { x: self.x - other.x, y: self.y - other.y }
    }
}

impl<T: core::ops::Sub<Output = T>> SubSpecImpl for Position<T> {
    open spec fn obeys_sub_spec() -> bool {
        T::obeys_sub_spec()
    }

    open spec fn sub_req(self, rhs: Position<T>) -> bool {
        self.x.sub_req(rhs.x) && self.y.sub_req(rhs.y)
    }

    open spec fn sub_spec(self, rhs: Position<T>) -> Position<T> {
        Position { x: self.x.sub_spec(rhs.x), y: self.y.sub_spec(rhs.y) }
    }
}

impl<T: Copy + core::ops::Mul<Output = T>> core::ops::Mul<T> for Position<T> {
    type Output = Position<T>;

    fn mul(self, factor: T) -> (r: Position<T>) {
        Position { x: self.x * factor, y: self.y * factor }
    }
}

impl<T: Copy + core::ops::Mul<Output = T>> MulSpecImpl<T> for Position<T> {
    open spec fn obeys_mul_spec() -> bool {
        T::obeys_mul_spec()
    }

    open spec fn mul_req(self, rhs: T) -> bool {
        self.x.mul_req(rhs) && self.y.mul_req(rhs)
    }

    open spec fn mul_spec(self, rhs: T) -> Position<T> {
        Position { x: self.x.mul_spec(rhs), y: self.y.mul_spec(rhs) }
    }
}

impl<T: Copy + core::ops::Div<Output = T>> core::ops::Div<T> for Position<T> {
    type Output = Position<T>;

    fn div(self, divisor: T) -> (r: Position<T>) {
        Position { x: self.x / divisor, y: self.y / divisor }
    }
}

impl<T: Copy + core::ops::Div<Output = T>> DivSpecImpl<T> for Position<T> {
    open spec fn obeys_div_spec() -> bool {
        T::obeys_div_spec()
    }

    open spec fn div_req(self, rhs: T) -> bool {
        self.x.div_req(rhs) && self.y.div_req(rhs)
    }

    open spec fn div_spec(self, rhs: T) -> Position<T> {
        Position { x: self.x.div_spec(rhs), y: self.y.div_spec(rhs) }
    }
}

impl<T: core::ops::Neg<Output = T>> core::ops::Neg for Position<T> {
    type Output = Position<T>;

    fn neg(self) -> (r: Position<T>) {
        Position { x: self.x.neg(), y: self.y.neg() }
    }
}

impl<T: core::ops::Neg<Output = T>> NegSpecImpl for Position<T> {
    open spec fn obeys_neg_spec() -> bool {
        T::obeys_neg_spec()
    }

    open spec fn neg_req(self) -> bool {
        self.x.neg_req() && self.y.neg_req()
    }

    open spec fn neg_spec(self) -> Position<T> {
        Position { x: self.x.neg_spec(), y: self.y.neg_spec() }
    }
}

} // verus!
