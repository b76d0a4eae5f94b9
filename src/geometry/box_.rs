//! A two-dimensional box.

use vstd::prelude::*;
use vstd::std_specs::ops::AddSpec;
use vstd::std_specs::cmp::PartialEqSpec;
use crate::geometry::{is_default, Position, Size};

verus! {

/// An axis-aligned box: the position of its top-left corner and its size.
///
/// The `y` axis points down, so the bottom edge is at `y + height`.
#[derive(Copy, Clone, PartialEq, Eq, Hash, Debug, Default)]
pub struct Box<T> {
    pub position: Position<T>,
    pub size: Size<T>,
}

impl<T: Copy + PartialEq + Default + core::ops::Add<Output = T>> Box<T> {
    /// A box from its top-left position and its size.
    pub fn new(position: Position<T>, size: Size<T>) -> (r: Box<T>)
        ensures
            r.position == position,
            r.size == size,
    {
        Box { position: position, size: size }
    }

    /// The box whose coordinates and extents are all the default value of `T`.
    pub fn zero() -> (r: Box<T>)
        ensures
            is_default(r.position.x),
            is_default(r.position.y),
            is_default(r.size.width),
            is_default(r.size.height),
    {
        Box::new(Position::new(T::default(), T::default()), Size::zero())
    }

    /// Whether the position and the size both have all their values equal to
    /// the default value of `T`.
    pub fn is_zero(&self) -> (r: bool)
        ensures
            exists|zx: T, zy: T, zw: T, zh: T|
                #![trigger is_default(zx), is_default(zy), is_default(zw), is_default(zh)]
                is_default(zx) && is_default(zy) && is_default(zw) && is_default(zh) && (
                T::obeys_eq_spec() ==> (r <==> (self.position.x.eq_spec(&zx)
                    && self.position.y.eq_spec(&zy) && self.size.width.eq_spec(&zw)
                    && self.size.height.eq_spec(&zh)))),
    {
        let zx = T::default();
        let zy = T::default();
        let zw = T::default();
        let zh = T::default();
        let r = self.position.x == zx && self.position.y == zy && self.size.width == zw
            && self.size.height == zh;
        assert(is_default(zx) && is_default(zy) && is_default(zw) && is_default(zh));
        r
    }

    /// The top-left corner.
    pub fn top_left(&self) -> (r: Position<T>)
        ensures
            r == self.position,
    {
        self.position
    }

    /// The `y` coordinate of the top edge.
    pub fn top(&self) -> (r: T)
        ensures
            r == self.position.y,
    {
        self.position.y
    }

    /// The top-right corner.
    pub fn top_right(&self) -> (r: Position<T>)
        requires
            self.position.x.add_req(self.size.width),
        ensures
            r.y == self.position.y,
            T::obeys_add_spec() ==> r.x == self.position.x.add_spec(self.size.width),
    {
        Position::new(self.position.x + self.size.width, self.position.y)
    }

    /// The `x` coordinate of the left edge.
    pub fn left(&self) -> (r: T)
        ensures
            r == self.position.x,
    {
        self.position.x
    }

    /// The `x` coordinate of the right edge.
    pub fn right(&self) -> (r: T)
        requires
            self.position.x.add_req(self.size.width),
        ensures
            T::obeys_add_spec() ==> r == self.position.x.add_spec(self.size.width),
    {
        self.position.x + self.size.width
    }

    /// The bottom-left corner.
    pub fn bottom_left(&self) -> (r: Position<T>)
        requires
            self.position.y.add_req(self.size.height),
        ensures
            r.x == self.position.x,
            T::obeys_add_spec() ==> r.y == self.position.y.add_spec(self.size.height),
    {
        Position::new(self.position.x, self.position.y + self.size.height)
    }

    /// The `y` coordinate of the bottom edge.
    pub fn bottom(&self) -> (r: T)
        requires
            self.position.y.add_req(self.size.height),
        ensures
            T::obeys_add_spec() ==> r == self.position.y.add_spec(self.size.height),
    {
        self.position.y + self.size.height
    }

    /// The bottom-right corner.
    pub fn bottom_right(&self) -> (r: Position<T>)
        requires
            self.position.x.add_req(self.size.width),
            self.position.y.add_req(self.size.height),
        ensures
            T::obeys_add_spec() ==> r.x == self.position.x.add_spec(self.size.width),
            T::obeys_add_spec() ==> r.y == self.position.y.add_spec(self.size.height),
    {
        Position::new(self.position.x + self.size.width, self.position.y + self.size.height)
    }
}

} // verus!
