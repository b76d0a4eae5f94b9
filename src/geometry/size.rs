//! A two-dimensional size.

use vstd::prelude::*;
use vstd::std_specs::cmp::PartialEqSpec;
use crate::geometry::is_default;

verus! {

/// A size in the plane, with a `width` and a `height`.
#[derive(Copy, Clone, PartialEq, Eq, Hash, Debug, Default)]
pub struct Size<T> {
    pub width: T,
    pub height: T,
}

impl<T> Size<T> {
    /// A size from its width and height.
    pub fn new(width: T, height: T) -> (r: Size<T>)
        ensures
            r.width == width,
            r.height == height,
    {
        Size { width: width, height: height }
    }
}


impl<T: PartialEq + Default> Size<T> {
    /// The size whose width and height are both the default value of `T`.
    pub fn zero() -> (r: Size<T>)
        ensures
            is_default(r.width),
            is_default(r.height),
    {
        Size { width: T::default(), height: T::default() }
    }

    /// Whether both the width and the height equal the default value of `T`.
    pub fn is_zero(&self) -> (r: bool)
        ensures
            exists|zw: T, zh: T|
                #![trigger is_default(zw), is_default(zh)]
                is_default(zw) && is_default(zh) && (T::obeys_eq_spec() ==> (r <==> (
                self.width.eq_spec(&zw) && self.height.eq_spec(&zh)))),
    {
        let zw = T::default();
        let zh = T::default();
        let r = self.width == zw && self.height == zh;
        assert(is_default(zw) && is_default(zh));
        r
    }
}

} // verus!
