//! The shapes that a renderer draws.

use vstd::prelude::*;

verus! {

/// A point.
pub struct Point {}

/// A line.
pub struct Line {}

/// A triangle.
pub struct Triangle {}

/// A rectangle.
pub struct Rectangle {}

/// A circle.
pub struct Circle {}

/// A polygon.
pub struct Polygon {}

} // verus!
