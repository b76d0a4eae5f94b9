//! Mathematical utilities related to geometry: positions, sizes and boxes.

use vstd::prelude::*;

mod position;
mod size;
mod box_;
mod bounds;


pub use position::Position;
pub use size::Size;
pub use box_::Box;
pub use bounds::compute_bounds;



verus! {

/// Something that can be moved.
pub trait Movable {
}

/// Something that can be rotated.
pub trait Rotable {
}

/// Something that can be scaled.
pub trait Scalable {
}

/// Something that can be resized.
pub trait Resizable {
}

/// A point shape.
pub struct Point {}

/// A line shape.
pub struct Line {}

/// A rectangle shape.
pub struct Rectangle {}

/// A circle shape.
pub struct Circle {}

/// Whether `v` is a value that `T::default()` may return.
pub open spec fn is_default<T: Default>(v: T) -> bool {
    call_ensures(T::default, (), v)
}

} // verus!
