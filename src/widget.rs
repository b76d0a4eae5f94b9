//! Widgets: the core logic of graphical user interfaces, without any default
//! appearance.

use vstd::prelude::*;

verus! {

/// A widget.
pub trait Widget {
}

} // verus!
