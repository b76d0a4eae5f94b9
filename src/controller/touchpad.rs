//! The touchpad.

use vstd::prelude::*;

verus! {

/// The real-time state of the touchpad.
pub struct Touchpad {}

} // verus!
