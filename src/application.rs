//! Applications and their windows.

use vstd::prelude::*;

verus! {

/// An application.
pub struct Application {}

} // verus!
