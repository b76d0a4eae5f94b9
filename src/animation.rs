//! Animations of drawable things over time.

use vstd::prelude::*;

verus! {

/// Drives animations over time.
pub struct Animator {}

/// An animation.
pub struct Animation {}

/// An animation that moves something.
pub struct MoveAnimation {}

/// An animation that rotates something.
pub struct RotateAnimation {}

/// An animation that scales something.
pub struct ScaleAnimation {}

/// An animation that resizes something.
pub struct ResizeAnimation {}

/// An animation that plays frames in turn.
pub struct FrameAnimation {}

/// An animation of a skeleton.
pub struct SkeletonAnimation {}

/// A sequence of animations in time.
pub struct Timeline {}

} // verus!
