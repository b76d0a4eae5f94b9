//! The motion and orientation sensors.

use vstd::prelude::*;

verus! {

/// The accelerometer.
pub struct Accelerometer {}

/// The gyroscope.
pub struct Gyroscope {}

/// The magnetometer.
pub struct Magnetometer {}

/// The gravity sensor.
pub struct Gravity {}

/// The orientation sensor.
pub struct Orientation {}

} // verus!
