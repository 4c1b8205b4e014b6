//! Readings of the inertial measurement unit.

use vstd::prelude::*;

verus! {

/// A reading on three axes.
#[derive(Debug, Clone, Copy, PartialEq, Eq, Structural)]
pub struct Vector3 {
    pub x: i16,
    pub y: i16,
    pub z: i16,
}

/// Accelerometer, gyroscope and magnetometer readings taken together.
#[derive(Debug, Clone, Copy, PartialEq, Eq, Structural)]
pub struct Imu {
    pub accel: Vector3,
    pub gyro: Vector3,
    pub mag: Vector3,
}

} // verus!
