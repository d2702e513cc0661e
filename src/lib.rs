//! Drivers for an L3GD20 gyroscope and an LSM303DLHC accelerometer and
//! magnetometer: configuration images, the register traffic that applies
//! them, and exact conversion of raw samples into physical units.

pub mod bus;
pub mod error;
pub mod quantity;
pub mod l3gd20;
pub mod lsm303dlhc;
