//! Verified core of a driver for arrays of ICM-20948 inertial measurement
//! units: the register map, the bus transactions of each driver command,
//! the decoding of what the sensor answers, and the rules of the sensor
//! configuration.

pub mod registers;
pub mod error;
pub mod protocol;
pub mod model;
pub mod laws;
pub mod config;
pub mod traits;
pub mod encoder;
pub mod led;
