//! Interfaces that IMU drivers offer beyond reading measurements.

use vstd::prelude::*;

verus! {

/// An IMU whose accelerometer and gyroscope ranges can be adjusted.
pub trait ImuWithAdustableScale {
    type Error;

    /// Set the sensitivity range of the accelerometer.
    ///
    /// `scale` is 0 (±2 g), 1 (±4 g), 2 (±8 g) or 3 (±16 g).
    fn set_accelerometer_scale(&mut self, scale: u8) -> Result<(), Self::Error>;

    /// Get the sensitivity range of the accelerometer, 0 to 3 as above.
    fn get_accelerometer_scale(&mut self) -> Result<u8, Self::Error>;

    /// Set the sensitivity range of the gyroscope.
    ///
    /// `scale` is 0 (±250 dps), 1 (±500 dps), 2 (±1000 dps) or 3 (±2000 dps).
    fn set_gyroscope_scale(&mut self, scale: u8) -> Result<(), Self::Error>;

    /// Get the sensitivity range of the gyroscope, 0 to 3 as above.
    fn get_gyroscope_scale(&mut self) -> Result<u8, Self::Error>;
}

/// An IMU whose registers are spread over several banks.
pub trait ImuWithRegisterBanks {
    type Error;

    /// Select the register bank to interact with.
    ///
    /// Call it before reading or writing a register, with the bank of that
    /// register (`Register::get_bank`).
    fn select_register_bank(&mut self, bank: u8) -> Result<(), Self::Error>;
}

} // verus!
