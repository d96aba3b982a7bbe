//! Errors of the ICM-20948 driver.

use vstd::prelude::*;

verus! {

/// What a driver command can fail with: an error of the I2C bus, or a
/// request that the driver refuses before it touches the bus.
#[derive(Debug)]
pub enum ImuError<I2cError> {
    I2c(I2cError),
    InvalidSetAccelerometerScale,
    FailedGetAccelerometerScale,
    InvalidSetGyroscopeScale,
    FailedGetGyroscopeScale,
    InvalidRegisterBank,
}

impl<E> From<E> for ImuError<E> {
    fn from(error: E) -> (r: Self) {
        ImuError::I2c(error)
    }
}

impl<E> vstd::std_specs::convert::FromSpecImpl<E> for ImuError<E> {
    open spec fn obeys_from_spec() -> bool {
        true
    }

    open spec fn from_spec(v: E) -> Self {
        ImuError::I2c(v)
    }
}

} // verus!
