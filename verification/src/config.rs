//! Per-sensor configuration: where a sensor sits on the bus and the
//! full-scale ranges it is to be set to.

use vstd::prelude::*;

verus! {

/// The number of downstream channels of the I2C multiplexer.
pub const MULTIPLEXER_CHANNELS: u8 = 8;

/// How a sensor is reached.
pub struct ImuComConfig {
    /// Address pins (a2, a1, a0) of the multiplexer the sensor hangs from.
    pub multiplexer_addr: (bool, bool, bool),
    /// The multiplexer channel the sensor is wired to.
    pub multiplexer_bus: u8,
    /// The sensor's own I2C address.
    pub sensor_addr: u8,
}

/// The accelerometer full-scale range to set (0 to 3).
pub struct ImuAccelConfig {
    pub scale: u8,
}

/// The gyroscope full-scale range to set (0 to 3).
pub struct ImuGyroConfig {
    pub scale: u8,
}

impl ImuComConfig {
    /// The multiplexer channel of the sensor, or `None` where the configured
    /// channel does not exist on the multiplexer.
    pub fn multiplexer_channel(&self) -> (r: Option<usize>)
        ensures
            self.multiplexer_bus < MULTIPLEXER_CHANNELS ==> r == Some(self.multiplexer_bus as usize),
            self.multiplexer_bus >= MULTIPLEXER_CHANNELS ==> r is None,
    {
        if self.multiplexer_bus < MULTIPLEXER_CHANNELS {
            Some(self.multiplexer_bus as usize)
        } else {
            None
        }
    }
}

} // verus!
