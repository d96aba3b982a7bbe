use vstd::prelude::*;

verus! {

// Register addresses of user bank 0.

pub const WHO_AM_I: u8 = 0x00;
pub const USER_CTRL: u8 = 0x03;
pub const LP_CONFIG: u8 = 0x05;
pub const PWR_MGMT_1: u8 = 0x06;
pub const PWR_MGMT_2: u8 = 0x07;
pub const INT_PIN_CFG: u8 = 0x0F;
pub const INT_ENABLE: u8 = 0x10;
pub const INT_ENABLE_1: u8 = 0x11;
pub const INT_ENABLE_2: u8 = 0x12;
pub const INT_ENABLE_3: u8 = 0x13;
pub const I2C_MST_STATUS: u8 = 0x17;
pub const INT_STATUS: u8 = 0x19;
pub const INT_STATUS_1: u8 = 0x1A;
pub const INT_STATUS_2: u8 = 0x1B;
pub const INT_STATUS_3: u8 = 0x1C;
pub const DELAY_TIMEH: u8 = 0x28;
pub const DELAY_TIMEL: u8 = 0x29;
pub const ACCEL_XOUT_H: u8 = 0x2D;
pub const ACCEL_XOUT_L: u8 = 0x2E;
pub const ACCEL_YOUT_H: u8 = 0x2F;
pub const ACCEL_YOUT_L: u8 = 0x30;
pub const ACCEL_ZOUT_H: u8 = 0x31;
pub const ACCEL_ZOUT_L: u8 = 0x32;
pub const GYRO_XOUT_H: u8 = 0x33;
pub const GYRO_XOUT_L: u8 = 0x34;
pub const GYRO_YOUT_H: u8 = 0x35;
pub const GYRO_YOUT_L: u8 = 0x36;
pub const GYRO_ZOUT_H: u8 = 0x37;
pub const GYRO_ZOUT_L: u8 = 0x38;
pub const TEMP_OUT_H: u8 = 0x39;
pub const TEMP_OUT_L: u8 = 0x3A;
pub const EXT_SLV_SENS_DATA_00: u8 = 0x3B;
pub const EXT_SLV_SENS_DATA_01: u8 = 0x3C;
pub const EXT_SLV_SENS_DATA_02: u8 = 0x3D;
pub const EXT_SLV_SENS_DATA_03: u8 = 0x43;

} // verus!
