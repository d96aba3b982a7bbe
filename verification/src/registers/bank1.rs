use vstd::prelude::*;

verus! {

// Register addresses of user bank 1.

pub const SELF_TEST_X_GYRO: u8 = 0x02;
pub const SELF_TEST_Y_GYRO: u8 = 0x03;
pub const SELF_TEST_Z_GYRO: u8 = 0x04;
pub const SELF_TEST_X_ACCEL: u8 = 0x0E;
pub const SELF_TEST_Y_ACCEL: u8 = 0x0F;
pub const SELF_TEST_Z_ACCEL: u8 = 0x10;
pub const XA_OFFS_H: u8 = 0x14;
pub const XA_OFFS_L: u8 = 0x15;
pub const YA_OFFS_H: u8 = 0x17;
pub const YA_OFFS_L: u8 = 0x18;
pub const ZA_OFFS_H: u8 = 0x1A;
pub const ZA_OFFS_L: u8 = 0x1B;
pub const TIMEBASE_CORRECTION_PLL: u8 = 0x28;
pub const REG_BANK_SEL: u8 = 0x7F;

} // verus!
