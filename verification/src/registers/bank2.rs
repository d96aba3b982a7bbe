use vstd::prelude::*;

verus! {

// Register addresses of user bank 2.

pub const GYRO_SMPLRT_DIV: u8 = 0x00;
pub const GYRO_CONFIG_1: u8 = 0x01;
pub const GYRO_CONFIG_2: u8 = 0x02;
pub const XG_OFFS_USRH: u8 = 0x03;
pub const XG_OFFS_USRL: u8 = 0x04;
pub const YG_OFFS_USRH: u8 = 0x05;
pub const YG_OFFS_USRL: u8 = 0x06;
pub const ZG_OFFS_USRH: u8 = 0x07;
pub const ZG_OFFS_USRL: u8 = 0x08;
pub const ODR_ALIGN_EN: u8 = 0x09;
pub const ACCEL_SMPLRT_DIV_1: u8 = 0x10;
pub const ACCEL_SMPLRT_DIV_2: u8 = 0x11;
pub const ACCEL_INTEL_CTRL: u8 = 0x12;
pub const ACCEL_WOM_THR: u8 = 0x13;
pub const ACCEL_CONFIG: u8 = 0x14;
pub const ACCEL_CONFIG_2: u8 = 0x15;
pub const FSYNC_CONFIG: u8 = 0x52;
pub const TEMP_CONFIG: u8 = 0x53;
pub const MOD_CTRL_USR: u8 = 0x54;
pub const REG_BANK_SEL: u8 = 0x7F;

} // verus!
