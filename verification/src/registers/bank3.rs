use vstd::prelude::*;

verus! {

// Register addresses of user bank 3.

pub const I2C_MST_ODR_CONFIG: u8 = 0x00;
pub const I2C_MST_CTRL: u8 = 0x01;
pub const I2C_MST_DELAY_CTRL: u8 = 0x02;
pub const I2C_SLV0_ADDR: u8 = 0x03;
pub const I2C_SLV0_REG: u8 = 0x04;
pub const I2C_SLV0_CTRL: u8 = 0x05;
pub const I2C_SLV0_DO: u8 = 0x06;
pub const I2C_SLV1_ADDR: u8 = 0x07;
pub const I2C_SLV1_REG: u8 = 0x08;
pub const I2C_SLV1_CTRL: u8 = 0x09;
pub const I2C_SLV2_DO: u8 = 0x0A;
pub const I2C_SLV2_ADDR: u8 = 0x0B;
pub const I2C_SLV2_REG: u8 = 0x0C;
pub const I2C_SLV2_CTRL: u8 = 0x0D;
pub const I2C_SLV2_DO_2: u8 = 0x0E;
pub const I2C_SLV3_ADDR: u8 = 0x0F;
pub const I2C_SLV3_REG: u8 = 0x10;
pub const I2C_SLV3_CTRL: u8 = 0x11;
pub const I2C_SLV3_DO: u8 = 0x12;
pub const I2C_SLV4_ADDR: u8 = 0x13;
pub const I2C_SLV4_REG: u8 = 0x14;
pub const I2C_SLV4_CTRL: u8 = 0x15;
pub const I2C_SLV4_DO: u8 = 0x16;
pub const I2C_SLV4_DI: u8 = 0x17;
pub const REG_BANK_SEL: u8 = 0x7F;

} // verus!
