//! The bus transactions of the ICM-20948 driver.
//!
//! Each driver command is a short exchange on the I2C bus: the bank of the
//! register it touches is selected first, then the register is written or
//! read, and for a change of full-scale range the register read is written
//! back with the new selection merged into it. The driver does no I/O
//! itself: `begin` hands out the bus operations to perform, and `finish`
//! takes the bytes the last of them read and says what, if anything, must
//! still be written and what the command returns.

use vstd::prelude::*;
use crate::error::ImuError;
use crate::registers::{
    bank0, bank2, Bank0, Bank2, Register, BITSHIFT_REG_SELECT, BITSHIFT_SCALE, SCALE_MASK,
};

verus! {

/// One operation on the I2C bus.
#[derive(Clone, Copy, Debug, PartialEq, Eq, Structural)]
pub enum I2cOp {
    /// Write the bytes `[reg, value]` to the device at `address`.
    Write { address: u8, reg: u8, value: u8 },
    /// Write the byte `[reg]` to the device at `address`, then read `len` bytes from it.
    WriteRead { address: u8, reg: u8, len: usize },
}

/// A command of the driver.
#[derive(Clone, Copy, Debug, PartialEq, Eq, Structural)]
pub enum Command {
    /// Select the register bank with the given index.
    SelectRegisterBank(u8),
    /// Let the sensor pick its best clock source and disable the temperature sensor.
    Init,
    /// Read the raw accelerometer output of the three axes.
    ReadAccelerometerRaw,
    /// Read the raw gyroscope output of the three axes.
    ReadGyroscopeRaw,
    /// Set the accelerometer full-scale range (0: 2g, 1: 4g, 2: 8g, 3: 16g).
    SetAccelerometerScale(u8),
    /// Get the accelerometer full-scale range.
    GetAccelerometerScale,
    /// Set the gyroscope full-scale range (0: 250, 1: 500, 2: 1000, 3: 2000 dps).
    SetGyroscopeScale(u8),
    /// Get the gyroscope full-scale range.
    GetGyroscopeScale,
}

/// What a command gives back once its bus operations are done.
#[derive(Clone, Copy, Debug, PartialEq, Eq, Structural)]
pub enum Reply {
    Done,
    /// Raw readings of the x, y and z axes.
    Axes(i16, i16, i16),
    /// A full-scale range selection.
    Scale(u8),
}

/// The end of a command: one more write, where the command still owes one,
/// and the reply.
#[derive(Clone, Copy, Debug, PartialEq, Eq, Structural)]
pub struct Completion {
    pub next: Option<I2cOp>,
    pub reply: Reply,
}

/// The driver state of one sensor: its address on the bus.
#[derive(Clone, Copy, Debug, PartialEq, Eq, Structural)]
pub struct Icm20948Protocol {
    pub address: u8,
}

/// The write that selects bank `bank`.
pub open spec fn bank_select_op(address: u8, bank: u8) -> I2cOp {
    I2cOp::Write { address, reg: bank2::REG_BANK_SEL, value: (bank << 4u8) as u8 }
}

/// A configuration byte with its full-scale bits replaced by `scale`.
pub open spec fn merge_scale(config: u8, scale: u8) -> u8 {
    (config & !0b0000_0110u8) | (((scale << 1u8) as u8) & 0b0000_0110u8)
}

/// The full-scale selection held by a configuration byte.
pub open spec fn scale_of(config: u8) -> u8 {
    (config & 0b0000_0110u8) >> 1u8
}

/// The two's-complement value of the big-endian bytes `hi`, `lo`.
pub open spec fn be_i16(hi: u8, lo: u8) -> i16 {
    (if hi < 128 {
        hi * 256 + lo
    } else {
        hi * 256 + lo - 65536
    }) as i16
}

/// The three axes held by six big-endian bytes.
pub open spec fn axes_of(data: Seq<u8>) -> Reply {
    Reply::Axes(be_i16(data[0], data[1]), be_i16(data[2], data[3]), be_i16(data[4], data[5]))
}

/// The bus operations that open `command`, or `None` where the command is refused.
pub open spec fn spec_plan(address: u8, command: Command) -> Option<Seq<I2cOp>> {
    match command {
        Command::SelectRegisterBank(bank) => if bank <= 3 {
            Some(seq![bank_select_op(address, bank)])
        } else {
            None
        },
        Command::Init => Some(
            seq![
                bank_select_op(address, 0),
                I2cOp::Write { address, reg: bank0::PWR_MGMT_1, value: 0x09 },
            ],
        ),
        Command::ReadAccelerometerRaw => Some(
            seq![
                bank_select_op(address, 0),
                I2cOp::WriteRead { address, reg: bank0::ACCEL_XOUT_H, len: 6 },
            ],
        ),
        Command::ReadGyroscopeRaw => Some(
            seq![
                bank_select_op(address, 0),
                I2cOp::WriteRead { address, reg: bank0::GYRO_XOUT_H, len: 6 },
            ],
        ),
        Command::SetAccelerometerScale(_) | Command::GetAccelerometerScale => Some(
            seq![
                bank_select_op(address, 2),
                I2cOp::WriteRead { address, reg: bank2::ACCEL_CONFIG, len: 1 },
            ],
        ),
        Command::SetGyroscopeScale(scale) => if scale <= 3 {
            Some(
                seq![
                    bank_select_op(address, 2),
                    I2cOp::WriteRead { address, reg: bank2::GYRO_CONFIG_1, len: 1 },
                ],
            )
        } else {
            None
        },
        Command::GetGyroscopeScale => Some(
            seq![
                bank_select_op(address, 2),
                I2cOp::WriteRead { address, reg: bank2::GYRO_CONFIG_1, len: 1 },
            ],
        ),
    }
}

/// The error with which `command` is refused.
pub open spec fn spec_refusal<E>(command: Command) -> ImuError<E> {
    match command {
        Command::SetGyroscopeScale(_) => ImuError::InvalidSetGyroscopeScale,
        _ => ImuError::InvalidRegisterBank,
    }
}

/// The number of bytes the opening operations of `command` read.
pub open spec fn read_len(command: Command) -> nat {
    match command {
        Command::ReadAccelerometerRaw | Command::ReadGyroscopeRaw => 6,
        Command::SetAccelerometerScale(_) | Command::GetAccelerometerScale
        | Command::SetGyroscopeScale(_) | Command::GetGyroscopeScale => 1,
        _ => 0,
    }
}

/// How `command` ends, given the bytes its opening operations read.
pub open spec fn spec_finish(address: u8, command: Command, data: Seq<u8>) -> Completion {
    match command {
        Command::SetAccelerometerScale(scale) => Completion {
            next: Some(
                I2cOp::Write { address, reg: bank2::ACCEL_CONFIG, value: merge_scale(data[0], scale) },
            ),
            reply: Reply::Done,
        },
        Command::SetGyroscopeScale(scale) => Completion {
            next: Some(
                I2cOp::Write { address, reg: bank2::GYRO_CONFIG_1, value: merge_scale(data[0], scale) },
            ),
            reply: Reply::Done,
        },
        Command::GetAccelerometerScale | Command::GetGyroscopeScale => Completion {
            next: None,
            reply: Reply::Scale(scale_of(data[0])),
        },
        Command::ReadAccelerometerRaw | Command::ReadGyroscopeRaw => Completion {
            next: None,
            reply: axes_of(data),
        },
        _ => Completion { next: None, reply: Reply::Done },
    }
}

/// The value of two big-endian bytes as a two's-complement 16-bit integer.
pub fn i16_from_be_bytes(bytes: [u8; 2]) -> (r: i16)
    ensures
        r == be_i16(bytes[0], bytes[1]),
{
    let hi = bytes[0];
    let lo = bytes[1];
    let v: i32 = (hi as i32) * 256 + (lo as i32);
    if hi >= 128 {
        (v - 65536) as i16
    } else {
        v as i16
    }
}

/// A configuration byte with its full-scale bits replaced by `scale`; the
/// other bits are kept.
pub fn merge_scale_bits(config: u8, scale: u8) -> (r: u8)
    ensures
        r == merge_scale(config, scale),
{
    (config & !SCALE_MASK) | ((scale << BITSHIFT_SCALE) & SCALE_MASK)
}

/// The full-scale selection held by a configuration byte.
pub fn scale_from_config(config: u8) -> (r: u8)
    ensures
        r == scale_of(config),
        r <= 3,
{
    assert((config & 0b0000_0110u8) >> 1u8 <= 3) by (bit_vector);
    (config & SCALE_MASK) >> BITSHIFT_SCALE
}

impl Icm20948Protocol {
    pub fn new(address: u8) -> (p: Self)
        ensures
            p.address == address,
    {
        Icm20948Protocol { address }
    }

    /// The write that selects register bank `bank`; banks above 3 do not exist.
    pub fn select_register_bank<E>(&self, bank: u8) -> (r: Result<I2cOp, ImuError<E>>)
        ensures
            bank <= 3 ==> r == Ok::<I2cOp, ImuError<E>>(bank_select_op(self.address, bank)),
            bank > 3 ==> r == Err::<I2cOp, ImuError<E>>(ImuError::InvalidRegisterBank),
    {
        if bank > 3 {
            return Err(ImuError::InvalidRegisterBank);
        }
        Ok(I2cOp::Write { address: self.address, reg: bank2::REG_BANK_SEL, value: bank << BITSHIFT_REG_SELECT })
    }

    /// The bus operations that open `command`.
    pub fn begin<E>(&self, command: Command) -> (r: Result<Vec<I2cOp>, ImuError<E>>)
        ensures
            match r {
                Ok(ops) => spec_plan(self.address, command) == Some(ops@),
                Err(e) => spec_plan(self.address, command) is None && e == spec_refusal::<E>(command),
            },
    {
        let address = self.address;
        let mut ops: Vec<I2cOp> = Vec::new();
        match command {
            Command::SelectRegisterBank(bank) => {
                let op = self.select_register_bank(bank)?;
                ops.push(op);
            },
            Command::Init => {
                let reg = Register::<Bank0>::new("PWR_MGMT_1", bank0::PWR_MGMT_1);
                let op = self.select_register_bank(reg.get_bank())?;
                ops.push(op);
                ops.push(I2cOp::Write { address, reg: reg.addr, value: 0x09 });
            },
            Command::ReadAccelerometerRaw => {
                let reg = Register::<Bank0>::new("ACCEL_XOUT_H", bank0::ACCEL_XOUT_H);
                let op = self.select_register_bank(reg.get_bank())?;
                ops.push(op);
                ops.push(I2cOp::WriteRead { address, reg: reg.addr, len: 6 });
            },
            Command::ReadGyroscopeRaw => {
                let reg = Register::<Bank0>::new("GYRO_XOUT_H", bank0::GYRO_XOUT_H);
                let op = self.select_register_bank(reg.get_bank())?;
                ops.push(op);
                ops.push(I2cOp::WriteRead { address, reg: reg.addr, len: 6 });
            },
            Command::SetAccelerometerScale(_) | Command::GetAccelerometerScale => {
                let reg = Register::<Bank2>::new("ACCEL_CONFIG", bank2::ACCEL_CONFIG);
                let op = self.select_register_bank(reg.get_bank())?;
                ops.push(op);
                ops.push(I2cOp::WriteRead { address, reg: reg.addr, len: 1 });
            },
            Command::SetGyroscopeScale(scale) => {
                if scale > 3 {
                    return Err(ImuError::InvalidSetGyroscopeScale);
                }
                let reg = Register::<Bank2>::new("GYRO_CONFIG_1", bank2::GYRO_CONFIG_1);
                let op = self.select_register_bank(reg.get_bank())?;
                ops.push(op);
                ops.push(I2cOp::WriteRead { address, reg: reg.addr, len: 1 });
            },
            Command::GetGyroscopeScale => {
                let reg = Register::<Bank2>::new("GYRO_CONFIG_1", bank2::GYRO_CONFIG_1);
                let op = self.select_register_bank(reg.get_bank())?;
                ops.push(op);
                ops.push(I2cOp::WriteRead { address, reg: reg.addr, len: 1 });
            },
        }
        assert(ops@ =~= spec_plan(address, command).unwrap());
        Ok(ops)
    }

    /// How `command` ends, given the bytes its opening operations read.
    pub fn finish(&self, command: Command, data: &[u8]) -> (c: Completion)
        requires
            data@.len() == read_len(command),
        ensures
            c == spec_finish(self.address, command, data@),
    {
        let address = self.address;
        match command {
            Command::SetAccelerometerScale(scale) => Completion {
                next: Some(
                    I2cOp::Write {
                        address,
                        reg: bank2::ACCEL_CONFIG,
                        value: merge_scale_bits(data[0], scale),
                    },
                ),
                reply: Reply::Done,
            },
            Command::SetGyroscopeScale(scale) => Completion {
                next: Some(
                    I2cOp::Write {
                        address,
                        reg: bank2::GYRO_CONFIG_1,
                        value: merge_scale_bits(data[0], scale),
                    },
                ),
                reply: Reply::Done,
            },
            Command::GetAccelerometerScale | Command::GetGyroscopeScale => Completion {
                next: None,
                reply: Reply::Scale(scale_from_config(data[0])),
            },
            Command::ReadAccelerometerRaw | Command::ReadGyroscopeRaw => {
                let x = i16_from_be_bytes([data[0], data[1]]);
                let y = i16_from_be_bytes([data[2], data[3]]);
                let z = i16_from_be_bytes([data[4], data[5]]);
                Completion { next: None, reply: Reply::Axes(x, y, z) }
            },
            _ => Completion { next: None, reply: Reply::Done },
        }
    }
}

} // verus!
