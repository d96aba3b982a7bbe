//! The ICM-20948 register map: banks, registers and the bit positions the
//! driver writes.

use core::marker::PhantomData;
use vstd::prelude::*;

pub mod bank0;
pub mod bank1;
pub mod bank2;
pub mod bank3;

verus! {

/// The four user banks of the ICM-20948 register map.
#[derive(Clone, Copy, Debug, PartialEq, Eq, Structural)]
pub enum Bank {
    Bank0,
    Bank1,
    Bank2,
    Bank3,
}

impl Bank {
    /// The index of the bank, the value that selects it in `REG_BANK_SEL`.
    pub open spec fn index(self) -> u8 {
        match self {
            Bank::Bank0 => 0,
            Bank::Bank1 => 1,
            Bank::Bank2 => 2,
            Bank::Bank3 => 3,
        }
    }
}

/// A marker type that names the bank a register lives in.
pub trait RegisterBank {
    /// The bank this marker names.
    spec fn spec_bank() -> Bank;

    /// The bank this marker names.
    fn bank() -> (b: Bank)
        ensures
            b == Self::spec_bank(),
    ;
}

pub struct Bank0;

impl RegisterBank for Bank0 {
    open spec fn spec_bank() -> Bank {
        Bank::Bank0
    }

    fn bank() -> (b: Bank) {
        Bank::Bank0
    }
}

pub struct Bank1;

impl RegisterBank for Bank1 {
    open spec fn spec_bank() -> Bank {
        Bank::Bank1
    }

    fn bank() -> (b: Bank) {
        Bank::Bank1
    }
}

pub struct Bank2;

impl RegisterBank for Bank2 {
    open spec fn spec_bank() -> Bank {
        Bank::Bank2
    }

    fn bank() -> (b: Bank) {
        Bank::Bank2
    }
}

pub struct Bank3;

impl RegisterBank for Bank3 {
    open spec fn spec_bank() -> Bank {
        Bank::Bank3
    }

    fn bank() -> (b: Bank) {
        Bank::Bank3
    }
}

/// A register of bank `B`, with its name and its address within the bank.
pub struct Register<B: RegisterBank> {
    pub name: &'static str,
    pub addr: u8,
    pub _bank: PhantomData<B>,
}

impl<B: RegisterBank> Register<B> {
    pub fn new(name: &'static str, addr: u8) -> (r: Self)
        ensures
            r.name == name,
            r.addr == addr,
    {
        Self { name, addr, _bank: PhantomData }
    }

    /// The index of the bank that holds this register.
    pub fn get_bank(&self) -> (b: u8)
        ensures
            b == B::spec_bank().index(),
    {
        match B::bank() {
            Bank::Bank0 => 0,
            Bank::Bank1 => 1,
            Bank::Bank2 => 2,
            Bank::Bank3 => 3,
        }
    }
}

/// Bit position of the bank index within `REG_BANK_SEL`.
pub const BITSHIFT_REG_SELECT: u8 = 4;

/// Bit position of the full-scale selection within `ACCEL_CONFIG` and `GYRO_CONFIG_1`.
pub const BITSHIFT_SCALE: u8 = 1;

/// The bits of `ACCEL_CONFIG` and `GYRO_CONFIG_1` that hold the full-scale selection.
pub const SCALE_MASK: u8 = 0b0000_0110;

} // verus!
