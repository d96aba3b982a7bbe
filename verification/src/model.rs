//! A register-file model of the ICM-20948, in which the driver's commands
//! can be run and the laws of the driver stated.
//!
//! The sensor holds one byte per register of each bank, and a selected bank.
//! A write of `[REG_BANK_SEL, v]` selects bank `(v >> 4) & 3`; any other write
//! of `[reg, v]` stores `v` in register `reg` of the selected bank. A write of
//! `[reg]` followed by a read of `len` bytes gives back the registers `reg`,
//! `reg + 1`, ... of the selected bank.

use vstd::prelude::*;
use crate::protocol::{spec_finish, spec_plan, Command, I2cOp, Reply};
use crate::registers::bank2;

verus! {

/// The registers of one sensor, keyed by (bank, address), and its selected bank.
pub struct RegisterFile {
    pub bank: u8,
    pub regs: Map<(u8, u8), u8>,
}

/// The sensor after the write `[reg, value]`.
pub open spec fn device_write(d: RegisterFile, reg: u8, value: u8) -> RegisterFile {
    if reg == bank2::REG_BANK_SEL {
        RegisterFile { bank: (value >> 4u8) & 3u8, regs: d.regs }
    } else {
        RegisterFile { bank: d.bank, regs: d.regs.insert((d.bank, reg), value) }
    }
}

/// The `len` bytes read from the sensor from register `reg` on.
pub open spec fn device_read(d: RegisterFile, reg: u8, len: nat) -> Seq<u8> {
    Seq::new(len, |i: int| d.regs[(d.bank, (reg + i) as u8)])
}

/// The sensor after one bus operation, and the bytes it read.
pub open spec fn device_step(d: RegisterFile, op: I2cOp) -> (RegisterFile, Seq<u8>) {
    match op {
        I2cOp::Write { reg, value, .. } => (device_write(d, reg, value), Seq::empty()),
        I2cOp::WriteRead { reg, len, .. } => (d, device_read(d, reg, len as nat)),
    }
}

/// The sensor after a sequence of bus operations, and all the bytes they read, in order.
pub open spec fn device_run(d: RegisterFile, ops: Seq<I2cOp>) -> (RegisterFile, Seq<u8>)
    decreases ops.len(),
{
    if ops.len() == 0 {
        (d, Seq::empty())
    } else {
        let (d1, r1) = device_step(d, ops[0]);
        let (d2, r2) = device_run(d1, ops.drop_first());
        (d2, r1 + r2)
    }
}

/// The sensor after `command` and the command's reply, or `None` where the
/// driver refuses the command.
pub open spec fn transact(d: RegisterFile, address: u8, command: Command) -> Option<(RegisterFile, Reply)> {
    match spec_plan(address, command) {
        None => None,
        Some(ops) => {
            let (d1, data) = device_run(d, ops);
            let c = spec_finish(address, command, data);
            let d2 = match c.next {
                Some(op) => device_step(d1, op).0,
                None => d1,
            };
            Some((d2, c.reply))
        },
    }
}

/// Running one operation is one step of the sensor.
pub proof fn lemma_run_one(d: RegisterFile, op: I2cOp)
    ensures
        device_run(d, seq![op]) == device_step(d, op),
{
    reveal_with_fuel(device_run, 2);
    assert(seq![op].drop_first() =~= Seq::<I2cOp>::empty());
    assert(device_step(d, op).1 + Seq::<u8>::empty() =~= device_step(d, op).1);
}

/// Running two operations is two steps of the sensor; the bytes read are
/// those of the first step followed by those of the second.
pub proof fn lemma_run_two(d: RegisterFile, op0: I2cOp, op1: I2cOp)
    ensures
        device_run(d, seq![op0, op1]).0 == device_step(device_step(d, op0).0, op1).0,
        device_run(d, seq![op0, op1]).1 == device_step(d, op0).1 + device_step(
            device_step(d, op0).0,
            op1,
        ).1,
{
    reveal_with_fuel(device_run, 3);
    assert(seq![op0, op1].drop_first() =~= seq![op1]);
    lemma_run_one(device_step(d, op0).0, op1);
}

} // verus!
