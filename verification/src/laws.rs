//! Laws of the ICM-20948 driver, stated over the register-file model.

use vstd::prelude::*;
use crate::model::{device_step, lemma_run_one, lemma_run_two, transact, RegisterFile};
use crate::protocol::{be_i16, bank_select_op, merge_scale, scale_of, spec_plan, Command, I2cOp, Reply};
use crate::registers::{bank0, bank2};

verus! {

proof fn lemma_select_bank_value(bank: u8)
    requires
        bank <= 3,
    ensures
        ((bank << 4u8) >> 4u8) & 3u8 == bank,
{
    assert(bank <= 3 ==> ((bank << 4u8) >> 4u8) & 3u8 == bank) by (bit_vector);
}

/// Selecting a register bank: the driver accepts exactly the banks 0 to 3,
/// and a bank it accepts becomes the selected one, with no register changed.
pub proof fn law_select_register_bank(d: RegisterFile, address: u8, bank: u8)
    ensures
        transact(d, address, Command::SelectRegisterBank(bank)) is Some <==> bank <= 3,
        bank <= 3 ==> transact(d, address, Command::SelectRegisterBank(bank)) == Some(
            (RegisterFile { bank, regs: d.regs }, Reply::Done),
        ),
{
    if bank <= 3 {
        lemma_select_bank_value(bank);
        lemma_run_one(d, bank_select_op(address, bank));
    }
}

/// Merging a full-scale selection into a configuration byte keeps every
/// other bit of the byte, and the byte then holds the low two bits of the
/// selection.
pub proof fn law_merge_scale(config: u8, scale: u8)
    ensures
        merge_scale(config, scale) & !0b0000_0110u8 == config & !0b0000_0110u8,
        scale_of(merge_scale(config, scale)) == scale % 4,
{
    assert(((config & !0b0000_0110u8) | (((scale << 1u8) as u8) & 0b0000_0110u8)) & !0b0000_0110u8
        == config & !0b0000_0110u8) by (bit_vector);
    assert((((config & !0b0000_0110u8) | (((scale << 1u8) as u8) & 0b0000_0110u8)) & 0b0000_0110u8)
        >> 1u8 == scale % 4) by (bit_vector);
}

/// The sensor after the full-scale selection `scale` was merged into
/// register `reg` of bank 2, with bank 2 left selected.
pub open spec fn after_scale_write(d: RegisterFile, reg: u8, scale: u8) -> RegisterFile {
    RegisterFile { bank: 2, regs: d.regs.insert((2u8, reg), merge_scale(d.regs[(2u8, reg)], scale)) }
}

proof fn lemma_read_config(d: RegisterFile, address: u8, reg: u8)
    requires
        reg != bank2::REG_BANK_SEL,
    ensures
        ({
            let d1 = device_step(d, bank_select_op(address, 2)).0;
            let r = device_step(d1, I2cOp::WriteRead { address, reg, len: 1 });
            &&& d1 == RegisterFile { bank: 2, regs: d.regs }
            &&& r.0 == d1
            &&& r.1 =~= seq![d.regs[(2u8, reg)]]
        }),
{
    lemma_select_bank_value(2);
    lemma_run_two(d, bank_select_op(address, 2), I2cOp::WriteRead { address, reg, len: 1 });
    let d1 = device_step(d, bank_select_op(address, 2)).0;
    assert(d1.bank == 2);
    assert((reg + 0) as u8 == reg);
}

/// Setting the accelerometer full-scale range changes `ACCEL_CONFIG` only in
/// its full-scale bits, and reading the range back gives the range set
/// (its low two bits; the ranges are 0 to 3). Reading it changes nothing.
pub proof fn law_accelerometer_scale_read_back(d: RegisterFile, address: u8, scale: u8)
    ensures
        transact(d, address, Command::SetAccelerometerScale(scale)) == Some(
            (after_scale_write(d, bank2::ACCEL_CONFIG, scale), Reply::Done),
        ),
        transact(after_scale_write(d, bank2::ACCEL_CONFIG, scale), address, Command::GetAccelerometerScale)
            == Some((after_scale_write(d, bank2::ACCEL_CONFIG, scale), Reply::Scale(scale % 4))),
{
    let reg = bank2::ACCEL_CONFIG;
    lemma_read_config(d, address, reg);
    lemma_run_two(d, bank_select_op(address, 2), I2cOp::WriteRead { address, reg, len: 1 });
    let d2 = after_scale_write(d, reg, scale);
    lemma_read_config(d2, address, reg);
    lemma_run_two(d2, bank_select_op(address, 2), I2cOp::WriteRead { address, reg, len: 1 });
    law_merge_scale(d.regs[(2u8, reg)], scale);
    assert(d2.regs[(2u8, reg)] == merge_scale(d.regs[(2u8, reg)], scale));
    assert(RegisterFile { bank: 2, regs: d2.regs } == d2);
}

/// Setting the gyroscope full-scale range: a range above 3 is refused and
/// the bus is not touched; a range of 0 to 3 changes `GYRO_CONFIG_1` only
/// in its full-scale bits, and reading the range back gives the range set.
pub proof fn law_gyroscope_scale_read_back(d: RegisterFile, address: u8, scale: u8)
    ensures
        scale > 3 ==> transact(d, address, Command::SetGyroscopeScale(scale)) is None,
        scale > 3 ==> spec_plan(address, Command::SetGyroscopeScale(scale)) is None,
        scale <= 3 ==> transact(d, address, Command::SetGyroscopeScale(scale)) == Some(
            (after_scale_write(d, bank2::GYRO_CONFIG_1, scale), Reply::Done),
        ),
        scale <= 3 ==> transact(after_scale_write(d, bank2::GYRO_CONFIG_1, scale), address, Command::GetGyroscopeScale)
            == Some((after_scale_write(d, bank2::GYRO_CONFIG_1, scale), Reply::Scale(scale))),
{
    if scale <= 3 {
        let reg = bank2::GYRO_CONFIG_1;
        lemma_read_config(d, address, reg);
        lemma_run_two(d, bank_select_op(address, 2), I2cOp::WriteRead { address, reg, len: 1 });
        let d2 = after_scale_write(d, reg, scale);
        lemma_read_config(d2, address, reg);
        lemma_run_two(d2, bank_select_op(address, 2), I2cOp::WriteRead { address, reg, len: 1 });
        law_merge_scale(d.regs[(2u8, reg)], scale);
        assert(d2.regs[(2u8, reg)] == merge_scale(d.regs[(2u8, reg)], scale));
        assert(RegisterFile { bank: 2, regs: d2.regs } == d2);
    }
}

/// Reading a full-scale range changes no register: it leaves bank 2
/// selected and answers with the range held by the configuration register.
pub proof fn law_get_scale_is_read_only(d: RegisterFile, address: u8)
    ensures
        transact(d, address, Command::GetAccelerometerScale) == Some(
            (RegisterFile { bank: 2, regs: d.regs }, Reply::Scale(scale_of(d.regs[(2u8, bank2::ACCEL_CONFIG)]))),
        ),
        transact(d, address, Command::GetGyroscopeScale) == Some(
            (RegisterFile { bank: 2, regs: d.regs }, Reply::Scale(scale_of(d.regs[(2u8, bank2::GYRO_CONFIG_1)]))),
        ),
{
    let a = bank2::ACCEL_CONFIG;
    let g = bank2::GYRO_CONFIG_1;
    lemma_read_config(d, address, a);
    lemma_run_two(d, bank_select_op(address, 2), I2cOp::WriteRead { address, reg: a, len: 1 });
    lemma_read_config(d, address, g);
    lemma_run_two(d, bank_select_op(address, 2), I2cOp::WriteRead { address, reg: g, len: 1 });
}

/// Initialising the sensor writes `0x09` (best clock source, temperature
/// sensor off) to `PWR_MGMT_1` of bank 0 and changes nothing else.
pub proof fn law_init(d: RegisterFile, address: u8)
    ensures
        transact(d, address, Command::Init) == Some(
            (RegisterFile { bank: 0, regs: d.regs.insert((0u8, bank0::PWR_MGMT_1), 0x09u8) }, Reply::Done),
        ),
{
    lemma_select_bank_value(0);
    lemma_run_two(d, bank_select_op(address, 0), I2cOp::Write { address, reg: bank0::PWR_MGMT_1, value: 0x09 });
}

/// Register `reg` of bank 0.
pub open spec fn bank0_reg(d: RegisterFile, reg: u8) -> u8 {
    d.regs[(0u8, reg)]
}

proof fn lemma_read_six(d: RegisterFile, address: u8, reg: u8)
    requires
        reg < 250,
    ensures
        ({
            let d1 = device_step(d, bank_select_op(address, 0)).0;
            let r = device_step(d1, I2cOp::WriteRead { address, reg, len: 6 });
            &&& d1 == RegisterFile { bank: 0, regs: d.regs }
            &&& r.0 == d1
            &&& r.1.len() == 6
            &&& forall|i: int| 0 <= i < 6 ==> r.1[i] == bank0_reg(d, (reg + i) as u8)
        }),
{
    lemma_select_bank_value(0);
}

/// Reading the raw accelerometer output selects bank 0, changes no register,
/// and answers with the big-endian pairs `ACCEL_XOUT_H`/`_L`,
/// `ACCEL_YOUT_H`/`_L` and `ACCEL_ZOUT_H`/`_L` as two's-complement values.
pub proof fn law_read_accelerometer_raw(d: RegisterFile, address: u8)
    ensures
        transact(d, address, Command::ReadAccelerometerRaw) == Some(
            (
                RegisterFile { bank: 0, regs: d.regs },
                Reply::Axes(
                    be_i16(bank0_reg(d, bank0::ACCEL_XOUT_H), bank0_reg(d, bank0::ACCEL_XOUT_L)),
                    be_i16(bank0_reg(d, bank0::ACCEL_YOUT_H), bank0_reg(d, bank0::ACCEL_YOUT_L)),
                    be_i16(bank0_reg(d, bank0::ACCEL_ZOUT_H), bank0_reg(d, bank0::ACCEL_ZOUT_L)),
                ),
            ),
        ),
{
    let reg = bank0::ACCEL_XOUT_H;
    lemma_read_six(d, address, reg);
    lemma_run_two(d, bank_select_op(address, 0), I2cOp::WriteRead { address, reg, len: 6 });
    let d1 = device_step(d, bank_select_op(address, 0)).0;
    let data = device_step(d1, I2cOp::WriteRead { address, reg, len: 6 }).1;
    assert(Seq::<u8>::empty() + data =~= data);
    assert(data[1] == bank0_reg(d, (reg + 1) as u8));
    assert(data[2] == bank0_reg(d, (reg + 2) as u8));
    assert(data[3] == bank0_reg(d, (reg + 3) as u8));
    assert(data[4] == bank0_reg(d, (reg + 4) as u8));
    assert(data[5] == bank0_reg(d, (reg + 5) as u8));
    assert(data[0] == bank0_reg(d, (reg + 0) as u8));
}

/// Reading the raw gyroscope output selects bank 0, changes no register,
/// and answers with the big-endian pairs `GYRO_XOUT_H`/`_L`,
/// `GYRO_YOUT_H`/`_L` and `GYRO_ZOUT_H`/`_L` as two's-complement values.
pub proof fn law_read_gyroscope_raw(d: RegisterFile, address: u8)
    ensures
        transact(d, address, Command::ReadGyroscopeRaw) == Some(
            (
                RegisterFile { bank: 0, regs: d.regs },
                Reply::Axes(
                    be_i16(bank0_reg(d, bank0::GYRO_XOUT_H), bank0_reg(d, bank0::GYRO_XOUT_L)),
                    be_i16(bank0_reg(d, bank0::GYRO_YOUT_H), bank0_reg(d, bank0::GYRO_YOUT_L)),
                    be_i16(bank0_reg(d, bank0::GYRO_ZOUT_H), bank0_reg(d, bank0::GYRO_ZOUT_L)),
                ),
            ),
        ),
{
    let reg = bank0::GYRO_XOUT_H;
    lemma_read_six(d, address, reg);
    lemma_run_two(d, bank_select_op(address, 0), I2cOp::WriteRead { address, reg, len: 6 });
    let d1 = device_step(d, bank_select_op(address, 0)).0;
    let data = device_step(d1, I2cOp::WriteRead { address, reg, len: 6 }).1;
    assert(Seq::<u8>::empty() + data =~= data);
    assert(data[1] == bank0_reg(d, (reg + 1) as u8));
    assert(data[2] == bank0_reg(d, (reg + 2) as u8));
    assert(data[3] == bank0_reg(d, (reg + 3) as u8));
    assert(data[4] == bank0_reg(d, (reg + 4) as u8));
    assert(data[5] == bank0_reg(d, (reg + 5) as u8));
    assert(data[0] == bank0_reg(d, (reg + 0) as u8));
}

/// The device address an operation is sent to.
pub open spec fn op_address(op: I2cOp) -> u8 {
    match op {
        I2cOp::Write { address, .. } => address,
        I2cOp::WriteRead { address, .. } => address,
    }
}

/// Every operation of a command goes to the driver's own address, and every
/// command opens by writing `REG_BANK_SEL`, so that the register it then
/// touches is looked up in the right bank.
pub proof fn law_operations_addressed_bank_first(address: u8, command: Command, data: Seq<u8>)
    ensures
        spec_plan(address, command) matches Some(ops) ==> {
            &&& ops.len() >= 1
            &&& ops[0] matches I2cOp::Write { reg, .. } && reg == bank2::REG_BANK_SEL
            &&& forall|i: int| 0 <= i < ops.len() ==> op_address(#[trigger] ops[i]) == address
        },
        crate::protocol::spec_finish(address, command, data).next matches Some(op) ==> op_address(op)
            == address,
{
}

/// Decoding inverts big-endian encoding: the two bytes of any 16-bit value,
/// high byte first, decode to that value.
pub proof fn law_be_i16_inverts_encoding(x: i16)
    ensures
        be_i16(((x as u16) >> 8u16) as u8, (x as u16) as u8) == x,
{
    let u = x as u16;
    let hi = (u >> 8u16) as u8;
    let lo = u as u8;
    assert(hi as int * 256 + lo as int == u as int) by (bit_vector)
        requires
            u == x as u16,
            hi == (u >> 8u16) as u8,
            lo == u as u8,
    ;
    assert(x >= 0 ==> u as int == x as int) by (bit_vector)
        requires
            u == x as u16,
    ;
    assert(x < 0 ==> u as int == x as int + 65536) by (bit_vector)
        requires
            u == x as u16,
    ;
    assert(hi < 128 <==> x >= 0) by (bit_vector)
        requires
            u == x as u16,
            hi == (u >> 8u16) as u8,
    ;
}

} // verus!
