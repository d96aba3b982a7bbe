use std::collections::HashMap;

use fimur::error::ImuError;
use fimur::protocol::{
    i16_from_be_bytes, merge_scale_bits, scale_from_config, Command, I2cOp, Icm20948Protocol, Reply,
};
use fimur::registers::{bank0, bank1, bank2, bank3, Bank0, Bank1, Bank2, Bank3, Register};

/// A simulated ICM-20948 register file.
struct Sim {
    bank: u8,
    regs: HashMap<(u8, u8), u8>,
    log: Vec<I2cOp>,
}

impl Sim {
    fn new() -> Self {
        Sim { bank: 0, regs: HashMap::new(), log: Vec::new() }
    }

    fn apply(&mut self, op: I2cOp) -> Vec<u8> {
        self.log.push(op);
        match op {
            I2cOp::Write { reg, value, .. } => {
                if reg == bank2::REG_BANK_SEL {
                    self.bank = (value >> 4) & 3;
                } else {
                    self.regs.insert((self.bank, reg), value);
                }
                Vec::new()
            }
            I2cOp::WriteRead { reg, len, .. } => (0..len)
                .map(|i| *self.regs.get(&(self.bank, reg.wrapping_add(i as u8))).unwrap_or(&0))
                .collect(),
        }
    }

    fn run(&mut self, p: &Icm20948Protocol, cmd: Command) -> Result<Reply, ImuError<()>> {
        let ops = p.begin::<()>(cmd)?;
        let mut data = Vec::new();
        for op in ops {
            data.extend(self.apply(op));
        }
        let c = p.finish(cmd, &data);
        if let Some(op) = c.next {
            self.apply(op);
        }
        Ok(c.reply)
    }
}

#[test]
fn register_banks_follow_their_marker() {
    assert_eq!(Register::<Bank0>::new("PWR_MGMT_1", bank0::PWR_MGMT_1).get_bank(), 0);
    assert_eq!(Register::<Bank1>::new("XA_OFFS_H", bank1::XA_OFFS_H).get_bank(), 1);
    let r = Register::<Bank2>::new("ACCEL_CONFIG", bank2::ACCEL_CONFIG);
    assert_eq!(r.get_bank(), 2);
    assert_eq!(r.addr, 0x14);
    assert_eq!(r.name, "ACCEL_CONFIG");
    assert_eq!(Register::<Bank3>::new("I2C_SLV4_DI", bank3::I2C_SLV4_DI).get_bank(), 3);
}

#[test]
fn register_addresses() {
    assert_eq!(bank0::WHO_AM_I, 0x00);
    assert_eq!(bank0::ACCEL_XOUT_H, 0x2D);
    assert_eq!(bank0::GYRO_XOUT_H, 0x33);
    assert_eq!(bank0::EXT_SLV_SENS_DATA_03, 0x43);
    assert_eq!(bank1::REG_BANK_SEL, 0x7F);
    assert_eq!(bank2::GYRO_CONFIG_1, 0x01);
    assert_eq!(bank3::I2C_SLV2_DO_2, 0x0E);
}

#[test]
fn select_register_bank_frames() {
    let p = Icm20948Protocol::new(0x68);
    assert_eq!(
        p.select_register_bank::<()>(3).unwrap(),
        I2cOp::Write { address: 0x68, reg: 0x7F, value: 0x30 }
    );
    assert_eq!(
        p.select_register_bank::<()>(0).unwrap(),
        I2cOp::Write { address: 0x68, reg: 0x7F, value: 0x00 }
    );
    assert!(matches!(p.select_register_bank::<()>(4), Err(ImuError::InvalidRegisterBank)));
    assert!(matches!(p.select_register_bank::<()>(255), Err(ImuError::InvalidRegisterBank)));
}

#[test]
fn begin_plans() {
    let p = Icm20948Protocol::new(0x69);
    assert_eq!(
        p.begin::<()>(Command::Init).unwrap(),
        vec![
            I2cOp::Write { address: 0x69, reg: 0x7F, value: 0x00 },
            I2cOp::Write { address: 0x69, reg: 0x06, value: 0x09 },
        ]
    );
    assert_eq!(
        p.begin::<()>(Command::ReadAccelerometerRaw).unwrap(),
        vec![
            I2cOp::Write { address: 0x69, reg: 0x7F, value: 0x00 },
            I2cOp::WriteRead { address: 0x69, reg: 0x2D, len: 6 },
        ]
    );
    assert_eq!(
        p.begin::<()>(Command::ReadGyroscopeRaw).unwrap(),
        vec![
            I2cOp::Write { address: 0x69, reg: 0x7F, value: 0x00 },
            I2cOp::WriteRead { address: 0x69, reg: 0x33, len: 6 },
        ]
    );
    assert_eq!(
        p.begin::<()>(Command::SetAccelerometerScale(9)).unwrap(),
        vec![
            I2cOp::Write { address: 0x69, reg: 0x7F, value: 0x20 },
            I2cOp::WriteRead { address: 0x69, reg: 0x14, len: 1 },
        ]
    );
    assert_eq!(
        p.begin::<()>(Command::GetGyroscopeScale).unwrap(),
        vec![
            I2cOp::Write { address: 0x69, reg: 0x7F, value: 0x20 },
            I2cOp::WriteRead { address: 0x69, reg: 0x01, len: 1 },
        ]
    );
    assert!(matches!(
        p.begin::<()>(Command::SetGyroscopeScale(4)),
        Err(ImuError::InvalidSetGyroscopeScale)
    ));
    assert!(matches!(
        p.begin::<()>(Command::SelectRegisterBank(7)),
        Err(ImuError::InvalidRegisterBank)
    ));
}

#[test]
fn finish_merges_scale_into_config() {
    let p = Icm20948Protocol::new(0x68);
    let c = p.finish(Command::SetAccelerometerScale(1), &[0xF9]);
    assert_eq!(c.next, Some(I2cOp::Write { address: 0x68, reg: 0x14, value: 0xFB }));
    assert_eq!(c.reply, Reply::Done);
    let c = p.finish(Command::SetGyroscopeScale(2), &[0xFF]);
    assert_eq!(c.next, Some(I2cOp::Write { address: 0x68, reg: 0x01, value: 0xFD }));
    let c = p.finish(Command::GetAccelerometerScale, &[0b0000_0100]);
    assert_eq!(c, fimur::protocol::Completion { next: None, reply: Reply::Scale(2) });
    let c = p.finish(Command::Init, &[]);
    assert_eq!(c.reply, Reply::Done);
    assert_eq!(c.next, None);
}

#[test]
fn finish_decodes_axes() {
    let p = Icm20948Protocol::new(0x68);
    let c = p.finish(Command::ReadGyroscopeRaw, &[0x01, 0x02, 0xFF, 0xFF, 0x80, 0x00]);
    assert_eq!(c.reply, Reply::Axes(258, -1, -32768));
    assert_eq!(c.next, None);
}

#[test]
fn scale_bits() {
    assert_eq!(merge_scale_bits(0x00, 3), 0x06);
    assert_eq!(merge_scale_bits(0xFF, 0), 0xF9);
    assert_eq!(merge_scale_bits(0x00, 5), 0x02);
    assert_eq!(scale_from_config(0xFF), 3);
    assert_eq!(scale_from_config(0xF9), 0);
}

#[test]
fn big_endian_decoding() {
    assert_eq!(i16_from_be_bytes([0x00, 0x00]), 0);
    assert_eq!(i16_from_be_bytes([0x7F, 0xFF]), 32767);
    assert_eq!(i16_from_be_bytes([0x80, 0x00]), -32768);
    assert_eq!(i16_from_be_bytes([0xFF, 0xFE]), -2);
    for x in [-32768i16, -300, -1, 0, 1, 255, 256, 32767] {
        assert_eq!(i16_from_be_bytes(x.to_be_bytes()), x);
    }
}

#[test]
fn accelerometer_scale_read_back_on_simulated_sensor() {
    let p = Icm20948Protocol::new(0x68);
    let mut sim = Sim::new();
    sim.regs.insert((2, 0x14), 0b0011_1001);
    for s in 0..4u8 {
        assert_eq!(sim.run(&p, Command::SetAccelerometerScale(s)).unwrap(), Reply::Done);
        assert_eq!(sim.run(&p, Command::GetAccelerometerScale).unwrap(), Reply::Scale(s));
        assert_eq!(sim.regs[&(2, 0x14)] & !0b110, 0b0011_1001);
    }
    assert_eq!(sim.bank, 2);
    sim.run(&p, Command::SetAccelerometerScale(6)).unwrap();
    assert_eq!(sim.run(&p, Command::GetAccelerometerScale).unwrap(), Reply::Scale(2));
}

#[test]
fn gyroscope_scale_read_back_on_simulated_sensor() {
    let p = Icm20948Protocol::new(0x68);
    let mut sim = Sim::new();
    sim.regs.insert((2, 0x01), 0xFF);
    assert_eq!(sim.run(&p, Command::SetGyroscopeScale(1)).unwrap(), Reply::Done);
    assert_eq!(sim.run(&p, Command::GetGyroscopeScale).unwrap(), Reply::Scale(1));
    assert_eq!(sim.regs[&(2, 0x01)], 0xFB);
    let before = sim.log.len();
    assert!(matches!(
        sim.run(&p, Command::SetGyroscopeScale(4)),
        Err(ImuError::InvalidSetGyroscopeScale)
    ));
    assert_eq!(sim.log.len(), before);
    assert_eq!(sim.run(&p, Command::GetGyroscopeScale).unwrap(), Reply::Scale(1));
}

#[test]
fn init_and_raw_reads_on_simulated_sensor() {
    let p = Icm20948Protocol::new(0x68);
    let mut sim = Sim::new();
    sim.bank = 3;
    sim.run(&p, Command::Init).unwrap();
    assert_eq!(sim.regs[&(0, 0x06)], 0x09);
    assert_eq!(sim.bank, 0);
    for (i, b) in [0x00u8, 0x10, 0xFF, 0xF0, 0x40, 0x00].iter().enumerate() {
        sim.regs.insert((0, 0x2D + i as u8), *b);
        sim.regs.insert((0, 0x33 + i as u8), b.wrapping_add(1));
    }
    sim.bank = 2;
    assert_eq!(sim.run(&p, Command::ReadAccelerometerRaw).unwrap(), Reply::Axes(16, -16, 16384));
    assert_eq!(sim.run(&p, Command::ReadGyroscopeRaw).unwrap(), Reply::Axes(273, 241, 16641));
    assert!(sim.log.iter().all(|op| match op {
        I2cOp::Write { address, .. } | I2cOp::WriteRead { address, .. } => *address == 0x68,
    }));
}

#[test]
fn select_register_bank_on_simulated_sensor() {
    let p = Icm20948Protocol::new(0x68);
    let mut sim = Sim::new();
    for b in 0..4u8 {
        sim.run(&p, Command::SelectRegisterBank(b)).unwrap();
        assert_eq!(sim.bank, b);
    }
    assert!(sim.run(&p, Command::SelectRegisterBank(4)).is_err());
    assert_eq!(sim.bank, 3);
}

#[test]
fn error_from_bus_error() {
    let e: ImuError<u8> = ImuError::from(5u8);
    assert!(matches!(e, ImuError::I2c(5)));
    let e: ImuError<&str> = "nack".into();
    assert!(matches!(e, ImuError::I2c("nack")));
}

#[test]
fn scale_reads_change_no_register() {
    let p = Icm20948Protocol::new(0x68);
    let mut sim = Sim::new();
    sim.regs.insert((2, 0x14), 0b0000_0100);
    sim.regs.insert((2, 0x01), 0b0011_0110);
    sim.regs.insert((0, 0x06), 0x41);
    let before = sim.regs.clone();
    assert_eq!(sim.run(&p, Command::GetAccelerometerScale).unwrap(), Reply::Scale(2));
    assert_eq!(sim.run(&p, Command::GetGyroscopeScale).unwrap(), Reply::Scale(3));
    assert_eq!(sim.regs, before);
    assert_eq!(sim.bank, 2);
}
