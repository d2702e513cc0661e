//! LSM303DLHC accelerometer, magnetometer and thermometer.
//!
//! The device answers at two fixed bus addresses, one per subsystem. The
//! driver decides what goes over the bus; the caller that owns the
//! transport carries each transfer out, in order, and stops at the first
//! failure.

pub mod accel;
pub mod config;
pub mod convert;
pub mod mag;

pub use self::config::Config;
pub use crate::error::Error;

use vstd::prelude::*;

use self::accel::{Mode, ACCEL};
use self::config::Registers;
use self::mag::MAG;
use crate::bus::{RegRead, RegWrite, AUTO_INCREMENT};

verus! {

/// The writes that load `regs` into the device: the accelerometer's control
/// registers in register order; then the magnetometer's gain, first cleared
/// and then set, its data rate and temperature sensor, and its mode.
pub open spec fn init_writes(regs: Registers) -> Seq<RegWrite> {
    seq![
        RegWrite { addr: ACCEL, reg: accel::CTRL1, val: regs.ctrl1 },
        RegWrite { addr: ACCEL, reg: accel::CTRL2, val: regs.ctrl2 },
        RegWrite { addr: ACCEL, reg: accel::CTRL3, val: regs.ctrl3 },
        RegWrite { addr: ACCEL, reg: accel::CTRL4, val: regs.ctrl4 },
        RegWrite { addr: ACCEL, reg: accel::CTRL5, val: regs.ctrl5 },
        RegWrite { addr: ACCEL, reg: accel::CTRL6, val: regs.ctrl6 },
        RegWrite { addr: MAG, reg: mag::CRB, val: 0 },
        RegWrite { addr: MAG, reg: mag::CRB, val: regs.crb },
        RegWrite { addr: MAG, reg: mag::CRA, val: regs.cra },
        RegWrite { addr: MAG, reg: mag::MR, val: regs.mr },
    ]
}

/// Accelerometer control register 1 value that powers it down.
pub const SLEEP_CTRL1: u8 = 0b00001000;

/// Magnetometer mode register value that puts it to sleep.
pub const SLEEP_MR: u8 = 0b00000011;

/// The writes that stop sampling on both subsystems.
pub open spec fn sleep_writes() -> Seq<RegWrite> {
    seq![
        RegWrite { addr: ACCEL, reg: accel::CTRL1, val: SLEEP_CTRL1 },
        RegWrite { addr: MAG, reg: mag::MR, val: SLEEP_MR },
    ]
}

/// LSM303DLHC driver: the bus handle, and the accelerometer mode and range
/// and magnetometer range decoded from the configuration it was created
/// with.
pub struct Lsm303dlhc<I> {
    interface: I,
    accel: (Mode, accel::Range),
    mag: mag::Range,
}

impl<I> Lsm303dlhc<I> {
    /// The bus handle, owned for the driver's lifetime.
    pub closed spec fn handle(&self) -> I {
        self.interface
    }

    pub closed spec fn spec_accel(&self) -> (Mode, accel::Range) {
        self.accel
    }

    pub closed spec fn spec_mag(&self) -> mag::Range {
        self.mag
    }

    /// The configured accelerometer mode and range.
    #[verifier::when_used_as_spec(spec_accel)]
    pub fn accel(&self) -> (r: (Mode, accel::Range))
        ensures
            r == self.spec_accel(),
    {
        self.accel
    }

    /// The configured magnetometer range.
    #[verifier::when_used_as_spec(spec_mag)]
    pub fn mag(&self) -> (r: mag::Range)
        ensures
            r == self.spec_mag(),
    {
        self.mag
    }

    /// The bus handle, to carry out the transfers that the driver describes.
    pub fn interface(&mut self) -> (r: &mut I)
        ensures
            *r == old(self).handle(),
            final(self).handle() == *final(r),
            final(self).accel() == old(self).accel(),
            final(self).mag() == old(self).mag(),
    {
        &mut self.interface
    }

    /// Binds the bus handle to the modes and ranges that `cfg` selects. The
    /// device is configured once the returned writes have all succeeded, in
    /// order.
    pub fn create(interface: I, cfg: Config) -> (r: (Self, Vec<RegWrite>))
        ensures
            r.0.handle() == interface,
            r.0.accel() == cfg@.params().0,
            r.0.mag() == cfg@.params().1,
            r.1@ == init_writes(cfg@),
    {
        let (accel, mag) = cfg.params();
        let regs = cfg.registers();
        let mut writes: Vec<RegWrite> = Vec::new();
        writes.push(RegWrite { addr: ACCEL, reg: accel::CTRL1, val: regs.ctrl1 });
        writes.push(RegWrite { addr: ACCEL, reg: accel::CTRL2, val: regs.ctrl2 });
        writes.push(RegWrite { addr: ACCEL, reg: accel::CTRL3, val: regs.ctrl3 });
        writes.push(RegWrite { addr: ACCEL, reg: accel::CTRL4, val: regs.ctrl4 });
        writes.push(RegWrite { addr: ACCEL, reg: accel::CTRL5, val: regs.ctrl5 });
        writes.push(RegWrite { addr: ACCEL, reg: accel::CTRL6, val: regs.ctrl6 });
        writes.push(RegWrite { addr: MAG, reg: mag::CRB, val: 0 });
        writes.push(RegWrite { addr: MAG, reg: mag::CRB, val: regs.crb });
        writes.push(RegWrite { addr: MAG, reg: mag::CRA, val: regs.cra });
        writes.push(RegWrite { addr: MAG, reg: mag::MR, val: regs.mr });
        assert(writes@ =~= init_writes(cfg@));
        (Lsm303dlhc { interface, accel, mag }, writes)
    }

    /// The writes that stop sampling. Sampling resumes once data rates are
    /// selected again or the device is created anew.
    pub fn sleep(&self) -> (r: Vec<RegWrite>)
        ensures
            r@ == sleep_writes(),
    {
        let mut writes: Vec<RegWrite> = Vec::new();
        writes.push(RegWrite { addr: ACCEL, reg: accel::CTRL1, val: SLEEP_CTRL1 });
        writes.push(RegWrite { addr: MAG, reg: mag::MR, val: SLEEP_MR });
        assert(writes@ =~= sleep_writes());
        writes
    }

    /// The read of the six acceleration output bytes, X axis first.
    pub fn accel_request(&self) -> (r: RegRead)
        ensures
            r == (RegRead { addr: ACCEL, reg: accel::OUT_X_L | AUTO_INCREMENT, len: 6 }),
    {
        RegRead { addr: ACCEL, reg: accel::OUT_X_L | AUTO_INCREMENT, len: 6 }
    }

    /// The read of the six field output bytes, X axis first.
    pub fn mag_request(&self) -> (r: RegRead)
        ensures
            r == (RegRead { addr: MAG, reg: mag::OUT_X_H | AUTO_INCREMENT, len: 6 }),
    {
        RegRead { addr: MAG, reg: mag::OUT_X_H | AUTO_INCREMENT, len: 6 }
    }

    /// The two single-byte reads of the temperature output: high byte, then
    /// low byte.
    pub fn temp_requests(&self) -> (r: [RegRead; 2])
        ensures
            r@ == seq![
                RegRead { addr: MAG, reg: mag::TEMP_OUT_H, len: 1 },
                RegRead { addr: MAG, reg: mag::TEMP_OUT_L, len: 1 },
            ],
    {
        let r = [
            RegRead { addr: MAG, reg: mag::TEMP_OUT_H, len: 1 },
            RegRead { addr: MAG, reg: mag::TEMP_OUT_L, len: 1 },
        ];
        assert(r@ =~= seq![
            RegRead { addr: MAG, reg: mag::TEMP_OUT_H, len: 1 },
            RegRead { addr: MAG, reg: mag::TEMP_OUT_L, len: 1 },
        ]);
        r
    }
}

} // verus!
