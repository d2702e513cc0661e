//! L3GD20 gyroscope and thermometer.
//!
//! The driver decides what goes over the bus; the caller that owns the
//! transport carries each transfer out, in order, and stops at the first
//! failure.

pub mod config;
pub mod convert;
pub mod gyro;

pub use self::config::Config;
pub use crate::error::Error;

use vstd::prelude::*;

use self::config::Registers;
use self::gyro::{Range, CTRL1, CTRL2, CTRL3, CTRL4, CTRL5, OUT_X_L, TEMP_OUT};
use crate::bus::{RegRead, RegWrite, AUTO_INCREMENT};

verus! {

/// The writes that load `regs` into the device at `addr`: one per control
/// register, in register order.
pub open spec fn init_writes(addr: u8, regs: Registers) -> Seq<RegWrite> {
    seq![
        RegWrite { addr, reg: CTRL1, val: regs.ctrl1 },
        RegWrite { addr, reg: CTRL2, val: regs.ctrl2 },
        RegWrite { addr, reg: CTRL3, val: regs.ctrl3 },
        RegWrite { addr, reg: CTRL4, val: regs.ctrl4 },
        RegWrite { addr, reg: CTRL5, val: regs.ctrl5 },
    ]
}

/// Control register 1 value that powers the device down.
pub const SLEEP_CTRL1: u8 = 0b00001000;

/// L3GD20 driver: the bus handle, the device address, and the full-scale
/// range decoded from the configuration it was created with.
pub struct L3gd20<I> {
    interface: I,
    addr: u8,
    gyro: Range,
}

impl<I> L3gd20<I> {
    /// The bus handle, owned for the driver's lifetime.
    pub closed spec fn handle(&self) -> I {
        self.interface
    }

    pub closed spec fn spec_addr(&self) -> u8 {
        self.addr
    }

    pub closed spec fn spec_range(&self) -> Range {
        self.gyro
    }

    /// The device's bus address.
    #[verifier::when_used_as_spec(spec_addr)]
    pub fn addr(&self) -> (r: u8)
        ensures
            r == self.spec_addr(),
    {
        self.addr
    }

    /// The configured full-scale range.
    #[verifier::when_used_as_spec(spec_range)]
    pub fn range(&self) -> (r: Range)
        ensures
            r == self.spec_range(),
    {
        self.gyro
    }

    /// The bus handle, to carry out the transfers that the driver describes.
    pub fn interface(&mut self) -> (r: &mut I)
        ensures
            *r == old(self).handle(),
            final(self).handle() == *final(r),
            final(self).addr() == old(self).addr(),
            final(self).range() == old(self).range(),
    {
        &mut self.interface
    }

    /// Binds the bus handle and the device address `addr` to the range that
    /// `cfg` selects. The device is configured once the returned writes have
    /// all succeeded, in order.
    pub fn create(interface: I, addr: u8, cfg: Config) -> (r: (Self, Vec<RegWrite>))
        ensures
            r.0.handle() == interface,
            r.0.addr() == addr,
            r.0.range() == cfg@.range(),
            r.1@ == init_writes(addr, cfg@),
    {
        let gyro = cfg.params();
        let regs = cfg.registers();
        let mut writes: Vec<RegWrite> = Vec::new();
        writes.push(RegWrite { addr, reg: CTRL1, val: regs.ctrl1 });
        writes.push(RegWrite { addr, reg: CTRL2, val: regs.ctrl2 });
        writes.push(RegWrite { addr, reg: CTRL3, val: regs.ctrl3 });
        writes.push(RegWrite { addr, reg: CTRL4, val: regs.ctrl4 });
        writes.push(RegWrite { addr, reg: CTRL5, val: regs.ctrl5 });
        assert(writes@ =~= init_writes(addr, cfg@));
        (L3gd20 { interface, addr, gyro }, writes)
    }

    /// The write that stops sampling. Sampling resumes once a data rate is
    /// selected again or the device is created anew.
    pub fn sleep(&self) -> (r: Vec<RegWrite>)
        ensures
            r@ == seq![RegWrite { addr: self.addr(), reg: CTRL1, val: SLEEP_CTRL1 }],
    {
        let mut writes: Vec<RegWrite> = Vec::new();
        writes.push(RegWrite { addr: self.addr, reg: CTRL1, val: SLEEP_CTRL1 });
        assert(writes@ =~= seq![RegWrite { addr: self.addr(), reg: CTRL1, val: SLEEP_CTRL1 }]);
        writes
    }

    /// The read of the six angular rate output bytes, X axis first.
    pub fn gyro_request(&self) -> (r: RegRead)
        ensures
            r == (RegRead { addr: self.addr(), reg: OUT_X_L | AUTO_INCREMENT, len: 6 }),
    {
        RegRead { addr: self.addr, reg: OUT_X_L | AUTO_INCREMENT, len: 6 }
    }

    /// The read of the temperature output byte.
    pub fn temp_request(&self) -> (r: RegRead)
        ensures
            r == (RegRead { addr: self.addr(), reg: TEMP_OUT, len: 1 }),
    {
        RegRead { addr: self.addr, reg: TEMP_OUT, len: 1 }
    }
}

} // verus!
