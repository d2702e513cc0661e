//! Configuration image of the L3GD20 control registers.
use vstd::prelude::*;

use super::gyro::{Bandwidth, DataRate, Range, Scale};

verus! {

/// Values of the five control registers, in register order.
#[derive(Debug, Clone, Copy, PartialEq, Eq)]
pub struct Registers {
    pub ctrl1: u8,
    pub ctrl2: u8,
    pub ctrl3: u8,
    pub ctrl4: u8,
    pub ctrl5: u8,
}

impl Registers {
    /// The power-on image: all axes enabled, lowest rate and bandwidth,
    /// 250 degrees per second, block data update, FIFO disabled.
    pub open spec fn power_on() -> Registers {
        Registers { ctrl1: 0b00001111, ctrl2: 0, ctrl3: 0, ctrl4: 0b10000000, ctrl5: 0b01000000 }
    }

    /// Replaces the axis enable bits by those of `axis`.
    pub open spec fn with_axis(self, axis: u8) -> Registers {
        Registers { ctrl1: (self.ctrl1 & !0x07u8) | (axis & 0x07u8), ..self }
    }

    pub open spec fn with_datarate(self, rate: DataRate) -> Registers {
        Registers { ctrl1: (self.ctrl1 & !0xC0u8) | (rate.value() << 6u8), ..self }
    }

    pub open spec fn with_bandwidth(self, bw: Bandwidth) -> Registers {
        Registers { ctrl1: (self.ctrl1 & !0x30u8) | (bw.value() << 4u8), ..self }
    }

    pub open spec fn with_scale(self, scale: Scale) -> Registers {
        Registers { ctrl4: (self.ctrl4 & !0x30u8) | (scale.value() << 4u8), ..self }
    }

    /// The full-scale range that the image selects.
    pub open spec fn range(self) -> Range {
        Range::decode((self.ctrl4 >> 4u8) & 0x03u8)
    }
}

/// A control register image, built from the power-on image by the setters.
#[derive(Debug, Clone, Copy)]
pub struct Config {
    regs: Registers,
}

impl View for Config {
    type V = Registers;

    closed spec fn view(&self) -> Registers {
        self.regs
    }
}

impl Config {
    /// The power-on image.
    pub fn new() -> (r: Self)
        ensures
            r@ == Registers::power_on(),
            r@.range() == Range::Dps250,
    {
        let r = Config {
            regs: Registers {
                ctrl1: 0b00001111,
                ctrl2: 0b00000000,
                ctrl3: 0b00000000,
                ctrl4: 0b10000000,
                ctrl5: 0b01000000,
            },
        };
        assert(((0b10000000u8 >> 4u8) & 0x03u8) == 0) by (bit_vector);
        r
    }

    /// The register values.
    pub fn registers(&self) -> (r: Registers)
        ensures
            r == self@,
    {
        self.regs
    }

    /// Enables exactly the axes whose bits are set in `axis` (an or of
    /// `Axis` bits).
    pub fn axis(self, axis: u8) -> (r: Self)
        ensures
            r@ == self@.with_axis(axis),
    {
        let mut regs = self.regs;
        regs.ctrl1 = (regs.ctrl1 & !0x07u8) | (axis & 0x07u8);
        Config { regs }
    }

    /// Sets the output data rate.
    pub fn datarate(self, gyro: DataRate) -> (r: Self)
        ensures
            r@ == self@.with_datarate(gyro),
    {
        let mut regs = self.regs;
        regs.ctrl1 = (regs.ctrl1 & !0xC0u8) | (gyro.bits() << 6u8);
        Config { regs }
    }

    /// Sets the filter bandwidth.
    pub fn bandwidth(self, gyro: Bandwidth) -> (r: Self)
        ensures
            r@ == self@.with_bandwidth(gyro),
    {
        let mut regs = self.regs;
        regs.ctrl1 = (regs.ctrl1 & !0x30u8) | (gyro.bits() << 4u8);
        Config { regs }
    }

    /// Sets the full-scale range.
    pub fn scale(self, gyro: Scale) -> (r: Self)
        ensures
            r@ == self@.with_scale(gyro),
            r@.range() == gyro,
    {
        let mut regs = self.regs;
        regs.ctrl4 = (regs.ctrl4 & !0x30u8) | (gyro.bits() << 4u8);
        proof {
            lemma_scale_round_trip(self@, gyro);
        }
        Config { regs }
    }

    /// The full-scale range that the image selects.
    pub fn params(&self) -> (r: Range)
        ensures
            r == self@.range(),
    {
        let c: u8 = self.regs.ctrl4;
        let bits: u8 = (c >> 4u8) & 0x03u8;
        assert(((c >> 4u8) & 0x03u8) < 4) by (bit_vector);
        Range::from_bits(bits)
    }
}

impl Default for Config {
    fn default() -> (r: Self)
        ensures
            r@ == Registers::power_on(),
    {
        Config::new()
    }
}

/// Decoding the range field of an image that a range was written to gives
/// that range back.
pub proof fn lemma_scale_round_trip(regs: Registers, scale: Scale)
    ensures
        regs.with_scale(scale).range() == scale,
{
    let c = regs.ctrl4;
    let v = scale.value();
    assert(v < 3);
    assert(v < 3 ==> (((c & !0x30u8) | (v << 4u8)) >> 4u8) & 0x03u8 == v) by (bit_vector);
}

/// Setting the axes twice keeps only the second setting: the axis bits
/// after `a` then `b` equal those of `b` alone.
pub proof fn lemma_axis_last_wins(regs: Registers, a: u8, b: u8)
    ensures
        regs.with_axis(a).with_axis(b) == regs.with_axis(b),
{
    let c = regs.ctrl1;
    assert(((((c & !0x07u8) | (a & 0x07u8)) & !0x07u8) | (b & 0x07u8)) == ((c & !0x07u8) | (b
        & 0x07u8))) by (bit_vector);
}

/// Two axis settings commute when they select the same axes (and only
/// then, since the second one replaces the first).
pub proof fn lemma_axis_commutes(regs: Registers, a: u8, b: u8)
    requires
        a & 0x07u8 == b & 0x07u8,
    ensures
        regs.with_axis(a).with_axis(b) == regs.with_axis(b).with_axis(a),
{
    lemma_axis_last_wins(regs, a, b);
    lemma_axis_last_wins(regs, b, a);
}

/// Writing the same range twice gives the image that writing it once gives.
pub proof fn lemma_scale_idempotent(regs: Registers, scale: Scale)
    ensures
        regs.with_scale(scale).with_scale(scale) == regs.with_scale(scale),
{
    let c = regs.ctrl4;
    let v = scale.value();
    assert(((((c & !0x30u8) | (v << 4u8)) & !0x30u8) | (v << 4u8)) == ((c & !0x30u8) | (v
        << 4u8))) by (bit_vector);
}


/// Setters of different fields commute: the axes, the data rate and the
/// bandwidth share control register 1 but not its bits, and the range lives
/// in control register 4.
pub proof fn lemma_setters_commute(regs: Registers, axis: u8, rate: DataRate, bw: Bandwidth, scale: Scale)
    ensures
        regs.with_axis(axis).with_datarate(rate) == regs.with_datarate(rate).with_axis(axis),
        regs.with_axis(axis).with_bandwidth(bw) == regs.with_bandwidth(bw).with_axis(axis),
        regs.with_datarate(rate).with_bandwidth(bw) == regs.with_bandwidth(bw).with_datarate(rate),
        regs.with_scale(scale).with_axis(axis) == regs.with_axis(axis).with_scale(scale),
        regs.with_scale(scale).with_datarate(rate) == regs.with_datarate(rate).with_scale(scale),
        regs.with_scale(scale).with_bandwidth(bw) == regs.with_bandwidth(bw).with_scale(scale),
{
    let c = regs.ctrl1;
    let r = rate.value();
    let b = bw.value();
    assert(((((c & !0x07u8) | (axis & 0x07u8)) & !0xC0u8) | (r << 6u8)) == ((((c & !0xC0u8) | (r
        << 6u8)) & !0x07u8) | (axis & 0x07u8))) by (bit_vector);
    assert(((((c & !0x07u8) | (axis & 0x07u8)) & !0x30u8) | (b << 4u8)) == ((((c & !0x30u8) | (b
        << 4u8)) & !0x07u8) | (axis & 0x07u8))) by (bit_vector);
    assert(b < 4 ==> ((((c & !0xC0u8) | (r << 6u8)) & !0x30u8) | (b << 4u8)) == ((((c & !0x30u8)
        | (b << 4u8)) & !0xC0u8) | (r << 6u8))) by (bit_vector);
}

} // verus!
