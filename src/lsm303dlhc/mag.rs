//! LSM303DLHC magnetometer settings and register map.
use vstd::prelude::*;

verus! {

/// Bus address of the magnetometer.
pub const MAG: u8 = 0b0011110;

/// Control register A: data rate and temperature sensor.
pub const CRA: u8 = 0x00;
/// Control register B: gain.
pub const CRB: u8 = 0x01;
/// Mode register.
pub const MR: u8 = 0x02;
/// First field output register (X axis, high byte).
pub const OUT_X_H: u8 = 0x03;
/// Temperature output, high byte.
pub const TEMP_OUT_H: u8 = 0x31;
/// Temperature output, low byte.
pub const TEMP_OUT_L: u8 = 0x32;

/// Output data rate.
#[derive(Debug, Clone, Copy, PartialEq, Eq)]
pub enum DataRate {
    Hz0_75,
    Hz1_5,
    Hz3_0,
    Hz7_5,
    Hz15,
    Hz30,
    Hz75,
    Hz220,
}

impl DataRate {
    pub open spec fn value(self) -> u8 {
        match self {
            DataRate::Hz0_75 => 0b000,
            DataRate::Hz1_5 => 0b001,
            DataRate::Hz3_0 => 0b010,
            DataRate::Hz7_5 => 0b011,
            DataRate::Hz15 => 0b100,
            DataRate::Hz30 => 0b101,
            DataRate::Hz75 => 0b110,
            DataRate::Hz220 => 0b111,
        }
    }

    /// The three-bit field code.
    pub fn bits(self) -> (r: u8)
        ensures
            r == self.value(),
    {
        match self {
            DataRate::Hz0_75 => 0b000,
            DataRate::Hz1_5 => 0b001,
            DataRate::Hz3_0 => 0b010,
            DataRate::Hz7_5 => 0b011,
            DataRate::Hz15 => 0b100,
            DataRate::Hz30 => 0b101,
            DataRate::Hz75 => 0b110,
            DataRate::Hz220 => 0b111,
        }
    }
}

/// Full-scale range, in gauss.
#[derive(Debug, Clone, Copy, PartialEq, Eq)]
pub enum Range {
    Gauss1_3,
    Gauss1_9,
    Gauss2_5,
    Gauss4_0,
    Gauss4_7,
    Gauss5_6,
    Gauss8_1,
}

/// The full-scale range selects the scale of the output.
pub type Scale = Range;

/// Gain of the X and Y axes, in counts per gauss.
pub open spec fn xy_gain(r: Range) -> int {
    match r {
        Range::Gauss1_3 => 1100,
        Range::Gauss1_9 => 855,
        Range::Gauss2_5 => 670,
        Range::Gauss4_0 => 450,
        Range::Gauss4_7 => 400,
        Range::Gauss5_6 => 330,
        Range::Gauss8_1 => 230,
    }
}

/// Gain of the Z axis, in counts per gauss.
pub open spec fn z_gain(r: Range) -> int {
    match r {
        Range::Gauss1_3 => 980,
        Range::Gauss1_9 => 760,
        Range::Gauss2_5 => 600,
        Range::Gauss4_0 => 400,
        Range::Gauss4_7 => 355,
        Range::Gauss5_6 => 295,
        Range::Gauss8_1 => 205,
    }
}

impl Range {
    pub open spec fn value(self) -> u8 {
        match self {
            Range::Gauss1_3 => 0b001,
            Range::Gauss1_9 => 0b010,
            Range::Gauss2_5 => 0b011,
            Range::Gauss4_0 => 0b100,
            Range::Gauss4_7 => 0b101,
            Range::Gauss5_6 => 0b110,
            Range::Gauss8_1 => 0b111,
        }
    }

    /// The range that a nonzero three-bit field code selects.
    pub open spec fn decode(bits: u8) -> Range
        recommends
            1 <= bits < 8,
    {
        if bits == 0b001 {
            Range::Gauss1_3
        } else if bits == 0b010 {
            Range::Gauss1_9
        } else if bits == 0b011 {
            Range::Gauss2_5
        } else if bits == 0b100 {
            Range::Gauss4_0
        } else if bits == 0b101 {
            Range::Gauss4_7
        } else if bits == 0b110 {
            Range::Gauss5_6
        } else {
            Range::Gauss8_1
        }
    }

    /// The three-bit field code.
    pub fn bits(self) -> (r: u8)
        ensures
            r == self.value(),
    {
        match self {
            Range::Gauss1_3 => 0b001,
            Range::Gauss1_9 => 0b010,
            Range::Gauss2_5 => 0b011,
            Range::Gauss4_0 => 0b100,
            Range::Gauss4_7 => 0b101,
            Range::Gauss5_6 => 0b110,
            Range::Gauss8_1 => 0b111,
        }
    }

    /// Decodes a three-bit field code; the code `0b000` selects no range.
    pub fn from_bits(s: u8) -> (r: Range)
        requires
            1 <= s < 8,
        ensures
            r == Range::decode(s),
    {
        match s {
            0b001 => Range::Gauss1_3,
            0b010 => Range::Gauss1_9,
            0b011 => Range::Gauss2_5,
            0b100 => Range::Gauss4_0,
            0b101 => Range::Gauss4_7,
            0b110 => Range::Gauss5_6,
            _ => Range::Gauss8_1,
        }
    }

    /// The gains of the X and Y axes and of the Z axis, in counts per gauss.
    pub fn params(&self) -> (r: (i16, i16))
        ensures
            r.0 == xy_gain(*self),
            r.1 == z_gain(*self),
    {
        match *self {
            Range::Gauss1_3 => (1100, 980),
            Range::Gauss1_9 => (855, 760),
            Range::Gauss2_5 => (670, 600),
            Range::Gauss4_0 => (450, 400),
            Range::Gauss4_7 => (400, 355),
            Range::Gauss5_6 => (330, 295),
            Range::Gauss8_1 => (230, 205),
        }
    }
}

} // verus!
