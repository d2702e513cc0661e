//! L3GD20 gyroscope settings and register map.
use vstd::prelude::*;

verus! {

/// Control register 1.
pub const CTRL1: u8 = 0x20;
/// Control register 2.
pub const CTRL2: u8 = 0x21;
/// Control register 3.
pub const CTRL3: u8 = 0x22;
/// Control register 4.
pub const CTRL4: u8 = 0x23;
/// Control register 5.
pub const CTRL5: u8 = 0x24;
/// Temperature output register.
pub const TEMP_OUT: u8 = 0x26;
/// First angular rate output register (X axis, low byte).
pub const OUT_X_L: u8 = 0x28;

/// Gyroscope rate, in units of 10^-5 degrees per second, of one raw count.
pub open spec fn dps_weight(r: Range) -> int {
    match r {
        Range::Dps250 => 875,
        Range::Dps500 => 1750,
        Range::Dps2000 => 7000,
    }
}

/// A measurement axis. Axes combine into an enable mask by bitwise or.
#[derive(Debug, Clone, Copy, PartialEq, Eq)]
pub enum Axis {
    XAxis,
    YAxis,
    ZAxis,
}

impl Axis {
    pub open spec fn value(self) -> u8 {
        match self {
            Axis::XAxis => 0b001,
            Axis::YAxis => 0b010,
            Axis::ZAxis => 0b100,
        }
    }

    /// The axis enable bit.
    pub fn bits(self) -> (r: u8)
        ensures
            r == self.value(),
    {
        match self {
            Axis::XAxis => 0b001,
            Axis::YAxis => 0b010,
            Axis::ZAxis => 0b100,
        }
    }
}

impl core::ops::Add<Axis> for Axis {
    type Output = u8;

    /// The enable mask of both axes.
    fn add(self, rhs: Axis) -> (r: u8)
        ensures
            r == self.value() | rhs.value(),
    {
        self.bits() | rhs.bits()
    }
}

impl core::ops::Add<u8> for Axis {
    type Output = u8;

    /// The enable mask `rhs` with this axis added.
    fn add(self, rhs: u8) -> (r: u8)
        ensures
            r == self.value() | rhs,
    {
        self.bits() | rhs
    }
}

impl core::ops::Add<Axis> for u8 {
    type Output = u8;

    /// The enable mask `self` with the axis `rhs` added.
    fn add(self, rhs: Axis) -> (r: u8)
        ensures
            r == self | rhs.value(),
    {
        self | rhs.bits()
    }
}

impl vstd::std_specs::ops::AddSpecImpl<Axis> for Axis {
    open spec fn obeys_add_spec() -> bool {
        true
    }

    open spec fn add_req(self, rhs: Axis) -> bool {
        true
    }

    open spec fn add_spec(self, rhs: Axis) -> u8 {
        self.value() | rhs.value()
    }
}

impl vstd::std_specs::ops::AddSpecImpl<u8> for Axis {
    open spec fn obeys_add_spec() -> bool {
        true
    }

    open spec fn add_req(self, rhs: u8) -> bool {
        true
    }

    open spec fn add_spec(self, rhs: u8) -> u8 {
        self.value() | rhs
    }
}

impl vstd::std_specs::ops::AddSpecImpl<Axis> for u8 {
    open spec fn obeys_add_spec() -> bool {
        true
    }

    open spec fn add_req(self, rhs: Axis) -> bool {
        true
    }

    open spec fn add_spec(self, rhs: Axis) -> u8 {
        self | rhs.value()
    }
}

/// Filter bandwidth, higher tags meaning a higher cut-off.
#[derive(Debug, Clone, Copy, PartialEq, Eq)]
pub enum Bandwidth {
    Low,
    Medium,
    High,
    VeryHigh,
}

impl Bandwidth {
    pub open spec fn value(self) -> u8 {
        match self {
            Bandwidth::Low => 0b00,
            Bandwidth::Medium => 0b01,
            Bandwidth::High => 0b10,
            Bandwidth::VeryHigh => 0b11,
        }
    }

    /// The two-bit field code.
    pub fn bits(self) -> (r: u8)
        ensures
            r == self.value(),
    {
        match self {
            Bandwidth::Low => 0b00,
            Bandwidth::Medium => 0b01,
            Bandwidth::High => 0b10,
            Bandwidth::VeryHigh => 0b11,
        }
    }
}

/// Output data rate.
#[derive(Debug, Clone, Copy, PartialEq, Eq)]
pub enum DataRate {
    Hz95,
    Hz190,
    Hz380,
    Hz760,
}

impl DataRate {
    pub open spec fn value(self) -> u8 {
        match self {
            DataRate::Hz95 => 0b00,
            DataRate::Hz190 => 0b01,
            DataRate::Hz380 => 0b10,
            DataRate::Hz760 => 0b11,
        }
    }

    /// The two-bit field code.
    pub fn bits(self) -> (r: u8)
        ensures
            r == self.value(),
    {
        match self {
            DataRate::Hz95 => 0b00,
            DataRate::Hz190 => 0b01,
            DataRate::Hz380 => 0b10,
            DataRate::Hz760 => 0b11,
        }
    }
}

/// FIFO operating mode.
#[derive(Debug, Clone, Copy, PartialEq, Eq)]
pub enum FIFOMode {
    Bypass,
    Fifo,
    Stream,
    StreamToFifo,
    BypassToStream,
}

impl FIFOMode {
    pub open spec fn value(self) -> u8 {
        match self {
            FIFOMode::Bypass => 0b000,
            FIFOMode::Fifo => 0b001,
            FIFOMode::Stream => 0b010,
            FIFOMode::StreamToFifo => 0b011,
            FIFOMode::BypassToStream => 0b100,
        }
    }

    /// The three-bit field code.
    pub fn bits(self) -> (r: u8)
        ensures
            r == self.value(),
    {
        match self {
            FIFOMode::Bypass => 0b000,
            FIFOMode::Fifo => 0b001,
            FIFOMode::Stream => 0b010,
            FIFOMode::StreamToFifo => 0b011,
            FIFOMode::BypassToStream => 0b100,
        }
    }
}

/// Filter chain feeding the output registers.
#[derive(Debug, Clone, Copy, PartialEq, Eq)]
pub enum OutputSelect {
    /// ADC, low pass filter 1, output.
    Raw,
    /// ADC, low pass filter 1, high pass filter, output.
    HighPassFilter,
    /// ADC, low pass filter 1, high pass filter, low pass filter 2, output.
    LowPassFilter,
}

impl OutputSelect {
    pub open spec fn value(self) -> u8 {
        match self {
            OutputSelect::Raw => 0b00,
            OutputSelect::HighPassFilter => 0b01,
            OutputSelect::LowPassFilter => 0b10,
        }
    }

    /// The two-bit field code.
    pub fn bits(self) -> (r: u8)
        ensures
            r == self.value(),
    {
        match self {
            OutputSelect::Raw => 0b00,
            OutputSelect::HighPassFilter => 0b01,
            OutputSelect::LowPassFilter => 0b10,
        }
    }
}

/// Full-scale range, in degrees per second.
#[derive(Debug, Clone, Copy, PartialEq, Eq)]
pub enum Range {
    Dps250,
    Dps500,
    Dps2000,
}

/// The full-scale range selects the scale of the output.
pub type Scale = Range;

impl Range {
    pub open spec fn value(self) -> u8 {
        match self {
            Range::Dps250 => 0b00,
            Range::Dps500 => 0b01,
            Range::Dps2000 => 0b10,
        }
    }

    /// The range that a two-bit field code selects; both `0b10` and `0b11`
    /// select 2000 degrees per second.
    pub open spec fn decode(bits: u8) -> Range {
        if bits == 0b00 {
            Range::Dps250
        } else if bits == 0b01 {
            Range::Dps500
        } else {
            Range::Dps2000
        }
    }

    /// The two-bit field code.
    pub fn bits(self) -> (r: u8)
        ensures
            r == self.value(),
    {
        match self {
            Range::Dps250 => 0b00,
            Range::Dps500 => 0b01,
            Range::Dps2000 => 0b10,
        }
    }

    /// Decodes a two-bit field code.
    pub fn from_bits(s: u8) -> (r: Range)
        requires
            s < 4,
        ensures
            r == Range::decode(s),
    {
        match s {
            0b00 => Range::Dps250,
            0b01 => Range::Dps500,
            _ => Range::Dps2000,
        }
    }

    /// The rate of one raw count, in units of 10^-5 degrees per second.
    pub fn params(&self) -> (r: i64)
        ensures
            r == dps_weight(*self),
    {
        match *self {
            Range::Dps250 => 875,
            Range::Dps500 => 1750,
            Range::Dps2000 => 7000,
        }
    }
}

} // verus!
