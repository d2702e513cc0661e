//! LSM303DLHC accelerometer settings and register map.
use vstd::prelude::*;

verus! {

/// Bus address of the accelerometer.
pub const ACCEL: u8 = 0b0011001;

/// Control register 1.
pub const CTRL1: u8 = 0x20;
/// Control register 2.
pub const CTRL2: u8 = 0x21;
/// Control register 3.
pub const CTRL3: u8 = 0x22;
/// Control register 4.
pub const CTRL4: u8 = 0x23;
/// Control register 5.
pub const CTRL5: u8 = 0x24;
/// Control register 6.
pub const CTRL6: u8 = 0x25;
/// First acceleration output register (X axis, low byte).
pub const OUT_X_L: u8 = 0x28;

/// A measurement axis. Axes combine into an enable mask by bitwise or.
#[derive(Debug, Clone, Copy, PartialEq, Eq)]
pub enum Axis {
    XAxis,
    YAxis,
    ZAxis,
}

impl Axis {
    pub open spec fn value(self) -> u8 {
        match self {
            Axis::XAxis => 0b001,
            Axis::YAxis => 0b010,
            Axis::ZAxis => 0b100,
        }
    }

    /// The axis enable bit.
    pub fn bits(self) -> (r: u8)
        ensures
            r == self.value(),
    {
        match self {
            Axis::XAxis => 0b001,
            Axis::YAxis => 0b010,
            Axis::ZAxis => 0b100,
        }
    }
}

impl core::ops::Add<Axis> for Axis {
    type Output = u8;

    /// The enable mask of both axes.
    fn add(self, rhs: Axis) -> (r: u8)
        ensures
            r == self.value() | rhs.value(),
    {
        self.bits() | rhs.bits()
    }
}

impl core::ops::Add<u8> for Axis {
    type Output = u8;

    /// The enable mask `rhs` with this axis added.
    fn add(self, rhs: u8) -> (r: u8)
        ensures
            r == self.value() | rhs,
    {
        self.bits() | rhs
    }
}

impl core::ops::Add<Axis> for u8 {
    type Output = u8;

    /// The enable mask `self` with the axis `rhs` added.
    fn add(self, rhs: Axis) -> (r: u8)
        ensures
            r == self | rhs.value(),
    {
        self | rhs.bits()
    }
}

impl vstd::std_specs::ops::AddSpecImpl<Axis> for Axis {
    open spec fn obeys_add_spec() -> bool {
        true
    }

    open spec fn add_req(self, rhs: Axis) -> bool {
        true
    }

    open spec fn add_spec(self, rhs: Axis) -> u8 {
        self.value() | rhs.value()
    }
}

impl vstd::std_specs::ops::AddSpecImpl<u8> for Axis {
    open spec fn obeys_add_spec() -> bool {
        true
    }

    open spec fn add_req(self, rhs: u8) -> bool {
        true
    }

    open spec fn add_spec(self, rhs: u8) -> u8 {
        self.value() | rhs
    }
}

impl vstd::std_specs::ops::AddSpecImpl<Axis> for u8 {
    open spec fn obeys_add_spec() -> bool {
        true
    }

    open spec fn add_req(self, rhs: Axis) -> bool {
        true
    }

    open spec fn add_spec(self, rhs: Axis) -> u8 {
        self | rhs.value()
    }
}

/// Output data rate.
#[derive(Debug, Clone, Copy, PartialEq, Eq)]
pub enum DataRate {
    Hz1,
    Hz10,
    Hz25,
    Hz50,
    Hz100,
    Hz200,
    Hz400,
}

impl DataRate {
    pub open spec fn value(self) -> u8 {
        match self {
            DataRate::Hz1 => 0b0001,
            DataRate::Hz10 => 0b0010,
            DataRate::Hz25 => 0b0011,
            DataRate::Hz50 => 0b0100,
            DataRate::Hz100 => 0b0101,
            DataRate::Hz200 => 0b0110,
            DataRate::Hz400 => 0b0111,
        }
    }

    /// The four-bit field code.
    pub fn bits(self) -> (r: u8)
        ensures
            r == self.value(),
    {
        match self {
            DataRate::Hz1 => 0b0001,
            DataRate::Hz10 => 0b0010,
            DataRate::Hz25 => 0b0011,
            DataRate::Hz50 => 0b0100,
            DataRate::Hz100 => 0b0101,
            DataRate::Hz200 => 0b0110,
            DataRate::Hz400 => 0b0111,
        }
    }
}

/// Full-scale range, in multiples of standard gravity.
#[derive(Debug, Clone, Copy, PartialEq, Eq)]
pub enum Range {
    G2,
    G4,
    G8,
    G16,
}

/// The full-scale range selects the scale of the output.
pub type Scale = Range;

impl Range {
    pub open spec fn value(self) -> u8 {
        match self {
            Range::G2 => 0b00,
            Range::G4 => 0b01,
            Range::G8 => 0b10,
            Range::G16 => 0b11,
        }
    }

    /// The range that a two-bit field code selects.
    pub open spec fn decode(bits: u8) -> Range {
        if bits == 0b00 {
            Range::G2
        } else if bits == 0b01 {
            Range::G4
        } else if bits == 0b10 {
            Range::G8
        } else {
            Range::G16
        }
    }

    /// The two-bit field code.
    pub fn bits(self) -> (r: u8)
        ensures
            r == self.value(),
    {
        match self {
            Range::G2 => 0b00,
            Range::G4 => 0b01,
            Range::G8 => 0b10,
            Range::G16 => 0b11,
        }
    }

    /// Decodes a two-bit field code.
    pub fn from_bits(s: u8) -> (r: Range)
        requires
            s < 4,
        ensures
            r == Range::decode(s),
    {
        match s {
            0b00 => Range::G2,
            0b01 => Range::G4,
            0b10 => Range::G8,
            _ => Range::G16,
        }
    }
}

/// Power and resolution mode.
#[derive(Debug, Clone, Copy, PartialEq, Eq)]
pub enum Mode {
    /// 12-bit samples.
    HighResolution,
    /// 10-bit samples.
    Normal,
    /// 8-bit samples.
    LowPower,
}

/// Number of unused low bits of a 16-bit output word in `mode`.
pub open spec fn shift_of(mode: Mode) -> u32 {
    match mode {
        Mode::HighResolution => 4,
        Mode::Normal => 6,
        Mode::LowPower => 8,
    }
}

/// Acceleration of one count of the shifted sample, in units of 10^-5
/// standard gravity.
pub open spec fn g_weight(mode: Mode, range: Range) -> int {
    match mode {
        Mode::HighResolution => match range {
            Range::G2 => 98,
            Range::G4 => 195,
            Range::G8 => 390,
            Range::G16 => 1172,
        },
        Mode::Normal => match range {
            Range::G2 => 390,
            Range::G4 => 782,
            Range::G8 => 1563,
            Range::G16 => 4690,
        },
        Mode::LowPower => match range {
            Range::G2 => 1563,
            Range::G4 => 3126,
            Range::G8 => 6252,
            Range::G16 => 18758,
        },
    }
}

impl Mode {
    /// The shift that drops the unused low bits, and the weight of one
    /// count of the shifted sample in units of 10^-5 standard gravity.
    pub fn params(&self, range: Range) -> (r: (u32, i64))
        ensures
            r.0 == shift_of(*self),
            r.1 == g_weight(*self, range),
    {
        match *self {
            Mode::HighResolution => match range {
                Range::G2 => (4, 98),
                Range::G4 => (4, 195),
                Range::G8 => (4, 390),
                Range::G16 => (4, 1172),
            },
            Mode::Normal => match range {
                Range::G2 => (6, 390),
                Range::G4 => (6, 782),
                Range::G8 => (6, 1563),
                Range::G16 => (6, 4690),
            },
            Mode::LowPower => match range {
                Range::G2 => (8, 1563),
                Range::G4 => (8, 3126),
                Range::G8 => (8, 6252),
                Range::G16 => (8, 18758),
            },
        }
    }
}

} // verus!
