//! Configuration image of the LSM303DLHC control registers.
use vstd::prelude::*;

use super::accel::{self, Mode};
use super::mag;

verus! {

/// Values of the control registers: six of the accelerometer, then the
/// magnetometer's control registers A and B and its mode register.
#[derive(Debug, Clone, Copy, PartialEq, Eq)]
pub struct Registers {
    pub ctrl1: u8,
    pub ctrl2: u8,
    pub ctrl3: u8,
    pub ctrl4: u8,
    pub ctrl5: u8,
    pub ctrl6: u8,
    pub cra: u8,
    pub crb: u8,
    pub mr: u8,
}

impl Registers {
    /// The power-on image: accelerometer powered down, high resolution at
    /// 2 g; magnetometer asleep at 1.3 gauss, temperature sensor enabled.
    pub open spec fn power_on() -> Registers {
        Registers {
            ctrl1: 0b00000000,
            ctrl2: 0b00000000,
            ctrl3: 0b00000000,
            ctrl4: 0b10001000,
            ctrl5: 0b01000000,
            ctrl6: 0b00000000,
            cra: 0b10000000,
            crb: 0b00100000,
            mr: 0b00000011,
        }
    }

    /// Adds the axes whose bits are set in `axis` to the enabled ones.
    pub open spec fn with_axis(self, axis: u8) -> Registers {
        Registers { ctrl1: self.ctrl1 | (axis & 0x07u8), ..self }
    }

    pub open spec fn with_lowpower(self) -> Registers {
        Registers { ctrl1: self.ctrl1 | 0x08u8, ..self }
    }

    pub open spec fn with_normal(self) -> Registers {
        Registers { ctrl1: self.ctrl1 & !0x08u8, ctrl4: self.ctrl4 & !0x08u8, ..self }
    }

    pub open spec fn with_highres(self) -> Registers {
        Registers { ctrl1: self.ctrl1 & !0x08u8, ctrl4: self.ctrl4 | 0x08u8, ..self }
    }

    /// Sets the accelerometer rate, if given; then sets the magnetometer
    /// rate and continuous conversion, if given.
    pub open spec fn with_datarate(self, accel: Option<accel::DataRate>, mag: Option<mag::DataRate>) -> Registers {
        let a = match accel {
            Some(rate) => Registers { ctrl1: (self.ctrl1 & !0xF0u8) | (rate.value() << 4u8), ..self },
            None => self,
        };
        match mag {
            Some(rate) => Registers {
                cra: (a.cra & !0x1Cu8) | (rate.value() << 2u8),
                mr: a.mr & 0xFCu8,
                ..a
            },
            None => a,
        }
    }

    /// Sets the accelerometer range, if given, and the magnetometer range,
    /// if given.
    pub open spec fn with_scale(self, accel: Option<accel::Scale>, mag: Option<mag::Scale>) -> Registers {
        let a = match accel {
            Some(s) => Registers { ctrl4: (self.ctrl4 & !0x30u8) | (s.value() << 4u8), ..self },
            None => self,
        };
        match mag {
            Some(s) => Registers { crb: (a.crb & !0xE0u8) | (s.value() << 5u8), ..a },
            None => a,
        }
    }

    pub open spec fn with_temperature(self, on: bool) -> Registers {
        if on {
            Registers { cra: self.cra | 0x80u8, ..self }
        } else {
            Registers { cra: self.cra & 0x7Fu8, ..self }
        }
    }

    /// The accelerometer mode: the low power bit of control register 1
    /// wins; else the high resolution bit of control register 4 decides.
    pub open spec fn mode(self) -> Mode {
        if (self.ctrl1 >> 3u8) & 1u8 != 0 {
            Mode::LowPower
        } else if (self.ctrl4 >> 3u8) & 1u8 != 0 {
            Mode::HighResolution
        } else {
            Mode::Normal
        }
    }

    pub open spec fn accel_range(self) -> accel::Range {
        accel::Range::decode((self.ctrl4 >> 4u8) & 0x03u8)
    }

    /// The magnetometer gain field code, which must be nonzero.
    pub open spec fn gain_code(self) -> u8 {
        (self.crb >> 5u8) & 0x07u8
    }

    pub open spec fn mag_range(self) -> mag::Range {
        mag::Range::decode(self.gain_code())
    }

    /// Accelerometer mode and range, and magnetometer range.
    pub open spec fn params(self) -> ((Mode, accel::Range), mag::Range) {
        ((self.mode(), self.accel_range()), self.mag_range())
    }
}

proof fn lemma_gain_code_set(crb: u8, v: u8)
    requires
        1 <= v < 8,
    ensures
        (((crb & !0xE0u8) | (v << 5u8)) >> 5u8) & 0x07u8 == v,
{
    assert(1 <= v < 8 ==> (((crb & !0xE0u8) | (v << 5u8)) >> 5u8) & 0x07u8 == v) by (bit_vector);
}

/// A control register image, built from the power-on image by the setters.
/// Its magnetometer gain code is never zero.
#[derive(Debug, Clone, Copy)]
pub struct Config {
    regs: Registers,
}

impl View for Config {
    type V = Registers;

    closed spec fn view(&self) -> Registers {
        self.regs
    }
}

impl Config {
    #[verifier::type_invariant]
    spec fn inv(self) -> bool {
        self.regs.gain_code() != 0
    }

    /// The power-on image.
    pub fn new() -> (r: Self)
        ensures
            r@ == Registers::power_on(),
            r@.params() == ((Mode::HighResolution, accel::Range::G2), mag::Range::Gauss1_3),
    {
        assert(((0b00100000u8 >> 5u8) & 0x07u8) == 1) by (bit_vector);
        assert(((0b10001000u8 >> 4u8) & 0x03u8) == 0) by (bit_vector);
        assert(((0b10001000u8 >> 3u8) & 1u8) == 1) by (bit_vector);
        assert(((0u8 >> 3u8) & 1u8) == 0) by (bit_vector);
        Config {
            regs: Registers {
                ctrl1: 0b00000000,
                ctrl2: 0b00000000,
                ctrl3: 0b00000000,
                ctrl4: 0b10001000,
                ctrl5: 0b01000000,
                ctrl6: 0b00000000,
                cra: 0b10000000,
                crb: 0b00100000,
                mr: 0b00000011,
            },
        }
    }

    /// The register values.
    pub fn registers(&self) -> (r: Registers)
        ensures
            r == self@,
            r.gain_code() != 0,
    {
        proof {
            use_type_invariant(self);
        }
        self.regs
    }

    /// Enables the accelerometer axes whose bits are set in `axis` (an or
    /// of `Axis` bits), keeping those already enabled.
    pub fn axis(self, axis: u8) -> (r: Self)
        ensures
            r@ == self@.with_axis(axis),
            r@.params() == self@.params(),
    {
        proof {
            use_type_invariant(&self);
        }
        let mut regs = self.regs;
        let c = regs.ctrl1;
        regs.ctrl1 = c | (axis & 0x07u8);
        assert((c | (axis & 0x07u8)) >> 3u8 & 1u8 == c >> 3u8 & 1u8) by (bit_vector);
        Config { regs }
    }

    /// Selects the low power mode.
    pub fn lowpower(self) -> (r: Self)
        ensures
            r@ == self@.with_lowpower(),
            r@.mode() == Mode::LowPower,
    {
        proof {
            use_type_invariant(&self);
        }
        let mut regs = self.regs;
        let c = regs.ctrl1;
        regs.ctrl1 = c | 0x08u8;
        assert((c | 0x08u8) >> 3u8 & 1u8 != 0) by (bit_vector);
        Config { regs }
    }

    /// Selects the normal mode.
    pub fn normal(self) -> (r: Self)
        ensures
            r@ == self@.with_normal(),
            r@.mode() == Mode::Normal,
    {
        proof {
            use_type_invariant(&self);
        }
        let mut regs = self.regs;
        let c1 = regs.ctrl1;
        let c4 = regs.ctrl4;
        regs.ctrl1 = c1 & !0x08u8;
        regs.ctrl4 = c4 & !0x08u8;
        assert((c1 & !0x08u8) >> 3u8 & 1u8 == 0) by (bit_vector);
        assert((c4 & !0x08u8) >> 3u8 & 1u8 == 0) by (bit_vector);
        Config { regs }
    }

    /// Selects the high resolution mode.
    pub fn highres(self) -> (r: Self)
        ensures
            r@ == self@.with_highres(),
            r@.mode() == Mode::HighResolution,
    {
        proof {
            use_type_invariant(&self);
        }
        let mut regs = self.regs;
        let c1 = regs.ctrl1;
        let c4 = regs.ctrl4;
        regs.ctrl1 = c1 & !0x08u8;
        regs.ctrl4 = c4 | 0x08u8;
        assert((c1 & !0x08u8) >> 3u8 & 1u8 == 0) by (bit_vector);
        assert((c4 | 0x08u8) >> 3u8 & 1u8 != 0) by (bit_vector);
        Config { regs }
    }

    /// Sets the accelerometer and magnetometer output data rates; `None`
    /// leaves a rate as it is. Setting a magnetometer rate also selects
    /// continuous conversion.
    pub fn datarate(self, accel: Option<accel::DataRate>, mag: Option<mag::DataRate>) -> (r: Self)
        ensures
            r@ == self@.with_datarate(accel, mag),
            r@.params() == self@.params(),
    {
        proof {
            use_type_invariant(&self);
        }
        let mut regs = self.regs;
        if let Some(accel) = accel {
            let c = regs.ctrl1;
            let v = accel.bits();
            regs.ctrl1 = (c & !0xF0u8) | (v << 4u8);
            assert(((c & !0xF0u8) | (v << 4u8)) >> 3u8 & 1u8 == c >> 3u8 & 1u8) by (bit_vector);
        }
        if let Some(mag) = mag {
            regs.cra = (regs.cra & !0x1Cu8) | (mag.bits() << 2u8);
            regs.mr = regs.mr & 0xFCu8;
        }
        Config { regs }
    }

    /// Sets the accelerometer and magnetometer full-scale ranges; `None`
    /// leaves a range as it is.
    pub fn scale(self, accel: Option<accel::Scale>, mag: Option<mag::Scale>) -> (r: Self)
        ensures
            r@ == self@.with_scale(accel, mag),
            accel matches Some(a) ==> r@.accel_range() == a,
            mag matches Some(m) ==> r@.mag_range() == m,
            r@.mode() == self@.mode(),
            accel is None ==> r@.accel_range() == self@.accel_range(),
            mag is None ==> r@.mag_range() == self@.mag_range(),
    {
        proof {
            use_type_invariant(&self);
            lemma_scale_round_trip(self@, accel, mag);
        }
        let mut regs = self.regs;
        if let Some(accel) = accel {
            let c = regs.ctrl4;
            let v = accel.bits();
            regs.ctrl4 = (c & !0x30u8) | (v << 4u8);
            assert(((c & !0x30u8) | (v << 4u8)) >> 3u8 & 1u8 == c >> 3u8 & 1u8) by (bit_vector);
        }
        if let Some(mag) = mag {
            regs.crb = (regs.crb & !0xE0u8) | (mag.bits() << 5u8);
            proof {
                lemma_gain_code_set(self@.crb, mag.value());
            }
        }
        Config { regs }
    }

    /// Enables or disables the temperature sensor.
    pub fn temperature(self, s: bool) -> (r: Self)
        ensures
            r@ == self@.with_temperature(s),
    {
        proof {
            use_type_invariant(&self);
        }
        let mut regs = self.regs;
        if s {
            regs.cra = regs.cra | 0x80u8;
        } else {
            regs.cra = regs.cra & 0x7Fu8;
        }
        Config { regs }
    }

    /// The accelerometer mode and range, and the magnetometer range, that
    /// the image selects.
    pub fn params(&self) -> (r: ((Mode, accel::Range), mag::Range))
        ensures
            r == self@.params(),
    {
        proof {
            use_type_invariant(self);
        }
        let c1 = self.regs.ctrl1;
        let c4 = self.regs.ctrl4;
        let crb = self.regs.crb;
        let mode = if (c1 >> 3u8) & 1u8 != 0 {
            Mode::LowPower
        } else if (c4 >> 3u8) & 1u8 != 0 {
            Mode::HighResolution
        } else {
            Mode::Normal
        };
        assert(((c4 >> 4u8) & 0x03u8) < 4) by (bit_vector);
        assert(((crb >> 5u8) & 0x07u8) < 8) by (bit_vector);
        let arange = accel::Range::from_bits((c4 >> 4u8) & 0x03u8);
        let mrange = mag::Range::from_bits((crb >> 5u8) & 0x07u8);
        ((mode, arange), mrange)
    }
}

impl Default for Config {
    fn default() -> (r: Self)
        ensures
            r@ == Registers::power_on(),
    {
        Config::new()
    }
}

/// Decoding the range fields of an image that ranges were written to gives
/// those ranges back.
pub proof fn lemma_scale_round_trip(regs: Registers, accel: Option<accel::Scale>, mag: Option<mag::Scale>)
    ensures
        accel matches Some(a) ==> regs.with_scale(accel, mag).accel_range() == a,
        mag matches Some(m) ==> regs.with_scale(accel, mag).mag_range() == m,
{
    let r = regs.with_scale(accel, mag);
    if let Some(a) = accel {
        let c = regs.ctrl4;
        let v = a.value();
        assert(v < 4);
        assert(v < 4 ==> (((c & !0x30u8) | (v << 4u8)) >> 4u8) & 0x03u8 == v) by (bit_vector);
        assert(r.ctrl4 == (c & !0x30u8) | (v << 4u8));
    }
    if let Some(m) = mag {
        let a = regs.with_scale(accel, None);
        lemma_gain_code_set(a.crb, m.value());
    }
}

/// Enabling axes commutes: the image after `a` then `b` is the image after
/// `b` then `a`.
pub proof fn lemma_axis_commutes(regs: Registers, a: u8, b: u8)
    ensures
        regs.with_axis(a).with_axis(b) == regs.with_axis(b).with_axis(a),
{
    let c = regs.ctrl1;
    assert(((c | (a & 0x07u8)) | (b & 0x07u8)) == ((c | (b & 0x07u8)) | (a & 0x07u8))) by (bit_vector);
}

/// Enabling the same axes twice gives the image that enabling them once
/// gives.
pub proof fn lemma_axis_idempotent(regs: Registers, a: u8)
    ensures
        regs.with_axis(a).with_axis(a) == regs.with_axis(a),
{
    let c = regs.ctrl1;
    assert(((c | (a & 0x07u8)) | (a & 0x07u8)) == (c | (a & 0x07u8))) by (bit_vector);
}

/// Writing the same ranges twice gives the image that writing them once
/// gives.
pub proof fn lemma_scale_idempotent(regs: Registers, accel: Option<accel::Scale>, mag: Option<mag::Scale>)
    ensures
        regs.with_scale(accel, mag).with_scale(accel, mag) == regs.with_scale(accel, mag),
{
    if let Some(a) = accel {
        let c = regs.ctrl4;
        let v = a.value();
        assert(((((c & !0x30u8) | (v << 4u8)) & !0x30u8) | (v << 4u8)) == ((c & !0x30u8) | (v
            << 4u8))) by (bit_vector);
    }
    if let Some(m) = mag {
        let c = regs.crb;
        let v = m.value();
        assert(((((c & !0xE0u8) | (v << 5u8)) & !0xE0u8) | (v << 5u8)) == ((c & !0xE0u8) | (v
            << 5u8))) by (bit_vector);
    }
}


/// Setters of different fields commute: the data rates, the ranges, the
/// temperature sensor and the axes touch disjoint bits.
pub proof fn lemma_setters_commute(
    regs: Registers,
    axis: u8,
    arate: Option<accel::DataRate>,
    mrate: Option<mag::DataRate>,
    ascale: Option<accel::Scale>,
    mscale: Option<mag::Scale>,
    on: bool,
)
    ensures
        regs.with_datarate(arate, mrate).with_scale(ascale, mscale) == regs.with_scale(ascale, mscale).with_datarate(arate, mrate),
        regs.with_datarate(arate, mrate).with_temperature(on) == regs.with_temperature(on).with_datarate(arate, mrate),
        regs.with_scale(ascale, mscale).with_temperature(on) == regs.with_temperature(on).with_scale(ascale, mscale),
        regs.with_axis(axis).with_datarate(arate, mrate) == regs.with_datarate(arate, mrate).with_axis(axis),
        regs.with_axis(axis).with_scale(ascale, mscale) == regs.with_scale(ascale, mscale).with_axis(axis),
{
    let c1 = regs.ctrl1;
    let cra = regs.cra;
    if let Some(r) = arate {
        let v = r.value();
        assert(v < 8);
        assert(v < 8 ==> ((((c1 | (axis & 0x07u8)) & !0xF0u8) | (v << 4u8)) == ((((c1 & !0xF0u8) | (v
            << 4u8))) | (axis & 0x07u8)))) by (bit_vector);
    }
    if let Some(m) = mrate {
        let v = m.value();
        assert(v < 8);
        assert(v < 8 ==> ((((cra & !0x1Cu8) | (v << 2u8)) | 0x80u8) == (((cra | 0x80u8) & !0x1Cu8) | (v
            << 2u8)))) by (bit_vector);
        assert(v < 8 ==> ((((cra & !0x1Cu8) | (v << 2u8)) & 0x7Fu8) == (((cra & 0x7Fu8) & !0x1Cu8) | (v
            << 2u8)))) by (bit_vector);
    }
}

} // verus!
