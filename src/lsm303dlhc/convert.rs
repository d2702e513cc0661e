//! Conversion of LSM303DLHC output samples into physical units.
use vstd::prelude::*;

use super::accel::{g_weight, Mode};
use super::mag::{xy_gain, z_gain};
use super::{accel, mag};
use crate::bus::{low_first, low_first_words, word, word_value};
use crate::error::Error;
use crate::quantity::Quantity;

verus! {

/// Standard gravity, in units of 10^-5 metres per second squared.
pub const STANDARD_GRAVITY: i64 = 980665;

/// Denominator of a converted acceleration: 10^-5 for the mode weight
/// times 10^-5 for standard gravity.
pub const ACCEL_DEN: i64 = 10000000000;

/// Bound of the magnetometer's valid output: an axis at or above it, or
/// below its negation, is saturated.
pub const MAG_SATURATION: i16 = 2048;

/// Factor from gauss to the unit of the converted field.
pub const FIELD_SCALE: i64 = 100;

/// The divisor, a power of two, that drops the unused low bits of an
/// accelerometer output word in `mode`.
pub open spec fn resolution_divisor(mode: Mode) -> int {
    match mode {
        Mode::HighResolution => 16,
        Mode::Normal => 64,
        Mode::LowPower => 256,
    }
}

/// `q` is the acceleration, in metres per second squared, of the output
/// word `raw` in `mode` at range `range`.
pub open spec fn is_acceleration(q: Quantity, raw: i16, mode: Mode, range: accel::Range) -> bool {
    &&& q.num == (raw as int / resolution_divisor(mode)) * g_weight(mode, range) * STANDARD_GRAVITY
    &&& q.den == ACCEL_DEN
}

/// The magnetometer words of six bytes read from `OUT_X_H` on: the axes
/// are stored high byte first, in the order X, Z, Y; the result is in the
/// order X, Y, Z.
pub open spec fn mag_words(data: Seq<u8>) -> Seq<int> {
    seq![word_value(data[0], data[1]), word_value(data[4], data[5]), word_value(data[2], data[3])]
}

/// Whether a magnetometer axis sample is outside the valid output.
pub open spec fn mag_saturated(v: i16) -> bool {
    v >= MAG_SATURATION || v < -MAG_SATURATION
}

/// `q` is the field, in hundredths of a gauss, of the count `raw` on an
/// axis of gain `gain` counts per gauss.
pub open spec fn is_field(q: Quantity, raw: i16, gain: int) -> bool {
    &&& q.num == raw * FIELD_SCALE
    &&& q.den == gain
}

/// What converting the magnetometer sample `raw` at `range` yields. Only the
/// X and Y axes are checked for saturation, X first; the Z axis is never
/// reported.
pub open spec fn fields_outcome<E>(raw: [i16; 3], range: mag::Range, r: Result<[Quantity; 3], Error<E>>) -> bool {
    if mag_saturated(raw@[0]) {
        r == Err::<[Quantity; 3], Error<E>>(Error::RangeOverflowX)
    } else if mag_saturated(raw@[1]) {
        r == Err::<[Quantity; 3], Error<E>>(Error::RangeOverflowY)
    } else {
        &&& r is Ok
        &&& is_field(r->Ok_0@[0], raw@[0], xy_gain(range))
        &&& is_field(r->Ok_0@[1], raw@[1], xy_gain(range))
        &&& is_field(r->Ok_0@[2], raw@[2], z_gain(range))
    }
}

/// Assembles the accelerometer output words from the six bytes read from
/// `OUT_X_L` on: each axis low byte first, in the order X, Y, Z.
pub fn accel_sample(data: [u8; 6]) -> (r: [i16; 3])
    ensures
        r@.map_values(|v: i16| v as int) == low_first(data@),
{
    low_first_words(data)
}

fn acceleration(raw: i16, mode: Mode, range: accel::Range) -> (q: Quantity)
    ensures
        is_acceleration(q, raw, mode, range),
{
    let (shift, lsb) = mode.params(range);
    let s: i16 = raw >> shift;
    assert(4 <= shift < 16 ==> -2048 <= (raw >> shift) < 2048) by (bit_vector);
    proof {
        match mode {
            Mode::HighResolution => {
                assert((raw >> 4u32) as int == (raw as int) / 16) by (bit_vector);
            },
            Mode::Normal => {
                assert((raw >> 6u32) as int == (raw as int) / 64) by (bit_vector);
            },
            Mode::LowPower => {
                assert((raw >> 8u32) as int == (raw as int) / 256) by (bit_vector);
            },
        }
    }
    let v: i64 = s as i64;
    assert(-2048 * 18758 <= v * lsb <= 2048 * 18758) by (nonlinear_arith)
        requires
            -2048 <= v < 2048,
            0 < lsb <= 18758,
    ;
    assert(-2048 * 18758 * 980665 <= (v * lsb) * 980665 <= 2048 * 18758 * 980665)
        by (nonlinear_arith)
        requires
            -2048 * 18758 <= v * lsb <= 2048 * 18758,
    ;
    Quantity { num: v * lsb * STANDARD_GRAVITY, den: ACCEL_DEN }
}

/// Converts accelerometer output words into accelerations in metres per
/// second squared: drops the unused low bits of `mode`, then applies the
/// weight of `mode` and `range`. The accelerometer is not checked for
/// saturation.
pub fn accelerations(raw: [i16; 3], mode: Mode, range: accel::Range) -> (r: [Quantity; 3])
    ensures
        is_acceleration(r@[0], raw@[0], mode, range),
        is_acceleration(r@[1], raw@[1], mode, range),
        is_acceleration(r@[2], raw@[2], mode, range),
{
    [acceleration(raw[0], mode, range), acceleration(raw[1], mode, range), acceleration(raw[2], mode, range)]
}

/// Assembles the magnetometer axis samples, in the order X, Y, Z, from the
/// six bytes read from `OUT_X_H` on.
pub fn mag_sample(data: [u8; 6]) -> (r: [i16; 3])
    ensures
        r@.map_values(|v: i16| v as int) == mag_words(data@),
{
    let x = word(data[0], data[1]);
    let y = word(data[4], data[5]);
    let z = word(data[2], data[3]);
    let r = [x, y, z];
    assert(r@.map_values(|v: i16| v as int) =~= mag_words(data@));
    r
}

/// Converts a magnetometer sample into fields in hundredths of a gauss, or
/// reports the first saturated axis among X and Y.
pub fn fields<E>(raw: [i16; 3], range: mag::Range) -> (r: Result<[Quantity; 3], Error<E>>)
    ensures
        fields_outcome(raw, range, r),
{
    let x = raw[0];
    let y = raw[1];
    let z = raw[2];
    if x >= MAG_SATURATION || x < -MAG_SATURATION {
        return Err(Error::RangeOverflowX);
    }
    if y >= MAG_SATURATION || y < -MAG_SATURATION {
        return Err(Error::RangeOverflowY);
    }
    let (xy, zg) = range.params();
    Ok([
        Quantity { num: x as i64 * FIELD_SCALE, den: xy as i64 },
        Quantity { num: y as i64 * FIELD_SCALE, den: xy as i64 },
        Quantity { num: z as i64 * FIELD_SCALE, den: zg as i64 },
    ])
}

/// The temperature word of the high and low output bytes: a 12-bit signed
/// value, the low four bits of the 16-bit word being unused.
pub fn temp_sample(hi: u8, lo: u8) -> (r: i16)
    ensures
        r == word_value(hi, lo) / 16,
{
    let w = word(hi, lo);
    assert((w >> 4u32) as int == (w as int) / 16) by (bit_vector);
    w >> 4u32
}

/// The temperature, in degrees Celsius, of a temperature word: 20 degrees
/// plus one eighth of a degree per count.
pub fn temperature(raw: i16) -> (r: Quantity)
    ensures
        r.num == 160 + raw,
        r.den == 8,
{
    Quantity { num: 160 + raw as i64, den: 8 }
}

/// A magnetometer sample whose axes are all inside the valid output is
/// always converted.
pub proof fn lemma_unsaturated_converts<E>(raw: [i16; 3], range: mag::Range, r: Result<[Quantity; 3], Error<E>>)
    requires
        -MAG_SATURATION <= raw@[0] < MAG_SATURATION,
        -MAG_SATURATION <= raw@[1] < MAG_SATURATION,
        -MAG_SATURATION <= raw@[2] < MAG_SATURATION,
        fields_outcome(raw, range, r),
    ensures
        r is Ok,
{
}

/// A magnetometer sample at the threshold on the X axis reports the X axis
/// alone, whatever the other axes hold.
pub proof fn lemma_x_threshold_reported<E>(raw: [i16; 3], range: mag::Range, r: Result<[Quantity; 3], Error<E>>)
    requires
        raw@[0] == MAG_SATURATION,
        fields_outcome(raw, range, r),
    ensures
        r == Err::<[Quantity; 3], Error<E>>(Error::RangeOverflowX),
{
}

} // verus!
