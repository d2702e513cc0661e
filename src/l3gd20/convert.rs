//! Conversion of L3GD20 output samples into physical units.
use vstd::prelude::*;

use super::gyro::{dps_weight, Range};
use crate::bus::{low_first, low_first_words};
use crate::error::Error;
use crate::quantity::Quantity;

verus! {

/// Radians per degree, in units of 10^-9.
pub const RAD_PER_DEG: i64 = 17453293;

/// Denominator of a converted rate: 10^-5 for the range weight times 10^-9
/// for the radians factor.
pub const RATE_DEN: i64 = 100000000000000;

/// Magnitude at which an axis counts as saturated, a few counts inside the
/// extreme of the 16-bit output.
pub const SATURATION: i16 = 32760;

/// Whether an axis sample is at or beyond the saturation threshold.
pub open spec fn saturated(v: i16) -> bool {
    v >= SATURATION || v <= -SATURATION
}

/// `q` is the angular rate, in radians per second, of the raw count `raw`
/// at full-scale range `range`.
pub open spec fn is_rate(q: Quantity, raw: i16, range: Range) -> bool {
    &&& q.num == raw * dps_weight(range) * RAD_PER_DEG
    &&& q.den == RATE_DEN
}

/// What converting `raw` at `range` yields. Only the X and Y axes are
/// checked for saturation, X first; the Z axis is never reported.
pub open spec fn rates_outcome<E>(raw: [i16; 3], range: Range, r: Result<[Quantity; 3], Error<E>>) -> bool {
    if saturated(raw@[0]) {
        r == Err::<[Quantity; 3], Error<E>>(Error::RangeOverflowX)
    } else if saturated(raw@[1]) {
        r == Err::<[Quantity; 3], Error<E>>(Error::RangeOverflowY)
    } else {
        &&& r is Ok
        &&& is_rate(r->Ok_0@[0], raw@[0], range)
        &&& is_rate(r->Ok_0@[1], raw@[1], range)
        &&& is_rate(r->Ok_0@[2], raw@[2], range)
    }
}

/// Assembles the axis samples from the six output bytes read from
/// `OUT_X_L` on: each axis low byte first, in the order X, Y, Z.
pub fn gyro_sample(data: [u8; 6]) -> (r: [i16; 3])
    ensures
        r@.map_values(|v: i16| v as int) == low_first(data@),
{
    low_first_words(data)
}

fn rate(raw: i16, w: i64) -> (q: Quantity)
    requires
        0 < w <= 7000,
    ensures
        q.num == raw * w * RAD_PER_DEG,
        q.den == RATE_DEN,
{
    let r: i64 = raw as i64;
    assert(-32768 * 7000 <= r * w <= 32768 * 7000) by (nonlinear_arith)
        requires
            -32768 <= r <= 32767,
            0 < w <= 7000,
    ;
    assert(-32768 * 7000 * 17453293 <= (r * w) * 17453293 <= 32768 * 7000 * 17453293)
        by (nonlinear_arith)
        requires
            -32768 * 7000 <= r * w <= 32768 * 7000,
    ;
    Quantity { num: r * w * RAD_PER_DEG, den: RATE_DEN }
}

/// Converts a raw sample into angular rates in radians per second, or
/// reports the first saturated axis among X and Y.
pub fn gyro_rates<E>(raw: [i16; 3], range: Range) -> (r: Result<[Quantity; 3], Error<E>>)
    ensures
        rates_outcome(raw, range, r),
{
    let x = raw[0];
    let y = raw[1];
    let z = raw[2];
    if x >= SATURATION || x <= -SATURATION {
        return Err(Error::RangeOverflowX);
    }
    if y >= SATURATION || y <= -SATURATION {
        return Err(Error::RangeOverflowY);
    }
    let w = range.params();
    Ok([rate(x, w), rate(y, w), rate(z, w)])
}

/// The temperature, in degrees Celsius, of a raw temperature byte.
pub fn temperature(raw: i8) -> (r: Quantity)
    ensures
        r.num == raw,
        r.den == 1,
{
    Quantity { num: raw as i64, den: 1 }
}

/// A sample whose X and Y axes are inside the saturation threshold is
/// always converted.
pub proof fn lemma_unsaturated_converts<E>(raw: [i16; 3], range: Range, r: Result<[Quantity; 3], Error<E>>)
    requires
        -SATURATION < raw@[0] < SATURATION,
        -SATURATION < raw@[1] < SATURATION,
        -SATURATION < raw@[2] < SATURATION,
        rates_outcome(raw, range, r),
    ensures
        r is Ok,
{
}

/// A sample at the threshold on the X axis reports the X axis alone,
/// whatever the other axes hold.
pub proof fn lemma_x_threshold_reported<E>(raw: [i16; 3], range: Range, r: Result<[Quantity; 3], Error<E>>)
    requires
        raw@[0] == SATURATION || raw@[0] == -SATURATION,
        rates_outcome(raw, range, r),
    ensures
        r == Err::<[Quantity; 3], Error<E>>(Error::RangeOverflowX),
{
}

} // verus!
