//! Errors reported by the drivers.
use vstd::prelude::*;

verus! {

/// What can go wrong while reading a measurement.
#[derive(Debug, Clone, Copy, PartialEq, Eq)]
pub enum Error<E> {
    /// The X axis sample is saturated: widen the configured range.
    RangeOverflowX,
    /// The Y axis sample is saturated: widen the configured range.
    RangeOverflowY,
    /// The Z axis sample is saturated: widen the configured range.
    RangeOverflowZ,
    /// The bus transport failed.
    BusError(E),
}

} // verus!
