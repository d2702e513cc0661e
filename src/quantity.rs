//! Exact physical values.
use vstd::prelude::*;

verus! {

/// The physical value `num / den`, with `den > 0`.
#[derive(Debug, Clone, Copy, PartialEq, Eq)]
pub struct Quantity {
    pub num: i64,
    pub den: i64,
}

} // verus!
