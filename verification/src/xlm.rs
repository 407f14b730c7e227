//! Conversion between whole lumens and stroops.

use vstd::prelude::*;

verus! {

/// Stroops per lumen.
pub const ONE_XLM: i128 = 10_000_000;

/// Converts a number of whole lumens into stroops.
pub fn to_stroops(num: u64) -> (r: i128)
    ensures
        r == num * ONE_XLM,
{
    (num as i128) * ONE_XLM
}

} // verus!
