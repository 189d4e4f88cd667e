//! Signed numbers read as unsigned ones.

use vstd::prelude::*;

verus! {

/// A signed number taken as the unsigned number of the same 64 bits.
pub open spec fn reinterpreted(number: i64) -> u64 {
    if number >= 0 {
        number as u64
    } else {
        (number + 0x1_0000_0000_0000_0000) as u64
    }
}

/// Takes a signed number as the unsigned number of the same 64 bits: a
/// number that is not negative stays what it is.
pub fn reinterpret(number: i64) -> (unsigned: u64)
    ensures
        unsigned == reinterpreted(number),
        number >= 0 ==> unsigned == number,
{
    if number >= 0 {
        number as u64
    } else {
        let below: u64 = (-(number + 1)) as u64;
        0xffff_ffff_ffff_ffff - below
    }
}

} // verus!
