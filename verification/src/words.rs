//! 32-bit words of the window system, read as signed or as unsigned.

use vstd::prelude::*;

verus! {

/// A signed 32-bit value read as unsigned: a negative value counts from
/// `2^32` down.
pub open spec fn spec_unsigned(v: i32) -> u32 {
    if v >= 0 {
        v as u32
    } else {
        (v + 0x1_0000_0000) as u32
    }
}

/// An unsigned 32-bit value read as signed: a value from `2^31` on counts
/// from `-2^31` up.
pub open spec fn spec_signed(v: u32) -> i32 {
    if v <= i32::MAX {
        v as i32
    } else {
        (v - 0x1_0000_0000) as i32
    }
}

/// A signed 32-bit value read as unsigned.
pub fn unsigned(v: i32) -> (r: u32)
    ensures
        r == spec_unsigned(v),
{
    if v >= 0 {
        v as u32
    } else {
        (v as i64 + 0x1_0000_0000) as u32
    }
}

/// An unsigned 32-bit value read as signed.
pub fn signed(v: u32) -> (r: i32)
    ensures
        r == spec_signed(v),
{
    if v <= i32::MAX as u32 {
        v as i32
    } else {
        (v as i64 - 0x1_0000_0000) as i32
    }
}

/// Reading a value as unsigned and then as signed gives the value back,
/// and the other way round.
pub proof fn lemma_signed_unsigned(v: i32, w: u32)
    ensures
        spec_signed(spec_unsigned(v)) == v,
        spec_unsigned(spec_signed(w)) == w,
{
}

} // verus!
