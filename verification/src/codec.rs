//! Decoding of the instruction payload: a fixed-width little-endian
//! unsigned 64-bit integer, the transfer amount.

use vstd::prelude::*;

verus! {

/// The value of an 8-byte sequence read as a little-endian unsigned
/// 64-bit integer: byte 0 is the least significant.
pub open spec fn le_u64_of(s: Seq<u8>) -> int
    recommends
        s.len() == 8,
{
    s[0] + s[1] * 0x100 + s[2] * 0x1_0000 + s[3] * 0x100_0000 + s[4] * 0x1_0000_0000
        + s[5] * 0x100_0000_0000 + s[6] * 0x1_0000_0000_0000 + s[7] * 0x100_0000_0000_0000
}

/// Decode an exactly-8-byte payload as a little-endian unsigned 64-bit
/// integer. Zero and maximal values pass through unchanged: no range
/// validation beyond the width of the type.
pub fn decode_amount(payload: &[u8]) -> (amount: u64)
    requires
        payload@.len() == 8,
    ensures
        amount == le_u64_of(payload@),
{
    let b0 = *vstd::slice::slice_index_get(payload, 0) as u64;
    let b1 = *vstd::slice::slice_index_get(payload, 1) as u64;
    let b2 = *vstd::slice::slice_index_get(payload, 2) as u64;
    let b3 = *vstd::slice::slice_index_get(payload, 3) as u64;
    let b4 = *vstd::slice::slice_index_get(payload, 4) as u64;
    let b5 = *vstd::slice::slice_index_get(payload, 5) as u64;
    let b6 = *vstd::slice::slice_index_get(payload, 6) as u64;
    let b7 = *vstd::slice::slice_index_get(payload, 7) as u64;
    b0 + b1 * 0x100 + b2 * 0x1_0000 + b3 * 0x100_0000 + b4 * 0x1_0000_0000
        + b5 * 0x100_0000_0000 + b6 * 0x1_0000_0000_0000 + b7 * 0x100_0000_0000_0000
}

} // verus!
