//! Big-endian field extraction from a byte buffer.

use vstd::prelude::*;

verus! {

/// The 16-bit big-endian value formed by two bytes.
pub open spec fn be16(hi: u8, lo: u8) -> u16 {
    (hi as int * 256 + lo as int) as u16
}

/// The 32-bit big-endian value formed by four bytes.
pub open spec fn be32(b0: u8, b1: u8, b2: u8, b3: u8) -> u32 {
    (b0 as int * 0x1000000 + b1 as int * 0x10000 + b2 as int * 0x100 + b3 as int) as u32
}

/// Reads the big-endian 16-bit field at `off`.
pub fn read_be16(data: &[u8], off: usize) -> (r: u16)
    requires
        off + 2 <= data@.len(),
    ensures
        r == be16(data@[off as int], data@[off as int + 1]),
{
    (data[off] as u16) * 256 + (data[off + 1] as u16)
}

/// Reads the big-endian 32-bit field at `off`.
pub fn read_be32(data: &[u8], off: usize) -> (r: u32)
    requires
        off + 4 <= data@.len(),
    ensures
        r == be32(data@[off as int], data@[off as int + 1], data@[off as int + 2], data@[off as int + 3]),
{
    (data[off] as u32) * 0x1000000 + (data[off + 1] as u32) * 0x10000 + (data[off + 2] as u32)
        * 0x100 + (data[off + 3] as u32)
}

} // verus!
