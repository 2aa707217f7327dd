//! Fixed-width little-endian fields of protocol records.

use vstd::prelude::*;

verus! {

/// The unsigned 16-bit field at `off`, least significant byte first.
pub open spec fn u16_at(s: Seq<u8>, off: int) -> int {
    s[off] as int + 256 * (s[off + 1] as int)
}

/// The unsigned 32-bit field at `off`, least significant byte first.
pub open spec fn u32_at(s: Seq<u8>, off: int) -> int {
    s[off] as int + 256 * (s[off + 1] as int) + 65536 * (s[off + 2] as int) + 16777216 * (
    s[off + 3] as int)
}

pub(crate) fn read_u16(buf: &[u8], off: usize) -> (r: u16)
    requires
        off + 2 <= buf@.len(),
    ensures
        r as int == u16_at(buf@, off as int),
{
    buf[off] as u16 + (buf[off + 1] as u16) * 256
}

pub(crate) fn read_u32(buf: &[u8], off: usize) -> (r: u32)
    requires
        off + 4 <= buf@.len(),
    ensures
        r as int == u32_at(buf@, off as int),
{
    buf[off] as u32 + (buf[off + 1] as u32) * 256 + (buf[off + 2] as u32) * 65536 + (buf[off
        + 3] as u32) * 16777216
}

} // verus!
