//! Fixed-width integers as they lie on the wire.

use byteorder::{ByteOrder, LittleEndian};
use vstd::prelude::*;

verus! {

/// The 16-bit value whose low byte is `s[at]` and whose high byte is `s[at + 1]`.
pub open spec fn le16(s: Seq<u8>, at: int) -> int
    recommends
        0 <= at,
        at + 2 <= s.len(),
{
    s[at] as int + 256 * (s[at + 1] as int)
}

/// The 16-bit value whose high byte is `s[at]` and whose low byte is `s[at + 1]`.
pub open spec fn be16(s: Seq<u8>, at: int) -> int
    recommends
        0 <= at,
        at + 2 <= s.len(),
{
    256 * (s[at] as int) + s[at + 1] as int
}

/// Calls `LittleEndian::read_u16` of `byteorder`, which reads the first two
/// bytes of `buf` with `u16::from_le_bytes` and panics on a shorter buffer.
/// Trusted: the result is the first byte plus 256 times the second.
#[verifier::external_body]
pub(crate) fn read_u16_le(buf: &[u8]) -> (value: u16)
    requires
        buf@.len() >= 2,
    ensures
        value as int == le16(buf@, 0),
{
    LittleEndian::read_u16(buf)
}

} // verus!
