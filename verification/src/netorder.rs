//! Byte-order normalization for port and address fields.
//!
//! IP addresses and ports read from syscall arguments and socket structures
//! carry network byte order (big endian). The splice map and the emitter
//! work in host order; on the little-endian targets this agent runs on
//! (x86_64 / arm64), the conversion is a byte swap. Both map sides must use
//! one convention, so the conversion lives here, in one place, with the
//! involution law that makes a double conversion harmless.

use vstd::prelude::*;

verus! {

/// Byte swap of a 16-bit field: network order to host order and back.
pub open spec fn spec_swap16(x: u16) -> u16 {
    ((x >> 8) | (x << 8)) as u16
}

/// Byte swap of a 32-bit field: network order to host order and back.
pub open spec fn spec_swap32(x: u32) -> u32 {
    ((x >> 24) | ((x >> 8) & 0xff00) | ((x << 8) & 0xff0000) | (x << 24)) as u32
}

/// Converts a 16-bit port between network and host byte order.
pub fn swap16(x: u16) -> (r: u16)
    ensures
        r == spec_swap16(x),
{
    (x >> 8) | (x << 8)
}

/// Converts a 32-bit field between network and host byte order.
pub fn swap32(x: u32) -> (r: u32)
    ensures
        r == spec_swap32(x),
{
    (x >> 24) | ((x >> 8) & 0xff00) | ((x << 8) & 0xff0000) | (x << 24)
}

/// Applying the host-order conversion twice to a 16-bit port field yields
/// the original value.
pub proof fn lemma_swap16_involutive(x: u16)
    ensures
        spec_swap16(spec_swap16(x)) == x,
{
    assert(spec_swap16(spec_swap16(x)) == x) by (bit_vector);
}

/// Applying the host-order conversion twice to a 32-bit field yields the
/// original value.
pub proof fn lemma_swap32_involutive(x: u32)
    ensures
        spec_swap32(spec_swap32(x)) == x,
{
    assert(spec_swap32(spec_swap32(x)) == x) by (bit_vector);
}

} // verus!
