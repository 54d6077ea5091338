//! Fixed byte layout of the container header and little-endian field decoding.

use vstd::bytes::{spec_u64_from_le_bytes, u64_from_le_bytes};
use vstd::prelude::*;
use vstd::slice::slice_subrange;

verus! {

/// Size of the header in bytes.
pub const HEADER_SIZE: usize = 256;

/// Format identifier that every container starts with.
pub const MAGIC_NUMBER: u64 = 0x172841544D41;

/// Length of the recorded SHA-512 digest.
pub const HASH_LEN: usize = 64;

/// Length of the reserved nonce field.
pub const NONCE_LEN: usize = 12;

/// Length of the trailing padding of the header.
pub const RESERVED_LEN: usize = 147;

// Byte offsets of the header fields, packed in this order with no gaps:
// magic (8), version (1), sequence_id (8), source_offset (8), payload_size (8),
// payload_hash (64), iv_nonce (12), reserved (147).

/// Offset of the magic field.
pub const MAGIC_OFFSET: usize = 0;
/// Offset of the version byte.
pub const VERSION_OFFSET: usize = 8;
/// Offset of the sequence id.
pub const SEQUENCE_ID_OFFSET: usize = 9;
/// Offset of the source offset field.
pub const SOURCE_OFFSET_OFFSET: usize = 17;
/// Offset of the declared payload length.
pub const PAYLOAD_SIZE_OFFSET: usize = 25;
/// Offset of the recorded payload digest.
pub const PAYLOAD_HASH_OFFSET: usize = 33;
/// Offset of the nonce field.
pub const IV_NONCE_OFFSET: usize = 97;
/// Offset of the reserved padding.
pub const RESERVED_OFFSET: usize = 109;

/// The little-endian `u64` stored in the eight bytes of `bytes` starting at `off`.
pub open spec fn le_u64_at(bytes: Seq<u8>, off: int) -> u64 {
    spec_u64_from_le_bytes(bytes.subrange(off, off + 8))
}

/// Decodes the little-endian `u64` at byte offset `off` of `bytes`.
pub fn read_u64_le(bytes: &[u8], off: usize) -> (r: u64)
    requires
        off + 8 <= bytes@.len(),
    ensures
        r == le_u64_at(bytes@, off as int),
{
    let len = bytes.len();
    proof {
        assert(off + 8 <= len);
    }
    let field = slice_subrange(bytes, off, off + 8);
    u64_from_le_bytes(field)
}

} // verus!
