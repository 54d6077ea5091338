//! Properties of container verification, stated over the spec-level verdict
//! that `verify_container` computes.

use crate::digest::sha512_of;
use crate::error::VerifyError;
use crate::header::{decode_header, encode_header, header_fault, HeaderModel};
use crate::layout::{le_u64_at, HEADER_SIZE, MAGIC_NUMBER, MAGIC_OFFSET};
use crate::verify::container_verdict;
use vstd::bytes::{lemma_auto_spec_u64_to_from_le_bytes, spec_u64_to_le_bytes};
use vstd::prelude::*;

verus! {

/// Decoding the bytes of a well-formed header, whatever follows them, gives
/// back that header.
pub proof fn lemma_decode_encode(h: HeaderModel, rest: Seq<u8>)
    requires
        h.wf(),
    ensures
        encode_header(h).len() == HEADER_SIZE,
        decode_header(encode_header(h) + rest) == h,
        (encode_header(h) + rest).subrange(HEADER_SIZE as int, HEADER_SIZE + rest.len()) == rest,
{
    lemma_auto_spec_u64_to_from_le_bytes();
    let m = spec_u64_to_le_bytes(h.magic);
    let q = spec_u64_to_le_bytes(h.sequence_id);
    let o = spec_u64_to_le_bytes(h.source_offset);
    let p = spec_u64_to_le_bytes(h.payload_size);
    let bytes = encode_header(h);
    let file = bytes + rest;
    assert(bytes.len() == HEADER_SIZE);
    assert(file.subrange(0, 8) =~= m);
    assert(file.subrange(9, 17) =~= q);
    assert(file.subrange(17, 25) =~= o);
    assert(file.subrange(25, 33) =~= p);
    assert(file.subrange(33, 97) =~= h.payload_hash);
    assert(file.subrange(97, 109) =~= h.iv_nonce);
    assert(file.subrange(109, 256) =~= h.reserved);
    assert(file.subrange(HEADER_SIZE as int, HEADER_SIZE + rest.len()) =~= rest);
}

/// A header that carries the format identifier, the payload's length and the
/// payload's digest, followed by exactly that payload, verifies.
pub proof fn lemma_round_trip(h: HeaderModel, payload: Seq<u8>)
    requires
        h.wf(),
        h.magic == MAGIC_NUMBER,
        h.payload_size == payload.len(),
        h.payload_hash == sha512_of(payload),
    ensures
        container_verdict(encode_header(h) + payload) == Ok::<(), VerifyError>(()),
{
    lemma_decode_encode(h, payload);
}

/// Flipping any bit of the magic field of a file whose magic is right makes
/// the file fail as `BadMagic`, whatever its payload holds.
pub proof fn lemma_magic_bit_flip(file: Seq<u8>, byte: int, bit: u8)
    requires
        file.len() >= HEADER_SIZE,
        le_u64_at(file, MAGIC_OFFSET as int) == MAGIC_NUMBER,
        0 <= byte < 8,
        bit < 8,
    ensures
        ({
            let flipped = file.update(byte, file[byte] ^ (1u8 << bit));
            &&& le_u64_at(flipped, MAGIC_OFFSET as int) != MAGIC_NUMBER
            &&& container_verdict(flipped) == Err::<(), VerifyError>(
                VerifyError::BadMagic { found: le_u64_at(flipped, MAGIC_OFFSET as int) },
            )
        }),
{
    lemma_auto_spec_u64_to_from_le_bytes();
    let x = file[byte];
    let y = x ^ (1u8 << bit);
    assert(y != x) by (bit_vector)
        requires
            bit < 8,
            y == x ^ (1u8 << bit),
    ;
    let flipped = file.update(byte, y);
    let s = file.subrange(0, 8);
    let t = flipped.subrange(0, 8);
    assert(s[byte] != t[byte]);
    if le_u64_at(flipped, 0) == le_u64_at(file, 0) {
        assert(spec_u64_to_le_bytes(le_u64_at(flipped, 0)) == t);
        assert(spec_u64_to_le_bytes(le_u64_at(file, 0)) == s);
    }
}

/// When the declared payload length differs from the bytes present, the file
/// fails as `SizeMismatch`, whatever digest those bytes have.
pub proof fn lemma_size_checked_first(file: Seq<u8>)
    requires
        header_fault(file) is None,
        decode_header(file).payload_size != file.len() - HEADER_SIZE,
    ensures
        container_verdict(file) == Err::<(), VerifyError>(
            VerifyError::SizeMismatch {
                declared: decode_header(file).payload_size,
                actual: (file.len() - HEADER_SIZE) as u64,
            },
        ),
{
}

/// Changing one byte of a payload whose length and digest a header records
/// makes the file fail as `DigestMismatch`, wherever the change gives the
/// payload another digest.
pub proof fn lemma_payload_byte_change(h: HeaderModel, payload: Seq<u8>, i: int, b: u8)
    requires
        h.wf(),
        h.magic == MAGIC_NUMBER,
        h.payload_size == payload.len(),
        h.payload_hash == sha512_of(payload),
        0 <= i < payload.len(),
        b != payload[i],
        sha512_of(payload.update(i, b)) != sha512_of(payload),
    ensures
        container_verdict(encode_header(h) + payload.update(i, b)) == Err::<(), VerifyError>(
            VerifyError::DigestMismatch,
        ),
{
    lemma_decode_encode(h, payload.update(i, b));
}

/// A file shorter than a header fails as `TruncatedHeader`, never as a header.
pub proof fn lemma_short_file(file: Seq<u8>)
    requires
        file.len() < HEADER_SIZE,
    ensures
        container_verdict(file) == Err::<(), VerifyError>(
            VerifyError::TruncatedHeader { available: file.len() as usize },
        ),
{
}

} // verus!
