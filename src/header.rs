//! The decoded header record and its decoder.

use crate::error::VerifyError;
use crate::layout::{
    le_u64_at, read_u64_le, HASH_LEN, HEADER_SIZE, IV_NONCE_OFFSET, MAGIC_NUMBER, MAGIC_OFFSET,
    NONCE_LEN, PAYLOAD_HASH_OFFSET, PAYLOAD_SIZE_OFFSET, RESERVED_LEN, RESERVED_OFFSET,
    SEQUENCE_ID_OFFSET, SOURCE_OFFSET_OFFSET, VERSION_OFFSET,
};
use vstd::bytes::spec_u64_to_le_bytes;
use vstd::prelude::*;
use vstd::slice::{slice_subrange, slice_to_vec};

verus! {

/// Mathematical model of a header: its fields as plain values.
pub struct HeaderModel {
    pub magic: u64,
    pub version: u8,
    pub sequence_id: u64,
    pub source_offset: u64,
    pub payload_size: u64,
    pub payload_hash: Seq<u8>,
    pub iv_nonce: Seq<u8>,
    pub reserved: Seq<u8>,
}

impl HeaderModel {
    /// The byte-sequence fields have their fixed lengths.
    pub open spec fn wf(self) -> bool {
        &&& self.payload_hash.len() == HASH_LEN
        &&& self.iv_nonce.len() == NONCE_LEN
        &&& self.reserved.len() == RESERVED_LEN
    }
}

/// The header fields laid out in the first `HEADER_SIZE` bytes of `bytes`.
pub open spec fn decode_header(bytes: Seq<u8>) -> HeaderModel {
    HeaderModel {
        magic: le_u64_at(bytes, MAGIC_OFFSET as int),
        version: bytes[VERSION_OFFSET as int],
        sequence_id: le_u64_at(bytes, SEQUENCE_ID_OFFSET as int),
        source_offset: le_u64_at(bytes, SOURCE_OFFSET_OFFSET as int),
        payload_size: le_u64_at(bytes, PAYLOAD_SIZE_OFFSET as int),
        payload_hash: bytes.subrange(PAYLOAD_HASH_OFFSET as int, IV_NONCE_OFFSET as int),
        iv_nonce: bytes.subrange(IV_NONCE_OFFSET as int, RESERVED_OFFSET as int),
        reserved: bytes.subrange(RESERVED_OFFSET as int, HEADER_SIZE as int),
    }
}

/// The on-disk bytes of a header: each field in order, integers little-endian.
pub open spec fn encode_header(h: HeaderModel) -> Seq<u8> {
    spec_u64_to_le_bytes(h.magic) + seq![h.version] + spec_u64_to_le_bytes(h.sequence_id)
        + spec_u64_to_le_bytes(h.source_offset) + spec_u64_to_le_bytes(h.payload_size)
        + h.payload_hash + h.iv_nonce + h.reserved
}

/// What is wrong with `bytes` as the start of a container, if anything:
/// too short for a header, or a magic field other than the format identifier.
pub open spec fn header_fault(bytes: Seq<u8>) -> Option<VerifyError> {
    if bytes.len() < HEADER_SIZE {
        Some(VerifyError::TruncatedHeader { available: bytes.len() as usize })
    } else if le_u64_at(bytes, MAGIC_OFFSET as int) != MAGIC_NUMBER {
        Some(VerifyError::BadMagic { found: le_u64_at(bytes, MAGIC_OFFSET as int) })
    } else {
        None
    }
}

/// A decoded container header.
#[derive(Debug)]
pub struct AtmaHeader {
    pub magic: u64,
    pub version: u8,
    pub sequence_id: u64,
    pub source_offset: u64,
    pub payload_size: u64,
    pub payload_hash: Vec<u8>,
    pub iv_nonce: Vec<u8>,
    pub reserved: Vec<u8>,
}

impl View for AtmaHeader {
    type V = HeaderModel;

    open spec fn view(&self) -> HeaderModel {
        HeaderModel {
            magic: self.magic,
            version: self.version,
            sequence_id: self.sequence_id,
            source_offset: self.source_offset,
            payload_size: self.payload_size,
            payload_hash: self.payload_hash@,
            iv_nonce: self.iv_nonce@,
            reserved: self.reserved@,
        }
    }
}

impl AtmaHeader {
    /// Decodes the header held in the first `HEADER_SIZE` bytes of `bytes`;
    /// later bytes are not read. Fails when fewer bytes are given, or when the
    /// magic field does not hold `MAGIC_NUMBER`. No other field is checked.
    pub fn from_bytes(bytes: &[u8]) -> (r: Result<AtmaHeader, VerifyError>)
        ensures
            match r {
                Ok(h) => header_fault(bytes@) is None && h@ == decode_header(bytes@) && h@.wf(),
                Err(e) => header_fault(bytes@) == Some(e),
            },
    {
        let len = bytes.len();
        if len < HEADER_SIZE {
            return Err(VerifyError::TruncatedHeader { available: len });
        }
        let magic = read_u64_le(bytes, MAGIC_OFFSET);
        if magic != MAGIC_NUMBER {
            return Err(VerifyError::BadMagic { found: magic });
        }
        let header = AtmaHeader {
            magic,
            version: bytes[VERSION_OFFSET],
            sequence_id: read_u64_le(bytes, SEQUENCE_ID_OFFSET),
            source_offset: read_u64_le(bytes, SOURCE_OFFSET_OFFSET),
            payload_size: read_u64_le(bytes, PAYLOAD_SIZE_OFFSET),
            payload_hash: slice_to_vec(slice_subrange(bytes, PAYLOAD_HASH_OFFSET, IV_NONCE_OFFSET)),
            iv_nonce: slice_to_vec(slice_subrange(bytes, IV_NONCE_OFFSET, RESERVED_OFFSET)),
            reserved: slice_to_vec(slice_subrange(bytes, RESERVED_OFFSET, HEADER_SIZE)),
        };
        Ok(header)
    }
}

} // verus!
