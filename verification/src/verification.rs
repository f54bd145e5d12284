//! The payload of an Ed25519 verification instruction: its offset table and
//! the comparison of what it carries with what a mint request expects.

use vstd::prelude::*;
use crate::bytes::{bytes_equal, le_u16, read_u16_le, window, window_in_bounds};
use crate::digest::{keccak256, keccak256_digest};
use crate::error::ErrorCode;

verus! {

/// Number of bytes in front of the offset table: the signature count and one
/// byte of padding.
pub const OFFSETS_START: usize = 2;

/// First byte after the offset table.
pub const OFFSETS_END: usize = 16;

/// Where the signature, the public key and the message lie inside the
/// payload. All seven fields are little-endian `u16` values, in this order.
#[derive(Clone, Copy, Debug, PartialEq, Eq, Structural)]
pub struct Ed25519SignatureOffsets {
    pub signature_offset: u16,
    pub signature_instruction_index: u16,
    pub public_key_offset: u16,
    pub public_key_instruction_index: u16,
    pub message_data_offset: u16,
    pub message_data_size: u16,
    pub message_instruction_index: u16,
}

/// A payload is well framed when it is long enough to hold the offset table
/// and asks for exactly one signature check.
pub open spec fn well_framed(data: Seq<u8>) -> bool {
    data.len() >= OFFSETS_END && data[0] == 1
}

/// The `k`-th field of the offset table.
pub open spec fn offset_field(data: Seq<u8>, k: int) -> int {
    le_u16(data[OFFSETS_START + 2 * k], data[OFFSETS_START + 2 * k + 1])
}

/// The offset table of a well-framed payload.
pub open spec fn offsets_of(data: Seq<u8>) -> Ed25519SignatureOffsets {
    Ed25519SignatureOffsets {
        signature_offset: offset_field(data, 0) as u16,
        signature_instruction_index: offset_field(data, 1) as u16,
        public_key_offset: offset_field(data, 2) as u16,
        public_key_instruction_index: offset_field(data, 3) as u16,
        message_data_offset: offset_field(data, 4) as u16,
        message_data_size: offset_field(data, 5) as u16,
        message_instruction_index: offset_field(data, 6) as u16,
    }
}

/// What the offset table parses to.
pub open spec fn parsed_offsets(data: Seq<u8>) -> Result<Ed25519SignatureOffsets, ErrorCode> {
    if well_framed(data) {
        Ok(offsets_of(data))
    } else {
        Err(ErrorCode::InvalidEd25519Instruction)
    }
}

/// The window of `len` bytes at `offset`, or the framing error when it would
/// reach past the end of the payload.
pub open spec fn field_at(data: Seq<u8>, offset: int, len: int) -> Result<Seq<u8>, ErrorCode> {
    if window_in_bounds(data.len() as int, offset, len) {
        Ok(data.subrange(offset, offset + len))
    } else {
        Err(ErrorCode::InvalidEd25519Instruction)
    }
}

/// The raw signature that a payload carries for the expected key and message,
/// or the first reason why it carries none. The checks run in a fixed order:
/// framing, public key window, public key, message window, message,
/// signature window.
pub open spec fn attested_signature(
    data: Seq<u8>,
    expected_public_key: Seq<u8>,
    message: Seq<u8>,
) -> Result<Seq<u8>, ErrorCode> {
    match parsed_offsets(data) {
        Err(e) => Err(e),
        Ok(offsets) => match field_at(data, offsets.public_key_offset as int, 32) {
            Err(e) => Err(e),
            Ok(key) => if key != expected_public_key {
                Err(ErrorCode::InvalidPublicKey)
            } else {
                match field_at(
                    data,
                    offsets.message_data_offset as int,
                    offsets.message_data_size as int,
                ) {
                    Err(e) => Err(e),
                    Ok(signed) => if signed != message {
                        Err(ErrorCode::InvalidMessage)
                    } else {
                        field_at(data, offsets.signature_offset as int, 64)
                    },
                }
            },
        },
    }
}

/// Whether a computed digest is the expected one.
pub open spec fn digest_verdict(digest: Seq<u8>, expected: Seq<u8>) -> Result<(), ErrorCode> {
    if digest == expected {
        Ok(())
    } else {
        Err(ErrorCode::InvalidSignature)
    }
}

/// The verdict on a payload: it must carry the expected key and message, and
/// a signature whose Keccak-256 digest is `signature_hash`.
pub open spec fn payload_verdict(
    data: Seq<u8>,
    expected_public_key: Seq<u8>,
    message: Seq<u8>,
    signature_hash: Seq<u8>,
) -> Result<(), ErrorCode> {
    match attested_signature(data, expected_public_key, message) {
        Err(e) => Err(e),
        Ok(signature) => digest_verdict(keccak256(signature), signature_hash),
    }
}

/// Parses the offset table of a payload.
pub fn parse_offsets(data: &[u8]) -> (out: Result<Ed25519SignatureOffsets, ErrorCode>)
    ensures
        out == parsed_offsets(data@),
{
    if data.len() < 2 {
        return Err(ErrorCode::InvalidEd25519Instruction);
    }
    if data[0] != 1 {
        return Err(ErrorCode::InvalidEd25519Instruction);
    }
    if data.len() < OFFSETS_END {
        return Err(ErrorCode::InvalidEd25519Instruction);
    }
    Ok(
        Ed25519SignatureOffsets {
            signature_offset: read_u16_le(data, 2),
            signature_instruction_index: read_u16_le(data, 4),
            public_key_offset: read_u16_le(data, 6),
            public_key_instruction_index: read_u16_le(data, 8),
            message_data_offset: read_u16_le(data, 10),
            message_data_size: read_u16_le(data, 12),
            message_instruction_index: read_u16_le(data, 14),
        },
    )
}

/// Bounds-checked read of `len` bytes at `offset`.
pub fn read_field(data: &[u8], offset: u16, len: usize) -> (out: Result<&[u8], ErrorCode>)
    ensures
        out is Ok <==> field_at(data@, offset as int, len as int) is Ok,
        out matches Ok(w) ==> field_at(data@, offset as int, len as int) == Ok::<
            Seq<u8>,
            ErrorCode,
        >(w@),
        out matches Err(e) ==> e == ErrorCode::InvalidEd25519Instruction,
{
    match window(data, offset as usize, len) {
        Some(w) => Ok(w),
        None => Err(ErrorCode::InvalidEd25519Instruction),
    }
}

/// Finds the raw signature that `data` carries for the expected key and
/// message.
pub fn locate_signature<'a>(data: &'a [u8], expected_public_key: &[u8], message: &[u8]) -> (out:
    Result<&'a [u8], ErrorCode>)
    ensures
        out is Ok <==> attested_signature(data@, expected_public_key@, message@) is Ok,
        out matches Ok(s) ==> attested_signature(data@, expected_public_key@, message@) == Ok::<
            Seq<u8>,
            ErrorCode,
        >(s@),
        out matches Err(e) ==> attested_signature(data@, expected_public_key@, message@) == Err::<
            Seq<u8>,
            ErrorCode,
        >(e),
{
    let offsets = match parse_offsets(data) {
        Ok(o) => o,
        Err(e) => { return Err(e); },
    };
    let key = match read_field(data, offsets.public_key_offset, 32) {
        Ok(k) => k,
        Err(e) => { return Err(e); },
    };
    if !bytes_equal(key, expected_public_key) {
        return Err(ErrorCode::InvalidPublicKey);
    }
    let signed = match read_field(
        data,
        offsets.message_data_offset,
        offsets.message_data_size as usize,
    ) {
        Ok(m) => m,
        Err(e) => { return Err(e); },
    };
    if !bytes_equal(signed, message) {
        return Err(ErrorCode::InvalidMessage);
    }
    read_field(data, offsets.signature_offset, 64)
}

/// Compares a computed digest with the expected one.
pub fn check_digest(digest: &[u8], expected: &[u8]) -> (out: Result<(), ErrorCode>)
    ensures
        out == digest_verdict(digest@, expected@),
{
    if bytes_equal(digest, expected) {
        Ok(())
    } else {
        Err(ErrorCode::InvalidSignature)
    }
}

/// Checks a payload against the expected key, message and signature digest.
pub fn check_payload(
    data: &[u8],
    expected_public_key: &[u8],
    message: &[u8],
    signature_hash: &[u8],
) -> (out: Result<(), ErrorCode>)
    ensures
        out == payload_verdict(data@, expected_public_key@, message@, signature_hash@),
{
    match locate_signature(data, expected_public_key, message) {
        Err(e) => Err(e),
        Ok(signature) => {
            let digest = keccak256_digest(signature);
            check_digest(digest.as_slice(), signature_hash)
        },
    }
}

} // verus!
