//! Reading the instructions sysvar: the serialized instructions of the
//! running transaction, followed by the index of the one being executed.
//!
//! The functions here take the data of the sysvar account. Whoever hands it
//! over has made sure that it comes from the account at the sysvar's address.

use vstd::prelude::*;
use anchor_lang::solana_program::sysvar::instructions::{load_current_index, load_instruction_at};
use crate::bytes::le_u16;
use crate::error::ErrorCode;

verus! {

/// The little-endian `u16` stored at `data[at]`, `data[at + 1]`.
pub open spec fn u16_at(data: Seq<u8>, at: int) -> int {
    le_u16(data[at], data[at + 1])
}

/// The data of the instruction at `index` inside serialized sysvar data.
///
/// The data starts with the number of instructions and one offset for each
/// of them, all `u16`. At its offset an instruction holds the number of its
/// accounts, 33 bytes for each account, the 32 bytes of its program id, the
/// length of its data, and its data. There is `None` where the index is not
/// below the number of instructions, or where one of these parts would reach
/// past the end.
pub open spec fn instruction_data_at(index: int, sysvar_data: Seq<u8>) -> Option<Seq<u8>> {
    if index < 0 || sysvar_data.len() < 2 || index >= u16_at(sysvar_data, 0) || sysvar_data.len()
        < 2 * index + 4 {
        None
    } else {
        let start = u16_at(sysvar_data, 2 * index + 2);
        if sysvar_data.len() < start + 2 {
            None
        } else {
            let program_id = start + 2 + 33 * u16_at(sysvar_data, start);
            if sysvar_data.len() < program_id + 34 {
                None
            } else {
                let from = program_id + 34;
                let len = u16_at(sysvar_data, program_id + 32);
                if sysvar_data.len() < from + len {
                    None
                } else {
                    Some(sysvar_data.subrange(from, from + len))
                }
            }
        }
    }
}

/// The index stored in the last two bytes of the sysvar data.
pub open spec fn stored_index(sysvar_data: Seq<u8>) -> int
    recommends
        sysvar_data.len() >= 2,
{
    le_u16(sysvar_data[sysvar_data.len() - 2], sysvar_data[sysvar_data.len() - 1])
}

/// The payload of the instruction that runs just before the current one.
/// There is none when the data is too short to hold an index, when the
/// current instruction is the first, or when nothing decodes at that place.
pub open spec fn preceding_payload(sysvar_data: Seq<u8>) -> Result<Seq<u8>, ErrorCode> {
    if sysvar_data.len() < 2 || stored_index(sysvar_data) == 0 {
        Err(ErrorCode::MissingEd25519Instruction)
    } else {
        match instruction_data_at(stored_index(sysvar_data) - 1, sysvar_data) {
            Some(payload) => Ok(payload),
            None => Err(ErrorCode::MissingEd25519Instruction),
        }
    }
}

/// Calls `solana_program::sysvar::instructions::load_current_index`. Trusted:
/// it returns the little-endian `u16` held in the last two bytes of the data.
/// It indexes those two bytes without a check, hence the length demanded.
#[verifier::external_body]
#[allow(deprecated)]
pub(crate) fn current_index(sysvar_data: &[u8]) -> (index: u16)
    requires
        sysvar_data@.len() >= 2,
    ensures
        index as int == stored_index(sysvar_data@),
{
    load_current_index(sysvar_data)
}

/// Calls `solana_program::sysvar::instructions::load_instruction_at` and
/// keeps the data of the instruction it decodes. Trusted: the decoder reads
/// the count, the offset of the instruction, the number of its accounts,
/// 33 bytes for each account, the program id, the length and the data, each
/// with a check against the end of the bytes, and reports an error, here
/// `None`, where a check fails or the index is not below the count.
#[verifier::external_body]
#[allow(deprecated)]
pub(crate) fn instruction_data(index: usize, sysvar_data: &[u8]) -> (out: Option<Vec<u8>>)
    ensures
        out is Some <==> instruction_data_at(index as int, sysvar_data@) is Some,
        out matches Some(d) ==> instruction_data_at(index as int, sysvar_data@) == Some(d@),
{
    load_instruction_at(index, sysvar_data).ok().map(|instruction| instruction.data)
}

/// Loads the payload of the instruction that precedes the current one.
pub fn load_preceding_payload(sysvar_data: &[u8]) -> (out: Result<Vec<u8>, ErrorCode>)
    ensures
        out is Ok <==> preceding_payload(sysvar_data@) is Ok,
        out matches Ok(d) ==> preceding_payload(sysvar_data@) == Ok::<Seq<u8>, ErrorCode>(d@),
        out matches Err(e) ==> e == ErrorCode::MissingEd25519Instruction,
{
    if sysvar_data.len() < 2 {
        return Err(ErrorCode::MissingEd25519Instruction);
    }
    let index = current_index(sysvar_data);
    if index == 0 {
        return Err(ErrorCode::MissingEd25519Instruction);
    }
    match instruction_data((index - 1) as usize, sysvar_data) {
        Some(payload) => Ok(payload),
        None => Err(ErrorCode::MissingEd25519Instruction),
    }
}

} // verus!
