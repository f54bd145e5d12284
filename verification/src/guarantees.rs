//! What holds of every request, stated over the functions that define the
//! outcome of a request.

use vstd::prelude::*;
use crate::bytes::{
    le_bytes, lemma_le_bytes_injective, lemma_le_bytes_len, lemma_u64_fits, window_in_bounds,
};
use crate::error::ErrorCode;
use crate::constants::BASE_UNITS_PER_TOKEN;
use crate::instructions::mint_tokens::{
    authorization, canonical_message, locks_after, mint_result, scaled_order,
    verification_verdict, MintOrder, Proof,
};
use crate::mint_lock::{lemma_lock_address_injective, lock_address};
use crate::pubkey::Pubkey;
use crate::sysvar::preceding_payload;
use crate::verification::{attested_signature, field_at, offsets_of, payload_verdict, well_framed};

verus! {

/// A signature digest mints at most once. After a request has been granted,
/// no request that carries the same digest is granted again, whatever else it
/// holds and however many other locks have been claimed in between. Where
/// such a request passes the gates that stand before the lock (index, record,
/// minter, collateral), it fails as a conflict, whatever its quantity.
pub proof fn lemma_digest_mints_at_most_once(
    locks: Set<Seq<u8>>,
    keys: Seq<Pubkey>,
    instruction_sysvar: Seq<u8>,
    payer: Pubkey,
    proof: Proof,
    quantity: u64,
    later_locks: Set<Seq<u8>>,
    later_keys: Seq<Pubkey>,
    later_sysvar: Seq<u8>,
    later_payer: Pubkey,
    later_proof: Proof,
    later_quantity: u64,
)
    requires
        mint_result(locks, keys, instruction_sysvar, payer, proof, quantity) is Ok,
        locks_after(locks, keys, instruction_sysvar, payer, proof, quantity).subset_of(
            later_locks,
        ),
        later_proof.signature_hash@ == proof.signature_hash@,
    ensures
        mint_result(
            later_locks,
            later_keys,
            later_sysvar,
            later_payer,
            later_proof,
            later_quantity,
        ) is Err,
        authorization(later_keys, later_sysvar, later_payer, later_proof, later_quantity) is Ok
            ==> mint_result(
            later_locks,
            later_keys,
            later_sysvar,
            later_payer,
            later_proof,
            later_quantity,
        ) == Err::<MintOrder, ErrorCode>(ErrorCode::MintLockConflict),
        locks_after(
            later_locks,
            later_keys,
            later_sysvar,
            later_payer,
            later_proof,
            later_quantity,
        ) == later_locks,
{
    let address = lock_address(proof.signature_hash@);
    assert(locks_after(locks, keys, instruction_sysvar, payer, proof, quantity).contains(address));
    assert(later_locks.contains(address));
}

/// A granted request that is submitted again as it stands fails as a
/// conflict and claims nothing.
pub proof fn lemma_resubmission_conflicts(
    locks: Set<Seq<u8>>,
    keys: Seq<Pubkey>,
    instruction_sysvar: Seq<u8>,
    payer: Pubkey,
    proof: Proof,
    quantity: u64,
    later_locks: Set<Seq<u8>>,
)
    requires
        mint_result(locks, keys, instruction_sysvar, payer, proof, quantity) is Ok,
        locks_after(locks, keys, instruction_sysvar, payer, proof, quantity).subset_of(
            later_locks,
        ),
    ensures
        mint_result(later_locks, keys, instruction_sysvar, payer, proof, quantity) == Err::<MintOrder, ErrorCode>(ErrorCode::MintLockConflict),
        locks_after(later_locks, keys, instruction_sysvar, payer, proof, quantity) == later_locks,
{
    lemma_digest_mints_at_most_once(
        locks,
        keys,
        instruction_sysvar,
        payer,
        proof,
        quantity,
        later_locks,
        keys,
        instruction_sysvar,
        payer,
        proof,
        quantity,
    );
}

/// The signed message determines the minter, the collateral amount and the
/// timestamp: two messages are equal only when all three are.
pub proof fn lemma_message_binds_fields(
    minter: Seq<u8>,
    collateral_amount: u64,
    timestamp: u64,
    other_minter: Seq<u8>,
    other_collateral_amount: u64,
    other_timestamp: u64,
)
    requires
        minter.len() == 32,
        other_minter.len() == 32,
        canonical_message(minter, collateral_amount, timestamp) == canonical_message(
            other_minter,
            other_collateral_amount,
            other_timestamp,
        ),
    ensures
        minter == other_minter,
        collateral_amount == other_collateral_amount,
        timestamp == other_timestamp,
{
    let a = le_bytes(collateral_amount as nat, 8);
    let b = le_bytes(timestamp as nat, 8);
    let c = le_bytes(other_collateral_amount as nat, 8);
    let d = le_bytes(other_timestamp as nat, 8);
    lemma_le_bytes_len(collateral_amount as nat, 8);
    lemma_le_bytes_len(timestamp as nat, 8);
    lemma_le_bytes_len(other_collateral_amount as nat, 8);
    lemma_le_bytes_len(other_timestamp as nat, 8);
    let m = minter + a + b;
    let n = other_minter + c + d;
    assert(m == n);
    assert(m.subrange(0, 32) =~= minter);
    assert(n.subrange(0, 32) =~= other_minter);
    assert(m.subrange(32, 40) =~= a);
    assert(n.subrange(32, 40) =~= c);
    assert(m.subrange(40, 48) =~= b);
    assert(n.subrange(40, 48) =~= d);
    lemma_u64_fits(collateral_amount);
    lemma_u64_fits(timestamp);
    lemma_u64_fits(other_collateral_amount);
    lemma_u64_fits(other_timestamp);
    lemma_le_bytes_injective(collateral_amount as nat, other_collateral_amount as nat, 8);
    lemma_le_bytes_injective(timestamp as nat, other_timestamp as nat, 8);
}

/// A proof is bound to its minter. Where a verification passes for one proof,
/// it fails with a message mismatch for every proof that names another
/// minter, whatever signature digest that proof claims.
pub proof fn lemma_changed_minter_fails(
    instruction_sysvar: Seq<u8>,
    expected_public_key: Seq<u8>,
    signed: Proof,
    altered: Proof,
)
    requires
        verification_verdict(
            instruction_sysvar,
            expected_public_key,
            signed.message(),
            signed.signature_hash@,
        ) is Ok,
        altered.minter != signed.minter,
    ensures
        verification_verdict(
            instruction_sysvar,
            expected_public_key,
            altered.message(),
            altered.signature_hash@,
        ) == Err::<(), ErrorCode>(ErrorCode::InvalidMessage),
{
    if altered.message() == signed.message() {
        lemma_message_binds_fields(
            signed.minter@,
            signed.collateral_amount,
            signed.timestamp,
            altered.minter@,
            altered.collateral_amount,
            altered.timestamp,
        );
        assert(altered.minter.0 =~= signed.minter.0);
    }
}

/// No request is granted for more than its collateral, and a request for
/// more claims no lock. Where the request gets as far as the collateral
/// gate, the error is `InsufficientCollateral`.
pub proof fn lemma_collateral_bounds_quantity(
    locks: Set<Seq<u8>>,
    keys: Seq<Pubkey>,
    instruction_sysvar: Seq<u8>,
    payer: Pubkey,
    proof: Proof,
    quantity: u64,
)
    ensures
        mint_result(locks, keys, instruction_sysvar, payer, proof, quantity) is Ok
            ==> proof.collateral_amount >= quantity,
        quantity > proof.collateral_amount ==> mint_result(
            locks,
            keys,
            instruction_sysvar,
            payer,
            proof,
            quantity,
        ) is Err && locks_after(locks, keys, instruction_sysvar, payer, proof, quantity) == locks,
        quantity > proof.collateral_amount && proof.validator_index < keys.len()
            && verification_verdict(
            instruction_sysvar,
            keys[proof.validator_index as int]@,
            proof.message(),
            proof.signature_hash@,
        ) is Ok && proof.minter == payer ==> mint_result(
            locks,
            keys,
            instruction_sysvar,
            payer,
            proof,
            quantity,
        ) == Err::<MintOrder, ErrorCode>(ErrorCode::InsufficientCollateral),
{
}

/// Only the key at the claimed index counts. Where the preceding payload is
/// well framed and carries a key, and the proof's index selects no
/// registered key or a key other than the one carried, the request fails the
/// public key check.
pub proof fn lemma_foreign_key_rejected(
    keys: Seq<Pubkey>,
    instruction_sysvar: Seq<u8>,
    payer: Pubkey,
    proof: Proof,
    quantity: u64,
    payload: Seq<u8>,
    carried_key: Seq<u8>,
)
    requires
        preceding_payload(instruction_sysvar) == Ok::<Seq<u8>, ErrorCode>(payload),
        well_framed(payload),
        field_at(payload, offsets_of(payload).public_key_offset as int, 32) == Ok::<
            Seq<u8>,
            ErrorCode,
        >(carried_key),
        proof.validator_index >= keys.len() || keys[proof.validator_index as int]@ != carried_key,
    ensures
        authorization(keys, instruction_sysvar, payer, proof, quantity) == Err::<(), ErrorCode>(
            ErrorCode::InvalidPublicKey,
        ),
{
}

/// Nothing is read past the end of a payload. A signature is found only
/// inside the payload, together with the key and the message; a well-framed
/// payload in which one of the three windows reaches past the end is turned
/// down.
pub proof fn lemma_offsets_stay_in_bounds(
    payload: Seq<u8>,
    expected_public_key: Seq<u8>,
    message: Seq<u8>,
    signature_hash: Seq<u8>,
)
    ensures
        attested_signature(payload, expected_public_key, message) matches Ok(signature) ==> {
            let o = offsets_of(payload);
            &&& well_framed(payload)
            &&& window_in_bounds(payload.len() as int, o.public_key_offset as int, 32)
            &&& window_in_bounds(
                payload.len() as int,
                o.message_data_offset as int,
                o.message_data_size as int,
            )
            &&& window_in_bounds(payload.len() as int, o.signature_offset as int, 64)
            &&& signature == payload.subrange(
                o.signature_offset as int,
                o.signature_offset as int + 64,
            )
        },
        ({
            let o = offsets_of(payload);
            !(well_framed(payload) && window_in_bounds(
                payload.len() as int,
                o.public_key_offset as int,
                32,
            ) && window_in_bounds(
                payload.len() as int,
                o.message_data_offset as int,
                o.message_data_size as int,
            ) && window_in_bounds(payload.len() as int, o.signature_offset as int, 64))
        }) ==> payload_verdict(payload, expected_public_key, message, signature_hash) is Err,
        !well_framed(payload) ==> payload_verdict(
            payload,
            expected_public_key,
            message,
            signature_hash,
        ) == Err::<(), ErrorCode>(ErrorCode::InvalidEd25519Instruction),
{
}

/// Requests with different signature digests do not stand in each other's
/// way: whether a request is granted, and with what order, is the same before
/// and after a request that carries another digest.
pub proof fn lemma_distinct_digests_independent(
    locks: Set<Seq<u8>>,
    keys: Seq<Pubkey>,
    instruction_sysvar: Seq<u8>,
    payer: Pubkey,
    proof: Proof,
    quantity: u64,
    other_keys: Seq<Pubkey>,
    other_sysvar: Seq<u8>,
    other_payer: Pubkey,
    other_proof: Proof,
    other_quantity: u64,
)
    requires
        other_proof.signature_hash@ != proof.signature_hash@,
    ensures
        mint_result(
            locks_after(locks, keys, instruction_sysvar, payer, proof, quantity),
            other_keys,
            other_sysvar,
            other_payer,
            other_proof,
            other_quantity,
        ) == mint_result(locks, other_keys, other_sysvar, other_payer, other_proof, other_quantity),
{
    if lock_address(other_proof.signature_hash@) == lock_address(proof.signature_hash@) {
        lemma_lock_address_injective(other_proof.signature_hash@, proof.signature_hash@);
    }
}

/// A replay is a conflict before it is anything else that the quantity could
/// make it. Where the lock of a request's digest is claimed and the request
/// passes the gates that stand before the lock, the result is the conflict,
/// also for a quantity whose base units do not fit in 64 bits. A quantity
/// that does not fit claims no lock either.
pub proof fn lemma_conflict_precedes_scaling(
    locks: Set<Seq<u8>>,
    keys: Seq<Pubkey>,
    instruction_sysvar: Seq<u8>,
    payer: Pubkey,
    proof: Proof,
    quantity: u64,
)
    requires
        authorization(keys, instruction_sysvar, payer, proof, quantity) is Ok,
    ensures
        locks.contains(lock_address(proof.signature_hash@)) ==> mint_result(
            locks,
            keys,
            instruction_sysvar,
            payer,
            proof,
            quantity,
        ) == Err::<MintOrder, ErrorCode>(ErrorCode::MintLockConflict),
        !locks.contains(lock_address(proof.signature_hash@)) ==> mint_result(
            locks,
            keys,
            instruction_sysvar,
            payer,
            proof,
            quantity,
        ) == scaled_order(payer, quantity),
        quantity * BASE_UNITS_PER_TOKEN > u64::MAX ==> locks_after(
            locks,
            keys,
            instruction_sysvar,
            payer,
            proof,
            quantity,
        ) == locks,
{
}

} // verus!
