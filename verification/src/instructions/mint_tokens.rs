use vstd::prelude::*;
use crate::bytes::{le_bytes, lemma_le_bytes_len, push_u64_le};
use crate::constants::BASE_UNITS_PER_TOKEN;
use crate::error::ErrorCode;
use crate::instructions::init_registry::ValidatorRegistry;
use crate::mint_lock::{lock_address, mint_lock_address, MintLocks};
use crate::pubkey::Pubkey;
use crate::sysvar::{load_preceding_payload, preceding_payload};
use crate::verification::{check_payload, payload_verdict};

verus! {

/// A validator's attestation of a collateral deposit.
#[derive(Clone, Copy, Debug, PartialEq, Eq)]
pub struct Proof {
    pub minter: Pubkey,
    pub collateral_amount: u64,
    pub timestamp: u64,
    pub signature_hash: [u8; 32],
    pub validator_index: u8,
}

/// The instruction to the token ledger that a granted request ends in.
#[derive(Clone, Copy, Debug, PartialEq, Eq)]
pub struct MintOrder {
    pub recipient: Pubkey,
    pub amount: u64,
}

/// What a mint request works on: the registry, the party that pays for and
/// submits the request, the data of the instructions sysvar, and the locks
/// claimed so far.
pub struct MintTokens {
    pub registry: ValidatorRegistry,
    pub payer: Pubkey,
    pub instruction_sysvar: Vec<u8>,
    pub mint_locks: MintLocks,
}

/// The 48 bytes a validator signs: the minter's key, then the collateral
/// amount and the timestamp, each as eight little-endian bytes.
pub open spec fn canonical_message(minter: Seq<u8>, collateral_amount: u64, timestamp: u64) -> Seq<
    u8,
> {
    minter + le_bytes(collateral_amount as nat, 8) + le_bytes(timestamp as nat, 8)
}

impl Proof {
    /// The message that this proof's validator must have signed.
    pub open spec fn message(&self) -> Seq<u8> {
        canonical_message(self.minter@, self.collateral_amount, self.timestamp)
    }

    /// Rebuilds the signed message from the proof's fields.
    pub fn signed_message(&self) -> (out: Vec<u8>)
        ensures
            out@ == self.message(),
            out@.len() == 48,
    {
        let mut out: Vec<u8> = Vec::new();
        let mut i: usize = 0;
        while i < 32
            invariant
                i <= 32,
                out@ == self.minter@.subrange(0, i as int),
            decreases 32 - i,
        {
            out.push(self.minter.0[i]);
            assert(out@ =~= self.minter@.subrange(0, i + 1));
            i += 1;
        }
        assert(self.minter@.subrange(0, 32) =~= self.minter@);
        push_u64_le(&mut out, self.collateral_amount);
        push_u64_le(&mut out, self.timestamp);
        proof {
            lemma_le_bytes_len(self.collateral_amount as nat, 8);
            lemma_le_bytes_len(self.timestamp as nat, 8);
        }
        out
    }
}

/// The verdict on the verification that precedes the current instruction.
pub open spec fn verification_verdict(
    instruction_sysvar: Seq<u8>,
    expected_public_key: Seq<u8>,
    message: Seq<u8>,
    signature_hash: Seq<u8>,
) -> Result<(), ErrorCode> {
    match preceding_payload(instruction_sysvar) {
        Err(e) => Err(e),
        Ok(payload) => payload_verdict(payload, expected_public_key, message, signature_hash),
    }
}

/// Confirms that the instruction just before the current one verified a
/// signature by `expected_public_key` over `message`, and that the digest of
/// that signature is `signature_hash`.
pub fn verify_ed25519_instruction(
    instruction_sysvar: &[u8],
    expected_public_key: &[u8],
    message: &[u8],
    signature_hash: &[u8],
) -> (out: Result<(), ErrorCode>)
    ensures
        out == verification_verdict(
            instruction_sysvar@,
            expected_public_key@,
            message@,
            signature_hash@,
        ),
{
    match load_preceding_payload(instruction_sysvar) {
        Err(e) => Err(e),
        Ok(payload) => check_payload(
            payload.as_slice(),
            expected_public_key,
            message,
            signature_hash,
        ),
    }
}

/// What follows the verification: the verdict is passed on when it is an
/// error; then the minter must be the payer, and the collateral must cover
/// the quantity.
pub open spec fn settlement(
    verdict: Result<(), ErrorCode>,
    proof: Proof,
    payer: Pubkey,
    quantity: u64,
) -> Result<(), ErrorCode> {
    match verdict {
        Err(e) => Err(e),
        Ok(_) => if proof.minter != payer {
            Err(ErrorCode::UnauthorizedMinter)
        } else if proof.collateral_amount < quantity {
            Err(ErrorCode::InsufficientCollateral)
        } else {
            Ok(())
        },
    }
}

/// The decision on a request, before its lock is looked at: the validator
/// index must select a registered key, the verification that precedes the
/// request must match that key, the proof's message and its signature digest,
/// the minter must be the payer, and the collateral must cover the quantity.
pub open spec fn authorization(
    keys: Seq<Pubkey>,
    instruction_sysvar: Seq<u8>,
    payer: Pubkey,
    proof: Proof,
    quantity: u64,
) -> Result<(), ErrorCode> {
    if proof.validator_index >= keys.len() {
        Err(ErrorCode::InvalidPublicKey)
    } else {
        settlement(
            verification_verdict(
                instruction_sysvar,
                keys[proof.validator_index as int]@,
                proof.message(),
                proof.signature_hash@,
            ),
            proof,
            payer,
            quantity,
        )
    }
}

/// The order for `quantity` whole tokens to `recipient`: the quantity in base
/// units, refused when that does not fit in 64 bits.
pub open spec fn scaled_order(recipient: Pubkey, quantity: u64) -> Result<MintOrder, ErrorCode> {
    if quantity * BASE_UNITS_PER_TOKEN > u64::MAX {
        Err(ErrorCode::MintAmountOverflow)
    } else {
        Ok(MintOrder { recipient, amount: (quantity * BASE_UNITS_PER_TOKEN) as u64 })
    }
}

/// The result of a request against the locks claimed so far. The request must
/// be authorized; then its lock must be free, else it is a conflict; then the
/// quantity is scaled to base units.
pub open spec fn mint_result(
    locks: Set<Seq<u8>>,
    keys: Seq<Pubkey>,
    instruction_sysvar: Seq<u8>,
    payer: Pubkey,
    proof: Proof,
    quantity: u64,
) -> Result<MintOrder, ErrorCode> {
    match authorization(keys, instruction_sysvar, payer, proof, quantity) {
        Err(e) => Err(e),
        Ok(_) => if locks.contains(lock_address(proof.signature_hash@)) {
            Err(ErrorCode::MintLockConflict)
        } else {
            scaled_order(payer, quantity)
        },
    }
}

/// The locks claimed after a request: one more when it is granted, the same
/// otherwise.
pub open spec fn locks_after(
    locks: Set<Seq<u8>>,
    keys: Seq<Pubkey>,
    instruction_sysvar: Seq<u8>,
    payer: Pubkey,
    proof: Proof,
    quantity: u64,
) -> Set<Seq<u8>> {
    if mint_result(locks, keys, instruction_sysvar, payer, proof, quantity) is Ok {
        locks.insert(lock_address(proof.signature_hash@))
    } else {
        locks
    }
}

/// Applies the gates that follow the verification to its verdict.
pub fn settle(verdict: Result<(), ErrorCode>, proof: &Proof, payer: &Pubkey, quantity: u64) -> (out:
    Result<(), ErrorCode>)
    ensures
        out == settlement(verdict, *proof, *payer, quantity),
{
    if let Err(e) = verdict {
        return Err(e);
    }
    if !proof.minter.same_as(payer) {
        return Err(ErrorCode::UnauthorizedMinter);
    }
    if proof.collateral_amount < quantity {
        return Err(ErrorCode::InsufficientCollateral);
    }
    Ok(())
}

/// Decides on a request without looking at its lock.
pub fn authorize(
    registry: &ValidatorRegistry,
    instruction_sysvar: &[u8],
    payer: &Pubkey,
    proof: &Proof,
    quantity: u64,
) -> (out: Result<(), ErrorCode>)
    ensures
        out == authorization(registry.keys(), instruction_sysvar@, *payer, *proof, quantity),
{
    let index = proof.validator_index as usize;
    if index >= registry.validator_keys.len() {
        return Err(ErrorCode::InvalidPublicKey);
    }
    let message = proof.signed_message();
    let verdict = verify_ed25519_instruction(
        instruction_sysvar,
        registry.validator_keys[index].as_bytes(),
        message.as_slice(),
        proof.signature_hash.as_slice(),
    );
    settle(verdict, proof, payer, quantity)
}

/// Writes the order for `quantity` whole tokens to `recipient`.
pub fn scale_order(recipient: &Pubkey, quantity: u64) -> (out: Result<MintOrder, ErrorCode>)
    ensures
        out == scaled_order(*recipient, quantity),
{
    match quantity.checked_mul(BASE_UNITS_PER_TOKEN) {
        None => Err(ErrorCode::MintAmountOverflow),
        Some(amount) => Ok(MintOrder { recipient: *recipient, amount }),
    }
}

/// Redeems a proof: decides on the request, makes sure that the lock of the
/// proof's signature digest is free, scales the quantity, claims the lock,
/// and returns the order for the token ledger. A request that is turned down
/// changes nothing.
pub fn handler(ctx: &mut MintTokens, proof: Proof, quantity: u64) -> (out: Result<
    MintOrder,
    ErrorCode,
>)
    ensures
        out == mint_result(
            old(ctx).mint_locks@,
            old(ctx).registry.keys(),
            old(ctx).instruction_sysvar@,
            old(ctx).payer,
            proof,
            quantity,
        ),
        final(ctx).mint_locks@ == locks_after(
            old(ctx).mint_locks@,
            old(ctx).registry.keys(),
            old(ctx).instruction_sysvar@,
            old(ctx).payer,
            proof,
            quantity,
        ),
        out is Err ==> *final(ctx) == *old(ctx),
        final(ctx).registry == old(ctx).registry,
        final(ctx).payer == old(ctx).payer,
        final(ctx).instruction_sysvar == old(ctx).instruction_sysvar,
{
    if let Err(e) = authorize(
        &ctx.registry,
        ctx.instruction_sysvar.as_slice(),
        &ctx.payer,
        &proof,
        quantity,
    ) {
        return Err(e);
    }
    let address = mint_lock_address(&proof.signature_hash);
    if ctx.mint_locks.is_claimed(address.as_slice()) {
        return Err(ErrorCode::MintLockConflict);
    }
    let order = match scale_order(&ctx.payer, quantity) {
        Ok(order) => order,
        Err(e) => { return Err(e); },
    };
    match ctx.mint_locks.claim(address) {
        Ok(_) => Ok(order),
        Err(e) => Err(e),
    }
}

} // verus!
