use vstd::prelude::*;
use crate::constants::MAX_VALIDATORS;
use crate::error::ErrorCode;
use crate::instructions::init_registry::ValidatorRegistry;
use crate::pubkey::Pubkey;

verus! {

/// What the addition of a validator works on: the registry and the party
/// that asks for the addition.
pub struct AddValidator {
    pub registry: ValidatorRegistry,
    pub owner: Pubkey,
}

/// The keys a registry holds after `caller` asks to add `validator`, or the
/// reason for turning the request down. The caller's authority is checked
/// first, then the key's novelty, then the room left.
pub open spec fn add_outcome(
    registry_owner: Pubkey,
    keys: Seq<Pubkey>,
    caller: Pubkey,
    validator: Pubkey,
) -> Result<Seq<Pubkey>, ErrorCode> {
    if caller != registry_owner {
        Err(ErrorCode::UnauthorizedMinter)
    } else if keys.contains(validator) {
        Err(ErrorCode::KeyAlreadyExists)
    } else if keys.len() >= MAX_VALIDATORS {
        Err(ErrorCode::RegistryFull)
    } else {
        Ok(keys.push(validator))
    }
}

/// Whether `key` is among `keys`.
pub fn holds_key(keys: &Vec<Pubkey>, key: &Pubkey) -> (found: bool)
    ensures
        found == keys@.contains(*key),
{
    let mut i: usize = 0;
    while i < keys.len()
        invariant
            i <= keys@.len(),
            forall|k: int| 0 <= k < i ==> keys@[k] != *key,
        decreases keys@.len() - i,
    {
        if keys[i].same_as(key) {
            return true;
        }
        i += 1;
    }
    false
}

/// Appends `validator` to the registry when the caller owns the registry,
/// the key is new and there is room for it. A request that is turned down
/// leaves the registry as it was.
pub fn handler(ctx: &mut AddValidator, validator: Pubkey) -> (out: Result<(), ErrorCode>)
    ensures
        final(ctx).owner == old(ctx).owner,
        final(ctx).registry.owner == old(ctx).registry.owner,
        match add_outcome(
            old(ctx).registry.owner,
            old(ctx).registry.keys(),
            old(ctx).owner,
            validator,
        ) {
            Ok(keys) => out is Ok && final(ctx).registry.keys() == keys,
            Err(e) => out == Err::<(), ErrorCode>(e) && *final(ctx) == *old(ctx),
        },
        old(ctx).registry.wf() ==> final(ctx).registry.wf(),
{
    if !ctx.owner.same_as(&ctx.registry.owner) {
        return Err(ErrorCode::UnauthorizedMinter);
    }
    if holds_key(&ctx.registry.validator_keys, &validator) {
        return Err(ErrorCode::KeyAlreadyExists);
    }
    if ctx.registry.validator_keys.len() >= MAX_VALIDATORS {
        return Err(ErrorCode::RegistryFull);
    }
    ctx.registry.validator_keys.push(validator);
    proof {
        let before = old(ctx).registry.keys();
        let after = ctx.registry.keys();
        assert(after == before.push(validator));
        if before.no_duplicates() {
            assert forall|i: int, j: int|
                0 <= i < after.len() && 0 <= j < after.len() && i != j implies after[i]
                != after[j] by {
                if i < before.len() && j < before.len() {
                } else if i < before.len() {
                    assert(before.contains(before[i]));
                } else {
                    assert(before.contains(before[j]));
                }
            }
        }
    }
    Ok(())
}

} // verus!
