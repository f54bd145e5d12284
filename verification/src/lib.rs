//! Collateral-backed mint authorization: a validator registry, the check of a
//! preceding Ed25519 verification payload, single-use mint locks, and the
//! engine that ties them together.

pub mod constants;
pub mod error;
pub mod digest;
pub mod bytes;
pub mod pubkey;
pub mod verification;
pub mod sysvar;
pub mod mint_lock;
pub mod instructions;
pub mod guarantees;

use vstd::prelude::*;
use crate::error::ErrorCode;
use crate::instructions::add_validator::add_outcome;
use crate::instructions::init_registry::created_by;
use crate::instructions::init_token::registers;
use crate::instructions::mint_tokens::{locks_after, mint_result};
use crate::instructions::{
    AddValidator, CreateMetadata, InitRegistry, InitToken, InitTokenParams, MintOrder, MintTokens,
    Proof,
};
use crate::pubkey::Pubkey;

verus! {

/// Creates the registry, owned by the authority of `ctx`.
pub fn init_registry(ctx: &mut InitRegistry) -> (out: Result<(), ErrorCode>)
    ensures
        final(ctx).authority == old(ctx).authority,
        old(ctx).registry is Some ==> out == Err::<(), ErrorCode>(
            ErrorCode::RegistryAlreadyInitialized,
        ) && *final(ctx) == *old(ctx),
        old(ctx).registry is None ==> out is Ok && created_by(
            final(ctx).registry,
            old(ctx).authority,
        ),
{
    instructions::init_registry::handler(ctx)
}

/// Adds `validator` to the registry on behalf of the owner named in `ctx`.
pub fn add_validator(ctx: &mut AddValidator, validator: Pubkey) -> (out: Result<(), ErrorCode>)
    ensures
        final(ctx).owner == old(ctx).owner,
        final(ctx).registry.owner == old(ctx).registry.owner,
        match add_outcome(
            old(ctx).registry.owner,
            old(ctx).registry.keys(),
            old(ctx).owner,
            validator,
        ) {
            Ok(keys) => out is Ok && final(ctx).registry.keys() == keys,
            Err(e) => out == Err::<(), ErrorCode>(e) && *final(ctx) == *old(ctx),
        },
        old(ctx).registry.wf() ==> final(ctx).registry.wf(),
{
    instructions::add_validator::handler(ctx, validator)
}

/// Builds the metadata registration of the token that `metadata` describes.
pub fn init_token(ctx: &InitToken, metadata: InitTokenParams) -> (out: Result<
    CreateMetadata,
    ErrorCode,
>)
    ensures
        out matches Ok(order) && registers(order, *ctx, metadata),
{
    instructions::init_token::handler(ctx, metadata)
}

/// Redeems `proof` for `quantity` whole tokens.
pub fn mint_tokens(ctx: &mut MintTokens, proof: Proof, quantity: u64) -> (out: Result<
    MintOrder,
    ErrorCode,
>)
    ensures
        out == mint_result(
            old(ctx).mint_locks@,
            old(ctx).registry.keys(),
            old(ctx).instruction_sysvar@,
            old(ctx).payer,
            proof,
            quantity,
        ),
        final(ctx).mint_locks@ == locks_after(
            old(ctx).mint_locks@,
            old(ctx).registry.keys(),
            old(ctx).instruction_sysvar@,
            old(ctx).payer,
            proof,
            quantity,
        ),
        out is Err ==> *final(ctx) == *old(ctx),
        final(ctx).registry == old(ctx).registry,
        final(ctx).payer == old(ctx).payer,
        final(ctx).instruction_sysvar == old(ctx).instruction_sysvar,
{
    instructions::mint_tokens::handler(ctx, proof, quantity)
}

} // verus!
