use vstd::prelude::*;
use crate::constants::MAX_VALIDATORS;
use crate::error::ErrorCode;
use crate::pubkey::Pubkey;

verus! {

/// The authorized validator keys and the authority that may add to them.
#[derive(Clone, Debug, PartialEq, Eq)]
pub struct ValidatorRegistry {
    pub owner: Pubkey,
    pub validator_keys: Vec<Pubkey>,
}

impl ValidatorRegistry {
    /// The registered keys, in the order in which they were added.
    pub open spec fn keys(&self) -> Seq<Pubkey> {
        self.validator_keys@
    }

    /// No key is registered twice and the keys fit the registry's capacity.
    pub open spec fn wf(&self) -> bool {
        &&& self.keys().no_duplicates()
        &&& self.keys().len() <= MAX_VALIDATORS
    }
}

/// What the creation of the registry works on: the place where the registry
/// lives, empty until it is created, and the authority that creates it.
pub struct InitRegistry {
    pub registry: Option<ValidatorRegistry>,
    pub authority: Pubkey,
}

/// Whether `slot` holds an empty registry owned by `authority`.
pub open spec fn created_by(slot: Option<ValidatorRegistry>, authority: Pubkey) -> bool {
    &&& slot is Some
    &&& slot->0.owner == authority
    &&& slot->0.keys() == Seq::<Pubkey>::empty()
    &&& slot->0.wf()
}

/// Creates an empty registry owned by the authority. Fails, and changes
/// nothing, when a registry is already in place.
pub fn handler(ctx: &mut InitRegistry) -> (out: Result<(), ErrorCode>)
    ensures
        final(ctx).authority == old(ctx).authority,
        old(ctx).registry is Some ==> out == Err::<(), ErrorCode>(
            ErrorCode::RegistryAlreadyInitialized,
        ) && *final(ctx) == *old(ctx),
        old(ctx).registry is None ==> out is Ok && created_by(
            final(ctx).registry,
            old(ctx).authority,
        ),
{
    if ctx.registry.is_some() {
        return Err(ErrorCode::RegistryAlreadyInitialized);
    }
    ctx.registry = Some(ValidatorRegistry { owner: ctx.authority, validator_keys: Vec::new() });
    Ok(())
}

} // verus!
