use m_0_pet::constants::MAX_VALIDATORS;
use m_0_pet::error::ErrorCode;
use m_0_pet::instructions::add_validator::{handler as add_handler, holds_key};
use m_0_pet::instructions::init_registry::handler as init_handler;
use m_0_pet::instructions::init_token::handler as token_handler;
use m_0_pet::instructions::{
    AddValidator, CreateMetadata, InitRegistry, InitToken, InitTokenParams, TokenData,
    ValidatorRegistry,
};
use m_0_pet::mint_lock::{mint_lock_address, MintLocks};
use m_0_pet::pubkey::Pubkey;
use m_0_pet::{add_validator, init_registry, init_token};

const OWNER: Pubkey = Pubkey([1; 32]);

fn key(n: u8) -> Pubkey {
    Pubkey([n; 32])
}

fn registry(keys: Vec<Pubkey>) -> AddValidator {
    AddValidator { registry: ValidatorRegistry { owner: OWNER, validator_keys: keys }, owner: OWNER }
}

#[test]
fn pubkey_comparison_and_bytes() {
    let mut other = [7u8; 32];
    assert!(key(7).same_as(&Pubkey(other)));
    other[31] = 8;
    assert!(!key(7).same_as(&Pubkey(other)));
    assert_eq!(key(7).as_bytes(), &[7u8; 32]);
}

#[test]
fn init_registry_creates_an_empty_registry() {
    let mut ctx = InitRegistry { registry: None, authority: OWNER };
    assert_eq!(init_registry(&mut ctx), Ok(()));
    assert_eq!(ctx.registry, Some(ValidatorRegistry { owner: OWNER, validator_keys: vec![] }));
    assert_eq!(ctx.authority, OWNER);
}

#[test]
fn init_registry_fails_when_a_registry_exists() {
    let existing = ValidatorRegistry { owner: key(9), validator_keys: vec![key(2)] };
    let mut ctx = InitRegistry { registry: Some(existing.clone()), authority: OWNER };
    assert_eq!(init_handler(&mut ctx), Err(ErrorCode::RegistryAlreadyInitialized));
    assert_eq!(ctx.registry, Some(existing));
    let mut ctx = InitRegistry { registry: None, authority: OWNER };
    assert_eq!(init_handler(&mut ctx), Ok(()));
    assert_eq!(init_handler(&mut ctx), Err(ErrorCode::RegistryAlreadyInitialized));
}

#[test]
fn add_validator_appends_in_order() {
    let mut ctx = registry(vec![]);
    assert_eq!(add_validator(&mut ctx, key(5)), Ok(()));
    assert_eq!(add_validator(&mut ctx, key(3)), Ok(()));
    assert_eq!(add_validator(&mut ctx, key(4)), Ok(()));
    assert_eq!(ctx.registry.validator_keys, vec![key(5), key(3), key(4)]);
    assert_eq!(ctx.registry.owner, OWNER);
}

#[test]
fn add_validator_refuses_a_duplicate() {
    let mut ctx = registry(vec![key(5), key(3)]);
    assert_eq!(add_handler(&mut ctx, key(3)), Err(ErrorCode::KeyAlreadyExists));
    assert_eq!(add_handler(&mut ctx, key(5)), Err(ErrorCode::KeyAlreadyExists));
    assert_eq!(ctx.registry.validator_keys, vec![key(5), key(3)]);
}

#[test]
fn add_validator_refuses_a_caller_who_is_not_the_owner() {
    let mut ctx = registry(vec![key(5)]);
    ctx.owner = key(2);
    assert_eq!(add_handler(&mut ctx, key(6)), Err(ErrorCode::UnauthorizedMinter));
    // Ownership is checked before the key is looked at.
    assert_eq!(add_handler(&mut ctx, key(5)), Err(ErrorCode::UnauthorizedMinter));
    assert_eq!(ctx.registry.validator_keys, vec![key(5)]);
}

#[test]
fn add_validator_refuses_to_grow_past_capacity() {
    let mut ctx = registry(vec![]);
    for n in 0..MAX_VALIDATORS {
        assert_eq!(add_handler(&mut ctx, key(10 + n as u8)), Ok(()));
    }
    assert_eq!(ctx.registry.validator_keys.len(), MAX_VALIDATORS);
    assert_eq!(add_handler(&mut ctx, key(200)), Err(ErrorCode::RegistryFull));
    assert_eq!(ctx.registry.validator_keys.len(), MAX_VALIDATORS);
    // A key that is already there is reported as such, full or not.
    assert_eq!(add_handler(&mut ctx, key(10)), Err(ErrorCode::KeyAlreadyExists));
}

#[test]
fn holds_key_finds_registered_keys() {
    let keys = vec![key(5), key(3)];
    assert!(holds_key(&keys, &key(5)));
    assert!(holds_key(&keys, &key(3)));
    assert!(!holds_key(&keys, &key(4)));
    assert!(!holds_key(&vec![], &key(4)));
}

#[test]
fn mint_lock_address_is_label_then_digest() {
    let mut digest = [0u8; 32];
    for (i, b) in digest.iter_mut().enumerate() {
        *b = 0xe0 + i as u8;
    }
    let address = mint_lock_address(&digest);
    assert_eq!(address.len(), 41);
    assert_eq!(&address[..9], b"mint_lock");
    assert_eq!(&address[9..], &digest);
}

#[test]
fn mint_locks_claim_once() {
    let mut locks = MintLocks::new();
    assert!(locks.claimed.is_empty());
    let a = mint_lock_address(&[1; 32]);
    let b = mint_lock_address(&[2; 32]);
    assert!(!locks.is_claimed(&a));
    assert_eq!(locks.claim(a.clone()), Ok(()));
    assert!(locks.is_claimed(&a));
    assert!(!locks.is_claimed(&b));
    assert_eq!(locks.claim(a.clone()), Err(ErrorCode::MintLockConflict));
    assert_eq!(locks.claimed, vec![a.clone()]);
    assert_eq!(locks.claim(b.clone()), Ok(()));
    assert_eq!(locks.claim(b.clone()), Err(ErrorCode::MintLockConflict));
    assert_eq!(locks.claim(a.clone()), Err(ErrorCode::MintLockConflict));
    assert_eq!(locks.claimed, vec![a, b]);
}

#[test]
fn init_token_passes_the_parameters_on() {
    let ctx = InitToken { metadata: key(1), mint: key(2), payer: key(3) };
    let params = InitTokenParams {
        name: String::from("Pet"),
        symbol: String::from("PET"),
        uri: String::from("https://example.org/pet.json"),
        decimals: 9,
    };
    let expected = CreateMetadata {
        payer: key(3),
        update_authority: key(2),
        mint: key(2),
        metadata: key(1),
        mint_authority: key(2),
        data: TokenData {
            name: String::from("Pet"),
            symbol: String::from("PET"),
            uri: String::from("https://example.org/pet.json"),
            seller_fee_basis_points: 0,
        },
        decimals: 9,
        is_mutable: false,
        update_authority_is_signer: true,
    };
    assert_eq!(init_token(&ctx, params.clone()), Ok(expected.clone()));
    assert_eq!(token_handler(&ctx, params), Ok(expected));
}
