use vstd::prelude::*;

verus! {

/// Every way a request can be turned down.
#[derive(Clone, Copy, Debug, PartialEq, Eq, Structural)]
pub enum ErrorCode {
    /// The digest of the verified signature is not the one the proof names.
    InvalidSignature,
    /// The party that acts is not the one entitled to: a minter other than
    /// the payer, or a caller other than the registry's owner.
    UnauthorizedMinter,
    /// More tokens were asked for than the collateral covers.
    InsufficientCollateral,
    /// The key is already registered.
    KeyAlreadyExists,
    /// No verification precedes the request.
    MissingEd25519Instruction,
    /// The preceding verification is malformed: too short, not for exactly
    /// one signature, or with an offset that points past its end.
    InvalidEd25519Instruction,
    /// The verified key is not the registered key that the proof selects, or
    /// the proof selects no registered key.
    InvalidPublicKey,
    /// The verified message is not the one rebuilt from the proof.
    InvalidMessage,
    /// The lock of this signature digest has been claimed before.
    MintLockConflict,
    /// The registry already holds as many keys as it has room for.
    RegistryFull,
    /// A registry already exists where a new one was to be created.
    RegistryAlreadyInitialized,
    /// The requested quantity, in base units, does not fit in 64 bits.
    MintAmountOverflow,
}

} // verus!
