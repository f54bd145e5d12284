//! The four instructions and the values each one works on.

pub mod add_validator;
pub mod init_registry;
pub mod init_token;
pub mod mint_tokens;

pub use add_validator::AddValidator;
pub use init_registry::{InitRegistry, ValidatorRegistry};
pub use init_token::{CreateMetadata, InitToken, InitTokenParams, TokenData};
pub use mint_tokens::{verify_ed25519_instruction, MintOrder, MintTokens, Proof};
