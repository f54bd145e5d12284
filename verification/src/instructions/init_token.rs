use vstd::prelude::*;
use crate::error::ErrorCode;
use crate::pubkey::Pubkey;

verus! {

/// How a new token describes itself.
#[derive(Clone, Debug, PartialEq, Eq)]
pub struct InitTokenParams {
    pub name: String,
    pub symbol: String,
    pub uri: String,
    pub decimals: u8,
}

/// What the creation of the token works on: the metadata record to fill, the
/// mint, which is its own authority, and the party that pays.
pub struct InitToken {
    pub metadata: Pubkey,
    pub mint: Pubkey,
    pub payer: Pubkey,
}

/// The descriptive part of a metadata record. A token of this kind pays no
/// seller fee and names no creators, collection or uses.
#[derive(Clone, Debug, PartialEq, Eq)]
pub struct TokenData {
    pub name: String,
    pub symbol: String,
    pub uri: String,
    pub seller_fee_basis_points: u16,
}

/// The request to the metadata service that the creation of a token ends in.
#[derive(Clone, Debug, PartialEq, Eq)]
pub struct CreateMetadata {
    pub payer: Pubkey,
    pub update_authority: Pubkey,
    pub mint: Pubkey,
    pub metadata: Pubkey,
    pub mint_authority: Pubkey,
    pub data: TokenData,
    pub decimals: u8,
    pub is_mutable: bool,
    pub update_authority_is_signer: bool,
}

/// Whether `order` registers exactly what `params` describes, for the
/// accounts of `ctx`: the mint acts as update and mint authority, the record
/// is immutable, and the update authority signs.
pub open spec fn registers(order: CreateMetadata, ctx: InitToken, params: InitTokenParams) -> bool {
    &&& order.payer == ctx.payer
    &&& order.update_authority == ctx.mint
    &&& order.mint == ctx.mint
    &&& order.metadata == ctx.metadata
    &&& order.mint_authority == ctx.mint
    &&& order.data.name@ == params.name@
    &&& order.data.symbol@ == params.symbol@
    &&& order.data.uri@ == params.uri@
    &&& order.data.seller_fee_basis_points == 0
    &&& order.decimals == params.decimals
    &&& !order.is_mutable
    &&& order.update_authority_is_signer
}

/// Builds the metadata registration of a new token. The name, the symbol,
/// the address and the number of decimals are passed on as they came.
pub fn handler(ctx: &InitToken, metadata: InitTokenParams) -> (out: Result<
    CreateMetadata,
    ErrorCode,
>)
    ensures
        out matches Ok(order) && registers(order, *ctx, metadata),
{
    let decimals = metadata.decimals;
    let data = TokenData {
        name: metadata.name,
        symbol: metadata.symbol,
        uri: metadata.uri,
        seller_fee_basis_points: 0,
    };
    Ok(
        CreateMetadata {
            payer: ctx.payer,
            update_authority: ctx.mint,
            mint: ctx.mint,
            metadata: ctx.metadata,
            mint_authority: ctx.mint,
            data,
            decimals,
            is_mutable: false,
            update_authority_is_signer: true,
        },
    )
}

} // verus!
