//! Reading the token service's account layouts: a token descriptor and a
//! holder's token balance.

use vstd::prelude::*;
use vstd::bytes::spec_u64_from_le_bytes;
use solana_program::program_pack::Pack;
use spl_token::state::{Account, Mint};
use crate::accounts::TokenMint;
use crate::address::Address;
use crate::error::VisionError;

verus! {

/// Size of a token descriptor's data.
pub const MINT_LEN: usize = 82;

/// Size of a token account's data.
pub const TOKEN_ACCOUNT_LEN: usize = 165;

/// Whether four bytes tag an optional address: `[0,0,0,0]` absent, `[1,0,0,0]` present.
pub open spec fn option_tag_ok(tag: Seq<u8>) -> bool {
    tag == seq![0u8, 0u8, 0u8, 0u8] || tag == seq![1u8, 0u8, 0u8, 0u8]
}

/// Whether `d` is a well-formed token descriptor: 82 bytes, both optional
/// authorities tagged, and an initialization byte of 0 or 1.
pub open spec fn mint_layout_ok(d: Seq<u8>) -> bool {
    d.len() == MINT_LEN && option_tag_ok(d.subrange(0, 4)) && d[45] <= 1 && option_tag_ok(d.subrange(46, 50))
}

/// Whether `m` holds what the well-formed descriptor `d` records: the issuance
/// authority at 0..36, the supply at 36..44, the initialization flag at 45.
pub open spec fn mint_read(d: Seq<u8>, m: TokenMint) -> bool {
    &&& m.supply == spec_u64_from_le_bytes(d.subrange(36, 44))
    &&& m.is_initialized == (d[45] == 1)
    &&& match m.mint_authority {
        Some(a) => d[0] == 1 && a@ == d.subrange(4, 36),
        None => d[0] == 0,
    }
}

/// Relies on spl_token's `Mint::unpack_unchecked`, which refuses data that is
/// not 82 bytes, an authority tag other than `[0,0,0,0]` or `[1,0,0,0]`, and an
/// initialization byte other than 0 or 1, and otherwise reads the fields at
/// their fixed offsets.
#[verifier::external_body]
fn unpack_mint_unchecked(data: &[u8]) -> (r: Option<TokenMint>)
    ensures
        r is Some <==> mint_layout_ok(data@),
        r matches Some(m) ==> mint_read(data@, m),
{
    Mint::unpack_unchecked(data).ok().map(|m| TokenMint {
        supply: m.supply,
        is_initialized: m.is_initialized,
        mint_authority: Option::<solana_program::pubkey::Pubkey>::from(m.mint_authority).map(|a| Address(a.to_bytes())),
    })
}

/// Relies on spl_token's `Account::unpack`, which refuses data that is not
/// 165 bytes or whose state byte at 108 is 0 (uninitialized), and reads the
/// balance from bytes 64..72.
#[verifier::external_body]
fn unpack_token_amount(data: &[u8]) -> (r: Option<u64>)
    ensures
        r matches Some(v) ==> data@.len() == TOKEN_ACCOUNT_LEN && data@[108] != 0
            && v == spec_u64_from_le_bytes(data@.subrange(64, 72)),
        data@.len() != TOKEN_ACCOUNT_LEN ==> r is None,
{
    Account::unpack(data).ok().map(|a| a.amount)
}

impl TokenMint {
    /// Reads a token descriptor, initialized or not; `InvalidAccountData` where
    /// the data is malformed.
    pub fn unpack(data: &[u8]) -> (r: Result<TokenMint, VisionError>)
        ensures
            r is Ok <==> mint_layout_ok(data@),
            r matches Ok(m) ==> mint_read(data@, m),
            r matches Err(e) ==> e == VisionError::InvalidAccountData,
    {
        match unpack_mint_unchecked(data) {
            Some(m) => Ok(m),
            None => Err(VisionError::InvalidAccountData),
        }
    }
}

/// The token balance that a token account's data records; `InvalidAccountData`
/// where the data is malformed or the account uninitialized.
pub fn token_balance(data: &[u8]) -> (r: Result<u64, VisionError>)
    ensures
        r matches Ok(v) ==> data@.len() == TOKEN_ACCOUNT_LEN && v == spec_u64_from_le_bytes(data@.subrange(64, 72)),
        r matches Err(e) ==> e == VisionError::InvalidAccountData,
        data@.len() != TOKEN_ACCOUNT_LEN ==> r is Err,
{
    match unpack_token_amount(data) {
        Some(v) => Ok(v),
        None => Err(VisionError::InvalidAccountData),
    }
}

} // verus!
