//! What the engine reads of each referenced account, the identities it checks
//! them against, and the single checks it composes.

use vstd::prelude::*;
use crate::address::{Address, program_address, create_program_address};

verus! {

/// What the engine sees of one referenced account.
#[derive(Clone, Copy, Debug)]
pub struct AccountRef {
    pub key: Address,
    /// The program that owns the account.
    pub owner: Address,
    /// Its base-currency balance.
    pub lamports: u64,
    pub is_signer: bool,
}

/// What the engine reads of a token descriptor.
#[derive(Clone, Copy, Debug)]
pub struct TokenMint {
    /// Circulating supply.
    pub supply: u64,
    pub is_initialized: bool,
    /// The only address allowed to issue and burn.
    pub mint_authority: Option<Address>,
}

/// The fixed identities against which references are checked.
#[derive(Clone, Copy, Debug)]
pub struct Config {
    /// This program.
    pub program_id: Address,
    /// The base-ledger service.
    pub system_program: Address,
    /// The token-issuance service.
    pub token_program: Address,
    /// Recipient of the provider fee.
    pub provider_fee_collector: Address,
}

/// Whether `a` is owned by `program`.
pub open spec fn owned_by(a: AccountRef, program: Address) -> bool {
    a.owner@ == program@
}

/// Whether `key` is the address derived from `seed` and `bump` under `program`.
pub open spec fn derives(key: Address, seed: Address, bump: u8, program: Address) -> bool {
    program_address(seed@, bump, program@) == Some(key@)
}

/// Whether the token descriptor is initialized and issued by `pool` alone.
pub open spec fn mint_controlled_by(m: TokenMint, pool: Address) -> bool {
    m.is_initialized && match m.mint_authority {
        Some(a) => a@ == pool@,
        None => false,
    }
}

/// Whether `a` is owned by `program`.
pub fn owned(a: &AccountRef, program: &Address) -> (r: bool)
    ensures
        r == owned_by(*a, *program),
{
    a.owner.same(program)
}

/// Whether `key` re-derives from `seed` and `bump` under `program`.
pub fn derived(key: &Address, seed: &Address, bump: u8, program: &Address) -> (r: bool)
    ensures
        r == derives(*key, *seed, bump, *program),
{
    match create_program_address(seed, bump, program) {
        Some(a) => a.same(key),
        None => false,
    }
}

/// Whether the token descriptor is initialized and issued by `pool` alone.
pub fn mint_controlled(m: &TokenMint, pool: &Address) -> (r: bool)
    ensures
        r == mint_controlled_by(*m, *pool),
{
    if !m.is_initialized {
        return false;
    }
    match &m.mint_authority {
        Some(a) => a.same(pool),
        None => false,
    }
}

} // verus!
