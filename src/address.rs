//! Ledger addresses, and the deterministic derivations that the checks re-compute.

use vstd::prelude::*;
use solana_program::pubkey::Pubkey;

verus! {

/// A 32-byte ledger address.
#[derive(Clone, Copy, Debug)]
pub struct Address(pub [u8; 32]);

impl View for Address {
    type V = Seq<u8>;

    open spec fn view(&self) -> Seq<u8> {
        self.0@
    }
}

impl Address {
    /// The address made of the given bytes.
    pub fn new_from_array(bytes: [u8; 32]) -> (r: Address)
        ensures
            r@ == bytes@,
    {
        Address(bytes)
    }

    /// The bytes of the address.
    pub fn to_bytes(&self) -> (r: [u8; 32])
        ensures
            r@ == self@,
    {
        self.0
    }

    /// Whether two addresses hold the same bytes.
    pub fn same(&self, other: &Address) -> (r: bool)
        ensures
            r == (self@ == other@),
    {
        let mut i: usize = 0;
        while i < 32
            invariant
                0 <= i <= 32,
                self@.len() == 32,
                other@.len() == 32,
                forall|j: int| 0 <= j < i ==> self@[j] == other@[j],
            decreases 32 - i,
        {
            if self.0[i] != other.0[i] {
                return false;
            }
            i = i + 1;
        }
        assert(self@ =~= other@);
        true
    }
}

/// The address derived from one 32-byte seed and a bump seed under a program,
/// or `None` where that candidate lies on the curve and has no derived address.
pub uninterp spec fn program_address(seed: Seq<u8>, bump: u8, program: Seq<u8>) -> Option<Seq<u8>>;

/// The first derivable address, with its bump, that a search from bump 255
/// downwards finds for one 32-byte seed under a program.
pub uninterp spec fn found_program_address(seed: Seq<u8>, program: Seq<u8>) -> Option<(Seq<u8>, u8)>;

/// The associated token account of a wallet for a token descriptor.
pub uninterp spec fn associated_address(wallet: Seq<u8>, mint: Seq<u8>) -> Seq<u8>;

/// Relies on `Pubkey::create_program_address` with the seeds `[seed, [bump]]`:
/// two seeds of at most 32 bytes never exceed its limits, so it fails only
/// where the hash lies on the curve, and its result depends on the arguments alone.
#[verifier::external_body]
pub(crate) fn create_program_address(seed: &Address, bump: u8, program: &Address) -> (r: Option<Address>)
    ensures
        r is Some <==> program_address(seed@, bump, program@) is Some,
        r matches Some(a) ==> program_address(seed@, bump, program@) == Some(a@),
{
    let program = Pubkey::new_from_array(program.0);
    Pubkey::create_program_address(&[&seed.0, &[bump]], &program)
        .ok()
        .map(|p| Address(p.to_bytes()))
}

/// Relies on `Pubkey::try_find_program_address` with the seeds `[seed]`: it
/// returns the first bump from 255 downwards for which `create_program_address`
/// succeeds, with that address.
#[verifier::external_body]
pub(crate) fn find_program_address(seed: &Address, program: &Address) -> (r: Option<(Address, u8)>)
    ensures
        r is Some <==> found_program_address(seed@, program@) is Some,
        r matches Some((a, b)) ==> found_program_address(seed@, program@) == Some((a@, b)),
        r matches Some((a, b)) ==> program_address(seed@, b, program@) == Some(a@),
{
    let program = Pubkey::new_from_array(program.0);
    Pubkey::try_find_program_address(&[&seed.0], &program)
        .map(|(p, b)| (Address(p.to_bytes()), b))
}

/// Relies on `spl_associated_token_account::get_associated_token_address`, a
/// derivation from the wallet and token descriptor addresses alone. It panics
/// only where no bump among 256 gives a derived address.
#[verifier::external_body]
pub(crate) fn get_associated_token_address(wallet: &Address, mint: &Address) -> (r: Address)
    ensures
        r@ == associated_address(wallet@, mint@),
{
    let wallet = Pubkey::new_from_array(wallet.0);
    let mint = Pubkey::new_from_array(mint.0);
    Address(spl_associated_token_account::get_associated_token_address(&wallet, &mint).to_bytes())
}

} // verus!
