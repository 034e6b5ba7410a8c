//! The persisted pool record and its fixed 37-byte layout.

use vstd::prelude::*;
use crate::address::Address;
use crate::error::VisionError;

verus! {

/// Size of an encoded pool record.
pub const POOL_LEN: usize = 37;

/// The largest pool fee, in units of 1/100000.
pub const MAX_FEE: u16 = 50000;

/// The configuration of one pool.
#[derive(Clone, Copy, Debug)]
pub struct PageTokenSwap {
    pub is_initialized: bool,
    /// Bump seed that derives the pool's address from the token descriptor's address.
    pub bump_seed: u8,
    /// Bump seed that derives the reserve vault's address from the pool's address.
    pub bump_seed_sol: u8,
    /// Pool fee in units of 1/100000 of the trade.
    pub fee: u16,
    /// Recipient of the pool fee.
    pub fee_collector_pubkey: Address,
}

/// The mathematical value of a pool record.
pub struct PoolView {
    pub is_initialized: bool,
    pub bump_seed: u8,
    pub bump_seed_sol: u8,
    pub fee: u16,
    pub fee_collector: Seq<u8>,
}

impl View for PageTokenSwap {
    type V = PoolView;

    open spec fn view(&self) -> PoolView {
        PoolView {
            is_initialized: self.is_initialized,
            bump_seed: self.bump_seed,
            bump_seed_sol: self.bump_seed_sol,
            fee: self.fee,
            fee_collector: self.fee_collector_pubkey@,
        }
    }
}

/// The amounts of a purchase.
#[derive(Clone, Copy, Debug, PartialEq, Eq, Structural)]
pub struct BuyAmt {
    /// What reaches the reserve vault: the payment less both fees.
    pub adjusted_amount_in: u128,
    /// Tokens issued to the buyer.
    pub token_amt: u128,
    /// The pool's fee share.
    pub fee_page: u128,
    /// The provider's fee share.
    pub fee_provider: u128,
}

/// The two little-endian bytes of a u16.
pub open spec fn u16_le(x: u16) -> Seq<u8> {
    seq![(x % 256) as u8, (x / 256) as u8]
}

/// The encoding of a pool record: flag, two bump seeds, fee, fee collector.
pub open spec fn spec_encode(v: PoolView) -> Seq<u8> {
    seq![if v.is_initialized { 1u8 } else { 0u8 }, v.bump_seed, v.bump_seed_sol] + u16_le(v.fee)
        + v.fee_collector
}

/// The record that the first 37 bytes of `b` encode, if the flag byte is 0 or 1.
pub open spec fn spec_decode(b: Seq<u8>) -> Option<PoolView> {
    if b.len() < 37 || b[0] > 1 {
        None
    } else {
        Some(PoolView {
            is_initialized: b[0] == 1,
            bump_seed: b[1],
            bump_seed_sol: b[2],
            fee: (b[3] + 256 * b[4]) as u16,
            fee_collector: b.subrange(5, 37),
        })
    }
}

/// A record encodes to 37 bytes and decodes back to itself.
pub proof fn lemma_decode_encode(v: PoolView)
    requires
        v.fee_collector.len() == 32,
    ensures
        spec_encode(v).len() == POOL_LEN,
        spec_decode(spec_encode(v)) == Some(v),
{
    let b = spec_encode(v);
    assert(b.subrange(5, 37) =~= v.fee_collector);
    assert((v.fee % 256) + 256 * (v.fee / 256) == v.fee);
}

/// A 37-byte buffer whose flag byte is 0 or 1 decodes, and encodes back to itself;
/// any other flag byte is refused.
pub proof fn lemma_encode_decode(b: Seq<u8>)
    requires
        b.len() == POOL_LEN,
    ensures
        b[0] <= 1 ==> (spec_decode(b) matches Some(v) && spec_encode(v) == b),
        b[0] > 1 ==> spec_decode(b) is None,
{
    if b[0] <= 1 {
        let v = spec_decode(b).unwrap();
        let fee = (b[3] + 256 * b[4]) as u16;
        assert(fee % 256 == b[3] && fee / 256 == b[4]);
        assert(spec_encode(v) =~= b);
    }
}

impl PageTokenSwap {
    /// Writes the record into the first 37 bytes of `output`.
    pub fn pack_into_slice(&self, output: &mut [u8])
        requires
            old(output)@.len() >= POOL_LEN,
        ensures
            final(output)@.len() == old(output)@.len(),
            final(output)@.subrange(0, 37) == spec_encode(self@),
            final(output)@.subrange(37, final(output)@.len() as int)
                == old(output)@.subrange(37, old(output)@.len() as int),
    {
        output[0] = if self.is_initialized { 1u8 } else { 0u8 };
        output[1] = self.bump_seed;
        output[2] = self.bump_seed_sol;
        output[3] = (self.fee % 256) as u8;
        output[4] = (self.fee / 256) as u8;
        let ghost head = output@.subrange(0, 5);
        let mut i: usize = 0;
        while i < 32
            invariant
                0 <= i <= 32,
                output@.len() == old(output)@.len(),
                old(output)@.len() >= 37,
                output@.subrange(0, 5) == head,
                self.fee_collector_pubkey@.len() == 32,
                forall|j: int| 0 <= j < i ==> output@[5 + j] == self.fee_collector_pubkey@[j],
                forall|j: int| 37 <= j < output@.len() ==> output@[j] == old(output)@[j],
            decreases 32 - i,
        {
            output[5 + i] = self.fee_collector_pubkey.0[i];
            i = i + 1;
            assert(output@.subrange(0, 5) =~= head);
        }
        assert(output@.subrange(0, 37) =~= spec_encode(self@));
        assert(output@.subrange(37, output@.len() as int) =~= old(output)@.subrange(37, old(output)@.len() as int));
    }

    /// Reads a record from the first 37 bytes of `input`; fails with
    /// `InvalidAccountData` on a shorter input or a flag byte other than 0 or 1.
    pub fn unpack_from_slice(input: &[u8]) -> (r: Result<PageTokenSwap, VisionError>)
        ensures
            r matches Ok(p) ==> spec_decode(input@) == Some(p@),
            r is Err ==> spec_decode(input@) is None && r == Err::<PageTokenSwap, VisionError>(VisionError::InvalidAccountData),
            spec_decode(input@) is Some ==> r is Ok,
    {
        if input.len() < POOL_LEN || input[0] > 1 {
            return Err(VisionError::InvalidAccountData);
        }
        let mut key = [0u8; 32];
        let mut i: usize = 0;
        while i < 32
            invariant
                0 <= i <= 32,
                input@.len() >= 37,
                key@.len() == 32,
                forall|j: int| 0 <= j < i ==> key@[j] == input@[5 + j],
            decreases 32 - i,
        {
            key[i] = input[5 + i];
            i = i + 1;
        }
        assert(key@ =~= input@.subrange(5, 37));
        Ok(PageTokenSwap {
            is_initialized: input[0] == 1,
            bump_seed: input[1],
            bump_seed_sol: input[2],
            fee: input[3] as u16 + 256 * (input[4] as u16),
            fee_collector_pubkey: Address(key),
        })
    }

    /// Whether the pool has been initialized.
    pub fn is_initialized(&self) -> (r: bool)
        ensures
            r == self.is_initialized,
    {
        self.is_initialized
    }
}

} // verus!
