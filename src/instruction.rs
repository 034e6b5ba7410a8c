//! Decoding of instruction bytes into one of the four operations.

use vstd::prelude::*;
use vstd::bytes::{spec_u16_from_le_bytes, spec_u64_from_le_bytes, u16_from_le_bytes, u64_from_le_bytes};
use crate::error::VisionError;

verus! {

/// The amounts of a swap.
#[derive(Clone, Copy, Debug, PartialEq, Eq, Structural)]
pub struct Amount {
    /// What the caller pays in: base currency for a purchase, tokens for a sale.
    pub amount_in: u64,
    /// The least output the caller accepts.
    pub minimum_amount_out: u64,
}

/// A new pool fee, in units of 1/100000 of the trade.
#[derive(Clone, Copy, Debug, PartialEq, Eq, Structural)]
pub struct Fee {
    pub fee: u16,
}

/// The four operations.
#[derive(Clone, Copy, Debug, PartialEq, Eq, Structural)]
pub enum VisionInstruction {
    /// Create a pool, its reserve vault and its token descriptor.
    Initialize(),
    /// Pay base currency in, receive newly issued tokens.
    Buy(Amount),
    /// Burn tokens, receive base currency from the vault.
    Sell(Amount),
    /// Change the pool fee and the fee collector.
    ChangeFee(Fee),
}

/// The two little-endian u64 fields at offsets 1 and 9, where present.
pub open spec fn spec_amount(data: Seq<u8>) -> Amount {
    Amount {
        amount_in: spec_u64_from_le_bytes(data.subrange(1, 9)),
        minimum_amount_out: spec_u64_from_le_bytes(data.subrange(9, 17)),
    }
}

/// What a byte buffer decodes to: a tag byte, then the tag's fields; bytes
/// after the fields are ignored.
pub open spec fn spec_unpack(data: Seq<u8>) -> Result<VisionInstruction, VisionError> {
    if data.len() == 0 {
        Err(VisionError::InvalidInstruction)
    } else if data[0] == 0 {
        Ok(VisionInstruction::Initialize())
    } else if data[0] == 1 || data[0] == 2 {
        if data.len() < 17 {
            Err(VisionError::InvalidInstruction)
        } else if data[0] == 1 {
            Ok(VisionInstruction::Buy(spec_amount(data)))
        } else {
            Ok(VisionInstruction::Sell(spec_amount(data)))
        }
    } else if data[0] == 3 {
        if data.len() < 3 {
            Err(VisionError::InvalidInstruction)
        } else {
            Ok(VisionInstruction::ChangeFee(Fee { fee: spec_u16_from_le_bytes(data.subrange(1, 3)) }))
        }
    } else {
        Err(VisionError::InvalidInstruction)
    }
}

impl VisionInstruction {
    /// Decodes an instruction.
    pub fn unpack(instruction_data: &[u8]) -> (r: Result<Self, VisionError>)
        ensures
            r == spec_unpack(instruction_data@),
    {
        if instruction_data.len() == 0 {
            return Err(VisionError::InvalidInstruction);
        }
        let tag = instruction_data[0];
        let (_, rest) = instruction_data.split_at(1);
        if tag == 0 {
            Ok(VisionInstruction::Initialize())
        } else if tag == 1 || tag == 2 {
            let (amount_in, rest) = match Self::unpack_u64(rest) {
                Ok(v) => v,
                Err(e) => return Err(e),
            };
            assert(rest@ =~= instruction_data@.subrange(9, instruction_data@.len() as int));
            let (minimum_amount_out, _rest) = match Self::unpack_u64(rest) {
                Ok(v) => v,
                Err(e) => return Err(e),
            };
            assert(instruction_data@.subrange(1, 9) =~= instruction_data@.subrange(1, instruction_data@.len() as int).subrange(0, 8));
            assert(instruction_data@.subrange(9, 17) =~= instruction_data@.subrange(9, instruction_data@.len() as int).subrange(0, 8));
            let amount = Amount { amount_in, minimum_amount_out };
            if tag == 1 {
                Ok(VisionInstruction::Buy(amount))
            } else {
                Ok(VisionInstruction::Sell(amount))
            }
        } else if tag == 3 {
            let (fee, _rest) = match Self::unpack_u16(rest) {
                Ok(v) => v,
                Err(e) => return Err(e),
            };
            assert(instruction_data@.subrange(1, 3) =~= instruction_data@.subrange(1, instruction_data@.len() as int).subrange(0, 2));
            Ok(VisionInstruction::ChangeFee(Fee { fee }))
        } else {
            Err(VisionError::InvalidInstruction)
        }
    }

    /// Reads a little-endian u64 from the front of `input`, and returns it with the rest.
    pub fn unpack_u64(input: &[u8]) -> (r: Result<(u64, &[u8]), VisionError>)
        ensures
            input@.len() >= 8 ==> (r matches Ok((v, rest)) && v == spec_u64_from_le_bytes(input@.subrange(0, 8))
                && rest@ == input@.subrange(8, input@.len() as int)),
            input@.len() < 8 ==> r == Err::<(u64, &[u8]), VisionError>(VisionError::InvalidInstruction),
    {
        if input.len() >= 8 {
            let (amount, rest) = input.split_at(8);
            Ok((u64_from_le_bytes(amount), rest))
        } else {
            Err(VisionError::InvalidInstruction)
        }
    }

    /// Reads a little-endian u16 from the front of `input`, and returns it with the rest.
    pub fn unpack_u16(input: &[u8]) -> (r: Result<(u16, &[u8]), VisionError>)
        ensures
            input@.len() >= 2 ==> (r matches Ok((v, rest)) && v == spec_u16_from_le_bytes(input@.subrange(0, 2))
                && rest@ == input@.subrange(2, input@.len() as int)),
            input@.len() < 2 ==> r == Err::<(u16, &[u8]), VisionError>(VisionError::InvalidInstruction),
    {
        if input.len() >= 2 {
            let (amount, rest) = input.split_at(2);
            Ok((u16_from_le_bytes(amount), rest))
        } else {
            Err(VisionError::InvalidInstruction)
        }
    }
}

} // verus!
