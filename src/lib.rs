//! A bonding-curve market maker: decoding of instructions and pool records,
//! validation of every account reference, fee and reserve arithmetic, and the
//! ordered list of ledger operations that settles each instruction.

pub mod address;
pub mod error;
pub mod instruction;
pub mod state;
pub mod pricing;
pub mod accounts;
pub mod processor;
pub mod laws;
pub mod token;
