//! Error kinds, each with a stable numeric code.

use vstd::prelude::*;

verus! {

/// Every way an instruction can fail. The whole invocation is aborted on any of them.
#[derive(Clone, Copy, Debug, PartialEq, Eq, Structural)]
pub enum VisionError {
    /// A required signature is missing.
    SignatureRequired,
    /// An account that is to be created already holds a balance.
    AlreadyInUse,
    /// An account's address is not the one it must be.
    InvalidAccountAddress,
    /// A program account is not the expected program.
    InvalidProgramAddress,
    /// An account is owned by the wrong program.
    InvalidAccountOwnerProgram,
    /// The output of a swap is below the caller's minimum.
    ExceededSlippage,
    /// The token descriptor is uninitialized or not controlled by the pool.
    InvalidMint,
    /// Invalid user input.
    InvalidInput,
    /// A sale would draw the reserve below its bootstrap collateral.
    ReserveError,
    /// The payer does not hold enough to pay.
    BalanceTooSmall,
    /// The instruction bytes do not decode.
    InvalidInstruction,
    /// An integer addition or subtraction left its range.
    Overflow,
    /// A fee outside `0..=50000`.
    InvalidFee,
    /// The fee collector did not sign.
    InvalidFeeAccount,
    /// A pool record does not decode.
    InvalidAccountData,
    /// A pool record is not initialized.
    UninitializedAccount,
}

impl VisionError {
    /// The stable code of each kind: its position in the declaration.
    pub open spec fn spec_code(self) -> u32 {
        match self {
            VisionError::SignatureRequired => 0,
            VisionError::AlreadyInUse => 1,
            VisionError::InvalidAccountAddress => 2,
            VisionError::InvalidProgramAddress => 3,
            VisionError::InvalidAccountOwnerProgram => 4,
            VisionError::ExceededSlippage => 5,
            VisionError::InvalidMint => 6,
            VisionError::InvalidInput => 7,
            VisionError::ReserveError => 8,
            VisionError::BalanceTooSmall => 9,
            VisionError::InvalidInstruction => 10,
            VisionError::Overflow => 11,
            VisionError::InvalidFee => 12,
            VisionError::InvalidFeeAccount => 13,
            VisionError::InvalidAccountData => 14,
            VisionError::UninitializedAccount => 15,
        }
    }

    /// The code under which the host reports this error.
    pub fn code(&self) -> (r: u32)
        ensures
            r == self.spec_code(),
    {
        match self {
            VisionError::SignatureRequired => 0,
            VisionError::AlreadyInUse => 1,
            VisionError::InvalidAccountAddress => 2,
            VisionError::InvalidProgramAddress => 3,
            VisionError::InvalidAccountOwnerProgram => 4,
            VisionError::ExceededSlippage => 5,
            VisionError::InvalidMint => 6,
            VisionError::InvalidInput => 7,
            VisionError::ReserveError => 8,
            VisionError::BalanceTooSmall => 9,
            VisionError::InvalidInstruction => 10,
            VisionError::Overflow => 11,
            VisionError::InvalidFee => 12,
            VisionError::InvalidFeeAccount => 13,
            VisionError::InvalidAccountData => 14,
            VisionError::UninitializedAccount => 15,
        }
    }

    /// A human-readable description of the error.
    pub fn message(&self) -> &'static str {
        match self {
            VisionError::SignatureRequired => "Error: Submitted Transaction is missing a signature",
            VisionError::AlreadyInUse => "Error: Keypair already in use",
            VisionError::InvalidAccountAddress => "Error: Invalid Account Address Provided",
            VisionError::InvalidProgramAddress => "Error: Invalid program id",
            VisionError::InvalidAccountOwnerProgram => "Error: Invalid Account Owner Program",
            VisionError::ExceededSlippage => "Error: Swap instruction exceeds desired slippage limit",
            VisionError::InvalidMint => "Error: Invalid Mint",
            VisionError::InvalidInput => "Error: Invalid User Input",
            VisionError::ReserveError => "Error: Reserve error",
            VisionError::BalanceTooSmall => "Error: Balance too small",
            VisionError::InvalidInstruction => "Error: Invalid instruction",
            VisionError::Overflow => "Error: Arithmetic overflow",
            VisionError::InvalidFee => "Error: Fee out of range",
            VisionError::InvalidFeeAccount => "Error: Fee collector must sign",
            VisionError::InvalidAccountData => "Error: Invalid account data",
            VisionError::UninitializedAccount => "Error: Account not initialized",
        }
    }
}

} // verus!
