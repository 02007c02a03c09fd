//! Errors of the authorization program.

use vstd::prelude::*;

verus! {

/// Why the authorization program rejected an instruction. Every rejection
/// leaves all accounts exactly as they were.
#[derive(Clone, Copy, Debug, PartialEq, Eq, Structural)]
pub enum ProgramError {
    /// Unknown tag byte or truncated payload.
    InvalidInstructionData,
    /// The account list is shorter than the instruction needs.
    NotEnoughAccountKeys,
    /// An account that must sign did not.
    MissingRequiredSignature,
    /// The signer is not the configured authorized server.
    IllegalOwner,
    /// Account data does not have the expected layout.
    InvalidAccountData,
    /// The derived signing authority cannot be derived, or the account passed
    /// for it is another one.
    InvalidSeeds,
    /// The wallet was served less than `cooldown_seconds` ago.
    CooldownActive,
    /// The underlying asset-issuance call failed.
    IssuanceFailed,
}

/// The numeric code of each error; the cooldown rejection is code 0.
pub open spec fn error_code(e: ProgramError) -> u32 {
    match e {
        ProgramError::CooldownActive => 0,
        ProgramError::InvalidInstructionData => 1,
        ProgramError::NotEnoughAccountKeys => 2,
        ProgramError::MissingRequiredSignature => 3,
        ProgramError::IllegalOwner => 4,
        ProgramError::InvalidAccountData => 5,
        ProgramError::InvalidSeeds => 6,
        ProgramError::IssuanceFailed => 7,
    }
}

impl ProgramError {
    /// The numeric code the ledger reports for this error.
    pub fn code(&self) -> (r: u32)
        ensures
            r == error_code(*self),
    {
        match self {
            ProgramError::CooldownActive => 0,
            ProgramError::InvalidInstructionData => 1,
            ProgramError::NotEnoughAccountKeys => 2,
            ProgramError::MissingRequiredSignature => 3,
            ProgramError::IllegalOwner => 4,
            ProgramError::InvalidAccountData => 5,
            ProgramError::InvalidSeeds => 6,
            ProgramError::IssuanceFailed => 7,
        }
    }
}

} // verus!
