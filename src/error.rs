use vstd::prelude::*;
use anchor_lang::solana_program::program_error::ProgramError;

verus! {

/// The failures this program raises itself.
#[derive(Clone, Copy, Debug, PartialEq, Eq, Structural)]
pub enum ErrorCode {
    /// The deposited amount must be greater than zero.
    InvalidAmount,
    /// The new balance would not fit in 64 bits.
    MathOverflow,
}

/// Why an instruction failed.
#[derive(Debug)]
pub enum InstructionError {
    /// A failure of this program's own rules.
    Program(ErrorCode),
    /// The record slot handed in is not at the address derived from the user.
    ConstraintSeeds,
    /// The record slot handed in holds no record.
    AccountNotInitialized,
    /// The host rejected the lamport transfer.
    Transfer(ProgramError),
}

#[verifier::external_type_specification]
#[verifier::external_body]
pub struct ExProgramError(ProgramError);

impl ErrorCode {
    /// The human-readable message of this error.
    pub fn message(&self) -> (r: &'static str)
        ensures
            *self == ErrorCode::InvalidAmount ==> r@ == "The deposited amount must be greater than zero."@,
            *self == ErrorCode::MathOverflow ==> r@ == "Math overflow occurred."@,
    {
        match self {
            ErrorCode::InvalidAmount => "The deposited amount must be greater than zero.",
            ErrorCode::MathOverflow => "Math overflow occurred.",
        }
    }
}

} // verus!
