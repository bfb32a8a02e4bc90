//! Failures of the escrow program and how they reach the host.

use vstd::prelude::*;

verus! {

/// Failures that are specific to the escrow program.
#[derive(Debug, Clone, Copy, PartialEq, Eq, Structural)]
pub enum EscrowError {
    /// The instruction bytes do not decode.
    InvalidInstruction,
    /// The escrow record is funded below the host's permanence threshold.
    NotRentExempt,
    /// The amount the taker expects is not what the custody account holds.
    ExpectedAmountMismatch,
    /// Crediting the record's native balance would overflow.
    AmountOverflow,
}

impl EscrowError {
    /// The number under which the host reports this failure: the position
    /// of the variant in the declaration.
    pub open spec fn code_spec(self) -> u32 {
        match self {
            EscrowError::InvalidInstruction => 0,
            EscrowError::NotRentExempt => 1,
            EscrowError::ExpectedAmountMismatch => 2,
            EscrowError::AmountOverflow => 3,
        }
    }

    /// The number under which the host reports this failure.
    pub fn code(self) -> (c: u32)
        ensures
            c == self.code_spec(),
    {
        match self {
            EscrowError::InvalidInstruction => 0,
            EscrowError::NotRentExempt => 1,
            EscrowError::ExpectedAmountMismatch => 2,
            EscrowError::AmountOverflow => 3,
        }
    }

    /// The text that describes this failure.
    pub fn message(self) -> (text: &'static str)
        ensures
            text@ == match self {
                EscrowError::InvalidInstruction => "Invalid Instruction"@,
                EscrowError::NotRentExempt => "Not Rent Exempt"@,
                EscrowError::ExpectedAmountMismatch => "Expected Amount Mismatch"@,
                EscrowError::AmountOverflow => "Amount Overflow"@,
            },
    {
        match self {
            EscrowError::InvalidInstruction => "Invalid Instruction",
            EscrowError::NotRentExempt => "Not Rent Exempt",
            EscrowError::ExpectedAmountMismatch => "Expected Amount Mismatch",
            EscrowError::AmountOverflow => "Amount Overflow",
        }
    }
}

/// The failures that an instruction can end in, in the host's vocabulary.
#[derive(Debug, Clone, Copy, PartialEq, Eq, Structural)]
pub enum ProgramError {
    /// A failure of the program's own, by its number.
    Custom(u32),
    /// What was handed to the program is not what it stands for.
    InvalidArgument,
    /// An account's data does not have the expected content.
    InvalidAccountData,
    /// An account is not owned by, or is not, the expected program.
    IncorrectProgramId,
    /// An account that has to authorize the instruction did not sign.
    MissingRequiredSignature,
    /// The record to initialize already holds a trade.
    AccountAlreadyInitialized,
    /// The account read holds no initialized state.
    UninitializedAccount,
    /// The account list is shorter than the instruction needs.
    NotEnoughAccountKeys,
    /// No address can be derived from the seeds for this program.
    InvalidSeeds,
}

/// A failure of the escrow program as the host sees it: the `Custom`
/// failure that carries the failure's number.
pub open spec fn escrow_failure(e: EscrowError) -> ProgramError {
    ProgramError::Custom(e.code_spec())
}

impl From<EscrowError> for ProgramError {
    fn from(e: EscrowError) -> (r: ProgramError) {
        ProgramError::Custom(e.code())
    }
}

impl vstd::std_specs::convert::FromSpecImpl<EscrowError> for ProgramError {
    open spec fn obeys_from_spec() -> bool {
        true
    }

    open spec fn from_spec(e: EscrowError) -> ProgramError {
        escrow_failure(e)
    }
}

} // verus!
