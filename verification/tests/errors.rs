use escrow::error::{EscrowError, ProgramError};

#[test]
fn escrow_failures_reach_the_host_by_number() {
    assert_eq!(ProgramError::from(EscrowError::InvalidInstruction), ProgramError::Custom(0));
    assert_eq!(ProgramError::from(EscrowError::NotRentExempt), ProgramError::Custom(1));
    assert_eq!(ProgramError::from(EscrowError::ExpectedAmountMismatch), ProgramError::Custom(2));
    assert_eq!(ProgramError::from(EscrowError::AmountOverflow), ProgramError::Custom(3));
}

#[test]
fn escrow_failure_codes_are_positions() {
    assert_eq!(EscrowError::InvalidInstruction.code(), 0);
    assert_eq!(EscrowError::NotRentExempt.code(), 1);
    assert_eq!(EscrowError::ExpectedAmountMismatch.code(), 2);
    assert_eq!(EscrowError::AmountOverflow.code(), 3);
}

#[test]
fn escrow_failures_describe_themselves() {
    assert_eq!(EscrowError::InvalidInstruction.message(), "Invalid Instruction");
    assert_eq!(EscrowError::NotRentExempt.message(), "Not Rent Exempt");
    assert_eq!(EscrowError::ExpectedAmountMismatch.message(), "Expected Amount Mismatch");
    assert_eq!(EscrowError::AmountOverflow.message(), "Amount Overflow");
}

#[test]
fn escrow_failures_convert_as_the_host_library_numbers_them() {
    let all = [
        EscrowError::InvalidInstruction,
        EscrowError::NotRentExempt,
        EscrowError::ExpectedAmountMismatch,
        EscrowError::AmountOverflow,
    ];
    for e in all {
        let host = solana_program::program_error::ProgramError::Custom(e.code());
        match ProgramError::from(e) {
            ProgramError::Custom(code) => {
                assert_eq!(solana_program::program_error::ProgramError::Custom(code), host)
            }
            other => panic!("not a custom failure: {:?}", other),
        }
    }
}
