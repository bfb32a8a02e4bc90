use escrow::error::{EscrowError, ProgramError};
use escrow::instruction::EscrowInstruction;

#[test]
fn decodes_initialize_with_amount_1000() {
    let bytes = [0u8, 0xE8, 0x03, 0, 0, 0, 0, 0, 0];
    assert_eq!(
        EscrowInstruction::unpack(&bytes),
        Ok(EscrowInstruction::InitEscrow { amount: 1000 })
    );
}

#[test]
fn decodes_exchange_with_amount_500() {
    let bytes = [1u8, 0xF4, 0x01, 0, 0, 0, 0, 0, 0];
    assert_eq!(
        EscrowInstruction::unpack(&bytes),
        Ok(EscrowInstruction::Exchange { amount: 500 })
    );
}

#[test]
fn rejects_unknown_tag() {
    let bytes = [2u8, 1, 2, 3, 4, 5, 6, 7, 8];
    assert_eq!(EscrowInstruction::unpack(&bytes), Err(ProgramError::Custom(0)));
    let bytes = [255u8, 0, 0, 0, 0, 0, 0, 0, 0];
    assert_eq!(EscrowInstruction::unpack(&bytes), Err(ProgramError::Custom(0)));
}

#[test]
fn rejects_short_amount() {
    let bytes = [1u8, 1, 2, 3, 4, 5, 6, 7];
    assert_eq!(EscrowInstruction::unpack(&bytes), Err(ProgramError::Custom(0)));
    assert_eq!(EscrowInstruction::unpack(&[0u8]), Err(ProgramError::Custom(0)));
}

#[test]
fn rejects_empty_input() {
    assert_eq!(
        EscrowInstruction::unpack(&[]),
        Err(ProgramError::from(EscrowError::InvalidInstruction))
    );
}

#[test]
fn ignores_bytes_after_the_amount() {
    let exact = [0u8, 1, 2, 3, 4, 5, 6, 7, 8];
    let longer = [0u8, 1, 2, 3, 4, 5, 6, 7, 8, 0xAA, 0xBB];
    assert_eq!(EscrowInstruction::unpack(&longer), EscrowInstruction::unpack(&exact));
    assert_eq!(
        EscrowInstruction::unpack(&longer),
        Ok(EscrowInstruction::InitEscrow { amount: 0x0807_0605_0403_0201 })
    );
}

#[test]
fn amount_is_read_least_significant_byte_first() {
    assert_eq!(EscrowInstruction::unpack_amount(&[1, 0, 0, 0, 0, 0, 0, 0]), Ok(1));
    assert_eq!(EscrowInstruction::unpack_amount(&[0, 1, 0, 0, 0, 0, 0, 0]), Ok(256));
    assert_eq!(
        EscrowInstruction::unpack_amount(&[0, 0, 0, 0, 0, 0, 0, 0x80]),
        Ok(1u64 << 63)
    );
    assert_eq!(EscrowInstruction::unpack_amount(&[0xFF; 8]), Ok(u64::MAX));
    assert_eq!(EscrowInstruction::unpack_amount(&[0xFF; 7]), Err(ProgramError::Custom(0)));
    assert_eq!(EscrowInstruction::unpack_amount(&[]), Err(ProgramError::Custom(0)));
}

#[test]
fn amount_agrees_with_the_standard_decoding() {
    let samples: [u64; 6] = [0, 1, 1000, 0x0123_4567_89AB_CDEF, u64::MAX - 1, u64::MAX];
    for x in samples {
        assert_eq!(EscrowInstruction::unpack_amount(&x.to_le_bytes()), Ok(x));
        let mut out = Vec::new();
        escrow::bytes::write_u64_le(&mut out, x);
        assert_eq!(out, x.to_le_bytes().to_vec());
        assert_eq!(escrow::bytes::read_u64_le(&out, 0), x);
    }
}
