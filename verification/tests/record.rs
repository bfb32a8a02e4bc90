use escrow::error::ProgramError;
use escrow::pubkey::Pubkey;
use escrow::state::{Escrow, ESCROW_LEN};

fn key(fill: u8) -> Pubkey {
    let mut bytes = [fill; 32];
    bytes[0] = fill.wrapping_add(1);
    bytes[31] = fill.wrapping_add(2);
    Pubkey::new_from_array(bytes)
}

fn sample() -> Escrow {
    Escrow {
        is_initialized: true,
        initializer_pubkey: key(10),
        tmp_token_account_pubkey: key(20),
        initializer_token_to_receive_account_pubkey: key(30),
        expected_amount: 1000,
    }
}

#[test]
fn record_has_105_bytes() {
    assert_eq!(ESCROW_LEN, 105);
    assert_eq!(Escrow::LEN, 105);
    assert_eq!(sample().to_bytes().len(), 105);
}

#[test]
fn record_layout_is_flag_three_keys_amount() {
    let bytes = sample().to_bytes();
    assert_eq!(bytes[0], 1);
    assert_eq!(&bytes[1..33], &key(10).to_bytes()[..]);
    assert_eq!(&bytes[33..65], &key(20).to_bytes()[..]);
    assert_eq!(&bytes[65..97], &key(30).to_bytes()[..]);
    assert_eq!(&bytes[97..105], &[0xE8, 0x03, 0, 0, 0, 0, 0, 0]);
}

#[test]
fn record_round_trips() {
    let record = sample();
    let bytes = record.to_bytes();
    assert_eq!(Escrow::unpack(&bytes), Ok(record));
    assert_eq!(Escrow::unpack_unchecked(&bytes), Ok(record));
    assert_eq!(Escrow::unpack_from_slice(&bytes), Ok(record));
    assert_eq!(Escrow::unpack(&bytes).unwrap().to_bytes(), bytes);
}

#[test]
fn zeroed_record_reads_unchecked_as_uninitialized() {
    let zeroes = [0u8; 105];
    let record = Escrow::unpack_unchecked(&zeroes).unwrap();
    assert!(!record.is_initialized());
    assert!(!record.is_initialized);
    assert_eq!(record.initializer_pubkey, Pubkey::new_from_array([0; 32]));
    assert_eq!(record.tmp_token_account_pubkey, Pubkey::new_from_array([0; 32]));
    assert_eq!(
        record.initializer_token_to_receive_account_pubkey,
        Pubkey::new_from_array([0; 32])
    );
    assert_eq!(record.expected_amount, 0);
}

#[test]
fn zeroed_record_is_no_live_trade() {
    let zeroes = [0u8; 105];
    assert_eq!(Escrow::unpack(&zeroes), Err(ProgramError::UninitializedAccount));
}

#[test]
fn record_of_wrong_length_is_refused() {
    assert_eq!(Escrow::unpack(&[1u8; 104]), Err(ProgramError::InvalidAccountData));
    assert_eq!(Escrow::unpack(&[1u8; 106]), Err(ProgramError::InvalidAccountData));
    assert_eq!(Escrow::unpack(&[]), Err(ProgramError::InvalidAccountData));
    assert_eq!(Escrow::unpack_unchecked(&[0u8; 104]), Err(ProgramError::InvalidAccountData));
    assert_eq!(Escrow::unpack_unchecked(&[]), Err(ProgramError::InvalidAccountData));
}

#[test]
fn record_with_bad_flag_is_refused() {
    let mut bytes = sample().to_bytes();
    bytes[0] = 2;
    assert_eq!(Escrow::unpack(&bytes), Err(ProgramError::InvalidAccountData));
    assert_eq!(Escrow::unpack_unchecked(&bytes), Err(ProgramError::InvalidAccountData));
}

#[test]
fn pack_writes_over_a_buffer_of_the_right_length() {
    let record = sample();
    let mut dst = vec![0xAAu8; 105];
    assert_eq!(Escrow::pack(record, &mut dst), Ok(()));
    assert_eq!(dst, record.to_bytes());
}

#[test]
fn pack_leaves_a_buffer_of_wrong_length_alone() {
    let mut dst = vec![0xAAu8; 104];
    assert_eq!(Escrow::pack(sample(), &mut dst), Err(ProgramError::InvalidAccountData));
    assert_eq!(dst, vec![0xAAu8; 104]);
    let mut empty: Vec<u8> = Vec::new();
    assert_eq!(Escrow::pack(sample(), &mut empty), Err(ProgramError::InvalidAccountData));
    assert!(empty.is_empty());
}

#[test]
fn record_keeps_the_largest_amount() {
    let mut record = sample();
    record.expected_amount = u64::MAX;
    let bytes = record.to_bytes();
    assert_eq!(&bytes[97..105], &[0xFF; 8]);
    assert_eq!(Escrow::unpack(&bytes), Ok(record));
}

#[test]
fn keys_are_read_and_written_in_place() {
    let mut src = vec![0u8; 40];
    for (i, b) in src.iter_mut().enumerate() {
        *b = i as u8;
    }
    let k = Pubkey::read(&src, 5);
    assert_eq!(&k.to_bytes()[..], &src[5..37]);
    let mut out = vec![9u8];
    k.write(&mut out);
    assert_eq!(out.len(), 33);
    assert_eq!(&out[1..], &src[5..37]);
    assert!(k == Pubkey::new_from_array(k.to_bytes()));
    assert!(k != key(1));
}
