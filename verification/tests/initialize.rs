use escrow::account::Account;
use escrow::authority::DerivedAuthority;
use escrow::error::ProgramError;
use escrow::processor::{Invocation, Processor, Settlement};
use escrow::pubkey::Pubkey;
use escrow::state::Escrow;
use escrow::token::{AccountMeta, Instruction};

fn key(fill: u8) -> Pubkey {
    Pubkey::new_from_array([fill; 32])
}

fn host_key(k: &Pubkey) -> solana_program::pubkey::Pubkey {
    solana_program::pubkey::Pubkey::new_from_array(k.to_bytes())
}

fn token_program() -> Pubkey {
    Pubkey::new_from_array(spl_token::id().to_bytes())
}

fn program_id() -> Pubkey {
    key(77)
}

fn account(k: Pubkey, is_signer: bool, lamports: u64, data: Vec<u8>, owner: Pubkey) -> Account {
    Account { key: k, is_signer, lamports, data, owner }
}

/// initializer, custody, receiving, record, permanence rule, token program
fn accounts() -> Vec<Account> {
    vec![
        account(key(1), true, 10_000, vec![], key(0)),
        account(key(2), false, 2_000, vec![7; 165], token_program()),
        account(key(3), false, 2_000, vec![8; 165], token_program()),
        account(key(4), false, 5_000, vec![0; 105], program_id()),
        account(key(5), false, 1, vec![1, 2, 3], key(0)),
        account(token_program(), false, 1, vec![], key(0)),
    ]
}

fn converted(ix: solana_program::instruction::Instruction) -> Instruction {
    Instruction {
        program_id: Pubkey::new_from_array(ix.program_id.to_bytes()),
        accounts: ix
            .accounts
            .iter()
            .map(|m| AccountMeta {
                pubkey: Pubkey::new_from_array(m.pubkey.to_bytes()),
                is_signer: m.is_signer,
                is_writable: m.is_writable,
            })
            .collect(),
        data: ix.data,
    }
}

fn refused(list: Vec<Account>, rent_minimum: Option<u64>, expected: ProgramError) {
    let mut given = list.clone();
    let result = Processor::process_init_escrow(&mut given, 1000, &program_id(), rent_minimum);
    assert_eq!(result, Err(expected));
    assert_eq!(given, list);
}

#[test]
fn initialize_writes_the_record() {
    let mut list = accounts();
    let result = Processor::process_init_escrow(&mut list, 1000, &program_id(), Some(5_000));
    assert!(result.is_ok());
    let record = Escrow::unpack(&list[3].data).unwrap();
    assert_eq!(
        record,
        Escrow {
            is_initialized: true,
            initializer_pubkey: key(1),
            tmp_token_account_pubkey: key(2),
            initializer_token_to_receive_account_pubkey: key(3),
            expected_amount: 1000,
        }
    );
}

#[test]
fn initialize_changes_only_the_data_of_the_record() {
    let before = accounts();
    let mut list = accounts();
    Processor::process_init_escrow(&mut list, 1000, &program_id(), Some(5_000)).unwrap();
    assert_eq!(list.len(), before.len());
    for i in [0usize, 1, 2, 4, 5] {
        assert_eq!(list[i], before[i]);
    }
    assert_eq!(list[3].key, before[3].key);
    assert_eq!(list[3].lamports, before[3].lamports);
    assert_eq!(list[3].owner, before[3].owner);
    assert_eq!(list[3].is_signer, before[3].is_signer);
    assert_eq!(list[3].data.len(), 105);
    assert_ne!(list[3].data, before[3].data);
}

#[test]
fn initialize_asks_for_the_hand_over_to_the_derived_authority() {
    let mut list = accounts();
    let invocation =
        Processor::process_init_escrow(&mut list, 1000, &program_id(), Some(5_000)).unwrap();
    let (pda, _bump) = solana_program::pubkey::Pubkey::find_program_address(
        &[b"escrow"],
        &host_key(&program_id()),
    );
    let initializer = host_key(&key(1));
    let expected = spl_token::instruction::set_authority(
        &spl_token::id(),
        &host_key(&key(2)),
        Some(&pda),
        spl_token::instruction::AuthorityType::AccountOwner,
        &initializer,
        &[&initializer],
    )
    .unwrap();
    assert_eq!(
        invocation,
        Invocation {
            instruction: converted(expected),
            accounts: vec![key(2), key(1), token_program()],
            signer_seeds: vec![],
        }
    );
}

#[test]
fn hand_over_instruction_has_the_documented_bytes() {
    let mut list = accounts();
    let invocation =
        Processor::process_init_escrow(&mut list, 1000, &program_id(), Some(5_000)).unwrap();
    let authority = DerivedAuthority::find(&program_id()).unwrap();
    let mut data = vec![6u8, 2, 1];
    data.extend_from_slice(&authority.address.to_bytes());
    assert_eq!(invocation.instruction.data, data);
    assert_eq!(invocation.instruction.program_id, token_program());
    assert_eq!(
        invocation.instruction.accounts,
        vec![
            AccountMeta { pubkey: key(2), is_signer: false, is_writable: true },
            AccountMeta { pubkey: key(1), is_signer: false, is_writable: false },
            AccountMeta { pubkey: key(1), is_signer: true, is_writable: false },
        ]
    );
}

#[test]
fn initialize_accepts_a_record_funded_exactly_at_the_threshold() {
    let mut list = accounts();
    list[3].lamports = 5_000;
    assert!(Processor::process_init_escrow(&mut list, 1, &program_id(), Some(5_000)).is_ok());
    let mut list = accounts();
    list[3].lamports = 0;
    assert!(Processor::process_init_escrow(&mut list, 1, &program_id(), Some(0)).is_ok());
}

#[test]
fn initialize_needs_accounts() {
    refused(vec![], Some(5_000), ProgramError::NotEnoughAccountKeys);
    for n in [1usize, 2, 3, 4, 5] {
        let mut list = accounts();
        list.truncate(n);
        refused(list, Some(5_000), ProgramError::NotEnoughAccountKeys);
    }
}

#[test]
fn initialize_needs_the_initializer_to_sign() {
    let mut list = accounts();
    list[0].is_signer = false;
    refused(list, Some(5_000), ProgramError::MissingRequiredSignature);
}

#[test]
fn missing_signature_comes_before_missing_accounts() {
    let mut list = accounts();
    list[0].is_signer = false;
    list.truncate(1);
    refused(list, Some(5_000), ProgramError::MissingRequiredSignature);
}

#[test]
fn initialize_needs_a_receiving_account_of_the_token_program() {
    let mut list = accounts();
    list[2].owner = key(99);
    refused(list, Some(5_000), ProgramError::IncorrectProgramId);
}

#[test]
fn initialize_needs_a_readable_permanence_rule() {
    refused(accounts(), None, ProgramError::InvalidArgument);
}

#[test]
fn initialize_on_an_underfunded_record_is_not_rent_exempt() {
    let mut list = accounts();
    list[3].lamports = 4_999;
    refused(list, Some(5_000), ProgramError::Custom(1));
    let mut list = accounts();
    list[3].lamports = 0;
    refused(list, Some(1), ProgramError::Custom(1));
    refused(accounts(), Some(u64::MAX), ProgramError::Custom(1));
}

#[test]
fn initialize_needs_a_record_of_105_bytes() {
    let mut list = accounts();
    list[3].data = vec![0; 104];
    refused(list, Some(5_000), ProgramError::InvalidAccountData);
    let mut list = accounts();
    list[3].data = vec![];
    refused(list, Some(5_000), ProgramError::InvalidAccountData);
}

#[test]
fn initialize_needs_a_record_with_a_flag_of_0_or_1() {
    let mut list = accounts();
    list[3].data[0] = 2;
    refused(list, Some(5_000), ProgramError::InvalidAccountData);
}

#[test]
fn initialize_on_an_initialized_record_is_refused() {
    let mut list = accounts();
    Processor::process_init_escrow(&mut list, 1000, &program_id(), Some(5_000)).unwrap();
    let after_first = list.clone();
    let second = Processor::process_init_escrow(&mut list, 2000, &program_id(), Some(5_000));
    assert_eq!(second, Err(ProgramError::AccountAlreadyInitialized));
    assert_eq!(list, after_first);
    assert_eq!(Escrow::unpack(&list[3].data).unwrap().expected_amount, 1000);
}

#[test]
fn initialize_without_a_derived_authority_is_refused() {
    let before = accounts();
    let mut list = accounts();
    let result = Processor::initialize(&mut list, 1000, Some(5_000), None);
    assert_eq!(result, Err(ProgramError::InvalidSeeds));
    assert_eq!(list, before);
}

#[test]
fn initialize_needs_the_token_program() {
    let mut list = accounts();
    list[5].key = key(50);
    refused(list, Some(5_000), ProgramError::IncorrectProgramId);
}

#[test]
fn initialize_under_a_given_authority_names_that_authority() {
    let authority = DerivedAuthority { address: key(200), bump_seed: 250 };
    let mut list = accounts();
    let invocation = Processor::initialize(&mut list, 9, Some(0), Some(authority)).unwrap();
    let mut data = vec![6u8, 2, 1];
    data.extend_from_slice(&[200u8; 32]);
    assert_eq!(invocation.instruction.data, data);
    assert_eq!(Escrow::unpack(&list[3].data).unwrap().expected_amount, 9);
}

#[test]
fn process_decodes_and_initializes() {
    let mut list = accounts();
    let data = [0u8, 0xE8, 0x03, 0, 0, 0, 0, 0, 0];
    let mut again = accounts();
    let direct =
        Processor::process_init_escrow(&mut again, 1000, &program_id(), Some(5_000)).unwrap();
    let result = Processor::process(&program_id(), &mut list, &data, Some(5_000));
    assert_eq!(result, Ok(Settlement::Initialized(direct)));
    assert_eq!(list, again);
}

#[test]
fn process_refuses_bytes_that_do_not_decode() {
    let before = accounts();
    let mut list = accounts();
    let result = Processor::process(&program_id(), &mut list, &[2, 0, 0, 0, 0, 0, 0, 0, 0], Some(5_000));
    assert_eq!(result, Err(ProgramError::Custom(0)));
    assert_eq!(list, before);
    let result = Processor::process(&program_id(), &mut list, &[], Some(5_000));
    assert_eq!(result, Err(ProgramError::Custom(0)));
    assert_eq!(list, before);
}

#[test]
fn process_under_a_given_authority_agrees_with_process() {
    let data = [0u8, 5, 0, 0, 0, 0, 0, 0, 0];
    let mut a = accounts();
    let mut b = accounts();
    let by_program = Processor::process(&program_id(), &mut a, &data, Some(5_000));
    let by_authority = Processor::process_under(
        DerivedAuthority::find(&program_id()),
        &mut b,
        &data,
        Some(5_000),
    );
    assert!(by_program.is_ok());
    assert_eq!(by_program, by_authority);
    assert_eq!(a, b);
}

#[test]
fn threshold_agrees_with_the_rule_of_the_host() {
    let rent = solana_program::rent::Rent::default();
    let minimum = rent.minimum_balance(105);
    for lamports in [0u64, 1, minimum - 1, minimum, minimum + 1, u64::MAX] {
        let mut list = accounts();
        list[3].lamports = lamports;
        let result = Processor::process_init_escrow(&mut list, 1000, &program_id(), Some(minimum));
        assert_eq!(result.is_ok(), rent.is_exempt(lamports, 105));
        if !rent.is_exempt(lamports, 105) {
            assert_eq!(result, Err(ProgramError::Custom(1)));
        }
    }
}

#[test]
fn account_of_an_instruction_is_made_of_its_parts() {
    let meta = AccountMeta::new([9; 32], true, false);
    assert_eq!(meta, AccountMeta { pubkey: key(9), is_signer: true, is_writable: false });
}
