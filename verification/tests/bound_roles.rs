use escrow::account::Account;
use escrow::authority::DerivedAuthority;
use escrow::error::ProgramError;
use escrow::init_escrow::{init_escrow, init_escrow_under, InitEscrow, SetAuthority};
use escrow::pubkey::Pubkey;
use escrow::state::Escrow;
use escrow::token::AuthorityType;

fn key(fill: u8) -> Pubkey {
    Pubkey::new_from_array([fill; 32])
}

fn token_program() -> Pubkey {
    Pubkey::new_from_array(anchor_spl::token::ID.to_bytes())
}

fn program_id() -> Pubkey {
    key(77)
}

fn account(k: Pubkey, is_signer: bool, owner: Pubkey) -> Account {
    Account { key: k, is_signer, lamports: 1_000, data: vec![], owner }
}

fn fresh() -> InitEscrow {
    InitEscrow {
        escrow: Escrow::unpack_unchecked(&[0u8; 105]).unwrap(),
        initializer: account(key(1), true, key(0)),
        tmp_token_account: account(key(2), false, token_program()),
        token_to_receive_account: account(key(3), false, token_program()),
        token_program: account(token_program(), false, key(0)),
    }
}

#[test]
fn bound_initialization_fills_the_record() {
    let mut accounts = fresh();
    let before = fresh();
    let result = init_escrow(&mut accounts, 1000, &program_id());
    assert!(result.is_ok());
    assert_eq!(
        accounts.escrow,
        Escrow {
            is_initialized: true,
            initializer_pubkey: key(1),
            tmp_token_account_pubkey: key(2),
            initializer_token_to_receive_account_pubkey: key(3),
            expected_amount: 1000,
        }
    );
    assert_eq!(accounts.initializer, before.initializer);
    assert_eq!(accounts.tmp_token_account, before.tmp_token_account);
    assert_eq!(accounts.token_to_receive_account, before.token_to_receive_account);
    assert_eq!(accounts.token_program, before.token_program);
}

#[test]
fn bound_initialization_hands_custody_to_the_derived_authority() {
    let mut accounts = fresh();
    let call = init_escrow(&mut accounts, 1000, &program_id()).unwrap();
    let (pda, _bump) = anchor_lang::prelude::Pubkey::find_program_address(
        &[b"escrow"],
        &anchor_lang::prelude::Pubkey::new_from_array([77; 32]),
    );
    assert_eq!(
        call,
        SetAuthority {
            current_authority: key(1),
            account_or_mint: key(2),
            authority_type: AuthorityType::AccountOwner,
            new_authority: Pubkey::new_from_array(pda.to_bytes()),
        }
    );
}

#[test]
fn bound_initialization_needs_a_receiving_account_of_the_token_program() {
    let mut accounts = fresh();
    accounts.token_to_receive_account.owner = key(9);
    let before = accounts.clone();
    assert_eq!(
        init_escrow(&mut accounts, 1000, &program_id()),
        Err(ProgramError::IncorrectProgramId)
    );
    assert_eq!(accounts, before);
}

#[test]
fn bound_initialization_happens_once() {
    let mut accounts = fresh();
    init_escrow(&mut accounts, 1000, &program_id()).unwrap();
    let after_first = accounts.clone();
    assert_eq!(
        init_escrow(&mut accounts, 5, &program_id()),
        Err(ProgramError::AccountAlreadyInitialized)
    );
    assert_eq!(accounts, after_first);
    assert_eq!(accounts.escrow.expected_amount, 1000);
}

#[test]
fn wrong_owner_comes_before_the_initialized_record() {
    let mut accounts = fresh();
    init_escrow(&mut accounts, 1000, &program_id()).unwrap();
    accounts.token_to_receive_account.owner = key(9);
    assert_eq!(
        init_escrow(&mut accounts, 5, &program_id()),
        Err(ProgramError::IncorrectProgramId)
    );
}

#[test]
fn bound_initialization_without_a_derived_authority_is_refused() {
    let mut accounts = fresh();
    let before = accounts.clone();
    assert_eq!(init_escrow_under(&mut accounts, 1000, None), Err(ProgramError::InvalidSeeds));
    assert_eq!(accounts, before);
}

#[test]
fn bound_initialization_under_a_given_authority_names_it() {
    let mut accounts = fresh();
    let authority = DerivedAuthority { address: key(200), bump_seed: 254 };
    let call = init_escrow_under(&mut accounts, u64::MAX, Some(authority)).unwrap();
    assert_eq!(call.new_authority, key(200));
    assert_eq!(accounts.escrow.expected_amount, u64::MAX);
    assert!(accounts.escrow.is_initialized());
}
