//! The two handlers of the escrow program. A handler checks every account
//! that the caller supplied against its role before anything moves, and
//! then says what the host has to carry out.

use vstd::prelude::*;
use crate::account::{account_at, Account, AccountView};
use crate::authority::{authority_view, escrow_authority, signer_seeds_spec};
use crate::authority::{DerivedAuthority, DerivedAuthorityView};
use crate::error::{escrow_failure, EscrowError, ProgramError};
use crate::instruction::EscrowInstruction;
use crate::pubkey::Pubkey;
use crate::state::{pack_spec, unpack_spec, unpack_unchecked_spec, Escrow, EscrowView};
use crate::token::{close_account, set_authority, token_account_amount, token_program_id, transfer};
use crate::token::{close_account_spec, set_authority_spec, token_account_amount_spec};
use crate::token::{token_program_id_spec, transfer_spec};
use crate::token::{AuthorityType, Instruction, InstructionView};

verus! {

/// A call of another program that the host has to make for the escrow.
#[derive(Debug, Clone, PartialEq, Eq)]
pub struct Invocation {
    /// The instruction to hand to the other program.
    pub instruction: Instruction,
    /// The accounts to hand over with it, by their identities.
    pub accounts: Vec<Pubkey>,
    /// The seeds of the derived authority, where the call is made in its
    /// name; empty where the caller's own signature authorizes the call.
    pub signer_seeds: Vec<Vec<u8>>,
}

/// A call of another program as plain values.
pub struct InvocationView {
    pub instruction: InstructionView,
    pub accounts: Seq<Seq<u8>>,
    pub signer_seeds: Seq<Seq<u8>>,
}

impl View for Invocation {
    type V = InvocationView;

    open spec fn view(&self) -> InvocationView {
        InvocationView {
            instruction: self.instruction@,
            accounts: self.accounts.deep_view(),
            signer_seeds: self.signer_seeds.deep_view(),
        }
    }
}

/// The three calls that settle a trade, in the order in which the host has
/// to make them.
#[derive(Debug, Clone, PartialEq, Eq)]
pub struct ExchangePlan {
    /// Pays the initializer out of the taker's account.
    pub pay_initializer: Invocation,
    /// Hands the escrowed asset to the taker.
    pub release_custody: Invocation,
    /// Closes the custody account and returns its deposit.
    pub close_custody: Invocation,
}

/// The calls that settle a trade as plain values.
pub struct ExchangePlanView {
    pub pay_initializer: InvocationView,
    pub release_custody: InvocationView,
    pub close_custody: InvocationView,
}

impl View for ExchangePlan {
    type V = ExchangePlanView;

    open spec fn view(&self) -> ExchangePlanView {
        ExchangePlanView {
            pay_initializer: self.pay_initializer@,
            release_custody: self.release_custody@,
            close_custody: self.close_custody@,
        }
    }
}

/// What a `Result` of a plan says as plain values.
pub open spec fn plan_view(r: Result<ExchangePlan, ProgramError>) -> Result<
    ExchangePlanView,
    ProgramError,
> {
    match r {
        Ok(plan) => Ok(plan@),
        Err(e) => Err(e),
    }
}

/// What a `Result` of a call says as plain values.
pub open spec fn invocation_view(r: Result<Invocation, ProgramError>) -> Result<
    InvocationView,
    ProgramError,
> {
    match r {
        Ok(invocation) => Ok(invocation@),
        Err(e) => Err(e),
    }
}

/// Why an initialization is refused, if it is: the first of its checks
/// that fails, in the order in which the accounts are looked at.
///
/// The accounts are, by position: the initializer, the custody account,
/// the initializer's receiving account, the escrow record, the host's
/// permanence rule, the token program. `rent_minimum` is the balance that
/// the rule asks of a record, where the rule could be read.
pub open spec fn initialize_failure(
    accounts: Seq<AccountView>,
    rent_minimum: Option<u64>,
    authority: Option<DerivedAuthorityView>,
) -> Option<ProgramError> {
    if accounts.len() < 1 {
        Some(ProgramError::NotEnoughAccountKeys)
    } else if !accounts[0].is_signer {
        Some(ProgramError::MissingRequiredSignature)
    } else if accounts.len() < 3 {
        Some(ProgramError::NotEnoughAccountKeys)
    } else if accounts[2].owner != token_program_id_spec() {
        Some(ProgramError::IncorrectProgramId)
    } else if accounts.len() < 5 {
        Some(ProgramError::NotEnoughAccountKeys)
    } else if rent_minimum is None {
        Some(ProgramError::InvalidArgument)
    } else if accounts[3].lamports < rent_minimum->Some_0 {
        Some(escrow_failure(EscrowError::NotRentExempt))
    } else if unpack_unchecked_spec(accounts[3].data) is Err {
        Some(unpack_unchecked_spec(accounts[3].data)->Err_0)
    } else if unpack_unchecked_spec(accounts[3].data)->Ok_0.is_initialized {
        Some(ProgramError::AccountAlreadyInitialized)
    } else if authority is None {
        Some(ProgramError::InvalidSeeds)
    } else if accounts.len() < 6 {
        Some(ProgramError::NotEnoughAccountKeys)
    } else if accounts[5].key != token_program_id_spec() {
        Some(ProgramError::IncorrectProgramId)
    } else {
        None
    }
}

/// The record that an initialization writes: a live trade between the
/// supplied accounts, for the supplied amount.
pub open spec fn initialized_record(accounts: Seq<AccountView>, amount: u64) -> EscrowView {
    EscrowView {
        is_initialized: true,
        initializer_pubkey: accounts[0].key,
        tmp_token_account_pubkey: accounts[1].key,
        initializer_token_to_receive_account_pubkey: accounts[2].key,
        expected_amount: amount,
    }
}

/// The call that ends an initialization: the token program makes the
/// derived authority the owner of the custody account, which the
/// initializer authorizes.
pub open spec fn initialize_invocation(
    accounts: Seq<AccountView>,
    authority: DerivedAuthorityView,
) -> InvocationView {
    InvocationView {
        instruction: set_authority_spec(
            accounts[5].key,
            accounts[1].key,
            authority.address,
            AuthorityType::AccountOwner,
            accounts[0].key,
            accounts[0].key,
        )->Some_0,
        accounts: seq![accounts[1].key, accounts[0].key, accounts[5].key],
        signer_seeds: Seq::empty(),
    }
}

/// The accounts after an initialization that is not refused: the escrow
/// record holds the new trade, and nothing else has changed.
pub open spec fn initialized_accounts(accounts: Seq<AccountView>, amount: u64) -> Seq<AccountView> {
    accounts.update(
        3,
        AccountView { data: pack_spec(initialized_record(accounts, amount)), ..accounts[3] },
    )
}

/// What an initialization comes to: the failure, or the call that hands
/// over the custody account.
pub open spec fn initialize_spec(
    accounts: Seq<AccountView>,
    rent_minimum: Option<u64>,
    authority: Option<DerivedAuthorityView>,
) -> Result<InvocationView, ProgramError> {
    match initialize_failure(accounts, rent_minimum, authority) {
        Some(e) => Err(e),
        None => Ok(initialize_invocation(accounts, authority->Some_0)),
    }
}

/// The accounts after an initialization: with the new trade in the escrow
/// record where it is not refused, and else as they were.
pub open spec fn accounts_after_initialize(
    accounts: Seq<AccountView>,
    amount: u64,
    rent_minimum: Option<u64>,
    authority: Option<DerivedAuthorityView>,
) -> Seq<AccountView> {
    if initialize_failure(accounts, rent_minimum, authority) is None {
        initialized_accounts(accounts, amount)
    } else {
        accounts
    }
}

/// Why an exchange is refused, if it is: the first of its checks that
/// fails, in the order in which the accounts are looked at.
///
/// The accounts are, by position: the taker, the taker's sending account,
/// the taker's receiving account, the custody account, the initializer's
/// main account, the initializer's receiving account, the escrow record,
/// the token program, the derived authority.
pub open spec fn exchange_failure(
    accounts: Seq<AccountView>,
    amount_expected_by_taker: u64,
    authority: Option<DerivedAuthorityView>,
) -> Option<ProgramError> {
    if accounts.len() < 1 {
        Some(ProgramError::NotEnoughAccountKeys)
    } else if !accounts[0].is_signer {
        Some(ProgramError::MissingRequiredSignature)
    } else if accounts.len() < 4 {
        Some(ProgramError::NotEnoughAccountKeys)
    } else if token_account_amount_spec(accounts[3].data) is Err {
        Some(token_account_amount_spec(accounts[3].data)->Err_0)
    } else if authority is None {
        Some(ProgramError::InvalidSeeds)
    } else if amount_expected_by_taker != token_account_amount_spec(accounts[3].data)->Ok_0 {
        Some(escrow_failure(EscrowError::ExpectedAmountMismatch))
    } else if accounts.len() < 7 {
        Some(ProgramError::NotEnoughAccountKeys)
    } else if unpack_spec(accounts[6].data) is Err {
        Some(unpack_spec(accounts[6].data)->Err_0)
    } else if unpack_spec(accounts[6].data)->Ok_0.tmp_token_account_pubkey != accounts[3].key
        || unpack_spec(accounts[6].data)->Ok_0.initializer_pubkey != accounts[4].key
        || unpack_spec(accounts[6].data)->Ok_0.initializer_token_to_receive_account_pubkey
        != accounts[5].key {
        Some(ProgramError::InvalidAccountData)
    } else if accounts.len() < 8 {
        Some(ProgramError::NotEnoughAccountKeys)
    } else if accounts[7].key != token_program_id_spec() {
        Some(ProgramError::IncorrectProgramId)
    } else if accounts.len() < 9 {
        Some(ProgramError::NotEnoughAccountKeys)
    } else {
        None
    }
}

/// The accounts of an exchange by their roles, with what the record and
/// the custody account say.
#[derive(Debug, Clone, Copy, PartialEq, Eq)]
pub struct ExchangeRoles {
    pub taker: Pubkey,
    pub takers_sending_account: Pubkey,
    pub takers_receiving_account: Pubkey,
    pub custody_account: Pubkey,
    pub initializer: Pubkey,
    pub initializers_receiving_account: Pubkey,
    pub escrow_account: Pubkey,
    pub token_program: Pubkey,
    pub authority_account: Pubkey,
    /// The derived authority of the program.
    pub authority: DerivedAuthority,
    /// The amount that the record demands for the initializer.
    pub expected_amount: u64,
    /// The balance of the custody account.
    pub custody_amount: u64,
}

/// The roles of an exchange as plain values.
pub struct ExchangeRolesView {
    pub taker: Seq<u8>,
    pub takers_sending_account: Seq<u8>,
    pub takers_receiving_account: Seq<u8>,
    pub custody_account: Seq<u8>,
    pub initializer: Seq<u8>,
    pub initializers_receiving_account: Seq<u8>,
    pub escrow_account: Seq<u8>,
    pub token_program: Seq<u8>,
    pub authority_account: Seq<u8>,
    pub authority: DerivedAuthorityView,
    pub expected_amount: u64,
    pub custody_amount: u64,
}

impl View for ExchangeRoles {
    type V = ExchangeRolesView;

    open spec fn view(&self) -> ExchangeRolesView {
        ExchangeRolesView {
            taker: self.taker@,
            takers_sending_account: self.takers_sending_account@,
            takers_receiving_account: self.takers_receiving_account@,
            custody_account: self.custody_account@,
            initializer: self.initializer@,
            initializers_receiving_account: self.initializers_receiving_account@,
            escrow_account: self.escrow_account@,
            token_program: self.token_program@,
            authority_account: self.authority_account@,
            authority: self.authority@,
            expected_amount: self.expected_amount,
            custody_amount: self.custody_amount,
        }
    }
}

/// What a `Result` of roles says as plain values.
pub open spec fn roles_view(r: Result<ExchangeRoles, ProgramError>) -> Result<
    ExchangeRolesView,
    ProgramError,
> {
    match r {
        Ok(roles) => Ok(roles@),
        Err(e) => Err(e),
    }
}

/// The roles of an exchange that is not refused: the accounts by their
/// positions, the amount to pay out of the record and never from the
/// taker's input, and the balance in custody.
pub open spec fn exchange_roles(
    accounts: Seq<AccountView>,
    authority: DerivedAuthorityView,
) -> ExchangeRolesView {
    ExchangeRolesView {
        taker: accounts[0].key,
        takers_sending_account: accounts[1].key,
        takers_receiving_account: accounts[2].key,
        custody_account: accounts[3].key,
        initializer: accounts[4].key,
        initializers_receiving_account: accounts[5].key,
        escrow_account: accounts[6].key,
        token_program: accounts[7].key,
        authority_account: accounts[8].key,
        authority,
        expected_amount: unpack_spec(accounts[6].data)->Ok_0.expected_amount,
        custody_amount: token_account_amount_spec(accounts[3].data)->Ok_0,
    }
}

/// The calls that settle a trade between the given roles.
///
/// The payment is the amount in the record, and the taker authorizes it.
/// The whole balance of the custody account goes to the taker, and the
/// custody account is then closed in favour of the initializer: both in
/// the name of the derived authority.
pub open spec fn exchange_plan(roles: ExchangeRolesView) -> ExchangePlanView {
    ExchangePlanView {
        pay_initializer: InvocationView {
            instruction: transfer_spec(
                roles.token_program,
                roles.takers_sending_account,
                roles.initializers_receiving_account,
                roles.taker,
                roles.taker,
                roles.expected_amount,
            )->Some_0,
            accounts: seq![
                roles.takers_sending_account,
                roles.initializers_receiving_account,
                roles.taker,
                roles.token_program,
            ],
            signer_seeds: Seq::empty(),
        },
        release_custody: InvocationView {
            instruction: transfer_spec(
                roles.token_program,
                roles.custody_account,
                roles.takers_receiving_account,
                roles.authority.address,
                roles.authority.address,
                roles.custody_amount,
            )->Some_0,
            accounts: seq![
                roles.custody_account,
                roles.takers_receiving_account,
                roles.authority_account,
                roles.token_program,
            ],
            signer_seeds: signer_seeds_spec(roles.authority),
        },
        close_custody: InvocationView {
            instruction: close_account_spec(
                roles.token_program,
                roles.custody_account,
                roles.initializer,
                roles.authority.address,
                roles.authority.address,
            )->Some_0,
            accounts: seq![
                roles.custody_account,
                roles.initializer,
                roles.authority_account,
                roles.token_program,
            ],
            signer_seeds: signer_seeds_spec(roles.authority),
        },
    }
}

/// The roles that an exchange binds its accounts to, or why it is refused.
pub open spec fn bind_exchange_spec(
    accounts: Seq<AccountView>,
    amount_expected_by_taker: u64,
    authority: Option<DerivedAuthorityView>,
) -> Result<ExchangeRolesView, ProgramError> {
    match exchange_failure(accounts, amount_expected_by_taker, authority) {
        Some(e) => Err(e),
        None => Ok(exchange_roles(accounts, authority->Some_0)),
    }
}

/// What an exchange comes to: the failure, or the calls to make.
pub open spec fn exchange_spec(
    accounts: Seq<AccountView>,
    amount_expected_by_taker: u64,
    authority: Option<DerivedAuthorityView>,
) -> Result<ExchangePlanView, ProgramError> {
    match bind_exchange_spec(accounts, amount_expected_by_taker, authority) {
        Ok(roles) => Ok(exchange_plan(roles)),
        Err(e) => Err(e),
    }
}

/// Why the record cannot be closed, if it cannot: the native balance of
/// the record has to fit on top of that of the initializer.
pub open spec fn close_failure(accounts: Seq<AccountView>) -> Option<ProgramError> {
    if accounts.len() < 7 {
        Some(ProgramError::NotEnoughAccountKeys)
    } else if accounts[4].lamports + accounts[6].lamports > u64::MAX {
        Some(escrow_failure(EscrowError::AmountOverflow))
    } else {
        None
    }
}

/// The accounts of an exchange after the record is closed: its native
/// balance has gone to the initializer, and it holds no data that a later
/// instruction could revive.
pub open spec fn closed_accounts(accounts: Seq<AccountView>) -> Seq<AccountView> {
    accounts.update(
        4,
        AccountView {
            lamports: (accounts[4].lamports + accounts[6].lamports) as u64,
            ..accounts[4]
        },
    ).update(6, AccountView { lamports: 0, data: Seq::empty(), ..accounts[6] })
}

/// What closing the record comes to.
pub open spec fn close_spec(accounts: Seq<AccountView>) -> Result<(), ProgramError> {
    match close_failure(accounts) {
        Some(e) => Err(e),
        None => Ok(()),
    }
}

/// The accounts after the record is closed, or as they were where it
/// cannot be.
pub open spec fn accounts_after_close(accounts: Seq<AccountView>) -> Seq<AccountView> {
    if close_failure(accounts) is None {
        closed_accounts(accounts)
    } else {
        accounts
    }
}

/// What an instruction asks the host to carry out.
#[derive(Debug, Clone, PartialEq, Eq)]
pub enum Settlement {
    /// The record is written; the custody account is to change hands.
    Initialized(Invocation),
    /// The trade is accepted; after the three calls the record is to be
    /// closed.
    Exchange(ExchangePlan),
}

/// What an instruction asks for as plain values.
pub enum SettlementView {
    Initialized(InvocationView),
    Exchange(ExchangePlanView),
}

impl View for Settlement {
    type V = SettlementView;

    open spec fn view(&self) -> SettlementView {
        match self {
            Settlement::Initialized(invocation) => SettlementView::Initialized(invocation@),
            Settlement::Exchange(plan) => SettlementView::Exchange(plan@),
        }
    }
}

/// What a `Result` of a settlement says as plain values.
pub open spec fn settlement_view(r: Result<Settlement, ProgramError>) -> Result<
    SettlementView,
    ProgramError,
> {
    match r {
        Ok(settlement) => Ok(settlement@),
        Err(e) => Err(e),
    }
}

/// What an instruction comes to under the given derived authority. Bytes
/// that do not decode are refused; a decoded instruction comes to what its
/// handler says.
pub open spec fn process_spec(
    accounts: Seq<AccountView>,
    instruction_data: Seq<u8>,
    rent_minimum: Option<u64>,
    authority: Option<DerivedAuthorityView>,
) -> Result<SettlementView, ProgramError> {
    match crate::instruction::unpack_spec(instruction_data) {
        Err(e) => Err(e),
        Ok(EscrowInstruction::InitEscrow { amount }) => match initialize_spec(
            accounts,
            rent_minimum,
            authority,
        ) {
            Ok(invocation) => Ok(SettlementView::Initialized(invocation)),
            Err(e) => Err(e),
        },
        Ok(EscrowInstruction::Exchange { amount }) => match exchange_spec(
            accounts,
            amount,
            authority,
        ) {
            Ok(plan) => Ok(SettlementView::Exchange(plan)),
            Err(e) => Err(e),
        },
    }
}

/// The accounts after an instruction: only an initialization changes any.
pub open spec fn accounts_after_process(
    accounts: Seq<AccountView>,
    instruction_data: Seq<u8>,
    rent_minimum: Option<u64>,
    authority: Option<DerivedAuthorityView>,
) -> Seq<AccountView> {
    match crate::instruction::unpack_spec(instruction_data) {
        Ok(EscrowInstruction::InitEscrow { amount }) => accounts_after_initialize(
            accounts,
            amount,
            rent_minimum,
            authority,
        ),
        _ => accounts,
    }
}

/// The list of the given identities.
fn keys_of(a: Pubkey, b: Pubkey, c: Pubkey, d: Pubkey) -> (keys: Vec<Pubkey>)
    ensures
        keys.deep_view() == seq![a@, b@, c@, d@],
{
    let mut keys: Vec<Pubkey> = Vec::new();
    keys.push(a);
    keys.push(b);
    keys.push(c);
    keys.push(d);
    keys
}

/// The handlers of the escrow program.
pub struct Processor;

impl Processor {
    /// Starts a trade under the given derived authority. Every check is
    /// made before the record is written; a refusal changes nothing and
    /// asks for no call.
    pub fn initialize(
        accounts: &mut Vec<Account>,
        amount: u64,
        rent_minimum: Option<u64>,
        authority: Option<DerivedAuthority>,
    ) -> (result: Result<Invocation, ProgramError>)
        ensures
            invocation_view(result) == initialize_spec(
                old(accounts).deep_view(),
                rent_minimum,
                authority_view(authority),
            ),
            final(accounts).deep_view() == accounts_after_initialize(
                old(accounts).deep_view(),
                amount,
                rent_minimum,
                authority_view(authority),
            ),
            result is Err ==> *final(accounts) == *old(accounts),
    {
        let ghost view = accounts.deep_view();
        let initializer = account_at(accounts, 0)?;
        if !initializer.is_signer {
            return Err(ProgramError::MissingRequiredSignature);
        }
        let tmp_token_account = account_at(accounts, 1)?;
        let token_to_receive_account = account_at(accounts, 2)?;
        if token_to_receive_account.owner != token_program_id() {
            return Err(ProgramError::IncorrectProgramId);
        }
        let escrow_account = account_at(accounts, 3)?;
        let _rent_account = account_at(accounts, 4)?;
        let rent_minimum = match rent_minimum {
            Some(minimum) => minimum,
            None => return Err(ProgramError::InvalidArgument),
        };
        if escrow_account.lamports < rent_minimum {
            return Err(ProgramError::from(EscrowError::NotRentExempt));
        }
        let mut escrow_info = Escrow::unpack_unchecked(escrow_account.data.as_slice())?;
        if escrow_info.is_initialized() {
            return Err(ProgramError::AccountAlreadyInitialized);
        }
        escrow_info.is_initialized = true;
        escrow_info.initializer_pubkey = initializer.key;
        escrow_info.tmp_token_account_pubkey = tmp_token_account.key;
        escrow_info.initializer_token_to_receive_account_pubkey = token_to_receive_account.key;
        escrow_info.expected_amount = amount;
        let authority = match authority {
            Some(authority) => authority,
            None => return Err(ProgramError::InvalidSeeds),
        };
        let token_program = account_at(accounts, 5)?;
        let ownership_change_instruction = match set_authority(
            &token_program.key,
            &tmp_token_account.key,
            &authority.address,
            AuthorityType::AccountOwner,
            &initializer.key,
            &initializer.key,
        ) {
            Some(ix) => ix,
            None => return Err(ProgramError::IncorrectProgramId),
        };
        let mut keys: Vec<Pubkey> = Vec::new();
        keys.push(tmp_token_account.key);
        keys.push(initializer.key);
        keys.push(token_program.key);
        assert(keys.deep_view() =~= seq![view[1].key, view[0].key, view[5].key]);
        let unsigned: Vec<Vec<u8>> = Vec::new();
        assert(unsigned.deep_view() =~= Seq::<Seq<u8>>::empty());
        let invocation = Invocation {
            instruction: ownership_change_instruction,
            accounts: keys,
            signer_seeds: unsigned,
        };
        let record = Account {
            key: escrow_account.key,
            is_signer: escrow_account.is_signer,
            lamports: escrow_account.lamports,
            data: escrow_info.to_bytes(),
            owner: escrow_account.owner,
        };
        accounts.set(3, record);
        Ok(invocation)
    }

    /// Binds the accounts of an exchange to their roles, and refuses them
    /// at the first check that fails. Every role is supplied by the caller,
    /// so each is held against the record before it is trusted.
    pub fn bind_exchange(
        accounts: &Vec<Account>,
        amount_expected_by_taker: u64,
        authority: Option<DerivedAuthority>,
    ) -> (result: Result<ExchangeRoles, ProgramError>)
        ensures
            roles_view(result) == bind_exchange_spec(
                accounts.deep_view(),
                amount_expected_by_taker,
                authority_view(authority),
            ),
    {
        let taker = account_at(accounts, 0)?;
        if !taker.is_signer {
            return Err(ProgramError::MissingRequiredSignature);
        }
        let takers_sending_token_account = account_at(accounts, 1)?;
        let takers_receiving_token_account = account_at(accounts, 2)?;
        let pda_temp_token_account = account_at(accounts, 3)?;
        let custody_amount = token_account_amount(pda_temp_token_account.data.as_slice())?;
        let authority = match authority {
            Some(authority) => authority,
            None => return Err(ProgramError::InvalidSeeds),
        };
        if amount_expected_by_taker != custody_amount {
            return Err(ProgramError::from(EscrowError::ExpectedAmountMismatch));
        }
        let initializer_main_account = account_at(accounts, 4)?;
        let initializers_token_receive_account = account_at(accounts, 5)?;
        let escrow_account = account_at(accounts, 6)?;
        let escrow_info = Escrow::unpack(escrow_account.data.as_slice())?;
        if escrow_info.tmp_token_account_pubkey != pda_temp_token_account.key {
            return Err(ProgramError::InvalidAccountData);
        }
        if escrow_info.initializer_pubkey != initializer_main_account.key {
            return Err(ProgramError::InvalidAccountData);
        }
        if escrow_info.initializer_token_to_receive_account_pubkey
            != initializers_token_receive_account.key {
            return Err(ProgramError::InvalidAccountData);
        }
        let token_program = account_at(accounts, 7)?;
        if token_program.key != token_program_id() {
            return Err(ProgramError::IncorrectProgramId);
        }
        let pda_account = account_at(accounts, 8)?;
        Ok(
            ExchangeRoles {
                taker: taker.key,
                takers_sending_account: takers_sending_token_account.key,
                takers_receiving_account: takers_receiving_token_account.key,
                custody_account: pda_temp_token_account.key,
                initializer: initializer_main_account.key,
                initializers_receiving_account: initializers_token_receive_account.key,
                escrow_account: escrow_account.key,
                token_program: token_program.key,
                authority_account: pda_account.key,
                authority,
                expected_amount: escrow_info.expected_amount,
                custody_amount,
            },
        )
    }

    /// Plans the settlement between the given roles: the three calls of
    /// the token program.
    pub fn plan_exchange(roles: &ExchangeRoles) -> (result: Result<ExchangePlan, ProgramError>)
        ensures
            roles@.token_program == token_program_id_spec() ==> plan_view(result) == Ok::<
                ExchangePlanView,
                ProgramError,
            >(exchange_plan(roles@)),
            roles@.token_program != token_program_id_spec() ==> result == Err::<
                ExchangePlan,
                ProgramError,
            >(ProgramError::IncorrectProgramId),
    {
        let transfer_to_initializer_ix = match transfer(
            &roles.token_program,
            &roles.takers_sending_account,
            &roles.initializers_receiving_account,
            &roles.taker,
            &roles.taker,
            roles.expected_amount,
        ) {
            Some(ix) => ix,
            None => return Err(ProgramError::IncorrectProgramId),
        };
        let transfer_to_taker_ix = match transfer(
            &roles.token_program,
            &roles.custody_account,
            &roles.takers_receiving_account,
            &roles.authority.address,
            &roles.authority.address,
            roles.custody_amount,
        ) {
            Some(ix) => ix,
            None => return Err(ProgramError::IncorrectProgramId),
        };
        let close_pda_account_ix = match close_account(
            &roles.token_program,
            &roles.custody_account,
            &roles.initializer,
            &roles.authority.address,
            &roles.authority.address,
        ) {
            Some(ix) => ix,
            None => return Err(ProgramError::IncorrectProgramId),
        };
        let unsigned: Vec<Vec<u8>> = Vec::new();
        assert(unsigned.deep_view() =~= Seq::<Seq<u8>>::empty());
        let pay_initializer = Invocation {
            instruction: transfer_to_initializer_ix,
            accounts: keys_of(
                roles.takers_sending_account,
                roles.initializers_receiving_account,
                roles.taker,
                roles.token_program,
            ),
            signer_seeds: unsigned,
        };
        let release_custody = Invocation {
            instruction: transfer_to_taker_ix,
            accounts: keys_of(
                roles.custody_account,
                roles.takers_receiving_account,
                roles.authority_account,
                roles.token_program,
            ),
            signer_seeds: roles.authority.signer_seeds(),
        };
        let close_custody = Invocation {
            instruction: close_pda_account_ix,
            accounts: keys_of(
                roles.custody_account,
                roles.initializer,
                roles.authority_account,
                roles.token_program,
            ),
            signer_seeds: roles.authority.signer_seeds(),
        };
        Ok(ExchangePlan { pay_initializer, release_custody, close_custody })
    }

    /// Accepts a trade under the given derived authority: checks the
    /// accounts against the record and plans the settlement. Nothing is
    /// changed; a refusal plans no call.
    pub fn exchange(
        accounts: &Vec<Account>,
        amount_expected_by_taker: u64,
        authority: Option<DerivedAuthority>,
    ) -> (result: Result<ExchangePlan, ProgramError>)
        ensures
            plan_view(result) == exchange_spec(
                accounts.deep_view(),
                amount_expected_by_taker,
                authority_view(authority),
            ),
    {
        let roles = Self::bind_exchange(accounts, amount_expected_by_taker, authority)?;
        Self::plan_exchange(&roles)
    }

    /// Closes the record of a settled trade, once the three calls of the
    /// plan are made: credits its native balance to the initializer's main
    /// account, and empties it. The accounts are those of the exchange,
    /// with their balances as the calls left them. Where the credit would
    /// overflow, nothing is changed.
    pub fn close_escrow(accounts: &mut Vec<Account>) -> (result: Result<(), ProgramError>)
        ensures
            result == close_spec(old(accounts).deep_view()),
            final(accounts).deep_view() == accounts_after_close(old(accounts).deep_view()),
            result is Err ==> *final(accounts) == *old(accounts),
    {
        let initializer_main_account = account_at(accounts, 4)?;
        let escrow_account = account_at(accounts, 6)?;
        let credited = match initializer_main_account.lamports.checked_add(
            escrow_account.lamports,
        ) {
            Some(sum) => sum,
            None => return Err(ProgramError::from(EscrowError::AmountOverflow)),
        };
        let initializer = Account {
            key: initializer_main_account.key,
            is_signer: initializer_main_account.is_signer,
            lamports: credited,
            data: initializer_main_account.data.clone(),
            owner: initializer_main_account.owner,
        };
        let record = Account {
            key: escrow_account.key,
            is_signer: escrow_account.is_signer,
            lamports: 0,
            data: Vec::new(),
            owner: escrow_account.owner,
        };
        accounts.set(4, initializer);
        accounts.set(6, record);
        Ok(())
    }

    /// Starts a trade for the program `program_id`: derives the program's
    /// authority and initializes under it.
    pub fn process_init_escrow(
        accounts: &mut Vec<Account>,
        amount: u64,
        program_id: &Pubkey,
        rent_minimum: Option<u64>,
    ) -> (result: Result<Invocation, ProgramError>)
        ensures
            invocation_view(result) == initialize_spec(
                old(accounts).deep_view(),
                rent_minimum,
                escrow_authority(program_id@),
            ),
            final(accounts).deep_view() == accounts_after_initialize(
                old(accounts).deep_view(),
                amount,
                rent_minimum,
                escrow_authority(program_id@),
            ),
            result is Err ==> *final(accounts) == *old(accounts),
    {
        Self::initialize(accounts, amount, rent_minimum, DerivedAuthority::find(program_id))
    }

    /// Accepts a trade for the program `program_id`: derives the program's
    /// authority and plans the settlement under it.
    pub fn process_exchange(
        accounts: &Vec<Account>,
        amount_expected_by_taker: u64,
        program_id: &Pubkey,
    ) -> (result: Result<ExchangePlan, ProgramError>)
        ensures
            plan_view(result) == exchange_spec(
                accounts.deep_view(),
                amount_expected_by_taker,
                escrow_authority(program_id@),
            ),
    {
        Self::exchange(accounts, amount_expected_by_taker, DerivedAuthority::find(program_id))
    }

    /// Runs one instruction under the given derived authority.
    pub fn process_under(
        authority: Option<DerivedAuthority>,
        accounts: &mut Vec<Account>,
        instruction_data: &[u8],
        rent_minimum: Option<u64>,
    ) -> (result: Result<Settlement, ProgramError>)
        ensures
            settlement_view(result) == process_spec(
                old(accounts).deep_view(),
                instruction_data@,
                rent_minimum,
                authority_view(authority),
            ),
            final(accounts).deep_view() == accounts_after_process(
                old(accounts).deep_view(),
                instruction_data@,
                rent_minimum,
                authority_view(authority),
            ),
            result is Err ==> *final(accounts) == *old(accounts),
    {
        let instruction = EscrowInstruction::unpack(instruction_data)?;
        match instruction {
            EscrowInstruction::InitEscrow { amount } => {
                match Self::initialize(accounts, amount, rent_minimum, authority) {
                    Ok(invocation) => Ok(Settlement::Initialized(invocation)),
                    Err(e) => Err(e),
                }
            },
            EscrowInstruction::Exchange { amount } => {
                match Self::exchange(accounts, amount, authority) {
                    Ok(plan) => Ok(Settlement::Exchange(plan)),
                    Err(e) => Err(e),
                }
            },
        }
    }

    /// Runs one instruction of the program `program_id`: decodes it and
    /// hands it to its handler. `rent_minimum` is the balance that the
    /// host's permanence rule asks of an escrow record, where the rule
    /// could be read.
    pub fn process(
        program_id: &Pubkey,
        accounts: &mut Vec<Account>,
        instruction_data: &[u8],
        rent_minimum: Option<u64>,
    ) -> (result: Result<Settlement, ProgramError>)
        ensures
            settlement_view(result) == process_spec(
                old(accounts).deep_view(),
                instruction_data@,
                rent_minimum,
                escrow_authority(program_id@),
            ),
            final(accounts).deep_view() == accounts_after_process(
                old(accounts).deep_view(),
                instruction_data@,
                rent_minimum,
                escrow_authority(program_id@),
            ),
            result is Err ==> *final(accounts) == *old(accounts),
    {
        Self::process_under(
            DerivedAuthority::find(program_id),
            accounts,
            instruction_data,
            rent_minimum,
        )
    }
}

} // verus!
