//! Starting a trade on accounts that the host has already bound to their
//! roles: the host has created the escrow record, funded it, and made sure
//! that the initializer signed.

use vstd::prelude::*;
use crate::account::{Account, AccountView};
use crate::authority::{authority_view, escrow_authority, DerivedAuthority, DerivedAuthorityView};
use crate::error::ProgramError;
use crate::pubkey::Pubkey;
use crate::state::{Escrow, EscrowView};
use crate::token::{token_program_id, token_program_id_spec, AuthorityType};

verus! {

/// The accounts of an initialization, by their roles.
#[derive(Debug, Clone, PartialEq, Eq)]
pub struct InitEscrow {
    /// The escrow record, freshly allocated.
    pub escrow: Escrow,
    /// The initializer, who pays for the record and has signed.
    pub initializer: Account,
    /// The custody account, which the initializer owns so far.
    pub tmp_token_account: Account,
    /// The initializer's account for the asset they will receive.
    pub token_to_receive_account: Account,
    /// The token program.
    pub token_program: Account,
}

/// The accounts of an initialization as plain values.
pub struct InitEscrowView {
    pub escrow: EscrowView,
    pub initializer: AccountView,
    pub tmp_token_account: AccountView,
    pub token_to_receive_account: AccountView,
    pub token_program: AccountView,
}

impl View for InitEscrow {
    type V = InitEscrowView;

    open spec fn view(&self) -> InitEscrowView {
        InitEscrowView {
            escrow: self.escrow@,
            initializer: self.initializer@,
            tmp_token_account: self.tmp_token_account@,
            token_to_receive_account: self.token_to_receive_account@,
            token_program: self.token_program@,
        }
    }
}

/// The hand-over that an initialization asks of the token program: the
/// current authority passes an authority over an account on.
#[derive(Debug, Clone, Copy, PartialEq, Eq)]
pub struct SetAuthority {
    /// Who holds the authority so far, and authorizes the hand-over.
    pub current_authority: Pubkey,
    /// The account that changes hands.
    pub account_or_mint: Pubkey,
    /// Which authority over the account changes hands.
    pub authority_type: AuthorityType,
    /// Who holds the authority from now on.
    pub new_authority: Pubkey,
}

/// A hand-over as plain values.
pub struct SetAuthorityView {
    pub current_authority: Seq<u8>,
    pub account_or_mint: Seq<u8>,
    pub authority_type: AuthorityType,
    pub new_authority: Seq<u8>,
}

impl View for SetAuthority {
    type V = SetAuthorityView;

    open spec fn view(&self) -> SetAuthorityView {
        SetAuthorityView {
            current_authority: self.current_authority@,
            account_or_mint: self.account_or_mint@,
            authority_type: self.authority_type,
            new_authority: self.new_authority@,
        }
    }
}

/// What a `Result` of a hand-over says as plain values.
pub open spec fn set_authority_view(r: Result<SetAuthority, ProgramError>) -> Result<
    SetAuthorityView,
    ProgramError,
> {
    match r {
        Ok(call) => Ok(call@),
        Err(e) => Err(e),
    }
}

/// Why the initialization is refused, if it is: the receiving account has
/// to belong to the token program, the record must not hold a trade yet,
/// and the program has to have a derived authority.
pub open spec fn init_escrow_failure(
    accounts: InitEscrowView,
    authority: Option<DerivedAuthorityView>,
) -> Option<ProgramError> {
    if accounts.token_to_receive_account.owner != token_program_id_spec() {
        Some(ProgramError::IncorrectProgramId)
    } else if accounts.escrow.is_initialized {
        Some(ProgramError::AccountAlreadyInitialized)
    } else if authority is None {
        Some(ProgramError::InvalidSeeds)
    } else {
        None
    }
}

/// What the initialization comes to: the failure, or the hand-over of the
/// custody account from the initializer to the derived authority.
pub open spec fn init_escrow_spec(
    accounts: InitEscrowView,
    authority: Option<DerivedAuthorityView>,
) -> Result<SetAuthorityView, ProgramError> {
    match init_escrow_failure(accounts, authority) {
        Some(e) => Err(e),
        None => Ok(
            SetAuthorityView {
                current_authority: accounts.initializer.key,
                account_or_mint: accounts.tmp_token_account.key,
                authority_type: AuthorityType::AccountOwner,
                new_authority: authority->Some_0.address,
            },
        ),
    }
}

/// The accounts after the initialization: the record holds a live trade
/// between the supplied accounts for the supplied amount where the
/// initialization is not refused, and else everything is as it was.
pub open spec fn accounts_after_init_escrow(
    accounts: InitEscrowView,
    amount: u64,
    authority: Option<DerivedAuthorityView>,
) -> InitEscrowView {
    if init_escrow_failure(accounts, authority) is None {
        InitEscrowView {
            escrow: EscrowView {
                is_initialized: true,
                initializer_pubkey: accounts.initializer.key,
                tmp_token_account_pubkey: accounts.tmp_token_account.key,
                initializer_token_to_receive_account_pubkey: accounts.token_to_receive_account.key,
                expected_amount: amount,
            },
            ..accounts
        }
    } else {
        accounts
    }
}

/// Starts a trade under the given derived authority. A refusal changes
/// nothing and asks for no hand-over.
pub fn init_escrow_under(
    accounts: &mut InitEscrow,
    amount: u64,
    authority: Option<DerivedAuthority>,
) -> (result: Result<SetAuthority, ProgramError>)
    ensures
        set_authority_view(result) == init_escrow_spec(old(accounts)@, authority_view(authority)),
        final(accounts)@ == accounts_after_init_escrow(
            old(accounts)@,
            amount,
            authority_view(authority),
        ),
        result is Err ==> *final(accounts) == *old(accounts),
{
    if accounts.token_to_receive_account.owner != token_program_id() {
        return Err(ProgramError::IncorrectProgramId);
    }
    if accounts.escrow.is_initialized() {
        return Err(ProgramError::AccountAlreadyInitialized);
    }
    let authority = match authority {
        Some(authority) => authority,
        None => return Err(ProgramError::InvalidSeeds),
    };
    accounts.escrow.is_initialized = true;
    accounts.escrow.initializer_pubkey = accounts.initializer.key;
    accounts.escrow.tmp_token_account_pubkey = accounts.tmp_token_account.key;
    accounts.escrow.initializer_token_to_receive_account_pubkey =
        accounts.token_to_receive_account.key;
    accounts.escrow.expected_amount = amount;
    Ok(
        SetAuthority {
            current_authority: accounts.initializer.key,
            account_or_mint: accounts.tmp_token_account.key,
            authority_type: AuthorityType::AccountOwner,
            new_authority: authority.address,
        },
    )
}

/// Starts a trade for the program `program_id`: derives the program's
/// authority and initializes under it.
pub fn init_escrow(accounts: &mut InitEscrow, amount: u64, program_id: &Pubkey) -> (result: Result<
    SetAuthority,
    ProgramError,
>)
    ensures
        set_authority_view(result) == init_escrow_spec(
            old(accounts)@,
            escrow_authority(program_id@),
        ),
        final(accounts)@ == accounts_after_init_escrow(
            old(accounts)@,
            amount,
            escrow_authority(program_id@),
        ),
        result is Err ==> *final(accounts) == *old(accounts),
{
    init_escrow_under(accounts, amount, DerivedAuthority::find(program_id))
}

/// On accounts bound to their roles, too, a trade can be started once:
/// after an initialization that is not refused, every further one is
/// refused and changes nothing.
pub proof fn lemma_init_escrow_once(
    accounts: InitEscrowView,
    amount: u64,
    authority: Option<DerivedAuthorityView>,
    next_amount: u64,
    next_authority: Option<DerivedAuthorityView>,
)
    requires
        init_escrow_failure(accounts, authority) is None,
    ensures
        ({
            let after = accounts_after_init_escrow(accounts, amount, authority);
            &&& after.escrow.is_initialized
            &&& init_escrow_spec(after, next_authority) == Err::<SetAuthorityView, ProgramError>(
                ProgramError::AccountAlreadyInitialized,
            )
            &&& accounts_after_init_escrow(after, next_amount, next_authority) == after
        }),
{
}

} // verus!
