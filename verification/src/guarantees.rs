//! What the handlers guarantee, stated over all inputs and proved from
//! their contracts.

use vstd::prelude::*;
use crate::account::AccountView;
use crate::authority::DerivedAuthorityView;
use crate::error::{escrow_failure, EscrowError, ProgramError};
use crate::processor::{accounts_after_close, accounts_after_initialize, close_failure};
use crate::processor::{exchange_spec, initialize_failure, initialize_spec};
use crate::processor::{initialized_record, ExchangePlanView, InvocationView};
use crate::state::{lemma_pack_unpack, unpack_spec, unpack_unchecked_spec};
use crate::state::{EscrowView, ESCROW_LEN};
use crate::token::{token_account_amount_spec, token_program_id_spec};

verus! {

/// Every identity among the accounts has its 32 bytes.
pub open spec fn accounts_wf(accounts: Seq<AccountView>) -> bool {
    forall|i: int|
        0 <= i < accounts.len() ==> (#[trigger] accounts[i]).key.len() == 32 && accounts[i].owner.len()
            == 32
}

/// An initialization that is not refused leaves a live trade in the escrow
/// record: the record reads back as initialized, with the initializer, the
/// custody account, the receiving account and the amount as they were
/// supplied. No other account changes, and of the record only its data.
pub proof fn lemma_initialize_records_trade(
    accounts: Seq<AccountView>,
    amount: u64,
    rent_minimum: Option<u64>,
    authority: Option<DerivedAuthorityView>,
)
    requires
        accounts_wf(accounts),
        initialize_failure(accounts, rent_minimum, authority) is None,
    ensures
        ({
            let after = accounts_after_initialize(accounts, amount, rent_minimum, authority);
            &&& after.len() == accounts.len()
            &&& unpack_spec(after[3].data) == Ok::<EscrowView, ProgramError>(
                EscrowView {
                    is_initialized: true,
                    initializer_pubkey: accounts[0].key,
                    tmp_token_account_pubkey: accounts[1].key,
                    initializer_token_to_receive_account_pubkey: accounts[2].key,
                    expected_amount: amount,
                },
            )
            &&& after[3].data.len() == ESCROW_LEN
            &&& after[3].key == accounts[3].key
            &&& after[3].lamports == accounts[3].lamports
            &&& after[3].owner == accounts[3].owner
            &&& forall|i: int| 0 <= i < accounts.len() && i != 3 ==> after[i] == accounts[i]
        }),
{
    lemma_pack_unpack(initialized_record(accounts, amount));
}

/// An initialization on a record that already holds a trade is always
/// refused, asks for no call and leaves every account, the record too, as
/// it was. Where the checks that come before pass (the initializer signed,
/// the receiving account belongs to the token program, the permanence rule
/// was read and is met), the failure is `AccountAlreadyInitialized`.
pub proof fn lemma_initialize_twice_refused(
    accounts: Seq<AccountView>,
    amount: u64,
    rent_minimum: Option<u64>,
    authority: Option<DerivedAuthorityView>,
)
    requires
        accounts.len() > 3,
        unpack_unchecked_spec(accounts[3].data) is Ok,
        unpack_unchecked_spec(accounts[3].data)->Ok_0.is_initialized,
    ensures
        initialize_spec(accounts, rent_minimum, authority) is Err,
        accounts_after_initialize(accounts, amount, rent_minimum, authority) == accounts,
        accounts.len() >= 5 && accounts[0].is_signer && accounts[2].owner == token_program_id_spec()
            && rent_minimum is Some && accounts[3].lamports >= rent_minimum->Some_0
            ==> initialize_spec(accounts, rent_minimum, authority) == Err::<
            InvocationView,
            ProgramError,
        >(ProgramError::AccountAlreadyInitialized),
{
}

/// A trade can be started once: after an initialization that is not
/// refused, every further initialization on the same accounts is refused
/// and changes nothing.
pub proof fn lemma_initialize_once(
    accounts: Seq<AccountView>,
    amount: u64,
    rent_minimum: Option<u64>,
    authority: Option<DerivedAuthorityView>,
    next_amount: u64,
    next_rent_minimum: Option<u64>,
    next_authority: Option<DerivedAuthorityView>,
)
    requires
        accounts_wf(accounts),
        initialize_failure(accounts, rent_minimum, authority) is None,
    ensures
        ({
            let after = accounts_after_initialize(accounts, amount, rent_minimum, authority);
            &&& initialize_spec(after, next_rent_minimum, next_authority) is Err
            &&& accounts_after_initialize(after, next_amount, next_rent_minimum, next_authority)
                == after
        }),
{
    lemma_initialize_records_trade(accounts, amount, rent_minimum, authority);
    let after = accounts_after_initialize(accounts, amount, rent_minimum, authority);
    lemma_initialize_twice_refused(after, next_amount, next_rent_minimum, next_authority);
}

/// An initialization on a record that is funded below the permanence
/// threshold is always refused: it asks for no call, so the custody
/// account keeps its authority, and it changes no account. Where the
/// checks that come before pass (the initializer signed, the receiving
/// account belongs to the token program), the failure is `NotRentExempt`.
pub proof fn lemma_underfunded_record_refused(
    accounts: Seq<AccountView>,
    amount: u64,
    rent_minimum: u64,
    authority: Option<DerivedAuthorityView>,
)
    requires
        accounts.len() > 3,
        accounts[3].lamports < rent_minimum,
    ensures
        initialize_spec(accounts, Some(rent_minimum), authority) is Err,
        accounts_after_initialize(accounts, amount, Some(rent_minimum), authority) == accounts,
        accounts.len() >= 5 && accounts[0].is_signer && accounts[2].owner == token_program_id_spec()
            ==> initialize_spec(accounts, Some(rent_minimum), authority) == Err::<
            InvocationView,
            ProgramError,
        >(escrow_failure(EscrowError::NotRentExempt)),
{
}

/// An exchange in which the taker expects another amount than the custody
/// account holds is always refused, and plans no transfer. Where the
/// checks that come before pass (the taker signed, the program has a
/// derived authority), the failure is `ExpectedAmountMismatch`.
pub proof fn lemma_amount_mismatch_refused(
    accounts: Seq<AccountView>,
    amount_expected_by_taker: u64,
    authority: Option<DerivedAuthorityView>,
)
    requires
        accounts.len() > 3,
        token_account_amount_spec(accounts[3].data) is Ok,
        token_account_amount_spec(accounts[3].data)->Ok_0 != amount_expected_by_taker,
    ensures
        exchange_spec(accounts, amount_expected_by_taker, authority) is Err,
        accounts[0].is_signer && authority is Some ==> exchange_spec(
            accounts,
            amount_expected_by_taker,
            authority,
        ) == Err::<ExchangePlanView, ProgramError>(
            escrow_failure(EscrowError::ExpectedAmountMismatch),
        ),
{
}

/// An exchange in which the custody account, the initializer or the
/// initializer's receiving account is not the one in the record is always
/// refused, and plans no transfer. Where the checks that come before pass
/// (the taker signed, the custody account holds the expected amount, the
/// program has a derived authority, the record holds a live trade), the
/// failure is `InvalidAccountData`.
pub proof fn lemma_unbound_account_refused(
    accounts: Seq<AccountView>,
    amount_expected_by_taker: u64,
    authority: Option<DerivedAuthorityView>,
)
    requires
        accounts.len() > 6,
        unpack_unchecked_spec(accounts[6].data) is Ok,
        ({
            let record = unpack_unchecked_spec(accounts[6].data)->Ok_0;
            ||| record.tmp_token_account_pubkey != accounts[3].key
            ||| record.initializer_pubkey != accounts[4].key
            ||| record.initializer_token_to_receive_account_pubkey != accounts[5].key
        }),
    ensures
        exchange_spec(accounts, amount_expected_by_taker, authority) is Err,
        accounts[0].is_signer && token_account_amount_spec(accounts[3].data) == Ok::<
            u64,
            ProgramError,
        >(amount_expected_by_taker) && authority is Some && unpack_unchecked_spec(
            accounts[6].data,
        )->Ok_0.is_initialized ==> exchange_spec(accounts, amount_expected_by_taker, authority)
            == Err::<ExchangePlanView, ProgramError>(ProgramError::InvalidAccountData),
{
}

/// Closing the record of a settled trade leaves it with no native balance
/// and no data, credits exactly its balance to the initializer's main
/// account, and changes no other account.
pub proof fn lemma_close_empties_record(accounts: Seq<AccountView>)
    requires
        close_failure(accounts) is None,
    ensures
        ({
            let after = accounts_after_close(accounts);
            &&& after.len() == accounts.len()
            &&& after[6].lamports == 0
            &&& after[6].data.len() == 0
            &&& after[4].lamports == accounts[4].lamports + accounts[6].lamports
            &&& after[4].data == accounts[4].data
            &&& forall|i: int|
                0 <= i < accounts.len() && i != 4 && i != 6 ==> after[i] == accounts[i]
        }),
{
}

/// A settled trade stays settled: on a record that holds no data, as
/// closing leaves it, every exchange is refused and plans no transfer.
pub proof fn lemma_closed_record_refuses_exchange(
    accounts: Seq<AccountView>,
    amount_expected_by_taker: u64,
    authority: Option<DerivedAuthorityView>,
)
    requires
        accounts.len() > 6 ==> accounts[6].data.len() == 0,
    ensures
        exchange_spec(accounts, amount_expected_by_taker, authority) is Err,
{
}

/// Nor can a settled record be started on again as it is: on a record
/// that holds no data, every initialization is refused, asks for no call
/// and changes nothing.
pub proof fn lemma_closed_record_refuses_initialize(
    accounts: Seq<AccountView>,
    amount: u64,
    rent_minimum: Option<u64>,
    authority: Option<DerivedAuthorityView>,
)
    requires
        accounts.len() > 3 ==> accounts[3].data.len() == 0,
    ensures
        initialize_spec(accounts, rent_minimum, authority) is Err,
        accounts_after_initialize(accounts, amount, rent_minimum, authority) == accounts,
{
}

/// Where a trade stands.
pub enum TradeState {
    /// The record is allocated and holds no trade yet.
    Uninitialized,
    /// The record holds a live trade.
    Open,
    /// The trade is settled and its record is closed.
    Settled,
}

/// Where the trade of a record stands, by the data of the record; `None`
/// for data that is no record.
pub open spec fn trade_state(data: Seq<u8>) -> Option<TradeState> {
    if data.len() == 0 {
        Some(TradeState::Settled)
    } else {
        match unpack_unchecked_spec(data) {
            Ok(record) => if record.is_initialized {
                Some(TradeState::Open)
            } else {
                Some(TradeState::Uninitialized)
            },
            Err(_) => None,
        }
    }
}

/// A trade only moves forward. An initialization that is not refused
/// finds the record uninitialized and leaves it open; an exchange is
/// planned for an open trade only; and closing leaves the record settled.
pub proof fn lemma_trade_moves_forward(
    accounts: Seq<AccountView>,
    amount: u64,
    rent_minimum: Option<u64>,
    authority: Option<DerivedAuthorityView>,
)
    requires
        accounts_wf(accounts),
    ensures
        initialize_spec(accounts, rent_minimum, authority) is Ok ==> trade_state(accounts[3].data)
            == Some(TradeState::Uninitialized) && trade_state(
            accounts_after_initialize(accounts, amount, rent_minimum, authority)[3].data,
        ) == Some(TradeState::Open),
        exchange_spec(accounts, amount, authority) is Ok ==> trade_state(accounts[6].data) == Some(
            TradeState::Open,
        ),
        close_failure(accounts) is None ==> trade_state(accounts_after_close(accounts)[6].data)
            == Some(TradeState::Settled),
{
    if initialize_spec(accounts, rent_minimum, authority) is Ok {
        lemma_initialize_records_trade(accounts, amount, rent_minimum, authority);
    }
}

} // verus!
