//! What the escrow relies on of the token program: which account holds how
//! much under whose authority, and what its three calls do to that. The
//! token program itself is not part of this library; this is the reading
//! of it under which the settlement is shown to be fair.

use vstd::prelude::*;
use crate::account::AccountView;
use crate::authority::DerivedAuthorityView;
use crate::bytes::{lemma_u64_le_round_trip, u64_from_le, u64_to_le};
use crate::guarantees::accounts_wf;
use crate::processor::{exchange_failure, exchange_plan, exchange_roles, initialize_failure};
use crate::processor::{initialize_invocation, ExchangeRolesView};
use crate::state::unpack_spec;
use crate::token::{token_account_amount_spec, InstructionView};

verus! {

/// A token account as the token program keeps it.
pub struct TokenAccount {
    /// The authority that can move the balance.
    pub owner: Seq<u8>,
    /// The balance.
    pub amount: u64,
}

/// A call of the token program.
pub enum TokenCall {
    /// Hands the account to a new authority.
    SetAuthority { account: Seq<u8>, authority: Seq<u8>, new_authority: Seq<u8> },
    /// Moves an amount from one account to another.
    Transfer { source: Seq<u8>, destination: Seq<u8>, authority: Seq<u8>, amount: u64 },
    /// Closes an empty account.
    CloseAccount { account: Seq<u8>, destination: Seq<u8>, authority: Seq<u8> },
}

/// The call that an instruction asks of the token program. The tag in the
/// first byte of the data says which call it is, and the accounts come in
/// the order that the call fixes.
pub open spec fn token_call(ix: InstructionView) -> Option<TokenCall> {
    if ix.data.len() == 9 && ix.data[0] == 3 && ix.accounts.len() >= 3 {
        Some(
            TokenCall::Transfer {
                source: ix.accounts[0].pubkey,
                destination: ix.accounts[1].pubkey,
                authority: ix.accounts[2].pubkey,
                amount: u64_from_le(ix.data.subrange(1, 9)),
            },
        )
    } else if ix.data.len() == 35 && ix.data[0] == 6 && ix.data[1] == 2 && ix.data[2] == 1
        && ix.accounts.len() >= 2 {
        Some(
            TokenCall::SetAuthority {
                account: ix.accounts[0].pubkey,
                authority: ix.accounts[1].pubkey,
                new_authority: ix.data.subrange(3, 35),
            },
        )
    } else if ix.data.len() == 1 && ix.data[0] == 9 && ix.accounts.len() >= 3 {
        Some(
            TokenCall::CloseAccount {
                account: ix.accounts[0].pubkey,
                destination: ix.accounts[1].pubkey,
                authority: ix.accounts[2].pubkey,
            },
        )
    } else {
        None
    }
}

/// The token accounts after a call, or `None` where the token program
/// refuses the call. Only the authority of an account moves its balance,
/// hands it over or closes it; a balance cannot go below zero or above what
/// 64 bits hold; and only an empty account is closed.
pub open spec fn apply(ledger: Map<Seq<u8>, TokenAccount>, call: TokenCall) -> Option<
    Map<Seq<u8>, TokenAccount>,
> {
    match call {
        TokenCall::SetAuthority { account, authority, new_authority } => {
            if ledger.dom().contains(account) && ledger[account].owner == authority {
                Some(ledger.insert(account, TokenAccount { owner: new_authority, ..ledger[account] }))
            } else {
                None
            }
        },
        TokenCall::Transfer { source, destination, authority, amount } => {
            if !ledger.dom().contains(source) || !ledger.dom().contains(destination)
                || ledger[source].owner != authority || ledger[source].amount < amount {
                None
            } else if source == destination {
                Some(ledger)
            } else if ledger[destination].amount + amount > u64::MAX {
                None
            } else {
                Some(
                    ledger.insert(
                        source,
                        TokenAccount {
                            amount: (ledger[source].amount - amount) as u64,
                            ..ledger[source]
                        },
                    ).insert(
                        destination,
                        TokenAccount {
                            amount: (ledger[destination].amount + amount) as u64,
                            ..ledger[destination]
                        },
                    ),
                )
            }
        },
        TokenCall::CloseAccount { account, destination, authority } => {
            if ledger.dom().contains(account) && ledger[account].owner == authority
                && ledger[account].amount == 0 && account != destination {
                Some(ledger.remove(account))
            } else {
                None
            }
        },
    }
}

/// The token accounts after the call that an instruction asks for.
pub open spec fn apply_instruction(
    ledger: Map<Seq<u8>, TokenAccount>,
    ix: InstructionView,
) -> Option<Map<Seq<u8>, TokenAccount>> {
    match token_call(ix) {
        Some(call) => apply(ledger, call),
        None => None,
    }
}

/// The token accounts after the three calls of a settlement, made in
/// their order, or `None` where the token program refuses one of them.
pub open spec fn settle(ledger: Map<Seq<u8>, TokenAccount>, roles: ExchangeRolesView) -> Option<
    Map<Seq<u8>, TokenAccount>,
> {
    let plan = exchange_plan(roles);
    match apply_instruction(ledger, plan.pay_initializer.instruction) {
        None => None,
        Some(paid) => match apply_instruction(paid, plan.release_custody.instruction) {
            None => None,
            Some(released) => apply_instruction(released, plan.close_custody.instruction),
        },
    }
}

/// The call of an initialization that is not refused makes the derived
/// authority the authority of the custody account, in place of the
/// initializer. The balance of the custody account and every other token
/// account stay as they are.
pub proof fn lemma_initialize_hands_over_custody(
    accounts: Seq<AccountView>,
    rent_minimum: Option<u64>,
    authority: DerivedAuthorityView,
    ledger: Map<Seq<u8>, TokenAccount>,
)
    requires
        accounts_wf(accounts),
        authority.address.len() == 32,
        initialize_failure(accounts, rent_minimum, Some(authority)) is None,
        ledger.dom().contains(accounts[1].key),
        ledger[accounts[1].key].owner == accounts[0].key,
    ensures
        ({
            let ix = initialize_invocation(accounts, authority).instruction;
            let custody = accounts[1].key;
            &&& token_call(ix) == Some(
                TokenCall::SetAuthority {
                    account: custody,
                    authority: accounts[0].key,
                    new_authority: authority.address,
                },
            )
            &&& apply_instruction(ledger, ix) == Some(
                ledger.insert(
                    custody,
                    TokenAccount { owner: authority.address, amount: ledger[custody].amount },
                ),
            )
        }),
{
    let ix = initialize_invocation(accounts, authority).instruction;
    assert(ix.data.subrange(3, 35) =~= authority.address);
}

/// The three calls of a settlement are, in their order: the payment of the
/// amount in the record from the taker's account to the initializer's
/// receiving account, which the taker authorizes; the transfer of the
/// whole balance in custody to the taker's receiving account, and the
/// closing of the custody account in favour of the initializer, both in
/// the name of the derived authority.
pub proof fn lemma_plan_calls(roles: ExchangeRolesView)
    requires
        roles.token_program == crate::token::token_program_id_spec(),
    ensures
        ({
            let plan = exchange_plan(roles);
            &&& token_call(plan.pay_initializer.instruction) == Some(
                TokenCall::Transfer {
                    source: roles.takers_sending_account,
                    destination: roles.initializers_receiving_account,
                    authority: roles.taker,
                    amount: roles.expected_amount,
                },
            )
            &&& token_call(plan.release_custody.instruction) == Some(
                TokenCall::Transfer {
                    source: roles.custody_account,
                    destination: roles.takers_receiving_account,
                    authority: roles.authority.address,
                    amount: roles.custody_amount,
                },
            )
            &&& token_call(plan.close_custody.instruction) == Some(
                TokenCall::CloseAccount {
                    account: roles.custody_account,
                    destination: roles.initializer,
                    authority: roles.authority.address,
                },
            )
        }),
{
    let plan = exchange_plan(roles);
    lemma_u64_le_round_trip(roles.expected_amount);
    lemma_u64_le_round_trip(roles.custody_amount);
    assert(plan.pay_initializer.instruction.data.subrange(1, 9) =~= u64_to_le(
        roles.expected_amount,
    ));
    assert(plan.release_custody.instruction.data.subrange(1, 9) =~= u64_to_le(
        roles.custody_amount,
    ));
}

/// A settlement that the token program carries out is fair to both
/// sides. Where the four token accounts are four different accounts, the
/// custody account holds what its data says, and the token program accepts
/// the three calls: the initializer's receiving account gains exactly the
/// amount in the record, whatever amount the taker supplied; the taker's
/// receiving account gains exactly what was in custody before; the
/// taker's sending account loses exactly the payment; and the custody
/// account is closed.
pub proof fn lemma_exchange_settles(
    accounts: Seq<AccountView>,
    amount_expected_by_taker: u64,
    authority: DerivedAuthorityView,
    ledger: Map<Seq<u8>, TokenAccount>,
)
    requires
        exchange_failure(accounts, amount_expected_by_taker, Some(authority)) is None,
        accounts[1].key != accounts[2].key,
        accounts[1].key != accounts[3].key,
        accounts[1].key != accounts[5].key,
        accounts[2].key != accounts[3].key,
        accounts[2].key != accounts[5].key,
        accounts[3].key != accounts[5].key,
        ledger.dom().contains(accounts[3].key),
        ledger[accounts[3].key].amount == token_account_amount_spec(accounts[3].data)->Ok_0,
        settle(ledger, exchange_roles(accounts, authority)) is Some,
    ensures
        ({
            let settled = settle(ledger, exchange_roles(accounts, authority))->Some_0;
            let expected_amount = unpack_spec(accounts[6].data)->Ok_0.expected_amount;
            let takers_sending_account = accounts[1].key;
            let takers_receiving_account = accounts[2].key;
            let custody_account = accounts[3].key;
            let initializers_receiving_account = accounts[5].key;
            &&& settled.dom().contains(initializers_receiving_account)
            &&& settled[initializers_receiving_account].amount
                == ledger[initializers_receiving_account].amount + expected_amount
            &&& settled.dom().contains(takers_receiving_account)
            &&& settled[takers_receiving_account].amount == ledger[takers_receiving_account].amount
                + ledger[custody_account].amount
            &&& ledger[custody_account].amount == amount_expected_by_taker
            &&& settled.dom().contains(takers_sending_account)
            &&& settled[takers_sending_account].amount == ledger[takers_sending_account].amount
                - expected_amount
            &&& !settled.dom().contains(custody_account)
            &&& forall|key: Seq<u8>|
                key != takers_sending_account && key != takers_receiving_account && key
                    != custody_account && key != initializers_receiving_account ==> (
                settled.dom().contains(key) <==> ledger.dom().contains(key)) && settled[key]
                    == ledger[key]
        }),
{
    lemma_plan_calls(exchange_roles(accounts, authority));
}

} // verus!
