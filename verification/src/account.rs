//! The accounts that the host hands to an instruction: an ordered list, of
//! which the position of an account says what it is there for.

use vstd::prelude::*;
use crate::error::ProgramError;
use crate::pubkey::Pubkey;

verus! {

/// An account as an instruction sees it.
#[derive(Debug, Clone, PartialEq, Eq)]
pub struct Account {
    /// The identity of the account.
    pub key: Pubkey,
    /// Whether the account authorized the instruction.
    pub is_signer: bool,
    /// The native balance of the account.
    pub lamports: u64,
    /// The data that the account holds.
    pub data: Vec<u8>,
    /// The program that owns the account.
    pub owner: Pubkey,
}

/// An account as plain values.
pub struct AccountView {
    pub key: Seq<u8>,
    pub is_signer: bool,
    pub lamports: u64,
    pub data: Seq<u8>,
    pub owner: Seq<u8>,
}

impl View for Account {
    type V = AccountView;

    open spec fn view(&self) -> AccountView {
        AccountView {
            key: self.key@,
            is_signer: self.is_signer,
            lamports: self.lamports,
            data: self.data@,
            owner: self.owner@,
        }
    }
}

impl DeepView for Account {
    type V = AccountView;

    open spec fn deep_view(&self) -> AccountView {
        self@
    }
}

/// The account at position `index` of the list, which has to be that long.
pub fn account_at(accounts: &Vec<Account>, index: usize) -> (result: Result<&Account, ProgramError>)
    ensures
        index < accounts.len() ==> result == Ok::<&Account, ProgramError>(&accounts[index as int]),
        index >= accounts.len() ==> result == Err::<&Account, ProgramError>(
            ProgramError::NotEnoughAccountKeys,
        ),
{
    if index < accounts.len() {
        Ok(&accounts[index])
    } else {
        Err(ProgramError::NotEnoughAccountKeys)
    }
}

} // verus!
