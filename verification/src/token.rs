//! The token program as the escrow sees it: its identity, the instructions
//! that the escrow hands to it, and the balance of a token account.

use vstd::prelude::*;
use solana_program::program_pack::Pack;
use spl_token::instruction::AuthorityType as TokenAuthority;
use crate::bytes::{u64_from_le, u64_to_le};
use crate::error::ProgramError;
use crate::pubkey::Pubkey;

verus! {

/// One account of an instruction, and how the instruction uses it.
#[derive(Debug, Clone, Copy, PartialEq, Eq)]
pub struct AccountMeta {
    pub pubkey: Pubkey,
    pub is_signer: bool,
    pub is_writable: bool,
}

/// An account of an instruction as plain values.
pub struct AccountMetaView {
    pub pubkey: Seq<u8>,
    pub is_signer: bool,
    pub is_writable: bool,
}

impl View for AccountMeta {
    type V = AccountMetaView;

    open spec fn view(&self) -> AccountMetaView {
        AccountMetaView {
            pubkey: self.pubkey@,
            is_signer: self.is_signer,
            is_writable: self.is_writable,
        }
    }
}

impl AccountMeta {
    /// The account of the given bytes, used as said.
    pub fn new(bytes: [u8; 32], is_signer: bool, is_writable: bool) -> (meta: AccountMeta)
        ensures
            meta@ == (AccountMetaView { pubkey: bytes@, is_signer, is_writable }),
    {
        AccountMeta { pubkey: Pubkey::new_from_array(bytes), is_signer, is_writable }
    }
}

impl DeepView for AccountMeta {
    type V = AccountMetaView;

    open spec fn deep_view(&self) -> AccountMetaView {
        self@
    }
}

/// An instruction for another program: the program, the accounts it is to
/// work on, and its data.
#[derive(Debug, Clone, PartialEq, Eq)]
pub struct Instruction {
    pub program_id: Pubkey,
    pub accounts: Vec<AccountMeta>,
    pub data: Vec<u8>,
}

/// An instruction as plain values.
pub struct InstructionView {
    pub program_id: Seq<u8>,
    pub accounts: Seq<AccountMetaView>,
    pub data: Seq<u8>,
}

impl View for Instruction {
    type V = InstructionView;

    open spec fn view(&self) -> InstructionView {
        InstructionView {
            program_id: self.program_id@,
            accounts: self.accounts.deep_view(),
            data: self.data@,
        }
    }
}

/// What an `Option` of an instruction says as plain values.
pub open spec fn instruction_view(ix: Option<Instruction>) -> Option<InstructionView> {
    match ix {
        Some(ix) => Some(ix@),
        None => None,
    }
}

/// The authority of a token account or mint that `SetAuthority` can change.
#[derive(Debug, Clone, Copy, PartialEq, Eq, Structural)]
pub enum AuthorityType {
    MintTokens,
    FreezeAccount,
    AccountOwner,
    CloseAccount,
}

impl AuthorityType {
    /// The byte that stands for this kind of authority in an instruction.
    pub open spec fn tag(self) -> u8 {
        match self {
            AuthorityType::MintTokens => 0,
            AuthorityType::FreezeAccount => 1,
            AuthorityType::AccountOwner => 2,
            AuthorityType::CloseAccount => 3,
        }
    }
}

/// The identity of the token program.
pub open spec fn token_program_id_spec() -> Seq<u8> {
    seq![
        6u8, 221u8, 246u8, 225u8, 215u8, 101u8, 161u8, 147u8, 217u8, 203u8, 225u8, 70u8, 206u8,
        235u8, 121u8, 172u8, 28u8, 180u8, 133u8, 237u8, 95u8, 91u8, 55u8, 145u8, 58u8, 140u8,
        245u8, 133u8, 126u8, 255u8, 0u8, 169u8,
    ]
}

/// The identity of the token program, which is
/// `TokenkegQfeZyiNwAJbNbGKPFXCWuBvf9Ss623VQ5DA` in base 58.
pub fn token_program_id() -> (id: Pubkey)
    ensures
        id@ == token_program_id_spec(),
{
    let bytes: [u8; 32] = [
        6, 221, 246, 225, 215, 101, 161, 147, 217, 203, 225, 70, 206, 235, 121, 172, 28, 180,
        133, 237, 95, 91, 55, 145, 58, 140, 245, 133, 126, 255, 0, 169,
    ];
    Pubkey::new_from_array(bytes)
}

/// An account that the instruction may change and that does not sign.
pub open spec fn writable(key: Seq<u8>) -> AccountMetaView {
    AccountMetaView { pubkey: key, is_signer: false, is_writable: true }
}

/// An account that the instruction only reads.
pub open spec fn readonly(key: Seq<u8>, is_signer: bool) -> AccountMetaView {
    AccountMetaView { pubkey: key, is_signer, is_writable: false }
}

/// The accounts that close every instruction of the token program: the
/// authority, which does not sign where a signer is named, and the signer.
pub open spec fn authority_metas(authority: Seq<u8>, signer: Seq<u8>) -> Seq<AccountMetaView> {
    seq![readonly(authority, false), readonly(signer, true)]
}

/// The `SetAuthority` instruction of the token program: it exists for the
/// token program only.
pub open spec fn set_authority_spec(
    token_program: Seq<u8>,
    owned: Seq<u8>,
    new_authority: Seq<u8>,
    authority_type: AuthorityType,
    owner: Seq<u8>,
    signer: Seq<u8>,
) -> Option<InstructionView> {
    if token_program != token_program_id_spec() {
        None
    } else {
        Some(
            InstructionView {
                program_id: token_program,
                accounts: seq![writable(owned)] + authority_metas(owner, signer),
                data: seq![6u8, authority_type.tag(), 1u8] + new_authority,
            },
        )
    }
}

/// The `Transfer` instruction of the token program.
pub open spec fn transfer_spec(
    token_program: Seq<u8>,
    source: Seq<u8>,
    destination: Seq<u8>,
    authority: Seq<u8>,
    signer: Seq<u8>,
    amount: u64,
) -> Option<InstructionView> {
    if token_program != token_program_id_spec() {
        None
    } else {
        Some(
            InstructionView {
                program_id: token_program,
                accounts: seq![writable(source), writable(destination)] + authority_metas(
                    authority,
                    signer,
                ),
                data: seq![3u8] + u64_to_le(amount),
            },
        )
    }
}

/// The `CloseAccount` instruction of the token program.
pub open spec fn close_account_spec(
    token_program: Seq<u8>,
    account: Seq<u8>,
    destination: Seq<u8>,
    owner: Seq<u8>,
    signer: Seq<u8>,
) -> Option<InstructionView> {
    if token_program != token_program_id_spec() {
        None
    } else {
        Some(
            InstructionView {
                program_id: token_program,
                accounts: seq![writable(account), writable(destination)] + authority_metas(
                    owner,
                    signer,
                ),
                data: seq![9u8],
            },
        )
    }
}

/// `spl_token::instruction::set_authority`, with a new authority and one
/// signer named. It refuses any program but the token program. Else the
/// instruction has as its accounts the owned account, writable, then the
/// owner, which does not sign, and the signer; and as its data the tag 6,
/// the kind of authority, a 1, and the new authority.
#[verifier::external_body]
pub(crate) fn set_authority(
    token_program: &Pubkey,
    owned: &Pubkey,
    new_authority: &Pubkey,
    authority_type: AuthorityType,
    owner: &Pubkey,
    signer: &Pubkey,
) -> (ix: Option<Instruction>)
    ensures
        instruction_view(ix) == set_authority_spec(
            token_program@,
            owned@,
            new_authority@,
            authority_type,
            owner@,
            signer@,
        ),
{
    let kind = match authority_type {
        AuthorityType::MintTokens => TokenAuthority::MintTokens,
        AuthorityType::FreezeAccount => TokenAuthority::FreezeAccount,
        AuthorityType::AccountOwner => TokenAuthority::AccountOwner,
        AuthorityType::CloseAccount => TokenAuthority::CloseAccount,
    };
    let (program, owned, new) = (token_program.bytes.into(), owned.bytes.into(), new_authority.bytes.into());
    spl_token::instruction::set_authority(&program, &owned, Some(&new), kind, &owner.bytes.into(), &[&signer.bytes.into()])
        .ok()
        .map(|ix| Instruction {
            program_id: Pubkey::new_from_array(ix.program_id.to_bytes()),
            accounts: ix.accounts.iter().map(|m| AccountMeta::new(m.pubkey.to_bytes(), m.is_signer, m.is_writable)).collect(),
            data: ix.data,
        })
}

/// `spl_token::instruction::transfer`, with one signer named. It refuses
/// any program but the token program. Else the instruction has as its
/// accounts the source and the destination, both writable, then the
/// authority, which does not sign, and the signer; and as its data the tag
/// 3 and the amount, least significant byte first.
#[verifier::external_body]
pub(crate) fn transfer(
    token_program: &Pubkey,
    source: &Pubkey,
    destination: &Pubkey,
    authority: &Pubkey,
    signer: &Pubkey,
    amount: u64,
) -> (ix: Option<Instruction>)
    ensures
        instruction_view(ix) == transfer_spec(
            token_program@,
            source@,
            destination@,
            authority@,
            signer@,
            amount,
        ),
{
    let (program, source, destination) = (token_program.bytes.into(), source.bytes.into(), destination.bytes.into());
    spl_token::instruction::transfer(&program, &source, &destination, &authority.bytes.into(), &[&signer.bytes.into()], amount)
        .ok()
        .map(|ix| Instruction {
            program_id: Pubkey::new_from_array(ix.program_id.to_bytes()),
            accounts: ix.accounts.iter().map(|m| AccountMeta::new(m.pubkey.to_bytes(), m.is_signer, m.is_writable)).collect(),
            data: ix.data,
        })
}

/// `spl_token::instruction::close_account`, with one signer named. It
/// refuses any program but the token program. Else the instruction has as
/// its accounts the account to close and the destination of its deposit,
/// both writable, then the owner, which does not sign, and the signer; and
/// as its data the tag 9.
#[verifier::external_body]
pub(crate) fn close_account(
    token_program: &Pubkey,
    account: &Pubkey,
    destination: &Pubkey,
    owner: &Pubkey,
    signer: &Pubkey,
) -> (ix: Option<Instruction>)
    ensures
        instruction_view(ix) == close_account_spec(
            token_program@,
            account@,
            destination@,
            owner@,
            signer@,
        ),
{
    let (program, account, destination) = (token_program.bytes.into(), account.bytes.into(), destination.bytes.into());
    spl_token::instruction::close_account(&program, &account, &destination, &owner.bytes.into(), &[&signer.bytes.into()])
        .ok()
        .map(|ix| Instruction {
            program_id: Pubkey::new_from_array(ix.program_id.to_bytes()),
            accounts: ix.accounts.iter().map(|m| AccountMeta::new(m.pubkey.to_bytes(), m.is_signer, m.is_writable)).collect(),
            data: ix.data,
        })
}

/// Whether the four bytes of `data` that start at `at` say that an optional
/// field is absent or present: a 0 or a 1, least significant byte first.
pub open spec fn option_tag_ok(data: Seq<u8>, at: int) -> bool {
    data[at] <= 1 && data[at + 1] == 0 && data[at + 2] == 0 && data[at + 3] == 0
}

/// The number of bytes of a token account.
pub const TOKEN_ACCOUNT_LEN: usize = 165;

/// The balance that the data of a token account holds. The data is
/// `[mint: 32][owner: 32][amount: 8][delegate: 4 + 32][state: 1][native:
/// 4 + 8][delegated amount: 8][close authority: 4 + 32]`: it has to have
/// that length, its three optional fields have to be marked absent or
/// present, and its state has to be 1 (initialized) or 2 (frozen); state 0
/// is an account that is not initialized.
pub open spec fn token_account_amount_spec(data: Seq<u8>) -> Result<u64, ProgramError> {
    if data.len() != TOKEN_ACCOUNT_LEN {
        Err(ProgramError::InvalidAccountData)
    } else if !option_tag_ok(data, 72) || data[108] > 2 || !option_tag_ok(data, 109)
        || !option_tag_ok(data, 129) {
        Err(ProgramError::InvalidAccountData)
    } else if data[108] == 0 {
        Err(ProgramError::UninitializedAccount)
    } else {
        Ok(u64_from_le(data.subrange(64, 72)))
    }
}

/// `Account::unpack` of `spl_token::state`, of which the escrow reads the
/// amount. It fails with `InvalidAccountData` on data of another length
/// than 165 bytes, on an optional field whose mark is neither 0 nor 1, and
/// on a state above 2; with `UninitializedAccount` on state 0; and else
/// gives the amount in bytes 64 to 71, least significant byte first.
#[verifier::external_body]
pub(crate) fn token_account_amount(data: &[u8]) -> (amount: Result<u64, ProgramError>)
    ensures
        amount == token_account_amount_spec(data@),
{
    match spl_token::state::Account::unpack(data) {
        Ok(account) => Ok(account.amount),
        Err(solana_program::program_error::ProgramError::UninitializedAccount) => Err(
            ProgramError::UninitializedAccount,
        ),
        Err(_) => Err(ProgramError::InvalidAccountData),
    }
}

} // verus!
