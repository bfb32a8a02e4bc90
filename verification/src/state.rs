//! The escrow record and its fixed layout of 105 bytes:
//! `[initialized: 1][initializer: 32][custody account: 32][receiving
//! account: 32][expected amount: 8, least significant byte first]`.

use vstd::prelude::*;
use crate::bytes::{read_u64_le, u64_from_le, u64_to_le, write_u64_le};
use crate::bytes::{lemma_le_u64_round_trip, lemma_u64_le_round_trip};
use crate::error::ProgramError;
use crate::pubkey::Pubkey;

verus! {

/// The persisted state of one trade.
#[derive(Debug, Clone, Copy, PartialEq, Eq)]
pub struct Escrow {
    /// True once the record holds a live trade.
    pub is_initialized: bool,
    /// The owner of the trade, who receives the payment.
    pub initializer_pubkey: Pubkey,
    /// The custody account, which holds the escrowed asset under the
    /// derived authority.
    pub tmp_token_account_pubkey: Pubkey,
    /// Where the payment must land.
    pub initializer_token_to_receive_account_pubkey: Pubkey,
    /// The amount the initializer demands in return.
    pub expected_amount: u64,
}

/// A record as plain values.
pub struct EscrowView {
    pub is_initialized: bool,
    pub initializer_pubkey: Seq<u8>,
    pub tmp_token_account_pubkey: Seq<u8>,
    pub initializer_token_to_receive_account_pubkey: Seq<u8>,
    pub expected_amount: u64,
}

impl View for Escrow {
    type V = EscrowView;

    open spec fn view(&self) -> EscrowView {
        EscrowView {
            is_initialized: self.is_initialized,
            initializer_pubkey: self.initializer_pubkey@,
            tmp_token_account_pubkey: self.tmp_token_account_pubkey@,
            initializer_token_to_receive_account_pubkey:
                self.initializer_token_to_receive_account_pubkey@,
            expected_amount: self.expected_amount,
        }
    }
}

impl EscrowView {
    /// Every identity in the record has its 32 bytes.
    pub open spec fn wf(self) -> bool {
        &&& self.initializer_pubkey.len() == 32
        &&& self.tmp_token_account_pubkey.len() == 32
        &&& self.initializer_token_to_receive_account_pubkey.len() == 32
    }
}

/// The number of bytes of a record.
pub const ESCROW_LEN: usize = 105;

/// The bytes that a record is persisted as.
pub open spec fn pack_spec(e: EscrowView) -> Seq<u8> {
    seq![if e.is_initialized { 1u8 } else { 0u8 }] + e.initializer_pubkey
        + e.tmp_token_account_pubkey + e.initializer_token_to_receive_account_pubkey
        + u64_to_le(e.expected_amount)
}

/// The record that 105 bytes stand for. The first byte has to be 0 or 1.
pub open spec fn unpack_from_slice_spec(src: Seq<u8>) -> Result<EscrowView, ProgramError>
    recommends
        src.len() == ESCROW_LEN,
{
    if src[0] > 1 {
        Err(ProgramError::InvalidAccountData)
    } else {
        Ok(
            EscrowView {
                is_initialized: src[0] == 1,
                initializer_pubkey: src.subrange(1, 33),
                tmp_token_account_pubkey: src.subrange(33, 65),
                initializer_token_to_receive_account_pubkey: src.subrange(65, 97),
                expected_amount: u64_from_le(src.subrange(97, 105)),
            },
        )
    }
}

/// The record in `src`, whether or not it holds a live trade: `src` has to
/// have the length of a record.
pub open spec fn unpack_unchecked_spec(src: Seq<u8>) -> Result<EscrowView, ProgramError> {
    if src.len() != ESCROW_LEN {
        Err(ProgramError::InvalidAccountData)
    } else {
        unpack_from_slice_spec(src)
    }
}

/// The live trade in `src`: as `unpack_unchecked_spec`, and a record that
/// is not initialized is refused.
pub open spec fn unpack_spec(src: Seq<u8>) -> Result<EscrowView, ProgramError> {
    match unpack_unchecked_spec(src) {
        Ok(e) => if e.is_initialized {
            Ok(e)
        } else {
            Err(ProgramError::UninitializedAccount)
        },
        Err(e) => Err(e),
    }
}

/// What a `Result` of a record says as plain values.
pub open spec fn result_view(r: Result<Escrow, ProgramError>) -> Result<EscrowView, ProgramError> {
    match r {
        Ok(e) => Ok(e@),
        Err(e) => Err(e),
    }
}

impl Escrow {
    /// The number of bytes of a record.
    pub const LEN: usize = ESCROW_LEN;

    /// Whether the record holds a live trade.
    pub fn is_initialized(&self) -> (b: bool)
        ensures
            b == self@.is_initialized,
    {
        self.is_initialized
    }

    /// Reads a record out of bytes of the right length.
    pub fn unpack_from_slice(src: &[u8]) -> (result: Result<Escrow, ProgramError>)
        requires
            src@.len() == ESCROW_LEN,
        ensures
            result_view(result) == unpack_from_slice_spec(src@),
    {
        let flag: u8 = src[0];
        if flag > 1 {
            return Err(ProgramError::InvalidAccountData);
        }
        Ok(
            Escrow {
                is_initialized: flag == 1,
                initializer_pubkey: Pubkey::read(src, 1),
                tmp_token_account_pubkey: Pubkey::read(src, 33),
                initializer_token_to_receive_account_pubkey: Pubkey::read(src, 65),
                expected_amount: read_u64_le(src, 97),
            },
        )
    }

    /// Reads a record without asking whether it holds a live trade. This is
    /// how a freshly allocated record, all zeroes, is read.
    pub fn unpack_unchecked(src: &[u8]) -> (result: Result<Escrow, ProgramError>)
        ensures
            result_view(result) == unpack_unchecked_spec(src@),
    {
        if src.len() != ESCROW_LEN {
            return Err(ProgramError::InvalidAccountData);
        }
        Self::unpack_from_slice(src)
    }

    /// Reads the record of a live trade.
    pub fn unpack(src: &[u8]) -> (result: Result<Escrow, ProgramError>)
        ensures
            result_view(result) == unpack_spec(src@),
    {
        match Self::unpack_unchecked(src) {
            Ok(e) => if e.is_initialized {
                Ok(e)
            } else {
                Err(ProgramError::UninitializedAccount)
            },
            Err(e) => Err(e),
        }
    }

    /// The bytes of this record.
    pub fn to_bytes(&self) -> (out: Vec<u8>)
        ensures
            out@ == pack_spec(self@),
            out@.len() == ESCROW_LEN,
    {
        let mut out: Vec<u8> = Vec::new();
        out.push(if self.is_initialized { 1u8 } else { 0u8 });
        self.initializer_pubkey.write(&mut out);
        self.tmp_token_account_pubkey.write(&mut out);
        self.initializer_token_to_receive_account_pubkey.write(&mut out);
        write_u64_le(&mut out, self.expected_amount);
        out
    }

    /// Writes the record over `dst`, which has to have the length of a
    /// record; any other `dst` is left as it is.
    pub fn pack(src: Escrow, dst: &mut Vec<u8>) -> (result: Result<(), ProgramError>)
        ensures
            old(dst)@.len() == ESCROW_LEN ==> result is Ok && final(dst)@ == pack_spec(src@),
            old(dst)@.len() != ESCROW_LEN ==> result == Err::<(), ProgramError>(
                ProgramError::InvalidAccountData,
            ) && final(dst)@ == old(dst)@,
    {
        if dst.len() != ESCROW_LEN {
            return Err(ProgramError::InvalidAccountData);
        }
        *dst = src.to_bytes();
        Ok(())
    }
}

/// A record always packs into 105 bytes, and reading them gives the record
/// back: as it is where it is read unchecked, and as a live trade exactly
/// when it is initialized.
pub proof fn lemma_pack_unpack(e: EscrowView)
    requires
        e.wf(),
    ensures
        pack_spec(e).len() == ESCROW_LEN,
        unpack_unchecked_spec(pack_spec(e)) == Ok::<EscrowView, ProgramError>(e),
        e.is_initialized ==> unpack_spec(pack_spec(e)) == Ok::<EscrowView, ProgramError>(e),
        !e.is_initialized ==> unpack_spec(pack_spec(e)) == Err::<EscrowView, ProgramError>(
            ProgramError::UninitializedAccount,
        ),
{
    let b = pack_spec(e);
    lemma_u64_le_round_trip(e.expected_amount);
    assert(b.subrange(1, 33) =~= e.initializer_pubkey);
    assert(b.subrange(33, 65) =~= e.tmp_token_account_pubkey);
    assert(b.subrange(65, 97) =~= e.initializer_token_to_receive_account_pubkey);
    assert(b.subrange(97, 105) =~= u64_to_le(e.expected_amount));
}

/// Bytes that read as a record are the bytes that the record packs into.
pub proof fn lemma_unpack_pack(src: Seq<u8>)
    requires
        unpack_unchecked_spec(src) is Ok,
    ensures
        pack_spec(unpack_unchecked_spec(src)->Ok_0) == src,
        unpack_unchecked_spec(src)->Ok_0.wf(),
{
    lemma_le_u64_round_trip(src.subrange(97, 105));
}

/// A freshly allocated record, all zeroes, reads unchecked as a record
/// that holds no trade.
pub proof fn lemma_zeroed_record_is_uninitialized(src: Seq<u8>)
    requires
        src.len() == ESCROW_LEN,
        forall|i: int| 0 <= i < src.len() ==> src[i] == 0,
    ensures
        unpack_unchecked_spec(src) is Ok,
        !unpack_unchecked_spec(src)->Ok_0.is_initialized,
        unpack_spec(src) == Err::<EscrowView, ProgramError>(ProgramError::UninitializedAccount),
{
}

} // verus!
