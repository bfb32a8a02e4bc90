//! The wire format of the two instructions: one tag byte, then the amount
//! as eight bytes, least significant byte first.

use vstd::prelude::*;
use crate::bytes::{read_u64_le, u64_from_le};
use crate::error::{escrow_failure, EscrowError, ProgramError};

verus! {

/// An instruction of the escrow program.
#[derive(Debug, Clone, Copy, PartialEq, Eq, Structural)]
pub enum EscrowInstruction {
    /// Starts the trade: fills the escrow record and hands the custody
    /// account to the derived authority.
    ///
    /// Accounts expected:
    ///
    /// 0. `[signer]` the initializer
    /// 1. `[writable]` the custody account, created before this instruction
    ///    and owned by the initializer
    /// 2. `[]` the initializer's account for the asset they will receive
    /// 3. `[writable]` the escrow record
    /// 4. `[]` the host's permanence rule
    /// 5. `[]` the token program
    InitEscrow {
        /// The amount the initializer demands in return.
        amount: u64,
    },
    /// Accepts the trade.
    ///
    /// Accounts expected:
    ///
    /// 0. `[signer]` the taker
    /// 1. `[writable]` the taker's account for the asset they send
    /// 2. `[writable]` the taker's account for the asset they will receive
    /// 3. `[writable]` the custody account
    /// 4. `[writable]` the initializer's main account, which gets the
    ///    deposits back
    /// 5. `[writable]` the initializer's account that receives the payment
    /// 6. `[writable]` the escrow record
    /// 7. `[]` the token program
    /// 8. `[]` the derived authority
    Exchange {
        /// The amount the taker expects to get out of custody.
        amount: u64,
    },
}

/// The amount at the head of `input`: its first eight bytes, if it has
/// that many. What follows them is not looked at.
pub open spec fn unpack_amount_spec(input: Seq<u8>) -> Result<u64, ProgramError> {
    if input.len() >= 8 {
        Ok(u64_from_le(input.subrange(0, 8)))
    } else {
        Err(escrow_failure(EscrowError::InvalidInstruction))
    }
}

/// The instruction that `input` stands for: tag 0 starts a trade, tag 1
/// accepts one, and the amount follows the tag.
pub open spec fn unpack_spec(input: Seq<u8>) -> Result<EscrowInstruction, ProgramError> {
    if input.len() == 0 {
        Err(escrow_failure(EscrowError::InvalidInstruction))
    } else if input[0] == 0 {
        match unpack_amount_spec(input.skip(1)) {
            Ok(amount) => Ok(EscrowInstruction::InitEscrow { amount }),
            Err(e) => Err(e),
        }
    } else if input[0] == 1 {
        match unpack_amount_spec(input.skip(1)) {
            Ok(amount) => Ok(EscrowInstruction::Exchange { amount }),
            Err(e) => Err(e),
        }
    } else {
        Err(escrow_failure(EscrowError::InvalidInstruction))
    }
}

impl EscrowInstruction {
    /// Decodes an instruction from its wire bytes.
    pub fn unpack(input: &[u8]) -> (result: Result<EscrowInstruction, ProgramError>)
        ensures
            result == unpack_spec(input@),
    {
        if input.len() == 0 {
            return Err(ProgramError::from(EscrowError::InvalidInstruction));
        }
        let tag: u8 = input[0];
        let rest = vstd::slice::slice_subrange(input, 1, input.len());
        if tag == 0 {
            match Self::unpack_amount(rest) {
                Ok(amount) => Ok(EscrowInstruction::InitEscrow { amount }),
                Err(e) => Err(e),
            }
        } else if tag == 1 {
            match Self::unpack_amount(rest) {
                Ok(amount) => Ok(EscrowInstruction::Exchange { amount }),
                Err(e) => Err(e),
            }
        } else {
            Err(ProgramError::from(EscrowError::InvalidInstruction))
        }
    }

    /// Decodes the amount that follows the tag.
    pub fn unpack_amount(input: &[u8]) -> (result: Result<u64, ProgramError>)
        ensures
            result == unpack_amount_spec(input@),
    {
        if input.len() >= 8 {
            Ok(read_u64_le(input, 0))
        } else {
            Err(ProgramError::from(EscrowError::InvalidInstruction))
        }
    }
}

/// An instruction decodes exactly when its tag is 0 or 1 and at least
/// eight bytes follow the tag; bytes after the amount change nothing.
pub proof fn lemma_unpack_total(input: Seq<u8>)
    ensures
        unpack_spec(input) is Ok <==> input.len() >= 9 && input[0] <= 1,
        unpack_spec(input) is Err ==> unpack_spec(input) == Err::<EscrowInstruction, ProgramError>(
            escrow_failure(EscrowError::InvalidInstruction),
        ),
        input.len() >= 9 ==> unpack_spec(input) == unpack_spec(input.subrange(0, 9)),
{
    if input.len() >= 9 {
        assert(input.skip(1).subrange(0, 8) =~= input.subrange(0, 9).skip(1).subrange(0, 8));
    }
}

} // verus!
