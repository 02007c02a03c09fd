//! The program's instruction encoding: a tag byte followed by a little-endian
//! 64-bit argument.

use vstd::prelude::*;
use vstd::bytes::{
    lemma_auto_spec_u64_to_from_le_bytes, spec_u64_from_le_bytes, spec_u64_to_le_bytes,
    u64_from_le_bytes, u64_to_le_bytes,
};
use vstd::slice::slice_subrange;

use crate::error::ProgramError;

verus! {

/// The tag byte of `Initialize`.
pub const INITIALIZE_TAG: u8 = 0;

/// The tag byte of `FaucetMint`.
pub const FAUCET_MINT_TAG: u8 = 1;

/// An instruction of the authorization program.
#[derive(Clone, Copy, Debug, PartialEq, Eq, Structural)]
pub enum Instruction {
    /// Writes a fresh configuration with the given cooldown.
    Initialize { cooldown_seconds: u64 },
    /// Issues `amount` smallest units to a wallet whose cooldown has passed.
    FaucetMint { amount: u64 },
}

/// The little-endian integer held in bytes 1 to 8 of `input`.
pub open spec fn argument_of(input: Seq<u8>) -> u64 {
    spec_u64_from_le_bytes(input.subrange(1, 9))
}

/// What a byte string decodes to: a known tag followed by at least eight
/// argument bytes, or malformed instruction data.
pub open spec fn decode(input: Seq<u8>) -> Result<Instruction, ProgramError> {
    if input.len() >= 9 && input[0] == INITIALIZE_TAG {
        Ok(Instruction::Initialize { cooldown_seconds: argument_of(input) })
    } else if input.len() >= 9 && input[0] == FAUCET_MINT_TAG {
        Ok(Instruction::FaucetMint { amount: argument_of(input) })
    } else {
        Err(ProgramError::InvalidInstructionData)
    }
}

/// The bytes that encode an instruction: its tag, then its argument.
pub open spec fn encode(ix: Instruction) -> Seq<u8> {
    match ix {
        Instruction::Initialize { cooldown_seconds } => seq![INITIALIZE_TAG]
            + spec_u64_to_le_bytes(cooldown_seconds),
        Instruction::FaucetMint { amount } => seq![FAUCET_MINT_TAG] + spec_u64_to_le_bytes(amount),
    }
}

/// Decoding an encoded instruction gives it back.
pub proof fn lemma_decode_encode(ix: Instruction)
    ensures
        decode(encode(ix)) == Ok::<Instruction, ProgramError>(ix),
{
    lemma_auto_spec_u64_to_from_le_bytes();
    let arg = match ix {
        Instruction::Initialize { cooldown_seconds } => cooldown_seconds,
        Instruction::FaucetMint { amount } => amount,
    };
    assert(encode(ix).subrange(1, 9) =~= spec_u64_to_le_bytes(arg));
}

impl Instruction {
    /// Encodes the instruction as instruction data.
    pub fn pack(&self) -> (r: Vec<u8>)
        ensures
            r@ == encode(*self),
            decode(r@) == Ok::<Instruction, ProgramError>(*self),
    {
        proof {
            lemma_decode_encode(*self);
        }
        let (tag, arg) = match self {
            Instruction::Initialize { cooldown_seconds } => (INITIALIZE_TAG, *cooldown_seconds),
            Instruction::FaucetMint { amount } => (FAUCET_MINT_TAG, *amount),
        };
        let bytes = u64_to_le_bytes(arg);
        let mut r: Vec<u8> = vec![tag];
        let mut i: usize = 0;
        while i < bytes.len()
            invariant
                0 <= i <= bytes@.len(),
                r@ == seq![tag] + bytes@.subrange(0, i as int),
            decreases bytes@.len() - i,
        {
            r.push(bytes[i]);
            i = i + 1;
            assert(r@ =~= seq![tag] + bytes@.subrange(0, i as int));
        }
        assert(bytes@.subrange(0, i as int) =~= bytes@);
        r
    }

    /// Decodes instruction data.
    pub fn unpack(input: &[u8]) -> (r: Result<Instruction, ProgramError>)
        ensures
            r == decode(input@),
    {
        if input.len() < 9 {
            return Err(ProgramError::InvalidInstructionData);
        }
        let tag = input[0];
        if tag != INITIALIZE_TAG && tag != FAUCET_MINT_TAG {
            return Err(ProgramError::InvalidInstructionData);
        }
        let payload = slice_subrange(input, 1, 9);
        let value = u64_from_le_bytes(payload);
        if tag == INITIALIZE_TAG {
            Ok(Instruction::Initialize { cooldown_seconds: value })
        } else {
            Ok(Instruction::FaucetMint { amount: value })
        }
    }
}

} // verus!
