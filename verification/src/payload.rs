//! Wire-exact encoding of the call payload sent to the external staking
//! venue: one opcode byte followed by an unsigned 64-bit amount, little
//! endian, nine bytes in all.

use vstd::prelude::*;

use crate::error::LedgerError;

verus! {

/// Encoded length of a stake payload: one opcode byte plus eight amount bytes.
pub const STAKE_LEN: usize = 9;

/// The little-endian byte sequence of a 64-bit value.
pub open spec fn u64_le_bytes(v: u64) -> Seq<u8> {
    seq![
        (v & 0xff) as u8,
        ((v >> 8) & 0xff) as u8,
        ((v >> 16) & 0xff) as u8,
        ((v >> 24) & 0xff) as u8,
        ((v >> 32) & 0xff) as u8,
        ((v >> 40) & 0xff) as u8,
        ((v >> 48) & 0xff) as u8,
        ((v >> 56) & 0xff) as u8,
    ]
}

/// The 64-bit value read from eight little-endian bytes.
pub open spec fn u64_from_le_bytes(b: Seq<u8>) -> u64
    recommends
        b.len() == 8,
{
    ((b[0] as u64) | ((b[1] as u64) << 8) | ((b[2] as u64) << 16)
        | ((b[3] as u64) << 24) | ((b[4] as u64) << 32) | ((b[5] as u64) << 40)
        | ((b[6] as u64) << 48) | ((b[7] as u64) << 56)) as u64
}

/// Reading back the little-endian bytes of a value yields the value.
pub proof fn lemma_u64_le_roundtrip(v: u64)
    ensures
        u64_from_le_bytes(u64_le_bytes(v)) == v,
{
    assert((((v & 0xff) as u8) as u64) | (((((v >> 8) & 0xff) as u8) as u64) << 8)
        | (((((v >> 16) & 0xff) as u8) as u64) << 16)
        | (((((v >> 24) & 0xff) as u8) as u64) << 24)
        | (((((v >> 32) & 0xff) as u8) as u64) << 32)
        | (((((v >> 40) & 0xff) as u8) as u64) << 40)
        | (((((v >> 48) & 0xff) as u8) as u64) << 48)
        | (((((v >> 56) & 0xff) as u8) as u64) << 56) == v) by (bit_vector);
}

/// The nine wire bytes of a stake payload: opcode first, then the amount.
pub open spec fn stake_payload_bytes(instruction: u8, amount: u64) -> Seq<u8> {
    seq![instruction] + u64_le_bytes(amount)
}

/// A call to the external venue: a one-byte opcode plus an unsigned amount.
/// Transient value object, never persisted.
#[derive(Clone, Copy, Debug, PartialEq, Eq, Structural)]
pub struct Stake {
    pub instruction: u8,
    pub amount: u64,
}

impl Stake {
    /// Encoded size of the payload, always the fixed wire length.
    pub fn get_size(&self) -> (r: usize)
        ensures
            r == STAKE_LEN,
    {
        STAKE_LEN
    }

    /// Writes the nine wire bytes over the front of `output`, leaving the
    /// rest of the buffer untouched, and reports the number of bytes written.
    pub fn pack(&self, output: &mut Vec<u8>) -> (r: Result<usize, LedgerError>)
        requires
            old(output).len() >= STAKE_LEN,
        ensures
            r == Ok::<usize, LedgerError>(STAKE_LEN as usize),
            final(output)@ == stake_payload_bytes(self.instruction, self.amount)
                + old(output)@.skip(STAKE_LEN as int),
    {
        output.set(0, self.instruction);
        output.set(1, (self.amount & 0xff) as u8);
        output.set(2, ((self.amount >> 8) & 0xff) as u8);
        output.set(3, ((self.amount >> 16) & 0xff) as u8);
        output.set(4, ((self.amount >> 24) & 0xff) as u8);
        output.set(5, ((self.amount >> 32) & 0xff) as u8);
        output.set(6, ((self.amount >> 40) & 0xff) as u8);
        output.set(7, ((self.amount >> 48) & 0xff) as u8);
        output.set(8, ((self.amount >> 56) & 0xff) as u8);
        proof {
            assert(output@ =~= stake_payload_bytes(self.instruction, self.amount)
                + old(output)@.skip(STAKE_LEN as int));
        }
        Ok(STAKE_LEN)
    }

    /// The payload as a fresh nine-byte vector.
    pub fn to_vec(&self) -> (r: Result<Vec<u8>, LedgerError>)
        ensures
            r matches Ok(v) && v@ == stake_payload_bytes(self.instruction, self.amount),
    {
        let mut output: Vec<u8> = Vec::new();
        output.push(self.instruction);
        output.push((self.amount & 0xff) as u8);
        output.push(((self.amount >> 8) & 0xff) as u8);
        output.push(((self.amount >> 16) & 0xff) as u8);
        output.push(((self.amount >> 24) & 0xff) as u8);
        output.push(((self.amount >> 32) & 0xff) as u8);
        output.push(((self.amount >> 40) & 0xff) as u8);
        output.push(((self.amount >> 48) & 0xff) as u8);
        output.push(((self.amount >> 56) & 0xff) as u8);
        proof {
            assert(output@ =~= stake_payload_bytes(self.instruction, self.amount));
        }
        Ok(output)
    }

    /// Decodes nine wire bytes back into a payload; any other length is
    /// invalid instruction data.
    pub fn unpack(input: &Vec<u8>) -> (r: Result<Stake, LedgerError>)
        ensures
            input@.len() == STAKE_LEN ==> (r matches Ok(s) && s.instruction == input@[0]
                && s.amount == u64_from_le_bytes(input@.skip(1))),
            input@.len() != STAKE_LEN ==> (r matches Err(e)
                && e == LedgerError::InvalidInstructionData),
    {
        if input.len() != STAKE_LEN {
            return Err(LedgerError::InvalidInstructionData);
        }
        let instruction = input[0];
        let amount: u64 = (input[1] as u64) | ((input[2] as u64) << 8)
            | ((input[3] as u64) << 16) | ((input[4] as u64) << 24)
            | ((input[5] as u64) << 32) | ((input[6] as u64) << 40)
            | ((input[7] as u64) << 48) | ((input[8] as u64) << 56);
        proof {
            assert(input@.skip(1).len() == 8);
            assert(input@.skip(1)[0] == input@[1]);
            assert(input@.skip(1)[1] == input@[2]);
            assert(input@.skip(1)[2] == input@[3]);
            assert(input@.skip(1)[3] == input@[4]);
            assert(input@.skip(1)[4] == input@[5]);
            assert(input@.skip(1)[5] == input@[6]);
            assert(input@.skip(1)[6] == input@[7]);
            assert(input@.skip(1)[7] == input@[8]);
        }
        Ok(Stake { instruction, amount })
    }
}

/// Round trip: encoding a payload and decoding the bytes yields the same
/// opcode and amount, and the encoded length is always nine bytes.
pub proof fn lemma_stake_payload_roundtrip(instruction: u8, amount: u64)
    ensures
        stake_payload_bytes(instruction, amount).len() == STAKE_LEN,
        stake_payload_bytes(instruction, amount)[0] == instruction,
        u64_from_le_bytes(stake_payload_bytes(instruction, amount).skip(1)) == amount,
{
    assert(stake_payload_bytes(instruction, amount).skip(1) =~= u64_le_bytes(amount));
    lemma_u64_le_roundtrip(amount);
}

} // verus!
