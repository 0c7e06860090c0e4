use vstd::prelude::*;

verus! {

/// Opcode of `MOV_R1`: loads the 16-bit immediate that follows into `R1`.
pub const OPCODE_MOV_R1: u8 = 0x10;

/// Opcode of `MOV_R2`: loads the 16-bit immediate that follows into `R2`.
pub const OPCODE_MOV_R2: u8 = 0x11;

/// Opcode of `ADD_R1_R2`: `ACC` becomes the wrapping sum of `R1` and `R2`.
pub const OPCODE_ADD_R1_R2: u8 = 0x12;

/// A decoded instruction. Each variant fixes its operand shape: the two
/// moves are followed by a big-endian 16-bit immediate (high byte first), the add by nothing.
#[derive(Clone, Copy, PartialEq, Eq, Structural, Debug)]
pub enum Instruction {
    MovR1,
    MovR2,
    AddR1R2,
}

/// Why a byte could not be decoded.
#[derive(Clone, Copy, PartialEq, Eq, Structural, Debug)]
pub enum DecodeError {
    /// The byte matches no entry of the opcode table.
    UnknownOpcode(u8),
}

/// The opcode table, read from opcode to instruction.
pub open spec fn decode_spec(byte: u8) -> Result<Instruction, DecodeError> {
    if byte == OPCODE_MOV_R1 {
        Ok(Instruction::MovR1)
    } else if byte == OPCODE_MOV_R2 {
        Ok(Instruction::MovR2)
    } else if byte == OPCODE_ADD_R1_R2 {
        Ok(Instruction::AddR1R2)
    } else {
        Err(DecodeError::UnknownOpcode(byte))
    }
}

impl Instruction {
    /// The opcode byte of the instruction.
    pub open spec fn opcode_spec(self) -> u8 {
        match self {
            Instruction::MovR1 => OPCODE_MOV_R1,
            Instruction::MovR2 => OPCODE_MOV_R2,
            Instruction::AddR1R2 => OPCODE_ADD_R1_R2,
        }
    }

    /// Encoded length in bytes, opcode included.
    pub open spec fn width_spec(self) -> nat {
        match self {
            Instruction::MovR1 => 3,
            Instruction::MovR2 => 3,
            Instruction::AddR1R2 => 1,
        }
    }

    /// Classifies an opcode byte; fails with `UnknownOpcode(byte)` on a byte
    /// outside the table.
    pub fn decode(byte: u8) -> (r: Result<Instruction, DecodeError>)
        ensures
            r == decode_spec(byte),
    {
        match byte {
            OPCODE_MOV_R1 => Ok(Instruction::MovR1),
            OPCODE_MOV_R2 => Ok(Instruction::MovR2),
            OPCODE_ADD_R1_R2 => Ok(Instruction::AddR1R2),
            _ => Err(DecodeError::UnknownOpcode(byte)),
        }
    }

    /// The opcode byte of the instruction.
    pub fn opcode(&self) -> (r: u8)
        ensures
            r == self.opcode_spec(),
    {
        match self {
            Instruction::MovR1 => OPCODE_MOV_R1,
            Instruction::MovR2 => OPCODE_MOV_R2,
            Instruction::AddR1R2 => OPCODE_ADD_R1_R2,
        }
    }

    /// Encoded length in bytes, opcode included.
    pub fn width(&self) -> (r: u16)
        ensures
            r as nat == self.width_spec(),
    {
        match self {
            Instruction::MovR1 => 3,
            Instruction::MovR2 => 3,
            Instruction::AddR1R2 => 1,
        }
    }
}

impl TryFrom<u8> for Instruction {
    type Error = DecodeError;

    fn try_from(value: u8) -> (r: Result<Instruction, DecodeError>)
        ensures
            r == decode_spec(value),
    {
        Instruction::decode(value)
    }
}

impl vstd::std_specs::convert::TryFromSpecImpl<u8> for Instruction {
    open spec fn obeys_try_from_spec() -> bool {
        true
    }

    open spec fn try_from_spec(value: u8) -> Result<Instruction, DecodeError> {
        decode_spec(value)
    }
}

/// Decoding succeeds exactly on the three opcodes of the table, each giving its
/// own instruction, and fails on every other byte with `UnknownOpcode` of that byte.
pub proof fn lemma_decode_table(byte: u8)
    ensures
        byte == 0x10 <==> decode_spec(byte) == Ok::<Instruction, DecodeError>(Instruction::MovR1),
        byte == 0x11 <==> decode_spec(byte) == Ok::<Instruction, DecodeError>(Instruction::MovR2),
        byte == 0x12 <==> decode_spec(byte) == Ok::<Instruction, DecodeError>(
            Instruction::AddR1R2,
        ),
        !(0x10 <= byte <= 0x12) <==> decode_spec(byte) == Err::<Instruction, DecodeError>(
            DecodeError::UnknownOpcode(byte),
        ),
{
}

/// Decoding an instruction's opcode gives the instruction back.
pub proof fn lemma_decode_opcode(instr: Instruction)
    ensures
        decode_spec(instr.opcode_spec()) == Ok::<Instruction, DecodeError>(instr),
{
}

} // verus!
