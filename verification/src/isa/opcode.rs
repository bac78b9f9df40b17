//! The opcode map: one byte in the primary table, or the escape byte and one
//! byte in the extended table, and the shape of the operand that follows.
//!
//! The map is stated twice. The block structure below (`shape_spec` and
//! `template`) says by arithmetic where each family of instructions lies; the
//! executable tables list every opcode by name and are proved to agree with it.

use crate::isa::codec::InstructionBytes;
use crate::isa::instruction::{
    Alu1Op, Alu2Op, Alu2OpMode, Condition, IOMode, Instruction, JumpMode, LeaMode, Memory16Mode,
    Memory8Mode, Pointer, Register16, Register8, RegisterPair,
};
use crate::isa::{high_byte, low_byte, Byte, Word};
use vstd::pervasive::unreached;
use vstd::prelude::*;

verus! {

/// An opcode of the primary table, or one of the extended table, which is
/// written after the escape byte.
#[derive(Clone, Copy, Debug, PartialEq, Eq, Structural)]
pub enum Opcode {
    Normal(Byte),
    Extended(Byte),
}

/// What follows an opcode in the byte stream.
#[derive(Clone, Copy, Debug, PartialEq, Eq, Structural)]
pub enum OperandShape {
    /// Nothing.
    Bare,
    /// One byte.
    Byte,
    /// One word, low byte first.
    Word,
}

impl OperandShape {
    /// The number of operand bytes.
    pub open spec fn width(self) -> nat {
        match self {
            OperandShape::Bare => 0,
            OperandShape::Byte => 1,
            OperandShape::Word => 2,
        }
    }
}

/// The memory mode at position `m` (0 to 15) of a block of eight-bit loads
/// or stores.
pub open spec fn memory8_mode(m: int, byte: Byte, word: Word) -> Memory8Mode {
    if m == 0 {
        Memory8Mode::Absolute(word)
    } else if m < 4 {
        Memory8Mode::ConstantOffset(Pointer::at(m - 1), byte)
    } else {
        Memory8Mode::RegisterOffset(Pointer::at((m - 4) / 4), Register8::at((m - 4) % 4))
    }
}

/// The shape of the operand at position `m` of such a block.
pub open spec fn memory8_shape(m: int) -> OperandShape {
    if m == 0 {
        OperandShape::Word
    } else if m < 4 {
        OperandShape::Byte
    } else {
        OperandShape::Bare
    }
}

/// The I/O mode at position `k` (0 to 10) of a block of port accesses.
pub open spec fn io_mode(k: int, byte: Byte) -> IOMode {
    if k == 0 {
        IOMode::Port(byte)
    } else if k < 3 {
        IOMode::ConstantOffset(Register16::at(k - 1), byte)
    } else {
        IOMode::RegisterOffset(Register16::at((k - 3) / 4), Register8::at((k - 3) % 4))
    }
}

/// The shape of the operand at position `k` of such a block.
pub open spec fn io_shape(k: int) -> OperandShape {
    if k < 3 {
        OperandShape::Byte
    } else {
        OperandShape::Bare
    }
}

/// The memory mode at position `m` (0 to 3) of a block of sixteen-bit loads
/// or stores.
pub open spec fn memory16_mode(m: int, byte: Byte, word: Word) -> Memory16Mode {
    if m == 0 {
        Memory16Mode::Absolute(word)
    } else {
        Memory16Mode::ConstantOffset(Pointer::at(m - 1), byte)
    }
}

/// The shape of the operand at position `m` of such a block.
pub open spec fn memory16_shape(m: int) -> OperandShape {
    if m == 0 {
        OperandShape::Word
    } else {
        OperandShape::Byte
    }
}

/// The offset mode at position `l` (0 to 4) of a block of address
/// computations.
pub open spec fn lea_mode(l: int, byte: Byte) -> LeaMode {
    if l < 4 {
        LeaMode::Register(Register8::at(l))
    } else {
        LeaMode::Constant(byte)
    }
}

/// The left operand at position `j` (0 to 19) of a block of two-operand
/// operations: sixteen register pairs, then four registers with a constant.
pub open spec fn alu2_left(j: int) -> Register8 {
    if j < 16 {
        Register8::at(j / 4)
    } else {
        Register8::at(j - 16)
    }
}

/// The right operand at position `j` of such a block.
pub open spec fn alu2_mode(j: int, byte: Byte) -> Alu2OpMode {
    if j < 16 {
        Alu2OpMode::Register(Register8::at(j % 4))
    } else {
        Alu2OpMode::Constant(byte)
    }
}

/// The shape of the operand at position `j` of such a block.
pub open spec fn alu2_shape(j: int) -> OperandShape {
    if j < 16 {
        OperandShape::Bare
    } else {
        OperandShape::Byte
    }
}

/// The jump mode at position `j` (0 to 3) of a block of jumps or calls.
pub open spec fn jump_mode(j: int, byte: Byte, word: Word) -> JumpMode {
    if j == 0 {
        JumpMode::Relative(byte)
    } else if j == 1 {
        JumpMode::Absolute(word)
    } else {
        JumpMode::Indirect(Register16::at(j - 2), byte)
    }
}

/// The shape of the operand at position `j` of such a block.
pub open spec fn jump_shape(j: int) -> OperandShape {
    if j == 1 {
        OperandShape::Word
    } else {
        OperandShape::Byte
    }
}

/// The instruction that the primary table gives for an opcode other than
/// the escape, with the operand it read.
#[verifier::opaque]
pub open spec fn primary_template(n: int, byte: Byte, word: Word) -> Instruction {
    if n == 0x00 {
        Instruction::Nop
    } else if n == 0x02 {
        Instruction::SetCarry
    } else if n == 0x03 {
        Instruction::ClearCarry
    } else if n == 0x04 {
        Instruction::SetInterruptEnable
    } else if n == 0x05 {
        Instruction::ClearInterruptEnable
    } else if n == 0x06 {
        Instruction::SetBankEnable
    } else if n == 0x07 {
        Instruction::ClearBankEnable
    } else if n == 0x08 {
        Instruction::ReadBankRegister
    } else if n == 0x09 {
        Instruction::WriteBankRegister
    } else if n < 0x1A {
        Instruction::Move8(Register8::at((n - 0x0A) / 4), Register8::at((n - 0x0A) % 4))
    } else if n < 0x1E {
        Instruction::Load8Immediate(Register8::at(n - 0x1A), byte)
    } else if n < 0x5E {
        Instruction::Load8(
            Register8::at((n - 0x1E) / 16),
            memory8_mode((n - 0x1E) % 16, byte, word),
        )
    } else if n < 0x9E {
        Instruction::Store8(
            memory8_mode((n - 0x5E) % 16, byte, word),
            Register8::at((n - 0x5E) / 16),
        )
    } else if n < 0xCA {
        Instruction::In(Register8::at((n - 0x9E) / 11), io_mode((n - 0x9E) % 11, byte))
    } else if n < 0xF6 {
        Instruction::Out(io_mode((n - 0xCA) % 11, byte), Register8::at((n - 0xCA) / 11))
    } else if n == 0xF6 {
        Instruction::ReadStackPointer
    } else if n == 0xF7 {
        Instruction::WriteStackPointer
    } else if (n - 0xF8) % 4 < 2 {
        Instruction::Move16(Register16::at((n - 0xF8) / 4), Register16::at((n - 0xF8) % 4))
    } else {
        Instruction::Move16FromPair(
            Register16::at((n - 0xF8) / 4),
            RegisterPair::at((n - 0xF8) % 4 - 2),
        )
    }
}

/// The shape of the operand that follows an opcode of the primary table.
#[verifier::opaque]
pub open spec fn primary_shape(n: int) -> OperandShape {
    if n < 0x1A {
        OperandShape::Bare
    } else if n < 0x1E {
        OperandShape::Byte
    } else if n < 0x9E {
        memory8_shape((n - 0x1E) % 16)
    } else if n < 0xF6 {
        io_shape((n - 0x9E) % 11)
    } else {
        OperandShape::Bare
    }
}

/// The instruction that the extended table gives for an opcode, with the
/// operand it read.
#[verifier::opaque]
pub open spec fn extended_template(n: int, byte: Byte, word: Word) -> Instruction {
    if n < 0x04 {
        Instruction::Move16ToPair(RegisterPair::at(n / 2), Register16::at(n % 2))
    } else if n < 0x06 {
        Instruction::Load16Immediate(Register16::at(n - 0x04), word)
    } else if n < 0x0E {
        Instruction::Load16(
            Register16::at((n - 0x06) / 4),
            memory16_mode((n - 0x06) % 4, byte, word),
        )
    } else if n < 0x16 {
        Instruction::Store16(
            memory16_mode((n - 0x0E) % 4, byte, word),
            Register16::at((n - 0x0E) / 4),
        )
    } else if n < 0x25 {
        Instruction::Lea(Pointer::at((n - 0x16) / 5), lea_mode((n - 0x16) % 5, byte))
    } else if n < 0x27 {
        Instruction::Inc16(Register16::at(n - 0x25))
    } else if n < 0x29 {
        Instruction::Dec16(Register16::at(n - 0x27))
    } else if n < 0x8D {
        Instruction::Alu2(
            Alu2Op::at((n - 0x29) / 20),
            alu2_left((n - 0x29) % 20),
            alu2_mode((n - 0x29) % 20, byte),
        )
    } else if n < 0xA9 {
        Instruction::Alu1(Alu1Op::at((n - 0x8D) / 4), Register8::at((n - 0x8D) % 4))
    } else if n < 0xBD {
        Instruction::Alu2(Alu2Op::Cmp, alu2_left(n - 0xA9), alu2_mode(n - 0xA9, byte))
    } else if n < 0xC1 {
        Instruction::Alu1(Alu1Op::Test, Register8::at(n - 0xBD))
    } else if n < 0xC5 {
        Instruction::Push8(Register8::at(n - 0xC1))
    } else if n < 0xC7 {
        Instruction::Push16(Register16::at(n - 0xC5))
    } else if n < 0xCB {
        Instruction::Pop8(Register8::at(n - 0xC7))
    } else if n < 0xCD {
        Instruction::Pop16(Register16::at(n - 0xCB))
    } else if n < 0xD1 {
        Instruction::Call(jump_mode(n - 0xCD, byte, word))
    } else if n == 0xD1 {
        Instruction::Ret
    } else if n == 0xD2 {
        Instruction::Swi
    } else if n == 0xD3 {
        Instruction::Reti
    } else {
        Instruction::Jmp(
            Condition::at((n - 0xD4) / 4),
            jump_mode((n - 0xD4) % 4, byte, word),
        )
    }
}

/// The shape of the operand that follows an opcode of the extended table.
#[verifier::opaque]
pub open spec fn extended_shape(n: int) -> OperandShape {
    if n < 0x04 {
        OperandShape::Bare
    } else if n < 0x06 {
        OperandShape::Word
    } else if n < 0x16 {
        memory16_shape((n - 0x06) % 4)
    } else if n < 0x25 {
        if (n - 0x16) % 5 == 4 {
            OperandShape::Byte
        } else {
            OperandShape::Bare
        }
    } else if n < 0x29 {
        OperandShape::Bare
    } else if n < 0x8D {
        alu2_shape((n - 0x29) % 20)
    } else if n < 0xA9 {
        OperandShape::Bare
    } else if n < 0xBD {
        alu2_shape(n - 0xA9)
    } else if n < 0xCD {
        OperandShape::Bare
    } else if n < 0xD1 {
        jump_shape(n - 0xCD)
    } else if n < 0xD4 {
        OperandShape::Bare
    } else {
        jump_shape((n - 0xD4) % 4)
    }
}

impl Opcode {
    /// Whether this is the escape byte of the primary table, which stands for
    /// no instruction and announces an extended opcode.
    pub open spec fn is_escape(self) -> bool {
        self == Opcode::Normal(EXT)
    }

    /// The bytes that write the opcode: itself, or the escape and itself.
    pub open spec fn prefix(self) -> Seq<Byte> {
        match self {
            Opcode::Normal(byte) => seq![byte],
            Opcode::Extended(byte) => seq![EXT, byte],
        }
    }

    /// The shape of the operand that follows the opcode.
    pub open spec fn shape_spec(self) -> OperandShape {
        match self {
            Opcode::Normal(byte) => primary_shape(byte as int),
            Opcode::Extended(byte) => extended_shape(byte as int),
        }
    }

    /// The instruction that the opcode stands for, given the operand that
    /// was read after it: `byte` where the shape is one byte, `word` where it
    /// is a word. The escape stands for none.
    pub open spec fn template(self, byte: Byte, word: Word) -> Option<Instruction> {
        match self {
            Opcode::Normal(op) => if op == EXT {
                None
            } else {
                Some(primary_template(op as int, byte, word))
            },
            Opcode::Extended(op) => Some(extended_template(op as int, byte, word)),
        }
    }

    /// Writes the opcode with a one-byte operand.
    pub fn encode_with_byte(&self, byte: Byte) -> (bytes: InstructionBytes)
        ensures
            bytes@ == self.prefix() + seq![byte],
    {
        self.encode_with(InstructionBytes::One(byte))
    }

    /// Writes the opcode with a word operand, low byte first.
    pub fn encode_with_word(&self, word: Word) -> (bytes: InstructionBytes)
        ensures
            bytes@ == self.prefix() + seq![low_byte(word), high_byte(word)],
    {
        let low = (word & 255) as Byte;
        let high = (word >> 8) as Byte;
        assert(low == low_byte(word)) by (bit_vector)
            requires
                low == (word & 255) as u8,
        ;
        assert(high == high_byte(word)) by (bit_vector)
            requires
                high == (word >> 8) as u8,
        ;
        self.encode_with(InstructionBytes::Two(low, high))
    }

    /// Writes the opcode in front of operand bytes. The result has at most
    /// four bytes, so the operand has at most three, and at most two after an
    /// extended opcode.
    pub fn encode_with(&self, bytes: InstructionBytes) -> (all: InstructionBytes)
        requires
            self.prefix().len() + bytes@.len() <= 4,
        ensures
            all@ == self.prefix() + bytes@,
    {
        match self {
            Opcode::Normal(byte) => match bytes {
                InstructionBytes::One(operand) => InstructionBytes::Two(*byte, operand),
                InstructionBytes::Two(low, high) => InstructionBytes::Three(*byte, low, high),
                InstructionBytes::Three(operand, low, high) => {
                    InstructionBytes::Four(*byte, operand, low, high)
                },
                InstructionBytes::Four(..) => unreached(),
            },
            Opcode::Extended(byte) => match bytes {
                InstructionBytes::One(operand) => InstructionBytes::Three(EXT, *byte, operand),
                InstructionBytes::Two(low, high) => InstructionBytes::Four(EXT, *byte, low, high),
                _ => unreached(),
            },
        }
    }

    /// Writes the opcode alone.
    pub fn encode(&self) -> (bytes: InstructionBytes)
        ensures
            bytes@ == self.prefix(),
    {
        match self {
            Opcode::Normal(byte) => InstructionBytes::One(*byte),
            Opcode::Extended(byte) => InstructionBytes::Two(EXT, *byte),
        }
    }
}

// The primary table.

pub const NOP: Byte = 0x00;

/// The escape: the next byte is an opcode of the extended table.
pub const EXT: Byte = 0x01;

pub const SET_C: Byte = 0x02;
pub const CLR_C: Byte = 0x03;

pub const SET_I: Byte = 0x04;
pub const CLR_I: Byte = 0x05;

pub const SET_B: Byte = 0x06;
pub const CLR_B: Byte = 0x07;

pub const MV_A_BR: Byte = 0x08;
pub const MV_BR_A: Byte = 0x09;

pub const MV_A_A: Byte = 0x0A;
pub const MV_A_B: Byte = 0x0B;
pub const MV_A_C: Byte = 0x0C;
pub const MV_A_D: Byte = 0x0D;
pub const MV_B_A: Byte = 0x0E;
pub const MV_B_B: Byte = 0x0F;
pub const MV_B_C: Byte = 0x10;
pub const MV_B_D: Byte = 0x11;
pub const MV_C_A: Byte = 0x12;
pub const MV_C_B: Byte = 0x13;
pub const MV_C_C: Byte = 0x14;
pub const MV_C_D: Byte = 0x15;
pub const MV_D_A: Byte = 0x16;
pub const MV_D_B: Byte = 0x17;
pub const MV_D_C: Byte = 0x18;
pub const MV_D_D: Byte = 0x19;

pub const LD_A_IMM: Byte = 0x1A;
pub const LD_B_IMM: Byte = 0x1B;
pub const LD_C_IMM: Byte = 0x1C;
pub const LD_D_IMM: Byte = 0x1D;

pub const LD_A_ABS: Byte = 0x1E;
pub const LD_A_REL_X_BY_IMM: Byte = 0x1F;
pub const LD_A_REL_Y_BY_IMM: Byte = 0x20;
pub const LD_A_REL_SP_BY_IMM: Byte = 0x21;
pub const LD_A_REL_X_BY_A: Byte = 0x22;
pub const LD_A_REL_X_BY_B: Byte = 0x23;
pub const LD_A_REL_X_BY_C: Byte = 0x24;
pub const LD_A_REL_X_BY_D: Byte = 0x25;
pub const LD_A_REL_Y_BY_A: Byte = 0x26;
pub const LD_A_REL_Y_BY_B: Byte = 0x27;
pub const LD_A_REL_Y_BY_C: Byte = 0x28;
pub const LD_A_REL_Y_BY_D: Byte = 0x29;
pub const LD_A_REL_SP_BY_A: Byte = 0x2A;
pub const LD_A_REL_SP_BY_B: Byte = 0x2B;
pub const LD_A_REL_SP_BY_C: Byte = 0x2C;
pub const LD_A_REL_SP_BY_D: Byte = 0x2D;

pub const LD_B_ABS: Byte = 0x2E;
pub const LD_B_REL_X_BY_IMM: Byte = 0x2F;
pub const LD_B_REL_Y_BY_IMM: Byte = 0x30;
pub const LD_B_REL_SP_BY_IMM: Byte = 0x31;
pub const LD_B_REL_X_BY_A: Byte = 0x32;
pub const LD_B_REL_X_BY_B: Byte = 0x33;
pub const LD_B_REL_X_BY_C: Byte = 0x34;
pub const LD_B_REL_X_BY_D: Byte = 0x35;
pub const LD_B_REL_Y_BY_A: Byte = 0x36;
pub const LD_B_REL_Y_BY_B: Byte = 0x37;
pub const LD_B_REL_Y_BY_C: Byte = 0x38;
pub const LD_B_REL_Y_BY_D: Byte = 0x39;
pub const LD_B_REL_SP_BY_A: Byte = 0x3A;
pub const LD_B_REL_SP_BY_B: Byte = 0x3B;
pub const LD_B_REL_SP_BY_C: Byte = 0x3C;
pub const LD_B_REL_SP_BY_D: Byte = 0x3D;

pub const LD_C_ABS: Byte = 0x3E;
pub const LD_C_REL_X_BY_IMM: Byte = 0x3F;
pub const LD_C_REL_Y_BY_IMM: Byte = 0x40;
pub const LD_C_REL_SP_BY_IMM: Byte = 0x41;
pub const LD_C_REL_X_BY_A: Byte = 0x42;
pub const LD_C_REL_X_BY_B: Byte = 0x43;
pub const LD_C_REL_X_BY_C: Byte = 0x44;
pub const LD_C_REL_X_BY_D: Byte = 0x45;
pub const LD_C_REL_Y_BY_A: Byte = 0x46;
pub const LD_C_REL_Y_BY_B: Byte = 0x47;
pub const LD_C_REL_Y_BY_C: Byte = 0x48;
pub const LD_C_REL_Y_BY_D: Byte = 0x49;
pub const LD_C_REL_SP_BY_A: Byte = 0x4A;
pub const LD_C_REL_SP_BY_B: Byte = 0x4B;
pub const LD_C_REL_SP_BY_C: Byte = 0x4C;
pub const LD_C_REL_SP_BY_D: Byte = 0x4D;

pub const LD_D_ABS: Byte = 0x4E;
pub const LD_D_REL_X_BY_IMM: Byte = 0x4F;
pub const LD_D_REL_Y_BY_IMM: Byte = 0x50;
pub const LD_D_REL_SP_BY_IMM: Byte = 0x51;
pub const LD_D_REL_X_BY_A: Byte = 0x52;
pub const LD_D_REL_X_BY_B: Byte = 0x53;
pub const LD_D_REL_X_BY_C: Byte = 0x54;
pub const LD_D_REL_X_BY_D: Byte = 0x55;
pub const LD_D_REL_Y_BY_A: Byte = 0x56;
pub const LD_D_REL_Y_BY_B: Byte = 0x57;
pub const LD_D_REL_Y_BY_C: Byte = 0x58;
pub const LD_D_REL_Y_BY_D: Byte = 0x59;
pub const LD_D_REL_SP_BY_A: Byte = 0x5A;
pub const LD_D_REL_SP_BY_B: Byte = 0x5B;
pub const LD_D_REL_SP_BY_C: Byte = 0x5C;
pub const LD_D_REL_SP_BY_D: Byte = 0x5D;

pub const ST_ABS_A: Byte = 0x5E;
pub const ST_REL_X_BY_IMM_A: Byte = 0x5F;
pub const ST_REL_Y_BY_IMM_A: Byte = 0x60;
pub const ST_REL_SP_BY_IMM_A: Byte = 0x61;
pub const ST_REL_X_BY_A_A: Byte = 0x62;
pub const ST_REL_X_BY_B_A: Byte = 0x63;
pub const ST_REL_X_BY_C_A: Byte = 0x64;
pub const ST_REL_X_BY_D_A: Byte = 0x65;
pub const ST_REL_Y_BY_A_A: Byte = 0x66;
pub const ST_REL_Y_BY_B_A: Byte = 0x67;
pub const ST_REL_Y_BY_C_A: Byte = 0x68;
pub const ST_REL_Y_BY_D_A: Byte = 0x69;
pub const ST_REL_SP_BY_A_A: Byte = 0x6A;
pub const ST_REL_SP_BY_B_A: Byte = 0x6B;
pub const ST_REL_SP_BY_C_A: Byte = 0x6C;
pub const ST_REL_SP_BY_D_A: Byte = 0x6D;

pub const ST_ABS_B: Byte = 0x6E;
pub const ST_REL_X_BY_IMM_B: Byte = 0x6F;
pub const ST_REL_Y_BY_IMM_B: Byte = 0x70;
pub const ST_REL_SP_BY_IMM_B: Byte = 0x71;
pub const ST_REL_X_BY_A_B: Byte = 0x72;
pub const ST_REL_X_BY_B_B: Byte = 0x73;
pub const ST_REL_X_BY_C_B: Byte = 0x74;
pub const ST_REL_X_BY_D_B: Byte = 0x75;
pub const ST_REL_Y_BY_A_B: Byte = 0x76;
pub const ST_REL_Y_BY_B_B: Byte = 0x77;
pub const ST_REL_Y_BY_C_B: Byte = 0x78;
pub const ST_REL_Y_BY_D_B: Byte = 0x79;
pub const ST_REL_SP_BY_A_B: Byte = 0x7A;
pub const ST_REL_SP_BY_B_B: Byte = 0x7B;
pub const ST_REL_SP_BY_C_B: Byte = 0x7C;
pub const ST_REL_SP_BY_D_B: Byte = 0x7D;

pub const ST_ABS_C: Byte = 0x7E;
pub const ST_REL_X_BY_IMM_C: Byte = 0x7F;
pub const ST_REL_Y_BY_IMM_C: Byte = 0x80;
pub const ST_REL_SP_BY_IMM_C: Byte = 0x81;
pub const ST_REL_X_BY_A_C: Byte = 0x82;
pub const ST_REL_X_BY_B_C: Byte = 0x83;
pub const ST_REL_X_BY_C_C: Byte = 0x84;
pub const ST_REL_X_BY_D_C: Byte = 0x85;
pub const ST_REL_Y_BY_A_C: Byte = 0x86;
pub const ST_REL_Y_BY_B_C: Byte = 0x87;
pub const ST_REL_Y_BY_C_C: Byte = 0x88;
pub const ST_REL_Y_BY_D_C: Byte = 0x89;
pub const ST_REL_SP_BY_A_C: Byte = 0x8A;
pub const ST_REL_SP_BY_B_C: Byte = 0x8B;
pub const ST_REL_SP_BY_C_C: Byte = 0x8C;
pub const ST_REL_SP_BY_D_C: Byte = 0x8D;

pub const ST_ABS_D: Byte = 0x8E;
pub const ST_REL_X_BY_IMM_D: Byte = 0x8F;
pub const ST_REL_Y_BY_IMM_D: Byte = 0x90;
pub const ST_REL_SP_BY_IMM_D: Byte = 0x91;
pub const ST_REL_X_BY_A_D: Byte = 0x92;
pub const ST_REL_X_BY_B_D: Byte = 0x93;
pub const ST_REL_X_BY_C_D: Byte = 0x94;
pub const ST_REL_X_BY_D_D: Byte = 0x95;
pub const ST_REL_Y_BY_A_D: Byte = 0x96;
pub const ST_REL_Y_BY_B_D: Byte = 0x97;
pub const ST_REL_Y_BY_C_D: Byte = 0x98;
pub const ST_REL_Y_BY_D_D: Byte = 0x99;
pub const ST_REL_SP_BY_A_D: Byte = 0x9A;
pub const ST_REL_SP_BY_B_D: Byte = 0x9B;
pub const ST_REL_SP_BY_C_D: Byte = 0x9C;
pub const ST_REL_SP_BY_D_D: Byte = 0x9D;

pub const IN_A_PORT: Byte = 0x9E;
pub const IN_A_REL_X_BY_IMM: Byte = 0x9F;
pub const IN_A_REL_Y_BY_IMM: Byte = 0xA0;
pub const IN_A_REL_X_BY_A: Byte = 0xA1;
pub const IN_A_REL_X_BY_B: Byte = 0xA2;
pub const IN_A_REL_X_BY_C: Byte = 0xA3;
pub const IN_A_REL_X_BY_D: Byte = 0xA4;
pub const IN_A_REL_Y_BY_A: Byte = 0xA5;
pub const IN_A_REL_Y_BY_B: Byte = 0xA6;
pub const IN_A_REL_Y_BY_C: Byte = 0xA7;
pub const IN_A_REL_Y_BY_D: Byte = 0xA8;

pub const IN_B_PORT: Byte = 0xA9;
pub const IN_B_REL_X_BY_IMM: Byte = 0xAA;
pub const IN_B_REL_Y_BY_IMM: Byte = 0xAB;
pub const IN_B_REL_X_BY_A: Byte = 0xAC;
pub const IN_B_REL_X_BY_B: Byte = 0xAD;
pub const IN_B_REL_X_BY_C: Byte = 0xAE;
pub const IN_B_REL_X_BY_D: Byte = 0xAF;
pub const IN_B_REL_Y_BY_A: Byte = 0xB0;
pub const IN_B_REL_Y_BY_B: Byte = 0xB1;
pub const IN_B_REL_Y_BY_C: Byte = 0xB2;
pub const IN_B_REL_Y_BY_D: Byte = 0xB3;

pub const IN_C_PORT: Byte = 0xB4;
pub const IN_C_REL_X_BY_IMM: Byte = 0xB5;
pub const IN_C_REL_Y_BY_IMM: Byte = 0xB6;
pub const IN_C_REL_X_BY_A: Byte = 0xB7;
pub const IN_C_REL_X_BY_B: Byte = 0xB8;
pub const IN_C_REL_X_BY_C: Byte = 0xB9;
pub const IN_C_REL_X_BY_D: Byte = 0xBA;
pub const IN_C_REL_Y_BY_A: Byte = 0xBB;
pub const IN_C_REL_Y_BY_B: Byte = 0xBC;
pub const IN_C_REL_Y_BY_C: Byte = 0xBD;
pub const IN_C_REL_Y_BY_D: Byte = 0xBE;

pub const IN_D_PORT: Byte = 0xBF;
pub const IN_D_REL_X_BY_IMM: Byte = 0xC0;
pub const IN_D_REL_Y_BY_IMM: Byte = 0xC1;
pub const IN_D_REL_X_BY_A: Byte = 0xC2;
pub const IN_D_REL_X_BY_B: Byte = 0xC3;
pub const IN_D_REL_X_BY_C: Byte = 0xC4;
pub const IN_D_REL_X_BY_D: Byte = 0xC5;
pub const IN_D_REL_Y_BY_A: Byte = 0xC6;
pub const IN_D_REL_Y_BY_B: Byte = 0xC7;
pub const IN_D_REL_Y_BY_C: Byte = 0xC8;
pub const IN_D_REL_Y_BY_D: Byte = 0xC9;

pub const OUT_PORT_A: Byte = 0xCA;
pub const OUT_REL_X_BY_IMM_A: Byte = 0xCB;
pub const OUT_REL_Y_BY_IMM_A: Byte = 0xCC;
pub const OUT_REL_X_BY_A_A: Byte = 0xCD;
pub const OUT_REL_X_BY_B_A: Byte = 0xCE;
pub const OUT_REL_X_BY_C_A: Byte = 0xCF;
pub const OUT_REL_X_BY_D_A: Byte = 0xD0;
pub const OUT_REL_Y_BY_A_A: Byte = 0xD1;
pub const OUT_REL_Y_BY_B_A: Byte = 0xD2;
pub const OUT_REL_Y_BY_C_A: Byte = 0xD3;
pub const OUT_REL_Y_BY_D_A: Byte = 0xD4;

pub const OUT_PORT_B: Byte = 0xD5;
pub const OUT_REL_X_BY_IMM_B: Byte = 0xD6;
pub const OUT_REL_Y_BY_IMM_B: Byte = 0xD7;
pub const OUT_REL_X_BY_A_B: Byte = 0xD8;
pub const OUT_REL_X_BY_B_B: Byte = 0xD9;
pub const OUT_REL_X_BY_C_B: Byte = 0xDA;
pub const OUT_REL_X_BY_D_B: Byte = 0xDB;
pub const OUT_REL_Y_BY_A_B: Byte = 0xDC;
pub const OUT_REL_Y_BY_B_B: Byte = 0xDD;
pub const OUT_REL_Y_BY_C_B: Byte = 0xDE;
pub const OUT_REL_Y_BY_D_B: Byte = 0xDF;

pub const OUT_PORT_C: Byte = 0xE0;
pub const OUT_REL_X_BY_IMM_C: Byte = 0xE1;
pub const OUT_REL_Y_BY_IMM_C: Byte = 0xE2;
pub const OUT_REL_X_BY_A_C: Byte = 0xE3;
pub const OUT_REL_X_BY_B_C: Byte = 0xE4;
pub const OUT_REL_X_BY_C_C: Byte = 0xE5;
pub const OUT_REL_X_BY_D_C: Byte = 0xE6;
pub const OUT_REL_Y_BY_A_C: Byte = 0xE7;
pub const OUT_REL_Y_BY_B_C: Byte = 0xE8;
pub const OUT_REL_Y_BY_C_C: Byte = 0xE9;
pub const OUT_REL_Y_BY_D_C: Byte = 0xEA;

pub const OUT_PORT_D: Byte = 0xEB;
pub const OUT_REL_X_BY_IMM_D: Byte = 0xEC;
pub const OUT_REL_Y_BY_IMM_D: Byte = 0xED;
pub const OUT_REL_X_BY_A_D: Byte = 0xEE;
pub const OUT_REL_X_BY_B_D: Byte = 0xEF;
pub const OUT_REL_X_BY_C_D: Byte = 0xF0;
pub const OUT_REL_X_BY_D_D: Byte = 0xF1;
pub const OUT_REL_Y_BY_A_D: Byte = 0xF2;
pub const OUT_REL_Y_BY_B_D: Byte = 0xF3;
pub const OUT_REL_Y_BY_C_D: Byte = 0xF4;
pub const OUT_REL_Y_BY_D_D: Byte = 0xF5;

pub const MV_X_SP: Byte = 0xF6;
pub const MV_SP_X: Byte = 0xF7;

pub const MV_X_X: Byte = 0xF8;
pub const MV_X_Y: Byte = 0xF9;
pub const MV_X_AB: Byte = 0xFA;
pub const MV_X_CD: Byte = 0xFB;

pub const MV_Y_X: Byte = 0xFC;
pub const MV_Y_Y: Byte = 0xFD;
pub const MV_Y_AB: Byte = 0xFE;
pub const MV_Y_CD: Byte = 0xFF;

// The extended table.

pub const MV_AB_X: Byte = 0x00;
pub const MV_AB_Y: Byte = 0x01;

pub const MV_CD_X: Byte = 0x02;
pub const MV_CD_Y: Byte = 0x03;

pub const LD_X_IMM: Byte = 0x04;
pub const LD_Y_IMM: Byte = 0x05;

pub const LD_X_ABS: Byte = 0x06;
pub const LD_X_REL_X_BY_IMM: Byte = 0x07;
pub const LD_X_REL_Y_BY_IMM: Byte = 0x08;
pub const LD_X_REL_SP_BY_IMM: Byte = 0x09;

pub const LD_Y_ABS: Byte = 0x0A;
pub const LD_Y_REL_X_BY_IMM: Byte = 0x0B;
pub const LD_Y_REL_Y_BY_IMM: Byte = 0x0C;
pub const LD_Y_REL_SP_BY_IMM: Byte = 0x0D;

pub const ST_ABS_X: Byte = 0x0E;
pub const ST_REL_X_BY_IMM_X: Byte = 0x0F;
pub const ST_REL_Y_BY_IMM_X: Byte = 0x10;
pub const ST_REL_SP_BY_IMM_X: Byte = 0x11;

pub const ST_ABS_Y: Byte = 0x12;
pub const ST_REL_X_BY_IMM_Y: Byte = 0x13;
pub const ST_REL_Y_BY_IMM_Y: Byte = 0x14;
pub const ST_REL_SP_BY_IMM_Y: Byte = 0x15;

pub const LEA_X_BY_A: Byte = 0x16;
pub const LEA_X_BY_B: Byte = 0x17;
pub const LEA_X_BY_C: Byte = 0x18;
pub const LEA_X_BY_D: Byte = 0x19;
pub const LEA_X_BY_IMM: Byte = 0x1A;

pub const LEA_Y_BY_A: Byte = 0x1B;
pub const LEA_Y_BY_B: Byte = 0x1C;
pub const LEA_Y_BY_C: Byte = 0x1D;
pub const LEA_Y_BY_D: Byte = 0x1E;
pub const LEA_Y_BY_IMM: Byte = 0x1F;

pub const LEA_SP_BY_A: Byte = 0x20;
pub const LEA_SP_BY_B: Byte = 0x21;
pub const LEA_SP_BY_C: Byte = 0x22;
pub const LEA_SP_BY_D: Byte = 0x23;
pub const LEA_SP_BY_IMM: Byte = 0x24;

pub const INC_X: Byte = 0x25;
pub const INC_Y: Byte = 0x26;

pub const DEC_X: Byte = 0x27;
pub const DEC_Y: Byte = 0x28;

pub const ADDC_A_A: Byte = 0x29;
pub const ADDC_A_B: Byte = 0x2A;
pub const ADDC_A_C: Byte = 0x2B;
pub const ADDC_A_D: Byte = 0x2C;

pub const ADDC_B_A: Byte = 0x2D;
pub const ADDC_B_B: Byte = 0x2E;
pub const ADDC_B_C: Byte = 0x2F;
pub const ADDC_B_D: Byte = 0x30;

pub const ADDC_C_A: Byte = 0x31;
pub const ADDC_C_B: Byte = 0x32;
pub const ADDC_C_C: Byte = 0x33;
pub const ADDC_C_D: Byte = 0x34;

pub const ADDC_D_A: Byte = 0x35;
pub const ADDC_D_B: Byte = 0x36;
pub const ADDC_D_C: Byte = 0x37;
pub const ADDC_D_D: Byte = 0x38;

pub const ADDC_A_IMM: Byte = 0x39;
pub const ADDC_B_IMM: Byte = 0x3A;
pub const ADDC_C_IMM: Byte = 0x3B;
pub const ADDC_D_IMM: Byte = 0x3C;

pub const SUBB_A_A: Byte = 0x3D;
pub const SUBB_A_B: Byte = 0x3E;
pub const SUBB_A_C: Byte = 0x3F;
pub const SUBB_A_D: Byte = 0x40;

pub const SUBB_B_A: Byte = 0x41;
pub const SUBB_B_B: Byte = 0x42;
pub const SUBB_B_C: Byte = 0x43;
pub const SUBB_B_D: Byte = 0x44;

pub const SUBB_C_A: Byte = 0x45;
pub const SUBB_C_B: Byte = 0x46;
pub const SUBB_C_C: Byte = 0x47;
pub const SUBB_C_D: Byte = 0x48;

pub const SUBB_D_A: Byte = 0x49;
pub const SUBB_D_B: Byte = 0x4A;
pub const SUBB_D_C: Byte = 0x4B;
pub const SUBB_D_D: Byte = 0x4C;

pub const SUBB_A_IMM: Byte = 0x4D;
pub const SUBB_B_IMM: Byte = 0x4E;
pub const SUBB_C_IMM: Byte = 0x4F;
pub const SUBB_D_IMM: Byte = 0x50;

pub const AND_A_A: Byte = 0x51;
pub const AND_A_B: Byte = 0x52;
pub const AND_A_C: Byte = 0x53;
pub const AND_A_D: Byte = 0x54;

pub const AND_B_A: Byte = 0x55;
pub const AND_B_B: Byte = 0x56;
pub const AND_B_C: Byte = 0x57;
pub const AND_B_D: Byte = 0x58;

pub const AND_C_A: Byte = 0x59;
pub const AND_C_B: Byte = 0x5A;
pub const AND_C_C: Byte = 0x5B;
pub const AND_C_D: Byte = 0x5C;

pub const AND_D_A: Byte = 0x5D;
pub const AND_D_B: Byte = 0x5E;
pub const AND_D_C: Byte = 0x5F;
pub const AND_D_D: Byte = 0x60;

pub const AND_A_IMM: Byte = 0x61;
pub const AND_B_IMM: Byte = 0x62;
pub const AND_C_IMM: Byte = 0x63;
pub const AND_D_IMM: Byte = 0x64;

pub const OR_A_A: Byte = 0x65;
pub const OR_A_B: Byte = 0x66;
pub const OR_A_C: Byte = 0x67;
pub const OR_A_D: Byte = 0x68;

pub const OR_B_A: Byte = 0x69;
pub const OR_B_B: Byte = 0x6A;
pub const OR_B_C: Byte = 0x6B;
pub const OR_B_D: Byte = 0x6C;

pub const OR_C_A: Byte = 0x6D;
pub const OR_C_B: Byte = 0x6E;
pub const OR_C_C: Byte = 0x6F;
pub const OR_C_D: Byte = 0x70;

pub const OR_D_A: Byte = 0x71;
pub const OR_D_B: Byte = 0x72;
pub const OR_D_C: Byte = 0x73;
pub const OR_D_D: Byte = 0x74;

pub const OR_A_IMM: Byte = 0x75;
pub const OR_B_IMM: Byte = 0x76;
pub const OR_C_IMM: Byte = 0x77;
pub const OR_D_IMM: Byte = 0x78;

pub const XOR_A_A: Byte = 0x79;
pub const XOR_A_B: Byte = 0x7A;
pub const XOR_A_C: Byte = 0x7B;
pub const XOR_A_D: Byte = 0x7C;

pub const XOR_B_A: Byte = 0x7D;
pub const XOR_B_B: Byte = 0x7E;
pub const XOR_B_C: Byte = 0x7F;
pub const XOR_B_D: Byte = 0x80;

pub const XOR_C_A: Byte = 0x81;
pub const XOR_C_B: Byte = 0x82;
pub const XOR_C_C: Byte = 0x83;
pub const XOR_C_D: Byte = 0x84;

pub const XOR_D_A: Byte = 0x85;
pub const XOR_D_B: Byte = 0x86;
pub const XOR_D_C: Byte = 0x87;
pub const XOR_D_D: Byte = 0x88;

pub const XOR_A_IMM: Byte = 0x89;
pub const XOR_B_IMM: Byte = 0x8A;
pub const XOR_C_IMM: Byte = 0x8B;
pub const XOR_D_IMM: Byte = 0x8C;

pub const SHL_A: Byte = 0x8D;
pub const SHL_B: Byte = 0x8E;
pub const SHL_C: Byte = 0x8F;
pub const SHL_D: Byte = 0x90;

pub const SHR_A: Byte = 0x91;
pub const SHR_B: Byte = 0x92;
pub const SHR_C: Byte = 0x93;
pub const SHR_D: Byte = 0x94;

pub const ASR_A: Byte = 0x95;
pub const ASR_B: Byte = 0x96;
pub const ASR_C: Byte = 0x97;
pub const ASR_D: Byte = 0x98;

pub const NOT_A: Byte = 0x99;
pub const NOT_B: Byte = 0x9A;
pub const NOT_C: Byte = 0x9B;
pub const NOT_D: Byte = 0x9C;

pub const NEG_A: Byte = 0x9D;
pub const NEG_B: Byte = 0x9E;
pub const NEG_C: Byte = 0x9F;
pub const NEG_D: Byte = 0xA0;

pub const INC_A: Byte = 0xA1;
pub const INC_B: Byte = 0xA2;
pub const INC_C: Byte = 0xA3;
pub const INC_D: Byte = 0xA4;

pub const DEC_A: Byte = 0xA5;
pub const DEC_B: Byte = 0xA6;
pub const DEC_C: Byte = 0xA7;
pub const DEC_D: Byte = 0xA8;

pub const CMP_A_A: Byte = 0xA9;
pub const CMP_A_B: Byte = 0xAA;
pub const CMP_A_C: Byte = 0xAB;
pub const CMP_A_D: Byte = 0xAC;

pub const CMP_B_A: Byte = 0xAD;
pub const CMP_B_B: Byte = 0xAE;
pub const CMP_B_C: Byte = 0xAF;
pub const CMP_B_D: Byte = 0xB0;

pub const CMP_C_A: Byte = 0xB1;
pub const CMP_C_B: Byte = 0xB2;
pub const CMP_C_C: Byte = 0xB3;
pub const CMP_C_D: Byte = 0xB4;

pub const CMP_D_A: Byte = 0xB5;
pub const CMP_D_B: Byte = 0xB6;
pub const CMP_D_C: Byte = 0xB7;
pub const CMP_D_D: Byte = 0xB8;

pub const CMP_A_IMM: Byte = 0xB9;
pub const CMP_B_IMM: Byte = 0xBA;
pub const CMP_C_IMM: Byte = 0xBB;
pub const CMP_D_IMM: Byte = 0xBC;

pub const TEST_A: Byte = 0xBD;
pub const TEST_B: Byte = 0xBE;
pub const TEST_C: Byte = 0xBF;
pub const TEST_D: Byte = 0xC0;

pub const PUSH_A: Byte = 0xC1;
pub const PUSH_B: Byte = 0xC2;
pub const PUSH_C: Byte = 0xC3;
pub const PUSH_D: Byte = 0xC4;

pub const PUSH_X: Byte = 0xC5;
pub const PUSH_Y: Byte = 0xC6;

pub const POP_A: Byte = 0xC7;
pub const POP_B: Byte = 0xC8;
pub const POP_C: Byte = 0xC9;
pub const POP_D: Byte = 0xCA;

pub const POP_X: Byte = 0xCB;
pub const POP_Y: Byte = 0xCC;

pub const CALL_PC_REL: Byte = 0xCD;
pub const CALL_ABS: Byte = 0xCE;
pub const CALL_X_REL_IMM: Byte = 0xCF;
pub const CALL_Y_REL_IMM: Byte = 0xD0;
pub const RET: Byte = 0xD1;

pub const SWI: Byte = 0xD2;
pub const RETI: Byte = 0xD3;

pub const JMP_PC_REL: Byte = 0xD4;
pub const JMP_ABS: Byte = 0xD5;
pub const JMP_X_REL_IMM: Byte = 0xD6;
pub const JMP_Y_REL_IMM: Byte = 0xD7;

pub const BR_EQ_PC_REL: Byte = 0xD8;
pub const BR_EQ_ABS: Byte = 0xD9;
pub const BR_EQ_X_REL_IMM: Byte = 0xDA;
pub const BR_EQ_Y_REL_IMM: Byte = 0xDB;

pub const BR_NE_PC_REL: Byte = 0xDC;
pub const BR_NE_ABS: Byte = 0xDD;
pub const BR_NE_X_REL_IMM: Byte = 0xDE;
pub const BR_NE_Y_REL_IMM: Byte = 0xDF;

pub const BR_LT_PC_REL: Byte = 0xE0;
pub const BR_LT_ABS: Byte = 0xE1;
pub const BR_LT_X_REL_IMM: Byte = 0xE2;
pub const BR_LT_Y_REL_IMM: Byte = 0xE3;

pub const BR_GT_PC_REL: Byte = 0xE4;
pub const BR_GT_ABS: Byte = 0xE5;
pub const BR_GT_X_REL_IMM: Byte = 0xE6;
pub const BR_GT_Y_REL_IMM: Byte = 0xE7;

pub const BR_LE_PC_REL: Byte = 0xE8;
pub const BR_LE_ABS: Byte = 0xE9;
pub const BR_LE_X_REL_IMM: Byte = 0xEA;
pub const BR_LE_Y_REL_IMM: Byte = 0xEB;

pub const BR_GE_PC_REL: Byte = 0xEC;
pub const BR_GE_ABS: Byte = 0xED;
pub const BR_GE_X_REL_IMM: Byte = 0xEE;
pub const BR_GE_Y_REL_IMM: Byte = 0xEF;

pub const BR_LTS_PC_REL: Byte = 0xF0;
pub const BR_LTS_ABS: Byte = 0xF1;
pub const BR_LTS_X_REL_IMM: Byte = 0xF2;
pub const BR_LTS_Y_REL_IMM: Byte = 0xF3;

pub const BR_GTS_PC_REL: Byte = 0xF4;
pub const BR_GTS_ABS: Byte = 0xF5;
pub const BR_GTS_X_REL_IMM: Byte = 0xF6;
pub const BR_GTS_Y_REL_IMM: Byte = 0xF7;

pub const BR_LES_PC_REL: Byte = 0xF8;
pub const BR_LES_ABS: Byte = 0xF9;
pub const BR_LES_X_REL_IMM: Byte = 0xFA;
pub const BR_LES_Y_REL_IMM: Byte = 0xFB;

pub const BR_GES_PC_REL: Byte = 0xFC;
pub const BR_GES_ABS: Byte = 0xFD;
pub const BR_GES_X_REL_IMM: Byte = 0xFE;
pub const BR_GES_Y_REL_IMM: Byte = 0xFF;

} // verus!
