//! The encoder's tables: for every instruction of a family, the opcode by
//! name and the operand to write behind it.

use crate::isa::codec::InstructionBytes;
use crate::isa::instruction::{
    Alu1Op, Alu2Op, Alu2OpMode, Condition, IOMode, Instruction, JumpMode, LeaMode, Memory16Mode,
    Memory8Mode, Pointer, Register16, Register8, RegisterPair,
};
use crate::isa::opcode;
use crate::isa::opcode::Opcode;
use crate::isa::{Byte, Word};
use vstd::prelude::*;

verus! {

/// Encodes a move between eight-bit registers.
pub(crate) fn encode_move8(dst: Register8, src: Register8) -> (bytes: InstructionBytes)
    ensures
        bytes@ == Instruction::Move8(dst, src).encoding(),
{
    match (dst, src) {
        (Register8::A, Register8::A) => Opcode::Normal(opcode::MV_A_A).encode(),
        (Register8::A, Register8::B) => Opcode::Normal(opcode::MV_A_B).encode(),
        (Register8::A, Register8::C) => Opcode::Normal(opcode::MV_A_C).encode(),
        (Register8::A, Register8::D) => Opcode::Normal(opcode::MV_A_D).encode(),
        (Register8::B, Register8::A) => Opcode::Normal(opcode::MV_B_A).encode(),
        (Register8::B, Register8::B) => Opcode::Normal(opcode::MV_B_B).encode(),
        (Register8::B, Register8::C) => Opcode::Normal(opcode::MV_B_C).encode(),
        (Register8::B, Register8::D) => Opcode::Normal(opcode::MV_B_D).encode(),
        (Register8::C, Register8::A) => Opcode::Normal(opcode::MV_C_A).encode(),
        (Register8::C, Register8::B) => Opcode::Normal(opcode::MV_C_B).encode(),
        (Register8::C, Register8::C) => Opcode::Normal(opcode::MV_C_C).encode(),
        (Register8::C, Register8::D) => Opcode::Normal(opcode::MV_C_D).encode(),
        (Register8::D, Register8::A) => Opcode::Normal(opcode::MV_D_A).encode(),
        (Register8::D, Register8::B) => Opcode::Normal(opcode::MV_D_B).encode(),
        (Register8::D, Register8::C) => Opcode::Normal(opcode::MV_D_C).encode(),
        (Register8::D, Register8::D) => Opcode::Normal(opcode::MV_D_D).encode(),
    }
}

/// Encodes a load of a constant into an eight-bit register.
pub(crate) fn encode_load8_immediate(dst: Register8, value: Byte) -> (bytes: InstructionBytes)
    ensures
        bytes@ == Instruction::Load8Immediate(dst, value).encoding(),
{
    match (dst, value) {
        (Register8::A, byte) => Opcode::Normal(opcode::LD_A_IMM).encode_with_byte(byte),
        (Register8::B, byte) => Opcode::Normal(opcode::LD_B_IMM).encode_with_byte(byte),
        (Register8::C, byte) => Opcode::Normal(opcode::LD_C_IMM).encode_with_byte(byte),
        (Register8::D, byte) => Opcode::Normal(opcode::LD_D_IMM).encode_with_byte(byte),
    }
}

/// Encodes an eight-bit load from memory.
pub(crate) fn encode_load8(dst: Register8, mode: Memory8Mode) -> (bytes: InstructionBytes)
    ensures
        bytes@ == Instruction::Load8(dst, mode).encoding(),
{
    match (dst, mode) {
        (Register8::A, Memory8Mode::Absolute(word)) => {
            Opcode::Normal(opcode::LD_A_ABS).encode_with_word(word)
        },
        (Register8::A, Memory8Mode::ConstantOffset(Pointer::X, byte)) => {
            Opcode::Normal(opcode::LD_A_REL_X_BY_IMM).encode_with_byte(byte)
        },
        (Register8::A, Memory8Mode::ConstantOffset(Pointer::Y, byte)) => {
            Opcode::Normal(opcode::LD_A_REL_Y_BY_IMM).encode_with_byte(byte)
        },
        (Register8::A, Memory8Mode::ConstantOffset(Pointer::SP, byte)) => {
            Opcode::Normal(opcode::LD_A_REL_SP_BY_IMM).encode_with_byte(byte)
        },
        (Register8::A, Memory8Mode::RegisterOffset(Pointer::X, Register8::A)) => {
            Opcode::Normal(opcode::LD_A_REL_X_BY_A).encode()
        },
        (Register8::A, Memory8Mode::RegisterOffset(Pointer::X, Register8::B)) => {
            Opcode::Normal(opcode::LD_A_REL_X_BY_B).encode()
        },
        (Register8::A, Memory8Mode::RegisterOffset(Pointer::X, Register8::C)) => {
            Opcode::Normal(opcode::LD_A_REL_X_BY_C).encode()
        },
        (Register8::A, Memory8Mode::RegisterOffset(Pointer::X, Register8::D)) => {
            Opcode::Normal(opcode::LD_A_REL_X_BY_D).encode()
        },
        (Register8::A, Memory8Mode::RegisterOffset(Pointer::Y, Register8::A)) => {
            Opcode::Normal(opcode::LD_A_REL_Y_BY_A).encode()
        },
        (Register8::A, Memory8Mode::RegisterOffset(Pointer::Y, Register8::B)) => {
            Opcode::Normal(opcode::LD_A_REL_Y_BY_B).encode()
        },
        (Register8::A, Memory8Mode::RegisterOffset(Pointer::Y, Register8::C)) => {
            Opcode::Normal(opcode::LD_A_REL_Y_BY_C).encode()
        },
        (Register8::A, Memory8Mode::RegisterOffset(Pointer::Y, Register8::D)) => {
            Opcode::Normal(opcode::LD_A_REL_Y_BY_D).encode()
        },
        (Register8::A, Memory8Mode::RegisterOffset(Pointer::SP, Register8::A)) => {
            Opcode::Normal(opcode::LD_A_REL_SP_BY_A).encode()
        },
        (Register8::A, Memory8Mode::RegisterOffset(Pointer::SP, Register8::B)) => {
            Opcode::Normal(opcode::LD_A_REL_SP_BY_B).encode()
        },
        (Register8::A, Memory8Mode::RegisterOffset(Pointer::SP, Register8::C)) => {
            Opcode::Normal(opcode::LD_A_REL_SP_BY_C).encode()
        },
        (Register8::A, Memory8Mode::RegisterOffset(Pointer::SP, Register8::D)) => {
            Opcode::Normal(opcode::LD_A_REL_SP_BY_D).encode()
        },
        (Register8::B, Memory8Mode::Absolute(word)) => {
            Opcode::Normal(opcode::LD_B_ABS).encode_with_word(word)
        },
        (Register8::B, Memory8Mode::ConstantOffset(Pointer::X, byte)) => {
            Opcode::Normal(opcode::LD_B_REL_X_BY_IMM).encode_with_byte(byte)
        },
        (Register8::B, Memory8Mode::ConstantOffset(Pointer::Y, byte)) => {
            Opcode::Normal(opcode::LD_B_REL_Y_BY_IMM).encode_with_byte(byte)
        },
        (Register8::B, Memory8Mode::ConstantOffset(Pointer::SP, byte)) => {
            Opcode::Normal(opcode::LD_B_REL_SP_BY_IMM).encode_with_byte(byte)
        },
        (Register8::B, Memory8Mode::RegisterOffset(Pointer::X, Register8::A)) => {
            Opcode::Normal(opcode::LD_B_REL_X_BY_A).encode()
        },
        (Register8::B, Memory8Mode::RegisterOffset(Pointer::X, Register8::B)) => {
            Opcode::Normal(opcode::LD_B_REL_X_BY_B).encode()
        },
        (Register8::B, Memory8Mode::RegisterOffset(Pointer::X, Register8::C)) => {
            Opcode::Normal(opcode::LD_B_REL_X_BY_C).encode()
        },
        (Register8::B, Memory8Mode::RegisterOffset(Pointer::X, Register8::D)) => {
            Opcode::Normal(opcode::LD_B_REL_X_BY_D).encode()
        },
        (Register8::B, Memory8Mode::RegisterOffset(Pointer::Y, Register8::A)) => {
            Opcode::Normal(opcode::LD_B_REL_Y_BY_A).encode()
        },
        (Register8::B, Memory8Mode::RegisterOffset(Pointer::Y, Register8::B)) => {
            Opcode::Normal(opcode::LD_B_REL_Y_BY_B).encode()
        },
        (Register8::B, Memory8Mode::RegisterOffset(Pointer::Y, Register8::C)) => {
            Opcode::Normal(opcode::LD_B_REL_Y_BY_C).encode()
        },
        (Register8::B, Memory8Mode::RegisterOffset(Pointer::Y, Register8::D)) => {
            Opcode::Normal(opcode::LD_B_REL_Y_BY_D).encode()
        },
        (Register8::B, Memory8Mode::RegisterOffset(Pointer::SP, Register8::A)) => {
            Opcode::Normal(opcode::LD_B_REL_SP_BY_A).encode()
        },
        (Register8::B, Memory8Mode::RegisterOffset(Pointer::SP, Register8::B)) => {
            Opcode::Normal(opcode::LD_B_REL_SP_BY_B).encode()
        },
        (Register8::B, Memory8Mode::RegisterOffset(Pointer::SP, Register8::C)) => {
            Opcode::Normal(opcode::LD_B_REL_SP_BY_C).encode()
        },
        (Register8::B, Memory8Mode::RegisterOffset(Pointer::SP, Register8::D)) => {
            Opcode::Normal(opcode::LD_B_REL_SP_BY_D).encode()
        },
        (Register8::C, Memory8Mode::Absolute(word)) => {
            Opcode::Normal(opcode::LD_C_ABS).encode_with_word(word)
        },
        (Register8::C, Memory8Mode::ConstantOffset(Pointer::X, byte)) => {
            Opcode::Normal(opcode::LD_C_REL_X_BY_IMM).encode_with_byte(byte)
        },
        (Register8::C, Memory8Mode::ConstantOffset(Pointer::Y, byte)) => {
            Opcode::Normal(opcode::LD_C_REL_Y_BY_IMM).encode_with_byte(byte)
        },
        (Register8::C, Memory8Mode::ConstantOffset(Pointer::SP, byte)) => {
            Opcode::Normal(opcode::LD_C_REL_SP_BY_IMM).encode_with_byte(byte)
        },
        (Register8::C, Memory8Mode::RegisterOffset(Pointer::X, Register8::A)) => {
            Opcode::Normal(opcode::LD_C_REL_X_BY_A).encode()
        },
        (Register8::C, Memory8Mode::RegisterOffset(Pointer::X, Register8::B)) => {
            Opcode::Normal(opcode::LD_C_REL_X_BY_B).encode()
        },
        (Register8::C, Memory8Mode::RegisterOffset(Pointer::X, Register8::C)) => {
            Opcode::Normal(opcode::LD_C_REL_X_BY_C).encode()
        },
        (Register8::C, Memory8Mode::RegisterOffset(Pointer::X, Register8::D)) => {
            Opcode::Normal(opcode::LD_C_REL_X_BY_D).encode()
        },
        (Register8::C, Memory8Mode::RegisterOffset(Pointer::Y, Register8::A)) => {
            Opcode::Normal(opcode::LD_C_REL_Y_BY_A).encode()
        },
        (Register8::C, Memory8Mode::RegisterOffset(Pointer::Y, Register8::B)) => {
            Opcode::Normal(opcode::LD_C_REL_Y_BY_B).encode()
        },
        (Register8::C, Memory8Mode::RegisterOffset(Pointer::Y, Register8::C)) => {
            Opcode::Normal(opcode::LD_C_REL_Y_BY_C).encode()
        },
        (Register8::C, Memory8Mode::RegisterOffset(Pointer::Y, Register8::D)) => {
            Opcode::Normal(opcode::LD_C_REL_Y_BY_D).encode()
        },
        (Register8::C, Memory8Mode::RegisterOffset(Pointer::SP, Register8::A)) => {
            Opcode::Normal(opcode::LD_C_REL_SP_BY_A).encode()
        },
        (Register8::C, Memory8Mode::RegisterOffset(Pointer::SP, Register8::B)) => {
            Opcode::Normal(opcode::LD_C_REL_SP_BY_B).encode()
        },
        (Register8::C, Memory8Mode::RegisterOffset(Pointer::SP, Register8::C)) => {
            Opcode::Normal(opcode::LD_C_REL_SP_BY_C).encode()
        },
        (Register8::C, Memory8Mode::RegisterOffset(Pointer::SP, Register8::D)) => {
            Opcode::Normal(opcode::LD_C_REL_SP_BY_D).encode()
        },
        (Register8::D, Memory8Mode::Absolute(word)) => {
            Opcode::Normal(opcode::LD_D_ABS).encode_with_word(word)
        },
        (Register8::D, Memory8Mode::ConstantOffset(Pointer::X, byte)) => {
            Opcode::Normal(opcode::LD_D_REL_X_BY_IMM).encode_with_byte(byte)
        },
        (Register8::D, Memory8Mode::ConstantOffset(Pointer::Y, byte)) => {
            Opcode::Normal(opcode::LD_D_REL_Y_BY_IMM).encode_with_byte(byte)
        },
        (Register8::D, Memory8Mode::ConstantOffset(Pointer::SP, byte)) => {
            Opcode::Normal(opcode::LD_D_REL_SP_BY_IMM).encode_with_byte(byte)
        },
        (Register8::D, Memory8Mode::RegisterOffset(Pointer::X, Register8::A)) => {
            Opcode::Normal(opcode::LD_D_REL_X_BY_A).encode()
        },
        (Register8::D, Memory8Mode::RegisterOffset(Pointer::X, Register8::B)) => {
            Opcode::Normal(opcode::LD_D_REL_X_BY_B).encode()
        },
        (Register8::D, Memory8Mode::RegisterOffset(Pointer::X, Register8::C)) => {
            Opcode::Normal(opcode::LD_D_REL_X_BY_C).encode()
        },
        (Register8::D, Memory8Mode::RegisterOffset(Pointer::X, Register8::D)) => {
            Opcode::Normal(opcode::LD_D_REL_X_BY_D).encode()
        },
        (Register8::D, Memory8Mode::RegisterOffset(Pointer::Y, Register8::A)) => {
            Opcode::Normal(opcode::LD_D_REL_Y_BY_A).encode()
        },
        (Register8::D, Memory8Mode::RegisterOffset(Pointer::Y, Register8::B)) => {
            Opcode::Normal(opcode::LD_D_REL_Y_BY_B).encode()
        },
        (Register8::D, Memory8Mode::RegisterOffset(Pointer::Y, Register8::C)) => {
            Opcode::Normal(opcode::LD_D_REL_Y_BY_C).encode()
        },
        (Register8::D, Memory8Mode::RegisterOffset(Pointer::Y, Register8::D)) => {
            Opcode::Normal(opcode::LD_D_REL_Y_BY_D).encode()
        },
        (Register8::D, Memory8Mode::RegisterOffset(Pointer::SP, Register8::A)) => {
            Opcode::Normal(opcode::LD_D_REL_SP_BY_A).encode()
        },
        (Register8::D, Memory8Mode::RegisterOffset(Pointer::SP, Register8::B)) => {
            Opcode::Normal(opcode::LD_D_REL_SP_BY_B).encode()
        },
        (Register8::D, Memory8Mode::RegisterOffset(Pointer::SP, Register8::C)) => {
            Opcode::Normal(opcode::LD_D_REL_SP_BY_C).encode()
        },
        (Register8::D, Memory8Mode::RegisterOffset(Pointer::SP, Register8::D)) => {
            Opcode::Normal(opcode::LD_D_REL_SP_BY_D).encode()
        },
    }
}

/// Encodes an eight-bit store to memory.
pub(crate) fn encode_store8(mode: Memory8Mode, src: Register8) -> (bytes: InstructionBytes)
    ensures
        bytes@ == Instruction::Store8(mode, src).encoding(),
{
    match (mode, src) {
        (Memory8Mode::Absolute(word), Register8::A) => {
            Opcode::Normal(opcode::ST_ABS_A).encode_with_word(word)
        },
        (Memory8Mode::ConstantOffset(Pointer::X, byte), Register8::A) => {
            Opcode::Normal(opcode::ST_REL_X_BY_IMM_A).encode_with_byte(byte)
        },
        (Memory8Mode::ConstantOffset(Pointer::Y, byte), Register8::A) => {
            Opcode::Normal(opcode::ST_REL_Y_BY_IMM_A).encode_with_byte(byte)
        },
        (Memory8Mode::ConstantOffset(Pointer::SP, byte), Register8::A) => {
            Opcode::Normal(opcode::ST_REL_SP_BY_IMM_A).encode_with_byte(byte)
        },
        (Memory8Mode::RegisterOffset(Pointer::X, Register8::A), Register8::A) => {
            Opcode::Normal(opcode::ST_REL_X_BY_A_A).encode()
        },
        (Memory8Mode::RegisterOffset(Pointer::X, Register8::B), Register8::A) => {
            Opcode::Normal(opcode::ST_REL_X_BY_B_A).encode()
        },
        (Memory8Mode::RegisterOffset(Pointer::X, Register8::C), Register8::A) => {
            Opcode::Normal(opcode::ST_REL_X_BY_C_A).encode()
        },
        (Memory8Mode::RegisterOffset(Pointer::X, Register8::D), Register8::A) => {
            Opcode::Normal(opcode::ST_REL_X_BY_D_A).encode()
        },
        (Memory8Mode::RegisterOffset(Pointer::Y, Register8::A), Register8::A) => {
            Opcode::Normal(opcode::ST_REL_Y_BY_A_A).encode()
        },
        (Memory8Mode::RegisterOffset(Pointer::Y, Register8::B), Register8::A) => {
            Opcode::Normal(opcode::ST_REL_Y_BY_B_A).encode()
        },
        (Memory8Mode::RegisterOffset(Pointer::Y, Register8::C), Register8::A) => {
            Opcode::Normal(opcode::ST_REL_Y_BY_C_A).encode()
        },
        (Memory8Mode::RegisterOffset(Pointer::Y, Register8::D), Register8::A) => {
            Opcode::Normal(opcode::ST_REL_Y_BY_D_A).encode()
        },
        (Memory8Mode::RegisterOffset(Pointer::SP, Register8::A), Register8::A) => {
            Opcode::Normal(opcode::ST_REL_SP_BY_A_A).encode()
        },
        (Memory8Mode::RegisterOffset(Pointer::SP, Register8::B), Register8::A) => {
            Opcode::Normal(opcode::ST_REL_SP_BY_B_A).encode()
        },
        (Memory8Mode::RegisterOffset(Pointer::SP, Register8::C), Register8::A) => {
            Opcode::Normal(opcode::ST_REL_SP_BY_C_A).encode()
        },
        (Memory8Mode::RegisterOffset(Pointer::SP, Register8::D), Register8::A) => {
            Opcode::Normal(opcode::ST_REL_SP_BY_D_A).encode()
        },
        (Memory8Mode::Absolute(word), Register8::B) => {
            Opcode::Normal(opcode::ST_ABS_B).encode_with_word(word)
        },
        (Memory8Mode::ConstantOffset(Pointer::X, byte), Register8::B) => {
            Opcode::Normal(opcode::ST_REL_X_BY_IMM_B).encode_with_byte(byte)
        },
        (Memory8Mode::ConstantOffset(Pointer::Y, byte), Register8::B) => {
            Opcode::Normal(opcode::ST_REL_Y_BY_IMM_B).encode_with_byte(byte)
        },
        (Memory8Mode::ConstantOffset(Pointer::SP, byte), Register8::B) => {
            Opcode::Normal(opcode::ST_REL_SP_BY_IMM_B).encode_with_byte(byte)
        },
        (Memory8Mode::RegisterOffset(Pointer::X, Register8::A), Register8::B) => {
            Opcode::Normal(opcode::ST_REL_X_BY_A_B).encode()
        },
        (Memory8Mode::RegisterOffset(Pointer::X, Register8::B), Register8::B) => {
            Opcode::Normal(opcode::ST_REL_X_BY_B_B).encode()
        },
        (Memory8Mode::RegisterOffset(Pointer::X, Register8::C), Register8::B) => {
            Opcode::Normal(opcode::ST_REL_X_BY_C_B).encode()
        },
        (Memory8Mode::RegisterOffset(Pointer::X, Register8::D), Register8::B) => {
            Opcode::Normal(opcode::ST_REL_X_BY_D_B).encode()
        },
        (Memory8Mode::RegisterOffset(Pointer::Y, Register8::A), Register8::B) => {
            Opcode::Normal(opcode::ST_REL_Y_BY_A_B).encode()
        },
        (Memory8Mode::RegisterOffset(Pointer::Y, Register8::B), Register8::B) => {
            Opcode::Normal(opcode::ST_REL_Y_BY_B_B).encode()
        },
        (Memory8Mode::RegisterOffset(Pointer::Y, Register8::C), Register8::B) => {
            Opcode::Normal(opcode::ST_REL_Y_BY_C_B).encode()
        },
        (Memory8Mode::RegisterOffset(Pointer::Y, Register8::D), Register8::B) => {
            Opcode::Normal(opcode::ST_REL_Y_BY_D_B).encode()
        },
        (Memory8Mode::RegisterOffset(Pointer::SP, Register8::A), Register8::B) => {
            Opcode::Normal(opcode::ST_REL_SP_BY_A_B).encode()
        },
        (Memory8Mode::RegisterOffset(Pointer::SP, Register8::B), Register8::B) => {
            Opcode::Normal(opcode::ST_REL_SP_BY_B_B).encode()
        },
        (Memory8Mode::RegisterOffset(Pointer::SP, Register8::C), Register8::B) => {
            Opcode::Normal(opcode::ST_REL_SP_BY_C_B).encode()
        },
        (Memory8Mode::RegisterOffset(Pointer::SP, Register8::D), Register8::B) => {
            Opcode::Normal(opcode::ST_REL_SP_BY_D_B).encode()
        },
        (Memory8Mode::Absolute(word), Register8::C) => {
            Opcode::Normal(opcode::ST_ABS_C).encode_with_word(word)
        },
        (Memory8Mode::ConstantOffset(Pointer::X, byte), Register8::C) => {
            Opcode::Normal(opcode::ST_REL_X_BY_IMM_C).encode_with_byte(byte)
        },
        (Memory8Mode::ConstantOffset(Pointer::Y, byte), Register8::C) => {
            Opcode::Normal(opcode::ST_REL_Y_BY_IMM_C).encode_with_byte(byte)
        },
        (Memory8Mode::ConstantOffset(Pointer::SP, byte), Register8::C) => {
            Opcode::Normal(opcode::ST_REL_SP_BY_IMM_C).encode_with_byte(byte)
        },
        (Memory8Mode::RegisterOffset(Pointer::X, Register8::A), Register8::C) => {
            Opcode::Normal(opcode::ST_REL_X_BY_A_C).encode()
        },
        (Memory8Mode::RegisterOffset(Pointer::X, Register8::B), Register8::C) => {
            Opcode::Normal(opcode::ST_REL_X_BY_B_C).encode()
        },
        (Memory8Mode::RegisterOffset(Pointer::X, Register8::C), Register8::C) => {
            Opcode::Normal(opcode::ST_REL_X_BY_C_C).encode()
        },
        (Memory8Mode::RegisterOffset(Pointer::X, Register8::D), Register8::C) => {
            Opcode::Normal(opcode::ST_REL_X_BY_D_C).encode()
        },
        (Memory8Mode::RegisterOffset(Pointer::Y, Register8::A), Register8::C) => {
            Opcode::Normal(opcode::ST_REL_Y_BY_A_C).encode()
        },
        (Memory8Mode::RegisterOffset(Pointer::Y, Register8::B), Register8::C) => {
            Opcode::Normal(opcode::ST_REL_Y_BY_B_C).encode()
        },
        (Memory8Mode::RegisterOffset(Pointer::Y, Register8::C), Register8::C) => {
            Opcode::Normal(opcode::ST_REL_Y_BY_C_C).encode()
        },
        (Memory8Mode::RegisterOffset(Pointer::Y, Register8::D), Register8::C) => {
            Opcode::Normal(opcode::ST_REL_Y_BY_D_C).encode()
        },
        (Memory8Mode::RegisterOffset(Pointer::SP, Register8::A), Register8::C) => {
            Opcode::Normal(opcode::ST_REL_SP_BY_A_C).encode()
        },
        (Memory8Mode::RegisterOffset(Pointer::SP, Register8::B), Register8::C) => {
            Opcode::Normal(opcode::ST_REL_SP_BY_B_C).encode()
        },
        (Memory8Mode::RegisterOffset(Pointer::SP, Register8::C), Register8::C) => {
            Opcode::Normal(opcode::ST_REL_SP_BY_C_C).encode()
        },
        (Memory8Mode::RegisterOffset(Pointer::SP, Register8::D), Register8::C) => {
            Opcode::Normal(opcode::ST_REL_SP_BY_D_C).encode()
        },
        (Memory8Mode::Absolute(word), Register8::D) => {
            Opcode::Normal(opcode::ST_ABS_D).encode_with_word(word)
        },
        (Memory8Mode::ConstantOffset(Pointer::X, byte), Register8::D) => {
            Opcode::Normal(opcode::ST_REL_X_BY_IMM_D).encode_with_byte(byte)
        },
        (Memory8Mode::ConstantOffset(Pointer::Y, byte), Register8::D) => {
            Opcode::Normal(opcode::ST_REL_Y_BY_IMM_D).encode_with_byte(byte)
        },
        (Memory8Mode::ConstantOffset(Pointer::SP, byte), Register8::D) => {
            Opcode::Normal(opcode::ST_REL_SP_BY_IMM_D).encode_with_byte(byte)
        },
        (Memory8Mode::RegisterOffset(Pointer::X, Register8::A), Register8::D) => {
            Opcode::Normal(opcode::ST_REL_X_BY_A_D).encode()
        },
        (Memory8Mode::RegisterOffset(Pointer::X, Register8::B), Register8::D) => {
            Opcode::Normal(opcode::ST_REL_X_BY_B_D).encode()
        },
        (Memory8Mode::RegisterOffset(Pointer::X, Register8::C), Register8::D) => {
            Opcode::Normal(opcode::ST_REL_X_BY_C_D).encode()
        },
        (Memory8Mode::RegisterOffset(Pointer::X, Register8::D), Register8::D) => {
            Opcode::Normal(opcode::ST_REL_X_BY_D_D).encode()
        },
        (Memory8Mode::RegisterOffset(Pointer::Y, Register8::A), Register8::D) => {
            Opcode::Normal(opcode::ST_REL_Y_BY_A_D).encode()
        },
        (Memory8Mode::RegisterOffset(Pointer::Y, Register8::B), Register8::D) => {
            Opcode::Normal(opcode::ST_REL_Y_BY_B_D).encode()
        },
        (Memory8Mode::RegisterOffset(Pointer::Y, Register8::C), Register8::D) => {
            Opcode::Normal(opcode::ST_REL_Y_BY_C_D).encode()
        },
        (Memory8Mode::RegisterOffset(Pointer::Y, Register8::D), Register8::D) => {
            Opcode::Normal(opcode::ST_REL_Y_BY_D_D).encode()
        },
        (Memory8Mode::RegisterOffset(Pointer::SP, Register8::A), Register8::D) => {
            Opcode::Normal(opcode::ST_REL_SP_BY_A_D).encode()
        },
        (Memory8Mode::RegisterOffset(Pointer::SP, Register8::B), Register8::D) => {
            Opcode::Normal(opcode::ST_REL_SP_BY_B_D).encode()
        },
        (Memory8Mode::RegisterOffset(Pointer::SP, Register8::C), Register8::D) => {
            Opcode::Normal(opcode::ST_REL_SP_BY_C_D).encode()
        },
        (Memory8Mode::RegisterOffset(Pointer::SP, Register8::D), Register8::D) => {
            Opcode::Normal(opcode::ST_REL_SP_BY_D_D).encode()
        },
    }
}

/// Encodes a read from an I/O port.
pub(crate) fn encode_in(dst: Register8, mode: IOMode) -> (bytes: InstructionBytes)
    ensures
        bytes@ == Instruction::In(dst, mode).encoding(),
{
    match (dst, mode) {
        (Register8::A, IOMode::Port(byte)) => {
            Opcode::Normal(opcode::IN_A_PORT).encode_with_byte(byte)
        },
        (Register8::A, IOMode::ConstantOffset(Register16::X, byte)) => {
            Opcode::Normal(opcode::IN_A_REL_X_BY_IMM).encode_with_byte(byte)
        },
        (Register8::A, IOMode::ConstantOffset(Register16::Y, byte)) => {
            Opcode::Normal(opcode::IN_A_REL_Y_BY_IMM).encode_with_byte(byte)
        },
        (Register8::A, IOMode::RegisterOffset(Register16::X, Register8::A)) => {
            Opcode::Normal(opcode::IN_A_REL_X_BY_A).encode()
        },
        (Register8::A, IOMode::RegisterOffset(Register16::X, Register8::B)) => {
            Opcode::Normal(opcode::IN_A_REL_X_BY_B).encode()
        },
        (Register8::A, IOMode::RegisterOffset(Register16::X, Register8::C)) => {
            Opcode::Normal(opcode::IN_A_REL_X_BY_C).encode()
        },
        (Register8::A, IOMode::RegisterOffset(Register16::X, Register8::D)) => {
            Opcode::Normal(opcode::IN_A_REL_X_BY_D).encode()
        },
        (Register8::A, IOMode::RegisterOffset(Register16::Y, Register8::A)) => {
            Opcode::Normal(opcode::IN_A_REL_Y_BY_A).encode()
        },
        (Register8::A, IOMode::RegisterOffset(Register16::Y, Register8::B)) => {
            Opcode::Normal(opcode::IN_A_REL_Y_BY_B).encode()
        },
        (Register8::A, IOMode::RegisterOffset(Register16::Y, Register8::C)) => {
            Opcode::Normal(opcode::IN_A_REL_Y_BY_C).encode()
        },
        (Register8::A, IOMode::RegisterOffset(Register16::Y, Register8::D)) => {
            Opcode::Normal(opcode::IN_A_REL_Y_BY_D).encode()
        },
        (Register8::B, IOMode::Port(byte)) => {
            Opcode::Normal(opcode::IN_B_PORT).encode_with_byte(byte)
        },
        (Register8::B, IOMode::ConstantOffset(Register16::X, byte)) => {
            Opcode::Normal(opcode::IN_B_REL_X_BY_IMM).encode_with_byte(byte)
        },
        (Register8::B, IOMode::ConstantOffset(Register16::Y, byte)) => {
            Opcode::Normal(opcode::IN_B_REL_Y_BY_IMM).encode_with_byte(byte)
        },
        (Register8::B, IOMode::RegisterOffset(Register16::X, Register8::A)) => {
            Opcode::Normal(opcode::IN_B_REL_X_BY_A).encode()
        },
        (Register8::B, IOMode::RegisterOffset(Register16::X, Register8::B)) => {
            Opcode::Normal(opcode::IN_B_REL_X_BY_B).encode()
        },
        (Register8::B, IOMode::RegisterOffset(Register16::X, Register8::C)) => {
            Opcode::Normal(opcode::IN_B_REL_X_BY_C).encode()
        },
        (Register8::B, IOMode::RegisterOffset(Register16::X, Register8::D)) => {
            Opcode::Normal(opcode::IN_B_REL_X_BY_D).encode()
        },
        (Register8::B, IOMode::RegisterOffset(Register16::Y, Register8::A)) => {
            Opcode::Normal(opcode::IN_B_REL_Y_BY_A).encode()
        },
        (Register8::B, IOMode::RegisterOffset(Register16::Y, Register8::B)) => {
            Opcode::Normal(opcode::IN_B_REL_Y_BY_B).encode()
        },
        (Register8::B, IOMode::RegisterOffset(Register16::Y, Register8::C)) => {
            Opcode::Normal(opcode::IN_B_REL_Y_BY_C).encode()
        },
        (Register8::B, IOMode::RegisterOffset(Register16::Y, Register8::D)) => {
            Opcode::Normal(opcode::IN_B_REL_Y_BY_D).encode()
        },
        (Register8::C, IOMode::Port(byte)) => {
            Opcode::Normal(opcode::IN_C_PORT).encode_with_byte(byte)
        },
        (Register8::C, IOMode::ConstantOffset(Register16::X, byte)) => {
            Opcode::Normal(opcode::IN_C_REL_X_BY_IMM).encode_with_byte(byte)
        },
        (Register8::C, IOMode::ConstantOffset(Register16::Y, byte)) => {
            Opcode::Normal(opcode::IN_C_REL_Y_BY_IMM).encode_with_byte(byte)
        },
        (Register8::C, IOMode::RegisterOffset(Register16::X, Register8::A)) => {
            Opcode::Normal(opcode::IN_C_REL_X_BY_A).encode()
        },
        (Register8::C, IOMode::RegisterOffset(Register16::X, Register8::B)) => {
            Opcode::Normal(opcode::IN_C_REL_X_BY_B).encode()
        },
        (Register8::C, IOMode::RegisterOffset(Register16::X, Register8::C)) => {
            Opcode::Normal(opcode::IN_C_REL_X_BY_C).encode()
        },
        (Register8::C, IOMode::RegisterOffset(Register16::X, Register8::D)) => {
            Opcode::Normal(opcode::IN_C_REL_X_BY_D).encode()
        },
        (Register8::C, IOMode::RegisterOffset(Register16::Y, Register8::A)) => {
            Opcode::Normal(opcode::IN_C_REL_Y_BY_A).encode()
        },
        (Register8::C, IOMode::RegisterOffset(Register16::Y, Register8::B)) => {
            Opcode::Normal(opcode::IN_C_REL_Y_BY_B).encode()
        },
        (Register8::C, IOMode::RegisterOffset(Register16::Y, Register8::C)) => {
            Opcode::Normal(opcode::IN_C_REL_Y_BY_C).encode()
        },
        (Register8::C, IOMode::RegisterOffset(Register16::Y, Register8::D)) => {
            Opcode::Normal(opcode::IN_C_REL_Y_BY_D).encode()
        },
        (Register8::D, IOMode::Port(byte)) => {
            Opcode::Normal(opcode::IN_D_PORT).encode_with_byte(byte)
        },
        (Register8::D, IOMode::ConstantOffset(Register16::X, byte)) => {
            Opcode::Normal(opcode::IN_D_REL_X_BY_IMM).encode_with_byte(byte)
        },
        (Register8::D, IOMode::ConstantOffset(Register16::Y, byte)) => {
            Opcode::Normal(opcode::IN_D_REL_Y_BY_IMM).encode_with_byte(byte)
        },
        (Register8::D, IOMode::RegisterOffset(Register16::X, Register8::A)) => {
            Opcode::Normal(opcode::IN_D_REL_X_BY_A).encode()
        },
        (Register8::D, IOMode::RegisterOffset(Register16::X, Register8::B)) => {
            Opcode::Normal(opcode::IN_D_REL_X_BY_B).encode()
        },
        (Register8::D, IOMode::RegisterOffset(Register16::X, Register8::C)) => {
            Opcode::Normal(opcode::IN_D_REL_X_BY_C).encode()
        },
        (Register8::D, IOMode::RegisterOffset(Register16::X, Register8::D)) => {
            Opcode::Normal(opcode::IN_D_REL_X_BY_D).encode()
        },
        (Register8::D, IOMode::RegisterOffset(Register16::Y, Register8::A)) => {
            Opcode::Normal(opcode::IN_D_REL_Y_BY_A).encode()
        },
        (Register8::D, IOMode::RegisterOffset(Register16::Y, Register8::B)) => {
            Opcode::Normal(opcode::IN_D_REL_Y_BY_B).encode()
        },
        (Register8::D, IOMode::RegisterOffset(Register16::Y, Register8::C)) => {
            Opcode::Normal(opcode::IN_D_REL_Y_BY_C).encode()
        },
        (Register8::D, IOMode::RegisterOffset(Register16::Y, Register8::D)) => {
            Opcode::Normal(opcode::IN_D_REL_Y_BY_D).encode()
        },
    }
}

/// Encodes a write to an I/O port.
pub(crate) fn encode_out(mode: IOMode, src: Register8) -> (bytes: InstructionBytes)
    ensures
        bytes@ == Instruction::Out(mode, src).encoding(),
{
    match (mode, src) {
        (IOMode::Port(byte), Register8::A) => {
            Opcode::Normal(opcode::OUT_PORT_A).encode_with_byte(byte)
        },
        (IOMode::ConstantOffset(Register16::X, byte), Register8::A) => {
            Opcode::Normal(opcode::OUT_REL_X_BY_IMM_A).encode_with_byte(byte)
        },
        (IOMode::ConstantOffset(Register16::Y, byte), Register8::A) => {
            Opcode::Normal(opcode::OUT_REL_Y_BY_IMM_A).encode_with_byte(byte)
        },
        (IOMode::RegisterOffset(Register16::X, Register8::A), Register8::A) => {
            Opcode::Normal(opcode::OUT_REL_X_BY_A_A).encode()
        },
        (IOMode::RegisterOffset(Register16::X, Register8::B), Register8::A) => {
            Opcode::Normal(opcode::OUT_REL_X_BY_B_A).encode()
        },
        (IOMode::RegisterOffset(Register16::X, Register8::C), Register8::A) => {
            Opcode::Normal(opcode::OUT_REL_X_BY_C_A).encode()
        },
        (IOMode::RegisterOffset(Register16::X, Register8::D), Register8::A) => {
            Opcode::Normal(opcode::OUT_REL_X_BY_D_A).encode()
        },
        (IOMode::RegisterOffset(Register16::Y, Register8::A), Register8::A) => {
            Opcode::Normal(opcode::OUT_REL_Y_BY_A_A).encode()
        },
        (IOMode::RegisterOffset(Register16::Y, Register8::B), Register8::A) => {
            Opcode::Normal(opcode::OUT_REL_Y_BY_B_A).encode()
        },
        (IOMode::RegisterOffset(Register16::Y, Register8::C), Register8::A) => {
            Opcode::Normal(opcode::OUT_REL_Y_BY_C_A).encode()
        },
        (IOMode::RegisterOffset(Register16::Y, Register8::D), Register8::A) => {
            Opcode::Normal(opcode::OUT_REL_Y_BY_D_A).encode()
        },
        (IOMode::Port(byte), Register8::B) => {
            Opcode::Normal(opcode::OUT_PORT_B).encode_with_byte(byte)
        },
        (IOMode::ConstantOffset(Register16::X, byte), Register8::B) => {
            Opcode::Normal(opcode::OUT_REL_X_BY_IMM_B).encode_with_byte(byte)
        },
        (IOMode::ConstantOffset(Register16::Y, byte), Register8::B) => {
            Opcode::Normal(opcode::OUT_REL_Y_BY_IMM_B).encode_with_byte(byte)
        },
        (IOMode::RegisterOffset(Register16::X, Register8::A), Register8::B) => {
            Opcode::Normal(opcode::OUT_REL_X_BY_A_B).encode()
        },
        (IOMode::RegisterOffset(Register16::X, Register8::B), Register8::B) => {
            Opcode::Normal(opcode::OUT_REL_X_BY_B_B).encode()
        },
        (IOMode::RegisterOffset(Register16::X, Register8::C), Register8::B) => {
            Opcode::Normal(opcode::OUT_REL_X_BY_C_B).encode()
        },
        (IOMode::RegisterOffset(Register16::X, Register8::D), Register8::B) => {
            Opcode::Normal(opcode::OUT_REL_X_BY_D_B).encode()
        },
        (IOMode::RegisterOffset(Register16::Y, Register8::A), Register8::B) => {
            Opcode::Normal(opcode::OUT_REL_Y_BY_A_B).encode()
        },
        (IOMode::RegisterOffset(Register16::Y, Register8::B), Register8::B) => {
            Opcode::Normal(opcode::OUT_REL_Y_BY_B_B).encode()
        },
        (IOMode::RegisterOffset(Register16::Y, Register8::C), Register8::B) => {
            Opcode::Normal(opcode::OUT_REL_Y_BY_C_B).encode()
        },
        (IOMode::RegisterOffset(Register16::Y, Register8::D), Register8::B) => {
            Opcode::Normal(opcode::OUT_REL_Y_BY_D_B).encode()
        },
        (IOMode::Port(byte), Register8::C) => {
            Opcode::Normal(opcode::OUT_PORT_C).encode_with_byte(byte)
        },
        (IOMode::ConstantOffset(Register16::X, byte), Register8::C) => {
            Opcode::Normal(opcode::OUT_REL_X_BY_IMM_C).encode_with_byte(byte)
        },
        (IOMode::ConstantOffset(Register16::Y, byte), Register8::C) => {
            Opcode::Normal(opcode::OUT_REL_Y_BY_IMM_C).encode_with_byte(byte)
        },
        (IOMode::RegisterOffset(Register16::X, Register8::A), Register8::C) => {
            Opcode::Normal(opcode::OUT_REL_X_BY_A_C).encode()
        },
        (IOMode::RegisterOffset(Register16::X, Register8::B), Register8::C) => {
            Opcode::Normal(opcode::OUT_REL_X_BY_B_C).encode()
        },
        (IOMode::RegisterOffset(Register16::X, Register8::C), Register8::C) => {
            Opcode::Normal(opcode::OUT_REL_X_BY_C_C).encode()
        },
        (IOMode::RegisterOffset(Register16::X, Register8::D), Register8::C) => {
            Opcode::Normal(opcode::OUT_REL_X_BY_D_C).encode()
        },
        (IOMode::RegisterOffset(Register16::Y, Register8::A), Register8::C) => {
            Opcode::Normal(opcode::OUT_REL_Y_BY_A_C).encode()
        },
        (IOMode::RegisterOffset(Register16::Y, Register8::B), Register8::C) => {
            Opcode::Normal(opcode::OUT_REL_Y_BY_B_C).encode()
        },
        (IOMode::RegisterOffset(Register16::Y, Register8::C), Register8::C) => {
            Opcode::Normal(opcode::OUT_REL_Y_BY_C_C).encode()
        },
        (IOMode::RegisterOffset(Register16::Y, Register8::D), Register8::C) => {
            Opcode::Normal(opcode::OUT_REL_Y_BY_D_C).encode()
        },
        (IOMode::Port(byte), Register8::D) => {
            Opcode::Normal(opcode::OUT_PORT_D).encode_with_byte(byte)
        },
        (IOMode::ConstantOffset(Register16::X, byte), Register8::D) => {
            Opcode::Normal(opcode::OUT_REL_X_BY_IMM_D).encode_with_byte(byte)
        },
        (IOMode::ConstantOffset(Register16::Y, byte), Register8::D) => {
            Opcode::Normal(opcode::OUT_REL_Y_BY_IMM_D).encode_with_byte(byte)
        },
        (IOMode::RegisterOffset(Register16::X, Register8::A), Register8::D) => {
            Opcode::Normal(opcode::OUT_REL_X_BY_A_D).encode()
        },
        (IOMode::RegisterOffset(Register16::X, Register8::B), Register8::D) => {
            Opcode::Normal(opcode::OUT_REL_X_BY_B_D).encode()
        },
        (IOMode::RegisterOffset(Register16::X, Register8::C), Register8::D) => {
            Opcode::Normal(opcode::OUT_REL_X_BY_C_D).encode()
        },
        (IOMode::RegisterOffset(Register16::X, Register8::D), Register8::D) => {
            Opcode::Normal(opcode::OUT_REL_X_BY_D_D).encode()
        },
        (IOMode::RegisterOffset(Register16::Y, Register8::A), Register8::D) => {
            Opcode::Normal(opcode::OUT_REL_Y_BY_A_D).encode()
        },
        (IOMode::RegisterOffset(Register16::Y, Register8::B), Register8::D) => {
            Opcode::Normal(opcode::OUT_REL_Y_BY_B_D).encode()
        },
        (IOMode::RegisterOffset(Register16::Y, Register8::C), Register8::D) => {
            Opcode::Normal(opcode::OUT_REL_Y_BY_C_D).encode()
        },
        (IOMode::RegisterOffset(Register16::Y, Register8::D), Register8::D) => {
            Opcode::Normal(opcode::OUT_REL_Y_BY_D_D).encode()
        },
    }
}

/// Encodes a move between sixteen-bit registers.
pub(crate) fn encode_move16(dst: Register16, src: Register16) -> (bytes: InstructionBytes)
    ensures
        bytes@ == Instruction::Move16(dst, src).encoding(),
{
    match (dst, src) {
        (Register16::X, Register16::X) => Opcode::Normal(opcode::MV_X_X).encode(),
        (Register16::X, Register16::Y) => Opcode::Normal(opcode::MV_X_Y).encode(),
        (Register16::Y, Register16::X) => Opcode::Normal(opcode::MV_Y_X).encode(),
        (Register16::Y, Register16::Y) => Opcode::Normal(opcode::MV_Y_Y).encode(),
    }
}

/// Encodes a move from a register pair into a sixteen-bit register.
pub(crate) fn encode_move16_from_pair(dst: Register16, src: RegisterPair) -> (bytes:
    InstructionBytes)
    ensures
        bytes@ == Instruction::Move16FromPair(dst, src).encoding(),
{
    match (dst, src) {
        (Register16::X, RegisterPair::Ab) => Opcode::Normal(opcode::MV_X_AB).encode(),
        (Register16::X, RegisterPair::Cd) => Opcode::Normal(opcode::MV_X_CD).encode(),
        (Register16::Y, RegisterPair::Ab) => Opcode::Normal(opcode::MV_Y_AB).encode(),
        (Register16::Y, RegisterPair::Cd) => Opcode::Normal(opcode::MV_Y_CD).encode(),
    }
}

/// Encodes a move from a sixteen-bit register into a register pair.
pub(crate) fn encode_move16_to_pair(dst: RegisterPair, src: Register16) -> (bytes:
    InstructionBytes)
    ensures
        bytes@ == Instruction::Move16ToPair(dst, src).encoding(),
{
    match (dst, src) {
        (RegisterPair::Ab, Register16::X) => Opcode::Extended(opcode::MV_AB_X).encode(),
        (RegisterPair::Ab, Register16::Y) => Opcode::Extended(opcode::MV_AB_Y).encode(),
        (RegisterPair::Cd, Register16::X) => Opcode::Extended(opcode::MV_CD_X).encode(),
        (RegisterPair::Cd, Register16::Y) => Opcode::Extended(opcode::MV_CD_Y).encode(),
    }
}

/// Encodes a load of a constant into a sixteen-bit register.
pub(crate) fn encode_load16_immediate(dst: Register16, value: Word) -> (bytes: InstructionBytes)
    ensures
        bytes@ == Instruction::Load16Immediate(dst, value).encoding(),
{
    match (dst, value) {
        (Register16::X, word) => Opcode::Extended(opcode::LD_X_IMM).encode_with_word(word),
        (Register16::Y, word) => Opcode::Extended(opcode::LD_Y_IMM).encode_with_word(word),
    }
}

/// Encodes a sixteen-bit load from memory.
pub(crate) fn encode_load16(dst: Register16, mode: Memory16Mode) -> (bytes: InstructionBytes)
    ensures
        bytes@ == Instruction::Load16(dst, mode).encoding(),
{
    match (dst, mode) {
        (Register16::X, Memory16Mode::Absolute(word)) => {
            Opcode::Extended(opcode::LD_X_ABS).encode_with_word(word)
        },
        (Register16::X, Memory16Mode::ConstantOffset(Pointer::X, byte)) => {
            Opcode::Extended(opcode::LD_X_REL_X_BY_IMM).encode_with_byte(byte)
        },
        (Register16::X, Memory16Mode::ConstantOffset(Pointer::Y, byte)) => {
            Opcode::Extended(opcode::LD_X_REL_Y_BY_IMM).encode_with_byte(byte)
        },
        (Register16::X, Memory16Mode::ConstantOffset(Pointer::SP, byte)) => {
            Opcode::Extended(opcode::LD_X_REL_SP_BY_IMM).encode_with_byte(byte)
        },
        (Register16::Y, Memory16Mode::Absolute(word)) => {
            Opcode::Extended(opcode::LD_Y_ABS).encode_with_word(word)
        },
        (Register16::Y, Memory16Mode::ConstantOffset(Pointer::X, byte)) => {
            Opcode::Extended(opcode::LD_Y_REL_X_BY_IMM).encode_with_byte(byte)
        },
        (Register16::Y, Memory16Mode::ConstantOffset(Pointer::Y, byte)) => {
            Opcode::Extended(opcode::LD_Y_REL_Y_BY_IMM).encode_with_byte(byte)
        },
        (Register16::Y, Memory16Mode::ConstantOffset(Pointer::SP, byte)) => {
            Opcode::Extended(opcode::LD_Y_REL_SP_BY_IMM).encode_with_byte(byte)
        },
    }
}

/// Encodes a sixteen-bit store to memory.
pub(crate) fn encode_store16(mode: Memory16Mode, src: Register16) -> (bytes: InstructionBytes)
    ensures
        bytes@ == Instruction::Store16(mode, src).encoding(),
{
    match (mode, src) {
        (Memory16Mode::Absolute(word), Register16::X) => {
            Opcode::Extended(opcode::ST_ABS_X).encode_with_word(word)
        },
        (Memory16Mode::ConstantOffset(Pointer::X, byte), Register16::X) => {
            Opcode::Extended(opcode::ST_REL_X_BY_IMM_X).encode_with_byte(byte)
        },
        (Memory16Mode::ConstantOffset(Pointer::Y, byte), Register16::X) => {
            Opcode::Extended(opcode::ST_REL_Y_BY_IMM_X).encode_with_byte(byte)
        },
        (Memory16Mode::ConstantOffset(Pointer::SP, byte), Register16::X) => {
            Opcode::Extended(opcode::ST_REL_SP_BY_IMM_X).encode_with_byte(byte)
        },
        (Memory16Mode::Absolute(word), Register16::Y) => {
            Opcode::Extended(opcode::ST_ABS_Y).encode_with_word(word)
        },
        (Memory16Mode::ConstantOffset(Pointer::X, byte), Register16::Y) => {
            Opcode::Extended(opcode::ST_REL_X_BY_IMM_Y).encode_with_byte(byte)
        },
        (Memory16Mode::ConstantOffset(Pointer::Y, byte), Register16::Y) => {
            Opcode::Extended(opcode::ST_REL_Y_BY_IMM_Y).encode_with_byte(byte)
        },
        (Memory16Mode::ConstantOffset(Pointer::SP, byte), Register16::Y) => {
            Opcode::Extended(opcode::ST_REL_SP_BY_IMM_Y).encode_with_byte(byte)
        },
    }
}

/// Encodes an address computation on a pointer.
pub(crate) fn encode_lea(pointer: Pointer, mode: LeaMode) -> (bytes: InstructionBytes)
    ensures
        bytes@ == Instruction::Lea(pointer, mode).encoding(),
{
    match (pointer, mode) {
        (Pointer::X, LeaMode::Register(Register8::A)) => {
            Opcode::Extended(opcode::LEA_X_BY_A).encode()
        },
        (Pointer::X, LeaMode::Register(Register8::B)) => {
            Opcode::Extended(opcode::LEA_X_BY_B).encode()
        },
        (Pointer::X, LeaMode::Register(Register8::C)) => {
            Opcode::Extended(opcode::LEA_X_BY_C).encode()
        },
        (Pointer::X, LeaMode::Register(Register8::D)) => {
            Opcode::Extended(opcode::LEA_X_BY_D).encode()
        },
        (Pointer::X, LeaMode::Constant(byte)) => {
            Opcode::Extended(opcode::LEA_X_BY_IMM).encode_with_byte(byte)
        },
        (Pointer::Y, LeaMode::Register(Register8::A)) => {
            Opcode::Extended(opcode::LEA_Y_BY_A).encode()
        },
        (Pointer::Y, LeaMode::Register(Register8::B)) => {
            Opcode::Extended(opcode::LEA_Y_BY_B).encode()
        },
        (Pointer::Y, LeaMode::Register(Register8::C)) => {
            Opcode::Extended(opcode::LEA_Y_BY_C).encode()
        },
        (Pointer::Y, LeaMode::Register(Register8::D)) => {
            Opcode::Extended(opcode::LEA_Y_BY_D).encode()
        },
        (Pointer::Y, LeaMode::Constant(byte)) => {
            Opcode::Extended(opcode::LEA_Y_BY_IMM).encode_with_byte(byte)
        },
        (Pointer::SP, LeaMode::Register(Register8::A)) => {
            Opcode::Extended(opcode::LEA_SP_BY_A).encode()
        },
        (Pointer::SP, LeaMode::Register(Register8::B)) => {
            Opcode::Extended(opcode::LEA_SP_BY_B).encode()
        },
        (Pointer::SP, LeaMode::Register(Register8::C)) => {
            Opcode::Extended(opcode::LEA_SP_BY_C).encode()
        },
        (Pointer::SP, LeaMode::Register(Register8::D)) => {
            Opcode::Extended(opcode::LEA_SP_BY_D).encode()
        },
        (Pointer::SP, LeaMode::Constant(byte)) => {
            Opcode::Extended(opcode::LEA_SP_BY_IMM).encode_with_byte(byte)
        },
    }
}

/// Encodes a sixteen-bit increment.
pub(crate) fn encode_inc16(register: Register16) -> (bytes: InstructionBytes)
    ensures
        bytes@ == Instruction::Inc16(register).encoding(),
{
    match register {
        Register16::X => Opcode::Extended(opcode::INC_X).encode(),
        Register16::Y => Opcode::Extended(opcode::INC_Y).encode(),
    }
}

/// Encodes a sixteen-bit decrement.
pub(crate) fn encode_dec16(register: Register16) -> (bytes: InstructionBytes)
    ensures
        bytes@ == Instruction::Dec16(register).encoding(),
{
    match register {
        Register16::X => Opcode::Extended(opcode::DEC_X).encode(),
        Register16::Y => Opcode::Extended(opcode::DEC_Y).encode(),
    }
}

/// Encodes an operation on two operands.
pub(crate) fn encode_alu2(op: Alu2Op, left: Register8, right: Alu2OpMode) -> (bytes: InstructionBytes)
    ensures
        bytes@ == Instruction::Alu2(op, left, right).encoding(),
{
    match (op, left, right) {
        (Alu2Op::Addc, Register8::A, Alu2OpMode::Register(Register8::A)) => {
            Opcode::Extended(opcode::ADDC_A_A).encode()
        },
        (Alu2Op::Addc, Register8::A, Alu2OpMode::Register(Register8::B)) => {
            Opcode::Extended(opcode::ADDC_A_B).encode()
        },
        (Alu2Op::Addc, Register8::A, Alu2OpMode::Register(Register8::C)) => {
            Opcode::Extended(opcode::ADDC_A_C).encode()
        },
        (Alu2Op::Addc, Register8::A, Alu2OpMode::Register(Register8::D)) => {
            Opcode::Extended(opcode::ADDC_A_D).encode()
        },
        (Alu2Op::Addc, Register8::B, Alu2OpMode::Register(Register8::A)) => {
            Opcode::Extended(opcode::ADDC_B_A).encode()
        },
        (Alu2Op::Addc, Register8::B, Alu2OpMode::Register(Register8::B)) => {
            Opcode::Extended(opcode::ADDC_B_B).encode()
        },
        (Alu2Op::Addc, Register8::B, Alu2OpMode::Register(Register8::C)) => {
            Opcode::Extended(opcode::ADDC_B_C).encode()
        },
        (Alu2Op::Addc, Register8::B, Alu2OpMode::Register(Register8::D)) => {
            Opcode::Extended(opcode::ADDC_B_D).encode()
        },
        (Alu2Op::Addc, Register8::C, Alu2OpMode::Register(Register8::A)) => {
            Opcode::Extended(opcode::ADDC_C_A).encode()
        },
        (Alu2Op::Addc, Register8::C, Alu2OpMode::Register(Register8::B)) => {
            Opcode::Extended(opcode::ADDC_C_B).encode()
        },
        (Alu2Op::Addc, Register8::C, Alu2OpMode::Register(Register8::C)) => {
            Opcode::Extended(opcode::ADDC_C_C).encode()
        },
        (Alu2Op::Addc, Register8::C, Alu2OpMode::Register(Register8::D)) => {
            Opcode::Extended(opcode::ADDC_C_D).encode()
        },
        (Alu2Op::Addc, Register8::D, Alu2OpMode::Register(Register8::B)) => {
            Opcode::Extended(opcode::ADDC_D_B).encode()
        },
        (Alu2Op::Addc, Register8::D, Alu2OpMode::Register(Register8::A)) => {
            Opcode::Extended(opcode::ADDC_D_A).encode()
        },
        (Alu2Op::Addc, Register8::D, Alu2OpMode::Register(Register8::C)) => {
            Opcode::Extended(opcode::ADDC_D_C).encode()
        },
        (Alu2Op::Addc, Register8::D, Alu2OpMode::Register(Register8::D)) => {
            Opcode::Extended(opcode::ADDC_D_D).encode()
        },
        (Alu2Op::Addc, Register8::A, Alu2OpMode::Constant(byte)) => {
            Opcode::Extended(opcode::ADDC_A_IMM).encode_with_byte(byte)
        },
        (Alu2Op::Addc, Register8::B, Alu2OpMode::Constant(byte)) => {
            Opcode::Extended(opcode::ADDC_B_IMM).encode_with_byte(byte)
        },
        (Alu2Op::Addc, Register8::C, Alu2OpMode::Constant(byte)) => {
            Opcode::Extended(opcode::ADDC_C_IMM).encode_with_byte(byte)
        },
        (Alu2Op::Addc, Register8::D, Alu2OpMode::Constant(byte)) => {
            Opcode::Extended(opcode::ADDC_D_IMM).encode_with_byte(byte)
        },
        (Alu2Op::Subb, Register8::A, Alu2OpMode::Register(Register8::A)) => {
            Opcode::Extended(opcode::SUBB_A_A).encode()
        },
        (Alu2Op::Subb, Register8::A, Alu2OpMode::Register(Register8::B)) => {
            Opcode::Extended(opcode::SUBB_A_B).encode()
        },
        (Alu2Op::Subb, Register8::A, Alu2OpMode::Register(Register8::C)) => {
            Opcode::Extended(opcode::SUBB_A_C).encode()
        },
        (Alu2Op::Subb, Register8::A, Alu2OpMode::Register(Register8::D)) => {
            Opcode::Extended(opcode::SUBB_A_D).encode()
        },
        (Alu2Op::Subb, Register8::B, Alu2OpMode::Register(Register8::A)) => {
            Opcode::Extended(opcode::SUBB_B_A).encode()
        },
        (Alu2Op::Subb, Register8::B, Alu2OpMode::Register(Register8::B)) => {
            Opcode::Extended(opcode::SUBB_B_B).encode()
        },
        (Alu2Op::Subb, Register8::B, Alu2OpMode::Register(Register8::C)) => {
            Opcode::Extended(opcode::SUBB_B_C).encode()
        },
        (Alu2Op::Subb, Register8::B, Alu2OpMode::Register(Register8::D)) => {
            Opcode::Extended(opcode::SUBB_B_D).encode()
        },
        (Alu2Op::Subb, Register8::C, Alu2OpMode::Register(Register8::A)) => {
            Opcode::Extended(opcode::SUBB_C_A).encode()
        },
        (Alu2Op::Subb, Register8::C, Alu2OpMode::Register(Register8::B)) => {
            Opcode::Extended(opcode::SUBB_C_B).encode()
        },
        (Alu2Op::Subb, Register8::C, Alu2OpMode::Register(Register8::C)) => {
            Opcode::Extended(opcode::SUBB_C_C).encode()
        },
        (Alu2Op::Subb, Register8::C, Alu2OpMode::Register(Register8::D)) => {
            Opcode::Extended(opcode::SUBB_C_D).encode()
        },
        (Alu2Op::Subb, Register8::D, Alu2OpMode::Register(Register8::A)) => {
            Opcode::Extended(opcode::SUBB_D_A).encode()
        },
        (Alu2Op::Subb, Register8::D, Alu2OpMode::Register(Register8::B)) => {
            Opcode::Extended(opcode::SUBB_D_B).encode()
        },
        (Alu2Op::Subb, Register8::D, Alu2OpMode::Register(Register8::C)) => {
            Opcode::Extended(opcode::SUBB_D_C).encode()
        },
        (Alu2Op::Subb, Register8::D, Alu2OpMode::Register(Register8::D)) => {
            Opcode::Extended(opcode::SUBB_D_D).encode()
        },
        (Alu2Op::Subb, Register8::A, Alu2OpMode::Constant(byte)) => {
            Opcode::Extended(opcode::SUBB_A_IMM).encode_with_byte(byte)
        },
        (Alu2Op::Subb, Register8::B, Alu2OpMode::Constant(byte)) => {
            Opcode::Extended(opcode::SUBB_B_IMM).encode_with_byte(byte)
        },
        (Alu2Op::Subb, Register8::C, Alu2OpMode::Constant(byte)) => {
            Opcode::Extended(opcode::SUBB_C_IMM).encode_with_byte(byte)
        },
        (Alu2Op::Subb, Register8::D, Alu2OpMode::Constant(byte)) => {
            Opcode::Extended(opcode::SUBB_D_IMM).encode_with_byte(byte)
        },
        (Alu2Op::And, Register8::A, Alu2OpMode::Register(Register8::A)) => {
            Opcode::Extended(opcode::AND_A_A).encode()
        },
        (Alu2Op::And, Register8::A, Alu2OpMode::Register(Register8::B)) => {
            Opcode::Extended(opcode::AND_A_B).encode()
        },
        (Alu2Op::And, Register8::A, Alu2OpMode::Register(Register8::C)) => {
            Opcode::Extended(opcode::AND_A_C).encode()
        },
        (Alu2Op::And, Register8::A, Alu2OpMode::Register(Register8::D)) => {
            Opcode::Extended(opcode::AND_A_D).encode()
        },
        (Alu2Op::And, Register8::B, Alu2OpMode::Register(Register8::A)) => {
            Opcode::Extended(opcode::AND_B_A).encode()
        },
        (Alu2Op::And, Register8::B, Alu2OpMode::Register(Register8::B)) => {
            Opcode::Extended(opcode::AND_B_B).encode()
        },
        (Alu2Op::And, Register8::B, Alu2OpMode::Register(Register8::C)) => {
            Opcode::Extended(opcode::AND_B_C).encode()
        },
        (Alu2Op::And, Register8::B, Alu2OpMode::Register(Register8::D)) => {
            Opcode::Extended(opcode::AND_B_D).encode()
        },
        (Alu2Op::And, Register8::C, Alu2OpMode::Register(Register8::A)) => {
            Opcode::Extended(opcode::AND_C_A).encode()
        },
        (Alu2Op::And, Register8::C, Alu2OpMode::Register(Register8::B)) => {
            Opcode::Extended(opcode::AND_C_B).encode()
        },
        (Alu2Op::And, Register8::C, Alu2OpMode::Register(Register8::C)) => {
            Opcode::Extended(opcode::AND_C_C).encode()
        },
        (Alu2Op::And, Register8::C, Alu2OpMode::Register(Register8::D)) => {
            Opcode::Extended(opcode::AND_C_D).encode()
        },
        (Alu2Op::And, Register8::D, Alu2OpMode::Register(Register8::A)) => {
            Opcode::Extended(opcode::AND_D_A).encode()
        },
        (Alu2Op::And, Register8::D, Alu2OpMode::Register(Register8::B)) => {
            Opcode::Extended(opcode::AND_D_B).encode()
        },
        (Alu2Op::And, Register8::D, Alu2OpMode::Register(Register8::C)) => {
            Opcode::Extended(opcode::AND_D_C).encode()
        },
        (Alu2Op::And, Register8::D, Alu2OpMode::Register(Register8::D)) => {
            Opcode::Extended(opcode::AND_D_D).encode()
        },
        (Alu2Op::And, Register8::A, Alu2OpMode::Constant(byte)) => {
            Opcode::Extended(opcode::AND_A_IMM).encode_with_byte(byte)
        },
        (Alu2Op::And, Register8::B, Alu2OpMode::Constant(byte)) => {
            Opcode::Extended(opcode::AND_B_IMM).encode_with_byte(byte)
        },
        (Alu2Op::And, Register8::C, Alu2OpMode::Constant(byte)) => {
            Opcode::Extended(opcode::AND_C_IMM).encode_with_byte(byte)
        },
        (Alu2Op::And, Register8::D, Alu2OpMode::Constant(byte)) => {
            Opcode::Extended(opcode::AND_D_IMM).encode_with_byte(byte)
        },
        (Alu2Op::Or, Register8::A, Alu2OpMode::Register(Register8::A)) => {
            Opcode::Extended(opcode::OR_A_A).encode()
        },
        (Alu2Op::Or, Register8::A, Alu2OpMode::Register(Register8::B)) => {
            Opcode::Extended(opcode::OR_A_B).encode()
        },
        (Alu2Op::Or, Register8::A, Alu2OpMode::Register(Register8::C)) => {
            Opcode::Extended(opcode::OR_A_C).encode()
        },
        (Alu2Op::Or, Register8::A, Alu2OpMode::Register(Register8::D)) => {
            Opcode::Extended(opcode::OR_A_D).encode()
        },
        (Alu2Op::Or, Register8::B, Alu2OpMode::Register(Register8::A)) => {
            Opcode::Extended(opcode::OR_B_A).encode()
        },
        (Alu2Op::Or, Register8::B, Alu2OpMode::Register(Register8::B)) => {
            Opcode::Extended(opcode::OR_B_B).encode()
        },
        (Alu2Op::Or, Register8::B, Alu2OpMode::Register(Register8::C)) => {
            Opcode::Extended(opcode::OR_B_C).encode()
        },
        (Alu2Op::Or, Register8::B, Alu2OpMode::Register(Register8::D)) => {
            Opcode::Extended(opcode::OR_B_D).encode()
        },
        (Alu2Op::Or, Register8::C, Alu2OpMode::Register(Register8::A)) => {
            Opcode::Extended(opcode::OR_C_A).encode()
        },
        (Alu2Op::Or, Register8::C, Alu2OpMode::Register(Register8::B)) => {
            Opcode::Extended(opcode::OR_C_B).encode()
        },
        (Alu2Op::Or, Register8::C, Alu2OpMode::Register(Register8::C)) => {
            Opcode::Extended(opcode::OR_C_C).encode()
        },
        (Alu2Op::Or, Register8::C, Alu2OpMode::Register(Register8::D)) => {
            Opcode::Extended(opcode::OR_C_D).encode()
        },
        (Alu2Op::Or, Register8::D, Alu2OpMode::Register(Register8::A)) => {
            Opcode::Extended(opcode::OR_D_A).encode()
        },
        (Alu2Op::Or, Register8::D, Alu2OpMode::Register(Register8::B)) => {
            Opcode::Extended(opcode::OR_D_B).encode()
        },
        (Alu2Op::Or, Register8::D, Alu2OpMode::Register(Register8::C)) => {
            Opcode::Extended(opcode::OR_D_C).encode()
        },
        (Alu2Op::Or, Register8::D, Alu2OpMode::Register(Register8::D)) => {
            Opcode::Extended(opcode::OR_D_D).encode()
        },
        (Alu2Op::Or, Register8::A, Alu2OpMode::Constant(byte)) => {
            Opcode::Extended(opcode::OR_A_IMM).encode_with_byte(byte)
        },
        (Alu2Op::Or, Register8::B, Alu2OpMode::Constant(byte)) => {
            Opcode::Extended(opcode::OR_B_IMM).encode_with_byte(byte)
        },
        (Alu2Op::Or, Register8::C, Alu2OpMode::Constant(byte)) => {
            Opcode::Extended(opcode::OR_C_IMM).encode_with_byte(byte)
        },
        (Alu2Op::Or, Register8::D, Alu2OpMode::Constant(byte)) => {
            Opcode::Extended(opcode::OR_D_IMM).encode_with_byte(byte)
        },
        (Alu2Op::Xor, Register8::A, Alu2OpMode::Register(Register8::A)) => {
            Opcode::Extended(opcode::XOR_A_A).encode()
        },
        (Alu2Op::Xor, Register8::A, Alu2OpMode::Register(Register8::B)) => {
            Opcode::Extended(opcode::XOR_A_B).encode()
        },
        (Alu2Op::Xor, Register8::A, Alu2OpMode::Register(Register8::C)) => {
            Opcode::Extended(opcode::XOR_A_C).encode()
        },
        (Alu2Op::Xor, Register8::A, Alu2OpMode::Register(Register8::D)) => {
            Opcode::Extended(opcode::XOR_A_D).encode()
        },
        (Alu2Op::Xor, Register8::B, Alu2OpMode::Register(Register8::A)) => {
            Opcode::Extended(opcode::XOR_B_A).encode()
        },
        (Alu2Op::Xor, Register8::B, Alu2OpMode::Register(Register8::B)) => {
            Opcode::Extended(opcode::XOR_B_B).encode()
        },
        (Alu2Op::Xor, Register8::B, Alu2OpMode::Register(Register8::C)) => {
            Opcode::Extended(opcode::XOR_B_C).encode()
        },
        (Alu2Op::Xor, Register8::B, Alu2OpMode::Register(Register8::D)) => {
            Opcode::Extended(opcode::XOR_B_D).encode()
        },
        (Alu2Op::Xor, Register8::C, Alu2OpMode::Register(Register8::A)) => {
            Opcode::Extended(opcode::XOR_C_A).encode()
        },
        (Alu2Op::Xor, Register8::C, Alu2OpMode::Register(Register8::B)) => {
            Opcode::Extended(opcode::XOR_C_B).encode()
        },
        (Alu2Op::Xor, Register8::C, Alu2OpMode::Register(Register8::C)) => {
            Opcode::Extended(opcode::XOR_C_C).encode()
        },
        (Alu2Op::Xor, Register8::C, Alu2OpMode::Register(Register8::D)) => {
            Opcode::Extended(opcode::XOR_C_D).encode()
        },
        (Alu2Op::Xor, Register8::D, Alu2OpMode::Register(Register8::A)) => {
            Opcode::Extended(opcode::XOR_D_A).encode()
        },
        (Alu2Op::Xor, Register8::D, Alu2OpMode::Register(Register8::B)) => {
            Opcode::Extended(opcode::XOR_D_B).encode()
        },
        (Alu2Op::Xor, Register8::D, Alu2OpMode::Register(Register8::C)) => {
            Opcode::Extended(opcode::XOR_D_C).encode()
        },
        (Alu2Op::Xor, Register8::D, Alu2OpMode::Register(Register8::D)) => {
            Opcode::Extended(opcode::XOR_D_D).encode()
        },
        (Alu2Op::Xor, Register8::A, Alu2OpMode::Constant(byte)) => {
            Opcode::Extended(opcode::XOR_A_IMM).encode_with_byte(byte)
        },
        (Alu2Op::Xor, Register8::B, Alu2OpMode::Constant(byte)) => {
            Opcode::Extended(opcode::XOR_B_IMM).encode_with_byte(byte)
        },
        (Alu2Op::Xor, Register8::C, Alu2OpMode::Constant(byte)) => {
            Opcode::Extended(opcode::XOR_C_IMM).encode_with_byte(byte)
        },
        (Alu2Op::Xor, Register8::D, Alu2OpMode::Constant(byte)) => {
            Opcode::Extended(opcode::XOR_D_IMM).encode_with_byte(byte)
        },
        (Alu2Op::Cmp, Register8::A, Alu2OpMode::Register(Register8::A)) => {
            Opcode::Extended(opcode::CMP_A_A).encode()
        },
        (Alu2Op::Cmp, Register8::A, Alu2OpMode::Register(Register8::B)) => {
            Opcode::Extended(opcode::CMP_A_B).encode()
        },
        (Alu2Op::Cmp, Register8::A, Alu2OpMode::Register(Register8::C)) => {
            Opcode::Extended(opcode::CMP_A_C).encode()
        },
        (Alu2Op::Cmp, Register8::A, Alu2OpMode::Register(Register8::D)) => {
            Opcode::Extended(opcode::CMP_A_D).encode()
        },
        (Alu2Op::Cmp, Register8::B, Alu2OpMode::Register(Register8::A)) => {
            Opcode::Extended(opcode::CMP_B_A).encode()
        },
        (Alu2Op::Cmp, Register8::B, Alu2OpMode::Register(Register8::B)) => {
            Opcode::Extended(opcode::CMP_B_B).encode()
        },
        (Alu2Op::Cmp, Register8::B, Alu2OpMode::Register(Register8::C)) => {
            Opcode::Extended(opcode::CMP_B_C).encode()
        },
        (Alu2Op::Cmp, Register8::B, Alu2OpMode::Register(Register8::D)) => {
            Opcode::Extended(opcode::CMP_B_D).encode()
        },
        (Alu2Op::Cmp, Register8::C, Alu2OpMode::Register(Register8::A)) => {
            Opcode::Extended(opcode::CMP_C_A).encode()
        },
        (Alu2Op::Cmp, Register8::C, Alu2OpMode::Register(Register8::B)) => {
            Opcode::Extended(opcode::CMP_C_B).encode()
        },
        (Alu2Op::Cmp, Register8::C, Alu2OpMode::Register(Register8::C)) => {
            Opcode::Extended(opcode::CMP_C_C).encode()
        },
        (Alu2Op::Cmp, Register8::C, Alu2OpMode::Register(Register8::D)) => {
            Opcode::Extended(opcode::CMP_C_D).encode()
        },
        (Alu2Op::Cmp, Register8::D, Alu2OpMode::Register(Register8::A)) => {
            Opcode::Extended(opcode::CMP_D_A).encode()
        },
        (Alu2Op::Cmp, Register8::D, Alu2OpMode::Register(Register8::B)) => {
            Opcode::Extended(opcode::CMP_D_B).encode()
        },
        (Alu2Op::Cmp, Register8::D, Alu2OpMode::Register(Register8::C)) => {
            Opcode::Extended(opcode::CMP_D_C).encode()
        },
        (Alu2Op::Cmp, Register8::D, Alu2OpMode::Register(Register8::D)) => {
            Opcode::Extended(opcode::CMP_D_D).encode()
        },
        (Alu2Op::Cmp, Register8::A, Alu2OpMode::Constant(byte)) => {
            Opcode::Extended(opcode::CMP_A_IMM).encode_with_byte(byte)
        },
        (Alu2Op::Cmp, Register8::B, Alu2OpMode::Constant(byte)) => {
            Opcode::Extended(opcode::CMP_B_IMM).encode_with_byte(byte)
        },
        (Alu2Op::Cmp, Register8::C, Alu2OpMode::Constant(byte)) => {
            Opcode::Extended(opcode::CMP_C_IMM).encode_with_byte(byte)
        },
        (Alu2Op::Cmp, Register8::D, Alu2OpMode::Constant(byte)) => {
            Opcode::Extended(opcode::CMP_D_IMM).encode_with_byte(byte)
        },
    }
}

/// Encodes an operation on one operand.
pub(crate) fn encode_alu1(op: Alu1Op, operand: Register8) -> (bytes: InstructionBytes)
    ensures
        bytes@ == Instruction::Alu1(op, operand).encoding(),
{
    match (op, operand) {
        (Alu1Op::Shl, Register8::A) => Opcode::Extended(opcode::SHL_A).encode(),
        (Alu1Op::Shl, Register8::B) => Opcode::Extended(opcode::SHL_B).encode(),
        (Alu1Op::Shl, Register8::C) => Opcode::Extended(opcode::SHL_C).encode(),
        (Alu1Op::Shl, Register8::D) => Opcode::Extended(opcode::SHL_D).encode(),
        (Alu1Op::Shr, Register8::A) => Opcode::Extended(opcode::SHR_A).encode(),
        (Alu1Op::Shr, Register8::B) => Opcode::Extended(opcode::SHR_B).encode(),
        (Alu1Op::Shr, Register8::C) => Opcode::Extended(opcode::SHR_C).encode(),
        (Alu1Op::Shr, Register8::D) => Opcode::Extended(opcode::SHR_D).encode(),
        (Alu1Op::Asr, Register8::A) => Opcode::Extended(opcode::ASR_A).encode(),
        (Alu1Op::Asr, Register8::B) => Opcode::Extended(opcode::ASR_B).encode(),
        (Alu1Op::Asr, Register8::C) => Opcode::Extended(opcode::ASR_C).encode(),
        (Alu1Op::Asr, Register8::D) => Opcode::Extended(opcode::ASR_D).encode(),
        (Alu1Op::Not, Register8::A) => Opcode::Extended(opcode::NOT_A).encode(),
        (Alu1Op::Not, Register8::B) => Opcode::Extended(opcode::NOT_B).encode(),
        (Alu1Op::Not, Register8::C) => Opcode::Extended(opcode::NOT_C).encode(),
        (Alu1Op::Not, Register8::D) => Opcode::Extended(opcode::NOT_D).encode(),
        (Alu1Op::Neg, Register8::A) => Opcode::Extended(opcode::NEG_A).encode(),
        (Alu1Op::Neg, Register8::B) => Opcode::Extended(opcode::NEG_B).encode(),
        (Alu1Op::Neg, Register8::C) => Opcode::Extended(opcode::NEG_C).encode(),
        (Alu1Op::Neg, Register8::D) => Opcode::Extended(opcode::NEG_D).encode(),
        (Alu1Op::Inc, Register8::A) => Opcode::Extended(opcode::INC_A).encode(),
        (Alu1Op::Inc, Register8::B) => Opcode::Extended(opcode::INC_B).encode(),
        (Alu1Op::Inc, Register8::C) => Opcode::Extended(opcode::INC_C).encode(),
        (Alu1Op::Inc, Register8::D) => Opcode::Extended(opcode::INC_D).encode(),
        (Alu1Op::Dec, Register8::A) => Opcode::Extended(opcode::DEC_A).encode(),
        (Alu1Op::Dec, Register8::B) => Opcode::Extended(opcode::DEC_B).encode(),
        (Alu1Op::Dec, Register8::C) => Opcode::Extended(opcode::DEC_C).encode(),
        (Alu1Op::Dec, Register8::D) => Opcode::Extended(opcode::DEC_D).encode(),
        (Alu1Op::Test, Register8::A) => Opcode::Extended(opcode::TEST_A).encode(),
        (Alu1Op::Test, Register8::B) => Opcode::Extended(opcode::TEST_B).encode(),
        (Alu1Op::Test, Register8::C) => Opcode::Extended(opcode::TEST_C).encode(),
        (Alu1Op::Test, Register8::D) => Opcode::Extended(opcode::TEST_D).encode(),
    }
}

/// Encodes a push of an eight-bit register.
pub(crate) fn encode_push8(src: Register8) -> (bytes: InstructionBytes)
    ensures
        bytes@ == Instruction::Push8(src).encoding(),
{
    match src {
        Register8::A => Opcode::Extended(opcode::PUSH_A).encode(),
        Register8::B => Opcode::Extended(opcode::PUSH_B).encode(),
        Register8::C => Opcode::Extended(opcode::PUSH_C).encode(),
        Register8::D => Opcode::Extended(opcode::PUSH_D).encode(),
    }
}

/// Encodes a push of a sixteen-bit register.
pub(crate) fn encode_push16(src: Register16) -> (bytes: InstructionBytes)
    ensures
        bytes@ == Instruction::Push16(src).encoding(),
{
    match src {
        Register16::X => Opcode::Extended(opcode::PUSH_X).encode(),
        Register16::Y => Opcode::Extended(opcode::PUSH_Y).encode(),
    }
}

/// Encodes a pop into an eight-bit register.
pub(crate) fn encode_pop8(dst: Register8) -> (bytes: InstructionBytes)
    ensures
        bytes@ == Instruction::Pop8(dst).encoding(),
{
    match dst {
        Register8::A => Opcode::Extended(opcode::POP_A).encode(),
        Register8::B => Opcode::Extended(opcode::POP_B).encode(),
        Register8::C => Opcode::Extended(opcode::POP_C).encode(),
        Register8::D => Opcode::Extended(opcode::POP_D).encode(),
    }
}

/// Encodes a pop into a sixteen-bit register.
pub(crate) fn encode_pop16(dst: Register16) -> (bytes: InstructionBytes)
    ensures
        bytes@ == Instruction::Pop16(dst).encoding(),
{
    match dst {
        Register16::X => Opcode::Extended(opcode::POP_X).encode(),
        Register16::Y => Opcode::Extended(opcode::POP_Y).encode(),
    }
}

/// Encodes a call.
pub(crate) fn encode_call(mode: JumpMode) -> (bytes: InstructionBytes)
    ensures
        bytes@ == Instruction::Call(mode).encoding(),
{
    match mode {
        JumpMode::Relative(byte) => Opcode::Extended(opcode::CALL_PC_REL).encode_with_byte(byte),
        JumpMode::Absolute(word) => Opcode::Extended(opcode::CALL_ABS).encode_with_word(word),
        JumpMode::Indirect(Register16::X, byte) => {
            Opcode::Extended(opcode::CALL_X_REL_IMM).encode_with_byte(byte)
        },
        JumpMode::Indirect(Register16::Y, byte) => {
            Opcode::Extended(opcode::CALL_Y_REL_IMM).encode_with_byte(byte)
        },
    }
}

/// Encodes a jump.
pub(crate) fn encode_jmp(condition: Condition, mode: JumpMode) -> (bytes: InstructionBytes)
    ensures
        bytes@ == Instruction::Jmp(condition, mode).encoding(),
{
    match (condition, mode) {
        (Condition::Always, JumpMode::Relative(byte)) => {
            Opcode::Extended(opcode::JMP_PC_REL).encode_with_byte(byte)
        },
        (Condition::Always, JumpMode::Absolute(word)) => {
            Opcode::Extended(opcode::JMP_ABS).encode_with_word(word)
        },
        (Condition::Always, JumpMode::Indirect(Register16::X, byte)) => {
            Opcode::Extended(opcode::JMP_X_REL_IMM).encode_with_byte(byte)
        },
        (Condition::Always, JumpMode::Indirect(Register16::Y, byte)) => {
            Opcode::Extended(opcode::JMP_Y_REL_IMM).encode_with_byte(byte)
        },
        (Condition::Equal, JumpMode::Relative(byte)) => {
            Opcode::Extended(opcode::BR_EQ_PC_REL).encode_with_byte(byte)
        },
        (Condition::Equal, JumpMode::Absolute(word)) => {
            Opcode::Extended(opcode::BR_EQ_ABS).encode_with_word(word)
        },
        (Condition::Equal, JumpMode::Indirect(Register16::X, byte)) => {
            Opcode::Extended(opcode::BR_EQ_X_REL_IMM).encode_with_byte(byte)
        },
        (Condition::Equal, JumpMode::Indirect(Register16::Y, byte)) => {
            Opcode::Extended(opcode::BR_EQ_Y_REL_IMM).encode_with_byte(byte)
        },
        (Condition::NotEqual, JumpMode::Relative(byte)) => {
            Opcode::Extended(opcode::BR_NE_PC_REL).encode_with_byte(byte)
        },
        (Condition::NotEqual, JumpMode::Absolute(word)) => {
            Opcode::Extended(opcode::BR_NE_ABS).encode_with_word(word)
        },
        (Condition::NotEqual, JumpMode::Indirect(Register16::X, byte)) => {
            Opcode::Extended(opcode::BR_NE_X_REL_IMM).encode_with_byte(byte)
        },
        (Condition::NotEqual, JumpMode::Indirect(Register16::Y, byte)) => {
            Opcode::Extended(opcode::BR_NE_Y_REL_IMM).encode_with_byte(byte)
        },
        (Condition::LessThan, JumpMode::Relative(byte)) => {
            Opcode::Extended(opcode::BR_LT_PC_REL).encode_with_byte(byte)
        },
        (Condition::LessThan, JumpMode::Absolute(word)) => {
            Opcode::Extended(opcode::BR_LT_ABS).encode_with_word(word)
        },
        (Condition::LessThan, JumpMode::Indirect(Register16::X, byte)) => {
            Opcode::Extended(opcode::BR_LT_X_REL_IMM).encode_with_byte(byte)
        },
        (Condition::LessThan, JumpMode::Indirect(Register16::Y, byte)) => {
            Opcode::Extended(opcode::BR_LT_Y_REL_IMM).encode_with_byte(byte)
        },
        (Condition::GreaterThan, JumpMode::Relative(byte)) => {
            Opcode::Extended(opcode::BR_GT_PC_REL).encode_with_byte(byte)
        },
        (Condition::GreaterThan, JumpMode::Absolute(word)) => {
            Opcode::Extended(opcode::BR_GT_ABS).encode_with_word(word)
        },
        (Condition::GreaterThan, JumpMode::Indirect(Register16::X, byte)) => {
            Opcode::Extended(opcode::BR_GT_X_REL_IMM).encode_with_byte(byte)
        },
        (Condition::GreaterThan, JumpMode::Indirect(Register16::Y, byte)) => {
            Opcode::Extended(opcode::BR_GT_Y_REL_IMM).encode_with_byte(byte)
        },
        (Condition::LessEqual, JumpMode::Relative(byte)) => {
            Opcode::Extended(opcode::BR_LE_PC_REL).encode_with_byte(byte)
        },
        (Condition::LessEqual, JumpMode::Absolute(word)) => {
            Opcode::Extended(opcode::BR_LE_ABS).encode_with_word(word)
        },
        (Condition::LessEqual, JumpMode::Indirect(Register16::X, byte)) => {
            Opcode::Extended(opcode::BR_LE_X_REL_IMM).encode_with_byte(byte)
        },
        (Condition::LessEqual, JumpMode::Indirect(Register16::Y, byte)) => {
            Opcode::Extended(opcode::BR_LE_Y_REL_IMM).encode_with_byte(byte)
        },
        (Condition::GreaterEqual, JumpMode::Relative(byte)) => {
            Opcode::Extended(opcode::BR_GE_PC_REL).encode_with_byte(byte)
        },
        (Condition::GreaterEqual, JumpMode::Absolute(word)) => {
            Opcode::Extended(opcode::BR_GE_ABS).encode_with_word(word)
        },
        (Condition::GreaterEqual, JumpMode::Indirect(Register16::X, byte)) => {
            Opcode::Extended(opcode::BR_GE_X_REL_IMM).encode_with_byte(byte)
        },
        (Condition::GreaterEqual, JumpMode::Indirect(Register16::Y, byte)) => {
            Opcode::Extended(opcode::BR_GE_Y_REL_IMM).encode_with_byte(byte)
        },
        (Condition::LessThanSigned, JumpMode::Relative(byte)) => {
            Opcode::Extended(opcode::BR_LTS_PC_REL).encode_with_byte(byte)
        },
        (Condition::LessThanSigned, JumpMode::Absolute(word)) => {
            Opcode::Extended(opcode::BR_LTS_ABS).encode_with_word(word)
        },
        (Condition::LessThanSigned, JumpMode::Indirect(Register16::X, byte)) => {
            Opcode::Extended(opcode::BR_LTS_X_REL_IMM).encode_with_byte(byte)
        },
        (Condition::LessThanSigned, JumpMode::Indirect(Register16::Y, byte)) => {
            Opcode::Extended(opcode::BR_LTS_Y_REL_IMM).encode_with_byte(byte)
        },
        (Condition::GreaterThanSigned, JumpMode::Relative(byte)) => {
            Opcode::Extended(opcode::BR_GTS_PC_REL).encode_with_byte(byte)
        },
        (Condition::GreaterThanSigned, JumpMode::Absolute(word)) => {
            Opcode::Extended(opcode::BR_GTS_ABS).encode_with_word(word)
        },
        (Condition::GreaterThanSigned, JumpMode::Indirect(Register16::X, byte)) => {
            Opcode::Extended(opcode::BR_GTS_X_REL_IMM).encode_with_byte(byte)
        },
        (Condition::GreaterThanSigned, JumpMode::Indirect(Register16::Y, byte)) => {
            Opcode::Extended(opcode::BR_GTS_Y_REL_IMM).encode_with_byte(byte)
        },
        (Condition::LessEqualSigned, JumpMode::Relative(byte)) => {
            Opcode::Extended(opcode::BR_LES_PC_REL).encode_with_byte(byte)
        },
        (Condition::LessEqualSigned, JumpMode::Absolute(word)) => {
            Opcode::Extended(opcode::BR_LES_ABS).encode_with_word(word)
        },
        (Condition::LessEqualSigned, JumpMode::Indirect(Register16::X, byte)) => {
            Opcode::Extended(opcode::BR_LES_X_REL_IMM).encode_with_byte(byte)
        },
        (Condition::LessEqualSigned, JumpMode::Indirect(Register16::Y, byte)) => {
            Opcode::Extended(opcode::BR_LES_Y_REL_IMM).encode_with_byte(byte)
        },
        (Condition::GreaterEqualSigned, JumpMode::Relative(byte)) => {
            Opcode::Extended(opcode::BR_GES_PC_REL).encode_with_byte(byte)
        },
        (Condition::GreaterEqualSigned, JumpMode::Absolute(word)) => {
            Opcode::Extended(opcode::BR_GES_ABS).encode_with_word(word)
        },
        (Condition::GreaterEqualSigned, JumpMode::Indirect(Register16::X, byte)) => {
            Opcode::Extended(opcode::BR_GES_X_REL_IMM).encode_with_byte(byte)
        },
        (Condition::GreaterEqualSigned, JumpMode::Indirect(Register16::Y, byte)) => {
            Opcode::Extended(opcode::BR_GES_Y_REL_IMM).encode_with_byte(byte)
        },
    }
}

} // verus!
