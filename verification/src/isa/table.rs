//! The opcode map as tables: for every opcode by name, the shape of its
//! operand and the instruction it stands for.

use crate::isa::instruction::{
    Alu1Op, Alu2Op, Alu2OpMode, Condition, IOMode, Instruction, JumpMode, LeaMode, Memory16Mode,
    Memory8Mode, Pointer, Register16, Register8, RegisterPair,
};
use crate::isa::opcode;
use crate::isa::opcode::{
    extended_shape, extended_template, primary_shape, primary_template, Opcode, OperandShape,
};
use crate::isa::{Byte, Word};
use vstd::prelude::*;

verus! {

/// The shape of the operand after an opcode of the primary table.
fn primary_operand_shape(code: Byte) -> (shape: OperandShape)
    ensures
        shape == primary_shape(code as int),
{
    reveal(primary_shape);
    match code {
        opcode::LD_A_IMM | opcode::LD_B_IMM | opcode::LD_C_IMM | opcode::LD_D_IMM
        | opcode::LD_A_REL_X_BY_IMM | opcode::LD_A_REL_Y_BY_IMM | opcode::LD_A_REL_SP_BY_IMM
        | opcode::LD_B_REL_X_BY_IMM | opcode::LD_B_REL_Y_BY_IMM | opcode::LD_B_REL_SP_BY_IMM
        | opcode::LD_C_REL_X_BY_IMM | opcode::LD_C_REL_Y_BY_IMM | opcode::LD_C_REL_SP_BY_IMM
        | opcode::LD_D_REL_X_BY_IMM | opcode::LD_D_REL_Y_BY_IMM | opcode::LD_D_REL_SP_BY_IMM
        | opcode::ST_REL_X_BY_IMM_A | opcode::ST_REL_Y_BY_IMM_A | opcode::ST_REL_SP_BY_IMM_A
        | opcode::ST_REL_X_BY_IMM_B | opcode::ST_REL_Y_BY_IMM_B | opcode::ST_REL_SP_BY_IMM_B
        | opcode::ST_REL_X_BY_IMM_C | opcode::ST_REL_Y_BY_IMM_C | opcode::ST_REL_SP_BY_IMM_C
        | opcode::ST_REL_X_BY_IMM_D | opcode::ST_REL_Y_BY_IMM_D | opcode::ST_REL_SP_BY_IMM_D
        | opcode::IN_A_PORT | opcode::IN_A_REL_X_BY_IMM | opcode::IN_A_REL_Y_BY_IMM
        | opcode::IN_B_PORT | opcode::IN_B_REL_X_BY_IMM | opcode::IN_B_REL_Y_BY_IMM
        | opcode::IN_C_PORT | opcode::IN_C_REL_X_BY_IMM | opcode::IN_C_REL_Y_BY_IMM
        | opcode::IN_D_PORT | opcode::IN_D_REL_X_BY_IMM | opcode::IN_D_REL_Y_BY_IMM
        | opcode::OUT_PORT_A | opcode::OUT_REL_X_BY_IMM_A | opcode::OUT_REL_Y_BY_IMM_A
        | opcode::OUT_PORT_B | opcode::OUT_REL_X_BY_IMM_B | opcode::OUT_REL_Y_BY_IMM_B
        | opcode::OUT_PORT_C | opcode::OUT_REL_X_BY_IMM_C | opcode::OUT_REL_Y_BY_IMM_C
        | opcode::OUT_PORT_D | opcode::OUT_REL_X_BY_IMM_D | opcode::OUT_REL_Y_BY_IMM_D
        => OperandShape::Byte,
        opcode::LD_A_ABS | opcode::LD_B_ABS | opcode::LD_C_ABS | opcode::LD_D_ABS
        | opcode::ST_ABS_A | opcode::ST_ABS_B | opcode::ST_ABS_C | opcode::ST_ABS_D
        => OperandShape::Word,
        _ => OperandShape::Bare,
    }
}

/// The shape of the operand after an opcode of the extended table.
fn extended_operand_shape(code: Byte) -> (shape: OperandShape)
    ensures
        shape == extended_shape(code as int),
{
    reveal(extended_shape);
    match code {
        opcode::LD_X_REL_X_BY_IMM | opcode::LD_X_REL_Y_BY_IMM | opcode::LD_X_REL_SP_BY_IMM
        | opcode::LD_Y_REL_X_BY_IMM | opcode::LD_Y_REL_Y_BY_IMM | opcode::LD_Y_REL_SP_BY_IMM
        | opcode::ST_REL_X_BY_IMM_X | opcode::ST_REL_Y_BY_IMM_X | opcode::ST_REL_SP_BY_IMM_X
        | opcode::ST_REL_X_BY_IMM_Y | opcode::ST_REL_Y_BY_IMM_Y | opcode::ST_REL_SP_BY_IMM_Y
        | opcode::LEA_X_BY_IMM | opcode::LEA_Y_BY_IMM | opcode::LEA_SP_BY_IMM
        | opcode::ADDC_A_IMM | opcode::ADDC_B_IMM | opcode::ADDC_C_IMM | opcode::ADDC_D_IMM
        | opcode::SUBB_A_IMM | opcode::SUBB_B_IMM | opcode::SUBB_C_IMM | opcode::SUBB_D_IMM
        | opcode::AND_A_IMM | opcode::AND_B_IMM | opcode::AND_C_IMM | opcode::AND_D_IMM
        | opcode::OR_A_IMM | opcode::OR_B_IMM | opcode::OR_C_IMM | opcode::OR_D_IMM
        | opcode::XOR_A_IMM | opcode::XOR_B_IMM | opcode::XOR_C_IMM | opcode::XOR_D_IMM
        | opcode::CMP_A_IMM | opcode::CMP_B_IMM | opcode::CMP_C_IMM | opcode::CMP_D_IMM
        | opcode::CALL_PC_REL | opcode::CALL_X_REL_IMM | opcode::CALL_Y_REL_IMM
        | opcode::JMP_PC_REL | opcode::JMP_X_REL_IMM | opcode::JMP_Y_REL_IMM
        | opcode::BR_EQ_PC_REL | opcode::BR_EQ_X_REL_IMM | opcode::BR_EQ_Y_REL_IMM
        | opcode::BR_NE_PC_REL | opcode::BR_NE_X_REL_IMM | opcode::BR_NE_Y_REL_IMM
        | opcode::BR_LT_PC_REL | opcode::BR_LT_X_REL_IMM | opcode::BR_LT_Y_REL_IMM
        | opcode::BR_GT_PC_REL | opcode::BR_GT_X_REL_IMM | opcode::BR_GT_Y_REL_IMM
        | opcode::BR_LE_PC_REL | opcode::BR_LE_X_REL_IMM | opcode::BR_LE_Y_REL_IMM
        | opcode::BR_GE_PC_REL | opcode::BR_GE_X_REL_IMM | opcode::BR_GE_Y_REL_IMM
        | opcode::BR_LTS_PC_REL | opcode::BR_LTS_X_REL_IMM | opcode::BR_LTS_Y_REL_IMM
        | opcode::BR_GTS_PC_REL | opcode::BR_GTS_X_REL_IMM | opcode::BR_GTS_Y_REL_IMM
        | opcode::BR_LES_PC_REL | opcode::BR_LES_X_REL_IMM | opcode::BR_LES_Y_REL_IMM
        | opcode::BR_GES_PC_REL | opcode::BR_GES_X_REL_IMM | opcode::BR_GES_Y_REL_IMM
        => OperandShape::Byte,
        opcode::LD_X_IMM | opcode::LD_Y_IMM | opcode::LD_X_ABS | opcode::LD_Y_ABS
        | opcode::ST_ABS_X | opcode::ST_ABS_Y | opcode::CALL_ABS | opcode::JMP_ABS
        | opcode::BR_EQ_ABS | opcode::BR_NE_ABS | opcode::BR_LT_ABS | opcode::BR_GT_ABS
        | opcode::BR_LE_ABS | opcode::BR_GE_ABS | opcode::BR_LTS_ABS | opcode::BR_GTS_ABS
        | opcode::BR_LES_ABS | opcode::BR_GES_ABS => OperandShape::Word,
        _ => OperandShape::Bare,
    }
}

/// The primary table. The escape has no entry.
fn primary_instruction(code: Byte, byte: Byte, word: Word) -> (inst: Option<Instruction>)
    ensures
        inst == Opcode::Normal(code).template(byte, word),
{
    reveal(primary_template);
    Some(match code {
        opcode::EXT => {
            return None;
        },
        opcode::NOP => Instruction::Nop,
        opcode::SET_C => Instruction::SetCarry,
        opcode::CLR_C => Instruction::ClearCarry,
        opcode::SET_I => Instruction::SetInterruptEnable,
        opcode::CLR_I => Instruction::ClearInterruptEnable,
        opcode::SET_B => Instruction::SetBankEnable,
        opcode::CLR_B => Instruction::ClearBankEnable,
        opcode::MV_A_BR => Instruction::ReadBankRegister,
        opcode::MV_BR_A => Instruction::WriteBankRegister,
        opcode::MV_A_A => Instruction::Move8(Register8::A, Register8::A),
        opcode::MV_A_B => Instruction::Move8(Register8::A, Register8::B),
        opcode::MV_A_C => Instruction::Move8(Register8::A, Register8::C),
        opcode::MV_A_D => Instruction::Move8(Register8::A, Register8::D),
        opcode::MV_B_A => Instruction::Move8(Register8::B, Register8::A),
        opcode::MV_B_B => Instruction::Move8(Register8::B, Register8::B),
        opcode::MV_B_C => Instruction::Move8(Register8::B, Register8::C),
        opcode::MV_B_D => Instruction::Move8(Register8::B, Register8::D),
        opcode::MV_C_A => Instruction::Move8(Register8::C, Register8::A),
        opcode::MV_C_B => Instruction::Move8(Register8::C, Register8::B),
        opcode::MV_C_C => Instruction::Move8(Register8::C, Register8::C),
        opcode::MV_C_D => Instruction::Move8(Register8::C, Register8::D),
        opcode::MV_D_A => Instruction::Move8(Register8::D, Register8::A),
        opcode::MV_D_B => Instruction::Move8(Register8::D, Register8::B),
        opcode::MV_D_C => Instruction::Move8(Register8::D, Register8::C),
        opcode::MV_D_D => Instruction::Move8(Register8::D, Register8::D),
        opcode::LD_A_IMM => Instruction::Load8Immediate(Register8::A, byte),
        opcode::LD_B_IMM => Instruction::Load8Immediate(Register8::B, byte),
        opcode::LD_C_IMM => Instruction::Load8Immediate(Register8::C, byte),
        opcode::LD_D_IMM => Instruction::Load8Immediate(Register8::D, byte),
        opcode::LD_A_ABS => Instruction::Load8(Register8::A, Memory8Mode::Absolute(word)),
        opcode::LD_A_REL_X_BY_IMM => Instruction::Load8(
            Register8::A,
            Memory8Mode::ConstantOffset(Pointer::X, byte),
        ),
        opcode::LD_A_REL_Y_BY_IMM => Instruction::Load8(
            Register8::A,
            Memory8Mode::ConstantOffset(Pointer::Y, byte),
        ),
        opcode::LD_A_REL_SP_BY_IMM => Instruction::Load8(
            Register8::A,
            Memory8Mode::ConstantOffset(Pointer::SP, byte),
        ),
        opcode::LD_A_REL_X_BY_A => Instruction::Load8(
            Register8::A,
            Memory8Mode::RegisterOffset(Pointer::X, Register8::A),
        ),
        opcode::LD_A_REL_X_BY_B => Instruction::Load8(
            Register8::A,
            Memory8Mode::RegisterOffset(Pointer::X, Register8::B),
        ),
        opcode::LD_A_REL_X_BY_C => Instruction::Load8(
            Register8::A,
            Memory8Mode::RegisterOffset(Pointer::X, Register8::C),
        ),
        opcode::LD_A_REL_X_BY_D => Instruction::Load8(
            Register8::A,
            Memory8Mode::RegisterOffset(Pointer::X, Register8::D),
        ),
        opcode::LD_A_REL_Y_BY_A => Instruction::Load8(
            Register8::A,
            Memory8Mode::RegisterOffset(Pointer::Y, Register8::A),
        ),
        opcode::LD_A_REL_Y_BY_B => Instruction::Load8(
            Register8::A,
            Memory8Mode::RegisterOffset(Pointer::Y, Register8::B),
        ),
        opcode::LD_A_REL_Y_BY_C => Instruction::Load8(
            Register8::A,
            Memory8Mode::RegisterOffset(Pointer::Y, Register8::C),
        ),
        opcode::LD_A_REL_Y_BY_D => Instruction::Load8(
            Register8::A,
            Memory8Mode::RegisterOffset(Pointer::Y, Register8::D),
        ),
        opcode::LD_A_REL_SP_BY_A => Instruction::Load8(
            Register8::A,
            Memory8Mode::RegisterOffset(Pointer::SP, Register8::A),
        ),
        opcode::LD_A_REL_SP_BY_B => Instruction::Load8(
            Register8::A,
            Memory8Mode::RegisterOffset(Pointer::SP, Register8::B),
        ),
        opcode::LD_A_REL_SP_BY_C => Instruction::Load8(
            Register8::A,
            Memory8Mode::RegisterOffset(Pointer::SP, Register8::C),
        ),
        opcode::LD_A_REL_SP_BY_D => Instruction::Load8(
            Register8::A,
            Memory8Mode::RegisterOffset(Pointer::SP, Register8::D),
        ),
        opcode::LD_B_ABS => Instruction::Load8(Register8::B, Memory8Mode::Absolute(word)),
        opcode::LD_B_REL_X_BY_IMM => Instruction::Load8(
            Register8::B,
            Memory8Mode::ConstantOffset(Pointer::X, byte),
        ),
        opcode::LD_B_REL_Y_BY_IMM => Instruction::Load8(
            Register8::B,
            Memory8Mode::ConstantOffset(Pointer::Y, byte),
        ),
        opcode::LD_B_REL_SP_BY_IMM => Instruction::Load8(
            Register8::B,
            Memory8Mode::ConstantOffset(Pointer::SP, byte),
        ),
        opcode::LD_B_REL_X_BY_A => Instruction::Load8(
            Register8::B,
            Memory8Mode::RegisterOffset(Pointer::X, Register8::A),
        ),
        opcode::LD_B_REL_X_BY_B => Instruction::Load8(
            Register8::B,
            Memory8Mode::RegisterOffset(Pointer::X, Register8::B),
        ),
        opcode::LD_B_REL_X_BY_C => Instruction::Load8(
            Register8::B,
            Memory8Mode::RegisterOffset(Pointer::X, Register8::C),
        ),
        opcode::LD_B_REL_X_BY_D => Instruction::Load8(
            Register8::B,
            Memory8Mode::RegisterOffset(Pointer::X, Register8::D),
        ),
        opcode::LD_B_REL_Y_BY_A => Instruction::Load8(
            Register8::B,
            Memory8Mode::RegisterOffset(Pointer::Y, Register8::A),
        ),
        opcode::LD_B_REL_Y_BY_B => Instruction::Load8(
            Register8::B,
            Memory8Mode::RegisterOffset(Pointer::Y, Register8::B),
        ),
        opcode::LD_B_REL_Y_BY_C => Instruction::Load8(
            Register8::B,
            Memory8Mode::RegisterOffset(Pointer::Y, Register8::C),
        ),
        opcode::LD_B_REL_Y_BY_D => Instruction::Load8(
            Register8::B,
            Memory8Mode::RegisterOffset(Pointer::Y, Register8::D),
        ),
        opcode::LD_B_REL_SP_BY_A => Instruction::Load8(
            Register8::B,
            Memory8Mode::RegisterOffset(Pointer::SP, Register8::A),
        ),
        opcode::LD_B_REL_SP_BY_B => Instruction::Load8(
            Register8::B,
            Memory8Mode::RegisterOffset(Pointer::SP, Register8::B),
        ),
        opcode::LD_B_REL_SP_BY_C => Instruction::Load8(
            Register8::B,
            Memory8Mode::RegisterOffset(Pointer::SP, Register8::C),
        ),
        opcode::LD_B_REL_SP_BY_D => Instruction::Load8(
            Register8::B,
            Memory8Mode::RegisterOffset(Pointer::SP, Register8::D),
        ),
        opcode::LD_C_ABS => Instruction::Load8(Register8::C, Memory8Mode::Absolute(word)),
        opcode::LD_C_REL_X_BY_IMM => Instruction::Load8(
            Register8::C,
            Memory8Mode::ConstantOffset(Pointer::X, byte),
        ),
        opcode::LD_C_REL_Y_BY_IMM => Instruction::Load8(
            Register8::C,
            Memory8Mode::ConstantOffset(Pointer::Y, byte),
        ),
        opcode::LD_C_REL_SP_BY_IMM => Instruction::Load8(
            Register8::C,
            Memory8Mode::ConstantOffset(Pointer::SP, byte),
        ),
        opcode::LD_C_REL_X_BY_A => Instruction::Load8(
            Register8::C,
            Memory8Mode::RegisterOffset(Pointer::X, Register8::A),
        ),
        opcode::LD_C_REL_X_BY_B => Instruction::Load8(
            Register8::C,
            Memory8Mode::RegisterOffset(Pointer::X, Register8::B),
        ),
        opcode::LD_C_REL_X_BY_C => Instruction::Load8(
            Register8::C,
            Memory8Mode::RegisterOffset(Pointer::X, Register8::C),
        ),
        opcode::LD_C_REL_X_BY_D => Instruction::Load8(
            Register8::C,
            Memory8Mode::RegisterOffset(Pointer::X, Register8::D),
        ),
        opcode::LD_C_REL_Y_BY_A => Instruction::Load8(
            Register8::C,
            Memory8Mode::RegisterOffset(Pointer::Y, Register8::A),
        ),
        opcode::LD_C_REL_Y_BY_B => Instruction::Load8(
            Register8::C,
            Memory8Mode::RegisterOffset(Pointer::Y, Register8::B),
        ),
        opcode::LD_C_REL_Y_BY_C => Instruction::Load8(
            Register8::C,
            Memory8Mode::RegisterOffset(Pointer::Y, Register8::C),
        ),
        opcode::LD_C_REL_Y_BY_D => Instruction::Load8(
            Register8::C,
            Memory8Mode::RegisterOffset(Pointer::Y, Register8::D),
        ),
        opcode::LD_C_REL_SP_BY_A => Instruction::Load8(
            Register8::C,
            Memory8Mode::RegisterOffset(Pointer::SP, Register8::A),
        ),
        opcode::LD_C_REL_SP_BY_B => Instruction::Load8(
            Register8::C,
            Memory8Mode::RegisterOffset(Pointer::SP, Register8::B),
        ),
        opcode::LD_C_REL_SP_BY_C => Instruction::Load8(
            Register8::C,
            Memory8Mode::RegisterOffset(Pointer::SP, Register8::C),
        ),
        opcode::LD_C_REL_SP_BY_D => Instruction::Load8(
            Register8::C,
            Memory8Mode::RegisterOffset(Pointer::SP, Register8::D),
        ),
        opcode::LD_D_ABS => Instruction::Load8(Register8::D, Memory8Mode::Absolute(word)),
        opcode::LD_D_REL_X_BY_IMM => Instruction::Load8(
            Register8::D,
            Memory8Mode::ConstantOffset(Pointer::X, byte),
        ),
        opcode::LD_D_REL_Y_BY_IMM => Instruction::Load8(
            Register8::D,
            Memory8Mode::ConstantOffset(Pointer::Y, byte),
        ),
        opcode::LD_D_REL_SP_BY_IMM => Instruction::Load8(
            Register8::D,
            Memory8Mode::ConstantOffset(Pointer::SP, byte),
        ),
        opcode::LD_D_REL_X_BY_A => Instruction::Load8(
            Register8::D,
            Memory8Mode::RegisterOffset(Pointer::X, Register8::A),
        ),
        opcode::LD_D_REL_X_BY_B => Instruction::Load8(
            Register8::D,
            Memory8Mode::RegisterOffset(Pointer::X, Register8::B),
        ),
        opcode::LD_D_REL_X_BY_C => Instruction::Load8(
            Register8::D,
            Memory8Mode::RegisterOffset(Pointer::X, Register8::C),
        ),
        opcode::LD_D_REL_X_BY_D => Instruction::Load8(
            Register8::D,
            Memory8Mode::RegisterOffset(Pointer::X, Register8::D),
        ),
        opcode::LD_D_REL_Y_BY_A => Instruction::Load8(
            Register8::D,
            Memory8Mode::RegisterOffset(Pointer::Y, Register8::A),
        ),
        opcode::LD_D_REL_Y_BY_B => Instruction::Load8(
            Register8::D,
            Memory8Mode::RegisterOffset(Pointer::Y, Register8::B),
        ),
        opcode::LD_D_REL_Y_BY_C => Instruction::Load8(
            Register8::D,
            Memory8Mode::RegisterOffset(Pointer::Y, Register8::C),
        ),
        opcode::LD_D_REL_Y_BY_D => Instruction::Load8(
            Register8::D,
            Memory8Mode::RegisterOffset(Pointer::Y, Register8::D),
        ),
        opcode::LD_D_REL_SP_BY_A => Instruction::Load8(
            Register8::D,
            Memory8Mode::RegisterOffset(Pointer::SP, Register8::A),
        ),
        opcode::LD_D_REL_SP_BY_B => Instruction::Load8(
            Register8::D,
            Memory8Mode::RegisterOffset(Pointer::SP, Register8::B),
        ),
        opcode::LD_D_REL_SP_BY_C => Instruction::Load8(
            Register8::D,
            Memory8Mode::RegisterOffset(Pointer::SP, Register8::C),
        ),
        opcode::LD_D_REL_SP_BY_D => Instruction::Load8(
            Register8::D,
            Memory8Mode::RegisterOffset(Pointer::SP, Register8::D),
        ),
        opcode::ST_ABS_A => Instruction::Store8(Memory8Mode::Absolute(word), Register8::A),
        opcode::ST_REL_X_BY_IMM_A => Instruction::Store8(
            Memory8Mode::ConstantOffset(Pointer::X, byte),
            Register8::A,
        ),
        opcode::ST_REL_Y_BY_IMM_A => Instruction::Store8(
            Memory8Mode::ConstantOffset(Pointer::Y, byte),
            Register8::A,
        ),
        opcode::ST_REL_SP_BY_IMM_A => Instruction::Store8(
            Memory8Mode::ConstantOffset(Pointer::SP, byte),
            Register8::A,
        ),
        opcode::ST_REL_X_BY_A_A => Instruction::Store8(
            Memory8Mode::RegisterOffset(Pointer::X, Register8::A),
            Register8::A,
        ),
        opcode::ST_REL_X_BY_B_A => Instruction::Store8(
            Memory8Mode::RegisterOffset(Pointer::X, Register8::B),
            Register8::A,
        ),
        opcode::ST_REL_X_BY_C_A => Instruction::Store8(
            Memory8Mode::RegisterOffset(Pointer::X, Register8::C),
            Register8::A,
        ),
        opcode::ST_REL_X_BY_D_A => Instruction::Store8(
            Memory8Mode::RegisterOffset(Pointer::X, Register8::D),
            Register8::A,
        ),
        opcode::ST_REL_Y_BY_A_A => Instruction::Store8(
            Memory8Mode::RegisterOffset(Pointer::Y, Register8::A),
            Register8::A,
        ),
        opcode::ST_REL_Y_BY_B_A => Instruction::Store8(
            Memory8Mode::RegisterOffset(Pointer::Y, Register8::B),
            Register8::A,
        ),
        opcode::ST_REL_Y_BY_C_A => Instruction::Store8(
            Memory8Mode::RegisterOffset(Pointer::Y, Register8::C),
            Register8::A,
        ),
        opcode::ST_REL_Y_BY_D_A => Instruction::Store8(
            Memory8Mode::RegisterOffset(Pointer::Y, Register8::D),
            Register8::A,
        ),
        opcode::ST_REL_SP_BY_A_A => Instruction::Store8(
            Memory8Mode::RegisterOffset(Pointer::SP, Register8::A),
            Register8::A,
        ),
        opcode::ST_REL_SP_BY_B_A => Instruction::Store8(
            Memory8Mode::RegisterOffset(Pointer::SP, Register8::B),
            Register8::A,
        ),
        opcode::ST_REL_SP_BY_C_A => Instruction::Store8(
            Memory8Mode::RegisterOffset(Pointer::SP, Register8::C),
            Register8::A,
        ),
        opcode::ST_REL_SP_BY_D_A => Instruction::Store8(
            Memory8Mode::RegisterOffset(Pointer::SP, Register8::D),
            Register8::A,
        ),
        opcode::ST_ABS_B => Instruction::Store8(Memory8Mode::Absolute(word), Register8::B),
        opcode::ST_REL_X_BY_IMM_B => Instruction::Store8(
            Memory8Mode::ConstantOffset(Pointer::X, byte),
            Register8::B,
        ),
        opcode::ST_REL_Y_BY_IMM_B => Instruction::Store8(
            Memory8Mode::ConstantOffset(Pointer::Y, byte),
            Register8::B,
        ),
        opcode::ST_REL_SP_BY_IMM_B => Instruction::Store8(
            Memory8Mode::ConstantOffset(Pointer::SP, byte),
            Register8::B,
        ),
        opcode::ST_REL_X_BY_A_B => Instruction::Store8(
            Memory8Mode::RegisterOffset(Pointer::X, Register8::A),
            Register8::B,
        ),
        opcode::ST_REL_X_BY_B_B => Instruction::Store8(
            Memory8Mode::RegisterOffset(Pointer::X, Register8::B),
            Register8::B,
        ),
        opcode::ST_REL_X_BY_C_B => Instruction::Store8(
            Memory8Mode::RegisterOffset(Pointer::X, Register8::C),
            Register8::B,
        ),
        opcode::ST_REL_X_BY_D_B => Instruction::Store8(
            Memory8Mode::RegisterOffset(Pointer::X, Register8::D),
            Register8::B,
        ),
        opcode::ST_REL_Y_BY_A_B => Instruction::Store8(
            Memory8Mode::RegisterOffset(Pointer::Y, Register8::A),
            Register8::B,
        ),
        opcode::ST_REL_Y_BY_B_B => Instruction::Store8(
            Memory8Mode::RegisterOffset(Pointer::Y, Register8::B),
            Register8::B,
        ),
        opcode::ST_REL_Y_BY_C_B => Instruction::Store8(
            Memory8Mode::RegisterOffset(Pointer::Y, Register8::C),
            Register8::B,
        ),
        opcode::ST_REL_Y_BY_D_B => Instruction::Store8(
            Memory8Mode::RegisterOffset(Pointer::Y, Register8::D),
            Register8::B,
        ),
        opcode::ST_REL_SP_BY_A_B => Instruction::Store8(
            Memory8Mode::RegisterOffset(Pointer::SP, Register8::A),
            Register8::B,
        ),
        opcode::ST_REL_SP_BY_B_B => Instruction::Store8(
            Memory8Mode::RegisterOffset(Pointer::SP, Register8::B),
            Register8::B,
        ),
        opcode::ST_REL_SP_BY_C_B => Instruction::Store8(
            Memory8Mode::RegisterOffset(Pointer::SP, Register8::C),
            Register8::B,
        ),
        opcode::ST_REL_SP_BY_D_B => Instruction::Store8(
            Memory8Mode::RegisterOffset(Pointer::SP, Register8::D),
            Register8::B,
        ),
        opcode::ST_ABS_C => Instruction::Store8(Memory8Mode::Absolute(word), Register8::C),
        opcode::ST_REL_X_BY_IMM_C => Instruction::Store8(
            Memory8Mode::ConstantOffset(Pointer::X, byte),
            Register8::C,
        ),
        opcode::ST_REL_Y_BY_IMM_C => Instruction::Store8(
            Memory8Mode::ConstantOffset(Pointer::Y, byte),
            Register8::C,
        ),
        opcode::ST_REL_SP_BY_IMM_C => Instruction::Store8(
            Memory8Mode::ConstantOffset(Pointer::SP, byte),
            Register8::C,
        ),
        opcode::ST_REL_X_BY_A_C => Instruction::Store8(
            Memory8Mode::RegisterOffset(Pointer::X, Register8::A),
            Register8::C,
        ),
        opcode::ST_REL_X_BY_B_C => Instruction::Store8(
            Memory8Mode::RegisterOffset(Pointer::X, Register8::B),
            Register8::C,
        ),
        opcode::ST_REL_X_BY_C_C => Instruction::Store8(
            Memory8Mode::RegisterOffset(Pointer::X, Register8::C),
            Register8::C,
        ),
        opcode::ST_REL_X_BY_D_C => Instruction::Store8(
            Memory8Mode::RegisterOffset(Pointer::X, Register8::D),
            Register8::C,
        ),
        opcode::ST_REL_Y_BY_A_C => Instruction::Store8(
            Memory8Mode::RegisterOffset(Pointer::Y, Register8::A),
            Register8::C,
        ),
        opcode::ST_REL_Y_BY_B_C => Instruction::Store8(
            Memory8Mode::RegisterOffset(Pointer::Y, Register8::B),
            Register8::C,
        ),
        opcode::ST_REL_Y_BY_C_C => Instruction::Store8(
            Memory8Mode::RegisterOffset(Pointer::Y, Register8::C),
            Register8::C,
        ),
        opcode::ST_REL_Y_BY_D_C => Instruction::Store8(
            Memory8Mode::RegisterOffset(Pointer::Y, Register8::D),
            Register8::C,
        ),
        opcode::ST_REL_SP_BY_A_C => Instruction::Store8(
            Memory8Mode::RegisterOffset(Pointer::SP, Register8::A),
            Register8::C,
        ),
        opcode::ST_REL_SP_BY_B_C => Instruction::Store8(
            Memory8Mode::RegisterOffset(Pointer::SP, Register8::B),
            Register8::C,
        ),
        opcode::ST_REL_SP_BY_C_C => Instruction::Store8(
            Memory8Mode::RegisterOffset(Pointer::SP, Register8::C),
            Register8::C,
        ),
        opcode::ST_REL_SP_BY_D_C => Instruction::Store8(
            Memory8Mode::RegisterOffset(Pointer::SP, Register8::D),
            Register8::C,
        ),
        opcode::ST_ABS_D => Instruction::Store8(Memory8Mode::Absolute(word), Register8::D),
        opcode::ST_REL_X_BY_IMM_D => Instruction::Store8(
            Memory8Mode::ConstantOffset(Pointer::X, byte),
            Register8::D,
        ),
        opcode::ST_REL_Y_BY_IMM_D => Instruction::Store8(
            Memory8Mode::ConstantOffset(Pointer::Y, byte),
            Register8::D,
        ),
        opcode::ST_REL_SP_BY_IMM_D => Instruction::Store8(
            Memory8Mode::ConstantOffset(Pointer::SP, byte),
            Register8::D,
        ),
        opcode::ST_REL_X_BY_A_D => Instruction::Store8(
            Memory8Mode::RegisterOffset(Pointer::X, Register8::A),
            Register8::D,
        ),
        opcode::ST_REL_X_BY_B_D => Instruction::Store8(
            Memory8Mode::RegisterOffset(Pointer::X, Register8::B),
            Register8::D,
        ),
        opcode::ST_REL_X_BY_C_D => Instruction::Store8(
            Memory8Mode::RegisterOffset(Pointer::X, Register8::C),
            Register8::D,
        ),
        opcode::ST_REL_X_BY_D_D => Instruction::Store8(
            Memory8Mode::RegisterOffset(Pointer::X, Register8::D),
            Register8::D,
        ),
        opcode::ST_REL_Y_BY_A_D => Instruction::Store8(
            Memory8Mode::RegisterOffset(Pointer::Y, Register8::A),
            Register8::D,
        ),
        opcode::ST_REL_Y_BY_B_D => Instruction::Store8(
            Memory8Mode::RegisterOffset(Pointer::Y, Register8::B),
            Register8::D,
        ),
        opcode::ST_REL_Y_BY_C_D => Instruction::Store8(
            Memory8Mode::RegisterOffset(Pointer::Y, Register8::C),
            Register8::D,
        ),
        opcode::ST_REL_Y_BY_D_D => Instruction::Store8(
            Memory8Mode::RegisterOffset(Pointer::Y, Register8::D),
            Register8::D,
        ),
        opcode::ST_REL_SP_BY_A_D => Instruction::Store8(
            Memory8Mode::RegisterOffset(Pointer::SP, Register8::A),
            Register8::D,
        ),
        opcode::ST_REL_SP_BY_B_D => Instruction::Store8(
            Memory8Mode::RegisterOffset(Pointer::SP, Register8::B),
            Register8::D,
        ),
        opcode::ST_REL_SP_BY_C_D => Instruction::Store8(
            Memory8Mode::RegisterOffset(Pointer::SP, Register8::C),
            Register8::D,
        ),
        opcode::ST_REL_SP_BY_D_D => Instruction::Store8(
            Memory8Mode::RegisterOffset(Pointer::SP, Register8::D),
            Register8::D,
        ),
        opcode::IN_A_PORT => Instruction::In(Register8::A, IOMode::Port(byte)),
        opcode::IN_A_REL_X_BY_IMM => Instruction::In(
            Register8::A,
            IOMode::ConstantOffset(Register16::X, byte),
        ),
        opcode::IN_A_REL_Y_BY_IMM => Instruction::In(
            Register8::A,
            IOMode::ConstantOffset(Register16::Y, byte),
        ),
        opcode::IN_A_REL_X_BY_A => Instruction::In(
            Register8::A,
            IOMode::RegisterOffset(Register16::X, Register8::A),
        ),
        opcode::IN_A_REL_X_BY_B => Instruction::In(
            Register8::A,
            IOMode::RegisterOffset(Register16::X, Register8::B),
        ),
        opcode::IN_A_REL_X_BY_C => Instruction::In(
            Register8::A,
            IOMode::RegisterOffset(Register16::X, Register8::C),
        ),
        opcode::IN_A_REL_X_BY_D => Instruction::In(
            Register8::A,
            IOMode::RegisterOffset(Register16::X, Register8::D),
        ),
        opcode::IN_A_REL_Y_BY_A => Instruction::In(
            Register8::A,
            IOMode::RegisterOffset(Register16::Y, Register8::A),
        ),
        opcode::IN_A_REL_Y_BY_B => Instruction::In(
            Register8::A,
            IOMode::RegisterOffset(Register16::Y, Register8::B),
        ),
        opcode::IN_A_REL_Y_BY_C => Instruction::In(
            Register8::A,
            IOMode::RegisterOffset(Register16::Y, Register8::C),
        ),
        opcode::IN_A_REL_Y_BY_D => Instruction::In(
            Register8::A,
            IOMode::RegisterOffset(Register16::Y, Register8::D),
        ),
        opcode::IN_B_PORT => Instruction::In(Register8::B, IOMode::Port(byte)),
        opcode::IN_B_REL_X_BY_IMM => Instruction::In(
            Register8::B,
            IOMode::ConstantOffset(Register16::X, byte),
        ),
        opcode::IN_B_REL_Y_BY_IMM => Instruction::In(
            Register8::B,
            IOMode::ConstantOffset(Register16::Y, byte),
        ),
        opcode::IN_B_REL_X_BY_A => Instruction::In(
            Register8::B,
            IOMode::RegisterOffset(Register16::X, Register8::A),
        ),
        opcode::IN_B_REL_X_BY_B => Instruction::In(
            Register8::B,
            IOMode::RegisterOffset(Register16::X, Register8::B),
        ),
        opcode::IN_B_REL_X_BY_C => Instruction::In(
            Register8::B,
            IOMode::RegisterOffset(Register16::X, Register8::C),
        ),
        opcode::IN_B_REL_X_BY_D => Instruction::In(
            Register8::B,
            IOMode::RegisterOffset(Register16::X, Register8::D),
        ),
        opcode::IN_B_REL_Y_BY_A => Instruction::In(
            Register8::B,
            IOMode::RegisterOffset(Register16::Y, Register8::A),
        ),
        opcode::IN_B_REL_Y_BY_B => Instruction::In(
            Register8::B,
            IOMode::RegisterOffset(Register16::Y, Register8::B),
        ),
        opcode::IN_B_REL_Y_BY_C => Instruction::In(
            Register8::B,
            IOMode::RegisterOffset(Register16::Y, Register8::C),
        ),
        opcode::IN_B_REL_Y_BY_D => Instruction::In(
            Register8::B,
            IOMode::RegisterOffset(Register16::Y, Register8::D),
        ),
        opcode::IN_C_PORT => Instruction::In(Register8::C, IOMode::Port(byte)),
        opcode::IN_C_REL_X_BY_IMM => Instruction::In(
            Register8::C,
            IOMode::ConstantOffset(Register16::X, byte),
        ),
        opcode::IN_C_REL_Y_BY_IMM => Instruction::In(
            Register8::C,
            IOMode::ConstantOffset(Register16::Y, byte),
        ),
        opcode::IN_C_REL_X_BY_A => Instruction::In(
            Register8::C,
            IOMode::RegisterOffset(Register16::X, Register8::A),
        ),
        opcode::IN_C_REL_X_BY_B => Instruction::In(
            Register8::C,
            IOMode::RegisterOffset(Register16::X, Register8::B),
        ),
        opcode::IN_C_REL_X_BY_C => Instruction::In(
            Register8::C,
            IOMode::RegisterOffset(Register16::X, Register8::C),
        ),
        opcode::IN_C_REL_X_BY_D => Instruction::In(
            Register8::C,
            IOMode::RegisterOffset(Register16::X, Register8::D),
        ),
        opcode::IN_C_REL_Y_BY_A => Instruction::In(
            Register8::C,
            IOMode::RegisterOffset(Register16::Y, Register8::A),
        ),
        opcode::IN_C_REL_Y_BY_B => Instruction::In(
            Register8::C,
            IOMode::RegisterOffset(Register16::Y, Register8::B),
        ),
        opcode::IN_C_REL_Y_BY_C => Instruction::In(
            Register8::C,
            IOMode::RegisterOffset(Register16::Y, Register8::C),
        ),
        opcode::IN_C_REL_Y_BY_D => Instruction::In(
            Register8::C,
            IOMode::RegisterOffset(Register16::Y, Register8::D),
        ),
        opcode::IN_D_PORT => Instruction::In(Register8::D, IOMode::Port(byte)),
        opcode::IN_D_REL_X_BY_IMM => Instruction::In(
            Register8::D,
            IOMode::ConstantOffset(Register16::X, byte),
        ),
        opcode::IN_D_REL_Y_BY_IMM => Instruction::In(
            Register8::D,
            IOMode::ConstantOffset(Register16::Y, byte),
        ),
        opcode::IN_D_REL_X_BY_A => Instruction::In(
            Register8::D,
            IOMode::RegisterOffset(Register16::X, Register8::A),
        ),
        opcode::IN_D_REL_X_BY_B => Instruction::In(
            Register8::D,
            IOMode::RegisterOffset(Register16::X, Register8::B),
        ),
        opcode::IN_D_REL_X_BY_C => Instruction::In(
            Register8::D,
            IOMode::RegisterOffset(Register16::X, Register8::C),
        ),
        opcode::IN_D_REL_X_BY_D => Instruction::In(
            Register8::D,
            IOMode::RegisterOffset(Register16::X, Register8::D),
        ),
        opcode::IN_D_REL_Y_BY_A => Instruction::In(
            Register8::D,
            IOMode::RegisterOffset(Register16::Y, Register8::A),
        ),
        opcode::IN_D_REL_Y_BY_B => Instruction::In(
            Register8::D,
            IOMode::RegisterOffset(Register16::Y, Register8::B),
        ),
        opcode::IN_D_REL_Y_BY_C => Instruction::In(
            Register8::D,
            IOMode::RegisterOffset(Register16::Y, Register8::C),
        ),
        opcode::IN_D_REL_Y_BY_D => Instruction::In(
            Register8::D,
            IOMode::RegisterOffset(Register16::Y, Register8::D),
        ),
        opcode::OUT_PORT_A => Instruction::Out(IOMode::Port(byte), Register8::A),
        opcode::OUT_REL_X_BY_IMM_A => Instruction::Out(
            IOMode::ConstantOffset(Register16::X, byte),
            Register8::A,
        ),
        opcode::OUT_REL_Y_BY_IMM_A => Instruction::Out(
            IOMode::ConstantOffset(Register16::Y, byte),
            Register8::A,
        ),
        opcode::OUT_REL_X_BY_A_A => Instruction::Out(
            IOMode::RegisterOffset(Register16::X, Register8::A),
            Register8::A,
        ),
        opcode::OUT_REL_X_BY_B_A => Instruction::Out(
            IOMode::RegisterOffset(Register16::X, Register8::B),
            Register8::A,
        ),
        opcode::OUT_REL_X_BY_C_A => Instruction::Out(
            IOMode::RegisterOffset(Register16::X, Register8::C),
            Register8::A,
        ),
        opcode::OUT_REL_X_BY_D_A => Instruction::Out(
            IOMode::RegisterOffset(Register16::X, Register8::D),
            Register8::A,
        ),
        opcode::OUT_REL_Y_BY_A_A => Instruction::Out(
            IOMode::RegisterOffset(Register16::Y, Register8::A),
            Register8::A,
        ),
        opcode::OUT_REL_Y_BY_B_A => Instruction::Out(
            IOMode::RegisterOffset(Register16::Y, Register8::B),
            Register8::A,
        ),
        opcode::OUT_REL_Y_BY_C_A => Instruction::Out(
            IOMode::RegisterOffset(Register16::Y, Register8::C),
            Register8::A,
        ),
        opcode::OUT_REL_Y_BY_D_A => Instruction::Out(
            IOMode::RegisterOffset(Register16::Y, Register8::D),
            Register8::A,
        ),
        opcode::OUT_PORT_B => Instruction::Out(IOMode::Port(byte), Register8::B),
        opcode::OUT_REL_X_BY_IMM_B => Instruction::Out(
            IOMode::ConstantOffset(Register16::X, byte),
            Register8::B,
        ),
        opcode::OUT_REL_Y_BY_IMM_B => Instruction::Out(
            IOMode::ConstantOffset(Register16::Y, byte),
            Register8::B,
        ),
        opcode::OUT_REL_X_BY_A_B => Instruction::Out(
            IOMode::RegisterOffset(Register16::X, Register8::A),
            Register8::B,
        ),
        opcode::OUT_REL_X_BY_B_B => Instruction::Out(
            IOMode::RegisterOffset(Register16::X, Register8::B),
            Register8::B,
        ),
        opcode::OUT_REL_X_BY_C_B => Instruction::Out(
            IOMode::RegisterOffset(Register16::X, Register8::C),
            Register8::B,
        ),
        opcode::OUT_REL_X_BY_D_B => Instruction::Out(
            IOMode::RegisterOffset(Register16::X, Register8::D),
            Register8::B,
        ),
        opcode::OUT_REL_Y_BY_A_B => Instruction::Out(
            IOMode::RegisterOffset(Register16::Y, Register8::A),
            Register8::B,
        ),
        opcode::OUT_REL_Y_BY_B_B => Instruction::Out(
            IOMode::RegisterOffset(Register16::Y, Register8::B),
            Register8::B,
        ),
        opcode::OUT_REL_Y_BY_C_B => Instruction::Out(
            IOMode::RegisterOffset(Register16::Y, Register8::C),
            Register8::B,
        ),
        opcode::OUT_REL_Y_BY_D_B => Instruction::Out(
            IOMode::RegisterOffset(Register16::Y, Register8::D),
            Register8::B,
        ),
        opcode::OUT_PORT_C => Instruction::Out(IOMode::Port(byte), Register8::C),
        opcode::OUT_REL_X_BY_IMM_C => Instruction::Out(
            IOMode::ConstantOffset(Register16::X, byte),
            Register8::C,
        ),
        opcode::OUT_REL_Y_BY_IMM_C => Instruction::Out(
            IOMode::ConstantOffset(Register16::Y, byte),
            Register8::C,
        ),
        opcode::OUT_REL_X_BY_A_C => Instruction::Out(
            IOMode::RegisterOffset(Register16::X, Register8::A),
            Register8::C,
        ),
        opcode::OUT_REL_X_BY_B_C => Instruction::Out(
            IOMode::RegisterOffset(Register16::X, Register8::B),
            Register8::C,
        ),
        opcode::OUT_REL_X_BY_C_C => Instruction::Out(
            IOMode::RegisterOffset(Register16::X, Register8::C),
            Register8::C,
        ),
        opcode::OUT_REL_X_BY_D_C => Instruction::Out(
            IOMode::RegisterOffset(Register16::X, Register8::D),
            Register8::C,
        ),
        opcode::OUT_REL_Y_BY_A_C => Instruction::Out(
            IOMode::RegisterOffset(Register16::Y, Register8::A),
            Register8::C,
        ),
        opcode::OUT_REL_Y_BY_B_C => Instruction::Out(
            IOMode::RegisterOffset(Register16::Y, Register8::B),
            Register8::C,
        ),
        opcode::OUT_REL_Y_BY_C_C => Instruction::Out(
            IOMode::RegisterOffset(Register16::Y, Register8::C),
            Register8::C,
        ),
        opcode::OUT_REL_Y_BY_D_C => Instruction::Out(
            IOMode::RegisterOffset(Register16::Y, Register8::D),
            Register8::C,
        ),
        opcode::OUT_PORT_D => Instruction::Out(IOMode::Port(byte), Register8::D),
        opcode::OUT_REL_X_BY_IMM_D => Instruction::Out(
            IOMode::ConstantOffset(Register16::X, byte),
            Register8::D,
        ),
        opcode::OUT_REL_Y_BY_IMM_D => Instruction::Out(
            IOMode::ConstantOffset(Register16::Y, byte),
            Register8::D,
        ),
        opcode::OUT_REL_X_BY_A_D => Instruction::Out(
            IOMode::RegisterOffset(Register16::X, Register8::A),
            Register8::D,
        ),
        opcode::OUT_REL_X_BY_B_D => Instruction::Out(
            IOMode::RegisterOffset(Register16::X, Register8::B),
            Register8::D,
        ),
        opcode::OUT_REL_X_BY_C_D => Instruction::Out(
            IOMode::RegisterOffset(Register16::X, Register8::C),
            Register8::D,
        ),
        opcode::OUT_REL_X_BY_D_D => Instruction::Out(
            IOMode::RegisterOffset(Register16::X, Register8::D),
            Register8::D,
        ),
        opcode::OUT_REL_Y_BY_A_D => Instruction::Out(
            IOMode::RegisterOffset(Register16::Y, Register8::A),
            Register8::D,
        ),
        opcode::OUT_REL_Y_BY_B_D => Instruction::Out(
            IOMode::RegisterOffset(Register16::Y, Register8::B),
            Register8::D,
        ),
        opcode::OUT_REL_Y_BY_C_D => Instruction::Out(
            IOMode::RegisterOffset(Register16::Y, Register8::C),
            Register8::D,
        ),
        opcode::OUT_REL_Y_BY_D_D => Instruction::Out(
            IOMode::RegisterOffset(Register16::Y, Register8::D),
            Register8::D,
        ),
        opcode::MV_X_SP => Instruction::ReadStackPointer,
        opcode::MV_SP_X => Instruction::WriteStackPointer,
        opcode::MV_X_X => Instruction::Move16(Register16::X, Register16::X),
        opcode::MV_X_Y => Instruction::Move16(Register16::X, Register16::Y),
        opcode::MV_X_AB => Instruction::Move16FromPair(Register16::X, RegisterPair::Ab),
        opcode::MV_X_CD => Instruction::Move16FromPair(Register16::X, RegisterPair::Cd),
        opcode::MV_Y_X => Instruction::Move16(Register16::Y, Register16::X),
        opcode::MV_Y_Y => Instruction::Move16(Register16::Y, Register16::Y),
        opcode::MV_Y_AB => Instruction::Move16FromPair(Register16::Y, RegisterPair::Ab),
        opcode::MV_Y_CD => Instruction::Move16FromPair(Register16::Y, RegisterPair::Cd),
    })
}

/// The extended table.
fn extended_instruction(code: Byte, byte: Byte, word: Word) -> (inst: Instruction)
    ensures
        inst == extended_template(code as int, byte, word),
{
    reveal(extended_template);
    match code {
        opcode::MV_AB_X => Instruction::Move16ToPair(RegisterPair::Ab, Register16::X),
        opcode::MV_AB_Y => Instruction::Move16ToPair(RegisterPair::Ab, Register16::Y),
        opcode::MV_CD_X => Instruction::Move16ToPair(RegisterPair::Cd, Register16::X),
        opcode::MV_CD_Y => Instruction::Move16ToPair(RegisterPair::Cd, Register16::Y),
        opcode::LD_X_IMM => Instruction::Load16Immediate(Register16::X, word),
        opcode::LD_Y_IMM => Instruction::Load16Immediate(Register16::Y, word),
        opcode::LD_X_ABS => Instruction::Load16(Register16::X, Memory16Mode::Absolute(word)),
        opcode::LD_X_REL_X_BY_IMM => Instruction::Load16(
            Register16::X,
            Memory16Mode::ConstantOffset(Pointer::X, byte),
        ),
        opcode::LD_X_REL_Y_BY_IMM => Instruction::Load16(
            Register16::X,
            Memory16Mode::ConstantOffset(Pointer::Y, byte),
        ),
        opcode::LD_X_REL_SP_BY_IMM => Instruction::Load16(
            Register16::X,
            Memory16Mode::ConstantOffset(Pointer::SP, byte),
        ),
        opcode::LD_Y_ABS => Instruction::Load16(Register16::Y, Memory16Mode::Absolute(word)),
        opcode::LD_Y_REL_X_BY_IMM => Instruction::Load16(
            Register16::Y,
            Memory16Mode::ConstantOffset(Pointer::X, byte),
        ),
        opcode::LD_Y_REL_Y_BY_IMM => Instruction::Load16(
            Register16::Y,
            Memory16Mode::ConstantOffset(Pointer::Y, byte),
        ),
        opcode::LD_Y_REL_SP_BY_IMM => Instruction::Load16(
            Register16::Y,
            Memory16Mode::ConstantOffset(Pointer::SP, byte),
        ),
        opcode::ST_ABS_X => Instruction::Store16(Memory16Mode::Absolute(word), Register16::X),
        opcode::ST_REL_X_BY_IMM_X => Instruction::Store16(
            Memory16Mode::ConstantOffset(Pointer::X, byte),
            Register16::X,
        ),
        opcode::ST_REL_Y_BY_IMM_X => Instruction::Store16(
            Memory16Mode::ConstantOffset(Pointer::Y, byte),
            Register16::X,
        ),
        opcode::ST_REL_SP_BY_IMM_X => Instruction::Store16(
            Memory16Mode::ConstantOffset(Pointer::SP, byte),
            Register16::X,
        ),
        opcode::ST_ABS_Y => Instruction::Store16(Memory16Mode::Absolute(word), Register16::Y),
        opcode::ST_REL_X_BY_IMM_Y => Instruction::Store16(
            Memory16Mode::ConstantOffset(Pointer::X, byte),
            Register16::Y,
        ),
        opcode::ST_REL_Y_BY_IMM_Y => Instruction::Store16(
            Memory16Mode::ConstantOffset(Pointer::Y, byte),
            Register16::Y,
        ),
        opcode::ST_REL_SP_BY_IMM_Y => Instruction::Store16(
            Memory16Mode::ConstantOffset(Pointer::SP, byte),
            Register16::Y,
        ),
        opcode::LEA_X_BY_A => Instruction::Lea(Pointer::X, LeaMode::Register(Register8::A)),
        opcode::LEA_X_BY_B => Instruction::Lea(Pointer::X, LeaMode::Register(Register8::B)),
        opcode::LEA_X_BY_C => Instruction::Lea(Pointer::X, LeaMode::Register(Register8::C)),
        opcode::LEA_X_BY_D => Instruction::Lea(Pointer::X, LeaMode::Register(Register8::D)),
        opcode::LEA_X_BY_IMM => Instruction::Lea(Pointer::X, LeaMode::Constant(byte)),
        opcode::LEA_Y_BY_A => Instruction::Lea(Pointer::Y, LeaMode::Register(Register8::A)),
        opcode::LEA_Y_BY_B => Instruction::Lea(Pointer::Y, LeaMode::Register(Register8::B)),
        opcode::LEA_Y_BY_C => Instruction::Lea(Pointer::Y, LeaMode::Register(Register8::C)),
        opcode::LEA_Y_BY_D => Instruction::Lea(Pointer::Y, LeaMode::Register(Register8::D)),
        opcode::LEA_Y_BY_IMM => Instruction::Lea(Pointer::Y, LeaMode::Constant(byte)),
        opcode::LEA_SP_BY_A => Instruction::Lea(Pointer::SP, LeaMode::Register(Register8::A)),
        opcode::LEA_SP_BY_B => Instruction::Lea(Pointer::SP, LeaMode::Register(Register8::B)),
        opcode::LEA_SP_BY_C => Instruction::Lea(Pointer::SP, LeaMode::Register(Register8::C)),
        opcode::LEA_SP_BY_D => Instruction::Lea(Pointer::SP, LeaMode::Register(Register8::D)),
        opcode::LEA_SP_BY_IMM => Instruction::Lea(Pointer::SP, LeaMode::Constant(byte)),
        opcode::INC_X => Instruction::Inc16(Register16::X),
        opcode::INC_Y => Instruction::Inc16(Register16::Y),
        opcode::DEC_X => Instruction::Dec16(Register16::X),
        opcode::DEC_Y => Instruction::Dec16(Register16::Y),
        opcode::ADDC_A_A => Instruction::Alu2(
            Alu2Op::Addc,
            Register8::A,
            Alu2OpMode::Register(Register8::A),
        ),
        opcode::ADDC_A_B => Instruction::Alu2(
            Alu2Op::Addc,
            Register8::A,
            Alu2OpMode::Register(Register8::B),
        ),
        opcode::ADDC_A_C => Instruction::Alu2(
            Alu2Op::Addc,
            Register8::A,
            Alu2OpMode::Register(Register8::C),
        ),
        opcode::ADDC_A_D => Instruction::Alu2(
            Alu2Op::Addc,
            Register8::A,
            Alu2OpMode::Register(Register8::D),
        ),
        opcode::ADDC_B_A => Instruction::Alu2(
            Alu2Op::Addc,
            Register8::B,
            Alu2OpMode::Register(Register8::A),
        ),
        opcode::ADDC_B_B => Instruction::Alu2(
            Alu2Op::Addc,
            Register8::B,
            Alu2OpMode::Register(Register8::B),
        ),
        opcode::ADDC_B_C => Instruction::Alu2(
            Alu2Op::Addc,
            Register8::B,
            Alu2OpMode::Register(Register8::C),
        ),
        opcode::ADDC_B_D => Instruction::Alu2(
            Alu2Op::Addc,
            Register8::B,
            Alu2OpMode::Register(Register8::D),
        ),
        opcode::ADDC_C_A => Instruction::Alu2(
            Alu2Op::Addc,
            Register8::C,
            Alu2OpMode::Register(Register8::A),
        ),
        opcode::ADDC_C_B => Instruction::Alu2(
            Alu2Op::Addc,
            Register8::C,
            Alu2OpMode::Register(Register8::B),
        ),
        opcode::ADDC_C_C => Instruction::Alu2(
            Alu2Op::Addc,
            Register8::C,
            Alu2OpMode::Register(Register8::C),
        ),
        opcode::ADDC_C_D => Instruction::Alu2(
            Alu2Op::Addc,
            Register8::C,
            Alu2OpMode::Register(Register8::D),
        ),
        opcode::ADDC_D_B => Instruction::Alu2(
            Alu2Op::Addc,
            Register8::D,
            Alu2OpMode::Register(Register8::B),
        ),
        opcode::ADDC_D_A => Instruction::Alu2(
            Alu2Op::Addc,
            Register8::D,
            Alu2OpMode::Register(Register8::A),
        ),
        opcode::ADDC_D_C => Instruction::Alu2(
            Alu2Op::Addc,
            Register8::D,
            Alu2OpMode::Register(Register8::C),
        ),
        opcode::ADDC_D_D => Instruction::Alu2(
            Alu2Op::Addc,
            Register8::D,
            Alu2OpMode::Register(Register8::D),
        ),
        opcode::ADDC_A_IMM => Instruction::Alu2(
            Alu2Op::Addc,
            Register8::A,
            Alu2OpMode::Constant(byte),
        ),
        opcode::ADDC_B_IMM => Instruction::Alu2(
            Alu2Op::Addc,
            Register8::B,
            Alu2OpMode::Constant(byte),
        ),
        opcode::ADDC_C_IMM => Instruction::Alu2(
            Alu2Op::Addc,
            Register8::C,
            Alu2OpMode::Constant(byte),
        ),
        opcode::ADDC_D_IMM => Instruction::Alu2(
            Alu2Op::Addc,
            Register8::D,
            Alu2OpMode::Constant(byte),
        ),
        opcode::SUBB_A_A => Instruction::Alu2(
            Alu2Op::Subb,
            Register8::A,
            Alu2OpMode::Register(Register8::A),
        ),
        opcode::SUBB_A_B => Instruction::Alu2(
            Alu2Op::Subb,
            Register8::A,
            Alu2OpMode::Register(Register8::B),
        ),
        opcode::SUBB_A_C => Instruction::Alu2(
            Alu2Op::Subb,
            Register8::A,
            Alu2OpMode::Register(Register8::C),
        ),
        opcode::SUBB_A_D => Instruction::Alu2(
            Alu2Op::Subb,
            Register8::A,
            Alu2OpMode::Register(Register8::D),
        ),
        opcode::SUBB_B_A => Instruction::Alu2(
            Alu2Op::Subb,
            Register8::B,
            Alu2OpMode::Register(Register8::A),
        ),
        opcode::SUBB_B_B => Instruction::Alu2(
            Alu2Op::Subb,
            Register8::B,
            Alu2OpMode::Register(Register8::B),
        ),
        opcode::SUBB_B_C => Instruction::Alu2(
            Alu2Op::Subb,
            Register8::B,
            Alu2OpMode::Register(Register8::C),
        ),
        opcode::SUBB_B_D => Instruction::Alu2(
            Alu2Op::Subb,
            Register8::B,
            Alu2OpMode::Register(Register8::D),
        ),
        opcode::SUBB_C_A => Instruction::Alu2(
            Alu2Op::Subb,
            Register8::C,
            Alu2OpMode::Register(Register8::A),
        ),
        opcode::SUBB_C_B => Instruction::Alu2(
            Alu2Op::Subb,
            Register8::C,
            Alu2OpMode::Register(Register8::B),
        ),
        opcode::SUBB_C_C => Instruction::Alu2(
            Alu2Op::Subb,
            Register8::C,
            Alu2OpMode::Register(Register8::C),
        ),
        opcode::SUBB_C_D => Instruction::Alu2(
            Alu2Op::Subb,
            Register8::C,
            Alu2OpMode::Register(Register8::D),
        ),
        opcode::SUBB_D_A => Instruction::Alu2(
            Alu2Op::Subb,
            Register8::D,
            Alu2OpMode::Register(Register8::A),
        ),
        opcode::SUBB_D_B => Instruction::Alu2(
            Alu2Op::Subb,
            Register8::D,
            Alu2OpMode::Register(Register8::B),
        ),
        opcode::SUBB_D_C => Instruction::Alu2(
            Alu2Op::Subb,
            Register8::D,
            Alu2OpMode::Register(Register8::C),
        ),
        opcode::SUBB_D_D => Instruction::Alu2(
            Alu2Op::Subb,
            Register8::D,
            Alu2OpMode::Register(Register8::D),
        ),
        opcode::SUBB_A_IMM => Instruction::Alu2(
            Alu2Op::Subb,
            Register8::A,
            Alu2OpMode::Constant(byte),
        ),
        opcode::SUBB_B_IMM => Instruction::Alu2(
            Alu2Op::Subb,
            Register8::B,
            Alu2OpMode::Constant(byte),
        ),
        opcode::SUBB_C_IMM => Instruction::Alu2(
            Alu2Op::Subb,
            Register8::C,
            Alu2OpMode::Constant(byte),
        ),
        opcode::SUBB_D_IMM => Instruction::Alu2(
            Alu2Op::Subb,
            Register8::D,
            Alu2OpMode::Constant(byte),
        ),
        opcode::AND_A_A => Instruction::Alu2(
            Alu2Op::And,
            Register8::A,
            Alu2OpMode::Register(Register8::A),
        ),
        opcode::AND_A_B => Instruction::Alu2(
            Alu2Op::And,
            Register8::A,
            Alu2OpMode::Register(Register8::B),
        ),
        opcode::AND_A_C => Instruction::Alu2(
            Alu2Op::And,
            Register8::A,
            Alu2OpMode::Register(Register8::C),
        ),
        opcode::AND_A_D => Instruction::Alu2(
            Alu2Op::And,
            Register8::A,
            Alu2OpMode::Register(Register8::D),
        ),
        opcode::AND_B_A => Instruction::Alu2(
            Alu2Op::And,
            Register8::B,
            Alu2OpMode::Register(Register8::A),
        ),
        opcode::AND_B_B => Instruction::Alu2(
            Alu2Op::And,
            Register8::B,
            Alu2OpMode::Register(Register8::B),
        ),
        opcode::AND_B_C => Instruction::Alu2(
            Alu2Op::And,
            Register8::B,
            Alu2OpMode::Register(Register8::C),
        ),
        opcode::AND_B_D => Instruction::Alu2(
            Alu2Op::And,
            Register8::B,
            Alu2OpMode::Register(Register8::D),
        ),
        opcode::AND_C_A => Instruction::Alu2(
            Alu2Op::And,
            Register8::C,
            Alu2OpMode::Register(Register8::A),
        ),
        opcode::AND_C_B => Instruction::Alu2(
            Alu2Op::And,
            Register8::C,
            Alu2OpMode::Register(Register8::B),
        ),
        opcode::AND_C_C => Instruction::Alu2(
            Alu2Op::And,
            Register8::C,
            Alu2OpMode::Register(Register8::C),
        ),
        opcode::AND_C_D => Instruction::Alu2(
            Alu2Op::And,
            Register8::C,
            Alu2OpMode::Register(Register8::D),
        ),
        opcode::AND_D_A => Instruction::Alu2(
            Alu2Op::And,
            Register8::D,
            Alu2OpMode::Register(Register8::A),
        ),
        opcode::AND_D_B => Instruction::Alu2(
            Alu2Op::And,
            Register8::D,
            Alu2OpMode::Register(Register8::B),
        ),
        opcode::AND_D_C => Instruction::Alu2(
            Alu2Op::And,
            Register8::D,
            Alu2OpMode::Register(Register8::C),
        ),
        opcode::AND_D_D => Instruction::Alu2(
            Alu2Op::And,
            Register8::D,
            Alu2OpMode::Register(Register8::D),
        ),
        opcode::AND_A_IMM => Instruction::Alu2(
            Alu2Op::And,
            Register8::A,
            Alu2OpMode::Constant(byte),
        ),
        opcode::AND_B_IMM => Instruction::Alu2(
            Alu2Op::And,
            Register8::B,
            Alu2OpMode::Constant(byte),
        ),
        opcode::AND_C_IMM => Instruction::Alu2(
            Alu2Op::And,
            Register8::C,
            Alu2OpMode::Constant(byte),
        ),
        opcode::AND_D_IMM => Instruction::Alu2(
            Alu2Op::And,
            Register8::D,
            Alu2OpMode::Constant(byte),
        ),
        opcode::OR_A_A => Instruction::Alu2(
            Alu2Op::Or,
            Register8::A,
            Alu2OpMode::Register(Register8::A),
        ),
        opcode::OR_A_B => Instruction::Alu2(
            Alu2Op::Or,
            Register8::A,
            Alu2OpMode::Register(Register8::B),
        ),
        opcode::OR_A_C => Instruction::Alu2(
            Alu2Op::Or,
            Register8::A,
            Alu2OpMode::Register(Register8::C),
        ),
        opcode::OR_A_D => Instruction::Alu2(
            Alu2Op::Or,
            Register8::A,
            Alu2OpMode::Register(Register8::D),
        ),
        opcode::OR_B_A => Instruction::Alu2(
            Alu2Op::Or,
            Register8::B,
            Alu2OpMode::Register(Register8::A),
        ),
        opcode::OR_B_B => Instruction::Alu2(
            Alu2Op::Or,
            Register8::B,
            Alu2OpMode::Register(Register8::B),
        ),
        opcode::OR_B_C => Instruction::Alu2(
            Alu2Op::Or,
            Register8::B,
            Alu2OpMode::Register(Register8::C),
        ),
        opcode::OR_B_D => Instruction::Alu2(
            Alu2Op::Or,
            Register8::B,
            Alu2OpMode::Register(Register8::D),
        ),
        opcode::OR_C_A => Instruction::Alu2(
            Alu2Op::Or,
            Register8::C,
            Alu2OpMode::Register(Register8::A),
        ),
        opcode::OR_C_B => Instruction::Alu2(
            Alu2Op::Or,
            Register8::C,
            Alu2OpMode::Register(Register8::B),
        ),
        opcode::OR_C_C => Instruction::Alu2(
            Alu2Op::Or,
            Register8::C,
            Alu2OpMode::Register(Register8::C),
        ),
        opcode::OR_C_D => Instruction::Alu2(
            Alu2Op::Or,
            Register8::C,
            Alu2OpMode::Register(Register8::D),
        ),
        opcode::OR_D_A => Instruction::Alu2(
            Alu2Op::Or,
            Register8::D,
            Alu2OpMode::Register(Register8::A),
        ),
        opcode::OR_D_B => Instruction::Alu2(
            Alu2Op::Or,
            Register8::D,
            Alu2OpMode::Register(Register8::B),
        ),
        opcode::OR_D_C => Instruction::Alu2(
            Alu2Op::Or,
            Register8::D,
            Alu2OpMode::Register(Register8::C),
        ),
        opcode::OR_D_D => Instruction::Alu2(
            Alu2Op::Or,
            Register8::D,
            Alu2OpMode::Register(Register8::D),
        ),
        opcode::OR_A_IMM => Instruction::Alu2(Alu2Op::Or, Register8::A, Alu2OpMode::Constant(byte)),
        opcode::OR_B_IMM => Instruction::Alu2(Alu2Op::Or, Register8::B, Alu2OpMode::Constant(byte)),
        opcode::OR_C_IMM => Instruction::Alu2(Alu2Op::Or, Register8::C, Alu2OpMode::Constant(byte)),
        opcode::OR_D_IMM => Instruction::Alu2(Alu2Op::Or, Register8::D, Alu2OpMode::Constant(byte)),
        opcode::XOR_A_A => Instruction::Alu2(
            Alu2Op::Xor,
            Register8::A,
            Alu2OpMode::Register(Register8::A),
        ),
        opcode::XOR_A_B => Instruction::Alu2(
            Alu2Op::Xor,
            Register8::A,
            Alu2OpMode::Register(Register8::B),
        ),
        opcode::XOR_A_C => Instruction::Alu2(
            Alu2Op::Xor,
            Register8::A,
            Alu2OpMode::Register(Register8::C),
        ),
        opcode::XOR_A_D => Instruction::Alu2(
            Alu2Op::Xor,
            Register8::A,
            Alu2OpMode::Register(Register8::D),
        ),
        opcode::XOR_B_A => Instruction::Alu2(
            Alu2Op::Xor,
            Register8::B,
            Alu2OpMode::Register(Register8::A),
        ),
        opcode::XOR_B_B => Instruction::Alu2(
            Alu2Op::Xor,
            Register8::B,
            Alu2OpMode::Register(Register8::B),
        ),
        opcode::XOR_B_C => Instruction::Alu2(
            Alu2Op::Xor,
            Register8::B,
            Alu2OpMode::Register(Register8::C),
        ),
        opcode::XOR_B_D => Instruction::Alu2(
            Alu2Op::Xor,
            Register8::B,
            Alu2OpMode::Register(Register8::D),
        ),
        opcode::XOR_C_A => Instruction::Alu2(
            Alu2Op::Xor,
            Register8::C,
            Alu2OpMode::Register(Register8::A),
        ),
        opcode::XOR_C_B => Instruction::Alu2(
            Alu2Op::Xor,
            Register8::C,
            Alu2OpMode::Register(Register8::B),
        ),
        opcode::XOR_C_C => Instruction::Alu2(
            Alu2Op::Xor,
            Register8::C,
            Alu2OpMode::Register(Register8::C),
        ),
        opcode::XOR_C_D => Instruction::Alu2(
            Alu2Op::Xor,
            Register8::C,
            Alu2OpMode::Register(Register8::D),
        ),
        opcode::XOR_D_A => Instruction::Alu2(
            Alu2Op::Xor,
            Register8::D,
            Alu2OpMode::Register(Register8::A),
        ),
        opcode::XOR_D_B => Instruction::Alu2(
            Alu2Op::Xor,
            Register8::D,
            Alu2OpMode::Register(Register8::B),
        ),
        opcode::XOR_D_C => Instruction::Alu2(
            Alu2Op::Xor,
            Register8::D,
            Alu2OpMode::Register(Register8::C),
        ),
        opcode::XOR_D_D => Instruction::Alu2(
            Alu2Op::Xor,
            Register8::D,
            Alu2OpMode::Register(Register8::D),
        ),
        opcode::XOR_A_IMM => Instruction::Alu2(
            Alu2Op::Xor,
            Register8::A,
            Alu2OpMode::Constant(byte),
        ),
        opcode::XOR_B_IMM => Instruction::Alu2(
            Alu2Op::Xor,
            Register8::B,
            Alu2OpMode::Constant(byte),
        ),
        opcode::XOR_C_IMM => Instruction::Alu2(
            Alu2Op::Xor,
            Register8::C,
            Alu2OpMode::Constant(byte),
        ),
        opcode::XOR_D_IMM => Instruction::Alu2(
            Alu2Op::Xor,
            Register8::D,
            Alu2OpMode::Constant(byte),
        ),
        opcode::SHL_A => Instruction::Alu1(Alu1Op::Shl, Register8::A),
        opcode::SHL_B => Instruction::Alu1(Alu1Op::Shl, Register8::B),
        opcode::SHL_C => Instruction::Alu1(Alu1Op::Shl, Register8::C),
        opcode::SHL_D => Instruction::Alu1(Alu1Op::Shl, Register8::D),
        opcode::SHR_A => Instruction::Alu1(Alu1Op::Shr, Register8::A),
        opcode::SHR_B => Instruction::Alu1(Alu1Op::Shr, Register8::B),
        opcode::SHR_C => Instruction::Alu1(Alu1Op::Shr, Register8::C),
        opcode::SHR_D => Instruction::Alu1(Alu1Op::Shr, Register8::D),
        opcode::ASR_A => Instruction::Alu1(Alu1Op::Asr, Register8::A),
        opcode::ASR_B => Instruction::Alu1(Alu1Op::Asr, Register8::B),
        opcode::ASR_C => Instruction::Alu1(Alu1Op::Asr, Register8::C),
        opcode::ASR_D => Instruction::Alu1(Alu1Op::Asr, Register8::D),
        opcode::NOT_A => Instruction::Alu1(Alu1Op::Not, Register8::A),
        opcode::NOT_B => Instruction::Alu1(Alu1Op::Not, Register8::B),
        opcode::NOT_C => Instruction::Alu1(Alu1Op::Not, Register8::C),
        opcode::NOT_D => Instruction::Alu1(Alu1Op::Not, Register8::D),
        opcode::NEG_A => Instruction::Alu1(Alu1Op::Neg, Register8::A),
        opcode::NEG_B => Instruction::Alu1(Alu1Op::Neg, Register8::B),
        opcode::NEG_C => Instruction::Alu1(Alu1Op::Neg, Register8::C),
        opcode::NEG_D => Instruction::Alu1(Alu1Op::Neg, Register8::D),
        opcode::INC_A => Instruction::Alu1(Alu1Op::Inc, Register8::A),
        opcode::INC_B => Instruction::Alu1(Alu1Op::Inc, Register8::B),
        opcode::INC_C => Instruction::Alu1(Alu1Op::Inc, Register8::C),
        opcode::INC_D => Instruction::Alu1(Alu1Op::Inc, Register8::D),
        opcode::DEC_A => Instruction::Alu1(Alu1Op::Dec, Register8::A),
        opcode::DEC_B => Instruction::Alu1(Alu1Op::Dec, Register8::B),
        opcode::DEC_C => Instruction::Alu1(Alu1Op::Dec, Register8::C),
        opcode::DEC_D => Instruction::Alu1(Alu1Op::Dec, Register8::D),
        opcode::CMP_A_A => Instruction::Alu2(
            Alu2Op::Cmp,
            Register8::A,
            Alu2OpMode::Register(Register8::A),
        ),
        opcode::CMP_A_B => Instruction::Alu2(
            Alu2Op::Cmp,
            Register8::A,
            Alu2OpMode::Register(Register8::B),
        ),
        opcode::CMP_A_C => Instruction::Alu2(
            Alu2Op::Cmp,
            Register8::A,
            Alu2OpMode::Register(Register8::C),
        ),
        opcode::CMP_A_D => Instruction::Alu2(
            Alu2Op::Cmp,
            Register8::A,
            Alu2OpMode::Register(Register8::D),
        ),
        opcode::CMP_B_A => Instruction::Alu2(
            Alu2Op::Cmp,
            Register8::B,
            Alu2OpMode::Register(Register8::A),
        ),
        opcode::CMP_B_B => Instruction::Alu2(
            Alu2Op::Cmp,
            Register8::B,
            Alu2OpMode::Register(Register8::B),
        ),
        opcode::CMP_B_C => Instruction::Alu2(
            Alu2Op::Cmp,
            Register8::B,
            Alu2OpMode::Register(Register8::C),
        ),
        opcode::CMP_B_D => Instruction::Alu2(
            Alu2Op::Cmp,
            Register8::B,
            Alu2OpMode::Register(Register8::D),
        ),
        opcode::CMP_C_A => Instruction::Alu2(
            Alu2Op::Cmp,
            Register8::C,
            Alu2OpMode::Register(Register8::A),
        ),
        opcode::CMP_C_B => Instruction::Alu2(
            Alu2Op::Cmp,
            Register8::C,
            Alu2OpMode::Register(Register8::B),
        ),
        opcode::CMP_C_C => Instruction::Alu2(
            Alu2Op::Cmp,
            Register8::C,
            Alu2OpMode::Register(Register8::C),
        ),
        opcode::CMP_C_D => Instruction::Alu2(
            Alu2Op::Cmp,
            Register8::C,
            Alu2OpMode::Register(Register8::D),
        ),
        opcode::CMP_D_A => Instruction::Alu2(
            Alu2Op::Cmp,
            Register8::D,
            Alu2OpMode::Register(Register8::A),
        ),
        opcode::CMP_D_B => Instruction::Alu2(
            Alu2Op::Cmp,
            Register8::D,
            Alu2OpMode::Register(Register8::B),
        ),
        opcode::CMP_D_C => Instruction::Alu2(
            Alu2Op::Cmp,
            Register8::D,
            Alu2OpMode::Register(Register8::C),
        ),
        opcode::CMP_D_D => Instruction::Alu2(
            Alu2Op::Cmp,
            Register8::D,
            Alu2OpMode::Register(Register8::D),
        ),
        opcode::CMP_A_IMM => Instruction::Alu2(
            Alu2Op::Cmp,
            Register8::A,
            Alu2OpMode::Constant(byte),
        ),
        opcode::CMP_B_IMM => Instruction::Alu2(
            Alu2Op::Cmp,
            Register8::B,
            Alu2OpMode::Constant(byte),
        ),
        opcode::CMP_C_IMM => Instruction::Alu2(
            Alu2Op::Cmp,
            Register8::C,
            Alu2OpMode::Constant(byte),
        ),
        opcode::CMP_D_IMM => Instruction::Alu2(
            Alu2Op::Cmp,
            Register8::D,
            Alu2OpMode::Constant(byte),
        ),
        opcode::TEST_A => Instruction::Alu1(Alu1Op::Test, Register8::A),
        opcode::TEST_B => Instruction::Alu1(Alu1Op::Test, Register8::B),
        opcode::TEST_C => Instruction::Alu1(Alu1Op::Test, Register8::C),
        opcode::TEST_D => Instruction::Alu1(Alu1Op::Test, Register8::D),
        opcode::PUSH_A => Instruction::Push8(Register8::A),
        opcode::PUSH_B => Instruction::Push8(Register8::B),
        opcode::PUSH_C => Instruction::Push8(Register8::C),
        opcode::PUSH_D => Instruction::Push8(Register8::D),
        opcode::PUSH_X => Instruction::Push16(Register16::X),
        opcode::PUSH_Y => Instruction::Push16(Register16::Y),
        opcode::POP_A => Instruction::Pop8(Register8::A),
        opcode::POP_B => Instruction::Pop8(Register8::B),
        opcode::POP_C => Instruction::Pop8(Register8::C),
        opcode::POP_D => Instruction::Pop8(Register8::D),
        opcode::POP_X => Instruction::Pop16(Register16::X),
        opcode::POP_Y => Instruction::Pop16(Register16::Y),
        opcode::CALL_PC_REL => Instruction::Call(JumpMode::Relative(byte)),
        opcode::CALL_ABS => Instruction::Call(JumpMode::Absolute(word)),
        opcode::CALL_X_REL_IMM => Instruction::Call(JumpMode::Indirect(Register16::X, byte)),
        opcode::CALL_Y_REL_IMM => Instruction::Call(JumpMode::Indirect(Register16::Y, byte)),
        opcode::RET => Instruction::Ret,
        opcode::SWI => Instruction::Swi,
        opcode::RETI => Instruction::Reti,
        opcode::JMP_PC_REL => Instruction::Jmp(Condition::Always, JumpMode::Relative(byte)),
        opcode::JMP_ABS => Instruction::Jmp(Condition::Always, JumpMode::Absolute(word)),
        opcode::JMP_X_REL_IMM => Instruction::Jmp(
            Condition::Always,
            JumpMode::Indirect(Register16::X, byte),
        ),
        opcode::JMP_Y_REL_IMM => Instruction::Jmp(
            Condition::Always,
            JumpMode::Indirect(Register16::Y, byte),
        ),
        opcode::BR_EQ_PC_REL => Instruction::Jmp(Condition::Equal, JumpMode::Relative(byte)),
        opcode::BR_EQ_ABS => Instruction::Jmp(Condition::Equal, JumpMode::Absolute(word)),
        opcode::BR_EQ_X_REL_IMM => Instruction::Jmp(
            Condition::Equal,
            JumpMode::Indirect(Register16::X, byte),
        ),
        opcode::BR_EQ_Y_REL_IMM => Instruction::Jmp(
            Condition::Equal,
            JumpMode::Indirect(Register16::Y, byte),
        ),
        opcode::BR_NE_PC_REL => Instruction::Jmp(Condition::NotEqual, JumpMode::Relative(byte)),
        opcode::BR_NE_ABS => Instruction::Jmp(Condition::NotEqual, JumpMode::Absolute(word)),
        opcode::BR_NE_X_REL_IMM => Instruction::Jmp(
            Condition::NotEqual,
            JumpMode::Indirect(Register16::X, byte),
        ),
        opcode::BR_NE_Y_REL_IMM => Instruction::Jmp(
            Condition::NotEqual,
            JumpMode::Indirect(Register16::Y, byte),
        ),
        opcode::BR_LT_PC_REL => Instruction::Jmp(Condition::LessThan, JumpMode::Relative(byte)),
        opcode::BR_LT_ABS => Instruction::Jmp(Condition::LessThan, JumpMode::Absolute(word)),
        opcode::BR_LT_X_REL_IMM => Instruction::Jmp(
            Condition::LessThan,
            JumpMode::Indirect(Register16::X, byte),
        ),
        opcode::BR_LT_Y_REL_IMM => Instruction::Jmp(
            Condition::LessThan,
            JumpMode::Indirect(Register16::Y, byte),
        ),
        opcode::BR_GT_PC_REL => Instruction::Jmp(Condition::GreaterThan, JumpMode::Relative(byte)),
        opcode::BR_GT_ABS => Instruction::Jmp(Condition::GreaterThan, JumpMode::Absolute(word)),
        opcode::BR_GT_X_REL_IMM => Instruction::Jmp(
            Condition::GreaterThan,
            JumpMode::Indirect(Register16::X, byte),
        ),
        opcode::BR_GT_Y_REL_IMM => Instruction::Jmp(
            Condition::GreaterThan,
            JumpMode::Indirect(Register16::Y, byte),
        ),
        opcode::BR_LE_PC_REL => Instruction::Jmp(Condition::LessEqual, JumpMode::Relative(byte)),
        opcode::BR_LE_ABS => Instruction::Jmp(Condition::LessEqual, JumpMode::Absolute(word)),
        opcode::BR_LE_X_REL_IMM => Instruction::Jmp(
            Condition::LessEqual,
            JumpMode::Indirect(Register16::X, byte),
        ),
        opcode::BR_LE_Y_REL_IMM => Instruction::Jmp(
            Condition::LessEqual,
            JumpMode::Indirect(Register16::Y, byte),
        ),
        opcode::BR_GE_PC_REL => Instruction::Jmp(Condition::GreaterEqual, JumpMode::Relative(byte)),
        opcode::BR_GE_ABS => Instruction::Jmp(Condition::GreaterEqual, JumpMode::Absolute(word)),
        opcode::BR_GE_X_REL_IMM => Instruction::Jmp(
            Condition::GreaterEqual,
            JumpMode::Indirect(Register16::X, byte),
        ),
        opcode::BR_GE_Y_REL_IMM => Instruction::Jmp(
            Condition::GreaterEqual,
            JumpMode::Indirect(Register16::Y, byte),
        ),
        opcode::BR_LTS_PC_REL => Instruction::Jmp(
            Condition::LessThanSigned,
            JumpMode::Relative(byte),
        ),
        opcode::BR_LTS_ABS => Instruction::Jmp(Condition::LessThanSigned, JumpMode::Absolute(word)),
        opcode::BR_LTS_X_REL_IMM => Instruction::Jmp(
            Condition::LessThanSigned,
            JumpMode::Indirect(Register16::X, byte),
        ),
        opcode::BR_LTS_Y_REL_IMM => Instruction::Jmp(
            Condition::LessThanSigned,
            JumpMode::Indirect(Register16::Y, byte),
        ),
        opcode::BR_GTS_PC_REL => Instruction::Jmp(
            Condition::GreaterThanSigned,
            JumpMode::Relative(byte),
        ),
        opcode::BR_GTS_ABS => Instruction::Jmp(
            Condition::GreaterThanSigned,
            JumpMode::Absolute(word),
        ),
        opcode::BR_GTS_X_REL_IMM => Instruction::Jmp(
            Condition::GreaterThanSigned,
            JumpMode::Indirect(Register16::X, byte),
        ),
        opcode::BR_GTS_Y_REL_IMM => Instruction::Jmp(
            Condition::GreaterThanSigned,
            JumpMode::Indirect(Register16::Y, byte),
        ),
        opcode::BR_LES_PC_REL => Instruction::Jmp(
            Condition::LessEqualSigned,
            JumpMode::Relative(byte),
        ),
        opcode::BR_LES_ABS => Instruction::Jmp(
            Condition::LessEqualSigned,
            JumpMode::Absolute(word),
        ),
        opcode::BR_LES_X_REL_IMM => Instruction::Jmp(
            Condition::LessEqualSigned,
            JumpMode::Indirect(Register16::X, byte),
        ),
        opcode::BR_LES_Y_REL_IMM => Instruction::Jmp(
            Condition::LessEqualSigned,
            JumpMode::Indirect(Register16::Y, byte),
        ),
        opcode::BR_GES_PC_REL => Instruction::Jmp(
            Condition::GreaterEqualSigned,
            JumpMode::Relative(byte),
        ),
        opcode::BR_GES_ABS => Instruction::Jmp(
            Condition::GreaterEqualSigned,
            JumpMode::Absolute(word),
        ),
        opcode::BR_GES_X_REL_IMM => Instruction::Jmp(
            Condition::GreaterEqualSigned,
            JumpMode::Indirect(Register16::X, byte),
        ),
        opcode::BR_GES_Y_REL_IMM => Instruction::Jmp(
            Condition::GreaterEqualSigned,
            JumpMode::Indirect(Register16::Y, byte),
        ),
    }
}

impl Opcode {
    /// The shape of the operand that follows the opcode.
    pub fn shape(&self) -> (shape: OperandShape)
        ensures
            shape == self.shape_spec(),
    {
        match self {
            Opcode::Normal(code) => primary_operand_shape(*code),
            Opcode::Extended(code) => extended_operand_shape(*code),
        }
    }

    /// The instruction that the opcode stands for, given the operand read
    /// after it: `byte` where the shape is one byte, `word` where it is a
    /// word; the other is not looked at. The escape gives `None`, every other
    /// opcode an instruction.
    pub fn instruction(&self, byte: Byte, word: Word) -> (inst: Option<Instruction>)
        ensures
            inst == self.template(byte, word),
    {
        match self {
            Opcode::Normal(code) => primary_instruction(*code, byte, word),
            Opcode::Extended(code) => Some(extended_instruction(*code, byte, word)),
        }
    }
}

} // verus!
