//! What holds of the codec: the opcode map is total and one-to-one, and
//! decoding and encoding are inverse to each other.

use crate::isa::codec::{decode_operand, decode_spec, ExtensionMode, Operand};
use crate::isa::instruction::{
    Alu1Op, Alu2Op, Alu2OpMode, Condition, IOMode, Instruction, JumpMode, LeaMode, Memory16Mode,
    Memory8Mode, Pointer, Register16, Register8, RegisterPair,
};
use crate::isa::opcode::{
    alu2_left, alu2_mode, alu2_shape, extended_shape, extended_template, io_mode, io_shape,
    jump_mode, jump_shape, lea_mode, memory16_mode, memory16_shape, memory8_mode, memory8_shape,
    primary_shape, primary_template, Opcode, OperandShape, EXT,
};
use crate::isa::{lemma_word_bytes, word_of, Byte, Word};
use vstd::prelude::*;

verus! {

impl Operand {
    /// The byte that a decoder hands to the opcode's template for this
    /// operand.
    pub open spec fn byte(self) -> Byte {
        match self {
            Operand::Byte(byte) => byte,
            _ => 0,
        }
    }

    /// The word that a decoder hands to the opcode's template for this
    /// operand.
    pub open spec fn word(self) -> Word {
        match self {
            Operand::Word(word) => word,
            _ => 0,
        }
    }
}

/// An instruction is what the tables give for its own opcode and operand,
/// and its operand has the shape that the tables give for its opcode.
pub open spec fn has_own_opcode(inst: Instruction) -> bool {
    &&& !inst.opcode().is_escape()
    &&& inst.opcode().shape_spec() == inst.operand().shape()
    &&& inst.opcode().template(inst.operand().byte(), inst.operand().word()) == Some(inst)
}

/// The position of an eight-bit register lies in its range and names the
/// register.
proof fn lemma_register8_index(register: Register8)
    ensures
        0 <= register.index() < 4,
        Register8::at(register.index()) == register,
{
}

/// The position of a sixteen-bit register lies in its range and names the
/// register.
proof fn lemma_register16_index(register: Register16)
    ensures
        0 <= register.index() < 2,
        Register16::at(register.index()) == register,
{
}

/// The position of a pointer lies in its range and names the pointer.
proof fn lemma_pointer_index(pointer: Pointer)
    ensures
        0 <= pointer.index() < 3,
        Pointer::at(pointer.index()) == pointer,
{
}

/// The position of a register pair lies in its range and names the pair.
proof fn lemma_pair_index(pair: RegisterPair)
    ensures
        0 <= pair.index() < 2,
        RegisterPair::at(pair.index()) == pair,
{
}

/// The position of a condition lies in its range and names the condition.
proof fn lemma_condition_index(condition: Condition)
    ensures
        0 <= condition.index() < 11,
        Condition::at(condition.index()) == condition,
{
}

/// The position of an eight-bit memory mode lies in its block and names the
/// mode, operand and shape included.
proof fn lemma_memory8_index(mode: Memory8Mode)
    ensures
        0 <= mode.index() < 16,
        memory8_mode(mode.index(), mode.operand().byte(), mode.operand().word()) == mode,
        memory8_shape(mode.index()) == mode.operand().shape(),
{
    match mode {
        Memory8Mode::Absolute(_) => {},
        Memory8Mode::ConstantOffset(pointer, _) => {
            lemma_pointer_index(pointer);
        },
        Memory8Mode::RegisterOffset(pointer, offset) => {
            lemma_pointer_index(pointer);
            lemma_register8_index(offset);
            let m = 4 + 4 * pointer.index() + offset.index();
            assert((m - 4) / 4 == pointer.index() && (m - 4) % 4 == offset.index());
        },
    }
}

/// The position of an I/O mode lies in its block and names the mode, operand
/// and shape included.
proof fn lemma_io_index(mode: IOMode)
    ensures
        0 <= mode.index() < 11,
        io_mode(mode.index(), mode.operand().byte()) == mode,
        io_shape(mode.index()) == mode.operand().shape(),
{
    match mode {
        IOMode::Port(_) => {},
        IOMode::ConstantOffset(base, _) => {
            lemma_register16_index(base);
        },
        IOMode::RegisterOffset(base, offset) => {
            lemma_register16_index(base);
            lemma_register8_index(offset);
            let k = 3 + 4 * base.index() + offset.index();
            assert((k - 3) / 4 == base.index() && (k - 3) % 4 == offset.index());
        },
    }
}

/// The position of a sixteen-bit memory mode lies in its block and names the
/// mode, operand and shape included.
proof fn lemma_memory16_index(mode: Memory16Mode)
    ensures
        0 <= mode.index() < 4,
        memory16_mode(mode.index(), mode.operand().byte(), mode.operand().word()) == mode,
        memory16_shape(mode.index()) == mode.operand().shape(),
{
    match mode {
        Memory16Mode::Absolute(_) => {},
        Memory16Mode::ConstantOffset(pointer, _) => {
            lemma_pointer_index(pointer);
        },
    }
}

/// The position of an offset mode lies in its block and names the mode,
/// operand and shape included.
proof fn lemma_lea_index(mode: LeaMode)
    ensures
        0 <= mode.index() < 5,
        lea_mode(mode.index(), mode.operand().byte()) == mode,
        (mode.index() == 4) == (mode.operand().shape() == OperandShape::Byte),
        (mode.index() != 4) == (mode.operand().shape() == OperandShape::Bare),
{
    match mode {
        LeaMode::Register(offset) => {
            lemma_register8_index(offset);
        },
        LeaMode::Constant(_) => {},
    }
}

/// The position of a pair of operands lies in its block and names the pair,
/// operand and shape included.
proof fn lemma_alu2_index(left: Register8, right: Alu2OpMode)
    ensures
        0 <= right.index(left.index()) < 20,
        alu2_left(right.index(left.index())) == left,
        alu2_mode(right.index(left.index()), right.operand().byte()) == right,
        alu2_shape(right.index(left.index())) == right.operand().shape(),
{
    lemma_register8_index(left);
    match right {
        Alu2OpMode::Register(register) => {
            lemma_register8_index(register);
            let j = 4 * left.index() + register.index();
            assert(j / 4 == left.index() && j % 4 == register.index());
        },
        Alu2OpMode::Constant(_) => {},
    }
}

/// The position of a jump mode lies in its block and names the mode, operand
/// and shape included.
proof fn lemma_jump_index(mode: JumpMode)
    ensures
        0 <= mode.index() < 4,
        jump_mode(mode.index(), mode.operand().byte(), mode.operand().word()) == mode,
        jump_shape(mode.index()) == mode.operand().shape(),
{
    match mode {
        JumpMode::Indirect(base, _) => {
            lemma_register16_index(base);
        },
        _ => {},
    }
}

/// Every `Move8` is what the tables give for its own opcode and operand.
proof fn lemma_own_opcode_move8(dst: Register8, src: Register8)
    ensures
        has_own_opcode(Instruction::Move8(dst, src)),
{
    lemma_register8_index(dst);
    lemma_register8_index(src);
    let n = 0x0A + 4 * dst.index() + src.index();
    assert((n - 0x0A) / 4 == dst.index() && (n - 0x0A) % 4 == src.index());
    reveal(primary_template);
    reveal(primary_shape);
}

/// Every `Load8Immediate` is what the tables give for its own opcode and operand.
proof fn lemma_own_opcode_load8_immediate(dst: Register8, value: Byte)
    ensures
        has_own_opcode(Instruction::Load8Immediate(dst, value)),
{
    lemma_register8_index(dst);
    let n = 0x1A + dst.index();
    reveal(primary_template);
    reveal(primary_shape);
}

/// Every `Load8` is what the tables give for its own opcode and operand.
proof fn lemma_own_opcode_load8(dst: Register8, mode: Memory8Mode)
    ensures
        has_own_opcode(Instruction::Load8(dst, mode)),
{
    lemma_register8_index(dst);
    lemma_memory8_index(mode);
    let n = 0x1E + 16 * dst.index() + mode.index();
    assert((n - 0x1E) / 16 == dst.index() && (n - 0x1E) % 16 == mode.index());
    reveal(primary_template);
    reveal(primary_shape);
}

/// Every `Store8` is what the tables give for its own opcode and operand.
proof fn lemma_own_opcode_store8(mode: Memory8Mode, src: Register8)
    ensures
        has_own_opcode(Instruction::Store8(mode, src)),
{
    lemma_register8_index(src);
    lemma_memory8_index(mode);
    let n = 0x5E + 16 * src.index() + mode.index();
    assert((n - 0x5E) / 16 == src.index() && (n - 0x5E) % 16 == mode.index());
    reveal(primary_template);
    reveal(primary_shape);
}

/// Every `In` is what the tables give for its own opcode and operand.
proof fn lemma_own_opcode_in(dst: Register8, mode: IOMode)
    ensures
        has_own_opcode(Instruction::In(dst, mode)),
{
    lemma_register8_index(dst);
    lemma_io_index(mode);
    let n = 0x9E + 11 * dst.index() + mode.index();
    assert((n - 0x9E) / 11 == dst.index() && (n - 0x9E) % 11 == mode.index());
    reveal(primary_template);
    reveal(primary_shape);
}

/// Every `Out` is what the tables give for its own opcode and operand.
proof fn lemma_own_opcode_out(mode: IOMode, src: Register8)
    ensures
        has_own_opcode(Instruction::Out(mode, src)),
{
    lemma_register8_index(src);
    lemma_io_index(mode);
    let n = 0xCA + 11 * src.index() + mode.index();
    assert((n - 0xCA) / 11 == src.index() && (n - 0xCA) % 11 == mode.index());
    reveal(primary_template);
    reveal(primary_shape);
}

/// Every `Move16` is what the tables give for its own opcode and operand.
proof fn lemma_own_opcode_move16(dst: Register16, src: Register16)
    ensures
        has_own_opcode(Instruction::Move16(dst, src)),
{
    lemma_register16_index(dst);
    lemma_register16_index(src);
    let n = 0xF8 + 4 * dst.index() + src.index();
    assert((n - 0xF8) / 4 == dst.index() && (n - 0xF8) % 4 == src.index());
    reveal(primary_template);
    reveal(primary_shape);
}

/// Every `Move16FromPair` is what the tables give for its own opcode and operand.
proof fn lemma_own_opcode_move16_from_pair(dst: Register16, src: RegisterPair)
    ensures
        has_own_opcode(Instruction::Move16FromPair(dst, src)),
{
    lemma_register16_index(dst);
    lemma_pair_index(src);
    let n = 0xFA + 4 * dst.index() + src.index();
    assert((n - 0xF8) / 4 == dst.index() && (n - 0xF8) % 4 == 2 + src.index());
    reveal(primary_template);
    reveal(primary_shape);
}

/// Every `Move16ToPair` is what the tables give for its own opcode and operand.
proof fn lemma_own_opcode_move16_to_pair(dst: RegisterPair, src: Register16)
    ensures
        has_own_opcode(Instruction::Move16ToPair(dst, src)),
{
    lemma_pair_index(dst);
    lemma_register16_index(src);
    let n = 2 * dst.index() + src.index();
    assert((n - 0) / 2 == dst.index() && (n - 0) % 2 == src.index());
    reveal(extended_template);
    reveal(extended_shape);
}

/// Every `Load16Immediate` is what the tables give for its own opcode and operand.
proof fn lemma_own_opcode_load16_immediate(dst: Register16, value: Word)
    ensures
        has_own_opcode(Instruction::Load16Immediate(dst, value)),
{
    lemma_register16_index(dst);
    let n = 0x04 + dst.index();
    reveal(extended_template);
    reveal(extended_shape);
}

/// Every `Load16` is what the tables give for its own opcode and operand.
proof fn lemma_own_opcode_load16(dst: Register16, mode: Memory16Mode)
    ensures
        has_own_opcode(Instruction::Load16(dst, mode)),
{
    lemma_register16_index(dst);
    lemma_memory16_index(mode);
    let n = 0x06 + 4 * dst.index() + mode.index();
    assert((n - 0x06) / 4 == dst.index() && (n - 0x06) % 4 == mode.index());
    reveal(extended_template);
    reveal(extended_shape);
}

/// Every `Store16` is what the tables give for its own opcode and operand.
proof fn lemma_own_opcode_store16(mode: Memory16Mode, src: Register16)
    ensures
        has_own_opcode(Instruction::Store16(mode, src)),
{
    lemma_register16_index(src);
    lemma_memory16_index(mode);
    let n = 0x0E + 4 * src.index() + mode.index();
    assert((n - 0x0E) / 4 == src.index() && (n - 0x0E) % 4 == mode.index());
    reveal(extended_template);
    reveal(extended_shape);
}

/// Every `Lea` is what the tables give for its own opcode and operand.
proof fn lemma_own_opcode_lea(pointer: Pointer, mode: LeaMode)
    ensures
        has_own_opcode(Instruction::Lea(pointer, mode)),
{
    lemma_pointer_index(pointer);
    lemma_lea_index(mode);
    let n = 0x16 + 5 * pointer.index() + mode.index();
    assert((n - 0x16) / 5 == pointer.index() && (n - 0x16) % 5 == mode.index());
    reveal(extended_template);
    reveal(extended_shape);
}

/// Every `Inc16` is what the tables give for its own opcode and operand.
proof fn lemma_own_opcode_inc16(register: Register16)
    ensures
        has_own_opcode(Instruction::Inc16(register)),
{
    lemma_register16_index(register);
    let n = 0x25 + register.index();
    reveal(extended_template);
    reveal(extended_shape);
}

/// Every `Dec16` is what the tables give for its own opcode and operand.
proof fn lemma_own_opcode_dec16(register: Register16)
    ensures
        has_own_opcode(Instruction::Dec16(register)),
{
    lemma_register16_index(register);
    let n = 0x27 + register.index();
    reveal(extended_template);
    reveal(extended_shape);
}

/// Every `Alu2` is what the tables give for its own opcode and operand.
proof fn lemma_own_opcode_alu2(op: Alu2Op, left: Register8, right: Alu2OpMode)
    ensures
        has_own_opcode(Instruction::Alu2(op, left, right)),
{
    lemma_alu2_index(left, right);
    let n = op.base() + right.index(left.index());
    let j = right.index(left.index());
    if op != Alu2Op::Cmp {
        let o = (n - 0x29) / 20;
        assert(n == 0x29 + 20 * o + j && 0 <= o < 5) by {
            assert(op.base() == 0x29 + 20 * op.index());
        }
        assert((n - 0x29) / 20 == op.index() && (n - 0x29) % 20 == j);
    }
    reveal(extended_template);
    reveal(extended_shape);
}

/// Every `Alu1` is what the tables give for its own opcode and operand.
proof fn lemma_own_opcode_alu1(op: Alu1Op, operand: Register8)
    ensures
        has_own_opcode(Instruction::Alu1(op, operand)),
{
    lemma_register8_index(operand);
    let n = op.base() + operand.index();
    let r = operand.index();
    if op != Alu1Op::Test {
        assert(op.base() == 0x8D + 4 * op.index());
        assert((n - 0x8D) / 4 == op.index() && (n - 0x8D) % 4 == r);
    }
    reveal(extended_template);
    reveal(extended_shape);
}

/// Every `Push8` is what the tables give for its own opcode and operand.
proof fn lemma_own_opcode_push8(src: Register8)
    ensures
        has_own_opcode(Instruction::Push8(src)),
{
    lemma_register8_index(src);
    let n = 0xC1 + src.index();
    reveal(extended_template);
    reveal(extended_shape);
}

/// Every `Push16` is what the tables give for its own opcode and operand.
proof fn lemma_own_opcode_push16(src: Register16)
    ensures
        has_own_opcode(Instruction::Push16(src)),
{
    lemma_register16_index(src);
    let n = 0xC5 + src.index();
    reveal(extended_template);
    reveal(extended_shape);
}

/// Every `Pop8` is what the tables give for its own opcode and operand.
proof fn lemma_own_opcode_pop8(dst: Register8)
    ensures
        has_own_opcode(Instruction::Pop8(dst)),
{
    lemma_register8_index(dst);
    let n = 0xC7 + dst.index();
    reveal(extended_template);
    reveal(extended_shape);
}

/// Every `Pop16` is what the tables give for its own opcode and operand.
proof fn lemma_own_opcode_pop16(dst: Register16)
    ensures
        has_own_opcode(Instruction::Pop16(dst)),
{
    lemma_register16_index(dst);
    let n = 0xCB + dst.index();
    reveal(extended_template);
    reveal(extended_shape);
}

/// Every `Call` is what the tables give for its own opcode and operand.
proof fn lemma_own_opcode_call(mode: JumpMode)
    ensures
        has_own_opcode(Instruction::Call(mode)),
{
    lemma_jump_index(mode);
    let n = 0xCD + mode.index();
    reveal(extended_template);
    reveal(extended_shape);
}

/// Every `Jmp` is what the tables give for its own opcode and operand.
proof fn lemma_own_opcode_jmp(condition: Condition, mode: JumpMode)
    ensures
        has_own_opcode(Instruction::Jmp(condition, mode)),
{
    lemma_condition_index(condition);
    lemma_jump_index(mode);
    let n = 0xD4 + 4 * condition.index() + mode.index();
    assert((n - 0xD4) / 4 == condition.index() && (n - 0xD4) % 4 == mode.index());
    reveal(extended_template);
    reveal(extended_shape);
}

/// Every instruction is what the tables give for its own opcode and operand.
pub proof fn lemma_own_opcode(inst: Instruction)
    ensures
        has_own_opcode(inst),
{
    match inst {
        Instruction::Move8(dst, src) => lemma_own_opcode_move8(dst, src),
        Instruction::Load8Immediate(dst, value) => lemma_own_opcode_load8_immediate(dst, value),
        Instruction::Load8(dst, mode) => lemma_own_opcode_load8(dst, mode),
        Instruction::Store8(mode, src) => lemma_own_opcode_store8(mode, src),
        Instruction::In(dst, mode) => lemma_own_opcode_in(dst, mode),
        Instruction::Out(mode, src) => lemma_own_opcode_out(mode, src),
        Instruction::Move16(dst, src) => lemma_own_opcode_move16(dst, src),
        Instruction::Move16FromPair(dst, src) => lemma_own_opcode_move16_from_pair(dst, src),
        Instruction::Move16ToPair(dst, src) => lemma_own_opcode_move16_to_pair(dst, src),
        Instruction::Load16Immediate(dst, value) => lemma_own_opcode_load16_immediate(dst, value),
        Instruction::Load16(dst, mode) => lemma_own_opcode_load16(dst, mode),
        Instruction::Store16(mode, src) => lemma_own_opcode_store16(mode, src),
        Instruction::Lea(pointer, mode) => lemma_own_opcode_lea(pointer, mode),
        Instruction::Inc16(register) => lemma_own_opcode_inc16(register),
        Instruction::Dec16(register) => lemma_own_opcode_dec16(register),
        Instruction::Alu2(op, left, right) => lemma_own_opcode_alu2(op, left, right),
        Instruction::Alu1(op, operand) => lemma_own_opcode_alu1(op, operand),
        Instruction::Push8(src) => lemma_own_opcode_push8(src),
        Instruction::Push16(src) => lemma_own_opcode_push16(src),
        Instruction::Pop8(dst) => lemma_own_opcode_pop8(dst),
        Instruction::Pop16(dst) => lemma_own_opcode_pop16(dst),
        Instruction::Call(mode) => lemma_own_opcode_call(mode),
        Instruction::Jmp(condition, mode) => lemma_own_opcode_jmp(condition, mode),
        _ => {
            reveal(primary_template);
            reveal(primary_shape);
            reveal(extended_template);
            reveal(extended_shape);
        },
    }
}

/// The operand of the given shape that a decoder read as `byte` or `word`.
pub open spec fn operand_read(shape: OperandShape, byte: Byte, word: Word) -> Operand {
    match shape {
        OperandShape::Bare => Operand::Bare,
        OperandShape::Byte => Operand::Byte(byte),
        OperandShape::Word => Operand::Word(word),
    }
}

/// The instruction that the tables give for an opcode has that opcode, and
/// carries the operand that was read in the opcode's shape.
pub open spec fn is_own_template(code: Opcode, byte: Byte, word: Word) -> bool {
    match code.template(byte, word) {
        Some(inst) => {
            &&& inst.opcode() == code
            &&& inst.operand() == operand_read(code.shape_spec(), byte, word)
        },
        None => code.is_escape(),
    }
}

/// The eight-bit register at a position has that position.
proof fn lemma_register8_at(i: int)
    requires
        0 <= i < 4,
    ensures
        Register8::at(i).index() == i,
{
}

/// The eight-bit memory mode at a position of its block has that position,
/// and carries the operand that was read.
proof fn lemma_memory8_mode_at(m: int, byte: Byte, word: Word)
    requires
        0 <= m < 16,
    ensures
        memory8_mode(m, byte, word).index() == m,
        memory8_mode(m, byte, word).operand() == operand_read(memory8_shape(m), byte, word),
{
    if m >= 4 {
        let p = (m - 4) / 4;
        let r = (m - 4) % 4;
        assert(0 <= p < 3 && 0 <= r < 4 && m == 4 + 4 * p + r);
        lemma_register8_at(r);
    }
}

/// The I/O mode at a position of its block has that position, and carries
/// the operand that was read.
proof fn lemma_io_mode_at(k: int, byte: Byte)
    requires
        0 <= k < 11,
    ensures
        io_mode(k, byte).index() == k,
        io_mode(k, byte).operand() == operand_read(io_shape(k), byte, 0),
{
    if k >= 3 {
        let b = (k - 3) / 4;
        let r = (k - 3) % 4;
        assert(0 <= b < 2 && 0 <= r < 4 && k == 3 + 4 * b + r);
        lemma_register8_at(r);
    }
}

/// The operands at a position of their block have that position, and carry
/// the operand that was read.
proof fn lemma_alu2_at(j: int, byte: Byte)
    requires
        0 <= j < 20,
    ensures
        alu2_mode(j, byte).index(alu2_left(j).index()) == j,
        alu2_mode(j, byte).operand() == operand_read(alu2_shape(j), byte, 0),
{
    if j < 16 {
        let l = j / 4;
        let r = j % 4;
        assert(0 <= l < 4 && 0 <= r < 4 && j == 4 * l + r);
        lemma_register8_at(l);
        lemma_register8_at(r);
    } else {
        lemma_register8_at(j - 16);
    }
}

/// The jump mode at a position of its block has that position, and carries
/// the operand that was read.
proof fn lemma_jump_mode_at(j: int, byte: Byte, word: Word)
    requires
        0 <= j < 4,
    ensures
        jump_mode(j, byte, word).index() == j,
        jump_mode(j, byte, word).operand() == operand_read(jump_shape(j), byte, word),
{
}

/// The opcodes from 0x00 to 0x09 of the primary table stand for instructions with those
/// opcodes.
proof fn lemma_own_template_primary_00(code: Byte, byte: Byte, word: Word)
    requires
        0x00 <= code < 0x0A,
    ensures
        is_own_template(Opcode::Normal(code), byte, word),
{
    reveal(primary_template);
    reveal(primary_shape);
    let n = code as int;
}

/// The opcodes from 0x0A to 0x19 of the primary table stand for instructions with those
/// opcodes.
proof fn lemma_own_template_primary_0a(code: Byte, byte: Byte, word: Word)
    requires
        0x0A <= code < 0x1A,
    ensures
        is_own_template(Opcode::Normal(code), byte, word),
{
    reveal(primary_template);
    reveal(primary_shape);
    let n = code as int;
    let d = (n - 0x0A) / 4;
    let r = (n - 0x0A) % 4;
    assert(0 <= d < 4 && 0 <= r < 4 && n == 0x0A + 4 * d + r);
    lemma_register8_at(d);
    lemma_register8_at(r);
}

/// The opcodes from 0x1A to 0x1D of the primary table stand for instructions with those
/// opcodes.
proof fn lemma_own_template_primary_1a(code: Byte, byte: Byte, word: Word)
    requires
        0x1A <= code < 0x1E,
    ensures
        is_own_template(Opcode::Normal(code), byte, word),
{
    reveal(primary_template);
    reveal(primary_shape);
    let n = code as int;
    lemma_register8_at(n - 0x1A);
}

/// The opcodes from 0x1E to 0x5D of the primary table stand for instructions with those
/// opcodes.
proof fn lemma_own_template_primary_1e(code: Byte, byte: Byte, word: Word)
    requires
        0x1E <= code < 0x5E,
    ensures
        is_own_template(Opcode::Normal(code), byte, word),
{
    reveal(primary_template);
    reveal(primary_shape);
    let n = code as int;
    let d = (n - 0x1E) / 16;
    let m = (n - 0x1E) % 16;
    assert(0 <= d < 4 && 0 <= m < 16 && n == 0x1E + 16 * d + m);
    lemma_register8_at(d);
    lemma_memory8_mode_at(m, byte, word);
}

/// The opcodes from 0x5E to 0x9D of the primary table stand for instructions with those
/// opcodes.
proof fn lemma_own_template_primary_5e(code: Byte, byte: Byte, word: Word)
    requires
        0x5E <= code < 0x9E,
    ensures
        is_own_template(Opcode::Normal(code), byte, word),
{
    reveal(primary_template);
    reveal(primary_shape);
    let n = code as int;
    let d = (n - 0x5E) / 16;
    let m = (n - 0x5E) % 16;
    assert(0 <= d < 4 && 0 <= m < 16 && n == 0x5E + 16 * d + m);
    lemma_register8_at(d);
    lemma_memory8_mode_at(m, byte, word);
}

/// The opcodes from 0x9E to 0xC9 of the primary table stand for instructions with those
/// opcodes.
proof fn lemma_own_template_primary_9e(code: Byte, byte: Byte, word: Word)
    requires
        0x9E <= code < 0xCA,
    ensures
        is_own_template(Opcode::Normal(code), byte, word),
{
    reveal(primary_template);
    reveal(primary_shape);
    let n = code as int;
    let d = (n - 0x9E) / 11;
    let k = (n - 0x9E) % 11;
    assert(0 <= d < 4 && 0 <= k < 11 && n == 0x9E + 11 * d + k);
    lemma_register8_at(d);
    lemma_io_mode_at(k, byte);
}

/// The opcodes from 0xCA to 0xF5 of the primary table stand for instructions with those
/// opcodes.
proof fn lemma_own_template_primary_ca(code: Byte, byte: Byte, word: Word)
    requires
        0xCA <= code < 0xF6,
    ensures
        is_own_template(Opcode::Normal(code), byte, word),
{
    reveal(primary_template);
    reveal(primary_shape);
    let n = code as int;
    let d = (n - 0xCA) / 11;
    let k = (n - 0xCA) % 11;
    assert(0 <= d < 4 && 0 <= k < 11 && n == 0xCA + 11 * d + k);
    lemma_register8_at(d);
    lemma_io_mode_at(k, byte);
}

/// The opcodes from 0xF6 to 0xF7 of the primary table stand for instructions with those
/// opcodes.
proof fn lemma_own_template_primary_f6(code: Byte, byte: Byte, word: Word)
    requires
        0xF6 <= code < 0xF8,
    ensures
        is_own_template(Opcode::Normal(code), byte, word),
{
    reveal(primary_template);
    reveal(primary_shape);
    let n = code as int;
}

/// The opcodes from 0xF8 to 0xFF of the primary table stand for instructions with those
/// opcodes.
proof fn lemma_own_template_primary_f8(code: Byte, byte: Byte, word: Word)
    requires
        0xF8 <= code < 0x100,
    ensures
        is_own_template(Opcode::Normal(code), byte, word),
{
    reveal(primary_template);
    reveal(primary_shape);
    let n = code as int;
    let d = (n - 0xF8) / 4;
    let k = (n - 0xF8) % 4;
    assert(0 <= d < 2 && 0 <= k < 4 && n == 0xF8 + 4 * d + k);
}

/// Every opcode of the primary table stands for an instruction with that
/// opcode; the escape stands for none.
proof fn lemma_own_template_primary(code: Byte, byte: Byte, word: Word)
    ensures
        is_own_template(Opcode::Normal(code), byte, word),
{
    if code < 0x0A {
        lemma_own_template_primary_00(code, byte, word);
    } else if code < 0x1A {
        lemma_own_template_primary_0a(code, byte, word);
    } else if code < 0x1E {
        lemma_own_template_primary_1a(code, byte, word);
    } else if code < 0x5E {
        lemma_own_template_primary_1e(code, byte, word);
    } else if code < 0x9E {
        lemma_own_template_primary_5e(code, byte, word);
    } else if code < 0xCA {
        lemma_own_template_primary_9e(code, byte, word);
    } else if code < 0xF6 {
        lemma_own_template_primary_ca(code, byte, word);
    } else if code < 0xF8 {
        lemma_own_template_primary_f6(code, byte, word);
    } else {
        lemma_own_template_primary_f8(code, byte, word);
    }
}

/// The opcodes from 0x00 to 0x03 of the extended table stand for instructions with those
/// opcodes.
proof fn lemma_own_template_extended_00(code: Byte, byte: Byte, word: Word)
    requires
        0x00 <= code < 0x04,
    ensures
        is_own_template(Opcode::Extended(code), byte, word),
{
    reveal(extended_template);
    reveal(extended_shape);
    let n = code as int;
    assert(0 <= n / 2 < 2 && 0 <= n % 2 < 2 && n == 2 * (n / 2) + n % 2);
}

/// The opcodes from 0x04 to 0x05 of the extended table stand for instructions with those
/// opcodes.
proof fn lemma_own_template_extended_04(code: Byte, byte: Byte, word: Word)
    requires
        0x04 <= code < 0x06,
    ensures
        is_own_template(Opcode::Extended(code), byte, word),
{
    reveal(extended_template);
    reveal(extended_shape);
    let n = code as int;
}

/// The opcodes from 0x06 to 0x0D of the extended table stand for instructions with those
/// opcodes.
proof fn lemma_own_template_extended_06(code: Byte, byte: Byte, word: Word)
    requires
        0x06 <= code < 0x0E,
    ensures
        is_own_template(Opcode::Extended(code), byte, word),
{
    reveal(extended_template);
    reveal(extended_shape);
    let n = code as int;
    let d = (n - 0x06) / 4;
    let m = (n - 0x06) % 4;
    assert(0 <= d < 2 && 0 <= m < 4 && n == 0x06 + 4 * d + m);
}

/// The opcodes from 0x0E to 0x15 of the extended table stand for instructions with those
/// opcodes.
proof fn lemma_own_template_extended_0e(code: Byte, byte: Byte, word: Word)
    requires
        0x0E <= code < 0x16,
    ensures
        is_own_template(Opcode::Extended(code), byte, word),
{
    reveal(extended_template);
    reveal(extended_shape);
    let n = code as int;
    let d = (n - 0x0E) / 4;
    let m = (n - 0x0E) % 4;
    assert(0 <= d < 2 && 0 <= m < 4 && n == 0x0E + 4 * d + m);
}

/// The opcodes from 0x16 to 0x24 of the extended table stand for instructions with those
/// opcodes.
proof fn lemma_own_template_extended_16(code: Byte, byte: Byte, word: Word)
    requires
        0x16 <= code < 0x25,
    ensures
        is_own_template(Opcode::Extended(code), byte, word),
{
    reveal(extended_template);
    reveal(extended_shape);
    let n = code as int;
    let p = (n - 0x16) / 5;
    let l = (n - 0x16) % 5;
    assert(0 <= p < 3 && 0 <= l < 5 && n == 0x16 + 5 * p + l);
    if l < 4 {
        lemma_register8_at(l);
    }
}

/// The opcodes from 0x25 to 0x28 of the extended table stand for instructions with those
/// opcodes.
proof fn lemma_own_template_extended_25(code: Byte, byte: Byte, word: Word)
    requires
        0x25 <= code < 0x29,
    ensures
        is_own_template(Opcode::Extended(code), byte, word),
{
    reveal(extended_template);
    reveal(extended_shape);
    let n = code as int;
}

/// The opcodes from 0x29 to 0x8C of the extended table stand for instructions with those
/// opcodes.
proof fn lemma_own_template_extended_29(code: Byte, byte: Byte, word: Word)
    requires
        0x29 <= code < 0x8D,
    ensures
        is_own_template(Opcode::Extended(code), byte, word),
{
    reveal(extended_template);
    reveal(extended_shape);
    let n = code as int;
    let o = (n - 0x29) / 20;
    let j = (n - 0x29) % 20;
    assert(0 <= o < 5 && 0 <= j < 20 && n == 0x29 + 20 * o + j);
    lemma_alu2_at(j, byte);
}

/// The opcodes from 0x8D to 0xA8 of the extended table stand for instructions with those
/// opcodes.
proof fn lemma_own_template_extended_8d(code: Byte, byte: Byte, word: Word)
    requires
        0x8D <= code < 0xA9,
    ensures
        is_own_template(Opcode::Extended(code), byte, word),
{
    reveal(extended_template);
    reveal(extended_shape);
    let n = code as int;
    let o = (n - 0x8D) / 4;
    let r = (n - 0x8D) % 4;
    assert(0 <= o < 7 && 0 <= r < 4 && n == 0x8D + 4 * o + r);
    lemma_register8_at(r);
}

/// The opcodes from 0xA9 to 0xBC of the extended table stand for instructions with those
/// opcodes.
proof fn lemma_own_template_extended_a9(code: Byte, byte: Byte, word: Word)
    requires
        0xA9 <= code < 0xBD,
    ensures
        is_own_template(Opcode::Extended(code), byte, word),
{
    reveal(extended_template);
    reveal(extended_shape);
    let n = code as int;
    lemma_alu2_at(n - 0xA9, byte);
}

/// The opcodes from 0xBD to 0xC0 of the extended table stand for instructions with those
/// opcodes.
proof fn lemma_own_template_extended_bd(code: Byte, byte: Byte, word: Word)
    requires
        0xBD <= code < 0xC1,
    ensures
        is_own_template(Opcode::Extended(code), byte, word),
{
    reveal(extended_template);
    reveal(extended_shape);
    let n = code as int;
    lemma_register8_at(n - 0xBD);
}

/// The opcodes from 0xC1 to 0xC4 of the extended table stand for instructions with those
/// opcodes.
proof fn lemma_own_template_extended_c1(code: Byte, byte: Byte, word: Word)
    requires
        0xC1 <= code < 0xC5,
    ensures
        is_own_template(Opcode::Extended(code), byte, word),
{
    reveal(extended_template);
    reveal(extended_shape);
    let n = code as int;
    lemma_register8_at(n - 0xC1);
}

/// The opcodes from 0xC5 to 0xC6 of the extended table stand for instructions with those
/// opcodes.
proof fn lemma_own_template_extended_c5(code: Byte, byte: Byte, word: Word)
    requires
        0xC5 <= code < 0xC7,
    ensures
        is_own_template(Opcode::Extended(code), byte, word),
{
    reveal(extended_template);
    reveal(extended_shape);
    let n = code as int;
}

/// The opcodes from 0xC7 to 0xCA of the extended table stand for instructions with those
/// opcodes.
proof fn lemma_own_template_extended_c7(code: Byte, byte: Byte, word: Word)
    requires
        0xC7 <= code < 0xCB,
    ensures
        is_own_template(Opcode::Extended(code), byte, word),
{
    reveal(extended_template);
    reveal(extended_shape);
    let n = code as int;
    lemma_register8_at(n - 0xC7);
}

/// The opcodes from 0xCB to 0xCC of the extended table stand for instructions with those
/// opcodes.
proof fn lemma_own_template_extended_cb(code: Byte, byte: Byte, word: Word)
    requires
        0xCB <= code < 0xCD,
    ensures
        is_own_template(Opcode::Extended(code), byte, word),
{
    reveal(extended_template);
    reveal(extended_shape);
    let n = code as int;
}

/// The opcodes from 0xCD to 0xD0 of the extended table stand for instructions with those
/// opcodes.
proof fn lemma_own_template_extended_cd(code: Byte, byte: Byte, word: Word)
    requires
        0xCD <= code < 0xD1,
    ensures
        is_own_template(Opcode::Extended(code), byte, word),
{
    reveal(extended_template);
    reveal(extended_shape);
    let n = code as int;
    lemma_jump_mode_at(n - 0xCD, byte, word);
}

/// The opcodes from 0xD1 to 0xD3 of the extended table stand for instructions with those
/// opcodes.
proof fn lemma_own_template_extended_d1(code: Byte, byte: Byte, word: Word)
    requires
        0xD1 <= code < 0xD4,
    ensures
        is_own_template(Opcode::Extended(code), byte, word),
{
    reveal(extended_template);
    reveal(extended_shape);
    let n = code as int;
}

/// The opcodes from 0xD4 to 0xFF of the extended table stand for instructions with those
/// opcodes.
proof fn lemma_own_template_extended_d4(code: Byte, byte: Byte, word: Word)
    requires
        0xD4 <= code < 0x100,
    ensures
        is_own_template(Opcode::Extended(code), byte, word),
{
    reveal(extended_template);
    reveal(extended_shape);
    let n = code as int;
    let c = (n - 0xD4) / 4;
    let j = (n - 0xD4) % 4;
    assert(0 <= c < 11 && 0 <= j < 4 && n == 0xD4 + 4 * c + j);
    lemma_jump_mode_at(j, byte, word);
}

/// Every opcode of the extended table stands for an instruction with that
/// opcode.
proof fn lemma_own_template_extended(code: Byte, byte: Byte, word: Word)
    ensures
        is_own_template(Opcode::Extended(code), byte, word),
{
    if code < 0x04 {
        lemma_own_template_extended_00(code, byte, word);
    } else if code < 0x06 {
        lemma_own_template_extended_04(code, byte, word);
    } else if code < 0x0E {
        lemma_own_template_extended_06(code, byte, word);
    } else if code < 0x16 {
        lemma_own_template_extended_0e(code, byte, word);
    } else if code < 0x25 {
        lemma_own_template_extended_16(code, byte, word);
    } else if code < 0x29 {
        lemma_own_template_extended_25(code, byte, word);
    } else if code < 0x8D {
        lemma_own_template_extended_29(code, byte, word);
    } else if code < 0xA9 {
        lemma_own_template_extended_8d(code, byte, word);
    } else if code < 0xBD {
        lemma_own_template_extended_a9(code, byte, word);
    } else if code < 0xC1 {
        lemma_own_template_extended_bd(code, byte, word);
    } else if code < 0xC5 {
        lemma_own_template_extended_c1(code, byte, word);
    } else if code < 0xC7 {
        lemma_own_template_extended_c5(code, byte, word);
    } else if code < 0xCB {
        lemma_own_template_extended_c7(code, byte, word);
    } else if code < 0xCD {
        lemma_own_template_extended_cb(code, byte, word);
    } else if code < 0xD1 {
        lemma_own_template_extended_cd(code, byte, word);
    } else if code < 0xD4 {
        lemma_own_template_extended_d1(code, byte, word);
    } else {
        lemma_own_template_extended_d4(code, byte, word);
    }
}

/// Every opcode but the escape stands for exactly one instruction once its
/// operand is read, and that instruction's own opcode and operand are the
/// ones it was made from: the two tables cover all 511 opcodes, and no two
/// opcodes share an instruction.
pub proof fn lemma_own_template(code: Opcode, byte: Byte, word: Word)
    ensures
        is_own_template(code, byte, word),
        code.template(byte, word) is None <==> code.is_escape(),
{
    match code {
        Opcode::Normal(n) => lemma_own_template_primary(n, byte, word),
        Opcode::Extended(n) => lemma_own_template_extended(n, byte, word),
    }
}

/// Decoding inverts encoding: a stream that begins with the encoding of an
/// instruction decodes to that instruction, whatever follows, and the
/// decoder takes exactly the encoding's one to four bytes.
pub proof fn lemma_decode_encode(inst: Instruction, rest: Seq<Byte>)
    ensures
        1 <= inst.encoding().len() <= 4,
        decode_spec(ExtensionMode::Normal, inst.encoding() + rest) == Some(
            (inst, inst.encoding().len()),
        ),
{
    lemma_own_opcode(inst);
    let code = inst.opcode();
    let operand = inst.operand();
    let stream = inst.encoding() + rest;
    let behind = operand.bytes() + rest;
    match operand {
        Operand::Word(word) => {
            lemma_word_bytes(word, 0, 0);
        },
        _ => {},
    }
    assert(decode_operand(code, behind) == Some((inst, operand.bytes().len())));
    match code {
        Opcode::Normal(n) => {
            assert(stream[0] == n);
            assert(stream.skip(1) =~= behind);
        },
        Opcode::Extended(n) => {
            assert(stream[0] == EXT && stream[1] == n);
            assert(stream.skip(2) =~= behind);
        },
    }
}

/// Encoding inverts decoding: where a stream decodes to an instruction, the
/// bytes that the decoder took are that instruction's encoding, one to four
/// of them. A stream of four bytes or more always decodes.
pub proof fn lemma_encode_decode(stream: Seq<Byte>)
    ensures
        match decode_spec(ExtensionMode::Normal, stream) {
            Some((inst, length)) => {
                &&& 1 <= length <= 4
                &&& length <= stream.len()
                &&& inst.encoding() == stream.take(length as int)
            },
            None => stream.len() < 4,
        },
{
    if stream.len() > 0 {
        if stream[0] != EXT {
            let code = Opcode::Normal(stream[0]);
            lemma_operand_behind(code, stream.skip(1));
            match decode_operand(code, stream.skip(1)) {
                Some((inst, width)) => {
                    assert(inst.encoding() =~= stream.take(1 + width as int));
                },
                None => {},
            }
        } else if stream.len() > 1 {
            let code = Opcode::Extended(stream[1]);
            lemma_operand_behind(code, stream.skip(2));
            match decode_operand(code, stream.skip(2)) {
                Some((inst, width)) => {
                    assert(inst.encoding() =~= stream.take(2 + width as int));
                },
                None => {},
            }
        }
    }
}

/// Where the bytes behind an opcode hold its operand, the instruction found
/// has that opcode, and its operand is written as the bytes that were read.
proof fn lemma_operand_behind(code: Opcode, rest: Seq<Byte>)
    requires
        !code.is_escape(),
    ensures
        match decode_operand(code, rest) {
            Some((inst, width)) => {
                &&& width <= 2
                &&& width <= rest.len()
                &&& inst.opcode() == code
                &&& inst.operand().bytes() == rest.take(width as int)
            },
            None => rest.len() < 2,
        },
{
    let shape = code.shape_spec();
    if rest.len() >= shape.width() {
        let byte = if shape == OperandShape::Byte {
            rest[0]
        } else {
            0
        };
        let word = if shape == OperandShape::Word {
            word_of(rest[1], rest[0])
        } else {
            0
        };
        lemma_own_template(code, byte, word);
        if shape == OperandShape::Word {
            lemma_word_bytes(0, rest[1], rest[0]);
        }
        let inst = code.template(byte, word).unwrap();
        assert(inst.operand().bytes() =~= rest.take(shape.width() as int));
    }
}

/// No two instructions are written alike, and none is written as the
/// beginning of another.
pub proof fn lemma_encoding_is_prefix_free(first: Instruction, second: Instruction)
    requires
        first.encoding().is_prefix_of(second.encoding()),
    ensures
        first == second,
{
    let rest = second.encoding().skip(first.encoding().len() as int);
    assert(first.encoding() + rest =~= second.encoding());
    lemma_decode_encode(first, rest);
    lemma_decode_encode(second, Seq::empty());
    assert(second.encoding() + Seq::<Byte>::empty() =~= second.encoding());
}

} // verus!
