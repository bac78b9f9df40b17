//! The codec between instructions and bytes.
//!
//! `Instruction::encoding` says what bytes an instruction is written as, and
//! `decode_spec` what instruction a byte stream begins with. The two are
//! stated independently of each other; that they are inverse is proved in
//! `laws`.

use crate::isa::encoder;
use crate::isa::instruction::{
    Alu1Op, Alu2Op, Alu2OpMode, IOMode, Instruction, JumpMode, LeaMode, Memory16Mode,
    Memory8Mode,
};
use crate::isa::opcode;
use crate::isa::opcode::{Opcode, OperandShape};
use crate::isa::{high_byte, low_byte, word_of, Byte, Word};
use vstd::prelude::*;
use vstd::std_specs::iter::IteratorSpec;

verus! {

/// Which table the next opcode byte belongs to.
#[derive(Clone, Copy, Debug, PartialEq, Eq, Structural)]
pub enum ExtensionMode {
    Normal,
    Extended,
}

/// The one to four bytes of an encoded instruction.
#[derive(Clone, Copy, Debug, PartialEq, Eq, Structural)]
pub enum InstructionBytes {
    One(Byte),
    Two(Byte, Byte),
    Three(Byte, Byte, Byte),
    Four(Byte, Byte, Byte, Byte),
}

impl View for InstructionBytes {
    type V = Seq<Byte>;

    /// The bytes in the order in which they are written.
    open spec fn view(&self) -> Seq<Byte> {
        match *self {
            InstructionBytes::One(a) => seq![a],
            InstructionBytes::Two(a, b) => seq![a, b],
            InstructionBytes::Three(a, b, c) => seq![a, b, c],
            InstructionBytes::Four(a, b, c, d) => seq![a, b, c, d],
        }
    }
}

impl InstructionBytes {
    /// The number of bytes, one to four.
    pub fn len(&self) -> (n: usize)
        ensures
            n == self@.len(),
            1 <= n <= 4,
    {
        match self {
            InstructionBytes::One(..) => 1,
            InstructionBytes::Two(..) => 2,
            InstructionBytes::Three(..) => 3,
            InstructionBytes::Four(..) => 4,
        }
    }

    /// The bytes as a vector, in the order in which they are written.
    pub fn to_vec(&self) -> (bytes: Vec<Byte>)
        ensures
            bytes@ == self@,
    {
        let mut bytes: Vec<Byte> = Vec::new();
        match *self {
            InstructionBytes::One(a) => {
                bytes.push(a);
            },
            InstructionBytes::Two(a, b) => {
                bytes.push(a);
                bytes.push(b);
            },
            InstructionBytes::Three(a, b, c) => {
                bytes.push(a);
                bytes.push(b);
                bytes.push(c);
            },
            InstructionBytes::Four(a, b, c, d) => {
                bytes.push(a);
                bytes.push(b);
                bytes.push(c);
                bytes.push(d);
            },
        }
        assert(bytes@ =~= self@);
        bytes
    }
}

/// The operand that an instruction carries behind its opcode.
#[derive(Clone, Copy, Debug, PartialEq, Eq, Structural)]
pub enum Operand {
    Bare,
    Byte(Byte),
    Word(Word),
}

impl Operand {
    /// The operand's bytes, a word with its low byte first.
    pub open spec fn bytes(self) -> Seq<Byte> {
        match self {
            Operand::Bare => seq![],
            Operand::Byte(byte) => seq![byte],
            Operand::Word(word) => seq![low_byte(word), high_byte(word)],
        }
    }

    /// The operand's shape.
    pub open spec fn shape(self) -> OperandShape {
        match self {
            Operand::Bare => OperandShape::Bare,
            Operand::Byte(_) => OperandShape::Byte,
            Operand::Word(_) => OperandShape::Word,
        }
    }
}

impl Memory8Mode {
    /// The mode's position in a block of eight-bit loads or stores.
    pub open spec fn index(self) -> int {
        match self {
            Memory8Mode::Absolute(_) => 0,
            Memory8Mode::ConstantOffset(pointer, _) => 1 + pointer.index(),
            Memory8Mode::RegisterOffset(pointer, offset) => 4 + 4 * pointer.index()
                + offset.index(),
        }
    }

    /// The operand that the mode puts behind the opcode.
    pub open spec fn operand(self) -> Operand {
        match self {
            Memory8Mode::Absolute(address) => Operand::Word(address),
            Memory8Mode::ConstantOffset(_, offset) => Operand::Byte(offset),
            Memory8Mode::RegisterOffset(_, _) => Operand::Bare,
        }
    }
}

impl IOMode {
    /// The mode's position in a block of port accesses.
    pub open spec fn index(self) -> int {
        match self {
            IOMode::Port(_) => 0,
            IOMode::ConstantOffset(base, _) => 1 + base.index(),
            IOMode::RegisterOffset(base, offset) => 3 + 4 * base.index() + offset.index(),
        }
    }

    /// The operand that the mode puts behind the opcode.
    pub open spec fn operand(self) -> Operand {
        match self {
            IOMode::Port(port) => Operand::Byte(port),
            IOMode::ConstantOffset(_, offset) => Operand::Byte(offset),
            IOMode::RegisterOffset(_, _) => Operand::Bare,
        }
    }
}

impl Memory16Mode {
    /// The mode's position in a block of sixteen-bit loads or stores.
    pub open spec fn index(self) -> int {
        match self {
            Memory16Mode::Absolute(_) => 0,
            Memory16Mode::ConstantOffset(pointer, _) => 1 + pointer.index(),
        }
    }

    /// The operand that the mode puts behind the opcode.
    pub open spec fn operand(self) -> Operand {
        match self {
            Memory16Mode::Absolute(address) => Operand::Word(address),
            Memory16Mode::ConstantOffset(_, offset) => Operand::Byte(offset),
        }
    }
}

impl LeaMode {
    /// The mode's position in a block of address computations.
    pub open spec fn index(self) -> int {
        match self {
            LeaMode::Register(offset) => offset.index(),
            LeaMode::Constant(_) => 4,
        }
    }

    /// The operand that the mode puts behind the opcode.
    pub open spec fn operand(self) -> Operand {
        match self {
            LeaMode::Register(_) => Operand::Bare,
            LeaMode::Constant(offset) => Operand::Byte(offset),
        }
    }
}

impl Alu2OpMode {
    /// The position, in a block of two-operand operations, of the operation
    /// with this right operand and the given left one.
    pub open spec fn index(self, left: int) -> int {
        match self {
            Alu2OpMode::Register(right) => 4 * left + right.index(),
            Alu2OpMode::Constant(_) => 16 + left,
        }
    }

    /// The operand that the mode puts behind the opcode.
    pub open spec fn operand(self) -> Operand {
        match self {
            Alu2OpMode::Register(_) => Operand::Bare,
            Alu2OpMode::Constant(value) => Operand::Byte(value),
        }
    }
}

impl JumpMode {
    /// The mode's position in a block of jumps or calls.
    pub open spec fn index(self) -> int {
        match self {
            JumpMode::Relative(_) => 0,
            JumpMode::Absolute(_) => 1,
            JumpMode::Indirect(base, _) => 2 + base.index(),
        }
    }

    /// The operand that the mode puts behind the opcode.
    pub open spec fn operand(self) -> Operand {
        match self {
            JumpMode::Relative(offset) => Operand::Byte(offset),
            JumpMode::Absolute(address) => Operand::Word(address),
            JumpMode::Indirect(_, offset) => Operand::Byte(offset),
        }
    }
}

impl Alu2Op {
    /// The first opcode of the operation's block in the extended table.
    pub open spec fn base(self) -> int {
        match self {
            Alu2Op::Addc => opcode::ADDC_A_A as int,
            Alu2Op::Subb => opcode::SUBB_A_A as int,
            Alu2Op::And => opcode::AND_A_A as int,
            Alu2Op::Or => opcode::OR_A_A as int,
            Alu2Op::Xor => opcode::XOR_A_A as int,
            Alu2Op::Cmp => opcode::CMP_A_A as int,
        }
    }
}

impl Alu1Op {
    /// The first opcode of the operation's block in the extended table.
    pub open spec fn base(self) -> int {
        match self {
            Alu1Op::Shl => opcode::SHL_A as int,
            Alu1Op::Shr => opcode::SHR_A as int,
            Alu1Op::Asr => opcode::ASR_A as int,
            Alu1Op::Not => opcode::NOT_A as int,
            Alu1Op::Neg => opcode::NEG_A as int,
            Alu1Op::Inc => opcode::INC_A as int,
            Alu1Op::Dec => opcode::DEC_A as int,
            Alu1Op::Test => opcode::TEST_A as int,
        }
    }
}

/// An opcode of the primary table, from its number.
pub open spec fn normal(n: int) -> Opcode {
    Opcode::Normal(n as Byte)
}

/// An opcode of the extended table, from its number.
pub open spec fn extended(n: int) -> Opcode {
    Opcode::Extended(n as Byte)
}

impl Instruction {
    /// The instruction's opcode: the first opcode of its family's block, and
    /// the position that its registers and modes give it there.
    pub open spec fn opcode(self) -> Opcode {
        match self {
            Instruction::Nop => normal(opcode::NOP as int),
            Instruction::SetCarry => normal(opcode::SET_C as int),
            Instruction::ClearCarry => normal(opcode::CLR_C as int),
            Instruction::SetInterruptEnable => normal(opcode::SET_I as int),
            Instruction::ClearInterruptEnable => normal(opcode::CLR_I as int),
            Instruction::SetBankEnable => normal(opcode::SET_B as int),
            Instruction::ClearBankEnable => normal(opcode::CLR_B as int),
            Instruction::ReadBankRegister => normal(opcode::MV_A_BR as int),
            Instruction::WriteBankRegister => normal(opcode::MV_BR_A as int),
            Instruction::Move8(dst, src) => normal(
                opcode::MV_A_A + 4 * dst.index() + src.index(),
            ),
            Instruction::Load8Immediate(dst, _) => normal(opcode::LD_A_IMM + dst.index()),
            Instruction::Load8(dst, mode) => normal(
                opcode::LD_A_ABS + 16 * dst.index() + mode.index(),
            ),
            Instruction::Store8(mode, src) => normal(
                opcode::ST_ABS_A + 16 * src.index() + mode.index(),
            ),
            Instruction::In(dst, mode) => normal(
                opcode::IN_A_PORT + 11 * dst.index() + mode.index(),
            ),
            Instruction::Out(mode, src) => normal(
                opcode::OUT_PORT_A + 11 * src.index() + mode.index(),
            ),
            Instruction::ReadStackPointer => normal(opcode::MV_X_SP as int),
            Instruction::WriteStackPointer => normal(opcode::MV_SP_X as int),
            Instruction::Move16(dst, src) => normal(
                opcode::MV_X_X + 4 * dst.index() + src.index(),
            ),
            Instruction::Move16FromPair(dst, src) => normal(
                opcode::MV_X_AB + 4 * dst.index() + src.index(),
            ),
            Instruction::Move16ToPair(dst, src) => extended(
                opcode::MV_AB_X + 2 * dst.index() + src.index(),
            ),
            Instruction::Load16Immediate(dst, _) => extended(opcode::LD_X_IMM + dst.index()),
            Instruction::Load16(dst, mode) => extended(
                opcode::LD_X_ABS + 4 * dst.index() + mode.index(),
            ),
            Instruction::Store16(mode, src) => extended(
                opcode::ST_ABS_X + 4 * src.index() + mode.index(),
            ),
            Instruction::Lea(pointer, mode) => extended(
                opcode::LEA_X_BY_A + 5 * pointer.index() + mode.index(),
            ),
            Instruction::Inc16(register) => extended(opcode::INC_X + register.index()),
            Instruction::Dec16(register) => extended(opcode::DEC_X + register.index()),
            Instruction::Alu2(op, left, right) => extended(op.base() + right.index(left.index())),
            Instruction::Alu1(op, operand) => extended(op.base() + operand.index()),
            Instruction::Push8(src) => extended(opcode::PUSH_A + src.index()),
            Instruction::Push16(src) => extended(opcode::PUSH_X + src.index()),
            Instruction::Pop8(dst) => extended(opcode::POP_A + dst.index()),
            Instruction::Pop16(dst) => extended(opcode::POP_X + dst.index()),
            Instruction::Call(mode) => extended(opcode::CALL_PC_REL + mode.index()),
            Instruction::Ret => extended(opcode::RET as int),
            Instruction::Swi => extended(opcode::SWI as int),
            Instruction::Reti => extended(opcode::RETI as int),
            Instruction::Jmp(condition, mode) => extended(
                opcode::JMP_PC_REL + 4 * condition.index() + mode.index(),
            ),
        }
    }

    /// The operand that the instruction carries behind its opcode.
    pub open spec fn operand(self) -> Operand {
        match self {
            Instruction::Load8Immediate(_, value) => Operand::Byte(value),
            Instruction::Load8(_, mode) => mode.operand(),
            Instruction::Store8(mode, _) => mode.operand(),
            Instruction::In(_, mode) => mode.operand(),
            Instruction::Out(mode, _) => mode.operand(),
            Instruction::Load16Immediate(_, value) => Operand::Word(value),
            Instruction::Load16(_, mode) => mode.operand(),
            Instruction::Store16(mode, _) => mode.operand(),
            Instruction::Lea(_, mode) => mode.operand(),
            Instruction::Alu2(_, _, right) => right.operand(),
            Instruction::Call(mode) => mode.operand(),
            Instruction::Jmp(_, mode) => mode.operand(),
            _ => Operand::Bare,
        }
    }

    /// The bytes that the instruction is written as: its opcode, behind the
    /// escape if it is an extended one, then its operand.
    pub open spec fn encoding(self) -> Seq<Byte> {
        self.opcode().prefix() + self.operand().bytes()
    }
}

/// The instruction that an opcode and the bytes after it stand for, with the
/// number of those bytes that belong to it; `None` where the bytes end
/// before the operand does, and for the escape.
pub open spec fn decode_operand(code: Opcode, rest: Seq<Byte>) -> Option<(Instruction, nat)> {
    let shape = code.shape_spec();
    if rest.len() < shape.width() {
        None
    } else {
        let byte = if shape == OperandShape::Byte {
            rest[0]
        } else {
            0
        };
        let word = if shape == OperandShape::Word {
            word_of(rest[1], rest[0])
        } else {
            0
        };
        match code.template(byte, word) {
            Some(inst) => Some((inst, shape.width())),
            None => None,
        }
    }
}

/// The instruction that a byte stream begins with, and the number of bytes
/// it takes up; `None` where the stream ends before the instruction does.
/// In extended mode the stream begins behind the escape.
pub open spec fn decode_spec(mode: ExtensionMode, stream: Seq<Byte>) -> Option<
    (Instruction, nat),
> {
    if stream.len() == 0 {
        None
    } else if mode == ExtensionMode::Extended {
        match decode_operand(Opcode::Extended(stream[0]), stream.skip(1)) {
            Some((inst, width)) => Some((inst, 1 + width)),
            None => None,
        }
    } else if stream[0] != opcode::EXT {
        match decode_operand(Opcode::Normal(stream[0]), stream.skip(1)) {
            Some((inst, width)) => Some((inst, 1 + width)),
            None => None,
        }
    } else if stream.len() == 1 {
        None
    } else {
        match decode_operand(Opcode::Extended(stream[1]), stream.skip(2)) {
            Some((inst, width)) => Some((inst, 2 + width)),
            None => None,
        }
    }
}

/// The word that a byte stream begins with, low byte first; `None` where
/// it has fewer than two bytes.
pub open spec fn fetch_word_spec(stream: Seq<Byte>) -> Option<Word> {
    if stream.len() >= 2 {
        Some(word_of(stream[1], stream[0]))
    } else {
        None
    }
}

/// What is left of a stream after an attempt to take `count` bytes from it:
/// the rest, or nothing where it was too short.
pub open spec fn after_taking(stream: Seq<Byte>, count: nat) -> Seq<Byte> {
    if stream.len() >= count {
        stream.skip(count as int)
    } else {
        Seq::empty()
    }
}

/// Reads a word from the stream, low byte first. Where the stream ends
/// before the second byte, the result is `None` and the stream is used up.
pub fn fetch_word<I: Iterator<Item = Byte>>(stream: &mut I) -> (word: Option<Word>)
    ensures
        (*old(stream)).obeys_prophetic_iter_laws() ==> {
            &&& word == fetch_word_spec((*old(stream)).remaining())
            &&& (*final(stream)).remaining() == after_taking((*old(stream)).remaining(), 2)
            &&& (*final(stream)).obeys_prophetic_iter_laws()
        },
{
    let ghost before = (*stream).remaining();
    let low = stream.next()?;
    let high = stream.next()?;
    let word = ((high as u16) << 8) | (low as u16);
    assert(word == word_of(high, low)) by (bit_vector)
        requires
            word == ((high as u16) << 8) | (low as u16),
    ;
    assert((*old(stream)).obeys_prophetic_iter_laws() ==> (*stream).remaining() =~= before.skip(2));
    Some(word)
}

/// Decodes the instruction that the stream begins with and takes its bytes
/// from the stream. Where the stream ends before the instruction does, the
/// result is `None` and the stream is used up. In extended mode the stream
/// begins behind the escape.
pub fn decode<I: Iterator<Item = Byte>>(extension_mode: ExtensionMode, stream: &mut I) -> (inst:
    Option<Instruction>)
    ensures
        (*old(stream)).obeys_prophetic_iter_laws() ==> {
            &&& (*final(stream)).obeys_prophetic_iter_laws()
            &&& match decode_spec(extension_mode, (*old(stream)).remaining()) {
                Some((decoded, length)) => {
                    &&& inst == Some(decoded)
                    &&& (*final(stream)).remaining() == (*old(stream)).remaining().skip(
                        length as int,
                    )
                },
                None => inst.is_none() && (*final(stream)).remaining().len() == 0,
            }
        },
    decreases
            (if extension_mode == ExtensionMode::Normal {
                1nat
            } else {
                0nat
            }),
{
    let ghost before = (*stream).remaining();
    let first = stream.next()?;
    let code = match extension_mode {
        ExtensionMode::Normal => {
            if first == opcode::EXT {
                let inst = decode(ExtensionMode::Extended, stream);
                assert(before.len() >= 2 ==> before.skip(1).skip(1) =~= before.skip(2));
                assert(forall|length: int|
                    1 <= length < before.len() ==> #[trigger] before.skip(1).skip(length)
                        =~= before.skip(1 + length));
                return inst;
            }
            Opcode::Normal(first)
        },
        ExtensionMode::Extended => Opcode::Extended(first),
    };
    let ghost rest = (*stream).remaining();
    let mut byte: Byte = 0;
    let mut word: Word = 0;
    match code.shape() {
        OperandShape::Bare => {},
        OperandShape::Byte => {
            byte = stream.next()?;
        },
        OperandShape::Word => {
            word = fetch_word(stream)?;
        },
    }
    assert((*old(stream)).obeys_prophetic_iter_laws() ==> rest =~= before.skip(1));
    assert((*old(stream)).obeys_prophetic_iter_laws() && rest.len() >= code.shape_spec().width()
        ==> (*stream).remaining() =~= before.skip(1 + code.shape_spec().width() as int));
    code.instruction(byte, word)
}

/// Encodes an instruction as its one to four bytes.
pub fn encode(inst: Instruction) -> (bytes: InstructionBytes)
    ensures
        bytes@ == inst.encoding(),
{
    match inst {
        Instruction::Nop => Opcode::Normal(opcode::NOP).encode(),
        Instruction::SetCarry => Opcode::Normal(opcode::SET_C).encode(),
        Instruction::ClearCarry => Opcode::Normal(opcode::CLR_C).encode(),
        Instruction::SetInterruptEnable => Opcode::Normal(opcode::SET_I).encode(),
        Instruction::ClearInterruptEnable => Opcode::Normal(opcode::CLR_I).encode(),
        Instruction::SetBankEnable => Opcode::Normal(opcode::SET_B).encode(),
        Instruction::ClearBankEnable => Opcode::Normal(opcode::CLR_B).encode(),
        Instruction::ReadBankRegister => Opcode::Normal(opcode::MV_A_BR).encode(),
        Instruction::WriteBankRegister => Opcode::Normal(opcode::MV_BR_A).encode(),
        Instruction::Move8(dst, src) => encoder::encode_move8(dst, src),
        Instruction::Load8Immediate(dst, value) => encoder::encode_load8_immediate(dst, value),
        Instruction::Load8(dst, mode) => encoder::encode_load8(dst, mode),
        Instruction::Store8(mode, src) => encoder::encode_store8(mode, src),
        Instruction::In(dst, mode) => encoder::encode_in(dst, mode),
        Instruction::Out(mode, src) => encoder::encode_out(mode, src),
        Instruction::ReadStackPointer => Opcode::Normal(opcode::MV_X_SP).encode(),
        Instruction::WriteStackPointer => Opcode::Normal(opcode::MV_SP_X).encode(),
        Instruction::Move16(dst, src) => encoder::encode_move16(dst, src),
        Instruction::Move16FromPair(dst, src) => encoder::encode_move16_from_pair(dst, src),
        Instruction::Move16ToPair(dst, src) => encoder::encode_move16_to_pair(dst, src),
        Instruction::Load16Immediate(dst, value) => encoder::encode_load16_immediate(dst, value),
        Instruction::Load16(dst, mode) => encoder::encode_load16(dst, mode),
        Instruction::Store16(mode, src) => encoder::encode_store16(mode, src),
        Instruction::Lea(pointer, mode) => encoder::encode_lea(pointer, mode),
        Instruction::Inc16(register) => encoder::encode_inc16(register),
        Instruction::Dec16(register) => encoder::encode_dec16(register),
        Instruction::Alu2(op, left, right) => encoder::encode_alu2(op, left, right),
        Instruction::Alu1(op, operand) => encoder::encode_alu1(op, operand),
        Instruction::Push8(src) => encoder::encode_push8(src),
        Instruction::Push16(src) => encoder::encode_push16(src),
        Instruction::Pop8(dst) => encoder::encode_pop8(dst),
        Instruction::Pop16(dst) => encoder::encode_pop16(dst),
        Instruction::Call(mode) => encoder::encode_call(mode),
        Instruction::Ret => Opcode::Extended(opcode::RET).encode(),
        Instruction::Swi => Opcode::Extended(opcode::SWI).encode(),
        Instruction::Reti => Opcode::Extended(opcode::RETI).encode(),
        Instruction::Jmp(condition, mode) => encoder::encode_jmp(condition, mode),
    }
}

} // verus!
