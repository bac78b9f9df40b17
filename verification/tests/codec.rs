use bw8::isa::opcode::{BR_GES_Y_REL_IMM, CMP_A_IMM, EXT, IN_D_REL_Y_BY_D, LEA_SP_BY_IMM, MV_Y_CD, NOP};
use bw8::isa::{
    decode, encode, fetch_word, Alu2Op, Alu2OpMode, Condition, ExtensionMode, IOMode,
    Instruction, InstructionBytes, JumpMode, LeaMode, Memory8Mode, Opcode, OperandShape, Pointer,
    Register16, Register8, RegisterPair,
};

fn bytes_of(bytes: InstructionBytes) -> Vec<u8> {
    bytes.to_vec()
}

#[test]
fn decode_inverts_encode_for_every_opcode_and_operand_sample() {
    let samples: [(u8, u8); 6] = [(0x00, 0x00), (0x01, 0x00), (0x34, 0x12), (0xFF, 0xFF), (0x80, 0x7F), (0x7F, 0x80)];
    let mut seen = 0usize;
    for table in 0..2 {
        for code in 0..=255u8 {
            if table == 0 && code == 0x01 {
                continue;
            }
            for (low, high) in samples {
                let mut stream: Vec<u8> = Vec::new();
                if table == 1 {
                    stream.push(0x01);
                }
                stream.push(code);
                stream.push(low);
                stream.push(high);
                stream.push(0xAA);
                let mut iter = stream.clone().into_iter();
                let inst = decode(ExtensionMode::Normal, &mut iter).expect("every opcode decodes");
                let left: Vec<u8> = iter.collect();
                let consumed = stream.len() - left.len();
                let encoded = bytes_of(encode(inst));
                assert_eq!(encoded.len(), consumed);
                assert_eq!(&encoded[..], &stream[..consumed]);
                let mut again = encoded.clone().into_iter();
                assert_eq!(decode(ExtensionMode::Normal, &mut again), Some(inst));
                assert_eq!(again.next(), None);
                seen += 1;
            }
        }
    }
    assert_eq!(seen, 511 * 6);
}

#[test]
fn load_immediate_is_two_bytes() {
    let inst = Instruction::Load8Immediate(Register8::A, 0x42);
    assert_eq!(bytes_of(encode(inst)), vec![0x1A, 0x42]);
    let mut stream = vec![0x1Au8, 0x42].into_iter();
    assert_eq!(decode(ExtensionMode::Normal, &mut stream), Some(inst));
}

#[test]
fn store_absolute_puts_the_low_byte_first() {
    let inst = Instruction::Store8(Memory8Mode::Absolute(0x8000), Register8::A);
    assert_eq!(bytes_of(encode(inst)), vec![0x5E, 0x00, 0x80]);
    let mut stream = vec![0x5Eu8, 0x00, 0x80, 0x99].into_iter();
    assert_eq!(decode(ExtensionMode::Normal, &mut stream), Some(inst));
    assert_eq!(stream.next(), Some(0x99));
}

#[test]
fn decode_gives_none_when_the_stream_ends_early() {
    let mut empty = Vec::<u8>::new().into_iter();
    assert_eq!(decode(ExtensionMode::Normal, &mut empty), None);
    let mut escape_only = vec![0x01u8].into_iter();
    assert_eq!(decode(ExtensionMode::Normal, &mut escape_only), None);
    let mut half_word = vec![0x5Eu8, 0x00].into_iter();
    assert_eq!(decode(ExtensionMode::Normal, &mut half_word), None);
    let mut no_operand = vec![0x1Au8].into_iter();
    assert_eq!(decode(ExtensionMode::Normal, &mut no_operand), None);
}

#[test]
fn fetch_word_reads_low_then_high() {
    let mut stream = vec![0x34u8, 0x12, 0x56].into_iter();
    assert_eq!(fetch_word(&mut stream), Some(0x1234));
    assert_eq!(stream.next(), Some(0x56));
    let mut short = vec![0x34u8].into_iter();
    assert_eq!(fetch_word(&mut short), None);
}

#[test]
fn opcode_shapes_and_prefixes() {
    assert_eq!(Opcode::Normal(0x00).shape(), OperandShape::Bare);
    assert_eq!(Opcode::Normal(0x1A).shape(), OperandShape::Byte);
    assert_eq!(Opcode::Normal(0x5E).shape(), OperandShape::Word);
    assert_eq!(Opcode::Extended(0xD5).shape(), OperandShape::Word);
    assert_eq!(Opcode::Normal(0x01).instruction(0, 0), None);
    assert_eq!(bytes_of(Opcode::Extended(0xD2).encode()), vec![0x01, 0xD2]);
    assert_eq!(bytes_of(Opcode::Extended(0xCE).encode_with_word(0xBEEF)), vec![0x01, 0xCE, 0xEF, 0xBE]);
    assert_eq!(bytes_of(Opcode::Normal(0x9E).encode_with_byte(0x07)), vec![0x9E, 0x07]);
    assert_eq!(
        bytes_of(Opcode::Normal(0x10).encode_with(InstructionBytes::Three(1, 2, 3))),
        vec![0x10, 1, 2, 3]
    );
}

#[test]
fn extended_mode_begins_behind_the_escape() {
    let mut stream = vec![0xD2u8, 0x00].into_iter();
    assert_eq!(decode(ExtensionMode::Extended, &mut stream), Some(Instruction::Swi));
    assert_eq!(stream.next(), Some(0x00));
    let mut stream = vec![0x01u8, 0xD3].into_iter();
    assert_eq!(decode(ExtensionMode::Normal, &mut stream), Some(Instruction::Reti));
    // In the extended table 0x01 is an opcode like any other.
    let mut stream = vec![0x01u8].into_iter();
    assert_eq!(
        decode(ExtensionMode::Extended, &mut stream),
        Some(Instruction::Move16ToPair(RegisterPair::Ab, Register16::Y))
    );
    let mut empty = Vec::<u8>::new().into_iter();
    assert_eq!(decode(ExtensionMode::Extended, &mut empty), None);
}

#[test]
fn opcodes_have_their_names() {
    assert_eq!(NOP, 0x00);
    assert_eq!(EXT, 0x01);
    assert_eq!(bytes_of(encode(Instruction::Nop)), vec![NOP]);
    assert_eq!(
        bytes_of(encode(Instruction::Move16FromPair(Register16::Y, RegisterPair::Cd))),
        vec![MV_Y_CD]
    );
    assert_eq!(MV_Y_CD, 0xFF);
    assert_eq!(
        bytes_of(encode(Instruction::In(Register8::D, IOMode::RegisterOffset(Register16::Y, Register8::D)))),
        vec![IN_D_REL_Y_BY_D]
    );
    assert_eq!(IN_D_REL_Y_BY_D, 0xC9);
    assert_eq!(
        bytes_of(encode(Instruction::Lea(Pointer::SP, LeaMode::Constant(0x80)))),
        vec![EXT, LEA_SP_BY_IMM, 0x80]
    );
    assert_eq!(LEA_SP_BY_IMM, 0x24);
    assert_eq!(
        bytes_of(encode(Instruction::Alu2(Alu2Op::Cmp, Register8::A, Alu2OpMode::Constant(0x09)))),
        vec![EXT, CMP_A_IMM, 0x09]
    );
    assert_eq!(CMP_A_IMM, 0xB9);
    assert_eq!(
        bytes_of(encode(Instruction::Jmp(
            Condition::GreaterEqualSigned,
            JumpMode::Indirect(Register16::Y, 0x7F)
        ))),
        vec![EXT, BR_GES_Y_REL_IMM, 0x7F]
    );
    assert_eq!(BR_GES_Y_REL_IMM, 0xFF);
    assert_eq!(
        bytes_of(encode(Instruction::Call(JumpMode::Absolute(0xBEEF)))),
        vec![0x01, 0xCE, 0xEF, 0xBE]
    );
    assert_eq!(encode(Instruction::Call(JumpMode::Absolute(0xBEEF))).len(), 4);
}
