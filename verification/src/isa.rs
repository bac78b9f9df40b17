//! The instruction set: the symbolic instructions, the opcode map and the
//! codec between instructions and their one to four byte encodings.

use vstd::prelude::*;

pub mod codec;
pub mod encoder;
pub mod instruction;
pub mod laws;
pub mod opcode;
pub mod table;

pub use codec::{decode, encode, fetch_word, ExtensionMode, InstructionBytes};
pub use instruction::{
    Alu1Op, Alu2Op, Alu2OpMode, Condition, IOMode, Instruction, JumpMode, LeaMode, Memory16Mode,
    Memory8Mode, Pointer, Register16, Register8, RegisterPair,
};
pub use opcode::{Opcode, OperandShape};

verus! {

/// An eight-bit quantity.
pub type Byte = u8;

/// A sixteen-bit virtual address.
pub type Address = u16;

/// A sixteen-bit quantity.
pub type Word = u16;

/// The low byte of a word.
pub open spec fn low_byte(word: Word) -> Byte {
    (word % 256) as Byte
}

/// The high byte of a word.
pub open spec fn high_byte(word: Word) -> Byte {
    (word / 256) as Byte
}

/// The word made of a high and a low byte.
pub open spec fn word_of(high: Byte, low: Byte) -> Word {
    (high * 256 + low) as Word
}

/// Splitting a word and joining the halves gives the word back, and joining
/// two bytes and splitting the word gives the bytes back.
pub proof fn lemma_word_bytes(word: Word, high: Byte, low: Byte)
    ensures
        word_of(high_byte(word), low_byte(word)) == word,
        high_byte(word_of(high, low)) == high,
        low_byte(word_of(high, low)) == low,
{
}

} // verus!
