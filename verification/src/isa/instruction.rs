//! The symbolic form of every instruction, with its registers, addressing
//! modes, arithmetic operations and branch conditions.

use crate::isa::{Address, Byte};
use vstd::prelude::*;

verus! {

/// A sixteen-bit register that can address memory.
#[derive(Clone, Copy, Debug, Hash, PartialEq, Eq, Structural)]
pub enum Pointer {
    X,
    Y,
    SP,
}

/// A general-purpose eight-bit register.
#[derive(Clone, Copy, Debug, Hash, PartialEq, Eq, Structural)]
pub enum Register8 {
    A,
    B,
    C,
    D,
}

/// A general-purpose sixteen-bit register.
#[derive(Clone, Copy, Debug, Hash, PartialEq, Eq, Structural)]
pub enum Register16 {
    X,
    Y,
}

/// How an eight-bit load or store finds its memory cell.
#[derive(Clone, Copy, Debug, Hash, PartialEq, Eq, Structural)]
pub enum Memory8Mode {
    Absolute(Address),
    ConstantOffset(Pointer, Byte),
    RegisterOffset(Pointer, Register8),
}

/// How a port access finds its I/O address.
#[derive(Clone, Copy, Debug, Hash, PartialEq, Eq, Structural)]
pub enum IOMode {
    Port(Byte),
    ConstantOffset(Register16, Byte),
    RegisterOffset(Register16, Register8),
}

/// How a sixteen-bit load or store finds its first memory cell.
#[derive(Clone, Copy, Debug, Hash, PartialEq, Eq, Structural)]
pub enum Memory16Mode {
    Absolute(Address),
    ConstantOffset(Pointer, Byte),
}

/// The offset that a load-effective-address adds to a pointer.
#[derive(Debug, Hash, PartialEq, Eq, Clone, Copy, Structural)]
pub enum LeaMode {
    Register(Register8),
    Constant(Byte),
}

/// Two eight-bit registers read as one word, the first being the high byte.
#[derive(Clone, Copy, Debug, Hash, PartialEq, Eq, Structural)]
pub enum RegisterPair {
    Ab,
    Cd,
}

/// The arithmetic and logic operations on two operands.
#[derive(PartialEq, Clone, Copy, Debug, Hash, Eq, Structural)]
pub enum Alu2Op {
    Addc,
    Subb,
    And,
    Or,
    Xor,
    Cmp,
}

/// The right-hand operand of a two-operand operation.
#[derive(Clone, Copy, Debug, Hash, PartialEq, Eq, Structural)]
pub enum Alu2OpMode {
    Register(Register8),
    Constant(Byte),
}

/// The arithmetic and logic operations on one operand.
#[derive(PartialEq, Clone, Copy, Debug, Hash, Eq, Structural)]
pub enum Alu1Op {
    Shl,
    Shr,
    Asr,
    Not,
    Neg,
    Inc,
    Dec,
    Test,
}

/// Where a jump or call goes.
#[derive(Clone, Copy, Debug, Hash, PartialEq, Eq, Structural)]
pub enum JumpMode {
    Relative(Byte),
    Absolute(Address),
    Indirect(Register16, Byte),
}

/// The condition under which a jump is taken.
#[derive(Clone, Copy, Debug, Hash, PartialEq, Eq, Structural)]
pub enum Condition {
    Always,
    Equal,
    NotEqual,
    LessThan,
    GreaterThan,
    LessEqual,
    GreaterEqual,
    LessThanSigned,
    GreaterThanSigned,
    LessEqualSigned,
    GreaterEqualSigned,
}

/// One instruction of the processor. There are no others.
#[derive(Debug, Hash, PartialEq, Eq, Clone, Copy, Structural)]
pub enum Instruction {
    Nop,
    SetCarry,
    ClearCarry,
    SetInterruptEnable,
    ClearInterruptEnable,
    SetBankEnable,
    ClearBankEnable,
    ReadBankRegister,
    WriteBankRegister,
    Move8(Register8, Register8),
    Load8Immediate(Register8, Byte),
    Load8(Register8, Memory8Mode),
    Store8(Memory8Mode, Register8),
    In(Register8, IOMode),
    Out(IOMode, Register8),
    ReadStackPointer,
    WriteStackPointer,
    Move16(Register16, Register16),
    Move16FromPair(Register16, RegisterPair),
    Move16ToPair(RegisterPair, Register16),
    Load16Immediate(Register16, Address),
    Load16(Register16, Memory16Mode),
    Store16(Memory16Mode, Register16),
    Lea(Pointer, LeaMode),
    Inc16(Register16),
    Dec16(Register16),
    Alu2(Alu2Op, Register8, Alu2OpMode),
    Alu1(Alu1Op, Register8),
    Push8(Register8),
    Push16(Register16),
    Pop8(Register8),
    Pop16(Register16),
    Call(JumpMode),
    Ret,
    Swi,
    Reti,
    Jmp(Condition, JumpMode),
}

impl Pointer {
    /// The position of the pointer in the opcode map's ordering.
    pub open spec fn index(self) -> int {
        match self {
            Pointer::X => 0,
            Pointer::Y => 1,
            Pointer::SP => 2,
        }
    }

    /// The pointer at a position of the opcode map's ordering.
    pub open spec fn at(i: int) -> Pointer {
        if i == 0 {
            Pointer::X
        } else if i == 1 {
            Pointer::Y
        } else {
            Pointer::SP
        }
    }
}

impl Register8 {
    /// The position of the register in the opcode map's ordering.
    pub open spec fn index(self) -> int {
        match self {
            Register8::A => 0,
            Register8::B => 1,
            Register8::C => 2,
            Register8::D => 3,
        }
    }

    /// The register at a position of the opcode map's ordering.
    pub open spec fn at(i: int) -> Register8 {
        if i == 0 {
            Register8::A
        } else if i == 1 {
            Register8::B
        } else if i == 2 {
            Register8::C
        } else {
            Register8::D
        }
    }
}

impl Register16 {
    /// The position of the register in the opcode map's ordering.
    pub open spec fn index(self) -> int {
        match self {
            Register16::X => 0,
            Register16::Y => 1,
        }
    }

    /// The register at a position of the opcode map's ordering.
    pub open spec fn at(i: int) -> Register16 {
        if i == 0 {
            Register16::X
        } else {
            Register16::Y
        }
    }

    /// The pointer that names the same register.
    pub open spec fn pointer_spec(self) -> Pointer {
        match self {
            Register16::X => Pointer::X,
            Register16::Y => Pointer::Y,
        }
    }

    /// The pointer that names the same register.
    pub fn pointer(self) -> (p: Pointer)
        ensures
            p == self.pointer_spec(),
    {
        match self {
            Register16::X => Pointer::X,
            Register16::Y => Pointer::Y,
        }
    }
}

impl RegisterPair {
    /// The position of the pair in the opcode map's ordering.
    pub open spec fn index(self) -> int {
        match self {
            RegisterPair::Ab => 0,
            RegisterPair::Cd => 1,
        }
    }

    /// The pair at a position of the opcode map's ordering.
    pub open spec fn at(i: int) -> RegisterPair {
        if i == 0 {
            RegisterPair::Ab
        } else {
            RegisterPair::Cd
        }
    }

    /// The register that holds the pair's high byte.
    pub open spec fn high_spec(self) -> Register8 {
        match self {
            RegisterPair::Ab => Register8::A,
            RegisterPair::Cd => Register8::C,
        }
    }

    /// The register that holds the pair's low byte.
    pub open spec fn low_spec(self) -> Register8 {
        match self {
            RegisterPair::Ab => Register8::B,
            RegisterPair::Cd => Register8::D,
        }
    }

    /// The register that holds the pair's high byte.
    pub fn high(self) -> (r: Register8)
        ensures
            r == self.high_spec(),
    {
        match self {
            RegisterPair::Ab => Register8::A,
            RegisterPair::Cd => Register8::C,
        }
    }

    /// The register that holds the pair's low byte.
    pub fn low(self) -> (r: Register8)
        ensures
            r == self.low_spec(),
    {
        match self {
            RegisterPair::Ab => Register8::B,
            RegisterPair::Cd => Register8::D,
        }
    }
}

impl Condition {
    /// The position of the condition in the opcode map's ordering.
    pub open spec fn index(self) -> int {
        match self {
            Condition::Always => 0,
            Condition::Equal => 1,
            Condition::NotEqual => 2,
            Condition::LessThan => 3,
            Condition::GreaterThan => 4,
            Condition::LessEqual => 5,
            Condition::GreaterEqual => 6,
            Condition::LessThanSigned => 7,
            Condition::GreaterThanSigned => 8,
            Condition::LessEqualSigned => 9,
            Condition::GreaterEqualSigned => 10,
        }
    }

    /// The condition at a position of the opcode map's ordering.
    pub open spec fn at(i: int) -> Condition {
        if i == 0 {
            Condition::Always
        } else if i == 1 {
            Condition::Equal
        } else if i == 2 {
            Condition::NotEqual
        } else if i == 3 {
            Condition::LessThan
        } else if i == 4 {
            Condition::GreaterThan
        } else if i == 5 {
            Condition::LessEqual
        } else if i == 6 {
            Condition::GreaterEqual
        } else if i == 7 {
            Condition::LessThanSigned
        } else if i == 8 {
            Condition::GreaterThanSigned
        } else if i == 9 {
            Condition::LessEqualSigned
        } else {
            Condition::GreaterEqualSigned
        }
    }
}

impl Alu1Op {
    /// The position of the operation among those that write their result
    /// back, in the opcode map's ordering. `Test` has a block of its own.
    pub open spec fn index(self) -> int {
        match self {
            Alu1Op::Shl => 0,
            Alu1Op::Shr => 1,
            Alu1Op::Asr => 2,
            Alu1Op::Not => 3,
            Alu1Op::Neg => 4,
            Alu1Op::Inc => 5,
            Alu1Op::Dec => 6,
            Alu1Op::Test => 7,
        }
    }

    /// The operation at a position of that ordering.
    pub open spec fn at(i: int) -> Alu1Op {
        if i == 0 {
            Alu1Op::Shl
        } else if i == 1 {
            Alu1Op::Shr
        } else if i == 2 {
            Alu1Op::Asr
        } else if i == 3 {
            Alu1Op::Not
        } else if i == 4 {
            Alu1Op::Neg
        } else if i == 5 {
            Alu1Op::Inc
        } else if i == 6 {
            Alu1Op::Dec
        } else {
            Alu1Op::Test
        }
    }
}

impl Alu2Op {
    /// The position of the operation among those that write their result
    /// back, in the opcode map's ordering. `Cmp` has a block of its own.
    pub open spec fn index(self) -> int {
        match self {
            Alu2Op::Addc => 0,
            Alu2Op::Subb => 1,
            Alu2Op::And => 2,
            Alu2Op::Or => 3,
            Alu2Op::Xor => 4,
            Alu2Op::Cmp => 5,
        }
    }

    /// The operation at a position of that ordering.
    pub open spec fn at(i: int) -> Alu2Op {
        if i == 0 {
            Alu2Op::Addc
        } else if i == 1 {
            Alu2Op::Subb
        } else if i == 2 {
            Alu2Op::And
        } else if i == 3 {
            Alu2Op::Or
        } else if i == 4 {
            Alu2Op::Xor
        } else {
            Alu2Op::Cmp
        }
    }
}

} // verus!
