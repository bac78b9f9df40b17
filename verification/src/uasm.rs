//! The fields of a microcode control word: what is put on each bus of the
//! processor in one step, and what the arithmetic unit does.

use vstd::prelude::*;

verus! {

/// What drives the data bus.
#[derive(Clone, Copy, Debug, PartialEq, Eq, Structural)]
pub enum DataBusAssert {
    A,
    B,
    C,
    D,
    /// A memory read.
    Memory,
    Alu,
    Bank,
    Status,
    Temp1,
    Temp2,
}

/// What takes its value from the data bus.
#[derive(Clone, Copy, Debug, PartialEq, Eq, Structural)]
pub enum DataBusLoad {
    A,
    B,
    C,
    D,
    /// A memory write.
    Memory,
    Bank,
    Status,
    Temp1,
    Temp2,
}

/// What drives the address bus.
#[derive(Clone, Copy, Debug, PartialEq, Eq, Structural)]
pub enum AddressBusAssert {
    ProgramCounter,
    StackPointer,
    X,
    Y,
    IOAddress,
}

/// What the arithmetic unit does.
#[derive(Clone, Copy, Debug, PartialEq, Eq, Structural)]
pub enum AluOperation {
    Nop,
    Add,
    Sub,
    And,
    Or,
    Xor,
    Not,
    Shl,
    Shr,
    Asr,
}

/// Which register is copied into which over the transfer bus: the target
/// first, then the source.
#[allow(non_camel_case_types)]
#[derive(Clone, Copy, Debug, PartialEq, Eq, Structural)]
pub enum TransferBusAssert {
    A_A,
    A_B,
    A_C,
    A_D,
    B_A,
    B_B,
    B_C,
    B_D,
}

/// One word of microcode.
#[derive(Clone, Copy, Debug, PartialEq, Eq, Structural)]
pub struct ControlWord {
    pub data_assert: DataBusAssert,
    pub data_load: DataBusLoad,
    pub address_assert: AddressBusAssert,
    pub alu_op: AluOperation,
    pub xfer_assert: TransferBusAssert,
}

} // verus!
