//! The processor: its registers and status flags, the bus through which it
//! reaches memory, I/O and the interrupt lines, and the engine that runs one
//! cycle at a time.

use vstd::prelude::*;

pub mod bus;
pub mod cpu;
pub mod laws;
pub mod register;
pub mod semantics;
pub mod status;
pub mod trace;

pub use crate::isa::{Address, Byte, Instruction, Word};
pub use bus::{Bus, BusResult, EnvironmentAction, MemoryAddressKind, PhysicalAddress};
pub use cpu::{Cpu, CpuState, CycleKind, ExecutionResult, InterruptKind, ReachedBreakpoint};
pub use register::{Pointer, Register16, Register8, RegisterFile};
pub use status::{PrivilegeLevel, Status};

verus! {

/// The test that a byte fits in four bits.
pub struct UpperNibbleClear;

impl UpperNibbleClear {
    /// Whether the upper four bits of the byte are zero.
    pub fn test(x: &u8) -> (clear: bool)
        ensures
            clear == (*x < 16),
    {
        assert((*x >> 4) == 0 <==> *x < 16) by (bit_vector);
        (*x >> 4) == 0
    }
}

/// A four-bit quantity: a byte whose upper four bits are zero.
#[derive(Clone, Copy, Debug, PartialEq, Eq, Structural)]
pub struct Nibble {
    inner: u8,
}

impl View for Nibble {
    type V = u8;

    /// The nibble's value, 0 to 15.
    closed spec fn view(&self) -> u8 {
        self.inner
    }
}

impl Nibble {
    #[verifier::type_invariant]
    spec fn upper_bits_clear(self) -> bool {
        self.inner < 16
    }

    /// The nibble zero.
    pub closed spec fn zero_spec() -> Nibble {
        Nibble { inner: 0 }
    }

    /// The nibble that the low four bits of a byte make.
    pub closed spec fn masked_spec(byte: u8) -> Nibble {
        Nibble { inner: byte % 16 }
    }

    /// The nibble with the given value, if the value fits in four bits.
    pub fn new(value: u8) -> (nibble: Option<Nibble>)
        ensures
            value < 16 ==> nibble.is_some() && nibble.unwrap()@ == value,
            value >= 16 ==> nibble.is_none(),
    {
        if UpperNibbleClear::test(&value) {
            Some(Nibble { inner: value })
        } else {
            None
        }
    }

    /// The nibble zero.
    pub fn zero() -> (nibble: Nibble)
        ensures
            nibble == Nibble::zero_spec(),
            nibble@ == 0,
    {
        Nibble { inner: 0 }
    }

    /// The nibble that the low four bits of a byte make.
    pub fn masked(byte: u8) -> (nibble: Nibble)
        ensures
            nibble == Nibble::masked_spec(byte),
            nibble@ == byte % 16,
    {
        let low = byte & 0x0F;
        assert(low == byte % 16) by (bit_vector)
            requires
                low == byte & 0x0F,
        ;
        Nibble { inner: low }
    }

    /// The nibble's value as a byte; its upper four bits are zero.
    pub fn as_inner(&self) -> (value: u8)
        ensures
            value == self@,
            value < 16,
    {
        proof {
            use_type_invariant(self);
        }
        self.inner
    }

    /// The value of the zero nibble is 0, and that of a masked byte is the
    /// byte's low four bits.
    pub proof fn lemma_values(byte: u8)
        ensures
            Nibble::zero_spec()@ == 0,
            Nibble::masked_spec(byte)@ == byte % 16,
            Nibble::masked_spec(0) == Nibble::zero_spec(),
    {
    }
}

/// The names of the eight-bit registers that a debugger shows.
#[derive(Clone, Copy, Debug, PartialEq, Eq, Structural)]
pub enum Architectural8 {
    A,
    B,
    C,
    D,
}

/// The names of the sixteen-bit registers that a debugger shows.
#[derive(Clone, Copy, Debug, PartialEq, Eq, Structural)]
pub enum Architectural16 {
    PC,
    SP,
    X,
    Y,
}

} // verus!
