//! The register file: four eight-bit registers and three pointers.

use crate::isa::{Address, Byte};
use vstd::prelude::*;

pub use crate::isa::instruction::{Pointer, Register16, Register8};

verus! {

/// The general-purpose registers. The stack pointer has a slot of its own,
/// apart from `X` and `Y`.
#[derive(Clone, Copy, Debug, PartialEq, Eq, Structural)]
pub struct RegisterFile {
    pub a: Byte,
    pub b: Byte,
    pub c: Byte,
    pub d: Byte,
    pub x: Address,
    pub y: Address,
    pub sp: Address,
}

impl RegisterFile {
    /// The register file with every register zero.
    pub open spec fn zeroed() -> RegisterFile {
        RegisterFile { a: 0, b: 0, c: 0, d: 0, x: 0, y: 0, sp: 0 }
    }

    /// The value of an eight-bit register.
    pub open spec fn reg8(self, register: Register8) -> Byte {
        match register {
            Register8::A => self.a,
            Register8::B => self.b,
            Register8::C => self.c,
            Register8::D => self.d,
        }
    }

    /// The register file after a write to an eight-bit register.
    pub open spec fn with8(self, register: Register8, value: Byte) -> RegisterFile {
        match register {
            Register8::A => RegisterFile { a: value, ..self },
            Register8::B => RegisterFile { b: value, ..self },
            Register8::C => RegisterFile { c: value, ..self },
            Register8::D => RegisterFile { d: value, ..self },
        }
    }

    /// The value of a pointer.
    pub open spec fn reg16(self, pointer: Pointer) -> Address {
        match pointer {
            Pointer::X => self.x,
            Pointer::Y => self.y,
            Pointer::SP => self.sp,
        }
    }

    /// The register file after a write to a pointer.
    pub open spec fn with16(self, pointer: Pointer, value: Address) -> RegisterFile {
        match pointer {
            Pointer::X => RegisterFile { x: value, ..self },
            Pointer::Y => RegisterFile { y: value, ..self },
            Pointer::SP => RegisterFile { sp: value, ..self },
        }
    }

    /// Reads an eight-bit register.
    pub fn get8(&self, register: Register8) -> (value: Byte)
        ensures
            value == self.reg8(register),
    {
        match register {
            Register8::A => self.a,
            Register8::B => self.b,
            Register8::C => self.c,
            Register8::D => self.d,
        }
    }

    /// Writes an eight-bit register.
    pub fn set8(&mut self, register: Register8, value: Byte)
        ensures
            *final(self) == old(self).with8(register, value),
    {
        match register {
            Register8::A => self.a = value,
            Register8::B => self.b = value,
            Register8::C => self.c = value,
            Register8::D => self.d = value,
        }
    }

    /// Reads a pointer.
    pub fn get16(&self, pointer: Pointer) -> (value: Address)
        ensures
            value == self.reg16(pointer),
    {
        match pointer {
            Pointer::X => self.x,
            Pointer::Y => self.y,
            Pointer::SP => self.sp,
        }
    }

    /// Writes a pointer.
    pub fn set16(&mut self, pointer: Pointer, value: Address)
        ensures
            *final(self) == old(self).with16(pointer, value),
    {
        match pointer {
            Pointer::X => self.x = value,
            Pointer::Y => self.y = value,
            Pointer::SP => self.sp = value,
        }
    }
}

impl Default for RegisterFile {
    /// The register file with every register zero.
    fn default() -> (registers: RegisterFile)
        ensures
            registers == RegisterFile::zeroed(),
    {
        RegisterFile { a: 0, b: 0, c: 0, d: 0, x: 0, y: 0, sp: 0 }
    }
}

} // verus!
