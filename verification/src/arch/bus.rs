//! The bus: what the processor asks of the world around it.

use crate::arch::status::PrivilegeLevel;
use crate::arch::Nibble;
use crate::isa::{Address, Byte};
use vstd::prelude::*;

verus! {

/// Whether a memory access fetches code or moves data.
#[derive(Clone, Copy, Debug, PartialEq, Eq, Structural)]
pub enum MemoryAddressKind {
    Code,
    Data,
}

/// A twenty-bit physical address: a bank in front of a sixteen-bit address.
#[derive(Clone, Copy, Debug, PartialEq, Eq, Structural)]
pub struct PhysicalAddress {
    pub bank: Nibble,
    pub base: Address,
}

impl PhysicalAddress {
    /// The address with the given bank and base.
    pub fn new(bank: Nibble, base: Address) -> (address: PhysicalAddress)
        ensures
            address == (PhysicalAddress { bank, base }),
    {
        PhysicalAddress { bank, base }
    }
}

/// What a peripheral asks of the host in place of an answer.
#[derive(Clone, Copy, Debug, PartialEq, Eq, Structural)]
pub enum EnvironmentAction {
    /// Stop the run.
    Halt,
    /// Stop the run and report a breakpoint.
    Break,
    /// Hand one byte to the host, then go on.
    WriteByte(Byte),
}

/// The answer to an I/O access: data, or an action for the host.
#[derive(Debug)]
pub enum BusResult<T> {
    Data(T),
    Action(EnvironmentAction),
}

/// What the processor is connected to.
///
/// A memory read and the probes of the reset, interrupt-request and stall
/// lines only look at the bus: each has a function that names what it
/// returns. A memory write and the probe of the non-maskable interrupt change
/// the bus in a way that the bus decides and names. What an I/O access
/// returns and does may depend on the world outside: the bus only says
/// which answers can come.
pub trait Bus: Sized {
    /// The byte that a memory read returns.
    spec fn memory(
        &self,
        privilege: PrivilegeLevel,
        kind: MemoryAddressKind,
        address: PhysicalAddress,
    ) -> Byte;

    /// The bus after a memory write, which it may have ignored.
    spec fn written(
        &self,
        privilege: PrivilegeLevel,
        kind: MemoryAddressKind,
        address: PhysicalAddress,
        data: Byte,
    ) -> Self;

    /// Whether a read from an I/O address can be answered in the given way
    /// and leave the given bus behind.
    spec fn io_read_answers(
        &self,
        privilege: PrivilegeLevel,
        address: PhysicalAddress,
        answer: BusResult<Byte>,
        after: Self,
    ) -> bool;

    /// Whether a write to an I/O address can be answered in the given way
    /// and leave the given bus behind.
    spec fn io_write_answers(
        &self,
        privilege: PrivilegeLevel,
        address: PhysicalAddress,
        data: Byte,
        answer: BusResult<()>,
        after: Self,
    ) -> bool;

    /// Whether the reset line is active.
    spec fn rst_line(&self) -> bool;

    /// Whether a non-maskable interrupt is latched.
    spec fn nmi_latch(&self) -> bool;

    /// The bus after the latch of the non-maskable interrupt was probed.
    spec fn nmi_probed(&self) -> Self;

    /// Whether the interrupt request line is active.
    spec fn irq_line(&self) -> bool;

    /// The probe of the non-maskable interrupt clears its latch: an
    /// interrupt that was latched once is reported once.
    proof fn lemma_probe_clears_latch(&self)
        ensures
            !self.nmi_probed().nmi_latch(),
    ;

    /// Whether the stall line is active.
    spec fn req_line(&self) -> bool;

    /// Reads a byte of memory.
    fn memory_read(
        &self,
        privilege: PrivilegeLevel,
        kind: MemoryAddressKind,
        address: PhysicalAddress,
    ) -> (data: Byte)
        ensures
            data == self.memory(privilege, kind, address),
    ;

    /// Writes a byte of memory. The bus may ignore the write.
    fn memory_write(
        &mut self,
        privilege: PrivilegeLevel,
        kind: MemoryAddressKind,
        address: PhysicalAddress,
        data: Byte,
    )
        ensures
            *final(self) == old(self).written(privilege, kind, address, data),
    ;

    /// Reads a byte from an I/O address.
    fn io_read(&mut self, privilege: PrivilegeLevel, address: PhysicalAddress) -> (answer:
        BusResult<Byte>)
        ensures
            old(self).io_read_answers(privilege, address, answer, *final(self)),
    ;

    /// Writes a byte to an I/O address.
    fn io_write(
        &mut self,
        privilege: PrivilegeLevel,
        address: PhysicalAddress,
        data: Byte,
    ) -> (answer: BusResult<()>)
        ensures
            old(self).io_write_answers(privilege, address, data, answer, *final(self)),
    ;

    /// Whether the reset line is active.
    fn is_rst_active(&self) -> (active: bool)
        ensures
            active == self.rst_line(),
    ;

    /// Whether a non-maskable interrupt is latched. The probe clears the
    /// latch.
    fn is_nmi_active(&mut self) -> (active: bool)
        ensures
            active == old(self).nmi_latch(),
            *final(self) == old(self).nmi_probed(),
    ;

    /// Whether the interrupt request line is active.
    fn is_irq_active(&self) -> (active: bool)
        ensures
            active == self.irq_line(),
    ;

    /// Whether the stall line is active.
    fn is_req_active(&self) -> (active: bool)
        ensures
            active == self.req_line(),
    ;
}

} // verus!
