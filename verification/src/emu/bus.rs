//! The bus of the emulated machine.

use crate::arch::bus::{Bus, BusResult, EnvironmentAction, MemoryAddressKind, PhysicalAddress};
use crate::arch::status::PrivilegeLevel;
use crate::isa::{Address, Byte};
use vstd::array::spec_array_update;
use vstd::prelude::*;

verus! {

/// The number of bytes of memory: every sixteen-bit address has one.
pub const MEMORY_SIZE: usize = 0x1_0000;

/// The number of bytes of the frame buffer.
pub const FRAMEBUFFER_SIZE: usize = 0x7000;

/// The first address of memory that can be written. What lies below holds
/// the program and ignores writes.
pub const RAM_START: Address = 0x8000;

/// The I/O address that hands a byte to the host.
pub const PORT_WRITE_BYTE: Address = 0x01;

/// The I/O address that acknowledges an interrupt request.
pub const PORT_ACKNOWLEDGE_IRQ: Address = 0x02;

/// The I/O address that reports a breakpoint.
pub const PORT_BREAK: Address = 0x03;

/// The first I/O address of the frame buffer.
pub const FRAMEBUFFER_START: Address = 0x8000;

/// The last I/O address of the frame buffer.
pub const FRAMEBUFFER_END: Address = 0xEFFF;

/// The bus of the emulated machine: one bank of memory, the frame buffer,
/// and the three interrupt lines. The stall line is never active.
pub struct Bw8Bus {
    pub memory: [Byte; MEMORY_SIZE],
    pub framebuffer: [Byte; FRAMEBUFFER_SIZE],
    pub pending_rst: bool,
    pub pending_nmi: bool,
    pub pending_irq: bool,
}

impl Bw8Bus {
    /// The bus after a write to an I/O address: a write to the port that
    /// acknowledges an interrupt request releases the line, one to the frame
    /// buffer stores the byte, and every other changes nothing.
    pub open spec fn io_written(self, base: Address, data: Byte) -> Bw8Bus {
        if base == PORT_ACKNOWLEDGE_IRQ {
            Bw8Bus { pending_irq: false, ..self }
        } else if FRAMEBUFFER_START <= base <= FRAMEBUFFER_END {
            Bw8Bus {
                framebuffer: spec_array_update(self.framebuffer, base - FRAMEBUFFER_START, data),
                ..self
            }
        } else {
            self
        }
    }

    /// What the bus asks of the host on a write to an I/O address: to take
    /// the byte, to stop at a breakpoint, or nothing.
    pub open spec fn io_action(base: Address, data: Byte) -> Option<EnvironmentAction> {
        if base == PORT_WRITE_BYTE {
            Some(EnvironmentAction::WriteByte(data))
        } else if base == PORT_BREAK {
            Some(EnvironmentAction::Break)
        } else {
            None
        }
    }

    /// A bus whose memory begins with the image and is zero behind it, with
    /// an empty frame buffer and idle lines. The image fits in memory.
    pub fn new(image: &Vec<Byte>) -> (bus: Bw8Bus)
        requires
            image.len() <= MEMORY_SIZE,
        ensures
            forall|i: int| 0 <= i < image.len() ==> bus.memory[i] == image[i],
            forall|i: int| image.len() <= i < MEMORY_SIZE ==> bus.memory[i] == 0,
            forall|i: int| 0 <= i < FRAMEBUFFER_SIZE ==> bus.framebuffer[i] == 0,
            !bus.pending_rst && !bus.pending_nmi && !bus.pending_irq,
    {
        let mut memory: [Byte; MEMORY_SIZE] = [0x00;MEMORY_SIZE];
        let mut idx: usize = 0;
        while idx < image.len()
            invariant
                idx <= image.len() <= MEMORY_SIZE,
                forall|i: int| 0 <= i < idx ==> memory[i] == image[i],
                forall|i: int| idx <= i < MEMORY_SIZE ==> memory[i] == 0,
            decreases image.len() - idx,
        {
            memory[idx] = image[idx];
            idx = idx + 1;
        }
        Bw8Bus {
            memory,
            framebuffer: [0x0;FRAMEBUFFER_SIZE],
            pending_rst: false,
            pending_nmi: false,
            pending_irq: false,
        }
    }

    /// Releases the three interrupt lines.
    pub fn reset(&mut self)
        ensures
            *final(self) == (Bw8Bus {
                pending_rst: false,
                pending_nmi: false,
                pending_irq: false,
                ..*old(self)
            }),
    {
        self.pending_rst = false;
        self.pending_nmi = false;
        self.pending_irq = false;
    }

    /// The byte of memory at an address.
    pub fn inspect_memory(&self, address: Address) -> (data: Byte)
        ensures
            data == self.memory[address as int],
    {
        self.memory[address as usize]
    }

    /// The byte of the frame buffer at an offset, which lies in the frame
    /// buffer.
    pub fn inspect_framebuffer(&self, address: Address) -> (data: Byte)
        requires
            address < FRAMEBUFFER_SIZE,
        ensures
            data == self.framebuffer[address as int],
    {
        self.framebuffer[address as usize]
    }

    /// Drives the reset line.
    pub fn set_reset(&mut self, state: bool)
        ensures
            *final(self) == (Bw8Bus { pending_rst: state, ..*old(self) }),
    {
        self.pending_rst = state
    }

    /// Drives the interrupt request line.
    pub fn set_irq(&mut self, state: bool)
        ensures
            *final(self) == (Bw8Bus { pending_irq: state, ..*old(self) }),
    {
        self.pending_irq = state
    }

    /// Sets or clears the latch of the non-maskable interrupt.
    pub fn set_nmi(&mut self, state: bool)
        ensures
            *final(self) == (Bw8Bus { pending_nmi: state, ..*old(self) }),
    {
        self.pending_nmi = state
    }
}

impl Bus for Bw8Bus {
    /// The byte at the address's base. Bank, privilege and kind play no part.
    open spec fn memory(
        &self,
        privilege: PrivilegeLevel,
        kind: MemoryAddressKind,
        address: PhysicalAddress,
    ) -> Byte {
        self.memory[address.base as int]
    }

    /// The byte is stored if the base lies in the part of memory that can be
    /// written, and dropped if not.
    open spec fn written(
        &self,
        privilege: PrivilegeLevel,
        kind: MemoryAddressKind,
        address: PhysicalAddress,
        data: Byte,
    ) -> Bw8Bus {
        if address.base >= RAM_START {
            Bw8Bus { memory: spec_array_update(self.memory, address.base as int, data), ..*self }
        } else {
            *self
        }
    }

    /// No port answers a read with anything but zero, and a read changes
    /// nothing.
    open spec fn io_read_answers(
        &self,
        privilege: PrivilegeLevel,
        address: PhysicalAddress,
        answer: BusResult<Byte>,
        after: Bw8Bus,
    ) -> bool {
        &&& after == *self
        &&& answer matches BusResult::Data(data)
        &&& data == 0
    }

    /// A write is answered with the action that its port asks for, if it
    /// asks for one, and leaves behind what `io_written` gives.
    open spec fn io_write_answers(
        &self,
        privilege: PrivilegeLevel,
        address: PhysicalAddress,
        data: Byte,
        answer: BusResult<()>,
        after: Bw8Bus,
    ) -> bool {
        &&& after == self.io_written(address.base, data)
        &&& match Bw8Bus::io_action(address.base, data) {
            Some(action) => answer matches BusResult::Action(asked) && asked == action,
            None => answer is Data,
        }
    }

    open spec fn rst_line(&self) -> bool {
        self.pending_rst
    }

    open spec fn nmi_latch(&self) -> bool {
        self.pending_nmi
    }

    open spec fn nmi_probed(&self) -> Bw8Bus {
        Bw8Bus { pending_nmi: false, ..*self }
    }

    open spec fn irq_line(&self) -> bool {
        self.pending_irq
    }

    open spec fn req_line(&self) -> bool {
        false
    }

    proof fn lemma_probe_clears_latch(&self) {
    }

    fn memory_read(
        &self,
        _privilege: PrivilegeLevel,
        _kind: MemoryAddressKind,
        address: PhysicalAddress,
    ) -> (data: Byte) {
        self.memory[address.base as usize]
    }

    fn memory_write(
        &mut self,
        _privilege: PrivilegeLevel,
        _kind: MemoryAddressKind,
        address: PhysicalAddress,
        data: Byte,
    ) {
        if address.base >= RAM_START {
            self.memory[address.base as usize] = data;
        }
        assert(self.memory =~= old(self).written(_privilege, _kind, address, data).memory);
    }

    fn io_read(&mut self, _privilege: PrivilegeLevel, _address: PhysicalAddress) -> (answer:
        BusResult<Byte>) {
        BusResult::Data(0)
    }

    fn io_write(
        &mut self,
        _privilege: PrivilegeLevel,
        address: PhysicalAddress,
        data: Byte,
    ) -> (answer: BusResult<()>) {
        let base = address.base;
        if base == PORT_WRITE_BYTE {
            BusResult::Action(EnvironmentAction::WriteByte(data))
        } else if base == PORT_ACKNOWLEDGE_IRQ {
            self.pending_irq = false;
            BusResult::Data(())
        } else if base == PORT_BREAK {
            BusResult::Action(EnvironmentAction::Break)
        } else if FRAMEBUFFER_START <= base && base <= FRAMEBUFFER_END {
            let offset = base - FRAMEBUFFER_START;
            self.framebuffer[offset as usize] = data;
            assert(self.framebuffer =~= old(self).io_written(base, data).framebuffer);
            BusResult::Data(())
        } else {
            BusResult::Data(())
        }
    }

    fn is_rst_active(&self) -> (active: bool) {
        self.pending_rst
    }

    fn is_nmi_active(&mut self) -> (active: bool) {
        let rv = self.pending_nmi;
        self.pending_nmi = false;
        rv
    }

    fn is_irq_active(&self) -> (active: bool) {
        self.pending_irq
    }

    fn is_req_active(&self) -> (active: bool) {
        false
    }
}

} // verus!
