//! The execution engine: one cycle at a time, against a bus.

use crate::arch::bus::{Bus, BusResult, EnvironmentAction, MemoryAddressKind, PhysicalAddress};
use crate::arch::register::RegisterFile;
use crate::arch::semantics::{
    alu1_spec, alu2_spec, bus_before, cycled, effective_bank_spec, ends_run, executed,
    is_history, is_outcome, lemma_history_grows, lemma_port_free_run_grows, next_kind,
    offset_address, probed_bus, retired_in, retires, state_before, wrap_byte, wrap_word,
    written_in, CycleRecord, IRQ_VECTOR, NMI_VECTOR, RST_VECTOR, SWI_VECTOR,
};
use crate::arch::status::{PrivilegeLevel, Status};
use crate::arch::trace::Trace;
use crate::arch::{Architectural16, Architectural8, Nibble};
use crate::isa::instruction::{
    Alu1Op, Alu2Op, Alu2OpMode, Condition, IOMode, Instruction, JumpMode, LeaMode, Memory16Mode,
    Memory8Mode, Pointer, Register16, Register8, RegisterPair,
};
use crate::isa::codec::decode_operand;
use crate::isa::opcode;
use crate::isa::opcode::{Opcode, OperandShape};
use crate::isa::{high_byte, low_byte, word_of, Address, Byte, Word};
use vstd::pervasive::unreached;
use vstd::prelude::*;

verus! {

/// Whether a run ended at a breakpoint.
#[derive(Clone, Copy, Debug, PartialEq, Eq, Structural)]
pub enum ReachedBreakpoint {
    Did,
    DidNot,
}

/// How an instruction ended: retired, or retired with an action that the
/// bus asked of the host during a port access.
#[derive(Clone, Copy, Debug, PartialEq, Eq, Structural)]
pub enum ExecutionResult {
    Instruction(Instruction),
    Action(Instruction, EnvironmentAction),
}

impl ExecutionResult {
    /// The instruction that was executed.
    pub open spec fn instruction(self) -> Instruction {
        match self {
            ExecutionResult::Instruction(inst) => inst,
            ExecutionResult::Action(inst, _) => inst,
        }
    }
}

/// The interrupts, the non-maskable one first. Reset stands above them all.
#[derive(Clone, Copy, Debug, PartialEq, Eq, Structural)]
pub enum InterruptKind {
    Nmi,
    Irq,
    Swi,
}

/// What the processor does in a cycle.
#[derive(Clone, Copy, Debug, PartialEq, Eq, Structural)]
pub enum CycleKind {
    Reset,
    Instruction,
    BusStall,
    Interrupt(InterruptKind),
}

/// The state of the processor.
#[derive(Clone, Copy, Debug, PartialEq, Eq, Structural)]
pub struct CpuState {
    pub bank_register: Nibble,
    pub program_counter: Address,
    pub registers: RegisterFile,
    pub status: Status,
}

/// The high and the low byte of a word.
pub fn split_bytes(word: Address) -> (bytes: (Byte, Byte))
    ensures
        bytes.0 == high_byte(word),
        bytes.1 == low_byte(word),
{
    let low = (word & 0x00FF) as u8;
    let high = ((word & 0xFF00) >> 8) as u8;
    assert(low == low_byte(word)) by (bit_vector)
        requires
            low == (word & 0x00FF) as u8,
    ;
    assert(high == high_byte(word)) by (bit_vector)
        requires
            high == ((word & 0xFF00) >> 8) as u8,
    ;
    (high, low)
}

/// The word made of a high and a low byte.
pub fn concatenate(high: Byte, low: Byte) -> (word: Address)
    ensures
        word == word_of(high, low),
{
    let word = (high as Address) << 8 | (low as Address);
    assert(word == word_of(high, low)) by (bit_vector)
        requires
            word == (high as u16) << 8 | (low as u16),
    ;
    word
}

/// The address moved by the offset, which is read as a signed number: an
/// offset of 128 or more moves the address down. The sum wraps.
pub fn address_with_offset(address: Address, offset: Byte) -> (moved: Address)
    ensures
        moved == offset_address(address, offset),
{
    let sum: u32 = if offset < 128 {
        address as u32 + offset as u32
    } else {
        address as u32 + 0xFF00 + offset as u32
    };
    (sum % 0x1_0000) as u16
}

/// The byte plus one; 0xFF gives 0x00.
pub fn increment_byte(byte: Byte) -> (next: Byte)
    ensures
        next == wrap_byte(byte + 1),
        byte == 0xFF ==> next == 0x00,
{
    if byte == 0xFF {
        0x00
    } else {
        byte + 1
    }
}

/// The byte minus one; 0x00 gives 0xFF.
pub fn decrement_byte(byte: Byte) -> (previous: Byte)
    ensures
        previous == wrap_byte(byte - 1),
        byte == 0x00 ==> previous == 0xFF,
{
    if byte == 0x00 {
        0xFF
    } else {
        byte - 1
    }
}

/// The word plus one; 0xFFFF gives 0x0000.
pub fn increment_word(word: Address) -> (next: Address)
    ensures
        next == wrap_word(word + 1),
        word == 0xFFFF ==> next == 0x0000,
{
    if word == 0xFFFF {
        0x0000
    } else {
        word + 1
    }
}

/// The word minus one; 0x0000 gives 0xFFFF.
pub fn decrement_word(word: Address) -> (previous: Address)
    ensures
        previous == wrap_word(word - 1),
        word == 0x0000 ==> previous == 0xFFFF,
{
    if word == 0x0000 {
        0xFFFF
    } else {
        word - 1
    }
}

/// The distance between two bytes: the larger minus the smaller. It is zero
/// exactly where the two are equal.
pub fn wrapping_subtract(left: Byte, right: Byte) -> (distance: Byte)
    ensures
        distance == alu2_spec(Alu2Op::Cmp, left, right, false),
        distance == 0 <==> left == right,
{
    if right > left {
        right - left
    } else {
        left - right
    }
}

/// The bank that the processor puts in front of an address.
pub fn effective_bank(
    privilege: PrivilegeLevel,
    kind: MemoryAddressKind,
    bank_enable: bool,
    bank_register: Nibble,
) -> (bank: Nibble)
    ensures
        bank == effective_bank_spec(privilege, kind, bank_enable, bank_register),
{
    let kernel_bank = Nibble::zero();
    match privilege {
        PrivilegeLevel::User => bank_register,
        PrivilegeLevel::Kernel => match kind {
            MemoryAddressKind::Code => kernel_bank,
            MemoryAddressKind::Data => if bank_enable {
                bank_register
            } else {
                kernel_bank
            },
        },
    }
}

/// The result of an operation on two operands; sums and differences wrap.
pub fn alu2(op: Alu2Op, left: Byte, right: Byte, carry: bool) -> (result: Byte)
    ensures
        result == alu2_spec(op, left, right, carry),
{
    match op {
        Alu2Op::Addc => {
            let carry_in: u16 = if carry {
                1
            } else {
                0
            };
            ((left as u16 + right as u16 + carry_in) % 0x100) as u8
        },
        Alu2Op::Subb => {
            let borrow_in: u16 = if carry {
                0
            } else {
                1
            };
            ((0x100 + left as u16 - right as u16 - borrow_in) % 0x100) as u8
        },
        Alu2Op::And => left & right,
        Alu2Op::Or => left | right,
        Alu2Op::Xor => left ^ right,
        Alu2Op::Cmp => wrapping_subtract(left, right),
    }
}

/// The result of an operation on one operand.
pub fn alu1(op: Alu1Op, operand: Byte) -> (result: Byte)
    ensures
        result == alu1_spec(op, operand),
{
    match op {
        Alu1Op::Shl | Alu1Op::Shr => ((operand as u16 * 2) % 0x100) as u8,
        Alu1Op::Asr => {
            let result = (operand >> 1) | (operand & 0x80);
            assert(result == (operand / 2 + if operand >= 128 {
                128int
            } else {
                0int
            }) as u8) by (bit_vector)
                requires
                    result == (operand >> 1) | (operand & 0x80),
            ;
            result
        },
        Alu1Op::Not => {
            let result = !operand;
            assert(result == (255 - operand) as u8) by (bit_vector)
                requires
                    result == !operand,
            ;
            result
        },
        Alu1Op::Neg => ((0x100 - operand as u16) % 0x100) as u8,
        Alu1Op::Inc => increment_byte(operand),
        Alu1Op::Dec => decrement_byte(operand),
        Alu1Op::Test => {
            let result = operand & operand;
            assert(result == operand) by (bit_vector)
                requires
                    result == operand & operand,
            ;
            result
        },
    }
}

impl CpuState {
    /// The state after a reset.
    pub fn new() -> (state: CpuState)
        ensures
            state == CpuState::reset_state(),
    {
        CpuState {
            bank_register: Nibble::zero(),
            program_counter: 0,
            registers: RegisterFile::default(),
            status: Status::default(),
        }
    }

    /// The status flags.
    pub fn status(&self) -> (status: &Status)
        ensures
            *status == self.status,
    {
        &self.status
    }

    /// The bank register.
    pub fn br(&self) -> (bank: &Nibble)
        ensures
            *bank == self.bank_register,
    {
        &self.bank_register
    }

    /// Reads an eight-bit register by the name a debugger shows.
    pub fn get8(&self, register: Architectural8) -> (value: Byte)
        ensures
            value == match register {
                Architectural8::A => self.registers.a,
                Architectural8::B => self.registers.b,
                Architectural8::C => self.registers.c,
                Architectural8::D => self.registers.d,
            },
    {
        match register {
            Architectural8::A => self.registers.get8(Register8::A),
            Architectural8::B => self.registers.get8(Register8::B),
            Architectural8::C => self.registers.get8(Register8::C),
            Architectural8::D => self.registers.get8(Register8::D),
        }
    }

    /// Writes an eight-bit register by the name a debugger shows.
    pub fn set8(&mut self, register: Architectural8, value: Byte)
        ensures
            *final(self) == old(self).with8(
                match register {
                    Architectural8::A => Register8::A,
                    Architectural8::B => Register8::B,
                    Architectural8::C => Register8::C,
                    Architectural8::D => Register8::D,
                },
                value,
            ),
    {
        match register {
            Architectural8::A => self.registers.set8(Register8::A, value),
            Architectural8::B => self.registers.set8(Register8::B, value),
            Architectural8::C => self.registers.set8(Register8::C, value),
            Architectural8::D => self.registers.set8(Register8::D, value),
        }
    }

    /// Reads a sixteen-bit register by the name a debugger shows.
    pub fn get16(&self, register: Architectural16) -> (value: Word)
        ensures
            value == match register {
                Architectural16::PC => self.program_counter,
                Architectural16::SP => self.registers.sp,
                Architectural16::X => self.registers.x,
                Architectural16::Y => self.registers.y,
            },
    {
        match register {
            Architectural16::PC => self.program_counter,
            Architectural16::SP => self.registers.get16(Pointer::SP),
            Architectural16::X => self.registers.get16(Pointer::X),
            Architectural16::Y => self.registers.get16(Pointer::Y),
        }
    }

    /// Writes a sixteen-bit register by the name a debugger shows.
    pub fn set16(&mut self, register: Architectural16, value: Word)
        ensures
            *final(self) == match register {
                Architectural16::PC => old(self).with_pc(value),
                Architectural16::SP => old(self).with16(Pointer::SP, value),
                Architectural16::X => old(self).with16(Pointer::X, value),
                Architectural16::Y => old(self).with16(Pointer::Y, value),
            },
    {
        match register {
            Architectural16::PC => self.program_counter = value,
            Architectural16::SP => self.registers.set16(Pointer::SP, value),
            Architectural16::X => self.registers.set16(Pointer::X, value),
            Architectural16::Y => self.registers.set16(Pointer::Y, value),
        }
    }
}

impl CpuState {
    /// The address that an eight-bit memory mode names.
    pub fn memory8_address(&self, mode: Memory8Mode) -> (address: Address)
        ensures
            address == self.memory8_address_spec(mode),
    {
        match mode {
            Memory8Mode::Absolute(address) => address,
            Memory8Mode::ConstantOffset(pointer, offset) => address_with_offset(
                self.registers.get16(pointer),
                offset,
            ),
            Memory8Mode::RegisterOffset(pointer, offset) => address_with_offset(
                self.registers.get16(pointer),
                self.registers.get8(offset),
            ),
        }
    }

    /// The address of the low byte that a sixteen-bit memory mode names.
    pub fn memory16_address(&self, mode: Memory16Mode) -> (address: Address)
        ensures
            address == self.memory16_address_spec(mode),
    {
        match mode {
            Memory16Mode::Absolute(address) => address,
            Memory16Mode::ConstantOffset(pointer, offset) => address_with_offset(
                self.registers.get16(pointer),
                offset,
            ),
        }
    }

    /// The address that an I/O mode names.
    pub fn io_address(&self, mode: IOMode) -> (address: Address)
        ensures
            address == self.io_address_spec(mode),
    {
        match mode {
            IOMode::Port(port) => port as Address,
            IOMode::ConstantOffset(base, offset) => address_with_offset(
                self.registers.get16(base.pointer()),
                offset,
            ),
            IOMode::RegisterOffset(base, offset) => address_with_offset(
                self.registers.get16(base.pointer()),
                self.registers.get8(offset),
            ),
        }
    }

    /// The address that a jump mode names, once the program counter is
    /// behind the jump.
    pub fn jump_target(&self, mode: JumpMode) -> (address: Address)
        ensures
            address == self.jump_target_spec(mode),
    {
        match mode {
            JumpMode::Relative(offset) => address_with_offset(self.program_counter, offset),
            JumpMode::Absolute(address) => address,
            JumpMode::Indirect(base, offset) => address_with_offset(
                self.registers.get16(base.pointer()),
                offset,
            ),
        }
    }

    /// Sets or clears one of the flags that have an instruction of their own.
    fn set_flag(&mut self, instruction: Instruction)
        requires
            instruction is SetCarry || instruction is ClearCarry
                || instruction is SetInterruptEnable || instruction is ClearInterruptEnable
                || instruction is SetBankEnable || instruction is ClearBankEnable,
        ensures
            *final(self) == old(self).retired_alone(instruction),
    {
        match instruction {
            Instruction::SetCarry => self.status.carry = true,
            Instruction::ClearCarry => self.status.carry = false,
            Instruction::SetInterruptEnable => self.status.irq_enable = true,
            Instruction::ClearInterruptEnable => self.status.irq_enable = false,
            Instruction::SetBankEnable => self.status.bank_enable = true,
            Instruction::ClearBankEnable => self.status.bank_enable = false,
            _ => {},
        }
    }

    /// Copies the bank register into `A`.
    fn read_bank_register(&mut self)
        ensures
            *final(self) == old(self).retired_alone(Instruction::ReadBankRegister),
    {
        let bank = self.bank_register.as_inner();
        self.registers.set8(Register8::A, bank);
    }

    /// Copies the low four bits of `A` into the bank register.
    fn write_bank_register(&mut self)
        ensures
            *final(self) == old(self).retired_alone(Instruction::WriteBankRegister),
    {
        self.bank_register = Nibble::masked(self.registers.get8(Register8::A));
    }

    /// Copies one eight-bit register into another.
    fn move8(&mut self, dst: Register8, src: Register8)
        ensures
            *final(self) == old(self).retired_alone(Instruction::Move8(dst, src)),
    {
        let value = self.registers.get8(src);
        self.registers.set8(dst, value);
    }

    /// Copies the stack pointer into `X`.
    fn read_stack_pointer(&mut self)
        ensures
            *final(self) == old(self).retired_alone(Instruction::ReadStackPointer),
    {
        let value = self.registers.get16(Pointer::SP);
        self.registers.set16(Pointer::X, value);
    }

    /// Copies `X` into the stack pointer.
    fn write_stack_pointer(&mut self)
        ensures
            *final(self) == old(self).retired_alone(Instruction::WriteStackPointer),
    {
        let value = self.registers.get16(Pointer::X);
        self.registers.set16(Pointer::SP, value);
    }

    /// Copies one sixteen-bit register into another.
    fn move16(&mut self, dst: Register16, src: Register16)
        ensures
            *final(self) == old(self).retired_alone(Instruction::Move16(dst, src)),
    {
        let value = self.registers.get16(src.pointer());
        self.registers.set16(dst.pointer(), value);
    }

    /// Copies a register pair into a sixteen-bit register.
    fn move16_from_pair(&mut self, dst: Register16, src: RegisterPair)
        ensures
            *final(self) == old(self).retired_alone(Instruction::Move16FromPair(dst, src)),
    {
        let pair = concatenate(self.registers.get8(src.high()), self.registers.get8(src.low()));
        self.registers.set16(dst.pointer(), pair);
    }

    /// Copies a sixteen-bit register into a register pair.
    fn move16_to_pair(&mut self, dst: RegisterPair, src: Register16)
        ensures
            *final(self) == old(self).retired_alone(Instruction::Move16ToPair(dst, src)),
    {
        let (high, low) = split_bytes(self.registers.get16(src.pointer()));
        self.registers.set8(dst.high(), high);
        self.registers.set8(dst.low(), low);
    }

    /// Moves a pointer by a signed offset.
    fn lea(&mut self, pointer: Pointer, mode: LeaMode)
        ensures
            *final(self) == old(self).retired_alone(Instruction::Lea(pointer, mode)),
    {
        let offset = match mode {
            LeaMode::Constant(offset) => offset,
            LeaMode::Register(register) => self.registers.get8(register),
        };
        let moved = address_with_offset(self.registers.get16(pointer), offset);
        self.registers.set16(pointer, moved);
    }

    /// Adds one to a sixteen-bit register.
    fn inc16(&mut self, dst: Register16)
        ensures
            *final(self) == old(self).retired_alone(Instruction::Inc16(dst)),
    {
        let next = increment_word(self.registers.get16(dst.pointer()));
        self.registers.set16(dst.pointer(), next);
    }

    /// Subtracts one from a sixteen-bit register.
    fn dec16(&mut self, dst: Register16)
        ensures
            *final(self) == old(self).retired_alone(Instruction::Dec16(dst)),
    {
        let previous = decrement_word(self.registers.get16(dst.pointer()));
        self.registers.set16(dst.pointer(), previous);
    }

    /// Works on two operands and sets the zero flag from the result. A
    /// comparison keeps the result to itself.
    fn alu2(&mut self, op: Alu2Op, left: Register8, right: Alu2OpMode)
        ensures
            *final(self) == old(self).retired_alone(Instruction::Alu2(op, left, right)),
    {
        let lhs = self.registers.get8(left);
        let rhs = match right {
            Alu2OpMode::Constant(value) => value,
            Alu2OpMode::Register(register) => self.registers.get8(register),
        };
        let result = alu2(op, lhs, rhs, self.status.carry);
        if op != Alu2Op::Cmp {
            self.registers.set8(left, result);
        }
        self.status.zero = result == 0;
    }

    /// Works on one operand. A test keeps the result to itself and sets the
    /// zero flag from it; the other operations leave the flags alone.
    fn alu1(&mut self, op: Alu1Op, operand: Register8)
        ensures
            *final(self) == old(self).retired_alone(Instruction::Alu1(op, operand)),
    {
        let result = alu1(op, self.registers.get8(operand));
        if op != Alu1Op::Test {
            self.registers.set8(operand, result);
        } else {
            self.status.zero = result == 0;
        }
    }

    /// Jumps if the condition is met.
    fn jmp(&mut self, condition: Condition, mode: JumpMode)
        ensures
            *final(self) == old(self).retired_alone(Instruction::Jmp(condition, mode)),
    {
        let target = self.jump_target(mode);
        if self.status.condition(condition) {
            self.program_counter = target;
        }
    }

    /// Executes a fetched instruction that works on the registers and flags
    /// alone.
    pub fn execute_on_registers(&mut self, instruction: Instruction)
        requires
            !instruction.is_port_access() && !instruction.is_memory_access(),
        ensures
            *final(self) == old(self).retired_alone(instruction),
    {
        match instruction {
            Instruction::Nop => {},
            Instruction::SetCarry
            | Instruction::ClearCarry
            | Instruction::SetInterruptEnable
            | Instruction::ClearInterruptEnable
            | Instruction::SetBankEnable
            | Instruction::ClearBankEnable => self.set_flag(instruction),
            Instruction::ReadBankRegister => self.read_bank_register(),
            Instruction::WriteBankRegister => self.write_bank_register(),
            Instruction::Move8(dst, src) => self.move8(dst, src),
            Instruction::Load8Immediate(dst, value) => self.registers.set8(dst, value),
            Instruction::ReadStackPointer => self.read_stack_pointer(),
            Instruction::WriteStackPointer => self.write_stack_pointer(),
            Instruction::Move16(dst, src) => self.move16(dst, src),
            Instruction::Move16FromPair(dst, src) => self.move16_from_pair(dst, src),
            Instruction::Move16ToPair(dst, src) => self.move16_to_pair(dst, src),
            Instruction::Load16Immediate(dst, word) => {
                self.registers.set16(dst.pointer(), word)
            },
            Instruction::Lea(pointer, mode) => self.lea(pointer, mode),
            Instruction::Inc16(dst) => self.inc16(dst),
            Instruction::Dec16(dst) => self.dec16(dst),
            Instruction::Alu2(op, left, right) => self.alu2(op, left, right),
            Instruction::Alu1(op, operand) => self.alu1(op, operand),
            Instruction::Jmp(condition, mode) => self.jmp(condition, mode),
            _ => {},
        }
    }
}

impl CpuState {
    /// Resets the processor.
    pub fn reset(&mut self)
        ensures
            *final(self) == CpuState::reset_state(),
    {
        self.bank_register = Nibble::zero();
        self.program_counter = RST_VECTOR;
        self.registers = RegisterFile::default();
        self.status = Status::default();
    }

    /// Enters an interrupt: pushes the program counter and the status,
    /// disables interrupt requests, enters kernel mode and jumps to the
    /// kind's vector.
    pub fn service_interrupt<B: Bus>(&mut self, bus: &mut B, kind: InterruptKind)
        ensures
            *final(self) == old(self).interrupted(kind),
            *final(bus) == old(self).interrupt_bus(*old(bus)),
    {
        let pc = self.program_counter;
        self.push_word(bus, pc);
        let status = self.status.to_byte();
        self.push_byte(bus, status);

        self.status.irq_enable = false;
        self.status.privilege_level = PrivilegeLevel::Kernel;

        if kind == InterruptKind::Nmi {
            self.status.nmi_active = true;
        }
        self.program_counter = match kind {
            InterruptKind::Irq => IRQ_VECTOR,
            InterruptKind::Nmi => NMI_VECTOR,
            InterruptKind::Swi => SWI_VECTOR,
        };
    }

    /// Pushes a byte: writes it where the stack pointer stands, then moves
    /// the stack pointer down by one.
    pub fn push_byte<B: Bus>(&mut self, bus: &mut B, data: Byte)
        ensures
            *final(self) == old(self).after_push(),
            *final(bus) == old(self).push_bus(*old(bus), data),
    {
        let sp = self.registers.get16(Pointer::SP);
        self.memory_write(bus, MemoryAddressKind::Data, sp, data);
        self.registers.set16(Pointer::SP, decrement_word(sp));
    }

    /// Pops a byte: moves the stack pointer up by one, then reads where it
    /// stands.
    pub fn pop_byte<B: Bus>(&mut self, bus: &B) -> (data: Byte)
        ensures
            *final(self) == old(self).after_pop(),
            data == old(self).popped(*bus),
    {
        let sp = self.registers.get16(Pointer::SP);
        let top = increment_word(sp);
        self.registers.set16(Pointer::SP, top);
        self.memory_read(bus, MemoryAddressKind::Data, top)
    }

    /// Pushes a word, the high byte first.
    pub fn push_word<B: Bus>(&mut self, bus: &mut B, data: Address)
        ensures
            *final(self) == old(self).after_push().after_push(),
            *final(bus) == old(self).push_word_bus(*old(bus), data),
    {
        let (high, low) = split_bytes(data);
        self.push_byte(bus, high);
        self.push_byte(bus, low);
    }

    /// Pops a word, the low byte first.
    pub fn pop_word<B: Bus>(&mut self, bus: &B) -> (data: Address)
        ensures
            *final(self) == old(self).after_pop().after_pop(),
            data == old(self).popped_word(*bus),
    {
        let low = self.pop_byte(bus);
        let high = self.pop_byte(bus);
        concatenate(high, low)
    }

    /// Reads a byte of memory at a virtual address.
    pub fn memory_read<B: Bus>(&self, bus: &B, kind: MemoryAddressKind, address: Address) -> (data:
        Byte)
        ensures
            data == self.peek(*bus, kind, address),
    {
        let bank = self.effective_bank_address(kind);
        bus.memory_read(self.status.privilege_level, kind, PhysicalAddress::new(bank, address))
    }

    /// Writes a byte of memory at a virtual address.
    pub fn memory_write<B: Bus>(
        &mut self,
        bus: &mut B,
        kind: MemoryAddressKind,
        address: Address,
        data: Byte,
    )
        ensures
            *final(self) == *old(self),
            *final(bus) == old(self).poke(*old(bus), kind, address, data),
    {
        let bank = self.effective_bank_address(kind);
        bus.memory_write(
            self.status.privilege_level,
            kind,
            PhysicalAddress::new(bank, address),
            data,
        )
    }

    /// Reads a byte from an I/O address, under the bank of a data access.
    pub fn io_read<B: Bus>(&mut self, bus: &mut B, address: Address) -> (result: BusResult<Byte>)
        ensures
            *final(self) == *old(self),
            old(bus).io_read_answers(
                old(self).status.privilege_level,
                old(self).physical(MemoryAddressKind::Data, address),
                result,
                *final(bus),
            ),
    {
        let bank = self.effective_bank_address(MemoryAddressKind::Data);
        bus.io_read(self.status.privilege_level, PhysicalAddress::new(bank, address))
    }

    /// Writes a byte to an I/O address, under the bank of a data access.
    pub fn io_write<B: Bus>(&mut self, bus: &mut B, address: Address, data: Byte) -> (result:
        BusResult<()>)
        ensures
            *final(self) == *old(self),
            old(bus).io_write_answers(
                old(self).status.privilege_level,
                old(self).physical(MemoryAddressKind::Data, address),
                data,
                result,
                *final(bus),
            ),
    {
        let bank = self.effective_bank_address(MemoryAddressKind::Data);
        bus.io_write(
            self.status.privilege_level,
            PhysicalAddress::new(bank, address),
            data,
        )
    }

    /// The bank in front of an access of the given kind.
    pub fn effective_bank_address(&self, kind: MemoryAddressKind) -> (bank: Nibble)
        ensures
            bank == self.bank(kind),
    {
        effective_bank(
            self.status.privilege_level,
            kind,
            self.status.bank_enable,
            self.bank_register,
        )
    }

    /// Reads the byte of code at the program counter and moves the program
    /// counter behind it.
    pub fn fetch_byte<B: Bus>(&mut self, bus: &B) -> (data: Byte)
        ensures
            data == old(self).code_at(*bus, 0),
            *final(self) == old(self).with_pc(
                wrap_word(old(self).program_counter + 1),
            ),
    {
        let address = self.program_counter;
        self.program_counter = increment_word(self.program_counter);
        self.memory_read(bus, MemoryAddressKind::Code, address)
    }

    /// Reads the word of code at the program counter, low byte first, and
    /// moves the program counter behind it.
    pub fn fetch_word<B: Bus>(&mut self, bus: &B) -> (data: Address)
        ensures
            data == word_of(
                old(self).code_at(*bus, 1),
                old(self).code_at(*bus, 0),
            ),
            *final(self) == old(self).with_pc(
                wrap_word(old(self).program_counter + 2),
            ),
    {
        let first = self.program_counter;
        let low = self.memory_read(bus, MemoryAddressKind::Code, first);
        let second = increment_word(first);
        self.program_counter = second;

        let high = self.memory_read(bus, MemoryAddressKind::Code, second);
        self.program_counter = increment_word(second);

        concatenate(high, low)
    }

    /// Probes the lines of the bus in the order of their priority and says
    /// what the next cycle does. The latch of the non-maskable interrupt is
    /// probed, and so cleared, unless the reset line is active.
    pub fn next_cycle_kind<B: Bus>(&mut self, bus: &mut B) -> (kind: CycleKind)
        ensures
            *final(self) == *old(self),
            *final(bus) == probed_bus(*old(bus)),
            kind == next_kind(*old(bus)),
    {
        if bus.is_rst_active() {
            return CycleKind::Reset;
        }
        if bus.is_nmi_active() {
            return CycleKind::Interrupt(InterruptKind::Nmi);
        }
        if bus.is_irq_active() {
            return CycleKind::Interrupt(InterruptKind::Irq);
        }
        if bus.is_req_active() {
            return CycleKind::BusStall;
        }
        CycleKind::Instruction
    }
}

impl CpuState {
    /// Reads the operand that follows an opcode and gives the instruction
    /// that the two stand for.
    fn decode_operand<B: Bus>(&mut self, bus: &B, code: Opcode) -> (inst: Instruction)
        requires
            !code.is_escape(),
        ensures
            *final(self) == old(self).with_pc(
                wrap_word(old(self).program_counter + code.shape_spec().width()),
            ),
            Some((inst, code.shape_spec().width())) == decode_operand(
                code,
                seq![
                    old(self).code_at(*bus, 0),
                    old(self).code_at(*bus, 1),
                ],
            ),
    {
        let mut byte: Byte = 0;
        let mut word: Word = 0;
        match code.shape() {
            OperandShape::Bare => {},
            OperandShape::Byte => {
                byte = self.fetch_byte(bus);
            },
            OperandShape::Word => {
                word = self.fetch_word(bus);
            },
        }
        match code.instruction(byte, word) {
            Some(inst) => inst,
            None => unreached(),
        }
    }

    /// Fetches the instruction at the program counter and moves the program
    /// counter behind it.
    pub fn decode<B: Bus>(&mut self, bus: &B) -> (inst: Instruction)
        ensures
            inst == old(self).next_instruction(*bus),
            *final(self) == old(self).after_fetch(*bus),
    {
        let ghost window = self.code_window(*bus);
        let ghost start = *self;
        let first = self.fetch_byte(bus);
        if first == opcode::EXT {
            let inst = self.decode_extended(bus);
            proof {
                let second = start.code_at(*bus, 1);
                let rest = seq![start.code_at(*bus, 2), start.code_at(*bus, 3)];
                assert(window.skip(2) =~= rest);
                assert(decode_operand(Opcode::Extended(second), rest) == decode_operand(
                    Opcode::Extended(second),
                    window.skip(2),
                ));
            }
            return inst;
        }
        let inst = self.decode_operand(bus, Opcode::Normal(first));
        proof {
            let rest = seq![start.code_at(*bus, 1), start.code_at(*bus, 2)];
            assert(window.skip(1) =~= rest.push(start.code_at(*bus, 3)));
            assert(decode_operand(Opcode::Normal(first), rest) == decode_operand(
                Opcode::Normal(first),
                window.skip(1),
            ));
        }
        inst
    }

    /// Fetches the rest of an instruction whose escape byte was read.
    pub fn decode_extended<B: Bus>(&mut self, bus: &B) -> (inst: Instruction)
        ensures
            Some(
                (
                    inst,
                    Opcode::Extended(old(self).code_at(*bus, 0)).shape_spec().width(),
                ),
            ) == decode_operand(
                Opcode::Extended(old(self).code_at(*bus, 0)),
                seq![
                    old(self).code_at(*bus, 1),
                    old(self).code_at(*bus, 2),
                ],
            ),
            *final(self) == old(self).with_pc(
                wrap_word(
                    old(self).program_counter + 1 + Opcode::Extended(
                        old(self).code_at(*bus, 0),
                    ).shape_spec().width(),
                ),
            ),
    {
        let code = Opcode::Extended(self.fetch_byte(bus));
        self.decode_operand(bus, code)
    }
}

impl CpuState {
    /// Loads a byte of memory into an eight-bit register.
    fn load8<B: Bus>(&mut self, bus: &mut B, dst: Register8, mode: Memory8Mode)
        ensures
            *final(self) == old(self).retired(*old(bus), Instruction::Load8(dst, mode)),
            *final(bus) == old(self).retired_bus(*old(bus), Instruction::Load8(dst, mode)),
    {
        let address = self.memory8_address(mode);
        let value = self.memory_read(bus, MemoryAddressKind::Data, address);
        self.registers.set8(dst, value);
    }

    /// Stores an eight-bit register in memory.
    fn store8<B: Bus>(&mut self, bus: &mut B, mode: Memory8Mode, src: Register8)
        ensures
            *final(self) == old(self).retired(*old(bus), Instruction::Store8(mode, src)),
            *final(bus) == old(self).retired_bus(*old(bus), Instruction::Store8(mode, src)),
    {
        let address = self.memory8_address(mode);
        let value = self.registers.get8(src);
        self.memory_write(bus, MemoryAddressKind::Data, address, value);
    }

    /// Loads a word of memory, low byte first, into a sixteen-bit register.
    fn load16<B: Bus>(&mut self, bus: &mut B, dst: Register16, mode: Memory16Mode)
        ensures
            *final(self) == old(self).retired(*old(bus), Instruction::Load16(dst, mode)),
            *final(bus) == old(self).retired_bus(*old(bus), Instruction::Load16(dst, mode)),
    {
        let effective_address_low = self.memory16_address(mode);
        let low = self.memory_read(bus, MemoryAddressKind::Data, effective_address_low);
        let high = self.memory_read(
            bus,
            MemoryAddressKind::Data,
            increment_word(effective_address_low),
        );
        self.registers.set16(dst.pointer(), concatenate(high, low));
    }

    /// Stores a sixteen-bit register in memory, low byte first.
    fn store16<B: Bus>(&mut self, bus: &mut B, mode: Memory16Mode, src: Register16)
        ensures
            *final(self) == old(self).retired(*old(bus), Instruction::Store16(mode, src)),
            *final(bus) == old(self).retired_bus(*old(bus), Instruction::Store16(mode, src)),
    {
        let effective_address_low = self.memory16_address(mode);
        let (high, low) = split_bytes(self.registers.get16(src.pointer()));
        self.memory_write(bus, MemoryAddressKind::Data, effective_address_low, low);
        self.memory_write(
            bus,
            MemoryAddressKind::Data,
            increment_word(effective_address_low),
            high,
        );
    }

    /// Pushes an eight-bit register.
    fn push8<B: Bus>(&mut self, bus: &mut B, src: Register8)
        ensures
            *final(self) == old(self).retired(*old(bus), Instruction::Push8(src)),
            *final(bus) == old(self).retired_bus(*old(bus), Instruction::Push8(src)),
    {
        let value = self.registers.get8(src);
        self.push_byte(bus, value);
    }

    /// Pushes a sixteen-bit register, high byte first.
    fn push16<B: Bus>(&mut self, bus: &mut B, src: Register16)
        ensures
            *final(self) == old(self).retired(*old(bus), Instruction::Push16(src)),
            *final(bus) == old(self).retired_bus(*old(bus), Instruction::Push16(src)),
    {
        let value = self.registers.get16(src.pointer());
        self.push_word(bus, value);
    }

    /// Pops into an eight-bit register.
    fn pop8<B: Bus>(&mut self, bus: &mut B, dst: Register8)
        ensures
            *final(self) == old(self).retired(*old(bus), Instruction::Pop8(dst)),
            *final(bus) == old(self).retired_bus(*old(bus), Instruction::Pop8(dst)),
    {
        let value = self.pop_byte(bus);
        self.registers.set8(dst, value);
    }

    /// Pops into a sixteen-bit register, low byte first.
    fn pop16<B: Bus>(&mut self, bus: &mut B, dst: Register16)
        ensures
            *final(self) == old(self).retired(*old(bus), Instruction::Pop16(dst)),
            *final(bus) == old(self).retired_bus(*old(bus), Instruction::Pop16(dst)),
    {
        let value = self.pop_word(bus);
        self.registers.set16(dst.pointer(), value);
    }

    /// Pushes the program counter and jumps.
    fn call<B: Bus>(&mut self, bus: &mut B, mode: JumpMode)
        ensures
            *final(self) == old(self).retired(*old(bus), Instruction::Call(mode)),
            *final(bus) == old(self).retired_bus(*old(bus), Instruction::Call(mode)),
    {
        let pc = self.program_counter;
        self.push_word(bus, pc);
        self.program_counter = self.jump_target(mode);
    }

    /// Pops the program counter.
    fn ret<B: Bus>(&mut self, bus: &mut B)
        ensures
            *final(self) == old(self).retired(*old(bus), Instruction::Ret),
            *final(bus) == old(self).retired_bus(*old(bus), Instruction::Ret),
    {
        self.program_counter = self.pop_word(bus);
    }

    /// Returns from an interrupt: enters user mode, pops the status, which
    /// decides the mode anew, and pops the program counter.
    fn reti<B: Bus>(&mut self, bus: &mut B)
        ensures
            *final(self) == old(self).retired(*old(bus), Instruction::Reti),
            *final(bus) == old(self).retired_bus(*old(bus), Instruction::Reti),
    {
        self.status.privilege_level = PrivilegeLevel::User;
        let status = self.pop_byte(bus);
        self.status = Status::from_byte(status);
        self.program_counter = self.pop_word(bus);
    }

    /// Executes a fetched instruction that reads or writes memory.
    fn execute_on_memory<B: Bus>(&mut self, bus: &mut B, instruction: Instruction) -> (result:
        ExecutionResult)
        requires
            instruction.is_memory_access(),
        ensures
            retires(
                *old(self),
                *old(bus),
                instruction,
                result,
                *final(self),
                *final(bus),
            ),
    {
        match instruction {
            Instruction::Load8(dst, mode) => self.load8(bus, dst, mode),
            Instruction::Store8(mode, src) => self.store8(bus, mode, src),
            Instruction::Load16(dst, mode) => self.load16(bus, dst, mode),
            Instruction::Store16(mode, src) => self.store16(bus, mode, src),
            Instruction::Push8(src) => self.push8(bus, src),
            Instruction::Push16(src) => self.push16(bus, src),
            Instruction::Pop8(dst) => self.pop8(bus, dst),
            Instruction::Pop16(dst) => self.pop16(bus, dst),
            Instruction::Call(mode) => self.call(bus, mode),
            Instruction::Ret => self.ret(bus),
            Instruction::Swi => self.service_interrupt(bus, InterruptKind::Swi),
            Instruction::Reti => self.reti(bus),
            _ => {},
        }
        ExecutionResult::Instruction(instruction)
    }

    /// Reads a port into a register, unless the bus asks for an action.
    fn port_in<B: Bus>(&mut self, bus: &mut B, dst: Register8, mode: IOMode) -> (result:
        ExecutionResult)
        ensures
            retires(
                *old(self),
                *old(bus),
                Instruction::In(dst, mode),
                result,
                *final(self),
                *final(bus),
            ),
    {
        let address = self.io_address(mode);
        match self.io_read(bus, address) {
            BusResult::Data(data) => {
                self.registers.set8(dst, data);
                ExecutionResult::Instruction(Instruction::In(dst, mode))
            },
            BusResult::Action(action) => ExecutionResult::Action(
                Instruction::In(dst, mode),
                action,
            ),
        }
    }

    /// Writes a register to a port.
    fn port_out<B: Bus>(&mut self, bus: &mut B, mode: IOMode, src: Register8) -> (result:
        ExecutionResult)
        ensures
            retires(
                *old(self),
                *old(bus),
                Instruction::Out(mode, src),
                result,
                *final(self),
                *final(bus),
            ),
    {
        let address = self.io_address(mode);
        let value = self.registers.get8(src);
        match self.io_write(bus, address, value) {
            BusResult::Action(action) => ExecutionResult::Action(
                Instruction::Out(mode, src),
                action,
            ),
            BusResult::Data(done) => {
                assert(done == ());
                ExecutionResult::Instruction(Instruction::Out(mode, src))
            },
        }
    }

    /// Fetches the instruction at the program counter and executes it.
    pub fn execute<B: Bus>(&mut self, bus: &mut B) -> (result: ExecutionResult)
        ensures
            executed(
                *old(self),
                *old(bus),
                result,
                *final(self),
                *final(bus),
            ),
    {
        let instruction = self.decode(bus);
        match instruction {
            Instruction::In(dst, mode) => self.port_in(bus, dst, mode),
            Instruction::Out(mode, src) => self.port_out(bus, mode, src),
            Instruction::Load8(..)
            | Instruction::Store8(..)
            | Instruction::Load16(..)
            | Instruction::Store16(..)
            | Instruction::Push8(..)
            | Instruction::Push16(..)
            | Instruction::Pop8(..)
            | Instruction::Pop16(..)
            | Instruction::Call(..)
            | Instruction::Ret
            | Instruction::Swi
            | Instruction::Reti => self.execute_on_memory(bus, instruction),
            _ => {
                self.execute_on_registers(instruction);
                ExecutionResult::Instruction(instruction)
            },
        }
    }
}

impl CpuState {
    /// Runs one cycle: probes the lines of the bus, then executes an
    /// instruction, resets, stalls, or enters an interrupt. Gives the result
    /// of the instruction if one was executed.
    pub fn cycle<B: Bus>(&mut self, bus: &mut B) -> (result: Option<ExecutionResult>)
        ensures
            cycled(*old(self), *old(bus), result, *final(self), *final(bus)),
    {
        reveal(cycled);
        match self.next_cycle_kind(bus) {
            CycleKind::BusStall => None,
            CycleKind::Interrupt(InterruptKind::Irq) => {
                if self.status.irq_enable {
                    self.service_interrupt(bus, InterruptKind::Irq);
                    None
                } else {
                    Some(self.execute(bus))
                }
            },
            CycleKind::Interrupt(InterruptKind::Nmi) => {
                if self.status.nmi_active {
                    self.reset();
                } else {
                    self.service_interrupt(bus, InterruptKind::Nmi);
                }
                None
            },
            CycleKind::Interrupt(kind) => {
                self.service_interrupt(bus, kind);
                None
            },
            CycleKind::Reset => {
                self.reset();
                None
            },
            CycleKind::Instruction => Some(self.execute(bus)),
        }
    }
}

impl CpuState {
    /// Runs the processor against the bus for at most the given number of
    /// cycles. The run ends early when the bus asks for a halt or reports a
    /// breakpoint; the bytes that the bus hands to the host are appended to
    /// `output` in their order.
    ///
    /// The run has a history of cycles, each of which follows from the one
    /// before it as `cycled` says; state, bus, trace and output are those
    /// that the history leaves behind. As long as no cycle executes a port
    /// access, they are those of `port_free_run`, the run goes on to the last
    /// cycle, and nothing is put out.
    pub fn run<B: Bus>(&mut self, bus: &mut B, cycles: usize, output: &mut Vec<Byte>) -> (outcome: (
        Trace,
        ReachedBreakpoint,
    ))
        ensures
            outcome.0.wf(),
            outcome.0@.len() <= cycles,
            exists|history: Seq<CycleRecord<B>>, written: Seq<Byte>|
                final(output)@ == old(output)@ + written && #[trigger] is_outcome(
                    *old(self),
                    *old(bus),
                    cycles as nat,
                    history,
                    *final(self),
                    *final(bus),
                    outcome.0@,
                    written,
                    outcome.1,
                ),
            old(self).port_free_run(*old(bus), cycles as nat) matches Some((state, after, trace))
                ==> {
                &&& *final(self) == state
                &&& *final(bus) == after
                &&& outcome.0@ == trace
                &&& outcome.1 == ReachedBreakpoint::DidNot
                &&& final(output)@ == old(output)@
            },
    {
        let mut trace = Trace::new();
        let ghost start = *self;
        let ghost bus_start = *bus;
        let ghost output_start = output@;
        let ghost mut history: Seq<CycleRecord<B>> = Seq::empty();
        let mut elapsed: usize = 0;
        assert(output@ =~= output_start + written_in(history));
        while elapsed < cycles
            invariant
                start == *old(self),
                bus_start == *old(bus),
                output_start == old(output)@,
                trace.wf(),
                trace@.len() <= elapsed <= cycles,
                history.len() == elapsed,
                is_history(start, bus_start, history),
                forall|cycle: int|
                    0 <= cycle < history.len() ==> !ends_run((#[trigger] history[cycle]).result),
                *self == state_before(start, history, history.len() as int),
                *bus == bus_before(bus_start, history, history.len() as int),
                trace@ == retired_in(history),
                output@ == output_start + written_in(history),
                start.port_free_run(bus_start, elapsed as nat) matches Some((state, after, retired))
                    ==> {
                    &&& *self == state
                    &&& *bus == after
                    &&& trace@ == retired
                    &&& output@ == output_start
                },
            decreases cycles - elapsed,
        {
            let ghost before = *self;
            let ghost bus_before_cycle = *bus;
            let ghost shorter = history;
            let result = self.cycle(bus);
            elapsed = elapsed + 1;
            proof {
                let record = CycleRecord { result, state: *self, bus: *bus };
                lemma_history_grows(start, bus_start, shorter, record);
                history = shorter.push(record);
                lemma_port_free_run_grows(
                    start,
                    bus_start,
                    (elapsed - 1) as nat,
                    before,
                    bus_before_cycle,
                    result,
                    *self,
                    *bus,
                );
            }
            match result {
                None => {},
                Some(ExecutionResult::Instruction(inst)) => trace.add(&inst),
                Some(ExecutionResult::Action(inst, action)) => {
                    trace.add(&inst);
                    proof {
                        start.lemma_port_access_stays(bus_start, elapsed as nat, cycles as nat);
                    }
                    match action {
                        EnvironmentAction::Halt => {
                            proof {
                                assert(is_outcome(
                                    start,
                                    bus_start,
                                    cycles as nat,
                                    history,
                                    *self,
                                    *bus,
                                    trace@,
                                    written_in(history),
                                    ReachedBreakpoint::DidNot,
                                ));
                            }
                            return (trace, ReachedBreakpoint::DidNot);
                        },
                        EnvironmentAction::Break => {
                            proof {
                                assert(is_outcome(
                                    start,
                                    bus_start,
                                    cycles as nat,
                                    history,
                                    *self,
                                    *bus,
                                    trace@,
                                    written_in(history),
                                    ReachedBreakpoint::Did,
                                ));
                            }
                            return (trace, ReachedBreakpoint::Did);
                        },
                        EnvironmentAction::WriteByte(value) => {
                            output.push(value);
                            assert(output@ =~= output_start + written_in(history));
                        },
                    }
                },
            }
        }
        proof {
            assert(is_outcome(
                start,
                bus_start,
                cycles as nat,
                history,
                *self,
                *bus,
                trace@,
                written_in(history),
                ReachedBreakpoint::DidNot,
            ));
        }
        (trace, ReachedBreakpoint::DidNot)
    }
}

/// A processor at work: its state and the bus it is connected to.
pub struct Cpu<'a, B> {
    pub state: &'a mut CpuState,
    pub bus: &'a mut B,
}

impl<'a, B: Bus> Cpu<'a, B> {
    /// Resets the processor. The bus is not touched.
    pub fn reset(&mut self)
        ensures
            *final(self).state == CpuState::reset_state(),
            *final(self).bus == *old(self).bus,
    {
        self.state.reset();
    }

    /// Runs one cycle: probes the lines of the bus, then executes an
    /// instruction, resets, stalls, or enters an interrupt. Gives the result
    /// of the instruction if one was executed.
    pub fn cycle(&mut self) -> (result: Option<ExecutionResult>)
        ensures
            cycled(*old(self).state, *old(self).bus, result, *final(self).state, *final(self).bus),
    {
        self.state.cycle(self.bus)
    }
}

} // verus!
