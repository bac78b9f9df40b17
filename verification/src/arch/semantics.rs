//! What the processor does, as functions on its state and on the bus: the
//! address arithmetic, the bank in front of each address, the stack, the
//! arithmetic unit, the entry into an interrupt, and the effect of each
//! instruction.

use crate::arch::bus::{Bus, BusResult, EnvironmentAction, MemoryAddressKind, PhysicalAddress};
use crate::arch::cpu::{CpuState, CycleKind, ExecutionResult, InterruptKind, ReachedBreakpoint};
use crate::arch::register::RegisterFile;
use crate::arch::status::{PrivilegeLevel, Status};
use crate::arch::Nibble;
use crate::isa::codec::{decode_spec, ExtensionMode};
use crate::isa::instruction::{
    Alu1Op, Alu2Op, Alu2OpMode, IOMode, Instruction, JumpMode, LeaMode, Memory16Mode,
    Memory8Mode, Pointer, Register8,
};
use crate::isa::{high_byte, low_byte, word_of, Address, Byte, Word};
use vstd::multiset::Multiset;
use vstd::prelude::*;

verus! {

/// The address where execution starts after a reset.
pub const RST_VECTOR: Address = 0x0000;

/// The address where the service of a non-maskable interrupt starts.
pub const NMI_VECTOR: Address = 0x0004;

/// The address where the service of an interrupt request starts.
pub const IRQ_VECTOR: Address = 0x0008;

/// The address where the service of a software interrupt starts.
pub const SWI_VECTOR: Address = 0x000C;

/// An integer brought into the range of a word: sixteen-bit arithmetic wraps.
pub open spec fn wrap_word(value: int) -> Address {
    (value % 0x1_0000) as Address
}

/// An integer brought into the range of a byte: eight-bit arithmetic wraps.
pub open spec fn wrap_byte(value: int) -> Byte {
    (value % 0x100) as Byte
}

/// An offset byte read as a signed number, -128 to 127.
pub open spec fn signed_offset(offset: Byte) -> int {
    if offset < 128 {
        offset as int
    } else {
        offset - 256
    }
}

/// An address moved by a signed offset.
pub open spec fn offset_address(address: Address, offset: Byte) -> Address {
    wrap_word(address + signed_offset(offset))
}

/// The bank that the processor puts in front of an address: the bank
/// register in user mode; in kernel mode bank zero for code, and for data
/// the bank register only where the bank enable flag is set.
pub open spec fn effective_bank_spec(
    privilege: PrivilegeLevel,
    kind: MemoryAddressKind,
    bank_enable: bool,
    bank_register: Nibble,
) -> Nibble {
    match privilege {
        PrivilegeLevel::User => bank_register,
        PrivilegeLevel::Kernel => match kind {
            MemoryAddressKind::Code => Nibble::zero_spec(),
            MemoryAddressKind::Data => if bank_enable {
                bank_register
            } else {
                Nibble::zero_spec()
            },
        },
    }
}

/// The result of an operation on two operands.
pub open spec fn alu2_spec(op: Alu2Op, left: Byte, right: Byte, carry: bool) -> Byte {
    match op {
        Alu2Op::Addc => wrap_byte(
            left + right + if carry {
                1int
            } else {
                0int
            },
        ),
        Alu2Op::Subb => wrap_byte(
            left - right - if carry {
                0int
            } else {
                1int
            },
        ),
        Alu2Op::And => left & right,
        Alu2Op::Or => left | right,
        Alu2Op::Xor => left ^ right,
        Alu2Op::Cmp => if right > left {
            (right - left) as Byte
        } else {
            (left - right) as Byte
        },
    }
}

/// The result of an operation on one operand. `Shr` shifts to the left, as
/// `Shl` does.
pub open spec fn alu1_spec(op: Alu1Op, operand: Byte) -> Byte {
    match op {
        Alu1Op::Shl => wrap_byte(2 * operand),
        Alu1Op::Shr => wrap_byte(2 * operand),
        Alu1Op::Asr => (operand / 2 + if operand >= 128 {
            128int
        } else {
            0int
        }) as Byte,
        Alu1Op::Not => (255 - operand) as Byte,
        Alu1Op::Neg => wrap_byte(256 - operand),
        Alu1Op::Inc => wrap_byte(operand + 1),
        Alu1Op::Dec => wrap_byte(operand - 1),
        Alu1Op::Test => operand,
    }
}

/// The address where the service of an interrupt starts.
pub open spec fn vector_spec(kind: InterruptKind) -> Address {
    match kind {
        InterruptKind::Nmi => NMI_VECTOR,
        InterruptKind::Irq => IRQ_VECTOR,
        InterruptKind::Swi => SWI_VECTOR,
    }
}

/// The kind of the next cycle, from the four lines in the order of their
/// priority: reset, non-maskable interrupt, interrupt request, stall.
pub open spec fn cycle_kind_spec(rst: bool, nmi: bool, irq: bool, req: bool) -> CycleKind {
    if rst {
        CycleKind::Reset
    } else if nmi {
        CycleKind::Interrupt(InterruptKind::Nmi)
    } else if irq {
        CycleKind::Interrupt(InterruptKind::Irq)
    } else if req {
        CycleKind::BusStall
    } else {
        CycleKind::Instruction
    }
}

/// The bus after the lines were probed for the next cycle: the latch of
/// the non-maskable interrupt is probed unless the reset line is active.
pub open spec fn probed_bus<B: Bus>(bus: B) -> B {
    if bus.rst_line() {
        bus
    } else {
        bus.nmi_probed()
    }
}

/// The kind of the next cycle on a bus. The lines of lower priority are
/// looked at after the latch was probed.
pub open spec fn next_kind<B: Bus>(bus: B) -> CycleKind {
    cycle_kind_spec(
        bus.rst_line(),
        bus.nmi_latch(),
        bus.nmi_probed().irq_line(),
        bus.nmi_probed().req_line(),
    )
}

impl CpuState {
    /// The state after a reset: every register and flag zero, kernel mode.
    pub open spec fn reset_state() -> CpuState {
        CpuState {
            bank_register: Nibble::zero_spec(),
            program_counter: RST_VECTOR,
            registers: RegisterFile::zeroed(),
            status: Status::cleared(),
        }
    }

    /// The value of an eight-bit register.
    pub open spec fn reg8(self, register: Register8) -> Byte {
        self.registers.reg8(register)
    }

    /// The value of a pointer.
    pub open spec fn reg16(self, pointer: Pointer) -> Address {
        self.registers.reg16(pointer)
    }

    /// The state after a write to an eight-bit register.
    pub open spec fn with8(self, register: Register8, value: Byte) -> CpuState {
        CpuState { registers: self.registers.with8(register, value), ..self }
    }

    /// The state after a write to a pointer.
    pub open spec fn with16(self, pointer: Pointer, value: Address) -> CpuState {
        CpuState { registers: self.registers.with16(pointer, value), ..self }
    }

    /// The state with another program counter.
    pub open spec fn with_pc(self, address: Address) -> CpuState {
        CpuState { program_counter: address, ..self }
    }

    /// The state with another status.
    pub open spec fn with_status(self, status: Status) -> CpuState {
        CpuState { status, ..self }
    }

    /// The state with another zero flag.
    pub open spec fn with_zero(self, zero: bool) -> CpuState {
        CpuState { status: Status { zero, ..self.status }, ..self }
    }

    /// The bank in front of an access of the given kind.
    pub open spec fn bank(self, kind: MemoryAddressKind) -> Nibble {
        effective_bank_spec(
            self.status.privilege_level,
            kind,
            self.status.bank_enable,
            self.bank_register,
        )
    }

    /// The physical address of an access of the given kind.
    pub open spec fn physical(self, kind: MemoryAddressKind, base: Address) -> PhysicalAddress {
        PhysicalAddress { bank: self.bank(kind), base }
    }

    /// The byte that the processor reads at an address.
    pub open spec fn peek<B: Bus>(self, bus: B, kind: MemoryAddressKind, base: Address) -> Byte {
        bus.memory(self.status.privilege_level, kind, self.physical(kind, base))
    }

    /// The bus after the processor wrote a byte at an address.
    pub open spec fn poke<B: Bus>(
        self,
        bus: B,
        kind: MemoryAddressKind,
        base: Address,
        data: Byte,
    ) -> B {
        bus.written(self.status.privilege_level, kind, self.physical(kind, base), data)
    }

    /// The state after a push of one byte: the stack pointer one lower.
    pub open spec fn after_push(self) -> CpuState {
        self.with16(Pointer::SP, wrap_word(self.reg16(Pointer::SP) - 1))
    }

    /// The bus after a push of one byte: the byte written where the stack
    /// pointer stood.
    pub open spec fn push_bus<B: Bus>(self, bus: B, data: Byte) -> B {
        self.poke(bus, MemoryAddressKind::Data, self.reg16(Pointer::SP), data)
    }

    /// The bus after a push of a word: the high byte first, then the low one.
    pub open spec fn push_word_bus<B: Bus>(self, bus: B, word: Word) -> B {
        self.after_push().push_bus(self.push_bus(bus, high_byte(word)), low_byte(word))
    }

    /// The state after a pop of one byte: the stack pointer one higher.
    pub open spec fn after_pop(self) -> CpuState {
        self.with16(Pointer::SP, wrap_word(self.reg16(Pointer::SP) + 1))
    }

    /// The byte that a pop returns: the one above the stack pointer.
    pub open spec fn popped<B: Bus>(self, bus: B) -> Byte {
        self.peek(bus, MemoryAddressKind::Data, wrap_word(self.reg16(Pointer::SP) + 1))
    }

    /// The word that a pop returns: the low byte first, then the high one.
    pub open spec fn popped_word<B: Bus>(self, bus: B) -> Word {
        word_of(self.after_pop().popped(bus), self.popped(bus))
    }

    /// The state after the entry into an interrupt: program counter and
    /// status pushed, interrupt requests disabled, kernel mode, and the
    /// program counter at the kind's vector. A non-maskable interrupt also
    /// sets its flag.
    pub open spec fn interrupted(self, kind: InterruptKind) -> CpuState {
        let pushed = self.after_push().after_push().after_push();
        CpuState {
            program_counter: vector_spec(kind),
            status: Status {
                irq_enable: false,
                privilege_level: PrivilegeLevel::Kernel,
                nmi_active: kind == InterruptKind::Nmi || self.status.nmi_active,
                ..self.status
            },
            ..pushed
        }
    }

    /// The bus after the entry into an interrupt: the program counter
    /// pushed, then the status byte.
    pub open spec fn interrupt_bus<B: Bus>(self, bus: B) -> B {
        self.after_push().after_push().push_bus(
            self.push_word_bus(bus, self.program_counter),
            self.status.to_byte_spec(),
        )
    }

    /// The byte of code at a distance from the program counter.
    pub open spec fn code_at<B: Bus>(self, bus: B, distance: int) -> Byte {
        self.peek(bus, MemoryAddressKind::Code, wrap_word(self.program_counter + distance))
    }

    /// The four bytes of code at the program counter: as many as the
    /// longest instruction has.
    pub open spec fn code_window<B: Bus>(self, bus: B) -> Seq<Byte> {
        seq![
            self.code_at(bus, 0),
            self.code_at(bus, 1),
            self.code_at(bus, 2),
            self.code_at(bus, 3),
        ]
    }

    /// The instruction at the program counter.
    pub open spec fn next_instruction<B: Bus>(self, bus: B) -> Instruction {
        decode_spec(ExtensionMode::Normal, self.code_window(bus)).unwrap().0
    }

    /// The state after the fetch of the instruction at the program counter:
    /// the program counter behind the instruction.
    pub open spec fn after_fetch<B: Bus>(self, bus: B) -> CpuState {
        self.with_pc(
            wrap_word(
                self.program_counter + decode_spec(
                    ExtensionMode::Normal,
                    self.code_window(bus),
                ).unwrap().1,
            ),
        )
    }

    /// The address that an eight-bit memory mode names.
    pub open spec fn memory8_address_spec(self, mode: Memory8Mode) -> Address {
        match mode {
            Memory8Mode::Absolute(address) => address,
            Memory8Mode::ConstantOffset(pointer, offset) => offset_address(
                self.reg16(pointer),
                offset,
            ),
            Memory8Mode::RegisterOffset(pointer, offset) => offset_address(
                self.reg16(pointer),
                self.reg8(offset),
            ),
        }
    }

    /// The address of the low byte that a sixteen-bit memory mode names.
    pub open spec fn memory16_address_spec(self, mode: Memory16Mode) -> Address {
        match mode {
            Memory16Mode::Absolute(address) => address,
            Memory16Mode::ConstantOffset(pointer, offset) => offset_address(
                self.reg16(pointer),
                offset,
            ),
        }
    }

    /// The address that an I/O mode names.
    pub open spec fn io_address_spec(self, mode: IOMode) -> Address {
        match mode {
            IOMode::Port(port) => port as Address,
            IOMode::ConstantOffset(base, offset) => offset_address(
                self.reg16(base.pointer_spec()),
                offset,
            ),
            IOMode::RegisterOffset(base, offset) => offset_address(
                self.reg16(base.pointer_spec()),
                self.reg8(offset),
            ),
        }
    }

    /// The address that a jump mode names, once the program counter is
    /// behind the jump.
    pub open spec fn jump_target_spec(self, mode: JumpMode) -> Address {
        match mode {
            JumpMode::Relative(offset) => offset_address(self.program_counter, offset),
            JumpMode::Absolute(address) => address,
            JumpMode::Indirect(base, offset) => offset_address(
                self.reg16(base.pointer_spec()),
                offset,
            ),
        }
    }

    /// The right operand of an operation on two operands.
    pub open spec fn alu2_right(self, mode: Alu2OpMode) -> Byte {
        match mode {
            Alu2OpMode::Constant(value) => value,
            Alu2OpMode::Register(register) => self.reg8(register),
        }
    }

    /// The word that a sixteen-bit load reads: the low byte at the address,
    /// the high byte behind it.
    pub open spec fn peek_word<B: Bus>(self, bus: B, address: Address) -> Word {
        word_of(
            self.peek(bus, MemoryAddressKind::Data, wrap_word(address + 1)),
            self.peek(bus, MemoryAddressKind::Data, address),
        )
    }

    /// The bus after a sixteen-bit store: the low byte at the address, then
    /// the high byte behind it.
    pub open spec fn poke_word<B: Bus>(self, bus: B, address: Address, word: Word) -> B {
        self.poke(
            self.poke(bus, MemoryAddressKind::Data, address, low_byte(word)),
            MemoryAddressKind::Data,
            wrap_word(address + 1),
            high_byte(word),
        )
    }

    /// The state after a return from an interrupt: user mode while the
    /// status byte is popped, then the popped status, then the popped
    /// program counter.
    pub open spec fn returned<B: Bus>(self, bus: B) -> CpuState {
        let user = self.with_status(
            Status { privilege_level: PrivilegeLevel::User, ..self.status },
        );
        let restored = user.after_pop().with_status(Status::from_byte_spec(user.popped(bus)));
        restored.after_pop().after_pop().with_pc(restored.popped_word(bus))
    }

    /// The state after an instruction that works on the registers and flags
    /// alone, given the state behind its fetch.
    pub open spec fn retired_alone(self, inst: Instruction) -> CpuState {
        match inst {
            Instruction::Nop => self,
            Instruction::SetCarry => self.with_status(Status { carry: true, ..self.status }),
            Instruction::ClearCarry => self.with_status(Status { carry: false, ..self.status }),
            Instruction::SetInterruptEnable => self.with_status(
                Status { irq_enable: true, ..self.status },
            ),
            Instruction::ClearInterruptEnable => self.with_status(
                Status { irq_enable: false, ..self.status },
            ),
            Instruction::SetBankEnable => self.with_status(
                Status { bank_enable: true, ..self.status },
            ),
            Instruction::ClearBankEnable => self.with_status(
                Status { bank_enable: false, ..self.status },
            ),
            Instruction::ReadBankRegister => self.with8(Register8::A, self.bank_register@),
            Instruction::WriteBankRegister => CpuState {
                bank_register: Nibble::masked_spec(self.reg8(Register8::A)),
                ..self
            },
            Instruction::Move8(dst, src) => self.with8(dst, self.reg8(src)),
            Instruction::Load8Immediate(dst, value) => self.with8(dst, value),
            Instruction::ReadStackPointer => self.with16(Pointer::X, self.reg16(Pointer::SP)),
            Instruction::WriteStackPointer => self.with16(Pointer::SP, self.reg16(Pointer::X)),
            Instruction::Move16(dst, src) => self.with16(
                dst.pointer_spec(),
                self.reg16(src.pointer_spec()),
            ),
            Instruction::Move16FromPair(dst, src) => self.with16(
                dst.pointer_spec(),
                word_of(self.reg8(src.high_spec()), self.reg8(src.low_spec())),
            ),
            Instruction::Move16ToPair(dst, src) => self.with8(
                dst.high_spec(),
                high_byte(self.reg16(src.pointer_spec())),
            ).with8(dst.low_spec(), low_byte(self.reg16(src.pointer_spec()))),
            Instruction::Load16Immediate(dst, value) => self.with16(dst.pointer_spec(), value),
            Instruction::Lea(pointer, LeaMode::Constant(offset)) => self.with16(
                pointer,
                offset_address(self.reg16(pointer), offset),
            ),
            Instruction::Lea(pointer, LeaMode::Register(offset)) => self.with16(
                pointer,
                offset_address(self.reg16(pointer), self.reg8(offset)),
            ),
            Instruction::Inc16(register) => self.with16(
                register.pointer_spec(),
                wrap_word(self.reg16(register.pointer_spec()) + 1),
            ),
            Instruction::Dec16(register) => self.with16(
                register.pointer_spec(),
                wrap_word(self.reg16(register.pointer_spec()) - 1),
            ),
            Instruction::Alu2(op, left, right) => {
                let result = alu2_spec(
                    op,
                    self.reg8(left),
                    self.alu2_right(right),
                    self.status.carry,
                );
                if op == Alu2Op::Cmp {
                    self.with_zero(result == 0)
                } else {
                    self.with8(left, result).with_zero(result == 0)
                }
            },
            Instruction::Alu1(op, operand) => {
                let result = alu1_spec(op, self.reg8(operand));
                if op == Alu1Op::Test {
                    self.with_zero(result == 0)
                } else {
                    self.with8(operand, result)
                }
            },
            Instruction::Jmp(condition, mode) => if self.status.condition_spec(condition) {
                self.with_pc(self.jump_target_spec(mode))
            } else {
                self
            },
            _ => self,
        }
    }

    /// The state after an instruction other than a port read, given the
    /// state behind its fetch and the bus it reads from. A store leaves the
    /// state as it is.
    pub open spec fn retired<B: Bus>(self, bus: B, inst: Instruction) -> CpuState {
        match inst {
            Instruction::Load8(dst, mode) => self.with8(
                dst,
                self.peek(bus, MemoryAddressKind::Data, self.memory8_address_spec(mode)),
            ),
            Instruction::Load16(dst, mode) => self.with16(
                dst.pointer_spec(),
                self.peek_word(bus, self.memory16_address_spec(mode)),
            ),
            Instruction::Push8(_) => self.after_push(),
            Instruction::Push16(_) => self.after_push().after_push(),
            Instruction::Pop8(dst) => self.after_pop().with8(dst, self.popped(bus)),
            Instruction::Pop16(dst) => self.after_pop().after_pop().with16(
                dst.pointer_spec(),
                self.popped_word(bus),
            ),
            Instruction::Call(mode) => self.after_push().after_push().with_pc(
                self.jump_target_spec(mode),
            ),
            Instruction::Ret => self.after_pop().after_pop().with_pc(self.popped_word(bus)),
            Instruction::Swi => self.interrupted(InterruptKind::Swi),
            Instruction::Reti => self.returned(bus),
            _ => self.retired_alone(inst),
        }
    }

    /// The bus after an instruction other than a port access, given the state
    /// behind its fetch.
    pub open spec fn retired_bus<B: Bus>(self, bus: B, inst: Instruction) -> B {
        match inst {
            Instruction::Store8(mode, src) => self.poke(
                bus,
                MemoryAddressKind::Data,
                self.memory8_address_spec(mode),
                self.reg8(src),
            ),
            Instruction::Store16(mode, src) => self.poke_word(
                bus,
                self.memory16_address_spec(mode),
                self.reg16(src.pointer_spec()),
            ),
            Instruction::Push8(src) => self.push_bus(bus, self.reg8(src)),
            Instruction::Push16(src) => self.push_word_bus(bus, self.reg16(src.pointer_spec())),
            Instruction::Call(_) => self.push_word_bus(bus, self.program_counter),
            Instruction::Swi => self.interrupt_bus(bus),
            _ => bus,
        }
    }
}

/// What an instruction leaves behind, given the state behind its fetch and
/// the bus before it. An instruction other than a port access retires, and
/// state and bus are those that `retired` and `retired_bus` give. A port
/// access goes to the I/O address that its mode names, under the bank of a
/// data access, and the bus decides on the answer: data, which a read puts
/// into its register, or an action, which leaves the state as it is behind
/// the fetch.
pub open spec fn retires<B: Bus>(
    fetched: CpuState,
    bus_before: B,
    inst: Instruction,
    result: ExecutionResult,
    after: CpuState,
    bus_after: B,
) -> bool {
    &&& result.instruction() == inst
    &&& match inst {
        Instruction::In(dst, mode) => {
            &&& after == match result {
                ExecutionResult::Instruction(_) => fetched.with8(dst, after.reg8(dst)),
                ExecutionResult::Action(_, _) => fetched,
            }
            &&& bus_before.io_read_answers(
                fetched.status.privilege_level,
                fetched.physical(MemoryAddressKind::Data, fetched.io_address_spec(mode)),
                match result {
                    ExecutionResult::Instruction(_) => BusResult::Data(after.reg8(dst)),
                    ExecutionResult::Action(_, action) => BusResult::Action(action),
                },
                bus_after,
            )
        },
        Instruction::Out(mode, src) => {
            &&& after == fetched
            &&& bus_before.io_write_answers(
                fetched.status.privilege_level,
                fetched.physical(MemoryAddressKind::Data, fetched.io_address_spec(mode)),
                fetched.reg8(src),
                match result {
                    ExecutionResult::Instruction(_) => BusResult::Data(()),
                    ExecutionResult::Action(_, action) => BusResult::Action(action),
                },
                bus_after,
            )
        },
        _ => {
            &&& result is Instruction
            &&& after == fetched.retired(bus_before, inst)
            &&& bus_after == fetched.retired_bus(bus_before, inst)
        },
    }
}

/// What the fetch and execution of one instruction leave behind, given the
/// state and the bus before them.
pub open spec fn executed<B: Bus>(
    before: CpuState,
    bus_before: B,
    result: ExecutionResult,
    after: CpuState,
    bus_after: B,
) -> bool {
    retires(
        before.after_fetch(bus_before),
        bus_before,
        before.next_instruction(bus_before),
        result,
        after,
        bus_after,
    )
}

impl CpuState {
    /// Whether a cycle of the given kind executes an instruction: an
    /// instruction cycle does, and so does the cycle of an interrupt request
    /// while such requests are disabled.
    pub open spec fn cycle_executes(self, kind: CycleKind) -> bool {
        kind == CycleKind::Instruction || (kind == CycleKind::Interrupt(InterruptKind::Irq)
            && !self.status.irq_enable)
    }

    /// The state after a cycle that executes no instruction: a reset, a
    /// stall, which changes nothing, or the entry into an interrupt. A
    /// non-maskable interrupt that arrives while one is in service resets
    /// the processor.
    pub open spec fn cycle_state(self, kind: CycleKind) -> CpuState {
        match kind {
            CycleKind::Reset => CpuState::reset_state(),
            CycleKind::Interrupt(InterruptKind::Nmi) => if self.status.nmi_active {
                CpuState::reset_state()
            } else {
                self.interrupted(InterruptKind::Nmi)
            },
            CycleKind::Interrupt(kind) => self.interrupted(kind),
            _ => self,
        }
    }

    /// The bus after a cycle that executes no instruction, given the bus
    /// after the lines were probed.
    pub open spec fn cycle_bus<B: Bus>(self, probed: B, kind: CycleKind) -> B {
        match kind {
            CycleKind::Interrupt(InterruptKind::Nmi) => if self.status.nmi_active {
                probed
            } else {
                self.interrupt_bus(probed)
            },
            CycleKind::Interrupt(_) => self.interrupt_bus(probed),
            _ => probed,
        }
    }

    /// State and bus after a cycle, with the instruction that it retired if
    /// it retired one; `None` where the cycle executes a port access, of
    /// which the bus decides.
    #[verifier::opaque]
    pub open spec fn port_free_cycle<B: Bus>(self, bus: B) -> Option<
        (CpuState, B, Option<Instruction>),
    > {
        let kind = next_kind(bus);
        let probed = probed_bus(bus);
        if self.cycle_executes(kind) {
            let inst = self.next_instruction(probed);
            let fetched = self.after_fetch(probed);
            if inst.is_port_access() {
                None
            } else {
                Some((fetched.retired(probed, inst), fetched.retired_bus(probed, inst), Some(inst)))
            }
        } else {
            Some((self.cycle_state(kind), self.cycle_bus(probed, kind), None))
        }
    }

    /// State and bus after a number of cycles, with the instructions that
    /// were retired; `None` where one of the cycles executes a port access.
    pub open spec fn port_free_run<B: Bus>(self, bus: B, cycles: nat) -> Option<
        (CpuState, B, Multiset<Instruction>),
    >
        decreases cycles,
    {
        if cycles == 0 {
            Some((self, bus, Multiset::empty()))
        } else {
            match self.port_free_run(bus, (cycles - 1) as nat) {
                None => None,
                Some((state, bus, trace)) => match state.port_free_cycle(bus) {
                    None => None,
                    Some((state, bus, Some(inst))) => Some((state, bus, trace.insert(inst))),
                    Some((state, bus, None)) => Some((state, bus, trace)),
                },
            }
        }
    }

    /// Once a run has met a port access, every longer run has met it too.
    pub proof fn lemma_port_access_stays<B: Bus>(self, bus: B, shorter: nat, longer: nat)
        requires
            shorter <= longer,
            self.port_free_run(bus, shorter) is None,
        ensures
            self.port_free_run(bus, longer) is None,
        decreases longer,
    {
        if shorter < longer {
            self.lemma_port_access_stays(bus, shorter, (longer - 1) as nat);
        }
    }
}

/// What one cycle leaves behind, given the state and the bus before it: the
/// lines are probed; then an instruction is executed, or the processor is
/// reset, stalls, or enters an interrupt.
#[verifier::opaque]
pub open spec fn cycled<B: Bus>(
    before: CpuState,
    bus_before: B,
    result: Option<ExecutionResult>,
    after: CpuState,
    bus_after: B,
) -> bool {
    let kind = next_kind(bus_before);
    let probed = probed_bus(bus_before);
    if before.cycle_executes(kind) {
        result matches Some(result) && executed(before, probed, result, after, bus_after)
    } else {
        &&& result is None
        &&& after == before.cycle_state(kind)
        &&& bus_after == before.cycle_bus(probed, kind)
    }
}

/// A cycle that executes no port access leaves behind what
/// `port_free_cycle` gives, and retires with no action; one that executes a
/// port access gives a result.
pub proof fn lemma_cycle_is_port_free<B: Bus>(
    before: CpuState,
    bus_before: B,
    result: Option<ExecutionResult>,
    after: CpuState,
    bus_after: B,
)
    requires
        cycled(before, bus_before, result, after, bus_after),
    ensures
        match before.port_free_cycle(bus_before) {
            Some((state, bus, retired)) => {
                &&& after == state
                &&& bus_after == bus
                &&& match retired {
                    Some(inst) => result == Some(ExecutionResult::Instruction(inst)),
                    None => result is None,
                }
            },
            None => result is Some,
        },
{
    reveal(cycled);
    reveal(CpuState::port_free_cycle);
}

/// One cycle of a run: the result of the instruction that it executed, if
/// it executed one, and the state and the bus that it left behind.
pub struct CycleRecord<B> {
    pub result: Option<ExecutionResult>,
    pub state: CpuState,
    pub bus: B,
}

/// The state before a cycle of a run.
pub open spec fn state_before<B>(start: CpuState, history: Seq<CycleRecord<B>>, cycle: int)
    -> CpuState {
    if cycle == 0 {
        start
    } else {
        history[cycle - 1].state
    }
}

/// The bus before a cycle of a run.
pub open spec fn bus_before<B>(start: B, history: Seq<CycleRecord<B>>, cycle: int) -> B {
    if cycle == 0 {
        start
    } else {
        history[cycle - 1].bus
    }
}

/// Whether a cycle of the history follows from the one before it, the
/// first from the given state and bus.
pub open spec fn follows<B: Bus>(
    start: CpuState,
    bus: B,
    history: Seq<CycleRecord<B>>,
    cycle: int,
) -> bool {
    cycled(
        state_before(start, history, cycle),
        bus_before(bus, history, cycle),
        history[cycle].result,
        history[cycle].state,
        history[cycle].bus,
    )
}

/// Whether each cycle of the history follows from the one before it.
pub open spec fn is_history<B: Bus>(start: CpuState, bus: B, history: Seq<CycleRecord<B>>)
    -> bool {
    forall|cycle: int| 0 <= cycle < history.len() ==> #[trigger] follows(start, bus, history, cycle)
}

/// Whether a cycle ends the run: the bus asked for a halt or reported a
/// breakpoint.
pub open spec fn ends_run(result: Option<ExecutionResult>) -> bool {
    result matches Some(ExecutionResult::Action(_, action)) && (action is Halt || action is Break)
}

/// Whether a cycle ends the run at a breakpoint.
pub open spec fn breaks_run(result: Option<ExecutionResult>) -> bool {
    result matches Some(ExecutionResult::Action(_, action)) && action is Break
}

/// The instructions that the cycles of a history executed.
pub open spec fn retired_in<B>(history: Seq<CycleRecord<B>>) -> Multiset<Instruction>
    decreases history.len(),
{
    if history.len() == 0 {
        Multiset::empty()
    } else {
        match history.last().result {
            Some(result) => retired_in(history.drop_last()).insert(result.instruction()),
            None => retired_in(history.drop_last()),
        }
    }
}

/// The bytes that the bus handed to the host in the cycles of a history, in
/// their order.
pub open spec fn written_in<B>(history: Seq<CycleRecord<B>>) -> Seq<Byte>
    decreases history.len(),
{
    if history.len() == 0 {
        Seq::empty()
    } else {
        match history.last().result {
            Some(ExecutionResult::Action(_, EnvironmentAction::WriteByte(value))) => written_in(
                history.drop_last(),
            ).push(value),
            _ => written_in(history.drop_last()),
        }
    }
}

/// Whether a history is that of a run of at most the given number of
/// cycles: each cycle follows from the one before it, only the last cycle
/// ends the run, and the run stops short of its budget only where a cycle
/// ended it.
pub open spec fn is_run<B: Bus>(
    start: CpuState,
    bus: B,
    cycles: nat,
    history: Seq<CycleRecord<B>>,
) -> bool {
    &&& is_history(start, bus, history)
    &&& history.len() <= cycles
    &&& forall|cycle: int|
        0 <= cycle < history.len() - 1 ==> !ends_run((#[trigger] history[cycle]).result)
    &&& history.len() < cycles ==> history.len() > 0 && ends_run(history.last().result)
}

/// Whether a run with the given history leaves behind the given state, bus,
/// trace and output, and reports a breakpoint exactly where its last cycle
/// met one.
pub open spec fn is_outcome<B: Bus>(
    start: CpuState,
    bus: B,
    cycles: nat,
    history: Seq<CycleRecord<B>>,
    after: CpuState,
    bus_after: B,
    trace: Multiset<Instruction>,
    written: Seq<Byte>,
    reached: ReachedBreakpoint,
) -> bool {
    &&& is_run(start, bus, cycles, history)
    &&& after == state_before(start, history, history.len() as int)
    &&& bus_after == bus_before(bus, history, history.len() as int)
    &&& trace == retired_in(history)
    &&& written == written_in(history)
    &&& reached == ReachedBreakpoint::Did <==> history.len() > 0 && breaks_run(
        history.last().result,
    )
}

/// A history that grows by a cycle that follows from its last one is a
/// history still, and trace and output grow by what the cycle retired and
/// put out.
pub proof fn lemma_history_grows<B: Bus>(
    start: CpuState,
    bus: B,
    history: Seq<CycleRecord<B>>,
    next: CycleRecord<B>,
)
    requires
        is_history(start, bus, history),
        cycled(
            state_before(start, history, history.len() as int),
            bus_before(bus, history, history.len() as int),
            next.result,
            next.state,
            next.bus,
        ),
    ensures
        is_history(start, bus, history.push(next)),
        retired_in(history.push(next)) == match next.result {
            Some(result) => retired_in(history).insert(result.instruction()),
            None => retired_in(history),
        },
        written_in(history.push(next)) == match next.result {
            Some(ExecutionResult::Action(_, EnvironmentAction::WriteByte(value))) => written_in(
                history,
            ).push(value),
            _ => written_in(history),
        },
{
    let longer = history.push(next);
    assert(longer.drop_last() =~= history);
    assert forall|cycle: int| 0 <= cycle < longer.len() implies #[trigger] follows(
        start,
        bus,
        longer,
        cycle,
    ) by {
        if cycle < history.len() {
            assert(follows(start, bus, history, cycle));
        }
    }
}

/// A run that has met no port access goes on as `port_free_cycle` says: if
/// one cycle more meets none either, the cycle retired with no action, and
/// state, bus and trace are those that it left behind.
pub proof fn lemma_port_free_run_grows<B: Bus>(
    start: CpuState,
    bus: B,
    cycles: nat,
    before: CpuState,
    bus_before: B,
    result: Option<ExecutionResult>,
    after: CpuState,
    bus_after: B,
)
    requires
        cycled(before, bus_before, result, after, bus_after),
        start.port_free_run(bus, cycles) matches Some((state, reached, _)) ==> state == before
            && reached == bus_before,
    ensures
        start.port_free_run(bus, cycles + 1) matches Some((state, reached, trace)) ==> {
            &&& start.port_free_run(bus, cycles) matches Some((_, _, shorter))
            &&& state == after
            &&& reached == bus_after
            &&& match result {
                None => trace == shorter,
                Some(ExecutionResult::Instruction(inst)) => trace == shorter.insert(inst),
                Some(ExecutionResult::Action(_, _)) => false,
            }
        },
{
    lemma_cycle_is_port_free(before, bus_before, result, after, bus_after);
    reveal_with_fuel(CpuState::port_free_run, 2);
}

impl Instruction {
    /// Whether the instruction accesses a port.
    pub open spec fn is_port_access(self) -> bool {
        self is In || self is Out
    }

    /// Whether the instruction reaches memory through the bus once it is
    /// fetched: a load, a store, or one that uses the stack.
    pub open spec fn is_memory_access(self) -> bool {
        ||| self is Load8
        ||| self is Store8
        ||| self is Load16
        ||| self is Store16
        ||| self is Push8
        ||| self is Push16
        ||| self is Pop8
        ||| self is Pop16
        ||| self is Call
        ||| self is Ret
        ||| self is Swi
        ||| self is Reti
    }
}

} // verus!
