use bw8::arch::cpu::{
    address_with_offset, alu1, alu2, concatenate, decrement_byte, decrement_word, effective_bank,
    increment_byte, increment_word, split_bytes, wrapping_subtract,
};
use bw8::arch::{
    Architectural16, Architectural8, Bus, BusResult, Cpu, CpuState, EnvironmentAction,
    ExecutionResult, MemoryAddressKind, Nibble, PhysicalAddress, PrivilegeLevel,
    ReachedBreakpoint, Status, UpperNibbleClear,
};
use bw8::isa::{
    Alu1Op, Alu2Op, Alu2OpMode, IOMode, Instruction, Memory8Mode, Register8,
};

#[derive(Clone, Copy, Debug, PartialEq, Eq)]
struct Access {
    privilege: PrivilegeLevel,
    kind: MemoryAddressKind,
    bank: u8,
    base: u16,
}

/// A bus with one flat bank of memory that stores every write, lines that
/// the test drives, and a record of what the processor asked.
struct RamBus {
    memory: Vec<u8>,
    reads: std::cell::RefCell<Vec<Access>>,
    writes: Vec<(Access, u8)>,
    io_reads: Vec<(u8, u16)>,
    io_writes: Vec<(u8, u16, u8)>,
    input: u8,
    halt_port: Option<u16>,
    break_port: Option<u16>,
    print_port: Option<u16>,
    rst: bool,
    nmi: bool,
    irq: bool,
    req: bool,
}

impl RamBus {
    fn new(image: &[u8]) -> RamBus {
        let mut memory = vec![0u8; 0x1_0000];
        memory[..image.len()].copy_from_slice(image);
        RamBus {
            memory,
            reads: std::cell::RefCell::new(Vec::new()),
            writes: Vec::new(),
            io_reads: Vec::new(),
            io_writes: Vec::new(),
            input: 0,
            halt_port: None,
            break_port: None,
            print_port: None,
            rst: false,
            nmi: false,
            irq: false,
            req: false,
        }
    }

    fn copy(&self) -> RamBus {
        RamBus {
            memory: self.memory.clone(),
            reads: std::cell::RefCell::new(self.reads.borrow().clone()),
            writes: self.writes.clone(),
            io_reads: self.io_reads.clone(),
            io_writes: self.io_writes.clone(),
            input: self.input,
            halt_port: self.halt_port,
            break_port: self.break_port,
            print_port: self.print_port,
            rst: self.rst,
            nmi: self.nmi,
            irq: self.irq,
            req: self.req,
        }
    }

    fn data_reads(&self) -> Vec<Access> {
        self.reads.borrow().iter().copied().filter(|a| a.kind == MemoryAddressKind::Data).collect()
    }
}

impl Bus for RamBus {
    fn memory(&self, _privilege: PrivilegeLevel, _kind: MemoryAddressKind, address: PhysicalAddress) -> u8 {
        self.memory[address.base as usize]
    }

    fn written(&self, _privilege: PrivilegeLevel, _kind: MemoryAddressKind, address: PhysicalAddress, data: u8) -> RamBus {
        let mut after = self.copy();
        after.memory[address.base as usize] = data;
        after
    }

    fn io_read_answers(&self, _privilege: PrivilegeLevel, _address: PhysicalAddress, _answer: BusResult<u8>, _after: RamBus) -> bool {
        true
    }

    fn io_write_answers(&self, _privilege: PrivilegeLevel, _address: PhysicalAddress, _data: u8, _answer: BusResult<()>, _after: RamBus) -> bool {
        true
    }

    fn rst_line(&self) -> bool {
        self.rst
    }

    fn nmi_latch(&self) -> bool {
        self.nmi
    }

    fn nmi_probed(&self) -> RamBus {
        let mut after = self.copy();
        after.nmi = false;
        after
    }

    fn irq_line(&self) -> bool {
        self.irq
    }

    fn req_line(&self) -> bool {
        self.req
    }

    fn lemma_probe_clears_latch(&self) {}

    fn memory_read(&self, privilege: PrivilegeLevel, kind: MemoryAddressKind, address: PhysicalAddress) -> u8 {
        self.reads.borrow_mut().push(Access { privilege, kind, bank: address.bank.as_inner(), base: address.base });
        self.memory[address.base as usize]
    }

    fn memory_write(&mut self, privilege: PrivilegeLevel, kind: MemoryAddressKind, address: PhysicalAddress, data: u8) {
        self.writes.push((Access { privilege, kind, bank: address.bank.as_inner(), base: address.base }, data));
        self.memory[address.base as usize] = data;
    }

    fn io_read(&mut self, _privilege: PrivilegeLevel, address: PhysicalAddress) -> BusResult<u8> {
        self.io_reads.push((address.bank.as_inner(), address.base));
        if Some(address.base) == self.halt_port {
            BusResult::Action(EnvironmentAction::Halt)
        } else {
            BusResult::Data(self.input)
        }
    }

    fn io_write(&mut self, _privilege: PrivilegeLevel, address: PhysicalAddress, data: u8) -> BusResult<()> {
        self.io_writes.push((address.bank.as_inner(), address.base, data));
        if Some(address.base) == self.halt_port {
            BusResult::Action(EnvironmentAction::Halt)
        } else if Some(address.base) == self.break_port {
            BusResult::Action(EnvironmentAction::Break)
        } else if Some(address.base) == self.print_port {
            BusResult::Action(EnvironmentAction::WriteByte(data))
        } else {
            BusResult::Data(())
        }
    }

    fn is_rst_active(&self) -> bool {
        self.rst
    }

    fn is_nmi_active(&mut self) -> bool {
        let latched = self.nmi;
        self.nmi = false;
        latched
    }

    fn is_irq_active(&self) -> bool {
        self.irq
    }

    fn is_req_active(&self) -> bool {
        self.req
    }
}

fn run(state: &mut CpuState, bus: &mut RamBus, cycles: usize) -> (usize, ReachedBreakpoint, Vec<u8>) {
    let mut output = Vec::new();
    let (trace, reached) = state.run(bus, cycles, &mut output);
    (trace.total_execution_count(), reached, output)
}

#[test]
fn a_new_processor_is_zeroed_and_in_kernel_mode() {
    let state = CpuState::new();
    assert_eq!(state.get16(Architectural16::PC), 0);
    assert_eq!(state.get16(Architectural16::SP), 0);
    assert_eq!(state.get16(Architectural16::X), 0);
    assert_eq!(state.get16(Architectural16::Y), 0);
    assert_eq!(state.get8(Architectural8::A), 0);
    assert_eq!(state.get8(Architectural8::B), 0);
    assert_eq!(state.get8(Architectural8::C), 0);
    assert_eq!(state.get8(Architectural8::D), 0);
    assert_eq!(*state.status(), Status::default());
    assert_eq!(state.status().privilege_level, PrivilegeLevel::Kernel);
    assert_eq!(state.br().as_inner(), 0);
}

#[test]
fn registers_are_read_and_written_by_name() {
    let mut state = CpuState::new();
    state.set8(Architectural8::A, 1);
    state.set8(Architectural8::B, 2);
    state.set8(Architectural8::C, 3);
    state.set8(Architectural8::D, 4);
    state.set16(Architectural16::PC, 0x1111);
    state.set16(Architectural16::SP, 0x2222);
    state.set16(Architectural16::X, 0x3333);
    state.set16(Architectural16::Y, 0x4444);
    assert_eq!(state.get8(Architectural8::A), 1);
    assert_eq!(state.get8(Architectural8::B), 2);
    assert_eq!(state.get8(Architectural8::C), 3);
    assert_eq!(state.get8(Architectural8::D), 4);
    assert_eq!(state.get16(Architectural16::PC), 0x1111);
    assert_eq!(state.get16(Architectural16::SP), 0x2222);
    assert_eq!(state.get16(Architectural16::X), 0x3333);
    assert_eq!(state.get16(Architectural16::Y), 0x4444);
}

#[test]
fn a_nibble_holds_four_bits() {
    assert_eq!(Nibble::new(0).map(|n| n.as_inner()), Some(0));
    assert_eq!(Nibble::new(15).map(|n| n.as_inner()), Some(15));
    assert!(Nibble::new(16).is_none());
    assert!(Nibble::new(255).is_none());
    assert_eq!(Nibble::masked(0xAB).as_inner(), 0x0B);
    assert_eq!(Nibble::zero().as_inner(), 0);
    assert!(UpperNibbleClear::test(&0x0F));
    assert!(!UpperNibbleClear::test(&0x10));
}

#[test]
fn reset_then_nop() {
    let mut bus = RamBus::new(&[0x00]);
    let mut state = CpuState::new();
    let mut output = Vec::new();
    let (trace, reached) = state.run(&mut bus, 1, &mut output);
    assert_eq!(state.get16(Architectural16::PC), 0x0001);
    assert_eq!(trace.total_execution_count(), 1);
    assert_eq!(trace.count(&Instruction::Nop), 1);
    assert_eq!(reached, ReachedBreakpoint::DidNot);
    assert!(output.is_empty());
    assert!(bus.io_writes.is_empty() && bus.io_reads.is_empty());
}

#[test]
fn load_immediate_and_store_absolute() {
    let mut bus = RamBus::new(&[0x1A, 0x42, 0x5E, 0x00, 0x80]);
    let mut state = CpuState::new();
    let (retired, reached, _) = run(&mut state, &mut bus, 2);
    assert_eq!(retired, 2);
    assert_eq!(reached, ReachedBreakpoint::DidNot);
    assert_eq!(state.get8(Architectural8::A), 0x42);
    assert_eq!(bus.memory[0x8000], 0x42);
    assert_eq!(state.get16(Architectural16::PC), 0x0005);
}

#[test]
fn swi_and_reti() {
    let mut image = vec![0u8; 0x0E];
    image[0] = 0x01;
    image[1] = 0xD2;
    image[0x0C] = 0x01;
    image[0x0D] = 0xD3;
    let mut bus = RamBus::new(&image);
    let mut state = CpuState::new();
    state.status.carry = true;
    state.status.irq_enable = true;
    let before = *state.status();

    run(&mut state, &mut bus, 1);
    assert_eq!(state.status().privilege_level, PrivilegeLevel::Kernel);
    assert!(!state.status().irq_enable);
    assert!(!state.status().nmi_active);
    assert_eq!(state.get16(Architectural16::PC), 0x000C);
    assert_eq!(state.get16(Architectural16::SP), 0xFFFD);
    // The program counter stood at 2: its high byte was pushed first.
    assert_eq!(bus.memory[0x0000], 0x00);
    assert_eq!(bus.memory[0xFFFF], 0x02);
    assert_eq!(bus.memory[0xFFFE], before.to_byte());

    run(&mut state, &mut bus, 1);
    assert_eq!(state.get16(Architectural16::PC), 0x0002);
    assert_eq!(state.get16(Architectural16::SP), 0x0000);
    assert_eq!(*state.status(), before);
}

#[test]
fn reti_pops_the_status_in_user_mode() {
    // The status byte lies in bank 3; the program counter is popped under
    // the status that was restored.
    let mut image = vec![0u8; 0x10];
    image[0] = 0x01;
    image[1] = 0xD3;
    let mut bus = RamBus::new(&image);
    let mut state = CpuState::new();
    state.bank_register = Nibble::new(3).unwrap();
    state.registers.sp = 0x8FFD;
    bus.memory[0x8FFE] = 0x40;
    bus.memory[0x8FFF] = 0x34;
    bus.memory[0x9000] = 0x12;
    run(&mut state, &mut bus, 1);
    assert_eq!(state.get16(Architectural16::PC), 0x1234);
    assert_eq!(state.get16(Architectural16::SP), 0x9000);
    assert_eq!(state.status().privilege_level, PrivilegeLevel::User);
    let reads = bus.data_reads();
    assert_eq!(
        reads,
        vec![
            Access { privilege: PrivilegeLevel::User, kind: MemoryAddressKind::Data, bank: 3, base: 0x8FFE },
            Access { privilege: PrivilegeLevel::User, kind: MemoryAddressKind::Data, bank: 3, base: 0x8FFF },
            Access { privilege: PrivilegeLevel::User, kind: MemoryAddressKind::Data, bank: 3, base: 0x9000 },
        ]
    );
}

#[test]
fn breakpoint_io() {
    // LD A, #0x07; NOP; OUT port #0x03, A; NOP
    let mut bus = RamBus::new(&[0x1A, 0x07, 0x00, 0xCA, 0x03, 0x00]);
    bus.break_port = Some(0x03);
    let mut state = CpuState::new();
    let (retired, reached, output) = run(&mut state, &mut bus, 10);
    assert_eq!(reached, ReachedBreakpoint::Did);
    assert_eq!(retired, 3);
    assert!(output.is_empty());
    assert_eq!(bus.io_writes, vec![(0, 0x0003, 0x07)]);
    assert_eq!(state.get16(Architectural16::PC), 0x0005);
}

#[test]
fn carry_chained_add() {
    // SET C; LD A, #0x7F; ADDC A, A; ADDC A, A
    let mut bus = RamBus::new(&[0x02, 0x1A, 0x7F, 0x01, 0x29, 0x01, 0x29]);
    let mut state = CpuState::new();
    run(&mut state, &mut bus, 3);
    assert_eq!(state.get8(Architectural8::A), 0xFF);
    assert!(!state.status().zero);
    let carry = if state.status().carry { 1u16 } else { 0 };
    run(&mut state, &mut bus, 1);
    let expected = ((0xFFu16 + 0xFF + carry) % 256) as u8;
    assert_eq!(state.get8(Architectural8::A), expected);
    assert_eq!(state.status().zero, expected == 0);
}

#[test]
fn bank_gated_kernel_data_peek() {
    // LD A, #0x05; MV BR, A; SET B; LD A, [0x1234]
    let program = [0x1A, 0x05, 0x09, 0x06, 0x1E, 0x34, 0x12];
    let mut bus = RamBus::new(&program);
    let mut state = CpuState::new();
    run(&mut state, &mut bus, 4);
    assert_eq!(state.br().as_inner(), 5);
    assert!(state.status().bank_enable);
    assert_eq!(
        bus.data_reads(),
        vec![Access { privilege: PrivilegeLevel::Kernel, kind: MemoryAddressKind::Data, bank: 5, base: 0x1234 }]
    );
    assert!(bus.reads.borrow().iter().all(|a| a.kind == MemoryAddressKind::Data || a.bank == 0));

    // LD A, #0x05; MV BR, A; CLR B; LD A, [0x1234]
    let program = [0x1A, 0x05, 0x09, 0x07, 0x1E, 0x34, 0x12];
    let mut bus = RamBus::new(&program);
    let mut state = CpuState::new();
    run(&mut state, &mut bus, 4);
    assert_eq!(state.br().as_inner(), 5);
    assert_eq!(
        bus.data_reads(),
        vec![Access { privilege: PrivilegeLevel::Kernel, kind: MemoryAddressKind::Data, bank: 0, base: 0x1234 }]
    );
}

#[test]
fn the_bank_follows_the_table() {
    for privilege in [PrivilegeLevel::Kernel, PrivilegeLevel::User] {
        for kind in [MemoryAddressKind::Code, MemoryAddressKind::Data] {
            for bank_enable in [false, true] {
                for br in 0..16u8 {
                    let bank = effective_bank(privilege, kind, bank_enable, Nibble::new(br).unwrap()).as_inner();
                    let expected = match (privilege, kind, bank_enable) {
                        (PrivilegeLevel::User, _, _) => br,
                        (PrivilegeLevel::Kernel, MemoryAddressKind::Code, _) => 0,
                        (PrivilegeLevel::Kernel, MemoryAddressKind::Data, false) => 0,
                        (PrivilegeLevel::Kernel, MemoryAddressKind::Data, true) => br,
                    };
                    assert_eq!(bank, expected);
                }
            }
        }
    }
}

#[test]
fn a_pushed_byte_is_popped_again() {
    for value in [0x00u8, 0x5A, 0xFF] {
        let mut bus = RamBus::new(&[]);
        let mut state = CpuState::new();
        state.registers.sp = 0x9000;
        state.push_byte(&mut bus, value);
        assert_eq!(state.get16(Architectural16::SP), 0x8FFF);
        assert_eq!(bus.memory[0x9000], value);
        assert_eq!(state.pop_byte(&mut bus), value);
        assert_eq!(state.get16(Architectural16::SP), 0x9000);
    }
}

#[test]
fn a_pushed_word_is_popped_again() {
    for word in [0x0000u16, 0x1234, 0xFFFF, 0x00FF] {
        let mut bus = RamBus::new(&[]);
        let mut state = CpuState::new();
        state.registers.sp = 0x9000;
        state.push_word(&mut bus, word);
        assert_eq!(state.get16(Architectural16::SP), 0x8FFE);
        assert_eq!(bus.memory[0x9000], (word >> 8) as u8);
        assert_eq!(bus.memory[0x8FFF], (word & 0xFF) as u8);
        assert_eq!(state.pop_word(&mut bus), word);
        assert_eq!(state.get16(Architectural16::SP), 0x9000);
    }
}

#[test]
fn push_and_pop_instructions_use_the_stack() {
    // LD A, #0x11; PUSH A; LD A, #0x22; POP B; LD X, #0xBEEF; PUSH X; POP Y
    let program = [0x1A, 0x11, 0x01, 0xC1, 0x1A, 0x22, 0x01, 0xC8, 0x01, 0x04, 0xEF, 0xBE, 0x01, 0xC5, 0x01, 0xCC];
    let mut bus = RamBus::new(&program);
    let mut state = CpuState::new();
    state.registers.sp = 0xA000;
    run(&mut state, &mut bus, 7);
    assert_eq!(state.get8(Architectural8::A), 0x22);
    assert_eq!(state.get8(Architectural8::B), 0x11);
    assert_eq!(state.get16(Architectural16::X), 0xBEEF);
    assert_eq!(state.get16(Architectural16::Y), 0xBEEF);
    assert_eq!(state.get16(Architectural16::SP), 0xA000);
}

#[test]
fn the_stack_pointer_wraps_below_zero() {
    let mut bus = RamBus::new(&[]);
    let mut state = CpuState::new();
    state.push_byte(&mut bus, 0x77);
    assert_eq!(state.get16(Architectural16::SP), 0xFFFF);
    assert_eq!(bus.memory[0x0000], 0x77);
    assert_eq!(state.pop_byte(&mut bus), 0x77);
    assert_eq!(state.get16(Architectural16::SP), 0x0000);
}

#[test]
fn the_program_counter_wraps_at_the_top() {
    let mut bus = RamBus::new(&[]);
    bus.memory[0xFFFF] = 0x00;
    let mut state = CpuState::new();
    state.set16(Architectural16::PC, 0xFFFF);
    run(&mut state, &mut bus, 1);
    assert_eq!(state.get16(Architectural16::PC), 0x0000);

    // LD A, #imm across the top of memory
    bus.memory[0xFFFF] = 0x1A;
    bus.memory[0x0000] = 0x99;
    state.set16(Architectural16::PC, 0xFFFF);
    run(&mut state, &mut bus, 1);
    assert_eq!(state.get16(Architectural16::PC), 0x0001);
    assert_eq!(state.get8(Architectural8::A), 0x99);
}

#[test]
fn words_and_bytes_wrap() {
    assert_eq!(increment_word(0xFFFF), 0x0000);
    assert_eq!(increment_word(0x1234), 0x1235);
    assert_eq!(decrement_word(0x0000), 0xFFFF);
    assert_eq!(decrement_word(0x1234), 0x1233);
    assert_eq!(increment_byte(0xFF), 0x00);
    assert_eq!(increment_byte(0x41), 0x42);
    assert_eq!(decrement_byte(0x00), 0xFF);
    assert_eq!(decrement_byte(0x42), 0x41);
}

#[test]
fn words_split_and_join() {
    assert_eq!(split_bytes(0x1234), (0x12, 0x34));
    assert_eq!(split_bytes(0x00FF), (0x00, 0xFF));
    assert_eq!(concatenate(0x12, 0x34), 0x1234);
    assert_eq!(concatenate(0xFF, 0x00), 0xFF00);
    for word in [0u16, 1, 0x00FF, 0x0100, 0x8000, 0xFFFF] {
        let (high, low) = split_bytes(word);
        assert_eq!(concatenate(high, low), word);
    }
}

#[test]
fn offsets_are_signed() {
    assert_eq!(address_with_offset(0x1000, 0x00), 0x1000);
    assert_eq!(address_with_offset(0x1000, 0x7F), 0x107F);
    assert_eq!(address_with_offset(0x1000, 0x80), 0x0F80);
    assert_eq!(address_with_offset(0x1000, 0xFF), 0x0FFF);
    assert_eq!(address_with_offset(0x0000, 0xFF), 0xFFFF);
    assert_eq!(address_with_offset(0xFFFF, 0x01), 0x0000);
    assert_eq!(address_with_offset(0xFFC0, 0x7F), 0x003F);
}

#[test]
fn two_operand_operations() {
    assert_eq!(alu2(Alu2Op::Addc, 0x7F, 0x7F, true), 0xFF);
    assert_eq!(alu2(Alu2Op::Addc, 0x7F, 0x7F, false), 0xFE);
    assert_eq!(alu2(Alu2Op::Addc, 0xFF, 0xFF, true), 0xFF);
    assert_eq!(alu2(Alu2Op::Addc, 0xFF, 0x01, false), 0x00);
    assert_eq!(alu2(Alu2Op::Subb, 0x10, 0x01, true), 0x0F);
    assert_eq!(alu2(Alu2Op::Subb, 0x10, 0x01, false), 0x0E);
    assert_eq!(alu2(Alu2Op::Subb, 0x00, 0x01, true), 0xFF);
    assert_eq!(alu2(Alu2Op::Subb, 0x00, 0xFF, false), 0x00);
    assert_eq!(alu2(Alu2Op::And, 0b1100, 0b1010, false), 0b1000);
    assert_eq!(alu2(Alu2Op::Or, 0b1100, 0b1010, false), 0b1110);
    assert_eq!(alu2(Alu2Op::Xor, 0b1100, 0b1010, false), 0b0110);
    assert_eq!(alu2(Alu2Op::Cmp, 0x05, 0x05, true), 0x00);
    assert_eq!(alu2(Alu2Op::Cmp, 0x05, 0x03, true), 0x02);
    assert_eq!(alu2(Alu2Op::Cmp, 0x03, 0x05, false), 0x02);
    assert_eq!(wrapping_subtract(0x00, 0xFF), 0xFF);
    assert_eq!(wrapping_subtract(0x09, 0x09), 0x00);
}

#[test]
fn one_operand_operations() {
    assert_eq!(alu1(Alu1Op::Shl, 0x81), 0x02);
    assert_eq!(alu1(Alu1Op::Shl, 0x01), 0x02);
    // A shift to the right is wired as a shift to the left.
    assert_eq!(alu1(Alu1Op::Shr, 0x81), 0x02);
    assert_eq!(alu1(Alu1Op::Shr, 0x40), 0x80);
    assert_eq!(alu1(Alu1Op::Asr, 0x81), 0xC0);
    assert_eq!(alu1(Alu1Op::Asr, 0x7E), 0x3F);
    assert_eq!(alu1(Alu1Op::Asr, 0xFF), 0xFF);
    assert_eq!(alu1(Alu1Op::Not, 0x0F), 0xF0);
    assert_eq!(alu1(Alu1Op::Neg, 0x01), 0xFF);
    assert_eq!(alu1(Alu1Op::Neg, 0x00), 0x00);
    assert_eq!(alu1(Alu1Op::Neg, 0x80), 0x80);
    assert_eq!(alu1(Alu1Op::Inc, 0xFF), 0x00);
    assert_eq!(alu1(Alu1Op::Dec, 0x00), 0xFF);
    assert_eq!(alu1(Alu1Op::Test, 0x5A), 0x5A);
}

#[test]
fn a_comparison_sets_zero_and_keeps_the_register() {
    // LD A, #0x09; CMP A, #0x09; CMP A, #0x08
    let mut bus = RamBus::new(&[0x1A, 0x09, 0x01, 0xB9, 0x09, 0x01, 0xB9, 0x08]);
    let mut state = CpuState::new();
    run(&mut state, &mut bus, 2);
    assert!(state.status().zero);
    assert_eq!(state.get8(Architectural8::A), 0x09);
    run(&mut state, &mut bus, 1);
    assert!(!state.status().zero);
    assert_eq!(state.get8(Architectural8::A), 0x09);
}

#[test]
fn a_test_sets_zero_and_other_unary_operations_leave_the_flags() {
    // TEST A; LD A, #0x01; DEC A; TEST A; INC A; TEST A
    let mut bus = RamBus::new(&[0x01, 0xBD, 0x1A, 0x01, 0x01, 0xA5, 0x01, 0xBD, 0x01, 0xA1, 0x01, 0xBD]);
    let mut state = CpuState::new();
    state.status.zero = false;
    run(&mut state, &mut bus, 1);
    assert!(state.status().zero);
    state.status.zero = false;
    run(&mut state, &mut bus, 2);
    assert_eq!(state.get8(Architectural8::A), 0x00);
    assert!(!state.status().zero);
    run(&mut state, &mut bus, 1);
    assert!(state.status().zero);
    run(&mut state, &mut bus, 1);
    assert_eq!(state.get8(Architectural8::A), 0x01);
    assert!(state.status().zero);
    run(&mut state, &mut bus, 1);
    assert!(!state.status().zero);
}

#[test]
fn jumps_follow_the_zero_flag() {
    // CMP A, #0x00; BR EQ +2; NOP; NOP; BR NE 0x4000; JMP 0x2000
    let program = [0x01, 0xB9, 0x00, 0x01, 0xD8, 0x02, 0x00, 0x00, 0x01, 0xDD, 0x00, 0x40, 0x01, 0xD5, 0x00, 0x20];
    let mut bus = RamBus::new(&program);
    let mut state = CpuState::new();
    run(&mut state, &mut bus, 2);
    assert_eq!(state.get16(Architectural16::PC), 0x0008);
    run(&mut state, &mut bus, 1);
    assert_eq!(state.get16(Architectural16::PC), 0x000C);
    run(&mut state, &mut bus, 1);
    assert_eq!(state.get16(Architectural16::PC), 0x2000);
}

#[test]
fn a_relative_jump_backwards() {
    // at 0x0010: JMP PC-4
    let mut bus = RamBus::new(&[]);
    bus.memory[0x0010] = 0x01;
    bus.memory[0x0011] = 0xD4;
    bus.memory[0x0012] = 0xFC;
    let mut state = CpuState::new();
    state.set16(Architectural16::PC, 0x0010);
    run(&mut state, &mut bus, 1);
    assert_eq!(state.get16(Architectural16::PC), 0x000F);
}

#[test]
fn call_and_return() {
    // CALL 0x0100 ... at 0x0100: RET
    let mut bus = RamBus::new(&[0x01, 0xCE, 0x00, 0x01]);
    bus.memory[0x0100] = 0x01;
    bus.memory[0x0101] = 0xD1;
    let mut state = CpuState::new();
    state.registers.sp = 0x9000;
    run(&mut state, &mut bus, 1);
    assert_eq!(state.get16(Architectural16::PC), 0x0100);
    assert_eq!(state.get16(Architectural16::SP), 0x8FFE);
    assert_eq!(bus.memory[0x9000], 0x00);
    assert_eq!(bus.memory[0x8FFF], 0x04);
    run(&mut state, &mut bus, 1);
    assert_eq!(state.get16(Architectural16::PC), 0x0004);
    assert_eq!(state.get16(Architectural16::SP), 0x9000);
}

#[test]
fn sixteen_bit_loads_and_stores_go_low_byte_first() {
    // LD X, #0xCAFE; ST [0x9000], X; LD Y, [0x9000]
    let mut bus = RamBus::new(&[0x01, 0x04, 0xFE, 0xCA, 0x01, 0x0E, 0x00, 0x90, 0x01, 0x0A, 0x00, 0x90]);
    let mut state = CpuState::new();
    run(&mut state, &mut bus, 3);
    assert_eq!(bus.memory[0x9000], 0xFE);
    assert_eq!(bus.memory[0x9001], 0xCA);
    let stores: Vec<(u16, u8)> = bus.writes.iter().map(|(a, d)| (a.base, *d)).collect();
    assert_eq!(stores, vec![(0x9000, 0xFE), (0x9001, 0xCA)]);
    assert_eq!(bus.data_reads().iter().map(|a| a.base).collect::<Vec<_>>(), vec![0x9000, 0x9001]);
    assert_eq!(state.get16(Architectural16::Y), 0xCAFE);
}

#[test]
fn pairs_are_views_of_two_registers() {
    // LD A, #0x12; LD B, #0x34; MV X, AB; LD Y, #0xABCD; MV CD, Y
    let mut bus = RamBus::new(&[0x1A, 0x12, 0x1B, 0x34, 0xFA, 0x01, 0x05, 0xCD, 0xAB, 0x01, 0x03]);
    let mut state = CpuState::new();
    run(&mut state, &mut bus, 5);
    assert_eq!(state.get16(Architectural16::X), 0x1234);
    assert_eq!(state.get8(Architectural8::C), 0xAB);
    assert_eq!(state.get8(Architectural8::D), 0xCD);
}

#[test]
fn reset_comes_before_the_non_maskable_interrupt() {
    let mut bus = RamBus::new(&[0x00]);
    bus.rst = true;
    bus.nmi = true;
    let mut state = CpuState::new();
    state.set16(Architectural16::PC, 0x0123);
    state.set8(Architectural8::A, 0x55);
    state.registers.sp = 0x9000;
    state.status.carry = true;
    let (retired, _, _) = run(&mut state, &mut bus, 1);
    assert_eq!(retired, 0);
    assert_eq!(state, CpuState::new());
    assert!(bus.nmi, "a reset cycle leaves the latch alone");
    assert!(bus.writes.is_empty());
}

#[test]
fn the_non_maskable_interrupt_comes_before_the_interrupt_request() {
    let mut bus = RamBus::new(&[0x00]);
    bus.nmi = true;
    bus.irq = true;
    let mut state = CpuState::new();
    state.set16(Architectural16::PC, 0x0123);
    state.registers.sp = 0x9000;
    state.status.irq_enable = true;
    state.status.privilege_level = PrivilegeLevel::User;
    let pushed = state.status().to_byte();
    let (retired, _, _) = run(&mut state, &mut bus, 1);
    assert_eq!(retired, 0);
    assert_eq!(state.get16(Architectural16::PC), 0x0004);
    assert!(state.status().nmi_active);
    assert!(!state.status().irq_enable);
    assert_eq!(state.status().privilege_level, PrivilegeLevel::Kernel);
    assert!(!bus.nmi, "the probe consumed the latch");
    assert_eq!(state.get16(Architectural16::SP), 0x8FFD);
    assert_eq!(bus.memory[0x9000], 0x01);
    assert_eq!(bus.memory[0x8FFF], 0x23);
    assert_eq!(bus.memory[0x8FFE], pushed);
    assert!(bus.writes.iter().all(|(a, _)| a.privilege == PrivilegeLevel::User));
}

#[test]
fn a_latched_non_maskable_interrupt_is_serviced_once() {
    let mut bus = RamBus::new(&[]);
    bus.nmi = true;
    let mut state = CpuState::new();
    state.set16(Architectural16::PC, 0x0100);
    state.registers.sp = 0x9000;
    let (retired, _, _) = run(&mut state, &mut bus, 1);
    assert_eq!(retired, 0);
    assert_eq!(state.get16(Architectural16::PC), 0x0004);
    let (retired, _, _) = run(&mut state, &mut bus, 1);
    assert_eq!(retired, 1);
    assert_eq!(state.get16(Architectural16::PC), 0x0005);
    assert_eq!(state.get16(Architectural16::SP), 0x8FFD);
}

#[test]
fn a_nested_non_maskable_interrupt_resets_the_processor() {
    let mut bus = RamBus::new(&[]);
    bus.nmi = true;
    let mut state = CpuState::new();
    state.set16(Architectural16::PC, 0x0100);
    state.registers.sp = 0x9000;
    state.status.nmi_active = true;
    run(&mut state, &mut bus, 1);
    assert_eq!(state, CpuState::new());
    assert!(bus.writes.is_empty());
}

#[test]
fn a_held_interrupt_request_is_serviced_whenever_requests_are_enabled() {
    let mut bus = RamBus::new(&[]);
    // at the vector: SET I, so that the next cycle finds requests enabled
    bus.memory[0x0008] = 0x04;
    bus.irq = true;
    let mut state = CpuState::new();
    state.set16(Architectural16::PC, 0x0100);
    state.registers.sp = 0x9000;
    state.status.irq_enable = true;

    let (retired, _, _) = run(&mut state, &mut bus, 1);
    assert_eq!(retired, 0);
    assert_eq!(state.get16(Architectural16::PC), 0x0008);
    assert!(!state.status().irq_enable);
    assert!(bus.irq, "the line is sampled, not consumed");

    // requests disabled: the cycle executes an instruction
    let (retired, _, _) = run(&mut state, &mut bus, 1);
    assert_eq!(retired, 1);
    assert_eq!(state.get16(Architectural16::PC), 0x0009);
    assert!(state.status().irq_enable);

    // requests enabled again and the line still held: serviced again
    let (retired, _, _) = run(&mut state, &mut bus, 1);
    assert_eq!(retired, 0);
    assert_eq!(state.get16(Architectural16::PC), 0x0008);
    assert_eq!(state.get16(Architectural16::SP), 0x8FFA);
}

#[test]
fn a_stall_changes_nothing() {
    let mut bus = RamBus::new(&[0x1A, 0x42]);
    bus.req = true;
    let mut state = CpuState::new();
    let (retired, reached, _) = run(&mut state, &mut bus, 5);
    assert_eq!(retired, 0);
    assert_eq!(reached, ReachedBreakpoint::DidNot);
    assert_eq!(state, CpuState::new());
    bus.req = false;
    let (retired, _, _) = run(&mut state, &mut bus, 1);
    assert_eq!(retired, 1);
    assert_eq!(state.get8(Architectural8::A), 0x42);
}

#[test]
fn a_run_stops_when_its_budget_is_spent() {
    let mut bus = RamBus::new(&[]);
    let mut state = CpuState::new();
    let mut output = Vec::new();
    let (trace, reached) = state.run(&mut bus, 100, &mut output);
    assert_eq!(reached, ReachedBreakpoint::DidNot);
    assert_eq!(trace.total_execution_count(), 100);
    assert_eq!(trace.count(&Instruction::Nop), 100);
    assert_eq!(state.get16(Architectural16::PC), 100);
    let (trace, reached) = state.run(&mut bus, 0, &mut output);
    assert_eq!(reached, ReachedBreakpoint::DidNot);
    assert_eq!(trace.total_execution_count(), 0);
    assert_eq!(state.get16(Architectural16::PC), 100);
}

#[test]
fn a_halt_ends_the_run_without_a_breakpoint() {
    // OUT port #0x10, A; NOP
    let mut bus = RamBus::new(&[0xCA, 0x10, 0x00]);
    bus.halt_port = Some(0x10);
    let mut state = CpuState::new();
    let (retired, reached, output) = run(&mut state, &mut bus, 10);
    assert_eq!(retired, 1);
    assert_eq!(reached, ReachedBreakpoint::DidNot);
    assert!(output.is_empty());
    assert_eq!(state.get16(Architectural16::PC), 0x0002);
}

#[test]
fn bytes_for_the_host_are_put_out_in_order_and_the_run_goes_on() {
    // LD A, #'h'; OUT port #1, A; LD A, #'i'; OUT port #1, A; NOP
    let mut bus = RamBus::new(&[0x1A, 0x68, 0xCA, 0x01, 0x1A, 0x69, 0xCA, 0x01, 0x00]);
    bus.print_port = Some(0x01);
    let mut state = CpuState::new();
    let mut output = vec![0x3E];
    let (trace, reached) = state.run(&mut bus, 5, &mut output);
    assert_eq!(reached, ReachedBreakpoint::DidNot);
    assert_eq!(trace.total_execution_count(), 5);
    assert_eq!(output, vec![0x3E, 0x68, 0x69]);
    assert_eq!(trace.count(&Instruction::Out(IOMode::Port(0x01), Register8::A)), 2);
}

#[test]
fn a_port_read_fills_its_register_unless_the_bus_asks_for_an_action() {
    // IN B, port #0x20; IN C, port #0x21
    let mut bus = RamBus::new(&[0xA9, 0x20, 0xB4, 0x21]);
    bus.input = 0x5C;
    bus.halt_port = Some(0x21);
    let mut state = CpuState::new();
    state.set8(Architectural8::C, 0x11);
    let (retired, reached, _) = run(&mut state, &mut bus, 5);
    assert_eq!(retired, 2);
    assert_eq!(reached, ReachedBreakpoint::DidNot);
    assert_eq!(state.get8(Architectural8::B), 0x5C);
    assert_eq!(state.get8(Architectural8::C), 0x11);
    assert_eq!(bus.io_reads, vec![(0, 0x0020), (0, 0x0021)]);
}

#[test]
fn execute_reports_the_instruction_and_the_action() {
    let mut bus = RamBus::new(&[0xCA, 0x03, 0x1E, 0x00, 0x90]);
    bus.break_port = Some(0x03);
    bus.memory[0x9000] = 0x77;
    let mut state = CpuState::new();
    assert_eq!(
        state.execute(&mut bus),
        ExecutionResult::Action(Instruction::Out(IOMode::Port(0x03), Register8::A), EnvironmentAction::Break)
    );
    assert_eq!(
        state.execute(&mut bus),
        ExecutionResult::Instruction(Instruction::Load8(Register8::A, Memory8Mode::Absolute(0x9000)))
    );
    assert_eq!(state.get8(Architectural8::A), 0x77);
    assert_eq!(state.decode(&mut bus), Instruction::Nop);
}

#[test]
fn a_processor_on_a_bus_runs_cycles_and_resets() {
    let mut bus = RamBus::new(&[0x1A, 0x42, 0x01, 0x29]);
    let mut state = CpuState::new();
    let mut cpu = Cpu { state: &mut state, bus: &mut bus };
    assert_eq!(
        cpu.cycle(),
        Some(ExecutionResult::Instruction(Instruction::Load8Immediate(Register8::A, 0x42)))
    );
    assert_eq!(
        cpu.cycle(),
        Some(ExecutionResult::Instruction(Instruction::Alu2(
            Alu2Op::Addc,
            Register8::A,
            Alu2OpMode::Register(Register8::A)
        )))
    );
    assert_eq!(cpu.state.get8(Architectural8::A), 0x84);
    cpu.reset();
    assert_eq!(state, CpuState::new());
}
