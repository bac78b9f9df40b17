use bw8::arch::trace::Trace;
use bw8::isa::{Instruction, Memory8Mode, Register8};

#[test]
fn an_empty_trace_counts_nothing() {
    let trace = Trace::new();
    assert_eq!(trace.total_execution_count(), 0);
    assert_eq!(trace.count(&Instruction::Nop), 0);
}

#[test]
fn a_trace_counts_each_instruction_apart() {
    let mut trace = Trace::new();
    let load = Instruction::Load8(Register8::A, Memory8Mode::Absolute(0x1234));
    let other_load = Instruction::Load8(Register8::A, Memory8Mode::Absolute(0x1235));
    trace.add(&Instruction::Nop);
    trace.add(&load);
    trace.add(&Instruction::Nop);
    trace.add(&Instruction::Load8Immediate(Register8::B, 0x01));
    trace.add(&Instruction::Nop);
    assert_eq!(trace.total_execution_count(), 5);
    assert_eq!(trace.count(&Instruction::Nop), 3);
    assert_eq!(trace.count(&load), 1);
    assert_eq!(trace.count(&other_load), 0);
    assert_eq!(trace.count(&Instruction::Load8Immediate(Register8::B, 0x01)), 1);
    assert_eq!(trace.count(&Instruction::Load8Immediate(Register8::B, 0x02)), 0);
    assert_eq!(trace.count(&Instruction::SetCarry), 0);
}

#[test]
fn the_entries_of_a_trace_list_each_instruction_once() {
    let mut trace = Trace::new();
    assert!(trace.entries().is_empty());
    let load = Instruction::Load8Immediate(Register8::C, 0x10);
    trace.add(&Instruction::Ret);
    trace.add(&load);
    trace.add(&Instruction::Ret);
    trace.add(&Instruction::Swi);
    trace.add(&Instruction::Ret);
    let mut entries = trace.entries();
    entries.sort_by_key(|entry| entry.1);
    assert_eq!(entries.len(), 3);
    assert_eq!(entries[2], (Instruction::Ret, 3));
    assert!(entries.contains(&(load, 1)));
    assert!(entries.contains(&(Instruction::Swi, 1)));
    let total: usize = entries.iter().map(|entry| entry.1).sum();
    assert_eq!(total, trace.total_execution_count());
}
