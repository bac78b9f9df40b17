//! What holds of the processor whatever bus it is connected to.

use crate::arch::bus::{Bus, MemoryAddressKind};
use crate::arch::cpu::{CpuState, CycleKind, InterruptKind};
use crate::arch::semantics::{
    cycle_kind_spec, effective_bank_spec, next_kind, probed_bus, wrap_word,
};
use crate::arch::status::PrivilegeLevel;
use crate::arch::Nibble;
use crate::isa::instruction::{Instruction, Pointer};
use crate::isa::{high_byte, lemma_word_bytes, low_byte, Address, Byte, Word};
use vstd::prelude::*;

verus! {

/// A byte that was pushed is popped again, and the stack pointer is back
/// where it was, provided the memory kept the byte.
pub proof fn lemma_push_pop_byte<B: Bus>(state: CpuState, bus: B, value: Byte)
    requires
        state.peek(
            state.push_bus(bus, value),
            MemoryAddressKind::Data,
            state.reg16(Pointer::SP),
        ) == value,
    ensures
        state.after_push().popped(state.push_bus(bus, value)) == value,
        state.after_push().after_pop() == state,
{
}

/// A word that was pushed is popped again, and the stack pointer is back
/// where it was, provided the memory kept both bytes. After the push the
/// high byte lies where the stack pointer stood, the low byte below it.
pub proof fn lemma_push_pop_word<B: Bus>(state: CpuState, bus: B, word: Word)
    requires
        state.peek(
            state.push_word_bus(bus, word),
            MemoryAddressKind::Data,
            state.reg16(Pointer::SP),
        ) == high_byte(word),
        state.peek(
            state.push_word_bus(bus, word),
            MemoryAddressKind::Data,
            wrap_word(state.reg16(Pointer::SP) - 1),
        ) == low_byte(word),
    ensures
        state.after_push().after_push().popped_word(state.push_word_bus(bus, word)) == word,
        state.after_push().after_push().after_pop().after_pop() == state,
        state.after_push().after_push().reg16(Pointer::SP) == wrap_word(
            state.reg16(Pointer::SP) - 2,
        ),
{
    lemma_word_bytes(word, 0, 0);
}

/// The bank in front of an address, row by row: the bank register in user
/// mode; in kernel mode bank zero for code, and for data the bank register
/// only where the bank enable flag is set.
pub proof fn lemma_bank_table(kind: MemoryAddressKind, bank_enable: bool, bank_register: Nibble)
    ensures
        effective_bank_spec(PrivilegeLevel::User, kind, bank_enable, bank_register)
            == bank_register,
        effective_bank_spec(
            PrivilegeLevel::Kernel,
            MemoryAddressKind::Code,
            bank_enable,
            bank_register,
        ) == Nibble::zero_spec(),
        effective_bank_spec(PrivilegeLevel::Kernel, MemoryAddressKind::Data, false, bank_register)
            == Nibble::zero_spec(),
        effective_bank_spec(PrivilegeLevel::Kernel, MemoryAddressKind::Data, true, bank_register)
            == bank_register,
{
}

/// The lines in the order of their priority: reset comes before the
/// non-maskable interrupt, that before the interrupt request, and that
/// before a stall. Only with all four idle is an instruction executed.
pub proof fn lemma_line_priority(nmi: bool, irq: bool, req: bool)
    ensures
        cycle_kind_spec(true, nmi, irq, req) == CycleKind::Reset,
        cycle_kind_spec(false, true, irq, req) == CycleKind::Interrupt(InterruptKind::Nmi),
        cycle_kind_spec(false, false, true, req) == CycleKind::Interrupt(InterruptKind::Irq),
        cycle_kind_spec(false, false, false, true) == CycleKind::BusStall,
        cycle_kind_spec(false, false, false, false) == CycleKind::Instruction,
{
}

/// A reset cycle leaves the latch of the non-maskable interrupt alone;
/// every other cycle probes it.
pub proof fn lemma_reset_keeps_latch<B: Bus>(bus: B)
    ensures
        bus.rst_line() ==> next_kind(bus) == CycleKind::Reset && probed_bus(bus) == bus,
        !bus.rst_line() ==> probed_bus(bus) == bus.nmi_probed(),
{
}

/// The non-maskable interrupt is taken on its edge: on the bus that a probe
/// of the latch leaves behind, the next cycle is not one of that interrupt,
/// whatever the first one was.
pub proof fn lemma_nmi_is_taken_once<B: Bus>(bus: B)
    ensures
        next_kind(bus.nmi_probed()) != CycleKind::Interrupt(InterruptKind::Nmi),
        !bus.rst_line() ==> next_kind(probed_bus(bus)) != CycleKind::Interrupt(
            InterruptKind::Nmi,
        ),
{
    bus.lemma_probe_clears_latch();
}

/// The interrupt request is taken by its level: on every bus on which the
/// line is active, with no reset and no non-maskable interrupt above it, the
/// cycle is one of that interrupt, and a processor that has interrupt
/// requests enabled enters the interrupt in it.
pub proof fn lemma_irq_is_taken_while_held<B: Bus>(state: CpuState, bus: B)
    requires
        !bus.rst_line(),
        !bus.nmi_latch(),
        bus.nmi_probed().irq_line(),
    ensures
        next_kind(bus) == CycleKind::Interrupt(InterruptKind::Irq),
        state.status.irq_enable ==> state.port_free_cycle(bus) == Some(
            (
                state.interrupted(InterruptKind::Irq),
                state.interrupt_bus(bus.nmi_probed()),
                None::<Instruction>,
            ),
        ),
        !state.status.irq_enable ==> state.cycle_executes(next_kind(bus)),
{
    reveal(CpuState::port_free_cycle);
}

/// Sixteen-bit arithmetic wraps: one above 0xFFFF is 0x0000, one below
/// 0x0000 is 0xFFFF. So the program counter wraps when it moves past the top
/// of memory, and the stack pointer when a push moves it below the bottom.
pub proof fn lemma_words_wrap(word: Address, state: CpuState)
    ensures
        wrap_word(word + 1) == if word == 0xFFFF {
            0x0000
        } else {
            word + 1
        },
        wrap_word(word - 1) == if word == 0x0000 {
            0xFFFF
        } else {
            word - 1
        },
        state.reg16(Pointer::SP) == 0x0000 ==> state.after_push().reg16(Pointer::SP) == 0xFFFF,
        state.program_counter == 0xFFFF ==> state.with_pc(
            wrap_word(state.program_counter + 1),
        ).program_counter == 0x0000,
{
}

} // verus!
