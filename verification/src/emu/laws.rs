//! What holds of the processor on the bus of the emulated machine.

use crate::arch::cpu::{CpuState, CycleKind, InterruptKind};
use crate::arch::laws::{lemma_push_pop_byte, lemma_push_pop_word};
use crate::arch::semantics::next_kind;
use crate::emu::bus::{Bw8Bus, RAM_START};
use crate::isa::instruction::{Instruction, Pointer};
use crate::isa::{Byte, Word};
use vstd::multiset::Multiset;
use vstd::prelude::*;

verus! {

/// While the reset line is active, a cycle resets the processor and leaves
/// the bus as it is, the latch of the non-maskable interrupt included.
pub proof fn lemma_reset_cycle(state: CpuState, bus: Bw8Bus)
    requires
        bus.pending_rst,
    ensures
        state.port_free_run(bus, 1) == Some(
            (CpuState::reset_state(), bus, Multiset::<Instruction>::empty()),
        ),
{
    reveal(CpuState::port_free_cycle);
    reveal_with_fuel(CpuState::port_free_run, 2);
}

/// On this bus a byte that is pushed while the stack pointer lies in the
/// part of memory that can be written is popped again, and the stack pointer
/// is back where it was.
pub proof fn lemma_stack_keeps_byte(state: CpuState, bus: Bw8Bus, value: Byte)
    requires
        state.reg16(Pointer::SP) >= RAM_START,
    ensures
        state.after_push().popped(state.push_bus(bus, value)) == value,
        state.after_push().after_pop() == state,
{
    broadcast use vstd::array::group_array_axioms;

    lemma_push_pop_byte(state, bus, value);
}

/// On this bus a word that is pushed while both of its bytes come to lie in
/// the part of memory that can be written is popped again, and the stack
/// pointer is back where it was.
pub proof fn lemma_stack_keeps_word(state: CpuState, bus: Bw8Bus, word: Word)
    requires
        state.reg16(Pointer::SP) > RAM_START,
    ensures
        state.after_push().after_push().popped_word(state.push_word_bus(bus, word)) == word,
        state.after_push().after_push().after_pop().after_pop() == state,
{
    broadcast use vstd::array::group_array_axioms;

    lemma_push_pop_word(state, bus, word);
}

/// On this bus a non-maskable interrupt that was latched once is serviced
/// once: in the cycle after the one that entered it, the latch is clear,
/// whatever the service wrote to memory.
pub proof fn lemma_nmi_is_serviced_once(state: CpuState, bus: Bw8Bus)
    requires
        !bus.pending_rst,
        bus.pending_nmi,
    ensures
        next_kind(bus) == CycleKind::Interrupt(InterruptKind::Nmi),
        state.port_free_cycle(bus) matches Some((_, after, _)) && !after.pending_nmi
            && next_kind(after) != CycleKind::Interrupt(InterruptKind::Nmi),
{
    reveal(CpuState::port_free_cycle);
}

/// On this bus an interrupt request that is held is serviced in every cycle
/// in which the processor has such requests enabled: the service leaves the
/// line as it is.
pub proof fn lemma_irq_is_serviced_while_held(state: CpuState, bus: Bw8Bus)
    requires
        !bus.pending_rst,
        !bus.pending_nmi,
        bus.pending_irq,
        state.status.irq_enable,
    ensures
        state.port_free_cycle(bus) matches Some((entered, after, retired)) && {
            &&& entered == state.interrupted(InterruptKind::Irq)
            &&& retired is None
            &&& after.pending_irq
            &&& next_kind(after) == CycleKind::Interrupt(InterruptKind::Irq)
        },
{
    reveal(CpuState::port_free_cycle);
}

} // verus!
