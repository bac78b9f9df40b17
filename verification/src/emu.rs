//! The emulated machine: a processor, sixty-four kilobytes of memory with a
//! frame buffer behind the I/O space, and a display that draws the frame
//! buffer's tiles.

use crate::arch::cpu::{CpuState, ReachedBreakpoint};
use crate::arch::semantics::{is_outcome, CycleRecord};
use crate::arch::trace::Trace;
use crate::isa::Byte;
use vstd::prelude::*;

pub mod bus;
pub mod laws;
pub mod vga;

pub use bus::Bw8Bus;
pub use vga::{Color, Vga};

verus! {

/// The machine: the processor, its bus and the display.
pub struct Bw8 {
    pub cpu: CpuState,
    pub bus: Bw8Bus,
    pub vga: Vga,
}

impl Bw8 {
    /// The display has a color for every pixel.
    pub open spec fn wf(&self) -> bool {
        self.vga.wf()
    }

    /// A machine after a reset, with the image at the bottom of its memory
    /// and a black display. The image fits in memory.
    pub fn new(image: &Vec<Byte>) -> (machine: Bw8)
        requires
            image.len() <= bus::MEMORY_SIZE,
        ensures
            machine.wf(),
            machine.cpu == CpuState::reset_state(),
            machine.vga.is_black(),
            forall|i: int| 0 <= i < image.len() ==> machine.bus.memory[i] == image[i],
            forall|i: int| image.len() <= i < bus::MEMORY_SIZE ==> machine.bus.memory[i] == 0,
            forall|i: int| 0 <= i < bus::FRAMEBUFFER_SIZE ==> machine.bus.framebuffer[i] == 0,
            !machine.bus.pending_rst && !machine.bus.pending_nmi && !machine.bus.pending_irq,
    {
        Bw8 { cpu: CpuState::new(), bus: Bw8Bus::new(image), vga: Vga::new() }
    }

    /// Runs the processor for at most the given number of cycles, as
    /// `CpuState::run` does, then draws the frame buffer.
    pub fn run(&mut self, cycles: usize, output: &mut Vec<Byte>) -> (outcome: (
        Trace,
        ReachedBreakpoint,
    ))
        requires
            old(self).wf(),
        ensures
            final(self).wf(),
            final(self).vga.shows(final(self).bus.framebuffer@),
            outcome.0.wf(),
            outcome.0@.len() <= cycles,
            exists|history: Seq<CycleRecord<Bw8Bus>>, written: Seq<Byte>|
                final(output)@ == old(output)@ + written && #[trigger] is_outcome(
                    old(self).cpu,
                    old(self).bus,
                    cycles as nat,
                    history,
                    final(self).cpu,
                    final(self).bus,
                    outcome.0@,
                    written,
                    outcome.1,
                ),
            old(self).cpu.port_free_run(old(self).bus, cycles as nat) matches Some(
                (state, after, trace),
            ) ==> {
                &&& final(self).cpu == state
                &&& final(self).bus == after
                &&& outcome.0@ == trace
                &&& outcome.1 == ReachedBreakpoint::DidNot
                &&& final(output)@ == old(output)@
            },
    {
        let rv = self.cpu.run(&mut self.bus, cycles, output);
        self.vga.clock(&self.bus);
        rv
    }

    /// Resets the machine: the processor is reset in a cycle of its own, the
    /// interrupt lines are released and the display is blanked. Memory and
    /// frame buffer keep what they hold.
    pub fn reset(&mut self)
        ensures
            final(self).wf(),
            final(self).cpu == CpuState::reset_state(),
            final(self).bus == (Bw8Bus {
                pending_rst: false,
                pending_nmi: false,
                pending_irq: false,
                ..old(self).bus
            }),
            final(self).vga.is_black(),
    {
        self.bus.set_reset(true);
        let mut unused: Vec<Byte> = Vec::new();
        proof {
            laws::lemma_reset_cycle(self.cpu, self.bus);
        }
        self.cpu.run(&mut self.bus, 1, &mut unused);
        self.bus.set_reset(false);
        self.bus.reset();
        self.vga.reset();
    }

    /// Raises the interrupt request line.
    pub fn inject_irq(&mut self)
        ensures
            *final(self) == (Bw8 {
                bus: Bw8Bus { pending_irq: true, ..old(self).bus },
                ..*old(self)
            }),
    {
        self.bus.set_irq(true);
    }

    /// Latches a non-maskable interrupt.
    pub fn inject_nmi(&mut self)
        ensures
            *final(self) == (Bw8 {
                bus: Bw8Bus { pending_nmi: true, ..old(self).bus },
                ..*old(self)
            }),
    {
        self.bus.set_nmi(true);
    }

    /// The picture on the display as bytes: red, green, blue and opacity for
    /// each pixel, row by row.
    pub fn vga_frame(&self) -> (data: Vec<u8>)
        requires
            self.wf(),
        ensures
            data.len() == 4 * vga::PIXEL_COUNT,
            forall|i: int, channel: int|
                0 <= i < vga::PIXEL_COUNT && 0 <= channel < 4 ==> data[4 * i + channel]
                    == self.vga.pixels[i]@[channel],
    {
        self.vga.pixel_data()
    }
}

} // verus!
