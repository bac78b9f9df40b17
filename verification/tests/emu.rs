use bw8::arch::{
    Architectural16, Architectural8, Bus, BusResult, CpuState, EnvironmentAction,
    MemoryAddressKind, Nibble, PhysicalAddress, PrivilegeLevel, ReachedBreakpoint,
};
use bw8::emu::{Bw8, Bw8Bus, Color, Vga};
use bw8::isa::{IOMode, Instruction, Register8};

fn at(base: u16) -> PhysicalAddress {
    PhysicalAddress::new(Nibble::zero(), base)
}

const K: PrivilegeLevel = PrivilegeLevel::Kernel;
const DATA: MemoryAddressKind = MemoryAddressKind::Data;

#[test]
fn a_new_bus_holds_the_image_and_zeros() {
    let bus = Bw8Bus::new(&vec![0x11, 0x22, 0x33]);
    assert_eq!(bus.inspect_memory(0), 0x11);
    assert_eq!(bus.inspect_memory(1), 0x22);
    assert_eq!(bus.inspect_memory(2), 0x33);
    assert_eq!(bus.inspect_memory(3), 0x00);
    assert_eq!(bus.inspect_memory(0xFFFF), 0x00);
    assert_eq!(bus.inspect_framebuffer(0), 0x00);
    assert_eq!(bus.inspect_framebuffer(0x6FFF), 0x00);
    assert!(!bus.is_rst_active());
    assert!(!bus.is_irq_active());
    assert!(!bus.is_req_active());
    let full = Bw8Bus::new(&vec![0xEE; 0x1_0000]);
    assert_eq!(full.inspect_memory(0xFFFF), 0xEE);
}

#[test]
fn writes_below_the_writable_part_are_dropped() {
    let mut bus = Bw8Bus::new(&vec![0x11]);
    bus.memory_write(K, DATA, at(0x0000), 0x99);
    bus.memory_write(K, DATA, at(0x7FFF), 0x99);
    bus.memory_write(K, DATA, at(0x8000), 0x42);
    bus.memory_write(PrivilegeLevel::User, MemoryAddressKind::Code, PhysicalAddress::new(Nibble::new(7).unwrap(), 0xFFFF), 0x43);
    assert_eq!(bus.memory_read(K, DATA, at(0x0000)), 0x11);
    assert_eq!(bus.memory_read(K, DATA, at(0x7FFF)), 0x00);
    assert_eq!(bus.memory_read(K, DATA, at(0x8000)), 0x42);
    assert_eq!(bus.memory_read(K, DATA, at(0xFFFF)), 0x43);
    assert_eq!(bus.inspect_memory(0x8000), 0x42);
}

#[test]
fn the_ports_of_the_bus() {
    let mut bus = Bw8Bus::new(&vec![]);
    assert!(matches!(bus.io_read(K, at(0x0001)), BusResult::Data(0)));
    assert!(matches!(bus.io_write(K, at(0x0001), 0x41), BusResult::Action(EnvironmentAction::WriteByte(0x41))));
    assert!(matches!(bus.io_write(K, at(0x0003), 0x41), BusResult::Action(EnvironmentAction::Break)));
    bus.set_irq(true);
    assert!(bus.is_irq_active());
    assert!(matches!(bus.io_write(K, at(0x0004), 0x41), BusResult::Data(())));
    assert!(bus.is_irq_active());
    assert!(matches!(bus.io_write(K, at(0x0002), 0x41), BusResult::Data(())));
    assert!(!bus.is_irq_active());
    assert!(matches!(bus.io_write(K, at(0x8000), 0x12), BusResult::Data(())));
    assert!(matches!(bus.io_write(K, at(0xEFFF), 0x34), BusResult::Data(())));
    assert!(matches!(bus.io_write(K, at(0xF000), 0x56), BusResult::Data(())));
    assert!(matches!(bus.io_write(K, at(0x7FFF), 0x78), BusResult::Data(())));
    assert_eq!(bus.inspect_framebuffer(0x0000), 0x12);
    assert_eq!(bus.inspect_framebuffer(0x6FFF), 0x34);
    assert_eq!(bus.inspect_memory(0x8000), 0x00);
}

#[test]
fn the_latch_is_consumed_and_the_lines_are_sampled() {
    let mut bus = Bw8Bus::new(&vec![]);
    bus.set_nmi(true);
    assert!(bus.is_nmi_active());
    assert!(!bus.is_nmi_active());
    bus.set_irq(true);
    assert!(bus.is_irq_active());
    assert!(bus.is_irq_active());
    bus.set_reset(true);
    assert!(bus.is_rst_active());
    assert!(bus.is_rst_active());
    bus.set_nmi(true);
    bus.reset();
    assert!(!bus.is_rst_active());
    assert!(!bus.is_irq_active());
    assert!(!bus.is_nmi_active());
}

#[test]
fn the_machine_loads_and_stores() {
    let mut machine = Bw8::new(&vec![0x1A, 0x42, 0x5E, 0x00, 0x80]);
    let mut output = Vec::new();
    let (trace, reached) = machine.run(2, &mut output);
    assert_eq!(reached, ReachedBreakpoint::DidNot);
    assert_eq!(trace.total_execution_count(), 2);
    assert_eq!(machine.cpu.get8(Architectural8::A), 0x42);
    assert_eq!(machine.bus.inspect_memory(0x8000), 0x42);
    assert_eq!(machine.cpu.get16(Architectural16::PC), 0x0005);
}

#[test]
fn the_machine_stops_at_its_breakpoint_port() {
    // NOP; LD A, #0x01; OUT port #0x03, A; NOP; NOP
    let mut machine = Bw8::new(&vec![0x00, 0x1A, 0x01, 0xCA, 0x03, 0x00, 0x00]);
    let mut output = Vec::new();
    let (trace, reached) = machine.run(10, &mut output);
    assert_eq!(reached, ReachedBreakpoint::Did);
    assert_eq!(trace.total_execution_count(), 3);
    assert_eq!(trace.count(&Instruction::Out(IOMode::Port(0x03), Register8::A)), 1);
    assert!(output.is_empty());
}

#[test]
fn the_machine_hands_bytes_to_the_host() {
    // LD A, #'o'; OUT port #1, A; LD A, #'k'; OUT port #1, A; OUT port #3, A
    let mut machine = Bw8::new(&vec![0x1A, 0x6F, 0xCA, 0x01, 0x1A, 0x6B, 0xCA, 0x01, 0xCA, 0x03]);
    let mut output = Vec::new();
    let (trace, reached) = machine.run(100, &mut output);
    assert_eq!(reached, ReachedBreakpoint::Did);
    assert_eq!(trace.total_execution_count(), 5);
    assert_eq!(output, vec![0x6F, 0x6B]);
}

#[test]
fn the_machine_services_injected_interrupts() {
    let mut machine = Bw8::new(&vec![0x04, 0x00, 0x00, 0x00]);
    machine.cpu.set16(Architectural16::SP, 0x9000);
    let mut output = Vec::new();
    machine.run(1, &mut output);
    assert!(machine.cpu.status().irq_enable);
    machine.inject_irq();
    let (trace, _) = machine.run(1, &mut output);
    assert_eq!(trace.total_execution_count(), 0);
    assert_eq!(machine.cpu.get16(Architectural16::PC), 0x0008);
    assert_eq!(machine.bus.inspect_memory(0x9000), 0x00);
    assert_eq!(machine.bus.inspect_memory(0x8FFF), 0x01);
    assert_eq!(machine.bus.inspect_memory(0x8FFE), 0x10);
    machine.inject_nmi();
    let (trace, _) = machine.run(1, &mut output);
    assert_eq!(trace.total_execution_count(), 0);
    assert_eq!(machine.cpu.get16(Architectural16::PC), 0x0004);
    assert!(machine.cpu.status().nmi_active);
    let (trace, _) = machine.run(1, &mut output);
    assert_eq!(trace.total_execution_count(), 1);
}

#[test]
fn a_reset_of_the_machine_keeps_its_memory() {
    let mut machine = Bw8::new(&vec![0x1A, 0x42, 0x5E, 0x00, 0x80]);
    let mut output = Vec::new();
    machine.run(2, &mut output);
    machine.inject_irq();
    machine.inject_nmi();
    machine.reset();
    assert_eq!(machine.cpu, CpuState::new());
    assert!(!machine.bus.is_rst_active());
    assert!(!machine.bus.is_irq_active());
    assert!(!machine.bus.is_nmi_active());
    assert_eq!(machine.bus.inspect_memory(0x8000), 0x42);
    assert_eq!(machine.bus.inspect_memory(0x0000), 0x1A);
    let frame = machine.vga_frame();
    assert!(frame.chunks(4).all(|pixel| pixel == [0, 0, 0, 255]));
}

#[test]
fn colors_take_three_three_and_two_bits() {
    assert_eq!(Color::new(1, 2, 3).channels, [1, 2, 3, 255]);
    assert_eq!(Color::black().channels, [0, 0, 0, 255]);
    assert_eq!(Color::from(0x00).channels, [0, 0, 0, 255]);
    assert_eq!(Color::from(0xFF).channels, [224, 224, 192, 255]);
    assert_eq!(Color::from(0b001_010_11).channels, [32, 64, 192, 255]);
    assert_eq!(Color::from(0b100_000_01).channels, [128, 0, 64, 255]);
}

#[test]
fn a_new_display_is_black() {
    let vga = Vga::new();
    let data = vga.pixel_data();
    assert_eq!(data.len(), 640 * 480 * 4);
    assert!(data.chunks(4).all(|pixel| pixel == [0, 0, 0, 255]));
}

#[test]
fn the_display_draws_tiles_from_the_frame_buffer() {
    let mut bus = Bw8Bus::new(&vec![]);
    // The tile at column 2, row 1 uses bitmap 3 and palette 5.
    let map = 256 * 1 + 2 * 2;
    bus.framebuffer[map] = 3;
    bus.framebuffer[map + 1] = 5;
    // Row 4 of bitmap 3: plane 0 has the leftmost bit, plane 3 the next one.
    let bitmap = 0x4000 + 32 * 3;
    bus.framebuffer[bitmap + 4] = 0b1000_0000;
    bus.framebuffer[bitmap + 4 + 24] = 0b0100_0000;
    // Palette 5: color 1 and color 8.
    let palette = 0x6000 + 16 * 5;
    bus.framebuffer[palette] = 0x03;
    bus.framebuffer[palette + 1] = 0xE0;
    bus.framebuffer[palette + 8] = 0x1C;
    // Palette 0, color 0, which every other tile shows.
    bus.framebuffer[0x6000] = 0xFF;

    let mut vga = Vga::new();
    vga.clock(&bus);
    let data = vga.pixel_data();
    let pixel = |x: usize, y: usize| -> [u8; 4] {
        let i = 4 * (x + y * 640);
        [data[i], data[i + 1], data[i + 2], data[i + 3]]
    };
    assert_eq!(pixel(16, 12), [224, 0, 0, 255]);
    assert_eq!(pixel(17, 12), [0, 224, 0, 255]);
    assert_eq!(pixel(18, 12), [0, 0, 192, 255]);
    assert_eq!(pixel(16, 11), [0, 0, 192, 255]);
    assert_eq!(pixel(0, 0), [224, 224, 192, 255]);
    assert_eq!(pixel(639, 479), [224, 224, 192, 255]);
    vga.reset();
    assert!(vga.pixel_data().chunks(4).all(|pixel| pixel == [0, 0, 0, 255]));
}

#[test]
fn a_run_of_the_machine_draws_the_frame_buffer() {
    // LD X, #0xE000; LD A, #0xE0; OUT [X+0], A
    let mut machine = Bw8::new(&vec![0x01, 0x04, 0x00, 0xE0, 0x1A, 0xE0, 0xCB, 0x00]);
    let mut output = Vec::new();
    let (trace, _) = machine.run(3, &mut output);
    assert_eq!(trace.total_execution_count(), 3);
    assert_eq!(machine.bus.inspect_framebuffer(0x6000), 0xE0);
    let frame = machine.vga_frame();
    assert_eq!(&frame[0..4], &[224, 0, 0, 255]);
}
