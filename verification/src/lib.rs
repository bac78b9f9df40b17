//! A software model of the BW8 eight-bit microprocessor: its instruction set
//! and byte encoding, the cycle-stepped execution engine with the bus it
//! talks to, and a small emulated machine built around both.

pub mod arch;
pub mod emu;
pub mod isa;
pub mod uasm;
