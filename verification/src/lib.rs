//! A functional emulator for a 32-bit MIPS R3000-class processor: a bus that routes
//! accesses to memory-mapped devices, an instruction decoder and dispatcher, and the
//! processor core that executes one instruction per step.

pub mod bits;
pub mod bus_objects;
pub mod commandline_arguments;
pub mod cpu;
pub mod loader;
