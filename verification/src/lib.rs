//! A MOS 6502 core as found in the NES: the instruction interpreter, the
//! memory bus that routes its accesses, the register face of the PPU, the
//! iNES cartridge loader and a one-line-per-instruction tracer.
//!
//! Every executable function carries a contract over a mathematical model of
//! the machine (`CpuState`, `BusState`, `PpuState`), and what holds of the
//! model whatever its state is proved in `laws`.

pub mod bits;
pub mod error;
pub mod rom;
pub mod mem;
pub mod ppu;
pub mod bus;
pub mod opcode;
pub mod cpu;
pub mod trace;
pub mod laws;
