//! A cycle-driven emulator core for a 6502-family CPU and its picture unit:
//! the memory map, the picture unit's ports and timing, the bus that routes
//! between them, and the instruction interpreter.
pub mod memory;
pub mod palette;
pub mod ppu;
pub mod vmem;
pub mod opcode;
pub mod cpu;
pub mod rom;
