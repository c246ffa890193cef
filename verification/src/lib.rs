//! An Atari 2600 emulator core (MOS 6502 CPU, memory map with RIOT timer,
//! TIA video chip), a disassembler for the 6502 instruction set, and the
//! decisions of the Android front end that drives them.
pub mod tia;
pub mod memory;
pub mod disasm;
pub mod cpu;
pub mod lifecycle;
pub mod cpu_laws;
