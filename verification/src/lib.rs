//! Core of an 8-bit handheld game console emulator: the CPU with its full
//! opcode space, the register file, the interrupt controller, the memory bus
//! with its region decoding, and the timer unit.
//!
//! Every public operation carries a contract that pins down, bit for bit, the
//! registers, flags, memory and cycle cost it produces; the contracts are
//! stated over mathematical views (`Seq`-based snapshots of each memory
//! region) and spec-level transition functions.

pub mod alu;
pub mod cartridge;
pub mod cpu;
pub mod instructions;
pub mod interrupts;
pub mod machine;
pub mod mmu;
pub mod ppu;
pub mod registers;
pub mod timer;
