//! An emulator core for the monochrome Game Boy (DMG): the LR35902 processor, the
//! memory map, the scanline picture processor, the joypad matrix and the
//! per-frame loop that drives them.

pub mod alu;
pub mod cartridge;
pub mod cpu;
pub mod decode;
pub mod engine;
pub mod gpu;
pub mod keys;
pub mod mmu;
pub mod ops_alu;
pub mod ops_bits;
pub mod ops_flow;
pub mod ops_load;
