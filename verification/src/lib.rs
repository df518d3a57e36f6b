//! Execution core of a handheld-console emulator built around the Sharp
//! LR35902 CPU: a 64 KiB bus with an OAM DMA engine, a two-table instruction
//! decoder, the CPU register file with interrupt dispatch, and the pixel
//! processing unit with its dual-FIFO pipeline.

pub mod util;
pub mod cpu;
pub mod memory;
pub mod opcode;
pub mod ppu;
pub mod machine;
pub mod disassembly;
pub mod joypad;
