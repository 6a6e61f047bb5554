//! Transpiler extension for the XRegs1024 64-bit RISC-V instruction encoding, which widens
//! register indices to 10 bits (1024 registers).
//!
//! Each instruction is two 32-bit words (8 bytes):
//!
//! Low word: the standard RISC-V bit layout with bits 6..0 = 0x3F (the 64-bit marker).
//!   Immediate bits stand at their standard positions; register fields hold the LOW 5 bits.
//!
//! High word:
//!   bits 16..10 = the RISC-V 7-bit major opcode
//!   bits 21..17 = rd high bits (bits 9..5)
//!   bits 26..22 = rs1 high bits (bits 9..5)
//!   bits 31..27 = rs2 high bits (bits 9..5)
//!
//! Full register: reg = high[4:0] << 5 | low[4:0]
pub mod bits;
pub mod decode;
pub mod instruction;
pub mod opcodes;
pub mod transpile;

pub use bits::{b_imm, i12_to_u24, i_imm, j_imm, s_imm, u_imm};
pub use decode::{decode_64bit, Decoded64};
pub use instruction::VmInstruction;
pub use transpile::{TranspilerOutput, XRegs1024TranspilerExtension};
pub mod laws;
