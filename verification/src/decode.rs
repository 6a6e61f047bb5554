//! Field extraction for the 64-bit XRegs1024 encoding.
//!
//! An instruction is two 32-bit words. The low word keeps the standard RISC-V bit layout, with
//! bits 6..0 set to the marker 0x3F and register fields holding the low 5 bits of each register
//! index. The high word holds the RISC-V 7-bit major opcode in bits 16..10 and the upper 5 bits of
//! rd, rs1 and rs2 in bits 21..17, 26..22 and 31..27.
use vstd::prelude::*;
use vstd::arithmetic::power2::lemma2_to64;
use crate::bits::{bits, lemma_shift_mask};

verus! {

/// The major opcode carried in bits 16..10 of the high word.
pub open spec fn spec_opcode(hi: u32) -> nat {
    bits(hi, 10, 7)
}

/// The funct3 field, bits 14..12 of the low word.
pub open spec fn spec_funct3(lo: u32) -> nat {
    bits(lo, 12, 3)
}

/// The funct7 field, bits 31..25 of the low word.
pub open spec fn spec_funct7(lo: u32) -> nat {
    bits(lo, 25, 7)
}

/// A 10-bit register index: its upper 5 bits from the high word at `hi_start`, its lower 5 bits
/// from the low word at `lo_start`.
pub open spec fn spec_register(lo: u32, hi: u32, lo_start: nat, hi_start: nat) -> nat {
    bits(hi, hi_start, 5) * 32 + bits(lo, lo_start, 5)
}

/// Destination register index.
pub open spec fn spec_rd(lo: u32, hi: u32) -> nat {
    spec_register(lo, hi, 7, 17)
}

/// First source register index.
pub open spec fn spec_rs1(lo: u32, hi: u32) -> nat {
    spec_register(lo, hi, 15, 22)
}

/// Second source register index.
pub open spec fn spec_rs2(lo: u32, hi: u32) -> nat {
    spec_register(lo, hi, 20, 27)
}

/// Decoded 64-bit instruction fields.
pub struct Decoded64 {
    pub opcode: u8,
    pub funct3: u8,
    pub funct7: u8,
    pub rd: usize,
    pub rs1: usize,
    pub rs2: usize,
    /// Raw low word (for immediate extraction)
    pub lo: u32,
}

/// The fields of the word pair (`lo`, `hi`).
pub open spec fn spec_decode(lo: u32, hi: u32) -> Decoded64 {
    Decoded64 {
        opcode: spec_opcode(hi) as u8,
        funct3: spec_funct3(lo) as u8,
        funct7: spec_funct7(lo) as u8,
        rd: spec_rd(lo, hi) as usize,
        rs1: spec_rs1(lo, hi) as usize,
        rs2: spec_rs2(lo, hi) as usize,
        lo,
    }
}

/// Splits the word pair (`lo`, `hi`) into its fields; register indices are 10 bits wide.
pub fn decode_64bit(lo: u32, hi: u32) -> (d: Decoded64)
    ensures
        d == spec_decode(lo, hi),
        d.opcode == spec_opcode(hi),
        d.funct3 == spec_funct3(lo),
        d.funct7 == spec_funct7(lo),
        d.rd == spec_rd(lo, hi),
        d.rs1 == spec_rs1(lo, hi),
        d.rs2 == spec_rs2(lo, hi),
        d.opcode < 128,
        d.funct3 < 8,
        d.funct7 < 128,
        d.rd < 1024,
        d.rs1 < 1024,
        d.rs2 < 1024,
{
    proof {
        lemma2_to64();
        lemma_shift_mask(lo);
        lemma_shift_mask(hi);
    }
    let opcode = ((hi >> 10) & 0x7F) as u8;
    let funct3 = ((lo >> 12) & 0x7) as u8;
    let funct7 = ((lo >> 25) & 0x7F) as u8;

    let rd_lo = ((lo >> 7) & 0x1F) as usize;
    let rs1_lo = ((lo >> 15) & 0x1F) as usize;
    let rs2_lo = ((lo >> 20) & 0x1F) as usize;

    let rd_hi = ((hi >> 17) & 0x1F) as usize;
    let rs1_hi = ((hi >> 22) & 0x1F) as usize;
    let rs2_hi = ((hi >> 27) & 0x1F) as usize;

    proof {
        assert(forall|h: usize, l: usize| h < 32 && l < 32 ==> #[trigger] ((h << 5usize) | l) == h * 32 + l)
            by (bit_vector);
    }
    Decoded64 {
        opcode,
        funct3,
        funct7,
        rd: (rd_hi << 5) | rd_lo,
        rs1: (rs1_hi << 5) | rs1_lo,
        rs2: (rs2_hi << 5) | rs2_lo,
        lo,
    }
}

/// The low word of an instruction in the 64-bit encoding: the marker, the low 5 bits of each
/// register index and the funct fields at their standard RISC-V positions.
pub open spec fn encode_lo(funct3: u32, funct7: u32, rd: u32, rs1: u32, rs2: u32) -> u32 {
    0x3fu32 | ((rd & 0x1f) << 7u32) | (funct3 << 12u32) | ((rs1 & 0x1f) << 15u32) | ((rs2 & 0x1f)
        << 20u32) | (funct7 << 25u32)
}

/// The high word of an instruction in the 64-bit encoding: the opcode and the upper 5 bits of
/// each register index.
pub open spec fn encode_hi(opcode: u32, rd: u32, rs1: u32, rs2: u32) -> u32 {
    (opcode << 10u32) | (((rd >> 5u32) & 0x1f) << 17u32) | (((rs1 >> 5u32) & 0x1f) << 22u32) | ((
    (rs2 >> 5u32) & 0x1f) << 27u32)
}

/// Decoding gives back every field that was encoded: the opcode, funct3, funct7 and all three
/// 10-bit register indices; and the encoded low word carries the 64-bit marker.
pub proof fn lemma_decode_encode(opcode: u32, funct3: u32, funct7: u32, rd: u32, rs1: u32, rs2: u32)
    requires
        opcode < 128,
        funct3 < 8,
        funct7 < 128,
        rd < 1024,
        rs1 < 1024,
        rs2 < 1024,
    ensures
        ({
            let lo = encode_lo(funct3, funct7, rd, rs1, rs2);
            let hi = encode_hi(opcode, rd, rs1, rs2);
            &&& spec_opcode(hi) == opcode
            &&& spec_funct3(lo) == funct3
            &&& spec_funct7(lo) == funct7
            &&& spec_rd(lo, hi) == rd
            &&& spec_rs1(lo, hi) == rs1
            &&& spec_rs2(lo, hi) == rs2
            &&& lo % 0x80 == 0x3f
        }),
{
    let lo = encode_lo(funct3, funct7, rd, rs1, rs2);
    let hi = encode_hi(opcode, rd, rs1, rs2);
    lemma2_to64();
    lemma_shift_mask(lo);
    lemma_shift_mask(hi);
    assert({
        &&& (hi >> 10u32) & 0x7f == opcode
        &&& (lo >> 12u32) & 0x7 == funct3
        &&& (lo >> 25u32) & 0x7f == funct7
        &&& ((hi >> 17u32) & 0x1f) * 32 + ((lo >> 7u32) & 0x1f) == rd
        &&& ((hi >> 22u32) & 0x1f) * 32 + ((lo >> 15u32) & 0x1f) == rs1
        &&& ((hi >> 27u32) & 0x1f) * 32 + ((lo >> 20u32) & 0x1f) == rs2
        &&& lo & 0x7f == 0x3f
    }) by (bit_vector)
        requires
            opcode < 128, funct3 < 8, funct7 < 128, rd < 1024, rs1 < 1024, rs2 < 1024,
            lo == 0x3fu32 | ((rd & 0x1f) << 7u32) | (funct3 << 12u32) | ((rs1 & 0x1f) << 15u32)
                | ((rs2 & 0x1f) << 20u32) | (funct7 << 25u32),
            hi == (opcode << 10u32) | (((rd >> 5u32) & 0x1f) << 17u32) | (((rs1 >> 5u32) & 0x1f)
                << 22u32) | (((rs2 >> 5u32) & 0x1f) << 27u32),
    ;
}

} // verus!
