//! What the extension does to each kind of instruction, stated directly over the bits of the
//! two input words and the operands of the VM instruction that comes out. Each law reads the
//! input fields with plain division and remainder and names every VM opcode by its number, so
//! it fixes the behaviour independently of how `spec_transpile` is put together.
use vstd::prelude::*;
use vstd::arithmetic::power2::lemma2_to64;
use crate::bits::{spec_i_imm, spec_s_imm, spec_b_imm, spec_j_imm, spec_u_imm};
use crate::decode::spec_decode;
use crate::instruction::VmInstruction;
use crate::transpile::spec_transpile;

verus! {

/// Bits 11..7 of a word: the (low part of the) destination register field.
pub open spec fn field_11_7(w: u32) -> int {
    (w / 0x80 % 0x20) as int
}

/// The 10-bit destination register of a 64-bit instruction.
pub open spec fn word_rd(lo: u32, hi: u32) -> int {
    (hi / 0x2_0000 % 0x20) * 0x20 + lo / 0x80 % 0x20
}

/// The 10-bit first source register of a 64-bit instruction.
pub open spec fn word_rs1(lo: u32, hi: u32) -> int {
    (hi / 0x40_0000 % 0x20) * 0x20 + lo / 0x8000 % 0x20
}

/// The 10-bit second source register of a 64-bit instruction.
pub open spec fn word_rs2(lo: u32, hi: u32) -> int {
    (hi / 0x800_0000 % 0x20) * 0x20 + lo / 0x10_0000 % 0x20
}

/// funct3: bits 14..12 of the low word.
pub open spec fn word_funct3(lo: u32) -> int {
    (lo / 0x1000 % 8) as int
}

/// funct7: bits 31..25 of the low word.
pub open spec fn word_funct7(lo: u32) -> int {
    (lo / 0x200_0000) as int
}

/// The major opcode of a 64-bit instruction: bits 16..10 of the high word.
pub open spec fn word_opcode(hi: u32) -> int {
    (hi / 0x400 % 0x80) as int
}

/// The low word carries the 64-bit marker 0x3F in bits 6..0.
pub open spec fn marked(lo: u32) -> bool {
    lo % 0x80 == 0x3f
}

/// The instruction with opcode number `op` and operands `a` to `g`.
pub open spec fn instr(op: int, a: int, b: int, c: int, d: int, e: int, f: int, g: int) -> VmInstruction {
    VmInstruction {
        opcode: op as usize,
        a: a as i32,
        b: b as i32,
        c: c as i32,
        d: d as i32,
        e: e as i32,
        f: f as i32,
        g: g as i32,
    }
}

/// The word pair transpiles to `inst` followed by a gap.
pub open spec fn gives(lo: u32, hi: u32, inst: VmInstruction) -> bool {
    spec_transpile(seq![lo, hi]) == Some(seq![Some(inst), None])
}

/// The word pair is not transpiled.
pub open spec fn rejected(lo: u32, hi: u32) -> bool {
    spec_transpile(seq![lo, hi]) is None
}

/// 1 for true, 0 for false.
pub open spec fn bit(b: bool) -> int {
    if b { 1 } else { 0 }
}

/// The B-type offset of a low word: offset bit 12 from bit 31, bits 10..5 from bits 30..25,
/// bits 4..1 from bits 11..8 and bit 11 from bit 7, as a signed 13-bit number.
pub open spec fn word_branch_offset(lo: u32) -> int {
    let raw = (lo / 0x100 % 0x10) * 2 + (lo / 0x200_0000 % 0x40) * 0x20 + (lo / 0x80 % 2) * 0x800
        + (lo / 0x8000_0000) * 0x1000;
    if raw >= 0x1000 { raw - 0x2000 } else { raw }
}

/// The I-type immediate of a low word: bits 31..20 as a signed 12-bit number.
pub open spec fn word_i_imm(lo: u32) -> int {
    let raw = (lo / 0x10_0000) as int;
    if raw >= 0x800 { raw - 0x1000 } else { raw }
}

/// The S-type immediate of a low word: bits 31..25 above bits 11..7, as a signed 12-bit number.
pub open spec fn word_s_imm(lo: u32) -> int {
    let raw = (lo / 0x200_0000) * 0x20 + lo / 0x80 % 0x20;
    if raw >= 0x800 { raw - 0x1000 } else { raw }
}

/// The J-type offset of a low word: offset bit 20 from bit 31, bits 10..1 from bits 30..21,
/// bit 11 from bit 20 and bits 19..12 in place, as a signed 21-bit number.
pub open spec fn word_jump_offset(lo: u32) -> int {
    let raw = (lo / 0x20_0000 % 0x400) * 2 + (lo / 0x10_0000 % 2) * 0x800 + (lo / 0x1000 % 0x100)
        * 0x1000 + (lo / 0x8000_0000) * 0x10_0000;
    if raw >= 0x10_0000 { raw - 0x20_0000 } else { raw }
}

/// The VM's nop: PHANTOM (opcode 1) with all operands zero.
pub open spec fn phantom_nop() -> VmInstruction {
    instr(1, 0, 0, 0, 0, 0, 0, 0)
}

/// A call pair (AUIPC rd, imm20; JALR rd', imm12(rd)) becomes a single JAL (opcode 0x230) that
/// links into the AUIPC's rd, whatever rd is (0 to 31): operand a is 4 times bits 11..7 of the
/// first word, and the link is enabled exactly when that register is not x0. The offset is
/// the AUIPC's upper immediate plus the JALR's signed 12-bit immediate (wrapping in 32 bits),
/// halved toward zero.
pub proof fn law_call_pair(lo: u32, hi: u32)
    requires
        lo % 0x80 == 0x17,
        hi % 0x80 == 0x67,
    ensures
        ({
            let rd = field_11_7(lo);
            let upper = (lo / 0x1000) as int * 0x1000;
            let upper_signed = if upper >= 0x8000_0000 { upper - 0x1_0000_0000 } else { upper };
            let low = (hi / 0x10_0000) as int;
            let low_signed = if low >= 0x800 { low - 0x1000 } else { low };
            let sum = upper_signed + low_signed;
            let wrapped = if sum < -0x8000_0000 { sum + 0x1_0000_0000 } else { sum };
            let offset = if wrapped >= 0 { wrapped / 2 } else { -((-wrapped) / 2) };
            spec_transpile(seq![lo, hi]) == Some(
                seq![Some(instr(0x230, 4 * rd, 0, offset, 1, 0, bit(rd != 0), 0))],
            )
        }),
{
    lemma2_to64();
    let s = seq![lo, hi];
    assert(s[0] == lo && s[1] == hi);
}

/// A 64-bit BRANCH (opcode 0x63) compares rs1 with rs2: funct3 0 is BEQ (0x220), 1 BNE
/// (0x221), 4 BLT (0x225), 5 BGE (0x227), 6 BLTU (0x226), 7 BGEU (0x228); funct3 2 and 3 are
/// not transpiled. The register operands are 4 times the 10-bit register indices, and the
/// offset is the signed B-type offset halved.
pub proof fn law_branch(lo: u32, hi: u32)
    requires
        marked(lo),
        word_opcode(hi) == 0x63,
    ensures
        ({
            let f3 = word_funct3(lo);
            let op = if f3 == 0 { 0x220 } else if f3 == 1 { 0x221 } else if f3 == 4 { 0x225 }
                else if f3 == 5 { 0x227 } else if f3 == 6 { 0x226 } else { 0x228 };
            if f3 == 2 || f3 == 3 {
                rejected(lo, hi)
            } else {
                gives(lo, hi, instr(op, 4 * word_rs1(lo, hi), 4 * word_rs2(lo, hi),
                    word_branch_offset(lo) / 2, 1, 1, 0, 0))
            }
        }),
{
    lemma2_to64();
    let s = seq![lo, hi];
    assert(s[0] == lo && s[1] == hi);
    let d = spec_decode(lo, hi);
}

/// A stream shorter than two words is never transpiled; nor is one whose first word carries
/// neither the 64-bit marker nor the AUIPC opcode of a call pair (0x17, followed by a word
/// with the JALR opcode 0x67).
pub proof fn law_rejected_streams(stream: Seq<u32>)
    ensures
        stream.len() < 2 ==> spec_transpile(stream) is None,
        stream.len() >= 2 && stream[0] % 0x80 != 0x3f && !(stream[0] % 0x80 == 0x17 && stream[1]
            % 0x80 == 0x67) ==> spec_transpile(stream) is None,
{
}

/// Two 64-bit branches with different funct3 that are both transpiled become different VM
/// instructions: the six branch conditions stay apart.
pub proof fn law_branch_opcodes_distinct(lo1: u32, hi1: u32, lo2: u32, hi2: u32)
    requires
        marked(lo1),
        marked(lo2),
        word_opcode(hi1) == 0x63,
        word_opcode(hi2) == 0x63,
        word_funct3(lo1) != word_funct3(lo2),
        !rejected(lo1, hi1),
        !rejected(lo2, hi2),
    ensures
        spec_transpile(seq![lo1, hi1]).unwrap()[0].unwrap().opcode != spec_transpile(
            seq![lo2, hi2],
        ).unwrap()[0].unwrap().opcode,
{
    law_branch(lo1, hi1);
    law_branch(lo2, hi2);
}

/// JAL (opcode 0x6f) becomes VM JAL (0x230): operand a is 4 times rd, the offset is the
/// signed J-type offset halved, and the return address is written (f = 1) exactly when rd is
/// not x0.
pub proof fn law_jal(lo: u32, hi: u32)
    requires
        marked(lo),
        word_opcode(hi) == 0x6f,
    ensures
        gives(lo, hi, instr(0x230, 4 * word_rd(lo, hi), 0, word_jump_offset(lo) / 2, 1, 0,
            bit(word_rd(lo, hi) != 0), 0)),
{
    lemma2_to64();
    let s = seq![lo, hi];
    assert(s[0] == lo && s[1] == hi);
}

/// JALR (opcode 0x67) becomes VM JALR (0x235): a is 4 times rd, b is 4 times rs1, the offset
/// is the I-type immediate modulo 2^24, and the return address is written (f = 1) exactly
/// when rd is not x0.
pub proof fn law_jalr(lo: u32, hi: u32)
    requires
        marked(lo),
        word_opcode(hi) == 0x67,
    ensures
        gives(lo, hi, instr(0x235, 4 * word_rd(lo, hi), 4 * word_rs1(lo, hi), word_i_imm(lo)
            % 0x100_0000, 1, 0, bit(word_rd(lo, hi) != 0), 0)),
{
    lemma2_to64();
    let s = seq![lo, hi];
    assert(s[0] == lo && s[1] == hi);
}

/// LOAD (opcode 0x03): funct3 0 is LOADB (0x216), 1 LOADH (0x217), 2 LOADW (0x210), 4 LOADBU
/// (0x211), 5 LOADHU (0x212); funct3 3, 6 and 7 are not transpiled. a is 4 times rd, b 4
/// times rs1, c the I-type offset modulo 2^16, g its sign, and the register write is enabled
/// (f = 1) exactly when rd is not x0.
pub proof fn law_load(lo: u32, hi: u32)
    requires
        marked(lo),
        word_opcode(hi) == 0x03,
    ensures
        ({
            let f3 = word_funct3(lo);
            let op = if f3 == 0 { 0x216 } else if f3 == 1 { 0x217 } else if f3 == 2 { 0x210 }
                else if f3 == 4 { 0x211 } else { 0x212 };
            let imm = word_i_imm(lo);
            let rd = word_rd(lo, hi);
            if f3 == 3 || f3 == 6 || f3 == 7 {
                rejected(lo, hi)
            } else {
                gives(lo, hi, instr(op, 4 * rd, 4 * word_rs1(lo, hi), imm % 0x1_0000, 1, 2,
                    bit(rd != 0), bit(imm < 0)))
            }
        }),
{
    lemma2_to64();
    let s = seq![lo, hi];
    assert(s[0] == lo && s[1] == hi);
}

/// Two 64-bit loads with different funct3 that are both transpiled become different VM
/// instructions: the five load widths stay apart.
pub proof fn law_load_opcodes_distinct(lo1: u32, hi1: u32, lo2: u32, hi2: u32)
    requires
        marked(lo1),
        marked(lo2),
        word_opcode(hi1) == 0x03,
        word_opcode(hi2) == 0x03,
        word_funct3(lo1) != word_funct3(lo2),
        !rejected(lo1, hi1),
        !rejected(lo2, hi2),
    ensures
        spec_transpile(seq![lo1, hi1]).unwrap()[0].unwrap().opcode != spec_transpile(
            seq![lo2, hi2],
        ).unwrap()[0].unwrap().opcode,
{
    law_load(lo1, hi1);
    law_load(lo2, hi2);
}

/// STORE (opcode 0x23): funct3 0 is STOREB (0x215), 1 STOREH (0x214), 2 STOREW (0x213); other
/// funct3 values are not transpiled. a is 4 times rs2 (the value), b 4 times rs1 (the base),
/// c the signed S-type offset modulo 2^16, f is 1 and g the offset's sign.
pub proof fn law_store(lo: u32, hi: u32)
    requires
        marked(lo),
        word_opcode(hi) == 0x23,
    ensures
        ({
            let f3 = word_funct3(lo);
            let op = if f3 == 0 { 0x215 } else if f3 == 1 { 0x214 } else { 0x213 };
            let imm = word_s_imm(lo);
            if f3 > 2 {
                rejected(lo, hi)
            } else {
                gives(lo, hi, instr(op, 4 * word_rs2(lo, hi), 4 * word_rs1(lo, hi), imm
                    % 0x1_0000, 1, 2, 1, bit(imm < 0)))
            }
        }),
{
    lemma2_to64();
    let s = seq![lo, hi];
    assert(s[0] == lo && s[1] == hi);
}

/// The VM opcode of a register-register OP instruction, by (funct7, funct3): ADD 0x200, SUB
/// 0x201, SLL 0x205, SLT 0x208, SLTU 0x209, XOR 0x202, SRL 0x206, SRA 0x207, OR 0x203, AND
/// 0x204; the M extension (funct7 1) MUL 0x250, MULH 0x251, MULHSU 0x252, MULHU 0x253, DIV
/// 0x254, DIVU 0x255, REM 0x256, REMU 0x257; 0 where the pair names none.
pub open spec fn register_alu_number(f7: int, f3: int) -> int {
    if f7 == 0 {
        if f3 == 0 { 0x200 } else if f3 == 1 { 0x205 } else if f3 == 2 { 0x208 } else if f3 == 3 {
            0x209 } else if f3 == 4 { 0x202 } else if f3 == 5 { 0x206 } else if f3 == 6 { 0x203 }
            else { 0x204 }
    } else if f7 == 0x20 {
        if f3 == 0 { 0x201 } else if f3 == 5 { 0x207 } else { 0 }
    } else if f7 == 1 {
        0x250 + f3
    } else {
        0
    }
}

/// OP (opcode 0x33) with funct7 0, 0x20 or 1 becomes the register-register VM instruction
/// that `register_alu_number` names, with a, b, c 4 times rd, rs1, rs2; a write to x0, or a
/// funct7 0x20 pair that names no instruction, becomes a nop. Any other funct7 is not
/// transpiled.
pub proof fn law_register_alu(lo: u32, hi: u32)
    requires
        marked(lo),
        word_opcode(hi) == 0x33,
    ensures
        ({
            let f7 = word_funct7(lo);
            let op = register_alu_number(f7, word_funct3(lo));
            let rd = word_rd(lo, hi);
            if f7 != 0 && f7 != 0x20 && f7 != 1 {
                rejected(lo, hi)
            } else if op == 0 || rd == 0 {
                gives(lo, hi, phantom_nop())
            } else {
                gives(lo, hi, instr(op, 4 * rd, 4 * word_rs1(lo, hi), 4 * word_rs2(lo, hi), 1, 1,
                    0, 0))
            }
        }),
{
    lemma2_to64();
    let s = seq![lo, hi];
    assert(s[0] == lo && s[1] == hi);
}

/// Two register-register OP instructions with different (funct7, funct3) pairs that both
/// name an instruction, and write a register other than x0, become different VM instructions.
pub proof fn law_register_alu_opcodes_distinct(lo1: u32, hi1: u32, lo2: u32, hi2: u32)
    requires
        marked(lo1),
        marked(lo2),
        word_opcode(hi1) == 0x33,
        word_opcode(hi2) == 0x33,
        word_funct7(lo1) != word_funct7(lo2) || word_funct3(lo1) != word_funct3(lo2),
        register_alu_number(word_funct7(lo1), word_funct3(lo1)) != 0,
        register_alu_number(word_funct7(lo2), word_funct3(lo2)) != 0,
        word_rd(lo1, hi1) != 0,
        word_rd(lo2, hi2) != 0,
    ensures
        spec_transpile(seq![lo1, hi1]).unwrap()[0].unwrap().opcode != spec_transpile(
            seq![lo2, hi2],
        ).unwrap()[0].unwrap().opcode,
{
    law_register_alu(lo1, hi1);
    law_register_alu(lo2, hi2);
}

/// OP-IMM (opcode 0x13): funct3 0 ADDI (0x200), 2 SLTI (0x208), 3 SLTIU (0x209), 4 XORI
/// (0x202), 6 ORI (0x203), 7 ANDI (0x204) with c the I-type immediate modulo 2^24; funct3 1
/// SLLI (0x205), and 5 SRLI (0x206) or, with bit 30 set, SRAI (0x207), with c the shift amount
/// in bits 24..20. a and b are 4 times rd and rs1; a write to x0 becomes a nop.
pub proof fn law_alu_imm(lo: u32, hi: u32)
    requires
        marked(lo),
        word_opcode(hi) == 0x13,
    ensures
        ({
            let f3 = word_funct3(lo);
            let rd = word_rd(lo, hi);
            let rs1 = word_rs1(lo, hi);
            let shamt = (lo / 0x10_0000 % 0x20) as int;
            let arith = lo / 0x4000_0000 % 2 == 1;
            if rd == 0 {
                gives(lo, hi, phantom_nop())
            } else if f3 == 1 {
                gives(lo, hi, instr(0x205, 4 * rd, 4 * rs1, shamt, 1, 0, 0, 0))
            } else if f3 == 5 {
                gives(lo, hi, instr(if arith { 0x207 } else { 0x206 }, 4 * rd, 4 * rs1, shamt, 1,
                    0, 0, 0))
            } else {
                let op = if f3 == 0 { 0x200 } else if f3 == 2 { 0x208 } else if f3 == 3 { 0x209 }
                    else if f3 == 4 { 0x202 } else if f3 == 6 { 0x203 } else { 0x204 };
                gives(lo, hi, instr(op, 4 * rd, 4 * rs1, word_i_imm(lo) % 0x100_0000, 1, 0, 0, 0))
            }
        }),
{
    lemma2_to64();
    let s = seq![lo, hi];
    assert(s[0] == lo && s[1] == hi);
}

/// LUI (opcode 0x37) becomes VM LUI (0x231) with c the upper 20 bits of the low word and the
/// write enabled, or a nop for rd = x0; AUIPC (opcode 0x17) becomes VM AUIPC (0x240) with the
/// same c. a is 4 times rd.
pub proof fn law_upper_immediates(lo: u32, hi: u32)
    requires
        marked(lo),
    ensures
        word_opcode(hi) == 0x37 ==> gives(lo, hi, if word_rd(lo, hi) == 0 {
            phantom_nop()
        } else {
            instr(0x231, 4 * word_rd(lo, hi), 0, (lo / 0x1000) as int, 1, 0, 1, 0)
        }),
        word_opcode(hi) == 0x17 ==> gives(lo, hi, instr(0x240, 4 * word_rd(lo, hi), 0, (lo
            / 0x1000) as int, 1, 0, 0, 0)),
{
    lemma2_to64();
    let s = seq![lo, hi];
    assert(s[0] == lo && s[1] == hi);
}

/// SYSTEM (opcode 0x73) with rd = rs1 = x0 is ECALL (immediate 0), which becomes TERMINATE
/// (opcode 0) with exit code 0, or EBREAK (immediate 1), which becomes TERMINATE with exit
/// code 2; any other SYSTEM instruction, FENCE (0x0f), and every opcode the extension does not
/// know become a nop. The custom-0 opcode 0x0b with funct3 0 becomes TERMINATE with the low
/// byte of the I-type immediate as exit code, and with another funct3 a nop.
pub proof fn law_system_and_others(lo: u32, hi: u32)
    requires
        marked(lo),
    ensures
        ({
            let op = word_opcode(hi);
            let imm = word_i_imm(lo);
            let plain = word_rd(lo, hi) == 0 && word_rs1(lo, hi) == 0;
            &&& op == 0x73 ==> gives(lo, hi, if plain && imm == 0 {
                instr(0, 0, 0, 0, 0, 0, 0, 0)
            } else if plain && imm == 1 {
                instr(0, 0, 0, 2, 0, 0, 0, 0)
            } else {
                phantom_nop()
            })
            &&& op == 0x0f ==> gives(lo, hi, phantom_nop())
            &&& op == 0x0b ==> gives(lo, hi, if word_funct3(lo) == 0 {
                instr(0, 0, 0, imm % 0x100, 0, 0, 0, 0)
            } else {
                phantom_nop()
            })
            &&& op != 0x33 && op != 0x13 && op != 0x03 && op != 0x23 && op != 0x63 && op != 0x37
                && op != 0x17 && op != 0x6f && op != 0x67 && op != 0x73 && op != 0x0f && op
                != 0x0b ==> gives(lo, hi, phantom_nop())
        }),
{
    lemma2_to64();
    let s = seq![lo, hi];
    assert(s[0] == lo && s[1] == hi);
}

/// Decoding takes the opcode from bits 16..10 of the high word, funct3 and funct7 from bits
/// 14..12 and 31..25 of the low word, and each register index from five high bits in the high
/// word above five low bits in the low word (rd: 21..17 over 11..7, rs1: 26..22 over 19..15,
/// rs2: 31..27 over 24..20).
pub proof fn law_decode(lo: u32, hi: u32)
    ensures
        ({
            let d = spec_decode(lo, hi);
            &&& d.opcode == word_opcode(hi)
            &&& d.funct3 == word_funct3(lo)
            &&& d.funct7 == word_funct7(lo)
            &&& d.rd == word_rd(lo, hi)
            &&& d.rs1 == word_rs1(lo, hi)
            &&& d.rs2 == word_rs2(lo, hi)
            &&& d.lo == lo
        }),
{
    lemma2_to64();
}

/// Each immediate is the one value in its signed range that agrees with its bit pattern: the
/// I-type and S-type immediates lie in [-2048, 2048) and agree modulo 2^12 with bits 31..20,
/// resp. bits 31..25 over 11..7; the B-type immediate lies in [-4096, 4096) and agrees modulo
/// 2^13 with its 13-bit pattern; the J-type immediate lies in [-2^20, 2^20) and agrees modulo
/// 2^21 with its 21-bit pattern; the U-type immediate keeps bits 31..12 and clears the rest.
pub proof fn law_immediates(lo: u32)
    ensures
        -2048 <= spec_i_imm(lo) < 2048,
        (spec_i_imm(lo) - lo / 0x10_0000) % 0x1000 == 0,
        -2048 <= spec_s_imm(lo) < 2048,
        (spec_s_imm(lo) - ((lo / 0x200_0000) * 0x20 + lo / 0x80 % 0x20)) % 0x1000 == 0,
        -4096 <= spec_b_imm(lo) < 4096,
        (spec_b_imm(lo) - ((lo / 0x100 % 0x10) * 2 + (lo / 0x200_0000 % 0x40) * 0x20 + (lo
            / 0x80 % 2) * 0x800 + (lo / 0x8000_0000) * 0x1000)) % 0x2000 == 0,
        -0x10_0000 <= spec_j_imm(lo) < 0x10_0000,
        (spec_j_imm(lo) - ((lo / 0x20_0000 % 0x400) * 2 + (lo / 0x10_0000 % 2) * 0x800 + (lo
            / 0x1000 % 0x100) * 0x1000 + (lo / 0x8000_0000) * 0x10_0000)) % 0x20_0000 == 0,
        spec_u_imm(lo) % 0x1000 == 0,
        spec_u_imm(lo) / 0x1000 == lo / 0x1000,
{
    lemma2_to64();
}

} // verus!
