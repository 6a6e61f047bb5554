//! VM instructions with integer operands, and the builders for each RISC-V instruction format.
use vstd::prelude::*;
use crate::bits::{
    i_imm, s_imm, b_imm, j_imm, u_imm, i12_to_u24, lemma_low_bits, lemma_shift_mask, lemma_half_of_even, spec_i_imm, spec_s_imm,
    spec_b_imm, spec_j_imm, spec_u_imm,
};
use crate::decode::Decoded64;
use crate::opcodes::{
    system_global_opcode, register_num_limbs, register_limbs, SystemOp, Rv32JalLuiOpcode,
    Rv32AuipcOpcode, Rv32JalrOpcode,
};

verus! {

/// A VM instruction. Each operand is an integer that stands for its residue in the VM's prime
/// field: a negative operand stands for the additive inverse of its absolute value.
#[derive(Clone, Copy, Debug, PartialEq, Eq, Structural)]
pub struct VmInstruction {
    pub opcode: usize,
    pub a: i32,
    pub b: i32,
    pub c: i32,
    pub d: i32,
    pub e: i32,
    pub f: i32,
    pub g: i32,
}

/// The instruction with the given opcode and operands.
pub open spec fn vm_instruction(
    opcode: int,
    a: int,
    b: int,
    c: int,
    d: int,
    e: int,
    f: int,
    g: int,
) -> VmInstruction {
    VmInstruction {
        opcode: opcode as usize,
        a: a as i32,
        b: b as i32,
        c: c as i32,
        d: d as i32,
        e: e as i32,
        f: f as i32,
        g: g as i32,
    }
}

/// The operand that stands for a flag: 1 when set, 0 otherwise.
pub open spec fn flag(b: bool) -> int {
    if b {
        1
    } else {
        0
    }
}

/// The memory address of register `r`: the operand that names it.
pub open spec fn reg(r: usize) -> int {
    register_limbs() * r
}

/// PHANTOM with all operands zero: an instruction that does nothing.
pub open spec fn spec_nop() -> VmInstruction {
    vm_instruction(SystemOp::PHANTOM.global(), 0, 0, 0, 0, 0, 0, 0)
}

/// TERMINATE with exit code 2: the trap of an unimplemented instruction.
pub open spec fn spec_unimp() -> VmInstruction {
    vm_instruction(SystemOp::TERMINATE.global(), 0, 0, 2, 0, 0, 0, 0)
}

/// TERMINATE with the given exit code.
pub open spec fn spec_terminate(code: int) -> VmInstruction {
    vm_instruction(SystemOp::TERMINATE.global(), 0, 0, code, 0, 0, 0, 0)
}

/// Register-register ALU instruction; a write to x0 becomes a nop.
pub open spec fn spec_r_type(opcode: int, d: Decoded64) -> VmInstruction {
    if d.rd == 0 {
        spec_nop()
    } else {
        vm_instruction(opcode, reg(d.rd), reg(d.rs1), reg(d.rs2), 1, 1, 0, 0)
    }
}

/// Register-immediate ALU instruction; the immediate is taken modulo 2^24. A write to x0
/// becomes a nop.
pub open spec fn spec_i_type(opcode: int, d: Decoded64) -> VmInstruction {
    if d.rd == 0 {
        spec_nop()
    } else {
        vm_instruction(opcode, reg(d.rd), reg(d.rs1), spec_i_imm(d.lo) % 0x100_0000, 1, 0, 0, 0)
    }
}

/// Shift by an immediate amount; a write to x0 becomes a nop.
pub open spec fn spec_shift_imm(opcode: int, d: Decoded64, shamt: int) -> VmInstruction {
    if d.rd == 0 {
        spec_nop()
    } else {
        vm_instruction(opcode, reg(d.rd), reg(d.rs1), shamt, 1, 0, 0, 0)
    }
}

/// Load: the offset modulo 2^16, its sign as a flag, and the write enabled unless rd is x0.
pub open spec fn spec_load(opcode: int, d: Decoded64) -> VmInstruction {
    let imm = spec_i_imm(d.lo);
    vm_instruction(
        opcode,
        reg(d.rd),
        reg(d.rs1),
        imm % 0x1_0000,
        1,
        2,
        flag(d.rd != 0),
        flag(imm < 0),
    )
}

/// Store of rs2 at rs1 plus the S-type offset (modulo 2^16, with its sign as a flag).
pub open spec fn spec_store(opcode: int, d: Decoded64) -> VmInstruction {
    let imm = spec_s_imm(d.lo);
    vm_instruction(opcode, reg(d.rs2), reg(d.rs1), imm % 0x1_0000, 1, 2, 1, flag(imm < 0))
}

/// Conditional branch; the offset is halved.
pub open spec fn spec_branch(opcode: int, d: Decoded64) -> VmInstruction {
    vm_instruction(opcode, reg(d.rs1), reg(d.rs2), spec_b_imm(d.lo) / 2, 1, 1, 0, 0)
}

/// LUI: the upper 20 bits of the immediate, with the write enabled.
pub open spec fn spec_lui(d: Decoded64) -> VmInstruction {
    vm_instruction(
        Rv32JalLuiOpcode::LUI.global(),
        reg(d.rd),
        0,
        spec_u_imm(d.lo) / 4096,
        1,
        0,
        1,
        0,
    )
}

/// AUIPC: the upper 20 bits of the immediate.
pub open spec fn spec_auipc(d: Decoded64) -> VmInstruction {
    vm_instruction(Rv32AuipcOpcode::AUIPC.global(), reg(d.rd), 0, spec_u_imm(d.lo) / 4096, 1, 0, 0, 0)
}

/// JAL: the offset is halved; the return address is saved unless rd is x0.
pub open spec fn spec_jal(d: Decoded64) -> VmInstruction {
    vm_instruction(
        Rv32JalLuiOpcode::JAL.global(),
        reg(d.rd),
        0,
        spec_j_imm(d.lo) / 2,
        1,
        0,
        flag(d.rd != 0),
        0,
    )
}

/// JALR: the offset modulo 2^24; the return address is saved unless rd is x0.
pub open spec fn spec_jalr(d: Decoded64) -> VmInstruction {
    vm_instruction(
        Rv32JalrOpcode::JALR.global(),
        reg(d.rd),
        reg(d.rs1),
        spec_i_imm(d.lo) % 0x100_0000,
        1,
        0,
        flag(d.rd != 0),
        0,
    )
}

/// The register operands of a decoded instruction are in range.
pub open spec fn registers_in_range(d: Decoded64) -> bool {
    d.rd < 1024 && d.rs1 < 1024 && d.rs2 < 1024
}

/// The operand that names register `r`.
fn register_operand(r: usize) -> (v: i32)
    requires
        r < 1024,
    ensures
        v == reg(r),
{
    (register_num_limbs() * r) as i32
}

/// The operand that stands for `b`.
fn from_bool(b: bool) -> (v: i32)
    ensures
        v == flag(b),
{
    if b {
        1
    } else {
        0
    }
}

pub fn nop() -> (r: VmInstruction)
    ensures
        r == spec_nop(),
{
    VmInstruction { opcode: system_global_opcode(SystemOp::PHANTOM), a: 0, b: 0, c: 0, d: 0, e: 0, f: 0, g: 0 }
}

pub fn unimp() -> (r: VmInstruction)
    ensures
        r == spec_unimp(),
{
    VmInstruction { opcode: system_global_opcode(SystemOp::TERMINATE), a: 0, b: 0, c: 2, d: 0, e: 0, f: 0, g: 0 }
}

pub(crate) fn make_r_type(opcode: usize, d: &Decoded64) -> (r: Option<VmInstruction>)
    requires
        registers_in_range(*d),
    ensures
        r == Some(spec_r_type(opcode as int, *d)),
{
    if d.rd == 0 {
        return Some(nop());
    }
    Some(
        VmInstruction {
            opcode,
            a: register_operand(d.rd),
            b: register_operand(d.rs1),
            c: register_operand(d.rs2),
            d: 1,
            e: 1,
            f: 0,
            g: 0,
        },
    )
}

pub(crate) fn make_i_type(opcode: usize, d: &Decoded64) -> (r: Option<VmInstruction>)
    requires
        registers_in_range(*d),
    ensures
        r == Some(spec_i_type(opcode as int, *d)),
{
    if d.rd == 0 {
        return Some(nop());
    }
    Some(
        VmInstruction {
            opcode,
            a: register_operand(d.rd),
            b: register_operand(d.rs1),
            c: i12_to_u24(i_imm(d.lo)) as i32,
            d: 1,
            e: 0,
            f: 0,
            g: 0,
        },
    )
}

pub(crate) fn make_shift_imm(opcode: usize, d: &Decoded64, shamt: u32) -> (r: Option<VmInstruction>)
    requires
        registers_in_range(*d),
        shamt < 32,
    ensures
        r == Some(spec_shift_imm(opcode as int, *d, shamt as int)),
{
    if d.rd == 0 {
        return Some(nop());
    }
    Some(
        VmInstruction {
            opcode,
            a: register_operand(d.rd),
            b: register_operand(d.rs1),
            c: shamt as i32,
            d: 1,
            e: 0,
            f: 0,
            g: 0,
        },
    )
}

pub(crate) fn make_load(opcode: usize, d: &Decoded64) -> (r: Option<VmInstruction>)
    requires
        registers_in_range(*d),
    ensures
        r == Some(spec_load(opcode as int, *d)),
{
    let imm = i_imm(d.lo);
    proof {
        lemma_low_bits(imm);
    }
    Some(
        VmInstruction {
            opcode,
            a: register_operand(d.rd),
            b: register_operand(d.rs1),
            c: ((imm as u32) & 0xffff) as i32,
            d: 1,
            e: 2,
            f: from_bool(d.rd != 0),
            g: from_bool(imm < 0),
        },
    )
}

pub(crate) fn make_store(opcode: usize, d: &Decoded64) -> (r: Option<VmInstruction>)
    requires
        registers_in_range(*d),
    ensures
        r == Some(spec_store(opcode as int, *d)),
{
    let imm = s_imm(d.lo);
    proof {
        lemma_low_bits(imm);
    }
    Some(
        VmInstruction {
            opcode,
            a: register_operand(d.rs2),
            b: register_operand(d.rs1),
            c: ((imm as u32) & 0xffff) as i32,
            d: 1,
            e: 2,
            f: 1,
            g: from_bool(imm < 0),
        },
    )
}

pub(crate) fn make_branch(opcode: usize, d: &Decoded64) -> (r: Option<VmInstruction>)
    requires
        registers_in_range(*d),
    ensures
        r == Some(spec_branch(opcode as int, *d)),
{
    // Halve the offset: it counts bytes of 8-byte instructions, scaled here to one 4-byte step
    // per instruction (see `spec_transpile` on the slot layout).
    let full = b_imm(d.lo);
    proof {
        lemma_half_of_even(full as int);
    }
    let imm = full / 2;
    Some(
        VmInstruction {
            opcode,
            a: register_operand(d.rs1),
            b: register_operand(d.rs2),
            c: imm,
            d: 1,
            e: 1,
            f: 0,
            g: 0,
        },
    )
}

pub(crate) fn make_lui(d: &Decoded64) -> (r: Option<VmInstruction>)
    requires
        registers_in_range(*d),
    ensures
        r == Some(spec_lui(*d)),
{
    let imm = u_imm(d.lo);
    proof {
        lemma_shift_mask(imm);
    }
    Some(
        VmInstruction {
            opcode: Rv32JalLuiOpcode::LUI.global_opcode(),
            a: register_operand(d.rd),
            b: 0,
            c: ((imm >> 12) & 0xfffff) as i32,
            d: 1,
            e: 0,
            // f=1: enable write (LUI shares chip with JAL, f is the enable flag)
            f: 1,
            g: 0,
        },
    )
}

pub(crate) fn make_auipc(d: &Decoded64) -> (r: Option<VmInstruction>)
    requires
        registers_in_range(*d),
    ensures
        r == Some(spec_auipc(*d)),
{
    let imm = u_imm(d.lo);
    proof {
        lemma_shift_mask(imm);
    }
    Some(
        VmInstruction {
            opcode: Rv32AuipcOpcode::AUIPC.global_opcode(),
            a: register_operand(d.rd),
            b: 0,
            c: ((imm >> 12) & 0xfffff) as i32,
            d: 1,
            e: 0,
            f: 0,
            g: 0,
        },
    )
}

pub(crate) fn make_jal(d: &Decoded64) -> (r: Option<VmInstruction>)
    requires
        registers_in_range(*d),
    ensures
        r == Some(spec_jal(*d)),
{
    // Halve the offset, as for branches.
    let full = j_imm(d.lo);
    proof {
        lemma_half_of_even(full as int);
    }
    let imm = full / 2;
    Some(
        VmInstruction {
            opcode: Rv32JalLuiOpcode::JAL.global_opcode(),
            a: register_operand(d.rd),
            b: 0,
            c: imm,
            d: 1,
            e: 0,
            f: from_bool(d.rd != 0),
            g: 0,
        },
    )
}

pub(crate) fn make_jalr(d: &Decoded64) -> (r: Option<VmInstruction>)
    requires
        registers_in_range(*d),
    ensures
        r == Some(spec_jalr(*d)),
{
    let imm = i_imm(d.lo);
    Some(
        VmInstruction {
            opcode: Rv32JalrOpcode::JALR.global_opcode(),
            a: register_operand(d.rd),
            b: register_operand(d.rs1),
            c: i12_to_u24(imm) as i32,
            d: 1,
            e: 0,
            f: from_bool(d.rd != 0),
            g: 0,
        },
    )
}

} // verus!
