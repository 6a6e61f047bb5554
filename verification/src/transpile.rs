//! The transpiler extension: from the next two words of a RISC-V instruction stream to VM
//! instructions.
use vstd::prelude::*;
use vstd::arithmetic::power2::lemma2_to64;
use crate::bits::{bits, i_imm, spec_i_imm, lemma_shift_mask, lemma_low_bits};
use crate::decode::{decode_64bit, spec_decode, Decoded64, encode_lo, encode_hi, lemma_decode_encode};
use crate::instruction::{
    VmInstruction, vm_instruction, flag, registers_in_range, nop, unimp, make_r_type, make_i_type,
    make_shift_imm, make_load, make_store, make_branch, make_lui, make_auipc, make_jal, make_jalr,
    spec_nop, spec_unimp, spec_terminate, spec_r_type, spec_i_type, spec_shift_imm, spec_load,
    spec_store, spec_branch, spec_lui, spec_auipc, spec_jal, spec_jalr,
};
use crate::opcodes::{
    OP, OP_IMM, LOAD, STORE, BRANCH, JAL, JALR, LUI, AUIPC, SYSTEM, MISC_MEM, CUSTOM_0,
    XREGS1024_MARKER, system_global_opcode, SystemOp, register_num_limbs, register_limbs, BaseAluOpcode,
    ShiftOpcode, LessThanOpcode, Rv32LoadStoreOpcode, BranchEqualOpcode, BranchLessThanOpcode,
    Rv32JalLuiOpcode, MulOpcode, MulHOpcode, DivRemOpcode,
};

verus! {

/// The ALU operation of an OP instruction with funct7 0x00 or 0x20, if the pair names one.
pub open spec fn spec_alu_opcode(funct7: u8, funct3: u8) -> Option<int> {
    if funct7 == 0x00 && funct3 == 0 {
        Some(BaseAluOpcode::ADD.global())
    } else if funct7 == 0x20 && funct3 == 0 {
        Some(BaseAluOpcode::SUB.global())
    } else if funct7 == 0x00 && funct3 == 1 {
        Some(ShiftOpcode::SLL.global())
    } else if funct7 == 0x00 && funct3 == 2 {
        Some(LessThanOpcode::SLT.global())
    } else if funct7 == 0x00 && funct3 == 3 {
        Some(LessThanOpcode::SLTU.global())
    } else if funct7 == 0x00 && funct3 == 4 {
        Some(BaseAluOpcode::XOR.global())
    } else if funct7 == 0x00 && funct3 == 5 {
        Some(ShiftOpcode::SRL.global())
    } else if funct7 == 0x20 && funct3 == 5 {
        Some(ShiftOpcode::SRA.global())
    } else if funct7 == 0x00 && funct3 == 6 {
        Some(BaseAluOpcode::OR.global())
    } else if funct7 == 0x00 && funct3 == 7 {
        Some(BaseAluOpcode::AND.global())
    } else {
        None
    }
}

/// The M-extension operation of an OP instruction with funct7 0x01.
pub open spec fn spec_mul_opcode(funct3: u8) -> Option<int> {
    if funct3 == 0 {
        Some(MulOpcode::MUL.global())
    } else if funct3 == 1 {
        Some(MulHOpcode::MULH.global())
    } else if funct3 == 2 {
        Some(MulHOpcode::MULHSU.global())
    } else if funct3 == 3 {
        Some(MulHOpcode::MULHU.global())
    } else if funct3 == 4 {
        Some(DivRemOpcode::DIV.global())
    } else if funct3 == 5 {
        Some(DivRemOpcode::DIVU.global())
    } else if funct3 == 6 {
        Some(DivRemOpcode::REM.global())
    } else if funct3 == 7 {
        Some(DivRemOpcode::REMU.global())
    } else {
        None
    }
}

/// The ALU operation of an OP-IMM instruction other than a shift.
pub open spec fn spec_alu_imm_opcode(funct3: u8) -> Option<int> {
    if funct3 == 0 {
        Some(BaseAluOpcode::ADD.global())
    } else if funct3 == 2 {
        Some(LessThanOpcode::SLT.global())
    } else if funct3 == 3 {
        Some(LessThanOpcode::SLTU.global())
    } else if funct3 == 4 {
        Some(BaseAluOpcode::XOR.global())
    } else if funct3 == 6 {
        Some(BaseAluOpcode::OR.global())
    } else if funct3 == 7 {
        Some(BaseAluOpcode::AND.global())
    } else {
        None
    }
}

/// The load of a LOAD instruction.
pub open spec fn spec_load_opcode(funct3: u8) -> Option<int> {
    if funct3 == 0 {
        Some(Rv32LoadStoreOpcode::LOADB.global())
    } else if funct3 == 1 {
        Some(Rv32LoadStoreOpcode::LOADH.global())
    } else if funct3 == 2 {
        Some(Rv32LoadStoreOpcode::LOADW.global())
    } else if funct3 == 4 {
        Some(Rv32LoadStoreOpcode::LOADBU.global())
    } else if funct3 == 5 {
        Some(Rv32LoadStoreOpcode::LOADHU.global())
    } else {
        None
    }
}

/// The store of a STORE instruction.
pub open spec fn spec_store_opcode(funct3: u8) -> Option<int> {
    if funct3 == 0 {
        Some(Rv32LoadStoreOpcode::STOREB.global())
    } else if funct3 == 1 {
        Some(Rv32LoadStoreOpcode::STOREH.global())
    } else if funct3 == 2 {
        Some(Rv32LoadStoreOpcode::STOREW.global())
    } else {
        None
    }
}

/// The comparison of a BRANCH instruction.
pub open spec fn spec_branch_opcode(funct3: u8) -> Option<int> {
    if funct3 == 0 {
        Some(BranchEqualOpcode::BEQ.global())
    } else if funct3 == 1 {
        Some(BranchEqualOpcode::BNE.global())
    } else if funct3 == 4 {
        Some(BranchLessThanOpcode::BLT.global())
    } else if funct3 == 5 {
        Some(BranchLessThanOpcode::BGE.global())
    } else if funct3 == 6 {
        Some(BranchLessThanOpcode::BLTU.global())
    } else if funct3 == 7 {
        Some(BranchLessThanOpcode::BGEU.global())
    } else {
        None
    }
}

/// The shift amount of a shift-immediate instruction: bits 24..20 of the low word.
pub open spec fn spec_shamt(d: Decoded64) -> int {
    bits(d.lo, 20, 5) as int
}

/// The VM instruction for a decoded 64-bit instruction, or `None` where the function codes
/// name no instruction the VM supports. Unknown major opcodes (likely data in the text
/// segment) become nops so that transpilation can go on.
pub open spec fn spec_instruction(d: Decoded64) -> Option<VmInstruction> {
    if d.opcode == OP {
        if d.funct7 == 0x00 || d.funct7 == 0x20 {
            match spec_alu_opcode(d.funct7, d.funct3) {
                Some(op) => Some(spec_r_type(op, d)),
                None => Some(spec_nop()),
            }
        } else if d.funct7 == 0x01 {
            match spec_mul_opcode(d.funct3) {
                Some(op) => Some(spec_r_type(op, d)),
                None => None,
            }
        } else {
            None
        }
    } else if d.opcode == OP_IMM {
        if d.funct3 == 1 {
            Some(spec_shift_imm(ShiftOpcode::SLL.global(), d, spec_shamt(d)))
        } else if d.funct3 == 5 {
            let op = if bits(d.lo, 30, 1) != 0 {
                ShiftOpcode::SRA.global()
            } else {
                ShiftOpcode::SRL.global()
            };
            Some(spec_shift_imm(op, d, spec_shamt(d)))
        } else {
            match spec_alu_imm_opcode(d.funct3) {
                Some(op) => Some(spec_i_type(op, d)),
                None => None,
            }
        }
    } else if d.opcode == LOAD {
        match spec_load_opcode(d.funct3) {
            Some(op) => Some(spec_load(op, d)),
            None => None,
        }
    } else if d.opcode == STORE {
        match spec_store_opcode(d.funct3) {
            Some(op) => Some(spec_store(op, d)),
            None => None,
        }
    } else if d.opcode == BRANCH {
        match spec_branch_opcode(d.funct3) {
            Some(op) => Some(spec_branch(op, d)),
            None => None,
        }
    } else if d.opcode == LUI {
        if d.rd == 0 {
            Some(spec_nop())
        } else {
            Some(spec_lui(d))
        }
    } else if d.opcode == AUIPC {
        Some(spec_auipc(d))
    } else if d.opcode == JAL {
        Some(spec_jal(d))
    } else if d.opcode == JALR {
        Some(spec_jalr(d))
    } else if d.opcode == SYSTEM {
        let imm = spec_i_imm(d.lo);
        if d.rd == 0 && d.rs1 == 0 && imm == 0 {
            // ECALL
            Some(spec_terminate(0))
        } else if d.rd == 0 && d.rs1 == 0 && imm == 1 {
            // EBREAK
            Some(spec_unimp())
        } else {
            Some(spec_nop())
        }
    } else if d.opcode == MISC_MEM {
        Some(spec_nop())
    } else if d.opcode == CUSTOM_0 {
        if d.funct3 == 0 {
            Some(spec_terminate(spec_i_imm(d.lo) % 0x100))
        } else {
            Some(spec_nop())
        }
    } else {
        Some(spec_nop())
    }
}

/// A standard AUIPC followed by a standard JALR: the call sequence of a function call.
pub open spec fn is_call_pair(lo: u32, hi: u32) -> bool {
    lo % 0x80 == AUIPC && hi % 0x80 == JALR
}

/// The value of the 32-bit two's-complement pattern `v`.
pub open spec fn as_signed32(v: int) -> int {
    if v >= 0x8000_0000 {
        v - 0x1_0000_0000
    } else {
        v
    }
}

/// `x` wrapped into the range of `i32`.
pub open spec fn wrap_i32(x: int) -> int {
    if x > i32::MAX {
        x - 0x1_0000_0000
    } else if x < i32::MIN {
        x + 0x1_0000_0000
    } else {
        x
    }
}

/// `x` halved, rounding toward zero.
pub open spec fn half_toward_zero(x: int) -> int {
    if x >= 0 {
        x / 2
    } else {
        -((-x) / 2)
    }
}

/// The jump offset of a call pair: the AUIPC upper immediate plus the JALR immediate, in 32-bit
/// wrapping arithmetic, halved toward zero.
pub open spec fn spec_call_offset(lo: u32, hi: u32) -> int {
    half_toward_zero(wrap_i32(as_signed32((bits(lo, 12, 20) * 4096) as int) + spec_i_imm(hi)))
}

/// The JAL that stands for a call pair; the return address is saved unless rd is x0.
pub open spec fn spec_call(lo: u32, hi: u32) -> VmInstruction {
    let rd = bits(lo, 7, 5);
    vm_instruction(
        Rv32JalLuiOpcode::JAL.global(),
        register_limbs() * rd,
        0,
        spec_call_offset(lo, hi),
        1,
        0,
        flag(rd != 0),
        0,
    )
}

/// What the next two words transpile to: a call pair becomes one JAL; an instruction in the
/// 64-bit encoding becomes its VM instruction followed by a gap. Anything else is left to
/// other extensions.
///
/// Slot layout and offsets: the VM places its instructions 4 apart in program-counter terms,
/// gaps included, so a 64-bit instruction with its gap spans 8, as its 8 bytes do in the
/// RISC-V program; a call pair, one slot for 8 bytes, spans 4. Branch, jump and call offsets,
/// which the RISC-V toolchain counts in bytes of 8-byte instructions, are halved all the same
/// (`spec_branch`, `spec_jal`, `spec_call_offset`): they are scaled for one 4-byte slot per
/// 8-byte instruction. With the gap, the VM target of an offset is therefore half as far from
/// the jump as its RISC-V target.
pub open spec fn spec_transpile(stream: Seq<u32>) -> Option<Seq<Option<VmInstruction>>> {
    if stream.len() < 2 {
        None
    } else {
        let lo = stream[0];
        let hi = stream[1];
        if is_call_pair(lo, hi) {
            Some(seq![Some(spec_call(lo, hi))])
        } else if lo % 0x80 != XREGS1024_MARKER {
            None
        } else {
            match spec_instruction(spec_decode(lo, hi)) {
                Some(inst) => Some(seq![Some(inst), None]),
                None => None,
            }
        }
    }
}

/// The VM instructions that a stretch of the instruction stream becomes, and the number of
/// 32-bit words of the stream that it takes.
pub struct TranspilerOutput {
    pub instructions: Vec<Option<VmInstruction>>,
    pub used_u32s: usize,
}

/// Transpiler extension for XRegs1024 64-bit encoded RISC-V instructions.
#[derive(Default)]
pub struct XRegs1024TranspilerExtension;

/// The VM instruction for a decoded 64-bit instruction.
fn transpile_decoded(d: &Decoded64) -> (r: Option<VmInstruction>)
    requires
        registers_in_range(*d),
        d.funct3 < 8,
    ensures
        r == spec_instruction(*d),
{
    match d.opcode {
        OP => {
            match d.funct7 {
                0x00 | 0x20 => {
                    // Standard R-type (ALU, shifts, comparisons)
                    match (d.funct7, d.funct3) {
                        (0x00, 0) => make_r_type(BaseAluOpcode::ADD.global_opcode(), d),
                        (0x20, 0) => make_r_type(BaseAluOpcode::SUB.global_opcode(), d),
                        (0x00, 1) => make_r_type(ShiftOpcode::SLL.global_opcode(), d),
                        (0x00, 2) => make_r_type(LessThanOpcode::SLT.global_opcode(), d),
                        (0x00, 3) => make_r_type(LessThanOpcode::SLTU.global_opcode(), d),
                        (0x00, 4) => make_r_type(BaseAluOpcode::XOR.global_opcode(), d),
                        (0x00, 5) => make_r_type(ShiftOpcode::SRL.global_opcode(), d),
                        (0x20, 5) => make_r_type(ShiftOpcode::SRA.global_opcode(), d),
                        (0x00, 6) => make_r_type(BaseAluOpcode::OR.global_opcode(), d),
                        (0x00, 7) => make_r_type(BaseAluOpcode::AND.global_opcode(), d),
                        _ => Some(nop()),
                    }
                },
                0x01 => {
                    // M-extension
                    match d.funct3 {
                        0 => make_r_type(MulOpcode::MUL.global_opcode(), d),
                        1 => make_r_type(MulHOpcode::MULH.global_opcode(), d),
                        2 => make_r_type(MulHOpcode::MULHSU.global_opcode(), d),
                        3 => make_r_type(MulHOpcode::MULHU.global_opcode(), d),
                        4 => make_r_type(DivRemOpcode::DIV.global_opcode(), d),
                        5 => make_r_type(DivRemOpcode::DIVU.global_opcode(), d),
                        6 => make_r_type(DivRemOpcode::REM.global_opcode(), d),
                        7 => make_r_type(DivRemOpcode::REMU.global_opcode(), d),
                        _ => None,
                    }
                },
                _ => None,
            }
        },
        OP_IMM => {
            match d.funct3 {
                0 => make_i_type(BaseAluOpcode::ADD.global_opcode(), d),
                2 => make_i_type(LessThanOpcode::SLT.global_opcode(), d),
                3 => make_i_type(LessThanOpcode::SLTU.global_opcode(), d),
                4 => make_i_type(BaseAluOpcode::XOR.global_opcode(), d),
                6 => make_i_type(BaseAluOpcode::OR.global_opcode(), d),
                7 => make_i_type(BaseAluOpcode::AND.global_opcode(), d),
                1 => {
                    // SLLI
                    let shamt = (d.lo >> 20) & 0x1F;
                    proof {
                        lemma2_to64();
                        lemma_shift_mask(d.lo);
                    }
                    make_shift_imm(ShiftOpcode::SLL.global_opcode(), d, shamt)
                },
                5 => {
                    // SRLI / SRAI
                    let shamt = (d.lo >> 20) & 0x1F;
                    let is_arith = (d.lo >> 30) & 1;
                    proof {
                        lemma2_to64();
                        lemma_shift_mask(d.lo);
                    }
                    let opcode = if is_arith != 0 {
                        ShiftOpcode::SRA
                    } else {
                        ShiftOpcode::SRL
                    };
                    make_shift_imm(opcode.global_opcode(), d, shamt)
                },
                _ => None,
            }
        },
        LOAD => {
            let opcode = match d.funct3 {
                0 => Rv32LoadStoreOpcode::LOADB,
                1 => Rv32LoadStoreOpcode::LOADH,
                2 => Rv32LoadStoreOpcode::LOADW,
                4 => Rv32LoadStoreOpcode::LOADBU,
                5 => Rv32LoadStoreOpcode::LOADHU,
                _ => return None,
            };
            make_load(opcode.global_opcode(), d)
        },
        STORE => {
            let opcode = match d.funct3 {
                0 => Rv32LoadStoreOpcode::STOREB,
                1 => Rv32LoadStoreOpcode::STOREH,
                2 => Rv32LoadStoreOpcode::STOREW,
                _ => return None,
            };
            make_store(opcode.global_opcode(), d)
        },
        BRANCH => {
            let opcode = match d.funct3 {
                0 => BranchEqualOpcode::BEQ.global_opcode(),
                1 => BranchEqualOpcode::BNE.global_opcode(),
                4 => BranchLessThanOpcode::BLT.global_opcode(),
                5 => BranchLessThanOpcode::BGE.global_opcode(),
                6 => BranchLessThanOpcode::BLTU.global_opcode(),
                7 => BranchLessThanOpcode::BGEU.global_opcode(),
                _ => return None,
            };
            make_branch(opcode, d)
        },
        LUI => {
            if d.rd == 0 {
                Some(nop())
            } else {
                make_lui(d)
            }
        },
        AUIPC => make_auipc(d),
        JAL => make_jal(d),
        JALR => make_jalr(d),
        SYSTEM => {
            let signed_imm = i_imm(d.lo);
            let imm = signed_imm as u32;
            proof {
                assert((imm == 0) == (signed_imm == 0) && (imm == 1) == (signed_imm == 1))
                    by (bit_vector)
                    requires imm == signed_imm as u32;
            }
            if d.rd == 0 && d.rs1 == 0 {
                if imm == 0 {
                    // ECALL: terminate with exit code 0
                    Some(
                        VmInstruction {
                            opcode: system_global_opcode(SystemOp::TERMINATE),
                            a: 0,
                            b: 0,
                            c: 0,
                            d: 0,
                            e: 0,
                            f: 0,
                            g: 0,
                        },
                    )
                } else if imm == 1 {
                    // EBREAK
                    Some(unimp())
                } else {
                    Some(nop())
                }
            } else {
                Some(nop())
            }
        },
        // FENCE: nothing to do in the VM
        MISC_MEM => Some(nop()),
        // OpenVM custom-0 opcode, for terminate/phantom/hint/reveal
        CUSTOM_0 => {
            match d.funct3 {
                0 => {
                    // TERMINATE with the exit code in the low byte of the immediate
                    let imm = i_imm(d.lo);
                    proof {
                        lemma_low_bits(imm);
                    }
                    Some(
                        VmInstruction {
                            opcode: system_global_opcode(SystemOp::TERMINATE),
                            a: 0,
                            b: 0,
                            c: (imm as u32 & 0xff) as i32,
                            d: 0,
                            e: 0,
                            f: 0,
                            g: 0,
                        },
                    )
                },
                _ => Some(nop()),
            }
        },
        // Unknown opcode: likely data bytes in the text segment. Treat as a nop so that
        // transpilation can go on.
        _ => Some(nop()),
    }
}

impl XRegs1024TranspilerExtension {
    /// Transpiles the start of `instruction_stream`: a call pair (AUIPC then JALR) into one JAL,
    /// or a 64-bit encoded instruction into its VM instruction followed by a gap. Returns `None`
    /// where the stream starts with neither, or with a 64-bit instruction whose function codes
    /// the VM does not support.
    pub fn process_custom(&self, instruction_stream: &[u32]) -> (out: Option<TranspilerOutput>)
        ensures
            match spec_transpile(instruction_stream@) {
                None => out is None,
                Some(instructions) => out matches Some(o) && o.instructions@ == instructions
                    && o.used_u32s == 2,
            },
    {
        if instruction_stream.len() < 2 {
            return None;
        }
        let lo = instruction_stream[0];
        proof {
            lemma_shift_mask(lo);
        }

        // Check for an AUIPC+JALR call pair (standard 32-bit, 8 bytes in all), which
        // PseudoCALL emits for function calls.
        if (lo & 0x7F) == AUIPC as u32 {
            let jalr_word = instruction_stream[1];
            proof {
                lemma_shift_mask(jalr_word);
            }
            if (jalr_word & 0x7F) == JALR as u32 {
                // AUIPC rd, offset; JALR rd, rd, offset together jump to PC + hi20 + lo12 and
                // save the return address in rd: transpile as a JAL to the combined target.
                let auipc_imm = (lo & 0xFFFFF000) as i32;  // upper 20 bits, sign-extended
                let jalr_imm = i_imm(jalr_word);  // I-type imm12, sign-extended
                proof {
                    lemma2_to64();
                    let u = lo & 0xFFFFF000u32;
                    assert(auipc_imm == as_signed32(u as int)) by (bit_vector)
                        requires auipc_imm == u as i32;
                }
                // Halve the offset: it counts bytes of 8-byte instructions, scaled here to one
                // 4-byte step per instruction (see `spec_transpile` on the slot layout).
                let full_offset = auipc_imm.wrapping_add(jalr_imm) / 2;

                let rd = ((lo >> 7) & 0x1F) as usize;
                let is_tail = rd == 0;  // PseudoTAIL uses rd=x0

                // Emit as JAL (PC-relative jump). Both call and tail-call are PC-relative; the
                // only difference is whether rd is saved.
                let mut instructions: Vec<Option<VmInstruction>> = Vec::new();
                instructions.push(
                    Some(
                        VmInstruction {
                            opcode: Rv32JalLuiOpcode::JAL.global_opcode(),
                            a: (register_num_limbs() * rd) as i32,
                            b: 0,
                            c: full_offset,
                            d: 1,
                            e: 0,
                            // f=1 enables the write of rd (saves the return address)
                            f: if is_tail {
                                0
                            } else {
                                1
                            },
                            g: 0,
                        },
                    ),
                );
                proof {
                    assert(instructions@ =~= seq![Some(spec_call(lo, jalr_word))]);
                }
                return Some(TranspilerOutput { instructions, used_u32s: 2 });
            }
        }
        // Check for the 64-bit marker

        if (lo & 0x7F) != XREGS1024_MARKER {
            return None;
        }
        let hi = instruction_stream[1];
        let d = decode_64bit(lo, hi);

        let instruction = transpile_decoded(&d);

        // Emit the instruction followed by a gap: the 8-byte instruction takes two slots.
        match instruction {
            Some(inst) => {
                let mut instructions: Vec<Option<VmInstruction>> = Vec::new();
                instructions.push(Some(inst));
                instructions.push(None);
                proof {
                    assert(instructions@ =~= seq![Some(inst), None]);
                }
                Some(TranspilerOutput { instructions, used_u32s: 2 })
            },
            None => None,
        }
    }
}

/// Only the next two words of the stream matter: transpiling a stream of at least two words
/// gives what transpiling its first two words gives.
pub proof fn lemma_reads_two_words(stream: Seq<u32>)
    requires
        stream.len() >= 2,
    ensures
        spec_transpile(stream) == spec_transpile(stream.subrange(0, 2)),
{
    let head = stream.subrange(0, 2);
    assert(head[0] == stream[0] && head[1] == stream[1]);
}

/// A stream that starts with a standard 32-bit instruction other than AUIPC is left to other
/// extensions, and so is an AUIPC that is not followed by a JALR.
pub proof fn lemma_standard_words_rejected(stream: Seq<u32>)
    requires
        stream.len() >= 2,
        stream[0] % 0x80 != XREGS1024_MARKER,
        !is_call_pair(stream[0], stream[1]),
    ensures
        spec_transpile(stream) is None,
{
}

/// A register-writing ALU instruction (OP, OP-IMM or LUI) whose destination is x0 has no
/// effect: it becomes a nop, if it is supported at all.
pub proof fn lemma_x0_alu_writes_are_nops(d: Decoded64)
    requires
        d.rd == 0,
        d.opcode == OP || d.opcode == OP_IMM || d.opcode == LUI,
        spec_instruction(d) is Some,
    ensures
        spec_instruction(d) == Some(spec_nop()),
{
}

/// Transpiling an encoded 64-bit instruction gives the VM instruction of the encoded fields,
/// followed by a gap; or nothing where the fields name no supported instruction.
pub proof fn lemma_transpile_encoded(
    opcode: u32,
    funct3: u32,
    funct7: u32,
    rd: u32,
    rs1: u32,
    rs2: u32,
)
    requires
        opcode < 128,
        funct3 < 8,
        funct7 < 128,
        rd < 1024,
        rs1 < 1024,
        rs2 < 1024,
    ensures
        ({
            let lo = encode_lo(funct3, funct7, rd, rs1, rs2);
            let hi = encode_hi(opcode, rd, rs1, rs2);
            let d = Decoded64 {
                opcode: opcode as u8,
                funct3: funct3 as u8,
                funct7: funct7 as u8,
                rd: rd as usize,
                rs1: rs1 as usize,
                rs2: rs2 as usize,
                lo,
            };
            spec_transpile(seq![lo, hi]) == match spec_instruction(d) {
                Some(inst) => Some(seq![Some(inst), None]),
                None => None,
            }
        }),
{
    let lo = encode_lo(funct3, funct7, rd, rs1, rs2);
    let hi = encode_hi(opcode, rd, rs1, rs2);
    lemma_decode_encode(opcode, funct3, funct7, rd, rs1, rs2);
    let s = seq![lo, hi];
    assert(s[0] == lo && s[1] == hi);
    assert(lo % 0x80 == 0x3f);
    assert(spec_decode(lo, hi).rd == rd);
}

/// The register operands of every VM instruction made from a 64-bit instruction address the
/// 1024-register file: operands a and b are 0 or the address of a register below 1024, a
/// multiple of 4 below 4096.
pub proof fn lemma_register_operands_in_file(lo: u32, hi: u32)
    ensures
        spec_instruction(spec_decode(lo, hi)) matches Some(inst) ==> {
            &&& 0 <= inst.a < 4096 && inst.a % 4 == 0
            &&& 0 <= inst.b < 4096 && inst.b % 4 == 0
        },
{
    lemma2_to64();
    let d = spec_decode(lo, hi);
    assert(d.rd < 1024 && d.rs1 < 1024 && d.rs2 < 1024);
}

} // verus!
