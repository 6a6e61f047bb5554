use xregs1024::instruction::{nop, unimp};
use xregs1024::{
    b_imm, decode_64bit, i12_to_u24, i_imm, j_imm, s_imm, u_imm, VmInstruction,
    XRegs1024TranspilerExtension,
};

/// Encode a 64-bit instruction in the fixup-compatible format.
/// Returns (lo_u32, hi_u32).
fn encode_r_type(opcode: u32, funct3: u32, funct7: u32, rd: u32, rs1: u32, rs2: u32) -> (u32, u32) {
    let lo = 0x3F // marker
        | ((rd & 0x1F) << 7)
        | (funct3 << 12)
        | ((rs1 & 0x1F) << 15)
        | ((rs2 & 0x1F) << 20)
        | (funct7 << 25);
    let hi = (opcode << 10)
        | (((rd >> 5) & 0x1F) << 17)
        | (((rs1 >> 5) & 0x1F) << 22)
        | (((rs2 >> 5) & 0x1F) << 27);
    (lo, hi)
}

fn encode_i_type(opcode: u32, funct3: u32, rd: u32, rs1: u32, imm12: i32) -> (u32, u32) {
    let imm = (imm12 as u32) & 0xFFF;
    let lo = 0x3F | ((rd & 0x1F) << 7) | (funct3 << 12) | ((rs1 & 0x1F) << 15) | (imm << 20);
    let hi = (opcode << 10) | (((rd >> 5) & 0x1F) << 17) | (((rs1 >> 5) & 0x1F) << 22);
    (lo, hi)
}

/// S-type: the offset's bits 11..5 in bits 31..25, its bits 4..0 in bits 11..7.
fn encode_s_type(opcode: u32, funct3: u32, rs1: u32, rs2: u32, imm12: i32) -> (u32, u32) {
    let imm = (imm12 as u32) & 0xFFF;
    let (lo, hi) = encode_r_type(opcode, funct3, 0, 0, rs1, rs2);
    (lo | ((imm & 0x1F) << 7) | ((imm >> 5) << 25), hi)
}

/// B-type: offset bit 12 in bit 31, bits 10..5 in 30..25, bits 4..1 in 11..8, bit 11 in bit 7.
fn encode_b_type(funct3: u32, rs1: u32, rs2: u32, offset: i32) -> (u32, u32) {
    let imm = (offset as u32) & 0x1FFF;
    let (lo, hi) = encode_r_type(0b1100011, funct3, 0, 0, rs1, rs2);
    let lo = lo
        | (((imm >> 12) & 1) << 31)
        | (((imm >> 5) & 0x3F) << 25)
        | (((imm >> 1) & 0xF) << 8)
        | (((imm >> 11) & 1) << 7);
    (lo, hi)
}

/// J-type: offset bit 20 in bit 31, bits 10..1 in 30..21, bit 11 in bit 20, bits 19..12 in place.
fn encode_j_type(rd: u32, offset: i32) -> (u32, u32) {
    let imm = (offset as u32) & 0x1F_FFFF;
    let (lo, hi) = encode_r_type(0b1101111, 0, 0, rd, 0, 0);
    let lo = lo
        | (((imm >> 20) & 1) << 31)
        | (((imm >> 1) & 0x3FF) << 21)
        | (((imm >> 11) & 1) << 20)
        | (((imm >> 12) & 0xFF) << 12);
    (lo, hi)
}

fn instr(opcode: usize, a: i32, b: i32, c: i32, d: i32, e: i32, f: i32, g: i32) -> VmInstruction {
    VmInstruction { opcode, a, b, c, d, e, f, g }
}

/// The single instruction (followed by its gap) that `stream` transpiles to.
fn transpile_one(lo: u32, hi: u32) -> Option<VmInstruction> {
    let ext = XRegs1024TranspilerExtension;
    let output = ext.process_custom(&[lo, hi])?;
    assert_eq!(output.used_u32s, 2);
    assert_eq!(output.instructions.len(), 2);
    assert!(output.instructions[1].is_none());
    output.instructions[0]
}

#[test]
fn test_decode_r_type_standard_regs() {
    // ADD x10, x11, x12  (standard registers, should work like normal)
    let (lo, hi) = encode_r_type(0b0110011, 0b000, 0b0000000, 10, 11, 12);
    let d = decode_64bit(lo, hi);
    assert_eq!(d.opcode, 0b0110011);
    assert_eq!(d.funct3, 0);
    assert_eq!(d.funct7, 0);
    assert_eq!(d.rd, 10);
    assert_eq!(d.rs1, 11);
    assert_eq!(d.rs2, 12);
}

#[test]
fn test_decode_r_type_extended_regs() {
    // ADD x100, x200, x300  (extended registers)
    let (lo, hi) = encode_r_type(0b0110011, 0b000, 0b0000000, 100, 200, 300);
    let d = decode_64bit(lo, hi);
    assert_eq!(d.rd, 100);
    assert_eq!(d.rs1, 200);
    assert_eq!(d.rs2, 300);
}

#[test]
fn test_transpiler_extension_detects_marker() {
    let ext = XRegs1024TranspilerExtension;

    // 64-bit instruction: ADD x10, x11, x12
    let (lo, hi) = encode_r_type(0b0110011, 0b000, 0b0000000, 10, 11, 12);
    let stream = vec![lo, hi];
    let result = ext.process_custom(&stream);
    assert!(result.is_some(), "Should detect 64-bit instruction");
    let output = result.unwrap();
    assert_eq!(output.used_u32s, 2, "Should consume 2 u32s");
    assert_eq!(output.instructions.len(), 2, "Should emit instruction + gap");
    assert!(output.instructions[0].is_some(), "First should be instruction");
    assert!(output.instructions[1].is_none(), "Second should be gap");
}

#[test]
fn test_transpiler_extension_ignores_standard() {
    let ext = XRegs1024TranspilerExtension;

    // Standard 32-bit instruction (opcode != 0x3F in bits[6:0])
    let standard_add: u32 = 0x00b50533; // add a0, a0, a1
    let stream = vec![standard_add];
    let result = ext.process_custom(&stream);
    assert!(result.is_none(), "Should NOT detect standard 32-bit instruction");
}

#[test]
fn test_transpiler_all_formats() {
    let ext = XRegs1024TranspilerExtension;

    // Test I-type: ADDI x50, x60, 42
    let (lo, hi) = encode_i_type(0b0010011, 0b000, 50, 60, 42);
    let stream = vec![lo, hi];
    let result = ext.process_custom(&stream);
    assert!(result.is_some(), "ADDI should be decoded");

    // Test load: LW x50, 8(x60)
    let (lo, hi) = encode_i_type(0b0000011, 0b010, 50, 60, 8);
    let stream = vec![lo, hi];
    let result = ext.process_custom(&stream);
    assert!(result.is_some(), "LW should be decoded");
}

#[test]
fn decode_gives_back_the_largest_register_indices() {
    let (lo, hi) = encode_r_type(0b0110011, 0b111, 0b0100000, 1023, 1022, 1021);
    let d = decode_64bit(lo, hi);
    assert_eq!((d.opcode, d.funct3, d.funct7), (0b0110011, 7, 0x20));
    assert_eq!((d.rd, d.rs1, d.rs2), (1023, 1022, 1021));
    assert_eq!(d.lo, lo);
}

#[test]
fn immediates_have_their_exact_values() {
    assert_eq!(i_imm(0xFFF0_0000), -1);
    assert_eq!(i_imm(0x7FF0_0000), 2047);
    assert_eq!(i_imm(0x8000_0000), -2048);
    // S-type immediates are sign-extended like the others
    assert_eq!(s_imm(0xFE00_0F80), -1);
    assert_eq!(s_imm(0xFE00_0E00), -4);
    assert_eq!(s_imm(0x7E00_0F80), 2047);
    assert_eq!(s_imm(0x8000_0000), -2048);
    assert_eq!(s_imm(0x0200_0100), 34);
    let (lo, _) = encode_b_type(0, 0, 0, -8);
    assert_eq!(b_imm(lo), -8);
    let (lo, _) = encode_b_type(0, 0, 0, 4094);
    assert_eq!(b_imm(lo), 4094);
    let (lo, _) = encode_j_type(0, -0x10_0000);
    assert_eq!(j_imm(lo), -0x10_0000);
    let (lo, _) = encode_j_type(0, 0x7_FFFE);
    assert_eq!(j_imm(lo), 0x7_FFFE);
    assert_eq!(u_imm(0x1234_5FFF), 0x1234_5000);
    assert_eq!(i12_to_u24(-1), 0xFF_FFFF);
    assert_eq!(i12_to_u24(42), 42);
    assert_eq!(i12_to_u24(-2048), 0xFF_F800);
}

#[test]
fn nop_and_unimp_are_the_system_opcodes() {
    assert_eq!(nop(), instr(1, 0, 0, 0, 0, 0, 0, 0));
    assert_eq!(unimp(), instr(0, 0, 0, 2, 0, 0, 0, 0));
}

#[test]
fn r_type_operands_are_register_addresses() {
    let (lo, hi) = encode_r_type(0b0110011, 0b000, 0b0000000, 10, 11, 12);
    assert_eq!(transpile_one(lo, hi), Some(instr(0x200, 40, 44, 48, 1, 1, 0, 0)));
    let (lo, hi) = encode_r_type(0b0110011, 0b000, 0b0100000, 100, 200, 300);
    assert_eq!(transpile_one(lo, hi), Some(instr(0x201, 400, 800, 1200, 1, 1, 0, 0)));
    let (lo, hi) = encode_r_type(0b0110011, 0b101, 0b0100000, 1, 2, 3);
    assert_eq!(transpile_one(lo, hi), Some(instr(0x207, 4, 8, 12, 1, 1, 0, 0)));
    // M-extension: DIV and REMU
    let (lo, hi) = encode_r_type(0b0110011, 0b100, 0b0000001, 5, 6, 7);
    assert_eq!(transpile_one(lo, hi), Some(instr(0x254, 20, 24, 28, 1, 1, 0, 0)));
    let (lo, hi) = encode_r_type(0b0110011, 0b111, 0b0000001, 5, 6, 7);
    assert_eq!(transpile_one(lo, hi), Some(instr(0x257, 20, 24, 28, 1, 1, 0, 0)));
}

#[test]
fn unsupported_function_codes() {
    let ext = XRegs1024TranspilerExtension;
    // OP with funct7 = 0x20 and funct3 = 1 names no instruction: a nop
    let (lo, hi) = encode_r_type(0b0110011, 0b001, 0b0100000, 1, 2, 3);
    assert_eq!(transpile_one(lo, hi), Some(nop()));
    // OP with funct7 = 0x02: not transpiled
    let (lo, hi) = encode_r_type(0b0110011, 0b000, 0b0000010, 1, 2, 3);
    assert!(ext.process_custom(&[lo, hi]).is_none());
    // LOAD with funct3 = 3, STORE with funct3 = 4, BRANCH with funct3 = 2: not transpiled
    let (lo, hi) = encode_i_type(0b0000011, 0b011, 1, 2, 0);
    assert!(ext.process_custom(&[lo, hi]).is_none());
    let (lo, hi) = encode_s_type(0b0100011, 0b100, 1, 2, 0);
    assert!(ext.process_custom(&[lo, hi]).is_none());
    let (lo, hi) = encode_b_type(0b010, 1, 2, 8);
    assert!(ext.process_custom(&[lo, hi]).is_none());
}

#[test]
fn writes_to_x0_become_nops() {
    let (lo, hi) = encode_r_type(0b0110011, 0b000, 0b0000000, 0, 11, 12);
    assert_eq!(transpile_one(lo, hi), Some(nop()));
    let (lo, hi) = encode_i_type(0b0010011, 0b000, 0, 1, 5);
    assert_eq!(transpile_one(lo, hi), Some(nop()));
    let (lo, hi) = encode_i_type(0b0010011, 0b001, 0, 1, 5);
    assert_eq!(transpile_one(lo, hi), Some(nop()));
    let (lo, hi) = encode_i_type(0b0110111, 0, 0, 0, 0x7ff);
    assert_eq!(transpile_one(lo, hi), Some(nop()));
}

#[test]
fn i_type_immediates_are_taken_modulo_2_to_24() {
    // ADDI x50, x60, 42
    let (lo, hi) = encode_i_type(0b0010011, 0b000, 50, 60, 42);
    assert_eq!(transpile_one(lo, hi), Some(instr(0x200, 200, 240, 42, 1, 0, 0, 0)));
    // ANDI x1, x2, -1
    let (lo, hi) = encode_i_type(0b0010011, 0b111, 1, 2, -1);
    assert_eq!(transpile_one(lo, hi), Some(instr(0x204, 4, 8, 0xFF_FFFF, 1, 0, 0, 0)));
    // SLTIU x1, x2, 7
    let (lo, hi) = encode_i_type(0b0010011, 0b011, 1, 2, 7);
    assert_eq!(transpile_one(lo, hi), Some(instr(0x209, 4, 8, 7, 1, 0, 0, 0)));
}

#[test]
fn shifts_by_immediate() {
    // SLLI x3, x4, 5
    let (lo, hi) = encode_i_type(0b0010011, 0b001, 3, 4, 5);
    assert_eq!(transpile_one(lo, hi), Some(instr(0x205, 12, 16, 5, 1, 0, 0, 0)));
    // SRLI x3, x4, 31
    let (lo, hi) = encode_i_type(0b0010011, 0b101, 3, 4, 31);
    assert_eq!(transpile_one(lo, hi), Some(instr(0x206, 12, 16, 31, 1, 0, 0, 0)));
    // SRAI x3, x4, 7 (bit 30 set)
    let (lo, hi) = encode_i_type(0b0010011, 0b101, 3, 4, 0x400 | 7);
    assert_eq!(transpile_one(lo, hi), Some(instr(0x207, 12, 16, 7, 1, 0, 0, 0)));
}

#[test]
fn loads_and_stores() {
    // LW x50, 8(x60)
    let (lo, hi) = encode_i_type(0b0000011, 0b010, 50, 60, 8);
    assert_eq!(transpile_one(lo, hi), Some(instr(0x210, 200, 240, 8, 1, 2, 1, 0)));
    // LB x1, -4(x2): offset modulo 2^16 and its sign
    let (lo, hi) = encode_i_type(0b0000011, 0b000, 1, 2, -4);
    assert_eq!(transpile_one(lo, hi), Some(instr(0x216, 4, 8, 0xFFFC, 1, 2, 1, 1)));
    // LHU x0, 2(x2): the write is disabled
    let (lo, hi) = encode_i_type(0b0000011, 0b101, 0, 2, 2);
    assert_eq!(transpile_one(lo, hi), Some(instr(0x212, 0, 8, 2, 1, 2, 0, 0)));
    // SW x7, 12(x6)
    let (lo, hi) = encode_s_type(0b0100011, 0b010, 6, 7, 12);
    assert_eq!(transpile_one(lo, hi), Some(instr(0x213, 28, 24, 12, 1, 2, 1, 0)));
    // SB x7, -1(x6): offset modulo 2^16 and its sign
    let (lo, hi) = encode_s_type(0b0100011, 0b000, 6, 7, -1);
    assert_eq!(transpile_one(lo, hi), Some(instr(0x215, 28, 24, 0xFFFF, 1, 2, 1, 1)));
    // SW x1, -4(x2)
    let (lo, hi) = encode_s_type(0b0100011, 0b010, 2, 1, -4);
    assert_eq!((lo, hi), (0xFE11_2E3F, 0x0000_8C00));
    assert_eq!(transpile_one(lo, hi), Some(instr(0x213, 4, 8, 0xFFFC, 1, 2, 1, 1)));
}

#[test]
fn branch_and_jump_offsets_are_halved() {
    // BEQ x1, x2, -8
    let (lo, hi) = encode_b_type(0b000, 1, 2, -8);
    assert_eq!(transpile_one(lo, hi), Some(instr(0x220, 4, 8, -4, 1, 1, 0, 0)));
    // BGEU x300, x301, 16
    let (lo, hi) = encode_b_type(0b111, 300, 301, 16);
    assert_eq!(transpile_one(lo, hi), Some(instr(0x228, 1200, 1204, 8, 1, 1, 0, 0)));
    // JAL x1, 16
    let (lo, hi) = encode_j_type(1, 16);
    assert_eq!(transpile_one(lo, hi), Some(instr(0x230, 4, 0, 8, 1, 0, 1, 0)));
    // JAL x0, -4096
    let (lo, hi) = encode_j_type(0, -4096);
    assert_eq!(transpile_one(lo, hi), Some(instr(0x230, 0, 0, -2048, 1, 0, 0, 0)));
    // JALR x1, -4(x5)
    let (lo, hi) = encode_i_type(0b1100111, 0, 1, 5, -4);
    assert_eq!(transpile_one(lo, hi), Some(instr(0x235, 4, 20, 0xFF_FFFC, 1, 0, 1, 0)));
}

#[test]
fn upper_immediates() {
    // LUI x5, 0x12345
    let (lo, hi) = encode_r_type(0b0110111, 0, 0, 5, 0, 0);
    let lo = lo | 0x1234_5000;
    assert_eq!(transpile_one(lo, hi), Some(instr(0x231, 20, 0, 0x12345, 1, 0, 1, 0)));
    // AUIPC x5, 0xFFFFF
    let (lo, hi) = encode_r_type(0b0010111, 0, 0, 5, 0, 0);
    let lo = lo | 0xFFFF_F000;
    assert_eq!(transpile_one(lo, hi), Some(instr(0x240, 20, 0, 0xFFFFF, 1, 0, 0, 0)));
}

#[test]
fn system_and_custom_instructions() {
    // ECALL: terminate with exit code 0
    let (lo, hi) = encode_i_type(0b1110011, 0, 0, 0, 0);
    assert_eq!(transpile_one(lo, hi), Some(instr(0, 0, 0, 0, 0, 0, 0, 0)));
    // EBREAK
    let (lo, hi) = encode_i_type(0b1110011, 0, 0, 0, 1);
    assert_eq!(transpile_one(lo, hi), Some(unimp()));
    // CSR access: a nop
    let (lo, hi) = encode_i_type(0b1110011, 0b010, 1, 0, 0x300);
    assert_eq!(transpile_one(lo, hi), Some(nop()));
    // FENCE
    let (lo, hi) = encode_i_type(0b0001111, 0, 0, 0, 0);
    assert_eq!(transpile_one(lo, hi), Some(nop()));
    // custom-0 TERMINATE with the exit code in the immediate's low byte
    let (lo, hi) = encode_i_type(0x0b, 0, 0, 0, 0x1ff);
    assert_eq!(transpile_one(lo, hi), Some(instr(0, 0, 0, 0xff, 0, 0, 0, 0)));
    let (lo, hi) = encode_i_type(0x0b, 1, 0, 0, 3);
    assert_eq!(transpile_one(lo, hi), Some(nop()));
    // an unknown opcode (data in the text segment)
    let (lo, hi) = encode_r_type(0x7f, 0, 0, 0, 0, 0);
    assert_eq!(transpile_one(lo, hi), Some(nop()));
}

#[test]
fn call_pairs_become_one_jal() {
    let ext = XRegs1024TranspilerExtension;
    // AUIPC x1, 0x1; JALR x1, 8(x1)
    let auipc = 0x0000_1000 | (1 << 7) | 0b0010111;
    let jalr = (8 << 20) | (1 << 15) | (1 << 7) | 0b1100111;
    let output = ext.process_custom(&[auipc, jalr]).unwrap();
    assert_eq!(output.used_u32s, 2);
    assert_eq!(output.instructions, vec![Some(instr(0x230, 4, 0, 2052, 1, 0, 1, 0))]);
    // tail call through x0 with a negative odd offset: -4096 - 1 halved toward zero
    let auipc = 0xFFFF_F000 | 0b0010111;
    let jalr = 0xFFF0_0000 | 0b1100111;
    let output = ext.process_custom(&[auipc, jalr]).unwrap();
    assert_eq!(output.instructions, vec![Some(instr(0x230, 0, 0, -2048, 1, 0, 0, 0))]);
    // the sum wraps around in 32 bits
    let auipc = 0x8000_0000 | 0b0010111;
    let jalr = 0xFFF0_0000 | 0b1100111;
    let output = ext.process_custom(&[auipc, jalr]).unwrap();
    assert_eq!(output.instructions, vec![Some(instr(0x230, 0, 0, 0x3FFF_FFFF, 1, 0, 0, 0))]);
}

#[test]
fn standard_words_are_left_to_other_extensions() {
    let ext = XRegs1024TranspilerExtension;
    assert!(ext.process_custom(&[]).is_none());
    assert!(ext.process_custom(&[0x00b50533, 0x00b50533]).is_none());
    // AUIPC not followed by JALR
    assert!(ext.process_custom(&[0x0000_1097, 0x00b50533]).is_none());
    // a marker word alone is not enough
    assert!(ext.process_custom(&[0x3F]).is_none());
}

#[test]
fn only_the_next_two_words_matter() {
    let ext = XRegs1024TranspilerExtension;
    let (lo, hi) = encode_r_type(0b0110011, 0b000, 0b0000000, 10, 11, 12);
    let short = ext.process_custom(&[lo, hi]).unwrap();
    let long = ext.process_custom(&[lo, hi, 0xdead_beef, 0x3F]).unwrap();
    assert_eq!(short.instructions, long.instructions);
    assert_eq!(short.used_u32s, long.used_u32s);
}

#[test]
fn extended_registers_address_the_whole_register_file() {
    let (lo, hi) = encode_r_type(0b0110011, 0b000, 0b0000000, 1023, 1022, 1021);
    assert_eq!(transpile_one(lo, hi), Some(instr(0x200, 4092, 4088, 4084, 1, 1, 0, 0)));
    let (lo, hi) = encode_s_type(0b0100011, 0b010, 1023, 512, 0);
    assert_eq!(transpile_one(lo, hi), Some(instr(0x213, 2048, 4092, 0, 1, 2, 1, 0)));
}
