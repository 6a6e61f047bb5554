//! RISC-V major opcodes and the global opcode numbers of the VM instructions they become.
use vstd::prelude::*;
use openvm_instructions::riscv::RV32_REGISTER_NUM_LIMBS;
use openvm_instructions::{LocalOpcode, SystemOpcode};

verus! {

// RISC-V major opcodes (bits 6..0 of a standard instruction)
pub const OP: u8 = 0b0110011;
pub const OP_IMM: u8 = 0b0010011;
pub const LOAD: u8 = 0b0000011;
pub const STORE: u8 = 0b0100011;
pub const BRANCH: u8 = 0b1100011;
pub const JAL: u8 = 0b1101111;
pub const JALR: u8 = 0b1100111;
pub const LUI: u8 = 0b0110111;
pub const AUIPC: u8 = 0b0010111;
pub const SYSTEM: u8 = 0b1110011;
pub const MISC_MEM: u8 = 0b0001111;
/// The OpenVM custom-0 opcode, used for terminate, phantom, hint and reveal.
pub const CUSTOM_0: u8 = 0x0b;

/// Bits 6..0 of the low word of every instruction in the 64-bit encoding.
pub const XREGS1024_MARKER: u32 = 0x3F;

/// The system instructions of the VM, as `SystemOpcode` of openvm-instructions names them.
#[derive(Clone, Copy, Debug, PartialEq, Eq)]
pub enum SystemOp {
    TERMINATE,
    PHANTOM,
}

impl SystemOp {
    /// The global opcode: the class offset of the system opcodes (0) plus the variant's index.
    pub open spec fn global(self) -> int {
        match self {
            SystemOp::TERMINATE => 0,
            SystemOp::PHANTOM => 1,
        }
    }
}

/// The number of byte cells a register occupies in VM memory.
pub open spec fn register_limbs() -> int {
    4
}

/// `LocalOpcode::global_opcode` of openvm-instructions on its `SystemOpcode` variant for `op`,
/// as a number. In openvm-instructions, `SystemOpcode` is declared with `opcode_offset = 0`,
/// and the derived `LocalOpcode` makes the global opcode that offset plus the variant's index:
/// 0 for TERMINATE, 1 for PHANTOM. The contract claims that value.
#[verifier::external_body]
pub(crate) fn system_global_opcode(op: SystemOp) -> (r: usize)
    ensures
        r == op.global(),
{
    let op = match op {
        SystemOp::TERMINATE => SystemOpcode::TERMINATE,
        SystemOp::PHANTOM => SystemOpcode::PHANTOM,
    };
    op.global_opcode().as_usize()
}

/// `openvm_instructions::riscv::RV32_REGISTER_NUM_LIMBS`: a register is stored as this many
/// byte cells, so register `x` lives at address `x` times this number. openvm-instructions
/// defines it as 4, and the contract claims that value.
#[verifier::external_body]
pub(crate) fn register_num_limbs() -> (r: usize)
    ensures
        r == register_limbs(),
{
    RV32_REGISTER_NUM_LIMBS
}

pub const BASE_ALU_OFFSET: usize = 0x200;
pub const SHIFT_OFFSET: usize = 0x205;
pub const LESS_THAN_OFFSET: usize = 0x208;
pub const LOAD_STORE_OFFSET: usize = 0x210;
pub const BRANCH_EQUAL_OFFSET: usize = 0x220;
pub const BRANCH_LESS_THAN_OFFSET: usize = 0x225;
pub const JAL_LUI_OFFSET: usize = 0x230;
pub const JALR_OFFSET: usize = 0x235;
pub const AUIPC_OFFSET: usize = 0x240;
pub const MUL_OFFSET: usize = 0x250;
pub const MULH_OFFSET: usize = 0x251;
pub const DIV_REM_OFFSET: usize = 0x254;

#[derive(Clone, Copy, Debug, PartialEq, Eq)]
pub enum BaseAluOpcode {
    ADD,
    SUB,
    XOR,
    OR,
    AND,
}

impl BaseAluOpcode {
    /// The global opcode: the class offset plus the variant's index.
    pub open spec fn global(self) -> int {
        BASE_ALU_OFFSET + match self {
            BaseAluOpcode::ADD => 0int,
            BaseAluOpcode::SUB => 1,
            BaseAluOpcode::XOR => 2,
            BaseAluOpcode::OR => 3,
            BaseAluOpcode::AND => 4,
        }
    }

    pub fn global_opcode(&self) -> (r: usize)
        ensures
            r == self.global(),
    {
        BASE_ALU_OFFSET + match self {
            BaseAluOpcode::ADD => 0,
            BaseAluOpcode::SUB => 1,
            BaseAluOpcode::XOR => 2,
            BaseAluOpcode::OR => 3,
            BaseAluOpcode::AND => 4,
        }
    }
}

#[derive(Clone, Copy, Debug, PartialEq, Eq)]
pub enum ShiftOpcode {
    SLL,
    SRL,
    SRA,
}

impl ShiftOpcode {
    /// The global opcode: the class offset plus the variant's index.
    pub open spec fn global(self) -> int {
        SHIFT_OFFSET + match self {
            ShiftOpcode::SLL => 0int,
            ShiftOpcode::SRL => 1,
            ShiftOpcode::SRA => 2,
        }
    }

    pub fn global_opcode(&self) -> (r: usize)
        ensures
            r == self.global(),
    {
        SHIFT_OFFSET + match self {
            ShiftOpcode::SLL => 0,
            ShiftOpcode::SRL => 1,
            ShiftOpcode::SRA => 2,
        }
    }
}

#[derive(Clone, Copy, Debug, PartialEq, Eq)]
pub enum LessThanOpcode {
    SLT,
    SLTU,
}

impl LessThanOpcode {
    /// The global opcode: the class offset plus the variant's index.
    pub open spec fn global(self) -> int {
        LESS_THAN_OFFSET + match self {
            LessThanOpcode::SLT => 0int,
            LessThanOpcode::SLTU => 1,
        }
    }

    pub fn global_opcode(&self) -> (r: usize)
        ensures
            r == self.global(),
    {
        LESS_THAN_OFFSET + match self {
            LessThanOpcode::SLT => 0,
            LessThanOpcode::SLTU => 1,
        }
    }
}

#[derive(Clone, Copy, Debug, PartialEq, Eq)]
pub enum Rv32LoadStoreOpcode {
    LOADW,
    LOADBU,
    LOADHU,
    STOREW,
    STOREH,
    STOREB,
    LOADB,
    LOADH,
}

impl Rv32LoadStoreOpcode {
    /// The global opcode: the class offset plus the variant's index.
    pub open spec fn global(self) -> int {
        LOAD_STORE_OFFSET + match self {
            Rv32LoadStoreOpcode::LOADW => 0int,
            Rv32LoadStoreOpcode::LOADBU => 1,
            Rv32LoadStoreOpcode::LOADHU => 2,
            Rv32LoadStoreOpcode::STOREW => 3,
            Rv32LoadStoreOpcode::STOREH => 4,
            Rv32LoadStoreOpcode::STOREB => 5,
            Rv32LoadStoreOpcode::LOADB => 6,
            Rv32LoadStoreOpcode::LOADH => 7,
        }
    }

    pub fn global_opcode(&self) -> (r: usize)
        ensures
            r == self.global(),
    {
        LOAD_STORE_OFFSET + match self {
            Rv32LoadStoreOpcode::LOADW => 0,
            Rv32LoadStoreOpcode::LOADBU => 1,
            Rv32LoadStoreOpcode::LOADHU => 2,
            Rv32LoadStoreOpcode::STOREW => 3,
            Rv32LoadStoreOpcode::STOREH => 4,
            Rv32LoadStoreOpcode::STOREB => 5,
            Rv32LoadStoreOpcode::LOADB => 6,
            Rv32LoadStoreOpcode::LOADH => 7,
        }
    }
}

#[derive(Clone, Copy, Debug, PartialEq, Eq)]
pub enum BranchEqualOpcode {
    BEQ,
    BNE,
}

impl BranchEqualOpcode {
    /// The global opcode: the class offset plus the variant's index.
    pub open spec fn global(self) -> int {
        BRANCH_EQUAL_OFFSET + match self {
            BranchEqualOpcode::BEQ => 0int,
            BranchEqualOpcode::BNE => 1,
        }
    }

    pub fn global_opcode(&self) -> (r: usize)
        ensures
            r == self.global(),
    {
        BRANCH_EQUAL_OFFSET + match self {
            BranchEqualOpcode::BEQ => 0,
            BranchEqualOpcode::BNE => 1,
        }
    }
}

#[derive(Clone, Copy, Debug, PartialEq, Eq)]
pub enum BranchLessThanOpcode {
    BLT,
    BLTU,
    BGE,
    BGEU,
}

impl BranchLessThanOpcode {
    /// The global opcode: the class offset plus the variant's index.
    pub open spec fn global(self) -> int {
        BRANCH_LESS_THAN_OFFSET + match self {
            BranchLessThanOpcode::BLT => 0int,
            BranchLessThanOpcode::BLTU => 1,
            BranchLessThanOpcode::BGE => 2,
            BranchLessThanOpcode::BGEU => 3,
        }
    }

    pub fn global_opcode(&self) -> (r: usize)
        ensures
            r == self.global(),
    {
        BRANCH_LESS_THAN_OFFSET + match self {
            BranchLessThanOpcode::BLT => 0,
            BranchLessThanOpcode::BLTU => 1,
            BranchLessThanOpcode::BGE => 2,
            BranchLessThanOpcode::BGEU => 3,
        }
    }
}

#[derive(Clone, Copy, Debug, PartialEq, Eq)]
pub enum Rv32JalLuiOpcode {
    JAL,
    LUI,
}

impl Rv32JalLuiOpcode {
    /// The global opcode: the class offset plus the variant's index.
    pub open spec fn global(self) -> int {
        JAL_LUI_OFFSET + match self {
            Rv32JalLuiOpcode::JAL => 0int,
            Rv32JalLuiOpcode::LUI => 1,
        }
    }

    pub fn global_opcode(&self) -> (r: usize)
        ensures
            r == self.global(),
    {
        JAL_LUI_OFFSET + match self {
            Rv32JalLuiOpcode::JAL => 0,
            Rv32JalLuiOpcode::LUI => 1,
        }
    }
}

#[derive(Clone, Copy, Debug, PartialEq, Eq)]
pub enum Rv32JalrOpcode {
    JALR,
}

impl Rv32JalrOpcode {
    /// The global opcode: the class offset plus the variant's index.
    pub open spec fn global(self) -> int {
        JALR_OFFSET as int
    }

    pub fn global_opcode(&self) -> (r: usize)
        ensures
            r == self.global(),
    {
        JALR_OFFSET
    }
}

#[derive(Clone, Copy, Debug, PartialEq, Eq)]
pub enum Rv32AuipcOpcode {
    AUIPC,
}

impl Rv32AuipcOpcode {
    /// The global opcode: the class offset plus the variant's index.
    pub open spec fn global(self) -> int {
        AUIPC_OFFSET as int
    }

    pub fn global_opcode(&self) -> (r: usize)
        ensures
            r == self.global(),
    {
        AUIPC_OFFSET
    }
}

#[derive(Clone, Copy, Debug, PartialEq, Eq)]
pub enum MulOpcode {
    MUL,
}

impl MulOpcode {
    /// The global opcode: the class offset plus the variant's index.
    pub open spec fn global(self) -> int {
        MUL_OFFSET as int
    }

    pub fn global_opcode(&self) -> (r: usize)
        ensures
            r == self.global(),
    {
        MUL_OFFSET
    }
}

#[derive(Clone, Copy, Debug, PartialEq, Eq)]
pub enum MulHOpcode {
    MULH,
    MULHSU,
    MULHU,
}

impl MulHOpcode {
    /// The global opcode: the class offset plus the variant's index.
    pub open spec fn global(self) -> int {
        MULH_OFFSET + match self {
            MulHOpcode::MULH => 0int,
            MulHOpcode::MULHSU => 1,
            MulHOpcode::MULHU => 2,
        }
    }

    pub fn global_opcode(&self) -> (r: usize)
        ensures
            r == self.global(),
    {
        MULH_OFFSET + match self {
            MulHOpcode::MULH => 0,
            MulHOpcode::MULHSU => 1,
            MulHOpcode::MULHU => 2,
        }
    }
}

#[derive(Clone, Copy, Debug, PartialEq, Eq)]
pub enum DivRemOpcode {
    DIV,
    DIVU,
    REM,
    REMU,
}

impl DivRemOpcode {
    /// The global opcode: the class offset plus the variant's index.
    pub open spec fn global(self) -> int {
        DIV_REM_OFFSET + match self {
            DivRemOpcode::DIV => 0int,
            DivRemOpcode::DIVU => 1,
            DivRemOpcode::REM => 2,
            DivRemOpcode::REMU => 3,
        }
    }

    pub fn global_opcode(&self) -> (r: usize)
        ensures
            r == self.global(),
    {
        DIV_REM_OFFSET + match self {
            DivRemOpcode::DIV => 0,
            DivRemOpcode::DIVU => 1,
            DivRemOpcode::REM => 2,
            DivRemOpcode::REMU => 3,
        }
    }
}

} // verus!
