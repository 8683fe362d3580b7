//! The ten instructions, the constants that select them, and what it
//! means for one to be encodable.

use vstd::prelude::*;
use crate::error::IsaError;
use crate::fields::Reg;
use crate::pack::{spec_pack_b, spec_pack_i, spec_pack_j, spec_pack_r, spec_pack_s, spec_pack_u};

verus! {

/// Opcode of the register-register family.
pub const OP_OP: u32 = 0b0110011;

/// Opcode of the register-immediate arithmetic family.
pub const OP_OP_IMM: u32 = 0b0010011;

/// Opcode of the loads.
pub const OP_LOAD: u32 = 0b0000011;

/// Opcode of the stores.
pub const OP_STORE: u32 = 0b0100011;

/// Opcode of the conditional branches.
pub const OP_BRANCH: u32 = 0b1100011;

/// Opcode of the indirect jump.
pub const OP_JALR: u32 = 0b1100111;

/// Opcode of the direct jump.
pub const OP_JAL: u32 = 0b1101111;

/// Opcode of the load of an upper immediate.
pub const OP_LUI: u32 = 0b0110111;

/// Opcode of the addition of an upper immediate to the program counter.
pub const OP_AUIPC: u32 = 0b0010111;

/// `funct3` shared by addition and subtraction.
pub const F3_ADD_SUB: u32 = 0b000;

/// `funct3` of the addition of an immediate.
pub const F3_ADDI: u32 = 0b000;

/// `funct3` of the branch on equality.
pub const F3_BEQ: u32 = 0b000;

/// `funct3` of the load of a word.
pub const F3_LW: u32 = 0b010;

/// `funct3` of the store of a word.
pub const F3_SW: u32 = 0b010;

/// `funct3` of the indirect jump.
pub const F3_JALR: u32 = 0b000;

/// `funct7` of the addition.
pub const F7_ADD: u32 = 0b0000000;

/// `funct7` of the subtraction.
pub const F7_SUB: u32 = 0b0100000;

/// One instruction, with the operands that its layout has room for.
#[derive(Debug, Clone, Copy, PartialEq, Eq, Structural)]
pub enum Instr {
    /// `rd = rs1 + rs2`
    Add { rd: Reg, rs1: Reg, rs2: Reg },
    /// `rd = rs1 - rs2`
    Sub { rd: Reg, rs1: Reg, rs2: Reg },
    /// `rd = rs1 + imm`
    Addi { rd: Reg, rs1: Reg, imm: i32 },
    /// Jump to `rs1 + imm`, link in `rd`.
    Jalr { rd: Reg, rs1: Reg, imm: i32 },
    /// Load the word at `rs1 + imm` into `rd`.
    Lw { rd: Reg, rs1: Reg, imm: i32 },
    /// Store `rs2` at `rs1 + imm`.
    Sw { rs1: Reg, rs2: Reg, imm: i32 },
    /// Branch by `imm` bytes if `rs1 == rs2`.
    Beq { rs1: Reg, rs2: Reg, imm: i32 },
    /// Load an upper immediate into `rd`.
    Lui { rd: Reg, imm: i32 },
    /// Add an upper immediate to the program counter, into `rd`.
    Auipc { rd: Reg, imm: i32 },
    /// Jump by `imm` bytes, link in `rd`.
    Jal { rd: Reg, imm: i32 },
}

impl Instr {
    /// Every register operand names one of the 32 registers.
    pub open spec fn regs_valid(self) -> bool {
        match self {
            Instr::Add { rd, rs1, rs2 } => rd < 32 && rs1 < 32 && rs2 < 32,
            Instr::Sub { rd, rs1, rs2 } => rd < 32 && rs1 < 32 && rs2 < 32,
            Instr::Addi { rd, rs1, imm } => rd < 32 && rs1 < 32,
            Instr::Jalr { rd, rs1, imm } => rd < 32 && rs1 < 32,
            Instr::Lw { rd, rs1, imm } => rd < 32 && rs1 < 32,
            Instr::Sw { rs1, rs2, imm } => rs1 < 32 && rs2 < 32,
            Instr::Beq { rs1, rs2, imm } => rs1 < 32 && rs2 < 32,
            Instr::Lui { rd, imm } => rd < 32,
            Instr::Auipc { rd, imm } => rd < 32,
            Instr::Jal { rd, imm } => rd < 32,
        }
    }

    /// The immediate, where there is one, fits the signed range of its
    /// field; a branch or jump offset is also even.
    pub open spec fn imm_valid(self) -> bool {
        match self {
            Instr::Add { rd, rs1, rs2 } => true,
            Instr::Sub { rd, rs1, rs2 } => true,
            Instr::Addi { rd, rs1, imm } => -2048 <= imm <= 2047,
            Instr::Jalr { rd, rs1, imm } => -2048 <= imm <= 2047,
            Instr::Lw { rd, rs1, imm } => -2048 <= imm <= 2047,
            Instr::Sw { rs1, rs2, imm } => -2048 <= imm <= 2047,
            Instr::Beq { rs1, rs2, imm } => imm as int % 2 == 0 && -4096 <= imm <= 4095,
            Instr::Lui { rd, imm } => -524288 <= imm <= 524287,
            Instr::Auipc { rd, imm } => -524288 <= imm <= 524287,
            Instr::Jal { rd, imm } => imm as int % 2 == 0 && -1048576 <= imm <= 1048575,
        }
    }

    /// The instruction can be encoded.
    pub open spec fn valid(self) -> bool {
        self.regs_valid() && self.imm_valid()
    }

    /// The instruction belongs to the upper-immediate layout.
    pub open spec fn is_upper(self) -> bool {
        self is Lui || self is Auipc
    }

    /// The word that stands for the instruction: its operands in the
    /// layout of its family, under its opcode and function bits.
    pub open spec fn word(self) -> u32 {
        match self {
            Instr::Add { rd, rs1, rs2 } => spec_pack_r(rd, rs1, rs2, F3_ADD_SUB, F7_ADD, OP_OP),
            Instr::Sub { rd, rs1, rs2 } => spec_pack_r(rd, rs1, rs2, F3_ADD_SUB, F7_SUB, OP_OP),
            Instr::Addi { rd, rs1, imm } => spec_pack_i(rd, rs1, imm, F3_ADDI, OP_OP_IMM),
            Instr::Jalr { rd, rs1, imm } => spec_pack_i(rd, rs1, imm, F3_JALR, OP_JALR),
            Instr::Lw { rd, rs1, imm } => spec_pack_i(rd, rs1, imm, F3_LW, OP_LOAD),
            Instr::Sw { rs1, rs2, imm } => spec_pack_s(rs1, rs2, imm, F3_SW, OP_STORE),
            Instr::Beq { rs1, rs2, imm } => spec_pack_b(rs1, rs2, imm, F3_BEQ, OP_BRANCH),
            Instr::Lui { rd, imm } => spec_pack_u(rd, imm, OP_LUI),
            Instr::Auipc { rd, imm } => spec_pack_u(rd, imm, OP_AUIPC),
            Instr::Jal { rd, imm } => spec_pack_j(rd, imm, OP_JAL),
        }
    }
}

/// What encoding `instr` gives: registers are checked first, then the
/// immediate, and only a valid instruction yields its word.
pub open spec fn spec_encode(instr: Instr) -> Result<u32, IsaError> {
    if !instr.regs_valid() {
        Err(IsaError::BadReg)
    } else if !instr.imm_valid() {
        Err(IsaError::ImmOutOfRange)
    } else {
        Ok(instr.word())
    }
}

} // verus!
