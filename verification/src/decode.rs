//! The decoder: from any word to the instruction it stands for, or to the
//! reason why it stands for none.

use vstd::prelude::*;
use crate::error::IsaError;
use crate::fields::{
    funct3, funct7, opcode, rd, rs1, rs2, spec_funct3, spec_funct7, spec_opcode, spec_rd,
    spec_rs1, spec_rs2,
};
use crate::imm::{
    imm_b, imm_i, imm_j, imm_s, imm_u, spec_imm_b, spec_imm_i, spec_imm_j, spec_imm_s,
    spec_imm_u,
};
use crate::instr::{
    Instr, F3_ADDI, F3_ADD_SUB, F3_BEQ, F3_JALR, F3_LW, F3_SW, F7_ADD, F7_SUB, OP_AUIPC,
    OP_BRANCH, OP_JAL, OP_JALR, OP_LOAD, OP_LUI, OP_OP, OP_OP_IMM, OP_STORE,
};

verus! {

/// Whether `op` is one of the nine opcodes that the decoder knows.
pub open spec fn known_opcode(op: u32) -> bool {
    op == OP_OP || op == OP_OP_IMM || op == OP_LOAD || op == OP_STORE || op == OP_BRANCH || op
        == OP_JAL || op == OP_JALR || op == OP_LUI || op == OP_AUIPC
}

/// Whether the function bits of `word` select an instruction under its
/// opcode. The two upper-immediate opcodes and the direct jump have no
/// function bits: under them every word is an instruction.
pub open spec fn known_funct(word: u32) -> bool {
    let op = spec_opcode(word);
    let f3 = spec_funct3(word);
    let f7 = spec_funct7(word);
    if op == OP_OP {
        f3 == F3_ADD_SUB && (f7 == F7_ADD || f7 == F7_SUB)
    } else if op == OP_OP_IMM {
        f3 == F3_ADDI
    } else if op == OP_LOAD {
        f3 == F3_LW
    } else if op == OP_STORE {
        f3 == F3_SW
    } else if op == OP_BRANCH {
        f3 == F3_BEQ
    } else if op == OP_JALR {
        f3 == F3_JALR
    } else {
        op == OP_JAL || op == OP_LUI || op == OP_AUIPC
    }
}

/// The instruction that a word with known opcode and function bits stands
/// for: the variant that they select, with each operand read from its
/// field.
pub open spec fn spec_instr_of(word: u32) -> Instr
    recommends
        known_opcode(spec_opcode(word)),
        known_funct(word),
{
    let op = spec_opcode(word);
    if op == OP_OP {
        if spec_funct7(word) == F7_ADD {
            Instr::Add { rd: spec_rd(word), rs1: spec_rs1(word), rs2: spec_rs2(word) }
        } else {
            Instr::Sub { rd: spec_rd(word), rs1: spec_rs1(word), rs2: spec_rs2(word) }
        }
    } else if op == OP_OP_IMM {
        Instr::Addi { rd: spec_rd(word), rs1: spec_rs1(word), imm: spec_imm_i(word) as i32 }
    } else if op == OP_LOAD {
        Instr::Lw { rd: spec_rd(word), rs1: spec_rs1(word), imm: spec_imm_i(word) as i32 }
    } else if op == OP_STORE {
        Instr::Sw { rs1: spec_rs1(word), rs2: spec_rs2(word), imm: spec_imm_s(word) as i32 }
    } else if op == OP_BRANCH {
        Instr::Beq { rs1: spec_rs1(word), rs2: spec_rs2(word), imm: spec_imm_b(word) as i32 }
    } else if op == OP_JAL {
        Instr::Jal { rd: spec_rd(word), imm: spec_imm_j(word) as i32 }
    } else if op == OP_JALR {
        Instr::Jalr { rd: spec_rd(word), rs1: spec_rs1(word), imm: spec_imm_i(word) as i32 }
    } else if op == OP_LUI {
        Instr::Lui { rd: spec_rd(word), imm: spec_imm_u(word) as i32 }
    } else {
        Instr::Auipc { rd: spec_rd(word), imm: spec_imm_u(word) as i32 }
    }
}

/// What decoding `word` gives.
pub open spec fn spec_decode(word: u32) -> Result<Instr, IsaError> {
    if !known_opcode(spec_opcode(word)) {
        Err(IsaError::BadOpcode)
    } else if !known_funct(word) {
        Err(IsaError::BadFunct)
    } else {
        Ok(spec_instr_of(word))
    }
}

/// Decodes any word. An unknown opcode is reported before unknown
/// function bits; a word is never read as an instruction that its opcode
/// and function bits do not select.
pub fn decode(word: u32) -> (res: Result<Instr, IsaError>)
    ensures
        res == spec_decode(word),
{
    match opcode(word) {
        OP_OP => {
            match (funct3(word), funct7(word)) {
                (F3_ADD_SUB, F7_ADD) => Ok(
                    Instr::Add { rd: rd(word), rs1: rs1(word), rs2: rs2(word) },
                ),
                (F3_ADD_SUB, F7_SUB) => Ok(
                    Instr::Sub { rd: rd(word), rs1: rs1(word), rs2: rs2(word) },
                ),
                _ => Err(IsaError::BadFunct),
            }
        },
        OP_OP_IMM => {
            match funct3(word) {
                F3_ADDI => Ok(Instr::Addi { rd: rd(word), rs1: rs1(word), imm: imm_i(word) }),
                _ => Err(IsaError::BadFunct),
            }
        },
        OP_LOAD => {
            match funct3(word) {
                F3_LW => Ok(Instr::Lw { rd: rd(word), rs1: rs1(word), imm: imm_i(word) }),
                _ => Err(IsaError::BadFunct),
            }
        },
        OP_STORE => {
            match funct3(word) {
                F3_SW => Ok(Instr::Sw { rs1: rs1(word), rs2: rs2(word), imm: imm_s(word) }),
                _ => Err(IsaError::BadFunct),
            }
        },
        OP_BRANCH => {
            match funct3(word) {
                F3_BEQ => Ok(Instr::Beq { rs1: rs1(word), rs2: rs2(word), imm: imm_b(word) }),
                _ => Err(IsaError::BadFunct),
            }
        },
        OP_JAL => Ok(Instr::Jal { rd: rd(word), imm: imm_j(word) }),
        OP_JALR => {
            if funct3(word) == F3_JALR {
                Ok(Instr::Jalr { rd: rd(word), rs1: rs1(word), imm: imm_i(word) })
            } else {
                Err(IsaError::BadFunct)
            }
        },
        OP_LUI => Ok(Instr::Lui { rd: rd(word), imm: imm_u(word) }),
        OP_AUIPC => Ok(Instr::Auipc { rd: rd(word), imm: imm_u(word) }),
        _ => Err(IsaError::BadOpcode),
    }
}

} // verus!
