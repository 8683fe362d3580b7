//! One encoder for each instruction.
//!
//! Each checks its operands, registers before the immediate, and on
//! success hands them to the packer of its layout.

use vstd::prelude::*;
use vstd::arithmetic::power2::lemma2_to64;
use crate::error::IsaError;
use crate::fields::Reg;
use crate::imm::{check_imm_range, check_reg};
use crate::instr::{
    spec_encode, Instr, F3_ADDI, F3_ADD_SUB, F3_BEQ, F3_JALR, F3_LW, F3_SW, F7_ADD, F7_SUB,
    OP_AUIPC, OP_BRANCH, OP_JAL, OP_JALR, OP_LOAD, OP_LUI, OP_OP, OP_OP_IMM, OP_STORE,
};
use crate::pack::{pack_b, pack_i, pack_j, pack_r, pack_s, pack_u};

verus! {

/// Encodes `add rd, rs1, rs2`.
pub fn encode_add(rd: Reg, rs1: Reg, rs2: Reg) -> (res: Result<u32, IsaError>)
    ensures
        res == spec_encode(Instr::Add { rd, rs1, rs2 }),
{
    check_reg(rd)?;
    check_reg(rs1)?;
    check_reg(rs2)?;
    Ok(pack_r(rd, rs1, rs2, F3_ADD_SUB, F7_ADD, OP_OP))
}

/// Encodes `sub rd, rs1, rs2`.
pub fn encode_sub(rd: Reg, rs1: Reg, rs2: Reg) -> (res: Result<u32, IsaError>)
    ensures
        res == spec_encode(Instr::Sub { rd, rs1, rs2 }),
{
    check_reg(rd)?;
    check_reg(rs1)?;
    check_reg(rs2)?;
    Ok(pack_r(rd, rs1, rs2, F3_ADD_SUB, F7_SUB, OP_OP))
}

/// Encodes `addi rd, rs1, imm`.
pub fn encode_addi(rd: Reg, rs1: Reg, imm: i32) -> (res: Result<u32, IsaError>)
    ensures
        res == spec_encode(Instr::Addi { rd, rs1, imm }),
{
    proof {
        lemma2_to64();
    }
    check_reg(rd)?;
    check_reg(rs1)?;
    check_imm_range(imm, 12)?;
    Ok(pack_i(rd, rs1, imm, F3_ADDI, OP_OP_IMM))
}

/// Encodes `lw rd, imm(rs1)`.
pub fn encode_lw(rd: Reg, rs1: Reg, imm: i32) -> (res: Result<u32, IsaError>)
    ensures
        res == spec_encode(Instr::Lw { rd, rs1, imm }),
{
    proof {
        lemma2_to64();
    }
    check_reg(rd)?;
    check_reg(rs1)?;
    check_imm_range(imm, 12)?;
    Ok(pack_i(rd, rs1, imm, F3_LW, OP_LOAD))
}

/// Encodes `sw rs2, imm(rs1)`.
pub fn encode_sw(rs1: Reg, rs2: Reg, imm: i32) -> (res: Result<u32, IsaError>)
    ensures
        res == spec_encode(Instr::Sw { rs1, rs2, imm }),
{
    proof {
        lemma2_to64();
    }
    check_reg(rs1)?;
    check_reg(rs2)?;
    check_imm_range(imm, 12)?;
    Ok(pack_s(rs1, rs2, imm, F3_SW, OP_STORE))
}

/// Encodes `beq rs1, rs2, imm`, where `imm` is a byte offset from the
/// branch itself.
pub fn encode_beq(rs1: Reg, rs2: Reg, imm: i32) -> (res: Result<u32, IsaError>)
    ensures
        res == spec_encode(Instr::Beq { rs1, rs2, imm }),
{
    proof {
        lemma2_to64();
    }
    check_reg(rs1)?;
    check_reg(rs2)?;
    assert(((imm & 0x1) != 0) == (imm as int % 2 != 0)) by (bit_vector);
    if (imm & 0x1) != 0 {
        return Err(IsaError::ImmOutOfRange);
    }
    check_imm_range(imm, 13)?;
    Ok(pack_b(rs1, rs2, imm, F3_BEQ, OP_BRANCH))
}

/// Encodes `jal rd, imm`, where `imm` is a byte offset from the jump
/// itself.
pub fn encode_jal(rd: Reg, imm: i32) -> (res: Result<u32, IsaError>)
    ensures
        res == spec_encode(Instr::Jal { rd, imm }),
{
    proof {
        lemma2_to64();
    }
    check_reg(rd)?;
    assert(((imm & 0x1) != 0) == (imm as int % 2 != 0)) by (bit_vector);
    if (imm & 0x1) != 0 {
        return Err(IsaError::ImmOutOfRange);
    }
    check_imm_range(imm, 21)?;
    Ok(pack_j(rd, imm, OP_JAL))
}

/// Encodes `jalr rd, imm(rs1)`.
pub fn encode_jalr(rd: Reg, rs1: Reg, imm: i32) -> (res: Result<u32, IsaError>)
    ensures
        res == spec_encode(Instr::Jalr { rd, rs1, imm }),
{
    proof {
        lemma2_to64();
    }
    check_reg(rd)?;
    check_reg(rs1)?;
    check_imm_range(imm, 12)?;
    Ok(pack_i(rd, rs1, imm, F3_JALR, OP_JALR))
}

/// Encodes `lui rd, imm`.
pub fn encode_lui(rd: Reg, imm: i32) -> (res: Result<u32, IsaError>)
    ensures
        res == spec_encode(Instr::Lui { rd, imm }),
{
    proof {
        lemma2_to64();
    }
    check_reg(rd)?;
    check_imm_range(imm, 20)?;
    Ok(pack_u(rd, imm, OP_LUI))
}

/// Encodes `auipc rd, imm`.
pub fn encode_auipc(rd: Reg, imm: i32) -> (res: Result<u32, IsaError>)
    ensures
        res == spec_encode(Instr::Auipc { rd, imm }),
{
    proof {
        lemma2_to64();
    }
    check_reg(rd)?;
    check_imm_range(imm, 20)?;
    Ok(pack_u(rd, imm, OP_AUIPC))
}

} // verus!
