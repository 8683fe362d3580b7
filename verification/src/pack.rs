//! The six layouts: placing opcode, function bits, registers and immediate
//! into a word.
//!
//! Every packer reduces each argument to the width of its field, so the
//! fields of the result never overlap. The specifications give the word as
//! a sum of fields times powers of two.

use vstd::prelude::*;
use vstd::arithmetic::power2::lemma2_to64;
use crate::fields::Reg;
use crate::imm::mask;

verus! {

/// The low `2^k`-residue of a signed immediate: its two's complement bits
/// below bit `k`, as a number. `modulus` is `2^k`.
pub open spec fn low_bits(imm: i32, modulus: int) -> int {
    (imm as int) % modulus
}

/// Register-register layout: `funct7` in bits 31..=25, `rs2` in 24..=20,
/// `rs1` in 19..=15, `funct3` in 14..=12, `rd` in 11..=7, `opcode` in 6..=0.
pub open spec fn spec_pack_r(
    rd: Reg,
    rs1: Reg,
    rs2: Reg,
    funct3: u32,
    funct7: u32,
    opcode: u32,
) -> u32 {
    ((funct7 % 0x80) * 0x200_0000 + (rs2 % 0x20) * 0x10_0000 + (rs1 % 0x20) * 0x8000 + (funct3
        % 0x8) * 0x1000 + (rd % 0x20) * 0x80 + opcode % 0x80) as u32
}

/// Register-immediate layout: the low twelve bits of the immediate in bits
/// 31..=20, the other fields as in the register-register layout.
pub open spec fn spec_pack_i(rd: Reg, rs1: Reg, imm12: i32, funct3: u32, opcode: u32) -> u32 {
    (low_bits(imm12, 0x1000) * 0x10_0000 + (rs1 % 0x20) * 0x8000 + (funct3 % 0x8) * 0x1000 + (rd
        % 0x20) * 0x80 + opcode % 0x80) as u32
}

/// Store layout: immediate bits 11..=5 in bits 31..=25, immediate bits
/// 4..=0 in bits 11..=7.
pub open spec fn spec_pack_s(rs1: Reg, rs2: Reg, imm12: i32, funct3: u32, opcode: u32) -> u32 {
    let imm = low_bits(imm12, 0x1000);
    ((imm / 0x20) * 0x200_0000 + (rs2 % 0x20) * 0x10_0000 + (rs1 % 0x20) * 0x8000 + (funct3
        % 0x8) * 0x1000 + (imm % 0x20) * 0x80 + opcode % 0x80) as u32
}

/// Branch layout: immediate bit 12 in bit 31, bits 10..=5 in 30..=25, bits
/// 4..=1 in 11..=8, bit 11 in bit 7. Immediate bit 0 is not stored.
pub open spec fn spec_pack_b(rs1: Reg, rs2: Reg, imm13: i32, funct3: u32, opcode: u32) -> u32 {
    let imm = low_bits(imm13, 0x2000);
    ((imm / 0x1000) * 0x8000_0000 + ((imm / 0x20) % 0x40) * 0x200_0000 + (rs2 % 0x20)
        * 0x10_0000 + (rs1 % 0x20) * 0x8000 + (funct3 % 0x8) * 0x1000 + ((imm / 2) % 0x10) * 0x100
        + ((imm / 0x800) % 2) * 0x80 + opcode % 0x80) as u32
}

/// Upper-immediate layout: the low twenty bits of the immediate in bits
/// 31..=12.
pub open spec fn spec_pack_u(rd: Reg, imm20: i32, opcode: u32) -> u32 {
    (low_bits(imm20, 0x10_0000) * 0x1000 + (rd % 0x20) * 0x80 + opcode % 0x80) as u32
}

/// Jump layout: immediate bit 20 in bit 31, bits 10..=1 in 30..=21, bit 11
/// in bit 20, bits 19..=12 in 19..=12. Immediate bit 0 is not stored.
pub open spec fn spec_pack_j(rd: Reg, imm21: i32, opcode: u32) -> u32 {
    let imm = low_bits(imm21, 0x20_0000);
    ((imm / 0x10_0000) * 0x8000_0000 + ((imm / 2) % 0x400) * 0x20_0000 + ((imm / 0x800) % 2)
        * 0x10_0000 + ((imm / 0x1000) % 0x100) * 0x1000 + (rd % 0x20) * 0x80 + opcode % 0x80) as u32
}

/// Assembles a register-register word.
pub fn pack_r(rd: Reg, rs1: Reg, rs2: Reg, funct3: u32, funct7: u32, opcode: u32) -> (word: u32)
    ensures
        word == spec_pack_r(rd, rs1, rs2, funct3, funct7, opcode),
{
    let word: u32 = ((funct7 & 0x7f) << 25) | (((rs2 as u32) & 0x1f) << 20) | (((rs1 as u32)
        & 0x1f) << 15) | ((funct3 & 0x7) << 12) | (((rd as u32) & 0x1f) << 7) | (opcode & 0x7f);
    assert(word == (funct7 % 0x80) * 0x200_0000 + (rs2 % 0x20) * 0x10_0000 + (rs1 % 0x20) * 0x8000
        + (funct3 % 0x8) * 0x1000 + (rd % 0x20) * 0x80 + opcode % 0x80) by (bit_vector)
        requires
            word == ((funct7 & 0x7f) << 25) | (((rs2 as u32) & 0x1f) << 20) | (((rs1 as u32)
                & 0x1f) << 15) | ((funct3 & 0x7) << 12) | (((rd as u32) & 0x1f) << 7) | (opcode
                & 0x7f),
    ;
    word
}

/// Assembles a register-immediate word.
pub fn pack_i(rd: Reg, rs1: Reg, imm12: i32, funct3: u32, opcode: u32) -> (word: u32)
    ensures
        word == spec_pack_i(rd, rs1, imm12, funct3, opcode),
{
    proof {
        lemma2_to64();
    }
    let imm: u32 = (#[verifier::truncate] (imm12 as u32)) & mask(12);
    let word: u32 = (imm << 20) | (((rs1 as u32) & 0x1f) << 15) | ((funct3 & 0x7) << 12) | (((
        rd as u32) & 0x1f) << 7) | (opcode & 0x7f);
    assert(word == (imm12 as int % 0x1000) * 0x10_0000 + (rs1 % 0x20) * 0x8000 + (funct3 % 0x8)
        * 0x1000 + (rd % 0x20) * 0x80 + opcode % 0x80) by (bit_vector)
        requires
            imm == (imm12 as u32) & 0xfff,
            word == (imm << 20) | (((rs1 as u32) & 0x1f) << 15) | ((funct3 & 0x7) << 12) | (((
                rd as u32) & 0x1f) << 7) | (opcode & 0x7f),
    ;
    word
}

/// Assembles a store word.
pub fn pack_s(rs1: Reg, rs2: Reg, imm12: i32, funct3: u32, opcode: u32) -> (word: u32)
    ensures
        word == spec_pack_s(rs1, rs2, imm12, funct3, opcode),
{
    proof {
        lemma2_to64();
    }
    let imm: u32 = (#[verifier::truncate] (imm12 as u32)) & mask(12);
    let imm_11_5: u32 = (imm >> 5) & 0x7f;
    let imm_4_0: u32 = imm & 0x1f;
    let word: u32 = (imm_11_5 << 25) | (((rs2 as u32) & 0x1f) << 20) | (((rs1 as u32) & 0x1f)
        << 15) | ((funct3 & 0x7) << 12) | (imm_4_0 << 7) | (opcode & 0x7f);
    assert(word == ((imm12 as int % 0x1000) / 0x20) * 0x200_0000 + (rs2 % 0x20) * 0x10_0000 + (rs1
        % 0x20) * 0x8000 + (funct3 % 0x8) * 0x1000 + ((imm12 as int % 0x1000) % 0x20) * 0x80
        + opcode % 0x80) by (bit_vector)
        requires
            imm == (imm12 as u32) & 0xfff,
            imm_11_5 == (imm >> 5) & 0x7f,
            imm_4_0 == imm & 0x1f,
            word == (imm_11_5 << 25) | (((rs2 as u32) & 0x1f) << 20) | (((rs1 as u32) & 0x1f)
                << 15) | ((funct3 & 0x7) << 12) | (imm_4_0 << 7) | (opcode & 0x7f),
    ;
    word
}

/// Assembles a branch word.
pub fn pack_b(rs1: Reg, rs2: Reg, imm13: i32, funct3: u32, opcode: u32) -> (word: u32)
    ensures
        word == spec_pack_b(rs1, rs2, imm13, funct3, opcode),
{
    proof {
        lemma2_to64();
    }
    let imm: u32 = (#[verifier::truncate] (imm13 as u32)) & mask(13);
    let b12: u32 = (imm >> 12) & 0x1;
    let b10_5: u32 = (imm >> 5) & 0x3f;
    let b4_1: u32 = (imm >> 1) & 0x0f;
    let b11: u32 = (imm >> 11) & 0x1;
    let word: u32 = (b12 << 31) | (b10_5 << 25) | (((rs2 as u32) & 0x1f) << 20) | (((rs1 as u32)
        & 0x1f) << 15) | ((funct3 & 0x7) << 12) | (b4_1 << 8) | (b11 << 7) | (opcode & 0x7f);
    assert(word == ((imm13 as int % 0x2000) / 0x1000) * 0x8000_0000 + (((imm13 as int % 0x2000)
        / 0x20) % 0x40) * 0x200_0000 + (rs2 % 0x20) * 0x10_0000 + (rs1 % 0x20) * 0x8000 + (funct3
        % 0x8) * 0x1000 + (((imm13 as int % 0x2000) / 2) % 0x10) * 0x100 + (((imm13 as int
        % 0x2000) / 0x800) % 2) * 0x80 + opcode % 0x80) by (bit_vector)
        requires
            imm == (imm13 as u32) & 0x1fff,
            b12 == (imm >> 12) & 0x1,
            b10_5 == (imm >> 5) & 0x3f,
            b4_1 == (imm >> 1) & 0x0f,
            b11 == (imm >> 11) & 0x1,
            word == (b12 << 31) | (b10_5 << 25) | (((rs2 as u32) & 0x1f) << 20) | (((rs1 as u32)
                & 0x1f) << 15) | ((funct3 & 0x7) << 12) | (b4_1 << 8) | (b11 << 7) | (opcode
                & 0x7f),
    ;
    word
}

/// Assembles an upper-immediate word.
pub fn pack_u(rd: Reg, imm20: i32, opcode: u32) -> (word: u32)
    ensures
        word == spec_pack_u(rd, imm20, opcode),
{
    proof {
        lemma2_to64();
    }
    let imm: u32 = ((#[verifier::truncate] (imm20 as u32)) & mask(20)) << 12;
    let word: u32 = imm | (((rd as u32) & 0x1f) << 7) | (opcode & 0x7f);
    assert(word == (imm20 as int % 0x10_0000) * 0x1000 + (rd % 0x20) * 0x80 + opcode % 0x80)
        by (bit_vector)
        requires
            imm == ((imm20 as u32) & 0xfffff) << 12,
            word == imm | (((rd as u32) & 0x1f) << 7) | (opcode & 0x7f),
    ;
    word
}

/// Assembles a jump word.
pub fn pack_j(rd: Reg, imm21: i32, opcode: u32) -> (word: u32)
    ensures
        word == spec_pack_j(rd, imm21, opcode),
{
    proof {
        lemma2_to64();
    }
    let imm: u32 = (#[verifier::truncate] (imm21 as u32)) & mask(21);
    let b20: u32 = (imm >> 20) & 0x1;
    let b10_1: u32 = (imm >> 1) & 0x3ff;
    let b11: u32 = (imm >> 11) & 0x1;
    let b19_12: u32 = (imm >> 12) & 0xff;
    let word: u32 = (b20 << 31) | (b19_12 << 12) | (b11 << 20) | (b10_1 << 21) | (((rd as u32)
        & 0x1f) << 7) | (opcode & 0x7f);
    assert(word == ((imm21 as int % 0x20_0000) / 0x10_0000) * 0x8000_0000 + (((imm21 as int
        % 0x20_0000) / 2) % 0x400) * 0x20_0000 + (((imm21 as int % 0x20_0000) / 0x800) % 2)
        * 0x10_0000 + (((imm21 as int % 0x20_0000) / 0x1000) % 0x100) * 0x1000 + (rd % 0x20) * 0x80
        + opcode % 0x80) by (bit_vector)
        requires
            imm == (imm21 as u32) & 0x1f_ffff,
            b20 == (imm >> 20) & 0x1,
            b10_1 == (imm >> 1) & 0x3ff,
            b11 == (imm >> 11) & 0x1,
            b19_12 == (imm >> 12) & 0xff,
            word == (b20 << 31) | (b19_12 << 12) | (b11 << 20) | (b10_1 << 21) | (((rd as u32)
                & 0x1f) << 7) | (opcode & 0x7f),
    ;
    word
}

} // verus!
