//! Operand checks and sign extension, shared by every layout.

use vstd::prelude::*;
use vstd::arithmetic::power2::{pow2, lemma2_to64, lemma_pow2_pos, lemma_pow2_unfold};
use vstd::bits::{lemma_u32_shl_is_mul, lemma_u32_low_bits_mask_is_mod, low_bits_mask};
use crate::error::IsaError;
use crate::fields::{Reg, spec_funct7, spec_rd};

verus! {

/// The low `bits` binary digits of `value`, read as a two's complement
/// number of that width.
pub open spec fn sign_extend(value: u32, bits: nat) -> int
    recommends
        1 <= bits <= 32,
{
    let low = value as int % pow2(bits) as int;
    if low >= pow2((bits - 1) as nat) {
        low - pow2(bits)
    } else {
        low
    }
}

/// Whether `v` can be written as a two's complement number of `bits` digits.
pub open spec fn fits_signed(v: int, bits: nat) -> bool
    recommends
        1 <= bits,
{
    -(pow2((bits - 1) as nat) as int) <= v < pow2((bits - 1) as nat)
}

/// `1 << k` is the `k`-th power of two, for every shift a `u32` allows.
pub proof fn lemma_one_shl(k: u32)
    requires
        k < 32,
    ensures
        (1u32 << k) == pow2(k as nat),
        pow2(k as nat) <= 0x8000_0000,
{
    lemma2_to64();
    assert(pow2(k as nat) <= 0x8000_0000) by {
        lemma_pow2_bounded(k as nat);
    }
    lemma_u32_shl_is_mul(1u32, k);
}

/// Powers of two up to the 31st stay within `u32`.
proof fn lemma_pow2_bounded(k: nat)
    requires
        k < 32,
    ensures
        pow2(k) <= 0x8000_0000,
    decreases 31 - k,
{
    lemma2_to64();
    if k < 31 {
        lemma_pow2_bounded(k + 1);
        lemma_pow2_unfold(k + 1);
    }
}

/// Accepts exactly the register indices 0..=31.
pub fn check_reg(r: Reg) -> (res: Result<(), IsaError>)
    ensures
        res == (if r < 32 { Ok::<(), IsaError>(()) } else { Err(IsaError::BadReg) }),
{
    if r < 32 {
        Ok(())
    } else {
        Err(IsaError::BadReg)
    }
}

/// Accepts exactly the values of the signed range of `bits` binary digits.
pub fn check_imm_range(v: i32, bits: u8) -> (res: Result<(), IsaError>)
    requires
        1 <= bits <= 31,
    ensures
        res == (if fits_signed(v as int, bits as nat) {
            Ok::<(), IsaError>(())
        } else {
            Err(IsaError::ImmOutOfRange)
        }),
{
    let k: u32 = (bits - 1) as u32;
    let half: i32 = 1i32 << k;
    proof {
        assert(0 <= (1i32 << k) && (1i32 << k) as u32 == (1u32 << k)) by (bit_vector)
            requires
                k < 31,
        ;
        lemma_one_shl(k);
    }
    let min: i32 = -half;
    let max: i32 = half - 1;
    if v >= min && v <= max {
        Ok(())
    } else {
        Err(IsaError::ImmOutOfRange)
    }
}

/// A word whose low `width` bits are set and no others.
pub fn mask(width: u32) -> (m: u32)
    requires
        width < 32,
    ensures
        m == pow2(width as nat) - 1,
{
    proof {
        lemma_one_shl(width);
        lemma_pow2_pos(width as nat);
    }
    (1u32 << width) - 1
}

/// Sign extension by shifting the field's top bit into bit 31 and back
/// down with an arithmetic shift.
pub fn sign_extend_u32(v: u32, bits: u8) -> (r: i32)
    requires
        1 <= bits <= 32,
    ensures
        r == sign_extend(v, bits as nat),
{
    let shift: u32 = 32 - bits as u32;
    let r: i32 = (#[verifier::truncate] ((v << shift) as i32)) >> shift;
    proof {
        let k: u32 = (bits - 1) as u32;
        let half: u32 = 1u32 << k;
        lemma_one_shl(k);
        lemma_pow2_unfold(bits as nat);
        if bits == 32 {
            lemma2_to64();
            assert(v as int % 0x1_0000_0000 == v);
            assert(r == (if v >= 0x8000_0000u32 { v - 0x1_0000_0000 } else { v as int }))
                by (bit_vector)
                requires
                    shift == 0,
                    r == ((v << shift) as i32) >> shift,
            ;
        } else {
            lemma_one_shl(bits as u32);
            assert(k as nat == (bits as nat - 1) as nat);
            assert(pow2(bits as nat) == 2 * pow2(k as nat));
            assert(pow2(bits as nat) == 2 * half);
            lemma_pow2_pos(k as nat);
            let m: u32 = (2 * half - 1) as u32;
            assert(m == low_bits_mask(bits as nat) as u32);
            assert(m == (half - 1 + half) as u32);
            let low: u32 = v & m;
            lemma_u32_low_bits_mask_is_mod(v, bits as nat);
            assert(low == v as int % pow2(bits as nat) as int);
            assert(r == (if low >= half { low - 2 * half } else { low as int })) by (bit_vector)
                requires
                    0 < shift < 32,
                    k == 31 - shift,
                    half == 1u32 << k,
                    low == v & ((half - 1 + half) as u32),
                    r == ((v << shift) as i32) >> shift,
            ;
        }
    }
    r
}

/// The immediate of the register-immediate layout: bits 31..=20, signed.
pub open spec fn spec_imm_i(word: u32) -> int {
    sign_extend(word / 0x10_0000, 12)
}

/// The immediate of the store layout: bits 31..=25 above bits 11..=7,
/// signed.
pub open spec fn spec_imm_s(word: u32) -> int {
    sign_extend((spec_funct7(word) * 0x20 + spec_rd(word)) as u32, 12)
}

/// The immediate of the branch layout. Word bit 31 is its bit 12, word
/// bit 7 its bit 11, word bits 30..=25 its bits 10..=5, word bits 11..=8
/// its bits 4..=1; its bit 0 is zero.
pub open spec fn spec_imm_b(word: u32) -> int {
    sign_extend(
        ((word / 0x8000_0000) * 0x1000 + ((word / 0x80) % 2) * 0x800 + ((word / 0x200_0000)
            % 0x40) * 0x20 + ((word / 0x100) % 0x10) * 2) as u32,
        13,
    )
}

/// The immediate of the upper-immediate layout: the word with its low
/// twelve bits cleared, which is 4096 times the signed number in bits
/// 31..=12.
pub open spec fn spec_imm_u(word: u32) -> int {
    sign_extend(word / 0x1000, 20) * 0x1000
}

/// The immediate of the jump layout. Word bit 31 is its bit 20, word
/// bits 19..=12 its bits 19..=12, word bit 20 its bit 11, word bits
/// 30..=21 its bits 10..=1; its bit 0 is zero.
pub open spec fn spec_imm_j(word: u32) -> int {
    sign_extend(
        ((word / 0x8000_0000) * 0x10_0000 + ((word / 0x1000) % 0x100) * 0x1000 + ((word
            / 0x10_0000) % 2) * 0x800 + ((word / 0x20_0000) % 0x400) * 2) as u32,
        21,
    )
}

/// The residue of `v` modulo `2 * half`, read as a signed number: the
/// upper half of the residues stands for the negative numbers. With
/// `half` the `(k-1)`-th power of two this is sign extension at width `k`.
pub open spec fn signed_residue(v: u32, half: u32) -> int {
    let low = v as int % (2 * half);
    if low >= half {
        low - 2 * half
    } else {
        low
    }
}

/// Sign extension at the four widths that the layouts use, without
/// powers.
pub proof fn lemma_sign_extend_widths(v: u32)
    ensures
        sign_extend(v, 12) == signed_residue(v, 0x800),
        sign_extend(v, 13) == signed_residue(v, 0x1000),
        sign_extend(v, 20) == signed_residue(v, 0x8_0000),
        sign_extend(v, 21) == signed_residue(v, 0x10_0000),
{
    lemma2_to64();
}

/// Reads the immediate of a register-immediate word.
pub fn imm_i(word: u32) -> (imm: i32)
    ensures
        imm == spec_imm_i(word),
{
    assert(word >> 20 == word / 0x10_0000) by (bit_vector);
    sign_extend_u32(word >> 20, 12)
}

/// Reads the immediate of a store word.
pub fn imm_s(word: u32) -> (imm: i32)
    ensures
        imm == spec_imm_s(word),
{
    let hi: u32 = (word >> 25) & 0x7f;
    let lo: u32 = (word >> 7) & 0x1f;
    let imm: u32 = (hi << 5) | lo;
    assert(imm == (word / 0x200_0000) * 0x20 + (word / 0x80) % 0x20) by (bit_vector)
        requires
            imm == (((word >> 25) & 0x7f) << 5) | ((word >> 7) & 0x1f),
    ;
    sign_extend_u32(imm, 12)
}

/// Reads the immediate of a branch word.
pub fn imm_b(word: u32) -> (imm: i32)
    ensures
        imm == spec_imm_b(word),
{
    let b12: u32 = ((word >> 31) & 0x1) << 12;
    let b10_5: u32 = ((word >> 25) & 0x3f) << 5;
    let b4_1: u32 = ((word >> 8) & 0x0f) << 1;
    let b11: u32 = ((word >> 7) & 0x1) << 11;
    let imm: u32 = b12 | b11 | b10_5 | b4_1;
    assert(imm == (word / 0x8000_0000) * 0x1000 + ((word / 0x80) % 2) * 0x800 + ((word
        / 0x200_0000) % 0x40) * 0x20 + ((word / 0x100) % 0x10) * 2) by (bit_vector)
        requires
            imm == (((word >> 31) & 0x1) << 12) | (((word >> 7) & 0x1) << 11) | (((word >> 25)
                & 0x3f) << 5) | (((word >> 8) & 0x0f) << 1),
    ;
    sign_extend_u32(imm, 13)
}

/// Reads the immediate of an upper-immediate word.
pub fn imm_u(word: u32) -> (imm: i32)
    ensures
        imm == spec_imm_u(word),
{
    let imm: i32 = #[verifier::truncate] ((word & 0xfffff000) as i32);
    proof {
        lemma_sign_extend_widths((word / 0x1000) as u32);
        let hi: u32 = word / 0x1000;
        assert(imm == signed_residue(hi, 0x8_0000) * 0x1000) by (bit_vector)
            requires
                hi == word / 0x1000,
                imm == (word & 0xfffff000) as i32,
        ;
    }
    imm
}

/// Reads the immediate of a jump word.
pub fn imm_j(word: u32) -> (imm: i32)
    ensures
        imm == spec_imm_j(word),
{
    let b20: u32 = ((word >> 31) & 0x1) << 20;
    let b10_1: u32 = ((word >> 21) & 0x3ff) << 1;
    let b11: u32 = ((word >> 20) & 0x1) << 11;
    let b19_12: u32 = ((word >> 12) & 0xff) << 12;
    let imm: u32 = b20 | b19_12 | b11 | b10_1;
    assert(imm == (word / 0x8000_0000) * 0x10_0000 + ((word / 0x1000) % 0x100) * 0x1000 + ((
        word / 0x10_0000) % 2) * 0x800 + ((word / 0x20_0000) % 0x400) * 2) by (bit_vector)
        requires
            imm == (((word >> 31) & 0x1) << 20) | (((word >> 12) & 0xff) << 12) | (((word >> 20)
                & 0x1) << 11) | (((word >> 21) & 0x3ff) << 1),
    ;
    sign_extend_u32(imm, 21)
}

} // verus!
