//! Reading the fixed fields of an instruction word.
//!
//! A word is a number below 2^32; a field is a run of its binary digits.
//! The specifications give each field by division and remainder, the
//! executable functions compute it by shifting and masking.

use vstd::prelude::*;

verus! {

/// Index of a register. Only 0..=31 name a register.
pub type Reg = u8;

/// Bits 6..=0 of `word`.
pub open spec fn spec_opcode(word: u32) -> u32 {
    word % 0x80
}

/// Bits 11..=7 of `word`.
pub open spec fn spec_rd(word: u32) -> Reg {
    ((word / 0x80) % 0x20) as Reg
}

/// Bits 14..=12 of `word`.
pub open spec fn spec_funct3(word: u32) -> u32 {
    (word / 0x1000) % 0x8
}

/// Bits 19..=15 of `word`.
pub open spec fn spec_rs1(word: u32) -> Reg {
    ((word / 0x8000) % 0x20) as Reg
}

/// Bits 24..=20 of `word`.
pub open spec fn spec_rs2(word: u32) -> Reg {
    ((word / 0x10_0000) % 0x20) as Reg
}

/// Bits 31..=25 of `word`.
pub open spec fn spec_funct7(word: u32) -> u32 {
    word / 0x200_0000
}

/// The destination register field.
#[verifier::when_used_as_spec(spec_rd)]
pub fn rd(word: u32) -> (r: Reg)
    ensures
        r == spec_rd(word),
        r < 32,
{
    assert((word >> 7) & 0x1f == (word / 0x80) % 0x20) by (bit_vector);
    ((word >> 7) & 0x1f) as Reg
}

/// The three-bit function selector.
#[verifier::when_used_as_spec(spec_funct3)]
pub fn funct3(word: u32) -> (r: u32)
    ensures
        r == spec_funct3(word),
        r < 8,
{
    assert((word >> 12) & 0x7 == (word / 0x1000) % 0x8) by (bit_vector);
    (word >> 12) & 0x7
}

/// The first source register field.
#[verifier::when_used_as_spec(spec_rs1)]
pub fn rs1(word: u32) -> (r: Reg)
    ensures
        r == spec_rs1(word),
        r < 32,
{
    assert((word >> 15) & 0x1f == (word / 0x8000) % 0x20) by (bit_vector);
    ((word >> 15) & 0x1f) as Reg
}

/// The second source register field.
#[verifier::when_used_as_spec(spec_rs2)]
pub fn rs2(word: u32) -> (r: Reg)
    ensures
        r == spec_rs2(word),
        r < 32,
{
    assert((word >> 20) & 0x1f == (word / 0x10_0000) % 0x20) by (bit_vector);
    ((word >> 20) & 0x1f) as Reg
}

/// The seven-bit function selector.
#[verifier::when_used_as_spec(spec_funct7)]
pub fn funct7(word: u32) -> (r: u32)
    ensures
        r == spec_funct7(word),
        r < 128,
{
    assert((word >> 25) & 0x7f == word / 0x200_0000) by (bit_vector);
    (word >> 25) & 0x7f
}

/// The major opcode.
#[verifier::when_used_as_spec(spec_opcode)]
pub fn opcode(word: u32) -> (r: u32)
    ensures
        r == spec_opcode(word),
        r < 128,
{
    assert(word & 0x7f == word % 0x80) by (bit_vector);
    word & 0x7f
}

} // verus!
