//! What holds between the encoders and the decoder.

use vstd::prelude::*;
use crate::decode::{known_funct, known_opcode, spec_decode, spec_instr_of};
use crate::error::IsaError;
use crate::fields::{
    spec_funct3, spec_funct7, spec_opcode, spec_rd, spec_rs1, spec_rs2, Reg,
};
use crate::imm::{lemma_sign_extend_widths, signed_residue};
use crate::instr::{
    spec_encode, Instr, F3_ADDI, F3_ADD_SUB, F3_BEQ, F3_JALR, F3_LW, F3_SW, F7_ADD, F7_SUB,
    OP_AUIPC, OP_BRANCH, OP_JAL, OP_JALR, OP_LOAD, OP_LUI, OP_OP, OP_OP_IMM, OP_STORE,
};
use crate::pack::{spec_pack_b, spec_pack_i, spec_pack_j, spec_pack_r, spec_pack_s, spec_pack_u};

verus! {

/// Every field of a register-register word reads back what was packed
/// into it.
pub proof fn lemma_unpack_r(rd: Reg, rs1: Reg, rs2: Reg, funct3: u32, funct7: u32, opcode: u32)
    by (bit_vector)
    requires
        rd < 32,
        rs1 < 32,
        rs2 < 32,
        funct3 < 8,
        funct7 < 128,
        opcode < 128,
    ensures
        ({
            let w = spec_pack_r(rd, rs1, rs2, funct3, funct7, opcode);
            &&& spec_opcode(w) == opcode
            &&& spec_rd(w) == rd
            &&& spec_funct3(w) == funct3
            &&& spec_rs1(w) == rs1
            &&& spec_rs2(w) == rs2
            &&& spec_funct7(w) == funct7
        }),
{
}

/// Every field of a register-immediate word reads back what was packed
/// into it.
pub proof fn lemma_unpack_i(rd: Reg, rs1: Reg, imm: i32, funct3: u32, opcode: u32)
    by (bit_vector)
    requires
        rd < 32,
        rs1 < 32,
        -2048 <= imm <= 2047,
        funct3 < 8,
        opcode < 128,
    ensures
        ({
            let w = spec_pack_i(rd, rs1, imm, funct3, opcode);
            &&& spec_opcode(w) == opcode
            &&& spec_rd(w) == rd
            &&& spec_funct3(w) == funct3
            &&& spec_rs1(w) == rs1
            &&& signed_residue(w / 0x10_0000, 0x800) == imm
        }),
{
}

/// Every field of a store word reads back what was packed into it.
pub proof fn lemma_unpack_s(rs1: Reg, rs2: Reg, imm: i32, funct3: u32, opcode: u32)
    by (bit_vector)
    requires
        rs1 < 32,
        rs2 < 32,
        -2048 <= imm <= 2047,
        funct3 < 8,
        opcode < 128,
    ensures
        ({
            let w = spec_pack_s(rs1, rs2, imm, funct3, opcode);
            &&& spec_opcode(w) == opcode
            &&& spec_funct3(w) == funct3
            &&& spec_rs1(w) == rs1
            &&& spec_rs2(w) == rs2
            &&& signed_residue((spec_funct7(w) * 0x20 + spec_rd(w)) as u32, 0x800) == imm
        }),
{
}

/// Every field of a branch word reads back what was packed into it.
pub proof fn lemma_unpack_b(rs1: Reg, rs2: Reg, imm: i32, funct3: u32, opcode: u32)
    by (bit_vector)
    requires
        rs1 < 32,
        rs2 < 32,
        -4096 <= imm <= 4095,
        imm as int % 2 == 0,
        funct3 < 8,
        opcode < 128,
    ensures
        ({
            let w = spec_pack_b(rs1, rs2, imm, funct3, opcode);
            &&& spec_opcode(w) == opcode
            &&& spec_funct3(w) == funct3
            &&& spec_rs1(w) == rs1
            &&& spec_rs2(w) == rs2
            &&& signed_residue(
                ((w / 0x8000_0000) * 0x1000 + ((w / 0x80) % 2) * 0x800 + ((w / 0x200_0000) % 0x40)
                    * 0x20 + ((w / 0x100) % 0x10) * 2) as u32,
                0x1000,
            ) == imm
        }),
{
}

/// The fields of an upper-immediate word read back what was packed into
/// it; the immediate reads back 4096 times as large.
pub proof fn lemma_unpack_u(rd: Reg, imm: i32, opcode: u32)
    by (bit_vector)
    requires
        rd < 32,
        -524288 <= imm <= 524287,
        opcode < 128,
    ensures
        ({
            let w = spec_pack_u(rd, imm, opcode);
            &&& spec_opcode(w) == opcode
            &&& spec_rd(w) == rd
            &&& signed_residue(w / 0x1000, 0x8_0000) == imm
        }),
{
}

/// Every field of a jump word reads back what was packed into it.
pub proof fn lemma_unpack_j(rd: Reg, imm: i32, opcode: u32)
    by (bit_vector)
    requires
        rd < 32,
        -1048576 <= imm <= 1048575,
        imm as int % 2 == 0,
        opcode < 128,
    ensures
        ({
            let w = spec_pack_j(rd, imm, opcode);
            &&& spec_opcode(w) == opcode
            &&& spec_rd(w) == rd
            &&& signed_residue(
                ((w / 0x8000_0000) * 0x10_0000 + ((w / 0x1000) % 0x100) * 0x1000 + ((w
                    / 0x10_0000) % 2) * 0x800 + ((w / 0x20_0000) % 0x400) * 2) as u32,
                0x10_0000,
            ) == imm
        }),
{
}

/// Round trip: a valid instruction outside the upper-immediate layout
/// encodes to a word that decodes to the same instruction. Of the
/// upper-immediate layout this holds only for the immediate zero; how its
/// other immediates come back is `lemma_round_trip_upper`.
pub proof fn lemma_round_trip(instr: Instr)
    requires
        instr.valid(),
        instr matches Instr::Lui { rd, imm } ==> imm == 0,
        instr matches Instr::Auipc { rd, imm } ==> imm == 0,
    ensures
        spec_encode(instr) == Ok::<u32, IsaError>(instr.word()),
        spec_decode(instr.word()) == Ok::<Instr, IsaError>(instr),
{
    let w = instr.word();
    match instr {
        Instr::Add { rd, rs1, rs2 } => {
            lemma_unpack_r(rd, rs1, rs2, F3_ADD_SUB, F7_ADD, OP_OP);
        },
        Instr::Sub { rd, rs1, rs2 } => {
            lemma_unpack_r(rd, rs1, rs2, F3_ADD_SUB, F7_SUB, OP_OP);
        },
        Instr::Addi { rd, rs1, imm } => {
            lemma_unpack_i(rd, rs1, imm, F3_ADDI, OP_OP_IMM);
            lemma_sign_extend_widths(w / 0x10_0000);
        },
        Instr::Jalr { rd, rs1, imm } => {
            lemma_unpack_i(rd, rs1, imm, F3_JALR, OP_JALR);
            lemma_sign_extend_widths(w / 0x10_0000);
        },
        Instr::Lw { rd, rs1, imm } => {
            lemma_unpack_i(rd, rs1, imm, F3_LW, OP_LOAD);
            lemma_sign_extend_widths(w / 0x10_0000);
        },
        Instr::Sw { rs1, rs2, imm } => {
            lemma_unpack_s(rs1, rs2, imm, F3_SW, OP_STORE);
            lemma_sign_extend_widths((spec_funct7(w) * 0x20 + spec_rd(w)) as u32);
        },
        Instr::Beq { rs1, rs2, imm } => {
            lemma_unpack_b(rs1, rs2, imm, F3_BEQ, OP_BRANCH);
            lemma_sign_extend_widths(
                ((w / 0x8000_0000) * 0x1000 + ((w / 0x80) % 2) * 0x800 + ((w / 0x200_0000) % 0x40)
                    * 0x20 + ((w / 0x100) % 0x10) * 2) as u32,
            );
        },
        Instr::Lui { rd, imm } => {
            lemma_unpack_u(rd, imm, OP_LUI);
            lemma_sign_extend_widths(w / 0x1000);
        },
        Instr::Auipc { rd, imm } => {
            lemma_unpack_u(rd, imm, OP_AUIPC);
            lemma_sign_extend_widths(w / 0x1000);
        },
        Instr::Jal { rd, imm } => {
            lemma_unpack_j(rd, imm, OP_JAL);
            lemma_sign_extend_widths(
                ((w / 0x8000_0000) * 0x10_0000 + ((w / 0x1000) % 0x100) * 0x1000 + ((w
                    / 0x10_0000) % 2) * 0x800 + ((w / 0x20_0000) % 0x400) * 2) as u32,
            );
        },
    }
}

/// Round trip of the upper-immediate layout: the encoder takes the
/// twenty-bit number, the decoder gives back the value that it stands
/// for in the word, which is 4096 times that number.
pub proof fn lemma_round_trip_upper(rd: Reg, imm: i32)
    requires
        rd < 32,
        -524288 <= imm <= 524287,
    ensures
        spec_decode(Instr::Lui { rd, imm }.word()) == Ok::<Instr, IsaError>(
            Instr::Lui { rd, imm: (imm * 4096) as i32 },
        ),
        spec_decode(Instr::Auipc { rd, imm }.word()) == Ok::<Instr, IsaError>(
            Instr::Auipc { rd, imm: (imm * 4096) as i32 },
        ),
        i32::MIN <= imm * 4096 <= i32::MAX,
{
    lemma_unpack_u(rd, imm, OP_LUI);
    lemma_sign_extend_widths(Instr::Lui { rd, imm }.word() / 0x1000);
    lemma_unpack_u(rd, imm, OP_AUIPC);
    lemma_sign_extend_widths(Instr::Auipc { rd, imm }.word() / 0x1000);
}

/// A word is the register-register packing of its own fields.
pub proof fn lemma_repack_r(w: u32)
    by (bit_vector)
    ensures
        spec_pack_r(
            spec_rd(w),
            spec_rs1(w),
            spec_rs2(w),
            spec_funct3(w),
            spec_funct7(w),
            spec_opcode(w),
        ) == w,
{
}

/// A word is the register-immediate packing of its own fields, and its
/// immediate is within the range that the encoders accept.
pub proof fn lemma_repack_i(w: u32)
    by (bit_vector)
    ensures
        ({
            let imm = signed_residue(w / 0x10_0000, 0x800);
            &&& -2048 <= imm <= 2047
            &&& spec_pack_i(spec_rd(w), spec_rs1(w), imm as i32, spec_funct3(w), spec_opcode(w))
                == w
        }),
{
}

/// A word is the store packing of its own fields, and its immediate is
/// within the range that the encoder accepts.
pub proof fn lemma_repack_s(w: u32)
    by (bit_vector)
    ensures
        ({
            let imm = signed_residue((spec_funct7(w) * 0x20 + spec_rd(w)) as u32, 0x800);
            &&& -2048 <= imm <= 2047
            &&& spec_pack_s(spec_rs1(w), spec_rs2(w), imm as i32, spec_funct3(w), spec_opcode(w))
                == w
        }),
{
}

/// A word is the branch packing of its own fields, and its immediate is
/// even and within the range that the encoder accepts.
pub proof fn lemma_repack_b(w: u32)
    by (bit_vector)
    ensures
        ({
            let imm = signed_residue(
                ((w / 0x8000_0000) * 0x1000 + ((w / 0x80) % 2) * 0x800 + ((w / 0x200_0000) % 0x40)
                    * 0x20 + ((w / 0x100) % 0x10) * 2) as u32,
                0x1000,
            );
            &&& -4096 <= imm <= 4095
            &&& imm % 2 == 0
            &&& spec_pack_b(spec_rs1(w), spec_rs2(w), imm as i32, spec_funct3(w), spec_opcode(w))
                == w
        }),
{
}

/// A word is the upper-immediate packing of its register, its opcode and
/// the signed number in its upper twenty bits.
pub proof fn lemma_repack_u(w: u32)
    by (bit_vector)
    ensures
        ({
            let imm = signed_residue(w / 0x1000, 0x8_0000);
            &&& -524288 <= imm <= 524287
            &&& spec_pack_u(spec_rd(w), imm as i32, spec_opcode(w)) == w
        }),
{
}

/// A word is the jump packing of its own fields, and its immediate is
/// even and within the range that the encoder accepts.
pub proof fn lemma_repack_j(w: u32)
    by (bit_vector)
    ensures
        ({
            let imm = signed_residue(
                ((w / 0x8000_0000) * 0x10_0000 + ((w / 0x1000) % 0x100) * 0x1000 + ((w
                    / 0x10_0000) % 2) * 0x800 + ((w / 0x20_0000) % 0x400) * 2) as u32,
                0x10_0000,
            );
            &&& -1048576 <= imm <= 1048575
            &&& imm % 2 == 0
            &&& spec_pack_j(spec_rd(w), imm as i32, spec_opcode(w)) == w
        }),
{
}

/// The number that the upper twenty bits of an upper-immediate
/// instruction's immediate stand for: what the encoder takes to give the
/// word back.
pub open spec fn upper_operand(instr: Instr) -> Instr
    recommends
        instr.is_upper(),
{
    match instr {
        Instr::Lui { rd, imm } => Instr::Lui { rd, imm: (imm as int / 4096) as i32 },
        Instr::Auipc { rd, imm } => Instr::Auipc { rd, imm: (imm as int / 4096) as i32 },
        other => other,
    }
}

/// The decoder reads nothing into a word: what it gives is encodable, and
/// encodes to the very word it was read from. An upper-immediate
/// instruction comes out with its immediate as a multiple of 4096, and
/// encodes to the word once that is divided out.
pub proof fn lemma_decode_exact(w: u32)
    ensures
        spec_decode(w) matches Ok(instr) ==> {
            &&& !instr.is_upper() ==> spec_encode(instr) == Ok::<u32, IsaError>(w)
            &&& instr.is_upper() ==> {
                &&& upper_imm(instr) % 4096 == 0
                &&& spec_encode(upper_operand(instr)) == Ok::<u32, IsaError>(w)
            }
        },
{
    lemma_repack_r(w);
    lemma_repack_i(w);
    lemma_repack_s(w);
    lemma_repack_b(w);
    lemma_repack_u(w);
    lemma_repack_j(w);
    lemma_sign_extend_widths(w / 0x10_0000);
    lemma_sign_extend_widths((spec_funct7(w) * 0x20 + spec_rd(w)) as u32);
    lemma_sign_extend_widths(
        ((w / 0x8000_0000) * 0x1000 + ((w / 0x80) % 2) * 0x800 + ((w / 0x200_0000) % 0x40) * 0x20
            + ((w / 0x100) % 0x10) * 2) as u32,
    );
    lemma_sign_extend_widths(w / 0x1000);
    lemma_sign_extend_widths(
        ((w / 0x8000_0000) * 0x10_0000 + ((w / 0x1000) % 0x100) * 0x1000 + ((w / 0x10_0000) % 2)
            * 0x800 + ((w / 0x20_0000) % 0x400) * 2) as u32,
    );
}

/// The immediate of an upper-immediate instruction.
pub open spec fn upper_imm(instr: Instr) -> int
    recommends
        instr.is_upper(),
{
    match instr {
        Instr::Lui { rd, imm } => imm as int,
        Instr::Auipc { rd, imm } => imm as int,
        other => 0,
    }
}

/// Encoding fails with `BadReg` exactly when a register operand is 32 or
/// more, whatever the immediate.
pub proof fn lemma_bad_reg(instr: Instr)
    ensures
        spec_encode(instr) == Err::<u32, IsaError>(IsaError::BadReg) <==> !instr.regs_valid(),
        forall|rd: Reg, rs1: Reg, rs2: Reg|
            #[trigger] (Instr::Add { rd, rs1, rs2 }).regs_valid() <==> rd < 32 && rs1 < 32 && rs2
                < 32,
        forall|rd: Reg, rs1: Reg, rs2: Reg|
            #[trigger] (Instr::Sub { rd, rs1, rs2 }).regs_valid() <==> rd < 32 && rs1 < 32 && rs2
                < 32,
        forall|rd: Reg, rs1: Reg, imm: i32|
            #[trigger] (Instr::Addi { rd, rs1, imm }).regs_valid() <==> rd < 32 && rs1 < 32,
        forall|rd: Reg, rs1: Reg, imm: i32|
            #[trigger] (Instr::Jalr { rd, rs1, imm }).regs_valid() <==> rd < 32 && rs1 < 32,
        forall|rd: Reg, rs1: Reg, imm: i32|
            #[trigger] (Instr::Lw { rd, rs1, imm }).regs_valid() <==> rd < 32 && rs1 < 32,
        forall|rs1: Reg, rs2: Reg, imm: i32|
            #[trigger] (Instr::Sw { rs1, rs2, imm }).regs_valid() <==> rs1 < 32 && rs2 < 32,
        forall|rs1: Reg, rs2: Reg, imm: i32|
            #[trigger] (Instr::Beq { rs1, rs2, imm }).regs_valid() <==> rs1 < 32 && rs2 < 32,
        forall|rd: Reg, imm: i32| #[trigger] (Instr::Lui { rd, imm }).regs_valid() <==> rd < 32,
        forall|rd: Reg, imm: i32| #[trigger] (Instr::Auipc { rd, imm }).regs_valid() <==> rd < 32,
        forall|rd: Reg, imm: i32| #[trigger] (Instr::Jal { rd, imm }).regs_valid() <==> rd < 32,
{
}

/// With registers in range, each encoder accepts exactly the immediates
/// of its field: twelve signed bits for `addi`, `jalr`, `lw` and `sw`; the
/// even numbers of thirteen signed bits for `beq`; twenty signed bits for
/// `lui` and `auipc`; the even numbers of twenty-one signed bits for
/// `jal`. Every other immediate fails with `ImmOutOfRange`.
pub proof fn lemma_imm_bounds(rd: Reg, rs1: Reg, rs2: Reg, imm: i32)
    requires
        rd < 32,
        rs1 < 32,
        rs2 < 32,
    ensures
        spec_encode(Instr::Addi { rd, rs1, imm }) is Ok <==> -2048 <= imm <= 2047,
        spec_encode(Instr::Jalr { rd, rs1, imm }) is Ok <==> -2048 <= imm <= 2047,
        spec_encode(Instr::Lw { rd, rs1, imm }) is Ok <==> -2048 <= imm <= 2047,
        spec_encode(Instr::Sw { rs1, rs2, imm }) is Ok <==> -2048 <= imm <= 2047,
        spec_encode(Instr::Beq { rs1, rs2, imm }) is Ok <==> -4096 <= imm <= 4094 && imm as int
            % 2 == 0,
        spec_encode(Instr::Lui { rd, imm }) is Ok <==> -524288 <= imm <= 524287,
        spec_encode(Instr::Auipc { rd, imm }) is Ok <==> -524288 <= imm <= 524287,
        spec_encode(Instr::Jal { rd, imm }) is Ok <==> -1048576 <= imm <= 1048574 && imm as int
            % 2 == 0,
        forall|instr: Instr|
            instr.regs_valid() && !(#[trigger] spec_encode(instr) is Ok) ==> spec_encode(instr)
                == Err::<u32, IsaError>(IsaError::ImmOutOfRange),
{
}

/// An odd branch or jump offset is refused, however small.
pub proof fn lemma_odd_offset(rd: Reg, rs1: Reg, rs2: Reg, imm: i32)
    requires
        rd < 32,
        rs1 < 32,
        rs2 < 32,
        imm as int % 2 != 0,
    ensures
        spec_encode(Instr::Beq { rs1, rs2, imm }) == Err::<u32, IsaError>(
            IsaError::ImmOutOfRange,
        ),
        spec_encode(Instr::Jal { rd, imm }) == Err::<u32, IsaError>(IsaError::ImmOutOfRange),
{
}

/// The decoder answers every word: `BadOpcode` where the opcode bits are
/// none of the nine known, `BadFunct` where they are known and the
/// function bits under them are not, an instruction otherwise.
pub proof fn lemma_decode_total(w: u32)
    ensures
        !known_opcode(spec_opcode(w)) ==> spec_decode(w) == Err::<Instr, IsaError>(
            IsaError::BadOpcode,
        ),
        known_opcode(spec_opcode(w)) && !known_funct(w) ==> spec_decode(w) == Err::<
            Instr,
            IsaError,
        >(IsaError::BadFunct),
        known_opcode(spec_opcode(w)) && known_funct(w) ==> spec_decode(w) == Ok::<
            Instr,
            IsaError,
        >(spec_instr_of(w)),
        known_opcode(spec_opcode(w)) <==> spec_opcode(w) == 0b0110011 || spec_opcode(w)
            == 0b0010011 || spec_opcode(w) == 0b0000011 || spec_opcode(w) == 0b0100011
            || spec_opcode(w) == 0b1100011 || spec_opcode(w) == 0b1100111 || spec_opcode(w)
            == 0b1101111 || spec_opcode(w) == 0b0110111 || spec_opcode(w) == 0b0010111,
{
}

} // verus!
