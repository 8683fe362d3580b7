//! The codec as a foreign caller sees it: status codes in place of
//! `Result`, an output location in place of a return value, and one flat
//! record for every decoded instruction.
//!
//! An output location is an `Option<&mut T>`: `None` stands for the null
//! pointer of the foreign caller. Nothing is written through it unless the
//! call succeeds.

use vstd::prelude::*;
use crate::decode::{decode, spec_decode};
use crate::encode::{
    encode_add, encode_addi, encode_auipc, encode_beq, encode_jal, encode_jalr, encode_lui,
    encode_lw, encode_sub, encode_sw,
};
use crate::error::IsaError;
use crate::instr::{spec_encode, Instr};

verus! {

/// How a call across the boundary ended.
#[allow(non_camel_case_types)]
#[derive(Copy, Clone, Debug, PartialEq, Eq, Structural)]
pub enum IsaStatus {
    /// The call succeeded and the output location holds its result.
    ISA_OK,
    /// A register index is 32 or more.
    ISA_BAD_REG,
    /// An immediate does not fit its field, or is odd where it must be even.
    ISA_IMM_OUT_OF_RANGE,
    /// The opcode bits select no known instruction family.
    ISA_BAD_OPCODE,
    /// The opcode is known, the function bits under it are not.
    ISA_BAD_FUNCT,
    /// No output location was given.
    ISA_NULL_PTR,
    /// Kept for conditions that later versions may add.
    ISA_UNKNOWN,
}

/// Which instruction a flat record holds.
#[allow(non_camel_case_types)]
#[derive(Copy, Clone, Debug, PartialEq, Eq, Structural)]
pub enum InstrTag {
    /// No instruction.
    TAG_INVALID,
    /// `add`
    TAG_ADD,
    /// `sub`
    TAG_SUB,
    /// `addi`
    TAG_ADDI,
    /// `jalr`
    TAG_JALR,
    /// `lw`
    TAG_LW,
    /// `sw`
    TAG_SW,
    /// `beq`
    TAG_BEQ,
    /// `lui`
    TAG_LUI,
    /// `auipc`
    TAG_AUIPC,
    /// `jal`
    TAG_JAL,
}

/// A decoded instruction as one flat record. A field that the
/// instruction does not have is zero.
#[derive(Copy, Clone, Debug)]
pub struct DecodedInstr {
    pub tag: InstrTag,
    pub rd: u8,
    pub rs1: u8,
    pub rs2: u8,
    pub imm: i32,
}

impl IsaStatus {
    /// The number that stands for the status on the foreign side.
    pub open spec fn spec_code(self) -> u32 {
        match self {
            IsaStatus::ISA_OK => 0,
            IsaStatus::ISA_BAD_REG => 1,
            IsaStatus::ISA_IMM_OUT_OF_RANGE => 2,
            IsaStatus::ISA_BAD_OPCODE => 3,
            IsaStatus::ISA_BAD_FUNCT => 4,
            IsaStatus::ISA_NULL_PTR => 5,
            IsaStatus::ISA_UNKNOWN => 255,
        }
    }

    /// The number that stands for the status on the foreign side.
    #[verifier::when_used_as_spec(spec_code)]
    pub fn code(self) -> (c: u32)
        ensures
            c == self.spec_code(),
    {
        match self {
            IsaStatus::ISA_OK => 0,
            IsaStatus::ISA_BAD_REG => 1,
            IsaStatus::ISA_IMM_OUT_OF_RANGE => 2,
            IsaStatus::ISA_BAD_OPCODE => 3,
            IsaStatus::ISA_BAD_FUNCT => 4,
            IsaStatus::ISA_NULL_PTR => 5,
            IsaStatus::ISA_UNKNOWN => 255,
        }
    }
}

impl InstrTag {
    /// The number that stands for the tag on the foreign side: the tags
    /// are counted from zero in the order of their declaration.
    pub open spec fn spec_code(self) -> u32 {
        match self {
            InstrTag::TAG_INVALID => 0,
            InstrTag::TAG_ADD => 1,
            InstrTag::TAG_SUB => 2,
            InstrTag::TAG_ADDI => 3,
            InstrTag::TAG_JALR => 4,
            InstrTag::TAG_LW => 5,
            InstrTag::TAG_SW => 6,
            InstrTag::TAG_BEQ => 7,
            InstrTag::TAG_LUI => 8,
            InstrTag::TAG_AUIPC => 9,
            InstrTag::TAG_JAL => 10,
        }
    }

    /// The number that stands for the tag on the foreign side.
    #[verifier::when_used_as_spec(spec_code)]
    pub fn code(self) -> (c: u32)
        ensures
            c == self.spec_code(),
    {
        match self {
            InstrTag::TAG_INVALID => 0,
            InstrTag::TAG_ADD => 1,
            InstrTag::TAG_SUB => 2,
            InstrTag::TAG_ADDI => 3,
            InstrTag::TAG_JALR => 4,
            InstrTag::TAG_LW => 5,
            InstrTag::TAG_SW => 6,
            InstrTag::TAG_BEQ => 7,
            InstrTag::TAG_LUI => 8,
            InstrTag::TAG_AUIPC => 9,
            InstrTag::TAG_JAL => 10,
        }
    }
}

/// The status that reports `e`.
pub open spec fn spec_map_err(e: IsaError) -> IsaStatus {
    match e {
        IsaError::BadReg => IsaStatus::ISA_BAD_REG,
        IsaError::ImmOutOfRange => IsaStatus::ISA_IMM_OUT_OF_RANGE,
        IsaError::BadOpcode => IsaStatus::ISA_BAD_OPCODE,
        IsaError::BadFunct => IsaStatus::ISA_BAD_FUNCT,
    }
}

/// The flat record of `instr`.
pub open spec fn spec_flatten(instr: Instr) -> DecodedInstr {
    match instr {
        Instr::Add { rd, rs1, rs2 } => DecodedInstr { tag: InstrTag::TAG_ADD, rd, rs1, rs2, imm: 0 },
        Instr::Sub { rd, rs1, rs2 } => DecodedInstr { tag: InstrTag::TAG_SUB, rd, rs1, rs2, imm: 0 },
        Instr::Addi { rd, rs1, imm } => DecodedInstr {
            tag: InstrTag::TAG_ADDI,
            rd,
            rs1,
            rs2: 0,
            imm,
        },
        Instr::Jalr { rd, rs1, imm } => DecodedInstr {
            tag: InstrTag::TAG_JALR,
            rd,
            rs1,
            rs2: 0,
            imm,
        },
        Instr::Lw { rd, rs1, imm } => DecodedInstr { tag: InstrTag::TAG_LW, rd, rs1, rs2: 0, imm },
        Instr::Sw { rs1, rs2, imm } => DecodedInstr { tag: InstrTag::TAG_SW, rd: 0, rs1, rs2, imm },
        Instr::Beq { rs1, rs2, imm } => DecodedInstr {
            tag: InstrTag::TAG_BEQ,
            rd: 0,
            rs1,
            rs2,
            imm,
        },
        Instr::Lui { rd, imm } => DecodedInstr { tag: InstrTag::TAG_LUI, rd, rs1: 0, rs2: 0, imm },
        Instr::Auipc { rd, imm } => DecodedInstr {
            tag: InstrTag::TAG_AUIPC,
            rd,
            rs1: 0,
            rs2: 0,
            imm,
        },
        Instr::Jal { rd, imm } => DecodedInstr { tag: InstrTag::TAG_JAL, rd, rs1: 0, rs2: 0, imm },
    }
}

/// The status of a call that was given an output location or none, and
/// whose work ended in `res`. A missing location is reported before
/// anything else.
pub open spec fn spec_status<T>(has_out: bool, res: Result<T, IsaError>) -> IsaStatus {
    if !has_out {
        IsaStatus::ISA_NULL_PTR
    } else {
        match res {
            Ok(_) => IsaStatus::ISA_OK,
            Err(e) => spec_map_err(e),
        }
    }
}

/// What the output location holds after a call whose work ended in `res`:
/// the result on success, else what it held before.
pub open spec fn spec_output<T>(before: T, res: Result<T, IsaError>) -> T {
    match res {
        Ok(v) => v,
        Err(_) => before,
    }
}

/// Turns an error of the codec into its status.
pub fn map_err(e: IsaError) -> (status: IsaStatus)
    ensures
        status == spec_map_err(e),
{
    match e {
        IsaError::BadReg => IsaStatus::ISA_BAD_REG,
        IsaError::ImmOutOfRange => IsaStatus::ISA_IMM_OUT_OF_RANGE,
        IsaError::BadOpcode => IsaStatus::ISA_BAD_OPCODE,
        IsaError::BadFunct => IsaStatus::ISA_BAD_FUNCT,
    }
}

/// Encodes `add rd, rs1, rs2` into `out_word`.
pub fn isa_encode_add(rd: u8, rs1: u8, rs2: u8, out_word: Option<&mut u32>) -> (status: IsaStatus)
    ensures
        status == spec_status(out_word.is_some(), spec_encode(Instr::Add { rd, rs1, rs2 })),
        out_word matches Some(out) ==> *final(out) == spec_output(
            *out,
            spec_encode(Instr::Add { rd, rs1, rs2 }),
        ),
{
    let out = match out_word {
        Some(p) => p,
        None => return IsaStatus::ISA_NULL_PTR,
    };
    match encode_add(rd, rs1, rs2) {
        Ok(w) => {
            *out = w;
            IsaStatus::ISA_OK
        },
        Err(e) => map_err(e),
    }
}

/// Encodes `sub rd, rs1, rs2` into `out_word`.
pub fn isa_encode_sub(rd: u8, rs1: u8, rs2: u8, out_word: Option<&mut u32>) -> (status:
    IsaStatus)
    ensures
        status == spec_status(out_word.is_some(), spec_encode(Instr::Sub { rd, rs1, rs2 })),
        out_word matches Some(out) ==> *final(out) == spec_output(
            *out,
            spec_encode(Instr::Sub { rd, rs1, rs2 }),
        ),
{
    let out = match out_word {
        Some(p) => p,
        None => return IsaStatus::ISA_NULL_PTR,
    };
    match encode_sub(rd, rs1, rs2) {
        Ok(w) => {
            *out = w;
            IsaStatus::ISA_OK
        },
        Err(e) => map_err(e),
    }
}

/// Encodes `addi rd, rs1, imm` into `out_word`.
pub fn isa_encode_addi(rd: u8, rs1: u8, imm: i32, out_word: Option<&mut u32>) -> (status:
    IsaStatus)
    ensures
        status == spec_status(out_word.is_some(), spec_encode(Instr::Addi { rd, rs1, imm })),
        out_word matches Some(out) ==> *final(out) == spec_output(
            *out,
            spec_encode(Instr::Addi { rd, rs1, imm }),
        ),
{
    let out = match out_word {
        Some(p) => p,
        None => return IsaStatus::ISA_NULL_PTR,
    };
    match encode_addi(rd, rs1, imm) {
        Ok(w) => {
            *out = w;
            IsaStatus::ISA_OK
        },
        Err(e) => map_err(e),
    }
}

/// Encodes `lw rd, imm(rs1)` into `out_word`.
pub fn isa_encode_lw(rd: u8, rs1: u8, imm: i32, out_word: Option<&mut u32>) -> (status:
    IsaStatus)
    ensures
        status == spec_status(out_word.is_some(), spec_encode(Instr::Lw { rd, rs1, imm })),
        out_word matches Some(out) ==> *final(out) == spec_output(
            *out,
            spec_encode(Instr::Lw { rd, rs1, imm }),
        ),
{
    let out = match out_word {
        Some(p) => p,
        None => return IsaStatus::ISA_NULL_PTR,
    };
    match encode_lw(rd, rs1, imm) {
        Ok(w) => {
            *out = w;
            IsaStatus::ISA_OK
        },
        Err(e) => map_err(e),
    }
}

/// Encodes `sw rs2, imm(rs1)` into `out_word`.
pub fn isa_encode_sw(rs1: u8, rs2: u8, imm: i32, out_word: Option<&mut u32>) -> (status:
    IsaStatus)
    ensures
        status == spec_status(out_word.is_some(), spec_encode(Instr::Sw { rs1, rs2, imm })),
        out_word matches Some(out) ==> *final(out) == spec_output(
            *out,
            spec_encode(Instr::Sw { rs1, rs2, imm }),
        ),
{
    let out = match out_word {
        Some(p) => p,
        None => return IsaStatus::ISA_NULL_PTR,
    };
    match encode_sw(rs1, rs2, imm) {
        Ok(w) => {
            *out = w;
            IsaStatus::ISA_OK
        },
        Err(e) => map_err(e),
    }
}

/// Encodes `beq rs1, rs2, imm` into `out_word`.
pub fn isa_encode_beq(rs1: u8, rs2: u8, imm: i32, out_word: Option<&mut u32>) -> (status:
    IsaStatus)
    ensures
        status == spec_status(out_word.is_some(), spec_encode(Instr::Beq { rs1, rs2, imm })),
        out_word matches Some(out) ==> *final(out) == spec_output(
            *out,
            spec_encode(Instr::Beq { rs1, rs2, imm }),
        ),
{
    let out = match out_word {
        Some(p) => p,
        None => return IsaStatus::ISA_NULL_PTR,
    };
    match encode_beq(rs1, rs2, imm) {
        Ok(w) => {
            *out = w;
            IsaStatus::ISA_OK
        },
        Err(e) => map_err(e),
    }
}

/// Encodes `jal rd, imm` into `out_word`.
pub fn isa_encode_jal(rd: u8, imm: i32, out_word: Option<&mut u32>) -> (status:
    IsaStatus)
    ensures
        status == spec_status(out_word.is_some(), spec_encode(Instr::Jal { rd, imm })),
        out_word matches Some(out) ==> *final(out) == spec_output(
            *out,
            spec_encode(Instr::Jal { rd, imm }),
        ),
{
    let out = match out_word {
        Some(p) => p,
        None => return IsaStatus::ISA_NULL_PTR,
    };
    match encode_jal(rd, imm) {
        Ok(w) => {
            *out = w;
            IsaStatus::ISA_OK
        },
        Err(e) => map_err(e),
    }
}

/// Encodes `jalr rd, imm(rs1)` into `out_word`.
pub fn isa_encode_jalr(rd: u8, rs1: u8, imm: i32, out_word: Option<&mut u32>) -> (status:
    IsaStatus)
    ensures
        status == spec_status(out_word.is_some(), spec_encode(Instr::Jalr { rd, rs1, imm })),
        out_word matches Some(out) ==> *final(out) == spec_output(
            *out,
            spec_encode(Instr::Jalr { rd, rs1, imm }),
        ),
{
    let out = match out_word {
        Some(p) => p,
        None => return IsaStatus::ISA_NULL_PTR,
    };
    match encode_jalr(rd, rs1, imm) {
        Ok(w) => {
            *out = w;
            IsaStatus::ISA_OK
        },
        Err(e) => map_err(e),
    }
}

/// Encodes `lui rd, imm20` into `out_word`.
pub fn isa_encode_lui(rd: u8, imm20: i32, out_word: Option<&mut u32>) -> (status:
    IsaStatus)
    ensures
        status == spec_status(out_word.is_some(), spec_encode(Instr::Lui { rd, imm: imm20 })),
        out_word matches Some(out) ==> *final(out) == spec_output(
            *out,
            spec_encode(Instr::Lui { rd, imm: imm20 }),
        ),
{
    let out = match out_word {
        Some(p) => p,
        None => return IsaStatus::ISA_NULL_PTR,
    };
    match encode_lui(rd, imm20) {
        Ok(w) => {
            *out = w;
            IsaStatus::ISA_OK
        },
        Err(e) => map_err(e),
    }
}

/// Encodes `auipc rd, imm20` into `out_word`.
pub fn isa_encode_auipc(rd: u8, imm20: i32, out_word: Option<&mut u32>) -> (status:
    IsaStatus)
    ensures
        status == spec_status(out_word.is_some(), spec_encode(Instr::Auipc { rd, imm: imm20 })),
        out_word matches Some(out) ==> *final(out) == spec_output(
            *out,
            spec_encode(Instr::Auipc { rd, imm: imm20 }),
        ),
{
    let out = match out_word {
        Some(p) => p,
        None => return IsaStatus::ISA_NULL_PTR,
    };
    match encode_auipc(rd, imm20) {
        Ok(w) => {
            *out = w;
            IsaStatus::ISA_OK
        },
        Err(e) => map_err(e),
    }
}

/// Decodes `word` into the flat record at `out_decoded`.
pub fn isa_decode(word: u32, out_decoded: Option<&mut DecodedInstr>) -> (status: IsaStatus)
    ensures
        status == spec_status(out_decoded.is_some(), spec_decode(word)),
        out_decoded matches Some(out) ==> *final(out) == (match spec_decode(word) {
            Ok(instr) => spec_flatten(instr),
            Err(_) => *out,
        }),
{
    let out = match out_decoded {
        Some(p) => p,
        None => return IsaStatus::ISA_NULL_PTR,
    };
    match decode(word) {
        Ok(instr) => {
            *out = match instr {
                Instr::Add { rd, rs1, rs2 } => DecodedInstr {
                    tag: InstrTag::TAG_ADD,
                    rd,
                    rs1,
                    rs2,
                    imm: 0,
                },
                Instr::Sub { rd, rs1, rs2 } => DecodedInstr {
                    tag: InstrTag::TAG_SUB,
                    rd,
                    rs1,
                    rs2,
                    imm: 0,
                },
                Instr::Addi { rd, rs1, imm } => DecodedInstr {
                    tag: InstrTag::TAG_ADDI,
                    rd,
                    rs1,
                    rs2: 0,
                    imm,
                },
                Instr::Jalr { rd, rs1, imm } => DecodedInstr {
                    tag: InstrTag::TAG_JALR,
                    rd,
                    rs1,
                    rs2: 0,
                    imm,
                },
                Instr::Lw { rd, rs1, imm } => DecodedInstr {
                    tag: InstrTag::TAG_LW,
                    rd,
                    rs1,
                    rs2: 0,
                    imm,
                },
                Instr::Sw { rs1, rs2, imm } => DecodedInstr {
                    tag: InstrTag::TAG_SW,
                    rd: 0,
                    rs1,
                    rs2,
                    imm,
                },
                Instr::Beq { rs1, rs2, imm } => DecodedInstr {
                    tag: InstrTag::TAG_BEQ,
                    rd: 0,
                    rs1,
                    rs2,
                    imm,
                },
                Instr::Lui { rd, imm } => DecodedInstr {
                    tag: InstrTag::TAG_LUI,
                    rd,
                    rs1: 0,
                    rs2: 0,
                    imm,
                },
                Instr::Auipc { rd, imm } => DecodedInstr {
                    tag: InstrTag::TAG_AUIPC,
                    rd,
                    rs1: 0,
                    rs2: 0,
                    imm,
                },
                Instr::Jal { rd, imm } => DecodedInstr {
                    tag: InstrTag::TAG_JAL,
                    rd,
                    rs1: 0,
                    rs2: 0,
                    imm,
                },
            };
            IsaStatus::ISA_OK
        },
        Err(e) => map_err(e),
    }
}

/// The name of a status, ending in a NUL character so that its bytes can
/// be handed to a foreign caller as they are.
pub open spec fn spec_status_str(code: IsaStatus) -> Seq<char> {
    match code {
        IsaStatus::ISA_OK => "OK\0"@,
        IsaStatus::ISA_BAD_REG => "BadReg\0"@,
        IsaStatus::ISA_IMM_OUT_OF_RANGE => "ImmOutOfRange\0"@,
        IsaStatus::ISA_BAD_OPCODE => "BadOpcode\0"@,
        IsaStatus::ISA_BAD_FUNCT => "BadFunct\0"@,
        IsaStatus::ISA_NULL_PTR => "NullPtr\0"@,
        IsaStatus::ISA_UNKNOWN => "Unknown\0"@,
    }
}

/// The name of `code`, NUL-terminated.
pub fn isa_status_str(code: IsaStatus) -> (text: &'static str)
    ensures
        text@ == spec_status_str(code),
{
    match code {
        IsaStatus::ISA_OK => "OK\0",
        IsaStatus::ISA_BAD_REG => "BadReg\0",
        IsaStatus::ISA_IMM_OUT_OF_RANGE => "ImmOutOfRange\0",
        IsaStatus::ISA_BAD_OPCODE => "BadOpcode\0",
        IsaStatus::ISA_BAD_FUNCT => "BadFunct\0",
        IsaStatus::ISA_NULL_PTR => "NullPtr\0",
        IsaStatus::ISA_UNKNOWN => "Unknown\0",
    }
}

/// The version of the boundary: of the status and tag numbers and of the
/// layout of the flat record. A foreign caller compares it with the one
/// it was built against.
pub fn isa_ffi_version() -> (version: u32)
    ensures
        version == 1,
{
    1
}

} // verus!
