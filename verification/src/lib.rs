//! A codec between a small, closed set of machine instructions and their
//! 32-bit encodings: six layout families, ten instructions.

pub mod error;
pub mod fields;
pub mod imm;
pub mod pack;
pub mod instr;
pub mod encode;
pub mod decode;
pub mod laws;
pub mod boundary;

pub use error::IsaError;
pub use fields::{funct3, funct7, opcode, rd, rs1, rs2, Reg};
pub use pack::{pack_b, pack_i, pack_j, pack_r, pack_s, pack_u};
pub use imm::{
    check_imm_range, check_reg, imm_b, imm_i, imm_j, imm_s, imm_u, mask, sign_extend_u32,
};
pub use instr::Instr;
pub use encode::{
    encode_add, encode_addi, encode_auipc, encode_beq, encode_jal, encode_jalr, encode_lui,
    encode_lw, encode_sub, encode_sw,
};
pub use decode::decode;
pub use boundary::{
    isa_decode, isa_encode_add, isa_encode_addi, isa_encode_auipc, isa_encode_beq,
    isa_encode_jal, isa_encode_jalr, isa_encode_lui, isa_encode_lw, isa_encode_sub,
    isa_encode_sw, isa_ffi_version, isa_status_str, map_err, DecodedInstr, InstrTag, IsaStatus,
};
