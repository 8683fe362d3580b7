use isa::{
    check_imm_range, check_reg, funct3, funct7, imm_b, imm_i, imm_j, imm_s, imm_u, mask, opcode,
    pack_b, pack_i, pack_j, pack_r, pack_s, pack_u, rd, rs1, rs2, sign_extend_u32, IsaError,
};

#[test]
fn sign_extension_unit_check() {
    assert_eq!(sign_extend_u32(0xFFF, 12), -1);
    assert_eq!(sign_extend_u32(0x7FF, 12), 2047);
}

#[test]
fn sign_extension_reads_only_the_field() {
    assert_eq!(sign_extend_u32(0x800, 12), -2048);
    assert_eq!(sign_extend_u32(0x1FFF, 12), -1);
    assert_eq!(sign_extend_u32(0xFFFF_F005, 12), 5);
    assert_eq!(sign_extend_u32(0x1000, 13), -4096);
    assert_eq!(sign_extend_u32(0x0FFE, 13), 4094);
    assert_eq!(sign_extend_u32(0x8_0000, 20), -524288);
    assert_eq!(sign_extend_u32(0x7_FFFF, 20), 524287);
    assert_eq!(sign_extend_u32(0x10_0000, 21), -1048576);
}

#[test]
fn sign_extension_at_the_extreme_widths() {
    assert_eq!(sign_extend_u32(0, 1), 0);
    assert_eq!(sign_extend_u32(1, 1), -1);
    assert_eq!(sign_extend_u32(2, 1), 0);
    assert_eq!(sign_extend_u32(0xFFFF_FFFF, 32), -1);
    assert_eq!(sign_extend_u32(0x7FFF_FFFF, 32), i32::MAX);
    assert_eq!(sign_extend_u32(0x8000_0000, 32), i32::MIN);
    assert_eq!(sign_extend_u32(0x4000_0000, 31), -1073741824);
}

#[test]
fn register_check() {
    assert_eq!(check_reg(0), Ok(()));
    assert_eq!(check_reg(31), Ok(()));
    assert_eq!(check_reg(32), Err(IsaError::BadReg));
    assert_eq!(check_reg(255), Err(IsaError::BadReg));
}

#[test]
fn range_check() {
    assert_eq!(check_imm_range(0, 1), Ok(()));
    assert_eq!(check_imm_range(-1, 1), Ok(()));
    assert_eq!(check_imm_range(1, 1), Err(IsaError::ImmOutOfRange));
    assert_eq!(check_imm_range(-2, 1), Err(IsaError::ImmOutOfRange));
    assert_eq!(check_imm_range(2047, 12), Ok(()));
    assert_eq!(check_imm_range(-2048, 12), Ok(()));
    assert_eq!(check_imm_range(2048, 12), Err(IsaError::ImmOutOfRange));
    assert_eq!(check_imm_range(-2049, 12), Err(IsaError::ImmOutOfRange));
    assert_eq!(check_imm_range(1073741823, 31), Ok(()));
    assert_eq!(check_imm_range(-1073741824, 31), Ok(()));
    assert_eq!(check_imm_range(1073741824, 31), Err(IsaError::ImmOutOfRange));
    assert_eq!(check_imm_range(-1073741825, 31), Err(IsaError::ImmOutOfRange));
    assert_eq!(check_imm_range(i32::MIN, 31), Err(IsaError::ImmOutOfRange));
}

#[test]
fn low_bit_masks() {
    assert_eq!(mask(0), 0);
    assert_eq!(mask(1), 1);
    assert_eq!(mask(12), 0xfff);
    assert_eq!(mask(13), 0x1fff);
    assert_eq!(mask(20), 0xf_ffff);
    assert_eq!(mask(21), 0x1f_ffff);
    assert_eq!(mask(31), 0x7fff_ffff);
}

#[test]
fn fields_of_a_word() {
    let w = 0xfe11_11b3u32;
    assert_eq!(opcode(w), 0x33);
    assert_eq!(rd(w), 3);
    assert_eq!(funct3(w), 1);
    assert_eq!(rs1(w), 2);
    assert_eq!(rs2(w), 1);
    assert_eq!(funct7(w), 0x7f);
}

#[test]
fn fields_of_the_extreme_words() {
    assert_eq!(opcode(0), 0);
    assert_eq!(rd(0), 0);
    assert_eq!(funct3(0), 0);
    assert_eq!(rs1(0), 0);
    assert_eq!(rs2(0), 0);
    assert_eq!(funct7(0), 0);
    assert_eq!(opcode(u32::MAX), 0x7f);
    assert_eq!(rd(u32::MAX), 31);
    assert_eq!(funct3(u32::MAX), 7);
    assert_eq!(rs1(u32::MAX), 31);
    assert_eq!(rs2(u32::MAX), 31);
    assert_eq!(funct7(u32::MAX), 0x7f);
}

#[test]
fn each_field_reads_its_own_bits() {
    assert_eq!(opcode(0x0000_007f), 0x7f);
    assert_eq!(opcode(0xffff_ff80), 0);
    assert_eq!(rd(0x0000_0f80), 31);
    assert_eq!(rd(0xffff_f07f), 0);
    assert_eq!(funct3(0x0000_7000), 7);
    assert_eq!(funct3(0xffff_8fff), 0);
    assert_eq!(rs1(0x000f_8000), 31);
    assert_eq!(rs1(0xfff0_7fff), 0);
    assert_eq!(rs2(0x01f0_0000), 31);
    assert_eq!(rs2(0xfe0f_ffff), 0);
    assert_eq!(funct7(0xfe00_0000), 0x7f);
    assert_eq!(funct7(0x01ff_ffff), 0);
}

#[test]
fn immediates_of_known_words() {
    assert_eq!(imm_i(0xfff1_0093), -1);
    assert_eq!(imm_i(0x7ff1_0093), 2047);
    assert_eq!(imm_i(0x8001_0093), -2048);
    assert_eq!(imm_s(0xfe11_2e23), -4);
    assert_eq!(imm_s(0x7fef_afa3), 2047);
    assert_eq!(imm_s(0x0074_2623), 12);
    assert_eq!(imm_b(0x7e20_8fe3), 4094);
    assert_eq!(imm_b(0x8020_8063), -4096);
    assert_eq!(imm_b(0x0041_80e3), 2048);
    assert_eq!(imm_b(0x0020_8463), 8);
    assert_eq!(imm_u(0x1234_52b7), 0x1234_5000);
    assert_eq!(imm_u(0xffff_f2b7), -4096);
    assert_eq!(imm_u(0x8000_02b7), i32::MIN);
    assert_eq!(imm_j(0xffdf_f0ef), -4);
    assert_eq!(imm_j(0x0010_00ef), 2048);
    assert_eq!(imm_j(0x3441_20ef), 0x12344);
    assert_eq!(imm_j(0x7fff_f06f), 1048574);
}

#[test]
fn immediates_of_the_extreme_words() {
    assert_eq!(imm_i(0), 0);
    assert_eq!(imm_s(0), 0);
    assert_eq!(imm_b(0), 0);
    assert_eq!(imm_u(0), 0);
    assert_eq!(imm_j(0), 0);
    assert_eq!(imm_i(u32::MAX), -1);
    assert_eq!(imm_s(u32::MAX), -1);
    assert_eq!(imm_b(u32::MAX), -2);
    assert_eq!(imm_u(u32::MAX), -4096);
    assert_eq!(imm_j(u32::MAX), -2);
}

#[test]
fn branch_and_jump_bits_land_where_they_belong() {
    // word bit 7 is branch immediate bit 11, word bit 31 is bit 12
    assert_eq!(imm_b(0x0000_0080), 2048);
    assert_eq!(imm_b(0x8000_0000), -4096);
    assert_eq!(imm_b(0x0000_0100), 2);
    assert_eq!(imm_b(0x0200_0000), 32);
    // word bit 20 is jump immediate bit 11, word bit 31 is bit 20
    assert_eq!(imm_j(0x0010_0000), 2048);
    assert_eq!(imm_j(0x8000_0000), -1048576);
    assert_eq!(imm_j(0x0020_0000), 2);
    assert_eq!(imm_j(0x0000_1000), 4096);
}

#[test]
fn packers_give_exact_words() {
    assert_eq!(pack_r(1, 2, 3, 0, 0, 0x33), 0x0031_00b3);
    assert_eq!(pack_r(3, 4, 5, 0, 0x20, 0x33), 0x4052_01b3);
    assert_eq!(pack_i(1, 2, -1, 0, 0x13), 0xfff1_0093);
    assert_eq!(pack_i(5, 6, 8, 2, 0x03), 0x0083_2283);
    assert_eq!(pack_s(8, 7, 12, 2, 0x23), 0x0074_2623);
    assert_eq!(pack_s(2, 1, -4, 2, 0x23), 0xfe11_2e23);
    assert_eq!(pack_b(1, 2, 8, 0, 0x63), 0x0020_8463);
    assert_eq!(pack_b(3, 4, 2048, 0, 0x63), 0x0041_80e3);
    assert_eq!(pack_u(5, 0x12345, 0x37), 0x1234_52b7);
    assert_eq!(pack_u(1, 1, 0x17), 0x0000_1097);
    assert_eq!(pack_j(1, -4, 0x6f), 0xffdf_f0ef);
    assert_eq!(pack_j(1, 0x12344, 0x6f), 0x3441_20ef);
}

#[test]
fn packers_cut_each_argument_to_its_field() {
    assert_eq!(pack_r(35, 34, 33, 9, 0xff, 0xb3), 0xfe11_11b3);
    assert_eq!(pack_i(1, 2, 4101, 0, 0x13), 0x0051_0093);
    assert_eq!(pack_i(33, 34, 5, 8, 0x93), 0x0051_0093);
    assert_eq!(pack_s(8, 7, 4096 + 12, 2, 0x23), 0x0074_2623);
    assert_eq!(pack_b(1, 2, 9, 0, 0x63), 0x0020_8463);
    assert_eq!(pack_b(1, 2, 8192 + 8, 0, 0x63), 0x0020_8463);
    assert_eq!(pack_u(5, 0x10_0000 + 0x12345, 0x37), 0x1234_52b7);
    assert_eq!(pack_j(1, -3, 0x6f), 0xffdf_f0ef);
    assert_eq!(pack_j(33, -4, 0xef), 0xffdf_f0ef);
}
