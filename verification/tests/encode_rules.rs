use isa::{
    encode_add, encode_addi, encode_auipc, encode_beq, encode_jal, encode_jalr, encode_lui,
    encode_lw, encode_sub, encode_sw, IsaError,
};

#[test]
fn bad_register_in_any_position() {
    for &r in &[32u8, 33, 100, 255] {
        assert_eq!(encode_add(r, 1, 1), Err(IsaError::BadReg));
        assert_eq!(encode_add(1, r, 1), Err(IsaError::BadReg));
        assert_eq!(encode_add(1, 1, r), Err(IsaError::BadReg));
        assert_eq!(encode_sub(r, 1, 1), Err(IsaError::BadReg));
        assert_eq!(encode_sub(1, r, 1), Err(IsaError::BadReg));
        assert_eq!(encode_sub(1, 1, r), Err(IsaError::BadReg));
        assert_eq!(encode_addi(r, 1, 0), Err(IsaError::BadReg));
        assert_eq!(encode_addi(1, r, 0), Err(IsaError::BadReg));
        assert_eq!(encode_lw(r, 1, 0), Err(IsaError::BadReg));
        assert_eq!(encode_lw(1, r, 0), Err(IsaError::BadReg));
        assert_eq!(encode_jalr(r, 1, 0), Err(IsaError::BadReg));
        assert_eq!(encode_jalr(1, r, 0), Err(IsaError::BadReg));
        assert_eq!(encode_sw(r, 1, 0), Err(IsaError::BadReg));
        assert_eq!(encode_sw(1, r, 0), Err(IsaError::BadReg));
        assert_eq!(encode_beq(r, 1, 0), Err(IsaError::BadReg));
        assert_eq!(encode_beq(1, r, 0), Err(IsaError::BadReg));
        assert_eq!(encode_lui(r, 0), Err(IsaError::BadReg));
        assert_eq!(encode_auipc(r, 0), Err(IsaError::BadReg));
        assert_eq!(encode_jal(r, 0), Err(IsaError::BadReg));
    }
}

#[test]
fn register_31_is_the_last_one() {
    assert!(encode_add(31, 31, 31).is_ok());
    assert!(encode_sub(31, 31, 31).is_ok());
    assert!(encode_addi(31, 31, 0).is_ok());
    assert!(encode_lw(31, 31, 0).is_ok());
    assert!(encode_jalr(31, 31, 0).is_ok());
    assert!(encode_sw(31, 31, 0).is_ok());
    assert!(encode_beq(31, 31, 0).is_ok());
    assert!(encode_lui(31, 0).is_ok());
    assert!(encode_auipc(31, 0).is_ok());
    assert!(encode_jal(31, 0).is_ok());
}

#[test]
fn registers_are_checked_before_the_immediate() {
    assert_eq!(encode_addi(32, 1, 5000), Err(IsaError::BadReg));
    assert_eq!(encode_lw(1, 32, -5000), Err(IsaError::BadReg));
    assert_eq!(encode_jalr(40, 1, 2048), Err(IsaError::BadReg));
    assert_eq!(encode_sw(1, 32, 2048), Err(IsaError::BadReg));
    assert_eq!(encode_beq(32, 1, 3), Err(IsaError::BadReg));
    assert_eq!(encode_beq(1, 32, 4096), Err(IsaError::BadReg));
    assert_eq!(encode_lui(32, 524288), Err(IsaError::BadReg));
    assert_eq!(encode_auipc(32, -524289), Err(IsaError::BadReg));
    assert_eq!(encode_jal(32, 1), Err(IsaError::BadReg));
}

#[test]
fn twelve_bit_bounds() {
    assert!(encode_addi(1, 2, -2048).is_ok());
    assert!(encode_addi(1, 2, 2047).is_ok());
    assert_eq!(encode_addi(1, 2, -2049), Err(IsaError::ImmOutOfRange));
    assert_eq!(encode_addi(1, 2, 2048), Err(IsaError::ImmOutOfRange));
    assert!(encode_jalr(1, 2, -2048).is_ok());
    assert!(encode_jalr(1, 2, 2047).is_ok());
    assert_eq!(encode_jalr(1, 2, -2049), Err(IsaError::ImmOutOfRange));
    assert_eq!(encode_jalr(1, 2, 2048), Err(IsaError::ImmOutOfRange));
    assert!(encode_lw(1, 2, -2048).is_ok());
    assert!(encode_lw(1, 2, 2047).is_ok());
    assert_eq!(encode_lw(1, 2, -2049), Err(IsaError::ImmOutOfRange));
    assert_eq!(encode_lw(1, 2, 2048), Err(IsaError::ImmOutOfRange));
    assert!(encode_sw(1, 2, -2048).is_ok());
    assert!(encode_sw(1, 2, 2047).is_ok());
    assert_eq!(encode_sw(1, 2, -2049), Err(IsaError::ImmOutOfRange));
    assert_eq!(encode_sw(1, 2, 2048), Err(IsaError::ImmOutOfRange));
}

#[test]
fn branch_bounds() {
    assert!(encode_beq(1, 2, -4096).is_ok());
    assert!(encode_beq(1, 2, 4094).is_ok());
    assert_eq!(encode_beq(1, 2, -4098), Err(IsaError::ImmOutOfRange));
    assert_eq!(encode_beq(1, 2, 4096), Err(IsaError::ImmOutOfRange));
    assert_eq!(encode_beq(1, 2, -4097), Err(IsaError::ImmOutOfRange));
    assert_eq!(encode_beq(1, 2, 4095), Err(IsaError::ImmOutOfRange));
}

#[test]
fn upper_immediate_bounds() {
    assert!(encode_lui(1, -524288).is_ok());
    assert!(encode_lui(1, 524287).is_ok());
    assert_eq!(encode_lui(1, -524289), Err(IsaError::ImmOutOfRange));
    assert_eq!(encode_lui(1, 524288), Err(IsaError::ImmOutOfRange));
    assert!(encode_auipc(1, -524288).is_ok());
    assert!(encode_auipc(1, 524287).is_ok());
    assert_eq!(encode_auipc(1, -524289), Err(IsaError::ImmOutOfRange));
    assert_eq!(encode_auipc(1, 524288), Err(IsaError::ImmOutOfRange));
}

#[test]
fn jump_bounds() {
    assert!(encode_jal(1, -1048576).is_ok());
    assert!(encode_jal(1, 1048574).is_ok());
    assert_eq!(encode_jal(1, -1048578), Err(IsaError::ImmOutOfRange));
    assert_eq!(encode_jal(1, 1048576), Err(IsaError::ImmOutOfRange));
    assert_eq!(encode_jal(1, -1048577), Err(IsaError::ImmOutOfRange));
    assert_eq!(encode_jal(1, 1048575), Err(IsaError::ImmOutOfRange));
}

#[test]
fn extreme_immediates_are_refused() {
    assert_eq!(encode_addi(1, 2, i32::MAX), Err(IsaError::ImmOutOfRange));
    assert_eq!(encode_addi(1, 2, i32::MIN), Err(IsaError::ImmOutOfRange));
    assert_eq!(encode_beq(1, 2, i32::MIN), Err(IsaError::ImmOutOfRange));
    assert_eq!(encode_beq(1, 2, i32::MAX), Err(IsaError::ImmOutOfRange));
    assert_eq!(encode_lui(1, i32::MAX), Err(IsaError::ImmOutOfRange));
    assert_eq!(encode_jal(1, i32::MIN), Err(IsaError::ImmOutOfRange));
    assert_eq!(encode_jal(1, i32::MAX), Err(IsaError::ImmOutOfRange));
}

#[test]
fn odd_offsets_are_refused_whatever_their_size() {
    assert_eq!(encode_beq(1, 2, 3), Err(IsaError::ImmOutOfRange));
    assert_eq!(encode_beq(1, 2, 1), Err(IsaError::ImmOutOfRange));
    assert_eq!(encode_beq(1, 2, -1), Err(IsaError::ImmOutOfRange));
    assert_eq!(encode_beq(1, 2, -4095), Err(IsaError::ImmOutOfRange));
    assert_eq!(encode_jal(1, 4095), Err(IsaError::ImmOutOfRange));
    assert_eq!(encode_jal(1, 1), Err(IsaError::ImmOutOfRange));
    assert_eq!(encode_jal(1, -1), Err(IsaError::ImmOutOfRange));
    assert_eq!(encode_jal(1, -1048575), Err(IsaError::ImmOutOfRange));
    assert!(encode_beq(1, 2, 8).is_ok());
    assert!(encode_jal(1, 4094).is_ok());
}
