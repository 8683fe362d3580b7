use isa::{decode, Instr, IsaError};

#[test]
fn all_ones_is_no_opcode() {
    assert_eq!(decode(0xFFFF_FFFF), Err(IsaError::BadOpcode));
}

#[test]
fn zero_is_no_opcode() {
    assert_eq!(decode(0), Err(IsaError::BadOpcode));
}

#[test]
fn only_nine_opcodes_decode() {
    let known = [
        0b0110011u32,
        0b0010011,
        0b0000011,
        0b0100011,
        0b1100011,
        0b1100111,
        0b1101111,
        0b0110111,
        0b0010111,
    ];
    for op in 0u32..128 {
        let res = decode(op);
        if known.contains(&op) {
            assert_ne!(res, Err(IsaError::BadOpcode));
        } else {
            assert_eq!(res, Err(IsaError::BadOpcode));
            assert_eq!(decode(op | 0xFFFF_FF80), Err(IsaError::BadOpcode));
        }
    }
}

#[test]
fn unknown_function_bits_under_a_known_opcode() {
    // register-register: funct3 must be 0, funct7 0 or 0x20
    assert_eq!(decode(0x0000_1033), Err(IsaError::BadFunct));
    assert_eq!(decode(0x0200_0033), Err(IsaError::BadFunct));
    assert_eq!(decode(0x4000_1033), Err(IsaError::BadFunct));
    assert_eq!(decode(0xfe00_0033), Err(IsaError::BadFunct));
    // immediate arithmetic: funct3 must be 0
    assert_eq!(decode(0x0000_1013), Err(IsaError::BadFunct));
    // load: funct3 must be 2
    assert_eq!(decode(0x0000_0003), Err(IsaError::BadFunct));
    assert_eq!(decode(0x0000_1003), Err(IsaError::BadFunct));
    // store: funct3 must be 2
    assert_eq!(decode(0x0000_0023), Err(IsaError::BadFunct));
    // branch: funct3 must be 0
    assert_eq!(decode(0x0000_1063), Err(IsaError::BadFunct));
    // indirect jump: funct3 must be 0
    assert_eq!(decode(0x0000_1067), Err(IsaError::BadFunct));
}

#[test]
fn every_function_code_is_classified() {
    for f3 in 0u32..8 {
        let bits = f3 << 12;
        assert_eq!(decode(0x33 | bits).is_ok(), f3 == 0);
        assert_eq!(decode(0x13 | bits).is_ok(), f3 == 0);
        assert_eq!(decode(0x03 | bits).is_ok(), f3 == 2);
        assert_eq!(decode(0x23 | bits).is_ok(), f3 == 2);
        assert_eq!(decode(0x63 | bits).is_ok(), f3 == 0);
        assert_eq!(decode(0x67 | bits).is_ok(), f3 == 0);
        assert!(decode(0x6f | bits).is_ok());
        assert!(decode(0x37 | bits).is_ok());
        assert!(decode(0x17 | bits).is_ok());
    }
    for f7 in 0u32..128 {
        assert_eq!(decode(0x33 | (f7 << 25)).is_ok(), f7 == 0 || f7 == 0x20);
    }
}

#[test]
fn decodes_known_words() {
    assert_eq!(decode(0x0031_00b3), Ok(Instr::Add { rd: 1, rs1: 2, rs2: 3 }));
    assert_eq!(decode(0x4052_01b3), Ok(Instr::Sub { rd: 3, rs1: 4, rs2: 5 }));
    assert_eq!(decode(0xfff1_0093), Ok(Instr::Addi { rd: 1, rs1: 2, imm: -1 }));
    assert_eq!(decode(0x0083_2283), Ok(Instr::Lw { rd: 5, rs1: 6, imm: 8 }));
    assert_eq!(decode(0xff42_80e7), Ok(Instr::Jalr { rd: 1, rs1: 5, imm: -12 }));
    assert_eq!(decode(0xfe11_2e23), Ok(Instr::Sw { rs1: 2, rs2: 1, imm: -4 }));
    assert_eq!(decode(0x7e20_8fe3), Ok(Instr::Beq { rs1: 1, rs2: 2, imm: 4094 }));
    assert_eq!(decode(0x8020_8063), Ok(Instr::Beq { rs1: 1, rs2: 2, imm: -4096 }));
    assert_eq!(decode(0x1234_52b7), Ok(Instr::Lui { rd: 5, imm: 0x1234_5000 }));
    assert_eq!(decode(0x0000_1097), Ok(Instr::Auipc { rd: 1, imm: 4096 }));
    assert_eq!(decode(0x3441_20ef), Ok(Instr::Jal { rd: 1, imm: 0x12344 }));
    assert_eq!(decode(0x8000_0fef), Ok(Instr::Jal { rd: 31, imm: -1048576 }));
}

#[test]
fn decode_answers_a_sweep_of_words() {
    let mut w: u32 = 0;
    let mut n = 0u32;
    while n < 200_000 {
        let _ = decode(w);
        w = w.wrapping_mul(1_664_525).wrapping_add(1_013_904_223);
        n += 1;
    }
    let _ = decode(u32::MAX);
    let _ = decode(0x8000_0000);
}
