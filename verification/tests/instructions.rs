use wasmrs::binary::reader::Reader;
use wasmrs::binary::types::{BlockType, ValType};
use wasmrs::instructions::{Instruction, decode_instruction};

#[test]
fn test_decode_control_flow() {
    // Nop
    let mut reader = Reader::from_bytes(&[0x01], 0);
    assert_eq!(decode_instruction(&mut reader).unwrap(), Instruction::Nop);

    // Else
    let mut reader = Reader::from_bytes(&[0x05], 0);
    assert_eq!(decode_instruction(&mut reader).unwrap(), Instruction::Else);

    // End
    let mut reader = Reader::from_bytes(&[0x0b], 0);
    assert_eq!(decode_instruction(&mut reader).unwrap(), Instruction::End);

    // If with i32 block type
    let mut reader = Reader::from_bytes(&[0x04, 0x7f], 0);
    assert_eq!(
        decode_instruction(&mut reader).unwrap(),
        Instruction::If(BlockType::Value(ValType::I32))
    );
}

#[test]
fn test_decode_i32_arithmetic() {
    let cases: &[(u8, Instruction)] = &[
        (0x6a, Instruction::I32Add),
        (0x6b, Instruction::I32Sub),
        (0x6c, Instruction::I32Mul),
        (0x6d, Instruction::I32DivS),
        (0x6e, Instruction::I32DivU),
        (0x6f, Instruction::I32RemS),
        (0x70, Instruction::I32RemU),
    ];

    for (opcode, expected) in cases {
        let bytes = [*opcode];
        let mut reader = Reader::from_bytes(&bytes, 0);
        assert_eq!(decode_instruction(&mut reader).unwrap(), *expected);
    }
}

#[test]
fn test_decode_i32_bitwise() {
    let cases: &[(u8, Instruction)] = &[
        (0x71, Instruction::I32And),
        (0x72, Instruction::I32Or),
        (0x73, Instruction::I32Xor),
        (0x74, Instruction::I32Shl),
        (0x75, Instruction::I32ShrS),
        (0x76, Instruction::I32ShrU),
        (0x77, Instruction::I32Rotl),
        (0x78, Instruction::I32Rotr),
    ];

    for (opcode, expected) in cases {
        let bytes = [*opcode];
        let mut reader = Reader::from_bytes(&bytes, 0);
        assert_eq!(decode_instruction(&mut reader).unwrap(), *expected);
    }
}

#[test]
fn test_decode_i32_comparison() {
    let cases: &[(u8, Instruction)] = &[
        (0x45, Instruction::I32Eqz),
        (0x46, Instruction::I32Eq),
        (0x47, Instruction::I32Ne),
        (0x48, Instruction::I32LtS),
        (0x49, Instruction::I32LtU),
        (0x4a, Instruction::I32GtS),
        (0x4b, Instruction::I32GtU),
        (0x4c, Instruction::I32LeS),
        (0x4d, Instruction::I32LeU),
        (0x4e, Instruction::I32GeS),
        (0x4f, Instruction::I32GeU),
    ];

    for (opcode, expected) in cases {
        let bytes = [*opcode];
        let mut reader = Reader::from_bytes(&bytes, 0);
        assert_eq!(decode_instruction(&mut reader).unwrap(), *expected);
    }
}

#[test]
fn test_decode_i32_unary() {
    let cases: &[(u8, Instruction)] = &[
        (0x67, Instruction::I32Clz),
        (0x68, Instruction::I32Ctz),
        (0x69, Instruction::I32Popcnt),
    ];

    for (opcode, expected) in cases {
        let bytes = [*opcode];
        let mut reader = Reader::from_bytes(&bytes, 0);
        assert_eq!(decode_instruction(&mut reader).unwrap(), *expected);
    }
}

#[test]
fn test_decode_i32_sign_extend() {
    let cases: &[(u8, Instruction)] = &[
        (0xc0, Instruction::I32Extend8S),
        (0xc1, Instruction::I32Extend16S),
    ];

    for (opcode, expected) in cases {
        let bytes = [*opcode];
        let mut reader = Reader::from_bytes(&bytes, 0);
        assert_eq!(decode_instruction(&mut reader).unwrap(), *expected);
    }
}

#[test]
fn test_decode_local_ops() {
    // LocalGet
    let mut reader = Reader::from_bytes(&[0x20, 0x00], 0);
    assert_eq!(
        decode_instruction(&mut reader).unwrap(),
        Instruction::LocalGet(0)
    );
    let mut reader = Reader::from_bytes(&[0x20, 0x05], 0);
    assert_eq!(
        decode_instruction(&mut reader).unwrap(),
        Instruction::LocalGet(5)
    );

    // LocalSet
    let mut reader = Reader::from_bytes(&[0x21, 0x01], 0);
    assert_eq!(
        decode_instruction(&mut reader).unwrap(),
        Instruction::LocalSet(1)
    );

    // LocalTee
    let mut reader = Reader::from_bytes(&[0x22, 0x02], 0);
    assert_eq!(
        decode_instruction(&mut reader).unwrap(),
        Instruction::LocalTee(2)
    );
}

#[test]
fn test_decode_call() {
    let mut reader = Reader::from_bytes(&[0x10, 0x00], 0);
    assert_eq!(
        decode_instruction(&mut reader).unwrap(),
        Instruction::Call(0)
    );

    let mut reader = Reader::from_bytes(&[0x10, 0x0a], 0);
    assert_eq!(
        decode_instruction(&mut reader).unwrap(),
        Instruction::Call(10)
    );
}

#[test]
fn test_decode_const() {
    // I32Const
    let mut reader = Reader::from_bytes(&[0x41, 0x00], 0);
    assert_eq!(
        decode_instruction(&mut reader).unwrap(),
        Instruction::I32Const(0)
    );

    let mut reader = Reader::from_bytes(&[0x41, 0x2a], 0);
    assert_eq!(
        decode_instruction(&mut reader).unwrap(),
        Instruction::I32Const(42)
    );

    let mut reader = Reader::from_bytes(&[0x41, 0x7f], 0);
    assert_eq!(
        decode_instruction(&mut reader).unwrap(),
        Instruction::I32Const(-1)
    );

    // I64Const
    let mut reader = Reader::from_bytes(&[0x42, 0x00], 0);
    assert_eq!(
        decode_instruction(&mut reader).unwrap(),
        Instruction::I64Const(0)
    );

    // 100 in signed LEB128 needs two bytes to avoid sign extension
    let mut reader = Reader::from_bytes(&[0x42, 0xe4, 0x00], 0);
    assert_eq!(
        decode_instruction(&mut reader).unwrap(),
        Instruction::I64Const(100)
    );
}

#[test]
fn test_decode_prefix_single_byte() {
    // i32_trunc_sat_f32_s: 0xfc 0x00
    let mut reader = Reader::from_bytes(&[0xfc, 0x00], 0);
    assert_eq!(
        decode_instruction(&mut reader).unwrap(),
        Instruction::I32TruncSatF32S
    );

    // i64_trunc_sat_f64_u: 0xfc 0x07
    let mut reader = Reader::from_bytes(&[0xfc, 0x07], 0);
    assert_eq!(
        decode_instruction(&mut reader).unwrap(),
        Instruction::I64TruncSatF64U
    );
}

#[test]
fn test_decode_prefix_multi_byte_leb128() {
    // Sub-opcode 7 encoded as 2-byte LEB128: 0x87 0x00
    let mut reader = Reader::from_bytes(&[0xfc, 0x87, 0x00], 0);
    assert_eq!(
        decode_instruction(&mut reader).unwrap(),
        Instruction::I64TruncSatF64U
    );

    // Sub-opcode 0 encoded as 2-byte LEB128: 0x80 0x00
    let mut reader = Reader::from_bytes(&[0xfc, 0x80, 0x00], 0);
    assert_eq!(
        decode_instruction(&mut reader).unwrap(),
        Instruction::I32TruncSatF32S
    );

    // Sub-opcode 7 encoded as 5-byte LEB128 (max for u32): 0x87 0x80 0x80 0x80 0x00
    let mut reader = Reader::from_bytes(&[0xfc, 0x87, 0x80, 0x80, 0x80, 0x00], 0);
    assert_eq!(
        decode_instruction(&mut reader).unwrap(),
        Instruction::I64TruncSatF64U
    );
}

#[test]
fn test_decode_prefix_too_long_leb128() {
    // Sub-opcode encoded as 6 bytes (exceeds u32 LEB128 max of 5)
    let mut reader = Reader::from_bytes(&[0xfc, 0x87, 0x80, 0x80, 0x80, 0x80, 0x00], 0);
    assert!(decode_instruction(&mut reader).is_err());
}

#[test]
fn test_decode_invalid_opcode() {
    let mut reader = Reader::from_bytes(&[0xff], 0);
    assert!(decode_instruction(&mut reader).is_err());
}

#[test]
fn test_decode_truncated_argument() {
    // i32.const without argument
    let mut reader = Reader::from_bytes(&[0x41], 0);
    assert!(decode_instruction(&mut reader).is_err());

    // local.get without index
    let mut reader = Reader::from_bytes(&[0x20], 0);
    assert!(decode_instruction(&mut reader).is_err());
}
