use wasmrs::binary::module::decode_bytes;
use wasmrs::validation::{ValidationError, validate_module};

#[test]
fn test_type_unary_operand_empty() {
    // (func (i32.eqz) (drop))
    let bytes = [
        b"\x00asm\x01\x00\x00\x00" as &[u8],
        b"\x01\x04\x01\x60\x00\x00",
        b"\x03\x02\x01\x00",
        b"\x0a\x06\x01\x04\x00\x45\x1a\x0b",
    ]
    .concat();
    let m = decode_bytes(bytes).unwrap();
    let result = validate_module(&m);
    assert!(
        result.is_err(),
        "expected validation error, got: {:?}",
        result
    );
}

#[test]
fn test_type_unary_operand_empty_in_block() {
    // (func (i32.const 0) (block (i32.eqz) (drop)))
    let bytes = [
        b"\x00asm\x01\x00\x00\x00" as &[u8],
        b"\x01\x04\x01\x60\x00\x00",
        b"\x03\x02\x01\x00",
        b"\x0a\x0b\x01\x09\x00\x41\x00\x02\x40\x45\x1a\x0b\x0b",
    ]
    .concat();
    let m = decode_bytes(bytes).unwrap();
    let result = validate_module(&m);
    assert!(
        result.is_err(),
        "expected validation error, got: {:?}",
        result
    );
}

#[test]
fn test_type_unary_operand_empty_in_loop() {
    // (func (i32.const 0) (loop (i32.eqz) (drop)))
    let bytes = [
        b"\x00asm\x01\x00\x00\x00" as &[u8],
        b"\x01\x04\x01\x60\x00\x00",
        b"\x03\x02\x01\x00",
        b"\x0a\x0b\x01\x09\x00\x41\x00\x03\x40\x45\x1a\x0b\x0b",
    ]
    .concat();
    let m = decode_bytes(bytes).unwrap();
    let result = validate_module(&m);
    assert!(
        result.is_err(),
        "expected validation error, got: {:?}",
        result
    );
}

#[test]
fn test_type_unary_operand_empty_in_if() {
    // (func (i32.const 0) (i32.const 0) (if (then (i32.eqz) (drop))))
    let bytes = [
        b"\x00asm\x01\x00\x00\x00" as &[u8],
        b"\x01\x04\x01\x60\x00\x00",
        b"\x03\x02\x01\x00",
        b"\x0a\x0d\x01\x0b\x00\x41\x00\x41\x00\x04\x40\x45\x1a\x0b\x0b",
    ]
    .concat();
    let m = decode_bytes(bytes).unwrap();
    let result = validate_module(&m);
    assert!(
        result.is_err(),
        "expected validation error, got: {:?}",
        result
    );
}

#[test]
fn test_type_unary_operand_empty_in_else() {
    // (func (i32.const 0) (i32.const 0) (if (result i32) (then (i32.const 0)) (else (i32.eqz))) (drop))
    let bytes = [
        b"\x00asm\x01\x00\x00\x00" as &[u8],
        b"\x01\x04\x01\x60\x00\x00",
        b"\x03\x02\x01\x00",
        b"\x0a\x10\x01\x0e\x00\x41\x00\x41\x00\x04\x7f\x41\x00\x05\x45\x0b\x1a\x0b",
    ]
    .concat();
    let m = decode_bytes(bytes).unwrap();
    let result = validate_module(&m);
    assert!(
        result.is_err(),
        "expected validation error, got: {:?}",
        result
    );
}

#[test]
fn test_type_unary_operand_empty_in_br() {
    // (func (i32.const 0) (block (br 0 (i32.eqz)) (drop)))
    let bytes = [
        b"\x00asm\x01\x00\x00\x00" as &[u8],
        b"\x01\x04\x01\x60\x00\x00",
        b"\x03\x02\x01\x00",
        b"\x0a\x0d\x01\x0b\x00\x41\x00\x02\x40\x45\x0c\x00\x1a\x0b\x0b",
    ]
    .concat();
    let m = decode_bytes(bytes).unwrap();
    let result = validate_module(&m);
    assert!(
        result.is_err(),
        "expected validation error, got: {:?}",
        result
    );
}

#[test]
fn test_type_unary_operand_empty_in_br_if() {
    // (func (i32.const 0) (block (br_if 0 (i32.eqz) (i32.const 1)) (drop)))
    let bytes = [
        b"\x00asm\x01\x00\x00\x00" as &[u8],
        b"\x01\x04\x01\x60\x00\x00",
        b"\x03\x02\x01\x00",
        b"\x0a\x0f\x01\x0d\x00\x41\x00\x02\x40\x45\x41\x01\x0d\x00\x1a\x0b\x0b",
    ]
    .concat();
    let m = decode_bytes(bytes).unwrap();
    let result = validate_module(&m);
    assert!(
        result.is_err(),
        "expected validation error, got: {:?}",
        result
    );
}

#[test]
fn test_type_unary_operand_empty_in_br_table() {
    // (func (i32.const 0) (block (br_table 0 (i32.eqz)) (drop)))
    let bytes = [
        b"\x00asm\x01\x00\x00\x00" as &[u8],
        b"\x01\x04\x01\x60\x00\x00",
        b"\x03\x02\x01\x00",
        b"\x0a\x0e\x01\x0c\x00\x41\x00\x02\x40\x45\x0e\x00\x00\x1a\x0b\x0b",
    ]
    .concat();
    let m = decode_bytes(bytes).unwrap();
    let result = validate_module(&m);
    assert!(
        result.is_err(),
        "expected validation error, got: {:?}",
        result
    );
}

#[test]
fn test_type_unary_operand_empty_in_return() {
    // (func (return (i32.eqz)) (drop))
    let bytes = [
        b"\x00asm\x01\x00\x00\x00" as &[u8],
        b"\x01\x04\x01\x60\x00\x00",
        b"\x03\x02\x01\x00",
        b"\x0a\x07\x01\x05\x00\x45\x0f\x1a\x0b",
    ]
    .concat();
    let m = decode_bytes(bytes).unwrap();
    let result = validate_module(&m);
    assert!(
        result.is_err(),
        "expected validation error, got: {:?}",
        result
    );
}

#[test]
fn test_br_if_unbound_label() {
    // (module (func $unbound-label (br_if 1 (i32.const 1))))
    let bytes = [
        b"\x00asm\x01\x00\x00\x00" as &[u8],
        // type section: 1 type, () -> ()
        b"\x01\x04\x01\x60\x00\x00",
        // function section: 1 func, type 0
        b"\x03\x02\x01\x00",
        // code section: i32.const 1, br_if 1, end
        b"\x0a\x08\x01\x06\x00\x41\x01\x0d\x01\x0b",
    ]
    .concat();
    let m = decode_bytes(bytes).unwrap();
    let result = validate_module(&m);
    assert!(
        result.is_err(),
        "expected validation error, got: {:?}",
        result
    );
}

#[test]
fn test_type_unary_operand_empty_in_select() {
    // (func (select (i32.eqz) (i32.const 1) (i32.const 2)) (drop))
    let bytes = [
        b"\x00asm\x01\x00\x00\x00" as &[u8],
        b"\x01\x04\x01\x60\x00\x00",
        b"\x03\x02\x01\x00",
        b"\x0a\x0b\x01\x09\x00\x45\x41\x01\x41\x02\x1b\x1a\x0b",
    ]
    .concat();
    let m = decode_bytes(bytes).unwrap();
    let result = validate_module(&m);
    assert!(
        result.is_err(),
        "expected validation error, got: {:?}",
        result
    );
}

#[test]
fn test_mem_alignment_limits() {
    // (memory 1) (func (i32.load align=2^k (i32.const 0)) drop)
    let natural = b"\x00\x61\x73\x6d\x01\x00\x00\x00\x01\x04\x01\x60\x00\x00\x03\x02\x01\x00\x05\x03\x01\x00\x01\x0a\x0a\x01\x08\x00\x41\x00\x28\x02\x00\x1a\x0b";
    let over = b"\x00\x61\x73\x6d\x01\x00\x00\x00\x01\x04\x01\x60\x00\x00\x03\x02\x01\x00\x05\x03\x01\x00\x01\x0a\x0a\x01\x08\x00\x41\x00\x28\x03\x00\x1a\x0b";
    let huge = b"\x00\x61\x73\x6d\x01\x00\x00\x00\x01\x04\x01\x60\x00\x00\x03\x02\x01\x00\x05\x03\x01\x00\x01\x0a\x0a\x01\x08\x00\x41\x00\x28\x20\x00\x1a\x0b";
    assert!(validate_module(&decode_bytes(natural.to_vec()).unwrap()).is_ok());
    assert!(matches!(
        validate_module(&decode_bytes(over.to_vec()).unwrap()),
        Err(ValidationError::InvalidMemAlignment)
    ));
    assert!(matches!(
        validate_module(&decode_bytes(huge.to_vec()).unwrap()),
        Err(ValidationError::InvalidMemAlignment)
    ));
}

#[test]
fn test_value_before_block_is_not_an_operand() {
    // (func (block BODY)) against (func (i32.const 0) (block BODY) (drop)),
    // with BODY = (i32.const 1) (drop), then BODY = (i32.eqz) (drop).
    let plain = decode_bytes(b"\x00\x61\x73\x6d\x01\x00\x00\x00\x01\x04\x01\x60\x00\x00\x03\x02\x01\x00\x0a\x0a\x01\x08\x00\x02\x40\x41\x01\x1a\x0b\x0b".to_vec()).unwrap();
    let pushed = decode_bytes(b"\x00\x61\x73\x6d\x01\x00\x00\x00\x01\x04\x01\x60\x00\x00\x03\x02\x01\x00\x0a\x0d\x01\x0b\x00\x41\x00\x02\x40\x41\x01\x1a\x0b\x1a\x0b".to_vec()).unwrap();
    assert_eq!(validate_module(&plain).is_ok(), validate_module(&pushed).is_ok());
    assert_eq!(validate_module(&plain).is_ok(), true);
    let plain = decode_bytes(b"\x00\x61\x73\x6d\x01\x00\x00\x00\x01\x04\x01\x60\x00\x00\x03\x02\x01\x00\x0a\x09\x01\x07\x00\x02\x40\x45\x1a\x0b\x0b".to_vec()).unwrap();
    let pushed = decode_bytes(b"\x00\x61\x73\x6d\x01\x00\x00\x00\x01\x04\x01\x60\x00\x00\x03\x02\x01\x00\x0a\x0c\x01\x0a\x00\x41\x00\x02\x40\x45\x1a\x0b\x1a\x0b".to_vec()).unwrap();
    assert_eq!(validate_module(&plain).is_ok(), validate_module(&pushed).is_ok());
    assert_eq!(validate_module(&plain).is_ok(), false);
}
