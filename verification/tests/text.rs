use wasmrs::text::{decimal, hex, signed_decimal};

#[test]
fn test_decimal() {
    assert_eq!(decimal(0), "0");
    assert_eq!(decimal(7), "7");
    assert_eq!(decimal(10), "10");
    assert_eq!(decimal(1234), "1234");
    assert_eq!(decimal(u64::MAX), u64::MAX.to_string());
}

#[test]
fn test_hex() {
    assert_eq!(hex(0), "0x0");
    assert_eq!(hex(255), "0xff");
    assert_eq!(hex(0x1_0000), "0x10000");
    assert_eq!(hex(u64::MAX), format!("{:#0x}", u64::MAX));
}

#[test]
fn test_signed_decimal() {
    assert_eq!(signed_decimal(0), "0");
    assert_eq!(signed_decimal(-5), "-5");
    assert_eq!(signed_decimal(96), "96");
    assert_eq!(signed_decimal(i64::MIN), i64::MIN.to_string());
    assert_eq!(signed_decimal(i64::MAX), i64::MAX.to_string());
}
