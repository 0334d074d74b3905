use wasmrs::binary::leb128::{read_leb128_i32, read_leb128_u32};
use wasmrs::binary::reader::Reader;

#[test]
fn test_leb128_decode_u32() {
    let cases: &[(&[u8], u32)] = &[
        (&[0x00], 0),
        (&[0x01], 1),
        (&[0x7F], 127),
        (&[0x83, 0x00], 3),
        (&[0x80, 0x01], 128),
        (&[0xFF, 0x01], 255),
        (&[0x80, 0x02], 256),
        (&[0xE5, 0x8E, 0x26], 624485),
        (&[0xFF, 0xFF, 0xFF, 0xFF, 0x0F], u32::MAX),
        (&[0x80, 0x80, 0x80, 0x80, 0x08], 2147483648),
    ];

    for (bytes, expected) in cases {
        let mut slice = Reader::from_bytes(bytes, 0);
        let result = read_leb128_u32(&mut slice)
            .unwrap_or_else(|e| panic!("failed to decode {bytes:02X?}: {e:?}"));
        assert_eq!(result, *expected);
    }
}

#[test]
fn test_leb128_u32_overflow() {
    let cases: &[&[u8]] = &[
        &[0x80, 0x80, 0x80, 0x80, 0x10],
        &[0xFF, 0xFF, 0xFF, 0xFF, 0x1F],
        &[0x80, 0x80, 0x80, 0x80, 0x80, 0x01],
    ];

    for bytes in cases {
        let mut slice = Reader::from_bytes(bytes, 0);
        assert!(
            read_leb128_u32(&mut slice).is_err(),
            "should overflow: {bytes:02X?}"
        );
    }
}

#[test]
fn test_leb128_u32_truncated() {
    let cases: &[&[u8]] = &[&[0x80], &[0x80, 0x80]];

    for bytes in cases {
        let mut slice = Reader::from_bytes(bytes, 0);
        assert!(read_leb128_u32(&mut slice).is_err());
        assert!(read_leb128_u32(&mut slice).is_err());
    }
}

#[test]
fn test_leb128_u32_empty() {
    let mut slice = Reader::from_bytes(&[], 0);
    assert!(read_leb128_u32(&mut slice).is_err());
}

#[test]
fn test_leb128_decode_i32() {
    let cases: &[(&[u8], i32)] = &[
        (&[0x00], 0),
        (&[0x01], 1),
        (&[0x7F], -1),
        (&[0x80, 0x01], 128),
        (&[0xFF, 0x00], 127),
        (&[0x80, 0x7F], -128),
        (&[0x81, 0x7F], -127),
        (&[0xC0, 0x00], 64),
        (&[0xC0, 0x7F], -64),
        (&[0xBF, 0x7F], -65),
        (&[0xFF, 0xFF, 0xFF, 0xFF, 0x07], i32::MAX),
        (&[0x80, 0x80, 0x80, 0x80, 0x78], i32::MIN),
    ];

    for (bytes, expected) in cases {
        let mut slice = Reader::from_bytes(bytes, 0);
        let result = read_leb128_i32(&mut slice)
            .unwrap_or_else(|e| panic!("failed to decode {bytes:02X?}: {e:?}"));
        assert_eq!(result, *expected);
    }
}

#[test]
fn test_leb128_i32_overflow() {
    let cases: &[&[u8]] = &[
        &[0x80, 0x80, 0x80, 0x80, 0x08],
        &[0x80, 0x80, 0x80, 0x80, 0x70],
    ];

    for bytes in cases {
        let mut slice = Reader::from_bytes(bytes, 0);
        assert!(
            read_leb128_i32(&mut slice).is_err(),
            "should overflow: {bytes:02X?}"
        );
    }
}

#[test]
fn test_leb128_i32_truncated() {
    let mut slice = Reader::from_bytes(&[0x80], 0);
    assert!(read_leb128_i32(&mut slice).is_err());
}

#[test]
fn test_leb128_i32_empty() {
    let mut slice = Reader::from_bytes(&[], 0);
    assert!(read_leb128_i32(&mut slice).is_err());
}
