use wasmrs::binary::module::decode_bytes;

#[test]
fn test_decode_minimal_module() {
    let bytes = b"\0asm\x01\x00\x00\x00".to_vec();

    let _ = decode_bytes(bytes).unwrap();
}

#[test]
fn test_invalid_section_id() {
    let bytes = [
        b"\0asm\x01\x00\x00\x00" as &[u8],
        b"\x0f\x06",
        b"\x01\x60\x01\x7f\x01\x7f",
    ]
    .concat();

    let m = decode_bytes(bytes);
    assert!(m.is_err());
}

#[test]
fn test_decode_type_section() {
    let bytes = [
        b"\0asm\x01\x00\x00\x00" as &[u8],
        b"\x01\x06",                 // Type section(1), 6 bytes
        b"\x01\x60\x01\x7f\x01\x7f", // 1 function, (i32) -> i32
    ]
    .concat();

    let m = decode_bytes(bytes).unwrap();
    assert!(m.types.is_some());
    assert_eq!(m.types.unwrap().len(), 1);
}

#[test]
fn test_decode_table_section() {
    // Func Ref, Limit Min only
    let bytes = [
        b"\0asm\x01\x00\x00\x00" as &[u8],
        b"\x04\x04\x01", // Table Section(4), 6 bytes, 1 entry
        b"\x70\x00\x01", // fucn ref, limit min only
    ]
    .concat();

    let m = decode_bytes(bytes).unwrap();
    assert!(m.tables.is_some());
    assert_eq!(m.tables.unwrap().len(), 1);

    // Extern Ref, Limit Min Max
    let bytes = [
        b"\0asm\x01\x00\x00\x00" as &[u8],
        b"\x04\x05\x01",     // Table Section(4), 6 bytes, 1 entry
        b"\x6f\x01\x01\x02", // extern ref, limit min max
    ]
    .concat();

    let m = decode_bytes(bytes).unwrap();
    assert!(m.tables.is_some());
    assert_eq!(m.tables.unwrap().len(), 1);
}

#[test]
fn test_decode_memory_section() {
    // One MemType, Min Only
    let bytes = [
        b"\0asm\x01\x00\x00\x00" as &[u8],
        b"\x05\x03\x01", // Memory Section(5), one entry
        b"\x00\x01",     // Min
    ]
    .concat();

    let m = decode_bytes(bytes).unwrap();
    assert!(m.memories.is_some());
    assert_eq!(m.memories.unwrap().len(), 1);

    // One MemType, Min Max
    let bytes = [
        b"\0asm\x01\x00\x00\x00" as &[u8],
        b"\x05\x04\x01", // Memory Section(5), one entry
        b"\x01\x01\x02", // Min Max
    ]
    .concat();

    let m = decode_bytes(bytes).unwrap();
    assert!(m.memories.is_some());
    assert_eq!(m.memories.unwrap().len(), 1);
}

#[test]
fn test_invalid_memory_section() {
    let bytes = [
        b"\0asm\x01\x00\x00\x00" as &[u8],
        b"\x05\x03\x01", // Memory Section(5), one entry
        b"\x02\x01",     // Invalid Flag
    ]
    .concat();

    let m = decode_bytes(bytes);
    assert!(m.is_err());
}

#[test]
fn test_decode_global_section() {
    let bytes = [
        b"\0asm\x01\x00\x00\x00" as &[u8],
        b"\x06\x06\x01", // Global Section(6), one entry
        b"\x7f\x00\x41\x00\x0b",
    ]
    .concat();
    let m = decode_bytes(bytes).unwrap();
    assert!(m.globals.is_some());
    assert_eq!(m.globals.unwrap().len(), 1);
}

#[test]
fn test_decode_start_section() {
    let bytes = [
        b"\0asm\x01\x00\x00\x00" as &[u8],
        b"\x08\x01\x00", // Start Section(8), index 0
    ]
    .concat();

    let m = decode_bytes(bytes).unwrap();
    assert!(m.start.is_some());
    assert_eq!(m.start.unwrap().0, 0);
}

#[test]
fn test_decode_data_count_section() {
    let bytes = [
        b"\0asm\x01\x00\x00\x00" as &[u8],
        b"\x0c\x01\x02", // Data Count section(12), u32(1)
        b"\x0b\x05\x02", // Data Section(11), 2 entries
        b"\x01\x00",
        b"\x01\x00",
    ]
    .concat();

    let m = decode_bytes(bytes).unwrap();
    assert!(m.data_count.is_some());
    assert_eq!(m.data_count.unwrap().0, 2);
}

#[test]
fn test_decode_data_section() {
    // Test passive data segments (flag 0x01)
    let bytes = [
        b"\0asm\x01\x00\x00\x00" as &[u8],
        b"\x0b\x05\x02", // Data section(11), two entries
        b"\x01\x00",     // passive, empty data
        b"\x01\x00",     // passive, empty data
    ]
    .concat();

    let m = decode_bytes(bytes).unwrap();
    assert!(m.data.is_some());
    assert_eq!(m.data.unwrap().len(), 2);

    // Test active data segment with implicit mem_index 0 (flag 0x00)
    let bytes = [
        b"\0asm\x01\x00\x00\x00" as &[u8],
        b"\x0b\x09\x01",     // Data section(11), size 9, one entry
        b"\x00",             // flag 0x00: active, implicit mem_index 0
        b"\x41\x00\x0b",     // offset expr: i32.const 0, end
        b"\x03\x01\x02\x03", // data: length 3, bytes [1, 2, 3]
    ]
    .concat();

    let m = decode_bytes(bytes).unwrap();
    assert!(m.data.is_some());
    let data = m.data.unwrap();
    assert_eq!(data.len(), 1);
    assert_eq!(data[0].data, vec![1, 2, 3]);

    // Test active data segment with explicit mem_index (flag 0x02)
    let bytes = [
        b"\0asm\x01\x00\x00\x00" as &[u8],
        b"\x0b\x09\x01", // Data section(11), size 9, one entry
        b"\x02",         // flag 0x02: active, explicit mem_index
        b"\x01",         // mem_index: 1
        b"\x41\x10\x0b", // offset expr: i32.const 16, end
        b"\x02\xaa\xbb", // data: length 2, bytes [0xAA, 0xBB]
    ]
    .concat();

    let m = decode_bytes(bytes).unwrap();
    assert!(m.data.is_some());
    let data = m.data.unwrap();
    assert_eq!(data.len(), 1);
    assert_eq!(data[0].data, vec![0xaa, 0xbb]);
}

#[test]
fn test_invalid_leb128_encoding() {
    let bytes = [
        b"\0asm\x01\x00\x00\x00" as &[u8],
        b"\x05\x0d\x01", // Memory Section(5), one entry
        b"\x00\x82\x80\x80\x80\x80\x80\x80\x80\x80\x80\x00", // Minimum 2, too many bytes
    ]
    .concat();

    let m = decode_bytes(bytes);
    assert!(m.is_err());
}

#[test]
fn test_duplicate_section() {
    let bytes = [
        b"\0asm\x01\x00\x00\x00" as &[u8],
        b"\x01\x01\x00",
        b"\x01\x01\x00", // Duplicate Type section
    ]
    .concat();

    let m = decode_bytes(bytes);
    assert!(m.is_err());
}

#[test]
fn test_out_of_order_section() {
    let bytes = [
        b"\0asm\x01\x00\x00\x00" as &[u8],
        b"\x02\x01\x00", // Import Section
        b"\x01\x01\x00", // Type Section should be first
    ]
    .concat();

    let m = decode_bytes(bytes);
    assert!(m.is_err());
}

#[test]
fn test_global_section2() {
    let bytes = [
        b"\0asm\x01\x00\x00\x00" as &[u8],
        b"\x06\x07\x01",
        b"\x7e\x00",
        b"\x42\xff\x7f\x0b",
    ]
    .concat();

    let _ = decode_bytes(bytes).unwrap();
}
