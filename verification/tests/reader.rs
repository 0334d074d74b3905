use wasmrs::binary::reader::Reader;
use wasmrs::binary::sections::data_count::decode_data_count_section;
use wasmrs::binary::sections::start::decode_start_section;
use wasmrs::binary::sections::{SectionId, SectionInfo, decode_section};

#[test]
fn reader_test_out_of_range() {
    let bytes = [0x83];

    let mut r = Reader::from_bytes(&bytes, 0);
    assert!(r.read_u32().is_err(), "should be out of range")
}

#[test]
fn test_read_u8_at_end_keeps_position() {
    let bytes = [0x07];
    let mut r = Reader::from_bytes(&bytes, 0);
    assert_eq!(r.read_u8().unwrap(), 0x07);
    assert_eq!(r.position(), 1);
    assert!(r.read_u8().is_err());
    assert_eq!(r.position(), 1);
}

#[test]
fn test_start_and_data_count_sections_leave_reader_after_index() {
    let info = SectionInfo { id: SectionId::Start, offset: 0, start: 0, end: 2, size: 2 };
    let bytes = [0x85, 0x01, 0xff];
    let mut r = Reader::from_bytes(&bytes, 0);
    assert_eq!(decode_start_section(&mut r, info).unwrap().0, 133);
    assert_eq!(r.position(), 2);
    let mut r = Reader::from_bytes(&bytes, 0);
    assert_eq!(decode_data_count_section(&mut r, info).unwrap().0, 133);
    assert_eq!(r.position(), 2);
    let truncated = [0x80];
    let mut r = Reader::from_bytes(&truncated, 0);
    assert!(decode_start_section(&mut r, info).is_err());
}

#[test]
fn test_decode_section_leaves_reader_at_section_end() {
    // A function section of two type indices, 0 and 1, then a stray byte.
    let bytes = [0x02, 0x00, 0x01, 0xaa];
    let info = SectionInfo { id: SectionId::Function, offset: 0, start: 0, end: 3, size: 3 };
    let mut r = Reader::from_bytes(&bytes, 0);
    let entries: Vec<u32> = decode_section(&mut r, info).unwrap();
    assert_eq!(entries, vec![0, 1]);
    assert_eq!(r.position(), 3);
    let too_big = SectionInfo { id: SectionId::Function, offset: 0, start: 0, end: 9, size: 9 };
    let mut r = Reader::from_bytes(&bytes, 0);
    assert!(decode_section::<u32>(&mut r, too_big).is_err());
    assert_eq!(r.position(), 0);
}
