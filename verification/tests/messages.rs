use wasmrs::Error;
use wasmrs::binary::leb128::DecodeError;
use wasmrs::binary::module::MalformedError;
use wasmrs::binary::reader::{InvalidEnumValueError, ReadError, ReadErrorKind, VecReadError};
use wasmrs::binary::sections::{SectionErrorKind, SectionId, SectionInfo};
use wasmrs::binary::types::{LimitReadError, RefType};
use wasmrs::runtime::store::FuncAddr;
use wasmrs::runtime::value::Ref;
use wasmrs::runtime::{RuntimeErrorKind, TrapErrorKind, UnlinkableError};
use wasmrs::validation::ValidationError;

fn read_error(kind: ReadErrorKind, offset: usize) -> ReadError {
    ReadError::at_offset(kind, offset)
}

#[test]
fn test_read_error_messages() {
    assert_eq!(read_error(ReadErrorKind::Decode(DecodeError::UnexpectedEnd), 3).to_string(), "decoding byte at offset 3");
    assert_eq!(read_error(ReadErrorKind::Read, 0).to_string(), "reading byte at offset 0");
    assert_eq!(
        read_error(ReadErrorKind::ReadExact { len: 4 }, 10).to_string(),
        "reading 4 bytes starting at offset 10"
    );
    let invalid: InvalidEnumValueError = SectionId::try_from(0x42).unwrap_err();
    assert_eq!(
        read_error(ReadErrorKind::InvalidEnumValue(invalid), 26).to_string(),
        "converting value at offset 0x1a (26), into an enum"
    );
    assert_eq!(
        read_error(ReadErrorKind::OutOfRange { size: 5, remaining: 2 }, 0).to_string(),
        "requested 5 bytes, only 2 available"
    );
    assert_eq!(
        read_error(ReadErrorKind::UnexpectedValue { value: 97, expected: "96" }, 8).to_string(),
        "value at offset 8, expected 96, got 97 instead"
    );
    assert_eq!(
        read_error(ReadErrorKind::FromUtf8, 1).to_string(),
        "converting byte sequence starting at offset 1 to utf8 string"
    );
    assert_eq!(read_error(ReadErrorKind::BadMagic, 0).to_string(), "bad magic");
    assert_eq!(read_error(ReadErrorKind::BadVersion, 4).to_string(), "bad version");
}

#[test]
fn test_invalid_enum_value_message() {
    let e = SectionId::try_from(0x0d).unwrap_err();
    assert_eq!(e.to_string(), "0xd is not a valid value for wasmrs::binary::sections::SectionId");
}

#[test]
fn test_vec_read_error_messages() {
    let count: VecReadError<ReadError> = VecReadError::Count(read_error(ReadErrorKind::Read, 0));
    assert_eq!(count.to_string(), "reading the vector element count");
    let element: VecReadError<ReadError> =
        VecReadError::Element { index: 12, source: read_error(ReadErrorKind::Read, 0) };
    assert_eq!(element.to_string(), "reading element at 12");
}

#[test]
fn test_section_messages() {
    assert_eq!(SectionId::Custom.to_string(), "Custom(0)");
    assert_eq!(SectionId::Code.to_string(), "Code(10)");
    assert_eq!(SectionId::DataCount.to_string(), "Data Count(12)");
    assert_eq!(
        SectionErrorKind::SectionSizeMismatch { end: 16, expected: 18 }.to_string(),
        "section size mismatch, content ended at 0x10 (16), expected end: 0x12 (18)"
    );
    assert_eq!(
        SectionErrorKind::EntryCount(read_error(ReadErrorKind::Read, 0)).to_string(),
        "reading the entry count"
    );
}

#[test]
fn test_malformed_messages() {
    let other = SectionInfo { id: SectionId::Type, offset: 8, start: 10, end: 14, size: 4 };
    let dup = MalformedError::DuplicateSection { offset: 20, id: SectionId::Type, other };
    assert_eq!(
        dup.to_string(),
        "duplicate section: Type(1) section at offset 0x14 (20), previously seen at offset 0x8 (8)"
    );
    let order = MalformedError::SectionOrder { offset: 20, id: SectionId::Type, other: SectionInfo { id: SectionId::Code, ..other } };
    assert_eq!(
        order.to_string(),
        "section out of order: Type(1) section at offset 0x14 (20), appears after Code(10) at offset 0x8 (8)"
    );
    assert_eq!(
        MalformedError::SectionRequired { section: SectionId::Code }.to_string(),
        "section required: Code(10)"
    );
    assert_eq!(
        MalformedError::InconsistentLength { section: SectionId::Function, other: SectionId::Code }.to_string(),
        "inconsistent section lenght, Function(3) and Code(10)"
    );
    let e = Error::Malformed(MalformedError::Preamble(read_error(ReadErrorKind::BadMagic, 0)));
    assert_eq!(e.to_string(), "malformed module: invalid module preamble");
}

#[test]
fn test_error_messages() {
    assert_eq!(Error::Invalid(ValidationError::TypeMismatch).to_string(), "invalid module: type mismatch");
    assert_eq!(
        Error::Unlinkable(UnlinkableError::UnknownImport).to_string(),
        "unlinkable module: unknown import"
    );
    assert_eq!(
        Error::Trap(RuntimeErrorKind::Trap(TrapErrorKind::DivisionByZero)).to_string(),
        "trap: trap: division by zero"
    );
    assert_eq!(RuntimeErrorKind::Internal("undefined global").to_string(), "internal: undefined global");
    assert_eq!(ValidationError::InvalidSelectTypes.to_string(), "select types must have exactly one entry");
    assert_eq!(LimitReadError::Max(read_error(ReadErrorKind::Read, 0)).to_string(), "reading the limit max");
}

#[test]
fn test_ref_messages() {
    assert_eq!(Ref::Null(RefType::Extern).to_string(), "externref(null)");
    assert_eq!(Ref::Func(FuncAddr(3)).to_string(), "funcref(3)");
    assert_eq!(Ref::Extern(42).to_string(), "externref(42)");
    assert_eq!(FuncAddr(17).to_string(), "17");
}
