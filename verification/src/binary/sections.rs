//! Sections of a module: their ids and order, their errors, and the
//! decoding of sections that are vectors of entries.
use vstd::prelude::*;
use vstd::string::*;

pub mod code;
pub mod custom;
pub mod data;
pub mod data_count;
pub mod element;
pub mod export;
pub mod function;
pub mod global;
pub mod import;
pub mod memory;
pub mod start;
pub mod table;
pub mod type_;

pub use code::CodeSection;
pub use custom::CustomSection;
pub use data::DataSection;
pub use data_count::{DataCountSection, decode_data_count_section};
pub use element::ElementSection;
pub use export::ExportSection;
pub use function::FunctionSection;
pub use global::{GlobalSection, GlobalTypeReadError};
pub use import::ImportSection;
pub use memory::{MemTypeReadError, MemorySection};
pub use start::{StartSection, decode_start_section};
pub use table::{TableSection, TableTypeReadError};
pub use type_::TypeSection;

use crate::text::{decimal, hex, spec_decimal, spec_hex};
use crate::binary::reader::{
    InvalidEnumValueError, RView, ReadError, Reader, spec_read_u32, spec_scoped, vec_view,
};
use crate::binary::sections::{
    code::CodeSectionReadError, custom::CustomSectionReadError, data::DataSectionReadError,
    element::ElementSectionReadError, export::ExportSectionReadError,
    global::GlobalSectionReadError, import::ImportSectionReadError, table::TableReadError,
    type_::TypeSectionReadError,
};

verus! {

#[derive(Debug, Clone, Copy, Hash, Eq, PartialEq, Structural)]
pub enum SectionId {
    Custom,
    Type,
    Import,
    Function,
    Table,
    Memory,
    Global,
    Export,
    Start,
    Element,
    Code,
    Data,
    DataCount,
}

impl SectionId {
    /// The text of this value.
    pub open spec fn message(&self) -> Seq<char> {
        match self {
            SectionId::Custom => "Custom(0)"@,
            SectionId::Type => "Type(1)"@,
            SectionId::Import => "Import(2)"@,
            SectionId::Function => "Function(3)"@,
            SectionId::Table => "Table(4)"@,
            SectionId::Memory => "Memory(5)"@,
            SectionId::Global => "Global(6)"@,
            SectionId::Export => "Export(7)"@,
            SectionId::Start => "Start(8)"@,
            SectionId::Element => "Element(9)"@,
            SectionId::Code => "Code(10)"@,
            SectionId::Data => "Data(11)"@,
            SectionId::DataCount => "Data Count(12)"@,
        }
    }

    /// Renders the value as text.
    pub fn to_string(&self) -> (s: String)
        ensures
            s@ == self.message(),
    {
        match self {
            SectionId::Custom => String::from_str("Custom(0)"),
            SectionId::Type => String::from_str("Type(1)"),
            SectionId::Import => String::from_str("Import(2)"),
            SectionId::Function => String::from_str("Function(3)"),
            SectionId::Table => String::from_str("Table(4)"),
            SectionId::Memory => String::from_str("Memory(5)"),
            SectionId::Global => String::from_str("Global(6)"),
            SectionId::Export => String::from_str("Export(7)"),
            SectionId::Start => String::from_str("Start(8)"),
            SectionId::Element => String::from_str("Element(9)"),
            SectionId::Code => String::from_str("Code(10)"),
            SectionId::Data => String::from_str("Data(11)"),
            SectionId::DataCount => String::from_str("Data Count(12)"),
        }
    }
}

/// The section a byte identifies.
pub open spec fn spec_section_id_of(b: u8) -> Option<SectionId> {
    match b {
        0x00 => Some(SectionId::Custom),
        0x01 => Some(SectionId::Type),
        0x02 => Some(SectionId::Import),
        0x03 => Some(SectionId::Function),
        0x04 => Some(SectionId::Table),
        0x05 => Some(SectionId::Memory),
        0x06 => Some(SectionId::Global),
        0x07 => Some(SectionId::Export),
        0x08 => Some(SectionId::Start),
        0x09 => Some(SectionId::Element),
        0x0a => Some(SectionId::Code),
        0x0b => Some(SectionId::Data),
        0x0c => Some(SectionId::DataCount),
        _ => None,
    }
}

/// The place of a section in the order of a module's sections: the data
/// count section comes before the code section, though its id is larger.
pub open spec fn spec_order(id: SectionId) -> u8 {
    match id {
        SectionId::Custom => 0,
        SectionId::Type => 1,
        SectionId::Import => 2,
        SectionId::Function => 3,
        SectionId::Table => 4,
        SectionId::Memory => 5,
        SectionId::Global => 6,
        SectionId::Export => 7,
        SectionId::Start => 8,
        SectionId::Element => 9,
        SectionId::Code => 11,
        SectionId::Data => 12,
        SectionId::DataCount => 10,
    }
}

impl SectionId {
    pub fn try_from(value: u8) -> (r: Result<SectionId, InvalidEnumValueError>)
        ensures
            match spec_section_id_of(value) {
                Some(id) => r == Ok::<SectionId, InvalidEnumValueError>(id),
                None => r == Err::<SectionId, InvalidEnumValueError>(
                    InvalidEnumValueError { value, enum_name: "wasmrs::binary::sections::SectionId" },
                ),
            },
    {
        match value {
            0x00 => Ok(SectionId::Custom),
            0x01 => Ok(SectionId::Type),
            0x02 => Ok(SectionId::Import),
            0x03 => Ok(SectionId::Function),
            0x04 => Ok(SectionId::Table),
            0x05 => Ok(SectionId::Memory),
            0x06 => Ok(SectionId::Global),
            0x07 => Ok(SectionId::Export),
            0x08 => Ok(SectionId::Start),
            0x09 => Ok(SectionId::Element),
            0x0a => Ok(SectionId::Code),
            0x0b => Ok(SectionId::Data),
            0x0c => Ok(SectionId::DataCount),
            _ => Err(InvalidEnumValueError { value, enum_name: "wasmrs::binary::sections::SectionId" }),
        }
    }

    /// Section ids do not always correspond to the order of sections in
    /// the encoding of a module.
    pub fn order(&self) -> (r: u8)
        ensures
            r == spec_order(*self),
    {
        match self {
            SectionId::Custom => 0,
            SectionId::Type => 1,
            SectionId::Import => 2,
            SectionId::Function => 3,
            SectionId::Table => 4,
            SectionId::Memory => 5,
            SectionId::Global => 6,
            SectionId::Export => 7,
            SectionId::Start => 8,
            SectionId::Element => 9,
            SectionId::Code => 11,
            SectionId::Data => 12,
            SectionId::DataCount => 10,
        }
    }
}

/// Where a section lies: the offset of its id byte, and the range of its content.
#[derive(Debug, Copy, Clone, PartialEq, Eq, Structural)]
pub struct SectionInfo {
    pub id: SectionId,
    pub offset: usize,
    pub start: u64,
    pub end: u64,
    pub size: u32,
}

#[derive(Debug)]
#[non_exhaustive]
pub struct SectionError {
    pub kind: Box<SectionErrorKind>,
    pub info: SectionInfo,
    pub idx: Option<usize>,
}

#[derive(Debug)]
#[non_exhaustive]
pub enum SectionErrorKind {
    SectionSize(ReadError),
    SectionSizeMismatch { end: usize, expected: usize },
    EntryCount(ReadError),
    CustomSection(CustomSectionReadError),
    TypeSection(TypeSectionReadError),
    ImportSection(ImportSectionReadError),
    FunctionSection(ReadError),
    TableSection(TableReadError),
    MemorySection(MemTypeReadError),
    GlobalSection(GlobalSectionReadError),
    ExportSection(ExportSectionReadError),
    CodeSection(CodeSectionReadError),
    ElementSection(ElementSectionReadError),
    DataSection(DataSectionReadError),
    DataCountSection(ReadError),
}

impl SectionError {
    /// The message of this error.
    pub open spec fn message(&self) -> Seq<char> {
        match self.idx {
            Some(idx) => "reading section "@ + self.info.id.message() + ", entries["@ + spec_decimal(
                idx as nat,
            ) + "]"@,
            None => "reading section "@ + self.info.id.message(),
        }
    }

    /// Renders the error as text.
    pub fn to_string(&self) -> (s: String)
        ensures
            s@ == self.message(),
    {
        let id = self.info.id.to_string();
        match self.idx {
            Some(idx) => String::from_str("reading section ").concat(id.as_str()).concat(
                ", entries[",
            ).concat(decimal(idx as u64).as_str()).concat("]"),
            None => String::from_str("reading section ").concat(id.as_str()),
        }
    }
}

impl SectionErrorKind {
    /// The message of this error.
    pub open spec fn message(&self) -> Seq<char> {
        match self {
            SectionErrorKind::SectionSize(_) => "section size out of range"@,
            SectionErrorKind::SectionSizeMismatch { end, expected } => "section size mismatch, content ended at "@
                + spec_hex(*end as nat) + " ("@ + spec_decimal(*end as nat) + "), expected end: "@
                + spec_hex(*expected as nat) + " ("@ + spec_decimal(*expected as nat) + ")"@,
            SectionErrorKind::EntryCount(_) => "reading the entry count"@,
            SectionErrorKind::CustomSection(_) => "reading custom section"@,
            SectionErrorKind::TypeSection(_) => "reading function type"@,
            SectionErrorKind::ImportSection(_) => "reading import entry"@,
            SectionErrorKind::FunctionSection(_) => "reading the function type index"@,
            SectionErrorKind::TableSection(_) => "reading the table type"@,
            SectionErrorKind::MemorySection(_) => "reading the memory type"@,
            SectionErrorKind::GlobalSection(_) => "reading global"@,
            SectionErrorKind::ExportSection(_) => "reading export entry"@,
            SectionErrorKind::ElementSection(_) => "reading element segment"@,
            SectionErrorKind::CodeSection(_) => "reading code entry"@,
            SectionErrorKind::DataSection(_) => "reading data segment"@,
            SectionErrorKind::DataCountSection(_) => "reading the data count"@,
        }
    }

    /// Renders the error as text.
    pub fn to_string(&self) -> (s: String)
        ensures
            s@ == self.message(),
    {
        match self {
            SectionErrorKind::SectionSize(_) => String::from_str("section size out of range"),
            SectionErrorKind::SectionSizeMismatch { end, expected } => String::from_str(
                "section size mismatch, content ended at ",
            ).concat(hex(*end as u64).as_str()).concat(" (").concat(
                decimal(*end as u64).as_str(),
            ).concat("), expected end: ").concat(hex(*expected as u64).as_str()).concat(
                " (",
            ).concat(decimal(*expected as u64).as_str()).concat(")"),
            SectionErrorKind::EntryCount(_) => String::from_str("reading the entry count"),
            SectionErrorKind::CustomSection(_) => String::from_str("reading custom section"),
            SectionErrorKind::TypeSection(_) => String::from_str("reading function type"),
            SectionErrorKind::ImportSection(_) => String::from_str("reading import entry"),
            SectionErrorKind::FunctionSection(_) => String::from_str(
                "reading the function type index",
            ),
            SectionErrorKind::TableSection(_) => String::from_str("reading the table type"),
            SectionErrorKind::MemorySection(_) => String::from_str("reading the memory type"),
            SectionErrorKind::GlobalSection(_) => String::from_str("reading global"),
            SectionErrorKind::ExportSection(_) => String::from_str("reading export entry"),
            SectionErrorKind::ElementSection(_) => String::from_str("reading element segment"),
            SectionErrorKind::CodeSection(_) => String::from_str("reading code entry"),
            SectionErrorKind::DataSection(_) => String::from_str("reading data segment"),
            SectionErrorKind::DataCountSection(_) => String::from_str("reading the data count"),
        }
    }
}

/// An error of the whole section, not of one of its entries.
pub open spec fn section_error(kind: SectionErrorKind, info: SectionInfo) -> SectionError {
    SectionError { kind: Box::new(kind), info, idx: None }
}

/// The entries of sections that are vectors of entries.
pub trait SectionEntry: Sized + View {
    spec fn spec_decode(v: RView) -> Result<(Self::V, int), SectionErrorKind>;

    fn decode(reader: &mut Reader) -> (res: Result<Self, SectionErrorKind>)
        ensures
            match Self::spec_decode(old(reader)@) {
                Ok((m, p)) => res is Ok && res->Ok_0@ == m && final(reader)@.pos == p,
                Err(e) => res == Err::<Self, SectionErrorKind>(e),
            },
            final(reader)@.same_window(old(reader)@),
            res is Ok ==> old(reader)@.pos <= final(reader)@.pos <= final(reader)@.end,
    ;
}

/// The first `n` entries, decoded one after the other; an error carries the entry's index.
pub open spec fn spec_entries<T: SectionEntry>(v: RView, n: nat) -> Result<(Seq<T::V>, int), (usize, SectionErrorKind)>
    decreases n,
{
    if n == 0 {
        Ok((seq![], v.pos))
    } else {
        match spec_entries::<T>(v, (n - 1) as nat) {
            Err(e) => Err(e),
            Ok((xs, p)) => match T::spec_decode(v.at(p)) {
                Err(e) => Err(((n - 1) as usize, e)),
                Ok((x, q)) => Ok((xs.push(x), q)),
            },
        }
    }
}

pub proof fn lemma_entries_err<T: SectionEntry>(v: RView, i: nat, n: nat)
    requires
        i <= n,
        spec_entries::<T>(v, i) is Err,
    ensures
        spec_entries::<T>(v, n) == spec_entries::<T>(v, i),
    decreases n,
{
    if n > i {
        lemma_entries_err::<T>(v, i, (n - 1) as nat);
    }
}

/// A section that is a vector of entries: within `info.size` bytes, a count
/// and that many entries, which must fill the section exactly.
#[verifier::opaque]
pub open spec fn spec_decode_section<T: SectionEntry>(v: RView, info: SectionInfo) -> Result<Seq<T::V>, SectionError> {
    match spec_scoped(v, info.size) {
        Err(e) => Err(section_error(SectionErrorKind::SectionSize(e), info)),
        Ok(w) => match spec_read_u32(w) {
            Err(e) => Err(section_error(SectionErrorKind::EntryCount(e), info)),
            Ok((len, p)) => match spec_entries::<T>(w.at(p), len as nat) {
                Err((idx, kind)) => Err(SectionError { kind: Box::new(kind), info, idx: Some(idx) }),
                Ok((entries, q)) => if q < w.end {
                    Err(
                        section_error(
                            SectionErrorKind::SectionSizeMismatch { end: q as usize, expected: info.end as usize },
                            info,
                        ),
                    )
                } else {
                    Ok(entries)
                },
            },
        },
    }
}

/// Decodes a section that is a vector of entries.
pub fn decode_section<T: SectionEntry>(reader: &mut Reader, info: SectionInfo) -> (r: Result<Vec<T>, SectionError>)
    ensures
        match spec_decode_section::<T>(old(reader)@, info) {
            Ok(s) => r is Ok && vec_view(r->Ok_0@) == s,
            Err(e) => r == Err::<Vec<T>, SectionError>(e),
        },
        final(reader)@.same_window(old(reader)@),
        spec_scoped(old(reader)@, info.size) is Ok ==> final(reader)@.pos == old(reader)@.pos + info.size,
        spec_scoped(old(reader)@, info.size) is Err ==> final(reader)@ == old(reader)@,
{
    reveal(spec_decode_section);
    let mut section = match reader.scoped(info.size) {
        Ok(r) => r,
        Err(e) => return Err(SectionError { kind: Box::new(SectionErrorKind::SectionSize(e)), info, idx: None }),
    };
    let ghost w = section@;
    let len = match section.read_u32() {
        Ok(n) => n,
        Err(e) => return Err(SectionError { kind: Box::new(SectionErrorKind::EntryCount(e)), info, idx: None }),
    };
    let ghost v1 = section@;
    proof {
        assert(v1 == w.at(v1.pos));
    }
    let mut entries: Vec<T> = Vec::new();
    let mut idx: u32 = 0;
    proof {
        assert(vec_view(entries@) =~= seq![]);
    }
    while idx < len
        invariant
            idx <= len,
            reader@.same_window(old(reader)@),
            reader@ == old(reader)@.at(w.end),
            w.end == old(reader)@.pos + info.size,
            spec_scoped(old(reader)@, info.size) == Ok::<RView, ReadError>(w),
            spec_read_u32(w) == Ok::<(u32, int), ReadError>((len, v1.pos)),
            section@.same_window(v1),
            v1.same_window(w),
            v1 == w.at(v1.pos),
            spec_entries::<T>(v1, idx as nat) == Ok::<(Seq<T::V>, int), (usize, SectionErrorKind)>(
                (vec_view(entries@), section@.pos),
            ),
        decreases len - idx,
    {
        let ghost before = section@;
        proof {
            assert(before == v1.at(before.pos));
        }
        let res = T::decode(&mut section);
        match res {
            Ok(x) => {
                proof {
                    assert(vec_view(entries@.push(x)) =~= vec_view(entries@).push(x@));
                }
                entries.push(x);
            },
            Err(kind) => {
                proof {
                    reveal(spec_decode_section);
                    lemma_entries_err::<T>(v1, (idx + 1) as nat, len as nat);
                }
                return Err(SectionError { kind: Box::new(kind), info, idx: Some(idx as usize) });
            },
        }
        idx = idx + 1;
    }
    if !section.is_exhausted() {
        let end = section.position() as usize;
        return Err(
            SectionError {
                kind: Box::new(SectionErrorKind::SectionSizeMismatch { end, expected: info.end as usize }),
                info,
                idx: None,
            },
        );
    }
    Ok(entries)
}

} // verus!
