//! The export section: named exports of functions, tables, memories and globals.
use vstd::prelude::*;
use vstd::string::*;

use crate::binary::reader::{FromReader, InvalidEnumValueError, RView, ReadError, ReadErrorKind, Reader, spec_read_name, spec_read_u32};
use crate::binary::sections::{SectionEntry, SectionErrorKind};
use crate::binary::sections::import::{ImportDescType, spec_import_desc_type_of};
use crate::binary::types::spec_enum_byte;

verus! {

/// Export Section
#[derive(Debug, Clone, Copy, PartialEq, Eq, Structural)]
pub enum ExportKind {
    Func,
    Table,
    Memory,
    Global,
}

pub open spec fn spec_export_kind_of(b: u8) -> Option<ExportKind> {
    match b {
        0 => Some(ExportKind::Func),
        1 => Some(ExportKind::Table),
        2 => Some(ExportKind::Memory),
        3 => Some(ExportKind::Global),
        _ => None,
    }
}

impl ExportKind {
    pub fn try_from(value: u8) -> (r: Result<ExportKind, InvalidEnumValueError>)
        ensures
            match spec_export_kind_of(value) {
                Some(t) => r == Ok::<ExportKind, InvalidEnumValueError>(t),
                None => r == Err::<ExportKind, InvalidEnumValueError>(
                    InvalidEnumValueError { value, enum_name: "wasmrs::binary::sections::export::ExportKind" },
                ),
            },
    {
        match value {
            0x00 => Ok(ExportKind::Func),
            0x01 => Ok(ExportKind::Table),
            0x02 => Ok(ExportKind::Memory),
            0x03 => Ok(ExportKind::Global),
            _ => Err(InvalidEnumValueError { value, enum_name: "wasmrs::binary::sections::export::ExportKind" }),
        }
    }
}

/// The byte that stands for an export kind in the binary format.
pub open spec fn export_kind_code(k: ExportKind) -> u8 {
    match k {
        ExportKind::Func => 0x00,
        ExportKind::Table => 0x01,
        ExportKind::Memory => 0x02,
        ExportKind::Global => 0x03,
    }
}

/// Whether an export kind and an import description name the same kind of external.
pub open spec fn same_external(k: ExportKind, d: ImportDescType) -> bool {
    match (k, d) {
        (ExportKind::Func, ImportDescType::Func) => true,
        (ExportKind::Table, ImportDescType::Table) => true,
        (ExportKind::Memory, ImportDescType::Mem) => true,
        (ExportKind::Global, ImportDescType::Global) => true,
        _ => false,
    }
}

/// Decoding an export kind undoes its encoding: a kind is read back from its own byte, and a
/// byte that is read as a kind is that kind's byte.
pub proof fn lemma_export_kind_code(k: ExportKind, b: u8)
    ensures
        spec_export_kind_of(export_kind_code(k)) == Some(k),
        spec_export_kind_of(b) matches Some(j) ==> export_kind_code(j) == b,
        spec_export_kind_of(b) is Some <==> b <= 3,
{
}

/// Exports and imports share the codes of the kinds of external: a byte names a kind of export
/// exactly when it names a kind of import, and then the same kind.
pub proof fn lemma_export_kind_matches_import(b: u8)
    ensures
        spec_export_kind_of(b) is Some <==> spec_import_desc_type_of(b) is Some,
        spec_export_kind_of(b) is Some ==> same_external(
            spec_export_kind_of(b)->Some_0,
            spec_import_desc_type_of(b)->Some_0,
        ),
{
}

impl View for ExportKind {
    type V = ExportKind;

    open spec fn view(&self) -> ExportKind {
        *self
    }
}

impl FromReader for ExportKind {
    type Error = ReadError;

    open spec fn spec_from_reader(v: RView) -> Result<(ExportKind, int), ReadError> {
        spec_enum_byte(v, |b: u8| spec_export_kind_of(b), "wasmrs::binary::sections::export::ExportKind")
    }

    fn from_reader(reader: &mut Reader) -> (res: Result<ExportKind, ReadError>) {
        let pos = reader.position() as usize;
        let b = reader.read_u8()?;
        match ExportKind::try_from(b) {
            Ok(t) => Ok(t),
            Err(e) => Err(ReadError::at_offset(ReadErrorKind::InvalidEnumValue(e), pos)),
        }
    }
}

#[derive(Debug)]
pub struct ExportEntry {
    pub name: String,
    pub kind: ExportKind,
    pub index: u32,
}

/// The model of an export entry.
pub struct ExportEntryV {
    pub name: Seq<char>,
    pub kind: ExportKind,
    pub index: u32,
}

impl View for ExportEntry {
    type V = ExportEntryV;

    open spec fn view(&self) -> ExportEntryV {
        ExportEntryV { name: self.name@, kind: self.kind, index: self.index }
    }
}

pub type ExportSection = Vec<ExportEntry>;

/// Errors
#[derive(Debug)]
#[non_exhaustive]
pub enum ExportSectionReadError {
    Name(ReadError),
    DescKind(ReadError),
    DescIndex(ReadError),
}

impl ExportSectionReadError {
    /// The text of this error.
    pub open spec fn message(&self) -> Seq<char> {
        match self {
            ExportSectionReadError::Name(..) => "reading the export name"@,
            ExportSectionReadError::DescKind(..) => "reading the export kind"@,
            ExportSectionReadError::DescIndex(..) => "reading the export index"@,
        }
    }

    /// Renders the error as text.
    pub fn to_string(&self) -> (s: String)
        ensures
            s@ == self.message(),
    {
        match self {
            ExportSectionReadError::Name(..) => String::from_str("reading the export name"),
            ExportSectionReadError::DescKind(..) => String::from_str("reading the export kind"),
            ExportSectionReadError::DescIndex(..) => String::from_str("reading the export index"),
        }
    }
}

/// An export: a name, a kind, an index.
pub open spec fn spec_export_entry(v: RView) -> Result<(ExportEntryV, int), SectionErrorKind> {
    match spec_read_name(v) {
        Err(e) => Err(SectionErrorKind::ExportSection(ExportSectionReadError::Name(e))),
        Ok((name, p)) => match ExportKind::spec_from_reader(v.at(p)) {
            Err(e) => Err(SectionErrorKind::ExportSection(ExportSectionReadError::DescKind(e))),
            Ok((kind, q)) => match spec_read_u32(v.at(q)) {
                Err(e) => Err(SectionErrorKind::ExportSection(ExportSectionReadError::DescIndex(e))),
                Ok((index, r)) => Ok((ExportEntryV { name, kind, index }, r)),
            },
        },
    }
}

impl SectionEntry for ExportEntry {
    open spec fn spec_decode(v: RView) -> Result<(ExportEntryV, int), SectionErrorKind> {
        spec_export_entry(v)
    }

    fn decode(reader: &mut Reader) -> (res: Result<ExportEntry, SectionErrorKind>) {
        let name = match reader.read_name() {
            Ok(n) => n,
            Err(e) => return Err(SectionErrorKind::ExportSection(ExportSectionReadError::Name(e))),
        };
        let kind = match ExportKind::from_reader(reader) {
            Ok(k) => k,
            Err(e) => return Err(SectionErrorKind::ExportSection(ExportSectionReadError::DescKind(e))),
        };
        let index = match reader.read_u32() {
            Ok(i) => i,
            Err(e) => return Err(SectionErrorKind::ExportSection(ExportSectionReadError::DescIndex(e))),
        };
        Ok(ExportEntry { name, kind, index })
    }
}

} // verus!
