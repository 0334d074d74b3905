//! The import section: imported functions, tables, memories and globals.
use vstd::prelude::*;
use vstd::string::*;

use crate::binary::reader::{FromReader, InvalidEnumValueError, RView, ReadError, ReadErrorKind, Reader, spec_read_name, spec_read_u32};
use crate::binary::sections::global::{GlobalType, GlobalTypeReadError, spec_globaltype};
use crate::binary::sections::memory::{MemType, MemTypeReadError, spec_memtype};
use crate::binary::sections::table::{TableReadError, TableType, spec_tabletype};
use crate::binary::sections::{SectionEntry, SectionErrorKind};
use crate::binary::types::{TypeIdx, spec_enum_byte};

verus! {

/// Import Section
pub type ImportSection = Vec<ImportEntry>;

#[derive(Debug, Clone, Copy, PartialEq, Eq, Structural)]
pub enum ImportDescType {
    Func,
    Table,
    Mem,
    Global,
}

pub open spec fn spec_import_desc_type_of(b: u8) -> Option<ImportDescType> {
    match b {
        0 => Some(ImportDescType::Func),
        1 => Some(ImportDescType::Table),
        2 => Some(ImportDescType::Mem),
        3 => Some(ImportDescType::Global),
        _ => None,
    }
}

impl ImportDescType {
    pub fn try_from(value: u8) -> (r: Result<ImportDescType, InvalidEnumValueError>)
        ensures
            match spec_import_desc_type_of(value) {
                Some(t) => r == Ok::<ImportDescType, InvalidEnumValueError>(t),
                None => r == Err::<ImportDescType, InvalidEnumValueError>(
                    InvalidEnumValueError { value, enum_name: "wasmrs::binary::sections::import::ImportDescType" },
                ),
            },
    {
        match value {
            0x00 => Ok(ImportDescType::Func),
            0x01 => Ok(ImportDescType::Table),
            0x02 => Ok(ImportDescType::Mem),
            0x03 => Ok(ImportDescType::Global),
            _ => Err(
                InvalidEnumValueError { value, enum_name: "wasmrs::binary::sections::import::ImportDescType" },
            ),
        }
    }
}

impl View for ImportDescType {
    type V = ImportDescType;

    open spec fn view(&self) -> ImportDescType {
        *self
    }
}

impl FromReader for ImportDescType {
    type Error = ReadError;

    open spec fn spec_from_reader(v: RView) -> Result<(ImportDescType, int), ReadError> {
        spec_enum_byte(v, |b: u8| spec_import_desc_type_of(b), "wasmrs::binary::sections::import::ImportDescType")
    }

    fn from_reader(reader: &mut Reader) -> (res: Result<ImportDescType, ReadError>) {
        let pos = reader.position() as usize;
        let b = reader.read_u8()?;
        match ImportDescType::try_from(b) {
            Ok(t) => Ok(t),
            Err(e) => Err(ReadError::at_offset(ReadErrorKind::InvalidEnumValue(e), pos)),
        }
    }
}

#[derive(Debug, Clone, Copy, PartialEq, Eq, Structural)]
pub enum ImportDesc {
    Func(TypeIdx),
    Table(TableType),
    Mem(MemType),
    Global(GlobalType),
}

#[derive(Debug)]
pub struct ImportEntry {
    pub mod_name: String,
    pub name: String,
    pub desc: ImportDesc,
}

/// The model of an import entry.
pub struct ImportEntryV {
    pub mod_name: Seq<char>,
    pub name: Seq<char>,
    pub desc: ImportDesc,
}

impl View for ImportEntry {
    type V = ImportEntryV;

    open spec fn view(&self) -> ImportEntryV {
        ImportEntryV { mod_name: self.mod_name@, name: self.name@, desc: self.desc }
    }
}

/// Errors
#[derive(Debug)]
#[non_exhaustive]
pub enum ImportSectionReadError {
    ModuleName(ReadError),
    EntityName(ReadError),
    DescType(ReadError),
    DescFunc(ReadError),
    DescTable(TableReadError),
    DescMem(MemTypeReadError),
    DescGlobal(GlobalTypeReadError),
}

impl ImportSectionReadError {
    /// The text of this error.
    pub open spec fn message(&self) -> Seq<char> {
        match self {
            ImportSectionReadError::ModuleName(..) => "reading import module name"@,
            ImportSectionReadError::EntityName(..) => "reading import entity name"@,
            ImportSectionReadError::DescType(..) => "reading import descriptor type"@,
            ImportSectionReadError::DescFunc(..) => "reading import descriptor: func"@,
            ImportSectionReadError::DescTable(..) => "reading import descriptor: table"@,
            ImportSectionReadError::DescMem(..) => "reading import descriptor: mem"@,
            ImportSectionReadError::DescGlobal(..) => "reading import descriptor: global"@,
        }
    }

    /// Renders the error as text.
    pub fn to_string(&self) -> (s: String)
        ensures
            s@ == self.message(),
    {
        match self {
            ImportSectionReadError::ModuleName(..) => String::from_str("reading import module name"),
            ImportSectionReadError::EntityName(..) => String::from_str("reading import entity name"),
            ImportSectionReadError::DescType(..) => String::from_str("reading import descriptor type"),
            ImportSectionReadError::DescFunc(..) => String::from_str("reading import descriptor: func"),
            ImportSectionReadError::DescTable(..) => String::from_str("reading import descriptor: table"),
            ImportSectionReadError::DescMem(..) => String::from_str("reading import descriptor: mem"),
            ImportSectionReadError::DescGlobal(..) => String::from_str("reading import descriptor: global"),
        }
    }
}

pub open spec fn import_err(e: ImportSectionReadError) -> SectionErrorKind {
    SectionErrorKind::ImportSection(e)
}

/// The description of an import of the given kind.
pub open spec fn spec_import_desc(t: ImportDescType, v: RView) -> Result<(ImportDesc, int), SectionErrorKind> {
    match t {
        ImportDescType::Func => match spec_read_u32(v) {
            Ok((x, p)) => Ok((ImportDesc::Func(x), p)),
            Err(e) => Err(import_err(ImportSectionReadError::DescFunc(e))),
        },
        ImportDescType::Table => match spec_tabletype(v) {
            Ok((x, p)) => Ok((ImportDesc::Table(x), p)),
            Err(e) => Err(import_err(ImportSectionReadError::DescTable(e))),
        },
        ImportDescType::Mem => match spec_memtype(v) {
            Ok((x, p)) => Ok((ImportDesc::Mem(x), p)),
            Err(e) => Err(import_err(ImportSectionReadError::DescMem(e))),
        },
        ImportDescType::Global => match spec_globaltype(v) {
            Ok((x, p)) => Ok((ImportDesc::Global(x), p)),
            Err(e) => Err(import_err(ImportSectionReadError::DescGlobal(e))),
        },
    }
}

/// An import: module name, entity name, kind and description.
pub open spec fn spec_import_entry(v: RView) -> Result<(ImportEntryV, int), SectionErrorKind> {
    match spec_read_name(v) {
        Err(e) => Err(import_err(ImportSectionReadError::ModuleName(e))),
        Ok((mod_name, p)) => match spec_read_name(v.at(p)) {
            Err(e) => Err(import_err(ImportSectionReadError::EntityName(e))),
            Ok((name, q)) => match ImportDescType::spec_from_reader(v.at(q)) {
                Err(e) => Err(import_err(ImportSectionReadError::DescType(e))),
                Ok((t, r)) => match spec_import_desc(t, v.at(r)) {
                    Err(e) => Err(e),
                    Ok((desc, s)) => Ok((ImportEntryV { mod_name, name, desc }, s)),
                },
            },
        },
    }
}

impl SectionEntry for ImportEntry {
    open spec fn spec_decode(v: RView) -> Result<(ImportEntryV, int), SectionErrorKind> {
        spec_import_entry(v)
    }

    fn decode(reader: &mut Reader) -> (res: Result<ImportEntry, SectionErrorKind>) {
        let mod_name = match reader.read_name() {
            Ok(n) => n,
            Err(e) => return Err(SectionErrorKind::ImportSection(ImportSectionReadError::ModuleName(e))),
        };
        let name = match reader.read_name() {
            Ok(n) => n,
            Err(e) => return Err(SectionErrorKind::ImportSection(ImportSectionReadError::EntityName(e))),
        };
        let itype = match ImportDescType::from_reader(reader) {
            Ok(t) => t,
            Err(e) => return Err(SectionErrorKind::ImportSection(ImportSectionReadError::DescType(e))),
        };
        let desc = match itype {
            ImportDescType::Func => match reader.read_u32() {
                Ok(x) => ImportDesc::Func(x),
                Err(e) => return Err(SectionErrorKind::ImportSection(ImportSectionReadError::DescFunc(e))),
            },
            ImportDescType::Table => match TableType::from_reader(reader) {
                Ok(x) => ImportDesc::Table(x),
                Err(e) => return Err(SectionErrorKind::ImportSection(ImportSectionReadError::DescTable(e))),
            },
            ImportDescType::Mem => match MemType::from_reader(reader) {
                Ok(x) => ImportDesc::Mem(x),
                Err(e) => return Err(SectionErrorKind::ImportSection(ImportSectionReadError::DescMem(e))),
            },
            ImportDescType::Global => match GlobalType::from_reader(reader) {
                Ok(x) => ImportDesc::Global(x),
                Err(e) => return Err(SectionErrorKind::ImportSection(ImportSectionReadError::DescGlobal(e))),
            },
        };
        Ok(ImportEntry { mod_name, name, desc })
    }
}

} // verus!
