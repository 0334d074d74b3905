//! Decoding of a whole module: the preamble, the table of sections, each
//! section, and the checks that span sections.
use vstd::prelude::*;
use vstd::string::*;

use crate::binary::reader::{
    InvalidEnumValueError, RView, ReadError, ReadErrorKind, Reader, spec_read_exact, spec_read_u32, spec_read_u8,
    vec_view,
};
use crate::binary::sections::code::{CodeEntry, CodeEntryV};
use crate::binary::sections::custom::{CustomSection, CustomSectionV, decode_custom_section, spec_custom_section};
use crate::binary::sections::data::{DataSegment, DataSegmentV};
use crate::binary::sections::data_count::spec_data_count_section;
use crate::binary::sections::element::{ElementSegment, ElementSegmentV};
use crate::binary::sections::export::{ExportEntry, ExportEntryV};
use crate::binary::sections::global::{GlobalEntry, GlobalEntryV};
use crate::binary::sections::import::{ImportDesc, ImportDescType, ImportEntry, ImportEntryV};
use crate::binary::sections::memory::MemType;
use crate::binary::sections::start::spec_start_section;
use crate::binary::sections::table::{TableEntry, TableEntryV};
use crate::binary::sections::{
    CodeSection, DataCountSection, DataSection, ElementSection, ExportSection, FunctionSection, GlobalSection,
    ImportSection, MemorySection, SectionError, SectionErrorKind, SectionId, SectionInfo, StartSection, TableSection,
    TypeSection, decode_data_count_section, decode_section, decode_start_section, section_error,
    spec_decode_section, spec_order, spec_section_id_of,
};
use crate::binary::types::{FuncType, FuncTypeV};
use crate::instructions::{InstrV, Instruction};
use crate::text::{decimal, hex, spec_decimal, spec_hex};

verus! {

#[derive(Debug)]
#[non_exhaustive]
pub enum MalformedError {
    Read(ReadError),
    Preamble(ReadError),
    DuplicateSection { offset: usize, id: SectionId, other: SectionInfo },
    SectionOrder { offset: usize, id: SectionId, other: SectionInfo },
    Section(SectionError),
    SectionRequired { section: SectionId },
    InconsistentLength { section: SectionId, other: SectionId },
}

/// An offset as `{:#0x} ({})` renders it: in hexadecimal, then in decimal.
pub open spec fn spec_offset_text(offset: usize) -> Seq<char> {
    spec_hex(offset as nat) + " ("@ + spec_decimal(offset as nat) + ")"@
}

fn offset_text(offset: usize) -> (s: String)
    ensures
        s@ == spec_offset_text(offset),
{
    hex(offset as u64).concat(" (").concat(decimal(offset as u64).as_str()).concat(")")
}

impl MalformedError {
    /// The message of this error.
    pub open spec fn message(&self) -> Seq<char> {
        match self {
            MalformedError::Read(_) => "Malformed module"@,
            MalformedError::Preamble(_) => "invalid module preamble"@,
            MalformedError::DuplicateSection { offset, id, other } => "duplicate section: "@
                + id.message() + " section at offset "@ + spec_offset_text(*offset)
                + ", previously seen at offset "@ + spec_offset_text(other.offset),
            MalformedError::SectionOrder { offset, id, other } => "section out of order: "@
                + id.message() + " section at offset "@ + spec_offset_text(*offset)
                + ", appears after "@ + other.id.message() + " at offset "@ + spec_offset_text(
                other.offset,
            ),
            MalformedError::Section(_) => "malformed section"@,
            MalformedError::SectionRequired { section } => "section required: "@
                + section.message(),
            MalformedError::InconsistentLength { section, other } =>
                "inconsistent section lenght, "@ + section.message() + " and "@ + other.message(),
        }
    }

    /// Renders the error as text.
    pub fn to_string(&self) -> (s: String)
        ensures
            s@ == self.message(),
    {
        match self {
            MalformedError::Read(_) => String::from_str("Malformed module"),
            MalformedError::Preamble(_) => String::from_str("invalid module preamble"),
            MalformedError::DuplicateSection { offset, id, other } => String::from_str(
                "duplicate section: ",
            ).concat(id.to_string().as_str()).concat(" section at offset ").concat(
                offset_text(*offset).as_str(),
            ).concat(", previously seen at offset ").concat(offset_text(other.offset).as_str()),
            MalformedError::SectionOrder { offset, id, other } => String::from_str(
                "section out of order: ",
            ).concat(id.to_string().as_str()).concat(" section at offset ").concat(
                offset_text(*offset).as_str(),
            ).concat(", appears after ").concat(other.id.to_string().as_str()).concat(
                " at offset ",
            ).concat(offset_text(other.offset).as_str()),
            MalformedError::Section(_) => String::from_str("malformed section"),
            MalformedError::SectionRequired { section } => String::from_str(
                "section required: ",
            ).concat(section.to_string().as_str()),
            MalformedError::InconsistentLength { section, other } => String::from_str(
                "inconsistent section lenght, ",
            ).concat(section.to_string().as_str()).concat(" and ").concat(
                other.to_string().as_str(),
            ),
        }
    }
}

#[derive(Debug)]
pub struct Module {
    pub bytes: Vec<u8>,
    pub sections: Vec<SectionInfo>,
    pub customs: Vec<CustomSection>,
    pub types: Option<TypeSection>,
    pub imports: Option<ImportSection>,
    pub functions: Option<FunctionSection>,
    pub tables: Option<TableSection>,
    pub memories: Option<MemorySection>,
    pub globals: Option<GlobalSection>,
    pub exports: Option<ExportSection>,
    pub elements: Option<ElementSection>,
    pub start: Option<StartSection>,
    pub data_count: Option<DataCountSection>,
    pub codes: Option<CodeSection>,
    pub data: Option<DataSection>,
}

/// The model of a module: its bytes, the table of its sections, and the
/// model of each section that was decoded.
pub struct ModuleV {
    pub bytes: Seq<u8>,
    pub sections: Seq<SectionInfo>,
    pub customs: Seq<CustomSectionV>,
    pub types: Option<Seq<FuncTypeV>>,
    pub imports: Option<Seq<ImportEntryV>>,
    pub functions: Option<Seq<u32>>,
    pub tables: Option<Seq<TableEntryV>>,
    pub memories: Option<Seq<MemType>>,
    pub globals: Option<Seq<GlobalEntryV>>,
    pub exports: Option<Seq<ExportEntryV>>,
    pub elements: Option<Seq<ElementSegmentV>>,
    pub start: Option<StartSection>,
    pub data_count: Option<DataCountSection>,
    pub codes: Option<Seq<CodeEntryV>>,
    pub data: Option<Seq<DataSegmentV>>,
}

pub open spec fn opt_view<T: View>(o: Option<Vec<T>>) -> Option<Seq<T::V>> {
    match o {
        Some(v) => Some(vec_view(v@)),
        None => None,
    }
}

impl View for Module {
    type V = ModuleV;

    open spec fn view(&self) -> ModuleV {
        ModuleV {
            bytes: self.bytes@,
            sections: self.sections@,
            customs: vec_view(self.customs@),
            types: opt_view(self.types),
            imports: opt_view(self.imports),
            functions: opt_view(self.functions),
            tables: opt_view(self.tables),
            memories: opt_view(self.memories),
            globals: opt_view(self.globals),
            exports: opt_view(self.exports),
            elements: opt_view(self.elements),
            start: self.start,
            data_count: self.data_count,
            codes: opt_view(self.codes),
            data: opt_view(self.data),
        }
    }
}

/// A module with the given bytes and table of sections, and no section decoded.
pub open spec fn empty_module(bytes: Seq<u8>, sections: Seq<SectionInfo>) -> ModuleV {
    ModuleV {
        bytes,
        sections,
        customs: seq![],
        types: None,
        imports: None,
        functions: None,
        tables: None,
        memories: None,
        globals: None,
        exports: None,
        elements: None,
        start: None,
        data_count: None,
        codes: None,
        data: None,
    }
}

/// The import descriptions of one kind.
pub open spec fn desc_is(d: ImportDesc, kind: ImportDescType) -> bool {
    match d {
        ImportDesc::Func(_) => kind == ImportDescType::Func,
        ImportDesc::Table(_) => kind == ImportDescType::Table,
        ImportDesc::Mem(_) => kind == ImportDescType::Mem,
        ImportDesc::Global(_) => kind == ImportDescType::Global,
    }
}

/// The number of imports of one kind.
pub open spec fn count_imports(s: Seq<ImportEntryV>, kind: ImportDescType) -> nat
    decreases s.len(),
{
    if s.len() == 0 {
        0
    } else {
        count_imports(s.drop_last(), kind) + if desc_is(s.last().desc, kind) {
            1nat
        } else {
            0nat
        }
    }
}

pub open spec fn imported_count(m: ModuleV, kind: ImportDescType) -> nat {
    match m.imports {
        Some(s) => count_imports(s, kind),
        None => 0,
    }
}

pub open spec fn opt_len<T>(o: Option<Seq<T>>) -> nat {
    match o {
        Some(s) => s.len(),
        None => 0,
    }
}

/// The magic number that starts a module: `\0asm`.
pub open spec fn wasm_magic() -> Seq<u8> {
    seq![0x00u8, 0x61u8, 0x73u8, 0x6du8]
}

/// The version of the binary format that follows the magic number.
pub open spec fn wasm_version() -> Seq<u8> {
    seq![0x01u8, 0x00u8, 0x00u8, 0x00u8]
}

/// The preamble: the magic number, then the version.
pub open spec fn spec_preamble(bytes: Seq<u8>) -> Result<(), ReadError> {
    let v = RView { bytes, pos: 0, end: bytes.len() as int };
    match spec_read_exact(v, 4) {
        Err(e) => Err(e),
        Ok((magic, p)) => if magic != wasm_magic() {
            Err(ReadError { offset: 0, kind: ReadErrorKind::BadMagic })
        } else {
            match spec_read_exact(v.at(p), 4) {
                Err(e) => Err(e),
                Ok((version, _)) => if version != wasm_version() {
                    Err(ReadError { offset: 4, kind: ReadErrorKind::BadVersion })
                } else {
                    Ok(())
                },
            }
        },
    }
}

/// The latest section of the table with the given id.
pub open spec fn find_section(acc: Seq<SectionInfo>, id: SectionId) -> Option<SectionInfo>
    decreases acc.len(),
{
    if acc.len() == 0 {
        None
    } else if acc.last().id == id {
        Some(acc.last())
    } else {
        find_section(acc.drop_last(), id)
    }
}

/// Whether a section may not follow the previous one: neither is custom,
/// and it comes earlier in the order of sections.
pub open spec fn out_of_order(acc: Seq<SectionInfo>, id: SectionId) -> bool {
    acc.len() > 0 && acc.last().id != SectionId::Custom && id != SectionId::Custom && spec_order(id) < spec_order(
        acc.last().id,
    )
}

/// The table of sections from `pos` on, after the sections `acc`: each
/// section is an id byte and a byte size, and its content is skipped. No id
/// other than the custom one may occur twice, and the sections other than
/// custom ones must come in their order. A section whose size reaches past
/// the end of the bytes is the last one.
pub open spec fn spec_toc(bytes: Seq<u8>, pos: int, acc: Seq<SectionInfo>) -> Result<Seq<SectionInfo>, MalformedError>
    decreases bytes.len() - pos,
{
    if pos >= bytes.len() {
        Ok(acc)
    } else {
        let v = RView { bytes, pos, end: bytes.len() as int };
        match spec_read_u8(v) {
            Err(e) => Err(MalformedError::Read(e)),
            Ok((b, p0)) => match spec_section_id_of(b) {
                None => Err(
                    MalformedError::Read(
                        ReadError {
                            offset: pos as usize,
                            kind: ReadErrorKind::InvalidEnumValue(
                                InvalidEnumValueError { value: b, enum_name: "wasmrs::binary::sections::SectionId" },
                            ),
                        },
                    ),
                ),
                Some(id) => if id != SectionId::Custom && find_section(acc, id) is Some {
                    Err(MalformedError::DuplicateSection { offset: pos as usize, id, other: find_section(acc, id)->Some_0 })
                } else {
                    match spec_read_u32(v.at(p0)) {
                        Err(e) => Err(MalformedError::Read(e)),
                        Ok((size, p)) => {
                            let info = SectionInfo {
                                id,
                                offset: pos as usize,
                                start: p as u64,
                                end: (p + size) as u64,
                                size,
                            };
                            if out_of_order(acc, id) {
                                Err(MalformedError::SectionOrder { offset: pos as usize, id, other: acc.last() })
                            } else if p <= pos || p + size >= bytes.len() {
                                Ok(acc.push(info))
                            } else {
                                spec_toc(bytes, p + size, acc.push(info))
                            }
                        },
                    }
                },
            },
        }
    }
}

/// The sections of a table lie where the table says: each content starts
/// within the bytes, and ends its size later.
pub open spec fn toc_wf(bytes: Seq<u8>, s: Seq<SectionInfo>) -> bool {
    forall|i: int|
        0 <= i < s.len() ==> {
            &&& (#[trigger] s[i]).start <= bytes.len()
            &&& s[i].end == s[i].start + s[i].size
        }
}

pub open spec fn section_err(e: SectionError) -> MalformedError {
    MalformedError::Section(e)
}

/// The window of a section's content, if it lies within the bytes.
pub open spec fn section_window(bytes: Seq<u8>, info: SectionInfo) -> Result<RView, MalformedError> {
    if info.end > bytes.len() {
        Err(
            section_err(
                section_error(
                    SectionErrorKind::SectionSize(
                        ReadError {
                            offset: info.start as usize,
                            kind: ReadErrorKind::OutOfRange {
                                size: (info.end - info.start) as u32,
                                remaining: (bytes.len() - info.start) as u64,
                            },
                        },
                    ),
                    info,
                ),
            ),
        )
    } else {
        Ok(RView { bytes, pos: info.start as int, end: info.end as int })
    }
}

/// Decodes one section of the table into the module.
#[verifier::opaque]
pub open spec fn spec_apply_section(m: ModuleV, info: SectionInfo) -> Result<ModuleV, MalformedError> {
    match section_window(m.bytes, info) {
        Err(e) => Err(e),
        Ok(v) => match info.id {
            SectionId::Custom => match spec_custom_section(v, info) {
                Err(e) => Err(section_err(e)),
                Ok(c) => Ok(ModuleV { customs: m.customs.push(c), ..m }),
            },
            SectionId::Type => match spec_decode_section::<FuncType>(v, info) {
                Err(e) => Err(section_err(e)),
                Ok(s) => Ok(ModuleV { types: Some(s), ..m }),
            },
            SectionId::Import => match spec_decode_section::<ImportEntry>(v, info) {
                Err(e) => Err(section_err(e)),
                Ok(s) => Ok(ModuleV { imports: Some(s), ..m }),
            },
            SectionId::Function => match spec_decode_section::<u32>(v, info) {
                Err(e) => Err(section_err(e)),
                Ok(s) => Ok(ModuleV { functions: Some(s), ..m }),
            },
            SectionId::Table => match spec_decode_section::<TableEntry>(v, info) {
                Err(e) => Err(section_err(e)),
                Ok(s) => Ok(ModuleV { tables: Some(s), ..m }),
            },
            SectionId::Memory => match spec_decode_section::<MemType>(v, info) {
                Err(e) => Err(section_err(e)),
                Ok(s) => Ok(ModuleV { memories: Some(s), ..m }),
            },
            SectionId::Global => match spec_decode_section::<GlobalEntry>(v, info) {
                Err(e) => Err(section_err(e)),
                Ok(s) => Ok(ModuleV { globals: Some(s), ..m }),
            },
            SectionId::Export => match spec_decode_section::<ExportEntry>(v, info) {
                Err(e) => Err(section_err(e)),
                Ok(s) => Ok(ModuleV { exports: Some(s), ..m }),
            },
            SectionId::Start => match spec_start_section(v, info) {
                Err(e) => Err(section_err(e)),
                Ok(s) => Ok(ModuleV { start: Some(s), ..m }),
            },
            SectionId::Element => match spec_decode_section::<ElementSegment>(v, info) {
                Err(e) => Err(section_err(e)),
                Ok(s) => Ok(ModuleV { elements: Some(s), ..m }),
            },
            SectionId::Code => match spec_decode_section::<CodeEntry>(v, info) {
                Err(e) => Err(section_err(e)),
                Ok(s) => Ok(ModuleV { codes: Some(s), ..m }),
            },
            SectionId::Data => match spec_decode_section::<DataSegment>(v, info) {
                Err(e) => Err(section_err(e)),
                Ok(s) => if m.data_count is Some && s.len() != m.data_count->Some_0.0 {
                    Err(MalformedError::InconsistentLength { section: SectionId::Data, other: SectionId::DataCount })
                } else {
                    Ok(ModuleV { data: Some(s), ..m })
                },
            },
            SectionId::DataCount => match spec_data_count_section(v, info) {
                Err(e) => Err(section_err(e)),
                Ok(s) => Ok(ModuleV { data_count: Some(s), ..m }),
            },
        },
    }
}

/// Decodes the sections of the table one after the other.
pub open spec fn spec_apply_sections(m: ModuleV, infos: Seq<SectionInfo>) -> Result<ModuleV, MalformedError>
    decreases infos.len(),
{
    if infos.len() == 0 {
        Ok(m)
    } else {
        match spec_apply_sections(m, infos.drop_last()) {
            Err(e) => Err(e),
            Ok(m2) => spec_apply_section(m2, infos.last()),
        }
    }
}

/// `memory.init` and `data.drop` refer to data segments.
pub open spec fn is_data_instr(i: InstrV) -> bool {
    i matches InstrV::Plain(Instruction::MemoryInit(_)) || i matches InstrV::Plain(Instruction::DataDrop(_))
}

pub open spec fn uses_data_instr(codes: Seq<CodeEntryV>) -> bool {
    exists|i: int, j: int|
        0 <= i < codes.len() && 0 <= j < codes[i].body.len() && #[trigger] is_data_instr(codes[i].body[j])
}

/// The checks that span sections: as many code entries as functions, as
/// many data segments as the data count says, and a data count wherever
/// code refers to data segments.
pub open spec fn spec_check_module(m: ModuleV) -> Result<(), MalformedError> {
    if opt_len(m.functions) != opt_len(m.codes) {
        Err(MalformedError::InconsistentLength { section: SectionId::Code, other: SectionId::Function })
    } else if m.data_count is Some && opt_len(m.data) != m.data_count->Some_0.0 {
        Err(MalformedError::InconsistentLength { section: SectionId::Data, other: SectionId::DataCount })
    } else if m.data_count is None && m.codes is Some && uses_data_instr(m.codes->Some_0) {
        Err(MalformedError::SectionRequired { section: SectionId::DataCount })
    } else {
        Ok(())
    }
}

/// The module that a byte string encodes, or why it is malformed.
pub open spec fn spec_decode_bytes(bytes: Seq<u8>) -> Result<ModuleV, MalformedError> {
    match spec_preamble(bytes) {
        Err(e) => Err(MalformedError::Preamble(e)),
        Ok(_) => match spec_toc(bytes, 8, seq![]) {
            Err(e) => Err(e),
            Ok(infos) => match spec_apply_sections(empty_module(bytes, infos), infos) {
                Err(e) => Err(e),
                Ok(m) => match spec_check_module(m) {
                    Err(e) => Err(e),
                    Ok(_) => Ok(m),
                },
            },
        },
    }
}

impl Module {
    fn from_bytes(bytes: Vec<u8>) -> (m: Self)
        ensures
            m@ == empty_module(bytes@, seq![]),
    {
        let m = Module {
            bytes,
            sections: Vec::new(),
            customs: vec![],
            types: None,
            imports: None,
            functions: None,
            tables: None,
            memories: None,
            globals: None,
            exports: None,
            elements: None,
            start: None,
            data_count: None,
            codes: None,
            data: None,
        };
        proof {
            assert(vec_view(m.customs@) =~= seq![]);
        }
        m
    }

    /// The number of imports of one kind.
    fn count_imported(&self, kind: ImportDescType) -> (r: usize)
        ensures
            r == imported_count(self@, kind),
    {
        match &self.imports {
            None => 0,
            Some(imps) => {
                let mut n: usize = 0;
                let mut i: usize = 0;
                while i < imps.len()
                    invariant
                        i <= imps@.len(),
                        n <= i,
                        n == count_imports(vec_view(imps@).take(i as int), kind),
                    decreases imps@.len() - i,
                {
                    proof {
                        assert(vec_view(imps@).take(i + 1).drop_last() =~= vec_view(imps@).take(i as int));
                    }
                    let is_kind = match (&imps[i].desc, kind) {
                        (ImportDesc::Func(_), ImportDescType::Func) => true,
                        (ImportDesc::Table(_), ImportDescType::Table) => true,
                        (ImportDesc::Mem(_), ImportDescType::Mem) => true,
                        (ImportDesc::Global(_), ImportDescType::Global) => true,
                        _ => false,
                    };
                    if is_kind {
                        n = n + 1;
                    }
                    i = i + 1;
                }
                proof {
                    assert(vec_view(imps@).take(i as int) =~= vec_view(imps@));
                }
                n
            },
        }
    }

    pub(crate) fn imported_global_count(&self) -> (r: usize)
        ensures
            r == imported_count(self@, ImportDescType::Global),
    {
        self.count_imported(ImportDescType::Global)
    }

    /// Imported and defined functions.
    pub(crate) fn func_count(&self) -> (r: usize)
        requires
            imported_count(self@, ImportDescType::Func) + opt_len(self@.functions) <= usize::MAX,
        ensures
            r == imported_count(self@, ImportDescType::Func) + opt_len(self@.functions),
    {
        let imported = self.count_imported(ImportDescType::Func);
        let local = match &self.functions {
            Some(f) => f.len(),
            None => 0,
        };
        imported + local
    }

    /// Imported and defined memories.
    pub(crate) fn memory_count(&self) -> (r: usize)
        requires
            imported_count(self@, ImportDescType::Mem) + opt_len(self@.memories) <= usize::MAX,
        ensures
            r == imported_count(self@, ImportDescType::Mem) + opt_len(self@.memories),
    {
        let imported = self.count_imported(ImportDescType::Mem);
        let local = match &self.memories {
            Some(f) => f.len(),
            None => 0,
        };
        imported + local
    }

    /// Imported and defined tables.
    pub(crate) fn table_count(&self) -> (r: usize)
        requires
            imported_count(self@, ImportDescType::Table) + opt_len(self@.tables) <= usize::MAX,
        ensures
            r == imported_count(self@, ImportDescType::Table) + opt_len(self@.tables),
    {
        let imported = self.count_imported(ImportDescType::Table);
        let local = match &self.tables {
            Some(f) => f.len(),
            None => 0,
        };
        imported + local
    }

    /// Imported and defined globals.
    pub(crate) fn global_count(&self) -> (r: usize)
        requires
            imported_count(self@, ImportDescType::Global) + opt_len(self@.globals) <= usize::MAX,
        ensures
            r == imported_count(self@, ImportDescType::Global) + opt_len(self@.globals),
    {
        let imported = self.count_imported(ImportDescType::Global);
        let local = match &self.globals {
            Some(f) => f.len(),
            None => 0,
        };
        imported + local
    }
}

struct ModuleReader<'a> {
    reader: Reader<'a>,
}

impl<'a> ModuleReader<'a> {
    fn from_module(module: &'a Module) -> (r: Self)
        ensures
            r.reader@ == (RView { bytes: module.bytes@, pos: 0, end: module.bytes@.len() as int }),
    {
        ModuleReader { reader: Reader::from_bytes(module.bytes.as_slice(), 0) }
    }

    fn read_preamble(&mut self) -> (r: Result<(), ReadError>)
        requires
            old(self).reader@ == (RView { bytes: old(self).reader@.bytes, pos: 0, end: old(self).reader@.bytes.len() as int }),
        ensures
            r == spec_preamble(old(self).reader@.bytes),
            r is Ok ==> final(self).reader@ == old(self).reader@.at(8),
    {
        let magic = self.reader.read_exact(4)?;
        if !(magic[0] == 0x00 && magic[1] == 0x61 && magic[2] == 0x73 && magic[3] == 0x6d) {
            proof {
                assert(magic@ != wasm_magic()) by {
                    if magic@ == wasm_magic() {
                        assert(magic@[1] == 0x61);
                    }
                }
            }
            return Err(ReadError::at_offset(ReadErrorKind::BadMagic, 0));
        }
        proof {
            assert(magic@ =~= wasm_magic());
        }
        let version = self.reader.read_exact(4)?;
        if !(version[0] == 0x01 && version[1] == 0x00 && version[2] == 0x00 && version[3] == 0x00) {
            proof {
                assert(version@ != wasm_version()) by {
                    if version@ == wasm_version() {
                        assert(version@[1] == 0x00);
                    }
                }
            }
            return Err(ReadError::at_offset(ReadErrorKind::BadVersion, 4));
        }
        proof {
            assert(version@ =~= wasm_version());
        }
        Ok(())
    }

    fn read_toc(&mut self) -> (r: Result<Vec<SectionInfo>, MalformedError>)
        requires
            old(self).reader@.end == old(self).reader@.bytes.len(),
            old(self).reader@.bytes.len() + u32::MAX <= u64::MAX,
        ensures
            match spec_toc(old(self).reader@.bytes, old(self).reader@.pos, seq![]) {
                Ok(s) => r is Ok && r->Ok_0@ == s,
                Err(e) => r == Err::<Vec<SectionInfo>, MalformedError>(e),
            },
            r is Ok ==> toc_wf(old(self).reader@.bytes, r->Ok_0@),
    {
        let ghost bytes = self.reader@.bytes;
        let ghost pos0 = self.reader@.pos;
        let mut v: Vec<SectionInfo> = Vec::new();
        while !self.reader.is_exhausted()
            invariant
                bytes == old(self).reader@.bytes,
                pos0 == old(self).reader@.pos,
                self.reader@.bytes == bytes,
                self.reader@.end == bytes.len(),
                bytes.len() + u32::MAX <= u64::MAX,
                spec_toc(bytes, pos0, seq![]) == spec_toc(bytes, self.reader@.pos, v@),
                toc_wf(bytes, v@),
            decreases self.reader@.end - self.reader@.pos,
        {
            let offset = self.reader.position() as usize;
            let ghost v0 = self.reader@;
            let b = match self.reader.read_u8() {
                Ok(b) => b,
                Err(e) => return Err(MalformedError::Read(e)),
            };
            let id = match SectionId::try_from(b) {
                Ok(id) => id,
                Err(e) => {
                    proof {
                        assert(v0 == (RView { bytes, pos: v0.pos, end: bytes.len() as int }));
                    }
                    return Err(
                        MalformedError::Read(ReadError { kind: ReadErrorKind::InvalidEnumValue(e), offset }),
                    )
                },
            };
            if id != SectionId::Custom {
                if let Some(other) = find_seen(&v, id) {
                    return Err(MalformedError::DuplicateSection { offset, id, other });
                }
            }
            let ghost v1 = self.reader@;
            proof {
                assert(v1 == v0.at(v1.pos));
            }
            let size = match self.reader.read_u32() {
                Ok(s) => s,
                Err(e) => return Err(MalformedError::Read(e)),
            };
            let start = self.reader.position();
            let end = start + size as u64;
            let info = SectionInfo { offset, id, start, end, size };
            if v.len() > 0 {
                let prev = v[v.len() - 1];
                if prev.id != SectionId::Custom && id != SectionId::Custom && id.order() < prev.id.order() {
                    return Err(MalformedError::SectionOrder { offset, id, other: prev });
                }
            }
            v.push(info);
            let remaining = self.reader.remaining();
            if size as usize > remaining {
                // The section reaches past the end: nothing follows it.
                return Ok(v);
            }
            self.reader.advance(size as usize);
        }
        Ok(v)
    }
}

/// The latest section of the table with the given id.
fn find_seen(v: &Vec<SectionInfo>, id: SectionId) -> (r: Option<SectionInfo>)
    ensures
        r == find_section(v@, id),
{
    let mut i: usize = v.len();
    proof {
        assert(v@.take(i as int) =~= v@);
    }
    while i > 0
        invariant
            i <= v@.len(),
            find_section(v@, id) == find_section(v@.take(i as int), id),
        decreases i,
    {
        proof {
            assert(v@.take(i as int).drop_last() =~= v@.take(i - 1));
        }
        if v[i - 1].id == id {
            return Some(v[i - 1]);
        }
        i = i - 1;
    }
    None
}

pub proof fn lemma_apply_err(m: ModuleV, infos: Seq<SectionInfo>, k: int)
    requires
        0 <= k <= infos.len(),
        spec_apply_sections(m, infos.take(k)) is Err,
    ensures
        spec_apply_sections(m, infos) == spec_apply_sections(m, infos.take(k)),
    decreases infos.len() - k,
{
    if k == infos.len() {
        assert(infos.take(k) =~= infos);
    } else {
        assert(infos.take(k + 1).drop_last() =~= infos.take(k));
        lemma_apply_err(m, infos, k + 1);
    }
}

impl Module {
    /// Decodes one section of the table into the module.
    fn apply_section(&mut self, item: SectionInfo) -> (r: Result<(), MalformedError>)
        requires
            item.start <= old(self)@.bytes.len(),
            item.end == item.start + item.size,
        ensures
            match spec_apply_section(old(self)@, item) {
                Ok(m) => r is Ok && final(self)@ == m,
                Err(e) => r == Err::<(), MalformedError>(e),
            },
            final(self)@.bytes == old(self)@.bytes,
            final(self)@.sections == old(self)@.sections,
    {
        reveal(spec_apply_section);
        let len = self.bytes.len();
        if item.end > len as u64 {
            return Err(
                MalformedError::Section(
                    SectionError {
                        kind: Box::new(
                            SectionErrorKind::SectionSize(
                                ReadError {
                                    offset: item.start as usize,
                                    kind: ReadErrorKind::OutOfRange {
                                        size: (item.end - item.start) as u32,
                                        remaining: len as u64 - item.start,
                                    },
                                },
                            ),
                        ),
                        info: item,
                        idx: None,
                    },
                ),
            );
        }
        let mut reader = match Reader::from_bytes_range(self.bytes.as_slice(), item.start as usize, item.end as usize) {
            Ok(r) => r,
            Err(e) => {
                return Err(
                    MalformedError::Section(
                        SectionError { kind: Box::new(SectionErrorKind::SectionSize(e)), info: item, idx: None },
                    ),
                )
            },
        };
        match item.id {
            SectionId::Custom => {
                let c = match decode_custom_section(&mut reader, item) {
                    Ok(c) => c,
                    Err(e) => return Err(MalformedError::Section(e)),
                };
                let ghost old_customs = self.customs@;
                self.customs.push(c);
                proof {
                    assert(vec_view(self.customs@) =~= vec_view(old_customs).push(c@));
                }
            },
            SectionId::Type => {
                let s = match decode_section(&mut reader, item) {
                    Ok(s) => s,
                    Err(e) => return Err(MalformedError::Section(e)),
                };
                self.types = Some(s);
            },
            SectionId::Import => {
                let s = match decode_section(&mut reader, item) {
                    Ok(s) => s,
                    Err(e) => return Err(MalformedError::Section(e)),
                };
                self.imports = Some(s);
            },
            SectionId::Function => {
                let s = match decode_section(&mut reader, item) {
                    Ok(s) => s,
                    Err(e) => return Err(MalformedError::Section(e)),
                };
                self.functions = Some(s);
            },
            SectionId::Table => {
                let s = match decode_section(&mut reader, item) {
                    Ok(s) => s,
                    Err(e) => return Err(MalformedError::Section(e)),
                };
                self.tables = Some(s);
            },
            SectionId::Memory => {
                let s = match decode_section(&mut reader, item) {
                    Ok(s) => s,
                    Err(e) => return Err(MalformedError::Section(e)),
                };
                self.memories = Some(s);
            },
            SectionId::Global => {
                let s = match decode_section(&mut reader, item) {
                    Ok(s) => s,
                    Err(e) => return Err(MalformedError::Section(e)),
                };
                self.globals = Some(s);
            },
            SectionId::Export => {
                let s = match decode_section(&mut reader, item) {
                    Ok(s) => s,
                    Err(e) => return Err(MalformedError::Section(e)),
                };
                self.exports = Some(s);
            },
            SectionId::Start => {
                let s = match decode_start_section(&mut reader, item) {
                    Ok(s) => s,
                    Err(e) => return Err(MalformedError::Section(e)),
                };
                self.start = Some(s);
            },
            SectionId::Element => {
                let s = match decode_section(&mut reader, item) {
                    Ok(s) => s,
                    Err(e) => return Err(MalformedError::Section(e)),
                };
                self.elements = Some(s);
            },
            SectionId::Code => {
                let s = match decode_section(&mut reader, item) {
                    Ok(s) => s,
                    Err(e) => return Err(MalformedError::Section(e)),
                };
                self.codes = Some(s);
            },
            SectionId::Data => {
                let s: DataSection = match decode_section(&mut reader, item) {
                    Ok(s) => s,
                    Err(e) => return Err(MalformedError::Section(e)),
                };
                // The number of data entries must match the data count section, if present
                if let Some(dc) = &self.data_count {
                    if s.len() != dc.0 as usize {
                        return Err(
                            MalformedError::InconsistentLength { section: item.id, other: SectionId::DataCount },
                        );
                    }
                }
                self.data = Some(s);
            },
            SectionId::DataCount => {
                let s = match decode_data_count_section(&mut reader, item) {
                    Ok(s) => s,
                    Err(e) => return Err(MalformedError::Section(e)),
                };
                self.data_count = Some(s);
            },
        }
        Ok(())
    }
}

/// Whether some code refers to data segments.
fn uses_data_segments(codes: &Vec<CodeEntry>) -> (r: bool)
    ensures
        r == uses_data_instr(vec_view(codes@)),
{
    let ghost cv = vec_view(codes@);
    let mut i: usize = 0;
    while i < codes.len()
        invariant
            cv == vec_view(codes@),
            i <= codes@.len(),
            forall|a: int, b: int|
                0 <= a < i && 0 <= b < cv[a].body.len() ==> !#[trigger] is_data_instr(cv[a].body[b]),
        decreases codes@.len() - i,
    {
        let body = &codes[i].body;
        let mut j: usize = 0;
        while j < body.len()
            invariant
                cv == vec_view(codes@),
                i < codes@.len(),
                body == codes@[i as int].body,
                j <= body@.len(),
                forall|a: int, b: int|
                    0 <= a < i && 0 <= b < cv[a].body.len() ==> !#[trigger] is_data_instr(cv[a].body[b]),
                forall|b: int| 0 <= b < j ==> !#[trigger] is_data_instr(cv[i as int].body[b]),
            decreases body@.len() - j,
        {
            let found = match &body[j] {
                Instruction::MemoryInit(_) | Instruction::DataDrop(_) => true,
                _ => false,
            };
            if found {
                proof {
                    assert(is_data_instr(cv[i as int].body[j as int]));
                }
                return true;
            }
            j = j + 1;
        }
        i = i + 1;
    }
    false
}

/// The checks that span sections.
fn check_module(m: &Module) -> (r: Result<(), MalformedError>)
    ensures
        r == spec_check_module(m@),
{
    // Function and Code must have consistent lengths
    let fs_len = match &m.functions {
        Some(fs) => fs.len(),
        None => 0,
    };
    let cs_len = match &m.codes {
        Some(cs) => cs.len(),
        None => 0,
    };
    if fs_len != cs_len {
        return Err(MalformedError::InconsistentLength { section: SectionId::Code, other: SectionId::Function });
    }
    // Data and Data Count must have consistent lengths
    if let Some(dc) = &m.data_count {
        let ds_len = match &m.data {
            Some(ds) => ds.len(),
            None => 0,
        };
        if ds_len != dc.0 as usize {
            return Err(MalformedError::InconsistentLength { section: SectionId::Data, other: SectionId::DataCount });
        }
    }
    // The data count section is required by memory.init and data.drop
    if m.data_count.is_none() {
        if let Some(codes) = &m.codes {
            if uses_data_segments(codes) {
                return Err(MalformedError::SectionRequired { section: SectionId::DataCount });
            }
        }
    }
    Ok(())
}

/// Decode a module from bytes (parsing only, no instantiation)
pub fn decode_bytes(bytes: Vec<u8>) -> (r: Result<Module, MalformedError>)
    requires
        bytes@.len() + u32::MAX <= u64::MAX,
    ensures
        match spec_decode_bytes(bytes@) {
            Ok(m) => r is Ok && r->Ok_0@ == m,
            Err(e) => r == Err::<Module, MalformedError>(e),
        },
{
    let ghost b = bytes@;
    let mut m = Module::from_bytes(bytes);
    let sections = {
        let mut r = ModuleReader::from_module(&m);
        match r.read_preamble() {
            Ok(()) => {},
            Err(e) => return Err(MalformedError::Preamble(e)),
        }
        r.read_toc()?
    };
    m.sections = sections;
    let ghost infos = m.sections@;
    let ghost m0 = m@;
    proof {
        assert(m0 == empty_module(b, infos));
        assert(infos.take(0) =~= seq![]);
    }
    let mut i: usize = 0;
    while i < m.sections.len()
        invariant
            b == bytes@,
            spec_preamble(b) is Ok,
            spec_toc(b, 8, seq![]) == Ok::<Seq<SectionInfo>, MalformedError>(infos),
            m0 == empty_module(b, infos),
            m.sections@ == infos,
            m.bytes@ == b,
            i <= infos.len(),
            toc_wf(b, infos),
            spec_apply_sections(m0, infos.take(i as int)) == Ok::<ModuleV, MalformedError>(m@),
        decreases infos.len() - i,
    {
        let item = m.sections[i];
        let ghost before = m@;
        proof {
            assert(infos.take(i + 1).drop_last() =~= infos.take(i as int));
            assert(infos.take(i + 1).last() == item);
        }
        let res = m.apply_section(item);
        match res {
            Ok(()) => {},
            Err(e) => {
                proof {
                    assert(spec_apply_sections(m0, infos.take(i + 1)) == spec_apply_section(before, item));
                    lemma_apply_err(m0, infos, i + 1);
                }
                return Err(e);
            },
        }
        i = i + 1;
    }
    proof {
        assert(infos.take(i as int) =~= infos);
    }
    check_module(&m)?;
    Ok(m)
}


/// Of a table of sections: no id but the custom one occurs twice, and of
/// two adjacent sections, neither of them custom, the later one comes later
/// in the order of sections.
pub open spec fn toc_ordered(s: Seq<SectionInfo>) -> bool {
    &&& forall|i: int, j: int|
        0 <= i < j < s.len() && (#[trigger] s[i]).id == (#[trigger] s[j]).id ==> s[i].id == SectionId::Custom
    &&& forall|i: int, j: int|
        0 <= i && j == i + 1 && j < s.len() && (#[trigger] s[i]).id != SectionId::Custom && (#[trigger] s[j]).id
            != SectionId::Custom ==> spec_order(s[i].id) < spec_order(s[j].id)
}

/// Sections of different ids have different places in the order.
pub proof fn lemma_order_injective(a: SectionId, b: SectionId)
    ensures
        spec_order(a) == spec_order(b) <==> a == b,
{
}

proof fn lemma_find_section_none(acc: Seq<SectionInfo>, id: SectionId)
    requires
        find_section(acc, id) is None,
    ensures
        forall|i: int| 0 <= i < acc.len() ==> (#[trigger] acc[i]).id != id,
    decreases acc.len(),
{
    if acc.len() > 0 {
        lemma_find_section_none(acc.drop_last(), id);
        assert forall|i: int| 0 <= i < acc.len() implies (#[trigger] acc[i]).id != id by {
            if i < acc.len() - 1 {
                assert(acc.drop_last()[i] == acc[i]);
            }
        }
    }
}

proof fn lemma_toc_push(acc: Seq<SectionInfo>, info: SectionInfo)
    requires
        toc_ordered(acc),
        info.id != SectionId::Custom ==> find_section(acc, info.id) is None,
        !out_of_order(acc, info.id),
    ensures
        toc_ordered(acc.push(info)),
{
    let acc2 = acc.push(info);
    if info.id != SectionId::Custom {
        lemma_find_section_none(acc, info.id);
    }
    assert forall|i: int, j: int|
        0 <= i < j < acc2.len() && (#[trigger] acc2[i]).id == (#[trigger] acc2[j]).id implies acc2[i].id
        == SectionId::Custom by {
        assert(acc2[i] == acc[i]);
        if j < acc.len() {
            assert(acc2[j] == acc[j]);
        }
    }
    assert forall|i: int, j: int|
        0 <= i && j == i + 1 && j < acc2.len() && (#[trigger] acc2[i]).id != SectionId::Custom && (
        #[trigger] acc2[j]).id != SectionId::Custom implies spec_order(acc2[i].id) < spec_order(acc2[j].id) by {
        assert(acc2[i] == acc[i]);
        if j < acc.len() {
            assert(acc2[j] == acc[j]);
        } else {
            assert(acc[i] == acc.last());
            lemma_order_injective(info.id, acc[i].id);
        }
    }
}

proof fn lemma_toc_ordered_from(bytes: Seq<u8>, pos: int, acc: Seq<SectionInfo>)
    requires
        toc_ordered(acc),
        spec_toc(bytes, pos, acc) is Ok,
    ensures
        toc_ordered(spec_toc(bytes, pos, acc)->Ok_0),
    decreases bytes.len() - pos,
{
    if pos < bytes.len() {
        let v = RView { bytes, pos, end: bytes.len() as int };
        let (b, p0) = spec_read_u8(v)->Ok_0;
        let id = spec_section_id_of(b)->Some_0;
        let (size, p) = spec_read_u32(v.at(p0))->Ok_0;
        let info = SectionInfo { id, offset: pos as usize, start: p as u64, end: (p + size) as u64, size };
        lemma_toc_push(acc, info);
        if !(p <= pos || p + size >= bytes.len()) {
            lemma_toc_ordered_from(bytes, p + size, acc.push(info));
        }
    }
}

/// The table of sections of a decoded module is in order, without
/// duplicate sections but custom ones.
pub proof fn lemma_decoded_sections_ordered(bytes: Seq<u8>)
    requires
        spec_decode_bytes(bytes) is Ok,
    ensures
        toc_ordered(spec_decode_bytes(bytes)->Ok_0.sections),
        spec_decode_bytes(bytes)->Ok_0.bytes == bytes,
{
    let infos = spec_toc(bytes, 8, seq![])->Ok_0;
    lemma_toc_ordered_from(bytes, 8, seq![]);
    lemma_apply_keeps_table(empty_module(bytes, infos), infos);
}

proof fn lemma_apply_section_keeps_table(m: ModuleV, info: SectionInfo)
    requires
        spec_apply_section(m, info) is Ok,
    ensures
        spec_apply_section(m, info)->Ok_0.sections == m.sections,
        spec_apply_section(m, info)->Ok_0.bytes == m.bytes,
{
    reveal(spec_apply_section);
}

proof fn lemma_apply_keeps_table(m: ModuleV, infos: Seq<SectionInfo>)
    requires
        spec_apply_sections(m, infos) is Ok,
    ensures
        spec_apply_sections(m, infos)->Ok_0.sections == m.sections,
        spec_apply_sections(m, infos)->Ok_0.bytes == m.bytes,
    decreases infos.len(),
{
    if infos.len() > 0 {
        lemma_apply_keeps_table(m, infos.drop_last());
        lemma_apply_section_keeps_table(spec_apply_sections(m, infos.drop_last())->Ok_0, infos.last());
    }
}

/// A decoded module has as many code entries as functions, as many data
/// segments as its data count says, and a data count if its code refers to
/// data segments.
pub proof fn lemma_decoded_module_consistent(bytes: Seq<u8>)
    requires
        spec_decode_bytes(bytes) is Ok,
    ensures
        ({
            let m = spec_decode_bytes(bytes)->Ok_0;
            &&& opt_len(m.functions) == opt_len(m.codes)
            &&& m.data_count is Some ==> opt_len(m.data) == m.data_count->Some_0.0
            &&& (m.codes is Some && uses_data_instr(m.codes->Some_0)) ==> m.data_count is Some
        }),
{
}

} // verus!
