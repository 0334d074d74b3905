//! The global section: global types with their initializer expressions.
use vstd::prelude::*;
use vstd::string::*;

use crate::binary::reader::{FromReader, InvalidEnumValueError, RView, ReadError, ReadErrorKind, Reader};
use crate::binary::sections::{SectionEntry, SectionErrorKind};
use crate::binary::types::{ConstExpression, ConstExpressionReadError, ValType, spec_const_expr, spec_enum_byte};
use crate::instructions::InstrV;

verus! {

/// Global Section
pub type GlobalSection = Vec<GlobalEntry>;

#[derive(Debug, Clone, Copy, PartialEq, Eq, Structural)]
pub enum MutabilityFlag {
    Const,
    Var,
}

pub open spec fn spec_mutability_of(b: u8) -> Option<MutabilityFlag> {
    if b == 0 {
        Some(MutabilityFlag::Const)
    } else if b == 1 {
        Some(MutabilityFlag::Var)
    } else {
        None
    }
}

impl MutabilityFlag {
    pub fn try_from(value: u8) -> (r: Result<MutabilityFlag, InvalidEnumValueError>)
        ensures
            match spec_mutability_of(value) {
                Some(t) => r == Ok::<MutabilityFlag, InvalidEnumValueError>(t),
                None => r == Err::<MutabilityFlag, InvalidEnumValueError>(
                    InvalidEnumValueError { value, enum_name: "wasmrs::binary::sections::global::MutabilityFlag" },
                ),
            },
    {
        match value {
            0x00 => Ok(MutabilityFlag::Const),
            0x01 => Ok(MutabilityFlag::Var),
            _ => Err(
                InvalidEnumValueError { value, enum_name: "wasmrs::binary::sections::global::MutabilityFlag" },
            ),
        }
    }
}

impl View for MutabilityFlag {
    type V = MutabilityFlag;

    open spec fn view(&self) -> MutabilityFlag {
        *self
    }
}

impl FromReader for MutabilityFlag {
    type Error = ReadError;

    open spec fn spec_from_reader(v: RView) -> Result<(MutabilityFlag, int), ReadError> {
        spec_enum_byte(v, |b: u8| spec_mutability_of(b), "wasmrs::binary::sections::global::MutabilityFlag")
    }

    fn from_reader(reader: &mut Reader) -> (res: Result<MutabilityFlag, ReadError>) {
        let pos = reader.position() as usize;
        let b = reader.read_u8()?;
        match MutabilityFlag::try_from(b) {
            Ok(t) => Ok(t),
            Err(e) => Err(ReadError::at_offset(ReadErrorKind::InvalidEnumValue(e), pos)),
        }
    }
}

#[derive(Debug, Clone, Copy, PartialEq, Eq, Structural)]
pub struct GlobalType {
    pub type_: ValType,
    pub mutflag: MutabilityFlag,
}

impl View for GlobalType {
    type V = GlobalType;

    open spec fn view(&self) -> GlobalType {
        *self
    }
}

#[derive(Debug)]
#[non_exhaustive]
pub enum GlobalTypeReadError {
    Type(ReadError),
    MutabilityFlag(ReadError),
}

impl GlobalTypeReadError {
    /// The text of this error.
    pub open spec fn message(&self) -> Seq<char> {
        match self {
            GlobalTypeReadError::Type(..) => "reading its value type"@,
            GlobalTypeReadError::MutabilityFlag(..) => "reading its mutability"@,
        }
    }

    /// Renders the error as text.
    pub fn to_string(&self) -> (s: String)
        ensures
            s@ == self.message(),
    {
        match self {
            GlobalTypeReadError::Type(..) => String::from_str("reading its value type"),
            GlobalTypeReadError::MutabilityFlag(..) => String::from_str("reading its mutability"),
        }
    }
}

/// A global type: a value type, then the mutability.
pub open spec fn spec_globaltype(v: RView) -> Result<(GlobalType, int), GlobalTypeReadError> {
    match ValType::spec_from_reader(v) {
        Err(e) => Err(GlobalTypeReadError::Type(e)),
        Ok((type_, p)) => match MutabilityFlag::spec_from_reader(v.at(p)) {
            Err(e) => Err(GlobalTypeReadError::MutabilityFlag(e)),
            Ok((mutflag, q)) => Ok((GlobalType { type_, mutflag }, q)),
        },
    }
}

impl FromReader for GlobalType {
    type Error = GlobalTypeReadError;

    open spec fn spec_from_reader(v: RView) -> Result<(GlobalType, int), GlobalTypeReadError> {
        spec_globaltype(v)
    }

    fn from_reader(reader: &mut Reader) -> (res: Result<GlobalType, GlobalTypeReadError>) {
        let type_ = match ValType::from_reader(reader) {
            Ok(t) => t,
            Err(e) => return Err(GlobalTypeReadError::Type(e)),
        };
        let mutflag = match MutabilityFlag::from_reader(reader) {
            Ok(m) => m,
            Err(e) => return Err(GlobalTypeReadError::MutabilityFlag(e)),
        };
        Ok(GlobalType { type_, mutflag })
    }
}

#[derive(Debug)]
pub struct GlobalEntry {
    pub gt: GlobalType,
    pub body: ConstExpression,
}

/// The model of a global entry.
pub struct GlobalEntryV {
    pub gt: GlobalType,
    pub body: Seq<InstrV>,
}

impl View for GlobalEntry {
    type V = GlobalEntryV;

    open spec fn view(&self) -> GlobalEntryV {
        GlobalEntryV { gt: self.gt, body: self.body@ }
    }
}

/// Errors
#[derive(Debug)]
#[non_exhaustive]
pub enum GlobalSectionReadError {
    GlobalType(GlobalTypeReadError),
    GlobalExpression(ConstExpressionReadError),
}

impl GlobalSectionReadError {
    /// The text of this error.
    pub open spec fn message(&self) -> Seq<char> {
        match self {
            GlobalSectionReadError::GlobalType(..) => "reading the global type"@,
            GlobalSectionReadError::GlobalExpression(..) => "reading the global expression"@,
        }
    }

    /// Renders the error as text.
    pub fn to_string(&self) -> (s: String)
        ensures
            s@ == self.message(),
    {
        match self {
            GlobalSectionReadError::GlobalType(..) => String::from_str("reading the global type"),
            GlobalSectionReadError::GlobalExpression(..) => String::from_str("reading the global expression"),
        }
    }
}

/// A global: its type, then its initializer expression.
pub open spec fn spec_global_entry(v: RView) -> Result<(GlobalEntryV, int), SectionErrorKind> {
    match spec_globaltype(v) {
        Err(e) => Err(SectionErrorKind::GlobalSection(GlobalSectionReadError::GlobalType(e))),
        Ok((gt, p)) => match spec_const_expr(v.at(p)) {
            Err(e) => Err(SectionErrorKind::GlobalSection(GlobalSectionReadError::GlobalExpression(e))),
            Ok((body, q)) => Ok((GlobalEntryV { gt, body }, q)),
        },
    }
}

impl SectionEntry for GlobalEntry {
    open spec fn spec_decode(v: RView) -> Result<(GlobalEntryV, int), SectionErrorKind> {
        spec_global_entry(v)
    }

    fn decode(reader: &mut Reader) -> (res: Result<GlobalEntry, SectionErrorKind>) {
        let gt = match GlobalType::from_reader(reader) {
            Ok(g) => g,
            Err(e) => return Err(SectionErrorKind::GlobalSection(GlobalSectionReadError::GlobalType(e))),
        };
        let body = match ConstExpression::from_reader(reader) {
            Ok(b) => b,
            Err(e) => return Err(SectionErrorKind::GlobalSection(GlobalSectionReadError::GlobalExpression(e))),
        };
        Ok(GlobalEntry { gt, body })
    }
}

} // verus!
