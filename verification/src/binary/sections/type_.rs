//! The type section: function types.
use vstd::prelude::*;
use vstd::string::*;

use crate::binary::reader::{
    FromReader, RView, ReadError, ReadErrorKind, Reader, VecReadError, spec_read_u8, spec_read_vec_of,
    vec_view,
};
use crate::binary::sections::{SectionEntry, SectionErrorKind};
use crate::binary::types::{FuncType, FuncTypeV, ValType};

verus! {

/// Type Section
pub type TypeSection = Vec<FuncType>;

/// Errors
#[derive(Debug)]
#[non_exhaustive]
pub enum TypeSectionReadError {
    FuncTypeMarker(ReadError),
    FuncTypeParams(VecReadError<ReadError>),
    FuncTypeResults(VecReadError<ReadError>),
}

impl TypeSectionReadError {
    /// The text of this error.
    pub open spec fn message(&self) -> Seq<char> {
        match self {
            TypeSectionReadError::FuncTypeMarker(..) => "reading the functype marker"@,
            TypeSectionReadError::FuncTypeParams(..) => "reading the function param types"@,
            TypeSectionReadError::FuncTypeResults(..) => "reading the function result types"@,
        }
    }

    /// Renders the error as text.
    pub fn to_string(&self) -> (s: String)
        ensures
            s@ == self.message(),
    {
        match self {
            TypeSectionReadError::FuncTypeMarker(..) => String::from_str("reading the functype marker"),
            TypeSectionReadError::FuncTypeParams(..) => String::from_str("reading the function param types"),
            TypeSectionReadError::FuncTypeResults(..) => String::from_str("reading the function result types"),
        }
    }
}

/// The byte 0x60 that starts a function type.
pub open spec fn spec_functype_marker(v: RView) -> Result<int, ReadError> {
    match spec_read_u8(v) {
        Err(e) => Err(e),
        Ok((b, p)) => if b == 0x60 {
            Ok(p)
        } else {
            Err(ReadError {
                offset: v.pos as usize,
                kind: ReadErrorKind::UnexpectedValue { value: b as i64, expected: "96" },
            })
        },
    }
}

fn read_functype_marker(reader: &mut Reader) -> (r: Result<(), ReadError>)
    ensures
        match spec_functype_marker(old(reader)@) {
            Ok(p) => r is Ok && final(reader)@.pos == p,
            Err(e) => r == Err::<(), ReadError>(e),
        },
        final(reader)@.same_window(old(reader)@),
        r is Ok ==> old(reader)@.pos <= final(reader)@.pos <= final(reader)@.end,
{
    let offset = reader.position() as usize;
    let v = reader.read_u8()?;
    if v == 0x60 {
        Ok(())
    } else {
        Err(ReadError { offset, kind: ReadErrorKind::UnexpectedValue { value: v as i64, expected: "96" } })
    }
}

/// A function type: the marker, the parameter types, the result types.
pub open spec fn spec_functype(v: RView) -> Result<(FuncTypeV, int), SectionErrorKind> {
    match spec_functype_marker(v) {
        Err(e) => Err(SectionErrorKind::TypeSection(TypeSectionReadError::FuncTypeMarker(e))),
        Ok(p) => match spec_read_vec_of::<ValType>(v.at(p)) {
            Err(e) => Err(SectionErrorKind::TypeSection(TypeSectionReadError::FuncTypeParams(e))),
            Ok((params, q)) => match spec_read_vec_of::<ValType>(v.at(q)) {
                Err(e) => Err(SectionErrorKind::TypeSection(TypeSectionReadError::FuncTypeResults(e))),
                Ok((results, r)) => Ok((FuncTypeV { params, results }, r)),
            },
        },
    }
}

impl SectionEntry for FuncType {
    open spec fn spec_decode(v: RView) -> Result<(FuncTypeV, int), SectionErrorKind> {
        spec_functype(v)
    }

    fn decode(reader: &mut Reader) -> (res: Result<FuncType, SectionErrorKind>) {
        if let Err(e) = read_functype_marker(reader) {
            return Err(SectionErrorKind::TypeSection(TypeSectionReadError::FuncTypeMarker(e)));
        }
        let params: Vec<ValType> = match reader.read_vec() {
            Ok(p) => p,
            Err(e) => return Err(SectionErrorKind::TypeSection(TypeSectionReadError::FuncTypeParams(e))),
        };
        let results: Vec<ValType> = match reader.read_vec() {
            Ok(r) => r,
            Err(e) => return Err(SectionErrorKind::TypeSection(TypeSectionReadError::FuncTypeResults(e))),
        };
        proof {
            assert(vec_view(params@) =~= params@);
            assert(vec_view(results@) =~= results@);
        }
        Ok(FuncType { params, results })
    }
}

} // verus!
