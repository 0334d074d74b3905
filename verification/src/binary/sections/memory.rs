//! The memory section: memory types.
use vstd::prelude::*;
use vstd::string::*;

use crate::binary::reader::{FromReader, RView, Reader};
use crate::binary::sections::{SectionEntry, SectionErrorKind};
use crate::binary::types::{Limit, LimitReadError, spec_limit};
use crate::limits::MAX_WASM_32BIT_MEMORY_PAGES;

verus! {

/// Memory Section
#[derive(Debug, Clone, Copy, PartialEq, Eq, Structural)]
pub struct MemType(pub Limit);

impl View for MemType {
    type V = MemType;

    open spec fn view(&self) -> MemType {
        *self
    }
}

/// A memory type's limits are within the 32-bit page limit and ordered.
pub open spec fn spec_memtype_valid(m: MemType) -> bool {
    &&& m.0.min <= MAX_WASM_32BIT_MEMORY_PAGES
    &&& match m.0.max {
        Some(max) => max <= MAX_WASM_32BIT_MEMORY_PAGES && m.0.min <= max,
        None => true,
    }
}

impl MemType {
    pub fn is_valid(&self) -> (r: bool)
        ensures
            r == spec_memtype_valid(*self),
    {
        let l = &self.0;
        l.min <= MAX_WASM_32BIT_MEMORY_PAGES && match l.max {
            Some(max) => max <= MAX_WASM_32BIT_MEMORY_PAGES && l.min <= max,
            None => true,
        }
    }
}

pub type MemorySection = Vec<MemType>;

#[derive(Debug)]
pub struct MemTypeReadError(pub LimitReadError);

impl MemTypeReadError {
    /// The message of this error.
    pub open spec fn message(&self) -> Seq<char> {
        "reading its limits"@
    }

    /// Renders the error as text.
    pub fn to_string(&self) -> (s: String)
        ensures
            s@ == self.message(),
    {
        String::from_str("reading its limits")
    }
}

/// A memory type: its limits.
pub open spec fn spec_memtype(v: RView) -> Result<(MemType, int), MemTypeReadError> {
    match spec_limit(v) {
        Ok((l, p)) => Ok((MemType(l), p)),
        Err(e) => Err(MemTypeReadError(e)),
    }
}

impl FromReader for MemType {
    type Error = MemTypeReadError;

    open spec fn spec_from_reader(v: RView) -> Result<(MemType, int), MemTypeReadError> {
        spec_memtype(v)
    }

    fn from_reader(reader: &mut Reader) -> (res: Result<MemType, MemTypeReadError>) {
        match Limit::from_reader(reader) {
            Ok(l) => Ok(MemType(l)),
            Err(e) => Err(MemTypeReadError(e)),
        }
    }
}

impl SectionEntry for MemType {
    open spec fn spec_decode(v: RView) -> Result<(MemType, int), SectionErrorKind> {
        match spec_memtype(v) {
            Ok(x) => Ok(x),
            Err(e) => Err(SectionErrorKind::MemorySection(e)),
        }
    }

    fn decode(reader: &mut Reader) -> (res: Result<MemType, SectionErrorKind>) {
        match MemType::from_reader(reader) {
            Ok(m) => Ok(m),
            Err(e) => Err(SectionErrorKind::MemorySection(e)),
        }
    }
}

} // verus!
