//! The function section: the type index of each function.
use vstd::prelude::*;

use crate::binary::reader::{RView, Reader, spec_read_u32};
use crate::binary::sections::{SectionEntry, SectionErrorKind};
use crate::binary::types::TypeIdx;

verus! {

/// Function Section
pub type FunctionSection = Vec<TypeIdx>;

impl SectionEntry for u32 {
    open spec fn spec_decode(v: RView) -> Result<(u32, int), SectionErrorKind> {
        match spec_read_u32(v) {
            Ok(x) => Ok(x),
            Err(e) => Err(SectionErrorKind::FunctionSection(e)),
        }
    }

    fn decode(reader: &mut Reader) -> (res: Result<u32, SectionErrorKind>) {
        match reader.read_u32() {
            Ok(x) => Ok(x),
            Err(e) => Err(SectionErrorKind::FunctionSection(e)),
        }
    }
}

} // verus!
