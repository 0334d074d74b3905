//! The start section: the index of the function run at instantiation.
use vstd::prelude::*;

use crate::binary::reader::{RView, Reader, spec_read_u32};
use crate::binary::sections::{SectionError, SectionErrorKind, SectionInfo, section_error};
use crate::binary::types::FuncIdx;

verus! {

/// Start Section
#[derive(Debug, Clone, Copy, PartialEq, Eq, Structural)]
pub struct StartSection(pub FuncIdx);

/// The start section: a function index. A failure to read it is reported
/// as `DataCountSection`, as the error kinds have no start section variant.
pub open spec fn spec_start_section(v: RView, info: SectionInfo) -> Result<StartSection, SectionError> {
    match spec_read_u32(v) {
        Ok((x, _)) => Ok(StartSection(x)),
        Err(e) => Err(section_error(SectionErrorKind::DataCountSection(e), info)),
    }
}

pub fn decode_start_section(reader: &mut Reader, info: SectionInfo) -> (r: Result<StartSection, SectionError>)
    ensures
        r == spec_start_section(old(reader)@, info),
        final(reader)@.same_window(old(reader)@),
        r is Ok ==> final(reader)@.pos == spec_read_u32(old(reader)@)->Ok_0.1,
{
    match reader.read_u32() {
        Ok(x) => Ok(StartSection(x)),
        Err(e) => Err(SectionError { kind: Box::new(SectionErrorKind::DataCountSection(e)), info, idx: None }),
    }
}

} // verus!
