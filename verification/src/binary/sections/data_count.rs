//! The data count section: the number of data segments.
use vstd::prelude::*;

use crate::binary::reader::{RView, Reader, spec_read_u32};
use crate::binary::sections::{SectionError, SectionErrorKind, SectionInfo, section_error};

verus! {

/// Data Count Section
#[derive(Debug, Clone, Copy, PartialEq, Eq, Structural)]
pub struct DataCountSection(pub u32);

/// The data count section: a count of data segments.
pub open spec fn spec_data_count_section(v: RView, info: SectionInfo) -> Result<DataCountSection, SectionError> {
    match spec_read_u32(v) {
        Ok((x, _)) => Ok(DataCountSection(x)),
        Err(e) => Err(section_error(SectionErrorKind::DataCountSection(e), info)),
    }
}

pub fn decode_data_count_section(reader: &mut Reader, info: SectionInfo) -> (r: Result<DataCountSection, SectionError>)
    ensures
        r == spec_data_count_section(old(reader)@, info),
        final(reader)@.same_window(old(reader)@),
        r is Ok ==> final(reader)@.pos == spec_read_u32(old(reader)@)->Ok_0.1,
{
    match reader.read_u32() {
        Ok(x) => Ok(DataCountSection(x)),
        Err(e) => Err(SectionError { kind: Box::new(SectionErrorKind::DataCountSection(e)), info, idx: None }),
    }
}

} // verus!
