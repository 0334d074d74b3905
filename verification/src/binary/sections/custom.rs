//! Custom sections: a name, and uninterpreted data up to the section's end.
use vstd::prelude::*;
use vstd::string::*;

use core::ops::Range;

use crate::binary::reader::{RView, ReadError, Reader, spec_read_name};
use crate::binary::sections::{SectionError, SectionErrorKind, SectionInfo, section_error};

verus! {

/// Custom Section
#[derive(Debug)]
pub struct CustomSection {
    pub name: String,
    pub data_span: Range<usize>,
}

/// The model of a custom section: its name and the span of its data.
pub struct CustomSectionV {
    pub name: Seq<char>,
    pub data_start: int,
    pub data_end: int,
}

impl View for CustomSection {
    type V = CustomSectionV;

    open spec fn view(&self) -> CustomSectionV {
        CustomSectionV { name: self.name@, data_start: self.data_span.start as int, data_end: self.data_span.end as int }
    }
}

/// Errors
#[derive(Debug)]
#[non_exhaustive]
pub enum CustomSectionReadError {
    Name(ReadError),
}

impl CustomSectionReadError {
    /// The text of this error.
    pub open spec fn message(&self) -> Seq<char> {
        match self {
            CustomSectionReadError::Name(..) => "reading the name"@,
        }
    }

    /// Renders the error as text.
    pub fn to_string(&self) -> (s: String)
        ensures
            s@ == self.message(),
    {
        match self {
            CustomSectionReadError::Name(..) => String::from_str("reading the name"),
        }
    }
}

/// A custom section: a name, then data up to the section's end.
pub open spec fn spec_custom_section(v: RView, info: SectionInfo) -> Result<CustomSectionV, SectionError> {
    match spec_read_name(v) {
        Ok((name, p)) => Ok(CustomSectionV { name, data_start: p, data_end: info.end as usize as int }),
        Err(e) => Err(section_error(SectionErrorKind::CustomSection(CustomSectionReadError::Name(e)), info)),
    }
}

pub fn decode_custom_section(reader: &mut Reader, info: SectionInfo) -> (r: Result<CustomSection, SectionError>)
    ensures
        match spec_custom_section(old(reader)@, info) {
            Ok(c) => r is Ok && r->Ok_0@ == c,
            Err(e) => r == Err::<CustomSection, SectionError>(e),
        },
        final(reader)@.same_window(old(reader)@),
{
    let name = match reader.read_name() {
        Ok(n) => n,
        Err(e) => {
            return Err(
                SectionError {
                    kind: Box::new(SectionErrorKind::CustomSection(CustomSectionReadError::Name(e))),
                    info,
                    idx: None,
                },
            )
        },
    };
    let start = reader.position() as usize;
    Ok(CustomSection { name, data_span: start..(info.end as usize) })
}

} // verus!
