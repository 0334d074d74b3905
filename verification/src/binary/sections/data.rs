//! The data section: segments of bytes, active or passive.
use vstd::prelude::*;
use vstd::string::*;

use crate::binary::reader::{
    FromReader, RView, ReadError, ReadErrorKind, Reader, VecReadError, spec_read_u32, spec_read_vec_of, vec_view,
};
use crate::binary::sections::{SectionEntry, SectionErrorKind};
use crate::binary::types::{ConstExpression, ConstExpressionReadError, spec_const_expr};
use crate::instructions::InstrV;

verus! {

/// Data Section
#[derive(Debug)]
pub enum DataSegmentMode {
    Active { mem_index: u32, offset: ConstExpression },
    Passive,
}

/// The model of a data segment's mode.
pub enum DataSegmentModeV {
    Active { mem_index: u32, offset: Seq<InstrV> },
    Passive,
}

impl View for DataSegmentMode {
    type V = DataSegmentModeV;

    open spec fn view(&self) -> DataSegmentModeV {
        match self {
            DataSegmentMode::Active { mem_index, offset } => DataSegmentModeV::Active {
                mem_index: *mem_index,
                offset: offset@,
            },
            DataSegmentMode::Passive => DataSegmentModeV::Passive,
        }
    }
}

#[derive(Debug)]
pub enum DataSegmentModeReadError {
    Flag(ReadError),
    MemIndex(ReadError),
    Expression(ConstExpressionReadError),
}

impl DataSegmentModeReadError {
    /// The text of this error.
    pub open spec fn message(&self) -> Seq<char> {
        match self {
            DataSegmentModeReadError::Flag(..) => "reading flag"@,
            DataSegmentModeReadError::MemIndex(..) => "reading mem index"@,
            DataSegmentModeReadError::Expression(..) => "reading expression"@,
        }
    }

    /// Renders the error as text.
    pub fn to_string(&self) -> (s: String)
        ensures
            s@ == self.message(),
    {
        match self {
            DataSegmentModeReadError::Flag(..) => String::from_str("reading flag"),
            DataSegmentModeReadError::MemIndex(..) => String::from_str("reading mem index"),
            DataSegmentModeReadError::Expression(..) => String::from_str("reading expression"),
        }
    }
}

/// The offset expression of an active segment, in the given memory.
pub open spec fn spec_active_data(v: RView, mem_index: u32) -> Result<(DataSegmentModeV, int), DataSegmentModeReadError> {
    match spec_const_expr(v) {
        Err(e) => Err(DataSegmentModeReadError::Expression(e)),
        Ok((offset, p)) => Ok((DataSegmentModeV::Active { mem_index, offset }, p)),
    }
}

/// A data segment's mode: flag 0 for an active segment in memory 0, 1 for a
/// passive segment, 2 for an active segment with an explicit memory index.
pub open spec fn spec_data_mode(v: RView) -> Result<(DataSegmentModeV, int), DataSegmentModeReadError> {
    match spec_read_u32(v) {
        Err(e) => Err(DataSegmentModeReadError::Flag(e)),
        Ok((flag, p)) => if flag == 0 {
            spec_active_data(v.at(p), 0)
        } else if flag == 1 {
            Ok((DataSegmentModeV::Passive, p))
        } else if flag == 2 {
            match spec_read_u32(v.at(p)) {
                Err(e) => Err(DataSegmentModeReadError::MemIndex(e)),
                Ok((mem_index, q)) => spec_active_data(v.at(q), mem_index),
            }
        } else {
            Err(
                DataSegmentModeReadError::Flag(
                    ReadError {
                        offset: v.pos as usize,
                        kind: ReadErrorKind::UnexpectedValue { value: flag as i64, expected: "0, 1 or 2" },
                    },
                ),
            )
        },
    }
}

fn read_active_data(reader: &mut Reader, mem_index: u32) -> (res: Result<DataSegmentMode, DataSegmentModeReadError>)
    ensures
        match spec_active_data(old(reader)@, mem_index) {
            Ok((m, p)) => res is Ok && res->Ok_0@ == m && final(reader)@.pos == p,
            Err(e) => res == Err::<DataSegmentMode, DataSegmentModeReadError>(e),
        },
        final(reader)@.same_window(old(reader)@),
        res is Ok ==> old(reader)@.pos <= final(reader)@.pos <= final(reader)@.end,
{
    match ConstExpression::from_reader(reader) {
        Ok(offset) => Ok(DataSegmentMode::Active { mem_index, offset }),
        Err(e) => Err(DataSegmentModeReadError::Expression(e)),
    }
}

impl FromReader for DataSegmentMode {
    type Error = DataSegmentModeReadError;

    open spec fn spec_from_reader(v: RView) -> Result<(DataSegmentModeV, int), DataSegmentModeReadError> {
        spec_data_mode(v)
    }

    fn from_reader(reader: &mut Reader) -> (res: Result<DataSegmentMode, DataSegmentModeReadError>) {
        let offset = reader.position() as usize;
        let flag = match reader.read_u32() {
            Ok(f) => f,
            Err(e) => return Err(DataSegmentModeReadError::Flag(e)),
        };
        if flag == 0 {
            read_active_data(reader, 0)
        } else if flag == 1 {
            Ok(DataSegmentMode::Passive)
        } else if flag == 2 {
            let mem_index = match reader.read_u32() {
                Ok(m) => m,
                Err(e) => return Err(DataSegmentModeReadError::MemIndex(e)),
            };
            read_active_data(reader, mem_index)
        } else {
            Err(
                DataSegmentModeReadError::Flag(
                    ReadError::at_offset(
                        ReadErrorKind::UnexpectedValue { value: flag as i64, expected: "0, 1 or 2" },
                        offset,
                    ),
                ),
            )
        }
    }
}

#[derive(Debug)]
pub struct DataSegment {
    pub mode: DataSegmentMode,
    pub data: Vec<u8>,
}

/// The model of a data segment.
pub struct DataSegmentV {
    pub mode: DataSegmentModeV,
    pub data: Seq<u8>,
}

impl View for DataSegment {
    type V = DataSegmentV;

    open spec fn view(&self) -> DataSegmentV {
        DataSegmentV { mode: self.mode@, data: self.data@ }
    }
}

pub type DataSection = Vec<DataSegment>;

/// Errors
#[derive(Debug)]
#[non_exhaustive]
pub enum DataSectionReadError {
    DataSegmentMode(DataSegmentModeReadError),
    DataSegment(VecReadError<ReadError>),
}

impl DataSectionReadError {
    /// The text of this error.
    pub open spec fn message(&self) -> Seq<char> {
        match self {
            DataSectionReadError::DataSegmentMode(..) => "reading data segment mode"@,
            DataSectionReadError::DataSegment(..) => "reading data segment data"@,
        }
    }

    /// Renders the error as text.
    pub fn to_string(&self) -> (s: String)
        ensures
            s@ == self.message(),
    {
        match self {
            DataSectionReadError::DataSegmentMode(..) => String::from_str("reading data segment mode"),
            DataSectionReadError::DataSegment(..) => String::from_str("reading data segment data"),
        }
    }
}

/// A data segment: its mode, then its bytes as a vector.
pub open spec fn spec_data_segment(v: RView) -> Result<(DataSegmentV, int), SectionErrorKind> {
    match spec_data_mode(v) {
        Err(e) => Err(SectionErrorKind::DataSection(DataSectionReadError::DataSegmentMode(e))),
        Ok((mode, p)) => match spec_read_vec_of::<u8>(v.at(p)) {
            Err(e) => Err(SectionErrorKind::DataSection(DataSectionReadError::DataSegment(e))),
            Ok((data, q)) => Ok((DataSegmentV { mode, data }, q)),
        },
    }
}

impl SectionEntry for DataSegment {
    open spec fn spec_decode(v: RView) -> Result<(DataSegmentV, int), SectionErrorKind> {
        spec_data_segment(v)
    }

    fn decode(reader: &mut Reader) -> (res: Result<DataSegment, SectionErrorKind>) {
        let mode = match DataSegmentMode::from_reader(reader) {
            Ok(m) => m,
            Err(e) => return Err(SectionErrorKind::DataSection(DataSectionReadError::DataSegmentMode(e))),
        };
        let data: Vec<u8> = match reader.read_vec() {
            Ok(d) => d,
            Err(e) => return Err(SectionErrorKind::DataSection(DataSectionReadError::DataSegment(e))),
        };
        proof {
            assert(vec_view(data@) =~= data@);
        }
        Ok(DataSegment { mode, data })
    }
}

} // verus!
