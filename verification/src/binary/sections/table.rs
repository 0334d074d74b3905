//! The table section: table types, each with an optional initializer expression.
use vstd::prelude::*;
use vstd::string::*;

use crate::binary::reader::{FromReader, RView, ReadError, ReadErrorKind, Reader, spec_peek, spec_read_u8};
use crate::binary::sections::{SectionEntry, SectionErrorKind};
use crate::binary::types::{
    ConstExpression, ConstExpressionReadError, Limit, LimitReadError, RefType, spec_const_expr, spec_limit,
};
use crate::instructions::InstrV;

verus! {

/// Table Section
pub type TableSection = Vec<TableEntry>;

#[derive(Debug)]
pub struct TableEntry {
    pub tabletype: TableType,
    pub expr: Option<ConstExpression>,
}

#[derive(Debug, Clone, Copy, PartialEq, Eq, Structural)]
pub struct TableType {
    pub elemtype: RefType,
    pub limit: Limit,
}

#[derive(Debug)]
pub enum TableReadError {
    Prefix(ReadError),
    RefType(ReadError),
    Limit(LimitReadError),
    Expression(ConstExpressionReadError),
}

impl TableReadError {
    /// The text of this error.
    pub open spec fn message(&self) -> Seq<char> {
        match self {
            TableReadError::Prefix(..) => "reading its prefix"@,
            TableReadError::RefType(..) => "reading its element reference type"@,
            TableReadError::Limit(..) => "reading its limits"@,
            TableReadError::Expression(..) => "reading its expr"@,
        }
    }

    /// Renders the error as text.
    pub fn to_string(&self) -> (s: String)
        ensures
            s@ == self.message(),
    {
        match self {
            TableReadError::Prefix(..) => String::from_str("reading its prefix"),
            TableReadError::RefType(..) => String::from_str("reading its element reference type"),
            TableReadError::Limit(..) => String::from_str("reading its limits"),
            TableReadError::Expression(..) => String::from_str("reading its expr"),
        }
    }
}

pub type TableTypeReadError = TableReadError;

impl View for TableType {
    type V = TableType;

    open spec fn view(&self) -> TableType {
        *self
    }
}

/// The model of a table entry.
pub struct TableEntryV {
    pub tabletype: TableType,
    pub expr: Option<Seq<InstrV>>,
}

impl View for TableEntry {
    type V = TableEntryV;

    open spec fn view(&self) -> TableEntryV {
        TableEntryV {
            tabletype: self.tabletype,
            expr: match self.expr {
                Some(e) => Some(e@),
                None => None,
            },
        }
    }
}

/// A table type: the element reference type, then the limits.
pub open spec fn spec_tabletype(v: RView) -> Result<(TableType, int), TableReadError> {
    match RefType::spec_from_reader(v) {
        Err(e) => Err(TableReadError::RefType(e)),
        Ok((elemtype, p)) => match spec_limit(v.at(p)) {
            Err(e) => Err(TableReadError::Limit(e)),
            Ok((limit, q)) => Ok((TableType { elemtype, limit }, q)),
        },
    }
}

impl FromReader for TableType {
    type Error = TableReadError;

    open spec fn spec_from_reader(v: RView) -> Result<(TableType, int), TableReadError> {
        spec_tabletype(v)
    }

    fn from_reader(reader: &mut Reader) -> (res: Result<TableType, TableReadError>) {
        let elemtype = match RefType::from_reader(reader) {
            Ok(t) => t,
            Err(e) => return Err(TableReadError::RefType(e)),
        };
        let limit = match Limit::from_reader(reader) {
            Ok(l) => l,
            Err(e) => return Err(TableReadError::Limit(e)),
        };
        Ok(TableType { elemtype, limit })
    }
}

/// A table entry: a table type, or the prefix 0x40 0x00, a table type and
/// an initializer expression.
pub open spec fn spec_table_entry(v: RView) -> Result<(TableEntryV, int), TableReadError> {
    match spec_peek(v) {
        Err(e) => Err(TableReadError::Prefix(e)),
        Ok(b) => if b == 0x40 {
            match spec_read_u8(v) {
                Err(e) => Err(TableReadError::Prefix(e)),
                Ok((_, p)) => match spec_read_u8(v.at(p)) {
                    Err(e) => Err(TableReadError::Prefix(e)),
                    Ok((zero, q)) => if zero != 0 {
                        Err(TableReadError::Prefix(ReadError {
                            offset: v.pos as usize,
                            kind: ReadErrorKind::UnexpectedValue { value: zero as i64, expected: "0x00" },
                        }))
                    } else {
                        match spec_tabletype(v.at(q)) {
                            Err(e) => Err(e),
                            Ok((tabletype, r)) => match spec_const_expr(v.at(r)) {
                                Err(e) => Err(TableReadError::Expression(e)),
                                Ok((expr, s)) => Ok((TableEntryV { tabletype, expr: Some(expr) }, s)),
                            },
                        }
                    },
                },
            }
        } else {
            match spec_tabletype(v) {
                Err(e) => Err(e),
                Ok((tabletype, r)) => Ok((TableEntryV { tabletype, expr: None }, r)),
            }
        },
    }
}

impl FromReader for TableEntry {
    type Error = TableReadError;

    open spec fn spec_from_reader(v: RView) -> Result<(TableEntryV, int), TableReadError> {
        spec_table_entry(v)
    }

    fn from_reader(reader: &mut Reader) -> (res: Result<TableEntry, TableReadError>) {
        let pos = reader.position();
        let b = match reader.peek() {
            Ok(b) => b,
            Err(e) => return Err(TableReadError::Prefix(e)),
        };
        if b == 0x40 {
            if let Err(e) = reader.read_u8() {
                return Err(TableReadError::Prefix(e));
            }
            let zero = match reader.read_u8() {
                Ok(z) => z,
                Err(e) => return Err(TableReadError::Prefix(e)),
            };
            if zero != 0x00 {
                return Err(
                    TableReadError::Prefix(
                        ReadError::at_offset(
                            ReadErrorKind::UnexpectedValue { value: zero as i64, expected: "0x00" },
                            pos as usize,
                        ),
                    ),
                );
            }
            let tabletype = TableType::from_reader(reader)?;
            let expr = match ConstExpression::from_reader(reader) {
                Ok(e) => e,
                Err(e) => return Err(TableReadError::Expression(e)),
            };
            Ok(TableEntry { tabletype, expr: Some(expr) })
        } else {
            let tabletype = TableType::from_reader(reader)?;
            Ok(TableEntry { tabletype, expr: None })
        }
    }
}

impl SectionEntry for TableEntry {
    open spec fn spec_decode(v: RView) -> Result<(TableEntryV, int), SectionErrorKind> {
        match spec_table_entry(v) {
            Ok(x) => Ok(x),
            Err(e) => Err(SectionErrorKind::TableSection(e)),
        }
    }

    fn decode(reader: &mut Reader) -> (res: Result<TableEntry, SectionErrorKind>) {
        match TableEntry::from_reader(reader) {
            Ok(t) => Ok(t),
            Err(e) => Err(SectionErrorKind::TableSection(e)),
        }
    }
}

} // verus!
