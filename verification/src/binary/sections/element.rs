//! The element section: segments of function references or of reference
//! expressions, for the initialization of tables.
use vstd::prelude::*;
use vstd::string::*;

use crate::binary::reader::{
    FromReader, RView, ReadError, ReadErrorKind, Reader, VecReadError, spec_read_u32, spec_read_u8,
    spec_read_vec_of, vec_view,
};
use crate::binary::sections::{SectionEntry, SectionErrorKind};
use crate::binary::types::{ConstExpression, ConstExpressionReadError, FuncIndex, RefType, spec_const_expr};
use crate::instructions::InstrV;

verus! {

/// Element Section
#[derive(Debug)]
pub enum ElementSegmentMode {
    Passive,
    Active { table_index: Option<u32>, offset: ConstExpression },
    Declarative,
}

/// The model of an element segment's mode.
pub enum ElementSegmentModeV {
    Passive,
    Active { table_index: Option<u32>, offset: Seq<InstrV> },
    Declarative,
}

impl View for ElementSegmentMode {
    type V = ElementSegmentModeV;

    open spec fn view(&self) -> ElementSegmentModeV {
        match self {
            ElementSegmentMode::Passive => ElementSegmentModeV::Passive,
            ElementSegmentMode::Active { table_index, offset } => ElementSegmentModeV::Active {
                table_index: *table_index,
                offset: offset@,
            },
            ElementSegmentMode::Declarative => ElementSegmentModeV::Declarative,
        }
    }
}

/// The element kind byte, which must be 0x00 (function references).
#[derive(Debug)]
pub struct ElementKindMarker();

impl View for ElementKindMarker {
    type V = ();

    open spec fn view(&self) -> () {
        ()
    }
}

pub open spec fn spec_elem_kind(v: RView) -> Result<((), int), ReadError> {
    match spec_read_u8(v) {
        Err(e) => Err(e),
        Ok((b, p)) => if b == 0 {
            Ok(((), p))
        } else {
            Err(
                ReadError {
                    offset: v.pos as usize,
                    kind: ReadErrorKind::UnexpectedValue { value: b as i64, expected: "96" },
                },
            )
        },
    }
}

impl FromReader for ElementKindMarker {
    type Error = ReadError;

    open spec fn spec_from_reader(v: RView) -> Result<((), int), ReadError> {
        spec_elem_kind(v)
    }

    fn from_reader(reader: &mut Reader) -> (res: Result<ElementKindMarker, ReadError>) {
        let offset = reader.position() as usize;
        let b = reader.read_u8()?;
        if b == 0x00 {
            Ok(ElementKindMarker())
        } else {
            Err(ReadError::at_offset(ReadErrorKind::UnexpectedValue { value: b as i64, expected: "96" }, offset))
        }
    }
}

#[derive(Debug)]
pub enum ElementSegmentItems {
    Functions(Vec<FuncIndex>),
    Expressions(RefType, Vec<ConstExpression>),
}

/// The model of an element segment's items.
pub enum ElementSegmentItemsV {
    Functions(Seq<FuncIndex>),
    Expressions(RefType, Seq<Seq<InstrV>>),
}

impl View for ElementSegmentItems {
    type V = ElementSegmentItemsV;

    open spec fn view(&self) -> ElementSegmentItemsV {
        match self {
            ElementSegmentItems::Functions(f) => ElementSegmentItemsV::Functions(f@),
            ElementSegmentItems::Expressions(rt, e) => ElementSegmentItemsV::Expressions(*rt, vec_view(e@)),
        }
    }
}

#[derive(Debug)]
pub struct ElementSegment {
    pub mode: ElementSegmentMode,
    pub items: ElementSegmentItems,
}

/// The model of an element segment.
pub struct ElementSegmentV {
    pub mode: ElementSegmentModeV,
    pub items: ElementSegmentItemsV,
}

impl View for ElementSegment {
    type V = ElementSegmentV;

    open spec fn view(&self) -> ElementSegmentV {
        ElementSegmentV { mode: self.mode@, items: self.items@ }
    }
}

/// The reference type of a segment's items: function references for a
/// list of function indices.
pub open spec fn spec_items_reftype(items: ElementSegmentItemsV) -> RefType {
    match items {
        ElementSegmentItemsV::Functions(_) => RefType::Func,
        ElementSegmentItemsV::Expressions(rt, _) => rt,
    }
}

impl ElementSegment {
    pub fn reftype(&self) -> (r: RefType)
        ensures
            r == spec_items_reftype(self@.items),
    {
        match &self.items {
            ElementSegmentItems::Functions(_) => RefType::Func,
            ElementSegmentItems::Expressions(rt, ..) => *rt,
        }
    }
}

pub type ElementSection = Vec<ElementSegment>;

/// Errors
#[derive(Debug)]
#[non_exhaustive]
pub enum ElementSectionReadError {
    ModeFlag(ReadError),
    ModeTableIndex(ReadError),
    ModeType(ReadError),
    ModeOffsetExpression(ConstExpressionReadError),
    ModeKind(ReadError),
    ModeIndex(ReadError),
    ItemsFunctions(VecReadError<ReadError>),
    ItemsRefType(ReadError),
    ItemsExpressions(VecReadError<ConstExpressionReadError>),
}

impl ElementSectionReadError {
    /// The text of this error.
    pub open spec fn message(&self) -> Seq<char> {
        match self {
            ElementSectionReadError::ModeFlag(..) => "reading mode flag"@,
            ElementSectionReadError::ModeTableIndex(..) => "reading mode table index"@,
            ElementSectionReadError::ModeType(..) => "reading mode type"@,
            ElementSectionReadError::ModeOffsetExpression(..) => "reading mode expression"@,
            ElementSectionReadError::ModeKind(..) => "reading mode element kind"@,
            ElementSectionReadError::ModeIndex(..) => "reading mode index"@,
            ElementSectionReadError::ItemsFunctions(..) => "reading segment functions"@,
            ElementSectionReadError::ItemsRefType(..) => "reading mode reference type"@,
            ElementSectionReadError::ItemsExpressions(..) => "reading expressoins"@,
        }
    }

    /// Renders the error as text.
    pub fn to_string(&self) -> (s: String)
        ensures
            s@ == self.message(),
    {
        match self {
            ElementSectionReadError::ModeFlag(..) => String::from_str("reading mode flag"),
            ElementSectionReadError::ModeTableIndex(..) => String::from_str("reading mode table index"),
            ElementSectionReadError::ModeType(..) => String::from_str("reading mode type"),
            ElementSectionReadError::ModeOffsetExpression(..) => String::from_str("reading mode expression"),
            ElementSectionReadError::ModeKind(..) => String::from_str("reading mode element kind"),
            ElementSectionReadError::ModeIndex(..) => String::from_str("reading mode index"),
            ElementSectionReadError::ItemsFunctions(..) => String::from_str("reading segment functions"),
            ElementSectionReadError::ItemsRefType(..) => String::from_str("reading mode reference type"),
            ElementSectionReadError::ItemsExpressions(..) => String::from_str("reading expressoins"),
        }
    }
}

pub open spec fn elem_error(e: ElementSectionReadError) -> SectionErrorKind {
    SectionErrorKind::ElementSection(e)
}

/// Whether a segment's flag has a bit of `mask` set.
pub open spec fn flag_bit(flag: u32, mask: u32) -> bool {
    flag & mask != 0
}

/// The offset expression of an active segment.
pub open spec fn spec_active_elem(v: RView, table_index: Option<u32>) -> Result<(ElementSegmentModeV, int), SectionErrorKind> {
    match spec_const_expr(v) {
        Err(e) => Err(elem_error(ElementSectionReadError::ModeOffsetExpression(e))),
        Ok((offset, p)) => Ok((ElementSegmentModeV::Active { table_index, offset }, p)),
    }
}

/// The mode a flag selects: with bit 0 set a passive segment, or a
/// declarative one with bit 1 also set; else an active segment, whose table
/// index follows when bit 1 is set.
pub open spec fn spec_elem_mode(v: RView, flag: u32) -> Result<(ElementSegmentModeV, int), SectionErrorKind> {
    if flag_bit(flag, 0b001) {
        if flag_bit(flag, 0b010) {
            Ok((ElementSegmentModeV::Declarative, v.pos))
        } else {
            Ok((ElementSegmentModeV::Passive, v.pos))
        }
    } else if flag_bit(flag, 0b010) {
        match spec_read_u32(v) {
            Err(e) => Err(elem_error(ElementSectionReadError::ModeTableIndex(e))),
            Ok((t, p)) => spec_active_elem(v.at(p), Some(t)),
        }
    } else {
        spec_active_elem(v, None)
    }
}

/// The items a flag selects: with bit 2 set a reference type (implied for
/// flag 4) and expressions; else an element kind (implied for flag 0) and
/// function indices.
pub open spec fn spec_elem_items(v: RView, flag: u32) -> Result<(ElementSegmentItemsV, int), SectionErrorKind> {
    if flag_bit(flag, 0b100) {
        let rt = if flag != 4 {
            RefType::spec_from_reader(v)
        } else {
            Ok((RefType::Func, v.pos))
        };
        match rt {
            Err(e) => Err(elem_error(ElementSectionReadError::ItemsRefType(e))),
            Ok((t, p)) => match spec_read_vec_of::<ConstExpression>(v.at(p)) {
                Err(e) => Err(elem_error(ElementSectionReadError::ItemsExpressions(e))),
                Ok((exprs, q)) => Ok((ElementSegmentItemsV::Expressions(t, exprs), q)),
            },
        }
    } else {
        let kind = if flag != 0 {
            spec_elem_kind(v)
        } else {
            Ok(((), v.pos))
        };
        match kind {
            Err(e) => Err(elem_error(ElementSectionReadError::ModeKind(e))),
            Ok((_, p)) => match spec_read_vec_of::<FuncIndex>(v.at(p)) {
                Err(e) => Err(elem_error(ElementSectionReadError::ItemsFunctions(e))),
                Ok((funcs, q)) => Ok((ElementSegmentItemsV::Functions(funcs), q)),
            },
        }
    }
}

/// An element segment: a flag from 0 to 7, then the mode and the items it selects.
pub open spec fn spec_element_segment(v: RView) -> Result<(ElementSegmentV, int), SectionErrorKind> {
    match spec_read_u32(v) {
        Err(e) => Err(elem_error(ElementSectionReadError::ModeFlag(e))),
        Ok((flag, p)) => if flag > 7 {
            Err(
                elem_error(
                    ElementSectionReadError::ModeFlag(
                        ReadError {
                            offset: v.pos as usize,
                            kind: ReadErrorKind::UnexpectedValue {
                                value: flag as i64,
                                expected: "0 <= flag <= 7 for element segment",
                            },
                        },
                    ),
                ),
            )
        } else {
            match spec_elem_mode(v.at(p), flag) {
                Err(e) => Err(e),
                Ok((mode, q)) => match spec_elem_items(v.at(q), flag) {
                    Err(e) => Err(e),
                    Ok((items, r)) => Ok((ElementSegmentV { mode, items }, r)),
                },
            }
        },
    }
}

fn read_active_elem(reader: &mut Reader, table_index: Option<u32>) -> (res: Result<ElementSegmentMode, SectionErrorKind>)
    ensures
        match spec_active_elem(old(reader)@, table_index) {
            Ok((m, p)) => res is Ok && res->Ok_0@ == m && final(reader)@.pos == p,
            Err(e) => res == Err::<ElementSegmentMode, SectionErrorKind>(e),
        },
        final(reader)@.same_window(old(reader)@),
        res is Ok ==> old(reader)@.pos <= final(reader)@.pos <= final(reader)@.end,
{
    match ConstExpression::from_reader(reader) {
        Ok(offset) => Ok(ElementSegmentMode::Active { table_index, offset }),
        Err(e) => Err(SectionErrorKind::ElementSection(ElementSectionReadError::ModeOffsetExpression(e))),
    }
}

fn read_elem_mode(reader: &mut Reader, flag: u32) -> (res: Result<ElementSegmentMode, SectionErrorKind>)
    ensures
        match spec_elem_mode(old(reader)@, flag) {
            Ok((m, p)) => res is Ok && res->Ok_0@ == m && final(reader)@.pos == p,
            Err(e) => res == Err::<ElementSegmentMode, SectionErrorKind>(e),
        },
        final(reader)@.same_window(old(reader)@),
        res is Ok ==> old(reader)@.pos <= final(reader)@.pos <= final(reader)@.end,
{
    reader.check_window();
    if flag & 0b001 != 0 {
        // Bit 0 set, bit 1 distinguishes between passive (0)
        // or declarative (1)
        if flag & 0b010 != 0 {
            Ok(ElementSegmentMode::Declarative)
        } else {
            Ok(ElementSegmentMode::Passive)
        }
    } else if flag & 0b010 != 0 {
        // Bit 0 not set: active segment. bit 1 is set for an
        // explicit table index
        let table_index = match reader.read_u32() {
            Ok(t) => t,
            Err(e) => return Err(SectionErrorKind::ElementSection(ElementSectionReadError::ModeTableIndex(e))),
        };
        read_active_elem(reader, Some(table_index))
    } else {
        read_active_elem(reader, None)
    }
}

fn read_elem_items(reader: &mut Reader, flag: u32) -> (res: Result<ElementSegmentItems, SectionErrorKind>)
    ensures
        match spec_elem_items(old(reader)@, flag) {
            Ok((m, p)) => res is Ok && res->Ok_0@ == m && final(reader)@.pos == p,
            Err(e) => res == Err::<ElementSegmentItems, SectionErrorKind>(e),
        },
        final(reader)@.same_window(old(reader)@),
        res is Ok ==> old(reader)@.pos <= final(reader)@.pos <= final(reader)@.end,
{
    if flag & 0b100 != 0 {
        // Bit 2 is set, use element type and expressions.
        // For flag == 4, rt is implied to be ref func.
        let rt = if flag != 4 {
            match RefType::from_reader(reader) {
                Ok(t) => t,
                Err(e) => return Err(SectionErrorKind::ElementSection(ElementSectionReadError::ItemsRefType(e))),
            }
        } else {
            RefType::Func
        };
        let exprs: Vec<ConstExpression> = match reader.read_vec() {
            Ok(x) => x,
            Err(e) => return Err(SectionErrorKind::ElementSection(ElementSectionReadError::ItemsExpressions(e))),
        };
        Ok(ElementSegmentItems::Expressions(rt, exprs))
    } else {
        // Bit 2 is not set, use element kind and indices.
        // Flag 0 has no element kind: function references are implied.
        if flag != 0 {
            if let Err(e) = ElementKindMarker::from_reader(reader) {
                return Err(SectionErrorKind::ElementSection(ElementSectionReadError::ModeKind(e)));
            }
        }
        let functions: Vec<FuncIndex> = match reader.read_vec() {
            Ok(f) => f,
            Err(e) => return Err(SectionErrorKind::ElementSection(ElementSectionReadError::ItemsFunctions(e))),
        };
        proof {
            assert(vec_view(functions@) =~= functions@);
        }
        Ok(ElementSegmentItems::Functions(functions))
    }
}

impl SectionEntry for ElementSegment {
    open spec fn spec_decode(v: RView) -> Result<(ElementSegmentV, int), SectionErrorKind> {
        spec_element_segment(v)
    }

    fn decode(reader: &mut Reader) -> (res: Result<ElementSegment, SectionErrorKind>) {
        let offset = reader.position() as usize;
        let flag = match reader.read_u32() {
            Ok(f) => f,
            Err(e) => return Err(SectionErrorKind::ElementSection(ElementSectionReadError::ModeFlag(e))),
        };
        if flag > 7 {
            return Err(
                SectionErrorKind::ElementSection(
                    ElementSectionReadError::ModeFlag(
                        ReadError::at_offset(
                            ReadErrorKind::UnexpectedValue {
                                value: flag as i64,
                                expected: "0 <= flag <= 7 for element segment",
                            },
                            offset,
                        ),
                    ),
                ),
            );
        }
        let mode = read_elem_mode(reader, flag)?;
        let items = read_elem_items(reader, flag)?;
        Ok(ElementSegment { mode, items })
    }
}

} // verus!
