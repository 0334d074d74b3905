//! The bytes that stand for types, kinds and flags in the binary format, from value to byte,
//! and the laws that tie them to decoding.
use vstd::prelude::*;

use crate::binary::leb128::{leb_encode_u, lemma_leb_u32_roundtrip};
use crate::binary::reader::{RView, spec_read_u32, spec_read_vec_of};
use crate::binary::sections::data::{DataSegmentModeReadError, DataSegmentModeV, spec_active_data, spec_data_mode};
use crate::binary::sections::element::{
    ElementSectionReadError, ElementSegmentItemsV, ElementSegmentModeV, elem_error, spec_active_elem, spec_elem_items,
    spec_elem_mode,
};
use crate::binary::sections::global::{
    GlobalType, GlobalTypeReadError, MutabilityFlag, spec_globaltype, spec_mutability_of,
};
use crate::binary::sections::table::{TableReadError, TableType, spec_tabletype};
use crate::binary::sections::{SectionErrorKind, SectionId, spec_order, spec_section_id_of};
use crate::binary::types::{
    ConstExpression, FuncIndex, Limit, LimitFlag, LimitReadError, RefType, ValType, spec_limit, spec_limitflag_of,
    spec_reftype_of, spec_valtype_of,
};

verus! {

/// The byte of a reference type.
pub open spec fn reftype_code(t: RefType) -> u8 {
    match t {
        RefType::Func => 0x70,
        RefType::Extern => 0x6f,
    }
}

/// The byte of a value type: number types count down from 0x7f, vector and reference types follow.
pub open spec fn valtype_code(t: ValType) -> u8 {
    match t {
        ValType::I32 => 0x7f,
        ValType::I64 => 0x7e,
        ValType::F32 => 0x7d,
        ValType::F64 => 0x7c,
        ValType::V128 => 0x7b,
        ValType::Ref(r) => reftype_code(r),
    }
}

/// The id of a section.
pub open spec fn section_code(id: SectionId) -> u8 {
    match id {
        SectionId::Custom => 0,
        SectionId::Type => 1,
        SectionId::Import => 2,
        SectionId::Function => 3,
        SectionId::Table => 4,
        SectionId::Memory => 5,
        SectionId::Global => 6,
        SectionId::Export => 7,
        SectionId::Start => 8,
        SectionId::Element => 9,
        SectionId::Code => 10,
        SectionId::Data => 11,
        SectionId::DataCount => 12,
    }
}

/// Each value type has its own byte: a byte decodes to a value type exactly when it is that
/// type's byte.
pub proof fn lemma_valtype_code(t: ValType, b: u8)
    ensures
        spec_valtype_of(b) == Some(t) <==> valtype_code(t) == b,
{
}

/// A reference type is written as the same byte where a value type is expected and where a
/// reference type is: a byte decodes to a reference type exactly when it decodes to that
/// reference type as a value type, and each reference type has its own byte.
pub proof fn lemma_reftype_code(t: RefType, b: u8)
    ensures
        spec_reftype_of(b) == Some(t) <==> spec_valtype_of(b) == Some(ValType::Ref(t)),
        spec_reftype_of(b) == Some(t) <==> reftype_code(t) == b,
{
}

/// Each section has its own id: a byte identifies a section exactly when it is that section's
/// id, and the ids are the numbers from 0 to 12.
pub proof fn lemma_section_code(id: SectionId, b: u8)
    ensures
        spec_section_id_of(b) == Some(id) <==> section_code(id) == b,
        spec_section_id_of(b) is Some <==> b <= 12,
{
}

/// The flags of limits and of global mutability are 0 for the first variant and 1 for the
/// second; no other byte is a flag.
pub proof fn lemma_flag_codes(b: u8)
    ensures
        spec_limitflag_of(b) == Some(LimitFlag::Min) <==> b == 0,
        spec_limitflag_of(b) == Some(LimitFlag::MinMax) <==> b == 1,
        spec_limitflag_of(b) is Some <==> b <= 1,
        spec_mutability_of(b) == Some(MutabilityFlag::Const) <==> b == 0,
        spec_mutability_of(b) == Some(MutabilityFlag::Var) <==> b == 1,
        spec_mutability_of(b) is Some <==> b <= 1,
{
}


/// The bytes of limits: flag 0 and the minimum, or flag 1, the minimum and the maximum, each
/// number in unsigned LEB128.
pub open spec fn encode_limit(l: Limit) -> Seq<u8> {
    match l.max {
        None => seq![0u8] + leb_encode_u(l.min as nat),
        Some(max) => seq![1u8] + leb_encode_u(l.min as nat) + leb_encode_u(max as nat),
    }
}

/// Limits are read back from their bytes, whatever follows them, and the reader then stands
/// just past those bytes.
pub proof fn lemma_limit_roundtrip(l: Limit, tail: Seq<u8>, v: RView)
    requires
        v.wf(),
        v.rest() == encode_limit(l) + tail,
    ensures
        spec_limit(v) == Ok::<(Limit, int), LimitReadError>((l, v.pos + encode_limit(l).len())),
{
    let e = encode_limit(l);
    let lmin = leb_encode_u(l.min as nat);
    assert(e.len() >= 1);
    assert(v.rest().len() == v.end - v.pos);
    assert(v.rest()[0] == e[0]);
    assert(v.bytes[v.pos] == v.rest()[0]);
    let v1 = v.at(v.pos + 1);
    assert(v1.rest() =~= v.rest().subrange(1, v.rest().len() as int));
    assert(v.rest().subrange(1, v.rest().len() as int) =~= e.subrange(1, e.len() as int) + tail);
    match l.max {
        None => {
            assert(v1.rest() =~= lmin + tail);
            lemma_leb_u32_roundtrip(l.min, tail, v1);
        },
        Some(max) => {
            let lmax = leb_encode_u(max as nat);
            assert(v1.rest() =~= lmin + (lmax + tail));
            lemma_leb_u32_roundtrip(l.min, lmax + tail, v1);
            let v2 = v1.at(v1.pos + lmin.len());
            assert(v1.rest().len() == lmin.len() + lmax.len() + tail.len());
            assert(v2.rest() =~= v1.rest().subrange(lmin.len() as int, v1.rest().len() as int));
            assert((lmin + (lmax + tail)).subrange(lmin.len() as int, v1.rest().len() as int) =~= lmax + tail);
            assert(v2.rest() =~= lmax + tail);
            lemma_leb_u32_roundtrip(max, tail, v2);
        },
    }
}


/// The byte of a mutability flag.
pub open spec fn mutability_code(m: MutabilityFlag) -> u8 {
    match m {
        MutabilityFlag::Const => 0,
        MutabilityFlag::Var => 1,
    }
}

/// The bytes of a global type: the value type, then the mutability.
pub open spec fn encode_globaltype(g: GlobalType) -> Seq<u8> {
    seq![valtype_code(g.type_), mutability_code(g.mutflag)]
}

/// The bytes of a table type: the element's reference type, then the limits.
pub open spec fn encode_tabletype(t: TableType) -> Seq<u8> {
    seq![reftype_code(t.elemtype)] + encode_limit(t.limit)
}

/// A global type is read back from its two bytes, whatever follows them.
pub proof fn lemma_globaltype_roundtrip(g: GlobalType, tail: Seq<u8>, v: RView)
    requires
        v.wf(),
        v.rest() == encode_globaltype(g) + tail,
    ensures
        spec_globaltype(v) == Ok::<(GlobalType, int), GlobalTypeReadError>((g, v.pos + 2)),
{
    assert(v.rest().len() == v.end - v.pos);
    assert(v.rest()[0] == v.bytes[v.pos]);
    assert(v.rest()[1] == v.bytes[v.pos + 1]);
    assert((encode_globaltype(g) + tail)[0] == valtype_code(g.type_));
    assert((encode_globaltype(g) + tail)[1] == mutability_code(g.mutflag));
    lemma_valtype_code(g.type_, valtype_code(g.type_));
}

/// A table type is read back from its bytes, whatever follows them, and the reader then
/// stands just past those bytes.
pub proof fn lemma_tabletype_roundtrip(t: TableType, tail: Seq<u8>, v: RView)
    requires
        v.wf(),
        v.rest() == encode_tabletype(t) + tail,
    ensures
        spec_tabletype(v) == Ok::<(TableType, int), TableReadError>((t, v.pos + encode_tabletype(t).len())),
{
    let e = encode_tabletype(t);
    assert(v.rest().len() == v.end - v.pos);
    assert(v.rest()[0] == v.bytes[v.pos]);
    assert((e + tail)[0] == reftype_code(t.elemtype));
    lemma_reftype_code(t.elemtype, reftype_code(t.elemtype));
    let v1 = v.at(v.pos + 1);
    assert(v1.rest() =~= v.rest().subrange(1, v.rest().len() as int));
    assert(v1.rest() =~= encode_limit(t.limit) + tail);
    lemma_limit_roundtrip(t.limit, tail, v1);
}


/// Sections are ordered by their ids, but for the data count section, which comes after the
/// element section and before the code section.
pub proof fn lemma_section_order_follows_ids(a: SectionId, b: SectionId)
    ensures
        a != SectionId::DataCount && b != SectionId::DataCount ==> (spec_order(a) < spec_order(b) <==> section_code(a)
            < section_code(b)),
        spec_order(SectionId::Element) < spec_order(SectionId::DataCount) < spec_order(SectionId::Code),
{
}


/// The flag of a data segment says where its bytes go: flag 1 makes a passive segment and is
/// all there is of the mode; flag 0 makes an active segment of memory 0, whose offset follows;
/// flag 2 makes an active segment of the memory whose index follows, then the offset; any
/// other flag is refused.
pub proof fn lemma_data_mode_flags(v: RView, flag: u32, tail: Seq<u8>, mem: u32, after_mem: Seq<u8>)
    requires
        v.wf(),
        v.rest() == leb_encode_u(flag as nat) + tail,
    ensures
        ({
            let p = v.pos + leb_encode_u(flag as nat).len();
            &&& flag == 1 ==> spec_data_mode(v) == Ok::<(DataSegmentModeV, int), DataSegmentModeReadError>(
                (DataSegmentModeV::Passive, p),
            )
            &&& flag == 0 ==> spec_data_mode(v) == spec_active_data(v.at(p), 0)
            &&& flag == 2 && tail == leb_encode_u(mem as nat) + after_mem ==> spec_data_mode(v) == spec_active_data(
                v.at(p + leb_encode_u(mem as nat).len()),
                mem,
            )
            &&& flag > 2 ==> spec_data_mode(v) is Err
        }),
{
    lemma_leb_u32_roundtrip(flag, tail, v);
    let p = v.pos + leb_encode_u(flag as nat).len();
    if flag == 2 && tail == leb_encode_u(mem as nat) + after_mem {
        let v1 = v.at(p);
        assert(v.rest().len() == v.end - v.pos);
        assert(v1.rest() =~= v.rest().subrange(leb_encode_u(flag as nat).len() as int, v.rest().len() as int));
        assert(v1.rest() =~= leb_encode_u(mem as nat) + after_mem);
        lemma_leb_u32_roundtrip(mem, after_mem, v1);
    }
}


/// The eight kinds of element segment, by flag: 0 and 4 are active in table 0; 2 and 6 are
/// active in the table whose index follows; 1 and 5 are passive; 3 and 7 are declarative.
/// Flags 0 to 3 list function indices, those from 4 list expressions; flags 1 to 3 write an
/// element kind and 5 to 7 a reference type before the list, while flags 0 and 4 write
/// neither, and 4 lists function references.
pub proof fn lemma_element_flags(v: RView, flag: u32)
    requires
        flag <= 7,
    ensures
        (spec_elem_mode(v, flag) == Ok::<(ElementSegmentModeV, int), SectionErrorKind>(
            (ElementSegmentModeV::Passive, v.pos),
        )) <==> (flag == 1 || flag == 5),
        (spec_elem_mode(v, flag) == Ok::<(ElementSegmentModeV, int), SectionErrorKind>(
            (ElementSegmentModeV::Declarative, v.pos),
        )) <==> (flag == 3 || flag == 7),
        flag == 0 || flag == 4 ==> spec_elem_mode(v, flag) == spec_active_elem(v, None),
        flag == 2 || flag == 6 ==> spec_elem_mode(v, flag) == match spec_read_u32(v) {
            Err(e) => Err(elem_error(ElementSectionReadError::ModeTableIndex(e))),
            Ok((t, p)) => spec_active_elem(v.at(p), Some(t)),
        },
        flag < 4 ==> !(spec_elem_items(v, flag) matches Ok((ElementSegmentItemsV::Expressions(_, _), _))),
        flag >= 4 ==> !(spec_elem_items(v, flag) matches Ok((ElementSegmentItemsV::Functions(_), _))),
        flag == 0 ==> spec_elem_items(v, flag) == match spec_read_vec_of::<FuncIndex>(v) {
            Err(e) => Err(elem_error(ElementSectionReadError::ItemsFunctions(e))),
            Ok((funcs, q)) => Ok((ElementSegmentItemsV::Functions(funcs), q)),
        },
        flag == 4 ==> spec_elem_items(v, flag) == match spec_read_vec_of::<ConstExpression>(v) {
            Err(e) => Err(elem_error(ElementSectionReadError::ItemsExpressions(e))),
            Ok((exprs, q)) => Ok((ElementSegmentItemsV::Expressions(RefType::Func, exprs), q)),
        },
{
    assert(
        (flag & 1 != 0) == (flag == 1 || flag == 3 || flag == 5 || flag == 7)
        && (flag & 2 != 0) == (flag == 2 || flag == 3 || flag == 6 || flag == 7)
        && (flag & 4 != 0) == (flag >= 4)
    ) by (bit_vector)
        requires
            flag <= 7,
    ;
    assert(v.at(v.pos) == v);
}

} // verus!
