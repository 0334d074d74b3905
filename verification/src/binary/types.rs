//! Types of the binary format: value, reference and block types, limits,
//! memory arguments, branch tables and constant expressions.
use vstd::prelude::*;
use vstd::string::*;

use crate::binary::reader::{
    FromReader, InvalidEnumValueError, RView, ReadError, ReadErrorKind, Reader, VecReadError, parsed,
    spec_peek, spec_read_i32, spec_read_i64, spec_read_name, spec_read_u32, spec_read_u64,
    spec_read_u8, spec_read_vec_of, vec_view,
};
use crate::instructions::{InstrV, Instruction, InstructionError, decode_instruction, spec_decode_instruction};

verus! {

/// Indices
pub type TypeIdx = u32;

pub type FuncIdx = u32;

pub type TableIdx = u32;

pub type GlobalIdx = u32;

pub type ElemIdx = u32;

pub type DataIdx = u32;

pub type LabelIdx = u32;

#[derive(Debug, Clone, Copy, PartialEq, Eq, Structural)]
pub struct FuncIndex(pub u32);

#[derive(Debug, Clone, Copy, PartialEq, Eq, Structural)]
pub struct MemIndex(pub u32);

/// RefType
#[derive(Debug, Clone, Copy, PartialEq, Eq, Structural)]
pub enum RefType {
    Func,
    Extern,
}

impl RefType {
    /// The text of this value.
    pub open spec fn message(&self) -> Seq<char> {
        match self {
            RefType::Func => "funcref"@,
            RefType::Extern => "externref"@,
        }
    }

    /// Renders the value as text.
    pub fn to_string(&self) -> (s: String)
        ensures
            s@ == self.message(),
    {
        match self {
            RefType::Func => String::from_str("funcref"),
            RefType::Extern => String::from_str("externref"),
        }
    }
}

/// ValType
#[derive(Debug, Clone, Copy, PartialEq, Eq, Structural)]
pub enum ValType {
    Ref(RefType),
    V128,
    F64,
    F32,
    I64,
    I32,
}

/// Block Type
#[derive(Debug, Clone, Copy, PartialEq, Eq, Structural)]
pub enum BlockType {
    Empty,
    Value(ValType),
    Index(TypeIdx),
}

/// Functype
#[derive(Debug, PartialEq)]
pub struct FuncType {
    pub params: Vec<ValType>,
    pub results: Vec<ValType>,
}

impl Clone for FuncType {
    fn clone(&self) -> (r: Self)
        ensures
            r@ == self@,
    {
        let params = self.params.clone();
        let results = self.results.clone();
        assert(params@ =~= self.params@);
        assert(results@ =~= self.results@);
        FuncType { params, results }
    }
}

/// Whether two sequences of value types are the same.
fn same_valtypes(a: &Vec<ValType>, b: &Vec<ValType>) -> (r: bool)
    ensures
        r == (a@ == b@),
{
    if a.len() != b.len() {
        return false;
    }
    let mut i: usize = 0;
    while i < a.len()
        invariant
            i <= a@.len(),
            a@.len() == b@.len(),
            forall|j: int| 0 <= j < i ==> a@[j] == b@[j],
        decreases a@.len() - i,
    {
        if a[i] != b[i] {
            return false;
        }
        i = i + 1;
    }
    assert(a@ =~= b@);
    true
}

impl FuncType {
    /// Whether two function types have the same parameters and results.
    pub fn same_as(&self, other: &FuncType) -> (r: bool)
        ensures
            r == (self@ == other@),
    {
        same_valtypes(&self.params, &other.params) && same_valtypes(&self.results, &other.results)
    }
}

/// The model of a function type.
pub struct FuncTypeV {
    pub params: Seq<ValType>,
    pub results: Seq<ValType>,
}

/// Const Expression
#[derive(Debug)]
pub struct ConstExpression(pub Vec<Instruction>);

#[derive(Debug)]
#[non_exhaustive]
pub enum ConstExpressionReadError {
    Instruction(InstructionError),
    MissingEnd,
}

impl ConstExpressionReadError {
    /// The text of this error.
    pub open spec fn message(&self) -> Seq<char> {
        match self {
            ConstExpressionReadError::Instruction(..) => "reading instruction"@,
            ConstExpressionReadError::MissingEnd => "missing end instruction"@,
        }
    }

    /// Renders the error as text.
    pub fn to_string(&self) -> (s: String)
        ensures
            s@ == self.message(),
    {
        match self {
            ConstExpressionReadError::Instruction(..) => String::from_str("reading instruction"),
            ConstExpressionReadError::MissingEnd => String::from_str("missing end instruction"),
        }
    }
}

/// Limit
#[derive(Debug, Clone, Copy, PartialEq, Eq, Structural)]
pub enum LimitFlag {
    Min,
    MinMax,
}

#[derive(Debug, Clone, Copy, PartialEq, Eq, Structural)]
pub struct Limit {
    pub min: u32,
    pub max: Option<u32>,
}

impl Limit {
    /// Whether a limit fits where `expected` is asked for: its minimum is at
    /// least the expected one, and where a maximum is expected it has one that
    /// is no larger.
    pub open spec fn spec_matches(self, expected: Limit) -> bool {
        &&& self.min >= expected.min
        &&& match expected.max {
            None => true,
            Some(emax) => match self.max {
                Some(max) => max <= emax,
                None => false,
            },
        }
    }

    pub fn matches(&self, expected: &Limit) -> (r: bool)
        ensures
            r == self.spec_matches(*expected),
    {
        if self.min < expected.min {
            return false;
        }
        match (expected.max, self.max) {
            (None, _) => true,
            (Some(emax), Some(max)) => max <= emax,
            (Some(_), None) => false,
        }
    }
}

#[derive(Debug)]
pub enum LimitReadError {
    Flag(ReadError),
    Min(ReadError),
    Max(ReadError),
}

impl LimitReadError {
    /// The text of this error.
    pub open spec fn message(&self) -> Seq<char> {
        match self {
            LimitReadError::Flag(..) => "reading the limit flag"@,
            LimitReadError::Min(..) => "reading the limit min"@,
            LimitReadError::Max(..) => "reading the limit max"@,
        }
    }

    /// Renders the error as text.
    pub fn to_string(&self) -> (s: String)
        ensures
            s@ == self.message(),
    {
        match self {
            LimitReadError::Flag(..) => String::from_str("reading the limit flag"),
            LimitReadError::Min(..) => String::from_str("reading the limit min"),
            LimitReadError::Max(..) => String::from_str("reading the limit max"),
        }
    }
}

/// Branch table indices
#[derive(Debug, PartialEq)]
pub struct BranchTableIdx {
    pub labels: Vec<LabelIdx>,
    pub default: LabelIdx,
}

impl Clone for BranchTableIdx {
    fn clone(&self) -> (r: Self)
        ensures
            r@ == self@,
    {
        let labels = self.labels.clone();
        assert(labels@ =~= self.labels@);
        BranchTableIdx { labels, default: self.default }
    }
}

#[derive(Debug)]
#[non_exhaustive]
pub enum BranchTableIdxReadError {
    Labels(VecReadError<ReadError>),
    Default(ReadError),
}

impl BranchTableIdxReadError {
    /// The text of this error.
    pub open spec fn message(&self) -> Seq<char> {
        match self {
            BranchTableIdxReadError::Labels(..) => "reading labels"@,
            BranchTableIdxReadError::Default(..) => "reading default lael"@,
        }
    }

    /// Renders the error as text.
    pub fn to_string(&self) -> (s: String)
        ensures
            s@ == self.message(),
    {
        match self {
            BranchTableIdxReadError::Labels(..) => String::from_str("reading labels"),
            BranchTableIdxReadError::Default(..) => String::from_str("reading default lael"),
        }
    }
}

/// Memory
#[derive(Debug, Clone, Copy, PartialEq, Eq, Structural)]
pub struct MemArg {
    pub align: u32,
    pub offset: u32,
}

#[derive(Debug)]
#[non_exhaustive]
pub enum MemArgReadError {
    Align(ReadError),
    Offset(ReadError),
}

impl MemArgReadError {
    /// The text of this error.
    pub open spec fn message(&self) -> Seq<char> {
        match self {
            MemArgReadError::Align(..) => "reading align"@,
            MemArgReadError::Offset(..) => "reading offset"@,
        }
    }

    /// Renders the error as text.
    pub fn to_string(&self) -> (s: String)
        ensures
            s@ == self.message(),
    {
        match self {
            MemArgReadError::Align(..) => String::from_str("reading align"),
            MemArgReadError::Offset(..) => String::from_str("reading offset"),
        }
    }
}

impl View for FuncIndex {
    type V = FuncIndex;

    open spec fn view(&self) -> FuncIndex {
        *self
    }
}

impl View for MemIndex {
    type V = MemIndex;

    open spec fn view(&self) -> MemIndex {
        *self
    }
}

impl View for RefType {
    type V = RefType;

    open spec fn view(&self) -> RefType {
        *self
    }
}

impl View for ValType {
    type V = ValType;

    open spec fn view(&self) -> ValType {
        *self
    }
}

impl View for BlockType {
    type V = BlockType;

    open spec fn view(&self) -> BlockType {
        *self
    }
}

impl View for FuncType {
    type V = FuncTypeV;

    open spec fn view(&self) -> FuncTypeV {
        FuncTypeV { params: self.params@, results: self.results@ }
    }
}

impl View for ConstExpression {
    type V = Seq<InstrV>;

    open spec fn view(&self) -> Seq<InstrV> {
        vec_view(self.0@)
    }
}

impl View for LimitFlag {
    type V = LimitFlag;

    open spec fn view(&self) -> LimitFlag {
        *self
    }
}

impl View for Limit {
    type V = Limit;

    open spec fn view(&self) -> Limit {
        *self
    }
}

/// The model of a branch table: its labels and its default label.
pub struct BranchTableIdxV {
    pub labels: Seq<u32>,
    pub default: u32,
}

impl View for BranchTableIdx {
    type V = BranchTableIdxV;

    open spec fn view(&self) -> BranchTableIdxV {
        BranchTableIdxV { labels: self.labels@, default: self.default }
    }
}

impl View for MemArg {
    type V = MemArg;

    open spec fn view(&self) -> MemArg {
        *self
    }
}

/// The reference type a byte encodes.
pub open spec fn spec_reftype_of(b: u8) -> Option<RefType> {
    if b == 0x70 {
        Some(RefType::Func)
    } else if b == 0x6f {
        Some(RefType::Extern)
    } else {
        None
    }
}

/// The value type a byte encodes.
pub open spec fn spec_valtype_of(b: u8) -> Option<ValType> {
    if b == 0x7f {
        Some(ValType::I32)
    } else if b == 0x7e {
        Some(ValType::I64)
    } else if b == 0x7d {
        Some(ValType::F32)
    } else if b == 0x7c {
        Some(ValType::F64)
    } else if b == 0x7b {
        Some(ValType::V128)
    } else if b == 0x70 {
        Some(ValType::Ref(RefType::Func))
    } else if b == 0x6f {
        Some(ValType::Ref(RefType::Extern))
    } else {
        None
    }
}

/// A byte that encodes one of the values of an enum, or the error of reading it.
pub open spec fn spec_enum_byte<T>(v: RView, of: spec_fn(u8) -> Option<T>, name: &'static str) -> Result<(T, int), ReadError> {
    match spec_read_u8(v) {
        Err(e) => Err(e),
        Ok((b, p)) => match of(b) {
            Some(x) => Ok((x, p)),
            None => Err(ReadError {
                offset: v.pos as usize,
                kind: ReadErrorKind::InvalidEnumValue(InvalidEnumValueError { value: b, enum_name: name }),
            }),
        },
    }
}

impl RefType {
    pub fn try_from(value: u8) -> (r: Result<RefType, InvalidEnumValueError>)
        ensures
            match spec_reftype_of(value) {
                Some(t) => r == Ok::<RefType, InvalidEnumValueError>(t),
                None => r == Err::<RefType, InvalidEnumValueError>(
                    InvalidEnumValueError { value, enum_name: "wasmrs::binary::types::RefType" },
                ),
            },
    {
        match value {
            0x70 => Ok(RefType::Func),
            0x6f => Ok(RefType::Extern),
            _ => Err(InvalidEnumValueError { value, enum_name: "wasmrs::binary::types::RefType" }),
        }
    }
}

impl ValType {
    pub fn try_from(value: u8) -> (r: Result<ValType, InvalidEnumValueError>)
        ensures
            match spec_valtype_of(value) {
                Some(t) => r == Ok::<ValType, InvalidEnumValueError>(t),
                None => r == Err::<ValType, InvalidEnumValueError>(
                    InvalidEnumValueError { value, enum_name: "wasmrs::binary::types::ValType" },
                ),
            },
    {
        match value {
            0x7f => Ok(ValType::I32),
            0x7e => Ok(ValType::I64),
            0x7d => Ok(ValType::F32),
            0x7c => Ok(ValType::F64),
            0x7b => Ok(ValType::V128),
            0x70 => Ok(ValType::Ref(RefType::Func)),
            0x6f => Ok(ValType::Ref(RefType::Extern)),
            _ => Err(InvalidEnumValueError { value, enum_name: "wasmrs::binary::types::ValType" }),
        }
    }

    /// The width in bytes of a numeric or vector value.
    pub fn size_bytes(&self) -> (r: u32)
        requires
            !(self is Ref),
        ensures
            r == match *self {
                ValType::V128 => 16u32,
                ValType::F64 | ValType::I64 => 8u32,
                _ => 4u32,
            },
    {
        match self {
            ValType::V128 => 16,
            ValType::F64 | ValType::I64 => 8,
            _ => 4,
        }
    }
}

impl FromReader for RefType {
    type Error = ReadError;

    open spec fn spec_from_reader(v: RView) -> Result<(RefType, int), ReadError> {
        spec_enum_byte(v, |b: u8| spec_reftype_of(b), "wasmrs::binary::types::RefType")
    }

    fn from_reader(reader: &mut Reader) -> (res: Result<RefType, ReadError>) {
        let pos = reader.position() as usize;
        let b = reader.read_u8()?;
        match RefType::try_from(b) {
            Ok(t) => Ok(t),
            Err(e) => Err(ReadError::at_offset(ReadErrorKind::InvalidEnumValue(e), pos)),
        }
    }
}

impl FromReader for ValType {
    type Error = ReadError;

    open spec fn spec_from_reader(v: RView) -> Result<(ValType, int), ReadError> {
        spec_enum_byte(v, |b: u8| spec_valtype_of(b), "wasmrs::binary::types::ValType")
    }

    fn from_reader(reader: &mut Reader) -> (res: Result<ValType, ReadError>) {
        let pos = reader.position() as usize;
        let b = reader.read_u8()?;
        match ValType::try_from(b) {
            Ok(t) => Ok(t),
            Err(e) => Err(ReadError::at_offset(ReadErrorKind::InvalidEnumValue(e), pos)),
        }
    }
}

impl FromReader for u8 {
    type Error = ReadError;

    open spec fn spec_from_reader(v: RView) -> Result<(u8, int), ReadError> {
        spec_read_u8(v)
    }

    fn from_reader(reader: &mut Reader) -> (res: Result<u8, ReadError>) {
        reader.read_u8()
    }
}

impl FromReader for u32 {
    type Error = ReadError;

    open spec fn spec_from_reader(v: RView) -> Result<(u32, int), ReadError> {
        spec_read_u32(v)
    }

    fn from_reader(reader: &mut Reader) -> (res: Result<u32, ReadError>) {
        reader.read_u32()
    }
}

impl FromReader for u64 {
    type Error = ReadError;

    open spec fn spec_from_reader(v: RView) -> Result<(u64, int), ReadError> {
        spec_read_u64(v)
    }

    fn from_reader(reader: &mut Reader) -> (res: Result<u64, ReadError>) {
        reader.read_u64()
    }
}

impl FromReader for i32 {
    type Error = ReadError;

    open spec fn spec_from_reader(v: RView) -> Result<(i32, int), ReadError> {
        spec_read_i32(v)
    }

    fn from_reader(reader: &mut Reader) -> (res: Result<i32, ReadError>) {
        reader.read_i32()
    }
}

impl FromReader for i64 {
    type Error = ReadError;

    open spec fn spec_from_reader(v: RView) -> Result<(i64, int), ReadError> {
        spec_read_i64(v)
    }

    fn from_reader(reader: &mut Reader) -> (res: Result<i64, ReadError>) {
        reader.read_i64()
    }
}

impl FromReader for String {
    type Error = ReadError;

    open spec fn spec_from_reader(v: RView) -> Result<(Seq<char>, int), ReadError> {
        spec_read_name(v)
    }

    fn from_reader(reader: &mut Reader) -> (res: Result<String, ReadError>) {
        reader.read_name()
    }
}

/// A memory index: the single byte 0x00.
pub open spec fn spec_memindex_of(b: u8) -> Option<MemIndex> {
    if b == 0 {
        Some(MemIndex(0))
    } else {
        None
    }
}

impl MemIndex {
    pub fn try_from(value: u32) -> (r: Result<MemIndex, InvalidEnumValueError>)
        ensures
            value == 0 ==> r == Ok::<MemIndex, InvalidEnumValueError>(MemIndex(0)),
            value != 0 ==> r == Err::<MemIndex, InvalidEnumValueError>(
                InvalidEnumValueError { value: value as u8, enum_name: "memidx" },
            ),
    {
        if value == 0 {
            Ok(MemIndex(0))
        } else {
            Err(InvalidEnumValueError { value: value as u8, enum_name: "memidx" })
        }
    }
}

impl FromReader for MemIndex {
    type Error = ReadError;

    open spec fn spec_from_reader(v: RView) -> Result<(MemIndex, int), ReadError> {
        spec_enum_byte(v, |b: u8| spec_memindex_of(b), "memidx")
    }

    fn from_reader(reader: &mut Reader) -> (res: Result<MemIndex, ReadError>) {
        let pos = reader.position() as usize;
        let b = reader.read_u8()?;
        match MemIndex::try_from(b as u32) {
            Ok(m) => Ok(m),
            Err(e) => Err(ReadError::at_offset(ReadErrorKind::InvalidEnumValue(e), pos)),
        }
    }
}

impl FromReader for FuncIndex {
    type Error = ReadError;

    open spec fn spec_from_reader(v: RView) -> Result<(FuncIndex, int), ReadError> {
        match spec_read_u32(v) {
            Ok((x, p)) => Ok((FuncIndex(x), p)),
            Err(e) => Err(e),
        }
    }

    fn from_reader(reader: &mut Reader) -> (res: Result<FuncIndex, ReadError>) {
        let x = reader.read_u32()?;
        Ok(FuncIndex(x))
    }
}

/// A block type: 0x40 for none, a value type byte, or a type index as a
/// non-negative signed 33-bit integer.
pub open spec fn spec_blocktype(v: RView) -> Result<(BlockType, int), ReadError> {
    match spec_peek(v) {
        Err(e) => Err(e),
        Ok(b) => if b == 0x40 {
            match spec_read_u8(v) {
                Ok((_, p)) => Ok((BlockType::Empty, p)),
                Err(e) => Err(e),
            }
        } else if spec_valtype_of(b) is Some {
            match spec_read_u8(v) {
                Ok((_, p)) => Ok((BlockType::Value(spec_valtype_of(b)->Some_0), p)),
                Err(e) => Err(e),
            }
        } else {
            match spec_read_i64(v) {
                Err(e) => Err(e),
                Ok((idx, p)) => if idx < 0 || idx > u32::MAX {
                    Err(ReadError {
                        offset: v.pos as usize,
                        kind: ReadErrorKind::UnexpectedValue { value: idx, expected: "valid u32 value" },
                    })
                } else {
                    Ok((BlockType::Index(idx as u32), p))
                },
            }
        },
    }
}

impl FromReader for BlockType {
    type Error = ReadError;

    open spec fn spec_from_reader(v: RView) -> Result<(BlockType, int), ReadError> {
        spec_blocktype(v)
    }

    fn from_reader(reader: &mut Reader) -> (res: Result<BlockType, ReadError>) {
        assert(<BlockType as FromReader>::spec_from_reader(reader@) == spec_blocktype(reader@));
        let pos = reader.position() as usize;
        let byte = reader.peek()?;
        if byte == 0x40 {
            let _ = reader.read_u8()?;
            return Ok(BlockType::Empty);
        }
        if let Ok(valtype) = ValType::try_from(byte) {
            let _ = reader.read_u8()?;
            return Ok(BlockType::Value(valtype));
        }
        let idx = reader.read_i64()?;
        if idx < 0 || idx > u32::MAX as i64 {
            return Err(
                ReadError::at_offset(
                    ReadErrorKind::UnexpectedValue { value: idx, expected: "valid u32 value" },
                    pos,
                ),
            );
        }
        Ok(BlockType::Index(idx as u32))
    }
}

/// A constant expression: instructions up to and including the first `end`.
pub open spec fn spec_const_expr(v: RView) -> Result<(Seq<InstrV>, int), ConstExpressionReadError>
    decreases v.end - v.pos,
{
    if v.pos >= v.end {
        Err(ConstExpressionReadError::MissingEnd)
    } else {
        match spec_decode_instruction(v) {
            Err(e) => Err(ConstExpressionReadError::Instruction(e)),
            Ok((i, p)) => if i == InstrV::Plain(Instruction::End) {
                Ok((seq![i], p))
            } else if p <= v.pos || p > v.end {
                Err(ConstExpressionReadError::MissingEnd)
            } else {
                match spec_const_expr(v.at(p)) {
                    Err(e) => Err(e),
                    Ok((rest, q)) => Ok((seq![i] + rest, q)),
                }
            },
        }
    }
}

/// Prepends already decoded instructions to the outcome of decoding the rest.
pub open spec fn prepend_expr(
    done: Seq<InstrV>,
    rest: Result<(Seq<InstrV>, int), ConstExpressionReadError>,
) -> Result<(Seq<InstrV>, int), ConstExpressionReadError> {
    match rest {
        Ok((s, q)) => Ok((done + s, q)),
        Err(e) => Err(e),
    }
}

impl FromReader for ConstExpression {
    type Error = ConstExpressionReadError;

    open spec fn spec_from_reader(v: RView) -> Result<(Seq<InstrV>, int), ConstExpressionReadError> {
        spec_const_expr(v)
    }

    fn from_reader(reader: &mut Reader) -> (res: Result<ConstExpression, ConstExpressionReadError>) {
        let ghost v0 = reader@;
        let mut expr: Vec<Instruction> = Vec::new();
        proof {
            assert(vec_view(expr@) =~= seq![]);
            assert(seq![] + spec_const_expr(reader@)->Ok_0.0 =~= spec_const_expr(reader@)->Ok_0.0);
        }
        while !reader.is_exhausted()
            invariant
                reader@.same_window(v0),
                v0.pos <= reader@.pos,
                v0 == old(reader)@,
                spec_const_expr(v0) == prepend_expr(vec_view(expr@), spec_const_expr(reader@)),
            decreases reader@.end - reader@.pos,
        {
            let ghost before = reader@;
            let ghost done = vec_view(expr@);
            let instr = match decode_instruction(reader) {
                Ok(i) => i,
                Err(e) => return Err(ConstExpressionReadError::Instruction(e)),
            };
            let is_end = matches!(instr, Instruction::End);
            let ghost iv = instr@;
            expr.push(instr);
            proof {
                assert(vec_view(expr@) =~= done + seq![iv]);
                assert(before.at(reader@.pos) == reader@);
            }
            if is_end {
                proof {
                    assert(iv == InstrV::Plain(Instruction::End));
                    assert(spec_const_expr(before) == Ok::<(Seq<InstrV>, int), ConstExpressionReadError>(
                        (seq![iv], reader@.pos),
                    ));
                }
                return Ok(ConstExpression(expr));
            }
            proof {
                assert(iv != InstrV::Plain(Instruction::End));
                let r = spec_const_expr(reader@);
                if r is Ok {
                    assert(done + (seq![iv] + r->Ok_0.0) =~= vec_view(expr@) + r->Ok_0.0);
                }
            }
        }
        Err(ConstExpressionReadError::MissingEnd)
    }
}

/// The limit flag a byte encodes.
pub open spec fn spec_limitflag_of(b: u8) -> Option<LimitFlag> {
    if b == 0 {
        Some(LimitFlag::Min)
    } else if b == 1 {
        Some(LimitFlag::MinMax)
    } else {
        None
    }
}

impl LimitFlag {
    pub fn try_from(value: u8) -> (r: Result<LimitFlag, InvalidEnumValueError>)
        ensures
            match spec_limitflag_of(value) {
                Some(t) => r == Ok::<LimitFlag, InvalidEnumValueError>(t),
                None => r == Err::<LimitFlag, InvalidEnumValueError>(
                    InvalidEnumValueError { value, enum_name: "wasmrs::binary::types::LimitFlag" },
                ),
            },
    {
        match value {
            0x00 => Ok(LimitFlag::Min),
            0x01 => Ok(LimitFlag::MinMax),
            _ => Err(InvalidEnumValueError { value, enum_name: "wasmrs::binary::types::LimitFlag" }),
        }
    }
}

impl FromReader for LimitFlag {
    type Error = ReadError;

    open spec fn spec_from_reader(v: RView) -> Result<(LimitFlag, int), ReadError> {
        spec_enum_byte(v, |b: u8| spec_limitflag_of(b), "wasmrs::binary::types::LimitFlag")
    }

    fn from_reader(reader: &mut Reader) -> (res: Result<LimitFlag, ReadError>) {
        let pos = reader.position() as usize;
        let b = reader.read_u8()?;
        match LimitFlag::try_from(b) {
            Ok(t) => Ok(t),
            Err(e) => Err(ReadError::at_offset(ReadErrorKind::InvalidEnumValue(e), pos)),
        }
    }
}

/// Limits: a flag, a minimum, and a maximum when the flag says so.
pub open spec fn spec_limit(v: RView) -> Result<(Limit, int), LimitReadError> {
    match LimitFlag::spec_from_reader(v) {
        Err(e) => Err(LimitReadError::Flag(e)),
        Ok((flag, p)) => match spec_read_u32(v.at(p)) {
            Err(e) => Err(LimitReadError::Min(e)),
            Ok((min, q)) => match flag {
                LimitFlag::Min => Ok((Limit { min, max: None }, q)),
                LimitFlag::MinMax => match spec_read_u32(v.at(q)) {
                    Err(e) => Err(LimitReadError::Max(e)),
                    Ok((max, r)) => Ok((Limit { min, max: Some(max) }, r)),
                },
            },
        },
    }
}

impl FromReader for Limit {
    type Error = LimitReadError;

    open spec fn spec_from_reader(v: RView) -> Result<(Limit, int), LimitReadError> {
        spec_limit(v)
    }

    fn from_reader(reader: &mut Reader) -> (res: Result<Limit, LimitReadError>) {
        assert(<Limit as FromReader>::spec_from_reader(reader@) == spec_limit(reader@));
        let flag: LimitFlag = match reader.read() {
            Ok(f) => f,
            Err(e) => return Err(LimitReadError::Flag(e)),
        };
        let min = match reader.read_u32() {
            Ok(m) => m,
            Err(e) => return Err(LimitReadError::Min(e)),
        };
        match flag {
            LimitFlag::Min => Ok(Limit { min, max: None }),
            LimitFlag::MinMax => match reader.read_u32() {
                Ok(max) => Ok(Limit { min, max: Some(max) }),
                Err(e) => Err(LimitReadError::Max(e)),
            },
        }
    }
}

/// A branch table: a vector of labels, then the default label.
pub open spec fn spec_branch_table(v: RView) -> Result<(BranchTableIdxV, int), BranchTableIdxReadError> {
    match spec_read_vec_of::<u32>(v) {
        Err(e) => Err(BranchTableIdxReadError::Labels(e)),
        Ok((labels, p)) => match spec_read_u32(v.at(p)) {
            Err(e) => Err(BranchTableIdxReadError::Default(e)),
            Ok((default, q)) => Ok((BranchTableIdxV { labels, default }, q)),
        },
    }
}

impl FromReader for BranchTableIdx {
    type Error = BranchTableIdxReadError;

    open spec fn spec_from_reader(v: RView) -> Result<(BranchTableIdxV, int), BranchTableIdxReadError> {
        spec_branch_table(v)
    }

    fn from_reader(reader: &mut Reader) -> (res: Result<BranchTableIdx, BranchTableIdxReadError>) {
        assert(<BranchTableIdx as FromReader>::spec_from_reader(reader@) == spec_branch_table(reader@));
        let labels: Vec<u32> = match reader.read_vec() {
            Ok(l) => l,
            Err(e) => return Err(BranchTableIdxReadError::Labels(e)),
        };
        proof {
            assert(vec_view(labels@) =~= labels@);
        }
        let default = match reader.read_u32() {
            Ok(d) => d,
            Err(e) => return Err(BranchTableIdxReadError::Default(e)),
        };
        Ok(BranchTableIdx { labels, default })
    }
}

/// A memory argument: alignment, then offset.
pub open spec fn spec_memarg(v: RView) -> Result<(MemArg, int), MemArgReadError> {
    match spec_read_u32(v) {
        Err(e) => Err(MemArgReadError::Align(e)),
        Ok((align, p)) => match spec_read_u32(v.at(p)) {
            Err(e) => Err(MemArgReadError::Offset(e)),
            Ok((offset, q)) => Ok((MemArg { align, offset }, q)),
        },
    }
}

impl FromReader for MemArg {
    type Error = MemArgReadError;

    open spec fn spec_from_reader(v: RView) -> Result<(MemArg, int), MemArgReadError> {
        spec_memarg(v)
    }

    fn from_reader(reader: &mut Reader) -> (res: Result<MemArg, MemArgReadError>) {
        assert(<MemArg as FromReader>::spec_from_reader(reader@) == spec_memarg(reader@));
        let align = match reader.read_u32() {
            Ok(a) => a,
            Err(e) => return Err(MemArgReadError::Align(e)),
        };
        let offset = match reader.read_u32() {
            Ok(o) => o,
            Err(e) => return Err(MemArgReadError::Offset(e)),
        };
        Ok(MemArg { align, offset })
    }
}

} // verus!
