//! Validation of function bodies: the WebAssembly validation algorithm,
//! with a stack of operand types and a stack of control frames.
//!
//! The model of the validator is a state of both stacks (`VState`), and each
//! step of the algorithm is a spec function from a state to an `Outcome`: a
//! new state, a validation error, or a panic of the algorithm (an index out
//! of range, an empty control stack). The executable validator is proved to
//! follow the model on every input on which the model does not panic.
use vstd::prelude::*;
use vstd::string::*;

pub mod isolation;
pub mod rules;

use crate::binary::module::{Module, ModuleV};
use crate::binary::reader::vec_view;
use crate::binary::sections::code::{CodeEntry, CodeEntryV, FuncLocal};
use crate::binary::sections::element::{ElementSegmentItems, spec_items_reftype};
use crate::binary::sections::global::{GlobalType, MutabilityFlag};
use crate::binary::sections::memory::MemType;
use crate::binary::sections::table::TableType;
use crate::binary::sections::import::{ImportDesc, ImportEntryV};
use crate::binary::types::{BlockType, FuncType, FuncTypeV, MemArg, MemIndex, RefType, ValType};
use crate::instructions::{InstrV, Instruction};

verus! {

#[derive(Debug, Clone, Copy, PartialEq, Eq, Structural)]
pub enum ValueType {
    I32,
    I64,
    F32,
    F64,
    V128,
    Ref(RefType),
    Unknown,
}

impl ValueType {
    pub open spec fn spec_is_num(self) -> bool {
        match self {
            ValueType::I32 | ValueType::I64 | ValueType::F32 | ValueType::F64 | ValueType::Unknown => true,
            _ => false,
        }
    }

    pub open spec fn spec_is_vec(self) -> bool {
        match self {
            ValueType::V128 | ValueType::Unknown => true,
            _ => false,
        }
    }

    pub open spec fn spec_is_ref(self) -> bool {
        match self {
            ValueType::Ref(_) | ValueType::Unknown => true,
            _ => false,
        }
    }

    fn is_num(&self) -> (r: bool)
        ensures
            r == self.spec_is_num(),
    {
        matches!(self, ValueType::I32 | ValueType::I64 | ValueType::F32 | ValueType::F64 | ValueType::Unknown)
    }

    fn is_vec(&self) -> (r: bool)
        ensures
            r == self.spec_is_vec(),
    {
        matches!(self, ValueType::V128 | ValueType::Unknown)
    }

    #[allow(dead_code)]
    fn is_ref(&self) -> (r: bool)
        ensures
            r == self.spec_is_ref(),
    {
        matches!(self, ValueType::Ref(_) | ValueType::Unknown)
    }
}

/// The operand type of a value type.
pub open spec fn value_type_of(v: ValType) -> ValueType {
    match v {
        ValType::Ref(rt) => ValueType::Ref(rt),
        ValType::V128 => ValueType::V128,
        ValType::F64 => ValueType::F64,
        ValType::F32 => ValueType::F32,
        ValType::I64 => ValueType::I64,
        ValType::I32 => ValueType::I32,
    }
}

pub open spec fn value_types_of(s: Seq<ValType>) -> Seq<ValueType> {
    s.map_values(|v: ValType| value_type_of(v))
}

impl From<ValType> for ValueType {
    fn from(value: ValType) -> Self {
        match value {
            ValType::Ref(rt) => ValueType::Ref(rt),
            ValType::V128 => ValueType::V128,
            ValType::F64 => ValueType::F64,
            ValType::F32 => ValueType::F32,
            ValType::I64 => ValueType::I64,
            ValType::I32 => ValueType::I32,
        }
    }
}

impl vstd::std_specs::convert::FromSpecImpl<ValType> for ValueType {
    open spec fn obeys_from_spec() -> bool {
        true
    }

    open spec fn from_spec(v: ValType) -> ValueType {
        value_type_of(v)
    }
}

impl From<RefType> for ValueType {
    fn from(value: RefType) -> Self {
        ValueType::Ref(value)
    }
}

impl vstd::std_specs::convert::FromSpecImpl<RefType> for ValueType {
    open spec fn obeys_from_spec() -> bool {
        true
    }

    open spec fn from_spec(v: RefType) -> ValueType {
        ValueType::Ref(v)
    }
}

#[derive(Debug)]
pub struct CtrlFrame {
    opcode: Instruction,
    start_types: Vec<ValueType>,
    end_types: Vec<ValueType>,
    height: usize,
    unreachable: bool,
}

/// The model of a control frame.
pub struct CtrlFrameV {
    pub opcode: InstrV,
    pub start: Seq<ValueType>,
    pub end: Seq<ValueType>,
    pub height: int,
    pub unreachable: bool,
}

impl View for CtrlFrame {
    type V = CtrlFrameV;

    closed spec fn view(&self) -> CtrlFrameV {
        CtrlFrameV {
            opcode: self.opcode@,
            start: self.start_types@,
            end: self.end_types@,
            height: self.height as int,
            unreachable: self.unreachable,
        }
    }
}

#[derive(Debug)]
struct Validator {
    vals: Vec<ValueType>,
    ctrls: Vec<CtrlFrame>,
}

/// The state of the validator: the operand stack and the control stack.
pub struct VState {
    pub vals: Seq<ValueType>,
    pub ctrls: Seq<CtrlFrameV>,
}

impl View for Validator {
    type V = VState;

    closed spec fn view(&self) -> VState {
        VState { vals: self.vals@, ctrls: vec_view(self.ctrls@) }
    }
}

#[derive(Debug, Clone, Copy, PartialEq, Eq, Structural)]
#[non_exhaustive]
pub enum ValidationError {
    ControlStackUnderflow,
    ValueStackUnderflow,
    TypeMismatch,
    TableTypeMismatch,
    ElseWithoutMatchingIf,
    UnknownLocal,
    UnknownGlobal,
    UnknownType,
    UnknownTable,
    UnknownFunction,
    UnknownMemory,
    UnknownData,
    UnknownElement,
    ImmutableGlobal,
    MissingGlobalSection,
    InvalidSelectTypes,
    InvalidMemAlignment,
}

impl ValidationError {
    /// The text of this error.
    pub open spec fn message(&self) -> Seq<char> {
        match self {
            ValidationError::ControlStackUnderflow => "control stack underflow"@,
            ValidationError::ValueStackUnderflow => "value stack underflow"@,
            ValidationError::TypeMismatch => "type mismatch"@,
            ValidationError::TableTypeMismatch => "table type mismatch"@,
            ValidationError::ElseWithoutMatchingIf => "else without matching if"@,
            ValidationError::UnknownLocal => "unknown local"@,
            ValidationError::UnknownGlobal => "unknown global"@,
            ValidationError::UnknownType => "unknown type"@,
            ValidationError::UnknownTable => "unknown table"@,
            ValidationError::UnknownFunction => "unknown function"@,
            ValidationError::UnknownMemory => "unknown memory"@,
            ValidationError::UnknownData => "unknown data"@,
            ValidationError::UnknownElement => "unknown element"@,
            ValidationError::ImmutableGlobal => "immutable global"@,
            ValidationError::MissingGlobalSection => "missing global section"@,
            ValidationError::InvalidSelectTypes => "select types must have exactly one entry"@,
            ValidationError::InvalidMemAlignment => "invalid mem alignment"@,
        }
    }

    /// Renders the error as text.
    pub fn to_string(&self) -> (s: String)
        ensures
            s@ == self.message(),
    {
        match self {
            ValidationError::ControlStackUnderflow => String::from_str("control stack underflow"),
            ValidationError::ValueStackUnderflow => String::from_str("value stack underflow"),
            ValidationError::TypeMismatch => String::from_str("type mismatch"),
            ValidationError::TableTypeMismatch => String::from_str("table type mismatch"),
            ValidationError::ElseWithoutMatchingIf => String::from_str("else without matching if"),
            ValidationError::UnknownLocal => String::from_str("unknown local"),
            ValidationError::UnknownGlobal => String::from_str("unknown global"),
            ValidationError::UnknownType => String::from_str("unknown type"),
            ValidationError::UnknownTable => String::from_str("unknown table"),
            ValidationError::UnknownFunction => String::from_str("unknown function"),
            ValidationError::UnknownMemory => String::from_str("unknown memory"),
            ValidationError::UnknownData => String::from_str("unknown data"),
            ValidationError::UnknownElement => String::from_str("unknown element"),
            ValidationError::ImmutableGlobal => String::from_str("immutable global"),
            ValidationError::MissingGlobalSection => String::from_str("missing global section"),
            ValidationError::InvalidSelectTypes => String::from_str("select types must have exactly one entry"),
            ValidationError::InvalidMemAlignment => String::from_str("invalid mem alignment"),
        }
    }
}

/// What a step of the algorithm comes to: a result, a validation error, or
/// a panic of the algorithm.
pub enum Outcome<T> {
    Panics,
    Fails(ValidationError),
    Gives(T),
}

/// An executable result and final state that follow an outcome of the model.
pub open spec fn follows<T>(o: Outcome<(VState, T)>, r: Result<T, ValidationError>, after: VState) -> bool {
    match o {
        Outcome::Gives((s, x)) => r == Ok::<T, ValidationError>(x) && after == s,
        Outcome::Fails(e) => r == Err::<T, ValidationError>(e),
        Outcome::Panics => false,
    }
}

/// The same for a step that gives a new state only.
pub open spec fn follows_state(o: Outcome<VState>, r: Result<(), ValidationError>, after: VState) -> bool {
    match o {
        Outcome::Gives(s) => r is Ok && after == s,
        Outcome::Fails(e) => r == Err::<(), ValidationError>(e),
        Outcome::Panics => false,
    }
}

/// The same for a lookup, which leaves the state alone.
pub open spec fn follows_lookup<T>(o: Outcome<T>, r: Result<T, ValidationError>) -> bool {
    match o {
        Outcome::Gives(x) => r == Ok::<T, ValidationError>(x),
        Outcome::Fails(e) => r == Err::<T, ValidationError>(e),
        Outcome::Panics => false,
    }
}

pub open spec fn push_val(s: VState, v: ValueType) -> VState {
    VState { vals: s.vals.push(v), ctrls: s.ctrls }
}

pub open spec fn push_vals(s: VState, vs: Seq<ValueType>) -> VState {
    VState { vals: s.vals + vs, ctrls: s.ctrls }
}

/// Pops an operand: `Unknown` at the bottom of an unreachable frame, an
/// underflow at the bottom of another frame.
pub open spec fn spec_pop_val(s: VState) -> Outcome<(VState, ValueType)> {
    if s.ctrls.len() == 0 {
        Outcome::Panics
    } else if s.vals.len() == s.ctrls.last().height && s.ctrls.last().unreachable {
        Outcome::Gives((s, ValueType::Unknown))
    } else if s.vals.len() == s.ctrls.last().height {
        Outcome::Fails(ValidationError::ValueStackUnderflow)
    } else if s.vals.len() == 0 {
        Outcome::Panics
    } else {
        Outcome::Gives((VState { vals: s.vals.drop_last(), ctrls: s.ctrls }, s.vals.last()))
    }
}

/// Pops an operand that must match the expected type, where `Unknown`
/// matches any type.
pub open spec fn spec_pop_val_expect(s: VState, expected: ValueType) -> Outcome<(VState, ValueType)> {
    match spec_pop_val(s) {
        Outcome::Panics => Outcome::Panics,
        Outcome::Fails(e) => Outcome::Fails(e),
        Outcome::Gives((s2, actual)) => if actual != expected && actual != ValueType::Unknown && expected
            != ValueType::Unknown {
            Outcome::Fails(ValidationError::TypeMismatch)
        } else {
            Outcome::Gives((s2, actual))
        },
    }
}

/// Pops operands that must match the expected types, the last one first;
/// gives the popped types in the order popped.
pub open spec fn spec_pop_vals_expect(s: VState, expected: Seq<ValueType>) -> Outcome<(VState, Seq<ValueType>)>
    decreases expected.len(),
{
    if expected.len() == 0 {
        Outcome::Gives((s, seq![]))
    } else {
        match spec_pop_val_expect(s, expected.last()) {
            Outcome::Panics => Outcome::Panics,
            Outcome::Fails(e) => Outcome::Fails(e),
            Outcome::Gives((s2, v)) => match spec_pop_vals_expect(s2, expected.drop_last()) {
                Outcome::Panics => Outcome::Panics,
                Outcome::Fails(e) => Outcome::Fails(e),
                Outcome::Gives((s3, rest)) => Outcome::Gives((s3, seq![v] + rest)),
            },
        }
    }
}

/// Opens a control frame at the current height, and pushes the types it takes.
pub open spec fn push_ctrl(s: VState, opcode: InstrV, start: Seq<ValueType>, end: Seq<ValueType>) -> VState {
    VState {
        vals: s.vals + start,
        ctrls: s.ctrls.push(CtrlFrameV { opcode, start, end, height: s.vals.len() as int, unreachable: false }),
    }
}

/// Pops a control frame: its results must be on the operand stack, and
/// nothing below them but the frame's own height.
pub open spec fn spec_pop_ctrl(s: VState) -> Outcome<(VState, CtrlFrameV)> {
    if s.ctrls.len() == 0 {
        Outcome::Fails(ValidationError::ControlStackUnderflow)
    } else {
        let f = s.ctrls.last();
        match spec_pop_vals_expect(s, f.end) {
            Outcome::Panics => Outcome::Panics,
            Outcome::Fails(e) => Outcome::Fails(e),
            Outcome::Gives((s2, _)) => if s2.vals.len() != f.height {
                Outcome::Fails(ValidationError::TypeMismatch)
            } else if s2.ctrls.len() == 0 {
                Outcome::Panics
            } else {
                Outcome::Gives((VState { vals: s2.vals, ctrls: s2.ctrls.drop_last() }, s2.ctrls.last()))
            },
        }
    }
}

/// The operand stack cut, or filled with `Unknown`, to the given height.
pub open spec fn resize_vals(vals: Seq<ValueType>, h: int) -> Seq<ValueType> {
    if h <= vals.len() {
        vals.subrange(0, h)
    } else {
        vals + Seq::new((h - vals.len()) as nat, |i: int| ValueType::Unknown)
    }
}

/// Marks the current frame as unreachable, dropping its operands.
#[verifier::opaque]
pub open spec fn spec_unreachable(s: VState) -> Outcome<VState> {
    if s.ctrls.len() == 0 {
        Outcome::Panics
    } else {
        let f = s.ctrls.last();
        Outcome::Gives(
            VState {
                vals: resize_vals(s.vals, f.height),
                ctrls: s.ctrls.update(
                    s.ctrls.len() - 1,
                    CtrlFrameV { opcode: f.opcode, start: f.start, end: f.end, height: f.height, unreachable: true },
                ),
            },
        )
    }
}

/// A block type as the types it takes and the types it leaves.
pub open spec fn spec_block_type(bt: BlockType, m: ModuleV) -> Outcome<(Seq<ValueType>, Seq<ValueType>)> {
    match bt {
        BlockType::Empty => Outcome::Gives((seq![], seq![])),
        BlockType::Value(vt) => Outcome::Gives((seq![], seq![value_type_of(vt)])),
        BlockType::Index(idx) => match m.types {
            None => Outcome::Fails(ValidationError::UnknownType),
            Some(ts) => if idx >= ts.len() {
                Outcome::Panics
            } else {
                Outcome::Gives((value_types_of(ts[idx as int].params), value_types_of(ts[idx as int].results)))
            },
        },
    }
}

/// The function type at a type index.
pub open spec fn spec_type_at(m: ModuleV, type_idx: u32) -> Outcome<FuncTypeV> {
    match m.types {
        Some(ts) => if type_idx < ts.len() {
            Outcome::Gives(ts[type_idx as int])
        } else {
            Outcome::Fails(ValidationError::UnknownType)
        },
        None => Outcome::Fails(ValidationError::UnknownType),
    }
}

/// The type indices of the imported functions, in the order of the imports.
pub open spec fn func_import_types(s: Seq<ImportEntryV>) -> Seq<u32>
    decreases s.len(),
{
    if s.len() == 0 {
        seq![]
    } else {
        func_import_types(s.drop_last()) + match s.last().desc {
            ImportDesc::Func(t) => seq![t],
            _ => seq![],
        }
    }
}

/// The type indices of a module's imported functions.
pub open spec fn imported_func_types(m: ModuleV) -> Seq<u32> {
    match m.imports {
        Some(s) => func_import_types(s),
        None => seq![],
    }
}

/// The type of a function of the module's function index space: the
/// imported functions first, then those of the function section.
pub open spec fn spec_func_type_at(m: ModuleV, func_idx: u32) -> Outcome<FuncTypeV> {
    let imported = imported_func_types(m);
    if func_idx < imported.len() {
        spec_type_at(m, imported[func_idx as int])
    } else {
        match m.functions {
            Some(fs) => if func_idx - imported.len() < fs.len() {
                spec_type_at(m, fs[func_idx - imported.len()])
            } else {
                Outcome::Fails(ValidationError::UnknownFunction)
            },
            None => Outcome::Fails(ValidationError::UnknownFunction),
        }
    }
}

/// The imported functions of a prefix of the imports are a prefix of those
/// of a longer one.
proof fn lemma_func_import_types_prefix(s: Seq<ImportEntryV>, j: int, n: int)
    requires
        0 <= j <= n <= s.len(),
    ensures
        func_import_types(s.take(j)).len() <= func_import_types(s.take(n)).len(),
        func_import_types(s.take(n)).take(func_import_types(s.take(j)).len() as int) == func_import_types(s.take(j)),
    decreases n - j,
{
    if j < n {
        lemma_func_import_types_prefix(s, j, n - 1);
        assert(s.take(n).drop_last() =~= s.take(n - 1));
        let a = func_import_types(s.take(j));
        let b = func_import_types(s.take(n - 1));
        let c = func_import_types(s.take(n));
        assert(c.take(a.len() as int) =~= b.take(a.len() as int));
    } else {
        let a = func_import_types(s.take(j));
        assert(a.take(a.len() as int) =~= a);
    }
}

pub open spec fn spec_table_type(m: ModuleV, table_idx: u32) -> Outcome<TableType> {
    match m.tables {
        Some(ts) => if table_idx < ts.len() {
            Outcome::Gives(ts[table_idx as int].tabletype)
        } else {
            Outcome::Fails(ValidationError::UnknownTable)
        },
        None => Outcome::Fails(ValidationError::UnknownTable),
    }
}

/// The declared local that a local index past the parameters falls in;
/// `count` locals come before the declaration `k`.
pub open spec fn spec_find_local(locals: Seq<FuncLocal>, k: int, count: int, local_idx: int) -> Outcome<ValueType>
    decreases locals.len() - k,
{
    if k < 0 || k >= locals.len() {
        Outcome::Fails(ValidationError::UnknownLocal)
    } else if count + locals[k].count > u32::MAX {
        Outcome::Panics
    } else if local_idx < count + locals[k].count {
        Outcome::Gives(value_type_of(locals[k].valtype))
    } else {
        spec_find_local(locals, k + 1, count + locals[k].count, local_idx)
    }
}

/// The type of a local: a parameter, or one of the declared locals.
pub open spec fn spec_local_type(ft: FuncTypeV, locals: Seq<FuncLocal>, idx: u32) -> Outcome<ValueType> {
    if idx < ft.params.len() {
        Outcome::Gives(value_type_of(ft.params[idx as int]))
    } else if (ft.params.len() as u32) > idx {
        Outcome::Panics
    } else {
        spec_find_local(locals, 0, 0, idx - (ft.params.len() as u32))
    }
}

pub open spec fn spec_global_type(m: ModuleV, idx: u32) -> Outcome<GlobalType> {
    match m.globals {
        None => Outcome::Fails(ValidationError::MissingGlobalSection),
        Some(gs) => if idx < gs.len() {
            Outcome::Gives(gs[idx as int].gt)
        } else {
            Outcome::Fails(ValidationError::UnknownGlobal)
        },
    }
}

/// The types that a branch to the `n`th frame from the top takes: a loop's
/// start types, another frame's end types.
pub open spec fn label_types(n: int, frames: Seq<CtrlFrameV>) -> Seq<ValueType> {
    let f = frames[frames.len() - n - 1];
    if f.opcode matches InstrV::Plain(Instruction::Loop(_)) {
        f.start
    } else {
        f.end
    }
}

pub open spec fn spec_mem_type_at(m: ModuleV, mem_idx: u32) -> Outcome<MemType> {
    match m.memories {
        Some(ms) => if mem_idx < ms.len() {
            Outcome::Gives(ms[mem_idx as int])
        } else {
            Outcome::Fails(ValidationError::UnknownMemory)
        },
        None => Outcome::Fails(ValidationError::UnknownMemory),
    }
}

/// The alignment may not exceed the natural alignment of the access; an
/// exponent of 32 or more exceeds every natural alignment.
pub open spec fn spec_mem_alignment(memarg: MemArg, byte_size: u32) -> Outcome<()> {
    if memarg.align >= 32 {
        Outcome::Fails(ValidationError::InvalidMemAlignment)
    } else if (1u32 << memarg.align) > byte_size {
        Outcome::Fails(ValidationError::InvalidMemAlignment)
    } else {
        Outcome::Gives(())
    }
}

/// `[t t] -> [t]`
pub open spec fn spec_binop(s: VState, t: ValueType) -> Outcome<VState> {
    match spec_pop_val_expect(s, t) {
        Outcome::Panics => Outcome::Panics,
        Outcome::Fails(e) => Outcome::Fails(e),
        Outcome::Gives((s1, _)) => match spec_pop_val_expect(s1, t) {
            Outcome::Panics => Outcome::Panics,
            Outcome::Fails(e) => Outcome::Fails(e),
            Outcome::Gives((s2, _)) => Outcome::Gives(push_val(s2, t)),
        },
    }
}

/// `[t1] -> [t2]`
pub open spec fn spec_convop(s: VState, from: ValueType, to: ValueType) -> Outcome<VState> {
    match spec_pop_val_expect(s, from) {
        Outcome::Panics => Outcome::Panics,
        Outcome::Fails(e) => Outcome::Fails(e),
        Outcome::Gives((s1, _)) => Outcome::Gives(push_val(s1, to)),
    }
}

/// `[t t] -> [i32]`
pub open spec fn spec_compop(s: VState, t: ValueType) -> Outcome<VState> {
    match spec_pop_val_expect(s, t) {
        Outcome::Panics => Outcome::Panics,
        Outcome::Fails(e) => Outcome::Fails(e),
        Outcome::Gives((s1, _)) => match spec_pop_val_expect(s1, t) {
            Outcome::Panics => Outcome::Panics,
            Outcome::Fails(e) => Outcome::Fails(e),
            Outcome::Gives((s2, _)) => Outcome::Gives(push_val(s2, ValueType::I32)),
        },
    }
}

/// A load needs memory 0 and a valid alignment: `[i32] -> [t]`.
pub open spec fn spec_mem_load(s: VState, m: ModuleV, memarg: MemArg, byte_size: u32, t: ValType) -> Outcome<VState> {
    match spec_mem_type_at(m, 0) {
        Outcome::Panics => Outcome::Panics,
        Outcome::Fails(e) => Outcome::Fails(e),
        Outcome::Gives(_) => match spec_mem_alignment(memarg, byte_size) {
            Outcome::Panics => Outcome::Panics,
            Outcome::Fails(e) => Outcome::Fails(e),
            Outcome::Gives(_) => spec_convop(s, ValueType::I32, value_type_of(t)),
        },
    }
}

/// A store needs memory 0 and a valid alignment: `[i32 t] -> []`.
pub open spec fn spec_mem_store(s: VState, m: ModuleV, memarg: MemArg, byte_size: u32, t: ValType) -> Outcome<VState> {
    match spec_mem_type_at(m, 0) {
        Outcome::Panics => Outcome::Panics,
        Outcome::Fails(e) => Outcome::Fails(e),
        Outcome::Gives(_) => match spec_mem_alignment(memarg, byte_size) {
            Outcome::Panics => Outcome::Panics,
            Outcome::Fails(e) => Outcome::Fails(e),
            Outcome::Gives(_) => match spec_pop_val_expect(s, value_type_of(t)) {
                Outcome::Panics => Outcome::Panics,
                Outcome::Fails(e) => Outcome::Fails(e),
                Outcome::Gives((s1, _)) => match spec_pop_val_expect(s1, ValueType::I32) {
                    Outcome::Panics => Outcome::Panics,
                    Outcome::Fails(e) => Outcome::Fails(e),
                    Outcome::Gives((s2, _)) => Outcome::Gives(s2),
                },
            },
        },
    }
}

/// A copy of a vector of operand types.
fn copy_types(v: &Vec<ValueType>) -> (r: Vec<ValueType>)
    ensures
        r@ == v@,
{
    let mut out: Vec<ValueType> = Vec::new();
    let mut i: usize = 0;
    while i < v.len()
        invariant
            i <= v@.len(),
            out@ == v@.take(i as int),
        decreases v@.len() - i,
    {
        out.push(v[i]);
        i = i + 1;
        proof {
            assert(out@ =~= v@.take(i as int));
        }
    }
    proof {
        assert(v@.take(i as int) =~= v@);
    }
    out
}

/// The operand types of value types.
fn value_types(v: &Vec<ValType>) -> (r: Vec<ValueType>)
    ensures
        r@ == value_types_of(v@),
{
    let mut out: Vec<ValueType> = Vec::new();
    let mut i: usize = 0;
    while i < v.len()
        invariant
            i <= v@.len(),
            out@ == value_types_of(v@.take(i as int)),
        decreases v@.len() - i,
    {
        out.push(ValueType::from(v[i]));
        i = i + 1;
        proof {
            assert(out@ =~= value_types_of(v@.take(i as int)));
        }
    }
    proof {
        assert(v@.take(i as int) =~= v@);
    }
    out
}

impl Default for Validator {
    fn default() -> (r: Self)
        ensures
            r@ == (VState { vals: seq![], ctrls: seq![] }),
    {
        let r = Validator { vals: Vec::new(), ctrls: Vec::new() };
        proof {
            assert(vec_view(r.ctrls@) =~= seq![]);
        }
        r
    }
}

impl Validator {
    fn push_val(&mut self, val: ValueType)
        ensures
            final(self)@ == push_val(old(self)@, val),
    {
        self.vals.push(val)
    }

    fn push_vals(&mut self, vals: &[ValueType])
        ensures
            final(self)@ == push_vals(old(self)@, vals@),
    {
        let ghost v0 = self.vals@;
        let mut i: usize = 0;
        while i < vals.len()
            invariant
                i <= vals@.len(),
                self.vals@ == v0 + vals@.take(i as int),
                self.ctrls == old(self).ctrls,
                v0 == old(self).vals@,
            decreases vals@.len() - i,
        {
            self.vals.push(vals[i]);
            i = i + 1;
            proof {
                assert(self.vals@ =~= v0 + vals@.take(i as int));
            }
        }
        proof {
            assert(vals@.take(i as int) =~= vals@);
        }
    }

    fn pop_val(&mut self) -> (r: Result<ValueType, ValidationError>)
        requires
            !(spec_pop_val(old(self)@) is Panics),
        ensures
            follows(spec_pop_val(old(self)@), r, final(self)@),
    {
        let n = self.ctrls.len();
        let last = &self.ctrls[n - 1];
        if self.vals.len() == last.height && last.unreachable {
            return Ok(ValueType::Unknown);
        }
        if self.vals.len() == last.height {
            return Err(ValidationError::ValueStackUnderflow);
        }
        let v = self.vals.pop().expect("unexpected empty value stack");
        Ok(v)
    }

    fn pop_val_expect(&mut self, expected: ValueType) -> (r: Result<ValueType, ValidationError>)
        requires
            !(spec_pop_val_expect(old(self)@, expected) is Panics),
        ensures
            follows(spec_pop_val_expect(old(self)@, expected), r, final(self)@),
    {
        let actual = self.pop_val()?;
        if actual != expected && actual != ValueType::Unknown && expected != ValueType::Unknown {
            return Err(ValidationError::TypeMismatch);
        }
        Ok(actual)
    }

    fn pop_vals_expect(&mut self, expected: &[ValueType]) -> (r: Result<Vec<ValueType>, ValidationError>)
        requires
            !(spec_pop_vals_expect(old(self)@, expected@) is Panics),
        ensures
            match spec_pop_vals_expect(old(self)@, expected@) {
                Outcome::Gives((s, vs)) => r is Ok && r->Ok_0@ == vs && final(self)@ == s,
                Outcome::Fails(e) => r == Err::<Vec<ValueType>, ValidationError>(e),
                Outcome::Panics => false,
            },
    {
        let ghost s0 = self@;
        let mut res: Vec<ValueType> = vec![];
        let mut i: usize = expected.len();
        proof {
            assert(expected@.take(i as int) =~= expected@);
            let o = spec_pop_vals_expect(self@, expected@.take(i as int));
            if o is Gives {
                assert(seq![] + o->Gives_0.1 =~= o->Gives_0.1);
            }
        }
        while i > 0
            invariant
                i <= expected@.len(),
                s0 == old(self)@,
                !(spec_pop_vals_expect(s0, expected@) is Panics),
                spec_pop_vals_expect(s0, expected@) == prepend_popped(
                    res@,
                    spec_pop_vals_expect(self@, expected@.take(i as int)),
                ),
            decreases i,
        {
            proof {
                assert(expected@.take(i as int).drop_last() =~= expected@.take(i - 1));
                assert(expected@.take(i as int).last() == expected@[i - 1]);
            }
            let ghost before = self@;
            let ghost done = res@;
            let v = self.pop_val_expect(expected[i - 1])?;
            res.push(v);
            i = i - 1;
            proof {
                let o = spec_pop_vals_expect(self@, expected@.take(i as int));
                if o is Gives {
                    assert(done + (seq![v] + o->Gives_0.1) =~= res@ + o->Gives_0.1);
                }
            }
        }
        proof {
            assert(res@ + seq![] =~= res@);
        }
        Ok(res)
    }

    fn push_ctrl(&mut self, opcode: Instruction, start: Vec<ValueType>, end: Vec<ValueType>)
        ensures
            final(self)@ == push_ctrl(old(self)@, opcode@, start@, end@),
    {
        let height = self.vals.len();
        self.push_vals(start.as_slice());
        let frame = CtrlFrame { opcode, start_types: start, end_types: end, height, unreachable: false };
        let ghost old_ctrls = self.ctrls@;
        self.ctrls.push(frame);
        proof {
            assert(vec_view(self.ctrls@) =~= vec_view(old_ctrls).push(frame@));
        }
    }

    fn pop_ctrl(&mut self) -> (r: Result<CtrlFrame, ValidationError>)
        requires
            !(spec_pop_ctrl(old(self)@) is Panics),
        ensures
            match spec_pop_ctrl(old(self)@) {
                Outcome::Gives((s, f)) => r is Ok && r->Ok_0@ == f && final(self)@ == s,
                Outcome::Fails(e) => r is Err && r->Err_0 == e,
                Outcome::Panics => false,
            },
    {
        let n = self.ctrls.len();
        if n == 0 {
            return Err(ValidationError::ControlStackUnderflow);
        }
        let frame = &self.ctrls[n - 1];
        let height = frame.height;
        let end_types = copy_types(&frame.end_types);
        let _ = self.pop_vals_expect(end_types.as_slice())?;
        if self.vals.len() != height {
            return Err(ValidationError::TypeMismatch);
        }
        let ghost old_ctrls = self.ctrls@;
        let f = self.ctrls.pop().expect("unexpected empty control stack");
        proof {
            assert(vec_view(self.ctrls@) =~= vec_view(old_ctrls).drop_last());
        }
        Ok(f)
    }

    /// Marks the current frame as unreachable
    fn unreachable(&mut self)
        requires
            !(spec_unreachable(old(self)@) is Panics),
        ensures
            spec_unreachable(old(self)@) == Outcome::Gives(final(self)@),
    {
        reveal(spec_unreachable);
        let ghost old_ctrls = self.ctrls@;
        let mut last = self.ctrls.pop().expect("unexpected empty control stack");
        let h = last.height;
        if h <= self.vals.len() {
            self.vals.truncate(h);
        } else {
            let ghost v0 = self.vals@;
            while self.vals.len() < h
                invariant
                    self.ctrls@ == old_ctrls.drop_last(),
                    v0.len() <= self.vals@.len() <= h,
                    self.vals@ =~= v0 + Seq::new((self.vals@.len() - v0.len()) as nat, |i: int| ValueType::Unknown),
                decreases h - self.vals@.len(),
            {
                self.vals.push(ValueType::Unknown);
            }
        }
        last.unreachable = true;
        self.ctrls.push(last);
        proof {
            assert(self.ctrls@ =~= old_ctrls.drop_last().push(last));
            assert(vec_view(self.ctrls@) =~= vec_view(old_ctrls).update(old_ctrls.len() - 1, last@));
            assert(self.vals@ =~= resize_vals(old(self).vals@, h as int));
        }
    }
}

/// Prepends operands already popped to the outcome of popping the rest.
pub open spec fn prepend_popped(
    done: Seq<ValueType>,
    o: Outcome<(VState, Seq<ValueType>)>,
) -> Outcome<(VState, Seq<ValueType>)> {
    match o {
        Outcome::Gives((s, rest)) => Outcome::Gives((s, done + rest)),
        Outcome::Fails(e) => Outcome::Fails(e),
        Outcome::Panics => Outcome::Panics,
    }
}

impl Validator {
    /// Converts a Block Type into a ([t1*], [t2*])
    fn block_type(bt: &BlockType, module: &Module) -> (r: Result<(Vec<ValueType>, Vec<ValueType>), ValidationError>)
        requires
            !(spec_block_type(*bt, module@) is Panics),
        ensures
            match spec_block_type(*bt, module@) {
                Outcome::Gives((t1, t2)) => r is Ok && r->Ok_0.0@ == t1 && r->Ok_0.1@ == t2,
                Outcome::Fails(e) => r == Err::<(Vec<ValueType>, Vec<ValueType>), ValidationError>(e),
                Outcome::Panics => false,
            },
    {
        match bt {
            BlockType::Empty => Ok((vec![], vec![])),
            BlockType::Value(vt) => {
                let t = ValueType::from(*vt);
                let r = (vec![], vec![t]);
                proof {
                    assert(r.1@ =~= seq![value_type_of(*vt)]);
                }
                Ok(r)
            },
            BlockType::Index(idx) => {
                let types = match &module.types {
                    Some(t) => t,
                    None => return Err(ValidationError::UnknownType),
                };
                let t = &types[*idx as usize];
                Ok((value_types(&t.params), value_types(&t.results)))
            },
        }
    }

    /// Returns the function type at the given type index (not function index)
    fn type_at(module: &Module, type_idx: u32) -> (r: Result<&FuncType, ValidationError>)
        ensures
            match spec_type_at(module@, type_idx) {
                Outcome::Gives(ft) => r is Ok && r->Ok_0@ == ft,
                Outcome::Fails(e) => r == Err::<&FuncType, ValidationError>(e),
                Outcome::Panics => false,
            },
    {
        match &module.types {
            Some(types) => if (type_idx as usize) < types.len() {
                Ok(&types[type_idx as usize])
            } else {
                Err(ValidationError::UnknownType)
            },
            None => Err(ValidationError::UnknownType),
        }
    }

    /// Returns the type for an idx in the Function Section.
    fn func_type_at(module: &Module, func_idx: u32) -> (r: Result<&FuncType, ValidationError>)
        ensures
            match spec_func_type_at(module@, func_idx) {
                Outcome::Gives(ft) => r is Ok && r->Ok_0@ == ft,
                Outcome::Fails(e) => r == Err::<&FuncType, ValidationError>(e),
                Outcome::Panics => false,
            },
    {
        let mut k: usize = 0;
        let ghost imported = imported_func_types(module@);
        match &module.imports {
            Some(imports) => {
                let ghost iv = vec_view(imports@);
                let mut i: usize = 0;
                while i < imports.len()
                    invariant
                        i <= imports@.len(),
                        iv == vec_view(imports@),
                        module@.imports == Some(iv),
                        imported == func_import_types(iv),
                        k == func_import_types(iv.take(i as int)).len(),
                        k <= func_idx,
                    decreases imports@.len() - i,
                {
                    proof {
                        assert(iv.take(i + 1).drop_last() =~= iv.take(i as int));
                        assert(iv[i as int] == imports@[i as int]@);
                    }
                    if let ImportDesc::Func(t) = imports[i].desc {
                        if k == func_idx as usize {
                            proof {
                                lemma_func_import_types_prefix(iv, i + 1, iv.len() as int);
                                assert(iv.take(iv.len() as int) =~= iv);
                                assert(func_import_types(iv.take(i + 1)) =~= func_import_types(iv.take(i as int)) + seq![t]);
                                assert(imported.take(k + 1)[k as int] == t);
                            }
                            return Self::type_at(module, t);
                        }
                        k = k + 1;
                    }
                    i = i + 1;
                }
                proof {
                    assert(iv.take(i as int) =~= iv);
                }
            },
            None => {},
        }
        let j = func_idx as usize - k;
        let type_idx = match &module.functions {
            Some(funcs) => if j < funcs.len() {
                funcs[j]
            } else {
                return Err(ValidationError::UnknownFunction);
            },
            None => return Err(ValidationError::UnknownFunction),
        };
        Self::type_at(module, type_idx)
    }

    /// Returns the table type at the given index
    fn table_type(module: &Module, table_idx: u32) -> (r: Result<TableType, ValidationError>)
        ensures
            match spec_table_type(module@, table_idx) {
                Outcome::Gives(t) => r == Ok::<TableType, ValidationError>(t),
                Outcome::Fails(e) => r == Err::<TableType, ValidationError>(e),
                Outcome::Panics => false,
            },
    {
        match &module.tables {
            Some(tables) => if (table_idx as usize) < tables.len() {
                Ok(tables[table_idx as usize].tabletype)
            } else {
                Err(ValidationError::UnknownTable)
            },
            None => Err(ValidationError::UnknownTable),
        }
    }

    /// Return the type of the function local at the given index
    fn local_type(functype: &FuncType, locals: &Vec<FuncLocal>, idx: u32) -> (r: Result<ValueType, ValidationError>)
        requires
            !(spec_local_type(functype@, locals@, idx) is Panics),
        ensures
            follows_lookup(spec_local_type(functype@, locals@, idx), r),
    {
        if (idx as usize) < functype.params.len() {
            return Ok(ValueType::from(functype.params[idx as usize]));
        }
        let local_idx = idx - functype.params.len() as u32;
        let mut count: u32 = 0;
        let mut k: usize = 0;
        while k < locals.len()
            invariant
                k <= locals@.len(),
                spec_local_type(functype@, locals@, idx) == spec_find_local(
                    locals@,
                    k as int,
                    count as int,
                    local_idx as int,
                ),
                !(spec_local_type(functype@, locals@, idx) is Panics),
            decreases locals@.len() - k,
        {
            let c = locals[k].count;
            if local_idx < count + c {
                return Ok(ValueType::from(locals[k].valtype));
            }
            count = count + c;
            k = k + 1;
        }
        Err(ValidationError::UnknownLocal)
    }

    /// Returns the global type at the given index
    fn global_type(module: &Module, idx: u32) -> (r: Result<GlobalType, ValidationError>)
        ensures
            follows_lookup(spec_global_type(module@, idx), r),
    {
        let globals = match &module.globals {
            Some(g) => g,
            None => return Err(ValidationError::MissingGlobalSection),
        };
        if (idx as usize) < globals.len() {
            Ok(globals[idx as usize].gt)
        } else {
            Err(ValidationError::UnknownGlobal)
        }
    }

    /// Returns the label_types for the nth frame from the top
    fn label_types(n: usize, frames: &Vec<CtrlFrame>) -> (r: &Vec<ValueType>)
        requires
            n < frames@.len(),
        ensures
            r@ == label_types(n as int, vec_view(frames@)),
    {
        let frame = &frames[frames.len() - n - 1];
        if matches!(frame.opcode, Instruction::Loop(_)) {
            &frame.start_types
        } else {
            &frame.end_types
        }
    }

    fn mem_type_at(module: &Module, mem_idx: MemIndex) -> (r: Result<MemType, ValidationError>)
        ensures
            follows_lookup(spec_mem_type_at(module@, mem_idx.0), r),
    {
        match &module.memories {
            Some(mems) => if (mem_idx.0 as usize) < mems.len() {
                Ok(mems[mem_idx.0 as usize])
            } else {
                Err(ValidationError::UnknownMemory)
            },
            None => Err(ValidationError::UnknownMemory),
        }
    }

    /// Validate that the memory alignment does not exceed the natural
    /// alignment for the given byte size
    fn validate_mem_alignment(memarg: &MemArg, byte_size: u32) -> (r: Result<(), ValidationError>)
        ensures
            follows_lookup(spec_mem_alignment(*memarg, byte_size), r),
    {
        if memarg.align >= 32 || (1u32 << memarg.align) > byte_size {
            Err(ValidationError::InvalidMemAlignment)
        } else {
            Ok(())
        }
    }

    fn validate_binop(&mut self, valtype: ValType) -> (r: Result<(), ValidationError>)
        requires
            !(spec_binop(old(self)@, value_type_of(valtype)) is Panics),
        ensures
            follows_state(spec_binop(old(self)@, value_type_of(valtype)), r, final(self)@),
    {
        // [t t] -> [t]
        let valtype = ValueType::from(valtype);
        self.pop_val_expect(valtype)?;
        self.pop_val_expect(valtype)?;
        self.push_val(valtype);
        Ok(())
    }

    fn validate_unop(&mut self, valtype: ValType) -> (r: Result<(), ValidationError>)
        requires
            !(spec_convop(old(self)@, value_type_of(valtype), value_type_of(valtype)) is Panics),
        ensures
            follows_state(spec_convop(old(self)@, value_type_of(valtype), value_type_of(valtype)), r, final(self)@),
    {
        // [t] -> [t]
        let valtype = ValueType::from(valtype);
        self.pop_val_expect(valtype)?;
        self.push_val(valtype);
        Ok(())
    }

    fn validate_convop(&mut self, from_valtype: ValueType, to_valtype: ValueType) -> (r: Result<(), ValidationError>)
        requires
            !(spec_convop(old(self)@, from_valtype, to_valtype) is Panics),
        ensures
            follows_state(spec_convop(old(self)@, from_valtype, to_valtype), r, final(self)@),
    {
        // [t1] -> [t2]
        self.pop_val_expect(from_valtype)?;
        self.push_val(to_valtype);
        Ok(())
    }

    fn validate_compop(&mut self, valtype: ValType) -> (r: Result<(), ValidationError>)
        requires
            !(spec_compop(old(self)@, value_type_of(valtype)) is Panics),
        ensures
            follows_state(spec_compop(old(self)@, value_type_of(valtype)), r, final(self)@),
    {
        // [t t] -> [i32]
        let valtype = ValueType::from(valtype);
        self.pop_val_expect(valtype)?;
        self.pop_val_expect(valtype)?;
        self.push_val(ValueType::I32);
        Ok(())
    }

    fn validate_mem_load(&mut self, module: &Module, memarg: &MemArg, byte_size: u32, valuetype: ValType) -> (r: Result<(), ValidationError>)
        requires
            !(spec_mem_load(old(self)@, module@, *memarg, byte_size, valuetype) is Panics),
        ensures
            follows_state(spec_mem_load(old(self)@, module@, *memarg, byte_size, valuetype), r, final(self)@),
    {
        // mems[0] is defined in the context
        let _ = Self::mem_type_at(module, MemIndex(0))?;
        // alignment not larger than bit width
        Self::validate_mem_alignment(memarg, byte_size)?;
        // [i32] -> [t]
        self.pop_val_expect(ValueType::I32)?;
        self.push_val(ValueType::from(valuetype));
        Ok(())
    }

    fn validate_mem_store(&mut self, module: &Module, memarg: &MemArg, byte_size: u32, valuetype: ValType) -> (r: Result<(), ValidationError>)
        requires
            !(spec_mem_store(old(self)@, module@, *memarg, byte_size, valuetype) is Panics),
        ensures
            follows_state(spec_mem_store(old(self)@, module@, *memarg, byte_size, valuetype), r, final(self)@),
    {
        // mems[0] is defined in the context
        let _ = Self::mem_type_at(module, MemIndex(0))?;
        // alignment not larger than bit width
        Self::validate_mem_alignment(memarg, byte_size)?;
        // [i32 t] -> []
        self.pop_val_expect(ValueType::from(valuetype))?;
        self.pop_val_expect(ValueType::I32)?;
        Ok(())
    }
}

/// The shape of a numeric instruction's operands and results.
#[derive(Debug, Clone, Copy, PartialEq, Eq, Structural)]
pub enum NumSig {
    /// `[] -> [t]`
    Const(ValType),
    /// `[t] -> [i32]`
    Test(ValType),
    /// `[t t] -> [i32]`
    Cmp(ValType),
    /// `[t] -> [t]`
    Un(ValType),
    /// `[t t] -> [t]`
    Bin(ValType),
    /// `[t1] -> [t2]`
    Conv(ValType, ValType),
}

/// The shape of a numeric instruction; none for other instructions.
pub open spec fn spec_numeric_sig(i: Instruction) -> Option<NumSig> {
    match i {
        Instruction::I32Const(_) => Some(NumSig::Const(ValType::I32)),
        Instruction::I64Const(_) => Some(NumSig::Const(ValType::I64)),
        Instruction::F32Const(_) => Some(NumSig::Const(ValType::F32)),
        Instruction::F64Const(_) => Some(NumSig::Const(ValType::F64)),
        Instruction::I32Eqz => Some(NumSig::Test(ValType::I32)),
        Instruction::I64Eqz => Some(NumSig::Test(ValType::I64)),
        Instruction::I32Eq | Instruction::I32Ne | Instruction::I32LtS | Instruction::I32LtU | Instruction::I32LeS | Instruction::I32LeU | Instruction::I32GtS | Instruction::I32GtU | Instruction::I32GeS | Instruction::I32GeU => Some(NumSig::Cmp(ValType::I32)),
        Instruction::I64Eq | Instruction::I64Ne | Instruction::I64LtS | Instruction::I64LtU | Instruction::I64GtS | Instruction::I64GtU | Instruction::I64LeS | Instruction::I64LeU | Instruction::I64GeS | Instruction::I64GeU => Some(NumSig::Cmp(ValType::I64)),
        Instruction::F32Eq | Instruction::F32Ne | Instruction::F32Lt | Instruction::F32Gt | Instruction::F32Le | Instruction::F32Ge => Some(NumSig::Cmp(ValType::F32)),
        Instruction::F64Eq | Instruction::F64Ne | Instruction::F64Lt | Instruction::F64Gt | Instruction::F64Le | Instruction::F64Ge => Some(NumSig::Cmp(ValType::F64)),
        Instruction::I32Clz | Instruction::I32Ctz | Instruction::I32Popcnt => Some(NumSig::Un(ValType::I32)),
        Instruction::I32Add | Instruction::I32Sub | Instruction::I32Mul | Instruction::I32DivS | Instruction::I32DivU | Instruction::I32RemS | Instruction::I32RemU | Instruction::I32And | Instruction::I32Or | Instruction::I32Xor | Instruction::I32Shl | Instruction::I32ShrS | Instruction::I32ShrU | Instruction::I32Rotl | Instruction::I32Rotr => Some(NumSig::Bin(ValType::I32)),
        Instruction::I64Clz | Instruction::I64Ctz | Instruction::I64Popcnt => Some(NumSig::Un(ValType::I64)),
        Instruction::I64Add | Instruction::I64Sub | Instruction::I64Mul | Instruction::I64DivS | Instruction::I64DivU | Instruction::I64RemS | Instruction::I64RemU | Instruction::I64And | Instruction::I64Or | Instruction::I64Xor | Instruction::I64Shl | Instruction::I64ShrS | Instruction::I64ShrU | Instruction::I64Rotl | Instruction::I64Rotr => Some(NumSig::Bin(ValType::I64)),
        Instruction::F32Abs | Instruction::F32Neg | Instruction::F32Ceil | Instruction::F32Floor | Instruction::F32Trunc | Instruction::F32Nearest | Instruction::F32Sqrt => Some(NumSig::Un(ValType::F32)),
        Instruction::F32Add | Instruction::F32Sub | Instruction::F32Mul | Instruction::F32Div | Instruction::F32Min | Instruction::F32Max | Instruction::F32Copysign => Some(NumSig::Bin(ValType::F32)),
        Instruction::F64Abs | Instruction::F64Neg | Instruction::F64Ceil | Instruction::F64Floor | Instruction::F64Trunc | Instruction::F64Nearest | Instruction::F64Sqrt => Some(NumSig::Un(ValType::F64)),
        Instruction::F64Add | Instruction::F64Sub | Instruction::F64Mul | Instruction::F64Div | Instruction::F64Min | Instruction::F64Max | Instruction::F64Copysign => Some(NumSig::Bin(ValType::F64)),
        Instruction::I32WrapI64 => Some(NumSig::Conv(ValType::I64, ValType::I32)),
        Instruction::I32TruncF32S | Instruction::I32TruncF32U | Instruction::I32ReinterpretF32 | Instruction::I32TruncSatF32S | Instruction::I32TruncSatF32U => Some(NumSig::Conv(ValType::F32, ValType::I32)),
        Instruction::I32TruncF64S | Instruction::I32TruncF64U | Instruction::I32TruncSatF64S | Instruction::I32TruncSatF64U => Some(NumSig::Conv(ValType::F64, ValType::I32)),
        Instruction::I64ExtendI32S | Instruction::I64ExtendI32U => Some(NumSig::Conv(ValType::I32, ValType::I64)),
        Instruction::I64TruncF32S | Instruction::I64TruncF32U | Instruction::I64TruncSatF32S | Instruction::I64TruncSatF32U => Some(NumSig::Conv(ValType::F32, ValType::I64)),
        Instruction::I64TruncF64S | Instruction::I64TruncF64U | Instruction::I64ReinterpretF64 | Instruction::I64TruncSatF64S | Instruction::I64TruncSatF64U => Some(NumSig::Conv(ValType::F64, ValType::I64)),
        Instruction::F32ConvertI32S | Instruction::F32ConvertI32U | Instruction::F32ReinterpretI32 => Some(NumSig::Conv(ValType::I32, ValType::F32)),
        Instruction::F32ConvertI64S | Instruction::F32ConvertI64U => Some(NumSig::Conv(ValType::I64, ValType::F32)),
        Instruction::F32DemoteF64 => Some(NumSig::Conv(ValType::F64, ValType::F32)),
        Instruction::F64ConvertI32S | Instruction::F64ConvertI32U => Some(NumSig::Conv(ValType::I32, ValType::F64)),
        Instruction::F64ConvertI64S | Instruction::F64ConvertI64U | Instruction::F64ReinterpretI64 => Some(NumSig::Conv(ValType::I64, ValType::F64)),
        Instruction::F64PromoteF32 => Some(NumSig::Conv(ValType::F32, ValType::F64)),
        Instruction::I32Extend8S | Instruction::I32Extend16S => Some(NumSig::Conv(ValType::I32, ValType::I32)),
        Instruction::I64Extend8S | Instruction::I64Extend16S | Instruction::I64Extend32S => Some(NumSig::Conv(ValType::I64, ValType::I64)),
        _ => None,
    }
}

fn numeric_sig(i: &Instruction) -> (r: Option<NumSig>)
    ensures
        r == spec_numeric_sig(*i),
{
    match i {
        Instruction::I32Const(_) => Some(NumSig::Const(ValType::I32)),
        Instruction::I64Const(_) => Some(NumSig::Const(ValType::I64)),
        Instruction::F32Const(_) => Some(NumSig::Const(ValType::F32)),
        Instruction::F64Const(_) => Some(NumSig::Const(ValType::F64)),
        Instruction::I32Eqz => Some(NumSig::Test(ValType::I32)),
        Instruction::I64Eqz => Some(NumSig::Test(ValType::I64)),
        Instruction::I32Eq | Instruction::I32Ne | Instruction::I32LtS | Instruction::I32LtU | Instruction::I32LeS | Instruction::I32LeU | Instruction::I32GtS | Instruction::I32GtU | Instruction::I32GeS | Instruction::I32GeU => Some(NumSig::Cmp(ValType::I32)),
        Instruction::I64Eq | Instruction::I64Ne | Instruction::I64LtS | Instruction::I64LtU | Instruction::I64GtS | Instruction::I64GtU | Instruction::I64LeS | Instruction::I64LeU | Instruction::I64GeS | Instruction::I64GeU => Some(NumSig::Cmp(ValType::I64)),
        Instruction::F32Eq | Instruction::F32Ne | Instruction::F32Lt | Instruction::F32Gt | Instruction::F32Le | Instruction::F32Ge => Some(NumSig::Cmp(ValType::F32)),
        Instruction::F64Eq | Instruction::F64Ne | Instruction::F64Lt | Instruction::F64Gt | Instruction::F64Le | Instruction::F64Ge => Some(NumSig::Cmp(ValType::F64)),
        Instruction::I32Clz | Instruction::I32Ctz | Instruction::I32Popcnt => Some(NumSig::Un(ValType::I32)),
        Instruction::I32Add | Instruction::I32Sub | Instruction::I32Mul | Instruction::I32DivS | Instruction::I32DivU | Instruction::I32RemS | Instruction::I32RemU | Instruction::I32And | Instruction::I32Or | Instruction::I32Xor | Instruction::I32Shl | Instruction::I32ShrS | Instruction::I32ShrU | Instruction::I32Rotl | Instruction::I32Rotr => Some(NumSig::Bin(ValType::I32)),
        Instruction::I64Clz | Instruction::I64Ctz | Instruction::I64Popcnt => Some(NumSig::Un(ValType::I64)),
        Instruction::I64Add | Instruction::I64Sub | Instruction::I64Mul | Instruction::I64DivS | Instruction::I64DivU | Instruction::I64RemS | Instruction::I64RemU | Instruction::I64And | Instruction::I64Or | Instruction::I64Xor | Instruction::I64Shl | Instruction::I64ShrS | Instruction::I64ShrU | Instruction::I64Rotl | Instruction::I64Rotr => Some(NumSig::Bin(ValType::I64)),
        Instruction::F32Abs | Instruction::F32Neg | Instruction::F32Ceil | Instruction::F32Floor | Instruction::F32Trunc | Instruction::F32Nearest | Instruction::F32Sqrt => Some(NumSig::Un(ValType::F32)),
        Instruction::F32Add | Instruction::F32Sub | Instruction::F32Mul | Instruction::F32Div | Instruction::F32Min | Instruction::F32Max | Instruction::F32Copysign => Some(NumSig::Bin(ValType::F32)),
        Instruction::F64Abs | Instruction::F64Neg | Instruction::F64Ceil | Instruction::F64Floor | Instruction::F64Trunc | Instruction::F64Nearest | Instruction::F64Sqrt => Some(NumSig::Un(ValType::F64)),
        Instruction::F64Add | Instruction::F64Sub | Instruction::F64Mul | Instruction::F64Div | Instruction::F64Min | Instruction::F64Max | Instruction::F64Copysign => Some(NumSig::Bin(ValType::F64)),
        Instruction::I32WrapI64 => Some(NumSig::Conv(ValType::I64, ValType::I32)),
        Instruction::I32TruncF32S | Instruction::I32TruncF32U | Instruction::I32ReinterpretF32 | Instruction::I32TruncSatF32S | Instruction::I32TruncSatF32U => Some(NumSig::Conv(ValType::F32, ValType::I32)),
        Instruction::I32TruncF64S | Instruction::I32TruncF64U | Instruction::I32TruncSatF64S | Instruction::I32TruncSatF64U => Some(NumSig::Conv(ValType::F64, ValType::I32)),
        Instruction::I64ExtendI32S | Instruction::I64ExtendI32U => Some(NumSig::Conv(ValType::I32, ValType::I64)),
        Instruction::I64TruncF32S | Instruction::I64TruncF32U | Instruction::I64TruncSatF32S | Instruction::I64TruncSatF32U => Some(NumSig::Conv(ValType::F32, ValType::I64)),
        Instruction::I64TruncF64S | Instruction::I64TruncF64U | Instruction::I64ReinterpretF64 | Instruction::I64TruncSatF64S | Instruction::I64TruncSatF64U => Some(NumSig::Conv(ValType::F64, ValType::I64)),
        Instruction::F32ConvertI32S | Instruction::F32ConvertI32U | Instruction::F32ReinterpretI32 => Some(NumSig::Conv(ValType::I32, ValType::F32)),
        Instruction::F32ConvertI64S | Instruction::F32ConvertI64U => Some(NumSig::Conv(ValType::I64, ValType::F32)),
        Instruction::F32DemoteF64 => Some(NumSig::Conv(ValType::F64, ValType::F32)),
        Instruction::F64ConvertI32S | Instruction::F64ConvertI32U => Some(NumSig::Conv(ValType::I32, ValType::F64)),
        Instruction::F64ConvertI64S | Instruction::F64ConvertI64U | Instruction::F64ReinterpretI64 => Some(NumSig::Conv(ValType::I64, ValType::F64)),
        Instruction::F64PromoteF32 => Some(NumSig::Conv(ValType::F32, ValType::F64)),
        Instruction::I32Extend8S | Instruction::I32Extend16S => Some(NumSig::Conv(ValType::I32, ValType::I32)),
        Instruction::I64Extend8S | Instruction::I64Extend16S | Instruction::I64Extend32S => Some(NumSig::Conv(ValType::I64, ValType::I64)),
        _ => None,
    }
}

/// A memory access: its argument, the byte size it accesses, the type of
/// the value, and whether it stores.
#[derive(Debug, Clone, Copy, PartialEq, Eq, Structural)]
pub struct MemAccess {
    pub memarg: MemArg,
    pub byte_size: u32,
    pub valtype: ValType,
    pub store: bool,
}

/// The access of a load or store instruction; none for other instructions.
pub open spec fn spec_mem_access(i: Instruction) -> Option<MemAccess> {
    match i {
        Instruction::I32Load(m) => Some(MemAccess { memarg: m, byte_size: 4, valtype: ValType::I32, store: false }),
        Instruction::I64Load(m) => Some(MemAccess { memarg: m, byte_size: 8, valtype: ValType::I64, store: false }),
        Instruction::F32Load(m) => Some(MemAccess { memarg: m, byte_size: 4, valtype: ValType::F32, store: false }),
        Instruction::F64Load(m) => Some(MemAccess { memarg: m, byte_size: 8, valtype: ValType::F64, store: false }),
        Instruction::I32Load8S(m) => Some(MemAccess { memarg: m, byte_size: 1, valtype: ValType::I32, store: false }),
        Instruction::I32Load8U(m) => Some(MemAccess { memarg: m, byte_size: 1, valtype: ValType::I32, store: false }),
        Instruction::I32Load16S(m) => Some(MemAccess { memarg: m, byte_size: 2, valtype: ValType::I32, store: false }),
        Instruction::I32Load16U(m) => Some(MemAccess { memarg: m, byte_size: 2, valtype: ValType::I32, store: false }),
        Instruction::I64Load8S(m) => Some(MemAccess { memarg: m, byte_size: 1, valtype: ValType::I64, store: false }),
        Instruction::I64Load8U(m) => Some(MemAccess { memarg: m, byte_size: 1, valtype: ValType::I64, store: false }),
        Instruction::I64Load16S(m) => Some(MemAccess { memarg: m, byte_size: 2, valtype: ValType::I64, store: false }),
        Instruction::I64Load16U(m) => Some(MemAccess { memarg: m, byte_size: 2, valtype: ValType::I64, store: false }),
        Instruction::I64Load32S(m) => Some(MemAccess { memarg: m, byte_size: 4, valtype: ValType::I64, store: false }),
        Instruction::I64Load32U(m) => Some(MemAccess { memarg: m, byte_size: 4, valtype: ValType::I64, store: false }),
        Instruction::I32Store(m) => Some(MemAccess { memarg: m, byte_size: 4, valtype: ValType::I32, store: true }),
        Instruction::I64Store(m) => Some(MemAccess { memarg: m, byte_size: 8, valtype: ValType::I64, store: true }),
        Instruction::F32Store(m) => Some(MemAccess { memarg: m, byte_size: 4, valtype: ValType::F32, store: true }),
        Instruction::F64Store(m) => Some(MemAccess { memarg: m, byte_size: 8, valtype: ValType::F64, store: true }),
        Instruction::I32Store8(m) => Some(MemAccess { memarg: m, byte_size: 1, valtype: ValType::I32, store: true }),
        Instruction::I32Store16(m) => Some(MemAccess { memarg: m, byte_size: 2, valtype: ValType::I32, store: true }),
        Instruction::I64Store8(m) => Some(MemAccess { memarg: m, byte_size: 1, valtype: ValType::I64, store: true }),
        Instruction::I64Store16(m) => Some(MemAccess { memarg: m, byte_size: 2, valtype: ValType::I64, store: true }),
        Instruction::I64Store32(m) => Some(MemAccess { memarg: m, byte_size: 4, valtype: ValType::I64, store: true }),
        _ => None,
    }
}

fn mem_access(i: &Instruction) -> (r: Option<MemAccess>)
    ensures
        r == spec_mem_access(*i),
{
    match i {
        Instruction::I32Load(m) => Some(MemAccess { memarg: *m, byte_size: 4, valtype: ValType::I32, store: false }),
        Instruction::I64Load(m) => Some(MemAccess { memarg: *m, byte_size: 8, valtype: ValType::I64, store: false }),
        Instruction::F32Load(m) => Some(MemAccess { memarg: *m, byte_size: 4, valtype: ValType::F32, store: false }),
        Instruction::F64Load(m) => Some(MemAccess { memarg: *m, byte_size: 8, valtype: ValType::F64, store: false }),
        Instruction::I32Load8S(m) => Some(MemAccess { memarg: *m, byte_size: 1, valtype: ValType::I32, store: false }),
        Instruction::I32Load8U(m) => Some(MemAccess { memarg: *m, byte_size: 1, valtype: ValType::I32, store: false }),
        Instruction::I32Load16S(m) => Some(MemAccess { memarg: *m, byte_size: 2, valtype: ValType::I32, store: false }),
        Instruction::I32Load16U(m) => Some(MemAccess { memarg: *m, byte_size: 2, valtype: ValType::I32, store: false }),
        Instruction::I64Load8S(m) => Some(MemAccess { memarg: *m, byte_size: 1, valtype: ValType::I64, store: false }),
        Instruction::I64Load8U(m) => Some(MemAccess { memarg: *m, byte_size: 1, valtype: ValType::I64, store: false }),
        Instruction::I64Load16S(m) => Some(MemAccess { memarg: *m, byte_size: 2, valtype: ValType::I64, store: false }),
        Instruction::I64Load16U(m) => Some(MemAccess { memarg: *m, byte_size: 2, valtype: ValType::I64, store: false }),
        Instruction::I64Load32S(m) => Some(MemAccess { memarg: *m, byte_size: 4, valtype: ValType::I64, store: false }),
        Instruction::I64Load32U(m) => Some(MemAccess { memarg: *m, byte_size: 4, valtype: ValType::I64, store: false }),
        Instruction::I32Store(m) => Some(MemAccess { memarg: *m, byte_size: 4, valtype: ValType::I32, store: true }),
        Instruction::I64Store(m) => Some(MemAccess { memarg: *m, byte_size: 8, valtype: ValType::I64, store: true }),
        Instruction::F32Store(m) => Some(MemAccess { memarg: *m, byte_size: 4, valtype: ValType::F32, store: true }),
        Instruction::F64Store(m) => Some(MemAccess { memarg: *m, byte_size: 8, valtype: ValType::F64, store: true }),
        Instruction::I32Store8(m) => Some(MemAccess { memarg: *m, byte_size: 1, valtype: ValType::I32, store: true }),
        Instruction::I32Store16(m) => Some(MemAccess { memarg: *m, byte_size: 2, valtype: ValType::I32, store: true }),
        Instruction::I64Store8(m) => Some(MemAccess { memarg: *m, byte_size: 1, valtype: ValType::I64, store: true }),
        Instruction::I64Store16(m) => Some(MemAccess { memarg: *m, byte_size: 2, valtype: ValType::I64, store: true }),
        Instruction::I64Store32(m) => Some(MemAccess { memarg: *m, byte_size: 4, valtype: ValType::I64, store: true }),
        _ => None,
    }
}

/// The step of a numeric instruction.
pub open spec fn spec_numeric(s: VState, sig: NumSig) -> Outcome<VState> {
    match sig {
        NumSig::Const(t) => Outcome::Gives(push_val(s, value_type_of(t))),
        NumSig::Test(t) => spec_convop(s, value_type_of(t), ValueType::I32),
        NumSig::Cmp(t) => spec_compop(s, value_type_of(t)),
        NumSig::Un(t) => spec_convop(s, value_type_of(t), value_type_of(t)),
        NumSig::Bin(t) => spec_binop(s, value_type_of(t)),
        NumSig::Conv(a, b) => spec_convop(s, value_type_of(a), value_type_of(b)),
    }
}

/// The step of a load or store.
pub open spec fn spec_mem_step(s: VState, m: ModuleV, a: MemAccess) -> Outcome<VState> {
    if a.store {
        spec_mem_store(s, m, a.memarg, a.byte_size, a.valtype)
    } else {
        spec_mem_load(s, m, a.memarg, a.byte_size, a.valtype)
    }
}

impl Validator {
    fn validate_numeric(&mut self, sig: NumSig) -> (r: Result<(), ValidationError>)
        requires
            !(spec_numeric(old(self)@, sig) is Panics),
        ensures
            follows_state(spec_numeric(old(self)@, sig), r, final(self)@),
    {
        match sig {
            NumSig::Const(t) => {
                self.push_val(ValueType::from(t));
                Ok(())
            },
            NumSig::Test(t) => self.validate_convop(ValueType::from(t), ValueType::I32),
            NumSig::Cmp(t) => self.validate_compop(t),
            NumSig::Un(t) => self.validate_unop(t),
            NumSig::Bin(t) => self.validate_binop(t),
            NumSig::Conv(a, b) => self.validate_convop(ValueType::from(a), ValueType::from(b)),
        }
    }

    fn validate_mem_access(&mut self, module: &Module, a: MemAccess) -> (r: Result<(), ValidationError>)
        requires
            !(spec_mem_step(old(self)@, module@, a) is Panics),
        ensures
            follows_state(spec_mem_step(old(self)@, module@, a), r, final(self)@),
    {
        if a.store {
            self.validate_mem_store(module, &a.memarg, a.byte_size, a.valtype)
        } else {
            self.validate_mem_load(module, &a.memarg, a.byte_size, a.valtype)
        }
    }
}

/// Whether an optional section holds an entry at an index.
pub open spec fn has_index<T>(o: Option<Seq<T>>, i: u32) -> bool {
    match o {
        Some(v) => i < v.len(),
        None => false,
    }
}

/// Drops the value of a step that gives one.
pub open spec fn state_of<T>(o: Outcome<(VState, T)>) -> Outcome<VState> {
    match o {
        Outcome::Panics => Outcome::Panics,
        Outcome::Fails(e) => Outcome::Fails(e),
        Outcome::Gives((s, _)) => Outcome::Gives(s),
    }
}

/// Pushes an operand after a step.
pub open spec fn then_push(o: Outcome<VState>, v: ValueType) -> Outcome<VState> {
    match o {
        Outcome::Panics => Outcome::Panics,
        Outcome::Fails(e) => Outcome::Fails(e),
        Outcome::Gives(s) => Outcome::Gives(push_val(s, v)),
    }
}

/// `block` and `loop`: `[t1*] -> [t2*]` with a new frame.
#[verifier::opaque]
pub open spec fn spec_enter_block(s: VState, m: ModuleV, bt: BlockType, opcode: InstrV) -> Outcome<VState> {
    match spec_block_type(bt, m) {
        Outcome::Panics => Outcome::Panics,
        Outcome::Fails(e) => Outcome::Fails(e),
        Outcome::Gives((t1, t2)) => match spec_pop_vals_expect(s, t1) {
            Outcome::Panics => Outcome::Panics,
            Outcome::Fails(e) => Outcome::Fails(e),
            Outcome::Gives((s2, _)) => Outcome::Gives(push_ctrl(s2, opcode, t1, t2)),
        },
    }
}

/// `if`: `[t1* i32] -> [t2*]` with a new frame.
#[verifier::opaque]
pub open spec fn spec_enter_if(s: VState, m: ModuleV, bt: BlockType) -> Outcome<VState> {
    match spec_block_type(bt, m) {
        Outcome::Panics => Outcome::Panics,
        Outcome::Fails(e) => Outcome::Fails(e),
        Outcome::Gives((t1, t2)) => match spec_pop_val_expect(s, ValueType::I32) {
            Outcome::Panics => Outcome::Panics,
            Outcome::Fails(e) => Outcome::Fails(e),
            Outcome::Gives((s1, _)) => match spec_pop_vals_expect(s1, t1) {
                Outcome::Panics => Outcome::Panics,
                Outcome::Fails(e) => Outcome::Fails(e),
                Outcome::Gives((s2, _)) => Outcome::Gives(push_ctrl(s2, InstrV::Plain(Instruction::If(bt)), t1, t2)),
            },
        },
    }
}

/// `else`: closes an `if` frame and opens its `else` frame.
#[verifier::opaque]
pub open spec fn spec_else(s: VState) -> Outcome<VState> {
    match spec_pop_ctrl(s) {
        Outcome::Panics => Outcome::Panics,
        Outcome::Fails(e) => Outcome::Fails(e),
        Outcome::Gives((s2, f)) => if !(f.opcode matches InstrV::Plain(Instruction::If(_))) {
            Outcome::Fails(ValidationError::ElseWithoutMatchingIf)
        } else {
            Outcome::Gives(push_ctrl(s2, InstrV::Plain(Instruction::Else), f.start, f.end))
        },
    }
}

/// `end`: closes a frame and pushes its results.
#[verifier::opaque]
pub open spec fn spec_end(s: VState) -> Outcome<VState> {
    match spec_pop_ctrl(s) {
        Outcome::Panics => Outcome::Panics,
        Outcome::Fails(e) => Outcome::Fails(e),
        Outcome::Gives((s2, f)) => Outcome::Gives(push_vals(s2, f.end)),
    }
}

/// `br n`: the label's types, then the rest of the frame is unreachable.
#[verifier::opaque]
pub open spec fn spec_br(s: VState, n: u32) -> Outcome<VState> {
    if s.ctrls.len() <= n {
        Outcome::Fails(ValidationError::ControlStackUnderflow)
    } else {
        match spec_pop_vals_expect(s, label_types(n as int, s.ctrls)) {
            Outcome::Panics => Outcome::Panics,
            Outcome::Fails(e) => Outcome::Fails(e),
            Outcome::Gives((s2, _)) => spec_unreachable(s2),
        }
    }
}

/// `br_if n`: an i32 condition, and the label's types stay.
#[verifier::opaque]
pub open spec fn spec_br_if(s: VState, n: u32) -> Outcome<VState> {
    if s.ctrls.len() <= n {
        Outcome::Fails(ValidationError::ControlStackUnderflow)
    } else {
        match spec_pop_val_expect(s, ValueType::I32) {
            Outcome::Panics => Outcome::Panics,
            Outcome::Fails(e) => Outcome::Fails(e),
            Outcome::Gives((s1, _)) => {
                let lt = label_types(n as int, s1.ctrls);
                match spec_pop_vals_expect(s1, lt) {
                    Outcome::Panics => Outcome::Panics,
                    Outcome::Fails(e) => Outcome::Fails(e),
                    Outcome::Gives((s2, _)) => Outcome::Gives(push_vals(s2, lt)),
                }
            },
        }
    }
}

/// The labels of a branch table, one after the other: each must exist and
/// take as many operands as the default, whose types are pushed.
pub open spec fn spec_br_labels(s: VState, labels: Seq<u32>, arity: int) -> Outcome<VState>
    decreases labels.len(),
{
    if labels.len() == 0 {
        Outcome::Gives(s)
    } else {
        match spec_br_labels(s, labels.drop_last(), arity) {
            Outcome::Panics => Outcome::Panics,
            Outcome::Fails(e) => Outcome::Fails(e),
            Outcome::Gives(s2) => {
                let n = labels.last();
                if s2.ctrls.len() <= n {
                    Outcome::Fails(ValidationError::ControlStackUnderflow)
                } else if label_types(n as int, s2.ctrls).len() != arity {
                    Outcome::Fails(ValidationError::TypeMismatch)
                } else {
                    Outcome::Gives(push_vals(s2, label_types(n as int, s2.ctrls)))
                }
            },
        }
    }
}

/// `br_table`: an i32 index, labels that agree with the default, then the
/// default's types; the rest of the frame is unreachable.
pub open spec fn spec_br_table(s: VState, labels: Seq<u32>, default: u32) -> Outcome<VState> {
    match spec_pop_val_expect(s, ValueType::I32) {
        Outcome::Panics => Outcome::Panics,
        Outcome::Fails(e) => Outcome::Fails(e),
        Outcome::Gives((s1, _)) => if s1.ctrls.len() <= default {
            Outcome::Fails(ValidationError::ControlStackUnderflow)
        } else {
            let m_types = label_types(default as int, s1.ctrls);
            match spec_br_labels(s1, labels, m_types.len() as int) {
                Outcome::Panics => Outcome::Panics,
                Outcome::Fails(e) => Outcome::Fails(e),
                Outcome::Gives(s2) => match spec_pop_vals_expect(s2, m_types) {
                    Outcome::Panics => Outcome::Panics,
                    Outcome::Fails(e) => Outcome::Fails(e),
                    Outcome::Gives((s3, _)) => spec_unreachable(s3),
                },
            }
        },
    }
}

/// `return`: the function's results, then the rest of the frame is unreachable.
#[verifier::opaque]
pub open spec fn spec_return(s: VState) -> Outcome<VState> {
    if s.ctrls.len() == 0 {
        Outcome::Panics
    } else {
        match spec_pop_vals_expect(s, s.ctrls[0].end) {
            Outcome::Panics => Outcome::Panics,
            Outcome::Fails(e) => Outcome::Fails(e),
            Outcome::Gives((s2, _)) => spec_unreachable(s2),
        }
    }
}

/// A call of a function of the given type: `[t1*] -> [t2*]`.
pub open spec fn spec_call_type(s: VState, ft: FuncTypeV) -> Outcome<VState> {
    match spec_pop_vals_expect(s, value_types_of(ft.params)) {
        Outcome::Panics => Outcome::Panics,
        Outcome::Fails(e) => Outcome::Fails(e),
        Outcome::Gives((s2, _)) => Outcome::Gives(push_vals(s2, value_types_of(ft.results))),
    }
}

#[verifier::opaque]
pub open spec fn spec_call(s: VState, m: ModuleV, idx: u32) -> Outcome<VState> {
    match spec_func_type_at(m, idx) {
        Outcome::Panics => Outcome::Panics,
        Outcome::Fails(e) => Outcome::Fails(e),
        Outcome::Gives(ft) => spec_call_type(s, ft),
    }
}

/// `call_indirect`: a table of function references, an i32 index, then
/// the call of the given type.
#[verifier::opaque]
pub open spec fn spec_call_indirect(s: VState, m: ModuleV, type_idx: u32, table_idx: u32) -> Outcome<VState> {
    match spec_table_type(m, table_idx) {
        Outcome::Panics => Outcome::Panics,
        Outcome::Fails(e) => Outcome::Fails(e),
        Outcome::Gives(tt) => if tt.elemtype != RefType::Func {
            Outcome::Fails(ValidationError::TableTypeMismatch)
        } else {
            match spec_pop_val_expect(s, ValueType::I32) {
                Outcome::Panics => Outcome::Panics,
                Outcome::Fails(e) => Outcome::Fails(e),
                Outcome::Gives((s1, _)) => match spec_type_at(m, type_idx) {
                    Outcome::Panics => Outcome::Panics,
                    Outcome::Fails(e) => Outcome::Fails(e),
                    Outcome::Gives(ft) => spec_call_type(s1, ft),
                },
            }
        },
    }
}

/// `select`: `[t t i32] -> [t]` for a numeric or vector `t`.
#[verifier::opaque]
pub open spec fn spec_select(s: VState) -> Outcome<VState> {
    match spec_pop_val_expect(s, ValueType::I32) {
        Outcome::Panics => Outcome::Panics,
        Outcome::Fails(e) => Outcome::Fails(e),
        Outcome::Gives((s1, _)) => match spec_pop_val(s1) {
            Outcome::Panics => Outcome::Panics,
            Outcome::Fails(e) => Outcome::Fails(e),
            Outcome::Gives((s2, t1)) => match spec_pop_val(s2) {
                Outcome::Panics => Outcome::Panics,
                Outcome::Fails(e) => Outcome::Fails(e),
                Outcome::Gives((s3, t2)) => if !((t1.spec_is_num() && t2.spec_is_num()) || (t1.spec_is_vec()
                    && t2.spec_is_vec())) {
                    Outcome::Fails(ValidationError::TypeMismatch)
                } else if t1 != t2 && t1 != ValueType::Unknown && t2 != ValueType::Unknown {
                    Outcome::Fails(ValidationError::TypeMismatch)
                } else if t1 == ValueType::Unknown {
                    Outcome::Gives(push_val(s3, t2))
                } else {
                    Outcome::Gives(push_val(s3, t1))
                },
            },
        },
    }
}

/// `select t`: `[t t i32] -> [t]` with exactly one given type.
pub open spec fn spec_select_t(s: VState, ts: Seq<ValType>) -> Outcome<VState> {
    if ts.len() != 1 {
        Outcome::Fails(ValidationError::InvalidSelectTypes)
    } else {
        let t = value_type_of(ts[0]);
        match spec_pop_val_expect(s, ValueType::I32) {
            Outcome::Panics => Outcome::Panics,
            Outcome::Fails(e) => Outcome::Fails(e),
            Outcome::Gives((s1, _)) => match spec_pop_val_expect(s1, t) {
                Outcome::Panics => Outcome::Panics,
                Outcome::Fails(e) => Outcome::Fails(e),
                Outcome::Gives((s2, _)) => match spec_pop_val_expect(s2, t) {
                    Outcome::Panics => Outcome::Panics,
                    Outcome::Fails(e) => Outcome::Fails(e),
                    Outcome::Gives((s3, _)) => Outcome::Gives(push_val(s3, t)),
                },
            },
        }
    }
}

/// Pops the three i32 operands of a bulk memory or table instruction.
pub open spec fn spec_pop_three_i32(s: VState) -> Outcome<VState> {
    match spec_pop_val_expect(s, ValueType::I32) {
        Outcome::Panics => Outcome::Panics,
        Outcome::Fails(e) => Outcome::Fails(e),
        Outcome::Gives((s1, _)) => match spec_pop_val_expect(s1, ValueType::I32) {
            Outcome::Panics => Outcome::Panics,
            Outcome::Fails(e) => Outcome::Fails(e),
            Outcome::Gives((s2, _)) => state_of(spec_pop_val_expect(s2, ValueType::I32)),
        },
    }
}

/// `memory.init`: three i32 operands, an existing memory and data segment.
#[verifier::opaque]
pub open spec fn spec_memory_init(s: VState, m: ModuleV, mem_idx: u32, data_idx: u32) -> Outcome<VState> {
    match spec_pop_three_i32(s) {
        Outcome::Panics => Outcome::Panics,
        Outcome::Fails(e) => Outcome::Fails(e),
        Outcome::Gives(s2) => if !has_index(m.memories, mem_idx) {
            Outcome::Fails(ValidationError::UnknownMemory)
        } else if !has_index(m.data, data_idx) {
            Outcome::Fails(ValidationError::UnknownData)
        } else {
            Outcome::Gives(s2)
        },
    }
}

/// `table.init`: three i32 operands, an existing table and element
/// segment of the table's reference type.
#[verifier::opaque]
pub open spec fn spec_table_init(s: VState, m: ModuleV, table_idx: u32, elem_idx: u32) -> Outcome<VState> {
    match spec_pop_three_i32(s) {
        Outcome::Panics => Outcome::Panics,
        Outcome::Fails(e) => Outcome::Fails(e),
        Outcome::Gives(s2) => if !has_index(m.tables, table_idx) {
            Outcome::Fails(ValidationError::UnknownTable)
        } else if !has_index(m.elements, elem_idx) {
            Outcome::Fails(ValidationError::UnknownElement)
        } else if spec_items_reftype(m.elements->Some_0[elem_idx as int].items)
            != m.tables->Some_0[table_idx as int].tabletype.elemtype {
            Outcome::Fails(ValidationError::TypeMismatch)
        } else {
            Outcome::Gives(s2)
        },
    }
}

/// `drop`: `[t] -> []`
#[verifier::opaque]
pub open spec fn spec_drop(s: VState) -> Outcome<VState> {
    state_of(spec_pop_val(s))
}

/// `local.get`: `[] -> [t]`
#[verifier::opaque]
pub open spec fn spec_local_get(s: VState, ft: FuncTypeV, locals: Seq<FuncLocal>, idx: u32) -> Outcome<VState> {
    match spec_local_type(ft, locals, idx) {
        Outcome::Panics => Outcome::Panics,
        Outcome::Fails(e) => Outcome::Fails(e),
        Outcome::Gives(t) => Outcome::Gives(push_val(s, t)),
    }
}

/// `local.set`: `[t] -> []`
#[verifier::opaque]
pub open spec fn spec_local_set(s: VState, ft: FuncTypeV, locals: Seq<FuncLocal>, idx: u32) -> Outcome<VState> {
    match spec_local_type(ft, locals, idx) {
        Outcome::Panics => Outcome::Panics,
        Outcome::Fails(e) => Outcome::Fails(e),
        Outcome::Gives(t) => state_of(spec_pop_val_expect(s, t)),
    }
}

/// `local.tee`: `[t] -> [t]`
#[verifier::opaque]
pub open spec fn spec_local_tee(s: VState, ft: FuncTypeV, locals: Seq<FuncLocal>, idx: u32) -> Outcome<VState> {
    match spec_local_type(ft, locals, idx) {
        Outcome::Panics => Outcome::Panics,
        Outcome::Fails(e) => Outcome::Fails(e),
        Outcome::Gives(t) => spec_convop(s, t, t),
    }
}

/// `global.get`: `[] -> [t]`
#[verifier::opaque]
pub open spec fn spec_global_get(s: VState, m: ModuleV, idx: u32) -> Outcome<VState> {
    match spec_global_type(m, idx) {
        Outcome::Panics => Outcome::Panics,
        Outcome::Fails(e) => Outcome::Fails(e),
        Outcome::Gives(gt) => Outcome::Gives(push_val(s, value_type_of(gt.type_))),
    }
}

/// `global.set`: `[t] -> []` on a mutable global.
#[verifier::opaque]
pub open spec fn spec_global_set(s: VState, m: ModuleV, idx: u32) -> Outcome<VState> {
    match spec_global_type(m, idx) {
        Outcome::Panics => Outcome::Panics,
        Outcome::Fails(e) => Outcome::Fails(e),
        Outcome::Gives(gt) => if gt.mutflag == MutabilityFlag::Const {
            Outcome::Fails(ValidationError::ImmutableGlobal)
        } else {
            state_of(spec_pop_val_expect(s, value_type_of(gt.type_)))
        },
    }
}

/// `table.get`: `[i32] -> [t]`
#[verifier::opaque]
pub open spec fn spec_table_get(s: VState, m: ModuleV, idx: u32) -> Outcome<VState> {
    match spec_pop_val_expect(s, ValueType::I32) {
        Outcome::Panics => Outcome::Panics,
        Outcome::Fails(e) => Outcome::Fails(e),
        Outcome::Gives((s1, _)) => match spec_table_type(m, idx) {
            Outcome::Panics => Outcome::Panics,
            Outcome::Fails(e) => Outcome::Fails(e),
            Outcome::Gives(t) => Outcome::Gives(push_val(s1, ValueType::Ref(t.elemtype))),
        },
    }
}

/// `table.set`: `[i32 t] -> []`
#[verifier::opaque]
pub open spec fn spec_table_set(s: VState, m: ModuleV, idx: u32) -> Outcome<VState> {
    match spec_table_type(m, idx) {
        Outcome::Panics => Outcome::Panics,
        Outcome::Fails(e) => Outcome::Fails(e),
        Outcome::Gives(t) => match spec_pop_val_expect(s, ValueType::Ref(t.elemtype)) {
            Outcome::Panics => Outcome::Panics,
            Outcome::Fails(e) => Outcome::Fails(e),
            Outcome::Gives((s1, _)) => state_of(spec_pop_val_expect(s1, ValueType::I32)),
        },
    }
}

/// `memory.size`: `[] -> [i32]` on an existing memory.
#[verifier::opaque]
pub open spec fn spec_memory_size(s: VState, m: ModuleV, idx: u32) -> Outcome<VState> {
    match spec_mem_type_at(m, idx) {
        Outcome::Panics => Outcome::Panics,
        Outcome::Fails(e) => Outcome::Fails(e),
        Outcome::Gives(_) => Outcome::Gives(push_val(s, ValueType::I32)),
    }
}

/// `memory.grow`: `[i32] -> [i32]` on an existing memory.
#[verifier::opaque]
pub open spec fn spec_memory_grow(s: VState, m: ModuleV, idx: u32) -> Outcome<VState> {
    match spec_mem_type_at(m, idx) {
        Outcome::Panics => Outcome::Panics,
        Outcome::Fails(e) => Outcome::Fails(e),
        Outcome::Gives(_) => spec_convop(s, ValueType::I32, ValueType::I32),
    }
}

/// `ref.is_null`: `[ref] -> [i32]`; an unknown operand is no reference.
#[verifier::opaque]
pub open spec fn spec_ref_is_null(s: VState) -> Outcome<VState> {
    match spec_pop_val(s) {
        Outcome::Panics => Outcome::Panics,
        Outcome::Fails(e) => Outcome::Fails(e),
        Outcome::Gives((s1, v)) => if !(v is Ref) {
            Outcome::Fails(ValidationError::TypeMismatch)
        } else {
            Outcome::Gives(push_val(s1, ValueType::I32))
        },
    }
}

/// `data.drop`: an existing data segment.
#[verifier::opaque]
pub open spec fn spec_data_drop(s: VState, m: ModuleV, idx: u32) -> Outcome<VState> {
    if !has_index(m.data, idx) {
        Outcome::Fails(ValidationError::UnknownData)
    } else {
        Outcome::Gives(s)
    }
}

/// `elem.drop`: an existing element segment.
#[verifier::opaque]
pub open spec fn spec_elem_drop(s: VState, m: ModuleV, idx: u32) -> Outcome<VState> {
    if !has_index(m.elements, idx) {
        Outcome::Fails(ValidationError::UnknownElement)
    } else {
        Outcome::Gives(s)
    }
}

/// The step of an instruction that is neither numeric nor a load or store
/// (those are `spec_numeric` and `spec_mem_step`, which `spec_step` picks first).
pub open spec fn spec_other(s: VState, m: ModuleV, ft: FuncTypeV, locals: Seq<FuncLocal>, ins: Instruction) -> Outcome<VState> {
    match ins {
        Instruction::Unreachable => spec_unreachable(s),
        Instruction::Nop => Outcome::Gives(s),
        Instruction::Block(bt) => spec_enter_block(s, m, bt, InstrV::Plain(Instruction::Block(bt))),
        Instruction::Loop(bt) => spec_enter_block(s, m, bt, InstrV::Plain(Instruction::Loop(bt))),
        Instruction::If(bt) => spec_enter_if(s, m, bt),
        Instruction::Else => spec_else(s),
        Instruction::End => spec_end(s),
        Instruction::Br(n) => spec_br(s, n),
        Instruction::BrIf(n) => spec_br_if(s, n),
        Instruction::Return => spec_return(s),
        Instruction::Call(idx) => spec_call(s, m, idx),
        Instruction::CallIndirect((type_idx, table_idx)) => spec_call_indirect(s, m, type_idx, table_idx),
        Instruction::Drop => spec_drop(s),
        Instruction::Select => spec_select(s),
        Instruction::LocalGet(idx) => spec_local_get(s, ft, locals, idx),
        Instruction::LocalSet(idx) => spec_local_set(s, ft, locals, idx),
        Instruction::LocalTee(idx) => spec_local_tee(s, ft, locals, idx),
        Instruction::GlobalGet(idx) => spec_global_get(s, m, idx),
        Instruction::GlobalSet(idx) => spec_global_set(s, m, idx),
        Instruction::TableGet(idx) => spec_table_get(s, m, idx),
        Instruction::TableSet(idx) => spec_table_set(s, m, idx),
        Instruction::MemorySize(idx) => spec_memory_size(s, m, idx.0),
        Instruction::MemoryGrow(idx) => spec_memory_grow(s, m, idx.0),
        Instruction::RefNull(rt) => Outcome::Gives(push_val(s, ValueType::Ref(rt))),
        Instruction::RefIsNull => spec_ref_is_null(s),
        Instruction::RefFunc(_) => Outcome::Gives(push_val(s, ValueType::Ref(RefType::Func))),
        Instruction::MemoryInit((mem_idx, data_idx)) => spec_memory_init(s, m, mem_idx.0, data_idx),
        Instruction::DataDrop(idx) => spec_data_drop(s, m, idx),
        Instruction::TableInit((table_idx, elem_idx)) => spec_table_init(s, m, table_idx, elem_idx),
        Instruction::ElemDrop(idx) => spec_elem_drop(s, m, idx),
        _ => Outcome::Gives(s),
    }
}

/// One step of the validation of a function body.
pub open spec fn spec_step(s: VState, m: ModuleV, ft: FuncTypeV, locals: Seq<FuncLocal>, i: InstrV) -> Outcome<VState> {
    match i {
        InstrV::SelectT(ts) => spec_select_t(s, ts),
        InstrV::BrTable(labels, default) => spec_br_table(s, labels, default),
        InstrV::Plain(ins) => match spec_numeric_sig(ins) {
            Some(sig) => spec_numeric(s, sig),
            None => match spec_mem_access(ins) {
                Some(a) => spec_mem_step(s, m, a),
                None => spec_other(s, m, ft, locals, ins),
            },
        },
    }
}

/// The steps of a function body, one after the other.
pub open spec fn spec_run(s: VState, m: ModuleV, ft: FuncTypeV, locals: Seq<FuncLocal>, body: Seq<InstrV>) -> Outcome<VState>
    decreases body.len(),
{
    if body.len() == 0 {
        Outcome::Gives(s)
    } else {
        match spec_run(s, m, ft, locals, body.drop_last()) {
            Outcome::Panics => Outcome::Panics,
            Outcome::Fails(e) => Outcome::Fails(e),
            Outcome::Gives(s2) => spec_step(s2, m, ft, locals, body.last()),
        }
    }
}

/// The state in which a function's body starts: one frame, of the function
/// itself, which takes no operands (its parameters are locals).
pub open spec fn initial_state(ft: FuncTypeV) -> VState {
    push_ctrl(VState { vals: seq![], ctrls: seq![] }, InstrV::Plain(Instruction::Call(0)), seq![], value_types_of(ft.results))
}

/// A function body validates against its type when every step does; the
/// body's final `end` closes the function's frame.
pub open spec fn spec_validate_function(m: ModuleV, ft: FuncTypeV, entry: CodeEntryV) -> Outcome<()> {
    match spec_run(initial_state(ft), m, ft, entry.locals, entry.body) {
        Outcome::Panics => Outcome::Panics,
        Outcome::Fails(e) => Outcome::Fails(e),
        Outcome::Gives(_) => Outcome::Gives(()),
    }
}

/// The first `n` functions, each against the type its type index names.
pub open spec fn spec_validate_functions(
    m: ModuleV,
    types: Seq<FuncTypeV>,
    funcs: Seq<u32>,
    codes: Seq<CodeEntryV>,
    n: int,
) -> Outcome<()>
    decreases n,
{
    if n <= 0 {
        Outcome::Gives(())
    } else {
        match spec_validate_functions(m, types, funcs, codes, n - 1) {
            Outcome::Panics => Outcome::Panics,
            Outcome::Fails(e) => Outcome::Fails(e),
            Outcome::Gives(_) => if funcs[n - 1] >= types.len() {
                Outcome::Panics
            } else {
                spec_validate_function(m, types[funcs[n - 1] as int], codes[n - 1])
            },
        }
    }
}

/// A module validates when each of its functions does. The function and
/// code sections must agree, as decoding makes them.
pub open spec fn spec_validate_module(m: ModuleV) -> Outcome<()> {
    if m.functions is Some != m.codes is Some {
        Outcome::Panics
    } else if m.functions is None || m.codes is None || m.types is None {
        Outcome::Gives(())
    } else if m.functions->Some_0.len() != m.codes->Some_0.len() {
        Outcome::Panics
    } else {
        spec_validate_functions(
            m,
            m.types->Some_0,
            m.functions->Some_0,
            m.codes->Some_0,
            m.functions->Some_0.len() as int,
        )
    }
}

impl Validator {
    fn enter_block(&mut self, module: &Module, bt: &BlockType, opcode: Instruction) -> (r: Result<(), ValidationError>)
        requires
            !(spec_enter_block(old(self)@, module@, *bt, opcode@) is Panics),
        ensures
            follows_state(spec_enter_block(old(self)@, module@, *bt, opcode@), r, final(self)@),
    {
        reveal(spec_enter_block);
        let (t1, t2) = Self::block_type(bt, module)?;
        self.pop_vals_expect(t1.as_slice())?;
        self.push_ctrl(opcode, t1, t2);
        Ok(())
    }

    fn enter_if(&mut self, module: &Module, bt: &BlockType) -> (r: Result<(), ValidationError>)
        requires
            !(spec_enter_if(old(self)@, module@, *bt) is Panics),
        ensures
            follows_state(spec_enter_if(old(self)@, module@, *bt), r, final(self)@),
    {
        reveal(spec_enter_if);
        // [t1* i32] -> [t2*]
        let (t1, t2) = Self::block_type(bt, module)?;
        self.pop_val_expect(ValueType::I32)?;
        self.pop_vals_expect(t1.as_slice())?;
        self.push_ctrl(Instruction::If(*bt), t1, t2);
        Ok(())
    }

    fn validate_else(&mut self) -> (r: Result<(), ValidationError>)
        requires
            !(spec_else(old(self)@) is Panics),
        ensures
            follows_state(spec_else(old(self)@), r, final(self)@),
    {
        reveal(spec_else);
        let frame = self.pop_ctrl()?;
        if !matches!(frame.opcode, Instruction::If(_)) {
            return Err(ValidationError::ElseWithoutMatchingIf);
        }
        self.push_ctrl(Instruction::Else, frame.start_types, frame.end_types);
        Ok(())
    }

    fn validate_end(&mut self) -> (r: Result<(), ValidationError>)
        requires
            !(spec_end(old(self)@) is Panics),
        ensures
            follows_state(spec_end(old(self)@), r, final(self)@),
    {
        reveal(spec_end);
        let frame = self.pop_ctrl()?;
        self.push_vals(frame.end_types.as_slice());
        Ok(())
    }

    fn validate_br(&mut self, n: u32) -> (r: Result<(), ValidationError>)
        requires
            !(spec_br(old(self)@, n) is Panics),
        ensures
            follows_state(spec_br(old(self)@, n), r, final(self)@),
    {
        reveal(spec_br);
        let n = n as usize;
        if self.ctrls.len() <= n {
            return Err(ValidationError::ControlStackUnderflow);
        }
        let lt = copy_types(Self::label_types(n, &self.ctrls));
        self.pop_vals_expect(lt.as_slice())?;
        self.unreachable();
        Ok(())
    }

    fn validate_br_if(&mut self, n: u32) -> (r: Result<(), ValidationError>)
        requires
            !(spec_br_if(old(self)@, n) is Panics),
        ensures
            follows_state(spec_br_if(old(self)@, n), r, final(self)@),
    {
        reveal(spec_br_if);
        let n = n as usize;
        if self.ctrls.len() <= n {
            return Err(ValidationError::ControlStackUnderflow);
        }
        self.pop_val_expect(ValueType::I32)?;
        let lt = copy_types(Self::label_types(n, &self.ctrls));
        self.pop_vals_expect(lt.as_slice())?;
        self.push_vals(lt.as_slice());
        Ok(())
    }

    fn validate_br_table(&mut self, labels: &Vec<u32>, default: u32) -> (r: Result<(), ValidationError>)
        requires
            !(spec_br_table(old(self)@, labels@, default) is Panics),
        ensures
            follows_state(spec_br_table(old(self)@, labels@, default), r, final(self)@),
    {
        self.pop_val_expect(ValueType::I32)?;
        let m = default as usize;
        if self.ctrls.len() <= m {
            return Err(ValidationError::ControlStackUnderflow);
        }
        let m_types = copy_types(Self::label_types(m, &self.ctrls));
        let arity = m_types.len();
        let ghost s1 = self@;
        let mut k: usize = 0;
        proof {
            assert(labels@.take(0) =~= seq![]);
        }
        while k < labels.len()
            invariant
                k <= labels@.len(),
                m_types@.len() == arity,
                spec_br_table(old(self)@, labels@, default) == match spec_br_labels(s1, labels@, arity as int) {
                    Outcome::Panics => Outcome::Panics,
                    Outcome::Fails(e) => Outcome::Fails(e),
                    Outcome::Gives(s2) => match spec_pop_vals_expect(s2, m_types@) {
                        Outcome::Panics => Outcome::Panics,
                        Outcome::Fails(e) => Outcome::Fails(e),
                        Outcome::Gives((s3, _)) => spec_unreachable(s3),
                    },
                },
                !(spec_br_table(old(self)@, labels@, default) is Panics),
                spec_br_labels(s1, labels@.take(k as int), arity as int) == Outcome::Gives(self@),
            decreases labels@.len() - k,
        {
            proof {
                assert(labels@.take(k + 1).drop_last() =~= labels@.take(k as int));
                lemma_br_labels_prefix(s1, labels@, k as int + 1, arity as int);
            }
            let n = labels[k] as usize;
            if self.ctrls.len() <= n {
                proof {
                    lemma_br_labels_err(s1, labels@, k as int + 1, arity as int);
                }
                return Err(ValidationError::ControlStackUnderflow);
            }
            let n_types = copy_types(Self::label_types(n, &self.ctrls));
            if n_types.len() != arity {
                proof {
                    lemma_br_labels_err(s1, labels@, k as int + 1, arity as int);
                }
                return Err(ValidationError::TypeMismatch);
            }
            self.push_vals(n_types.as_slice());
            k = k + 1;
        }
        proof {
            assert(labels@.take(k as int) =~= labels@);
        }
        self.pop_vals_expect(m_types.as_slice())?;
        self.unreachable();
        Ok(())
    }

    fn validate_return(&mut self) -> (r: Result<(), ValidationError>)
        requires
            !(spec_return(old(self)@) is Panics),
        ensures
            follows_state(spec_return(old(self)@), r, final(self)@),
    {
        reveal(spec_return);
        let results = copy_types(&self.ctrls[0].end_types);
        self.pop_vals_expect(results.as_slice())?;
        self.unreachable();
        Ok(())
    }

    fn validate_call_type(&mut self, func_type: &FuncType) -> (r: Result<(), ValidationError>)
        requires
            !(spec_call_type(old(self)@, func_type@) is Panics),
        ensures
            follows_state(spec_call_type(old(self)@, func_type@), r, final(self)@),
    {
        // [t1*] -> [t2*]
        let params = value_types(&func_type.params);
        self.pop_vals_expect(params.as_slice())?;
        let results = value_types(&func_type.results);
        self.push_vals(results.as_slice());
        Ok(())
    }

    fn validate_call_indirect(&mut self, module: &Module, type_idx: u32, table_idx: u32) -> (r: Result<(), ValidationError>)
        requires
            !(spec_call_indirect(old(self)@, module@, type_idx, table_idx) is Panics),
        ensures
            follows_state(spec_call_indirect(old(self)@, module@, type_idx, table_idx), r, final(self)@),
    {
        reveal(spec_call_indirect);
        // [t1* i32] -> [t2*]
        let table_type = Self::table_type(module, table_idx)?;
        if !matches!(table_type.elemtype, RefType::Func) {
            return Err(ValidationError::TableTypeMismatch);
        }
        self.pop_val_expect(ValueType::I32)?;
        let func_type = Self::type_at(module, type_idx)?;
        self.validate_call_type(func_type)
    }

    fn validate_select(&mut self) -> (r: Result<(), ValidationError>)
        requires
            !(spec_select(old(self)@) is Panics),
        ensures
            follows_state(spec_select(old(self)@), r, final(self)@),
    {
        reveal(spec_select);
        // [t t i32] -> [t]
        self.pop_val_expect(ValueType::I32)?;
        let t1 = self.pop_val()?;
        let t2 = self.pop_val()?;
        if !((t1.is_num() && t2.is_num()) || (t1.is_vec() && t2.is_vec())) {
            return Err(ValidationError::TypeMismatch);
        }
        if t1 != t2 && t1 != ValueType::Unknown && t2 != ValueType::Unknown {
            return Err(ValidationError::TypeMismatch);
        }
        if matches!(t1, ValueType::Unknown) {
            self.push_val(t2);
        } else {
            self.push_val(t1);
        }
        Ok(())
    }

    fn validate_select_t(&mut self, vt: &Vec<ValType>) -> (r: Result<(), ValidationError>)
        requires
            !(spec_select_t(old(self)@, vt@) is Panics),
        ensures
            follows_state(spec_select_t(old(self)@, vt@), r, final(self)@),
    {
        // [t t i32] -> [t]
        if vt.len() != 1 {
            return Err(ValidationError::InvalidSelectTypes);
        }
        let t = ValueType::from(vt[0]);
        self.pop_val_expect(ValueType::I32)?;
        self.pop_val_expect(t)?;
        self.pop_val_expect(t)?;
        self.push_val(t);
        Ok(())
    }

    fn pop_three_i32(&mut self) -> (r: Result<(), ValidationError>)
        requires
            !(spec_pop_three_i32(old(self)@) is Panics),
        ensures
            follows_state(spec_pop_three_i32(old(self)@), r, final(self)@),
    {
        self.pop_val_expect(ValueType::I32)?;
        self.pop_val_expect(ValueType::I32)?;
        self.pop_val_expect(ValueType::I32)?;
        Ok(())
    }

    fn validate_memory_init(&mut self, module: &Module, mem_idx: u32, data_idx: u32) -> (r: Result<(), ValidationError>)
        requires
            !(spec_memory_init(old(self)@, module@, mem_idx, data_idx) is Panics),
        ensures
            follows_state(spec_memory_init(old(self)@, module@, mem_idx, data_idx), r, final(self)@),
    {
        reveal(spec_memory_init);
        // [at, i32, i32] -> []
        self.pop_three_i32()?;
        // memory exists
        let mem_ok = match &module.memories {
            Some(mems) => (mem_idx as usize) < mems.len(),
            None => false,
        };
        if !mem_ok {
            return Err(ValidationError::UnknownMemory);
        }
        // data exists
        let data_ok = match &module.data {
            Some(data) => (data_idx as usize) < data.len(),
            None => false,
        };
        if !data_ok {
            return Err(ValidationError::UnknownData);
        }
        Ok(())
    }

    fn validate_table_init(&mut self, module: &Module, table_idx: u32, elem_idx: u32) -> (r: Result<(), ValidationError>)
        requires
            !(spec_table_init(old(self)@, module@, table_idx, elem_idx) is Panics),
        ensures
            follows_state(spec_table_init(old(self)@, module@, table_idx, elem_idx), r, final(self)@),
    {
        reveal(spec_table_init);
        // [at, i32, i32] -> []
        self.pop_three_i32()?;
        // table exists
        let table = match &module.tables {
            Some(tables) => if (table_idx as usize) < tables.len() {
                &tables[table_idx as usize]
            } else {
                return Err(ValidationError::UnknownTable);
            },
            None => return Err(ValidationError::UnknownTable),
        };
        // element exists
        let elem = match &module.elements {
            Some(elems) => if (elem_idx as usize) < elems.len() {
                &elems[elem_idx as usize]
            } else {
                return Err(ValidationError::UnknownElement);
            },
            None => return Err(ValidationError::UnknownElement),
        };
        let elemtype = elem.reftype();
        if elemtype != table.tabletype.elemtype {
            return Err(ValidationError::TypeMismatch);
        }
        Ok(())
    }
}

proof fn lemma_br_labels_err(s: VState, labels: Seq<u32>, k: int, arity: int)
    requires
        0 <= k <= labels.len(),
        spec_br_labels(s, labels.take(k), arity) is Fails,
    ensures
        spec_br_labels(s, labels, arity) == spec_br_labels(s, labels.take(k), arity),
    decreases labels.len() - k,
{
    if k == labels.len() {
        assert(labels.take(k) =~= labels);
    } else {
        assert(labels.take(k + 1).drop_last() =~= labels.take(k));
        lemma_br_labels_err(s, labels, k + 1, arity);
    }
}

proof fn lemma_br_labels_prefix(s: VState, labels: Seq<u32>, k: int, arity: int)
    requires
        0 < k <= labels.len(),
    ensures
        spec_br_labels(s, labels.take(k), arity) == match spec_br_labels(s, labels.take(k - 1), arity) {
            Outcome::Panics => Outcome::Panics,
            Outcome::Fails(e) => Outcome::Fails(e),
            Outcome::Gives(s2) => {
                let n = labels[k - 1];
                if s2.ctrls.len() <= n {
                    Outcome::Fails(ValidationError::ControlStackUnderflow)
                } else if label_types(n as int, s2.ctrls).len() != arity {
                    Outcome::Fails(ValidationError::TypeMismatch)
                } else {
                    Outcome::Gives(push_vals(s2, label_types(n as int, s2.ctrls)))
                }
            },
        },
{
    assert(labels.take(k).drop_last() =~= labels.take(k - 1));
}

impl Validator {
    /// The step of an instruction that is neither numeric nor a load or store.
    fn validate_other(&mut self, inst: &Instruction, functype: &FuncType, entry: &CodeEntry, module: &Module) -> (r: Result<(), ValidationError>)
        requires
            !(spec_other(old(self)@, module@, functype@, entry@.locals, *inst) is Panics),
        ensures
            follows_state(spec_other(old(self)@, module@, functype@, entry@.locals, *inst), r, final(self)@),
    {
        reveal(spec_call);
        match inst {
            Instruction::Unreachable => {
                self.unreachable();
                Ok(())
            },
            Instruction::Nop => Ok(()),
            Instruction::Block(bt) => self.enter_block(module, bt, Instruction::Block(*bt)),
            Instruction::Loop(bt) => self.enter_block(module, bt, Instruction::Loop(*bt)),
            Instruction::If(bt) => self.enter_if(module, bt),
            Instruction::Else => self.validate_else(),
            Instruction::End => self.validate_end(),
            Instruction::Br(n) => self.validate_br(*n),
            Instruction::BrIf(n) => self.validate_br_if(*n),
            Instruction::Return => self.validate_return(),
            Instruction::Call(idx) => {
                let func_type = Self::func_type_at(module, *idx)?;
                self.validate_call_type(func_type)
            },
            Instruction::CallIndirect((type_idx, table_idx)) => self.validate_call_indirect(module, *type_idx, *table_idx),
            Instruction::Drop => self.validate_drop(),
            Instruction::Select => self.validate_select(),
            Instruction::LocalGet(idx) => self.validate_local_get(functype, entry, *idx),
            Instruction::LocalSet(idx) => self.validate_local_set(functype, entry, *idx),
            Instruction::LocalTee(idx) => self.validate_local_tee(functype, entry, *idx),
            Instruction::GlobalGet(idx) => self.validate_global_get(module, *idx),
            Instruction::GlobalSet(idx) => self.validate_global_set(module, *idx),
            Instruction::TableGet(idx) => self.validate_table_get(module, *idx),
            Instruction::TableSet(idx) => self.validate_table_set(module, *idx),
            Instruction::MemorySize(idx) => self.validate_memory_size(module, *idx),
            Instruction::MemoryGrow(idx) => self.validate_memory_grow(module, *idx),
            Instruction::RefNull(rt) => {
                self.push_val(ValueType::Ref(*rt));
                Ok(())
            },
            Instruction::RefIsNull => self.validate_ref_is_null(),
            Instruction::RefFunc(_) => {
                self.push_val(ValueType::Ref(RefType::Func));
                Ok(())
            },
            Instruction::MemoryInit((mem_idx, data_idx)) => self.validate_memory_init(module, mem_idx.0, *data_idx),
            Instruction::DataDrop(idx) => Self::validate_data_drop(module, *idx),
            Instruction::TableInit((table_idx, elem_idx)) => self.validate_table_init(module, *table_idx, *elem_idx),
            Instruction::ElemDrop(idx) => Self::validate_elem_drop(module, *idx),
            _ => Ok(()),
        }
    }

    /// One step of the validation of a function body.
    fn validate_instruction(&mut self, inst: &Instruction, functype: &FuncType, entry: &CodeEntry, module: &Module) -> (r: Result<(), ValidationError>)
        requires
            !(spec_step(old(self)@, module@, functype@, entry@.locals, inst@) is Panics),
        ensures
            follows_state(spec_step(old(self)@, module@, functype@, entry@.locals, inst@), r, final(self)@),
    {
        match inst {
            Instruction::SelectT(vt) => return self.validate_select_t(vt),
            Instruction::BrTable(idx) => return self.validate_br_table(&idx.labels, idx.default),
            _ => {},
        }
        if let Some(sig) = numeric_sig(inst) {
            return self.validate_numeric(sig);
        }
        if let Some(access) = mem_access(inst) {
            return self.validate_mem_access(module, access);
        }
        self.validate_other(inst, functype, entry, module)
    }

    fn validate_function(&mut self, functype: &FuncType, entry: &CodeEntry, module: &Module) -> (r: Result<(), ValidationError>)
        requires
            old(self)@ == (VState { vals: seq![], ctrls: seq![] }),
            !(spec_validate_function(module@, functype@, entry@) is Panics),
        ensures
            follows_lookup(spec_validate_function(module@, functype@, entry@), r),
    {
        let end_types = value_types(&functype.results);
        self.push_ctrl(Instruction::Call(0), Vec::new(), end_types);
        let ghost s0 = self@;
        let ghost body = entry@.body;
        proof {
            assert(body.take(0) =~= seq![]);
        }
        let mut i: usize = 0;
        while i < entry.body.len()
            invariant
                s0 == initial_state(functype@),
                body == entry@.body,
                body.len() == entry.body@.len(),
                i <= body.len(),
                !(spec_validate_function(module@, functype@, entry@) is Panics),
                spec_run(s0, module@, functype@, entry@.locals, body.take(i as int)) == Outcome::Gives(self@),
            decreases body.len() - i,
        {
            proof {
                assert(body.take(i + 1).drop_last() =~= body.take(i as int));
                assert(body.take(i + 1).last() == entry.body@[i as int]@);
                lemma_run_prefix_not_panics(s0, module@, functype@, entry@.locals, body, i as int + 1);
            }
            let res = self.validate_instruction(&entry.body[i], functype, entry, module);
            match res {
                Ok(()) => {},
                Err(e) => {
                    proof {
                        lemma_run_err(s0, module@, functype@, entry@.locals, body, i as int + 1);
                    }
                    return Err(e);
                },
            }
            i = i + 1;
        }
        proof {
            assert(body.take(i as int) =~= body);
        }
        Ok(())
    }

    fn validate_module(module: &Module) -> (r: Result<(), ValidationError>)
        requires
            !(spec_validate_module(module@) is Panics),
        ensures
            follows_lookup(spec_validate_module(module@), r),
    {
        // At this point Function and Code section are consistent
        let function_section = match &module.functions {
            Some(f) => f,
            None => return Ok(()),
        };
        let code_section = match &module.codes {
            Some(c) => c,
            None => return Ok(()),
        };
        let type_section = match &module.types {
            Some(t) => t,
            None => return Ok(()),
        };
        let ghost types = vec_view(type_section@);
        let ghost funcs = function_section@;
        let ghost codes = vec_view(code_section@);
        proof {
            assert(vec_view(function_section@) =~= funcs);
        }
        let mut k: usize = 0;
        while k < function_section.len()
            invariant
                module@.types == Some(types),
                module@.functions == Some(funcs),
                module@.codes == Some(codes),
                types == vec_view(type_section@),
                funcs == function_section@,
                codes == vec_view(code_section@),
                funcs.len() == codes.len(),
                k <= funcs.len(),
                !(spec_validate_module(module@) is Panics),
                spec_validate_module(module@) == spec_validate_functions(module@, types, funcs, codes, funcs.len() as int),
                spec_validate_functions(module@, types, funcs, codes, k as int) == Outcome::<()>::Gives(()),
            decreases funcs.len() - k,
        {
            proof {
                lemma_functions_not_panics(module@, types, funcs, codes, k as int + 1, funcs.len() as int);
            }
            let idx = function_section[k];
            let mut v = Validator::default();
            let res = v.validate_function(&type_section[idx as usize], &code_section[k], module);
            match res {
                Ok(()) => {},
                Err(e) => {
                    proof {
                        lemma_functions_err(module@, types, funcs, codes, k as int + 1, funcs.len() as int);
                    }
                    return Err(e);
                },
            }
            k = k + 1;
        }
        Ok(())
    }
}

proof fn lemma_run_prefix_not_panics(s: VState, m: ModuleV, ft: FuncTypeV, locals: Seq<FuncLocal>, body: Seq<InstrV>, k: int)
    requires
        0 <= k <= body.len(),
        !(spec_run(s, m, ft, locals, body) is Panics),
    ensures
        !(spec_run(s, m, ft, locals, body.take(k)) is Panics),
    decreases body.len() - k,
{
    if k == body.len() {
        assert(body.take(k) =~= body);
    } else {
        assert(body.take(k + 1).drop_last() =~= body.take(k));
        lemma_run_prefix_not_panics(s, m, ft, locals, body, k + 1);
    }
}

proof fn lemma_run_err(s: VState, m: ModuleV, ft: FuncTypeV, locals: Seq<FuncLocal>, body: Seq<InstrV>, k: int)
    requires
        0 <= k <= body.len(),
        spec_run(s, m, ft, locals, body.take(k)) is Fails,
    ensures
        spec_run(s, m, ft, locals, body) == spec_run(s, m, ft, locals, body.take(k)),
    decreases body.len() - k,
{
    if k == body.len() {
        assert(body.take(k) =~= body);
    } else {
        assert(body.take(k + 1).drop_last() =~= body.take(k));
        lemma_run_err(s, m, ft, locals, body, k + 1);
    }
}

proof fn lemma_functions_not_panics(m: ModuleV, types: Seq<FuncTypeV>, funcs: Seq<u32>, codes: Seq<CodeEntryV>, k: int, n: int)
    requires
        0 <= k <= n,
        !(spec_validate_functions(m, types, funcs, codes, n) is Panics),
    ensures
        !(spec_validate_functions(m, types, funcs, codes, k) is Panics),
    decreases n - k,
{
    if k < n {
        lemma_functions_not_panics(m, types, funcs, codes, k, n - 1);
    }
}

proof fn lemma_functions_err(m: ModuleV, types: Seq<FuncTypeV>, funcs: Seq<u32>, codes: Seq<CodeEntryV>, k: int, n: int)
    requires
        0 <= k <= n,
        spec_validate_functions(m, types, funcs, codes, k) is Fails,
    ensures
        spec_validate_functions(m, types, funcs, codes, n) == spec_validate_functions(m, types, funcs, codes, k),
    decreases n - k,
{
    if k < n {
        lemma_functions_err(m, types, funcs, codes, k, n - 1);
    }
}

/// Validates every function of a module against its type.
pub fn validate_module(module: &Module) -> (r: Result<(), ValidationError>)
    requires
        !(spec_validate_module(module@) is Panics),
    ensures
        follows_lookup(spec_validate_module(module@), r),
{
    Validator::validate_module(module)
}


impl Validator {
    fn validate_drop(&mut self) -> (r: Result<(), ValidationError>)
        requires
            !(spec_drop(old(self)@) is Panics),
        ensures
            follows_state(spec_drop(old(self)@), r, final(self)@),
    {
        reveal(spec_drop);
        // [t] -> []
        self.pop_val()?;
        Ok(())
    }

    fn validate_local_get(&mut self, functype: &FuncType, entry: &CodeEntry, idx: u32) -> (r: Result<(), ValidationError>)
        requires
            !(spec_local_get(old(self)@, functype@, entry@.locals, idx) is Panics),
        ensures
            follows_state(spec_local_get(old(self)@, functype@, entry@.locals, idx), r, final(self)@),
    {
        reveal(spec_local_get);
        // [] -> [t]
        let vt = Self::local_type(functype, &entry.locals, idx)?;
        self.push_val(vt);
        Ok(())
    }

    fn validate_local_set(&mut self, functype: &FuncType, entry: &CodeEntry, idx: u32) -> (r: Result<(), ValidationError>)
        requires
            !(spec_local_set(old(self)@, functype@, entry@.locals, idx) is Panics),
        ensures
            follows_state(spec_local_set(old(self)@, functype@, entry@.locals, idx), r, final(self)@),
    {
        reveal(spec_local_set);
        // [t] -> []
        let vt = Self::local_type(functype, &entry.locals, idx)?;
        self.pop_val_expect(vt)?;
        Ok(())
    }

    fn validate_local_tee(&mut self, functype: &FuncType, entry: &CodeEntry, idx: u32) -> (r: Result<(), ValidationError>)
        requires
            !(spec_local_tee(old(self)@, functype@, entry@.locals, idx) is Panics),
        ensures
            follows_state(spec_local_tee(old(self)@, functype@, entry@.locals, idx), r, final(self)@),
    {
        reveal(spec_local_tee);
        // [t] -> [t]
        let vt = Self::local_type(functype, &entry.locals, idx)?;
        self.validate_convop(vt, vt)
    }

    fn validate_global_get(&mut self, module: &Module, idx: u32) -> (r: Result<(), ValidationError>)
        ensures
            follows_state(spec_global_get(old(self)@, module@, idx), r, final(self)@),
    {
        reveal(spec_global_get);
        // [] -> [t]
        let gt = Self::global_type(module, idx)?;
        self.push_val(ValueType::from(gt.type_));
        Ok(())
    }

    fn validate_global_set(&mut self, module: &Module, idx: u32) -> (r: Result<(), ValidationError>)
        requires
            !(spec_global_set(old(self)@, module@, idx) is Panics),
        ensures
            follows_state(spec_global_set(old(self)@, module@, idx), r, final(self)@),
    {
        reveal(spec_global_set);
        // [t] -> []
        let gt = Self::global_type(module, idx)?;
        if matches!(gt.mutflag, MutabilityFlag::Const) {
            return Err(ValidationError::ImmutableGlobal);
        }
        self.pop_val_expect(ValueType::from(gt.type_))?;
        Ok(())
    }

    fn validate_table_get(&mut self, module: &Module, idx: u32) -> (r: Result<(), ValidationError>)
        requires
            !(spec_table_get(old(self)@, module@, idx) is Panics),
        ensures
            follows_state(spec_table_get(old(self)@, module@, idx), r, final(self)@),
    {
        reveal(spec_table_get);
        // [at] -> [t]
        self.pop_val_expect(ValueType::I32)?;
        let t = Self::table_type(module, idx)?;
        self.push_val(ValueType::from(t.elemtype));
        Ok(())
    }

    fn validate_table_set(&mut self, module: &Module, idx: u32) -> (r: Result<(), ValidationError>)
        requires
            !(spec_table_set(old(self)@, module@, idx) is Panics),
        ensures
            follows_state(spec_table_set(old(self)@, module@, idx), r, final(self)@),
    {
        reveal(spec_table_set);
        // [at t] -> []
        let t = Self::table_type(module, idx)?;
        self.pop_val_expect(ValueType::from(t.elemtype))?;
        self.pop_val_expect(ValueType::I32)?;
        Ok(())
    }

    fn validate_memory_size(&mut self, module: &Module, idx: MemIndex) -> (r: Result<(), ValidationError>)
        ensures
            follows_state(spec_memory_size(old(self)@, module@, idx.0), r, final(self)@),
    {
        reveal(spec_memory_size);
        let _ = Self::mem_type_at(module, idx)?;
        // [] -> [i32]
        self.push_val(ValueType::I32);
        Ok(())
    }

    fn validate_memory_grow(&mut self, module: &Module, idx: MemIndex) -> (r: Result<(), ValidationError>)
        requires
            !(spec_memory_grow(old(self)@, module@, idx.0) is Panics),
        ensures
            follows_state(spec_memory_grow(old(self)@, module@, idx.0), r, final(self)@),
    {
        reveal(spec_memory_grow);
        let _ = Self::mem_type_at(module, idx)?;
        // [i32] -> [i32]
        self.validate_convop(ValueType::I32, ValueType::I32)
    }

    fn validate_ref_is_null(&mut self) -> (r: Result<(), ValidationError>)
        requires
            !(spec_ref_is_null(old(self)@) is Panics),
        ensures
            follows_state(spec_ref_is_null(old(self)@), r, final(self)@),
    {
        reveal(spec_ref_is_null);
        let v = self.pop_val()?;
        if !matches!(v, ValueType::Ref(_)) {
            return Err(ValidationError::TypeMismatch);
        }
        self.push_val(ValueType::I32);
        Ok(())
    }

    fn validate_data_drop(module: &Module, idx: u32) -> (r: Result<(), ValidationError>)
        ensures
            forall|s: VState| follows_state(#[trigger] spec_data_drop(s, module@, idx), r, s),
    {
        reveal(spec_data_drop);
        let ok = match &module.data {
            Some(data) => (idx as usize) < data.len(),
            None => false,
        };
        if !ok {
            return Err(ValidationError::UnknownData);
        }
        Ok(())
    }

    fn validate_elem_drop(module: &Module, idx: u32) -> (r: Result<(), ValidationError>)
        ensures
            forall|s: VState| follows_state(#[trigger] spec_elem_drop(s, module@, idx), r, s),
    {
        reveal(spec_elem_drop);
        let ok = match &module.elements {
            Some(elems) => (idx as usize) < elems.len(),
            None => false,
        };
        if !ok {
            return Err(ValidationError::UnknownElement);
        }
        Ok(())
    }
}


/// An operand pushed onto a frame is the operand popped next, and popping
/// it gives back the state before the push.
pub proof fn lemma_pop_pushed(s: VState, v: ValueType)
    requires
        s.ctrls.len() > 0,
        s.vals.len() >= s.ctrls.last().height,
    ensures
        spec_pop_val(push_val(s, v)) == Outcome::Gives((s, v)),
{
    assert(s.vals.push(v).drop_last() =~= s.vals);
}

/// Operands pushed with the expected types pop back, the last one first,
/// and leave the state as it was before the pushes.
pub proof fn lemma_pop_vals_pushed(s: VState, ts: Seq<ValueType>)
    requires
        s.ctrls.len() > 0,
        s.vals.len() >= s.ctrls.last().height,
    ensures
        spec_pop_vals_expect(push_vals(s, ts), ts) == Outcome::Gives((s, ts.reverse())),
    decreases ts.len(),
{
    if ts.len() == 0 {
        assert(s.vals + ts =~= s.vals);
        assert(ts.reverse() =~= seq![]);
    } else {
        let s1 = push_vals(s, ts.drop_last());
        assert(push_vals(s, ts) == push_val(s1, ts.last())) by {
            assert(s.vals + ts =~= (s.vals + ts.drop_last()).push(ts.last()));
        }
        lemma_pop_pushed(s1, ts.last());
        lemma_pop_vals_pushed(s, ts.drop_last());
        assert(seq![ts.last()] + ts.drop_last().reverse() =~= ts.reverse());
    }
}

/// Entering a block that takes no operands puts the block's frame at the
/// current height: every value pushed before it lies below the frame.
pub proof fn lemma_enter_block_height(s: VState, m: ModuleV, bt: BlockType, opcode: InstrV)
    requires
        spec_block_type(bt, m) matches Outcome::Gives((t1, _)) && t1.len() == 0,
    ensures
        spec_enter_block(s, m, bt, opcode) matches Outcome::Gives(s2) && s2.vals == s.vals && s2.ctrls.len()
            == s.ctrls.len() + 1 && s2.ctrls.drop_last() == s.ctrls && s2.ctrls.last().height == s.vals.len()
            && !s2.ctrls.last().unreachable,
{
    reveal(spec_enter_block);
    assert(s.vals + seq![] =~= s.vals);
    let s2 = spec_enter_block(s, m, bt, opcode)->Gives_0;
    assert(s2.ctrls.drop_last() =~= s.ctrls);
}

/// A state with values `p` slipped in below the operands of its innermost
/// frame: they lie under the frame's height, which moves up over them.
pub open spec fn with_values_below(s: VState, p: Seq<ValueType>) -> VState {
    let f = s.ctrls.last();
    VState {
        vals: p + s.vals,
        ctrls: s.ctrls.update(
            s.ctrls.len() - 1,
            CtrlFrameV { opcode: f.opcode, start: f.start, end: f.end, height: f.height + p.len(), unreachable: f.unreachable },
        ),
    }
}

/// An outcome of popping, with values `p` slipped in below the innermost frame's operands.
pub open spec fn popped_with_below<T>(o: Outcome<(VState, T)>, p: Seq<ValueType>) -> Outcome<(VState, T)> {
    match o {
        Outcome::Gives((s, t)) => Outcome::Gives((with_values_below(s, p), t)),
        Outcome::Fails(e) => Outcome::Fails(e),
        Outcome::Panics => Outcome::Panics,
    }
}

/// Values pushed before a block are never visible as operands inside it:
/// whatever values lie below the innermost frame's height, popping an
/// operand reads the same operand, or fails the same way.
pub proof fn lemma_pop_ignores_below(s: VState, p: Seq<ValueType>)
    requires
        s.ctrls.len() > 0,
        0 <= s.ctrls.last().height <= s.vals.len(),
    ensures
        spec_pop_val(with_values_below(s, p)) == popped_with_below(spec_pop_val(s), p),
{
    if s.vals.len() != s.ctrls.last().height {
        assert((p + s.vals).drop_last() =~= p + s.vals.drop_last());
    }
}

/// The same holds of popping an operand of an expected type.
pub proof fn lemma_pop_expect_ignores_below(s: VState, p: Seq<ValueType>, expected: ValueType)
    requires
        s.ctrls.len() > 0,
        0 <= s.ctrls.last().height <= s.vals.len(),
    ensures
        spec_pop_val_expect(with_values_below(s, p), expected) == popped_with_below(spec_pop_val_expect(s, expected), p),
{
    lemma_pop_ignores_below(s, p);
}

/// And of popping several operands of expected types.
pub proof fn lemma_pop_vals_ignores_below(s: VState, p: Seq<ValueType>, expected: Seq<ValueType>)
    requires
        s.ctrls.len() > 0,
        0 <= s.ctrls.last().height <= s.vals.len(),
    ensures
        spec_pop_vals_expect(with_values_below(s, p), expected) == popped_with_below(spec_pop_vals_expect(s, expected), p),
    decreases expected.len(),
{
    if expected.len() > 0 {
        lemma_pop_expect_ignores_below(s, p, expected.last());
        match spec_pop_val_expect(s, expected.last()) {
            Outcome::Gives((s2, v)) => {
                assert(s2.ctrls == s.ctrls);
                lemma_pop_vals_ignores_below(s2, p, expected.drop_last());
            },
            _ => {},
        }
    }
}

/// A block whose body leaves exactly the block's result types closes at
/// its `end`: the state is the one before the block, with the results pushed.
pub proof fn lemma_block_closes(s: VState, opcode: InstrV, results: Seq<ValueType>)
    requires
        s.ctrls.len() > 0,
        s.vals.len() >= s.ctrls.last().height,
    ensures
        spec_end(push_vals(push_ctrl(s, opcode, seq![], results), results)) == Outcome::Gives(push_vals(s, results)),
{
    reveal(spec_end);
    let y = push_ctrl(s, opcode, seq![], results);
    lemma_pop_vals_pushed(y, results);
    assert(y.ctrls.drop_last() =~= s.ctrls);
}

} // verus!
