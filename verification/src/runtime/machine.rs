//! The model of the executor: what running one instruction does to the value
//! stack, the call stack and the store.
use vstd::prelude::*;

use crate::binary::types::BlockType;
use crate::instructions::{InstrV, Instruction};
use crate::limits::MAX_WASM_32BIT_MEMORY_PAGES;
use crate::runtime::{RunOutcome, RuntimeErrorKind, TrapErrorKind, WASM_MEM_PAGE_BYTE_SIZE, mem_bytes};
use crate::runtime::executor::{spec_block_arity, spec_scan_end, spec_scan_if, unwind_error, unwound};
use crate::runtime::instance::{ModuleEntry, ModuleInstance, ModuleRegistry};
use crate::runtime::numeric::{is_float_instr, spec_stack_op};
use crate::runtime::stack::{FrameV, Label};
use crate::runtime::store::{
    FuncAddr, FuncBody, FuncInstance, GlobalInstance, MemoryInstance, Store, effective_address, mem_access_ok,
    overwrite, resized, spec_mem_size,
};
use crate::runtime::value::{Ref, Value, default_values};

verus! {

/// What the executor asks of its caller after one step.
#[derive(Debug)]
pub enum Step {
    /// An instruction ran, or the frame moved past its last one.
    Continue,
    /// The call stack is empty.
    Done,
    /// A floating-point instruction, for the caller to perform on the value
    /// stack; the frame has already moved past it.
    Float(Instruction),
    /// A call of the host function of the given index, with these arguments,
    /// taken off the value stack; the caller pushes its results.
    Host(usize, Vec<Value>),
}

/// The model of a [`Step`].
pub enum StepV {
    Continue,
    Done,
    Float(InstrV),
    Host(usize, Seq<Value>),
}

impl View for Step {
    type V = StepV;

    open spec fn view(&self) -> StepV {
        match self {
            Step::Continue => StepV::Continue,
            Step::Done => StepV::Done,
            Step::Float(i) => StepV::Float(i@),
            Step::Host(h, args) => StepV::Host(*h, args@),
        }
    }
}

/// What a step does to the store besides reading it.
pub enum Effect {
    Nothing,
    /// The global at this address gets this value.
    SetGlobal(usize, Value),
    /// The memory at this address gets these bytes.
    WriteMem(usize, Seq<u8>),
    /// The data segment at this address is dropped.
    DropData(usize),
    /// The element segment at this address is dropped.
    DropElem(usize),
}

/// The state after a step: the value stack, the call stack, what happened
/// to the store, and what the caller is asked.
pub struct Next {
    pub values: Seq<Value>,
    pub frames: Seq<FrameV>,
    pub effect: Effect,
    pub step: StepV,
}

/// Whether the store `after` is `before` with an effect applied: the
/// functions and tables stay as they were, and so does every memory's
/// type, every segment's kind, and everything the effect does not name.
pub open spec fn store_effect(before: &Store, after: &Store, e: Effect) -> bool {
    &&& after.functions.spec_funcs() == before.functions.spec_funcs()
    &&& after.tables.0@ == before.tables.0@
    &&& after.memories.0@.len() == before.memories.0@.len()
    &&& forall|i: int| 0 <= i < before.memories.0@.len() ==> (#[trigger] after.memories.0@[i]).memtype == before.memories.0@[i].memtype
    &&& mem_bytes(after.memories.0@) == match e {
        Effect::WriteMem(a, bytes) => mem_bytes(before.memories.0@).update(a as int, bytes),
        _ => mem_bytes(before.memories.0@),
    }
    &&& after.globals.0@ == match e {
        Effect::SetGlobal(a, v) => before.globals.0@.update(
            a as int,
            GlobalInstance { globaltype: before.globals.0@[a as int].globaltype, value: v },
        ),
        _ => before.globals.0@,
    }
    &&& match e {
        Effect::DropData(a) => {
            &&& after.data.0@.len() == before.data.0@.len()
            &&& forall|i: int| 0 <= i < before.data.0@.len() && i != a ==> #[trigger] after.data.0@[i] == before.data.0@[i]
            &&& after.data.0@[a as int].spec_data() == Seq::<u8>::empty()
            &&& after.data.0@[a as int].spec_dropped()
        },
        _ => after.data.0@ == before.data.0@,
    }
    &&& match e {
        Effect::DropElem(a) => {
            &&& after.elements.0@.len() == before.elements.0@.len()
            &&& forall|i: int|
                0 <= i < before.elements.0@.len() && i != a ==> #[trigger] after.elements.0@[i] == before.elements.0@[i]
            &&& after.elements.0@[a as int].spec_elemtype() == before.elements.0@[a as int].spec_elemtype()
            &&& after.elements.0@[a as int].spec_refs() == Seq::<Ref>::empty()
            &&& after.elements.0@[a as int].spec_dropped()
        },
        _ => after.elements.0@ == before.elements.0@,
    }
}

/// An executable result and stacks that follow an outcome of the model.
pub open spec fn follows_next(o: RunOutcome<Next>, r: Result<Step, RuntimeErrorKind>, values: Seq<Value>, frames: Seq<FrameV>) -> bool {
    match o {
        RunOutcome::Gives(n) => r is Ok && r->Ok_0@ == n.step && values == n.values && frames == n.frames,
        RunOutcome::Fails(e) => r == Err::<Step, RuntimeErrorKind>(e),
        RunOutcome::Panics => false,
    }
}

/// The models of a sequence of instructions.
pub open spec fn code_view(body: Seq<Instruction>) -> Seq<InstrV> {
    body.map_values(|i: Instruction| i@)
}

/// Goes on with the given value stack and frame on top of the others.
pub open spec fn proceed(values: Seq<Value>, below: Seq<FrameV>, f: FrameV) -> RunOutcome<Next> {
    RunOutcome::Gives(Next { values, frames: below.push(f), effect: Effect::Nothing, step: StepV::Continue })
}

/// Goes on with the given frame on top and an effect on the store.
pub open spec fn proceed_with(values: Seq<Value>, below: Seq<FrameV>, f: FrameV, e: Effect) -> RunOutcome<Next> {
    RunOutcome::Gives(Next { values, frames: below.push(f), effect: e, step: StepV::Continue })
}

/// Unwinds the value stack to `sp`, keeping `arity` values, and goes on with
/// the given frames; the error of unwinding, where there is one.
pub open spec fn unwind_to(values: Seq<Value>, sp: usize, arity: u32, frames: Seq<FrameV>) -> RunOutcome<Next> {
    match unwind_error(values, sp as int, arity as int) {
        Some(e) => RunOutcome::Fails(e),
        None => RunOutcome::Gives(
            Next { values: unwound(values, sp as int, arity as int), frames, effect: Effect::Nothing, step: StepV::Continue },
        ),
    }
}

/// The `i32` on top of the value stack, if the top value is one.
pub open spec fn top_i32(values: Seq<Value>) -> Option<i32> {
    if values.len() > 0 && values.last() is I32 {
        Some(values.last()->I32_0)
    } else {
        None
    }
}

/// The error of a missing `i32` operand.
pub open spec fn i32_expected() -> RuntimeErrorKind {
    RuntimeErrorKind::Internal("assert, i32 expected on the stack")
}

/// Whether a block type names a type that the module has.
pub open spec fn block_type_ok(bt: BlockType, mi: ModuleInstance) -> bool {
    bt matches BlockType::Index(idx) ==> idx < mi.types@.len()
}

/// A branch `l` levels out of the innermost block of frame `f`: to one of its
/// labels, removing it and those inside it and keeping its branch arity of
/// values; or, one level beyond them, out of the function, keeping the
/// function's arity of values. A level beyond that panics.
pub open spec fn spec_branch(values: Seq<Value>, below: Seq<FrameV>, f: FrameV, l: u32) -> RunOutcome<Next> {
    let len = f.labels.len();
    if l > len {
        RunOutcome::Panics
    } else if l == len {
        unwind_to(values, f.sp, f.arity, below)
    } else {
        let label = f.labels[len - l - 1];
        unwind_to(values, label.sp, label.br_arity, below.push(FrameV { labels: f.labels.take(len - l - 1), pc: label.pc, ..f }))
    }
}

/// Whether an instruction is one of the structured control instructions.
pub open spec fn is_control(i: InstrV) -> bool {
    match i {
        InstrV::BrTable(_, _) => true,
        InstrV::Plain(x) => match x {
            Instruction::Block(_) | Instruction::Loop(_) | Instruction::If(_) | Instruction::Else | Instruction::End
            | Instruction::Br(_) | Instruction::BrIf(_) | Instruction::Return => true,
            _ => false,
        },
        _ => false,
    }
}

/// What a control instruction of frame `f` (already moved to it) does.
/// `body` is the code of the function, `mi` its module.
pub open spec fn spec_control(mi: ModuleInstance, body: Seq<InstrV>, values: Seq<Value>, below: Seq<FrameV>, f: FrameV, i: InstrV) -> RunOutcome<Next> {
    match i {
        InstrV::BrTable(labels, default) => match top_i32(values) {
            None => RunOutcome::Fails(i32_expected()),
            Some(k) => spec_branch(
                values.drop_last(),
                below,
                f,
                if (k as usize) < labels.len() {
                    labels[(k as usize) as int]
                } else {
                    default
                },
            ),
        },
        InstrV::Plain(Instruction::Block(bt)) => if !block_type_ok(bt, mi) || body.len() > isize::MAX {
            RunOutcome::Panics
        } else {
            let (np, nr) = spec_block_arity(bt, mi);
            match spec_scan_end(body, f.pc as int, 0) {
                None => RunOutcome::Panics,
                Some(end) => if values.len() < np {
                    RunOutcome::Panics
                } else {
                    let label = Label { br_arity: nr, end_arity: nr, pc: end as isize, sp: (values.len() - np) as usize };
                    proceed(values, below, FrameV { labels: f.labels.push(label), ..f })
                },
            }
        },
        InstrV::Plain(Instruction::Loop(bt)) => if !block_type_ok(bt, mi) {
            RunOutcome::Panics
        } else {
            let (np, nr) = spec_block_arity(bt, mi);
            if values.len() < np {
                RunOutcome::Panics
            } else {
                let label = Label { br_arity: np, end_arity: nr, pc: (f.pc - 1) as isize, sp: (values.len() - np) as usize };
                proceed(values, below, FrameV { labels: f.labels.push(label), ..f })
            }
        },
        InstrV::Plain(Instruction::If(bt)) => if !block_type_ok(bt, mi) || body.len() > isize::MAX {
            RunOutcome::Panics
        } else {
            let (np, nr) = spec_block_arity(bt, mi);
            match spec_scan_if(body, f.pc as int, 0, None) {
                None => RunOutcome::Panics,
                Some((end, else_)) => match top_i32(values) {
                    None => RunOutcome::Fails(i32_expected()),
                    Some(c) => {
                        let rest = values.drop_last();
                        if rest.len() < np {
                            RunOutcome::Panics
                        } else {
                            let label = Label { br_arity: nr, end_arity: nr, pc: end as isize, sp: (rest.len() - np) as usize };
                            let entered = FrameV { labels: f.labels.push(label), ..f };
                            if c != 0 {
                                proceed(rest, below, entered)
                            } else {
                                let pc = match else_ {
                                    Some(e) => e,
                                    None => end - 1,
                                };
                                proceed(rest, below, FrameV { pc: pc as isize, ..entered })
                            }
                        }
                    },
                },
            }
        },
        InstrV::Plain(Instruction::Else) => if f.labels.len() == 0 || f.labels.last().pc == isize::MIN {
            RunOutcome::Panics
        } else {
            proceed(values, below, FrameV { pc: (f.labels.last().pc - 1) as isize, ..f })
        },
        InstrV::Plain(Instruction::End) => if f.labels.len() > 0 {
            let label = f.labels.last();
            unwind_to(values, label.sp, label.end_arity, below.push(FrameV { labels: f.labels.drop_last(), ..f }))
        } else {
            unwind_to(values, f.sp, f.arity, below)
        },
        InstrV::Plain(Instruction::Br(l)) => spec_branch(values, below, f, l),
        InstrV::Plain(Instruction::BrIf(l)) => match top_i32(values) {
            None => RunOutcome::Fails(i32_expected()),
            Some(c) => if c != 0 {
                spec_branch(values.drop_last(), below, f, l)
            } else {
                proceed(values.drop_last(), below, f)
            },
        },
        InstrV::Plain(Instruction::Return) => unwind_to(values, f.sp, f.arity, below),
        _ => RunOutcome::Panics,
    }
}

/// A call of the function at address `a`: its arguments come off the value
/// stack; a function of a module gets a frame, with the arguments followed
/// by the default value of each local as its locals, and a host function is
/// handed to the caller with its arguments.
pub open spec fn spec_call(funcs: Seq<FuncInstance>, values: Seq<Value>, frames: Seq<FrameV>, a: FuncAddr) -> RunOutcome<Next> {
    if a.0 >= funcs.len() {
        RunOutcome::Panics
    } else {
        let g = funcs[a.0 as int];
        let n = g.ftype.params@.len();
        if values.len() < n {
            RunOutcome::Panics
        } else {
            let sp = values.len() - n;
            let args = values.subrange(sp, values.len() as int);
            match g.body {
                FuncBody::Wasm(w) => if exists|k: int| 0 <= k < w.locals@.len() && (#[trigger] w.locals@[k]) is V128 {
                    RunOutcome::Panics
                } else {
                    let frame = FrameV {
                        labels: Seq::empty(),
                        arity: g.ftype.results@.len() as u32,
                        funcaddr: a,
                        locals: args + default_values(w.locals@),
                        pc: -1isize,
                        sp: sp as usize,
                    };
                    RunOutcome::Gives(
                        Next { values: values.take(sp), frames: frames.push(frame), effect: Effect::Nothing, step: StepV::Continue },
                    )
                },
                FuncBody::Host(h) => RunOutcome::Gives(
                    Next { values: values.take(sp), frames, effect: Effect::Nothing, step: StepV::Host(h, args) },
                ),
            }
        }
    }
}

/// What a call or an indirect call of frame `f` does.
pub open spec fn spec_calls(store: &Store, mi: ModuleInstance, values: Seq<Value>, below: Seq<FrameV>, f: FrameV, i: InstrV) -> RunOutcome<Next> {
    let funcs = store.functions.spec_funcs();
    match i {
        InstrV::Plain(Instruction::Call(idx)) => if idx >= mi.funcs@.len() {
            RunOutcome::Panics
        } else {
            spec_call(funcs, values, below.push(f), mi.funcs@[idx as int])
        },
        InstrV::Plain(Instruction::CallIndirect((ty, tab))) => if tab >= mi.tables@.len() {
            RunOutcome::Fails(RuntimeErrorKind::Internal("undefined table"))
        } else if ty >= mi.types@.len() {
            RunOutcome::Panics
        } else {
            match top_i32(values) {
                None => RunOutcome::Fails(i32_expected()),
                Some(k) => {
                    let refs = store.tables.0@[mi.tables@[tab as int].0 as int].refs@;
                    if (k as usize) >= refs.len() {
                        RunOutcome::Fails(RuntimeErrorKind::Trap(TrapErrorKind::OutOfBoundsTableAccess))
                    } else {
                        match refs[(k as usize) as int] {
                            Ref::Null(_) => RunOutcome::Fails(RuntimeErrorKind::Trap(TrapErrorKind::UninitializedElement)),
                            Ref::Extern(_) => RunOutcome::Fails(RuntimeErrorKind::Internal("assert: expected func ref")),
                            Ref::Func(a) => if a.0 >= funcs.len() {
                                RunOutcome::Panics
                            } else if funcs[a.0 as int].ftype@ != mi@.types[ty as int] {
                                RunOutcome::Fails(RuntimeErrorKind::Trap(TrapErrorKind::IndirectCallTypeMismatch))
                            } else {
                                spec_call(funcs, values.drop_last(), below.push(f), a)
                            },
                        }
                    }
                },
            }
        },
        _ => RunOutcome::Panics,
    }
}

/// The error of a missing value.
pub open spec fn value_expected() -> RuntimeErrorKind {
    RuntimeErrorKind::Internal("assert, value expected on the stack")
}

/// What an instruction on a local or a global of frame `f` does.
pub open spec fn spec_variable(globals: Seq<GlobalInstance>, mi: ModuleInstance, values: Seq<Value>, below: Seq<FrameV>, f: FrameV, x: Instruction) -> RunOutcome<Next> {
    match x {
        Instruction::LocalGet(idx) => if idx >= f.locals.len() {
            RunOutcome::Fails(RuntimeErrorKind::Internal("local index out of bounds"))
        } else {
            proceed(values.push(f.locals[idx as int]), below, f)
        },
        Instruction::LocalSet(idx) => if values.len() == 0 {
            RunOutcome::Fails(value_expected())
        } else if idx >= f.locals.len() {
            RunOutcome::Fails(RuntimeErrorKind::Internal("local index out of bounds"))
        } else {
            proceed(values.drop_last(), below, FrameV { locals: f.locals.update(idx as int, values.last()), ..f })
        },
        Instruction::LocalTee(idx) => if values.len() == 0 {
            RunOutcome::Fails(value_expected())
        } else if idx >= f.locals.len() {
            RunOutcome::Fails(RuntimeErrorKind::Internal("local index out of bounds"))
        } else {
            proceed(values, below, FrameV { locals: f.locals.update(idx as int, values.last()), ..f })
        },
        Instruction::GlobalGet(idx) => if idx >= mi.globals@.len() {
            RunOutcome::Fails(RuntimeErrorKind::Internal("undefined global"))
        } else {
            proceed(values.push(globals[mi.globals@[idx as int].0 as int].value), below, f)
        },
        Instruction::GlobalSet(idx) => if values.len() == 0 {
            RunOutcome::Panics
        } else if idx >= mi.globals@.len() {
            RunOutcome::Fails(RuntimeErrorKind::Internal("undefined global"))
        } else {
            proceed_with(values.drop_last(), below, f, Effect::SetGlobal(mi.globals@[idx as int].0, values.last()))
        },
        _ => RunOutcome::Panics,
    }
}

/// The number that bytes stand for, least significant first.
pub open spec fn le_value(bytes: Seq<u8>) -> nat
    decreases bytes.len(),
{
    if bytes.len() == 0 {
        0
    } else {
        (bytes[0] + 256 * le_value(bytes.subrange(1, bytes.len() as int))) as nat
    }
}

/// The `n` least significant bytes of a number, least significant first.
pub open spec fn le_bytes(x: nat, n: nat) -> Seq<u8>
    decreases n,
{
    if n == 0 {
        Seq::empty()
    } else {
        seq![(x % 256) as u8] + le_bytes(x / 256, (n - 1) as nat)
    }
}

/// The number of bytes a load reads; zero for other instructions.
pub open spec fn load_width(x: Instruction) -> nat {
    match x {
        Instruction::I32Load(_) | Instruction::F32Load(_) | Instruction::I64Load32S(_) | Instruction::I64Load32U(_) => 4,
        Instruction::I64Load(_) | Instruction::F64Load(_) => 8,
        Instruction::I32Load8S(_) | Instruction::I32Load8U(_) | Instruction::I64Load8S(_) | Instruction::I64Load8U(_) => 1,
        Instruction::I32Load16S(_) | Instruction::I32Load16U(_) | Instruction::I64Load16S(_) | Instruction::I64Load16U(_) => 2,
        _ => 0,
    }
}

/// The value a load makes of the number it read: sign-extended for the
/// signed loads, zero-extended for the others.
pub open spec fn load_value(x: Instruction, u: nat) -> Value {
    match x {
        Instruction::I32Load(_) => Value::I32(u as i32),
        Instruction::I64Load(_) => Value::I64(u as i64),
        Instruction::F32Load(_) => Value::F32(u as u32),
        Instruction::F64Load(_) => Value::F64(u as u64),
        Instruction::I32Load8S(_) => Value::I32((u as i8) as i32),
        Instruction::I32Load16S(_) => Value::I32((u as i16) as i32),
        Instruction::I64Load8S(_) => Value::I64((u as i8) as i64),
        Instruction::I64Load16S(_) => Value::I64((u as i16) as i64),
        Instruction::I64Load32S(_) => Value::I64((u as i32) as i64),
        Instruction::I32Load8U(_) | Instruction::I32Load16U(_) => Value::I32(u as i32),
        _ => Value::I64(u as i64),
    }
}

/// The number of bytes a store writes; zero for other instructions.
pub open spec fn store_width(x: Instruction) -> nat {
    match x {
        Instruction::I32Store(_) | Instruction::F32Store(_) | Instruction::I64Store32(_) => 4,
        Instruction::I64Store(_) | Instruction::F64Store(_) => 8,
        Instruction::I32Store8(_) | Instruction::I64Store8(_) => 1,
        Instruction::I32Store16(_) | Instruction::I64Store16(_) => 2,
        _ => 0,
    }
}

/// The bits a store writes of a value, as an unsigned number; none for a
/// value of another type than the store's.
pub open spec fn store_bits(x: Instruction, v: Value) -> Option<nat> {
    match (x, v) {
        (Instruction::I32Store(_), Value::I32(a)) => Some((a as u32) as nat),
        (Instruction::I32Store8(_), Value::I32(a)) => Some((a as u32) as nat),
        (Instruction::I32Store16(_), Value::I32(a)) => Some((a as u32) as nat),
        (Instruction::I64Store(_), Value::I64(a)) => Some((a as u64) as nat),
        (Instruction::I64Store8(_), Value::I64(a)) => Some((a as u64) as nat),
        (Instruction::I64Store16(_), Value::I64(a)) => Some((a as u64) as nat),
        (Instruction::I64Store32(_), Value::I64(a)) => Some((a as u64) as nat),
        (Instruction::F32Store(_), Value::F32(b)) => Some(b as nat),
        (Instruction::F64Store(_), Value::F64(b)) => Some(b as nat),
        _ => None,
    }
}

/// The offset of a load or a store.
pub open spec fn access_offset(x: Instruction) -> u32 {
    match x {
        Instruction::I32Load(m) | Instruction::I64Load(m) | Instruction::F32Load(m) | Instruction::F64Load(m)
        | Instruction::I32Load8S(m) | Instruction::I32Load8U(m) | Instruction::I32Load16S(m) | Instruction::I32Load16U(m)
        | Instruction::I64Load8S(m) | Instruction::I64Load8U(m) | Instruction::I64Load16S(m) | Instruction::I64Load16U(m)
        | Instruction::I64Load32S(m) | Instruction::I64Load32U(m) | Instruction::I32Store(m) | Instruction::I64Store(m)
        | Instruction::F32Store(m) | Instruction::F64Store(m) | Instruction::I32Store8(m) | Instruction::I32Store16(m)
        | Instruction::I64Store8(m) | Instruction::I64Store16(m) | Instruction::I64Store32(m) => m.offset,
        _ => 0,
    }
}

/// Whether the sizes of the largest memory fit a `usize`.
pub open spec fn memory_fits() -> bool {
    MAX_WASM_32BIT_MEMORY_PAGES * WASM_MEM_PAGE_BYTE_SIZE <= usize::MAX
}

/// What an instruction on memory of frame `f` does. Loads and stores use
/// the module's first memory; a module without one panics.
pub open spec fn spec_memory(mems: Seq<MemoryInstance>, mi: ModuleInstance, values: Seq<Value>, below: Seq<FrameV>, f: FrameV, x: Instruction) -> RunOutcome<Next> {
    match x {
        Instruction::MemorySize(idx) => if idx.0 >= mi.mems@.len() {
            RunOutcome::Panics
        } else {
            let data = mems[mi.mems@[idx.0 as int].0 as int].data@;
            proceed(values.push(Value::I32(spec_mem_size(data) as i32)), below, f)
        },
        Instruction::MemoryGrow(idx) => match top_i32(values) {
            None => RunOutcome::Fails(RuntimeErrorKind::Internal("memory.grow, invalid argument type")),
            Some(k) => if idx.0 >= mi.mems@.len() || !memory_fits() {
                RunOutcome::Panics
            } else {
                let a = mi.mems@[idx.0 as int].0;
                let m = mems[a as int];
                let sz = spec_mem_size(m.data@);
                let new_sz = sz + (k as u32);
                if new_sz > MAX_WASM_32BIT_MEMORY_PAGES || (m.memtype.0.max is Some && new_sz > m.memtype.0.max->Some_0) {
                    proceed_with(values.drop_last().push(Value::I32(-1i32)), below, f, Effect::WriteMem(a, m.data@))
                } else {
                    proceed_with(
                        values.drop_last().push(Value::I32(sz as i32)),
                        below,
                        f,
                        Effect::WriteMem(a, resized(m.data@, new_sz * WASM_MEM_PAGE_BYTE_SIZE, 0u8)),
                    )
                }
            },
        },
        _ => if load_width(x) > 0 {
            match top_i32(values) {
                None => RunOutcome::Fails(i32_expected()),
                Some(base) => if mi.mems@.len() == 0 {
                    RunOutcome::Panics
                } else {
                    let data = mems[mi.mems@[0].0 as int].data@;
                    let n = load_width(x);
                    if !mem_access_ok(data, base, access_offset(x), n as usize) {
                        RunOutcome::Fails(RuntimeErrorKind::Trap(TrapErrorKind::OutOfBoundsMemoryAccess))
                    } else {
                        let ea = effective_address(base, access_offset(x))->Some_0;
                        proceed(values.drop_last().push(load_value(x, le_value(data.subrange(ea, ea + n)))), below, f)
                    }
                },
            }
        } else if store_width(x) > 0 {
            if values.len() == 0 || store_bits(x, values.last()) is None {
                RunOutcome::Panics
            } else {
                let rest = values.drop_last();
                match top_i32(rest) {
                    None => RunOutcome::Fails(i32_expected()),
                    Some(base) => if mi.mems@.len() == 0 {
                        RunOutcome::Panics
                    } else {
                        let a = mi.mems@[0].0;
                        let data = mems[a as int].data@;
                        let n = store_width(x);
                        if !mem_access_ok(data, base, access_offset(x), n as usize) {
                            RunOutcome::Fails(RuntimeErrorKind::Trap(TrapErrorKind::OutOfBoundsMemoryAccess))
                        } else {
                            let ea = effective_address(base, access_offset(x))->Some_0;
                            let bytes = le_bytes(store_bits(x, values.last())->Some_0, n);
                            proceed_with(rest.drop_last(), below, f, Effect::WriteMem(a, overwrite(data, ea, bytes)))
                        }
                    },
                }
            }
        } else {
            RunOutcome::Panics
        },
    }
}

/// Whether an instruction works on locals or globals.
pub open spec fn is_variable(x: Instruction) -> bool {
    match x {
        Instruction::LocalGet(_) | Instruction::LocalSet(_) | Instruction::LocalTee(_) | Instruction::GlobalGet(_)
        | Instruction::GlobalSet(_) => true,
        _ => false,
    }
}

/// Whether an instruction works on memory.
pub open spec fn is_memory(x: Instruction) -> bool {
    x is MemorySize || x is MemoryGrow || load_width(x) > 0 || store_width(x) > 0
}

/// What the instruction `i` of frame `f` (already moved to it) does; `body`
/// is the code of the function, `mi` its module. Instructions that the
/// executor does not run panic.
pub open spec fn spec_instr(store: &Store, mi: ModuleInstance, body: Seq<InstrV>, values: Seq<Value>, below: Seq<FrameV>, f: FrameV, i: InstrV) -> RunOutcome<Next> {
    match spec_stack_op(i, values) {
        Some(o) => match o {
            RunOutcome::Panics => RunOutcome::Panics,
            RunOutcome::Fails(e) => RunOutcome::Fails(e),
            RunOutcome::Gives(s) => proceed(s, below, f),
        },
        None => if is_control(i) {
            spec_control(mi, body, values, below, f, i)
        } else {
            match i {
                InstrV::Plain(x) => if is_float_instr(x) {
                    RunOutcome::Gives(Next { values, frames: below.push(f), effect: Effect::Nothing, step: StepV::Float(i) })
                } else if is_variable(x) {
                    spec_variable(store.globals.0@, mi, values, below, f, x)
                } else if is_memory(x) {
                    spec_memory(store.memories.0@, mi, values, below, f, x)
                } else {
                    match x {
                        Instruction::Unreachable => RunOutcome::Fails(RuntimeErrorKind::Trap(TrapErrorKind::Unreachable)),
                        Instruction::Nop => proceed(values, below, f),
                        Instruction::Call(_) | Instruction::CallIndirect(_) => spec_calls(store, mi, values, below, f, i),
                        Instruction::DataDrop(idx) => if idx >= mi.datas@.len() {
                            RunOutcome::Panics
                        } else {
                            proceed_with(values, below, f, Effect::DropData(mi.datas@[idx as int].0))
                        },
                        Instruction::ElemDrop(idx) => if idx >= mi.elems@.len() {
                            RunOutcome::Panics
                        } else {
                            proceed_with(values, below, f, Effect::DropElem(mi.elems@[idx as int].0))
                        },
                        _ => RunOutcome::Panics,
                    }
                },
                _ => RunOutcome::Panics,
            }
        },
    }
}

/// One step of the executor on the call stack `frames`: none left is done;
/// otherwise the frame on top moves to its next instruction and runs it, or,
/// past the end of its code, simply goes on. A frame whose function is not
/// in the store, is a host function, or belongs to no module instance
/// panics, as does a `pc` that cannot move on.
pub open spec fn spec_step(store: &Store, reg: &ModuleRegistry, values: Seq<Value>, frames: Seq<FrameV>) -> RunOutcome<Next> {
    if frames.len() == 0 {
        RunOutcome::Gives(Next { values, frames, effect: Effect::Nothing, step: StepV::Done })
    } else {
        let f = frames.last();
        let below = frames.drop_last();
        let funcs = store.functions.spec_funcs();
        if f.funcaddr.0 >= funcs.len() || !(funcs[f.funcaddr.0 as int].body is Wasm) || f.pc == isize::MAX {
            RunOutcome::Panics
        } else {
            let g = funcs[f.funcaddr.0 as int];
            let h = g.module.index();
            if !(h < reg.spec_entries().len() && reg.spec_entries()[h as int] matches Some(ModuleEntry::Wasm(_))) {
                RunOutcome::Panics
            } else {
                let mi = reg.spec_entries()[h as int]->Some_0->Wasm_0;
                let body = code_view(g.body->Wasm_0.expr@);
                let pc = f.pc + 1;
                let moved = FrameV { pc: pc as isize, ..f };
                if pc < 0 || pc >= body.len() {
                    proceed(values, below, moved)
                } else {
                    spec_instr(store, mi, body, values, below, moved, body[pc])
                }
            }
        }
    }
}

/// Entering a block or an `if` pushes a label whose branch and end arities
/// are both the block's number of results; entering a loop pushes one whose
/// branch arity is its number of parameters and whose end arity its number
/// of results.
pub proof fn lemma_entered_label_arities(
    mi: ModuleInstance,
    body: Seq<InstrV>,
    values: Seq<Value>,
    below: Seq<FrameV>,
    f: FrameV,
    bt: BlockType,
    x: Instruction,
)
    requires
        x == Instruction::Block(bt) || x == Instruction::Loop(bt) || x == Instruction::If(bt),
        spec_control(mi, body, values, below, f, InstrV::Plain(x)) is Gives,
    ensures
        ({
            let n = spec_control(mi, body, values, below, f, InstrV::Plain(x))->Gives_0;
            let (np, nr) = spec_block_arity(bt, mi);
            &&& n.frames.len() == below.len() + 1
            &&& n.frames.last().labels.len() == f.labels.len() + 1
            &&& n.frames.last().labels.drop_last() == f.labels
            &&& n.frames.last().labels.last().br_arity == if x is Loop {
                np
            } else {
                nr
            }
            &&& n.frames.last().labels.last().end_arity == nr
        }),
{
    let n = spec_control(mi, body, values, below, f, InstrV::Plain(x))->Gives_0;
    assert(n.frames.last().labels.drop_last() =~= f.labels);
}

/// The number bytes stand for, read back from the bytes of a number, is the
/// number cut to as many bytes.
pub proof fn lemma_le_value_bytes(x: nat, n: nat)
    ensures
        le_value(le_bytes(x, n)) == x % crate::runtime::executor::pow256(n),
        le_bytes(x, n).len() == n,
    decreases n,
{
    if n > 0 {
        let b = le_bytes(x, n);
        lemma_le_value_bytes(x / 256, (n - 1) as nat);
        assert(b.subrange(1, b.len() as int) =~= le_bytes(x / 256, (n - 1) as nat));
        let p = crate::runtime::executor::pow256((n - 1) as nat);
        assert(p > 0) by {
            lemma_pow256_positive((n - 1) as nat);
        }
        assert((x % 256) + 256 * ((x / 256) % p) == x % (256 * p)) by (nonlinear_arith)
            requires
                p > 0,
        {
            vstd::arithmetic::div_mod::lemma_breakdown(x as int, 256, p as int);
        }
    }
}

proof fn lemma_pow256_positive(n: nat)
    ensures
        crate::runtime::executor::pow256(n) > 0,
    decreases n,
{
    if n > 0 {
        lemma_pow256_positive((n - 1) as nat);
    }
}

/// Whether a store and a load move a value of the same type, in full, with
/// the same offset.
pub open spec fn full_width_pair(st: Instruction, ld: Instruction, v: Value) -> bool {
    match (st, ld, v) {
        (Instruction::I32Store(m1), Instruction::I32Load(m2), Value::I32(_)) => m1 == m2,
        (Instruction::I64Store(m1), Instruction::I64Load(m2), Value::I64(_)) => m1 == m2,
        (Instruction::F32Store(m1), Instruction::F32Load(m2), Value::F32(_)) => m1 == m2,
        (Instruction::F64Store(m1), Instruction::F64Load(m2), Value::F64(_)) => m1 == m2,
        _ => false,
    }
}

/// What a store writes, a load of the same width at the same address reads
/// back: a full-width store of a value and then the load of its type, at one
/// address, give the stored value.
pub proof fn lemma_store_then_load(
    mems: Seq<MemoryInstance>,
    after: Seq<MemoryInstance>,
    mi: ModuleInstance,
    values: Seq<Value>,
    below: Seq<FrameV>,
    f: FrameV,
    g: FrameV,
    st: Instruction,
    ld: Instruction,
    base: i32,
    v: Value,
)
    requires
        full_width_pair(st, ld, v),
        spec_memory(mems, mi, values.push(Value::I32(base)).push(v), below, f, st) is Gives,
        after.len() == mems.len(),
        mi.mems@.len() > 0,
        mi.mems@[0].0 < mems.len(),
        after[mi.mems@[0].0 as int].data@ == spec_memory(mems, mi, values.push(Value::I32(base)).push(v), below, f, st)->Gives_0.effect->WriteMem_1,
    ensures
        spec_memory(after, mi, values.push(Value::I32(base)), below, g, ld) == proceed(values.push(v), below, g),
{
    let s = values.push(Value::I32(base)).push(v);
    let a = mi.mems@[0].0;
    let data = mems[a as int].data@;
    let n = store_width(st);
    let u = store_bits(st, v)->Some_0;
    let ea = effective_address(base, access_offset(st))->Some_0;
    lemma_le_value_bytes(u, n);
    let bytes = le_bytes(u, n);
    assert(s.drop_last() =~= values.push(Value::I32(base)));
    assert(s.drop_last().drop_last() =~= values);
    assert(values.push(Value::I32(base)).drop_last() =~= values);
    assert(overwrite(data, ea, bytes).subrange(ea, ea + n) =~= bytes);
    reveal_with_fuel(crate::runtime::executor::pow256, 9);
    match v {
        Value::I32(x) => {
            assert(crate::runtime::executor::pow256(4) == 0x1_0000_0000);
            vstd::arithmetic::div_mod::lemma_small_mod(u, 0x1_0000_0000);
            assert(((x as u32) as i32) == x) by (bit_vector);
        },
        Value::I64(x) => {
            assert(crate::runtime::executor::pow256(8) == 0x1_0000_0000_0000_0000);
            vstd::arithmetic::div_mod::lemma_small_mod(u, 0x1_0000_0000_0000_0000);
            assert(((x as u64) as i64) == x) by (bit_vector);
        },
        Value::F32(b) => {
            assert(crate::runtime::executor::pow256(4) == 0x1_0000_0000);
            vstd::arithmetic::div_mod::lemma_small_mod(u, 0x1_0000_0000);
        },
        Value::F64(b) => {
            assert(crate::runtime::executor::pow256(8) == 0x1_0000_0000_0000_0000);
            vstd::arithmetic::div_mod::lemma_small_mod(u, 0x1_0000_0000_0000_0000);
        },
        _ => {},
    }
}

/// What `global.set` writes, `global.get` of the same global reads back.
pub proof fn lemma_global_set_then_get(
    globals: Seq<GlobalInstance>,
    mi: ModuleInstance,
    values: Seq<Value>,
    below: Seq<FrameV>,
    f: FrameV,
    g: FrameV,
    idx: u32,
    v: Value,
)
    requires
        spec_variable(globals, mi, values.push(v), below, f, Instruction::GlobalSet(idx)) is Gives,
        mi.globals@[idx as int].0 < globals.len(),
    ensures
        ({
            let n = spec_variable(globals, mi, values.push(v), below, f, Instruction::GlobalSet(idx))->Gives_0;
            let a = n.effect->SetGlobal_0;
            let after = globals.update(a as int, GlobalInstance { globaltype: globals[a as int].globaltype, value: n.effect->SetGlobal_1 });
            &&& n.values == values
            &&& spec_variable(after, mi, n.values, below, g, Instruction::GlobalGet(idx)) == proceed(values.push(v), below, g)
        }),
{
    assert(values.push(v).drop_last() =~= values);
}

/// What `local.set` writes, `local.get` of the same local reads back.
pub proof fn lemma_local_set_then_get(
    globals: Seq<GlobalInstance>,
    mi: ModuleInstance,
    values: Seq<Value>,
    below: Seq<FrameV>,
    f: FrameV,
    idx: u32,
    v: Value,
)
    requires
        spec_variable(globals, mi, values.push(v), below, f, Instruction::LocalSet(idx)) is Gives,
    ensures
        ({
            let n = spec_variable(globals, mi, values.push(v), below, f, Instruction::LocalSet(idx))->Gives_0;
            &&& n.values == values
            &&& n.frames.drop_last() == below
            &&& spec_variable(globals, mi, n.values, below, n.frames.last(), Instruction::LocalGet(idx)) == proceed(
                values.push(v),
                below,
                n.frames.last(),
            )
        }),
{
    assert(values.push(v).drop_last() =~= values);
    let n = spec_variable(globals, mi, values.push(v), below, f, Instruction::LocalSet(idx))->Gives_0;
    assert(n.frames.drop_last() =~= below);
}

} // verus!
