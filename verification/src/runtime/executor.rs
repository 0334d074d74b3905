//! The executor: finding the end of blocks, the arity of blocks, unwinding
//! the value stack, branching, calling functions, and running an execution
//! one step at a time.
use vstd::prelude::*;

use crate::binary::types::{BlockType, MemIndex};
use crate::instructions::{InstrV, Instruction};
use crate::runtime::{
    RunOutcome, Runtime, RuntimeErrorKind, TrapErrorKind, entry_in_store, instance_in_store, lemma_entry_in_grown_store,
    mem_bytes, store_grows,
};
use crate::runtime::instance::ModuleInstance;
use crate::runtime::machine::{
    Effect, Next, Step, follows_next, is_control, is_memory, is_variable, le_bytes, le_value, load_value, load_width,
    spec_call, spec_calls, spec_control, spec_memory, spec_step, spec_variable, store_bits, store_effect, store_width,
};
use crate::runtime::numeric::{exec_stack_op, float_instr};
use crate::runtime::stack::{Frame, FrameV, Label, frames_view, lemma_frames_drop_last, lemma_frames_push};
use crate::runtime::store::{FuncAddr, FuncBody, Globals, Memories, Store};
use crate::runtime::value::{Value, default_values};

verus! {

/// How an instruction changes the nesting depth of blocks: one more for a
/// block, loop or if, one less for an end.
pub open spec fn depth_delta(i: InstrV) -> int {
    match i {
        InstrV::Plain(Instruction::Block(_)) | InstrV::Plain(Instruction::Loop(_)) | InstrV::Plain(
            Instruction::If(_),
        ) => 1,
        InstrV::Plain(Instruction::End) => -1,
        _ => 0,
    }
}

/// The index of the first instruction from `i` at which the depth, starting
/// at `depth`, comes back to zero; none when the instructions run out first.
pub open spec fn spec_scan_end(instrs: Seq<InstrV>, i: int, depth: int) -> Option<int>
    decreases instrs.len() - i,
{
    if i < 0 || i >= instrs.len() {
        None
    } else if depth + depth_delta(instrs[i]) == 0 {
        Some(i)
    } else {
        spec_scan_end(instrs, i + 1, depth + depth_delta(instrs[i]))
    }
}

/// The same scan, which also notes the last `else` met at depth one: the
/// `else` of the `if` the scan starts at.
pub open spec fn spec_scan_if(instrs: Seq<InstrV>, i: int, depth: int, else_: Option<int>) -> Option<(int, Option<int>)>
    decreases instrs.len() - i,
{
    if i < 0 || i >= instrs.len() {
        None
    } else {
        let d = depth + depth_delta(instrs[i]);
        let e = if instrs[i] == InstrV::Plain(Instruction::Else) && depth == 1 {
            Some(i)
        } else {
            else_
        };
        if d == 0 {
            Some((i, e))
        } else {
            spec_scan_if(instrs, i + 1, d, e)
        }
    }
}

/// The model of a slice of instructions.
pub open spec fn instrs_view(instrs: &[Instruction]) -> Seq<InstrV> {
    instrs@.map_values(|i: Instruction| i@)
}

/// The numbers of parameters and results of a block type.
pub open spec fn spec_block_arity(bt: BlockType, mi: ModuleInstance) -> (u32, u32) {
    match bt {
        BlockType::Empty => (0, 0),
        BlockType::Value(_) => (0, 1),
        BlockType::Index(idx) => {
            let ftype = mi@.types[idx as int];
            (ftype.params.len() as u32, ftype.results.len() as u32)
        },
    }
}

/// The value stack after unwinding to `sp`, keeping the top `arity` values.
pub open spec fn unwound(stack: Seq<Value>, sp: int, arity: int) -> Seq<Value> {
    stack.take(sp) + stack.subrange(stack.len() - arity, stack.len() as int)
}

/// The error of unwinding, where there is one: fewer values than the
/// arity, or the values kept would lie below `sp`.
pub open spec fn unwind_error(stack: Seq<Value>, sp: int, arity: int) -> Option<RuntimeErrorKind> {
    if stack.len() < arity {
        Some(RuntimeErrorKind::Internal("unwinding {arity} value from stack with len {stack_len}"))
    } else if stack.len() - arity < sp {
        Some(RuntimeErrorKind::Internal("unwinding past stack pointer"))
    } else {
        None
    }
}

/// Finds the index of the `end` of the block or loop at `idx`.
pub fn find_block_end(instrs: &[Instruction], idx: isize) -> (r: isize)
    requires
        0 <= idx < instrs@.len(),
        instrs@[idx as int] matches Instruction::Block(_) || instrs@[idx as int] matches Instruction::Loop(_),
        spec_scan_end(instrs_view(instrs), idx as int, 0) is Some,
        instrs@.len() <= isize::MAX,
    ensures
        r as int == spec_scan_end(instrs_view(instrs), idx as int, 0)->Some_0,
{
    let ghost v = instrs_view(instrs);
    let mut depth: i64 = 0;
    let mut i: usize = idx as usize;
    while i < instrs.len()
        invariant
            v == instrs_view(instrs),
            idx as int <= i <= instrs@.len(),
            0 <= depth <= i - idx,
            spec_scan_end(v, i as int, depth as int) == spec_scan_end(v, idx as int, 0),
            spec_scan_end(v, idx as int, 0) is Some,
            instrs@.len() <= isize::MAX,
            i > idx ==> depth >= 1,
            i == idx ==> depth == 0,
            i == idx ==> (instrs@[idx as int] matches Instruction::Block(_) || instrs@[idx as int] matches Instruction::Loop(_)),
        decreases instrs@.len() - i,
    {
        proof {
            assert(v[i as int] == instrs@[i as int]@);
        }
        match &instrs[i] {
            Instruction::Block(_) | Instruction::Loop(_) | Instruction::If(_) => {
                depth = depth + 1;
            },
            Instruction::End => {
                depth = depth - 1;
            },
            _ => {},
        }
        if depth == 0 {
            return i as isize;
        }
        proof {
            assert(depth >= 0);
        }
        i = i + 1;
    }
    proof {
        assert(spec_scan_end(v, i as int, depth as int) is None);
        assert(false);
    }
    0
}


/// Finds the index of the `end` of the `if` at `idx`, and of its `else`.
pub fn find_if_else_end(instrs: &[Instruction], idx: isize) -> (r: (isize, Option<isize>))
    requires
        0 <= idx < instrs@.len(),
        instrs@[idx as int] matches Instruction::If(_),
        spec_scan_if(instrs_view(instrs), idx as int, 0, None) is Some,
        instrs@.len() <= isize::MAX,
    ensures
        ({
            let (end, else_) = spec_scan_if(instrs_view(instrs), idx as int, 0, None)->Some_0;
            &&& r.0 as int == end
            &&& match r.1 {
                Some(e) => else_ == Some(e as int),
                None => else_ is None,
            }
        }),
{
    let ghost v = instrs_view(instrs);
    let mut depth: i64 = 0;
    let mut else_: Option<isize> = None;
    let mut i: usize = idx as usize;
    while i < instrs.len()
        invariant
            v == instrs_view(instrs),
            idx as int <= i <= instrs@.len(),
            0 <= depth <= i - idx,
            spec_scan_if(
                v,
                i as int,
                depth as int,
                match else_ {
                    Some(e) => Some(e as int),
                    None => None,
                },
            ) == spec_scan_if(v, idx as int, 0, None),
            spec_scan_if(v, idx as int, 0, None) is Some,
            instrs@.len() <= isize::MAX,
            i > idx ==> depth >= 1,
            i == idx ==> depth == 0 && else_ is None,
            i == idx ==> instrs@[idx as int] matches Instruction::If(_),
        decreases instrs@.len() - i,
    {
        proof {
            assert(v[i as int] == instrs@[i as int]@);
        }
        match &instrs[i] {
            Instruction::Block(_) | Instruction::Loop(_) | Instruction::If(_) => {
                depth = depth + 1;
            },
            Instruction::End => {
                depth = depth - 1;
            },
            Instruction::Else => {
                if depth == 1 {
                    else_ = Some(i as isize);
                }
            },
            _ => {},
        }
        if depth == 0 {
            return (i as isize, else_);
        }
        i = i + 1;
    }
    proof {
        assert(false);
    }
    (0, None)
}

/// The numbers of parameters and results of a block type.
pub fn block_arity(bt: &BlockType, module_inst: &ModuleInstance) -> (r: (u32, u32))
    requires
        bt matches BlockType::Index(idx) ==> idx < module_inst.types@.len(),
    ensures
        r == spec_block_arity(*bt, *module_inst),
{
    match bt {
        BlockType::Empty => (0, 0),
        BlockType::Value(_) => (0, 1),
        BlockType::Index(idx) => {
            let ftype = &module_inst.types[*idx as usize];
            proof {
                assert(module_inst@.types[*idx as int] == ftype@);
            }
            (ftype.params.len() as u32, ftype.results.len() as u32)
        },
    }
}

/// Unwinds the value stack to `sp`, keeping the top `arity` values above it.
pub fn unwind_value_stack(value_stack: &mut Vec<Value>, sp: usize, arity: u32) -> (r: Result<(), RuntimeErrorKind>)
    ensures
        match unwind_error(old(value_stack)@, sp as int, arity as int) {
            Some(e) => r == Err::<(), RuntimeErrorKind>(e) && final(value_stack)@ == old(value_stack)@,
            None => r is Ok && final(value_stack)@ == unwound(old(value_stack)@, sp as int, arity as int),
        },
{
    let arity = arity as usize;
    let stack_len = value_stack.len();
    if stack_len < arity {
        return Err(RuntimeErrorKind::Internal("unwinding {arity} value from stack with len {stack_len}"));
    }
    let results_idx = stack_len - arity;
    if results_idx < sp {
        return Err(RuntimeErrorKind::Internal("unwinding past stack pointer"));
    }
    let ghost s0 = value_stack@;
    let mut k: usize = 0;
    while k < arity
        invariant
            k <= arity,
            s0 == old(value_stack)@,
            stack_len == s0.len(),
            results_idx == stack_len - arity,
            sp <= results_idx,
            value_stack@.len() == s0.len(),
            forall|q: int| 0 <= q < sp ==> #[trigger] value_stack@[q] == s0[q],
            forall|q: int| sp <= q < sp + k ==> #[trigger] value_stack@[q] == s0[results_idx + q - sp],
            forall|q: int| results_idx + k <= q < s0.len() ==> #[trigger] value_stack@[q] == s0[q],
        decreases arity - k,
    {
        let v = value_stack[results_idx + k];
        value_stack.set(sp + k, v);
        k = k + 1;
    }
    value_stack.truncate(sp + arity);
    proof {
        assert(value_stack@ =~= unwound(s0, sp as int, arity as int));
    }
    Ok(())
}

/// Pops an `i32`.
pub fn pop_i32(value_stack: &mut Vec<Value>) -> (r: Result<i32, RuntimeErrorKind>)
    ensures
        final(value_stack)@ == if old(value_stack)@.len() > 0 {
            old(value_stack)@.drop_last()
        } else {
            old(value_stack)@
        },
        r == if old(value_stack)@.len() > 0 && old(value_stack)@.last() matches Value::I32(v) {
            Ok::<i32, RuntimeErrorKind>(old(value_stack)@.last()->I32_0)
        } else {
            Err(RuntimeErrorKind::Internal("assert, i32 expected on the stack"))
        },
{
    match value_stack.pop() {
        Some(v) => match v.as_i32() {
            Some(x) => Ok(x),
            None => Err(RuntimeErrorKind::Internal("assert, i32 expected on the stack")),
        },
        None => Err(RuntimeErrorKind::Internal("assert, i32 expected on the stack")),
    }
}

/// Pops an `i32` as a condition.
pub fn pop_bool(value_stack: &mut Vec<Value>) -> (r: Result<bool, RuntimeErrorKind>)
    ensures
        final(value_stack)@ == if old(value_stack)@.len() > 0 {
            old(value_stack)@.drop_last()
        } else {
            old(value_stack)@
        },
        r == if old(value_stack)@.len() > 0 && old(value_stack)@.last() matches Value::I32(v) {
            Ok::<bool, RuntimeErrorKind>(old(value_stack)@.last()->I32_0 != 0)
        } else {
            Err(RuntimeErrorKind::Internal("assert, i32 expected on the stack"))
        },
{
    match value_stack.pop() {
        Some(v) => match v.as_bool() {
            Some(x) => Ok(x),
            None => Err(RuntimeErrorKind::Internal("assert, i32 expected on the stack")),
        },
        None => Err(RuntimeErrorKind::Internal("assert, i32 expected on the stack")),
    }
}


/// Whether a frame is another with its labels, and maybe its `pc`, replaced.
pub open spec fn frame_with(f: Frame, g: Frame, labels: Seq<Label>, pc: isize) -> bool {
    &&& g.labels@ == labels
    &&& g.arity == f.arity
    &&& g.funcaddr == f.funcaddr
    &&& g.locals@ == f.locals@
    &&& g.pc == pc
    &&& g.sp == f.sp
}

/// Branches to the label `label_idx` levels out from the innermost block of
/// the current frame: to one of its labels, which is removed with those
/// inside it, keeping its branch arity of values; or, one level beyond
/// them, out of the function, keeping its arity of values.
pub fn branch(value_stack: &mut Vec<Value>, call_stack: &mut Vec<Frame>, label_idx: &u32) -> (r: Result<(), RuntimeErrorKind>)
    requires
        old(call_stack)@.len() > 0,
        *label_idx <= old(call_stack)@.last().labels@.len(),
    ensures
        ({
            let f = old(call_stack)@.last();
            let n = *label_idx as int;
            let len = f.labels@.len() as int;
            if n == len {
                match unwind_error(old(value_stack)@, f.sp as int, f.arity as int) {
                    Some(e) => r == Err::<(), RuntimeErrorKind>(e) && final(value_stack)@ == old(value_stack)@
                        && final(call_stack)@ == old(call_stack)@,
                    None => r is Ok && final(value_stack)@ == unwound(old(value_stack)@, f.sp as int, f.arity as int)
                        && final(call_stack)@ == old(call_stack)@.drop_last(),
                }
            } else {
                let label = f.labels@[len - n - 1];
                let labels = f.labels@.take(len - n - 1);
                &&& final(call_stack)@.len() == old(call_stack)@.len()
                &&& final(call_stack)@.drop_last() == old(call_stack)@.drop_last()
                &&& match unwind_error(old(value_stack)@, label.sp as int, label.br_arity as int) {
                    Some(e) => r == Err::<(), RuntimeErrorKind>(e) && final(value_stack)@ == old(value_stack)@ && frame_with(
                        f,
                        final(call_stack)@.last(),
                        labels,
                        f.pc,
                    ),
                    None => r is Ok && final(value_stack)@ == unwound(old(value_stack)@, label.sp as int, label.br_arity as int)
                        && frame_with(f, final(call_stack)@.last(), labels, label.pc),
                }
            }
        }),
{
    let ghost cs0 = call_stack@;
    let mut frame = match call_stack.pop() {
        Some(f) => f,
        None => {
            proof {
                assert(false);
            }
            return Ok(());
        },
    };
    let n = *label_idx as usize;
    if n == frame.labels.len() {
        match unwind_value_stack(value_stack, frame.sp, frame.arity) {
            Ok(()) => {},
            Err(e) => {
                call_stack.push(frame);
                proof {
                    assert(call_stack@ =~= cs0);
                }
                return Err(e);
            },
        }
        return Ok(());
    }
    let label = frame.pop_nth_label(*label_idx);
    let res = unwind_value_stack(value_stack, label.sp, label.br_arity);
    match res {
        Ok(()) => {
            frame.pc = label.pc;
            call_stack.push(frame);
            Ok(())
        },
        Err(e) => {
            call_stack.push(frame);
            Err(e)
        },
    }
}

/// The frame a call starts: the arguments popped from the value stack,
/// followed by the default value of each local, as its locals.
pub open spec fn call_frame_ok(f: Frame, funcaddr: FuncAddr, arity: u32, args: Seq<Value>, locals: Seq<crate::binary::types::ValType>, sp: usize) -> bool {
    &&& f.labels@ == Seq::<Label>::empty()
    &&& f.arity == arity
    &&& f.funcaddr == funcaddr
    &&& f.locals@ == args + default_values(locals)
    &&& f.pc == -1
    &&& f.sp == sp
}

/// Calls a function of the store: pops its arguments and pushes its frame.
pub fn call(store: &Store, value_stack: &mut Vec<Value>, call_stack: &mut Vec<Frame>, funcaddr: FuncAddr)
    requires
        funcaddr.0 < store.functions.spec_funcs().len(),
        store.functions.spec_funcs()[funcaddr.0 as int].body matches FuncBody::Wasm(w) && forall|i: int|
            0 <= i < w.locals@.len() ==> !(#[trigger] w.locals@[i] is V128),
        old(value_stack)@.len() >= store.functions.spec_funcs()[funcaddr.0 as int].ftype.params@.len(),
    ensures
        ({
            let f = store.functions.spec_funcs()[funcaddr.0 as int];
            let sp = (old(value_stack)@.len() - f.ftype.params@.len()) as usize;
            &&& final(value_stack)@ == old(value_stack)@.take(sp as int)
            &&& final(call_stack)@.len() == old(call_stack)@.len() + 1
            &&& final(call_stack)@.drop_last() == old(call_stack)@
            &&& call_frame_ok(
                final(call_stack)@.last(),
                funcaddr,
                f.ftype.results@.len() as u32,
                old(value_stack)@.subrange(sp as int, old(value_stack)@.len() as int),
                f.body->Wasm_0.locals@,
                sp,
            )
        }),
{
    let func_instance = store.functions.get(funcaddr);
    let n_args = func_instance.ftype.params.len();
    let arity = func_instance.ftype.results.len() as u32;
    let sp = value_stack.len() - n_args;
    let mut locals: Vec<Value> = value_stack.split_off(sp);
    let ghost args = locals@;
    let w = match &func_instance.body {
        FuncBody::Wasm(w) => w,
        FuncBody::Host(_) => {
            proof {
                assert(false);
            }
            return;
        },
    };
    let mut i: usize = 0;
    while i < w.locals.len()
        invariant
            i <= w.locals@.len(),
            forall|q: int| 0 <= q < w.locals@.len() ==> !(#[trigger] w.locals@[q] is V128),
            locals@ == args + default_values(w.locals@.take(i as int)),
        decreases w.locals@.len() - i,
    {
        locals.push(Value::default_of(w.locals[i]));
        i = i + 1;
        proof {
            assert(locals@ =~= args + default_values(w.locals@.take(i as int)));
        }
    }
    proof {
        assert(w.locals@.take(i as int) =~= w.locals@);
    }
    call_stack.push(Frame::new(arity, funcaddr, locals, sp));
    proof {
        assert(call_stack@.drop_last() =~= old(call_stack)@);
    }
}

/// A scan for the `end` of an `if` ends at or after where it starts.
proof fn lemma_scan_if_bounds(instrs: Seq<InstrV>, i: int, depth: int, else_: Option<int>)
    requires
        spec_scan_if(instrs, i, depth, else_) is Some,
    ensures
        i <= spec_scan_if(instrs, i, depth, else_)->Some_0.0 < instrs.len(),
    decreases instrs.len() - i,
{
    let d = depth + depth_delta(instrs[i]);
    let e = if instrs[i] == InstrV::Plain(Instruction::Else) && depth == 1 {
        Some(i)
    } else {
        else_
    };
    if d != 0 {
        lemma_scan_if_bounds(instrs, i + 1, d, e);
    }
}

/// A scan for the `end` of a block ends at or after where it starts.
proof fn lemma_scan_end_bounds(instrs: Seq<InstrV>, i: int, depth: int)
    requires
        spec_scan_end(instrs, i, depth) is Some,
    ensures
        i <= spec_scan_end(instrs, i, depth)->Some_0 < instrs.len(),
    decreases instrs.len() - i,
{
    if depth + depth_delta(instrs[i]) != 0 {
        lemma_scan_end_bounds(instrs, i + 1, depth + depth_delta(instrs[i]));
    }
}

/// The models of a call stack with a frame on top.
proof fn lemma_frames_last(frames: Seq<Frame>)
    requires
        frames.len() > 0,
    ensures
        frames_view(frames) == frames_view(frames.drop_last()).push(frames.last()@),
{
    assert(frames_view(frames) =~= frames_view(frames.drop_last()).push(frames.last()@));
}

/// Whether an instruction is a structured control instruction.
fn control_instr(i: &Instruction) -> (r: bool)
    ensures
        r == is_control(i@),
{
    match i {
        Instruction::Block(_) | Instruction::Loop(_) | Instruction::If(_) | Instruction::Else | Instruction::End
        | Instruction::Br(_) | Instruction::BrIf(_) | Instruction::BrTable(_) | Instruction::Return => true,
        _ => false,
    }
}

/// Runs a control instruction of a frame already moved to it; the frame
/// goes back on the call stack unless the instruction leaves the function.
fn exec_control(
    mi: &ModuleInstance,
    instrs: &[Instruction],
    value_stack: &mut Vec<Value>,
    call_stack: &mut Vec<Frame>,
    frame: Frame,
    inst: &Instruction,
) -> (r: Result<Step, RuntimeErrorKind>)
    requires
        0 <= frame.pc < instrs@.len(),
        instrs@[frame.pc as int] == *inst,
        is_control(inst@),
        !(spec_control(*mi, instrs_view(instrs), old(value_stack)@, frames_view(old(call_stack)@), frame@, inst@) is Panics),
    ensures
        follows_next(
            spec_control(*mi, instrs_view(instrs), old(value_stack)@, frames_view(old(call_stack)@), frame@, inst@),
            r,
            final(value_stack)@,
            frames_view(final(call_stack)@),
        ),
{
    let ghost below = old(call_stack)@;
    let ghost f = frame@;
    let mut frame = frame;
    proof {
        assert(instrs_view(instrs)[frame.pc as int] == inst@);
    }
    match inst {
        Instruction::Block(bt) => {
            let (n_params, n_results) = block_arity(bt, mi);
            let end = find_block_end(instrs, frame.pc);
            proof {
                lemma_scan_end_bounds(instrs_view(instrs), frame.pc as int, 0);
            }
            let sp = value_stack.len() - n_params as usize;
            frame.enter_block(n_results, end, sp);
            let ghost g = frame@;
            call_stack.push(frame);
            proof {
                lemma_frames_push(below, frame);
                assert(g == FrameV { labels: f.labels.push(Label { br_arity: n_results, end_arity: n_results, pc: end, sp }), ..f });
            }
            Ok(Step::Continue)
        },
        Instruction::Loop(bt) => {
            let (n_params, n_results) = block_arity(bt, mi);
            let sp = value_stack.len() - n_params as usize;
            let pc = frame.pc - 1;
            frame.enter_loop(n_params, n_results, pc, sp);
            call_stack.push(frame);
            proof {
                lemma_frames_push(below, frame);
            }
            Ok(Step::Continue)
        },
        Instruction::If(bt) => {
            let (n_params, n_results) = block_arity(bt, mi);
            let (end, else_) = find_if_else_end(instrs, frame.pc);
            proof {
                lemma_scan_if_bounds(instrs_view(instrs), frame.pc as int, 0, None);
            }
            let cond = match pop_bool(value_stack) {
                Ok(c) => c,
                Err(e) => return Err(e),
            };
            let sp = value_stack.len() - n_params as usize;
            frame.enter_block(n_results, end, sp);
            if !cond {
                frame.pc = match else_ {
                    Some(e) => e,
                    None => end - 1,
                };
            }
            call_stack.push(frame);
            proof {
                lemma_frames_push(below, frame);
            }
            Ok(Step::Continue)
        },
        Instruction::Else => {
            let lp = frame.current_label().pc;
            frame.pc = lp - 1;
            call_stack.push(frame);
            proof {
                lemma_frames_push(below, frame);
            }
            Ok(Step::Continue)
        },
        Instruction::End => {
            let ghost labels0 = frame.labels@;
            match frame.labels.pop() {
                Some(label) => {
                    match unwind_value_stack(value_stack, label.sp, label.end_arity) {
                        Ok(()) => {},
                        Err(e) => return Err(e),
                    }
                    call_stack.push(frame);
                    proof {
                        lemma_frames_push(below, frame);
                    }
                    Ok(Step::Continue)
                },
                None => {
                    match unwind_value_stack(value_stack, frame.sp, frame.arity) {
                        Ok(()) => {},
                        Err(e) => return Err(e),
                    }
                    Ok(Step::Continue)
                },
            }
        },
        Instruction::Br(label_idx) => {
            call_stack.push(frame);
            proof {
                assert(call_stack@.drop_last() =~= below);
            }
            exec_branch(value_stack, call_stack, *label_idx, Ghost(below), Ghost(f))
        },
        Instruction::BrIf(label_idx) => {
            let cond = match pop_bool(value_stack) {
                Ok(c) => c,
                Err(e) => return Err(e),
            };
            call_stack.push(frame);
            proof {
                assert(call_stack@.drop_last() =~= below);
            }
            if cond {
                exec_branch(value_stack, call_stack, *label_idx, Ghost(below), Ghost(f))
            } else {
                proof {
                    lemma_frames_push(below, frame);
                }
                Ok(Step::Continue)
            }
        },
        Instruction::BrTable(br_idx) => {
            let i = match pop_i32(value_stack) {
                Ok(i) => i,
                Err(e) => return Err(e),
            };
            let k = #[verifier::truncate] (i as usize);
            let label_idx = if k < br_idx.labels.len() {
                br_idx.labels[k]
            } else {
                br_idx.default
            };
            call_stack.push(frame);
            proof {
                assert(call_stack@.drop_last() =~= below);
            }
            exec_branch(value_stack, call_stack, label_idx, Ghost(below), Ghost(f))
        },
        Instruction::Return => {
            match unwind_value_stack(value_stack, frame.sp, frame.arity) {
                Ok(()) => {},
                Err(e) => return Err(e),
            }
            Ok(Step::Continue)
        },
        _ => {
            proof {
                assert(false);
            }
            Ok(Step::Continue)
        },
    }
}

/// Branches from the frame on top of the call stack, `f` over `below`.
fn exec_branch(
    value_stack: &mut Vec<Value>,
    call_stack: &mut Vec<Frame>,
    label_idx: u32,
    Ghost(below): Ghost<Seq<Frame>>,
    Ghost(f): Ghost<FrameV>,
) -> (r: Result<Step, RuntimeErrorKind>)
    requires
        old(call_stack)@.len() > 0,
        old(call_stack)@.drop_last() == below,
        old(call_stack)@.last()@ == f,
        !(crate::runtime::machine::spec_branch(old(value_stack)@, frames_view(below), f, label_idx) is Panics),
    ensures
        follows_next(
            crate::runtime::machine::spec_branch(old(value_stack)@, frames_view(below), f, label_idx),
            r,
            final(value_stack)@,
            frames_view(final(call_stack)@),
        ),
{
    let res = branch(value_stack, call_stack, &label_idx);
    match res {
        Ok(()) => {
            proof {
                if label_idx as int != f.labels.len() {
                    lemma_frames_last(call_stack@);
                }
            }
            Ok(Step::Continue)
        },
        Err(e) => Err(e),
    }
}

/// Calls the function at `funcaddr`: a function of a module gets its frame;
/// a host function is handed back with its arguments.
fn exec_call(store: &Store, value_stack: &mut Vec<Value>, call_stack: &mut Vec<Frame>, funcaddr: FuncAddr) -> (r: Result<Step, RuntimeErrorKind>)
    requires
        !(spec_call(store.functions.spec_funcs(), old(value_stack)@, frames_view(old(call_stack)@), funcaddr) is Panics),
    ensures
        follows_next(
            spec_call(store.functions.spec_funcs(), old(value_stack)@, frames_view(old(call_stack)@), funcaddr),
            r,
            final(value_stack)@,
            frames_view(final(call_stack)@),
        ),
{
    let func_instance = store.functions.get(funcaddr);
    match &func_instance.body {
        FuncBody::Wasm(_) => {
            // The length of the stack, read here, bounds the call's arithmetic.
            let _height = value_stack.len();
            call(store, value_stack, call_stack, funcaddr);
            proof {
                lemma_frames_last(call_stack@);
            }
            Ok(Step::Continue)
        },
        FuncBody::Host(h) => {
            let n_args = func_instance.ftype.params.len();
            let sp = value_stack.len() - n_args;
            let args = value_stack.split_off(sp);
            Ok(Step::Host(*h, args))
        },
    }
}

/// Runs a call or an indirect call of a frame already moved to it.
fn exec_calls(
    store: &Store,
    mi: &ModuleInstance,
    value_stack: &mut Vec<Value>,
    call_stack: &mut Vec<Frame>,
    frame: Frame,
    inst: &Instruction,
) -> (r: Result<Step, RuntimeErrorKind>)
    requires
        instance_in_store(store, mi),
        inst is Call || inst is CallIndirect,
        !(spec_calls(store, *mi, old(value_stack)@, frames_view(old(call_stack)@), frame@, inst@) is Panics),
    ensures
        follows_next(
            spec_calls(store, *mi, old(value_stack)@, frames_view(old(call_stack)@), frame@, inst@),
            r,
            final(value_stack)@,
            frames_view(final(call_stack)@),
        ),
{
    let ghost below = old(call_stack)@;
    match inst {
        Instruction::Call(idx) => {
            let a = mi.funcs[*idx as usize];
            call_stack.push(frame);
            proof {
                lemma_frames_push(below, frame);
            }
            exec_call(store, value_stack, call_stack, a)
        },
        Instruction::CallIndirect((type_idx, table_idx)) => {
            let tab_inst = match Runtime::table_get(&store.tables, mi, *table_idx) {
                Ok(t) => t,
                Err(e) => return Err(e),
            };
            let ft = &mi.types[*type_idx as usize];
            let i = match pop_i32(value_stack) {
                Ok(i) => i,
                Err(e) => return Err(e),
            };
            let k = #[verifier::truncate] (i as usize);
            if k >= tab_inst.refs.len() {
                return Err(RuntimeErrorKind::Trap(TrapErrorKind::OutOfBoundsTableAccess));
            }
            let r = tab_inst.refs[k];
            if r.is_null() {
                return Err(RuntimeErrorKind::Trap(TrapErrorKind::UninitializedElement));
            }
            let func_addr = match r.as_funcref() {
                Some(a) => a,
                None => return Err(RuntimeErrorKind::Internal("assert: expected func ref")),
            };
            proof {
                assert(mi@.types[*type_idx as int] == ft@);
            }
            if !store.functions.get(func_addr).ftype.same_as(ft) {
                return Err(RuntimeErrorKind::Trap(TrapErrorKind::IndirectCallTypeMismatch));
            }
            call_stack.push(frame);
            proof {
                lemma_frames_push(below, frame);
            }
            exec_call(store, value_stack, call_stack, func_addr)
        },
        _ => {
            proof {
                assert(false);
            }
            Ok(Step::Continue)
        },
    }
}

/// Whether an instruction works on locals or globals.
fn variable_instr(i: &Instruction) -> (r: bool)
    ensures
        r == is_variable(*i),
{
    match i {
        Instruction::LocalGet(_) | Instruction::LocalSet(_) | Instruction::LocalTee(_) | Instruction::GlobalGet(_)
        | Instruction::GlobalSet(_) => true,
        _ => false,
    }
}

/// The globals after a step with the given outcome.
pub open spec fn globals_after(globals: Seq<crate::runtime::store::GlobalInstance>, o: RunOutcome<Next>) -> Seq<crate::runtime::store::GlobalInstance> {
    match o {
        RunOutcome::Gives(n) => match n.effect {
            Effect::SetGlobal(a, v) => globals.update(
                a as int,
                crate::runtime::store::GlobalInstance { globaltype: globals[a as int].globaltype, value: v },
            ),
            _ => globals,
        },
        _ => globals,
    }
}

/// Runs an instruction on a local or a global of a frame already moved to it.
fn exec_variable(
    globals: &mut Globals,
    mi: &ModuleInstance,
    value_stack: &mut Vec<Value>,
    call_stack: &mut Vec<Frame>,
    frame: Frame,
    inst: &Instruction,
) -> (r: Result<Step, RuntimeErrorKind>)
    requires
        forall|i: int| 0 <= i < mi.globals@.len() ==> (#[trigger] mi.globals@[i]).0 < old(globals).0@.len(),
        is_variable(*inst),
        !(spec_variable(old(globals).0@, *mi, old(value_stack)@, frames_view(old(call_stack)@), frame@, *inst) is Panics),
    ensures
        follows_next(
            spec_variable(old(globals).0@, *mi, old(value_stack)@, frames_view(old(call_stack)@), frame@, *inst),
            r,
            final(value_stack)@,
            frames_view(final(call_stack)@),
        ),
        r is Ok ==> final(globals).0@ == globals_after(
            old(globals).0@,
            spec_variable(old(globals).0@, *mi, old(value_stack)@, frames_view(old(call_stack)@), frame@, *inst),
        ),
        r is Err ==> final(globals).0@ == old(globals).0@,
        final(globals).0@.len() == old(globals).0@.len(),
{
    let ghost below = old(call_stack)@;
    let mut frame = frame;
    match inst {
        Instruction::LocalGet(idx) => {
            let idx = *idx as usize;
            if idx >= frame.locals.len() {
                return Err(RuntimeErrorKind::Internal("local index out of bounds"));
            }
            let v = frame.locals[idx];
            value_stack.push(v);
            call_stack.push(frame);
            proof {
                lemma_frames_push(below, frame);
            }
            Ok(Step::Continue)
        },
        Instruction::LocalSet(idx) => {
            let v = match value_stack.pop() {
                Some(v) => v,
                None => return Err(RuntimeErrorKind::Internal("assert, value expected on the stack")),
            };
            let idx = *idx as usize;
            if idx >= frame.locals.len() {
                return Err(RuntimeErrorKind::Internal("local index out of bounds"));
            }
            frame.locals.set(idx, v);
            call_stack.push(frame);
            proof {
                lemma_frames_push(below, frame);
            }
            Ok(Step::Continue)
        },
        Instruction::LocalTee(idx) => {
            let n = value_stack.len();
            if n == 0 {
                return Err(RuntimeErrorKind::Internal("assert, value expected on the stack"));
            }
            let v = value_stack[n - 1];
            let idx = *idx as usize;
            if idx >= frame.locals.len() {
                return Err(RuntimeErrorKind::Internal("local index out of bounds"));
            }
            frame.locals.set(idx, v);
            call_stack.push(frame);
            proof {
                lemma_frames_push(below, frame);
            }
            Ok(Step::Continue)
        },
        Instruction::GlobalGet(idx) => {
            let v = match Runtime::global_get(globals, mi, *idx) {
                Ok(v) => v,
                Err(e) => return Err(e),
            };
            value_stack.push(v);
            call_stack.push(frame);
            proof {
                lemma_frames_push(below, frame);
            }
            Ok(Step::Continue)
        },
        Instruction::GlobalSet(idx) => {
            let v = value_stack.pop().unwrap();
            match Runtime::global_set(globals, mi, *idx, v) {
                Ok(()) => {},
                Err(e) => return Err(e),
            }
            call_stack.push(frame);
            proof {
                lemma_frames_push(below, frame);
            }
            Ok(Step::Continue)
        },
        _ => {
            proof {
                assert(false);
            }
            Ok(Step::Continue)
        },
    }
}

/// `256` to the power `n`.
pub open spec fn pow256(n: nat) -> nat
    decreases n,
{
    if n == 0 {
        1
    } else {
        256 * pow256((n - 1) as nat)
    }
}

proof fn lemma_pow256_mono(a: nat, b: nat)
    requires
        a <= b,
    ensures
        pow256(a) <= pow256(b),
    decreases b,
{
    if a < b {
        lemma_pow256_mono(a, (b - 1) as nat);
    }
}

/// Reads the number that up to eight bytes stand for, least significant first.
fn read_le(bytes: &[u8]) -> (r: u64)
    requires
        bytes@.len() <= 8,
    ensures
        r == le_value(bytes@),
{
    let n = bytes.len();
    let mut acc: u64 = 0;
    let mut k: usize = n;
    proof {
        assert(bytes@.subrange(n as int, n as int) =~= Seq::<u8>::empty());
        reveal_with_fuel(pow256, 9);
        assert(pow256(8) == 0x1_0000_0000_0000_0000);
    }
    while k > 0
        invariant
            k <= n,
            n == bytes@.len(),
            n <= 8,
            acc == le_value(bytes@.subrange(k as int, n as int)),
            acc < pow256((n - k) as nat),
            pow256(8) == 0x1_0000_0000_0000_0000,
        decreases k,
    {
        k = k - 1;
        proof {
            let s = bytes@.subrange(k as int, n as int);
            assert(s.subrange(1, s.len() as int) =~= bytes@.subrange(k + 1, n as int));
            lemma_pow256_mono((n - k) as nat, 8);
        }
        acc = acc * 256 + bytes[k] as u64;
    }
    proof {
        assert(bytes@.subrange(0, n as int) =~= bytes@);
    }
    acc
}

/// The `n` least significant bytes of a number, least significant first.
fn le_bytes_of(x: u64, n: usize) -> (r: Vec<u8>)
    requires
        n <= 8,
    ensures
        r@ == le_bytes(x as nat, n as nat),
        r@.len() == n,
{
    let mut out: Vec<u8> = Vec::new();
    let mut y = x;
    let mut k: usize = 0;
    while k < n
        invariant
            k <= n,
            out@.len() == k,
            out@ + le_bytes(y as nat, (n - k) as nat) == le_bytes(x as nat, n as nat),
        decreases n - k,
    {
        let ghost before = out@;
        out.push((y % 256) as u8);
        proof {
            assert(before + le_bytes(y as nat, (n - k) as nat) =~= out@ + le_bytes((y / 256) as nat, (n - k - 1) as nat));
        }
        y = y / 256;
        k = k + 1;
    }
    proof {
        assert(out@ + le_bytes(y as nat, 0) =~= out@);
    }
    out
}

/// Whether an instruction works on memory.
fn memory_instr(i: &Instruction) -> (r: bool)
    ensures
        r == is_memory(*i),
{
    match i {
        Instruction::I32Load(_) | Instruction::I64Load(_) | Instruction::F32Load(_) | Instruction::F64Load(_)
        | Instruction::I32Load8S(_) | Instruction::I32Load8U(_) | Instruction::I32Load16S(_) | Instruction::I32Load16U(_)
        | Instruction::I64Load8S(_) | Instruction::I64Load8U(_) | Instruction::I64Load16S(_) | Instruction::I64Load16U(_)
        | Instruction::I64Load32S(_) | Instruction::I64Load32U(_) | Instruction::I32Store(_) | Instruction::I64Store(_)
        | Instruction::F32Store(_) | Instruction::F64Store(_) | Instruction::I32Store8(_) | Instruction::I32Store16(_)
        | Instruction::I64Store8(_) | Instruction::I64Store16(_) | Instruction::I64Store32(_) | Instruction::MemorySize(_)
        | Instruction::MemoryGrow(_) => true,
        _ => false,
    }
}

/// The memories after a step with the given outcome, as bytes.
pub open spec fn mems_after(mems: Seq<Seq<u8>>, o: RunOutcome<Next>) -> Seq<Seq<u8>> {
    match o {
        RunOutcome::Gives(n) => match n.effect {
            Effect::WriteMem(a, bytes) => mems.update(a as int, bytes),
            _ => mems,
        },
        _ => mems,
    }
}

/// The offset, width and value of a load; the offset and width of a store.
fn access_of(inst: &Instruction) -> (r: (u32, usize))
    requires
        load_width(*inst) > 0 || store_width(*inst) > 0,
    ensures
        r.0 == crate::runtime::machine::access_offset(*inst),
        r.1 == if load_width(*inst) > 0 { load_width(*inst) } else { store_width(*inst) },
{
    match inst {
        Instruction::I32Load(m) => (m.offset, 4),
        Instruction::I64Load(m) => (m.offset, 8),
        Instruction::F32Load(m) => (m.offset, 4),
        Instruction::F64Load(m) => (m.offset, 8),
        Instruction::I32Load8S(m) => (m.offset, 1),
        Instruction::I32Load8U(m) => (m.offset, 1),
        Instruction::I32Load16S(m) => (m.offset, 2),
        Instruction::I32Load16U(m) => (m.offset, 2),
        Instruction::I64Load8S(m) => (m.offset, 1),
        Instruction::I64Load8U(m) => (m.offset, 1),
        Instruction::I64Load16S(m) => (m.offset, 2),
        Instruction::I64Load16U(m) => (m.offset, 2),
        Instruction::I64Load32S(m) => (m.offset, 4),
        Instruction::I64Load32U(m) => (m.offset, 4),
        Instruction::I32Store(m) => (m.offset, 4),
        Instruction::I64Store(m) => (m.offset, 8),
        Instruction::F32Store(m) => (m.offset, 4),
        Instruction::F64Store(m) => (m.offset, 8),
        Instruction::I32Store8(m) => (m.offset, 1),
        Instruction::I32Store16(m) => (m.offset, 2),
        Instruction::I64Store8(m) => (m.offset, 1),
        Instruction::I64Store16(m) => (m.offset, 2),
        Instruction::I64Store32(m) => (m.offset, 4),
        _ => {
            proof {
                assert(false);
            }
            (0, 0)
        },
    }
}

/// The value a load makes of the number it read.
fn loaded_value(inst: &Instruction, u: u64) -> (r: Value)
    requires
        load_width(*inst) > 0,
    ensures
        r == load_value(*inst, u as nat),
{
    match inst {
        Instruction::I32Load(_) => Value::I32(u as i32),
        Instruction::I64Load(_) => Value::I64(u as i64),
        Instruction::F32Load(_) => Value::F32(u as u32),
        Instruction::F64Load(_) => Value::F64(u),
        Instruction::I32Load8S(_) => Value::I32((u as i8) as i32),
        Instruction::I32Load16S(_) => Value::I32((u as i16) as i32),
        Instruction::I64Load8S(_) => Value::I64((u as i8) as i64),
        Instruction::I64Load16S(_) => Value::I64((u as i16) as i64),
        Instruction::I64Load32S(_) => Value::I64((u as i32) as i64),
        Instruction::I32Load8U(_) | Instruction::I32Load16U(_) => Value::I32(u as i32),
        _ => Value::I64(u as i64),
    }
}

/// The bits a store writes of a value; none for a value of another type.
fn stored_bits(inst: &Instruction, v: Value) -> (r: Option<u64>)
    ensures
        match store_bits(*inst, v) {
            Some(b) => r == Some(b as u64) && b <= u64::MAX,
            None => r is None,
        },
{
    match (inst, v) {
        (Instruction::I32Store(_), Value::I32(a)) => Some((a as u32) as u64),
        (Instruction::I32Store8(_), Value::I32(a)) => Some((a as u32) as u64),
        (Instruction::I32Store16(_), Value::I32(a)) => Some((a as u32) as u64),
        (Instruction::I64Store(_), Value::I64(a)) => Some(a as u64),
        (Instruction::I64Store8(_), Value::I64(a)) => Some(a as u64),
        (Instruction::I64Store16(_), Value::I64(a)) => Some(a as u64),
        (Instruction::I64Store32(_), Value::I64(a)) => Some(a as u64),
        (Instruction::F32Store(_), Value::F32(b)) => Some(b as u64),
        (Instruction::F64Store(_), Value::F64(b)) => Some(b),
        _ => None,
    }
}

/// Whether an instruction is a load.
fn load_instr(i: &Instruction) -> (r: bool)
    ensures
        r == (load_width(*i) > 0),
{
    match i {
        Instruction::I32Load(_) | Instruction::I64Load(_) | Instruction::F32Load(_) | Instruction::F64Load(_)
        | Instruction::I32Load8S(_) | Instruction::I32Load8U(_) | Instruction::I32Load16S(_) | Instruction::I32Load16U(_)
        | Instruction::I64Load8S(_) | Instruction::I64Load8U(_) | Instruction::I64Load16S(_) | Instruction::I64Load16U(_)
        | Instruction::I64Load32S(_) | Instruction::I64Load32U(_) => true,
        _ => false,
    }
}

/// Runs an instruction on memory of a frame already moved to it.
fn exec_memory(
    memories: &mut Memories,
    mi: &ModuleInstance,
    value_stack: &mut Vec<Value>,
    call_stack: &mut Vec<Frame>,
    frame: Frame,
    inst: &Instruction,
) -> (r: Result<Step, RuntimeErrorKind>)
    requires
        forall|i: int| 0 <= i < mi.mems@.len() ==> (#[trigger] mi.mems@[i]).0 < old(memories).0@.len(),
        is_memory(*inst),
        !(spec_memory(old(memories).0@, *mi, old(value_stack)@, frames_view(old(call_stack)@), frame@, *inst) is Panics),
    ensures
        follows_next(
            spec_memory(old(memories).0@, *mi, old(value_stack)@, frames_view(old(call_stack)@), frame@, *inst),
            r,
            final(value_stack)@,
            frames_view(final(call_stack)@),
        ),
        r is Ok ==> mem_bytes(final(memories).0@) == mems_after(
            mem_bytes(old(memories).0@),
            spec_memory(old(memories).0@, *mi, old(value_stack)@, frames_view(old(call_stack)@), frame@, *inst),
        ),
        r is Err ==> mem_bytes(final(memories).0@) == mem_bytes(old(memories).0@),
        final(memories).0@.len() == old(memories).0@.len(),
        forall|i: int| 0 <= i < old(memories).0@.len() ==> (#[trigger] final(memories).0@[i]).memtype == old(memories).0@[i].memtype,
{
    let ghost below = old(call_stack)@;
    let ghost m0 = old(memories).0@;
    match inst {
        Instruction::MemorySize(idx) => {
            let mem = match Runtime::memory_get(memories, mi, *idx) {
                Ok(m) => m,
                Err(e) => {
                    proof {
                        assert(false);
                    }
                    return Err(e);
                },
            };
            let sz = mem.size();
            value_stack.push(Value::I32(sz as i32));
            call_stack.push(frame);
            proof {
                lemma_frames_push(below, frame);
            }
            Ok(Step::Continue)
        },
        Instruction::MemoryGrow(idx) => {
            let inc = match value_stack.pop() {
                Some(Value::I32(x)) => x,
                _ => return Err(RuntimeErrorKind::Internal("memory.grow, invalid argument type")),
            };
            let ghost a = mi.mems@[idx.0 as int];
            let mem = match Runtime::memory_get_mut(memories, mi, *idx) {
                Ok(m) => m,
                Err(e) => {
                    proof {
                        assert(false);
                    }
                    return Err(e);
                },
            };
            let res = match mem.grow(inc as u32) {
                Ok(Some(v)) => v as i32,
                Ok(None) => -1,
                Err(e) => return Err(RuntimeErrorKind::Trap(e)),
            };
            value_stack.push(Value::I32(res));
            call_stack.push(frame);
            proof {
                lemma_frames_push(below, frame);
                assert(mem_bytes(memories.0@) =~= mem_bytes(m0).update(a.0 as int, memories.0@[a.0 as int].data@));
            }
            Ok(Step::Continue)
        },
        _ => {
            let (offset, n) = access_of(inst);
            if load_instr(inst) {
                let base = match pop_i32(value_stack) {
                    Ok(b) => b,
                    Err(e) => return Err(e),
                };
                let mem = match Runtime::memory_get(memories, mi, MemIndex(0)) {
                    Ok(m) => m,
                    Err(e) => {
                        proof {
                            assert(false);
                        }
                        return Err(e);
                    },
                };
                let bytes = match mem.slice(base, offset, n) {
                    Ok(b) => b,
                    Err(e) => return Err(RuntimeErrorKind::Trap(e)),
                };
                let u = read_le(bytes);
                value_stack.push(loaded_value(inst, u));
                call_stack.push(frame);
                proof {
                    lemma_frames_push(below, frame);
                }
                Ok(Step::Continue)
            } else {
                let v = value_stack.pop().unwrap();
                let bits = match stored_bits(inst, v) {
                    Some(b) => b,
                    None => {
                        proof {
                            assert(false);
                        }
                        return Ok(Step::Continue);
                    },
                };
                let base = match pop_i32(value_stack) {
                    Ok(b) => b,
                    Err(e) => return Err(e),
                };
                let ghost a = mi.mems@[0];
                let bytes = le_bytes_of(bits, n);
                let mem = match Runtime::memory_get_mut(memories, mi, MemIndex(0)) {
                    Ok(m) => m,
                    Err(e) => {
                        proof {
                            assert(false);
                        }
                        return Err(e);
                    },
                };
                match mem.write(base, offset, bytes.as_slice()) {
                    Ok(()) => {},
                    Err(e) => return Err(RuntimeErrorKind::Trap(e)),
                }
                call_stack.push(frame);
                proof {
                    lemma_frames_push(below, frame);
                    assert(mem_bytes(memories.0@) =~= mem_bytes(m0).update(a.0 as int, memories.0@[a.0 as int].data@));
                }
                Ok(Step::Continue)
            }
        },
    }
}

impl Runtime {
    /// Runs one step of an execution: the frame on top of the call stack
    /// moves to its next instruction and runs it. Floating-point
    /// instructions and calls of host functions are handed back to the
    /// caller, which performs them on the value stack. A step that fails
    /// leaves the store as it was.
    pub fn step(&mut self, value_stack: &mut Vec<Value>, call_stack: &mut Vec<Frame>) -> (r: Result<Step, RuntimeErrorKind>)
        requires
            old(self).wf(),
            !(spec_step(&old(self).store, &old(self).module_registry, old(value_stack)@, frames_view(old(call_stack)@)) is Panics),
        ensures
            final(self).wf(),
            final(self).module_registry == old(self).module_registry,
            follows_next(
                spec_step(&old(self).store, &old(self).module_registry, old(value_stack)@, frames_view(old(call_stack)@)),
                r,
                final(value_stack)@,
                frames_view(final(call_stack)@),
            ),
            r is Ok ==> store_effect(
                &old(self).store,
                &final(self).store,
                spec_step(&old(self).store, &old(self).module_registry, old(value_stack)@, frames_view(old(call_stack)@))->Gives_0.effect,
            ),
            r is Err ==> store_effect(&old(self).store, &final(self).store, Effect::Nothing),
    {
        let ghost frames0 = old(call_stack)@;
        let ghost store0 = old(self).store;
        let mut frame = match call_stack.pop() {
            Some(f) => f,
            None => {
                proof {
                    assert(frames_view(frames0).len() == 0);
                }
                return Ok(Step::Done);
            },
        };
        proof {
            lemma_frames_drop_last(frames0);
        }
        let ghost below = call_stack@;
        let func_inst = self.store.functions.get(frame.funcaddr);
        let module_inst = match self.module_registry.get_instance(func_inst.module) {
            Some(m) => m,
            None => {
                proof {
                    assert(false);
                }
                return Ok(Step::Done);
            },
        };
        let w = match &func_inst.body {
            FuncBody::Wasm(w) => w,
            FuncBody::Host(_) => {
                proof {
                    assert(false);
                }
                return Ok(Step::Done);
            },
        };
        proof {
            let h = func_inst.module.index();
            assert(self.module_registry.spec_entries()[h as int] is Some);
            assert(instance_in_store(&self.store, module_inst));
        }
        let instrs = w.expr.as_slice();
        frame.pc = frame.pc + 1;
        if frame.pc < 0 || frame.pc as usize >= instrs.len() {
            call_stack.push(frame);
            proof {
                lemma_frames_push(below, frame);
            }
            return Ok(Step::Continue);
        }
        let inst = &instrs[frame.pc as usize];
        proof {
            assert(instrs_view(instrs)[frame.pc as int] == inst@);
        }
        let r = match exec_stack_op(inst, value_stack) {
            Some(res) => match res {
                Ok(()) => {
                    call_stack.push(frame);
                    proof {
                        lemma_frames_push(below, frame);
                    }
                    Ok(Step::Continue)
                },
                Err(e) => Err(e),
            },
            None => if control_instr(inst) {
                exec_control(module_inst, instrs, value_stack, call_stack, frame, inst)
            } else if float_instr(inst) {
                call_stack.push(frame);
                proof {
                    lemma_frames_push(below, frame);
                }
                Ok(Step::Float(inst.clone()))
            } else if variable_instr(inst) {
                exec_variable(&mut self.store.globals, module_inst, value_stack, call_stack, frame, inst)
            } else if memory_instr(inst) {
                exec_memory(&mut self.store.memories, module_inst, value_stack, call_stack, frame, inst)
            } else {
                match inst {
                    Instruction::Unreachable => Err(RuntimeErrorKind::Trap(TrapErrorKind::Unreachable)),
                    Instruction::Nop => {
                        call_stack.push(frame);
                        proof {
                            lemma_frames_push(below, frame);
                        }
                        Ok(Step::Continue)
                    },
                    Instruction::Call(_) | Instruction::CallIndirect(_) => exec_calls(
                        &self.store,
                        module_inst,
                        value_stack,
                        call_stack,
                        frame,
                        inst,
                    ),
                    Instruction::DataDrop(idx) => {
                        let da = module_inst.datas[*idx as usize];
                        self.store.data.drop(da);
                        call_stack.push(frame);
                        proof {
                            lemma_frames_push(below, frame);
                        }
                        Ok(Step::Continue)
                    },
                    Instruction::ElemDrop(idx) => {
                        let ea = module_inst.elems[*idx as usize];
                        self.store.elements.drop(ea);
                        call_stack.push(frame);
                        proof {
                            lemma_frames_push(below, frame);
                        }
                        Ok(Step::Continue)
                    },
                    _ => {
                        proof {
                            assert(false);
                        }
                        Ok(Step::Continue)
                    },
                }
            },
        };
        proof {
            assert(store_grows(&store0, &self.store));
            assert forall|i: int|
                0 <= i < self.module_registry.spec_entries().len() && (#[trigger] self.module_registry.spec_entries()[i]) is Some implies entry_in_store(
                &self.store,
                self.module_registry.spec_entries()[i]->Some_0,
            ) by {
                lemma_entry_in_grown_store(&store0, &self.store, self.module_registry.spec_entries()[i]->Some_0);
            }
        }
        r
    }
}

/// An execution of a function: its value stack, its call stack, and the
/// number of results the function gives.
#[derive(Debug)]
pub struct Execution {
    pub value_stack: Vec<Value>,
    pub call_stack: Vec<Frame>,
    pub arity: usize,
}

/// What starting an invocation of the export `name` of a module comes to:
/// an unknown export and an export that is not a function fail; a function
/// is called with the arguments as the value stack, over no frame.
pub open spec fn spec_start_invoke(rt: &Runtime, module: crate::runtime::instance::ModuleHandle, name: Seq<char>, args: Seq<Value>) -> RunOutcome<(Next, usize)> {
    let exports = rt.module_registry.spec_exports_of(module);
    if !exports.contains_key(name) {
        RunOutcome::Fails(RuntimeErrorKind::Internal("unknown export"))
    } else {
        match exports[name] {
            crate::runtime::value::ExternVal::Func(a) => match spec_call(
                rt.store.functions.spec_funcs(),
                args,
                Seq::empty(),
                a,
            ) {
                RunOutcome::Gives(n) => RunOutcome::Gives((n, rt.store.functions.spec_funcs()[a.0 as int].ftype.results@.len() as usize)),
                RunOutcome::Fails(e) => RunOutcome::Fails(e),
                RunOutcome::Panics => RunOutcome::Panics,
            },
            _ => RunOutcome::Fails(RuntimeErrorKind::Internal("export is not a function")),
        }
    }
}

impl Runtime {
    /// Starts an invocation of an exported function with arguments: the
    /// execution to run with [`Runtime::step`], and what its first step asks
    /// of the caller (a call of a host function, or nothing).
    pub fn start_invoke(&self, module: crate::runtime::instance::ModuleHandle, fn_name: &str, fn_args: &[Value]) -> (r: Result<
        (Execution, Step),
        crate::Error,
    >)
        requires
            self.wf(),
            !(spec_start_invoke(self, module, fn_name@, fn_args@) is Panics),
        ensures
            match spec_start_invoke(self, module, fn_name@, fn_args@) {
                RunOutcome::Gives((n, arity)) => r is Ok && {
                    let (e, st) = r->Ok_0;
                    &&& e.value_stack@ == n.values
                    &&& frames_view(e.call_stack@) == n.frames
                    &&& e.arity == arity
                    &&& st@ == n.step
                },
                RunOutcome::Fails(k) => r == Err::<(Execution, Step), crate::Error>(crate::Error::Trap(k)),
                RunOutcome::Panics => false,
            },
    {
        let ev = match self.module_registry.resolve_export(module, fn_name) {
            Some(ev) => ev,
            None => return Err(crate::Error::Trap(RuntimeErrorKind::Internal("unknown export"))),
        };
        let funcaddr = match ev.as_func() {
            Some(a) => a,
            None => return Err(crate::Error::Trap(RuntimeErrorKind::Internal("export is not a function"))),
        };
        proof {
            let h = module.index();
            assert(entry_in_store(&self.store, self.module_registry.spec_entries()[h as int]->Some_0));
        }
        Ok(self.begin_call(funcaddr, fn_args))
    }

    /// Starts a call of the function at `funcaddr` with arguments, over no
    /// frame: the execution to run with [`Runtime::step`], and what its first
    /// step asks of the caller (a call of a host function, or nothing).
    pub fn begin_call(&self, funcaddr: FuncAddr, fn_args: &[Value]) -> (r: (Execution, Step))
        requires
            !(spec_call(self.store.functions.spec_funcs(), fn_args@, Seq::empty(), funcaddr) is Panics),
        ensures
            ({
                let n = spec_call(self.store.functions.spec_funcs(), fn_args@, Seq::empty(), funcaddr)->Gives_0;
                &&& r.0.value_stack@ == n.values
                &&& frames_view(r.0.call_stack@) == n.frames
                &&& r.0.arity == self.store.functions.spec_funcs()[funcaddr.0 as int].ftype.results@.len()
                &&& r.1@ == n.step
            }),
    {
        let arity = self.store.functions.get(funcaddr).ftype.results.len();
        let mut value_stack: Vec<Value> = Vec::new();
        let mut i: usize = 0;
        while i < fn_args.len()
            invariant
                i <= fn_args@.len(),
                value_stack@ == fn_args@.take(i as int),
            decreases fn_args@.len() - i,
        {
            value_stack.push(fn_args[i]);
            i = i + 1;
            proof {
                assert(value_stack@ =~= fn_args@.take(i as int));
            }
        }
        proof {
            assert(fn_args@.take(i as int) =~= fn_args@);
        }
        let mut call_stack: Vec<Frame> = Vec::new();
        proof {
            assert(frames_view(call_stack@) =~= Seq::<FrameV>::empty());
        }
        let step = match exec_call(&self.store, &mut value_stack, &mut call_stack, funcaddr) {
            Ok(st) => st,
            Err(_) => {
                proof {
                    assert(false);
                }
                Step::Done
            },
        };
        (Execution { value_stack, call_stack, arity }, step)
    }

    /// Ends an invocation whose call stack ran empty: its results are the
    /// top values of the value stack, as many as the function gives.
    pub fn finish_invoke(exec: Execution) -> (r: Result<Vec<Value>, crate::Error>)
        ensures
            exec.value_stack@.len() < exec.arity ==> r == Err::<Vec<Value>, crate::Error>(
                crate::Error::Trap(
                    RuntimeErrorKind::Internal(
                        "invalid stack len after function invocation: len={stack_len}, function arity={arity}",
                    ),
                ),
            ),
            exec.value_stack@.len() >= exec.arity ==> r is Ok && r->Ok_0@ == exec.value_stack@.subrange(
                exec.value_stack@.len() - exec.arity,
                exec.value_stack@.len() as int,
            ),
    {
        let mut value_stack = exec.value_stack;
        let stack_len = value_stack.len();
        if stack_len < exec.arity {
            return Err(
                crate::Error::Trap(
                    RuntimeErrorKind::Internal(
                        "invalid stack len after function invocation: len={stack_len}, function arity={arity}",
                    ),
                ),
            );
        }
        Ok(value_stack.split_off(stack_len - exec.arity))
    }
}

} // verus!
