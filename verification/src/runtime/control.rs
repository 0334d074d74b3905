//! Laws of the control instructions of the executor: how the conditional and indexed branches
//! relate to `br`, where a branch leads, and how a call hands its arguments over.
use vstd::prelude::*;

use crate::binary::types::BlockType;
use crate::instructions::{InstrV, Instruction};
use crate::runtime::executor::{unwind_error, unwound};
use crate::runtime::instance::ModuleInstance;
use crate::runtime::machine::{StepV, proceed, spec_call, spec_control, spec_variable};
use crate::runtime::store::{FuncAddr, FuncBody, FuncInstance, GlobalInstance};
use crate::runtime::stack::FrameV;
use crate::runtime::value::{Value, default_values, spec_default_value};
use crate::runtime::RunOutcome;

verus! {

/// `br_if l` with a non-zero condition is `br l` on the stack below the condition; with a
/// zero condition it only pops the condition and goes on.
pub proof fn lemma_br_if_is_conditional_br(
    mi: ModuleInstance,
    body: Seq<InstrV>,
    values: Seq<Value>,
    below: Seq<FrameV>,
    f: FrameV,
    l: u32,
    c: i32,
)
    ensures
        c != 0 ==> spec_control(mi, body, values.push(Value::I32(c)), below, f, InstrV::Plain(Instruction::BrIf(l)))
            == spec_control(mi, body, values, below, f, InstrV::Plain(Instruction::Br(l))),
        c == 0 ==> spec_control(mi, body, values.push(Value::I32(c)), below, f, InstrV::Plain(Instruction::BrIf(l)))
            == proceed(values, below, f),
{
    assert(values.push(Value::I32(c)).drop_last() =~= values);
}

/// `br_table` with an index `k` is `br` to the `k`-th label of its list, counted from zero
/// with `k` read as unsigned, or to its default label where `k` is past the list, on the stack
/// below the index. (A list of labels is read with a 32-bit count, and the index is
/// reinterpreted as unsigned, so a list longer than `2^31` labels is left out.)
pub proof fn lemma_br_table_is_indexed_br(
    mi: ModuleInstance,
    body: Seq<InstrV>,
    values: Seq<Value>,
    below: Seq<FrameV>,
    f: FrameV,
    labels: Seq<u32>,
    default: u32,
    k: i32,
)
    requires
        labels.len() <= 0x8000_0000,
    ensures
        ({
            let target = if (k as u32) < labels.len() { labels[(k as u32) as int] } else { default };
            spec_control(mi, body, values.push(Value::I32(k)), below, f, InstrV::BrTable(labels, default))
                == spec_control(mi, body, values, below, f, InstrV::Plain(Instruction::Br(target)))
        }),
{
    assert(values.push(Value::I32(k)).drop_last() =~= values);
    if k >= 0 {
        assert((k as usize) as int == (k as u32) as int);
    } else {
        assert(k < 0 ==> (k as usize) >= 0x8000_0000usize && (k as u32) >= 0x8000_0000u32) by (bit_vector);
    }
}

/// A loop's label leads back to the loop itself: entering `loop` and then branching to its
/// label at once gives the values as they were and the frame as it was, about to run the
/// `loop` instruction again.
pub proof fn lemma_loop_branch_restarts(
    mi: ModuleInstance,
    body: Seq<InstrV>,
    values: Seq<Value>,
    below: Seq<FrameV>,
    f: FrameV,
)
    requires
        f.pc > isize::MIN + 1,
        values.len() <= usize::MAX,
    ensures
        ({
            let lp = InstrV::Plain(Instruction::Loop(BlockType::Empty));
            let entered = spec_control(mi, body, values, below, f, lp);
            let g = entered->Gives_0.frames.last();
            &&& entered is Gives
            &&& entered->Gives_0.frames.drop_last() == below
            &&& spec_control(
                mi,
                body,
                entered->Gives_0.values,
                below,
                FrameV { pc: (g.pc + 1) as isize, ..g },
                InstrV::Plain(Instruction::Br(0)),
            ) == proceed(values, below, FrameV { pc: (f.pc - 1) as isize, ..f })
        }),
{
    let entered = spec_control(mi, body, values, below, f, InstrV::Plain(Instruction::Loop(BlockType::Empty)));
    let g = entered->Gives_0.frames.last();
    assert(entered->Gives_0.frames.drop_last() =~= below);
    assert(g.labels.take(g.labels.len() - 0 - 1) =~= f.labels);
    assert(unwind_error(values, values.len() as int, 0) is None);
    assert(unwound(values, values.len() as int, 0) =~= values);
}


/// A call hands the top values of the stack to the callee as its arguments: for a function of
/// a module with `n` parameters, the caller's stack loses its top `n` values, a frame for the
/// callee is pushed on the caller's frames, and `local.get k` in it gives the `k`-th of those
/// values for `k < n`, and the default value of the `k - n`-th declared local past them. A host
/// function is handed the same values, in the same order, without a frame.
pub proof fn lemma_call_passes_arguments(
    funcs: Seq<FuncInstance>,
    globals: Seq<GlobalInstance>,
    mi: ModuleInstance,
    values: Seq<Value>,
    frames: Seq<FrameV>,
    a: FuncAddr,
    k: u32,
)
    requires
        a.0 < funcs.len(),
        funcs[a.0 as int].ftype.params@.len() <= values.len(),
        values.len() <= usize::MAX,
        funcs[a.0 as int].body matches FuncBody::Wasm(w) ==> forall|j: int|
            0 <= j < w.locals@.len() ==> !(#[trigger] w.locals@[j] is V128),
    ensures
        ({
            let g = funcs[a.0 as int];
            let n = g.ftype.params@.len();
            let sp = values.len() - n;
            let nx = spec_call(funcs, values, frames, a)->Gives_0;
            &&& spec_call(funcs, values, frames, a) is Gives
            &&& nx.values == values.take(sp)
            &&& g.body matches FuncBody::Host(h) ==> nx.frames == frames && nx.step == StepV::Host(
                h,
                values.subrange(sp, values.len() as int),
            )
            &&& g.body matches FuncBody::Wasm(w) ==> {
                let callee = nx.frames.last();
                &&& nx.frames.drop_last() == frames
                &&& callee.arity == g.ftype.results@.len() as u32
                &&& k < n ==> spec_variable(globals, mi, nx.values, frames, callee, Instruction::LocalGet(k))
                    == proceed(nx.values.push(values[sp + k]), frames, callee)
                &&& n <= k < n + w.locals@.len() ==> spec_variable(
                    globals,
                    mi,
                    nx.values,
                    frames,
                    callee,
                    Instruction::LocalGet(k),
                ) == proceed(nx.values.push(spec_default_value(w.locals@[k - n])), frames, callee)
            }
        }),
{
    let g = funcs[a.0 as int];
    let n = g.ftype.params@.len();
    let sp = values.len() - n;
    if let FuncBody::Wasm(w) = g.body {
        let nx = spec_call(funcs, values, frames, a)->Gives_0;
        assert(nx.frames.drop_last() =~= frames);
        let args = values.subrange(sp, values.len() as int);
        let locals = args + default_values(w.locals@);
        assert(locals.len() == n + w.locals@.len());
        if k < n {
            assert(locals[k as int] == values[sp + k]);
        } else if k < n + w.locals@.len() {
            assert(locals[k as int] == default_values(w.locals@)[k - n]);
        }
    }
}

} // verus!
