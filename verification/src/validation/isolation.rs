//! Block isolation: the operands of a block are its own. Values that lie
//! below a block's frame are never read inside the block, so slipping more
//! of them in changes nothing of what the body inside the block gives.
use vstd::prelude::*;

use crate::binary::module::ModuleV;
use crate::binary::sections::code::{CodeEntryV, FuncLocal};
use crate::binary::types::{BlockType, FuncTypeV, ValType};
use crate::instructions::{InstrV, Instruction};
use crate::validation::{
    CtrlFrameV, NumSig, Outcome, VState, label_types, push_ctrl, push_val, push_vals, resize_vals, spec_binop,
    spec_br, spec_br_if, spec_br_labels, spec_br_table, spec_call, spec_call_indirect, spec_call_type, spec_compop,
    spec_convop, spec_data_drop, spec_drop, spec_elem_drop, spec_else, spec_end, spec_enter_block, spec_enter_if,
    spec_global_get, spec_global_set, spec_local_get, spec_local_set, spec_local_tee, spec_mem_step,
    spec_memory_grow, spec_memory_init, spec_memory_size, spec_numeric, spec_other, spec_pop_ctrl,
    spec_pop_three_i32, spec_pop_val, spec_pop_val_expect, spec_pop_vals_expect, spec_ref_is_null, spec_return,
    spec_select, spec_select_t, spec_step, spec_table_get, spec_table_init, spec_table_set, spec_unreachable,
    initial_state, spec_run, spec_validate_function, spec_validate_functions, spec_validate_module, state_of,
    value_type_of,
};
use crate::validation::ValueType;

verus! {

/// A frame raised by `n`.
pub open spec fn raise_frame(f: CtrlFrameV, n: int) -> CtrlFrameV {
    CtrlFrameV { opcode: f.opcode, start: f.start, end: f.end, height: f.height + n, unreachable: f.unreachable }
}

/// The state with the values `p` slipped in at the height of frame `k`:
/// they lie below frame `k` and every frame above it, whose heights move up
/// over them.
pub open spec fn raise(s: VState, k: int, p: Seq<ValueType>) -> VState {
    let h = s.ctrls[k].height;
    VState {
        vals: s.vals.take(h) + p + s.vals.skip(h),
        ctrls: Seq::new(
            s.ctrls.len(),
            |i: int|
                if i < k {
                    s.ctrls[i]
                } else {
                    raise_frame(s.ctrls[i], p.len() as int)
                },
        ),
    }
}

/// An outcome with its state raised.
pub open spec fn raised(o: Outcome<VState>, k: int, p: Seq<ValueType>) -> Outcome<VState> {
    match o {
        Outcome::Gives(s) => Outcome::Gives(raise(s, k, p)),
        Outcome::Fails(e) => Outcome::Fails(e),
        Outcome::Panics => Outcome::Panics,
    }
}

/// An outcome of popping with its state raised.
pub open spec fn raised_pop<T>(o: Outcome<(VState, T)>, k: int, p: Seq<ValueType>) -> Outcome<(VState, T)> {
    match o {
        Outcome::Gives((s, t)) => Outcome::Gives((raise(s, k, p), t)),
        Outcome::Fails(e) => Outcome::Fails(e),
        Outcome::Panics => Outcome::Panics,
    }
}

/// Frame `k` exists, and from it up, the frames stand on one another: their
/// heights do not go down, and the innermost one's height is at most the
/// number of operands.
pub open spec fn stacked(s: VState, k: int) -> bool {
    &&& 0 <= k < s.ctrls.len()
    &&& 0 <= s.ctrls[k].height
    &&& forall|i: int, j: int| k <= i <= j < s.ctrls.len() ==> s.ctrls[i].height <= s.ctrls[j].height
    &&& s.ctrls.last().height <= s.vals.len()
}

/// Popping an operand, after values were slipped in below frame `k`.
pub proof fn lemma_pop_raise(s: VState, k: int, p: Seq<ValueType>)
    requires
        stacked(s, k),
    ensures
        spec_pop_val(raise(s, k, p)) == raised_pop(spec_pop_val(s), k, p),
        spec_pop_val(s) matches Outcome::Gives((s2, _)) ==> s2.ctrls == s.ctrls && stacked(s2, k),
{
    let r = raise(s, k, p);
    let h = s.ctrls[k].height;
    assert(r.ctrls.last() == raise_frame(s.ctrls.last(), p.len() as int));
    assert(s.ctrls[k].height <= s.ctrls.last().height);
    if s.vals.len() != s.ctrls.last().height {
        assert(r.vals.drop_last() =~= s.vals.drop_last().take(h) + p + s.vals.drop_last().skip(h));
    }
}

/// Popping an operand of an expected type, after values were slipped in below frame `k`.
pub proof fn lemma_pop_expect_raise(s: VState, k: int, p: Seq<ValueType>, t: ValueType)
    requires
        stacked(s, k),
    ensures
        spec_pop_val_expect(raise(s, k, p), t) == raised_pop(spec_pop_val_expect(s, t), k, p),
        spec_pop_val_expect(s, t) matches Outcome::Gives((s2, _)) ==> s2.ctrls == s.ctrls && stacked(s2, k),
{
    lemma_pop_raise(s, k, p);
}

/// Popping operands of expected types, after values were slipped in below frame `k`.
pub proof fn lemma_pop_vals_raise(s: VState, k: int, p: Seq<ValueType>, ts: Seq<ValueType>)
    requires
        stacked(s, k),
    ensures
        spec_pop_vals_expect(raise(s, k, p), ts) == raised_pop(spec_pop_vals_expect(s, ts), k, p),
        spec_pop_vals_expect(s, ts) matches Outcome::Gives((s2, _)) ==> s2.ctrls == s.ctrls && stacked(s2, k),
    decreases ts.len(),
{
    if ts.len() > 0 {
        lemma_pop_expect_raise(s, k, p, ts.last());
        match spec_pop_val_expect(s, ts.last()) {
            Outcome::Gives((s2, _)) => {
                lemma_pop_vals_raise(s2, k, p, ts.drop_last());
            },
            _ => {},
        }
    }
}

/// Pushing operands commutes with slipping values in below frame `k`.
pub proof fn lemma_push_vals_raise(s: VState, k: int, p: Seq<ValueType>, ts: Seq<ValueType>)
    requires
        stacked(s, k),
    ensures
        push_vals(raise(s, k, p), ts) == raise(push_vals(s, ts), k, p),
        stacked(push_vals(s, ts), k),
        push_val(raise(s, k, p), if ts.len() > 0 { ts[0] } else { ValueType::I32 }) == raise(
            push_val(s, if ts.len() > 0 { ts[0] } else { ValueType::I32 }),
            k,
            p,
        ),
        stacked(push_val(s, if ts.len() > 0 { ts[0] } else { ValueType::I32 }), k),
{
    let h = s.ctrls[k].height;
    assert(s.ctrls[k].height <= s.ctrls.last().height);
    let t = if ts.len() > 0 { ts[0] } else { ValueType::I32 };
    assert(raise(s, k, p).vals + ts =~= (s.vals + ts).take(h) + p + (s.vals + ts).skip(h));
    assert(raise(s, k, p).vals.push(t) =~= s.vals.push(t).take(h) + p + s.vals.push(t).skip(h));
    assert(push_vals(raise(s, k, p), ts) =~= raise(push_vals(s, ts), k, p));
    assert(push_val(raise(s, k, p), t) =~= raise(push_val(s, t), k, p));
}

/// Pushing one operand commutes with slipping values in below frame `k`.
pub proof fn lemma_push_val_raise(s: VState, k: int, p: Seq<ValueType>, t: ValueType)
    requires
        stacked(s, k),
    ensures
        push_val(raise(s, k, p), t) == raise(push_val(s, t), k, p),
        stacked(push_val(s, t), k),
{
    lemma_push_vals_raise(s, k, p, seq![t]);
}

/// Opening a frame commutes with slipping values in below frame `k`.
pub proof fn lemma_push_ctrl_raise(s: VState, k: int, p: Seq<ValueType>, op: crate::instructions::InstrV, st: Seq<ValueType>, en: Seq<ValueType>)
    requires
        stacked(s, k),
    ensures
        push_ctrl(raise(s, k, p), op, st, en) == raise(push_ctrl(s, op, st, en), k, p),
        stacked(push_ctrl(s, op, st, en), k),
        push_ctrl(s, op, st, en).ctrls.len() == s.ctrls.len() + 1,
        frames_kept(s, push_ctrl(s, op, st, en), k),
{
    let h = s.ctrls[k].height;
    assert(s.ctrls[k].height <= s.ctrls.last().height);
    let a = push_ctrl(raise(s, k, p), op, st, en);
    let b = raise(push_ctrl(s, op, st, en), k, p);
    assert(a.vals =~= b.vals);
    assert(a.ctrls =~= b.ctrls);
}

/// Marking the innermost frame unreachable commutes with slipping values
/// in below frame `k`.
pub proof fn lemma_unreachable_raise(s: VState, k: int, p: Seq<ValueType>)
    requires
        stacked(s, k),
    ensures
        spec_unreachable(raise(s, k, p)) == raised(spec_unreachable(s), k, p),
        spec_unreachable(s) matches Outcome::Gives(s2) ==> s2.ctrls.len() == s.ctrls.len() && stacked(s2, k)
            && frames_kept(s, s2, k),
{
    reveal(spec_unreachable);
    let h = s.ctrls[k].height;
    let top = s.ctrls.last().height;
    assert(h <= top);
    let a = spec_unreachable(raise(s, k, p))->Gives_0;
    let b = raise(spec_unreachable(s)->Gives_0, k, p);
    assert(resize_vals(s.vals, top) =~= s.vals.subrange(0, top));
    assert(a.vals =~= b.vals);
    assert(a.ctrls =~= b.ctrls);
}

/// Closing a frame above frame `k` commutes with slipping values in below it;
/// the frame closed is given back raised.
pub proof fn lemma_pop_ctrl_raise(s: VState, k: int, p: Seq<ValueType>)
    requires
        stacked(s, k),
        s.ctrls.len() > k + 1,
    ensures
        spec_pop_ctrl(raise(s, k, p)) == match spec_pop_ctrl(s) {
            Outcome::Gives((s2, f)) => Outcome::Gives((raise(s2, k, p), raise_frame(f, p.len() as int))),
            Outcome::Fails(e) => Outcome::Fails(e),
            Outcome::Panics => Outcome::Panics,
        },
        spec_pop_ctrl(s) matches Outcome::Gives((s2, f)) ==> s2.ctrls.len() == s.ctrls.len() - 1 && stacked(s2, k)
            && f.end == s.ctrls.last().end && f.start == s.ctrls.last().start && f.opcode == s.ctrls.last().opcode
            && frames_kept(s, s2, k),
{
    let r = raise(s, k, p);
    assert(r.ctrls.last() == raise_frame(s.ctrls.last(), p.len() as int));
    lemma_pop_vals_raise(s, k, p, s.ctrls.last().end);
    match spec_pop_vals_expect(s, s.ctrls.last().end) {
        Outcome::Gives((s2, _)) => {
            let a = VState { vals: raise(s2, k, p).vals, ctrls: raise(s2, k, p).ctrls.drop_last() };
            let b = raise(VState { vals: s2.vals, ctrls: s2.ctrls.drop_last() }, k, p);
            assert(a.ctrls =~= b.ctrls);
            assert(s2.ctrls[s2.ctrls.len() - 2].height <= s2.ctrls.last().height);
        },
        _ => {},
    }
}

/// A step's outcome, from `s`, keeps the frames from `k` up standing on one
/// another, with `d` more frames than before.
pub open spec fn kept(o: Outcome<VState>, s: VState, k: int, d: int) -> bool {
    o matches Outcome::Gives(s2) ==> stacked(s2, k) && s2.ctrls.len() == s.ctrls.len() + d && frames_kept(s, s2, k)
}

/// Two frames alike but for whether their rest is unreachable.
pub open spec fn same_frame(a: CtrlFrameV, b: CtrlFrameV) -> bool {
    a.opcode == b.opcode && a.start == b.start && a.end == b.end && a.height == b.height
}

/// The frames up to `k` of `s2` are those of `s`, but for whether their rest is unreachable.
pub open spec fn frames_kept(s: VState, s2: VState, k: int) -> bool {
    forall|i: int| 0 <= i <= k ==> same_frame(#[trigger] s2.ctrls[i], s.ctrls[i])
}

/// The branch types of a frame do not depend on its height.
pub proof fn lemma_label_types_raise(s: VState, k: int, p: Seq<ValueType>, n: int)
    requires
        0 <= k < s.ctrls.len(),
        0 <= n < s.ctrls.len(),
    ensures
        label_types(n, raise(s, k, p).ctrls) == label_types(n, s.ctrls),
{
}

proof fn lemma_convop_raise(s: VState, k: int, p: Seq<ValueType>, a: ValueType, b: ValueType)
    requires
        stacked(s, k),
    ensures
        spec_convop(raise(s, k, p), a, b) == raised(spec_convop(s, a, b), k, p),
        kept(spec_convop(s, a, b), s, k, 0),
{
    lemma_pop_expect_raise(s, k, p, a);
    if let Outcome::Gives((s1, _)) = spec_pop_val_expect(s, a) {
        lemma_push_val_raise(s1, k, p, b);
    }
}

proof fn lemma_binop_raise(s: VState, k: int, p: Seq<ValueType>, t: ValueType, r: ValueType, compare: bool)
    requires
        stacked(s, k),
        r == if compare { ValueType::I32 } else { t },
    ensures
        compare ==> spec_compop(raise(s, k, p), t) == raised(spec_compop(s, t), k, p) && kept(spec_compop(s, t), s, k, 0),
        !compare ==> spec_binop(raise(s, k, p), t) == raised(spec_binop(s, t), k, p) && kept(spec_binop(s, t), s, k, 0),
{
    lemma_pop_expect_raise(s, k, p, t);
    if let Outcome::Gives((s1, _)) = spec_pop_val_expect(s, t) {
        lemma_pop_expect_raise(s1, k, p, t);
        if let Outcome::Gives((s2, _)) = spec_pop_val_expect(s1, t) {
            lemma_push_val_raise(s2, k, p, r);
        }
    }
}

proof fn lemma_numeric_raise(s: VState, k: int, p: Seq<ValueType>, sig: NumSig)
    requires
        stacked(s, k),
    ensures
        spec_numeric(raise(s, k, p), sig) == raised(spec_numeric(s, sig), k, p),
        kept(spec_numeric(s, sig), s, k, 0),
{
    match sig {
        NumSig::Const(t) => lemma_push_val_raise(s, k, p, value_type_of(t)),
        NumSig::Test(t) => lemma_convop_raise(s, k, p, value_type_of(t), ValueType::I32),
        NumSig::Cmp(t) => lemma_binop_raise(s, k, p, value_type_of(t), ValueType::I32, true),
        NumSig::Un(t) => lemma_convop_raise(s, k, p, value_type_of(t), value_type_of(t)),
        NumSig::Bin(t) => lemma_binop_raise(s, k, p, value_type_of(t), value_type_of(t), false),
        NumSig::Conv(a, b) => lemma_convop_raise(s, k, p, value_type_of(a), value_type_of(b)),
    }
}

proof fn lemma_mem_step_raise(s: VState, k: int, p: Seq<ValueType>, m: crate::binary::module::ModuleV, a: crate::validation::MemAccess)
    requires
        stacked(s, k),
    ensures
        spec_mem_step(raise(s, k, p), m, a) == raised(spec_mem_step(s, m, a), k, p),
        kept(spec_mem_step(s, m, a), s, k, 0),
{
    lemma_convop_raise(s, k, p, ValueType::I32, value_type_of(a.valtype));
    lemma_pop_expect_raise(s, k, p, value_type_of(a.valtype));
    if let Outcome::Gives((s1, _)) = spec_pop_val_expect(s, value_type_of(a.valtype)) {
        lemma_pop_expect_raise(s1, k, p, ValueType::I32);
    }
}

/// Pops two operands of the given types and gives the state; the lemma for
/// the bulk and store forms.
proof fn lemma_pop_two_raise(s: VState, k: int, p: Seq<ValueType>, a: ValueType, b: ValueType)
    requires
        stacked(s, k),
    ensures
        ({
            let f = |x: VState| match spec_pop_val_expect(x, a) {
                Outcome::Panics => Outcome::Panics,
                Outcome::Fails(e) => Outcome::Fails(e),
                Outcome::Gives((x1, _)) => state_of(spec_pop_val_expect(x1, b)),
            };
            f(raise(s, k, p)) == raised(f(s), k, p) && kept(f(s), s, k, 0)
        }),
{
    lemma_pop_expect_raise(s, k, p, a);
    if let Outcome::Gives((s1, _)) = spec_pop_val_expect(s, a) {
        lemma_pop_expect_raise(s1, k, p, b);
    }
}

proof fn lemma_three_raise(s: VState, k: int, p: Seq<ValueType>)
    requires
        stacked(s, k),
    ensures
        spec_pop_three_i32(raise(s, k, p)) == raised(spec_pop_three_i32(s), k, p),
        kept(spec_pop_three_i32(s), s, k, 0),
{
    lemma_pop_expect_raise(s, k, p, ValueType::I32);
    if let Outcome::Gives((s1, _)) = spec_pop_val_expect(s, ValueType::I32) {
        lemma_pop_expect_raise(s1, k, p, ValueType::I32);
        if let Outcome::Gives((s2, _)) = spec_pop_val_expect(s1, ValueType::I32) {
            lemma_pop_expect_raise(s2, k, p, ValueType::I32);
        }
    }
}

proof fn lemma_call_type_raise(s: VState, k: int, p: Seq<ValueType>, ft: crate::binary::types::FuncTypeV)
    requires
        stacked(s, k),
    ensures
        spec_call_type(raise(s, k, p), ft) == raised(spec_call_type(s, ft), k, p),
        kept(spec_call_type(s, ft), s, k, 0),
{
    lemma_pop_vals_raise(s, k, p, crate::validation::value_types_of(ft.params));
    if let Outcome::Gives((s2, _)) = spec_pop_vals_expect(s, crate::validation::value_types_of(ft.params)) {
        lemma_push_vals_raise(s2, k, p, crate::validation::value_types_of(ft.results));
    }
}

proof fn lemma_br_labels_raise(s: VState, k: int, p: Seq<ValueType>, labels: Seq<u32>, arity: int)
    requires
        stacked(s, k),
    ensures
        spec_br_labels(raise(s, k, p), labels, arity) == raised(spec_br_labels(s, labels, arity), k, p),
        kept(spec_br_labels(s, labels, arity), s, k, 0),
    decreases labels.len(),
{
    if labels.len() > 0 {
        lemma_br_labels_raise(s, k, p, labels.drop_last(), arity);
        if let Outcome::Gives(s2) = spec_br_labels(s, labels.drop_last(), arity) {
            let n = labels.last();
            if n < s2.ctrls.len() {
                lemma_label_types_raise(s2, k, p, n as int);
                lemma_push_vals_raise(s2, k, p, label_types(n as int, s2.ctrls));
            }
        }
    }
}

proof fn lemma_control_raise(s: VState, k: int, p: Seq<ValueType>, i: Instruction, m: crate::binary::module::ModuleV)
    requires
        stacked(s, k),
        i is Else || i is End ==> s.ctrls.len() > k + 1,
    ensures
        i is Br ==> spec_br(raise(s, k, p), i->Br_0) == raised(spec_br(s, i->Br_0), k, p) && kept(spec_br(s, i->Br_0), s, k, 0),
        i is BrIf ==> spec_br_if(raise(s, k, p), i->BrIf_0) == raised(spec_br_if(s, i->BrIf_0), k, p) && kept(
            spec_br_if(s, i->BrIf_0),
            s,
            k,
            0,
        ),
        i is Return ==> spec_return(raise(s, k, p)) == raised(spec_return(s), k, p) && kept(spec_return(s), s, k, 0),
        i is Else ==> spec_else(raise(s, k, p)) == raised(spec_else(s), k, p) && kept(spec_else(s), s, k, 0),
        i is End ==> spec_end(raise(s, k, p)) == raised(spec_end(s), k, p) && kept(spec_end(s), s, k, -1),
        i is Unreachable ==> spec_unreachable(raise(s, k, p)) == raised(spec_unreachable(s), k, p) && kept(
            spec_unreachable(s),
            s,
            k,
            0,
        ),
        i is Block ==> spec_enter_block(raise(s, k, p), m, i->Block_0, InstrV::Plain(i)) == raised(
            spec_enter_block(s, m, i->Block_0, InstrV::Plain(i)),
            k,
            p,
        ) && kept(spec_enter_block(s, m, i->Block_0, InstrV::Plain(i)), s, k, 1),
        i is Loop ==> spec_enter_block(raise(s, k, p), m, i->Loop_0, InstrV::Plain(i)) == raised(
            spec_enter_block(s, m, i->Loop_0, InstrV::Plain(i)),
            k,
            p,
        ) && kept(spec_enter_block(s, m, i->Loop_0, InstrV::Plain(i)), s, k, 1),
        i is If ==> spec_enter_if(raise(s, k, p), m, i->If_0) == raised(spec_enter_if(s, m, i->If_0), k, p) && kept(
            spec_enter_if(s, m, i->If_0),
            s,
            k,
            1,
        ),
{
    reveal(spec_br);
    reveal(spec_br_if);
    reveal(spec_return);
    reveal(spec_else);
    reveal(spec_end);
    reveal(spec_enter_block);
    reveal(spec_enter_if);
    lemma_unreachable_raise(s, k, p);
    match i {
        Instruction::Br(n) => {
            if n < s.ctrls.len() {
                lemma_label_types_raise(s, k, p, n as int);
                let lt = label_types(n as int, s.ctrls);
                lemma_pop_vals_raise(s, k, p, lt);
                if let Outcome::Gives((s2, _)) = spec_pop_vals_expect(s, lt) {
                    lemma_unreachable_raise(s2, k, p);
                }
            }
        },
        Instruction::BrIf(n) => {
            if n < s.ctrls.len() {
                lemma_pop_expect_raise(s, k, p, ValueType::I32);
                if let Outcome::Gives((s1, _)) = spec_pop_val_expect(s, ValueType::I32) {
                    lemma_label_types_raise(s1, k, p, n as int);
                    let lt = label_types(n as int, s1.ctrls);
                    lemma_pop_vals_raise(s1, k, p, lt);
                    if let Outcome::Gives((s2, _)) = spec_pop_vals_expect(s1, lt) {
                        lemma_push_vals_raise(s2, k, p, lt);
                    }
                }
            }
        },
        Instruction::Return => {
            assert(raise(s, k, p).ctrls[0].end == s.ctrls[0].end);
            lemma_pop_vals_raise(s, k, p, s.ctrls[0].end);
            if let Outcome::Gives((s2, _)) = spec_pop_vals_expect(s, s.ctrls[0].end) {
                lemma_unreachable_raise(s2, k, p);
            }
        },
        Instruction::Else => {
            lemma_pop_ctrl_raise(s, k, p);
            if let Outcome::Gives((s2, f)) = spec_pop_ctrl(s) {
                lemma_push_ctrl_raise(s2, k, p, InstrV::Plain(Instruction::Else), f.start, f.end);
            }
        },
        Instruction::End => {
            lemma_pop_ctrl_raise(s, k, p);
            if let Outcome::Gives((s2, f)) = spec_pop_ctrl(s) {
                lemma_push_vals_raise(s2, k, p, f.end);
            }
        },
        Instruction::Block(bt) | Instruction::Loop(bt) => {
            if let Outcome::Gives((t1, t2)) = crate::validation::spec_block_type(bt, m) {
                lemma_pop_vals_raise(s, k, p, t1);
                if let Outcome::Gives((s2, _)) = spec_pop_vals_expect(s, t1) {
                    lemma_push_ctrl_raise(s2, k, p, InstrV::Plain(i), t1, t2);
                }
            }
        },
        Instruction::If(bt) => {
            if let Outcome::Gives((t1, t2)) = crate::validation::spec_block_type(bt, m) {
                lemma_pop_expect_raise(s, k, p, ValueType::I32);
                if let Outcome::Gives((s1, _)) = spec_pop_val_expect(s, ValueType::I32) {
                    lemma_pop_vals_raise(s1, k, p, t1);
                    if let Outcome::Gives((s2, _)) = spec_pop_vals_expect(s1, t1) {
                        lemma_push_ctrl_raise(s2, k, p, InstrV::Plain(i), t1, t2);
                    }
                }
            }
        },
        _ => {},
    }
}

/// The change in the number of open frames that an instruction makes when
/// it succeeds: one more for a block, loop or if, one less for an end.
pub open spec fn frame_delta(i: InstrV) -> int {
    match i {
        InstrV::Plain(Instruction::Block(_)) | InstrV::Plain(Instruction::Loop(_)) | InstrV::Plain(Instruction::If(_)) => 1,
        InstrV::Plain(Instruction::End) => -1,
        _ => 0,
    }
}

/// Whether an instruction closes the innermost frame: an `end` or an `else`.
pub open spec fn closes_frame(i: InstrV) -> bool {
    i == InstrV::Plain(Instruction::End) || i == InstrV::Plain(Instruction::Else)
}

proof fn lemma_other_raise(
    s: VState,
    k: int,
    p: Seq<ValueType>,
    m: crate::binary::module::ModuleV,
    ft: crate::binary::types::FuncTypeV,
    locals: Seq<crate::binary::sections::code::FuncLocal>,
    i: Instruction,
)
    requires
        stacked(s, k),
        i is Else || i is End ==> s.ctrls.len() > k + 1,
    ensures
        spec_other(raise(s, k, p), m, ft, locals, i) == raised(spec_other(s, m, ft, locals, i), k, p),
        kept(spec_other(s, m, ft, locals, i), s, k, frame_delta(InstrV::Plain(i))),
{
    lemma_control_raise(s, k, p, i, m);
    match i {
        Instruction::Call(idx) => {
            reveal(spec_call);
            if let Outcome::Gives(t) = crate::validation::spec_func_type_at(m, idx) {
                lemma_call_type_raise(s, k, p, t);
            }
        },
        Instruction::CallIndirect((type_idx, table_idx)) => {
            reveal(spec_call_indirect);
            lemma_pop_expect_raise(s, k, p, ValueType::I32);
            if let Outcome::Gives((s1, _)) = spec_pop_val_expect(s, ValueType::I32) {
                if let Outcome::Gives(t) = crate::validation::spec_type_at(m, type_idx) {
                    lemma_call_type_raise(s1, k, p, t);
                }
            }
        },
        Instruction::Drop => {
            reveal(spec_drop);
            lemma_pop_raise(s, k, p);
        },
        Instruction::Select => {
            reveal(spec_select);
            lemma_pop_expect_raise(s, k, p, ValueType::I32);
            if let Outcome::Gives((s1, _)) = spec_pop_val_expect(s, ValueType::I32) {
                lemma_pop_raise(s1, k, p);
                if let Outcome::Gives((s2, t1)) = spec_pop_val(s1) {
                    lemma_pop_raise(s2, k, p);
                    if let Outcome::Gives((s3, t2)) = spec_pop_val(s2) {
                        lemma_push_val_raise(s3, k, p, t1);
                        lemma_push_val_raise(s3, k, p, t2);
                    }
                }
            }
        },
        Instruction::LocalGet(idx) => {
            reveal(spec_local_get);
            if let Outcome::Gives(t) = crate::validation::spec_local_type(ft, locals, idx) {
                lemma_push_val_raise(s, k, p, t);
            }
        },
        Instruction::LocalSet(idx) => {
            reveal(spec_local_set);
            if let Outcome::Gives(t) = crate::validation::spec_local_type(ft, locals, idx) {
                lemma_pop_expect_raise(s, k, p, t);
            }
        },
        Instruction::LocalTee(idx) => {
            reveal(spec_local_tee);
            if let Outcome::Gives(t) = crate::validation::spec_local_type(ft, locals, idx) {
                lemma_convop_raise(s, k, p, t, t);
            }
        },
        Instruction::GlobalGet(idx) => {
            reveal(spec_global_get);
            if let Outcome::Gives(gt) = crate::validation::spec_global_type(m, idx) {
                lemma_push_val_raise(s, k, p, value_type_of(gt.type_));
            }
        },
        Instruction::GlobalSet(idx) => {
            reveal(spec_global_set);
            if let Outcome::Gives(gt) = crate::validation::spec_global_type(m, idx) {
                lemma_pop_expect_raise(s, k, p, value_type_of(gt.type_));
            }
        },
        Instruction::TableGet(idx) => {
            reveal(spec_table_get);
            lemma_pop_expect_raise(s, k, p, ValueType::I32);
            if let Outcome::Gives((s1, _)) = spec_pop_val_expect(s, ValueType::I32) {
                if let Outcome::Gives(t) = crate::validation::spec_table_type(m, idx) {
                    lemma_push_val_raise(s1, k, p, ValueType::Ref(t.elemtype));
                }
            }
        },
        Instruction::TableSet(idx) => {
            reveal(spec_table_set);
            if let Outcome::Gives(t) = crate::validation::spec_table_type(m, idx) {
                lemma_pop_two_raise(s, k, p, ValueType::Ref(t.elemtype), ValueType::I32);
            }
        },
        Instruction::MemorySize(idx) => {
            reveal(spec_memory_size);
            lemma_push_val_raise(s, k, p, ValueType::I32);
        },
        Instruction::MemoryGrow(idx) => {
            reveal(spec_memory_grow);
            lemma_convop_raise(s, k, p, ValueType::I32, ValueType::I32);
        },
        Instruction::RefNull(rt) => {
            lemma_push_val_raise(s, k, p, ValueType::Ref(rt));
        },
        Instruction::RefIsNull => {
            reveal(spec_ref_is_null);
            lemma_pop_raise(s, k, p);
            if let Outcome::Gives((s1, _)) = spec_pop_val(s) {
                lemma_push_val_raise(s1, k, p, ValueType::I32);
            }
        },
        Instruction::RefFunc(_) => {
            lemma_push_val_raise(s, k, p, ValueType::Ref(crate::binary::types::RefType::Func));
        },
        Instruction::MemoryInit(_) => {
            reveal(spec_memory_init);
            lemma_three_raise(s, k, p);
        },
        Instruction::TableInit(_) => {
            reveal(spec_table_init);
            lemma_three_raise(s, k, p);
        },
        Instruction::DataDrop(_) => {
            reveal(spec_data_drop);
        },
        Instruction::ElemDrop(_) => {
            reveal(spec_elem_drop);
        },
        _ => {},
    }
}

proof fn lemma_select_t_raise(s: VState, k: int, p: Seq<ValueType>, ts: Seq<ValType>)
    requires
        stacked(s, k),
    ensures
        spec_select_t(raise(s, k, p), ts) == raised(spec_select_t(s, ts), k, p),
        kept(spec_select_t(s, ts), s, k, 0),
{
    if ts.len() == 1 {
        let t = value_type_of(ts[0]);
        lemma_pop_expect_raise(s, k, p, ValueType::I32);
        if let Outcome::Gives((s1, _)) = spec_pop_val_expect(s, ValueType::I32) {
            lemma_pop_expect_raise(s1, k, p, t);
            if let Outcome::Gives((s2, _)) = spec_pop_val_expect(s1, t) {
                lemma_pop_expect_raise(s2, k, p, t);
                if let Outcome::Gives((s3, _)) = spec_pop_val_expect(s2, t) {
                    lemma_push_val_raise(s3, k, p, t);
                }
            }
        }
    }
}

proof fn lemma_br_table_raise(s: VState, k: int, p: Seq<ValueType>, labels: Seq<u32>, default: u32)
    requires
        stacked(s, k),
    ensures
        spec_br_table(raise(s, k, p), labels, default) == raised(spec_br_table(s, labels, default), k, p),
        kept(spec_br_table(s, labels, default), s, k, 0),
{
    lemma_pop_expect_raise(s, k, p, ValueType::I32);
    if let Outcome::Gives((s1, _)) = spec_pop_val_expect(s, ValueType::I32) {
        if default < s1.ctrls.len() {
            lemma_label_types_raise(s1, k, p, default as int);
            let mt = label_types(default as int, s1.ctrls);
            lemma_br_labels_raise(s1, k, p, labels, mt.len() as int);
            if let Outcome::Gives(s2) = spec_br_labels(s1, labels, mt.len() as int) {
                lemma_pop_vals_raise(s2, k, p, mt);
                if let Outcome::Gives((s3, _)) = spec_pop_vals_expect(s2, mt) {
                    lemma_unreachable_raise(s3, k, p);
                }
            }
        }
    }
}

/// One step of validation, after values were slipped in below frame `k`,
/// gives the same as before, with the same values slipped in, as long as it
/// does not close frame `k` itself.
pub proof fn lemma_step_raise(
    s: VState,
    k: int,
    p: Seq<ValueType>,
    m: crate::binary::module::ModuleV,
    ft: crate::binary::types::FuncTypeV,
    locals: Seq<crate::binary::sections::code::FuncLocal>,
    i: InstrV,
)
    requires
        stacked(s, k),
        closes_frame(i) ==> s.ctrls.len() > k + 1,
    ensures
        spec_step(raise(s, k, p), m, ft, locals, i) == raised(spec_step(s, m, ft, locals, i), k, p),
        kept(spec_step(s, m, ft, locals, i), s, k, frame_delta(i)),
{
    match i {
        InstrV::SelectT(ts) => lemma_select_t_raise(s, k, p, ts),
        InstrV::BrTable(labels, default) => lemma_br_table_raise(s, k, p, labels, default),
        InstrV::Plain(ins) => match crate::validation::spec_numeric_sig(ins) {
            Some(sig) => lemma_numeric_raise(s, k, p, sig),
            None => match crate::validation::spec_mem_access(ins) {
                Some(a) => lemma_mem_step_raise(s, k, p, m, a),
                None => lemma_other_raise(s, k, p, m, ft, locals, ins),
            },
        },
    }
}

/// How many frames a sequence of instructions leaves open, counting each
/// block, loop and if as opening one and each end as closing one.
pub open spec fn nesting(b: Seq<InstrV>) -> int
    decreases b.len(),
{
    if b.len() == 0 {
        0
    } else {
        nesting(b.drop_last()) + frame_delta(b.last())
    }
}

/// A body that stands inside a block: every block, loop and if it opens it
/// also closes with its own `end`, and no `end` or `else` stands at its
/// outermost level.
pub open spec fn block_body(b: Seq<InstrV>) -> bool {
    &&& nesting(b) == 0
    &&& forall|j: int| 0 <= j < b.len() && closes_frame(#[trigger] b[j]) ==> nesting(b.take(j)) >= 1
}

/// Running a body, after values were slipped in below frame `k`, gives the
/// same as before, with the same values slipped in, as long as the body
/// never closes frame `k`.
pub proof fn lemma_run_raise(
    s: VState,
    k: int,
    p: Seq<ValueType>,
    m: ModuleV,
    ft: FuncTypeV,
    locals: Seq<FuncLocal>,
    b: Seq<InstrV>,
)
    requires
        stacked(s, k),
        forall|j: int| 0 <= j < b.len() && closes_frame(#[trigger] b[j]) ==> s.ctrls.len() + nesting(b.take(j)) > k + 1,
    ensures
        spec_run(raise(s, k, p), m, ft, locals, b) == raised(spec_run(s, m, ft, locals, b), k, p),
        kept(spec_run(s, m, ft, locals, b), s, k, nesting(b)),
    decreases b.len(),
{
    if b.len() > 0 {
        let b0 = b.drop_last();
        assert forall|j: int| 0 <= j < b0.len() && closes_frame(#[trigger] b0[j]) implies s.ctrls.len() + nesting(
            b0.take(j),
        ) > k + 1 by {
            assert(b0.take(j) =~= b.take(j));
            assert(b0[j] == b[j]);
        }
        lemma_run_raise(s, k, p, m, ft, locals, b0);
        if let Outcome::Gives(s2) = spec_run(s, m, ft, locals, b0) {
            assert(b.take(b.len() - 1) =~= b0);
            assert(closes_frame(b[b.len() - 1]) ==> s.ctrls.len() + nesting(b.take(b.len() - 1)) > k + 1);
            lemma_step_raise(s2, k, p, m, ft, locals, b.last());
        }
    }
}

/// Running two bodies one after the other.
pub proof fn lemma_run_append(s: VState, m: ModuleV, ft: FuncTypeV, locals: Seq<FuncLocal>, a: Seq<InstrV>, b: Seq<InstrV>)
    ensures
        spec_run(s, m, ft, locals, a + b) == match spec_run(s, m, ft, locals, a) {
            Outcome::Gives(s2) => spec_run(s2, m, ft, locals, b),
            Outcome::Fails(e) => Outcome::Fails(e),
            Outcome::Panics => Outcome::Panics,
        },
    decreases b.len(),
{
    if b.len() == 0 {
        assert(a + b =~= a);
    } else {
        assert((a + b).drop_last() =~= a + b.drop_last());
        lemma_run_append(s, m, ft, locals, a, b.drop_last());
    }
}

proof fn lemma_run_one(s: VState, m: ModuleV, ft: FuncTypeV, locals: Seq<FuncLocal>, i: InstrV)
    ensures
        spec_run(s, m, ft, locals, seq![i]) == spec_step(s, m, ft, locals, i),
{
    let e = seq![i].drop_last();
    assert(e =~= Seq::<InstrV>::empty());
    assert(spec_run(s, m, ft, locals, e) == Outcome::Gives(s));
    assert(seq![i].last() == i);
}

/// Runs single instructions one after the other.
proof fn lemma_run_then(s: VState, m: ModuleV, ft: FuncTypeV, locals: Seq<FuncLocal>, a: Seq<InstrV>, i: InstrV)
    ensures
        spec_run(s, m, ft, locals, a + seq![i]) == match spec_run(s, m, ft, locals, a) {
            Outcome::Gives(s2) => spec_step(s2, m, ft, locals, i),
            Outcome::Fails(e) => Outcome::Fails(e),
            Outcome::Panics => Outcome::Panics,
        },
{
    lemma_run_append(s, m, ft, locals, a, seq![i]);
    if let Outcome::Gives(s2) = spec_run(s, m, ft, locals, a) {
        lemma_run_one(s2, m, ft, locals, i);
    }
}

/// The frame of a block without operands, opened at the start of a function.
pub open spec fn entered(ft: FuncTypeV) -> VState {
    push_ctrl(initial_state(ft), InstrV::Plain(Instruction::Block(BlockType::Empty)), seq![], seq![])
}

/// The start of both bodies: the block, and an `i32` and then the block.
proof fn lemma_block_entries(m: ModuleV, ft: FuncTypeV, locals: Seq<FuncLocal>)
    ensures
        spec_run(initial_state(ft), m, ft, locals, seq![InstrV::Plain(Instruction::Block(BlockType::Empty))])
            == Outcome::Gives(entered(ft)),
        spec_run(
            initial_state(ft),
            m,
            ft,
            locals,
            seq![InstrV::Plain(Instruction::I32Const(0)), InstrV::Plain(Instruction::Block(BlockType::Empty))],
        ) == Outcome::Gives(raise(entered(ft), 1, seq![ValueType::I32])),
        stacked(entered(ft), 1),
        entered(ft).ctrls.len() == 2,
        entered(ft).vals.len() == 0,
        entered(ft).ctrls[0].height == 0,
        entered(ft).ctrls[1].end == Seq::<ValueType>::empty(),
        entered(ft).ctrls[1].height == 0,
{
    reveal(spec_enter_block);
    let p = seq![ValueType::I32];
    let blk = InstrV::Plain(Instruction::Block(BlockType::Empty));
    let cst = InstrV::Plain(Instruction::I32Const(0));
    let s0 = initial_state(ft);
    let s1 = entered(ft);
    lemma_run_one(s0, m, ft, locals, blk);
    assert(spec_pop_vals_expect(s0, seq![]) == Outcome::Gives((s0, Seq::<ValueType>::empty())));
    let s0c = push_val(s0, ValueType::I32);
    lemma_run_one(s0, m, ft, locals, cst);
    lemma_run_then(s0, m, ft, locals, seq![cst], blk);
    assert(seq![cst] + seq![blk] =~= seq![cst, blk]);
    assert(spec_pop_vals_expect(s0c, seq![]) == Outcome::Gives((s0c, Seq::<ValueType>::empty())));
    let r1 = raise(s1, 1, p);
    let s1c = push_ctrl(s0c, blk, seq![], seq![]);
    assert(s1c.vals =~= r1.vals);
    assert(s1c.ctrls =~= r1.ctrls);
    assert(s1.vals =~= Seq::<ValueType>::empty());
}

proof fn lemma_step_end_drop(s: VState, m: ModuleV, ft: FuncTypeV, locals: Seq<FuncLocal>)
    ensures
        spec_step(s, m, ft, locals, InstrV::Plain(Instruction::End)) == spec_end(s),
        spec_step(s, m, ft, locals, InstrV::Plain(Instruction::Drop)) == spec_drop(s),
{
}

/// The end of both bodies: closing the block and the function, and
/// closing the block, dropping the `i32` and closing the function.
#[verifier::rlimit(50)]
proof fn lemma_block_exits(m: ModuleV, ft: FuncTypeV, locals: Seq<FuncLocal>, t: VState)
    requires
        stacked(t, 1),
        t.ctrls.len() == 2,
        t.ctrls[0].height == 0,
        t.ctrls[1].end == Seq::<ValueType>::empty(),
        t.ctrls[1].height == 0,
    ensures
        spec_run(t, m, ft, locals, seq![InstrV::Plain(Instruction::End), InstrV::Plain(Instruction::End)]) == spec_run(
            raise(t, 1, seq![ValueType::I32]),
            m,
            ft,
            locals,
            seq![InstrV::Plain(Instruction::End), InstrV::Plain(Instruction::Drop), InstrV::Plain(Instruction::End)],
        ),
{
    reveal(spec_end);
    reveal(spec_drop);
    let p = seq![ValueType::I32];
    let end = InstrV::Plain(Instruction::End);
    let drp = InstrV::Plain(Instruction::Drop);
    let rt = raise(t, 1, p);
    lemma_step_end_drop(t, m, ft, locals);
    lemma_step_end_drop(rt, m, ft, locals);
    lemma_run_then(t, m, ft, locals, seq![end], end);
    lemma_run_one(t, m, ft, locals, end);
    assert(seq![end] + seq![end] =~= seq![end, end]);
    lemma_run_one(rt, m, ft, locals, end);
    lemma_run_then(rt, m, ft, locals, seq![end], drp);
    lemma_run_then(rt, m, ft, locals, seq![end, drp], end);
    assert(seq![end] + seq![drp] =~= seq![end, drp]);
    assert(seq![end, drp] + seq![end] =~= seq![end, drp, end]);
    assert(spec_pop_vals_expect(t, seq![]) == Outcome::Gives((t, Seq::<ValueType>::empty())));
    assert(spec_pop_vals_expect(rt, seq![]) == Outcome::Gives((rt, Seq::<ValueType>::empty())));
    assert(rt.ctrls.last().height == 1);
    assert(rt.vals =~= p + t.vals);
    if t.vals.len() == 0 {
        let u = VState { vals: t.vals, ctrls: t.ctrls.drop_last() };
        let ru = VState { vals: p, ctrls: rt.ctrls.drop_last() };
        assert(rt.ctrls.drop_last() =~= t.ctrls.drop_last());
        assert(push_vals(u, seq![]) =~= u);
        assert(push_vals(ru, seq![]) =~= ru);
        assert(ru.vals.drop_last() =~= t.vals);
        lemma_step_end_drop(ru, m, ft, locals);
        lemma_step_end_drop(u, m, ft, locals);
        assert(spec_step(t, m, ft, locals, end) == Outcome::Gives(u));
        assert(spec_step(rt, m, ft, locals, end) == Outcome::Gives(ru));
        assert(spec_step(ru, m, ft, locals, drp) == Outcome::Gives(u));
    } else {
        assert(spec_step(t, m, ft, locals, end) == Outcome::<VState>::Fails(
            crate::validation::ValidationError::TypeMismatch,
        ));
        assert(spec_step(rt, m, ft, locals, end) == Outcome::<VState>::Fails(
            crate::validation::ValidationError::TypeMismatch,
        ));
    }
}

/// A value pushed before a block is never an operand inside it: a body
/// inside a block validates exactly as it does when an `i32` is pushed
/// before the block and dropped after it.
pub proof fn lemma_value_before_block_invisible(m: ModuleV, ft: FuncTypeV, e1: CodeEntryV, e2: CodeEntryV, b: Seq<InstrV>)
    requires
        block_body(b),
        e1.locals == e2.locals,
        e1.body == seq![InstrV::Plain(Instruction::Block(BlockType::Empty))] + b + seq![
            InstrV::Plain(Instruction::End),
            InstrV::Plain(Instruction::End),
        ],
        e2.body == seq![InstrV::Plain(Instruction::I32Const(0)), InstrV::Plain(Instruction::Block(BlockType::Empty))] + b
            + seq![InstrV::Plain(Instruction::End), InstrV::Plain(Instruction::Drop), InstrV::Plain(Instruction::End)],
    ensures
        spec_validate_function(m, ft, e1) == spec_validate_function(m, ft, e2),
{
    let locals = e1.locals;
    let p = seq![ValueType::I32];
    let blk = InstrV::Plain(Instruction::Block(BlockType::Empty));
    let cst = InstrV::Plain(Instruction::I32Const(0));
    let end = InstrV::Plain(Instruction::End);
    let drp = InstrV::Plain(Instruction::Drop);
    let s0 = initial_state(ft);
    let s1 = entered(ft);
    lemma_block_entries(m, ft, locals);
    assert forall|j: int| 0 <= j < b.len() && closes_frame(#[trigger] b[j]) implies s1.ctrls.len() + nesting(b.take(j))
        > 1 + 1 by {}
    lemma_run_raise(s1, 1, p, m, ft, locals, b);
    lemma_run_append(s0, m, ft, locals, seq![blk], b);
    lemma_run_append(s0, m, ft, locals, seq![cst, blk], b);
    let x1 = spec_run(s0, m, ft, locals, seq![blk] + b);
    let x2 = spec_run(s0, m, ft, locals, seq![cst, blk] + b);
    assert(x2 == raised(x1, 1, p));
    let t1 = seq![end, end];
    let t2 = seq![end, drp, end];
    lemma_run_append(s0, m, ft, locals, seq![blk] + b, t1);
    lemma_run_append(s0, m, ft, locals, seq![cst, blk] + b, t2);
    assert(seq![blk] + b + t1 == e1.body);
    assert(seq![cst, blk] + b + t2 =~= e2.body);
    if let Outcome::Gives(t) = x1 {
        assert(same_frame(t.ctrls[0], s1.ctrls[0]));
        assert(same_frame(t.ctrls[1], s1.ctrls[1]));
        lemma_block_exits(m, ft, locals, t);
    }
}

/// A module with another code section.
pub open spec fn with_codes(m: ModuleV, c: Seq<CodeEntryV>) -> ModuleV {
    ModuleV { codes: Some(c), ..m }
}

/// An instruction other than a numeric one, a load or a store reads
/// nothing of the module's code section.
proof fn lemma_other_codes(s: VState, m: ModuleV, c: Seq<CodeEntryV>, ft: FuncTypeV, locals: Seq<FuncLocal>, i: Instruction)
    ensures
        spec_other(s, m, ft, locals, i) == spec_other(s, with_codes(m, c), ft, locals, i),
{
    let m2 = with_codes(m, c);
    assert(m2.types == m.types && m2.imports == m.imports && m2.functions == m.functions && m2.tables == m.tables
        && m2.memories == m.memories && m2.globals == m.globals && m2.elements == m.elements && m2.data == m.data);
    match i {
        Instruction::Block(_) | Instruction::Loop(_) => reveal(spec_enter_block),
        Instruction::If(_) => reveal(spec_enter_if),
        Instruction::Call(_) => reveal(spec_call),
        Instruction::CallIndirect(_) => reveal(spec_call_indirect),
        Instruction::GlobalGet(_) => reveal(spec_global_get),
        Instruction::GlobalSet(_) => reveal(spec_global_set),
        Instruction::TableGet(_) => reveal(spec_table_get),
        Instruction::TableSet(_) => reveal(spec_table_set),
        Instruction::MemorySize(_) => reveal(spec_memory_size),
        Instruction::MemoryGrow(_) => reveal(spec_memory_grow),
        Instruction::MemoryInit(_) => reveal(spec_memory_init),
        Instruction::DataDrop(_) => reveal(spec_data_drop),
        Instruction::TableInit(_) => reveal(spec_table_init),
        Instruction::ElemDrop(_) => reveal(spec_elem_drop),
        _ => {},
    }
}

/// A step of validation reads nothing of the module's code section.
proof fn lemma_step_codes(s: VState, m: ModuleV, c: Seq<CodeEntryV>, ft: FuncTypeV, locals: Seq<FuncLocal>, i: InstrV)
    ensures
        spec_step(s, m, ft, locals, i) == spec_step(s, with_codes(m, c), ft, locals, i),
{
    let m2 = with_codes(m, c);
    assert(m2.memories == m.memories);
    if let InstrV::Plain(ins) = i {
        lemma_other_codes(s, m, c, ft, locals, ins);
    }
}

proof fn lemma_run_codes(s: VState, m: ModuleV, c: Seq<CodeEntryV>, ft: FuncTypeV, locals: Seq<FuncLocal>, b: Seq<InstrV>)
    ensures
        spec_run(s, m, ft, locals, b) == spec_run(s, with_codes(m, c), ft, locals, b),
    decreases b.len(),
{
    if b.len() > 0 {
        lemma_run_codes(s, m, c, ft, locals, b.drop_last());
        if let Outcome::Gives(s2) = spec_run(s, m, ft, locals, b.drop_last()) {
            lemma_step_codes(s2, m, c, ft, locals, b.last());
        }
    }
}

proof fn lemma_functions_isolation(
    m: ModuleV,
    types: Seq<FuncTypeV>,
    funcs: Seq<u32>,
    codes: Seq<CodeEntryV>,
    j: int,
    e2: CodeEntryV,
    b: Seq<InstrV>,
    n: int,
)
    requires
        0 <= j < codes.len(),
        n <= codes.len(),
        n <= funcs.len(),
        block_body(b),
        codes[j].locals == e2.locals,
        codes[j].body == seq![InstrV::Plain(Instruction::Block(BlockType::Empty))] + b + seq![
            InstrV::Plain(Instruction::End),
            InstrV::Plain(Instruction::End),
        ],
        e2.body == seq![InstrV::Plain(Instruction::I32Const(0)), InstrV::Plain(Instruction::Block(BlockType::Empty))] + b
            + seq![InstrV::Plain(Instruction::End), InstrV::Plain(Instruction::Drop), InstrV::Plain(Instruction::End)],
    ensures
        spec_validate_functions(m, types, funcs, codes, n) == spec_validate_functions(
            with_codes(m, codes.update(j, e2)),
            types,
            funcs,
            codes.update(j, e2),
            n,
        ),
    decreases n,
{
    if n > 0 {
        let c2 = codes.update(j, e2);
        let m2 = with_codes(m, c2);
        lemma_functions_isolation(m, types, funcs, codes, j, e2, b, n - 1);
        if funcs[n - 1] < types.len() {
            let ft = types[funcs[n - 1] as int];
            lemma_run_codes(initial_state(ft), m, c2, ft, c2[n - 1].locals, c2[n - 1].body);
            if n - 1 == j {
                lemma_value_before_block_invisible(m, ft, codes[j], e2, b);
            }
        }
    }
}

/// A value pushed before a block is never an operand inside it, in a whole
/// module: replacing a function body that runs a body inside a block by one
/// that pushes an `i32` before the block and drops it after leaves the
/// module's validation as it was.
pub proof fn lemma_module_block_isolation(m: ModuleV, j: int, e2: CodeEntryV, b: Seq<InstrV>)
    requires
        m.codes is Some,
        0 <= j < m.codes->Some_0.len(),
        block_body(b),
        m.codes->Some_0[j].locals == e2.locals,
        m.codes->Some_0[j].body == seq![InstrV::Plain(Instruction::Block(BlockType::Empty))] + b + seq![
            InstrV::Plain(Instruction::End),
            InstrV::Plain(Instruction::End),
        ],
        e2.body == seq![InstrV::Plain(Instruction::I32Const(0)), InstrV::Plain(Instruction::Block(BlockType::Empty))] + b
            + seq![InstrV::Plain(Instruction::End), InstrV::Plain(Instruction::Drop), InstrV::Plain(Instruction::End)],
    ensures
        spec_validate_module(m) == spec_validate_module(with_codes(m, m.codes->Some_0.update(j, e2))),
{
    let codes = m.codes->Some_0;
    if m.functions is Some && m.types is Some && m.functions->Some_0.len() == codes.len() {
        lemma_functions_isolation(
            m,
            m.types->Some_0,
            m.functions->Some_0,
            codes,
            j,
            e2,
            b,
            codes.len() as int,
        );
    }
}

} // verus!
