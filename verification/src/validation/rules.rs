//! Laws of the typing rules for variables: what validation makes of `local` and `global`
//! instructions, stated on any state of the validator.
use vstd::arithmetic::power2::pow2;
use vstd::prelude::*;

use crate::binary::module::ModuleV;
use crate::binary::sections::code::FuncLocal;
use crate::binary::sections::global::MutabilityFlag;
use crate::binary::types::{BlockType, FuncTypeV, ValType};
use crate::instructions::{InstrV, Instruction};
use crate::validation::{
    Outcome, VState, ValidationError, ValueType, imported_func_types, push_ctrl, push_val, push_vals, spec_br,
    spec_call, spec_drop, spec_else, spec_end, spec_enter_block, spec_enter_if, spec_global_get, spec_global_set,
    spec_local_get, spec_local_set, spec_local_tee, spec_mem_access, spec_pop_vals_expect, spec_select, spec_step,
    spec_unreachable, state_of, value_type_of, value_types_of,
};

verus! {

/// Whether the innermost frame of a state holds at least its own operands: the state that
/// validation is in between two instructions of a body.
pub open spec fn in_frame(s: VState) -> bool {
    s.ctrls.len() > 0 && 0 <= s.ctrls.last().height <= s.vals.len()
}

/// A parameter is read and written with its own type: `local.get` pushes it; `local.set`
/// pops a value of that type, so that it undoes the push; `local.tee` leaves such a value
/// where it was; and a value of another known type is refused as a type mismatch.
pub proof fn lemma_param_rules(s: VState, m: ModuleV, ft: FuncTypeV, locals: Seq<FuncLocal>, x: u32, t: ValueType)
    requires
        in_frame(s),
        x < ft.params.len(),
    ensures
        ({
            let p = value_type_of(ft.params[x as int]);
            &&& spec_step(s, m, ft, locals, InstrV::Plain(Instruction::LocalGet(x))) == Outcome::Gives(push_val(s, p))
            &&& spec_step(push_val(s, p), m, ft, locals, InstrV::Plain(Instruction::LocalSet(x))) == Outcome::Gives(s)
            &&& spec_step(push_val(s, p), m, ft, locals, InstrV::Plain(Instruction::LocalTee(x))) == Outcome::Gives(
                push_val(s, p),
            )
            &&& t != p && t != ValueType::Unknown ==> spec_step(
                push_val(s, t),
                m,
                ft,
                locals,
                InstrV::Plain(Instruction::LocalSet(x)),
            ) == Outcome::<VState>::Fails(ValidationError::TypeMismatch)
        }),
{
    reveal(spec_local_get);
    reveal(spec_local_set);
    reveal(spec_local_tee);
    let p = value_type_of(ft.params[x as int]);
    assert(push_val(s, p).vals.drop_last() =~= s.vals);
    assert(push_val(s, t).vals.drop_last() =~= s.vals);
}

/// A global of the module is read with its own type; a mutable one is written with it, so
/// that `global.set` undoes the push of such a value; and writing an immutable global is
/// refused, whatever the operand.
pub proof fn lemma_global_rules(s: VState, m: ModuleV, ft: FuncTypeV, locals: Seq<FuncLocal>, x: u32, v: ValueType)
    requires
        in_frame(s),
        m.globals is Some,
        x < m.globals->Some_0.len(),
    ensures
        ({
            let gt = m.globals->Some_0[x as int].gt;
            let g = value_type_of(gt.type_);
            &&& spec_step(s, m, ft, locals, InstrV::Plain(Instruction::GlobalGet(x))) == Outcome::Gives(push_val(s, g))
            &&& gt.mutflag == MutabilityFlag::Var ==> spec_step(
                push_val(s, g),
                m,
                ft,
                locals,
                InstrV::Plain(Instruction::GlobalSet(x)),
            ) == Outcome::Gives(s)
            &&& gt.mutflag == MutabilityFlag::Const ==> spec_step(
                push_val(s, v),
                m,
                ft,
                locals,
                InstrV::Plain(Instruction::GlobalSet(x)),
            ) == Outcome::<VState>::Fails(ValidationError::ImmutableGlobal)
        }),
{
    reveal(spec_global_get);
    reveal(spec_global_set);
    let g = value_type_of(m.globals->Some_0[x as int].gt.type_);
    assert(push_val(s, g).vals.drop_last() =~= s.vals);
}


/// The state after one step, where the step succeeds.
pub open spec fn after(o: Outcome<VState>) -> VState {
    o->Gives_0
}

/// A block that yields a value of type `t` must leave it: entered from a state inside a
/// frame, the block ends with the state it was entered in plus that value once the body has
/// pushed it, and refuses to end with nothing on its stack. A branch out of it carries the
/// block's result, so `br 0` with nothing pushed fails, while a branch to a loop carries the
/// loop's parameters, none here, and succeeds.
pub proof fn lemma_block_result_rules(s: VState, m: ModuleV, ft: FuncTypeV, locals: Seq<FuncLocal>, t: ValType)
    requires
        in_frame(s),
    ensures
        ({
            let v = value_type_of(t);
            let block = spec_step(s, m, ft, locals, InstrV::Plain(Instruction::Block(BlockType::Value(t))));
            let lp = spec_step(s, m, ft, locals, InstrV::Plain(Instruction::Loop(BlockType::Value(t))));
            let end = InstrV::Plain(Instruction::End);
            let br = InstrV::Plain(Instruction::Br(0));
            &&& block is Gives && lp is Gives
            &&& spec_step(push_val(after(block), v), m, ft, locals, end) == Outcome::Gives(push_val(s, v))
            &&& spec_step(after(block), m, ft, locals, end) == Outcome::<VState>::Fails(
                ValidationError::ValueStackUnderflow,
            )
            &&& spec_step(after(block), m, ft, locals, br) == Outcome::<VState>::Fails(
                ValidationError::ValueStackUnderflow,
            )
            &&& spec_step(push_val(after(block), v), m, ft, locals, br) is Gives
            &&& spec_step(after(lp), m, ft, locals, br) is Gives
        }),
{
    reveal(spec_enter_block);
    reveal(spec_end);
    reveal(spec_br);
    reveal(spec_unreachable);
    reveal_with_fuel(spec_pop_vals_expect, 2);
    let v = value_type_of(t);
    let b = after(spec_step(s, m, ft, locals, InstrV::Plain(Instruction::Block(BlockType::Value(t)))));
    assert(b == push_ctrl(s, InstrV::Plain(Instruction::Block(BlockType::Value(t))), seq![], seq![v]));
    assert(b.vals =~= s.vals);
    assert(push_val(b, v).vals.drop_last() =~= s.vals);
    assert(push_vals(s, seq![v]).vals =~= s.vals.push(v));
    assert(b.ctrls.drop_last() =~= s.ctrls);
    let popped = VState { vals: s.vals, ctrls: b.ctrls.drop_last() };
    assert(push_vals(popped, seq![v]) == push_val(s, v));
}


/// Operands of the given types, pushed on a state inside a frame, are popped again by
/// expecting those types.
proof fn lemma_pop_pushed(s: VState, ts: Seq<ValueType>)
    requires
        in_frame(s),
    ensures
        state_of(spec_pop_vals_expect(push_vals(s, ts), ts)) == Outcome::Gives(s),
    decreases ts.len(),
{
    reveal_with_fuel(spec_pop_vals_expect, 1);
    if ts.len() > 0 {
        let pushed = push_vals(s, ts);
        let rest = push_vals(s, ts.drop_last());
        assert(pushed.vals.drop_last() =~= rest.vals);
        lemma_pop_pushed(s, ts.drop_last());
    } else {
        assert(push_vals(s, ts).vals =~= s.vals);
        assert(push_vals(s, ts) == s);
    }
}

/// A call takes the callee's parameters and leaves its results: on a state inside a frame
/// with the parameters of the function's type pushed, `call` gives that state with the
/// results in their place. The function is looked up in the module's index space, the
/// imported functions first, then those of the function section, each with the type its type
/// index names.
pub proof fn lemma_call_rule(s: VState, m: ModuleV, ft: FuncTypeV, locals: Seq<FuncLocal>, f: u32)
    requires
        in_frame(s),
        m.types is Some,
        m.functions is Some,
        f < imported_func_types(m).len() + m.functions->Some_0.len(),
    ensures
        ({
            let k = imported_func_types(m).len();
            let ti = if f < k { imported_func_types(m)[f as int] } else { m.functions->Some_0[f - k] };
            let tf = m.types->Some_0[ti as int];
            ti < m.types->Some_0.len() ==> spec_step(
                push_vals(s, value_types_of(tf.params)),
                m,
                ft,
                locals,
                InstrV::Plain(Instruction::Call(f)),
            ) == Outcome::Gives(push_vals(s, value_types_of(tf.results)))
        }),
{
    reveal(spec_call);
    let k = imported_func_types(m).len();
    let ti = if f < k { imported_func_types(m)[f as int] } else { m.functions->Some_0[f - k] };
    let tf = m.types->Some_0[ti as int];
    if ti < m.types->Some_0.len() {
        lemma_pop_pushed(s, value_types_of(tf.params));
    }
}


/// The rules of loads and stores: a module without a memory has none of them; the alignment
/// exponent may be at most that of the access's width, `2^align <= width`; and a well-aligned
/// load takes an `i32` address and gives a value of its type, a store takes an address and a
/// value of its type and gives nothing.
pub proof fn lemma_memory_access_rules(s: VState, m: ModuleV, ft: FuncTypeV, locals: Seq<FuncLocal>, x: Instruction)
    requires
        in_frame(s),
        spec_mem_access(x) is Some,
    ensures
        ({
            let acc = spec_mem_access(x)->Some_0;
            let t = value_type_of(acc.valtype);
            let aligned = acc.memarg.align < 32 && pow2(acc.memarg.align as nat) <= acc.byte_size;
            let has_memory = m.memories is Some && m.memories->Some_0.len() > 0;
            &&& !has_memory ==> spec_step(s, m, ft, locals, InstrV::Plain(x)) == Outcome::<VState>::Fails(
                ValidationError::UnknownMemory,
            )
            &&& has_memory && !aligned ==> spec_step(s, m, ft, locals, InstrV::Plain(x)) == Outcome::<VState>::Fails(
                ValidationError::InvalidMemAlignment,
            )
            &&& has_memory && aligned && !acc.store ==> spec_step(
                push_val(s, ValueType::I32),
                m,
                ft,
                locals,
                InstrV::Plain(x),
            ) == Outcome::Gives(push_val(s, t))
            &&& has_memory && aligned && acc.store ==> spec_step(
                push_val(push_val(s, ValueType::I32), t),
                m,
                ft,
                locals,
                InstrV::Plain(x),
            ) == Outcome::Gives(s)
        }),
{
    let acc = spec_mem_access(x)->Some_0;
    let t = value_type_of(acc.valtype);
    if acc.memarg.align < 32 {
        let a = acc.memarg.align;
        vstd::bits::lemma_u32_pow2_no_overflow(a as nat);
        vstd::bits::lemma_u32_shl_is_mul(1, a);
    }
    assert(push_val(s, ValueType::I32).vals.drop_last() =~= s.vals);
    assert(push_val(push_val(s, ValueType::I32), t).vals.drop_last() =~= push_val(s, ValueType::I32).vals);
}


/// Whether an operand type is one of the four number types.
pub open spec fn is_number(t: ValueType) -> bool {
    t == ValueType::I32 || t == ValueType::I64 || t == ValueType::F32 || t == ValueType::F64
}

/// `drop` takes any one operand; `select` takes two operands of one number type and an
/// `i32` condition and leaves one operand of that type, and refuses operands of two different
/// number types. A reference operand may not be selected without a type annotation.
pub proof fn lemma_drop_select_rules(
    s: VState,
    m: ModuleV,
    ft: FuncTypeV,
    locals: Seq<FuncLocal>,
    t: ValueType,
    u: ValueType,
)
    requires
        in_frame(s),
    ensures
        spec_step(push_val(s, t), m, ft, locals, InstrV::Plain(Instruction::Drop)) == Outcome::Gives(s),
        is_number(t) ==> spec_step(
            push_val(push_val(push_val(s, t), t), ValueType::I32),
            m,
            ft,
            locals,
            InstrV::Plain(Instruction::Select),
        ) == Outcome::Gives(push_val(s, t)),
        is_number(t) && is_number(u) && t != u ==> spec_step(
            push_val(push_val(push_val(s, t), u), ValueType::I32),
            m,
            ft,
            locals,
            InstrV::Plain(Instruction::Select),
        ) == Outcome::<VState>::Fails(ValidationError::TypeMismatch),
        t is Ref ==> spec_step(
            push_val(push_val(push_val(s, t), t), ValueType::I32),
            m,
            ft,
            locals,
            InstrV::Plain(Instruction::Select),
        ) == Outcome::<VState>::Fails(ValidationError::TypeMismatch),
{
    reveal(spec_drop);
    reveal(spec_select);
    assert(push_val(s, t).vals.drop_last() =~= s.vals);
    let s1 = push_val(s, t);
    let s2 = push_val(s1, t);
    let s2u = push_val(s1, u);
    assert(push_val(s2, ValueType::I32).vals.drop_last() =~= s2.vals);
    assert(push_val(s2u, ValueType::I32).vals.drop_last() =~= s2u.vals);
    assert(s2.vals.drop_last() =~= s1.vals);
    assert(s2u.vals.drop_last() =~= s1.vals);
}

/// After `unreachable` the rest of the block is typed for any operands: an operator such as
/// `i32.add` finds its operands there, though nothing was pushed.
pub proof fn lemma_unreachable_rules(s: VState, m: ModuleV, ft: FuncTypeV, locals: Seq<FuncLocal>)
    requires
        in_frame(s),
    ensures
        ({
            let u = spec_step(s, m, ft, locals, InstrV::Plain(Instruction::Unreachable));
            &&& u is Gives
            &&& spec_step(after(u), m, ft, locals, InstrV::Plain(Instruction::I32Add)) == Outcome::Gives(
                push_val(after(u), ValueType::I32),
            )
        }),
{
    reveal(spec_unreachable);
    let u = after(spec_step(s, m, ft, locals, InstrV::Plain(Instruction::Unreachable)));
    assert(u.vals.len() == s.ctrls.last().height);
}


/// An `if` that yields a value of type `t` takes an `i32` condition; each of its two arms
/// leaves the value: `else` after the first arm's value starts the second arm on the stack
/// the `if` was entered with, and `end` after the second arm's value leaves that stack plus
/// the value. An `else` that closes a `block` is refused.
pub proof fn lemma_if_else_rules(s: VState, m: ModuleV, ft: FuncTypeV, locals: Seq<FuncLocal>, t: ValType)
    requires
        in_frame(s),
    ensures
        ({
            let v = value_type_of(t);
            let entered = spec_step(
                push_val(s, ValueType::I32),
                m,
                ft,
                locals,
                InstrV::Plain(Instruction::If(BlockType::Value(t))),
            );
            let els = spec_step(push_val(after(entered), v), m, ft, locals, InstrV::Plain(Instruction::Else));
            let block = spec_step(s, m, ft, locals, InstrV::Plain(Instruction::Block(BlockType::Value(t))));
            &&& entered is Gives
            &&& els is Gives
            &&& after(els).vals == s.vals
            &&& spec_step(push_val(after(els), v), m, ft, locals, InstrV::Plain(Instruction::End)) == Outcome::Gives(
                push_val(s, v),
            )
            &&& spec_step(push_val(after(block), v), m, ft, locals, InstrV::Plain(Instruction::Else))
                == Outcome::<VState>::Fails(ValidationError::ElseWithoutMatchingIf)
        }),
{
    reveal(spec_enter_if);
    reveal(spec_enter_block);
    reveal(spec_else);
    reveal(spec_end);
    reveal_with_fuel(spec_pop_vals_expect, 2);
    let v = value_type_of(t);
    let ift = InstrV::Plain(Instruction::If(BlockType::Value(t)));
    assert(push_val(s, ValueType::I32).vals.drop_last() =~= s.vals);
    let e = push_ctrl(s, ift, seq![], seq![v]);
    assert(after(spec_step(push_val(s, ValueType::I32), m, ft, locals, ift)) == e);
    assert(e.vals =~= s.vals);
    assert(push_val(e, v).vals.drop_last() =~= s.vals);
    assert(e.ctrls.drop_last() =~= s.ctrls);
    let popped = VState { vals: s.vals, ctrls: s.ctrls };
    let e2 = push_ctrl(popped, InstrV::Plain(Instruction::Else), seq![], seq![v]);
    assert(e2.vals =~= s.vals);
    assert(push_val(e2, v).vals.drop_last() =~= s.vals);
    assert(e2.ctrls.drop_last() =~= s.ctrls);
    assert(push_vals(VState { vals: s.vals, ctrls: e2.ctrls.drop_last() }, seq![v]) == push_val(s, v)) by {
        assert(push_vals(s, seq![v]).vals =~= s.vals.push(v));
    }
    let b = push_ctrl(s, InstrV::Plain(Instruction::Block(BlockType::Value(t))), seq![], seq![v]);
    assert(b.vals =~= s.vals);
    assert(push_val(b, v).vals.drop_last() =~= s.vals);
}

} // verus!
