//! Integer instructions: their results, and their effect on the value stack.
use vstd::prelude::*;

use crate::instructions::Instruction;
use crate::runtime::store::FuncAddr;
use crate::runtime::value::{Ref, Value};
use crate::instructions::InstrV;
use crate::runtime::{RunOutcome, RuntimeErrorKind, TrapErrorKind};

verus! {

/// `a` rotated left by `k` bits.
pub open spec fn spec_rotl32(a: u32, k: u32) -> u32 {
    let s = k % 32;
    if s == 0 {
        a
    } else {
        (a << s) | (a >> ((32 - s) as u32))
    }
}

/// `a` rotated right by `k` bits.
pub open spec fn spec_rotr32(a: u32, k: u32) -> u32 {
    let s = k % 32;
    if s == 0 {
        a
    } else {
        (a >> s) | (a << ((32 - s) as u32))
    }
}

/// `a` rotated left by `k` bits.
pub open spec fn spec_rotl64(a: u64, k: u64) -> u64 {
    let s = k % 64;
    if s == 0 {
        a
    } else {
        (a << s) | (a >> ((64 - s) as u64))
    }
}

/// `a` rotated right by `k` bits.
pub open spec fn spec_rotr64(a: u64, k: u64) -> u64 {
    let s = k % 64;
    if s == 0 {
        a
    } else {
        (a >> s) | (a << ((64 - s) as u64))
    }
}

#[verifier::when_used_as_spec(spec_rotl32)]
pub fn rotl32(a: u32, k: u32) -> (r: u32)
    ensures
        r == spec_rotl32(a, k),
{
    let s = k % 32;
    if s == 0 {
        a
    } else {
        (a << s) | (a >> (32 - s))
    }
}

#[verifier::when_used_as_spec(spec_rotr32)]
pub fn rotr32(a: u32, k: u32) -> (r: u32)
    ensures
        r == spec_rotr32(a, k),
{
    let s = k % 32;
    if s == 0 {
        a
    } else {
        (a >> s) | (a << (32 - s))
    }
}

#[verifier::when_used_as_spec(spec_rotl64)]
pub fn rotl64(a: u64, k: u64) -> (r: u64)
    ensures
        r == spec_rotl64(a, k),
{
    let s = k % 64;
    if s == 0 {
        a
    } else {
        (a << s) | (a >> (64 - s))
    }
}

#[verifier::when_used_as_spec(spec_rotr64)]
pub fn rotr64(a: u64, k: u64) -> (r: u64)
    ensures
        r == spec_rotr64(a, k),
{
    let s = k % 64;
    if s == 0 {
        a
    } else {
        (a >> s) | (a << (64 - s))
    }
}

/// The number of one bits among the lowest `i` bits of `x`.
pub open spec fn spec_ones(x: u64, i: nat) -> nat
    decreases i,
{
    if i == 0 {
        0
    } else {
        spec_ones(x, (i - 1) as nat) + ((x >> ((i - 1) as u64)) & 1) as nat
    }
}

/// The number of one bits of `x`.
pub open spec fn spec_popcount(x: u64) -> nat {
    spec_ones(x, 64)
}

/// The number of one bits of `x`.
pub fn popcount(x: u64) -> (r: u32)
    ensures
        r == spec_popcount(x),
{
    let mut n: u32 = 0;
    let mut i: u64 = 0;
    while i < 64
        invariant
            i <= 64,
            n == spec_ones(x, i as nat),
            n <= i,
        decreases 64 - i,
    {
        let b = (x >> i) & 1;
        assert(b <= 1) by (bit_vector)
            requires
                b == (x >> i) & 1,
        ;
        n = n + b as u32;
        i = i + 1;
    }
    n
}

/// The result of a binary `i32` instruction; none where it traps.
pub open spec fn spec_i32_binop(i: Instruction, a: i32, b: i32) -> Option<i32> {
    match i {
        Instruction::I32Add => Some(a.wrapping_add(b)),
        Instruction::I32Sub => Some(a.wrapping_sub(b)),
        Instruction::I32Mul => Some(a.wrapping_mul(b)),
        Instruction::I32DivS => a.checked_div(b),
        Instruction::I32DivU => match (a as u32).checked_div(b as u32) { Some(x) => Some(x as i32), None => None },
        Instruction::I32RemS => if b == 0 { None } else { match a.checked_rem(b) { Some(x) => Some(x), None => Some(0i32) } },
        Instruction::I32RemU => match (a as u32).checked_rem(b as u32) { Some(x) => Some(x as i32), None => None },
        Instruction::I32And => Some(a & b),
        Instruction::I32Or => Some(a | b),
        Instruction::I32Xor => Some(a ^ b),
        Instruction::I32Shl => Some(a.wrapping_shl(b as u32)),
        Instruction::I32ShrS => Some(a.wrapping_shr(b as u32)),
        Instruction::I32ShrU => Some((a as u32).wrapping_shr(b as u32) as i32),
        Instruction::I32Rotl => Some(rotl32(a as u32, b as u32) as i32),
        Instruction::I32Rotr => Some(rotr32(a as u32, b as u32) as i32),
        _ => None,
    }
}

/// The result of a binary `i64` instruction; none where it traps.
pub open spec fn spec_i64_binop(i: Instruction, a: i64, b: i64) -> Option<i64> {
    match i {
        Instruction::I64Add => Some(a.wrapping_add(b)),
        Instruction::I64Sub => Some(a.wrapping_sub(b)),
        Instruction::I64Mul => Some(a.wrapping_mul(b)),
        Instruction::I64DivS => a.checked_div(b),
        Instruction::I64DivU => match (a as u64).checked_div(b as u64) { Some(x) => Some(x as i64), None => None },
        Instruction::I64RemS => if b == 0 { None } else { match a.checked_rem(b) { Some(x) => Some(x), None => Some(0i64) } },
        Instruction::I64RemU => match (a as u64).checked_rem(b as u64) { Some(x) => Some(x as i64), None => None },
        Instruction::I64And => Some(a & b),
        Instruction::I64Or => Some(a | b),
        Instruction::I64Xor => Some(a ^ b),
        Instruction::I64Shl => Some(a.wrapping_shl(b as u32)),
        Instruction::I64ShrS => Some(a.wrapping_shr(b as u32)),
        Instruction::I64ShrU => Some((a as u64).wrapping_shr(b as u32) as i64),
        Instruction::I64Rotl => Some(rotl64(a as u64, b as u64) as i64),
        Instruction::I64Rotr => Some(rotr64(a as u64, b as u64) as i64),
        _ => None,
    }
}

/// Whether an `i32` comparison holds.
pub open spec fn spec_i32_relop(i: Instruction, a: i32, b: i32) -> bool {
    match i {
        Instruction::I32Eq => a == b,
        Instruction::I32Ne => a != b,
        Instruction::I32LtS => a < b,
        Instruction::I32LtU => (a as u32) < (b as u32),
        Instruction::I32GtS => a > b,
        Instruction::I32GtU => (a as u32) > (b as u32),
        Instruction::I32LeS => a <= b,
        Instruction::I32LeU => (a as u32) <= (b as u32),
        Instruction::I32GeS => a >= b,
        Instruction::I32GeU => (a as u32) >= (b as u32),
        _ => false,
    }
}

/// Whether an `i64` comparison holds.
pub open spec fn spec_i64_relop(i: Instruction, a: i64, b: i64) -> bool {
    match i {
        Instruction::I64Eq => a == b,
        Instruction::I64Ne => a != b,
        Instruction::I64LtS => a < b,
        Instruction::I64LtU => (a as u64) < (b as u64),
        Instruction::I64GtS => a > b,
        Instruction::I64GtU => (a as u64) > (b as u64),
        Instruction::I64LeS => a <= b,
        Instruction::I64LeU => (a as u64) <= (b as u64),
        Instruction::I64GeS => a >= b,
        Instruction::I64GeU => (a as u64) >= (b as u64),
        _ => false,
    }
}

/// The result of a unary `i32` instruction.
pub open spec fn spec_i32_unop(i: Instruction, a: i32) -> i32 {
    match i {
        Instruction::I32Clz => vstd::std_specs::bits::u32_leading_zeros(a as u32) as i32,
        Instruction::I32Ctz => vstd::std_specs::bits::u32_trailing_zeros(a as u32) as i32,
        _ => spec_popcount((a as u32) as u64) as i32,
    }
}

/// The result of a unary `i64` instruction.
pub open spec fn spec_i64_unop(i: Instruction, a: i64) -> i64 {
    match i {
        Instruction::I64Clz => vstd::std_specs::bits::u64_leading_zeros(a as u64) as i64,
        Instruction::I64Ctz => vstd::std_specs::bits::u64_trailing_zeros(a as u64) as i64,
        _ => spec_popcount(a as u64) as i64,
    }
}

pub fn i32_binop(i: &Instruction, a: i32, b: i32) -> (r: Option<i32>)
    ensures
        r == spec_i32_binop(*i, a, b),
{
    match i {
        Instruction::I32Add => Some(a.wrapping_add(b)),
        Instruction::I32Sub => Some(a.wrapping_sub(b)),
        Instruction::I32Mul => Some(a.wrapping_mul(b)),
        Instruction::I32DivS => a.checked_div(b),
        Instruction::I32DivU => match (a as u32).checked_div(b as u32) { Some(x) => Some(x as i32), None => None },
        Instruction::I32RemS => if b == 0 { None } else { match a.checked_rem(b) { Some(x) => Some(x), None => Some(0i32) } },
        Instruction::I32RemU => match (a as u32).checked_rem(b as u32) { Some(x) => Some(x as i32), None => None },
        Instruction::I32And => Some(a & b),
        Instruction::I32Or => Some(a | b),
        Instruction::I32Xor => Some(a ^ b),
        Instruction::I32Shl => Some(a.wrapping_shl(b as u32)),
        Instruction::I32ShrS => Some(a.wrapping_shr(b as u32)),
        Instruction::I32ShrU => Some((a as u32).wrapping_shr(b as u32) as i32),
        Instruction::I32Rotl => Some(rotl32(a as u32, b as u32) as i32),
        Instruction::I32Rotr => Some(rotr32(a as u32, b as u32) as i32),
        _ => None,
    }
}

pub fn i64_binop(i: &Instruction, a: i64, b: i64) -> (r: Option<i64>)
    ensures
        r == spec_i64_binop(*i, a, b),
{
    match i {
        Instruction::I64Add => Some(a.wrapping_add(b)),
        Instruction::I64Sub => Some(a.wrapping_sub(b)),
        Instruction::I64Mul => Some(a.wrapping_mul(b)),
        Instruction::I64DivS => a.checked_div(b),
        Instruction::I64DivU => match (a as u64).checked_div(b as u64) { Some(x) => Some(x as i64), None => None },
        Instruction::I64RemS => if b == 0 { None } else { match a.checked_rem(b) { Some(x) => Some(x), None => Some(0i64) } },
        Instruction::I64RemU => match (a as u64).checked_rem(b as u64) { Some(x) => Some(x as i64), None => None },
        Instruction::I64And => Some(a & b),
        Instruction::I64Or => Some(a | b),
        Instruction::I64Xor => Some(a ^ b),
        Instruction::I64Shl => Some(a.wrapping_shl(b as u32)),
        Instruction::I64ShrS => Some(a.wrapping_shr(b as u32)),
        Instruction::I64ShrU => Some((a as u64).wrapping_shr(b as u32) as i64),
        Instruction::I64Rotl => Some(rotl64(a as u64, b as u64) as i64),
        Instruction::I64Rotr => Some(rotr64(a as u64, b as u64) as i64),
        _ => None,
    }
}

pub fn i32_relop(i: &Instruction, a: i32, b: i32) -> (r: bool)
    ensures
        r == spec_i32_relop(*i, a, b),
{
    match i {
        Instruction::I32Eq => a == b,
        Instruction::I32Ne => a != b,
        Instruction::I32LtS => a < b,
        Instruction::I32LtU => (a as u32) < (b as u32),
        Instruction::I32GtS => a > b,
        Instruction::I32GtU => (a as u32) > (b as u32),
        Instruction::I32LeS => a <= b,
        Instruction::I32LeU => (a as u32) <= (b as u32),
        Instruction::I32GeS => a >= b,
        Instruction::I32GeU => (a as u32) >= (b as u32),
        _ => false,
    }
}

pub fn i64_relop(i: &Instruction, a: i64, b: i64) -> (r: bool)
    ensures
        r == spec_i64_relop(*i, a, b),
{
    match i {
        Instruction::I64Eq => a == b,
        Instruction::I64Ne => a != b,
        Instruction::I64LtS => a < b,
        Instruction::I64LtU => (a as u64) < (b as u64),
        Instruction::I64GtS => a > b,
        Instruction::I64GtU => (a as u64) > (b as u64),
        Instruction::I64LeS => a <= b,
        Instruction::I64LeU => (a as u64) <= (b as u64),
        Instruction::I64GeS => a >= b,
        Instruction::I64GeU => (a as u64) >= (b as u64),
        _ => false,
    }
}

pub fn i32_unop(i: &Instruction, a: i32) -> (r: i32)
    ensures
        r == spec_i32_unop(*i, a),
{
    match i {
        Instruction::I32Clz => (a as u32).leading_zeros() as i32,
        Instruction::I32Ctz => (a as u32).trailing_zeros() as i32,
        _ => popcount((a as u32) as u64) as i32,
    }
}

pub fn i64_unop(i: &Instruction, a: i64) -> (r: i64)
    ensures
        r == spec_i64_unop(*i, a),
{
    match i {
        Instruction::I64Clz => {
            let z = (a as u64).leading_zeros();
            proof {
                vstd::std_specs::bits::axiom_u64_leading_zeros(a as u64);
            }
            z as i64
        },
        Instruction::I64Ctz => (a as u64).trailing_zeros() as i64,
        _ => popcount(a as u64) as i64,
    }
}


/// Whether an instruction is one of the floating-point instructions that the
/// executor runs: the embedder performs it on the value stack.
pub open spec fn is_float_instr(i: Instruction) -> bool {
    match i {
        Instruction::F32Eq | Instruction::F32Ne | Instruction::F32Lt | Instruction::F32Gt | Instruction::F32Le | Instruction::F32Ge | Instruction::F64Le | Instruction::F32Abs | Instruction::F32Neg | Instruction::F32Ceil | Instruction::F32Floor | Instruction::F32Trunc | Instruction::F32Nearest | Instruction::F32Sqrt | Instruction::F32Add | Instruction::F32Sub | Instruction::F32Mul | Instruction::F32Div | Instruction::F32Min | Instruction::F32Max | Instruction::F32Copysign | Instruction::F64Neg | Instruction::F64Floor | Instruction::F64Add => true,
        _ => false,
    }
}

pub fn float_instr(i: &Instruction) -> (r: bool)
    ensures
        r == is_float_instr(*i),
{
    match i {
        Instruction::F32Eq | Instruction::F32Ne | Instruction::F32Lt | Instruction::F32Gt | Instruction::F32Le | Instruction::F32Ge | Instruction::F64Le | Instruction::F32Abs | Instruction::F32Neg | Instruction::F32Ceil | Instruction::F32Floor | Instruction::F32Trunc | Instruction::F32Nearest | Instruction::F32Sqrt | Instruction::F32Add | Instruction::F32Sub | Instruction::F32Mul | Instruction::F32Div | Instruction::F32Min | Instruction::F32Max | Instruction::F32Copysign | Instruction::F64Neg | Instruction::F64Floor | Instruction::F64Add => true,
        _ => false,
    }
}

/// A binary `i32` instruction: pops the right operand, then the left one,
/// and pushes the result; a failed division traps. An operand that is
/// missing or of another type panics.
pub open spec fn bin_i32(s: Seq<Value>, i: Instruction) -> RunOutcome<Seq<Value>> {
    if s.len() < 2 {
        RunOutcome::Panics
    } else {
        match (s[s.len() - 2], s[s.len() - 1]) {
            (Value::I32(a), Value::I32(b)) => match spec_i32_binop(i, a, b) {
                Some(x) => RunOutcome::Gives(s.take(s.len() - 2).push(Value::I32(x))),
                None => RunOutcome::Fails(RuntimeErrorKind::Trap(TrapErrorKind::DivisionByZero)),
            },
            _ => RunOutcome::Panics,
        }
    }
}

/// A binary `i64` instruction, as [`bin_i32`].
pub open spec fn bin_i64(s: Seq<Value>, i: Instruction) -> RunOutcome<Seq<Value>> {
    if s.len() < 2 {
        RunOutcome::Panics
    } else {
        match (s[s.len() - 2], s[s.len() - 1]) {
            (Value::I64(a), Value::I64(b)) => match spec_i64_binop(i, a, b) {
                Some(x) => RunOutcome::Gives(s.take(s.len() - 2).push(Value::I64(x))),
                None => RunOutcome::Fails(RuntimeErrorKind::Trap(TrapErrorKind::DivisionByZero)),
            },
            _ => RunOutcome::Panics,
        }
    }
}

/// The `i32` that a condition is pushed as: one or zero.
pub open spec fn bool_value(b: bool) -> Value {
    Value::I32(if b { 1 } else { 0 })
}

/// An `i32` comparison: pops both operands and pushes whether it holds.
pub open spec fn rel_i32(s: Seq<Value>, i: Instruction) -> RunOutcome<Seq<Value>> {
    if s.len() < 2 {
        RunOutcome::Panics
    } else {
        match (s[s.len() - 2], s[s.len() - 1]) {
            (Value::I32(a), Value::I32(b)) => RunOutcome::Gives(s.take(s.len() - 2).push(bool_value(spec_i32_relop(i, a, b)))),
            _ => RunOutcome::Panics,
        }
    }
}

/// An `i64` comparison, as [`rel_i32`].
pub open spec fn rel_i64(s: Seq<Value>, i: Instruction) -> RunOutcome<Seq<Value>> {
    if s.len() < 2 {
        RunOutcome::Panics
    } else {
        match (s[s.len() - 2], s[s.len() - 1]) {
            (Value::I64(a), Value::I64(b)) => RunOutcome::Gives(s.take(s.len() - 2).push(bool_value(spec_i64_relop(i, a, b)))),
            _ => RunOutcome::Panics,
        }
    }
}

/// An instruction that replaces the top value with a function of it; a top
/// value that is missing, or for which the function gives none, panics.
pub open spec fn unary(s: Seq<Value>, f: spec_fn(Value) -> Option<Value>) -> RunOutcome<Seq<Value>> {
    if s.len() < 1 {
        RunOutcome::Panics
    } else {
        match f(s.last()) {
            Some(v) => RunOutcome::Gives(s.drop_last().push(v)),
            None => RunOutcome::Panics,
        }
    }
}

/// What a unary or conversion instruction makes of a value; none for a
/// value of another type.
pub open spec fn spec_unary_value(i: Instruction, v: Value) -> Option<Value> {
    match (i, v) {
        (Instruction::I32Eqz, Value::I32(a)) => Some(bool_value(a == 0)),
        (Instruction::I64Eqz, Value::I64(a)) => Some(bool_value(a == 0)),
        (Instruction::I32Clz, Value::I32(a)) => Some(Value::I32(spec_i32_unop(i, a))),
        (Instruction::I32Ctz, Value::I32(a)) => Some(Value::I32(spec_i32_unop(i, a))),
        (Instruction::I32Popcnt, Value::I32(a)) => Some(Value::I32(spec_i32_unop(i, a))),
        (Instruction::I64Clz, Value::I64(a)) => Some(Value::I64(spec_i64_unop(i, a))),
        (Instruction::I64Ctz, Value::I64(a)) => Some(Value::I64(spec_i64_unop(i, a))),
        (Instruction::I64Popcnt, Value::I64(a)) => Some(Value::I64(spec_i64_unop(i, a))),
        (Instruction::I32WrapI64, Value::I64(a)) => Some(Value::I32(a as i32)),
        (Instruction::I64ExtendI32S, Value::I32(a)) => Some(Value::I64(a as i64)),
        (Instruction::I64ExtendI32U, Value::I32(a)) => Some(Value::I64((a as u32) as i64)),
        (Instruction::I32Extend8S, Value::I32(a)) => Some(Value::I32((a as i8) as i32)),
        (Instruction::I32Extend16S, Value::I32(a)) => Some(Value::I32((a as i16) as i32)),
        (Instruction::I64Extend8S, Value::I64(a)) => Some(Value::I64((a as i8) as i64)),
        (Instruction::I64Extend16S, Value::I64(a)) => Some(Value::I64((a as i16) as i64)),
        (Instruction::I64Extend32S, Value::I64(a)) => Some(Value::I64((a as i32) as i64)),
        _ => None,
    }
}

/// Whether an instruction is unary or a conversion.
pub open spec fn is_unary_instr(i: Instruction) -> bool {
    match i {
        Instruction::I32Eqz | Instruction::I64Eqz | Instruction::I32Clz | Instruction::I32Ctz | Instruction::I32Popcnt
        | Instruction::I64Clz | Instruction::I64Ctz | Instruction::I64Popcnt | Instruction::I32WrapI64 | Instruction::I64ExtendI32S | Instruction::I64ExtendI32U | Instruction::I32Extend8S | Instruction::I32Extend16S | Instruction::I64Extend8S | Instruction::I64Extend16S | Instruction::I64Extend32S => true,
        _ => false,
    }
}

/// What an instruction that only computes on the value stack does to it;
/// none for other instructions.
pub open spec fn spec_stack_op(i: InstrV, s: Seq<Value>) -> Option<RunOutcome<Seq<Value>>> {
    match i {
        InstrV::SelectT(_) => Some(spec_select(s)),
        InstrV::Plain(x) => match x {
            Instruction::I32Const(v) => Some(RunOutcome::Gives(s.push(Value::I32(v)))),
            Instruction::I64Const(v) => Some(RunOutcome::Gives(s.push(Value::I64(v)))),
            Instruction::F32Const(v) => Some(RunOutcome::Gives(s.push(Value::F32(v)))),
            Instruction::F64Const(v) => Some(RunOutcome::Gives(s.push(Value::F64(v)))),
            Instruction::RefNull(rt) => Some(RunOutcome::Gives(s.push(Value::Ref(Ref::Null(rt))))),
            Instruction::RefFunc(fi) => Some(RunOutcome::Gives(s.push(Value::Ref(Ref::Func(FuncAddr(fi as usize)))))),
            Instruction::Drop => Some(RunOutcome::Gives(if s.len() > 0 { s.drop_last() } else { s })),
            Instruction::Select => Some(spec_select(s)),
            Instruction::I32Add | Instruction::I32Sub | Instruction::I32Mul | Instruction::I32DivS | Instruction::I32DivU | Instruction::I32RemS | Instruction::I32RemU | Instruction::I32And | Instruction::I32Or | Instruction::I32Xor | Instruction::I32Shl | Instruction::I32ShrS | Instruction::I32ShrU | Instruction::I32Rotl | Instruction::I32Rotr => Some(bin_i32(s, x)),
            Instruction::I64Add | Instruction::I64Sub | Instruction::I64Mul | Instruction::I64DivS | Instruction::I64DivU | Instruction::I64RemS | Instruction::I64RemU | Instruction::I64And | Instruction::I64Or | Instruction::I64Xor | Instruction::I64Shl | Instruction::I64ShrS | Instruction::I64ShrU | Instruction::I64Rotl | Instruction::I64Rotr => Some(bin_i64(s, x)),
            Instruction::I32Eq | Instruction::I32Ne | Instruction::I32LtS | Instruction::I32LtU | Instruction::I32GtS | Instruction::I32GtU | Instruction::I32LeS | Instruction::I32LeU | Instruction::I32GeS | Instruction::I32GeU => Some(rel_i32(s, x)),
            Instruction::I64Eq | Instruction::I64Ne | Instruction::I64LtS | Instruction::I64LtU | Instruction::I64GtS | Instruction::I64GtU | Instruction::I64LeS | Instruction::I64LeU | Instruction::I64GeS | Instruction::I64GeU => Some(rel_i64(s, x)),
            _ => if is_unary_instr(x) {
                Some(unary(s, |v: Value| spec_unary_value(x, v)))
            } else {
                None
            },
        },
        _ => None,
    }
}

/// A select: pops the condition, then the second and the first value, and
/// pushes the first when the condition holds, the second otherwise.
pub open spec fn spec_select(s: Seq<Value>) -> RunOutcome<Seq<Value>> {
    if s.len() == 0 || !(s.last() is I32) {
        RunOutcome::Fails(RuntimeErrorKind::Internal("assert, i32 expected on the stack"))
    } else if s.len() < 3 {
        RunOutcome::Panics
    } else {
        let cond = s.last()->I32_0 != 0;
        let v2 = s[s.len() - 2];
        let v1 = s[s.len() - 3];
        RunOutcome::Gives(s.take(s.len() - 3).push(if cond { v1 } else { v2 }))
    }
}

/// An executable result and value stack that follow an outcome of the model.
pub open spec fn follows_stack(o: RunOutcome<Seq<Value>>, r: Result<(), RuntimeErrorKind>, after: Seq<Value>) -> bool {
    match o {
        RunOutcome::Gives(s) => r is Ok && after == s,
        RunOutcome::Fails(e) => r == Err::<(), RuntimeErrorKind>(e),
        RunOutcome::Panics => false,
    }
}

fn exec_bin_i32(i: &Instruction, stack: &mut Vec<Value>) -> (r: Result<(), RuntimeErrorKind>)
    requires
        !(bin_i32(old(stack)@, *i) is Panics),
    ensures
        follows_stack(bin_i32(old(stack)@, *i), r, final(stack)@),
{
    let rhs = stack.pop().unwrap();
    let lhs = stack.pop().unwrap();
    proof {
        assert(stack@ =~= old(stack)@.take(old(stack)@.len() - 2));
    }
    match (lhs, rhs) {
        (Value::I32(a), Value::I32(b)) => match i32_binop(i, a, b) {
            Some(x) => {
                stack.push(Value::I32(x));
                Ok(())
            },
            None => Err(RuntimeErrorKind::Trap(TrapErrorKind::DivisionByZero)),
        },
        _ => {
            proof {
                assert(false);
            }
            Ok(())
        },
    }
}

fn exec_bin_i64(i: &Instruction, stack: &mut Vec<Value>) -> (r: Result<(), RuntimeErrorKind>)
    requires
        !(bin_i64(old(stack)@, *i) is Panics),
    ensures
        follows_stack(bin_i64(old(stack)@, *i), r, final(stack)@),
{
    let rhs = stack.pop().unwrap();
    let lhs = stack.pop().unwrap();
    proof {
        assert(stack@ =~= old(stack)@.take(old(stack)@.len() - 2));
    }
    match (lhs, rhs) {
        (Value::I64(a), Value::I64(b)) => match i64_binop(i, a, b) {
            Some(x) => {
                stack.push(Value::I64(x));
                Ok(())
            },
            None => Err(RuntimeErrorKind::Trap(TrapErrorKind::DivisionByZero)),
        },
        _ => {
            proof {
                assert(false);
            }
            Ok(())
        },
    }
}

fn exec_rel_i32(i: &Instruction, stack: &mut Vec<Value>) -> (r: Result<(), RuntimeErrorKind>)
    requires
        !(rel_i32(old(stack)@, *i) is Panics),
    ensures
        follows_stack(rel_i32(old(stack)@, *i), r, final(stack)@),
{
    let rhs = stack.pop().unwrap();
    let lhs = stack.pop().unwrap();
    proof {
        assert(stack@ =~= old(stack)@.take(old(stack)@.len() - 2));
    }
    match (lhs, rhs) {
        (Value::I32(a), Value::I32(b)) => {
            let c = i32_relop(i, a, b);
            stack.push(Value::I32(if c { 1 } else { 0 }));
            Ok(())
        },
        _ => {
            proof {
                assert(false);
            }
            Ok(())
        },
    }
}

fn exec_rel_i64(i: &Instruction, stack: &mut Vec<Value>) -> (r: Result<(), RuntimeErrorKind>)
    requires
        !(rel_i64(old(stack)@, *i) is Panics),
    ensures
        follows_stack(rel_i64(old(stack)@, *i), r, final(stack)@),
{
    let rhs = stack.pop().unwrap();
    let lhs = stack.pop().unwrap();
    proof {
        assert(stack@ =~= old(stack)@.take(old(stack)@.len() - 2));
    }
    match (lhs, rhs) {
        (Value::I64(a), Value::I64(b)) => {
            let c = i64_relop(i, a, b);
            stack.push(Value::I32(if c { 1 } else { 0 }));
            Ok(())
        },
        _ => {
            proof {
                assert(false);
            }
            Ok(())
        },
    }
}

fn unary_value(i: &Instruction, v: Value) -> (r: Option<Value>)
    ensures
        r == spec_unary_value(*i, v),
{
    match (i, v) {
        (Instruction::I32Eqz, Value::I32(a)) => Some(Value::I32(if a == 0 { 1 } else { 0 })),
        (Instruction::I64Eqz, Value::I64(a)) => Some(Value::I32(if a == 0 { 1 } else { 0 })),
        (Instruction::I32Clz, Value::I32(a)) => Some(Value::I32(i32_unop(i, a))),
        (Instruction::I32Ctz, Value::I32(a)) => Some(Value::I32(i32_unop(i, a))),
        (Instruction::I32Popcnt, Value::I32(a)) => Some(Value::I32(i32_unop(i, a))),
        (Instruction::I64Clz, Value::I64(a)) => Some(Value::I64(i64_unop(i, a))),
        (Instruction::I64Ctz, Value::I64(a)) => Some(Value::I64(i64_unop(i, a))),
        (Instruction::I64Popcnt, Value::I64(a)) => Some(Value::I64(i64_unop(i, a))),
        (Instruction::I32WrapI64, Value::I64(a)) => Some(Value::I32(a as i32)),
        (Instruction::I64ExtendI32S, Value::I32(a)) => Some(Value::I64(a as i64)),
        (Instruction::I64ExtendI32U, Value::I32(a)) => Some(Value::I64((a as u32) as i64)),
        (Instruction::I32Extend8S, Value::I32(a)) => Some(Value::I32((a as i8) as i32)),
        (Instruction::I32Extend16S, Value::I32(a)) => Some(Value::I32((a as i16) as i32)),
        (Instruction::I64Extend8S, Value::I64(a)) => Some(Value::I64((a as i8) as i64)),
        (Instruction::I64Extend16S, Value::I64(a)) => Some(Value::I64((a as i16) as i64)),
        (Instruction::I64Extend32S, Value::I64(a)) => Some(Value::I64((a as i32) as i64)),
        _ => None,
    }
}

fn exec_unary(i: &Instruction, stack: &mut Vec<Value>) -> (r: Result<(), RuntimeErrorKind>)
    requires
        !(unary(old(stack)@, |v: Value| spec_unary_value(*i, v)) is Panics),
    ensures
        follows_stack(unary(old(stack)@, |v: Value| spec_unary_value(*i, v)), r, final(stack)@),
{
    let v = stack.pop().unwrap();
    match unary_value(i, v) {
        Some(x) => {
            stack.push(x);
            Ok(())
        },
        None => {
            proof {
                assert(false);
            }
            Ok(())
        },
    }
}

fn exec_select(stack: &mut Vec<Value>) -> (r: Result<(), RuntimeErrorKind>)
    requires
        !(spec_select(old(stack)@) is Panics),
    ensures
        follows_stack(spec_select(old(stack)@), r, final(stack)@),
{
    let cond = match crate::runtime::executor::pop_bool(stack) {
        Ok(c) => c,
        Err(e) => return Err(e),
    };
    let val2 = stack.pop().unwrap();
    let val1 = stack.pop().unwrap();
    proof {
        assert(stack@ =~= old(stack)@.take(old(stack)@.len() - 3));
    }
    if cond {
        stack.push(val1);
    } else {
        stack.push(val2);
    }
    Ok(())
}

/// Runs an instruction that only computes on the value stack; none for
/// other instructions.
pub fn exec_stack_op(i: &Instruction, stack: &mut Vec<Value>) -> (r: Option<Result<(), RuntimeErrorKind>>)
    requires
        !(spec_stack_op(i@, old(stack)@) matches Some(RunOutcome::Panics)),
    ensures
        match spec_stack_op(i@, old(stack)@) {
            None => r is None && final(stack)@ == old(stack)@,
            Some(o) => r is Some && follows_stack(o, r->Some_0, final(stack)@),
        },
{
    match i {
        Instruction::SelectT(_) => Some(exec_select(stack)),
        Instruction::I32Const(v) => {
            stack.push(Value::I32(*v));
            Some(Ok(()))
        },
        Instruction::I64Const(v) => {
            stack.push(Value::I64(*v));
            Some(Ok(()))
        },
        Instruction::F32Const(v) => {
            stack.push(Value::F32(*v));
            Some(Ok(()))
        },
        Instruction::F64Const(v) => {
            stack.push(Value::F64(*v));
            Some(Ok(()))
        },
        Instruction::RefNull(rt) => {
            stack.push(Value::Ref(Ref::Null(*rt)));
            Some(Ok(()))
        },
        Instruction::RefFunc(fi) => {
            stack.push(Value::Ref(Ref::Func(FuncAddr::from(*fi))));
            Some(Ok(()))
        },
        Instruction::Drop => {
            stack.pop();
            Some(Ok(()))
        },
        Instruction::Select => Some(exec_select(stack)),
        Instruction::I32Add | Instruction::I32Sub | Instruction::I32Mul | Instruction::I32DivS | Instruction::I32DivU | Instruction::I32RemS | Instruction::I32RemU | Instruction::I32And | Instruction::I32Or | Instruction::I32Xor | Instruction::I32Shl | Instruction::I32ShrS | Instruction::I32ShrU | Instruction::I32Rotl | Instruction::I32Rotr => Some(exec_bin_i32(i, stack)),
        Instruction::I64Add | Instruction::I64Sub | Instruction::I64Mul | Instruction::I64DivS | Instruction::I64DivU | Instruction::I64RemS | Instruction::I64RemU | Instruction::I64And | Instruction::I64Or | Instruction::I64Xor | Instruction::I64Shl | Instruction::I64ShrS | Instruction::I64ShrU | Instruction::I64Rotl | Instruction::I64Rotr => Some(exec_bin_i64(i, stack)),
        Instruction::I32Eq | Instruction::I32Ne | Instruction::I32LtS | Instruction::I32LtU | Instruction::I32GtS | Instruction::I32GtU | Instruction::I32LeS | Instruction::I32LeU | Instruction::I32GeS | Instruction::I32GeU => Some(exec_rel_i32(i, stack)),
        Instruction::I64Eq | Instruction::I64Ne | Instruction::I64LtS | Instruction::I64LtU | Instruction::I64GtS | Instruction::I64GtU | Instruction::I64LeS | Instruction::I64LeU | Instruction::I64GeS | Instruction::I64GeU => Some(exec_rel_i64(i, stack)),
        Instruction::I32Eqz | Instruction::I64Eqz | Instruction::I32Clz | Instruction::I32Ctz | Instruction::I32Popcnt
        | Instruction::I64Clz | Instruction::I64Ctz | Instruction::I64Popcnt | Instruction::I32WrapI64 | Instruction::I64ExtendI32S | Instruction::I64ExtendI32U | Instruction::I32Extend8S | Instruction::I32Extend16S | Instruction::I64Extend8S | Instruction::I64Extend16S | Instruction::I64Extend32S => Some(exec_unary(i, stack)),
        _ => None,
    }
}

} // verus!
