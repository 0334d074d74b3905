//! What the integer and memory instructions compute, stated as arithmetic on their operands.
use vstd::arithmetic::power2::pow2;
use vstd::prelude::*;

use crate::binary::types::{MemIndex, ValType};
use crate::instructions::{InstrV, Instruction};
use crate::runtime::executor::pow256;
use crate::runtime::instance::ModuleInstance;
use crate::runtime::machine::{
    Next, access_offset, le_bytes, le_value, lemma_le_value_bytes, load_value, load_width, proceed, spec_memory,
    store_bits, store_width,
};
use crate::runtime::numeric::{
    spec_i32_binop, spec_i32_relop, spec_i32_unop, spec_i64_binop, spec_i64_relop, spec_i64_unop, spec_ones,
    spec_rotl32, spec_rotl64, spec_rotr32, spec_rotr64, spec_stack_op, spec_unary_value,
};
use crate::runtime::stack::FrameV;
use crate::runtime::store::{MemoryInstance, effective_address, overwrite, spec_mem_size};
use crate::runtime::value::Value;
use crate::runtime::{RunOutcome, RuntimeErrorKind, TrapErrorKind, WASM_MEM_PAGE_BYTE_SIZE};
use crate::validation::{NumSig, spec_mem_access, spec_numeric_sig};

verus! {

/// The integer a value of an integer type holds; zero for other values.
pub open spec fn int_value(v: Value) -> int {
    match v {
        Value::I32(a) => a as int,
        Value::I64(a) => a as int,
        _ => 0,
    }
}

/// Whether an instruction loads an integer.
pub open spec fn is_int_load(x: Instruction) -> bool {
    load_width(x) > 0 && !(x is F32Load) && !(x is F64Load)
}

/// Whether a load gives an `i32`.
pub open spec fn loads_i32(x: Instruction) -> bool {
    x is I32Load || x is I32Load8S || x is I32Load8U || x is I32Load16S || x is I32Load16U
}

/// Whether a load reads the bytes as a two's complement number: the full-width loads and the
/// narrow loads marked `_s`.
pub open spec fn sign_extends(x: Instruction) -> bool {
    x is I32Load || x is I64Load || x is I32Load8S || x is I32Load16S || x is I64Load8S || x is I64Load16S
        || x is I64Load32S
}

/// An integer load of `n` bytes that stand for the number `u` gives a value whose lowest `n`
/// bytes are `u`; a signed load gives it sign-extended, between minus and plus half of
/// `256^n`, an unsigned one gives `u` itself. An `i32` load gives an `i32`, the others an `i64`.
pub proof fn lemma_load_extends(x: Instruction, u: nat)
    requires
        is_int_load(x),
        u < pow256(load_width(x)),
    ensures
        (load_value(x, u) is I32) == loads_i32(x),
        (load_value(x, u) is I64) == !loads_i32(x),
        (int_value(load_value(x, u)) - u) % (pow256(load_width(x)) as int) == 0,
        sign_extends(x) ==> -(pow256(load_width(x)) / 2) <= int_value(load_value(x, u)) < pow256(load_width(x)) / 2,
        !sign_extends(x) ==> int_value(load_value(x, u)) == u,
{
    reveal_with_fuel(pow256, 9);
    assert(pow256(1) == 0x100);
    assert(pow256(2) == 0x1_0000);
    assert(pow256(4) == 0x1_0000_0000);
    assert(pow256(8) == 0x1_0000_0000_0000_0000);
    let m = pow256(load_width(x)) as int;
    let d = int_value(load_value(x, u)) - u;
    match x {
        Instruction::I32Load8S(_) | Instruction::I64Load8S(_) => {
            let b = u as u8;
            assert(b == u);
            assert(
                (b >= 0x80 ==> ((b as i8) as i64) == (b as i64) - 0x100)
                && (b < 0x80 ==> ((b as i8) as i64) == b as i64)
                && (((b as i8) as i32) == ((b as i8) as i64))
            ) by (bit_vector);
        },
        Instruction::I32Load16S(_) | Instruction::I64Load16S(_) => {
            let b = u as u16;
            assert(b == u);
            assert(
                (b >= 0x8000 ==> ((b as i16) as i64) == (b as i64) - 0x1_0000)
                && (b < 0x8000 ==> ((b as i16) as i64) == b as i64)
                && (((b as i16) as i32) == ((b as i16) as i64))
            ) by (bit_vector);
        },
        Instruction::I32Load(_) | Instruction::I64Load32S(_) => {
            let b = u as u32;
            assert(b == u);
            assert(
                (b >= 0x8000_0000 ==> ((b as i32) as i64) == (b as i64) - 0x1_0000_0000)
                && (b < 0x8000_0000 ==> ((b as i32) as i64) == b as i64)
            ) by (bit_vector);
        },
        Instruction::I64Load(_) => {
            let b = u as u64;
            assert(b == u);
            assert(
                (b >= 0x8000_0000_0000_0000 ==> (b as i64) as int == (b as int) - 0x1_0000_0000_0000_0000)
                && (b < 0x8000_0000_0000_0000 ==> (b as i64) as int == b as int)
            ) by (bit_vector);
        },
        _ => {},
    }
    assert(d == 0 || d == -m);
    if d == 0 {
        vstd::arithmetic::div_mod::lemma_mod_multiples_basic(0, m);
    } else {
        vstd::arithmetic::div_mod::lemma_mod_multiples_basic(-1, m);
    }
}


/// Bit `j` of `x`, counted from the least significant.
pub open spec fn bit32(x: u32, j: u32) -> bool {
    (x >> j) & 1 == 1
}

/// Bit `j` of `x`, counted from the least significant.
pub open spec fn bit64(x: u64, j: u64) -> bool {
    (x >> j) & 1 == 1
}

/// The result of an `i32` instruction that cannot trap.
pub open spec fn i32_result(i: Instruction, a: i32, b: i32) -> u32 {
    spec_i32_binop(i, a, b)->Some_0 as u32
}

/// The shifts and rotations of `i32` move bits: with `s` the right operand modulo 32, bit `j`
/// of the result of `shl` is bit `j - s` of the left operand (zero below `s`); of `shr_u`, bit
/// `j + s` (zero from `32 - s` on); of `shr_s`, bit `j + s`, or the sign bit past the top; of
/// `rotl`, bit `j - s` modulo 32; of `rotr`, bit `j + s` modulo 32.
pub proof fn lemma_i32_shift_bits(a: i32, b: i32, j: u32)
    requires
        j < 32,
    ensures
        ({
            let s = (b as u32) % 32;
            let ua = a as u32;
            &&& spec_i32_binop(Instruction::I32Shl, a, b) is Some
            &&& spec_i32_binop(Instruction::I32ShrU, a, b) is Some
            &&& spec_i32_binop(Instruction::I32ShrS, a, b) is Some
            &&& spec_i32_binop(Instruction::I32Rotl, a, b) is Some
            &&& spec_i32_binop(Instruction::I32Rotr, a, b) is Some
            &&& bit32(i32_result(Instruction::I32Shl, a, b), j) == (j >= s && bit32(ua, (j - s) as u32))
            &&& bit32(i32_result(Instruction::I32ShrU, a, b), j) == (j + s < 32 && bit32(ua, (j + s) as u32))
            &&& bit32(i32_result(Instruction::I32ShrS, a, b), j) == bit32(ua, if j + s < 32 { (j + s) as u32 } else { 31 })
            &&& bit32(i32_result(Instruction::I32Rotl, a, b), j) == bit32(ua, ((j + 32 - s) % 32) as u32)
            &&& bit32(i32_result(Instruction::I32Rotr, a, b), j) == bit32(ua, ((j + s) % 32) as u32)
        }),
{
    let s = (b as u32) % 32;
    let ua = a as u32;
    assert(s < 32);
    let shl = a << s;
    let shru = ua >> s;
    let shrs = a >> s;
    assert(bit32(shl as u32, j) == (j >= s && bit32(ua, (j - s) as u32))) by (bit_vector)
        requires
            s < 32,
            j < 32,
            shl == a << s,
            ua == a as u32,
    ;
    assert(bit32((shru as i32) as u32, j) == (j + s < 32 && bit32(ua, (j + s) as u32))) by (bit_vector)
        requires
            s < 32,
            j < 32,
            shru == ua >> s,
    ;
    assert(bit32(shrs as u32, j) == bit32(ua, if j + s < 32 { (j + s) as u32 } else { 31 })) by (bit_vector)
        requires
            s < 32,
            j < 32,
            shrs == a >> s,
            ua == a as u32,
    ;
    let rl = spec_rotl32(ua, b as u32);
    let rr = spec_rotr32(ua, b as u32);
    if s == 0 {
        assert(bit32((ua as i32) as u32, j) == bit32(ua, ((j + 32 - s) % 32) as u32)) by (bit_vector)
            requires
                s == 0,
                j < 32,
        ;
        assert(bit32((ua as i32) as u32, j) == bit32(ua, ((j + s) % 32) as u32)) by (bit_vector)
            requires
                s == 0,
                j < 32,
        ;
    } else {
        let l = (ua << s) | (ua >> ((32 - s) as u32));
        let r = (ua >> s) | (ua << ((32 - s) as u32));
        assert(bit32((l as i32) as u32, j) == bit32(ua, ((j + 32 - s) % 32) as u32)) by (bit_vector)
            requires
                0 < s < 32,
                j < 32,
                l == (ua << s) | (ua >> ((32 - s) as u32)),
        ;
        assert(bit32((r as i32) as u32, j) == bit32(ua, ((j + s) % 32) as u32)) by (bit_vector)
            requires
                0 < s < 32,
                j < 32,
                r == (ua >> s) | (ua << ((32 - s) as u32)),
        ;
    }
}


/// The unsigned reading of an `i32`: its value modulo `2^32`, between zero and `2^32`.
pub open spec fn unsigned32(a: i32) -> int {
    if a < 0 {
        a + 0x1_0000_0000
    } else {
        a as int
    }
}

proof fn lemma_unsigned32(a: i32)
    ensures
        unsigned32(a) == (a as u32) as int,
{
    assert(
        (a < 0 ==> (a as u32) as int == a + 0x1_0000_0000)
        && (a >= 0 ==> (a as u32) as int == a as int)
    ) by (bit_vector);
}

/// The bitwise instructions of `i32` combine the operands bit by bit.
pub proof fn lemma_i32_bitwise(a: i32, b: i32, j: u32)
    requires
        j < 32,
    ensures
        spec_i32_binop(Instruction::I32And, a, b) is Some,
        spec_i32_binop(Instruction::I32Or, a, b) is Some,
        spec_i32_binop(Instruction::I32Xor, a, b) is Some,
        bit32(i32_result(Instruction::I32And, a, b), j) == (bit32(a as u32, j) && bit32(b as u32, j)),
        bit32(i32_result(Instruction::I32Or, a, b), j) == (bit32(a as u32, j) || bit32(b as u32, j)),
        bit32(i32_result(Instruction::I32Xor, a, b), j) == (bit32(a as u32, j) != bit32(b as u32, j)),
{
    let x = a & b;
    let y = a | b;
    let z = a ^ b;
    assert(bit32(x as u32, j) == (bit32(a as u32, j) && bit32(b as u32, j)) && bit32(y as u32, j) == (bit32(a as u32, j)
        || bit32(b as u32, j)) && bit32(z as u32, j) == (bit32(a as u32, j) != bit32(b as u32, j))) by (bit_vector)
        requires
            x == a & b,
            y == a | b,
            z == a ^ b,
    ;
}

/// `i32.shr_u` is unsigned division by a power of two: the unsigned reading of the result is
/// that of the left operand divided by `2^s`, with `s` the right operand modulo 32; so where `s`
/// is not zero the result is not negative.
pub proof fn lemma_i32_shr_u_divides(a: i32, b: i32)
    ensures
        ({
            let s = (b as u32) % 32;
            &&& spec_i32_binop(Instruction::I32ShrU, a, b) is Some
            &&& unsigned32(spec_i32_binop(Instruction::I32ShrU, a, b)->Some_0) == unsigned32(a) / pow2(s as nat) as int
            &&& s > 0 ==> spec_i32_binop(Instruction::I32ShrU, a, b)->Some_0 >= 0
        }),
{
    let s = (b as u32) % 32;
    let ua = a as u32;
    let r = ua >> s;
    lemma_unsigned32(a);
    lemma_unsigned32(r as i32);
    vstd::bits::lemma_u32_shr_is_div(ua, s);
    assert((r as i32) as u32 == r && (s > 0 ==> (r as i32) >= 0)) by (bit_vector)
        requires
            r == ua >> s,
            s < 32,
    ;
}

/// Addition, subtraction and multiplication of `i32` wrap around: the result is the exact
/// one modulo `2^32`.
pub proof fn lemma_i32_wrapping(a: i32, b: i32)
    ensures
        spec_i32_binop(Instruction::I32Add, a, b) is Some,
        spec_i32_binop(Instruction::I32Sub, a, b) is Some,
        spec_i32_binop(Instruction::I32Mul, a, b) is Some,
        (spec_i32_binop(Instruction::I32Add, a, b)->Some_0 - (a + b)) % 0x1_0000_0000 == 0,
        (spec_i32_binop(Instruction::I32Sub, a, b)->Some_0 - (a - b)) % 0x1_0000_0000 == 0,
        (spec_i32_binop(Instruction::I32Mul, a, b)->Some_0 - (a * b)) % 0x1_0000_0000 == 0,
{
    let m: int = 0x1_0000_0000;
    let add = spec_i32_binop(Instruction::I32Add, a, b)->Some_0 - (a + b);
    let sub = spec_i32_binop(Instruction::I32Sub, a, b)->Some_0 - (a - b);
    assert(add == 0 || add == m || add == -m);
    assert(sub == 0 || sub == m || sub == -m);
    lemma_multiple_mod(add, m);
    lemma_multiple_mod(sub, m);
    let p = a * b;
    let r = p % m;
    vstd::arithmetic::div_mod::lemma_fundamental_div_mod(p, m);
    let c = vstd::wrapping::i32_specs::signed_crop(p);
    assert(c - p == -m * (p / m) || c - p == -m * (p / m) - m);
    vstd::arithmetic::div_mod::lemma_mod_multiples_basic(-(p / m), m);
    vstd::arithmetic::div_mod::lemma_mod_multiples_basic(-(p / m) - 1, m);
    assert(-m * (p / m) - m == (-(p / m) - 1) * m) by (nonlinear_arith);
    assert(-m * (p / m) == (-(p / m)) * m) by (nonlinear_arith);
}

proof fn lemma_multiple_mod(x: int, m: int)
    requires
        m > 0,
        x == 0 || x == m || x == -m,
    ensures
        x % m == 0,
{
    if x == 0 {
        vstd::arithmetic::div_mod::lemma_mod_multiples_basic(0, m);
    } else if x == m {
        vstd::arithmetic::div_mod::lemma_mod_multiples_basic(1, m);
    } else {
        vstd::arithmetic::div_mod::lemma_mod_multiples_basic(-1, m);
    }
}


proof fn lemma_divmod_nonneg(x: int, d: int)
    requires
        x >= 0,
        d > 0,
    ensures
        x == (x / d) * d + x % d,
        0 <= x % d < d,
        0 <= x / d <= x,
        d > 1 && x > 0 ==> x / d < x,
{
    vstd::arithmetic::div_mod::lemma_fundamental_div_mod(x, d);
    vstd::arithmetic::div_mod::lemma_mod_pos_bound(x, d);
    vstd::arithmetic::div_mod::lemma_div_basics_4(x, d);
    vstd::arithmetic::div_mod::lemma_div_basics_5(x, d);
    if d > 1 && x > 0 {
        vstd::arithmetic::div_mod::lemma_div_decreases(x, d);
    }
    assert(x == d * (x / d) + x % d);
    vstd::arithmetic::mul::lemma_mul_is_commutative(d, x / d);
}

/// Signed division of `i32` truncates toward zero and its remainder takes the sign of the
/// dividend: for a divisor that is not zero, `div_s` and `rem_s` give `q` and `r` with
/// `a == q * b + r`, `|r| < |b|`, and `r` not of the other sign than `a`; `div_s` traps only on
/// `i32::MIN / -1`, whose quotient does not fit, where `rem_s` gives zero. A zero divisor traps.
pub proof fn lemma_i32_signed_division(a: i32, b: i32)
    ensures
        b == 0 ==> spec_i32_binop(Instruction::I32DivS, a, b) is None && spec_i32_binop(Instruction::I32RemS, a, b) is None,
        b != 0 ==> (spec_i32_binop(Instruction::I32DivS, a, b) is None <==> (a == i32::MIN && b == -1)),
        b != 0 ==> spec_i32_binop(Instruction::I32RemS, a, b) is Some,
        b != 0 ==> ({
            let r = spec_i32_binop(Instruction::I32RemS, a, b)->Some_0 as int;
            &&& (if b > 0 { -b < r < b } else { b < r < -b })
            &&& (a >= 0 ==> r >= 0)
            &&& (a < 0 ==> r <= 0)
            &&& (spec_i32_binop(Instruction::I32DivS, a, b) matches Some(q) ==> a == q * b + r)
            &&& (a == i32::MIN && b == -1 ==> r == 0)
        }),
{
    if b != 0 {
        let x = a as int;
        let d = b as int;
        let r = spec_i32_binop(Instruction::I32RemS, a, b)->Some_0 as int;
        if let Some(q) = spec_i32_binop(Instruction::I32DivS, a, b) {
            let q = q as int;
            if x > 0 && d > 0 {
                lemma_divmod_nonneg(x, d);
                assert(q == x / d && r == x % d);
                assert(x == q * d + r);
            } else if x < 0 && d < 0 {
                lemma_divmod_nonneg(-x, -d);
                assert(q == -x / -d && r == -(-x % -d));
                assert((-x / -d) * -d == -((-x / -d) * d)) by (nonlinear_arith);
                assert(x == q * d + r);
            } else if x < 0 {
                lemma_divmod_nonneg(-x, d);
                assert(q == -(-x / d) && r == -(-x % d));
                assert((-(-x / d)) * d == -((-x / d) * d)) by (nonlinear_arith);
                assert(x == q * d + r);
            } else if d < 0 {
                lemma_divmod_nonneg(x, -d);
                assert(q == -(x / -d) && r == x % -d);
                assert((x / -d) * -d == (-(x / -d)) * d) by (nonlinear_arith);
                assert(x == q * d + r);
            } else {
                assert(x == 0 && q == 0 && r == 0);
                assert(q * d == 0);
            }
        } else {
            if x > 0 && d > 0 {
                lemma_divmod_nonneg(x, d);
            } else if x < 0 && d < 0 {
                lemma_divmod_nonneg(-x, -d);
            } else if x < 0 {
                lemma_divmod_nonneg(-x, d);
            } else if d < 0 {
                lemma_divmod_nonneg(x, -d);
            }
        }
    }
}

/// Unsigned division of `i32` reads both operands as unsigned: for a divisor that is not zero,
/// `div_u` and `rem_u` give the unsigned quotient and remainder; a zero divisor traps.
pub proof fn lemma_i32_unsigned_division(a: i32, b: i32)
    ensures
        b == 0 ==> spec_i32_binop(Instruction::I32DivU, a, b) is None && spec_i32_binop(Instruction::I32RemU, a, b) is None,
        b != 0 ==> spec_i32_binop(Instruction::I32DivU, a, b) is Some && spec_i32_binop(Instruction::I32RemU, a, b) is Some,
        b != 0 ==> ({
            let q = unsigned32(spec_i32_binop(Instruction::I32DivU, a, b)->Some_0);
            let r = unsigned32(spec_i32_binop(Instruction::I32RemU, a, b)->Some_0);
            &&& unsigned32(a) == q * unsigned32(b) + r
            &&& 0 <= r < unsigned32(b)
        }),
{
    lemma_unsigned32(a);
    lemma_unsigned32(b);
    if b != 0 {
        let ua = a as u32;
        let ub = b as u32;
        assert(ub != 0) by (bit_vector)
            requires
                b != 0,
                ub == b as u32,
        ;
        let q = ua / ub;
        let r = ua % ub;
        lemma_unsigned32(q as i32);
        lemma_unsigned32(r as i32);
        assert(((q as i32) as u32 == q) && ((r as i32) as u32 == r)) by (bit_vector);
        lemma_divmod_nonneg(ua as int, ub as int);
    }
}


/// The result of an `i64` instruction that cannot trap.
pub open spec fn i64_result(i: Instruction, a: i64, b: i64) -> u64 {
    spec_i64_binop(i, a, b)->Some_0 as u64
}

/// The shifts and rotations of `i64` move bits: with `s` the right operand modulo 64, bit `j`
/// of the result of `shl` is bit `j - s` of the left operand (zero below `s`); of `shr_u`, bit
/// `j + s` (zero from `32 - s` on); of `shr_s`, bit `j + s`, or the sign bit past the top; of
/// `rotl`, bit `j - s` modulo 64; of `rotr`, bit `j + s` modulo 64.
pub proof fn lemma_i64_shift_bits(a: i64, b: i64, j: u64)
    requires
        j < 64,
    ensures
        ({
            let s = (b as u64) % 64;
            let ua = a as u64;
            &&& spec_i64_binop(Instruction::I64Shl, a, b) is Some
            &&& spec_i64_binop(Instruction::I64ShrU, a, b) is Some
            &&& spec_i64_binop(Instruction::I64ShrS, a, b) is Some
            &&& spec_i64_binop(Instruction::I64Rotl, a, b) is Some
            &&& spec_i64_binop(Instruction::I64Rotr, a, b) is Some
            &&& bit64(i64_result(Instruction::I64Shl, a, b), j) == (j >= s && bit64(ua, (j - s) as u64))
            &&& bit64(i64_result(Instruction::I64ShrU, a, b), j) == (j + s < 64 && bit64(ua, (j + s) as u64))
            &&& bit64(i64_result(Instruction::I64ShrS, a, b), j) == bit64(ua, if j + s < 64 { (j + s) as u64 } else { 63 })
            &&& bit64(i64_result(Instruction::I64Rotl, a, b), j) == bit64(ua, ((j + 64 - s) % 64) as u64)
            &&& bit64(i64_result(Instruction::I64Rotr, a, b), j) == bit64(ua, ((j + s) % 64) as u64)
        }),
{
    let s = (b as u64) % 64;
    let ua = a as u64;
    assert(s < 64);
    let c = (b as u32) % 64;
    assert(((b as u32) % 64) as u64 == (b as u64) % 64) by (bit_vector);
    let shl = a << c;
    let shru = ua >> c;
    let shrs = a >> c;
    assert(shl == a << s && shru == ua >> s && shrs == a >> s);
    assert(bit64(shl as u64, j) == (j >= s && bit64(ua, (j - s) as u64))) by (bit_vector)
        requires
            s < 64,
            j < 64,
            shl == a << s,
            ua == a as u64,
    ;
    assert(bit64((shru as i64) as u64, j) == (j + s < 64 && bit64(ua, (j + s) as u64))) by (bit_vector)
        requires
            s < 64,
            j < 64,
            shru == ua >> s,
    ;
    assert(bit64(shrs as u64, j) == bit64(ua, if j + s < 64 { (j + s) as u64 } else { 63 })) by (bit_vector)
        requires
            s < 64,
            j < 64,
            shrs == a >> s,
            ua == a as u64,
    ;
    let rl = spec_rotl64(ua, b as u64);
    let rr = spec_rotr64(ua, b as u64);
    if s == 0 {
        assert(bit64((ua as i64) as u64, j) == bit64(ua, ((j + 64 - s) % 64) as u64)) by (bit_vector)
            requires
                s == 0,
                j < 64,
        ;
        assert(bit64((ua as i64) as u64, j) == bit64(ua, ((j + s) % 64) as u64)) by (bit_vector)
            requires
                s == 0,
                j < 64,
        ;
    } else {
        let l = (ua << s) | (ua >> ((64 - s) as u64));
        let r = (ua >> s) | (ua << ((64 - s) as u64));
        assert(bit64((l as i64) as u64, j) == bit64(ua, ((j + 64 - s) % 64) as u64)) by (bit_vector)
            requires
                0 < s < 64,
                j < 64,
                l == (ua << s) | (ua >> ((64 - s) as u64)),
        ;
        assert(bit64((r as i64) as u64, j) == bit64(ua, ((j + s) % 64) as u64)) by (bit_vector)
            requires
                0 < s < 64,
                j < 64,
                r == (ua >> s) | (ua << ((64 - s) as u64)),
        ;
    }
}


/// The unsigned reading of an `i64`: its value modulo `2^64`, between zero and `2^64`.
pub open spec fn unsigned64(a: i64) -> int {
    if a < 0 {
        a + 0x1_0000_0000_0000_0000
    } else {
        a as int
    }
}

proof fn lemma_unsigned64(a: i64)
    ensures
        unsigned64(a) == (a as u64) as int,
{
    assert(
        (a < 0 ==> (a as u64) as int == a + 0x1_0000_0000_0000_0000)
        && (a >= 0 ==> (a as u64) as int == a as int)
    ) by (bit_vector);
}

/// The bitwise instructions of `i64` combine the operands bit by bit.
pub proof fn lemma_i64_bitwise(a: i64, b: i64, j: u64)
    requires
        j < 64,
    ensures
        spec_i64_binop(Instruction::I64And, a, b) is Some,
        spec_i64_binop(Instruction::I64Or, a, b) is Some,
        spec_i64_binop(Instruction::I64Xor, a, b) is Some,
        bit64(i64_result(Instruction::I64And, a, b), j) == (bit64(a as u64, j) && bit64(b as u64, j)),
        bit64(i64_result(Instruction::I64Or, a, b), j) == (bit64(a as u64, j) || bit64(b as u64, j)),
        bit64(i64_result(Instruction::I64Xor, a, b), j) == (bit64(a as u64, j) != bit64(b as u64, j)),
{
    let x = a & b;
    let y = a | b;
    let z = a ^ b;
    assert(bit64(x as u64, j) == (bit64(a as u64, j) && bit64(b as u64, j)) && bit64(y as u64, j) == (bit64(a as u64, j)
        || bit64(b as u64, j)) && bit64(z as u64, j) == (bit64(a as u64, j) != bit64(b as u64, j))) by (bit_vector)
        requires
            x == a & b,
            y == a | b,
            z == a ^ b,
    ;
}

/// `i64.shr_u` is unsigned division by a power of two: the unsigned reading of the result is
/// that of the left operand divided by `2^s`, with `s` the right operand modulo 64; so where `s`
/// is not zero the result is not negative.
pub proof fn lemma_i64_shr_u_divides(a: i64, b: i64)
    ensures
        ({
            let s = (b as u64) % 64;
            &&& spec_i64_binop(Instruction::I64ShrU, a, b) is Some
            &&& unsigned64(spec_i64_binop(Instruction::I64ShrU, a, b)->Some_0) == unsigned64(a) / pow2(s as nat) as int
            &&& s > 0 ==> spec_i64_binop(Instruction::I64ShrU, a, b)->Some_0 >= 0
        }),
{
    let s = (b as u64) % 64;
    let ua = a as u64;
    let c = (b as u32) % 64;
    assert(((b as u32) % 64) as u64 == (b as u64) % 64) by (bit_vector);
    let r = ua >> s;
    assert(ua >> c == r);
    lemma_unsigned64(a);
    lemma_unsigned64(r as i64);
    vstd::bits::lemma_u64_shr_is_div(ua, s);
    assert((r as i64) as u64 == r && (s > 0 ==> (r as i64) >= 0)) by (bit_vector)
        requires
            r == ua >> s,
            s < 64,
    ;
}

/// Addition, subtraction and multiplication of `i64` wrap around: the result is the exact
/// one modulo `2^64`.
pub proof fn lemma_i64_wrapping(a: i64, b: i64)
    ensures
        spec_i64_binop(Instruction::I64Add, a, b) is Some,
        spec_i64_binop(Instruction::I64Sub, a, b) is Some,
        spec_i64_binop(Instruction::I64Mul, a, b) is Some,
        (spec_i64_binop(Instruction::I64Add, a, b)->Some_0 - (a + b)) % 0x1_0000_0000_0000_0000 == 0,
        (spec_i64_binop(Instruction::I64Sub, a, b)->Some_0 - (a - b)) % 0x1_0000_0000_0000_0000 == 0,
        (spec_i64_binop(Instruction::I64Mul, a, b)->Some_0 - (a * b)) % 0x1_0000_0000_0000_0000 == 0,
{
    let m: int = 0x1_0000_0000_0000_0000;
    let add = spec_i64_binop(Instruction::I64Add, a, b)->Some_0 - (a + b);
    let sub = spec_i64_binop(Instruction::I64Sub, a, b)->Some_0 - (a - b);
    assert(add == 0 || add == m || add == -m);
    assert(sub == 0 || sub == m || sub == -m);
    lemma_multiple_mod(add, m);
    lemma_multiple_mod(sub, m);
    let p = a * b;
    let r = p % m;
    vstd::arithmetic::div_mod::lemma_fundamental_div_mod(p, m);
    let c = vstd::wrapping::i64_specs::signed_crop(p);
    assert(c - p == -m * (p / m) || c - p == -m * (p / m) - m);
    vstd::arithmetic::div_mod::lemma_mod_multiples_basic(-(p / m), m);
    vstd::arithmetic::div_mod::lemma_mod_multiples_basic(-(p / m) - 1, m);
    assert(-m * (p / m) - m == (-(p / m) - 1) * m) by (nonlinear_arith);
    assert(-m * (p / m) == (-(p / m)) * m) by (nonlinear_arith);
}

/// Signed division of `i64` truncates toward zero and its remainder takes the sign of the
/// dividend: for a divisor that is not zero, `div_s` and `rem_s` give `q` and `r` with
/// `a == q * b + r`, `|r| < |b|`, and `r` not of the other sign than `a`; `div_s` traps only on
/// `i64::MIN / -1`, whose quotient does not fit, where `rem_s` gives zero. A zero divisor traps.
pub proof fn lemma_i64_signed_division(a: i64, b: i64)
    ensures
        b == 0 ==> spec_i64_binop(Instruction::I64DivS, a, b) is None && spec_i64_binop(Instruction::I64RemS, a, b) is None,
        b != 0 ==> (spec_i64_binop(Instruction::I64DivS, a, b) is None <==> (a == i64::MIN && b == -1)),
        b != 0 ==> spec_i64_binop(Instruction::I64RemS, a, b) is Some,
        b != 0 ==> ({
            let r = spec_i64_binop(Instruction::I64RemS, a, b)->Some_0 as int;
            &&& (if b > 0 { -b < r < b } else { b < r < -b })
            &&& (a >= 0 ==> r >= 0)
            &&& (a < 0 ==> r <= 0)
            &&& (spec_i64_binop(Instruction::I64DivS, a, b) matches Some(q) ==> a == q * b + r)
            &&& (a == i64::MIN && b == -1 ==> r == 0)
        }),
{
    if b != 0 {
        let x = a as int;
        let d = b as int;
        let r = spec_i64_binop(Instruction::I64RemS, a, b)->Some_0 as int;
        if let Some(q) = spec_i64_binop(Instruction::I64DivS, a, b) {
            let q = q as int;
            if x > 0 && d > 0 {
                lemma_divmod_nonneg(x, d);
                assert(q == x / d && r == x % d);
                assert(x == q * d + r);
            } else if x < 0 && d < 0 {
                lemma_divmod_nonneg(-x, -d);
                assert(q == -x / -d && r == -(-x % -d));
                assert((-x / -d) * -d == -((-x / -d) * d)) by (nonlinear_arith);
                assert(x == q * d + r);
            } else if x < 0 {
                lemma_divmod_nonneg(-x, d);
                assert(q == -(-x / d) && r == -(-x % d));
                assert((-(-x / d)) * d == -((-x / d) * d)) by (nonlinear_arith);
                assert(x == q * d + r);
            } else if d < 0 {
                lemma_divmod_nonneg(x, -d);
                assert(q == -(x / -d) && r == x % -d);
                assert((x / -d) * -d == (-(x / -d)) * d) by (nonlinear_arith);
                assert(x == q * d + r);
            } else {
                assert(x == 0 && q == 0 && r == 0);
                assert(q * d == 0);
            }
        } else {
            if x > 0 && d > 0 {
                lemma_divmod_nonneg(x, d);
            } else if x < 0 && d < 0 {
                lemma_divmod_nonneg(-x, -d);
            } else if x < 0 {
                lemma_divmod_nonneg(-x, d);
            } else if d < 0 {
                lemma_divmod_nonneg(x, -d);
            }
        }
    }
}

/// Unsigned division of `i64` reads both operands as unsigned: for a divisor that is not zero,
/// `div_u` and `rem_u` give the unsigned quotient and remainder; a zero divisor traps.
pub proof fn lemma_i64_unsigned_division(a: i64, b: i64)
    ensures
        b == 0 ==> spec_i64_binop(Instruction::I64DivU, a, b) is None && spec_i64_binop(Instruction::I64RemU, a, b) is None,
        b != 0 ==> spec_i64_binop(Instruction::I64DivU, a, b) is Some && spec_i64_binop(Instruction::I64RemU, a, b) is Some,
        b != 0 ==> ({
            let q = unsigned64(spec_i64_binop(Instruction::I64DivU, a, b)->Some_0);
            let r = unsigned64(spec_i64_binop(Instruction::I64RemU, a, b)->Some_0);
            &&& unsigned64(a) == q * unsigned64(b) + r
            &&& 0 <= r < unsigned64(b)
        }),
{
    lemma_unsigned64(a);
    lemma_unsigned64(b);
    if b != 0 {
        let ua = a as u64;
        let ub = b as u64;
        assert(ub != 0) by (bit_vector)
            requires
                b != 0,
                ub == b as u64,
        ;
        let q = ua / ub;
        let r = ua % ub;
        lemma_unsigned64(q as i64);
        lemma_unsigned64(r as i64);
        assert(((q as i64) as u64 == q) && ((r as i64) as u64 == r)) by (bit_vector);
        lemma_divmod_nonneg(ua as int, ub as int);
    }
}


/// The type of a number value; none for a reference.
pub open spec fn num_type(v: Value) -> Option<ValType> {
    match v {
        Value::I32(_) => Some(ValType::I32),
        Value::I64(_) => Some(ValType::I64),
        Value::F32(_) => Some(ValType::F32),
        Value::F64(_) => Some(ValType::F64),
        Value::Ref(_) => None,
    }
}

/// How many operands a numeric instruction of this shape takes.
pub open spec fn sig_arity(sig: NumSig) -> int {
    match sig {
        NumSig::Const(_) => 0,
        NumSig::Test(_) | NumSig::Un(_) | NumSig::Conv(_, _) => 1,
        NumSig::Cmp(_) | NumSig::Bin(_) => 2,
    }
}

/// Whether the top of a value stack holds the operands that validation types a numeric
/// instruction of this shape with.
pub open spec fn operands_fit(sig: NumSig, st: Seq<Value>) -> bool {
    match sig {
        NumSig::Const(_) => true,
        NumSig::Test(t) | NumSig::Un(t) | NumSig::Conv(t, _) => st.len() >= 1 && num_type(st.last()) == Some(t),
        NumSig::Cmp(t) | NumSig::Bin(t) => st.len() >= 2 && num_type(st[st.len() - 2]) == Some(t) && num_type(
            st[st.len() - 1],
        ) == Some(t),
    }
}

/// The type that validation gives the result of a numeric instruction of this shape.
pub open spec fn sig_result(sig: NumSig) -> ValType {
    match sig {
        NumSig::Const(t) | NumSig::Un(t) | NumSig::Bin(t) | NumSig::Conv(_, t) => t,
        NumSig::Test(_) | NumSig::Cmp(_) => ValType::I32,
    }
}

/// Validation and execution agree on the types of the numeric instructions that the executor
/// runs itself. Where execution of such an instruction completes, its operands on the stack
/// had the types that validation gives the instruction, and it replaced them by one value of
/// the result type that validation gives. Where the operands have those types, execution does
/// not fail for want of an operand: it completes or traps.
pub proof fn lemma_numeric_types_agree(i: Instruction, st: Seq<Value>)
    requires
        spec_numeric_sig(i) is Some,
        spec_stack_op(InstrV::Plain(i), st) is Some,
    ensures
        ({
            let sig = spec_numeric_sig(i)->Some_0;
            let o = spec_stack_op(InstrV::Plain(i), st)->Some_0;
            &&& operands_fit(sig, st) ==> !(o is Panics)
            &&& o matches RunOutcome::Gives(after) ==> {
                &&& operands_fit(sig, st)
                &&& after.len() == st.len() - sig_arity(sig) + 1
                &&& after.drop_last() == st.take(st.len() - sig_arity(sig))
                &&& num_type(after.last()) == Some(sig_result(sig))
            }
        }),
{
    let o = spec_stack_op(InstrV::Plain(i), st)->Some_0;
    if o is Gives {
        let after = o->Gives_0;
        if st.len() >= 2 {
            assert(st.take(st.len() - 2).push(after.last()).drop_last() =~= st.take(st.len() - 2));
        }
        if st.len() >= 1 {
            assert(st.drop_last() =~= st.take(st.len() - 1));
        }
        assert(st.push(after.last()).drop_last() =~= st.take(st.len() - 0));
    }
}


/// Whether a narrow store and a load move the same low bytes of an integer of the load's type,
/// with the same offset.
pub open spec fn narrow_pair(st: Instruction, ld: Instruction, v: Value) -> bool {
    match (st, ld, v) {
        (Instruction::I32Store8(m1), Instruction::I32Load8S(m2), Value::I32(_)) => m1 == m2,
        (Instruction::I32Store8(m1), Instruction::I32Load8U(m2), Value::I32(_)) => m1 == m2,
        (Instruction::I32Store16(m1), Instruction::I32Load16S(m2), Value::I32(_)) => m1 == m2,
        (Instruction::I32Store16(m1), Instruction::I32Load16U(m2), Value::I32(_)) => m1 == m2,
        (Instruction::I64Store8(m1), Instruction::I64Load8S(m2), Value::I64(_)) => m1 == m2,
        (Instruction::I64Store8(m1), Instruction::I64Load8U(m2), Value::I64(_)) => m1 == m2,
        (Instruction::I64Store16(m1), Instruction::I64Load16S(m2), Value::I64(_)) => m1 == m2,
        (Instruction::I64Store16(m1), Instruction::I64Load16U(m2), Value::I64(_)) => m1 == m2,
        (Instruction::I64Store32(m1), Instruction::I64Load32S(m2), Value::I64(_)) => m1 == m2,
        (Instruction::I64Store32(m1), Instruction::I64Load32U(m2), Value::I64(_)) => m1 == m2,
        _ => false,
    }
}

/// A narrow store followed by the load of the same width at the same address gives the stored
/// value cut to that width: a value of the same type that agrees with the stored one modulo
/// `256^n`, sign-extended by the signed loads and zero-extended by the unsigned ones. So
/// `i32.store16` of `v` and then `i32.load16_s` give `v` as an `i16`, widened again.
pub proof fn lemma_narrow_store_then_load(
    mems: Seq<MemoryInstance>,
    after: Seq<MemoryInstance>,
    mi: ModuleInstance,
    values: Seq<Value>,
    below: Seq<FrameV>,
    f: FrameV,
    g: FrameV,
    st: Instruction,
    ld: Instruction,
    base: i32,
    v: Value,
)
    requires
        narrow_pair(st, ld, v),
        spec_memory(mems, mi, values.push(Value::I32(base)).push(v), below, f, st) is Gives,
        after.len() == mems.len(),
        mi.mems@.len() > 0,
        mi.mems@[0].0 < mems.len(),
        after[mi.mems@[0].0 as int].data@ == spec_memory(
            mems,
            mi,
            values.push(Value::I32(base)).push(v),
            below,
            f,
            st,
        )->Gives_0.effect->WriteMem_1,
    ensures
        ({
            let o = spec_memory(after, mi, values.push(Value::I32(base)), below, g, ld);
            let w = o->Gives_0.values.last();
            let p = pow256(load_width(ld)) as int;
            &&& o == proceed(values.push(w), below, g)
            &&& (w is I32) == (v is I32)
            &&& (w is I64) == (v is I64)
            &&& (int_value(w) - int_value(v)) % p == 0
            &&& sign_extends(ld) ==> -(p / 2) <= int_value(w) < p / 2
            &&& !sign_extends(ld) ==> 0 <= int_value(w) < p
        }),
{
    let s = values.push(Value::I32(base)).push(v);
    let a = mi.mems@[0].0;
    let data = mems[a as int].data@;
    let n = store_width(st);
    let u = store_bits(st, v)->Some_0;
    let ea = effective_address(base, access_offset(st))->Some_0;
    lemma_le_value_bytes(u, n);
    let bytes = le_bytes(u, n);
    assert(s.drop_last() =~= values.push(Value::I32(base)));
    assert(s.drop_last().drop_last() =~= values);
    assert(values.push(Value::I32(base)).drop_last() =~= values);
    assert(overwrite(data, ea, bytes).subrange(ea, ea + n) =~= bytes);
    reveal_with_fuel(pow256, 9);
    assert(pow256(1) == 0x100);
    assert(pow256(2) == 0x1_0000);
    assert(pow256(4) == 0x1_0000_0000);
    assert(pow256(8) == 0x1_0000_0000_0000_0000);
    let p = pow256(n) as int;
    let loaded = u % (p as nat);
    assert(load_width(ld) == n);
    lemma_load_extends(ld, loaded);
    let w = load_value(ld, loaded);
    // the bits a store writes are the value modulo the full width, a multiple of `p`
    let full: int = if v is I32 { 0x1_0000_0000 } else { 0x1_0000_0000_0000_0000 };
    match v {
        Value::I32(x) => lemma_unsigned32(x),
        Value::I64(x) => lemma_unsigned64(x),
        _ => {},
    }
    assert(u == int_value(v) || u == int_value(v) + full);
    let k = full / p;
    assert(n == 1 || n == 2 || n == 4);
    if n == 1 {
        assert(p == 0x100);
    } else if n == 2 {
        assert(p == 0x1_0000);
    } else {
        assert(p == 0x1_0000_0000);
    }
    assert(full == k * p);
    vstd::arithmetic::div_mod::lemma_fundamental_div_mod(u as int, p);
    let d = int_value(w) - loaded;
    vstd::arithmetic::div_mod::lemma_fundamental_div_mod(d, p);
    assert(d == p * (d / p));
    let j: int = if u == int_value(v) { 0 } else { k };
    assert(u == int_value(v) + j * p);
    assert(int_value(w) - int_value(v) == (d / p - u as int / p + j) * p) by (nonlinear_arith)
        requires
            d == p * (d / p),
            u as int == p * (u as int / p) + loaded,
            d == int_value(w) - loaded,
            u == int_value(v) + j * p,
    ;
    vstd::arithmetic::div_mod::lemma_mod_multiples_basic(d / p - u as int / p + j, p);
}


/// The sign extensions, wrapping and widening of integers: `i32.wrap_i64` keeps the value
/// modulo `2^32`; `i64.extend_i32_s` keeps the value, `i64.extend_i32_u` gives its unsigned
/// reading; `extend8_s`, `extend16_s` and `extend32_s` give the value of the low 8, 16 or 32
/// bits as a signed number, which agrees with the operand modulo `2^8`, `2^16` or `2^32`.
pub proof fn lemma_integer_conversions(a: i32, c: i64)
    ensures
        spec_unary_value(Instruction::I32WrapI64, Value::I64(c)) matches Some(Value::I32(r)) && (r - c) % 0x1_0000_0000 == 0,
        spec_unary_value(Instruction::I64ExtendI32S, Value::I32(a)) matches Some(Value::I64(r)) && r == a,
        spec_unary_value(Instruction::I64ExtendI32U, Value::I32(a)) matches Some(Value::I64(r)) && r == unsigned32(a),
        spec_unary_value(Instruction::I32Extend8S, Value::I32(a)) matches Some(Value::I32(r)) && (r - a) % 0x100 == 0
            && -0x80 <= r < 0x80,
        spec_unary_value(Instruction::I32Extend16S, Value::I32(a)) matches Some(Value::I32(r)) && (r - a) % 0x1_0000 == 0
            && -0x8000 <= r < 0x8000,
        spec_unary_value(Instruction::I64Extend8S, Value::I64(c)) matches Some(Value::I64(r)) && (r - c) % 0x100 == 0
            && -0x80 <= r < 0x80,
        spec_unary_value(Instruction::I64Extend16S, Value::I64(c)) matches Some(Value::I64(r)) && (r - c) % 0x1_0000 == 0
            && -0x8000 <= r < 0x8000,
        spec_unary_value(Instruction::I64Extend32S, Value::I64(c)) matches Some(Value::I64(r)) && (r - c) % 0x1_0000_0000
            == 0 && -0x8000_0000 <= r < 0x8000_0000,
        spec_unary_value(Instruction::I32Eqz, Value::I32(a)) == Some(Value::I32(if a == 0 { 1 } else { 0 })),
        spec_unary_value(Instruction::I64Eqz, Value::I64(c)) == Some(Value::I32(if c == 0 { 1 } else { 0 })),
{
    lemma_unsigned32(a);
    assert(
        ((((c as i32) as i64) - c) % 0x1_0000_0000 == 0)
        && ((((a as i8) as i32) - a) % 0x100 == 0)
        && ((((a as i16) as i32) - a) % 0x1_0000 == 0)
        && ((((c as i8) as i64) - c) % 0x100 == 0)
        && ((((c as i16) as i64) - c) % 0x1_0000 == 0)
        && ((((c as i32) as i64) - c) % 0x1_0000_0000 == 0)
    ) by (bit_vector);
}


/// The comparisons of `i32`: `lt_s` is the order of the values and `lt_u` that of their
/// unsigned readings; `gt` is `lt` with the operands swapped, `le` is not `gt`, `ge` is not
/// `lt`, and `ne` is not `eq`, which is equality.
pub proof fn lemma_i32_comparisons(a: i32, b: i32)
    ensures
        spec_i32_relop(Instruction::I32Eq, a, b) == (a == b),
        spec_i32_relop(Instruction::I32Ne, a, b) == !spec_i32_relop(Instruction::I32Eq, a, b),
        spec_i32_relop(Instruction::I32LtS, a, b) == (a < b),
        spec_i32_relop(Instruction::I32LtU, a, b) == (unsigned32(a) < unsigned32(b)),
        spec_i32_relop(Instruction::I32GtS, a, b) == spec_i32_relop(Instruction::I32LtS, b, a),
        spec_i32_relop(Instruction::I32GtU, a, b) == spec_i32_relop(Instruction::I32LtU, b, a),
        spec_i32_relop(Instruction::I32LeS, a, b) == !spec_i32_relop(Instruction::I32GtS, a, b),
        spec_i32_relop(Instruction::I32LeU, a, b) == !spec_i32_relop(Instruction::I32GtU, a, b),
        spec_i32_relop(Instruction::I32GeS, a, b) == !spec_i32_relop(Instruction::I32LtS, a, b),
        spec_i32_relop(Instruction::I32GeU, a, b) == !spec_i32_relop(Instruction::I32LtU, a, b),
{
    lemma_unsigned32(a);
    lemma_unsigned32(b);
}

/// The comparisons of `i64`, as those of `i32`.
pub proof fn lemma_i64_comparisons(a: i64, b: i64)
    ensures
        spec_i64_relop(Instruction::I64Eq, a, b) == (a == b),
        spec_i64_relop(Instruction::I64Ne, a, b) == !spec_i64_relop(Instruction::I64Eq, a, b),
        spec_i64_relop(Instruction::I64LtS, a, b) == (a < b),
        spec_i64_relop(Instruction::I64LtU, a, b) == (unsigned64(a) < unsigned64(b)),
        spec_i64_relop(Instruction::I64GtS, a, b) == spec_i64_relop(Instruction::I64LtS, b, a),
        spec_i64_relop(Instruction::I64GtU, a, b) == spec_i64_relop(Instruction::I64LtU, b, a),
        spec_i64_relop(Instruction::I64LeS, a, b) == !spec_i64_relop(Instruction::I64GtS, a, b),
        spec_i64_relop(Instruction::I64LeU, a, b) == !spec_i64_relop(Instruction::I64GtU, a, b),
        spec_i64_relop(Instruction::I64GeS, a, b) == !spec_i64_relop(Instruction::I64LtS, a, b),
        spec_i64_relop(Instruction::I64GeU, a, b) == !spec_i64_relop(Instruction::I64LtU, a, b),
{
    lemma_unsigned64(a);
    lemma_unsigned64(b);
}


/// Validation and execution agree on loads and stores: an instruction is a load or a store for
/// validation exactly when the executor reads or writes memory for it, and then with as many
/// bytes, the same offset, and values of the type that validation gives the access. A load
/// gives a value of that type; a store takes exactly the values of that type.
pub proof fn lemma_memory_access_types_agree(x: Instruction, u: nat, v: Value)
    ensures
        spec_mem_access(x) is None ==> load_width(x) == 0 && store_width(x) == 0,
        spec_mem_access(x) matches Some(acc) ==> {
            &&& access_offset(x) == acc.memarg.offset
            &&& !acc.store ==> load_width(x) == acc.byte_size && store_width(x) == 0 && num_type(load_value(x, u))
                == Some(acc.valtype)
            &&& acc.store ==> store_width(x) == acc.byte_size && load_width(x) == 0 && (store_bits(x, v) is Some
                <==> num_type(v) == Some(acc.valtype))
        },
{
}


/// `memory.grow` by `k` pages either fails, pushing -1 and leaving the memory as it was, or
/// pushes the old size in pages, after which `memory.size` gives the old size plus `k`.
pub proof fn lemma_grow_then_size(
    mems: Seq<MemoryInstance>,
    after: Seq<MemoryInstance>,
    mi: ModuleInstance,
    values: Seq<Value>,
    below: Seq<FrameV>,
    f: FrameV,
    g: FrameV,
    k: i32,
)
    requires
        spec_memory(mems, mi, values.push(Value::I32(k)), below, f, Instruction::MemoryGrow(MemIndex(0))) is Gives,
        after.len() == mems.len(),
        mi.mems@[0].0 < mems.len(),
        after[mi.mems@[0].0 as int].data@ == spec_memory(
            mems,
            mi,
            values.push(Value::I32(k)),
            below,
            f,
            Instruction::MemoryGrow(MemIndex(0)),
        )->Gives_0.effect->WriteMem_1,
    ensures
        ({
            let grow = Instruction::MemoryGrow(MemIndex(0));
            let n = spec_memory(mems, mi, values.push(Value::I32(k)), below, f, grow)->Gives_0;
            let before = mems[mi.mems@[0].0 as int].data@;
            let r = n.values.last();
            &&& n.values.drop_last() == values
            &&& n.effect is WriteMem && n.effect->WriteMem_0 == mi.mems@[0].0
            &&& r == Value::I32(-1i32) ==> after[mi.mems@[0].0 as int].data@ == before
            &&& r != Value::I32(-1i32) ==> {
                &&& r == Value::I32(spec_mem_size(before) as i32)
                &&& spec_memory(after, mi, values, below, g, Instruction::MemorySize(MemIndex(0))) == proceed(
                    values.push(Value::I32((spec_mem_size(before) + (k as u32)) as i32)),
                    below,
                    g,
                )
            }
        }),
{
    let s = values.push(Value::I32(k));
    assert(s.drop_last() =~= values);
    let n = spec_memory(mems, mi, s, below, f, Instruction::MemoryGrow(MemIndex(0)))->Gives_0;
    assert(n.values.drop_last() =~= values);
    let a = mi.mems@[0].0;
    let before = mems[a as int].data@;
    let sz = spec_mem_size(before);
    let new_sz = sz + (k as u32);
    if n.values.last() != Value::I32(-1i32) {
        let len = new_sz * WASM_MEM_PAGE_BYTE_SIZE;
        assert(after[a as int].data@.len() == len);
        vstd::arithmetic::div_mod::lemma_div_multiples_vanish(new_sz as int, WASM_MEM_PAGE_BYTE_SIZE as int);
        assert(WASM_MEM_PAGE_BYTE_SIZE * new_sz == len) by (nonlinear_arith)
            requires
                len == new_sz * WASM_MEM_PAGE_BYTE_SIZE,
        ;
    }
}


/// `clz` and `ctz` of `i32` count the zero bits above the highest one bit and below the
/// lowest one bit: the `r` top bits (or bottom bits) are zero, and where `r < 32` the next bit
/// is one.
pub proof fn lemma_i32_count_zeros(a: i32)
    ensures
        ({
            let ua = a as u32;
            let l = spec_i32_unop(Instruction::I32Clz, a);
            let t = spec_i32_unop(Instruction::I32Ctz, a);
            &&& 0 <= l <= 32
            &&& forall|j: u32| 32 - l <= j < 32 ==> !bit32(ua, j)
            &&& l < 32 ==> bit32(ua, (31 - l) as u32)
            &&& 0 <= t <= 32
            &&& forall|j: u32| j < t ==> !bit32(ua, j)
            &&& t < 32 ==> bit32(ua, t as u32)
        }),
{
    let ua = a as u32;
    vstd::std_specs::bits::axiom_u32_leading_zeros(ua);
    vstd::std_specs::bits::axiom_u32_trailing_zeros(ua);
    let l = vstd::std_specs::bits::u32_leading_zeros(ua);
    let t = vstd::std_specs::bits::u32_trailing_zeros(ua);
    assert forall|j: u32| 32 - l <= j < 32 implies !bit32(ua, j) by {
        assert((ua >> j) & 1u32 == 0u32);
    }
    assert forall|j: u32| j < t implies !bit32(ua, j) by {
        assert((ua >> j) & 1u32 == 0u32);
    }
    if l < 32 {
        let k = (31 - l) as u32;
        assert((ua >> k) & 1u32 != 0u32 ==> (ua >> k) & 1u32 == 1u32) by (bit_vector);
    }
}


/// `clz` and `ctz` of `i64` count the zero bits above the highest one bit and below the
/// lowest one bit: the `r` top bits (or bottom bits) are zero, and where `r < 64` the next bit
/// is one.
pub proof fn lemma_i64_count_zeros(a: i64)
    ensures
        ({
            let ua = a as u64;
            let l = spec_i64_unop(Instruction::I64Clz, a);
            let t = spec_i64_unop(Instruction::I64Ctz, a);
            &&& 0 <= l <= 64
            &&& forall|j: u64| 64 - l <= j < 64 ==> !bit64(ua, j)
            &&& l < 64 ==> bit64(ua, (63 - l) as u64)
            &&& 0 <= t <= 64
            &&& forall|j: u64| j < t ==> !bit64(ua, j)
            &&& t < 64 ==> bit64(ua, t as u64)
        }),
{
    let ua = a as u64;
    vstd::std_specs::bits::axiom_u64_leading_zeros(ua);
    vstd::std_specs::bits::axiom_u64_trailing_zeros(ua);
    let l = vstd::std_specs::bits::u64_leading_zeros(ua);
    let t = vstd::std_specs::bits::u64_trailing_zeros(ua);
    assert forall|j: u64| 64 - l <= j < 64 implies !bit64(ua, j) by {
        assert((ua >> j) & 1u64 == 0u64);
    }
    assert forall|j: u64| j < t implies !bit64(ua, j) by {
        assert((ua >> j) & 1u64 == 0u64);
    }
    if l < 64 {
        let k = (63 - l) as u64;
        assert((ua >> k) & 1u64 != 0u64 ==> (ua >> k) & 1u64 == 1u64) by (bit_vector);
    }
}


/// The bounds of memory: a load or store of `n` bytes at address operand `base` and offset
/// `o` traps as out of bounds exactly when `base` read as unsigned, plus `o`, plus `n`, passes
/// the memory's length (a memory of at most `2^32` bytes, as a 32-bit memory is); a load within
/// bounds reads the `n` bytes from that address, least significant first.
pub proof fn lemma_memory_bounds(
    mems: Seq<MemoryInstance>,
    mi: ModuleInstance,
    values: Seq<Value>,
    below: Seq<FrameV>,
    f: FrameV,
    x: Instruction,
    base: i32,
    v: Value,
)
    requires
        mi.mems@.len() > 0,
        mi.mems@[0].0 < mems.len(),
        mems[mi.mems@[0].0 as int].data@.len() <= 0x1_0000_0000,
    ensures
        ({
            let data = mems[mi.mems@[0].0 as int].data@;
            let ea = unsigned32(base) + access_offset(x);
            let oob = RunOutcome::<Next>::Fails(RuntimeErrorKind::Trap(TrapErrorKind::OutOfBoundsMemoryAccess));
            let n = load_width(x);
            let load = spec_memory(mems, mi, values.push(Value::I32(base)), below, f, x);
            let m = store_width(x);
            let store = spec_memory(mems, mi, values.push(Value::I32(base)).push(v), below, f, x);
            &&& n > 0 ==> (load == oob <==> ea + n > data.len())
            &&& n > 0 && ea + n <= data.len() ==> load == proceed(
                values.push(load_value(x, le_value(data.subrange(ea, ea + n)))),
                below,
                f,
            )
            &&& m > 0 && store_bits(x, v) is Some ==> (store == oob <==> ea + m > data.len())
        }),
{
    lemma_unsigned32(base);
    assert(values.push(Value::I32(base)).drop_last() =~= values);
    assert(values.push(Value::I32(base)).push(v).drop_last() =~= values.push(Value::I32(base)));
}


proof fn lemma_ones_complement(x: u64, y: u64, i: nat)
    requires
        i <= 64,
        forall|j: u64| j < i ==> #[trigger] ((x >> j) & 1) + ((y >> j) & 1) == 1,
    ensures
        spec_ones(x, i) + spec_ones(y, i) == i,
    decreases i,
{
    if i > 0 {
        lemma_ones_complement(x, y, (i - 1) as nat);
        let j = (i - 1) as u64;
        assert(((x >> j) & 1) + ((y >> j) & 1) == 1);
    }
}

proof fn lemma_ones_high_zero(x: u64, i: nat)
    requires
        32 <= i <= 64,
        x < 0x1_0000_0000,
    ensures
        spec_ones(x, i) == spec_ones(x, 32),
    decreases i,
{
    if i > 32 {
        lemma_ones_high_zero(x, (i - 1) as nat);
        let j = (i - 1) as u64;
        assert((x >> j) & 1 == 0) by (bit_vector)
            requires
                x < 0x1_0000_0000,
                32 <= j < 64,
        ;
    }
}

/// `i32.popcnt` counts the one bits of its operand among 32: it lies between 0 and 32, and
/// the counts of an operand and of its bitwise complement add up to 32.
pub proof fn lemma_i32_popcount(a: i32)
    ensures
        0 <= spec_i32_unop(Instruction::I32Popcnt, a) <= 32,
        spec_i32_unop(Instruction::I32Popcnt, a) + spec_i32_unop(Instruction::I32Popcnt, !a) == 32,
{
    let x = (a as u32) as u64;
    let y = ((!a) as u32) as u64;
    assert(x < 0x1_0000_0000 && y < 0x1_0000_0000) by (bit_vector)
        requires
            x == (a as u32) as u64,
            y == ((!a) as u32) as u64,
    ;
    assert forall|j: u64| j < 32 implies #[trigger] ((x >> j) & 1) + ((y >> j) & 1) == 1 by {
        assert(((x >> j) & 1) + ((y >> j) & 1) == 1) by (bit_vector)
            requires
                x == (a as u32) as u64,
                y == ((!a) as u32) as u64,
                j < 32,
        ;
    }
    lemma_ones_complement(x, y, 32);
    lemma_ones_high_zero(x, 64);
    lemma_ones_high_zero(y, 64);
    assert(spec_ones(y, 32) <= 32 && spec_ones(x, 32) <= 32);
}


/// `i64.popcnt` counts the one bits of its operand among 64: it lies between 0 and 64, and
/// the counts of an operand and of its bitwise complement add up to 64.
pub proof fn lemma_i64_popcount(a: i64)
    ensures
        0 <= spec_i64_unop(Instruction::I64Popcnt, a) <= 64,
        spec_i64_unop(Instruction::I64Popcnt, a) + spec_i64_unop(Instruction::I64Popcnt, !a) == 64,
{
    let x = a as u64;
    let y = (!a) as u64;
    assert forall|j: u64| j < 64 implies #[trigger] ((x >> j) & 1) + ((y >> j) & 1) == 1 by {
        assert(((x >> j) & 1) + ((y >> j) & 1) == 1) by (bit_vector)
            requires
                x == a as u64,
                y == (!a) as u64,
                j < 64,
        ;
    }
    lemma_ones_complement(x, y, 64);
}

} // verus!
