//! The opcodes of the binary format, from instruction to byte, and the laws that tie them
//! to decoding.
use vstd::prelude::*;

use crate::binary::reader::{RView, spec_read_u8};
use crate::binary::types::{MemArg, ValType};
use crate::instructions::{
    InstrV, Instruction, spec_decode_instruction, spec_index_instr, spec_mem_instr, spec_plain_opcode,
    spec_prefixed_plain,
};
use crate::validation::{NumSig, spec_mem_access, spec_numeric_sig};

verus! {

/// The one-byte opcode of an instruction that has no immediates.
pub open spec fn plain_code(i: Instruction) -> Option<u8> {
    match i {
        Instruction::Drop => Some(0x1a),
        Instruction::Else => Some(0x05),
        Instruction::End => Some(0x0b),
        Instruction::F32Abs => Some(0x8b),
        Instruction::F32Add => Some(0x92),
        Instruction::F32Ceil => Some(0x8d),
        Instruction::F32ConvertI32S => Some(0xb2),
        Instruction::F32ConvertI32U => Some(0xb3),
        Instruction::F32ConvertI64S => Some(0xb4),
        Instruction::F32ConvertI64U => Some(0xb5),
        Instruction::F32Copysign => Some(0x98),
        Instruction::F32DemoteF64 => Some(0xb6),
        Instruction::F32Div => Some(0x95),
        Instruction::F32Eq => Some(0x5b),
        Instruction::F32Floor => Some(0x8e),
        Instruction::F32Ge => Some(0x60),
        Instruction::F32Gt => Some(0x5e),
        Instruction::F32Le => Some(0x5f),
        Instruction::F32Lt => Some(0x5d),
        Instruction::F32Max => Some(0x97),
        Instruction::F32Min => Some(0x96),
        Instruction::F32Mul => Some(0x94),
        Instruction::F32Ne => Some(0x5c),
        Instruction::F32Nearest => Some(0x90),
        Instruction::F32Neg => Some(0x8c),
        Instruction::F32ReinterpretI32 => Some(0xbe),
        Instruction::F32Sqrt => Some(0x91),
        Instruction::F32Sub => Some(0x93),
        Instruction::F32Trunc => Some(0x8f),
        Instruction::F64Abs => Some(0x99),
        Instruction::F64Add => Some(0xa0),
        Instruction::F64Ceil => Some(0x9b),
        Instruction::F64ConvertI32S => Some(0xb7),
        Instruction::F64ConvertI32U => Some(0xb8),
        Instruction::F64ConvertI64S => Some(0xb9),
        Instruction::F64ConvertI64U => Some(0xba),
        Instruction::F64Copysign => Some(0xa6),
        Instruction::F64Div => Some(0xa3),
        Instruction::F64Eq => Some(0x61),
        Instruction::F64Floor => Some(0x9c),
        Instruction::F64Ge => Some(0x66),
        Instruction::F64Gt => Some(0x64),
        Instruction::F64Le => Some(0x65),
        Instruction::F64Lt => Some(0x63),
        Instruction::F64Max => Some(0xa5),
        Instruction::F64Min => Some(0xa4),
        Instruction::F64Mul => Some(0xa2),
        Instruction::F64Ne => Some(0x62),
        Instruction::F64Nearest => Some(0x9e),
        Instruction::F64Neg => Some(0x9a),
        Instruction::F64PromoteF32 => Some(0xbb),
        Instruction::F64ReinterpretI64 => Some(0xbf),
        Instruction::F64Sqrt => Some(0x9f),
        Instruction::F64Sub => Some(0xa1),
        Instruction::F64Trunc => Some(0x9d),
        Instruction::I32Add => Some(0x6a),
        Instruction::I32And => Some(0x71),
        Instruction::I32Clz => Some(0x67),
        Instruction::I32Ctz => Some(0x68),
        Instruction::I32DivS => Some(0x6d),
        Instruction::I32DivU => Some(0x6e),
        Instruction::I32Eq => Some(0x46),
        Instruction::I32Eqz => Some(0x45),
        Instruction::I32Extend16S => Some(0xc1),
        Instruction::I32Extend8S => Some(0xc0),
        Instruction::I32GeS => Some(0x4e),
        Instruction::I32GeU => Some(0x4f),
        Instruction::I32GtS => Some(0x4a),
        Instruction::I32GtU => Some(0x4b),
        Instruction::I32LeS => Some(0x4c),
        Instruction::I32LeU => Some(0x4d),
        Instruction::I32LtS => Some(0x48),
        Instruction::I32LtU => Some(0x49),
        Instruction::I32Mul => Some(0x6c),
        Instruction::I32Ne => Some(0x47),
        Instruction::I32Or => Some(0x72),
        Instruction::I32Popcnt => Some(0x69),
        Instruction::I32ReinterpretF32 => Some(0xbc),
        Instruction::I32RemS => Some(0x6f),
        Instruction::I32RemU => Some(0x70),
        Instruction::I32Rotl => Some(0x77),
        Instruction::I32Rotr => Some(0x78),
        Instruction::I32Shl => Some(0x74),
        Instruction::I32ShrS => Some(0x75),
        Instruction::I32ShrU => Some(0x76),
        Instruction::I32Sub => Some(0x6b),
        Instruction::I32TruncF32S => Some(0xa8),
        Instruction::I32TruncF32U => Some(0xa9),
        Instruction::I32TruncF64S => Some(0xaa),
        Instruction::I32TruncF64U => Some(0xab),
        Instruction::I32WrapI64 => Some(0xa7),
        Instruction::I32Xor => Some(0x73),
        Instruction::I64Add => Some(0x7c),
        Instruction::I64And => Some(0x83),
        Instruction::I64Clz => Some(0x79),
        Instruction::I64Ctz => Some(0x7a),
        Instruction::I64DivS => Some(0x7f),
        Instruction::I64DivU => Some(0x80),
        Instruction::I64Eq => Some(0x51),
        Instruction::I64Eqz => Some(0x50),
        Instruction::I64Extend16S => Some(0xc3),
        Instruction::I64Extend32S => Some(0xc4),
        Instruction::I64Extend8S => Some(0xc2),
        Instruction::I64ExtendI32S => Some(0xac),
        Instruction::I64ExtendI32U => Some(0xad),
        Instruction::I64GeS => Some(0x59),
        Instruction::I64GeU => Some(0x5a),
        Instruction::I64GtS => Some(0x55),
        Instruction::I64GtU => Some(0x56),
        Instruction::I64LeS => Some(0x57),
        Instruction::I64LeU => Some(0x58),
        Instruction::I64LtS => Some(0x53),
        Instruction::I64LtU => Some(0x54),
        Instruction::I64Mul => Some(0x7e),
        Instruction::I64Ne => Some(0x52),
        Instruction::I64Or => Some(0x84),
        Instruction::I64Popcnt => Some(0x7b),
        Instruction::I64ReinterpretF64 => Some(0xbd),
        Instruction::I64RemS => Some(0x81),
        Instruction::I64RemU => Some(0x82),
        Instruction::I64Rotl => Some(0x89),
        Instruction::I64Rotr => Some(0x8a),
        Instruction::I64Shl => Some(0x86),
        Instruction::I64ShrS => Some(0x87),
        Instruction::I64ShrU => Some(0x88),
        Instruction::I64Sub => Some(0x7d),
        Instruction::I64TruncF32S => Some(0xae),
        Instruction::I64TruncF32U => Some(0xaf),
        Instruction::I64TruncF64S => Some(0xb0),
        Instruction::I64TruncF64U => Some(0xb1),
        Instruction::I64Xor => Some(0x85),
        Instruction::Nop => Some(0x01),
        Instruction::RefIsNull => Some(0xd1),
        Instruction::Return => Some(0x0f),
        Instruction::Select => Some(0x1b),
        Instruction::Unreachable => Some(0x00),
        _ => None,
    }
}

/// The sub-opcode, after the 0xfc prefix, of an instruction that has no immediates.
pub open spec fn prefixed_code(i: Instruction) -> Option<u32> {
    match i {
        Instruction::I32TruncSatF32S => Some(0),
        Instruction::I32TruncSatF32U => Some(1),
        Instruction::I32TruncSatF64S => Some(2),
        Instruction::I32TruncSatF64U => Some(3),
        Instruction::I64TruncSatF32S => Some(4),
        Instruction::I64TruncSatF32U => Some(5),
        Instruction::I64TruncSatF64S => Some(6),
        Instruction::I64TruncSatF64U => Some(7),
        _ => None,
    }
}

/// The opcode and memory immediate of a load or a store.
pub open spec fn mem_code(i: Instruction) -> Option<(u8, MemArg)> {
    match i {
        Instruction::F32Load(m) => Some((0x2a, m)),
        Instruction::F32Store(m) => Some((0x38, m)),
        Instruction::F64Load(m) => Some((0x2b, m)),
        Instruction::F64Store(m) => Some((0x39, m)),
        Instruction::I32Load(m) => Some((0x28, m)),
        Instruction::I32Load16S(m) => Some((0x2e, m)),
        Instruction::I32Load16U(m) => Some((0x2f, m)),
        Instruction::I32Load8S(m) => Some((0x2c, m)),
        Instruction::I32Load8U(m) => Some((0x2d, m)),
        Instruction::I32Store(m) => Some((0x36, m)),
        Instruction::I32Store16(m) => Some((0x3b, m)),
        Instruction::I32Store8(m) => Some((0x3a, m)),
        Instruction::I64Load(m) => Some((0x29, m)),
        Instruction::I64Load16S(m) => Some((0x32, m)),
        Instruction::I64Load16U(m) => Some((0x33, m)),
        Instruction::I64Load32S(m) => Some((0x34, m)),
        Instruction::I64Load32U(m) => Some((0x35, m)),
        Instruction::I64Load8S(m) => Some((0x30, m)),
        Instruction::I64Load8U(m) => Some((0x31, m)),
        Instruction::I64Store(m) => Some((0x37, m)),
        Instruction::I64Store16(m) => Some((0x3d, m)),
        Instruction::I64Store32(m) => Some((0x3e, m)),
        Instruction::I64Store8(m) => Some((0x3c, m)),
        _ => None,
    }
}

/// The opcode and index immediate of an instruction with a single index.
pub open spec fn index_code(i: Instruction) -> Option<(u8, u32)> {
    match i {
        Instruction::Br(x) => Some((0x0c, x)),
        Instruction::BrIf(x) => Some((0x0d, x)),
        Instruction::Call(x) => Some((0x10, x)),
        Instruction::GlobalGet(x) => Some((0x23, x)),
        Instruction::GlobalSet(x) => Some((0x24, x)),
        Instruction::LocalGet(x) => Some((0x20, x)),
        Instruction::LocalSet(x) => Some((0x21, x)),
        Instruction::LocalTee(x) => Some((0x22, x)),
        Instruction::RefFunc(x) => Some((0xd2, x)),
        Instruction::TableGet(x) => Some((0x25, x)),
        Instruction::TableSet(x) => Some((0x26, x)),
        _ => None,
    }
}

/// Each opcode without immediates stands for its own instruction: the byte decodes to an
/// instruction exactly when that instruction is encoded by the byte.
pub proof fn lemma_plain_opcode_roundtrip(op: u8, i: Instruction)
    ensures
        spec_plain_opcode(op) == Some(i) <==> plain_code(i) == Some(op),
{
}

/// Each sub-opcode after the 0xfc prefix stands for its own instruction.
pub proof fn lemma_prefixed_opcode_roundtrip(sub: u32, i: Instruction)
    ensures
        spec_prefixed_plain(sub) == Some(i) <==> prefixed_code(i) == Some(sub),
{
}

/// Each load or store opcode, with its memory immediate, stands for its own instruction: what
/// an opcode decodes to is encoded by that opcode and the same immediate, and an encoded load
/// or store decodes back to itself.
pub proof fn lemma_mem_opcode_roundtrip(op: u8, m: MemArg, i: Instruction)
    ensures
        0x28 <= op <= 0x3e ==> mem_code(spec_mem_instr(op, m)) == Some((op, m)),
        mem_code(i) matches Some((c, a)) ==> 0x28 <= c <= 0x3e && spec_mem_instr(c, a) == i,
{
}

/// Each opcode with a single index immediate stands for its own instruction.
pub proof fn lemma_index_opcode_roundtrip(op: u8, x: u32, i: Instruction)
    ensures
        (op == 0x0c || op == 0x0d || op == 0x10 || op == 0x20 || op == 0x21 || op == 0x22 || op == 0x23
            || op == 0x24 || op == 0xd2 || op == 0x25 || op == 0x26) ==> index_code(spec_index_instr(op, x))
            == Some((op, x)),
        index_code(i) matches Some((c, y)) ==> spec_index_instr(c, y) == i,
{
}

/// An instruction without immediates decodes from its one opcode byte, and the reader then
/// stands just past that byte.
pub proof fn lemma_decode_plain(v: RView, i: Instruction)
    requires
        plain_code(i) is Some,
        spec_read_u8(v) is Ok,
        spec_read_u8(v)->Ok_0.0 == plain_code(i)->Some_0,
    ensures
        spec_decode_instruction(v) == Ok::<(InstrV, int), crate::instructions::InstructionError>(
            (InstrV::Plain(i), spec_read_u8(v)->Ok_0.1),
        ),
{
    lemma_plain_opcode_roundtrip(plain_code(i)->Some_0, i);
}


/// The shape of a numeric instruction as the binary format groups the numeric opcodes: by
/// kind of instruction and by operand type, in runs of consecutive opcodes.
pub open spec fn sig_by_opcode(op: u8) -> Option<NumSig> {
    if op == 0x45 {
        Some(NumSig::Test(ValType::I32))
    } else if 0x46 <= op <= 0x4f {
        Some(NumSig::Cmp(ValType::I32))
    } else if op == 0x50 {
        Some(NumSig::Test(ValType::I64))
    } else if 0x51 <= op <= 0x5a {
        Some(NumSig::Cmp(ValType::I64))
    } else if 0x5b <= op <= 0x60 {
        Some(NumSig::Cmp(ValType::F32))
    } else if 0x61 <= op <= 0x66 {
        Some(NumSig::Cmp(ValType::F64))
    } else if 0x67 <= op <= 0x69 {
        Some(NumSig::Un(ValType::I32))
    } else if 0x6a <= op <= 0x78 {
        Some(NumSig::Bin(ValType::I32))
    } else if 0x79 <= op <= 0x7b {
        Some(NumSig::Un(ValType::I64))
    } else if 0x7c <= op <= 0x8a {
        Some(NumSig::Bin(ValType::I64))
    } else if 0x8b <= op <= 0x91 {
        Some(NumSig::Un(ValType::F32))
    } else if 0x92 <= op <= 0x98 {
        Some(NumSig::Bin(ValType::F32))
    } else if 0x99 <= op <= 0x9f {
        Some(NumSig::Un(ValType::F64))
    } else if 0xa0 <= op <= 0xa6 {
        Some(NumSig::Bin(ValType::F64))
    } else if op == 0xa7 {
        Some(NumSig::Conv(ValType::I64, ValType::I32))
    } else if op == 0xa8 || op == 0xa9 || op == 0xbc {
        Some(NumSig::Conv(ValType::F32, ValType::I32))
    } else if op == 0xaa || op == 0xab {
        Some(NumSig::Conv(ValType::F64, ValType::I32))
    } else if op == 0xac || op == 0xad {
        Some(NumSig::Conv(ValType::I32, ValType::I64))
    } else if op == 0xae || op == 0xaf {
        Some(NumSig::Conv(ValType::F32, ValType::I64))
    } else if op == 0xb0 || op == 0xb1 || op == 0xbd {
        Some(NumSig::Conv(ValType::F64, ValType::I64))
    } else if op == 0xb2 || op == 0xb3 || op == 0xbe {
        Some(NumSig::Conv(ValType::I32, ValType::F32))
    } else if op == 0xb4 || op == 0xb5 {
        Some(NumSig::Conv(ValType::I64, ValType::F32))
    } else if op == 0xb6 {
        Some(NumSig::Conv(ValType::F64, ValType::F32))
    } else if op == 0xb7 || op == 0xb8 {
        Some(NumSig::Conv(ValType::I32, ValType::F64))
    } else if op == 0xb9 || op == 0xba || op == 0xbf {
        Some(NumSig::Conv(ValType::I64, ValType::F64))
    } else if op == 0xbb {
        Some(NumSig::Conv(ValType::F32, ValType::F64))
    } else if op == 0xc0 || op == 0xc1 {
        Some(NumSig::Conv(ValType::I32, ValType::I32))
    } else if 0xc2 <= op <= 0xc4 {
        Some(NumSig::Conv(ValType::I64, ValType::I64))
    } else {
        None
    }
}

/// The shape of a saturating truncation, by its sub-opcode after the 0xfc prefix: from `f32`
/// or `f64`, to `i32` or `i64`, in pairs of signed and unsigned.
pub open spec fn sig_by_sub_opcode(sub: u32) -> Option<NumSig> {
    if sub <= 1 {
        Some(NumSig::Conv(ValType::F32, ValType::I32))
    } else if sub <= 3 {
        Some(NumSig::Conv(ValType::F64, ValType::I32))
    } else if sub <= 5 {
        Some(NumSig::Conv(ValType::F32, ValType::I64))
    } else if sub <= 7 {
        Some(NumSig::Conv(ValType::F64, ValType::I64))
    } else {
        None
    }
}

/// Validation types each numeric instruction as its opcode's group in the binary format says:
/// the operand and result types of an instruction follow from the opcode that encodes it, and
/// an instruction without immediates outside the numeric opcodes is no numeric instruction.
pub proof fn lemma_numeric_sig_by_opcode(i: Instruction)
    ensures
        plain_code(i) matches Some(op) ==> spec_numeric_sig(i) == sig_by_opcode(op),
        prefixed_code(i) matches Some(sub) ==> spec_numeric_sig(i) == sig_by_sub_opcode(sub),
        i matches Instruction::I32Const(_) ==> spec_numeric_sig(i) == Some(NumSig::Const(ValType::I32)),
        i matches Instruction::I64Const(_) ==> spec_numeric_sig(i) == Some(NumSig::Const(ValType::I64)),
        i matches Instruction::F32Const(_) ==> spec_numeric_sig(i) == Some(NumSig::Const(ValType::F32)),
        i matches Instruction::F64Const(_) ==> spec_numeric_sig(i) == Some(NumSig::Const(ValType::F64)),
{
}


/// The opcodes of memory instructions are the loads, from 0x28 to 0x35, then the stores, to
/// 0x3e: validation treats an instruction as a memory access exactly when it has such an
/// opcode, with the immediate that follows the opcode, as a store exactly when the opcode is
/// one of the stores.
pub proof fn lemma_mem_access_by_opcode(i: Instruction)
    ensures
        mem_code(i) is None ==> spec_mem_access(i) is None,
        mem_code(i) matches Some((op, m)) ==> spec_mem_access(i) matches Some(acc) && acc.memarg == m && acc.store == (
        op >= 0x36),
{
}

} // verus!
