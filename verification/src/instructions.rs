//! WebAssembly instructions and their decoding.
use vstd::prelude::*;
use vstd::string::*;

use crate::binary::reader::{
    FromReader, InvalidEnumValueError, RView, ReadError, Reader, VecReadError, parsed, read_as,
    spec_read_exact, spec_read_i32, spec_read_i64, spec_read_u32, spec_read_u8, spec_read_vec_of,
    vec_view,
};
use crate::binary::types::{
    BlockType, BranchTableIdx, BranchTableIdxReadError, DataIdx, ElemIdx, FuncIdx, GlobalIdx, LabelIdx,
    MemArg, MemArgReadError, MemIndex, RefType, TableIdx, TypeIdx, ValType, spec_blocktype,
    spec_branch_table, spec_memarg,
};

use crate::text::{decimal, hex, spec_decimal, spec_hex};

pub mod opcodes;

verus! {

/// WebAssembly Instructions. Floating-point constants are held as their bit patterns.
#[derive(Debug, PartialEq)]
pub enum Instruction {
    Unreachable,
    Nop,
    Drop,
    Select,
    SelectT(Vec<ValType>),
    Block(BlockType),
    Loop(BlockType),
    If(BlockType),
    Else,
    End,
    Br(LabelIdx),
    BrIf(LabelIdx),
    BrTable(BranchTableIdx),
    Return,
    Call(u32),
    CallIndirect((TypeIdx, TableIdx)),
    LocalGet(u32),
    LocalSet(u32),
    LocalTee(u32),
    GlobalGet(GlobalIdx),
    GlobalSet(GlobalIdx),
    I32Load(MemArg),
    I64Load(MemArg),
    F32Load(MemArg),
    F64Load(MemArg),
    I32Load8S(MemArg),
    I32Load8U(MemArg),
    I32Load16S(MemArg),
    I32Load16U(MemArg),
    I64Load8S(MemArg),
    I64Load8U(MemArg),
    I64Load16S(MemArg),
    I64Load16U(MemArg),
    I64Load32S(MemArg),
    I64Load32U(MemArg),
    I32Store(MemArg),
    I64Store(MemArg),
    F32Store(MemArg),
    F64Store(MemArg),
    I32Store8(MemArg),
    I32Store16(MemArg),
    I64Store8(MemArg),
    I64Store16(MemArg),
    I64Store32(MemArg),
    MemorySize(MemIndex),
    MemoryGrow(MemIndex),
    I32Const(i32),
    I64Const(i64),
    F32Const(u32),
    F64Const(u64),
    I32Eqz,
    I32Eq,
    I32Ne,
    I32LtS,
    I32LtU,
    I32GtS,
    I32GtU,
    I32LeS,
    I32LeU,
    I32GeS,
    I32GeU,
    I64Eqz,
    I64Eq,
    I64Ne,
    I64LtS,
    I64LtU,
    I64GtS,
    I64GtU,
    I64LeS,
    I64LeU,
    I64GeS,
    I64GeU,
    F32Eq,
    F32Ne,
    F32Lt,
    F32Gt,
    F32Le,
    F32Ge,
    F64Eq,
    F64Ne,
    F64Lt,
    F64Gt,
    F64Le,
    F64Ge,
    I32Clz,
    I32Ctz,
    I32Popcnt,
    I32Add,
    I32Sub,
    I32Mul,
    I32DivS,
    I32DivU,
    I32RemS,
    I32RemU,
    I32And,
    I32Or,
    I32Xor,
    I32Shl,
    I32ShrS,
    I32ShrU,
    I32Rotl,
    I32Rotr,
    I64Clz,
    I64Ctz,
    I64Popcnt,
    I64Add,
    I64Sub,
    I64Mul,
    I64DivS,
    I64DivU,
    I64RemS,
    I64RemU,
    I64And,
    I64Or,
    I64Xor,
    I64Shl,
    I64ShrS,
    I64ShrU,
    I64Rotl,
    I64Rotr,
    F32Abs,
    F32Neg,
    F32Ceil,
    F32Floor,
    F32Trunc,
    F32Nearest,
    F32Sqrt,
    F32Add,
    F32Sub,
    F32Mul,
    F32Div,
    F32Min,
    F32Max,
    F32Copysign,
    F64Abs,
    F64Neg,
    F64Ceil,
    F64Floor,
    F64Trunc,
    F64Nearest,
    F64Sqrt,
    F64Add,
    F64Sub,
    F64Mul,
    F64Div,
    F64Min,
    F64Max,
    F64Copysign,
    I32WrapI64,
    I32TruncF32S,
    I32TruncF32U,
    I32TruncF64S,
    I32TruncF64U,
    I64ExtendI32S,
    I64ExtendI32U,
    I64TruncF32S,
    I64TruncF32U,
    I64TruncF64S,
    I64TruncF64U,
    F32ConvertI32S,
    F32ConvertI32U,
    F32ConvertI64S,
    F32ConvertI64U,
    F32DemoteF64,
    F64ConvertI32S,
    F64ConvertI32U,
    F64ConvertI64S,
    F64ConvertI64U,
    F64PromoteF32,
    I32ReinterpretF32,
    I64ReinterpretF64,
    F32ReinterpretI32,
    F64ReinterpretI64,
    I32Extend8S,
    I32Extend16S,
    I64Extend8S,
    I64Extend16S,
    I64Extend32S,
    RefNull(RefType),
    RefFunc(FuncIdx),
    I32TruncSatF32S,
    I32TruncSatF32U,
    I64TruncSatF64S,
    I64TruncSatF64U,
    MemoryInit((MemIndex, DataIdx)),
    DataDrop(DataIdx),
    TableInit((TableIdx, ElemIdx)),
    ElemDrop(ElemIdx),
    TableGet(TableIdx),
    TableSet(TableIdx),
    RefIsNull,
    I32TruncSatF64S,
    I32TruncSatF64U,
    I64TruncSatF32S,
    I64TruncSatF32U,
}

/// The model of an instruction: the instruction itself when it holds no
/// vector, and the models of its vectors otherwise.
pub enum InstrV {
    Plain(Instruction),
    SelectT(Seq<ValType>),
    BrTable(Seq<u32>, u32),
}

impl Clone for Instruction {
    /// A copy of the instruction, with copies of the vectors it holds.
    fn clone(&self) -> (r: Self)
        ensures
            r@ == self@,
    {
        let r = match self {
            Instruction::Unreachable => Instruction::Unreachable,
            Instruction::Nop => Instruction::Nop,
            Instruction::Drop => Instruction::Drop,
            Instruction::Select => Instruction::Select,
            Instruction::SelectT(v) => {
                let c = v.clone();
                assert(c@ =~= v@);
                Instruction::SelectT(c)
            },
            Instruction::Block(a) => Instruction::Block(*a),
            Instruction::Loop(a) => Instruction::Loop(*a),
            Instruction::If(a) => Instruction::If(*a),
            Instruction::Else => Instruction::Else,
            Instruction::End => Instruction::End,
            Instruction::Br(a) => Instruction::Br(*a),
            Instruction::BrIf(a) => Instruction::BrIf(*a),
            Instruction::BrTable(b) => Instruction::BrTable(b.clone()),
            Instruction::Return => Instruction::Return,
            Instruction::Call(a) => Instruction::Call(*a),
            Instruction::CallIndirect(a) => Instruction::CallIndirect(*a),
            Instruction::LocalGet(a) => Instruction::LocalGet(*a),
            Instruction::LocalSet(a) => Instruction::LocalSet(*a),
            Instruction::LocalTee(a) => Instruction::LocalTee(*a),
            Instruction::GlobalGet(a) => Instruction::GlobalGet(*a),
            Instruction::GlobalSet(a) => Instruction::GlobalSet(*a),
            Instruction::I32Load(a) => Instruction::I32Load(*a),
            Instruction::I64Load(a) => Instruction::I64Load(*a),
            Instruction::F32Load(a) => Instruction::F32Load(*a),
            Instruction::F64Load(a) => Instruction::F64Load(*a),
            Instruction::I32Load8S(a) => Instruction::I32Load8S(*a),
            Instruction::I32Load8U(a) => Instruction::I32Load8U(*a),
            Instruction::I32Load16S(a) => Instruction::I32Load16S(*a),
            Instruction::I32Load16U(a) => Instruction::I32Load16U(*a),
            Instruction::I64Load8S(a) => Instruction::I64Load8S(*a),
            Instruction::I64Load8U(a) => Instruction::I64Load8U(*a),
            Instruction::I64Load16S(a) => Instruction::I64Load16S(*a),
            Instruction::I64Load16U(a) => Instruction::I64Load16U(*a),
            Instruction::I64Load32S(a) => Instruction::I64Load32S(*a),
            Instruction::I64Load32U(a) => Instruction::I64Load32U(*a),
            Instruction::I32Store(a) => Instruction::I32Store(*a),
            Instruction::I64Store(a) => Instruction::I64Store(*a),
            Instruction::F32Store(a) => Instruction::F32Store(*a),
            Instruction::F64Store(a) => Instruction::F64Store(*a),
            Instruction::I32Store8(a) => Instruction::I32Store8(*a),
            Instruction::I32Store16(a) => Instruction::I32Store16(*a),
            Instruction::I64Store8(a) => Instruction::I64Store8(*a),
            Instruction::I64Store16(a) => Instruction::I64Store16(*a),
            Instruction::I64Store32(a) => Instruction::I64Store32(*a),
            Instruction::MemorySize(a) => Instruction::MemorySize(*a),
            Instruction::MemoryGrow(a) => Instruction::MemoryGrow(*a),
            Instruction::I32Const(a) => Instruction::I32Const(*a),
            Instruction::I64Const(a) => Instruction::I64Const(*a),
            Instruction::F32Const(a) => Instruction::F32Const(*a),
            Instruction::F64Const(a) => Instruction::F64Const(*a),
            Instruction::I32Eqz => Instruction::I32Eqz,
            Instruction::I32Eq => Instruction::I32Eq,
            Instruction::I32Ne => Instruction::I32Ne,
            Instruction::I32LtS => Instruction::I32LtS,
            Instruction::I32LtU => Instruction::I32LtU,
            Instruction::I32GtS => Instruction::I32GtS,
            Instruction::I32GtU => Instruction::I32GtU,
            Instruction::I32LeS => Instruction::I32LeS,
            Instruction::I32LeU => Instruction::I32LeU,
            Instruction::I32GeS => Instruction::I32GeS,
            Instruction::I32GeU => Instruction::I32GeU,
            Instruction::I64Eqz => Instruction::I64Eqz,
            Instruction::I64Eq => Instruction::I64Eq,
            Instruction::I64Ne => Instruction::I64Ne,
            Instruction::I64LtS => Instruction::I64LtS,
            Instruction::I64LtU => Instruction::I64LtU,
            Instruction::I64GtS => Instruction::I64GtS,
            Instruction::I64GtU => Instruction::I64GtU,
            Instruction::I64LeS => Instruction::I64LeS,
            Instruction::I64LeU => Instruction::I64LeU,
            Instruction::I64GeS => Instruction::I64GeS,
            Instruction::I64GeU => Instruction::I64GeU,
            Instruction::F32Eq => Instruction::F32Eq,
            Instruction::F32Ne => Instruction::F32Ne,
            Instruction::F32Lt => Instruction::F32Lt,
            Instruction::F32Gt => Instruction::F32Gt,
            Instruction::F32Le => Instruction::F32Le,
            Instruction::F32Ge => Instruction::F32Ge,
            Instruction::F64Eq => Instruction::F64Eq,
            Instruction::F64Ne => Instruction::F64Ne,
            Instruction::F64Lt => Instruction::F64Lt,
            Instruction::F64Gt => Instruction::F64Gt,
            Instruction::F64Le => Instruction::F64Le,
            Instruction::F64Ge => Instruction::F64Ge,
            Instruction::I32Clz => Instruction::I32Clz,
            Instruction::I32Ctz => Instruction::I32Ctz,
            Instruction::I32Popcnt => Instruction::I32Popcnt,
            Instruction::I32Add => Instruction::I32Add,
            Instruction::I32Sub => Instruction::I32Sub,
            Instruction::I32Mul => Instruction::I32Mul,
            Instruction::I32DivS => Instruction::I32DivS,
            Instruction::I32DivU => Instruction::I32DivU,
            Instruction::I32RemS => Instruction::I32RemS,
            Instruction::I32RemU => Instruction::I32RemU,
            Instruction::I32And => Instruction::I32And,
            Instruction::I32Or => Instruction::I32Or,
            Instruction::I32Xor => Instruction::I32Xor,
            Instruction::I32Shl => Instruction::I32Shl,
            Instruction::I32ShrS => Instruction::I32ShrS,
            Instruction::I32ShrU => Instruction::I32ShrU,
            Instruction::I32Rotl => Instruction::I32Rotl,
            Instruction::I32Rotr => Instruction::I32Rotr,
            Instruction::I64Clz => Instruction::I64Clz,
            Instruction::I64Ctz => Instruction::I64Ctz,
            Instruction::I64Popcnt => Instruction::I64Popcnt,
            Instruction::I64Add => Instruction::I64Add,
            Instruction::I64Sub => Instruction::I64Sub,
            Instruction::I64Mul => Instruction::I64Mul,
            Instruction::I64DivS => Instruction::I64DivS,
            Instruction::I64DivU => Instruction::I64DivU,
            Instruction::I64RemS => Instruction::I64RemS,
            Instruction::I64RemU => Instruction::I64RemU,
            Instruction::I64And => Instruction::I64And,
            Instruction::I64Or => Instruction::I64Or,
            Instruction::I64Xor => Instruction::I64Xor,
            Instruction::I64Shl => Instruction::I64Shl,
            Instruction::I64ShrS => Instruction::I64ShrS,
            Instruction::I64ShrU => Instruction::I64ShrU,
            Instruction::I64Rotl => Instruction::I64Rotl,
            Instruction::I64Rotr => Instruction::I64Rotr,
            Instruction::F32Abs => Instruction::F32Abs,
            Instruction::F32Neg => Instruction::F32Neg,
            Instruction::F32Ceil => Instruction::F32Ceil,
            Instruction::F32Floor => Instruction::F32Floor,
            Instruction::F32Trunc => Instruction::F32Trunc,
            Instruction::F32Nearest => Instruction::F32Nearest,
            Instruction::F32Sqrt => Instruction::F32Sqrt,
            Instruction::F32Add => Instruction::F32Add,
            Instruction::F32Sub => Instruction::F32Sub,
            Instruction::F32Mul => Instruction::F32Mul,
            Instruction::F32Div => Instruction::F32Div,
            Instruction::F32Min => Instruction::F32Min,
            Instruction::F32Max => Instruction::F32Max,
            Instruction::F32Copysign => Instruction::F32Copysign,
            Instruction::F64Abs => Instruction::F64Abs,
            Instruction::F64Neg => Instruction::F64Neg,
            Instruction::F64Ceil => Instruction::F64Ceil,
            Instruction::F64Floor => Instruction::F64Floor,
            Instruction::F64Trunc => Instruction::F64Trunc,
            Instruction::F64Nearest => Instruction::F64Nearest,
            Instruction::F64Sqrt => Instruction::F64Sqrt,
            Instruction::F64Add => Instruction::F64Add,
            Instruction::F64Sub => Instruction::F64Sub,
            Instruction::F64Mul => Instruction::F64Mul,
            Instruction::F64Div => Instruction::F64Div,
            Instruction::F64Min => Instruction::F64Min,
            Instruction::F64Max => Instruction::F64Max,
            Instruction::F64Copysign => Instruction::F64Copysign,
            Instruction::I32WrapI64 => Instruction::I32WrapI64,
            Instruction::I32TruncF32S => Instruction::I32TruncF32S,
            Instruction::I32TruncF32U => Instruction::I32TruncF32U,
            Instruction::I32TruncF64S => Instruction::I32TruncF64S,
            Instruction::I32TruncF64U => Instruction::I32TruncF64U,
            Instruction::I64ExtendI32S => Instruction::I64ExtendI32S,
            Instruction::I64ExtendI32U => Instruction::I64ExtendI32U,
            Instruction::I64TruncF32S => Instruction::I64TruncF32S,
            Instruction::I64TruncF32U => Instruction::I64TruncF32U,
            Instruction::I64TruncF64S => Instruction::I64TruncF64S,
            Instruction::I64TruncF64U => Instruction::I64TruncF64U,
            Instruction::F32ConvertI32S => Instruction::F32ConvertI32S,
            Instruction::F32ConvertI32U => Instruction::F32ConvertI32U,
            Instruction::F32ConvertI64S => Instruction::F32ConvertI64S,
            Instruction::F32ConvertI64U => Instruction::F32ConvertI64U,
            Instruction::F32DemoteF64 => Instruction::F32DemoteF64,
            Instruction::F64ConvertI32S => Instruction::F64ConvertI32S,
            Instruction::F64ConvertI32U => Instruction::F64ConvertI32U,
            Instruction::F64ConvertI64S => Instruction::F64ConvertI64S,
            Instruction::F64ConvertI64U => Instruction::F64ConvertI64U,
            Instruction::F64PromoteF32 => Instruction::F64PromoteF32,
            Instruction::I32ReinterpretF32 => Instruction::I32ReinterpretF32,
            Instruction::I64ReinterpretF64 => Instruction::I64ReinterpretF64,
            Instruction::F32ReinterpretI32 => Instruction::F32ReinterpretI32,
            Instruction::F64ReinterpretI64 => Instruction::F64ReinterpretI64,
            Instruction::I32Extend8S => Instruction::I32Extend8S,
            Instruction::I32Extend16S => Instruction::I32Extend16S,
            Instruction::I64Extend8S => Instruction::I64Extend8S,
            Instruction::I64Extend16S => Instruction::I64Extend16S,
            Instruction::I64Extend32S => Instruction::I64Extend32S,
            Instruction::RefNull(a) => Instruction::RefNull(*a),
            Instruction::RefFunc(a) => Instruction::RefFunc(*a),
            Instruction::I32TruncSatF32S => Instruction::I32TruncSatF32S,
            Instruction::I32TruncSatF32U => Instruction::I32TruncSatF32U,
            Instruction::I64TruncSatF64S => Instruction::I64TruncSatF64S,
            Instruction::I64TruncSatF64U => Instruction::I64TruncSatF64U,
            Instruction::MemoryInit(a) => Instruction::MemoryInit(*a),
            Instruction::DataDrop(a) => Instruction::DataDrop(*a),
            Instruction::TableInit(a) => Instruction::TableInit(*a),
            Instruction::ElemDrop(a) => Instruction::ElemDrop(*a),
            Instruction::TableGet(a) => Instruction::TableGet(*a),
            Instruction::TableSet(a) => Instruction::TableSet(*a),
            Instruction::RefIsNull => Instruction::RefIsNull,
            Instruction::I32TruncSatF64S => Instruction::I32TruncSatF64S,
            Instruction::I32TruncSatF64U => Instruction::I32TruncSatF64U,
            Instruction::I64TruncSatF32S => Instruction::I64TruncSatF32S,
            Instruction::I64TruncSatF32U => Instruction::I64TruncSatF32U,
        };
        r
    }
}

impl View for Instruction {
    type V = InstrV;

    open spec fn view(&self) -> InstrV {
        match self {
            Instruction::SelectT(v) => InstrV::SelectT(v@),
            Instruction::BrTable(b) => InstrV::BrTable(b.labels@, b.default),
            _ => InstrV::Plain(*self),
        }
    }
}

/// The instruction a one-byte opcode without immediates encodes.
pub open spec fn spec_plain_opcode(op: u8) -> Option<Instruction> {
    match op {
        0x00 => Some(Instruction::Unreachable),
        0x01 => Some(Instruction::Nop),
        0x1a => Some(Instruction::Drop),
        0x1b => Some(Instruction::Select),
        0x05 => Some(Instruction::Else),
        0x0b => Some(Instruction::End),
        0x0f => Some(Instruction::Return),
        0x45 => Some(Instruction::I32Eqz),
        0x46 => Some(Instruction::I32Eq),
        0x47 => Some(Instruction::I32Ne),
        0x48 => Some(Instruction::I32LtS),
        0x49 => Some(Instruction::I32LtU),
        0x4a => Some(Instruction::I32GtS),
        0x4b => Some(Instruction::I32GtU),
        0x4c => Some(Instruction::I32LeS),
        0x4d => Some(Instruction::I32LeU),
        0x4e => Some(Instruction::I32GeS),
        0x4f => Some(Instruction::I32GeU),
        0x50 => Some(Instruction::I64Eqz),
        0x51 => Some(Instruction::I64Eq),
        0x52 => Some(Instruction::I64Ne),
        0x53 => Some(Instruction::I64LtS),
        0x54 => Some(Instruction::I64LtU),
        0x55 => Some(Instruction::I64GtS),
        0x56 => Some(Instruction::I64GtU),
        0x57 => Some(Instruction::I64LeS),
        0x58 => Some(Instruction::I64LeU),
        0x59 => Some(Instruction::I64GeS),
        0x5a => Some(Instruction::I64GeU),
        0x5b => Some(Instruction::F32Eq),
        0x5c => Some(Instruction::F32Ne),
        0x5d => Some(Instruction::F32Lt),
        0x5e => Some(Instruction::F32Gt),
        0x5f => Some(Instruction::F32Le),
        0x60 => Some(Instruction::F32Ge),
        0x61 => Some(Instruction::F64Eq),
        0x62 => Some(Instruction::F64Ne),
        0x63 => Some(Instruction::F64Lt),
        0x64 => Some(Instruction::F64Gt),
        0x65 => Some(Instruction::F64Le),
        0x66 => Some(Instruction::F64Ge),
        0x67 => Some(Instruction::I32Clz),
        0x68 => Some(Instruction::I32Ctz),
        0x69 => Some(Instruction::I32Popcnt),
        0x6a => Some(Instruction::I32Add),
        0x6b => Some(Instruction::I32Sub),
        0x6c => Some(Instruction::I32Mul),
        0x6d => Some(Instruction::I32DivS),
        0x6e => Some(Instruction::I32DivU),
        0x6f => Some(Instruction::I32RemS),
        0x70 => Some(Instruction::I32RemU),
        0x71 => Some(Instruction::I32And),
        0x72 => Some(Instruction::I32Or),
        0x73 => Some(Instruction::I32Xor),
        0x74 => Some(Instruction::I32Shl),
        0x75 => Some(Instruction::I32ShrS),
        0x76 => Some(Instruction::I32ShrU),
        0x77 => Some(Instruction::I32Rotl),
        0x78 => Some(Instruction::I32Rotr),
        0x79 => Some(Instruction::I64Clz),
        0x7a => Some(Instruction::I64Ctz),
        0x7b => Some(Instruction::I64Popcnt),
        0x7c => Some(Instruction::I64Add),
        0x7d => Some(Instruction::I64Sub),
        0x7e => Some(Instruction::I64Mul),
        0x7f => Some(Instruction::I64DivS),
        0x80 => Some(Instruction::I64DivU),
        0x81 => Some(Instruction::I64RemS),
        0x82 => Some(Instruction::I64RemU),
        0x83 => Some(Instruction::I64And),
        0x84 => Some(Instruction::I64Or),
        0x85 => Some(Instruction::I64Xor),
        0x86 => Some(Instruction::I64Shl),
        0x87 => Some(Instruction::I64ShrS),
        0x88 => Some(Instruction::I64ShrU),
        0x89 => Some(Instruction::I64Rotl),
        0x8a => Some(Instruction::I64Rotr),
        0x8b => Some(Instruction::F32Abs),
        0x8c => Some(Instruction::F32Neg),
        0x8d => Some(Instruction::F32Ceil),
        0x8e => Some(Instruction::F32Floor),
        0x8f => Some(Instruction::F32Trunc),
        0x90 => Some(Instruction::F32Nearest),
        0x91 => Some(Instruction::F32Sqrt),
        0x92 => Some(Instruction::F32Add),
        0x93 => Some(Instruction::F32Sub),
        0x94 => Some(Instruction::F32Mul),
        0x95 => Some(Instruction::F32Div),
        0x96 => Some(Instruction::F32Min),
        0x97 => Some(Instruction::F32Max),
        0x98 => Some(Instruction::F32Copysign),
        0x99 => Some(Instruction::F64Abs),
        0x9a => Some(Instruction::F64Neg),
        0x9b => Some(Instruction::F64Ceil),
        0x9c => Some(Instruction::F64Floor),
        0x9d => Some(Instruction::F64Trunc),
        0x9e => Some(Instruction::F64Nearest),
        0x9f => Some(Instruction::F64Sqrt),
        0xa0 => Some(Instruction::F64Add),
        0xa1 => Some(Instruction::F64Sub),
        0xa2 => Some(Instruction::F64Mul),
        0xa3 => Some(Instruction::F64Div),
        0xa4 => Some(Instruction::F64Min),
        0xa5 => Some(Instruction::F64Max),
        0xa6 => Some(Instruction::F64Copysign),
        0xa7 => Some(Instruction::I32WrapI64),
        0xa8 => Some(Instruction::I32TruncF32S),
        0xa9 => Some(Instruction::I32TruncF32U),
        0xaa => Some(Instruction::I32TruncF64S),
        0xab => Some(Instruction::I32TruncF64U),
        0xac => Some(Instruction::I64ExtendI32S),
        0xad => Some(Instruction::I64ExtendI32U),
        0xae => Some(Instruction::I64TruncF32S),
        0xaf => Some(Instruction::I64TruncF32U),
        0xb0 => Some(Instruction::I64TruncF64S),
        0xb1 => Some(Instruction::I64TruncF64U),
        0xb2 => Some(Instruction::F32ConvertI32S),
        0xb3 => Some(Instruction::F32ConvertI32U),
        0xb4 => Some(Instruction::F32ConvertI64S),
        0xb5 => Some(Instruction::F32ConvertI64U),
        0xb6 => Some(Instruction::F32DemoteF64),
        0xb7 => Some(Instruction::F64ConvertI32S),
        0xb8 => Some(Instruction::F64ConvertI32U),
        0xb9 => Some(Instruction::F64ConvertI64S),
        0xba => Some(Instruction::F64ConvertI64U),
        0xbb => Some(Instruction::F64PromoteF32),
        0xbc => Some(Instruction::I32ReinterpretF32),
        0xbd => Some(Instruction::I64ReinterpretF64),
        0xbe => Some(Instruction::F32ReinterpretI32),
        0xbf => Some(Instruction::F64ReinterpretI64),
        0xc0 => Some(Instruction::I32Extend8S),
        0xc1 => Some(Instruction::I32Extend16S),
        0xc2 => Some(Instruction::I64Extend8S),
        0xc3 => Some(Instruction::I64Extend16S),
        0xc4 => Some(Instruction::I64Extend32S),
        0xd1 => Some(Instruction::RefIsNull),
        _ => None,
    }
}

fn plain_opcode(op: u8) -> (r: Option<Instruction>)
    ensures
        r == spec_plain_opcode(op),
{
    match op {
        0x00 => Some(Instruction::Unreachable),
        0x01 => Some(Instruction::Nop),
        0x1a => Some(Instruction::Drop),
        0x1b => Some(Instruction::Select),
        0x05 => Some(Instruction::Else),
        0x0b => Some(Instruction::End),
        0x0f => Some(Instruction::Return),
        0x45 => Some(Instruction::I32Eqz),
        0x46 => Some(Instruction::I32Eq),
        0x47 => Some(Instruction::I32Ne),
        0x48 => Some(Instruction::I32LtS),
        0x49 => Some(Instruction::I32LtU),
        0x4a => Some(Instruction::I32GtS),
        0x4b => Some(Instruction::I32GtU),
        0x4c => Some(Instruction::I32LeS),
        0x4d => Some(Instruction::I32LeU),
        0x4e => Some(Instruction::I32GeS),
        0x4f => Some(Instruction::I32GeU),
        0x50 => Some(Instruction::I64Eqz),
        0x51 => Some(Instruction::I64Eq),
        0x52 => Some(Instruction::I64Ne),
        0x53 => Some(Instruction::I64LtS),
        0x54 => Some(Instruction::I64LtU),
        0x55 => Some(Instruction::I64GtS),
        0x56 => Some(Instruction::I64GtU),
        0x57 => Some(Instruction::I64LeS),
        0x58 => Some(Instruction::I64LeU),
        0x59 => Some(Instruction::I64GeS),
        0x5a => Some(Instruction::I64GeU),
        0x5b => Some(Instruction::F32Eq),
        0x5c => Some(Instruction::F32Ne),
        0x5d => Some(Instruction::F32Lt),
        0x5e => Some(Instruction::F32Gt),
        0x5f => Some(Instruction::F32Le),
        0x60 => Some(Instruction::F32Ge),
        0x61 => Some(Instruction::F64Eq),
        0x62 => Some(Instruction::F64Ne),
        0x63 => Some(Instruction::F64Lt),
        0x64 => Some(Instruction::F64Gt),
        0x65 => Some(Instruction::F64Le),
        0x66 => Some(Instruction::F64Ge),
        0x67 => Some(Instruction::I32Clz),
        0x68 => Some(Instruction::I32Ctz),
        0x69 => Some(Instruction::I32Popcnt),
        0x6a => Some(Instruction::I32Add),
        0x6b => Some(Instruction::I32Sub),
        0x6c => Some(Instruction::I32Mul),
        0x6d => Some(Instruction::I32DivS),
        0x6e => Some(Instruction::I32DivU),
        0x6f => Some(Instruction::I32RemS),
        0x70 => Some(Instruction::I32RemU),
        0x71 => Some(Instruction::I32And),
        0x72 => Some(Instruction::I32Or),
        0x73 => Some(Instruction::I32Xor),
        0x74 => Some(Instruction::I32Shl),
        0x75 => Some(Instruction::I32ShrS),
        0x76 => Some(Instruction::I32ShrU),
        0x77 => Some(Instruction::I32Rotl),
        0x78 => Some(Instruction::I32Rotr),
        0x79 => Some(Instruction::I64Clz),
        0x7a => Some(Instruction::I64Ctz),
        0x7b => Some(Instruction::I64Popcnt),
        0x7c => Some(Instruction::I64Add),
        0x7d => Some(Instruction::I64Sub),
        0x7e => Some(Instruction::I64Mul),
        0x7f => Some(Instruction::I64DivS),
        0x80 => Some(Instruction::I64DivU),
        0x81 => Some(Instruction::I64RemS),
        0x82 => Some(Instruction::I64RemU),
        0x83 => Some(Instruction::I64And),
        0x84 => Some(Instruction::I64Or),
        0x85 => Some(Instruction::I64Xor),
        0x86 => Some(Instruction::I64Shl),
        0x87 => Some(Instruction::I64ShrS),
        0x88 => Some(Instruction::I64ShrU),
        0x89 => Some(Instruction::I64Rotl),
        0x8a => Some(Instruction::I64Rotr),
        0x8b => Some(Instruction::F32Abs),
        0x8c => Some(Instruction::F32Neg),
        0x8d => Some(Instruction::F32Ceil),
        0x8e => Some(Instruction::F32Floor),
        0x8f => Some(Instruction::F32Trunc),
        0x90 => Some(Instruction::F32Nearest),
        0x91 => Some(Instruction::F32Sqrt),
        0x92 => Some(Instruction::F32Add),
        0x93 => Some(Instruction::F32Sub),
        0x94 => Some(Instruction::F32Mul),
        0x95 => Some(Instruction::F32Div),
        0x96 => Some(Instruction::F32Min),
        0x97 => Some(Instruction::F32Max),
        0x98 => Some(Instruction::F32Copysign),
        0x99 => Some(Instruction::F64Abs),
        0x9a => Some(Instruction::F64Neg),
        0x9b => Some(Instruction::F64Ceil),
        0x9c => Some(Instruction::F64Floor),
        0x9d => Some(Instruction::F64Trunc),
        0x9e => Some(Instruction::F64Nearest),
        0x9f => Some(Instruction::F64Sqrt),
        0xa0 => Some(Instruction::F64Add),
        0xa1 => Some(Instruction::F64Sub),
        0xa2 => Some(Instruction::F64Mul),
        0xa3 => Some(Instruction::F64Div),
        0xa4 => Some(Instruction::F64Min),
        0xa5 => Some(Instruction::F64Max),
        0xa6 => Some(Instruction::F64Copysign),
        0xa7 => Some(Instruction::I32WrapI64),
        0xa8 => Some(Instruction::I32TruncF32S),
        0xa9 => Some(Instruction::I32TruncF32U),
        0xaa => Some(Instruction::I32TruncF64S),
        0xab => Some(Instruction::I32TruncF64U),
        0xac => Some(Instruction::I64ExtendI32S),
        0xad => Some(Instruction::I64ExtendI32U),
        0xae => Some(Instruction::I64TruncF32S),
        0xaf => Some(Instruction::I64TruncF32U),
        0xb0 => Some(Instruction::I64TruncF64S),
        0xb1 => Some(Instruction::I64TruncF64U),
        0xb2 => Some(Instruction::F32ConvertI32S),
        0xb3 => Some(Instruction::F32ConvertI32U),
        0xb4 => Some(Instruction::F32ConvertI64S),
        0xb5 => Some(Instruction::F32ConvertI64U),
        0xb6 => Some(Instruction::F32DemoteF64),
        0xb7 => Some(Instruction::F64ConvertI32S),
        0xb8 => Some(Instruction::F64ConvertI32U),
        0xb9 => Some(Instruction::F64ConvertI64S),
        0xba => Some(Instruction::F64ConvertI64U),
        0xbb => Some(Instruction::F64PromoteF32),
        0xbc => Some(Instruction::I32ReinterpretF32),
        0xbd => Some(Instruction::I64ReinterpretF64),
        0xbe => Some(Instruction::F32ReinterpretI32),
        0xbf => Some(Instruction::F64ReinterpretI64),
        0xc0 => Some(Instruction::I32Extend8S),
        0xc1 => Some(Instruction::I32Extend16S),
        0xc2 => Some(Instruction::I64Extend8S),
        0xc3 => Some(Instruction::I64Extend16S),
        0xc4 => Some(Instruction::I64Extend32S),
        0xd1 => Some(Instruction::RefIsNull),
        _ => None,
    }
}

/// The instruction a 0xfc-prefixed opcode without immediates encodes.
pub open spec fn spec_prefixed_plain(sub: u32) -> Option<Instruction> {
    match sub {
        0 => Some(Instruction::I32TruncSatF32S),
        1 => Some(Instruction::I32TruncSatF32U),
        6 => Some(Instruction::I64TruncSatF64S),
        7 => Some(Instruction::I64TruncSatF64U),
        2 => Some(Instruction::I32TruncSatF64S),
        3 => Some(Instruction::I32TruncSatF64U),
        4 => Some(Instruction::I64TruncSatF32S),
        5 => Some(Instruction::I64TruncSatF32U),
        _ => None,
    }
}

fn prefixed_plain(sub: u32) -> (r: Option<Instruction>)
    ensures
        r == spec_prefixed_plain(sub),
{
    match sub {
        0 => Some(Instruction::I32TruncSatF32S),
        1 => Some(Instruction::I32TruncSatF32U),
        6 => Some(Instruction::I64TruncSatF64S),
        7 => Some(Instruction::I64TruncSatF64U),
        2 => Some(Instruction::I32TruncSatF64S),
        3 => Some(Instruction::I32TruncSatF64U),
        4 => Some(Instruction::I64TruncSatF32S),
        5 => Some(Instruction::I64TruncSatF32U),
        _ => None,
    }
}

/// The name of an instruction with immediates, by opcode.
pub open spec fn spec_instr_name(op: u8) -> &'static str {
    match op {
        0x1c => "select (typed)",
        0x02 => "block",
        0x03 => "loop",
        0x04 => "if",
        0x0c => "br",
        0x0d => "br_if",
        0x0e => "br_table",
        0x10 => "call",
        0x11 => "call_indirect",
        0x20 => "local.get",
        0x21 => "local.set",
        0x22 => "local.tee",
        0x23 => "global.get",
        0x24 => "global.set",
        0x28 => "i32.load",
        0x29 => "i64.load",
        0x2a => "f32.load",
        0x2b => "f64.load",
        0x2c => "i32.load8_s",
        0x2d => "i32.load8_u",
        0x2e => "i32.load16_s",
        0x2f => "i32.load16_u",
        0x30 => "i64.load8_s",
        0x31 => "i64.load8_u",
        0x32 => "i64.load16_s",
        0x33 => "i64.load16_u",
        0x34 => "i64.load32_s",
        0x35 => "i64.load32_u",
        0x36 => "i32.store",
        0x37 => "i64.store",
        0x38 => "f32.store",
        0x39 => "f64.store",
        0x3a => "i32.store8",
        0x3b => "i32.store16",
        0x3c => "i64.store8",
        0x3d => "i64.store16",
        0x3e => "i64.store32",
        0x3f => "memory.size",
        0x40 => "memory.grow",
        0x41 => "i32.const",
        0x42 => "i64.const",
        0x43 => "f32.const",
        0x44 => "f64.const",
        0xd0 => "ref.null",
        0xd2 => "ref.func",
        0x25 => "table.get",
        0x26 => "table.set",
        _ => "",
    }
}

fn instr_name(op: u8) -> (r: &'static str)
    ensures
        r == spec_instr_name(op),
{
    match op {
        0x1c => "select (typed)",
        0x02 => "block",
        0x03 => "loop",
        0x04 => "if",
        0x0c => "br",
        0x0d => "br_if",
        0x0e => "br_table",
        0x10 => "call",
        0x11 => "call_indirect",
        0x20 => "local.get",
        0x21 => "local.set",
        0x22 => "local.tee",
        0x23 => "global.get",
        0x24 => "global.set",
        0x28 => "i32.load",
        0x29 => "i64.load",
        0x2a => "f32.load",
        0x2b => "f64.load",
        0x2c => "i32.load8_s",
        0x2d => "i32.load8_u",
        0x2e => "i32.load16_s",
        0x2f => "i32.load16_u",
        0x30 => "i64.load8_s",
        0x31 => "i64.load8_u",
        0x32 => "i64.load16_s",
        0x33 => "i64.load16_u",
        0x34 => "i64.load32_s",
        0x35 => "i64.load32_u",
        0x36 => "i32.store",
        0x37 => "i64.store",
        0x38 => "f32.store",
        0x39 => "f64.store",
        0x3a => "i32.store8",
        0x3b => "i32.store16",
        0x3c => "i64.store8",
        0x3d => "i64.store16",
        0x3e => "i64.store32",
        0x3f => "memory.size",
        0x40 => "memory.grow",
        0x41 => "i32.const",
        0x42 => "i64.const",
        0x43 => "f32.const",
        0x44 => "f64.const",
        0xd0 => "ref.null",
        0xd2 => "ref.func",
        0x25 => "table.get",
        0x26 => "table.set",
        _ => "",
    }
}

/// The instruction an opcode with a single index immediate encodes.
pub open spec fn spec_index_instr(op: u8, x: u32) -> Instruction {
    match op {
        0x0c => Instruction::Br(x),
        0x0d => Instruction::BrIf(x),
        0x10 => Instruction::Call(x),
        0x20 => Instruction::LocalGet(x),
        0x21 => Instruction::LocalSet(x),
        0x22 => Instruction::LocalTee(x),
        0x23 => Instruction::GlobalGet(x),
        0x24 => Instruction::GlobalSet(x),
        0xd2 => Instruction::RefFunc(x),
        0x25 => Instruction::TableGet(x),
        _ => Instruction::TableSet(x),
    }
}

fn index_instr(op: u8, x: u32) -> (r: Instruction)
    ensures
        r == spec_index_instr(op, x),
{
    match op {
        0x0c => Instruction::Br(x),
        0x0d => Instruction::BrIf(x),
        0x10 => Instruction::Call(x),
        0x20 => Instruction::LocalGet(x),
        0x21 => Instruction::LocalSet(x),
        0x22 => Instruction::LocalTee(x),
        0x23 => Instruction::GlobalGet(x),
        0x24 => Instruction::GlobalSet(x),
        0xd2 => Instruction::RefFunc(x),
        0x25 => Instruction::TableGet(x),
        _ => Instruction::TableSet(x),
    }
}

pub open spec fn is_index_opcode(op: u8) -> bool {
    op == 0x0c || op == 0x0d || op == 0x10 || op == 0x20 || op == 0x21 || op == 0x22 || op == 0x23 || op == 0x24 || op == 0xd2 || op == 0x25 || op == 0x26
}

/// The load or store instruction an opcode encodes.
pub open spec fn spec_mem_instr(op: u8, m: MemArg) -> Instruction {
    match op {
        0x28 => Instruction::I32Load(m),
        0x29 => Instruction::I64Load(m),
        0x2a => Instruction::F32Load(m),
        0x2b => Instruction::F64Load(m),
        0x2c => Instruction::I32Load8S(m),
        0x2d => Instruction::I32Load8U(m),
        0x2e => Instruction::I32Load16S(m),
        0x2f => Instruction::I32Load16U(m),
        0x30 => Instruction::I64Load8S(m),
        0x31 => Instruction::I64Load8U(m),
        0x32 => Instruction::I64Load16S(m),
        0x33 => Instruction::I64Load16U(m),
        0x34 => Instruction::I64Load32S(m),
        0x35 => Instruction::I64Load32U(m),
        0x36 => Instruction::I32Store(m),
        0x37 => Instruction::I64Store(m),
        0x38 => Instruction::F32Store(m),
        0x39 => Instruction::F64Store(m),
        0x3a => Instruction::I32Store8(m),
        0x3b => Instruction::I32Store16(m),
        0x3c => Instruction::I64Store8(m),
        0x3d => Instruction::I64Store16(m),
        _ => Instruction::I64Store32(m),
    }
}

fn mem_instr(op: u8, m: MemArg) -> (r: Instruction)
    ensures
        r == spec_mem_instr(op, m),
{
    match op {
        0x28 => Instruction::I32Load(m),
        0x29 => Instruction::I64Load(m),
        0x2a => Instruction::F32Load(m),
        0x2b => Instruction::F64Load(m),
        0x2c => Instruction::I32Load8S(m),
        0x2d => Instruction::I32Load8U(m),
        0x2e => Instruction::I32Load16S(m),
        0x2f => Instruction::I32Load16U(m),
        0x30 => Instruction::I64Load8S(m),
        0x31 => Instruction::I64Load8U(m),
        0x32 => Instruction::I64Load16S(m),
        0x33 => Instruction::I64Load16U(m),
        0x34 => Instruction::I64Load32S(m),
        0x35 => Instruction::I64Load32U(m),
        0x36 => Instruction::I32Store(m),
        0x37 => Instruction::I64Store(m),
        0x38 => Instruction::F32Store(m),
        0x39 => Instruction::F64Store(m),
        0x3a => Instruction::I32Store8(m),
        0x3b => Instruction::I32Store16(m),
        0x3c => Instruction::I64Store8(m),
        0x3d => Instruction::I64Store16(m),
        _ => Instruction::I64Store32(m),
    }
}

pub open spec fn spec_block_instr(op: u8, b: BlockType) -> Instruction {
    if op == 0x02 {
        Instruction::Block(b)
    } else if op == 0x03 {
        Instruction::Loop(b)
    } else {
        Instruction::If(b)
    }
}

/// An error of decoding an instruction: its kind, the name of the
/// instruction whose immediates failed, and the offset.
#[derive(Debug)]
#[non_exhaustive]
pub struct InstructionError {
    pub kind: InstructionErrorKind,
    pub instr: Option<&'static str>,
    pub offset: usize,
}

impl InstructionError {
    /// The message of this error.
    pub open spec fn message(&self) -> Seq<char> {
        let at = spec_hex(self.offset as nat) + " ("@ + spec_decimal(self.offset as nat) + ")"@;
        match self.instr {
            Some(instr) => "decoding instruction '"@ + instr@ + "' at offset "@ + at,
            None => "decoding instruction at offset "@ + at,
        }
    }

    /// Renders the error as text.
    pub fn to_string(&self) -> (s: String)
        ensures
            s@ == self.message(),
    {
        let at = hex(self.offset as u64).concat(" (").concat(
            decimal(self.offset as u64).as_str(),
        ).concat(")");
        match self.instr {
            Some(instr) => String::from_str("decoding instruction '").concat(instr).concat(
                "' at offset ",
            ).concat(at.as_str()),
            None => String::from_str("decoding instruction at offset ").concat(at.as_str()),
        }
    }
}

#[derive(Debug)]
#[non_exhaustive]
pub enum InstructionErrorKind {
    Read(ReadError),
    InvalidOpCode(InvalidEnumValueError),
    Argument(ArgumentReadError),
}

impl InstructionErrorKind {
    /// The text of this error.
    pub open spec fn message(&self) -> Seq<char> {
        match self {
            InstructionErrorKind::Read(..) => "reading instruction opcode"@,
            InstructionErrorKind::InvalidOpCode(..) => "unknown opcode"@,
            InstructionErrorKind::Argument(..) => "reading argument"@,
        }
    }

    /// Renders the error as text.
    pub fn to_string(&self) -> (s: String)
        ensures
            s@ == self.message(),
    {
        match self {
            InstructionErrorKind::Read(..) => String::from_str("reading instruction opcode"),
            InstructionErrorKind::InvalidOpCode(..) => String::from_str("unknown opcode"),
            InstructionErrorKind::Argument(..) => String::from_str("reading argument"),
        }
    }
}

#[derive(Debug)]
pub enum ArgumentReadError {
    Read(ReadError),
    VecRead(VecReadError<ReadError>),
    BranchTableIdx(BranchTableIdxReadError),
    MemArg(MemArgReadError),
}

impl ArgumentReadError {
    /// The message of this error: that of the error it holds.
    pub open spec fn message(&self) -> Seq<char> {
        match self {
            ArgumentReadError::Read(e) => e.message(),
            ArgumentReadError::VecRead(e) => e.message(),
            ArgumentReadError::BranchTableIdx(e) => e.message(),
            ArgumentReadError::MemArg(e) => e.message(),
        }
    }

    /// Renders the error as text.
    pub fn to_string(&self) -> (s: String)
        ensures
            s@ == self.message(),
    {
        match self {
            ArgumentReadError::Read(e) => e.to_string(),
            ArgumentReadError::VecRead(e) => e.to_string(),
            ArgumentReadError::BranchTableIdx(e) => e.to_string(),
            ArgumentReadError::MemArg(e) => e.to_string(),
        }
    }
}

/// An opcode that could not be read.
pub open spec fn read_failure(e: ReadError) -> InstructionError {
    InstructionError { offset: e.offset, kind: InstructionErrorKind::Read(e), instr: None }
}

/// An opcode that names no instruction.
pub open spec fn invalid_opcode(value: u8, offset: usize) -> InstructionError {
    InstructionError {
        kind: InstructionErrorKind::InvalidOpCode(
            InvalidEnumValueError { value, enum_name: "wasmrs::instructions::Instruction" },
        ),
        instr: None,
        offset,
    }
}

impl InstructionError {
    /// The error of an opcode that could not be read.
    pub fn from_read(e: ReadError) -> (r: InstructionError)
        ensures
            r == read_failure(e),
    {
        let offset = e.offset;
        InstructionError { kind: InstructionErrorKind::Read(e), instr: None, offset }
    }
}

fn invalid(value: u8, offset: usize) -> (r: InstructionError)
    ensures
        r == invalid_opcode(value, offset),
{
    InstructionError {
        kind: InstructionErrorKind::InvalidOpCode(
            InvalidEnumValueError { value, enum_name: "wasmrs::instructions::Instruction" },
        ),
        instr: None,
        offset,
    }
}

fn arg_error(name: &'static str, offset: usize, e: ArgumentReadError) -> (r: InstructionError)
    ensures
        r == (InstructionError { kind: InstructionErrorKind::Argument(e), instr: Some(name), offset }),
{
    InstructionError { kind: InstructionErrorKind::Argument(e), instr: Some(name), offset }
}

/// The outcome of reading the immediates of instruction `name`, mapped to an instruction.
pub open spec fn lift_arg<A>(
    r: Result<(A, int), ArgumentReadError>,
    name: &'static str,
    offset: usize,
    f: spec_fn(A) -> InstrV,
) -> Result<(InstrV, int), InstructionError> {
    match r {
        Ok((a, p)) => Ok((f(a), p)),
        Err(e) => Err(InstructionError { kind: InstructionErrorKind::Argument(e), instr: Some(name), offset }),
    }
}

/// A read error taken as an argument error.
pub open spec fn arg_read<A>(r: Result<(A, int), ReadError>) -> Result<(A, int), ArgumentReadError> {
    match r {
        Ok(x) => Ok(x),
        Err(e) => Err(ArgumentReadError::Read(e)),
    }
}

/// Two indices, one after the other.
pub open spec fn spec_arg_pair(v: RView) -> Result<((u32, u32), int), ArgumentReadError> {
    match spec_read_u32(v) {
        Err(e) => Err(ArgumentReadError::Read(e)),
        Ok((a, p)) => match spec_read_u32(v.at(p)) {
            Err(e) => Err(ArgumentReadError::Read(e)),
            Ok((b, q)) => Ok(((a, b), q)),
        },
    }
}

/// The value of little-endian bytes.
pub open spec fn le_value(b: Seq<u8>) -> int
    decreases b.len(),
{
    if b.len() == 0 {
        0
    } else {
        le_value(b.drop_last()) + b.last() * pow256((b.len() - 1) as nat)
    }
}

/// The bit pattern of a 32-bit float: four little-endian bytes.
pub open spec fn spec_arg_f32(v: RView) -> Result<(u32, int), ArgumentReadError> {
    match spec_read_exact(v, 4) {
        Err(e) => Err(ArgumentReadError::Read(e)),
        Ok((b, p)) => Ok((le_value(b) as u32, p)),
    }
}

/// The bit pattern of a 64-bit float: eight little-endian bytes.
pub open spec fn spec_arg_f64(v: RView) -> Result<(u64, int), ArgumentReadError> {
    match spec_read_exact(v, 8) {
        Err(e) => Err(ArgumentReadError::Read(e)),
        Ok((b, p)) => Ok((le_value(b) as u64, p)),
    }
}

/// `memory.init`: a data index, then a memory index.
pub open spec fn spec_arg_mem_init(v: RView) -> Result<((MemIndex, u32), int), ArgumentReadError> {
    match spec_read_u32(v) {
        Err(e) => Err(ArgumentReadError::Read(e)),
        Ok((d, p)) => match MemIndex::spec_from_reader(v.at(p)) {
            Err(e) => Err(ArgumentReadError::Read(e)),
            Ok((m, q)) => Ok(((m, d), q)),
        },
    }
}

/// `table.init`: an element index, then a table index.
pub open spec fn spec_arg_table_init(v: RView) -> Result<((u32, u32), int), ArgumentReadError> {
    match spec_read_u32(v) {
        Err(e) => Err(ArgumentReadError::Read(e)),
        Ok((y, p)) => match spec_read_u32(v.at(p)) {
            Err(e) => Err(ArgumentReadError::Read(e)),
            Ok((x, q)) => Ok(((x, y), q)),
        },
    }
}

/// An instruction with immediates, after its one-byte opcode `op`; `offset` is the opcode's.
pub open spec fn spec_decode_with_arg(op: u8, w: RView, offset: usize) -> Result<(InstrV, int), InstructionError> {
    let name = spec_instr_name(op);
    let at = w.pos as usize;
    if op == 0x02 || op == 0x03 || op == 0x04 {
        lift_arg(arg_read(spec_blocktype(w)), name, at, |b: BlockType| InstrV::Plain(spec_block_instr(op, b)))
    } else if is_index_opcode(op) {
        lift_arg(arg_read(spec_read_u32(w)), name, at, |x: u32| InstrV::Plain(spec_index_instr(op, x)))
    } else if 0x28 <= op <= 0x3e {
        lift_arg(
            match spec_memarg(w) {
                Ok(x) => Ok(x),
                Err(e) => Err(ArgumentReadError::MemArg(e)),
            },
            name,
            at,
            |m: MemArg| InstrV::Plain(spec_mem_instr(op, m)),
        )
    } else if op == 0x0e {
        lift_arg(
            match spec_branch_table(w) {
                Ok(x) => Ok(x),
                Err(e) => Err(ArgumentReadError::BranchTableIdx(e)),
            },
            name,
            at,
            |b: crate::binary::types::BranchTableIdxV| InstrV::BrTable(b.labels, b.default),
        )
    } else if op == 0x11 {
        lift_arg(spec_arg_pair(w), name, at, |p: (u32, u32)| InstrV::Plain(Instruction::CallIndirect(p)))
    } else if op == 0x1c {
        lift_arg(
            match spec_read_vec_of::<ValType>(w) {
                Ok(x) => Ok(x),
                Err(e) => Err(ArgumentReadError::VecRead(e)),
            },
            name,
            at,
            |s: Seq<ValType>| InstrV::SelectT(s),
        )
    } else if op == 0x3f {
        lift_arg(arg_read(MemIndex::spec_from_reader(w)), name, at, |m: MemIndex| InstrV::Plain(Instruction::MemorySize(m)))
    } else if op == 0x40 {
        lift_arg(arg_read(MemIndex::spec_from_reader(w)), name, at, |m: MemIndex| InstrV::Plain(Instruction::MemoryGrow(m)))
    } else if op == 0x41 {
        lift_arg(arg_read(spec_read_i32(w)), name, at, |x: i32| InstrV::Plain(Instruction::I32Const(x)))
    } else if op == 0x42 {
        lift_arg(arg_read(spec_read_i64(w)), name, at, |x: i64| InstrV::Plain(Instruction::I64Const(x)))
    } else if op == 0x43 {
        lift_arg(spec_arg_f32(w), name, at, |x: u32| InstrV::Plain(Instruction::F32Const(x)))
    } else if op == 0x44 {
        lift_arg(spec_arg_f64(w), name, at, |x: u64| InstrV::Plain(Instruction::F64Const(x)))
    } else if op == 0xd0 {
        lift_arg(arg_read(RefType::spec_from_reader(w)), name, at, |t: RefType| InstrV::Plain(Instruction::RefNull(t)))
    } else {
        Err(invalid_opcode(op, offset))
    }
}

/// A 0xfc-prefixed instruction, after its sub-opcode `sub`; `offset` is the prefix's.
pub open spec fn spec_decode_prefixed(sub: u32, w: RView, offset: usize) -> Result<(InstrV, int), InstructionError> {
    let at = w.pos as usize;
    match spec_prefixed_plain(sub) {
        Some(i) => Ok((InstrV::Plain(i), w.pos)),
        None => if sub == 8 {
            lift_arg(spec_arg_mem_init(w), "memory.init", at, |p: (MemIndex, u32)| InstrV::Plain(Instruction::MemoryInit(p)))
        } else if sub == 9 {
            lift_arg(arg_read(spec_read_u32(w)), "data.drop", at, |x: u32| InstrV::Plain(Instruction::DataDrop(x)))
        } else if sub == 12 {
            lift_arg(spec_arg_table_init(w), "table.init", at, |p: (u32, u32)| InstrV::Plain(Instruction::TableInit(p)))
        } else if sub == 13 {
            lift_arg(arg_read(spec_read_u32(w)), "elem.drop", at, |x: u32| InstrV::Plain(Instruction::ElemDrop(x)))
        } else {
            Err(invalid_opcode(sub as u8, offset))
        },
    }
}

/// An instruction: an opcode byte, a sub-opcode after the 0xfc prefix, and the immediates.
pub open spec fn spec_decode_instruction(v: RView) -> Result<(InstrV, int), InstructionError> {
    match spec_read_u8(v) {
        Err(e) => Err(read_failure(e)),
        Ok((op, p)) => if op == 0xfc {
            match spec_read_u32(v.at(p)) {
                Err(e) => Err(read_failure(e)),
                Ok((sub, q)) => spec_decode_prefixed(sub, v.at(q), v.pos as usize),
            }
        } else {
            match spec_plain_opcode(op) {
                Some(i) => Ok((InstrV::Plain(i), p)),
                None => spec_decode_with_arg(op, v.at(p), v.pos as usize),
            }
        },
    }
}

fn arg_u32(reader: &mut Reader) -> (r: Result<u32, ArgumentReadError>)
    ensures
        read_as(arg_read(spec_read_u32(old(reader)@)), r, final(reader)@),
        final(reader)@.same_window(old(reader)@),
        r is Ok ==> old(reader)@.pos <= final(reader)@.pos <= final(reader)@.end,
{
    match reader.read_u32() {
        Ok(x) => Ok(x),
        Err(e) => Err(ArgumentReadError::Read(e)),
    }
}

fn arg_pair(reader: &mut Reader) -> (r: Result<(u32, u32), ArgumentReadError>)
    ensures
        read_as(spec_arg_pair(old(reader)@), r, final(reader)@),
        final(reader)@.same_window(old(reader)@),
        r is Ok ==> old(reader)@.pos <= final(reader)@.pos <= final(reader)@.end,
{
    let a = arg_u32(reader)?;
    let b = arg_u32(reader)?;
    Ok((a, b))
}

pub open spec fn pow256(k: nat) -> nat
    decreases k,
{
    if k == 0 {
        1
    } else {
        256 * pow256((k - 1) as nat)
    }
}

fn le_bytes(b: &Vec<u8>) -> (r: u64)
    requires
        1 <= b@.len() <= 8,
    ensures
        r as int == le_value(b@),
{
    let mut acc: u64 = 0;
    let mut scale: u64 = 1;
    let mut i: usize = 0;
    proof {
        assert(b@.subrange(0, 0) =~= Seq::<u8>::empty());
        reveal_with_fuel(pow256, 8);
    }
    while i < b.len()
        invariant
            1 <= b@.len() <= 8,
            i <= b@.len(),
            scale == pow256(i as nat),
            acc == le_value(b@.subrange(0, i as int)),
            acc < scale,
            scale <= pow256(7),
        decreases b@.len() - i,
    {
        proof {
            assert(b@.subrange(0, (i + 1) as int).drop_last() =~= b@.subrange(0, i as int));
            reveal_with_fuel(pow256, 9);
            lemma_pow256_mono(i as nat, 7);
            assert((b@[i as int] as int) * scale <= 255 * scale) by (nonlinear_arith)
                requires
                    0 <= b@[i as int] <= 255,
                    scale >= 0,
            ;
        }
        acc = acc + (b[i] as u64) * scale;
        if i + 1 < b.len() {
            scale = scale * 256;
        } else {
            proof {
                assert(b@.subrange(0, (i + 1) as int) =~= b@);
            }
            return acc;
        }
        i = i + 1;
    }
    proof {
        assert(b@.subrange(0, i as int) =~= b@);
    }
    acc
}

proof fn lemma_pow256_mono(i: nat, j: nat)
    requires
        i <= j,
    ensures
        1 <= pow256(i) <= pow256(j),
    decreases j,
{
    if j > 0 {
        if i < j {
            lemma_pow256_mono(i, (j - 1) as nat);
        } else {
            lemma_pow256_mono(0, (j - 1) as nat);
        }
    }
}

fn arg_f32(reader: &mut Reader) -> (r: Result<u32, ArgumentReadError>)
    ensures
        read_as(spec_arg_f32(old(reader)@), r, final(reader)@),
        final(reader)@.same_window(old(reader)@),
        r is Ok ==> old(reader)@.pos <= final(reader)@.pos <= final(reader)@.end,
{
    match reader.read_exact(4) {
        Ok(b) => {
            let x = le_bytes(&b);
            proof {
                lemma_le_value_bound(b@);
                reveal_with_fuel(pow256, 5);
            }
            Ok(x as u32)
        },
        Err(e) => Err(ArgumentReadError::Read(e)),
    }
}

fn arg_f64(reader: &mut Reader) -> (r: Result<u64, ArgumentReadError>)
    ensures
        read_as(spec_arg_f64(old(reader)@), r, final(reader)@),
        final(reader)@.same_window(old(reader)@),
        r is Ok ==> old(reader)@.pos <= final(reader)@.pos <= final(reader)@.end,
{
    match reader.read_exact(8) {
        Ok(b) => Ok(le_bytes(&b)),
        Err(e) => Err(ArgumentReadError::Read(e)),
    }
}

proof fn lemma_le_value_bound(b: Seq<u8>)
    ensures
        0 <= le_value(b) < pow256(b.len()),
    decreases b.len(),
{
    if b.len() > 0 {
        let t = b.drop_last();
        lemma_le_value_bound(t);
        let p = pow256(t.len());
        let l = b.last() as int;
        assert(0 <= l * p <= 255 * p) by (nonlinear_arith)
            requires
                0 <= l <= 255,
                p >= 0,
        ;
    }
}

fn arg_mem_init(reader: &mut Reader) -> (r: Result<(MemIndex, u32), ArgumentReadError>)
    ensures
        read_as(spec_arg_mem_init(old(reader)@), r, final(reader)@),
        final(reader)@.same_window(old(reader)@),
        r is Ok ==> old(reader)@.pos <= final(reader)@.pos <= final(reader)@.end,
{
    let d = arg_u32(reader)?;
    let m = match MemIndex::from_reader(reader) {
        Ok(m) => m,
        Err(e) => return Err(ArgumentReadError::Read(e)),
    };
    Ok((m, d))
}

fn arg_table_init(reader: &mut Reader) -> (r: Result<(u32, u32), ArgumentReadError>)
    ensures
        read_as(spec_arg_table_init(old(reader)@), r, final(reader)@),
        final(reader)@.same_window(old(reader)@),
        r is Ok ==> old(reader)@.pos <= final(reader)@.pos <= final(reader)@.end,
{
    let y = arg_u32(reader)?;
    let x = arg_u32(reader)?;
    Ok((x, y))
}

fn block_instr(op: u8, b: BlockType) -> (r: Instruction)
    ensures
        r == spec_block_instr(op, b),
{
    if op == 0x02 {
        Instruction::Block(b)
    } else if op == 0x03 {
        Instruction::Loop(b)
    } else {
        Instruction::If(b)
    }
}

fn is_index_op(op: u8) -> (r: bool)
    ensures
        r == is_index_opcode(op),
{
    op == 0x0c || op == 0x0d || op == 0x10 || op == 0x20 || op == 0x21 || op == 0x22 || op == 0x23
        || op == 0x24 || op == 0xd2 || op == 0x25 || op == 0x26
}

fn decode_with_arg(reader: &mut Reader, op: u8, offset: usize) -> (r: Result<Instruction, InstructionError>)
    ensures
        parsed(spec_decode_with_arg(op, old(reader)@, offset), r, final(reader)@),
        final(reader)@.same_window(old(reader)@),
        r is Ok ==> old(reader)@.pos <= final(reader)@.pos <= final(reader)@.end,
{
    let name = instr_name(op);
    let at = reader.position() as usize;
    if op == 0x02 || op == 0x03 || op == 0x04 {
        match BlockType::from_reader(reader) {
            Ok(b) => Ok(block_instr(op, b)),
            Err(e) => Err(arg_error(name, at, ArgumentReadError::Read(e))),
        }
    } else if is_index_op(op) {
        match arg_u32(reader) {
            Ok(x) => Ok(index_instr(op, x)),
            Err(e) => Err(arg_error(name, at, e)),
        }
    } else if 0x28 <= op && op <= 0x3e {
        match MemArg::from_reader(reader) {
            Ok(m) => Ok(mem_instr(op, m)),
            Err(e) => Err(arg_error(name, at, ArgumentReadError::MemArg(e))),
        }
    } else if op == 0x0e {
        match BranchTableIdx::from_reader(reader) {
            Ok(b) => Ok(Instruction::BrTable(b)),
            Err(e) => Err(arg_error(name, at, ArgumentReadError::BranchTableIdx(e))),
        }
    } else if op == 0x11 {
        match arg_pair(reader) {
            Ok(p) => Ok(Instruction::CallIndirect(p)),
            Err(e) => Err(arg_error(name, at, e)),
        }
    } else if op == 0x1c {
        match reader.read_vec::<ValType>() {
            Ok(v) => {
                proof {
                    assert(vec_view(v@) =~= v@);
                }
                Ok(Instruction::SelectT(v))
            },
            Err(e) => Err(arg_error(name, at, ArgumentReadError::VecRead(e))),
        }
    } else if op == 0x3f || op == 0x40 {
        match MemIndex::from_reader(reader) {
            Ok(m) => Ok(
                if op == 0x3f {
                    Instruction::MemorySize(m)
                } else {
                    Instruction::MemoryGrow(m)
                },
            ),
            Err(e) => Err(arg_error(name, at, ArgumentReadError::Read(e))),
        }
    } else if op == 0x41 {
        match reader.read_i32() {
            Ok(x) => Ok(Instruction::I32Const(x)),
            Err(e) => Err(arg_error(name, at, ArgumentReadError::Read(e))),
        }
    } else if op == 0x42 {
        match reader.read_i64() {
            Ok(x) => Ok(Instruction::I64Const(x)),
            Err(e) => Err(arg_error(name, at, ArgumentReadError::Read(e))),
        }
    } else if op == 0x43 {
        match arg_f32(reader) {
            Ok(x) => Ok(Instruction::F32Const(x)),
            Err(e) => Err(arg_error(name, at, e)),
        }
    } else if op == 0x44 {
        match arg_f64(reader) {
            Ok(x) => Ok(Instruction::F64Const(x)),
            Err(e) => Err(arg_error(name, at, e)),
        }
    } else if op == 0xd0 {
        match RefType::from_reader(reader) {
            Ok(t) => Ok(Instruction::RefNull(t)),
            Err(e) => Err(arg_error(name, at, ArgumentReadError::Read(e))),
        }
    } else {
        Err(invalid(op, offset))
    }
}

fn decode_prefixed(reader: &mut Reader, sub: u32, offset: usize) -> (r: Result<Instruction, InstructionError>)
    ensures
        parsed(spec_decode_prefixed(sub, old(reader)@, offset), r, final(reader)@),
        final(reader)@.same_window(old(reader)@),
        r is Ok ==> old(reader)@.pos <= final(reader)@.pos <= final(reader)@.end,
{
    let at = reader.position() as usize;
    if let Some(i) = prefixed_plain(sub) {
        return Ok(i);
    }
    if sub == 8 {
        match arg_mem_init(reader) {
            Ok(p) => Ok(Instruction::MemoryInit(p)),
            Err(e) => Err(arg_error("memory.init", at, e)),
        }
    } else if sub == 9 {
        match arg_u32(reader) {
            Ok(x) => Ok(Instruction::DataDrop(x)),
            Err(e) => Err(arg_error("data.drop", at, e)),
        }
    } else if sub == 12 {
        match arg_table_init(reader) {
            Ok(p) => Ok(Instruction::TableInit(p)),
            Err(e) => Err(arg_error("table.init", at, e)),
        }
    } else if sub == 13 {
        match arg_u32(reader) {
            Ok(x) => Ok(Instruction::ElemDrop(x)),
            Err(e) => Err(arg_error("elem.drop", at, e)),
        }
    } else {
        Err(invalid(sub as u8, offset))
    }
}

/// Decodes one instruction.
pub fn decode_instruction(reader: &mut Reader) -> (r: Result<Instruction, InstructionError>)
    ensures
        parsed(spec_decode_instruction(old(reader)@), r, final(reader)@),
        final(reader)@.same_window(old(reader)@),
        r is Ok ==> old(reader)@.pos < final(reader)@.pos <= final(reader)@.end,
{
    let offset = reader.position() as usize;
    let opcode = match reader.read_u8() {
        Ok(b) => b,
        Err(e) => return Err(InstructionError::from_read(e)),
    };
    if opcode == 0xfc {
        let second = match reader.read_u32() {
            Ok(s) => s,
            Err(e) => return Err(InstructionError::from_read(e)),
        };
        return decode_prefixed(reader, second, offset);
    }
    if let Some(i) = plain_opcode(opcode) {
        return Ok(i);
    }
    decode_with_arg(reader, opcode, offset)
}

} // verus!
