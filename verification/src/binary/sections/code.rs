//! The code section: each function's locals and body.
use vstd::prelude::*;
use vstd::string::*;

use crate::binary::reader::{
    FromReader, RView, ReadError, Reader, VecReadError, spec_read_u32, spec_read_vec_of, spec_scoped, vec_view,
};
use crate::binary::sections::{SectionEntry, SectionErrorKind};
use crate::binary::types::ValType;
use crate::instructions::{InstrV, Instruction, InstructionError, decode_instruction, spec_decode_instruction};
use crate::limits::MAX_WASM_FUNCTION_LOCALS;

verus! {

/// Code Section
#[derive(Debug, Clone, Copy, PartialEq, Eq, Structural)]
pub struct FuncLocal {
    pub count: u32,
    pub valtype: ValType,
}

impl View for FuncLocal {
    type V = FuncLocal;

    open spec fn view(&self) -> FuncLocal {
        *self
    }
}

#[derive(Debug)]
pub struct CodeEntry {
    pub size: usize,
    pub locals: Vec<FuncLocal>,
    pub body: Vec<Instruction>,
}

/// The model of a code entry.
pub struct CodeEntryV {
    pub size: usize,
    pub locals: Seq<FuncLocal>,
    pub body: Seq<InstrV>,
}

impl View for CodeEntry {
    type V = CodeEntryV;

    open spec fn view(&self) -> CodeEntryV {
        CodeEntryV { size: self.size, locals: self.locals@, body: vec_view(self.body@) }
    }
}

pub type CodeSection = Vec<CodeEntry>;

/// Errors
#[derive(Debug)]
#[non_exhaustive]
pub enum CodeSectionReadError {
    FunctionCodeSize(ReadError),
    FunctionLocals(VecReadError<ReadError>),
    TooManyLocals,
    FunctionBody(InstructionError),
    MissingEnd,
}

impl CodeSectionReadError {
    /// The text of this error.
    pub open spec fn message(&self) -> Seq<char> {
        match self {
            CodeSectionReadError::FunctionCodeSize(..) => "reading the function code byte size"@,
            CodeSectionReadError::FunctionLocals(..) => "reading function local"@,
            CodeSectionReadError::TooManyLocals => "checking function locals count"@,
            CodeSectionReadError::FunctionBody(..) => "reading function body"@,
            CodeSectionReadError::MissingEnd => "missing end instruction (0x0b)"@,
        }
    }

    /// Renders the error as text.
    pub fn to_string(&self) -> (s: String)
        ensures
            s@ == self.message(),
    {
        match self {
            CodeSectionReadError::FunctionCodeSize(..) => String::from_str("reading the function code byte size"),
            CodeSectionReadError::FunctionLocals(..) => String::from_str("reading function local"),
            CodeSectionReadError::TooManyLocals => String::from_str("checking function locals count"),
            CodeSectionReadError::FunctionBody(..) => String::from_str("reading function body"),
            CodeSectionReadError::MissingEnd => String::from_str("missing end instruction (0x0b)"),
        }
    }
}

/// A local declaration: a count, then a value type.
pub open spec fn spec_func_local(v: RView) -> Result<(FuncLocal, int), ReadError> {
    match spec_read_u32(v) {
        Err(e) => Err(e),
        Ok((count, p)) => match ValType::spec_from_reader(v.at(p)) {
            Err(e) => Err(e),
            Ok((valtype, q)) => Ok((FuncLocal { count, valtype }, q)),
        },
    }
}

impl FromReader for FuncLocal {
    type Error = ReadError;

    open spec fn spec_from_reader(v: RView) -> Result<(FuncLocal, int), ReadError> {
        spec_func_local(v)
    }

    fn from_reader(reader: &mut Reader) -> (res: Result<FuncLocal, ReadError>) {
        let count = reader.read_u32()?;
        let valtype = ValType::from_reader(reader)?;
        Ok(FuncLocal { count, valtype })
    }
}

/// The number of locals that the declarations declare.
pub open spec fn locals_total(s: Seq<FuncLocal>) -> int
    decreases s.len(),
{
    if s.len() == 0 {
        0
    } else {
        locals_total(s.drop_last()) + s.last().count
    }
}

/// The change of block nesting that an instruction makes: `block`, `loop`
/// and `if` open a block, `end` closes one.
pub open spec fn depth_change(i: InstrV) -> int {
    match i {
        InstrV::Plain(Instruction::Block(_)) => 1,
        InstrV::Plain(Instruction::Loop(_)) => 1,
        InstrV::Plain(Instruction::If(_)) => 1,
        InstrV::Plain(Instruction::End) => -1,
        _ => 0,
    }
}

/// The change of block nesting over a sequence of instructions.
pub open spec fn net_depth(s: Seq<InstrV>) -> int
    decreases s.len(),
{
    if s.len() == 0 {
        0
    } else {
        net_depth(s.drop_last()) + depth_change(s.last())
    }
}

/// The instructions of a function body: decoded one after the other until
/// the window is exhausted.
pub open spec fn spec_code_body(v: RView) -> Result<Seq<InstrV>, InstructionError>
    decreases v.end - v.pos,
{
    if v.pos >= v.end {
        Ok(seq![])
    } else {
        match spec_decode_instruction(v) {
            Err(e) => Err(e),
            Ok((i, p)) => if p <= v.pos || p > v.end {
                Ok(seq![i])
            } else {
                match spec_code_body(v.at(p)) {
                    Err(e) => Err(e),
                    Ok(rest) => Ok(seq![i] + rest),
                }
            },
        }
    }
}

pub open spec fn prepend_body(
    done: Seq<InstrV>,
    rest: Result<Seq<InstrV>, InstructionError>,
) -> Result<Seq<InstrV>, InstructionError> {
    match rest {
        Ok(s) => Ok(done + s),
        Err(e) => Err(e),
    }
}

pub open spec fn code_error(e: CodeSectionReadError) -> SectionErrorKind {
    SectionErrorKind::CodeSection(e)
}

/// A code entry: a byte size, then within that many bytes the local
/// declarations (at most `MAX_WASM_FUNCTION_LOCALS` locals in all) and the
/// body, whose blocks, the function's own included, must all be closed.
pub open spec fn spec_code_entry(v: RView) -> Result<(CodeEntryV, int), SectionErrorKind> {
    match spec_read_u32(v) {
        Err(e) => Err(code_error(CodeSectionReadError::FunctionCodeSize(e))),
        Ok((size, p)) => match spec_scoped(v.at(p), size) {
            Err(e) => Err(code_error(CodeSectionReadError::FunctionCodeSize(e))),
            Ok(w) => match spec_read_vec_of::<FuncLocal>(w) {
                Err(e) => Err(code_error(CodeSectionReadError::FunctionLocals(e))),
                Ok((locals, q)) => if locals_total(locals) > MAX_WASM_FUNCTION_LOCALS {
                    Err(code_error(CodeSectionReadError::TooManyLocals))
                } else {
                    match spec_code_body(w.at(q)) {
                        Err(e) => Err(code_error(CodeSectionReadError::FunctionBody(e))),
                        Ok(body) => if 1 + net_depth(body) == 0 {
                            Ok((CodeEntryV { size: size as usize, locals, body }, w.end))
                        } else {
                            Err(code_error(CodeSectionReadError::MissingEnd))
                        },
                    }
                },
            },
        },
    }
}

proof fn lemma_locals_total_prefix(s: Seq<FuncLocal>, i: int)
    requires
        0 <= i <= s.len(),
    ensures
        locals_total(s.take(i)) <= locals_total(s),
        locals_total(s.take(i)) >= 0,
    decreases s.len(),
{
    if i < s.len() {
        lemma_locals_total_prefix(s.drop_last(), i);
        assert(s.drop_last().take(i) =~= s.take(i));
    } else {
        assert(s.take(i) =~= s);
        if s.len() > 0 {
            lemma_locals_total_prefix(s.drop_last(), i - 1);
            assert(s.drop_last().take(i - 1) =~= s.drop_last());
        }
    }
}

/// Counts the declared locals, up to the limit: `None` once the count exceeds it.
fn count_locals(locals: &Vec<FuncLocal>) -> (r: Option<u32>)
    ensures
        match r {
            Some(n) => n == locals_total(locals@) && n <= MAX_WASM_FUNCTION_LOCALS,
            None => locals_total(locals@) > MAX_WASM_FUNCTION_LOCALS,
        },
{
    let mut total: u64 = 0;
    let mut i: usize = 0;
    while i < locals.len()
        invariant
            i <= locals@.len(),
            total == locals_total(locals@.take(i as int)),
            total <= MAX_WASM_FUNCTION_LOCALS,
        decreases locals@.len() - i,
    {
        proof {
            assert(locals@.take(i + 1).drop_last() =~= locals@.take(i as int));
        }
        total = total + locals[i].count as u64;
        i = i + 1;
        if total > MAX_WASM_FUNCTION_LOCALS as u64 {
            proof {
                lemma_locals_total_prefix(locals@, i as int);
            }
            return None;
        }
    }
    proof {
        assert(locals@.take(i as int) =~= locals@);
    }
    Some(total as u32)
}

proof fn lemma_net_depth_push(s: Seq<InstrV>, i: InstrV)
    ensures
        net_depth(s.push(i)) == net_depth(s) + depth_change(i),
{
    assert(s.push(i).drop_last() =~= s);
}

/// Decodes the body's instructions to the end of the window, with the block
/// nesting that they leave.
fn decode_body(reader: &mut Reader) -> (r: Result<(Vec<Instruction>, i64), InstructionError>)
    requires
        old(reader)@.end - old(reader)@.pos <= u32::MAX,
    ensures
        match spec_code_body(old(reader)@) {
            Ok(body) => r is Ok && vec_view(r->Ok_0.0@) == body && r->Ok_0.1 == net_depth(body),
            Err(e) => r == Err::<(Vec<Instruction>, i64), InstructionError>(e),
        },
{
    let ghost v0 = reader@;
    let mut body: Vec<Instruction> = Vec::new();
    let mut depth: i64 = 0;
    proof {
        assert(vec_view(body@) =~= seq![]);
        let r = spec_code_body(reader@);
        if r is Ok {
            assert(seq![] + r->Ok_0 =~= r->Ok_0);
        }
    }
    while !reader.is_exhausted()
        invariant
            reader@.same_window(v0),
            v0.pos <= reader@.pos,
            v0 == old(reader)@,
            v0.end - v0.pos <= u32::MAX,
            depth == net_depth(vec_view(body@)),
            -(reader@.pos - v0.pos) <= depth <= reader@.pos - v0.pos,
            spec_code_body(v0) == prepend_body(vec_view(body@), spec_code_body(reader@)),
        decreases reader@.end - reader@.pos,
    {
        let ghost before = reader@;
        let ghost done = vec_view(body@);
        let instr = decode_instruction(reader)?;
        let ghost iv = instr@;
        match instr {
            Instruction::Block(_) | Instruction::Loop(_) | Instruction::If(_) => {
                depth = depth + 1;
            },
            Instruction::End => {
                depth = depth - 1;
            },
            _ => {},
        }
        body.push(instr);
        proof {
            assert(vec_view(body@) =~= done.push(iv));
            lemma_net_depth_push(done, iv);
            assert(before.at(reader@.pos) == reader@);
            let r = spec_code_body(reader@);
            if r is Ok {
                assert(done + (seq![iv] + r->Ok_0) =~= vec_view(body@) + r->Ok_0);
            }
        }
    }
    proof {
        assert(vec_view(body@) + seq![] =~= vec_view(body@));
    }
    Ok((body, depth))
}

impl SectionEntry for CodeEntry {
    open spec fn spec_decode(v: RView) -> Result<(CodeEntryV, int), SectionErrorKind> {
        spec_code_entry(v)
    }

    fn decode(reader: &mut Reader) -> (res: Result<CodeEntry, SectionErrorKind>) {
        let size = match reader.read_u32() {
            Ok(s) => s,
            Err(e) => return Err(SectionErrorKind::CodeSection(CodeSectionReadError::FunctionCodeSize(e))),
        };
        let mut reader = match reader.scoped(size) {
            Ok(r) => r,
            Err(e) => return Err(SectionErrorKind::CodeSection(CodeSectionReadError::FunctionCodeSize(e))),
        };
        let locals: Vec<FuncLocal> = match reader.read_vec() {
            Ok(l) => l,
            Err(e) => return Err(SectionErrorKind::CodeSection(CodeSectionReadError::FunctionLocals(e))),
        };
        proof {
            assert(vec_view(locals@) =~= locals@);
        }
        if count_locals(&locals).is_none() {
            return Err(SectionErrorKind::CodeSection(CodeSectionReadError::TooManyLocals));
        }
        let (body, depth) = match decode_body(&mut reader) {
            Ok(b) => b,
            Err(e) => return Err(SectionErrorKind::CodeSection(CodeSectionReadError::FunctionBody(e))),
        };
        if depth == -1 {
            Ok(CodeEntry { size: size as usize, locals, body })
        } else {
            Err(SectionErrorKind::CodeSection(CodeSectionReadError::MissingEnd))
        }
    }
}

} // verus!
