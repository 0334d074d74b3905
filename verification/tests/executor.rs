use wasmrs::binary::sections::code::{CodeEntry, FuncLocal};
use wasmrs::binary::types::{BlockType, FuncType, RefType, ValType};
use wasmrs::instructions::Instruction;
use wasmrs::runtime::RuntimeErrorKind;
use wasmrs::runtime::executor::{
    block_arity, branch, call, find_block_end, find_if_else_end, pop_bool, pop_i32, unwind_value_stack,
};
use wasmrs::runtime::instance::ModuleInstance;
use wasmrs::runtime::stack::{Frame, Label};
use wasmrs::runtime::store::{FuncAddr, FuncBody, Store};
use wasmrs::runtime::value::{Ref, Value};

fn ints(stack: &[Value]) -> Vec<i32> {
    stack
        .iter()
        .map(|v| match v {
            Value::I32(x) => *x,
            _ => panic!("not an i32"),
        })
        .collect()
}

fn stack_of(xs: &[i32]) -> Vec<Value> {
    xs.iter().map(|x| Value::I32(*x)).collect()
}

#[test]
fn test_find_block_end_nested() {
    let instrs = vec![
        Instruction::Block(BlockType::Empty),
        Instruction::Nop,
        Instruction::Loop(BlockType::Empty),
        Instruction::End,
        Instruction::End,
        Instruction::End,
    ];
    assert_eq!(find_block_end(&instrs, 0), 4);
    assert_eq!(find_block_end(&instrs, 2), 3);
}

#[test]
fn test_find_if_else_end() {
    let instrs = vec![
        Instruction::If(BlockType::Empty),
        Instruction::I32Const(1),
        Instruction::Else,
        Instruction::I32Const(2),
        Instruction::End,
    ];
    assert_eq!(find_if_else_end(&instrs, 0), (4, Some(2)));
    let nested = vec![
        Instruction::If(BlockType::Empty),
        Instruction::If(BlockType::Empty),
        Instruction::Else,
        Instruction::End,
        Instruction::Else,
        Instruction::End,
    ];
    assert_eq!(find_if_else_end(&nested, 0), (5, Some(4)));
    assert_eq!(find_if_else_end(&nested, 1), (3, Some(2)));
    let no_else = vec![Instruction::If(BlockType::Empty), Instruction::Nop, Instruction::End];
    assert_eq!(find_if_else_end(&no_else, 0), (2, None));
}

#[test]
fn test_block_arity() {
    let mut mi = ModuleInstance::default();
    mi.types.push(FuncType { params: vec![ValType::I32, ValType::I64], results: vec![ValType::F32] });
    assert_eq!(block_arity(&BlockType::Empty, &mi), (0, 0));
    assert_eq!(block_arity(&BlockType::Value(ValType::I32), &mi), (0, 1));
    assert_eq!(block_arity(&BlockType::Index(0), &mi), (2, 1));
}

#[test]
fn test_unwind_value_stack() {
    let mut stack = stack_of(&[1, 2, 3, 4, 5]);
    assert!(unwind_value_stack(&mut stack, 1, 2).is_ok());
    assert_eq!(ints(&stack), vec![1, 4, 5]);

    let mut stack = stack_of(&[1, 2, 3]);
    assert!(unwind_value_stack(&mut stack, 3, 0).is_ok());
    assert_eq!(ints(&stack), vec![1, 2, 3]);

    let mut stack = stack_of(&[1, 2]);
    assert!(matches!(unwind_value_stack(&mut stack, 0, 3), Err(RuntimeErrorKind::Internal(_))));
    assert_eq!(ints(&stack), vec![1, 2]);

    let mut stack = stack_of(&[1, 2, 3]);
    assert!(matches!(
        unwind_value_stack(&mut stack, 3, 1),
        Err(RuntimeErrorKind::Internal("unwinding past stack pointer"))
    ));
    assert_eq!(ints(&stack), vec![1, 2, 3]);
}

#[test]
fn test_pop_i32_and_bool() {
    let mut stack = vec![Value::I64(1), Value::I32(0), Value::I32(7)];
    assert_eq!(pop_i32(&mut stack), Ok(7));
    assert_eq!(pop_bool(&mut stack), Ok(false));
    assert!(pop_i32(&mut stack).is_err());
    assert!(stack.is_empty());
    assert!(pop_bool(&mut stack).is_err());
}

#[test]
fn test_frame_labels() {
    let mut frame = Frame::new(1, FuncAddr(0), vec![], 0);
    assert_eq!(frame.pc, -1);
    frame.enter_block(1, 10, 2);
    frame.enter_loop(0, 2, 4, 3);
    frame.enter_block(0, 20, 5);
    assert_eq!(frame.current_label().pc, 20);
    let l = frame.pop_nth_label(1);
    assert_eq!((l.br_arity, l.end_arity, l.pc, l.sp), (0, 2, 4, 3));
    assert_eq!(frame.labels.len(), 1);
    assert_eq!(frame.current_label().pc, 10);
}

#[test]
fn test_branch_to_label_and_out() {
    let mut frame = Frame::new(1, FuncAddr(0), vec![], 0);
    frame.enter_block(1, 7, 1);
    let mut calls = vec![frame];
    let mut stack = stack_of(&[9, 8, 7, 6]);
    // to the block: keep one value above height 1, continue after its end
    assert!(branch(&mut stack, &mut calls, &0).is_ok());
    assert_eq!(ints(&stack), vec![9, 6]);
    assert_eq!(calls.len(), 1);
    assert_eq!(calls[0].pc, 7);
    assert!(calls[0].labels.is_empty());
    // out of the function: keep its one result above its height 0
    assert!(branch(&mut stack, &mut calls, &0).is_ok());
    assert_eq!(ints(&stack), vec![6]);
    assert!(calls.is_empty());
}

#[test]
fn test_call_pushes_frame() {
    let mut store = Store::default();
    let mut registry = wasmrs::runtime::instance::ModuleRegistry::default();
    let h = registry.reserve();
    let code = CodeEntry {
        size: 4,
        locals: vec![FuncLocal { count: 2, valtype: ValType::I64 }, FuncLocal { count: 1, valtype: ValType::Ref(RefType::Func) }],
        body: vec![Instruction::End],
    };
    let ftype = FuncType { params: vec![ValType::I32], results: vec![ValType::I32] };
    let a = store.functions.allocate(h, ftype, &code, 0);
    assert!(matches!(store.functions.get(a).body, FuncBody::Wasm(_)));
    let mut stack = stack_of(&[5, 6]);
    let mut calls: Vec<Frame> = vec![];
    call(&store, &mut stack, &mut calls, a);
    assert_eq!(ints(&stack), vec![5]);
    assert_eq!(calls.len(), 1);
    let f = &calls[0];
    assert_eq!((f.arity, f.sp, f.pc), (1, 1, -1));
    assert_eq!(f.locals.len(), 4);
    assert!(matches!(f.locals[0], Value::I32(6)));
    assert!(matches!(f.locals[1], Value::I64(0)));
    assert!(matches!(f.locals[2], Value::I64(0)));
    assert!(matches!(f.locals[3], Value::Ref(Ref::Null(RefType::Func))));
    let _ = Label::new(0, 0, 0, 0);
}

#[test]
fn test_value_conversions() {
    assert!(matches!(Value::default_of(ValType::F64), Value::F64(0)));
    assert!(matches!(Value::I32(3).as_bool(), Some(true)));
    assert!(matches!(Value::I32(0).as_bool(), Some(false)));
    assert!(Value::I64(0).as_bool().is_none());
    assert!(matches!(Value::Ref(Ref::Func(FuncAddr(1))).into_ref_checked(&RefType::Func), Some(Ref::Func(_))));
    assert!(Value::Ref(Ref::Func(FuncAddr(1))).into_ref_checked(&RefType::Extern).is_none());
    assert!(matches!(Value::Ref(Ref::Null(RefType::Extern)).into_ref_checked(&RefType::Extern), Some(Ref::Null(_))));
    assert!(Value::I32(1).into_ref().is_none());
}
