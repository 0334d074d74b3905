use wasmrs::Error;
use wasmrs::binary::types::{FuncType, ValType};
use wasmrs::runtime::executor::Execution;
use wasmrs::runtime::instance::ModuleHandle;
use wasmrs::runtime::machine::Step;
use wasmrs::runtime::value::Value;
use wasmrs::runtime::{Runtime, RuntimeErrorKind, TrapErrorKind};

type HostFn = Box<dyn Fn(&[Value]) -> Result<Vec<Value>, RuntimeErrorKind>>;

/// Runs an invocation step by step, calling host functions from `hosts`.
fn invoke(runtime: &mut Runtime, hosts: &[HostFn], mh: ModuleHandle, name: &str, args: &[Value]) -> Result<Vec<Value>, Error> {
    let (mut exec, mut step): (Execution, Step) = runtime.start_invoke(mh, name, args)?;
    loop {
        match step {
            Step::Done => break,
            Step::Continue => {}
            Step::Float(i) => panic!("unexpected floating-point instruction {:?}", i),
            Step::Host(h, host_args) => {
                let results = hosts[h](&host_args).map_err(Error::Trap)?;
                exec.value_stack.extend(results);
            }
        }
        step = runtime.step(&mut exec.value_stack, &mut exec.call_stack).map_err(Error::Trap)?;
    }
    Runtime::finish_invoke(exec)
}

#[test]
fn test_memory_size() -> Result<(), Error> {
    // (module
    //   (memory 1)
    //   (func (export "size") (result i32) memory.size))
    let bytes = [
        b"\x00asm\x01\x00\x00\x00" as &[u8],
        // type section: 1 type, () -> (i32)
        b"\x01\x05\x01\x60\x00\x01\x7f",
        // function section: 1 func, type 0
        b"\x03\x02\x01\x00",
        // memory section: 1 memory, min=1 page
        b"\x05\x03\x01\x00\x01",
        // export section: "size" -> func 0
        b"\x07\x08\x01\x04size\x00\x00",
        // code section: memory.size 0, end
        b"\x0a\x06\x01\x04\x00\x3f\x00\x0b",
    ]
    .concat();

    let mut runtime = Runtime::default();
    let mh = runtime.load_module(&bytes)?.0;

    let r = invoke(&mut runtime, &[], mh, "size", &[])?;
    assert!(matches!(r.as_slice(), [Value::I32(1)]));
    assert_eq!(runtime.memory_pages(0), 1);

    Ok(())
}

#[test]
fn test_memory_grow() -> Result<(), Error> {
    // (module
    //   (memory 1)
    //   (func (export "grow") (param i32) (result i32) local.get 0 memory.grow)
    //   (func (export "size") (result i32) memory.size))
    let bytes = [
        b"\x00asm\x01\x00\x00\x00" as &[u8],
        // type section: 2 types
        //   type 0: (i32) -> (i32)
        //   type 1: () -> (i32)
        b"\x01\x0a\x02\x60\x01\x7f\x01\x7f\x60\x00\x01\x7f",
        // function section: 2 funcs, type 0 and type 1
        b"\x03\x03\x02\x00\x01",
        // memory section: 1 memory, min=1 page
        b"\x05\x03\x01\x00\x01",
        // export section: "grow" -> func 0, "size" -> func 1
        b"\x07\x0f\x02\x04grow\x00\x00\x04size\x00\x01",
        // code section: 2 entries
        //   func 0: local.get 0, memory.grow 0, end
        //   func 1: memory.size 0, end
        b"\x0a\x0d\x02\x06\x00\x20\x00\x40\x00\x0b\x04\x00\x3f\x00\x0b",
    ]
    .concat();

    let mut runtime = Runtime::default();
    let mh = runtime.load_module(&bytes)?.0;

    // Initial size is 1 page
    let r = invoke(&mut runtime, &[], mh, "size", &[])?;
    assert!(matches!(r.as_slice(), [Value::I32(1)]));
    assert_eq!(runtime.memory_pages(0), 1);

    // Grow by 2 pages, returns old size (1)
    let r = invoke(&mut runtime, &[], mh, "grow", &[Value::I32(2)])?;
    assert!(matches!(r.as_slice(), [Value::I32(1)]));
    assert_eq!(runtime.memory_pages(0), 3);
    assert_eq!(runtime.memory_data(0).len(), 3 * 65536);

    // New size is 3 pages
    let r = invoke(&mut runtime, &[], mh, "size", &[])?;
    assert!(matches!(r.as_slice(), [Value::I32(3)]));

    Ok(())
}

#[test]
fn test_i32_store_load() -> Result<(), Error> {
    // (module
    //   (memory 1)
    //   (func (export "store") (param i32 i32) local.get 0 local.get 1 i32.store)
    //   (func (export "load") (param i32) (result i32) local.get 0 i32.load))
    let bytes = [
        b"\x00asm\x01\x00\x00\x00" as &[u8],
        // type section: 2 types
        //   type 0: (i32 i32) -> ()
        //   type 1: (i32) -> (i32)
        b"\x01\x0b\x02\x60\x02\x7f\x7f\x00\x60\x01\x7f\x01\x7f",
        // function section: 2 funcs, type 0 and type 1
        b"\x03\x03\x02\x00\x01",
        // memory section: 1 memory, min=1 page
        b"\x05\x03\x01\x00\x01",
        // export section: "store" -> func 0, "load" -> func 1
        b"\x07\x10\x02\x05store\x00\x00\x04load\x00\x01",
        // code section: 2 entries
        //   func 0: local.get 0, local.get 1, i32.store align=2 offset=0, end
        //   func 1: local.get 0, i32.load align=2 offset=0, end
        b"\x0a\x13\x02\x09\x00\x20\x00\x20\x01\x36\x02\x00\x0b\x07\x00\x20\x00\x28\x02\x00\x0b",
    ]
    .concat();

    let mut runtime = Runtime::default();
    let mh = runtime.load_module(&bytes)?.0;

    // Store 42 at address 0
    invoke(&mut runtime, &[], mh, "store", &[Value::I32(0), Value::I32(42)])?;
    assert_eq!(&runtime.memory_data(0)[0..4], &42_i32.to_le_bytes());

    // Load from address 0
    let r = invoke(&mut runtime, &[], mh, "load", &[Value::I32(0)])?;
    assert!(matches!(r.as_slice(), [Value::I32(42)]));

    // Store at a different offset and load it back
    invoke(&mut runtime, &[], mh, "store", &[Value::I32(100), Value::I32(-1)])?;
    assert_eq!(&runtime.memory_data(0)[100..104], &(-1_i32).to_le_bytes());

    let r = invoke(&mut runtime, &[], mh, "load", &[Value::I32(100)])?;
    assert!(matches!(r.as_slice(), [Value::I32(-1)]));

    Ok(())
}

#[test]
fn test_if_param() -> Result<(), Error> {
    // (module
    //   (func (export "param") (param i32) (result i32)
    //     (i32.const 1)
    //     (if (param i32) (result i32) (local.get 0)
    //       (then (i32.const 2) (i32.add))
    //       (else (i32.const -2) (i32.add))))
    //   (func (export "params") (param i32) (result i32)
    //     (i32.const 1) (i32.const 2)
    //     (if (param i32 i32) (result i32) (local.get 0)
    //       (then (i32.add))
    //       (else (i32.sub))))
    //   (func (export "params-id") (param i32) (result i32)
    //     (i32.const 1) (i32.const 2)
    //     (if (param i32 i32) (result i32 i32) (local.get 0) (then))
    //     (i32.add)))
    let bytes = [
        b"\x00asm\x01\x00\x00\x00" as &[u8],
        // type section: 3 types
        //   type 0: (i32) -> (i32)
        //   type 1: (i32 i32) -> (i32)
        //   type 2: (i32 i32) -> (i32 i32)
        b"\x01\x13\x03\x60\x01\x7f\x01\x7f\x60\x02\x7f\x7f\x01\x7f\x60\x02\x7f\x7f\x02\x7f\x7f",
        // function section: 3 funcs, all type 0
        b"\x03\x04\x03\x00\x00\x00",
        // export section: "param" -> func 0, "params" -> func 1, "params-id" -> func 2
        b"\x07\x1e\x03\x05param\x00\x00\x06params\x00\x01\x09params-id\x00\x02",
        // code section: 3 entries
        b"\x0a\x2e\x03",
        // func 0: i32.const 1, local.get 0, if(type 0), i32.const 2, i32.add, else, i32.const -2, i32.add, end, end
        b"\x10\x00\x41\x01\x20\x00\x04\x00\x41\x02\x6a\x05\x41\x7e\x6a\x0b\x0b",
        // func 1: i32.const 1, i32.const 2, local.get 0, if(type 1), i32.add, else, i32.sub, end, end
        b"\x0e\x00\x41\x01\x41\x02\x20\x00\x04\x01\x6a\x05\x6b\x0b\x0b",
        // func 2: i32.const 1, i32.const 2, local.get 0, if(type 2), end, i32.add, end
        b"\x0c\x00\x41\x01\x41\x02\x20\x00\x04\x02\x0b\x6a\x0b",
    ]
    .concat();

    let mut runtime = Runtime::default();
    let mh = runtime.load_module(&bytes)?.0;

    let cases = [
        ("param", 0, -1),
        ("param", 1, 3),
        ("params", 0, -1),
        ("params", 1, 3),
        ("params-id", 0, 3),
        ("params-id", 1, 3),
    ];

    for (name, arg, expected) in cases {
        let r = invoke(&mut runtime, &[], mh, name, &[Value::I32(arg)])?;
        assert!(
            matches!(r.as_slice(), [Value::I32(v)] if *v == expected),
            "{name}({arg}): expected {expected}, got {r:?}",
        );
    }

    Ok(())
}

#[test]
fn test_call_indirect() -> Result<(), Error> {
    // (module
    //   (type $t (func (param i32 i32) (result i32)))
    //   (table 2 funcref)
    //   (elem (i32.const 0) func $add $sub)
    //   (func $add (type $t) local.get 0 local.get 1 i32.add)
    //   (func $sub (type $t) local.get 0 local.get 1 i32.sub)
    //   (func (export "call") (param i32 i32 i32) (result i32)
    //     local.get 0 local.get 1 local.get 2 call_indirect (type $t)))
    let bytes = [
        b"\x00asm\x01\x00\x00\x00" as &[u8],
        // type section: 2 types — (i32,i32)->(i32) and (i32,i32,i32)->(i32)
        b"\x01\x0e\x02\x60\x02\x7f\x7f\x01\x7f\x60\x03\x7f\x7f\x7f\x01\x7f",
        // function section: 3 funcs — type 0, type 0, type 1
        b"\x03\x04\x03\x00\x00\x01",
        // table section: 1 table, funcref, min=2
        b"\x04\x04\x01\x70\x00\x02",
        // export section: "call" -> func 2
        b"\x07\x08\x01\x04\x63\x61\x6c\x6c\x00\x02",
        // element section: active, table 0, offset=0, 2 funcs [0, 1]
        b"\x09\x08\x01\x00\x41\x00\x0b\x02\x00\x01",
        // code section: 3 funcs
        b"\x0a\x1d\x03\x07\x00\x20\x00\x20\x01\x6a\x0b\x07\x00\x20\x00\x20\x01\x6b\x0b\x0b\x00\x20\x00\x20\x01\x20\x02\x11\x00\x00\x0b",
    ]
    .concat();

    let mut runtime = Runtime::default();
    let mh = runtime.load_module(&bytes)?.0;

    let cases = [
        // (a, b, table_idx, expected)
        (10, 3, 0, 13), // add
        (10, 3, 1, 7),  // sub
    ];

    for (a, b, idx, expected) in cases {
        let r = invoke(&mut runtime, &[], mh, "call", &[Value::I32(a), Value::I32(b), Value::I32(idx)])?;
        assert!(
            matches!(r.as_slice(), [Value::I32(v)] if *v == expected),
            "call({a}, {b}, {idx}): expected {expected}, got {r:?}",
        );
    }

    Ok(())
}

#[test]
fn test_global_get() -> Result<(), Error> {
    // (module
    //   (global $g (mut i32) (i32.const 42))
    //   (func (export "get") (result i32) global.get $g))
    let bytes = [
        b"\x00asm\x01\x00\x00\x00" as &[u8],
        // type section: 1 type, () -> (i32)
        b"\x01\x05\x01\x60\x00\x01\x7f",
        // function section: 1 func, type 0
        b"\x03\x02\x01\x00",
        // global section: 1 global, i32 mut, init=i32.const 42
        b"\x06\x06\x01\x7f\x01\x41\x2a\x0b",
        // export section: "get" -> func 0
        b"\x07\x07\x01\x03\x67\x65\x74\x00\x00",
        // code section: global.get 0, end
        b"\x0a\x06\x01\x04\x00\x23\x00\x0b",
    ]
    .concat();

    let mut runtime = Runtime::default();
    let mh = runtime.load_module(&bytes)?.0;

    // Init expression is (i32.const 42), so get must return 42
    let r = invoke(&mut runtime, &[], mh, "get", &[])?;
    assert!(
        matches!(r.as_slice(), [Value::I32(42)]),
        "expected 42 from init expr, got {r:?}",
    );

    Ok(())
}

#[test]
fn test_br_to_function_return() -> Result<(), Error> {
    // (module
    //   (func (export "test") (result i32)
    //     (loop
    //       (i32.const 42)
    //       (br 1)
    //     )
    //     (unreachable)))
    let bytes = [
        b"\x00asm\x01\x00\x00\x00" as &[u8],
        // type section: 1 type, () -> (i32)
        b"\x01\x05\x01\x60\x00\x01\x7f",
        // function section: 1 func, type 0
        b"\x03\x02\x01\x00",
        // export section: "test" -> func 0
        b"\x07\x08\x01\x04\x74\x65\x73\x74\x00\x00",
        // code section: loop, i32.const 42, br 1, end, unreachable, end
        b"\x0a\x0c\x01\x0a\x00\x03\x40\x41\x2a\x0c\x01\x0b\x00\x0b",
    ]
    .concat();

    let mut runtime = Runtime::default();
    let mh = runtime.load_module(&bytes)?.0;

    let r = invoke(&mut runtime, &[], mh, "test", &[])?;
    assert!(
        matches!(r.as_slice(), [Value::I32(42)]),
        "expected 42 from br 1 (return), got {r:?}",
    );

    Ok(())
}

#[test]
fn test_loop_result_arity() -> Result<(), Error> {
    // (module
    //   (func (export "test") (result i32)
    //     (loop (result i32)
    //       (i32.const 42)
    //     )))
    let bytes = [
        b"\x00asm\x01\x00\x00\x00" as &[u8],
        // type section: 1 type, () -> (i32)
        b"\x01\x05\x01\x60\x00\x01\x7f",
        // function section: 1 func, type 0
        b"\x03\x02\x01\x00",
        // export section: "test" -> func 0
        b"\x07\x08\x01\x04\x74\x65\x73\x74\x00\x00",
        // code section: loop (result i32), i32.const 42, end, end
        b"\x0a\x09\x01\x07\x00\x03\x7f\x41\x2a\x0b\x0b",
    ]
    .concat();

    let mut runtime = Runtime::default();
    let mh = runtime.load_module(&bytes)?.0;

    let r = invoke(&mut runtime, &[], mh, "test", &[])?;
    assert!(
        matches!(r.as_slice(), [Value::I32(42)]),
        "expected 42 from loop fallthrough, got {r:?}",
    );

    Ok(())
}

#[test]
fn test_loop_br_reentry() -> Result<(), Error> {
    // (module
    //   (func (export "test") (result i32)
    //     (local $i i32)
    //     (block $exit (result i32)
    //       (loop $cont (result i32)
    //         (local.set $i (i32.add (local.get $i) (i32.const 1)))
    //         (if (i32.eq (local.get $i) (i32.const 3))
    //           (then (br $exit (local.get $i)))
    //         )
    //         (br $cont)
    //       )
    //     )
    //   ))
    let bytes = [
        b"\x00asm\x01\x00\x00\x00" as &[u8],
        // type section: 1 type, () -> (i32)
        b"\x01\x05\x01\x60\x00\x01\x7f",
        // function section: 1 func, type 0
        b"\x03\x02\x01\x00",
        // export section: "test" -> func 0
        b"\x07\x08\x01\x04test\x00\x00",
        // code section
        b"\x0a\x21\x01\x1f\x01\x01\x7f\x02\x7f\x03\x7f\x20\x00\x41\x01\x6a\x21\x00\x20\x00\x41\x03\x46\x04\x40\x20\x00\x0c\x02\x0b\x0c\x00\x0b\x0b\x0b",
    ]
    .concat();

    let mut runtime = Runtime::default();
    let mh = runtime.load_module(&bytes)?.0;

    let r = invoke(&mut runtime, &[], mh, "test", &[])?;
    assert!(
        matches!(r.as_slice(), [Value::I32(3)]),
        "expected 3 from loop counter, got {r:?}",
    );

    Ok(())
}

#[test]
fn test_global_set() -> Result<(), Error> {
    // (module
    //   (global $g (mut i32) (i32.const 10))
    //   (func (export "set") (param i32) local.get 0 global.set $g)
    //   (func (export "get") (result i32) global.get $g))
    let bytes = [
        b"\x00asm\x01\x00\x00\x00" as &[u8],
        // type section: 2 types — (i32)->() and ()->(i32)
        b"\x01\x09\x02\x60\x01\x7f\x00\x60\x00\x01\x7f",
        // function section: 2 funcs, type 0 and type 1
        b"\x03\x03\x02\x00\x01",
        // global section: 1 global, i32 mut, init=i32.const 10
        b"\x06\x06\x01\x7f\x01\x41\x0a\x0b",
        // export section: "set" -> func 0, "get" -> func 1
        b"\x07\x0d\x02\x03\x73\x65\x74\x00\x00\x03\x67\x65\x74\x00\x01",
        // code section: 2 funcs
        b"\x0a\x0d\x02\x06\x00\x20\x00\x24\x00\x0b\x04\x00\x23\x00\x0b",
    ]
    .concat();

    let mut runtime = Runtime::default();
    let mh = runtime.load_module(&bytes)?.0;

    // Initial value from init expr is 10
    let r = invoke(&mut runtime, &[], mh, "get", &[])?;
    assert!(
        matches!(r.as_slice(), [Value::I32(10)]),
        "expected 10 from init expr, got {r:?}",
    );

    // Set to 99, read back
    invoke(&mut runtime, &[], mh, "set", &[Value::I32(99)])?;
    let r = invoke(&mut runtime, &[], mh, "get", &[])?;
    assert!(
        matches!(r.as_slice(), [Value::I32(99)]),
        "expected 99 after set, got {r:?}",
    );

    // Set to -1, read back
    invoke(&mut runtime, &[], mh, "set", &[Value::I32(-1)])?;
    let r = invoke(&mut runtime, &[], mh, "get", &[])?;
    assert!(
        matches!(r.as_slice(), [Value::I32(-1)]),
        "expected -1 after set, got {r:?}",
    );

    Ok(())
}
#[test]
fn test_host_fn_direct_call() -> Result<(), Error> {
    let mut runtime = Runtime::default();
    let hosts: Vec<HostFn> = vec![
        Box::new(|args: &[Value]| {
                let a = args[0].as_i32().unwrap();
                let b = args[1].as_i32().unwrap();
                Ok(vec![Value::I32(a + b)])
            }),
    ];

    let mh = runtime.register_host_fn(
        "env",
        "add",
        FuncType {
            params: vec![ValType::I32, ValType::I32],
            results: vec![ValType::I32],
        },
        0,
    )?;

    let cases = [(3, 4, 7), (0, 0, 0), (-1, 1, 0)];

    for (a, b, expected) in cases {
        let r = invoke(&mut runtime, &hosts, mh, "add", &[Value::I32(a), Value::I32(b)])?;
        assert!(
            matches!(r.as_slice(), [Value::I32(v)] if *v == expected),
            "add({a}, {b}): expected {expected}, got {r:?}",
        );
    }

    Ok(())
}

#[test]
fn test_host_fn_import() -> Result<(), Error> {
    // (module
    //   (import "env" "add" (func $add (param i32 i32) (result i32)))
    //   (func (export "call_add") (param i32 i32) (result i32)
    //     local.get 0 local.get 1 call 0))
    let bytes = [
        b"\x00asm\x01\x00\x00\x00" as &[u8],
        // type section: 1 type, (i32 i32) -> (i32)
        b"\x01\x07\x01\x60\x02\x7f\x7f\x01\x7f",
        // import section: "env"."add" -> func type 0
        b"\x02\x0b\x01\x03\x65\x6e\x76\x03\x61\x64\x64\x00\x00",
        // function section: 1 func, type 0
        b"\x03\x02\x01\x00",
        // export section: "call_add" -> func 1
        b"\x07\x0c\x01\x08\x63\x61\x6c\x6c\x5f\x61\x64\x64\x00\x01",
        // code section: local.get 0, local.get 1, call 0, end
        b"\x0a\x0a\x01\x08\x00\x20\x00\x20\x01\x10\x00\x0b",
    ]
    .concat();

    let mut runtime = Runtime::default();
    let hosts: Vec<HostFn> = vec![
        Box::new(|args: &[Value]| {
                let a = args[0].as_i32().unwrap();
                let b = args[1].as_i32().unwrap();
                Ok(vec![Value::I32(a + b)])
            }),
    ];

    runtime.register_host_fn(
        "env",
        "add",
        FuncType {
            params: vec![ValType::I32, ValType::I32],
            results: vec![ValType::I32],
        },
        0,
    )?;

    let mh = runtime.load_module(&bytes)?.0;

    let cases = [(10, 20, 30), (0, 0, 0), (-5, 3, -2)];

    for (a, b, expected) in cases {
        let r = invoke(&mut runtime, &hosts, mh, "call_add", &[Value::I32(a), Value::I32(b)])?;
        assert!(
            matches!(r.as_slice(), [Value::I32(v)] if *v == expected),
            "call_add({a}, {b}): expected {expected}, got {r:?}",
        );
    }

    Ok(())
}

#[test]
fn test_host_fn_multiple_imports() -> Result<(), Error> {
    // (module
    //   (import "math" "double" (func $double (param i32) (result i32)))
    //   (import "math" "negate" (func $negate (param i32) (result i32)))
    //   (func (export "double_negate") (param i32) (result i32)
    //     local.get 0 call 0 call 1))
    let bytes = [
        b"\x00asm\x01\x00\x00\x00" as &[u8],
        // type section: 1 type, (i32) -> (i32)
        b"\x01\x06\x01\x60\x01\x7f\x01\x7f",
        // import section: "math"."double" type 0, "math"."negate" type 0
        b"\x02\x1d\x02\x04\x6d\x61\x74\x68\x06\x64\x6f\x75\x62\x6c\x65\x00\x00\x04\x6d\x61\x74\x68\x06\x6e\x65\x67\x61\x74\x65\x00\x00",
        // function section: 1 func, type 0
        b"\x03\x02\x01\x00",
        // export section: "double_negate" -> func 2
        b"\x07\x11\x01\x0d\x64\x6f\x75\x62\x6c\x65\x5f\x6e\x65\x67\x61\x74\x65\x00\x02",
        // code section: local.get 0, call 0, call 1, end
        b"\x0a\x0a\x01\x08\x00\x20\x00\x10\x00\x10\x01\x0b",
    ]
    .concat();

    let mut runtime = Runtime::default();
    let hosts: Vec<HostFn> = vec![
        Box::new(|args: &[Value]| {
                let x = args[0].as_i32().unwrap();
                Ok(vec![Value::I32(x * 2)])
            }),
        Box::new(|args: &[Value]| {
                let x = args[0].as_i32().unwrap();
                Ok(vec![Value::I32(-x)])
            }),
    ];

    runtime.register_host_fn(
        "math",
        "double",
        FuncType {
            params: vec![ValType::I32],
            results: vec![ValType::I32],
        },
        0,
    )?;

    runtime.register_host_fn(
        "math",
        "negate",
        FuncType {
            params: vec![ValType::I32],
            results: vec![ValType::I32],
        },
        1,
    )?;

    let mh = runtime.load_module(&bytes)?.0;

    let cases = [(5, -10), (0, 0), (-3, 6)];

    for (input, expected) in cases {
        let r = invoke(&mut runtime, &hosts, mh, "double_negate", &[Value::I32(input)])?;
        assert!(
            matches!(r.as_slice(), [Value::I32(v)] if *v == expected),
            "double_negate({input}): expected {expected}, got {r:?}",
        );
    }

    Ok(())
}


fn trap_of(r: Result<Vec<Value>, Error>) -> RuntimeErrorKind {
    match r {
        Err(Error::Trap(k)) => k,
        other => panic!("expected a trap, got {:?}", other),
    }
}

#[test]
fn test_invoke_unreachable_traps() {
    // (module (func (export "trap") unreachable))
    let bytes = b"\x00\x61\x73\x6d\x01\x00\x00\x00\x01\x04\x01\x60\x00\x00\x03\x02\x01\x00\x07\x08\x01\x04\x74\x72\x61\x70\x00\x00\x0a\x05\x01\x03\x00\x00\x0b";
    let mut runtime = Runtime::default();
    let mh = runtime.load_module(bytes).unwrap().0;
    let k = trap_of(invoke(&mut runtime, &[], mh, "trap", &[]));
    assert_eq!(k, RuntimeErrorKind::Trap(TrapErrorKind::Unreachable));
}

#[test]
fn test_invoke_division() {
    // (module (func (export "div") (param i32 i32) (result i32) local.get 0 local.get 1 i32.div_s))
    let bytes = b"\x00\x61\x73\x6d\x01\x00\x00\x00\x01\x07\x01\x60\x02\x7f\x7f\x01\x7f\x03\x02\x01\x00\x07\x07\x01\x03\x64\x69\x76\x00\x00\x0a\x09\x01\x07\x00\x20\x00\x20\x01\x6d\x0b";
    let mut runtime = Runtime::default();
    let mh = runtime.load_module(bytes).unwrap().0;
    let r = invoke(&mut runtime, &[], mh, "div", &[Value::I32(-7), Value::I32(2)]).unwrap();
    assert!(matches!(r.as_slice(), [Value::I32(-3)]));
    let k = trap_of(invoke(&mut runtime, &[], mh, "div", &[Value::I32(1), Value::I32(0)]));
    assert_eq!(k, RuntimeErrorKind::Trap(TrapErrorKind::DivisionByZero));
}

#[test]
fn test_invoke_load_out_of_bounds() {
    // (module (memory 1) (func (export "load") (param i32) (result i32) local.get 0 i32.load))
    let bytes = b"\x00\x61\x73\x6d\x01\x00\x00\x00\x01\x06\x01\x60\x01\x7f\x01\x7f\x03\x02\x01\x00\x05\x03\x01\x00\x01\x07\x08\x01\x04\x6c\x6f\x61\x64\x00\x00\x0a\x09\x01\x07\x00\x20\x00\x28\x02\x00\x0b";
    let mut runtime = Runtime::default();
    let mh = runtime.load_module(bytes).unwrap().0;
    let r = invoke(&mut runtime, &[], mh, "load", &[Value::I32(65532)]).unwrap();
    assert!(matches!(r.as_slice(), [Value::I32(0)]));
    let k = trap_of(invoke(&mut runtime, &[], mh, "load", &[Value::I32(65533)]));
    assert_eq!(k, RuntimeErrorKind::Trap(TrapErrorKind::OutOfBoundsMemoryAccess));
    let k = trap_of(invoke(&mut runtime, &[], mh, "load", &[Value::I32(-1)]));
    assert_eq!(k, RuntimeErrorKind::Trap(TrapErrorKind::OutOfBoundsMemoryAccess));
}

#[test]
fn test_invoke_call_indirect_traps() {
    // (module (type $r (func (result i32))) (type $t (func (param i32) (result i32)))
    //   (table 3 funcref) (elem (i32.const 0) func 0)
    //   (func (type $r) i32.const 7)
    //   (func (export "call") (type $t) local.get 0 call_indirect (type $r))
    //   (func (export "call_wrong") (type $t) local.get 0 local.get 0 call_indirect (type $t)))
    let bytes = b"\x00\x61\x73\x6d\x01\x00\x00\x00\x01\x0a\x02\x60\x00\x01\x7f\x60\x01\x7f\x01\x7f\x03\x04\x03\x00\x01\x01\x04\x04\x01\x70\x00\x03\x07\x15\x02\x04\x63\x61\x6c\x6c\x00\x01\x0a\x63\x61\x6c\x6c\x5f\x77\x72\x6f\x6e\x67\x00\x02\x09\x07\x01\x00\x41\x00\x0b\x01\x00\x0a\x18\x03\x04\x00\x41\x07\x0b\x07\x00\x20\x00\x11\x00\x00\x0b\x09\x00\x20\x00\x20\x00\x11\x01\x00\x0b";
    let mut runtime = Runtime::default();
    let mh = runtime.load_module(bytes).unwrap().0;
    let r = invoke(&mut runtime, &[], mh, "call", &[Value::I32(0)]).unwrap();
    assert!(matches!(r.as_slice(), [Value::I32(7)]));
    let k = trap_of(invoke(&mut runtime, &[], mh, "call", &[Value::I32(1)]));
    assert_eq!(k, RuntimeErrorKind::Trap(TrapErrorKind::UninitializedElement));
    let k = trap_of(invoke(&mut runtime, &[], mh, "call", &[Value::I32(5)]));
    assert_eq!(k, RuntimeErrorKind::Trap(TrapErrorKind::OutOfBoundsTableAccess));
    let k = trap_of(invoke(&mut runtime, &[], mh, "call_wrong", &[Value::I32(0)]));
    assert_eq!(k, RuntimeErrorKind::Trap(TrapErrorKind::IndirectCallTypeMismatch));
}

#[test]
fn test_float_instruction_handed_back() {
    // (module (func (export "fadd") (result f32) f32.const 1.5 f32.const 2.25 f32.add))
    let bytes = b"\x00\x61\x73\x6d\x01\x00\x00\x00\x01\x05\x01\x60\x00\x01\x7d\x03\x02\x01\x00\x07\x08\x01\x04\x66\x61\x64\x64\x00\x00\x0a\x0f\x01\x0d\x00\x43\x00\x00\xc0\x3f\x43\x00\x00\x10\x40\x92\x0b";
    let mut runtime = Runtime::default();
    let mh = runtime.load_module(bytes).unwrap().0;
    let (mut exec, mut step) = runtime.start_invoke(mh, "fadd", &[]).unwrap();
    let mut floats = 0;
    loop {
        match step {
            Step::Done => break,
            Step::Continue => {}
            Step::Float(i) => {
                floats += 1;
                assert!(matches!(i, wasmrs::instructions::Instruction::F32Add));
                let b = match exec.value_stack.pop() {
                    Some(Value::F32(x)) => f32::from_bits(x),
                    other => panic!("expected an f32, got {:?}", other),
                };
                let a = match exec.value_stack.pop() {
                    Some(Value::F32(x)) => f32::from_bits(x),
                    other => panic!("expected an f32, got {:?}", other),
                };
                exec.value_stack.push(Value::F32((a + b).to_bits()));
            }
            Step::Host(..) => panic!("no host function here"),
        }
        step = runtime.step(&mut exec.value_stack, &mut exec.call_stack).unwrap();
    }
    assert_eq!(floats, 1);
    let r = Runtime::finish_invoke(exec).unwrap();
    assert!(matches!(r.as_slice(), [Value::F32(x)] if f32::from_bits(*x) == 3.75));
}

#[test]
fn test_memory_grow_past_max_fails() {
    // (module (memory 1 2) (func (export "grow") (param i32) (result i32) local.get 0 memory.grow))
    let bytes = b"\x00\x61\x73\x6d\x01\x00\x00\x00\x01\x06\x01\x60\x01\x7f\x01\x7f\x03\x02\x01\x00\x05\x04\x01\x01\x01\x02\x07\x08\x01\x04\x67\x72\x6f\x77\x00\x00\x0a\x08\x01\x06\x00\x20\x00\x40\x00\x0b";
    let mut runtime = Runtime::default();
    let mh = runtime.load_module(bytes).unwrap().0;
    let r = invoke(&mut runtime, &[], mh, "grow", &[Value::I32(2)]).unwrap();
    assert!(matches!(r.as_slice(), [Value::I32(-1)]));
    assert_eq!(runtime.memory_pages(0), 1);
    let r = invoke(&mut runtime, &[], mh, "grow", &[Value::I32(1)]).unwrap();
    assert!(matches!(r.as_slice(), [Value::I32(1)]));
    assert_eq!(runtime.memory_pages(0), 2);
}

#[test]
fn test_narrow_store_and_signed_load() {
    // (module (memory 1)
    //   (func (export "s8") (param i32) (result i32) i32.const 0 local.get 0 i32.store8 i32.const 0 i32.load8_s)
    //   (func (export "u8") (param i32) (result i32) i32.const 0 local.get 0 i32.store8 i32.const 0 i32.load8_u))
    let bytes = b"\x00\x61\x73\x6d\x01\x00\x00\x00\x01\x0b\x02\x60\x01\x7f\x01\x7f\x60\x01\x7f\x01\x7f\x03\x03\x02\x00\x01\x05\x03\x01\x00\x01\x07\x0b\x02\x02\x73\x38\x00\x00\x02\x75\x38\x00\x01\x0a\x1f\x02\x0e\x00\x41\x00\x20\x00\x3a\x00\x00\x41\x00\x2c\x00\x00\x0b\x0e\x00\x41\x00\x20\x00\x3a\x00\x00\x41\x00\x2d\x00\x00\x0b";
    let mut runtime = Runtime::default();
    let mh = runtime.load_module(bytes).unwrap().0;
    let r = invoke(&mut runtime, &[], mh, "s8", &[Value::I32(0x1ff)]).unwrap();
    assert!(matches!(r.as_slice(), [Value::I32(-1)]));
    assert_eq!(runtime.memory_data(0)[0], 0xff);
    let r = invoke(&mut runtime, &[], mh, "u8", &[Value::I32(0x1ff)]).unwrap();
    assert!(matches!(r.as_slice(), [Value::I32(255)]));
}

#[test]
fn test_invoke_unknown_export() {
    let bytes = b"\x00\x61\x73\x6d\x01\x00\x00\x00\x01\x04\x01\x60\x00\x00\x03\x02\x01\x00\x07\x08\x01\x04\x74\x72\x61\x70\x00\x00\x0a\x05\x01\x03\x00\x00\x0b";
    let mut runtime = Runtime::default();
    let mh = runtime.load_module(bytes).unwrap().0;
    let k = trap_of(invoke(&mut runtime, &[], mh, "nothing", &[]));
    assert_eq!(k, RuntimeErrorKind::Internal("unknown export"));
}

#[test]
fn test_finish_invoke_checks_arity() {
    let exec = Execution { value_stack: vec![Value::I32(1), Value::I32(2)], call_stack: vec![], arity: 1 };
    let r = Runtime::finish_invoke(exec).unwrap();
    assert!(matches!(r.as_slice(), [Value::I32(2)]));
    let exec = Execution { value_stack: vec![], call_stack: vec![], arity: 1 };
    assert!(Runtime::finish_invoke(exec).is_err());
}

const ADD_WASM: &[u8] = b"\x00\x61\x73\x6d\x01\x00\x00\x00\x01\x07\x01\x60\x02\x7f\x7f\x01\x7f\x03\x02\x01\x00\x07\x07\x01\x03\x61\x64\x64\x00\x00\x0a\x09\x01\x07\x00\x20\x00\x20\x01\x6a\x0b";
const MUL_WASM: &[u8] = b"\x00\x61\x73\x6d\x01\x00\x00\x00\x01\x07\x01\x60\x02\x7f\x7f\x01\x7f\x03\x02\x01\x00\x07\x07\x01\x03\x6d\x75\x6c\x00\x00\x0a\x09\x01\x07\x00\x20\x00\x20\x01\x6c\x0b";
const DIV_S_WASM: &[u8] = b"\x00\x61\x73\x6d\x01\x00\x00\x00\x01\x07\x01\x60\x02\x7f\x7f\x01\x7f\x03\x02\x01\x00\x07\x07\x01\x03\x64\x69\x76\x00\x00\x0a\x09\x01\x07\x00\x20\x00\x20\x01\x6d\x0b";
// (func $fib (export "fib") (param i32) (result i32)
//   (if (result i32) (i32.lt_s (local.get 0) (i32.const 2))
//     (then (local.get 0))
//     (else (i32.add (call $fib (i32.sub (local.get 0) (i32.const 1)))
//                    (call $fib (i32.sub (local.get 0) (i32.const 2)))))))
const FIB_WASM: &[u8] = b"\x00\x61\x73\x6d\x01\x00\x00\x00\x01\x06\x01\x60\x01\x7f\x01\x7f\x03\x02\x01\x00\x07\x07\x01\x03\x66\x69\x62\x00\x00\x0a\x1e\x01\x1c\x00\x20\x00\x41\x02\x48\x04\x7f\x20\x00\x05\x20\x00\x41\x01\x6b\x10\x00\x20\x00\x41\x02\x6b\x10\x00\x6a\x0b\x0b";

#[test]
fn test_add_wasm() -> Result<(), Error> {
    let mut runtime = Runtime::default();
    let mh = runtime.load_module(ADD_WASM)?.0;

    let cases = [
        // (a + b = c)
        (1, 2, 3),
        (2, 2, 4),
        (-2, 2, 0),
        // wrap-around
        (0x7fffffff, 1, 0x80000000u32 as i32),
        (0x80000000u32 as i32, -1, 0x7fffffff),
        (0x80000000u32 as i32, 0x80000000u32 as i32, 0),
        (0x3fffffff, 1, 0x40000000),
    ];

    for (a, b, c) in cases {
        let r = invoke(&mut runtime, &[], mh, "add", &[Value::I32(a), Value::I32(b)])?;

        assert_eq!(r.len(), 1);
        match r[0] {
            Value::I32(v) => assert_eq!(v, c, "{} + {} = {}", a, b, c),
            _ => panic!(),
        }
    }

    Ok(())
}

#[test]
fn test_fib_wasm() -> Result<(), Error> {
    let mut runtime = Runtime::default();
    let mh = runtime.load_module(FIB_WASM)?.0;

    let cases = [
        // fib(a) = b
        (0, 0),
        (1, 1),
        (7, 13),
        (10, 55),
        (20, 6765),
    ];

    for (a, b) in cases {
        let r = invoke(&mut runtime, &[], mh, "fib", &[Value::I32(a)])?;

        assert_eq!(r.len(), 1);
        match r[0] {
            Value::I32(v) => assert_eq!(v, b, "F({}) = {}", a, b),
            _ => panic!(),
        }
    }

    Ok(())
}

#[test]
fn test_mul_wasm() -> Result<(), Error> {
    let mut runtime = Runtime::default();
    let mh = runtime.load_module(MUL_WASM)?.0;

    let cases = [
        // (a * b = c)
        (1, 2, 2),
        (2, 2, 4),
        (-2, 2, -4),
    ];

    for (a, b, c) in cases {
        let r = invoke(&mut runtime, &[], mh, "mul", &[Value::I32(a), Value::I32(b)])?;

        assert_eq!(r.len(), 1);
        match r[0] {
            Value::I32(v) => assert_eq!(v, c, "{} * {} = {}", a, b, c),
            _ => panic!(),
        }
    }

    Ok(())
}

#[test]
fn test_divs_wasm() -> Result<(), Error> {
    let mut runtime = Runtime::default();
    let mh = runtime.load_module(DIV_S_WASM)?.0;

    let cases = [
        // (a / b = c)
        (1, 1, 1),
        (0, 1, 0),
        (0, -1, 0),
        (-1, -1, 1),
        (0x80000000u32 as i32, 2, 0xc0000000u32 as i32),
        (0x80000001u32 as i32, 1000, 0xffdf3b65u32 as i32),
    ];

    for (a, b, c) in cases {
        let r = invoke(&mut runtime, &[], mh, "div", &[Value::I32(a), Value::I32(b)])?;

        assert_eq!(r.len(), 1);
        match r[0] {
            Value::I32(v) => assert_eq!(v, c, "{} / {} = {}", a, b, c),
            _ => panic!(),
        }
    }

    Ok(())
}

#[test]
fn test_divs_wasm_trap() -> Result<(), Error> {
    let mut runtime = Runtime::default();
    let mh = runtime.load_module(DIV_S_WASM)?.0;

    let cases = [
        // (a / b)
        (1, 0),
        (0, 0),
        (0x80000000u32 as i32, -1),
        (0x80000000u32 as i32, 0),
    ];

    for (a, b) in cases {
        let r = invoke(&mut runtime, &[], mh, "div", &[Value::I32(a), Value::I32(b)]);

        assert!(matches!(r, Err(Error::Trap(RuntimeErrorKind::Trap(_)))));
    }

    Ok(())
}

#[test]
fn test_start_function_runs_after_load() {
    // (module (global (export "g") (mut i32) (i32.const 0))
    //   (func $s i32.const 5 global.set 0) (start $s))
    let bytes = b"\x00\x61\x73\x6d\x01\x00\x00\x00\x01\x04\x01\x60\x00\x00\x03\x02\x01\x00\x06\x06\x01\x7f\x01\x41\x00\x0b\x07\x05\x01\x01\x67\x03\x00\x08\x01\x00\x0a\x08\x01\x06\x00\x41\x05\x24\x00\x0b";
    let mut runtime = Runtime::default();
    let (mh, start) = runtime.load_module(bytes).unwrap();
    assert!(matches!(runtime.get_global_value(mh, "g"), Some(Value::I32(0))));
    let start = start.expect("the module has a start function");
    let (mut exec, mut step) = runtime.begin_call(start, &[]);
    loop {
        match step {
            Step::Done => break,
            Step::Continue => {}
            _ => panic!("nothing to hand back here"),
        }
        step = runtime.step(&mut exec.value_stack, &mut exec.call_stack).unwrap();
    }
    assert!(Runtime::finish_invoke(exec).unwrap().is_empty());
    assert!(matches!(runtime.get_global_value(mh, "g"), Some(Value::I32(5))));
}
