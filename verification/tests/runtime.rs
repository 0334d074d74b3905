use wasmrs::Error;
use wasmrs::binary::sections::global::{GlobalType, MutabilityFlag};
use wasmrs::binary::sections::memory::MemType;
use wasmrs::binary::sections::table::TableType;
use wasmrs::binary::types::{FuncType, Limit, RefType, ValType};
use wasmrs::runtime::value::{Ref, Value};
use wasmrs::runtime::{Runtime, UnlinkableError};

#[test]
fn test_import_func_type_mismatch_params() {
    // (module (import "env" "f" (func (param i32) (result i32))))
    let bytes = [
        b"\x00asm\x01\x00\x00\x00" as &[u8],
        // type section: 1 type, (i32) -> (i32)
        b"\x01\x06\x01\x60\x01\x7f\x01\x7f",
        // import section: "env"."f" -> func type 0
        b"\x02\x09\x01\x03\x65\x6e\x76\x01\x66\x00\x00",
    ]
    .concat();

    let mut runtime = Runtime::default();
    runtime.register_host_fn(
        "env",
        "f",
        FuncType {
            params: vec![ValType::I64],
            results: vec![ValType::I32],
        },
        0,
    ).unwrap();

    let r = runtime.load_module(&bytes);
    assert!(
        matches!(
            r,
            Err(Error::Unlinkable(UnlinkableError::IncompatibleImportType))
        ),
        "expected IncompatibleImportType, got {r:?}",
    );
}

#[test]
fn test_import_func_type_mismatch_results() {
    // (module (import "env" "f" (func (param i32) (result i32))))
    let bytes = [
        b"\x00asm\x01\x00\x00\x00" as &[u8],
        // type section: 1 type, (i32) -> (i32)
        b"\x01\x06\x01\x60\x01\x7f\x01\x7f",
        // import section: "env"."f" -> func type 0
        b"\x02\x09\x01\x03\x65\x6e\x76\x01\x66\x00\x00",
    ]
    .concat();

    let mut runtime = Runtime::default();
    runtime.register_host_fn(
        "env",
        "f",
        FuncType {
            params: vec![ValType::I32],
            results: vec![ValType::I64],
        },
        0,
    ).unwrap();

    let r = runtime.load_module(&bytes);
    assert!(
        matches!(
            r,
            Err(Error::Unlinkable(UnlinkableError::IncompatibleImportType))
        ),
        "expected IncompatibleImportType, got {r:?}",
    );
}

#[test]
fn test_import_func_kind_mismatch() {
    // (module (import "env" "x" (func (result i32))))
    let bytes = [
        b"\x00asm\x01\x00\x00\x00" as &[u8],
        // type section: 1 type, () -> (i32)
        b"\x01\x05\x01\x60\x00\x01\x7f",
        // import section: "env"."x" -> func type 0
        b"\x02\x09\x01\x03\x65\x6e\x76\x01\x78\x00\x00",
    ]
    .concat();

    let mut runtime = Runtime::default();
    runtime.register_host_global(
        "env",
        "x",
        GlobalType {
            type_: ValType::I32,
            mutflag: MutabilityFlag::Const,
        },
        Value::I32(0),
    ).unwrap();

    let r = runtime.load_module(&bytes);
    assert!(
        matches!(
            r,
            Err(Error::Unlinkable(UnlinkableError::IncompatibleImportType))
        ),
        "expected IncompatibleImportType, got {r:?}",
    );
}

#[test]
fn test_import_table_elemtype_mismatch() {
    // (module (import "env" "t" (table 1 funcref)))
    let bytes = [
        b"\x00asm\x01\x00\x00\x00" as &[u8],
        // import section: "env"."t" -> table funcref, {min: 1}
        b"\x02\x0b\x01\x03\x65\x6e\x76\x01\x74\x01\x70\x00\x01",
    ]
    .concat();

    let mut runtime = Runtime::default();
    runtime.register_host_table(
        "env",
        "t",
        TableType {
            elemtype: RefType::Extern,
            limit: Limit { min: 1, max: None },
        },
        Ref::Null(RefType::Extern),
    ).unwrap();

    let r = runtime.load_module(&bytes);
    assert!(
        matches!(
            r,
            Err(Error::Unlinkable(UnlinkableError::IncompatibleImportType))
        ),
        "expected IncompatibleImportType, got {r:?}",
    );
}

#[test]
fn test_import_table_min_too_small() {
    // (module (import "env" "t" (table 5 funcref)))
    let bytes = [
        b"\x00asm\x01\x00\x00\x00" as &[u8],
        // import section: "env"."t" -> table funcref, {min: 5}
        b"\x02\x0b\x01\x03\x65\x6e\x76\x01\x74\x01\x70\x00\x05",
    ]
    .concat();

    let mut runtime = Runtime::default();
    runtime.register_host_table(
        "env",
        "t",
        TableType {
            elemtype: RefType::Func,
            limit: Limit { min: 2, max: None },
        },
        Ref::Null(RefType::Func),
    ).unwrap();

    let r = runtime.load_module(&bytes);
    assert!(
        matches!(
            r,
            Err(Error::Unlinkable(UnlinkableError::IncompatibleImportType))
        ),
        "expected IncompatibleImportType, got {r:?}",
    );
}

#[test]
fn test_import_table_max_required_but_absent() {
    // (module (import "env" "t" (table 1 10 funcref)))
    let bytes = [
        b"\x00asm\x01\x00\x00\x00" as &[u8],
        // import section: "env"."t" -> table funcref, {min: 1, max: 10}
        b"\x02\x0c\x01\x03\x65\x6e\x76\x01\x74\x01\x70\x01\x01\x0a",
    ]
    .concat();

    let mut runtime = Runtime::default();
    runtime.register_host_table(
        "env",
        "t",
        TableType {
            elemtype: RefType::Func,
            limit: Limit { min: 1, max: None },
        },
        Ref::Null(RefType::Func),
    ).unwrap();

    let r = runtime.load_module(&bytes);
    assert!(
        matches!(
            r,
            Err(Error::Unlinkable(UnlinkableError::IncompatibleImportType))
        ),
        "expected IncompatibleImportType, got {r:?}",
    );
}

#[test]
fn test_import_table_max_too_large() {
    // (module (import "env" "t" (table 1 5 funcref)))
    let bytes = [
        b"\x00asm\x01\x00\x00\x00" as &[u8],
        // import section: "env"."t" -> table funcref, {min: 1, max: 5}
        b"\x02\x0c\x01\x03\x65\x6e\x76\x01\x74\x01\x70\x01\x01\x05",
    ]
    .concat();

    let mut runtime = Runtime::default();
    runtime.register_host_table(
        "env",
        "t",
        TableType {
            elemtype: RefType::Func,
            limit: Limit {
                min: 1,
                max: Some(10),
            },
        },
        Ref::Null(RefType::Func),
    ).unwrap();

    let r = runtime.load_module(&bytes);
    assert!(
        matches!(
            r,
            Err(Error::Unlinkable(UnlinkableError::IncompatibleImportType))
        ),
        "expected IncompatibleImportType, got {r:?}",
    );
}

#[test]
fn test_import_memory_min_too_small() {
    // (module (import "env" "m" (memory 4)))
    let bytes = [
        b"\x00asm\x01\x00\x00\x00" as &[u8],
        // import section: "env"."m" -> memory {min: 4}
        b"\x02\x0a\x01\x03\x65\x6e\x76\x01\x6d\x02\x00\x04",
    ]
    .concat();

    let mut runtime = Runtime::default();
    runtime.register_host_memory("env", "m", MemType(Limit { min: 1, max: None })).unwrap();

    let r = runtime.load_module(&bytes);
    assert!(
        matches!(
            r,
            Err(Error::Unlinkable(UnlinkableError::IncompatibleImportType))
        ),
        "expected IncompatibleImportType, got {r:?}",
    );
}

#[test]
fn test_import_memory_max_required_but_absent() {
    // (module (import "env" "m" (memory 1 8)))
    let bytes = [
        b"\x00asm\x01\x00\x00\x00" as &[u8],
        // import section: "env"."m" -> memory {min: 1, max: 8}
        b"\x02\x0b\x01\x03\x65\x6e\x76\x01\x6d\x02\x01\x01\x08",
    ]
    .concat();

    let mut runtime = Runtime::default();
    runtime.register_host_memory("env", "m", MemType(Limit { min: 1, max: None })).unwrap();

    let r = runtime.load_module(&bytes);
    assert!(
        matches!(
            r,
            Err(Error::Unlinkable(UnlinkableError::IncompatibleImportType))
        ),
        "expected IncompatibleImportType, got {r:?}",
    );
}

#[test]
fn test_import_memory_max_too_large() {
    // (module (import "env" "m" (memory 1 4)))
    let bytes = [
        b"\x00asm\x01\x00\x00\x00" as &[u8],
        // import section: "env"."m" -> memory {min: 1, max: 4}
        b"\x02\x0b\x01\x03\x65\x6e\x76\x01\x6d\x02\x01\x01\x04",
    ]
    .concat();

    let mut runtime = Runtime::default();
    runtime.register_host_memory(
        "env",
        "m",
        MemType(Limit {
            min: 1,
            max: Some(8),
        }),
    ).unwrap();

    let r = runtime.load_module(&bytes);
    assert!(
        matches!(
            r,
            Err(Error::Unlinkable(UnlinkableError::IncompatibleImportType))
        ),
        "expected IncompatibleImportType, got {r:?}",
    );
}

#[test]
fn test_import_global_type_mismatch() {
    // (module (import "env" "g" (global i32)))
    let bytes = [
        b"\x00asm\x01\x00\x00\x00" as &[u8],
        // import section: "env"."g" -> global i32 const
        b"\x02\x0a\x01\x03\x65\x6e\x76\x01\x67\x03\x7f\x00",
    ]
    .concat();

    let mut runtime = Runtime::default();
    runtime.register_host_global(
        "env",
        "g",
        GlobalType {
            type_: ValType::I64,
            mutflag: MutabilityFlag::Const,
        },
        Value::I64(0),
    ).unwrap();

    let r = runtime.load_module(&bytes);
    assert!(
        matches!(
            r,
            Err(Error::Unlinkable(UnlinkableError::IncompatibleImportType))
        ),
        "expected IncompatibleImportType, got {r:?}",
    );
}

#[test]
fn test_import_global_mut_mismatch() {
    // (module (import "env" "g" (global (mut i32))))
    let bytes = [
        b"\x00asm\x01\x00\x00\x00" as &[u8],
        // import section: "env"."g" -> global i32 var
        b"\x02\x0a\x01\x03\x65\x6e\x76\x01\x67\x03\x7f\x01",
    ]
    .concat();

    let mut runtime = Runtime::default();
    runtime.register_host_global(
        "env",
        "g",
        GlobalType {
            type_: ValType::I32,
            mutflag: MutabilityFlag::Const,
        },
        Value::I32(0),
    ).unwrap();

    let r = runtime.load_module(&bytes);
    assert!(
        matches!(
            r,
            Err(Error::Unlinkable(UnlinkableError::IncompatibleImportType))
        ),
        "expected IncompatibleImportType, got {r:?}",
    );
}

#[test]
fn test_import_table_wider_min_ok() {
    // (module (import "env" "t" (table 1 funcref)))
    let bytes = [
        b"\x00asm\x01\x00\x00\x00" as &[u8],
        // import section: "env"."t" -> table funcref, {min: 1}
        b"\x02\x0b\x01\x03\x65\x6e\x76\x01\x74\x01\x70\x00\x01",
    ]
    .concat();

    let mut runtime = Runtime::default();
    runtime.register_host_table(
        "env",
        "t",
        TableType {
            elemtype: RefType::Func,
            limit: Limit { min: 4, max: None },
        },
        Ref::Null(RefType::Func),
    ).unwrap();
    runtime.load_module(&bytes).expect("the import links");
}

/// A module with a memory and a data segment, a global exported as "g",
/// a table and an element segment, and its memory exported as "mem".
fn sample_module() -> Vec<u8> {
    [
        b"\x00asm\x01\x00\x00\x00" as &[u8],
        b"\x01\x04\x01\x60\x00\x00",
        b"\x03\x02\x01\x00",
        b"\x04\x04\x01\x70\x00\x03",
        b"\x05\x03\x01\x00\x01",
        b"\x06\x06\x01\x7f\x00\x41\x2a\x0b",
        b"\x07\x0b\x02\x01\x67\x03\x00\x03\x6d\x65\x6d\x02\x00",
        b"\x09\x07\x01\x00\x41\x01\x0b\x01\x00",
        b"\x0a\x04\x01\x02\x00\x0b",
        b"\x0b\x09\x01\x00\x41\x02\x0b\x03\x01\x02\x03",
    ]
    .concat()
}

#[test]
fn test_instantiate_initializes_memory_table_and_globals() {
    let mut runtime = Runtime::default();
    let (mh, start) = runtime.load_module(&sample_module()).expect("the module instantiates");
    assert!(start.is_none());
    assert!(matches!(runtime.get_global_value(mh, "g"), Some(Value::I32(42))));
    assert!(runtime.get_global_value(mh, "mem").is_none());
    assert!(runtime.get_global_value(mh, "missing").is_none());
    assert_eq!(runtime.memory_pages(0), 1);
    let data = runtime.memory_data(0);
    assert_eq!(data.len(), 65536);
    assert_eq!(&data[0..6], &[0, 0, 1, 2, 3, 0]);
    let table = &runtime.store.tables.0[0];
    assert_eq!(table.refs.len(), 3);
    assert!(matches!(table.refs[0], Ref::Null(RefType::Func)));
    assert!(matches!(table.refs[1], Ref::Func(a) if a.0 == 0));
    assert!(matches!(table.refs[2], Ref::Null(RefType::Func)));
}

#[test]
fn test_instantiate_data_out_of_bounds_traps() {
    let bytes = [
        b"\x00asm\x01\x00\x00\x00" as &[u8],
        b"\x05\x03\x01\x00\x01",
        // data at offset 65535, three bytes: past the end of one page
        b"\x0b\x0b\x01\x00\x41\xff\xff\x03\x0b\x03\x01\x02\x03",
    ]
    .concat();
    let mut runtime = Runtime::default();
    let r = runtime.load_module(&bytes);
    assert!(matches!(
        r,
        Err(Error::Trap(wasmrs::runtime::RuntimeErrorKind::Trap(
            wasmrs::runtime::TrapErrorKind::OutOfBoundsMemoryAccess
        )))
    ));
}

#[test]
fn test_import_unknown_module() {
    // (module (import "env" "g" (global i32)))
    let bytes = [
        b"\x00asm\x01\x00\x00\x00" as &[u8],
        b"\x02\x0a\x01\x03\x65\x6e\x76\x01\x67\x03\x7f\x00",
    ]
    .concat();
    let mut runtime = Runtime::default();
    let r = runtime.load_module(&bytes);
    assert!(matches!(r, Err(Error::Unlinkable(UnlinkableError::UnknownImport))));
}

#[test]
fn test_import_from_registered_module() {
    let mut runtime = Runtime::default();
    let (a, _) = runtime.load_module(&sample_module()).expect("the module instantiates");
    runtime.register_module("a".to_string(), a).unwrap();
    // (module (import "a" "g" (global i32)) (export "h" (global 0)))
    let bytes = [
        b"\x00asm\x01\x00\x00\x00" as &[u8],
        b"\x02\x08\x01\x01\x61\x01\x67\x03\x7f\x00",
        b"\x07\x05\x01\x01\x68\x03\x00",
    ]
    .concat();
    let (b, _) = runtime.load_module(&bytes).expect("the import links");
    assert!(matches!(runtime.get_global_value(b, "h"), Some(Value::I32(42))));
}

#[test]
fn test_host_global_is_exported() {
    let mut runtime = Runtime::default();
    let mh = runtime
        .register_host_global(
            "env",
            "g",
            GlobalType { type_: ValType::I64, mutflag: MutabilityFlag::Var },
            Value::I64(-7),
        )
        .unwrap();
    let mh2 = runtime
        .register_host_memory("env", "m", MemType(Limit { min: 2, max: None }))
        .unwrap();
    assert_eq!(mh, mh2);
    assert!(matches!(runtime.get_global_value(mh, "g"), Some(Value::I64(-7))));
    assert!(runtime.get_global_value(mh, "m").is_none());
    assert_eq!(runtime.memory_pages(0), 2);
}

#[test]
fn test_limit_matches() {
    let l = |min, max| Limit { min, max };
    assert!(l(2, None).matches(&l(1, None)));
    assert!(!l(1, None).matches(&l(2, None)));
    assert!(l(1, Some(5)).matches(&l(1, Some(5))));
    assert!(!l(1, None).matches(&l(1, Some(5))));
    assert!(!l(1, Some(6)).matches(&l(1, Some(5))));
    assert!(l(3, Some(4)).matches(&l(1, None)));
}
