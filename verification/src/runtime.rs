//! The runtime's store, module registry and errors.
use vstd::prelude::*;
use vstd::string::*;

pub mod executor;
pub mod instance;
pub mod machine;
pub mod numeric;
pub mod semantics;
pub mod stack;
pub mod store;
pub mod value;
pub mod control;

use crate::binary::module::{Module, ModuleV, count_imports, desc_is, imported_count};
use crate::binary::sections::import::ImportDescType;
use crate::binary::reader::vec_view;
use crate::binary::sections::code::CodeEntryV;
use crate::binary::sections::global::GlobalEntryV;
use crate::binary::sections::table::TableEntryV;
use crate::binary::sections::element::{
    ElementSegmentItems, ElementSegmentItemsV, ElementSegmentMode, ElementSegmentModeV, ElementSegmentV,
    spec_items_reftype,
};
use crate::binary::types::{FuncIndex, RefType};
use crate::runtime::value::spec_is_ref_type;
use crate::runtime::store::{DataAddr, ElemAddr, GlobalInstance};
use crate::binary::sections::export::{ExportEntryV, ExportKind};
use crate::binary::sections::data::{DataSegmentMode, DataSegmentModeV, DataSegmentV};
use crate::instructions::{InstrV, Instruction};
use crate::binary::sections::global::GlobalType;
use crate::binary::sections::import::{ImportDesc, ImportEntryV};
use crate::binary::sections::memory::MemType;
use crate::binary::sections::table::TableType;
use crate::binary::types::{ConstExpression, DataIdx, ElemIdx, FuncType, FuncTypeV, GlobalIdx, Limit, MemIndex, TableIdx};
use crate::runtime::instance::{InstanceV, ModuleEntry, ModuleHandle, ModuleInstance, ModuleRegistry, entry_exports};
use crate::runtime::store::{
    DataInstance, ElemInstance, FuncAddr, GlobalAddr, MemAddr, MemoryInstance, Store, TableAddr, TableInstance,
    initial_memory, overwrite, spec_mem_size,
};
use crate::runtime::value::{ExternVal, Ref, Value};
use crate::Error;
use crate::binary::module::{decode_bytes, spec_decode_bytes};
use crate::validation::{Outcome, spec_validate_module};

verus! {

/// The size of a page of linear memory.
pub const WASM_MEM_PAGE_BYTE_SIZE: usize = 0x1_0000;

/// Unlinkable Error
#[derive(Debug, Clone, Copy, PartialEq, Eq, Structural)]
#[non_exhaustive]
pub enum UnlinkableError {
    UnknownImport,
    IncompatibleImportType,
}

impl UnlinkableError {
    /// The text of this error.
    pub open spec fn message(&self) -> Seq<char> {
        match self {
            UnlinkableError::UnknownImport => "unknown import"@,
            UnlinkableError::IncompatibleImportType => "incompatible import type"@,
        }
    }

    /// Renders the error as text.
    pub fn to_string(&self) -> (s: String)
        ensures
            s@ == self.message(),
    {
        match self {
            UnlinkableError::UnknownImport => String::from_str("unknown import"),
            UnlinkableError::IncompatibleImportType => String::from_str("incompatible import type"),
        }
    }
}

#[derive(Debug, Clone, Copy, PartialEq, Eq)]
#[non_exhaustive]
pub enum RuntimeErrorKind {
    Trap(TrapErrorKind),
    Internal(&'static str),
}

impl RuntimeErrorKind {
    /// The message of this error.
    pub open spec fn message(&self) -> Seq<char> {
        match self {
            RuntimeErrorKind::Trap(kind) => "trap: "@ + kind.message(),
            RuntimeErrorKind::Internal(msg) => "internal: "@ + msg@,
        }
    }

    /// Renders the error as text.
    pub fn to_string(&self) -> (s: String)
        ensures
            s@ == self.message(),
    {
        match self {
            RuntimeErrorKind::Trap(kind) => String::from_str("trap: ").concat(
                kind.to_string().as_str(),
            ),
            RuntimeErrorKind::Internal(msg) => String::from_str("internal: ").concat(msg),
        }
    }
}

impl From<TrapErrorKind> for RuntimeErrorKind {
    fn from(value: TrapErrorKind) -> Self {
        RuntimeErrorKind::Trap(value)
    }
}

impl vstd::std_specs::convert::FromSpecImpl<TrapErrorKind> for RuntimeErrorKind {
    open spec fn obeys_from_spec() -> bool {
        true
    }

    open spec fn from_spec(v: TrapErrorKind) -> RuntimeErrorKind {
        RuntimeErrorKind::Trap(v)
    }
}

#[derive(Debug, Clone, Copy, PartialEq, Eq, Structural)]
#[non_exhaustive]
pub enum TrapErrorKind {
    Unreachable,
    DivisionByZero,
    CallStackExhausted,
    OutOfBoundsMemoryAccess,
    OutOfBoundsTableAccess,
    IndirectCallTypeMismatch,
    UninitializedElement,
}

impl TrapErrorKind {
    /// The text of this error.
    pub open spec fn message(&self) -> Seq<char> {
        match self {
            TrapErrorKind::Unreachable => "unreachable"@,
            TrapErrorKind::DivisionByZero => "division by zero"@,
            TrapErrorKind::CallStackExhausted => "call stack exhausted"@,
            TrapErrorKind::OutOfBoundsMemoryAccess => "out of bounds memory access"@,
            TrapErrorKind::OutOfBoundsTableAccess => "out of bounds table access"@,
            TrapErrorKind::IndirectCallTypeMismatch => "indirect call type mismatch"@,
            TrapErrorKind::UninitializedElement => "uninitialized element"@,
        }
    }

    /// Renders the error as text.
    pub fn to_string(&self) -> (s: String)
        ensures
            s@ == self.message(),
    {
        match self {
            TrapErrorKind::Unreachable => String::from_str("unreachable"),
            TrapErrorKind::DivisionByZero => String::from_str("division by zero"),
            TrapErrorKind::CallStackExhausted => String::from_str("call stack exhausted"),
            TrapErrorKind::OutOfBoundsMemoryAccess => String::from_str("out of bounds memory access"),
            TrapErrorKind::OutOfBoundsTableAccess => String::from_str("out of bounds table access"),
            TrapErrorKind::IndirectCallTypeMismatch => String::from_str("indirect call type mismatch"),
            TrapErrorKind::UninitializedElement => String::from_str("uninitialized element"),
        }
    }
}

#[derive(Debug, Clone, Copy, PartialEq, Eq, Structural)]
#[non_exhaustive]
pub enum InternalErrorKind {
    ValueStackUnderflow,
    CallStackUnderflow,
}

impl InternalErrorKind {
    /// The text of this error.
    pub open spec fn message(&self) -> Seq<char> {
        match self {
            InternalErrorKind::ValueStackUnderflow => "value stack underflow"@,
            InternalErrorKind::CallStackUnderflow => "call stack underflow"@,
        }
    }

    /// Renders the error as text.
    pub fn to_string(&self) -> (s: String)
        ensures
            s@ == self.message(),
    {
        match self {
            InternalErrorKind::ValueStackUnderflow => String::from_str("value stack underflow"),
            InternalErrorKind::CallStackUnderflow => String::from_str("call stack underflow"),
        }
    }
}


/// Whether an external value is the address of something in the store.
pub open spec fn extern_in_store(store: &Store, ev: ExternVal) -> bool {
    match ev {
        ExternVal::Func(a) => a.0 < store.functions.spec_funcs().len(),
        ExternVal::Table(i) => i < store.tables.0@.len(),
        ExternVal::Mem(i) => i < store.memories.0@.len(),
        ExternVal::Global(i) => i < store.globals.0@.len(),
    }
}

/// Whether the exports of a module are in the store.
pub open spec fn exports_in_store(store: &Store, exports: Map<Seq<char>, ExternVal>) -> bool {
    forall|n: Seq<char>| #[trigger] exports.contains_key(n) ==> extern_in_store(store, exports[n])
}

/// Whether every address of a module instance is in the store.
pub open spec fn instance_in_store(store: &Store, mi: &ModuleInstance) -> bool {
    &&& forall|i: int| 0 <= i < mi.funcs@.len() ==> (#[trigger] mi.funcs@[i]).0 < store.functions.spec_funcs().len()
    &&& forall|i: int| 0 <= i < mi.tables@.len() ==> (#[trigger] mi.tables@[i]).0 < store.tables.0@.len()
    &&& forall|i: int| 0 <= i < mi.mems@.len() ==> (#[trigger] mi.mems@[i]).0 < store.memories.0@.len()
    &&& forall|i: int| 0 <= i < mi.globals@.len() ==> (#[trigger] mi.globals@[i]).0 < store.globals.0@.len()
    &&& forall|i: int| 0 <= i < mi.elems@.len() ==> (#[trigger] mi.elems@[i]).0 < store.elements.0@.len()
    &&& forall|i: int| 0 <= i < mi.datas@.len() ==> (#[trigger] mi.datas@[i]).0 < store.data.0@.len()
    &&& exports_in_store(store, mi.exports@)
}

/// Whether every address of a registry entry is in the store.
pub open spec fn entry_in_store(store: &Store, e: ModuleEntry) -> bool {
    match e {
        ModuleEntry::Wasm(mi) => instance_in_store(store, &mi),
        ModuleEntry::Host(h) => exports_in_store(store, h.exports@),
    }
}

/// Whether a store holds at least what another holds: each kind of thing as many or more.
pub open spec fn store_grows(before: &Store, after: &Store) -> bool {
    &&& before.functions.spec_funcs().len() <= after.functions.spec_funcs().len()
    &&& before.tables.0@.len() <= after.tables.0@.len()
    &&& before.memories.0@.len() <= after.memories.0@.len()
    &&& before.globals.0@.len() <= after.globals.0@.len()
    &&& before.elements.0@.len() <= after.elements.0@.len()
    &&& before.data.0@.len() <= after.data.0@.len()
}

/// What is in a store stays in a store that grew from it.
pub proof fn lemma_entry_in_grown_store(before: &Store, after: &Store, e: ModuleEntry)
    requires
        entry_in_store(before, e),
        store_grows(before, after),
    ensures
        entry_in_store(after, e),
{
    match e {
        ModuleEntry::Wasm(mi) => {
            assert forall|n: Seq<char>| #[trigger] mi.exports@.contains_key(n) implies extern_in_store(after, mi.exports@[n]) by {
                assert(extern_in_store(before, mi.exports@[n]));
            }
        },
        ModuleEntry::Host(h) => {
            assert forall|n: Seq<char>| #[trigger] h.exports@.contains_key(n) implies extern_in_store(after, h.exports@[n]) by {
                assert(extern_in_store(before, h.exports@[n]));
            }
        },
    }
}

/// A runtime: the store, and the registry of the modules instantiated or
/// given by the host.
#[derive(Debug)]
pub struct Runtime {
    pub store: Store,
    pub module_registry: ModuleRegistry,
}

impl Default for Runtime {
    fn default() -> (r: Self)
        ensures
            r.wf(),
            r.module_registry.spec_entries().len() == 0,
            r.module_registry.spec_names() == Map::<Seq<char>, ModuleHandle>::empty(),
    {
        Runtime { store: Store::default(), module_registry: ModuleRegistry::default() }
    }
}

impl Runtime {
    /// The runtime is consistent: every registered name refers to a module,
    /// every address that a module holds is in the store, and every table
    /// has a length that fits a `u32`.
    pub open spec fn wf(&self) -> bool {
        &&& self.module_registry.names_resolved()
        &&& forall|i: int|
            0 <= i < self.module_registry.spec_entries().len() && (#[trigger] self.module_registry.spec_entries()[i]) is Some
                ==> entry_in_store(&self.store, self.module_registry.spec_entries()[i]->Some_0)
        &&& forall|i: int| 0 <= i < self.store.tables.0@.len() ==> (#[trigger] self.store.tables.0@[i]).refs@.len() <= u32::MAX
    }

    /// The value of a global of a module instance.
    pub fn global_get(
        globals: &crate::runtime::store::Globals,
        module_inst: &ModuleInstance,
        idx: GlobalIdx,
    ) -> (r: Result<Value, RuntimeErrorKind>)
        requires
            forall|i: int| 0 <= i < module_inst.globals@.len() ==> (#[trigger] module_inst.globals@[i]).0 < globals.0@.len(),
        ensures
            match r {
                Ok(v) => idx < module_inst.globals@.len() && v == globals.0@[module_inst.globals@[idx as int].0 as int].value,
                Err(e) => idx >= module_inst.globals@.len() && e == RuntimeErrorKind::Internal("undefined global"),
            },
    {
        if idx as usize >= module_inst.globals.len() {
            return Err(RuntimeErrorKind::Internal("undefined global"));
        }
        let a = module_inst.globals[idx as usize];
        let g = globals.get(a);
        Ok(g.value)
    }

    /// Sets the value of a global of a module instance.
    pub fn global_set(
        globals: &mut crate::runtime::store::Globals,
        module_inst: &ModuleInstance,
        idx: GlobalIdx,
        val: Value,
    ) -> (r: Result<(), RuntimeErrorKind>)
        requires
            forall|i: int| 0 <= i < module_inst.globals@.len() ==> (#[trigger] module_inst.globals@[i]).0 < old(globals).0@.len(),
        ensures
            match r {
                Ok(_) => idx < module_inst.globals@.len() && {
                    let a = module_inst.globals@[idx as int].0 as int;
                    final(globals).0@ == old(globals).0@.update(
                        a,
                        crate::runtime::store::GlobalInstance { globaltype: old(globals).0@[a].globaltype, value: val },
                    )
                },
                Err(e) => idx >= module_inst.globals@.len() && e == RuntimeErrorKind::Internal("undefined global")
                    && final(globals).0@ == old(globals).0@,
            },
    {
        if idx as usize >= module_inst.globals.len() {
            return Err(RuntimeErrorKind::Internal("undefined global"));
        }
        let a = module_inst.globals[idx as usize];
        let g = globals.get_mut(a);
        g.value = val;
        Ok(())
    }

    /// A table of a module instance.
    pub fn table_get<'a>(
        tables: &'a crate::runtime::store::Tables,
        module_inst: &ModuleInstance,
        idx: TableIdx,
    ) -> (r: Result<&'a TableInstance, RuntimeErrorKind>)
        requires
            forall|i: int| 0 <= i < module_inst.tables@.len() ==> (#[trigger] module_inst.tables@[i]).0 < tables.0@.len(),
        ensures
            match r {
                Ok(t) => idx < module_inst.tables@.len() && *t == tables.0@[module_inst.tables@[idx as int].0 as int],
                Err(e) => idx >= module_inst.tables@.len() && e == RuntimeErrorKind::Internal("undefined table"),
            },
    {
        if idx as usize >= module_inst.tables.len() {
            return Err(RuntimeErrorKind::Internal("undefined table"));
        }
        Ok(tables.get(module_inst.tables[idx as usize]))
    }

    /// An element segment of a module instance.
    pub fn element_get<'a>(
        elements: &'a crate::runtime::store::Elements,
        module_inst: &ModuleInstance,
        idx: ElemIdx,
    ) -> (r: Result<&'a ElemInstance, RuntimeErrorKind>)
        requires
            forall|i: int| 0 <= i < module_inst.elems@.len() ==> (#[trigger] module_inst.elems@[i]).0 < elements.0@.len(),
        ensures
            match r {
                Ok(t) => idx < module_inst.elems@.len() && *t == elements.0@[module_inst.elems@[idx as int].0 as int],
                Err(e) => idx >= module_inst.elems@.len() && e == RuntimeErrorKind::Internal("undefined element"),
            },
    {
        if idx as usize >= module_inst.elems.len() {
            return Err(RuntimeErrorKind::Internal("undefined element"));
        }
        Ok(elements.get(module_inst.elems[idx as usize]))
    }

    /// A memory of a module instance.
    pub fn memory_get<'a>(
        memories: &'a crate::runtime::store::Memories,
        module_inst: &ModuleInstance,
        idx: MemIndex,
    ) -> (r: Result<&'a MemoryInstance, RuntimeErrorKind>)
        requires
            forall|i: int| 0 <= i < module_inst.mems@.len() ==> (#[trigger] module_inst.mems@[i]).0 < memories.0@.len(),
        ensures
            match r {
                Ok(m) => idx.0 < module_inst.mems@.len() && *m == memories.0@[module_inst.mems@[idx.0 as int].0 as int],
                Err(e) => idx.0 >= module_inst.mems@.len() && e == RuntimeErrorKind::Internal("undefined memory"),
            },
    {
        if idx.0 as usize >= module_inst.mems.len() {
            return Err(RuntimeErrorKind::Internal("undefined memory"));
        }
        Ok(memories.get(module_inst.mems[idx.0 as usize]))
    }

    /// A memory of a module instance, to change.
    pub fn memory_get_mut<'a>(
        memories: &'a mut crate::runtime::store::Memories,
        module_inst: &ModuleInstance,
        idx: MemIndex,
    ) -> (r: Result<&'a mut MemoryInstance, RuntimeErrorKind>)
        requires
            forall|i: int| 0 <= i < module_inst.mems@.len() ==> (#[trigger] module_inst.mems@[i]).0 < old(memories).0@.len(),
        ensures
            match r {
                Ok(m) => idx.0 < module_inst.mems@.len() && {
                    let a = module_inst.mems@[idx.0 as int].0 as int;
                    &&& *m == old(memories).0@[a]
                    &&& final(memories).0@ == old(memories).0@.update(a, *final(m))
                },
                Err(e) => idx.0 >= module_inst.mems@.len() && e == RuntimeErrorKind::Internal("undefined memory")
                    && final(memories).0@ == old(memories).0@,
            },
    {
        if idx.0 as usize >= module_inst.mems.len() {
            return Err(RuntimeErrorKind::Internal("undefined memory"));
        }
        Ok(memories.get_mut(module_inst.mems[idx.0 as usize]))
    }

    /// A table of a module instance, to change.
    pub fn table_get_mut<'a>(
        tables: &'a mut crate::runtime::store::Tables,
        module_inst: &ModuleInstance,
        idx: TableIdx,
    ) -> (r: Result<&'a mut TableInstance, RuntimeErrorKind>)
        requires
            forall|i: int| 0 <= i < module_inst.tables@.len() ==> (#[trigger] module_inst.tables@[i]).0 < old(tables).0@.len(),
        ensures
            match r {
                Ok(t) => idx < module_inst.tables@.len() && {
                    let a = module_inst.tables@[idx as int].0 as int;
                    &&& *t == old(tables).0@[a]
                    &&& final(tables).0@ == old(tables).0@.update(a, *final(t))
                },
                Err(e) => idx >= module_inst.tables@.len() && e == RuntimeErrorKind::Internal("undefined table")
                    && final(tables).0@ == old(tables).0@,
            },
    {
        if idx as usize >= module_inst.tables.len() {
            return Err(RuntimeErrorKind::Internal("undefined table"));
        }
        Ok(tables.get_mut(module_inst.tables[idx as usize]))
    }

    /// A data segment of a module instance.
    pub fn data_get<'a>(
        datas: &'a crate::runtime::store::Data,
        module_inst: &ModuleInstance,
        idx: DataIdx,
    ) -> (r: Result<&'a DataInstance, RuntimeErrorKind>)
        requires
            forall|i: int| 0 <= i < module_inst.datas@.len() ==> (#[trigger] module_inst.datas@[i]).0 < datas.0@.len(),
        ensures
            match r {
                Ok(d) => idx < module_inst.datas@.len() && *d == datas.0@[module_inst.datas@[idx as int].0 as int],
                Err(e) => idx >= module_inst.datas@.len() && e == RuntimeErrorKind::Internal("undefined data"),
            },
    {
        if idx as usize >= module_inst.datas.len() {
            return Err(RuntimeErrorKind::Internal("undefined data"));
        }
        Ok(datas.get(module_inst.datas[idx as usize]))
    }
}


/// What registering an export of a host module does to the registry: the
/// host module of the name (a new one at the next handle when the name is
/// not registered) gets the export, and nothing else changes.
pub open spec fn host_export_added(
    before: &ModuleRegistry,
    after: &ModuleRegistry,
    mod_name: Seq<char>,
    mh: ModuleHandle,
    name: Seq<char>,
    ev: ExternVal,
) -> bool {
    &&& if before.spec_names().contains_key(mod_name) {
        &&& mh == before.spec_names()[mod_name]
        &&& after.spec_names() == before.spec_names()
        &&& after.spec_entries().len() == before.spec_entries().len()
    } else {
        &&& mh.index() == before.spec_entries().len()
        &&& after.spec_names() == before.spec_names().insert(mod_name, mh)
        &&& after.spec_entries().len() == before.spec_entries().len() + 1
    }
    &&& after.spec_entries()[mh.index() as int] matches Some(ModuleEntry::Host(h))
        && h.exports@ == before.spec_exports_of(mh).insert(name, ev)
    &&& forall|i: int|
        0 <= i < before.spec_entries().len() && i != mh.index() ==> #[trigger] after.spec_entries()[i]
            == before.spec_entries()[i]
}

/// Whether a name may be used for a host module: it is not registered, or
/// it is registered for a host module.
pub open spec fn host_name_ok(reg: &ModuleRegistry, mod_name: Seq<char>) -> bool {
    reg.spec_names().contains_key(mod_name) ==> {
        let h = reg.spec_names()[mod_name];
        h.index() < reg.spec_entries().len() && reg.spec_entries()[h.index() as int] matches Some(
            ModuleEntry::Host(_),
        )
    }
}

impl Runtime {
    /// Adds an export to the host module of a name, creating it where needed.
    fn add_host_export(&mut self, mod_name: &str, name: &str, ev: ExternVal) -> (mh: ModuleHandle)
        requires
            old(self).wf(),
            host_name_ok(&old(self).module_registry, mod_name@),
            extern_in_store(&old(self).store, ev),
        ensures
            final(self).wf(),
            final(self).store == old(self).store,
            host_export_added(&old(self).module_registry, &final(self).module_registry, mod_name@, mh, name@, ev),
    {
        let ghost reg0 = self.module_registry;
        let (mh, host) = self.module_registry.get_or_create_host(mod_name);
        host.exports.insert(name.to_owned(), ev);
        proof {
            let reg = self.module_registry;
            assert(reg.spec_entries()[mh.index() as int] matches Some(ModuleEntry::Host(h)) && h.exports@
                == reg0.spec_exports_of(mh).insert(name@, ev));
            assert forall|i: int|
                0 <= i < reg.spec_entries().len() && (#[trigger] reg.spec_entries()[i]) is Some implies entry_in_store(
                &self.store,
                reg.spec_entries()[i]->Some_0,
            ) by {
                if i != mh.index() {
                    assert(reg.spec_entries()[i] == reg0.spec_entries()[i]);
                } else {
                    let h = reg.spec_entries()[i]->Some_0->Host_0;
                    assert forall|n: Seq<char>| #[trigger] h.exports@.contains_key(n) implies extern_in_store(
                        &self.store,
                        h.exports@[n],
                    ) by {
                        if n != name@ {
                            if reg0.spec_names().contains_key(mod_name@) {
                                assert(reg0.spec_entries()[mh.index() as int] is Some);
                            }
                        }
                    }
                }
            }
            assert forall|n: Seq<char>| #[trigger] reg.spec_names().contains_key(n) implies reg.spec_names()[n].index()
                < reg.spec_entries().len() && reg.spec_entries()[reg.spec_names()[n].index() as int] is Some by {
                if n != mod_name@ {
                    assert(reg0.spec_names().contains_key(n));
                }
            }
        }
        mh
    }

    /// Associates a name to a module, for referencing its exports.
    pub fn register_module(&mut self, name: String, handle: ModuleHandle) -> (r: Result<(), Error>)
        requires
            old(self).wf(),
            handle.index() < old(self).module_registry.spec_entries().len(),
            old(self).module_registry.spec_entries()[handle.index() as int] is Some,
        ensures
            r is Ok,
            final(self).wf(),
            final(self).store == old(self).store,
            final(self).module_registry.spec_names() == old(self).module_registry.spec_names().insert(name@, handle),
            final(self).module_registry.spec_entries() == old(self).module_registry.spec_entries(),
    {
        self.module_registry.register(name, handle);
        Ok(())
    }

    /// Gives a host module a function of the given type, implemented by the
    /// embedder's host function of index `func`.
    pub fn register_host_fn(&mut self, mod_name: &str, fn_name: &str, ftype: FuncType, func: usize) -> (r: Result<
        ModuleHandle,
        Error,
    >)
        requires
            old(self).wf(),
            host_name_ok(&old(self).module_registry, mod_name@),
        ensures
            r is Ok,
            final(self).wf(),
            final(self).store.functions.spec_funcs().len() == old(self).store.functions.spec_funcs().len() + 1,
            final(self).store.functions.spec_funcs().drop_last() == old(self).store.functions.spec_funcs(),
            final(self).store.functions.spec_funcs().last().ftype@ == ftype@,
            final(self).store.functions.spec_funcs().last().module == r->Ok_0,
            final(self).store.functions.spec_funcs().last().body == crate::runtime::store::FuncBody::Host(func),
            final(self).store.globals == old(self).store.globals,
            final(self).store.tables == old(self).store.tables,
            final(self).store.memories == old(self).store.memories,
            final(self).store.elements == old(self).store.elements,
            final(self).store.data == old(self).store.data,
            host_export_added(
                &old(self).module_registry,
                &final(self).module_registry,
                mod_name@,
                r->Ok_0,
                fn_name@,
                ExternVal::Func(FuncAddr(old(self).store.functions.spec_funcs().len() as usize)),
            ),
    {
        let ghost reg0 = self.module_registry;
        let ghost s0 = self.store;
        let (mh, host) = self.module_registry.get_or_create_host(mod_name);
        let addr = self.store.functions.allocate_host(mh, ftype, func);
        host.exports.insert(fn_name.to_owned(), ExternVal::Func(addr));
        proof {
            let reg = self.module_registry;
            let ev = ExternVal::Func(addr);
            assert(self.store.functions.spec_funcs().drop_last() =~= s0.functions.spec_funcs());
            assert(store_grows(&s0, &self.store));
            assert(reg.spec_entries()[mh.index() as int] matches Some(ModuleEntry::Host(h)) && h.exports@
                == reg0.spec_exports_of(mh).insert(fn_name@, ev));
            assert forall|i: int|
                0 <= i < reg.spec_entries().len() && (#[trigger] reg.spec_entries()[i]) is Some implies entry_in_store(
                &self.store,
                reg.spec_entries()[i]->Some_0,
            ) by {
                if i != mh.index() {
                    assert(reg.spec_entries()[i] == reg0.spec_entries()[i]);
                    lemma_entry_in_grown_store(&s0, &self.store, reg.spec_entries()[i]->Some_0);
                } else {
                    let h = reg.spec_entries()[i]->Some_0->Host_0;
                    assert forall|n: Seq<char>| #[trigger] h.exports@.contains_key(n) implies extern_in_store(
                        &self.store,
                        h.exports@[n],
                    ) by {
                        if n != fn_name@ {
                            if reg0.spec_names().contains_key(mod_name@) {
                                assert(reg0.spec_entries()[mh.index() as int] is Some);
                                assert(entry_in_store(&s0, reg0.spec_entries()[mh.index() as int]->Some_0));
                                assert(extern_in_store(&s0, reg0.spec_exports_of(mh)[n]));
                            }
                        }
                    }
                }
            }
            assert forall|n: Seq<char>| #[trigger] reg.spec_names().contains_key(n) implies reg.spec_names()[n].index()
                < reg.spec_entries().len() && reg.spec_entries()[reg.spec_names()[n].index() as int] is Some by {
                if n != mod_name@ {
                    assert(reg0.spec_names().contains_key(n));
                }
            }
        }
        Ok(mh)
    }

    /// Gives a host module a global of the given type and value.
    pub fn register_host_global(&mut self, mod_name: &str, name: &str, gtype: GlobalType, value: Value) -> (r: Result<
        ModuleHandle,
        Error,
    >)
        requires
            old(self).wf(),
            host_name_ok(&old(self).module_registry, mod_name@),
        ensures
            r is Ok,
            final(self).wf(),
            final(self).store.globals.0@ == old(self).store.globals.0@.push(
                crate::runtime::store::GlobalInstance { globaltype: gtype, value },
            ),
            final(self).store.functions == old(self).store.functions,
            final(self).store.tables == old(self).store.tables,
            final(self).store.memories == old(self).store.memories,
            final(self).store.elements == old(self).store.elements,
            final(self).store.data == old(self).store.data,
            host_export_added(
                &old(self).module_registry,
                &final(self).module_registry,
                mod_name@,
                r->Ok_0,
                name@,
                ExternVal::Global(old(self).store.globals.0@.len() as usize),
            ),
    {
        let ghost s0 = self.store;
        let addr = self.store.globals.allocate(gtype, value);
        proof {
            assert(store_grows(&s0, &self.store));
            assert forall|i: int|
                0 <= i < self.module_registry.spec_entries().len() && (#[trigger] self.module_registry.spec_entries()[i]) is Some
                implies entry_in_store(&self.store, self.module_registry.spec_entries()[i]->Some_0) by {
                lemma_entry_in_grown_store(&s0, &self.store, self.module_registry.spec_entries()[i]->Some_0);
            }
        }
        let mh = self.add_host_export(mod_name, name, ExternVal::Global(addr.0));
        Ok(mh)
    }

    /// Gives a host module a table of the given type, its minimum size of
    /// entries set to a reference.
    pub fn register_host_table(&mut self, mod_name: &str, name: &str, ttype: TableType, init_ref: Ref) -> (r: Result<
        ModuleHandle,
        Error,
    >)
        requires
            old(self).wf(),
            host_name_ok(&old(self).module_registry, mod_name@),
        ensures
            r is Ok,
            final(self).wf(),
            final(self).store.tables.0@ == old(self).store.tables.0@.push(
                TableInstance { tabletype: ttype, refs: final(self).store.tables.0@.last().refs },
            ),
            final(self).store.tables.0@.last().refs@ == Seq::new(ttype.limit.min as nat, |i: int| init_ref),
            final(self).store.functions == old(self).store.functions,
            final(self).store.globals == old(self).store.globals,
            final(self).store.memories == old(self).store.memories,
            final(self).store.elements == old(self).store.elements,
            final(self).store.data == old(self).store.data,
            host_export_added(
                &old(self).module_registry,
                &final(self).module_registry,
                mod_name@,
                r->Ok_0,
                name@,
                ExternVal::Table(old(self).store.tables.0@.len() as usize),
            ),
    {
        let ghost s0 = self.store;
        let size = ttype.limit.min as usize;
        let entries = vec![init_ref; size];
        proof {
            assert(entries@ =~= Seq::new(ttype.limit.min as nat, |i: int| init_ref));
        }
        let addr = self.store.tables.allocate(ttype, entries);
        proof {
            assert(store_grows(&s0, &self.store));
            assert forall|i: int|
                0 <= i < self.module_registry.spec_entries().len() && (#[trigger] self.module_registry.spec_entries()[i]) is Some
                implies entry_in_store(&self.store, self.module_registry.spec_entries()[i]->Some_0) by {
                lemma_entry_in_grown_store(&s0, &self.store, self.module_registry.spec_entries()[i]->Some_0);
            }
            assert forall|i: int| 0 <= i < self.store.tables.0@.len() implies (#[trigger] self.store.tables.0@[i]).refs@.len()
                <= u32::MAX by {
                if i < s0.tables.0@.len() {
                    assert(self.store.tables.0@[i] == s0.tables.0@[i]);
                }
            }
        }
        let mh = self.add_host_export(mod_name, name, ExternVal::Table(addr.0));
        Ok(mh)
    }

    /// Gives a host module a memory of the given type, of its minimum size.
    pub fn register_host_memory(&mut self, mod_name: &str, name: &str, mtype: MemType) -> (r: Result<
        ModuleHandle,
        Error,
    >)
        requires
            old(self).wf(),
            host_name_ok(&old(self).module_registry, mod_name@),
            mtype.0.min * WASM_MEM_PAGE_BYTE_SIZE <= usize::MAX,
        ensures
            r is Ok,
            final(self).wf(),
            final(self).store.memories.0@.len() == old(self).store.memories.0@.len() + 1,
            final(self).store.memories.0@.drop_last() == old(self).store.memories.0@,
            final(self).store.memories.0@.last().memtype == mtype,
            final(self).store.memories.0@.last().data@ == initial_memory(mtype),
            final(self).store.functions == old(self).store.functions,
            final(self).store.globals == old(self).store.globals,
            final(self).store.tables == old(self).store.tables,
            final(self).store.elements == old(self).store.elements,
            final(self).store.data == old(self).store.data,
            host_export_added(
                &old(self).module_registry,
                &final(self).module_registry,
                mod_name@,
                r->Ok_0,
                name@,
                ExternVal::Mem(old(self).store.memories.0@.len() as usize),
            ),
    {
        let ghost s0 = self.store;
        let addr = self.store.memories.allocate(&mtype);
        proof {
            assert(store_grows(&s0, &self.store));
            assert forall|i: int|
                0 <= i < self.module_registry.spec_entries().len() && (#[trigger] self.module_registry.spec_entries()[i]) is Some
                implies entry_in_store(&self.store, self.module_registry.spec_entries()[i]->Some_0) by {
                lemma_entry_in_grown_store(&s0, &self.store, self.module_registry.spec_entries()[i]->Some_0);
            }
        }
        let mh = self.add_host_export(mod_name, name, ExternVal::Mem(addr.0));
        Ok(mh)
    }

    /// The value of a global that a module exports under a name.
    pub fn get_global_value(&self, mh: ModuleHandle, name: &str) -> (r: Option<Value>)
        requires
            self.wf(),
        ensures
            r == (if self.module_registry.spec_exports_of(mh).contains_key(name@) {
                match self.module_registry.spec_exports_of(mh)[name@] {
                    ExternVal::Global(a) => Some(self.store.globals.0@[a as int].value),
                    _ => None,
                }
            } else {
                None
            }),
    {
        proof {
            let reg = self.module_registry;
            if mh.index() < reg.spec_entries().len() && reg.spec_entries()[mh.index() as int] is Some {
                assert(entry_in_store(&self.store, reg.spec_entries()[mh.index() as int]->Some_0));
                let ex = reg.spec_exports_of(mh);
                if ex.contains_key(name@) {
                    assert(extern_in_store(&self.store, ex[name@]));
                }
            }
        }
        match self.module_registry.resolve_export(mh, name) {
            Some(ExternVal::Global(addr)) => Some(self.store.globals.get(GlobalAddr(addr)).value),
            _ => None,
        }
    }

    /// The number of pages of the first memory.
    pub fn memory_pages(&self, idx: usize) -> (r: usize)
        requires
            idx == 0,
            self.store.memories.0@.len() > 0,
        ensures
            r == self.store.memories.0@[0].data@.len() / (WASM_MEM_PAGE_BYTE_SIZE as nat),
    {
        self.store.memories.0[0].data.len() / WASM_MEM_PAGE_BYTE_SIZE
    }

    /// The bytes of the first memory.
    pub fn memory_data(&self, idx: usize) -> (r: &[u8])
        requires
            idx == 0,
            self.store.memories.0@.len() > 0,
        ensures
            r@ == self.store.memories.0@[0].data@,
    {
        self.store.memories.0[0].data.as_slice()
    }
}


/// What linking an import to the external value its name resolves to comes
/// to: the value, when it is of the kind and type the import asks for. A
/// table or memory is matched by its current size, not the size it was
/// declared with.
pub open spec fn spec_link_import(store: &Store, types: Seq<FuncTypeV>, desc: ImportDesc, ev: ExternVal) -> Result<
    ExternVal,
    UnlinkableError,
> {
    match (desc, ev) {
        (ImportDesc::Func(idx), ExternVal::Func(addr)) => if store.functions.spec_funcs()[addr.0 as int].ftype@
            == types[idx as int] {
            Ok(ev)
        } else {
            Err(UnlinkableError::IncompatibleImportType)
        },
        (ImportDesc::Table(expected), ExternVal::Table(a)) => {
            let ti = store.tables.0@[a as int];
            let current = Limit { min: ti.refs@.len() as u32, max: ti.tabletype.limit.max };
            if ti.tabletype.elemtype == expected.elemtype && current.spec_matches(expected.limit) {
                Ok(ev)
            } else {
                Err(UnlinkableError::IncompatibleImportType)
            }
        },
        (ImportDesc::Mem(expected), ExternVal::Mem(a)) => {
            let mem = store.memories.0@[a as int];
            let current = Limit { min: spec_mem_size(mem.data@), max: mem.memtype.0.max };
            if current.spec_matches(expected.0) {
                Ok(ev)
            } else {
                Err(UnlinkableError::IncompatibleImportType)
            }
        },
        (ImportDesc::Global(expected), ExternVal::Global(a)) => if store.globals.0@[a as int].globaltype
            == expected {
            Ok(ev)
        } else {
            Err(UnlinkableError::IncompatibleImportType)
        },
        _ => Err(UnlinkableError::IncompatibleImportType),
    }
}

/// The values that imports are linked to, in order. The first import whose
/// name does not resolve, or whose value does not match, fails the linking.
pub open spec fn spec_link_imports(rt: &Runtime, types: Seq<FuncTypeV>, imports: Seq<ImportEntryV>) -> Result<
    Seq<ExternVal>,
    UnlinkableError,
>
    decreases imports.len(),
{
    if imports.len() == 0 {
        Ok(seq![])
    } else {
        match spec_link_imports(rt, types, imports.drop_last()) {
            Err(e) => Err(e),
            Ok(evs) => match rt.module_registry.spec_resolve(imports.last().mod_name, imports.last().name) {
                None => Err(UnlinkableError::UnknownImport),
                Some(ev) => match spec_link_import(&rt.store, types, imports.last().desc, ev) {
                    Err(e) => Err(e),
                    Ok(v) => Ok(evs.push(v)),
                },
            },
        }
    }
}

/// The function addresses among external values, in order.
pub open spec fn extern_funcs(evs: Seq<ExternVal>) -> Seq<FuncAddr>
    decreases evs.len(),
{
    if evs.len() == 0 {
        seq![]
    } else {
        match evs.last() {
            ExternVal::Func(a) => extern_funcs(evs.drop_last()).push(a),
            _ => extern_funcs(evs.drop_last()),
        }
    }
}

/// The table addresses among external values, in order.
pub open spec fn extern_tables(evs: Seq<ExternVal>) -> Seq<TableAddr>
    decreases evs.len(),
{
    if evs.len() == 0 {
        seq![]
    } else {
        match evs.last() {
            ExternVal::Table(a) => extern_tables(evs.drop_last()).push(TableAddr(a)),
            _ => extern_tables(evs.drop_last()),
        }
    }
}

/// The memory addresses among external values, in order.
pub open spec fn extern_mems(evs: Seq<ExternVal>) -> Seq<MemAddr>
    decreases evs.len(),
{
    if evs.len() == 0 {
        seq![]
    } else {
        match evs.last() {
            ExternVal::Mem(a) => extern_mems(evs.drop_last()).push(MemAddr(a)),
            _ => extern_mems(evs.drop_last()),
        }
    }
}

/// The global addresses among external values, in order.
pub open spec fn extern_globals(evs: Seq<ExternVal>) -> Seq<GlobalAddr>
    decreases evs.len(),
{
    if evs.len() == 0 {
        seq![]
    } else {
        match evs.last() {
            ExternVal::Global(a) => extern_globals(evs.drop_last()).push(GlobalAddr(a)),
            _ => extern_globals(evs.drop_last()),
        }
    }
}

/// Whether each function import names a type that the module has.
pub open spec fn imports_typed(types: Seq<FuncTypeV>, imports: Seq<ImportEntryV>) -> bool {
    forall|i: int| 0 <= i < imports.len() ==> match #[trigger] imports[i].desc {
        ImportDesc::Func(idx) => idx < types.len(),
        _ => true,
    }
}

/// The module's types, none when it has no type section.
pub open spec fn module_types(types: Option<Seq<FuncTypeV>>) -> Seq<FuncTypeV> {
    match types {
        Some(t) => t,
        None => seq![],
    }
}

impl Runtime {
    /// Links one import to the value its name resolves to.
    fn link_import(&self, types: &Option<Vec<FuncType>>, desc: &ImportDesc, ev: ExternVal) -> (r: Result<
        ExternVal,
        UnlinkableError,
    >)
        requires
            self.wf(),
            extern_in_store(&self.store, ev),
            desc matches ImportDesc::Func(idx) ==> idx < module_types(crate::binary::module::opt_view(*types)).len(),
        ensures
            r == spec_link_import(&self.store, module_types(crate::binary::module::opt_view(*types)), *desc, ev),
    {
        match (desc, ev) {
            (ImportDesc::Func(idx), ExternVal::Func(addr)) => {
                let func = self.store.functions.get(addr);
                let expected = match types {
                    Some(t) => &t[*idx as usize],
                    None => {
                        proof {
                            assert(false);
                        }
                        return Err(UnlinkableError::IncompatibleImportType);
                    },
                };
                if !func.ftype.same_as(expected) {
                    return Err(UnlinkableError::IncompatibleImportType);
                }
                Ok(ev)
            },
            (ImportDesc::Table(expected), ExternVal::Table(a)) => {
                let ti = self.store.tables.get(TableAddr(a));
                assert(ti.refs@.len() <= u32::MAX);
                let current = Limit { min: ti.refs.len() as u32, max: ti.tabletype.limit.max };
                if ti.tabletype.elemtype != expected.elemtype || !current.matches(&expected.limit) {
                    return Err(UnlinkableError::IncompatibleImportType);
                }
                Ok(ev)
            },
            (ImportDesc::Mem(expected), ExternVal::Mem(a)) => {
                let mem = self.store.memories.get(MemAddr(a));
                let current = Limit { min: mem.size(), max: mem.memtype.0.max };
                if !current.matches(&expected.0) {
                    return Err(UnlinkableError::IncompatibleImportType);
                }
                Ok(ev)
            },
            (ImportDesc::Global(expected), ExternVal::Global(a)) => {
                let global = self.store.globals.get(GlobalAddr(a));
                if global.globaltype != *expected {
                    return Err(UnlinkableError::IncompatibleImportType);
                }
                Ok(ev)
            },
            _ => Err(UnlinkableError::IncompatibleImportType),
        }
    }

    /// Links the module's imports, in order, and gives their values to the
    /// module instance by kind.
    fn link_imports(&self, module: &Module, mi: &mut ModuleInstance) -> (r: Result<(), UnlinkableError>)
        requires
            self.wf(),
            imports_typed(module_types(module@.types), module_imports(module@.imports)),
            old(mi).funcs@.len() == 0,
            old(mi).tables@.len() == 0,
            old(mi).mems@.len() == 0,
            old(mi).globals@.len() == 0,
        ensures
            match spec_link_imports(self, module_types(module@.types), module_imports(module@.imports)) {
                Ok(evs) => r is Ok && final(mi).funcs@ == extern_funcs(evs) && final(mi).tables@ == extern_tables(evs)
                    && final(mi).mems@ == extern_mems(evs) && final(mi).globals@ == extern_globals(evs),
                Err(e) => r == Err::<(), UnlinkableError>(e),
            },
            r is Ok && instance_in_store(&self.store, old(mi)) ==> instance_in_store(&self.store, final(mi)),
            final(mi).types == old(mi).types,
            final(mi).exports == old(mi).exports,
            final(mi).datas == old(mi).datas,
            final(mi).elems == old(mi).elems,
    {
        let imports = match &module.imports {
            Some(imports) => imports,
            None => {
                proof {
                    assert(extern_funcs(seq![]) =~= mi.funcs@);
                    assert(extern_tables(seq![]) =~= mi.tables@);
                    assert(extern_mems(seq![]) =~= mi.mems@);
                    assert(extern_globals(seq![]) =~= mi.globals@);
                }
                return Ok(());
            },
        };
        let ghost types = module_types(module@.types);
        let ghost ims = module_imports(module@.imports);
        let ghost mut evs: Seq<ExternVal> = seq![];
        let mut i: usize = 0;
        while i < imports.len()
            invariant
                self.wf(),
                ims == crate::binary::reader::vec_view(imports@),
                ims == module_imports(module@.imports),
                types == module_types(module@.types),
                imports_typed(types, ims),
                i <= imports@.len(),
                spec_link_imports(self, types, ims.take(i as int)) == Ok::<Seq<ExternVal>, UnlinkableError>(evs),
                mi.funcs@ == extern_funcs(evs),
                mi.tables@ == extern_tables(evs),
                mi.mems@ == extern_mems(evs),
                mi.globals@ == extern_globals(evs),
                mi.types == old(mi).types,
                mi.exports == old(mi).exports,
                mi.datas == old(mi).datas,
                mi.elems == old(mi).elems,
                forall|k: int| 0 <= k < evs.len() ==> extern_in_store(&self.store, #[trigger] evs[k]),
            decreases imports@.len() - i,
        {
            let import = &imports[i];
            proof {
                assert(ims.take(i + 1).drop_last() =~= ims.take(i as int));
                assert(ims.take(i + 1).last() == import@);
            }
            let ev = match self.module_registry.resolve(import.mod_name.as_str(), import.name.as_str()) {
                Some(ev) => ev,
                None => {
                    proof {
                        assert(spec_link_imports(self, types, ims.take(i + 1)) == Err::<Seq<ExternVal>, UnlinkableError>(
                            UnlinkableError::UnknownImport,
                        ));
                        lemma_link_prefix_fails(self, types, ims, i as int + 1);
                    }
                    return Err(UnlinkableError::UnknownImport);
                },
            };
            proof {
                self.lemma_resolved_in_store(import.mod_name@, import.name@);
                assert(imports@[i as int]@ == ims[i as int]);
            }
            let v = match self.link_import(&module.types, &import.desc, ev) {
                Ok(v) => v,
                Err(e) => {
                    proof {
                        assert(spec_link_imports(self, types, ims.take(i + 1)) == Err::<Seq<ExternVal>, UnlinkableError>(e));
                        lemma_link_prefix_fails(self, types, ims, i as int + 1);
                    }
                    return Err(e);
                },
            };
            match v {
                ExternVal::Func(a) => mi.funcs.push(a),
                ExternVal::Table(a) => mi.tables.push(TableAddr(a)),
                ExternVal::Mem(a) => mi.mems.push(MemAddr(a)),
                ExternVal::Global(a) => mi.globals.push(GlobalAddr(a)),
            }
            proof {
                let evs2 = evs.push(v);
                assert(evs2.drop_last() =~= evs);
                evs = evs2;
            }
            i = i + 1;
        }
        proof {
            assert(ims.take(i as int) =~= ims);
            lemma_extern_in_store(&self.store, evs);
        }
        Ok(())
    }

    /// What a registered name resolves to is in the store.
    proof fn lemma_resolved_in_store(&self, module_name: Seq<char>, name: Seq<char>)
        requires
            self.wf(),
        ensures
            self.module_registry.spec_resolve(module_name, name) matches Some(ev) ==> extern_in_store(&self.store, ev),
    {
        let reg = self.module_registry;
        if reg.spec_names().contains_key(module_name) {
            let i = reg.spec_names()[module_name].index() as int;
            assert(reg.spec_entries()[i] is Some);
            assert(entry_in_store(&self.store, reg.spec_entries()[i]->Some_0));
            let e = reg.spec_entries()[i]->Some_0;
            if entry_exports(e).contains_key(name) {
                assert(extern_in_store(&self.store, entry_exports(e)[name]));
            }
        }
    }
}

/// The imports of a module, none when it has no import section.
pub open spec fn module_imports(imports: Option<Seq<ImportEntryV>>) -> Seq<ImportEntryV> {
    match imports {
        Some(s) => s,
        None => seq![],
    }
}

/// Once a prefix of the imports fails to link, so do all the imports.
proof fn lemma_link_prefix_fails(rt: &Runtime, types: Seq<FuncTypeV>, ims: Seq<ImportEntryV>, n: int)
    requires
        0 <= n <= ims.len(),
        spec_link_imports(rt, types, ims.take(n)) is Err,
    ensures
        spec_link_imports(rt, types, ims) == spec_link_imports(rt, types, ims.take(n)),
    decreases ims.len() - n,
{
    if n < ims.len() {
        assert(ims.take(n + 1).drop_last() =~= ims.take(n));
        lemma_link_prefix_fails(rt, types, ims, n + 1);
    } else {
        assert(ims.take(n) =~= ims);
    }
}


/// What a step of the runtime comes to: a result, an error, or a panic.
pub enum RunOutcome<T> {
    Panics,
    Fails(RuntimeErrorKind),
    Gives(T),
}

/// Evaluates a constant expression from its `i`th instruction, `top` being
/// the value last pushed: each constant, global or reference pushes a value,
/// and the first `end` (or the end of the instructions) gives the last value
/// pushed. A reference to a function out of range panics.
pub open spec fn spec_eval_from(
    globals: Seq<crate::runtime::store::GlobalInstance>,
    mglobals: Seq<GlobalAddr>,
    mfuncs: Seq<FuncAddr>,
    expr: Seq<InstrV>,
    i: int,
    top: Option<Value>,
) -> RunOutcome<Value>
    decreases expr.len() - i,
{
    if i < 0 || i >= expr.len() || expr[i] == InstrV::Plain(Instruction::End) {
        match top {
            Some(v) => RunOutcome::Gives(v),
            None => RunOutcome::Fails(RuntimeErrorKind::Internal("const expression produced no value")),
        }
    } else {
        let next = |v: Value| spec_eval_from(globals, mglobals, mfuncs, expr, i + 1, Some(v));
        match expr[i] {
            InstrV::Plain(Instruction::I32Const(v)) => next(Value::I32(v)),
            InstrV::Plain(Instruction::I64Const(v)) => next(Value::I64(v)),
            InstrV::Plain(Instruction::F32Const(v)) => next(Value::F32(v)),
            InstrV::Plain(Instruction::F64Const(v)) => next(Value::F64(v)),
            InstrV::Plain(Instruction::GlobalGet(idx)) => if idx < mglobals.len() {
                next(globals[mglobals[idx as int].0 as int].value)
            } else {
                RunOutcome::Fails(RuntimeErrorKind::Internal("undefined global"))
            },
            InstrV::Plain(Instruction::RefNull(rt)) => next(Value::Ref(Ref::Null(rt))),
            InstrV::Plain(Instruction::RefFunc(fi)) => if fi < mfuncs.len() {
                next(Value::Ref(Ref::Func(mfuncs[fi as int])))
            } else {
                RunOutcome::Panics
            },
            _ => RunOutcome::Fails(RuntimeErrorKind::Internal("invalid const expression")),
        }
    }
}

/// What evaluating a constant expression comes to.
pub open spec fn spec_eval(
    globals: Seq<crate::runtime::store::GlobalInstance>,
    mglobals: Seq<GlobalAddr>,
    mfuncs: Seq<FuncAddr>,
    expr: Seq<InstrV>,
) -> RunOutcome<Value> {
    spec_eval_from(globals, mglobals, mfuncs, expr, 0, None)
}

/// An executable result that follows an outcome of the model.
pub open spec fn follows_run<T>(o: RunOutcome<T>, r: Result<T, RuntimeErrorKind>) -> bool {
    match o {
        RunOutcome::Gives(x) => r == Ok::<T, RuntimeErrorKind>(x),
        RunOutcome::Fails(e) => r == Err::<T, RuntimeErrorKind>(e),
        RunOutcome::Panics => false,
    }
}

impl Runtime {
    /// Evaluates a constant expression (the initial value of a global, an
    /// element or the offset of a segment).
    pub fn eval_expression(store: &Store, module: &ModuleInstance, expr: &ConstExpression) -> (r: Result<
        Value,
        RuntimeErrorKind,
    >)
        requires
            forall|i: int| 0 <= i < module.globals@.len() ==> (#[trigger] module.globals@[i]).0 < store.globals.0@.len(),
            !(spec_eval(store.globals.0@, module.globals@, module.funcs@, expr@) is Panics),
        ensures
            follows_run(spec_eval(store.globals.0@, module.globals@, module.funcs@, expr@), r),
    {
        let mut value_stack: Vec<Value> = Vec::new();
        let mut i: usize = 0;
        while i < expr.0.len()
            invariant
                forall|k: int| 0 <= k < module.globals@.len() ==> (#[trigger] module.globals@[k]).0 < store.globals.0@.len(),
                i <= expr@.len(),
                expr@ == crate::binary::reader::vec_view(expr.0@),
                spec_eval(store.globals.0@, module.globals@, module.funcs@, expr@) == spec_eval_from(
                    store.globals.0@,
                    module.globals@,
                    module.funcs@,
                    expr@,
                    i as int,
                    if value_stack@.len() == 0 {
                        None
                    } else {
                        Some(value_stack@.last())
                    },
                ),
                !(spec_eval(store.globals.0@, module.globals@, module.funcs@, expr@) is Panics),
            ensures
                i >= expr@.len() || expr@[i as int] == InstrV::Plain(Instruction::End),
            decreases expr@.len() - i,
        {
            let v = match &expr.0[i] {
                Instruction::End => break,
                Instruction::I32Const(v) => Value::I32(*v),
                Instruction::I64Const(v) => Value::I64(*v),
                Instruction::F32Const(v) => Value::F32(*v),
                Instruction::F64Const(v) => Value::F64(*v),
                Instruction::GlobalGet(idx) => match Runtime::global_get(&store.globals, module, *idx) {
                    Ok(v) => v,
                    Err(e) => return Err(e),
                },
                Instruction::RefNull(rt) => Value::Ref(Ref::Null(*rt)),
                Instruction::RefFunc(fi) => Value::Ref(Ref::Func(module.funcs[*fi as usize])),
                _ => return Err(RuntimeErrorKind::Internal("invalid const expression")),
            };
            value_stack.push(v);
            i = i + 1;
        }
        match value_stack.pop() {
            Some(v) => Ok(v),
            None => Err(RuntimeErrorKind::Internal("const expression produced no value")),
        }
    }
}


/// Whether each function reference of an expression is below `n`.
pub open spec fn refs_in_range(expr: Seq<InstrV>, n: int) -> bool {
    forall|k: int| 0 <= k < expr.len() ==> match #[trigger] expr[k] {
        InstrV::Plain(Instruction::RefFunc(fi)) => fi < n,
        _ => true,
    }
}

/// An expression whose function references are in range does not panic.
pub proof fn lemma_eval_no_panic(
    globals: Seq<crate::runtime::store::GlobalInstance>,
    mglobals: Seq<GlobalAddr>,
    mfuncs: Seq<FuncAddr>,
    expr: Seq<InstrV>,
    i: int,
    top: Option<Value>,
)
    requires
        refs_in_range(expr, mfuncs.len() as int),
    ensures
        !(spec_eval_from(globals, mglobals, mfuncs, expr, i, top) is Panics),
    decreases expr.len() - i,
{
    if i < 0 || i >= expr.len() || expr[i] == InstrV::Plain(Instruction::End) {
    } else {
        let e = expr[i];
        match e {
            InstrV::Plain(Instruction::I32Const(v)) => lemma_eval_no_panic(globals, mglobals, mfuncs, expr, i + 1, Some(Value::I32(v))),
            InstrV::Plain(Instruction::I64Const(v)) => lemma_eval_no_panic(globals, mglobals, mfuncs, expr, i + 1, Some(Value::I64(v))),
            InstrV::Plain(Instruction::F32Const(v)) => lemma_eval_no_panic(globals, mglobals, mfuncs, expr, i + 1, Some(Value::F32(v))),
            InstrV::Plain(Instruction::F64Const(v)) => lemma_eval_no_panic(globals, mglobals, mfuncs, expr, i + 1, Some(Value::F64(v))),
            InstrV::Plain(Instruction::GlobalGet(idx)) => if idx < mglobals.len() {
                lemma_eval_no_panic(globals, mglobals, mfuncs, expr, i + 1, Some(globals[mglobals[idx as int].0 as int].value));
            },
            InstrV::Plain(Instruction::RefNull(rt)) => lemma_eval_no_panic(globals, mglobals, mfuncs, expr, i + 1, Some(Value::Ref(Ref::Null(rt)))),
            InstrV::Plain(Instruction::RefFunc(fi)) => {
                assert(fi < mfuncs.len());
                lemma_eval_no_panic(globals, mglobals, mfuncs, expr, i + 1, Some(Value::Ref(Ref::Func(mfuncs[fi as int]))));
            },
            _ => {},
        }
    }
}

/// What an instance stays in a store that grew.
pub proof fn lemma_instance_in_grown_store(before: &Store, after: &Store, mi: &ModuleInstance)
    requires
        instance_in_store(before, mi),
        store_grows(before, after),
    ensures
        instance_in_store(after, mi),
{
    lemma_entry_in_grown_store(before, after, ModuleEntry::Wasm(*mi));
}

/// The number of functions a module defines: one for each pair of a
/// function entry and a code entry, when it also has a type section.
pub open spec fn defined_funcs(m: ModuleV) -> nat {
    match (m.functions, m.codes, m.types) {
        (Some(f), Some(c), Some(_)) => if f.len() <= c.len() {
            f.len()
        } else {
            c.len()
        },
        _ => 0,
    }
}

/// Addresses `start`, `start + 1`, ... of `n` new functions.
pub open spec fn fresh_funcs(start: nat, n: nat) -> Seq<FuncAddr> {
    Seq::new(n, |j: int| FuncAddr((start + j) as usize))
}

/// Whether a function of the store is the `j`th function that a module defines.
pub open spec fn defines_func(m: ModuleV, h: ModuleHandle, j: int, f: crate::runtime::store::FuncInstance) -> bool {
    let typeidx = m.functions->Some_0[j];
    let code: CodeEntryV = m.codes->Some_0[j];
    &&& f.ftype@ == m.types->Some_0[typeidx as int]
    &&& f.module == h
    &&& f.body matches crate::runtime::store::FuncBody::Wasm(w) && w.typeidx == typeidx && w.locals@
        == crate::runtime::store::expand_locals(code.locals) && vec_view(w.expr@) == code.body
}

/// Whether each defined function names a type the module has.
pub open spec fn funcs_typed(m: ModuleV) -> bool {
    forall|j: int| 0 <= j < defined_funcs(m) ==> (#[trigger] m.functions->Some_0[j]) < m.types->Some_0.len()
}

impl Runtime {
    /// The state while a module is instantiated under a reserved handle: the
    /// runtime is consistent, and the instance's addresses are in the store.
    pub open spec fn building(&self, h: ModuleHandle, mi: &ModuleInstance) -> bool {
        &&& self.wf()
        &&& instance_in_store(&self.store, mi)
        &&& h.index() < self.module_registry.spec_entries().len()
        &&& self.module_registry.spec_entries()[h.index() as int] is None
    }

    /// A runtime whose registry is unchanged and whose store grew, with
    /// tables that fit a `u32`, is consistent.
    proof fn lemma_wf_grown(before: &Runtime, after: &Runtime)
        requires
            before.wf(),
            after.module_registry == before.module_registry,
            store_grows(&before.store, &after.store),
            forall|i: int| 0 <= i < after.store.tables.0@.len() ==> (#[trigger] after.store.tables.0@[i]).refs@.len() <= u32::MAX,
        ensures
            after.wf(),
    {
        let reg = after.module_registry;
        assert forall|i: int|
            0 <= i < reg.spec_entries().len() && (#[trigger] reg.spec_entries()[i]) is Some implies entry_in_store(
            &after.store,
            reg.spec_entries()[i]->Some_0,
        ) by {
            lemma_entry_in_grown_store(&before.store, &after.store, reg.spec_entries()[i]->Some_0);
        }
    }

    /// Allocates the functions the module defines, in order.
    fn allocate_functions(&mut self, h: ModuleHandle, module: &Module, mi: &mut ModuleInstance)
        requires
            old(self).building(h, old(mi)),
            funcs_typed(module@),
        ensures
            final(self).building(h, final(mi)),
            final(self).module_registry == old(self).module_registry,
            final(self).store.functions.spec_funcs().len() == old(self).store.functions.spec_funcs().len()
                + defined_funcs(module@),
            final(self).store.functions.spec_funcs().take(old(self).store.functions.spec_funcs().len() as int)
                == old(self).store.functions.spec_funcs(),
            forall|j: int|
                0 <= j < defined_funcs(module@) ==> defines_func(
                    module@,
                    h,
                    j,
                    #[trigger] final(self).store.functions.spec_funcs()[old(self).store.functions.spec_funcs().len() + j],
                ),
            final(mi).funcs@ == old(mi).funcs@ + fresh_funcs(old(self).store.functions.spec_funcs().len(), defined_funcs(module@)),
            final(self).store.globals == old(self).store.globals,
            final(self).store.tables == old(self).store.tables,
            final(self).store.memories == old(self).store.memories,
            final(self).store.elements == old(self).store.elements,
            final(self).store.data == old(self).store.data,
            final(mi).types == old(mi).types,
            final(mi).exports == old(mi).exports,
            final(mi).tables == old(mi).tables,
            final(mi).mems == old(mi).mems,
            final(mi).globals == old(mi).globals,
            final(mi).datas == old(mi).datas,
            final(mi).elems == old(mi).elems,
    {
        let ghost n0 = self.store.functions.spec_funcs().len();
        let ghost funcs0 = mi.funcs@;
        let (funcsec, codesec, typesec) = match (&module.functions, &module.codes, &module.types) {
            (Some(f), Some(c), Some(t)) => (f, c, t),
            _ => {
                proof {
                    assert(mi.funcs@ =~= funcs0 + fresh_funcs(n0, 0));
                    assert(self.store.functions.spec_funcs().take(n0 as int) =~= self.store.functions.spec_funcs());
                }
                return;
            },
        };
        let k = if funcsec.len() <= codesec.len() {
            funcsec.len()
        } else {
            codesec.len()
        };
        let mut j: usize = 0;
        while j < k
            invariant
                self.building(h, mi),
                self.module_registry == old(self).module_registry,
                module@.functions == Some(funcsec@),
                module@.codes == Some(vec_view(codesec@)),
                module@.types == Some(vec_view(typesec@)),
                k == defined_funcs(module@),
                k <= funcsec@.len(),
                k <= codesec@.len(),
                funcs_typed(module@),
                j <= k,
                n0 == old(self).store.functions.spec_funcs().len(),
                self.store.functions.spec_funcs().len() == n0 + j,
                self.store.functions.spec_funcs().take(n0 as int) == old(self).store.functions.spec_funcs(),
                forall|q: int| 0 <= q < j ==> defines_func(module@, h, q, #[trigger] self.store.functions.spec_funcs()[n0 + q]),
                mi.funcs@ == funcs0 + fresh_funcs(n0, j as nat),
                funcs0 == old(mi).funcs@,
                self.store.globals == old(self).store.globals,
                self.store.tables == old(self).store.tables,
                self.store.memories == old(self).store.memories,
                self.store.elements == old(self).store.elements,
                self.store.data == old(self).store.data,
                mi.types == old(mi).types,
                mi.exports == old(mi).exports,
                mi.tables == old(mi).tables,
                mi.mems == old(mi).mems,
                mi.globals == old(mi).globals,
                mi.datas == old(mi).datas,
                mi.elems == old(mi).elems,
            decreases k - j,
        {
            let typeidx = funcsec[j];
            assert(typeidx < typesec@.len());
            let ftype = typesec[typeidx as usize].clone();
            let ghost before = *self;
            let ghost mi0 = *mi;
            let ghost fs0 = self.store.functions.spec_funcs();
            let a = self.store.functions.allocate(h, ftype, &codesec[j], typeidx);
            mi.funcs.push(a);
            proof {
                assert(store_grows(&before.store, &self.store));
                Runtime::lemma_wf_grown(&before, self);
                lemma_instance_in_grown_store(&before.store, &self.store, &mi0);
                assert(mi.funcs@ =~= funcs0 + fresh_funcs(n0, (j + 1) as nat));
                assert forall|q: int| 0 <= q < mi.funcs@.len() implies (#[trigger] mi.funcs@[q]).0
                    < self.store.functions.spec_funcs().len() by {
                    if q < mi0.funcs@.len() {
                        assert(mi0.funcs@[q] == mi.funcs@[q]);
                    }
                }
                assert(instance_in_store(&self.store, mi));
                assert(self.store.functions.spec_funcs().drop_last() == fs0);
                assert(self.store.functions.spec_funcs().take(n0 as int) =~= fs0.take(n0 as int));
                assert(codesec@[j as int]@ == module@.codes->Some_0[j as int]);
                assert forall|q: int| 0 <= q < j + 1 implies defines_func(module@, h, q, #[trigger] self.store.functions.spec_funcs()[n0 + q]) by {
                    if q < j {
                        assert(self.store.functions.spec_funcs()[n0 + q] == fs0[n0 + q]);
                    }
                }
            }
            j = j + 1;
        }
    }
}


/// Addresses `start`, `start + 1`, ... of `n` new globals.
pub open spec fn fresh_globals(start: nat, n: nat) -> Seq<GlobalAddr> {
    Seq::new(n, |j: int| GlobalAddr((start + j) as usize))
}

/// The globals that a module's entries add to the store's `globals`, in
/// order: each with its type and the value of its expression, evaluated once
/// the globals before it were added. The first evaluation that fails stops it.
pub open spec fn spec_alloc_globals(
    globals: Seq<GlobalInstance>,
    mglobals: Seq<GlobalAddr>,
    mfuncs: Seq<FuncAddr>,
    entries: Seq<GlobalEntryV>,
) -> RunOutcome<Seq<GlobalInstance>>
    decreases entries.len(),
{
    if entries.len() == 0 {
        RunOutcome::Gives(seq![])
    } else {
        match spec_alloc_globals(globals, mglobals, mfuncs, entries.drop_last()) {
            RunOutcome::Gives(new) => match spec_eval(
                globals + new,
                mglobals + fresh_globals(globals.len(), new.len()),
                mfuncs,
                entries.last().body,
            ) {
                RunOutcome::Gives(v) => RunOutcome::Gives(new.push(GlobalInstance { globaltype: entries.last().gt, value: v })),
                RunOutcome::Fails(e) => RunOutcome::Fails(e),
                RunOutcome::Panics => RunOutcome::Panics,
            },
            other => other,
        }
    }
}

/// Whether each function reference in the expressions of global entries is below `n`.
pub open spec fn global_refs_in_range(entries: Seq<GlobalEntryV>, n: int) -> bool {
    forall|j: int| 0 <= j < entries.len() ==> refs_in_range(#[trigger] entries[j].body, n)
}

/// The module's global entries, none when it has no global section.
pub open spec fn module_globals(m: ModuleV) -> Seq<GlobalEntryV> {
    match m.globals {
        Some(g) => g,
        None => seq![],
    }
}

/// Once a prefix of the entries fails, so do all of them.
proof fn lemma_alloc_globals_prefix_fails(
    globals: Seq<GlobalInstance>,
    mglobals: Seq<GlobalAddr>,
    mfuncs: Seq<FuncAddr>,
    entries: Seq<GlobalEntryV>,
    n: int,
)
    requires
        0 <= n <= entries.len(),
        !(spec_alloc_globals(globals, mglobals, mfuncs, entries.take(n)) is Gives),
    ensures
        spec_alloc_globals(globals, mglobals, mfuncs, entries) == spec_alloc_globals(globals, mglobals, mfuncs, entries.take(n)),
    decreases entries.len() - n,
{
    if n < entries.len() {
        assert(entries.take(n + 1).drop_last() =~= entries.take(n));
        lemma_alloc_globals_prefix_fails(globals, mglobals, mfuncs, entries, n + 1);
    } else {
        assert(entries.take(n) =~= entries);
    }
}

impl Runtime {
    /// Allocates the module's globals, in order, each with the value of its
    /// expression.
    fn allocate_globals(&mut self, h: ModuleHandle, module: &Module, mi: &mut ModuleInstance) -> (r: Result<
        (),
        RuntimeErrorKind,
    >)
        requires
            old(self).building(h, old(mi)),
            global_refs_in_range(module_globals(module@), old(mi).funcs@.len() as int),
        ensures
            final(self).building(h, final(mi)),
            final(self).module_registry == old(self).module_registry,
            match spec_alloc_globals(
                old(self).store.globals.0@,
                old(mi).globals@,
                old(mi).funcs@,
                module_globals(module@),
            ) {
                RunOutcome::Gives(new) => r is Ok && final(self).store.globals.0@ == old(self).store.globals.0@ + new
                    && final(mi).globals@ == old(mi).globals@ + fresh_globals(old(self).store.globals.0@.len(), new.len()),
                RunOutcome::Fails(e) => r == Err::<(), RuntimeErrorKind>(e),
                RunOutcome::Panics => false,
            },
            final(self).store.functions == old(self).store.functions,
            final(self).store.tables == old(self).store.tables,
            final(self).store.memories == old(self).store.memories,
            final(self).store.elements == old(self).store.elements,
            final(self).store.data == old(self).store.data,
            final(mi).types == old(mi).types,
            final(mi).exports == old(mi).exports,
            final(mi).funcs == old(mi).funcs,
            final(mi).tables == old(mi).tables,
            final(mi).mems == old(mi).mems,
            final(mi).datas == old(mi).datas,
            final(mi).elems == old(mi).elems,
    {
        let ghost g0 = self.store.globals.0@;
        let ghost mg0 = mi.globals@;
        let ghost entries = module_globals(module@);
        let globalsec = match &module.globals {
            Some(g) => g,
            None => {
                proof {
                    assert(self.store.globals.0@ =~= g0 + seq![]);
                    assert(mi.globals@ =~= mg0 + fresh_globals(g0.len(), 0));
                }
                return Ok(());
            },
        };
        let ghost mut new: Seq<GlobalInstance> = seq![];
        let mut j: usize = 0;
        while j < globalsec.len()
            invariant
                self.building(h, mi),
                self.module_registry == old(self).module_registry,
                entries == vec_view(globalsec@),
                entries == module_globals(module@),
                global_refs_in_range(entries, mi.funcs@.len() as int),
                j <= globalsec@.len(),
                g0 == old(self).store.globals.0@,
                mg0 == old(mi).globals@,
                spec_alloc_globals(g0, mg0, mi.funcs@, entries.take(j as int)) == RunOutcome::Gives(new),
                self.store.globals.0@ == g0 + new,
                mi.globals@ == mg0 + fresh_globals(g0.len(), new.len()),
                self.store.functions == old(self).store.functions,
                self.store.tables == old(self).store.tables,
                self.store.memories == old(self).store.memories,
                self.store.elements == old(self).store.elements,
                self.store.data == old(self).store.data,
                mi.types == old(mi).types,
                mi.exports == old(mi).exports,
                mi.funcs == old(mi).funcs,
                mi.tables == old(mi).tables,
                mi.mems == old(mi).mems,
                mi.datas == old(mi).datas,
                mi.elems == old(mi).elems,
            decreases globalsec@.len() - j,
        {
            let g = &globalsec[j];
            proof {
                assert(entries.take(j + 1).drop_last() =~= entries.take(j as int));
                assert(entries.take(j + 1).last() == g@);
                assert(refs_in_range(entries[j as int].body, mi.funcs@.len() as int));
                lemma_eval_no_panic(self.store.globals.0@, mi.globals@, mi.funcs@, g.body@, 0, None);
                assert forall|q: int| 0 <= q < mi.globals@.len() implies (#[trigger] mi.globals@[q]).0
                    < self.store.globals.0@.len() by {
                    assert(instance_in_store(&self.store, mi));
                }
            }
            let val = match Runtime::eval_expression(&self.store, mi, &g.body) {
                Ok(v) => v,
                Err(e) => {
                    proof {
                        lemma_alloc_globals_prefix_fails(g0, mg0, mi.funcs@, entries, j + 1);
                    }
                    return Err(e);
                },
            };
            let ghost before = *self;
            let ghost mi0 = *mi;
            let a = self.store.globals.allocate(g.gt, val);
            mi.globals.push(a);
            proof {
                assert(store_grows(&before.store, &self.store));
                Runtime::lemma_wf_grown(&before, self);
                lemma_instance_in_grown_store(&before.store, &self.store, &mi0);
                assert forall|q: int| 0 <= q < mi.globals@.len() implies (#[trigger] mi.globals@[q]).0
                    < self.store.globals.0@.len() by {
                    if q < mi0.globals@.len() {
                        assert(mi0.globals@[q] == mi.globals@[q]);
                    }
                }
                assert(instance_in_store(&self.store, mi));
                let new2 = new.push(GlobalInstance { globaltype: g.gt, value: val });
                assert(self.store.globals.0@ =~= g0 + new2);
                assert(mi.globals@ =~= mg0 + fresh_globals(g0.len(), new2.len()));
                new = new2;
            }
            j = j + 1;
        }
        proof {
            assert(entries.take(j as int) =~= entries);
        }
        Ok(())
    }
}


/// The reference that a table entry's entries start as: its expression's
/// value, which must be a reference, or else the null of its element type.
pub open spec fn spec_table_init(
    globals: Seq<GlobalInstance>,
    mglobals: Seq<GlobalAddr>,
    mfuncs: Seq<FuncAddr>,
    t: TableEntryV,
) -> RunOutcome<Ref> {
    match t.expr {
        Some(e) => match spec_eval(globals, mglobals, mfuncs, e) {
            RunOutcome::Gives(Value::Ref(r)) => RunOutcome::Gives(r),
            RunOutcome::Gives(_) => RunOutcome::Fails(RuntimeErrorKind::Internal("mismatched type")),
            RunOutcome::Fails(e) => RunOutcome::Fails(e),
            RunOutcome::Panics => RunOutcome::Panics,
        },
        None => RunOutcome::Gives(Ref::Null(t.tabletype.elemtype)),
    }
}

/// The tables that a module's entries add, in order: each with its type and
/// its minimum size of entries, all set to its initial reference. The first
/// initial reference that fails stops it.
pub open spec fn spec_alloc_tables(
    globals: Seq<GlobalInstance>,
    mglobals: Seq<GlobalAddr>,
    mfuncs: Seq<FuncAddr>,
    entries: Seq<TableEntryV>,
) -> RunOutcome<Seq<(TableType, Seq<Ref>)>>
    decreases entries.len(),
{
    if entries.len() == 0 {
        RunOutcome::Gives(seq![])
    } else {
        match spec_alloc_tables(globals, mglobals, mfuncs, entries.drop_last()) {
            RunOutcome::Gives(new) => {
                let t = entries.last();
                match spec_table_init(globals, mglobals, mfuncs, t) {
                    RunOutcome::Gives(init) => RunOutcome::Gives(
                        new.push((t.tabletype, Seq::new(t.tabletype.limit.min as nat, |i: int| init))),
                    ),
                    RunOutcome::Fails(e) => RunOutcome::Fails(e),
                    RunOutcome::Panics => RunOutcome::Panics,
                }
            },
            other => other,
        }
    }
}

/// The module's table entries, none when it has no table section.
pub open spec fn module_tables(m: ModuleV) -> Seq<TableEntryV> {
    match m.tables {
        Some(t) => t,
        None => seq![],
    }
}

/// Whether each function reference in the expressions of table entries is below `n`.
pub open spec fn table_refs_in_range(entries: Seq<TableEntryV>, n: int) -> bool {
    forall|j: int| 0 <= j < entries.len() ==> ((#[trigger] entries[j]).expr matches Some(e) ==> refs_in_range(e, n))
}

/// Addresses `start`, `start + 1`, ... of `n` new tables.
pub open spec fn fresh_tables(start: nat, n: nat) -> Seq<TableAddr> {
    Seq::new(n, |j: int| TableAddr((start + j) as usize))
}

/// Whether the tables after `start` are, in order, the given types and entries.
pub open spec fn tables_are(tables: Seq<TableInstance>, start: int, new: Seq<(TableType, Seq<Ref>)>) -> bool {
    &&& tables.len() == start + new.len()
    &&& forall|j: int|
        0 <= j < new.len() ==> (#[trigger] tables[start + j]).tabletype == new[j].0 && tables[start + j].refs@ == new[j].1
}

/// Once a prefix of the entries fails, so do all of them.
proof fn lemma_alloc_tables_prefix_fails(
    globals: Seq<GlobalInstance>,
    mglobals: Seq<GlobalAddr>,
    mfuncs: Seq<FuncAddr>,
    entries: Seq<TableEntryV>,
    n: int,
)
    requires
        0 <= n <= entries.len(),
        !(spec_alloc_tables(globals, mglobals, mfuncs, entries.take(n)) is Gives),
    ensures
        spec_alloc_tables(globals, mglobals, mfuncs, entries) == spec_alloc_tables(globals, mglobals, mfuncs, entries.take(n)),
    decreases entries.len() - n,
{
    if n < entries.len() {
        assert(entries.take(n + 1).drop_last() =~= entries.take(n));
        lemma_alloc_tables_prefix_fails(globals, mglobals, mfuncs, entries, n + 1);
    } else {
        assert(entries.take(n) =~= entries);
    }
}

impl Runtime {
    /// Allocates the module's tables, in order.
    fn allocate_tables(&mut self, h: ModuleHandle, module: &Module, mi: &mut ModuleInstance) -> (r: Result<
        (),
        RuntimeErrorKind,
    >)
        requires
            old(self).building(h, old(mi)),
            table_refs_in_range(module_tables(module@), old(mi).funcs@.len() as int),
        ensures
            final(self).building(h, final(mi)),
            final(self).module_registry == old(self).module_registry,
            match spec_alloc_tables(old(self).store.globals.0@, old(mi).globals@, old(mi).funcs@, module_tables(module@)) {
                RunOutcome::Gives(new) => r is Ok && final(self).store.tables.0@.take(old(self).store.tables.0@.len() as int)
                    == old(self).store.tables.0@ && tables_are(
                    final(self).store.tables.0@,
                    old(self).store.tables.0@.len() as int,
                    new,
                ) && final(mi).tables@ == old(mi).tables@ + fresh_tables(old(self).store.tables.0@.len(), new.len()),
                RunOutcome::Fails(e) => r == Err::<(), RuntimeErrorKind>(e),
                RunOutcome::Panics => false,
            },
            final(self).store.functions == old(self).store.functions,
            final(self).store.globals == old(self).store.globals,
            final(self).store.memories == old(self).store.memories,
            final(self).store.elements == old(self).store.elements,
            final(self).store.data == old(self).store.data,
            final(mi).types == old(mi).types,
            final(mi).exports == old(mi).exports,
            final(mi).funcs == old(mi).funcs,
            final(mi).globals == old(mi).globals,
            final(mi).mems == old(mi).mems,
            final(mi).datas == old(mi).datas,
            final(mi).elems == old(mi).elems,
    {
        let ghost t0 = self.store.tables.0@;
        let ghost mt0 = mi.tables@;
        let ghost entries = module_tables(module@);
        let tablesec = match &module.tables {
            Some(t) => t,
            None => {
                proof {
                    assert(self.store.tables.0@.take(t0.len() as int) =~= t0);
                    assert(mi.tables@ =~= mt0 + fresh_tables(t0.len(), 0));
                }
                return Ok(());
            },
        };
        let ghost mut new: Seq<(TableType, Seq<Ref>)> = seq![];
        let mut j: usize = 0;
        while j < tablesec.len()
            invariant
                self.building(h, mi),
                self.module_registry == old(self).module_registry,
                entries == vec_view(tablesec@),
                entries == module_tables(module@),
                table_refs_in_range(entries, mi.funcs@.len() as int),
                j <= tablesec@.len(),
                t0 == old(self).store.tables.0@,
                mt0 == old(mi).tables@,
                spec_alloc_tables(self.store.globals.0@, mi.globals@, mi.funcs@, entries.take(j as int)) == RunOutcome::Gives(new),
                self.store.tables.0@.take(t0.len() as int) == t0,
                tables_are(self.store.tables.0@, t0.len() as int, new),
                mi.tables@ == mt0 + fresh_tables(t0.len(), new.len()),
                self.store.functions == old(self).store.functions,
                self.store.globals == old(self).store.globals,
                self.store.memories == old(self).store.memories,
                self.store.elements == old(self).store.elements,
                self.store.data == old(self).store.data,
                mi.types == old(mi).types,
                mi.exports == old(mi).exports,
                mi.funcs == old(mi).funcs,
                mi.globals == old(mi).globals,
                mi.mems == old(mi).mems,
                mi.datas == old(mi).datas,
                mi.elems == old(mi).elems,
            decreases tablesec@.len() - j,
        {
            let t = &tablesec[j];
            proof {
                assert(entries.take(j + 1).drop_last() =~= entries.take(j as int));
                assert(entries.take(j + 1).last() == t@);
                assert(entries[j as int] == t@);
                assert forall|q: int| 0 <= q < mi.globals@.len() implies (#[trigger] mi.globals@[q]).0
                    < self.store.globals.0@.len() by {
                    assert(instance_in_store(&self.store, mi));
                }
            }
            let init = match &t.expr {
                Some(expr) => {
                    proof {
                        lemma_eval_no_panic(self.store.globals.0@, mi.globals@, mi.funcs@, expr@, 0, None);
                    }
                    match Runtime::eval_expression(&self.store, mi, expr) {
                        Ok(v) => match v.into_ref() {
                            Some(r) => r,
                            None => {
                                proof {
                                    lemma_alloc_tables_prefix_fails(self.store.globals.0@, mi.globals@, mi.funcs@, entries, j + 1);
                                }
                                return Err(RuntimeErrorKind::Internal("mismatched type"));
                            },
                        },
                        Err(e) => {
                            proof {
                                lemma_alloc_tables_prefix_fails(self.store.globals.0@, mi.globals@, mi.funcs@, entries, j + 1);
                            }
                            return Err(e);
                        },
                    }
                },
                None => Ref::Null(t.tabletype.elemtype),
            };
            let size = t.tabletype.limit.min as usize;
            let refs = vec![init; size];
            let ghost before = *self;
            let ghost mi0 = *mi;
            let a = self.store.tables.allocate(t.tabletype, refs);
            mi.tables.push(a);
            proof {
                assert(store_grows(&before.store, &self.store));
                assert forall|q: int| 0 <= q < self.store.tables.0@.len() implies (#[trigger] self.store.tables.0@[q]).refs@.len()
                    <= u32::MAX by {
                    if q < before.store.tables.0@.len() {
                        assert(self.store.tables.0@[q] == before.store.tables.0@[q]);
                    }
                }
                Runtime::lemma_wf_grown(&before, self);
                lemma_instance_in_grown_store(&before.store, &self.store, &mi0);
                assert forall|q: int| 0 <= q < mi.tables@.len() implies (#[trigger] mi.tables@[q]).0
                    < self.store.tables.0@.len() by {
                    if q < mi0.tables@.len() {
                        assert(mi0.tables@[q] == mi.tables@[q]);
                    }
                }
                assert(instance_in_store(&self.store, mi));
                let new2 = new.push((t.tabletype, Seq::new(t.tabletype.limit.min as nat, |i: int| init)));
                assert(refs@ =~= Seq::new(t.tabletype.limit.min as nat, |i: int| init));
                assert(self.store.tables.0@.take(t0.len() as int) =~= before.store.tables.0@.take(t0.len() as int));
                assert forall|q: int| 0 <= q < new2.len() implies (#[trigger] self.store.tables.0@[t0.len() + q]).tabletype
                    == new2[q].0 && self.store.tables.0@[t0.len() + q].refs@ == new2[q].1 by {
                    if q < new.len() {
                        assert(self.store.tables.0@[t0.len() + q] == before.store.tables.0@[t0.len() + q]);
                    }
                }
                assert(mi.tables@ =~= mt0 + fresh_tables(t0.len(), new2.len()));
                new = new2;
            }
            j = j + 1;
        }
        proof {
            assert(entries.take(j as int) =~= entries);
        }
        Ok(())
    }
}


/// The references that element expressions evaluate to, in order; each
/// must be a reference of the given type. The first that fails stops it.
pub open spec fn spec_eval_refs(
    globals: Seq<GlobalInstance>,
    mglobals: Seq<GlobalAddr>,
    mfuncs: Seq<FuncAddr>,
    exprs: Seq<Seq<InstrV>>,
    rt: RefType,
) -> RunOutcome<Seq<Ref>>
    decreases exprs.len(),
{
    if exprs.len() == 0 {
        RunOutcome::Gives(seq![])
    } else {
        match spec_eval_refs(globals, mglobals, mfuncs, exprs.drop_last(), rt) {
            RunOutcome::Gives(refs) => match spec_eval(globals, mglobals, mfuncs, exprs.last()) {
                RunOutcome::Gives(v) => match v {
                    Value::Ref(r) => if spec_is_ref_type(r, rt) {
                        RunOutcome::Gives(refs.push(r))
                    } else {
                        RunOutcome::Fails(RuntimeErrorKind::Internal("mismatched type"))
                    },
                    _ => RunOutcome::Fails(RuntimeErrorKind::Internal("mismatched type")),
                },
                RunOutcome::Fails(e) => RunOutcome::Fails(e),
                RunOutcome::Panics => RunOutcome::Panics,
            },
            other => other,
        }
    }
}

/// The element segment that a module's segment becomes: its reference type,
/// its references and whether it is dropped. A declarative segment is
/// dropped at once; a segment of function indices refers to the module's
/// functions, one out of range panics.
pub open spec fn spec_elem_segment(
    globals: Seq<GlobalInstance>,
    mglobals: Seq<GlobalAddr>,
    mfuncs: Seq<FuncAddr>,
    seg: ElementSegmentV,
) -> RunOutcome<(RefType, Seq<Ref>, bool)> {
    if seg.mode is Declarative {
        RunOutcome::Gives((spec_items_reftype(seg.items), seq![], true))
    } else {
        match seg.items {
            ElementSegmentItemsV::Functions(items) => if forall|k: int| 0 <= k < items.len() ==> (#[trigger] items[k]).0 < mfuncs.len() {
                RunOutcome::Gives((RefType::Func, items.map_values(|it: FuncIndex| Ref::Func(mfuncs[it.0 as int])), false))
            } else {
                RunOutcome::Panics
            },
            ElementSegmentItemsV::Expressions(rt, exprs) => match spec_eval_refs(globals, mglobals, mfuncs, exprs, rt) {
                RunOutcome::Gives(refs) => RunOutcome::Gives((rt, refs, false)),
                RunOutcome::Fails(e) => RunOutcome::Fails(e),
                RunOutcome::Panics => RunOutcome::Panics,
            },
        }
    }
}

/// The element segments that a module's segments add, in order. The first
/// that fails stops it.
pub open spec fn spec_alloc_elements(
    globals: Seq<GlobalInstance>,
    mglobals: Seq<GlobalAddr>,
    mfuncs: Seq<FuncAddr>,
    segs: Seq<ElementSegmentV>,
) -> RunOutcome<Seq<(RefType, Seq<Ref>, bool)>>
    decreases segs.len(),
{
    if segs.len() == 0 {
        RunOutcome::Gives(seq![])
    } else {
        match spec_alloc_elements(globals, mglobals, mfuncs, segs.drop_last()) {
            RunOutcome::Gives(new) => match spec_elem_segment(globals, mglobals, mfuncs, segs.last()) {
                RunOutcome::Gives(e) => RunOutcome::Gives(new.push(e)),
                RunOutcome::Fails(e) => RunOutcome::Fails(e),
                RunOutcome::Panics => RunOutcome::Panics,
            },
            other => other,
        }
    }
}

/// The module's element segments, none when it has no element section.
pub open spec fn module_elements(m: ModuleV) -> Seq<ElementSegmentV> {
    match m.elements {
        Some(e) => e,
        None => seq![],
    }
}

/// Whether each function a segment refers to, by index or in an expression, is below `n`.
pub open spec fn elem_refs_in_range(segs: Seq<ElementSegmentV>, n: int) -> bool {
    forall|j: int| 0 <= j < segs.len() ==> match (#[trigger] segs[j]).items {
        ElementSegmentItemsV::Functions(items) => forall|k: int| 0 <= k < items.len() ==> (#[trigger] items[k]).0 < n,
        ElementSegmentItemsV::Expressions(_, exprs) => forall|k: int| 0 <= k < exprs.len() ==> refs_in_range(#[trigger] exprs[k], n),
    }
}

/// Addresses `start`, `start + 1`, ... of `n` new element segments.
pub open spec fn fresh_elems(start: nat, n: nat) -> Seq<ElemAddr> {
    Seq::new(n, |j: int| ElemAddr((start + j) as usize))
}

/// Whether the element segments after `start` are, in order, the given ones.
pub open spec fn elems_are(elems: Seq<ElemInstance>, start: int, new: Seq<(RefType, Seq<Ref>, bool)>) -> bool {
    &&& elems.len() == start + new.len()
    &&& forall|j: int|
        0 <= j < new.len() ==> (#[trigger] elems[start + j]).spec_elemtype() == new[j].0 && elems[start + j].spec_refs()
            == new[j].1 && elems[start + j].spec_dropped() == new[j].2
}

proof fn lemma_eval_refs_prefix_fails(
    globals: Seq<GlobalInstance>,
    mglobals: Seq<GlobalAddr>,
    mfuncs: Seq<FuncAddr>,
    exprs: Seq<Seq<InstrV>>,
    rt: RefType,
    n: int,
)
    requires
        0 <= n <= exprs.len(),
        !(spec_eval_refs(globals, mglobals, mfuncs, exprs.take(n), rt) is Gives),
    ensures
        spec_eval_refs(globals, mglobals, mfuncs, exprs, rt) == spec_eval_refs(globals, mglobals, mfuncs, exprs.take(n), rt),
    decreases exprs.len() - n,
{
    if n < exprs.len() {
        assert(exprs.take(n + 1).drop_last() =~= exprs.take(n));
        lemma_eval_refs_prefix_fails(globals, mglobals, mfuncs, exprs, rt, n + 1);
    } else {
        assert(exprs.take(n) =~= exprs);
    }
}

proof fn lemma_alloc_elements_prefix_fails(
    globals: Seq<GlobalInstance>,
    mglobals: Seq<GlobalAddr>,
    mfuncs: Seq<FuncAddr>,
    segs: Seq<ElementSegmentV>,
    n: int,
)
    requires
        0 <= n <= segs.len(),
        !(spec_alloc_elements(globals, mglobals, mfuncs, segs.take(n)) is Gives),
    ensures
        spec_alloc_elements(globals, mglobals, mfuncs, segs) == spec_alloc_elements(globals, mglobals, mfuncs, segs.take(n)),
    decreases segs.len() - n,
{
    if n < segs.len() {
        assert(segs.take(n + 1).drop_last() =~= segs.take(n));
        lemma_alloc_elements_prefix_fails(globals, mglobals, mfuncs, segs, n + 1);
    } else {
        assert(segs.take(n) =~= segs);
    }
}

impl Runtime {
    /// The references of a segment of function indices.
    fn func_refs(items: &Vec<FuncIndex>, mi: &ModuleInstance) -> (r: Vec<Ref>)
        requires
            forall|k: int| 0 <= k < items@.len() ==> (#[trigger] items@[k]).0 < mi.funcs@.len(),
        ensures
            r@ == items@.map_values(|it: FuncIndex| Ref::Func(mi.funcs@[it.0 as int])),
    {
        let mut refs: Vec<Ref> = Vec::new();
        let mut k: usize = 0;
        while k < items.len()
            invariant
                k <= items@.len(),
                forall|q: int| 0 <= q < items@.len() ==> (#[trigger] items@[q]).0 < mi.funcs@.len(),
                refs@ == items@.take(k as int).map_values(|it: FuncIndex| Ref::Func(mi.funcs@[it.0 as int])),
            decreases items@.len() - k,
        {
            refs.push(Ref::Func(mi.funcs[items[k].0 as usize]));
            k = k + 1;
            proof {
                assert(refs@ =~= items@.take(k as int).map_values(|it: FuncIndex| Ref::Func(mi.funcs@[it.0 as int])));
            }
        }
        proof {
            assert(items@.take(k as int) =~= items@);
        }
        refs
    }

    /// The references that element expressions evaluate to.
    fn eval_refs(store: &Store, mi: &ModuleInstance, exprs: &Vec<ConstExpression>, rt: RefType) -> (r: Result<
        Vec<Ref>,
        RuntimeErrorKind,
    >)
        requires
            instance_in_store(store, mi),
            forall|k: int| 0 <= k < exprs@.len() ==> refs_in_range(#[trigger] exprs@[k]@, mi.funcs@.len() as int),
        ensures
            match spec_eval_refs(store.globals.0@, mi.globals@, mi.funcs@, vec_view(exprs@), rt) {
                RunOutcome::Gives(refs) => r is Ok && r->Ok_0@ == refs,
                RunOutcome::Fails(e) => r == Err::<Vec<Ref>, RuntimeErrorKind>(e),
                RunOutcome::Panics => false,
            },
    {
        let ghost es = vec_view(exprs@);
        let mut refs: Vec<Ref> = Vec::new();
        let mut k: usize = 0;
        while k < exprs.len()
            invariant
                instance_in_store(store, mi),
                es == vec_view(exprs@),
                forall|q: int| 0 <= q < exprs@.len() ==> refs_in_range(#[trigger] exprs@[q]@, mi.funcs@.len() as int),
                k <= exprs@.len(),
                spec_eval_refs(store.globals.0@, mi.globals@, mi.funcs@, es.take(k as int), rt) == RunOutcome::Gives(refs@),
            decreases exprs@.len() - k,
        {
            proof {
                assert(es.take(k + 1).drop_last() =~= es.take(k as int));
                assert(es.take(k + 1).last() == exprs@[k as int]@);
                lemma_eval_no_panic(store.globals.0@, mi.globals@, mi.funcs@, exprs@[k as int]@, 0, None);
                assert forall|q: int| 0 <= q < mi.globals@.len() implies (#[trigger] mi.globals@[q]).0
                    < store.globals.0@.len() by {}
            }
            let v = match Runtime::eval_expression(store, mi, &exprs[k]) {
                Ok(v) => v,
                Err(e) => {
                    proof {
                        lemma_eval_refs_prefix_fails(store.globals.0@, mi.globals@, mi.funcs@, es, rt, k + 1);
                    }
                    return Err(e);
                },
            };
            match v.into_ref_checked(&rt) {
                Some(r) => refs.push(r),
                None => {
                    proof {
                        lemma_eval_refs_prefix_fails(store.globals.0@, mi.globals@, mi.funcs@, es, rt, k + 1);
                    }
                    return Err(RuntimeErrorKind::Internal("mismatched type"));
                },
            }
            k = k + 1;
        }
        proof {
            assert(es.take(k as int) =~= es);
        }
        Ok(refs)
    }

    /// Allocates the module's element segments, in order; a declarative one
    /// is dropped at once.
    fn allocate_elements(&mut self, h: ModuleHandle, module: &Module, mi: &mut ModuleInstance) -> (r: Result<
        (),
        RuntimeErrorKind,
    >)
        requires
            old(self).building(h, old(mi)),
            elem_refs_in_range(module_elements(module@), old(mi).funcs@.len() as int),
        ensures
            final(self).building(h, final(mi)),
            final(self).module_registry == old(self).module_registry,
            match spec_alloc_elements(old(self).store.globals.0@, old(mi).globals@, old(mi).funcs@, module_elements(module@)) {
                RunOutcome::Gives(new) => r is Ok && final(self).store.elements.0@.take(old(self).store.elements.0@.len() as int)
                    == old(self).store.elements.0@ && elems_are(
                    final(self).store.elements.0@,
                    old(self).store.elements.0@.len() as int,
                    new,
                ) && final(mi).elems@ == old(mi).elems@ + fresh_elems(old(self).store.elements.0@.len(), new.len()),
                RunOutcome::Fails(e) => r == Err::<(), RuntimeErrorKind>(e),
                RunOutcome::Panics => false,
            },
            final(self).store.functions == old(self).store.functions,
            final(self).store.globals == old(self).store.globals,
            final(self).store.tables == old(self).store.tables,
            final(self).store.memories == old(self).store.memories,
            final(self).store.data == old(self).store.data,
            final(mi).types == old(mi).types,
            final(mi).exports == old(mi).exports,
            final(mi).funcs == old(mi).funcs,
            final(mi).globals == old(mi).globals,
            final(mi).tables == old(mi).tables,
            final(mi).mems == old(mi).mems,
            final(mi).datas == old(mi).datas,
    {
        let ghost e0 = self.store.elements.0@;
        let ghost me0 = mi.elems@;
        let ghost segs = module_elements(module@);
        let elementsec = match &module.elements {
            Some(e) => e,
            None => {
                proof {
                    assert(self.store.elements.0@.take(e0.len() as int) =~= e0);
                    assert(mi.elems@ =~= me0 + fresh_elems(e0.len(), 0));
                }
                return Ok(());
            },
        };
        let ghost mut new: Seq<(RefType, Seq<Ref>, bool)> = seq![];
        let mut j: usize = 0;
        while j < elementsec.len()
            invariant
                self.building(h, mi),
                self.module_registry == old(self).module_registry,
                segs == vec_view(elementsec@),
                segs == module_elements(module@),
                elem_refs_in_range(segs, mi.funcs@.len() as int),
                j <= elementsec@.len(),
                e0 == old(self).store.elements.0@,
                me0 == old(mi).elems@,
                spec_alloc_elements(self.store.globals.0@, mi.globals@, mi.funcs@, segs.take(j as int)) == RunOutcome::Gives(new),
                self.store.elements.0@.take(e0.len() as int) == e0,
                elems_are(self.store.elements.0@, e0.len() as int, new),
                mi.elems@ == me0 + fresh_elems(e0.len(), new.len()),
                self.store.functions == old(self).store.functions,
                self.store.globals == old(self).store.globals,
                self.store.tables == old(self).store.tables,
                self.store.memories == old(self).store.memories,
                self.store.data == old(self).store.data,
                mi.types == old(mi).types,
                mi.exports == old(mi).exports,
                mi.funcs == old(mi).funcs,
                mi.globals == old(mi).globals,
                mi.tables == old(mi).tables,
                mi.mems == old(mi).mems,
                mi.datas == old(mi).datas,
            decreases elementsec@.len() - j,
        {
            let e = &elementsec[j];
            proof {
                assert(segs.take(j + 1).drop_last() =~= segs.take(j as int));
                assert(segs.take(j + 1).last() == e@);
                assert(segs[j as int] == e@);
            }
            let ghost before = *self;
            let ghost mi0 = *mi;
            let ghost seg_model: (RefType, Seq<Ref>, bool);
            let a = if matches!(e.mode, ElementSegmentMode::Declarative) {
                let a = self.store.elements.allocate(e.reftype(), Vec::new());
                self.store.elements.drop(a);
                proof {
                    seg_model = (spec_items_reftype(e@.items), seq![], true);
                }
                a
            } else {
                match &e.items {
                    ElementSegmentItems::Functions(items) => {
                        let refs = Runtime::func_refs(items, mi);
                        proof {
                            seg_model = (RefType::Func, refs@, false);
                        }
                        self.store.elements.allocate(RefType::Func, refs)
                    },
                    ElementSegmentItems::Expressions(rt, exprs) => {
                        proof {
                            assert forall|k: int| 0 <= k < exprs@.len() implies refs_in_range(#[trigger] exprs@[k]@, mi.funcs@.len() as int) by {
                                assert(vec_view(exprs@)[k] == exprs@[k]@);
                            }
                        }
                        let refs = match Runtime::eval_refs(&self.store, mi, exprs, *rt) {
                            Ok(refs) => refs,
                            Err(err) => {
                                proof {
                                    lemma_alloc_elements_prefix_fails(self.store.globals.0@, mi.globals@, mi.funcs@, segs, j + 1);
                                }
                                return Err(err);
                            },
                        };
                        proof {
                            seg_model = (*rt, refs@, false);
                        }
                        self.store.elements.allocate(*rt, refs)
                    },
                }
            };
            mi.elems.push(a);
            proof {
                assert(spec_elem_segment(self.store.globals.0@, mi.globals@, mi.funcs@, e@) == RunOutcome::Gives(seg_model));
                assert(store_grows(&before.store, &self.store));
                Runtime::lemma_wf_grown(&before, self);
                lemma_instance_in_grown_store(&before.store, &self.store, &mi0);
                assert forall|q: int| 0 <= q < mi.elems@.len() implies (#[trigger] mi.elems@[q]).0
                    < self.store.elements.0@.len() by {
                    if q < mi0.elems@.len() {
                        assert(mi0.elems@[q] == mi.elems@[q]);
                    }
                }
                assert(instance_in_store(&self.store, mi));
                let new2 = new.push(seg_model);
                assert(self.store.elements.0@.take(e0.len() as int) =~= before.store.elements.0@.take(e0.len() as int));
                assert forall|q: int| 0 <= q < new2.len() implies (#[trigger] self.store.elements.0@[e0.len() + q]).spec_elemtype()
                    == new2[q].0 && self.store.elements.0@[e0.len() + q].spec_refs() == new2[q].1
                    && self.store.elements.0@[e0.len() + q].spec_dropped() == new2[q].2 by {
                    if q < new.len() {
                        assert(self.store.elements.0@[e0.len() + q] == before.store.elements.0@[e0.len() + q]);
                    }
                }
                assert(mi.elems@ =~= me0 + fresh_elems(e0.len(), new2.len()));
                new = new2;
            }
            j = j + 1;
        }
        proof {
            assert(segs.take(j as int) =~= segs);
        }
        Ok(())
    }
}


/// The module's memory types, none when it has no memory section.
pub open spec fn module_memories(m: ModuleV) -> Seq<MemType> {
    match m.memories {
        Some(t) => t,
        None => seq![],
    }
}

/// Addresses `start`, `start + 1`, ... of `n` new memories.
pub open spec fn fresh_mems(start: nat, n: nat) -> Seq<MemAddr> {
    Seq::new(n, |j: int| MemAddr((start + j) as usize))
}

/// The value an export entry gives: the address of the function, table,
/// memory or global of its index.
pub open spec fn export_value(
    e: ExportEntryV,
    mfuncs: Seq<FuncAddr>,
    mtables: Seq<TableAddr>,
    mmems: Seq<MemAddr>,
    mglobals: Seq<GlobalAddr>,
) -> ExternVal {
    match e.kind {
        ExportKind::Func => ExternVal::Func(mfuncs[e.index as int]),
        ExportKind::Table => ExternVal::Table(mtables[e.index as int].0),
        ExportKind::Memory => ExternVal::Mem(mmems[e.index as int].0),
        ExportKind::Global => ExternVal::Global(mglobals[e.index as int].0),
    }
}

/// The exports of a module by name; a name exported again gives its last value.
pub open spec fn spec_exports(
    exports: Seq<ExportEntryV>,
    mfuncs: Seq<FuncAddr>,
    mtables: Seq<TableAddr>,
    mmems: Seq<MemAddr>,
    mglobals: Seq<GlobalAddr>,
) -> Map<Seq<char>, ExternVal>
    decreases exports.len(),
{
    if exports.len() == 0 {
        Map::empty()
    } else {
        spec_exports(exports.drop_last(), mfuncs, mtables, mmems, mglobals).insert(
            exports.last().name,
            export_value(exports.last(), mfuncs, mtables, mmems, mglobals),
        )
    }
}

/// Whether an export's index is in range of its kind.
pub open spec fn export_in_range(e: ExportEntryV, nfuncs: int, ntables: int, nmems: int, nglobals: int) -> bool {
    match e.kind {
        ExportKind::Func => e.index < nfuncs,
        ExportKind::Table => e.index < ntables,
        ExportKind::Memory => e.index < nmems,
        ExportKind::Global => e.index < nglobals,
    }
}

/// The module's exports, none when it has no export section.
pub open spec fn module_exports(m: ModuleV) -> Seq<ExportEntryV> {
    match m.exports {
        Some(e) => e,
        None => seq![],
    }
}

/// The module's data segments, none when it has no data section.
pub open spec fn module_data(m: ModuleV) -> Seq<DataSegmentV> {
    match m.data {
        Some(d) => d,
        None => seq![],
    }
}

/// Addresses `start`, `start + 1`, ... of `n` new data segments.
pub open spec fn fresh_datas(start: nat, n: nat) -> Seq<DataAddr> {
    Seq::new(n, |j: int| DataAddr((start + j) as usize))
}

/// The exports of a module whose addresses are in the store are in the store.
proof fn lemma_exports_in_store(
    store: &Store,
    exports: Seq<ExportEntryV>,
    mfuncs: Seq<FuncAddr>,
    mtables: Seq<TableAddr>,
    mmems: Seq<MemAddr>,
    mglobals: Seq<GlobalAddr>,
)
    requires
        forall|i: int| 0 <= i < mfuncs.len() ==> (#[trigger] mfuncs[i]).0 < store.functions.spec_funcs().len(),
        forall|i: int| 0 <= i < mtables.len() ==> (#[trigger] mtables[i]).0 < store.tables.0@.len(),
        forall|i: int| 0 <= i < mmems.len() ==> (#[trigger] mmems[i]).0 < store.memories.0@.len(),
        forall|i: int| 0 <= i < mglobals.len() ==> (#[trigger] mglobals[i]).0 < store.globals.0@.len(),
        forall|j: int|
            0 <= j < exports.len() ==> export_in_range(
                #[trigger] exports[j],
                mfuncs.len() as int,
                mtables.len() as int,
                mmems.len() as int,
                mglobals.len() as int,
            ),
    ensures
        exports_in_store(store, spec_exports(exports, mfuncs, mtables, mmems, mglobals)),
    decreases exports.len(),
{
    if exports.len() > 0 {
        let p = exports.drop_last();
        assert forall|j: int| 0 <= j < p.len() implies export_in_range(
            #[trigger] p[j],
            mfuncs.len() as int,
            mtables.len() as int,
            mmems.len() as int,
            mglobals.len() as int,
        ) by {
            assert(p[j] == exports[j]);
        }
        lemma_exports_in_store(store, p, mfuncs, mtables, mmems, mglobals);
        assert(export_in_range(exports[exports.len() - 1], mfuncs.len() as int, mtables.len() as int, mmems.len() as int, mglobals.len() as int));
        let m = spec_exports(exports, mfuncs, mtables, mmems, mglobals);
        assert forall|n: Seq<char>| #[trigger] m.contains_key(n) implies extern_in_store(store, m[n]) by {
            if n != exports.last().name {
                assert(spec_exports(p, mfuncs, mtables, mmems, mglobals).contains_key(n));
            }
        }
    }
}

impl Runtime {
    /// A copy of the module's types, none when it has no type section.
    fn copy_types(module: &Module) -> (r: Vec<FuncType>)
        ensures
            vec_view(r@) == module_types(module@.types),
    {
        let mut out: Vec<FuncType> = Vec::new();
        match &module.types {
            Some(types) => {
                let mut k: usize = 0;
                while k < types.len()
                    invariant
                        k <= types@.len(),
                        vec_view(out@) == vec_view(types@).take(k as int),
                    decreases types@.len() - k,
                {
                    let c = types[k].clone();
                    let ghost prev = out@;
                    out.push(c);
                    proof {
                        assert(vec_view(prev).len() == prev.len());
                        assert(prev.len() == k);
                        assert forall|q: int| 0 <= q < k + 1 implies #[trigger] vec_view(out@)[q] == vec_view(types@)[q] by {
                            if q < k {
                                assert(out@[q] == prev[q]);
                                assert(vec_view(prev)[q] == vec_view(types@).take(k as int)[q]);
                            }
                        }
                        assert(vec_view(out@) =~= vec_view(types@).take(k + 1));
                    }
                    k = k + 1;
                }
                proof {
                    assert(vec_view(types@).take(k as int) =~= vec_view(types@));
                }
            },
            None => {
                proof {
                    assert(vec_view(out@) =~= Seq::<crate::binary::types::FuncTypeV>::empty());
                }
            },
        }
        out
    }

    /// Allocates the module's memory, of its minimum size.
    fn allocate_memories(&mut self, h: ModuleHandle, module: &Module, mi: &mut ModuleInstance)
        requires
            old(self).building(h, old(mi)),
            module_memories(module@).len() <= 1,
            forall|j: int| 0 <= j < module_memories(module@).len() ==> (#[trigger] module_memories(module@)[j]).0.min
                * WASM_MEM_PAGE_BYTE_SIZE <= usize::MAX,
        ensures
            final(self).building(h, final(mi)),
            final(self).module_registry == old(self).module_registry,
            final(self).store.memories.0@.len() == old(self).store.memories.0@.len() + module_memories(module@).len(),
            final(self).store.memories.0@.take(old(self).store.memories.0@.len() as int) == old(self).store.memories.0@,
            forall|j: int|
                0 <= j < module_memories(module@).len() ==> (#[trigger] final(self).store.memories.0@[old(
                    self,
                ).store.memories.0@.len() + j]).memtype == module_memories(module@)[j] && final(self).store.memories.0@[old(
                    self,
                ).store.memories.0@.len() + j].data@ == initial_memory(module_memories(module@)[j]),
            final(mi).mems@ == old(mi).mems@ + fresh_mems(old(self).store.memories.0@.len(), module_memories(module@).len()),
            final(self).store.functions == old(self).store.functions,
            final(self).store.globals == old(self).store.globals,
            final(self).store.tables == old(self).store.tables,
            final(self).store.elements == old(self).store.elements,
            final(self).store.data == old(self).store.data,
            final(mi).types == old(mi).types,
            final(mi).exports == old(mi).exports,
            final(mi).funcs == old(mi).funcs,
            final(mi).globals == old(mi).globals,
            final(mi).tables == old(mi).tables,
            final(mi).elems == old(mi).elems,
            final(mi).datas == old(mi).datas,
    {
        let ghost m0 = self.store.memories.0@;
        let ghost mm0 = mi.mems@;
        if let Some(memsec) = &module.memories {
            if memsec.len() > 0 {
                let memtype = &memsec[0];
                proof {
                    assert(module_memories(module@)[0] == *memtype);
                }
                let ghost before = *self;
                let ghost mi0 = *mi;
                let a = self.store.memories.allocate(memtype);
                mi.mems.push(a);
                proof {
                    assert(store_grows(&before.store, &self.store));
                    Runtime::lemma_wf_grown(&before, self);
                    lemma_instance_in_grown_store(&before.store, &self.store, &mi0);
                    assert forall|q: int| 0 <= q < mi.mems@.len() implies (#[trigger] mi.mems@[q]).0
                        < self.store.memories.0@.len() by {
                        if q < mi0.mems@.len() {
                            assert(mi0.mems@[q] == mi.mems@[q]);
                        }
                    }
                    assert(instance_in_store(&self.store, mi));
                    assert(self.store.memories.0@.take(m0.len() as int) =~= self.store.memories.0@.drop_last());
                    assert(mi.mems@ =~= mm0 + fresh_mems(m0.len(), 1));
                }
                return;
            }
        }
        proof {
            assert(self.store.memories.0@.take(m0.len() as int) =~= m0);
            assert(mi.mems@ =~= mm0 + fresh_mems(m0.len(), 0));
        }
    }

    /// Gives the module instance its exports.
    fn allocate_exports(module: &Module, mi: &mut ModuleInstance)
        requires
            old(mi).exports@ == Map::<Seq<char>, ExternVal>::empty(),
            forall|j: int|
                0 <= j < module_exports(module@).len() ==> export_in_range(
                    #[trigger] module_exports(module@)[j],
                    old(mi).funcs@.len() as int,
                    old(mi).tables@.len() as int,
                    old(mi).mems@.len() as int,
                    old(mi).globals@.len() as int,
                ),
        ensures
            final(mi).exports@ == spec_exports(module_exports(module@), old(mi).funcs@, old(mi).tables@, old(mi).mems@, old(mi).globals@),
            final(mi).types == old(mi).types,
            final(mi).funcs == old(mi).funcs,
            final(mi).globals == old(mi).globals,
            final(mi).tables == old(mi).tables,
            final(mi).mems == old(mi).mems,
            final(mi).elems == old(mi).elems,
            final(mi).datas == old(mi).datas,
    {
        let exports = match &module.exports {
            Some(e) => e,
            None => {
                return;
            },
        };
        let ghost es = module_exports(module@);
        let mut j: usize = 0;
        while j < exports.len()
            invariant
                es == vec_view(exports@),
                es == module_exports(module@),
                j <= exports@.len(),
                forall|q: int|
                    0 <= q < es.len() ==> export_in_range(
                        #[trigger] es[q],
                        mi.funcs@.len() as int,
                        mi.tables@.len() as int,
                        mi.mems@.len() as int,
                        mi.globals@.len() as int,
                    ),
                mi.exports@ == spec_exports(es.take(j as int), mi.funcs@, mi.tables@, mi.mems@, mi.globals@),
                mi.types == old(mi).types,
                mi.funcs == old(mi).funcs,
                mi.globals == old(mi).globals,
                mi.tables == old(mi).tables,
                mi.mems == old(mi).mems,
                mi.elems == old(mi).elems,
                mi.datas == old(mi).datas,
            decreases exports@.len() - j,
        {
            let export = &exports[j];
            proof {
                assert(es[j as int] == export@);
                assert(es.take(j + 1).drop_last() =~= es.take(j as int));
            }
            let idx = export.index as usize;
            let val = match export.kind {
                ExportKind::Func => ExternVal::Func(mi.funcs[idx]),
                ExportKind::Table => ExternVal::Table(mi.tables[idx].0),
                ExportKind::Memory => ExternVal::Mem(mi.mems[idx].0),
                ExportKind::Global => ExternVal::Global(mi.globals[idx].0),
            };
            mi.exports.insert(export.name.clone(), val);
            j = j + 1;
        }
        proof {
            assert(es.take(j as int) =~= es);
        }
    }

    /// Allocates the module's data segments, in order.
    fn allocate_data(&mut self, h: ModuleHandle, module: &Module, mi: &mut ModuleInstance)
        requires
            old(self).building(h, old(mi)),
        ensures
            final(self).building(h, final(mi)),
            final(self).module_registry == old(self).module_registry,
            final(self).store.data.0@.len() == old(self).store.data.0@.len() + module_data(module@).len(),
            final(self).store.data.0@.take(old(self).store.data.0@.len() as int) == old(self).store.data.0@,
            forall|j: int|
                0 <= j < module_data(module@).len() ==> (#[trigger] final(self).store.data.0@[old(self).store.data.0@.len()
                    + j]).spec_data() == module_data(module@)[j].data && !final(self).store.data.0@[old(self).store.data.0@.len()
                    + j].spec_dropped(),
            final(mi).datas@ == old(mi).datas@ + fresh_datas(old(self).store.data.0@.len(), module_data(module@).len()),
            final(self).store.functions == old(self).store.functions,
            final(self).store.globals == old(self).store.globals,
            final(self).store.tables == old(self).store.tables,
            final(self).store.elements == old(self).store.elements,
            final(self).store.memories == old(self).store.memories,
            final(mi).types == old(mi).types,
            final(mi).exports == old(mi).exports,
            final(mi).funcs == old(mi).funcs,
            final(mi).globals == old(mi).globals,
            final(mi).tables == old(mi).tables,
            final(mi).elems == old(mi).elems,
            final(mi).mems == old(mi).mems,
    {
        let ghost d0 = self.store.data.0@;
        let ghost md0 = mi.datas@;
        let ghost ds = module_data(module@);
        let datasec = match &module.data {
            Some(d) => d,
            None => {
                proof {
                    assert(self.store.data.0@.take(d0.len() as int) =~= d0);
                    assert(mi.datas@ =~= md0 + fresh_datas(d0.len(), 0));
                }
                return;
            },
        };
        let mut j: usize = 0;
        while j < datasec.len()
            invariant
                self.building(h, mi),
                self.module_registry == old(self).module_registry,
                ds == vec_view(datasec@),
                ds == module_data(module@),
                j <= datasec@.len(),
                d0 == old(self).store.data.0@,
                md0 == old(mi).datas@,
                self.store.data.0@.len() == d0.len() + j,
                self.store.data.0@.take(d0.len() as int) == d0,
                forall|q: int|
                    0 <= q < j ==> (#[trigger] self.store.data.0@[d0.len() + q]).spec_data() == ds[q].data
                        && !self.store.data.0@[d0.len() + q].spec_dropped(),
                mi.datas@ == md0 + fresh_datas(d0.len(), j as nat),
                self.store.functions == old(self).store.functions,
                self.store.globals == old(self).store.globals,
                self.store.tables == old(self).store.tables,
                self.store.elements == old(self).store.elements,
                self.store.memories == old(self).store.memories,
                mi.types == old(mi).types,
                mi.exports == old(mi).exports,
                mi.funcs == old(mi).funcs,
                mi.globals == old(mi).globals,
                mi.tables == old(mi).tables,
                mi.elems == old(mi).elems,
                mi.mems == old(mi).mems,
            decreases datasec@.len() - j,
        {
            let ghost before = *self;
            let ghost mi0 = *mi;
            let a = self.store.data.allocate(&datasec[j]);
            mi.datas.push(a);
            proof {
                assert(ds[j as int] == datasec@[j as int]@);
                assert(store_grows(&before.store, &self.store));
                Runtime::lemma_wf_grown(&before, self);
                lemma_instance_in_grown_store(&before.store, &self.store, &mi0);
                assert forall|q: int| 0 <= q < mi.datas@.len() implies (#[trigger] mi.datas@[q]).0
                    < self.store.data.0@.len() by {
                    if q < mi0.datas@.len() {
                        assert(mi0.datas@[q] == mi.datas@[q]);
                    }
                }
                assert(instance_in_store(&self.store, mi));
                assert(self.store.data.0@.take(d0.len() as int) =~= before.store.data.0@.take(d0.len() as int));
                assert forall|q: int| 0 <= q < j + 1 implies (#[trigger] self.store.data.0@[d0.len() + q]).spec_data()
                    == ds[q].data && !self.store.data.0@[d0.len() + q].spec_dropped() by {
                    if q < j {
                        assert(self.store.data.0@[d0.len() + q] == before.store.data.0@[d0.len() + q]);
                    }
                }
                assert(mi.datas@ =~= md0 + fresh_datas(d0.len(), (j + 1) as nat));
            }
            j = j + 1;
        }
    }
}


/// The number of items of an element segment.
pub open spec fn spec_items_len(items: ElementSegmentItemsV) -> nat {
    match items {
        ElementSegmentItemsV::Functions(f) => f.len(),
        ElementSegmentItemsV::Expressions(_, e) => e.len(),
    }
}

/// The entries of each table.
pub open spec fn table_refs(ts: Seq<TableInstance>) -> Seq<Seq<Ref>> {
    ts.map_values(|t: TableInstance| t.refs@)
}

/// The references of each element segment.
pub open spec fn elem_refs(es: Seq<ElemInstance>) -> Seq<Seq<Ref>> {
    es.map_values(|e: ElemInstance| e.spec_refs())
}

/// Whether each element segment was dropped.
pub open spec fn elem_drops(es: Seq<ElemInstance>) -> Seq<bool> {
    es.map_values(|e: ElemInstance| e.spec_dropped())
}

/// What initializing tables from the active element segments comes to, in
/// order of the segments: the entries of each table, and the references of
/// each segment and whether it was dropped. An active segment's offset is
/// evaluated, its items are copied into its table there, and it is dropped;
/// the first that fails stops it.
pub open spec fn spec_init_elems(
    globals: Seq<GlobalInstance>,
    mi: InstanceV,
    segs: Seq<ElementSegmentV>,
    tabs: Seq<Seq<Ref>>,
    els: Seq<Seq<Ref>>,
    drops: Seq<bool>,
) -> RunOutcome<(Seq<Seq<Ref>>, Seq<Seq<Ref>>, Seq<bool>)>
    decreases segs.len(),
{
    if segs.len() == 0 {
        RunOutcome::Gives((tabs, els, drops))
    } else {
        match spec_init_elems(globals, mi, segs.drop_last(), tabs, els, drops) {
            RunOutcome::Gives((tabs, els, drops)) => {
                let j = segs.len() - 1;
                match segs.last().mode {
                    ElementSegmentModeV::Active { table_index, offset } => match spec_eval(
                        globals,
                        mi.globals,
                        mi.funcs,
                        offset,
                    ) {
                        RunOutcome::Gives(Value::I32(src)) => {
                            let n = spec_items_len(segs.last().items) as int;
                            let ta = mi.tables[table_index.unwrap_or(0) as int].0 as int;
                            let ea = mi.elems[j].0 as int;
                            let dst = (src as usize) as int;
                            if dst + n <= tabs[ta].len() && n <= els[ea].len() {
                                RunOutcome::Gives(
                                    (
                                        tabs.update(ta, overwrite(tabs[ta], dst, els[ea].subrange(0, n))),
                                        els.update(ea, seq![]),
                                        drops.update(ea, true),
                                    ),
                                )
                            } else {
                                RunOutcome::Fails(RuntimeErrorKind::Trap(TrapErrorKind::OutOfBoundsTableAccess))
                            }
                        },
                        RunOutcome::Gives(_) => RunOutcome::Fails(RuntimeErrorKind::Internal("expected i32")),
                        RunOutcome::Fails(e) => RunOutcome::Fails(e),
                        RunOutcome::Panics => RunOutcome::Panics,
                    },
                    _ => RunOutcome::Gives((tabs, els, drops)),
                }
            },
            other => other,
        }
    }
}

/// Whether each active element segment's table is in range, and its offset's
/// function references are below `nfuncs`.
pub open spec fn elem_inits_in_range(segs: Seq<ElementSegmentV>, ntables: int, nfuncs: int) -> bool {
    forall|j: int|
        0 <= j < segs.len() ==> ((#[trigger] segs[j]).mode matches ElementSegmentModeV::Active { table_index, offset }
            ==> table_index.unwrap_or(0) < ntables && refs_in_range(offset, nfuncs))
}

proof fn lemma_init_elems_prefix_fails(
    globals: Seq<GlobalInstance>,
    mi: InstanceV,
    segs: Seq<ElementSegmentV>,
    tabs: Seq<Seq<Ref>>,
    els: Seq<Seq<Ref>>,
    drops: Seq<bool>,
    n: int,
)
    requires
        0 <= n <= segs.len(),
        !(spec_init_elems(globals, mi, segs.take(n), tabs, els, drops) is Gives),
    ensures
        spec_init_elems(globals, mi, segs, tabs, els, drops) == spec_init_elems(globals, mi, segs.take(n), tabs, els, drops),
    decreases segs.len() - n,
{
    if n < segs.len() {
        assert(segs.take(n + 1).drop_last() =~= segs.take(n));
        lemma_init_elems_prefix_fails(globals, mi, segs, tabs, els, drops, n + 1);
    } else {
        assert(segs.take(n) =~= segs);
    }
}

impl Runtime {
    /// Initializes tables from the module's active element segments, in
    /// order, dropping each segment once copied.
    fn init_elements(&mut self, h: ModuleHandle, module: &Module) -> (r: Result<(), RuntimeErrorKind>)
        requires
            old(self).wf(),
            h.index() < old(self).module_registry.spec_entries().len(),
            old(self).module_registry.spec_entries()[h.index() as int] matches Some(ModuleEntry::Wasm(mi)) && mi.elems@.len()
                == module_elements(module@).len() && elem_inits_in_range(
                module_elements(module@),
                mi.tables@.len() as int,
                mi.funcs@.len() as int,
            ),
        ensures
            final(self).wf(),
            final(self).module_registry == old(self).module_registry,
            ({
                let mi = old(self).module_registry.spec_entries()[h.index() as int]->Some_0->Wasm_0;
                match spec_init_elems(
                    old(self).store.globals.0@,
                    mi@,
                    module_elements(module@),
                    table_refs(old(self).store.tables.0@),
                    elem_refs(old(self).store.elements.0@),
                    elem_drops(old(self).store.elements.0@),
                ) {
                    RunOutcome::Gives((tabs, els, drops)) => r is Ok && table_refs(final(self).store.tables.0@) == tabs
                        && elem_refs(final(self).store.elements.0@) == els && elem_drops(final(self).store.elements.0@)
                        == drops,
                    RunOutcome::Fails(e) => r == Err::<(), RuntimeErrorKind>(e),
                    RunOutcome::Panics => false,
                }
            }),
            final(self).store.tables.0@.len() == old(self).store.tables.0@.len(),
            forall|t: int|
                0 <= t < old(self).store.tables.0@.len() ==> (#[trigger] final(self).store.tables.0@[t]).tabletype == old(
                    self,
                ).store.tables.0@[t].tabletype,
            final(self).store.elements.0@.len() == old(self).store.elements.0@.len(),
            forall|t: int|
                0 <= t < old(self).store.elements.0@.len() ==> (#[trigger] final(self).store.elements.0@[t]).spec_elemtype()
                    == old(self).store.elements.0@[t].spec_elemtype(),
            final(self).store.functions == old(self).store.functions,
            final(self).store.globals == old(self).store.globals,
            final(self).store.memories == old(self).store.memories,
            final(self).store.data == old(self).store.data,
    {
        let ghost mi0 = self.module_registry.spec_entries()[h.index() as int]->Some_0->Wasm_0;
        let ghost segs = module_elements(module@);
        let ghost t0 = self.store.tables.0@;
        let ghost e0 = self.store.elements.0@;
        let elementsec = match &module.elements {
            Some(e) => e,
            None => {
                return Ok(());
            },
        };
        let mi = match self.module_registry.get_instance(h) {
            Some(mi) => mi,
            None => {
                proof {
                    assert(false);
                }
                return Ok(());
            },
        };
        proof {
            assert(*mi == mi0);
            assert(entry_in_store(&self.store, ModuleEntry::Wasm(mi0)));
        }
        let ghost mut tabs = table_refs(t0);
        let ghost mut els = elem_refs(e0);
        let ghost mut drops = elem_drops(e0);
        let mut j: usize = 0;
        while j < elementsec.len()
            invariant
                self.wf(),
                self.module_registry == old(self).module_registry,
                *mi == mi0,
                old(self).module_registry.spec_entries()[h.index() as int] == Some(ModuleEntry::Wasm(mi0)),
                instance_in_store(&self.store, mi),
                segs == vec_view(elementsec@),
                segs == module_elements(module@),
                mi.elems@.len() == segs.len(),
                elem_inits_in_range(segs, mi.tables@.len() as int, mi.funcs@.len() as int),
                j <= elementsec@.len(),
                t0 == old(self).store.tables.0@,
                e0 == old(self).store.elements.0@,
                spec_init_elems(self.store.globals.0@, mi0@, segs.take(j as int), table_refs(t0), elem_refs(e0), elem_drops(e0))
                    == RunOutcome::Gives((tabs, els, drops)),
                table_refs(self.store.tables.0@) == tabs,
                elem_refs(self.store.elements.0@) == els,
                elem_drops(self.store.elements.0@) == drops,
                self.store.tables.0@.len() == t0.len(),
                forall|t: int| 0 <= t < t0.len() ==> (#[trigger] self.store.tables.0@[t]).tabletype == t0[t].tabletype,
                self.store.elements.0@.len() == e0.len(),
                forall|t: int| 0 <= t < e0.len() ==> (#[trigger] self.store.elements.0@[t]).spec_elemtype() == e0[t].spec_elemtype(),
                self.store.functions == old(self).store.functions,
                self.store.globals == old(self).store.globals,
                self.store.memories == old(self).store.memories,
                self.store.data == old(self).store.data,
            decreases elementsec@.len() - j,
        {
            let e = &elementsec[j];
            proof {
                assert(segs.take(j + 1).drop_last() =~= segs.take(j as int));
                assert(segs.take(j + 1).last() == e@);
                assert(segs[j as int] == e@);
            }
            if let ElementSegmentMode::Active { table_index, offset } = &e.mode {
                let n = match &e.items {
                    ElementSegmentItems::Functions(items) => items.len(),
                    ElementSegmentItems::Expressions(_, exprs) => exprs.len(),
                };
                proof {
                    lemma_eval_no_panic(self.store.globals.0@, mi.globals@, mi.funcs@, offset@, 0, None);
                    assert forall|q: int| 0 <= q < mi.globals@.len() implies (#[trigger] mi.globals@[q]).0
                        < self.store.globals.0@.len() by {}
                }
                let src = match Runtime::eval_expression(&self.store, mi, offset) {
                    Ok(v) => match v.as_i32() {
                        Some(src) => src,
                        None => {
                            proof {
                                lemma_init_elems_prefix_fails(self.store.globals.0@, mi0@, segs, table_refs(t0), elem_refs(e0), elem_drops(e0), j + 1);
                            }
                            return Err(RuntimeErrorKind::Internal("expected i32"));
                        },
                    },
                    Err(err) => {
                        proof {
                            lemma_init_elems_prefix_fails(self.store.globals.0@, mi0@, segs, table_refs(t0), elem_refs(e0), elem_drops(e0), j + 1);
                        }
                        return Err(err);
                    },
                };
                let ea = mi.elems[j];
                let ti = match table_index {
                    Some(t) => *t,
                    None => 0,
                };
                let ta = mi.tables[ti as usize];
                let ghost before = self.store;
                let elem = self.store.elements.get(ea);
                let res = self.store.tables.get_mut(ta).init(src as usize, 0, n, elem);
                match res {
                    Ok(()) => {},
                    Err(k) => {
                        proof {
                            assert(elem_refs(before.elements.0@)[ea.0 as int] == before.elements.0@[ea.0 as int].spec_refs());
                            assert(table_refs(before.tables.0@)[ta.0 as int] == before.tables.0@[ta.0 as int].refs@);
                            lemma_init_elems_prefix_fails(self.store.globals.0@, mi0@, segs, table_refs(t0), elem_refs(e0), elem_drops(e0), j + 1);
                        }
                        return Err(RuntimeErrorKind::Trap(k));
                    },
                }
                let ghost mid = self.store;
                self.store.elements.drop(ea);
                proof {
                    let dst = (src as usize) as int;
                    let ni = n as int;
                    assert(elem_refs(before.elements.0@)[ea.0 as int] == before.elements.0@[ea.0 as int].spec_refs());
                    assert(table_refs(before.tables.0@)[ta.0 as int] == before.tables.0@[ta.0 as int].refs@);
                    let tabs2 = tabs.update(ta.0 as int, overwrite(tabs[ta.0 as int], dst, els[ea.0 as int].subrange(0, ni)));
                    let els2 = els.update(ea.0 as int, seq![]);
                    let drops2 = drops.update(ea.0 as int, true);
                    assert(before.elements.0@[ea.0 as int].spec_refs().subrange(0, ni) == els[ea.0 as int].subrange(0, ni));
                    assert(table_refs(self.store.tables.0@) =~= tabs2);
                    assert(elem_refs(self.store.elements.0@) =~= els2);
                    assert(elem_drops(self.store.elements.0@) =~= drops2);
                    tabs = tabs2;
                    els = els2;
                    drops = drops2;
                    assert(store_grows(&old(self).store, &self.store));
                    assert forall|i: int|
                        0 <= i < self.module_registry.spec_entries().len() && (#[trigger] self.module_registry.spec_entries()[i]) is Some
                        implies entry_in_store(&self.store, self.module_registry.spec_entries()[i]->Some_0) by {
                        lemma_entry_in_grown_store(&old(self).store, &self.store, self.module_registry.spec_entries()[i]->Some_0);
                    }
                    assert forall|q: int| 0 <= q < self.store.tables.0@.len() implies (#[trigger] self.store.tables.0@[q]).refs@.len()
                        <= u32::MAX by {
                        assert(table_refs(before.tables.0@)[q].len() == table_refs(self.store.tables.0@)[q].len());
                        assert(before.tables.0@[q].refs@.len() <= u32::MAX);
                    }
                    lemma_instance_in_grown_store(&old(self).store, &self.store, mi);
                }
            }
            j = j + 1;
        }
        proof {
            assert(segs.take(j as int) =~= segs);
        }
        Ok(())
    }
}


/// The bytes of each memory.
pub open spec fn mem_bytes(ms: Seq<MemoryInstance>) -> Seq<Seq<u8>> {
    ms.map_values(|m: MemoryInstance| m.data@)
}

/// The bytes of each data segment.
pub open spec fn data_bytes(ds: Seq<DataInstance>) -> Seq<Seq<u8>> {
    ds.map_values(|d: DataInstance| d.spec_data())
}

/// Whether each data segment was dropped.
pub open spec fn data_drops(ds: Seq<DataInstance>) -> Seq<bool> {
    ds.map_values(|d: DataInstance| d.spec_dropped())
}

/// What initializing memories from the active data segments comes to, in
/// order of the segments: the bytes of each memory, and the bytes of each
/// segment and whether it was dropped. An active segment's offset is
/// evaluated, its bytes are copied into its memory there, and it is dropped;
/// the first that fails stops it.
pub open spec fn spec_init_datas(
    globals: Seq<GlobalInstance>,
    mi: InstanceV,
    segs: Seq<DataSegmentV>,
    mems: Seq<Seq<u8>>,
    datas: Seq<Seq<u8>>,
    drops: Seq<bool>,
) -> RunOutcome<(Seq<Seq<u8>>, Seq<Seq<u8>>, Seq<bool>)>
    decreases segs.len(),
{
    if segs.len() == 0 {
        RunOutcome::Gives((mems, datas, drops))
    } else {
        match spec_init_datas(globals, mi, segs.drop_last(), mems, datas, drops) {
            RunOutcome::Gives((mems, datas, drops)) => {
                let j = segs.len() - 1;
                match segs.last().mode {
                    DataSegmentModeV::Active { mem_index, offset } => match spec_eval(
                        globals,
                        mi.globals,
                        mi.funcs,
                        offset,
                    ) {
                        RunOutcome::Gives(Value::I32(src)) => {
                            let n = segs.last().data.len() as int;
                            let ma = mi.mems[mem_index as int].0 as int;
                            let da = mi.datas[j].0 as int;
                            let dst = (src as usize) as int;
                            if dst + n <= mems[ma].len() && n <= datas[da].len() {
                                RunOutcome::Gives(
                                    (
                                        mems.update(ma, overwrite(mems[ma], dst, datas[da].subrange(0, n))),
                                        datas.update(da, seq![]),
                                        drops.update(da, true),
                                    ),
                                )
                            } else {
                                RunOutcome::Fails(RuntimeErrorKind::Trap(TrapErrorKind::OutOfBoundsMemoryAccess))
                            }
                        },
                        RunOutcome::Gives(_) => RunOutcome::Fails(RuntimeErrorKind::Internal("expected i32")),
                        RunOutcome::Fails(e) => RunOutcome::Fails(e),
                        RunOutcome::Panics => RunOutcome::Panics,
                    },
                    _ => RunOutcome::Gives((mems, datas, drops)),
                }
            },
            other => other,
        }
    }
}

/// Whether each active data segment's memory is in range, and its offset's
/// function references are below `nfuncs`.
pub open spec fn data_inits_in_range(segs: Seq<DataSegmentV>, nmems: int, nfuncs: int) -> bool {
    forall|j: int|
        0 <= j < segs.len() ==> ((#[trigger] segs[j]).mode matches DataSegmentModeV::Active { mem_index, offset }
            ==> mem_index < nmems && refs_in_range(offset, nfuncs))
}

proof fn lemma_init_datas_prefix_fails(
    globals: Seq<GlobalInstance>,
    mi: InstanceV,
    segs: Seq<DataSegmentV>,
    mems: Seq<Seq<u8>>,
    datas: Seq<Seq<u8>>,
    drops: Seq<bool>,
    n: int,
)
    requires
        0 <= n <= segs.len(),
        !(spec_init_datas(globals, mi, segs.take(n), mems, datas, drops) is Gives),
    ensures
        spec_init_datas(globals, mi, segs, mems, datas, drops) == spec_init_datas(globals, mi, segs.take(n), mems, datas, drops),
    decreases segs.len() - n,
{
    if n < segs.len() {
        assert(segs.take(n + 1).drop_last() =~= segs.take(n));
        lemma_init_datas_prefix_fails(globals, mi, segs, mems, datas, drops, n + 1);
    } else {
        assert(segs.take(n) =~= segs);
    }
}

impl Runtime {
    /// Initializes memories from the module's active data segments, in
    /// order, dropping each segment once copied.
    fn init_data(&mut self, h: ModuleHandle, module: &Module) -> (r: Result<(), RuntimeErrorKind>)
        requires
            old(self).wf(),
            h.index() < old(self).module_registry.spec_entries().len(),
            old(self).module_registry.spec_entries()[h.index() as int] matches Some(ModuleEntry::Wasm(mi)) && mi.datas@.len()
                == module_data(module@).len() && data_inits_in_range(
                module_data(module@),
                mi.mems@.len() as int,
                mi.funcs@.len() as int,
            ),
        ensures
            final(self).wf(),
            final(self).module_registry == old(self).module_registry,
            ({
                let mi = old(self).module_registry.spec_entries()[h.index() as int]->Some_0->Wasm_0;
                match spec_init_datas(
                    old(self).store.globals.0@,
                    mi@,
                    module_data(module@),
                    mem_bytes(old(self).store.memories.0@),
                    data_bytes(old(self).store.data.0@),
                    data_drops(old(self).store.data.0@),
                ) {
                    RunOutcome::Gives((mems, datas, drops)) => r is Ok && mem_bytes(final(self).store.memories.0@) == mems
                        && data_bytes(final(self).store.data.0@) == datas && data_drops(final(self).store.data.0@) == drops,
                    RunOutcome::Fails(e) => r == Err::<(), RuntimeErrorKind>(e),
                    RunOutcome::Panics => false,
                }
            }),
            final(self).store.memories.0@.len() == old(self).store.memories.0@.len(),
            forall|t: int|
                0 <= t < old(self).store.memories.0@.len() ==> (#[trigger] final(self).store.memories.0@[t]).memtype == old(
                    self,
                ).store.memories.0@[t].memtype,
            final(self).store.data.0@.len() == old(self).store.data.0@.len(),
            final(self).store.functions == old(self).store.functions,
            final(self).store.globals == old(self).store.globals,
            final(self).store.tables == old(self).store.tables,
            final(self).store.elements == old(self).store.elements,
    {
        let ghost mi0 = self.module_registry.spec_entries()[h.index() as int]->Some_0->Wasm_0;
        let ghost segs = module_data(module@);
        let ghost m0 = self.store.memories.0@;
        let ghost d0 = self.store.data.0@;
        let datasec = match &module.data {
            Some(d) => d,
            None => {
                return Ok(());
            },
        };
        let mi = match self.module_registry.get_instance(h) {
            Some(mi) => mi,
            None => {
                proof {
                    assert(false);
                }
                return Ok(());
            },
        };
        proof {
            assert(*mi == mi0);
            assert(entry_in_store(&self.store, ModuleEntry::Wasm(mi0)));
        }
        let ghost mut mems = mem_bytes(m0);
        let ghost mut datas = data_bytes(d0);
        let ghost mut drops = data_drops(d0);
        let mut j: usize = 0;
        while j < datasec.len()
            invariant
                self.wf(),
                self.module_registry == old(self).module_registry,
                *mi == mi0,
                h.index() < old(self).module_registry.spec_entries().len(),
                old(self).module_registry.spec_entries()[h.index() as int] == Some(ModuleEntry::Wasm(mi0)),
                instance_in_store(&self.store, mi),
                segs == vec_view(datasec@),
                segs == module_data(module@),
                mi.datas@.len() == segs.len(),
                data_inits_in_range(segs, mi.mems@.len() as int, mi.funcs@.len() as int),
                j <= datasec@.len(),
                m0 == old(self).store.memories.0@,
                d0 == old(self).store.data.0@,
                spec_init_datas(self.store.globals.0@, mi0@, segs.take(j as int), mem_bytes(m0), data_bytes(d0), data_drops(d0))
                    == RunOutcome::Gives((mems, datas, drops)),
                mem_bytes(self.store.memories.0@) == mems,
                data_bytes(self.store.data.0@) == datas,
                data_drops(self.store.data.0@) == drops,
                self.store.memories.0@.len() == m0.len(),
                forall|t: int| 0 <= t < m0.len() ==> (#[trigger] self.store.memories.0@[t]).memtype == m0[t].memtype,
                self.store.data.0@.len() == d0.len(),
                self.store.functions == old(self).store.functions,
                self.store.globals == old(self).store.globals,
                self.store.tables == old(self).store.tables,
                self.store.elements == old(self).store.elements,
            decreases datasec@.len() - j,
        {
            let d = &datasec[j];
            proof {
                assert(segs.take(j + 1).drop_last() =~= segs.take(j as int));
                assert(segs.take(j + 1).last() == d@);
                assert(segs[j as int] == d@);
            }
            if let DataSegmentMode::Active { mem_index, offset } = &d.mode {
                let n = d.data.len();
                proof {
                    lemma_eval_no_panic(self.store.globals.0@, mi.globals@, mi.funcs@, offset@, 0, None);
                    assert forall|q: int| 0 <= q < mi.globals@.len() implies (#[trigger] mi.globals@[q]).0
                        < self.store.globals.0@.len() by {}
                }
                let src = match Runtime::eval_expression(&self.store, mi, offset) {
                    Ok(v) => match v.as_i32() {
                        Some(src) => src,
                        None => {
                            proof {
                                lemma_init_datas_prefix_fails(self.store.globals.0@, mi0@, segs, mem_bytes(m0), data_bytes(d0), data_drops(d0), j + 1);
                            }
                            return Err(RuntimeErrorKind::Internal("expected i32"));
                        },
                    },
                    Err(err) => {
                        proof {
                            lemma_init_datas_prefix_fails(self.store.globals.0@, mi0@, segs, mem_bytes(m0), data_bytes(d0), data_drops(d0), j + 1);
                        }
                        return Err(err);
                    },
                };
                let da = mi.datas[j];
                let ma = mi.mems[*mem_index as usize];
                let ghost before = self.store;
                let data = self.store.data.get(da);
                let res = self.store.memories.get_mut(ma).init(src as usize, 0, n, data);
                match res {
                    Ok(()) => {},
                    Err(k) => {
                        proof {
                            assert(data_bytes(before.data.0@)[da.0 as int] == before.data.0@[da.0 as int].spec_data());
                            assert(mem_bytes(before.memories.0@)[ma.0 as int] == before.memories.0@[ma.0 as int].data@);
                            lemma_init_datas_prefix_fails(self.store.globals.0@, mi0@, segs, mem_bytes(m0), data_bytes(d0), data_drops(d0), j + 1);
                        }
                        return Err(RuntimeErrorKind::Trap(k));
                    },
                }
                self.store.data.drop(da);
                proof {
                    let dst = (src as usize) as int;
                    let ni = n as int;
                    assert(data_bytes(before.data.0@)[da.0 as int] == before.data.0@[da.0 as int].spec_data());
                    assert(mem_bytes(before.memories.0@)[ma.0 as int] == before.memories.0@[ma.0 as int].data@);
                    let mems2 = mems.update(ma.0 as int, overwrite(mems[ma.0 as int], dst, datas[da.0 as int].subrange(0, ni)));
                    let datas2 = datas.update(da.0 as int, seq![]);
                    let drops2 = drops.update(da.0 as int, true);
                    assert(mem_bytes(self.store.memories.0@) =~= mems2);
                    assert(data_bytes(self.store.data.0@) =~= datas2);
                    assert(data_drops(self.store.data.0@) =~= drops2);
                    mems = mems2;
                    datas = datas2;
                    drops = drops2;
                    assert(store_grows(&old(self).store, &self.store));
                    assert forall|i: int|
                        0 <= i < self.module_registry.spec_entries().len() && (#[trigger] self.module_registry.spec_entries()[i]) is Some
                        implies entry_in_store(&self.store, self.module_registry.spec_entries()[i]->Some_0) by {
                        lemma_entry_in_grown_store(&old(self).store, &self.store, self.module_registry.spec_entries()[i]->Some_0);
                    }
                    lemma_instance_in_grown_store(&old(self).store, &self.store, mi);
                }
            }
            j = j + 1;
        }
        proof {
            assert(segs.take(j as int) =~= segs);
        }
        Ok(())
    }
}


/// Linking gives as many values of each kind as there are imports of it.
proof fn lemma_link_counts(rt: &Runtime, types: Seq<FuncTypeV>, ims: Seq<ImportEntryV>)
    requires
        spec_link_imports(rt, types, ims) is Ok,
    ensures
        ({
            let evs = spec_link_imports(rt, types, ims)->Ok_0;
            &&& extern_funcs(evs).len() == count_imports(ims, ImportDescType::Func)
            &&& extern_tables(evs).len() == count_imports(ims, ImportDescType::Table)
            &&& extern_mems(evs).len() == count_imports(ims, ImportDescType::Mem)
            &&& extern_globals(evs).len() == count_imports(ims, ImportDescType::Global)
        }),
    decreases ims.len(),
{
    if ims.len() > 0 {
        lemma_link_counts(rt, types, ims.drop_last());
        let evs0 = spec_link_imports(rt, types, ims.drop_last())->Ok_0;
        let ev = rt.module_registry.spec_resolve(ims.last().mod_name, ims.last().name)->Some_0;
        let v = spec_link_import(&rt.store, types, ims.last().desc, ev)->Ok_0;
        assert(spec_link_imports(rt, types, ims)->Ok_0 == evs0.push(v));
        assert(evs0.push(v).drop_last() == evs0);
    }
}

/// The addresses among linked values are in the store.
proof fn lemma_extern_in_store(store: &Store, evs: Seq<ExternVal>)
    requires
        forall|k: int| 0 <= k < evs.len() ==> extern_in_store(store, #[trigger] evs[k]),
    ensures
        forall|i: int| 0 <= i < extern_funcs(evs).len() ==> (#[trigger] extern_funcs(evs)[i]).0 < store.functions.spec_funcs().len(),
        forall|i: int| 0 <= i < extern_tables(evs).len() ==> (#[trigger] extern_tables(evs)[i]).0 < store.tables.0@.len(),
        forall|i: int| 0 <= i < extern_mems(evs).len() ==> (#[trigger] extern_mems(evs)[i]).0 < store.memories.0@.len(),
        forall|i: int| 0 <= i < extern_globals(evs).len() ==> (#[trigger] extern_globals(evs)[i]).0 < store.globals.0@.len(),
    decreases evs.len(),
{
    if evs.len() > 0 {
        let p = evs.drop_last();
        assert forall|k: int| 0 <= k < p.len() implies extern_in_store(store, #[trigger] p[k]) by {
            assert(p[k] == evs[k]);
        }
        lemma_extern_in_store(store, p);
        assert(extern_in_store(store, evs[evs.len() - 1]));
        match evs.last() {
            ExternVal::Func(a) => {
                assert forall|i: int| 0 <= i < extern_funcs(evs).len() implies (#[trigger] extern_funcs(evs)[i]).0
                    < store.functions.spec_funcs().len() by {
                    if i < extern_funcs(p).len() {
                        assert(extern_funcs(evs)[i] == extern_funcs(p)[i]);
                    }
                }
            },
            ExternVal::Table(a) => {
                assert forall|i: int| 0 <= i < extern_tables(evs).len() implies (#[trigger] extern_tables(evs)[i]).0
                    < store.tables.0@.len() by {
                    if i < extern_tables(p).len() {
                        assert(extern_tables(evs)[i] == extern_tables(p)[i]);
                    }
                }
            },
            ExternVal::Mem(a) => {
                assert forall|i: int| 0 <= i < extern_mems(evs).len() implies (#[trigger] extern_mems(evs)[i]).0
                    < store.memories.0@.len() by {
                    if i < extern_mems(p).len() {
                        assert(extern_mems(evs)[i] == extern_mems(p)[i]);
                    }
                }
            },
            ExternVal::Global(a) => {
                assert forall|i: int| 0 <= i < extern_globals(evs).len() implies (#[trigger] extern_globals(evs)[i]).0
                    < store.globals.0@.len() by {
                    if i < extern_globals(p).len() {
                        assert(extern_globals(evs)[i] == extern_globals(p)[i]);
                    }
                }
            },
        }
    }
}

/// Allocation gives one global per entry.
proof fn lemma_alloc_globals_len(
    globals: Seq<GlobalInstance>,
    mglobals: Seq<GlobalAddr>,
    mfuncs: Seq<FuncAddr>,
    entries: Seq<GlobalEntryV>,
)
    requires
        spec_alloc_globals(globals, mglobals, mfuncs, entries) is Gives,
    ensures
        spec_alloc_globals(globals, mglobals, mfuncs, entries)->Gives_0.len() == entries.len(),
    decreases entries.len(),
{
    if entries.len() > 0 {
        lemma_alloc_globals_len(globals, mglobals, mfuncs, entries.drop_last());
    }
}

/// Allocation gives one table per entry.
proof fn lemma_alloc_tables_len(
    globals: Seq<GlobalInstance>,
    mglobals: Seq<GlobalAddr>,
    mfuncs: Seq<FuncAddr>,
    entries: Seq<TableEntryV>,
)
    requires
        spec_alloc_tables(globals, mglobals, mfuncs, entries) is Gives,
    ensures
        spec_alloc_tables(globals, mglobals, mfuncs, entries)->Gives_0.len() == entries.len(),
    decreases entries.len(),
{
    if entries.len() > 0 {
        lemma_alloc_tables_len(globals, mglobals, mfuncs, entries.drop_last());
    }
}

/// Allocation gives one element segment per segment.
proof fn lemma_alloc_elements_len(
    globals: Seq<GlobalInstance>,
    mglobals: Seq<GlobalAddr>,
    mfuncs: Seq<FuncAddr>,
    segs: Seq<ElementSegmentV>,
)
    requires
        spec_alloc_elements(globals, mglobals, mfuncs, segs) is Gives,
    ensures
        spec_alloc_elements(globals, mglobals, mfuncs, segs)->Gives_0.len() == segs.len(),
    decreases segs.len(),
{
    if segs.len() > 0 {
        lemma_alloc_elements_len(globals, mglobals, mfuncs, segs.drop_last());
    }
}

/// Whether a module's indices are in range where instantiation relies on
/// them: the type of each function, the functions that expressions and
/// segments refer to, the table, memory or global of each export, the table
/// of each active element segment, the memory of each active data segment,
/// the start function; and at most one memory, whose size fits a `usize`.
/// Validation does not check these.
pub open spec fn instantiable(m: ModuleV) -> bool {
    let nfuncs = (imported_count(m, ImportDescType::Func) + defined_funcs(m)) as int;
    let ntables = (imported_count(m, ImportDescType::Table) + module_tables(m).len()) as int;
    let nmems = (imported_count(m, ImportDescType::Mem) + module_memories(m).len()) as int;
    let nglobals = (imported_count(m, ImportDescType::Global) + module_globals(m).len()) as int;
    &&& imports_typed(module_types(m.types), module_imports(m.imports))
    &&& funcs_typed(m)
    &&& global_refs_in_range(module_globals(m), nfuncs)
    &&& table_refs_in_range(module_tables(m), nfuncs)
    &&& elem_refs_in_range(module_elements(m), nfuncs)
    &&& module_memories(m).len() <= 1
    &&& forall|j: int|
        0 <= j < module_memories(m).len() ==> (#[trigger] module_memories(m)[j]).0.min * WASM_MEM_PAGE_BYTE_SIZE
            <= usize::MAX
    &&& forall|j: int|
        0 <= j < module_exports(m).len() ==> export_in_range(
            #[trigger] module_exports(m)[j],
            nfuncs,
            ntables,
            nmems,
            nglobals,
        )
    &&& elem_inits_in_range(module_elements(m), ntables, nfuncs)
    &&& data_inits_in_range(module_data(m), nmems, nfuncs)
    &&& (m.start matches Some(s) ==> s.0 < nfuncs)
}

/// The model of a successful instantiation: the module instance, the
/// globals, tables and element segments allocated, and then the entries of
/// every table, the references of every element segment, the bytes of every
/// memory and of every data segment once the active segments were copied.
pub struct InstantiatedV {
    pub inst: InstanceV,
    pub new_globals: Seq<GlobalInstance>,
    pub new_tables: Seq<(TableType, Seq<Ref>)>,
    pub new_elems: Seq<(RefType, Seq<Ref>, bool)>,
    pub tables: Seq<Seq<Ref>>,
    pub elems: Seq<Seq<Ref>>,
    pub elem_drops: Seq<bool>,
    pub mems: Seq<Seq<u8>>,
    pub datas: Seq<Seq<u8>>,
    pub data_drops: Seq<bool>,
}

/// What instantiating a module comes to: an unlinkable import, or else the
/// outcome of allocating and initializing it, in the order of the module's
/// sections.
pub open spec fn spec_instantiate(rt: &Runtime, m: ModuleV) -> Result<RunOutcome<InstantiatedV>, UnlinkableError> {
    match spec_link_imports(rt, module_types(m.types), module_imports(m.imports)) {
        Err(e) => Err(e),
        Ok(evs) => {
            let st = rt.store;
            let mfuncs = extern_funcs(evs) + fresh_funcs(st.functions.spec_funcs().len(), defined_funcs(m));
            let g0 = st.globals.0@;
            Ok(
                match spec_alloc_globals(g0, extern_globals(evs), mfuncs, module_globals(m)) {
                    RunOutcome::Gives(gnew) => {
                        let globals = g0 + gnew;
                        let mglobals = extern_globals(evs) + fresh_globals(g0.len(), gnew.len());
                        match spec_alloc_tables(globals, mglobals, mfuncs, module_tables(m)) {
                            RunOutcome::Gives(tnew) => match spec_alloc_elements(globals, mglobals, mfuncs, module_elements(m)) {
                                RunOutcome::Gives(enew) => {
                                    let mtables = extern_tables(evs) + fresh_tables(st.tables.0@.len(), tnew.len());
                                    let mmems = extern_mems(evs) + fresh_mems(st.memories.0@.len(), module_memories(m).len());
                                    let inst = InstanceV {
                                        types: module_types(m.types),
                                        funcs: mfuncs,
                                        tables: mtables,
                                        mems: mmems,
                                        globals: mglobals,
                                        elems: fresh_elems(st.elements.0@.len(), enew.len()),
                                        datas: fresh_datas(st.data.0@.len(), module_data(m).len()),
                                        exports: spec_exports(module_exports(m), mfuncs, mtables, mmems, mglobals),
                                    };
                                    match spec_init_elems(
                                        globals,
                                        inst,
                                        module_elements(m),
                                        table_refs(st.tables.0@) + tnew.map_values(|t: (TableType, Seq<Ref>)| t.1),
                                        elem_refs(st.elements.0@) + enew.map_values(|e: (RefType, Seq<Ref>, bool)| e.1),
                                        elem_drops(st.elements.0@) + enew.map_values(|e: (RefType, Seq<Ref>, bool)| e.2),
                                    ) {
                                        RunOutcome::Gives((tabs, els, edrops)) => match spec_init_datas(
                                            globals,
                                            inst,
                                            module_data(m),
                                            mem_bytes(st.memories.0@) + module_memories(m).map_values(|t: MemType| initial_memory(t)),
                                            data_bytes(st.data.0@) + module_data(m).map_values(|d: DataSegmentV| d.data),
                                            data_drops(st.data.0@) + module_data(m).map_values(|d: DataSegmentV| false),
                                        ) {
                                            RunOutcome::Gives((mems, datas, ddrops)) => RunOutcome::Gives(
                                                InstantiatedV {
                                                    inst,
                                                    new_globals: gnew,
                                                    new_tables: tnew,
                                                    new_elems: enew,
                                                    tables: tabs,
                                                    elems: els,
                                                    elem_drops: edrops,
                                                    mems,
                                                    datas,
                                                    data_drops: ddrops,
                                                },
                                            ),
                                            RunOutcome::Fails(e) => RunOutcome::Fails(e),
                                            RunOutcome::Panics => RunOutcome::Panics,
                                        },
                                        RunOutcome::Fails(e) => RunOutcome::Fails(e),
                                        RunOutcome::Panics => RunOutcome::Panics,
                                    }
                                },
                                RunOutcome::Fails(e) => RunOutcome::Fails(e),
                                RunOutcome::Panics => RunOutcome::Panics,
                            },
                            RunOutcome::Fails(e) => RunOutcome::Fails(e),
                            RunOutcome::Panics => RunOutcome::Panics,
                        }
                    },
                    RunOutcome::Fails(e) => RunOutcome::Fails(e),
                    RunOutcome::Panics => RunOutcome::Panics,
                },
            )
        },
    }
}


/// Linking depends only on the store and on what names resolve to.
proof fn lemma_link_same(a: &Runtime, b: &Runtime, types: Seq<FuncTypeV>, ims: Seq<ImportEntryV>)
    requires
        a.store == b.store,
        forall|m: Seq<char>, n: Seq<char>| #[trigger] a.module_registry.spec_resolve(m, n) == b.module_registry.spec_resolve(m, n),
    ensures
        spec_link_imports(a, types, ims) == spec_link_imports(b, types, ims),
    decreases ims.len(),
{
    if ims.len() > 0 {
        lemma_link_same(a, b, types, ims.drop_last());
        assert(a.module_registry.spec_resolve(ims.last().mod_name, ims.last().name) == b.module_registry.spec_resolve(
            ims.last().mod_name,
            ims.last().name,
        ));
    }
}

impl Runtime {
    /// Instantiates a module: links its imports to the values their names
    /// resolve to, allocates its functions, globals, tables, element
    /// segments, memory, exports and data segments, registers it under a new
    /// handle, then copies its active element and data segments. Gives the
    /// handle, and the address of the start function that is to be run.
    pub fn instantiate_module(&mut self, module: &Module) -> (r: Result<(ModuleHandle, Option<FuncAddr>), Error>)
        requires
            old(self).wf(),
            instantiable(module@),
        ensures
            final(self).wf(),
            final(self).module_registry.spec_names() == old(self).module_registry.spec_names(),
            final(self).module_registry.spec_entries().len() == old(self).module_registry.spec_entries().len() + 1,
            forall|i: int|
                0 <= i < old(self).module_registry.spec_entries().len() ==> #[trigger] final(self).module_registry.spec_entries()[i]
                    == old(self).module_registry.spec_entries()[i],
            match spec_instantiate(old(self), module@) {
                Err(e) => r == Err::<(ModuleHandle, Option<FuncAddr>), Error>(Error::Unlinkable(e)),
                Ok(RunOutcome::Fails(e)) => r == Err::<(ModuleHandle, Option<FuncAddr>), Error>(Error::Trap(e)),
                Ok(RunOutcome::Panics) => false,
                Ok(RunOutcome::Gives(x)) => r is Ok && instantiated(old(self), final(self), module@, r->Ok_0.0, r->Ok_0.1, x),
            },
    {
        let ghost rt0 = *self;
        let ghost types = module_types(module@.types);
        let ghost ims = module_imports(module@.imports);
        let h = self.module_registry.reserve();
        proof {
            let reg = self.module_registry;
            assert forall|m: Seq<char>, n: Seq<char>| #[trigger] rt0.module_registry.spec_resolve(m, n)
                == reg.spec_resolve(m, n) by {
                if rt0.module_registry.spec_names().contains_key(m) {
                    let idx = rt0.module_registry.spec_names()[m].index() as int;
                    assert(reg.spec_entries()[idx] == rt0.module_registry.spec_entries()[idx]);
                }
            }
            assert forall|n: Seq<char>| #[trigger] reg.spec_names().contains_key(n) implies reg.spec_names()[n].index()
                < reg.spec_entries().len() && reg.spec_entries()[reg.spec_names()[n].index() as int] is Some by {
                assert(rt0.module_registry.spec_names().contains_key(n));
            }
            assert forall|i: int|
                0 <= i < reg.spec_entries().len() && (#[trigger] reg.spec_entries()[i]) is Some implies entry_in_store(
                &self.store,
                reg.spec_entries()[i]->Some_0,
            ) by {
                assert(rt0.module_registry.spec_entries()[i] == reg.spec_entries()[i]);
            }
            lemma_link_same(&rt0, self, types, ims);
        }
        let mut mi = ModuleInstance::default();
        match self.link_imports(module, &mut mi) {
            Err(e) => return Err(Error::Unlinkable(e)),
            Ok(()) => {},
        }
        let ghost evs = spec_link_imports(&rt0, types, ims)->Ok_0;
        proof {
            lemma_link_counts(&rt0, types, ims);
            assert(instance_in_store(&self.store, &mi));
        }
        self.allocate_functions(h, module, &mut mi);
        mi.types = Runtime::copy_types(module);
        let ghost mfuncs = mi.funcs@;
        match self.allocate_globals(h, module, &mut mi) {
            Err(e) => return Err(Error::Trap(e)),
            Ok(()) => {},
        }
        let ghost gnew = spec_alloc_globals(rt0.store.globals.0@, extern_globals(evs), mfuncs, module_globals(module@))->Gives_0;
        proof {
            lemma_alloc_globals_len(rt0.store.globals.0@, extern_globals(evs), mfuncs, module_globals(module@));
        }
        let ghost s_tables0 = self.store;
        match self.allocate_tables(h, module, &mut mi) {
            Err(e) => return Err(Error::Trap(e)),
            Ok(()) => {},
        }
        let ghost tnew = spec_alloc_tables(self.store.globals.0@, mi.globals@, mfuncs, module_tables(module@))->Gives_0;
        proof {
            lemma_alloc_tables_len(self.store.globals.0@, mi.globals@, mfuncs, module_tables(module@));
        }
        match self.allocate_elements(h, module, &mut mi) {
            Err(e) => return Err(Error::Trap(e)),
            Ok(()) => {},
        }
        let ghost enew = spec_alloc_elements(self.store.globals.0@, mi.globals@, mfuncs, module_elements(module@))->Gives_0;
        proof {
            lemma_alloc_elements_len(self.store.globals.0@, mi.globals@, mfuncs, module_elements(module@));
        }
        self.allocate_memories(h, module, &mut mi);
        let ghost mi_before_exports = mi;
        Runtime::allocate_exports(module, &mut mi);
        proof {
            assert(instance_in_store(&self.store, &mi_before_exports));
            lemma_exports_in_store(&self.store, module_exports(module@), mi.funcs@, mi.tables@, mi.mems@, mi.globals@);
        }
        self.allocate_data(h, module, &mut mi);
        let start = match &module.start {
            Some(s) => Some(mi.funcs[s.0 as usize]),
            None => None,
        };
        let ghost inst = mi@;
        let ghost s1 = self.store;
        proof {
            assert(self.building(h, &mi));
        }
        self.module_registry.add(h, mi);
        proof {
            let reg = self.module_registry;
            assert forall|n: Seq<char>| #[trigger] reg.spec_names().contains_key(n) implies reg.spec_names()[n].index()
                < reg.spec_entries().len() && reg.spec_entries()[reg.spec_names()[n].index() as int] is Some by {
                assert(rt0.module_registry.spec_names().contains_key(n));
            }
            assert forall|i: int|
                0 <= i < reg.spec_entries().len() && (#[trigger] reg.spec_entries()[i]) is Some implies entry_in_store(
                &self.store,
                reg.spec_entries()[i]->Some_0,
            ) by {
                if i != h.index() {
                    assert(i < rt0.module_registry.spec_entries().len() + 1);
                }
            }
            let t0 = rt0.store.tables.0@;
            assert forall|i: int| 0 <= i < s1.tables.0@.len() implies #[trigger] table_refs(s1.tables.0@)[i] == (table_refs(t0)
                + tnew.map_values(|t: (TableType, Seq<Ref>)| t.1))[i] by {
                if i < t0.len() {
                    assert(s1.tables.0@.take(t0.len() as int)[i] == t0[i]);
                } else {
                    assert(s1.tables.0@[t0.len() + (i - t0.len())].refs@ == tnew[i - t0.len()].1);
                }
            }
            assert(table_refs(s1.tables.0@) =~= table_refs(t0) + tnew.map_values(|t: (TableType, Seq<Ref>)| t.1));
            let e0 = rt0.store.elements.0@;
            assert forall|i: int| 0 <= i < s1.elements.0@.len() implies #[trigger] elem_refs(s1.elements.0@)[i] == (elem_refs(e0)
                + enew.map_values(|e: (RefType, Seq<Ref>, bool)| e.1))[i] && elem_drops(s1.elements.0@)[i] == (elem_drops(e0)
                + enew.map_values(|e: (RefType, Seq<Ref>, bool)| e.2))[i] by {
                if i < e0.len() {
                    assert(s1.elements.0@.take(e0.len() as int)[i] == e0[i]);
                } else {
                    assert(s1.elements.0@[e0.len() + (i - e0.len())].spec_refs() == enew[i - e0.len()].1);
                }
            }
            assert(elem_refs(s1.elements.0@) =~= elem_refs(e0) + enew.map_values(|e: (RefType, Seq<Ref>, bool)| e.1));
            assert forall|i: int| 0 <= i < s1.elements.0@.len() implies #[trigger] elem_drops(s1.elements.0@)[i] == (elem_drops(e0)
                + enew.map_values(|e: (RefType, Seq<Ref>, bool)| e.2))[i] by {
                if i < e0.len() {
                    assert(s1.elements.0@.take(e0.len() as int)[i] == e0[i]);
                } else {
                    assert(s1.elements.0@[e0.len() + (i - e0.len())].spec_dropped() == enew[i - e0.len()].2);
                }
            }
            assert(elem_drops(s1.elements.0@) =~= elem_drops(e0) + enew.map_values(|e: (RefType, Seq<Ref>, bool)| e.2));
            let m0 = rt0.store.memories.0@;
            let mms = module_memories(module@);
            assert forall|i: int| 0 <= i < s1.memories.0@.len() implies #[trigger] mem_bytes(s1.memories.0@)[i] == (mem_bytes(m0)
                + mms.map_values(|t: MemType| initial_memory(t)))[i] by {
                if i < m0.len() {
                    assert(s1.memories.0@.take(m0.len() as int)[i] == m0[i]);
                } else {
                    assert(s1.memories.0@[m0.len() + (i - m0.len())].data@ == initial_memory(mms[i - m0.len()]));
                }
            }
            assert(mem_bytes(s1.memories.0@) =~= mem_bytes(m0) + mms.map_values(|t: MemType| initial_memory(t)));
            let d0 = rt0.store.data.0@;
            let dss = module_data(module@);
            assert forall|i: int| 0 <= i < s1.data.0@.len() implies #[trigger] data_bytes(s1.data.0@)[i] == (data_bytes(d0)
                + dss.map_values(|d: DataSegmentV| d.data))[i] && data_drops(s1.data.0@)[i] == (data_drops(d0)
                + dss.map_values(|d: DataSegmentV| false))[i] by {
                if i < d0.len() {
                    assert(s1.data.0@.take(d0.len() as int)[i] == d0[i]);
                } else {
                    assert(s1.data.0@[d0.len() + (i - d0.len())].spec_data() == dss[i - d0.len()].data);
                }
            }
            assert(data_bytes(s1.data.0@) =~= data_bytes(d0) + dss.map_values(|d: DataSegmentV| d.data));
            assert forall|i: int| 0 <= i < s1.data.0@.len() implies #[trigger] data_drops(s1.data.0@)[i] == (data_drops(d0)
                + dss.map_values(|d: DataSegmentV| false))[i] by {
                if i < d0.len() {
                    assert(s1.data.0@.take(d0.len() as int)[i] == d0[i]);
                } else {
                    assert(!s1.data.0@[d0.len() + (i - d0.len())].spec_dropped());
                }
            }
            assert(data_drops(s1.data.0@) =~= data_drops(d0) + dss.map_values(|d: DataSegmentV| false));
        }
        match self.init_elements(h, module) {
            Err(e) => return Err(Error::Trap(e)),
            Ok(()) => {},
        }
        match self.init_data(h, module) {
            Err(e) => return Err(Error::Trap(e)),
            Ok(()) => {},
        }
        Ok((h, start))
    }
}

/// What a successful instantiation leaves: the module registered under the
/// next handle, with the instance of the model; the start function's
/// address; the module's functions after the store's, each with its type,
/// locals and body; its globals, tables and element segments after the
/// store's; and every table, element segment, memory and data segment as the
/// model gives them once the active segments were copied.
pub open spec fn instantiated(
    before: &Runtime,
    after: &Runtime,
    m: ModuleV,
    h: ModuleHandle,
    start: Option<FuncAddr>,
    x: InstantiatedV,
) -> bool {
    let st0 = before.store;
    let st = after.store;
    let nf0 = st0.functions.spec_funcs().len();
    &&& h.index() == before.module_registry.spec_entries().len()
    &&& after.module_registry.spec_entries()[h.index() as int] matches Some(ModuleEntry::Wasm(mi)) && mi@ == x.inst
    &&& start == match m.start {
        Some(s) => Some(x.inst.funcs[s.0 as int]),
        None => None,
    }
    &&& st.functions.spec_funcs().len() == nf0 + defined_funcs(m)
    &&& st.functions.spec_funcs().take(nf0 as int) == st0.functions.spec_funcs()
    &&& forall|j: int| 0 <= j < defined_funcs(m) ==> defines_func(m, h, j, #[trigger] st.functions.spec_funcs()[nf0 + j])
    &&& st.globals.0@ == st0.globals.0@ + x.new_globals
    &&& st.tables.0@.len() == st0.tables.0@.len() + x.new_tables.len()
    &&& forall|t: int| 0 <= t < st0.tables.0@.len() ==> (#[trigger] st.tables.0@[t]).tabletype == st0.tables.0@[t].tabletype
    &&& forall|j: int| 0 <= j < x.new_tables.len() ==> (#[trigger] st.tables.0@[st0.tables.0@.len() + j]).tabletype == x.new_tables[j].0
    &&& table_refs(st.tables.0@) == x.tables
    &&& st.elements.0@.len() == st0.elements.0@.len() + x.new_elems.len()
    &&& forall|t: int| 0 <= t < st0.elements.0@.len() ==> (#[trigger] st.elements.0@[t]).spec_elemtype() == st0.elements.0@[t].spec_elemtype()
    &&& forall|j: int| 0 <= j < x.new_elems.len() ==> (#[trigger] st.elements.0@[st0.elements.0@.len() + j]).spec_elemtype() == x.new_elems[j].0
    &&& elem_refs(st.elements.0@) == x.elems
    &&& elem_drops(st.elements.0@) == x.elem_drops
    &&& st.memories.0@.len() == st0.memories.0@.len() + module_memories(m).len()
    &&& forall|t: int| 0 <= t < st0.memories.0@.len() ==> (#[trigger] st.memories.0@[t]).memtype == st0.memories.0@[t].memtype
    &&& forall|j: int| 0 <= j < module_memories(m).len() ==> (#[trigger] st.memories.0@[st0.memories.0@.len() + j]).memtype == module_memories(m)[j]
    &&& mem_bytes(st.memories.0@) == x.mems
    &&& st.data.0@.len() == st0.data.0@.len() + module_data(m).len()
    &&& data_bytes(st.data.0@) == x.datas
    &&& data_drops(st.data.0@) == x.data_drops
}


impl Runtime {
    /// Decodes, validates and instantiates a module from its bytes.
    pub fn load_module(&mut self, bytes: &[u8]) -> (r: Result<(ModuleHandle, Option<FuncAddr>), Error>)
        requires
            old(self).wf(),
            bytes@.len() + u32::MAX <= u64::MAX,
            spec_decode_bytes(bytes@) matches Ok(m) ==> !(spec_validate_module(m) is Panics) && (spec_validate_module(m) is Gives
                ==> instantiable(m)),
        ensures
            final(self).wf(),
            match spec_decode_bytes(bytes@) {
                Err(e) => r == Err::<(ModuleHandle, Option<FuncAddr>), Error>(Error::Malformed(e)) && *final(self) == *old(self),
                Ok(m) => match spec_validate_module(m) {
                    Outcome::Fails(e) => r == Err::<(ModuleHandle, Option<FuncAddr>), Error>(Error::Invalid(e)) && *final(self)
                        == *old(self),
                    Outcome::Panics => false,
                    Outcome::Gives(_) => match spec_instantiate(old(self), m) {
                        Err(e) => r == Err::<(ModuleHandle, Option<FuncAddr>), Error>(Error::Unlinkable(e)),
                        Ok(RunOutcome::Fails(e)) => r == Err::<(ModuleHandle, Option<FuncAddr>), Error>(Error::Trap(e)),
                        Ok(RunOutcome::Panics) => false,
                        Ok(RunOutcome::Gives(x)) => r is Ok && instantiated(old(self), final(self), m, r->Ok_0.0, r->Ok_0.1, x),
                    },
                },
            },
    {
        let module = match decode_bytes(crate::copy_bytes(bytes)) {
            Ok(m) => m,
            Err(e) => return Err(Error::Malformed(e)),
        };
        match crate::validation::validate_module(&module) {
            Ok(()) => {},
            Err(e) => return Err(Error::Invalid(e)),
        }
        self.instantiate_module(&module)
    }
}

} // verus!
