//! Module instances, host modules, and the registry that names them.
use vstd::prelude::*;

use crate::binary::reader::vec_view;
use crate::binary::types::{FuncType, FuncTypeV};
use crate::runtime::store::{DataAddr, ElemAddr, FuncAddr, GlobalAddr, MemAddr, TableAddr};
use crate::runtime::value::ExternVal;

verus! {

/// A map from names to values. Each name occurs once; inserting a name
/// again replaces its value.
#[derive(Debug)]
pub struct NameMap<V> {
    entries: Vec<(String, V)>,
}

/// The value of the last entry with the given name.
pub open spec fn lookup<V>(entries: Seq<(String, V)>, k: Seq<char>) -> Option<V>
    decreases entries.len(),
{
    if entries.len() == 0 {
        None
    } else if entries.last().0@ == k {
        Some(entries.last().1)
    } else {
        lookup(entries.drop_last(), k)
    }
}

impl<V> View for NameMap<V> {
    type V = Map<Seq<char>, V>;

    closed spec fn view(&self) -> Map<Seq<char>, V> {
        Map::new(|k: Seq<char>| lookup(self.entries@, k) is Some, |k: Seq<char>| lookup(self.entries@, k)->Some_0)
    }
}

proof fn lemma_lookup_update<V>(s: Seq<(String, V)>, i: int, e: (String, V), k: Seq<char>)
    requires
        0 <= i < s.len(),
        s[i].0@ == e.0@,
        forall|j: int| i < j < s.len() ==> #[trigger] s[j].0@ != e.0@,
    ensures
        lookup(s.update(i, e), k) == if k == e.0@ {
            Some(e.1)
        } else {
            lookup(s, k)
        },
    decreases s.len(),
{
    if i < s.len() - 1 {
        assert(s.update(i, e).drop_last() =~= s.drop_last().update(i, e));
        lemma_lookup_update(s.drop_last(), i, e, k);
    } else {
        assert(s.update(i, e).drop_last() =~= s.drop_last());
    }
}

proof fn lemma_lookup_absent<V>(s: Seq<(String, V)>, k: Seq<char>)
    requires
        forall|j: int| 0 <= j < s.len() ==> #[trigger] s[j].0@ != k,
    ensures
        lookup(s, k) is None,
    decreases s.len(),
{
    if s.len() > 0 {
        lemma_lookup_absent(s.drop_last(), k);
    }
}

proof fn lemma_lookup_found<V>(s: Seq<(String, V)>, i: int)
    requires
        0 <= i < s.len(),
        forall|j: int| i < j < s.len() ==> #[trigger] s[j].0@ != s[i].0@,
    ensures
        lookup(s, s[i].0@) == Some(s[i].1),
    decreases s.len(),
{
    if i < s.len() - 1 {
        lemma_lookup_found(s.drop_last(), i);
    }
}

impl<V> NameMap<V> {
    pub fn new() -> (r: Self)
        ensures
            r@ == Map::<Seq<char>, V>::empty(),
    {
        let r = NameMap { entries: Vec::new() };
        proof {
            assert(r@ =~= Map::<Seq<char>, V>::empty());
        }
        r
    }

    /// The index of the last entry with the given name.
    fn find(&self, name: &String) -> (r: Option<usize>)
        ensures
            match r {
                Some(i) => i < self.entries@.len() && self.entries@[i as int].0@ == name@ && forall|j: int|
                    i < j < self.entries@.len() ==> #[trigger] self.entries@[j].0@ != name@,
                None => forall|j: int| 0 <= j < self.entries@.len() ==> #[trigger] self.entries@[j].0@ != name@,
            },
    {
        let mut i: usize = self.entries.len();
        while i > 0
            invariant
                i <= self.entries@.len(),
                forall|j: int| i <= j < self.entries@.len() ==> #[trigger] self.entries@[j].0@ != name@,
            decreases i,
        {
            if self.entries[i - 1].0 == *name {
                return Some(i - 1);
            }
            i = i - 1;
        }
        None
    }

    /// Maps a name to a value, replacing the value it had.
    pub fn insert(&mut self, name: String, value: V)
        ensures
            final(self)@ == old(self)@.insert(name@, value),
    {
        let ghost key = name@;
        let ghost s0 = self.entries@;
        match self.find(&name) {
            Some(i) => {
                proof {
                    lemma_lookup_found(s0, i as int);
                    assert forall|k: Seq<char>| #[trigger] lookup(s0.update(i as int, (name, value)), k) == if k == key {
                        Some(value)
                    } else {
                        lookup(s0, k)
                    } by {
                        lemma_lookup_update(s0, i as int, (name, value), k);
                    }
                }
                self.entries.set(i, (name, value));
            },
            None => {
                proof {
                    assert(s0.push((name, value)).drop_last() =~= s0);
                }
                self.entries.push((name, value));
            },
        }
        proof {
            assert(self@ =~= old(self)@.insert(key, value));
        }
    }

    /// The value of a name.
    pub fn get(&self, name: &str) -> (r: Option<&V>)
        ensures
            match r {
                Some(v) => self@.contains_key(name@) && *v == self@[name@],
                None => !self@.contains_key(name@),
            },
    {
        let key = name.to_owned();
        match self.find(&key) {
            Some(i) => {
                proof {
                    lemma_lookup_found(self.entries@, i as int);
                }
                Some(&self.entries[i].1)
            },
            None => {
                proof {
                    lemma_lookup_absent(self.entries@, key@);
                }
                None
            },
        }
    }
}

#[derive(Debug)]
pub struct ModuleInstance {
    pub types: Vec<FuncType>,
    pub exports: NameMap<ExternVal>,
    pub globals: Vec<GlobalAddr>,
    pub mems: Vec<MemAddr>,
    pub tables: Vec<TableAddr>,
    pub funcs: Vec<FuncAddr>,
    pub datas: Vec<DataAddr>,
    pub elems: Vec<ElemAddr>,
}

/// The model of a module instance: its types, the store addresses of its
/// functions, tables, memories, globals, element and data segments, and its exports.
pub struct InstanceV {
    pub types: Seq<FuncTypeV>,
    pub funcs: Seq<FuncAddr>,
    pub tables: Seq<TableAddr>,
    pub mems: Seq<MemAddr>,
    pub globals: Seq<GlobalAddr>,
    pub elems: Seq<ElemAddr>,
    pub datas: Seq<DataAddr>,
    pub exports: Map<Seq<char>, ExternVal>,
}

impl View for ModuleInstance {
    type V = InstanceV;

    open spec fn view(&self) -> InstanceV {
        InstanceV {
            types: vec_view(self.types@),
            funcs: self.funcs@,
            tables: self.tables@,
            mems: self.mems@,
            globals: self.globals@,
            elems: self.elems@,
            datas: self.datas@,
            exports: self.exports@,
        }
    }
}

impl Default for ModuleInstance {
    fn default() -> (r: Self)
        ensures
            r.exports@ == Map::<Seq<char>, ExternVal>::empty(),
            r.types@.len() == 0,
            r.globals@.len() == 0,
            r.mems@.len() == 0,
            r.tables@.len() == 0,
            r.funcs@.len() == 0,
            r.datas@.len() == 0,
            r.elems@.len() == 0,
    {
        ModuleInstance {
            types: Vec::new(),
            exports: NameMap::new(),
            globals: Vec::new(),
            mems: Vec::new(),
            tables: Vec::new(),
            funcs: Vec::new(),
            datas: Vec::new(),
            elems: Vec::new(),
        }
    }
}

#[derive(Debug)]
pub struct HostModule {
    pub exports: NameMap<ExternVal>,
}

#[derive(Debug)]
pub enum ModuleEntry {
    Wasm(ModuleInstance),
    Host(HostModule),
}

impl ModuleEntry {
    /// The host module of a host entry.
    pub fn host_mut(&mut self) -> (r: Option<&mut HostModule>)
        ensures
            match *old(self) {
                ModuleEntry::Host(h) => r is Some && *r->Some_0 == h && *final(self) == ModuleEntry::Host(
                    *final(r->Some_0),
                ),
                ModuleEntry::Wasm(_) => r is None && *final(self) == *old(self),
            },
    {
        match self {
            ModuleEntry::Host(h) => Some(h),
            ModuleEntry::Wasm(_) => None,
        }
    }
}

#[derive(Debug, Clone, Copy, Eq, Hash, PartialEq, Structural)]
pub struct ModuleHandle(usize);

impl ModuleHandle {
    pub closed spec fn index(self) -> usize {
        self.0
    }
}

/// The registry of a runtime's modules: the entry of each handle, and the
/// names under which handles are registered. Handles are given out in
/// order; a handle's entry is empty from its reservation until it is added.
#[derive(Debug)]
pub struct ModuleRegistry {
    names: NameMap<ModuleHandle>,
    entries: Vec<Option<ModuleEntry>>,
}

/// The exports of a module entry.
pub open spec fn entry_exports(e: ModuleEntry) -> Map<Seq<char>, ExternVal> {
    match e {
        ModuleEntry::Wasm(inst) => inst.exports@,
        ModuleEntry::Host(host) => host.exports@,
    }
}

impl ModuleRegistry {
    /// The names under which handles are registered.
    pub closed spec fn spec_names(&self) -> Map<Seq<char>, ModuleHandle> {
        self.names@
    }

    /// The entry of each handle given out: none until the module is added.
    pub closed spec fn spec_entries(&self) -> Seq<Option<ModuleEntry>> {
        self.entries@
    }

    /// What a name resolves to: none for a name not registered; the export
    /// of the module registered under it otherwise.
    pub open spec fn spec_resolve(&self, module_name: Seq<char>, name: Seq<char>) -> Option<ExternVal> {
        if !self.spec_names().contains_key(module_name) {
            None
        } else {
            let e = self.spec_entries()[self.spec_names()[module_name].index() as int]->Some_0;
            if entry_exports(e).contains_key(name) {
                Some(entry_exports(e)[name])
            } else {
                None
            }
        }
    }

    /// Every registered name refers to a handle whose module was added.
    pub open spec fn names_resolved(&self) -> bool {
        forall|n: Seq<char>|
            #[trigger] self.spec_names().contains_key(n) ==> self.spec_names()[n].index() < self.spec_entries().len()
                && self.spec_entries()[self.spec_names()[n].index() as int] is Some
    }

    pub fn new() -> (r: Self)
        ensures
            r.spec_names() == Map::<Seq<char>, ModuleHandle>::empty(),
            r.spec_entries() == Seq::<Option<ModuleEntry>>::empty(),
    {
        ModuleRegistry { names: NameMap::new(), entries: Vec::new() }
    }

    /// Gives out the next handle, with no module yet.
    pub fn reserve(&mut self) -> (h: ModuleHandle)
        ensures
            h.index() == old(self).spec_entries().len(),
            final(self).spec_entries() == old(self).spec_entries().push(None),
            final(self).spec_names() == old(self).spec_names(),
    {
        let h = ModuleHandle(self.entries.len());
        self.entries.push(None);
        h
    }

    /// Adds the module instance of a reserved handle.
    pub fn add(&mut self, handle: ModuleHandle, inst: ModuleInstance)
        requires
            handle.index() < old(self).spec_entries().len(),
            old(self).spec_entries()[handle.index() as int] is None,
        ensures
            final(self).spec_entries() == old(self).spec_entries().update(
                handle.index() as int,
                Some(ModuleEntry::Wasm(inst)),
            ),
            final(self).spec_names() == old(self).spec_names(),
    {
        self.entries.set(handle.0, Some(ModuleEntry::Wasm(inst)));
    }

    /// Registers a handle under a name, replacing what the name referred to.
    pub fn register(&mut self, name: String, handle: ModuleHandle)
        ensures
            final(self).spec_names() == old(self).spec_names().insert(name@, handle),
            final(self).spec_entries() == old(self).spec_entries(),
    {
        self.names.insert(name, handle);
    }

    /// The module instance of a handle, if one was added.
    pub fn get_instance(&self, handle: ModuleHandle) -> (r: Option<&ModuleInstance>)
        ensures
            match r {
                Some(inst) => handle.index() < self.spec_entries().len() && self.spec_entries()[handle.index() as int]
                    == Some(ModuleEntry::Wasm(*inst)),
                None => !(handle.index() < self.spec_entries().len() && self.spec_entries()[handle.index() as int] matches Some(ModuleEntry::Wasm(_))),
            },
    {
        if handle.0 >= self.entries.len() {
            return None;
        }
        match &self.entries[handle.0] {
            Some(ModuleEntry::Wasm(m)) => Some(m),
            _ => None,
        }
    }

    /// The host module registered under a name; a new one, under a new
    /// handle, when the name is not registered.
    pub fn get_or_create_host(&mut self, name: &str) -> (r: (ModuleHandle, &mut HostModule))
        requires
            old(self).spec_names().contains_key(name@) ==> {
                let h = old(self).spec_names()[name@];
                h.index() < old(self).spec_entries().len() && old(self).spec_entries()[h.index() as int] matches Some(
                    ModuleEntry::Host(_),
                )
            },
        ensures
            old(self).spec_names().contains_key(name@) ==> {
                &&& r.0 == old(self).spec_names()[name@]
                &&& old(self).spec_entries()[r.0.index() as int] == Some(ModuleEntry::Host(*r.1))
                &&& final(self).spec_entries() == old(self).spec_entries().update(
                    r.0.index() as int,
                    Some(ModuleEntry::Host(*final(r.1))),
                )
                &&& final(self).spec_names() == old(self).spec_names()
            },
            !old(self).spec_names().contains_key(name@) ==> {
                &&& r.0.index() == old(self).spec_entries().len()
                &&& (*r.1).exports@ == Map::<Seq<char>, ExternVal>::empty()
                &&& final(self).spec_entries() == old(self).spec_entries().push(
                    Some(ModuleEntry::Host(*final(r.1))),
                )
                &&& final(self).spec_names() == old(self).spec_names().insert(name@, r.0)
            },
    {
        let mh = match self.names.get(name) {
            Some(h) => *h,
            None => {
                let mh = ModuleHandle(self.entries.len());
                self.names.insert(name.to_owned(), mh);
                self.entries.push(Some(ModuleEntry::Host(HostModule { exports: NameMap::new() })));
                mh
            },
        };
        let entry = self.entries[mh.0].as_mut().expect("name exist but doesn't map to a module");
        let host = entry.host_mut().expect("name exist but doesn't map to a module");
        (mh, host)
    }

    /// The export of a module registered under a name.
    pub fn resolve(&self, module_name: &str, name: &str) -> (r: Option<ExternVal>)
        requires
            self.names_resolved(),
        ensures
            r == self.spec_resolve(module_name@, name@),
    {
        let mh = match self.names.get(module_name) {
            Some(h) => *h,
            None => return None,
        };
        let entry = self.entries[mh.0].as_ref().expect("name exist but doesn't map to a module");
        let found = match entry {
            ModuleEntry::Wasm(inst) => inst.exports.get(name),
            ModuleEntry::Host(host) => host.exports.get(name),
        };
        match found {
            Some(v) => Some(*v),
            None => None,
        }
    }
}

impl ModuleRegistry {
    /// The exports of the module of a handle: none where no module was added.
    pub open spec fn spec_exports_of(&self, handle: ModuleHandle) -> Map<Seq<char>, ExternVal> {
        if handle.index() < self.spec_entries().len() && self.spec_entries()[handle.index() as int] is Some {
            entry_exports(self.spec_entries()[handle.index() as int]->Some_0)
        } else {
            Map::empty()
        }
    }

    /// An export of the module of a handle.
    pub fn resolve_export(&self, handle: ModuleHandle, name: &str) -> (r: Option<ExternVal>)
        ensures
            r == (if self.spec_exports_of(handle).contains_key(name@) {
                Some(self.spec_exports_of(handle)[name@])
            } else {
                None
            }),
    {
        if handle.0 >= self.entries.len() {
            return None;
        }
        let found = match &self.entries[handle.0] {
            Some(ModuleEntry::Wasm(inst)) => inst.exports.get(name),
            Some(ModuleEntry::Host(host)) => host.exports.get(name),
            None => return None,
        };
        match found {
            Some(v) => Some(*v),
            None => None,
        }
    }
}

impl Default for ModuleRegistry {
    fn default() -> (r: Self)
        ensures
            r.spec_names() == Map::<Seq<char>, ModuleHandle>::empty(),
            r.spec_entries() == Seq::<Option<ModuleEntry>>::empty(),
    {
        ModuleRegistry::new()
    }
}


/// A name registered for a handle, after the handle's module was added,
/// resolves to that module's exports.
pub proof fn lemma_resolve_registered(
    before: ModuleRegistry,
    after: ModuleRegistry,
    module_name: Seq<char>,
    h: ModuleHandle,
    inst: ModuleInstance,
    name: Seq<char>,
)
    requires
        h.index() < before.spec_entries().len(),
        after.spec_names() == before.spec_names().insert(module_name, h),
        after.spec_entries() == before.spec_entries().update(h.index() as int, Some(ModuleEntry::Wasm(inst))),
    ensures
        after.spec_resolve(module_name, name) == if inst.exports@.contains_key(name) {
            Some(inst.exports@[name])
        } else {
            None
        },
{
}

} // verus!
