//! The store: memories, tables, element and data segments, and their addresses.
use vstd::prelude::*;

use crate::binary::reader::vec_view;
use crate::binary::sections::code::{CodeEntry, FuncLocal};
use crate::binary::sections::data::DataSegment;
use crate::binary::sections::global::GlobalType;
use crate::binary::sections::memory::MemType;
use crate::binary::sections::table::TableType;
use crate::binary::types::{FuncType, RefType, TypeIdx, ValType};
use crate::instructions::InstrV;
use crate::instructions::Instruction;
use crate::limits::{MAX_WASM_32BIT_MEMORY_PAGES, MAX_WASM_TABLE_LEN};
use crate::runtime::instance::ModuleHandle;
use crate::runtime::value::{Ref, Value};
use crate::runtime::{TrapErrorKind, WASM_MEM_PAGE_BYTE_SIZE};
use crate::text::{decimal, spec_decimal};

verus! {

/// Func Addr
#[derive(Debug, Clone, Copy)]
pub struct FuncAddr(pub usize);

impl FuncAddr {
    /// The address in decimal.
    pub open spec fn message(&self) -> Seq<char> {
        spec_decimal(self.0 as nat)
    }

    /// Renders the address as text.
    pub fn to_string(&self) -> (s: String)
        ensures
            s@ == self.message(),
    {
        decimal(self.0 as u64)
    }
}

impl From<usize> for FuncAddr {
    fn from(value: usize) -> Self {
        FuncAddr(value)
    }
}

impl vstd::std_specs::convert::FromSpecImpl<usize> for FuncAddr {
    open spec fn obeys_from_spec() -> bool {
        true
    }

    open spec fn from_spec(v: usize) -> FuncAddr {
        FuncAddr(v)
    }
}

impl From<u32> for FuncAddr {
    fn from(value: u32) -> Self {
        FuncAddr(value as usize)
    }
}

impl vstd::std_specs::convert::FromSpecImpl<u32> for FuncAddr {
    open spec fn obeys_from_spec() -> bool {
        true
    }

    open spec fn from_spec(v: u32) -> FuncAddr {
        FuncAddr(v as usize)
    }
}

/// Wasm Function
#[derive(Debug)]
pub struct WasmFn {
    pub typeidx: TypeIdx,
    pub locals: Vec<ValType>,
    pub expr: Vec<Instruction>,
}

/// The body of a function: its code, or the index of a host function in the
/// table of host functions that the embedder keeps.
#[derive(Debug)]
pub enum FuncBody {
    Wasm(WasmFn),
    Host(usize),
}

#[derive(Debug)]
pub struct FuncInstance {
    pub ftype: FuncType,
    pub module: ModuleHandle,
    pub body: FuncBody,
}

/// The types of a function's locals, each declared run repeated its count of times.
pub open spec fn expand_locals(locals: Seq<FuncLocal>) -> Seq<ValType>
    decreases locals.len(),
{
    if locals.len() == 0 {
        Seq::empty()
    } else {
        expand_locals(locals.drop_last()) + Seq::new(locals.last().count as nat, |i: int| locals.last().valtype)
    }
}

/// The functions of a store.
#[derive(Debug)]
pub struct Functions(Vec<FuncInstance>);

impl Functions {
    pub closed spec fn spec_funcs(&self) -> Seq<FuncInstance> {
        self.0@
    }

    pub fn new() -> (r: Self)
        ensures
            r.spec_funcs() == Seq::<FuncInstance>::empty(),
    {
        Functions(Vec::new())
    }

    /// Allocates a function of the module's code: its type, its locals
    /// expanded, and a copy of its body.
    pub fn allocate(&mut self, module: ModuleHandle, ftype: FuncType, code: &CodeEntry, typeidx: TypeIdx) -> (r: FuncAddr)
        ensures
            r.0 == old(self).spec_funcs().len(),
            final(self).spec_funcs().len() == old(self).spec_funcs().len() + 1,
            final(self).spec_funcs().drop_last() == old(self).spec_funcs(),
            final(self).spec_funcs().last().ftype == ftype,
            final(self).spec_funcs().last().module == module,
            final(self).spec_funcs().last().body matches FuncBody::Wasm(w) && w.typeidx == typeidx
                && w.locals@ == expand_locals(code.locals@) && vec_view(w.expr@) == vec_view(code.body@),
    {
        let mut locals: Vec<ValType> = Vec::new();
        let mut i: usize = 0;
        while i < code.locals.len()
            invariant
                i <= code.locals@.len(),
                locals@ == expand_locals(code.locals@.take(i as int)),
            decreases code.locals@.len() - i,
        {
            let l = code.locals[i];
            let ghost before = locals@;
            let mut j: u32 = 0;
            while j < l.count
                invariant
                    j <= l.count,
                    locals@ == before + Seq::new(j as nat, |k: int| l.valtype),
                decreases l.count - j,
            {
                locals.push(l.valtype);
                j = j + 1;
                proof {
                    assert(locals@ =~= before + Seq::new(j as nat, |k: int| l.valtype));
                }
            }
            proof {
                assert(code.locals@.take(i + 1).drop_last() =~= code.locals@.take(i as int));
            }
            i = i + 1;
        }
        proof {
            assert(code.locals@.take(i as int) =~= code.locals@);
        }
        let expr = code.body.clone();
        proof {
            assert(vec_view(expr@) =~= vec_view(code.body@));
        }
        let func = WasmFn { typeidx, locals, expr };
        self.0.push(FuncInstance { ftype, module, body: FuncBody::Wasm(func) });
        proof {
            assert(self.0@.drop_last() =~= old(self).0@);
        }
        FuncAddr(self.0.len() - 1)
    }

    /// Allocates a host function, by the index of its implementation.
    pub fn allocate_host(&mut self, module: ModuleHandle, ftype: FuncType, host: usize) -> (r: FuncAddr)
        ensures
            r.0 == old(self).spec_funcs().len(),
            final(self).spec_funcs() == old(self).spec_funcs().push(
                FuncInstance { ftype, module, body: FuncBody::Host(host) },
            ),
    {
        self.0.push(FuncInstance { ftype, module, body: FuncBody::Host(host) });
        FuncAddr(self.0.len() - 1)
    }

    pub fn get(&self, addr: FuncAddr) -> (r: &FuncInstance)
        requires
            addr.0 < self.spec_funcs().len(),
        ensures
            *r == self.spec_funcs()[addr.0 as int],
    {
        &self.0[addr.0]
    }

    pub fn len(&self) -> (r: usize)
        ensures
            r == self.spec_funcs().len(),
    {
        self.0.len()
    }
}

/// `bytes` with `len` bytes from `src` written at `dst`.
pub open spec fn overwrite<T>(bytes: Seq<T>, dst: int, src: Seq<T>) -> Seq<T> {
    bytes.subrange(0, dst) + src + bytes.subrange(dst + src.len(), bytes.len() as int)
}

/// A sequence cut, or filled with `fill`, to the given length.
pub open spec fn resized<T>(s: Seq<T>, len: int, fill: T) -> Seq<T> {
    if len <= s.len() {
        s.subrange(0, len)
    } else {
        s + Seq::new((len - s.len()) as nat, |i: int| fill)
    }
}

#[derive(Debug)]
pub struct MemoryInstance {
    pub memtype: MemType,
    pub data: Vec<u8>,
}

/// The number of whole pages of a memory, as a `u32`.
pub open spec fn spec_mem_size(data: Seq<u8>) -> u32 {
    (data.len() / (WASM_MEM_PAGE_BYTE_SIZE as nat)) as u32
}

/// The effective address of an access: base and offset as `u32`, and
/// their sum; none when the sum overflows.
pub open spec fn effective_address(base: i32, offset: u32) -> Option<int> {
    if (base as u32) + offset > u32::MAX {
        None
    } else {
        Some((base as u32) + offset)
    }
}

/// Whether an access of `len` bytes at `base + offset` lies in the memory.
pub open spec fn mem_access_ok(data: Seq<u8>, base: i32, offset: u32, len: usize) -> bool {
    match effective_address(base, offset) {
        Some(ea) => ea + len <= data.len(),
        None => false,
    }
}

impl MemoryInstance {
    /// Copies `len` bytes of a data segment from `src` into the memory at `dst`.
    pub fn init(&mut self, dst: usize, src: usize, len: usize, data_inst: &DataInstance) -> (r: Result<(), TrapErrorKind>)
        ensures
            (dst + len <= old(self).data@.len() && src + len <= data_inst.spec_data().len()) ==> r is Ok
                && final(self).data@ == overwrite(
                old(self).data@,
                dst as int,
                data_inst.spec_data().subrange(src as int, src + len),
            ),
            !(dst + len <= old(self).data@.len() && src + len <= data_inst.spec_data().len()) ==> r
                == Err::<(), TrapErrorKind>(TrapErrorKind::OutOfBoundsMemoryAccess) && final(self).data@ == old(
                self,
            ).data@,
            final(self).memtype == old(self).memtype,
    {
        let data_len = self.data.len();
        let src_len = data_inst.data.len();
        let dst_end = match dst.checked_add(len) {
            Some(end) => end,
            None => return Err(TrapErrorKind::OutOfBoundsMemoryAccess),
        };
        if dst_end > self.data.len() {
            return Err(TrapErrorKind::OutOfBoundsMemoryAccess);
        }
        let src_end = match src.checked_add(len) {
            Some(end) => end,
            None => return Err(TrapErrorKind::OutOfBoundsMemoryAccess),
        };
        if src_end > data_inst.data.len() {
            return Err(TrapErrorKind::OutOfBoundsMemoryAccess);
        }
        if len == 0 {
            proof {
                assert(overwrite(old(self).data@, dst as int, data_inst.spec_data().subrange(src as int, src as int))
                    =~= old(self).data@);
            }
            return Ok(());
        }
        let ghost d0 = self.data@;
        let mut k: usize = 0;
        while k < len
            invariant
                k <= len,
                dst_end == dst + len,
                src_end == src + len,
                dst + len <= d0.len(),
                src + len <= data_inst.spec_data().len(),
                self.data@.len() == d0.len(),
                self.memtype == old(self).memtype,
                d0 == old(self).data@,
                forall|i: int| 0 <= i < d0.len() ==> #[trigger] self.data@[i] == if dst <= i < dst + k {
                    data_inst.spec_data()[src + i - dst]
                } else {
                    d0[i]
                },
            decreases len - k,
        {
            self.data.set(dst + k, data_inst.data[src + k]);
            k = k + 1;
        }
        proof {
            assert(self.data@ =~= overwrite(d0, dst as int, data_inst.spec_data().subrange(src as int, src + len)));
        }
        Ok(())
    }

    /// The size of the memory in pages.
    pub fn size(&self) -> (r: u32)
        ensures
            r == spec_mem_size(self.data@),
    {
        (self.data.len() / WASM_MEM_PAGE_BYTE_SIZE) as u32
    }

    /// Grows the memory by `n_pages` zeroed pages, and gives the size before;
    /// none when the new size would exceed the limits, which leaves the memory alone.
    pub fn grow(&mut self, n_pages: u32) -> (r: Result<Option<u32>, TrapErrorKind>)
        requires
            MAX_WASM_32BIT_MEMORY_PAGES * WASM_MEM_PAGE_BYTE_SIZE <= usize::MAX,
        ensures
            ({
                let sz = spec_mem_size(old(self).data@);
                let new_sz = sz + n_pages;
                if new_sz > MAX_WASM_32BIT_MEMORY_PAGES || (old(self).memtype.0.max is Some && new_sz
                    > old(self).memtype.0.max->Some_0) {
                    r == Ok::<Option<u32>, TrapErrorKind>(None) && final(self).data@ == old(self).data@
                } else {
                    r == Ok::<Option<u32>, TrapErrorKind>(Some(sz)) && final(self).data@ == resized(
                        old(self).data@,
                        new_sz * WASM_MEM_PAGE_BYTE_SIZE,
                        0u8,
                    )
                }
            }),
            final(self).memtype == old(self).memtype,
    {
        let sz = self.size();
        let new_sz = match sz.checked_add(n_pages) {
            Some(n) => n,
            None => return Ok(None),
        };
        if new_sz > MAX_WASM_32BIT_MEMORY_PAGES {
            return Ok(None);
        }
        if let Some(max_sz) = self.memtype.0.max {
            if new_sz > max_sz {
                return Ok(None);
            }
        }
        let len = new_sz as usize * WASM_MEM_PAGE_BYTE_SIZE;
        self.data.resize(len, 0);
        proof {
            assert(self.data@ =~= resized(old(self).data@, len as int, 0u8));
        }
        Ok(Some(sz))
    }

    /// The `len` bytes at `base + offset`, to write.
    pub fn slice_mut(&mut self, base: i32, offset: u32, len: usize) -> (r: Result<&mut [u8], TrapErrorKind>)
        ensures
            mem_access_ok(old(self).data@, base, offset, len) ==> r is Ok && (*r->Ok_0)@ == old(self).data@.subrange(
                effective_address(base, offset)->Some_0,
                effective_address(base, offset)->Some_0 + len,
            ) && final(self).data@ == old(self).data@.subrange(0, effective_address(base, offset)->Some_0)
                + (*final(r->Ok_0))@ + old(self).data@.subrange(
                effective_address(base, offset)->Some_0 + len,
                old(self).data@.len() as int,
            ),
            !mem_access_ok(old(self).data@, base, offset, len) ==> r == Err::<&mut [u8], TrapErrorKind>(
                TrapErrorKind::OutOfBoundsMemoryAccess,
            ) && final(self).data@ == old(self).data@,
            final(self).memtype == old(self).memtype,
    {
        let data_len = self.data.len();
        let ea = match (base as u32).checked_add(offset) {
            Some(a) => a as usize,
            None => return Err(TrapErrorKind::OutOfBoundsMemoryAccess),
        };
        let end = match ea.checked_add(len) {
            Some(e) => e,
            None => return Err(TrapErrorKind::OutOfBoundsMemoryAccess),
        };
        if end > self.data.len() {
            return Err(TrapErrorKind::OutOfBoundsMemoryAccess);
        }
        let (head, _) = self.data.as_mut_slice().split_at_mut(end);
        let (_, mid) = head.split_at_mut(ea);
        Ok(mid)
    }

    /// Writes bytes at `base + offset`.
    pub fn write(&mut self, base: i32, offset: u32, bytes: &[u8]) -> (r: Result<(), TrapErrorKind>)
        ensures
            mem_access_ok(old(self).data@, base, offset, bytes@.len() as usize) ==> r is Ok && final(self).data@
                == overwrite(old(self).data@, effective_address(base, offset)->Some_0, bytes@),
            !mem_access_ok(old(self).data@, base, offset, bytes@.len() as usize) ==> r == Err::<(), TrapErrorKind>(
                TrapErrorKind::OutOfBoundsMemoryAccess,
            ) && final(self).data@ == old(self).data@,
            final(self).memtype == old(self).memtype,
    {
        let len = bytes.len();
        let data_len = self.data.len();
        let ea = match (base as u32).checked_add(offset) {
            Some(a) => a as usize,
            None => return Err(TrapErrorKind::OutOfBoundsMemoryAccess),
        };
        let end = match ea.checked_add(len) {
            Some(e) => e,
            None => return Err(TrapErrorKind::OutOfBoundsMemoryAccess),
        };
        if end > self.data.len() {
            return Err(TrapErrorKind::OutOfBoundsMemoryAccess);
        }
        let ghost d0 = self.data@;
        let mut k: usize = 0;
        while k < len
            invariant
                k <= len,
                len == bytes@.len(),
                end == ea + len,
                end <= d0.len(),
                self.data@.len() == d0.len(),
                self.memtype == old(self).memtype,
                d0 == old(self).data@,
                forall|i: int| 0 <= i < d0.len() ==> #[trigger] self.data@[i] == if ea <= i < ea + k {
                    bytes@[i - ea]
                } else {
                    d0[i]
                },
            decreases len - k,
        {
            self.data.set(ea + k, bytes[k]);
            k = k + 1;
        }
        proof {
            assert(self.data@ =~= overwrite(d0, ea as int, bytes@));
        }
        Ok(())
    }

    /// The `len` bytes at `base + offset`.
    pub fn slice(&self, base: i32, offset: u32, len: usize) -> (r: Result<&[u8], TrapErrorKind>)
        ensures
            mem_access_ok(self.data@, base, offset, len) ==> r is Ok && r->Ok_0@ == self.data@.subrange(
                effective_address(base, offset)->Some_0,
                effective_address(base, offset)->Some_0 + len,
            ),
            !mem_access_ok(self.data@, base, offset, len) ==> r == Err::<&[u8], TrapErrorKind>(
                TrapErrorKind::OutOfBoundsMemoryAccess,
            ),
    {
        let data_len = self.data.len();
        let ea = match (base as u32).checked_add(offset) {
            Some(a) => a as usize,
            None => return Err(TrapErrorKind::OutOfBoundsMemoryAccess),
        };
        let end = match ea.checked_add(len) {
            Some(e) => e,
            None => return Err(TrapErrorKind::OutOfBoundsMemoryAccess),
        };
        if end > self.data.len() {
            return Err(TrapErrorKind::OutOfBoundsMemoryAccess);
        }
        let (head, _) = self.data.as_slice().split_at(end);
        let (_, mid) = head.split_at(ea);
        Ok(mid)
    }
}

#[derive(Debug, Clone, Copy)]
pub struct MemAddr(pub usize);

impl MemAddr {
    pub open spec fn index(self) -> usize {
        self.0
    }
}

#[derive(Debug)]
pub struct Memories(pub Vec<MemoryInstance>);

/// The bytes of a new memory: the minimum number of pages, zeroed.
pub open spec fn initial_memory(memtype: MemType) -> Seq<u8> {
    Seq::new((memtype.0.min * WASM_MEM_PAGE_BYTE_SIZE) as nat, |i: int| 0u8)
}

impl Memories {
    /// Allocates a memory of the type's minimum size.
    pub fn allocate(&mut self, memtype: &MemType) -> (r: MemAddr)
        requires
            memtype.0.min * WASM_MEM_PAGE_BYTE_SIZE <= usize::MAX,
        ensures
            final(self).0@.len() == old(self).0@.len() + 1,
            final(self).0@.drop_last() == old(self).0@,
            final(self).0@.last().memtype == *memtype,
            final(self).0@.last().data@ == initial_memory(*memtype),
            r.index() == old(self).0@.len(),
    {
        let memsize = (memtype.0.min as usize) * WASM_MEM_PAGE_BYTE_SIZE;
        let mem = vec![0u8; memsize];
        proof {
            assert(mem@ =~= initial_memory(*memtype));
        }
        self.0.push(MemoryInstance { memtype: *memtype, data: mem });
        proof {
            assert(self.0@.drop_last() =~= old(self).0@);
        }
        MemAddr(self.0.len() - 1)
    }

    pub fn get_mut(&mut self, idx: MemAddr) -> (r: &mut MemoryInstance)
        requires
            idx.index() < old(self).0@.len(),
        ensures
            *r == old(self).0@[idx.index() as int],
            final(self).0@ == old(self).0@.update(idx.index() as int, *final(r)),
    {
        &mut self.0[idx.0]
    }

    pub fn get(&self, idx: MemAddr) -> (r: &MemoryInstance)
        requires
            idx.index() < self.0@.len(),
        ensures
            *r == self.0@[idx.index() as int],
    {
        &self.0[idx.0]
    }
}

/// Globals
#[derive(Debug, Clone, Copy)]
pub struct GlobalAddr(pub usize);

#[derive(Debug)]
pub struct GlobalInstance {
    pub globaltype: GlobalType,
    pub value: Value,
}

impl GlobalInstance {
    pub fn new(t: GlobalType, value: Value) -> (r: Self)
        ensures
            r == (GlobalInstance { globaltype: t, value }),
    {
        GlobalInstance { globaltype: t, value }
    }
}

#[derive(Debug)]
pub struct Globals(pub Vec<GlobalInstance>);

impl Globals {
    pub fn allocate(&mut self, t: GlobalType, v: Value) -> (r: GlobalAddr)
        ensures
            r.0 == old(self).0@.len(),
            final(self).0@ == old(self).0@.push(GlobalInstance { globaltype: t, value: v }),
    {
        self.0.push(GlobalInstance::new(t, v));
        GlobalAddr(self.0.len() - 1)
    }

    pub fn get(&self, addr: GlobalAddr) -> (r: &GlobalInstance)
        requires
            addr.0 < self.0@.len(),
        ensures
            *r == self.0@[addr.0 as int],
    {
        &self.0[addr.0]
    }

    pub fn get_mut(&mut self, addr: GlobalAddr) -> (r: &mut GlobalInstance)
        requires
            addr.0 < old(self).0@.len(),
        ensures
            *r == old(self).0@[addr.0 as int],
            final(self).0@ == old(self).0@.update(addr.0 as int, *final(r)),
    {
        &mut self.0[addr.0]
    }
}

/// Tables
#[derive(Debug, Clone, Copy)]
pub struct TableAddr(pub usize);

impl From<usize> for TableAddr {
    fn from(value: usize) -> Self {
        TableAddr(value)
    }
}

impl vstd::std_specs::convert::FromSpecImpl<usize> for TableAddr {
    open spec fn obeys_from_spec() -> bool {
        true
    }

    open spec fn from_spec(v: usize) -> TableAddr {
        TableAddr(v)
    }
}

impl From<u32> for TableAddr {
    fn from(value: u32) -> Self {
        TableAddr(value as usize)
    }
}

impl vstd::std_specs::convert::FromSpecImpl<u32> for TableAddr {
    open spec fn obeys_from_spec() -> bool {
        true
    }

    open spec fn from_spec(v: u32) -> TableAddr {
        TableAddr(v as usize)
    }
}

#[derive(Debug)]
pub struct Tables(pub Vec<TableInstance>);

#[derive(Debug)]
pub struct TableInstance {
    pub tabletype: TableType,
    pub refs: Vec<Ref>,
}

/// Whether `len` entries at `base` lie in a table of `size` entries; the
/// base is taken as a `usize`, so a negative one lies far out.
pub open spec fn table_access_ok(size: int, base: i32, len: usize) -> bool {
    (base as usize) + len <= size
}

impl TableInstance {
    pub fn new(tabletype: TableType, refs: Vec<Ref>) -> (r: Self)
        ensures
            r.tabletype == tabletype,
            r.refs@ == refs@,
    {
        TableInstance { tabletype, refs }
    }

    /// Copies `len` references of an element segment from `src` into the table at `dst`.
    pub fn init(&mut self, dst: usize, src: usize, len: usize, elem_inst: &ElemInstance) -> (r: Result<(), TrapErrorKind>)
        ensures
            (dst + len <= old(self).refs@.len() && src + len <= elem_inst.spec_refs().len()) ==> r is Ok
                && final(self).refs@ == overwrite(
                old(self).refs@,
                dst as int,
                elem_inst.spec_refs().subrange(src as int, src + len),
            ),
            !(dst + len <= old(self).refs@.len() && src + len <= elem_inst.spec_refs().len()) ==> r
                == Err::<(), TrapErrorKind>(TrapErrorKind::OutOfBoundsTableAccess) && final(self).refs@ == old(
                self,
            ).refs@,
            final(self).tabletype == old(self).tabletype,
    {
        let refs_len = self.refs.len();
        let src_len = elem_inst.refs.len();
        let dst_end = match dst.checked_add(len) {
            Some(end) => end,
            None => return Err(TrapErrorKind::OutOfBoundsTableAccess),
        };
        if dst_end > self.refs.len() {
            return Err(TrapErrorKind::OutOfBoundsTableAccess);
        }
        let src_end = match src.checked_add(len) {
            Some(end) => end,
            None => return Err(TrapErrorKind::OutOfBoundsTableAccess),
        };
        if src_end > elem_inst.refs.len() {
            return Err(TrapErrorKind::OutOfBoundsTableAccess);
        }
        if len == 0 {
            proof {
                assert(overwrite(old(self).refs@, dst as int, elem_inst.spec_refs().subrange(src as int, src as int))
                    =~= old(self).refs@);
            }
            return Ok(());
        }
        let ghost r0 = self.refs@;
        let mut k: usize = 0;
        while k < len
            invariant
                k <= len,
                dst_end == dst + len,
                src_end == src + len,
                dst + len <= r0.len(),
                src + len <= elem_inst.spec_refs().len(),
                self.refs@.len() == r0.len(),
                self.tabletype == old(self).tabletype,
                r0 == old(self).refs@,
                forall|i: int| 0 <= i < r0.len() ==> #[trigger] self.refs@[i] == if dst <= i < dst + k {
                    elem_inst.spec_refs()[src + i - dst]
                } else {
                    r0[i]
                },
            decreases len - k,
        {
            self.refs.set(dst + k, elem_inst.refs[src + k]);
            k = k + 1;
        }
        proof {
            assert(self.refs@ =~= overwrite(r0, dst as int, elem_inst.spec_refs().subrange(src as int, src + len)));
        }
        Ok(())
    }

    /// Grows the table by `inc` copies of `val`, and gives the size before;
    /// none when the new size would exceed the limits, which leaves the table alone.
    pub fn grow(&mut self, inc: u32, val: Ref) -> (r: Result<Option<u32>, TrapErrorKind>)
        ensures
            ({
                let len = old(self).refs@.len();
                let new_len = len + inc;
                if new_len > MAX_WASM_TABLE_LEN || (old(self).tabletype.limit.max is Some && new_len
                    > old(self).tabletype.limit.max->Some_0) {
                    r == Ok::<Option<u32>, TrapErrorKind>(None) && final(self).refs@ == old(self).refs@
                } else {
                    r == Ok::<Option<u32>, TrapErrorKind>(Some(len as u32)) && final(self).refs@ == old(
                        self,
                    ).refs@ + Seq::new(inc as nat, |i: int| val)
                }
            }),
            final(self).tabletype == old(self).tabletype,
    {
        let len = self.refs.len();
        let new_len = match len.checked_add(inc as usize) {
            Some(n) => n,
            None => return Ok(None),
        };
        if new_len > MAX_WASM_TABLE_LEN {
            return Ok(None);
        }
        if let Some(max_sz) = self.tabletype.limit.max {
            if new_len > (max_sz as usize) {
                return Ok(None);
            }
        }
        let ghost r0 = self.refs@;
        while self.refs.len() < new_len
            invariant
                r0 == old(self).refs@,
                new_len == r0.len() + inc,
                r0.len() <= self.refs@.len() <= new_len,
                self.tabletype == old(self).tabletype,
                self.refs@ =~= r0 + Seq::new((self.refs@.len() - r0.len()) as nat, |i: int| val),
            decreases new_len - self.refs@.len(),
        {
            self.refs.push(val);
        }
        Ok(Some(len as u32))
    }

    /// The `len` references at `base`, to write.
    pub fn slice_mut(&mut self, base: i32, len: usize) -> (r: Result<&mut [Ref], TrapErrorKind>)
        ensures
            table_access_ok(old(self).refs@.len() as int, base, len) ==> r is Ok && (*r->Ok_0)@ == old(
                self,
            ).refs@.subrange(base as usize as int, base as usize + len) && final(self).refs@ == old(
                self,
            ).refs@.subrange(0, base as usize as int) + (*final(r->Ok_0))@ + old(self).refs@.subrange(
                base as usize + len,
                old(self).refs@.len() as int,
            ),
            !table_access_ok(old(self).refs@.len() as int, base, len) ==> r == Err::<&mut [Ref], TrapErrorKind>(
                TrapErrorKind::OutOfBoundsTableAccess,
            ) && final(self).refs@ == old(self).refs@,
            final(self).tabletype == old(self).tabletype,
    {
        let refs_len = self.refs.len();
        let base = base as usize;
        let end = match base.checked_add(len) {
            Some(e) => e,
            None => return Err(TrapErrorKind::OutOfBoundsTableAccess),
        };
        if end > self.refs.len() {
            return Err(TrapErrorKind::OutOfBoundsTableAccess);
        }
        let (head, _) = self.refs.as_mut_slice().split_at_mut(end);
        let (_, mid) = head.split_at_mut(base);
        Ok(mid)
    }

    /// The `len` references at `base`.
    pub fn slice(&self, base: i32, len: usize) -> (r: Result<&[Ref], TrapErrorKind>)
        ensures
            table_access_ok(self.refs@.len() as int, base, len) ==> r is Ok && r->Ok_0@ == self.refs@.subrange(
                base as usize as int,
                base as usize + len,
            ),
            !table_access_ok(self.refs@.len() as int, base, len) ==> r == Err::<&[Ref], TrapErrorKind>(
                TrapErrorKind::OutOfBoundsTableAccess,
            ),
    {
        let refs_len = self.refs.len();
        let base = base as usize;
        let end = match base.checked_add(len) {
            Some(e) => e,
            None => return Err(TrapErrorKind::OutOfBoundsTableAccess),
        };
        if end > self.refs.len() {
            return Err(TrapErrorKind::OutOfBoundsTableAccess);
        }
        let (head, _) = self.refs.as_slice().split_at(end);
        let (_, mid) = head.split_at(base);
        Ok(mid)
    }
}

impl Tables {
    pub fn allocate(&mut self, t: TableType, refs: Vec<Ref>) -> (r: TableAddr)
        ensures
            final(self).0@.len() == old(self).0@.len() + 1,
            final(self).0@.drop_last() == old(self).0@,
            final(self).0@.last().tabletype == t,
            final(self).0@.last().refs@ == refs@,
            r.0 == old(self).0@.len(),
    {
        self.0.push(TableInstance::new(t, refs));
        proof {
            assert(self.0@.drop_last() =~= old(self).0@);
        }
        TableAddr(self.0.len() - 1)
    }

    pub fn get_mut(&mut self, addr: TableAddr) -> (r: &mut TableInstance)
        requires
            addr.0 < old(self).0@.len(),
        ensures
            *r == old(self).0@[addr.0 as int],
            final(self).0@ == old(self).0@.update(addr.0 as int, *final(r)),
    {
        &mut self.0[addr.0]
    }

    pub fn get(&self, addr: TableAddr) -> (r: &TableInstance)
        requires
            addr.0 < self.0@.len(),
        ensures
            *r == self.0@[addr.0 as int],
    {
        &self.0[addr.0]
    }
}

/// Elements
#[derive(Debug, Clone, Copy)]
pub struct ElemAddr(pub usize);

#[derive(Debug)]
pub struct Elements(pub Vec<ElemInstance>);

#[derive(Debug)]
pub struct ElemInstance {
    elemtype: RefType,
    refs: Vec<Ref>,
    dropped: bool,
}

impl ElemInstance {
    pub closed spec fn spec_elemtype(&self) -> RefType {
        self.elemtype
    }

    pub closed spec fn spec_refs(&self) -> Seq<Ref> {
        self.refs@
    }

    pub closed spec fn spec_dropped(&self) -> bool {
        self.dropped
    }

    pub fn new(elemtype: RefType, refs: Vec<Ref>) -> (r: Self)
        ensures
            r.spec_elemtype() == elemtype,
            r.spec_refs() == refs@,
            !r.spec_dropped(),
    {
        ElemInstance { elemtype, refs, dropped: false }
    }
}

impl Elements {
    pub fn allocate(&mut self, t: RefType, refs: Vec<Ref>) -> (r: ElemAddr)
        ensures
            final(self).0@.len() == old(self).0@.len() + 1,
            final(self).0@.drop_last() == old(self).0@,
            final(self).0@.last().spec_elemtype() == t,
            final(self).0@.last().spec_refs() == refs@,
            !final(self).0@.last().spec_dropped(),
            r.0 == old(self).0@.len(),
    {
        self.0.push(ElemInstance::new(t, refs));
        proof {
            assert(self.0@.drop_last() =~= old(self).0@);
        }
        ElemAddr(self.0.len() - 1)
    }

    pub fn get_mut(&mut self, addr: ElemAddr) -> (r: &mut ElemInstance)
        requires
            addr.0 < old(self).0@.len(),
        ensures
            *r == old(self).0@[addr.0 as int],
            final(self).0@ == old(self).0@.update(addr.0 as int, *final(r)),
    {
        &mut self.0[addr.0]
    }

    pub fn get(&self, addr: ElemAddr) -> (r: &ElemInstance)
        requires
            addr.0 < self.0@.len(),
        ensures
            *r == self.0@[addr.0 as int],
    {
        &self.0[addr.0]
    }

    /// Drops a segment: its references are gone, and it is marked dropped.
    pub fn drop(&mut self, addr: ElemAddr)
        requires
            addr.0 < old(self).0@.len(),
        ensures
            final(self).0@.len() == old(self).0@.len(),
            forall|i: int| 0 <= i < old(self).0@.len() && i != addr.0 ==> #[trigger] final(self).0@[i] == old(self).0@[i],
            final(self).0@[addr.0 as int].spec_elemtype() == old(self).0@[addr.0 as int].spec_elemtype(),
            final(self).0@[addr.0 as int].spec_refs() == Seq::<Ref>::empty(),
            final(self).0@[addr.0 as int].spec_dropped(),
    {
        let elemtype = self.0[addr.0].elemtype;
        self.0.set(addr.0, ElemInstance { elemtype, refs: Vec::new(), dropped: true });
    }
}

// Data
#[derive(Debug, Clone, Copy)]
pub struct DataAddr(pub usize);

#[derive(Debug)]
pub struct Data(pub Vec<DataInstance>);

#[derive(Debug)]
pub struct DataInstance {
    data: Vec<u8>,
    dropped: bool,
}

impl DataInstance {
    pub closed spec fn spec_data(&self) -> Seq<u8> {
        self.data@
    }

    pub closed spec fn spec_dropped(&self) -> bool {
        self.dropped
    }

    pub fn new(data: Vec<u8>) -> (r: Self)
        ensures
            r.spec_data() == data@,
            !r.spec_dropped(),
    {
        DataInstance { data, dropped: false }
    }
}

/// A copy of a byte vector.
fn copy_data(bytes: &Vec<u8>) -> (r: Vec<u8>)
    ensures
        r@ == bytes@,
{
    let mut out: Vec<u8> = Vec::with_capacity(bytes.len());
    let mut i: usize = 0;
    while i < bytes.len()
        invariant
            i <= bytes@.len(),
            out@ == bytes@.take(i as int),
        decreases bytes@.len() - i,
    {
        out.push(bytes[i]);
        i = i + 1;
        proof {
            assert(out@ =~= bytes@.take(i as int));
        }
    }
    proof {
        assert(bytes@.take(i as int) =~= bytes@);
    }
    out
}

impl Data {
    /// Allocates a data instance with a segment's bytes.
    pub fn allocate(&mut self, ds: &DataSegment) -> (r: DataAddr)
        ensures
            final(self).0@.len() == old(self).0@.len() + 1,
            final(self).0@.drop_last() == old(self).0@,
            final(self).0@.last().spec_data() == ds.data@,
            !final(self).0@.last().spec_dropped(),
            r.0 == old(self).0@.len(),
    {
        self.0.push(DataInstance::new(copy_data(&ds.data)));
        proof {
            assert(self.0@.drop_last() =~= old(self).0@);
        }
        DataAddr(self.0.len() - 1)
    }

    pub fn get(&self, addr: DataAddr) -> (r: &DataInstance)
        requires
            addr.0 < self.0@.len(),
        ensures
            *r == self.0@[addr.0 as int],
    {
        &self.0[addr.0]
    }

    /// Drops a segment: its bytes are gone, and it is marked dropped.
    pub fn drop(&mut self, addr: DataAddr)
        requires
            addr.0 < old(self).0@.len(),
        ensures
            final(self).0@.len() == old(self).0@.len(),
            forall|i: int| 0 <= i < old(self).0@.len() && i != addr.0 ==> #[trigger] final(self).0@[i] == old(self).0@[i],
            final(self).0@[addr.0 as int].spec_data() == Seq::<u8>::empty(),
            final(self).0@[addr.0 as int].spec_dropped(),
    {
        self.0.set(addr.0, DataInstance { data: Vec::new(), dropped: true });
    }
}


/// The store: every function, global, table, element segment, memory and
/// data segment that the runtime's modules allocated.
#[derive(Debug)]
pub struct Store {
    pub functions: Functions,
    pub globals: Globals,
    pub tables: Tables,
    pub elements: Elements,
    pub memories: Memories,
    pub data: Data,
}

impl Default for Store {
    fn default() -> (r: Self)
        ensures
            r.functions.spec_funcs().len() == 0,
            r.globals.0@.len() == 0,
            r.tables.0@.len() == 0,
            r.elements.0@.len() == 0,
            r.memories.0@.len() == 0,
            r.data.0@.len() == 0,
    {
        Store {
            functions: Functions::new(),
            globals: Globals(Vec::new()),
            tables: Tables(Vec::new()),
            elements: Elements(Vec::new()),
            memories: Memories(Vec::new()),
            data: Data(Vec::new()),
        }
    }
}

/// A new memory has the type's minimum size, in whole pages.
pub proof fn lemma_initial_memory_size(memtype: MemType)
    ensures
        initial_memory(memtype).len() % (WASM_MEM_PAGE_BYTE_SIZE as nat) == 0,
        spec_mem_size(initial_memory(memtype)) == memtype.0.min,
{
    let m = memtype.0.min as int;
    assert((m * 0x1_0000) % 0x1_0000 == 0 && (m * 0x1_0000) / 0x1_0000 == m) by (nonlinear_arith);
}

/// Growing a memory of whole pages by `n` pages leaves whole pages, `n`
/// more of them, and the bytes it had.
pub proof fn lemma_grow_size(data: Seq<u8>, n: u32)
    requires
        data.len() % (WASM_MEM_PAGE_BYTE_SIZE as nat) == 0,
        data.len() / (WASM_MEM_PAGE_BYTE_SIZE as nat) <= u32::MAX,
        spec_mem_size(data) + n <= MAX_WASM_32BIT_MEMORY_PAGES,
    ensures
        ({
            let grown = resized(data, (spec_mem_size(data) + n) * WASM_MEM_PAGE_BYTE_SIZE, 0u8);
            &&& grown.len() % (WASM_MEM_PAGE_BYTE_SIZE as nat) == 0
            &&& spec_mem_size(grown) == spec_mem_size(data) + n
            &&& grown.subrange(0, data.len() as int) == data
        }),
{
    let len = data.len() as int;
    let pages = len / 0x1_0000;
    assert(len == pages * 0x1_0000) by (nonlinear_arith)
        requires
            len % 0x1_0000 == 0,
            pages == len / 0x1_0000,
    ;
    assert(spec_mem_size(data) == pages);
    let k = pages + n;
    let new_len = k * 0x1_0000;
    assert(new_len >= len && new_len % 0x1_0000 == 0 && new_len / 0x1_0000 == k) by (nonlinear_arith)
        requires
            new_len == k * 0x1_0000,
            len == pages * 0x1_0000,
            k >= pages,
    ;
    let grown = resized(data, new_len, 0u8);
    assert(grown.subrange(0, len) =~= data);
}

} // verus!
