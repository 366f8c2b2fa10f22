//! The store: the arena that owns every runtime object of every module
//! instantiated in it. Objects are only ever added, so an address, once
//! handed out, stays valid and keeps naming the same object.

use vstd::prelude::*;
use crate::conversion::{error_view, result_view};
use crate::error::{Error, ErrorView, Trap};
use crate::instance::ModuleInstance;
use crate::instructions::Instruction;
use crate::model::{
    body_types_in_range, decl_types_in_range, func_insts, lemma_datas_end, lemma_elements_end,
    mem_insts, memories_fit, memory_fits, new_addrs, table_insts,
    types_in_range, unsigned, write_range, DataInstView, ElemInstView, FuncCodeView,
    FuncInstView, MemInstView, Segments, StoreView, TableInstView, MAX_PAGES, PAGE_SIZE,
};
use crate::module::{
    lemma_views_push, views, ConstExpr, ConstOp, Data, DataKind, Element, ElementItem,
    ElementKind, FuncDecl, Global, GlobalType, MemoryType, TableType, WasmValue,
};
use crate::types::{
    Addr, DataAddr, ElemAddr, FuncAddr, FuncType, GlobalAddr, MemAddr, ModuleInstanceAddr,
    TableAddr, ValType,
};

verus! {

/// What runs when a function is called.
#[derive(Debug)]
pub enum FuncCode {
    /// A function that a module defines, with the instance that owns it.
    Wasm { owner: ModuleInstanceAddr, func: FuncDecl },
    /// A function of the embedder, under the number that the embedder
    /// knows it by.
    Host { id: usize },
}

impl View for FuncCode {
    type V = FuncCodeView;

    open spec fn view(&self) -> FuncCodeView {
        match self {
            FuncCode::Wasm { owner, func } => FuncCodeView::Wasm { owner: *owner, func: func@ },
            FuncCode::Host { id } => FuncCodeView::Host { id: *id },
        }
    }
}

/// A function in the store.
#[derive(Debug)]
pub struct FuncInst {
    pub ty: FuncType,
    pub code: FuncCode,
}

impl View for FuncInst {
    type V = FuncInstView;

    open spec fn view(&self) -> FuncInstView {
        FuncInstView { ty: self.ty@, code: self.code@ }
    }
}

/// A table in the store. An entry is the address of a function or of an
/// external object, or null.
#[derive(Debug)]
pub struct TableInst {
    pub kind: TableType,
    pub elements: Vec<Option<Addr>>,
    pub owner: ModuleInstanceAddr,
}

impl View for TableInst {
    type V = TableInstView;

    open spec fn view(&self) -> TableInstView {
        TableInstView { kind: self.kind, elements: self.elements@, owner: self.owner }
    }
}

/// A memory in the store.
#[derive(Debug)]
pub struct MemInst {
    pub kind: MemoryType,
    pub data: Vec<u8>,
    pub owner: ModuleInstanceAddr,
}

impl View for MemInst {
    type V = MemInstView;

    open spec fn view(&self) -> MemInstView {
        MemInstView { kind: self.kind, data: self.data@, owner: self.owner }
    }
}

/// A global in the store.
#[derive(Clone, Copy, Debug)]
pub struct GlobalInst {
    pub ty: GlobalType,
    pub value: WasmValue,
    pub owner: ModuleInstanceAddr,
}

/// An element segment in the store. A segment that was dropped has no
/// items.
#[derive(Debug)]
pub struct ElemInst {
    pub ty: ValType,
    pub items: Vec<Option<Addr>>,
    pub owner: ModuleInstanceAddr,
}

impl View for ElemInst {
    type V = ElemInstView;

    open spec fn view(&self) -> ElemInstView {
        ElemInstView { ty: self.ty, items: self.items@, owner: self.owner }
    }
}

/// A data segment in the store. A segment that was dropped has no bytes.
#[derive(Debug)]
pub struct DataInst {
    pub data: Vec<u8>,
    pub owner: ModuleInstanceAddr,
}

impl View for DataInst {
    type V = DataInstView;

    open spec fn view(&self) -> DataInstView {
        DataInstView { data: self.data@, owner: self.owner }
    }
}

/// The store.
#[derive(Debug)]
pub struct Store {
    id: usize,
    next_instance: ModuleInstanceAddr,
    instances: Vec<ModuleInstance>,
    funcs: Vec<FuncInst>,
    tables: Vec<TableInst>,
    memories: Vec<MemInst>,
    globals: Vec<GlobalInst>,
    elements: Vec<ElemInst>,
    datas: Vec<DataInst>,
}

impl View for Store {
    type V = StoreView;

    closed spec fn view(&self) -> StoreView {
        StoreView {
            id: self.id,
            next_instance: self.next_instance,
            instances: views(self.instances@),
            funcs: views(self.funcs@),
            tables: views(self.tables@),
            memories: views(self.memories@),
            globals: self.globals@,
            elements: views(self.elements@),
            datas: views(self.datas@),
        }
    }
}

impl Store {
    /// Whether the store is well-formed. Every store that this module hands
    /// out is, and every function of this module keeps it so.
    pub open spec fn wf(&self) -> bool {
        self@.wf()
    }

    /// A store that holds nothing. The caller chooses the identity, and
    /// keeps the stores of one process apart by giving each its own.
    pub fn new(id: usize) -> (store: Store)
        ensures
            store@ == StoreView::empty(id),
            store.wf(),
    {
        let store = Store {
            id,
            next_instance: 0,
            instances: Vec::new(),
            funcs: Vec::new(),
            tables: Vec::new(),
            memories: Vec::new(),
            globals: Vec::new(),
            elements: Vec::new(),
            datas: Vec::new(),
        };
        assert(store@.instances =~= Seq::empty());
        assert(store@.funcs =~= Seq::empty());
        assert(store@.tables =~= Seq::empty());
        assert(store@.memories =~= Seq::empty());
        assert(store@.elements =~= Seq::empty());
        assert(store@.datas =~= Seq::empty());
        store
    }

    /// The identity of the store.
    pub fn id(&self) -> (id: usize)
        ensures
            id == self@.id,
    {
        self.id
    }

    /// Whether another module instance index can be handed out.
    pub fn has_free_instance_idx(&self) -> (free: bool)
        ensures
            free == (self@.next_instance < u32::MAX),
    {
        self.next_instance < u32::MAX
    }

    /// Hands out the index for the next module instance. Each call gives
    /// the index after the one that the call before it gave.
    pub fn next_module_instance_idx(&mut self) -> (idx: ModuleInstanceAddr)
        requires
            old(self).wf(),
            old(self)@.next_instance < u32::MAX,
        ensures
            final(self).wf(),
            (final(self)@, idx) == old(self)@.next_module_instance_idx(),
    {
        let idx = self.next_instance;
        self.next_instance = idx + 1;
        idx
    }

    /// Registers a function of the embedder, which the embedder knows by
    /// `id`, so that modules can import it.
    pub fn add_host_func(&mut self, ty: FuncType, id: usize) -> (addr: Result<FuncAddr, Error>)
        requires
            old(self).wf(),
        ensures
            final(self).wf(),
            (final(self)@, error_view(addr)) == old(self)@.add_host_func(
                ty@,
                id,
            ),
    {
        if self.funcs.len() >= u32::MAX as usize {
            return Err(Error::other("Too many functions"));
        }
        let addr = self.funcs.len() as u32;
        let ghost before = self.funcs@;
        let inst = FuncInst { ty, code: FuncCode::Host { id } };
        self.funcs.push(inst);
        proof {
            lemma_views_push(before, inst);
        }
        Ok(addr)
    }

    /// Adds the functions that a module defines.
    pub fn init_funcs(
        &mut self,
        types: &Vec<FuncType>,
        decls: Vec<FuncDecl>,
        owner: ModuleInstanceAddr,
    ) -> (addrs: Result<Vec<FuncAddr>, Error>)
        requires
            old(self).wf(),
        ensures
            final(self).wf(),
            (final(self)@, result_view(addrs)) == old(self)@.init_funcs(
                views(types@),
                views(decls@),
                owner,
            ),
    {
        let mut i: usize = 0;
        while i < decls.len()
            invariant
                i <= decls.len(),
                *self == *old(self),
                self.wf(),
                forall|k: int|
                    0 <= k < i ==> decl_types_in_range(#[trigger] views(decls@)[k], types@.len()),
            decreases decls.len() - i,
        {
            if decls[i].type_index as usize >= types.len() || !body_refers_to_types(
                &decls[i].body,
                types.len(),
            ) {
                assert(!decl_types_in_range(views(decls@)[i as int], views(types@).len()));
                return Err(Error::other("Function type not found"));
            }
            i += 1;
        }
        if decls.len() > u32::MAX as usize - self.funcs.len() {
            return Err(Error::other("Too many functions"));
        }
        let ghost added = func_insts(views(types@), views(decls@), owner);
        let ghost start = self@;
        let first: usize = self.funcs.len();
        let mut addrs: Vec<FuncAddr> = Vec::new();
        for decl in it: decls
            invariant
                it.seq() == decls@,
                first == start.funcs.len(),
                first + decls@.len() <= u32::MAX,
                types_in_range(views(types@), views(decls@)),
                added == func_insts(views(types@), views(decls@), owner),
                self@ == (StoreView { funcs: start.funcs + added.take(it.index() as int), ..start }),
                addrs@ == new_addrs(first as nat, it.index() as nat),
        {
            let ghost funcs_before = self.funcs@;
            let ghost k = it.index() as int;
            assert(decl@ == views(decls@)[k]);
            let ty = types[decl.type_index as usize].copy();
            let addr: usize = first + addrs.len();
            addrs.push(addr as u32);
            let inst = FuncInst { ty, code: FuncCode::Wasm { owner, func: decl } };
            self.funcs.push(inst);
            proof {
                lemma_views_push(funcs_before, inst);
                assert(views(self.funcs@) =~= start.funcs + added.take(k + 1));
            }
        }
        proof {
            assert(added.take(decls@.len() as int) == added);
        }
        Ok(addrs)
    }
}

/// Whether every instruction of the body that refers to a function type
/// refers to one of the first `count` types.
fn body_refers_to_types(body: &Vec<Instruction>, count: usize) -> (in_range: bool)
    ensures
        in_range == body_types_in_range(body@, count as nat),
{
    let mut i: usize = 0;
    while i < body.len()
        invariant
            i <= body.len(),
            forall|k: int|
                0 <= k < i ==> ((#[trigger] body@[k]).spec_type_index() matches Some(ty) ==> ty
                    < count),
        decreases body.len() - i,
    {
        match body[i].type_index() {
            Some(ty) => {
                if ty as usize >= count {
                    return false;
                }
            },
            None => {},
        }
        i += 1;
    }
    true
}

/// A table's entries at allocation: `count` entries, all null.
fn null_entries(count: u32) -> (entries: Vec<Option<Addr>>)
    ensures
        entries@ == Seq::new(count as nat, |j: int| None::<Addr>),
{
    let mut entries: Vec<Option<Addr>> = Vec::new();
    let mut j: u32 = 0;
    while j < count
        invariant
            j <= count,
            entries@ == Seq::new(j as nat, |j: int| None::<Addr>),
        decreases count - j,
    {
        entries.push(None);
        j += 1;
    }
    entries
}

/// A memory's bytes at allocation: `count` bytes, all zero.
fn zero_bytes(count: usize) -> (bytes: Vec<u8>)
    ensures
        bytes@ == Seq::new(count as nat, |j: int| 0u8),
{
    let bytes = vec![0u8; count];
    bytes
}

impl Store {
    /// Adds the tables that a module defines.
    pub fn init_tables(&mut self, types: &Vec<TableType>, owner: ModuleInstanceAddr) -> (addrs:
        Result<Vec<TableAddr>, Error>)
        requires
            old(self).wf(),
        ensures
            final(self).wf(),
            (final(self)@, result_view(addrs)) == old(self)@.init_tables(
                types@,
                owner,
            ),
    {
        if types.len() > u32::MAX as usize - self.tables.len() {
            return Err(Error::other("Too many tables"));
        }
        let ghost added = table_insts(types@, owner);
        let ghost start = self@;
        let first: usize = self.tables.len();
        let mut addrs: Vec<TableAddr> = Vec::new();
        let mut i: usize = 0;
        while i < types.len()
            invariant
                i <= types.len(),
                first == start.tables.len(),
                first + types@.len() <= u32::MAX,
                added == table_insts(types@, owner),
                self@ == (StoreView { tables: start.tables + added.take(i as int), ..start }),
                addrs@ == new_addrs(first as nat, i as nat),
            decreases types.len() - i,
        {
            let ghost tables_before = self.tables@;
            let ty = types[i];
            let inst = TableInst { kind: ty, elements: null_entries(ty.size_initial), owner };
            addrs.push((first + i) as u32);
            self.tables.push(inst);
            proof {
                lemma_views_push(tables_before, inst);
                assert(views(self.tables@) =~= start.tables + added.take(i + 1));
            }
            i += 1;
        }
        proof {
            assert(added.take(types@.len() as int) == added);
        }
        Ok(addrs)
    }

    /// Adds the memories that a module defines.
    pub fn init_memories(&mut self, types: &Vec<MemoryType>, owner: ModuleInstanceAddr) -> (addrs:
        Result<Vec<MemAddr>, Error>)
        requires
            old(self).wf(),
        ensures
            final(self).wf(),
            (final(self)@, result_view(addrs)) == old(self)@.init_memories(
                types@,
                owner,
            ),
    {
        let mut i: usize = 0;
        while i < types.len()
            invariant
                i <= types.len(),
                *self == *old(self),
                self.wf(),
                forall|k: int| 0 <= k < i ==> memory_fits(#[trigger] types@[k]),
            decreases types.len() - i,
        {
            let pages = types[i].page_count_initial;
            if pages > MAX_PAGES || pages * PAGE_SIZE > usize::MAX as u64 {
                return Err(Error::other("Memory too large"));
            }
            i += 1;
        }
        if types.len() > u32::MAX as usize - self.memories.len() {
            return Err(Error::other("Too many memories"));
        }
        let ghost added = mem_insts(types@, owner);
        let ghost start = self@;
        let first: usize = self.memories.len();
        let mut addrs: Vec<MemAddr> = Vec::new();
        let mut i: usize = 0;
        while i < types.len()
            invariant
                i <= types.len(),
                first == start.memories.len(),
                first + types@.len() <= u32::MAX,
                memories_fit(types@),
                added == mem_insts(types@, owner),
                self@ == (StoreView { memories: start.memories + added.take(i as int), ..start }),
                addrs@ == new_addrs(first as nat, i as nat),
            decreases types.len() - i,
        {
            let ghost memories_before = self.memories@;
            let ty = types[i];
            let size: u64 = ty.page_count_initial * PAGE_SIZE;
            let inst = MemInst { kind: ty, data: zero_bytes(size as usize), owner };
            addrs.push((first + i) as u32);
            self.memories.push(inst);
            proof {
                lemma_views_push(memories_before, inst);
                assert(views(self.memories@) =~= start.memories + added.take(i + 1));
            }
            i += 1;
        }
        proof {
            assert(added.take(types@.len() as int) == added);
        }
        Ok(addrs)
    }
}

impl Store {
    /// The function at an address.
    pub fn get_func(&self, addr: FuncAddr) -> (func: Result<&FuncInst, Error>)
        ensures
            match func {
                Ok(func) => addr < self@.funcs.len() && func@ == self@.funcs[addr as int],
                Err(error) => addr >= self@.funcs.len() && error@ == ErrorView::Other(
                    "Function not found"@,
                ),
            },
    {
        if (addr as usize) < self.funcs.len() {
            Ok(&self.funcs[addr as usize])
        } else {
            Err(Error::other("Function not found"))
        }
    }

    /// The table at an address, if there is one.
    pub fn get_table(&self, addr: TableAddr) -> (table: Option<&TableInst>)
        ensures
            match table {
                Some(table) => addr < self@.tables.len() && table@ == self@.tables[addr as int],
                None => addr >= self@.tables.len(),
            },
    {
        if (addr as usize) < self.tables.len() {
            Some(&self.tables[addr as usize])
        } else {
            None
        }
    }

    /// The memory at an address, if there is one.
    pub fn get_mem(&self, addr: MemAddr) -> (mem: Option<&MemInst>)
        ensures
            match mem {
                Some(mem) => addr < self@.memories.len() && mem@ == self@.memories[addr as int],
                None => addr >= self@.memories.len(),
            },
    {
        if (addr as usize) < self.memories.len() {
            Some(&self.memories[addr as usize])
        } else {
            None
        }
    }

    /// The global at an address, if there is one.
    pub fn get_global(&self, addr: GlobalAddr) -> (global: Option<GlobalInst>)
        ensures
            match global {
                Some(global) => addr < self@.globals.len() && global == self@.globals[addr as int],
                None => addr >= self@.globals.len(),
            },
    {
        if (addr as usize) < self.globals.len() {
            Some(self.globals[addr as usize])
        } else {
            None
        }
    }

    /// The element segment at an address, if there is one.
    pub fn get_elem(&self, addr: Addr) -> (elem: Option<&ElemInst>)
        ensures
            match elem {
                Some(elem) => addr < self@.elements.len() && elem@ == self@.elements[addr as int],
                None => addr >= self@.elements.len(),
            },
    {
        if (addr as usize) < self.elements.len() {
            Some(&self.elements[addr as usize])
        } else {
            None
        }
    }

    /// The data segment at an address, if there is one.
    pub fn get_data(&self, addr: Addr) -> (data: Option<&DataInst>)
        ensures
            match data {
                Some(data) => addr < self@.datas.len() && data@ == self@.datas[addr as int],
                None => addr >= self@.datas.len(),
            },
    {
        if (addr as usize) < self.datas.len() {
            Some(&self.datas[addr as usize])
        } else {
            None
        }
    }

    /// The registered instance with the given index, if there is one.
    pub fn get_module_instance(&self, idx: ModuleInstanceAddr) -> (instance: Option<
        &ModuleInstance,
    >)
        ensures
            match instance {
                Some(instance) => instance@.idx == idx && exists|i: int|
                    0 <= i < self@.instances.len() && #[trigger] self@.instances[i] == instance@
                        && forall|k: int| 0 <= k < i ==> (#[trigger] self@.instances[k]).idx != idx,
                None => forall|i: int|
                    0 <= i < self@.instances.len() ==> (#[trigger] self@.instances[i]).idx != idx,
            },
    {
        let mut i: usize = 0;
        while i < self.instances.len()
            invariant
                i <= self.instances.len(),
                forall|k: int| 0 <= k < i ==> (#[trigger] self@.instances[k]).idx != idx,
            decreases self.instances.len() - i,
        {
            if self.instances[i].id() == idx {
                assert(self@.instances[i as int] == self.instances[i as int]@);
                return Some(&self.instances[i]);
            }
            i += 1;
        }
        None
    }

    /// Evaluates a constant expression.
    pub fn eval_const(&self, expr: &ConstExpr, globals: &Vec<GlobalAddr>, funcs: &Vec<FuncAddr>) -> (value:
        Option<WasmValue>)
        ensures
            value == self@.eval_const(expr@, globals@, funcs@),
    {
        if expr.ops.len() != 2 {
            return None;
        }
        match expr.ops[1] {
            ConstOp::End => {},
            _ => {
                return None;
            },
        }
        match expr.ops[0] {
            ConstOp::I32Const(value) => Some(WasmValue::I32(value)),
            ConstOp::I64Const(value) => Some(WasmValue::I64(value)),
            ConstOp::F32Const(bits) => Some(WasmValue::F32(bits)),
            ConstOp::F64Const(bits) => Some(WasmValue::F64(bits)),
            ConstOp::GlobalGet(index) => {
                if (index as usize) < globals.len() {
                    let addr = globals[index as usize];
                    if (addr as usize) < self.globals.len() {
                        let global = self.globals[addr as usize];
                        if !global.ty.mutable {
                            return Some(global.value);
                        }
                    }
                }
                None
            },
            ConstOp::RefNull(ty) => Some(WasmValue::RefNull(ty)),
            ConstOp::RefFunc(index) => {
                if (index as usize) < funcs.len() {
                    Some(WasmValue::RefFunc(funcs[index as usize]))
                } else {
                    None
                }
            },
            ConstOp::End => None,
            ConstOp::NonConstant => None,
        }
    }

    /// Adds the globals that a module defines.
    pub fn init_globals(
        &mut self,
        imported: Vec<GlobalAddr>,
        decls: &Vec<Global>,
        funcs: &Vec<FuncAddr>,
        owner: ModuleInstanceAddr,
    ) -> (addrs: Result<Vec<GlobalAddr>, Error>)
        requires
            old(self).wf(),
        ensures
            final(self).wf(),
            (final(self)@, result_view(addrs)) == old(self)@.init_globals(
                imported@,
                views(decls@),
                funcs@,
                owner,
            ),
    {
        let ghost start = self@;
        let ghost added = start.global_insts(views(decls@), imported@, funcs@, owner);
        let mut insts: Vec<GlobalInst> = Vec::new();
        let mut i: usize = 0;
        while i < decls.len()
            invariant
                i <= decls.len(),
                *self == *old(self),
                self.wf(),
                start == self@,
                added == start.global_insts(views(decls@), imported@, funcs@, owner),
                insts@ == added.take(i as int),
                forall|k: int|
                    0 <= k < i ==> start.eval_const(
                        (#[trigger] views(decls@)[k]).init,
                        imported@,
                        funcs@,
                    ) is Some,
            decreases decls.len() - i,
        {
            let decl = &decls[i];
            assert(views(decls@)[i as int] == decl@);
            match self.eval_const(&decl.init, &imported, funcs) {
                None => {
                    return Err(Error::invalid_const_expr());
                },
                Some(value) => {
                    insts.push(GlobalInst { ty: decl.ty, value, owner });
                },
            }
            i += 1;
        }
        if decls.len() > u32::MAX as usize - self.globals.len() {
            return Err(Error::other("Too many globals"));
        }
        let first: usize = self.globals.len();
        let mut addrs = imported;
        let mut i: usize = 0;
        while i < insts.len()
            invariant
                i <= insts.len(),
                insts@ == added,
                added.len() == decls@.len(),
                first == start.globals.len(),
                first + insts@.len() <= u32::MAX,
                self@ == (StoreView { globals: start.globals + added.take(i as int), ..start }),
                addrs@ == imported@ + new_addrs(first as nat, i as nat),
            decreases insts.len() - i,
        {
            addrs.push((first + i) as u32);
            self.globals.push(insts[i]);
            proof {
                assert(self.globals@ =~= start.globals + added.take(i + 1));
            }
            i += 1;
        }
        Ok(addrs)
    }
}

/// The view of the result of initialising segments.
pub open spec fn segments_view(result: Result<(Vec<Addr>, Option<Trap>), Error>) -> Result<
    Segments,
    ErrorView,
> {
    match result {
        Ok((addrs, trap)) => Ok((addrs@, trap)),
        Err(error) => Err(error@),
    }
}

/// The unsigned reading of a 32-bit value.
fn to_unsigned(value: i32) -> (read: u32)
    ensures
        read == unsigned(value),
{
    if value >= 0 {
        value as u32
    } else {
        (value as i64 + 0x1_0000_0000) as u32
    }
}

impl Store {
    /// Resolves the items of an element segment to references, or returns
    /// `None` if one of them is invalid.
    fn resolve_items(
        &self,
        items: &Vec<ElementItem>,
        globals: &Vec<GlobalAddr>,
        funcs: &Vec<FuncAddr>,
    ) -> (refs: Option<Vec<Option<Addr>>>)
        ensures
            refs is Some == self@.items_resolve(views(items@), globals@, funcs@),
            refs matches Some(refs) ==> refs@ == self@.resolved_items(
                views(items@),
                globals@,
                funcs@,
            ),
    {
        let ghost all = self@.resolved_items(views(items@), globals@, funcs@);
        let mut refs: Vec<Option<Addr>> = Vec::new();
        let mut i: usize = 0;
        while i < items.len()
            invariant
                i <= items.len(),
                all == self@.resolved_items(views(items@), globals@, funcs@),
                refs@ == all.take(i as int),
                forall|k: int|
                    0 <= k < i ==> self@.resolve_item(
                        #[trigger] views(items@)[k],
                        globals@,
                        funcs@,
                    ) is Some,
            decreases items.len() - i,
        {
            assert(views(items@)[i as int] == items@[i as int]@);
            let resolved: Option<Option<Addr>> = match &items[i] {
                ElementItem::Func(index) => {
                    if (*index as usize) < funcs.len() {
                        Some(Some(funcs[*index as usize]))
                    } else {
                        None
                    }
                },
                ElementItem::Expr(expr) => match self.eval_const(expr, globals, funcs) {
                    Some(WasmValue::RefFunc(addr)) => Some(Some(addr)),
                    Some(WasmValue::RefExtern(addr)) => Some(Some(addr)),
                    Some(WasmValue::RefNull(_)) => Some(None),
                    _ => None,
                },
            };
            match resolved {
                None => {
                    return None;
                },
                Some(reference) => {
                    refs.push(reference);
                },
            }
            i += 1;
        }
        Some(refs)
    }

    /// Writes `refs` into the table at `addr`, from position `at` on.
    fn write_table(&mut self, addr: usize, at: usize, refs: &Vec<Option<Addr>>)
        requires
            old(self).wf(),
            addr < old(self)@.tables.len(),
            at + refs@.len() <= old(self)@.tables[addr as int].elements.len(),
        ensures
            final(self).wf(),
            final(self)@ == old(self)@.write_table(addr as int, at as nat, refs@),
    {
        let ghost start = self@;
        assert(self.tables@[addr as int].elements.len() <= usize::MAX);
        assert(self@ =~= start.write_table(addr as int, at as nat, refs@.take(0))) by {
            assert(write_range(start.tables[addr as int].elements, at as nat, refs@.take(0))
                =~= start.tables[addr as int].elements);
            assert(start.write_table(addr as int, at as nat, refs@.take(0)).tables
                =~= start.tables);
        }
        let mut j: usize = 0;
        while j < refs.len()
            invariant
                j <= refs.len(),
                addr < start.tables.len(),
                at + refs@.len() <= start.tables[addr as int].elements.len(),
                at + refs@.len() <= usize::MAX,
                self@ == start.write_table(addr as int, at as nat, refs@.take(j as int)),
            decreases refs.len() - j,
        {
            let ghost before = self.tables@;
            assert(views(before).len() == start.tables.len());
            assert(self@.tables[addr as int] == before[addr as int]@);
            self.tables[addr].elements[at + j] = refs[j];
            proof {
                let base = start.tables[addr as int].elements;
                assert(write_range(base, at as nat, refs@.take(j + 1)) =~= write_range(
                    base,
                    at as nat,
                    refs@.take(j as int),
                ).update(at + j, refs@[j as int]));
                let target = start.write_table(addr as int, at as nat, refs@.take(j + 1));
                assert forall|k: int| 0 <= k < before.len() implies views(self.tables@)[k]
                    == target.tables[k] by {
                    assert(views(before)[k] == before[k]@);
                }
                assert(views(self.tables@) =~= target.tables);
            }
            j += 1;
        }
        proof {
            assert(refs@.take(refs@.len() as int) == refs@);
        }
    }

    /// Writes `bytes` into the memory at `addr`, from position `at` on.
    fn write_memory(&mut self, addr: usize, at: usize, bytes: &Vec<u8>)
        requires
            old(self).wf(),
            addr < old(self)@.memories.len(),
            at + bytes@.len() <= old(self)@.memories[addr as int].data.len(),
        ensures
            final(self).wf(),
            final(self)@ == old(self)@.write_memory(addr as int, at as nat, bytes@),
    {
        let ghost start = self@;
        assert(self.memories@[addr as int].data.len() <= usize::MAX);
        assert(self@ =~= start.write_memory(addr as int, at as nat, bytes@.take(0))) by {
            assert(write_range(start.memories[addr as int].data, at as nat, bytes@.take(0))
                =~= start.memories[addr as int].data);
            assert(start.write_memory(addr as int, at as nat, bytes@.take(0)).memories
                =~= start.memories);
        }
        let mut j: usize = 0;
        while j < bytes.len()
            invariant
                j <= bytes.len(),
                addr < start.memories.len(),
                at + bytes@.len() <= start.memories[addr as int].data.len(),
                at + bytes@.len() <= usize::MAX,
                self@ == start.write_memory(addr as int, at as nat, bytes@.take(j as int)),
            decreases bytes.len() - j,
        {
            let ghost before = self.memories@;
            assert(views(before).len() == start.memories.len());
            assert(self@.memories[addr as int] == before[addr as int]@);
            self.memories[addr].data[at + j] = bytes[j];
            proof {
                let base = start.memories[addr as int].data;
                assert(write_range(base, at as nat, bytes@.take(j + 1)) =~= write_range(
                    base,
                    at as nat,
                    bytes@.take(j as int),
                ).update(at + j, bytes@[j as int]));
                let target = start.write_memory(addr as int, at as nat, bytes@.take(j + 1));
                assert forall|k: int| 0 <= k < before.len() implies views(self.memories@)[k]
                    == target.memories[k] by {
                    assert(views(before)[k] == before[k]@);
                }
                assert(views(self.memories@) =~= target.memories);
            }
            j += 1;
        }
        proof {
            assert(bytes@.take(bytes@.len() as int) == bytes@);
        }
    }

    /// Adds an element segment to the store.
    fn push_element(&mut self, inst: ElemInst)
        requires
            old(self).wf(),
            old(self)@.elements.len() < u32::MAX,
        ensures
            final(self).wf(),
            final(self)@ == old(self)@.push_element(inst@),
    {
        let ghost before = self.elements@;
        self.elements.push(inst);
        proof {
            lemma_views_push(before, inst);
        }
    }

    /// Adds a data segment to the store.
    fn push_data(&mut self, inst: DataInst)
        requires
            old(self).wf(),
            old(self)@.datas.len() < u32::MAX,
        ensures
            final(self).wf(),
            final(self)@ == old(self)@.push_data(inst@),
    {
        let ghost before = self.datas@;
        self.datas.push(inst);
        proof {
            lemma_views_push(before, inst);
        }
    }

    /// Initialises one element segment.
    pub fn apply_element(
        &mut self,
        segment: &Element,
        tables: &Vec<TableAddr>,
        funcs: &Vec<FuncAddr>,
        globals: &Vec<GlobalAddr>,
        owner: ModuleInstanceAddr,
    ) -> (applied: Result<Option<Trap>, Error>)
        requires
            old(self).wf(),
        ensures
            final(self).wf(),
            (final(self)@, error_view(applied)) == old(self)@.apply_element(
                segment@,
                tables@,
                funcs@,
                globals@,
                owner,
            ),
    {
        let refs = match self.resolve_items(&segment.items, globals, funcs) {
            None => {
                return Err(Error::invalid_const_expr());
            },
            Some(refs) => refs,
        };
        if self.elements.len() >= u32::MAX as usize {
            return Err(Error::other("Too many element segments"));
        }
        match &segment.kind {
            ElementKind::Passive => {
                self.push_element(ElemInst { ty: segment.ty, items: refs, owner });
                Ok(None)
            },
            ElementKind::Declared => {
                self.push_element(ElemInst { ty: segment.ty, items: Vec::new(), owner });
                Ok(None)
            },
            ElementKind::Active { table, offset } => {
                let at = match self.eval_const(offset, globals, funcs) {
                    Some(WasmValue::I32(value)) => to_unsigned(value),
                    _ => {
                        return Err(Error::invalid_const_expr());
                    },
                };
                if (*table as usize) >= tables.len() {
                    return Err(Error::other("Table not found"));
                }
                let addr = tables[*table as usize] as usize;
                if addr >= self.tables.len() {
                    return Err(Error::other("Table not found"));
                }
                let size = self.tables[addr].elements.len();
                if refs.len() > size || at as usize > size - refs.len() {
                    return Ok(
                        Some(
                            Trap::TableOutOfBounds {
                                offset: at as u64,
                                len: refs.len() as u64,
                                max: size as u64,
                            },
                        ),
                    );
                }
                self.write_table(addr, at as usize, &refs);
                self.push_element(ElemInst { ty: segment.ty, items: Vec::new(), owner });
                Ok(None)
            },
        }
    }

    /// Initialises the element segments of a module, in order.
    ///
    /// Returns the addresses of the segments that were allocated, and the
    /// trap if an active segment did not fit its table. After a trap or a
    /// failure no further segment is initialised; what was written and
    /// allocated before it stays.
    pub fn init_elements(
        &mut self,
        tables: &Vec<TableAddr>,
        funcs: &Vec<FuncAddr>,
        globals: &Vec<GlobalAddr>,
        segments: &Vec<Element>,
        owner: ModuleInstanceAddr,
    ) -> (done: Result<(Vec<ElemAddr>, Option<Trap>), Error>)
        requires
            old(self).wf(),
        ensures
            final(self).wf(),
            (final(self)@, segments_view(done)) == old(self)@.init_elements(
                tables@,
                funcs@,
                globals@,
                views(segments@),
                owner,
            ),
    {
        let ghost start = self@;
        let mut addrs: Vec<ElemAddr> = Vec::new();
        let mut i: usize = 0;
        while i < segments.len()
            invariant
                i <= segments.len(),
                self.wf(),
                start == old(self)@,
                start.init_elements_upto(
                    views(segments@),
                    tables@,
                    funcs@,
                    globals@,
                    owner,
                    i as nat,
                ) == (self@, Ok::<Segments, ErrorView>((addrs@, None))),
            decreases segments.len() - i,
        {
            let addr = self.elements.len();
            match self.apply_element(&segments[i], tables, funcs, globals, owner) {
                Err(error) => {
                    proof {
                        lemma_elements_end(
                            start,
                            views(segments@),
                            tables@,
                            funcs@,
                            globals@,
                            owner,
                            (i + 1) as nat,
                            segments@.len(),
                        );
                    }
                    return Err(error);
                },
                Ok(Some(trap)) => {
                    proof {
                        lemma_elements_end(
                            start,
                            views(segments@),
                            tables@,
                            funcs@,
                            globals@,
                            owner,
                            (i + 1) as nat,
                            segments@.len(),
                        );
                    }
                    return Ok((addrs, Some(trap)));
                },
                Ok(None) => {
                    addrs.push(addr as u32);
                },
            }
            i += 1;
        }
        Ok((addrs, None))
    }

    /// Initialises one data segment.
    pub fn apply_data(
        &mut self,
        segment: Data,
        mems: &Vec<MemAddr>,
        globals: &Vec<GlobalAddr>,
        owner: ModuleInstanceAddr,
    ) -> (applied: Result<Option<Trap>, Error>)
        requires
            old(self).wf(),
        ensures
            final(self).wf(),
            (final(self)@, error_view(applied)) == old(self)@.apply_data(
                segment@,
                mems@,
                globals@,
                owner,
            ),
    {
        if self.datas.len() >= u32::MAX as usize {
            return Err(Error::other("Too many data segments"));
        }
        match &segment.kind {
            DataKind::Passive => {
                self.push_data(DataInst { data: segment.data, owner });
                Ok(None)
            },
            DataKind::Active { mem, offset } => {
                let no_funcs: Vec<FuncAddr> = Vec::new();
                let at = match self.eval_const(offset, globals, &no_funcs) {
                    Some(WasmValue::I32(value)) => to_unsigned(value),
                    _ => {
                        return Err(Error::invalid_const_expr());
                    },
                };
                if (*mem as usize) >= mems.len() {
                    return Err(Error::other("Memory not found"));
                }
                let addr = mems[*mem as usize] as usize;
                if addr >= self.memories.len() {
                    return Err(Error::other("Memory not found"));
                }
                let size = self.memories[addr].data.len();
                if segment.data.len() > size || at as usize > size - segment.data.len() {
                    return Ok(
                        Some(
                            Trap::MemoryOutOfBounds {
                                offset: at as u64,
                                len: segment.data.len() as u64,
                                max: size as u64,
                            },
                        ),
                    );
                }
                self.write_memory(addr, at as usize, &segment.data);
                self.push_data(DataInst { data: Vec::new(), owner });
                Ok(None)
            },
        }
    }

    /// Initialises the data segments of a module, in order.
    ///
    /// Returns the addresses of the segments that were allocated, and the
    /// trap if an active segment did not fit its memory. After a trap or a
    /// failure no further segment is initialised; what was written and
    /// allocated before it stays.
    pub fn init_datas(
        &mut self,
        mems: &Vec<MemAddr>,
        globals: &Vec<GlobalAddr>,
        segments: Vec<Data>,
        owner: ModuleInstanceAddr,
    ) -> (done: Result<(Vec<DataAddr>, Option<Trap>), Error>)
        requires
            old(self).wf(),
        ensures
            final(self).wf(),
            (final(self)@, segments_view(done)) == old(self)@.init_datas(
                mems@,
                globals@,
                views(segments@),
                owner,
            ),
    {
        let ghost start = self@;
        let mut addrs: Vec<DataAddr> = Vec::new();
        for segment in it: segments
            invariant
                it.seq() == segments@,
                self.wf(),
                start == old(self)@,
                start.init_datas_upto(
                    views(segments@),
                    mems@,
                    globals@,
                    owner,
                    it.index() as nat,
                ) == (self@, Ok::<Segments, ErrorView>((addrs@, None))),
        {
            let ghost i = it.index();
            let addr = self.datas.len();
            match self.apply_data(segment, mems, globals, owner) {
                Err(error) => {
                    proof {
                        lemma_datas_end(
                            start,
                            views(segments@),
                            mems@,
                            globals@,
                            owner,
                            (i + 1) as nat,
                            segments@.len(),
                        );
                    }
                    return Err(error);
                },
                Ok(Some(trap)) => {
                    proof {
                        lemma_datas_end(
                            start,
                            views(segments@),
                            mems@,
                            globals@,
                            owner,
                            (i + 1) as nat,
                            segments@.len(),
                        );
                    }
                    return Ok((addrs, Some(trap)));
                },
                Ok(None) => {
                    addrs.push(addr as u32);
                },
            }
        }
        Ok((addrs, None))
    }

    /// Registers a module instance.
    pub(crate) fn add_instance(&mut self, instance: ModuleInstance)
        requires
            old(self).wf(),
            instance@.valid_in(old(self)@),
            old(self)@.unused_idx(instance@.idx),
        ensures
            final(self).wf(),
            final(self)@ == old(self)@.add_instance(instance@),
    {
        let ghost before = self.instances@;
        self.instances.push(instance);
        proof {
            lemma_views_push(before, instance);
        }
    }
}

} // verus!
