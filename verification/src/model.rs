//! The store as a mathematical object, and what each operation on it
//! means.
//!
//! A store is a record of sequences, one per kind of object, in which the
//! position of an object is its address. An operation is a function from
//! the store before to the store after and a result. The executable store
//! is specified by these functions.

use vstd::prelude::*;
use crate::error::{ErrorView, LinkErrorView, Trap};
use crate::instance::ModuleInstanceView;
use crate::instructions::Instruction;
use crate::module::{
    ConstOp, DataKindView, DataView, ElementItemView, ElementKindView, ElementView,
    FuncDeclView, GlobalView, MemoryType, TableType, WasmValue,
};
use crate::store::GlobalInst;
use crate::types::{
    Addr, FuncAddr, FuncTypeView, GlobalAddr, MemAddr, ModuleInstanceAddr, TableAddr, ValType,
};

verus! {

/// The size of a page of memory in bytes.
pub const PAGE_SIZE: u64 = 65536;

/// The largest number of pages that a memory can have.
pub const MAX_PAGES: u64 = 65536;

/// What runs when a function is called, as plain data.
pub enum FuncCodeView {
    Wasm { owner: ModuleInstanceAddr, func: FuncDeclView },
    Host { id: usize },
}

/// A function of the store, as plain data.
pub struct FuncInstView {
    pub ty: FuncTypeView,
    pub code: FuncCodeView,
}

/// A table of the store, as plain data.
pub struct TableInstView {
    pub kind: TableType,
    pub elements: Seq<Option<Addr>>,
    pub owner: ModuleInstanceAddr,
}

/// A memory of the store, as plain data.
pub struct MemInstView {
    pub kind: MemoryType,
    pub data: Seq<u8>,
    pub owner: ModuleInstanceAddr,
}

/// An element segment of the store, as plain data.
pub struct ElemInstView {
    pub ty: ValType,
    pub items: Seq<Option<Addr>>,
    pub owner: ModuleInstanceAddr,
}

/// A data segment of the store, as plain data.
pub struct DataInstView {
    pub data: Seq<u8>,
    pub owner: ModuleInstanceAddr,
}

/// The store as plain data: its identity, the index that the next module
/// instance gets, the registered instances, and the objects of each kind,
/// each at the position that is its address.
pub struct StoreView {
    pub id: usize,
    pub next_instance: ModuleInstanceAddr,
    pub instances: Seq<ModuleInstanceView>,
    pub funcs: Seq<FuncInstView>,
    pub tables: Seq<TableInstView>,
    pub memories: Seq<MemInstView>,
    pub globals: Seq<GlobalInst>,
    pub elements: Seq<ElemInstView>,
    pub datas: Seq<DataInstView>,
}

/// Every address of the sequence is below the bound.
pub open spec fn addrs_below(addrs: Seq<Addr>, bound: nat) -> bool {
    forall|i: int| 0 <= i < addrs.len() ==> #[trigger] addrs[i] < bound
}

/// The `count` addresses from `from` on, in order.
pub open spec fn new_addrs(from: nat, count: nat) -> Seq<Addr> {
    Seq::new(count, |i: int| (from + i) as Addr)
}

impl ModuleInstanceView {
    /// The instance belongs to the store, and each of its addresses names an
    /// object of the store.
    pub open spec fn valid_in(self, store: StoreView) -> bool {
        &&& self.store_id == store.id
        &&& self.idx < store.next_instance
        &&& addrs_below(self.func_addrs, store.funcs.len())
        &&& addrs_below(self.table_addrs, store.tables.len())
        &&& addrs_below(self.mem_addrs, store.memories.len())
        &&& addrs_below(self.global_addrs, store.globals.len())
        &&& addrs_below(self.elem_addrs, store.elements.len())
        &&& addrs_below(self.data_addrs, store.datas.len())
    }
}

/// The function instances for the functions that a module defines.
pub open spec fn func_insts(
    types: Seq<FuncTypeView>,
    decls: Seq<FuncDeclView>,
    owner: ModuleInstanceAddr,
) -> Seq<FuncInstView> {
    Seq::new(
        decls.len(),
        |i: int|
            FuncInstView {
                ty: types[decls[i].type_index as int],
                code: FuncCodeView::Wasm { owner, func: decls[i] },
            },
    )
}

/// Every instruction of the body that refers to a function type refers to
/// one of the first `count` types.
pub open spec fn body_types_in_range(body: Seq<Instruction>, count: nat) -> bool {
    forall|i: int|
        0 <= i < body.len() ==> ((#[trigger] body[i]).spec_type_index() matches Some(ty) ==> ty
            < count)
}

/// The function, and every instruction of its body, refers to one of the
/// first `count` types.
pub open spec fn decl_types_in_range(decl: FuncDeclView, count: nat) -> bool {
    decl.type_index < count && body_types_in_range(decl.body, count)
}

/// Every function, and every instruction of every body, refers to a type
/// that exists.
pub open spec fn types_in_range(types: Seq<FuncTypeView>, decls: Seq<FuncDeclView>) -> bool {
    forall|i: int| 0 <= i < decls.len() ==> decl_types_in_range(#[trigger] decls[i], types.len())
}

/// A table as it is allocated: of its initial size, every entry null.
pub open spec fn table_inst(ty: TableType, owner: ModuleInstanceAddr) -> TableInstView {
    TableInstView {
        kind: ty,
        elements: Seq::new(ty.size_initial as nat, |j: int| None::<Addr>),
        owner,
    }
}

/// The tables for the table types of a module, as they are allocated.
pub open spec fn table_insts(types: Seq<TableType>, owner: ModuleInstanceAddr) -> Seq<
    TableInstView,
> {
    Seq::new(types.len(), |i: int| table_inst(types[i], owner))
}

/// Whether a memory of this type can be allocated: its initial size is
/// within the limit on pages and fits the address space of the machine.
pub open spec fn memory_fits(ty: MemoryType) -> bool {
    ty.page_count_initial <= MAX_PAGES && ty.page_count_initial * PAGE_SIZE <= usize::MAX
}

/// Every memory of these types can be allocated.
pub open spec fn memories_fit(types: Seq<MemoryType>) -> bool {
    forall|i: int| 0 <= i < types.len() ==> memory_fits(#[trigger] types[i])
}

/// A memory as it is allocated: of its initial size, every byte zero.
pub open spec fn mem_inst(ty: MemoryType, owner: ModuleInstanceAddr) -> MemInstView {
    MemInstView {
        kind: ty,
        data: Seq::new((ty.page_count_initial * PAGE_SIZE) as nat, |j: int| 0u8),
        owner,
    }
}

/// The memories for the memory types of a module, as they are allocated.
pub open spec fn mem_insts(types: Seq<MemoryType>, owner: ModuleInstanceAddr) -> Seq<MemInstView> {
    Seq::new(types.len(), |i: int| mem_inst(types[i], owner))
}

impl StoreView {
    /// The store with the given identity that holds nothing.
    pub open spec fn empty(id: usize) -> StoreView {
        StoreView {
            id,
            next_instance: 0,
            instances: Seq::empty(),
            funcs: Seq::empty(),
            tables: Seq::empty(),
            memories: Seq::empty(),
            globals: Seq::empty(),
            elements: Seq::empty(),
            datas: Seq::empty(),
        }
    }

    /// No registered instance has the given index.
    pub open spec fn unused_idx(self, idx: ModuleInstanceAddr) -> bool {
        forall|i: int| 0 <= i < self.instances.len() ==> (#[trigger] self.instances[i]).idx != idx
    }

    /// Every address fits the address type, every registered instance is
    /// valid in the store, and no two registered instances have the same
    /// index.
    pub open spec fn wf(self) -> bool {
        &&& self.funcs.len() <= u32::MAX
        &&& self.tables.len() <= u32::MAX
        &&& self.memories.len() <= u32::MAX
        &&& self.globals.len() <= u32::MAX
        &&& self.elements.len() <= u32::MAX
        &&& self.datas.len() <= u32::MAX
        &&& forall|i: int|
            0 <= i < self.instances.len() ==> (#[trigger] self.instances[i]).valid_in(self)
        &&& forall|i: int, j: int|
            0 <= i < j < self.instances.len() ==> (#[trigger] self.instances[i]).idx != (
            #[trigger] self.instances[j]).idx
    }

    /// This store is `before` after objects have been added to it, and
    /// possibly tables and memories written.
    pub open spec fn extends(self, before: StoreView) -> bool {
        &&& self.id == before.id
        &&& self.next_instance >= before.next_instance
        &&& self.funcs.len() >= before.funcs.len()
        &&& self.tables.len() >= before.tables.len()
        &&& self.memories.len() >= before.memories.len()
        &&& self.globals.len() >= before.globals.len()
        &&& self.elements.len() >= before.elements.len()
        &&& self.datas.len() >= before.datas.len()
    }

    /// Every object of `before` is still in this store, at the address that
    /// it had. Functions, globals, segments and registered instances are
    /// as they were; a table or a memory has the type, the owner and the
    /// size that it had, while its contents may have been written.
    pub open spec fn keeps(self, before: StoreView) -> bool {
        &&& self.extends(before)
        &&& self.instances.len() >= before.instances.len()
        &&& forall|i: int|
            0 <= i < before.instances.len() ==> #[trigger] self.instances[i]
                == before.instances[i]
        &&& forall|a: int| 0 <= a < before.funcs.len() ==> #[trigger] self.funcs[a] == before.funcs[a]
        &&& forall|a: int|
            0 <= a < before.globals.len() ==> #[trigger] self.globals[a] == before.globals[a]
        &&& forall|a: int|
            0 <= a < before.elements.len() ==> #[trigger] self.elements[a] == before.elements[a]
        &&& forall|a: int| 0 <= a < before.datas.len() ==> #[trigger] self.datas[a] == before.datas[a]
        &&& forall|a: int|
            0 <= a < before.tables.len() ==> {
                &&& (#[trigger] self.tables[a]).kind == before.tables[a].kind
                &&& self.tables[a].owner == before.tables[a].owner
                &&& self.tables[a].elements.len() == before.tables[a].elements.len()
            }
        &&& forall|a: int|
            0 <= a < before.memories.len() ==> {
                &&& (#[trigger] self.memories[a]).kind == before.memories[a].kind
                &&& self.memories[a].owner == before.memories[a].owner
                &&& self.memories[a].data.len() == before.memories[a].data.len()
            }
    }

    /// Handing out the next module instance index: the index, and the
    /// store after it.
    pub open spec fn next_module_instance_idx(self) -> (StoreView, ModuleInstanceAddr) {
        (
            StoreView { next_instance: (self.next_instance + 1) as ModuleInstanceAddr, ..self },
            self.next_instance,
        )
    }

    /// Adding the functions of a module: one function instance per
    /// declaration, at consecutive new addresses, which are returned in
    /// order. Fails, and adds nothing, if a declaration or an instruction
    /// of its body refers to a type that does not exist, or if the
    /// addresses run out.
    pub open spec fn init_funcs(
        self,
        types: Seq<FuncTypeView>,
        decls: Seq<FuncDeclView>,
        owner: ModuleInstanceAddr,
    ) -> (StoreView, Result<Seq<FuncAddr>, ErrorView>) {
        if !types_in_range(types, decls) {
            (self, Err(ErrorView::Other("Function type not found"@)))
        } else if self.funcs.len() + decls.len() > u32::MAX {
            (self, Err(ErrorView::Other("Too many functions"@)))
        } else {
            (
                StoreView { funcs: self.funcs + func_insts(types, decls, owner), ..self },
                Ok(new_addrs(self.funcs.len(), decls.len())),
            )
        }
    }

    /// Registering a function of the embedder: it gets the next function
    /// address, which is returned. Fails, and adds nothing, if the addresses
    /// have run out.
    pub open spec fn add_host_func(self, ty: FuncTypeView, id: usize) -> (
        StoreView,
        Result<FuncAddr, ErrorView>,
    ) {
        if self.funcs.len() >= u32::MAX {
            (self, Err(ErrorView::Other("Too many functions"@)))
        } else {
            (
                StoreView {
                    funcs: self.funcs.push(FuncInstView { ty, code: FuncCodeView::Host { id } }),
                    ..self
                },
                Ok(self.funcs.len() as FuncAddr),
            )
        }
    }

    /// Adding the tables of a module: one table per type, of its initial
    /// size and all null, at consecutive new addresses, which are returned
    /// in order. Fails, and adds nothing, if the addresses run out.
    pub open spec fn init_tables(self, types: Seq<TableType>, owner: ModuleInstanceAddr) -> (
        StoreView,
        Result<Seq<TableAddr>, ErrorView>,
    ) {
        if self.tables.len() + types.len() > u32::MAX {
            (self, Err(ErrorView::Other("Too many tables"@)))
        } else {
            (
                StoreView { tables: self.tables + table_insts(types, owner), ..self },
                Ok(new_addrs(self.tables.len(), types.len())),
            )
        }
    }

    /// Adding the memories of a module: one memory per type, of its initial
    /// size and all zero, at consecutive new addresses, which are returned
    /// in order. Fails, and adds nothing, if a memory cannot be allocated
    /// or if the addresses run out.
    pub open spec fn init_memories(self, types: Seq<MemoryType>, owner: ModuleInstanceAddr) -> (
        StoreView,
        Result<Seq<MemAddr>, ErrorView>,
    ) {
        if !memories_fit(types) {
            (self, Err(ErrorView::Other("Memory too large"@)))
        } else if self.memories.len() + types.len() > u32::MAX {
            (self, Err(ErrorView::Other("Too many memories"@)))
        } else {
            (
                StoreView { memories: self.memories + mem_insts(types, owner), ..self },
                Ok(new_addrs(self.memories.len(), types.len())),
            )
        }
    }
}

impl StoreView {
    /// The value of a constant expression, or `None` if it has none.
    ///
    /// An expression has a value if it is one constant operator followed by
    /// `End`, so that it leaves exactly one value. `global.get` reads the
    /// global at the given index of `globals`, which must exist, be in the
    /// store and be immutable. `ref.func` refers to the function at the
    /// given index of `funcs`, which must exist.
    pub open spec fn eval_const(
        self,
        expr: Seq<ConstOp>,
        globals: Seq<GlobalAddr>,
        funcs: Seq<FuncAddr>,
    ) -> Option<WasmValue> {
        if expr.len() == 2 && expr[1] == ConstOp::End {
            match expr[0] {
                ConstOp::I32Const(value) => Some(WasmValue::I32(value)),
                ConstOp::I64Const(value) => Some(WasmValue::I64(value)),
                ConstOp::F32Const(bits) => Some(WasmValue::F32(bits)),
                ConstOp::F64Const(bits) => Some(WasmValue::F64(bits)),
                ConstOp::GlobalGet(index) => {
                    if index < globals.len() && globals[index as int] < self.globals.len()
                        && !self.globals[globals[index as int] as int].ty.mutable {
                        Some(self.globals[globals[index as int] as int].value)
                    } else {
                        None
                    }
                },
                ConstOp::RefNull(ty) => Some(WasmValue::RefNull(ty)),
                ConstOp::RefFunc(index) => {
                    if index < funcs.len() {
                        Some(WasmValue::RefFunc(funcs[index as int]))
                    } else {
                        None
                    }
                },
                ConstOp::End => None,
                ConstOp::NonConstant => None,
            }
        } else {
            None
        }
    }

    /// Every initializer of the globals has a value.
    pub open spec fn globals_evaluate(
        self,
        decls: Seq<GlobalView>,
        imported: Seq<GlobalAddr>,
        funcs: Seq<FuncAddr>,
    ) -> bool {
        forall|i: int|
            0 <= i < decls.len() ==> self.eval_const(
                (#[trigger] decls[i]).init,
                imported,
                funcs,
            ) is Some
    }

    /// The global instances for the globals that a module defines.
    pub open spec fn global_insts(
        self,
        decls: Seq<GlobalView>,
        imported: Seq<GlobalAddr>,
        funcs: Seq<FuncAddr>,
        owner: ModuleInstanceAddr,
    ) -> Seq<GlobalInst> {
        Seq::new(
            decls.len(),
            |i: int|
                GlobalInst {
                    ty: decls[i].ty,
                    value: self.eval_const(decls[i].init, imported, funcs)->Some_0,
                    owner,
                },
        )
    }

    /// Adding the globals of a module: one global per declaration, holding
    /// the value of its initializer, at consecutive new addresses. An
    /// initializer may read the imported globals, and no others. Returns
    /// the addresses of the imported globals followed by the new ones.
    /// Fails, and adds nothing, if an initializer has no value or if the
    /// addresses run out.
    pub open spec fn init_globals(
        self,
        imported: Seq<GlobalAddr>,
        decls: Seq<GlobalView>,
        funcs: Seq<FuncAddr>,
        owner: ModuleInstanceAddr,
    ) -> (StoreView, Result<Seq<GlobalAddr>, ErrorView>) {
        if !self.globals_evaluate(decls, imported, funcs) {
            (self, Err(ErrorView::Linker(LinkErrorView::InvalidConstExpr)))
        } else if self.globals.len() + decls.len() > u32::MAX {
            (self, Err(ErrorView::Other("Too many globals"@)))
        } else {
            (
                StoreView {
                    globals: self.globals + self.global_insts(decls, imported, funcs, owner),
                    ..self
                },
                Ok(imported + new_addrs(self.globals.len(), decls.len())),
            )
        }
    }
}

/// A 32-bit value read as an unsigned number.
pub open spec fn unsigned(value: i32) -> nat {
    if value >= 0 {
        value as nat
    } else {
        (value + 0x1_0000_0000) as nat
    }
}

/// The offset that the value of an offset expression stands for: the value
/// must be a 32-bit integer, which is read as unsigned.
pub open spec fn const_offset(value: Option<WasmValue>) -> Option<nat> {
    match value {
        Some(WasmValue::I32(value)) => Some(unsigned(value)),
        _ => None,
    }
}

/// `base` with `items` written over it from position `at` on.
pub open spec fn write_range<T>(base: Seq<T>, at: nat, items: Seq<T>) -> Seq<T> {
    Seq::new(
        base.len(),
        |i: int|
            if at <= i < at + items.len() {
                items[i - at]
            } else {
                base[i]
            },
    )
}

/// What initialising segments gives: the addresses of the segments that
/// were allocated, in order, and the trap that ended the initialisation, if
/// one did.
pub type Segments = (Seq<Addr>, Option<Trap>);

impl StoreView {
    /// The reference that an item of an element segment stands for: `None`
    /// if the item is invalid, `Some(None)` for a null reference, and else
    /// the address in the store.
    pub open spec fn resolve_item(
        self,
        item: ElementItemView,
        globals: Seq<GlobalAddr>,
        funcs: Seq<FuncAddr>,
    ) -> Option<Option<Addr>> {
        match item {
            ElementItemView::Func(index) => {
                if index < funcs.len() {
                    Some(Some(funcs[index as int]))
                } else {
                    None
                }
            },
            ElementItemView::Expr(expr) => match self.eval_const(expr, globals, funcs) {
                Some(WasmValue::RefFunc(addr)) => Some(Some(addr)),
                Some(WasmValue::RefExtern(addr)) => Some(Some(addr)),
                Some(WasmValue::RefNull(_)) => Some(None),
                _ => None,
            },
        }
    }

    /// Every item of the sequence stands for a reference.
    pub open spec fn items_resolve(
        self,
        items: Seq<ElementItemView>,
        globals: Seq<GlobalAddr>,
        funcs: Seq<FuncAddr>,
    ) -> bool {
        forall|i: int|
            0 <= i < items.len() ==> self.resolve_item(#[trigger] items[i], globals, funcs)
                is Some
    }

    /// The references that the items stand for, one for one.
    pub open spec fn resolved_items(
        self,
        items: Seq<ElementItemView>,
        globals: Seq<GlobalAddr>,
        funcs: Seq<FuncAddr>,
    ) -> Seq<Option<Addr>> {
        Seq::new(items.len(), |i: int| self.resolve_item(items[i], globals, funcs)->Some_0)
    }

    /// The store with one more element segment.
    pub open spec fn push_element(self, inst: ElemInstView) -> StoreView {
        StoreView { elements: self.elements.push(inst), ..self }
    }

    /// The store with one more data segment.
    pub open spec fn push_data(self, inst: DataInstView) -> StoreView {
        StoreView { datas: self.datas.push(inst), ..self }
    }

    /// The store with `items` written into a table from position `at` on.
    pub open spec fn write_table(self, addr: int, at: nat, items: Seq<Option<Addr>>) -> StoreView {
        StoreView {
            tables: self.tables.update(
                addr,
                TableInstView {
                    elements: write_range(self.tables[addr].elements, at, items),
                    ..self.tables[addr]
                },
            ),
            ..self
        }
    }

    /// The store with `bytes` written into a memory from position `at` on.
    pub open spec fn write_memory(self, addr: int, at: nat, bytes: Seq<u8>) -> StoreView {
        StoreView {
            memories: self.memories.update(
                addr,
                MemInstView {
                    data: write_range(self.memories[addr].data, at, bytes),
                    ..self.memories[addr]
                },
            ),
            ..self
        }
    }

    /// Initialising one element segment.
    ///
    /// The items are resolved to references first. A passive segment is
    /// allocated with its references. A declared segment is allocated
    /// dropped, with none. An active segment is written into its table at
    /// its offset and then allocated dropped; if it does not fit the table,
    /// nothing is written or allocated and the result is the trap.
    ///
    /// Fails, leaving the store as it is, if an item or the offset has no
    /// value of the right kind, if the table does not exist, or if the
    /// addresses run out.
    pub open spec fn apply_element(
        self,
        segment: ElementView,
        tables: Seq<TableAddr>,
        funcs: Seq<FuncAddr>,
        globals: Seq<GlobalAddr>,
        owner: ModuleInstanceAddr,
    ) -> (StoreView, Result<Option<Trap>, ErrorView>) {
        let refs = self.resolved_items(segment.items, globals, funcs);
        let dropped = ElemInstView { ty: segment.ty, items: Seq::empty(), owner };
        if !self.items_resolve(segment.items, globals, funcs) {
            (self, Err(ErrorView::Linker(LinkErrorView::InvalidConstExpr)))
        } else if self.elements.len() >= u32::MAX {
            (self, Err(ErrorView::Other("Too many element segments"@)))
        } else {
            match segment.kind {
                ElementKindView::Passive => (
                    self.push_element(ElemInstView { ty: segment.ty, items: refs, owner }),
                    Ok(None),
                ),
                ElementKindView::Declared => (self.push_element(dropped), Ok(None)),
                ElementKindView::Active { table, offset } => match const_offset(
                    self.eval_const(offset, globals, funcs),
                ) {
                    None => (self, Err(ErrorView::Linker(LinkErrorView::InvalidConstExpr))),
                    Some(at) => {
                        if table >= tables.len() || tables[table as int] >= self.tables.len() {
                            (self, Err(ErrorView::Other("Table not found"@)))
                        } else {
                            let addr = tables[table as int] as int;
                            let size = self.tables[addr].elements.len();
                            if at + refs.len() > size {
                                (
                                    self,
                                    Ok(
                                        Some(
                                            Trap::TableOutOfBounds {
                                                offset: at as u64,
                                                len: refs.len() as u64,
                                                max: size as u64,
                                            },
                                        ),
                                    ),
                                )
                            } else {
                                (self.write_table(addr, at, refs).push_element(dropped), Ok(None))
                            }
                        }
                    },
                },
            }
        }
    }

    /// Initialising the first `n` element segments, in order. A segment
    /// is initialised only if every segment before it was allocated: a
    /// failure or a trap ends the initialisation, and what was written and
    /// allocated before it stays.
    pub open spec fn init_elements_upto(
        self,
        segments: Seq<ElementView>,
        tables: Seq<TableAddr>,
        funcs: Seq<FuncAddr>,
        globals: Seq<GlobalAddr>,
        owner: ModuleInstanceAddr,
        n: nat,
    ) -> (StoreView, Result<Segments, ErrorView>)
        decreases n,
    {
        if n == 0 {
            (self, Ok((Seq::empty(), None)))
        } else {
            let before = self.init_elements_upto(
                segments,
                tables,
                funcs,
                globals,
                owner,
                (n - 1) as nat,
            );
            match before.1 {
                Ok((addrs, None)) => {
                    let applied = before.0.apply_element(
                        segments[n - 1],
                        tables,
                        funcs,
                        globals,
                        owner,
                    );
                    match applied.1 {
                        Err(error) => (applied.0, Err(error)),
                        Ok(Some(trap)) => (applied.0, Ok((addrs, Some(trap)))),
                        Ok(None) => (
                            applied.0,
                            Ok((addrs.push(before.0.elements.len() as Addr), None)),
                        ),
                    }
                },
                _ => before,
            }
        }
    }

    /// Initialising the element segments of a module.
    pub open spec fn init_elements(
        self,
        tables: Seq<TableAddr>,
        funcs: Seq<FuncAddr>,
        globals: Seq<GlobalAddr>,
        segments: Seq<ElementView>,
        owner: ModuleInstanceAddr,
    ) -> (StoreView, Result<Segments, ErrorView>) {
        self.init_elements_upto(segments, tables, funcs, globals, owner, segments.len())
    }

    /// Initialising one data segment.
    ///
    /// A passive segment is allocated with its bytes. An active segment is
    /// written into its memory at its offset and then allocated dropped,
    /// with no bytes; if it does not fit the memory, nothing is written or
    /// allocated and the result is the trap.
    ///
    /// Fails, leaving the store as it is, if the offset has no value of the
    /// right kind, if the memory does not exist, or if the addresses run
    /// out.
    pub open spec fn apply_data(
        self,
        segment: DataView,
        mems: Seq<MemAddr>,
        globals: Seq<GlobalAddr>,
        owner: ModuleInstanceAddr,
    ) -> (StoreView, Result<Option<Trap>, ErrorView>) {
        if self.datas.len() >= u32::MAX {
            (self, Err(ErrorView::Other("Too many data segments"@)))
        } else {
            match segment.kind {
                DataKindView::Passive => (
                    self.push_data(DataInstView { data: segment.data, owner }),
                    Ok(None),
                ),
                DataKindView::Active { mem, offset } => match const_offset(
                    self.eval_const(offset, globals, Seq::empty()),
                ) {
                    None => (self, Err(ErrorView::Linker(LinkErrorView::InvalidConstExpr))),
                    Some(at) => {
                        if mem >= mems.len() || mems[mem as int] >= self.memories.len() {
                            (self, Err(ErrorView::Other("Memory not found"@)))
                        } else {
                            let addr = mems[mem as int] as int;
                            let size = self.memories[addr].data.len();
                            if at + segment.data.len() > size {
                                (
                                    self,
                                    Ok(
                                        Some(
                                            Trap::MemoryOutOfBounds {
                                                offset: at as u64,
                                                len: segment.data.len() as u64,
                                                max: size as u64,
                                            },
                                        ),
                                    ),
                                )
                            } else {
                                (
                                    self.write_memory(addr, at, segment.data).push_data(
                                        DataInstView { data: Seq::empty(), owner },
                                    ),
                                    Ok(None),
                                )
                            }
                        }
                    },
                },
            }
        }
    }

    /// Initialising the first `n` data segments, in order. A segment is
    /// initialised only if every segment before it was allocated: a failure
    /// or a trap ends the initialisation, and what was written and
    /// allocated before it stays.
    pub open spec fn init_datas_upto(
        self,
        segments: Seq<DataView>,
        mems: Seq<MemAddr>,
        globals: Seq<GlobalAddr>,
        owner: ModuleInstanceAddr,
        n: nat,
    ) -> (StoreView, Result<Segments, ErrorView>)
        decreases n,
    {
        if n == 0 {
            (self, Ok((Seq::empty(), None)))
        } else {
            let before = self.init_datas_upto(segments, mems, globals, owner, (n - 1) as nat);
            match before.1 {
                Ok((addrs, None)) => {
                    let applied = before.0.apply_data(segments[n - 1], mems, globals, owner);
                    match applied.1 {
                        Err(error) => (applied.0, Err(error)),
                        Ok(Some(trap)) => (applied.0, Ok((addrs, Some(trap)))),
                        Ok(None) => (
                            applied.0,
                            Ok((addrs.push(before.0.datas.len() as Addr), None)),
                        ),
                    }
                },
                _ => before,
            }
        }
    }

    /// Initialising the data segments of a module.
    pub open spec fn init_datas(
        self,
        mems: Seq<MemAddr>,
        globals: Seq<GlobalAddr>,
        segments: Seq<DataView>,
        owner: ModuleInstanceAddr,
    ) -> (StoreView, Result<Segments, ErrorView>) {
        self.init_datas_upto(segments, mems, globals, owner, segments.len())
    }

    /// Registering a module instance.
    pub open spec fn add_instance(self, instance: ModuleInstanceView) -> StoreView {
        StoreView { instances: self.instances.push(instance), ..self }
    }
}

/// Once initialising element segments has failed or trapped, going on
/// changes nothing.
pub proof fn lemma_elements_end(
    store: StoreView,
    segments: Seq<ElementView>,
    tables: Seq<TableAddr>,
    funcs: Seq<FuncAddr>,
    globals: Seq<GlobalAddr>,
    owner: ModuleInstanceAddr,
    n: nat,
    m: nat,
)
    requires
        n <= m,
        !(store.init_elements_upto(segments, tables, funcs, globals, owner, n).1 matches Ok(
            (_, None),
        )),
    ensures
        store.init_elements_upto(segments, tables, funcs, globals, owner, m)
            == store.init_elements_upto(segments, tables, funcs, globals, owner, n),
    decreases m,
{
    if n < m {
        lemma_elements_end(store, segments, tables, funcs, globals, owner, n, (m - 1) as nat);
    }
}

/// Once initialising data segments has failed or trapped, going on changes
/// nothing.
pub proof fn lemma_datas_end(
    store: StoreView,
    segments: Seq<DataView>,
    mems: Seq<MemAddr>,
    globals: Seq<GlobalAddr>,
    owner: ModuleInstanceAddr,
    n: nat,
    m: nat,
)
    requires
        n <= m,
        !(store.init_datas_upto(segments, mems, globals, owner, n).1 matches Ok((_, None))),
    ensures
        store.init_datas_upto(segments, mems, globals, owner, m) == store.init_datas_upto(
            segments,
            mems,
            globals,
            owner,
            n,
        ),
    decreases m,
{
    if n < m {
        lemma_datas_end(store, segments, mems, globals, owner, n, (m - 1) as nat);
    }
}

/// What initialising element segments leaves as it was, and what it
/// returns: it only adds element segments and writes table entries, and
/// every address that it returns names an element segment of the store.
pub proof fn lemma_elements_shape(
    store: StoreView,
    segments: Seq<ElementView>,
    tables: Seq<TableAddr>,
    funcs: Seq<FuncAddr>,
    globals: Seq<GlobalAddr>,
    owner: ModuleInstanceAddr,
    n: nat,
)
    requires
        store.wf(),
    ensures
        ({
            let done = store.init_elements_upto(segments, tables, funcs, globals, owner, n);
            &&& done.0.wf()
            &&& done.0.id == store.id
            &&& done.0.next_instance == store.next_instance
            &&& done.0.instances == store.instances
            &&& done.0.funcs == store.funcs
            &&& done.0.tables.len() == store.tables.len()
            &&& done.0.memories == store.memories
            &&& done.0.globals == store.globals
            &&& done.0.datas == store.datas
            &&& done.0.keeps(store)
            &&& done.1 matches Ok((addrs, _)) ==> addrs_below(addrs, done.0.elements.len())
        }),
    decreases n,
{
    if n > 0 {
        lemma_elements_shape(store, segments, tables, funcs, globals, owner, (n - 1) as nat);
        let before = store.init_elements_upto(
            segments,
            tables,
            funcs,
            globals,
            owner,
            (n - 1) as nat,
        );
        let done = store.init_elements_upto(segments, tables, funcs, globals, owner, n);
    }
}

/// What initialising data segments leaves as it was, and what it returns:
/// it only adds data segments and writes memory, and every address that it
/// returns names a data segment of the store.
pub proof fn lemma_datas_shape(
    store: StoreView,
    segments: Seq<DataView>,
    mems: Seq<MemAddr>,
    globals: Seq<GlobalAddr>,
    owner: ModuleInstanceAddr,
    n: nat,
)
    requires
        store.wf(),
    ensures
        ({
            let done = store.init_datas_upto(segments, mems, globals, owner, n);
            &&& done.0.wf()
            &&& done.0.id == store.id
            &&& done.0.next_instance == store.next_instance
            &&& done.0.instances == store.instances
            &&& done.0.funcs == store.funcs
            &&& done.0.tables == store.tables
            &&& done.0.memories.len() == store.memories.len()
            &&& done.0.globals == store.globals
            &&& done.0.elements == store.elements
            &&& done.0.keeps(store)
            &&& done.1 matches Ok((addrs, _)) ==> addrs_below(addrs, done.0.datas.len())
        }),
    decreases n,
{
    if n > 0 {
        lemma_datas_shape(store, segments, mems, globals, owner, (n - 1) as nat);
        let before = store.init_datas_upto(segments, mems, globals, owner, (n - 1) as nat);
        let done = store.init_datas_upto(segments, mems, globals, owner, n);
    }
}

} // verus!
