//! Module instances: a module as it lives in a store, with its index
//! spaces resolved to addresses of the store, and the protocol that makes
//! one.

use std::marker::PhantomData;
use std::sync::Arc;
use vstd::prelude::*;
use vstd::string::StringExecFns;
use crate::conversion::{result_view, ExportView};
use crate::error::{Error, ErrorView, Trap};
use crate::func::{FuncHandle, FuncHandleTyped, FuncHandleView};
use crate::imports::{Imports, ImportValueView, ResolvedImportsView};
use crate::module::{views, Import, ImportView, Module, ModuleView};
use crate::model::{lemma_datas_shape, lemma_elements_shape, StoreView};
use crate::store::Store;
use crate::types::{
    Addr, DataAddr, ElemAddr, Export, ExternVal, ExternalKind, FuncAddr, FuncType, FuncTypeView,
    GlobalAddr, MemAddr, ModuleInstanceAddr, TableAddr,
};

verus! {

/// A handle to a module instance. The instance behind it does not change
/// once it is made; cloning the handle is cheap and gives the same instance.
#[derive(Clone, Debug)]
pub struct ModuleInstance(Arc<ModuleInstanceInner>);

#[derive(Debug)]
pub(crate) struct ModuleInstanceInner {
    pub(crate) failed_to_instantiate: bool,
    pub(crate) store_id: usize,
    pub(crate) idx: ModuleInstanceAddr,
    pub(crate) types: Vec<FuncType>,
    pub(crate) func_addrs: Vec<FuncAddr>,
    pub(crate) table_addrs: Vec<TableAddr>,
    pub(crate) mem_addrs: Vec<MemAddr>,
    pub(crate) global_addrs: Vec<GlobalAddr>,
    pub(crate) elem_addrs: Vec<ElemAddr>,
    pub(crate) data_addrs: Vec<DataAddr>,
    pub(crate) func_start: Option<FuncAddr>,
    pub(crate) imports: Vec<Import>,
    pub(crate) exports: Vec<Export>,
}

/// A module instance as plain data. The address sequences translate the
/// module's index spaces into addresses of the store: imported items come
/// first, in the order of their imports, then the items that the module
/// defines.
pub struct ModuleInstanceView {
    pub failed_to_instantiate: bool,
    pub store_id: usize,
    pub idx: ModuleInstanceAddr,
    pub types: Seq<FuncTypeView>,
    pub func_addrs: Seq<FuncAddr>,
    pub table_addrs: Seq<TableAddr>,
    pub mem_addrs: Seq<MemAddr>,
    pub global_addrs: Seq<GlobalAddr>,
    pub elem_addrs: Seq<ElemAddr>,
    pub data_addrs: Seq<DataAddr>,
    pub func_start: Option<FuncAddr>,
    pub imports: Seq<ImportView>,
    pub exports: Seq<ExportView>,
}

impl View for ModuleInstanceInner {
    type V = ModuleInstanceView;

    closed spec fn view(&self) -> ModuleInstanceView {
        ModuleInstanceView {
            failed_to_instantiate: self.failed_to_instantiate,
            store_id: self.store_id,
            idx: self.idx,
            types: views(self.types@),
            func_addrs: self.func_addrs@,
            table_addrs: self.table_addrs@,
            mem_addrs: self.mem_addrs@,
            global_addrs: self.global_addrs@,
            elem_addrs: self.elem_addrs@,
            data_addrs: self.data_addrs@,
            func_start: self.func_start,
            imports: views(self.imports@),
            exports: views(self.exports@),
        }
    }
}

impl View for ModuleInstance {
    type V = ModuleInstanceView;

    closed spec fn view(&self) -> ModuleInstanceView {
        self.0@
    }
}

/// Calls `std::sync::Arc::clone`. Taken on trust, not proved: the clone
/// points to the same allocation as `handle`, and so holds the same value.
#[verifier::external_body]
fn clone_handle(handle: &Arc<ModuleInstanceInner>) -> (copy: Arc<ModuleInstanceInner>)
    ensures
        copy == *handle,
{
    Arc::clone(handle)
}

/// Calls `tinywasm_types::ExternVal::new` with the kind and the address.
/// Taken on trust, not proved: the result is the variant that belongs to
/// the kind, `Func`, `Table`, `Mem` or `Global`, and holds the address
/// unchanged.
#[verifier::external_body]
fn extern_val(kind: ExternalKind, addr: Addr) -> (value: ExternVal)
    ensures
        value == ExternVal::of(kind, addr),
{
    let kind = match kind {
        ExternalKind::Func => tinywasm_types::ExternalKind::Func,
        ExternalKind::Table => tinywasm_types::ExternalKind::Table,
        ExternalKind::Memory => tinywasm_types::ExternalKind::Memory,
        ExternalKind::Global => tinywasm_types::ExternalKind::Global,
    };
    match tinywasm_types::ExternVal::new(kind, addr) {
        tinywasm_types::ExternVal::Func(addr) => ExternVal::Func(addr),
        tinywasm_types::ExternVal::Table(addr) => ExternVal::Table(addr),
        tinywasm_types::ExternVal::Mem(addr) => ExternVal::Mem(addr),
        tinywasm_types::ExternVal::Global(addr) => ExternVal::Global(addr),
    }
}

/// The first of the first `n` exports that has the given name.
pub open spec fn find_export(exports: Seq<ExportView>, name: Seq<char>, n: nat) -> Option<
    ExportView,
>
    decreases n,
{
    if n == 0 {
        None
    } else {
        match find_export(exports, name, (n - 1) as nat) {
            Some(export) => Some(export),
            None => if exports[n - 1].name == name {
                Some(exports[n - 1])
            } else {
                None
            },
        }
    }
}

/// The values that an embedder supplied: none, if it supplied no imports.
pub open spec fn supplied(imports: Option<Imports>) -> Seq<ImportValueView> {
    match imports {
        Some(imports) => imports@,
        None => Seq::empty(),
    }
}

impl ModuleInstanceView {
    /// The addresses of the instance's items of one kind.
    pub open spec fn addrs_of(self, kind: ExternalKind) -> Seq<Addr> {
        match kind {
            ExternalKind::Func => self.func_addrs,
            ExternalKind::Table => self.table_addrs,
            ExternalKind::Memory => self.mem_addrs,
            ExternalKind::Global => self.global_addrs,
        }
    }

    /// The external value that the instance exports under a name: of the
    /// first export with that name, its kind together with the address in
    /// the store that its index stands for. `None` if there is no such
    /// export, or if its index is outside the instance's index space.
    pub open spec fn export(self, name: Seq<char>) -> Option<ExternVal> {
        match find_export(self.exports, name, self.exports.len()) {
            None => None,
            Some(export) => {
                if export.index < self.addrs_of(export.kind).len() {
                    Some(ExternVal::of(export.kind, self.addrs_of(export.kind)[export.index as int]))
                } else {
                    None
                }
            },
        }
    }

    /// The handle to the function at `addr` of `store`, found under `name`.
    pub open spec fn handle(self, store: StoreView, addr: FuncAddr, name: Option<Seq<char>>) -> Result<
        FuncHandleView,
        ErrorView,
    > {
        if addr < store.funcs.len() {
            Ok(FuncHandleView { module: self, addr, ty: store.funcs[addr as int].ty, name })
        } else {
            Err(ErrorView::Other("Function not found"@))
        }
    }

    /// The handle to the function that the instance exports under a name.
    ///
    /// Fails with `InvalidStore` if the instance does not belong to
    /// `store`; else if there is no export of that name; else if the export
    /// is no function; else if the store has no function at its address.
    pub open spec fn exported_func_by_name(self, store: StoreView, name: Seq<char>) -> Result<
        FuncHandleView,
        ErrorView,
    > {
        if self.store_id != store.id {
            Err(ErrorView::InvalidStore)
        } else {
            match self.export(name) {
                None => Err(ErrorView::Other("Export not found: "@ + name)),
                Some(ExternVal::Func(addr)) => self.handle(store, addr, Some(name)),
                Some(_) => Err(ErrorView::Other("Export is not a function: "@ + name)),
            }
        }
    }

    /// The handle to the start function of the instance, if it has one.
    ///
    /// The start function is the one that the module declares. If the
    /// module declares none, it is the function exported as `_start`, if
    /// that export exists and is a function; else there is none.
    ///
    /// Fails with `InvalidStore` if the instance does not belong to
    /// `store`; else if the declared index is outside the instance's
    /// functions; else if the store has no function at the address.
    pub open spec fn start_func(self, store: StoreView) -> Result<Option<FuncHandleView>, ErrorView> {
        if self.store_id != store.id {
            Err(ErrorView::InvalidStore)
        } else {
            match self.func_start {
                Some(index) => {
                    if index < self.func_addrs.len() {
                        match self.handle(store, self.func_addrs[index as int], None) {
                            Ok(handle) => Ok(Some(handle)),
                            Err(error) => Err(error),
                        }
                    } else {
                        Err(ErrorView::Other("Start function not found"@))
                    }
                },
                None => match self.export("_start"@) {
                    Some(ExternVal::Func(addr)) => match self.handle(store, addr, None) {
                        Ok(handle) => Ok(Some(handle)),
                        Err(error) => Err(error),
                    },
                    _ => Ok(None),
                },
            }
        }
    }
}

/// What happened while a module is being started.
#[derive(Debug)]
pub enum StartEvent {
    /// The embedder asks for the module to be started.
    Begin,
    /// The start function was run, and returned or failed.
    Ran(Result<(), Error>),
}

/// What happened while a module is being started, as plain data.
pub enum StartEventView {
    Begin,
    Ran(Result<(), ErrorView>),
}

impl View for StartEvent {
    type V = StartEventView;

    open spec fn view(&self) -> StartEventView {
        match self {
            StartEvent::Begin => StartEventView::Begin,
            StartEvent::Ran(Ok(())) => StartEventView::Ran(Ok(())),
            StartEvent::Ran(Err(error)) => StartEventView::Ran(Err(error@)),
        }
    }
}

/// What comes next in starting a module.
#[derive(Debug)]
pub enum StartStep {
    /// The embedder is to run this function without arguments, and to
    /// report with `StartEvent::Ran` how that went.
    Run(FuncHandle),
    /// Starting is over: with `Some` if the start function ran, with `None`
    /// if the module has none, or with the error.
    Done(Result<Option<()>, Error>),
}

/// What comes next in starting a module, as plain data.
pub enum StartStepView {
    Run(FuncHandleView),
    Done(Result<Option<()>, ErrorView>),
}

impl View for StartStep {
    type V = StartStepView;

    open spec fn view(&self) -> StartStepView {
        match self {
            StartStep::Run(handle) => StartStepView::Run(handle@),
            StartStep::Done(Ok(ran)) => StartStepView::Done(Ok(*ran)),
            StartStep::Done(Err(error)) => StartStepView::Done(Err(error@)),
        }
    }
}

impl ModuleInstanceView {
    /// The next step in starting the instance.
    ///
    /// At the beginning: if the instance has a start function that may be
    /// run, the step is to run it; if it has none, starting is over with
    /// `None`; if finding it fails or it may not be run, starting is over
    /// with that error. Once the start function has been run, starting is
    /// over: with `Some` if it returned, with its error if it failed.
    pub open spec fn start(self, store: StoreView, event: StartEventView) -> StartStepView {
        match event {
            StartEventView::Begin => match self.start_func(store) {
                Err(error) => StartStepView::Done(Err(error)),
                Ok(None) => StartStepView::Done(Ok(None)),
                Ok(Some(handle)) => match handle.invocable(store) {
                    Err(error) => StartStepView::Done(Err(error)),
                    Ok(()) => StartStepView::Run(handle),
                },
            },
            StartEventView::Ran(Ok(())) => StartStepView::Done(Ok(Some(()))),
            StartEventView::Ran(Err(error)) => StartStepView::Done(Err(error)),
        }
    }
}

/// The view of an optional function handle.
pub open spec fn optional_handle_view(result: Result<Option<FuncHandle>, Error>) -> Result<
    Option<FuncHandleView>,
    ErrorView,
> {
    match result {
        Ok(Some(handle)) => Ok(Some(handle@)),
        Ok(None) => Ok(None),
        Err(error) => Err(error@),
    }
}

impl StoreView {
    /// Instantiating a module: the store afterwards, and the instance or
    /// the error.
    ///
    /// The instance gets the next module instance index of the store. The
    /// imports are linked; then the module's functions, tables, memories
    /// and globals are allocated and its segments initialised. A failure
    /// at any of these steps ends the instantiation with its error; the
    /// index stays used, and so does what was allocated before the failure.
    pub open spec fn instantiate(self, module: ModuleView, values: Seq<ImportValueView>) -> (
        StoreView,
        Result<ModuleInstanceView, ErrorView>,
    ) {
        if self.next_instance >= u32::MAX {
            (self, Err(ErrorView::Other("Too many module instances"@)))
        } else {
            let indexed = self.next_module_instance_idx();
            match indexed.0.link(values, module.func_types, module.imports) {
                Err(error) => (indexed.0, Err(error)),
                Ok(resolved) => indexed.0.allocate(module, resolved, indexed.1),
            }
        }
    }

    /// Allocating what a module defines, behind what it imports: in each
    /// index space the imported items come first, then the defined ones.
    pub open spec fn allocate(
        self,
        module: ModuleView,
        resolved: ResolvedImportsView,
        idx: ModuleInstanceAddr,
    ) -> (StoreView, Result<ModuleInstanceView, ErrorView>) {
        let funcs = self.init_funcs(module.func_types, module.funcs, idx);
        match funcs.1 {
            Err(error) => (funcs.0, Err(error)),
            Ok(new_funcs) => {
                let tables = funcs.0.init_tables(module.table_types, idx);
                match tables.1 {
                    Err(error) => (tables.0, Err(error)),
                    Ok(new_tables) => {
                        let memories = tables.0.init_memories(module.memory_types, idx);
                        match memories.1 {
                            Err(error) => (memories.0, Err(error)),
                            Ok(new_memories) => memories.0.initialise(
                                module,
                                ResolvedImportsView {
                                    funcs: resolved.funcs + new_funcs,
                                    tables: resolved.tables + new_tables,
                                    memories: resolved.memories + new_memories,
                                    globals: resolved.globals,
                                },
                                idx,
                            ),
                        }
                    },
                }
            },
        }
    }

    /// Allocating the globals of a module and initialising its segments,
    /// then registering the instance. `addrs` holds the instance's functions,
    /// tables and memories, and the globals that it imports.
    ///
    /// The data segments are initialised even if an element segment
    /// trapped. After a trap the instance is registered all the same,
    /// marked as failed, and the result is the trap: that of the element
    /// segments, if both kinds trapped.
    pub open spec fn initialise(
        self,
        module: ModuleView,
        addrs: ResolvedImportsView,
        idx: ModuleInstanceAddr,
    ) -> (StoreView, Result<ModuleInstanceView, ErrorView>) {
        let globals = self.init_globals(addrs.globals, module.globals, addrs.funcs, idx);
        match globals.1 {
            Err(error) => (globals.0, Err(error)),
            Ok(global_addrs) => {
                let elements = globals.0.init_elements(
                    addrs.tables,
                    addrs.funcs,
                    global_addrs,
                    module.elements,
                    idx,
                );
                match elements.1 {
                    Err(error) => (elements.0, Err(error)),
                    Ok((elem_addrs, elem_trap)) => {
                        let datas = elements.0.init_datas(
                            addrs.memories,
                            global_addrs,
                            module.data,
                            idx,
                        );
                        match datas.1 {
                            Err(error) => (datas.0, Err(error)),
                            Ok((data_addrs, data_trap)) => {
                                let instance = ModuleInstanceView {
                                    failed_to_instantiate: elem_trap is Some || data_trap is Some,
                                    store_id: self.id,
                                    idx,
                                    types: module.func_types,
                                    func_addrs: addrs.funcs,
                                    table_addrs: addrs.tables,
                                    mem_addrs: addrs.memories,
                                    global_addrs,
                                    elem_addrs,
                                    data_addrs,
                                    func_start: module.start_func,
                                    imports: module.imports,
                                    exports: module.exports,
                                };
                                (
                                    datas.0.add_instance(instance),
                                    match elem_trap {
                                        Some(trap) => Err(ErrorView::Trap(trap)),
                                        None => match data_trap {
                                            Some(trap) => Err(ErrorView::Trap(trap)),
                                            None => Ok(instance),
                                        },
                                    },
                                )
                            },
                        }
                    },
                }
            },
        }
    }
}

impl ModuleInstance {
    /// A handle to a new instance.
    pub(crate) fn new(inner: ModuleInstanceInner) -> (instance: ModuleInstance)
        ensures
            instance@ == inner@,
    {
        ModuleInstance(Arc::new(inner))
    }

    /// Another handle to the same instance.
    pub fn share(&self) -> (instance: ModuleInstance)
        ensures
            instance == *self,
    {
        ModuleInstance(clone_handle(&self.0))
    }

    /// The address of the instance in its store.
    pub fn id(&self) -> (idx: ModuleInstanceAddr)
        ensures
            idx == self@.idx,
    {
        self.0.idx
    }

    /// The identity of the store that the instance belongs to.
    pub fn store_id(&self) -> (id: usize)
        ensures
            id == self@.store_id,
    {
        self.0.store_id
    }

    /// Whether initialising the instance's segments trapped.
    pub fn failed_to_instantiate(&self) -> (failed: bool)
        ensures
            failed == self@.failed_to_instantiate,
    {
        self.0.failed_to_instantiate
    }

    /// The function types of the module.
    pub fn func_tys(&self) -> (types: &Vec<FuncType>)
        ensures
            views(types@) == self@.types,
    {
        &self.0.types
    }

    /// The addresses of the instance's functions.
    pub fn func_addrs(&self) -> (addrs: &Vec<FuncAddr>)
        ensures
            addrs@ == self@.func_addrs,
    {
        &self.0.func_addrs
    }

    /// The addresses of the instance's tables.
    pub fn table_addrs(&self) -> (addrs: &Vec<TableAddr>)
        ensures
            addrs@ == self@.table_addrs,
    {
        &self.0.table_addrs
    }

    /// The addresses of the instance's memories.
    pub fn mem_addrs(&self) -> (addrs: &Vec<MemAddr>)
        ensures
            addrs@ == self@.mem_addrs,
    {
        &self.0.mem_addrs
    }

    /// The addresses of the instance's globals.
    pub fn global_addrs(&self) -> (addrs: &Vec<GlobalAddr>)
        ensures
            addrs@ == self@.global_addrs,
    {
        &self.0.global_addrs
    }

    /// The addresses of the instance's element segments.
    pub fn elem_addrs(&self) -> (addrs: &Vec<ElemAddr>)
        ensures
            addrs@ == self@.elem_addrs,
    {
        &self.0.elem_addrs
    }

    /// The addresses of the instance's data segments.
    pub fn data_addrs(&self) -> (addrs: &Vec<DataAddr>)
        ensures
            addrs@ == self@.data_addrs,
    {
        &self.0.data_addrs
    }

    /// Makes this handle refer to the instance of `other`.
    pub fn swap(&mut self, other: ModuleInstance)
        ensures
            *final(self) == other,
    {
        self.0 = other.0;
    }

    /// The function type at an index of the module's types.
    pub fn func_ty(&self, addr: FuncAddr) -> (ty: &FuncType)
        requires
            addr < self@.types.len(),
        ensures
            ty@ == self@.types[addr as int],
    {
        &self.0.types[addr as usize]
    }

    /// The address in the store of the function at an index of the
    /// instance.
    pub fn resolve_func_addr(&self, addr: FuncAddr) -> (resolved: FuncAddr)
        requires
            addr < self@.func_addrs.len(),
        ensures
            resolved == self@.func_addrs[addr as int],
    {
        self.0.func_addrs[addr as usize]
    }

    /// The address in the store of the table at an index of the instance.
    pub fn resolve_table_addr(&self, addr: TableAddr) -> (resolved: TableAddr)
        requires
            addr < self@.table_addrs.len(),
        ensures
            resolved == self@.table_addrs[addr as int],
    {
        self.0.table_addrs[addr as usize]
    }

    /// The address in the store of the memory at an index of the instance.
    pub fn resolve_mem_addr(&self, addr: MemAddr) -> (resolved: MemAddr)
        requires
            addr < self@.mem_addrs.len(),
        ensures
            resolved == self@.mem_addrs[addr as int],
    {
        self.0.mem_addrs[addr as usize]
    }

    /// The address in the store of the element segment at an index of the
    /// instance.
    pub fn resolve_elem_addr(&self, addr: ElemAddr) -> (resolved: ElemAddr)
        requires
            addr < self@.elem_addrs.len(),
        ensures
            resolved == self@.elem_addrs[addr as int],
    {
        self.0.elem_addrs[addr as usize]
    }

    /// The address in the store of the global at an index of the instance.
    pub fn resolve_global_addr(&self, addr: GlobalAddr) -> (resolved: GlobalAddr)
        requires
            addr < self@.global_addrs.len(),
        ensures
            resolved == self@.global_addrs[addr as int],
    {
        self.0.global_addrs[addr as usize]
    }

    /// The exports of the module.
    pub fn exports(&self) -> (exports: &Vec<Export>)
        ensures
            views(exports@) == self@.exports,
    {
        &self.0.exports
    }

    /// The imports of the module.
    pub fn imports(&self) -> (imports: &Vec<Import>)
        ensures
            views(imports@) == self@.imports,
    {
        &self.0.imports
    }

    /// The export of the given name, resolved to an address of the store.
    pub fn export(&self, name: &str) -> (value: Option<ExternVal>)
        ensures
            value == self@.export(name@),
    {
        let wanted = String::from_str(name);
        let exports = &self.0.exports;
        let mut i: usize = 0;
        while i < exports.len()
            invariant
                i <= exports.len(),
                wanted@ == name@,
                views(exports@) == self@.exports,
                find_export(self@.exports, name@, i as nat) is None,
            decreases exports.len() - i,
        {
            if exports[i].name == wanted {
                let export = &exports[i];
                proof {
                    lemma_found_stays(self@.exports, name@, (i + 1) as nat, self@.exports.len());
                }
                let index = export.index as usize;
                let addrs = match export.kind {
                    ExternalKind::Func => &self.0.func_addrs,
                    ExternalKind::Table => &self.0.table_addrs,
                    ExternalKind::Memory => &self.0.mem_addrs,
                    ExternalKind::Global => &self.0.global_addrs,
                };
                if index < addrs.len() {
                    return Some(extern_val(export.kind, addrs[index]));
                } else {
                    return None;
                }
            }
            i += 1;
        }
        None
    }

    /// The handle to the function at `addr` of `store`, found under `name`.
    fn handle(&self, store: &Store, addr: FuncAddr, name: Option<String>) -> (handle: Result<
        FuncHandle,
        Error,
    >)
        ensures
            result_view(handle) == self@.handle(
                store@,
                addr,
                match name {
                    Some(name) => Some(name@),
                    None => None,
                },
            ),
    {
        match store.get_func(addr) {
            Err(error) => Err(error),
            Ok(func) => Ok(FuncHandle { module: self.share(), addr, ty: func.ty.copy(), name }),
        }
    }

    /// The handle to the function exported under the given name.
    pub fn exported_func_by_name(&self, store: &Store, name: &str) -> (handle: Result<
        FuncHandle,
        Error,
    >)
        ensures
            result_view(handle) == self@.exported_func_by_name(store@, name@),
    {
        if self.0.store_id != store.id() {
            return Err(Error::InvalidStore);
        }
        match self.export(name) {
            None => Err(Error::Other(String::from_str("Export not found: ").concat(name))),
            Some(ExternVal::Func(addr)) => self.handle(store, addr, Some(String::from_str(name))),
            Some(_) => Err(
                Error::Other(String::from_str("Export is not a function: ").concat(name)),
            ),
        }
    }

    /// The handle to the function exported under the given name, marked
    /// with the parameter and result types that the caller expects.
    pub fn typed_func<P, R>(&self, store: &Store, name: &str) -> (handle: Result<
        FuncHandleTyped<P, R>,
        Error,
    >)
        ensures
            match self@.exported_func_by_name(store@, name@) {
                Ok(func) => handle matches Ok(typed) && typed.func@ == func,
                Err(error) => handle matches Err(e) && e@ == error,
            },
    {
        match self.exported_func_by_name(store, name) {
            Ok(func) => Ok(FuncHandleTyped { func, marker: PhantomData }),
            Err(error) => Err(error),
        }
    }

    /// The handle to the start function of the instance, if it has one.
    pub fn start_func(&self, store: &Store) -> (handle: Result<Option<FuncHandle>, Error>)
        ensures
            optional_handle_view(handle) == self@.start_func(store@),
    {
        if self.0.store_id != store.id() {
            return Err(Error::InvalidStore);
        }
        let addr = match self.0.func_start {
            Some(index) => {
                if (index as usize) < self.0.func_addrs.len() {
                    self.0.func_addrs[index as usize]
                } else {
                    return Err(Error::other("Start function not found"));
                }
            },
            None => {
                match self.export("_start") {
                    Some(ExternVal::Func(addr)) => addr,
                    _ => {
                        return Ok(None);
                    },
                }
            },
        };
        match self.handle(store, addr, None) {
            Ok(handle) => Ok(Some(handle)),
            Err(error) => Err(error),
        }
    }
}

impl ModuleInstance {
    /// Decides the next step in starting the module. The embedder begins
    /// with `StartEvent::Begin`, runs the function that a `Run` step hands
    /// it, and reports the outcome with `StartEvent::Ran`.
    pub fn start(&self, store: &Store, event: StartEvent) -> (step: StartStep)
        ensures
            step@ == self@.start(store@, event@),
    {
        match event {
            StartEvent::Begin => match self.start_func(store) {
                Err(error) => StartStep::Done(Err(error)),
                Ok(None) => StartStep::Done(Ok(None)),
                Ok(Some(handle)) => match handle.invocable(store) {
                    Err(error) => StartStep::Done(Err(error)),
                    Ok(()) => StartStep::Run(handle),
                },
            },
            StartEvent::Ran(Ok(())) => StartStep::Done(Ok(Some(()))),
            StartEvent::Ran(Err(error)) => StartStep::Done(Err(error)),
        }
    }
}

/// Once an export of the name is found, it stays the one that is found.
pub proof fn lemma_found_stays(exports: Seq<ExportView>, name: Seq<char>, n: nat, m: nat)
    requires
        n <= m,
        find_export(exports, name, n) is Some,
    ensures
        find_export(exports, name, m) == find_export(exports, name, n),
    decreases m,
{
    if n < m {
        lemma_found_stays(exports, name, n, (m - 1) as nat);
    }
}

impl ModuleInstance {
    /// Instantiates `module` in `store`, with the external values in
    /// `imports` for what the module imports; without imports, none are
    /// supplied.
    ///
    /// On success the instance is registered in the store and returned. If
    /// initialising an element or data segment traps, the instance is
    /// registered all the same, marked as failed, and the trap is returned.
    /// Every other failure ends the instantiation before the instance is
    /// registered.
    pub fn instantiate(store: &mut Store, module: Module, imports: Option<Imports>) -> (instance:
        Result<ModuleInstance, Error>)
        requires
            old(store).wf(),
        ensures
            final(store).wf(),
            (final(store)@, result_view(instance)) == old(store)@.instantiate(
                module@,
                supplied(imports),
            ),
            instance matches Ok(instance) ==> instance@.valid_in(final(store)@),
    {
        let ghost view = module@;
        let imports = match imports {
            Some(imports) => imports,
            None => Imports::new(),
        };
        if !store.has_free_instance_idx() {
            return Err(Error::other("Too many module instances"));
        }
        let idx = store.next_module_instance_idx();
        let resolved = match imports.link(store, &module) {
            Err(error) => {
                return Err(error);
            },
            Ok(resolved) => resolved,
        };
        let Module {
            func_types,
            funcs,
            table_types,
            memory_types,
            globals,
            elements,
            data,
            imports: declared,
            exports,
            start_func,
        } = module;
        let mut func_addrs = resolved.funcs;
        let mut table_addrs = resolved.tables;
        let mut mem_addrs = resolved.memories;

        let mut new_funcs = match store.init_funcs(&func_types, funcs, idx) {
            Err(error) => {
                return Err(error);
            },
            Ok(addrs) => addrs,
        };
        func_addrs.append(&mut new_funcs);

        let mut new_tables = match store.init_tables(&table_types, idx) {
            Err(error) => {
                return Err(error);
            },
            Ok(addrs) => addrs,
        };
        table_addrs.append(&mut new_tables);

        let mut new_mems = match store.init_memories(&memory_types, idx) {
            Err(error) => {
                return Err(error);
            },
            Ok(addrs) => addrs,
        };
        mem_addrs.append(&mut new_mems);

        let global_addrs = match store.init_globals(resolved.globals, &globals, &func_addrs, idx) {
            Err(error) => {
                return Err(error);
            },
            Ok(addrs) => addrs,
        };
        let ghost with_globals = store@;

        let (elem_addrs, elem_trap) = match store.init_elements(
            &table_addrs,
            &func_addrs,
            &global_addrs,
            &elements,
            idx,
        ) {
            Err(error) => {
                return Err(error);
            },
            Ok(done) => done,
        };
        proof {
            lemma_elements_shape(
                with_globals,
                view.elements,
                table_addrs@,
                func_addrs@,
                global_addrs@,
                idx,
                view.elements.len(),
            );
        }
        let ghost with_elements = store@;

        let (data_addrs, data_trap) = match store.init_datas(&mem_addrs, &global_addrs, data, idx) {
            Err(error) => {
                return Err(error);
            },
            Ok(done) => done,
        };
        proof {
            lemma_datas_shape(
                with_elements,
                view.data,
                mem_addrs@,
                global_addrs@,
                idx,
                view.data.len(),
            );
        }

        let instance = ModuleInstance::new(
            ModuleInstanceInner {
                failed_to_instantiate: elem_trap.is_some() || data_trap.is_some(),
                store_id: store.id(),
                idx,
                types: func_types,
                func_addrs,
                table_addrs,
                mem_addrs,
                global_addrs,
                elem_addrs,
                data_addrs,
                func_start: start_func,
                imports: declared,
                exports,
            },
        );
        store.add_instance(instance.share());

        if let Some(trap) = elem_trap {
            return Err(Error::Trap(trap));
        }
        if let Some(trap) = data_trap {
            return Err(Error::Trap(trap));
        }
        Ok(instance)
    }
}

} // verus!
