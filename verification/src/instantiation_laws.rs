//! Laws of instantiation: what the instance of a module without contents
//! is, where the items of an instance stand in the store, and what a data
//! segment that does not fit its memory leaves behind.

use vstd::prelude::*;
use crate::conversion::ExportView;
use crate::error::{ErrorView, Trap};
use crate::func::FuncHandleView;
use crate::imports::{ImportValueView, ResolvedImportsView};
use crate::instance::{ModuleInstanceView, StartEventView, StartStepView};
use crate::instance_laws::{
    first_of_its_name, lemma_datas_no_trap, lemma_elements_no_trap, lemma_export_resolves,
    lemma_link_no_trap,
};
use crate::model::{
    func_insts, lemma_datas_shape, lemma_elements_shape, mem_inst, memory_fits, new_addrs,
    types_in_range, unsigned, StoreView, PAGE_SIZE,
};
use crate::module::{ConstOp, DataKindView, DataView, MemoryType, ModuleView};
use crate::types::{Addr, ExternVal, ExternalKind};

verus! {

/// The instance of the module that declares nothing.
///
/// As long as a well-formed store has an instance index left, instantiating
/// the empty module succeeds, whatever values are supplied. The instance has the
/// index that the store handed out; it has no types, imports or exports, no
/// start function and no address of any kind. It is registered as the last
/// instance, and nothing else in the store changes: no object is
/// allocated. No name is exported, and starting the instance is over at
/// once, with `None`.
pub proof fn lemma_empty_module(store: StoreView, values: Seq<ImportValueView>)
    requires
        store.wf(),
        store.next_instance < u32::MAX,
    ensures
        ({
            let done = store.instantiate(ModuleView::empty(), values);
            &&& done.1 matches Ok(instance) && {
                &&& instance.idx == store.next_instance
                &&& instance.store_id == store.id
                &&& !instance.failed_to_instantiate
                &&& instance.types.len() == 0
                &&& instance.imports.len() == 0
                &&& instance.exports.len() == 0
                &&& instance.func_start is None
                &&& instance.func_addrs.len() == 0
                &&& instance.table_addrs.len() == 0
                &&& instance.mem_addrs.len() == 0
                &&& instance.global_addrs.len() == 0
                &&& instance.elem_addrs.len() == 0
                &&& instance.data_addrs.len() == 0
                &&& done.0.instances == store.instances.push(instance)
                &&& forall|name: Seq<char>| instance.export(name) is None
                &&& instance.start_func(done.0) matches Ok(None)
                &&& instance.start(done.0, StartEventView::Begin) == StartStepView::Done(Ok(None))
            }
            &&& done.0.id == store.id
            &&& done.0.next_instance == store.next_instance + 1
            &&& done.0.funcs == store.funcs
            &&& done.0.tables == store.tables
            &&& done.0.memories == store.memories
            &&& done.0.globals == store.globals
            &&& done.0.elements == store.elements
            &&& done.0.datas == store.datas
        }),
{
}

/// Whether the instantiation registered an instance: it returned the
/// instance, or it returned a trap.
pub open spec fn registered(result: Result<ModuleInstanceView, ErrorView>) -> bool {
    result is Ok || result matches Err(ErrorView::Trap(_))
}

/// Where the items of an instance stand.
///
/// Whenever an instantiation registers an instance, that instance is the
/// last one of the store. In each of its index spaces the imported items
/// come first, at the addresses that linking resolved them to and in the
/// order of the imports; the items that the module defines follow, at the
/// addresses that were free in the store before, in the order of their
/// declarations. The functions of the store are the ones it had, followed
/// by the functions that the module defines, each with its declared type
/// and owned by the instance.
pub proof fn lemma_index_spaces(store: StoreView, module: ModuleView, values: Seq<ImportValueView>)
    requires
        store.wf(),
    ensures
        ({
            let done = store.instantiate(module, values);
            let linked = store.next_module_instance_idx().0.link(
                values,
                module.func_types,
                module.imports,
            );
            registered(done.1) ==> {
                let instance = done.0.instances.last();
                &&& done.0.instances.len() == store.instances.len() + 1
                &&& done.0.id == store.id
                &&& done.0.next_instance == store.next_instance + 1
                &&& done.1 matches Ok(returned) ==> returned == instance
                &&& instance.failed_to_instantiate == (done.1 is Err)
                &&& instance.idx == store.next_instance
                &&& instance.store_id == store.id
                &&& instance.types == module.func_types
                &&& instance.exports == module.exports
                &&& instance.func_start == module.start_func
                &&& linked is Ok
                &&& instance.func_addrs == linked->Ok_0.funcs + new_addrs(
                    store.funcs.len(),
                    module.funcs.len(),
                )
                &&& instance.table_addrs == linked->Ok_0.tables + new_addrs(
                    store.tables.len(),
                    module.table_types.len(),
                )
                &&& instance.mem_addrs == linked->Ok_0.memories + new_addrs(
                    store.memories.len(),
                    module.memory_types.len(),
                )
                &&& instance.global_addrs == linked->Ok_0.globals + new_addrs(
                    store.globals.len(),
                    module.globals.len(),
                )
                &&& done.0.funcs == store.funcs + func_insts(
                    module.func_types,
                    module.funcs,
                    store.next_instance,
                )
                &&& done.0.tables.len() == store.tables.len() + module.table_types.len()
                &&& done.0.memories.len() == store.memories.len() + module.memory_types.len()
                &&& done.0.globals.len() == store.globals.len() + module.globals.len()
            }
        }),
{
    if store.next_instance < u32::MAX {
        let indexed = store.next_module_instance_idx();
        let idx = indexed.1;
        lemma_link_no_trap(
            indexed.0,
            values,
            module.func_types,
            module.imports,
            module.imports.len(),
        );
        match indexed.0.link(values, module.func_types, module.imports) {
            Err(_) => {},
            Ok(resolved) => {
                let funcs = indexed.0.init_funcs(module.func_types, module.funcs, idx);
                if let Ok(new_funcs) = funcs.1 {
                    let tables = funcs.0.init_tables(module.table_types, idx);
                    if let Ok(new_tables) = tables.1 {
                        let memories = tables.0.init_memories(module.memory_types, idx);
                        if let Ok(new_memories) = memories.1 {
                            let addrs = ResolvedImportsView {
                                funcs: resolved.funcs + new_funcs,
                                tables: resolved.tables + new_tables,
                                memories: resolved.memories + new_memories,
                                globals: resolved.globals,
                            };
                            let globals = memories.0.init_globals(
                                addrs.globals,
                                module.globals,
                                addrs.funcs,
                                idx,
                            );
                            if let Ok(global_addrs) = globals.1 {
                                lemma_elements_shape(
                                    globals.0,
                                    module.elements,
                                    addrs.tables,
                                    addrs.funcs,
                                    global_addrs,
                                    idx,
                                    module.elements.len(),
                                );
                                lemma_elements_no_trap(
                                    globals.0,
                                    module.elements,
                                    addrs.tables,
                                    addrs.funcs,
                                    global_addrs,
                                    idx,
                                    module.elements.len(),
                                );
                                let elements = globals.0.init_elements(
                                    addrs.tables,
                                    addrs.funcs,
                                    global_addrs,
                                    module.elements,
                                    idx,
                                );
                                if let Ok((elem_addrs, elem_trap)) = elements.1 {
                                    lemma_datas_shape(
                                        elements.0,
                                        module.data,
                                        addrs.memories,
                                        global_addrs,
                                        idx,
                                        module.data.len(),
                                    );
                                    lemma_datas_no_trap(
                                        elements.0,
                                        module.data,
                                        addrs.memories,
                                        global_addrs,
                                        idx,
                                        module.data.len(),
                                    );
                                }
                            }
                        }
                    }
                }
            },
        }
    }
}

/// An exported function that the module defines.
///
/// Take an export of a function that is the first export of its name, and
/// whose index lies beyond the imported functions, among the functions
/// that the module defines: it is the `k`-th of them when the index is
/// the number of imported functions plus `k`. Looking the name up in the
/// registered instance gives the function at the address that was the
/// `k`-th free one in the store before: the number of functions that the
/// store had, plus `k`. It is the address in the store, not the index in
/// the module. The function at that address has the type that the module
/// declares for it, and the handle found by the name carries that address
/// and that type.
pub proof fn lemma_exported_function(
    store: StoreView,
    module: ModuleView,
    values: Seq<ImportValueView>,
    i: int,
    k: int,
)
    requires
        store.wf(),
        registered(store.instantiate(module, values).1),
        0 <= i < module.exports.len(),
        first_of_its_name(module.exports, i),
        module.exports[i].kind == ExternalKind::Func,
        0 <= k < module.funcs.len(),
        module.exports[i].index == store.next_module_instance_idx().0.link(
            values,
            module.func_types,
            module.imports,
        )->Ok_0.funcs.len() + k,
    ensures
        ({
            let done = store.instantiate(module, values);
            let instance = done.0.instances.last();
            let name = module.exports[i].name;
            let addr = (store.funcs.len() + k) as Addr;
            let ty = module.func_types[module.funcs[k].type_index as int];
            &&& addr == store.funcs.len() + k
            &&& addr < done.0.funcs.len()
            &&& instance.export(name) == Some(ExternVal::Func(addr))
            &&& done.0.funcs[addr as int].ty == ty
            &&& instance.exported_func_by_name(done.0, name) == Ok::<FuncHandleView, ErrorView>(
                FuncHandleView { module: instance, addr, ty, name: Some(name) },
            )
        }),
{
    lemma_index_spaces(store, module, values);
    let done = store.instantiate(module, values);
    let instance = done.0.instances.last();
    lemma_export_resolves(instance, i);
}

/// An exported function of a module without imports: its index in the
/// module is its position among the defined functions, so that the export
/// of index `k` resolves to the address that is the number of functions in
/// the store before, plus `k`.
pub proof fn lemma_exported_function_without_imports(
    store: StoreView,
    module: ModuleView,
    values: Seq<ImportValueView>,
    i: int,
)
    requires
        store.wf(),
        module.imports.len() == 0,
        registered(store.instantiate(module, values).1),
        0 <= i < module.exports.len(),
        first_of_its_name(module.exports, i),
        module.exports[i].kind == ExternalKind::Func,
        module.exports[i].index < module.funcs.len(),
    ensures
        ({
            let done = store.instantiate(module, values);
            let instance = done.0.instances.last();
            let name = module.exports[i].name;
            let k = module.exports[i].index as int;
            let addr = (store.funcs.len() + k) as Addr;
            let ty = module.func_types[module.funcs[k].type_index as int];
            &&& addr == store.funcs.len() + k
            &&& instance.export(name) == Some(ExternVal::Func(addr))
            &&& done.0.funcs[addr as int].ty == ty
            &&& instance.exported_func_by_name(done.0, name) == Ok::<FuncHandleView, ErrorView>(
                FuncHandleView { module: instance, addr, ty, name: Some(name) },
            )
        }),
{
    lemma_exported_function(store, module, values, i, module.exports[i].index as int);
}

/// The module is made of function types, functions, exports and possibly a
/// start function, and of nothing else.
pub open spec fn only_functions(module: ModuleView) -> bool {
    &&& module.imports.len() == 0
    &&& module.table_types.len() == 0
    &&& module.memory_types.len() == 0
    &&& module.globals.len() == 0
    &&& module.elements.len() == 0
    &&& module.data.len() == 0
}

/// A module of functions alone instantiates.
///
/// Take a module that is made of functions alone, each of which refers
/// only to types that the module has. In a well-formed store that has
/// an instance index left and room for the functions, instantiating it
/// returns the instance, whatever values are supplied. The store gains the
/// functions and the instance, and nothing else.
pub proof fn lemma_module_of_functions(
    store: StoreView,
    module: ModuleView,
    values: Seq<ImportValueView>,
)
    requires
        store.wf(),
        store.next_instance < u32::MAX,
        store.funcs.len() + module.funcs.len() <= u32::MAX,
        only_functions(module),
        types_in_range(module.func_types, module.funcs),
    ensures
        ({
            let done = store.instantiate(module, values);
            &&& done.1 is Ok
            &&& done.0.funcs == store.funcs + func_insts(
                module.func_types,
                module.funcs,
                store.next_instance,
            )
            &&& done.0.instances == store.instances.push(done.1->Ok_0)
            &&& done.0.tables == store.tables
            &&& done.0.memories == store.memories
            &&& done.0.globals == store.globals
            &&& done.0.elements == store.elements
            &&& done.0.datas == store.datas
        }),
{
}

/// The module that declares one memory, one data segment and the given
/// exports, and nothing else.
pub open spec fn memory_module(ty: MemoryType, segment: DataView, exports: Seq<ExportView>) -> ModuleView {
    ModuleView { memory_types: seq![ty], data: seq![segment], exports, ..ModuleView::empty() }
}

/// The active data segment that writes `bytes` into memory 0 from the
/// constant `offset` on.
pub open spec fn segment_at(offset: i32, bytes: Seq<u8>) -> DataView {
    DataView {
        data: bytes,
        kind: DataKindView::Active { mem: 0, offset: seq![ConstOp::I32Const(offset), ConstOp::End] },
    }
}

/// A data segment that does not fit its memory.
///
/// Take a module of one memory and one active data segment for it, at a
/// constant offset, whose bytes reach beyond the end of the memory. In a
/// well-formed store that has room for the instance and the memory,
/// instantiating it returns the trap for a write out of the bounds of the
/// memory, with the offset, the length of the segment and the size of the
/// memory. The instance is registered all the same, as the last one: it
/// has the index that the store handed out, it is marked as failed, its
/// only memory is the new one, and it has no data segment. The new memory
/// has its initial size and is all zero: nothing of the segment is
/// written. Every older memory, and every other object of the store, is as
/// it was. An export of memory 0 still resolves, to the address of the new
/// memory.
pub proof fn lemma_data_segment_out_of_bounds(
    store: StoreView,
    ty: MemoryType,
    offset: i32,
    bytes: Seq<u8>,
    exports: Seq<ExportView>,
    values: Seq<ImportValueView>,
)
    requires
        store.wf(),
        store.next_instance < u32::MAX,
        store.memories.len() < u32::MAX,
        store.datas.len() < u32::MAX,
        memory_fits(ty),
        unsigned(offset) + bytes.len() > ty.page_count_initial * PAGE_SIZE,
    ensures
        ({
            let module = memory_module(ty, segment_at(offset, bytes), exports);
            let done = store.instantiate(module, values);
            let instance = done.0.instances.last();
            let size = ty.page_count_initial * PAGE_SIZE;
            &&& done.1 == Err::<ModuleInstanceView, ErrorView>(
                ErrorView::Trap(
                    Trap::MemoryOutOfBounds {
                        offset: unsigned(offset) as u64,
                        len: bytes.len() as u64,
                        max: size as u64,
                    },
                ),
            )
            &&& done.0.instances == store.instances.push(instance)
            &&& instance.idx == store.next_instance
            &&& instance.failed_to_instantiate
            &&& instance.mem_addrs == seq![store.memories.len() as Addr]
            &&& instance.data_addrs.len() == 0
            &&& instance.exports == exports
            &&& done.0.memories == store.memories.push(mem_inst(ty, store.next_instance))
            &&& done.0.memories.last().data.len() == size
            &&& forall|j: int| 0 <= j < size ==> #[trigger] done.0.memories.last().data[j] == 0
            &&& done.0.funcs == store.funcs
            &&& done.0.tables == store.tables
            &&& done.0.globals == store.globals
            &&& done.0.elements == store.elements
            &&& done.0.datas == store.datas
            &&& forall|i: int|
                0 <= i < exports.len() && first_of_its_name(exports, i) && (#[trigger] exports[i])
                    == (ExportView { name: exports[i].name, kind: ExternalKind::Memory, index: 0 })
                    ==> instance.export(exports[i].name) == Some(
                    ExternVal::Mem(store.memories.len() as Addr),
                )
        }),
{
    let segment = segment_at(offset, bytes);
    let module = memory_module(ty, segment, exports);
    let indexed = store.next_module_instance_idx();
    let idx = indexed.1;
    let resolved = ResolvedImportsView::empty();
    let funcs = indexed.0.init_funcs(module.func_types, module.funcs, idx);
    let tables = funcs.0.init_tables(module.table_types, idx);
    let memories = tables.0.init_memories(module.memory_types, idx);
    let mem_addr = store.memories.len() as Addr;
    let addrs = ResolvedImportsView {
        funcs: resolved.funcs + funcs.1->Ok_0,
        tables: resolved.tables + tables.1->Ok_0,
        memories: resolved.memories + memories.1->Ok_0,
        globals: resolved.globals,
    };
    let globals = memories.0.init_globals(addrs.globals, module.globals, addrs.funcs, idx);
    let global_addrs = globals.1->Ok_0;
    let elements = globals.0.init_elements(
        addrs.tables,
        addrs.funcs,
        global_addrs,
        module.elements,
        idx,
    );
    let before = elements.0.init_datas_upto(module.data, addrs.memories, global_addrs, idx, 0);
    let done = store.instantiate(module, values);
    let instance = done.0.instances.last();
    assert forall|i: int|
        0 <= i < exports.len() && first_of_its_name(exports, i) && (#[trigger] exports[i])
            == (ExportView { name: exports[i].name, kind: ExternalKind::Memory, index: 0 })
            implies instance.export(exports[i].name) == Some(ExternVal::Mem(mem_addr)) by {
        lemma_export_resolves(instance, i);
    }
}

} // verus!
