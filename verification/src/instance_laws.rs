//! Laws of the store and of module instances, stated over their views.

use vstd::prelude::*;
use crate::conversion::ExportView;
use crate::error::ErrorView;
use crate::imports::{lemma_linked_valid, ImportValueView, ResolvedImportsView};
use crate::instance::{find_export, lemma_found_stays, ModuleInstanceView};
use crate::module::{DataView, ElementView, ImportView, ModuleView};
use crate::model::{
    addrs_below, lemma_datas_shape, lemma_elements_shape, types_in_range,
    StoreView,
};
use crate::types::{
    ExternVal, FuncAddr, FuncTypeView, GlobalAddr, MemAddr, ModuleInstanceAddr, TableAddr,
};

verus! {

/// In a well-formed store, every address that a registered instance holds
/// for a function, table, memory or global names an object of that kind in
/// the store.
pub proof fn lemma_instance_addresses_valid(store: StoreView, i: int)
    requires
        store.wf(),
        0 <= i < store.instances.len(),
    ensures
        addrs_below(store.instances[i].func_addrs, store.funcs.len()),
        addrs_below(store.instances[i].table_addrs, store.tables.len()),
        addrs_below(store.instances[i].mem_addrs, store.memories.len()),
        addrs_below(store.instances[i].global_addrs, store.globals.len()),
{
}

/// In a well-formed store, no two registered instances have the same
/// index, and every index in use was handed out before.
pub proof fn lemma_instance_indices_distinct(store: StoreView, i: int, j: int)
    requires
        store.wf(),
        0 <= i < j < store.instances.len(),
    ensures
        store.instances[i].idx != store.instances[j].idx,
        store.instances[i].idx < store.next_instance,
        store.instances[j].idx < store.next_instance,
{
}

/// No export before position `i` has the name of the export at `i`.
pub open spec fn first_of_its_name(exports: Seq<ExportView>, i: int) -> bool {
    forall|j: int| 0 <= j < i ==> (#[trigger] exports[j]).name != exports[i].name
}

/// If none of the first `n` exports has the name, none is found among
/// them.
proof fn lemma_not_found(exports: Seq<ExportView>, name: Seq<char>, n: nat)
    requires
        n <= exports.len(),
        forall|j: int| 0 <= j < n ==> (#[trigger] exports[j]).name != name,
    ensures
        find_export(exports, name, n) is None,
    decreases n,
{
    if n > 0 {
        lemma_not_found(exports, name, (n - 1) as nat);
    }
}

/// Looking up the name of an export gives that export's kind, with the
/// address that the instance holds at the export's index for that kind.
/// This holds of an export that is the first of its name and whose index
/// lies in the instance's index space.
pub proof fn lemma_export_resolves(instance: ModuleInstanceView, i: int)
    requires
        0 <= i < instance.exports.len(),
        first_of_its_name(instance.exports, i),
        instance.exports[i].index < instance.addrs_of(instance.exports[i].kind).len(),
    ensures
        instance.export(instance.exports[i].name) == Some(
            ExternVal::of(
                instance.exports[i].kind,
                instance.addrs_of(instance.exports[i].kind)[instance.exports[i].index as int],
            ),
        ),
        instance.export(instance.exports[i].name)->Some_0.spec_addr() == instance.addrs_of(
            instance.exports[i].kind,
        )[instance.exports[i].index as int],
        instance.export(instance.exports[i].name)->Some_0.spec_kind() == instance.exports[i].kind,
{
    let name = instance.exports[i].name;
    lemma_not_found(instance.exports, name, i as nat);
    lemma_found_stays(instance.exports, name, (i + 1) as nat, instance.exports.len());
}

/// Of two module instance indices handed out one after the other, the
/// second is the first plus one.
pub proof fn lemma_successive_indices(store: StoreView)
    requires
        store.next_instance + 1 < u32::MAX,
    ensures
        ({
            let first = store.next_module_instance_idx();
            let second = first.0.next_module_instance_idx();
            second.1 == first.1 + 1
        }),
{
}

/// What an instance has of its module and of its store: its index is the
/// one that the store handed out, it belongs to the store, and its types,
/// imports, exports and start function are the module's. An instance that
/// is returned did not fail.
pub proof fn lemma_instance_of_module(
    store: StoreView,
    module: ModuleView,
    values: Seq<ImportValueView>,
)
    ensures
        store.instantiate(module, values).1 matches Ok(instance) ==> {
            &&& instance.idx == store.next_instance
            &&& instance.store_id == store.id
            &&& instance.types == module.func_types
            &&& instance.imports == module.imports
            &&& instance.exports == module.exports
            &&& instance.func_start == module.start_func
            &&& !instance.failed_to_instantiate
        },
{
}

/// A module that was instantiated refers only to function types that it
/// has: the type index of each of its functions, and of each instruction in
/// their bodies that refers to a type, lies within the instance's types.
pub proof fn lemma_instance_types_cover(
    store: StoreView,
    module: ModuleView,
    values: Seq<ImportValueView>,
)
    ensures
        store.instantiate(module, values).1 matches Ok(instance) ==> types_in_range(
            instance.types,
            module.funcs,
        ),
{
}

/// Instantiating one module with the same imports in two stores gives
/// instances with the same function types and the same exports.
pub proof fn lemma_instances_agree(
    first: StoreView,
    second: StoreView,
    module: ModuleView,
    values: Seq<ImportValueView>,
)
    requires
        first.instantiate(module, values).1 is Ok,
        second.instantiate(module, values).1 is Ok,
    ensures
        first.instantiate(module, values).1->Ok_0.types == second.instantiate(
            module,
            values,
        ).1->Ok_0.types,
        first.instantiate(module, values).1->Ok_0.exports == second.instantiate(
            module,
            values,
        ).1->Ok_0.exports,
{
}

/// Instantiating a module, whether it succeeds or not, keeps every object
/// of the store at its address and leaves the store well-formed: an address
/// that was handed out stays valid and is not given to another object. An
/// instance that is returned is valid in the store as it is afterwards.
pub proof fn lemma_instantiate_keeps(
    store: StoreView,
    module: ModuleView,
    values: Seq<ImportValueView>,
)
    requires
        store.wf(),
    ensures
        store.instantiate(module, values).0.keeps(store),
        store.instantiate(module, values).0.wf(),
        store.instantiate(module, values).1 matches Ok(instance) ==> instance.valid_in(
            store.instantiate(module, values).0,
        ),
{
    if store.next_instance < u32::MAX {
        let indexed = store.next_module_instance_idx();
        let idx = indexed.1;
        lemma_linked_valid(
            indexed.0,
            values,
            module.func_types,
            module.imports,
            module.imports.len(),
        );
        match indexed.0.link(values, module.func_types, module.imports) {
            Err(_) => {},
            Ok(resolved) => {
                let funcs = indexed.0.init_funcs(module.func_types, module.funcs, idx);
                if let Ok(new_funcs) = funcs.1 {
                    let tables = funcs.0.init_tables(module.table_types, idx);
                    if let Ok(new_tables) = tables.1 {
                        let memories = tables.0.init_memories(module.memory_types, idx);
                        if let Ok(new_memories) = memories.1 {
                            let addrs = ResolvedImportsView {
                                funcs: resolved.funcs + new_funcs,
                                tables: resolved.tables + new_tables,
                                memories: resolved.memories + new_memories,
                                globals: resolved.globals,
                            };
                            let globals = memories.0.init_globals(
                                addrs.globals,
                                module.globals,
                                addrs.funcs,
                                idx,
                            );
                            if let Ok(global_addrs) = globals.1 {
                                lemma_elements_shape(
                                    globals.0,
                                    module.elements,
                                    addrs.tables,
                                    addrs.funcs,
                                    global_addrs,
                                    idx,
                                    module.elements.len(),
                                );
                                let elements = globals.0.init_elements(
                                    addrs.tables,
                                    addrs.funcs,
                                    global_addrs,
                                    module.elements,
                                    idx,
                                );
                                if let Ok((elem_addrs, elem_trap)) = elements.1 {
                                    lemma_datas_shape(
                                        elements.0,
                                        module.data,
                                        addrs.memories,
                                        global_addrs,
                                        idx,
                                        module.data.len(),
                                    );
                                }
                            }
                        }
                    }
                }
            },
        }
    }
}

/// Linking never fails with a trap.
pub proof fn lemma_link_no_trap(
    store: StoreView,
    values: Seq<ImportValueView>,
    types: Seq<FuncTypeView>,
    imports: Seq<ImportView>,
    n: nat,
)
    ensures
        !(store.link_upto(values, types, imports, n) matches Err(ErrorView::Trap(_))),
    decreases n,
{
    if n > 0 {
        lemma_link_no_trap(store, values, types, imports, (n - 1) as nat);
    }
}

/// Initialising element segments never fails with a trap: a trap is part
/// of its result.
pub proof fn lemma_elements_no_trap(
    store: StoreView,
    segments: Seq<ElementView>,
    tables: Seq<TableAddr>,
    funcs: Seq<FuncAddr>,
    globals: Seq<GlobalAddr>,
    owner: ModuleInstanceAddr,
    n: nat,
)
    ensures
        !(store.init_elements_upto(segments, tables, funcs, globals, owner, n).1 matches Err(
            ErrorView::Trap(_),
        )),
    decreases n,
{
    if n > 0 {
        lemma_elements_no_trap(store, segments, tables, funcs, globals, owner, (n - 1) as nat);
    }
}

/// Initialising data segments never fails with a trap: a trap is part of
/// its result.
pub proof fn lemma_datas_no_trap(
    store: StoreView,
    segments: Seq<DataView>,
    mems: Seq<MemAddr>,
    globals: Seq<GlobalAddr>,
    owner: ModuleInstanceAddr,
    n: nat,
)
    ensures
        !(store.init_datas_upto(segments, mems, globals, owner, n).1 matches Err(
            ErrorView::Trap(_),
        )),
    decreases n,
{
    if n > 0 {
        lemma_datas_no_trap(store, segments, mems, globals, owner, (n - 1) as nat);
    }
}

/// Whenever instantiation returns an instance or a trap, the instance is
/// the last one registered in the store. After a trap it is marked as
/// failed, and it has the index that the store handed out.
pub proof fn lemma_instance_registered(
    store: StoreView,
    module: ModuleView,
    values: Seq<ImportValueView>,
)
    ensures
        ({
            let done = store.instantiate(module, values);
            &&& done.1 matches Ok(instance) ==> done.0.instances.len() > 0
                && done.0.instances.last() == instance
            &&& done.1 matches Err(ErrorView::Trap(_)) ==> done.0.instances.len() > 0
                && done.0.instances.last().failed_to_instantiate
                && done.0.instances.last().idx == store.next_instance
        }),
{
    if store.next_instance < u32::MAX {
        let indexed = store.next_module_instance_idx();
        let idx = indexed.1;
        lemma_link_no_trap(indexed.0, values, module.func_types, module.imports, module.imports.len());
        match indexed.0.link(values, module.func_types, module.imports) {
            Err(_) => {},
            Ok(resolved) => {
                let funcs = indexed.0.init_funcs(module.func_types, module.funcs, idx);
                if let Ok(new_funcs) = funcs.1 {
                    let tables = funcs.0.init_tables(module.table_types, idx);
                    if let Ok(new_tables) = tables.1 {
                        let memories = tables.0.init_memories(module.memory_types, idx);
                        if let Ok(new_memories) = memories.1 {
                            let addrs = ResolvedImportsView {
                                funcs: resolved.funcs + new_funcs,
                                tables: resolved.tables + new_tables,
                                memories: resolved.memories + new_memories,
                                globals: resolved.globals,
                            };
                            let globals = memories.0.init_globals(
                                addrs.globals,
                                module.globals,
                                addrs.funcs,
                                idx,
                            );
                            if let Ok(global_addrs) = globals.1 {
                                lemma_elements_no_trap(
                                    globals.0,
                                    module.elements,
                                    addrs.tables,
                                    addrs.funcs,
                                    global_addrs,
                                    idx,
                                    module.elements.len(),
                                );
                                let elements = globals.0.init_elements(
                                    addrs.tables,
                                    addrs.funcs,
                                    global_addrs,
                                    module.elements,
                                    idx,
                                );
                                if let Ok((elem_addrs, elem_trap)) = elements.1 {
                                    lemma_datas_no_trap(
                                        elements.0,
                                        module.data,
                                        addrs.memories,
                                        global_addrs,
                                        idx,
                                        module.data.len(),
                                    );
                                }
                            }
                        }
                    }
                }
            },
        }
    }
}

} // verus!
