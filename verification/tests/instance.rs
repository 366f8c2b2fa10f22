use tinywasm::error::{Error, LinkError, Trap};
use tinywasm::func::FuncHandle;
use tinywasm::imports::{Imports, ResolvedImports};
use tinywasm::instance::{ModuleInstance, StartEvent, StartStep};
use tinywasm::instructions::Instruction;
use tinywasm::module::{
    ConstExpr, ConstOp, Data, DataKind, Element, ElementItem, ElementKind, FuncDecl, Global,
    GlobalType, Import, ImportKind, MemoryType, Module, TableType, WasmValue,
};
use tinywasm::store::Store;
use tinywasm::types::{Export, ExternVal, ExternalKind, FuncType, ValType};

fn expr(op: ConstOp) -> ConstExpr {
    ConstExpr { ops: vec![op, ConstOp::End] }
}

fn binary_i32() -> FuncType {
    FuncType { params: vec![ValType::I32, ValType::I32], results: vec![ValType::I32] }
}

fn nothing() -> FuncType {
    FuncType { params: vec![], results: vec![] }
}

fn export(name: &str, kind: ExternalKind, index: u32) -> Export {
    Export { name: name.to_string(), kind, index }
}

fn add_module() -> Module {
    let mut module = Module::empty();
    module.func_types = vec![binary_i32()];
    module.funcs = vec![FuncDecl {
        type_index: 0,
        locals: vec![],
        body: vec![
            Instruction::LocalGet(0),
            Instruction::LocalGet(1),
            Instruction::I32Add,
            Instruction::End,
        ],
    }];
    module.exports = vec![export("add", ExternalKind::Func, 0)];
    module
}

/// A module that defines and exports one item of each kind.
fn provider() -> Module {
    let mut module = Module::empty();
    module.func_types = vec![nothing(), binary_i32()];
    module.funcs = vec![
        FuncDecl { type_index: 1, locals: vec![], body: vec![Instruction::End] },
        FuncDecl { type_index: 0, locals: vec![], body: vec![Instruction::End] },
    ];
    module.table_types = vec![TableType {
        element_type: ValType::FuncRef,
        size_initial: 4,
        size_max: Some(8),
    }];
    module.memory_types = vec![MemoryType { page_count_initial: 1, page_count_max: Some(2) }];
    module.globals = vec![Global {
        ty: GlobalType { mutable: false, ty: ValType::I32 },
        init: expr(ConstOp::I32Const(3)),
    }];
    module.exports = vec![
        export("binary", ExternalKind::Func, 0),
        export("unit", ExternalKind::Func, 1),
        export("table", ExternalKind::Table, 0),
        export("memory", ExternalKind::Memory, 0),
        export("three", ExternalKind::Global, 0),
    ];
    module
}

fn import(name: &str, kind: ImportKind) -> Import {
    Import { module: "env".to_string(), name: name.to_string(), kind }
}

#[test]
fn empty_module_instantiates_to_an_empty_instance() {
    let mut store = Store::new(1);
    let skipped = store.next_module_instance_idx();
    assert_eq!(skipped, 0);
    let instance = ModuleInstance::instantiate(&mut store, Module::empty(), None).unwrap();
    assert_eq!(instance.id(), 1);
    assert!(instance.exports().is_empty());
    assert!(instance.func_tys().is_empty());
    assert_eq!(instance.export("anything"), None);
    assert!(!instance.failed_to_instantiate());
    match instance.start_func(&store) {
        Ok(None) => {}
        other => panic!("expected no start function, got {:?}", other),
    }
    assert_eq!(store.next_module_instance_idx(), 2);
}

#[test]
fn empty_imports_are_the_default() {
    let mut store = Store::new(1);
    let with_none = ModuleInstance::instantiate(&mut store, add_module(), None).unwrap();
    let with_empty =
        ModuleInstance::instantiate(&mut store, add_module(), Some(Imports::new())).unwrap();
    assert_eq!(with_none.func_addrs(), &vec![0]);
    assert_eq!(with_empty.func_addrs(), &vec![1]);
    assert_eq!(with_none.id() + 1, with_empty.id());
}

#[test]
fn exported_add_function_is_found_with_its_type() {
    let mut store = Store::new(3);
    let filler = store.add_host_func(nothing(), 0).unwrap();
    assert_eq!(filler, 0);
    let instance = ModuleInstance::instantiate(&mut store, add_module(), None).unwrap();
    assert_eq!(instance.export("add"), Some(ExternVal::Func(1)));
    let func = store.get_func(1).unwrap();
    assert_eq!(func.ty, binary_i32());
    let handle = instance.exported_func_by_name(&store, "add").unwrap();
    assert_eq!(handle.addr, 1);
    assert_eq!(handle.ty, binary_i32());
    assert_eq!(handle.name, Some("add".to_string()));
    assert_eq!(handle.module.id(), instance.id());
    assert_eq!(handle.invocable(&store), Ok(()));
}

#[test]
fn export_gives_the_kind_and_the_store_address() {
    let mut store = Store::new(0);
    store.add_host_func(nothing(), 0).unwrap();
    store
        .init_tables(&vec![TableType { element_type: ValType::FuncRef, size_initial: 0, size_max: None }; 2], 0)
        .unwrap();
    store.init_memories(&vec![MemoryType { page_count_initial: 0, page_count_max: None }; 3], 0).unwrap();
    let instance = ModuleInstance::instantiate(&mut store, provider(), None).unwrap();
    assert_eq!(instance.export("binary"), Some(ExternVal::Func(1)));
    assert_eq!(instance.export("unit"), Some(ExternVal::Func(2)));
    assert_eq!(instance.export("table"), Some(ExternVal::Table(2)));
    assert_eq!(instance.export("memory"), Some(ExternVal::Mem(3)));
    assert_eq!(instance.export("three"), Some(ExternVal::Global(0)));
    assert_eq!(instance.export("four"), None);
    assert_eq!(instance.export(""), None);
}

#[test]
fn every_export_resolves_through_the_address_list_of_its_kind() {
    let mut store = Store::new(0);
    store.add_host_func(nothing(), 0).unwrap();
    let instance = ModuleInstance::instantiate(&mut store, provider(), None).unwrap();
    for export in instance.exports() {
        let addrs = match export.kind {
            ExternalKind::Func => instance.func_addrs(),
            ExternalKind::Table => instance.table_addrs(),
            ExternalKind::Memory => instance.mem_addrs(),
            ExternalKind::Global => instance.global_addrs(),
        };
        let value = instance.export(&export.name).unwrap();
        assert_eq!(value.addr(), addrs[export.index as usize]);
        assert_eq!(value.kind(), export.kind);
    }
}

#[test]
fn export_with_an_index_outside_the_index_space_is_not_found() {
    let mut module = add_module();
    module.exports = vec![export("add", ExternalKind::Func, 1), export("t", ExternalKind::Table, 0)];
    let mut store = Store::new(0);
    let instance = ModuleInstance::instantiate(&mut store, module, None).unwrap();
    assert_eq!(instance.export("add"), None);
    assert_eq!(instance.export("t"), None);
}

#[test]
fn first_export_of_a_name_wins() {
    let mut module = provider();
    module.exports =
        vec![export("x", ExternalKind::Global, 0), export("x", ExternalKind::Func, 0)];
    let mut store = Store::new(0);
    let instance = ModuleInstance::instantiate(&mut store, module, None).unwrap();
    assert_eq!(instance.export("x"), Some(ExternVal::Global(0)));
}

#[test]
fn every_address_of_an_instance_is_in_the_store() {
    let mut store = Store::new(0);
    store.add_host_func(nothing(), 0).unwrap();
    let instance = ModuleInstance::instantiate(&mut store, provider(), None).unwrap();
    assert!(!instance.func_addrs().is_empty());
    for addr in instance.func_addrs() {
        assert!(store.get_func(*addr).is_ok());
    }
    for addr in instance.table_addrs() {
        assert!(store.get_table(*addr).is_some());
    }
    for addr in instance.mem_addrs() {
        assert!(store.get_mem(*addr).is_some());
    }
    for addr in instance.global_addrs() {
        assert!(store.get_global(*addr).is_some());
    }
}

#[test]
fn missing_export_and_wrong_kind_are_reported_by_name() {
    let mut store = Store::new(0);
    let instance = ModuleInstance::instantiate(&mut store, provider(), None).unwrap();
    match instance.exported_func_by_name(&store, "absent") {
        Err(error) => assert_eq!(error, Error::Other("Export not found: absent".to_string())),
        Ok(handle) => panic!("expected an error, got {:?}", handle),
    }
    match instance.exported_func_by_name(&store, "memory") {
        Err(error) => {
            assert_eq!(error, Error::Other("Export is not a function: memory".to_string()))
        }
        Ok(handle) => panic!("expected an error, got {:?}", handle),
    }
}

#[test]
fn handle_from_another_store_is_rejected() {
    let mut store_a = Store::new(1);
    let mut store_b = Store::new(2);
    let mut module = add_module();
    module.exports.push(export("f", ExternalKind::Func, 0));
    let instance = ModuleInstance::instantiate(&mut store_a, module, None).unwrap();
    ModuleInstance::instantiate(&mut store_b, add_module(), None).unwrap();
    match instance.exported_func_by_name(&store_b, "f") {
        Err(error) => assert_eq!(error, Error::InvalidStore),
        Ok(handle) => panic!("expected InvalidStore, got {:?}", handle),
    }
    match instance.start_func(&store_b) {
        Err(error) => assert_eq!(error, Error::InvalidStore),
        Ok(handle) => panic!("expected InvalidStore, got {:?}", handle),
    }
    match instance.typed_func::<(i32, i32), i32>(&store_b, "f") {
        Err(error) => assert_eq!(error, Error::InvalidStore),
        Ok(handle) => panic!("expected InvalidStore, got {:?}", handle),
    }
    let handle = instance.exported_func_by_name(&store_a, "f").unwrap();
    assert_eq!(handle.invocable(&store_b), Err(Error::InvalidStore));
    assert_eq!(handle.invocable(&store_a), Ok(()));
}

#[test]
fn typed_function_wraps_the_exported_function() {
    let mut store = Store::new(0);
    let instance = ModuleInstance::instantiate(&mut store, add_module(), None).unwrap();
    let typed = instance.typed_func::<(i32, i32), i32>(&store, "add").unwrap();
    assert_eq!(typed.func.addr, 0);
    assert_eq!(typed.func.ty, binary_i32());
    assert_eq!(typed.func.name, Some("add".to_string()));
    match instance.typed_func::<(), ()>(&store, "sub") {
        Err(error) => assert_eq!(error, Error::Other("Export not found: sub".to_string())),
        Ok(handle) => panic!("expected an error, got {:?}", handle),
    }
}

fn start_handle(instance: &ModuleInstance, store: &Store) -> Option<FuncHandle> {
    instance.start_func(store).unwrap()
}

#[test]
fn exported_start_function_is_the_fallback() {
    let mut module = Module::empty();
    module.func_types = vec![nothing()];
    module.funcs = vec![
        FuncDecl { type_index: 0, locals: vec![], body: vec![Instruction::End] },
        FuncDecl { type_index: 0, locals: vec![], body: vec![Instruction::Nop, Instruction::End] },
    ];
    module.exports = vec![export("_start", ExternalKind::Func, 1)];
    let mut store = Store::new(0);
    store.add_host_func(binary_i32(), 0).unwrap();
    store.add_host_func(binary_i32(), 1).unwrap();
    let instance = ModuleInstance::instantiate(&mut store, module, None).unwrap();
    let handle = start_handle(&instance, &store).unwrap();
    assert_eq!(handle.addr, 3);
    assert_eq!(handle.ty, nothing());
    assert_eq!(handle.name, None);
    assert_eq!(handle.invocable(&store), Ok(()));
}

#[test]
fn declared_start_function_takes_precedence() {
    let mut module = Module::empty();
    module.func_types = vec![nothing()];
    module.funcs = vec![
        FuncDecl { type_index: 0, locals: vec![], body: vec![Instruction::End] },
        FuncDecl { type_index: 0, locals: vec![], body: vec![Instruction::End] },
    ];
    module.exports = vec![export("_start", ExternalKind::Func, 1)];
    module.start_func = Some(0);
    let mut store = Store::new(0);
    store.add_host_func(binary_i32(), 0).unwrap();
    let instance = ModuleInstance::instantiate(&mut store, module, None).unwrap();
    assert_eq!(start_handle(&instance, &store).unwrap().addr, 1);
}

#[test]
fn exported_start_that_is_no_function_is_no_start_function() {
    let mut module = provider();
    module.exports = vec![export("_start", ExternalKind::Memory, 0)];
    let mut store = Store::new(0);
    let instance = ModuleInstance::instantiate(&mut store, module, None).unwrap();
    assert!(start_handle(&instance, &store).is_none());
}

#[test]
fn declared_start_function_outside_the_functions_is_an_error() {
    let mut module = add_module();
    module.start_func = Some(1);
    let mut store = Store::new(0);
    let instance = ModuleInstance::instantiate(&mut store, module, None).unwrap();
    match instance.start_func(&store) {
        Err(error) => assert_eq!(error, Error::Other("Start function not found".to_string())),
        Ok(handle) => panic!("expected an error, got {:?}", handle),
    }
}

fn module_with_data(offset: i32) -> Module {
    let mut module = Module::empty();
    module.func_types = vec![nothing()];
    module.funcs = vec![FuncDecl { type_index: 0, locals: vec![], body: vec![Instruction::End] }];
    module.memory_types = vec![MemoryType { page_count_initial: 1, page_count_max: None }];
    module.data = vec![Data {
        data: vec![1, 2, 3, 4, 5, 6, 7, 8, 9, 10],
        kind: DataKind::Active { mem: 0, offset: expr(ConstOp::I32Const(offset)) },
    }];
    module.exports =
        vec![export("mem", ExternalKind::Memory, 0), export("f", ExternalKind::Func, 0)];
    module
}

#[test]
fn data_segment_is_applied_at_instantiation() {
    let mut store = Store::new(0);
    let instance = ModuleInstance::instantiate(&mut store, module_with_data(65526), None).unwrap();
    assert_eq!(instance.data_addrs(), &vec![0]);
    let mem = store.get_mem(instance.mem_addrs()[0]).unwrap();
    assert_eq!(mem.data[65526..], [1, 2, 3, 4, 5, 6, 7, 8, 9, 10]);
}

#[test]
fn data_segment_trap_registers_a_failed_instance() {
    let mut store = Store::new(0);
    let result = ModuleInstance::instantiate(&mut store, module_with_data(65530), None);
    match result {
        Err(error) => assert_eq!(
            error,
            Error::Trap(Trap::MemoryOutOfBounds { offset: 65530, len: 10, max: 65536 })
        ),
        Ok(instance) => panic!("expected a trap, got {:?}", instance),
    }
    let instance = store.get_module_instance(0).unwrap().share();
    assert!(instance.failed_to_instantiate());
    assert_eq!(instance.id(), 0);
    assert_eq!(instance.export("mem"), Some(ExternVal::Mem(0)));
    assert_eq!(instance.export("f"), Some(ExternVal::Func(0)));
    assert!(instance.data_addrs().is_empty());
    let mem = store.get_mem(0).unwrap();
    assert_eq!(mem.data.len(), 65536);
    assert!(mem.data.iter().all(|byte| *byte == 0));
    let handle = instance.exported_func_by_name(&store, "f").unwrap();
    assert_eq!(handle.invocable(&store), Err(Error::Trap(Trap::FailedInstance)));
}

#[test]
fn element_trap_is_reported_before_a_data_trap_and_data_is_still_applied() {
    let mut module = module_with_data(65530);
    module.table_types =
        vec![TableType { element_type: ValType::FuncRef, size_initial: 1, size_max: None }];
    module.elements = vec![Element {
        kind: ElementKind::Active { table: 0, offset: expr(ConstOp::I32Const(1)) },
        items: vec![ElementItem::Func(0)],
        ty: ValType::FuncRef,
    }];
    module.data.insert(
        0,
        Data {
            data: vec![0xff],
            kind: DataKind::Active { mem: 0, offset: expr(ConstOp::I32Const(0)) },
        },
    );
    let mut store = Store::new(0);
    match ModuleInstance::instantiate(&mut store, module, None) {
        Err(error) => {
            assert_eq!(error, Error::Trap(Trap::TableOutOfBounds { offset: 1, len: 1, max: 1 }))
        }
        Ok(instance) => panic!("expected a trap, got {:?}", instance),
    }
    let instance = store.get_module_instance(0).unwrap();
    assert!(instance.failed_to_instantiate());
    assert!(instance.elem_addrs().is_empty());
    assert_eq!(instance.data_addrs(), &vec![0]);
    assert_eq!(store.get_mem(0).unwrap().data[0], 0xff);
}

#[test]
fn failure_before_the_segments_registers_nothing_but_uses_the_index() {
    let mut module = add_module();
    module.globals = vec![Global {
        ty: GlobalType { mutable: false, ty: ValType::I32 },
        init: expr(ConstOp::NonConstant),
    }];
    let mut store = Store::new(0);
    match ModuleInstance::instantiate(&mut store, module, None) {
        Err(error) => assert_eq!(error, Error::Linker(LinkError::InvalidConstExpr)),
        Ok(instance) => panic!("expected an error, got {:?}", instance),
    }
    assert!(store.get_module_instance(0).is_none());
    let next = ModuleInstance::instantiate(&mut store, add_module(), None).unwrap();
    assert_eq!(next.id(), 1);
    assert!(store.get_module_instance(1).is_some());
}

fn consumer() -> Module {
    let mut module = Module::empty();
    module.func_types = vec![binary_i32(), nothing()];
    module.imports = vec![
        import("three", ImportKind::Global(GlobalType { mutable: false, ty: ValType::I32 })),
        import("binary", ImportKind::Function(0)),
        import(
            "table",
            ImportKind::Table(TableType {
                element_type: ValType::FuncRef,
                size_initial: 2,
                size_max: Some(8),
            }),
        ),
        import("unit", ImportKind::Function(1)),
        import(
            "memory",
            ImportKind::Memory(MemoryType { page_count_initial: 1, page_count_max: None }),
        ),
    ];
    module.funcs = vec![FuncDecl { type_index: 1, locals: vec![], body: vec![Instruction::End] }];
    module.globals = vec![Global {
        ty: GlobalType { mutable: true, ty: ValType::I32 },
        init: expr(ConstOp::GlobalGet(0)),
    }];
    module.elements = vec![Element {
        kind: ElementKind::Active { table: 0, offset: expr(ConstOp::GlobalGet(0)) },
        items: vec![ElementItem::Func(2)],
        ty: ValType::FuncRef,
    }];
    module.exports = vec![
        export("imported", ExternalKind::Func, 1),
        export("own", ExternalKind::Func, 2),
        export("copy", ExternalKind::Global, 1),
    ];
    module
}

fn provided(store: &mut Store) -> (ModuleInstance, Imports) {
    store.add_host_func(nothing(), 0).unwrap();
    let provider = ModuleInstance::instantiate(store, provider(), None).unwrap();
    let mut imports = Imports::new();
    for name in ["binary", "unit", "table", "memory", "three"] {
        imports.define("env", name, provider.export(name).unwrap());
    }
    (provider, imports)
}

#[test]
fn imports_come_first_in_each_index_space() {
    let mut store = Store::new(0);
    let (provider, imports) = provided(&mut store);
    assert_eq!(provider.func_addrs(), &vec![1, 2]);
    let instance = ModuleInstance::instantiate(&mut store, consumer(), Some(imports)).unwrap();
    assert_eq!(instance.func_addrs(), &vec![1, 2, 3]);
    assert_eq!(instance.table_addrs(), &vec![0]);
    assert_eq!(instance.mem_addrs(), &vec![0]);
    assert_eq!(instance.global_addrs(), &vec![0, 1]);
    assert_eq!(instance.export("imported"), Some(ExternVal::Func(2)));
    assert_eq!(instance.export("own"), Some(ExternVal::Func(3)));
    assert_eq!(instance.export("copy"), Some(ExternVal::Global(1)));
    assert_eq!(store.get_global(1).unwrap().value, WasmValue::I32(3));
    assert_eq!(store.get_table(0).unwrap().elements, vec![None, None, None, Some(3)]);
    assert_eq!(instance.imports().len(), 5);
    assert_eq!(instance.resolve_func_addr(2), 3);
    assert_eq!(instance.resolve_table_addr(0), 0);
    assert_eq!(instance.resolve_mem_addr(0), 0);
    assert_eq!(instance.resolve_global_addr(1), 1);
    assert_eq!(instance.resolve_elem_addr(0), 0);
    assert_eq!(instance.func_ty(1), &nothing());
}

#[test]
fn link_lists_addresses_by_kind_in_import_order() {
    let mut store = Store::new(0);
    let (_, imports) = provided(&mut store);
    assert_eq!(
        imports.link(&store, &consumer()),
        Ok(ResolvedImports { funcs: vec![1, 2], tables: vec![0], memories: vec![0], globals: vec![0] })
    );
    assert_eq!(
        Imports::new().link(&store, &Module::empty()),
        Ok(ResolvedImports { funcs: vec![], tables: vec![], memories: vec![], globals: vec![] })
    );
}

fn link_error(imports: &Imports, store: &Store, module: &Module) -> LinkError {
    match imports.link(store, module) {
        Err(Error::Linker(error)) => error,
        other => panic!("expected a link error, got {:?}", other),
    }
}

fn named(name: &str) -> (String, String) {
    ("env".to_string(), name.to_string())
}

#[test]
fn missing_import_is_a_link_error() {
    let mut store = Store::new(0);
    let (provider, _) = provided(&mut store);
    let mut imports = Imports::new();
    imports.define("env", "three", provider.export("three").unwrap());
    imports.define("other", "binary", provider.export("binary").unwrap());
    let (module, name) = named("binary");
    assert_eq!(link_error(&imports, &store, &consumer()), LinkError::UnknownImport { module, name });
    match ModuleInstance::instantiate(&mut store, consumer(), None) {
        Err(error) => assert_eq!(
            error,
            Error::Linker(LinkError::UnknownImport {
                module: "env".to_string(),
                name: "three".to_string()
            })
        ),
        Ok(instance) => panic!("expected a link error, got {:?}", instance),
    }
}

#[test]
fn import_of_another_kind_is_a_link_error() {
    let mut store = Store::new(0);
    let (provider, mut imports) = provided(&mut store);
    imports.define("env", "binary", provider.export("memory").unwrap());
    let (module, name) = named("binary");
    assert_eq!(
        link_error(&imports, &store, &consumer()),
        LinkError::IncompatibleImportKind { module, name }
    );
}

#[test]
fn import_of_another_type_is_a_link_error() {
    let mut store = Store::new(0);
    let (provider, mut imports) = provided(&mut store);
    imports.define("env", "binary", provider.export("unit").unwrap());
    let (module, name) = named("binary");
    assert_eq!(
        link_error(&imports, &store, &consumer()),
        LinkError::IncompatibleImportType { module, name }
    );
}

#[test]
fn import_that_names_nothing_in_the_store_is_a_link_error() {
    let mut store = Store::new(0);
    let (_, mut imports) = provided(&mut store);
    imports.define("env", "three", ExternVal::Global(17));
    let (module, name) = named("three");
    assert_eq!(
        link_error(&imports, &store, &consumer()),
        LinkError::IncompatibleImportType { module, name }
    );
}

#[test]
fn later_definition_of_an_import_takes_precedence() {
    let mut store = Store::new(0);
    let (provider, mut imports) = provided(&mut store);
    imports.define("env", "unit", provider.export("binary").unwrap());
    imports.define("env", "unit", provider.export("unit").unwrap());
    assert!(imports.link(&store, &consumer()).is_ok());
    assert_eq!(imports.get(&"env".to_string(), &"unit".to_string()), Some(ExternVal::Func(2)));
    assert_eq!(imports.get(&"env".to_string(), &"none".to_string()), None);
}

fn single_import(kind: ImportKind, name: &str) -> Module {
    let mut module = Module::empty();
    module.func_types = vec![binary_i32()];
    module.imports = vec![import(name, kind)];
    module
}

fn links(store: &Store, imports: &Imports, kind: ImportKind, name: &str) -> bool {
    imports.link(store, &single_import(kind, name)).is_ok()
}

#[test]
fn table_and_memory_imports_match_by_limits() {
    let mut store = Store::new(0);
    let (_, imports) = provided(&mut store);
    let table = |size_initial, size_max| {
        ImportKind::Table(TableType { element_type: ValType::FuncRef, size_initial, size_max })
    };
    assert!(links(&store, &imports, table(4, Some(8)), "table"));
    assert!(links(&store, &imports, table(0, None), "table"));
    assert!(links(&store, &imports, table(4, Some(9)), "table"));
    assert!(!links(&store, &imports, table(5, None), "table"));
    assert!(!links(&store, &imports, table(4, Some(7)), "table"));
    assert!(!links(
        &store,
        &imports,
        ImportKind::Table(TableType {
            element_type: ValType::ExternRef,
            size_initial: 0,
            size_max: None
        }),
        "table"
    ));
    let memory = |page_count_initial, page_count_max| {
        ImportKind::Memory(MemoryType { page_count_initial, page_count_max })
    };
    assert!(links(&store, &imports, memory(1, Some(2)), "memory"));
    assert!(links(&store, &imports, memory(0, None), "memory"));
    assert!(!links(&store, &imports, memory(2, None), "memory"));
    assert!(!links(&store, &imports, memory(1, Some(1)), "memory"));
}

#[test]
fn import_without_a_maximum_does_not_match_a_declared_maximum() {
    let mut store = Store::new(0);
    let tables = store
        .init_tables(
            &vec![TableType { element_type: ValType::FuncRef, size_initial: 1, size_max: None }],
            0,
        )
        .unwrap();
    let mut imports = Imports::new();
    imports.define("env", "t", ExternVal::Table(tables[0]));
    let unbounded = ImportKind::Table(TableType {
        element_type: ValType::FuncRef,
        size_initial: 1,
        size_max: None,
    });
    let bounded = ImportKind::Table(TableType {
        element_type: ValType::FuncRef,
        size_initial: 1,
        size_max: Some(100),
    });
    assert!(links(&store, &imports, unbounded, "t"));
    assert!(!links(&store, &imports, bounded, "t"));
}

#[test]
fn global_and_function_imports_match_by_type() {
    let mut store = Store::new(0);
    let (_, imports) = provided(&mut store);
    let global = |mutable, ty| ImportKind::Global(GlobalType { mutable, ty });
    assert!(links(&store, &imports, global(false, ValType::I32), "three"));
    assert!(!links(&store, &imports, global(true, ValType::I32), "three"));
    assert!(!links(&store, &imports, global(false, ValType::I64), "three"));
    assert!(links(&store, &imports, ImportKind::Function(0), "binary"));
    assert!(!links(&store, &imports, ImportKind::Function(1), "binary"));
}

#[test]
fn host_function_can_be_imported() {
    let mut store = Store::new(0);
    let host = store.add_host_func(binary_i32(), 9).unwrap();
    let mut imports = Imports::new();
    imports.define("env", "binary", ExternVal::Func(host));
    let mut module = single_import(ImportKind::Function(0), "binary");
    module.exports = vec![export("host", ExternalKind::Func, 0)];
    let instance = ModuleInstance::instantiate(&mut store, module, Some(imports)).unwrap();
    assert_eq!(instance.func_addrs(), &vec![host]);
    let handle = instance.exported_func_by_name(&store, "host").unwrap();
    assert_eq!(handle.ty, binary_i32());
}

#[test]
fn same_module_in_two_stores_has_the_same_types_and_exports() {
    let mut store_a = Store::new(1);
    let mut store_b = Store::new(2);
    store_b.add_host_func(nothing(), 0).unwrap();
    let (_, imports_a) = provided(&mut store_a);
    let (_, imports_b) = provided(&mut store_b);
    let a = ModuleInstance::instantiate(&mut store_a, consumer(), Some(imports_a)).unwrap();
    let b = ModuleInstance::instantiate(&mut store_b, consumer(), Some(imports_b)).unwrap();
    assert_eq!(a.func_tys(), b.func_tys());
    assert_eq!(a.func_tys(), &vec![binary_i32(), nothing()]);
    let names = |instance: &ModuleInstance| -> Vec<String> {
        instance.exports().iter().map(|export| export.name.clone()).collect()
    };
    assert_eq!(names(&a), names(&b));
    assert_eq!(names(&a), vec!["imported", "own", "copy"]);
    assert_ne!(a.func_addrs(), b.func_addrs());
}

#[test]
fn shared_handle_is_the_same_instance_and_swap_replaces_it() {
    let mut store = Store::new(0);
    let first = ModuleInstance::instantiate(&mut store, add_module(), None).unwrap();
    let second = ModuleInstance::instantiate(&mut store, provider(), None).unwrap();
    let mut handle = first.share();
    assert_eq!(handle.id(), first.id());
    assert_eq!(handle.store_id(), 0);
    handle.swap(second.share());
    assert_eq!(handle.id(), second.id());
    assert_eq!(handle.func_addrs(), second.func_addrs());
    assert_eq!(first.id(), 0);
}

#[test]
fn registered_instances_are_found_by_index() {
    let mut store = Store::new(0);
    let first = ModuleInstance::instantiate(&mut store, add_module(), None).unwrap();
    let second = ModuleInstance::instantiate(&mut store, provider(), None).unwrap();
    assert_eq!(store.get_module_instance(first.id()).unwrap().func_addrs(), &vec![0]);
    assert_eq!(store.get_module_instance(second.id()).unwrap().func_addrs(), &vec![1, 2]);
    assert!(store.get_module_instance(2).is_none());
}

fn module_with_exported_start() -> Module {
    let mut module = Module::empty();
    module.func_types = vec![nothing()];
    module.funcs = vec![FuncDecl { type_index: 0, locals: vec![], body: vec![Instruction::End] }];
    module.exports = vec![export("_start", ExternalKind::Func, 0)];
    module
}

#[test]
fn start_of_a_module_without_start_function_is_over_with_none() {
    let mut store = Store::new(0);
    let instance = ModuleInstance::instantiate(&mut store, Module::empty(), None).unwrap();
    match instance.start(&store, StartEvent::Begin) {
        StartStep::Done(Ok(None)) => {}
        other => panic!("expected the end without a run, got {:?}", other),
    }
}

#[test]
fn start_runs_the_exported_start_function_and_ends_with_some() {
    let mut store = Store::new(0);
    store.add_host_func(nothing(), 0).unwrap();
    let instance =
        ModuleInstance::instantiate(&mut store, module_with_exported_start(), None).unwrap();
    match instance.start(&store, StartEvent::Begin) {
        StartStep::Run(handle) => {
            assert_eq!(handle.addr, 1);
            assert_eq!(handle.ty, nothing());
        }
        other => panic!("expected a function to run, got {:?}", other),
    }
    match instance.start(&store, StartEvent::Ran(Ok(()))) {
        StartStep::Done(Ok(Some(()))) => {}
        other => panic!("expected the end after a run, got {:?}", other),
    }
}

#[test]
fn start_passes_on_the_failure_of_the_start_function() {
    let mut store = Store::new(0);
    let instance =
        ModuleInstance::instantiate(&mut store, module_with_exported_start(), None).unwrap();
    let failure = Error::Other("stack exhausted".to_string());
    match instance.start(&store, StartEvent::Ran(Err(failure.clone()))) {
        StartStep::Done(Err(error)) => assert_eq!(error, failure),
        other => panic!("expected the failure, got {:?}", other),
    }
}

#[test]
fn start_of_a_failed_instance_traps() {
    let mut module = module_with_data(65530);
    module.start_func = Some(0);
    let mut store = Store::new(0);
    assert!(ModuleInstance::instantiate(&mut store, module, None).is_err());
    let instance = store.get_module_instance(0).unwrap().share();
    assert!(instance.start_func(&store).unwrap().is_some());
    match instance.start(&store, StartEvent::Begin) {
        StartStep::Done(Err(error)) => assert_eq!(error, Error::Trap(Trap::FailedInstance)),
        other => panic!("expected a trap, got {:?}", other),
    }
}

#[test]
fn start_in_another_store_is_rejected() {
    let mut store = Store::new(0);
    let other = Store::new(1);
    let instance =
        ModuleInstance::instantiate(&mut store, module_with_exported_start(), None).unwrap();
    match instance.start(&other, StartEvent::Begin) {
        StartStep::Done(Err(error)) => assert_eq!(error, Error::InvalidStore),
        step => panic!("expected InvalidStore, got {:?}", step),
    }
}

#[test]
fn function_that_refers_to_an_unknown_type_is_rejected() {
    let mut module = add_module();
    module.funcs[0].body.insert(0, Instruction::CallIndirect(1, 0));
    let mut store = Store::new(0);
    match ModuleInstance::instantiate(&mut store, module, None) {
        Err(error) => assert_eq!(error, Error::Other("Function type not found".to_string())),
        Ok(instance) => panic!("expected an error, got {:?}", instance),
    }
    assert!(store.get_func(0).is_err());
    let mut module = add_module();
    module.funcs[0].body.insert(0, Instruction::CallIndirect(0, 0));
    assert!(ModuleInstance::instantiate(&mut store, module, None).is_ok());
}

#[test]
fn instantiating_keeps_earlier_objects_at_their_addresses() {
    let mut store = Store::new(0);
    let first = ModuleInstance::instantiate(&mut store, provider(), None).unwrap();
    let func_before = store.get_func(1).unwrap().ty.clone();
    let global_before = store.get_global(0).unwrap();
    let table_size = store.get_table(0).unwrap().elements.len();
    let memory_size = store.get_mem(0).unwrap().data.len();
    ModuleInstance::instantiate(&mut store, module_with_data(0), None).unwrap();
    assert!(ModuleInstance::instantiate(&mut store, module_with_data(65530), None).is_err());
    assert_eq!(store.get_func(1).unwrap().ty, func_before);
    assert_eq!(store.get_global(0).unwrap().value, global_before.value);
    assert_eq!(store.get_table(0).unwrap().elements.len(), table_size);
    assert_eq!(store.get_mem(0).unwrap().data.len(), memory_size);
    assert_eq!(store.get_module_instance(0).unwrap().func_addrs(), first.func_addrs());
    assert_eq!(first.export("binary"), Some(ExternVal::Func(0)));
}
