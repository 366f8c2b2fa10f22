//! Imports: the external values that an embedder supplies to a module, and
//! the linking that matches them against what the module declares.

use vstd::prelude::*;
use vstd::string::StringExecFns;
use crate::conversion::result_view;
use crate::error::{Error, ErrorView, LinkError, LinkErrorView};
use crate::module::{views, GlobalType, ImportKind, ImportView, MemoryType, Module, TableType};
use crate::model::{addrs_below, StoreView, PAGE_SIZE};
use crate::store::Store;
use crate::types::{
    ExternVal, ExternalKind, FuncAddr, FuncTypeView, GlobalAddr, MemAddr, TableAddr,
};

verus! {

/// An external value supplied under a module name and a field name. The
/// value names an object that is already in the store.
#[derive(Clone, Debug, PartialEq, Eq)]
pub struct ImportValue {
    pub module: String,
    pub name: String,
    pub value: ExternVal,
}

/// A supplied external value, as plain data.
pub struct ImportValueView {
    pub module: Seq<char>,
    pub name: Seq<char>,
    pub value: ExternVal,
}

impl View for ImportValue {
    type V = ImportValueView;

    open spec fn view(&self) -> ImportValueView {
        ImportValueView { module: self.module@, name: self.name@, value: self.value }
    }
}

/// The external values supplied to a module, in the order in which they
/// were defined.
#[derive(Clone, Debug)]
pub struct Imports {
    values: Vec<ImportValue>,
}

impl View for Imports {
    type V = Seq<ImportValueView>;

    closed spec fn view(&self) -> Seq<ImportValueView> {
        views(self.values@)
    }
}

/// The addresses that linking resolved the imports of a module to, by
/// kind, each list in the order of the imports.
#[derive(Clone, Debug, PartialEq, Eq)]
pub struct ResolvedImports {
    pub funcs: Vec<FuncAddr>,
    pub tables: Vec<TableAddr>,
    pub memories: Vec<MemAddr>,
    pub globals: Vec<GlobalAddr>,
}

/// The addresses of the imports of a module by kind, as sequences.
pub struct ResolvedImportsView {
    pub funcs: Seq<FuncAddr>,
    pub tables: Seq<TableAddr>,
    pub memories: Seq<MemAddr>,
    pub globals: Seq<GlobalAddr>,
}

impl View for ResolvedImports {
    type V = ResolvedImportsView;

    open spec fn view(&self) -> ResolvedImportsView {
        ResolvedImportsView {
            funcs: self.funcs@,
            tables: self.tables@,
            memories: self.memories@,
            globals: self.globals@,
        }
    }
}

impl ResolvedImportsView {
    /// No address of any kind.
    pub open spec fn empty() -> ResolvedImportsView {
        ResolvedImportsView {
            funcs: Seq::empty(),
            tables: Seq::empty(),
            memories: Seq::empty(),
            globals: Seq::empty(),
        }
    }

    /// These addresses and then the address of `value`, in the list of its
    /// kind.
    pub open spec fn with(self, value: ExternVal) -> ResolvedImportsView {
        match value {
            ExternVal::Func(addr) => ResolvedImportsView { funcs: self.funcs.push(addr), ..self },
            ExternVal::Table(addr) => ResolvedImportsView {
                tables: self.tables.push(addr),
                ..self
            },
            ExternVal::Mem(addr) => ResolvedImportsView {
                memories: self.memories.push(addr),
                ..self
            },
            ExternVal::Global(addr) => ResolvedImportsView {
                globals: self.globals.push(addr),
                ..self
            },
        }
    }

    /// Every address names an object of the store.
    pub open spec fn valid_in(self, store: StoreView) -> bool {
        &&& addrs_below(self.funcs, store.funcs.len())
        &&& addrs_below(self.tables, store.tables.len())
        &&& addrs_below(self.memories, store.memories.len())
        &&& addrs_below(self.globals, store.globals.len())
    }
}

/// The value supplied under the given names among the first `n` values: the
/// one defined last, if there are several.
pub open spec fn lookup(values: Seq<ImportValueView>, module: Seq<char>, name: Seq<char>, n: nat) -> Option<
    ExternVal,
>
    decreases n,
{
    if n == 0 {
        None
    } else if values[n - 1].module == module && values[n - 1].name == name {
        Some(values[n - 1].value)
    } else {
        lookup(values, module, name, (n - 1) as nat)
    }
}

/// The kind of external value that an import asks for.
pub open spec fn kind_of(kind: ImportKind) -> ExternalKind {
    match kind {
        ImportKind::Function(_) => ExternalKind::Func,
        ImportKind::Table(_) => ExternalKind::Table,
        ImportKind::Memory(_) => ExternalKind::Memory,
        ImportKind::Global(_) => ExternalKind::Global,
    }
}

/// Whether actual size limits satisfy declared ones: at least the declared
/// minimum, and, where a maximum is declared, a maximum that is no larger.
pub open spec fn limits_match(
    actual_min: nat,
    actual_max: Option<nat>,
    min: nat,
    max: Option<nat>,
) -> bool {
    actual_min >= min && (max matches Some(max) ==> actual_max matches Some(actual) && actual
        <= max)
}

/// An optional maximum as a natural number.
pub open spec fn max_u32(max: Option<u32>) -> Option<nat> {
    match max {
        Some(max) => Some(max as nat),
        None => None,
    }
}

/// An optional maximum as a natural number.
pub open spec fn max_u64(max: Option<u64>) -> Option<nat> {
    match max {
        Some(max) => Some(max as nat),
        None => None,
    }
}

impl StoreView {
    /// Whether the object that `value` names is in the store and has the
    /// type that the import declares. A function has the declared function
    /// type, a global the declared global type. A table has the declared
    /// element type, and its current size and its maximum satisfy the
    /// declared limits; a memory likewise, in pages.
    pub open spec fn import_matches(
        self,
        types: Seq<FuncTypeView>,
        kind: ImportKind,
        value: ExternVal,
    ) -> bool {
        match (kind, value) {
            (ImportKind::Function(ty), ExternVal::Func(addr)) => {
                &&& addr < self.funcs.len()
                &&& ty < types.len()
                &&& self.funcs[addr as int].ty == types[ty as int]
            },
            (ImportKind::Table(ty), ExternVal::Table(addr)) => {
                &&& addr < self.tables.len()
                &&& self.tables[addr as int].kind.element_type == ty.element_type
                &&& limits_match(
                    self.tables[addr as int].elements.len(),
                    max_u32(self.tables[addr as int].kind.size_max),
                    ty.size_initial as nat,
                    max_u32(ty.size_max),
                )
            },
            (ImportKind::Memory(ty), ExternVal::Mem(addr)) => {
                &&& addr < self.memories.len()
                &&& limits_match(
                    self.memories[addr as int].data.len() / (PAGE_SIZE as nat),
                    max_u64(self.memories[addr as int].kind.page_count_max),
                    ty.page_count_initial as nat,
                    max_u64(ty.page_count_max),
                )
            },
            (ImportKind::Global(ty), ExternVal::Global(addr)) => {
                &&& addr < self.globals.len()
                &&& self.globals[addr as int].ty == ty
            },
            _ => false,
        }
    }

    /// Linking one import, given the addresses that the imports before it
    /// were resolved to.
    ///
    /// Fails if no value is supplied under the import's names, if the value
    /// is of another kind than declared, or if the object that it names is
    /// not in the store or does not have the declared type.
    pub open spec fn link_one(
        self,
        values: Seq<ImportValueView>,
        types: Seq<FuncTypeView>,
        import: ImportView,
        resolved: ResolvedImportsView,
    ) -> Result<ResolvedImportsView, ErrorView> {
        match lookup(values, import.module, import.name, values.len()) {
            None => Err(
                ErrorView::Linker(
                    LinkErrorView::UnknownImport { module: import.module, name: import.name },
                ),
            ),
            Some(value) => {
                if value.spec_kind() != kind_of(import.kind) {
                    Err(
                        ErrorView::Linker(
                            LinkErrorView::IncompatibleImportKind {
                                module: import.module,
                                name: import.name,
                            },
                        ),
                    )
                } else if !self.import_matches(types, import.kind, value) {
                    Err(
                        ErrorView::Linker(
                            LinkErrorView::IncompatibleImportType {
                                module: import.module,
                                name: import.name,
                            },
                        ),
                    )
                } else {
                    Ok(resolved.with(value))
                }
            },
        }
    }

    /// Linking the first `n` imports of a module, in the order in which
    /// the module declares them. The first import that cannot be linked
    /// decides the error.
    pub open spec fn link_upto(
        self,
        values: Seq<ImportValueView>,
        types: Seq<FuncTypeView>,
        imports: Seq<ImportView>,
        n: nat,
    ) -> Result<ResolvedImportsView, ErrorView>
        decreases n,
    {
        if n == 0 {
            Ok(ResolvedImportsView::empty())
        } else {
            match self.link_upto(values, types, imports, (n - 1) as nat) {
                Err(error) => Err(error),
                Ok(resolved) => self.link_one(values, types, imports[n - 1], resolved),
            }
        }
    }

    /// Linking the imports of a module.
    pub open spec fn link(
        self,
        values: Seq<ImportValueView>,
        types: Seq<FuncTypeView>,
        imports: Seq<ImportView>,
    ) -> Result<ResolvedImportsView, ErrorView> {
        self.link_upto(values, types, imports, imports.len())
    }
}

/// Once linking has failed, going on changes nothing.
pub proof fn lemma_link_error_stays(
    store: StoreView,
    values: Seq<ImportValueView>,
    types: Seq<FuncTypeView>,
    imports: Seq<ImportView>,
    n: nat,
    m: nat,
)
    requires
        n <= m,
        store.link_upto(values, types, imports, n) is Err,
    ensures
        store.link_upto(values, types, imports, m) == store.link_upto(values, types, imports, n),
    decreases m,
{
    if n < m {
        lemma_link_error_stays(store, values, types, imports, n, (m - 1) as nat);
    }
}

/// The addresses that linking resolves imports to name objects of the
/// store.
pub proof fn lemma_linked_valid(
    store: StoreView,
    values: Seq<ImportValueView>,
    types: Seq<FuncTypeView>,
    imports: Seq<ImportView>,
    n: nat,
)
    ensures
        store.link_upto(values, types, imports, n) matches Ok(resolved) ==> resolved.valid_in(
            store,
        ),
    decreases n,
{
    if n > 0 {
        lemma_linked_valid(store, values, types, imports, (n - 1) as nat);
    }
}

impl Imports {
    /// No values.
    pub fn new() -> (imports: Imports)
        ensures
            imports@ == Seq::<ImportValueView>::empty(),
    {
        let imports = Imports { values: Vec::new() };
        imports
    }

    /// Supplies `value` under the given names. It takes precedence over a
    /// value supplied under the same names before.
    pub fn define(&mut self, module: &str, name: &str, value: ExternVal)
        ensures
            final(self)@ == old(self)@.push(
                ImportValueView { module: module@, name: name@, value },
            ),
    {
        let entry = ImportValue {
            module: String::from_str(module),
            name: String::from_str(name),
            value,
        };
        self.values.push(entry);
    }

    /// The value supplied under the given names, if there is one.
    pub fn get(&self, module: &String, name: &String) -> (value: Option<ExternVal>)
        ensures
            value == lookup(self@, module@, name@, self@.len()),
    {
        let mut i: usize = self.values.len();
        while i > 0
            invariant
                i <= self.values.len(),
                lookup(self@, module@, name@, self@.len()) == lookup(
                    self@,
                    module@,
                    name@,
                    i as nat,
                ),
            decreases i,
        {
            i -= 1;
            if self.values[i].module == *module && self.values[i].name == *name {
                return Some(self.values[i].value);
            }
        }
        None
    }

    /// Links the imports that `module` declares against the values
    /// supplied here and the objects in `store`. Gives the addresses of
    /// the imported objects by kind, each list in the order of the imports.
    pub fn link(&self, store: &Store, module: &Module) -> (resolved: Result<ResolvedImports, Error>)
        ensures
            result_view(resolved) == store@.link(self@, module@.func_types, module@.imports),
            resolved matches Ok(resolved) ==> resolved@.valid_in(store@),
    {
        let ghost types = module@.func_types;
        let ghost imports = module@.imports;
        let mut resolved = ResolvedImports {
            funcs: Vec::new(),
            tables: Vec::new(),
            memories: Vec::new(),
            globals: Vec::new(),
        };
        let mut i: usize = 0;
        while i < module.imports.len()
            invariant
                i <= module.imports.len(),
                types == module@.func_types,
                imports == module@.imports,
                store@.link_upto(self@, types, imports, i as nat) == Ok::<
                    ResolvedImportsView,
                    ErrorView,
                >(resolved@),
            decreases module.imports.len() - i,
        {
            let import = &module.imports[i];
            let found = self.get(&import.module, &import.name);
            let value = match found {
                None => {
                    let error = Error::Linker(
                        LinkError::UnknownImport {
                            module: import.module.clone(),
                            name: import.name.clone(),
                        },
                    );
                    proof {
                        lemma_link_error_stays(
                            store@,
                            self@,
                            types,
                            imports,
                            (i + 1) as nat,
                            imports.len(),
                        );
                    }
                    return Err(error);
                },
                Some(value) => value,
            };
            let matches = match (&import.kind, value) {
                (ImportKind::Function(_), ExternVal::Func(addr)) => Some(
                    function_matches(store, module, &import.kind, addr),
                ),
                (ImportKind::Table(ty), ExternVal::Table(addr)) => Some(
                    table_matches(store, module, ty, addr),
                ),
                (ImportKind::Memory(ty), ExternVal::Mem(addr)) => Some(
                    memory_matches(store, module, ty, addr),
                ),
                (ImportKind::Global(ty), ExternVal::Global(addr)) => Some(
                    global_matches(store, module, ty, addr),
                ),
                _ => None,
            };
            match matches {
                None => {
                    let error = Error::Linker(
                        LinkError::IncompatibleImportKind {
                            module: import.module.clone(),
                            name: import.name.clone(),
                        },
                    );
                    proof {
                        lemma_link_error_stays(
                            store@,
                            self@,
                            types,
                            imports,
                            (i + 1) as nat,
                            imports.len(),
                        );
                    }
                    return Err(error);
                },
                Some(false) => {
                    let error = Error::Linker(
                        LinkError::IncompatibleImportType {
                            module: import.module.clone(),
                            name: import.name.clone(),
                        },
                    );
                    proof {
                        lemma_link_error_stays(
                            store@,
                            self@,
                            types,
                            imports,
                            (i + 1) as nat,
                            imports.len(),
                        );
                    }
                    return Err(error);
                },
                Some(true) => {
                    match value {
                        ExternVal::Func(addr) => resolved.funcs.push(addr),
                        ExternVal::Table(addr) => resolved.tables.push(addr),
                        ExternVal::Mem(addr) => resolved.memories.push(addr),
                        ExternVal::Global(addr) => resolved.globals.push(addr),
                    }
                },
            }
            i += 1;
        }
        proof {
            lemma_linked_valid(store@, self@, types, imports, imports.len());
        }
        Ok(resolved)
    }
}

/// Whether the function at `addr` has the type that the import declares.
fn function_matches(store: &Store, module: &Module, kind: &ImportKind, addr: FuncAddr) -> (matches:
    bool)
    requires
        kind is Function,
    ensures
        matches == store@.import_matches(module@.func_types, *kind, ExternVal::Func(addr)),
{
    match kind {
        ImportKind::Function(ty) => {
            if (*ty as usize) >= module.func_types.len() {
                return false;
            }
            match store.get_func(addr) {
                Err(_) => false,
                Ok(func) => func.ty.same(&module.func_types[*ty as usize]),
            }
        },
        _ => false,
    }
}

/// Whether the table at `addr` has the type that the import declares.
fn table_matches(store: &Store, module: &Module, ty: &TableType, addr: TableAddr) -> (matches: bool)
    ensures
        matches == store@.import_matches(
            module@.func_types,
            ImportKind::Table(*ty),
            ExternVal::Table(addr),
        ),
{
    match store.get_table(addr) {
        None => false,
        Some(table) => {
            if table.kind.element_type != ty.element_type {
                return false;
            }
            if table.elements.len() < ty.size_initial as usize {
                return false;
            }
            match ty.size_max {
                None => true,
                Some(max) => match table.kind.size_max {
                    None => false,
                    Some(actual) => actual <= max,
                },
            }
        },
    }
}

/// Whether the memory at `addr` has the type that the import declares.
fn memory_matches(store: &Store, module: &Module, ty: &MemoryType, addr: MemAddr) -> (matches: bool)
    ensures
        matches == store@.import_matches(
            module@.func_types,
            ImportKind::Memory(*ty),
            ExternVal::Mem(addr),
        ),
{
    match store.get_mem(addr) {
        None => false,
        Some(mem) => {
            let pages = (mem.data.len() / 65536) as u64;
            if pages < ty.page_count_initial {
                return false;
            }
            match ty.page_count_max {
                None => true,
                Some(max) => match mem.kind.page_count_max {
                    None => false,
                    Some(actual) => actual <= max,
                },
            }
        },
    }
}

/// Whether the global at `addr` has the type that the import declares.
fn global_matches(store: &Store, module: &Module, ty: &GlobalType, addr: GlobalAddr) -> (matches:
    bool)
    ensures
        matches == store@.import_matches(
            module@.func_types,
            ImportKind::Global(*ty),
            ExternVal::Global(addr),
        ),
{
    match store.get_global(addr) {
        None => false,
        Some(global) => global.ty == *ty,
    }
}

} // verus!
