//! A decoded module: what a WebAssembly binary declares, with no runtime
//! state. Every part has a view that replaces vectors and strings by
//! sequences; the contracts of the runtime speak of those views.

use vstd::prelude::*;
use crate::conversion::ExportView;
use crate::instructions::Instruction;
use crate::types::{Addr, Export, FuncType, FuncTypeView, ValType};

verus! {

/// The views of a sequence of items, one for one.
pub open spec fn views<T: View>(items: Seq<T>) -> Seq<T::V> {
    Seq::new(items.len(), |i: int| items[i]@)
}

/// Appending an item appends its view.
pub proof fn lemma_views_push<T: View>(items: Seq<T>, item: T)
    ensures
        views(items.push(item)) == views(items).push(item@),
{
}

/// A runtime value. Floating-point values are held as their bit patterns.
#[derive(Clone, Copy, Debug, PartialEq, Eq, Structural)]
pub enum WasmValue {
    I32(i32),
    I64(i64),
    F32(u32),
    F64(u64),
    RefExtern(Addr),
    RefFunc(Addr),
    RefNull(ValType),
}

/// The type of a global: whether it can be written, and the type of its
/// value.
#[derive(Clone, Copy, Debug, PartialEq, Eq, Structural)]
pub struct GlobalType {
    pub mutable: bool,
    pub ty: ValType,
}

/// The type of a table: the type of its entries, and its size limits in
/// entries.
#[derive(Clone, Copy, Debug, PartialEq, Eq)]
pub struct TableType {
    pub element_type: ValType,
    pub size_initial: u32,
    pub size_max: Option<u32>,
}

/// The type of a memory: its size limits in pages of 64 KiB.
#[derive(Clone, Copy, Debug, PartialEq, Eq)]
pub struct MemoryType {
    pub page_count_initial: u64,
    pub page_count_max: Option<u64>,
}

/// One operator of a constant expression.
#[derive(Clone, Copy, Debug, PartialEq, Eq, Structural)]
pub enum ConstOp {
    I32Const(i32),
    I64Const(i64),
    /// A 32-bit float constant, as its bit pattern.
    F32Const(u32),
    /// A 64-bit float constant, as its bit pattern.
    F64Const(u64),
    GlobalGet(u32),
    RefNull(ValType),
    RefFunc(u32),
    End,
    /// Any operator that is not allowed in a constant expression.
    NonConstant,
}

/// A constant expression: the operators of an initializer or an offset, in
/// order, up to and including the closing `End`.
#[derive(Clone, Debug, PartialEq, Eq)]
pub struct ConstExpr {
    pub ops: Vec<ConstOp>,
}

impl View for ConstExpr {
    type V = Seq<ConstOp>;

    open spec fn view(&self) -> Seq<ConstOp> {
        self.ops@
    }
}

/// What an import asks for.
#[derive(Clone, Copy, Debug, PartialEq, Eq)]
pub enum ImportKind {
    /// A function of the type at this index of the module's types.
    Function(u32),
    Table(TableType),
    Memory(MemoryType),
    Global(GlobalType),
}

/// An import of a module.
#[derive(Clone, Debug, PartialEq, Eq)]
pub struct Import {
    pub module: String,
    pub name: String,
    pub kind: ImportKind,
}

/// An import of a module, as plain data.
pub struct ImportView {
    pub module: Seq<char>,
    pub name: Seq<char>,
    pub kind: ImportKind,
}

impl View for Import {
    type V = ImportView;

    open spec fn view(&self) -> ImportView {
        ImportView { module: self.module@, name: self.name@, kind: self.kind }
    }
}

/// A global that a module defines.
#[derive(Clone, Debug, PartialEq, Eq)]
pub struct Global {
    pub ty: GlobalType,
    pub init: ConstExpr,
}

/// A global that a module defines, as plain data.
pub struct GlobalView {
    pub ty: GlobalType,
    pub init: Seq<ConstOp>,
}

impl View for Global {
    type V = GlobalView;

    open spec fn view(&self) -> GlobalView {
        GlobalView { ty: self.ty, init: self.init@ }
    }
}

/// How an element segment is used.
#[derive(Clone, Debug, PartialEq, Eq)]
pub enum ElementKind {
    /// Kept for `table.init` at run time.
    Passive,
    /// Written into the table at instantiation, at the given offset.
    Active { table: u32, offset: ConstExpr },
    /// Only declares its references.
    Declared,
}

/// How an element segment is used, as plain data.
pub enum ElementKindView {
    Passive,
    Active { table: u32, offset: Seq<ConstOp> },
    Declared,
}

impl View for ElementKind {
    type V = ElementKindView;

    open spec fn view(&self) -> ElementKindView {
        match self {
            ElementKind::Passive => ElementKindView::Passive,
            ElementKind::Active { table, offset } => ElementKindView::Active {
                table: *table,
                offset: offset@,
            },
            ElementKind::Declared => ElementKindView::Declared,
        }
    }
}

/// One item of an element segment.
#[derive(Clone, Debug, PartialEq, Eq)]
pub enum ElementItem {
    /// The function at this index of the module's functions.
    Func(u32),
    /// The reference that a constant expression gives.
    Expr(ConstExpr),
}

/// One item of an element segment, as plain data.
pub enum ElementItemView {
    Func(u32),
    Expr(Seq<ConstOp>),
}

impl View for ElementItem {
    type V = ElementItemView;

    open spec fn view(&self) -> ElementItemView {
        match self {
            ElementItem::Func(index) => ElementItemView::Func(*index),
            ElementItem::Expr(expr) => ElementItemView::Expr(expr@),
        }
    }
}

/// An element segment.
#[derive(Clone, Debug, PartialEq, Eq)]
pub struct Element {
    pub kind: ElementKind,
    pub items: Vec<ElementItem>,
    pub ty: ValType,
}

/// An element segment, as plain data.
pub struct ElementView {
    pub kind: ElementKindView,
    pub items: Seq<ElementItemView>,
    pub ty: ValType,
}

impl View for Element {
    type V = ElementView;

    open spec fn view(&self) -> ElementView {
        ElementView { kind: self.kind@, items: views(self.items@), ty: self.ty }
    }
}

/// How a data segment is used.
#[derive(Clone, Debug, PartialEq, Eq)]
pub enum DataKind {
    /// Written into the memory at instantiation, at the given offset.
    Active { mem: u32, offset: ConstExpr },
    /// Kept for `memory.init` at run time.
    Passive,
}

/// How a data segment is used, as plain data.
pub enum DataKindView {
    Active { mem: u32, offset: Seq<ConstOp> },
    Passive,
}

impl View for DataKind {
    type V = DataKindView;

    open spec fn view(&self) -> DataKindView {
        match self {
            DataKind::Active { mem, offset } => DataKindView::Active { mem: *mem, offset: offset@ },
            DataKind::Passive => DataKindView::Passive,
        }
    }
}

/// A data segment.
#[derive(Clone, Debug, PartialEq, Eq)]
pub struct Data {
    pub data: Vec<u8>,
    pub kind: DataKind,
}

/// A data segment, as plain data.
pub struct DataView {
    pub data: Seq<u8>,
    pub kind: DataKindView,
}

impl View for Data {
    type V = DataView;

    open spec fn view(&self) -> DataView {
        DataView { data: self.data@, kind: self.kind@ }
    }
}

/// A function that a module defines.
#[derive(Clone, Debug, PartialEq, Eq)]
pub struct FuncDecl {
    /// Index of the function's type among the module's types.
    pub type_index: u32,
    /// The types of the locals, one per local.
    pub locals: Vec<ValType>,
    pub body: Vec<Instruction>,
}

/// A function that a module defines, as plain data.
pub struct FuncDeclView {
    pub type_index: u32,
    pub locals: Seq<ValType>,
    pub body: Seq<Instruction>,
}

impl View for FuncDecl {
    type V = FuncDeclView;

    open spec fn view(&self) -> FuncDeclView {
        FuncDeclView { type_index: self.type_index, locals: self.locals@, body: self.body@ }
    }
}

/// A decoded module.
#[derive(Clone, Debug, PartialEq, Eq)]
pub struct Module {
    pub func_types: Vec<FuncType>,
    pub funcs: Vec<FuncDecl>,
    pub table_types: Vec<TableType>,
    pub memory_types: Vec<MemoryType>,
    pub globals: Vec<Global>,
    pub elements: Vec<Element>,
    pub data: Vec<Data>,
    pub imports: Vec<Import>,
    pub exports: Vec<Export>,
    pub start_func: Option<u32>,
}

/// A decoded module, as plain data.
pub struct ModuleView {
    pub func_types: Seq<FuncTypeView>,
    pub funcs: Seq<FuncDeclView>,
    pub table_types: Seq<TableType>,
    pub memory_types: Seq<MemoryType>,
    pub globals: Seq<GlobalView>,
    pub elements: Seq<ElementView>,
    pub data: Seq<DataView>,
    pub imports: Seq<ImportView>,
    pub exports: Seq<ExportView>,
    pub start_func: Option<u32>,
}

impl View for Module {
    type V = ModuleView;

    open spec fn view(&self) -> ModuleView {
        ModuleView {
            func_types: views(self.func_types@),
            funcs: views(self.funcs@),
            table_types: self.table_types@,
            memory_types: self.memory_types@,
            globals: views(self.globals@),
            elements: views(self.elements@),
            data: views(self.data@),
            imports: views(self.imports@),
            exports: views(self.exports@),
            start_func: self.start_func,
        }
    }
}

impl Module {
    /// The module that declares nothing.
    pub fn empty() -> (module: Module)
        ensures
            module@ == ModuleView::empty(),
    {
        let module = Module {
            func_types: Vec::new(),
            funcs: Vec::new(),
            table_types: Vec::new(),
            memory_types: Vec::new(),
            globals: Vec::new(),
            elements: Vec::new(),
            data: Vec::new(),
            imports: Vec::new(),
            exports: Vec::new(),
            start_func: None,
        };
        assert(module@.func_types =~= Seq::empty());
        assert(module@.funcs =~= Seq::empty());
        assert(module@.globals =~= Seq::empty());
        assert(module@.elements =~= Seq::empty());
        assert(module@.data =~= Seq::empty());
        assert(module@.imports =~= Seq::empty());
        assert(module@.exports =~= Seq::empty());
        module
    }
}

impl ModuleView {
    /// The module that declares nothing.
    pub open spec fn empty() -> ModuleView {
        ModuleView {
            func_types: Seq::empty(),
            funcs: Seq::empty(),
            table_types: Seq::empty(),
            memory_types: Seq::empty(),
            globals: Seq::empty(),
            elements: Seq::empty(),
            data: Seq::empty(),
            imports: Seq::empty(),
            exports: Seq::empty(),
            start_func: None,
        }
    }
}

} // verus!
