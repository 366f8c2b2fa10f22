//! Types shared by the modules of the runtime: value and function types,
//! the immediates that instructions carry, and external values.

use vstd::prelude::*;

verus! {

/// An index into one of the stores of runtime objects.
pub type Addr = u32;

/// The address of a function in the store.
pub type FuncAddr = Addr;

/// The address of a table in the store.
pub type TableAddr = Addr;

/// The address of a memory in the store.
pub type MemAddr = Addr;

/// The address of a global in the store.
pub type GlobalAddr = Addr;

/// The address of an element segment in the store.
pub type ElemAddr = Addr;

/// The address of a data segment in the store.
pub type DataAddr = Addr;

/// The index of a module instance in the store.
pub type ModuleInstanceAddr = Addr;

/// The type of a value.
#[derive(Clone, Copy, Debug, PartialEq, Eq, Structural)]
pub enum ValType {
    I32,
    I64,
    F32,
    F64,
    V128,
    FuncRef,
    ExternRef,
}

/// The type of a function: its parameters and its results, in order.
#[derive(Clone, Debug, PartialEq, Eq)]
pub struct FuncType {
    pub params: Vec<ValType>,
    pub results: Vec<ValType>,
}

/// A function type as a pair of sequences.
pub struct FuncTypeView {
    pub params: Seq<ValType>,
    pub results: Seq<ValType>,
}

impl View for FuncType {
    type V = FuncTypeView;

    open spec fn view(&self) -> FuncTypeView {
        FuncTypeView { params: self.params@, results: self.results@ }
    }
}

/// A copy of a list of value types.
pub fn copy_val_types(types: &Vec<ValType>) -> (copy: Vec<ValType>)
    ensures
        copy@ == types@,
{
    let mut copy: Vec<ValType> = Vec::new();
    let mut i: usize = 0;
    while i < types.len()
        invariant
            i <= types.len(),
            copy@ == types@.take(i as int),
        decreases types.len() - i,
    {
        copy.push(types[i]);
        i += 1;
    }
    copy
}

/// Whether two lists of value types hold the same types in the same order.
pub fn same_val_types(left: &Vec<ValType>, right: &Vec<ValType>) -> (same: bool)
    ensures
        same == (left@ == right@),
{
    if left.len() != right.len() {
        return false;
    }
    let mut i: usize = 0;
    while i < left.len()
        invariant
            i <= left.len(),
            left.len() == right.len(),
            left@.take(i as int) == right@.take(i as int),
        decreases left.len() - i,
    {
        if left[i] != right[i] {
            return false;
        }
        i += 1;
    }
    assert(left@.take(left@.len() as int) == left@);
    assert(right@.take(right@.len() as int) == right@);
    true
}

impl FuncType {
    /// The type that takes nothing and returns nothing.
    pub fn empty() -> (ty: FuncType)
        ensures
            ty@.params == Seq::<ValType>::empty(),
            ty@.results == Seq::<ValType>::empty(),
    {
        FuncType { params: Vec::new(), results: Vec::new() }
    }

    /// A copy of this type.
    pub fn copy(&self) -> (ty: FuncType)
        ensures
            ty@ == self@,
    {
        FuncType { params: copy_val_types(&self.params), results: copy_val_types(&self.results) }
    }

    /// Structural equality: the same parameters and the same results.
    pub fn same(&self, other: &FuncType) -> (same: bool)
        ensures
            same == (self@ == other@),
    {
        same_val_types(&self.params, &other.params) && same_val_types(
            &self.results,
            &other.results,
        )
    }
}

/// The type annotation that a structured control instruction carries.
#[derive(Clone, Copy, Debug, PartialEq, Eq, Structural)]
pub enum BlockArgs {
    /// No parameters, no results.
    Empty,
    /// No parameters, one result of the given type.
    Type(ValType),
    /// Parameters and results of the function type at this index.
    FuncType(u32),
}

/// The immediate of a load or store.
#[derive(Clone, Copy, Debug, PartialEq, Eq, Structural)]
pub struct MemArg {
    /// Constant byte offset added to the address operand.
    pub offset: u64,
    /// Alignment, as the exponent of a power of two.
    pub align: u32,
}

/// The kind of an external value.
#[derive(Clone, Copy, Debug, PartialEq, Eq, Structural)]
pub enum ExternalKind {
    Func,
    Table,
    Memory,
    Global,
}

/// An external value: a kind together with the address of the object in
/// the store.
#[derive(Clone, Copy, Debug, PartialEq, Eq, Structural)]
pub enum ExternVal {
    Func(FuncAddr),
    Table(TableAddr),
    Mem(MemAddr),
    Global(GlobalAddr),
}

impl ExternVal {
    /// The external value of the given kind at the given address.
    pub open spec fn of(kind: ExternalKind, addr: Addr) -> ExternVal {
        match kind {
            ExternalKind::Func => ExternVal::Func(addr),
            ExternalKind::Table => ExternVal::Table(addr),
            ExternalKind::Memory => ExternVal::Mem(addr),
            ExternalKind::Global => ExternVal::Global(addr),
        }
    }

    /// The kind of this value.
    pub open spec fn spec_kind(&self) -> ExternalKind {
        match *self {
            ExternVal::Func(_) => ExternalKind::Func,
            ExternVal::Table(_) => ExternalKind::Table,
            ExternVal::Mem(_) => ExternalKind::Memory,
            ExternVal::Global(_) => ExternalKind::Global,
        }
    }

    /// The address that this value holds.
    pub open spec fn spec_addr(&self) -> Addr {
        match *self {
            ExternVal::Func(a) => a,
            ExternVal::Table(a) => a,
            ExternVal::Mem(a) => a,
            ExternVal::Global(a) => a,
        }
    }

    /// The kind of this value.
    #[verifier::when_used_as_spec(spec_kind)]
    pub fn kind(&self) -> (kind: ExternalKind)
        ensures
            kind == self.spec_kind(),
    {
        match self {
            ExternVal::Func(_) => ExternalKind::Func,
            ExternVal::Table(_) => ExternalKind::Table,
            ExternVal::Mem(_) => ExternalKind::Memory,
            ExternVal::Global(_) => ExternalKind::Global,
        }
    }

    /// The address that this value holds.
    #[verifier::when_used_as_spec(spec_addr)]
    pub fn addr(&self) -> (addr: Addr)
        ensures
            addr == self.spec_addr(),
    {
        match self {
            ExternVal::Func(a) => *a,
            ExternVal::Table(a) => *a,
            ExternVal::Mem(a) => *a,
            ExternVal::Global(a) => *a,
        }
    }
}

/// An export of a module: a name for the item of the given kind at the
/// given index of the module's index space for that kind.
#[derive(Clone, Debug, PartialEq, Eq)]
pub struct Export {
    pub name: String,
    pub kind: ExternalKind,
    pub index: u32,
}

} // verus!
