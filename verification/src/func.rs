//! Handles to functions of a store.

use std::marker::PhantomData;
use vstd::prelude::*;
use crate::error::{Error, ErrorView, Trap};
use crate::instance::{ModuleInstance, ModuleInstanceView};
use crate::model::StoreView;
use crate::store::Store;
use crate::types::{FuncAddr, FuncType, FuncTypeView};

verus! {

/// A handle to a function: the function's address in the store, its type,
/// the instance through which it was found, and the name under which it
/// was found, if it was found by name.
#[derive(Debug)]
pub struct FuncHandle {
    pub module: ModuleInstance,
    pub addr: FuncAddr,
    pub ty: FuncType,
    pub name: Option<String>,
}

/// A function handle, as plain data.
pub struct FuncHandleView {
    pub module: ModuleInstanceView,
    pub addr: FuncAddr,
    pub ty: FuncTypeView,
    pub name: Option<Seq<char>>,
}

impl View for FuncHandle {
    type V = FuncHandleView;

    open spec fn view(&self) -> FuncHandleView {
        FuncHandleView {
            module: self.module@,
            addr: self.addr,
            ty: self.ty@,
            name: match self.name {
                Some(name) => Some(name@),
                None => None,
            },
        }
    }
}

impl FuncHandleView {
    /// Whether the function may be run in `store`: the handle must belong
    /// to the store, and its module must have been instantiated without a
    /// trap.
    pub open spec fn invocable(self, store: StoreView) -> Result<(), ErrorView> {
        if self.module.store_id != store.id {
            Err(ErrorView::InvalidStore)
        } else if self.module.failed_to_instantiate {
            Err(ErrorView::Trap(Trap::FailedInstance))
        } else {
            Ok(())
        }
    }
}

impl FuncHandle {
    /// Checks that the function may be run in `store`. An interpreter asks
    /// this before it runs the function.
    pub fn invocable(&self, store: &Store) -> (allowed: Result<(), Error>)
        ensures
            crate::conversion::error_view(allowed) == self@.invocable(store@),
    {
        if self.module.store_id() != store.id() {
            Err(Error::InvalidStore)
        } else if self.module.failed_to_instantiate() {
            Err(Error::Trap(Trap::FailedInstance))
        } else {
            Ok(())
        }
    }
}

/// A function handle that records, in its type, the parameter and result
/// types that the embedder expects of the function.
#[derive(Debug)]
pub struct FuncHandleTyped<P, R> {
    pub func: FuncHandle,
    pub marker: PhantomData<(P, R)>,
}

} // verus!
