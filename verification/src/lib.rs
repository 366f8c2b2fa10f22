//! The core of a small embeddable WebAssembly runtime: the internal
//! instruction stream and the conversion that produces it, the store that
//! owns every runtime object, and the protocol that instantiates a decoded
//! module inside a store.

pub mod conversion;
pub mod conversion_laws;
pub mod decoded;
pub mod error;
pub mod func;
pub mod imports;
pub mod instance;
pub mod instance_laws;
pub mod instantiation_laws;
pub mod instructions;
pub mod model;
pub mod module;
pub mod store;
pub mod types;
