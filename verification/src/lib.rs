//! Core runtime state and instantiation engine for a minimal WebAssembly
//! embedder: values and type-safe addresses, linear memories, tables,
//! globals, function / element / data instances, the shared `Store`, and
//! the instantiation pipeline that wires a parsed module into the `Store`.

use vstd::prelude::*;

pub mod error;
pub mod func;
pub mod global;
pub mod imports;
pub mod instance;
pub mod memory;
pub mod parsed;
pub mod store;
pub mod table;
pub mod type_convert;
pub mod util;
pub mod values;

pub use error::{AwwasmInstantiationError, AwwasmRuntimeError, AwwasmTrap};
pub use values::{
    AwwasmDataAddr, AwwasmElemAddr, AwwasmExternAddr, AwwasmFuncAddr, AwwasmGlobalAddr,
    AwwasmMemAddr, AwwasmModuleAddr, AwwasmTableAddr, AwwasmValue,
};
pub use imports::AwwasmImports;
pub use instance::AwwasmModuleInst;
pub use store::AwwasmStore;
