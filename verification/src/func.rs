//! Function, element and data instances.
//!
//! A function instance is a closure over module + code; bodies are kept
//! as raw borrowed bytes until the interpreter first needs them.  Element
//! and data instances are the runtime form of element and data segments,
//! with drop semantics.

use vstd::prelude::*;

use crate::values::{AwwasmFuncAddr, AwwasmModuleAddr, AwwasmValueType};
use crate::table::AwwasmElemType;

verus! {

/// Function type signature.
#[derive(Debug, Clone, PartialEq, Eq)]
pub struct AwwasmFuncType {
    /// Parameter types.
    pub params: Vec<AwwasmValueType>,
    /// Result types.
    pub results: Vec<AwwasmValueType>,
}

impl AwwasmFuncType {
    /// Create a new function type.
    pub fn new(params: Vec<AwwasmValueType>, results: Vec<AwwasmValueType>) -> (r: Self)
        ensures
            r.params == params,
            r.results == results,
    {
        Self { params, results }
    }
}

/// Lazy code representation for function bodies.
///
/// Function bodies are stored as raw borrowed bytes until they are first
/// executed, at which point the interpreter parses them into local
/// declarations plus an instruction stream.  The transition
/// `Unparsed` → `Resolved` is one-way.
#[derive(Debug, Clone)]
pub enum LazyResolvedCodeRef<'a> {
    /// Raw bytes, not yet parsed: the locals + instruction sequence.
    Unparsed {
        /// Raw function body bytes (borrowed from the parsed module).
        bytes: &'a [u8],
    },
    /// Parsed locals and code bytes ready for interpretation.
    Resolved {
        /// Local variable declarations (count, type).
        locals: Vec<AwwasmLocalDecl>,
        /// Code bytes (instruction sequence).
        code: &'a [u8],
    },
}

/// Local variable declaration in a function.
#[derive(Debug, Clone, PartialEq, Eq, Structural)]
pub struct AwwasmLocalDecl {
    /// Number of locals of this type.
    pub count: u32,
    /// The value type.
    pub type_: AwwasmValueType,
}

/// Function instance - either a wasm function defined in a module, or a
/// host function provided by the embedder.
#[derive(Debug, Clone)]
pub enum AwwasmFuncInst<'a> {
    /// WebAssembly function defined in a module.
    Wasm(AwwasmWasmFuncInst<'a>),
    /// Host function provided by the embedder.
    Host(AwwasmHostFuncInst),
}

/// WebAssembly function instance.
#[derive(Debug, Clone)]
pub struct AwwasmWasmFuncInst<'a> {
    /// Index into the type section (for the function signature).
    pub type_idx: u32,
    /// Reference to the owning module instance.
    pub module: AwwasmModuleAddr,
    /// The function code (lazy-parsed).
    pub code: LazyResolvedCodeRef<'a>,
}

/// Host function instance.
///
/// The implementation lives in the embedder; the instance stores an
/// identifier the embedder uses to look the function up.
#[derive(Debug, Clone, PartialEq, Eq, Structural)]
pub struct AwwasmHostFuncInst {
    /// Index into the type section (for the function signature).
    pub type_idx: u32,
    /// Embedder-defined host function identifier.
    pub host_func_id: u32,
}

impl<'a> AwwasmFuncInst<'a> {
    /// The type index, as a spec-level function.
    pub open spec fn spec_type_idx(self) -> u32 {
        match self {
            AwwasmFuncInst::Wasm(f) => f.type_idx,
            AwwasmFuncInst::Host(f) => f.type_idx,
        }
    }

    /// Create a new WebAssembly function instance in the unparsed state.
    pub fn wasm(type_idx: u32, module: AwwasmModuleAddr, code_bytes: &'a [u8]) -> (r: Self)
        ensures
            r == AwwasmFuncInst::Wasm(AwwasmWasmFuncInst {
                type_idx,
                module,
                code: LazyResolvedCodeRef::Unparsed { bytes: code_bytes },
            }),
    {
        AwwasmFuncInst::Wasm(AwwasmWasmFuncInst {
            type_idx,
            module,
            code: LazyResolvedCodeRef::Unparsed { bytes: code_bytes },
        })
    }

    /// Create a new host function instance.
    pub fn host(type_idx: u32, host_func_id: u32) -> (r: Self)
        ensures
            r == AwwasmFuncInst::<'a>::Host(AwwasmHostFuncInst { type_idx, host_func_id }),
    {
        AwwasmFuncInst::Host(AwwasmHostFuncInst { type_idx, host_func_id })
    }

    /// Get the type index of this function.
    pub fn type_idx(&self) -> (r: u32)
        ensures
            r == self.spec_type_idx(),
    {
        match self {
            AwwasmFuncInst::Wasm(f) => f.type_idx,
            AwwasmFuncInst::Host(f) => f.type_idx,
        }
    }

    /// Check if this is a WebAssembly function.
    pub fn is_wasm(&self) -> (r: bool)
        ensures
            r == (self matches AwwasmFuncInst::Wasm(_)),
    {
        match self {
            AwwasmFuncInst::Wasm(_) => true,
            AwwasmFuncInst::Host(_) => false,
        }
    }

    /// Check if this is a host function.
    pub fn is_host(&self) -> (r: bool)
        ensures
            r == (self matches AwwasmFuncInst::Host(_)),
    {
        match self {
            AwwasmFuncInst::Wasm(_) => false,
            AwwasmFuncInst::Host(_) => true,
        }
    }
}

/// Element instance - runtime representation of an element segment.
#[derive(Debug, Clone)]
pub struct AwwasmElemInst {
    /// The element type.
    pub type_: AwwasmElemType,
    /// The reference values (None = null reference).
    pub elem: Vec<Option<AwwasmFuncAddr>>,
    /// Whether this segment has been dropped.
    pub dropped: bool,
}

impl AwwasmElemInst {
    /// Create a new element instance, not yet dropped.
    pub fn new(type_: AwwasmElemType, elem: Vec<Option<AwwasmFuncAddr>>) -> (r: Self)
        ensures
            r.type_ == type_,
            r.elem == elem,
            !r.dropped,
    {
        Self { type_, elem, dropped: false }
    }

    /// Drop this element segment (`elem.drop` instruction): the
    /// reference list is cleared and the segment reports itself dropped.
    pub fn drop_elem(&mut self)
        ensures
            final(self).type_ == old(self).type_,
            final(self).elem@.len() == 0,
            final(self).dropped,
    {
        self.elem.clear();
        self.dropped = true;
    }
}

/// Data instance - runtime representation of a data segment.
///
/// The bytes are borrowed from the parsed module; a drop cannot free
/// them, it only makes every later access observe the segment as absent.
#[derive(Debug, Clone)]
pub struct AwwasmDataInst<'a> {
    /// The data bytes (borrowed from the parsed module).
    pub data: &'a [u8],
    /// Whether this segment has been dropped.
    pub dropped: bool,
}

impl<'a> AwwasmDataInst<'a> {
    /// Create a new data instance, not yet dropped.
    pub fn new(data: &'a [u8]) -> (r: Self)
        ensures
            r.data == data,
            !r.dropped,
    {
        Self { data, dropped: false }
    }

    /// Drop this data segment (`data.drop` instruction).
    pub fn drop_data(&mut self)
        ensures
            final(self).data == old(self).data,
            final(self).dropped,
    {
        self.dropped = true;
    }

    /// Get the data bytes: present exactly while the segment has not
    /// been dropped.
    pub fn bytes(&self) -> (r: Option<&'a [u8]>)
        ensures
            r == if self.dropped { None } else { Some(self.data) },
    {
        if self.dropped {
            None
        } else {
            Some(self.data)
        }
    }
}

} // verus!
