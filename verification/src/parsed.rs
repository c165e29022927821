//! The parsed-module representation that instantiation consumes.
//!
//! A byte-level parser (an external collaborator) turns a wasm binary
//! into this structured form: plain values and borrowed byte slices,
//! one record per section entry.  Instantiation reads these records;
//! it never touches the binary format itself, except for constant
//! initializer expressions (see `type_convert`).

use vstd::prelude::*;

verus! {

/// The kind of an import.
#[derive(Debug, Clone, Copy, PartialEq, Eq, Structural)]
pub enum AwwasmImportKind {
    Function,
    Table,
    Memory,
    Global,
}

/// The kind of an export.
#[derive(Debug, Clone, Copy, PartialEq, Eq, Structural)]
pub enum AwwasmExportKind {
    Function,
    Table,
    Memory,
    Global,
}

/// One entry of the import section.
#[derive(Debug, Clone, Copy)]
pub struct AwwasmImportItem<'a> {
    /// Module name bytes (e.g. "env").
    pub module: &'a [u8],
    /// Field name bytes (e.g. "memory").
    pub name: &'a [u8],
    /// What is imported.
    pub kind: AwwasmImportKind,
}

/// One entry of the function section: the declared type index.
#[derive(Debug, Clone, Copy, PartialEq, Eq, Structural)]
pub struct AwwasmFuncItem {
    /// Index into the type section.
    pub type_idx: u32,
}

/// One entry of the code section: the raw function body bytes
/// (local declarations plus instruction sequence).
#[derive(Debug, Clone, Copy)]
pub struct AwwasmCodeItem<'a> {
    /// Raw function body bytes.
    pub func_body: &'a [u8],
}

/// The limits of a memory as the binary format encodes them.
#[derive(Debug, Clone, Copy, PartialEq, Eq, Structural)]
pub struct AwwasmMemoryParams {
    /// The limits flag byte (whether a maximum is present).
    pub flags: u8,
    /// Minimum number of pages.
    pub min: u32,
    /// Maximum number of pages (if specified).
    pub max: Option<u32>,
}

/// One entry of the memory section.
#[derive(Debug, Clone, Copy, PartialEq, Eq, Structural)]
pub struct AwwasmMemoryItem {
    /// The declared limits.
    pub limits: AwwasmMemoryParams,
}

/// A constant initializer expression: raw instruction bytes.
#[derive(Debug, Clone, Copy)]
pub struct AwwasmInitExpr<'a> {
    /// The expression bytes.
    pub code: &'a [u8],
}

/// The header of a data segment.
///
/// `flags` 0x00 marks an active segment with implicit memory index 0;
/// 0x01 a passive segment; 0x02 an active segment with explicit memory
/// index.
#[derive(Debug, Clone, Copy)]
pub struct AwwasmDataHeader<'a> {
    /// The segment flags.
    pub flags: u32,
    /// Explicit memory index (for flags 0x02).
    pub memidx: Option<u32>,
    /// The offset expression (for active segments).
    pub offset: Option<AwwasmInitExpr<'a>>,
}

/// One entry of the data section.
#[derive(Debug, Clone, Copy)]
pub struct AwwasmDataItem<'a> {
    /// The segment header.
    pub header: AwwasmDataHeader<'a>,
    /// The segment bytes (borrowed from the binary).
    pub data_bytes: &'a [u8],
}

/// One entry of the export section.
#[derive(Debug, Clone, Copy)]
pub struct AwwasmExportItem<'a> {
    /// Export name bytes.
    pub name: &'a [u8],
    /// What is exported.
    pub kind: AwwasmExportKind,
    /// Module-local index of the exported entity.
    pub index: u32,
}

/// A parameter type as the parser reports it.
#[derive(Debug, Clone, Copy, PartialEq, Eq, Structural)]
pub enum ParamType {
    I32,
    I64,
    /// The parser's placeholder for a type byte it does not know.
    IUnknown,
}

/// A parsed module: the sections that instantiation consumes, each
/// absent when the binary has no such section.
#[derive(Debug, Clone)]
pub struct AwwasmModule<'a> {
    /// The import section.
    pub imports: Option<Vec<AwwasmImportItem<'a>>>,
    /// The function section (declared type indices).
    pub funcs: Option<Vec<AwwasmFuncItem>>,
    /// The code section (function bodies).
    pub code: Option<Vec<AwwasmCodeItem<'a>>>,
    /// The memory section.
    pub memories: Option<Vec<AwwasmMemoryItem>>,
    /// The data section.
    pub data: Option<Vec<AwwasmDataItem<'a>>>,
    /// The export section.
    pub exports: Option<Vec<AwwasmExportItem<'a>>>,
}

impl<'a> AwwasmModule<'a> {
    /// A module with no sections at all (the empty binary `(module)`).
    pub fn empty() -> (r: Self)
        ensures
            r.imports is None,
            r.funcs is None,
            r.code is None,
            r.memories is None,
            r.data is None,
            r.exports is None,
    {
        Self {
            imports: None,
            funcs: None,
            code: None,
            memories: None,
            data: None,
            exports: None,
        }
    }
}

} // verus!
