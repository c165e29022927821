//! Error taxonomy of the runtime.
//!
//! Two families: instantiation errors are definitional and reject a
//! module; traps are unrecoverable wasm execution errors.  Names and
//! descriptions are carried as raw bytes — export and import names are
//! byte strings matched byte-exactly, UTF-8 only by convention.

use vstd::prelude::*;

use crate::util::{push_bytes, push_str_bytes, spec_decimal, u32_decimal};

verus! {

use vstd::string::StringSliceAdditionalSpecFns;

/// Errors that can occur during module instantiation.
#[derive(Debug, Clone, PartialEq, Eq)]
pub enum AwwasmInstantiationError {
    /// Import not found in provided imports
    MissingImport { module: Vec<u8>, name: Vec<u8> },
    /// Import type mismatch
    ImportTypeMismatch { module: Vec<u8>, name: Vec<u8>, expected: Vec<u8>, got: Vec<u8> },
    /// Memory allocation failed
    MemoryAllocationFailed { requested_pages: u32 },
    /// Data segment out of bounds
    DataSegmentOutOfBounds { segment_idx: u32, offset: u32, size: u32, memory_size: u32 },
    /// Element segment out of bounds
    ElementSegmentOutOfBounds { segment_idx: u32, offset: u32, size: u32, table_size: u32 },
    /// Start function trapped
    StartFunctionTrapped(AwwasmTrap),
    /// Unsupported type encountered during conversion
    UnsupportedType { description: Vec<u8> },
    /// Invalid constant initializer expression
    InvalidConstExpr { description: Vec<u8> },
    /// Function/code section count mismatch
    FuncCodeMismatch { func_count: u32, code_count: u32 },
}

/// Runtime trap - an unrecoverable error during execution.
#[derive(Debug, Clone, Copy, PartialEq, Eq, Structural)]
pub enum AwwasmTrap {
    /// Division by zero
    DivisionByZero,
    /// Integer overflow
    IntegerOverflow,
    /// Invalid conversion to integer
    InvalidConversionToInteger,
    /// Memory access out of bounds
    MemoryOutOfBounds { offset: u32, size: u32, memory_size: u32 },
    /// Table access out of bounds
    TableOutOfBounds { index: u32, table_size: u32 },
    /// Indirect call type mismatch
    IndirectCallTypeMismatch { expected_type: u32, actual_type: u32 },
    /// Indirect call to null reference
    IndirectCallToNull,
    /// Unreachable instruction executed
    Unreachable,
    /// Stack overflow
    StackOverflow,
    /// Call stack exhausted
    CallStackExhausted,
}

/// Errors that can occur during runtime execution.
#[derive(Debug, Clone, PartialEq, Eq)]
pub enum AwwasmRuntimeError {
    /// A trap occurred
    Trap(AwwasmTrap),
    /// Invalid function address
    InvalidFuncAddr(u32),
    /// Invalid memory address
    InvalidMemAddr(u32),
    /// Invalid table address
    InvalidTableAddr(u32),
    /// Invalid global address
    InvalidGlobalAddr(u32),
    /// Attempted to execute a host function directly
    HostFunctionNotExecutable,
    /// Function has not been parsed yet
    FunctionNotParsed,
    /// Instruction parsing error
    InstructionParseError(Vec<u8>),
    /// Type mismatch on stack
    TypeMismatch { expected: Vec<u8>, got: Vec<u8> },
    /// Global is immutable
    ImmutableGlobal(u32),
}

impl AwwasmTrap {
    /// The diagnostic message of a trap.
    pub open spec fn spec_message(self) -> Seq<u8> {
        match self {
            AwwasmTrap::DivisionByZero => "division by zero".spec_bytes(),
            AwwasmTrap::IntegerOverflow => "integer overflow".spec_bytes(),
            AwwasmTrap::InvalidConversionToInteger => "invalid conversion to integer".spec_bytes(),
            AwwasmTrap::MemoryOutOfBounds { offset, size, memory_size } => "memory out of bounds: offset=".spec_bytes()
                + spec_decimal(offset as nat) + ", size=".spec_bytes() + spec_decimal(size as nat)
                + ", memory_size=".spec_bytes() + spec_decimal(memory_size as nat),
            AwwasmTrap::TableOutOfBounds { index, table_size } => "table out of bounds: index=".spec_bytes()
                + spec_decimal(index as nat) + ", table_size=".spec_bytes() + spec_decimal(
                table_size as nat,
            ),
            AwwasmTrap::IndirectCallTypeMismatch { expected_type, actual_type } => "indirect call type mismatch: expected=".spec_bytes()
                + spec_decimal(expected_type as nat) + ", actual=".spec_bytes() + spec_decimal(
                actual_type as nat,
            ),
            AwwasmTrap::IndirectCallToNull => "indirect call to null".spec_bytes(),
            AwwasmTrap::Unreachable => "unreachable".spec_bytes(),
            AwwasmTrap::StackOverflow => "stack overflow".spec_bytes(),
            AwwasmTrap::CallStackExhausted => "call stack exhausted".spec_bytes(),
        }
    }

    /// Render the trap as a diagnostic message, suitable for the
    /// embedder to show.
    pub fn message(&self) -> (r: Vec<u8>)
        ensures
            r@ == self.spec_message(),
    {
        let mut out: Vec<u8> = Vec::new();
        match self {
            AwwasmTrap::DivisionByZero => {
                push_str_bytes(&mut out, "division by zero");
            },
            AwwasmTrap::IntegerOverflow => {
                push_str_bytes(&mut out, "integer overflow");
            },
            AwwasmTrap::InvalidConversionToInteger => {
                push_str_bytes(&mut out, "invalid conversion to integer");
            },
            AwwasmTrap::MemoryOutOfBounds { offset, size, memory_size } => {
                push_str_bytes(&mut out, "memory out of bounds: offset=");
                let d = u32_decimal(*offset);
                push_bytes(&mut out, d.as_slice());
                push_str_bytes(&mut out, ", size=");
                let d = u32_decimal(*size);
                push_bytes(&mut out, d.as_slice());
                push_str_bytes(&mut out, ", memory_size=");
                let d = u32_decimal(*memory_size);
                push_bytes(&mut out, d.as_slice());
            },
            AwwasmTrap::TableOutOfBounds { index, table_size } => {
                push_str_bytes(&mut out, "table out of bounds: index=");
                let d = u32_decimal(*index);
                push_bytes(&mut out, d.as_slice());
                push_str_bytes(&mut out, ", table_size=");
                let d = u32_decimal(*table_size);
                push_bytes(&mut out, d.as_slice());
            },
            AwwasmTrap::IndirectCallTypeMismatch { expected_type, actual_type } => {
                push_str_bytes(&mut out, "indirect call type mismatch: expected=");
                let d = u32_decimal(*expected_type);
                push_bytes(&mut out, d.as_slice());
                push_str_bytes(&mut out, ", actual=");
                let d = u32_decimal(*actual_type);
                push_bytes(&mut out, d.as_slice());
            },
            AwwasmTrap::IndirectCallToNull => {
                push_str_bytes(&mut out, "indirect call to null");
            },
            AwwasmTrap::Unreachable => {
                push_str_bytes(&mut out, "unreachable");
            },
            AwwasmTrap::StackOverflow => {
                push_str_bytes(&mut out, "stack overflow");
            },
            AwwasmTrap::CallStackExhausted => {
                push_str_bytes(&mut out, "call stack exhausted");
            },
        }
        out
    }
}

impl AwwasmRuntimeError {
    /// The diagnostic message of a runtime error.
    pub open spec fn spec_message(self) -> Seq<u8> {
        match self {
            AwwasmRuntimeError::Trap(trap) => "trap: ".spec_bytes() + trap.spec_message(),
            AwwasmRuntimeError::InvalidFuncAddr(addr) => "invalid function address: ".spec_bytes()
                + spec_decimal(addr as nat),
            AwwasmRuntimeError::InvalidMemAddr(addr) => "invalid memory address: ".spec_bytes()
                + spec_decimal(addr as nat),
            AwwasmRuntimeError::InvalidTableAddr(addr) => "invalid table address: ".spec_bytes()
                + spec_decimal(addr as nat),
            AwwasmRuntimeError::InvalidGlobalAddr(addr) => "invalid global address: ".spec_bytes()
                + spec_decimal(addr as nat),
            AwwasmRuntimeError::HostFunctionNotExecutable => "cannot execute host function".spec_bytes(),
            AwwasmRuntimeError::FunctionNotParsed => "function not parsed".spec_bytes(),
            AwwasmRuntimeError::InstructionParseError(msg) => "instruction parse error: ".spec_bytes()
                + msg@,
            AwwasmRuntimeError::TypeMismatch { expected, got } => "type mismatch: expected ".spec_bytes()
                + expected@ + ", got ".spec_bytes() + got@,
            AwwasmRuntimeError::ImmutableGlobal(idx) => "global ".spec_bytes() + spec_decimal(
                idx as nat,
            ) + " is immutable".spec_bytes(),
        }
    }

    /// Render the error as a diagnostic message, suitable for the
    /// embedder to show.
    pub fn message(&self) -> (r: Vec<u8>)
        ensures
            r@ == self.spec_message(),
    {
        let mut out: Vec<u8> = Vec::new();
        match self {
            AwwasmRuntimeError::Trap(trap) => {
                push_str_bytes(&mut out, "trap: ");
                let m = trap.message();
                push_bytes(&mut out, m.as_slice());
            },
            AwwasmRuntimeError::InvalidFuncAddr(addr) => {
                push_str_bytes(&mut out, "invalid function address: ");
                let d = u32_decimal(*addr);
                push_bytes(&mut out, d.as_slice());
            },
            AwwasmRuntimeError::InvalidMemAddr(addr) => {
                push_str_bytes(&mut out, "invalid memory address: ");
                let d = u32_decimal(*addr);
                push_bytes(&mut out, d.as_slice());
            },
            AwwasmRuntimeError::InvalidTableAddr(addr) => {
                push_str_bytes(&mut out, "invalid table address: ");
                let d = u32_decimal(*addr);
                push_bytes(&mut out, d.as_slice());
            },
            AwwasmRuntimeError::InvalidGlobalAddr(addr) => {
                push_str_bytes(&mut out, "invalid global address: ");
                let d = u32_decimal(*addr);
                push_bytes(&mut out, d.as_slice());
            },
            AwwasmRuntimeError::HostFunctionNotExecutable => {
                push_str_bytes(&mut out, "cannot execute host function");
            },
            AwwasmRuntimeError::FunctionNotParsed => {
                push_str_bytes(&mut out, "function not parsed");
            },
            AwwasmRuntimeError::InstructionParseError(msg) => {
                push_str_bytes(&mut out, "instruction parse error: ");
                push_bytes(&mut out, msg.as_slice());
            },
            AwwasmRuntimeError::TypeMismatch { expected, got } => {
                push_str_bytes(&mut out, "type mismatch: expected ");
                push_bytes(&mut out, expected.as_slice());
                push_str_bytes(&mut out, ", got ");
                push_bytes(&mut out, got.as_slice());
            },
            AwwasmRuntimeError::ImmutableGlobal(idx) => {
                push_str_bytes(&mut out, "global ");
                let d = u32_decimal(*idx);
                push_bytes(&mut out, d.as_slice());
                push_str_bytes(&mut out, " is immutable");
            },
        }
        out
    }
}

/// The mathematical view of an instantiation error: the same variants
/// with byte vectors seen as sequences.  Contracts state errors in this
/// form.
pub enum InstErrView {
    MissingImport { module: Seq<u8>, name: Seq<u8> },
    ImportTypeMismatch { module: Seq<u8>, name: Seq<u8>, expected: Seq<u8>, got: Seq<u8> },
    MemoryAllocationFailed { requested_pages: u32 },
    DataSegmentOutOfBounds { segment_idx: u32, offset: u32, size: u32, memory_size: u32 },
    ElementSegmentOutOfBounds { segment_idx: u32, offset: u32, size: u32, table_size: u32 },
    StartFunctionTrapped(AwwasmTrap),
    UnsupportedType { description: Seq<u8> },
    InvalidConstExpr { description: Seq<u8> },
    FuncCodeMismatch { func_count: u32, code_count: u32 },
}

impl AwwasmInstantiationError {
    /// The view of an instantiation error.
    pub open spec fn view_err(self) -> InstErrView {
        match self {
            AwwasmInstantiationError::MissingImport { module, name } => InstErrView::MissingImport {
                module: module@,
                name: name@,
            },
            AwwasmInstantiationError::ImportTypeMismatch { module, name, expected, got } =>
                InstErrView::ImportTypeMismatch {
                module: module@,
                name: name@,
                expected: expected@,
                got: got@,
            },
            AwwasmInstantiationError::MemoryAllocationFailed { requested_pages } =>
                InstErrView::MemoryAllocationFailed { requested_pages },
            AwwasmInstantiationError::DataSegmentOutOfBounds {
                segment_idx,
                offset,
                size,
                memory_size,
            } => InstErrView::DataSegmentOutOfBounds { segment_idx, offset, size, memory_size },
            AwwasmInstantiationError::ElementSegmentOutOfBounds {
                segment_idx,
                offset,
                size,
                table_size,
            } => InstErrView::ElementSegmentOutOfBounds { segment_idx, offset, size, table_size },
            AwwasmInstantiationError::StartFunctionTrapped(trap) => InstErrView::StartFunctionTrapped(
                trap,
            ),
            AwwasmInstantiationError::UnsupportedType { description } =>
                InstErrView::UnsupportedType { description: description@ },
            AwwasmInstantiationError::InvalidConstExpr { description } =>
                InstErrView::InvalidConstExpr { description: description@ },
            AwwasmInstantiationError::FuncCodeMismatch { func_count, code_count } =>
                InstErrView::FuncCodeMismatch { func_count, code_count },
        }
    }
}

impl From<AwwasmTrap> for AwwasmRuntimeError {
    fn from(trap: AwwasmTrap) -> (r: Self) {
        AwwasmRuntimeError::Trap(trap)
    }
}

impl vstd::std_specs::convert::FromSpecImpl<AwwasmTrap> for AwwasmRuntimeError {
    open spec fn obeys_from_spec() -> bool {
        true
    }

    open spec fn from_spec(trap: AwwasmTrap) -> Self {
        AwwasmRuntimeError::Trap(trap)
    }
}

} // verus!
