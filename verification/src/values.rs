//! Runtime values and type-safe addresses.
//!
//! A runtime value is one of wasm's four number types.  Floating-point
//! values are carried as their IEEE 754 bit patterns (`u32` / `u64`), so
//! every operation on them in this crate is exact bit-level arithmetic;
//! an embedder converts to and from `f32` / `f64` at its own boundary.

use vstd::prelude::*;

verus! {

/// Value types in WebAssembly.
#[derive(Debug, Clone, Copy, PartialEq, Eq, Hash, Structural)]
pub enum AwwasmValueType {
    I32,
    I64,
    F32,
    F64,
}

/// Runtime values that can appear on the stack or in globals.
///
/// The `F32` and `F64` payloads are IEEE 754 bit patterns; the numeric
/// zero of either float type is the all-zero pattern.
#[derive(Debug, Clone, Copy, PartialEq, Eq, Structural)]
pub enum AwwasmValue {
    /// 32-bit integer
    I32(i32),
    /// 64-bit integer
    I64(i64),
    /// 32-bit IEEE 754 floating point, as its bit pattern
    F32(u32),
    /// 64-bit IEEE 754 floating point, as its bit pattern
    F64(u64),
}

impl AwwasmValue {
    /// The type tag of a value, as a spec-level function.
    pub open spec fn spec_value_type(self) -> AwwasmValueType {
        match self {
            AwwasmValue::I32(_) => AwwasmValueType::I32,
            AwwasmValue::I64(_) => AwwasmValueType::I64,
            AwwasmValue::F32(_) => AwwasmValueType::F32,
            AwwasmValue::F64(_) => AwwasmValueType::F64,
        }
    }

    /// Get the default value for a given value type: the numeric zero.
    pub fn default_for_type(value_type: AwwasmValueType) -> (r: Self)
        ensures
            r == match value_type {
                AwwasmValueType::I32 => AwwasmValue::I32(0),
                AwwasmValueType::I64 => AwwasmValue::I64(0),
                AwwasmValueType::F32 => AwwasmValue::F32(0),
                AwwasmValueType::F64 => AwwasmValue::F64(0),
            },
    {
        match value_type {
            AwwasmValueType::I32 => AwwasmValue::I32(0),
            AwwasmValueType::I64 => AwwasmValue::I64(0),
            AwwasmValueType::F32 => AwwasmValue::F32(0),
            AwwasmValueType::F64 => AwwasmValue::F64(0),
        }
    }

    /// Get the type of this value.
    pub fn value_type(&self) -> (r: AwwasmValueType)
        ensures
            r == self.spec_value_type(),
    {
        match self {
            AwwasmValue::I32(_) => AwwasmValueType::I32,
            AwwasmValue::I64(_) => AwwasmValueType::I64,
            AwwasmValue::F32(_) => AwwasmValueType::F32,
            AwwasmValue::F64(_) => AwwasmValueType::F64,
        }
    }

    /// Try to get an i32 value.
    pub fn as_i32(&self) -> (r: Option<i32>)
        ensures
            r == match *self {
                AwwasmValue::I32(v) => Some(v),
                _ => None::<i32>,
            },
    {
        match self {
            AwwasmValue::I32(v) => Some(*v),
            _ => None,
        }
    }

    /// Try to get an i64 value.
    pub fn as_i64(&self) -> (r: Option<i64>)
        ensures
            r == match *self {
                AwwasmValue::I64(v) => Some(v),
                _ => None::<i64>,
            },
    {
        match self {
            AwwasmValue::I64(v) => Some(*v),
            _ => None,
        }
    }

    /// Try to get an f32 value, as its bit pattern.
    pub fn as_f32(&self) -> (r: Option<u32>)
        ensures
            r == match *self {
                AwwasmValue::F32(v) => Some(v),
                _ => None::<u32>,
            },
    {
        match self {
            AwwasmValue::F32(v) => Some(*v),
            _ => None,
        }
    }

    /// Try to get an f64 value, as its bit pattern.
    pub fn as_f64(&self) -> (r: Option<u64>)
        ensures
            r == match *self {
                AwwasmValue::F64(v) => Some(v),
                _ => None::<u64>,
            },
    {
        match self {
            AwwasmValue::F64(v) => Some(*v),
            _ => None,
        }
    }
}

/// Address of a function instance in the Store.
#[derive(Debug, Clone, Copy, PartialEq, Eq, Hash, Default, Structural)]
pub struct AwwasmFuncAddr(pub u32);

/// Address of a table instance in the Store.
#[derive(Debug, Clone, Copy, PartialEq, Eq, Hash, Default, Structural)]
pub struct AwwasmTableAddr(pub u32);

/// Address of a memory instance in the Store.
#[derive(Debug, Clone, Copy, PartialEq, Eq, Hash, Default, Structural)]
pub struct AwwasmMemAddr(pub u32);

/// Address of a global instance in the Store.
#[derive(Debug, Clone, Copy, PartialEq, Eq, Hash, Default, Structural)]
pub struct AwwasmGlobalAddr(pub u32);

/// Address of an element instance in the Store.
#[derive(Debug, Clone, Copy, PartialEq, Eq, Hash, Default, Structural)]
pub struct AwwasmElemAddr(pub u32);

/// Address of a data instance in the Store.
#[derive(Debug, Clone, Copy, PartialEq, Eq, Hash, Default, Structural)]
pub struct AwwasmDataAddr(pub u32);

/// Address of a module instance in the Store.
#[derive(Debug, Clone, Copy, PartialEq, Eq, Hash, Default, Structural)]
pub struct AwwasmModuleAddr(pub u32);

/// External address - the runtime address of an entity that can cross
/// module boundaries through imports and exports.
#[derive(Debug, Clone, Copy, PartialEq, Eq, Structural)]
pub enum AwwasmExternAddr {
    /// Function reference
    Func(AwwasmFuncAddr),
    /// Table reference
    Table(AwwasmTableAddr),
    /// Memory reference
    Mem(AwwasmMemAddr),
    /// Global reference
    Global(AwwasmGlobalAddr),
}

impl From<AwwasmFuncAddr> for AwwasmExternAddr {
    fn from(addr: AwwasmFuncAddr) -> (r: Self) {
        AwwasmExternAddr::Func(addr)
    }
}

impl vstd::std_specs::convert::FromSpecImpl<AwwasmFuncAddr> for AwwasmExternAddr {
    open spec fn obeys_from_spec() -> bool {
        true
    }

    open spec fn from_spec(addr: AwwasmFuncAddr) -> Self {
        AwwasmExternAddr::Func(addr)
    }
}

impl From<AwwasmTableAddr> for AwwasmExternAddr {
    fn from(addr: AwwasmTableAddr) -> (r: Self) {
        AwwasmExternAddr::Table(addr)
    }
}

impl vstd::std_specs::convert::FromSpecImpl<AwwasmTableAddr> for AwwasmExternAddr {
    open spec fn obeys_from_spec() -> bool {
        true
    }

    open spec fn from_spec(addr: AwwasmTableAddr) -> Self {
        AwwasmExternAddr::Table(addr)
    }
}

impl From<AwwasmMemAddr> for AwwasmExternAddr {
    fn from(addr: AwwasmMemAddr) -> (r: Self) {
        AwwasmExternAddr::Mem(addr)
    }
}

impl vstd::std_specs::convert::FromSpecImpl<AwwasmMemAddr> for AwwasmExternAddr {
    open spec fn obeys_from_spec() -> bool {
        true
    }

    open spec fn from_spec(addr: AwwasmMemAddr) -> Self {
        AwwasmExternAddr::Mem(addr)
    }
}

impl From<AwwasmGlobalAddr> for AwwasmExternAddr {
    fn from(addr: AwwasmGlobalAddr) -> (r: Self) {
        AwwasmExternAddr::Global(addr)
    }
}

impl vstd::std_specs::convert::FromSpecImpl<AwwasmGlobalAddr> for AwwasmExternAddr {
    open spec fn obeys_from_spec() -> bool {
        true
    }

    open spec fn from_spec(addr: AwwasmGlobalAddr) -> Self {
        AwwasmExternAddr::Global(addr)
    }
}

} // verus!
