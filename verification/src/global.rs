//! Global instance: a mutability-gated single-value cell.

use vstd::prelude::*;

use crate::values::{AwwasmValue, AwwasmValueType};

verus! {

/// Global type - describes the mutability and value type of a global.
#[derive(Debug, Clone, Copy, PartialEq, Eq, Structural)]
pub struct AwwasmGlobalType {
    /// Whether the global is mutable.
    pub mutable: bool,
    /// The value type of the global.
    pub value_type: AwwasmValueType,
}

impl AwwasmGlobalType {
    /// Create a new immutable global type.
    pub fn immutable(value_type: AwwasmValueType) -> (r: Self)
        ensures
            r == (AwwasmGlobalType { mutable: false, value_type }),
    {
        Self { mutable: false, value_type }
    }

    /// Create a new mutable global type.
    pub fn mutable(value_type: AwwasmValueType) -> (r: Self)
        ensures
            r == (AwwasmGlobalType { mutable: true, value_type }),
    {
        Self { mutable: true, value_type }
    }
}

/// Global instance - runtime representation of a global variable.
#[derive(Debug, Clone, Copy, PartialEq, Eq, Structural)]
pub struct AwwasmGlobalInst {
    /// The global type (mutability + value type).
    pub type_: AwwasmGlobalType,
    /// The current value of the global.
    pub value: AwwasmValue,
}

impl AwwasmGlobalInst {
    /// Create a new global instance.
    pub fn new(type_: AwwasmGlobalType, value: AwwasmValue) -> (r: Self)
        ensures
            r == (AwwasmGlobalInst { type_, value }),
    {
        Self { type_, value }
    }

    /// Get the current value.
    pub fn get(&self) -> (r: AwwasmValue)
        ensures
            r == self.value,
    {
        self.value
    }

    /// Set the value.
    ///
    /// A write to an immutable global is rejected and leaves the value
    /// unchanged; a successful write overwrites the old value.
    pub fn set(&mut self, value: AwwasmValue) -> (r: Result<(), ()>)
        ensures
            old(self).type_.mutable ==> {
                &&& r is Ok
                &&& *final(self) == (AwwasmGlobalInst { type_: old(self).type_, value })
            },
            !old(self).type_.mutable ==> {
                &&& r is Err
                &&& *final(self) == *old(self)
            },
    {
        if !self.type_.mutable {
            return Err(());
        }
        self.value = value;
        Ok(())
    }

    /// Check if this global is mutable.
    pub fn is_mutable(&self) -> (r: bool)
        ensures
            r == self.type_.mutable,
    {
        self.type_.mutable
    }
}

} // verus!
