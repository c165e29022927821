//! Table instance: an indexed array of references with growth, fill,
//! and overlap-safe copy-within.
//!
//! Tables hold references.  Only funcref is functionally exercised,
//! represented as `Option<AwwasmFuncAddr>` where `None` is null.

use vstd::prelude::*;

use crate::values::AwwasmFuncAddr;
use crate::error::AwwasmTrap;

verus! {

/// Table type - describes the limits and element type of a table.
#[derive(Debug, Clone, Copy, PartialEq, Eq, Structural)]
pub struct AwwasmTableType {
    /// Minimum number of elements.
    pub min: u32,
    /// Maximum number of elements (if specified).
    pub max: Option<u32>,
    /// Element type (currently only funcref supported).
    pub elem_type: AwwasmElemType,
}

/// Element type for tables.
#[derive(Debug, Clone, Copy, PartialEq, Eq, Structural)]
pub enum AwwasmElemType {
    /// Function reference.
    FuncRef,
    /// External reference (future).
    ExternRef,
}

impl AwwasmTableType {
    /// Create a new table type for function references.
    pub fn funcref(min: u32, max: Option<u32>) -> (r: Self)
        ensures
            r == (AwwasmTableType { min, max, elem_type: AwwasmElemType::FuncRef }),
    {
        Self { min, max, elem_type: AwwasmElemType::FuncRef }
    }
}

/// Table instance - runtime representation of a table.
#[derive(Debug, Clone)]
pub struct AwwasmTableInst {
    /// The table type (limits + element type).
    pub type_: AwwasmTableType,
    /// The table elements (None = null reference).
    pub elem: Vec<Option<AwwasmFuncAddr>>,
}

impl AwwasmTableInst {
    /// The current size, truncated to the 32-bit handle space the wasm
    /// instructions see (the slot count of any table built and grown
    /// through this interface fits in `u32`).
    pub open spec fn spec_size_u32(self) -> u32 {
        self.elem@.len() as u32
    }

    /// Create a new table instance with the given type.
    ///
    /// Initializes all `min` elements to null.
    pub fn new(type_: AwwasmTableType) -> (r: Self)
        ensures
            r.type_ == type_,
            r.elem@ == Seq::new(type_.min as nat, |i: int| None::<AwwasmFuncAddr>),
    {
        let size: usize = type_.min as usize;
        let mut elem: Vec<Option<AwwasmFuncAddr>> = Vec::new();
        while elem.len() < size
            invariant
                elem@.len() <= size as nat,
                forall|j: int| 0 <= j < elem@.len() ==> elem@[j] is None,
            decreases size - elem@.len(),
        {
            elem.push(None);
        }
        proof {
            assert(elem@ =~= Seq::new(type_.min as nat, |i: int| None::<AwwasmFuncAddr>));
        }
        Self { type_, elem }
    }

    /// Get the current size.
    pub fn size(&self) -> (r: u32)
        requires
            self.elem@.len() <= u32::MAX,
        ensures
            r as int == self.elem@.len(),
    {
        self.elem.len() as u32
    }

    /// Get an element at the given index; traps when the index is out
    /// of bounds.
    pub fn get(&self, index: u32) -> (r: Result<Option<AwwasmFuncAddr>, AwwasmTrap>)
        ensures
            r is Ok <==> index < self.elem@.len(),
            index < self.elem@.len() ==> r == Ok::<_, AwwasmTrap>(self.elem@[index as int]),
            index >= self.elem@.len() ==> r == Err::<Option<AwwasmFuncAddr>, _>(
                AwwasmTrap::TableOutOfBounds { index, table_size: self.spec_size_u32() },
            ),
    {
        let idx = index as usize;
        if idx >= self.elem.len() {
            return Err(AwwasmTrap::TableOutOfBounds {
                index,
                table_size: #[verifier::truncate] (self.elem.len() as u32),
            });
        }
        Ok(self.elem[idx])
    }

    /// Set an element at the given index; traps when the index is out
    /// of bounds.
    pub fn set(&mut self, index: u32, value: Option<AwwasmFuncAddr>) -> (r: Result<
        (),
        AwwasmTrap,
    >)
        ensures
            r is Ok <==> index < old(self).elem@.len(),
            index < old(self).elem@.len() ==> {
                &&& final(self).type_ == old(self).type_
                &&& final(self).elem@ == old(self).elem@.update(index as int, value)
            },
            index >= old(self).elem@.len() ==> {
                &&& *final(self) == *old(self)
                &&& r == Err::<(), _>(AwwasmTrap::TableOutOfBounds {
                    index,
                    table_size: old(self).spec_size_u32(),
                })
            },
    {
        let idx = index as usize;
        if idx >= self.elem.len() {
            return Err(AwwasmTrap::TableOutOfBounds {
                index,
                table_size: #[verifier::truncate] (self.elem.len() as u32),
            });
        }
        self.elem[idx] = value;
        Ok(())
    }

    /// Grow the table by the given number of elements, filling the new
    /// slots with `init`.
    ///
    /// Returns the previous size on success, or `None` — with the table
    /// unchanged — when growth would exceed the maximum or overflow the
    /// 32-bit size.
    pub fn grow(&mut self, delta: u32, init: Option<AwwasmFuncAddr>) -> (r: Option<u32>)
        requires
            old(self).elem@.len() <= u32::MAX,
        ensures
            final(self).type_ == old(self).type_,
            r is Some <==> {
                &&& old(self).elem@.len() + delta <= u32::MAX
                &&& (old(self).type_.max matches Some(max) ==> old(self).elem@.len() + delta
                    <= max)
            },
            r is Some ==> {
                &&& r == Some((old(self).elem@.len() as u32))
                &&& final(self).elem@ == old(self).elem@ + Seq::new(
                    delta as nat,
                    |i: int| init,
                )
            },
            r is None ==> *final(self) == *old(self),
    {
        let old_size: u32 = self.elem.len() as u32;
        let new_size_wide: u64 = old_size as u64 + delta as u64;
        if new_size_wide > u32::MAX as u64 {
            return None;
        }
        let new_size: u32 = new_size_wide as u32;

        if let Some(max) = self.type_.max {
            if new_size > max {
                return None;
            }
        }

        let ghost old_elem = self.elem@;
        let mut i: u32 = 0;
        while i < delta
            invariant
                0 <= i <= delta,
                old_size + delta <= u32::MAX,
                self.type_ == old(self).type_,
                self.elem@ == old_elem + Seq::new(i as nat, |j: int| init),
            decreases delta - i,
        {
            self.elem.push(init);
            proof {
                assert(self.elem@ =~= old_elem + Seq::new((i + 1) as nat, |j: int| init));
            }
            i = i + 1;
        }
        Some(old_size)
    }

    /// Fill `count` slots starting at `offset` with `value`; traps when
    /// the range does not lie within the table.
    pub fn fill(&mut self, offset: u32, value: Option<AwwasmFuncAddr>, count: u32) -> (r: Result<
        (),
        AwwasmTrap,
    >)
        ensures
            r is Ok <==> offset + count <= old(self).elem@.len(),
            offset + count <= old(self).elem@.len() ==> {
                &&& final(self).type_ == old(self).type_
                &&& final(self).elem@.len() == old(self).elem@.len()
                &&& forall|j: int|
                    offset <= j < offset + count ==> final(self).elem@[j] == value
                &&& forall|j: int|
                    0 <= j < old(self).elem@.len() && !(offset <= j < offset + count)
                        ==> final(self).elem@[j] == old(self).elem@[j]
            },
            offset + count > old(self).elem@.len() ==> {
                &&& *final(self) == *old(self)
                &&& r == Err::<(), _>(AwwasmTrap::TableOutOfBounds {
                    index: ((offset + count - 1) as u32),
                    table_size: old(self).spec_size_u32(),
                })
            },
    {
        let end_wide: u64 = offset as u64 + count as u64;
        if end_wide > self.elem.len() as u64 {
            return Err(AwwasmTrap::TableOutOfBounds {
                index: #[verifier::truncate] ((offset as u64 + count as u64 - 1) as u32),
                table_size: #[verifier::truncate] (self.elem.len() as u32),
            });
        }
        let start = offset as usize;
        let count_us = count as usize;
        let mut i: usize = 0;
        while i < count_us
            invariant
                0 <= i <= count_us,
                count_us == count,
                start == offset,
                offset + count <= usize::MAX,
                offset + count <= old(self).elem@.len(),
                self.type_ == old(self).type_,
                self.elem@.len() == old(self).elem@.len(),
                forall|j: int| start <= j < start + i ==> self.elem@[j] == value,
                forall|j: int|
                    0 <= j < old(self).elem@.len() && !(start <= j < start + i)
                        ==> self.elem@[j] == old(self).elem@[j],
            decreases count_us - i,
        {
            self.elem[start + i] = value;
            i = i + 1;
        }
        Ok(())
    }

    /// Copy `count` slots from `src` to `dst` within the table,
    /// preserving source values when the ranges overlap; traps when
    /// either range does not lie within the table.
    pub fn copy_within(&mut self, dst: u32, src: u32, count: u32) -> (r: Result<(), AwwasmTrap>)
        ensures
            r is Ok <==> src + count <= old(self).elem@.len() && dst + count <= old(
                self,
            ).elem@.len(),
            r is Ok ==> {
                &&& final(self).type_ == old(self).type_
                &&& final(self).elem@.len() == old(self).elem@.len()
                &&& forall|j: int|
                    0 <= j < count ==> #[trigger] final(self).elem@[dst + j] == old(
                        self,
                    ).elem@[src + j]
                &&& forall|j: int|
                    0 <= j < old(self).elem@.len() && !(dst <= j < dst + count)
                        ==> final(self).elem@[j] == old(self).elem@[j]
            },
            src + count > old(self).elem@.len() ==> {
                &&& *final(self) == *old(self)
                &&& r == Err::<(), _>(AwwasmTrap::TableOutOfBounds {
                    index: src,
                    table_size: old(self).spec_size_u32(),
                })
            },
            src + count <= old(self).elem@.len() && dst + count > old(self).elem@.len() ==> {
                &&& *final(self) == *old(self)
                &&& r == Err::<(), _>(AwwasmTrap::TableOutOfBounds {
                    index: dst,
                    table_size: old(self).spec_size_u32(),
                })
            },
    {
        let len_wide: u64 = self.elem.len() as u64;
        if src as u64 + count as u64 > len_wide {
            return Err(AwwasmTrap::TableOutOfBounds {
                index: src,
                table_size: #[verifier::truncate] (self.elem.len() as u32),
            });
        }
        if dst as u64 + count as u64 > len_wide {
            return Err(AwwasmTrap::TableOutOfBounds {
                index: dst,
                table_size: #[verifier::truncate] (self.elem.len() as u32),
            });
        }

        let src_us = src as usize;
        let dst_us = dst as usize;
        let count_us = count as usize;

        // Materialize the source range first, so overlapping ranges
        // behave like a memmove.
        let mut scratch: Vec<Option<AwwasmFuncAddr>> = Vec::new();
        let mut i: usize = 0;
        while i < count_us
            invariant
                0 <= i <= count_us,
                src_us + count_us <= usize::MAX,
                src_us + count_us <= self.elem@.len(),
                scratch@.len() == i,
                forall|j: int| 0 <= j < i ==> scratch@[j] == self.elem@[src_us + j],
            decreases count_us - i,
        {
            scratch.push(self.elem[src_us + i]);
            i = i + 1;
        }

        let mut k: usize = 0;
        while k < count_us
            invariant
                0 <= k <= count_us,
                src_us == src && dst_us == dst && count_us == count,
                src + count <= usize::MAX,
                dst + count <= usize::MAX,
                src + count <= old(self).elem@.len(),
                dst + count <= old(self).elem@.len(),
                scratch@.len() == count_us,
                forall|j: int| 0 <= j < count_us ==> scratch@[j] == old(self).elem@[src + j],
                self.type_ == old(self).type_,
                self.elem@.len() == old(self).elem@.len(),
                forall|j: int| 0 <= j < k ==> self.elem@[dst + j] == scratch@[j],
                forall|j: int|
                    0 <= j < old(self).elem@.len() && !(dst <= j < dst + k)
                        ==> self.elem@[j] == old(self).elem@[j],
            decreases count_us - k,
        {
            self.elem[dst_us + k] = scratch[k];
            k = k + 1;
        }
        proof {
            assert forall|j: int| 0 <= j < count implies #[trigger] self.elem@[dst + j] == old(
                self,
            ).elem@[src + j] by {
                assert(self.elem@[dst + j] == scratch@[j]);
            }
        }
        Ok(())
    }
}

} // verus!
