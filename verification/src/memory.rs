//! Memory instance: linear byte memory with page-granular growth and
//! trapping accessors.
//!
//! The buffer length is always a whole multiple of the page size.
//! Every access computes its end in 64-bit arithmetic, so an overflowing
//! `offset + size` is out of bounds rather than wrapped.  Multi-byte
//! accessors use little-endian encoding; the `f32` / `f64` accessors
//! work on IEEE 754 bit patterns (`u32` / `u64`).

use vstd::prelude::*;

use crate::error::AwwasmTrap;

verus! {

/// WebAssembly page size in bytes (64 KiB).
pub const PAGE_SIZE: usize = 65536;

/// Hard ceiling on the page count: 2^16 pages, the 4 GiB limit of the
/// 32-bit memory model.
pub const MAX_PAGES: u32 = 65536;

/// Memory type - describes the limits of a memory.
#[derive(Debug, Clone, Copy, PartialEq, Eq, Structural)]
pub struct AwwasmMemoryType {
    /// Minimum number of pages.
    pub min: u32,
    /// Maximum number of pages (if specified).
    pub max: Option<u32>,
}

impl AwwasmMemoryType {
    /// Create a new memory type.
    pub fn new(min: u32, max: Option<u32>) -> (r: Self)
        ensures
            r == (AwwasmMemoryType { min, max }),
    {
        Self { min, max }
    }

    /// Limits that a memory instance can actually be created with: the
    /// minimum respects the maximum and the 4 GiB ceiling, and the
    /// initial buffer fits the address space.
    pub open spec fn spec_valid_limits(self) -> bool {
        &&& self.min <= MAX_PAGES
        &&& (self.max matches Some(m) ==> self.min <= m)
        &&& self.min * PAGE_SIZE <= usize::MAX
    }

    /// Check whether a memory instance can be created with these limits.
    pub fn valid_limits(&self) -> (r: bool)
        ensures
            r == self.spec_valid_limits(),
    {
        if self.min > MAX_PAGES {
            return false;
        }
        if let Some(m) = self.max {
            if self.min > m {
                return false;
            }
        }
        (self.min as u64) * (PAGE_SIZE as u64) <= usize::MAX as u64
    }
}

/// The bytes `s` with the range starting at `offset` overwritten by `b`
/// (everything else unchanged).
pub open spec fn spec_write_bytes(s: Seq<u8>, offset: int, b: Seq<u8>) -> Seq<u8> {
    Seq::new(
        s.len(),
        |i: int|
            if offset <= i < offset + b.len() {
                b[i - offset]
            } else {
                s[i]
            },
    )
}

/// A 32-bit integer decoded from four little-endian bytes, by two's
/// complement reinterpretation of the unsigned decoding.
pub open spec fn spec_i32_from_le_bytes(s: Seq<u8>) -> i32 {
    vstd::bytes::spec_u32_from_le_bytes(s) as i32
}

/// The four little-endian bytes of a 32-bit integer.
pub open spec fn spec_i32_to_le_bytes(v: i32) -> Seq<u8> {
    vstd::bytes::spec_u32_to_le_bytes(v as u32)
}

/// A 64-bit integer decoded from eight little-endian bytes, by two's
/// complement reinterpretation of the unsigned decoding.
pub open spec fn spec_i64_from_le_bytes(s: Seq<u8>) -> i64 {
    vstd::bytes::spec_u64_from_le_bytes(s) as i64
}

/// The eight little-endian bytes of a 64-bit integer.
pub open spec fn spec_i64_to_le_bytes(v: i64) -> Seq<u8> {
    vstd::bytes::spec_u64_to_le_bytes(v as u64)
}

/// Little-endian round trip for 32-bit integers: decoding the encoding
/// of any value yields that value.
pub proof fn lemma_i32_le_bytes_round_trip(v: i32)
    ensures
        spec_i32_to_le_bytes(v).len() == 4,
        spec_i32_from_le_bytes(spec_i32_to_le_bytes(v)) == v,
{
    vstd::bytes::lemma_auto_spec_u32_to_from_le_bytes();
    let u = v as u32;
    assert(vstd::bytes::spec_u32_to_le_bytes(u).len() == 4);
    assert(vstd::bytes::spec_u32_from_le_bytes(vstd::bytes::spec_u32_to_le_bytes(u)) == u);
    assert((v as u32) as i32 == v) by (bit_vector);
}

/// Little-endian round trip for 64-bit integers.
pub proof fn lemma_i64_le_bytes_round_trip(v: i64)
    ensures
        spec_i64_to_le_bytes(v).len() == 8,
        spec_i64_from_le_bytes(spec_i64_to_le_bytes(v)) == v,
{
    vstd::bytes::lemma_auto_spec_u64_to_from_le_bytes();
    let u = v as u64;
    assert(vstd::bytes::spec_u64_to_le_bytes(u).len() == 8);
    assert(vstd::bytes::spec_u64_from_le_bytes(vstd::bytes::spec_u64_to_le_bytes(u)) == u);
    assert((v as u64) as i64 == v) by (bit_vector);
}

/// Memory instance - runtime representation of linear memory.
#[derive(Debug, Clone)]
pub struct AwwasmMemInst {
    /// The memory type (limits).
    pub type_: AwwasmMemoryType,
    /// The raw bytes of memory.
    pub data: Vec<u8>,
}

impl AwwasmMemInst {
    /// The current page count.
    pub open spec fn spec_pages(self) -> nat {
        self.data@.len() / (PAGE_SIZE as nat)
    }

    /// The buffer length as the 32-bit count the wasm instructions see
    /// (it wraps only for the unreachable 4 GiB buffer).
    pub open spec fn spec_size_u32(self) -> u32 {
        self.data@.len() as u32
    }

    /// Well-formedness: the buffer is page-aligned and its page count
    /// lies between the declared minimum, the declared maximum (when
    /// present), and the 4 GiB ceiling.
    pub open spec fn wf(self) -> bool {
        &&& self.data@.len() % (PAGE_SIZE as nat) == 0
        &&& self.type_.min <= self.spec_pages()
        &&& (self.type_.max matches Some(m) ==> self.spec_pages() <= m)
        &&& self.spec_pages() <= MAX_PAGES
    }

    /// Create a new memory instance with the given type, holding `min`
    /// pages of zeroed memory.
    pub fn new(type_: AwwasmMemoryType) -> (r: Self)
        requires
            type_.spec_valid_limits(),
        ensures
            r.type_ == type_,
            r.data@ == Seq::new((type_.min * PAGE_SIZE) as nat, |i: int| 0u8),
            r.wf(),
    {
        let size: usize = (type_.min as usize) * PAGE_SIZE;
        let mut data: Vec<u8> = Vec::new();
        while data.len() < size
            invariant
                data@.len() <= size as nat,
                forall|j: int| 0 <= j < data@.len() ==> data@[j] == 0u8,
            decreases size - data@.len(),
        {
            data.push(0u8);
        }
        proof {
            assert(data@ =~= Seq::new((type_.min * PAGE_SIZE) as nat, |i: int| 0u8));
            assert((type_.min * PAGE_SIZE) as nat % (PAGE_SIZE as nat) == 0) by (nonlinear_arith);
            assert((type_.min * PAGE_SIZE) as nat / (PAGE_SIZE as nat) == type_.min)
                by (nonlinear_arith);
        }
        Self { type_, data }
    }

    /// Get the current size in pages.
    pub fn size_pages(&self) -> (r: u32)
        requires
            self.wf(),
        ensures
            r == self.spec_pages(),
    {
        (self.data.len() / PAGE_SIZE) as u32
    }

    /// Get the current size in bytes.
    pub fn size_bytes(&self) -> (r: usize)
        ensures
            r == self.data@.len(),
    {
        self.data.len()
    }

    /// Grow the memory by the given number of pages, zero-filling the
    /// new tail.
    ///
    /// Returns the previous size in pages on success; returns `None` —
    /// with the memory unchanged — when growth would exceed the declared
    /// maximum, the 4 GiB ceiling, or the address space.  The page count
    /// never decreases.
    pub fn grow(&mut self, delta: u32) -> (r: Option<u32>)
        requires
            old(self).wf(),
        ensures
            final(self).wf(),
            final(self).type_ == old(self).type_,
            final(self).spec_pages() >= old(self).spec_pages(),
            final(self).data@.len() % (PAGE_SIZE as nat) == 0,
            r is Some <==> {
                &&& old(self).spec_pages() + delta <= MAX_PAGES
                &&& (old(self).type_.max matches Some(m) ==> old(self).spec_pages() + delta
                    <= m)
                &&& (old(self).spec_pages() + delta) * PAGE_SIZE <= usize::MAX
            },
            r is Some ==> {
                &&& r == Some((old(self).spec_pages() as u32))
                &&& final(self).spec_pages() == old(self).spec_pages() + delta
                &&& final(self).data@ == old(self).data@ + Seq::new(
                    (delta * PAGE_SIZE) as nat,
                    |i: int| 0u8,
                )
            },
            r is None ==> *final(self) == *old(self),
    {
        proof {
            vstd::arithmetic::div_mod::lemma_fundamental_div_mod(
                self.data@.len() as int,
                PAGE_SIZE as int,
            );
        }
        let old_pages: u32 = (self.data.len() / PAGE_SIZE) as u32;
        let new_pages_wide: u64 = old_pages as u64 + delta as u64;
        if new_pages_wide > MAX_PAGES as u64 {
            return None;
        }
        if let Some(max) = self.type_.max {
            if new_pages_wide > max as u64 {
                return None;
            }
        }
        let new_size_wide: u64 = new_pages_wide * (PAGE_SIZE as u64);
        if new_size_wide > usize::MAX as u64 {
            return None;
        }
        let new_size: usize = new_size_wide as usize;

        let ghost old_data = self.data@;
        while self.data.len() < new_size
            invariant
                self.type_ == old(self).type_,
                old_data.len() <= self.data@.len() <= new_size as nat,
                self.data@.subrange(0, old_data.len() as int) == old_data,
                forall|j: int| old_data.len() <= j < self.data@.len() ==> self.data@[j] == 0u8,
            decreases new_size - self.data@.len(),
        {
            self.data.push(0u8);
            proof {
                assert(self.data@.subrange(0, old_data.len() as int) =~= old_data);
            }
        }
        proof {
            assert(self.data@ =~= old_data + Seq::new(
                (delta * PAGE_SIZE) as nat,
                |i: int| 0u8,
            ));
            assert((new_size as nat) % (PAGE_SIZE as nat) == 0 && (new_size as nat) / (
            PAGE_SIZE as nat) == old_pages + delta) by (nonlinear_arith)
                requires
                    new_size == (old_pages + delta) * (PAGE_SIZE as int),
            ;
        }
        Some(old_pages)
    }

    /// Read `size` bytes starting at `offset`; traps when the range does
    /// not lie within the buffer.  A zero-size read at the very end is
    /// permitted.
    pub fn read(&self, offset: u32, size: u32) -> (r: Result<&[u8], AwwasmTrap>)
        ensures
            r is Ok <==> offset + size <= self.data@.len(),
            r matches Ok(b) ==> b@ == self.data@.subrange(
                offset as int,
                offset as int + size as int,
            ),
            offset + size > self.data@.len() ==> r == Err::<&[u8], _>(
                AwwasmTrap::MemoryOutOfBounds {
                    offset,
                    size,
                    memory_size: self.spec_size_u32(),
                },
            ),
    {
        let end_wide: u64 = offset as u64 + size as u64;
        if end_wide > self.data.len() as u64 {
            return Err(AwwasmTrap::MemoryOutOfBounds {
                offset,
                size,
                memory_size: #[verifier::truncate] (self.data.len() as u32),
            });
        }
        Ok(vstd::slice::slice_subrange(
            self.data.as_slice(),
            offset as usize,
            offset as usize + size as usize,
        ))
    }

    /// Write the given bytes starting at `offset`; traps — leaving the
    /// memory unchanged — when the range does not lie within the buffer.
    pub fn write(&mut self, offset: u32, data: &[u8]) -> (r: Result<(), AwwasmTrap>)
        ensures
            r is Ok <==> offset + data@.len() <= old(self).data@.len(),
            r is Ok ==> {
                &&& final(self).type_ == old(self).type_
                &&& final(self).data@ == spec_write_bytes(
                    old(self).data@,
                    offset as int,
                    data@,
                )
            },
            offset + data@.len() > old(self).data@.len() ==> {
                &&& *final(self) == *old(self)
                &&& r == Err::<(), _>(AwwasmTrap::MemoryOutOfBounds {
                    offset,
                    size: data@.len() as u32,
                    memory_size: old(self).spec_size_u32(),
                })
            },
    {
        let len_wide: u64 = self.data.len() as u64;
        let n_wide: u64 = data.len() as u64;
        if n_wide > len_wide || offset as u64 > len_wide - n_wide {
            return Err(AwwasmTrap::MemoryOutOfBounds {
                offset,
                size: #[verifier::truncate] (data.len() as u32),
                memory_size: #[verifier::truncate] (self.data.len() as u32),
            });
        }
        let start = offset as usize;
        let n = data.len();
        let mut i: usize = 0;
        while i < n
            invariant
                0 <= i <= n,
                n == data@.len(),
                start == offset,
                offset + n <= old(self).data@.len(),
                offset + n <= usize::MAX,
                self.type_ == old(self).type_,
                self.data@.len() == old(self).data@.len(),
                forall|j: int|
                    start <= j < start + i ==> #[trigger] self.data@[j] == data@[j - start],
                forall|j: int|
                    0 <= j < old(self).data@.len() && !(start <= j < start + i)
                        ==> self.data@[j] == old(self).data@[j],
            decreases n - i,
        {
            self.data[start + i] = data[i];
            i = i + 1;
        }
        proof {
            assert(self.data@ =~= spec_write_bytes(old(self).data@, offset as int, data@));
        }
        Ok(())
    }

    /// Read a single byte from memory.
    pub fn read_u8(&self, offset: u32) -> (r: Result<u8, AwwasmTrap>)
        ensures
            r is Ok <==> offset + 1 <= self.data@.len(),
            offset + 1 <= self.data@.len() ==> r == Ok::<_, AwwasmTrap>(
                self.data@[offset as int],
            ),
            offset + 1 > self.data@.len() ==> r == Err::<u8, _>(AwwasmTrap::MemoryOutOfBounds {
                offset,
                size: 1,
                memory_size: self.spec_size_u32(),
            }),
    {
        let bytes = self.read(offset, 1)?;
        Ok(bytes[0])
    }

    /// Write a single byte to memory.
    pub fn write_u8(&mut self, offset: u32, value: u8) -> (r: Result<(), AwwasmTrap>)
        ensures
            r is Ok <==> offset + 1 <= old(self).data@.len(),
            offset + 1 <= old(self).data@.len() ==> {
                &&& final(self).type_ == old(self).type_
                &&& final(self).data@ == old(self).data@.update(offset as int, value)
            },
            offset + 1 > old(self).data@.len() ==> {
                &&& *final(self) == *old(self)
                &&& r == Err::<(), _>(AwwasmTrap::MemoryOutOfBounds {
                    offset,
                    size: 1,
                    memory_size: old(self).spec_size_u32(),
                })
            },
    {
        if offset as u64 + 1 > self.data.len() as u64 {
            return Err(AwwasmTrap::MemoryOutOfBounds {
                offset,
                size: 1,
                memory_size: #[verifier::truncate] (self.data.len() as u32),
            });
        }
        self.data[offset as usize] = value;
        Ok(())
    }

    /// Read an i32 from memory (little-endian).
    pub fn read_i32(&self, offset: u32) -> (r: Result<i32, AwwasmTrap>)
        ensures
            r is Ok <==> offset + 4 <= self.data@.len(),
            offset + 4 <= self.data@.len() ==> r == Ok::<_, AwwasmTrap>(
                spec_i32_from_le_bytes(
                    self.data@.subrange(offset as int, offset as int + 4),
                ),
            ),
            offset + 4 > self.data@.len() ==> r == Err::<i32, _>(
                AwwasmTrap::MemoryOutOfBounds {
                    offset,
                    size: 4,
                    memory_size: self.spec_size_u32(),
                },
            ),
    {
        let bytes = self.read(offset, 4)?;
        let x = vstd::bytes::u32_from_le_bytes(bytes);
        Ok(#[verifier::truncate] (x as i32))
    }

    /// Write an i32 to memory (little-endian).
    pub fn write_i32(&mut self, offset: u32, value: i32) -> (r: Result<(), AwwasmTrap>)
        ensures
            r is Ok <==> offset + 4 <= old(self).data@.len(),
            r is Ok ==> {
                &&& final(self).type_ == old(self).type_
                &&& final(self).data@ == spec_write_bytes(
                    old(self).data@,
                    offset as int,
                    spec_i32_to_le_bytes(value),
                )
            },
            offset + 4 > old(self).data@.len() ==> {
                &&& *final(self) == *old(self)
                &&& r == Err::<(), _>(AwwasmTrap::MemoryOutOfBounds {
                    offset,
                    size: 4,
                    memory_size: old(self).spec_size_u32(),
                })
            },
    {
        let bytes = vstd::bytes::u32_to_le_bytes(#[verifier::truncate] (value as u32));
        self.write(offset, bytes.as_slice())
    }

    /// Read an i64 from memory (little-endian).
    pub fn read_i64(&self, offset: u32) -> (r: Result<i64, AwwasmTrap>)
        ensures
            r is Ok <==> offset + 8 <= self.data@.len(),
            offset + 8 <= self.data@.len() ==> r == Ok::<_, AwwasmTrap>(
                spec_i64_from_le_bytes(
                    self.data@.subrange(offset as int, offset as int + 8),
                ),
            ),
            offset + 8 > self.data@.len() ==> r == Err::<i64, _>(
                AwwasmTrap::MemoryOutOfBounds {
                    offset,
                    size: 8,
                    memory_size: self.spec_size_u32(),
                },
            ),
    {
        let bytes = self.read(offset, 8)?;
        let x = vstd::bytes::u64_from_le_bytes(bytes);
        Ok(#[verifier::truncate] (x as i64))
    }

    /// Write an i64 to memory (little-endian).
    pub fn write_i64(&mut self, offset: u32, value: i64) -> (r: Result<(), AwwasmTrap>)
        ensures
            r is Ok <==> offset + 8 <= old(self).data@.len(),
            r is Ok ==> {
                &&& final(self).type_ == old(self).type_
                &&& final(self).data@ == spec_write_bytes(
                    old(self).data@,
                    offset as int,
                    spec_i64_to_le_bytes(value),
                )
            },
            offset + 8 > old(self).data@.len() ==> {
                &&& *final(self) == *old(self)
                &&& r == Err::<(), _>(AwwasmTrap::MemoryOutOfBounds {
                    offset,
                    size: 8,
                    memory_size: old(self).spec_size_u32(),
                })
            },
    {
        let bytes = vstd::bytes::u64_to_le_bytes(#[verifier::truncate] (value as u64));
        self.write(offset, bytes.as_slice())
    }

    /// Read an f32 from memory (little-endian), as its IEEE 754 bit
    /// pattern.
    pub fn read_f32(&self, offset: u32) -> (r: Result<u32, AwwasmTrap>)
        ensures
            r is Ok <==> offset + 4 <= self.data@.len(),
            offset + 4 <= self.data@.len() ==> r == Ok::<_, AwwasmTrap>(
                vstd::bytes::spec_u32_from_le_bytes(
                    self.data@.subrange(offset as int, offset as int + 4),
                ),
            ),
            offset + 4 > self.data@.len() ==> r == Err::<u32, _>(
                AwwasmTrap::MemoryOutOfBounds {
                    offset,
                    size: 4,
                    memory_size: self.spec_size_u32(),
                },
            ),
    {
        let bytes = self.read(offset, 4)?;
        Ok(vstd::bytes::u32_from_le_bytes(bytes))
    }

    /// Write an f32 to memory (little-endian), given as its IEEE 754
    /// bit pattern.
    pub fn write_f32(&mut self, offset: u32, value: u32) -> (r: Result<(), AwwasmTrap>)
        ensures
            r is Ok <==> offset + 4 <= old(self).data@.len(),
            r is Ok ==> {
                &&& final(self).type_ == old(self).type_
                &&& final(self).data@ == spec_write_bytes(
                    old(self).data@,
                    offset as int,
                    vstd::bytes::spec_u32_to_le_bytes(value),
                )
            },
            offset + 4 > old(self).data@.len() ==> {
                &&& *final(self) == *old(self)
                &&& r == Err::<(), _>(AwwasmTrap::MemoryOutOfBounds {
                    offset,
                    size: 4,
                    memory_size: old(self).spec_size_u32(),
                })
            },
    {
        let bytes = vstd::bytes::u32_to_le_bytes(value);
        self.write(offset, bytes.as_slice())
    }

    /// Read an f64 from memory (little-endian), as its IEEE 754 bit
    /// pattern.
    pub fn read_f64(&self, offset: u32) -> (r: Result<u64, AwwasmTrap>)
        ensures
            r is Ok <==> offset + 8 <= self.data@.len(),
            offset + 8 <= self.data@.len() ==> r == Ok::<_, AwwasmTrap>(
                vstd::bytes::spec_u64_from_le_bytes(
                    self.data@.subrange(offset as int, offset as int + 8),
                ),
            ),
            offset + 8 > self.data@.len() ==> r == Err::<u64, _>(
                AwwasmTrap::MemoryOutOfBounds {
                    offset,
                    size: 8,
                    memory_size: self.spec_size_u32(),
                },
            ),
    {
        let bytes = self.read(offset, 8)?;
        Ok(vstd::bytes::u64_from_le_bytes(bytes))
    }

    /// Write an f64 to memory (little-endian), given as its IEEE 754
    /// bit pattern.
    pub fn write_f64(&mut self, offset: u32, value: u64) -> (r: Result<(), AwwasmTrap>)
        ensures
            r is Ok <==> offset + 8 <= old(self).data@.len(),
            r is Ok ==> {
                &&& final(self).type_ == old(self).type_
                &&& final(self).data@ == spec_write_bytes(
                    old(self).data@,
                    offset as int,
                    vstd::bytes::spec_u64_to_le_bytes(value),
                )
            },
            offset + 8 > old(self).data@.len() ==> {
                &&& *final(self) == *old(self)
                &&& r == Err::<(), _>(AwwasmTrap::MemoryOutOfBounds {
                    offset,
                    size: 8,
                    memory_size: old(self).spec_size_u32(),
                })
            },
    {
        let bytes = vstd::bytes::u64_to_le_bytes(value);
        self.write(offset, bytes.as_slice())
    }

    /// Fill `size` bytes starting at `offset` with `value`; traps when
    /// the range does not lie within the buffer.
    pub fn fill(&mut self, offset: u32, value: u8, size: u32) -> (r: Result<(), AwwasmTrap>)
        ensures
            r is Ok <==> offset + size <= old(self).data@.len(),
            r is Ok ==> {
                &&& final(self).type_ == old(self).type_
                &&& final(self).data@ == spec_write_bytes(
                    old(self).data@,
                    offset as int,
                    Seq::new(size as nat, |i: int| value),
                )
            },
            offset + size > old(self).data@.len() ==> {
                &&& *final(self) == *old(self)
                &&& r == Err::<(), _>(AwwasmTrap::MemoryOutOfBounds {
                    offset,
                    size,
                    memory_size: old(self).spec_size_u32(),
                })
            },
    {
        let end_wide: u64 = offset as u64 + size as u64;
        if end_wide > self.data.len() as u64 {
            return Err(AwwasmTrap::MemoryOutOfBounds {
                offset,
                size,
                memory_size: #[verifier::truncate] (self.data.len() as u32),
            });
        }
        let start = offset as usize;
        let n = size as usize;
        let mut i: usize = 0;
        while i < n
            invariant
                0 <= i <= n,
                n == size,
                start == offset,
                offset + size <= old(self).data@.len(),
                offset + size <= usize::MAX,
                self.type_ == old(self).type_,
                self.data@.len() == old(self).data@.len(),
                forall|j: int| start <= j < start + i ==> #[trigger] self.data@[j] == value,
                forall|j: int|
                    0 <= j < old(self).data@.len() && !(start <= j < start + i)
                        ==> self.data@[j] == old(self).data@[j],
            decreases n - i,
        {
            self.data[start + i] = value;
            i = i + 1;
        }
        proof {
            assert(self.data@ =~= spec_write_bytes(
                old(self).data@,
                offset as int,
                Seq::new(size as nat, |i: int| value),
            ));
        }
        Ok(())
    }

    /// Copy `size` bytes from `src` to `dst` within memory, behaving
    /// like a `memmove` when the ranges overlap; traps when either range
    /// does not lie within the buffer.
    pub fn copy_within(&mut self, dst: u32, src: u32, size: u32) -> (r: Result<(), AwwasmTrap>)
        ensures
            r is Ok <==> src + size <= old(self).data@.len() && dst + size <= old(
                self,
            ).data@.len(),
            r is Ok ==> {
                &&& final(self).type_ == old(self).type_
                &&& final(self).data@ == spec_write_bytes(
                    old(self).data@,
                    dst as int,
                    old(self).data@.subrange(src as int, src as int + size as int),
                )
            },
            src + size > old(self).data@.len() ==> {
                &&& *final(self) == *old(self)
                &&& r == Err::<(), _>(AwwasmTrap::MemoryOutOfBounds {
                    offset: src,
                    size,
                    memory_size: old(self).spec_size_u32(),
                })
            },
            src + size <= old(self).data@.len() && dst + size > old(self).data@.len() ==> {
                &&& *final(self) == *old(self)
                &&& r == Err::<(), _>(AwwasmTrap::MemoryOutOfBounds {
                    offset: dst,
                    size,
                    memory_size: old(self).spec_size_u32(),
                })
            },
    {
        let len_wide: u64 = self.data.len() as u64;
        if src as u64 + size as u64 > len_wide {
            return Err(AwwasmTrap::MemoryOutOfBounds {
                offset: src,
                size,
                memory_size: #[verifier::truncate] (self.data.len() as u32),
            });
        }
        if dst as u64 + size as u64 > len_wide {
            return Err(AwwasmTrap::MemoryOutOfBounds {
                offset: dst,
                size,
                memory_size: #[verifier::truncate] (self.data.len() as u32),
            });
        }

        let src_us = src as usize;
        let dst_us = dst as usize;
        let n = size as usize;

        // Materialize the source range first, so overlapping ranges
        // behave like a memmove.
        let mut scratch: Vec<u8> = Vec::new();
        let mut i: usize = 0;
        while i < n
            invariant
                0 <= i <= n,
                src_us + n <= usize::MAX,
                src_us + n <= self.data@.len(),
                scratch@.len() == i,
                forall|j: int| 0 <= j < i ==> scratch@[j] == self.data@[src_us + j],
            decreases n - i,
        {
            scratch.push(self.data[src_us + i]);
            i = i + 1;
        }

        let mut k: usize = 0;
        while k < n
            invariant
                0 <= k <= n,
                src_us == src && dst_us == dst && n == size,
                src + size <= usize::MAX,
                dst + size <= usize::MAX,
                src + size <= old(self).data@.len(),
                dst + size <= old(self).data@.len(),
                scratch@.len() == n,
                forall|j: int| 0 <= j < n ==> scratch@[j] == old(self).data@[src + j],
                self.type_ == old(self).type_,
                self.data@.len() == old(self).data@.len(),
                forall|j: int|
                    dst <= j < dst + k ==> #[trigger] self.data@[j] == old(self).data@[src + (j
                        - dst)],
                forall|j: int|
                    0 <= j < old(self).data@.len() && !(dst <= j < dst + k)
                        ==> self.data@[j] == old(self).data@[j],
            decreases n - k,
        {
            self.data[dst_us + k] = scratch[k];
            k = k + 1;
        }
        proof {
            assert(self.data@ =~= spec_write_bytes(
                old(self).data@,
                dst as int,
                old(self).data@.subrange(src as int, src as int + size as int),
            ));
        }
        Ok(())
    }
}

/// Reading back a just-written i32 yields that value: writing
/// `spec_i32_to_le_bytes(v)` at `offset` into any byte sequence and
/// decoding the written range gives `v` again.
pub proof fn lemma_i32_write_read(s: Seq<u8>, offset: u32, v: i32)
    requires
        offset + 4 <= s.len(),
    ensures
        spec_i32_from_le_bytes(
            spec_write_bytes(s, offset as int, spec_i32_to_le_bytes(v)).subrange(
                offset as int,
                offset as int + 4,
            ),
        ) == v,
{
    lemma_i32_le_bytes_round_trip(v);
    assert(spec_write_bytes(s, offset as int, spec_i32_to_le_bytes(v)).subrange(
        offset as int,
        offset as int + 4,
    ) =~= spec_i32_to_le_bytes(v));
}

/// Reading back a just-written i64 yields that value.
pub proof fn lemma_i64_write_read(s: Seq<u8>, offset: u32, v: i64)
    requires
        offset + 8 <= s.len(),
    ensures
        spec_i64_from_le_bytes(
            spec_write_bytes(s, offset as int, spec_i64_to_le_bytes(v)).subrange(
                offset as int,
                offset as int + 8,
            ),
        ) == v,
{
    lemma_i64_le_bytes_round_trip(v);
    assert(spec_write_bytes(s, offset as int, spec_i64_to_le_bytes(v)).subrange(
        offset as int,
        offset as int + 8,
    ) =~= spec_i64_to_le_bytes(v));
}

/// Reading back a just-written f32 bit pattern yields that pattern.
pub proof fn lemma_f32_write_read(s: Seq<u8>, offset: u32, bits: u32)
    requires
        offset + 4 <= s.len(),
    ensures
        vstd::bytes::spec_u32_from_le_bytes(
            spec_write_bytes(
                s,
                offset as int,
                vstd::bytes::spec_u32_to_le_bytes(bits),
            ).subrange(offset as int, offset as int + 4),
        ) == bits,
{
    vstd::bytes::lemma_auto_spec_u32_to_from_le_bytes();
    assert(spec_write_bytes(s, offset as int, vstd::bytes::spec_u32_to_le_bytes(bits)).subrange(
        offset as int,
        offset as int + 4,
    ) =~= vstd::bytes::spec_u32_to_le_bytes(bits));
}

/// Reading back a just-written f64 bit pattern yields that pattern.
pub proof fn lemma_f64_write_read(s: Seq<u8>, offset: u32, bits: u64)
    requires
        offset + 8 <= s.len(),
    ensures
        vstd::bytes::spec_u64_from_le_bytes(
            spec_write_bytes(
                s,
                offset as int,
                vstd::bytes::spec_u64_to_le_bytes(bits),
            ).subrange(offset as int, offset as int + 8),
        ) == bits,
{
    vstd::bytes::lemma_auto_spec_u64_to_from_le_bytes();
    assert(spec_write_bytes(s, offset as int, vstd::bytes::spec_u64_to_le_bytes(bits)).subrange(
        offset as int,
        offset as int + 8,
    ) =~= vstd::bytes::spec_u64_to_le_bytes(bits));
}

} // verus!
