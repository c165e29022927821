//! Import resolution types for module instantiation.
//!
//! The embedder provides imports as `AwwasmImports`, an ordered bag of
//! entries keyed by byte-exact `(module, name)` pairs.  Instantiation
//! consumes the set destructively through `take`.

use vstd::prelude::*;

use crate::func::AwwasmFuncInst;
use crate::global::AwwasmGlobalInst;
use crate::memory::AwwasmMemInst;
use crate::util::bytes_eq;

verus! {

/// A single import entry keyed by (module, name).
#[derive(Debug)]
pub struct AwwasmImportEntry<'a> {
    /// Module name (e.g. "env").
    pub module: &'a [u8],
    /// Field name (e.g. "memory").
    pub name: &'a [u8],
    /// The provided value.
    pub value: AwwasmImportValue<'a>,
}

/// The value provided for an import.
#[derive(Debug)]
pub enum AwwasmImportValue<'a> {
    /// An imported function instance.
    Func(AwwasmFuncInst<'a>),
    /// An imported memory instance.
    Memory(AwwasmMemInst),
    /// An imported global instance.
    Global(AwwasmGlobalInst),
}

/// Whether an entry is keyed by the given (module, name) pair, byte for
/// byte.
pub open spec fn entry_matches(e: AwwasmImportEntry, module: Seq<u8>, name: Seq<u8>) -> bool {
    e.module@ == module && e.name@ == name
}

/// The index of the first entry keyed by (module, name), or -1 when no
/// entry matches.
pub open spec fn spec_find_index(
    entries: Seq<AwwasmImportEntry>,
    module: Seq<u8>,
    name: Seq<u8>,
) -> int
    decreases entries.len(),
{
    if entries.len() == 0 {
        -1
    } else if entry_matches(entries[0], module, name) {
        0
    } else {
        let rest = spec_find_index(entries.drop_first(), module, name);
        if rest < 0 {
            -1
        } else {
            rest + 1
        }
    }
}

/// `spec_find_index` returns -1 exactly when nothing matches, and
/// otherwise the index of the first matching entry.
pub proof fn lemma_find_index(entries: Seq<AwwasmImportEntry>, module: Seq<u8>, name: Seq<u8>)
    ensures
        spec_find_index(entries, module, name) == -1 <==> (forall|j: int|
            0 <= j < entries.len() ==> !entry_matches(entries[j], module, name)),
        spec_find_index(entries, module, name) != -1 ==> {
            &&& 0 <= spec_find_index(entries, module, name) < entries.len()
            &&& entry_matches(entries[spec_find_index(entries, module, name)], module, name)
            &&& forall|j: int|
                0 <= j < spec_find_index(entries, module, name) ==> !entry_matches(
                    entries[j],
                    module,
                    name,
                )
        },
    decreases entries.len(),
{
    if entries.len() != 0 && !entry_matches(entries[0], module, name) {
        let rest = entries.drop_first();
        lemma_find_index(rest, module, name);
        assert forall|j: int| 0 <= j < rest.len() implies rest[j] == entries[j + 1] by {}
        let ri = spec_find_index(rest, module, name);
        if ri == -1 {
            assert forall|j: int| 0 <= j < entries.len() implies !entry_matches(
                entries[j],
                module,
                name,
            ) by {
                if j > 0 {
                    assert(entries[j] == rest[j - 1]);
                }
            }
        } else {
            assert(entries[ri + 1] == rest[ri]);
            assert forall|j: int| 0 <= j < ri + 1 implies !entry_matches(
                entries[j],
                module,
                name,
            ) by {
                if j > 0 {
                    assert(entries[j] == rest[j - 1]);
                }
            }
        }
    }
}

/// Host-provided imports for module instantiation.
///
/// Imports are matched by (module, name) pairs against the module's
/// import section.  The order of entries matters only when two entries
/// share a key: lookups find the first.
#[derive(Debug)]
pub struct AwwasmImports<'a> {
    entries: Vec<AwwasmImportEntry<'a>>,
}

impl<'a> View for AwwasmImports<'a> {
    type V = Seq<AwwasmImportEntry<'a>>;

    closed spec fn view(&self) -> Seq<AwwasmImportEntry<'a>> {
        self.entries@
    }
}

impl<'a> AwwasmImports<'a> {
    /// Create a new empty import set.
    pub fn new() -> (r: Self)
        ensures
            r@ == Seq::<AwwasmImportEntry<'a>>::empty(),
    {
        Self { entries: Vec::new() }
    }

    /// Add a function import.
    pub fn add_func(&mut self, module: &'a [u8], name: &'a [u8], func: AwwasmFuncInst<'a>)
        ensures
            final(self)@ == old(self)@.push(AwwasmImportEntry {
                module,
                name,
                value: AwwasmImportValue::Func(func),
            }),
    {
        self.entries.push(AwwasmImportEntry { module, name, value: AwwasmImportValue::Func(func) });
    }

    /// Add a memory import.
    pub fn add_memory(&mut self, module: &'a [u8], name: &'a [u8], mem: AwwasmMemInst)
        ensures
            final(self)@ == old(self)@.push(AwwasmImportEntry {
                module,
                name,
                value: AwwasmImportValue::Memory(mem),
            }),
    {
        self.entries.push(AwwasmImportEntry {
            module,
            name,
            value: AwwasmImportValue::Memory(mem),
        });
    }

    /// Add a global import.
    pub fn add_global(&mut self, module: &'a [u8], name: &'a [u8], global: AwwasmGlobalInst)
        ensures
            final(self)@ == old(self)@.push(AwwasmImportEntry {
                module,
                name,
                value: AwwasmImportValue::Global(global),
            }),
    {
        self.entries.push(AwwasmImportEntry {
            module,
            name,
            value: AwwasmImportValue::Global(global),
        });
    }

    /// Find the first import keyed by (module, name).
    pub fn find(&self, module: &[u8], name: &[u8]) -> (r: Option<&AwwasmImportEntry<'a>>)
        ensures
            ({
                let idx = spec_find_index(self@, module@, name@);
                if idx < 0 {
                    r is None
                } else {
                    r matches Some(e) && *e == self@[idx]
                }
            }),
    {
        proof {
            lemma_find_index(self@, module@, name@);
        }
        let n = self.entries.len();
        let mut i: usize = 0;
        while i < n
            invariant
                0 <= i <= n,
                n == self@.len(),
                forall|j: int| 0 <= j < i ==> !entry_matches(self@[j], module@, name@),
            decreases n - i,
        {
            let e = &self.entries[i];
            if bytes_eq(e.module, module) && bytes_eq(e.name, name) {
                proof {
                    lemma_find_index(self@, module@, name@);
                }
                return Some(e);
            }
            i = i + 1;
        }
        None
    }

    /// Remove and return the first import keyed by (module, name); the
    /// set is unchanged when no entry matches.  The removal swaps the
    /// last entry into the vacated position.
    pub fn take(&mut self, module: &[u8], name: &[u8]) -> (r: Option<AwwasmImportEntry<'a>>)
        ensures
            ({
                let idx = spec_find_index(old(self)@, module@, name@);
                if idx < 0 {
                    r is None && final(self)@ == old(self)@
                } else {
                    &&& r matches Some(e) && e == old(self)@[idx]
                    &&& final(self)@ == old(self)@.update(idx, old(self)@.last()).drop_last()
                }
            }),
    {
        proof {
            lemma_find_index(self@, module@, name@);
        }
        let n = self.entries.len();
        let mut i: usize = 0;
        while i < n
            invariant
                0 <= i <= n,
                n == self@.len(),
                *self == *old(self),
                forall|j: int| 0 <= j < i ==> !entry_matches(self@[j], module@, name@),
            decreases n - i,
        {
            let e = &self.entries[i];
            if bytes_eq(e.module, module) && bytes_eq(e.name, name) {
                proof {
                    lemma_find_index(self@, module@, name@);
                }
                return Some(self.entries.swap_remove(i));
            }
            i = i + 1;
        }
        None
    }
}

impl<'a> Default for AwwasmImports<'a> {
    fn default() -> (r: Self)
        ensures
            r@ == Seq::<AwwasmImportEntry<'a>>::empty(),
    {
        Self::new()
    }
}

} // verus!
