//! Module instance: the per-module directory that maps module-local
//! indices to Store addresses, plus the export directory.

use vstd::prelude::*;

use crate::values::{
    AwwasmDataAddr, AwwasmElemAddr, AwwasmExternAddr, AwwasmFuncAddr, AwwasmGlobalAddr,
    AwwasmMemAddr, AwwasmTableAddr,
};
use crate::util::bytes_eq;

verus! {

use vstd::string::StringSliceAdditionalSpecFns;

/// Export instance - runtime representation of an export.
#[derive(Debug, Clone)]
pub struct AwwasmExportInst<'a> {
    /// The export name (borrowed from the parsed module).
    pub name: &'a [u8],
    /// The external address.
    pub addr: AwwasmExternAddr,
}

impl<'a> AwwasmExportInst<'a> {
    /// Create a new export instance.
    pub fn new(name: &'a [u8], addr: AwwasmExternAddr) -> (r: Self)
        ensures
            r.name == name,
            r.addr == addr,
    {
        Self { name, addr }
    }

    /// Get the export name as a string (if valid UTF-8).
    pub fn name_str(&self) -> (r: Option<&str>)
        ensures
            r is Some <==> vstd::utf8::valid_utf8(self.name@),
            r matches Some(s) ==> s.spec_bytes() == self.name@,
    {
        str_from_bytes(self.name)
    }
}

/// Relies on core::str::from_utf8: it returns `Ok` exactly on valid
/// UTF-8 input, and the returned string views the same bytes.
#[verifier::external_body]
fn str_from_bytes(bytes: &[u8]) -> (r: Option<&str>)
    ensures
        r is Some <==> vstd::utf8::valid_utf8(bytes@),
        r matches Some(s) ==> s.spec_bytes() == bytes@,
{
    core::str::from_utf8(bytes).ok()
}

/// The index of the first export whose name equals `name` byte for
/// byte, or -1 when none does.
pub open spec fn spec_export_index(exports: Seq<AwwasmExportInst>, name: Seq<u8>) -> int
    decreases exports.len(),
{
    if exports.len() == 0 {
        -1
    } else if exports[0].name@ == name {
        0
    } else {
        let rest = spec_export_index(exports.drop_first(), name);
        if rest < 0 {
            -1
        } else {
            rest + 1
        }
    }
}

/// `spec_export_index` returns -1 exactly when no export has the name,
/// and otherwise the index of the first export that does.
pub proof fn lemma_export_index(exports: Seq<AwwasmExportInst>, name: Seq<u8>)
    ensures
        spec_export_index(exports, name) == -1 <==> (forall|j: int|
            0 <= j < exports.len() ==> exports[j].name@ != name),
        spec_export_index(exports, name) != -1 ==> {
            &&& 0 <= spec_export_index(exports, name) < exports.len()
            &&& exports[spec_export_index(exports, name)].name@ == name
            &&& forall|j: int|
                0 <= j < spec_export_index(exports, name) ==> exports[j].name@ != name
        },
    decreases exports.len(),
{
    if exports.len() != 0 && exports[0].name@ != name {
        let rest = exports.drop_first();
        lemma_export_index(rest, name);
        assert forall|j: int| 0 <= j < rest.len() implies rest[j] == exports[j + 1] by {}
        let ri = spec_export_index(rest, name);
        if ri == -1 {
            assert forall|j: int| 0 <= j < exports.len() implies exports[j].name@ != name by {
                if j > 0 {
                    assert(exports[j] == rest[j - 1]);
                }
            }
        } else {
            assert(exports[ri + 1] == rest[ri]);
            assert forall|j: int| 0 <= j < ri + 1 implies exports[j].name@ != name by {
                if j > 0 {
                    assert(exports[j] == rest[j - 1]);
                }
            }
        }
    }
}

/// The function exports of an export list, in declaration order, as
/// (name, address) pairs.
pub open spec fn spec_func_exports(exports: Seq<AwwasmExportInst>) -> Seq<(&[u8], AwwasmFuncAddr)>
    decreases exports.len(),
{
    if exports.len() == 0 {
        Seq::empty()
    } else {
        let init = spec_func_exports(exports.drop_last());
        match exports.last().addr {
            AwwasmExternAddr::Func(addr) => init.push((exports.last().name, addr)),
            _ => init,
        }
    }
}

/// The memory exports of an export list, in declaration order, as
/// (name, address) pairs.
pub open spec fn spec_mem_exports(exports: Seq<AwwasmExportInst>) -> Seq<(&[u8], AwwasmMemAddr)>
    decreases exports.len(),
{
    if exports.len() == 0 {
        Seq::empty()
    } else {
        let init = spec_mem_exports(exports.drop_last());
        match exports.last().addr {
            AwwasmExternAddr::Mem(addr) => init.push((exports.last().name, addr)),
            _ => init,
        }
    }
}

/// Module instance - runtime representation of an instantiated module.
///
/// Holds the addresses that map module-local indices to Store
/// addresses, plus the exports.
#[derive(Debug, Clone)]
pub struct AwwasmModuleInst<'a> {
    /// Function addresses (indexed by funcidx).
    pub funcaddrs: Vec<AwwasmFuncAddr>,
    /// Table addresses (indexed by tableidx).
    pub tableaddrs: Vec<AwwasmTableAddr>,
    /// Memory addresses (indexed by memidx).
    pub memaddrs: Vec<AwwasmMemAddr>,
    /// Global addresses (indexed by globalidx).
    pub globaladdrs: Vec<AwwasmGlobalAddr>,
    /// Element addresses (indexed by elemidx).
    pub elemaddrs: Vec<AwwasmElemAddr>,
    /// Data addresses (indexed by dataidx).
    pub dataaddrs: Vec<AwwasmDataAddr>,
    /// Exports.
    pub exports: Vec<AwwasmExportInst<'a>>,
    /// Start function (if any).
    pub start: Option<AwwasmFuncAddr>,
}

impl<'a> AwwasmModuleInst<'a> {
    /// Create a new empty module instance.
    pub fn new() -> (r: Self)
        ensures
            r.funcaddrs@.len() == 0,
            r.tableaddrs@.len() == 0,
            r.memaddrs@.len() == 0,
            r.globaladdrs@.len() == 0,
            r.elemaddrs@.len() == 0,
            r.dataaddrs@.len() == 0,
            r.exports@.len() == 0,
            r.start is None,
    {
        Self {
            funcaddrs: Vec::new(),
            tableaddrs: Vec::new(),
            memaddrs: Vec::new(),
            globaladdrs: Vec::new(),
            elemaddrs: Vec::new(),
            dataaddrs: Vec::new(),
            exports: Vec::new(),
            start: None,
        }
    }

    /// Get a function address by module-local index.
    pub fn func(&self, idx: u32) -> (r: Option<AwwasmFuncAddr>)
        ensures
            r == if idx < self.funcaddrs@.len() {
                Some(self.funcaddrs@[idx as int])
            } else {
                None::<AwwasmFuncAddr>
            },
    {
        if (idx as usize) < self.funcaddrs.len() {
            Some(self.funcaddrs[idx as usize])
        } else {
            None
        }
    }

    /// Get a table address by module-local index.
    pub fn table(&self, idx: u32) -> (r: Option<AwwasmTableAddr>)
        ensures
            r == if idx < self.tableaddrs@.len() {
                Some(self.tableaddrs@[idx as int])
            } else {
                None::<AwwasmTableAddr>
            },
    {
        if (idx as usize) < self.tableaddrs.len() {
            Some(self.tableaddrs[idx as usize])
        } else {
            None
        }
    }

    /// Get a memory address by module-local index.
    pub fn mem(&self, idx: u32) -> (r: Option<AwwasmMemAddr>)
        ensures
            r == if idx < self.memaddrs@.len() {
                Some(self.memaddrs@[idx as int])
            } else {
                None::<AwwasmMemAddr>
            },
    {
        if (idx as usize) < self.memaddrs.len() {
            Some(self.memaddrs[idx as usize])
        } else {
            None
        }
    }

    /// Get a global address by module-local index.
    pub fn global(&self, idx: u32) -> (r: Option<AwwasmGlobalAddr>)
        ensures
            r == if idx < self.globaladdrs@.len() {
                Some(self.globaladdrs@[idx as int])
            } else {
                None::<AwwasmGlobalAddr>
            },
    {
        if (idx as usize) < self.globaladdrs.len() {
            Some(self.globaladdrs[idx as usize])
        } else {
            None
        }
    }

    /// Get an element address by module-local index.
    pub fn elem(&self, idx: u32) -> (r: Option<AwwasmElemAddr>)
        ensures
            r == if idx < self.elemaddrs@.len() {
                Some(self.elemaddrs@[idx as int])
            } else {
                None::<AwwasmElemAddr>
            },
    {
        if (idx as usize) < self.elemaddrs.len() {
            Some(self.elemaddrs[idx as usize])
        } else {
            None
        }
    }

    /// Get a data address by module-local index.
    pub fn data(&self, idx: u32) -> (r: Option<AwwasmDataAddr>)
        ensures
            r == if idx < self.dataaddrs@.len() {
                Some(self.dataaddrs@[idx as int])
            } else {
                None::<AwwasmDataAddr>
            },
    {
        if (idx as usize) < self.dataaddrs.len() {
            Some(self.dataaddrs[idx as usize])
        } else {
            None
        }
    }

    /// Find an export by name: the first entry whose name bytes equal
    /// `name`, in declaration order.
    pub fn export(&self, name: &[u8]) -> (r: Option<&AwwasmExportInst<'a>>)
        ensures
            ({
                let idx = spec_export_index(self.exports@, name@);
                if idx < 0 {
                    r is None
                } else {
                    r matches Some(e) && *e == self.exports@[idx]
                }
            }),
    {
        proof {
            lemma_export_index(self.exports@, name@);
        }
        let n = self.exports.len();
        let mut i: usize = 0;
        while i < n
            invariant
                0 <= i <= n,
                n == self.exports@.len(),
                forall|j: int| 0 <= j < i ==> self.exports@[j].name@ != name@,
            decreases n - i,
        {
            let e = &self.exports[i];
            if bytes_eq(e.name, name) {
                proof {
                    lemma_export_index(self.exports@, name@);
                }
                return Some(e);
            }
            i = i + 1;
        }
        None
    }

    /// Find an export by string name (matched on its UTF-8 bytes).
    pub fn export_by_str(&self, name: &str) -> (r: Option<&AwwasmExportInst<'a>>)
        ensures
            ({
                let idx = spec_export_index(self.exports@, name.spec_bytes());
                if idx < 0 {
                    r is None
                } else {
                    r matches Some(e) && *e == self.exports@[idx]
                }
            }),
    {
        self.export(name.as_bytes())
    }

    /// Get all function exports, in declaration order.
    pub fn func_exports(&self) -> (r: Vec<(&'a [u8], AwwasmFuncAddr)>)
        ensures
            r@ == spec_func_exports(self.exports@),
    {
        let mut out: Vec<(&'a [u8], AwwasmFuncAddr)> = Vec::new();
        let n = self.exports.len();
        let mut i: usize = 0;
        while i < n
            invariant
                0 <= i <= n,
                n == self.exports@.len(),
                out@ == spec_func_exports(self.exports@.subrange(0, i as int)),
            decreases n - i,
        {
            let e = &self.exports[i];
            proof {
                assert(self.exports@.subrange(0, i + 1).drop_last() =~= self.exports@.subrange(
                    0,
                    i as int,
                ));
                assert(self.exports@.subrange(0, i + 1).last() == self.exports@[i as int]);
            }
            match e.addr {
                AwwasmExternAddr::Func(addr) => {
                    out.push((e.name, addr));
                },
                _ => {},
            }
            i = i + 1;
        }
        proof {
            assert(self.exports@.subrange(0, n as int) =~= self.exports@);
        }
        out
    }

    /// Get all memory exports, in declaration order.
    pub fn mem_exports(&self) -> (r: Vec<(&'a [u8], AwwasmMemAddr)>)
        ensures
            r@ == spec_mem_exports(self.exports@),
    {
        let mut out: Vec<(&'a [u8], AwwasmMemAddr)> = Vec::new();
        let n = self.exports.len();
        let mut i: usize = 0;
        while i < n
            invariant
                0 <= i <= n,
                n == self.exports@.len(),
                out@ == spec_mem_exports(self.exports@.subrange(0, i as int)),
            decreases n - i,
        {
            let e = &self.exports[i];
            proof {
                assert(self.exports@.subrange(0, i + 1).drop_last() =~= self.exports@.subrange(
                    0,
                    i as int,
                ));
                assert(self.exports@.subrange(0, i + 1).last() == self.exports@[i as int]);
            }
            match e.addr {
                AwwasmExternAddr::Mem(addr) => {
                    out.push((e.name, addr));
                },
                _ => {},
            }
            i = i + 1;
        }
        proof {
            assert(self.exports@.subrange(0, n as int) =~= self.exports@);
        }
        out
    }
}

impl<'a> Default for AwwasmModuleInst<'a> {
    fn default() -> (r: Self)
        ensures
            r.funcaddrs@.len() == 0,
            r.tableaddrs@.len() == 0,
            r.memaddrs@.len() == 0,
            r.globaladdrs@.len() == 0,
            r.elemaddrs@.len() == 0,
            r.dataaddrs@.len() == 0,
            r.exports@.len() == 0,
            r.start is None,
    {
        Self::new()
    }
}

} // verus!
