//! The Store - central runtime state for WebAssembly execution.
//!
//! The Store owns every runtime instance (functions, tables, memories,
//! globals, element and data segments) in seven append-only vectors, one
//! per kind, plus the module instances.  Addresses are dense 32-bit
//! handles minted at allocation; they are never reused or invalidated.
//! Multiple modules can share a Store, enabling cross-module calls and
//! shared memories and tables.

use vstd::prelude::*;

use crate::error::{AwwasmInstantiationError, AwwasmRuntimeError, InstErrView};
use crate::func::{AwwasmDataInst, AwwasmElemInst, AwwasmFuncInst, AwwasmWasmFuncInst,
    LazyResolvedCodeRef};
use crate::global::AwwasmGlobalInst;
use crate::imports::{spec_find_index, AwwasmImportEntry, AwwasmImports, AwwasmImportValue};
use crate::instance::{AwwasmExportInst, AwwasmModuleInst};
use crate::memory::{spec_write_bytes, AwwasmMemInst, AwwasmMemoryType, PAGE_SIZE};
use crate::parsed::{
    AwwasmCodeItem, AwwasmDataItem, AwwasmExportItem, AwwasmExportKind, AwwasmImportItem,
    AwwasmImportKind, AwwasmMemoryItem, AwwasmModule,
};
use crate::table::AwwasmTableInst;
use crate::type_convert::{eval_const_expr, memory_params_to_type, spec_eval_const_expr};
use crate::util::bytes_vec;
use crate::values::{
    AwwasmDataAddr, AwwasmElemAddr, AwwasmExternAddr, AwwasmFuncAddr, AwwasmGlobalAddr,
    AwwasmMemAddr, AwwasmModuleAddr, AwwasmTableAddr,
};

verus! {

use vstd::string::StringSliceAdditionalSpecFns;
use vstd::seq_lib::*;

/// The contents of one element section of a parsed module, as a
/// sequence: empty when the section is absent.
pub open spec fn opt_items<T>(section: Option<Vec<T>>) -> Seq<T> {
    match section {
        Some(v) => v@,
        None => Seq::empty(),
    }
}

/// The mathematical view of a memory instance: its type and its bytes.
pub struct MemModel {
    pub type_: AwwasmMemoryType,
    pub data: Seq<u8>,
}

/// The view of one memory instance.
pub open spec fn mem_model(m: AwwasmMemInst) -> MemModel {
    MemModel { type_: m.type_, data: m.data@ }
}

/// The views of a list of memory instances.
pub open spec fn mems_model(s: Seq<AwwasmMemInst>) -> Seq<MemModel> {
    s.map_values(|m: AwwasmMemInst| mem_model(m))
}

/// The Store - global runtime state for WebAssembly.
#[derive(Debug)]
pub struct AwwasmStore<'a> {
    /// Function instances.
    pub funcs: Vec<AwwasmFuncInst<'a>>,
    /// Table instances.
    pub tables: Vec<AwwasmTableInst>,
    /// Memory instances.
    pub mems: Vec<AwwasmMemInst>,
    /// Global instances.
    pub globals: Vec<AwwasmGlobalInst>,
    /// Element instances.
    pub elems: Vec<AwwasmElemInst>,
    /// Data instances.
    pub datas: Vec<AwwasmDataInst<'a>>,
    /// Module instances.
    pub modules: Vec<AwwasmModuleInst<'a>>,
}

impl<'a> AwwasmStore<'a> {
    /// Create a new empty Store.
    pub fn new() -> (r: Self)
        ensures
            r.funcs@.len() == 0,
            r.tables@.len() == 0,
            r.mems@.len() == 0,
            r.globals@.len() == 0,
            r.elems@.len() == 0,
            r.datas@.len() == 0,
            r.modules@.len() == 0,
    {
        Self {
            funcs: Vec::new(),
            tables: Vec::new(),
            mems: Vec::new(),
            globals: Vec::new(),
            elems: Vec::new(),
            datas: Vec::new(),
            modules: Vec::new(),
        }
    }

    /// Allocate a function instance in the Store.  The new address is
    /// the previous count; every existing instance keeps its address
    /// and value.
    pub fn alloc_func(&mut self, func: AwwasmFuncInst<'a>) -> (r: AwwasmFuncAddr)
        requires
            old(self).funcs@.len() <= u32::MAX,
        ensures
            r == AwwasmFuncAddr(old(self).funcs@.len() as u32),
            final(self).funcs@ == old(self).funcs@.push(func),
            final(self).tables@ == old(self).tables@,
            final(self).mems@ == old(self).mems@,
            final(self).globals@ == old(self).globals@,
            final(self).elems@ == old(self).elems@,
            final(self).datas@ == old(self).datas@,
            final(self).modules@ == old(self).modules@,
    {
        let addr = AwwasmFuncAddr(self.funcs.len() as u32);
        self.funcs.push(func);
        addr
    }

    /// Allocate a table instance in the Store.
    pub fn alloc_table(&mut self, table: AwwasmTableInst) -> (r: AwwasmTableAddr)
        requires
            old(self).tables@.len() <= u32::MAX,
        ensures
            r == AwwasmTableAddr(old(self).tables@.len() as u32),
            final(self).tables@ == old(self).tables@.push(table),
            final(self).funcs@ == old(self).funcs@,
            final(self).mems@ == old(self).mems@,
            final(self).globals@ == old(self).globals@,
            final(self).elems@ == old(self).elems@,
            final(self).datas@ == old(self).datas@,
            final(self).modules@ == old(self).modules@,
    {
        let addr = AwwasmTableAddr(self.tables.len() as u32);
        self.tables.push(table);
        addr
    }

    /// Allocate a memory instance in the Store.
    pub fn alloc_mem(&mut self, mem: AwwasmMemInst) -> (r: AwwasmMemAddr)
        requires
            old(self).mems@.len() <= u32::MAX,
        ensures
            r == AwwasmMemAddr(old(self).mems@.len() as u32),
            final(self).mems@ == old(self).mems@.push(mem),
            final(self).funcs@ == old(self).funcs@,
            final(self).tables@ == old(self).tables@,
            final(self).globals@ == old(self).globals@,
            final(self).elems@ == old(self).elems@,
            final(self).datas@ == old(self).datas@,
            final(self).modules@ == old(self).modules@,
    {
        let addr = AwwasmMemAddr(self.mems.len() as u32);
        self.mems.push(mem);
        addr
    }

    /// Allocate a global instance in the Store.
    pub fn alloc_global(&mut self, global: AwwasmGlobalInst) -> (r: AwwasmGlobalAddr)
        requires
            old(self).globals@.len() <= u32::MAX,
        ensures
            r == AwwasmGlobalAddr(old(self).globals@.len() as u32),
            final(self).globals@ == old(self).globals@.push(global),
            final(self).funcs@ == old(self).funcs@,
            final(self).tables@ == old(self).tables@,
            final(self).mems@ == old(self).mems@,
            final(self).elems@ == old(self).elems@,
            final(self).datas@ == old(self).datas@,
            final(self).modules@ == old(self).modules@,
    {
        let addr = AwwasmGlobalAddr(self.globals.len() as u32);
        self.globals.push(global);
        addr
    }

    /// Allocate an element instance in the Store.
    pub fn alloc_elem(&mut self, elem: AwwasmElemInst) -> (r: AwwasmElemAddr)
        requires
            old(self).elems@.len() <= u32::MAX,
        ensures
            r == AwwasmElemAddr(old(self).elems@.len() as u32),
            final(self).elems@ == old(self).elems@.push(elem),
            final(self).funcs@ == old(self).funcs@,
            final(self).tables@ == old(self).tables@,
            final(self).mems@ == old(self).mems@,
            final(self).globals@ == old(self).globals@,
            final(self).datas@ == old(self).datas@,
            final(self).modules@ == old(self).modules@,
    {
        let addr = AwwasmElemAddr(self.elems.len() as u32);
        self.elems.push(elem);
        addr
    }

    /// Allocate a data instance in the Store.
    pub fn alloc_data(&mut self, data: AwwasmDataInst<'a>) -> (r: AwwasmDataAddr)
        requires
            old(self).datas@.len() <= u32::MAX,
        ensures
            r == AwwasmDataAddr(old(self).datas@.len() as u32),
            final(self).datas@ == old(self).datas@.push(data),
            final(self).funcs@ == old(self).funcs@,
            final(self).tables@ == old(self).tables@,
            final(self).mems@ == old(self).mems@,
            final(self).globals@ == old(self).globals@,
            final(self).elems@ == old(self).elems@,
            final(self).modules@ == old(self).modules@,
    {
        let addr = AwwasmDataAddr(self.datas.len() as u32);
        self.datas.push(data);
        addr
    }

    /// Register a module instance in the Store.
    pub fn register_module(&mut self, module: AwwasmModuleInst<'a>) -> (r: AwwasmModuleAddr)
        requires
            old(self).modules@.len() <= u32::MAX,
        ensures
            r == AwwasmModuleAddr(old(self).modules@.len() as u32),
            final(self).modules@ == old(self).modules@.push(module),
            final(self).funcs@ == old(self).funcs@,
            final(self).tables@ == old(self).tables@,
            final(self).mems@ == old(self).mems@,
            final(self).globals@ == old(self).globals@,
            final(self).elems@ == old(self).elems@,
            final(self).datas@ == old(self).datas@,
    {
        let addr = AwwasmModuleAddr(self.modules.len() as u32);
        self.modules.push(module);
        addr
    }

    /// Get a function instance by address; an invalid address is a
    /// distinct error, as it indicates a corrupted module instance.
    pub fn func(&self, addr: AwwasmFuncAddr) -> (r: Result<&AwwasmFuncInst<'a>, AwwasmRuntimeError>)
        ensures
            r is Ok <==> addr.0 < self.funcs@.len(),
            r matches Ok(f) ==> *f == self.funcs@[addr.0 as int],
            addr.0 >= self.funcs@.len() ==> r == Err::<&AwwasmFuncInst<'a>, _>(
                AwwasmRuntimeError::InvalidFuncAddr(addr.0),
            ),
    {
        if (addr.0 as usize) < self.funcs.len() {
            Ok(&self.funcs[addr.0 as usize])
        } else {
            Err(AwwasmRuntimeError::InvalidFuncAddr(addr.0))
        }
    }

    /// Get a mutable function instance by address.
    pub fn func_mut(&mut self, addr: AwwasmFuncAddr) -> (r: Result<
        &mut AwwasmFuncInst<'a>,
        AwwasmRuntimeError,
    >)
        ensures
            r is Ok <==> addr.0 < old(self).funcs@.len(),
            addr.0 < old(self).funcs@.len() ==> (r matches Ok(f) && *f == old(
                self,
            ).funcs@[addr.0 as int] && final(self).funcs@ == old(self).funcs@.update(
                addr.0 as int,
                *final(f),
            )),
            addr.0 >= old(self).funcs@.len() ==> (r matches Err(e) && *final(self) == *old(self)
                && e == AwwasmRuntimeError::InvalidFuncAddr(addr.0)),
            final(self).tables@ == old(self).tables@,
            final(self).mems@ == old(self).mems@,
            final(self).globals@ == old(self).globals@,
            final(self).elems@ == old(self).elems@,
            final(self).datas@ == old(self).datas@,
            final(self).modules@ == old(self).modules@,
    {
        if (addr.0 as usize) < self.funcs.len() {
            Ok(vstd::std_specs::vec::vec_index_mut(&mut self.funcs, addr.0 as usize))
        } else {
            Err(AwwasmRuntimeError::InvalidFuncAddr(addr.0))
        }
    }

    /// Get a table instance by address.
    pub fn table(&self, addr: AwwasmTableAddr) -> (r: Result<&AwwasmTableInst, AwwasmRuntimeError>)
        ensures
            r is Ok <==> addr.0 < self.tables@.len(),
            r matches Ok(t) ==> *t == self.tables@[addr.0 as int],
            addr.0 >= self.tables@.len() ==> r == Err::<&AwwasmTableInst, _>(
                AwwasmRuntimeError::InvalidTableAddr(addr.0),
            ),
    {
        if (addr.0 as usize) < self.tables.len() {
            Ok(&self.tables[addr.0 as usize])
        } else {
            Err(AwwasmRuntimeError::InvalidTableAddr(addr.0))
        }
    }

    /// Get a mutable table instance by address.
    pub fn table_mut(&mut self, addr: AwwasmTableAddr) -> (r: Result<
        &mut AwwasmTableInst,
        AwwasmRuntimeError,
    >)
        ensures
            r is Ok <==> addr.0 < old(self).tables@.len(),
            addr.0 < old(self).tables@.len() ==> (r matches Ok(t) && *t == old(
                self,
            ).tables@[addr.0 as int] && final(self).tables@ == old(self).tables@.update(
                addr.0 as int,
                *final(t),
            )),
            addr.0 >= old(self).tables@.len() ==> (r matches Err(e) && *final(self) == *old(self)
                && e == AwwasmRuntimeError::InvalidTableAddr(addr.0)),
            final(self).funcs@ == old(self).funcs@,
            final(self).mems@ == old(self).mems@,
            final(self).globals@ == old(self).globals@,
            final(self).elems@ == old(self).elems@,
            final(self).datas@ == old(self).datas@,
            final(self).modules@ == old(self).modules@,
    {
        if (addr.0 as usize) < self.tables.len() {
            Ok(vstd::std_specs::vec::vec_index_mut(&mut self.tables, addr.0 as usize))
        } else {
            Err(AwwasmRuntimeError::InvalidTableAddr(addr.0))
        }
    }

    /// Get a memory instance by address.
    pub fn mem(&self, addr: AwwasmMemAddr) -> (r: Result<&AwwasmMemInst, AwwasmRuntimeError>)
        ensures
            r is Ok <==> addr.0 < self.mems@.len(),
            r matches Ok(m) ==> *m == self.mems@[addr.0 as int],
            addr.0 >= self.mems@.len() ==> r == Err::<&AwwasmMemInst, _>(
                AwwasmRuntimeError::InvalidMemAddr(addr.0),
            ),
    {
        if (addr.0 as usize) < self.mems.len() {
            Ok(&self.mems[addr.0 as usize])
        } else {
            Err(AwwasmRuntimeError::InvalidMemAddr(addr.0))
        }
    }

    /// Get a mutable memory instance by address.
    pub fn mem_mut(&mut self, addr: AwwasmMemAddr) -> (r: Result<
        &mut AwwasmMemInst,
        AwwasmRuntimeError,
    >)
        ensures
            r is Ok <==> addr.0 < old(self).mems@.len(),
            addr.0 < old(self).mems@.len() ==> (r matches Ok(m) && *m == old(
                self,
            ).mems@[addr.0 as int] && final(self).mems@ == old(self).mems@.update(
                addr.0 as int,
                *final(m),
            )),
            addr.0 >= old(self).mems@.len() ==> (r matches Err(e) && *final(self) == *old(self)
                && e == AwwasmRuntimeError::InvalidMemAddr(addr.0)),
            final(self).funcs@ == old(self).funcs@,
            final(self).tables@ == old(self).tables@,
            final(self).globals@ == old(self).globals@,
            final(self).elems@ == old(self).elems@,
            final(self).datas@ == old(self).datas@,
            final(self).modules@ == old(self).modules@,
    {
        if (addr.0 as usize) < self.mems.len() {
            Ok(vstd::std_specs::vec::vec_index_mut(&mut self.mems, addr.0 as usize))
        } else {
            Err(AwwasmRuntimeError::InvalidMemAddr(addr.0))
        }
    }

    /// Get a global instance by address.
    pub fn global(&self, addr: AwwasmGlobalAddr) -> (r: Result<
        &AwwasmGlobalInst,
        AwwasmRuntimeError,
    >)
        ensures
            r is Ok <==> addr.0 < self.globals@.len(),
            r matches Ok(g) ==> *g == self.globals@[addr.0 as int],
            addr.0 >= self.globals@.len() ==> r == Err::<&AwwasmGlobalInst, _>(
                AwwasmRuntimeError::InvalidGlobalAddr(addr.0),
            ),
    {
        if (addr.0 as usize) < self.globals.len() {
            Ok(&self.globals[addr.0 as usize])
        } else {
            Err(AwwasmRuntimeError::InvalidGlobalAddr(addr.0))
        }
    }

    /// Get a mutable global instance by address.
    pub fn global_mut(&mut self, addr: AwwasmGlobalAddr) -> (r: Result<
        &mut AwwasmGlobalInst,
        AwwasmRuntimeError,
    >)
        ensures
            r is Ok <==> addr.0 < old(self).globals@.len(),
            addr.0 < old(self).globals@.len() ==> (r matches Ok(g) && *g == old(
                self,
            ).globals@[addr.0 as int] && final(self).globals@ == old(self).globals@.update(
                addr.0 as int,
                *final(g),
            )),
            addr.0 >= old(self).globals@.len() ==> (r matches Err(e) && *final(self) == *old(self)
                && e == AwwasmRuntimeError::InvalidGlobalAddr(addr.0)),
            final(self).funcs@ == old(self).funcs@,
            final(self).tables@ == old(self).tables@,
            final(self).mems@ == old(self).mems@,
            final(self).elems@ == old(self).elems@,
            final(self).datas@ == old(self).datas@,
            final(self).modules@ == old(self).modules@,
    {
        if (addr.0 as usize) < self.globals.len() {
            Ok(vstd::std_specs::vec::vec_index_mut(&mut self.globals, addr.0 as usize))
        } else {
            Err(AwwasmRuntimeError::InvalidGlobalAddr(addr.0))
        }
    }

    /// Get an element instance by address; an invalid address is
    /// treated as absent.
    pub fn elem(&self, addr: AwwasmElemAddr) -> (r: Option<&AwwasmElemInst>)
        ensures
            r is Some <==> addr.0 < self.elems@.len(),
            r matches Some(e) ==> *e == self.elems@[addr.0 as int],
    {
        if (addr.0 as usize) < self.elems.len() {
            Some(&self.elems[addr.0 as usize])
        } else {
            None
        }
    }

    /// Get a mutable element instance by address.
    pub fn elem_mut(&mut self, addr: AwwasmElemAddr) -> (r: Option<&mut AwwasmElemInst>)
        ensures
            r is Some <==> addr.0 < old(self).elems@.len(),
            addr.0 < old(self).elems@.len() ==> (r matches Some(e) && *e == old(
                self,
            ).elems@[addr.0 as int] && final(self).elems@ == old(self).elems@.update(
                addr.0 as int,
                *final(e),
            )),
            addr.0 >= old(self).elems@.len() ==> *final(self) == *old(self),
            final(self).funcs@ == old(self).funcs@,
            final(self).tables@ == old(self).tables@,
            final(self).mems@ == old(self).mems@,
            final(self).globals@ == old(self).globals@,
            final(self).datas@ == old(self).datas@,
            final(self).modules@ == old(self).modules@,
    {
        if (addr.0 as usize) < self.elems.len() {
            Some(vstd::std_specs::vec::vec_index_mut(&mut self.elems, addr.0 as usize))
        } else {
            None
        }
    }

    /// Get a data instance by address; an invalid address is treated as
    /// absent.
    pub fn data(&self, addr: AwwasmDataAddr) -> (r: Option<&AwwasmDataInst<'a>>)
        ensures
            r is Some <==> addr.0 < self.datas@.len(),
            r matches Some(d) ==> *d == self.datas@[addr.0 as int],
    {
        if (addr.0 as usize) < self.datas.len() {
            Some(&self.datas[addr.0 as usize])
        } else {
            None
        }
    }

    /// Get a mutable data instance by address.
    pub fn data_mut(&mut self, addr: AwwasmDataAddr) -> (r: Option<&mut AwwasmDataInst<'a>>)
        ensures
            r is Some <==> addr.0 < old(self).datas@.len(),
            addr.0 < old(self).datas@.len() ==> (r matches Some(d) && *d == old(
                self,
            ).datas@[addr.0 as int] && final(self).datas@ == old(self).datas@.update(
                addr.0 as int,
                *final(d),
            )),
            addr.0 >= old(self).datas@.len() ==> *final(self) == *old(self),
            final(self).funcs@ == old(self).funcs@,
            final(self).tables@ == old(self).tables@,
            final(self).mems@ == old(self).mems@,
            final(self).globals@ == old(self).globals@,
            final(self).elems@ == old(self).elems@,
            final(self).modules@ == old(self).modules@,
    {
        if (addr.0 as usize) < self.datas.len() {
            Some(vstd::std_specs::vec::vec_index_mut(&mut self.datas, addr.0 as usize))
        } else {
            None
        }
    }

    /// Get a module instance by address; an invalid address is treated
    /// as absent.
    pub fn module(&self, addr: AwwasmModuleAddr) -> (r: Option<&AwwasmModuleInst<'a>>)
        ensures
            r is Some <==> addr.0 < self.modules@.len(),
            r matches Some(m) ==> *m == self.modules@[addr.0 as int],
    {
        if (addr.0 as usize) < self.modules.len() {
            Some(&self.modules[addr.0 as usize])
        } else {
            None
        }
    }

    /// Get a mutable module instance by address.
    pub fn module_mut(&mut self, addr: AwwasmModuleAddr) -> (r: Option<&mut AwwasmModuleInst<'a>>)
        ensures
            r is Some <==> addr.0 < old(self).modules@.len(),
            addr.0 < old(self).modules@.len() ==> (r matches Some(m) && *m == old(
                self,
            ).modules@[addr.0 as int] && final(self).modules@ == old(self).modules@.update(
                addr.0 as int,
                *final(m),
            )),
            addr.0 >= old(self).modules@.len() ==> *final(self) == *old(self),
            final(self).funcs@ == old(self).funcs@,
            final(self).tables@ == old(self).tables@,
            final(self).mems@ == old(self).mems@,
            final(self).globals@ == old(self).globals@,
            final(self).elems@ == old(self).elems@,
            final(self).datas@ == old(self).datas@,
    {
        if (addr.0 as usize) < self.modules.len() {
            Some(vstd::std_specs::vec::vec_index_mut(&mut self.modules, addr.0 as usize))
        } else {
            None
        }
    }

    /// Get the number of function instances.
    pub fn func_count(&self) -> (r: usize)
        ensures
            r == self.funcs@.len(),
    {
        self.funcs.len()
    }

    /// Get the number of table instances.
    pub fn table_count(&self) -> (r: usize)
        ensures
            r == self.tables@.len(),
    {
        self.tables.len()
    }

    /// Get the number of memory instances.
    pub fn mem_count(&self) -> (r: usize)
        ensures
            r == self.mems@.len(),
    {
        self.mems.len()
    }

    /// Get the number of global instances.
    pub fn global_count(&self) -> (r: usize)
        ensures
            r == self.globals@.len(),
    {
        self.globals.len()
    }

    /// Get the number of module instances.
    pub fn module_count(&self) -> (r: usize)
        ensures
            r == self.modules@.len(),
    {
        self.modules.len()
    }
}

impl<'a> Default for AwwasmStore<'a> {
    fn default() -> (r: Self)
        ensures
            r.funcs@.len() == 0,
            r.tables@.len() == 0,
            r.mems@.len() == 0,
            r.globals@.len() == 0,
            r.elems@.len() == 0,
            r.datas@.len() == 0,
            r.modules@.len() == 0,
    {
        Self::new()
    }
}

/// The state the import-resolution step threads: the Store lists that
/// imports extend, the remaining embedder entries, and the module
/// instance's address arrays.
pub struct ImportState<'a> {
    pub funcs: Seq<AwwasmFuncInst<'a>>,
    pub mems: Seq<MemModel>,
    pub globals: Seq<AwwasmGlobalInst>,
    pub entries: Seq<AwwasmImportEntry<'a>>,
    pub funcaddrs: Seq<AwwasmFuncAddr>,
    pub memaddrs: Seq<AwwasmMemAddr>,
    pub globaladdrs: Seq<AwwasmGlobalAddr>,
}

/// The outcome of import resolution: the state reached, and the error
/// that stopped it, if one did.
pub struct ImportOutcome<'a> {
    pub state: ImportState<'a>,
    pub error: Option<InstErrView>,
}

/// Resolution of a single import: a table import is unsupported; any
/// other kind takes the first matching embedder entry — absent entries
/// and kind mismatches reject the module — and moves its instance into
/// the matching Store list, appending the minted address to the module
/// instance's array for that kind.  A mismatching entry is still
/// consumed, as the lookup removes it before the kind is examined.
pub open spec fn spec_import_step<'a>(s: ImportState<'a>, it: AwwasmImportItem<'a>) -> ImportOutcome<
    'a,
> {
    if it.kind == AwwasmImportKind::Table {
        ImportOutcome {
            state: s,
            error: Some(InstErrView::UnsupportedType {
                description: "table imports not yet supported".spec_bytes(),
            }),
        }
    } else {
        let idx = spec_find_index(s.entries, it.module@, it.name@);
        if idx < 0 {
            ImportOutcome {
                state: s,
                error: Some(InstErrView::MissingImport { module: it.module@, name: it.name@ }),
            }
        } else {
            let e = s.entries[idx];
            let entries2 = s.entries.update(idx, s.entries.last()).drop_last();
            let s2 = ImportState { entries: entries2, ..s };
            match it.kind {
                AwwasmImportKind::Function => match e.value {
                    AwwasmImportValue::Func(f) => ImportOutcome {
                        state: ImportState {
                            funcs: s.funcs.push(f),
                            funcaddrs: s.funcaddrs.push(AwwasmFuncAddr(s.funcs.len() as u32)),
                            ..s2
                        },
                        error: None,
                    },
                    _ => ImportOutcome {
                        state: s2,
                        error: Some(InstErrView::ImportTypeMismatch {
                            module: it.module@,
                            name: it.name@,
                            expected: "function".spec_bytes(),
                            got: "other".spec_bytes(),
                        }),
                    },
                },
                AwwasmImportKind::Memory => match e.value {
                    AwwasmImportValue::Memory(m) => ImportOutcome {
                        state: ImportState {
                            mems: s.mems.push(mem_model(m)),
                            memaddrs: s.memaddrs.push(AwwasmMemAddr(s.mems.len() as u32)),
                            ..s2
                        },
                        error: None,
                    },
                    _ => ImportOutcome {
                        state: s2,
                        error: Some(InstErrView::ImportTypeMismatch {
                            module: it.module@,
                            name: it.name@,
                            expected: "memory".spec_bytes(),
                            got: "other".spec_bytes(),
                        }),
                    },
                },
                AwwasmImportKind::Global => match e.value {
                    AwwasmImportValue::Global(g) => ImportOutcome {
                        state: ImportState {
                            globals: s.globals.push(g),
                            globaladdrs: s.globaladdrs.push(
                                AwwasmGlobalAddr(s.globals.len() as u32),
                            ),
                            ..s2
                        },
                        error: None,
                    },
                    _ => ImportOutcome {
                        state: s2,
                        error: Some(InstErrView::ImportTypeMismatch {
                            module: it.module@,
                            name: it.name@,
                            expected: "global".spec_bytes(),
                            got: "other".spec_bytes(),
                        }),
                    },
                },
                AwwasmImportKind::Table => ImportOutcome { state: s2, error: None },
            }
        }
    }
}

/// Resolution of the whole import list, in declaration order, stopping
/// at the first error.
pub open spec fn spec_resolve_imports<'a>(
    s: ImportState<'a>,
    items: Seq<AwwasmImportItem<'a>>,
) -> ImportOutcome<'a>
    decreases items.len(),
{
    if items.len() == 0 {
        ImportOutcome { state: s, error: None }
    } else {
        let o = spec_import_step(s, items[0]);
        if o.error is Some {
            o
        } else {
            spec_resolve_imports(o.state, items.drop_first())
        }
    }
}

/// Import resolution extends each Store list by at most one instance
/// per import item.
pub proof fn lemma_resolve_imports_len<'a>(s: ImportState<'a>, items: Seq<AwwasmImportItem<'a>>)
    ensures
        spec_resolve_imports(s, items).state.funcs.len() <= s.funcs.len() + items.len(),
        spec_resolve_imports(s, items).state.mems.len() <= s.mems.len() + items.len(),
        spec_resolve_imports(s, items).state.globals.len() <= s.globals.len() + items.len(),
    decreases items.len(),
{
    if items.len() != 0 {
        let o = spec_import_step(s, items[0]);
        if !(o.error is Some) {
            lemma_resolve_imports_len(o.state, items.drop_first());
        }
    }
}

/// The outcome of allocating the module-declared memories.
pub struct MemAllocOutcome {
    pub mems: Seq<MemModel>,
    pub memaddrs: Seq<AwwasmMemAddr>,
    pub error: Option<InstErrView>,
}

/// Allocation of the module-declared memories, in declaration order:
/// each declaration becomes a zero-filled instance of `min` pages, and
/// limits no instance can satisfy reject the module.
pub open spec fn spec_alloc_mems(
    mems: Seq<MemModel>,
    memaddrs: Seq<AwwasmMemAddr>,
    items: Seq<AwwasmMemoryItem>,
) -> MemAllocOutcome
    decreases items.len(),
{
    if items.len() == 0 {
        MemAllocOutcome { mems, memaddrs, error: None }
    } else {
        let t = AwwasmMemoryType { min: items[0].limits.min, max: items[0].limits.max };
        if !t.spec_valid_limits() {
            MemAllocOutcome {
                mems,
                memaddrs,
                error: Some(InstErrView::MemoryAllocationFailed { requested_pages: t.min }),
            }
        } else {
            spec_alloc_mems(
                mems.push(
                    MemModel { type_: t, data: Seq::new((t.min * PAGE_SIZE) as nat, |i: int| 0u8) },
                ),
                memaddrs.push(AwwasmMemAddr(mems.len() as u32)),
                items.drop_first(),
            )
        }
    }
}

/// The outcome of export resolution.
pub struct ExportOutcome<'a> {
    pub exports: Seq<AwwasmExportInst<'a>>,
    pub error: Option<InstErrView>,
}

/// Resolution of the export list, in declaration order: each export's
/// module-local index is looked up in the address array of its kind,
/// and an index past that array rejects the module.
pub open spec fn spec_resolve_exports<'a>(
    funcaddrs: Seq<AwwasmFuncAddr>,
    tableaddrs: Seq<AwwasmTableAddr>,
    memaddrs: Seq<AwwasmMemAddr>,
    globaladdrs: Seq<AwwasmGlobalAddr>,
    exports: Seq<AwwasmExportInst<'a>>,
    items: Seq<AwwasmExportItem<'a>>,
) -> ExportOutcome<'a>
    decreases items.len(),
{
    if items.len() == 0 {
        ExportOutcome { exports, error: None }
    } else {
        let it = items[0];
        let addr_opt = match it.kind {
            AwwasmExportKind::Function => if it.index < funcaddrs.len() {
                Some(AwwasmExternAddr::Func(funcaddrs[it.index as int]))
            } else {
                None
            },
            AwwasmExportKind::Table => if it.index < tableaddrs.len() {
                Some(AwwasmExternAddr::Table(tableaddrs[it.index as int]))
            } else {
                None
            },
            AwwasmExportKind::Memory => if it.index < memaddrs.len() {
                Some(AwwasmExternAddr::Mem(memaddrs[it.index as int]))
            } else {
                None
            },
            AwwasmExportKind::Global => if it.index < globaladdrs.len() {
                Some(AwwasmExternAddr::Global(globaladdrs[it.index as int]))
            } else {
                None
            },
        };
        match addr_opt {
            None => ExportOutcome {
                exports,
                error: Some(InstErrView::MissingImport {
                    module: "self".spec_bytes(),
                    name: it.name@,
                }),
            },
            Some(a) => spec_resolve_exports(
                funcaddrs,
                tableaddrs,
                memaddrs,
                globaladdrs,
                exports.push(AwwasmExportInst { name: it.name, addr: a }),
                items.drop_first(),
            ),
        }
    }
}

/// The outcome of active-data-segment initialization.
pub struct DataInitOutcome {
    pub mems: Seq<MemModel>,
    pub error: Option<InstErrView>,
}

/// Initialization of the active data segments, from segment `i` on:
/// passive segments are skipped; an active segment's offset expression
/// is evaluated and its bytes are copied into the resolved memory, with
/// precise bounds checking.  Failures leave the copies already made in
/// place.
pub open spec fn spec_init_data(
    mems: Seq<MemModel>,
    memaddrs: Seq<AwwasmMemAddr>,
    items: Seq<AwwasmDataItem>,
    i: int,
) -> DataInitOutcome
    decreases items.len() - i,
{
    if i < 0 || i >= items.len() {
        DataInitOutcome { mems, error: None }
    } else {
        let d = items[i];
        if d.header.flags == 0x01 {
            spec_init_data(mems, memaddrs, items, i + 1)
        } else {
            let memidx = if d.header.flags == 0x02 {
                match d.header.memidx {
                    Some(mi) => mi,
                    None => 0,
                }
            } else {
                0
            };
            match d.header.offset {
                None => DataInitOutcome {
                    mems,
                    error: Some(InstErrView::InvalidConstExpr {
                        description: "data segment missing offset expression".spec_bytes(),
                    }),
                },
                Some(expr) => match spec_eval_const_expr(expr.code@) {
                    None => DataInitOutcome {
                        mems,
                        error: Some(InstErrView::InvalidConstExpr {
                            description:
                                "unsupported or malformed constant initializer expression".spec_bytes(),
                        }),
                    },
                    Some(offset) => {
                        if memidx >= memaddrs.len() {
                            DataInitOutcome {
                                mems,
                                error: Some(InstErrView::DataSegmentOutOfBounds {
                                    segment_idx: i as u32,
                                    offset,
                                    size: d.data_bytes@.len() as u32,
                                    memory_size: 0,
                                }),
                            }
                        } else {
                            let a = memaddrs[memidx as int];
                            if a.0 >= mems.len() {
                                DataInitOutcome {
                                    mems,
                                    error: Some(InstErrView::DataSegmentOutOfBounds {
                                        segment_idx: i as u32,
                                        offset,
                                        size: d.data_bytes@.len() as u32,
                                        memory_size: 0,
                                    }),
                                }
                            } else {
                                let m = mems[a.0 as int];
                                if offset + d.data_bytes@.len() > m.data.len() {
                                    DataInitOutcome {
                                        mems,
                                        error: Some(InstErrView::DataSegmentOutOfBounds {
                                            segment_idx: i as u32,
                                            offset,
                                            size: d.data_bytes@.len() as u32,
                                            memory_size: m.data.len() as u32,
                                        }),
                                    }
                                } else {
                                    spec_init_data(
                                        mems.update(
                                            a.0 as int,
                                            MemModel {
                                                type_: m.type_,
                                                data: spec_write_bytes(
                                                    m.data,
                                                    offset as int,
                                                    d.data_bytes@,
                                                ),
                                            },
                                        ),
                                        memaddrs,
                                        items,
                                        i + 1,
                                    )
                                }
                            }
                        }
                    },
                },
            }
        }
    }
}

/// The mathematical view of a Store, as instantiation reads and extends
/// it.
pub struct StoreModel<'a> {
    pub funcs: Seq<AwwasmFuncInst<'a>>,
    pub mems: Seq<MemModel>,
    pub globals: Seq<AwwasmGlobalInst>,
    pub datas: Seq<AwwasmDataInst<'a>>,
    pub modules_len: nat,
}

/// The view of a Store.
pub open spec fn store_model<'a>(s: AwwasmStore<'a>) -> StoreModel<'a> {
    StoreModel {
        funcs: s.funcs@,
        mems: mems_model(s.mems@),
        globals: s.globals@,
        datas: s.datas@,
        modules_len: s.modules@.len(),
    }
}

/// The outcome of the whole instantiation pipeline: the result, the
/// Store lists and remaining import entries after it ran, and — on
/// success — the contents of the registered module instance.
pub struct InitOutcome<'a> {
    pub result: Result<AwwasmModuleAddr, InstErrView>,
    pub funcs: Seq<AwwasmFuncInst<'a>>,
    pub mems: Seq<MemModel>,
    pub globals: Seq<AwwasmGlobalInst>,
    pub datas: Seq<AwwasmDataInst<'a>>,
    pub entries: Seq<AwwasmImportEntry<'a>>,
    pub funcaddrs: Seq<AwwasmFuncAddr>,
    pub memaddrs: Seq<AwwasmMemAddr>,
    pub globaladdrs: Seq<AwwasmGlobalAddr>,
    pub dataaddrs: Seq<AwwasmDataAddr>,
    pub exports: Seq<AwwasmExportInst<'a>>,
}

/// The instantiation pipeline, step by step: resolve imports, check the
/// function/code sections agree, allocate functions (with the module
/// address pre-committed as the current module count), allocate
/// memories, allocate data segment instances, resolve exports, and
/// initialize the active data segments.  Failures abort at the first
/// offending step, leaving everything already allocated in place.
pub open spec fn spec_store_init<'a>(
    st: StoreModel<'a>,
    module: AwwasmModule<'a>,
    entries: Seq<AwwasmImportEntry<'a>>,
) -> InitOutcome<'a> {
    let io = spec_resolve_imports(
        ImportState {
            funcs: st.funcs,
            mems: st.mems,
            globals: st.globals,
            entries,
            funcaddrs: Seq::empty(),
            memaddrs: Seq::empty(),
            globaladdrs: Seq::empty(),
        },
        opt_items(module.imports),
    );
    let s1 = io.state;
    if io.error is Some {
        InitOutcome {
            result: Err(io.error.unwrap()),
            funcs: s1.funcs,
            mems: s1.mems,
            globals: s1.globals,
            datas: st.datas,
            entries: s1.entries,
            funcaddrs: s1.funcaddrs,
            memaddrs: s1.memaddrs,
            globaladdrs: s1.globaladdrs,
            dataaddrs: Seq::empty(),
            exports: Seq::empty(),
        }
    } else {
        let func_items = opt_items(module.funcs);
        let code_items = opt_items(module.code);
        if func_items.len() > 0 && func_items.len() != code_items.len() {
            InitOutcome {
                result: Err(
                    InstErrView::FuncCodeMismatch {
                        func_count: func_items.len() as u32,
                        code_count: code_items.len() as u32,
                    },
                ),
                funcs: s1.funcs,
                mems: s1.mems,
                globals: s1.globals,
                datas: st.datas,
                entries: s1.entries,
                funcaddrs: s1.funcaddrs,
                memaddrs: s1.memaddrs,
                globaladdrs: s1.globaladdrs,
                dataaddrs: Seq::empty(),
                exports: Seq::empty(),
            }
        } else {
            let pending = AwwasmModuleAddr(st.modules_len as u32);
            let funcs2 = s1.funcs + Seq::new(
                code_items.len(),
                |i: int|
                    AwwasmFuncInst::Wasm(
                        AwwasmWasmFuncInst {
                            type_idx: 0,
                            module: pending,
                            code: LazyResolvedCodeRef::Unparsed { bytes: code_items[i].func_body },
                        },
                    ),
            );
            let funcaddrs2 = s1.funcaddrs + Seq::new(
                code_items.len(),
                |i: int| AwwasmFuncAddr((s1.funcs.len() + i) as u32),
            );
            let mo = spec_alloc_mems(s1.mems, s1.memaddrs, opt_items(module.memories));
            if mo.error is Some {
                InitOutcome {
                    result: Err(mo.error.unwrap()),
                    funcs: funcs2,
                    mems: mo.mems,
                    globals: s1.globals,
                    datas: st.datas,
                    entries: s1.entries,
                    funcaddrs: funcaddrs2,
                    memaddrs: mo.memaddrs,
                    globaladdrs: s1.globaladdrs,
                    dataaddrs: Seq::empty(),
                    exports: Seq::empty(),
                }
            } else {
                let data_items = opt_items(module.data);
                let datas2 = st.datas + Seq::new(
                    data_items.len(),
                    |i: int| AwwasmDataInst { data: data_items[i].data_bytes, dropped: false },
                );
                let dataaddrs2 = Seq::new(
                    data_items.len(),
                    |i: int| AwwasmDataAddr((st.datas.len() + i) as u32),
                );
                let eo = spec_resolve_exports(
                    funcaddrs2,
                    Seq::empty(),
                    mo.memaddrs,
                    s1.globaladdrs,
                    Seq::empty(),
                    opt_items(module.exports),
                );
                if eo.error is Some {
                    InitOutcome {
                        result: Err(eo.error.unwrap()),
                        funcs: funcs2,
                        mems: mo.mems,
                        globals: s1.globals,
                        datas: datas2,
                        entries: s1.entries,
                        funcaddrs: funcaddrs2,
                        memaddrs: mo.memaddrs,
                        globaladdrs: s1.globaladdrs,
                        dataaddrs: dataaddrs2,
                        exports: eo.exports,
                    }
                } else {
                    let dio = spec_init_data(mo.mems, mo.memaddrs, data_items, 0);
                    InitOutcome {
                        result: if dio.error is Some {
                            Err(dio.error.unwrap())
                        } else {
                            Ok(pending)
                        },
                        funcs: funcs2,
                        mems: dio.mems,
                        globals: s1.globals,
                        datas: datas2,
                        entries: s1.entries,
                        funcaddrs: funcaddrs2,
                        memaddrs: mo.memaddrs,
                        globaladdrs: s1.globaladdrs,
                        dataaddrs: dataaddrs2,
                        exports: eo.exports,
                    }
                }
            }
        }
    }
}

/// What instantiation needs of the address space: every allocation it
/// can make stays within the 32-bit handle space.
pub open spec fn spec_init_fits(st: AwwasmStore, module: AwwasmModule) -> bool {
    &&& st.funcs@.len() + opt_items(module.imports).len() + opt_items(module.code).len()
        <= u32::MAX
    &&& st.mems@.len() + opt_items(module.imports).len() + opt_items(module.memories).len()
        <= u32::MAX
    &&& st.globals@.len() + opt_items(module.imports).len() <= u32::MAX
    &&& st.datas@.len() + opt_items(module.data).len() <= u32::MAX
    &&& st.modules@.len() <= u32::MAX
}

/// The import-resolution state a Store, an import set, and a module
/// instance under construction stand in.
pub open spec fn import_state_of<'a>(
    st: AwwasmStore<'a>,
    imp: AwwasmImports<'a>,
    inst: AwwasmModuleInst<'a>,
) -> ImportState<'a> {
    ImportState {
        funcs: st.funcs@,
        mems: mems_model(st.mems@),
        globals: st.globals@,
        entries: imp@,
        funcaddrs: inst.funcaddrs@,
        memaddrs: inst.memaddrs@,
        globaladdrs: inst.globaladdrs@,
    }
}

proof fn lemma_mems_model_push(s: Seq<AwwasmMemInst>, m: AwwasmMemInst)
    ensures
        mems_model(s.push(m)) == mems_model(s).push(mem_model(m)),
{
    assert(mems_model(s.push(m)) =~= mems_model(s).push(mem_model(m)));
}

proof fn lemma_mems_model_update(s: Seq<AwwasmMemInst>, i: int, m: AwwasmMemInst)
    requires
        0 <= i < s.len(),
    ensures
        mems_model(s.update(i, m)) == mems_model(s).update(i, mem_model(m)),
{
    assert(mems_model(s.update(i, m)) =~= mems_model(s).update(i, mem_model(m)));
}

impl<'a> AwwasmStore<'a> {
    /// Resolve the module's import list against the embedder's import
    /// set, moving each matched instance into the Store and recording
    /// its address in the module instance.
    fn resolve_imports_phase(
        &mut self,
        items: &Vec<AwwasmImportItem<'a>>,
        imports: &mut AwwasmImports<'a>,
        inst: &mut AwwasmModuleInst<'a>,
    ) -> (r: Result<(), AwwasmInstantiationError>)
        requires
            old(self).funcs@.len() + items@.len() <= u32::MAX,
            old(self).mems@.len() + items@.len() <= u32::MAX,
            old(self).globals@.len() + items@.len() <= u32::MAX,
        ensures
            ({
                let o = spec_resolve_imports(
                    import_state_of(*old(self), *old(imports), *old(inst)),
                    items@,
                );
                &&& import_state_of(*final(self), *final(imports), *final(inst)) == o.state
                &&& (r is Ok <==> o.error is None)
                &&& (r matches Err(e) ==> o.error == Some(e.view_err()))
            }),
            final(self).tables@ == old(self).tables@,
            final(self).elems@ == old(self).elems@,
            final(self).datas@ == old(self).datas@,
            final(self).modules@ == old(self).modules@,
            final(inst).tableaddrs@ == old(inst).tableaddrs@,
            final(inst).elemaddrs@ == old(inst).elemaddrs@,
            final(inst).dataaddrs@ == old(inst).dataaddrs@,
            final(inst).exports@ == old(inst).exports@,
            final(inst).start == old(inst).start,
    {
        let ghost s0 = import_state_of(*self, *imports, *inst);
        proof {
            assert(items@.skip(0) =~= items@);
        }
        let n = items.len();
        let mut i: usize = 0;
        while i < n
            invariant
                0 <= i <= n,
                n == items@.len(),
                self.funcs@.len() <= old(self).funcs@.len() + i,
                self.mems@.len() <= old(self).mems@.len() + i,
                self.globals@.len() <= old(self).globals@.len() + i,
                old(self).funcs@.len() + n <= u32::MAX,
                old(self).mems@.len() + n <= u32::MAX,
                old(self).globals@.len() + n <= u32::MAX,
                s0 == import_state_of(*old(self), *old(imports), *old(inst)),
                spec_resolve_imports(s0, items@) == spec_resolve_imports(
                    import_state_of(*self, *imports, *inst),
                    items@.skip(i as int),
                ),
                self.tables@ == old(self).tables@,
                self.elems@ == old(self).elems@,
                self.datas@ == old(self).datas@,
                self.modules@ == old(self).modules@,
                inst.tableaddrs@ == old(inst).tableaddrs@,
                inst.elemaddrs@ == old(inst).elemaddrs@,
                inst.dataaddrs@ == old(inst).dataaddrs@,
                inst.exports@ == old(inst).exports@,
                inst.start == old(inst).start,
            decreases n - i,
        {
            proof {
                assert(items@.skip(i as int)[0] == items@[i as int]);
                assert(items@.skip(i as int).drop_first() =~= items@.skip(i as int + 1));
            }
            let it = &items[i];
            match it.kind {
                AwwasmImportKind::Table => {
                    return Err(AwwasmInstantiationError::UnsupportedType {
                        description: crate::util::str_bytes_vec("table imports not yet supported"),
                    });
                },
                _ => {},
            }
            let taken = imports.take(it.module, it.name);
            let entry = match taken {
                Some(e) => e,
                None => {
                    return Err(AwwasmInstantiationError::MissingImport {
                        module: bytes_vec(it.module),
                        name: bytes_vec(it.name),
                    });
                },
            };
            match it.kind {
                AwwasmImportKind::Function => match entry.value {
                    AwwasmImportValue::Func(f) => {
                        let addr = self.alloc_func(f);
                        inst.funcaddrs.push(addr);
                    },
                    _ => {
                        return Err(AwwasmInstantiationError::ImportTypeMismatch {
                            module: bytes_vec(it.module),
                            name: bytes_vec(it.name),
                            expected: crate::util::str_bytes_vec("function"),
                            got: crate::util::str_bytes_vec("other"),
                        });
                    },
                },
                AwwasmImportKind::Memory => match entry.value {
                    AwwasmImportValue::Memory(m) => {
                        let ghost pre = self.mems@;
                        let ghost mm = m;
                        let addr = self.alloc_mem(m);
                        proof {
                            lemma_mems_model_push(pre, mm);
                        }
                        inst.memaddrs.push(addr);
                    },
                    _ => {
                        return Err(AwwasmInstantiationError::ImportTypeMismatch {
                            module: bytes_vec(it.module),
                            name: bytes_vec(it.name),
                            expected: crate::util::str_bytes_vec("memory"),
                            got: crate::util::str_bytes_vec("other"),
                        });
                    },
                },
                AwwasmImportKind::Global => match entry.value {
                    AwwasmImportValue::Global(g) => {
                        let addr = self.alloc_global(g);
                        inst.globaladdrs.push(addr);
                    },
                    _ => {
                        return Err(AwwasmInstantiationError::ImportTypeMismatch {
                            module: bytes_vec(it.module),
                            name: bytes_vec(it.name),
                            expected: crate::util::str_bytes_vec("global"),
                            got: crate::util::str_bytes_vec("other"),
                        });
                    },
                },
                AwwasmImportKind::Table => {},
            }
            i = i + 1;
        }
        proof {
            assert(items@.skip(n as int) =~= Seq::<AwwasmImportItem<'a>>::empty());
        }
        Ok(())
    }

    /// Allocate the module-defined functions, in code-section order,
    /// each in the unparsed lazy state and owned by the pre-committed
    /// module address.
    fn alloc_module_funcs(
        &mut self,
        code_items: &Vec<AwwasmCodeItem<'a>>,
        pending: AwwasmModuleAddr,
        inst: &mut AwwasmModuleInst<'a>,
    )
        requires
            old(self).funcs@.len() + code_items@.len() <= u32::MAX,
        ensures
            final(self).funcs@ == old(self).funcs@ + Seq::new(
                code_items@.len(),
                |i: int|
                    AwwasmFuncInst::Wasm(
                        AwwasmWasmFuncInst {
                            type_idx: 0,
                            module: pending,
                            code: LazyResolvedCodeRef::Unparsed { bytes: code_items@[i].func_body },
                        },
                    ),
            ),
            final(inst).funcaddrs@ == old(inst).funcaddrs@ + Seq::new(
                code_items@.len(),
                |i: int| AwwasmFuncAddr((old(self).funcs@.len() + i) as u32),
            ),
            final(self).tables@ == old(self).tables@,
            final(self).mems@ == old(self).mems@,
            final(self).globals@ == old(self).globals@,
            final(self).elems@ == old(self).elems@,
            final(self).datas@ == old(self).datas@,
            final(self).modules@ == old(self).modules@,
            final(inst).tableaddrs@ == old(inst).tableaddrs@,
            final(inst).memaddrs@ == old(inst).memaddrs@,
            final(inst).globaladdrs@ == old(inst).globaladdrs@,
            final(inst).elemaddrs@ == old(inst).elemaddrs@,
            final(inst).dataaddrs@ == old(inst).dataaddrs@,
            final(inst).exports@ == old(inst).exports@,
            final(inst).start == old(inst).start,
    {
        let ghost base = old(self).funcs@.len() as int;
        let n = code_items.len();
        let mut i: usize = 0;
        while i < n
            invariant
                0 <= i <= n,
                n == code_items@.len(),
                base == old(self).funcs@.len(),
                old(self).funcs@.len() + n <= u32::MAX,
                self.funcs@ == old(self).funcs@ + Seq::new(
                    i as nat,
                    |j: int|
                        AwwasmFuncInst::Wasm(
                            AwwasmWasmFuncInst {
                                type_idx: 0,
                                module: pending,
                                code: LazyResolvedCodeRef::Unparsed {
                                    bytes: code_items@[j].func_body,
                                },
                            },
                        ),
                ),
                inst.funcaddrs@ == old(inst).funcaddrs@ + Seq::new(
                    i as nat,
                    |j: int| AwwasmFuncAddr((base + j) as u32),
                ),
                self.tables@ == old(self).tables@,
                self.mems@ == old(self).mems@,
                self.globals@ == old(self).globals@,
                self.elems@ == old(self).elems@,
                self.datas@ == old(self).datas@,
                self.modules@ == old(self).modules@,
                inst.tableaddrs@ == old(inst).tableaddrs@,
                inst.memaddrs@ == old(inst).memaddrs@,
                inst.globaladdrs@ == old(inst).globaladdrs@,
                inst.elemaddrs@ == old(inst).elemaddrs@,
                inst.dataaddrs@ == old(inst).dataaddrs@,
                inst.exports@ == old(inst).exports@,
                inst.start == old(inst).start,
            decreases n - i,
        {
            // The declared type index is not threaded through from the
            // function section; every module function is allocated with
            // type index 0.
            let func = AwwasmFuncInst::wasm(0, pending, code_items[i].func_body);
            let addr = self.alloc_func(func);
            inst.funcaddrs.push(addr);
            proof {
                assert(self.funcs@ =~= old(self).funcs@ + Seq::new(
                    (i + 1) as nat,
                    |j: int|
                        AwwasmFuncInst::Wasm(
                            AwwasmWasmFuncInst {
                                type_idx: 0,
                                module: pending,
                                code: LazyResolvedCodeRef::Unparsed {
                                    bytes: code_items@[j].func_body,
                                },
                            },
                        ),
                ));
                assert(inst.funcaddrs@ =~= old(inst).funcaddrs@ + Seq::new(
                    (i + 1) as nat,
                    |j: int| AwwasmFuncAddr((base + j) as u32),
                ));
            }
            i = i + 1;
        }
    }

    /// Allocate the module-declared memories, in declaration order,
    /// each zero-filled at its declared minimum page count.
    fn alloc_module_mems(
        &mut self,
        mem_items: &Vec<AwwasmMemoryItem>,
        inst: &mut AwwasmModuleInst<'a>,
    ) -> (r: Result<(), AwwasmInstantiationError>)
        requires
            old(self).mems@.len() + mem_items@.len() <= u32::MAX,
        ensures
            ({
                let o = spec_alloc_mems(mems_model(old(self).mems@), old(inst).memaddrs@,
                    mem_items@);
                &&& mems_model(final(self).mems@) == o.mems
                &&& final(inst).memaddrs@ == o.memaddrs
                &&& (r is Ok <==> o.error is None)
                &&& (r matches Err(e) ==> o.error == Some(e.view_err()))
            }),
            final(self).funcs@ == old(self).funcs@,
            final(self).tables@ == old(self).tables@,
            final(self).globals@ == old(self).globals@,
            final(self).elems@ == old(self).elems@,
            final(self).datas@ == old(self).datas@,
            final(self).modules@ == old(self).modules@,
            final(inst).funcaddrs@ == old(inst).funcaddrs@,
            final(inst).tableaddrs@ == old(inst).tableaddrs@,
            final(inst).globaladdrs@ == old(inst).globaladdrs@,
            final(inst).elemaddrs@ == old(inst).elemaddrs@,
            final(inst).dataaddrs@ == old(inst).dataaddrs@,
            final(inst).exports@ == old(inst).exports@,
            final(inst).start == old(inst).start,
    {
        let ghost m0 = mems_model(self.mems@);
        let ghost a0 = inst.memaddrs@;
        proof {
            assert(mem_items@.skip(0) =~= mem_items@);
        }
        let n = mem_items.len();
        let mut i: usize = 0;
        while i < n
            invariant
                0 <= i <= n,
                n == mem_items@.len(),
                self.mems@.len() <= old(self).mems@.len() + i,
                old(self).mems@.len() + n <= u32::MAX,
                m0 == mems_model(old(self).mems@),
                a0 == old(inst).memaddrs@,
                spec_alloc_mems(m0, a0, mem_items@) == spec_alloc_mems(
                    mems_model(self.mems@),
                    inst.memaddrs@,
                    mem_items@.skip(i as int),
                ),
                self.funcs@ == old(self).funcs@,
                self.tables@ == old(self).tables@,
                self.globals@ == old(self).globals@,
                self.elems@ == old(self).elems@,
                self.datas@ == old(self).datas@,
                self.modules@ == old(self).modules@,
                inst.funcaddrs@ == old(inst).funcaddrs@,
                inst.tableaddrs@ == old(inst).tableaddrs@,
                inst.globaladdrs@ == old(inst).globaladdrs@,
                inst.elemaddrs@ == old(inst).elemaddrs@,
                inst.dataaddrs@ == old(inst).dataaddrs@,
                inst.exports@ == old(inst).exports@,
                inst.start == old(inst).start,
            decreases n - i,
        {
            proof {
                assert(mem_items@.skip(i as int)[0] == mem_items@[i as int]);
                assert(mem_items@.skip(i as int).drop_first() =~= mem_items@.skip(i as int + 1));
            }
            let item = &mem_items[i];
            let t = memory_params_to_type(&item.limits);
            if !t.valid_limits() {
                return Err(AwwasmInstantiationError::MemoryAllocationFailed {
                    requested_pages: t.min,
                });
            }
            let mem = AwwasmMemInst::new(t);
            let ghost pre = self.mems@;
            let ghost memg = mem;
            let addr = self.alloc_mem(mem);
            proof {
                lemma_mems_model_push(pre, memg);
                assert(mem_model(memg).data =~= Seq::new(
                    (t.min * PAGE_SIZE) as nat,
                    |k: int| 0u8,
                ));
            }
            inst.memaddrs.push(addr);
            i = i + 1;
        }
        proof {
            assert(mem_items@.skip(n as int) =~= Seq::<AwwasmMemoryItem>::empty());
        }
        Ok(())
    }

    /// Allocate a data instance for every data segment, in declaration
    /// order, borrowing the segment bytes; active or passive makes no
    /// difference at allocation.
    fn alloc_module_datas(
        &mut self,
        data_items: &Vec<AwwasmDataItem<'a>>,
        inst: &mut AwwasmModuleInst<'a>,
    )
        requires
            old(self).datas@.len() + data_items@.len() <= u32::MAX,
        ensures
            final(self).datas@ == old(self).datas@ + Seq::new(
                data_items@.len(),
                |i: int| AwwasmDataInst { data: data_items@[i].data_bytes, dropped: false },
            ),
            final(inst).dataaddrs@ == old(inst).dataaddrs@ + Seq::new(
                data_items@.len(),
                |i: int| AwwasmDataAddr((old(self).datas@.len() + i) as u32),
            ),
            final(self).funcs@ == old(self).funcs@,
            final(self).tables@ == old(self).tables@,
            final(self).mems@ == old(self).mems@,
            final(self).globals@ == old(self).globals@,
            final(self).elems@ == old(self).elems@,
            final(self).modules@ == old(self).modules@,
            final(inst).funcaddrs@ == old(inst).funcaddrs@,
            final(inst).tableaddrs@ == old(inst).tableaddrs@,
            final(inst).memaddrs@ == old(inst).memaddrs@,
            final(inst).globaladdrs@ == old(inst).globaladdrs@,
            final(inst).elemaddrs@ == old(inst).elemaddrs@,
            final(inst).exports@ == old(inst).exports@,
            final(inst).start == old(inst).start,
    {
        let ghost base = old(self).datas@.len() as int;
        let n = data_items.len();
        let mut i: usize = 0;
        while i < n
            invariant
                0 <= i <= n,
                n == data_items@.len(),
                base == old(self).datas@.len(),
                old(self).datas@.len() + n <= u32::MAX,
                self.datas@ == old(self).datas@ + Seq::new(
                    i as nat,
                    |j: int| AwwasmDataInst { data: data_items@[j].data_bytes, dropped: false },
                ),
                inst.dataaddrs@ == old(inst).dataaddrs@ + Seq::new(
                    i as nat,
                    |j: int| AwwasmDataAddr((base + j) as u32),
                ),
                self.funcs@ == old(self).funcs@,
                self.tables@ == old(self).tables@,
                self.mems@ == old(self).mems@,
                self.globals@ == old(self).globals@,
                self.elems@ == old(self).elems@,
                self.modules@ == old(self).modules@,
                inst.funcaddrs@ == old(inst).funcaddrs@,
                inst.tableaddrs@ == old(inst).tableaddrs@,
                inst.memaddrs@ == old(inst).memaddrs@,
                inst.globaladdrs@ == old(inst).globaladdrs@,
                inst.elemaddrs@ == old(inst).elemaddrs@,
                inst.exports@ == old(inst).exports@,
                inst.start == old(inst).start,
            decreases n - i,
        {
            let data_inst = AwwasmDataInst::new(data_items[i].data_bytes);
            let addr = self.alloc_data(data_inst);
            inst.dataaddrs.push(addr);
            proof {
                assert(self.datas@ =~= old(self).datas@ + Seq::new(
                    (i + 1) as nat,
                    |j: int| AwwasmDataInst { data: data_items@[j].data_bytes, dropped: false },
                ));
                assert(inst.dataaddrs@ =~= old(inst).dataaddrs@ + Seq::new(
                    (i + 1) as nat,
                    |j: int| AwwasmDataAddr((base + j) as u32),
                ));
            }
            i = i + 1;
        }
    }

    /// Copy every active data segment's bytes into its resolved linear
    /// memory, with precise bounds checking.
    fn init_active_data(
        &mut self,
        data_items: &Vec<AwwasmDataItem<'a>>,
        inst: &AwwasmModuleInst<'a>,
    ) -> (r: Result<(), AwwasmInstantiationError>)
        ensures
            ({
                let o = spec_init_data(mems_model(old(self).mems@), inst.memaddrs@, data_items@, 0);
                &&& mems_model(final(self).mems@) == o.mems
                &&& (r is Ok <==> o.error is None)
                &&& (r matches Err(e) ==> o.error == Some(e.view_err()))
            }),
            final(self).funcs@ == old(self).funcs@,
            final(self).tables@ == old(self).tables@,
            final(self).globals@ == old(self).globals@,
            final(self).elems@ == old(self).elems@,
            final(self).datas@ == old(self).datas@,
            final(self).modules@ == old(self).modules@,
    {
        let ghost m0 = mems_model(self.mems@);
        let n = data_items.len();
        let mut i: usize = 0;
        while i < n
            invariant
                0 <= i <= n,
                n == data_items@.len(),
                m0 == mems_model(old(self).mems@),
                spec_init_data(m0, inst.memaddrs@, data_items@, 0) == spec_init_data(
                    mems_model(self.mems@),
                    inst.memaddrs@,
                    data_items@,
                    i as int,
                ),
                self.mems@.len() == old(self).mems@.len(),
                self.funcs@ == old(self).funcs@,
                self.tables@ == old(self).tables@,
                self.globals@ == old(self).globals@,
                self.elems@ == old(self).elems@,
                self.datas@ == old(self).datas@,
                self.modules@ == old(self).modules@,
            decreases n - i,
        {
            let d = &data_items[i];
            if d.header.flags != 0x01 {
                let memidx: u32 = if d.header.flags == 0x02 {
                    match d.header.memidx {
                        Some(mi) => mi,
                        None => 0,
                    }
                } else {
                    0
                };
                let offset = match &d.header.offset {
                    Some(expr) => match eval_const_expr(expr.code) {
                        Ok(v) => v,
                        Err(e) => {
                            return Err(e);
                        },
                    },
                    None => {
                        return Err(AwwasmInstantiationError::InvalidConstExpr {
                            description: crate::util::str_bytes_vec(
                                "data segment missing offset expression",
                            ),
                        });
                    },
                };
                if (memidx as usize) >= inst.memaddrs.len() {
                    return Err(AwwasmInstantiationError::DataSegmentOutOfBounds {
                        segment_idx: #[verifier::truncate] (i as u32),
                        offset,
                        size: #[verifier::truncate] (d.data_bytes.len() as u32),
                        memory_size: 0,
                    });
                }
                let mem_addr = inst.memaddrs[memidx as usize];
                if (mem_addr.0 as usize) >= self.mems.len() {
                    return Err(AwwasmInstantiationError::DataSegmentOutOfBounds {
                        segment_idx: #[verifier::truncate] (i as u32),
                        offset,
                        size: #[verifier::truncate] (d.data_bytes.len() as u32),
                        memory_size: 0,
                    });
                }
                let mlen = self.mems[mem_addr.0 as usize].data.len();
                if d.data_bytes.len() as u64 > mlen as u64 || offset as u64 > mlen as u64
                    - d.data_bytes.len() as u64 {
                    return Err(AwwasmInstantiationError::DataSegmentOutOfBounds {
                        segment_idx: #[verifier::truncate] (i as u32),
                        offset,
                        size: #[verifier::truncate] (d.data_bytes.len() as u32),
                        memory_size: #[verifier::truncate] (mlen as u32),
                    });
                }
                let ghost pre = self.mems@;
                let mem = vstd::std_specs::vec::vec_index_mut(
                    &mut self.mems,
                    mem_addr.0 as usize,
                );
                let wr = mem.write(offset, d.data_bytes);
                proof {
                    assert(wr is Ok);
                }
                proof {
                    lemma_mems_model_update(
                        pre,
                        mem_addr.0 as int,
                        self.mems@[mem_addr.0 as int],
                    );
                }
            }
            i = i + 1;
        }
        Ok(())
    }
}

impl<'a> AwwasmStore<'a> {
    /// Instantiate a parsed module into this Store.
    ///
    /// The pipeline, in order: resolve imports against the embedder's
    /// set, check the function and code sections agree, allocate the
    /// module's functions (lazy, owned by the pre-committed module
    /// address), memories, and data segment instances, resolve exports,
    /// copy the active data segments into linear memory, and register
    /// the module instance.  On success the returned address equals the
    /// module count before the call.  A failure aborts at the first
    /// offending step and leaves everything already allocated in place.
    pub fn store_init(
        &mut self,
        module: &AwwasmModule<'a>,
        imports: &mut AwwasmImports<'a>,
    ) -> (r: Result<AwwasmModuleAddr, AwwasmInstantiationError>)
        requires
            spec_init_fits(*old(self), *module),
        ensures
            ({
                let out = spec_store_init(store_model(*old(self)), *module, old(imports)@);
                &&& final(self).funcs@ == out.funcs
                &&& mems_model(final(self).mems@) == out.mems
                &&& final(self).globals@ == out.globals
                &&& final(self).datas@ == out.datas
                &&& final(self).tables@ == old(self).tables@
                &&& final(self).elems@ == old(self).elems@
                &&& final(imports)@ == out.entries
                &&& (r is Ok <==> out.result is Ok)
                &&& (out.result matches Ok(a) ==> {
                    &&& r == Ok::<AwwasmModuleAddr, AwwasmInstantiationError>(a)
                    &&& a == AwwasmModuleAddr(old(self).modules@.len() as u32)
                    &&& final(self).modules@.len() == old(self).modules@.len() + 1
                    &&& final(self).modules@.drop_last() == old(self).modules@
                    &&& final(self).modules@.last().funcaddrs@ == out.funcaddrs
                    &&& final(self).modules@.last().tableaddrs@.len() == 0
                    &&& final(self).modules@.last().memaddrs@ == out.memaddrs
                    &&& final(self).modules@.last().globaladdrs@ == out.globaladdrs
                    &&& final(self).modules@.last().elemaddrs@.len() == 0
                    &&& final(self).modules@.last().dataaddrs@ == out.dataaddrs
                    &&& final(self).modules@.last().exports@ == out.exports
                    &&& final(self).modules@.last().start is None
                })
                &&& (out.result matches Err(ev) ==> (r matches Err(e) && e.view_err() == ev
                    && final(self).modules@ == old(self).modules@))
            }),
    {
        let mut module_inst = AwwasmModuleInst::new();
        proof {
            assert(module_inst.funcaddrs@ =~= Seq::<AwwasmFuncAddr>::empty());
            assert(module_inst.tableaddrs@ =~= Seq::<AwwasmTableAddr>::empty());
            assert(module_inst.memaddrs@ =~= Seq::<AwwasmMemAddr>::empty());
            assert(module_inst.globaladdrs@ =~= Seq::<AwwasmGlobalAddr>::empty());
            assert(module_inst.elemaddrs@ =~= Seq::<AwwasmElemAddr>::empty());
            assert(module_inst.dataaddrs@ =~= Seq::<AwwasmDataAddr>::empty());
            assert(module_inst.exports@ =~= Seq::<AwwasmExportInst<'a>>::empty());
            lemma_resolve_imports_len(
                import_state_of(*self, *imports, module_inst),
                opt_items(module.imports),
            );
        }

        // Step 1 — imports
        match &module.imports {
            Some(items) => {
                match self.resolve_imports_phase(items, imports, &mut module_inst) {
                    Ok(()) => {},
                    Err(e) => {
                        return Err(e);
                    },
                }
            },
            None => {},
        }

        // Step 2 — module functions
        let func_len = match &module.funcs {
            Some(v) => v.len(),
            None => 0,
        };
        let code_len = match &module.code {
            Some(v) => v.len(),
            None => 0,
        };
        if func_len > 0 && func_len != code_len {
            return Err(AwwasmInstantiationError::FuncCodeMismatch {
                func_count: #[verifier::truncate] (func_len as u32),
                code_count: #[verifier::truncate] (code_len as u32),
            });
        }
        let pending = AwwasmModuleAddr(self.modules.len() as u32);
        match &module.code {
            Some(code_items) => {
                self.alloc_module_funcs(code_items, pending, &mut module_inst);
            },
            None => {},
        }

        // Step 3 — memories
        match &module.memories {
            Some(mem_items) => {
                match self.alloc_module_mems(mem_items, &mut module_inst) {
                    Ok(()) => {},
                    Err(e) => {
                        return Err(e);
                    },
                }
            },
            None => {},
        }

        // Step 5 — data segment instances
        match &module.data {
            Some(data_items) => {
                self.alloc_module_datas(data_items, &mut module_inst);
            },
            None => {},
        }

        // Step 6 — exports
        match &module.exports {
            Some(export_items) => {
                match resolve_exports_phase(&mut module_inst, export_items) {
                    Ok(()) => {},
                    Err(e) => {
                        return Err(e);
                    },
                }
            },
            None => {},
        }

        // Step 7 — active data initialization
        match &module.data {
            Some(data_items) => {
                match self.init_active_data(data_items, &module_inst) {
                    Ok(()) => {},
                    Err(e) => {
                        return Err(e);
                    },
                }
            },
            None => {},
        }

        // Step 8 — register the module
        let addr = self.register_module(module_inst);
        proof {
            assert(self.modules@.drop_last() =~= old(self).modules@);
        }
        Ok(addr)
    }
}

/// Resolve the export list into the module instance's export
/// directory, looking each module-local index up in the address array
/// of its kind.
fn resolve_exports_phase<'a>(
    inst: &mut AwwasmModuleInst<'a>,
    items: &Vec<AwwasmExportItem<'a>>,
) -> (r: Result<(), AwwasmInstantiationError>)
    ensures
        ({
            let o = spec_resolve_exports(
                old(inst).funcaddrs@,
                old(inst).tableaddrs@,
                old(inst).memaddrs@,
                old(inst).globaladdrs@,
                old(inst).exports@,
                items@,
            );
            &&& final(inst).exports@ == o.exports
            &&& (r is Ok <==> o.error is None)
            &&& (r matches Err(e) ==> o.error == Some(e.view_err()))
        }),
        final(inst).funcaddrs@ == old(inst).funcaddrs@,
        final(inst).tableaddrs@ == old(inst).tableaddrs@,
        final(inst).memaddrs@ == old(inst).memaddrs@,
        final(inst).globaladdrs@ == old(inst).globaladdrs@,
        final(inst).elemaddrs@ == old(inst).elemaddrs@,
        final(inst).dataaddrs@ == old(inst).dataaddrs@,
        final(inst).start == old(inst).start,
{
    let ghost e0 = inst.exports@;
    proof {
        assert(items@.skip(0) =~= items@);
    }
    let n = items.len();
    let mut i: usize = 0;
    while i < n
        invariant
            0 <= i <= n,
            n == items@.len(),
            e0 == old(inst).exports@,
            spec_resolve_exports(
                old(inst).funcaddrs@,
                old(inst).tableaddrs@,
                old(inst).memaddrs@,
                old(inst).globaladdrs@,
                e0,
                items@,
            ) == spec_resolve_exports(
                inst.funcaddrs@,
                inst.tableaddrs@,
                inst.memaddrs@,
                inst.globaladdrs@,
                inst.exports@,
                items@.skip(i as int),
            ),
            inst.funcaddrs@ == old(inst).funcaddrs@,
            inst.tableaddrs@ == old(inst).tableaddrs@,
            inst.memaddrs@ == old(inst).memaddrs@,
            inst.globaladdrs@ == old(inst).globaladdrs@,
            inst.elemaddrs@ == old(inst).elemaddrs@,
            inst.dataaddrs@ == old(inst).dataaddrs@,
            inst.start == old(inst).start,
        decreases n - i,
    {
        proof {
            assert(items@.skip(i as int)[0] == items@[i as int]);
            assert(items@.skip(i as int).drop_first() =~= items@.skip(i as int + 1));
        }
        let it = &items[i];
        let addr = match it.kind {
            AwwasmExportKind::Function => {
                if (it.index as usize) < inst.funcaddrs.len() {
                    AwwasmExternAddr::Func(inst.funcaddrs[it.index as usize])
                } else {
                    return Err(AwwasmInstantiationError::MissingImport {
                        module: crate::util::str_bytes_vec("self"),
                        name: bytes_vec(it.name),
                    });
                }
            },
            AwwasmExportKind::Table => {
                if (it.index as usize) < inst.tableaddrs.len() {
                    AwwasmExternAddr::Table(inst.tableaddrs[it.index as usize])
                } else {
                    return Err(AwwasmInstantiationError::MissingImport {
                        module: crate::util::str_bytes_vec("self"),
                        name: bytes_vec(it.name),
                    });
                }
            },
            AwwasmExportKind::Memory => {
                if (it.index as usize) < inst.memaddrs.len() {
                    AwwasmExternAddr::Mem(inst.memaddrs[it.index as usize])
                } else {
                    return Err(AwwasmInstantiationError::MissingImport {
                        module: crate::util::str_bytes_vec("self"),
                        name: bytes_vec(it.name),
                    });
                }
            },
            AwwasmExportKind::Global => {
                if (it.index as usize) < inst.globaladdrs.len() {
                    AwwasmExternAddr::Global(inst.globaladdrs[it.index as usize])
                } else {
                    return Err(AwwasmInstantiationError::MissingImport {
                        module: crate::util::str_bytes_vec("self"),
                        name: bytes_vec(it.name),
                    });
                }
            },
        };
        inst.exports.push(AwwasmExportInst::new(it.name, addr));
        i = i + 1;
    }
    proof {
        assert(items@.skip(n as int) =~= Seq::<AwwasmExportItem<'a>>::empty());
    }
    Ok(())
}

/// Address stability for function addresses: however the Store grows —
/// its function list only ever extended — the instance at an address
/// handed out earlier is unchanged.
pub proof fn lemma_func_addr_stable(s0: AwwasmStore, s1: AwwasmStore, addr: AwwasmFuncAddr)
    requires
        s0.funcs@.is_prefix_of(s1.funcs@),
        addr.0 < s0.funcs@.len(),
    ensures
        s1.funcs@[addr.0 as int] == s0.funcs@[addr.0 as int],
{
}

/// Address stability for table addresses.
pub proof fn lemma_table_addr_stable(s0: AwwasmStore, s1: AwwasmStore, addr: AwwasmTableAddr)
    requires
        s0.tables@.is_prefix_of(s1.tables@),
        addr.0 < s0.tables@.len(),
    ensures
        s1.tables@[addr.0 as int] == s0.tables@[addr.0 as int],
{
}

/// Address stability for memory addresses.
pub proof fn lemma_mem_addr_stable(s0: AwwasmStore, s1: AwwasmStore, addr: AwwasmMemAddr)
    requires
        s0.mems@.is_prefix_of(s1.mems@),
        addr.0 < s0.mems@.len(),
    ensures
        s1.mems@[addr.0 as int] == s0.mems@[addr.0 as int],
{
}

/// Address stability for global addresses.
pub proof fn lemma_global_addr_stable(s0: AwwasmStore, s1: AwwasmStore, addr: AwwasmGlobalAddr)
    requires
        s0.globals@.is_prefix_of(s1.globals@),
        addr.0 < s0.globals@.len(),
    ensures
        s1.globals@[addr.0 as int] == s0.globals@[addr.0 as int],
{
}

} // verus!
