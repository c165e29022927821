use awwasm_runtime::func::{AwwasmDataInst, AwwasmFuncInst};
use awwasm_runtime::global::{AwwasmGlobalInst, AwwasmGlobalType};
use awwasm_runtime::memory::{AwwasmMemInst, AwwasmMemoryType};
use awwasm_runtime::table::{AwwasmTableInst, AwwasmTableType};
use awwasm_runtime::values::{
    AwwasmFuncAddr, AwwasmMemAddr, AwwasmModuleAddr, AwwasmValue, AwwasmValueType,
};
use awwasm_runtime::AwwasmModuleInst;
use awwasm_runtime::AwwasmStore;

#[test]
fn test_store_creation() {
    let store: AwwasmStore = AwwasmStore::new();
    assert_eq!(store.func_count(), 0);
    assert_eq!(store.mem_count(), 0);
    assert_eq!(store.table_count(), 0);
    assert_eq!(store.global_count(), 0);
}

#[test]
fn test_memory_allocation_and_access() {
    let mut store: AwwasmStore = AwwasmStore::new();

    // Allocate a memory with 1 page minimum
    let mem = AwwasmMemInst::new(AwwasmMemoryType::new(1, Some(2)));
    let addr = store.alloc_mem(mem);

    assert_eq!(store.mem_count(), 1);

    // Write and read back
    let mem = store.mem_mut(addr).unwrap();
    mem.write_i32(0, 42).unwrap();
    assert_eq!(mem.read_i32(0).unwrap(), 42);

    // Test grow
    let old_size = mem.grow(1).unwrap();
    assert_eq!(old_size, 1);
    assert_eq!(mem.size_pages(), 2);

    // Grow beyond max should fail
    assert!(mem.grow(1).is_none());
}

#[test]
fn test_table_allocation_and_access() {
    let mut store: AwwasmStore = AwwasmStore::new();

    let table = AwwasmTableInst::new(AwwasmTableType::funcref(4, Some(8)));
    let addr = store.alloc_table(table);

    let table = store.table_mut(addr).unwrap();
    assert_eq!(table.size(), 4);

    // Set and get
    table.set(0, Some(AwwasmFuncAddr(42))).unwrap();
    assert_eq!(table.get(0).unwrap(), Some(AwwasmFuncAddr(42)));

    // Null by default
    assert_eq!(table.get(1).unwrap(), None);

    // Grow
    let old = table.grow(2, None).unwrap();
    assert_eq!(old, 4);
    assert_eq!(table.size(), 6);

    // Bounds checking
    assert!(table.get(10).is_err());
}

#[test]
fn test_global_allocation() {
    let mut store: AwwasmStore = AwwasmStore::new();

    // Mutable global
    let global = AwwasmGlobalInst::new(
        AwwasmGlobalType::mutable(AwwasmValueType::I32),
        AwwasmValue::I32(100),
    );
    let addr = store.alloc_global(global);

    let global = store.global_mut(addr).unwrap();
    assert_eq!(global.get(), AwwasmValue::I32(100));

    global.set(AwwasmValue::I32(200)).unwrap();
    assert_eq!(global.get(), AwwasmValue::I32(200));
}

#[test]
fn test_immutable_global() {
    let mut global = AwwasmGlobalInst::new(
        AwwasmGlobalType::immutable(AwwasmValueType::I64),
        AwwasmValue::I64(42),
    );

    assert_eq!(global.get(), AwwasmValue::I64(42));
    assert!(!global.is_mutable());
    assert!(global.set(AwwasmValue::I64(0)).is_err());
    // The failed write leaves the value unchanged.
    assert_eq!(global.get(), AwwasmValue::I64(42));
}

#[test]
fn test_function_allocation() {
    let mut store: AwwasmStore = AwwasmStore::new();

    // Create a wasm function
    let code: &[u8] = &[0x00, 0x0b]; // empty function body
    let func = AwwasmFuncInst::wasm(0, AwwasmModuleAddr(0), code);
    let addr = store.alloc_func(func);

    assert_eq!(store.func_count(), 1);

    let func = store.func(addr).unwrap();
    assert!(func.is_wasm());
    assert_eq!(func.type_idx(), 0);
}

#[test]
fn test_data_instance() {
    let data_bytes: &[u8] = b"Hello, WebAssembly!";
    let mut data = AwwasmDataInst::new(data_bytes);

    assert_eq!(data.bytes(), Some(data_bytes));
    assert!(!data.dropped);

    data.drop_data();
    assert!(data.dropped);
    assert_eq!(data.bytes(), None);
}

#[test]
fn test_module_instance() {
    let mut module = AwwasmModuleInst::new();

    module.funcaddrs.push(AwwasmFuncAddr(0));
    module.funcaddrs.push(AwwasmFuncAddr(1));
    module.memaddrs.push(AwwasmMemAddr(0));

    assert_eq!(module.func(0), Some(AwwasmFuncAddr(0)));
    assert_eq!(module.func(1), Some(AwwasmFuncAddr(1)));
    assert_eq!(module.func(2), None);
    assert_eq!(module.mem(0), Some(AwwasmMemAddr(0)));
}

#[test]
fn test_address_stability() {
    let mut store: AwwasmStore = AwwasmStore::new();
    let mem = AwwasmMemInst::new(AwwasmMemoryType::new(1, None));
    let addr = store.alloc_mem(mem);
    store.mem_mut(addr).unwrap().write_i32(0, 7).unwrap();

    // Later allocations of every kind leave the earlier address valid
    // and its instance untouched.
    for i in 0..5u32 {
        store.alloc_mem(AwwasmMemInst::new(AwwasmMemoryType::new(0, None)));
        store.alloc_table(AwwasmTableInst::new(AwwasmTableType::funcref(1, None)));
        store.alloc_func(AwwasmFuncInst::host(i, i));
    }
    assert_eq!(store.mem(addr).unwrap().read_i32(0).unwrap(), 7);
    assert_eq!(store.mem_count(), 6);
}

#[test]
fn test_store_invalid_addresses() {
    let store: AwwasmStore = AwwasmStore::new();
    assert!(store.func(AwwasmFuncAddr(0)).is_err());
    assert!(store.mem(AwwasmMemAddr(3)).is_err());
    assert!(store.module(AwwasmModuleAddr(0)).is_none());
}

#[test]
fn test_host_function() {
    let func = AwwasmFuncInst::host(2, 9);
    assert!(func.is_host());
    assert!(!func.is_wasm());
    assert_eq!(func.type_idx(), 2);
}
