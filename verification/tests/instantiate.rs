//! End-to-end instantiation scenarios.  Each test hand-builds the
//! parsed form a byte-level parser would produce for the wasm source
//! named in the comment.

use awwasm_runtime::error::AwwasmInstantiationError;
use awwasm_runtime::func::{AwwasmFuncInst, LazyResolvedCodeRef};
use awwasm_runtime::global::{AwwasmGlobalInst, AwwasmGlobalType};
use awwasm_runtime::memory::{AwwasmMemInst, AwwasmMemoryType};
use awwasm_runtime::parsed::{
    AwwasmCodeItem, AwwasmDataHeader, AwwasmDataItem, AwwasmExportItem, AwwasmExportKind,
    AwwasmFuncItem, AwwasmImportItem, AwwasmImportKind, AwwasmInitExpr, AwwasmMemoryItem,
    AwwasmMemoryParams, AwwasmModule,
};
use awwasm_runtime::values::{AwwasmExternAddr, AwwasmValue, AwwasmValueType};
use awwasm_runtime::AwwasmImports;
use awwasm_runtime::AwwasmStore;

fn memory_item(min: u32, max: Option<u32>) -> AwwasmMemoryItem {
    AwwasmMemoryItem {
        limits: AwwasmMemoryParams { flags: if max.is_some() { 1 } else { 0 }, min, max },
    }
}

#[test]
fn test_instantiate_minimal_module() {
    // (module)
    let module = AwwasmModule::empty();

    let mut store = AwwasmStore::new();
    let mut imports = AwwasmImports::new();
    let addr = store.store_init(&module, &mut imports).unwrap();

    assert_eq!(addr.0, 0);
    assert_eq!(store.module_count(), 1);
    let inst = store.module(addr).unwrap();
    assert_eq!(inst.funcaddrs.len(), 0);
    assert_eq!(inst.memaddrs.len(), 0);
    assert_eq!(inst.exports.len(), 0);
}

#[test]
fn test_instantiate_with_memory() {
    // (module (memory 1 4))
    let mut module = AwwasmModule::empty();
    module.memories = Some(vec![memory_item(1, Some(4))]);

    let mut store = AwwasmStore::new();
    let mut imports = AwwasmImports::new();
    let addr = store.store_init(&module, &mut imports).unwrap();

    let inst = store.module(addr).unwrap();
    assert_eq!(inst.memaddrs.len(), 1);
    let mem = store.mem(inst.memaddrs[0]).unwrap();
    assert_eq!(mem.data.len(), 65536);
    assert_eq!(mem.type_.max, Some(4));
}

#[test]
fn test_instantiate_with_function() {
    // (module (func (result i32) (i32.const 42)))
    let body: &[u8] = &[0x00, 0x41, 0x2a, 0x0b];
    let mut module = AwwasmModule::empty();
    module.code = Some(vec![AwwasmCodeItem { func_body: body }]);

    let mut store = AwwasmStore::new();
    let mut imports = AwwasmImports::new();
    let addr = store.store_init(&module, &mut imports).unwrap();

    let inst = store.module(addr).unwrap();
    assert_eq!(inst.funcaddrs.len(), 1);

    let func = store.func(inst.funcaddrs[0]).unwrap();
    match func {
        AwwasmFuncInst::Wasm(wasm_func) => {
            assert!(matches!(wasm_func.code, LazyResolvedCodeRef::Unparsed { .. }));
            assert_eq!(wasm_func.module, addr);
        }
        _ => panic!("expected wasm function"),
    }
}

#[test]
fn test_instantiate_with_data_segment() {
    // (module (memory 1) (data (i32.const 16) "hello"))
    let offset_expr: &[u8] = &[0x41, 0x10, 0x0b];
    let mut module = AwwasmModule::empty();
    module.memories = Some(vec![memory_item(1, None)]);
    module.data = Some(vec![AwwasmDataItem {
        header: AwwasmDataHeader {
            flags: 0,
            memidx: None,
            offset: Some(AwwasmInitExpr { code: offset_expr }),
        },
        data_bytes: b"hello",
    }]);

    let mut store = AwwasmStore::new();
    let mut imports = AwwasmImports::new();
    let addr = store.store_init(&module, &mut imports).unwrap();

    let inst = store.module(addr).unwrap();
    let mem = store.mem(inst.memaddrs[0]).unwrap();

    assert_eq!(&mem.data[16..21], b"hello");
    assert_eq!(mem.data[15], 0);
    assert_eq!(mem.data[21], 0);
}

#[test]
fn test_instantiate_with_exports() {
    // (module (memory (export "memory") 1)
    //         (func (export "add") (result i32) (i32.const 0)))
    let body: &[u8] = &[0x00, 0x41, 0x00, 0x0b];
    let mut module = AwwasmModule::empty();
    module.memories = Some(vec![memory_item(1, None)]);
    module.code = Some(vec![AwwasmCodeItem { func_body: body }]);
    module.exports = Some(vec![
        AwwasmExportItem { name: b"memory", kind: AwwasmExportKind::Memory, index: 0 },
        AwwasmExportItem { name: b"add", kind: AwwasmExportKind::Function, index: 0 },
    ]);

    let mut store = AwwasmStore::new();
    let mut imports = AwwasmImports::new();
    let addr = store.store_init(&module, &mut imports).unwrap();

    let inst = store.module(addr).unwrap();
    assert_eq!(inst.exports.len(), 2);

    let mem_export = inst.exports.iter().find(|e| e.name == b"memory").unwrap();
    assert!(matches!(mem_export.addr, AwwasmExternAddr::Mem(_)));

    let func_export = inst.exports.iter().find(|e| e.name == b"add").unwrap();
    assert!(matches!(func_export.addr, AwwasmExternAddr::Func(_)));
}

#[test]
fn test_instantiate_with_imports() {
    // (module (import "env" "memory" (memory 1)))
    let mut module = AwwasmModule::empty();
    module.imports = Some(vec![AwwasmImportItem {
        module: b"env",
        name: b"memory",
        kind: AwwasmImportKind::Memory,
    }]);

    let mut store = AwwasmStore::new();
    let mut imports = AwwasmImports::new();
    let mem = AwwasmMemInst::new(AwwasmMemoryType::new(1, None));
    imports.add_memory(b"env", b"memory", mem);

    let addr = store.store_init(&module, &mut imports).unwrap();
    let inst = store.module(addr).unwrap();
    assert_eq!(inst.memaddrs.len(), 1);
    // No module-defined memory was allocated: only the imported one.
    assert_eq!(store.mem_count(), 1);
}

#[test]
fn test_instantiate_import_mismatch() {
    // (module (import "env" "memory" (memory 1))) with no imports given
    let mut module = AwwasmModule::empty();
    module.imports = Some(vec![AwwasmImportItem {
        module: b"env",
        name: b"memory",
        kind: AwwasmImportKind::Memory,
    }]);

    let mut store = AwwasmStore::new();
    let mut imports = AwwasmImports::new();

    let result = store.store_init(&module, &mut imports);
    assert!(result.is_err());
    match result.unwrap_err() {
        AwwasmInstantiationError::MissingImport { module, name } => {
            assert_eq!(module, b"env".to_vec());
            assert_eq!(name, b"memory".to_vec());
        }
        other => panic!("expected MissingImport, got {:?}", other),
    }
}

#[test]
fn test_instantiate_import_kind_mismatch() {
    // A function import satisfied with a global is a type mismatch.
    let mut module = AwwasmModule::empty();
    module.imports = Some(vec![AwwasmImportItem {
        module: b"env",
        name: b"f",
        kind: AwwasmImportKind::Function,
    }]);

    let mut store = AwwasmStore::new();
    let mut imports = AwwasmImports::new();
    imports.add_global(
        b"env",
        b"f",
        AwwasmGlobalInst::new(
            AwwasmGlobalType::immutable(AwwasmValueType::I32),
            AwwasmValue::I32(0),
        ),
    );

    match store.store_init(&module, &mut imports).unwrap_err() {
        AwwasmInstantiationError::ImportTypeMismatch { module, name, expected, got } => {
            assert_eq!(module, b"env".to_vec());
            assert_eq!(name, b"f".to_vec());
            assert_eq!(expected, b"function".to_vec());
            assert_eq!(got, b"other".to_vec());
        }
        other => panic!("expected ImportTypeMismatch, got {:?}", other),
    }
}

#[test]
fn test_instantiate_table_import_unsupported() {
    let mut module = AwwasmModule::empty();
    module.imports = Some(vec![AwwasmImportItem {
        module: b"env",
        name: b"t",
        kind: AwwasmImportKind::Table,
    }]);

    let mut store = AwwasmStore::new();
    let mut imports = AwwasmImports::new();
    match store.store_init(&module, &mut imports).unwrap_err() {
        AwwasmInstantiationError::UnsupportedType { description } => {
            assert_eq!(description, b"table imports not yet supported".to_vec());
        }
        other => panic!("expected UnsupportedType, got {:?}", other),
    }
}

#[test]
fn test_instantiate_func_code_mismatch() {
    let mut module = AwwasmModule::empty();
    module.funcs = Some(vec![AwwasmFuncItem { type_idx: 0 }]);
    module.code = None;

    let mut store = AwwasmStore::new();
    let mut imports = AwwasmImports::new();
    match store.store_init(&module, &mut imports).unwrap_err() {
        AwwasmInstantiationError::FuncCodeMismatch { func_count, code_count } => {
            assert_eq!(func_count, 1);
            assert_eq!(code_count, 0);
        }
        other => panic!("expected FuncCodeMismatch, got {:?}", other),
    }
}

#[test]
fn test_instantiate_memory_limits_rejected() {
    // A declared minimum past the 2^16-page ceiling cannot be allocated.
    let mut module = AwwasmModule::empty();
    module.memories = Some(vec![memory_item(70000, None)]);

    let mut store = AwwasmStore::new();
    let mut imports = AwwasmImports::new();
    match store.store_init(&module, &mut imports).unwrap_err() {
        AwwasmInstantiationError::MemoryAllocationFailed { requested_pages } => {
            assert_eq!(requested_pages, 70000);
        }
        other => panic!("expected MemoryAllocationFailed, got {:?}", other),
    }
}

#[test]
fn test_instantiate_data_segment_out_of_bounds() {
    // One page of memory; the segment would end past it.
    let offset_expr: &[u8] = &[0x41, 0xfe, 0xff, 0x03, 0x0b]; // i32.const 65534
    let mut module = AwwasmModule::empty();
    module.memories = Some(vec![memory_item(1, None)]);
    module.data = Some(vec![AwwasmDataItem {
        header: AwwasmDataHeader {
            flags: 0,
            memidx: None,
            offset: Some(AwwasmInitExpr { code: offset_expr }),
        },
        data_bytes: b"hello",
    }]);

    let mut store = AwwasmStore::new();
    let mut imports = AwwasmImports::new();
    match store.store_init(&module, &mut imports).unwrap_err() {
        AwwasmInstantiationError::DataSegmentOutOfBounds {
            segment_idx,
            offset,
            size,
            memory_size,
        } => {
            assert_eq!(segment_idx, 0);
            assert_eq!(offset, 65534);
            assert_eq!(size, 5);
            assert_eq!(memory_size, 65536);
        }
        other => panic!("expected DataSegmentOutOfBounds, got {:?}", other),
    }
}

#[test]
fn test_instantiate_passive_data_segment_not_copied() {
    let mut module = AwwasmModule::empty();
    module.memories = Some(vec![memory_item(1, None)]);
    module.data = Some(vec![AwwasmDataItem {
        header: AwwasmDataHeader { flags: 1, memidx: None, offset: None },
        data_bytes: b"hello",
    }]);

    let mut store = AwwasmStore::new();
    let mut imports = AwwasmImports::new();
    let addr = store.store_init(&module, &mut imports).unwrap();
    let inst = store.module(addr).unwrap();
    // The instance exists for a later memory.init, but memory is
    // untouched.
    assert_eq!(inst.dataaddrs.len(), 1);
    let mem = store.mem(inst.memaddrs[0]).unwrap();
    assert!(mem.data.iter().all(|&b| b == 0));
}

#[test]
fn test_instantiate_bad_offset_expr() {
    // An i64.const offset expression is not a supported constant form.
    let offset_expr: &[u8] = &[0x42, 0x00, 0x0b];
    let mut module = AwwasmModule::empty();
    module.memories = Some(vec![memory_item(1, None)]);
    module.data = Some(vec![AwwasmDataItem {
        header: AwwasmDataHeader {
            flags: 0,
            memidx: None,
            offset: Some(AwwasmInitExpr { code: offset_expr }),
        },
        data_bytes: b"x",
    }]);

    let mut store = AwwasmStore::new();
    let mut imports = AwwasmImports::new();
    assert!(matches!(
        store.store_init(&module, &mut imports).unwrap_err(),
        AwwasmInstantiationError::InvalidConstExpr { .. }
    ));
}

#[test]
fn test_instantiate_missing_export_index() {
    // An export pointing past the function index space rejects the
    // module.
    let mut module = AwwasmModule::empty();
    module.exports = Some(vec![AwwasmExportItem {
        name: b"f",
        kind: AwwasmExportKind::Function,
        index: 0,
    }]);

    let mut store = AwwasmStore::new();
    let mut imports = AwwasmImports::new();
    match store.store_init(&module, &mut imports).unwrap_err() {
        AwwasmInstantiationError::MissingImport { module, name } => {
            assert_eq!(module, b"self".to_vec());
            assert_eq!(name, b"f".to_vec());
        }
        other => panic!("expected MissingImport, got {:?}", other),
    }
}
