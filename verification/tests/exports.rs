use awwasm_runtime::func::AwwasmElemInst;
use awwasm_runtime::instance::AwwasmExportInst;
use awwasm_runtime::table::AwwasmElemType;
use awwasm_runtime::global::{AwwasmGlobalInst, AwwasmGlobalType};
use awwasm_runtime::values::{
    AwwasmExternAddr, AwwasmFuncAddr, AwwasmGlobalAddr, AwwasmMemAddr, AwwasmTableAddr,
    AwwasmValue, AwwasmValueType,
};
use awwasm_runtime::AwwasmImports;
use awwasm_runtime::AwwasmModuleInst;

fn inst_with_exports() -> AwwasmModuleInst<'static> {
    let mut inst = AwwasmModuleInst::new();
    inst.exports.push(AwwasmExportInst::new(
        b"memory",
        AwwasmExternAddr::Mem(AwwasmMemAddr(3)),
    ));
    inst.exports.push(AwwasmExportInst::new(
        b"add",
        AwwasmExternAddr::Func(AwwasmFuncAddr(1)),
    ));
    inst.exports.push(AwwasmExportInst::new(
        b"add",
        AwwasmExternAddr::Func(AwwasmFuncAddr(2)),
    ));
    inst
}

#[test]
fn test_export_lookup_first_match() {
    let inst = inst_with_exports();
    // Lookup is byte-exact and returns the first entry with the name,
    // in declaration order.
    let e = inst.export(b"add").unwrap();
    assert_eq!(e.addr, AwwasmExternAddr::Func(AwwasmFuncAddr(1)));
    let m = inst.export(b"memory").unwrap();
    assert_eq!(m.addr, AwwasmExternAddr::Mem(AwwasmMemAddr(3)));
    assert!(inst.export(b"missing").is_none());
    assert!(inst.export(b"Add").is_none());
}

#[test]
fn test_export_by_str() {
    let inst = inst_with_exports();
    let e = inst.export_by_str("add").unwrap();
    assert_eq!(e.addr, AwwasmExternAddr::Func(AwwasmFuncAddr(1)));
    assert!(inst.export_by_str("nope").is_none());
}

#[test]
fn test_export_name_str() {
    let e = AwwasmExportInst::new(b"main", AwwasmExternAddr::Func(AwwasmFuncAddr(0)));
    assert_eq!(e.name_str(), Some("main"));
    let bad: &[u8] = &[0xff, 0xfe];
    let e = AwwasmExportInst::new(bad, AwwasmExternAddr::Func(AwwasmFuncAddr(0)));
    assert_eq!(e.name_str(), None);
}

#[test]
fn test_func_and_mem_exports() {
    let inst = inst_with_exports();
    let funcs = inst.func_exports();
    assert_eq!(funcs.len(), 2);
    assert_eq!(funcs[0], (b"add" as &[u8], AwwasmFuncAddr(1)));
    assert_eq!(funcs[1], (b"add" as &[u8], AwwasmFuncAddr(2)));
    let mems = inst.mem_exports();
    assert_eq!(mems.len(), 1);
    assert_eq!(mems[0], (b"memory" as &[u8], AwwasmMemAddr(3)));
}

#[test]
fn test_module_inst_lookups() {
    let mut inst = AwwasmModuleInst::new();
    inst.tableaddrs.push(AwwasmTableAddr(5));
    inst.globaladdrs.push(AwwasmGlobalAddr(6));
    assert_eq!(inst.table(0), Some(AwwasmTableAddr(5)));
    assert_eq!(inst.table(1), None);
    assert_eq!(inst.global(0), Some(AwwasmGlobalAddr(6)));
    assert_eq!(inst.elem(0), None);
    assert_eq!(inst.data(0), None);
    assert!(inst.start.is_none());
}

#[test]
fn test_elem_instance_drop() {
    let mut elem = AwwasmElemInst::new(
        AwwasmElemType::FuncRef,
        vec![Some(AwwasmFuncAddr(1)), None, Some(AwwasmFuncAddr(2))],
    );
    assert!(!elem.dropped);
    assert_eq!(elem.elem.len(), 3);
    elem.drop_elem();
    assert!(elem.dropped);
    assert_eq!(elem.elem.len(), 0);
}

#[test]
fn test_extern_addr_from() {
    assert_eq!(
        AwwasmExternAddr::from(AwwasmFuncAddr(1)),
        AwwasmExternAddr::Func(AwwasmFuncAddr(1))
    );
    assert_eq!(
        AwwasmExternAddr::from(AwwasmTableAddr(2)),
        AwwasmExternAddr::Table(AwwasmTableAddr(2))
    );
    assert_eq!(
        AwwasmExternAddr::from(AwwasmMemAddr(3)),
        AwwasmExternAddr::Mem(AwwasmMemAddr(3))
    );
    assert_eq!(
        AwwasmExternAddr::from(AwwasmGlobalAddr(4)),
        AwwasmExternAddr::Global(AwwasmGlobalAddr(4))
    );
}

#[test]
fn test_import_set_find_and_take() {
    let mut imports = AwwasmImports::new();
    imports.add_global(
        b"env",
        b"g",
        AwwasmGlobalInst::new(
            AwwasmGlobalType::mutable(AwwasmValueType::I32),
            AwwasmValue::I32(5),
        ),
    );
    assert!(imports.find(b"env", b"g").is_some());
    assert!(imports.find(b"env", b"h").is_none());
    let taken = imports.take(b"env", b"g").unwrap();
    assert_eq!(taken.module, b"env");
    assert_eq!(taken.name, b"g");
    // The set is consumed destructively.
    assert!(imports.take(b"env", b"g").is_none());
}
