use awwasm_runtime::error::AwwasmTrap;
use awwasm_runtime::table::{AwwasmElemType, AwwasmTableInst, AwwasmTableType};
use awwasm_runtime::values::AwwasmFuncAddr;

#[test]
fn test_table_new_is_null_filled() {
    let table = AwwasmTableInst::new(AwwasmTableType::funcref(3, None));
    assert_eq!(table.size(), 3);
    assert_eq!(table.type_.elem_type, AwwasmElemType::FuncRef);
    for i in 0..3 {
        assert_eq!(table.get(i).unwrap(), None);
    }
}

#[test]
fn test_table_set_get_bounds() {
    let mut table = AwwasmTableInst::new(AwwasmTableType::funcref(2, None));
    table.set(1, Some(AwwasmFuncAddr(7))).unwrap();
    assert_eq!(table.get(1).unwrap(), Some(AwwasmFuncAddr(7)));
    let err = table.get(2).unwrap_err();
    assert_eq!(err, AwwasmTrap::TableOutOfBounds { index: 2, table_size: 2 });
    let err = table.set(5, None).unwrap_err();
    assert_eq!(err, AwwasmTrap::TableOutOfBounds { index: 5, table_size: 2 });
}

#[test]
fn test_table_grow_fills_with_init() {
    let mut table = AwwasmTableInst::new(AwwasmTableType::funcref(1, Some(8)));
    let init = Some(AwwasmFuncAddr(42));
    assert_eq!(table.grow(3, init), Some(1));
    assert_eq!(table.size(), 4);
    // Every new slot holds the init value; the old slot is untouched.
    assert_eq!(table.get(0).unwrap(), None);
    for i in 1..4 {
        assert_eq!(table.get(i).unwrap(), init);
    }
    // Growth past the maximum is refused and changes nothing.
    assert_eq!(table.grow(5, None), None);
    assert_eq!(table.size(), 4);
}

#[test]
fn test_table_fill() {
    let mut table = AwwasmTableInst::new(AwwasmTableType::funcref(5, None));
    table.fill(1, Some(AwwasmFuncAddr(9)), 3).unwrap();
    assert_eq!(table.get(0).unwrap(), None);
    assert_eq!(table.get(1).unwrap(), Some(AwwasmFuncAddr(9)));
    assert_eq!(table.get(3).unwrap(), Some(AwwasmFuncAddr(9)));
    assert_eq!(table.get(4).unwrap(), None);
    assert!(table.fill(4, None, 2).is_err());
}

#[test]
fn test_table_copy_within_overlap() {
    let mut table = AwwasmTableInst::new(AwwasmTableType::funcref(6, None));
    for i in 0..6 {
        table.set(i, Some(AwwasmFuncAddr(i))).unwrap();
    }
    // Overlapping copy preserves the source values.
    table.copy_within(2, 0, 4).unwrap();
    let expect = [0u32, 1, 0, 1, 2, 3];
    for (i, &v) in expect.iter().enumerate() {
        assert_eq!(table.get(i as u32).unwrap(), Some(AwwasmFuncAddr(v)));
    }
}

#[test]
fn test_table_copy_within_bounds() {
    let mut table = AwwasmTableInst::new(AwwasmTableType::funcref(4, None));
    let err = table.copy_within(0, 3, 2).unwrap_err();
    assert_eq!(err, AwwasmTrap::TableOutOfBounds { index: 3, table_size: 4 });
    let err = table.copy_within(3, 0, 2).unwrap_err();
    assert_eq!(err, AwwasmTrap::TableOutOfBounds { index: 3, table_size: 4 });
}
