use awwasm_runtime::error::{AwwasmRuntimeError, AwwasmTrap};

#[test]
fn test_trap_messages() {
    assert_eq!(AwwasmTrap::DivisionByZero.message(), b"division by zero".to_vec());
    assert_eq!(AwwasmTrap::Unreachable.message(), b"unreachable".to_vec());
    assert_eq!(
        AwwasmTrap::MemoryOutOfBounds { offset: 65533, size: 4, memory_size: 65536 }.message(),
        b"memory out of bounds: offset=65533, size=4, memory_size=65536".to_vec()
    );
    assert_eq!(
        AwwasmTrap::TableOutOfBounds { index: 10, table_size: 6 }.message(),
        b"table out of bounds: index=10, table_size=6".to_vec()
    );
    assert_eq!(
        AwwasmTrap::IndirectCallTypeMismatch { expected_type: 1, actual_type: 0 }.message(),
        b"indirect call type mismatch: expected=1, actual=0".to_vec()
    );
}

#[test]
fn test_runtime_error_messages() {
    assert_eq!(
        AwwasmRuntimeError::Trap(AwwasmTrap::StackOverflow).message(),
        b"trap: stack overflow".to_vec()
    );
    assert_eq!(
        AwwasmRuntimeError::InvalidFuncAddr(17).message(),
        b"invalid function address: 17".to_vec()
    );
    assert_eq!(
        AwwasmRuntimeError::ImmutableGlobal(3).message(),
        b"global 3 is immutable".to_vec()
    );
    assert_eq!(
        AwwasmRuntimeError::TypeMismatch {
            expected: b"i32".to_vec(),
            got: b"i64".to_vec(),
        }
        .message(),
        b"type mismatch: expected i32, got i64".to_vec()
    );
    assert_eq!(
        AwwasmRuntimeError::from(AwwasmTrap::DivisionByZero),
        AwwasmRuntimeError::Trap(AwwasmTrap::DivisionByZero)
    );
}
