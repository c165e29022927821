use awwasm_runtime::parsed::{AwwasmMemoryParams, ParamType};
use awwasm_runtime::type_convert::{eval_const_expr, memory_params_to_type, param_type_to_value_type};
use awwasm_runtime::values::{AwwasmValue, AwwasmValueType};

#[test]
fn test_value_types() {
    assert_eq!(AwwasmValue::I32(42).value_type(), AwwasmValueType::I32);
    assert_eq!(AwwasmValue::I64(100).value_type(), AwwasmValueType::I64);
    assert_eq!(AwwasmValue::F32(3.14f32.to_bits()).value_type(), AwwasmValueType::F32);
    assert_eq!(AwwasmValue::F64(2.718f64.to_bits()).value_type(), AwwasmValueType::F64);

    assert_eq!(AwwasmValue::I32(42).as_i32(), Some(42));
    assert_eq!(AwwasmValue::I32(42).as_i64(), None);

    assert_eq!(AwwasmValue::default_for_type(AwwasmValueType::I32), AwwasmValue::I32(0));
    assert_eq!(
        AwwasmValue::default_for_type(AwwasmValueType::F64),
        AwwasmValue::F64(0.0f64.to_bits())
    );
}

#[test]
fn test_value_float_bits() {
    let v = AwwasmValue::F32(1.5f32.to_bits());
    assert_eq!(v.as_f32().map(f32::from_bits), Some(1.5f32));
    assert_eq!(v.as_f64(), None);
    let w = AwwasmValue::F64(6.25f64.to_bits());
    assert_eq!(w.as_f64().map(f64::from_bits), Some(6.25f64));
    assert_eq!(w.as_i32(), None);
}

#[test]
fn test_eval_const_expr_i32() {
    assert_eq!(eval_const_expr(&[0x41, 0x00]).unwrap(), 0);
    assert_eq!(eval_const_expr(&[0x41, 0x2a]).unwrap(), 42);
    assert_eq!(eval_const_expr(&[0x41, 0x80, 0x01]).unwrap(), 128);
}

#[test]
fn test_eval_const_expr_negative() {
    assert_eq!(eval_const_expr(&[0x41, 0x7f]).unwrap(), u32::MAX);
}

#[test]
fn test_eval_const_expr_unsupported() {
    assert!(eval_const_expr(&[0x42, 0x00]).is_err());
}

#[test]
fn test_eval_const_expr_with_end_byte() {
    assert_eq!(eval_const_expr(&[0x41, 0x00, 0x0b]).unwrap(), 0);
    assert_eq!(eval_const_expr(&[0x41, 0x2a, 0x0b]).unwrap(), 42);
    assert_eq!(eval_const_expr(&[0x41, 0x80, 0x01, 0x0b]).unwrap(), 128);
    assert_eq!(eval_const_expr(&[0x41, 0x7f, 0x0b]).unwrap(), u32::MAX);
    assert!(eval_const_expr(&[0x42, 0x00, 0x0b]).is_err());
}

#[test]
fn test_eval_const_expr_malformed() {
    // Empty, truncated, and over-long encodings are all rejected.
    assert!(eval_const_expr(&[]).is_err());
    assert!(eval_const_expr(&[0x41]).is_err());
    assert!(eval_const_expr(&[0x41, 0x80]).is_err());
    assert!(eval_const_expr(&[0x41, 0x80, 0x80, 0x80, 0x80, 0x80, 0x00]).is_err());
}

#[test]
fn test_param_type_conversion() {
    assert_eq!(param_type_to_value_type(&ParamType::I32).unwrap(), AwwasmValueType::I32);
    assert_eq!(param_type_to_value_type(&ParamType::I64).unwrap(), AwwasmValueType::I64);
    assert!(param_type_to_value_type(&ParamType::IUnknown).is_err());
}

#[test]
fn test_memory_params_conversion() {
    let params = AwwasmMemoryParams { flags: 1, min: 1, max: Some(4) };
    let ty = memory_params_to_type(&params);
    assert_eq!(ty.min, 1);
    assert_eq!(ty.max, Some(4));
}
