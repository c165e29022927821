//! Conversions from parsed-module records to runtime types, and the
//! constant-initializer-expression evaluator.
//!
//! The evaluator interprets the single-instruction constant form the
//! binary format uses for data-segment offsets: `i32.const <sleb128>`
//! (opcode 0x41), optionally followed by `end` (0x0B).  Only the
//! leading instruction is interpreted; bytes after the decoded constant
//! are not inspected.

use vstd::prelude::*;

use crate::error::AwwasmInstantiationError;
use crate::memory::AwwasmMemoryType;
use crate::parsed::{AwwasmMemoryParams, ParamType};
use crate::util::str_bytes_vec;
use crate::values::AwwasmValueType;

verus! {

use vstd::string::StringSliceAdditionalSpecFns;

/// Convert the parser's `ParamType` to the runtime's `AwwasmValueType`.
pub fn param_type_to_value_type(pt: &ParamType) -> (r: Result<
    AwwasmValueType,
    AwwasmInstantiationError,
>)
    ensures
        *pt == ParamType::I32 ==> r == Ok::<_, AwwasmInstantiationError>(AwwasmValueType::I32),
        *pt == ParamType::I64 ==> r == Ok::<_, AwwasmInstantiationError>(AwwasmValueType::I64),
        *pt == ParamType::IUnknown ==> (r matches Err(
            AwwasmInstantiationError::UnsupportedType { description },
        ) && description@ == "unknown param type 0x00".spec_bytes()),
{
    match pt {
        ParamType::I32 => Ok(AwwasmValueType::I32),
        ParamType::I64 => Ok(AwwasmValueType::I64),
        ParamType::IUnknown => Err(AwwasmInstantiationError::UnsupportedType {
            description: str_bytes_vec("unknown param type 0x00"),
        }),
    }
}

/// Convert the parser's memory limits to the runtime's memory type.
pub fn memory_params_to_type(params: &AwwasmMemoryParams) -> (r: AwwasmMemoryType)
    ensures
        r == (AwwasmMemoryType { min: params.min, max: params.max }),
{
    AwwasmMemoryType::new(params.min, params.max)
}

/// The SLEB128 decoding of a 32-bit constant, read from `bytes`
/// starting at position `i` with `acc` already holding the groups
/// below bit `shift`: `None` when the bytes run out or the encoding
/// exceeds the five groups a 32-bit value can need.
pub open spec fn spec_sleb128_i32_at(bytes: Seq<u8>, i: int, shift: int, acc: u32) -> Option<u32>
    decreases bytes.len() - i,
{
    if i < 0 || i >= bytes.len() {
        None
    } else if shift >= 35 {
        None
    } else {
        let b = bytes[i];
        let acc2 = acc | (((b & 0x7f) as u32) << (shift as u32));
        if b & 0x80 == 0 {
            if shift + 7 < 32 && b & 0x40 != 0 {
                Some(acc2 | (u32::MAX << ((shift + 7) as u32)))
            } else {
                Some(acc2)
            }
        } else {
            spec_sleb128_i32_at(bytes, i + 1, shift + 7, acc2)
        }
    }
}

/// The value of a constant initializer expression: the `i32.const`
/// opcode followed by a SLEB128-encoded value, reinterpreted as `u32`
/// by two's complement; `None` for any other form.
pub open spec fn spec_eval_const_expr(bytes: Seq<u8>) -> Option<u32> {
    if bytes.len() == 0 || bytes[0] != 0x41 {
        None
    } else {
        spec_sleb128_i32_at(bytes, 1, 0, 0)
    }
}

/// Evaluate a constant initializer expression.
///
/// Returns the constant's value, as a `u32` by two's-complement
/// reinterpretation, exactly when the bytes start with `i32.const`
/// followed by a well-formed SLEB128 value; every other input is
/// rejected as an invalid constant expression.
pub fn eval_const_expr(code: &[u8]) -> (r: Result<u32, AwwasmInstantiationError>)
    ensures
        r is Ok <==> spec_eval_const_expr(code@) is Some,
        r matches Ok(v) ==> Some(v) == spec_eval_const_expr(code@),
        r matches Err(e) ==> (e matches AwwasmInstantiationError::InvalidConstExpr {
            description,
        } && description@ == "unsupported or malformed constant initializer expression".spec_bytes()),
{
    if code.len() == 0 || code[0] != 0x41 {
        return Err(invalid_const_expr_error());
    }
    let mut i: usize = 1;
    let mut shift: u32 = 0;
    let mut acc: u32 = 0;
    loop
        invariant
            1 <= i <= code@.len(),
            shift == 7 * (i - 1),
            shift <= 35,
            code@.len() >= 1 && code@[0] == 0x41,
            spec_eval_const_expr(code@) == spec_sleb128_i32_at(code@, i as int, shift as int, acc),
        decreases code@.len() - i,
    {
        if i >= code.len() {
            return Err(invalid_const_expr_error());
        }
        if shift >= 35 {
            return Err(invalid_const_expr_error());
        }
        let b = code[i];
        acc = acc | (((b & 0x7f) as u32) << shift);
        if b & 0x80 == 0 {
            if shift + 7 < 32 && b & 0x40 != 0 {
                acc = acc | (u32::MAX << (shift + 7));
            }
            return Ok(acc);
        }
        i = i + 1;
        shift = shift + 7;
    }
}

/// The error every rejected constant expression carries.
fn invalid_const_expr_error() -> (r: AwwasmInstantiationError)
    ensures
        r matches AwwasmInstantiationError::InvalidConstExpr { description } && description@
            == "unsupported or malformed constant initializer expression".spec_bytes(),
{
    AwwasmInstantiationError::InvalidConstExpr {
        description: str_bytes_vec("unsupported or malformed constant initializer expression"),
    }
}

} // verus!
