//! Classification of execution outcomes and value flattening.

use cairo_native::executor::{BuiltinStats, ExecutionResult};
use cairo_native::felt252::Felt252;
use cairo_native::runner::{jitvalue_to_felt, result_to_runresult, RunResultError, RunResultValue};
use cairo_native::values::Value;

fn felt(v: u128) -> Felt252 {
    Felt252::from_u128(v)
}

fn result_of(return_value: Value) -> ExecutionResult {
    ExecutionResult {
        remaining_gas: None,
        return_value,
        builtin_stats: BuiltinStats::default(),
    }
}

#[test]
fn test_result_to_runresult_enum_nonpanic() {
    // A non-panic enum flattens whole, tag first.
    assert_eq!(
        result_to_runresult(&result_of(Value::Enum {
            tag: 34,
            value: Box::new(Value::Array(vec![
                Value::Felt252(felt(42)),
                Value::Uint8(100),
                Value::Uint128(1000),
            ])),
            debug_name: Some("debug_name".into()),
        }))
        .unwrap(),
        RunResultValue::Success(vec![felt(34), felt(42), felt(100), felt(1000)])
    );
}

#[test]
fn test_result_to_runresult_success() {
    // Tag 0 of a panic result is a success carrying the payload.
    assert_eq!(
        result_to_runresult(&result_of(Value::Enum {
            tag: 0,
            value: Box::new(Value::Uint64(24)),
            debug_name: Some("core::panics::PanicResult::Test".into()),
        }))
        .unwrap(),
        RunResultValue::Success(vec![felt(24)])
    );
}

#[test]
fn test_result_to_runresult_return() {
    // A non-zero tag of a panic result carries its payload fields.
    assert_eq!(
        result_to_runresult(&result_of(Value::Enum {
            tag: 10,
            value: Box::new(Value::Struct {
                fields: vec![
                    Value::Felt252(felt(42)),
                    Value::Uint8(100),
                    Value::Uint128(1000),
                ],
                debug_name: Some("debug_name".into()),
            }),
            debug_name: Some("core::panics::PanicResult::Test".into()),
        }))
        .unwrap(),
        RunResultValue::Panic(vec![felt(42), felt(100), felt(1000)])
    );
}

#[test]
fn test_result_to_runresult_non_enum() {
    assert_eq!(
        result_to_runresult(&result_of(Value::Uint8(10))).unwrap(),
        RunResultValue::Success(vec![felt(10)])
    );
}

#[test]
fn test_result_to_runresult_unsupported_payload() {
    // A panic payload that is not a struct is refused.
    let r = result_to_runresult(&result_of(Value::Enum {
        tag: 10,
        value: Box::new(Value::Uint64(24)),
        debug_name: Some("core::panics::PanicResult::Test".into()),
    }));
    assert_eq!(r.unwrap_err(), RunResultError::UnsupportedReturnValue);
}

#[test]
fn test_result_to_runresult_missing_name() {
    // An enum without a debug name cannot be classified.
    let r = result_to_runresult(&result_of(Value::Enum {
        tag: 10,
        value: Box::new(Value::Uint64(24)),
        debug_name: None,
    }));
    assert_eq!(r.unwrap_err(), RunResultError::MissingDebugName);
}

#[test]
fn test_jitvalue_to_felt_felt252() {
    let felt_value = felt(42);
    assert_eq!(
        jitvalue_to_felt(&Value::Felt252(felt_value.clone())),
        vec![felt_value]
    );
}

#[test]
fn test_jitvalue_to_felt_array() {
    assert_eq!(
        jitvalue_to_felt(&Value::Array(vec![
            Value::Felt252(felt(42)),
            Value::Uint8(100),
            Value::Uint128(1000),
        ])),
        vec![felt(42), felt(100), felt(1000)]
    );
}

#[test]
fn test_jitvalue_to_felt_struct() {
    assert_eq!(
        jitvalue_to_felt(&Value::Struct {
            fields: vec![
                Value::Felt252(felt(42)),
                Value::Uint8(100),
                Value::Uint128(1000)
            ],
            debug_name: Some("debug_name".into())
        }),
        vec![felt(42), felt(100), felt(1000)]
    );
}

#[test]
fn test_jitvalue_to_felt_enum() {
    // With a debug name: the tag, then the payload.
    assert_eq!(
        jitvalue_to_felt(&Value::Enum {
            tag: 34,
            value: Box::new(Value::Array(vec![
                Value::Felt252(felt(42)),
                Value::Uint8(100),
                Value::Uint128(1000),
            ])),
            debug_name: Some("debug_name".into())
        }),
        vec![felt(34), felt(42), felt(100), felt(1000)]
    );

    // The boolean enum with tag 1 is one felt.
    assert_eq!(
        jitvalue_to_felt(&Value::Enum {
            tag: 1,
            value: Box::new(Value::Uint128(1000)),
            debug_name: Some("core::bool".into())
        }),
        vec![felt(1)]
    );

    // The boolean enum with any other tag is zero.
    assert_eq!(
        jitvalue_to_felt(&Value::Enum {
            tag: 10,
            value: Box::new(Value::Uint128(1000)),
            debug_name: Some("core::bool".into())
        }),
        vec![felt(0)]
    );
}

#[test]
fn test_jitvalue_to_felt_u8() {
    assert_eq!(jitvalue_to_felt(&Value::Uint8(10)), vec![felt(10)]);
}

#[test]
fn test_jitvalue_to_felt_u16() {
    assert_eq!(jitvalue_to_felt(&Value::Uint16(100)), vec![felt(100)]);
}

#[test]
fn test_jitvalue_to_felt_u32() {
    assert_eq!(jitvalue_to_felt(&Value::Uint32(1000)), vec![felt(1000)]);
}

#[test]
fn test_jitvalue_to_felt_u64() {
    assert_eq!(jitvalue_to_felt(&Value::Uint64(10000)), vec![felt(10000)]);
}

#[test]
fn test_jitvalue_to_felt_u128() {
    assert_eq!(jitvalue_to_felt(&Value::Uint128(100000)), vec![felt(100000)]);
}

#[test]
fn test_jitvalue_to_felt_sint8() {
    assert_eq!(
        jitvalue_to_felt(&Value::Sint8(-10)),
        vec![Felt252::from_i128(-10)]
    );
}

#[test]
fn test_jitvalue_to_felt_sint16() {
    assert_eq!(
        jitvalue_to_felt(&Value::Sint16(-100)),
        vec![Felt252::from_i128(-100)]
    );
}

#[test]
fn test_jitvalue_to_felt_sint32() {
    assert_eq!(
        jitvalue_to_felt(&Value::Sint32(-1000)),
        vec![Felt252::from_i128(-1000)]
    );
}

#[test]
fn test_jitvalue_to_felt_sint64() {
    assert_eq!(
        jitvalue_to_felt(&Value::Sint64(-10000)),
        vec![Felt252::from_i128(-10000)]
    );
}

#[test]
fn test_jitvalue_to_felt_sint128() {
    assert_eq!(
        jitvalue_to_felt(&Value::Sint128(-100000)),
        vec![Felt252::from_i128(-100000)]
    );
}

#[test]
fn test_jitvalue_to_felt_null() {
    assert_eq!(jitvalue_to_felt(&Value::Null), vec![felt(0)]);
}

#[test]
fn test_jitvalue_to_felt_dict() {
    // Each key, then its value's felts.
    assert_eq!(
        jitvalue_to_felt(&Value::Felt252Dict {
            keys: vec![felt(5), felt(7)],
            values: vec![Value::Uint8(1), Value::Uint8(2)],
        }),
        vec![felt(5), felt(1), felt(7), felt(2)]
    );
}
