//! The executor: runs an emitted MIR module.
//!
//! The entry point checks the call against the IR function's signature
//! (arity, then argument types), synthesizes the builtin counters and the
//! gas value, and interprets the MIR blocks until the function returns, the
//! step budget runs out, or a compiler invariant turns out broken.

use crate::error::RunError;
use crate::felt252::Felt252;
use crate::mir::{MirModule, OpKind, Terminator};
use crate::program::{ConcreteType, Function, IntOperator, IntTy, Program, SyscallKind};
use crate::starknet::{StarkNetSyscallHandler, U256};
use crate::values::{value_view, values_view, Value, VV};
use vstd::prelude::*;

verus! {

/// How a compiled module is executed: ahead-of-time object code or the
/// in-process engine.
#[derive(Debug, Clone, Copy, PartialEq, Eq, Structural)]
pub enum RunMode {
    Aot,
    Jit,
}

/// Builtin usage counters of one execution.
#[derive(Debug, Clone, Copy, PartialEq, Eq, Structural, Default)]
pub struct BuiltinStats {
    pub range_check: u64,
    pub pedersen: u64,
    pub poseidon: u64,
    pub bitwise: u64,
    pub ec_op: u64,
    pub segment_arena: u64,
}

/// The outcome of one execution.
#[derive(Debug, PartialEq)]
pub struct ExecutionResult {
    pub remaining_gas: Option<u128>,
    pub return_value: Value,
    pub builtin_stats: BuiltinStats,
}

/// Whether a runtime value inhabits the declared type.  Builtin tokens are
/// never caller-supplied, so they match nothing.
pub open spec fn spec_value_matches(types: Seq<ConcreteType>, v: VV, ty: int) -> bool
    decreases ty,
{
    if ty < 0 || ty >= types.len() {
        false
    } else {
        match types[ty] {
            ConcreteType::Felt252 => v is Felt,
            ConcreteType::ClassHash => v is Felt,
            ConcreteType::ContractAddress => v is Felt,
            ConcreteType::StorageAddress => v is Felt,
            ConcreteType::StorageBaseAddress => v is Felt,
            ConcreteType::Bytes31 => v is Felt,
            ConcreteType::Int(it) => match it {
                IntTy::U8 => v is U8,
                IntTy::U16 => v is U16,
                IntTy::U32 => v is U32,
                IntTy::U64 => v is U64,
                IntTy::U128 => v is U128,
                IntTy::I8 => v is I8,
                IntTy::I16 => v is I16,
                IntTy::I32 => v is I32,
                IntTy::I64 => v is I64,
                IntTy::I128 => v is I128,
            },
            ConcreteType::Struct(members) => v matches VV::Struct { fields, .. }
                && fields.len() == members@.len() && (forall|i: int|
                0 <= i < members@.len() ==> (members@[i] as int) < ty && spec_value_matches(
                    types,
                    #[trigger] fields[i],
                    members@[i] as int,
                )),
            ConcreteType::Enum(variants) => v matches VV::Enum { tag, value, .. } && (tag as int)
                < variants@.len() && (variants@[tag as int] as int) < ty && spec_value_matches(
                types,
                *value,
                variants@[tag as int] as int,
            ),
            ConcreteType::Array(t) => v matches VV::Array(items) && (t as int) < ty && (forall|
                i: int,
            |
                0 <= i < items.len() ==> spec_value_matches(types, #[trigger] items[i], t as int)),
            ConcreteType::NonZero(t) => (t as int) < ty && spec_value_matches(types, v, t as int),
            ConcreteType::Snapshot(t) => (t as int) < ty && spec_value_matches(types, v, t as int),
            ConcreteType::Box(t) => (t as int) < ty && spec_value_matches(types, v, t as int),
            ConcreteType::Nullable(t) => v is Null || ((t as int) < ty && spec_value_matches(
                types,
                v,
                t as int,
            )),
            _ => false,
        }
    }
}

/// Checks a runtime value against a declared type.
#[verifier::loop_isolation(false)]
#[verifier::rlimit(60)]
pub fn check_value_type(program: &Program, v: &Value, ty: usize) -> (r: bool)
    ensures
        r == spec_value_matches(program.types@, v@, ty as int),
    decreases ty, v,
{
    if ty >= program.types.len() {
        return false;
    }
    match &program.types[ty] {
        ConcreteType::Felt252 | ConcreteType::ClassHash | ConcreteType::ContractAddress
            | ConcreteType::StorageAddress | ConcreteType::StorageBaseAddress
            | ConcreteType::Bytes31 => matches!(v, Value::Felt252(_)),
        ConcreteType::Int(it) => match it {
            IntTy::U8 => matches!(v, Value::Uint8(_)),
            IntTy::U16 => matches!(v, Value::Uint16(_)),
            IntTy::U32 => matches!(v, Value::Uint32(_)),
            IntTy::U64 => matches!(v, Value::Uint64(_)),
            IntTy::U128 => matches!(v, Value::Uint128(_)),
            IntTy::I8 => matches!(v, Value::Sint8(_)),
            IntTy::I16 => matches!(v, Value::Sint16(_)),
            IntTy::I32 => matches!(v, Value::Sint32(_)),
            IntTy::I64 => matches!(v, Value::Sint64(_)),
            IntTy::I128 => matches!(v, Value::Sint128(_)),
        },
        ConcreteType::Struct(members) => {
            match v {
                Value::Struct { fields, .. } => {
                    proof {
                        crate::values::lemma_values_view(fields@);
                    }
                    if fields.len() != members.len() {
                        return false;
                    }
                    let mut i: usize = 0;
                    while i < members.len()
                        invariant
                            i <= members@.len(),
                            forall|j: int|
                                0 <= j < i ==> (members@[j] as int) < ty && spec_value_matches(
                                    program.types@,
                                    values_view(fields@)[j],
                                    members@[j] as int,
                                ),
                        decreases members@.len() - i,
                    {
                        proof {
                            crate::values::lemma_values_view(fields@);
                            assert(values_view(fields@)[i as int] == value_view(
                                fields@[i as int],
                            ));
                        }
                        if members[i] >= ty {
                            return false;
                        }
                        if !check_value_type(program, &fields[i], members[i]) {
                            return false;
                        }
                        i = i + 1;
                    }
                    proof {
                        crate::values::lemma_values_view(fields@);
                    }
                    true
                },
                _ => false,
            }
        },
        ConcreteType::Enum(variants) => {
            match v {
                Value::Enum { tag, value, .. } => {
                    if *tag >= variants.len() {
                        return false;
                    }
                    let vt = variants[*tag];
                    if vt >= ty {
                        return false;
                    }
                    check_value_type(program, value, vt)
                },
                _ => false,
            }
        },
        ConcreteType::Array(t) => {
            match v {
                Value::Array(items) => {
                    proof {
                        crate::values::lemma_values_view(items@);
                    }
                    if *t >= ty {
                        return false;
                    }
                    let elem_ty = *t;
                    let mut i: usize = 0;
                    while i < items.len()
                        invariant
                            i <= items@.len(),
                            elem_ty < ty,
                            forall|j: int|
                                0 <= j < i ==> spec_value_matches(
                                    program.types@,
                                    values_view(items@)[j],
                                    elem_ty as int,
                                ),
                        decreases items@.len() - i,
                    {
                        proof {
                            crate::values::lemma_values_view(items@);
                            assert(values_view(items@)[i as int] == value_view(
                                items@[i as int],
                            ));
                        }
                        if !check_value_type(program, &items[i], elem_ty) {
                            proof {
                                assert(v@ matches VV::Array(vvitems) && !spec_value_matches(
                                    program.types@,
                                    vvitems[i as int],
                                    elem_ty as int,
                                ));
                            }
                            return false;
                        }
                        i = i + 1;
                    }
                    proof {
                        crate::values::lemma_values_view(items@);
                    }
                    true
                },
                _ => false,
            }
        },
        ConcreteType::NonZero(t) | ConcreteType::Snapshot(t) | ConcreteType::Box(t) => {
            if *t >= ty {
                false
            } else {
                check_value_type(program, v, *t)
            }
        },
        ConcreteType::Nullable(t) => {
            if matches!(v, Value::Null) {
                true
            } else if *t >= ty {
                false
            } else {
                check_value_type(program, v, *t)
            }
        },
        _ => false,
    }
}

/// Whether the type under index `t` is a builtin token.
pub open spec fn spec_ty_is_builtin(types: Seq<ConcreteType>, t: usize) -> bool {
    (t as int) < types.len() && crate::types::is_builtin_spec(types[t as int])
}

/// The non-builtin parameter types, in order: the arguments a caller must
/// supply.
pub open spec fn user_params(types: Seq<ConcreteType>, params: Seq<usize>) -> Seq<usize>
    decreases params.len(),
{
    if params.len() == 0 {
        Seq::empty()
    } else {
        let rest = user_params(types, params.drop_last());
        if spec_ty_is_builtin(types, params.last()) {
            rest
        } else {
            rest.push(params.last())
        }
    }
}

/// Computes the caller-supplied parameter types of a function: every
/// parameter that is not a builtin token.
fn compute_user_params(program: &Program, params: &Vec<usize>) -> (r: Vec<usize>)
    ensures
        r@ == user_params(program.types@, params@),
{
    let mut out: Vec<usize> = Vec::new();
    let mut i: usize = 0;
    while i < params.len()
        invariant
            i <= params@.len(),
            out@ == user_params(program.types@, params@.take(i as int)),
        decreases params@.len() - i,
    {
        proof {
            assert(params@.take(i + 1).drop_last() =~= params@.take(i as int));
            assert(params@.take(i + 1).last() == params@[i as int]);
        }
        let t = params[i];
        let is_b = t < program.types.len() && crate::types::is_builtin(&program.types[t]);
        if !is_b {
            out.push(t);
        }
        i = i + 1;
    }
    proof {
        assert(params@.take(params@.len() as int) =~= params@);
    }
    out
}

/// Reads a value out of the interpreter's environment.
fn env_get(env: &Vec<Option<Value>>, id: usize) -> (r: Result<Value, RunError>) {
    if id >= env.len() {
        return Err(RunError::InvariantViolation);
    }
    match &env[id] {
        Some(v) => Ok(v.duplicate()),
        None => Err(RunError::InvariantViolation),
    }
}

/// Writes a value into the interpreter's environment.
fn env_set(env: &mut Vec<Option<Value>>, id: usize, v: Value) -> (r: Result<(), RunError>)
    ensures
        final(env)@.len() == old(env)@.len(),
{
    if id >= env.len() {
        return Err(RunError::InvariantViolation);
    }
    env.set(id, Some(v));
    Ok(())
}

/// The field element a value holds.
fn as_felt(v: Value) -> (r: Result<Felt252, RunError>) {
    match v {
        Value::Felt252(f) => Ok(f),
        _ => Err(RunError::InvariantViolation),
    }
}

/// The truth value an `i1` (held as a byte) denotes.
fn as_flag(v: Value) -> (r: Result<bool, RunError>) {
    match v {
        Value::Uint8(x) => Ok(x != 0),
        _ => Err(RunError::InvariantViolation),
    }
}

/// The felts of an array value.
fn as_felt_vec(v: Value) -> (r: Result<Vec<Felt252>, RunError>) {
    match v {
        Value::Array(items) => {
            let mut out: Vec<Felt252> = Vec::new();
            let mut i: usize = 0;
            while i < items.len()
                decreases items@.len() - i,
            {
                match &items[i] {
                    Value::Felt252(f) => out.push(f.clone()),
                    _ => {
                        return Err(RunError::InvariantViolation);
                    },
                }
                i = i + 1;
            }
            Ok(out)
        },
        _ => Err(RunError::InvariantViolation),
    }
}

/// Wraps felts back into an array value, in order.
fn felts_to_array(felts: Vec<Felt252>) -> (r: Value)
    ensures
        r matches Value::Array(items) && items@ == felts@.map_values(
            |f: Felt252| Value::Felt252(f),
        ),
{
    let ghost orig = felts@;
    let mut items: Vec<Value> = Vec::new();
    let mut felts = felts;
    let mut i: usize = 0;
    let n = felts.len();
    while i < n
        invariant
            i <= n,
            n == orig.len(),
            felts@ =~= orig.skip(i as int),
            items@ =~= orig.take(i as int).map_values(|f: Felt252| Value::Felt252(f)),
        decreases n - i,
    {
        items.push(Value::Felt252(felts.remove(0)));
        i = i + 1;
        proof {
            assert(felts@ =~= orig.skip(i as int));
            assert(items@ =~= orig.take(i as int).map_values(|f: Felt252| Value::Felt252(f)));
        }
    }
    proof {
        assert(items@ =~= orig.map_values(|f: Felt252| Value::Felt252(f)));
    }
    Value::Array(items)
}

/// The zero-extended bit pattern of a machine integer of the given type.
fn int_pattern(v: &Value, ty: IntTy) -> (r: Result<u128, RunError>) {
    match (v, ty) {
        (Value::Uint8(x), IntTy::U8) => Ok(*x as u128),
        (Value::Uint16(x), IntTy::U16) => Ok(*x as u128),
        (Value::Uint32(x), IntTy::U32) => Ok(*x as u128),
        (Value::Uint64(x), IntTy::U64) => Ok(*x as u128),
        (Value::Uint128(x), IntTy::U128) => Ok(*x),
        (Value::Sint8(x), IntTy::I8) => Ok((*x as u8) as u128),
        (Value::Sint16(x), IntTy::I16) => Ok((*x as u16) as u128),
        (Value::Sint32(x), IntTy::I32) => Ok((*x as u32) as u128),
        (Value::Sint64(x), IntTy::I64) => Ok((*x as u64) as u128),
        (Value::Sint128(x), IntTy::I128) => Ok(#[verifier::truncate] (*x as u128)),
        _ => Err(RunError::InvariantViolation),
    }
}

/// Builds a machine integer of the given type from a (truncated) pattern.
fn int_from_pattern(ty: IntTy, p: u128) -> (r: Value) {
    match ty {
        IntTy::U8 => Value::Uint8(#[verifier::truncate] (p as u8)),
        IntTy::U16 => Value::Uint16(#[verifier::truncate] (p as u16)),
        IntTy::U32 => Value::Uint32(#[verifier::truncate] (p as u32)),
        IntTy::U64 => Value::Uint64(#[verifier::truncate] (p as u64)),
        IntTy::U128 => Value::Uint128(p),
        IntTy::I8 => Value::Sint8(#[verifier::truncate] (p as i8)),
        IntTy::I16 => Value::Sint16(#[verifier::truncate] (p as i16)),
        IntTy::I32 => Value::Sint32(#[verifier::truncate] (p as i32)),
        IntTy::I64 => Value::Sint64(#[verifier::truncate] (p as i64)),
        IntTy::I128 => Value::Sint128(#[verifier::truncate] (p as i128)),
    }
}

/// The sign-extended value of a machine integer.
fn int_signed(v: &Value, ty: IntTy) -> (r: Result<i128, RunError>) {
    match (v, ty) {
        (Value::Sint8(x), IntTy::I8) => Ok(*x as i128),
        (Value::Sint16(x), IntTy::I16) => Ok(*x as i128),
        (Value::Sint32(x), IntTy::I32) => Ok(*x as i128),
        (Value::Sint64(x), IntTy::I64) => Ok(*x as i128),
        (Value::Sint128(x), IntTy::I128) => Ok(*x),
        _ => Err(RunError::InvariantViolation),
    }
}

/// Overflowing addition on `u8`: the wrapped sum and the carry.
fn add_u8(x: u8, y: u8) -> (r: (u8, bool))
    ensures
        r.0 == (x + y) % 256,
        r.1 == (x + y > 255),
{
    let s = x as u16 + y as u16;
    (((s % 256) as u8), s > 255)
}

/// Overflowing subtraction on `u8`: the wrapped difference and the borrow.
fn sub_u8(x: u8, y: u8) -> (r: (u8, bool))
    ensures
        r.0 as int == (x - y) % 256,
        r.1 == (x < y),
{
    if x >= y {
        (x - y, false)
    } else {
        (((256 - (y as u16 - x as u16)) % 256) as u8, true)
    }
}
/// Overflowing addition on `u16`: the wrapped sum and the carry.
fn add_u16(x: u16, y: u16) -> (r: (u16, bool))
    ensures
        r.0 == (x + y) % 65536,
        r.1 == (x + y > 65535),
{
    let s = x as u32 + y as u32;
    (((s % 65536) as u16), s > 65535)
}

/// Overflowing subtraction on `u16`: the wrapped difference and the borrow.
fn sub_u16(x: u16, y: u16) -> (r: (u16, bool))
    ensures
        r.0 as int == (x - y) % 65536,
        r.1 == (x < y),
{
    if x >= y {
        (x - y, false)
    } else {
        (((65536 - (y as u32 - x as u32)) % 65536) as u16, true)
    }
}
/// Overflowing addition on `u32`: the wrapped sum and the carry.
fn add_u32(x: u32, y: u32) -> (r: (u32, bool))
    ensures
        r.0 == (x + y) % 4294967296,
        r.1 == (x + y > 4294967295),
{
    let s = x as u64 + y as u64;
    (((s % 4294967296) as u32), s > 4294967295)
}

/// Overflowing subtraction on `u32`: the wrapped difference and the borrow.
fn sub_u32(x: u32, y: u32) -> (r: (u32, bool))
    ensures
        r.0 as int == (x - y) % 4294967296,
        r.1 == (x < y),
{
    if x >= y {
        (x - y, false)
    } else {
        (((4294967296 - (y as u64 - x as u64)) % 4294967296) as u32, true)
    }
}
/// Overflowing addition on `u64`: the wrapped sum and the carry.
fn add_u64(x: u64, y: u64) -> (r: (u64, bool))
    ensures
        r.0 == (x + y) % 18446744073709551616,
        r.1 == (x + y > 18446744073709551615),
{
    let s = x as u128 + y as u128;
    (((s % 18446744073709551616) as u64), s > 18446744073709551615)
}

/// Overflowing subtraction on `u64`: the wrapped difference and the borrow.
fn sub_u64(x: u64, y: u64) -> (r: (u64, bool))
    ensures
        r.0 as int == (x - y) % 18446744073709551616,
        r.1 == (x < y),
{
    if x >= y {
        (x - y, false)
    } else {
        (((18446744073709551616 - (y as u128 - x as u128)) % 18446744073709551616) as u64, true)
    }
}
/// Overflowing addition on `i8`: the wrapped sum and the overflow bit.
fn add_i8(x: i8, y: i8) -> (r: (i8, bool))
    ensures
        r.0 == ((x + y + 128) % 256) - 128,
        r.1 == !(-128 <= x + y <= 127),
{
    let s = x as i16 + y as i16;
    let flag = s < -128 || s > 127;
    let wrapped: i16 = if s > 127 {
        s - 256
    } else if s < -128 {
        s + 256
    } else {
        s
    };
    (wrapped as i8, flag)
}

/// Overflowing subtraction on `i8`: the wrapped difference and the
/// overflow bit.
fn sub_i8(x: i8, y: i8) -> (r: (i8, bool))
    ensures
        r.0 == ((x - y + 128) % 256) - 128,
        r.1 == !(-128 <= x - y <= 127),
{
    let s = x as i16 - y as i16;
    let flag = s < -128 || s > 127;
    let wrapped: i16 = if s > 127 {
        s - 256
    } else if s < -128 {
        s + 256
    } else {
        s
    };
    (wrapped as i8, flag)
}
/// Overflowing addition on `i16`: the wrapped sum and the overflow bit.
fn add_i16(x: i16, y: i16) -> (r: (i16, bool))
    ensures
        r.0 == ((x + y + 32768) % 65536) - 32768,
        r.1 == !(-32768 <= x + y <= 32767),
{
    let s = x as i32 + y as i32;
    let flag = s < -32768 || s > 32767;
    let wrapped: i32 = if s > 32767 {
        s - 65536
    } else if s < -32768 {
        s + 65536
    } else {
        s
    };
    (wrapped as i16, flag)
}

/// Overflowing subtraction on `i16`: the wrapped difference and the
/// overflow bit.
fn sub_i16(x: i16, y: i16) -> (r: (i16, bool))
    ensures
        r.0 == ((x - y + 32768) % 65536) - 32768,
        r.1 == !(-32768 <= x - y <= 32767),
{
    let s = x as i32 - y as i32;
    let flag = s < -32768 || s > 32767;
    let wrapped: i32 = if s > 32767 {
        s - 65536
    } else if s < -32768 {
        s + 65536
    } else {
        s
    };
    (wrapped as i16, flag)
}
/// Overflowing addition on `i32`: the wrapped sum and the overflow bit.
fn add_i32(x: i32, y: i32) -> (r: (i32, bool))
    ensures
        r.0 == ((x + y + 2147483648) % 4294967296) - 2147483648,
        r.1 == !(-2147483648 <= x + y <= 2147483647),
{
    let s = x as i64 + y as i64;
    let flag = s < -2147483648 || s > 2147483647;
    let wrapped: i64 = if s > 2147483647 {
        s - 4294967296
    } else if s < -2147483648 {
        s + 4294967296
    } else {
        s
    };
    (wrapped as i32, flag)
}

/// Overflowing subtraction on `i32`: the wrapped difference and the
/// overflow bit.
fn sub_i32(x: i32, y: i32) -> (r: (i32, bool))
    ensures
        r.0 == ((x - y + 2147483648) % 4294967296) - 2147483648,
        r.1 == !(-2147483648 <= x - y <= 2147483647),
{
    let s = x as i64 - y as i64;
    let flag = s < -2147483648 || s > 2147483647;
    let wrapped: i64 = if s > 2147483647 {
        s - 4294967296
    } else if s < -2147483648 {
        s + 4294967296
    } else {
        s
    };
    (wrapped as i32, flag)
}
/// Overflowing addition on `i64`: the wrapped sum and the overflow bit.
fn add_i64(x: i64, y: i64) -> (r: (i64, bool))
    ensures
        r.0 == ((x + y + 9223372036854775808) % 18446744073709551616) - 9223372036854775808,
        r.1 == !(-9223372036854775808 <= x + y <= 9223372036854775807),
{
    let s = x as i128 + y as i128;
    let flag = s < -9223372036854775808 || s > 9223372036854775807;
    let wrapped: i128 = if s > 9223372036854775807 {
        s - 18446744073709551616
    } else if s < -9223372036854775808 {
        s + 18446744073709551616
    } else {
        s
    };
    (wrapped as i64, flag)
}

/// Overflowing subtraction on `i64`: the wrapped difference and the
/// overflow bit.
fn sub_i64(x: i64, y: i64) -> (r: (i64, bool))
    ensures
        r.0 == ((x - y + 9223372036854775808) % 18446744073709551616) - 9223372036854775808,
        r.1 == !(-9223372036854775808 <= x - y <= 9223372036854775807),
{
    let s = x as i128 - y as i128;
    let flag = s < -9223372036854775808 || s > 9223372036854775807;
    let wrapped: i128 = if s > 9223372036854775807 {
        s - 18446744073709551616
    } else if s < -9223372036854775808 {
        s + 18446744073709551616
    } else {
        s
    };
    (wrapped as i64, flag)
}
/// Overflowing addition on `u128`.
fn add_u128(x: u128, y: u128) -> (r: (u128, bool))
    ensures
        r.0 == (x + y) % (u128::MAX + 1),
        r.1 == (x + y > u128::MAX),
{
    if x > u128::MAX - y {
        (x - (u128::MAX - y) - 1, true)
    } else {
        (x + y, false)
    }
}

/// Overflowing subtraction on `u128`.
fn sub_u128(x: u128, y: u128) -> (r: (u128, bool))
    ensures
        r.0 as int == (x - y) % (u128::MAX + 1),
        r.1 == (x < y),
{
    if x >= y {
        (x - y, false)
    } else {
        (u128::MAX - (y - x) + 1, true)
    }
}

/// Overflowing addition on `i128`, two's complement.
fn add_i128(x: i128, y: i128) -> (r: (i128, bool))
    ensures
        r.0 == ((x + y + 170141183460469231731687303715884105728int) % 340282366920938463463374607431768211456int) - 170141183460469231731687303715884105728,
        r.1 == !(i128::MIN <= x + y <= i128::MAX),
{
    if y > 0 && x > i128::MAX - y {
        ((x - (i128::MAX - y) - 1) + i128::MIN, true)
    } else if y < 0 && x < i128::MIN - y {
        ((x - (i128::MIN - y)) + 1 + i128::MAX, true)
    } else {
        (x + y, false)
    }
}

/// Overflowing subtraction on `i128`, two's complement.
fn sub_i128(x: i128, y: i128) -> (r: (i128, bool))
    ensures
        r.0 == ((x - y + 170141183460469231731687303715884105728int) % 340282366920938463463374607431768211456int) - 170141183460469231731687303715884105728,
        r.1 == !(i128::MIN <= x - y <= i128::MAX),
{
    if y < 0 && x > i128::MAX + y {
        ((x - 1 - (i128::MAX + y)) + i128::MIN, true)
    } else if y > 0 && x < i128::MIN + y {
        ((x - (i128::MIN + y)) + 1 + i128::MAX, true)
    } else {
        (x - y, false)
    }
}

/// Evaluates an overflow-checked integer operation: the wrapped result and
/// the overflow flag (as an `i1`), per the type's signedness.
fn eval_int_op(ty: IntTy, op: IntOperator, a: &Value, b: &Value) -> (r: Result<
    (Value, Value),
    RunError,
>) {
    let adding = matches!(op, IntOperator::OverflowingAdd);
    let (value, flag): (Value, bool) = match (a, b, ty) {
        (Value::Uint8(x), Value::Uint8(y), IntTy::U8) => {
            let (v, f) = if adding {
                add_u8(*x, *y)
            } else {
                sub_u8(*x, *y)
            };
            (Value::Uint8(v), f)
        },
        (Value::Uint16(x), Value::Uint16(y), IntTy::U16) => {
            let (v, f) = if adding {
                add_u16(*x, *y)
            } else {
                sub_u16(*x, *y)
            };
            (Value::Uint16(v), f)
        },
        (Value::Uint32(x), Value::Uint32(y), IntTy::U32) => {
            let (v, f) = if adding {
                add_u32(*x, *y)
            } else {
                sub_u32(*x, *y)
            };
            (Value::Uint32(v), f)
        },
        (Value::Uint64(x), Value::Uint64(y), IntTy::U64) => {
            let (v, f) = if adding {
                add_u64(*x, *y)
            } else {
                sub_u64(*x, *y)
            };
            (Value::Uint64(v), f)
        },
        (Value::Uint128(x), Value::Uint128(y), IntTy::U128) => {
            let (v, f) = if adding {
                add_u128(*x, *y)
            } else {
                sub_u128(*x, *y)
            };
            (Value::Uint128(v), f)
        },
        (Value::Sint8(x), Value::Sint8(y), IntTy::I8) => {
            let (v, f) = if adding {
                add_i8(*x, *y)
            } else {
                sub_i8(*x, *y)
            };
            (Value::Sint8(v), f)
        },
        (Value::Sint16(x), Value::Sint16(y), IntTy::I16) => {
            let (v, f) = if adding {
                add_i16(*x, *y)
            } else {
                sub_i16(*x, *y)
            };
            (Value::Sint16(v), f)
        },
        (Value::Sint32(x), Value::Sint32(y), IntTy::I32) => {
            let (v, f) = if adding {
                add_i32(*x, *y)
            } else {
                sub_i32(*x, *y)
            };
            (Value::Sint32(v), f)
        },
        (Value::Sint64(x), Value::Sint64(y), IntTy::I64) => {
            let (v, f) = if adding {
                add_i64(*x, *y)
            } else {
                sub_i64(*x, *y)
            };
            (Value::Sint64(v), f)
        },
        (Value::Sint128(x), Value::Sint128(y), IntTy::I128) => {
            let (v, f) = if adding {
                add_i128(*x, *y)
            } else {
                sub_i128(*x, *y)
            };
            (Value::Sint128(v), f)
        },
        _ => {
            return Err(RunError::InvariantViolation);
        },
    };
    Ok((value, Value::Uint8(if flag { 1 } else { 0 })))
}

/// Evaluates a strict integer comparison, signed for signed types.
fn eval_int_lt(ty: IntTy, a: &Value, b: &Value) -> (r: Result<bool, RunError>) {
    if ty.signed() {
        let sa = match int_signed(a, ty) {
            Ok(x) => x,
            Err(e) => {
                return Err(e);
            },
        };
        let sb = match int_signed(b, ty) {
            Ok(x) => x,
            Err(e) => {
                return Err(e);
            },
        };
        Ok(sa < sb)
    } else {
        let pa = match int_pattern(a, ty) {
            Ok(p) => p,
            Err(e) => {
                return Err(e);
            },
        };
        let pb = match int_pattern(b, ty) {
            Ok(p) => p,
            Err(e) => {
                return Err(e);
            },
        };
        Ok(pa < pb)
    }
}

/// The product of two patterns that fit 64 bits.
fn mul_patterns(px: u128, py: u128) -> (r: u128)
    requires
        px <= 0xffff_ffff_ffff_ffffu128,
        py <= 0xffff_ffff_ffff_ffffu128,
    ensures
        r == px * py,
{
    proof {
        assert(px * py <= 0xffff_ffff_ffff_ffffu128 * 0xffff_ffff_ffff_ffffu128)
            by (nonlinear_arith)
            requires
                px <= 0xffff_ffff_ffff_ffffu128,
                py <= 0xffff_ffff_ffff_ffffu128,
        ;
    }
    px * py
}

/// Evaluates the widening multiplication: both operands are read as their
/// zero-extended bit patterns and multiplied into the double-width type.
fn eval_widemul(ty: IntTy, a: &Value, b: &Value) -> (r: Result<Value, RunError>) {
    match (a, b, ty) {
        (Value::Uint8(x), Value::Uint8(y), IntTy::U8) => {
            let p = mul_patterns(*x as u128, *y as u128);
            Ok(Value::Uint16(#[verifier::truncate] (p as u16)))
        },
        (Value::Uint16(x), Value::Uint16(y), IntTy::U16) => {
            let p = mul_patterns(*x as u128, *y as u128);
            Ok(Value::Uint32(#[verifier::truncate] (p as u32)))
        },
        (Value::Uint32(x), Value::Uint32(y), IntTy::U32) => {
            let p = mul_patterns(*x as u128, *y as u128);
            Ok(Value::Uint64(#[verifier::truncate] (p as u64)))
        },
        (Value::Uint64(x), Value::Uint64(y), IntTy::U64) => {
            let p = mul_patterns(*x as u128, *y as u128);
            Ok(Value::Uint128(p))
        },
        (Value::Sint8(x), Value::Sint8(y), IntTy::I8) => {
            let p = mul_patterns((*x as u8) as u128, (*y as u8) as u128);
            Ok(Value::Sint16(#[verifier::truncate] (p as i16)))
        },
        (Value::Sint16(x), Value::Sint16(y), IntTy::I16) => {
            let p = mul_patterns((*x as u16) as u128, (*y as u16) as u128);
            Ok(Value::Sint32(#[verifier::truncate] (p as i32)))
        },
        (Value::Sint32(x), Value::Sint32(y), IntTy::I32) => {
            let p = mul_patterns((*x as u32) as u128, (*y as u32) as u128);
            Ok(Value::Sint64(#[verifier::truncate] (p as i64)))
        },
        (Value::Sint64(x), Value::Sint64(y), IntTy::I64) => {
            let p = mul_patterns((*x as u64) as u128, (*y as u64) as u128);
            Ok(Value::Sint128(#[verifier::truncate] (p as i128)))
        },
        _ => Err(RunError::InvariantViolation),
    }
}

/// Builds the tagged result value a syscall publishes: tag 0 with the Ok
/// payload, tag 1 with the panic payload array.
fn wrap_syscall_result(res: Result<Value, Vec<Felt252>>) -> (r: Value)
    ensures
        r matches Value::Enum { tag, value, debug_name } && debug_name is None && (
        res matches Ok(p) ==> tag == 0 && *value == p) && (res matches Err(felts) ==> tag == 1 && (
        *value matches Value::Array(items) && items@ == felts@.map_values(
            |f: Felt252| Value::Felt252(f),
        ))),
{
    match res {
        Ok(payload) => Value::Enum { tag: 0, value: Box::new(payload), debug_name: None },
        Err(felts) => Value::Enum {
            tag: 1,
            value: Box::new(felts_to_array(felts)),
            debug_name: None,
        },
    }
}

/// The unit payload (an empty struct).
fn unit_value() -> (r: Value) {
    Value::Struct { fields: Vec::new(), debug_name: None }
}

/// The struct value an execution-info report lowers to: the block info and
/// transaction info structs, then the caller, contract and selector felts.
fn execution_info_value(info: crate::starknet::ExecutionInfo) -> (r: Value)
    ensures
        r matches Value::Struct { fields, debug_name } && debug_name is None && fields@.len() == 5
            && (fields@[0] matches Value::Struct { fields: bf, debug_name: bdn } && bdn is None
            && bf@.len() == 3 && bf@[0] == Value::Uint64(info.block_info.block_number) && bf@[1]
            == Value::Uint64(info.block_info.block_timestamp) && bf@[2] == Value::Felt252(
            info.block_info.sequencer_address,
        )) && (fields@[1] matches Value::Struct { fields: tf, debug_name: tdn } && tdn is None
            && tf@.len() == 7 && tf@[0] == Value::Felt252(info.tx_info.version) && tf@[1]
            == Value::Felt252(info.tx_info.account_contract_address) && tf@[2] == Value::Uint128(
            info.tx_info.max_fee,
        ) && (tf@[3] matches Value::Array(sig) && sig@ == info.tx_info.signature@.map_values(
            |f: Felt252| Value::Felt252(f),
        )) && tf@[4] == Value::Felt252(info.tx_info.transaction_hash) && tf@[5] == Value::Felt252(
            info.tx_info.chain_id,
        ) && tf@[6] == Value::Felt252(info.tx_info.nonce)) && fields@[2] == Value::Felt252(
            info.caller_address,
        ) && fields@[3] == Value::Felt252(info.contract_address) && fields@[4] == Value::Felt252(
            info.entry_point_selector,
        ),
{
    let mut block_fields: Vec<Value> = Vec::new();
    block_fields.push(Value::Uint64(info.block_info.block_number));
    block_fields.push(Value::Uint64(info.block_info.block_timestamp));
    block_fields.push(Value::Felt252(info.block_info.sequencer_address));
    let sig_value = felts_to_array(info.tx_info.signature);
    let mut tx_fields: Vec<Value> = Vec::new();
    tx_fields.push(Value::Felt252(info.tx_info.version));
    tx_fields.push(Value::Felt252(info.tx_info.account_contract_address));
    tx_fields.push(Value::Uint128(info.tx_info.max_fee));
    tx_fields.push(sig_value);
    tx_fields.push(Value::Felt252(info.tx_info.transaction_hash));
    tx_fields.push(Value::Felt252(info.tx_info.chain_id));
    tx_fields.push(Value::Felt252(info.tx_info.nonce));
    let mut fields: Vec<Value> = Vec::new();
    fields.push(Value::Struct { fields: block_fields, debug_name: None });
    fields.push(Value::Struct { fields: tx_fields, debug_name: None });
    fields.push(Value::Felt252(info.caller_address));
    fields.push(Value::Felt252(info.contract_address));
    fields.push(Value::Felt252(info.entry_point_selector));
    Value::Struct { fields, debug_name: None }
}

/// The value of the sixteen bytes starting at `start`, little endian.
pub open spec fn spec_u128_le(bytes: Seq<u8>, start: int) -> int {
    bytes[start] + bytes[start + 1] * 0x100 + bytes[start + 2] * 0x10000 + bytes[start + 3]
        * 0x1000000 + bytes[start + 4] * 0x100000000 + bytes[start + 5] * 0x10000000000 + bytes[
        start + 6] * 0x1000000000000 + bytes[start + 7] * 0x100000000000000 + bytes[start + 8]
        * 0x10000000000000000 + bytes[start + 9] * 0x1000000000000000000 + bytes[start + 10]
        * 0x100000000000000000000 + bytes[start + 11] * 0x10000000000000000000000 + bytes[start
        + 12] * 0x1000000000000000000000000 + bytes[start + 13] * 0x100000000000000000000000000
        + bytes[start + 14] * 0x10000000000000000000000000000 + bytes[start + 15]
        * 0x1000000000000000000000000000000
}

/// The struct value a 256-bit digest lowers to: the low and high 128-bit
/// halves, little endian.
fn u256_value(x: U256) -> (r: Value)
    ensures
        r matches Value::Struct { fields, debug_name } && debug_name is None && fields@.len() == 2
            && (fields@[0] matches Value::Uint128(lo) && lo == spec_u128_le(x.0@, 0)) && (
        fields@[1] matches Value::Uint128(hi) && hi == spec_u128_le(x.0@, 16)),
{
    let lo: u128 = (x.0[0] as u128) + (x.0[1] as u128) * 0x100u128 + (x.0[2] as u128) * 0x10000u128 + (x.0[3] as u128) * 0x1000000u128 + (x.0[4] as u128) * 0x100000000u128 + (x.0[5] as u128) * 0x10000000000u128 + (x.0[6] as u128) * 0x1000000000000u128 + (x.0[7] as u128) * 0x100000000000000u128 + (x.0[8] as u128) * 0x10000000000000000u128 + (x.0[9] as u128) * 0x1000000000000000000u128 + (x.0[10] as u128) * 0x100000000000000000000u128 + (x.0[11] as u128) * 0x10000000000000000000000u128 + (x.0[12] as u128) * 0x1000000000000000000000000u128 + (x.0[13] as u128) * 0x100000000000000000000000000u128 + (x.0[14] as u128) * 0x10000000000000000000000000000u128 + (x.0[15] as u128) * 0x1000000000000000000000000000000u128;
    let hi: u128 = (x.0[16] as u128) + (x.0[17] as u128) * 0x100u128 + (x.0[18] as u128) * 0x10000u128 + (x.0[19] as u128) * 0x1000000u128 + (x.0[20] as u128) * 0x100000000u128 + (x.0[21] as u128) * 0x10000000000u128 + (x.0[22] as u128) * 0x1000000000000u128 + (x.0[23] as u128) * 0x100000000000000u128 + (x.0[24] as u128) * 0x10000000000000000u128 + (x.0[25] as u128) * 0x1000000000000000000u128 + (x.0[26] as u128) * 0x100000000000000000000u128 + (x.0[27] as u128) * 0x10000000000000000000000u128 + (x.0[28] as u128) * 0x1000000000000000000000000u128 + (x.0[29] as u128) * 0x100000000000000000000000000u128 + (x.0[30] as u128) * 0x10000000000000000000000000000u128 + (x.0[31] as u128) * 0x1000000000000000000000000000000u128;
    let mut fields: Vec<Value> = Vec::new();
    fields.push(Value::Uint128(lo));
    fields.push(Value::Uint128(hi));
    Value::Struct { fields, debug_name: None }
}

/// Dispatches one syscall to the handler through its vtable slot, following
/// the uniform template: the gas counter travels by reference, and the
/// result comes back as a tagged union.
fn dispatch_syscall<H: StarkNetSyscallHandler>(
    kind: SyscallKind,
    gas_before: u128,
    args: Vec<Value>,
    handler: &mut H,
) -> (r: Result<(u128, Value), RunError>)
    ensures
        r matches Ok(p) ==> (p.1 matches Value::Enum { tag, debug_name, .. } && (tag == 0 || tag
            == 1) && debug_name is None),
{
    let mut args = args;
    let mut gas = gas_before;
    let res: Result<Value, Vec<Felt252>> = match kind {
        SyscallKind::GetBlockHash => {
            if args.len() < 1 {
                return Err(RunError::InvariantViolation);
            }
            let block_number = match args.remove(0) {
                Value::Uint64(x) => x,
                _ => {
                    return Err(RunError::InvariantViolation);
                },
            };
            match handler.get_block_hash(block_number, &mut gas) {
                Ok(f) => Ok(Value::Felt252(f)),
                Err(e) => Err(e),
            }
        },
        SyscallKind::GetExecutionInfo | SyscallKind::GetExecutionInfoV2 => {
            match handler.get_execution_info(&mut gas) {
                Ok(info) => Ok(execution_info_value(info)),
                Err(e) => Err(e),
            }
        },
        SyscallKind::Deploy => {
            if args.len() < 3 {
                return Err(RunError::InvariantViolation);
            }
            let class_hash = match as_felt(args.remove(0)) {
                Ok(f) => f,
                Err(e) => {
                    return Err(e);
                },
            };
            let salt = match as_felt(args.remove(0)) {
                Ok(f) => f,
                Err(e) => {
                    return Err(e);
                },
            };
            let calldata = match as_felt_vec(args.remove(0)) {
                Ok(v) => v,
                Err(e) => {
                    return Err(e);
                },
            };
            let deploy_from_zero = if args.len() > 0 {
                match args.remove(0) {
                    Value::Enum { tag, .. } => tag != 0,
                    Value::Uint8(x) => x != 0,
                    _ => false,
                }
            } else {
                false
            };
            match handler.deploy(class_hash, salt, &calldata, deploy_from_zero, &mut gas) {
                Ok((address, retdata)) => {
                    let mut fields: Vec<Value> = Vec::new();
                    fields.push(Value::Felt252(address));
                    fields.push(felts_to_array(retdata));
                    Ok(Value::Struct { fields, debug_name: None })
                },
                Err(e) => Err(e),
            }
        },
        SyscallKind::ReplaceClass => {
            if args.len() < 1 {
                return Err(RunError::InvariantViolation);
            }
            let class_hash = match as_felt(args.remove(0)) {
                Ok(f) => f,
                Err(e) => {
                    return Err(e);
                },
            };
            match handler.replace_class(class_hash, &mut gas) {
                Ok(_) => Ok(unit_value()),
                Err(e) => Err(e),
            }
        },
        SyscallKind::LibraryCall => {
            if args.len() < 3 {
                return Err(RunError::InvariantViolation);
            }
            let class_hash = match as_felt(args.remove(0)) {
                Ok(f) => f,
                Err(e) => {
                    return Err(e);
                },
            };
            let selector = match as_felt(args.remove(0)) {
                Ok(f) => f,
                Err(e) => {
                    return Err(e);
                },
            };
            let calldata = match as_felt_vec(args.remove(0)) {
                Ok(v) => v,
                Err(e) => {
                    return Err(e);
                },
            };
            match handler.library_call(class_hash, selector, &calldata, &mut gas) {
                Ok(retdata) => Ok(felts_to_array(retdata)),
                Err(e) => Err(e),
            }
        },
        SyscallKind::CallContract => {
            if args.len() < 3 {
                return Err(RunError::InvariantViolation);
            }
            let address = match as_felt(args.remove(0)) {
                Ok(f) => f,
                Err(e) => {
                    return Err(e);
                },
            };
            let selector = match as_felt(args.remove(0)) {
                Ok(f) => f,
                Err(e) => {
                    return Err(e);
                },
            };
            let calldata = match as_felt_vec(args.remove(0)) {
                Ok(v) => v,
                Err(e) => {
                    return Err(e);
                },
            };
            match handler.call_contract(address, selector, &calldata, &mut gas) {
                Ok(retdata) => Ok(felts_to_array(retdata)),
                Err(e) => Err(e),
            }
        },
        SyscallKind::StorageRead => {
            if args.len() < 2 {
                return Err(RunError::InvariantViolation);
            }
            let domain = match args.remove(0) {
                Value::Uint32(x) => x,
                Value::Uint64(x) => #[verifier::truncate] (x as u32),
                _ => {
                    return Err(RunError::InvariantViolation);
                },
            };
            let address = match as_felt(args.remove(0)) {
                Ok(f) => f,
                Err(e) => {
                    return Err(e);
                },
            };
            match handler.storage_read(domain, address, &mut gas) {
                Ok(f) => Ok(Value::Felt252(f)),
                Err(e) => Err(e),
            }
        },
        SyscallKind::StorageWrite => {
            if args.len() < 3 {
                return Err(RunError::InvariantViolation);
            }
            let domain = match args.remove(0) {
                Value::Uint32(x) => x,
                Value::Uint64(x) => #[verifier::truncate] (x as u32),
                _ => {
                    return Err(RunError::InvariantViolation);
                },
            };
            let address = match as_felt(args.remove(0)) {
                Ok(f) => f,
                Err(e) => {
                    return Err(e);
                },
            };
            let value = match as_felt(args.remove(0)) {
                Ok(f) => f,
                Err(e) => {
                    return Err(e);
                },
            };
            match handler.storage_write(domain, address, value, &mut gas) {
                Ok(_) => Ok(unit_value()),
                Err(e) => Err(e),
            }
        },
        SyscallKind::EmitEvent => {
            if args.len() < 2 {
                return Err(RunError::InvariantViolation);
            }
            let keys = match as_felt_vec(args.remove(0)) {
                Ok(v) => v,
                Err(e) => {
                    return Err(e);
                },
            };
            let data = match as_felt_vec(args.remove(0)) {
                Ok(v) => v,
                Err(e) => {
                    return Err(e);
                },
            };
            match handler.emit_event(&keys, &data, &mut gas) {
                Ok(_) => Ok(unit_value()),
                Err(e) => Err(e),
            }
        },
        SyscallKind::SendMessageToL1 => {
            if args.len() < 2 {
                return Err(RunError::InvariantViolation);
            }
            let to_address = match as_felt(args.remove(0)) {
                Ok(f) => f,
                Err(e) => {
                    return Err(e);
                },
            };
            let payload = match as_felt_vec(args.remove(0)) {
                Ok(v) => v,
                Err(e) => {
                    return Err(e);
                },
            };
            match handler.send_message_to_l1(to_address, &payload, &mut gas) {
                Ok(_) => Ok(unit_value()),
                Err(e) => Err(e),
            }
        },
        SyscallKind::Keccak => {
            if args.len() < 1 {
                return Err(RunError::InvariantViolation);
            }
            let words = match args.remove(0) {
                Value::Array(items) => {
                    let mut out: Vec<u64> = Vec::new();
                    let mut i: usize = 0;
                    while i < items.len()
                        decreases items@.len() - i,
                    {
                        match &items[i] {
                            Value::Uint64(x) => out.push(*x),
                            _ => {
                                return Err(RunError::InvariantViolation);
                            },
                        }
                        i = i + 1;
                    }
                    out
                },
                _ => {
                    return Err(RunError::InvariantViolation);
                },
            };
            match handler.keccak(&words, &mut gas) {
                Ok(digest) => Ok(u256_value(digest)),
                Err(e) => Err(e),
            }
        },
        SyscallKind::Sha256ProcessBlock => {
            let mut marker: Vec<u8> = Vec::new();
            marker.push(110u8);
            marker.push(111u8);
            marker.push(116u8);
            let payload = crate::felt252::felt252_short_str(&marker);
            let mut felts: Vec<Felt252> = Vec::new();
            felts.push(payload);
            Err(felts)
        },
    };
    Ok((gas, wrap_syscall_result(res)))
}

/// Runs one MIR function on the given argument values, metering every
/// block transfer and nested call against the fuel budget.
#[verifier::loop_isolation(false)]
fn run_function<H: StarkNetSyscallHandler>(
    module: &MirModule,
    program: &Program,
    func_idx: usize,
    args: Vec<Value>,
    handler: &mut H,
    fuel: u64,
) -> (r: Result<(Vec<Value>, u64), RunError>)
    ensures
        r matches Ok(p) ==> p.1 <= fuel,
        func_idx >= module.functions@.len() ==> r == Err::<(Vec<Value>, u64), RunError>(
            RunError::UnknownFunction,
        ),
    decreases fuel,
{
    if func_idx >= module.functions.len() {
        return Err(RunError::UnknownFunction);
    }
    let f = &module.functions[func_idx];
    if f.blocks.len() == 0 {
        return Err(RunError::InvariantViolation);
    }
    let mut env: Vec<Option<Value>> = Vec::new();
    let mut k: usize = 0;
    let n_values = f.n_values;
    while k < n_values
        invariant
            k <= n_values,
            env@.len() == k,
        decreases n_values - k,
    {
        env.push(None);
        k = k + 1;
    }
    let mut cur_block: usize = 0;
    let mut cur_args = args;
    let mut fuel_left = fuel;
    while fuel_left > 0
        invariant
            fuel_left <= fuel,
            env@.len() == n_values,
        decreases fuel_left,
    {
        fuel_left = fuel_left - 1;
        if cur_block >= f.blocks.len() {
            return Err(RunError::InvariantViolation);
        }
        let n_params = f.blocks[cur_block].params.len();
        if n_params != cur_args.len() {
            return Err(RunError::InvariantViolation);
        }
        // Bind the block parameters.
        let mut pi: usize = 0;
        while pi < n_params
            invariant
                pi <= n_params,
                env@.len() == n_values,
                cur_args@.len() + pi == n_params,
                cur_block < f.blocks@.len(),
                n_params == f.blocks@[cur_block as int].params@.len(),
            decreases n_params - pi,
        {
            let id = f.blocks[cur_block].params[pi];
            let v = cur_args.remove(0);
            match env_set(&mut env, id, v) {
                Ok(_) => {},
                Err(e) => {
                    return Err(e);
                },
            }
            pi = pi + 1;
        }
        // Execute the block's operations.
        let ghost fuel_snapshot = fuel_left;
        let n_ops = f.blocks[cur_block].ops.len();
        let mut oi: usize = 0;
        while oi < n_ops
            invariant
                oi <= n_ops,
                env@.len() == n_values,
                cur_block < f.blocks@.len(),
                n_ops == f.blocks@[cur_block as int].ops@.len(),
                fuel_left <= fuel_snapshot,
                fuel_left < fuel || fuel == 0,
            decreases n_ops - oi,
        {
            let op = &f.blocks[cur_block].ops[oi];
            let dests = crate::libfuncs::copy_ids(&op.dests);
            let mut outs: Vec<Value> = Vec::new();
            match &op.kind {
                OpKind::ConstFelt { value } => {
                    outs.push(Value::Felt252(value.clone()));
                },
                OpKind::ConstInt { ty, value } => {
                    match const_int_value(*ty, *value) {
                        Ok(v) => outs.push(v),
                        Err(e) => {
                            return Err(e);
                        },
                    }
                },
                OpKind::FeltBinary { op: fop, lhs, rhs } => {
                    let a = match env_get(&env, *lhs) {
                        Ok(v) => v,
                        Err(e) => {
                            return Err(e);
                        },
                    };
                    let b = match env_get(&env, *rhs) {
                        Ok(v) => v,
                        Err(e) => {
                            return Err(e);
                        },
                    };
                    let fa = match as_felt(a) {
                        Ok(f) => f,
                        Err(e) => {
                            return Err(e);
                        },
                    };
                    let fb = match as_felt(b) {
                        Ok(f) => f,
                        Err(e) => {
                            return Err(e);
                        },
                    };
                    let out = match fop {
                        crate::program::FeltBinaryOperator::Add => fa.add(&fb),
                        crate::program::FeltBinaryOperator::Sub => fa.sub(&fb),
                        crate::program::FeltBinaryOperator::Mul => fa.mul(&fb),
                        crate::program::FeltBinaryOperator::Div => {
                            return Err(RunError::InvariantViolation);
                        },
                    };
                    outs.push(Value::Felt252(out));
                },
                OpKind::FeltIsZero { arg } => {
                    let a = match env_get(&env, *arg) {
                        Ok(v) => v,
                        Err(e) => {
                            return Err(e);
                        },
                    };
                    let fa = match as_felt(a) {
                        Ok(f) => f,
                        Err(e) => {
                            return Err(e);
                        },
                    };
                    outs.push(Value::Uint8(if fa.is_zero() { 1 } else { 0 }));
                },
                OpKind::FeltLt { lhs, rhs } => {
                    let a = match env_get(&env, *lhs) {
                        Ok(v) => v,
                        Err(e) => {
                            return Err(e);
                        },
                    };
                    let b = match env_get(&env, *rhs) {
                        Ok(v) => v,
                        Err(e) => {
                            return Err(e);
                        },
                    };
                    let fa = match as_felt(a) {
                        Ok(f) => f,
                        Err(e) => {
                            return Err(e);
                        },
                    };
                    let fb = match as_felt(b) {
                        Ok(f) => f,
                        Err(e) => {
                            return Err(e);
                        },
                    };
                    outs.push(Value::Uint8(if fa.lt_felt(&fb) { 1 } else { 0 }));
                },
                OpKind::Select { cond, if_true, if_false } => {
                    let c = match env_get(&env, *cond) {
                        Ok(v) => v,
                        Err(e) => {
                            return Err(e);
                        },
                    };
                    let flag = match as_flag(c) {
                        Ok(x) => x,
                        Err(e) => {
                            return Err(e);
                        },
                    };
                    let chosen = if flag {
                        env_get(&env, *if_true)
                    } else {
                        env_get(&env, *if_false)
                    };
                    match chosen {
                        Ok(v) => outs.push(v),
                        Err(e) => {
                            return Err(e);
                        },
                    }
                },
                OpKind::IntOp { ty, op: iop, lhs, rhs } => {
                    let a = match env_get(&env, *lhs) {
                        Ok(v) => v,
                        Err(e) => {
                            return Err(e);
                        },
                    };
                    let b = match env_get(&env, *rhs) {
                        Ok(v) => v,
                        Err(e) => {
                            return Err(e);
                        },
                    };
                    match eval_int_op(*ty, *iop, &a, &b) {
                        Ok((v, flag)) => {
                            outs.push(v);
                            outs.push(flag);
                        },
                        Err(e) => {
                            return Err(e);
                        },
                    }
                },
                OpKind::IntEq { ty, lhs, rhs } => {
                    let a = match env_get(&env, *lhs) {
                        Ok(v) => v,
                        Err(e) => {
                            return Err(e);
                        },
                    };
                    let b = match env_get(&env, *rhs) {
                        Ok(v) => v,
                        Err(e) => {
                            return Err(e);
                        },
                    };
                    let pa = match int_pattern(&a, *ty) {
                        Ok(p) => p,
                        Err(e) => {
                            return Err(e);
                        },
                    };
                    let pb = match int_pattern(&b, *ty) {
                        Ok(p) => p,
                        Err(e) => {
                            return Err(e);
                        },
                    };
                    outs.push(Value::Uint8(if pa == pb { 1 } else { 0 }));
                },
                OpKind::IntLt { ty, lhs, rhs } => {
                    let a = match env_get(&env, *lhs) {
                        Ok(v) => v,
                        Err(e) => {
                            return Err(e);
                        },
                    };
                    let b = match env_get(&env, *rhs) {
                        Ok(v) => v,
                        Err(e) => {
                            return Err(e);
                        },
                    };
                    match eval_int_lt(*ty, &a, &b) {
                        Ok(x) => outs.push(Value::Uint8(if x { 1 } else { 0 })),
                        Err(e) => {
                            return Err(e);
                        },
                    }
                },
                OpKind::IncCounter { arg, amount } => {
                    let a = match env_get(&env, *arg) {
                        Ok(v) => v,
                        Err(e) => {
                            return Err(e);
                        },
                    };
                    match a {
                        Value::Uint64(x) => {
                            let bumped = if x > u64::MAX - *amount {
                                x - (u64::MAX - *amount) - 1
                            } else {
                                x + *amount
                            };
                            outs.push(Value::Uint64(bumped));
                        },
                        _ => {
                            return Err(RunError::InvariantViolation);
                        },
                    }
                },
                OpKind::IntWideMul { ty, lhs, rhs } => {
                    let a = match env_get(&env, *lhs) {
                        Ok(v) => v,
                        Err(e) => {
                            return Err(e);
                        },
                    };
                    let b = match env_get(&env, *rhs) {
                        Ok(v) => v,
                        Err(e) => {
                            return Err(e);
                        },
                    };
                    match eval_widemul(*ty, &a, &b) {
                        Ok(v) => outs.push(v),
                        Err(e) => {
                            return Err(e);
                        },
                    }
                },
                OpKind::IntToFelt252 { ty, arg } => {
                    let a = match env_get(&env, *arg) {
                        Ok(v) => v,
                        Err(e) => {
                            return Err(e);
                        },
                    };
                    let p = match int_pattern(&a, *ty) {
                        Ok(p) => p,
                        Err(e) => {
                            return Err(e);
                        },
                    };
                    outs.push(Value::Felt252(Felt252::from_u128(p)));
                },
                OpKind::FeltToInt { ty, arg } => {
                    let a = match env_get(&env, *arg) {
                        Ok(v) => v,
                        Err(e) => {
                            return Err(e);
                        },
                    };
                    let fa = match as_felt(a) {
                        Ok(f) => f,
                        Err(e) => {
                            return Err(e);
                        },
                    };
                    match fa.to_u128() {
                        Some(p) => outs.push(int_from_pattern(*ty, p)),
                        None => {
                            return Err(RunError::InvariantViolation);
                        },
                    }
                },
                OpKind::StructMake { fields } => {
                    let mut vs: Vec<Value> = Vec::new();
                    let mut fi: usize = 0;
                    while fi < fields.len()
                        invariant
                            env@.len() == n_values,
                        decreases fields@.len() - fi,
                    {
                        match env_get(&env, fields[fi]) {
                            Ok(v) => vs.push(v),
                            Err(e) => {
                                return Err(e);
                            },
                        }
                        fi = fi + 1;
                    }
                    outs.push(Value::Struct { fields: vs, debug_name: None });
                },
                OpKind::StructExtract { arg, index } => {
                    let a = match env_get(&env, *arg) {
                        Ok(v) => v,
                        Err(e) => {
                            return Err(e);
                        },
                    };
                    match a {
                        Value::Struct { fields, .. } => {
                            if *index >= fields.len() {
                                return Err(RunError::InvariantViolation);
                            }
                            outs.push(fields[*index].duplicate());
                        },
                        _ => {
                            return Err(RunError::InvariantViolation);
                        },
                    }
                },
                OpKind::EnumMake { tag, arg } => {
                    let a = match env_get(&env, *arg) {
                        Ok(v) => v,
                        Err(e) => {
                            return Err(e);
                        },
                    };
                    outs.push(Value::Enum { tag: *tag, value: Box::new(a), debug_name: None });
                },
                OpKind::EnumTag { arg } => {
                    let a = match env_get(&env, *arg) {
                        Ok(v) => v,
                        Err(e) => {
                            return Err(e);
                        },
                    };
                    match a {
                        Value::Enum { tag, .. } => {
                            if tag > u64::MAX as usize {
                                return Err(RunError::InvariantViolation);
                            }
                            outs.push(Value::Uint64(tag as u64));
                        },
                        _ => {
                            return Err(RunError::InvariantViolation);
                        },
                    }
                },
                OpKind::EnumPayload { arg } => {
                    let a = match env_get(&env, *arg) {
                        Ok(v) => v,
                        Err(e) => {
                            return Err(e);
                        },
                    };
                    match a {
                        Value::Enum { value, .. } => {
                            outs.push(*value);
                        },
                        _ => {
                            return Err(RunError::InvariantViolation);
                        },
                    }
                },
                OpKind::ArrayNew => {
                    outs.push(Value::Array(Vec::new()));
                },
                OpKind::ArrayAppend { arr, item } => {
                    let a = match env_get(&env, *arr) {
                        Ok(v) => v,
                        Err(e) => {
                            return Err(e);
                        },
                    };
                    let it = match env_get(&env, *item) {
                        Ok(v) => v,
                        Err(e) => {
                            return Err(e);
                        },
                    };
                    match a {
                        Value::Array(items) => {
                            let mut items = items;
                            items.push(it);
                            outs.push(Value::Array(items));
                        },
                        _ => {
                            return Err(RunError::InvariantViolation);
                        },
                    }
                },
                OpKind::ArrayLen { arr } => {
                    let a = match env_get(&env, *arr) {
                        Ok(v) => v,
                        Err(e) => {
                            return Err(e);
                        },
                    };
                    match a {
                        Value::Array(items) => {
                            if items.len() > u32::MAX as usize {
                                return Err(RunError::InvariantViolation);
                            }
                            outs.push(Value::Uint32(items.len() as u32));
                        },
                        _ => {
                            return Err(RunError::InvariantViolation);
                        },
                    }
                },
                OpKind::ArrayRead { arr, index } => {
                    let a = match env_get(&env, *arr) {
                        Ok(v) => v,
                        Err(e) => {
                            return Err(e);
                        },
                    };
                    let idx = match env_get(&env, *index) {
                        Ok(v) => v,
                        Err(e) => {
                            return Err(e);
                        },
                    };
                    let i_val = match idx {
                        Value::Uint32(x) => x as usize,
                        _ => {
                            return Err(RunError::InvariantViolation);
                        },
                    };
                    match a {
                        Value::Array(items) => {
                            if i_val >= items.len() {
                                return Err(RunError::InvariantViolation);
                            }
                            outs.push(items[i_val].duplicate());
                        },
                        _ => {
                            return Err(RunError::InvariantViolation);
                        },
                    }
                },
                OpKind::ArrayPop { arr } => {
                    let a = match env_get(&env, *arr) {
                        Ok(v) => v,
                        Err(e) => {
                            return Err(e);
                        },
                    };
                    match a {
                        Value::Array(items) => {
                            let mut items = items;
                            if items.len() == 0 {
                                return Err(RunError::InvariantViolation);
                            }
                            let head = items.remove(0);
                            outs.push(Value::Array(items));
                            outs.push(head);
                        },
                        _ => {
                            return Err(RunError::InvariantViolation);
                        },
                    }
                },
                OpKind::DictNew => {
                    outs.push(Value::Felt252Dict { keys: Vec::new(), values: Vec::new() });
                },
                OpKind::DictGet { dict, key } => {
                    let d = match env_get(&env, *dict) {
                        Ok(v) => v,
                        Err(e) => {
                            return Err(e);
                        },
                    };
                    let k = match env_get(&env, *key) {
                        Ok(v) => v,
                        Err(e) => {
                            return Err(e);
                        },
                    };
                    let fk = match as_felt(k) {
                        Ok(f) => f,
                        Err(e) => {
                            return Err(e);
                        },
                    };
                    match d {
                        Value::Felt252Dict { keys, values } => {
                            let mut keys = keys;
                            let mut values = values;
                            if keys.len() != values.len() {
                                return Err(RunError::InvariantViolation);
                            }
                            let mut found: Option<usize> = None;
                            let mut ki: usize = 0;
                            while ki < keys.len()
                                invariant
                                    keys@.len() == values@.len(),
                                    found matches Some(f) ==> f < keys@.len(),
                                decreases keys@.len() - ki,
                            {
                                if keys[ki].eq_felt(&fk) && found.is_none() {
                                    found = Some(ki);
                                }
                                ki = ki + 1;
                            }
                            // The entry borrows the dictionary without the
                            // binding; the prior value defaults to zero.
                            let prior = match found {
                                Some(at) => {
                                    if at >= keys.len() || keys.len() != values.len() {
                                        return Err(RunError::InvariantViolation);
                                    }
                                    let _old_key = keys.remove(at);
                                    values.remove(at)
                                },
                                None => Value::Felt252(Felt252::zero()),
                            };
                            let entry = Value::Struct {
                                fields: vec![
                                    Value::Felt252Dict { keys, values },
                                    Value::Felt252(fk),
                                ],
                                debug_name: None,
                            };
                            outs.push(entry);
                            outs.push(prior);
                        },
                        _ => {
                            return Err(RunError::InvariantViolation);
                        },
                    }
                },
                OpKind::DictFinalize { entry, value } => {
                    let e = match env_get(&env, *entry) {
                        Ok(v) => v,
                        Err(e) => {
                            return Err(e);
                        },
                    };
                    let v = match env_get(&env, *value) {
                        Ok(v) => v,
                        Err(e) => {
                            return Err(e);
                        },
                    };
                    match e {
                        Value::Struct { fields, .. } => {
                            let mut fields = fields;
                            if fields.len() != 2 {
                                return Err(RunError::InvariantViolation);
                            }
                            let key = fields.remove(1);
                            let dict = fields.remove(0);
                            let fk = match as_felt(key) {
                                Ok(f) => f,
                                Err(e2) => {
                                    return Err(e2);
                                },
                            };
                            match dict {
                                Value::Felt252Dict { keys, values } => {
                                    let mut keys = keys;
                                    let mut values = values;
                                    keys.push(fk);
                                    values.push(v);
                                    outs.push(Value::Felt252Dict { keys, values });
                                },
                                _ => {
                                    return Err(RunError::InvariantViolation);
                                },
                            }
                        },
                        _ => {
                            return Err(RunError::InvariantViolation);
                        },
                    }
                },
                OpKind::Hades { s0, s1, s2 } => {
                    let a = match env_get(&env, *s0) {
                        Ok(v) => v,
                        Err(e) => {
                            return Err(e);
                        },
                    };
                    let b2 = match env_get(&env, *s1) {
                        Ok(v) => v,
                        Err(e) => {
                            return Err(e);
                        },
                    };
                    let c = match env_get(&env, *s2) {
                        Ok(v) => v,
                        Err(e) => {
                            return Err(e);
                        },
                    };
                    let fa = match as_felt(a) {
                        Ok(f) => f,
                        Err(e) => {
                            return Err(e);
                        },
                    };
                    let fb = match as_felt(b2) {
                        Ok(f) => f,
                        Err(e) => {
                            return Err(e);
                        },
                    };
                    let fc = match as_felt(c) {
                        Ok(f) => f,
                        Err(e) => {
                            return Err(e);
                        },
                    };
                    let (x, y, z) = crate::runtime::hades_permutation(&fa, &fb, &fc);
                    outs.push(Value::Felt252(x));
                    outs.push(Value::Felt252(y));
                    outs.push(Value::Felt252(z));
                },
                OpKind::Pedersen { lhs, rhs } => {
                    let a = match env_get(&env, *lhs) {
                        Ok(v) => v,
                        Err(e) => {
                            return Err(e);
                        },
                    };
                    let b = match env_get(&env, *rhs) {
                        Ok(v) => v,
                        Err(e) => {
                            return Err(e);
                        },
                    };
                    let fa = match as_felt(a) {
                        Ok(f) => f,
                        Err(e) => {
                            return Err(e);
                        },
                    };
                    let fb = match as_felt(b) {
                        Ok(f) => f,
                        Err(e) => {
                            return Err(e);
                        },
                    };
                    outs.push(Value::Felt252(crate::runtime::pedersen(&fa, &fb)));
                },
                OpKind::Syscall { kind, slot: _, result_layout: _, gas, system, args: sys_args } => {
                    let g = match env_get(&env, *gas) {
                        Ok(v) => v,
                        Err(e) => {
                            return Err(e);
                        },
                    };
                    let gas_val = match g {
                        Value::Uint128(x) => x,
                        _ => {
                            return Err(RunError::InvariantViolation);
                        },
                    };
                    let mut vals: Vec<Value> = Vec::new();
                    let mut si: usize = 0;
                    while si < sys_args.len()
                        invariant
                            env@.len() == n_values,
                        decreases sys_args@.len() - si,
                    {
                        match env_get(&env, sys_args[si]) {
                            Ok(v) => vals.push(v),
                            Err(e) => {
                                return Err(e);
                            },
                        }
                        si = si + 1;
                    }
                    match dispatch_syscall(*kind, gas_val, vals, handler) {
                        Ok((new_gas, result)) => {
                            outs.push(Value::Uint128(new_gas));
                            outs.push(result);
                        },
                        Err(e) => {
                            return Err(e);
                        },
                    }
                },
                OpKind::Call { function, sret: _, args: call_args } => {
                    let mut vals: Vec<Value> = Vec::new();
                    let mut ci: usize = 0;
                    while ci < call_args.len()
                        invariant
                            env@.len() == n_values,
                        decreases call_args@.len() - ci,
                    {
                        match env_get(&env, call_args[ci]) {
                            Ok(v) => vals.push(v),
                            Err(e) => {
                                return Err(e);
                            },
                        }
                        ci = ci + 1;
                    }
                    let nested = run_function(module, program, *function, vals, handler, fuel_left);
                    match nested {
                        Ok((rets, rest)) => {
                            fuel_left = rest;
                            let mut rets = rets;
                            let nr = rets.len();
                            let mut ri: usize = 0;
                            while ri < nr
                                invariant
                                    rets@.len() + ri == nr,
                                decreases nr - ri,
                            {
                                if rets.len() == 0 {
                                    break ;
                                }
                                outs.push(rets.remove(0));
                                ri = ri + 1;
                            }
                        },
                        Err(e) => {
                            return Err(e);
                        },
                    }
                },
            }
            // Write the results into the environment.
            if outs.len() != dests.len() {
                return Err(RunError::InvariantViolation);
            }
            let mut di: usize = 0;
            let nd = dests.len();
            while di < nd
                invariant
                    env@.len() == n_values,
                    outs@.len() + di == nd,
                    dests@.len() == nd,
                decreases nd - di,
            {
                if outs.len() == 0 {
                    break ;
                }
                let v = outs.remove(0);
                match env_set(&mut env, dests[di], v) {
                    Ok(_) => {},
                    Err(e) => {
                        return Err(e);
                    },
                }
                di = di + 1;
            }
            oi = oi + 1;
        }
        // Follow the terminator.
        let term = match &f.blocks[cur_block].term {
            Some(t) => t,
            None => {
                return Err(RunError::InvariantViolation);
            },
        };
        match term {
            Terminator::Return { args: ret_args } => {
                let mut rets: Vec<Value> = Vec::new();
                let mut ri: usize = 0;
                while ri < ret_args.len()
                    invariant
                        env@.len() == n_values,
                    decreases ret_args@.len() - ri,
                {
                    match env_get(&env, ret_args[ri]) {
                        Ok(v) => rets.push(v),
                        Err(e) => {
                            return Err(e);
                        },
                    }
                    ri = ri + 1;
                }
                return Ok((rets, fuel_left));
            },
            Terminator::Br { target, args: br_args } => {
                let mut vals: Vec<Value> = Vec::new();
                let mut ai: usize = 0;
                while ai < br_args.len()
                    invariant
                        env@.len() == n_values,
                    decreases br_args@.len() - ai,
                {
                    match env_get(&env, br_args[ai]) {
                        Ok(v) => vals.push(v),
                        Err(e) => {
                            return Err(e);
                        },
                    }
                    ai = ai + 1;
                }
                cur_block = *target;
                cur_args = vals;
            },
            Terminator::CondBr { cond, true_target, true_args, false_target, false_args } => {
                let c = match env_get(&env, *cond) {
                    Ok(v) => v,
                    Err(e) => {
                        return Err(e);
                    },
                };
                let flag = match as_flag(c) {
                    Ok(x) => x,
                    Err(e) => {
                        return Err(e);
                    },
                };
                let chosen_args = if flag {
                    true_args
                } else {
                    false_args
                };
                let mut vals: Vec<Value> = Vec::new();
                let mut ai: usize = 0;
                while ai < chosen_args.len()
                    invariant
                        env@.len() == n_values,
                    decreases chosen_args@.len() - ai,
                {
                    match env_get(&env, chosen_args[ai]) {
                        Ok(v) => vals.push(v),
                        Err(e) => {
                            return Err(e);
                        },
                    }
                    ai = ai + 1;
                }
                cur_block = if flag {
                    *true_target
                } else {
                    *false_target
                };
                cur_args = vals;
            },
            Terminator::Switch { flag, default_target, default_args, cases } => {
                let c = match env_get(&env, *flag) {
                    Ok(v) => v,
                    Err(e) => {
                        return Err(e);
                    },
                };
                let tag = match c {
                    Value::Uint64(x) => x,
                    Value::Uint8(x) => x as u64,
                    Value::Uint32(x) => x as u64,
                    _ => {
                        return Err(RunError::InvariantViolation);
                    },
                };
                let mut chosen_target = *default_target;
                let mut chosen: Option<usize> = None;
                let mut ci: usize = 0;
                while ci < cases.len()
                    invariant
                        chosen matches Some(k) ==> k < cases@.len(),
                    decreases cases@.len() - ci,
                {
                    if cases[ci].value == tag && chosen.is_none() {
                        chosen = Some(ci);
                    }
                    ci = ci + 1;
                }
                let chosen_args: &Vec<usize> = match &chosen {
                    Some(k) => {
                        chosen_target = cases[*k].target;
                        &cases[*k].args
                    },
                    None => default_args,
                };
                let mut vals: Vec<Value> = Vec::new();
                let mut ai: usize = 0;
                while ai < chosen_args.len()
                    invariant
                        env@.len() == n_values,
                    decreases chosen_args@.len() - ai,
                {
                    match env_get(&env, chosen_args[ai]) {
                        Ok(v) => vals.push(v),
                        Err(e) => {
                            return Err(e);
                        },
                    }
                    ai = ai + 1;
                }
                cur_block = chosen_target;
                cur_args = vals;
            },
        }
    }
    Err(RunError::OutOfFuel)
}

/// A machine-integer constant, refused when the literal does not fit the
/// type.
fn const_int_value(ty: IntTy, value: i128) -> (r: Result<Value, RunError>) {
    match ty {
        IntTy::U8 => {
            if 0 <= value && value <= u8::MAX as i128 {
                Ok(Value::Uint8(value as u8))
            } else {
                Err(RunError::InvariantViolation)
            }
        },
        IntTy::U16 => {
            if 0 <= value && value <= u16::MAX as i128 {
                Ok(Value::Uint16(value as u16))
            } else {
                Err(RunError::InvariantViolation)
            }
        },
        IntTy::U32 => {
            if 0 <= value && value <= u32::MAX as i128 {
                Ok(Value::Uint32(value as u32))
            } else {
                Err(RunError::InvariantViolation)
            }
        },
        IntTy::U64 => {
            if 0 <= value && value <= u64::MAX as i128 {
                Ok(Value::Uint64(value as u64))
            } else {
                Err(RunError::InvariantViolation)
            }
        },
        IntTy::U128 => {
            if 0 <= value {
                Ok(Value::Uint128(value as u128))
            } else {
                Err(RunError::InvariantViolation)
            }
        },
        IntTy::I8 => {
            if i8::MIN as i128 <= value && value <= i8::MAX as i128 {
                Ok(Value::Sint8(value as i8))
            } else {
                Err(RunError::InvariantViolation)
            }
        },
        IntTy::I16 => {
            if i16::MIN as i128 <= value && value <= i16::MAX as i128 {
                Ok(Value::Sint16(value as i16))
            } else {
                Err(RunError::InvariantViolation)
            }
        },
        IntTy::I32 => {
            if i32::MIN as i128 <= value && value <= i32::MAX as i128 {
                Ok(Value::Sint32(value as i32))
            } else {
                Err(RunError::InvariantViolation)
            }
        },
        IntTy::I64 => {
            if i64::MIN as i128 <= value && value <= i64::MAX as i128 {
                Ok(Value::Sint64(value as i64))
            } else {
                Err(RunError::InvariantViolation)
            }
        },
        IntTy::I128 => Ok(Value::Sint128(value)),
    }
}

/// Whether the program declares a function with this id.
pub open spec fn spec_has_function(funcs: Seq<Function>, id: u64) -> bool {
    exists|i: int| 0 <= i < funcs.len() && funcs[i].id == id
}

/// The index of the function with this id (ids are unique in a valid
/// program).
pub open spec fn spec_function_index(funcs: Seq<Function>, id: u64) -> int {
    choose|i: int| 0 <= i < funcs.len() && funcs[i].id == id
}

/// Finds the function declared under an id.
fn find_function_index(program: &Program, id: u64) -> (r: Option<usize>)
    ensures
        match r {
            Some(i) => i < program.funcs@.len() && program.funcs@[i as int].id == id,
            None => !spec_has_function(program.funcs@, id),
        },
{
    let mut i: usize = 0;
    while i < program.funcs.len()
        invariant
            i <= program.funcs@.len(),
            forall|j: int| 0 <= j < i ==> program.funcs@[j].id != id,
        decreases program.funcs@.len() - i,
    {
        if program.funcs[i].id == id {
            return Some(i);
        }
        i = i + 1;
    }
    None
}

/// The declared signature of a function: its parameter types and return
/// types, by type id.
pub fn signature(program: &Program, function_id: u64) -> (r: Option<(Vec<usize>, Vec<usize>)>)
    ensures
        match r {
            Some(sig) => exists|i: int|
                0 <= i < program.funcs@.len() && #[trigger] program.funcs@[i].id == function_id
                    && sig.0@ == program.funcs@[i].param_types@ && sig.1@
                    == program.funcs@[i].ret_types@,
            None => !spec_has_function(program.funcs@, function_id),
        },
{
    let idx = match find_function_index(program, function_id) {
        Some(i) => i,
        None => {
            return None;
        },
    };
    let func = &program.funcs[idx];
    let params = crate::libfuncs::copy_ids(&func.param_types);
    let rets = crate::libfuncs::copy_ids(&func.ret_types);
    Some((params, rets))
}

/// Executes one function of a compiled module.
///
/// The call is validated first: an unknown id is refused, then the argument
/// count is held against the function's non-builtin parameters
/// (`ArityMismatch`), then each argument against its parameter's type
/// (`TypeMismatch`).  Builtin counters and the gas value are synthesized,
/// never caller-supplied.  None of the failures aborts the host.
#[verifier::loop_isolation(false)]
pub fn execute<H: StarkNetSyscallHandler>(
    module: &MirModule,
    program: &Program,
    function_id: u64,
    args: &Vec<Value>,
    gas: Option<u128>,
    handler: &mut H,
) -> (r: Result<ExecutionResult, RunError>)
    requires
        module.functions@.len() == program.funcs@.len(),
        forall|i: int, j: int|
            0 <= i < program.funcs@.len() && 0 <= j < program.funcs@.len()
                && #[trigger] program.funcs@[i].id == #[trigger] program.funcs@[j].id ==> i == j,
    ensures
        (r matches Err(e) && e == RunError::UnknownFunction) <==> !spec_has_function(
            program.funcs@,
            function_id,
        ),
        (r matches Err(e) && e == RunError::ArityMismatch) <==> spec_has_function(
            program.funcs@,
            function_id,
        ) && args@.len() != user_params(
            program.types@,
            program.funcs@[spec_function_index(program.funcs@, function_id)].param_types@,
        ).len(),
        (r matches Err(e) && e == RunError::TypeMismatch) <==> spec_has_function(
            program.funcs@,
            function_id,
        ) && args@.len() == user_params(
            program.types@,
            program.funcs@[spec_function_index(program.funcs@, function_id)].param_types@,
        ).len() && !(forall|j: int|
            0 <= j < args@.len() ==> spec_value_matches(
                program.types@,
                #[trigger] args@[j]@,
                user_params(
                    program.types@,
                    program.funcs@[spec_function_index(program.funcs@, function_id)].param_types@,
                )[j] as int,
            )),
        r matches Ok(res) && res.remaining_gas is Some ==> (exists|i: int|
            #![trigger program.funcs@[spec_function_index(program.funcs@, function_id)].ret_types@[i]]
            0 <= i < program.funcs@[spec_function_index(program.funcs@, function_id)].ret_types@.len()
                && (program.funcs@[spec_function_index(program.funcs@, function_id)].ret_types@[i]
                as int) < program.types@.len() && program.types@[program.funcs@[
                spec_function_index(program.funcs@, function_id)].ret_types@[i] as int]
                is GasBuiltin),
{
    let func_idx = match find_function_index(program, function_id) {
        Some(i) => i,
        None => {
            return Err(RunError::UnknownFunction);
        },
    };
    proof {
        assert(spec_has_function(program.funcs@, function_id));
        assert(spec_function_index(program.funcs@, function_id) == func_idx as int);
    }
    let func = &program.funcs[func_idx];
    let user_tys = compute_user_params(program, &func.param_types);
    if args.len() != user_tys.len() {
        return Err(RunError::ArityMismatch);
    }
    let mut i: usize = 0;
    while i < args.len()
        invariant
            i <= args@.len(),
            args@.len() == user_tys@.len(),
            forall|j: int|
                0 <= j < i ==> spec_value_matches(
                    program.types@,
                    #[trigger] args@[j]@,
                    user_tys@[j] as int,
                ),
        decreases args@.len() - i,
    {
        if !check_value_type(program, &args[i], user_tys[i]) {
            return Err(RunError::TypeMismatch);
        }
        i = i + 1;
    }
    // Synthesize the builtin tokens and build the call's argument list.
    let initial_gas: u128 = match gas {
        Some(g) => g,
        None => u128::MAX,
    };
    let mut call_args: Vec<Value> = Vec::new();
    let mut next_user: usize = 0;
    let mut pi: usize = 0;
    while pi < func.param_types.len()
        invariant
            next_user <= args@.len(),
        decreases func.param_types@.len() - pi,
    {
        let t = func.param_types[pi];
        if t < program.types.len() && crate::types::is_builtin(&program.types[t]) {
            match &program.types[t] {
                ConcreteType::GasBuiltin => call_args.push(Value::Uint128(initial_gas)),
                ConcreteType::System => call_args.push(Value::Uint64(0)),
                _ => call_args.push(Value::Uint64(0)),
            }
        } else {
            if next_user >= args.len() {
                return Err(RunError::InvariantViolation);
            }
            call_args.push(args[next_user].duplicate());
            next_user = next_user + 1;
        }
        pi = pi + 1;
    }
    let outcome = run_function(module, program, func_idx, call_args, handler, 100_000_000u64);
    let rets = match outcome {
        Ok((rets, _left)) => rets,
        Err(e) => {
            // A nested validation failure is a compiler bug, not a property
            // of this call.
            return match e {
                RunError::OutOfFuel => Err(RunError::OutOfFuel),
                _ => Err(RunError::InvariantViolation),
            };
        },
    };
    // Partition the returns: builtin counters feed the statistics, the gas
    // counter reports the remaining gas, the rest is the return value.
    if rets.len() != func.ret_types.len() {
        return Err(RunError::InvariantViolation);
    }
    let mut rets = rets;
    let mut stats = BuiltinStats {
        range_check: 0,
        pedersen: 0,
        poseidon: 0,
        bitwise: 0,
        ec_op: 0,
        segment_arena: 0,
    };
    let mut remaining_gas: Option<u128> = None;
    let mut user_rets: Vec<Value> = Vec::new();
    let mut ri: usize = 0;
    let nr = func.ret_types.len();
    while ri < nr
        invariant
            rets@.len() + ri == nr,
            nr == func.ret_types@.len(),
            remaining_gas is Some ==> (exists|i: int|
                #![trigger func.ret_types@[i]]
                0 <= i < nr && (func.ret_types@[i] as int) < program.types@.len()
                    && program.types@[func.ret_types@[i] as int] is GasBuiltin),
        decreases nr - ri,
    {
        if rets.len() == 0 {
            break ;
        }
        let t = func.ret_types[ri];
        if t >= program.types.len() {
            return Err(RunError::InvariantViolation);
        }
        let v = rets.remove(0);
        match &program.types[t] {
            ConcreteType::GasBuiltin => {
                match v {
                    Value::Uint128(g) => {
                        remaining_gas = Some(g);
                        proof {
                            assert(0 <= ri < nr && (func.ret_types@[ri as int] as int)
                                < program.types@.len() && program.types@[func.ret_types@[ri as
                                int] as int] is GasBuiltin);
                        }
                    },
                    _ => {
                        return Err(RunError::InvariantViolation);
                    },
                }
            },
            ConcreteType::RangeCheck => {
                match v {
                    Value::Uint64(c) => {
                        stats.range_check = c;
                    },
                    _ => {
                        return Err(RunError::InvariantViolation);
                    },
                }
            },
            ConcreteType::Pedersen => {
                match v {
                    Value::Uint64(c) => {
                        stats.pedersen = c;
                    },
                    _ => {
                        return Err(RunError::InvariantViolation);
                    },
                }
            },
            ConcreteType::Poseidon => {
                match v {
                    Value::Uint64(c) => {
                        stats.poseidon = c;
                    },
                    _ => {
                        return Err(RunError::InvariantViolation);
                    },
                }
            },
            ConcreteType::Bitwise => {
                match v {
                    Value::Uint64(c) => {
                        stats.bitwise = c;
                    },
                    _ => {
                        return Err(RunError::InvariantViolation);
                    },
                }
            },
            ConcreteType::EcOp => {
                match v {
                    Value::Uint64(c) => {
                        stats.ec_op = c;
                    },
                    _ => {
                        return Err(RunError::InvariantViolation);
                    },
                }
            },
            ConcreteType::SegmentArena => {
                match v {
                    Value::Uint64(c) => {
                        stats.segment_arena = c;
                    },
                    _ => {
                        return Err(RunError::InvariantViolation);
                    },
                }
            },
            ConcreteType::System => {},
            _ => {
                user_rets.push(v);
            },
        }
        ri = ri + 1;
    }
    let return_value = if user_rets.len() == 1 {
        match user_rets.pop() {
            Some(v) => v,
            None => unit_value(),
        }
    } else {
        Value::Struct { fields: user_rets, debug_name: None }
    };
    Ok(ExecutionResult { remaining_gas, return_value, builtin_stats: stats })
}

} // verus!
