//! Runtime values of the executor.
//!
//! A `Value` is what flows into and out of a compiled function: field
//! elements, machine integers, aggregates, arrays and the null sentinel.
//! Its mathematical shape is [`VV`], with field elements read as naturals.

use crate::felt252::Felt252;
use vstd::prelude::*;

verus! {

/// The mathematical shape of a runtime value.
pub enum VV {
    Felt(nat),
    U8(u8),
    U16(u16),
    U32(u32),
    U64(u64),
    U128(u128),
    I8(i8),
    I16(i16),
    I32(i32),
    I64(i64),
    I128(i128),
    Struct { fields: Seq<VV>, name: Option<Seq<char>> },
    Enum { tag: nat, value: Box<VV>, name: Option<Seq<char>> },
    Array(Seq<VV>),
    Dict { keys: Seq<nat>, values: Seq<VV> },
    Null,
}

/// A runtime value.
#[derive(Debug, PartialEq)]
pub enum Value {
    Felt252(Felt252),
    Uint8(u8),
    Uint16(u16),
    Uint32(u32),
    Uint64(u64),
    Uint128(u128),
    Sint8(i8),
    Sint16(i16),
    Sint32(i32),
    Sint64(i64),
    Sint128(i128),
    Struct { fields: Vec<Value>, debug_name: Option<String> },
    Enum { tag: usize, value: Box<Value>, debug_name: Option<String> },
    Array(Vec<Value>),
    Felt252Dict { keys: Vec<Felt252>, values: Vec<Value> },
    Null,
}

/// The view of an optional debug name.
pub open spec fn name_view(n: Option<String>) -> Option<Seq<char>> {
    match n {
        Some(s) => Some(s@),
        None => None,
    }
}

/// The mathematical value a runtime value holds.
pub open spec fn value_view(v: Value) -> VV
    decreases v, 1int,
    via value_view_decreases
{
    match v {
        Value::Felt252(f) => VV::Felt(f@),
        Value::Uint8(x) => VV::U8(x),
        Value::Uint16(x) => VV::U16(x),
        Value::Uint32(x) => VV::U32(x),
        Value::Uint64(x) => VV::U64(x),
        Value::Uint128(x) => VV::U128(x),
        Value::Sint8(x) => VV::I8(x),
        Value::Sint16(x) => VV::I16(x),
        Value::Sint32(x) => VV::I32(x),
        Value::Sint64(x) => VV::I64(x),
        Value::Sint128(x) => VV::I128(x),
        Value::Struct { fields, debug_name } => VV::Struct {
            fields: values_view(fields@),
            name: name_view(debug_name),
        },
        Value::Enum { tag, value, debug_name } => VV::Enum {
            tag: tag as nat,
            value: Box::new(value_view(*value)),
            name: name_view(debug_name),
        },
        Value::Array(items) => VV::Array(values_view(items@)),
        Value::Felt252Dict { keys, values } => VV::Dict {
            keys: Seq::new(keys@.len(), |i: int| keys@[i]@),
            values: values_view(values@),
        },
        Value::Null => VV::Null,
    }
}

/// The mathematical values a sequence of runtime values holds.
pub open spec fn values_view(vs: Seq<Value>) -> Seq<VV>
    decreases vs, 0int,
{
    if vs.len() == 0 {
        Seq::empty()
    } else {
        values_view(vs.drop_last()).push(value_view(vs.last()))
    }
}

#[via_fn]
proof fn value_view_decreases(v: Value) {
    match v {
        Value::Struct { fields, debug_name } => {
            assert(decreases_to!(v => fields));
            assert(decreases_to!(fields => fields@));
        },
        Value::Enum { tag, value, debug_name } => {
            assert(decreases_to!(v => *value));
        },
        Value::Array(items) => {
            assert(decreases_to!(v => items));
            assert(decreases_to!(items => items@));
        },
        Value::Felt252Dict { keys, values } => {
            assert(decreases_to!(v => values));
            assert(decreases_to!(values => values@));
        },
        _ => {},
    }
}

impl View for Value {
    type V = VV;

    open spec fn view(&self) -> VV {
        value_view(*self)
    }
}

/// A value's view is struct-shaped exactly when the value is a struct.
pub proof fn lemma_view_struct_shape(v: Value)
    ensures
        (value_view(v) is Struct) <==> (v matches Value::Struct { .. }),
{
    match v {
        Value::Felt252(_) => {},
        Value::Uint8(_) => {},
        Value::Uint16(_) => {},
        Value::Uint32(_) => {},
        Value::Uint64(_) => {},
        Value::Uint128(_) => {},
        Value::Sint8(_) => {},
        Value::Sint16(_) => {},
        Value::Sint32(_) => {},
        Value::Sint64(_) => {},
        Value::Sint128(_) => {},
        Value::Struct { .. } => {},
        Value::Enum { .. } => {},
        Value::Array(_) => {},
        Value::Felt252Dict { .. } => {},
        Value::Null => {},
    }
}

/// The element-wise reading of [`values_view`].
pub proof fn lemma_values_view(vs: Seq<Value>)
    ensures
        values_view(vs).len() == vs.len(),
        forall|i: int| 0 <= i < vs.len() ==> values_view(vs)[i] == value_view(vs[i]),
    decreases vs.len(),
{
    if vs.len() > 0 {
        lemma_values_view(vs.drop_last());
    }
}

impl Value {
    /// A deep copy: the copy has the same mathematical value.
    pub fn duplicate(&self) -> (r: Value)
        ensures
            r@ == self@,
        decreases self,
    {
        match self {
            Value::Felt252(f) => Value::Felt252(f.clone()),
            Value::Uint8(x) => Value::Uint8(*x),
            Value::Uint16(x) => Value::Uint16(*x),
            Value::Uint32(x) => Value::Uint32(*x),
            Value::Uint64(x) => Value::Uint64(*x),
            Value::Uint128(x) => Value::Uint128(*x),
            Value::Sint8(x) => Value::Sint8(*x),
            Value::Sint16(x) => Value::Sint16(*x),
            Value::Sint32(x) => Value::Sint32(*x),
            Value::Sint64(x) => Value::Sint64(*x),
            Value::Sint128(x) => Value::Sint128(*x),
            Value::Struct { fields, debug_name } => Value::Struct {
                fields: duplicate_values(fields),
                debug_name: clone_name(debug_name),
            },
            Value::Enum { tag, value, debug_name } => Value::Enum {
                tag: *tag,
                value: Box::new(value.duplicate()),
                debug_name: clone_name(debug_name),
            },
            Value::Array(items) => Value::Array(duplicate_values(items)),
            Value::Felt252Dict { keys, values } => {
                let mut cloned_keys: Vec<Felt252> = Vec::new();
                let mut i: usize = 0;
                while i < keys.len()
                    invariant
                        i <= keys@.len(),
                        cloned_keys@.len() == i,
                        forall|j: int| 0 <= j < i ==> cloned_keys@[j]@ == keys@[j]@,
                    decreases keys@.len() - i,
                {
                    cloned_keys.push(keys[i].clone());
                    i = i + 1;
                }
                let r = Value::Felt252Dict {
                    keys: cloned_keys,
                    values: duplicate_values(values),
                };
                proof {
                    assert(r@ matches VV::Dict { keys: ks, .. } && ks =~= Seq::new(
                        keys@.len(),
                        |j: int| keys@[j]@,
                    ));
                }
                r
            },
            Value::Null => Value::Null,
        }
    }
}

/// Deep copies of a vector of values.
pub fn duplicate_values(vs: &Vec<Value>) -> (r: Vec<Value>)
    ensures
        values_view(r@) == values_view(vs@),
        r@.len() == vs@.len(),
    decreases vs,
{
    let mut out: Vec<Value> = Vec::new();
    let mut i: usize = 0;
    while i < vs.len()
        invariant
            i <= vs@.len(),
            out@.len() == i,
            forall|j: int| 0 <= j < i ==> out@[j]@ == vs@[j]@,
        decreases vs@.len() - i,
    {
        out.push(vs[i].duplicate());
        i = i + 1;
    }
    proof {
        lemma_values_view(out@);
        lemma_values_view(vs@);
        assert(values_view(out@) =~= values_view(vs@));
    }
    out
}

/// Copies an optional debug name, preserving its view.
pub fn clone_name(n: &Option<String>) -> (r: Option<String>)
    ensures
        name_view(r) == name_view(*n),
{
    match n {
        Some(s) => Some(s.clone()),
        None => None,
    }
}

} // verus!
