//! Classification of execution outcomes.
//!
//! A run either succeeds or panics: a return value wrapped in the
//! source language's panic-result enum carries its payload on tag 1, and
//! every other value is a success.  The felts a value flattens to follow
//! the runner convention: integers widen into the field, aggregates
//! concatenate their parts, an enum contributes its tag (except the boolean
//! enum, which contributes 0 or 1), and the null sentinel contributes zero.

use crate::executor::ExecutionResult;
use crate::felt252::{felt_prime, Felt252};
use crate::values::{Value, VV};
use vstd::prelude::*;

verus! {

use vstd::string::StrSliceExecFns;

/// A classified run: the felts of a successful return, or the felts of a
/// panic payload.
#[derive(Debug, PartialEq)]
pub enum RunResultValue {
    Success(Vec<Felt252>),
    Panic(Vec<Felt252>),
}

/// Why a return value cannot be classified.
#[derive(Debug, Clone, Copy, PartialEq, Eq, Structural)]
pub enum RunResultError {
    /// The panic payload is not the struct the convention promises.
    UnsupportedReturnValue,
    /// An enum return without a debug name cannot be told apart from a
    /// panic result.
    MissingDebugName,
}

/// The name of the boolean enum.
pub open spec fn spec_bool_name() -> Seq<char> {
    "core::bool"@
}

/// The prefix every panic-result enum's name carries.
pub open spec fn spec_panic_prefix() -> Seq<char> {
    "core::panics::PanicResult::"@
}

/// Whether a name starts with the panic-result prefix.
pub open spec fn spec_is_panic_name(name: Seq<char>) -> bool {
    name.len() >= spec_panic_prefix().len() && name.subrange(
        0,
        spec_panic_prefix().len() as int,
    ) == spec_panic_prefix()
}

/// The felts a value flattens to.
pub open spec fn spec_flatten(v: VV) -> Seq<nat>
    decreases v, 1int,
{
    match v {
        VV::Felt(x) => seq![x],
        VV::U8(x) => seq![x as nat],
        VV::U16(x) => seq![x as nat],
        VV::U32(x) => seq![x as nat],
        VV::U64(x) => seq![x as nat],
        VV::U128(x) => seq![x as nat],
        VV::I8(x) => seq![((x as int) % (felt_prime() as int)) as nat],
        VV::I16(x) => seq![((x as int) % (felt_prime() as int)) as nat],
        VV::I32(x) => seq![((x as int) % (felt_prime() as int)) as nat],
        VV::I64(x) => seq![((x as int) % (felt_prime() as int)) as nat],
        VV::I128(x) => seq![((x as int) % (felt_prime() as int)) as nat],
        VV::Struct { fields, .. } => spec_flatten_seq(fields),
        VV::Enum { tag, value, name } => if name == Some(spec_bool_name()) {
            if tag == 1 {
                seq![1nat]
            } else {
                seq![0nat]
            }
        } else {
            seq![tag] + spec_flatten(*value)
        },
        VV::Array(items) => spec_flatten_seq(items),
        VV::Dict { keys, values } => spec_flatten_dict(keys, values),
        VV::Null => seq![0nat],
    }
}

/// The felts a list of values flattens to, in order.
pub open spec fn spec_flatten_seq(vs: Seq<VV>) -> Seq<nat>
    decreases vs, 0int,
{
    if vs.len() == 0 {
        Seq::empty()
    } else {
        spec_flatten_seq(vs.drop_last()) + spec_flatten(vs.last())
    }
}

/// The felts a dictionary flattens to: each key followed by its value.
pub open spec fn spec_flatten_dict(keys: Seq<nat>, values: Seq<VV>) -> Seq<nat>
    decreases values, 0int,
{
    if values.len() == 0 || keys.len() != values.len() {
        Seq::empty()
    } else {
        spec_flatten_dict(keys.drop_last(), values.drop_last()) + seq![keys.last()]
            + spec_flatten(values.last())
    }
}

/// The values of a list of felts.
pub open spec fn felts_view(fs: Seq<Felt252>) -> Seq<nat> {
    fs.map_values(|f: Felt252| f@)
}

/// Whether a string starts with another.
fn str_starts_with(s: &str, prefix: &str) -> (r: bool)
    ensures
        r == (s@.len() >= prefix@.len() && s@.subrange(0, prefix@.len() as int) == prefix@),
{
    let n = prefix.unicode_len();
    if s.unicode_len() < n {
        return false;
    }
    let mut i: usize = 0;
    while i < n
        invariant
            i <= n,
            n == prefix@.len(),
            s@.len() >= n,
            forall|j: int| 0 <= j < i ==> s@[j] == prefix@[j],
        decreases n - i,
    {
        if s.get_char(i) != prefix.get_char(i) {
            return false;
        }
        i = i + 1;
    }
    proof {
        assert(s@.subrange(0, prefix@.len() as int) =~= prefix@);
    }
    true
}

/// Whether two strings are equal.
fn str_eq(s: &str, other: &str) -> (r: bool)
    ensures
        r == (s@ == other@),
{
    let a: String = s.to_owned();
    let b: String = other.to_owned();
    a.eq(&b)
}

/// Mapping distributes over appending one element.
proof fn lemma_felts_view_push(s: Seq<Felt252>, x: Felt252)
    ensures
        felts_view(s.push(x)) == felts_view(s).push(x@),
{
    assert(felts_view(s.push(x)) =~= felts_view(s).push(x@));
}

/// Appends every felt of `src` (by clone) to `dst`.
fn append_felts(dst: &mut Vec<Felt252>, src: &Vec<Felt252>)
    ensures
        felts_view(final(dst)@) == felts_view(old(dst)@) + felts_view(src@),
{
    let mut i: usize = 0;
    while i < src.len()
        invariant
            i <= src@.len(),
            felts_view(dst@) =~= felts_view(old(dst)@) + felts_view(src@).take(i as int),
        decreases src@.len() - i,
    {
        let ghost pre = dst@;
        dst.push(src[i].clone());
        proof {
            assert(dst@ =~= pre.push(dst@.last()));
            lemma_felts_view_push(pre, dst@.last());
            assert(felts_view(src@).take(i + 1) =~= felts_view(src@).take(i as int).push(
                felts_view(src@)[i as int],
            ));
            assert(felts_view(dst@) =~= felts_view(old(dst)@) + felts_view(src@).take(i + 1));
        }
        i = i + 1;
    }
    proof {
        assert(felts_view(src@).take(src@.len() as int) =~= felts_view(src@));
        assert(felts_view(dst@) =~= felts_view(old(dst)@) + felts_view(src@));
    }
}

/// Flattens a value into felts, following the runner convention.
pub fn jitvalue_to_felt(value: &Value) -> (r: Vec<Felt252>)
    ensures
        felts_view(r@) == spec_flatten(value@),
    decreases value,
{
    let mut out: Vec<Felt252> = Vec::new();
    match value {
        Value::Felt252(f) => {
            out.push(f.clone());
        },
        Value::Uint8(x) => {
            out.push(Felt252::from_u128(*x as u128));
        },
        Value::Uint16(x) => {
            out.push(Felt252::from_u128(*x as u128));
        },
        Value::Uint32(x) => {
            out.push(Felt252::from_u128(*x as u128));
        },
        Value::Uint64(x) => {
            out.push(Felt252::from_u128(*x as u128));
        },
        Value::Uint128(x) => {
            out.push(Felt252::from_u128(*x));
        },
        Value::Sint8(x) => {
            out.push(Felt252::from_i128(*x as i128));
        },
        Value::Sint16(x) => {
            out.push(Felt252::from_i128(*x as i128));
        },
        Value::Sint32(x) => {
            out.push(Felt252::from_i128(*x as i128));
        },
        Value::Sint64(x) => {
            out.push(Felt252::from_i128(*x as i128));
        },
        Value::Sint128(x) => {
            out.push(Felt252::from_i128(*x));
        },
        Value::Struct { fields, .. } => {
            let flat = flatten_values(fields);
            out = flat;
            proof {
                crate::values::lemma_values_view(fields@);
            }
        },
        Value::Enum { tag, value: inner, debug_name } => {
            let is_bool = match debug_name {
                Some(name) => str_eq(name.as_str(), "core::bool"),
                None => false,
            };
            if is_bool {
                if *tag == 1 {
                    out.push(Felt252::from_u128(1));
                } else {
                    out.push(Felt252::from_u128(0));
                }
            } else {
                out.push(Felt252::from_u128(*tag as u128));
                let rest = jitvalue_to_felt(inner);
                append_felts(&mut out, &rest);
            }
        },
        Value::Array(items) => {
            let flat = flatten_values(items);
            out = flat;
            proof {
                crate::values::lemma_values_view(items@);
            }
        },
        Value::Felt252Dict { keys, values } => {
            let flat = flatten_dict(keys, values);
            out = flat;
        },
        Value::Null => {
            out.push(Felt252::from_u128(0));
        },
    }
    out
}

/// Flattens a list of values, in order.
fn flatten_values(vs: &Vec<Value>) -> (r: Vec<Felt252>)
    ensures
        felts_view(r@) == spec_flatten_seq(crate::values::values_view(vs@)),
    decreases vs,
{
    let mut out: Vec<Felt252> = Vec::new();
    let mut i: usize = 0;
    while i < vs.len()
        invariant
            i <= vs@.len(),
            felts_view(out@) == spec_flatten_seq(crate::values::values_view(vs@).take(i as int)),
        decreases vs@.len() - i,
    {
        proof {
            crate::values::lemma_values_view(vs@);
        }
        let child = jitvalue_to_felt(&vs[i]);
        append_felts(&mut out, &child);
        proof {
            let s = crate::values::values_view(vs@);
            assert(s.take(i + 1).drop_last() =~= s.take(i as int));
            assert(s.take(i + 1).last() == s[i as int]);
            crate::values::lemma_values_view(vs@);
        }
        i = i + 1;
    }
    proof {
        crate::values::lemma_values_view(vs@);
        let s = crate::values::values_view(vs@);
        assert(s.take(s.len() as int) =~= s);
    }
    out
}

/// Flattens a dictionary: each key followed by its value's felts.
fn flatten_dict(keys: &Vec<Felt252>, values: &Vec<Value>) -> (r: Vec<Felt252>)
    ensures
        felts_view(r@) == spec_flatten_dict(
            Seq::new(keys@.len(), |i: int| keys@[i]@),
            crate::values::values_view(values@),
        ),
    decreases values,
{
    let mut out: Vec<Felt252> = Vec::new();
    if keys.len() != values.len() {
        proof {
            crate::values::lemma_values_view(values@);
            assert(felts_view(out@) =~= Seq::<nat>::empty());
        }
        return out;
    }
    let ghost kseq = Seq::new(keys@.len(), |i: int| keys@[i]@);
    let mut i: usize = 0;
    while i < values.len()
        invariant
            i <= values@.len(),
            keys@.len() == values@.len(),
            kseq == Seq::new(keys@.len(), |j: int| keys@[j]@),
            felts_view(out@) == spec_flatten_dict(
                kseq.take(i as int),
                crate::values::values_view(values@).take(i as int),
            ),
        decreases values@.len() - i,
    {
        proof {
            crate::values::lemma_values_view(values@);
        }
        let ghost head0 = felts_view(out@);
        out.push(keys[i].clone());
        proof {
            assert(felts_view(out@) =~= head0 + seq![keys@[i as int]@]);
        }
        let child = jitvalue_to_felt(&values[i]);
        append_felts(&mut out, &child);
        proof {
            let s = crate::values::values_view(values@);
            assert(s.take(i + 1).drop_last() =~= s.take(i as int));
            assert(s.take(i + 1).last() == s[i as int]);
            assert(kseq.take(i + 1).drop_last() =~= kseq.take(i as int));
            assert(kseq.take(i + 1).last() == kseq[i as int]);
            crate::values::lemma_values_view(values@);
        }
        i = i + 1;
    }
    proof {
        crate::values::lemma_values_view(values@);
        let s = crate::values::values_view(values@);
        assert(s.take(s.len() as int) =~= s);
        assert(kseq.take(kseq.len() as int) =~= kseq);
    }
    out
}

/// Classifies an execution outcome: a panic-result enum (told apart by its
/// debug name) splits into success on tag 0 and panic otherwise; anything
/// else is a success whose felts are the flattened return value.
pub fn result_to_runresult(result: &ExecutionResult) -> (r: Result<RunResultValue, RunResultError>)
    ensures
        match r {
            Ok(RunResultValue::Success(fs)) => match result.return_value@ {
                VV::Enum { tag, value, name } => {
                    if name is None {
                        false
                    } else if spec_is_panic_name(name->0) {
                        tag == 0 && felts_view(fs@) == spec_flatten(*value)
                    } else {
                        felts_view(fs@) == spec_flatten(result.return_value@)
                    }
                },
                _ => felts_view(fs@) == spec_flatten(result.return_value@),
            },
            Ok(RunResultValue::Panic(fs)) => (result.return_value@ matches VV::Enum {
                tag,
                value,
                name,
            } && name is Some && spec_is_panic_name(name->0) && tag != 0 && (*value
                matches VV::Struct { fields, .. } && felts_view(fs@) == spec_flatten_seq(fields))),
            Err(RunResultError::MissingDebugName) => (result.return_value@ matches VV::Enum {
                name,
                ..
            } && name is None),
            Err(RunResultError::UnsupportedReturnValue) => (result.return_value@
                matches VV::Enum { tag, value, name } && name is Some && spec_is_panic_name(
                name->0,
            ) && tag != 0 && !(*value is Struct)),
        },
{
    match &result.return_value {
        Value::Enum { tag, value, debug_name } => {
            let name = match debug_name {
                Some(n) => n,
                None => {
                    return Err(RunResultError::MissingDebugName);
                },
            };
            if str_starts_with(name.as_str(), "core::panics::PanicResult::") {
                if *tag == 0 {
                    Ok(RunResultValue::Success(jitvalue_to_felt(value)))
                } else {
                    match &**value {
                        Value::Struct { fields, .. } => {
                            let fs = flatten_values(fields);
                            proof {
                                crate::values::lemma_values_view(fields@);
                                assert((**value)@ matches VV::Struct { fields: vf, .. } && vf
                                    == crate::values::values_view(fields@));
                            }
                            Ok(RunResultValue::Panic(fs))
                        },
                        _ => {
                            proof {
                                crate::values::lemma_view_struct_shape(**value);
                            }
                            Err(RunResultError::UnsupportedReturnValue)
                        },
                    }
                }
            } else {
                Ok(RunResultValue::Success(jitvalue_to_felt(&result.return_value)))
            }
        },
        _ => Ok(RunResultValue::Success(jitvalue_to_felt(&result.return_value))),
    }
}

} // verus!
