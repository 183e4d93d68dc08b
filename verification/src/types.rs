//! Type lowering: each source type maps to a physical MIR type together with
//! an authoritative memory layout.
//!
//! Every layout this builder hands out is well formed: the alignment is a
//! power of two no greater than 16 and the size is a multiple of the
//! alignment (rounded up C-style for aggregates).

use crate::error::CompileError;
use crate::mir::MirType;
use crate::program::{CircuitTypeInfo, ConcreteType, ProgramRegistry};
use crate::utils::{
    get_integer_layout, layout_extend, layout_pad_to_align, layout_repeat, wf_align, wf_layout,
    Layout,
};
use vstd::prelude::*;

pub mod circuit;

verus! {

use vstd::arithmetic::power2::pow2;

/// The number of tag bits for an enum of `n` variants:
/// `max(1, ceil(log2 n))`, capped at 64.
#[verifier::loop_isolation(false)]
pub fn tag_bits(n: usize) -> (r: u32)
    ensures
        1 <= r <= 64,
        n <= 2 ==> r == 1,
{
    proof {
        vstd::arithmetic::power2::lemma2_to64();
        assert(pow2(64) == 0x10000000000000000) by {
            vstd::arithmetic::power2::lemma_pow2_adds(32, 32);
            vstd::arithmetic::power2::lemma2_to64();
        }
    }
    let mut b: u32 = 1;
    let mut c: u128 = 2;
    while c < (n as u128) && b < 64
        invariant
            1 <= b <= 64,
            c == pow2(b as nat),
            c <= 0x10000000000000000u128,
            n <= 2 ==> b == 1,
        decreases 64 - b,
    {
        proof {
            vstd::arithmetic::power2::lemma_pow2_unfold((b + 1) as nat);
            assert(pow2((b + 1) as nat) == 2 * pow2(b as nat));
            if b + 1 < 64 {
                vstd::arithmetic::power2::lemma_pow2_strictly_increases((b + 1) as nat, 64);
                assert(pow2((b + 1) as nat) < pow2(64));
            } else {
                assert(b + 1 == 64);
            }
        }
        c = c * 2;
        b = b + 1;
    }
    b
}

/// The variants whose lowering involves no fallible layout arithmetic, so
/// that building them always succeeds.
pub open spec fn spec_always_lowers(t: ConcreteType) -> bool {
    matches!(
        t,
        ConcreteType::Felt252 | ConcreteType::ClassHash | ConcreteType::ContractAddress
            | ConcreteType::StorageAddress | ConcreteType::StorageBaseAddress
            | ConcreteType::Int(_) | ConcreteType::Bytes31 | ConcreteType::RangeCheck
            | ConcreteType::Bitwise | ConcreteType::Pedersen | ConcreteType::Poseidon
            | ConcreteType::EcOp | ConcreteType::SegmentArena | ConcreteType::GasBuiltin
            | ConcreteType::System | ConcreteType::Box(_) | ConcreteType::Nullable(_)
            | ConcreteType::Felt252Dict(_) | ConcreteType::Felt252DictEntry(_)
    )
}

/// Lowers the type declared under `id` to its MIR type and layout.
///
/// Under an acyclic type list this cannot miss the registry; it fails only
/// when layout arithmetic would overflow the address space or the variant has
/// no lowering.
pub fn build_type(registry: &ProgramRegistry, id: usize) -> (r: Result<
    (MirType, Layout),
    CompileError,
>)
    requires
        crate::program::types_acyclic(registry.program.types@),
        id < registry.program.types@.len(),
    ensures
        match r {
            Ok(p) => wf_layout(p.1) && p.1.align <= 16,
            Err(e) => e == CompileError::LayoutOverflow || e matches CompileError::UnsupportedType(
                _,
            ),
        },
        r matches Ok(p) ==> match registry.program.types@[id as int] {
            ConcreteType::Felt252 | ConcreteType::ClassHash | ConcreteType::ContractAddress
                | ConcreteType::StorageAddress | ConcreteType::StorageBaseAddress => p.0
                == (MirType::Int { bits: 252 }) && p.1 == crate::utils::spec_get_integer_layout(
                252,
            ),
            ConcreteType::Int(it) => p.0 == (MirType::Int { bits: it.spec_bits() }) && p.1
                == crate::utils::spec_get_integer_layout(it.spec_bits()),
            ConcreteType::Bytes31 => p.0 == (MirType::Int { bits: 248 }) && p.1
                == crate::utils::spec_get_integer_layout(248),
            ConcreteType::RangeCheck | ConcreteType::Bitwise | ConcreteType::Pedersen
                | ConcreteType::Poseidon | ConcreteType::EcOp | ConcreteType::SegmentArena => p.1
                == (Layout { size: 0, align: 1 }) && p.0 is Struct,
            ConcreteType::GasBuiltin => p.0 == (MirType::Int { bits: 128 }) && p.1
                == crate::utils::spec_get_integer_layout(128),
            ConcreteType::System | ConcreteType::Box(_) | ConcreteType::Nullable(_)
                | ConcreteType::Felt252Dict(_) | ConcreteType::Felt252DictEntry(_) => p.0
                == MirType::Ptr && p.1 == crate::utils::spec_get_integer_layout(64),
            ConcreteType::Array(_) => p.1 == (Layout { size: 24, align: 8 }) && p.0 is Struct,
            _ => true,
        },
        spec_always_lowers(registry.program.types@[id as int]) ==> r is Ok,
    decreases id,
{
    let t = match registry.get_type(id) {
        Ok(t) => t,
        Err(_) => {
            // Unreachable: the id is in range by the precondition.
            proof {
                assert(false);
            }
            return Err(CompileError::InvariantViolation);
        },
    };
    match t {
        ConcreteType::Felt252 => Ok((MirType::Int { bits: 252 }, get_integer_layout(252))),
        ConcreteType::Int(ity) => Ok(
            (MirType::Int { bits: ity.bits() }, get_integer_layout(ity.bits())),
        ),
        ConcreteType::Bytes31 => Ok((MirType::Int { bits: 248 }, get_integer_layout(248))),
        ConcreteType::RangeCheck | ConcreteType::Bitwise | ConcreteType::Pedersen
            | ConcreteType::Poseidon | ConcreteType::EcOp | ConcreteType::SegmentArena => Ok(
            (MirType::Struct(Vec::new()), Layout { size: 0, align: 1 }),
        ),
        ConcreteType::GasBuiltin => Ok((MirType::Int { bits: 128 }, get_integer_layout(128))),
        ConcreteType::System => Ok((MirType::Ptr, get_integer_layout(64))),
        ConcreteType::ClassHash | ConcreteType::ContractAddress | ConcreteType::StorageAddress
            | ConcreteType::StorageBaseAddress => Ok(
            (MirType::Int { bits: 252 }, get_integer_layout(252)),
        ),
        ConcreteType::Struct(members) => build_struct_type(registry, id, members),
        ConcreteType::Enum(variants) => build_enum_type(registry, id, variants),
        ConcreteType::Array(_) => {
            let ptr = get_integer_layout(64);
            let idx = get_integer_layout(32);
            let l1 = match layout_extend(&ptr, &idx) {
                Ok(p) => p.0,
                Err(_) => {
                    return Err(CompileError::LayoutOverflow);
                },
            };
            let l2 = match layout_extend(&l1, &idx) {
                Ok(p) => p.0,
                Err(_) => {
                    return Err(CompileError::LayoutOverflow);
                },
            };
            let l3 = match layout_extend(&l2, &idx) {
                Ok(p) => p.0,
                Err(_) => {
                    return Err(CompileError::LayoutOverflow);
                },
            };
            let mut fields = Vec::new();
            fields.push(MirType::Ptr);
            fields.push(MirType::Int { bits: 32 });
            fields.push(MirType::Int { bits: 32 });
            fields.push(MirType::Int { bits: 32 });
            Ok((MirType::Struct(fields), layout_pad_to_align(&l3)))
        },
        ConcreteType::NonZero(inner) | ConcreteType::Snapshot(inner) | ConcreteType::Uninitialized(
            inner,
        ) => {
            proof {
                assert(registry.program.types@[id as int].children()[0] == *inner);
            }
            build_type(registry, *inner)
        },
        ConcreteType::Box(_) | ConcreteType::Nullable(_) | ConcreteType::Felt252Dict(_)
            | ConcreteType::Felt252DictEntry(_) => Ok((MirType::Ptr, get_integer_layout(64))),
        ConcreteType::Circuit(info) => {
            let l = match circuit::layout(info) {
                Ok(l) => l,
                Err(e) => {
                    return Err(e);
                },
            };
            Ok((MirType::Bytes { len: l.size() }, l))
        },
    }
}

/// Lowers a struct: C-style field packing with natural alignment, size
/// rounded up to the struct's alignment.
#[verifier::loop_isolation(false)]
fn build_struct_type(registry: &ProgramRegistry, id: usize, members: &Vec<usize>) -> (r: Result<
    (MirType, Layout),
    CompileError,
>)
    requires
        crate::program::types_acyclic(registry.program.types@),
        id < registry.program.types@.len(),
        registry.program.types@[id as int] == ConcreteType::Struct(*members),
    ensures
        match r {
            Ok(p) => wf_layout(p.1) && p.1.align <= 16,
            Err(e) => e == CompileError::LayoutOverflow || e matches CompileError::UnsupportedType(
                _,
            ),
        },
    decreases id, 0int,
{
    let mut fields: Vec<MirType> = Vec::new();
    let mut layout = Layout { size: 0, align: 1 };
    let mut i: usize = 0;
    while i < members.len()
        invariant
            crate::program::types_acyclic(registry.program.types@),
            id < registry.program.types@.len(),
            registry.program.types@[id as int] == ConcreteType::Struct(*members),
            layout.align > 0,
            layout.align <= 16,
            wf_align(layout.align as nat),
            layout.size + layout.align <= usize::MAX,
        decreases members@.len() - i,
    {
        proof {
            assert(registry.program.types@[id as int].children()[i as int] == members@[i as int]);
        }
        let member_id = members[i];
        let (mt, ml) = match build_type(registry, member_id) {
            Ok(p) => p,
            Err(e) => {
                return Err(e);
            },
        };
        let (next, _offset) = match layout_extend(&layout, &ml) {
            Ok(p) => p,
            Err(_) => {
                return Err(CompileError::LayoutOverflow);
            },
        };
        layout = next;
        fields.push(mt);
        i = i + 1;
    }
    let padded = layout_pad_to_align(&layout);
    if padded.size > usize::MAX - padded.align {
        return Err(CompileError::LayoutOverflow);
    }
    Ok((MirType::Struct(fields), padded))
}

/// Lowers an enum: a tag of `max(1, ceil(log2 n))` bits followed by a payload
/// region sized and aligned for the largest variant.
#[verifier::loop_isolation(false)]
fn build_enum_type(registry: &ProgramRegistry, id: usize, variants: &Vec<usize>) -> (r: Result<
    (MirType, Layout),
    CompileError,
>)
    requires
        crate::program::types_acyclic(registry.program.types@),
        id < registry.program.types@.len(),
        registry.program.types@[id as int] == ConcreteType::Enum(*variants),
    ensures
        match r {
            Ok(p) => wf_layout(p.1) && p.1.align <= 16,
            Err(e) => e == CompileError::LayoutOverflow || e matches CompileError::UnsupportedType(
                _,
            ),
        },
    decreases id, 0int,
{
    let bits = tag_bits(variants.len());
    let tag_layout = get_integer_layout(bits);
    let mut layout = layout_pad_to_align(&tag_layout);
    let mut i: usize = 0;
    while i < variants.len()
        invariant
            crate::program::types_acyclic(registry.program.types@),
            id < registry.program.types@.len(),
            registry.program.types@[id as int] == ConcreteType::Enum(*variants),
            layout.align > 0,
            layout.align <= 16,
            wf_align(layout.align as nat),
            layout.size as int % layout.align as int == 0,
            layout.size + layout.align <= usize::MAX,
        decreases variants@.len() - i,
    {
        proof {
            assert(registry.program.types@[id as int].children()[i as int] == variants@[i as int]);
        }
        let variant_id = variants[i];
        let (_vt, vl) = match build_type(registry, variant_id) {
            Ok(p) => p,
            Err(e) => {
                return Err(e);
            },
        };
        let (full, _offset) = match layout_extend(&tag_layout, &vl) {
            Ok(p) => p,
            Err(_) => {
                return Err(CompileError::LayoutOverflow);
            },
        };
        let merged_align = if layout.align >= full.align {
            layout.align
        } else {
            full.align
        };
        let merged_size = if layout.size >= full.size {
            layout.size
        } else {
            full.size
        };
        if merged_size > usize::MAX - merged_align {
            return Err(CompileError::LayoutOverflow);
        }
        let candidate = layout_pad_to_align(&Layout { size: merged_size, align: merged_align });
        if candidate.size > usize::MAX - candidate.align {
            return Err(CompileError::LayoutOverflow);
        }
        layout = candidate;
        i = i + 1;
    }
    let tag_size = tag_layout.size();
    let payload = if layout.size() > tag_size {
        layout.size() - tag_size
    } else {
        0
    };
    let mut parts = Vec::new();
    parts.push(MirType::Int { bits });
    parts.push(MirType::Bytes { len: payload });
    Ok((MirType::Struct(parts), layout))
}

/// Whether values of the type occupy no storage: its layout has size zero.
/// Of the scalar variants, exactly the zero-sized builtin tokens qualify.
pub fn is_zst(registry: &ProgramRegistry, id: usize) -> (r: Result<bool, CompileError>)
    requires
        crate::program::types_acyclic(registry.program.types@),
        id < registry.program.types@.len(),
    ensures
        r matches Err(e) ==> e != CompileError::UnknownId,
        r matches Ok(z) ==> match registry.program.types@[id as int] {
            ConcreteType::RangeCheck | ConcreteType::Bitwise | ConcreteType::Pedersen
                | ConcreteType::Poseidon | ConcreteType::EcOp | ConcreteType::SegmentArena => z
                == true,
            ConcreteType::Felt252 | ConcreteType::Int(_) | ConcreteType::Bytes31
                | ConcreteType::GasBuiltin | ConcreteType::System | ConcreteType::ClassHash
                | ConcreteType::ContractAddress | ConcreteType::StorageAddress
                | ConcreteType::StorageBaseAddress | ConcreteType::Array(_) | ConcreteType::Box(_)
                | ConcreteType::Nullable(_) | ConcreteType::Felt252Dict(_)
                | ConcreteType::Felt252DictEntry(_) => z == false,
            _ => true,
        },
{
    match build_type(registry, id) {
        Ok((_, l)) => {
            proof {
                crate::utils::lemma_integer_layout_well_formed(8);
                crate::utils::lemma_integer_layout_well_formed(16);
                crate::utils::lemma_integer_layout_well_formed(32);
                crate::utils::lemma_integer_layout_well_formed(64);
                crate::utils::lemma_integer_layout_well_formed(128);
            }
            Ok(l.size() == 0)
        },
        Err(e) => Err(e),
    }
}

/// Whether the type is a builtin token threaded through functions for
/// resource accounting.
pub fn is_builtin(t: &ConcreteType) -> (r: bool)
    ensures
        r == is_builtin_spec(*t),
{
    match t {
        ConcreteType::RangeCheck | ConcreteType::Bitwise | ConcreteType::Pedersen
            | ConcreteType::Poseidon | ConcreteType::EcOp | ConcreteType::SegmentArena
            | ConcreteType::GasBuiltin | ConcreteType::System => true,
        _ => false,
    }
}

/// The builtin predicate.
pub open spec fn is_builtin_spec(t: ConcreteType) -> bool {
    match t {
        ConcreteType::RangeCheck | ConcreteType::Bitwise | ConcreteType::Pedersen
            | ConcreteType::Poseidon | ConcreteType::EcOp | ConcreteType::SegmentArena
            | ConcreteType::GasBuiltin | ConcreteType::System => true,
        _ => false,
    }
}

/// Whether values of the type are passed through memory rather than by
/// value: dicts, and aggregates larger than two machine words.
pub fn is_memory_allocated(registry: &ProgramRegistry, id: usize) -> (r: Result<
    bool,
    CompileError,
>)
    requires
        crate::program::types_acyclic(registry.program.types@),
        id < registry.program.types@.len(),
    ensures
        r matches Err(e) ==> e != CompileError::UnknownId,
        r matches Ok(m) ==> match registry.program.types@[id as int] {
            ConcreteType::Felt252Dict(_) | ConcreteType::Array(_) => m == true,
            ConcreteType::Struct(_) | ConcreteType::Enum(_) => true,
            _ => m == false,
        },
{
    let t = match registry.get_type(id) {
        Ok(t) => t,
        Err(_) => {
            // Unreachable: the id is in range by the precondition.
            proof {
                assert(false);
            }
            return Err(CompileError::InvariantViolation);
        },
    };
    match t {
        ConcreteType::Felt252Dict(_) => Ok(true),
        ConcreteType::Array(_) => Ok(true),
        ConcreteType::Struct(_) | ConcreteType::Enum(_) => {
            match build_type(registry, id) {
                Ok((_, l)) => Ok(l.size() > 16),
                Err(e) => Err(e),
            }
        },
        _ => Ok(false),
    }
}

} // verus!
