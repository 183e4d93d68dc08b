//! Lowering of the circuit types: modular arithmetic over 384-bit values
//! packed into 48-byte limb vectors.

use crate::error::CompileError;
use crate::program::CircuitTypeInfo;
use crate::utils::{get_integer_layout, layout_extend, layout_pad_to_align, layout_repeat,
    wf_layout, Layout};
use vstd::prelude::*;

verus! {

/// Whether the circuit type lowers to an aggregate rather than a scalar.
pub fn is_complex(info: &CircuitTypeInfo) -> (r: bool)
    ensures
        r == matches!(
            *info,
            CircuitTypeInfo::CircuitInputAccumulator { .. } | CircuitTypeInfo::CircuitPartialOutputs
                | CircuitTypeInfo::CircuitData { .. } | CircuitTypeInfo::CircuitOutputs { .. }
        ),
{
    match info {
        CircuitTypeInfo::CircuitInputAccumulator { .. } | CircuitTypeInfo::CircuitPartialOutputs
            | CircuitTypeInfo::CircuitData { .. } | CircuitTypeInfo::CircuitOutputs { .. } => true,
        _ => false,
    }
}

/// Whether the circuit type occupies no storage (gate markers, descriptors
/// and guarantees exist only at compile time).
pub fn is_zst(info: &CircuitTypeInfo) -> (r: bool)
    ensures
        r == matches!(
            *info,
            CircuitTypeInfo::AddModGate | CircuitTypeInfo::SubModGate | CircuitTypeInfo::MulModGate
                | CircuitTypeInfo::CircuitInput | CircuitTypeInfo::InverseGate
                | CircuitTypeInfo::U96LimbsLessThanGuarantee | CircuitTypeInfo::Circuit { .. }
                | CircuitTypeInfo::CircuitDescriptor | CircuitTypeInfo::CircuitFailureGuarantee
        ),
{
    match info {
        CircuitTypeInfo::AddModGate | CircuitTypeInfo::SubModGate | CircuitTypeInfo::MulModGate
            | CircuitTypeInfo::CircuitInput | CircuitTypeInfo::InverseGate
            | CircuitTypeInfo::U96LimbsLessThanGuarantee | CircuitTypeInfo::Circuit { .. }
            | CircuitTypeInfo::CircuitDescriptor | CircuitTypeInfo::CircuitFailureGuarantee => true,
        _ => false,
    }
}

/// The memory layout of a circuit type.
pub fn layout(info: &CircuitTypeInfo) -> (r: Result<Layout, CompileError>)
    ensures
        match r {
            Ok(l) => wf_layout(l) && l.align <= 16,
            Err(e) => e == CompileError::LayoutOverflow || e matches CompileError::UnsupportedType(
                _,
            ),
        },
        *info is CircuitPartialOutputs ==> r == Err::<Layout, CompileError>(
            CompileError::UnsupportedType("CircuitPartialOutputs"),
        ),
        (*info matches CircuitTypeInfo::CircuitInputAccumulator { n_inputs } && n_inputs == 0)
            ==> r == Err::<Layout, CompileError>(
            CompileError::UnsupportedType("CircuitInputAccumulator"),
        ),
        (r matches Err(e) && e matches CompileError::UnsupportedType(_)) ==> (
        *info is CircuitPartialOutputs || (*info
            matches CircuitTypeInfo::CircuitInputAccumulator { n_inputs } && n_inputs == 0)),
        matches!(
            *info,
            CircuitTypeInfo::AddMod | CircuitTypeInfo::MulMod | CircuitTypeInfo::CircuitModulus
                | CircuitTypeInfo::U96Guarantee | CircuitTypeInfo::AddModGate
                | CircuitTypeInfo::SubModGate | CircuitTypeInfo::MulModGate
                | CircuitTypeInfo::CircuitInput | CircuitTypeInfo::InverseGate
                | CircuitTypeInfo::U96LimbsLessThanGuarantee | CircuitTypeInfo::Circuit { .. }
                | CircuitTypeInfo::CircuitDescriptor | CircuitTypeInfo::CircuitFailureGuarantee
        ) ==> r is Ok,
        r matches Ok(l) ==> match *info {
            CircuitTypeInfo::AddMod | CircuitTypeInfo::MulMod => l
                == crate::utils::spec_get_integer_layout(64),
            CircuitTypeInfo::CircuitModulus => l == crate::utils::spec_get_integer_layout(384),
            CircuitTypeInfo::U96Guarantee => l == crate::utils::spec_get_integer_layout(96),
            CircuitTypeInfo::CircuitData { n_inputs } => l.size == 48 * n_inputs && l.align == 16,
            CircuitTypeInfo::CircuitOutputs { n_gates } => l.size == 48 * n_gates && l.align
                == 16,
            CircuitTypeInfo::CircuitInputAccumulator { n_inputs } => n_inputs > 0 && l.size == 16
                + 48 * (n_inputs - 1) && l.align == 16,
            CircuitTypeInfo::CircuitPartialOutputs => false,
            _ => l == (Layout { size: 0, align: 1 }),
        },
{
    let u384 = Layout { size: 48, align: 16 };
    match info {
        CircuitTypeInfo::AddMod | CircuitTypeInfo::MulMod => Ok(get_integer_layout(64)),
        CircuitTypeInfo::CircuitModulus => Ok(get_integer_layout(384)),
        CircuitTypeInfo::U96Guarantee => Ok(get_integer_layout(96)),
        CircuitTypeInfo::AddModGate | CircuitTypeInfo::SubModGate | CircuitTypeInfo::MulModGate
            | CircuitTypeInfo::CircuitInput | CircuitTypeInfo::InverseGate
            | CircuitTypeInfo::U96LimbsLessThanGuarantee | CircuitTypeInfo::Circuit { .. }
            | CircuitTypeInfo::CircuitDescriptor | CircuitTypeInfo::CircuitFailureGuarantee => Ok(
            Layout { size: 0, align: 1 },
        ),
        CircuitTypeInfo::CircuitData { n_inputs } => {
            match layout_repeat(&u384, *n_inputs) {
                Ok(p) => Ok(p.0),
                Err(_) => Err(CompileError::LayoutOverflow),
            }
        },
        CircuitTypeInfo::CircuitOutputs { n_gates } => {
            match layout_repeat(&u384, *n_gates) {
                Ok(p) => Ok(p.0),
                Err(_) => Err(CompileError::LayoutOverflow),
            }
        },
        CircuitTypeInfo::CircuitInputAccumulator { n_inputs } => {
            // An accumulator over no inputs has no lowering.
            if *n_inputs == 0 {
                return Err(CompileError::UnsupportedType("CircuitInputAccumulator"));
            }
            let inputs = match layout_repeat(&u384, *n_inputs - 1) {
                Ok(p) => p.0,
                Err(_) => {
                    return Err(CompileError::LayoutOverflow);
                },
            };
            let length = get_integer_layout(64);
            match layout_extend(&length, &inputs) {
                Ok(p) => {
                    if p.0.size > usize::MAX - p.0.align {
                        Err(CompileError::LayoutOverflow)
                    } else {
                        Ok(layout_pad_to_align(&p.0))
                    }
                },
                Err(_) => Err(CompileError::LayoutOverflow),
            }
        },
        CircuitTypeInfo::CircuitPartialOutputs => Err(
            CompileError::UnsupportedType("CircuitPartialOutputs"),
        ),
    }
}

} // verus!
