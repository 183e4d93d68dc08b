//! The `function_call` libfunc and the calling convention.
//!
//! The emitted call follows the function-entry contract: zero-sized builtin
//! parameters are elided; memory-allocated arguments travel by pointer; and
//! when the callee has several non-trivial returns (or one memory-allocated
//! return) the caller passes an implicit out-pointer whose field offsets
//! come from successive layout extensions.

use crate::error::CompileError;
use crate::libfuncs::LibfuncHelper;
use crate::mir::{FunctionBuilder, OpKind};
use crate::program::{Function, ProgramRegistry};
use crate::types::{build_type, is_builtin, is_memory_allocated, is_zst};
use crate::utils::{layout_extend, Layout};
use vstd::prelude::*;

verus! {

/// How one argument reaches the callee.
#[derive(Debug, Clone, Copy, PartialEq, Eq, Structural)]
pub enum PassKind {
    /// Elided: a zero-sized builtin token.
    Elided,
    /// Passed directly in a register.
    Direct,
    /// Stack-allocated in the caller and passed by pointer.
    ByPointer,
}

/// The physical calling convention of one function.
#[derive(Debug)]
pub struct AbiPlan {
    /// `Some(true)`: the caller passes an out-pointer (sret);
    /// `Some(false)`: several returns travel in a returned struct;
    /// `None`: at most one trivial return, by value.
    pub has_return_ptr: Option<bool>,
    /// How each declared parameter is passed, in order.
    pub param_passing: Vec<PassKind>,
    /// The byte offset of each non-elided return inside the sret buffer
    /// (meaningful when `has_return_ptr == Some(true)`).
    pub ret_offsets: Vec<usize>,
}

/// The §-wise constraints one parameter's passing must meet: only zero-
/// sized builtin tokens are elided, dictionaries and arrays travel by
/// pointer, and the scalar and pointer-like types travel directly.
pub open spec fn spec_pass_kind_ok(
    types: Seq<crate::program::ConcreteType>,
    ty: usize,
    kind: PassKind,
) -> bool {
    &&& (kind is Elided ==> (ty as int) < types.len() && crate::types::is_builtin_spec(
        types[ty as int],
    ))
    &&& ((ty as int) < types.len() ==> match types[ty as int] {
        crate::program::ConcreteType::RangeCheck | crate::program::ConcreteType::Bitwise
            | crate::program::ConcreteType::Pedersen | crate::program::ConcreteType::Poseidon
            | crate::program::ConcreteType::EcOp
            | crate::program::ConcreteType::SegmentArena => kind is Elided,
        crate::program::ConcreteType::Felt252Dict(_)
            | crate::program::ConcreteType::Array(_) => kind is ByPointer,
        crate::program::ConcreteType::Felt252 | crate::program::ConcreteType::Int(_)
            | crate::program::ConcreteType::Bytes31 | crate::program::ConcreteType::GasBuiltin
            | crate::program::ConcreteType::System | crate::program::ConcreteType::ClassHash
            | crate::program::ConcreteType::ContractAddress
            | crate::program::ConcreteType::StorageAddress
            | crate::program::ConcreteType::StorageBaseAddress
            | crate::program::ConcreteType::Box(_) | crate::program::ConcreteType::Nullable(_)
            | crate::program::ConcreteType::Felt252DictEntry(_) => kind is Direct,
        _ => true,
    })
}

/// Whether a return of this type is elided from the physical signature: a
/// zero-sized builtin token (the counters), never the gas or system values.
pub open spec fn spec_elided_ty(types: Seq<crate::program::ConcreteType>, ty: usize) -> bool {
    (ty as int) < types.len() && match types[ty as int] {
        crate::program::ConcreteType::RangeCheck | crate::program::ConcreteType::Bitwise
            | crate::program::ConcreteType::Pedersen | crate::program::ConcreteType::Poseidon
            | crate::program::ConcreteType::EcOp
            | crate::program::ConcreteType::SegmentArena => true,
        _ => false,
    }
}

/// How many returns of the list are not elided builtin tokens.
pub open spec fn spec_real_ret_count(
    types: Seq<crate::program::ConcreteType>,
    rets: Seq<usize>,
) -> nat
    decreases rets.len(),
{
    if rets.len() == 0 {
        0
    } else {
        spec_real_ret_count(types, rets.drop_last()) + if spec_elided_ty(types, rets.last()) {
            0nat
        } else {
            1nat
        }
    }
}

/// Computes the calling convention of `func` from its signature alone.
pub fn plan_function_abi(registry: &ProgramRegistry, func: &Function) -> (r: Result<
    AbiPlan,
    CompileError,
>)
    requires
        crate::program::types_acyclic(registry.program.types@),
    ensures
        r matches Ok(plan) ==> plan.param_passing@.len() == func.param_types@.len() && (forall|
            i: int,
        |
            0 <= i < func.param_types@.len() ==> spec_pass_kind_ok(
                registry.program.types@,
                func.param_types@[i],
                #[trigger] plan.param_passing@[i],
            )),
        r matches Err(e) && e == CompileError::UnknownId ==> (exists|i: int|
            #![trigger func.param_types@[i]]
            #![trigger func.ret_types@[i]]
            (0 <= i < func.param_types@.len() && (func.param_types@[i]) as int
                >= registry.program.types@.len()) || (0 <= i < func.ret_types@.len()
                && (func.ret_types@[i]) as int >= registry.program.types@.len())),
        r matches Ok(plan) ==> {
            let count = spec_real_ret_count(registry.program.types@, func.ret_types@);
            &&& (plan.has_return_ptr == Some(false) <==> count >= 2)
            &&& (plan.has_return_ptr matches Some(b) && b ==> count == 1)
            &&& (plan.has_return_ptr is None ==> count <= 1)
            &&& plan.ret_offsets@.len() == count
        },
{
    let mut param_passing: Vec<PassKind> = Vec::new();
    let mut i: usize = 0;
    while i < func.param_types.len()
        invariant
            param_passing@.len() == i,
            i <= func.param_types@.len(),
            crate::program::types_acyclic(registry.program.types@),
            forall|j: int|
                0 <= j < i ==> spec_pass_kind_ok(
                    registry.program.types@,
                    func.param_types@[j],
                    #[trigger] param_passing@[j],
                ),
        decreases func.param_types@.len() - i,
    {
        let ty = func.param_types[i];
        if ty >= registry.program.types.len() {
            proof {
                assert(0 <= i < func.param_types@.len() && (func.param_types@[i as int]) as int
                    >= registry.program.types@.len());
            }
            return Err(CompileError::UnknownId);
        }
        let t = match registry.get_type(ty) {
            Ok(t) => t,
            Err(e) => {
                return Err(e);
            },
        };
        let builtin = is_builtin(t);
        let zst = match is_zst(registry, ty) {
            Ok(z) => z,
            Err(e) => {
                return Err(e);
            },
        };
        if builtin && zst {
            param_passing.push(PassKind::Elided);
        } else {
            let mem = match is_memory_allocated(registry, ty) {
                Ok(m) => m,
                Err(e) => {
                    return Err(e);
                },
            };
            if mem {
                param_passing.push(PassKind::ByPointer);
            } else {
                param_passing.push(PassKind::Direct);
            }
        }
        i = i + 1;
    }
    // Count the returns that are not elided builtin tokens, and decide the
    // return convention.
    let mut n_real_rets: usize = 0;
    let mut first_real_ret: usize = 0;
    let mut j: usize = 0;
    while j < func.ret_types.len()
        invariant
            j <= func.ret_types@.len(),
            n_real_rets <= j,
            crate::program::types_acyclic(registry.program.types@),
            n_real_rets > 0 ==> first_real_ret < registry.program.types@.len(),
            n_real_rets == spec_real_ret_count(
                registry.program.types@,
                func.ret_types@.take(j as int),
            ),
        decreases func.ret_types@.len() - j,
    {
        let ty = func.ret_types[j];
        if ty >= registry.program.types.len() {
            proof {
                assert(0 <= j < func.ret_types@.len() && (func.ret_types@[j as int]) as int
                    >= registry.program.types@.len());
            }
            return Err(CompileError::UnknownId);
        }
        let t = match registry.get_type(ty) {
            Ok(t) => t,
            Err(e) => {
                return Err(e);
            },
        };
        let zst = match is_zst(registry, ty) {
            Ok(z) => z,
            Err(e) => {
                return Err(e);
            },
        };
        proof {
            assert(func.ret_types@.take(j + 1).drop_last() =~= func.ret_types@.take(j as int));
            assert(func.ret_types@.take(j + 1).last() == func.ret_types@[j as int]);
        }
        if !(is_builtin(t) && zst) {
            if n_real_rets == 0 {
                first_real_ret = ty;
            }
            n_real_rets = n_real_rets + 1;
        }
        j = j + 1;
    }
    proof {
        assert(func.ret_types@.take(func.ret_types@.len() as int) =~= func.ret_types@);
    }
    let has_return_ptr: Option<bool> = if n_real_rets > 1 {
        Some(false)
    } else if n_real_rets == 1 {
        let mem = match is_memory_allocated(registry, first_real_ret) {
            Ok(m) => m,
            Err(e) => {
                return Err(e);
            },
        };
        if mem {
            Some(true)
        } else {
            None
        }
    } else {
        None
    };
    // Offsets of the returned fields inside the sret buffer, by successive
    // layout extension.
    let mut ret_offsets: Vec<usize> = Vec::new();
    let mut layout = Layout { size: 0, align: 1 };
    let mut k: usize = 0;
    while k < func.ret_types.len()
        invariant
            k <= func.ret_types@.len(),
            crate::program::types_acyclic(registry.program.types@),
            layout.align > 0,
            ret_offsets@.len() == spec_real_ret_count(
                registry.program.types@,
                func.ret_types@.take(k as int),
            ),
        decreases func.ret_types@.len() - k,
    {
        let ty = func.ret_types[k];
        if ty >= registry.program.types.len() {
            proof {
                assert(0 <= k < func.ret_types@.len() && (func.ret_types@[k as int]) as int
                    >= registry.program.types@.len());
            }
            return Err(CompileError::UnknownId);
        }
        let t = match registry.get_type(ty) {
            Ok(t) => t,
            Err(e) => {
                return Err(e);
            },
        };
        let zst = match is_zst(registry, ty) {
            Ok(z) => z,
            Err(e) => {
                return Err(e);
            },
        };
        proof {
            assert(func.ret_types@.take(k + 1).drop_last() =~= func.ret_types@.take(k as int));
            assert(func.ret_types@.take(k + 1).last() == func.ret_types@[k as int]);
        }
        if !(is_builtin(t) && zst) {
            let (_mt, ret_layout) = match build_type(registry, ty) {
                Ok(p) => p,
                Err(e) => {
                    return Err(e);
                },
            };
            let (next, offset) = match layout_extend(&layout, &ret_layout) {
                Ok(p) => p,
                Err(_) => {
                    return Err(CompileError::LayoutOverflow);
                },
            };
            layout = next;
            ret_offsets.push(offset);
        }
        k = k + 1;
    }
    proof {
        assert(func.ret_types@.take(func.ret_types@.len() as int) =~= func.ret_types@);
    }
    Ok(AbiPlan { has_return_ptr, param_passing, ret_offsets })
}

/// Emits the `function_call` libfunc: plans the callee's calling convention
/// and emits the call; every declared argument reaches the callee and every
/// declared result comes back, published on branch 0.
pub fn build(
    b: &mut FunctionBuilder,
    entry: usize,
    helper: &LibfuncHelper,
    registry: &ProgramRegistry,
    args: &Vec<usize>,
    function: usize,
) -> (r: Result<(), CompileError>)
    requires
        entry < old(b).f.blocks@.len(),
        crate::program::types_acyclic(registry.program.types@),
    ensures
        final(b).f.blocks@.len() == old(b).f.blocks@.len(),
        r is Ok ==> function < registry.program.funcs@.len() && crate::libfuncs::spec_can_branch(
            *helper,
            old(b).f,
            entry,
            0,
            registry.program.funcs@[function as int].ret_types@.len(),
        ),
        r is Ok ==> final(b).f.blocks@[entry as int].ops@.len() == old(b).f.blocks@[entry as
            int].ops@.len() + 1 && (final(b).f.blocks@[entry as int].ops@.last().kind
            matches OpKind::Call { function: callee, sret: _, args: ca } && callee == function
            && ca@ == args@) && (final(b).f.blocks@[entry as int].term matches Some(
            crate::mir::Terminator::Br { target, args: ta },
        ) && target == helper.branches@[0].block && ta@ == crate::libfuncs::spec_branch_args(
            helper.branches@[0].mapping@,
            Seq::new(
                registry.program.funcs@[function as int].ret_types@.len(),
                |i: int| (old(b).f.n_values + i) as usize,
            ),
        )),
{
    let func = match registry.get_function(function) {
        Ok(f) => f,
        Err(e) => {
            return Err(e);
        },
    };
    let plan = match plan_function_abi(registry, func) {
        Ok(p) => p,
        Err(e) => {
            return Err(e);
        },
    };
    let sret = matches!(plan.has_return_ptr, Some(true));
    let n_rets = func.ret_types.len();
    if n_rets >= usize::MAX - 1 {
        return Err(CompileError::LayoutOverflow);
    }
    if b.f.n_values >= usize::MAX - n_rets - 1 {
        return Err(CompileError::LayoutOverflow);
    }
    let mut call_args: Vec<usize> = Vec::new();
    let mut i: usize = 0;
    while i < args.len()
        invariant
            i <= args@.len(),
            call_args@ == args@.take(i as int),
        decreases args@.len() - i,
    {
        call_args.push(args[i]);
        proof {
            assert(call_args@ =~= args@.take(i + 1));
        }
        i = i + 1;
    }
    proof {
        assert(args@.take(args@.len() as int) =~= args@);
    }
    let dests = b.push_op(entry, OpKind::Call { function, sret, args: call_args }, n_rets);
    proof {
        assert(dests@ =~= Seq::new(
            registry.program.funcs@[function as int].ret_types@.len(),
            |i: int| (old(b).f.n_values + i) as usize,
        ));
    }
    helper.br(b, entry, 0, &dests)
}

} // verus!
