//! Starknet libfuncs: address constants and conversions, and the syscall
//! family, every syscall following one dispatch template.

use crate::error::CompileError;
use crate::libfuncs::felt252::{const_to_felt, spec_const_value};
use crate::libfuncs::{spec_branch_args, spec_can_branch, LibfuncHelper};
use crate::mir::{FunctionBuilder, OpKind, Terminator};
use crate::program::{BigIntConst, IntTy, ProgramRegistry, SyscallKind};
use crate::types::{build_type, tag_bits};
use crate::utils::{layout_extend, layout_pad_to_align, wf_layout, Layout};
use vstd::prelude::*;

verus! {

use vstd::arithmetic::power2::pow2;

/// The slot of each syscall in the handler vtable.  This table is this
/// crate's own runtime ABI, ordered as the syscall enum declares its
/// variants: the executor's dispatcher and the emitted code must agree on
/// it (slot 0 holds the handler's self pointer), and any other runtime
/// keeps its own numbering.
pub open spec fn spec_vtable_index(kind: SyscallKind) -> u32 {
    match kind {
        SyscallKind::GetBlockHash => 1,
        SyscallKind::GetExecutionInfo => 2,
        SyscallKind::GetExecutionInfoV2 => 3,
        SyscallKind::Deploy => 4,
        SyscallKind::ReplaceClass => 5,
        SyscallKind::LibraryCall => 6,
        SyscallKind::CallContract => 7,
        SyscallKind::StorageRead => 8,
        SyscallKind::StorageWrite => 9,
        SyscallKind::EmitEvent => 10,
        SyscallKind::SendMessageToL1 => 11,
        SyscallKind::Keccak => 12,
        SyscallKind::Sha256ProcessBlock => 13,
    }
}

/// The slot of each syscall in the handler vtable; see
/// [`spec_vtable_index`].
#[verifier::when_used_as_spec(spec_vtable_index)]
pub fn vtable_index(kind: SyscallKind) -> (r: u32)
    ensures
        r == spec_vtable_index(kind),
{
    match kind {
        SyscallKind::GetBlockHash => 1,
        SyscallKind::GetExecutionInfo => 2,
        SyscallKind::GetExecutionInfoV2 => 3,
        SyscallKind::Deploy => 4,
        SyscallKind::ReplaceClass => 5,
        SyscallKind::LibraryCall => 6,
        SyscallKind::CallContract => 7,
        SyscallKind::StorageRead => 8,
        SyscallKind::StorageWrite => 9,
        SyscallKind::EmitEvent => 10,
        SyscallKind::SendMessageToL1 => 11,
        SyscallKind::Keccak => 12,
        SyscallKind::Sha256ProcessBlock => 13,
    }
}

/// The layout of a syscall's `Result<Ok, Err>` enum: the whole enum, the
/// one-bit tag (stored in one byte), and the payload offset of each of the
/// two variants.  In range of the type list this fails only when layout
/// arithmetic overflows or a payload type has no lowering.
pub fn result_enum_layout(registry: &ProgramRegistry, ok_ty: usize, err_ty: usize) -> (r: Result<
    (Layout, Layout, usize, usize),
    CompileError,
>)
    requires
        crate::program::types_acyclic(registry.program.types@),
    ensures
        r matches Ok(p) ==> ok_ty < registry.program.types@.len() && err_ty
            < registry.program.types@.len() && p.1 == crate::utils::spec_get_integer_layout(1)
            && wf_layout(p.0) && p.0.align <= 16,
        r matches Err(e) ==> if ok_ty >= registry.program.types@.len() || err_ty
            >= registry.program.types@.len() {
            e == CompileError::UnknownId
        } else {
            e == CompileError::LayoutOverflow || e matches CompileError::UnsupportedType(_)
        },
{
    if ok_ty >= registry.program.types.len() || err_ty >= registry.program.types.len() {
        return Err(CompileError::UnknownId);
    }
    let bits = tag_bits(2);
    let tag_layout = crate::utils::get_integer_layout(bits);
    let (_t0, ok_layout) = match build_type(registry, ok_ty) {
        Ok(p) => p,
        Err(e) => {
            proof {
                assert(e != CompileError::UnknownId);
            }
            return Err(e);
        },
    };
    let (_t1, err_layout) = match build_type(registry, err_ty) {
        Ok(p) => p,
        Err(e) => {
            proof {
                assert(e != CompileError::UnknownId);
            }
            return Err(e);
        },
    };
    let (full_ok, off_ok) = match layout_extend(&tag_layout, &ok_layout) {
        Ok(p) => p,
        Err(_) => {
            return Err(CompileError::LayoutOverflow);
        },
    };
    let (full_err, off_err) = match layout_extend(&tag_layout, &err_layout) {
        Ok(p) => p,
        Err(_) => {
            return Err(CompileError::LayoutOverflow);
        },
    };
    let align = if full_ok.align >= full_err.align {
        full_ok.align
    } else {
        full_err.align
    };
    let size = if full_ok.size >= full_err.size {
        full_ok.size
    } else {
        full_err.size
    };
    if size > usize::MAX - align {
        return Err(CompileError::LayoutOverflow);
    }
    let full = layout_pad_to_align(&Layout { size, align });
    if full.size > usize::MAX - full.align {
        return Err(CompileError::LayoutOverflow);
    }
    Ok((full, tag_layout, off_ok, off_err))
}

/// How many values the Ok branch of a syscall publishes after the gas and
/// system values: deploy splits its payload into the address and the
/// constructor output, every other syscall publishes the payload whole.
pub open spec fn spec_ok_results(kind: SyscallKind) -> nat {
    if kind == SyscallKind::Deploy {
        4
    } else {
        3
    }
}

/// The value ids the Ok branch publishes, `base` being the id of the
/// syscall's remaining-gas result.
pub open spec fn spec_ok_result_ids(kind: SyscallKind, base: usize, system: usize) -> Seq<usize> {
    if kind == SyscallKind::Deploy {
        seq![base, system, (base + 6) as usize, (base + 7) as usize]
    } else {
        seq![base, system, (base + 5) as usize]
    }
}

/// Emits one syscall following the uniform dispatch template: compute the
/// result slot's layout, call through the vtable slot with the gas and
/// system values and the remaining arguments, read back the remaining gas
/// and the result tag, and branch to the ok branch (tag 0) or the error
/// branch (tag 1) with the payload.  Succeeds whenever the arguments and
/// branches are available and the payload types lower; the only other
/// failures are layout-arithmetic overflows.
pub fn build_syscall(
    b: &mut FunctionBuilder,
    entry: usize,
    helper: &LibfuncHelper,
    registry: &ProgramRegistry,
    args: &Vec<usize>,
    kind: SyscallKind,
    ok_ty: usize,
    err_ty: usize,
) -> (r: Result<(), CompileError>)
    requires
        entry < old(b).f.blocks@.len(),
        old(b).f.n_values + 16 < usize::MAX,
        crate::program::types_acyclic(registry.program.types@),
    ensures
        final(b).f.blocks@.len() == old(b).f.blocks@.len(),
        r is Ok ==> args@.len() >= 2 && ok_ty < registry.program.types@.len() && err_ty
            < registry.program.types@.len() && spec_can_branch(
            *helper,
            old(b).f,
            entry,
            0,
            spec_ok_results(kind),
        ) && spec_can_branch(*helper, old(b).f, entry, 1, 3),
        args@.len() >= 2 && ok_ty < registry.program.types@.len() && err_ty
            < registry.program.types@.len() && spec_can_branch(
            *helper,
            old(b).f,
            entry,
            0,
            spec_ok_results(kind),
        ) && spec_can_branch(*helper, old(b).f, entry, 1, 3) && r is Err
            ==> r->Err_0 == CompileError::LayoutOverflow || r->Err_0 matches CompileError::UnsupportedType(_),
        r is Ok ==> (final(b).f.blocks@[entry as int].ops@[old(b).f.blocks@[entry as
            int].ops@.len() as int].kind matches OpKind::Syscall {
            kind: k,
            slot,
            result_layout,
            gas,
            system,
            args: sa,
        } && k == kind && slot == spec_vtable_index(kind) && wf_layout(result_layout) && gas
            == args@[0] && system == args@[1] && sa@ == args@.skip(2)) && (final(
        b).f.blocks@[entry as int].term matches Some(
            Terminator::CondBr { cond, true_target, true_args, false_target, false_args },
        ) && cond == old(b).f.n_values + 4 && true_target == helper.branches@[0].block
            && true_args@ == spec_branch_args(
            helper.branches@[0].mapping@,
            spec_ok_result_ids(kind, old(b).f.n_values as usize, args@[1]),
        ) && false_target == helper.branches@[1].block && false_args@ == spec_branch_args(
            helper.branches@[1].mapping@,
            seq![(old(b).f.n_values as usize), args@[1], (old(b).f.n_values + 5) as usize],
        )),
{
    if args.len() < 2 {
        return Err(CompileError::InvariantViolation);
    }
    let gas = args[0];
    let system = args[1];
    // The result slot's layout and the vtable slot are part of the call's
    // ABI and travel with the emitted operation.
    let layouts = match result_enum_layout(registry, ok_ty, err_ty) {
        Ok(l) => l,
        Err(e) => {
            return Err(e);
        },
    };
    let slot = vtable_index(kind);
    let mut call_args: Vec<usize> = Vec::new();
    let mut i: usize = 2;
    while i < args.len()
        invariant
            args@.len() >= 2,
            2 <= i <= args@.len(),
            call_args@ == args@.skip(2).take(i - 2),
        decreases args@.len() - i,
    {
        call_args.push(args[i]);
        proof {
            assert(call_args@ =~= args@.skip(2).take(i - 1));
        }
        i = i + 1;
    }
    proof {
        assert(args@.skip(2).take(args@.len() - 2) =~= args@.skip(2));
    }
    let dests = b.push_op(
        entry,
        OpKind::Syscall { kind, slot, result_layout: layouts.0, gas, system, args: call_args },
        2,
    );
    let new_gas = dests[0];
    let result = dests[1];
    let tag = b.push_op(entry, OpKind::EnumTag { arg: result }, 1);
    let zero = b.push_op(entry, OpKind::ConstInt { ty: IntTy::U64, value: 0 }, 1);
    let is_ok = b.push_op(entry, OpKind::IntEq { ty: IntTy::U64, lhs: tag[0], rhs: zero[0] }, 1);
    let payload = b.push_op(entry, OpKind::EnumPayload { arg: result }, 1);
    let payload_id = payload[0];
    let mut ok_results: Vec<usize> = Vec::new();
    ok_results.push(new_gas);
    ok_results.push(system);
    if matches!(kind, SyscallKind::Deploy) {
        let part0 = b.push_op(entry, OpKind::StructExtract { arg: payload_id, index: 0 }, 1);
        let part1 = b.push_op(entry, OpKind::StructExtract { arg: payload_id, index: 1 }, 1);
        ok_results.push(part0[0]);
        ok_results.push(part1[0]);
    } else {
        ok_results.push(payload_id);
    }
    let mut err_results: Vec<usize> = Vec::new();
    err_results.push(new_gas);
    err_results.push(system);
    err_results.push(payload_id);
    proof {
        assert(ok_results@ =~= spec_ok_result_ids(kind, old(b).f.n_values as usize, args@[1]));
        assert(err_results@ =~= seq![(old(b).f.n_values as usize), args@[1], (old(b).f.n_values
            + 5) as usize]);
    }
    helper.cond_br(b, entry, is_ok[0], (0, 1), &ok_results, &err_results)
}

/// Emits an address-typed constant: the embedded literal reduced into the
/// field, published on branch 0.
pub fn build_address_const(
    b: &mut FunctionBuilder,
    entry: usize,
    helper: &LibfuncHelper,
    c: &BigIntConst,
) -> (r: Result<(), CompileError>)
    requires
        entry < old(b).f.blocks@.len(),
        old(b).f.n_values + 1 < usize::MAX,
    ensures
        final(b).f.blocks@.len() == old(b).f.blocks@.len(),
        r is Ok <==> spec_can_branch(*helper, old(b).f, entry, 0, 1),
        r is Ok ==> final(b).f.blocks@[entry as int].ops@.len() == old(b).f.blocks@[entry as
            int].ops@.len() + 1 && (final(b).f.blocks@[entry as int].ops@.last().kind
            matches OpKind::ConstFelt { value } && value@ == spec_const_value(*c))
            && final(b).f.blocks@[entry as int].ops@.last().dests@ == seq![old(b).f.n_values]
            && (final(b).f.blocks@[entry as int].term
            matches Some(Terminator::Br { target, args }) && target == helper.branches@[0].block
            && args@ == spec_branch_args(helper.branches@[0].mapping@, seq![old(b).f.n_values])),
{
    let value = const_to_felt(c);
    let dests = b.push_op(entry, OpKind::ConstFelt { value }, 1);
    proof {
        assert(dests@ =~= seq![old(b).f.n_values]);
    }
    helper.br(b, entry, 0, &dests)
}

/// Emits the range-checked conversion of a felt into an address-like type:
/// the range-check builtin is bumped, the felt compared against `2^251`;
/// values below it pass on branch 0 with the builtin, larger ones fail on
/// branch 1 with the builtin alone.
pub fn build_address_try_from_felt252(
    b: &mut FunctionBuilder,
    entry: usize,
    helper: &LibfuncHelper,
    args: &Vec<usize>,
) -> (r: Result<(), CompileError>)
    requires
        entry < old(b).f.blocks@.len(),
        old(b).f.n_values + 8 < usize::MAX,
    ensures
        final(b).f.blocks@.len() == old(b).f.blocks@.len(),
        r is Ok <==> args@.len() >= 2 && spec_can_branch(*helper, old(b).f, entry, 0, 2)
            && spec_can_branch(*helper, old(b).f, entry, 1, 1),
        r is Ok ==> final(b).f.blocks@[entry as int].ops@.len() == old(b).f.blocks@[entry as
            int].ops@.len() + 3 && (final(b).f.blocks@[entry as int].ops@[old(b).f.blocks@[entry
            as int].ops@.len() as int].kind matches OpKind::IncCounter { arg, amount } && arg
            == args@[0] && amount == 1) && (final(b).f.blocks@[entry as int].ops@[old(
            b).f.blocks@[entry as int].ops@.len() as int + 1].kind
            matches OpKind::ConstFelt { value } && value@ == pow2(251)) && (final(
            b).f.blocks@[entry as int].ops@.last().kind matches OpKind::FeltLt { lhs, rhs }
            && lhs == args@[1] && rhs == old(b).f.n_values + 1) && (final(b).f.blocks@[entry as
            int].term matches Some(
            Terminator::CondBr { cond, true_target, true_args, false_target, false_args },
        ) && cond == old(b).f.n_values + 2 && true_target == helper.branches@[0].block
            && true_args@ == spec_branch_args(
            helper.branches@[0].mapping@,
            seq![(old(b).f.n_values as usize), args@[1]],
        ) && false_target == helper.branches@[1].block && false_args@ == spec_branch_args(
            helper.branches@[1].mapping@,
            seq![(old(b).f.n_values as usize)],
        )),
{
    if args.len() < 2 {
        return Err(CompileError::InvariantViolation);
    }
    let range_check = args[0];
    let value = args[1];
    let rc2 = b.push_op(entry, OpKind::IncCounter { arg: range_check, amount: 1 }, 1);
    let limit_felt = crate::felt252::Felt252::pow2_felt(251);
    let limit = b.push_op(entry, OpKind::ConstFelt { value: limit_felt }, 1);
    let in_range = b.push_op(entry, OpKind::FeltLt { lhs: value, rhs: limit[0] }, 1);
    let mut ok_results: Vec<usize> = Vec::new();
    ok_results.push(rc2[0]);
    ok_results.push(value);
    let mut err_results: Vec<usize> = Vec::new();
    err_results.push(rc2[0]);
    proof {
        assert(ok_results@ =~= seq![(old(b).f.n_values as usize), args@[1]]);
        assert(err_results@ =~= seq![(old(b).f.n_values as usize)]);
    }
    helper.cond_br(b, entry, in_range[0], (0, 1), &ok_results, &err_results)
}

/// Emits `storage_base_address_from_felt252`: the felt is reduced into the
/// base-address domain `[0, 2^251 - 256)` by subtracting the domain bound
/// once when the value reaches it (a select between the value and the
/// difference); published on branch 0 with the bumped range-check builtin.
pub fn build_storage_base_address_from_felt252(
    b: &mut FunctionBuilder,
    entry: usize,
    helper: &LibfuncHelper,
    args: &Vec<usize>,
) -> (r: Result<(), CompileError>)
    requires
        entry < old(b).f.blocks@.len(),
        old(b).f.n_values + 8 < usize::MAX,
    ensures
        final(b).f.blocks@.len() == old(b).f.blocks@.len(),
        r is Ok <==> args@.len() >= 2 && spec_can_branch(*helper, old(b).f, entry, 0, 2),
        r is Ok ==> final(b).f.blocks@[entry as int].ops@.len() == old(b).f.blocks@[entry as
            int].ops@.len() + 5 && (final(b).f.blocks@[entry as int].ops@[old(b).f.blocks@[entry
            as int].ops@.len() as int + 1].kind matches OpKind::ConstFelt { value } && value@
            == pow2(251) - 256) && (final(b).f.blocks@[entry as int].ops@[old(
            b).f.blocks@[entry as int].ops@.len() as int + 2].kind matches OpKind::FeltBinary {
            op,
            lhs,
            rhs,
        } && op == crate::program::FeltBinaryOperator::Sub && lhs == args@[1] && rhs == old(
            b).f.n_values + 1) && (final(b).f.blocks@[entry as int].ops@[old(b).f.blocks@[entry
            as int].ops@.len() as int + 3].kind matches OpKind::FeltLt { lhs: ll, rhs: lr } && ll
            == args@[1] && lr == old(b).f.n_values + 1) && (final(b).f.blocks@[entry as
            int].ops@.last().kind matches OpKind::Select { cond, if_true, if_false } && cond
            == old(b).f.n_values + 3 && if_true == args@[1] && if_false == old(b).f.n_values + 2)
            && (final(b).f.blocks@[entry as int].term matches Some(
            Terminator::Br { target, args: ta },
        ) && target == helper.branches@[0].block && ta@ == spec_branch_args(
            helper.branches@[0].mapping@,
            seq![(old(b).f.n_values as usize), (old(b).f.n_values + 4) as usize],
        )),
{
    if args.len() < 2 {
        return Err(CompileError::InvariantViolation);
    }
    let range_check = args[0];
    let value = args[1];
    let rc2 = b.push_op(entry, OpKind::IncCounter { arg: range_check, amount: 1 }, 1);
    let bound = crate::felt252::Felt252::pow2_felt(251);
    let offset = crate::felt252::Felt252::from_u128(256);
    let k_limit = bound.sub(&offset);
    proof {
        crate::felt252::lemma_prime_bounds();
        vstd::arithmetic::power2::lemma_pow2_strictly_increases(9, 251);
        vstd::arithmetic::power2::lemma2_to64();
        vstd::arithmetic::div_mod::lemma_small_mod((pow2(251) - 256) as nat, crate::felt252::felt_prime());
    }
    let limit = b.push_op(entry, OpKind::ConstFelt { value: k_limit }, 1);
    let limited = b.push_op(
        entry,
        OpKind::FeltBinary {
            op: crate::program::FeltBinaryOperator::Sub,
            lhs: value,
            rhs: limit[0],
        },
        1,
    );
    let within = b.push_op(entry, OpKind::FeltLt { lhs: value, rhs: limit[0] }, 1);
    let sel = b.push_op(
        entry,
        OpKind::Select { cond: within[0], if_true: value, if_false: limited[0] },
        1,
    );
    let mut results: Vec<usize> = Vec::new();
    results.push(rc2[0]);
    results.push(sel[0]);
    proof {
        assert(results@ =~= seq![(old(b).f.n_values as usize), (old(b).f.n_values + 4) as usize]);
    }
    helper.br(b, entry, 0, &results)
}

/// Emits `storage_address_from_base`: the base address is already a valid
/// storage address; passed through on branch 0.
pub fn build_storage_address_from_base(
    b: &mut FunctionBuilder,
    entry: usize,
    helper: &LibfuncHelper,
    args: &Vec<usize>,
) -> (r: Result<(), CompileError>)
    requires
        entry < old(b).f.blocks@.len(),
    ensures
        final(b).f.blocks@.len() == old(b).f.blocks@.len(),
        r is Ok <==> args@.len() >= 1 && spec_can_branch(*helper, old(b).f, entry, 0, 1),
        r is Ok ==> final(b).f.blocks@[entry as int].ops == old(b).f.blocks@[entry as int].ops
            && (final(b).f.blocks@[entry as int].term
            matches Some(Terminator::Br { target, args: ta }) && target
            == helper.branches@[0].block && ta@ == spec_branch_args(
            helper.branches@[0].mapping@,
            seq![args@[0]],
        )),
{
    if args.len() < 1 {
        return Err(CompileError::InvariantViolation);
    }
    let mut results: Vec<usize> = Vec::new();
    results.push(args[0]);
    proof {
        assert(results@ =~= seq![args@[0]]);
    }
    helper.br(b, entry, 0, &results)
}

/// Emits `storage_address_from_base_and_offset`: the 8-bit offset is
/// zero-extended into the field and added to the base; published on
/// branch 0.
pub fn build_storage_address_from_base_and_offset(
    b: &mut FunctionBuilder,
    entry: usize,
    helper: &LibfuncHelper,
    args: &Vec<usize>,
) -> (r: Result<(), CompileError>)
    requires
        entry < old(b).f.blocks@.len(),
        old(b).f.n_values + 4 < usize::MAX,
    ensures
        final(b).f.blocks@.len() == old(b).f.blocks@.len(),
        r is Ok <==> args@.len() >= 2 && spec_can_branch(*helper, old(b).f, entry, 0, 1),
        r is Ok ==> final(b).f.blocks@[entry as int].ops@.len() == old(b).f.blocks@[entry as
            int].ops@.len() + 2 && (final(b).f.blocks@[entry as int].ops@[old(b).f.blocks@[entry
            as int].ops@.len() as int].kind matches OpKind::IntToFelt252 { ty, arg } && ty
            == IntTy::U8 && arg == args@[1]) && (final(b).f.blocks@[entry as
            int].ops@.last().kind matches OpKind::FeltBinary { op, lhs, rhs } && op
            == crate::program::FeltBinaryOperator::Add && lhs == args@[0] && rhs == old(
            b).f.n_values) && (final(b).f.blocks@[entry as int].term matches Some(
            Terminator::Br { target, args: ta },
        ) && target == helper.branches@[0].block && ta@ == spec_branch_args(
            helper.branches@[0].mapping@,
            seq![(old(b).f.n_values + 1) as usize],
        )),
{
    if args.len() < 2 {
        return Err(CompileError::InvariantViolation);
    }
    let widened = b.push_op(entry, OpKind::IntToFelt252 { ty: IntTy::U8, arg: args[1] }, 1);
    let sum = b.push_op(
        entry,
        OpKind::FeltBinary {
            op: crate::program::FeltBinaryOperator::Add,
            lhs: args[0],
            rhs: widened[0],
        },
        1,
    );
    proof {
        assert(sum@ =~= seq![(old(b).f.n_values + 1) as usize]);
    }
    helper.br(b, entry, 0, &sum)
}

/// Emits `storage_address_to_felt252`: a storage address is a felt; passed
/// through on branch 0.
pub fn build_storage_address_to_felt252(
    b: &mut FunctionBuilder,
    entry: usize,
    helper: &LibfuncHelper,
    args: &Vec<usize>,
) -> (r: Result<(), CompileError>)
    requires
        entry < old(b).f.blocks@.len(),
    ensures
        final(b).f.blocks@.len() == old(b).f.blocks@.len(),
        r is Ok <==> args@.len() >= 1 && spec_can_branch(*helper, old(b).f, entry, 0, 1),
        r is Ok ==> final(b).f.blocks@[entry as int].ops == old(b).f.blocks@[entry as int].ops
            && (final(b).f.blocks@[entry as int].term
            matches Some(Terminator::Br { target, args: ta }) && target
            == helper.branches@[0].block && ta@ == spec_branch_args(
            helper.branches@[0].mapping@,
            seq![args@[0]],
        )),
{
    if args.len() < 1 {
        return Err(CompileError::InvariantViolation);
    }
    let mut results: Vec<usize> = Vec::new();
    results.push(args[0]);
    proof {
        assert(results@ =~= seq![args@[0]]);
    }
    helper.br(b, entry, 0, &results)
}

/// Emits a `class_hash_const` libfunc: the embedded literal reduced into the field,
/// published on branch 0.
pub fn build_class_hash_const(
    b: &mut FunctionBuilder,
    entry: usize,
    helper: &LibfuncHelper,
    c: &BigIntConst,
) -> (r: Result<(), CompileError>)
    requires
        entry < old(b).f.blocks@.len(),
        old(b).f.n_values + 1 < usize::MAX,
    ensures
        final(b).f.blocks@.len() == old(b).f.blocks@.len(),
        r is Ok <==> spec_can_branch(*helper, old(b).f, entry, 0, 1),
        r is Ok ==> final(b).f.blocks@[entry as int].ops@.len() == old(b).f.blocks@[entry as
            int].ops@.len() + 1 && (final(b).f.blocks@[entry as int].ops@.last().kind
            matches OpKind::ConstFelt { value } && value@ == spec_const_value(*c))
            && (final(b).f.blocks@[entry as int].term
            matches Some(Terminator::Br { target, args }) && target == helper.branches@[0].block
            && args@ == spec_branch_args(helper.branches@[0].mapping@, seq![old(b).f.n_values])),
{
    build_address_const(b, entry, helper, c)
}

/// Emits a `contract_address_const` libfunc: the embedded literal reduced into the field,
/// published on branch 0.
pub fn build_contract_address_const(
    b: &mut FunctionBuilder,
    entry: usize,
    helper: &LibfuncHelper,
    c: &BigIntConst,
) -> (r: Result<(), CompileError>)
    requires
        entry < old(b).f.blocks@.len(),
        old(b).f.n_values + 1 < usize::MAX,
    ensures
        final(b).f.blocks@.len() == old(b).f.blocks@.len(),
        r is Ok <==> spec_can_branch(*helper, old(b).f, entry, 0, 1),
        r is Ok ==> final(b).f.blocks@[entry as int].ops@.len() == old(b).f.blocks@[entry as
            int].ops@.len() + 1 && (final(b).f.blocks@[entry as int].ops@.last().kind
            matches OpKind::ConstFelt { value } && value@ == spec_const_value(*c))
            && (final(b).f.blocks@[entry as int].term
            matches Some(Terminator::Br { target, args }) && target == helper.branches@[0].block
            && args@ == spec_branch_args(helper.branches@[0].mapping@, seq![old(b).f.n_values])),
{
    build_address_const(b, entry, helper, c)
}

/// Emits a `storage_base_address_const` libfunc: the embedded literal reduced into the field,
/// published on branch 0.
pub fn build_storage_base_address_const(
    b: &mut FunctionBuilder,
    entry: usize,
    helper: &LibfuncHelper,
    c: &BigIntConst,
) -> (r: Result<(), CompileError>)
    requires
        entry < old(b).f.blocks@.len(),
        old(b).f.n_values + 1 < usize::MAX,
    ensures
        final(b).f.blocks@.len() == old(b).f.blocks@.len(),
        r is Ok <==> spec_can_branch(*helper, old(b).f, entry, 0, 1),
        r is Ok ==> final(b).f.blocks@[entry as int].ops@.len() == old(b).f.blocks@[entry as
            int].ops@.len() + 1 && (final(b).f.blocks@[entry as int].ops@.last().kind
            matches OpKind::ConstFelt { value } && value@ == spec_const_value(*c))
            && (final(b).f.blocks@[entry as int].term
            matches Some(Terminator::Br { target, args }) && target == helper.branches@[0].block
            && args@ == spec_branch_args(helper.branches@[0].mapping@, seq![old(b).f.n_values])),
{
    build_address_const(b, entry, helper, c)
}

/// Emits `class_hash_try_from_felt252`: the range-check builtin is bumped and the felt compared
/// against `2^251`; values below it pass on branch 0 with the builtin and
/// the value, larger ones fail on branch 1 with the builtin alone.
pub fn build_class_hash_try_from_felt252(
    b: &mut FunctionBuilder,
    entry: usize,
    helper: &LibfuncHelper,
    args: &Vec<usize>,
) -> (r: Result<(), CompileError>)
    requires
        entry < old(b).f.blocks@.len(),
        old(b).f.n_values + 8 < usize::MAX,
    ensures
        final(b).f.blocks@.len() == old(b).f.blocks@.len(),
        r is Ok <==> args@.len() >= 2 && spec_can_branch(*helper, old(b).f, entry, 0, 2)
            && spec_can_branch(*helper, old(b).f, entry, 1, 1),
        r is Ok ==> final(b).f.blocks@[entry as int].ops@.len() == old(b).f.blocks@[entry as
            int].ops@.len() + 3 && (final(b).f.blocks@[entry as int].ops@[old(b).f.blocks@[entry
            as int].ops@.len() as int].kind matches OpKind::IncCounter { arg, amount } && arg
            == args@[0] && amount == 1) && (final(b).f.blocks@[entry as int].ops@[old(
            b).f.blocks@[entry as int].ops@.len() as int + 1].kind
            matches OpKind::ConstFelt { value } && value@ == pow2(251)) && (final(
            b).f.blocks@[entry as int].ops@.last().kind matches OpKind::FeltLt { lhs, rhs }
            && lhs == args@[1] && rhs == old(b).f.n_values + 1) && (final(b).f.blocks@[entry as
            int].term matches Some(
            Terminator::CondBr { cond, true_target, true_args, false_target, false_args },
        ) && cond == old(b).f.n_values + 2 && true_target == helper.branches@[0].block
            && true_args@ == spec_branch_args(
            helper.branches@[0].mapping@,
            seq![(old(b).f.n_values as usize), args@[1]],
        ) && false_target == helper.branches@[1].block && false_args@ == spec_branch_args(
            helper.branches@[1].mapping@,
            seq![(old(b).f.n_values as usize)],
        )),
{
    build_address_try_from_felt252(b, entry, helper, args)
}

/// Emits `contract_address_try_from_felt252`: the range-check builtin is bumped and the felt compared
/// against `2^251`; values below it pass on branch 0 with the builtin and
/// the value, larger ones fail on branch 1 with the builtin alone.
pub fn build_contract_address_try_from_felt252(
    b: &mut FunctionBuilder,
    entry: usize,
    helper: &LibfuncHelper,
    args: &Vec<usize>,
) -> (r: Result<(), CompileError>)
    requires
        entry < old(b).f.blocks@.len(),
        old(b).f.n_values + 8 < usize::MAX,
    ensures
        final(b).f.blocks@.len() == old(b).f.blocks@.len(),
        r is Ok <==> args@.len() >= 2 && spec_can_branch(*helper, old(b).f, entry, 0, 2)
            && spec_can_branch(*helper, old(b).f, entry, 1, 1),
        r is Ok ==> final(b).f.blocks@[entry as int].ops@.len() == old(b).f.blocks@[entry as
            int].ops@.len() + 3 && (final(b).f.blocks@[entry as int].ops@[old(b).f.blocks@[entry
            as int].ops@.len() as int].kind matches OpKind::IncCounter { arg, amount } && arg
            == args@[0] && amount == 1) && (final(b).f.blocks@[entry as int].ops@[old(
            b).f.blocks@[entry as int].ops@.len() as int + 1].kind
            matches OpKind::ConstFelt { value } && value@ == pow2(251)) && (final(
            b).f.blocks@[entry as int].ops@.last().kind matches OpKind::FeltLt { lhs, rhs }
            && lhs == args@[1] && rhs == old(b).f.n_values + 1) && (final(b).f.blocks@[entry as
            int].term matches Some(
            Terminator::CondBr { cond, true_target, true_args, false_target, false_args },
        ) && cond == old(b).f.n_values + 2 && true_target == helper.branches@[0].block
            && true_args@ == spec_branch_args(
            helper.branches@[0].mapping@,
            seq![(old(b).f.n_values as usize), args@[1]],
        ) && false_target == helper.branches@[1].block && false_args@ == spec_branch_args(
            helper.branches@[1].mapping@,
            seq![(old(b).f.n_values as usize)],
        )),
{
    build_address_try_from_felt252(b, entry, helper, args)
}

/// Emits `storage_address_try_from_felt252`: the range-check builtin is bumped and the felt compared
/// against `2^251`; values below it pass on branch 0 with the builtin and
/// the value, larger ones fail on branch 1 with the builtin alone.
pub fn build_storage_address_try_from_felt252(
    b: &mut FunctionBuilder,
    entry: usize,
    helper: &LibfuncHelper,
    args: &Vec<usize>,
) -> (r: Result<(), CompileError>)
    requires
        entry < old(b).f.blocks@.len(),
        old(b).f.n_values + 8 < usize::MAX,
    ensures
        final(b).f.blocks@.len() == old(b).f.blocks@.len(),
        r is Ok <==> args@.len() >= 2 && spec_can_branch(*helper, old(b).f, entry, 0, 2)
            && spec_can_branch(*helper, old(b).f, entry, 1, 1),
        r is Ok ==> final(b).f.blocks@[entry as int].ops@.len() == old(b).f.blocks@[entry as
            int].ops@.len() + 3 && (final(b).f.blocks@[entry as int].ops@[old(b).f.blocks@[entry
            as int].ops@.len() as int].kind matches OpKind::IncCounter { arg, amount } && arg
            == args@[0] && amount == 1) && (final(b).f.blocks@[entry as int].ops@[old(
            b).f.blocks@[entry as int].ops@.len() as int + 1].kind
            matches OpKind::ConstFelt { value } && value@ == pow2(251)) && (final(
            b).f.blocks@[entry as int].ops@.last().kind matches OpKind::FeltLt { lhs, rhs }
            && lhs == args@[1] && rhs == old(b).f.n_values + 1) && (final(b).f.blocks@[entry as
            int].term matches Some(
            Terminator::CondBr { cond, true_target, true_args, false_target, false_args },
        ) && cond == old(b).f.n_values + 2 && true_target == helper.branches@[0].block
            && true_args@ == spec_branch_args(
            helper.branches@[0].mapping@,
            seq![(old(b).f.n_values as usize), args@[1]],
        ) && false_target == helper.branches@[1].block && false_args@ == spec_branch_args(
            helper.branches@[1].mapping@,
            seq![(old(b).f.n_values as usize)],
        )),
{
    build_address_try_from_felt252(b, entry, helper, args)
}

/// Emits the `get_block_hash` syscall, through the uniform dispatch template (vtable slot 1):
/// the call forwards the remaining entry arguments, and the tag-zero test
/// steers branch 0 with the gas, system and payload values, branch 1 with
/// the gas, system and error payload.
pub fn build_get_block_hash(
    b: &mut FunctionBuilder,
    entry: usize,
    helper: &LibfuncHelper,
    registry: &ProgramRegistry,
    args: &Vec<usize>,
    ok_ty: usize,
    err_ty: usize,
) -> (r: Result<(), CompileError>)
    requires
        entry < old(b).f.blocks@.len(),
        old(b).f.n_values + 16 < usize::MAX,
        crate::program::types_acyclic(registry.program.types@),
    ensures
        final(b).f.blocks@.len() == old(b).f.blocks@.len(),
        r is Ok ==> args@.len() >= 2 && ok_ty < registry.program.types@.len() && err_ty
            < registry.program.types@.len() && spec_can_branch(
            *helper,
            old(b).f,
            entry,
            0,
            spec_ok_results(SyscallKind::GetBlockHash),
        ) && spec_can_branch(*helper, old(b).f, entry, 1, 3),
        args@.len() >= 2 && ok_ty < registry.program.types@.len() && err_ty
            < registry.program.types@.len() && spec_can_branch(
            *helper,
            old(b).f,
            entry,
            0,
            spec_ok_results(SyscallKind::GetBlockHash),
        ) && spec_can_branch(*helper, old(b).f, entry, 1, 3) && r is Err
            ==> r->Err_0 == CompileError::LayoutOverflow || r->Err_0 matches CompileError::UnsupportedType(_),
        r is Ok ==> (final(b).f.blocks@[entry as int].ops@[old(b).f.blocks@[entry as
            int].ops@.len() as int].kind matches OpKind::Syscall {
            kind: k,
            slot,
            result_layout,
            gas,
            system,
            args: sa,
        } && k == SyscallKind::GetBlockHash && slot == 1 && wf_layout(result_layout) && gas
            == args@[0] && system == args@[1] && sa@ == args@.skip(2)) && (final(
        b).f.blocks@[entry as int].term matches Some(
            Terminator::CondBr { cond, true_target, true_args, false_target, false_args },
        ) && cond == old(b).f.n_values + 4 && true_target == helper.branches@[0].block
            && true_args@ == spec_branch_args(
            helper.branches@[0].mapping@,
            spec_ok_result_ids(SyscallKind::GetBlockHash, old(b).f.n_values as usize, args@[1]),
        ) && false_target == helper.branches@[1].block && false_args@ == spec_branch_args(
            helper.branches@[1].mapping@,
            seq![(old(b).f.n_values as usize), args@[1], (old(b).f.n_values + 5) as usize],
        )),
{
    build_syscall(b, entry, helper, registry, args, SyscallKind::GetBlockHash, ok_ty, err_ty)
}

/// Emits the `get_execution_info` syscall, through the uniform dispatch template (vtable slot 2):
/// the call forwards the remaining entry arguments, and the tag-zero test
/// steers branch 0 with the gas, system and payload values, branch 1 with
/// the gas, system and error payload.
pub fn build_get_execution_info(
    b: &mut FunctionBuilder,
    entry: usize,
    helper: &LibfuncHelper,
    registry: &ProgramRegistry,
    args: &Vec<usize>,
    ok_ty: usize,
    err_ty: usize,
) -> (r: Result<(), CompileError>)
    requires
        entry < old(b).f.blocks@.len(),
        old(b).f.n_values + 16 < usize::MAX,
        crate::program::types_acyclic(registry.program.types@),
    ensures
        final(b).f.blocks@.len() == old(b).f.blocks@.len(),
        r is Ok ==> args@.len() >= 2 && ok_ty < registry.program.types@.len() && err_ty
            < registry.program.types@.len() && spec_can_branch(
            *helper,
            old(b).f,
            entry,
            0,
            spec_ok_results(SyscallKind::GetExecutionInfo),
        ) && spec_can_branch(*helper, old(b).f, entry, 1, 3),
        args@.len() >= 2 && ok_ty < registry.program.types@.len() && err_ty
            < registry.program.types@.len() && spec_can_branch(
            *helper,
            old(b).f,
            entry,
            0,
            spec_ok_results(SyscallKind::GetExecutionInfo),
        ) && spec_can_branch(*helper, old(b).f, entry, 1, 3) && r is Err
            ==> r->Err_0 == CompileError::LayoutOverflow || r->Err_0 matches CompileError::UnsupportedType(_),
        r is Ok ==> (final(b).f.blocks@[entry as int].ops@[old(b).f.blocks@[entry as
            int].ops@.len() as int].kind matches OpKind::Syscall {
            kind: k,
            slot,
            result_layout,
            gas,
            system,
            args: sa,
        } && k == SyscallKind::GetExecutionInfo && slot == 2 && wf_layout(result_layout) && gas
            == args@[0] && system == args@[1] && sa@ == args@.skip(2)) && (final(
        b).f.blocks@[entry as int].term matches Some(
            Terminator::CondBr { cond, true_target, true_args, false_target, false_args },
        ) && cond == old(b).f.n_values + 4 && true_target == helper.branches@[0].block
            && true_args@ == spec_branch_args(
            helper.branches@[0].mapping@,
            spec_ok_result_ids(SyscallKind::GetExecutionInfo, old(b).f.n_values as usize, args@[1]),
        ) && false_target == helper.branches@[1].block && false_args@ == spec_branch_args(
            helper.branches@[1].mapping@,
            seq![(old(b).f.n_values as usize), args@[1], (old(b).f.n_values + 5) as usize],
        )),
{
    build_syscall(b, entry, helper, registry, args, SyscallKind::GetExecutionInfo, ok_ty, err_ty)
}

/// Emits the `get_execution_info_v2` syscall, through the uniform dispatch template (vtable slot 3):
/// the call forwards the remaining entry arguments, and the tag-zero test
/// steers branch 0 with the gas, system and payload values, branch 1 with
/// the gas, system and error payload.
pub fn build_get_execution_info_v2(
    b: &mut FunctionBuilder,
    entry: usize,
    helper: &LibfuncHelper,
    registry: &ProgramRegistry,
    args: &Vec<usize>,
    ok_ty: usize,
    err_ty: usize,
) -> (r: Result<(), CompileError>)
    requires
        entry < old(b).f.blocks@.len(),
        old(b).f.n_values + 16 < usize::MAX,
        crate::program::types_acyclic(registry.program.types@),
    ensures
        final(b).f.blocks@.len() == old(b).f.blocks@.len(),
        r is Ok ==> args@.len() >= 2 && ok_ty < registry.program.types@.len() && err_ty
            < registry.program.types@.len() && spec_can_branch(
            *helper,
            old(b).f,
            entry,
            0,
            spec_ok_results(SyscallKind::GetExecutionInfoV2),
        ) && spec_can_branch(*helper, old(b).f, entry, 1, 3),
        args@.len() >= 2 && ok_ty < registry.program.types@.len() && err_ty
            < registry.program.types@.len() && spec_can_branch(
            *helper,
            old(b).f,
            entry,
            0,
            spec_ok_results(SyscallKind::GetExecutionInfoV2),
        ) && spec_can_branch(*helper, old(b).f, entry, 1, 3) && r is Err
            ==> r->Err_0 == CompileError::LayoutOverflow || r->Err_0 matches CompileError::UnsupportedType(_),
        r is Ok ==> (final(b).f.blocks@[entry as int].ops@[old(b).f.blocks@[entry as
            int].ops@.len() as int].kind matches OpKind::Syscall {
            kind: k,
            slot,
            result_layout,
            gas,
            system,
            args: sa,
        } && k == SyscallKind::GetExecutionInfoV2 && slot == 3 && wf_layout(result_layout) && gas
            == args@[0] && system == args@[1] && sa@ == args@.skip(2)) && (final(
        b).f.blocks@[entry as int].term matches Some(
            Terminator::CondBr { cond, true_target, true_args, false_target, false_args },
        ) && cond == old(b).f.n_values + 4 && true_target == helper.branches@[0].block
            && true_args@ == spec_branch_args(
            helper.branches@[0].mapping@,
            spec_ok_result_ids(SyscallKind::GetExecutionInfoV2, old(b).f.n_values as usize, args@[1]),
        ) && false_target == helper.branches@[1].block && false_args@ == spec_branch_args(
            helper.branches@[1].mapping@,
            seq![(old(b).f.n_values as usize), args@[1], (old(b).f.n_values + 5) as usize],
        )),
{
    build_syscall(b, entry, helper, registry, args, SyscallKind::GetExecutionInfoV2, ok_ty, err_ty)
}

/// Emits the `deploy` syscall, whose Ok payload splits into the deployed address and the constructor output, through the uniform dispatch template (vtable slot 4):
/// the call forwards the remaining entry arguments, and the tag-zero test
/// steers branch 0 with the gas, system and payload values, branch 1 with
/// the gas, system and error payload.
pub fn build_deploy(
    b: &mut FunctionBuilder,
    entry: usize,
    helper: &LibfuncHelper,
    registry: &ProgramRegistry,
    args: &Vec<usize>,
    ok_ty: usize,
    err_ty: usize,
) -> (r: Result<(), CompileError>)
    requires
        entry < old(b).f.blocks@.len(),
        old(b).f.n_values + 16 < usize::MAX,
        crate::program::types_acyclic(registry.program.types@),
    ensures
        final(b).f.blocks@.len() == old(b).f.blocks@.len(),
        r is Ok ==> args@.len() >= 2 && ok_ty < registry.program.types@.len() && err_ty
            < registry.program.types@.len() && spec_can_branch(
            *helper,
            old(b).f,
            entry,
            0,
            spec_ok_results(SyscallKind::Deploy),
        ) && spec_can_branch(*helper, old(b).f, entry, 1, 3),
        args@.len() >= 2 && ok_ty < registry.program.types@.len() && err_ty
            < registry.program.types@.len() && spec_can_branch(
            *helper,
            old(b).f,
            entry,
            0,
            spec_ok_results(SyscallKind::Deploy),
        ) && spec_can_branch(*helper, old(b).f, entry, 1, 3) && r is Err
            ==> r->Err_0 == CompileError::LayoutOverflow || r->Err_0 matches CompileError::UnsupportedType(_),
        r is Ok ==> (final(b).f.blocks@[entry as int].ops@[old(b).f.blocks@[entry as
            int].ops@.len() as int].kind matches OpKind::Syscall {
            kind: k,
            slot,
            result_layout,
            gas,
            system,
            args: sa,
        } && k == SyscallKind::Deploy && slot == 4 && wf_layout(result_layout) && gas
            == args@[0] && system == args@[1] && sa@ == args@.skip(2)) && (final(
        b).f.blocks@[entry as int].term matches Some(
            Terminator::CondBr { cond, true_target, true_args, false_target, false_args },
        ) && cond == old(b).f.n_values + 4 && true_target == helper.branches@[0].block
            && true_args@ == spec_branch_args(
            helper.branches@[0].mapping@,
            spec_ok_result_ids(SyscallKind::Deploy, old(b).f.n_values as usize, args@[1]),
        ) && false_target == helper.branches@[1].block && false_args@ == spec_branch_args(
            helper.branches@[1].mapping@,
            seq![(old(b).f.n_values as usize), args@[1], (old(b).f.n_values + 5) as usize],
        )),
{
    build_syscall(b, entry, helper, registry, args, SyscallKind::Deploy, ok_ty, err_ty)
}

/// Emits the `replace_class` syscall, through the uniform dispatch template (vtable slot 5):
/// the call forwards the remaining entry arguments, and the tag-zero test
/// steers branch 0 with the gas, system and payload values, branch 1 with
/// the gas, system and error payload.
pub fn build_replace_class(
    b: &mut FunctionBuilder,
    entry: usize,
    helper: &LibfuncHelper,
    registry: &ProgramRegistry,
    args: &Vec<usize>,
    ok_ty: usize,
    err_ty: usize,
) -> (r: Result<(), CompileError>)
    requires
        entry < old(b).f.blocks@.len(),
        old(b).f.n_values + 16 < usize::MAX,
        crate::program::types_acyclic(registry.program.types@),
    ensures
        final(b).f.blocks@.len() == old(b).f.blocks@.len(),
        r is Ok ==> args@.len() >= 2 && ok_ty < registry.program.types@.len() && err_ty
            < registry.program.types@.len() && spec_can_branch(
            *helper,
            old(b).f,
            entry,
            0,
            spec_ok_results(SyscallKind::ReplaceClass),
        ) && spec_can_branch(*helper, old(b).f, entry, 1, 3),
        args@.len() >= 2 && ok_ty < registry.program.types@.len() && err_ty
            < registry.program.types@.len() && spec_can_branch(
            *helper,
            old(b).f,
            entry,
            0,
            spec_ok_results(SyscallKind::ReplaceClass),
        ) && spec_can_branch(*helper, old(b).f, entry, 1, 3) && r is Err
            ==> r->Err_0 == CompileError::LayoutOverflow || r->Err_0 matches CompileError::UnsupportedType(_),
        r is Ok ==> (final(b).f.blocks@[entry as int].ops@[old(b).f.blocks@[entry as
            int].ops@.len() as int].kind matches OpKind::Syscall {
            kind: k,
            slot,
            result_layout,
            gas,
            system,
            args: sa,
        } && k == SyscallKind::ReplaceClass && slot == 5 && wf_layout(result_layout) && gas
            == args@[0] && system == args@[1] && sa@ == args@.skip(2)) && (final(
        b).f.blocks@[entry as int].term matches Some(
            Terminator::CondBr { cond, true_target, true_args, false_target, false_args },
        ) && cond == old(b).f.n_values + 4 && true_target == helper.branches@[0].block
            && true_args@ == spec_branch_args(
            helper.branches@[0].mapping@,
            spec_ok_result_ids(SyscallKind::ReplaceClass, old(b).f.n_values as usize, args@[1]),
        ) && false_target == helper.branches@[1].block && false_args@ == spec_branch_args(
            helper.branches@[1].mapping@,
            seq![(old(b).f.n_values as usize), args@[1], (old(b).f.n_values + 5) as usize],
        )),
{
    build_syscall(b, entry, helper, registry, args, SyscallKind::ReplaceClass, ok_ty, err_ty)
}

/// Emits the `library_call` syscall, through the uniform dispatch template (vtable slot 6):
/// the call forwards the remaining entry arguments, and the tag-zero test
/// steers branch 0 with the gas, system and payload values, branch 1 with
/// the gas, system and error payload.
pub fn build_library_call(
    b: &mut FunctionBuilder,
    entry: usize,
    helper: &LibfuncHelper,
    registry: &ProgramRegistry,
    args: &Vec<usize>,
    ok_ty: usize,
    err_ty: usize,
) -> (r: Result<(), CompileError>)
    requires
        entry < old(b).f.blocks@.len(),
        old(b).f.n_values + 16 < usize::MAX,
        crate::program::types_acyclic(registry.program.types@),
    ensures
        final(b).f.blocks@.len() == old(b).f.blocks@.len(),
        r is Ok ==> args@.len() >= 2 && ok_ty < registry.program.types@.len() && err_ty
            < registry.program.types@.len() && spec_can_branch(
            *helper,
            old(b).f,
            entry,
            0,
            spec_ok_results(SyscallKind::LibraryCall),
        ) && spec_can_branch(*helper, old(b).f, entry, 1, 3),
        args@.len() >= 2 && ok_ty < registry.program.types@.len() && err_ty
            < registry.program.types@.len() && spec_can_branch(
            *helper,
            old(b).f,
            entry,
            0,
            spec_ok_results(SyscallKind::LibraryCall),
        ) && spec_can_branch(*helper, old(b).f, entry, 1, 3) && r is Err
            ==> r->Err_0 == CompileError::LayoutOverflow || r->Err_0 matches CompileError::UnsupportedType(_),
        r is Ok ==> (final(b).f.blocks@[entry as int].ops@[old(b).f.blocks@[entry as
            int].ops@.len() as int].kind matches OpKind::Syscall {
            kind: k,
            slot,
            result_layout,
            gas,
            system,
            args: sa,
        } && k == SyscallKind::LibraryCall && slot == 6 && wf_layout(result_layout) && gas
            == args@[0] && system == args@[1] && sa@ == args@.skip(2)) && (final(
        b).f.blocks@[entry as int].term matches Some(
            Terminator::CondBr { cond, true_target, true_args, false_target, false_args },
        ) && cond == old(b).f.n_values + 4 && true_target == helper.branches@[0].block
            && true_args@ == spec_branch_args(
            helper.branches@[0].mapping@,
            spec_ok_result_ids(SyscallKind::LibraryCall, old(b).f.n_values as usize, args@[1]),
        ) && false_target == helper.branches@[1].block && false_args@ == spec_branch_args(
            helper.branches@[1].mapping@,
            seq![(old(b).f.n_values as usize), args@[1], (old(b).f.n_values + 5) as usize],
        )),
{
    build_syscall(b, entry, helper, registry, args, SyscallKind::LibraryCall, ok_ty, err_ty)
}

/// Emits the `call_contract` syscall, through the uniform dispatch template (vtable slot 7):
/// the call forwards the remaining entry arguments, and the tag-zero test
/// steers branch 0 with the gas, system and payload values, branch 1 with
/// the gas, system and error payload.
pub fn build_call_contract(
    b: &mut FunctionBuilder,
    entry: usize,
    helper: &LibfuncHelper,
    registry: &ProgramRegistry,
    args: &Vec<usize>,
    ok_ty: usize,
    err_ty: usize,
) -> (r: Result<(), CompileError>)
    requires
        entry < old(b).f.blocks@.len(),
        old(b).f.n_values + 16 < usize::MAX,
        crate::program::types_acyclic(registry.program.types@),
    ensures
        final(b).f.blocks@.len() == old(b).f.blocks@.len(),
        r is Ok ==> args@.len() >= 2 && ok_ty < registry.program.types@.len() && err_ty
            < registry.program.types@.len() && spec_can_branch(
            *helper,
            old(b).f,
            entry,
            0,
            spec_ok_results(SyscallKind::CallContract),
        ) && spec_can_branch(*helper, old(b).f, entry, 1, 3),
        args@.len() >= 2 && ok_ty < registry.program.types@.len() && err_ty
            < registry.program.types@.len() && spec_can_branch(
            *helper,
            old(b).f,
            entry,
            0,
            spec_ok_results(SyscallKind::CallContract),
        ) && spec_can_branch(*helper, old(b).f, entry, 1, 3) && r is Err
            ==> r->Err_0 == CompileError::LayoutOverflow || r->Err_0 matches CompileError::UnsupportedType(_),
        r is Ok ==> (final(b).f.blocks@[entry as int].ops@[old(b).f.blocks@[entry as
            int].ops@.len() as int].kind matches OpKind::Syscall {
            kind: k,
            slot,
            result_layout,
            gas,
            system,
            args: sa,
        } && k == SyscallKind::CallContract && slot == 7 && wf_layout(result_layout) && gas
            == args@[0] && system == args@[1] && sa@ == args@.skip(2)) && (final(
        b).f.blocks@[entry as int].term matches Some(
            Terminator::CondBr { cond, true_target, true_args, false_target, false_args },
        ) && cond == old(b).f.n_values + 4 && true_target == helper.branches@[0].block
            && true_args@ == spec_branch_args(
            helper.branches@[0].mapping@,
            spec_ok_result_ids(SyscallKind::CallContract, old(b).f.n_values as usize, args@[1]),
        ) && false_target == helper.branches@[1].block && false_args@ == spec_branch_args(
            helper.branches@[1].mapping@,
            seq![(old(b).f.n_values as usize), args@[1], (old(b).f.n_values + 5) as usize],
        )),
{
    build_syscall(b, entry, helper, registry, args, SyscallKind::CallContract, ok_ty, err_ty)
}

/// Emits the `storage_read` syscall, through the uniform dispatch template (vtable slot 8):
/// the call forwards the remaining entry arguments, and the tag-zero test
/// steers branch 0 with the gas, system and payload values, branch 1 with
/// the gas, system and error payload.
pub fn build_storage_read(
    b: &mut FunctionBuilder,
    entry: usize,
    helper: &LibfuncHelper,
    registry: &ProgramRegistry,
    args: &Vec<usize>,
    ok_ty: usize,
    err_ty: usize,
) -> (r: Result<(), CompileError>)
    requires
        entry < old(b).f.blocks@.len(),
        old(b).f.n_values + 16 < usize::MAX,
        crate::program::types_acyclic(registry.program.types@),
    ensures
        final(b).f.blocks@.len() == old(b).f.blocks@.len(),
        r is Ok ==> args@.len() >= 2 && ok_ty < registry.program.types@.len() && err_ty
            < registry.program.types@.len() && spec_can_branch(
            *helper,
            old(b).f,
            entry,
            0,
            spec_ok_results(SyscallKind::StorageRead),
        ) && spec_can_branch(*helper, old(b).f, entry, 1, 3),
        args@.len() >= 2 && ok_ty < registry.program.types@.len() && err_ty
            < registry.program.types@.len() && spec_can_branch(
            *helper,
            old(b).f,
            entry,
            0,
            spec_ok_results(SyscallKind::StorageRead),
        ) && spec_can_branch(*helper, old(b).f, entry, 1, 3) && r is Err
            ==> r->Err_0 == CompileError::LayoutOverflow || r->Err_0 matches CompileError::UnsupportedType(_),
        r is Ok ==> (final(b).f.blocks@[entry as int].ops@[old(b).f.blocks@[entry as
            int].ops@.len() as int].kind matches OpKind::Syscall {
            kind: k,
            slot,
            result_layout,
            gas,
            system,
            args: sa,
        } && k == SyscallKind::StorageRead && slot == 8 && wf_layout(result_layout) && gas
            == args@[0] && system == args@[1] && sa@ == args@.skip(2)) && (final(
        b).f.blocks@[entry as int].term matches Some(
            Terminator::CondBr { cond, true_target, true_args, false_target, false_args },
        ) && cond == old(b).f.n_values + 4 && true_target == helper.branches@[0].block
            && true_args@ == spec_branch_args(
            helper.branches@[0].mapping@,
            spec_ok_result_ids(SyscallKind::StorageRead, old(b).f.n_values as usize, args@[1]),
        ) && false_target == helper.branches@[1].block && false_args@ == spec_branch_args(
            helper.branches@[1].mapping@,
            seq![(old(b).f.n_values as usize), args@[1], (old(b).f.n_values + 5) as usize],
        )),
{
    build_syscall(b, entry, helper, registry, args, SyscallKind::StorageRead, ok_ty, err_ty)
}

/// Emits the `storage_write` syscall, through the uniform dispatch template (vtable slot 9):
/// the call forwards the remaining entry arguments, and the tag-zero test
/// steers branch 0 with the gas, system and payload values, branch 1 with
/// the gas, system and error payload.
pub fn build_storage_write(
    b: &mut FunctionBuilder,
    entry: usize,
    helper: &LibfuncHelper,
    registry: &ProgramRegistry,
    args: &Vec<usize>,
    ok_ty: usize,
    err_ty: usize,
) -> (r: Result<(), CompileError>)
    requires
        entry < old(b).f.blocks@.len(),
        old(b).f.n_values + 16 < usize::MAX,
        crate::program::types_acyclic(registry.program.types@),
    ensures
        final(b).f.blocks@.len() == old(b).f.blocks@.len(),
        r is Ok ==> args@.len() >= 2 && ok_ty < registry.program.types@.len() && err_ty
            < registry.program.types@.len() && spec_can_branch(
            *helper,
            old(b).f,
            entry,
            0,
            spec_ok_results(SyscallKind::StorageWrite),
        ) && spec_can_branch(*helper, old(b).f, entry, 1, 3),
        args@.len() >= 2 && ok_ty < registry.program.types@.len() && err_ty
            < registry.program.types@.len() && spec_can_branch(
            *helper,
            old(b).f,
            entry,
            0,
            spec_ok_results(SyscallKind::StorageWrite),
        ) && spec_can_branch(*helper, old(b).f, entry, 1, 3) && r is Err
            ==> r->Err_0 == CompileError::LayoutOverflow || r->Err_0 matches CompileError::UnsupportedType(_),
        r is Ok ==> (final(b).f.blocks@[entry as int].ops@[old(b).f.blocks@[entry as
            int].ops@.len() as int].kind matches OpKind::Syscall {
            kind: k,
            slot,
            result_layout,
            gas,
            system,
            args: sa,
        } && k == SyscallKind::StorageWrite && slot == 9 && wf_layout(result_layout) && gas
            == args@[0] && system == args@[1] && sa@ == args@.skip(2)) && (final(
        b).f.blocks@[entry as int].term matches Some(
            Terminator::CondBr { cond, true_target, true_args, false_target, false_args },
        ) && cond == old(b).f.n_values + 4 && true_target == helper.branches@[0].block
            && true_args@ == spec_branch_args(
            helper.branches@[0].mapping@,
            spec_ok_result_ids(SyscallKind::StorageWrite, old(b).f.n_values as usize, args@[1]),
        ) && false_target == helper.branches@[1].block && false_args@ == spec_branch_args(
            helper.branches@[1].mapping@,
            seq![(old(b).f.n_values as usize), args@[1], (old(b).f.n_values + 5) as usize],
        )),
{
    build_syscall(b, entry, helper, registry, args, SyscallKind::StorageWrite, ok_ty, err_ty)
}

/// Emits the `emit_event` syscall, through the uniform dispatch template (vtable slot 10):
/// the call forwards the remaining entry arguments, and the tag-zero test
/// steers branch 0 with the gas, system and payload values, branch 1 with
/// the gas, system and error payload.
pub fn build_emit_event(
    b: &mut FunctionBuilder,
    entry: usize,
    helper: &LibfuncHelper,
    registry: &ProgramRegistry,
    args: &Vec<usize>,
    ok_ty: usize,
    err_ty: usize,
) -> (r: Result<(), CompileError>)
    requires
        entry < old(b).f.blocks@.len(),
        old(b).f.n_values + 16 < usize::MAX,
        crate::program::types_acyclic(registry.program.types@),
    ensures
        final(b).f.blocks@.len() == old(b).f.blocks@.len(),
        r is Ok ==> args@.len() >= 2 && ok_ty < registry.program.types@.len() && err_ty
            < registry.program.types@.len() && spec_can_branch(
            *helper,
            old(b).f,
            entry,
            0,
            spec_ok_results(SyscallKind::EmitEvent),
        ) && spec_can_branch(*helper, old(b).f, entry, 1, 3),
        args@.len() >= 2 && ok_ty < registry.program.types@.len() && err_ty
            < registry.program.types@.len() && spec_can_branch(
            *helper,
            old(b).f,
            entry,
            0,
            spec_ok_results(SyscallKind::EmitEvent),
        ) && spec_can_branch(*helper, old(b).f, entry, 1, 3) && r is Err
            ==> r->Err_0 == CompileError::LayoutOverflow || r->Err_0 matches CompileError::UnsupportedType(_),
        r is Ok ==> (final(b).f.blocks@[entry as int].ops@[old(b).f.blocks@[entry as
            int].ops@.len() as int].kind matches OpKind::Syscall {
            kind: k,
            slot,
            result_layout,
            gas,
            system,
            args: sa,
        } && k == SyscallKind::EmitEvent && slot == 10 && wf_layout(result_layout) && gas
            == args@[0] && system == args@[1] && sa@ == args@.skip(2)) && (final(
        b).f.blocks@[entry as int].term matches Some(
            Terminator::CondBr { cond, true_target, true_args, false_target, false_args },
        ) && cond == old(b).f.n_values + 4 && true_target == helper.branches@[0].block
            && true_args@ == spec_branch_args(
            helper.branches@[0].mapping@,
            spec_ok_result_ids(SyscallKind::EmitEvent, old(b).f.n_values as usize, args@[1]),
        ) && false_target == helper.branches@[1].block && false_args@ == spec_branch_args(
            helper.branches@[1].mapping@,
            seq![(old(b).f.n_values as usize), args@[1], (old(b).f.n_values + 5) as usize],
        )),
{
    build_syscall(b, entry, helper, registry, args, SyscallKind::EmitEvent, ok_ty, err_ty)
}

/// Emits the `send_message_to_l1` syscall, through the uniform dispatch template (vtable slot 11):
/// the call forwards the remaining entry arguments, and the tag-zero test
/// steers branch 0 with the gas, system and payload values, branch 1 with
/// the gas, system and error payload.
pub fn build_send_message_to_l1(
    b: &mut FunctionBuilder,
    entry: usize,
    helper: &LibfuncHelper,
    registry: &ProgramRegistry,
    args: &Vec<usize>,
    ok_ty: usize,
    err_ty: usize,
) -> (r: Result<(), CompileError>)
    requires
        entry < old(b).f.blocks@.len(),
        old(b).f.n_values + 16 < usize::MAX,
        crate::program::types_acyclic(registry.program.types@),
    ensures
        final(b).f.blocks@.len() == old(b).f.blocks@.len(),
        r is Ok ==> args@.len() >= 2 && ok_ty < registry.program.types@.len() && err_ty
            < registry.program.types@.len() && spec_can_branch(
            *helper,
            old(b).f,
            entry,
            0,
            spec_ok_results(SyscallKind::SendMessageToL1),
        ) && spec_can_branch(*helper, old(b).f, entry, 1, 3),
        args@.len() >= 2 && ok_ty < registry.program.types@.len() && err_ty
            < registry.program.types@.len() && spec_can_branch(
            *helper,
            old(b).f,
            entry,
            0,
            spec_ok_results(SyscallKind::SendMessageToL1),
        ) && spec_can_branch(*helper, old(b).f, entry, 1, 3) && r is Err
            ==> r->Err_0 == CompileError::LayoutOverflow || r->Err_0 matches CompileError::UnsupportedType(_),
        r is Ok ==> (final(b).f.blocks@[entry as int].ops@[old(b).f.blocks@[entry as
            int].ops@.len() as int].kind matches OpKind::Syscall {
            kind: k,
            slot,
            result_layout,
            gas,
            system,
            args: sa,
        } && k == SyscallKind::SendMessageToL1 && slot == 11 && wf_layout(result_layout) && gas
            == args@[0] && system == args@[1] && sa@ == args@.skip(2)) && (final(
        b).f.blocks@[entry as int].term matches Some(
            Terminator::CondBr { cond, true_target, true_args, false_target, false_args },
        ) && cond == old(b).f.n_values + 4 && true_target == helper.branches@[0].block
            && true_args@ == spec_branch_args(
            helper.branches@[0].mapping@,
            spec_ok_result_ids(SyscallKind::SendMessageToL1, old(b).f.n_values as usize, args@[1]),
        ) && false_target == helper.branches@[1].block && false_args@ == spec_branch_args(
            helper.branches@[1].mapping@,
            seq![(old(b).f.n_values as usize), args@[1], (old(b).f.n_values + 5) as usize],
        )),
{
    build_syscall(b, entry, helper, registry, args, SyscallKind::SendMessageToL1, ok_ty, err_ty)
}

/// Emits the `keccak` syscall, through the uniform dispatch template (vtable slot 12):
/// the call forwards the remaining entry arguments, and the tag-zero test
/// steers branch 0 with the gas, system and payload values, branch 1 with
/// the gas, system and error payload.
pub fn build_keccak(
    b: &mut FunctionBuilder,
    entry: usize,
    helper: &LibfuncHelper,
    registry: &ProgramRegistry,
    args: &Vec<usize>,
    ok_ty: usize,
    err_ty: usize,
) -> (r: Result<(), CompileError>)
    requires
        entry < old(b).f.blocks@.len(),
        old(b).f.n_values + 16 < usize::MAX,
        crate::program::types_acyclic(registry.program.types@),
    ensures
        final(b).f.blocks@.len() == old(b).f.blocks@.len(),
        r is Ok ==> args@.len() >= 2 && ok_ty < registry.program.types@.len() && err_ty
            < registry.program.types@.len() && spec_can_branch(
            *helper,
            old(b).f,
            entry,
            0,
            spec_ok_results(SyscallKind::Keccak),
        ) && spec_can_branch(*helper, old(b).f, entry, 1, 3),
        args@.len() >= 2 && ok_ty < registry.program.types@.len() && err_ty
            < registry.program.types@.len() && spec_can_branch(
            *helper,
            old(b).f,
            entry,
            0,
            spec_ok_results(SyscallKind::Keccak),
        ) && spec_can_branch(*helper, old(b).f, entry, 1, 3) && r is Err
            ==> r->Err_0 == CompileError::LayoutOverflow || r->Err_0 matches CompileError::UnsupportedType(_),
        r is Ok ==> (final(b).f.blocks@[entry as int].ops@[old(b).f.blocks@[entry as
            int].ops@.len() as int].kind matches OpKind::Syscall {
            kind: k,
            slot,
            result_layout,
            gas,
            system,
            args: sa,
        } && k == SyscallKind::Keccak && slot == 12 && wf_layout(result_layout) && gas
            == args@[0] && system == args@[1] && sa@ == args@.skip(2)) && (final(
        b).f.blocks@[entry as int].term matches Some(
            Terminator::CondBr { cond, true_target, true_args, false_target, false_args },
        ) && cond == old(b).f.n_values + 4 && true_target == helper.branches@[0].block
            && true_args@ == spec_branch_args(
            helper.branches@[0].mapping@,
            spec_ok_result_ids(SyscallKind::Keccak, old(b).f.n_values as usize, args@[1]),
        ) && false_target == helper.branches@[1].block && false_args@ == spec_branch_args(
            helper.branches@[1].mapping@,
            seq![(old(b).f.n_values as usize), args@[1], (old(b).f.n_values + 5) as usize],
        )),
{
    build_syscall(b, entry, helper, registry, args, SyscallKind::Keccak, ok_ty, err_ty)
}

/// Emits the `sha256_process_block` syscall, through the uniform dispatch template (vtable slot 13):
/// the call forwards the remaining entry arguments, and the tag-zero test
/// steers branch 0 with the gas, system and payload values, branch 1 with
/// the gas, system and error payload.
pub fn build_sha256_process_block_syscall(
    b: &mut FunctionBuilder,
    entry: usize,
    helper: &LibfuncHelper,
    registry: &ProgramRegistry,
    args: &Vec<usize>,
    ok_ty: usize,
    err_ty: usize,
) -> (r: Result<(), CompileError>)
    requires
        entry < old(b).f.blocks@.len(),
        old(b).f.n_values + 16 < usize::MAX,
        crate::program::types_acyclic(registry.program.types@),
    ensures
        final(b).f.blocks@.len() == old(b).f.blocks@.len(),
        r is Ok ==> args@.len() >= 2 && ok_ty < registry.program.types@.len() && err_ty
            < registry.program.types@.len() && spec_can_branch(
            *helper,
            old(b).f,
            entry,
            0,
            spec_ok_results(SyscallKind::Sha256ProcessBlock),
        ) && spec_can_branch(*helper, old(b).f, entry, 1, 3),
        args@.len() >= 2 && ok_ty < registry.program.types@.len() && err_ty
            < registry.program.types@.len() && spec_can_branch(
            *helper,
            old(b).f,
            entry,
            0,
            spec_ok_results(SyscallKind::Sha256ProcessBlock),
        ) && spec_can_branch(*helper, old(b).f, entry, 1, 3) && r is Err
            ==> r->Err_0 == CompileError::LayoutOverflow || r->Err_0 matches CompileError::UnsupportedType(_),
        r is Ok ==> (final(b).f.blocks@[entry as int].ops@[old(b).f.blocks@[entry as
            int].ops@.len() as int].kind matches OpKind::Syscall {
            kind: k,
            slot,
            result_layout,
            gas,
            system,
            args: sa,
        } && k == SyscallKind::Sha256ProcessBlock && slot == 13 && wf_layout(result_layout) && gas
            == args@[0] && system == args@[1] && sa@ == args@.skip(2)) && (final(
        b).f.blocks@[entry as int].term matches Some(
            Terminator::CondBr { cond, true_target, true_args, false_target, false_args },
        ) && cond == old(b).f.n_values + 4 && true_target == helper.branches@[0].block
            && true_args@ == spec_branch_args(
            helper.branches@[0].mapping@,
            spec_ok_result_ids(SyscallKind::Sha256ProcessBlock, old(b).f.n_values as usize, args@[1]),
        ) && false_target == helper.branches@[1].block && false_args@ == spec_branch_args(
            helper.branches@[1].mapping@,
            seq![(old(b).f.n_values as usize), args@[1], (old(b).f.n_values + 5) as usize],
        )),
{
    build_syscall(b, entry, helper, registry, args, SyscallKind::Sha256ProcessBlock, ok_ty, err_ty)
}

} // verus!
