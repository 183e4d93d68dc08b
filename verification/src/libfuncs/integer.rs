//! Machine-integer libfuncs for every width, signed and unsigned:
//! constants, overflow-checked arithmetic, comparisons, widening
//! multiplication and the conversions to and from the field element.

use crate::error::CompileError;
use crate::libfuncs::{spec_branch_args, spec_can_branch, LibfuncHelper};
use crate::mir::{FunctionBuilder, OpKind, Terminator};
use crate::program::{IntOperator, IntTy};
use vstd::prelude::*;

verus! {

/// Emits an integer constant libfunc (`u8_const`, `i8_const`, ...): a
/// single constant of the embedded literal, published on branch 0.
pub fn build_const(
    b: &mut FunctionBuilder,
    entry: usize,
    helper: &LibfuncHelper,
    ty: IntTy,
    value: i128,
) -> (r: Result<(), CompileError>)
    requires
        entry < old(b).f.blocks@.len(),
        old(b).f.n_values + 1 < usize::MAX,
    ensures
        final(b).f.blocks@.len() == old(b).f.blocks@.len(),
        r is Ok <==> spec_can_branch(*helper, old(b).f, entry, 0, 1),
        r is Ok ==> final(b).f.blocks@[entry as int].ops@.len() == old(b).f.blocks@[entry as
            int].ops@.len() + 1 && (final(b).f.blocks@[entry as int].ops@.last().kind
            matches OpKind::ConstInt { ty: t, value: v } && t == ty && v == value)
            && final(b).f.blocks@[entry as int].ops@.last().dests@ == seq![old(b).f.n_values]
            && (final(b).f.blocks@[entry as int].term
            matches Some(Terminator::Br { target, args }) && target == helper.branches@[0].block
            && args@ == spec_branch_args(helper.branches@[0].mapping@, seq![old(b).f.n_values])),
{
    let dests = b.push_op(entry, OpKind::ConstInt { ty, value }, 1);
    proof {
        assert(dests@ =~= seq![old(b).f.n_values]);
    }
    helper.br(b, entry, 0, &dests)
}

/// Emits an overflow-checked operation (`u*_overflowing_add`/`_sub`,
/// `i*_overflowing_add`/`_sub`): the overflow intrinsic yields the wrapped
/// value and the overflow bit, and the branches follow the libfunc
/// contract: `(ok, overflow)` for unsigned widths, `(ok, underflow,
/// overflow)` for signed widths, with the range-check builtin threaded
/// through every branch.
pub fn build_operation(
    b: &mut FunctionBuilder,
    entry: usize,
    helper: &LibfuncHelper,
    args: &Vec<usize>,
    ty: IntTy,
    operator: IntOperator,
) -> (r: Result<(), CompileError>)
    requires
        entry < old(b).f.blocks@.len(),
        old(b).f.n_values + 16 < usize::MAX,
        old(b).f.blocks@.len() + 2 < usize::MAX,
    ensures
        r is Ok <==> args@.len() >= 3 && old(b).f.blocks@[entry as int].term is None && (if !ty.spec_signed() {
            spec_can_branch(*helper, old(b).f, entry, 0, 2) && spec_can_branch(
                *helper,
                old(b).f,
                entry,
                1,
                2,
            )
        } else {
            spec_can_branch(*helper, old(b).f, entry, 0, 2) && spec_can_branch(
                *helper,
                old(b).f,
                entry,
                1,
                2,
            ) && spec_can_branch(*helper, old(b).f, entry, 2, 2)
        }),
        r is Ok ==> (final(b).f.blocks@[entry as int].ops@[old(b).f.blocks@[entry as
            int].ops@.len() as int].kind matches OpKind::IntOp { ty: t, op, lhs, rhs } && t == ty
            && op == operator && lhs == args@[1] && rhs == args@[2]),
        r is Ok && !ty.spec_signed() ==> final(b).f.blocks@.len() == old(b).f.blocks@.len() && (
        final(b).f.blocks@[entry as int].term matches Some(
            Terminator::CondBr { cond, true_target, true_args, false_target, false_args },
        ) && cond == old(b).f.n_values + 1 && true_target == helper.branches@[1].block
            && true_args@ == spec_branch_args(
            helper.branches@[1].mapping@,
            seq![args@[0], (old(b).f.n_values as usize)],
        ) && false_target == helper.branches@[0].block && false_args@ == spec_branch_args(
            helper.branches@[0].mapping@,
            seq![args@[0], (old(b).f.n_values as usize)],
        )),
        r is Ok && ty.spec_signed() ==> final(b).f.blocks@.len() == old(b).f.blocks@.len() + 2 && (
        final(b).f.blocks@[entry as int].term matches Some(
            Terminator::CondBr { cond, true_target, false_target, .. },
        ) && cond == old(b).f.n_values + 1 && true_target == old(b).f.blocks@.len() + 1
            && false_target == old(b).f.blocks@.len()) && (final(b).f.blocks@[old(b).f.blocks@.len() as int].term matches Some(Terminator::Br { target, args: ok_args })
            && target == helper.branches@[0].block && ok_args@ == spec_branch_args(
            helper.branches@[0].mapping@,
            seq![args@[0], (old(b).f.n_values as usize)],
        )) && (final(b).f.blocks@[old(b).f.blocks@.len() as int + 1].term matches Some(
            Terminator::CondBr { cond: mc, true_target: ut, false_target: ot, .. },
        ) && mc == old(b).f.n_values + 3 && ut == helper.branches@[1].block && ot
            == helper.branches@[2].block),
{
    if args.len() < 3 {
        return Err(CompileError::InvariantViolation);
    }
    let range_check = args[0];
    let lhs = args[1];
    let rhs = args[2];
    let op_dests = b.push_op(entry, OpKind::IntOp { ty, op: operator, lhs, rhs }, 2);
    let value = op_dests[0];
    let flag = op_dests[1];
    let mut results: Vec<usize> = Vec::new();
    results.push(range_check);
    results.push(value);
    proof {
        assert(results@ =~= seq![args@[0], (old(b).f.n_values as usize)]);
    }
    if !ty.signed() {
        // Unsigned: branch 0 on success, branch 1 on overflow.
        return helper.cond_br(b, entry, flag, (1, 0), &results, &results);
    }
    // Signed: decide between underflow and overflow from the sign of the
    // right operand (an overflowing addition of a negative underflows; an
    // overflowing subtraction of a positive underflows).
    let zero = b.push_op(entry, OpKind::ConstInt { ty, value: 0 }, 1);
    let toward_minus = match operator {
        IntOperator::OverflowingAdd => b.push_op(
            entry,
            OpKind::IntLt { ty, lhs: rhs, rhs: zero[0] },
            1,
        ),
        IntOperator::OverflowingSub => b.push_op(
            entry,
            OpKind::IntLt { ty, lhs: zero[0], rhs },
            1,
        ),
    };
    let (ok_block, _p1) = b.append_block(0);
    let (ovf_block, _p2) = b.append_block(0);
    match b.terminate(
        entry,
        Terminator::CondBr {
            cond: flag,
            true_target: ovf_block,
            true_args: Vec::new(),
            false_target: ok_block,
            false_args: Vec::new(),
        },
    ) {
        Ok(_) => {},
        Err(e) => {
            return Err(e);
        },
    }
    match helper.br(b, ok_block, 0, &results) {
        Ok(_) => {},
        Err(e) => {
            return Err(e);
        },
    }
    helper.cond_br(b, ovf_block, toward_minus[0], (1, 2), &results, &results)
}

/// Emits the equality libfunc: branch 1 when equal, branch 0 otherwise,
/// neither carrying a payload.
pub fn build_equal(
    b: &mut FunctionBuilder,
    entry: usize,
    helper: &LibfuncHelper,
    args: &Vec<usize>,
    ty: IntTy,
) -> (r: Result<(), CompileError>)
    requires
        entry < old(b).f.blocks@.len(),
        old(b).f.n_values + 1 < usize::MAX,
    ensures
        final(b).f.blocks@.len() == old(b).f.blocks@.len(),
        r is Ok <==> args@.len() >= 2 && spec_can_branch(*helper, old(b).f, entry, 0, 0)
            && spec_can_branch(*helper, old(b).f, entry, 1, 0),
        r is Ok ==> final(b).f.blocks@[entry as int].ops@.len() == old(b).f.blocks@[entry as
            int].ops@.len() + 1 && (final(b).f.blocks@[entry as int].ops@.last().kind
            matches OpKind::IntEq { ty: t, lhs, rhs } && t == ty && lhs == args@[0] && rhs
            == args@[1]) && (final(b).f.blocks@[entry as int].term matches Some(
            Terminator::CondBr { cond, true_target, true_args, false_target, false_args },
        ) && cond == old(b).f.n_values && true_target == helper.branches@[1].block && true_args@
            == spec_branch_args(helper.branches@[1].mapping@, Seq::empty()) && false_target
            == helper.branches@[0].block && false_args@ == spec_branch_args(
            helper.branches@[0].mapping@,
            Seq::empty(),
        )),
{
    if args.len() < 2 {
        return Err(CompileError::InvariantViolation);
    }
    let cond = b.push_op(entry, OpKind::IntEq { ty, lhs: args[0], rhs: args[1] }, 1);
    let empty_t: Vec<usize> = Vec::new();
    let empty_f: Vec<usize> = Vec::new();
    proof {
        assert(empty_t@ =~= Seq::<usize>::empty());
        assert(empty_f@ =~= Seq::<usize>::empty());
    }
    helper.cond_br(b, entry, cond[0], (1, 0), &empty_t, &empty_f)
}

/// Emits the zero-test libfunc: a comparison against a zero constant, then
/// branch 0 when zero (no payload) and branch 1 otherwise, republishing the
/// non-zero value.
pub fn build_is_zero(
    b: &mut FunctionBuilder,
    entry: usize,
    helper: &LibfuncHelper,
    args: &Vec<usize>,
    ty: IntTy,
) -> (r: Result<(), CompileError>)
    requires
        entry < old(b).f.blocks@.len(),
        old(b).f.n_values + 2 < usize::MAX,
    ensures
        final(b).f.blocks@.len() == old(b).f.blocks@.len(),
        r is Ok <==> args@.len() >= 1 && spec_can_branch(*helper, old(b).f, entry, 0, 0)
            && spec_can_branch(*helper, old(b).f, entry, 1, 1),
        r is Ok ==> final(b).f.blocks@[entry as int].ops@.len() == old(b).f.blocks@[entry as
            int].ops@.len() + 2 && (final(b).f.blocks@[entry as int].ops@.last().kind
            matches OpKind::IntEq { ty: t, lhs, rhs } && t == ty && lhs == args@[0] && rhs == old(b).f.n_values) && (final(b).f.blocks@[entry as int].term matches Some(
            Terminator::CondBr { cond, true_target, true_args, false_target, false_args },
        ) && cond == old(b).f.n_values + 1 && true_target == helper.branches@[0].block
            && true_args@ == spec_branch_args(helper.branches@[0].mapping@, Seq::empty())
            && false_target == helper.branches@[1].block && false_args@ == spec_branch_args(
            helper.branches@[1].mapping@,
            seq![args@[0]],
        )),
{
    if args.len() < 1 {
        return Err(CompileError::InvariantViolation);
    }
    let zero = b.push_op(entry, OpKind::ConstInt { ty, value: 0 }, 1);
    let cond = b.push_op(entry, OpKind::IntEq { ty, lhs: args[0], rhs: zero[0] }, 1);
    let empty: Vec<usize> = Vec::new();
    let mut nonzero: Vec<usize> = Vec::new();
    nonzero.push(args[0]);
    proof {
        assert(empty@ =~= Seq::<usize>::empty());
        assert(nonzero@ =~= seq![args@[0]]);
    }
    helper.cond_br(b, entry, cond[0], (0, 1), &empty, &nonzero)
}

/// Emits the widening multiplication: both operands are zero-extended to
/// the double width and multiplied; published on branch 0.  The 128-bit
/// widths have no double-width type and refuse the compilation.
pub fn build_widemul(
    b: &mut FunctionBuilder,
    entry: usize,
    helper: &LibfuncHelper,
    args: &Vec<usize>,
    ty: IntTy,
) -> (r: Result<(), CompileError>)
    requires
        entry < old(b).f.blocks@.len(),
        old(b).f.n_values + 1 < usize::MAX,
    ensures
        final(b).f.blocks@.len() == old(b).f.blocks@.len(),
        r is Ok <==> !(ty is U128) && !(ty is I128) && args@.len() >= 2 && spec_can_branch(
            *helper,
            old(b).f,
            entry,
            0,
            1,
        ),
        (ty is U128 || ty is I128) ==> (r matches Err(CompileError::UnsupportedLibfunc(_))),
        r is Ok ==> final(b).f.blocks@[entry as int].ops@.len() == old(b).f.blocks@[entry as
            int].ops@.len() + 1 && (final(b).f.blocks@[entry as int].ops@.last().kind
            matches OpKind::IntWideMul { ty: t, lhs, rhs } && t == ty && lhs == args@[0] && rhs
            == args@[1]) && (final(b).f.blocks@[entry as int].term matches Some(
            Terminator::Br { target, args: ta },
        ) && target == helper.branches@[0].block && ta@ == spec_branch_args(
            helper.branches@[0].mapping@,
            seq![old(b).f.n_values],
        )),
{
    if matches!(ty, IntTy::U128) || matches!(ty, IntTy::I128) {
        return Err(CompileError::UnsupportedLibfunc("u128_wide_mul"));
    }
    if args.len() < 2 {
        return Err(CompileError::InvariantViolation);
    }
    let dests = b.push_op(entry, OpKind::IntWideMul { ty, lhs: args[0], rhs: args[1] }, 1);
    proof {
        assert(dests@ =~= seq![old(b).f.n_values]);
    }
    helper.br(b, entry, 0, &dests)
}

/// Emits the conversion into the field: the integer's bit pattern is
/// zero-extended into a felt; published on branch 0.
pub fn build_to_felt252(
    b: &mut FunctionBuilder,
    entry: usize,
    helper: &LibfuncHelper,
    args: &Vec<usize>,
    ty: IntTy,
) -> (r: Result<(), CompileError>)
    requires
        entry < old(b).f.blocks@.len(),
        old(b).f.n_values + 1 < usize::MAX,
    ensures
        final(b).f.blocks@.len() == old(b).f.blocks@.len(),
        r is Ok <==> args@.len() >= 1 && spec_can_branch(*helper, old(b).f, entry, 0, 1),
        r is Ok ==> final(b).f.blocks@[entry as int].ops@.len() == old(b).f.blocks@[entry as
            int].ops@.len() + 1 && (final(b).f.blocks@[entry as int].ops@.last().kind
            matches OpKind::IntToFelt252 { ty: t, arg } && t == ty && arg == args@[0]) && (final(b).f.blocks@[entry as int].term matches Some(Terminator::Br { target, args: ta }) && target
            == helper.branches@[0].block && ta@ == spec_branch_args(
            helper.branches@[0].mapping@,
            seq![old(b).f.n_values],
        )),
{
    if args.len() < 1 {
        return Err(CompileError::InvariantViolation);
    }
    let dests = b.push_op(entry, OpKind::IntToFelt252 { ty, arg: args[0] }, 1);
    proof {
        assert(dests@ =~= seq![old(b).f.n_values]);
    }
    helper.br(b, entry, 0, &dests)
}

/// Emits the range-checked conversion out of the field: the range-check
/// builtin is bumped, the felt compared against `2^width`, and the entry
/// forks into two fresh blocks: in range the value is truncated and
/// published on branch 0 with the builtin, out of range branch 1 gets the
/// builtin alone.
pub fn build_from_felt252(
    b: &mut FunctionBuilder,
    entry: usize,
    helper: &LibfuncHelper,
    args: &Vec<usize>,
    ty: IntTy,
) -> (r: Result<(), CompileError>)
    requires
        entry < old(b).f.blocks@.len(),
        old(b).f.n_values + 16 < usize::MAX,
        old(b).f.blocks@.len() + 2 < usize::MAX,
    ensures
        r is Ok <==> args@.len() >= 2 && old(b).f.blocks@[entry as int].term is None && 0
            < helper.branches@.len() && crate::libfuncs::branch_args_ok(
            helper.branches@[0].mapping@,
            2,
        ) && 1 < helper.branches@.len() && crate::libfuncs::branch_args_ok(
            helper.branches@[1].mapping@,
            1,
        ),
        r is Ok ==> final(b).f.blocks@.len() == old(b).f.blocks@.len() + 2 && final(b).f.blocks@[entry as int].ops@.len() == old(b).f.blocks@[entry as int].ops@.len() + 3 && (
        final(b).f.blocks@[entry as int].ops@[old(b).f.blocks@[entry as int].ops@.len() as
            int].kind matches OpKind::IncCounter { arg, amount } && arg == args@[0] && amount
            == 1) && (final(b).f.blocks@[entry as int].ops@[old(b).f.blocks@[entry as
            int].ops@.len() as int + 1].kind matches OpKind::ConstFelt { value } && value@
            == vstd::arithmetic::power2::pow2(ty.spec_bits() as nat)) && (
        final(b).f.blocks@[entry as int].ops@.last().kind matches OpKind::FeltLt { lhs, rhs }
            && lhs == args@[1] && rhs == old(b).f.n_values + 1) && (final(b).f.blocks@[entry as
            int].term matches Some(Terminator::CondBr { cond, true_target, false_target, .. })
            && cond == old(b).f.n_values + 2 && true_target == old(b).f.blocks@.len()
            && false_target == old(b).f.blocks@.len() + 1) && (final(b).f.blocks@[old(
            b).f.blocks@.len() as int].ops@.len() == 1 && (final(b).f.blocks@[old(
            b).f.blocks@.len() as int].ops@.last().kind matches OpKind::FeltToInt { ty: tt, arg }
            && tt == ty && arg == args@[1])) && (final(b).f.blocks@[old(b).f.blocks@.len() as int].term matches Some(Terminator::Br { target, args: ok_args })
            && target == helper.branches@[0].block && ok_args@ == spec_branch_args(
            helper.branches@[0].mapping@,
            seq![(old(b).f.n_values as usize), (old(b).f.n_values + 3) as usize],
        )) && (final(b).f.blocks@[old(b).f.blocks@.len() as int + 1].term matches Some(
            Terminator::Br { target: et, args: err_args },
        ) && et == helper.branches@[1].block && err_args@ == spec_branch_args(
            helper.branches@[1].mapping@,
            seq![(old(b).f.n_values as usize)],
        )),
{
    if args.len() < 2 {
        return Err(CompileError::InvariantViolation);
    }
    let range_check = args[0];
    let value = args[1];
    let rc2 = b.push_op(entry, OpKind::IncCounter { arg: range_check, amount: 1 }, 1);
    let limit_felt = crate::felt252::Felt252::pow2_felt(ty.bits());
    let limit = b.push_op(entry, OpKind::ConstFelt { value: limit_felt }, 1);
    let in_range = b.push_op(entry, OpKind::FeltLt { lhs: value, rhs: limit[0] }, 1);
    let (ok_block, _p1) = b.append_block(0);
    let (err_block, _p2) = b.append_block(0);
    match b.terminate(
        entry,
        Terminator::CondBr {
            cond: in_range[0],
            true_target: ok_block,
            true_args: Vec::new(),
            false_target: err_block,
            false_args: Vec::new(),
        },
    ) {
        Ok(_) => {},
        Err(e) => {
            return Err(e);
        },
    }
    let truncated = b.push_op(ok_block, OpKind::FeltToInt { ty, arg: value }, 1);
    let mut ok_results: Vec<usize> = Vec::new();
    ok_results.push(rc2[0]);
    ok_results.push(truncated[0]);
    proof {
        assert(ok_results@ =~= seq![(old(b).f.n_values as usize), (old(b).f.n_values + 3) as usize]);
    }
    match helper.br(b, ok_block, 0, &ok_results) {
        Ok(_) => {},
        Err(e) => {
            return Err(e);
        },
    }
    let mut err_results: Vec<usize> = Vec::new();
    err_results.push(rc2[0]);
    proof {
        assert(err_results@ =~= seq![(old(b).f.n_values as usize)]);
    }
    helper.br(b, err_block, 1, &err_results)
}

} // verus!
