//! Field-arithmetic libfuncs: constants, add/sub/mul, and the zero test.

use crate::error::CompileError;
use crate::felt252::{big_value, felt_prime, Felt252};
use crate::libfuncs::LibfuncHelper;
use crate::mir::{FunctionBuilder, OpKind, Terminator};
use crate::program::{BigIntConst, FeltBinaryOperator};
use vstd::prelude::*;

verus! {

/// The field element a signed arbitrary-precision constant denotes:
/// its value modulo the prime, negatives wrapping to `P - |x|`.
pub open spec fn spec_const_value(c: BigIntConst) -> int {
    if c.negative {
        (0 - big_value(c.magnitude) as int) % (felt_prime() as int)
    } else {
        (big_value(c.magnitude) as int) % (felt_prime() as int)
    }
}

/// Reduces a signed arbitrary-precision constant into the field.
pub fn const_to_felt(c: &BigIntConst) -> (r: Felt252)
    ensures
        r@ == spec_const_value(*c),
{
    let m = crate::felt252::big_to_owned(&c.magnitude);
    let f = Felt252::from_biguint(m);
    if c.negative {
        let z = Felt252::zero();
        let r = z.sub(&f);
        proof {
            crate::felt252::lemma_prime_bounds();
            crate::felt252::lemma_neg_mod_noop(
                big_value(c.magnitude) as int,
                felt_prime() as int,
            );
        }
        r
    } else {
        f
    }
}

/// Emits the `felt252_const` libfunc: a single constant of the embedded
/// literal, reduced into the field, published on branch 0.  Succeeds
/// exactly when branch 0 can be taken with one result.
pub fn build_const(
    b: &mut FunctionBuilder,
    entry: usize,
    helper: &LibfuncHelper,
    c: &BigIntConst,
) -> (r: Result<(), CompileError>)
    requires
        entry < old(b).f.blocks@.len(),
        old(b).f.n_values + 1 < usize::MAX,
    ensures
        final(b).f.blocks@.len() == old(b).f.blocks@.len(),
        r is Ok <==> crate::libfuncs::spec_can_branch(*helper, old(b).f, entry, 0, 1),
        r is Ok ==> final(b).f.blocks@[entry as int].ops@.len() == old(b).f.blocks@[entry as
            int].ops@.len() + 1 && (final(b).f.blocks@[entry as int].ops@.last().kind
            matches OpKind::ConstFelt { value } && value@ == spec_const_value(*c))
            && final(b).f.blocks@[entry as int].ops@.last().dests@ == seq![old(b).f.n_values]
            && (final(b).f.blocks@[entry as int].term
            matches Some(Terminator::Br { target, args }) && target
            == helper.branches@[0].block && args@ == crate::libfuncs::spec_branch_args(
            helper.branches@[0].mapping@,
            seq![old(b).f.n_values],
        )),
{
    let value = const_to_felt(c);
    let dests = b.push_op(entry, OpKind::ConstFelt { value }, 1);
    proof {
        assert(dests@ =~= seq![old(b).f.n_values]);
    }
    helper.br(b, entry, 0, &dests)
}

/// Emits the `felt252_add`, `felt252_sub` and `felt252_mul` libfuncs: one
/// modular arithmetic operation on the two inputs, published on branch 0.
/// Field division has no emitter and refuses the compilation.
pub fn build_binary_operation(
    b: &mut FunctionBuilder,
    entry: usize,
    helper: &LibfuncHelper,
    args: &Vec<usize>,
    op: FeltBinaryOperator,
) -> (r: Result<(), CompileError>)
    requires
        entry < old(b).f.blocks@.len(),
        old(b).f.n_values + 1 < usize::MAX,
    ensures
        final(b).f.blocks@.len() == old(b).f.blocks@.len(),
        r is Ok <==> !(op is Div) && args@.len() >= 2 && crate::libfuncs::spec_can_branch(
            *helper,
            old(b).f,
            entry,
            0,
            1,
        ),
        op == FeltBinaryOperator::Div ==> (r matches Err(CompileError::UnsupportedLibfunc(_))),
        r is Ok ==> final(b).f.blocks@[entry as int].ops@.len() == old(b).f.blocks@[entry as
            int].ops@.len() + 1 && (final(b).f.blocks@[entry as int].ops@.last().kind
            matches OpKind::FeltBinary { op: o, lhs, rhs } && o == op && lhs == args@[0] && rhs
            == args@[1]) && final(b).f.blocks@[entry as int].ops@.last().dests@
            == seq![old(b).f.n_values] && (final(b).f.blocks@[entry as int].term matches Some(
            Terminator::Br { target, args: ta },
        ) && target == helper.branches@[0].block && ta@ == crate::libfuncs::spec_branch_args(
            helper.branches@[0].mapping@,
            seq![old(b).f.n_values],
        )),
{
    if matches!(op, FeltBinaryOperator::Div) {
        return Err(CompileError::UnsupportedLibfunc("felt252_div"));
    }
    if args.len() < 2 {
        return Err(CompileError::InvariantViolation);
    }
    let dests = b.push_op(entry, OpKind::FeltBinary { op, lhs: args[0], rhs: args[1] }, 1);
    proof {
        assert(dests@ =~= seq![old(b).f.n_values]);
    }
    helper.br(b, entry, 0, &dests)
}

/// Emits the `felt252_is_zero` libfunc: a zero test on the input, then a
/// conditional branch to branch 0 (zero, no payload) or branch 1 (non-zero,
/// republishing the value).
pub fn build_is_zero(
    b: &mut FunctionBuilder,
    entry: usize,
    helper: &LibfuncHelper,
    args: &Vec<usize>,
) -> (r: Result<(), CompileError>)
    requires
        entry < old(b).f.blocks@.len(),
        old(b).f.n_values + 1 < usize::MAX,
    ensures
        final(b).f.blocks@.len() == old(b).f.blocks@.len(),
        r is Ok <==> args@.len() >= 1 && crate::libfuncs::spec_can_branch(
            *helper,
            old(b).f,
            entry,
            0,
            0,
        ) && crate::libfuncs::spec_can_branch(*helper, old(b).f, entry, 1, 1),
        r is Ok ==> final(b).f.blocks@[entry as int].ops@.len() == old(b).f.blocks@[entry as
            int].ops@.len() + 1 && (final(b).f.blocks@[entry as int].ops@.last().kind
            matches OpKind::FeltIsZero { arg } && arg == args@[0]) && (final(b).f.blocks@[entry as
            int].term matches Some(
            Terminator::CondBr { cond, true_target, true_args, false_target, false_args },
        ) && cond == old(b).f.n_values && true_target == helper.branches@[0].block && true_args@
            == crate::libfuncs::spec_branch_args(helper.branches@[0].mapping@, Seq::empty())
            && false_target == helper.branches@[1].block && false_args@
            == crate::libfuncs::spec_branch_args(helper.branches@[1].mapping@, seq![args@[0]])),
{
    if args.len() < 1 {
        return Err(CompileError::InvariantViolation);
    }
    let cond = b.push_op(entry, OpKind::FeltIsZero { arg: args[0] }, 1);
    let empty: Vec<usize> = Vec::new();
    let mut nonzero: Vec<usize> = Vec::new();
    nonzero.push(args[0]);
    proof {
        assert(empty@ =~= Seq::<usize>::empty());
        assert(nonzero@ =~= seq![args@[0]]);
    }
    helper.cond_br(b, entry, cond[0], (0, 1), &empty, &nonzero)
}

} // verus!
