//! Arrays, dictionaries and the poseidon permutation, end to end.

use cairo_native::compiler::compile;
use cairo_native::executor::{execute, ExecutionResult};
use cairo_native::felt252::Felt252;
use cairo_native::program::{
    BigIntConst, BranchInfo, ConcreteType, IntTy, Invocation, Libfunc, Program, Statement,
};
use cairo_native::starknet::TestSyscallHandler;
use cairo_native::values::Value;
use num_bigint::BigUint;

fn inv(libfunc: usize, args: Vec<u64>, branches: Vec<(usize, Vec<u64>)>) -> Statement {
    Statement::Invocation(Invocation {
        libfunc,
        args,
        branches: branches
            .into_iter()
            .map(|(target, results)| BranchInfo { target, results })
            .collect(),
    })
}

fn ret(args: Vec<u64>) -> Statement {
    Statement::Return(args)
}

fn fconst(v: u128) -> Libfunc {
    Libfunc::Felt252Const(BigIntConst {
        negative: false,
        magnitude: BigUint::from(v),
    })
}

fn func(
    id: u64,
    name: &str,
    entry_point: usize,
    param_vars: Vec<u64>,
    param_types: Vec<usize>,
    ret_types: Vec<usize>,
) -> cairo_native::program::Function {
    cairo_native::program::Function {
        id,
        debug_name: Some(name.to_string()),
        entry_point,
        param_vars,
        param_types,
        ret_types,
    }
}

fn run(program: &Program, args: Vec<Value>) -> ExecutionResult {
    let module = compile(program).unwrap();
    let mut handler = TestSyscallHandler;
    execute(&module, program, 0, &args, None, &mut handler).unwrap()
}

fn felt(v: u128) -> Value {
    Value::Felt252(Felt252::from_u128(v))
}

/// run_test(index) -> felt: [10, 20, 30][index], or 999 out of bounds.
fn array_get_program() -> Program {
    Program {
        types: vec![
            ConcreteType::RangeCheck,     // 0
            ConcreteType::Felt252,        // 1
            ConcreteType::Array(1),       // 2
            ConcreteType::Int(IntTy::U32), // 3
        ],
        libfuncs: vec![
            Libfunc::ArrayNew(1),    // 0
            fconst(10),              // 1
            fconst(20),              // 2
            fconst(30),              // 3
            Libfunc::ArrayAppend(1), // 4
            Libfunc::ArrayGet(1),    // 5
            fconst(999),             // 6
        ],
        statements: vec![
            // v0 = range check, v1 = index
            inv(0, vec![], vec![(1, vec![2])]),
            inv(1, vec![], vec![(2, vec![3])]),
            inv(4, vec![2, 3], vec![(3, vec![4])]),
            inv(2, vec![], vec![(4, vec![5])]),
            inv(4, vec![4, 5], vec![(5, vec![6])]),
            inv(3, vec![], vec![(6, vec![7])]),
            inv(4, vec![6, 7], vec![(7, vec![8])]),
            inv(5, vec![0, 8, 1], vec![(8, vec![9, 10]), (9, vec![9])]),
            ret(vec![9, 10]),
            inv(6, vec![], vec![(10, vec![11])]),
            ret(vec![9, 11]),
        ],
        funcs: vec![func(0, "run_test", 0, vec![0, 1], vec![0, 3], vec![0, 1])],
    }
}

#[test]
fn array_get_in_and_out_of_bounds() {
    let program = array_get_program();
    let r = run(&program, vec![Value::Uint32(1)]);
    assert_eq!(r.return_value, felt(20));
    assert_eq!(r.builtin_stats.range_check, 1);
    let r = run(&program, vec![Value::Uint32(9)]);
    assert_eq!(r.return_value, felt(999));
}

/// run_test() -> felt: pop the front of [10, 20], or 777 when empty.
#[test]
fn array_pop_front_takes_the_head() {
    let program = Program {
        types: vec![
            ConcreteType::Felt252, // 0
            ConcreteType::Array(0), // 1
        ],
        libfuncs: vec![
            Libfunc::ArrayNew(0),      // 0
            fconst(10),                // 1
            fconst(20),                // 2
            Libfunc::ArrayAppend(0),   // 3
            Libfunc::ArrayPopFront(0), // 4
            Libfunc::Drop(1),          // 5
            fconst(777),               // 6
        ],
        statements: vec![
            inv(0, vec![], vec![(1, vec![0])]),
            inv(1, vec![], vec![(2, vec![1])]),
            inv(3, vec![0, 1], vec![(3, vec![2])]),
            inv(2, vec![], vec![(4, vec![3])]),
            inv(3, vec![2, 3], vec![(5, vec![4])]),
            inv(4, vec![4], vec![(6, vec![5, 6]), (8, vec![7])]),
            inv(5, vec![5], vec![(7, vec![])]),
            ret(vec![6]),
            inv(5, vec![7], vec![(9, vec![])]),
            inv(6, vec![], vec![(10, vec![8])]),
            ret(vec![8]),
        ],
        funcs: vec![func(0, "run_test", 0, vec![], vec![], vec![0])],
    };
    let r = run(&program, vec![]);
    assert_eq!(r.return_value, felt(10));
}

/// run_test() -> felt: insert 42 under key 5 and read it back through the
/// entry tokens, squashing at the end.
#[test]
fn dict_insert_and_read_back() {
    let program = Program {
        types: vec![
            ConcreteType::SegmentArena,       // 0
            ConcreteType::Felt252,            // 1
            ConcreteType::Felt252Dict(1),     // 2
            ConcreteType::RangeCheck,         // 3
            ConcreteType::Felt252DictEntry(1), // 4
        ],
        libfuncs: vec![
            Libfunc::Felt252DictNew(1),            // 0
            fconst(5),                             // 1
            Libfunc::Felt252DictEntryGet(1),       // 2
            Libfunc::Drop(1),                      // 3
            fconst(42),                            // 4
            Libfunc::Felt252DictEntryFinalize(1),  // 5
            Libfunc::Felt252DictSquash(1),         // 6
            Libfunc::Drop(2),                      // 7
        ],
        statements: vec![
            // v0 = segment arena, v1 = range check
            inv(0, vec![0], vec![(1, vec![2, 3])]),
            inv(1, vec![], vec![(2, vec![4])]),
            inv(2, vec![3, 4], vec![(3, vec![5, 6])]),
            inv(3, vec![6], vec![(4, vec![])]),
            inv(4, vec![], vec![(5, vec![7])]),
            inv(5, vec![5, 7], vec![(6, vec![8])]),
            inv(1, vec![], vec![(7, vec![9])]),
            inv(2, vec![8, 9], vec![(8, vec![10, 11])]),
            inv(4, vec![], vec![(9, vec![12])]),
            inv(5, vec![10, 12], vec![(10, vec![13])]),
            inv(6, vec![1, 13], vec![(11, vec![14, 15])]),
            inv(7, vec![15], vec![(12, vec![])]),
            ret(vec![2, 14, 11]),
        ],
        funcs: vec![func(0, "run_test", 0, vec![0, 1], vec![0, 3], vec![0, 3, 1])],
    };
    let r = run(&program, vec![]);
    assert_eq!(r.return_value, felt(42));
    assert_eq!(r.builtin_stats.segment_arena, 1);
    assert_eq!(r.builtin_stats.range_check, 1);
}

/// run_test(s0, s1, s2) applies the hades permutation and returns the first
/// state felt; compared against the reference permutation.
#[test]
fn hades_permutation_matches_reference() {
    let program = Program {
        types: vec![
            ConcreteType::Poseidon, // 0
            ConcreteType::Felt252,  // 1
        ],
        libfuncs: vec![Libfunc::HadesPermutation],
        statements: vec![
            inv(0, vec![0, 1, 2, 3], vec![(1, vec![4, 5, 6, 7])]),
            ret(vec![4, 5, 6, 7]),
        ],
        funcs: vec![func(
            0,
            "run_test",
            0,
            vec![0, 1, 2, 3],
            vec![0, 1, 1, 1],
            vec![0, 1, 1, 1],
        )],
    };
    let r = run(&program, vec![felt(1), felt(2), felt(3)]);

    let mut state = [
        starknet_crypto::FieldElement::from_dec_str("1").unwrap(),
        starknet_crypto::FieldElement::from_dec_str("2").unwrap(),
        starknet_crypto::FieldElement::from_dec_str("3").unwrap(),
    ];
    starknet_crypto::poseidon_permute_comp(&mut state);
    let expected: Vec<Value> = state
        .iter()
        .map(|fe| {
            Value::Felt252(Felt252::from_biguint(BigUint::from_bytes_be(
                &fe.to_bytes_be(),
            )))
        })
        .collect();
    assert_eq!(
        r.return_value,
        Value::Struct { fields: expected, debug_name: None },
    );
    assert_eq!(r.builtin_stats.poseidon, 1);
}
