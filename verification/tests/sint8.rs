//! The `i8` libfunc family, end to end.

use cairo_native::compiler::compile;
use cairo_native::executor::{execute, ExecutionResult};
use cairo_native::felt252::{felt252_short_str, Felt252};
use cairo_native::program::{
    BigIntConst, BranchInfo, ConcreteType, IntOperator, IntTy, Invocation, Libfunc, Program,
    Statement,
};
use cairo_native::starknet::TestSyscallHandler;
use cairo_native::values::Value;
use num_bigint::BigUint;

fn inv(libfunc: usize, args: Vec<u64>, branches: Vec<(usize, Vec<u64>)>) -> Statement {
    Statement::Invocation(Invocation {
        libfunc,
        args,
        branches: branches
            .into_iter()
            .map(|(target, results)| BranchInfo { target, results })
            .collect(),
    })
}

fn ret(args: Vec<u64>) -> Statement {
    Statement::Return(args)
}

fn func(
    id: u64,
    name: &str,
    entry_point: usize,
    param_vars: Vec<u64>,
    param_types: Vec<usize>,
    ret_types: Vec<usize>,
) -> cairo_native::program::Function {
    cairo_native::program::Function {
        id,
        debug_name: Some(name.to_string()),
        entry_point,
        param_vars,
        param_types,
        ret_types,
    }
}

fn run(program: &Program, args: Vec<Value>) -> ExecutionResult {
    let module = compile(program).unwrap();
    let mut handler = TestSyscallHandler;
    execute(&module, program, 0, &args, None, &mut handler).unwrap()
}

fn unit_struct() -> Value {
    Value::Struct { fields: vec![], debug_name: None }
}

fn enum_val(tag: usize, value: Value) -> Value {
    Value::Enum { tag, value: Box::new(value), debug_name: None }
}

/// run_test() -> i8 { 0_i8 }
#[test]
fn i8_const_min() {
    let program = Program {
        types: vec![ConcreteType::Int(IntTy::I8)],
        libfuncs: vec![Libfunc::IntConst { ty: IntTy::I8, value: 0 }],
        statements: vec![inv(0, vec![], vec![(1, vec![0])]), ret(vec![0])],
        funcs: vec![func(0, "run_test", 0, vec![], vec![], vec![0])],
    };
    let result = run(&program, vec![]);
    assert_eq!(result.return_value, Value::Sint8(0));
}

/// run_test() -> i8 { 127_i8 }
#[test]
fn i8_const_max() {
    let program = Program {
        types: vec![ConcreteType::Int(IntTy::I8)],
        libfuncs: vec![Libfunc::IntConst { ty: IntTy::I8, value: 127 }],
        statements: vec![inv(0, vec![], vec![(1, vec![0])]), ret(vec![0])],
        funcs: vec![func(0, "run_test", 0, vec![], vec![], vec![0])],
    };
    let result = run(&program, vec![]);
    assert_eq!(result.return_value, Value::Sint8(127));
}

/// run_test(lhs: i8, rhs: i8) -> bool { lhs == rhs }
fn i8_equal_program() -> Program {
    Program {
        types: vec![
            ConcreteType::Int(IntTy::I8),   // 0
            ConcreteType::Struct(vec![]),   // 1
            ConcreteType::Enum(vec![1, 1]), // 2 (bool)
        ],
        libfuncs: vec![
            Libfunc::IntEqual(IntTy::I8),          // 0
            Libfunc::StructConstruct(1),           // 1
            Libfunc::EnumInit { ty: 2, variant: 0 }, // 2
            Libfunc::EnumInit { ty: 2, variant: 1 }, // 3
        ],
        statements: vec![
            inv(0, vec![0, 1], vec![(1, vec![]), (4, vec![])]),
            inv(1, vec![], vec![(2, vec![2])]),
            inv(2, vec![2], vec![(3, vec![3])]),
            ret(vec![3]),
            inv(1, vec![], vec![(5, vec![4])]),
            inv(3, vec![4], vec![(6, vec![5])]),
            ret(vec![5]),
        ],
        funcs: vec![func(0, "run_test", 0, vec![0, 1], vec![0, 0], vec![2])],
    }
}

#[test]
fn i8_equal() {
    let program = i8_equal_program();
    assert_eq!(
        run(&program, vec![Value::Sint8(0), Value::Sint8(0)]).return_value,
        enum_val(1, unit_struct()),
    );
    assert_eq!(
        run(&program, vec![Value::Sint8(1), Value::Sint8(0)]).return_value,
        enum_val(0, unit_struct()),
    );
    assert_eq!(
        run(&program, vec![Value::Sint8(0), Value::Sint8(1)]).return_value,
        enum_val(0, unit_struct()),
    );
    assert_eq!(
        run(&program, vec![Value::Sint8(1), Value::Sint8(1)]).return_value,
        enum_val(1, unit_struct()),
    );
}

/// run_test(value: i8) -> bool, matching the zero branch of `i8_is_zero`.
fn i8_is_zero_program(extra_param: bool) -> Program {
    let (param_vars, param_types, first) = if extra_param {
        // A second argument, dropped up front.
        (vec![0, 1], vec![0usize, 0usize], 1usize)
    } else {
        (vec![0], vec![0usize], 0usize)
    };
    let mut statements = Vec::new();
    if extra_param {
        statements.push(inv(5, vec![1], vec![(1, vec![])]));
    }
    statements.extend(vec![
        inv(0, vec![0], vec![(first + 1, vec![]), (first + 4, vec![2])]),
        inv(1, vec![], vec![(first + 2, vec![3])]),
        inv(2, vec![3], vec![(first + 3, vec![4])]),
        ret(vec![4]),
        inv(4, vec![2], vec![(first + 5, vec![])]),
        inv(1, vec![], vec![(first + 6, vec![5])]),
        inv(3, vec![5], vec![(first + 7, vec![6])]),
        ret(vec![6]),
    ]);
    Program {
        types: vec![
            ConcreteType::Int(IntTy::I8),   // 0
            ConcreteType::Struct(vec![]),   // 1
            ConcreteType::Enum(vec![1, 1]), // 2 (bool)
            ConcreteType::NonZero(0),       // 3
        ],
        libfuncs: vec![
            Libfunc::IntIsZero(IntTy::I8),           // 0
            Libfunc::StructConstruct(1),             // 1
            Libfunc::EnumInit { ty: 2, variant: 1 }, // 2 (true)
            Libfunc::EnumInit { ty: 2, variant: 0 }, // 3 (false)
            Libfunc::Drop(3),                        // 4
            Libfunc::Drop(0),                        // 5
        ],
        statements,
        funcs: vec![func(0, "run_test", 0, param_vars, param_types, vec![2])],
    }
}

#[test]
fn i8_is_zero() {
    let program = i8_is_zero_program(false);
    assert_eq!(
        run(&program, vec![Value::Sint8(0)]).return_value,
        enum_val(1, unit_struct()),
    );
    assert_eq!(
        run(&program, vec![Value::Sint8(1)]).return_value,
        enum_val(0, unit_struct()),
    );
}

#[test]
fn i8_safe_divmod() {
    let program = i8_is_zero_program(true);
    let cases: [(u8, u8, usize); 9] = [
        (0, 0, 1),
        (0, 1, 1),
        (0, 0xFF, 1),
        (1, 0, 0),
        (1, 1, 0),
        (1, 0xFF, 0),
        (0xFF, 0, 0),
        (0xFF, 1, 0),
        (0xFF, 0xFF, 0),
    ];
    for (lhs, rhs, tag) in cases {
        assert_eq!(
            run(&program, vec![Value::Sint8(lhs as i8), Value::Sint8(rhs as i8)]).return_value,
            enum_val(tag, unit_struct()),
        );
    }
}

/// run_test(lhs: i8, rhs: i8) -> i16, by widening multiplication (the
/// operands widen by zero extension of their bit patterns).
fn i8_widemul_program() -> Program {
    Program {
        types: vec![
            ConcreteType::Int(IntTy::I8),  // 0
            ConcreteType::Int(IntTy::I16), // 1
        ],
        libfuncs: vec![Libfunc::IntWideMul(IntTy::I8)],
        statements: vec![inv(0, vec![0, 1], vec![(1, vec![2])]), ret(vec![2])],
        funcs: vec![func(0, "run_test", 0, vec![0, 1], vec![0, 0], vec![1])],
    }
}

#[test]
fn i8_widemul() {
    let program = i8_widemul_program();
    let cases: [(u8, u8, u16); 5] = [
        (0, 0, 0),
        (0, 1, 0),
        (1, 0, 0),
        (1, 1, 1),
        (u8::MAX, u8::MAX, u8::MAX as u16 * u8::MAX as u16),
    ];
    for (lhs, rhs, expected) in cases {
        assert_eq!(
            run(&program, vec![Value::Sint8(lhs as i8), Value::Sint8(rhs as i8)]).return_value,
            Value::Sint16(expected as i16),
        );
    }
}

/// run_test() -> felt252 { 2_i8.into() }
#[test]
fn i8_to_felt252() {
    let program = Program {
        types: vec![
            ConcreteType::Int(IntTy::I8), // 0
            ConcreteType::Felt252,        // 1
        ],
        libfuncs: vec![
            Libfunc::IntConst { ty: IntTy::I8, value: 2 },
            Libfunc::IntToFelt252(IntTy::I8),
        ],
        statements: vec![
            inv(0, vec![], vec![(1, vec![0])]),
            inv(1, vec![0], vec![(2, vec![1])]),
            ret(vec![1]),
        ],
        funcs: vec![func(0, "run_test", 0, vec![], vec![], vec![1])],
    };
    let result = run(&program, vec![]);
    assert_eq!(result.return_value, Value::Felt252(Felt252::from_u128(2)));
}

/// run_test() -> (Option<i8>, Option<i8>) { (255.try_into(), 256.try_into()) }
#[test]
fn i8_from_felt252() {
    let program = Program {
        types: vec![
            ConcreteType::Felt252,          // 0
            ConcreteType::Int(IntTy::I8),   // 1
            ConcreteType::Struct(vec![]),   // 2
            ConcreteType::Enum(vec![1, 2]), // 3 (Option<i8>)
            ConcreteType::RangeCheck,       // 4
            ConcreteType::Struct(vec![3, 3]), // 5
        ],
        libfuncs: vec![
            Libfunc::Felt252Const(BigIntConst {
                negative: false,
                magnitude: BigUint::from(255u32),
            }),  // 0
            Libfunc::IntFromFelt252(IntTy::I8),      // 1
            Libfunc::EnumInit { ty: 3, variant: 0 }, // 2 (Some)
            Libfunc::Felt252Const(BigIntConst {
                negative: false,
                magnitude: BigUint::from(256u32),
            }),  // 3
            Libfunc::StructConstruct(2),             // 4 (unit)
            Libfunc::EnumInit { ty: 3, variant: 1 }, // 5 (None)
            Libfunc::StructConstruct(5),             // 6 (pair)
        ],
        statements: vec![
            inv(0, vec![], vec![(1, vec![1])]),
            inv(1, vec![0, 1], vec![(2, vec![2, 3]), (11, vec![4])]),
            inv(2, vec![3], vec![(3, vec![5])]),
            inv(3, vec![], vec![(4, vec![6])]),
            inv(1, vec![2, 6], vec![(5, vec![7, 8]), (7, vec![9])]),
            inv(2, vec![8], vec![(6, vec![10])]),
            inv(6, vec![5, 10], vec![(14, vec![11])]),
            inv(4, vec![], vec![(8, vec![11])]),
            inv(5, vec![11], vec![(9, vec![12])]),
            inv(6, vec![5, 12], vec![(10, vec![13])]),
            ret(vec![9, 13]),
            ret(vec![4]),
            ret(vec![]),
            ret(vec![]),
            ret(vec![7, 11]),
        ],
        funcs: vec![func(0, "run_test", 0, vec![0], vec![4], vec![4, 5])],
    };
    let result = run(&program, vec![]);
    let expected = Value::Struct {
        fields: vec![
            enum_val(0, Value::Sint8(u8::MAX as i8)),
            enum_val(1, unit_struct()),
        ],
        debug_name: None,
    };
    assert_eq!(result.return_value, expected);
    assert_eq!(result.builtin_stats.range_check, 2);
}

/// run_test(lhs: i8, rhs: i8) -> i8 { lhs + rhs }, wrapped in a panic
/// result as the source language does.
fn i8_overflowing_program(operator: IntOperator, payload: &str) -> Program {
    let marker: Vec<u8> = payload.as_bytes().to_vec();
    Program {
        types: vec![
            ConcreteType::Int(IntTy::I8),     // 0
            ConcreteType::RangeCheck,         // 1
            ConcreteType::Struct(vec![0]),    // 2
            ConcreteType::Struct(vec![]),     // 3
            ConcreteType::Felt252,            // 4
            ConcreteType::Array(4),           // 5
            ConcreteType::Struct(vec![3, 5]), // 6
            ConcreteType::Enum(vec![2, 6]),   // 7 (panic result)
        ],
        libfuncs: vec![
            Libfunc::IntOperation { ty: IntTy::I8, operator }, // 0
            Libfunc::StructConstruct(2),                       // 1
            Libfunc::EnumInit { ty: 7, variant: 0 },           // 2
            Libfunc::Drop(0),                                  // 3
            Libfunc::StructConstruct(3),                       // 4
            Libfunc::ArrayNew(4),                              // 5
            Libfunc::Felt252Const(BigIntConst {
                negative: false,
                magnitude: BigUint::from_bytes_be(&marker),
            }),  // 6
            Libfunc::ArrayAppend(4),                           // 7
            Libfunc::StructConstruct(6),                       // 8
            Libfunc::EnumInit { ty: 7, variant: 1 },           // 9
        ],
        statements: vec![
            // v0 = range check, v1 = lhs, v2 = rhs
            inv(0, vec![0, 1, 2], vec![(1, vec![3, 4]), (4, vec![3, 4]), (4, vec![3, 4])]),
            inv(1, vec![4], vec![(2, vec![5])]),
            inv(2, vec![5], vec![(3, vec![6])]),
            ret(vec![3, 6]),
            // overflow path: drop the wrapped value, build the payload
            inv(3, vec![4], vec![(5, vec![])]),
            inv(4, vec![], vec![(6, vec![7])]),
            inv(5, vec![], vec![(7, vec![8])]),
            inv(6, vec![], vec![(8, vec![9])]),
            inv(7, vec![8, 9], vec![(9, vec![10])]),
            inv(8, vec![7, 10], vec![(10, vec![11])]),
            inv(9, vec![11], vec![(11, vec![12])]),
            ret(vec![3, 12]),
        ],
        funcs: vec![func(0, "run_test", 0, vec![0, 1, 2], vec![1, 0, 0], vec![1, 7])],
    }
}

fn panic_value(message: &str) -> Value {
    let felt = felt252_short_str(&message.as_bytes().to_vec());
    Value::Enum {
        tag: 1,
        value: Box::new(Value::Struct {
            fields: vec![unit_struct(), Value::Array(vec![Value::Felt252(felt)])],
            debug_name: None,
        }),
        debug_name: None,
    }
}

#[test]
fn i8_overflowing_add() {
    let program = i8_overflowing_program(IntOperator::OverflowingAdd, "i8_add Overflow");
    let run_case = |lhs: u8, rhs: u8| {
        let result = run(
            &program,
            vec![Value::Sint8(lhs as i8), Value::Sint8(rhs as i8)],
        );
        // Signed semantics: the ok branch is taken exactly when the signed
        // sum stays in range.
        match (lhs as i8).checked_add(rhs as i8) {
            Some(v) => assert_eq!(
                result.return_value,
                enum_val(0, Value::Struct { fields: vec![Value::Sint8(v)], debug_name: None }),
            ),
            None => assert_eq!(result.return_value, panic_value("i8_add Overflow")),
        }
    };
    const MAX: u8 = u8::MAX;
    for lhs in [0, 1, MAX - 1, MAX] {
        for rhs in [0, 1, MAX - 1, MAX] {
            run_case(lhs, rhs);
        }
    }
}

#[test]
fn i8_overflowing_sub() {
    let program = i8_overflowing_program(IntOperator::OverflowingSub, "i8_sub Overflow");
    let run_case = |lhs: u8, rhs: u8| {
        let result = run(
            &program,
            vec![Value::Sint8(lhs as i8), Value::Sint8(rhs as i8)],
        );
        match (lhs as i8).checked_sub(rhs as i8) {
            Some(v) => assert_eq!(
                result.return_value,
                enum_val(0, Value::Struct { fields: vec![Value::Sint8(v)], debug_name: None }),
            ),
            None => assert_eq!(result.return_value, panic_value("i8_sub Overflow")),
        }
    };
    const MAX: u8 = u8::MAX;
    for lhs in [0, 1, MAX - 1, MAX] {
        for rhs in [0, 1, MAX - 1, MAX] {
            run_case(lhs, rhs);
        }
    }
}

/// u8_overflowing_add(255, 1) takes the overflow branch and surfaces the
/// "u8_add Overflow" shortstring panic payload.
#[test]
fn u8_overflowing_add_panics_with_payload() {
    let marker: Vec<u8> = "u8_add Overflow".as_bytes().to_vec();
    let program = Program {
        types: vec![
            ConcreteType::Int(IntTy::U8),     // 0
            ConcreteType::RangeCheck,         // 1
            ConcreteType::Struct(vec![0]),    // 2
            ConcreteType::Struct(vec![]),     // 3
            ConcreteType::Felt252,            // 4
            ConcreteType::Array(4),           // 5
            ConcreteType::Struct(vec![3, 5]), // 6
            ConcreteType::Enum(vec![2, 6]),   // 7
        ],
        libfuncs: vec![
            Libfunc::IntOperation { ty: IntTy::U8, operator: IntOperator::OverflowingAdd },
            Libfunc::StructConstruct(2),
            Libfunc::EnumInit { ty: 7, variant: 0 },
            Libfunc::Drop(0),
            Libfunc::StructConstruct(3),
            Libfunc::ArrayNew(4),
            Libfunc::Felt252Const(BigIntConst {
                negative: false,
                magnitude: BigUint::from_bytes_be(&marker),
            }),
            Libfunc::ArrayAppend(4),
            Libfunc::StructConstruct(6),
            Libfunc::EnumInit { ty: 7, variant: 1 },
        ],
        statements: vec![
            inv(0, vec![0, 1, 2], vec![(1, vec![3, 4]), (4, vec![3, 4])]),
            inv(1, vec![4], vec![(2, vec![5])]),
            inv(2, vec![5], vec![(3, vec![6])]),
            ret(vec![3, 6]),
            inv(3, vec![4], vec![(5, vec![])]),
            inv(4, vec![], vec![(6, vec![7])]),
            inv(5, vec![], vec![(7, vec![8])]),
            inv(6, vec![], vec![(8, vec![9])]),
            inv(7, vec![8, 9], vec![(9, vec![10])]),
            inv(8, vec![7, 10], vec![(10, vec![11])]),
            inv(9, vec![11], vec![(11, vec![12])]),
            ret(vec![3, 12]),
        ],
        funcs: vec![func(0, "run_test", 0, vec![0, 1, 2], vec![1, 0, 0], vec![1, 7])],
    };
    let result = run(&program, vec![Value::Uint8(255), Value::Uint8(1)]);
    assert_eq!(result.return_value, panic_value("u8_add Overflow"));

    // In range: the ok branch carries the wrapped sum.
    let ok = run(&program, vec![Value::Uint8(2), Value::Uint8(3)]);
    assert_eq!(
        ok.return_value,
        enum_val(0, Value::Struct { fields: vec![Value::Uint8(5)], debug_name: None }),
    );
}

/// run_test(lhs: i128, rhs: i128) -> i128: the wrapped result of an
/// overflowing operation, observable on both branches.
fn i128_wrapping_program(operator: IntOperator) -> Program {
    Program {
        types: vec![
            ConcreteType::Int(IntTy::I128), // 0
            ConcreteType::RangeCheck,       // 1
        ],
        libfuncs: vec![Libfunc::IntOperation { ty: IntTy::I128, operator }],
        statements: vec![
            inv(0, vec![0, 1, 2], vec![(1, vec![3, 4]), (1, vec![3, 4]), (1, vec![3, 4])]),
            ret(vec![3, 4]),
        ],
        funcs: vec![func(0, "run_test", 0, vec![0, 1, 2], vec![1, 0, 0], vec![1, 0])],
    }
}

/// The wrapped `i128` sum is the two's-complement wrap of the exact sum,
/// at both overflow boundaries and away from them.
#[test]
fn i128_overflowing_add_wraps() {
    let program = i128_wrapping_program(IntOperator::OverflowingAdd);
    for (lhs, rhs) in [
        (i128::MAX, 1),
        (i128::MAX, i128::MAX),
        (i128::MIN, -1),
        (i128::MIN, i128::MIN),
        (5, 7),
        (-5, -7),
        (i128::MAX, 0),
        (i128::MIN, 0),
    ] {
        let result = run(&program, vec![Value::Sint128(lhs), Value::Sint128(rhs)]);
        assert_eq!(result.return_value, Value::Sint128(lhs.wrapping_add(rhs)));
    }
}

/// The wrapped `i128` difference is the two's-complement wrap of the exact
/// difference.
#[test]
fn i128_overflowing_sub_wraps() {
    let program = i128_wrapping_program(IntOperator::OverflowingSub);
    for (lhs, rhs) in [
        (i128::MIN, 1),
        (i128::MIN, i128::MAX),
        (i128::MAX, -1),
        (i128::MAX, i128::MIN),
        (5, 7),
        (-5, -7),
        (0, i128::MIN),
    ] {
        let result = run(&program, vec![Value::Sint128(lhs), Value::Sint128(rhs)]);
        assert_eq!(result.return_value, Value::Sint128(lhs.wrapping_sub(rhs)));
    }
}
