//! Tests of the runtime core: value model, stack, arena, registry, engine.

use synton_core::bytecode::{Bytecode, Constant, Instruction, OpKind};
use synton_core::engine::{error_code, Engine};
use synton_core::memory::{Memory, MemoryCell, MemoryError};
use synton_core::stack::{Stack, StackValue};
use synton_core::stdlib::StdLib;
use synton_core::{ExecutionResult, Runtime, RuntimeConfig, RuntimeError};

fn config_with_steps(max_steps: Option<usize>) -> RuntimeConfig {
    RuntimeConfig {
        max_memory: 1024,
        jit_enabled: false,
        max_steps,
    }
}

fn program(ops: &[OpKind], consts: &[Constant]) -> Bytecode {
    let mut b = Bytecode::new();
    for c in consts {
        b.add_constant(c.clone());
    }
    for op in ops {
        b.push(Instruction::new(*op));
    }
    b
}

fn run_program(ops: &[OpKind], consts: &[Constant], max_steps: Option<usize>) -> ExecutionResult {
    let b = program(ops, consts);
    let mut engine = Engine::new(config_with_steps(max_steps));
    let lib = StdLib::new();
    engine.run(&b, &lib)
}

// Stack capacity: `n` pushes succeed, the `(n+1)`th overflows, popping the
// empty stack underflows.
#[test]
fn stack_capacity_bounds() {
    let mut s = Stack::new(3);
    assert!(s.is_empty());
    for i in 0..3 {
        assert!(s.push(StackValue::Integer(i)).is_ok());
    }
    assert_eq!(s.len(), 3);
    match s.push(StackValue::Integer(3)) {
        Err(RuntimeError::StackOverflow) => {}
        _ => panic!("expected StackOverflow"),
    }
    // The failed push left the stack unchanged.
    assert_eq!(s.len(), 3);

    let mut empty = Stack::new(4);
    match empty.pop() {
        Err(RuntimeError::StackUnderflow) => {}
        _ => panic!("expected StackUnderflow"),
    }
}

#[test]
fn stack_is_lifo() {
    let mut s = Stack::new(10);
    s.push(StackValue::Integer(1)).unwrap();
    s.push(StackValue::Integer(2)).unwrap();
    assert_eq!(s.peek(0).unwrap(), &StackValue::Integer(2));
    assert_eq!(s.peek(1).unwrap(), &StackValue::Integer(1));
    assert!(matches!(s.peek(2), Err(RuntimeError::StackUnderflow)));
    assert_eq!(s.pop().unwrap(), StackValue::Integer(2));
    assert_eq!(s.pop().unwrap(), StackValue::Integer(1));
    s.push(StackValue::Unit).unwrap();
    s.clear();
    assert!(s.is_empty());
}

// Integer division: zero divisor fails, otherwise the quotient truncates.
#[test]
fn division_semantics() {
    let div = |a: i64, b: i64| StackValue::Integer(a).div(StackValue::Integer(b));
    assert!(matches!(div(1, 0), Err(RuntimeError::DivisionByZero)));
    assert!(matches!(div(0, 0), Err(RuntimeError::DivisionByZero)));
    assert_eq!(div(7, 2).unwrap(), StackValue::Integer(3));
    assert_eq!(div(-7, 2).unwrap(), StackValue::Integer(-3));
    assert_eq!(div(7, -2).unwrap(), StackValue::Integer(-3));
    assert_eq!(div(-7, -2).unwrap(), StackValue::Integer(3));
    assert_eq!(div(i64::MIN, -1).unwrap(), StackValue::Integer(i64::MIN));
    let bad = StackValue::Bool(true).div(StackValue::Integer(1));
    match bad {
        Err(RuntimeError::TypeMismatch { expected, found }) => {
            assert_eq!(expected, "numeric");
            assert_eq!(found, "non-numeric");
        }
        _ => panic!("expected TypeMismatch"),
    }
}

#[test]
fn arithmetic_wraps_and_concatenates() {
    assert_eq!(
        StackValue::Integer(i64::MAX)
            .add(StackValue::Integer(1))
            .unwrap(),
        StackValue::Integer(i64::MIN)
    );
    assert_eq!(
        StackValue::Integer(2).mul(StackValue::Integer(21)).unwrap(),
        StackValue::Integer(42)
    );
    assert_eq!(
        StackValue::Integer(1).sub(StackValue::Integer(2)).unwrap(),
        StackValue::Integer(-1)
    );
    assert_eq!(
        StackValue::String("ab".to_string())
            .add(StackValue::String("cd".to_string()))
            .unwrap(),
        StackValue::String("abcd".to_string())
    );
    assert!(StackValue::Unit.add(StackValue::Integer(1)).is_err());
}

#[test]
fn value_accessors_and_display() {
    assert_eq!(StackValue::Integer(-5).as_integer().unwrap(), -5);
    assert!(StackValue::Bool(true).as_bool().unwrap());
    assert_eq!(
        StackValue::String("x".to_string()).as_string().unwrap(),
        "x"
    );
    match StackValue::Unit.as_integer() {
        Err(RuntimeError::TypeMismatch { expected, found }) => {
            assert_eq!(expected, "integer");
            assert_eq!(found, "unit");
        }
        _ => panic!("expected TypeMismatch"),
    }
    assert_eq!(StackValue::Integer(-42).display_string(), "-42");
    assert_eq!(
        StackValue::String("hi".to_string()).display_string(),
        "\"hi\""
    );
    assert_eq!(StackValue::Bool(true).display_string(), "true");
    assert_eq!(StackValue::Bool(false).display_string(), "false");
    assert_eq!(StackValue::Unit.display_string(), "()");
    assert_eq!(StackValue::Ref(7).display_string(), "ref(7)");
    let v = StackValue::String("dup".to_string());
    assert_eq!(v.duplicate(), v);
}

// Arena capacity: the first `k` allocations succeed, the `(k+1)`th fails,
// and freed addresses become invalid.
#[test]
fn arena_capacity_and_freed_addresses() {
    let mut m = Memory::new(2);
    let a = m.allocate(MemoryCell::Integer(1)).unwrap();
    let b = m.allocate(MemoryCell::Integer(2)).unwrap();
    assert_eq!(a, 0);
    assert_eq!(b, 1);
    match m.allocate(MemoryCell::Integer(3)) {
        Err(MemoryError::OutOfMemory {
            requested,
            available,
        }) => {
            assert_eq!(requested, 1);
            assert_eq!(available, 0);
        }
        _ => panic!("expected OutOfMemory"),
    }
    m.free(a).unwrap();
    assert!(matches!(m.read(a), Err(MemoryError::InvalidAddress(0))));
    assert!(matches!(
        m.write(a, MemoryCell::Integer(9)),
        Err(MemoryError::InvalidAddress(0))
    ));
    assert!(matches!(m.free(a), Err(MemoryError::InvalidAddress(0))));
    // Address 1 is still live and writable.
    m.write(b, MemoryCell::String("s".to_string())).unwrap();
    match m.read(b).unwrap() {
        MemoryCell::String(s) => assert_eq!(s, "s"),
        _ => panic!("expected a string cell"),
    }
    assert!(matches!(m.read(7), Err(MemoryError::InvalidAddress(7))));
}

// Compaction never moves a live cell: allocate A, B, C; free B; compact;
// A and C keep their addresses and values.
#[test]
fn compaction_is_address_stable() {
    let mut m = Memory::new(8);
    let a = m.allocate(MemoryCell::Integer(10)).unwrap();
    let b = m.allocate(MemoryCell::Integer(20)).unwrap();
    let c = m.allocate(MemoryCell::Integer(30)).unwrap();
    m.free(b).unwrap();
    m.gc(&[]);
    match m.read(a).unwrap() {
        MemoryCell::Integer(v) => assert_eq!(*v, 10),
        _ => panic!("expected an integer cell"),
    }
    match m.read(c).unwrap() {
        MemoryCell::Integer(v) => assert_eq!(*v, 30),
        _ => panic!("expected an integer cell"),
    }
    assert!(matches!(m.read(b), Err(MemoryError::InvalidAddress(1))));
}

#[test]
fn compaction_reclaims_the_tail() {
    let mut m = Memory::new(2);
    let a = m.allocate(MemoryCell::Integer(1)).unwrap();
    let b = m.allocate(MemoryCell::Integer(2)).unwrap();
    m.free(b).unwrap();
    m.gc(&[]);
    // The tail slot was reclaimed, so allocation succeeds again.
    let c = m.allocate(MemoryCell::Integer(3)).unwrap();
    assert_eq!(c, 1);
    assert!(m.read(a).is_ok());
}

// An undefined built-in name fails with exactly the requested name.
#[test]
fn undefined_builtin_carries_name() {
    let lib = StdLib::new();
    let mut out = Vec::new();
    match lib.call("no_such_fn", &[], &mut out) {
        Err(RuntimeError::UndefinedFunction(name)) => assert_eq!(name, "no_such_fn"),
        _ => panic!("expected UndefinedFunction"),
    }
    assert!(out.is_empty());
}

#[test]
fn builtin_abs_len_print() {
    let lib = StdLib::new();
    let mut out = Vec::new();
    assert_eq!(
        lib.call("abs", &[StackValue::Integer(-5)], &mut out).unwrap(),
        StackValue::Integer(5)
    );
    assert_eq!(
        lib.call("abs", &[StackValue::Integer(7)], &mut out).unwrap(),
        StackValue::Integer(7)
    );
    assert_eq!(
        lib.call("abs", &[StackValue::Integer(i64::MIN)], &mut out)
            .unwrap(),
        StackValue::Integer(i64::MIN)
    );
    assert!(matches!(
        lib.call("abs", &[], &mut out),
        Err(RuntimeError::InvalidOperation(_))
    ));
    assert!(matches!(
        lib.call("abs", &[StackValue::Unit], &mut out),
        Err(RuntimeError::TypeMismatch { .. })
    ));
    // `len` counts UTF-8 bytes: the accented character takes two.
    assert_eq!(
        lib.call("len", &[StackValue::String("héllo".to_string())], &mut out)
            .unwrap(),
        StackValue::Integer(6)
    );
    assert_eq!(
        lib.call("len", &[StackValue::String("abc".to_string())], &mut out)
            .unwrap(),
        StackValue::Integer(3)
    );
    assert_eq!(
        lib.call("len", &[StackValue::String("".to_string())], &mut out)
            .unwrap(),
        StackValue::Integer(0)
    );
    assert!(matches!(
        lib.call("len", &[], &mut out),
        Err(RuntimeError::InvalidOperation(_))
    ));
    assert!(matches!(
        lib.call("len", &[StackValue::Integer(1)], &mut out),
        Err(RuntimeError::TypeMismatch { .. })
    ));
    assert!(out.is_empty());
    let r = lib
        .call(
            "print",
            &[StackValue::Integer(1), StackValue::String("x".to_string())],
            &mut out,
        )
        .unwrap();
    assert_eq!(r, StackValue::Unit);
    assert_eq!(out, vec!["1\"x\"".to_string()]);
    assert!(lib.contains("print"));
    assert!(!lib.contains("printf"));
    assert_eq!(
        lib.functions(),
        vec!["print".to_string(), "len".to_string(), "abs".to_string()]
    );
}

// Running `[Const(2), Const(3), Add, Return]` yields `Success(Integer(5))`.
#[test]
fn add_program_returns_five() {
    let r = run_program(
        &[OpKind::Const(0), OpKind::Const(1), OpKind::Add, OpKind::Return],
        &[Constant::Integer(2), Constant::Integer(3)],
        Some(1_000),
    );
    assert_eq!(r, ExecutionResult::Success(StackValue::Integer(5)));
}

// `[Loop(0)]` under a budget of 10 halts with `MAX_STEPS_EXCEEDED` after
// exactly 10 dispatched steps.
#[test]
fn loop_exhausts_step_budget() {
    let r = run_program(&[OpKind::Loop(0)], &[], Some(10));
    match r {
        ExecutionResult::Error {
            code,
            message,
            location,
        } => {
            assert_eq!(code, "MAX_STEPS_EXCEEDED");
            assert_eq!(message, "exceeded maximum steps: 10");
            assert_eq!(location, None);
        }
        _ => panic!("expected a budget error"),
    }
}

#[test]
fn empty_program_yields_unit() {
    assert_eq!(run_program(&[], &[], Some(10)), ExecutionResult::Unit);
    assert_eq!(run_program(&[], &[], None), ExecutionResult::Unit);
}

#[test]
fn return_on_empty_stack_yields_unit_value() {
    assert_eq!(
        run_program(&[OpKind::Return], &[], Some(10)),
        ExecutionResult::Success(StackValue::Unit)
    );
}

#[test]
fn division_by_zero_reports_location() {
    let r = run_program(
        &[OpKind::Const(0), OpKind::Const(1), OpKind::Div, OpKind::Return],
        &[Constant::Integer(1), Constant::Integer(0)],
        Some(100),
    );
    match r {
        ExecutionResult::Error {
            code,
            message,
            location,
        } => {
            assert_eq!(code, "DIVISION_BY_ZERO");
            assert_eq!(message, "division by zero");
            assert_eq!(location, Some("pc=2".to_string()));
        }
        _ => panic!("expected a division error"),
    }
}

#[test]
fn engine_collects_print_output() {
    let b = program(
        &[OpKind::Const(0), OpKind::Print, OpKind::Const(1), OpKind::Print],
        &[Constant::Integer(7), Constant::String("hi".to_string())],
    );
    let mut engine = Engine::new(config_with_steps(Some(100)));
    let lib = StdLib::new();
    let r = engine.run(&b, &lib);
    assert_eq!(r, ExecutionResult::Unit);
    assert_eq!(engine.output(), &vec!["7".to_string(), "\"hi\"".to_string()]);
}

#[test]
fn panic_reports_message() {
    let r = run_program(
        &[OpKind::Const(0), OpKind::Panic],
        &[Constant::String("boom".to_string())],
        Some(100),
    );
    match r {
        ExecutionResult::Error { code, message, .. } => {
            assert_eq!(code, "RUNTIME_ERROR");
            assert_eq!(message, "panic: boom");
        }
        _ => panic!("expected a panic error"),
    }
    // A panic without a string on the stack uses the default message.
    let r2 = run_program(&[OpKind::Panic], &[], Some(100));
    match r2 {
        ExecutionResult::Error { message, .. } => assert_eq!(message, "panic: panic"),
        _ => panic!("expected a panic error"),
    }
}

#[test]
fn unsupported_opcode_is_invalid_operation() {
    let r = run_program(&[OpKind::CallIndirect], &[], Some(10));
    match r {
        ExecutionResult::Error { code, message, .. } => {
            assert_eq!(code, "RUNTIME_ERROR");
            assert_eq!(message, "invalid operation: unsupported opcode");
        }
        _ => panic!("expected an invalid-operation error"),
    }
}

#[test]
fn bad_constant_and_jump_targets_fail() {
    let r = run_program(&[OpKind::Const(9)], &[], Some(10));
    match r {
        ExecutionResult::Error { message, .. } => {
            assert_eq!(message, "invalid operation: constant index out of bounds");
        }
        _ => panic!("expected an error"),
    }
    let r2 = run_program(&[OpKind::Jump(5)], &[], Some(10));
    match r2 {
        ExecutionResult::Error { message, .. } => {
            assert_eq!(message, "invalid operation: jump target out of bounds");
        }
        _ => panic!("expected an error"),
    }
}

#[test]
fn stack_shuffles_and_comparisons() {
    // Swap leaves the lower value on top.
    let r = run_program(
        &[OpKind::Const(0), OpKind::Const(1), OpKind::Swap, OpKind::Return],
        &[Constant::Integer(1), Constant::Integer(2)],
        Some(100),
    );
    assert_eq!(r, ExecutionResult::Success(StackValue::Integer(1)));
    // Dup duplicates, Drop removes.
    let r2 = run_program(
        &[OpKind::Const(0), OpKind::Dup, OpKind::Drop, OpKind::Return],
        &[Constant::Integer(3)],
        Some(100),
    );
    assert_eq!(r2, ExecutionResult::Success(StackValue::Integer(3)));
    // Rot rotates the third value to the top.
    let r3 = run_program(
        &[
            OpKind::Const(0),
            OpKind::Const(1),
            OpKind::Const(2),
            OpKind::Rot,
            OpKind::Return,
        ],
        &[
            Constant::Integer(1),
            Constant::Integer(2),
            Constant::Integer(3),
        ],
        Some(100),
    );
    assert_eq!(r3, ExecutionResult::Success(StackValue::Integer(1)));
    // Comparisons and logical operators.
    let r4 = run_program(
        &[OpKind::Const(0), OpKind::Const(1), OpKind::Less, OpKind::Return],
        &[Constant::Integer(2), Constant::Integer(3)],
        Some(100),
    );
    assert_eq!(r4, ExecutionResult::Success(StackValue::Bool(true)));
    let r5 = run_program(
        &[OpKind::Const(0), OpKind::Const(0), OpKind::Eq, OpKind::Not, OpKind::Return],
        &[Constant::String("a".to_string())],
        Some(100),
    );
    assert_eq!(r5, ExecutionResult::Success(StackValue::Bool(false)));
    let r6 = run_program(
        &[OpKind::Const(0), OpKind::Const(1), OpKind::And, OpKind::Return],
        &[Constant::Bool(true), Constant::Bool(false)],
        Some(100),
    );
    assert_eq!(r6, ExecutionResult::Success(StackValue::Bool(false)));
}

#[test]
fn underflow_during_dispatch_is_reported() {
    let r = run_program(&[OpKind::Add], &[], Some(10));
    match r {
        ExecutionResult::Error { code, location, .. } => {
            assert_eq!(code, "STACK_UNDERFLOW");
            assert_eq!(location, Some("pc=0".to_string()));
        }
        _ => panic!("expected an underflow error"),
    }
}

#[test]
fn inputs_are_pushed_first_on_top() {
    let b = program(&[OpKind::Return], &[]);
    let mut engine = Engine::new(config_with_steps(Some(10)));
    let lib = StdLib::new();
    let r = engine.run_with_inputs(
        &b,
        &[StackValue::Integer(1), StackValue::Integer(2)],
        &lib,
    );
    assert_eq!(r, ExecutionResult::Success(StackValue::Integer(1)));
}

#[test]
fn runtime_wires_everything_together() {
    let mut rt = Runtime::new();
    assert_eq!(rt.config().max_memory, 16 * 1024 * 1024);
    assert_eq!(rt.config().max_steps, Some(1_000_000));
    let b = program(
        &[OpKind::Const(0), OpKind::Print, OpKind::Const(0), OpKind::Return],
        &[Constant::Integer(9)],
    );
    let r = rt.execute(&b);
    assert_eq!(r, ExecutionResult::Success(StackValue::Integer(9)));
    assert_eq!(rt.output(), &vec!["9".to_string()]);
    let r2 = rt.execute_with_inputs(&program(&[OpKind::Return], &[]), &[StackValue::Bool(true)]);
    assert_eq!(r2, ExecutionResult::Success(StackValue::Bool(true)));
}

#[test]
fn run_without_budget_completes() {
    let r = run_program(
        &[OpKind::Const(0), OpKind::Const(0), OpKind::Mul, OpKind::Return],
        &[Constant::Integer(6)],
        None,
    );
    assert_eq!(r, ExecutionResult::Success(StackValue::Integer(36)));
}

#[test]
fn execution_result_queries() {
    let ok = ExecutionResult::Success(StackValue::Integer(1));
    assert!(ok.is_success());
    assert!(!ok.is_error());
    assert_eq!(ok.unwrap_value(), Some(StackValue::Integer(1)));
    assert!(ExecutionResult::Unit.is_success());
    assert_eq!(ExecutionResult::Unit.unwrap_value(), None);
    let err = ExecutionResult::Error {
        code: "X".to_string(),
        message: "m".to_string(),
        location: None,
    };
    assert!(err.is_error());
    assert!(!err.is_success());
}

// The fixed failure-to-code table of the DSO protocol.
#[test]
fn error_code_table() {
    assert_eq!(error_code(&RuntimeError::DivisionByZero), "DIVISION_BY_ZERO");
    assert_eq!(
        error_code(&RuntimeError::IndexOutOfBounds { index: 3, len: 2 }),
        "INDEX_OUT_OF_BOUNDS"
    );
    assert_eq!(error_code(&RuntimeError::StackOverflow), "STACK_OVERFLOW");
    assert_eq!(error_code(&RuntimeError::StackUnderflow), "STACK_UNDERFLOW");
    assert_eq!(
        error_code(&RuntimeError::MaxStepsExceeded),
        "MAX_STEPS_EXCEEDED"
    );
    assert_eq!(
        error_code(&RuntimeError::ConstraintViolation("c".to_string())),
        "CONSTRAINT_VIOLATION"
    );
    assert_eq!(
        error_code(&RuntimeError::Panic("p".to_string())),
        "RUNTIME_ERROR"
    );
    assert_eq!(
        error_code(&RuntimeError::UndefinedFunction("f".to_string())),
        "RUNTIME_ERROR"
    );
}

#[test]
fn error_messages_are_rendered() {
    assert_eq!(
        RuntimeError::IndexOutOfBounds { index: 3, len: 2 }.message(),
        "index out of bounds: 3 >= 2"
    );
    assert_eq!(
        RuntimeError::Memory(MemoryError::OutOfMemory {
            requested: 1,
            available: 0
        })
        .message(),
        "memory error: out of memory: requested 1, available 0"
    );
    assert_eq!(
        RuntimeError::Memory(MemoryError::InvalidAddress(4)).message(),
        "memory error: invalid address: 4"
    );
    assert_eq!(
        RuntimeError::TypeMismatch {
            expected: "integer".to_string(),
            found: "unit".to_string()
        }
        .message(),
        "type mismatch: expected integer, found unit"
    );
    assert_eq!(
        RuntimeError::UndefinedFunction("f".to_string()).message(),
        "undefined function: f"
    );
}

#[test]
fn bytecode_constant_pool_is_stable() {
    let mut b = Bytecode::new();
    let i0 = b.add_constant(Constant::Integer(1));
    let i1 = b.add_constant(Constant::String("s".to_string()));
    assert_eq!(i0, 0);
    assert_eq!(i1, 1);
    assert!(matches!(b.get_constant(0), Some(Constant::Integer(1))));
    match b.get_constant(1) {
        Some(Constant::String(s)) => assert_eq!(s, "s"),
        _ => panic!("expected the string constant"),
    }
    assert!(b.get_constant(2).is_none());
    b.push(Instruction::new(OpKind::Nop).with_span(3, 9));
    assert_eq!(b.instructions().len(), 1);
    assert_eq!(b.instructions()[0].op, OpKind::Nop);
    assert_eq!(b.instructions()[0].span, (3, 9));
    let b2 = Bytecode::with_capacity(16);
    assert_eq!(b2.instructions().len(), 0);
    assert!(b2.metadata().module_name.is_none());
}
