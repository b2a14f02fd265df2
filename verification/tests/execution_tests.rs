//! Tests for lowering and execution: arithmetic results, program output,
//! runtime faults, and the whole pipeline end to end.

use fplc::bytecode::{Bytecode, BytecodeValue};
use fplc::execute::{execute_bytecode, RunOutcome, RuntimeFault};
use fplc::lexer::Lexer;
use fplc::parsing::parse_file;
use fplc::pipeline::{bind_program, lower_program, run_program};

/// Runs one source text through every stage: lex, parse, bind, lower,
/// execute.
fn run_snippet(source: &str) -> (Vec<i64>, Result<RunOutcome, RuntimeFault>) {
    let mut lexer = Lexer::new("Test.fpl".to_string(), source);
    let file = parse_file(&mut lexer).expect("program should parse");
    let program = bind_program(file).expect("program should bind");
    let bytecode = lower_program(&program);
    let mut output: Vec<i64> = Vec::new();
    let result = run_program(&bytecode, &mut output, 64);
    (output, result)
}

#[test]
fn precedence_makes_seven() {
    let (output, result) = run_snippet("print_integer(1 + 2 * 3)");
    assert_eq!(output, vec![7]);
    assert!(matches!(result, Ok(RunOutcome::Exited)));
}

#[test]
fn unary_negation_evaluates() {
    let (output, result) = run_snippet("print_integer(-5)");
    assert_eq!(output, vec![-5]);
    assert!(matches!(result, Ok(RunOutcome::Exited)));
}

#[test]
fn unary_identity_evaluates() {
    let (output, result) = run_snippet("print_integer(+5)");
    assert_eq!(output, vec![5]);
    assert!(matches!(result, Ok(RunOutcome::Exited)));
}

#[test]
fn division_by_zero_faults_after_compiling() {
    let (output, result) = run_snippet("10 / 0");
    assert_eq!(output, Vec::<i64>::new());
    assert!(matches!(result, Err(RuntimeFault::DivisionByZero)));
}

#[test]
fn arithmetic_follows_the_operators() {
    let (output, result) = run_snippet("print_integer(10 - 3)\nprint_integer(10 / 3)\nprint_integer((1 + 2) * 3)");
    assert_eq!(output, vec![7, 3, 9]);
    assert!(matches!(result, Ok(RunOutcome::Exited)));
}

#[test]
fn shadowed_name_resolves_to_inner_value() {
    // The binder scopes lexically, so the shadowing export is legal; the
    // runtime environment of an invocation is flat, so the block's store is
    // what a later load of the same name sees.
    let source = "let a = 1\n{\nprint_integer(2)\nexport a = 2\n}\nprint_integer(a)";
    let (output, result) = run_snippet(source);
    assert_eq!(output, vec![2, 2]);
    assert!(matches!(result, Ok(RunOutcome::Exited)));
}

#[test]
fn let_values_load_back() {
    let source = "let a = 4\nlet b = a * a\nprint_integer(b + 1)";
    let (output, result) = run_snippet(source);
    assert_eq!(output, vec![17]);
    assert!(matches!(result, Ok(RunOutcome::Exited)));
}

#[test]
fn output_comes_in_program_order() {
    let source = "print_integer(1)\nprint_integer(2)\nprint_integer(3)";
    let (output, result) = run_snippet(source);
    assert_eq!(output, vec![1, 2, 3]);
    assert!(matches!(result, Ok(RunOutcome::Exited)));
}

#[test]
fn returned_value_comes_off_the_stack() {
    let code = vec![
        Bytecode::Push(BytecodeValue::Integer(2)),
        Bytecode::Push(BytecodeValue::Integer(5)),
        Bytecode::MulInteger,
        Bytecode::Return,
    ];
    let mut output: Vec<i64> = Vec::new();
    let result = execute_bytecode(&code, Vec::new(), &mut output, 4).unwrap();
    match result {
        RunOutcome::Returned(value) => assert_eq!(value.unwrap_integer(), &10),
        other => panic!("wrong outcome: {:?}", other),
    }
    assert!(output.is_empty());
}

#[test]
fn wrapping_arithmetic_wraps() {
    let code = vec![
        Bytecode::Push(BytecodeValue::Integer(i64::MAX)),
        Bytecode::Push(BytecodeValue::Integer(1)),
        Bytecode::AddInteger,
        Bytecode::Return,
    ];
    let mut output: Vec<i64> = Vec::new();
    let result = execute_bytecode(&code, Vec::new(), &mut output, 4).unwrap();
    match result {
        RunOutcome::Returned(value) => assert_eq!(value.unwrap_integer(), &i64::MIN),
        other => panic!("wrong outcome: {:?}", other),
    }
}

#[test]
fn truncating_division_truncates_towards_zero() {
    let code = vec![
        Bytecode::Push(BytecodeValue::Integer(-7)),
        Bytecode::Push(BytecodeValue::Integer(2)),
        Bytecode::DivInteger,
        Bytecode::Return,
    ];
    let mut output: Vec<i64> = Vec::new();
    let result = execute_bytecode(&code, Vec::new(), &mut output, 4).unwrap();
    match result {
        RunOutcome::Returned(value) => assert_eq!(value.unwrap_integer(), &-3),
        other => panic!("wrong outcome: {:?}", other),
    }
}

#[test]
fn stack_underflow_is_a_fault() {
    let code = vec![Bytecode::Pop];
    let mut output: Vec<i64> = Vec::new();
    let fault = execute_bytecode(&code, Vec::new(), &mut output, 4).unwrap_err();
    // One void value sits at the bottom of every invocation's stack, so the
    // first pop succeeds and the missing-return fault is reported instead.
    assert_eq!(fault, RuntimeFault::MissingReturn);

    let code = vec![Bytecode::Pop, Bytecode::Pop];
    let fault = execute_bytecode(&code, Vec::new(), &mut output, 4).unwrap_err();
    assert_eq!(fault, RuntimeFault::StackUnderflow);
}

#[test]
fn loading_an_unbound_name_is_a_fault() {
    let code = vec![Bytecode::Load("nowhere".to_string())];
    let mut output: Vec<i64> = Vec::new();
    let fault = execute_bytecode(&code, Vec::new(), &mut output, 4).unwrap_err();
    assert_eq!(fault, RuntimeFault::UndefinedVariable);
}

#[test]
fn calling_a_non_procedure_value_is_a_fault() {
    let code = vec![
        Bytecode::Push(BytecodeValue::Integer(3)),
        Bytecode::Call { argument_count: 0 },
    ];
    let mut output: Vec<i64> = Vec::new();
    let fault = execute_bytecode(&code, Vec::new(), &mut output, 4).unwrap_err();
    assert_eq!(fault, RuntimeFault::NotAProcedure);
}

#[test]
fn call_depth_budget_is_enforced() {
    let code = vec![
        Bytecode::Push(BytecodeValue::Procedure(vec![
            Bytecode::PrintInteger,
            Bytecode::Return,
        ])),
        Bytecode::Push(BytecodeValue::Integer(9)),
        Bytecode::Call { argument_count: 1 },
        Bytecode::Exit,
    ];
    let mut output: Vec<i64> = Vec::new();
    let fault = execute_bytecode(&code, Vec::new(), &mut output, 0).unwrap_err();
    assert_eq!(fault, RuntimeFault::CallDepthExceeded);

    let mut output: Vec<i64> = Vec::new();
    let result = execute_bytecode(&code, Vec::new(), &mut output, 1).unwrap();
    assert!(matches!(result, RunOutcome::Exited));
    assert_eq!(output, vec![9]);
}

#[test]
fn bytecode_value_accessors_open_their_variants() {
    let procedure = BytecodeValue::Procedure(vec![Bytecode::Return]);
    assert_eq!(procedure.unwrap_procedure().len(), 1);
    let record = BytecodeValue::Block(vec![("a".to_string(), BytecodeValue::Integer(1))]);
    let entries = record.unwrap_block();
    assert_eq!(entries.len(), 1);
    assert_eq!(entries[0].0, "a");
    assert_eq!(entries[0].1.unwrap_integer(), &1);
}

#[test]
fn lowering_ends_with_exit() {
    let mut lexer = fplc::lexer::Lexer::new("Lower.fpl".to_string(), "1 + 2");
    let file = fplc::parsing::parse_file(&mut lexer).unwrap();
    let program = bind_program(file).unwrap();
    let code = lower_program(&program);
    assert!(matches!(code.last().unwrap(), Bytecode::Exit));
    assert!(matches!(code[0], Bytecode::Push(BytecodeValue::Procedure(_))));
    assert!(matches!(code[1], Bytecode::Store(_)));
}

#[test]
fn valueless_lets_leave_a_result() {
    // Every statement leaves one value for the enclosing block to pop, a
    // valueless let included: it pushes a void, duplicates it, and stores one
    // copy, so a run over several bare lets completes cleanly.
    let source = "let a\nlet b\nprint_integer(1)";
    let (output, result) = run_snippet(source);
    assert_eq!(output, vec![1]);
    assert!(matches!(result, Ok(RunOutcome::Exited)));
}
