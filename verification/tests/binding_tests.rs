//! Tests for the binder: literal ceilings, duplicate definitions, shadowing,
//! block types, and call checking.

use fplc::ast::{Ast, AstFile};
use fplc::binding::{bind_ast, ScopeSnapshot};
use fplc::bound_nodes::{BoundNode, BoundNodeTrait};
use fplc::common::{CompileError, CompileErrorKind};
use fplc::lexer::Lexer;
use fplc::parsing::parse_file;
use fplc::pipeline::{bind_program, builtin_scope};
use fplc::types::Type;

fn parse_source(source: &str) -> AstFile {
    let mut lexer = Lexer::new("Test.fpl".to_string(), source);
    parse_file(&mut lexer).unwrap()
}

fn bind_source(source: &str) -> Result<BoundNode, CompileError> {
    bind_program(parse_source(source))
}

#[test]
fn integer_literal_at_ceiling_binds() {
    let bound = bind_source("9223372036854775807").unwrap();
    let file = bound.unwrap_block();
    let literal = file.expressions[0].unwrap_integer();
    assert_eq!(literal.value, 9223372036854775807u128);
    assert!(matches!(file.expressions[0].get_type(), Type::Integer));
}

#[test]
fn integer_literal_of_zero_binds() {
    let bound = bind_source("0").unwrap();
    let file = bound.unwrap_block();
    let literal = file.expressions[0].unwrap_integer();
    assert_eq!(literal.value, 0);
}

#[test]
fn integer_literal_above_ceiling_is_rejected() {
    let error = bind_source("9223372036854775808").unwrap_err();
    match error.kind {
        CompileErrorKind::IntegerTooLarge { value } => {
            assert_eq!(value, 9223372036854775808u128);
        },
        other => panic!("wrong error kind: {:?}", other),
    }
}

#[test]
fn duplicate_definition_is_rejected() {
    let error = bind_source("let a = 1\nlet a = 2").unwrap_err();
    match error.kind {
        CompileErrorKind::DuplicateDefinition { name, .. } => {
            assert_eq!(name, "a");
        },
        other => panic!("wrong error kind: {:?}", other),
    }
}

#[test]
fn duplicate_definition_is_rejected_despite_separation() {
    let source = "let a = 1\nlet b = 2\nlet c = 3\n4 + 5\nexport a = 6";
    let error = bind_source(source).unwrap_err();
    match error.kind {
        CompileErrorKind::DuplicateDefinition { name, original } => {
            assert_eq!(name, "a");
            assert_eq!(original.line, 1);
        },
        other => panic!("wrong error kind: {:?}", other),
    }
}

#[test]
fn shadowing_in_nested_scope_is_legal() {
    // `a` is already defined outside; redefining it inside the block is
    // shadowing, not a duplicate definition.
    let source = "let a = 1\n{\nexport a = 2\n}";
    let bound = bind_source(source).unwrap();
    let file = bound.unwrap_block();
    assert_eq!(file.expressions.len(), 2);
    let inner = file.expressions[1].unwrap_block();
    match &inner.block_type {
        Type::Block(block_type) => {
            assert_eq!(block_type.exported_types.len(), 1);
            assert_eq!(block_type.exported_types[0].0, "a");
            assert!(matches!(block_type.exported_types[0].1, Type::Integer));
        },
        other => panic!("wrong block type: {:?}", other),
    }
}

#[test]
fn block_type_lists_exactly_its_exports() {
    let source = "{\nlet a = 1\nexport b = 2\n}";
    let bound = bind_source(source).unwrap();
    let file = bound.unwrap_block();
    let block = file.expressions[0].unwrap_block();
    match &block.block_type {
        Type::Block(block_type) => {
            assert_eq!(block_type.exported_types.len(), 1);
            assert_eq!(block_type.exported_types[0].0, "b");
            assert!(matches!(block_type.exported_types[0].1, Type::Integer));
        },
        other => panic!("wrong block type: {:?}", other),
    }
}

#[test]
fn undefined_name_is_rejected() {
    let error = bind_source("missing + 1").unwrap_err();
    match error.kind {
        CompileErrorKind::UndefinedName { name } => {
            assert_eq!(name, "missing");
        },
        other => panic!("wrong error kind: {:?}", other),
    }
}

#[test]
fn operator_needs_integer_operands() {
    let error = bind_source("let a\na + 1").unwrap_err();
    assert!(matches!(
        error.kind,
        CompileErrorKind::BinaryOperatorNotFound { .. }
    ));

    let error = bind_source("let a\n-a").unwrap_err();
    assert!(matches!(
        error.kind,
        CompileErrorKind::UnaryOperatorNotFound { .. }
    ));
}

#[test]
fn calling_a_non_procedure_is_rejected() {
    let error = bind_source("let a = 1\na(2)").unwrap_err();
    match error.kind {
        CompileErrorKind::NotCallable { actual, .. } => {
            assert!(matches!(actual, Type::Integer));
        },
        other => panic!("wrong error kind: {:?}", other),
    }
}

#[test]
fn arity_mismatch_is_rejected() {
    let error = bind_source("print_integer()").unwrap_err();
    match error.kind {
        CompileErrorKind::ArityMismatch { expected, actual } => {
            assert_eq!(expected, 1);
            assert_eq!(actual, 0);
        },
        other => panic!("wrong error kind: {:?}", other),
    }

    let error = bind_source("print_integer(1, 2)").unwrap_err();
    match error.kind {
        CompileErrorKind::ArityMismatch { expected, actual } => {
            assert_eq!(expected, 1);
            assert_eq!(actual, 2);
        },
        other => panic!("wrong error kind: {:?}", other),
    }
}

#[test]
fn argument_type_mismatch_is_rejected() {
    let error = bind_source("print_integer(let x)").unwrap_err();
    match error.kind {
        CompileErrorKind::ArgumentTypeMismatch { index, expected, actual } => {
            assert_eq!(index, 0);
            assert!(matches!(expected, Type::Integer));
            assert!(matches!(actual, Type::Void));
        },
        other => panic!("wrong error kind: {:?}", other),
    }
}

#[test]
fn file_scope_does_not_leak_into_caller() {
    let file = parse_source("let a = 1");
    let mut names = builtin_scope();
    let before = names.entries.len();
    bind_ast(&Ast::File(file), &mut names).unwrap();
    assert_eq!(names.entries.len(), before);
}

#[test]
fn binding_in_an_empty_scope_misses_builtins() {
    let file = parse_source("print_integer(1)");
    let mut names = ScopeSnapshot::new();
    let error = bind_ast(&Ast::File(file), &mut names).unwrap_err();
    assert!(matches!(error.kind, CompileErrorKind::UndefinedName { .. }));
}

#[test]
fn structural_type_equality_is_deep() {
    let left = Type::Proc(fplc::types::ProcType {
        parameter_types: vec![Type::Integer, Type::Void],
        return_type: Box::new(Type::Void),
    });
    let right = Type::Proc(fplc::types::ProcType {
        parameter_types: vec![Type::Integer, Type::Void],
        return_type: Box::new(Type::Void),
    });
    let different = Type::Proc(fplc::types::ProcType {
        parameter_types: vec![Type::Integer],
        return_type: Box::new(Type::Void),
    });
    assert!(fplc::types::type_eq(&left, &right));
    assert!(!fplc::types::type_eq(&left, &different));
    assert!(!fplc::types::type_eq(&left, &Type::Integer));
}
