//! Tests for the parser: tree shapes, precedence, and declarations.

use fplc::ast::AstTrait;
use fplc::lexer::Lexer;
use fplc::parsing::parse_file;
use fplc::token::TokenKind;

#[test]
fn main_empty_file() {
    let filepath = "Empty.fpl".to_string();
    let source = "";
    let mut lexer = Lexer::new(filepath.clone(), source);
    let file = parse_file(&mut lexer).unwrap();
    assert_eq!(file.expressions.len(), 0);
    assert_eq!(file.end_of_file_token.kind, TokenKind::EndOfFile);
}

#[test]
fn expression_test() {
    let filepath = "Expression.fpl".to_string();
    let source = "1 + 2 * 3";
    let mut lexer = Lexer::new(filepath.clone(), source);
    let file = parse_file(&mut lexer).unwrap();
    assert_eq!(file.expressions.len(), 1);
    assert_eq!(file.end_of_file_token.kind, TokenKind::EndOfFile);

    let binary_plus = file.expressions[0].unwrap_binary();
    assert_eq!(binary_plus.operator_token.kind, TokenKind::Plus);

    let integer_1 = binary_plus.left.unwrap_integer();
    assert_eq!(integer_1.integer_token.kind, TokenKind::Integer(1));

    let binary_asterisk = binary_plus.right.unwrap_binary();
    assert_eq!(binary_asterisk.operator_token.kind, TokenKind::Asterisk);

    let integer_2 = binary_asterisk.left.unwrap_integer();
    assert_eq!(integer_2.integer_token.kind, TokenKind::Integer(2));

    let integer_3 = binary_asterisk.right.unwrap_integer();
    assert_eq!(integer_3.integer_token.kind, TokenKind::Integer(3));
}

#[test]
fn let_test() {
    let filepath = "Let.fpl".to_string();
    let source = "
			let a
			let b = 5
		";
    let mut lexer = Lexer::new(filepath.clone(), source);
    let file = parse_file(&mut lexer).unwrap();
    assert_eq!(file.expressions.len(), 2);
    assert_eq!(file.end_of_file_token.kind, TokenKind::EndOfFile);

    let a = file.expressions[0].unwrap_let();
    assert_eq!(a.name_token.kind, TokenKind::Name("a".to_string()));
    assert_eq!(a.value, None);

    let b = file.expressions[1].unwrap_let();
    assert_eq!(b.name_token.kind, TokenKind::Name("b".to_string()));
    let b_value = b.value.clone().unwrap();
    let integer_5 = b_value.unwrap_integer();
    assert_eq!(integer_5.integer_token.kind, TokenKind::Integer(5));
}

#[test]
fn block_test() {
    let filepath = "Block.fpl".to_string();
    let source = "
		let foo =
		{
			let a
			5
		}";
    let mut lexer = Lexer::new(filepath.clone(), source);
    let file = parse_file(&mut lexer).unwrap();
    assert_eq!(file.expressions.len(), 1);
    assert_eq!(file.end_of_file_token.kind, TokenKind::EndOfFile);

    let foo = file.expressions[0].unwrap_let();
    assert_eq!(foo.name_token.kind, TokenKind::Name("foo".to_string()));
    let foo_value = foo.value.clone().unwrap();

    let block = foo_value.unwrap_block();
    assert_eq!(block.expressions.len(), 2);

    let a = block.expressions[0].unwrap_let();
    assert_eq!(a.name_token.kind, TokenKind::Name("a".to_string()));
    assert_eq!(a.value, None);

    let integer_5 = block.expressions[1].unwrap_integer();
    assert_eq!(integer_5.integer_token.kind, TokenKind::Integer(5));
}

#[test]
fn export_test() {
    let filepath = "Block.fpl".to_string();
    let source = "
		export foo =
		{
			let a
			export b = 5
		}";
    let mut lexer = Lexer::new(filepath.clone(), source);
    let file = parse_file(&mut lexer).unwrap();
    assert_eq!(file.expressions.len(), 1);
    assert_eq!(file.end_of_file_token.kind, TokenKind::EndOfFile);

    let foo_export = file.expressions[0].unwrap_export();
    assert_eq!(
        foo_export.name_token.kind,
        TokenKind::Name("foo".to_string())
    );

    let block = foo_export.value.unwrap_block();
    assert_eq!(block.expressions.len(), 2);

    let a = block.expressions[0].unwrap_let();
    assert_eq!(a.name_token.kind, TokenKind::Name("a".to_string()));
    assert_eq!(a.value, None);

    let export_b = block.expressions[1].unwrap_export();
    assert_eq!(export_b.name_token.kind, TokenKind::Name("b".to_string()));
    let integer_5 = export_b.value.unwrap_integer();
    assert_eq!(integer_5.integer_token.kind, TokenKind::Integer(5));
}

#[test]
fn unary_and_call_shapes() {
    let filepath = "Shapes.fpl".to_string();
    let source = "f(-5, +3)";
    let mut lexer = Lexer::new(filepath, source);
    let file = parse_file(&mut lexer).unwrap();
    assert_eq!(file.expressions.len(), 1);

    let call = file.expressions[0].unwrap_call();
    let callee = call.operand.unwrap_name();
    assert_eq!(callee.name_token.kind, TokenKind::Name("f".to_string()));
    assert_eq!(call.arguments.len(), 2);

    let minus_five = call.arguments[0].unwrap_unary();
    assert_eq!(minus_five.operator_token.kind, TokenKind::Minus);
    assert_eq!(
        minus_five.operand.unwrap_integer().integer_token.kind,
        TokenKind::Integer(5)
    );

    let plus_three = call.arguments[1].unwrap_unary();
    assert_eq!(plus_three.operator_token.kind, TokenKind::Plus);
    assert_eq!(
        plus_three.operand.unwrap_integer().integer_token.kind,
        TokenKind::Integer(3)
    );
}

#[test]
fn missing_newline_between_expressions() {
    let filepath = "Bad.fpl".to_string();
    let source = "let a = 1 let b = 2";
    let mut lexer = Lexer::new(filepath, source);
    assert!(parse_file(&mut lexer).is_err());
}

#[test]
fn pretty_print_renders_expressions() {
    let filepath = "Pretty.fpl".to_string();
    let source = "let a = 12345\nprint_integer(a + 2 * 3)";
    let mut lexer = Lexer::new(filepath, source);
    let file = parse_file(&mut lexer).unwrap();
    let ast = fplc::ast::Ast::File(file);
    let rendered = ast.pretty_print(0);
    assert_eq!(rendered, "\nlet a = 12345\nprint_integer(a + 2 * 3)\n");
    let file = ast.unwrap_file();
    assert_eq!(file.expressions.len(), 2);
}
