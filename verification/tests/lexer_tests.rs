//! Tests for the lexer: token kinds, literal values, and lexing errors.

use fplc::common::CompileErrorKind;
use fplc::lexer::Lexer;
use fplc::token::TokenKind;

#[test]
fn empty_file() {
    let filepath = "Empty.fpl".to_string();
    let source = "";
    let mut lexer = Lexer::new(filepath.clone(), source);
    assert_eq!(lexer.next_token().unwrap().kind, TokenKind::EndOfFile);
}

#[test]
fn integer() {
    let filepath = "Integer.fpl".to_string();
    let source = "123 0x856 0d543 0b0100101 0o5674 0b135";
    let mut lexer = Lexer::new(filepath, source);
    assert_eq!(lexer.next_token().unwrap().kind, TokenKind::Integer(123));
    assert_eq!(lexer.next_token().unwrap().kind, TokenKind::Integer(0x856));
    assert_eq!(lexer.next_token().unwrap().kind, TokenKind::Integer(543));
    assert_eq!(
        lexer.next_token().unwrap().kind,
        TokenKind::Integer(0b0100101)
    );
    assert_eq!(lexer.next_token().unwrap().kind, TokenKind::Integer(0o5674));
    lexer.next_token().unwrap_err();
}

#[test]
fn name() {
    let filepath = "Integer.fpl".to_string();
    let source = "a123 _5_5aayufwuadvwuadvWADWauDYwYUDwa";
    let mut lexer = Lexer::new(filepath, source);
    assert_eq!(
        lexer.next_token().unwrap().kind,
        TokenKind::Name("a123".to_string())
    );
    assert_eq!(
        lexer.next_token().unwrap().kind,
        TokenKind::Name("_5_5aayufwuadvwuadvWADWauDYwYUDwa".to_string())
    );
    assert_eq!(lexer.next_token().unwrap().kind, TokenKind::EndOfFile);
}

#[test]
fn keywords_and_operators() {
    let filepath = "Tokens.fpl".to_string();
    let source = "let export foo + - * / ( ) { } , = == ->";
    let mut lexer = Lexer::new(filepath, source);
    assert_eq!(lexer.next_token().unwrap().kind, TokenKind::Let);
    assert_eq!(lexer.next_token().unwrap().kind, TokenKind::Export);
    assert_eq!(
        lexer.next_token().unwrap().kind,
        TokenKind::Name("foo".to_string())
    );
    assert_eq!(lexer.next_token().unwrap().kind, TokenKind::Plus);
    assert_eq!(lexer.next_token().unwrap().kind, TokenKind::Minus);
    assert_eq!(lexer.next_token().unwrap().kind, TokenKind::Asterisk);
    assert_eq!(lexer.next_token().unwrap().kind, TokenKind::Slash);
    assert_eq!(lexer.next_token().unwrap().kind, TokenKind::OpenParenthesis);
    assert_eq!(lexer.next_token().unwrap().kind, TokenKind::CloseParenthesis);
    assert_eq!(lexer.next_token().unwrap().kind, TokenKind::OpenBrace);
    assert_eq!(lexer.next_token().unwrap().kind, TokenKind::CloseBrace);
    assert_eq!(lexer.next_token().unwrap().kind, TokenKind::Comma);
    assert_eq!(lexer.next_token().unwrap().kind, TokenKind::Equal);
    assert_eq!(lexer.next_token().unwrap().kind, TokenKind::EqualEqual);
    assert_eq!(lexer.next_token().unwrap().kind, TokenKind::RightArrow);
    assert_eq!(lexer.next_token().unwrap().kind, TokenKind::EndOfFile);
}

#[test]
fn comments_and_locations() {
    let filepath = "Comment.fpl".to_string();
    let source = "1 // comment\n2";
    let mut lexer = Lexer::new(filepath, source);
    let one = lexer.next_token().unwrap();
    assert_eq!(one.kind, TokenKind::Integer(1));
    assert_eq!(one.location.line, 1);
    assert_eq!(one.location.column, 1);
    let newline = lexer.next_token().unwrap();
    assert_eq!(newline.kind, TokenKind::Newline);
    let two = lexer.next_token().unwrap();
    assert_eq!(two.kind, TokenKind::Integer(2));
    assert_eq!(two.location.line, 2);
    assert_eq!(two.location.column, 1);
}

#[test]
fn peek_does_not_consume() {
    let filepath = "Peek.fpl".to_string();
    let source = "42";
    let lexer = Lexer::new(filepath, source);
    assert_eq!(lexer.peek_kind().unwrap(), TokenKind::Integer(42));
    let mut lexer = lexer;
    assert_eq!(lexer.next_token().unwrap().kind, TokenKind::Integer(42));
    assert_eq!(lexer.next_token().unwrap().kind, TokenKind::EndOfFile);
}

#[test]
fn token_kind_descriptions() {
    assert_eq!(TokenKind::EndOfFile.to_string(), "the end of file");
    assert_eq!(TokenKind::Newline.to_string(), "a newline");
    assert_eq!(TokenKind::Name("x".to_string()).to_string(), "a name");
    assert_eq!(TokenKind::Integer(7).to_string(), "an integer");
    assert_eq!(TokenKind::PlusEqual.to_string(), "+=");
}

#[test]
fn lexing_errors_carry_the_offending_character() {
    let mut lexer = Lexer::new("Digits.fpl".to_string(), "0b135");
    let error = lexer.next_token().unwrap_err();
    match error.kind {
        CompileErrorKind::DigitOutOfRange { found, base } => {
            assert_eq!(found, '3');
            assert_eq!(base, 2);
        }
        other => panic!("wrong error kind: {:?}", other),
    }
    assert_eq!(error.location.position, 3);

    let mut lexer = Lexer::new("Odd.fpl".to_string(), "  #");
    let error = lexer.next_token().unwrap_err();
    match error.kind {
        CompileErrorKind::UnexpectedCharacter { found } => assert_eq!(found, '#'),
        other => panic!("wrong error kind: {:?}", other),
    }
    assert_eq!(error.location.position, 2);
}
