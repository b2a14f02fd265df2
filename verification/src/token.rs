//! Tokens produced by the lexer.

use vstd::prelude::*;

use crate::common::SourceLocation;

verus! {

#[derive(Debug, PartialEq)]
pub enum TokenKind {
    // Special
    EndOfFile,
    Newline,
    Name(String),
    Integer(u128),
    // Keywords
    Export,
    Let,
    // Brackets
    OpenParenthesis,
    CloseParenthesis,
    OpenBrace,
    CloseBrace,
    // Symbols
    LeftArrow,
    RightArrow,
    Comma,
    // Operators
    Plus,
    Minus,
    Asterisk,
    Slash,
    ExclamationMark,
    // Comparison operators
    EqualEqual,
    ExclamationMarkEqual,
    LessThan,
    GreaterThan,
    LessThanEqual,
    GreaterThanEqual,
    // Assignment operators
    Equal,
    PlusEqual,
    MinusEqual,
    AsteriskEqual,
    SlashEqual,
}

impl Clone for TokenKind {
    /// The copy equals the original.
    fn clone(&self) -> (r: Self)
        ensures
            r == *self,
    {
        match self {
            TokenKind::EndOfFile => TokenKind::EndOfFile,
            TokenKind::Newline => TokenKind::Newline,
            TokenKind::Name(name) => TokenKind::Name(name.clone()),
            TokenKind::Integer(value) => TokenKind::Integer(*value),
            TokenKind::Export => TokenKind::Export,
            TokenKind::Let => TokenKind::Let,
            TokenKind::OpenParenthesis => TokenKind::OpenParenthesis,
            TokenKind::CloseParenthesis => TokenKind::CloseParenthesis,
            TokenKind::OpenBrace => TokenKind::OpenBrace,
            TokenKind::CloseBrace => TokenKind::CloseBrace,
            TokenKind::LeftArrow => TokenKind::LeftArrow,
            TokenKind::RightArrow => TokenKind::RightArrow,
            TokenKind::Comma => TokenKind::Comma,
            TokenKind::Plus => TokenKind::Plus,
            TokenKind::Minus => TokenKind::Minus,
            TokenKind::Asterisk => TokenKind::Asterisk,
            TokenKind::Slash => TokenKind::Slash,
            TokenKind::ExclamationMark => TokenKind::ExclamationMark,
            TokenKind::EqualEqual => TokenKind::EqualEqual,
            TokenKind::ExclamationMarkEqual => TokenKind::ExclamationMarkEqual,
            TokenKind::LessThan => TokenKind::LessThan,
            TokenKind::GreaterThan => TokenKind::GreaterThan,
            TokenKind::LessThanEqual => TokenKind::LessThanEqual,
            TokenKind::GreaterThanEqual => TokenKind::GreaterThanEqual,
            TokenKind::Equal => TokenKind::Equal,
            TokenKind::PlusEqual => TokenKind::PlusEqual,
            TokenKind::MinusEqual => TokenKind::MinusEqual,
            TokenKind::AsteriskEqual => TokenKind::AsteriskEqual,
            TokenKind::SlashEqual => TokenKind::SlashEqual,
        }
    }
}


/// Mathematical model of a token kind.
#[verifier::ext_equal]
pub enum TokenKindModel {
    EndOfFile,
    Newline,
    Name(Seq<char>),
    Integer(u128),
    Export,
    Let,
    OpenParenthesis,
    CloseParenthesis,
    OpenBrace,
    CloseBrace,
    LeftArrow,
    RightArrow,
    Comma,
    Plus,
    Minus,
    Asterisk,
    Slash,
    ExclamationMark,
    EqualEqual,
    ExclamationMarkEqual,
    LessThan,
    GreaterThan,
    LessThanEqual,
    GreaterThanEqual,
    Equal,
    PlusEqual,
    MinusEqual,
    AsteriskEqual,
    SlashEqual,
}

impl View for TokenKind {
    type V = TokenKindModel;

    open spec fn view(&self) -> TokenKindModel {
        match self {
            TokenKind::EndOfFile => TokenKindModel::EndOfFile,
            TokenKind::Newline => TokenKindModel::Newline,
            TokenKind::Name(name) => TokenKindModel::Name(name@),
            TokenKind::Integer(value) => TokenKindModel::Integer(*value),
            TokenKind::Export => TokenKindModel::Export,
            TokenKind::Let => TokenKindModel::Let,
            TokenKind::OpenParenthesis => TokenKindModel::OpenParenthesis,
            TokenKind::CloseParenthesis => TokenKindModel::CloseParenthesis,
            TokenKind::OpenBrace => TokenKindModel::OpenBrace,
            TokenKind::CloseBrace => TokenKindModel::CloseBrace,
            TokenKind::LeftArrow => TokenKindModel::LeftArrow,
            TokenKind::RightArrow => TokenKindModel::RightArrow,
            TokenKind::Comma => TokenKindModel::Comma,
            TokenKind::Plus => TokenKindModel::Plus,
            TokenKind::Minus => TokenKindModel::Minus,
            TokenKind::Asterisk => TokenKindModel::Asterisk,
            TokenKind::Slash => TokenKindModel::Slash,
            TokenKind::ExclamationMark => TokenKindModel::ExclamationMark,
            TokenKind::EqualEqual => TokenKindModel::EqualEqual,
            TokenKind::ExclamationMarkEqual => TokenKindModel::ExclamationMarkEqual,
            TokenKind::LessThan => TokenKindModel::LessThan,
            TokenKind::GreaterThan => TokenKindModel::GreaterThan,
            TokenKind::LessThanEqual => TokenKindModel::LessThanEqual,
            TokenKind::GreaterThanEqual => TokenKindModel::GreaterThanEqual,
            TokenKind::Equal => TokenKindModel::Equal,
            TokenKind::PlusEqual => TokenKindModel::PlusEqual,
            TokenKind::MinusEqual => TokenKindModel::MinusEqual,
            TokenKind::AsteriskEqual => TokenKindModel::AsteriskEqual,
            TokenKind::SlashEqual => TokenKindModel::SlashEqual,
        }
    }
}

/// How a token kind is described in diagnostics.
pub open spec fn kind_description(kind: TokenKind) -> Seq<char> {
    match kind {
        TokenKind::EndOfFile => "the end of file"@,
        TokenKind::Newline => "a newline"@,
        TokenKind::Name(_) => "a name"@,
        TokenKind::Integer(_) => "an integer"@,
        TokenKind::Export => "export"@,
        TokenKind::Let => "let"@,
        TokenKind::OpenParenthesis => "("@,
        TokenKind::CloseParenthesis => ")"@,
        TokenKind::OpenBrace => "{"@,
        TokenKind::CloseBrace => "}"@,
        TokenKind::LeftArrow => "<-"@,
        TokenKind::RightArrow => "->"@,
        TokenKind::Comma => ","@,
        TokenKind::Plus => "+"@,
        TokenKind::Minus => "-"@,
        TokenKind::Asterisk => "*"@,
        TokenKind::Slash => "/"@,
        TokenKind::ExclamationMark => "!"@,
        TokenKind::EqualEqual => "=="@,
        TokenKind::ExclamationMarkEqual => "!="@,
        TokenKind::LessThan => "<"@,
        TokenKind::GreaterThan => ">"@,
        TokenKind::LessThanEqual => "<="@,
        TokenKind::GreaterThanEqual => ">="@,
        TokenKind::Equal => "="@,
        TokenKind::PlusEqual => "+="@,
        TokenKind::MinusEqual => "-="@,
        TokenKind::AsteriskEqual => "*="@,
        TokenKind::SlashEqual => "/="@,
    }
}

impl TokenKind {
    /// Renders the token kind as it is described in diagnostics.
    pub fn to_string(&self) -> (r: String)
        ensures
            r@ == kind_description(*self),
    {
        match self {
            TokenKind::EndOfFile => String::from_str("the end of file"),
            TokenKind::Newline => String::from_str("a newline"),
            TokenKind::Name(_) => String::from_str("a name"),
            TokenKind::Integer(_) => String::from_str("an integer"),
            TokenKind::Export => String::from_str("export"),
            TokenKind::Let => String::from_str("let"),
            TokenKind::OpenParenthesis => String::from_str("("),
            TokenKind::CloseParenthesis => String::from_str(")"),
            TokenKind::OpenBrace => String::from_str("{"),
            TokenKind::CloseBrace => String::from_str("}"),
            TokenKind::LeftArrow => String::from_str("<-"),
            TokenKind::RightArrow => String::from_str("->"),
            TokenKind::Comma => String::from_str(","),
            TokenKind::Plus => String::from_str("+"),
            TokenKind::Minus => String::from_str("-"),
            TokenKind::Asterisk => String::from_str("*"),
            TokenKind::Slash => String::from_str("/"),
            TokenKind::ExclamationMark => String::from_str("!"),
            TokenKind::EqualEqual => String::from_str("=="),
            TokenKind::ExclamationMarkEqual => String::from_str("!="),
            TokenKind::LessThan => String::from_str("<"),
            TokenKind::GreaterThan => String::from_str(">"),
            TokenKind::LessThanEqual => String::from_str("<="),
            TokenKind::GreaterThanEqual => String::from_str(">="),
            TokenKind::Equal => String::from_str("="),
            TokenKind::PlusEqual => String::from_str("+="),
            TokenKind::MinusEqual => String::from_str("-="),
            TokenKind::AsteriskEqual => String::from_str("*="),
            TokenKind::SlashEqual => String::from_str("/="),
        }
    }
}

/// One token: its kind, where it starts, and how many characters it spans.
#[derive(Debug, PartialEq)]
pub struct Token {
    pub kind: TokenKind,
    pub location: SourceLocation,
    pub length: usize,
}

impl Clone for Token {
    /// The copy equals the original.
    fn clone(&self) -> (r: Self)
        ensures
            r == *self,
    {
        Token { kind: self.kind.clone(), location: self.location.clone(), length: self.length }
    }
}

} // verus!
