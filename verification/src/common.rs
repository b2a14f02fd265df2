//! Source locations and compile-time errors.
//!
//! Every token, syntax node and bound node carries a [`SourceLocation`] for
//! diagnostics.  A [`CompileError`] is a typed error value: a location plus a
//! [`CompileErrorKind`] that carries everything a renderer needs to print the
//! message and its notes.  Rendering errors to text is left to the caller; the
//! library only produces the typed values.

use vstd::prelude::*;

use crate::token::TokenKind;
use crate::types::{Type, TypeModel};

verus! {

/// A position in a source file: byte-free character offset, plus the
/// one-based line and column used in diagnostics.
#[derive(Debug, PartialEq)]
pub struct SourceLocation {
    pub filepath: String,
    pub position: usize,
    pub line: usize,
    pub column: usize,
}

impl Clone for SourceLocation {
    /// The copy equals the original.
    fn clone(&self) -> (r: Self)
        ensures
            r == *self,
    {
        SourceLocation {
            filepath: self.filepath.clone(),
            position: self.position,
            line: self.line,
            column: self.column,
        }
    }
}

/// An auxiliary remark attached to a compile error, optionally pointing at a
/// second source location.
#[derive(Debug, PartialEq)]
pub struct CompileNote {
    pub location: Option<SourceLocation>,
    pub message: String,
}

/// What went wrong, with the data needed to report it.
#[derive(Debug)]
pub enum CompileErrorKind {
    /// The lexer met a character that starts no token.
    UnexpectedCharacter { found: char },
    /// A digit of an integer literal is out of range for the literal's base.
    DigitOutOfRange { found: char, base: u128 },
    /// An expression must be followed by a newline or the end of the file.
    ExpectedNewlineAfterExpression { found: TokenKind },
    /// Call arguments must be separated by commas.
    ExpectedCommaInCall { found: TokenKind },
    /// A call's argument list must end with a closing parenthesis.
    ExpectedCloseParenInCall { found: TokenKind },
    /// A parenthesised expression must end with a closing parenthesis.
    ExpectedCloseParen { found: TokenKind },
    /// `export` must be followed by a name.
    ExpectedNameForExport { found: TokenKind },
    /// An export's name must be followed by `=`.
    ExpectedEqualForExport { found: TokenKind },
    /// `let` must be followed by a name.
    ExpectedNameForLet { found: TokenKind },
    /// A token that cannot start an expression stood where one was expected.
    ExpectedExpression { found: TokenKind },
    /// A block must start with an opening brace.
    ExpectedOpenBrace { found: TokenKind },
    /// Inside a block, an expression must be followed by a newline or the
    /// closing brace.
    ExpectedNewlineOrCloseBrace { found: TokenKind },
    /// A block must end with a closing brace.
    ExpectedCloseBrace { found: TokenKind },
    /// A file must end with the end-of-file token.
    ExpectedEndOfFile { found: TokenKind },
    /// An `export` or `let` reuses a name already defined in the current
    /// scope; `original` is where the first definition stands.
    DuplicateDefinition { name: String, original: SourceLocation },
    /// A name is not visible in the current scope.
    UndefinedName { name: String },
    /// No unary operator table entry matches the operator and operand type.
    UnaryOperatorNotFound { operator: TokenKind, operand: Type },
    /// No binary operator table entry matches the operator and operand types.
    BinaryOperatorNotFound { operator: TokenKind, left: Type, right: Type },
    /// An integer literal exceeds the 64-bit signed ceiling.
    IntegerTooLarge { value: u128 },
    /// A call's target is not of procedure type.
    NotCallable { actual: Type, operand_location: SourceLocation },
    /// A call passes the wrong number of arguments.
    ArityMismatch { expected: usize, actual: usize },
    /// A call argument's type differs from the corresponding parameter type.
    ArgumentTypeMismatch { index: usize, expected: Type, actual: Type },
}

/// A compile-time error: where it happened and what went wrong.  Binding is
/// fail-fast: the first error aborts the whole bind.
#[derive(Debug)]
pub struct CompileError {
    pub location: SourceLocation,
    pub kind: CompileErrorKind,
}

/// Mathematical model of a [`CompileErrorKind`].
#[verifier::ext_equal]
pub enum CompileErrorKindModel {
    UnexpectedCharacter { found: char },
    DigitOutOfRange { found: char, base: u128 },
    ExpectedNewlineAfterExpression { found: TokenKind },
    ExpectedCommaInCall { found: TokenKind },
    ExpectedCloseParenInCall { found: TokenKind },
    ExpectedCloseParen { found: TokenKind },
    ExpectedNameForExport { found: TokenKind },
    ExpectedEqualForExport { found: TokenKind },
    ExpectedNameForLet { found: TokenKind },
    ExpectedExpression { found: TokenKind },
    ExpectedOpenBrace { found: TokenKind },
    ExpectedNewlineOrCloseBrace { found: TokenKind },
    ExpectedCloseBrace { found: TokenKind },
    ExpectedEndOfFile { found: TokenKind },
    DuplicateDefinition { name: Seq<char>, original: SourceLocation },
    UndefinedName { name: Seq<char> },
    UnaryOperatorNotFound { operator: TokenKind, operand: TypeModel },
    BinaryOperatorNotFound { operator: TokenKind, left: TypeModel, right: TypeModel },
    IntegerTooLarge { value: u128 },
    NotCallable { actual: TypeModel, operand_location: SourceLocation },
    ArityMismatch { expected: usize, actual: usize },
    ArgumentTypeMismatch { index: usize, expected: TypeModel, actual: TypeModel },
}

impl View for CompileErrorKind {
    type V = CompileErrorKindModel;

    open spec fn view(&self) -> CompileErrorKindModel {
        match self {
            CompileErrorKind::UnexpectedCharacter { found } =>
                CompileErrorKindModel::UnexpectedCharacter { found: *found },
            CompileErrorKind::DigitOutOfRange { found, base } =>
                CompileErrorKindModel::DigitOutOfRange { found: *found, base: *base },
            CompileErrorKind::ExpectedNewlineAfterExpression { found } =>
                CompileErrorKindModel::ExpectedNewlineAfterExpression { found: *found },
            CompileErrorKind::ExpectedCommaInCall { found } =>
                CompileErrorKindModel::ExpectedCommaInCall { found: *found },
            CompileErrorKind::ExpectedCloseParenInCall { found } =>
                CompileErrorKindModel::ExpectedCloseParenInCall { found: *found },
            CompileErrorKind::ExpectedCloseParen { found } =>
                CompileErrorKindModel::ExpectedCloseParen { found: *found },
            CompileErrorKind::ExpectedNameForExport { found } =>
                CompileErrorKindModel::ExpectedNameForExport { found: *found },
            CompileErrorKind::ExpectedEqualForExport { found } =>
                CompileErrorKindModel::ExpectedEqualForExport { found: *found },
            CompileErrorKind::ExpectedNameForLet { found } =>
                CompileErrorKindModel::ExpectedNameForLet { found: *found },
            CompileErrorKind::ExpectedExpression { found } =>
                CompileErrorKindModel::ExpectedExpression { found: *found },
            CompileErrorKind::ExpectedOpenBrace { found } =>
                CompileErrorKindModel::ExpectedOpenBrace { found: *found },
            CompileErrorKind::ExpectedNewlineOrCloseBrace { found } =>
                CompileErrorKindModel::ExpectedNewlineOrCloseBrace { found: *found },
            CompileErrorKind::ExpectedCloseBrace { found } =>
                CompileErrorKindModel::ExpectedCloseBrace { found: *found },
            CompileErrorKind::ExpectedEndOfFile { found } =>
                CompileErrorKindModel::ExpectedEndOfFile { found: *found },
            CompileErrorKind::DuplicateDefinition { name, original } =>
                CompileErrorKindModel::DuplicateDefinition { name: name@, original: *original },
            CompileErrorKind::UndefinedName { name } =>
                CompileErrorKindModel::UndefinedName { name: name@ },
            CompileErrorKind::UnaryOperatorNotFound { operator, operand } =>
                CompileErrorKindModel::UnaryOperatorNotFound {
                    operator: *operator,
                    operand: operand@,
                },
            CompileErrorKind::BinaryOperatorNotFound { operator, left, right } =>
                CompileErrorKindModel::BinaryOperatorNotFound {
                    operator: *operator,
                    left: left@,
                    right: right@,
                },
            CompileErrorKind::IntegerTooLarge { value } =>
                CompileErrorKindModel::IntegerTooLarge { value: *value },
            CompileErrorKind::NotCallable { actual, operand_location } =>
                CompileErrorKindModel::NotCallable {
                    actual: actual@,
                    operand_location: *operand_location,
                },
            CompileErrorKind::ArityMismatch { expected, actual } =>
                CompileErrorKindModel::ArityMismatch { expected: *expected, actual: *actual },
            CompileErrorKind::ArgumentTypeMismatch { index, expected, actual } =>
                CompileErrorKindModel::ArgumentTypeMismatch {
                    index: *index,
                    expected: expected@,
                    actual: actual@,
                },
        }
    }
}

/// Mathematical model of a [`CompileError`].
#[verifier::ext_equal]
pub struct CompileErrorModel {
    pub location: SourceLocation,
    pub kind: CompileErrorKindModel,
}

impl View for CompileError {
    type V = CompileErrorModel;

    open spec fn view(&self) -> CompileErrorModel {
        CompileErrorModel { location: self.location, kind: self.kind@ }
    }
}

} // verus!
