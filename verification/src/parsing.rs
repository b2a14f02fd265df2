//! The parser: recursive descent from tokens to a syntax tree.
//!
//! Binary expressions are parsed by precedence climbing: multiplication and
//! division bind tighter than addition and subtraction, which bind tighter
//! than the comparison operators.  Every tree the parser returns is
//! well-formed in the sense of [`ast_wf`], which is what the binder requires.
//!
//! Termination rests on the lexer's guarantee that consuming any token but
//! end-of-file advances the position.

use vstd::prelude::*;

use crate::ast::{
    Ast, AstBinary, AstBlock, AstCall, AstExport, AstFile, AstInteger, AstLet, AstName, AstUnary,
    ast_seq_wf, ast_wf, lemma_ast_seq_wf_index,
};
use crate::common::{CompileError, CompileErrorKind};
use crate::lexer::{Lexer, lexer_wf};
use crate::token::{Token, TokenKind};

verus! {

/// How tightly a prefix operator binds; zero for tokens that are no prefix
/// operator.
fn get_unary_precedence(kind: &TokenKind) -> usize {
    match kind {
        TokenKind::Plus | TokenKind::Minus | TokenKind::ExclamationMark => 4,
        _ => 0,
    }
}

/// How tightly an infix operator binds; zero for tokens that are no infix
/// operator.  Multiplicative operators bind tighter than additive ones, which
/// bind tighter than comparisons.
fn get_binary_precedence(kind: &TokenKind) -> usize {
    match kind {
        TokenKind::Asterisk | TokenKind::Slash => 3,
        TokenKind::Plus | TokenKind::Minus => 2,
        TokenKind::EqualEqual
        | TokenKind::ExclamationMarkEqual
        | TokenKind::LessThan
        | TokenKind::GreaterThan
        | TokenKind::LessThanEqual
        | TokenKind::GreaterThanEqual => 1,
        _ => 0,
    }
}

/// Skips one newline token, if one is next.
fn allow_newline(lexer: &mut Lexer) -> (r: Result<(), CompileError>)
    requires
        lexer_wf(*old(lexer)),
    ensures
        lexer_wf(*final(lexer)),
        final(lexer).source == old(lexer).source,
        final(lexer).filepath == old(lexer).filepath,
        final(lexer).position >= old(lexer).position,
{
    let peeked = match lexer.peek_kind() {
        Ok(kind) => kind,
        Err(e) => {
            return Err(e);
        },
    };
    if let TokenKind::Newline = peeked {
        match lexer.next_token() {
            Ok(_) => (),
            Err(e) => {
                return Err(e);
            },
        }
    }
    Ok(())
}

/// Parses a whole source file: newline-separated expressions up to the end of
/// the file.  A source whose first token is the end of file parses to a file
/// of no expressions.
#[verifier::loop_isolation(false)]
pub fn parse_file(lexer: &mut Lexer) -> (r: Result<AstFile, CompileError>)
    requires
        lexer_wf(*old(lexer)),
    ensures
        lexer_wf(*final(lexer)),
        final(lexer).source == old(lexer).source,
        final(lexer).filepath == old(lexer).filepath,
        final(lexer).position >= old(lexer).position,
        r matches Ok(file) ==> ast_seq_wf(file.expressions@) && file.end_of_file_token.kind
            is EndOfFile,
        match crate::lexer::spec_scan(old(lexer).source@, old(lexer).position as int) {
            Ok((k, _)) => k is EndOfFile ==> (r matches Ok(file)
                && file.expressions@.len() == 0),
            Err(_) => true,
        },
    decreases old(lexer).source@.len() - old(lexer).position, 4int,
{
    let mut expressions: Vec<Ast> = Vec::new();
    loop
        invariant
            lexer_wf(*lexer),
            lexer.source == old(lexer).source,
            lexer.filepath == old(lexer).filepath,
            lexer.position >= old(lexer).position,
            forall|j: int| 0 <= j < expressions@.len() ==> ast_wf(expressions@[j]),
            match crate::lexer::spec_scan(lexer.source@, old(lexer).position as int) {
                Ok((k, _)) => k is EndOfFile ==> expressions@.len() == 0 && lexer.position == old(
                    lexer,
                ).position,
                Err(_) => true,
            },
        decreases lexer.source@.len() - lexer.position,
    {
        let ghost iteration_start = lexer.position;
        let peeked = match lexer.peek_kind() {
            Ok(kind) => kind,
            Err(e) => {
                return Err(e);
            },
        };
        if let TokenKind::EndOfFile = peeked {
            break;
        }
        loop
            invariant
                lexer_wf(*lexer),
                lexer.source == old(lexer).source,
                lexer.filepath == old(lexer).filepath,
                lexer.position >= iteration_start,
            decreases lexer.source@.len() - lexer.position,
        {
            let skip = match lexer.peek_kind() {
                Ok(kind) => kind,
                Err(e) => {
                    return Err(e);
                },
            };
            if let TokenKind::Newline = skip {
                let taken = match lexer.next_token() {
                    Ok(token) => token,
                    Err(e) => {
                        return Err(e);
                    },
                };
                if let TokenKind::EndOfFile = taken.kind {
                    break;
                }
            } else {
                break;
            }
        }
        let expression = match parse_expression(lexer) {
            Ok(expression) => expression,
            Err(e) => {
                return Err(e);
            },
        };
        expressions.push(expression);
        let after = match lexer.peek_kind() {
            Ok(kind) => kind,
            Err(e) => {
                return Err(e);
            },
        };
        if let TokenKind::EndOfFile = after {
        } else {
            let newline = match lexer.next_token() {
                Ok(token) => token,
                Err(e) => {
                    return Err(e);
                },
            };
            if let TokenKind::Newline = newline.kind {
            } else {
                return Err(
                    CompileError {
                        location: newline.location,
                        kind: CompileErrorKind::ExpectedNewlineAfterExpression {
                            found: newline.kind,
                        },
                    },
                );
            }
        }
    }
    let end_of_file_token = match lexer.next_token() {
        Ok(token) => token,
        Err(e) => {
            return Err(e);
        },
    };
    if let TokenKind::EndOfFile = end_of_file_token.kind {
    } else {
        return Err(
            CompileError {
                location: end_of_file_token.location,
                kind: CompileErrorKind::ExpectedEndOfFile { found: end_of_file_token.kind },
            },
        );
    }
    proof {
        lemma_ast_seq_wf_index(expressions@);
    }
    Ok(AstFile { expressions, end_of_file_token })
}

/// Parses one expression.
pub fn parse_expression(lexer: &mut Lexer) -> (r: Result<Ast, CompileError>)
    requires
        lexer_wf(*old(lexer)),
    ensures
        lexer_wf(*final(lexer)),
        final(lexer).source == old(lexer).source,
        final(lexer).filepath == old(lexer).filepath,
        final(lexer).position >= old(lexer).position,
        r matches Ok(ast) ==> ast_wf(ast) && final(lexer).position > old(lexer).position,
    decreases old(lexer).source@.len() - old(lexer).position, 3int,
{
    parse_binary_expression(lexer, 0)
}

/// Parses an expression whose operators bind tighter than
/// `parent_precedence`, postfix call syntax included.
#[verifier::loop_isolation(false)]
fn parse_binary_expression(lexer: &mut Lexer, parent_precedence: usize) -> (r: Result<
    Ast,
    CompileError,
>)
    requires
        lexer_wf(*old(lexer)),
    ensures
        lexer_wf(*final(lexer)),
        final(lexer).source == old(lexer).source,
        final(lexer).filepath == old(lexer).filepath,
        final(lexer).position >= old(lexer).position,
        r matches Ok(ast) ==> ast_wf(ast) && final(lexer).position > old(lexer).position,
    decreases old(lexer).source@.len() - old(lexer).position, 2int,
{
    let mut left: Ast;
    let peeked = match lexer.peek_kind() {
        Ok(kind) => kind,
        Err(e) => {
            return Err(e);
        },
    };
    let unary_precedence = get_unary_precedence(&peeked);
    if unary_precedence > 0 {
        let operator_token = match lexer.next_token() {
            Ok(token) => token,
            Err(e) => {
                return Err(e);
            },
        };
        if let TokenKind::EndOfFile = operator_token.kind {
            return Err(
                CompileError {
                    location: operator_token.location,
                    kind: CompileErrorKind::ExpectedExpression { found: operator_token.kind },
                },
            );
        }
        match allow_newline(lexer) {
            Ok(_) => (),
            Err(e) => {
                return Err(e);
            },
        }
        let operand = match parse_binary_expression(lexer, unary_precedence) {
            Ok(operand) => operand,
            Err(e) => {
                return Err(e);
            },
        };
        left = Ast::Unary(AstUnary { operator_token, operand: Box::new(operand) });
    } else {
        left = match parse_primary_expression(lexer) {
            Ok(expression) => expression,
            Err(e) => {
                return Err(e);
            },
        };
    }
    loop
        invariant
            lexer_wf(*lexer),
            lexer.source == old(lexer).source,
            lexer.filepath == old(lexer).filepath,
            lexer.position > old(lexer).position,
            ast_wf(left),
        decreases lexer.source@.len() - lexer.position,
    {
        let ghost round_start = lexer.position;
        loop
            invariant
                lexer_wf(*lexer),
                lexer.source == old(lexer).source,
                lexer.filepath == old(lexer).filepath,
                lexer.position > old(lexer).position,
                lexer.position >= round_start,
                ast_wf(left),
            decreases lexer.source@.len() - lexer.position,
        {
            let ghost call_start = lexer.position;
            let next = match lexer.peek_kind() {
                Ok(kind) => kind,
                Err(e) => {
                    return Err(e);
                },
            };
            if let TokenKind::OpenParenthesis = next {
            } else {
                break;
            }
            let open_parenthesis_token = match lexer.next_token() {
                Ok(token) => token,
                Err(e) => {
                    return Err(e);
                },
            };
            if let TokenKind::OpenParenthesis = open_parenthesis_token.kind {
            } else {
                return Err(
                    CompileError {
                        location: open_parenthesis_token.location,
                        kind: CompileErrorKind::ExpectedExpression {
                            found: open_parenthesis_token.kind,
                        },
                    },
                );
            }
            match allow_newline(lexer) {
                Ok(_) => (),
                Err(e) => {
                    return Err(e);
                },
            }
            let mut first = true;
            let mut arguments: Vec<Ast> = Vec::new();
            loop
                invariant
                    lexer_wf(*lexer),
                    lexer.source == old(lexer).source,
                    lexer.filepath == old(lexer).filepath,
                    lexer.position > old(lexer).position,
                    lexer.position > call_start,
                    forall|j: int| 0 <= j < arguments@.len() ==> ast_wf(arguments@[j]),
                decreases lexer.source@.len() - lexer.position,
            {
                let inside = match lexer.peek_kind() {
                    Ok(kind) => kind,
                    Err(e) => {
                        return Err(e);
                    },
                };
                match inside {
                    TokenKind::CloseParenthesis | TokenKind::EndOfFile => {
                        break;
                    },
                    _ => (),
                }
                if first {
                    first = false;
                } else {
                    let comma = match lexer.next_token() {
                        Ok(token) => token,
                        Err(e) => {
                            return Err(e);
                        },
                    };
                    if let TokenKind::Comma = comma.kind {
                    } else {
                        return Err(
                            CompileError {
                                location: comma.location,
                                kind: CompileErrorKind::ExpectedCommaInCall { found: comma.kind },
                            },
                        );
                    }
                    match allow_newline(lexer) {
                        Ok(_) => (),
                        Err(e) => {
                            return Err(e);
                        },
                    }
                    let trailing = match lexer.peek_kind() {
                        Ok(kind) => kind,
                        Err(e) => {
                            return Err(e);
                        },
                    };
                    if let TokenKind::CloseParenthesis = trailing {
                        break;
                    }
                }
                let argument = match parse_expression(lexer) {
                    Ok(argument) => argument,
                    Err(e) => {
                        return Err(e);
                    },
                };
                arguments.push(argument);
            }
            let close_parenthesis_token = match lexer.next_token() {
                Ok(token) => token,
                Err(e) => {
                    return Err(e);
                },
            };
            if let TokenKind::CloseParenthesis = close_parenthesis_token.kind {
            } else {
                return Err(
                    CompileError {
                        location: close_parenthesis_token.location,
                        kind: CompileErrorKind::ExpectedCloseParenInCall {
                            found: close_parenthesis_token.kind,
                        },
                    },
                );
            }
            proof {
                lemma_ast_seq_wf_index(arguments@);
            }
            left = Ast::Call(
                AstCall {
                    operand: Box::new(left),
                    open_parenthesis_token,
                    arguments,
                    close_parenthesis_token,
                },
            );
        }
        let next = match lexer.peek_kind() {
            Ok(kind) => kind,
            Err(e) => {
                return Err(e);
            },
        };
        let binary_precedence = get_binary_precedence(&next);
        if binary_precedence <= parent_precedence {
            break;
        }
        let operator_token = match lexer.next_token() {
            Ok(token) => token,
            Err(e) => {
                return Err(e);
            },
        };
        if let TokenKind::EndOfFile = operator_token.kind {
            return Err(
                CompileError {
                    location: operator_token.location,
                    kind: CompileErrorKind::ExpectedExpression { found: operator_token.kind },
                },
            );
        }
        match allow_newline(lexer) {
            Ok(_) => (),
            Err(e) => {
                return Err(e);
            },
        }
        let right = match parse_binary_expression(lexer, binary_precedence) {
            Ok(right) => right,
            Err(e) => {
                return Err(e);
            },
        };
        left = Ast::Binary(AstBinary { left: Box::new(left), operator_token, right: Box::new(right) });
    }
    Ok(left)
}

/// Parses a primary expression: a name, an integer literal, a block, a
/// parenthesised expression, or an `export`/`let` declaration.
fn parse_primary_expression(lexer: &mut Lexer) -> (r: Result<Ast, CompileError>)
    requires
        lexer_wf(*old(lexer)),
    ensures
        lexer_wf(*final(lexer)),
        final(lexer).source == old(lexer).source,
        final(lexer).filepath == old(lexer).filepath,
        final(lexer).position >= old(lexer).position,
        r matches Ok(ast) ==> ast_wf(ast) && final(lexer).position > old(lexer).position,
    decreases old(lexer).source@.len() - old(lexer).position, 1int,
{
    let peeked = match lexer.peek_kind() {
        Ok(kind) => kind,
        Err(e) => {
            return Err(e);
        },
    };
    match peeked {
        TokenKind::Name(_) => {
            let name_token = match lexer.next_token() {
                Ok(token) => token,
                Err(e) => {
                    return Err(e);
                },
            };
            if let TokenKind::Name(_) = name_token.kind {
            } else {
                return Err(
                    CompileError {
                        location: name_token.location,
                        kind: CompileErrorKind::ExpectedExpression { found: name_token.kind },
                    },
                );
            }
            Ok(Ast::Name(AstName { name_token }))
        },
        TokenKind::Integer(_) => {
            let integer_token = match lexer.next_token() {
                Ok(token) => token,
                Err(e) => {
                    return Err(e);
                },
            };
            if let TokenKind::Integer(_) = integer_token.kind {
            } else {
                return Err(
                    CompileError {
                        location: integer_token.location,
                        kind: CompileErrorKind::ExpectedExpression { found: integer_token.kind },
                    },
                );
            }
            Ok(Ast::Integer(AstInteger { integer_token }))
        },
        TokenKind::OpenBrace => {
            match parse_block(lexer) {
                Ok(block) => Ok(Ast::Block(block)),
                Err(e) => Err(e),
            }
        },
        TokenKind::OpenParenthesis => {
            let open_token = match lexer.next_token() {
                Ok(token) => token,
                Err(e) => {
                    return Err(e);
                },
            };
            if let TokenKind::EndOfFile = open_token.kind {
                return Err(
                    CompileError {
                        location: open_token.location,
                        kind: CompileErrorKind::ExpectedExpression { found: open_token.kind },
                    },
                );
            }
            let expression = match parse_expression(lexer) {
                Ok(expression) => expression,
                Err(e) => {
                    return Err(e);
                },
            };
            let close_parenthesis_token = match lexer.next_token() {
                Ok(token) => token,
                Err(e) => {
                    return Err(e);
                },
            };
            if let TokenKind::CloseParenthesis = close_parenthesis_token.kind {
            } else {
                return Err(
                    CompileError {
                        location: close_parenthesis_token.location,
                        kind: CompileErrorKind::ExpectedCloseParen {
                            found: close_parenthesis_token.kind,
                        },
                    },
                );
            }
            Ok(expression)
        },
        TokenKind::Export => {
            let export_token = match lexer.next_token() {
                Ok(token) => token,
                Err(e) => {
                    return Err(e);
                },
            };
            let name_token = match lexer.next_token() {
                Ok(token) => token,
                Err(e) => {
                    return Err(e);
                },
            };
            if let TokenKind::Name(_) = name_token.kind {
            } else {
                return Err(
                    CompileError {
                        location: name_token.location,
                        kind: CompileErrorKind::ExpectedNameForExport { found: name_token.kind },
                    },
                );
            }
            let equals_token = match lexer.next_token() {
                Ok(token) => token,
                Err(e) => {
                    return Err(e);
                },
            };
            if let TokenKind::Equal = equals_token.kind {
            } else {
                return Err(
                    CompileError {
                        location: equals_token.location,
                        kind: CompileErrorKind::ExpectedEqualForExport { found: equals_token.kind },
                    },
                );
            }
            match allow_newline(lexer) {
                Ok(_) => (),
                Err(e) => {
                    return Err(e);
                },
            }
            let value = match parse_expression(lexer) {
                Ok(value) => value,
                Err(e) => {
                    return Err(e);
                },
            };
            Ok(
                Ast::Export(
                    AstExport { export_token, name_token, equals_token, value: Box::new(value) },
                ),
            )
        },
        TokenKind::Let => {
            let let_token = match lexer.next_token() {
                Ok(token) => token,
                Err(e) => {
                    return Err(e);
                },
            };
            let name_token = match lexer.next_token() {
                Ok(token) => token,
                Err(e) => {
                    return Err(e);
                },
            };
            if let TokenKind::Name(_) = name_token.kind {
            } else {
                return Err(
                    CompileError {
                        location: name_token.location,
                        kind: CompileErrorKind::ExpectedNameForLet { found: name_token.kind },
                    },
                );
            }
            let after_name = match lexer.peek_kind() {
                Ok(kind) => kind,
                Err(e) => {
                    return Err(e);
                },
            };
            let equal_token: Option<Token>;
            let value: Option<Box<Ast>>;
            if let TokenKind::Equal = after_name {
                let taken_equal = match lexer.next_token() {
                    Ok(token) => token,
                    Err(e) => {
                        return Err(e);
                    },
                };
                equal_token = Some(taken_equal);
                match allow_newline(lexer) {
                    Ok(_) => (),
                    Err(e) => {
                        return Err(e);
                    },
                }
                let parsed = match parse_expression(lexer) {
                    Ok(parsed) => parsed,
                    Err(e) => {
                        return Err(e);
                    },
                };
                value = Some(Box::new(parsed));
            } else {
                equal_token = None;
                value = None;
            }
            Ok(Ast::Let(AstLet { let_token, name_token, equal_token, value }))
        },
        _ => {
            let token = match lexer.next_token() {
                Ok(token) => token,
                Err(e) => {
                    return Err(e);
                },
            };
            Err(
                CompileError {
                    location: token.location,
                    kind: CompileErrorKind::ExpectedExpression { found: token.kind },
                },
            )
        },
    }
}

/// Parses a block: newline-separated expressions between braces.
#[verifier::loop_isolation(false)]
fn parse_block(lexer: &mut Lexer) -> (r: Result<AstBlock, CompileError>)
    requires
        lexer_wf(*old(lexer)),
    ensures
        lexer_wf(*final(lexer)),
        final(lexer).source == old(lexer).source,
        final(lexer).filepath == old(lexer).filepath,
        final(lexer).position >= old(lexer).position,
        r matches Ok(block) ==> ast_seq_wf(block.expressions@) && final(lexer).position > old(
            lexer,
        ).position,
    decreases old(lexer).source@.len() - old(lexer).position, 0int,
{
    let open_brace_token = match lexer.next_token() {
        Ok(token) => token,
        Err(e) => {
            return Err(e);
        },
    };
    if let TokenKind::OpenBrace = open_brace_token.kind {
    } else {
        return Err(
            CompileError {
                location: open_brace_token.location,
                kind: CompileErrorKind::ExpectedOpenBrace { found: open_brace_token.kind },
            },
        );
    }
    let mut expressions: Vec<Ast> = Vec::new();
    loop
        invariant
            lexer_wf(*lexer),
            lexer.source == old(lexer).source,
            lexer.filepath == old(lexer).filepath,
            lexer.position > old(lexer).position,
            forall|j: int| 0 <= j < expressions@.len() ==> ast_wf(expressions@[j]),
        decreases lexer.source@.len() - lexer.position,
    {
        let ghost iteration_start = lexer.position;
        let peeked = match lexer.peek_kind() {
            Ok(kind) => kind,
            Err(e) => {
                return Err(e);
            },
        };
        match peeked {
            TokenKind::CloseBrace | TokenKind::EndOfFile => {
                break;
            },
            _ => (),
        }
        loop
            invariant
                lexer_wf(*lexer),
                lexer.source == old(lexer).source,
                lexer.filepath == old(lexer).filepath,
                lexer.position >= iteration_start,
            decreases lexer.source@.len() - lexer.position,
        {
            let skip = match lexer.peek_kind() {
                Ok(kind) => kind,
                Err(e) => {
                    return Err(e);
                },
            };
            if let TokenKind::Newline = skip {
                let taken = match lexer.next_token() {
                    Ok(token) => token,
                    Err(e) => {
                        return Err(e);
                    },
                };
                if let TokenKind::EndOfFile = taken.kind {
                    break;
                }
            } else {
                break;
            }
        }
        let expression = match parse_expression(lexer) {
            Ok(expression) => expression,
            Err(e) => {
                return Err(e);
            },
        };
        expressions.push(expression);
        let after = match lexer.peek_kind() {
            Ok(kind) => kind,
            Err(e) => {
                return Err(e);
            },
        };
        match after {
            TokenKind::CloseBrace | TokenKind::EndOfFile => (),
            _ => {
                let newline = match lexer.next_token() {
                    Ok(token) => token,
                    Err(e) => {
                        return Err(e);
                    },
                };
                if let TokenKind::Newline = newline.kind {
                } else {
                    return Err(
                        CompileError {
                            location: newline.location,
                            kind: CompileErrorKind::ExpectedNewlineOrCloseBrace {
                                found: newline.kind,
                            },
                        },
                    );
                }
            },
        }
    }
    let close_brace_token = match lexer.next_token() {
        Ok(token) => token,
        Err(e) => {
            return Err(e);
        },
    };
    if let TokenKind::CloseBrace = close_brace_token.kind {
    } else {
        return Err(
            CompileError {
                location: close_brace_token.location,
                kind: CompileErrorKind::ExpectedCloseBrace { found: close_brace_token.kind },
            },
        );
    }
    proof {
        lemma_ast_seq_wf_index(expressions@);
    }
    Ok(AstBlock { open_brace_token, expressions, close_brace_token })
}

} // verus!
