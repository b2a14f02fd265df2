//! The lexer: turns a character stream into tokens.
//!
//! The lexer tracks a position in the character sequence plus the one-based
//! line and column used in diagnostics.  [`lexer_wf`] ties those counters
//! together; every operation preserves it.  Consuming a token always either
//! advances the position or yields the end-of-file token, which is what the
//! parser's termination rests on.
//!
//! [`spec_scan`] is the mathematical statement of tokenisation: the kind and
//! extent of the next token as a function of the source and the position.
//! [`Lexer::next_token`] returns exactly what it says, and
//! [`Lexer::peek_kind`] answers from the same function, so peeking and
//! consuming always agree.

use vstd::prelude::*;

use crate::common::{CompileError, CompileErrorKind, CompileErrorKindModel, SourceLocation};
use crate::token::{Token, TokenKind, TokenKindModel};

verus! {

/// Relies on `String::push`: appends the given character to the end of the
/// string.
#[verifier::external_body]
pub(crate) fn push_char(s: &mut String, c: char)
    ensures
        final(s)@ == old(s)@.push(c),
{
    s.push(c)
}

/// Decimal digit, `'0'` to `'9'`.
pub open spec fn spec_is_digit(c: char) -> bool {
    48 <= c as u32 <= 57
}

/// ASCII letter, upper or lower case.
pub open spec fn spec_is_letter(c: char) -> bool {
    (65 <= c as u32 <= 90) || (97 <= c as u32 <= 122)
}

fn is_digit(c: char) -> (r: bool)
    ensures
        r == spec_is_digit(c),
{
    let v = c as u32;
    48 <= v && v <= 57
}

fn is_letter(c: char) -> (r: bool)
    ensures
        r == spec_is_letter(c),
{
    let v = c as u32;
    (65 <= v && v <= 90) || (97 <= v && v <= 122)
}

fn is_upper_letter(c: char) -> (r: bool)
    ensures
        r == (65 <= c as u32 <= 90),
{
    let v = c as u32;
    65 <= v && v <= 90
}

#[derive(Debug)]
pub struct Lexer {
    pub filepath: String,
    pub source: Vec<char>,
    pub position: usize,
    pub line: usize,
    pub column: usize,
}

/// The lexer's counters are coherent: the position stays inside the source,
/// and line and column stay small enough that advancing cannot overflow.
pub open spec fn lexer_wf(l: Lexer) -> bool {
    &&& l.position <= l.source@.len()
    &&& 1 <= l.line <= l.position + 1
    &&& 1 <= l.column <= l.position + 1
    &&& l.source@.len() < usize::MAX - 1
}

/// The character at a position; the NUL character outside the source.
pub open spec fn char_at(source: Seq<char>, position: int) -> char {
    if 0 <= position < source.len() {
        source[position]
    } else {
        '\0'
    }
}

/// The character under the cursor; the NUL character once the source is
/// exhausted.
pub open spec fn spec_current_char(l: Lexer) -> char {
    char_at(l.source@, l.position as int)
}

/// A character that may continue a name.
pub open spec fn spec_is_name_char(c: char) -> bool {
    spec_is_letter(c) || spec_is_digit(c) || c == '_'
}

/// Scans name characters starting from `position`, extending `collected`:
/// the name's characters and the position just past them.
pub open spec fn scan_name(source: Seq<char>, position: int, collected: Seq<char>) -> (
    Seq<char>,
    int,
)
    decreases source.len() - position,
{
    let c = char_at(source, position);
    if spec_is_name_char(c) {
        scan_name(source, position + 1, collected.push(c))
    } else {
        (collected, position)
    }
}

/// The numeric value of a digit character, letters counting from ten.
pub open spec fn spec_digit_value(c: char) -> u128 {
    if spec_is_digit(c) {
        ((c as u32) - 48) as u128
    } else if 65 <= c as u32 <= 90 {
        ((c as u32) - 65 + 10) as u128
    } else {
        ((c as u32) - 97 + 10) as u128
    }
}

/// One more digit appended to an integer literal's value, saturating instead
/// of overflowing; a saturated value still exceeds the 64-bit signed ceiling,
/// so the binder rejects the literal either way.
pub open spec fn saturating_scale(value: u128, base: u128, digit: u128) -> u128 {
    if value * base > u128::MAX {
        u128::MAX
    } else if value * base + digit > u128::MAX {
        u128::MAX
    } else {
        (value * base + digit) as u128
    }
}

/// How tokenising can fail: a character that starts no token, or a digit out
/// of range for its literal's base — each with the offending character's
/// position.
#[verifier::ext_equal]
pub enum ScanFault {
    UnexpectedCharacter { found: char, position: int },
    DigitOutOfRange { found: char, base: u128, position: int },
}

/// Scans digit (and underscore) characters starting from `position`,
/// extending `value`: the literal's value and the position just past it, or
/// the fault when a digit is out of range for the base.
pub open spec fn scan_integer(source: Seq<char>, position: int, base: u128, value: u128) -> Result<
    (u128, int),
    ScanFault,
>
    decreases source.len() - position,
{
    let c = char_at(source, position);
    if spec_is_letter(c) || spec_is_digit(c) {
        let digit = spec_digit_value(c);
        if digit >= base {
            Err(ScanFault::DigitOutOfRange { found: c, base, position })
        } else {
            scan_integer(source, position + 1, base, saturating_scale(value, base, digit))
        }
    } else if c == '_' {
        scan_integer(source, position + 1, base, value)
    } else {
        Ok((value, position))
    }
}

/// The position of the newline or end of source that terminates a line
/// comment scanned from `position`.
pub open spec fn line_comment_end(source: Seq<char>, position: int) -> int
    decreases source.len() - position,
{
    let c = char_at(source, position);
    if c == '\n' || c == '\0' {
        position
    } else {
        line_comment_end(source, position + 1)
    }
}

pub proof fn lemma_line_comment_end_bounds(source: Seq<char>, position: int)
    requires
        position <= source.len(),
    ensures
        position <= line_comment_end(source, position) <= source.len(),
    decreases source.len() - position,
{
    let c = char_at(source, position);
    if c != '\n' && c != '\0' {
        lemma_line_comment_end_bounds(source, position + 1);
    }
}

/// The next token of the source from `position`, as the kind it carries and
/// the position just past it; whitespace and comments are skipped first.
/// A [`ScanFault`] is a lexing error, with the offending character and its
/// position.  This is the mathematical statement of [`Lexer::next_token`],
/// and [`Lexer::peek_kind`] answers from the same function — peeking and
/// consuming always agree.
pub open spec fn spec_scan(source: Seq<char>, position: int) -> Result<
    (TokenKindModel, int),
    ScanFault,
>
    decreases source.len() - position,
{
    let c = char_at(source, position);
    if c == '\0' {
        Ok((TokenKindModel::EndOfFile, position))
    } else if c == ' ' || c == '\t' {
        spec_scan(source, position + 1)
    } else if c == '\n' {
        if char_at(source, position + 1) == '\r' {
            Ok((TokenKindModel::Newline, position + 2))
        } else {
            Ok((TokenKindModel::Newline, position + 1))
        }
    } else if c == '\r' {
        if char_at(source, position + 1) == '\n' {
            Ok((TokenKindModel::Newline, position + 2))
        } else {
            Ok((TokenKindModel::Newline, position + 1))
        }
    } else if spec_is_letter(c) || c == '_' {
        let (collected, end) = scan_name(source, position + 1, seq![c]);
        if collected == "export"@ {
            Ok((TokenKindModel::Export, end))
        } else if collected == "let"@ {
            Ok((TokenKindModel::Let, end))
        } else {
            Ok((TokenKindModel::Name(collected), end))
        }
    } else if spec_is_digit(c) {
        let scanned = if c == '0' {
            let after_zero = char_at(source, position + 1);
            if after_zero == 'b' {
                scan_integer(source, position + 2, 2, 0)
            } else if after_zero == 'o' {
                scan_integer(source, position + 2, 8, 0)
            } else if after_zero == 'd' {
                scan_integer(source, position + 2, 10, 0)
            } else if after_zero == 'x' {
                scan_integer(source, position + 2, 16, 0)
            } else {
                scan_integer(source, position + 1, 10, 0)
            }
        } else {
            scan_integer(source, position + 1, 10, spec_digit_value(c))
        };
        match scanned {
            Ok((value, end)) => Ok((TokenKindModel::Integer(value), end)),
            Err(fault) => Err(fault),
        }
    } else if c == '(' {
        Ok((TokenKindModel::OpenParenthesis, position + 1))
    } else if c == ')' {
        Ok((TokenKindModel::CloseParenthesis, position + 1))
    } else if c == '{' {
        Ok((TokenKindModel::OpenBrace, position + 1))
    } else if c == '}' {
        Ok((TokenKindModel::CloseBrace, position + 1))
    } else if c == ',' {
        Ok((TokenKindModel::Comma, position + 1))
    } else if c == '+' {
        if char_at(source, position + 1) == '=' {
            Ok((TokenKindModel::PlusEqual, position + 2))
        } else {
            Ok((TokenKindModel::Plus, position + 1))
        }
    } else if c == '-' {
        if char_at(source, position + 1) == '=' {
            Ok((TokenKindModel::MinusEqual, position + 2))
        } else if char_at(source, position + 1) == '>' {
            Ok((TokenKindModel::RightArrow, position + 2))
        } else {
            Ok((TokenKindModel::Minus, position + 1))
        }
    } else if c == '*' {
        if char_at(source, position + 1) == '=' {
            Ok((TokenKindModel::AsteriskEqual, position + 2))
        } else {
            Ok((TokenKindModel::Asterisk, position + 1))
        }
    } else if c == '/' {
        if char_at(source, position + 1) == '/' {
            let comment_end = line_comment_end(source, position + 1);
            let resume = if char_at(source, comment_end) == '\r' {
                comment_end + 1
            } else {
                comment_end
            };
            proof {
                lemma_line_comment_end_bounds(source, position + 1);
            }
            spec_scan(source, resume)
        } else if char_at(source, position + 1) == '=' {
            Ok((TokenKindModel::SlashEqual, position + 2))
        } else {
            Ok((TokenKindModel::Slash, position + 1))
        }
    } else if c == '=' {
        if char_at(source, position + 1) == '=' {
            Ok((TokenKindModel::EqualEqual, position + 2))
        } else {
            Ok((TokenKindModel::Equal, position + 1))
        }
    } else if c == '!' {
        if char_at(source, position + 1) == '=' {
            Ok((TokenKindModel::ExclamationMarkEqual, position + 2))
        } else {
            Ok((TokenKindModel::ExclamationMark, position + 1))
        }
    } else if c == '<' {
        if char_at(source, position + 1) == '=' {
            Ok((TokenKindModel::LessThanEqual, position + 2))
        } else if char_at(source, position + 1) == '-' {
            Ok((TokenKindModel::RightArrow, position + 2))
        } else {
            Ok((TokenKindModel::LessThan, position + 1))
        }
    } else if c == '>' {
        if char_at(source, position + 1) == '=' {
            Ok((TokenKindModel::LessThanEqual, position + 2))
        } else {
            Ok((TokenKindModel::GreaterThan, position + 1))
        }
    } else {
        Err(ScanFault::UnexpectedCharacter { found: c, position })
    }
}

/// The source location of the cursor.
pub open spec fn spec_location(l: Lexer) -> SourceLocation {
    SourceLocation { filepath: l.filepath, position: l.position, line: l.line, column: l.column }
}

impl Clone for Lexer {
    /// The copy scans the same source from the same place.
    fn clone(&self) -> (r: Lexer)
        ensures
            r.filepath == self.filepath,
            r.source@ == self.source@,
            r.position == self.position,
            r.line == self.line,
            r.column == self.column,
    {
        let mut source: Vec<char> = Vec::new();
        let n = self.source.len();
        for i in 0..n
            invariant
                n == self.source@.len(),
                source@.len() == i,
                forall|j: int| 0 <= j < i ==> source@[j] == self.source@[j],
            decreases n - i,
        {
            source.push(self.source[i]);
        }
        proof {
            assert(source@ =~= self.source@);
        }
        Lexer {
            filepath: self.filepath.clone(),
            source,
            position: self.position,
            line: self.line,
            column: self.column,
        }
    }
}

impl Lexer {
    /// A lexer at the start of the given source text.
    pub fn new(filepath: String, source: &str) -> (r: Lexer)
        requires
            source@.len() < usize::MAX - 1,
        ensures
            r.filepath == filepath,
            r.source@ == source@,
            r.position == 0,
            r.line == 1,
            r.column == 1,
            lexer_wf(r),
    {
        let n = source.unicode_len();
        let mut characters: Vec<char> = Vec::new();
        for i in 0..n
            invariant
                n == source@.len(),
                characters@.len() == i,
                forall|j: int| 0 <= j < i ==> characters@[j] == source@[j],
            decreases n - i,
        {
            characters.push(source.get_char(i));
        }
        proof {
            assert(characters@ =~= source@);
        }
        Lexer { filepath, source: characters, position: 0, line: 1, column: 1 }
    }

    /// The character under the cursor; NUL once the source is exhausted.
    fn current_char(&self) -> (c: char)
        requires
            lexer_wf(*self),
        ensures
            c == spec_current_char(*self),
    {
        if self.position < self.source.len() {
            self.source[self.position]
        } else {
            '\0'
        }
    }

    /// Consumes one character, keeping the line and column counters in step.
    fn next_char(&mut self) -> (c: char)
        requires
            lexer_wf(*old(self)),
            old(self).position < old(self).source@.len(),
        ensures
            lexer_wf(*final(self)),
            c == spec_current_char(*old(self)),
            final(self).source == old(self).source,
            final(self).filepath == old(self).filepath,
            final(self).position == old(self).position + 1,
            c == '\n' ==> final(self).line == old(self).line + 1 && final(self).column == 1,
            c != '\n' ==> final(self).line == old(self).line && final(self).column == old(
                self,
            ).column + 1,
    {
        let current = self.current_char();
        self.position = self.position + 1;
        self.column = self.column + 1;
        if current == '\n' {
            self.line = self.line + 1;
            self.column = 1;
        }
        current
    }

    /// The source location of the cursor, for diagnostics.
    fn get_current_location(&self) -> (r: SourceLocation)
        ensures
            r == spec_location(*self),
    {
        SourceLocation {
            filepath: self.filepath.clone(),
            position: self.position,
            line: self.line,
            column: self.column,
        }
    }

    /// Consumes one character and wraps it as a token of the given kind.
    fn single_char_token(&mut self, kind: TokenKind) -> (r: Token)
        requires
            lexer_wf(*old(self)),
            old(self).position < old(self).source@.len(),
        ensures
            lexer_wf(*final(self)),
            final(self).source == old(self).source,
            final(self).filepath == old(self).filepath,
            final(self).position == old(self).position + 1,
            r.kind == kind,
            r.location == spec_location(*old(self)),
            r.length == 1,
    {
        let start_location = self.get_current_location();
        let start_position = self.position;
        self.next_char();
        Token { kind, length: self.position - start_position, location: start_location }
    }

    /// Consumes one character, or two when the second character follows,
    /// picking the token kind accordingly.
    fn double_char_token(&mut self, kind: TokenKind, second_char: char, second_kind: TokenKind)
        -> (r: Token)
        requires
            lexer_wf(*old(self)),
            old(self).position < old(self).source@.len(),
            second_char != '\0',
        ensures
            lexer_wf(*final(self)),
            final(self).source == old(self).source,
            final(self).filepath == old(self).filepath,
            ({
                if char_at(old(self).source@, old(self).position as int + 1) == second_char {
                    r.kind == second_kind && final(self).position == old(self).position + 2
                } else {
                    r.kind == kind && final(self).position == old(self).position + 1
                }
            }),
            r.location == spec_location(*old(self)),
            r.length == final(self).position - old(self).position,
    {
        let start_location = self.get_current_location();
        let start_position = self.position;
        self.next_char();
        if self.current_char() == second_char {
            self.next_char();
            Token {
                kind: second_kind,
                length: self.position - start_position,
                location: start_location,
            }
        } else {
            Token { kind, length: self.position - start_position, location: start_location }
        }
    }

    /// Consumes one character, or two when one of the two alternative second
    /// characters follows, picking the token kind accordingly.
    fn double_char_token_2_choice(
        &mut self,
        kind: TokenKind,
        second_char_1: char,
        second_kind_1: TokenKind,
        second_char_2: char,
        second_kind_2: TokenKind,
    ) -> (r: Token)
        requires
            lexer_wf(*old(self)),
            old(self).position < old(self).source@.len(),
            second_char_1 != '\0',
            second_char_2 != '\0',
        ensures
            lexer_wf(*final(self)),
            final(self).source == old(self).source,
            final(self).filepath == old(self).filepath,
            ({
                if char_at(old(self).source@, old(self).position as int + 1) == second_char_1 {
                    r.kind == second_kind_1 && final(self).position == old(self).position + 2
                } else if char_at(old(self).source@, old(self).position as int + 1)
                    == second_char_2 {
                    r.kind == second_kind_2 && final(self).position == old(self).position + 2
                } else {
                    r.kind == kind && final(self).position == old(self).position + 1
                }
            }),
            r.location == spec_location(*old(self)),
            r.length == final(self).position - old(self).position,
    {
        let start_location = self.get_current_location();
        let start_position = self.position;
        self.next_char();
        if self.current_char() == second_char_1 {
            self.next_char();
            Token {
                kind: second_kind_1,
                length: self.position - start_position,
                location: start_location,
            }
        } else if self.current_char() == second_char_2 {
            self.next_char();
            Token {
                kind: second_kind_2,
                length: self.position - start_position,
                location: start_location,
            }
        } else {
            Token { kind, length: self.position - start_position, location: start_location }
        }
    }

    /// Consumes and returns the next token.  Whitespace and comments are
    /// skipped; reaching the end of the source yields the end-of-file token.
    /// Any other result, the errors included, consumes at least one
    /// character — the guarantee the parser's termination rests on.
    #[verifier::loop_isolation(false)]
    pub fn next_token(&mut self) -> (r: Result<Token, CompileError>)
        requires
            lexer_wf(*old(self)),
        ensures
            lexer_wf(*final(self)),
            final(self).source == old(self).source,
            final(self).filepath == old(self).filepath,
            final(self).position >= old(self).position,
            match r {
                Ok(t) => (t.kind is EndOfFile || final(self).position > old(self).position)
                    && t.location.filepath == old(self).filepath && old(self).position
                    <= t.location.position && t.location.position + t.length
                    == final(self).position && spec_scan(
                    old(self).source@,
                    old(self).position as int,
                ) == Ok::<(TokenKindModel, int), ScanFault>((
                    t.kind@,
                    final(self).position as int,
                )),
                Err(e) => final(self).position > old(self).position && e.location.filepath
                    == old(self).filepath && match spec_scan(
                    old(self).source@,
                    old(self).position as int,
                ) {
                    Ok(_) => false,
                    Err(fault) => match fault {
                        ScanFault::UnexpectedCharacter { found, position } => e.kind@ == (
                        CompileErrorKindModel::UnexpectedCharacter { found }) && e.location.position
                            == position,
                        ScanFault::DigitOutOfRange { found, base, position } => e.kind@ == (
                        CompileErrorKindModel::DigitOutOfRange { found, base }) && e.location.position
                            == position,
                    },
                },
            },
    {
        loop
            invariant
                lexer_wf(*self),
                self.source == old(self).source,
                self.filepath == old(self).filepath,
                self.position >= old(self).position,
                spec_scan(self.source@, old(self).position as int) == spec_scan(
                    self.source@,
                    self.position as int,
                ),
            decreases self.source@.len() - self.position,
        {
            let start_location = self.get_current_location();
            let start_position = self.position;
            let c = self.current_char();
            if c == '\0' {
                proof {
                    assert(spec_scan(self.source@, start_position as int)
                        == Ok::<(TokenKindModel, int), ScanFault>((
                        TokenKindModel::EndOfFile,
                        self.position as int,
                    )));
                }
                return Ok(
                    Token { kind: TokenKind::EndOfFile, length: 0, location: start_location },
                );
            }
            if c == ' ' || c == '\t' {
                self.next_char();
                proof {
                    assert(spec_scan(self.source@, start_position as int) == spec_scan(
                        self.source@,
                        self.position as int,
                    ));
                }
                continue;
            }
            if c == '\n' {
                self.next_char();
                if self.current_char() == '\r' {
                    self.next_char();
                }
                proof {
                    assert(spec_scan(self.source@, start_position as int)
                        == Ok::<(TokenKindModel, int), ScanFault>((
                        TokenKindModel::Newline,
                        self.position as int,
                    )));
                }
                return Ok(
                    Token {
                        kind: TokenKind::Newline,
                        length: self.position - start_position,
                        location: start_location,
                    },
                );
            }
            if c == '\r' {
                self.next_char();
                if self.current_char() == '\n' {
                    self.next_char();
                }
                proof {
                    assert(spec_scan(self.source@, start_position as int)
                        == Ok::<(TokenKindModel, int), ScanFault>((
                        TokenKindModel::Newline,
                        self.position as int,
                    )));
                }
                return Ok(
                    Token {
                        kind: TokenKind::Newline,
                        length: self.position - start_position,
                        location: start_location,
                    },
                );
            }
            if is_letter(c) || c == '_' {
                let mut value = String::new();
                let first = self.next_char();
                push_char(&mut value, first);
                proof {
                    assert(value@ =~= seq![c]);
                }
                loop
                    invariant
                        lexer_wf(*self),
                        self.source == old(self).source,
                        self.filepath == old(self).filepath,
                        self.position > start_position >= old(self).position,
                        scan_name(self.source@, start_position as int + 1, seq![c]) == scan_name(
                            self.source@,
                            self.position as int,
                            value@,
                        ),
                    decreases self.source@.len() - self.position,
                {
                    let d = self.current_char();
                    if is_letter(d) || is_digit(d) || d == '_' {
                        let taken = self.next_char();
                        push_char(&mut value, taken);
                    } else {
                        break;
                    }
                }
                proof {
                    assert(scan_name(self.source@, start_position as int + 1, seq![c]) == (
                        value@,
                        self.position as int,
                    ));
                }
                let kind = if value == String::from_str("export") {
                    TokenKind::Export
                } else if value == String::from_str("let") {
                    TokenKind::Let
                } else {
                    TokenKind::Name(value)
                };
                proof {
                    assert(spec_scan(self.source@, start_position as int)
                        == Ok::<(TokenKindModel, int), ScanFault>((
                        kind@,
                        self.position as int,
                    )));
                }
                return Ok(
                    Token {
                        kind,
                        length: self.position - start_position,
                        location: start_location,
                    },
                );
            }
            if is_digit(c) {
                let mut int_value: u128 = 0;
                let base: u128 = if c == '0' {
                    self.next_char();
                    let after_zero = self.current_char();
                    if after_zero == 'b' {
                        self.next_char();
                        2
                    } else if after_zero == 'o' {
                        self.next_char();
                        8
                    } else if after_zero == 'd' {
                        self.next_char();
                        10
                    } else if after_zero == 'x' {
                        self.next_char();
                        16
                    } else {
                        10
                    }
                } else {
                    let first = self.next_char();
                    int_value = (first as u32 - 48) as u128;
                    10
                };
                let ghost digits_start = self.position as int;
                let ghost first_value = int_value;
                proof {
                    assert(spec_scan(self.source@, start_position as int) == (match scan_integer(
                        self.source@,
                        digits_start,
                        base,
                        first_value,
                    ) {
                        Ok((value, end)) => Ok::<(TokenKindModel, int), ScanFault>((
                            TokenKindModel::Integer(value),
                            end,
                        )),
                        Err(fault) => Err::<(TokenKindModel, int), ScanFault>(fault),
                    }));
                }
                loop
                    invariant
                        lexer_wf(*self),
                        self.source == old(self).source,
                        self.filepath == old(self).filepath,
                        self.position > start_position >= old(self).position,
                        base == 2 || base == 8 || base == 10 || base == 16,
                        scan_integer(self.source@, digits_start, base, first_value)
                            == scan_integer(self.source@, self.position as int, base, int_value),
                    decreases self.source@.len() - self.position,
                {
                    let d = self.current_char();
                    if is_letter(d) || is_digit(d) {
                        let digit: u128 = if is_digit(d) {
                            (d as u32 - 48) as u128
                        } else if is_upper_letter(d) {
                            (d as u32 - 65) as u128 + 10
                        } else {
                            (d as u32 - 97) as u128 + 10
                        };
                        proof {
                            assert(digit == spec_digit_value(d));
                        }
                        if digit >= base {
                            proof {
                                assert(scan_integer(
                                    self.source@,
                                    self.position as int,
                                    base,
                                    int_value,
                                ) == Err::<(u128, int), ScanFault>(ScanFault::DigitOutOfRange {
                                    found: d,
                                    base,
                                    position: self.position as int,
                                }));
                            }
                            return Err(
                                CompileError {
                                    location: self.get_current_location(),
                                    kind: CompileErrorKind::DigitOutOfRange { found: d, base },
                                },
                            );
                        }
                        // Saturate instead of overflowing: any saturated value
                        // is still beyond the 64-bit signed ceiling, so the
                        // binder rejects the literal either way.
                        int_value = match int_value.checked_mul(base) {
                            Some(scaled) => match scaled.checked_add(digit) {
                                Some(next) => next,
                                None => u128::MAX,
                            },
                            None => u128::MAX,
                        };
                        self.next_char();
                    } else if d == '_' {
                        self.next_char();
                    } else {
                        break;
                    }
                }
                proof {
                    assert(scan_integer(self.source@, self.position as int, base, int_value)
                        == Ok::<(u128, int), ScanFault>((int_value, self.position as int)));
                    assert(spec_scan(self.source@, start_position as int)
                        == Ok::<(TokenKindModel, int), ScanFault>((
                        TokenKindModel::Integer(int_value),
                        self.position as int,
                    )));
                }
                return Ok(
                    Token {
                        kind: TokenKind::Integer(int_value),
                        length: self.position - start_position,
                        location: start_location,
                    },
                );
            }
            if c == '(' {
                return Ok(self.single_char_token(TokenKind::OpenParenthesis));
            }
            if c == ')' {
                return Ok(self.single_char_token(TokenKind::CloseParenthesis));
            }
            if c == '{' {
                return Ok(self.single_char_token(TokenKind::OpenBrace));
            }
            if c == '}' {
                return Ok(self.single_char_token(TokenKind::CloseBrace));
            }
            if c == ',' {
                return Ok(self.single_char_token(TokenKind::Comma));
            }
            if c == '+' {
                return Ok(self.double_char_token(TokenKind::Plus, '=', TokenKind::PlusEqual));
            }
            if c == '-' {
                return Ok(
                    self.double_char_token_2_choice(
                        TokenKind::Minus,
                        '=',
                        TokenKind::MinusEqual,
                        '>',
                        TokenKind::RightArrow,
                    ),
                );
            }
            if c == '*' {
                return Ok(
                    self.double_char_token(TokenKind::Asterisk, '=', TokenKind::AsteriskEqual),
                );
            }
            if c == '/' {
                self.next_char();
                if self.current_char() == '/' {
                    loop
                        invariant
                            lexer_wf(*self),
                            self.source == old(self).source,
                            self.filepath == old(self).filepath,
                            self.position > start_position >= old(self).position,
                            line_comment_end(self.source@, start_position as int + 1)
                                == line_comment_end(self.source@, self.position as int),
                        decreases self.source@.len() - self.position,
                    {
                        let d = self.current_char();
                        if d != '\n' && d != '\0' {
                            self.next_char();
                        } else {
                            break;
                        }
                    }
                    proof {
                        assert(line_comment_end(self.source@, start_position as int + 1)
                            == self.position as int);
                    }
                    if self.current_char() == '\r' {
                        self.next_char();
                    }
                    proof {
                        assert(spec_scan(self.source@, start_position as int) == spec_scan(
                            self.source@,
                            self.position as int,
                        ));
                    }
                    continue;
                } else if self.current_char() == '=' {
                    self.next_char();
                    proof {
                        assert(spec_scan(self.source@, start_position as int)
                            == Ok::<(TokenKindModel, int), ScanFault>((
                            TokenKindModel::SlashEqual,
                            self.position as int,
                        )));
                    }
                    return Ok(
                        Token {
                            kind: TokenKind::SlashEqual,
                            length: self.position - start_position,
                            location: start_location,
                        },
                    );
                } else {
                    proof {
                        assert(spec_scan(self.source@, start_position as int)
                            == Ok::<(TokenKindModel, int), ScanFault>((
                            TokenKindModel::Slash,
                            self.position as int,
                        )));
                    }
                    return Ok(
                        Token {
                            kind: TokenKind::Slash,
                            length: self.position - start_position,
                            location: start_location,
                        },
                    );
                }
            }
            if c == '=' {
                return Ok(self.double_char_token(TokenKind::Equal, '=', TokenKind::EqualEqual));
            }
            if c == '!' {
                return Ok(
                    self.double_char_token(
                        TokenKind::ExclamationMark,
                        '=',
                        TokenKind::ExclamationMarkEqual,
                    ),
                );
            }
            if c == '<' {
                return Ok(
                    self.double_char_token_2_choice(
                        TokenKind::LessThan,
                        '=',
                        TokenKind::LessThanEqual,
                        '-',
                        TokenKind::RightArrow,
                    ),
                );
            }
            if c == '>' {
                return Ok(
                    self.double_char_token(
                        TokenKind::GreaterThan,
                        '=',
                        TokenKind::LessThanEqual,
                    ),
                );
            }
            let unexpected = self.next_char();
            proof {
                assert(spec_scan(self.source@, start_position as int)
                    == Err::<(TokenKindModel, int), ScanFault>(ScanFault::UnexpectedCharacter {
                    found: unexpected,
                    position: start_position as int,
                }));
            }
            return Err(
                CompileError {
                    location: start_location,
                    kind: CompileErrorKind::UnexpectedCharacter { found: unexpected },
                },
            );
        }
    }

    /// The kind of the next token, without consuming it: exactly the kind
    /// [`Lexer::next_token`] would return, read off [`spec_scan`], or the
    /// same failure.
    pub fn peek_kind(&self) -> (r: Result<TokenKind, CompileError>)
        requires
            lexer_wf(*self),
        ensures
            match r {
                Ok(kind) => spec_scan(self.source@, self.position as int) matches Ok((k, _))
                    && kind@ == k,
                Err(e) => e.location.filepath == self.filepath && match spec_scan(
                    self.source@,
                    self.position as int,
                ) {
                    Ok(_) => false,
                    Err(fault) => match fault {
                        ScanFault::UnexpectedCharacter { found, position } => e.kind@ == (
                        CompileErrorKindModel::UnexpectedCharacter { found }) && e.location.position
                            == position,
                        ScanFault::DigitOutOfRange { found, base, position } => e.kind@ == (
                        CompileErrorKindModel::DigitOutOfRange { found, base }) && e.location.position
                            == position,
                    },
                },
            },
    {
        let mut copy = self.clone();
        match copy.next_token() {
            Ok(token) => Ok(token.kind),
            Err(e) => Err(e),
        }
    }
}

} // verus!
