//! The syntax tree the parser produces and the binder consumes.
//!
//! Each node owns its children; leaves carry the token they came from, so
//! every node can report a source location for diagnostics.  A tree is
//! well-formed ([`ast_wf`]) when every node that names something carries a
//! token of the right kind — the parser only builds well-formed trees, and
//! the binder relies on that.

use vstd::prelude::*;

use crate::common::SourceLocation;
use crate::token::{Token, TokenKind};

verus! {

/// Common shape of syntax nodes: each knows its source location and can
/// render itself for a human-readable tree dump.
pub trait AstTrait {
    /// The location the node reports, as a mathematical value.
    spec fn spec_location(&self) -> SourceLocation;

    /// The source location used when diagnosing this node.
    fn get_location(&self) -> (r: SourceLocation)
        ensures
            r == self.spec_location(),
    ;

    /// Renders the node as debugging output, indented by `indent` levels.
    /// No particular format is promised.
    fn pretty_print(&self, indent: usize) -> String;
}

#[derive(Debug, PartialEq)]
pub enum Ast {
    File(AstFile),
    Block(AstBlock),
    Export(AstExport),
    Let(AstLet),
    Unary(AstUnary),
    Binary(AstBinary),
    Name(AstName),
    Integer(AstInteger),
    Call(AstCall),
}

#[derive(Debug, PartialEq)]
pub struct AstFile {
    pub expressions: Vec<Ast>,
    pub end_of_file_token: Token,
}

#[derive(Debug, PartialEq)]
pub struct AstBlock {
    pub open_brace_token: Token,
    pub expressions: Vec<Ast>,
    pub close_brace_token: Token,
}

#[derive(Debug, PartialEq)]
pub struct AstExport {
    pub export_token: Token,
    pub name_token: Token,
    pub equals_token: Token,
    pub value: Box<Ast>,
}

#[derive(Debug, PartialEq)]
pub struct AstLet {
    pub let_token: Token,
    pub name_token: Token,
    pub equal_token: Option<Token>,
    pub value: Option<Box<Ast>>,
}

#[derive(Debug, PartialEq)]
pub struct AstUnary {
    pub operator_token: Token,
    pub operand: Box<Ast>,
}

#[derive(Debug, PartialEq)]
pub struct AstBinary {
    pub left: Box<Ast>,
    pub operator_token: Token,
    pub right: Box<Ast>,
}

#[derive(Debug, PartialEq)]
pub struct AstName {
    pub name_token: Token,
}

#[derive(Debug, PartialEq)]
pub struct AstInteger {
    pub integer_token: Token,
}

#[derive(Debug, PartialEq)]
pub struct AstCall {
    pub operand: Box<Ast>,
    pub open_parenthesis_token: Token,
    pub arguments: Vec<Ast>,
    pub close_parenthesis_token: Token,
}

/// Well-formedness of a sequence of sibling expressions.
pub open spec fn ast_seq_wf(s: Seq<Ast>) -> bool
    decreases s,
{
    if s.len() == 0 {
        true
    } else {
        ast_seq_wf(s.subrange(0, s.len() - 1)) && ast_wf(s[s.len() - 1])
    }
}

/// Well-formedness of a syntax tree: every name-carrying node holds a token
/// of the matching kind.  The parser establishes this; the binder requires it.
pub open spec fn ast_wf(ast: Ast) -> bool
    decreases ast,
{
    match ast {
        Ast::File(file) => ast_seq_wf(file.expressions@),
        Ast::Block(block) => ast_seq_wf(block.expressions@),
        Ast::Export(export) => export.name_token.kind is Name && ast_wf(*export.value),
        Ast::Let(lett) => lett.name_token.kind is Name && match lett.value {
            Some(value) => ast_wf(*value),
            None => true,
        },
        Ast::Unary(unary) => ast_wf(*unary.operand),
        Ast::Binary(binary) => ast_wf(*binary.left) && ast_wf(*binary.right),
        Ast::Name(name) => name.name_token.kind is Name,
        Ast::Integer(integer) => integer.integer_token.kind is Integer,
        Ast::Call(call) => ast_wf(*call.operand) && ast_seq_wf(call.arguments@),
    }
}

pub broadcast proof fn lemma_ast_seq_wf_index(s: Seq<Ast>)
    ensures
        #[trigger] ast_seq_wf(s) <==> (forall|i: int| 0 <= i < s.len() ==> ast_wf(s[i])),
    decreases s,
{
    if s.len() > 0 {
        let pre = s.subrange(0, s.len() - 1);
        lemma_ast_seq_wf_index(pre);
        assert(forall|i: int|
            #![trigger s[i]]
            #![trigger pre[i]]
            0 <= i < s.len() - 1 ==> s[i] == pre[i]);
    }
}

/// Four spaces per indentation level.
#[verifier::loop_isolation(false)]
fn get_indent(indent: usize) -> (r: String) {
    let mut result = String::new();
    for _i in 0..indent
        decreases indent - _i,
    {
        result.append("    ");
    }
    result
}

/// The decimal digits of a value, most significant first.
pub open spec fn spec_decimal(value: u128) -> Seq<char>
    decreases value,
{
    if value < 10 {
        seq![spec_decimal_digit(value % 10)]
    } else {
        spec_decimal(value / 10).push(spec_decimal_digit(value % 10))
    }
}

/// The character for one decimal digit.
pub open spec fn spec_decimal_digit(digit: u128) -> char {
    if digit == 0 {
        '0'
    } else if digit == 1 {
        '1'
    } else if digit == 2 {
        '2'
    } else if digit == 3 {
        '3'
    } else if digit == 4 {
        '4'
    } else if digit == 5 {
        '5'
    } else if digit == 6 {
        '6'
    } else if digit == 7 {
        '7'
    } else if digit == 8 {
        '8'
    } else {
        '9'
    }
}

fn decimal_digit(digit: u128) -> (r: char)
    requires
        digit < 10,
    ensures
        r == spec_decimal_digit(digit),
{
    if digit == 0 {
        '0'
    } else if digit == 1 {
        '1'
    } else if digit == 2 {
        '2'
    } else if digit == 3 {
        '3'
    } else if digit == 4 {
        '4'
    } else if digit == 5 {
        '5'
    } else if digit == 6 {
        '6'
    } else if digit == 7 {
        '7'
    } else if digit == 8 {
        '8'
    } else {
        '9'
    }
}

/// Renders a value in decimal.
pub fn decimal_text(value: u128) -> (r: String)
    ensures
        r@ == spec_decimal(value),
    decreases value,
{
    if value < 10 {
        let mut text = String::new();
        crate::lexer::push_char(&mut text, decimal_digit(value % 10));
        proof {
            assert(text@ =~= spec_decimal(value));
        }
        text
    } else {
        let mut text = decimal_text(value / 10);
        crate::lexer::push_char(&mut text, decimal_digit(value % 10));
        text
    }
}

/// One deeper indentation level, capped at the machine limit.
fn deeper(indent: usize) -> usize {
    if indent < usize::MAX {
        indent + 1
    } else {
        indent
    }
}

/// The name a token carries; empty for any token that is no name token (a
/// well-formed tree never hits that case).
fn token_text(token: &Token) -> String {
    match &token.kind {
        TokenKind::Name(name) => name.clone(),
        _ => String::new(),
    }
}

/// Renders a file; the worker behind [`AstTrait::pretty_print`].
#[verifier::loop_isolation(false)]
fn pretty_print_file(file: &AstFile, indent: usize) -> (r: String)
    decreases file,
{
    let mut result = String::new();
    let n = file.expressions.len();
    for i in 0..n
        decreases n - i,
    {
        crate::lexer::push_char(&mut result, '\n');
        let pad = get_indent(indent);
        result.append(pad.as_str());
        let child = pretty_print_ast(&file.expressions[i], indent);
        result.append(child.as_str());
    }
    crate::lexer::push_char(&mut result, '\n');
    result
}

/// Renders a block, its children one level deeper.
#[verifier::loop_isolation(false)]
fn pretty_print_block(block: &AstBlock, indent: usize) -> (r: String)
    decreases block,
{
    let mut result = String::new();
    crate::lexer::push_char(&mut result, '{');
    let n = block.expressions.len();
    for i in 0..n
        decreases n - i,
    {
        crate::lexer::push_char(&mut result, '\n');
        let pad = get_indent(deeper(indent));
        result.append(pad.as_str());
        let child = pretty_print_ast(&block.expressions[i], deeper(indent));
        result.append(child.as_str());
    }
    crate::lexer::push_char(&mut result, '\n');
    let pad = get_indent(indent);
    result.append(pad.as_str());
    crate::lexer::push_char(&mut result, '}');
    result
}

/// Renders an export declaration.
fn pretty_print_export(export: &AstExport, indent: usize) -> (r: String)
    decreases export,
{
    let mut result = String::from_str("export ");
    let name = token_text(&export.name_token);
    result.append(name.as_str());
    result.append(" = ");
    let value = pretty_print_ast(&export.value, indent);
    result.append(value.as_str());
    result
}

/// Renders a let declaration.
fn pretty_print_let(lett: &AstLet, indent: usize) -> (r: String)
    decreases lett,
{
    let mut result = String::from_str("let ");
    let name = token_text(&lett.name_token);
    result.append(name.as_str());
    match &lett.value {
        Some(value) => {
            result.append(" = ");
            let rendered = pretty_print_ast(value, indent);
            result.append(rendered.as_str());
        },
        None => (),
    }
    result
}

/// Renders a unary expression.
fn pretty_print_unary(unary: &AstUnary, indent: usize) -> (r: String)
    decreases unary,
{
    let mut result = unary.operator_token.kind.to_string();
    let operand = pretty_print_ast(&unary.operand, indent);
    result.append(operand.as_str());
    result
}

/// Renders a binary expression.
fn pretty_print_binary(binary: &AstBinary, indent: usize) -> (r: String)
    decreases binary,
{
    let mut result = pretty_print_ast(&binary.left, indent);
    crate::lexer::push_char(&mut result, ' ');
    let operator = binary.operator_token.kind.to_string();
    result.append(operator.as_str());
    crate::lexer::push_char(&mut result, ' ');
    let right = pretty_print_ast(&binary.right, indent);
    result.append(right.as_str());
    result
}

/// Renders a name reference.
fn pretty_print_name(name: &AstName) -> (r: String) {
    token_text(&name.name_token)
}

/// Renders an integer literal.
fn pretty_print_integer(integer: &AstInteger) -> (r: String) {
    match &integer.integer_token.kind {
        TokenKind::Integer(value) => decimal_text(*value),
        _ => String::new(),
    }
}

/// Renders a call expression.
#[verifier::loop_isolation(false)]
fn pretty_print_call(call: &AstCall, indent: usize) -> (r: String)
    decreases call,
{
    let mut result = pretty_print_ast(&call.operand, indent);
    crate::lexer::push_char(&mut result, '(');
    let n = call.arguments.len();
    for i in 0..n
        decreases n - i,
    {
        if i > 0 {
            result.append(", ");
        }
        let argument = pretty_print_ast(&call.arguments[i], indent);
        result.append(argument.as_str());
    }
    crate::lexer::push_char(&mut result, ')');
    result
}

/// Renders one syntax node; the worker behind [`AstTrait::pretty_print`].
fn pretty_print_ast(ast: &Ast, indent: usize) -> (r: String)
    decreases ast,
{
    match ast {
        Ast::File(file) => pretty_print_file(file, indent),
        Ast::Block(block) => pretty_print_block(block, indent),
        Ast::Export(export) => pretty_print_export(export, indent),
        Ast::Let(lett) => pretty_print_let(lett, indent),
        Ast::Unary(unary) => pretty_print_unary(unary, indent),
        Ast::Binary(binary) => pretty_print_binary(binary, indent),
        Ast::Name(name) => pretty_print_name(name),
        Ast::Integer(integer) => pretty_print_integer(integer),
        Ast::Call(call) => pretty_print_call(call, indent),
    }
}

/// Deep copy of a sequence of sibling expressions.
#[verifier::loop_isolation(false)]
fn clone_ast_vec(v: &Vec<Ast>) -> (r: Vec<Ast>)
    decreases v,
{
    let mut out: Vec<Ast> = Vec::new();
    let n = v.len();
    for i in 0..n
        decreases n - i,
    {
        let c = clone_ast(&v[i]);
        out.push(c);
    }
    out
}

/// Deep copy of a syntax tree.
fn clone_ast(a: &Ast) -> (r: Ast)
    decreases a,
{
    match a {
        Ast::File(f) => Ast::File(AstFile {
            expressions: clone_ast_vec(&f.expressions),
            end_of_file_token: f.end_of_file_token.clone(),
        }),
        Ast::Block(b) => Ast::Block(AstBlock {
            open_brace_token: b.open_brace_token.clone(),
            expressions: clone_ast_vec(&b.expressions),
            close_brace_token: b.close_brace_token.clone(),
        }),
        Ast::Export(e) => Ast::Export(AstExport {
            export_token: e.export_token.clone(),
            name_token: e.name_token.clone(),
            equals_token: e.equals_token.clone(),
            value: Box::new(clone_ast(&e.value)),
        }),
        Ast::Let(l) => Ast::Let(AstLet {
            let_token: l.let_token.clone(),
            name_token: l.name_token.clone(),
            equal_token: match &l.equal_token {
                Some(t) => Some(t.clone()),
                None => None,
            },
            value: match &l.value {
                Some(v) => Some(Box::new(clone_ast(v))),
                None => None,
            },
        }),
        Ast::Unary(u) => Ast::Unary(AstUnary {
            operator_token: u.operator_token.clone(),
            operand: Box::new(clone_ast(&u.operand)),
        }),
        Ast::Binary(b) => Ast::Binary(AstBinary {
            left: Box::new(clone_ast(&b.left)),
            operator_token: b.operator_token.clone(),
            right: Box::new(clone_ast(&b.right)),
        }),
        Ast::Name(n) => Ast::Name(AstName { name_token: n.name_token.clone() }),
        Ast::Integer(i) => Ast::Integer(AstInteger { integer_token: i.integer_token.clone() }),
        Ast::Call(c) => Ast::Call(AstCall {
            operand: Box::new(clone_ast(&c.operand)),
            open_parenthesis_token: c.open_parenthesis_token.clone(),
            arguments: clone_ast_vec(&c.arguments),
            close_parenthesis_token: c.close_parenthesis_token.clone(),
        }),
    }
}

impl Clone for Ast {
    /// Deep copy.  Nothing is claimed of the copy; verified code never clones
    /// syntax trees, only tools do.
    fn clone(&self) -> Ast {
        clone_ast(self)
    }
}

impl Ast {
    pub fn unwrap_file(&self) -> (r: &AstFile)
        requires
            self is File,
        ensures
            *self == Ast::File(*r),
    {
        if let Ast::File(file) = self {
            file
        } else {
            unreached()
        }
    }

    pub fn unwrap_block(&self) -> (r: &AstBlock)
        requires
            self is Block,
        ensures
            *self == Ast::Block(*r),
    {
        if let Ast::Block(block) = self {
            block
        } else {
            unreached()
        }
    }

    pub fn unwrap_export(&self) -> (r: &AstExport)
        requires
            self is Export,
        ensures
            *self == Ast::Export(*r),
    {
        if let Ast::Export(export) = self {
            export
        } else {
            unreached()
        }
    }

    pub fn unwrap_let(&self) -> (r: &AstLet)
        requires
            self is Let,
        ensures
            *self == Ast::Let(*r),
    {
        if let Ast::Let(lett) = self {
            lett
        } else {
            unreached()
        }
    }

    pub fn unwrap_unary(&self) -> (r: &AstUnary)
        requires
            self is Unary,
        ensures
            *self == Ast::Unary(*r),
    {
        if let Ast::Unary(unary) = self {
            unary
        } else {
            unreached()
        }
    }

    pub fn unwrap_binary(&self) -> (r: &AstBinary)
        requires
            self is Binary,
        ensures
            *self == Ast::Binary(*r),
    {
        if let Ast::Binary(binary) = self {
            binary
        } else {
            unreached()
        }
    }

    pub fn unwrap_name(&self) -> (r: &AstName)
        requires
            self is Name,
        ensures
            *self == Ast::Name(*r),
    {
        if let Ast::Name(name) = self {
            name
        } else {
            unreached()
        }
    }

    pub fn unwrap_integer(&self) -> (r: &AstInteger)
        requires
            self is Integer,
        ensures
            *self == Ast::Integer(*r),
    {
        if let Ast::Integer(integer) = self {
            integer
        } else {
            unreached()
        }
    }

    pub fn unwrap_call(&self) -> (r: &AstCall)
        requires
            self is Call,
        ensures
            *self == Ast::Call(*r),
    {
        if let Ast::Call(call) = self {
            call
        } else {
            unreached()
        }
    }
}

impl AstTrait for Ast {
    open spec fn spec_location(&self) -> SourceLocation {
        match self {
            Ast::File(file) => file.spec_location(),
            Ast::Block(block) => block.spec_location(),
            Ast::Export(export) => export.spec_location(),
            Ast::Let(lett) => lett.spec_location(),
            Ast::Unary(unary) => unary.spec_location(),
            Ast::Binary(binary) => binary.spec_location(),
            Ast::Name(name) => name.spec_location(),
            Ast::Integer(integer) => integer.spec_location(),
            Ast::Call(call) => call.spec_location(),
        }
    }

    fn get_location(&self) -> (r: SourceLocation) {
        match self {
            Ast::File(file) => file.get_location(),
            Ast::Block(block) => block.get_location(),
            Ast::Export(export) => export.get_location(),
            Ast::Let(lett) => lett.get_location(),
            Ast::Unary(unary) => unary.get_location(),
            Ast::Binary(binary) => binary.get_location(),
            Ast::Name(name) => name.get_location(),
            Ast::Integer(integer) => integer.get_location(),
            Ast::Call(call) => call.get_location(),
        }
    }

    fn pretty_print(&self, indent: usize) -> String {
        pretty_print_ast(self, indent)
    }
}

impl AstTrait for AstFile {
    open spec fn spec_location(&self) -> SourceLocation {
        self.end_of_file_token.location
    }

    fn get_location(&self) -> (r: SourceLocation) {
        self.end_of_file_token.location.clone()
    }

    fn pretty_print(&self, indent: usize) -> String {
        pretty_print_file(self, indent)
    }
}

impl AstTrait for AstBlock {
    open spec fn spec_location(&self) -> SourceLocation {
        self.open_brace_token.location
    }

    fn get_location(&self) -> (r: SourceLocation) {
        self.open_brace_token.location.clone()
    }

    fn pretty_print(&self, indent: usize) -> String {
        pretty_print_block(self, indent)
    }
}

impl AstTrait for AstExport {
    open spec fn spec_location(&self) -> SourceLocation {
        self.name_token.location
    }

    fn get_location(&self) -> (r: SourceLocation) {
        self.name_token.location.clone()
    }

    fn pretty_print(&self, indent: usize) -> String {
        pretty_print_export(self, indent)
    }
}

impl AstTrait for AstLet {
    open spec fn spec_location(&self) -> SourceLocation {
        self.name_token.location
    }

    fn get_location(&self) -> (r: SourceLocation) {
        self.name_token.location.clone()
    }

    fn pretty_print(&self, indent: usize) -> String {
        pretty_print_let(self, indent)
    }
}

impl AstTrait for AstUnary {
    open spec fn spec_location(&self) -> SourceLocation {
        self.operator_token.location
    }

    fn get_location(&self) -> (r: SourceLocation) {
        self.operator_token.location.clone()
    }

    fn pretty_print(&self, indent: usize) -> String {
        pretty_print_unary(self, indent)
    }
}

impl AstTrait for AstBinary {
    open spec fn spec_location(&self) -> SourceLocation {
        self.operator_token.location
    }

    fn get_location(&self) -> (r: SourceLocation) {
        self.operator_token.location.clone()
    }

    fn pretty_print(&self, indent: usize) -> String {
        pretty_print_binary(self, indent)
    }
}

impl AstTrait for AstName {
    open spec fn spec_location(&self) -> SourceLocation {
        self.name_token.location
    }

    fn get_location(&self) -> (r: SourceLocation) {
        self.name_token.location.clone()
    }

    fn pretty_print(&self, indent: usize) -> String {
        pretty_print_name(self)
    }
}

impl AstTrait for AstInteger {
    open spec fn spec_location(&self) -> SourceLocation {
        self.integer_token.location
    }

    fn get_location(&self) -> (r: SourceLocation) {
        self.integer_token.location.clone()
    }

    fn pretty_print(&self, indent: usize) -> String {
        pretty_print_integer(self)
    }
}

impl AstTrait for AstCall {
    open spec fn spec_location(&self) -> SourceLocation {
        self.open_parenthesis_token.location
    }

    fn get_location(&self) -> (r: SourceLocation) {
        self.open_parenthesis_token.location.clone()
    }

    fn pretty_print(&self, indent: usize) -> String {
        pretty_print_call(self, indent)
    }
}

} // verus!
