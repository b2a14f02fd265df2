//! Name and type binding.
//!
//! The binder walks the syntax tree in source order, threading one scope
//! snapshot through siblings and handing each nested block (and the file
//! itself) a fresh copy whose entries are all marked inherited.  Binding an
//! `export` or `let` fails with a duplicate-definition error only when the
//! name is already defined in the *current* scope; redefining an inherited
//! name is shadowing and is legal.  Binding is fail-fast: the first error
//! aborts the whole bind.
//!
//! The whole binder is specified by [`spec_bind`], a mathematical function
//! from a syntax tree and a scope model to either a bound-tree model plus the
//! scope left behind, or a compile-error model.  [`bind_ast`] returns exactly
//! what [`spec_bind`] says.

use vstd::prelude::*;

use crate::ast::{Ast, AstTrait, ast_seq_wf, ast_wf};
use crate::bound_nodes::{
    BinaryOperator, BinaryOperatorKind, BinaryOperatorModel, BoundBinary, BoundBlock, BoundCall,
    BoundExport, BoundInteger, BoundLet, BoundName, BoundNode, BoundNodeModel, BoundNodeTrait,
    BoundUnary, UnaryOperator, UnaryOperatorKind, UnaryOperatorModel, bound_node_model,
    model_location, model_type, view_bound_nodes,
};
use crate::common::{CompileError, CompileErrorKind, CompileErrorKindModel, CompileErrorModel,
    SourceLocation};
use crate::token::TokenKind;
use crate::types::{BlockType, Type, TypeModel, view_export_pairs};

verus! {

/// One visible name: what it refers to (by type), where it was defined, and
/// whether the definition belongs to the current scope (`local`) or was
/// inherited from an enclosing scope when the scope was entered.
#[derive(Debug)]
pub struct ScopeEntry {
    pub name: String,
    pub entry_type: Type,
    pub location: SourceLocation,
    pub local: bool,
}

/// Mathematical model of a [`ScopeEntry`].
#[verifier::ext_equal]
pub struct ScopeEntryModel {
    pub name: Seq<char>,
    pub entry_type: TypeModel,
    pub location: SourceLocation,
    pub local: bool,
}

impl View for ScopeEntry {
    type V = ScopeEntryModel;

    open spec fn view(&self) -> ScopeEntryModel {
        ScopeEntryModel {
            name: self.name@,
            entry_type: self.entry_type@,
            location: self.location,
            local: self.local,
        }
    }
}

/// A scope snapshot: what is visible right now.  Entering a block copies the
/// snapshot, so mutations inside the block stay invisible to the parent and
/// to sibling scopes.  Later entries shadow earlier ones of the same name.
#[derive(Debug)]
pub struct ScopeSnapshot {
    pub entries: Vec<ScopeEntry>,
}

/// The most recent entry of the given name, if any.
pub open spec fn scope_lookup(s: Seq<ScopeEntryModel>, name: Seq<char>) -> Option<ScopeEntryModel>
    decreases s,
{
    if s.len() == 0 {
        None
    } else if s[s.len() - 1].name == name {
        Some(s[s.len() - 1])
    } else {
        scope_lookup(s.subrange(0, s.len() - 1), name)
    }
}

/// The most recent entry of the given name defined in the current scope.
pub open spec fn scope_lookup_local(
    s: Seq<ScopeEntryModel>,
    name: Seq<char>,
) -> Option<ScopeEntryModel>
    decreases s,
{
    if s.len() == 0 {
        None
    } else if s[s.len() - 1].local && s[s.len() - 1].name == name {
        Some(s[s.len() - 1])
    } else {
        scope_lookup_local(s.subrange(0, s.len() - 1), name)
    }
}

/// The scope a nested block starts with: the same entries, all inherited.
pub open spec fn entered(s: Seq<ScopeEntryModel>) -> Seq<ScopeEntryModel> {
    Seq::new(
        s.len(),
        |i: int| ScopeEntryModel {
            name: s[i].name,
            entry_type: s[i].entry_type,
            location: s[i].location,
            local: false,
        },
    )
}

impl View for ScopeSnapshot {
    type V = Seq<ScopeEntryModel>;

    open spec fn view(&self) -> Seq<ScopeEntryModel> {
        Seq::new(self.entries@.len(), |i: int| self.entries@[i]@)
    }
}

impl ScopeSnapshot {
    /// The empty scope: nothing is visible.
    pub fn new() -> (r: ScopeSnapshot)
        ensures
            r@ == Seq::<ScopeEntryModel>::empty(),
    {
        let r = ScopeSnapshot { entries: Vec::new() };
        proof {
            assert(r@ =~= Seq::<ScopeEntryModel>::empty());
        }
        r
    }

    /// Makes a name visible.  `local` says whether the definition belongs to
    /// the current scope (a `let`/`export` bound here) or is a seeded
    /// built-in.
    pub fn insert(&mut self, name: String, entry_type: Type, location: SourceLocation, local: bool)
        ensures
            final(self)@ == old(self)@.push(
                ScopeEntryModel { name: name@, entry_type: entry_type@, location, local },
            ),
    {
        self.entries.push(ScopeEntry { name, entry_type, location, local });
        proof {
            assert(final(self)@ =~= old(self)@.push(
                ScopeEntryModel {
                    name: self.entries@[self.entries@.len() - 1].name@,
                    entry_type: self.entries@[self.entries@.len() - 1].entry_type@,
                    location: self.entries@[self.entries@.len() - 1].location,
                    local: self.entries@[self.entries@.len() - 1].local,
                },
            ));
        }
    }

    /// The scope a nested block starts with: a fresh copy of this one with
    /// every entry marked inherited.
    #[verifier::loop_isolation(false)]
    pub fn enter(&self) -> (r: ScopeSnapshot)
        ensures
            r@ == entered(self@),
    {
        let mut entries: Vec<ScopeEntry> = Vec::new();
        let n = self.entries.len();
        for i in 0..n
            invariant
                entries@.len() == i,
                forall|j: int| 0 <= j < i ==> entries@[j]@ == entered(self@)[j],
            decreases n - i,
        {
            let e = &self.entries[i];
            entries.push(ScopeEntry {
                name: e.name.clone(),
                entry_type: e.entry_type.clone(),
                location: e.location.clone(),
                local: false,
            });
        }
        let r = ScopeSnapshot { entries };
        proof {
            assert(r@ =~= entered(self@));
        }
        r
    }

    /// Resolves a name against the snapshot: the most recent entry wins, so a
    /// shadowing definition hides what it shadows.
    #[verifier::loop_isolation(false)]
    pub fn lookup(&self, name: &String) -> (r: Option<&ScopeEntry>)
        ensures
            match r {
                Some(e) => scope_lookup(self@, name@) == Some(e@),
                None => scope_lookup(self@, name@) is None,
            },
    {
        let n = self.entries.len();
        proof {
            assert(self@.subrange(0, n as int) =~= self@);
        }
        let mut i = n;
        while i > 0
            invariant
                i <= n,
                scope_lookup(self@, name@) == scope_lookup(self@.subrange(0, i as int), name@),
            decreases i,
        {
            i = i - 1;
            let ghost pre = self@.subrange(0, i as int + 1);
            proof {
                assert(pre[i as int] == self@[i as int]);
                assert(pre.subrange(0, pre.len() - 1) =~= self@.subrange(0, i as int));
            }
            if self.entries[i].name == *name {
                proof {
                    assert(scope_lookup(pre, name@) == Some(self@[i as int]));
                }
                return Some(&self.entries[i]);
            }
        }
        proof {
            assert(self@.subrange(0, 0) =~= Seq::<ScopeEntryModel>::empty());
        }
        None
    }

    /// Resolves a name against the current scope only; inherited entries do
    /// not count.  This is the check behind duplicate-definition errors.
    #[verifier::loop_isolation(false)]
    pub fn lookup_local(&self, name: &String) -> (r: Option<&ScopeEntry>)
        ensures
            match r {
                Some(e) => scope_lookup_local(self@, name@) == Some(e@),
                None => scope_lookup_local(self@, name@) is None,
            },
    {
        let n = self.entries.len();
        proof {
            assert(self@.subrange(0, n as int) =~= self@);
        }
        let mut i = n;
        while i > 0
            invariant
                i <= n,
                scope_lookup_local(self@, name@) == scope_lookup_local(
                    self@.subrange(0, i as int),
                    name@,
                ),
            decreases i,
        {
            i = i - 1;
            let ghost pre = self@.subrange(0, i as int + 1);
            proof {
                assert(pre[i as int] == self@[i as int]);
                assert(pre.subrange(0, pre.len() - 1) =~= self@.subrange(0, i as int));
            }
            if self.entries[i].local && self.entries[i].name == *name {
                proof {
                    assert(scope_lookup_local(pre, name@) == Some(self@[i as int]));
                }
                return Some(&self.entries[i]);
            }
        }
        proof {
            assert(self@.subrange(0, 0) =~= Seq::<ScopeEntryModel>::empty());
        }
        None
    }
}

/// The fixed, ordered unary operator table: the first entry matching the
/// operator token and the operand type decides the operation and result type.
pub open spec fn spec_find_unary_operator(
    kind: TokenKind,
    operand: TypeModel,
) -> Option<UnaryOperatorModel> {
    if kind == TokenKind::Plus && operand == TypeModel::Integer {
        Some(
            UnaryOperatorModel {
                kind: UnaryOperatorKind::Identity,
                operand: TypeModel::Integer,
                result: TypeModel::Integer,
            },
        )
    } else if kind == TokenKind::Minus && operand == TypeModel::Integer {
        Some(
            UnaryOperatorModel {
                kind: UnaryOperatorKind::Negation,
                operand: TypeModel::Integer,
                result: TypeModel::Integer,
            },
        )
    } else {
        None
    }
}

/// The fixed, ordered binary operator table.
pub open spec fn spec_find_binary_operator(
    kind: TokenKind,
    left: TypeModel,
    right: TypeModel,
) -> Option<BinaryOperatorModel> {
    if left == TypeModel::Integer && right == TypeModel::Integer {
        match kind {
            TokenKind::Plus => Some(
                BinaryOperatorModel {
                    kind: BinaryOperatorKind::Addition,
                    left: TypeModel::Integer,
                    right: TypeModel::Integer,
                    result: TypeModel::Integer,
                },
            ),
            TokenKind::Minus => Some(
                BinaryOperatorModel {
                    kind: BinaryOperatorKind::Subtraction,
                    left: TypeModel::Integer,
                    right: TypeModel::Integer,
                    result: TypeModel::Integer,
                },
            ),
            TokenKind::Asterisk => Some(
                BinaryOperatorModel {
                    kind: BinaryOperatorKind::Multiplication,
                    left: TypeModel::Integer,
                    right: TypeModel::Integer,
                    result: TypeModel::Integer,
                },
            ),
            TokenKind::Slash => Some(
                BinaryOperatorModel {
                    kind: BinaryOperatorKind::Division,
                    left: TypeModel::Integer,
                    right: TypeModel::Integer,
                    result: TypeModel::Integer,
                },
            ),
            _ => None,
        }
    } else {
        None
    }
}

/// Scans the unary operator table for the first structural match.
fn find_unary_operator(kind: &TokenKind, operand: &Type) -> (r: Option<UnaryOperator>)
    ensures
        match r {
            Some(op) => spec_find_unary_operator(*kind, operand@) == Some(op@),
            None => spec_find_unary_operator(*kind, operand@) is None,
        },
{
    let is_integer = matches!(operand, Type::Integer);
    match kind {
        TokenKind::Plus => if is_integer {
            Some(
                UnaryOperator {
                    kind: UnaryOperatorKind::Identity,
                    operand: Type::Integer,
                    result: Type::Integer,
                },
            )
        } else {
            None
        },
        TokenKind::Minus => if is_integer {
            Some(
                UnaryOperator {
                    kind: UnaryOperatorKind::Negation,
                    operand: Type::Integer,
                    result: Type::Integer,
                },
            )
        } else {
            None
        },
        _ => None,
    }
}

/// Scans the binary operator table for the first structural match.
fn find_binary_operator(kind: &TokenKind, left: &Type, right: &Type) -> (r: Option<
    BinaryOperator,
>)
    ensures
        match r {
            Some(op) => spec_find_binary_operator(*kind, left@, right@) == Some(op@),
            None => spec_find_binary_operator(*kind, left@, right@) is None,
        },
{
    let operands_are_integers = matches!(left, Type::Integer) && matches!(right, Type::Integer);
    if !operands_are_integers {
        return None;
    }
    let op_kind = match kind {
        TokenKind::Plus => Some(BinaryOperatorKind::Addition),
        TokenKind::Minus => Some(BinaryOperatorKind::Subtraction),
        TokenKind::Asterisk => Some(BinaryOperatorKind::Multiplication),
        TokenKind::Slash => Some(BinaryOperatorKind::Division),
        _ => None,
    };
    match op_kind {
        Some(k) => Some(
            BinaryOperator {
                kind: k,
                left: Type::Integer,
                right: Type::Integer,
                result: Type::Integer,
            },
        ),
        None => None,
    }
}

/// The name carried by a name token; the empty sequence for any other token
/// (well-formed trees never hit that case).
pub open spec fn token_name(kind: TokenKind) -> Seq<char> {
    match kind {
        TokenKind::Name(name) => name@,
        _ => Seq::empty(),
    }
}

/// The value carried by an integer token; zero for any other token
/// (well-formed trees never hit that case).
pub open spec fn token_integer(kind: TokenKind) -> u128 {
    match kind {
        TokenKind::Integer(value) => value,
        _ => 0,
    }
}

/// The export mapping of a sequence of bound siblings: one `(name, type)`
/// pair per export child, in source order.
pub open spec fn exports_of(nodes: Seq<BoundNodeModel>) -> Seq<(Seq<char>, TypeModel)>
    decreases nodes,
{
    if nodes.len() == 0 {
        Seq::empty()
    } else {
        exports_of(nodes.subrange(0, nodes.len() - 1)) + (match nodes[nodes.len() - 1] {
            BoundNodeModel::Export { name, .. } => seq![
                (name, model_type(nodes[nodes.len() - 1])),
            ],
            _ => Seq::empty(),
        })
    }
}

/// What binding one syntax node returns: on success, the bound-node model and
/// the scope left for the following sibling; on failure, the first error.
pub type BindOutcome = Result<(BoundNodeModel, Seq<ScopeEntryModel>), CompileErrorModel>;

/// What binding a sequence of siblings returns.
pub type BindSeqOutcome = Result<(Seq<BoundNodeModel>, Seq<ScopeEntryModel>), CompileErrorModel>;

/// The binder, as a mathematical function.  Traversal is strictly in source
/// order; the scope is threaded through siblings; nested blocks and the file
/// get an [`entered`] copy, so their definitions never leak out.
pub open spec fn spec_bind(ast: Ast, scope: Seq<ScopeEntryModel>) -> BindOutcome
    decreases ast, 1int,
{
    match ast {
        Ast::File(file) => match spec_bind_children(file.expressions@, entered(scope)) {
            Ok((nodes, _)) => Ok(
                (
                    BoundNodeModel::Block {
                        location: file.end_of_file_token.location,
                        expressions: nodes,
                        block_type: TypeModel::Block { exports: exports_of(nodes) },
                    },
                    scope,
                ),
            ),
            Err(e) => Err(e),
        },
        Ast::Block(block) => match spec_bind_children(block.expressions@, entered(scope)) {
            Ok((nodes, _)) => Ok(
                (
                    BoundNodeModel::Block {
                        location: block.open_brace_token.location,
                        expressions: nodes,
                        block_type: TypeModel::Block { exports: exports_of(nodes) },
                    },
                    scope,
                ),
            ),
            Err(e) => Err(e),
        },
        Ast::Export(export) => {
            let name = token_name(export.name_token.kind);
            match spec_bind(*export.value, scope) {
                Ok((value, scope1)) => match scope_lookup_local(scope1, name) {
                    Some(previous) => Err(
                        CompileErrorModel {
                            location: export.name_token.location,
                            kind: CompileErrorKindModel::DuplicateDefinition {
                                name,
                                original: previous.location,
                            },
                        },
                    ),
                    None => {
                        let node = BoundNodeModel::Export {
                            location: export.name_token.location,
                            name,
                            value: Box::new(value),
                        };
                        Ok(
                            (
                                node,
                                scope1.push(
                                    ScopeEntryModel {
                                        name,
                                        entry_type: model_type(node),
                                        location: export.name_token.location,
                                        local: true,
                                    },
                                ),
                            ),
                        )
                    },
                },
                Err(e) => Err(e),
            }
        },
        Ast::Let(lett) => {
            let name = token_name(lett.name_token.kind);
            let bound_value = match lett.value {
                Some(value) => match spec_bind(*value, scope) {
                    Ok((v, scope1)) => Ok((Some(Box::new(v)), scope1)),
                    Err(e) => Err(e),
                },
                None => Ok((None::<Box<BoundNodeModel>>, scope)),
            };
            match bound_value {
                Ok((value, scope1)) => match scope_lookup_local(scope1, name) {
                    Some(previous) => Err(
                        CompileErrorModel {
                            location: lett.name_token.location,
                            kind: CompileErrorKindModel::DuplicateDefinition {
                                name,
                                original: previous.location,
                            },
                        },
                    ),
                    None => {
                        let node = BoundNodeModel::Let {
                            location: lett.name_token.location,
                            name,
                            value,
                        };
                        Ok(
                            (
                                node,
                                scope1.push(
                                    ScopeEntryModel {
                                        name,
                                        entry_type: model_type(node),
                                        location: lett.name_token.location,
                                        local: true,
                                    },
                                ),
                            ),
                        )
                    },
                },
                Err(e) => Err(e),
            }
        },
        Ast::Unary(unary) => match spec_bind(*unary.operand, scope) {
            Ok((operand, scope1)) => match spec_find_unary_operator(
                unary.operator_token.kind,
                model_type(operand),
            ) {
                Some(operator) => Ok(
                    (
                        BoundNodeModel::Unary {
                            location: unary.operator_token.location,
                            operator,
                            operand: Box::new(operand),
                        },
                        scope1,
                    ),
                ),
                None => Err(
                    CompileErrorModel {
                        location: unary.operator_token.location,
                        kind: CompileErrorKindModel::UnaryOperatorNotFound {
                            operator: unary.operator_token.kind,
                            operand: model_type(operand),
                        },
                    },
                ),
            },
            Err(e) => Err(e),
        },
        Ast::Binary(binary) => match spec_bind(*binary.left, scope) {
            Ok((left, scope1)) => match spec_bind(*binary.right, scope1) {
                Ok((right, scope2)) => match spec_find_binary_operator(
                    binary.operator_token.kind,
                    model_type(left),
                    model_type(right),
                ) {
                    Some(operator) => Ok(
                        (
                            BoundNodeModel::Binary {
                                location: binary.operator_token.location,
                                left: Box::new(left),
                                operator,
                                right: Box::new(right),
                            },
                            scope2,
                        ),
                    ),
                    None => Err(
                        CompileErrorModel {
                            location: binary.operator_token.location,
                            kind: CompileErrorKindModel::BinaryOperatorNotFound {
                                operator: binary.operator_token.kind,
                                left: model_type(left),
                                right: model_type(right),
                            },
                        },
                    ),
                },
                Err(e) => Err(e),
            },
            Err(e) => Err(e),
        },
        Ast::Name(name_node) => {
            let name = token_name(name_node.name_token.kind);
            match scope_lookup(scope, name) {
                Some(entry) => Ok(
                    (
                        BoundNodeModel::Name {
                            location: name_node.name_token.location,
                            name,
                            resolved_type: entry.entry_type,
                        },
                        scope,
                    ),
                ),
                None => Err(
                    CompileErrorModel {
                        location: name_node.name_token.location,
                        kind: CompileErrorKindModel::UndefinedName { name },
                    },
                ),
            }
        },
        Ast::Integer(integer) => {
            let value = token_integer(integer.integer_token.kind);
            if value > i64::MAX as u128 {
                Err(
                    CompileErrorModel {
                        location: integer.integer_token.location,
                        kind: CompileErrorKindModel::IntegerTooLarge { value },
                    },
                )
            } else {
                Ok(
                    (
                        BoundNodeModel::Integer {
                            location: integer.integer_token.location,
                            value,
                        },
                        scope,
                    ),
                )
            }
        },
        Ast::Call(call) => match spec_bind(*call.operand, scope) {
            Ok((operand, scope1)) => match model_type(operand) {
                TypeModel::Proc { params, ret } => {
                    if params.len() != call.arguments@.len() {
                        Err(
                            CompileErrorModel {
                                location: call.close_parenthesis_token.location,
                                kind: CompileErrorKindModel::ArityMismatch {
                                    expected: params.len() as usize,
                                    actual: call.arguments@.len() as usize,
                                },
                            },
                        )
                    } else {
                        match spec_bind_arguments(
                            call.arguments@,
                            params,
                            0,
                            call.close_parenthesis_token.location,
                            scope1,
                        ) {
                            Ok((arguments, scope2)) => Ok(
                                (
                                    BoundNodeModel::Call {
                                        location: call.open_parenthesis_token.location,
                                        operand: Box::new(operand),
                                        arguments,
                                        proc_type: model_type(operand),
                                    },
                                    scope2,
                                ),
                            ),
                            Err(e) => Err(e),
                        }
                    }
                },
                _ => Err(
                    CompileErrorModel {
                        location: call.close_parenthesis_token.location,
                        kind: CompileErrorKindModel::NotCallable {
                            actual: model_type(operand),
                            operand_location: model_location(operand),
                        },
                    },
                ),
            },
            Err(e) => Err(e),
        },
    }
}

/// Binds siblings left to right, threading the scope through.
pub open spec fn spec_bind_children(
    children: Seq<Ast>,
    scope: Seq<ScopeEntryModel>,
) -> BindSeqOutcome
    decreases children, 0int,
{
    if children.len() == 0 {
        Ok((Seq::empty(), scope))
    } else {
        match spec_bind(children[0], scope) {
            Ok((node, scope1)) => match spec_bind_children(
                children.subrange(1, children.len() as int),
                scope1,
            ) {
                Ok((nodes, scope2)) => Ok((seq![node] + nodes, scope2)),
                Err(e) => Err(e),
            },
            Err(e) => Err(e),
        }
    }
}

/// Binds call arguments left to right, checking each against the
/// corresponding parameter type; the first mismatch aborts, and later
/// arguments stay unchecked.
pub open spec fn spec_bind_arguments(
    arguments: Seq<Ast>,
    params: Seq<TypeModel>,
    index: usize,
    call_location: SourceLocation,
    scope: Seq<ScopeEntryModel>,
) -> BindSeqOutcome
    decreases arguments, 0int,
{
    if arguments.len() == 0 {
        Ok((Seq::empty(), scope))
    } else {
        match spec_bind(arguments[0], scope) {
            Ok((node, scope1)) => {
                if model_type(node) != params[0] {
                    Err(
                        CompileErrorModel {
                            location: call_location,
                            kind: CompileErrorKindModel::ArgumentTypeMismatch {
                                index,
                                expected: params[0],
                                actual: model_type(node),
                            },
                        },
                    )
                } else {
                    match spec_bind_arguments(
                        arguments.subrange(1, arguments.len() as int),
                        params.subrange(1, params.len() as int),
                        (index + 1) as usize,
                        call_location,
                        scope1,
                    ) {
                        Ok((nodes, scope2)) => Ok((seq![node] + nodes, scope2)),
                        Err(e) => Err(e),
                    }
                }
            },
            Err(e) => Err(e),
        }
    }
}



/// Prepends already-bound siblings to the outcome of binding the rest.
pub open spec fn bind_combine(prefix: Seq<BoundNodeModel>, rest: BindSeqOutcome) -> BindSeqOutcome {
    match rest {
        Ok((nodes, scope)) => Ok((prefix + nodes, scope)),
        Err(e) => Err(e),
    }
}

/// Binds the children of a file or block left to right into `names`,
/// collecting the bound nodes and the `(name, type)` pairs of the export
/// children, in source order.
#[verifier::loop_isolation(false)]
fn bind_children(children: &Vec<Ast>, names: &mut ScopeSnapshot) -> (r: Result<
    (Vec<BoundNode>, Vec<(String, Type)>),
    CompileError,
>)
    requires
        ast_seq_wf(children@),
    ensures
        match spec_bind_children(children@, old(names)@) {
            Ok((nodes, scope)) => r matches Ok(p) && view_bound_nodes(p.0@) == nodes
                && view_export_pairs(p.1@) == exports_of(nodes) && final(names)@ == scope,
            Err(e) => r matches Err(err) && err@ == e,
        },
    decreases children,
{
    proof {
        crate::ast::lemma_ast_seq_wf_index(children@);
    }
    let ghost total = spec_bind_children(children@, names@);
    let mut nodes: Vec<BoundNode> = Vec::new();
    let mut exports: Vec<(String, Type)> = Vec::new();
    let n = children.len();
    proof {
        assert(children@.subrange(0, n as int) =~= children@);
        assert(view_bound_nodes(nodes@) =~= Seq::<BoundNodeModel>::empty());
        assert(view_export_pairs(exports@) =~= Seq::<(Seq<char>, TypeModel)>::empty());
        assert(exports_of(Seq::<BoundNodeModel>::empty()) =~= Seq::<(Seq<char>, TypeModel)>::empty());
        if let Ok((ns, sc)) = total {
            assert(Seq::<BoundNodeModel>::empty() + ns =~= ns);
        }
    }
    for i in 0..n
        invariant
            total == bind_combine(
                view_bound_nodes(nodes@),
                spec_bind_children(children@.subrange(i as int, n as int), names@),
            ),
            view_export_pairs(exports@) == exports_of(view_bound_nodes(nodes@)),
        decreases n - i,
    {
        let ghost rem = children@.subrange(i as int, n as int);
        let ghost scope0 = names@;
        let ghost rest = children@.subrange(i as int + 1, n as int);
        proof {
            assert(rem[0] == children@[i as int]);
            assert(rem.subrange(1, rem.len() as int) =~= rest);
        }
        let bound = match bind(&children[i], names) {
            Ok(node) => node,
            Err(e) => {
                return Err(e);
            },
        };
        let ghost v_pre = view_bound_nodes(nodes@);
        proof {
            // One unfolding of the spec binder over the remaining children.
            let r1 = spec_bind_children(rest, names@);
            assert(spec_bind_children(rem, scope0) == bind_combine(seq![bound@], r1));
            if let Ok((ns, sc)) = r1 {
                assert(v_pre + (seq![bound@] + ns) =~= v_pre.push(bound@) + ns);
            }
            assert(total == bind_combine(v_pre.push(bound@), r1));
        }
        if let BoundNode::Export(export) = &bound {
            let export_name = export.name.clone();
            let export_type = bound.get_type();
            let ghost e_pre = exports@;
            exports.push((export_name, export_type));
            proof {
                assert(exports@.subrange(0, exports@.len() - 1) =~= e_pre);
            }
        }
        let ghost n_pre = nodes@;
        nodes.push(bound);
        proof {
            assert(nodes@.subrange(0, nodes@.len() - 1) =~= n_pre);
            assert(view_bound_nodes(nodes@) == v_pre.push(nodes@[nodes@.len() - 1]@));
            let v_now = view_bound_nodes(nodes@);
            assert(v_now.subrange(0, v_now.len() - 1) =~= v_pre);
            assert(exports_of(v_now) == exports_of(v_pre) + (match v_now[v_now.len() - 1] {
                BoundNodeModel::Export { name, .. } => seq![
                    (name, model_type(v_now[v_now.len() - 1])),
                ],
                _ => Seq::<(Seq<char>, TypeModel)>::empty(),
            }));
            assert(view_export_pairs(exports@) =~= exports_of(v_now));
        }
    }
    proof {
        assert(children@.subrange(n as int, n as int) =~= Seq::<Ast>::empty());
        if let Ok((ns, sc)) = total {
            assert(view_bound_nodes(nodes@) + Seq::<BoundNodeModel>::empty() =~= view_bound_nodes(
                nodes@,
            ));
        }
    }
    Ok((nodes, exports))
}

/// Binds call arguments left to right into `names`, checking each against the
/// corresponding parameter type.
#[verifier::loop_isolation(false)]
fn bind_arguments(
    arguments: &Vec<Ast>,
    params: &Vec<Type>,
    call_location: &SourceLocation,
    names: &mut ScopeSnapshot,
) -> (r: Result<Vec<BoundNode>, CompileError>)
    requires
        ast_seq_wf(arguments@),
        arguments@.len() == params@.len(),
    ensures
        match spec_bind_arguments(
            arguments@,
            crate::types::view_types(params@),
            0,
            *call_location,
            old(names)@,
        ) {
            Ok((bound, scope)) => r matches Ok(v) && view_bound_nodes(v@) == bound
                && final(names)@ == scope,
            Err(e) => r matches Err(err) && err@ == e,
        },
    decreases arguments,
{
    proof {
        crate::ast::lemma_ast_seq_wf_index(arguments@);
        crate::types::lemma_view_types_index(params@);
    }
    let ghost params_m = crate::types::view_types(params@);
    let ghost total = spec_bind_arguments(arguments@, params_m, 0, *call_location, names@);
    let mut bound_args: Vec<BoundNode> = Vec::new();
    let n = arguments.len();
    proof {
        assert(arguments@.subrange(0, n as int) =~= arguments@);
        assert(params_m.subrange(0, n as int) =~= params_m);
        assert(view_bound_nodes(bound_args@) =~= Seq::<BoundNodeModel>::empty());
        if let Ok((ns, sc)) = total {
            assert(Seq::<BoundNodeModel>::empty() + ns =~= ns);
        }
    }
    for i in 0..n
        invariant
            total == bind_combine(
                view_bound_nodes(bound_args@),
                spec_bind_arguments(
                    arguments@.subrange(i as int, n as int),
                    params_m.subrange(i as int, n as int),
                    i,
                    *call_location,
                    names@,
                ),
            ),
        decreases n - i,
    {
        let ghost rem = arguments@.subrange(i as int, n as int);
        let ghost rem_params = params_m.subrange(i as int, n as int);
        let ghost scope0 = names@;
        proof {
            assert(rem[0] == arguments@[i as int]);
            assert(rem_params[0] == params_m[i as int]);
            assert(rem.subrange(1, rem.len() as int) =~= arguments@.subrange(
                i as int + 1,
                n as int,
            ));
            assert(rem_params.subrange(1, rem_params.len() as int) =~= params_m.subrange(
                i as int + 1,
                n as int,
            ));
        }
        let bound = match bind(&arguments[i], names) {
            Ok(node) => node,
            Err(e) => {
                return Err(e);
            },
        };
        let argument_type = bound.get_type();
        if !crate::types::type_eq(&argument_type, &params[i]) {
            return Err(
                CompileError {
                    location: call_location.clone(),
                    kind: CompileErrorKind::ArgumentTypeMismatch {
                        index: i,
                        expected: params[i].clone(),
                        actual: argument_type,
                    },
                },
            );
        }
        let ghost v_pre = view_bound_nodes(bound_args@);
        proof {
            let r1 = spec_bind_arguments(
                arguments@.subrange(i as int + 1, n as int),
                params_m.subrange(i as int + 1, n as int),
                (i + 1) as usize,
                *call_location,
                names@,
            );
            assert(spec_bind_arguments(rem, rem_params, i, *call_location, scope0)
                == bind_combine(seq![bound@], r1));
            if let Ok((ns, sc)) = r1 {
                assert(v_pre + (seq![bound@] + ns) =~= v_pre.push(bound@) + ns);
            }
            assert(total == bind_combine(v_pre.push(bound@), r1));
        }
        let ghost b_pre = bound_args@;
        bound_args.push(bound);
        proof {
            assert(bound_args@.subrange(0, bound_args@.len() - 1) =~= b_pre);
        }
    }
    proof {
        assert(arguments@.subrange(n as int, n as int) =~= Seq::<Ast>::empty());
        assert(params_m.subrange(n as int, n as int) =~= Seq::<TypeModel>::empty());
        if let Ok((ns, sc)) = total {
            assert(view_bound_nodes(bound_args@) + Seq::<BoundNodeModel>::empty()
                =~= view_bound_nodes(bound_args@));
        }
    }
    Ok(bound_args)
}

/// Binds one syntax node: resolves names against the scope snapshot, enforces
/// scoping and uniqueness, and type-checks operators and calls.  Returns
/// exactly what [`spec_bind`] says, threading the scope through `names`.
///
/// Files, blocks, name references and integer literals never change the
/// snapshot, not even when they fail.  After a failure of any other form the
/// snapshot's content is deliberately unspecified: binding is fail-fast, so
/// an aborted bind's snapshot is never consumed.
fn bind(ast: &Ast, names: &mut ScopeSnapshot) -> (r: Result<BoundNode, CompileError>)
    requires
        ast_wf(*ast),
    ensures
        match spec_bind(*ast, old(names)@) {
            Ok((node, scope)) => r matches Ok(b) && b@ == node && final(names)@ == scope,
            Err(e) => r matches Err(err) && err@ == e,
        },
        (ast is File || ast is Block || ast is Name || ast is Integer) ==> final(names)@ == old(
            names,
        )@,
    decreases ast,
{
    match ast {
        Ast::File(file) => {
            let mut new_names = names.enter();
            match bind_children(&file.expressions, &mut new_names) {
                Ok((expressions, exported_types)) => {
                    let location = file.get_location();
                    Ok(
                        BoundNode::Block(
                            BoundBlock {
                                location,
                                expressions,
                                block_type: Type::Block(BlockType { exported_types }),
                            },
                        ),
                    )
                },
                Err(e) => Err(e),
            }
        },
        Ast::Block(block) => {
            let mut new_names = names.enter();
            match bind_children(&block.expressions, &mut new_names) {
                Ok((expressions, exported_types)) => {
                    let location = block.get_location();
                    Ok(
                        BoundNode::Block(
                            BoundBlock {
                                location,
                                expressions,
                                block_type: Type::Block(BlockType { exported_types }),
                            },
                        ),
                    )
                },
                Err(e) => Err(e),
            }
        },
        Ast::Export(export) => {
            let name = match &export.name_token.kind {
                TokenKind::Name(name) => name.clone(),
                _ => unreached(),
            };
            let value = match bind(&export.value, names) {
                Ok(value) => value,
                Err(e) => {
                    return Err(e);
                },
            };
            let location = export.get_location();
            let previous = match names.lookup_local(&name) {
                Some(entry) => Some(entry.location.clone()),
                None => None,
            };
            match previous {
                Some(original) => Err(
                    CompileError {
                        location,
                        kind: CompileErrorKind::DuplicateDefinition { name, original },
                    },
                ),
                None => {
                    let node = BoundNode::Export(
                        BoundExport {
                            location: location.clone(),
                            name: name.clone(),
                            value: Box::new(value),
                        },
                    );
                    let entry_type = node.get_type();
                    names.insert(name, entry_type, location, true);
                    Ok(node)
                },
            }
        },
        Ast::Let(lett) => {
            let name = match &lett.name_token.kind {
                TokenKind::Name(name) => name.clone(),
                _ => unreached(),
            };
            let value = match &lett.value {
                Some(value_ast) => match bind(value_ast, names) {
                    Ok(value) => Some(Box::new(value)),
                    Err(e) => {
                        return Err(e);
                    },
                },
                None => None,
            };
            let location = lett.get_location();
            let previous = match names.lookup_local(&name) {
                Some(entry) => Some(entry.location.clone()),
                None => None,
            };
            match previous {
                Some(original) => Err(
                    CompileError {
                        location,
                        kind: CompileErrorKind::DuplicateDefinition { name, original },
                    },
                ),
                None => {
                    let node = BoundNode::Let(
                        BoundLet { location: location.clone(), name: name.clone(), value },
                    );
                    let entry_type = node.get_type();
                    names.insert(name, entry_type, location, true);
                    Ok(node)
                },
            }
        },
        Ast::Unary(unary) => {
            let operand = match bind(&unary.operand, names) {
                Ok(operand) => operand,
                Err(e) => {
                    return Err(e);
                },
            };
            let operand_type = operand.get_type();
            match find_unary_operator(&unary.operator_token.kind, &operand_type) {
                Some(operator) => Ok(
                    BoundNode::Unary(
                        BoundUnary {
                            location: unary.get_location(),
                            operator,
                            operand: Box::new(operand),
                        },
                    ),
                ),
                None => Err(
                    CompileError {
                        location: unary.get_location(),
                        kind: CompileErrorKind::UnaryOperatorNotFound {
                            operator: unary.operator_token.kind.clone(),
                            operand: operand_type,
                        },
                    },
                ),
            }
        },
        Ast::Binary(binary) => {
            let left = match bind(&binary.left, names) {
                Ok(left) => left,
                Err(e) => {
                    return Err(e);
                },
            };
            let right = match bind(&binary.right, names) {
                Ok(right) => right,
                Err(e) => {
                    return Err(e);
                },
            };
            let left_type = left.get_type();
            let right_type = right.get_type();
            match find_binary_operator(&binary.operator_token.kind, &left_type, &right_type) {
                Some(operator) => Ok(
                    BoundNode::Binary(
                        BoundBinary {
                            location: binary.get_location(),
                            left: Box::new(left),
                            operator,
                            right: Box::new(right),
                        },
                    ),
                ),
                None => Err(
                    CompileError {
                        location: binary.get_location(),
                        kind: CompileErrorKind::BinaryOperatorNotFound {
                            operator: binary.operator_token.kind.clone(),
                            left: left_type,
                            right: right_type,
                        },
                    },
                ),
            }
        },
        Ast::Name(name_node) => {
            let name = match &name_node.name_token.kind {
                TokenKind::Name(name) => name.clone(),
                _ => unreached(),
            };
            match names.lookup(&name) {
                Some(entry) => {
                    let resolved_type = entry.entry_type.clone();
                    Ok(
                        BoundNode::Name(
                            BoundName { location: name_node.get_location(), name, resolved_type },
                        ),
                    )
                },
                None => Err(
                    CompileError {
                        location: name_node.get_location(),
                        kind: CompileErrorKind::UndefinedName { name },
                    },
                ),
            }
        },
        Ast::Integer(integer) => {
            let value = match &integer.integer_token.kind {
                TokenKind::Integer(value) => *value,
                _ => unreached(),
            };
            if value > i64::MAX as u128 {
                Err(
                    CompileError {
                        location: integer.get_location(),
                        kind: CompileErrorKind::IntegerTooLarge { value },
                    },
                )
            } else {
                Ok(BoundNode::Integer(BoundInteger { location: integer.get_location(), value }))
            }
        },
        Ast::Call(call) => {
            let operand = match bind(&call.operand, names) {
                Ok(operand) => operand,
                Err(e) => {
                    return Err(e);
                },
            };
            let operand_type = operand.get_type();
            let proc_type = match operand_type {
                Type::Proc(proc_type) => proc_type,
                other => {
                    return Err(
                        CompileError {
                            location: call.close_parenthesis_token.location.clone(),
                            kind: CompileErrorKind::NotCallable {
                                actual: other,
                                operand_location: operand.get_location(),
                            },
                        },
                    );
                },
            };
            proof {
                crate::types::lemma_view_types_index(proc_type.parameter_types@);
            }
            if proc_type.parameter_types.len() != call.arguments.len() {
                return Err(
                    CompileError {
                        location: call.close_parenthesis_token.location.clone(),
                        kind: CompileErrorKind::ArityMismatch {
                            expected: proc_type.parameter_types.len(),
                            actual: call.arguments.len(),
                        },
                    },
                );
            }
            let close_location = call.close_parenthesis_token.location.clone();
            let bound_arguments = bind_arguments(
                &call.arguments,
                &proc_type.parameter_types,
                &close_location,
                names,
            );
            let arguments = match bound_arguments {
                Ok(arguments) => arguments,
                Err(e) => {
                    return Err(e);
                },
            };
            Ok(
                BoundNode::Call(
                    BoundCall {
                        location: call.get_location(),
                        operand: Box::new(operand),
                        arguments,
                        proc_type: Type::Proc(proc_type),
                    },
                ),
            )
        },
    }
}

/// Binds a syntax tree against the given scope snapshot, producing the bound
/// tree or the first compile error.  The snapshot is left as the tree's
/// definitions leave it; a file, block, name reference or integer literal
/// never changes the caller's snapshot, not even on failure.  After a failure
/// of any other form the snapshot's content is deliberately unspecified:
/// binding is fail-fast, so an aborted bind's snapshot is never consumed.
pub fn bind_ast(ast: &Ast, names: &mut ScopeSnapshot) -> (r: Result<BoundNode, CompileError>)
    requires
        ast_wf(*ast),
    ensures
        match spec_bind(*ast, old(names)@) {
            Ok((node, scope)) => r matches Ok(b) && b@ == node && final(names)@ == scope,
            Err(e) => r matches Err(err) && err@ == e,
        },
        (ast is File || ast is Block || ast is Name || ast is Integer) ==> final(names)@ == old(
            names,
        )@,
{
    bind(ast, names)
}


/// `longer` is `shorter` with only local definitions appended — how a scope
/// can grow while a sequence of siblings is bound.
pub open spec fn scope_extends(
    longer: Seq<ScopeEntryModel>,
    shorter: Seq<ScopeEntryModel>,
) -> bool {
    &&& shorter.len() <= longer.len()
    &&& (forall|i: int| 0 <= i < shorter.len() ==> longer[i] == shorter[i])
    &&& (forall|i: int| shorter.len() <= i < longer.len() ==> longer[i].local)
}

/// Binding only adds to the scope: on success, the scope left behind is the
/// input scope with zero or more local definitions appended.
pub proof fn lemma_bind_extends_scope(ast: Ast, scope: Seq<ScopeEntryModel>)
    ensures
        spec_bind(ast, scope) matches Ok((node, scope2)) ==> scope_extends(scope2, scope),
    decreases ast, 1int,
{
    match ast {
        Ast::File(_) => {},
        Ast::Block(_) => {},
        Ast::Export(export) => {
            lemma_bind_extends_scope(*export.value, scope);
        },
        Ast::Let(lett) => {
            match lett.value {
                Some(value) => {
                    lemma_bind_extends_scope(*value, scope);
                },
                None => {},
            }
        },
        Ast::Unary(unary) => {
            lemma_bind_extends_scope(*unary.operand, scope);
        },
        Ast::Binary(binary) => {
            lemma_bind_extends_scope(*binary.left, scope);
            if let Ok((_, scope1)) = spec_bind(*binary.left, scope) {
                lemma_bind_extends_scope(*binary.right, scope1);
            }
        },
        Ast::Name(_) => {},
        Ast::Integer(_) => {},
        Ast::Call(call) => {
            lemma_bind_extends_scope(*call.operand, scope);
            if let Ok((operand, scope1)) = spec_bind(*call.operand, scope) {
                if let TypeModel::Proc { params, ret } = model_type(operand) {
                    lemma_bind_arguments_extends_scope(
                        call.arguments@,
                        params,
                        0,
                        call.close_parenthesis_token.location,
                        scope1,
                    );
                }
            }
        },
    }
}

/// Binding a sequence of call arguments only adds local definitions to the
/// scope.
pub proof fn lemma_bind_arguments_extends_scope(
    arguments: Seq<Ast>,
    params: Seq<TypeModel>,
    index: usize,
    call_location: SourceLocation,
    scope: Seq<ScopeEntryModel>,
)
    ensures
        spec_bind_arguments(arguments, params, index, call_location, scope) matches Ok(
            (nodes, scope2),
        ) ==> scope_extends(scope2, scope),
    decreases arguments, 0int,
{
    if arguments.len() > 0 {
        lemma_bind_extends_scope(arguments[0], scope);
        if let Ok((node, scope1)) = spec_bind(arguments[0], scope) {
            lemma_bind_arguments_extends_scope(
                arguments.subrange(1, arguments.len() as int),
                params.subrange(1, params.len() as int),
                (index + 1) as usize,
                call_location,
                scope1,
            );
        }
    }
}

/// A name defined in the current scope stays defined in the current scope
/// however the scope grows.
pub proof fn lemma_local_definition_persists(
    longer: Seq<ScopeEntryModel>,
    shorter: Seq<ScopeEntryModel>,
    name: Seq<char>,
)
    requires
        scope_extends(longer, shorter),
        scope_lookup_local(shorter, name) is Some,
    ensures
        scope_lookup_local(longer, name) is Some,
    decreases longer.len(),
{
    if longer.len() == shorter.len() {
        assert(longer =~= shorter);
    } else {
        let last = longer[longer.len() - 1];
        if last.local && last.name == name {
        } else {
            let pre = longer.subrange(0, longer.len() - 1);
            lemma_local_definition_persists(pre, shorter, name);
        }
    }
}

/// Redefining a name in the current scope always fails, no matter how many
/// definitions and expressions stand between the two definitions: a `let`
/// whose name is already defined in the current scope never binds, and as
/// soon as its value (if it has one) binds at all, the error is the
/// duplicate-definition error pointing at the first definition.
pub proof fn lemma_duplicate_let_fails(lett: crate::ast::AstLet, scope: Seq<ScopeEntryModel>)
    requires
        lett.name_token.kind is Name,
        scope_lookup_local(scope, token_name(lett.name_token.kind)) is Some,
    ensures
        spec_bind(Ast::Let(lett), scope) is Err,
        (match lett.value {
            Some(value) => spec_bind(*value, scope) is Ok,
            None => true,
        }) ==> (spec_bind(Ast::Let(lett), scope) matches Err(e) && e.kind
            is DuplicateDefinition),
{
    let name = token_name(lett.name_token.kind);
    match lett.value {
        Some(value) => {
            match spec_bind(*value, scope) {
                Ok((node, scope1)) => {
                    lemma_bind_extends_scope(*value, scope);
                    lemma_local_definition_persists(scope1, scope, name);
                },
                Err(_) => {},
            }
        },
        None => {},
    }
}

/// The export form of [`lemma_duplicate_let_fails`].
pub proof fn lemma_duplicate_export_fails(
    export: crate::ast::AstExport,
    scope: Seq<ScopeEntryModel>,
)
    requires
        export.name_token.kind is Name,
        scope_lookup_local(scope, token_name(export.name_token.kind)) is Some,
    ensures
        spec_bind(Ast::Export(export), scope) is Err,
        spec_bind(*export.value, scope) is Ok ==> (spec_bind(Ast::Export(export), scope)
            matches Err(e) && e.kind is DuplicateDefinition),
{
    let name = token_name(export.name_token.kind);
    match spec_bind(*export.value, scope) {
        Ok((node, scope1)) => {
            lemma_bind_extends_scope(*export.value, scope);
            lemma_local_definition_persists(scope1, scope, name);
        },
        Err(_) => {},
    }
}

/// An integer literal binds exactly when its value fits the 64-bit signed
/// ceiling: within the ceiling it binds to an integer node of type `Integer`
/// carrying the literal's value and leaves the scope unchanged; above the
/// ceiling it fails with the integer-too-large error.
pub proof fn lemma_integer_literal_binding(
    integer: crate::ast::AstInteger,
    scope: Seq<ScopeEntryModel>,
)
    ensures
        ({
            let value = token_integer(integer.integer_token.kind);
            let location = integer.integer_token.location;
            if value <= i64::MAX as u128 {
                spec_bind(Ast::Integer(integer), scope) == Ok::<
                    (BoundNodeModel, Seq<ScopeEntryModel>),
                    CompileErrorModel,
                >((BoundNodeModel::Integer { location, value }, scope)) && model_type(
                    BoundNodeModel::Integer { location, value },
                ) == TypeModel::Integer
            } else {
                spec_bind(Ast::Integer(integer), scope) == Err::<
                    (BoundNodeModel, Seq<ScopeEntryModel>),
                    CompileErrorModel,
                >(
                    CompileErrorModel {
                        location,
                        kind: CompileErrorKindModel::IntegerTooLarge { value },
                    },
                )
            }
        }),
{
}


/// A scope whose entries are all inherited has no local definitions to
/// collide with.
pub proof fn lemma_no_locals_means_no_local_lookup(scope: Seq<ScopeEntryModel>, name: Seq<char>)
    requires
        forall|i: int| 0 <= i < scope.len() ==> !scope[i].local,
    ensures
        scope_lookup_local(scope, name) is None,
    decreases scope.len(),
{
    if scope.len() > 0 {
        lemma_no_locals_means_no_local_lookup(scope.subrange(0, scope.len() - 1), name);
    }
}

/// Entering a scope clears every local flag, so nothing counts as defined in
/// the fresh scope — the reason shadowing across nested scopes is legal.
pub proof fn lemma_entered_scope_has_no_locals(scope: Seq<ScopeEntryModel>, name: Seq<char>)
    ensures
        scope_lookup_local(entered(scope), name) is None,
{
    lemma_no_locals_means_no_local_lookup(entered(scope), name);
}

/// Shadowing across nested scope is legal: in a freshly entered scope, a
/// `let` of any name binds — whatever that name meant outside — as long as
/// its value (here: none, or an integer literal within the ceiling) binds.
/// Afterwards the name resolves to the new, local definition.
pub proof fn lemma_shadowing_is_legal(lett: crate::ast::AstLet, scope: Seq<ScopeEntryModel>)
    requires
        lett.name_token.kind is Name,
        match lett.value {
            Some(value) => *value matches Ast::Integer(integer)
                && token_integer(integer.integer_token.kind) <= i64::MAX as u128,
            None => true,
        },
    ensures
        spec_bind(Ast::Let(lett), entered(scope)) matches Ok((node, scope2))
            && scope_lookup(scope2, token_name(lett.name_token.kind)) matches Some(entry)
            && entry.local,
{
    let name = token_name(lett.name_token.kind);
    let start = entered(scope);
    lemma_entered_scope_has_no_locals(scope, name);
    let value_outcome: Result<
        (Option<Box<BoundNodeModel>>, Seq<ScopeEntryModel>),
        CompileErrorModel,
    > = match lett.value {
        Some(value) => match spec_bind(*value, start) {
            Ok((v, scope1)) => Ok((Some(Box::new(v)), scope1)),
            Err(e) => Err(e),
        },
        None => Ok((None, start)),
    };
    if let Some(value) = lett.value {
        if let Ast::Integer(integer) = *value {
            assert(spec_bind(*value, start) matches Ok((v, scope1)) && scope1 == start);
        }
    }
    if let Ok((bound_value, scope1)) = value_outcome {
        assert(scope1 == start);
        let node = BoundNodeModel::Let {
            location: lett.name_token.location,
            name,
            value: bound_value,
        };
        let entry = ScopeEntryModel {
            name,
            entry_type: model_type(node),
            location: lett.name_token.location,
            local: true,
        };
        assert(spec_bind(Ast::Let(lett), start) == Ok::<
            (BoundNodeModel, Seq<ScopeEntryModel>),
            CompileErrorModel,
        >((node, scope1.push(entry))));
        lemma_shadowing_resolution(scope1, entry, name);
    }
}

/// A block (and the file itself) leaves the enclosing scope exactly as it
/// was: its definitions are invisible to the parent and to later siblings.
pub proof fn lemma_block_leaves_scope_unchanged(ast: Ast, scope: Seq<ScopeEntryModel>)
    requires
        ast is Block || ast is File,
    ensures
        spec_bind(ast, scope) matches Ok((node, scope2)) ==> scope2 == scope,
{
}

/// Name resolution after a definition: the defining entry wins for its own
/// name, and every other name still resolves as before.
pub proof fn lemma_shadowing_resolution(
    scope: Seq<ScopeEntryModel>,
    entry: ScopeEntryModel,
    name: Seq<char>,
)
    ensures
        scope_lookup(scope.push(entry), entry.name) == Some(entry),
        name != entry.name ==> scope_lookup(scope.push(entry), name) == scope_lookup(
            scope,
            name,
        ),
{
    let pushed = scope.push(entry);
    assert(pushed[pushed.len() - 1] == entry);
    assert(pushed.subrange(0, pushed.len() - 1) =~= scope);
}

/// The export mapping entry a bound node contributes: its name and type for
/// an export, nothing for anything else.
pub open spec fn export_entry(node: BoundNodeModel) -> Option<(Seq<char>, TypeModel)> {
    match node {
        BoundNodeModel::Export { name, .. } => Some((name, model_type(node))),
        _ => None,
    }
}

/// A block's export mapping holds exactly the pairs its export children
/// contribute: nothing else gets in, and no export is left out.
pub proof fn lemma_exports_of_characterization(nodes: Seq<BoundNodeModel>)
    ensures
        forall|pair: (Seq<char>, TypeModel)|
            #[trigger] exports_of(nodes).contains(pair) <==> (exists|i: int|
                0 <= i < nodes.len() && #[trigger] export_entry(nodes[i]) == Some(pair)),
    decreases nodes.len(),
{
    if nodes.len() == 0 {
        assert forall|pair: (Seq<char>, TypeModel)| !(#[trigger] exports_of(
            nodes,
        ).contains(pair)) by {
            assert(exports_of(nodes).len() == 0);
        }
    } else {
        let pre = nodes.subrange(0, nodes.len() - 1);
        let last = nodes[nodes.len() - 1];
        lemma_exports_of_characterization(pre);
        assert forall|pair: (Seq<char>, TypeModel)|
            #[trigger] exports_of(nodes).contains(pair) <==> (exists|i: int|
                0 <= i < nodes.len() && #[trigger] export_entry(nodes[i]) == Some(pair)) by {
            let tail = match last {
                BoundNodeModel::Export { name, .. } => seq![(name, model_type(last))],
                _ => Seq::<(Seq<char>, TypeModel)>::empty(),
            };
            assert(exports_of(nodes) == exports_of(pre) + tail);
            if exports_of(nodes).contains(pair) {
                let j = choose|j: int|
                    0 <= j < exports_of(nodes).len() && exports_of(nodes)[j] == pair;
                if j < exports_of(pre).len() {
                    assert(exports_of(pre)[j] == pair);
                    assert(exports_of(pre).contains(pair));
                    let i = choose|i: int|
                        0 <= i < pre.len() && #[trigger] export_entry(pre[i]) == Some(pair);
                    assert(pre[i] == nodes[i]);
                    assert(export_entry(nodes[i]) == Some(pair));
                } else {
                    assert(tail[j - exports_of(pre).len()] == pair);
                    assert(export_entry(last) == Some(pair));
                    assert(export_entry(nodes[nodes.len() - 1]) == Some(pair));
                }
            }
            if exists|i: int| 0 <= i < nodes.len() && #[trigger] export_entry(nodes[i])
                == Some(pair) {
                let i = choose|i: int|
                    0 <= i < nodes.len() && #[trigger] export_entry(nodes[i]) == Some(pair);
                if i < pre.len() {
                    assert(export_entry(pre[i]) == Some(pair));
                    assert(exports_of(pre).contains(pair));
                    let j = choose|j: int|
                        0 <= j < exports_of(pre).len() && exports_of(pre)[j] == pair;
                    assert(exports_of(nodes)[j] == pair);
                    assert(exports_of(nodes).contains(pair));
                } else {
                    assert(nodes[i] == last);
                    assert(tail[0] == pair);
                    assert(exports_of(nodes)[exports_of(pre).len() as int] == pair);
                    assert(exports_of(nodes).contains(pair));
                }
            }
        }
    }
}

/// A bound block's type is the block type of exactly its export children's
/// names and types; non-export children contribute nothing.
pub proof fn lemma_block_type_lists_exports(block: crate::ast::AstBlock, scope: Seq<
    ScopeEntryModel,
>)
    ensures
        spec_bind(Ast::Block(block), scope) matches Ok((node, _)) ==> node matches
            BoundNodeModel::Block { expressions, block_type, .. } && block_type == (
        TypeModel::Block { exports: exports_of(expressions) }) && model_type(node) == block_type,
{
}

/// Calling with the wrong number of arguments fails with the arity-mismatch
/// error carrying the expected and actual counts, before any argument is
/// checked.
pub proof fn lemma_call_arity_mismatch(call: crate::ast::AstCall, scope: Seq<ScopeEntryModel>)
    requires
        spec_bind(*call.operand, scope) matches Ok((operand, scope1))
            && model_type(operand) matches TypeModel::Proc { params, .. }
            && params.len() != call.arguments@.len(),
    ensures
        spec_bind(Ast::Call(call), scope) matches Err(e) && e.location
            == call.close_parenthesis_token.location && e.kind == (
        CompileErrorKindModel::ArityMismatch {
            expected: (match model_type(
                spec_bind(*call.operand, scope)->Ok_0.0,
            ) {
                TypeModel::Proc { params, .. } => params.len() as usize,
                _ => 0,
            }),
            actual: call.arguments@.len() as usize,
        }),
{
}

/// A call whose first argument binds to the wrong type fails with the
/// argument-type-mismatch error for position zero; later arguments are never
/// reached.
pub proof fn lemma_call_first_argument_mismatch(
    call: crate::ast::AstCall,
    scope: Seq<ScopeEntryModel>,
)
    requires
        spec_bind(*call.operand, scope) matches Ok((operand, scope1))
            && model_type(operand) matches TypeModel::Proc { params, .. }
            && (params.len() == call.arguments@.len() && call.arguments@.len() > 0
            && (spec_bind(call.arguments@[0], scope1) matches Ok((argument, _))
            && model_type(argument) != params[0])),
    ensures
        spec_bind(Ast::Call(call), scope) matches Err(e) && e.location
            == call.close_parenthesis_token.location && e.kind matches
            CompileErrorKindModel::ArgumentTypeMismatch { index: 0usize, .. },
{
    if let Ok((operand, scope1)) = spec_bind(*call.operand, scope) {
        if let TypeModel::Proc { params, ret } = model_type(operand) {
            assert(spec_bind_arguments(
                call.arguments@,
                params,
                0,
                call.close_parenthesis_token.location,
                scope1,
            ) matches Err(e) && e.kind matches CompileErrorKindModel::ArgumentTypeMismatch {
                index: 0usize,
                ..
            });
        }
    }
}


/// Whether a bound node is an `export` or `let` defining the given name.
pub open spec fn is_definition_of(node: BoundNodeModel, name: Seq<char>) -> bool {
    match node {
        BoundNodeModel::Export { name: defined, .. } => defined == name,
        BoundNodeModel::Let { name: defined, .. } => defined == name,
        _ => false,
    }
}

/// Name uniqueness per scope, however many expressions separate the
/// definitions: when a sequence of siblings binds successfully, no name is
/// defined twice among them, and none of them redefines a name already
/// defined in the current scope.
pub proof fn lemma_sibling_definitions_are_unique(
    children: Seq<Ast>,
    scope: Seq<ScopeEntryModel>,
)
    requires
        ast_seq_wf(children),
    ensures
        spec_bind_children(children, scope) matches Ok((nodes, scope2)) ==> ((forall|
            j: int,
            name: Seq<char>,
        |
            0 <= j < nodes.len() && #[trigger] is_definition_of(nodes[j], name)
                ==> scope_lookup_local(scope, name) is None) && (forall|
            i: int,
            j: int,
            name: Seq<char>,
        |
            0 <= i < j < nodes.len() && #[trigger] is_definition_of(nodes[i], name)
                ==> !(#[trigger] is_definition_of(nodes[j], name)))),
    decreases children,
{
    crate::ast::lemma_ast_seq_wf_index(children);
    if children.len() == 0 {
    } else if let Ok((nodes, scope2)) = spec_bind_children(children, scope) {
        let rest = children.subrange(1, children.len() as int);
        crate::ast::lemma_ast_seq_wf_index(rest);
        let head_outcome = spec_bind(children[0], scope);
        let (head, scope1) = head_outcome->Ok_0;
        let rest_outcome = spec_bind_children(rest, scope1);
        let (tail, _) = rest_outcome->Ok_0;
        assert(nodes == seq![head] + tail);
        assert(nodes[0] == head);
        assert(forall|j: int| 1 <= j < nodes.len() ==> nodes[j] == tail[j - 1]);
        // The scope after the first sibling extends the starting scope.
        lemma_bind_extends_scope(children[0], scope);
        // No definition may collide with a name already local when it binds.
        assert forall|name: Seq<char>|
            #[trigger] is_definition_of(head, name) implies scope_lookup_local(scope, name)
            is None by {
            if scope_lookup_local(scope, name) is Some {
                match children[0] {
                    Ast::Let(lett) => {
                        lemma_duplicate_let_fails(lett, scope);
                    },
                    Ast::Export(export) => {
                        lemma_duplicate_export_fails(export, scope);
                    },
                    _ => {},
                }
            }
        }
        // After a definition binds, its name is local.
        assert forall|name: Seq<char>|
            #[trigger] is_definition_of(head, name) implies scope_lookup_local(scope1, name)
            is Some by {
            let pushed = scope1[scope1.len() - 1];
            assert(pushed.local && pushed.name == name);
        }
        lemma_sibling_definitions_are_unique(rest, scope1);
        // Later siblings' definitions collide neither with the head's name
        // nor with anything already local at the start.
        assert forall|j: int, name: Seq<char>|
            0 <= j < nodes.len() && #[trigger] is_definition_of(nodes[j], name)
                implies scope_lookup_local(scope, name) is None by {
            if j >= 1 {
                assert(is_definition_of(tail[j - 1], name));
                assert(scope_lookup_local(scope1, name) is None);
                if scope_lookup_local(scope, name) is Some {
                    lemma_local_definition_persists(scope1, scope, name);
                }
            }
        }
        assert forall|i: int, j: int, name: Seq<char>|
            0 <= i < j < nodes.len() && #[trigger] is_definition_of(nodes[i], name)
                implies !(#[trigger] is_definition_of(nodes[j], name)) by {
            if i == 0 {
                assert(scope_lookup_local(scope1, name) is Some);
                if is_definition_of(nodes[j], name) {
                    assert(is_definition_of(tail[j - 1], name));
                    assert(scope_lookup_local(scope1, name) is None);
                }
            } else {
                assert(is_definition_of(tail[i - 1], name));
                if is_definition_of(nodes[j], name) {
                    assert(is_definition_of(tail[j - 1], name));
                }
            }
        }
    }
}


/// How many leading call arguments bind successfully with exactly the
/// matching parameter type, threading the scope through them.
pub open spec fn matching_argument_prefix(
    arguments: Seq<Ast>,
    params: Seq<TypeModel>,
    scope: Seq<ScopeEntryModel>,
) -> int
    decreases arguments,
{
    if arguments.len() == 0 {
        0
    } else {
        match spec_bind(arguments[0], scope) {
            Ok((node, scope1)) => {
                if model_type(node) == params[0] {
                    1 + matching_argument_prefix(
                        arguments.subrange(1, arguments.len() as int),
                        params.subrange(1, params.len() as int),
                        scope1,
                    )
                } else {
                    0
                }
            },
            Err(_) => 0,
        }
    }
}

/// The scope in which the first problematic argument (if any) is bound: the
/// scope left behind by the matching prefix.
pub open spec fn scope_after_matching_prefix(
    arguments: Seq<Ast>,
    params: Seq<TypeModel>,
    scope: Seq<ScopeEntryModel>,
) -> Seq<ScopeEntryModel>
    decreases arguments,
{
    if arguments.len() == 0 {
        scope
    } else {
        match spec_bind(arguments[0], scope) {
            Ok((node, scope1)) => {
                if model_type(node) == params[0] {
                    scope_after_matching_prefix(
                        arguments.subrange(1, arguments.len() as int),
                        params.subrange(1, params.len() as int),
                        scope1,
                    )
                } else {
                    scope
                }
            },
            Err(_) => scope,
        }
    }
}

/// The first problematic argument decides, and later arguments stay
/// unchecked: when binding a call's arguments fails, the failure comes from
/// the argument just past the matching prefix — its own error when it does
/// not bind, and otherwise the argument-type-mismatch error carrying exactly
/// that argument's position, the expected parameter type and the actual type.
/// When every argument binds and matches, the whole list does.
pub proof fn lemma_first_argument_problem_decides(
    arguments: Seq<Ast>,
    params: Seq<TypeModel>,
    index: usize,
    call_location: SourceLocation,
    scope: Seq<ScopeEntryModel>,
)
    requires
        arguments.len() == params.len(),
        index + arguments.len() <= usize::MAX,
    ensures
        match spec_bind_arguments(arguments, params, index, call_location, scope) {
            Ok(_) => matching_argument_prefix(arguments, params, scope) == arguments.len(),
            Err(e) => ({
                let p = matching_argument_prefix(arguments, params, scope);
                let prefix_scope = scope_after_matching_prefix(arguments, params, scope);
                &&& 0 <= p < arguments.len()
                &&& match spec_bind(arguments[p], prefix_scope) {
                    Ok((node, _)) => model_type(node) != params[p] && e == (CompileErrorModel {
                        location: call_location,
                        kind: CompileErrorKindModel::ArgumentTypeMismatch {
                            index: (index + p) as usize,
                            expected: params[p],
                            actual: model_type(node),
                        },
                    }),
                    Err(inner) => e == inner,
                }
            }),
        },
    decreases arguments,
{
    if arguments.len() > 0 {
        match spec_bind(arguments[0], scope) {
            Ok((node, scope1)) => {
                if model_type(node) == params[0] {
                    let rest = arguments.subrange(1, arguments.len() as int);
                    let rest_params = params.subrange(1, params.len() as int);
                    lemma_first_argument_problem_decides(
                        rest,
                        rest_params,
                        (index + 1) as usize,
                        call_location,
                        scope1,
                    );
                    let p = matching_argument_prefix(arguments, params, scope);
                    if spec_bind_arguments(arguments, params, index, call_location, scope)
                        is Err {
                        assert(arguments[p] == rest[p - 1]);
                        assert(params[p] == rest_params[p - 1]);
                    }
                }
            },
            Err(_) => {},
        }
    }
}

} // verus!
