//! The bound (semantic) tree the binder produces.
//!
//! Bound nodes are immutable once constructed; a tree is built bottom-up in
//! one pass.  Each construct owns its children.  A name reference records the
//! name and the type of the expression it resolved to — resolution happens
//! entirely at bind time, so no back-pointers are needed afterwards.
//!
//! The mathematical model of a bound tree is [`BoundNodeModel`], reached
//! through the `view` (`@`) of [`BoundNode`]; [`model_type`] is the model of
//! the `type-of` query that every bound node supports.

use vstd::prelude::*;

use crate::common::SourceLocation;
use crate::types::{ProcType, Type, TypeModel, type_model};

verus! {

/// Common shape of bound nodes: each knows its location and its type.
pub trait BoundNodeTrait {
    /// The location the node reports, as a mathematical value.
    spec fn spec_location(&self) -> SourceLocation;

    /// The type the node reports, as a mathematical value.
    spec fn spec_type(&self) -> TypeModel;

    /// The source location used when diagnosing this node.
    fn get_location(&self) -> (r: SourceLocation)
        ensures
            r == self.spec_location(),
    ;

    /// The static type of the expression this node represents.
    fn get_type(&self) -> (r: Type)
        ensures
            r@ == self.spec_type(),
    ;
}

#[derive(Debug)]
pub enum BoundNode {
    Block(BoundBlock),
    Export(BoundExport),
    Let(BoundLet),
    Unary(BoundUnary),
    Binary(BoundBinary),
    Name(BoundName),
    Integer(BoundInteger),
    Call(BoundCall),
    PrintInteger(BoundPrintInteger),
}

/// A bound file or block: its expressions in source order and the block type
/// collecting its exports.
#[derive(Debug)]
pub struct BoundBlock {
    pub location: SourceLocation,
    pub expressions: Vec<BoundNode>,
    pub block_type: Type,
}

#[derive(Debug)]
pub struct BoundExport {
    pub location: SourceLocation,
    pub name: String,
    pub value: Box<BoundNode>,
}

#[derive(Debug)]
pub struct BoundLet {
    pub location: SourceLocation,
    pub name: String,
    pub value: Option<Box<BoundNode>>,
}

#[derive(Debug, Clone, Copy, PartialEq, Eq, Structural)]
pub enum UnaryOperatorKind {
    Identity,
    Negation,
}

/// A unary operator table entry: the operation together with the operand type
/// it applies to and the type of its result.
#[derive(Debug)]
pub struct UnaryOperator {
    pub kind: UnaryOperatorKind,
    pub operand: Type,
    pub result: Type,
}

#[derive(Debug)]
pub struct BoundUnary {
    pub location: SourceLocation,
    pub operator: UnaryOperator,
    pub operand: Box<BoundNode>,
}

#[derive(Debug, Clone, Copy, PartialEq, Eq, Structural)]
pub enum BinaryOperatorKind {
    Addition,
    Subtraction,
    Multiplication,
    Division,
}

/// A binary operator table entry: the operation together with the operand
/// types it applies to and the type of its result.
#[derive(Debug)]
pub struct BinaryOperator {
    pub kind: BinaryOperatorKind,
    pub left: Type,
    pub right: Type,
    pub result: Type,
}

#[derive(Debug)]
pub struct BoundBinary {
    pub location: SourceLocation,
    pub left: Box<BoundNode>,
    pub operator: BinaryOperator,
    pub right: Box<BoundNode>,
}

/// A resolved name reference.  The reference is non-owning: it keeps no part
/// of the referent alive, only the referent's name and static type, copied at
/// bind time.
#[derive(Debug)]
pub struct BoundName {
    pub location: SourceLocation,
    pub name: String,
    pub resolved_type: Type,
}

#[derive(Debug)]
pub struct BoundInteger {
    pub location: SourceLocation,
    pub value: u128,
}

#[derive(Debug)]
pub struct BoundCall {
    pub location: SourceLocation,
    pub operand: Box<BoundNode>,
    pub arguments: Vec<BoundNode>,
    pub proc_type: Type,
}

/// The built-in procedure that prints one integer.
#[derive(Debug)]
pub struct BoundPrintInteger {
    pub location: SourceLocation,
}

/// Mathematical model of a unary operator table entry.
#[verifier::ext_equal]
pub struct UnaryOperatorModel {
    pub kind: UnaryOperatorKind,
    pub operand: TypeModel,
    pub result: TypeModel,
}

impl View for UnaryOperator {
    type V = UnaryOperatorModel;

    open spec fn view(&self) -> UnaryOperatorModel {
        UnaryOperatorModel { kind: self.kind, operand: self.operand@, result: self.result@ }
    }
}

/// Mathematical model of a binary operator table entry.
#[verifier::ext_equal]
pub struct BinaryOperatorModel {
    pub kind: BinaryOperatorKind,
    pub left: TypeModel,
    pub right: TypeModel,
    pub result: TypeModel,
}

impl View for BinaryOperator {
    type V = BinaryOperatorModel;

    open spec fn view(&self) -> BinaryOperatorModel {
        BinaryOperatorModel {
            kind: self.kind,
            left: self.left@,
            right: self.right@,
            result: self.result@,
        }
    }
}

/// Mathematical model of a bound tree.
#[verifier::ext_equal]
pub enum BoundNodeModel {
    Block {
        location: SourceLocation,
        expressions: Seq<BoundNodeModel>,
        block_type: TypeModel,
    },
    Export { location: SourceLocation, name: Seq<char>, value: Box<BoundNodeModel> },
    Let { location: SourceLocation, name: Seq<char>, value: Option<Box<BoundNodeModel>> },
    Unary {
        location: SourceLocation,
        operator: UnaryOperatorModel,
        operand: Box<BoundNodeModel>,
    },
    Binary {
        location: SourceLocation,
        left: Box<BoundNodeModel>,
        operator: BinaryOperatorModel,
        right: Box<BoundNodeModel>,
    },
    Name { location: SourceLocation, name: Seq<char>, resolved_type: TypeModel },
    Integer { location: SourceLocation, value: u128 },
    Call {
        location: SourceLocation,
        operand: Box<BoundNodeModel>,
        arguments: Seq<BoundNodeModel>,
        proc_type: TypeModel,
    },
    PrintInteger { location: SourceLocation },
}

/// Model of a sequence of bound nodes, elementwise.
pub open spec fn view_bound_nodes(s: Seq<BoundNode>) -> Seq<BoundNodeModel>
    decreases s,
{
    if s.len() == 0 {
        Seq::empty()
    } else {
        view_bound_nodes(s.subrange(0, s.len() - 1)).push(bound_node_model(s[s.len() - 1]))
    }
}

/// Model of one bound node.
pub open spec fn bound_node_model(n: BoundNode) -> BoundNodeModel
    decreases n,
{
    match n {
        BoundNode::Block(block) => BoundNodeModel::Block {
            location: block.location,
            expressions: view_bound_nodes(block.expressions@),
            block_type: block.block_type@,
        },
        BoundNode::Export(export) => BoundNodeModel::Export {
            location: export.location,
            name: export.name@,
            value: Box::new(bound_node_model(*export.value)),
        },
        BoundNode::Let(lett) => BoundNodeModel::Let {
            location: lett.location,
            name: lett.name@,
            value: match lett.value {
                Some(value) => Some(Box::new(bound_node_model(*value))),
                None => None,
            },
        },
        BoundNode::Unary(unary) => BoundNodeModel::Unary {
            location: unary.location,
            operator: unary.operator@,
            operand: Box::new(bound_node_model(*unary.operand)),
        },
        BoundNode::Binary(binary) => BoundNodeModel::Binary {
            location: binary.location,
            left: Box::new(bound_node_model(*binary.left)),
            operator: binary.operator@,
            right: Box::new(bound_node_model(*binary.right)),
        },
        BoundNode::Name(name) => BoundNodeModel::Name {
            location: name.location,
            name: name.name@,
            resolved_type: name.resolved_type@,
        },
        BoundNode::Integer(integer) => BoundNodeModel::Integer {
            location: integer.location,
            value: integer.value,
        },
        BoundNode::Call(call) => BoundNodeModel::Call {
            location: call.location,
            operand: Box::new(bound_node_model(*call.operand)),
            arguments: view_bound_nodes(call.arguments@),
            proc_type: call.proc_type@,
        },
        BoundNode::PrintInteger(print_integer) => BoundNodeModel::PrintInteger {
            location: print_integer.location,
        },
    }
}

impl View for BoundNode {
    type V = BoundNodeModel;

    open spec fn view(&self) -> BoundNodeModel {
        bound_node_model(*self)
    }
}

pub broadcast proof fn lemma_view_bound_nodes_index(s: Seq<BoundNode>)
    ensures
        (#[trigger] view_bound_nodes(s)).len() == s.len(),
        forall|i: int| 0 <= i < s.len() ==> view_bound_nodes(s)[i] == s[i]@,
    decreases s,
{
    if s.len() > 0 {
        lemma_view_bound_nodes_index(s.subrange(0, s.len() - 1));
    }
}

/// The location a bound node reports.
pub open spec fn model_location(m: BoundNodeModel) -> SourceLocation {
    match m {
        BoundNodeModel::Block { location, .. } => location,
        BoundNodeModel::Export { location, .. } => location,
        BoundNodeModel::Let { location, .. } => location,
        BoundNodeModel::Unary { location, .. } => location,
        BoundNodeModel::Binary { location, .. } => location,
        BoundNodeModel::Name { location, .. } => location,
        BoundNodeModel::Integer { location, .. } => location,
        BoundNodeModel::Call { location, .. } => location,
        BoundNodeModel::PrintInteger { location } => location,
    }
}

/// The type of the built-in integer-printing procedure: one `Integer`
/// parameter, `Void` result.
pub open spec fn print_integer_type() -> TypeModel {
    TypeModel::Proc { params: seq![TypeModel::Integer], ret: Box::new(TypeModel::Void) }
}

/// The `type-of` query on a bound tree.
pub open spec fn model_type(m: BoundNodeModel) -> TypeModel
    decreases m,
{
    match m {
        BoundNodeModel::Block { block_type, .. } => block_type,
        BoundNodeModel::Export { value, .. } => model_type(*value),
        BoundNodeModel::Let { value, .. } => match value {
            Some(value) => model_type(*value),
            None => TypeModel::Void,
        },
        BoundNodeModel::Unary { operator, .. } => operator.result,
        BoundNodeModel::Binary { operator, .. } => operator.result,
        BoundNodeModel::Name { resolved_type, .. } => resolved_type,
        BoundNodeModel::Integer { .. } => TypeModel::Integer,
        BoundNodeModel::Call { proc_type, .. } => proc_type,
        BoundNodeModel::PrintInteger { .. } => print_integer_type(),
    }
}

/// The executable counterpart of [`print_integer_type`].
pub fn print_integer_proc_type() -> (r: Type)
    ensures
        r@ == print_integer_type(),
{
    let mut parameter_types: Vec<Type> = Vec::new();
    parameter_types.push(Type::Integer);
    let r = Type::Proc(ProcType { parameter_types, return_type: Box::new(Type::Void) });
    proof {
        reveal_with_fuel(crate::types::view_types, 2);
        reveal_with_fuel(crate::types::type_model, 2);
        let ps = r->Proc_0.parameter_types@;
        assert(ps =~= seq![Type::Integer]);
        assert(ps.subrange(0, 0) =~= Seq::<Type>::empty());
        assert(crate::types::view_types(ps) =~= seq![TypeModel::Integer]);
        assert(r@ =~= print_integer_type());
    }
    r
}

/// Recursive worker behind [`BoundNodeTrait::get_type`].
fn node_type(n: &BoundNode) -> (r: Type)
    ensures
        r@ == model_type(n@),
    decreases n,
{
    match n {
        BoundNode::Block(block) => block.block_type.clone(),
        BoundNode::Export(export) => node_type(&export.value),
        BoundNode::Let(lett) => match &lett.value {
            Some(value) => node_type(value),
            None => Type::Void,
        },
        BoundNode::Unary(unary) => unary.operator.result.clone(),
        BoundNode::Binary(binary) => binary.operator.result.clone(),
        BoundNode::Name(name) => name.resolved_type.clone(),
        BoundNode::Integer(_) => Type::Integer,
        BoundNode::Call(call) => call.proc_type.clone(),
        BoundNode::PrintInteger(_) => print_integer_proc_type(),
    }
}

impl BoundNode {
    pub fn unwrap_block(&self) -> (r: &BoundBlock)
        requires
            self is Block,
        ensures
            *self == BoundNode::Block(*r),
    {
        if let BoundNode::Block(block) = self {
            block
        } else {
            unreached()
        }
    }

    pub fn unwrap_export(&self) -> (r: &BoundExport)
        requires
            self is Export,
        ensures
            *self == BoundNode::Export(*r),
    {
        if let BoundNode::Export(export) = self {
            export
        } else {
            unreached()
        }
    }

    pub fn unwrap_let(&self) -> (r: &BoundLet)
        requires
            self is Let,
        ensures
            *self == BoundNode::Let(*r),
    {
        if let BoundNode::Let(lett) = self {
            lett
        } else {
            unreached()
        }
    }

    pub fn unwrap_unary(&self) -> (r: &BoundUnary)
        requires
            self is Unary,
        ensures
            *self == BoundNode::Unary(*r),
    {
        if let BoundNode::Unary(unary) = self {
            unary
        } else {
            unreached()
        }
    }

    pub fn unwrap_binary(&self) -> (r: &BoundBinary)
        requires
            self is Binary,
        ensures
            *self == BoundNode::Binary(*r),
    {
        if let BoundNode::Binary(binary) = self {
            binary
        } else {
            unreached()
        }
    }

    pub fn unwrap_name(&self) -> (r: &BoundName)
        requires
            self is Name,
        ensures
            *self == BoundNode::Name(*r),
    {
        if let BoundNode::Name(name) = self {
            name
        } else {
            unreached()
        }
    }

    pub fn unwrap_integer(&self) -> (r: &BoundInteger)
        requires
            self is Integer,
        ensures
            *self == BoundNode::Integer(*r),
    {
        if let BoundNode::Integer(integer) = self {
            integer
        } else {
            unreached()
        }
    }

    pub fn unwrap_call(&self) -> (r: &BoundCall)
        requires
            self is Call,
        ensures
            *self == BoundNode::Call(*r),
    {
        if let BoundNode::Call(call) = self {
            call
        } else {
            unreached()
        }
    }

    pub fn unwrap_print_integer(&self) -> (r: &BoundPrintInteger)
        requires
            self is PrintInteger,
        ensures
            *self == BoundNode::PrintInteger(*r),
    {
        if let BoundNode::PrintInteger(print_integer) = self {
            print_integer
        } else {
            unreached()
        }
    }
}

impl BoundNodeTrait for BoundNode {
    open spec fn spec_location(&self) -> SourceLocation {
        model_location(self@)
    }

    open spec fn spec_type(&self) -> TypeModel {
        model_type(self@)
    }

    fn get_location(&self) -> (r: SourceLocation) {
        match self {
            BoundNode::Block(block) => block.get_location(),
            BoundNode::Export(export) => export.get_location(),
            BoundNode::Let(lett) => lett.get_location(),
            BoundNode::Unary(unary) => unary.get_location(),
            BoundNode::Binary(binary) => binary.get_location(),
            BoundNode::Name(name) => name.get_location(),
            BoundNode::Integer(integer) => integer.get_location(),
            BoundNode::Call(call) => call.get_location(),
            BoundNode::PrintInteger(print_integer) => print_integer.get_location(),
        }
    }

    fn get_type(&self) -> (r: Type) {
        node_type(self)
    }
}

impl BoundNodeTrait for BoundBlock {
    open spec fn spec_location(&self) -> SourceLocation {
        self.location
    }

    open spec fn spec_type(&self) -> TypeModel {
        self.block_type@
    }

    fn get_location(&self) -> (r: SourceLocation) {
        self.location.clone()
    }

    fn get_type(&self) -> (r: Type) {
        self.block_type.clone()
    }
}

impl BoundNodeTrait for BoundExport {
    open spec fn spec_location(&self) -> SourceLocation {
        self.location
    }

    open spec fn spec_type(&self) -> TypeModel {
        model_type(bound_node_model(*self.value))
    }

    fn get_location(&self) -> (r: SourceLocation) {
        self.location.clone()
    }

    fn get_type(&self) -> (r: Type) {
        node_type(&self.value)
    }
}

impl BoundNodeTrait for BoundLet {
    open spec fn spec_location(&self) -> SourceLocation {
        self.location
    }

    open spec fn spec_type(&self) -> TypeModel {
        match self.value {
            Some(value) => model_type(bound_node_model(*value)),
            None => TypeModel::Void,
        }
    }

    fn get_location(&self) -> (r: SourceLocation) {
        self.location.clone()
    }

    fn get_type(&self) -> (r: Type) {
        match &self.value {
            Some(value) => node_type(value),
            None => Type::Void,
        }
    }
}

impl BoundNodeTrait for BoundUnary {
    open spec fn spec_location(&self) -> SourceLocation {
        self.location
    }

    open spec fn spec_type(&self) -> TypeModel {
        self.operator.result@
    }

    fn get_location(&self) -> (r: SourceLocation) {
        self.location.clone()
    }

    fn get_type(&self) -> (r: Type) {
        self.operator.result.clone()
    }
}

impl BoundNodeTrait for BoundBinary {
    open spec fn spec_location(&self) -> SourceLocation {
        self.location
    }

    open spec fn spec_type(&self) -> TypeModel {
        self.operator.result@
    }

    fn get_location(&self) -> (r: SourceLocation) {
        self.location.clone()
    }

    fn get_type(&self) -> (r: Type) {
        self.operator.result.clone()
    }
}

impl BoundNodeTrait for BoundName {
    open spec fn spec_location(&self) -> SourceLocation {
        self.location
    }

    open spec fn spec_type(&self) -> TypeModel {
        self.resolved_type@
    }

    fn get_location(&self) -> (r: SourceLocation) {
        self.location.clone()
    }

    fn get_type(&self) -> (r: Type) {
        self.resolved_type.clone()
    }
}

impl BoundNodeTrait for BoundInteger {
    open spec fn spec_location(&self) -> SourceLocation {
        self.location
    }

    open spec fn spec_type(&self) -> TypeModel {
        TypeModel::Integer
    }

    fn get_location(&self) -> (r: SourceLocation) {
        self.location.clone()
    }

    fn get_type(&self) -> (r: Type) {
        Type::Integer
    }
}

impl BoundNodeTrait for BoundCall {
    open spec fn spec_location(&self) -> SourceLocation {
        self.location
    }

    open spec fn spec_type(&self) -> TypeModel {
        self.proc_type@
    }

    fn get_location(&self) -> (r: SourceLocation) {
        self.location.clone()
    }

    fn get_type(&self) -> (r: Type) {
        self.proc_type.clone()
    }
}

impl BoundNodeTrait for BoundPrintInteger {
    open spec fn spec_location(&self) -> SourceLocation {
        self.location
    }

    open spec fn spec_type(&self) -> TypeModel {
        print_integer_type()
    }

    fn get_location(&self) -> (r: SourceLocation) {
        self.location.clone()
    }

    fn get_type(&self) -> (r: Type) {
        print_integer_proc_type()
    }
}

} // verus!
