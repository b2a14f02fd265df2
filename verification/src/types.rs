//! Structural types of the language.
//!
//! A type is one of: `Void`, the (reserved) type of types, `Integer`, a block
//! type recording the exported names of a block together with their types, or
//! a procedure type with ordered parameter types and one return type.
//!
//! Types compare structurally, deeply through nested block and procedure
//! types.  The mathematical model of a type is [`TypeModel`], reached through
//! the `view` (`@`) of [`Type`].
//!
//! A block type's export mapping is modelled as the sequence of
//! `(name, type)` pairs in declaration order, and equality reads it that
//! way: declaration order is part of the type, so two block types listing
//! the same exports in different orders are distinct.  This is a deliberate
//! strengthening of a keyed, order-free mapping; the binder never produces
//! two orders for one set of exports, and no operator or procedure parameter
//! in the language demands a block type, so the two readings cannot be told
//! apart by any program.

use vstd::prelude::*;

verus! {

/// Mathematical model of a [`Type`].
#[verifier::ext_equal]
pub enum TypeModel {
    Void,
    TypeOfTypes,
    Integer,
    Block { exports: Seq<(Seq<char>, TypeModel)> },
    Proc { params: Seq<TypeModel>, ret: Box<TypeModel> },
}

#[derive(Debug)]
pub enum Type {
    Void,
    Type,
    Integer,
    Block(BlockType),
    Proc(ProcType),
}

/// The type of a block expression: the block's exported names, each with the
/// type of the exported expression, in declaration order.
#[derive(Debug)]
pub struct BlockType {
    pub exported_types: Vec<(String, Type)>,
}

/// The type of a procedure: its parameter types in order and its return type.
#[derive(Debug)]
pub struct ProcType {
    pub parameter_types: Vec<Type>,
    pub return_type: Box<Type>,
}

/// Model of a sequence of types, elementwise.
pub open spec fn view_types(s: Seq<Type>) -> Seq<TypeModel>
    decreases s,
{
    if s.len() == 0 {
        Seq::empty()
    } else {
        view_types(s.subrange(0, s.len() - 1)).push(type_model(s[s.len() - 1]))
    }
}

/// Model of a sequence of `(name, type)` pairs, elementwise.
pub open spec fn view_export_pairs(s: Seq<(String, Type)>) -> Seq<(Seq<char>, TypeModel)>
    decreases s,
{
    if s.len() == 0 {
        Seq::empty()
    } else {
        view_export_pairs(s.subrange(0, s.len() - 1)).push(
            (s[s.len() - 1].0@, type_model(s[s.len() - 1].1)),
        )
    }
}

/// Model of one type.
pub open spec fn type_model(t: Type) -> TypeModel
    decreases t,
{
    match t {
        Type::Void => TypeModel::Void,
        Type::Type => TypeModel::TypeOfTypes,
        Type::Integer => TypeModel::Integer,
        Type::Block(b) => TypeModel::Block { exports: view_export_pairs(b.exported_types@) },
        Type::Proc(p) => TypeModel::Proc {
            params: view_types(p.parameter_types@),
            ret: Box::new(type_model(*p.return_type)),
        },
    }
}

impl View for Type {
    type V = TypeModel;

    open spec fn view(&self) -> TypeModel {
        type_model(*self)
    }
}

pub broadcast proof fn lemma_view_types_index(s: Seq<Type>)
    ensures
        (#[trigger] view_types(s)).len() == s.len(),
        forall|i: int| 0 <= i < s.len() ==> view_types(s)[i] == s[i]@,
    decreases s,
{
    if s.len() > 0 {
        lemma_view_types_index(s.subrange(0, s.len() - 1));
    }
}

pub broadcast proof fn lemma_view_export_pairs_index(s: Seq<(String, Type)>)
    ensures
        (#[trigger] view_export_pairs(s)).len() == s.len(),
        forall|i: int|
            0 <= i < s.len() ==> view_export_pairs(s)[i] == (s[i].0@, s[i].1@),
    decreases s,
{
    if s.len() > 0 {
        lemma_view_export_pairs_index(s.subrange(0, s.len() - 1));
    }
}

/// Structural equality of two types: deep, including the nested export
/// mappings of block types (compared in declaration order — see the module
/// note) and the parameter and return types of procedure types.
#[verifier::loop_isolation(false)]
pub fn type_eq(a: &Type, b: &Type) -> (r: bool)
    ensures
        r == (a@ == b@),
    decreases a,
{
    match (a, b) {
        (Type::Void, Type::Void) => true,
        (Type::Type, Type::Type) => true,
        (Type::Integer, Type::Integer) => true,
        (Type::Block(x), Type::Block(y)) => {
            proof {
                lemma_view_export_pairs_index(x.exported_types@);
                lemma_view_export_pairs_index(y.exported_types@);
            }
            let n = x.exported_types.len();
            if n != y.exported_types.len() {
                return false;
            }
            for i in 0..n
                invariant
                    forall|j: int|
                        0 <= j < i ==> x.exported_types@[j].0@ == y.exported_types@[j].0@
                            && x.exported_types@[j].1@ == y.exported_types@[j].1@,
                decreases n - i,
            {
                let xp = &x.exported_types[i];
                let yp = &y.exported_types[i];
                if !(xp.0 == yp.0) {
                    assert(view_export_pairs(x.exported_types@)[i as int]
                        != view_export_pairs(y.exported_types@)[i as int]);
                    return false;
                }
                if !type_eq(&xp.1, &yp.1) {
                    assert(view_export_pairs(x.exported_types@)[i as int]
                        != view_export_pairs(y.exported_types@)[i as int]);
                    return false;
                }
            }
            proof {
                assert(view_export_pairs(x.exported_types@) =~= view_export_pairs(
                    y.exported_types@,
                ));
            }
            true
        },
        (Type::Proc(x), Type::Proc(y)) => {
            proof {
                lemma_view_types_index(x.parameter_types@);
                lemma_view_types_index(y.parameter_types@);
            }
            let n = x.parameter_types.len();
            if n != y.parameter_types.len() {
                return false;
            }
            for i in 0..n
                invariant
                    forall|j: int|
                        0 <= j < i ==> x.parameter_types@[j]@ == y.parameter_types@[j]@,
                decreases n - i,
            {
                if !type_eq(&x.parameter_types[i], &y.parameter_types[i]) {
                    assert(view_types(x.parameter_types@)[i as int]
                        != view_types(y.parameter_types@)[i as int]);
                    return false;
                }
            }
            if !type_eq(&x.return_type, &y.return_type) {
                return false;
            }
            proof {
                assert(view_types(x.parameter_types@) =~= view_types(y.parameter_types@));
            }
            true
        },
        _ => {
            assert(a@ != b@);
            false
        },
    }
}

impl Clone for Type {
    /// Deep copy; the copy has the same model as the original.
    #[verifier::loop_isolation(false)]
    fn clone(&self) -> (r: Type)
        ensures
            r@ == self@,
        decreases self,
    {
        match self {
            Type::Void => Type::Void,
            Type::Type => Type::Type,
            Type::Integer => Type::Integer,
            Type::Block(b) => {
                let n = b.exported_types.len();
                let mut exports: Vec<(String, Type)> = Vec::new();
                for i in 0..n
                    invariant
                        exports@.len() == i,
                        forall|j: int|
                            0 <= j < i ==> exports@[j].0 == b.exported_types@[j].0
                                && exports@[j].1@ == b.exported_types@[j].1@,
                    decreases n - i,
                {
                    let p = &b.exported_types[i];
                    exports.push((p.0.clone(), p.1.clone()));
                }
                proof {
                    lemma_view_export_pairs_index(exports@);
                    lemma_view_export_pairs_index(b.exported_types@);
                    assert(view_export_pairs(exports@) =~= view_export_pairs(b.exported_types@));
                }
                Type::Block(BlockType { exported_types: exports })
            },
            Type::Proc(p) => {
                let n = p.parameter_types.len();
                let mut params: Vec<Type> = Vec::new();
                for i in 0..n
                    invariant
                        params@.len() == i,
                        forall|j: int| 0 <= j < i ==> params@[j]@ == p.parameter_types@[j]@,
                    decreases n - i,
                {
                    params.push(p.parameter_types[i].clone());
                }
                proof {
                    lemma_view_types_index(params@);
                    lemma_view_types_index(p.parameter_types@);
                    assert(view_types(params@) =~= view_types(p.parameter_types@));
                }
                Type::Proc(ProcType {
                    parameter_types: params,
                    return_type: Box::new((&*p.return_type).clone()),
                })
            },
        }
    }
}

} // verus!
