//! Stack-machine instructions and runtime values.
//!
//! An instruction sequence is produced once per lowering pass, appended only,
//! never rewritten.  There are no branch or jump instructions: control flow is
//! straight-line execution plus call and return.
//!
//! Runtime values are immutable once created.  The mathematical models are
//! [`BytecodeModel`] and [`BytecodeValueModel`], reached through the views of
//! [`Bytecode`] and [`BytecodeValue`].

use vstd::prelude::*;

verus! {

#[derive(Debug)]
pub enum Bytecode {
    /// Terminates the entire run immediately; the remaining stack is
    /// discarded.
    Exit,
    /// Pushes a fresh copy of the embedded constant.
    Push(BytecodeValue),
    /// Discards the top of the stack.
    Pop,
    /// Pushes the value at the top of the stack a second time.
    Dup,
    /// Pops the arguments and the callee, and runs the callee's instruction
    /// sequence in a brand-new, empty environment.
    Call { argument_count: usize },
    /// Pops one value and yields it as the invocation's result.
    Return,
    /// Pushes the value bound to a name in the current environment.
    Load(String),
    /// Pops one value and binds it to a name in the current environment.
    Store(String),
    AddInteger,
    SubInteger,
    MulInteger,
    DivInteger,
    NegateInteger,
    /// Pops one integer and emits it as program output.
    PrintInteger,
}

#[derive(Debug)]
pub enum BytecodeValue {
    Void,
    Integer(i64),
    Procedure(Vec<Bytecode>),
    Block(Vec<(String, BytecodeValue)>),
}

/// Mathematical model of an instruction.
#[verifier::ext_equal]
pub enum BytecodeModel {
    Exit,
    Push(BytecodeValueModel),
    Pop,
    Dup,
    Call { argument_count: usize },
    Return,
    Load(Seq<char>),
    Store(Seq<char>),
    AddInteger,
    SubInteger,
    MulInteger,
    DivInteger,
    NegateInteger,
    PrintInteger,
}

/// Mathematical model of a runtime value.
#[verifier::ext_equal]
pub enum BytecodeValueModel {
    Void,
    Integer(i64),
    Procedure(Seq<BytecodeModel>),
    Block(Seq<(Seq<char>, BytecodeValueModel)>),
}

/// Model of an instruction sequence, elementwise.
pub open spec fn view_bytecodes(s: Seq<Bytecode>) -> Seq<BytecodeModel>
    decreases s,
{
    if s.len() == 0 {
        Seq::empty()
    } else {
        view_bytecodes(s.subrange(0, s.len() - 1)).push(bytecode_model(s[s.len() - 1]))
    }
}

/// Model of a sequence of `(name, value)` pairs, elementwise.
pub open spec fn view_value_pairs(
    s: Seq<(String, BytecodeValue)>,
) -> Seq<(Seq<char>, BytecodeValueModel)>
    decreases s,
{
    if s.len() == 0 {
        Seq::empty()
    } else {
        view_value_pairs(s.subrange(0, s.len() - 1)).push(
            (s[s.len() - 1].0@, bytecode_value_model(s[s.len() - 1].1)),
        )
    }
}

/// Model of one instruction.
pub open spec fn bytecode_model(b: Bytecode) -> BytecodeModel
    decreases b,
{
    match b {
        Bytecode::Exit => BytecodeModel::Exit,
        Bytecode::Push(value) => BytecodeModel::Push(bytecode_value_model(value)),
        Bytecode::Pop => BytecodeModel::Pop,
        Bytecode::Dup => BytecodeModel::Dup,
        Bytecode::Call { argument_count } => BytecodeModel::Call { argument_count },
        Bytecode::Return => BytecodeModel::Return,
        Bytecode::Load(name) => BytecodeModel::Load(name@),
        Bytecode::Store(name) => BytecodeModel::Store(name@),
        Bytecode::AddInteger => BytecodeModel::AddInteger,
        Bytecode::SubInteger => BytecodeModel::SubInteger,
        Bytecode::MulInteger => BytecodeModel::MulInteger,
        Bytecode::DivInteger => BytecodeModel::DivInteger,
        Bytecode::NegateInteger => BytecodeModel::NegateInteger,
        Bytecode::PrintInteger => BytecodeModel::PrintInteger,
    }
}

/// Model of one runtime value.
pub open spec fn bytecode_value_model(v: BytecodeValue) -> BytecodeValueModel
    decreases v,
{
    match v {
        BytecodeValue::Void => BytecodeValueModel::Void,
        BytecodeValue::Integer(value) => BytecodeValueModel::Integer(value),
        BytecodeValue::Procedure(code) => BytecodeValueModel::Procedure(view_bytecodes(code@)),
        BytecodeValue::Block(entries) => BytecodeValueModel::Block(view_value_pairs(entries@)),
    }
}

impl View for Bytecode {
    type V = BytecodeModel;

    open spec fn view(&self) -> BytecodeModel {
        bytecode_model(*self)
    }
}

impl View for BytecodeValue {
    type V = BytecodeValueModel;

    open spec fn view(&self) -> BytecodeValueModel {
        bytecode_value_model(*self)
    }
}

pub broadcast proof fn lemma_view_bytecodes_index(s: Seq<Bytecode>)
    ensures
        (#[trigger] view_bytecodes(s)).len() == s.len(),
        forall|i: int| 0 <= i < s.len() ==> view_bytecodes(s)[i] == s[i]@,
    decreases s,
{
    if s.len() > 0 {
        lemma_view_bytecodes_index(s.subrange(0, s.len() - 1));
    }
}

pub broadcast proof fn lemma_view_value_pairs_index(s: Seq<(String, BytecodeValue)>)
    ensures
        (#[trigger] view_value_pairs(s)).len() == s.len(),
        forall|i: int|
            0 <= i < s.len() ==> view_value_pairs(s)[i] == (s[i].0@, bytecode_value_model(s[i].1)),
    decreases s,
{
    if s.len() > 0 {
        lemma_view_value_pairs_index(s.subrange(0, s.len() - 1));
    }
}

/// Model of a sequence of runtime values, elementwise.
pub open spec fn view_values(s: Seq<BytecodeValue>) -> Seq<BytecodeValueModel>
    decreases s,
{
    if s.len() == 0 {
        Seq::empty()
    } else {
        view_values(s.subrange(0, s.len() - 1)).push(bytecode_value_model(s[s.len() - 1]))
    }
}

pub broadcast proof fn lemma_view_values_index(s: Seq<BytecodeValue>)
    ensures
        (#[trigger] view_values(s)).len() == s.len(),
        forall|i: int| 0 <= i < s.len() ==> view_values(s)[i] == s[i]@,
    decreases s,
{
    if s.len() > 0 {
        lemma_view_values_index(s.subrange(0, s.len() - 1));
    }
}

/// Deep copy of an instruction sequence; the copy has the same model.
#[verifier::loop_isolation(false)]
fn clone_bytecode_vec(v: &Vec<Bytecode>) -> (r: Vec<Bytecode>)
    ensures
        view_bytecodes(r@) == view_bytecodes(v@),
    decreases v,
{
    proof {
        lemma_view_bytecodes_index(v@);
    }
    let mut out: Vec<Bytecode> = Vec::new();
    let n = v.len();
    for i in 0..n
        invariant
            out@.len() == i,
            forall|j: int| 0 <= j < i ==> out@[j]@ == v@[j]@,
        decreases n - i,
    {
        let c = clone_bytecode(&v[i]);
        out.push(c);
    }
    proof {
        lemma_view_bytecodes_index(out@);
        assert(view_bytecodes(out@) =~= view_bytecodes(v@));
    }
    out
}

/// Deep copy of one instruction; the copy has the same model.
fn clone_bytecode(b: &Bytecode) -> (r: Bytecode)
    ensures
        r@ == b@,
    decreases b,
{
    match b {
        Bytecode::Exit => Bytecode::Exit,
        Bytecode::Push(value) => Bytecode::Push(clone_bytecode_value(value)),
        Bytecode::Pop => Bytecode::Pop,
        Bytecode::Dup => Bytecode::Dup,
        Bytecode::Call { argument_count } => Bytecode::Call { argument_count: *argument_count },
        Bytecode::Return => Bytecode::Return,
        Bytecode::Load(name) => Bytecode::Load(name.clone()),
        Bytecode::Store(name) => Bytecode::Store(name.clone()),
        Bytecode::AddInteger => Bytecode::AddInteger,
        Bytecode::SubInteger => Bytecode::SubInteger,
        Bytecode::MulInteger => Bytecode::MulInteger,
        Bytecode::DivInteger => Bytecode::DivInteger,
        Bytecode::NegateInteger => Bytecode::NegateInteger,
        Bytecode::PrintInteger => Bytecode::PrintInteger,
    }
}

/// Deep copy of a runtime value; the copy has the same model.
#[verifier::loop_isolation(false)]
fn clone_bytecode_value(v: &BytecodeValue) -> (r: BytecodeValue)
    ensures
        r@ == v@,
    decreases v,
{
    match v {
        BytecodeValue::Void => BytecodeValue::Void,
        BytecodeValue::Integer(value) => BytecodeValue::Integer(*value),
        BytecodeValue::Procedure(code) => BytecodeValue::Procedure(clone_bytecode_vec(code)),
        BytecodeValue::Block(entries) => {
            proof {
                lemma_view_value_pairs_index(entries@);
            }
            let mut out: Vec<(String, BytecodeValue)> = Vec::new();
            let n = entries.len();
            for i in 0..n
                invariant
                    out@.len() == i,
                    forall|j: int|
                        0 <= j < i ==> out@[j].0@ == entries@[j].0@ && out@[j].1@
                            == entries@[j].1@,
                decreases n - i,
            {
                let p = &entries[i];
                let c = clone_bytecode_value(&p.1);
                out.push((p.0.clone(), c));
            }
            proof {
                lemma_view_value_pairs_index(out@);
                assert(view_value_pairs(out@) =~= view_value_pairs(entries@));
            }
            BytecodeValue::Block(out)
        },
    }
}

impl Clone for Bytecode {
    /// Deep copy; the copy has the same model as the original.
    fn clone(&self) -> (r: Bytecode)
        ensures
            r@ == self@,
    {
        clone_bytecode(self)
    }
}

impl Clone for BytecodeValue {
    /// Deep copy; the copy has the same model as the original.
    fn clone(&self) -> (r: BytecodeValue)
        ensures
            r@ == self@,
    {
        clone_bytecode_value(self)
    }
}

impl BytecodeValue {
    pub fn unwrap_integer(&self) -> (r: &i64)
        requires
            self is Integer,
        ensures
            self@ == BytecodeValueModel::Integer(*r),
    {
        if let BytecodeValue::Integer(integer) = self {
            integer
        } else {
            unreached()
        }
    }

    pub fn unwrap_procedure(&self) -> (r: &Vec<Bytecode>)
        requires
            self is Procedure,
        ensures
            self@ == BytecodeValueModel::Procedure(view_bytecodes(r@)),
    {
        if let BytecodeValue::Procedure(procedure) = self {
            procedure
        } else {
            unreached()
        }
    }

    pub fn unwrap_block(&self) -> (r: &Vec<(String, BytecodeValue)>)
        requires
            self is Block,
        ensures
            self@ == BytecodeValueModel::Block(view_value_pairs(r@)),
    {
        if let BytecodeValue::Block(block) = self {
            block
        } else {
            unreached()
        }
    }
}

} // verus!
