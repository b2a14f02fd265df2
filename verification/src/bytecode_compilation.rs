//! Bytecode lowering: a single forward, syntax-directed pass over the bound
//! tree that appends instructions and never revisits or rewrites what it has
//! emitted.
//!
//! [`emit`] is the mathematical statement of the pass: the exact instruction
//! sequence each bound node lowers to.  [`compile_bytecode`] appends exactly
//! `emit` of its node to the output vector.
//!
//! Every statement leaves exactly one result on the stack, which the
//! enclosing block pops — an `export` or `let` duplicates its value (or a
//! fresh void) so that one copy survives the store.  A deliberate exception:
//! a block lowers to its children alone and assembles no record of its
//! exports at runtime; the block type stays binder-only metadata, and the
//! environment carries the values.

use vstd::prelude::*;

use crate::bound_nodes::{BinaryOperatorKind, BoundNode, BoundNodeModel, UnaryOperatorKind};
use crate::bytecode::{
    Bytecode, BytecodeModel, BytecodeValue, BytecodeValueModel, lemma_view_bytecodes_index,
    view_bytecodes,
};

verus! {

/// The instruction sequence one bound node lowers to.
pub open spec fn emit(node: BoundNodeModel) -> Seq<BytecodeModel>
    decreases node, 1int,
{
    match node {
        BoundNodeModel::Block { expressions, .. } => emit_block_children(expressions),
        BoundNodeModel::Export { name, value, .. } => emit(*value) + seq![
            BytecodeModel::Dup,
            BytecodeModel::Store(name),
        ],
        BoundNodeModel::Let { name, value, .. } => (match value {
            Some(value) => emit(*value) + seq![BytecodeModel::Dup],
            None => seq![BytecodeModel::Push(BytecodeValueModel::Void), BytecodeModel::Dup],
        }) + seq![BytecodeModel::Store(name)],
        BoundNodeModel::Unary { operator, operand, .. } => emit(*operand) + (match operator.kind {
            UnaryOperatorKind::Identity => Seq::empty(),
            UnaryOperatorKind::Negation => seq![BytecodeModel::NegateInteger],
        }),
        BoundNodeModel::Binary { left, operator, right, .. } => emit(*left) + emit(*right) + seq![
            match operator.kind {
                BinaryOperatorKind::Addition => BytecodeModel::AddInteger,
                BinaryOperatorKind::Subtraction => BytecodeModel::SubInteger,
                BinaryOperatorKind::Multiplication => BytecodeModel::MulInteger,
                BinaryOperatorKind::Division => BytecodeModel::DivInteger,
            },
        ],
        BoundNodeModel::Name { name, .. } => seq![BytecodeModel::Load(name)],
        BoundNodeModel::Integer { value, .. } => seq![
            BytecodeModel::Push(BytecodeValueModel::Integer(value as i64)),
        ],
        BoundNodeModel::Call { operand, arguments, .. } => emit(*operand) + emit_arguments(
            arguments,
        ) + seq![BytecodeModel::Call { argument_count: arguments.len() as usize }],
        BoundNodeModel::PrintInteger { .. } => seq![
            BytecodeModel::Push(
                BytecodeValueModel::Procedure(
                    seq![BytecodeModel::PrintInteger, BytecodeModel::Return],
                ),
            ),
        ],
    }
}

/// A block lowers each child in order and discards the child's result.
pub open spec fn emit_block_children(children: Seq<BoundNodeModel>) -> Seq<BytecodeModel>
    decreases children, 0int,
{
    if children.len() == 0 {
        Seq::empty()
    } else {
        emit(children[0]) + seq![BytecodeModel::Pop] + emit_block_children(
            children.subrange(1, children.len() as int),
        )
    }
}

/// A call lowers its arguments left to right, keeping every result.
pub open spec fn emit_arguments(arguments: Seq<BoundNodeModel>) -> Seq<BytecodeModel>
    decreases arguments, 0int,
{
    if arguments.len() == 0 {
        Seq::empty()
    } else {
        emit(arguments[0]) + emit_arguments(arguments.subrange(1, arguments.len() as int))
    }
}

/// Appends one instruction to the output.
fn push_instruction(bytecode: &mut Vec<Bytecode>, instruction: Bytecode)
    ensures
        view_bytecodes(final(bytecode)@) == view_bytecodes(old(bytecode)@).push(instruction@),
{
    let ghost pre = bytecode@;
    bytecode.push(instruction);
    proof {
        assert(bytecode@.subrange(0, bytecode@.len() - 1) =~= pre);
    }
}

/// Lowers one bound node, appending its instruction sequence to `bytecode`.
/// Exactly [`emit`] of the node is appended; nothing already emitted changes.
pub fn compile_bytecode(node: &BoundNode, bytecode: &mut Vec<Bytecode>)
    ensures
        view_bytecodes(final(bytecode)@) == view_bytecodes(old(bytecode)@) + emit(node@),
    decreases node, 1int,
{
    match node {
        BoundNode::Block(block) => {
            compile_block_children(&block.expressions, bytecode);
        },
        BoundNode::Export(export) => {
            compile_bytecode(&export.value, bytecode);
            let ghost mid = view_bytecodes(bytecode@);
            push_instruction(bytecode, Bytecode::Dup);
            push_instruction(bytecode, Bytecode::Store(export.name.clone()));
            proof {
                assert(view_bytecodes(bytecode@) =~= view_bytecodes(old(bytecode)@) + emit(
                    node@,
                ));
            }
        },
        BoundNode::Let(lett) => {
            match &lett.value {
                Some(value) => {
                    compile_bytecode(value, bytecode);
                    push_instruction(bytecode, Bytecode::Dup);
                },
                None => {
                    push_instruction(bytecode, Bytecode::Push(BytecodeValue::Void));
                    push_instruction(bytecode, Bytecode::Dup);
                },
            }
            push_instruction(bytecode, Bytecode::Store(lett.name.clone()));
            proof {
                assert(view_bytecodes(bytecode@) =~= view_bytecodes(old(bytecode)@) + emit(
                    node@,
                ));
            }
        },
        BoundNode::Unary(unary) => {
            compile_bytecode(&unary.operand, bytecode);
            match unary.operator.kind {
                UnaryOperatorKind::Identity => {
                    proof {
                        assert(view_bytecodes(bytecode@) =~= view_bytecodes(old(bytecode)@)
                            + emit(node@));
                    }
                },
                UnaryOperatorKind::Negation => {
                    push_instruction(bytecode, Bytecode::NegateInteger);
                    proof {
                        assert(view_bytecodes(bytecode@) =~= view_bytecodes(old(bytecode)@)
                            + emit(node@));
                    }
                },
            }
        },
        BoundNode::Binary(binary) => {
            compile_bytecode(&binary.left, bytecode);
            compile_bytecode(&binary.right, bytecode);
            let instruction = match binary.operator.kind {
                BinaryOperatorKind::Addition => Bytecode::AddInteger,
                BinaryOperatorKind::Subtraction => Bytecode::SubInteger,
                BinaryOperatorKind::Multiplication => Bytecode::MulInteger,
                BinaryOperatorKind::Division => Bytecode::DivInteger,
            };
            push_instruction(bytecode, instruction);
            proof {
                assert(view_bytecodes(bytecode@) =~= view_bytecodes(old(bytecode)@) + emit(
                    node@,
                ));
            }
        },
        BoundNode::Name(name) => {
            push_instruction(bytecode, Bytecode::Load(name.name.clone()));
            proof {
                assert(view_bytecodes(bytecode@) =~= view_bytecodes(old(bytecode)@) + emit(
                    node@,
                ));
            }
        },
        BoundNode::Integer(integer) => {
            #[verifier::truncate]
            let value = integer.value as i64;
            push_instruction(bytecode, Bytecode::Push(BytecodeValue::Integer(value)));
            proof {
                assert(view_bytecodes(bytecode@) =~= view_bytecodes(old(bytecode)@) + emit(
                    node@,
                ));
            }
        },
        BoundNode::Call(call) => {
            compile_bytecode(&call.operand, bytecode);
            compile_arguments(&call.arguments, bytecode);
            push_instruction(
                bytecode,
                Bytecode::Call { argument_count: call.arguments.len() },
            );
            proof {
                crate::bound_nodes::lemma_view_bound_nodes_index(call.arguments@);
                assert(view_bytecodes(bytecode@) =~= view_bytecodes(old(bytecode)@) + emit(
                    node@,
                ));
            }
        },
        BoundNode::PrintInteger(_) => {
            let mut body: Vec<Bytecode> = Vec::new();
            push_instruction(&mut body, Bytecode::PrintInteger);
            push_instruction(&mut body, Bytecode::Return);
            proof {
                assert(view_bytecodes(body@) =~= seq![
                    BytecodeModel::PrintInteger,
                    BytecodeModel::Return,
                ]);
            }
            push_instruction(bytecode, Bytecode::Push(BytecodeValue::Procedure(body)));
            proof {
                assert(view_bytecodes(bytecode@) =~= view_bytecodes(old(bytecode)@) + emit(
                    node@,
                ));
            }
        },
    }
}

/// Lowers block children in order, appending a `Pop` after each.
#[verifier::loop_isolation(false)]
fn compile_block_children(children: &Vec<BoundNode>, bytecode: &mut Vec<Bytecode>)
    ensures
        view_bytecodes(final(bytecode)@) == view_bytecodes(old(bytecode)@) + emit_block_children(
            crate::bound_nodes::view_bound_nodes(children@),
        ),
    decreases children, 0int,
{
    proof {
        crate::bound_nodes::lemma_view_bound_nodes_index(children@);
    }
    let ghost children_m = crate::bound_nodes::view_bound_nodes(children@);
    let n = children.len();
    proof {
        assert(children_m.subrange(0, n as int) =~= children_m);
        assert(view_bytecodes(bytecode@) + emit_block_children(children_m.subrange(0, n as int))
            =~= view_bytecodes(old(bytecode)@) + emit_block_children(children_m));
    }
    for i in 0..n
        invariant
            view_bytecodes(old(bytecode)@) + emit_block_children(children_m) == view_bytecodes(
                bytecode@,
            ) + emit_block_children(children_m.subrange(i as int, n as int)),
        decreases n - i,
    {
        let ghost rem = children_m.subrange(i as int, n as int);
        let ghost pre = view_bytecodes(bytecode@);
        proof {
            assert(rem[0] == children_m[i as int]);
            assert(rem.subrange(1, rem.len() as int) =~= children_m.subrange(
                i as int + 1,
                n as int,
            ));
        }
        compile_bytecode(&children[i], bytecode);
        push_instruction(bytecode, Bytecode::Pop);
        proof {
            assert(view_bytecodes(bytecode@) =~= pre + (emit(children_m[i as int]) + seq![
                BytecodeModel::Pop,
            ]));
            assert(pre + (emit(children_m[i as int]) + seq![BytecodeModel::Pop])
                + emit_block_children(children_m.subrange(i as int + 1, n as int)) =~= pre + (emit(
                children_m[i as int],
            ) + seq![BytecodeModel::Pop] + emit_block_children(
                children_m.subrange(i as int + 1, n as int),
            )));
        }
    }
    proof {
        assert(children_m.subrange(n as int, n as int) =~= Seq::<BoundNodeModel>::empty());
        assert(view_bytecodes(bytecode@) + Seq::<BytecodeModel>::empty() =~= view_bytecodes(
            bytecode@,
        ));
    }
}

/// Lowers call arguments left to right, keeping every result on the stack.
#[verifier::loop_isolation(false)]
fn compile_arguments(arguments: &Vec<BoundNode>, bytecode: &mut Vec<Bytecode>)
    ensures
        view_bytecodes(final(bytecode)@) == view_bytecodes(old(bytecode)@) + emit_arguments(
            crate::bound_nodes::view_bound_nodes(arguments@),
        ),
    decreases arguments, 0int,
{
    proof {
        crate::bound_nodes::lemma_view_bound_nodes_index(arguments@);
    }
    let ghost arguments_m = crate::bound_nodes::view_bound_nodes(arguments@);
    let n = arguments.len();
    proof {
        assert(arguments_m.subrange(0, n as int) =~= arguments_m);
        assert(view_bytecodes(bytecode@) + emit_arguments(arguments_m.subrange(0, n as int))
            =~= view_bytecodes(old(bytecode)@) + emit_arguments(arguments_m));
    }
    for i in 0..n
        invariant
            view_bytecodes(old(bytecode)@) + emit_arguments(arguments_m) == view_bytecodes(
                bytecode@,
            ) + emit_arguments(arguments_m.subrange(i as int, n as int)),
        decreases n - i,
    {
        let ghost rem = arguments_m.subrange(i as int, n as int);
        let ghost pre = view_bytecodes(bytecode@);
        proof {
            assert(rem[0] == arguments_m[i as int]);
            assert(rem.subrange(1, rem.len() as int) =~= arguments_m.subrange(
                i as int + 1,
                n as int,
            ));
        }
        compile_bytecode(&arguments[i], bytecode);
        proof {
            assert(pre + emit(arguments_m[i as int]) + emit_arguments(
                arguments_m.subrange(i as int + 1, n as int),
            ) =~= pre + (emit(arguments_m[i as int]) + emit_arguments(
                arguments_m.subrange(i as int + 1, n as int),
            )));
        }
    }
    proof {
        assert(arguments_m.subrange(n as int, n as int) =~= Seq::<BoundNodeModel>::empty());
        assert(view_bytecodes(bytecode@) + Seq::<BytecodeModel>::empty() =~= view_bytecodes(
            bytecode@,
        ));
    }
}

} // verus!
