//! The whole back end as one pipeline: bind, lower, execute.
//!
//! Each stage runs to completion before the next starts.  The scope every
//! program starts from holds one built-in, the `print_integer` procedure;
//! the lowered program stores that procedure under its name, runs the file's
//! code, and ends with an `Exit` instruction.
//!
//! There is deliberately no one-shot source-to-outcome function: each stage
//! carries an exact contract, and a single wrapper could not relate its
//! result to the source text without a mathematical model of parsing, which
//! the front end does not have.  Callers run the stages in order, as the
//! command-line driver does.

use vstd::prelude::*;

use crate::ast::{Ast, AstFile, ast_seq_wf};
use crate::binding::{
    ScopeEntryModel, ScopeSnapshot, bind_ast, spec_bind,
};
use crate::bound_nodes::{
    BoundNode, BoundNodeModel, BoundPrintInteger, print_integer_proc_type, print_integer_type,
};
use crate::bytecode::{Bytecode, BytecodeModel, BytecodeValueModel, view_bytecodes};
use crate::bytecode_compilation::{compile_bytecode, emit};
use crate::common::{CompileError, SourceLocation};
use crate::execute::{RunOutcome, RunResult, RuntimeFault, execute_bytecode, run};

verus! {

/// The scope model every program is bound in: the one built-in procedure,
/// visible as an inherited name.
pub open spec fn builtin_scope_model(location: SourceLocation) -> Seq<ScopeEntryModel> {
    seq![
        ScopeEntryModel {
            name: "print_integer"@,
            entry_type: print_integer_type(),
            location,
            local: false,
        },
    ]
}

/// The source location reported for the built-in procedure.
fn builtin_location() -> (r: SourceLocation)
    ensures
        r.filepath@ == "builtin.lang"@,
        r.position == 0,
        r.line == 1,
        r.column == 1,
{
    SourceLocation {
        filepath: String::from_str("builtin.lang"),
        position: 0,
        line: 1,
        column: 1,
    }
}

/// The scope a program starts from: `print_integer` and nothing else.
pub fn builtin_scope() -> (r: ScopeSnapshot)
    ensures
        ({
            let entry = r@[0];
            r@.len() == 1 && entry.name == "print_integer"@ && entry.entry_type
                == print_integer_type() && !entry.local && r@ == builtin_scope_model(
                entry.location,
            )
        }),
{
    let mut scope = ScopeSnapshot::new();
    let location = builtin_location();
    scope.insert(
        String::from_str("print_integer"),
        print_integer_proc_type(),
        location,
        false,
    );
    proof {
        assert(scope@ =~= builtin_scope_model(scope@[0].location));
    }
    scope
}

/// Binds a parsed file against the built-in scope, producing the bound tree
/// or the program's first compile error — exactly what [`spec_bind`] says of
/// the file in the built-in scope.
pub fn bind_program(file: AstFile) -> (r: Result<BoundNode, CompileError>)
    requires
        ast_seq_wf(file.expressions@),
    ensures
        exists|location: SourceLocation|
            match #[trigger] spec_bind(Ast::File(file), builtin_scope_model(location)) {
                Ok((node, _)) => r matches Ok(b) && b@ == node,
                Err(e) => r matches Err(err) && err@ == e,
            },
{
    let mut names = builtin_scope();
    let ghost location = names@[0].location;
    let ast = Ast::File(file);
    let r = bind_ast(&ast, &mut names);
    proof {
        assert(match spec_bind(ast, builtin_scope_model(location)) {
            Ok((node, _)) => r matches Ok(b) && b@ == node,
            Err(e) => r matches Err(err) && err@ == e,
        });
    }
    r
}

/// The instruction sequence of a whole program: store the built-in procedure
/// under its name, run the program's code, exit.
pub open spec fn program_code(program: BoundNodeModel) -> Seq<BytecodeModel> {
    seq![
        BytecodeModel::Push(
            BytecodeValueModel::Procedure(
                seq![BytecodeModel::PrintInteger, BytecodeModel::Return],
            ),
        ),
        BytecodeModel::Store("print_integer"@),
    ] + emit(program) + seq![BytecodeModel::Exit]
}

/// Lowers a bound program into the instruction sequence [`program_code`]
/// describes.
pub fn lower_program(program: &BoundNode) -> (r: Vec<Bytecode>)
    ensures
        view_bytecodes(r@) == program_code(program@),
{
    let mut bytecode: Vec<Bytecode> = Vec::new();
    proof {
        assert(view_bytecodes(bytecode@) =~= Seq::<BytecodeModel>::empty());
    }
    let print_integer = BoundNode::PrintInteger(BoundPrintInteger { location: builtin_location() });
    compile_bytecode(&print_integer, &mut bytecode);
    proof {
        assert(view_bytecodes(bytecode@) =~= seq![
            BytecodeModel::Push(
                BytecodeValueModel::Procedure(
                    seq![BytecodeModel::PrintInteger, BytecodeModel::Return],
                ),
            ),
        ]);
    }
    {
        let ghost pre = bytecode@;
        let builtin_name = String::from_str("print_integer");
        proof {
            assert(builtin_name@ == "print_integer"@);
        }
        bytecode.push(Bytecode::Store(builtin_name));
        proof {
            assert(bytecode@.subrange(0, bytecode@.len() - 1) =~= pre);
            assert(bytecode@[bytecode@.len() - 1]@ == BytecodeModel::Store("print_integer"@));
            assert(view_bytecodes(bytecode@) == view_bytecodes(pre).push(
                BytecodeModel::Store("print_integer"@),
            ));
            assert(view_bytecodes(bytecode@) =~~= seq![
                BytecodeModel::Push(
                    BytecodeValueModel::Procedure(
                        seq![BytecodeModel::PrintInteger, BytecodeModel::Return],
                    ),
                ),
                BytecodeModel::Store("print_integer"@),
            ]);
        }
    }
    let ghost prefix = view_bytecodes(bytecode@);
    compile_bytecode(program, &mut bytecode);
    let ghost with_program = view_bytecodes(bytecode@);
    {
        let ghost pre = bytecode@;
        bytecode.push(Bytecode::Exit);
        proof {
            assert(bytecode@.subrange(0, bytecode@.len() - 1) =~= pre);
            assert(bytecode@[bytecode@.len() - 1]@ == BytecodeModel::Exit);
            assert(view_bytecodes(bytecode@) == with_program.push(BytecodeModel::Exit));
        }
    }
    proof {
        assert(with_program == prefix + emit(program@));
        assert((prefix + emit(program@)).push(BytecodeModel::Exit) =~= prefix + emit(program@)
            + seq![BytecodeModel::Exit]);
        assert(view_bytecodes(bytecode@) =~~= program_code(program@));
    }
    bytecode
}

/// Runs a lowered program from an empty stack with the given call-depth
/// budget, appending everything it prints to `output`.  The result and the
/// final output are exactly what [`run`] says.
pub fn run_program(bytecode: &Vec<Bytecode>, output: &mut Vec<i64>, fuel: u64) -> (r: Result<
    RunOutcome,
    RuntimeFault,
>)
    ensures
        ({
            let result = run(
                view_bytecodes(bytecode@),
                0,
                seq![BytecodeValueModel::Void],
                Seq::empty(),
                old(output)@,
                fuel as nat,
            );
            match r {
                Ok(RunOutcome::Exited) => result == (RunResult::Exited { output: final(output)@ }),
                Ok(RunOutcome::Returned(value)) => result == (RunResult::Returned {
                    value: value@,
                    output: final(output)@,
                }),
                Err(fault) => result == (RunResult::Faulted { fault, output: final(output)@ }),
            }
        }),
{
    let stack: Vec<crate::bytecode::BytecodeValue> = Vec::new();
    let r = execute_bytecode(bytecode, stack, output, fuel);
    proof {
        assert(seq![BytecodeValueModel::Void] + crate::bytecode::view_values(
            Seq::<crate::bytecode::BytecodeValue>::empty(),
        ) =~= seq![BytecodeValueModel::Void]);
    }
    r
}

} // verus!
