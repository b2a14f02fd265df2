//! The bytecode executor: a recursive stack machine.
//!
//! An invocation owns an operand stack of runtime values and a flat
//! name-to-value environment private to itself; a call runs the callee's
//! instruction sequence in a brand-new, empty environment seeded with the
//! arguments, so callees never see the caller's bindings.  Integer arithmetic
//! uses two's-complement 64-bit wrapping semantics; division by zero is a
//! fatal fault.  Printed integers are appended to an output vector — the only
//! externally observable effect of a run.
//!
//! [`run`] is the mathematical statement of the whole machine, one
//! instruction per unfolding.  [`execute_bytecode`] returns exactly what
//! [`run`] says, with the caller-chosen call-depth budget as fuel;
//! exhausting the budget is itself a fatal fault, the machine's one real
//! resource limit.

use vstd::prelude::*;

use crate::bytecode::{
    Bytecode, BytecodeModel, BytecodeValue, BytecodeValueModel, lemma_view_bytecodes_index,
    lemma_view_value_pairs_index, lemma_view_values_index, view_bytecodes, view_value_pairs,
    view_values,
};

verus! {

/// How a run ends when it does not fault.
#[derive(Debug)]
pub enum RunOutcome {
    /// An `Exit` instruction ended the entire run; the remaining stack was
    /// discarded.
    Exited,
    /// A `Return` instruction yielded the invocation's result.
    Returned(BytecodeValue),
}

/// A fatal execution fault.  Faults abort the running program; they are never
/// swallowed and never produce a wrong value instead.
#[derive(Debug, Clone, Copy, PartialEq, Eq, Structural)]
pub enum RuntimeFault {
    /// An instruction needed more operands than the stack holds.
    StackUnderflow,
    /// A call's target is not a procedure value.
    NotAProcedure,
    /// An arithmetic or print instruction met a non-integer operand.
    NotAnInteger,
    /// The right operand of a division is zero.
    DivisionByZero,
    /// A load found no binding for its name.
    UndefinedVariable,
    /// Execution ran off the end of an instruction sequence without meeting
    /// `Return` or `Exit`.
    MissingReturn,
    /// Nested calls exceeded the call-depth budget.
    CallDepthExceeded,
}

/// Mathematical model of a finished run: how it ended, and everything it
/// printed.
#[verifier::ext_equal]
pub enum RunResult {
    Exited { output: Seq<i64> },
    Returned { value: BytecodeValueModel, output: Seq<i64> },
    Faulted { fault: RuntimeFault, output: Seq<i64> },
}

/// The value bound to a name in the environment: the most recent store wins.
pub open spec fn lookup_variable(
    variables: Seq<(Seq<char>, BytecodeValueModel)>,
    name: Seq<char>,
) -> Option<BytecodeValueModel>
    decreases variables,
{
    if variables.len() == 0 {
        None
    } else if variables[variables.len() - 1].0 == name {
        Some(variables[variables.len() - 1].1)
    } else {
        lookup_variable(variables.subrange(0, variables.len() - 1), name)
    }
}

/// 64-bit two's-complement division, truncating towards zero; the one
/// wrapping case is `i64::MIN / -1`.
pub open spec fn spec_divide_wrapping(a: i64, b: i64) -> i64
    recommends
        b != 0,
{
    if a == i64::MIN && b == -1 {
        i64::MIN
    } else {
        let magnitude = (vstd::math::abs(a as int) as int) / (vstd::math::abs(b as int) as int);
        if (a < 0) != (b < 0) {
            (-magnitude) as i64
        } else {
            magnitude as i64
        }
    }
}

/// 64-bit two's-complement negation; the one wrapping case is `i64::MIN`.
pub open spec fn spec_negate_wrapping(a: i64) -> i64 {
    if a == i64::MIN {
        i64::MIN
    } else {
        (-a) as i64
    }
}

/// The stack machine, one instruction per unfolding.  `fuel` bounds the
/// nesting depth of calls; every other instruction only advances the
/// instruction pointer.
pub open spec fn run(
    code: Seq<BytecodeModel>,
    ip: int,
    stack: Seq<BytecodeValueModel>,
    variables: Seq<(Seq<char>, BytecodeValueModel)>,
    output: Seq<i64>,
    fuel: nat,
) -> RunResult
    decreases fuel, code.len() - ip,
{
    if ip < 0 || ip >= code.len() {
        RunResult::Faulted { fault: RuntimeFault::MissingReturn, output }
    } else {
        match code[ip] {
            BytecodeModel::Exit => RunResult::Exited { output },
            BytecodeModel::Push(value) => run(code, ip + 1, stack.push(value), variables, output, fuel),
            BytecodeModel::Pop => {
                if stack.len() == 0 {
                    RunResult::Faulted { fault: RuntimeFault::StackUnderflow, output }
                } else {
                    run(code, ip + 1, stack.subrange(0, stack.len() - 1), variables, output, fuel)
                }
            },
            BytecodeModel::Dup => {
                if stack.len() == 0 {
                    RunResult::Faulted { fault: RuntimeFault::StackUnderflow, output }
                } else {
                    run(code, ip + 1, stack.push(stack[stack.len() - 1]), variables, output, fuel)
                }
            },
            BytecodeModel::Call { argument_count } => {
                if stack.len() < argument_count + 1 {
                    RunResult::Faulted { fault: RuntimeFault::StackUnderflow, output }
                } else {
                    let callee = stack[stack.len() - argument_count - 1];
                    let arguments = stack.subrange(stack.len() - argument_count, stack.len() as int);
                    match callee {
                        BytecodeValueModel::Procedure(body) => {
                            if fuel == 0 {
                                RunResult::Faulted { fault: RuntimeFault::CallDepthExceeded, output }
                            } else {
                                match run(
                                    body,
                                    0,
                                    seq![BytecodeValueModel::Void] + arguments,
                                    Seq::empty(),
                                    output,
                                    (fuel - 1) as nat,
                                ) {
                                    RunResult::Exited { output } => RunResult::Exited { output },
                                    RunResult::Returned { value, output } => run(
                                        code,
                                        ip + 1,
                                        stack.subrange(0, stack.len() - argument_count - 1).push(value),
                                        variables,
                                        output,
                                        fuel,
                                    ),
                                    RunResult::Faulted { fault, output } => RunResult::Faulted {
                                        fault,
                                        output,
                                    },
                                }
                            }
                        },
                        _ => RunResult::Faulted { fault: RuntimeFault::NotAProcedure, output },
                    }
                }
            },
            BytecodeModel::Return => {
                if stack.len() == 0 {
                    RunResult::Faulted { fault: RuntimeFault::StackUnderflow, output }
                } else {
                    RunResult::Returned { value: stack[stack.len() - 1], output }
                }
            },
            BytecodeModel::Load(name) => {
                match lookup_variable(variables, name) {
                    Some(value) => run(code, ip + 1, stack.push(value), variables, output, fuel),
                    None => RunResult::Faulted { fault: RuntimeFault::UndefinedVariable, output },
                }
            },
            BytecodeModel::Store(name) => {
                if stack.len() == 0 {
                    RunResult::Faulted { fault: RuntimeFault::StackUnderflow, output }
                } else {
                    run(
                        code,
                        ip + 1,
                        stack.subrange(0, stack.len() - 1),
                        variables.push((name, stack[stack.len() - 1])),
                        output,
                        fuel,
                    )
                }
            },
            BytecodeModel::AddInteger => {
                if stack.len() < 2 {
                    RunResult::Faulted { fault: RuntimeFault::StackUnderflow, output }
                } else {
                    match (stack[stack.len() - 2], stack[stack.len() - 1]) {
                        (BytecodeValueModel::Integer(a), BytecodeValueModel::Integer(b)) => run(
                            code,
                            ip + 1,
                            stack.subrange(0, stack.len() - 2).push(
                                BytecodeValueModel::Integer(
                                    vstd::wrapping::i64_specs::wrapping_add(a, b),
                                ),
                            ),
                            variables,
                            output,
                            fuel,
                        ),
                        _ => RunResult::Faulted { fault: RuntimeFault::NotAnInteger, output },
                    }
                }
            },
            BytecodeModel::SubInteger => {
                if stack.len() < 2 {
                    RunResult::Faulted { fault: RuntimeFault::StackUnderflow, output }
                } else {
                    match (stack[stack.len() - 2], stack[stack.len() - 1]) {
                        (BytecodeValueModel::Integer(a), BytecodeValueModel::Integer(b)) => run(
                            code,
                            ip + 1,
                            stack.subrange(0, stack.len() - 2).push(
                                BytecodeValueModel::Integer(
                                    vstd::wrapping::i64_specs::wrapping_sub(a, b),
                                ),
                            ),
                            variables,
                            output,
                            fuel,
                        ),
                        _ => RunResult::Faulted { fault: RuntimeFault::NotAnInteger, output },
                    }
                }
            },
            BytecodeModel::MulInteger => {
                if stack.len() < 2 {
                    RunResult::Faulted { fault: RuntimeFault::StackUnderflow, output }
                } else {
                    match (stack[stack.len() - 2], stack[stack.len() - 1]) {
                        (BytecodeValueModel::Integer(a), BytecodeValueModel::Integer(b)) => run(
                            code,
                            ip + 1,
                            stack.subrange(0, stack.len() - 2).push(
                                BytecodeValueModel::Integer(
                                    vstd::wrapping::i64_specs::wrapping_mul(a, b),
                                ),
                            ),
                            variables,
                            output,
                            fuel,
                        ),
                        _ => RunResult::Faulted { fault: RuntimeFault::NotAnInteger, output },
                    }
                }
            },
            BytecodeModel::DivInteger => {
                if stack.len() < 2 {
                    RunResult::Faulted { fault: RuntimeFault::StackUnderflow, output }
                } else {
                    match (stack[stack.len() - 2], stack[stack.len() - 1]) {
                        (BytecodeValueModel::Integer(a), BytecodeValueModel::Integer(b)) => {
                            if b == 0 {
                                RunResult::Faulted { fault: RuntimeFault::DivisionByZero, output }
                            } else {
                                run(
                                    code,
                                    ip + 1,
                                    stack.subrange(0, stack.len() - 2).push(
                                        BytecodeValueModel::Integer(spec_divide_wrapping(a, b)),
                                    ),
                                    variables,
                                    output,
                                    fuel,
                                )
                            }
                        },
                        _ => RunResult::Faulted { fault: RuntimeFault::NotAnInteger, output },
                    }
                }
            },
            BytecodeModel::NegateInteger => {
                if stack.len() == 0 {
                    RunResult::Faulted { fault: RuntimeFault::StackUnderflow, output }
                } else {
                    match stack[stack.len() - 1] {
                        BytecodeValueModel::Integer(a) => run(
                            code,
                            ip + 1,
                            stack.subrange(0, stack.len() - 1).push(
                                BytecodeValueModel::Integer(spec_negate_wrapping(a)),
                            ),
                            variables,
                            output,
                            fuel,
                        ),
                        _ => RunResult::Faulted { fault: RuntimeFault::NotAnInteger, output },
                    }
                }
            },
            BytecodeModel::PrintInteger => {
                if stack.len() == 0 {
                    RunResult::Faulted { fault: RuntimeFault::StackUnderflow, output }
                } else {
                    match stack[stack.len() - 1] {
                        BytecodeValueModel::Integer(a) => run(
                            code,
                            ip + 1,
                            stack.subrange(0, stack.len() - 1),
                            variables,
                            output.push(a),
                            fuel,
                        ),
                        _ => RunResult::Faulted { fault: RuntimeFault::NotAnInteger, output },
                    }
                }
            },
        }
    }
}

/// The magnitude of a 64-bit integer, as an unsigned value.
fn magnitude(a: i64) -> (r: u64)
    ensures
        r == vstd::math::abs(a as int),
{
    if a >= 0 {
        a as u64
    } else {
        (-(a + 1)) as u64 + 1
    }
}

/// 64-bit two's-complement division, truncating towards zero.
fn divide_wrapping(a: i64, b: i64) -> (r: i64)
    requires
        b != 0,
    ensures
        r == spec_divide_wrapping(a, b),
{
    if a == i64::MIN && b == -1 {
        return i64::MIN;
    }
    let ua = magnitude(a);
    let ub = magnitude(b);
    let uq = ua / ub;
    proof {
        vstd::arithmetic::div_mod::lemma_div_nonincreasing(ua as int, ub as int);
        if ub >= 2 {
            vstd::arithmetic::div_mod::lemma_div_is_ordered_by_denominator(ua as int, 2, ub as int);
            assert(uq <= ua as int / 2);
        }
    }
    if (a < 0) != (b < 0) {
        if uq == 9223372036854775808u64 {
            i64::MIN
        } else {
            -(uq as i64)
        }
    } else {
        uq as i64
    }
}

/// 64-bit two's-complement negation.
fn negate_wrapping(a: i64) -> (r: i64)
    ensures
        r == spec_negate_wrapping(a),
{
    if a == i64::MIN {
        i64::MIN
    } else {
        -a
    }
}

/// Finds the value bound to a name; the most recent store wins.
#[verifier::loop_isolation(false)]
fn find_variable<'a>(
    variables: &'a Vec<(String, BytecodeValue)>,
    name: &String,
) -> (r: Option<&'a BytecodeValue>)
    ensures
        match r {
            Some(v) => lookup_variable(view_value_pairs(variables@), name@) == Some(v@),
            None => lookup_variable(view_value_pairs(variables@), name@) is None,
        },
{
    proof {
        lemma_view_value_pairs_index(variables@);
    }
    let ghost vars_m = view_value_pairs(variables@);
    let n = variables.len();
    proof {
        assert(vars_m.subrange(0, n as int) =~= vars_m);
    }
    let mut i = n;
    while i > 0
        invariant
            i <= n,
            lookup_variable(vars_m, name@) == lookup_variable(
                vars_m.subrange(0, i as int),
                name@,
            ),
        decreases i,
    {
        i = i - 1;
        let ghost pre = vars_m.subrange(0, i as int + 1);
        proof {
            assert(pre[i as int] == vars_m[i as int]);
            assert(pre.subrange(0, pre.len() - 1) =~= vars_m.subrange(0, i as int));
        }
        if variables[i].0 == *name {
            proof {
                assert(lookup_variable(pre, name@) == Some(vars_m[i as int].1));
            }
            return Some(&variables[i].1);
        }
    }
    proof {
        assert(vars_m.subrange(0, 0) =~= Seq::<(Seq<char>, BytecodeValueModel)>::empty());
    }
    None
}

/// Interprets an instruction sequence against an operand stack seeded with
/// the given values (beneath them, one `Void`), an initially empty
/// environment, and a call-depth budget of `fuel`.  Printed integers are
/// appended to `output` in program order.  The result and the final output
/// are exactly what [`run`] says.
#[verifier::loop_isolation(false)]
pub fn execute_bytecode(
    bytecode: &Vec<Bytecode>,
    stack: Vec<BytecodeValue>,
    output: &mut Vec<i64>,
    fuel: u64,
) -> (r: Result<RunOutcome, RuntimeFault>)
    ensures
        ({
            let result = run(
                view_bytecodes(bytecode@),
                0,
                seq![BytecodeValueModel::Void] + view_values(stack@),
                Seq::empty(),
                old(output)@,
                fuel as nat,
            );
            match r {
                Ok(RunOutcome::Exited) => result == (RunResult::Exited { output: final(output)@ }),
                Ok(RunOutcome::Returned(value)) => result == (RunResult::Returned {
                    value: value@,
                    output: final(output)@,
                }),
                Err(fault) => result == (RunResult::Faulted { fault, output: final(output)@ }),
            }
        }),
    decreases fuel,
{
    proof {
        lemma_view_bytecodes_index(bytecode@);
        lemma_view_values_index(stack@);
    }
    let ghost code_m = view_bytecodes(bytecode@);
    let mut stack = stack;
    {
        let ghost pre = stack@;
        stack.insert(0, BytecodeValue::Void);
        proof {
            lemma_view_values_index(stack@);
            lemma_view_values_index(pre);
            assert(view_values(stack@) =~= seq![BytecodeValueModel::Void] + view_values(pre));
        }
    }
    let mut variables: Vec<(String, BytecodeValue)> = Vec::new();
    let mut ip: usize = 0;
    let ghost expected = run(
        code_m,
        0,
        view_values(stack@),
        view_value_pairs(variables@),
        old(output)@,
        fuel as nat,
    );
    proof {
        assert(view_value_pairs(variables@) =~= Seq::<(Seq<char>, BytecodeValueModel)>::empty());
    }
    loop
        invariant
            expected == run(
                code_m,
                ip as int,
                view_values(stack@),
                view_value_pairs(variables@),
                output@,
                fuel as nat,
            ),
        decreases code_m.len() - ip,
    {
        if ip >= bytecode.len() {
            return Err(RuntimeFault::MissingReturn);
        }
        let ghost stack_m = view_values(stack@);
        let ghost vars_m = view_value_pairs(variables@);
        proof {
            lemma_view_values_index(stack@);
            assert(code_m[ip as int] == bytecode@[ip as int]@);
        }
        let instruction = &bytecode[ip];
        match instruction {
            Bytecode::Exit => {
                return Ok(RunOutcome::Exited);
            },
            Bytecode::Push(value) => {
                let fresh = value.clone();
                let ghost pre = stack@;
                stack.push(fresh);
                proof {
                    lemma_view_values_index(stack@);
                    assert(stack@.subrange(0, stack@.len() - 1) =~= pre);
                    assert(view_values(stack@) == stack_m.push(value@));
                }
            },
            Bytecode::Pop => {
                if stack.len() == 0 {
                    return Err(RuntimeFault::StackUnderflow);
                }
                stack.pop();
                proof {
                    lemma_view_values_index(stack@);
                    assert(view_values(stack@) == stack_m.subrange(0, stack_m.len() - 1));
                }
            },
            Bytecode::Dup => {
                if stack.len() == 0 {
                    return Err(RuntimeFault::StackUnderflow);
                }
                let top = stack[stack.len() - 1].clone();
                let ghost pre = stack@;
                stack.push(top);
                proof {
                    lemma_view_values_index(stack@);
                    assert(stack@.subrange(0, stack@.len() - 1) =~= pre);
                    assert(view_values(stack@) == stack_m.push(stack_m[stack_m.len() - 1]));
                }
            },
            Bytecode::Call { argument_count } => {
                let n = *argument_count;
                if stack.len() < 1 || stack.len() - 1 < n {
                    return Err(RuntimeFault::StackUnderflow);
                }
                let split_at = stack.len() - n;
                let arguments = stack.split_off(split_at);
                proof {
                    lemma_view_values_index(arguments@);
                    lemma_view_values_index(stack@);
                    assert(view_values(arguments@) =~= stack_m.subrange(
                        stack_m.len() - n,
                        stack_m.len() as int,
                    ));
                }
                let callee = match stack.pop() {
                    Some(callee) => callee,
                    None => unreached(),
                };
                proof {
                    lemma_view_values_index(stack@);
                    assert(callee@ == stack_m[stack_m.len() - n - 1]);
                    assert(view_values(stack@) =~= stack_m.subrange(0, stack_m.len() - n - 1));
                }
                let body = match callee {
                    BytecodeValue::Procedure(body) => body,
                    _ => {
                        return Err(RuntimeFault::NotAProcedure);
                    },
                };
                if fuel == 0 {
                    return Err(RuntimeFault::CallDepthExceeded);
                }
                let call_result = execute_bytecode(&body, arguments, output, fuel - 1);
                match call_result {
                    Ok(RunOutcome::Exited) => {
                        return Ok(RunOutcome::Exited);
                    },
                    Ok(RunOutcome::Returned(value)) => {
                        let ghost pre = stack@;
                        stack.push(value);
                        proof {
                            assert(stack@.subrange(0, stack@.len() - 1) =~= pre);
                            assert(view_values(stack@) == stack_m.subrange(
                                0,
                                stack_m.len() - n - 1,
                            ).push(stack@[stack@.len() - 1]@));
                        }
                    },
                    Err(fault) => {
                        return Err(fault);
                    },
                }
            },
            Bytecode::Return => {
                if stack.len() == 0 {
                    return Err(RuntimeFault::StackUnderflow);
                }
                let value = match stack.pop() {
                    Some(value) => value,
                    None => unreached(),
                };
                return Ok(RunOutcome::Returned(value));
            },
            Bytecode::Load(name) => {
                let found = match find_variable(&variables, name) {
                    Some(value) => value.clone(),
                    None => {
                        return Err(RuntimeFault::UndefinedVariable);
                    },
                };
                let ghost pre = stack@;
                stack.push(found);
                proof {
                    lemma_view_values_index(stack@);
                    assert(stack@.subrange(0, stack@.len() - 1) =~= pre);
                    assert(view_values(stack@) == stack_m.push(stack@[stack@.len() - 1]@));
                }
            },
            Bytecode::Store(name) => {
                if stack.len() == 0 {
                    return Err(RuntimeFault::StackUnderflow);
                }
                let value = match stack.pop() {
                    Some(value) => value,
                    None => unreached(),
                };
                let ghost vpre = variables@;
                variables.push((name.clone(), value));
                proof {
                    lemma_view_values_index(stack@);
                    lemma_view_value_pairs_index(variables@);
                    assert(variables@.subrange(0, variables@.len() - 1) =~= vpre);
                    assert(view_values(stack@) == stack_m.subrange(0, stack_m.len() - 1));
                    assert(view_value_pairs(variables@) == vars_m.push(
                        (variables@[variables@.len() - 1].0@, variables@[variables@.len() - 1].1@),
                    ));
                }
            },
            Bytecode::AddInteger => {
                if stack.len() < 2 {
                    return Err(RuntimeFault::StackUnderflow);
                }
                let b = match stack.pop() {
                    Some(value) => value,
                    None => unreached(),
                };
                let a = match stack.pop() {
                    Some(value) => value,
                    None => unreached(),
                };
                let (x, y) = match (a, b) {
                    (BytecodeValue::Integer(x), BytecodeValue::Integer(y)) => (x, y),
                    _ => {
                        return Err(RuntimeFault::NotAnInteger);
                    },
                };
                let ghost pre = stack@;
                stack.push(BytecodeValue::Integer(x.wrapping_add(y)));
                proof {
                    lemma_view_values_index(stack@);
                    assert(stack@.subrange(0, stack@.len() - 1) =~= pre);
                    assert(view_values(stack@) == stack_m.subrange(0, stack_m.len() - 2).push(
                        stack@[stack@.len() - 1]@,
                    ));
                }
            },
            Bytecode::SubInteger => {
                if stack.len() < 2 {
                    return Err(RuntimeFault::StackUnderflow);
                }
                let b = match stack.pop() {
                    Some(value) => value,
                    None => unreached(),
                };
                let a = match stack.pop() {
                    Some(value) => value,
                    None => unreached(),
                };
                let (x, y) = match (a, b) {
                    (BytecodeValue::Integer(x), BytecodeValue::Integer(y)) => (x, y),
                    _ => {
                        return Err(RuntimeFault::NotAnInteger);
                    },
                };
                let ghost pre = stack@;
                stack.push(BytecodeValue::Integer(x.wrapping_sub(y)));
                proof {
                    lemma_view_values_index(stack@);
                    assert(stack@.subrange(0, stack@.len() - 1) =~= pre);
                    assert(view_values(stack@) == stack_m.subrange(0, stack_m.len() - 2).push(
                        stack@[stack@.len() - 1]@,
                    ));
                }
            },
            Bytecode::MulInteger => {
                if stack.len() < 2 {
                    return Err(RuntimeFault::StackUnderflow);
                }
                let b = match stack.pop() {
                    Some(value) => value,
                    None => unreached(),
                };
                let a = match stack.pop() {
                    Some(value) => value,
                    None => unreached(),
                };
                let (x, y) = match (a, b) {
                    (BytecodeValue::Integer(x), BytecodeValue::Integer(y)) => (x, y),
                    _ => {
                        return Err(RuntimeFault::NotAnInteger);
                    },
                };
                let ghost pre = stack@;
                stack.push(BytecodeValue::Integer(x.wrapping_mul(y)));
                proof {
                    lemma_view_values_index(stack@);
                    assert(stack@.subrange(0, stack@.len() - 1) =~= pre);
                    assert(view_values(stack@) == stack_m.subrange(0, stack_m.len() - 2).push(
                        stack@[stack@.len() - 1]@,
                    ));
                }
            },
            Bytecode::DivInteger => {
                if stack.len() < 2 {
                    return Err(RuntimeFault::StackUnderflow);
                }
                let b = match stack.pop() {
                    Some(value) => value,
                    None => unreached(),
                };
                let a = match stack.pop() {
                    Some(value) => value,
                    None => unreached(),
                };
                let (x, y) = match (a, b) {
                    (BytecodeValue::Integer(x), BytecodeValue::Integer(y)) => (x, y),
                    _ => {
                        return Err(RuntimeFault::NotAnInteger);
                    },
                };
                if y == 0 {
                    return Err(RuntimeFault::DivisionByZero);
                }
                let ghost pre = stack@;
                stack.push(BytecodeValue::Integer(divide_wrapping(x, y)));
                proof {
                    lemma_view_values_index(stack@);
                    assert(stack@.subrange(0, stack@.len() - 1) =~= pre);
                    assert(view_values(stack@) == stack_m.subrange(0, stack_m.len() - 2).push(
                        stack@[stack@.len() - 1]@,
                    ));
                }
            },
            Bytecode::NegateInteger => {
                if stack.len() == 0 {
                    return Err(RuntimeFault::StackUnderflow);
                }
                let a = match stack.pop() {
                    Some(value) => value,
                    None => unreached(),
                };
                let x = match a {
                    BytecodeValue::Integer(x) => x,
                    _ => {
                        return Err(RuntimeFault::NotAnInteger);
                    },
                };
                let ghost pre = stack@;
                stack.push(BytecodeValue::Integer(negate_wrapping(x)));
                proof {
                    lemma_view_values_index(stack@);
                    assert(stack@.subrange(0, stack@.len() - 1) =~= pre);
                    assert(view_values(stack@) == stack_m.subrange(0, stack_m.len() - 1).push(
                        stack@[stack@.len() - 1]@,
                    ));
                }
            },
            Bytecode::PrintInteger => {
                if stack.len() == 0 {
                    return Err(RuntimeFault::StackUnderflow);
                }
                let a = match stack.pop() {
                    Some(value) => value,
                    None => unreached(),
                };
                let x = match a {
                    BytecodeValue::Integer(x) => x,
                    _ => {
                        return Err(RuntimeFault::NotAnInteger);
                    },
                };
                output.push(x);
                proof {
                    lemma_view_values_index(stack@);
                    assert(view_values(stack@) == stack_m.subrange(0, stack_m.len() - 1));
                }
            },
        }
        ip = ip + 1;
    }
}


/// What a finished run printed, whatever way it ended.
pub open spec fn result_output(result: RunResult) -> Seq<i64> {
    match result {
        RunResult::Exited { output } => output,
        RunResult::Returned { output, .. } => output,
        RunResult::Faulted { output, .. } => output,
    }
}

/// Printing is append-only: however a run ends — exit, return, or any fault —
/// its output extends the output it started from, so everything already
/// printed stays printed, in program order.
pub proof fn lemma_run_appends_output(
    code: Seq<BytecodeModel>,
    ip: int,
    stack: Seq<BytecodeValueModel>,
    variables: Seq<(Seq<char>, BytecodeValueModel)>,
    output: Seq<i64>,
    fuel: nat,
)
    ensures
        ({
            let result_out = result_output(run(code, ip, stack, variables, output, fuel));
            output.len() <= result_out.len() && (forall|i: int|
                0 <= i < output.len() ==> result_out[i] == output[i])
        }),
    decreases fuel, code.len() - ip,
{
    if 0 <= ip < code.len() {
        match code[ip] {
            BytecodeModel::Exit => {},
            BytecodeModel::Push(value) => {
                lemma_run_appends_output(code, ip + 1, stack.push(value), variables, output, fuel);
            },
            BytecodeModel::Pop => {
                if stack.len() > 0 {
                    lemma_run_appends_output(
                        code,
                        ip + 1,
                        stack.subrange(0, stack.len() - 1),
                        variables,
                        output,
                        fuel,
                    );
                }
            },
            BytecodeModel::Dup => {
                if stack.len() > 0 {
                    lemma_run_appends_output(
                        code,
                        ip + 1,
                        stack.push(stack[stack.len() - 1]),
                        variables,
                        output,
                        fuel,
                    );
                }
            },
            BytecodeModel::Call { argument_count } => {
                if stack.len() >= argument_count + 1 {
                    let callee = stack[stack.len() - argument_count - 1];
                    let arguments = stack.subrange(
                        stack.len() - argument_count,
                        stack.len() as int,
                    );
                    if let BytecodeValueModel::Procedure(body) = callee {
                        if fuel > 0 {
                            lemma_run_appends_output(
                                body,
                                0,
                                seq![BytecodeValueModel::Void] + arguments,
                                Seq::empty(),
                                output,
                                (fuel - 1) as nat,
                            );
                            let inner = run(
                                body,
                                0,
                                seq![BytecodeValueModel::Void] + arguments,
                                Seq::empty(),
                                output,
                                (fuel - 1) as nat,
                            );
                            if let RunResult::Returned { value, output: mid } = inner {
                                lemma_run_appends_output(
                                    code,
                                    ip + 1,
                                    stack.subrange(0, stack.len() - argument_count - 1).push(
                                        value,
                                    ),
                                    variables,
                                    mid,
                                    fuel,
                                );
                            }
                        }
                    }
                }
            },
            BytecodeModel::Return => {},
            BytecodeModel::Load(name) => {
                if let Some(value) = lookup_variable(variables, name) {
                    lemma_run_appends_output(
                        code,
                        ip + 1,
                        stack.push(value),
                        variables,
                        output,
                        fuel,
                    );
                }
            },
            BytecodeModel::Store(name) => {
                if stack.len() > 0 {
                    lemma_run_appends_output(
                        code,
                        ip + 1,
                        stack.subrange(0, stack.len() - 1),
                        variables.push((name, stack[stack.len() - 1])),
                        output,
                        fuel,
                    );
                }
            },
            BytecodeModel::AddInteger => {
                if stack.len() >= 2 {
                    if let (BytecodeValueModel::Integer(a), BytecodeValueModel::Integer(b)) = (
                        stack[stack.len() - 2],
                        stack[stack.len() - 1],
                    ) {
                        lemma_run_appends_output(
                            code,
                            ip + 1,
                            stack.subrange(0, stack.len() - 2).push(
                                BytecodeValueModel::Integer(
                                    vstd::wrapping::i64_specs::wrapping_add(a, b),
                                ),
                            ),
                            variables,
                            output,
                            fuel,
                        );
                    }
                }
            },
            BytecodeModel::SubInteger => {
                if stack.len() >= 2 {
                    if let (BytecodeValueModel::Integer(a), BytecodeValueModel::Integer(b)) = (
                        stack[stack.len() - 2],
                        stack[stack.len() - 1],
                    ) {
                        lemma_run_appends_output(
                            code,
                            ip + 1,
                            stack.subrange(0, stack.len() - 2).push(
                                BytecodeValueModel::Integer(
                                    vstd::wrapping::i64_specs::wrapping_sub(a, b),
                                ),
                            ),
                            variables,
                            output,
                            fuel,
                        );
                    }
                }
            },
            BytecodeModel::MulInteger => {
                if stack.len() >= 2 {
                    if let (BytecodeValueModel::Integer(a), BytecodeValueModel::Integer(b)) = (
                        stack[stack.len() - 2],
                        stack[stack.len() - 1],
                    ) {
                        lemma_run_appends_output(
                            code,
                            ip + 1,
                            stack.subrange(0, stack.len() - 2).push(
                                BytecodeValueModel::Integer(
                                    vstd::wrapping::i64_specs::wrapping_mul(a, b),
                                ),
                            ),
                            variables,
                            output,
                            fuel,
                        );
                    }
                }
            },
            BytecodeModel::DivInteger => {
                if stack.len() >= 2 {
                    if let (BytecodeValueModel::Integer(a), BytecodeValueModel::Integer(b)) = (
                        stack[stack.len() - 2],
                        stack[stack.len() - 1],
                    ) {
                        if b != 0 {
                            lemma_run_appends_output(
                                code,
                                ip + 1,
                                stack.subrange(0, stack.len() - 2).push(
                                    BytecodeValueModel::Integer(spec_divide_wrapping(a, b)),
                                ),
                                variables,
                                output,
                                fuel,
                            );
                        }
                    }
                }
            },
            BytecodeModel::NegateInteger => {
                if stack.len() > 0 {
                    if let BytecodeValueModel::Integer(a) = stack[stack.len() - 1] {
                        lemma_run_appends_output(
                            code,
                            ip + 1,
                            stack.subrange(0, stack.len() - 1).push(
                                BytecodeValueModel::Integer(spec_negate_wrapping(a)),
                            ),
                            variables,
                            output,
                            fuel,
                        );
                    }
                }
            },
            BytecodeModel::PrintInteger => {
                if stack.len() > 0 {
                    if let BytecodeValueModel::Integer(a) = stack[stack.len() - 1] {
                        lemma_run_appends_output(
                            code,
                            ip + 1,
                            stack.subrange(0, stack.len() - 1),
                            variables,
                            output.push(a),
                            fuel,
                        );
                    }
                }
            },
        }
    }
}

} // verus!
