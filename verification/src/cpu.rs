//! A stack evaluator for arithmetic expressions in postfix order.

use vstd::prelude::*;
use crate::division::quotient;

verus! {

/// One instruction of the stack evaluator.
#[allow(dead_code)]
pub enum Opcode {
    /// Pushes the value onto the stack.
    Push(i64),
    /// Replaces the two topmost values by their sum.
    Add,
    /// Replaces the two topmost values by their difference.
    Sub,
    /// Replaces the two topmost values by their product.
    Mul,
    /// Replaces the two topmost values by their quotient, rounded toward zero.
    Div,
}

/// The state of one evaluation: the instructions and the operand stack.
pub struct Program {
    program: Vec<Opcode>,
    stack: Vec<i64>,
}

/// Why an evaluation failed.
#[derive(Debug, PartialEq, Eq, Structural)]
pub enum ProgramError {
    /// The divisor on top of the stack was zero.
    DivisionByZero,
    /// An instruction needed more operands than the stack held, or the
    /// stack was empty at the end.
    StackUnderflow,
    /// A result did not fit into 64 bits.
    Overflow,
}

/// Whether `v` is the value of some `i64`.
pub open spec fn fits(v: int) -> bool {
    i64::MIN <= v <= i64::MAX
}

/// The result of a binary instruction on `b` (pushed first) and `a`
/// (pushed last, on top).
pub open spec fn combine(op: Opcode, b: i64, a: i64) -> Result<i64, ProgramError> {
    let v: int = match op {
        Opcode::Add => b + a,
        Opcode::Sub => b - a,
        Opcode::Mul => b * a,
        _ => quotient(b as int, a as int),
    };
    if fits(v) {
        Ok(v as i64)
    } else {
        Err(ProgramError::Overflow)
    }
}

/// The stack after one instruction, or the error that the instruction
/// raises. The top of the stack is the last element.
pub open spec fn apply(stack: Seq<i64>, op: Opcode) -> Result<Seq<i64>, ProgramError> {
    match op {
        Opcode::Push(v) => Ok(stack.push(v)),
        _ => {
            if stack.len() < 1 {
                Err(ProgramError::StackUnderflow)
            } else if op is Div && stack.last() == 0 {
                Err(ProgramError::DivisionByZero)
            } else if stack.len() < 2 {
                Err(ProgramError::StackUnderflow)
            } else {
                match combine(op, stack[stack.len() - 2], stack.last()) {
                    Ok(v) => Ok(stack.take(stack.len() - 2).push(v)),
                    Err(e) => Err(e),
                }
            }
        },
    }
}

/// The stack after the instructions from index `from` on, started on
/// `stack`, or the first error raised.
pub open spec fn execute(program: Seq<Opcode>, from: int, stack: Seq<i64>) -> Result<
    Seq<i64>,
    ProgramError,
>
    decreases program.len() - from,
{
    if from < 0 || from >= program.len() {
        Ok(stack)
    } else {
        match apply(stack, program[from]) {
            Ok(next) => execute(program, from + 1, next),
            Err(e) => Err(e),
        }
    }
}

/// The value of a whole program: the top of the stack when every
/// instruction has run.
pub open spec fn evaluate(program: Seq<Opcode>) -> Result<i64, ProgramError> {
    match execute(program, 0, Seq::empty()) {
        Ok(stack) => if stack.len() > 0 {
            Ok(stack.last())
        } else {
            Err(ProgramError::StackUnderflow)
        },
        Err(e) => Err(e),
    }
}

/// Runs one binary instruction on the two topmost values of the stack.
fn binary(code: &mut Program, op: &Opcode) -> (result: Option<ProgramError>)
    requires
        !(op is Push),
    ensures
        final(code).program == old(code).program,
        match apply(old(code).stack@, *op) {
            Ok(next) => result is None && final(code).stack@ == next,
            Err(e) => result == Some(e),
        },
{
    if let Some(a) = code.stack.pop() {
        if matches!(op, Opcode::Div) && a == 0 {
            Some(ProgramError::DivisionByZero)
        } else if let Some(b) = code.stack.pop() {
            let value = match op {
                Opcode::Add => b.checked_add(a),
                Opcode::Sub => b.checked_sub(a),
                Opcode::Mul => b.checked_mul(a),
                _ => b.checked_div(a),
            };
            match value {
                Some(v) => {
                    code.stack.push(v);
                    assert(code.stack@ == old(code).stack@.take(old(code).stack@.len() - 2).push(v));
                    None
                },
                None => Some(ProgramError::Overflow),
            }
        } else {
            Some(ProgramError::StackUnderflow)
        }
    } else {
        Some(ProgramError::StackUnderflow)
    }
}

/// Evaluates a program in postfix order and returns the value left on top
/// of the stack.
///
/// Fails with `StackUnderflow` where an instruction finds too few
/// operands or the final stack is empty, with `DivisionByZero` where a
/// `Div` finds zero on top, and with `Overflow` where a result leaves the
/// range of `i64`. The first failure ends the evaluation.
pub fn interpret(program: Vec<Opcode>) -> (result: Result<i64, ProgramError>)
    ensures
        result == evaluate(program@),
{
    let mut code = Program { program, stack: Vec::new() };
    let mut i: usize = 0;
    while i < code.program.len()
        invariant
            i <= code.program.len(),
            code.program@ == program@,
            execute(program@, i as int, code.stack@) == execute(program@, 0, Seq::empty()),
        decreases code.program.len() - i,
    {
        let failure = match &code.program[i] {
            Opcode::Push(v) => {
                code.stack.push(*v);
                None
            },
            Opcode::Mul => binary(&mut code, &Opcode::Mul),
            Opcode::Add => binary(&mut code, &Opcode::Add),
            Opcode::Sub => binary(&mut code, &Opcode::Sub),
            Opcode::Div => binary(&mut code, &Opcode::Div),
        };
        if let Some(err) = failure {
            return Err(err);
        }
        i += 1;
    }
    if let Some(v) = code.stack.pop() {
        Ok(v)
    } else {
        Err(ProgramError::StackUnderflow)
    }
}

} // verus!
