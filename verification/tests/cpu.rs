use lux_vm::cpu::Opcode::{Add, Div, Mul, Push, Sub};
use lux_vm::cpu::{interpret, ProgramError};

#[test]
fn basic() {
    assert_eq!(interpret(vec![Push(2)]).unwrap(), 2);
    assert_eq!(interpret(vec![Push(2), Push(3), Mul]).unwrap(), 6);
    assert_eq!(interpret(vec![Push(5), Push(3), Sub]).unwrap(), 2);
    assert!(interpret(vec![Push(2), Mul]).is_err());
    assert!(interpret(vec![Push(2), Push(0), Div]).is_err());

    assert_eq!(
        interpret(vec![Push(2), Push(2), Mul, Push(3), Mul, Push(4), Mul]).unwrap(),
        48
    );

    assert_eq!(
        interpret(vec![Push(5), Push(2), Mul, Push(5), Div, Push(2), Div]).unwrap(),
        1
    );
}

#[test]
fn each_failure_has_its_error() {
    assert_eq!(interpret(vec![]), Err(ProgramError::StackUnderflow));
    assert_eq!(interpret(vec![Add]), Err(ProgramError::StackUnderflow));
    assert_eq!(interpret(vec![Push(2), Mul]), Err(ProgramError::StackUnderflow));
    assert_eq!(interpret(vec![Push(1), Div]), Err(ProgramError::StackUnderflow));
    assert_eq!(interpret(vec![Push(2), Push(0), Div]), Err(ProgramError::DivisionByZero));
    assert_eq!(interpret(vec![Push(0), Div]), Err(ProgramError::DivisionByZero));
    assert_eq!(interpret(vec![Push(i64::MAX), Push(1), Add]), Err(ProgramError::Overflow));
    assert_eq!(interpret(vec![Push(i64::MIN), Push(1), Sub]), Err(ProgramError::Overflow));
    assert_eq!(interpret(vec![Push(i64::MAX), Push(2), Mul]), Err(ProgramError::Overflow));
    assert_eq!(interpret(vec![Push(i64::MIN), Push(-1), Div]), Err(ProgramError::Overflow));
    assert_eq!(interpret(vec![Push(1), Push(0), Div, Add]), Err(ProgramError::DivisionByZero));
}

#[test]
fn operands_keep_their_order() {
    assert_eq!(interpret(vec![Push(3), Push(5), Sub]), Ok(-2));
    assert_eq!(interpret(vec![Push(7), Push(2), Div]), Ok(3));
    assert_eq!(interpret(vec![Push(2), Push(7), Div]), Ok(0));
    assert_eq!(interpret(vec![Push(1), Push(2), Push(3), Add]), Ok(5));
}

#[test]
fn division_rounds_toward_zero() {
    assert_eq!(interpret(vec![Push(-7), Push(2), Div]), Ok(-3));
    assert_eq!(interpret(vec![Push(7), Push(-2), Div]), Ok(-3));
    assert_eq!(interpret(vec![Push(-7), Push(-2), Div]), Ok(3));
    assert_eq!(interpret(vec![Push(i64::MIN), Push(1), Div]), Ok(i64::MIN));
    assert_eq!(interpret(vec![Push(i64::MAX), Push(-1), Div]), Ok(-i64::MAX));
}
