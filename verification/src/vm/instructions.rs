//! The instruction set: the opcodes, what each one does, and the dispatch
//! from an opcode byte to its handler.

use vstd::prelude::*;
use crate::bytes::{le_store, le_value};
use crate::division::{
    lemma_division_by_signs, lemma_quotient_magnitude, lemma_remainder_sign, quotient, remainder,
};
use crate::vm::float::{FloatOp, FloatRequest};
use crate::vm::{Machine, VmError, FLOAT_REGISTERS, REGISTERS, VM};

verus! {

/// The instructions of the machine.
///
/// The operands follow the opcode byte in the order given here. `$x` is
/// the index of an integer register, `%x` the index of a floating-point
/// register, and `lo hi` a 16-bit immediate, least significant byte first.
#[derive(Debug, Clone, Copy, PartialEq, Eq, Structural)]
pub enum Opcode {
    /// `HLT`: stops the machine.
    Halt,
    /// `SET $target lo hi`: sets `$target` to the immediate.
    SetI32,
    /// `LOAD $target $pointer`: sets `$target` to the four heap bytes at the
    /// address in `$pointer`.
    Load,
    /// `STOR $pointer $value`: writes `$value` to the four heap bytes at the
    /// address in `$pointer`.
    Store,
    /// `MOV $target $value`: copies `$value` to `$target`.
    Move,
    /// `ADD $target $a $b`: sets `$target` to `$a + $b`.
    Add,
    /// `SUB $target $a $b`: sets `$target` to `$a - $b`.
    Subtract,
    /// `MUL $target $a $b`: sets `$target` to `$a * $b`.
    Multiply,
    /// `DIV $target $a $b`: sets `$target` to `$a / $b`, rounded toward
    /// zero, and the remainder register to what is left.
    Divide,
    /// `AND $target $a $b`: sets `$target` to `$a & $b`.
    And,
    /// `OR $target $a $b`: sets `$target` to `$a | $b`.
    Or,
    /// `XOR $target $a $b`: sets `$target` to `$a ^ $b`.
    XOR,
    /// `SHL $target count`: shifts `$target` left by `count` bits, where
    /// `count` is an immediate byte taken modulo 32.
    ShiftLeft,
    /// `SHR $target count`: shifts `$target` right by `count` bits, where
    /// `count` is an immediate byte taken modulo 32. Zeros come in from
    /// the left.
    ShiftRight,
    /// `INC $target`: adds one to `$target`.
    Increment,
    /// `DEC $target`: subtracts one from `$target`.
    Decrement,
    /// `EQ $a $b`: sets the flag to `$a == $b`.
    Equal,
    /// `NEQ $a $b`: sets the flag to `$a != $b`.
    NotEqual,
    /// `GT $a $b`: sets the flag to `$a > $b`.
    GreaterThan,
    /// `LT $a $b`: sets the flag to `$a < $b`.
    LessThan,
    /// `GEQ $a $b`: sets the flag to `$a >= $b`.
    GreaterThanOrEqual,
    /// `LEQ $a $b`: sets the flag to `$a <= $b`.
    LessThanOrEqual,
    /// `SETF %target lo hi`: sets `%target` to the immediate.
    SetF64,
    /// `LOADF %target $pointer`: sets `%target` to the unsigned integer in
    /// the eight heap bytes at the address in `$pointer`.
    LoadF64,
    /// `STORF $pointer %value`: writes `%value`, as an unsigned integer, to
    /// the eight heap bytes at the address in `$pointer`.
    StoreF64,
    /// `MOVF %target %value`: copies `%value` to `%target`.
    MoveF64,
    /// `ADDF %target %a %b`: sets `%target` to `%a + %b`.
    AddF64,
    /// `SUBF %target %a %b`: sets `%target` to `%a - %b`.
    SubtractF64,
    /// `MULF %target %a %b`: sets `%target` to `%a * %b`.
    MultiplyF64,
    /// `DIVF %target %a %b`: sets `%target` to `%a / %b`.
    DivideF64,
    /// `EQF %a %b`: sets the flag where `%a` and `%b` differ by less than
    /// the machine epsilon.
    EqualF64,
    /// `NEQF %a %b`: sets the flag where `%a` and `%b` differ by more than
    /// the machine epsilon.
    NotEqualF64,
    /// `GTF %a %b`: sets the flag to `%a > %b`.
    GreaterThanF64,
    /// `LTF %a %b`: sets the flag to `%a < %b`.
    LessThanF64,
    /// `GEQF %a %b`: sets the flag to `%a >= %b`.
    GreaterThanOrEqualF64,
    /// `LEQF %a %b`: sets the flag to `%a <= %b`.
    LessThanOrEqualF64,
    /// `JMP $target`: continues at the offset in `$target`.
    Jump,
    /// `JMPF $bytes`: skips the number of bytes in `$bytes`.
    JumpForward,
    /// `JMPB $bytes`: goes back by the number of bytes in `$bytes`, counted
    /// from the end of this instruction.
    JumpBackward,
    /// `JEQ $target`: continues at the offset in `$target` where the flag
    /// is set, and with the next instruction where it is not.
    JumpIfEqual,
}

impl Opcode {
    /// The byte that encodes the instruction.
    pub open spec fn code(self) -> u8 {
        match self {
            Opcode::Halt => 0x00,
            Opcode::SetI32 => 0x01,
            Opcode::Load => 0x02,
            Opcode::Store => 0x03,
            Opcode::Move => 0x04,
            Opcode::Add => 0x10,
            Opcode::Subtract => 0x11,
            Opcode::Multiply => 0x12,
            Opcode::Divide => 0x13,
            Opcode::And => 0x14,
            Opcode::Or => 0x15,
            Opcode::XOR => 0x16,
            Opcode::ShiftLeft => 0x17,
            Opcode::ShiftRight => 0x18,
            Opcode::Increment => 0x19,
            Opcode::Decrement => 0x1A,
            Opcode::Equal => 0x20,
            Opcode::NotEqual => 0x21,
            Opcode::GreaterThan => 0x22,
            Opcode::LessThan => 0x23,
            Opcode::GreaterThanOrEqual => 0x24,
            Opcode::LessThanOrEqual => 0x25,
            Opcode::SetF64 => 0x30,
            Opcode::LoadF64 => 0x31,
            Opcode::StoreF64 => 0x32,
            Opcode::MoveF64 => 0x33,
            Opcode::AddF64 => 0x41,
            Opcode::SubtractF64 => 0x42,
            Opcode::MultiplyF64 => 0x43,
            Opcode::DivideF64 => 0x44,
            Opcode::EqualF64 => 0x51,
            Opcode::NotEqualF64 => 0x52,
            Opcode::GreaterThanF64 => 0x53,
            Opcode::LessThanF64 => 0x54,
            Opcode::GreaterThanOrEqualF64 => 0x55,
            Opcode::LessThanOrEqualF64 => 0x56,
            Opcode::Jump => 0x60,
            Opcode::JumpForward => 0x61,
            Opcode::JumpBackward => 0x62,
            Opcode::JumpIfEqual => 0x63,
        }
    }

    /// The instruction that `byte` encodes, if it encodes one.
    pub open spec fn decode(byte: u8) -> Option<Opcode> {
        if exists|op: Opcode| op.code() == byte {
            Some(choose|op: Opcode| op.code() == byte)
        } else {
            None
        }
    }

    /// The number of operand bytes that follow the opcode byte.
    pub open spec fn operands(self) -> nat {
        match self {
            Opcode::Halt => 0,
            Opcode::Increment | Opcode::Decrement => 1,
            Opcode::Jump | Opcode::JumpForward | Opcode::JumpBackward | Opcode::JumpIfEqual => 1,
            Opcode::SetI32 | Opcode::SetF64 => 3,
            Opcode::Add
            | Opcode::Subtract
            | Opcode::Multiply
            | Opcode::Divide
            | Opcode::And
            | Opcode::Or
            | Opcode::XOR => 3,
            Opcode::AddF64 | Opcode::SubtractF64 | Opcode::MultiplyF64 | Opcode::DivideF64 => 3,
            _ => 2,
        }
    }

    /// Whether the instruction sets the program counter itself instead of
    /// going on with the instruction that follows it.
    pub open spec fn is_jump(self) -> bool {
        self is Jump || self is JumpForward || self is JumpBackward || self is JumpIfEqual
    }

    /// Whether the instruction combines two integer registers into a third.
    pub open spec fn is_arithmetic(self) -> bool {
        self is Add || self is Subtract || self is Multiply || self is And || self is Or
            || self is XOR
    }

    /// Whether the instruction compares two integer registers.
    pub open spec fn is_comparison(self) -> bool {
        self is Equal || self is NotEqual || self is GreaterThan || self is LessThan
            || self is GreaterThanOrEqual || self is LessThanOrEqual
    }

    /// What the instruction asks of the floating-point unit, if it needs
    /// the unit.
    pub open spec fn float_op(self) -> Option<FloatOp> {
        match self {
            Opcode::SetF64 | Opcode::LoadF64 => Some(FloatOp::FromUnsigned),
            Opcode::StoreF64 => Some(FloatOp::ToUnsigned),
            Opcode::AddF64 => Some(FloatOp::Add),
            Opcode::SubtractF64 => Some(FloatOp::Subtract),
            Opcode::MultiplyF64 => Some(FloatOp::Multiply),
            Opcode::DivideF64 => Some(FloatOp::Divide),
            Opcode::EqualF64 => Some(FloatOp::Equal),
            Opcode::NotEqualF64 => Some(FloatOp::NotEqual),
            Opcode::GreaterThanF64 => Some(FloatOp::GreaterThan),
            Opcode::LessThanF64 => Some(FloatOp::LessThan),
            Opcode::GreaterThanOrEqualF64 => Some(FloatOp::GreaterThanOrEqual),
            Opcode::LessThanOrEqualF64 => Some(FloatOp::LessThanOrEqual),
            _ => None,
        }
    }
}

/// The 32 bits of `v` read as a signed integer.
pub open spec fn signed(v: u32) -> i32 {
    if v < 0x8000_0000 {
        v as i32
    } else {
        (v - 0x1_0000_0000) as i32
    }
}

/// The 32 bits of `v` read as an unsigned integer.
pub open spec fn unsigned(v: i32) -> u32 {
    if v >= 0 {
        v as u32
    } else {
        (v + 0x1_0000_0000) as u32
    }
}

/// `x` shifted left by `count` modulo 32 bits.
pub open spec fn shift_left(x: i32, count: u8) -> i32 {
    signed(unsigned(x) << (count as u32 % 32))
}

/// `x` shifted right by `count` modulo 32 bits, zeros coming in from the
/// left.
pub open spec fn shift_right(x: i32, count: u8) -> i32 {
    signed(unsigned(x) >> (count as u32 % 32))
}

/// The result of an arithmetic instruction on `x` and `y`, or `None` where
/// it does not fit into 32 bits.
pub open spec fn arithmetic(op: Opcode, x: i32, y: i32) -> Option<i32> {
    let v: int = match op {
        Opcode::Add => x + y,
        Opcode::Subtract => x - y,
        Opcode::Multiply => x * y,
        Opcode::And => (x & y) as int,
        Opcode::Or => (x | y) as int,
        _ => (x ^ y) as int,
    };
    if i32::MIN <= v <= i32::MAX {
        Some(v as i32)
    } else {
        None
    }
}

/// The outcome of a comparison instruction on `x` and `y`.
pub open spec fn comparison(op: Opcode, x: i32, y: i32) -> bool {
    match op {
        Opcode::Equal => x == y,
        Opcode::NotEqual => x != y,
        Opcode::GreaterThan => x > y,
        Opcode::LessThan => x < y,
        Opcode::GreaterThanOrEqual => x >= y,
        _ => x <= y,
    }
}

/// Whether `r` is the index of an integer register.
pub open spec fn is_register(r: u8) -> bool {
    r < REGISTERS
}

/// Whether `r` is the index of a floating-point register.
pub open spec fn is_float_register(r: u8) -> bool {
    r < FLOAT_REGISTERS
}

/// What an instruction that needs the floating-point unit asks of it on
/// `m`, whose program counter is at the first operand, or the error that
/// keeps it from asking.
pub open spec fn float_request(m: Machine, op: Opcode) -> Result<FloatRequest, VmError>
    recommends
        op.float_op() is Some,
        !m.lacks(op.operands()),
{
    let a = m.operand(0);
    let b = m.operand(1);
    let c = m.operand(2);
    let unit = op.float_op().unwrap();
    match op {
        Opcode::SetF64 => if is_float_register(a) {
            Ok(FloatRequest { op: unit, lhs: le_value(m.program, m.pc + 1, 2) as u64, rhs: 0 })
        } else {
            Err(VmError::RegisterOutOfBounds)
        },
        Opcode::LoadF64 => if !(is_float_register(a) && is_register(b)) {
            Err(VmError::RegisterOutOfBounds)
        } else if !m.in_heap(m.registers[b as int] as int, 8) {
            Err(VmError::HeapOutOfBounds)
        } else {
            Ok(
                FloatRequest {
                    op: unit,
                    lhs: le_value(m.heap, m.registers[b as int] as int, 8) as u64,
                    rhs: 0,
                },
            )
        },
        Opcode::StoreF64 => if !(is_register(a) && is_float_register(b)) {
            Err(VmError::RegisterOutOfBounds)
        } else if !m.in_heap(m.registers[a as int] as int, 8) {
            Err(VmError::HeapOutOfBounds)
        } else {
            Ok(FloatRequest { op: unit, lhs: m.float_registers[b as int], rhs: 0 })
        },
        Opcode::AddF64 | Opcode::SubtractF64 | Opcode::MultiplyF64 | Opcode::DivideF64 => if
            is_float_register(a) && is_float_register(b) && is_float_register(c) {
            Ok(
                FloatRequest {
                    op: unit,
                    lhs: m.float_registers[b as int],
                    rhs: m.float_registers[c as int],
                },
            )
        } else {
            Err(VmError::RegisterOutOfBounds)
        },
        _ => if is_float_register(a) && is_float_register(b) {
            Ok(
                FloatRequest {
                    op: unit,
                    lhs: m.float_registers[a as int],
                    rhs: m.float_registers[b as int],
                },
            )
        } else {
            Err(VmError::RegisterOutOfBounds)
        },
    }
}

/// The state after an instruction that needs the floating-point unit,
/// given the unit's `answer`. `m` has its program counter at the first
/// operand.
pub open spec fn float_deliver(m: Machine, op: Opcode, answer: u64) -> Machine
    recommends
        float_request(m, op) is Ok,
{
    let a = m.operand(0);
    let next = m.with_pc((m.pc + op.operands()) as usize);
    match op {
        Opcode::SetF64
        | Opcode::LoadF64
        | Opcode::AddF64
        | Opcode::SubtractF64
        | Opcode::MultiplyF64
        | Opcode::DivideF64 => next.with_float_register(a as int, answer),
        Opcode::StoreF64 => next.with_heap(
            le_store(m.heap, m.registers[a as int] as int, 8, answer as nat),
        ),
        _ => next.with_flag(answer != 0),
    }
}

/// What the instruction `op` does to `m`, whose program counter is at the
/// first operand: the state that it leaves and whether the machine goes
/// on, or the error that keeps it from running. `answer` is what the
/// floating-point unit has answered, if it has been asked.
pub open spec fn execute(m: Machine, op: Opcode, answer: Option<u64>) -> Result<
    (Machine, bool),
    VmError,
> {
    let a = m.operand(0);
    let b = m.operand(1);
    let c = m.operand(2);
    let next = m.with_pc((m.pc + op.operands()) as usize);
    if m.lacks(op.operands()) {
        Err(VmError::ProgramOutOfBounds)
    } else {
        match op {
            Opcode::Halt => Ok((next, false)),
            Opcode::SetI32 => if is_register(a) {
                Ok((next.with_register(a as int, le_value(m.program, m.pc + 1, 2) as i32), true))
            } else {
                Err(VmError::RegisterOutOfBounds)
            },
            Opcode::Load => if !(is_register(a) && is_register(b)) {
                Err(VmError::RegisterOutOfBounds)
            } else if !m.in_heap(m.registers[b as int] as int, 4) {
                Err(VmError::HeapOutOfBounds)
            } else {
                Ok(
                    (
                        next.with_register(
                            a as int,
                            signed(le_value(m.heap, m.registers[b as int] as int, 4) as u32),
                        ),
                        true,
                    ),
                )
            },
            Opcode::Store => if !(is_register(a) && is_register(b)) {
                Err(VmError::RegisterOutOfBounds)
            } else if !m.in_heap(m.registers[a as int] as int, 4) {
                Err(VmError::HeapOutOfBounds)
            } else {
                Ok(
                    (
                        next.with_heap(
                            le_store(
                                m.heap,
                                m.registers[a as int] as int,
                                4,
                                unsigned(m.registers[b as int]) as nat,
                            ),
                        ),
                        true,
                    ),
                )
            },
            Opcode::Move => if is_register(a) && is_register(b) {
                Ok((next.with_register(a as int, m.registers[b as int]), true))
            } else {
                Err(VmError::RegisterOutOfBounds)
            },
            Opcode::Add
            | Opcode::Subtract
            | Opcode::Multiply
            | Opcode::And
            | Opcode::Or
            | Opcode::XOR => if !(is_register(a) && is_register(b) && is_register(c)) {
                Err(VmError::RegisterOutOfBounds)
            } else {
                match arithmetic(op, m.registers[b as int], m.registers[c as int]) {
                    Some(v) => Ok((next.with_register(a as int, v), true)),
                    None => Err(VmError::ArithmeticOverflow),
                }
            },
            Opcode::Divide => {
                let x = m.registers[b as int];
                let y = m.registers[c as int];
                if !(is_register(a) && is_register(b) && is_register(c)) {
                    Err(VmError::RegisterOutOfBounds)
                } else if y == 0 {
                    Err(VmError::DivisionByZero)
                } else if quotient(x as int, y as int) > i32::MAX {
                    Err(VmError::ArithmeticOverflow)
                } else {
                    Ok(
                        (
                            next.with_register(
                                a as int,
                                quotient(x as int, y as int) as i32,
                            ).with_remainder(unsigned(remainder(x as int, y as int) as i32)),
                            true,
                        ),
                    )
                }
            },
            Opcode::ShiftLeft => if is_register(a) {
                Ok((next.with_register(a as int, shift_left(m.registers[a as int], b)), true))
            } else {
                Err(VmError::RegisterOutOfBounds)
            },
            Opcode::ShiftRight => if is_register(a) {
                Ok((next.with_register(a as int, shift_right(m.registers[a as int], b)), true))
            } else {
                Err(VmError::RegisterOutOfBounds)
            },
            Opcode::Increment => if !is_register(a) {
                Err(VmError::RegisterOutOfBounds)
            } else if m.registers[a as int] == i32::MAX {
                Err(VmError::ArithmeticOverflow)
            } else {
                Ok((next.with_register(a as int, (m.registers[a as int] + 1) as i32), true))
            },
            Opcode::Decrement => if !is_register(a) {
                Err(VmError::RegisterOutOfBounds)
            } else if m.registers[a as int] == i32::MIN {
                Err(VmError::ArithmeticOverflow)
            } else {
                Ok((next.with_register(a as int, (m.registers[a as int] - 1) as i32), true))
            },
            Opcode::Equal
            | Opcode::NotEqual
            | Opcode::GreaterThan
            | Opcode::LessThan
            | Opcode::GreaterThanOrEqual
            | Opcode::LessThanOrEqual => if is_register(a) && is_register(b) {
                Ok(
                    (
                        next.with_flag(
                            comparison(op, m.registers[a as int], m.registers[b as int]),
                        ),
                        true,
                    ),
                )
            } else {
                Err(VmError::RegisterOutOfBounds)
            },
            Opcode::MoveF64 => if is_float_register(a) && is_float_register(b) {
                Ok((next.with_float_register(a as int, m.float_registers[b as int]), true))
            } else {
                Err(VmError::RegisterOutOfBounds)
            },
            Opcode::SetF64
            | Opcode::LoadF64
            | Opcode::StoreF64
            | Opcode::AddF64
            | Opcode::SubtractF64
            | Opcode::MultiplyF64
            | Opcode::DivideF64
            | Opcode::EqualF64
            | Opcode::NotEqualF64
            | Opcode::GreaterThanF64
            | Opcode::LessThanF64
            | Opcode::GreaterThanOrEqualF64
            | Opcode::LessThanOrEqualF64 => match float_request(m, op) {
                Ok(request) => match answer {
                    Some(bits) => Ok((float_deliver(m, op, bits), true)),
                    None => Err(VmError::FloatUnit(request)),
                },
                Err(e) => Err(e),
            },
            Opcode::Jump => if !is_register(a) {
                Err(VmError::RegisterOutOfBounds)
            } else if m.registers[a as int] < 0 {
                Err(VmError::JumpOutOfBounds)
            } else {
                Ok((m.with_pc(m.registers[a as int] as usize), true))
            },
            Opcode::JumpForward => if !is_register(a) {
                Err(VmError::RegisterOutOfBounds)
            } else if m.registers[a as int] < 0 || next.pc + m.registers[a as int] > usize::MAX {
                Err(VmError::JumpOutOfBounds)
            } else {
                Ok((m.with_pc((next.pc + m.registers[a as int]) as usize), true))
            },
            Opcode::JumpBackward => if !is_register(a) {
                Err(VmError::RegisterOutOfBounds)
            } else if m.registers[a as int] < 0 || m.registers[a as int] > next.pc {
                Err(VmError::JumpOutOfBounds)
            } else {
                Ok((m.with_pc((next.pc - m.registers[a as int]) as usize), true))
            },
            Opcode::JumpIfEqual => if !m.equal_flag {
                Ok((next, true))
            } else if !is_register(a) {
                Err(VmError::RegisterOutOfBounds)
            } else if m.registers[a as int] < 0 {
                Err(VmError::JumpOutOfBounds)
            } else {
                Ok((m.with_pc(m.registers[a as int] as usize), true))
            },
        }
    }
}

/// One step of the machine: the state that it leaves and whether the
/// machine goes on, or the error that keeps the next instruction from
/// running.
///
/// A machine whose program counter is at or beyond the end of the program
/// stays as it is and does not go on. Otherwise the byte at the program
/// counter selects the instruction, the instruction counter counts it, and
/// the instruction runs on its operands.
pub open spec fn step(m: Machine, answer: Option<u64>) -> Result<(Machine, bool), VmError> {
    if m.pc >= m.program.len() {
        Ok((m, false))
    } else if m.ic == usize::MAX {
        Err(VmError::CounterOverflow)
    } else {
        match Opcode::decode(m.program[m.pc as int]) {
            Some(op) => match execute(m.with_pc((m.pc + 1) as usize), op, answer) {
                Ok((after, go)) => Ok((after.with_ic((m.ic + 1) as usize), go)),
                Err(e) => Err(e),
            },
            None => Err(VmError::UnknownOpcode),
        }
    }
}

/// The state after `n` steps that all went on without the floating-point
/// unit, or `None` where one of them stopped or failed.
pub open spec fn trace(m: Machine, n: nat) -> Option<Machine>
    decreases n,
{
    if n == 0 {
        Some(m)
    } else {
        match trace(m, (n - 1) as nat) {
            Some(before) => match step(before, None) {
                Ok((after, true)) => Some(after),
                _ => None,
            },
            None => None,
        }
    }
}

/// What a handler leaves behind: the outcome of the instruction, and on
/// failure a machine that differs from the one before at most in its
/// program counter.
spec fn handled(
    before: Machine,
    op: Opcode,
    answer: Option<u64>,
    after: Machine,
    result: Result<bool, VmError>,
) -> bool {
    match execute(before, op, answer) {
        Ok((m, go)) => result == Ok::<bool, VmError>(go) && after == m,
        Err(e) => result == Err::<bool, VmError>(e) && after == before.with_pc(after.pc),
    }
}

/// Reads 32 bits as a signed integer.
fn to_signed(v: u32) -> (r: i32)
    ensures
        r == signed(v),
{
    if v < 0x8000_0000 {
        v as i32
    } else {
        (v - 0x8000_0000) as i32 + i32::MIN
    }
}

/// Reads 32 bits as an unsigned integer.
fn to_unsigned(v: i32) -> (r: u32)
    ensures
        r == unsigned(v),
{
    if v >= 0 {
        v as u32
    } else {
        (v - i32::MIN) as u32 + 0x8000_0000
    }
}

/// The heap address that a register value stands for, if `width` bytes
/// from it on lie within the heap.
fn heap_pointer(vm: &VM, value: i32, width: usize) -> (result: Result<usize, VmError>)
    ensures
        match result {
            Ok(pointer) => pointer == value && vm@.in_heap(value as int, width as nat),
            Err(e) => e == VmError::HeapOutOfBounds && !vm@.in_heap(value as int, width as nat),
        },
{
    if value >= 0 && vm.heap_holds(value as usize, width) {
        Ok(value as usize)
    } else {
        Err(VmError::HeapOutOfBounds)
    }
}

/// The offset that a register value stands for as the target of a jump.
fn jump_target(value: i32) -> (result: Result<usize, VmError>)
    ensures
        match result {
            Ok(target) => target == value,
            Err(e) => e == VmError::JumpOutOfBounds && value < 0,
        },
{
    if value >= 0 {
        Ok(value as usize)
    } else {
        Err(VmError::JumpOutOfBounds)
    }
}

/// The quotient and the remainder of `x` by `y`, or `None` where the
/// quotient does not fit into 32 bits.
fn div_rem(x: i32, y: i32) -> (result: Option<(i32, i32)>)
    requires
        y != 0,
    ensures
        match result {
            Some((q, r)) => q == quotient(x as int, y as int) && r == remainder(
                x as int,
                y as int,
            ),
            None => quotient(x as int, y as int) > i32::MAX,
        },
{
    proof {
        lemma_division_by_signs(x as int, y as int);
        lemma_quotient_magnitude(x as int, y as int);
        lemma_remainder_sign(x as int, y as int);
    }
    match (x.checked_div(y), x.checked_rem(y)) {
        (Some(q), Some(r)) => Some((q, r)),
        _ => None,
    }
}

fn halt(vm: &mut VM) -> (result: Result<bool, VmError>)
    ensures
        handled(old(vm)@, Opcode::Halt, None, final(vm)@, result),
{
    Ok(false)
}

fn set(vm: &mut VM) -> (result: Result<bool, VmError>)
    ensures
        handled(old(vm)@, Opcode::SetI32, None, final(vm)@, result),
{
    let target = vm.read_u8()?;
    let value = vm.read_u16()?;
    if target as usize >= REGISTERS {
        return Err(VmError::RegisterOutOfBounds);
    }
    vm.registers[target as usize] = value as i32;
    Ok(true)
}

fn load(vm: &mut VM) -> (result: Result<bool, VmError>)
    ensures
        handled(old(vm)@, Opcode::Load, None, final(vm)@, result),
{
    let target = vm.read_u8()?;
    let source = vm.read_u8()?;
    if target as usize >= REGISTERS || source as usize >= REGISTERS {
        return Err(VmError::RegisterOutOfBounds);
    }
    let pointer = heap_pointer(vm, vm.registers[source as usize], 4)?;
    let value = vm.fetch_heap_u32(pointer)?;
    vm.registers[target as usize] = to_signed(value);
    Ok(true)
}

fn store(vm: &mut VM) -> (result: Result<bool, VmError>)
    ensures
        handled(old(vm)@, Opcode::Store, None, final(vm)@, result),
{
    let target = vm.read_u8()?;
    let source = vm.read_u8()?;
    if target as usize >= REGISTERS || source as usize >= REGISTERS {
        return Err(VmError::RegisterOutOfBounds);
    }
    let pointer = heap_pointer(vm, vm.registers[target as usize], 4)?;
    vm.set_heap_u32(pointer, to_unsigned(vm.registers[source as usize]))?;
    Ok(true)
}

fn move_register(vm: &mut VM) -> (result: Result<bool, VmError>)
    ensures
        handled(old(vm)@, Opcode::Move, None, final(vm)@, result),
{
    let target = vm.read_u8()?;
    let source = vm.read_u8()?;
    if target as usize >= REGISTERS || source as usize >= REGISTERS {
        return Err(VmError::RegisterOutOfBounds);
    }
    vm.registers[target as usize] = vm.registers[source as usize];
    Ok(true)
}

fn move_float(vm: &mut VM) -> (result: Result<bool, VmError>)
    ensures
        handled(old(vm)@, Opcode::MoveF64, None, final(vm)@, result),
{
    let target = vm.read_u8()?;
    let source = vm.read_u8()?;
    if target as usize >= FLOAT_REGISTERS || source as usize >= FLOAT_REGISTERS {
        return Err(VmError::RegisterOutOfBounds);
    }
    vm.float_registers[target as usize] = vm.float_registers[source as usize];
    Ok(true)
}

fn math(vm: &mut VM, op: Opcode) -> (result: Result<bool, VmError>)
    requires
        op.is_arithmetic(),
    ensures
        handled(old(vm)@, op, None, final(vm)@, result),
{
    let target = vm.read_u8()?;
    let left = vm.read_u8()?;
    let right = vm.read_u8()?;
    if target as usize >= REGISTERS || left as usize >= REGISTERS || right as usize >= REGISTERS {
        return Err(VmError::RegisterOutOfBounds);
    }
    let x = vm.registers[left as usize];
    let y = vm.registers[right as usize];
    let value = match op {
        Opcode::Add => x.checked_add(y),
        Opcode::Subtract => x.checked_sub(y),
        Opcode::Multiply => x.checked_mul(y),
        Opcode::And => Some(x & y),
        Opcode::Or => Some(x | y),
        _ => Some(x ^ y),
    };
    match value {
        Some(v) => {
            vm.registers[target as usize] = v;
            Ok(true)
        },
        None => Err(VmError::ArithmeticOverflow),
    }
}

fn divide(vm: &mut VM) -> (result: Result<bool, VmError>)
    ensures
        handled(old(vm)@, Opcode::Divide, None, final(vm)@, result),
{
    let target = vm.read_u8()?;
    let left = vm.read_u8()?;
    let right = vm.read_u8()?;
    if target as usize >= REGISTERS || left as usize >= REGISTERS || right as usize >= REGISTERS {
        return Err(VmError::RegisterOutOfBounds);
    }
    let x = vm.registers[left as usize];
    let y = vm.registers[right as usize];
    if y == 0 {
        return Err(VmError::DivisionByZero);
    }
    match div_rem(x, y) {
        Some((q, r)) => {
            vm.registers[target as usize] = q;
            vm.remainder = to_unsigned(r);
            Ok(true)
        },
        None => Err(VmError::ArithmeticOverflow),
    }
}

fn shift(vm: &mut VM, op: Opcode) -> (result: Result<bool, VmError>)
    requires
        op is ShiftLeft || op is ShiftRight,
    ensures
        handled(old(vm)@, op, None, final(vm)@, result),
{
    let target = vm.read_u8()?;
    let count = vm.read_u8()?;
    if target as usize >= REGISTERS {
        return Err(VmError::RegisterOutOfBounds);
    }
    let bits = to_unsigned(vm.registers[target as usize]);
    let shifted = match op {
        Opcode::ShiftLeft => bits.wrapping_shl(count as u32),
        _ => bits.wrapping_shr(count as u32),
    };
    vm.registers[target as usize] = to_signed(shifted);
    Ok(true)
}

fn count(vm: &mut VM, op: Opcode) -> (result: Result<bool, VmError>)
    requires
        op is Increment || op is Decrement,
    ensures
        handled(old(vm)@, op, None, final(vm)@, result),
{
    let target = vm.read_u8()?;
    if target as usize >= REGISTERS {
        return Err(VmError::RegisterOutOfBounds);
    }
    let x = vm.registers[target as usize];
    let value = match op {
        Opcode::Increment => x.checked_add(1),
        _ => x.checked_sub(1),
    };
    match value {
        Some(v) => {
            vm.registers[target as usize] = v;
            Ok(true)
        },
        None => Err(VmError::ArithmeticOverflow),
    }
}

fn condition(vm: &mut VM, op: Opcode) -> (result: Result<bool, VmError>)
    requires
        op.is_comparison(),
    ensures
        handled(old(vm)@, op, None, final(vm)@, result),
{
    let left = vm.read_u8()?;
    let right = vm.read_u8()?;
    if left as usize >= REGISTERS || right as usize >= REGISTERS {
        return Err(VmError::RegisterOutOfBounds);
    }
    let x = vm.registers[left as usize];
    let y = vm.registers[right as usize];
    vm.equal_flag = match op {
        Opcode::Equal => x == y,
        Opcode::NotEqual => x != y,
        Opcode::GreaterThan => x > y,
        Opcode::LessThan => x < y,
        Opcode::GreaterThanOrEqual => x >= y,
        _ => x <= y,
    };
    Ok(true)
}

/// Where the answer of the floating-point unit goes.
enum Destination {
    Register(u8),
    Flag,
    Heap(usize),
}

fn float_unit(vm: &mut VM, op: Opcode, answer: Option<u64>) -> (result: Result<bool, VmError>)
    requires
        op.float_op() is Some,
    ensures
        handled(old(vm)@, op, answer, final(vm)@, result),
{
    let unit = match op.unit() {
        Some(unit) => unit,
        None => return Err(VmError::UnknownOpcode),
    };
    let first = vm.read_u8()?;
    let (request, destination) = match op {
        Opcode::SetF64 => {
            let value = vm.read_u16()?;
            if first as usize >= FLOAT_REGISTERS {
                return Err(VmError::RegisterOutOfBounds);
            }
            (FloatRequest { op: unit, lhs: value as u64, rhs: 0 }, Destination::Register(first))
        },
        Opcode::LoadF64 => {
            let source = vm.read_u8()?;
            if first as usize >= FLOAT_REGISTERS || source as usize >= REGISTERS {
                return Err(VmError::RegisterOutOfBounds);
            }
            let pointer = heap_pointer(vm, vm.registers[source as usize], 8)?;
            let value = vm.fetch_heap_u64(pointer)?;
            (FloatRequest { op: unit, lhs: value, rhs: 0 }, Destination::Register(first))
        },
        Opcode::StoreF64 => {
            let source = vm.read_u8()?;
            if first as usize >= REGISTERS || source as usize >= FLOAT_REGISTERS {
                return Err(VmError::RegisterOutOfBounds);
            }
            let pointer = heap_pointer(vm, vm.registers[first as usize], 8)?;
            (
                FloatRequest { op: unit, lhs: vm.float_registers[source as usize], rhs: 0 },
                Destination::Heap(pointer),
            )
        },
        Opcode::AddF64 | Opcode::SubtractF64 | Opcode::MultiplyF64 | Opcode::DivideF64 => {
            let left = vm.read_u8()?;
            let right = vm.read_u8()?;
            if first as usize >= FLOAT_REGISTERS || left as usize >= FLOAT_REGISTERS
                || right as usize >= FLOAT_REGISTERS {
                return Err(VmError::RegisterOutOfBounds);
            }
            (
                FloatRequest {
                    op: unit,
                    lhs: vm.float_registers[left as usize],
                    rhs: vm.float_registers[right as usize],
                },
                Destination::Register(first),
            )
        },
        _ => {
            let right = vm.read_u8()?;
            if first as usize >= FLOAT_REGISTERS || right as usize >= FLOAT_REGISTERS {
                return Err(VmError::RegisterOutOfBounds);
            }
            (
                FloatRequest {
                    op: unit,
                    lhs: vm.float_registers[first as usize],
                    rhs: vm.float_registers[right as usize],
                },
                Destination::Flag,
            )
        },
    };
    match answer {
        Some(bits) => {
            match destination {
                Destination::Register(target) => {
                    vm.float_registers[target as usize] = bits;
                },
                Destination::Flag => {
                    vm.equal_flag = bits != 0;
                },
                Destination::Heap(pointer) => {
                    vm.set_heap_u64(pointer, bits)?;
                },
            }
            Ok(true)
        },
        None => Err(VmError::FloatUnit(request)),
    }
}

fn jump(vm: &mut VM) -> (result: Result<bool, VmError>)
    ensures
        handled(old(vm)@, Opcode::Jump, None, final(vm)@, result),
{
    let source = vm.read_u8()?;
    if source as usize >= REGISTERS {
        return Err(VmError::RegisterOutOfBounds);
    }
    vm.pc = jump_target(vm.registers[source as usize])?;
    Ok(true)
}

fn jump_forward(vm: &mut VM) -> (result: Result<bool, VmError>)
    ensures
        handled(old(vm)@, Opcode::JumpForward, None, final(vm)@, result),
{
    let source = vm.read_u8()?;
    if source as usize >= REGISTERS {
        return Err(VmError::RegisterOutOfBounds);
    }
    let distance = jump_target(vm.registers[source as usize])?;
    match vm.pc.checked_add(distance) {
        Some(target) => {
            vm.pc = target;
            Ok(true)
        },
        None => Err(VmError::JumpOutOfBounds),
    }
}

fn jump_backward(vm: &mut VM) -> (result: Result<bool, VmError>)
    ensures
        handled(old(vm)@, Opcode::JumpBackward, None, final(vm)@, result),
{
    let source = vm.read_u8()?;
    if source as usize >= REGISTERS {
        return Err(VmError::RegisterOutOfBounds);
    }
    let distance = jump_target(vm.registers[source as usize])?;
    match vm.pc.checked_sub(distance) {
        Some(target) => {
            vm.pc = target;
            Ok(true)
        },
        None => Err(VmError::JumpOutOfBounds),
    }
}

fn jump_if_equal(vm: &mut VM) -> (result: Result<bool, VmError>)
    ensures
        handled(old(vm)@, Opcode::JumpIfEqual, None, final(vm)@, result),
{
    let source = vm.read_u8()?;
    if vm.equal_flag {
        if source as usize >= REGISTERS {
            return Err(VmError::RegisterOutOfBounds);
        }
        vm.pc = jump_target(vm.registers[source as usize])?;
    }
    Ok(true)
}

impl Opcode {
    /// The byte that encodes the instruction.
    pub fn byte(&self) -> (byte: u8)
        ensures
            byte == self.code(),
    {
        match self {
            Opcode::Halt => 0x00,
            Opcode::SetI32 => 0x01,
            Opcode::Load => 0x02,
            Opcode::Store => 0x03,
            Opcode::Move => 0x04,
            Opcode::Add => 0x10,
            Opcode::Subtract => 0x11,
            Opcode::Multiply => 0x12,
            Opcode::Divide => 0x13,
            Opcode::And => 0x14,
            Opcode::Or => 0x15,
            Opcode::XOR => 0x16,
            Opcode::ShiftLeft => 0x17,
            Opcode::ShiftRight => 0x18,
            Opcode::Increment => 0x19,
            Opcode::Decrement => 0x1A,
            Opcode::Equal => 0x20,
            Opcode::NotEqual => 0x21,
            Opcode::GreaterThan => 0x22,
            Opcode::LessThan => 0x23,
            Opcode::GreaterThanOrEqual => 0x24,
            Opcode::LessThanOrEqual => 0x25,
            Opcode::SetF64 => 0x30,
            Opcode::LoadF64 => 0x31,
            Opcode::StoreF64 => 0x32,
            Opcode::MoveF64 => 0x33,
            Opcode::AddF64 => 0x41,
            Opcode::SubtractF64 => 0x42,
            Opcode::MultiplyF64 => 0x43,
            Opcode::DivideF64 => 0x44,
            Opcode::EqualF64 => 0x51,
            Opcode::NotEqualF64 => 0x52,
            Opcode::GreaterThanF64 => 0x53,
            Opcode::LessThanF64 => 0x54,
            Opcode::GreaterThanOrEqualF64 => 0x55,
            Opcode::LessThanOrEqualF64 => 0x56,
            Opcode::Jump => 0x60,
            Opcode::JumpForward => 0x61,
            Opcode::JumpBackward => 0x62,
            Opcode::JumpIfEqual => 0x63,
        }
    }

    /// The instruction that `byte` encodes, or `None` where it encodes
    /// none.
    pub fn from_byte(byte: u8) -> (result: Option<Opcode>)
        ensures
            result == Opcode::decode(byte),
    {
        let result = match byte {
            0x00 => Some(Opcode::Halt),
            0x01 => Some(Opcode::SetI32),
            0x02 => Some(Opcode::Load),
            0x03 => Some(Opcode::Store),
            0x04 => Some(Opcode::Move),
            0x10 => Some(Opcode::Add),
            0x11 => Some(Opcode::Subtract),
            0x12 => Some(Opcode::Multiply),
            0x13 => Some(Opcode::Divide),
            0x14 => Some(Opcode::And),
            0x15 => Some(Opcode::Or),
            0x16 => Some(Opcode::XOR),
            0x17 => Some(Opcode::ShiftLeft),
            0x18 => Some(Opcode::ShiftRight),
            0x19 => Some(Opcode::Increment),
            0x1A => Some(Opcode::Decrement),
            0x20 => Some(Opcode::Equal),
            0x21 => Some(Opcode::NotEqual),
            0x22 => Some(Opcode::GreaterThan),
            0x23 => Some(Opcode::LessThan),
            0x24 => Some(Opcode::GreaterThanOrEqual),
            0x25 => Some(Opcode::LessThanOrEqual),
            0x30 => Some(Opcode::SetF64),
            0x31 => Some(Opcode::LoadF64),
            0x32 => Some(Opcode::StoreF64),
            0x33 => Some(Opcode::MoveF64),
            0x41 => Some(Opcode::AddF64),
            0x42 => Some(Opcode::SubtractF64),
            0x43 => Some(Opcode::MultiplyF64),
            0x44 => Some(Opcode::DivideF64),
            0x51 => Some(Opcode::EqualF64),
            0x52 => Some(Opcode::NotEqualF64),
            0x53 => Some(Opcode::GreaterThanF64),
            0x54 => Some(Opcode::LessThanF64),
            0x55 => Some(Opcode::GreaterThanOrEqualF64),
            0x56 => Some(Opcode::LessThanOrEqualF64),
            0x60 => Some(Opcode::Jump),
            0x61 => Some(Opcode::JumpForward),
            0x62 => Some(Opcode::JumpBackward),
            0x63 => Some(Opcode::JumpIfEqual),
            _ => None,
        };
        proof {
            match result {
                Some(op) => {
                    assert(op.code() == byte);
                },
                None => {
                    assert forall|op: Opcode| op.code() != byte by {}
                },
            }
        }
        result
    }

    /// The number of operand bytes that follow the opcode byte.
    pub fn arity(&self) -> (arity: usize)
        ensures
            arity == self.operands(),
    {
        match self {
            Opcode::Halt => 0,
            Opcode::Increment | Opcode::Decrement => 1,
            Opcode::Jump | Opcode::JumpForward | Opcode::JumpBackward | Opcode::JumpIfEqual => 1,
            Opcode::SetI32 | Opcode::SetF64 => 3,
            Opcode::Add
            | Opcode::Subtract
            | Opcode::Multiply
            | Opcode::Divide
            | Opcode::And
            | Opcode::Or
            | Opcode::XOR => 3,
            Opcode::AddF64 | Opcode::SubtractF64 | Opcode::MultiplyF64 | Opcode::DivideF64 => 3,
            _ => 2,
        }
    }

    /// What the instruction asks of the floating-point unit, or `None`
    /// where it does not need the unit.
    pub fn unit(&self) -> (unit: Option<FloatOp>)
        ensures
            unit == self.float_op(),
    {
        match self {
            Opcode::SetF64 | Opcode::LoadF64 => Some(FloatOp::FromUnsigned),
            Opcode::StoreF64 => Some(FloatOp::ToUnsigned),
            Opcode::AddF64 => Some(FloatOp::Add),
            Opcode::SubtractF64 => Some(FloatOp::Subtract),
            Opcode::MultiplyF64 => Some(FloatOp::Multiply),
            Opcode::DivideF64 => Some(FloatOp::Divide),
            Opcode::EqualF64 => Some(FloatOp::Equal),
            Opcode::NotEqualF64 => Some(FloatOp::NotEqual),
            Opcode::GreaterThanF64 => Some(FloatOp::GreaterThan),
            Opcode::LessThanF64 => Some(FloatOp::LessThan),
            Opcode::GreaterThanOrEqualF64 => Some(FloatOp::GreaterThanOrEqual),
            Opcode::LessThanOrEqualF64 => Some(FloatOp::LessThanOrEqual),
            _ => None,
        }
    }

    /// Runs the instruction that the byte `v` encodes on a machine whose
    /// program counter is at the instruction's first operand.
    ///
    /// Returns whether the machine goes on. `answer` is what the
    /// floating-point unit has answered, if it has been asked; without an
    /// answer an instruction that needs the unit fails with the request.
    /// Fails with `UnknownOpcode` where `v` encodes no instruction. On
    /// any failure the machine stays as it was.
    pub fn call(vm: &mut VM, v: u8, answer: Option<u64>) -> (result: Result<bool, VmError>)
        ensures
            match Opcode::decode(v) {
                Some(op) => match execute(old(vm)@, op, answer) {
                    Ok((after, go)) => result == Ok::<bool, VmError>(go) && final(vm)@ == after,
                    Err(e) => result == Err::<bool, VmError>(e) && final(vm)@ == old(vm)@,
                },
                None => result == Err::<bool, VmError>(VmError::UnknownOpcode) && final(vm)@
                    == old(vm)@,
            },
    {
        let start = vm.pc;
        let op = match Opcode::from_byte(v) {
            Some(op) => op,
            None => return Err(VmError::UnknownOpcode),
        };
        let result = match op {
            Opcode::Halt => halt(vm),
            Opcode::SetI32 => set(vm),
            Opcode::Load => load(vm),
            Opcode::Store => store(vm),
            Opcode::Move => move_register(vm),
            Opcode::Add
            | Opcode::Subtract
            | Opcode::Multiply
            | Opcode::And
            | Opcode::Or
            | Opcode::XOR => math(vm, op),
            Opcode::Divide => divide(vm),
            Opcode::ShiftLeft | Opcode::ShiftRight => shift(vm, op),
            Opcode::Increment | Opcode::Decrement => count(vm, op),
            Opcode::Equal
            | Opcode::NotEqual
            | Opcode::GreaterThan
            | Opcode::LessThan
            | Opcode::GreaterThanOrEqual
            | Opcode::LessThanOrEqual => condition(vm, op),
            Opcode::MoveF64 => move_float(vm),
            Opcode::Jump => jump(vm),
            Opcode::JumpForward => jump_forward(vm),
            Opcode::JumpBackward => jump_backward(vm),
            Opcode::JumpIfEqual => jump_if_equal(vm),
            _ => float_unit(vm, op, answer),
        };
        if result.is_err() {
            vm.pc = start;
        }
        result
    }
}

} // verus!
