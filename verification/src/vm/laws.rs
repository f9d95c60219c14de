//! What holds of every machine and every program.

use vstd::prelude::*;
use crate::bytes::{
    capacity, le_store, le_value, lemma_capacity_of_widths, lemma_le_store_then_value,
};
use crate::vm::instructions::{
    comparison, is_register, shift_left, shift_right, signed, step, trace, unsigned, Opcode,
};
use crate::vm::{ran, Machine, VmError};

verus! {

/// No two instructions share a code: the code of an instruction decodes to
/// that instruction, and a byte decodes to an instruction only if it is
/// the instruction's code.
pub proof fn lemma_one_instruction_per_code(op: Opcode, byte: u8)
    ensures
        Opcode::decode(op.code()) == Some(op),
        Opcode::decode(byte) == Some(op) <==> op.code() == byte,
{
    assert forall|other: Opcode| other.code() == op.code() implies other == op by {}
}

/// A step on a machine whose program counter is at or beyond the end of
/// the program executes nothing: the machine stays as it is and stops.
pub proof fn lemma_exhausted_program_stops(m: Machine, answer: Option<u64>)
    requires
        m.pc >= m.program.len(),
    ensures
        step(m, answer) == Ok::<(Machine, bool), VmError>((m, false)),
{
}

/// A step that succeeds within the program executes exactly one
/// instruction: the instruction counter grows by one, the program stays as
/// it is, and the registers keep their number.
pub proof fn lemma_step_counts_one_instruction(m: Machine, answer: Option<u64>)
    requires
        m.well_formed(),
        m.pc < m.program.len(),
        step(m, answer) is Ok,
    ensures
        step(m, answer).unwrap().0.ic == m.ic + 1,
        step(m, answer).unwrap().0.program == m.program,
        step(m, answer).unwrap().0.well_formed(),
{
}

/// An instruction consumes its opcode byte and exactly its operands: after
/// a step that succeeds on an instruction that does not jump, the program
/// counter has advanced by one more than the number of operands. A
/// `JumpIfEqual` that finds the flag clear does not jump.
pub proof fn lemma_step_consumes_operands(m: Machine, answer: Option<u64>, op: Opcode)
    requires
        m.well_formed(),
        m.pc < m.program.len(),
        m.program[m.pc as int] == op.code(),
        step(m, answer) is Ok,
        !op.is_jump() || (op is JumpIfEqual && !m.equal_flag),
    ensures
        step(m, answer).unwrap().0.pc == m.pc + 1 + op.operands(),
        m.pc + 1 + op.operands() <= m.program.len(),
{
    lemma_one_instruction_per_code(op, op.code());
}

/// Only `Halt` and the end of the program stop the machine: every other
/// instruction that succeeds lets it go on.
pub proof fn lemma_only_halt_stops(m: Machine, answer: Option<u64>, op: Opcode)
    requires
        m.pc < m.program.len(),
        m.program[m.pc as int] == op.code(),
        step(m, answer) is Ok,
    ensures
        step(m, answer).unwrap().1 == !(op is Halt),
{
    lemma_one_instruction_per_code(op, op.code());
}

/// `SetI32` sets its register to the immediate, the first byte of which is
/// the less significant, and changes nothing else but the counters.
pub proof fn lemma_set_reads_immediate(m: Machine, answer: Option<u64>, r: u8, lo: u8, hi: u8)
    requires
        m.well_formed(),
        m.ic < usize::MAX,
        m.pc + 4 <= m.program.len(),
        m.program[m.pc as int] == Opcode::SetI32.code(),
        m.program[m.pc + 1] == r,
        m.program[m.pc + 2] == lo,
        m.program[m.pc + 3] == hi,
        is_register(r),
    ensures
        step(m, answer) == Ok::<(Machine, bool), VmError>(
            (
                Machine {
                    ic: (m.ic + 1) as usize,
                    pc: (m.pc + 4) as usize,
                    registers: m.registers.update(r as int, (lo + 256 * hi) as i32),
                    ..m
                },
                true,
            ),
        ),
{
    lemma_one_instruction_per_code(Opcode::SetI32, Opcode::SetI32.code());
    reveal_with_fuel(le_value, 3);
}

/// A shift by the width of a register leaves the register as it is, and so
/// does a shift by any multiple of it: the count wraps.
pub proof fn lemma_shift_wraps(x: i32, count: u8)
    ensures
        shift_left(x, 32) == x,
        shift_right(x, 32) == x,
        count <= 223 ==> shift_left(x, (count + 32) as u8) == shift_left(x, count),
        count <= 223 ==> shift_right(x, (count + 32) as u8) == shift_right(x, count),
{
    let bits = unsigned(x);
    assert(bits << 0u32 == bits) by (bit_vector);
    assert(bits >> 0u32 == bits) by (bit_vector);
    assert(signed(bits) == x);
}

/// The six comparisons are three pairs of opposites, and exchanging the
/// operands exchanges "greater" and "less".
pub proof fn lemma_comparisons_agree(x: i32, y: i32)
    ensures
        comparison(Opcode::Equal, x, y) == comparison(Opcode::Equal, y, x),
        comparison(Opcode::NotEqual, x, y) == !comparison(Opcode::Equal, x, y),
        comparison(Opcode::LessThanOrEqual, x, y) == !comparison(Opcode::GreaterThan, x, y),
        comparison(Opcode::GreaterThanOrEqual, x, y) == !comparison(Opcode::LessThan, x, y),
        comparison(Opcode::GreaterThan, x, y) == comparison(Opcode::LessThan, y, x),
{
}

/// `JumpIfEqual` with the flag clear goes on behind its operand and
/// changes nothing but the counters; with the flag set it continues at
/// the offset that its register holds.
pub proof fn lemma_jump_if_equal(m: Machine, answer: Option<u64>, r: u8)
    requires
        m.well_formed(),
        m.ic < usize::MAX,
        m.pc + 2 <= m.program.len(),
        m.program[m.pc as int] == Opcode::JumpIfEqual.code(),
        m.program[m.pc + 1] == r,
    ensures
        !m.equal_flag ==> step(m, answer) == Ok::<(Machine, bool), VmError>(
            (Machine { ic: (m.ic + 1) as usize, pc: (m.pc + 2) as usize, ..m }, true),
        ),
        m.equal_flag && is_register(r) && m.registers[r as int] >= 0 ==> step(m, answer) == Ok::<
            (Machine, bool),
            VmError,
        >((Machine { ic: (m.ic + 1) as usize, pc: m.registers[r as int] as usize, ..m }, true)),
{
    lemma_one_instruction_per_code(Opcode::JumpIfEqual, Opcode::JumpIfEqual.code());
}

/// An instruction that stops for the floating-point unit runs once the
/// unit has answered, whatever the answer is, and an instruction that
/// does not need the unit runs the same with an answer and without.
pub proof fn lemma_answer_is_all_that_lacks(m: Machine, answer: u64)
    ensures
        step(m, None) matches Err(VmError::FloatUnit(_)) ==> step(m, Some(answer)) is Ok,
        !(step(m, None) matches Err(VmError::FloatUnit(_))) ==> step(m, Some(answer)) == step(
            m,
            None,
        ),
{
}

/// A run stops at one step only, so what [`ran`] says of a run says what
/// it leaves and returns.
pub proof fn lemma_run_is_determined(
    before: Machine,
    n1: nat,
    after1: Machine,
    result1: Result<(), VmError>,
    n2: nat,
    after2: Machine,
    result2: Result<(), VmError>,
)
    requires
        ran(before, n1, after1, result1),
        ran(before, n2, after2, result2),
    ensures
        n1 == n2,
        after1 == after2,
        result1 == result2,
{
    if n1 < n2 {
        lemma_trace_goes_on(before, n1, n2);
    } else if n2 < n1 {
        lemma_trace_goes_on(before, n2, n1);
    }
}

/// Where the trace reaches step `late`, every earlier step went on.
proof fn lemma_trace_goes_on(m: Machine, early: nat, late: nat)
    requires
        early < late,
        trace(m, late) is Some,
    ensures
        trace(m, early) is Some,
        step(trace(m, early).unwrap(), None) matches Ok((_, true)),
    decreases late,
{
    if early + 1 < late {
        lemma_trace_goes_on(m, early, (late - 1) as nat);
    }
}

/// Writing an integer of `width` bytes to the heap and reading it back at
/// the same offset and width gives the integer, and the write leaves
/// every byte outside its window, and the size of the heap, as they were.
pub proof fn lemma_heap_round_trip(heap: Seq<u8>, pointer: int, width: nat, value: nat)
    requires
        0 <= pointer,
        pointer + width <= heap.len(),
        value < capacity(width),
    ensures
        le_value(le_store(heap, pointer, width, value), pointer, width) == value,
        le_store(heap, pointer, width, value).len() == heap.len(),
        forall|i: int|
            0 <= i < heap.len() && !(pointer <= i < pointer + width) ==> le_store(
                heap,
                pointer,
                width,
                value,
            )[i] == heap[i],
{
    lemma_le_store_then_value(heap, pointer, width, value);
}

/// Every `u16`, `u32` and `u64` fits its width, so each of them round-trips
/// through the heap.
pub proof fn lemma_heap_round_trip_of_words(heap: Seq<u8>, pointer: int, a: u16, b: u32, c: u64)
    requires
        0 <= pointer,
    ensures
        pointer + 2 <= heap.len() ==> le_value(le_store(heap, pointer, 2, a as nat), pointer, 2)
            == a,
        pointer + 4 <= heap.len() ==> le_value(le_store(heap, pointer, 4, b as nat), pointer, 4)
            == b,
        pointer + 8 <= heap.len() ==> le_value(le_store(heap, pointer, 8, c as nat), pointer, 8)
            == c,
{
    lemma_capacity_of_widths();
    if pointer + 2 <= heap.len() {
        lemma_le_store_then_value(heap, pointer, 2, a as nat);
    }
    if pointer + 4 <= heap.len() {
        lemma_le_store_then_value(heap, pointer, 4, b as nat);
    }
    if pointer + 8 <= heap.len() {
        lemma_le_store_then_value(heap, pointer, 8, c as nat);
    }
}

/// `Store` and then `Load` through the same pointer register give back the
/// stored register: the 32 bits survive the heap.
pub proof fn lemma_store_then_load(heap: Seq<u8>, pointer: int, x: i32)
    requires
        0 <= pointer,
        pointer + 4 <= heap.len(),
    ensures
        signed(le_value(le_store(heap, pointer, 4, unsigned(x) as nat), pointer, 4) as u32) == x,
{
    lemma_capacity_of_widths();
    lemma_le_store_then_value(heap, pointer, 4, unsigned(x) as nat);
}

} // verus!
