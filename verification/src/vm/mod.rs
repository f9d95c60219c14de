//! The register machine.
//!
//! A [`VM`] executes a flat stream of instruction bytes against sixteen
//! integer registers, thirty-two floating-point registers, a comparison
//! flag, a remainder register and a byte-addressable heap.
//!
//! # Wire format
//!
//! An instruction is one opcode byte followed by the operand bytes that
//! the opcode calls for; [`instructions::Opcode`] lists the codes and the
//! operands. A two-byte immediate is stored least significant byte first,
//! and so is every integer on the heap. The destination of an instruction
//! is its first operand.
//!
//! # Failures
//!
//! An instruction either runs as a whole or not at all: whenever a
//! function of this module returns an error, the machine is as it was
//! before the call.
//!
//! # Floating point
//!
//! The machine holds a floating-point register as the bits of a double
//! and leaves the arithmetic to its driver. Reaching an instruction that
//! needs some, [`VM::run_once`] and [`VM::run`] stop with
//! [`VmError::FloatUnit`], which carries the request; the driver computes
//! the answer and hands it to [`VM::resume`].

pub mod float;
pub mod instructions;
pub mod laws;
pub mod names;

use vstd::prelude::*;
use crate::bytes::{le_store, le_value, load_le, store_le};
use crate::vm::float::FloatRequest;
use crate::vm::instructions::{step, trace, Opcode};

verus! {

/// The number of integer registers.
pub const REGISTERS: usize = 16;

/// The number of floating-point registers.
pub const FLOAT_REGISTERS: usize = 32;

/// Why the machine did not execute an instruction.
#[derive(Debug, Clone, Copy, PartialEq, Eq, Structural)]
pub enum VmError {
    /// The byte at the program counter is the code of no instruction.
    UnknownOpcode,
    /// A byte was wanted from beyond the end of the program: the program
    /// counter is out of range, or an instruction lacks operands.
    ProgramOutOfBounds,
    /// An operand names a register that the machine does not have.
    RegisterOutOfBounds,
    /// A heap access does not lie within the heap.
    HeapOutOfBounds,
    /// A jump leads to a negative offset or to one that the program counter
    /// cannot hold.
    JumpOutOfBounds,
    /// The divisor of an integer division is zero.
    DivisionByZero,
    /// The result of an integer instruction does not fit into 32 bits.
    ArithmeticOverflow,
    /// The instruction counter cannot count one more instruction.
    CounterOverflow,
    /// The instruction needs the floating-point unit. This is no fault of
    /// the program: answer the request through [`VM::resume`].
    FloatUnit(FloatRequest),
}

/// The machine: its counters, registers, flag, heap and program.
pub struct VM {
    /// The number of instructions executed so far.
    pub ic: usize,
    /// The offset in `program` of the next byte to fetch.
    pub pc: usize,
    /// The instruction bytes.
    pub program: Vec<u8>,
    /// The integer registers.
    pub registers: [i32; 16],
    /// The remainder of the latest integer division.
    pub remainder: u32,
    /// The floating-point registers, each the bits of a double.
    pub float_registers: [u64; 32],
    /// The outcome of the latest comparison.
    pub equal_flag: bool,
    /// The heap. The machine never grows it: the driver sizes it.
    pub heap: Vec<u8>,
}

/// The mathematical state of a machine.
pub struct Machine {
    pub ic: usize,
    pub pc: usize,
    pub program: Seq<u8>,
    pub registers: Seq<i32>,
    pub remainder: u32,
    pub float_registers: Seq<u64>,
    pub equal_flag: bool,
    pub heap: Seq<u8>,
}

impl Machine {
    /// Whether the state is that of some machine: it has as many registers
    /// as a machine has, and its program and heap are no longer than the
    /// program counter and a pointer can tell.
    pub open spec fn well_formed(self) -> bool {
        &&& self.registers.len() == REGISTERS
        &&& self.float_registers.len() == FLOAT_REGISTERS
        &&& self.program.len() <= usize::MAX
        &&& self.heap.len() <= usize::MAX
    }

    /// The state with all registers and counters zero, the flag clear, and
    /// an empty heap and program.
    pub open spec fn zeroed() -> Machine {
        Machine {
            ic: 0,
            pc: 0,
            program: Seq::empty(),
            registers: Seq::new(REGISTERS as nat, |i: int| 0i32),
            remainder: 0,
            float_registers: Seq::new(FLOAT_REGISTERS as nat, |i: int| 0u64),
            equal_flag: false,
            heap: Seq::empty(),
        }
    }

    /// Operand number `k` of the instruction whose operands start at the
    /// program counter.
    pub open spec fn operand(self, k: int) -> u8 {
        self.program[self.pc + k]
    }

    /// Whether the program ends before the `n` operands that start at the
    /// program counter do.
    pub open spec fn lacks(self, n: nat) -> bool {
        n > 0 && self.pc + n > self.program.len()
    }

    /// The state with the program counter at `pc`.
    pub open spec fn with_pc(self, pc: usize) -> Machine {
        Machine { pc, ..self }
    }

    /// The state with the instruction counter at `ic`.
    pub open spec fn with_ic(self, ic: usize) -> Machine {
        Machine { ic, ..self }
    }

    /// The state with `value` in integer register `r`.
    pub open spec fn with_register(self, r: int, value: i32) -> Machine {
        Machine { registers: self.registers.update(r, value), ..self }
    }

    /// The state with `bits` in floating-point register `r`.
    pub open spec fn with_float_register(self, r: int, bits: u64) -> Machine {
        Machine { float_registers: self.float_registers.update(r, bits), ..self }
    }

    /// The state with `remainder` in the remainder register.
    pub open spec fn with_remainder(self, remainder: u32) -> Machine {
        Machine { remainder, ..self }
    }

    /// The state with the comparison flag at `equal_flag`.
    pub open spec fn with_flag(self, equal_flag: bool) -> Machine {
        Machine { equal_flag, ..self }
    }

    /// The state with `heap` for its heap.
    pub open spec fn with_heap(self, heap: Seq<u8>) -> Machine {
        Machine { heap, ..self }
    }

    /// Whether `width` bytes from `pointer` on lie within the heap.
    pub open spec fn in_heap(self, pointer: int, width: nat) -> bool {
        0 <= pointer && pointer + width <= self.heap.len()
    }
}

/// Whether `after` and `result` are what one step leaves of `before`: the
/// state and the signal of [`step`], or its error and the state unchanged.
pub open spec fn stepped(
    before: Machine,
    answer: Option<u64>,
    after: Machine,
    result: Result<bool, VmError>,
) -> bool {
    match step(before, answer) {
        Ok((m, go)) => result == Ok::<bool, VmError>(go) && after == m,
        Err(e) => result == Err::<bool, VmError>(e) && after == before,
    }
}

/// Whether `after` and `result` are what a run leaves of `before` that
/// stops at step number `n`, counted from zero: the steps before it all
/// went on, and that step stopped the machine or failed.
pub open spec fn ran(before: Machine, n: nat, after: Machine, result: Result<(), VmError>) -> bool {
    match trace(before, n) {
        Some(last) => match step(last, None) {
            Ok((m, go)) => !go && result == Ok::<(), VmError>(()) && after == m,
            Err(e) => result == Err::<(), VmError>(e) && after == last,
        },
        None => false,
    }
}

impl View for VM {
    type V = Machine;

    open spec fn view(&self) -> Machine {
        Machine {
            ic: self.ic,
            pc: self.pc,
            program: self.program@,
            registers: self.registers@,
            remainder: self.remainder,
            float_registers: self.float_registers@,
            equal_flag: self.equal_flag,
            heap: self.heap@,
        }
    }
}

impl VM {
    /// The state of a machine is well formed.
    pub proof fn lemma_view_well_formed(&self)
        ensures
            self@.well_formed(),
    {
        assert(self.program.len() == self@.program.len());
        assert(self.heap.len() == self@.heap.len());
    }
}

impl Default for VM {
    /// A machine with every register and counter zero, the flag clear, and
    /// an empty heap and program.
    fn default() -> (vm: VM)
        ensures
            vm@ == Machine::zeroed(),
    {
        let vm = VM {
            ic: 0,
            pc: 0,
            program: Vec::new(),
            registers: [0; 16],
            remainder: 0,
            float_registers: [0; 32],
            equal_flag: false,
            heap: Vec::new(),
        };
        assert(vm.registers@ =~= Machine::zeroed().registers);
        assert(vm.float_registers@ =~= Machine::zeroed().float_registers);
        vm
    }
}

impl VM {
    /// Fetches the byte at the program counter and moves the counter past
    /// it.
    ///
    /// Fails with `ProgramOutOfBounds` where the counter is not within the
    /// program.
    pub fn read_u8(&mut self) -> (result: Result<u8, VmError>)
        ensures
            match result {
                Ok(byte) => old(self).pc < old(self).program.len() && byte == old(self)@.operand(0)
                    && final(self)@ == old(self)@.with_pc((old(self).pc + 1) as usize),
                Err(e) => old(self).pc >= old(self).program.len() && e
                    == VmError::ProgramOutOfBounds && final(self)@ == old(self)@,
            },
    {
        if self.pc < self.program.len() {
            let byte = self.program[self.pc];
            self.pc += 1;
            Ok(byte)
        } else {
            Err(VmError::ProgramOutOfBounds)
        }
    }

    /// Fetches the two bytes at the program counter as one integer, the
    /// first byte being the less significant, and moves the counter past
    /// them.
    ///
    /// Fails with `ProgramOutOfBounds` where the program does not hold two
    /// bytes from the counter on.
    pub fn read_u16(&mut self) -> (result: Result<u16, VmError>)
        ensures
            match result {
                Ok(value) => old(self).pc + 2 <= old(self).program.len() && value == le_value(
                    old(self).program@,
                    old(self).pc as int,
                    2,
                ) && final(self)@ == old(self)@.with_pc((old(self).pc + 2) as usize),
                Err(e) => old(self).pc + 2 > old(self).program.len() && e
                    == VmError::ProgramOutOfBounds && final(self)@ == old(self)@,
            },
    {
        if self.pc < self.program.len() && self.program.len() - self.pc >= 2 {
            proof {
                crate::bytes::lemma_le_value_bound(self.program@, self.pc as int, 2);
                crate::bytes::lemma_capacity_of_widths();
            }
            let value = load_le(&self.program, self.pc, 2) as u16;
            self.pc += 2;
            Ok(value)
        } else {
            Err(VmError::ProgramOutOfBounds)
        }
    }

    /// Whether `width` bytes from `pointer` on lie within the heap.
    pub(crate) fn heap_holds(&self, pointer: usize, width: usize) -> (held: bool)
        ensures
            held == self@.in_heap(pointer as int, width as nat),
    {
        pointer <= self.heap.len() && self.heap.len() - pointer >= width
    }

    /// Reads the heap byte at `pointer`.
    ///
    /// Fails with `HeapOutOfBounds` where `pointer` is not within the heap.
    pub fn fetch_heap_u8(&mut self, pointer: usize) -> (result: Result<u8, VmError>)
        ensures
            final(self)@ == old(self)@,
            result == (if old(self)@.in_heap(pointer as int, 1) {
                Ok(old(self).heap[pointer as int])
            } else {
                Err(VmError::HeapOutOfBounds)
            }),
    {
        if self.heap_holds(pointer, 1) {
            Ok(self.heap[pointer])
        } else {
            Err(VmError::HeapOutOfBounds)
        }
    }

    /// Writes `value` to the heap byte at `pointer`.
    ///
    /// Fails with `HeapOutOfBounds` where `pointer` is not within the heap.
    pub fn set_heap_u8(&mut self, pointer: usize, value: u8) -> (result: Result<(), VmError>)
        ensures
            match result {
                Ok(_) => old(self)@.in_heap(pointer as int, 1) && final(self)@ == old(
                    self,
                )@.with_heap(old(self).heap@.update(pointer as int, value)),
                Err(e) => !old(self)@.in_heap(pointer as int, 1) && e == VmError::HeapOutOfBounds
                    && final(self)@ == old(self)@,
            },
    {
        if self.heap_holds(pointer, 1) {
            self.heap[pointer] = value;
            Ok(())
        } else {
            Err(VmError::HeapOutOfBounds)
        }
    }

    /// Reads the two heap bytes from `pointer` on as one integer, least
    /// significant byte first.
    ///
    /// Fails with `HeapOutOfBounds` where they do not lie within the heap.
    pub fn fetch_heap_u16(&mut self, pointer: usize) -> (result: Result<u16, VmError>)
        ensures
            final(self)@ == old(self)@,
            match result {
                Ok(value) => old(self)@.in_heap(pointer as int, 2) && value == le_value(
                    old(self).heap@,
                    pointer as int,
                    2,
                ),
                Err(e) => !old(self)@.in_heap(pointer as int, 2) && e == VmError::HeapOutOfBounds,
            },
    {
        if self.heap_holds(pointer, 2) {
            proof {
                crate::bytes::lemma_le_value_bound(self.heap@, pointer as int, 2);
                crate::bytes::lemma_capacity_of_widths();
            }
            Ok(load_le(&self.heap, pointer, 2) as u16)
        } else {
            Err(VmError::HeapOutOfBounds)
        }
    }

    /// Writes `value` to the two heap bytes from `pointer` on, least
    /// significant byte first.
    ///
    /// Fails with `HeapOutOfBounds` where they do not lie within the heap.
    pub fn set_heap_u16(&mut self, pointer: usize, value: u16) -> (result: Result<(), VmError>)
        ensures
            match result {
                Ok(_) => old(self)@.in_heap(pointer as int, 2) && final(self)@ == old(
                    self,
                )@.with_heap(le_store(old(self).heap@, pointer as int, 2, value as nat)),
                Err(e) => !old(self)@.in_heap(pointer as int, 2) && e == VmError::HeapOutOfBounds
                    && final(self)@ == old(self)@,
            },
    {
        if self.heap_holds(pointer, 2) {
            store_le(&mut self.heap, pointer, 2, value as u64);
            Ok(())
        } else {
            Err(VmError::HeapOutOfBounds)
        }
    }

    /// Reads the four heap bytes from `pointer` on as one integer, least
    /// significant byte first.
    ///
    /// Fails with `HeapOutOfBounds` where they do not lie within the heap.
    pub fn fetch_heap_u32(&mut self, pointer: usize) -> (result: Result<u32, VmError>)
        ensures
            final(self)@ == old(self)@,
            match result {
                Ok(value) => old(self)@.in_heap(pointer as int, 4) && value == le_value(
                    old(self).heap@,
                    pointer as int,
                    4,
                ),
                Err(e) => !old(self)@.in_heap(pointer as int, 4) && e == VmError::HeapOutOfBounds,
            },
    {
        if self.heap_holds(pointer, 4) {
            proof {
                crate::bytes::lemma_le_value_bound(self.heap@, pointer as int, 4);
                crate::bytes::lemma_capacity_of_widths();
            }
            Ok(load_le(&self.heap, pointer, 4) as u32)
        } else {
            Err(VmError::HeapOutOfBounds)
        }
    }

    /// Writes `value` to the four heap bytes from `pointer` on, least
    /// significant byte first.
    ///
    /// Fails with `HeapOutOfBounds` where they do not lie within the heap.
    pub fn set_heap_u32(&mut self, pointer: usize, value: u32) -> (result: Result<(), VmError>)
        ensures
            match result {
                Ok(_) => old(self)@.in_heap(pointer as int, 4) && final(self)@ == old(
                    self,
                )@.with_heap(le_store(old(self).heap@, pointer as int, 4, value as nat)),
                Err(e) => !old(self)@.in_heap(pointer as int, 4) && e == VmError::HeapOutOfBounds
                    && final(self)@ == old(self)@,
            },
    {
        if self.heap_holds(pointer, 4) {
            store_le(&mut self.heap, pointer, 4, value as u64);
            Ok(())
        } else {
            Err(VmError::HeapOutOfBounds)
        }
    }

    /// Reads the eight heap bytes from `pointer` on as one integer, least
    /// significant byte first.
    ///
    /// Fails with `HeapOutOfBounds` where they do not lie within the heap.
    pub fn fetch_heap_u64(&mut self, pointer: usize) -> (result: Result<u64, VmError>)
        ensures
            final(self)@ == old(self)@,
            match result {
                Ok(value) => old(self)@.in_heap(pointer as int, 8) && value == le_value(
                    old(self).heap@,
                    pointer as int,
                    8,
                ),
                Err(e) => !old(self)@.in_heap(pointer as int, 8) && e == VmError::HeapOutOfBounds,
            },
    {
        if self.heap_holds(pointer, 8) {
            Ok(load_le(&self.heap, pointer, 8))
        } else {
            Err(VmError::HeapOutOfBounds)
        }
    }

    /// Writes `value` to the eight heap bytes from `pointer` on, least
    /// significant byte first.
    ///
    /// Fails with `HeapOutOfBounds` where they do not lie within the heap.
    pub fn set_heap_u64(&mut self, pointer: usize, value: u64) -> (result: Result<(), VmError>)
        ensures
            match result {
                Ok(_) => old(self)@.in_heap(pointer as int, 8) && final(self)@ == old(
                    self,
                )@.with_heap(le_store(old(self).heap@, pointer as int, 8, value as nat)),
                Err(e) => !old(self)@.in_heap(pointer as int, 8) && e == VmError::HeapOutOfBounds
                    && final(self)@ == old(self)@,
            },
    {
        if self.heap_holds(pointer, 8) {
            store_le(&mut self.heap, pointer, 8, value);
            Ok(())
        } else {
            Err(VmError::HeapOutOfBounds)
        }
    }

    /// Runs instructions until the machine stops.
    ///
    /// The machine stops at a `HLT` and where the program counter is at or
    /// beyond the end of the program; `run` then returns `Ok`. It also
    /// stops, with the error, at the first instruction that fails, and with
    /// [`VmError::FloatUnit`] at the first instruction that needs the
    /// floating-point unit. Such an instruction has not run: the machine
    /// is as the instructions before it left it.
    ///
    /// A program that jumps in a circle is run until the instruction
    /// counter is exhausted.
    pub fn run(&mut self) -> (result: Result<(), VmError>)
        ensures
            exists|n: nat| ran(old(self)@, n, final(self)@, result),
    {
        let ghost mut n: nat = 0;
        loop
            invariant
                trace(old(self)@, n) == Some(self@),
            decreases usize::MAX - self.ic,
        {
            let ghost before = self@;
            match self.run_once() {
                Ok(true) => {
                    proof {
                        n = n + 1;
                    }
                },
                Ok(false) => {
                    assert(ran(old(self)@, n, self@, Ok(())));
                    return Ok(());
                },
                Err(e) => {
                    assert(ran(old(self)@, n, self@, Err(e)));
                    return Err(e);
                },
            }
        }
    }

    /// Executes one instruction and returns whether the machine goes on.
    ///
    /// Where the program counter is at or beyond the end of the program,
    /// nothing is executed and the machine does not go on. Fails with
    /// [`VmError::FloatUnit`] where the instruction needs the
    /// floating-point unit, and as [`step`] says where it cannot run.
    pub fn run_once(&mut self) -> (result: Result<bool, VmError>)
        ensures
            stepped(old(self)@, None, final(self)@, result),
    {
        self.execute_instruction(None)
    }

    /// Executes one instruction as [`VM::run_once`] does, handing it
    /// `answer` as the answer of the floating-point unit.
    ///
    /// This is the way past an instruction at which `run_once` or `run`
    /// stopped with [`VmError::FloatUnit`]; `answer` then answers the
    /// request of that error. An instruction that does not need the unit
    /// runs as usual and ignores `answer`.
    pub fn resume(&mut self, answer: u64) -> (result: Result<bool, VmError>)
        ensures
            stepped(old(self)@, Some(answer), final(self)@, result),
    {
        self.execute_instruction(Some(answer))
    }

    fn execute_instruction(&mut self, answer: Option<u64>) -> (result: Result<bool, VmError>)
        ensures
            stepped(old(self)@, answer, final(self)@, result),
    {
        if self.pc >= self.program.len() {
            return Ok(false);
        }
        if self.ic == usize::MAX {
            return Err(VmError::CounterOverflow);
        }
        let start = self.pc;
        let opcode = self.read_u8()?;
        match Opcode::call(self, opcode, answer) {
            Ok(go) => {
                self.ic += 1;
                Ok(go)
            },
            Err(e) => {
                self.pc = start;
                Err(e)
            },
        }
    }
}

} // verus!