use std::time;

use lux_vm::vm::instructions::Opcode;
use lux_vm::vm::VM;

#[test]
pub fn fib() {
    const TIMES: u16 = u16::MAX;

    const MAX_ITERATIONS: u8 = 45;

    let mut target = 0;

    let mut totals: Vec<u128> = vec![];

    for _i in 0..TIMES {
        let before = time::Instant::now();

        let mut last = 0;
        let mut curr = 1;

        for _i in 1..MAX_ITERATIONS {
            let sum = last + curr;
            last = curr;
            curr = sum;
        }

        target = curr;

        totals.push(before.elapsed().as_nanos());
    }

    println!("Rust took: {:.2?}ns", (totals.iter().sum::<u128>() / totals.len() as u128));

    let mut totals: Vec<u128> = vec![];

    for _i in 0..TIMES {
        let mut test_vm = VM::default();

        test_vm.program = vec![
            Opcode::SetI32.byte(), 0, 1, 0,    // Set $0 to 1
            Opcode::JumpForward.byte(), 0,  // Jump forward $0 bytes
            Opcode::Halt.byte(),

            Opcode::SetI32.byte(), 0, 6, 0,   // Load $0 with 6: byte of the halt instruction

            Opcode::SetI32.byte(), 1, 0, 0,   // Reset $1 to 0
            Opcode::SetI32.byte(), 2, MAX_ITERATIONS - 1, 0,

            Opcode::SetI32.byte(), 3, 0, 0,   // Sets $3 to 0
            Opcode::SetI32.byte(), 4, 1, 0,   // Sets $4 to 1

            Opcode::SetI32.byte(), 6, 31, 0,  // Load $6 with 31: the start of the iteration

            // Start of fib iterations
            Opcode::Equal.byte(), 1, 2,     // Check if $1 (current) and $2 (max) are equal
            Opcode::JumpIfEqual.byte(), 0,  // Jump to byte $0 if equal flag is set

            Opcode::Increment.byte(), 1,    // Increment $1
            Opcode::Add.byte(), 5, 3, 4,    // $5 = $3 + $4
            Opcode::Move.byte(), 3, 4,      // $3 = $4
            Opcode::Move.byte(), 4, 5,      // $4 = $5

            Opcode::Jump.byte(), 6,         // Jump to byte $6
        ];

        let before = time::Instant::now();

        // Run until halt
        assert_eq!(test_vm.run(), Ok(()));

        totals.push(before.elapsed().as_nanos());

        // Verify that our register has reached MAX_ITERATIONS
        assert_eq!(test_vm.registers[1], test_vm.registers[2]);
        assert_eq!(test_vm.registers[4], target);
    }

    println!("Bytecode took: {:.2?}ns", (totals.iter().sum::<u128>() / totals.len() as u128));
}

#[test]
fn fib_halts_with_the_expected_value_after_a_known_number_of_steps() {
    let mut vm = VM::default();
    vm.program = vec![
        Opcode::SetI32.byte(), 0, 1, 0,
        Opcode::JumpForward.byte(), 0,
        Opcode::Halt.byte(),
        Opcode::SetI32.byte(), 0, 6, 0,
        Opcode::SetI32.byte(), 1, 0, 0,
        Opcode::SetI32.byte(), 2, 44, 0,
        Opcode::SetI32.byte(), 3, 0, 0,
        Opcode::SetI32.byte(), 4, 1, 0,
        Opcode::SetI32.byte(), 6, 31, 0,
        Opcode::Equal.byte(), 1, 2,
        Opcode::JumpIfEqual.byte(), 0,
        Opcode::Increment.byte(), 1,
        Opcode::Add.byte(), 5, 3, 4,
        Opcode::Move.byte(), 3, 4,
        Opcode::Move.byte(), 4, 5,
        Opcode::Jump.byte(), 6,
    ];

    assert_eq!(vm.run(), Ok(()));

    assert_eq!(vm.registers[1], 44);
    assert_eq!(vm.registers[4], 1134903170);
    assert_eq!(vm.registers[3], 701408733);
    // Two set-up instructions and the jump over the halt, six more set-up
    // instructions, 44 rounds of seven instructions, the last comparison
    // and jump, and the halt.
    assert_eq!(vm.ic, 2 + 6 + 44 * 7 + 2 + 1);
    assert_eq!(vm.pc, 7);
}
