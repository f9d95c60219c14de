use lux_vm::assembler::header::VERSION;
use lux_vm::assembler::program::Program;

#[test]
fn create_program() {
    Program::default();
}

#[test]
fn a_new_program_is_empty() {
    let program = Program::default();
    assert_eq!(program.header.version, VERSION);
    assert_eq!(program.header.entry_point, 0);
    assert!(program.read_only.is_empty());
    assert!(program.bytecode.is_empty());
    Program::load();
}
