use lux_vm::monitor::{is_blank, parse_hex, parse_line, split, Line};
use lux_vm::vm::instructions::Opcode;

#[test]
fn blanks_are_the_ascii_white_space() {
    for b in 0..=255u8 {
        assert_eq!(is_blank(b), (b as char).is_ascii_whitespace() || b == 11, "{}", b);
    }
}

#[test]
fn split_finds_the_words() {
    assert_eq!(split(b"", 0), vec![]);
    assert_eq!(split(b"   \t\r\n", 0), vec![]);
    assert_eq!(split(b"add", 0), vec![(0, 3)]);
    assert_eq!(split(b"  add 1\t2  ", 0), vec![(2, 5), (6, 7), (8, 9)]);
    assert_eq!(split(b".help add\n", 1), vec![(1, 5), (6, 9)]);
    assert_eq!(split(b"abc", 3), vec![]);
    assert_eq!(split(b"abc", 1), vec![(1, 3)]);
}

#[test]
fn split_agrees_with_the_standard_library_on_ascii() {
    for line in ["", " ", "a", " a", "a ", "a b", "  aa\tbb\n cc ", "x\ry\x0cz"] {
        let found = split(line.as_bytes(), 0);
        let words: Vec<&str> = found.iter().map(|&(a, b)| &line[a..b]).collect();
        let expected: Vec<&str> = line.split_whitespace().collect();
        assert_eq!(words, expected);
    }
}

#[test]
fn hex_bytes_are_read_as_the_standard_library_reads_them() {
    assert_eq!(parse_hex(b"0"), Some(0));
    assert_eq!(parse_hex(b"ff"), Some(255));
    assert_eq!(parse_hex(b"FF"), Some(255));
    assert_eq!(parse_hex(b"1f"), Some(31));
    assert_eq!(parse_hex(b"+1F"), Some(31));
    assert_eq!(parse_hex(b"0000ff"), Some(255));
    assert_eq!(parse_hex(b"100"), None);
    assert_eq!(parse_hex(b"fff"), None);
    assert_eq!(parse_hex(b""), None);
    assert_eq!(parse_hex(b"+"), None);
    assert_eq!(parse_hex(b"-1"), None);
    assert_eq!(parse_hex(b"++1"), None);
    assert_eq!(parse_hex(b"1g"), None);
    assert_eq!(parse_hex(b"0x1"), None);
    assert_eq!(parse_hex(b" 1"), None);

    for a in 0..=255u8 {
        for b in [b'+', b'0', b'9', b'a', b'f', b'g', b'A', b'F', b'G', b' ', b'-', 200] {
            let word = [a, b];
            let expected = std::str::from_utf8(&word)
                .ok()
                .and_then(|text| u8::from_str_radix(text, 16).ok());
            assert_eq!(parse_hex(&word), expected, "{:?}", word);
        }
    }
}

#[test]
fn every_byte_is_read_back_from_its_hexadecimal_form() {
    for value in 0..=255u8 {
        assert_eq!(parse_hex(format!("{:x}", value).as_bytes()), Some(value));
        assert_eq!(parse_hex(format!("{:02X}", value).as_bytes()), Some(value));
    }
}

#[test]
fn commands_are_recognised() {
    assert_eq!(parse_line(b".quit\n"), Line::Quit);
    assert_eq!(parse_line(b".QUIT"), Line::Quit);
    assert_eq!(parse_line(b". quit"), Line::Quit);
    assert_eq!(parse_line(b".quit now"), Line::Quit);
    assert_eq!(parse_line(b".registers\n"), Line::Registers);
    assert_eq!(parse_line(b".Registers"), Line::Registers);
    assert_eq!(parse_line(b".help\n"), Line::HelpAll);
    assert_eq!(parse_line(b".help add\n"), Line::Help(Opcode::Add));
    assert_eq!(parse_line(b".help JumpIfEqual\n"), Line::Help(Opcode::JumpIfEqual));
    assert_eq!(parse_line(b".help jeq"), Line::Help(Opcode::JumpIfEqual));
    assert_eq!(parse_line(b".help nothing"), Line::UnknownInstruction);
    assert_eq!(parse_line(b".exit"), Line::UnknownCommand);
    assert_eq!(parse_line(b".quitx"), Line::UnknownCommand);
    assert_eq!(parse_line(b"."), Line::Empty);
    assert_eq!(parse_line(b".  \n"), Line::Empty);
    assert_eq!(parse_line(b" .quit"), Line::UnknownInstruction);
}

#[test]
fn instructions_are_assembled() {
    assert_eq!(parse_line(b"hlt\n"), Line::Instruction(vec![0x00]));
    assert_eq!(parse_line(b"SET 0 f4 1\n"), Line::Instruction(vec![0x01, 0, 0xF4, 1]));
    assert_eq!(parse_line(b"  add 2 0 1"), Line::Instruction(vec![0x10, 2, 0, 1]));
    assert_eq!(parse_line(b"Subtract 2 0 1"), Line::Instruction(vec![0x11, 2, 0, 1]));
    assert_eq!(parse_line(b"jmp ff"), Line::Instruction(vec![0x60, 255]));
    assert_eq!(parse_line(b"addf +1 +2 +3"), Line::Instruction(vec![0x41, 1, 2, 3]));
    assert_eq!(parse_line(b"eq 1 2 3 4 5"), Line::Instruction(vec![0x20, 1, 2, 3, 4, 5]));
}

#[test]
fn lines_that_are_no_instruction_are_told_apart() {
    assert_eq!(parse_line(b""), Line::Empty);
    assert_eq!(parse_line(b"   \n"), Line::Empty);
    assert_eq!(parse_line(b"nop"), Line::UnknownInstruction);
    assert_eq!(parse_line(b"ad 1 2 3"), Line::UnknownInstruction);
    assert_eq!(parse_line(b"add x 2 3"), Line::BadOperand(0));
    assert_eq!(parse_line(b"add 1 100 3"), Line::BadOperand(1));
    assert_eq!(parse_line(b"add 1 2 -3"), Line::BadOperand(2));
    assert_eq!(parse_line(b"add zz yy"), Line::BadOperand(0));
}
