//! The grammar of the interactive monitor: what a line typed at the prompt
//! means.
//!
//! A line that starts with a dot is a command: `.quit`, `.registers`, or
//! `.help` with or without the name of an instruction. Any other line is
//! an instruction: its mnemonic or its name, followed by its operand bytes
//! in hexadecimal. Words are separated by blanks, and letters count the
//! same in upper and lower case.

use vstd::prelude::*;
use vstd::slice::slice_subrange;
use crate::vm::instructions::Opcode;
use crate::vm::names::{lookup, spelled, spells};

verus! {

/// Whether `b` separates words: a space, a tab, a line feed, a vertical
/// tab, a form feed or a carriage return.
pub open spec fn blank(b: u8) -> bool {
    b == 32 || (9 <= b && b <= 13)
}

/// The words of `line` from index `i` on, each as the pair of the index
/// where it starts and the index where it ends. `start` is where the word
/// that contains index `i - 1` starts, or `-1` where no word does.
pub open spec fn scan(line: Seq<u8>, i: int, start: int) -> Seq<(usize, usize)>
    decreases line.len() - i,
{
    if i >= line.len() {
        if start >= 0 {
            seq![(start as usize, line.len() as usize)]
        } else {
            Seq::empty()
        }
    } else if blank(line[i]) {
        if start >= 0 {
            seq![(start as usize, i as usize)] + scan(line, i + 1, -1)
        } else {
            scan(line, i + 1, -1)
        }
    } else {
        scan(
            line,
            i + 1,
            if start >= 0 {
                start
            } else {
                i
            },
        )
    }
}

/// The words of `line` from index `from` on.
pub open spec fn words(line: Seq<u8>, from: int) -> Seq<(usize, usize)> {
    scan(line, from, -1)
}

/// Whether `b` separates words.
pub fn is_blank(b: u8) -> (r: bool)
    ensures
        r == blank(b),
{
    b == 32 || (9 <= b && b <= 13)
}

/// Finds the words of `line` from index `from` on.
///
/// Every word is a longest stretch without blanks; it is returned as the
/// pair of its first index and the index behind its last.
pub fn split(line: &[u8], from: usize) -> (found: Vec<(usize, usize)>)
    requires
        from <= line.len(),
    ensures
        found@ == words(line@, from as int),
        forall|k: int|
            0 <= k < found.len() ==> from <= (#[trigger] found[k]).0 < found[k].1 <= line.len(),
{
    let mut found: Vec<(usize, usize)> = Vec::new();
    let mut start: Option<usize> = None;
    let mut i: usize = from;
    while i < line.len()
        invariant
            from <= i <= line.len(),
            start matches Some(s) ==> from <= s < i,
            found@ + scan(
                line@,
                i as int,
                match start {
                    Some(s) => s as int,
                    None => -1,
                },
            ) == words(line@, from as int),
            forall|k: int|
                0 <= k < found.len() ==> from <= (#[trigger] found[k]).0 < found[k].1 <= i,
        decreases line.len() - i,
    {
        let ghost before = found@;
        if is_blank(line[i]) {
            if let Some(s) = start {
                found.push((s, i));
                assert(found@ + scan(line@, i + 1, -1) =~= before + (seq![(s, i)] + scan(
                    line@,
                    i + 1,
                    -1,
                )));
            }
            start = None;
        } else if start.is_none() {
            start = Some(i);
        }
        i += 1;
    }
    if let Some(s) = start {
        let ghost before = found@;
        found.push((s, i));
        assert(found@ =~= before + seq![(s, i)]);
    } else {
        assert(found@ + Seq::<(usize, usize)>::empty() =~= found@);
    }
    found
}

/// The value of a hexadecimal digit, or `None` where `b` is none.
pub open spec fn hex_digit(b: u8) -> Option<u8> {
    if 48 <= b && b <= 57 {
        Some((b - 48) as u8)
    } else if 97 <= b && b <= 102 {
        Some((b - 87) as u8)
    } else if 65 <= b && b <= 70 {
        Some((b - 55) as u8)
    } else {
        None
    }
}

/// The number that the hexadecimal digits of `word` from index `from` to
/// index `to` spell, or `None` where one of them is no digit.
pub open spec fn hex_number(word: Seq<u8>, from: int, to: int) -> Option<nat>
    decreases to - from,
{
    if to <= from {
        Some(0)
    } else {
        match (hex_number(word, from, to - 1), hex_digit(word[to - 1])) {
            (Some(v), Some(d)) => Some(16 * v + d as nat),
            _ => None,
        }
    }
}

/// The byte that `word` spells in hexadecimal: at least one digit, after a
/// plus sign or without one, with a value that fits into a byte.
pub open spec fn hex_byte(word: Seq<u8>) -> Option<u8> {
    let from: int = if word.len() > 0 && word[0] == 43 {
        1
    } else {
        0
    };
    if from >= word.len() {
        None
    } else {
        match hex_number(word, from, word.len() as int) {
            Some(v) => if v <= 255 {
                Some(v as u8)
            } else {
                None
            },
            None => None,
        }
    }
}

/// More digits do not make a number smaller, and do not mend a stretch
/// that holds something else than digits.
proof fn lemma_hex_number_grows(word: Seq<u8>, from: int, mid: int, to: int)
    requires
        from <= mid <= to,
    ensures
        hex_number(word, from, mid) is None ==> hex_number(word, from, to) is None,
        hex_number(word, from, to) is Some ==> hex_number(word, from, mid).unwrap() <= hex_number(
            word,
            from,
            to,
        ).unwrap(),
    decreases to - mid,
{
    if mid < to {
        lemma_hex_number_grows(word, from, mid, to - 1);
    }
}

fn digit(b: u8) -> (r: Option<u8>)
    ensures
        r == hex_digit(b),
{
    if 48 <= b && b <= 57 {
        Some(b - 48)
    } else if 97 <= b && b <= 102 {
        Some(b - 87)
    } else if 65 <= b && b <= 70 {
        Some(b - 55)
    } else {
        None
    }
}

/// Reads `word` as a byte in hexadecimal.
///
/// Returns `None` where `word` holds no digit, holds anything but digits
/// behind an optional plus sign, or spells a number beyond 255.
pub fn parse_hex(word: &[u8]) -> (r: Option<u8>)
    ensures
        r == hex_byte(word@),
{
    let from: usize = if word.len() > 0 && word[0] == 43 {
        1
    } else {
        0
    };
    if from >= word.len() {
        return None;
    }
    let mut value: u32 = 0;
    let mut i: usize = from;
    while i < word.len()
        invariant
            from <= i <= word.len(),
            from < word.len(),
            from as int == (if word@.len() > 0 && word@[0] == 43 {
                1int
            } else {
                0int
            }),
            value <= 255,
            hex_number(word@, from as int, i as int) == Some(value as nat),
        decreases word.len() - i,
    {
        proof {
            lemma_hex_number_grows(word@, from as int, i + 1, word.len() as int);
            assert(hex_number(word@, from as int, i + 1) == match hex_digit(word@[i as int]) {
                Some(d) => Some(16 * (value as nat) + d as nat),
                None => None::<nat>,
            });
        }
        match digit(word[i]) {
            Some(d) => {
                let next = value * 16 + d as u32;
                if next > 255 {
                    return None;
                }
                value = next;
            },
            None => {
                return None;
            },
        }
        i += 1;
    }
    Some(value as u8)
}

/// What a line means.
#[derive(Debug, Clone, PartialEq, Eq)]
pub enum Line {
    /// The line holds no word.
    Empty,
    /// `.quit`: leave the monitor.
    Quit,
    /// `.registers`: show the registers.
    Registers,
    /// `.help`: list the instructions.
    HelpAll,
    /// `.help` with an instruction: describe it.
    Help(Opcode),
    /// A dot with a word that is no command.
    UnknownCommand,
    /// A word that stands for no instruction, where one is wanted.
    UnknownInstruction,
    /// The operand with the given number, counted from zero, is no byte in
    /// hexadecimal.
    BadOperand(usize),
    /// An instruction: its code and its operand bytes.
    Instruction(Vec<u8>),
}

/// What a line means, as [`Line`] says it, with the bytes of an
/// instruction as a sequence.
pub enum Meaning {
    Empty,
    Quit,
    Registers,
    HelpAll,
    Help(Opcode),
    UnknownCommand,
    UnknownInstruction,
    BadOperand(usize),
    Instruction(Seq<u8>),
}

impl View for Line {
    type V = Meaning;

    open spec fn view(&self) -> Meaning {
        match self {
            Line::Empty => Meaning::Empty,
            Line::Quit => Meaning::Quit,
            Line::Registers => Meaning::Registers,
            Line::HelpAll => Meaning::HelpAll,
            Line::Help(op) => Meaning::Help(*op),
            Line::UnknownCommand => Meaning::UnknownCommand,
            Line::UnknownInstruction => Meaning::UnknownInstruction,
            Line::BadOperand(k) => Meaning::BadOperand(*k),
            Line::Instruction(bytes) => Meaning::Instruction(bytes@),
        }
    }
}

/// The word of `line` between the two indices of `range`.
pub open spec fn word(line: Seq<u8>, range: (usize, usize)) -> Seq<u8> {
    line.subrange(range.0 as int, range.1 as int)
}

/// The bytes that the words from number `k` on spell in hexadecimal, or the
/// number of the first word that spells none, counted from word one as zero.
pub open spec fn operands(line: Seq<u8>, found: Seq<(usize, usize)>, k: int) -> Result<
    Seq<u8>,
    usize,
>
    decreases found.len() - k,
{
    if k < 1 || k >= found.len() {
        Ok(Seq::empty())
    } else {
        match hex_byte(word(line, found[k])) {
            Some(b) => match operands(line, found, k + 1) {
                Ok(rest) => Ok(seq![b] + rest),
                Err(bad) => Err(bad),
            },
            None => Err((k - 1) as usize),
        }
    }
}

/// What `line` means.
pub open spec fn meaning(line: Seq<u8>) -> Meaning {
    let command = line.len() > 0 && line[0] == 46;
    let found = words(
        line,
        if command {
            1
        } else {
            0
        },
    );
    if found.len() == 0 {
        Meaning::Empty
    } else if command {
        if spells(word(line, found[0]), "quit"@) {
            Meaning::Quit
        } else if spells(word(line, found[0]), "registers"@) {
            Meaning::Registers
        } else if spells(word(line, found[0]), "help"@) {
            if found.len() == 1 {
                Meaning::HelpAll
            } else {
                match lookup(word(line, found[1])) {
                    Some(op) => Meaning::Help(op),
                    None => Meaning::UnknownInstruction,
                }
            }
        } else {
            Meaning::UnknownCommand
        }
    } else {
        match lookup(word(line, found[0])) {
            Some(op) => match operands(line, found, 1) {
                Ok(bytes) => Meaning::Instruction(seq![op.code()] + bytes),
                Err(bad) => Meaning::BadOperand(bad),
            },
            None => Meaning::UnknownInstruction,
        }
    }
}

/// Reads a line typed at the prompt.
///
/// A line that starts with a dot is a command, any other line an
/// instruction with its operand bytes in hexadecimal. The first operand
/// that is no byte makes the whole line a `BadOperand`.
pub fn parse_line(line: &[u8]) -> (result: Line)
    ensures
        result@ == meaning(line@),
{
    let command = line.len() > 0 && line[0] == 46;
    let found = split(line, if command { 1 } else { 0 });
    if found.len() == 0 {
        return Line::Empty;
    }
    let first = slice_subrange(line, found[0].0, found[0].1);
    if command {
        if spelled(first, "quit") {
            Line::Quit
        } else if spelled(first, "registers") {
            Line::Registers
        } else if spelled(first, "help") {
            if found.len() == 1 {
                Line::HelpAll
            } else {
                match Opcode::named(slice_subrange(line, found[1].0, found[1].1)) {
                    Some(op) => Line::Help(op),
                    None => Line::UnknownInstruction,
                }
            }
        } else {
            Line::UnknownCommand
        }
    } else {
        let op = match Opcode::named(first) {
            Some(op) => op,
            None => return Line::UnknownInstruction,
        };
        let mut bytes: Vec<u8> = Vec::new();
        bytes.push(op.byte());
        let mut k: usize = 1;
        while k < found.len()
            invariant
                1 <= k <= found.len(),
                !(line@.len() > 0 && line@[0] == 46),
                found@ == words(line@, 0),
                lookup(word(line@, found@[0])) == Some(op),
                forall|j: int|
                    0 <= j < found.len() ==> (#[trigger] found[j]).0 < found[j].1 <= line.len(),
                bytes@.len() == k,
                bytes@[0] == op.code(),
                match operands(line@, found@, k as int) {
                    Ok(rest) => operands(line@, found@, 1) == Ok::<Seq<u8>, usize>(
                        bytes@.skip(1) + rest,
                    ),
                    Err(bad) => operands(line@, found@, 1) == Err::<Seq<u8>, usize>(bad),
                },
            decreases found.len() - k,
        {
            let ghost before = bytes@;
            match parse_hex(slice_subrange(line, found[k].0, found[k].1)) {
                Some(b) => {
                    bytes.push(b);
                    proof {
                        match operands(line@, found@, k + 1) {
                            Ok(rest) => {
                                assert(before.skip(1) + (seq![b] + rest) =~= bytes@.skip(1)
                                    + rest);
                            },
                            Err(bad) => {},
                        }
                    }
                },
                None => {
                    assert(hex_byte(word(line@, found@[k as int])) is None);
                    assert(operands(line@, found@, k as int) == Err::<Seq<u8>, usize>(
                        (k - 1) as usize,
                    ));
                    return Line::BadOperand(k - 1);
                },
            }
            k += 1;
        }
        proof {
            assert(bytes@.skip(1) + Seq::<u8>::empty() =~= bytes@.skip(1));
            assert(seq![op.code()] + bytes@.skip(1) =~= bytes@);
        }
        Line::Instruction(bytes)
    }
}

} // verus!
