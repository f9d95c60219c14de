//! The names of the instructions: what an assembler or a monitor shows
//! and accepts.

use vstd::prelude::*;
use crate::vm::instructions::Opcode;

verus! {

impl Opcode {
    /// The name of the instruction.
    pub open spec fn title(self) -> Seq<char> {
        match self {
            Opcode::Halt => "Halt"@,
            Opcode::SetI32 => "SetI32"@,
            Opcode::Load => "Load"@,
            Opcode::Store => "Store"@,
            Opcode::Move => "Move"@,
            Opcode::Add => "Add"@,
            Opcode::Subtract => "Subtract"@,
            Opcode::Multiply => "Multiply"@,
            Opcode::Divide => "Divide"@,
            Opcode::And => "And"@,
            Opcode::Or => "Or"@,
            Opcode::XOR => "XOR"@,
            Opcode::ShiftLeft => "ShiftLeft"@,
            Opcode::ShiftRight => "ShiftRight"@,
            Opcode::Increment => "Increment"@,
            Opcode::Decrement => "Decrement"@,
            Opcode::Equal => "Equal"@,
            Opcode::NotEqual => "NotEqual"@,
            Opcode::GreaterThan => "GreaterThan"@,
            Opcode::LessThan => "LessThan"@,
            Opcode::GreaterThanOrEqual => "GreaterThanOrEqual"@,
            Opcode::LessThanOrEqual => "LessThanOrEqual"@,
            Opcode::SetF64 => "SetF64"@,
            Opcode::LoadF64 => "LoadF64"@,
            Opcode::StoreF64 => "StoreF64"@,
            Opcode::MoveF64 => "MoveF64"@,
            Opcode::AddF64 => "AddF64"@,
            Opcode::SubtractF64 => "SubtractF64"@,
            Opcode::MultiplyF64 => "MultiplyF64"@,
            Opcode::DivideF64 => "DivideF64"@,
            Opcode::EqualF64 => "EqualF64"@,
            Opcode::NotEqualF64 => "NotEqualF64"@,
            Opcode::GreaterThanF64 => "GreaterThanF64"@,
            Opcode::LessThanF64 => "LessThanF64"@,
            Opcode::GreaterThanOrEqualF64 => "GreaterThanOrEqualF64"@,
            Opcode::LessThanOrEqualF64 => "LessThanOrEqualF64"@,
            Opcode::Jump => "Jump"@,
            Opcode::JumpForward => "JumpForward"@,
            Opcode::JumpBackward => "JumpBackward"@,
            Opcode::JumpIfEqual => "JumpIfEqual"@,
        }
    }

    /// The mnemonic of the instruction.
    pub open spec fn mnemonic(self) -> Seq<char> {
        match self {
            Opcode::Halt => "HLT"@,
            Opcode::SetI32 => "SET"@,
            Opcode::Load => "LOAD"@,
            Opcode::Store => "STOR"@,
            Opcode::Move => "MOV"@,
            Opcode::Add => "ADD"@,
            Opcode::Subtract => "SUB"@,
            Opcode::Multiply => "MUL"@,
            Opcode::Divide => "DIV"@,
            Opcode::And => "AND"@,
            Opcode::Or => "OR"@,
            Opcode::XOR => "XOR"@,
            Opcode::ShiftLeft => "SHL"@,
            Opcode::ShiftRight => "SHR"@,
            Opcode::Increment => "INC"@,
            Opcode::Decrement => "DEC"@,
            Opcode::Equal => "EQ"@,
            Opcode::NotEqual => "NEQ"@,
            Opcode::GreaterThan => "GT"@,
            Opcode::LessThan => "LT"@,
            Opcode::GreaterThanOrEqual => "GEQ"@,
            Opcode::LessThanOrEqual => "LEQ"@,
            Opcode::SetF64 => "SETF"@,
            Opcode::LoadF64 => "LOADF"@,
            Opcode::StoreF64 => "STORF"@,
            Opcode::MoveF64 => "MOVF"@,
            Opcode::AddF64 => "ADDF"@,
            Opcode::SubtractF64 => "SUBF"@,
            Opcode::MultiplyF64 => "MULF"@,
            Opcode::DivideF64 => "DIVF"@,
            Opcode::EqualF64 => "EQF"@,
            Opcode::NotEqualF64 => "NEQF"@,
            Opcode::GreaterThanF64 => "GTF"@,
            Opcode::LessThanF64 => "LTF"@,
            Opcode::GreaterThanOrEqualF64 => "GEQF"@,
            Opcode::LessThanOrEqualF64 => "LEQF"@,
            Opcode::Jump => "JMP"@,
            Opcode::JumpForward => "JMPF"@,
            Opcode::JumpBackward => "JMPB"@,
            Opcode::JumpIfEqual => "JEQ"@,
        }
    }

    /// One sentence on what the instruction does.
    pub open spec fn summary(self) -> Seq<char> {
        match self {
            Opcode::Halt => "Stop execution immediately."@,
            Opcode::SetI32 => "Set $target using constant bytes."@,
            Opcode::Load => "Set $target to #value."@,
            Opcode::Store => "Set #target to $value."@,
            Opcode::Move => "Set $target to $value."@,
            Opcode::Add => "Set $target to $value1 + $value2."@,
            Opcode::Subtract => "Set $target to $value1 - $value2."@,
            Opcode::Multiply => "Set $target to $value1 * $value2."@,
            Opcode::Divide => "Set $target to $value1 / $value2. Remainder in a dedicated register."@,
            Opcode::And => "Set $target to $value1 & $value2."@,
            Opcode::Or => "Set $target to $value1 | $value2."@,
            Opcode::XOR => "Set $target to $value1 ^ $value2."@,
            Opcode::ShiftLeft => "Bit shift $target $count left."@,
            Opcode::ShiftRight => "Bit shift $target $count right."@,
            Opcode::Increment => "Increment $target by 1."@,
            Opcode::Decrement => "Decrement $target by 1."@,
            Opcode::Equal => "Sets Z flag if $value1 == $value2."@,
            Opcode::NotEqual => "Sets Z flag if $value1 != $value2."@,
            Opcode::GreaterThan => "Sets Z flag if $value1 > $value2."@,
            Opcode::LessThan => "Sets Z flag if $value1 < $value2."@,
            Opcode::GreaterThanOrEqual => "Sets Z flag if $value1 >= $value2."@,
            Opcode::LessThanOrEqual => "Sets Z flag if $value1 <= $value2."@,
            Opcode::SetF64 => "Set $target using constant bytes."@,
            Opcode::LoadF64 => "Set $target to #value."@,
            Opcode::StoreF64 => "Set #target to $value."@,
            Opcode::MoveF64 => "Set $target to $value."@,
            Opcode::AddF64 => "Set $target to $value1 + $value2."@,
            Opcode::SubtractF64 => "Set $target to $value1 - $value2."@,
            Opcode::MultiplyF64 => "Set $target to $value1 * $value2."@,
            Opcode::DivideF64 => "Set $target to $value1 / $value2."@,
            Opcode::EqualF64 => "Sets Z flag if $value1 == $value2."@,
            Opcode::NotEqualF64 => "Sets Z flag if $value1 != $value2."@,
            Opcode::GreaterThanF64 => "Sets Z flag if $value1 > $value2."@,
            Opcode::LessThanF64 => "Sets Z flag if $value1 < $value2."@,
            Opcode::GreaterThanOrEqualF64 => "Sets Z flag if $value1 >= $value2."@,
            Opcode::LessThanOrEqualF64 => "Sets Z flag if $value1 <= $value2."@,
            Opcode::Jump => "Jump to #byte."@,
            Opcode::JumpForward => "Jump forward $bytes."@,
            Opcode::JumpBackward => "Jump backward $bytes."@,
            Opcode::JumpIfEqual => "If the Z flag is set, jump to $bytes."@,
        }
    }

    /// Every instruction, in the order of the codes.
    pub open spec fn catalog() -> Seq<Opcode> {
        seq![
            Opcode::Halt,
            Opcode::SetI32,
            Opcode::Load,
            Opcode::Store,
            Opcode::Move,
            Opcode::Add,
            Opcode::Subtract,
            Opcode::Multiply,
            Opcode::Divide,
            Opcode::And,
            Opcode::Or,
            Opcode::XOR,
            Opcode::ShiftLeft,
            Opcode::ShiftRight,
            Opcode::Increment,
            Opcode::Decrement,
            Opcode::Equal,
            Opcode::NotEqual,
            Opcode::GreaterThan,
            Opcode::LessThan,
            Opcode::GreaterThanOrEqual,
            Opcode::LessThanOrEqual,
            Opcode::SetF64,
            Opcode::LoadF64,
            Opcode::StoreF64,
            Opcode::MoveF64,
            Opcode::AddF64,
            Opcode::SubtractF64,
            Opcode::MultiplyF64,
            Opcode::DivideF64,
            Opcode::EqualF64,
            Opcode::NotEqualF64,
            Opcode::GreaterThanF64,
            Opcode::LessThanF64,
            Opcode::GreaterThanOrEqualF64,
            Opcode::LessThanOrEqualF64,
            Opcode::Jump,
            Opcode::JumpForward,
            Opcode::JumpBackward,
            Opcode::JumpIfEqual,
        ]
    }

    /// The name of the instruction.
    pub fn name(&self) -> (name: &'static str)
        ensures
            name@ == self.title(),
    {
        match self {
            Opcode::Halt => "Halt",
            Opcode::SetI32 => "SetI32",
            Opcode::Load => "Load",
            Opcode::Store => "Store",
            Opcode::Move => "Move",
            Opcode::Add => "Add",
            Opcode::Subtract => "Subtract",
            Opcode::Multiply => "Multiply",
            Opcode::Divide => "Divide",
            Opcode::And => "And",
            Opcode::Or => "Or",
            Opcode::XOR => "XOR",
            Opcode::ShiftLeft => "ShiftLeft",
            Opcode::ShiftRight => "ShiftRight",
            Opcode::Increment => "Increment",
            Opcode::Decrement => "Decrement",
            Opcode::Equal => "Equal",
            Opcode::NotEqual => "NotEqual",
            Opcode::GreaterThan => "GreaterThan",
            Opcode::LessThan => "LessThan",
            Opcode::GreaterThanOrEqual => "GreaterThanOrEqual",
            Opcode::LessThanOrEqual => "LessThanOrEqual",
            Opcode::SetF64 => "SetF64",
            Opcode::LoadF64 => "LoadF64",
            Opcode::StoreF64 => "StoreF64",
            Opcode::MoveF64 => "MoveF64",
            Opcode::AddF64 => "AddF64",
            Opcode::SubtractF64 => "SubtractF64",
            Opcode::MultiplyF64 => "MultiplyF64",
            Opcode::DivideF64 => "DivideF64",
            Opcode::EqualF64 => "EqualF64",
            Opcode::NotEqualF64 => "NotEqualF64",
            Opcode::GreaterThanF64 => "GreaterThanF64",
            Opcode::LessThanF64 => "LessThanF64",
            Opcode::GreaterThanOrEqualF64 => "GreaterThanOrEqualF64",
            Opcode::LessThanOrEqualF64 => "LessThanOrEqualF64",
            Opcode::Jump => "Jump",
            Opcode::JumpForward => "JumpForward",
            Opcode::JumpBackward => "JumpBackward",
            Opcode::JumpIfEqual => "JumpIfEqual",
        }
    }

    /// One sentence on what the instruction does.
    pub fn info(&self) -> (info: &'static str)
        ensures
            info@ == self.summary(),
    {
        match self {
            Opcode::Halt => "Stop execution immediately.",
            Opcode::SetI32 => "Set $target using constant bytes.",
            Opcode::Load => "Set $target to #value.",
            Opcode::Store => "Set #target to $value.",
            Opcode::Move => "Set $target to $value.",
            Opcode::Add => "Set $target to $value1 + $value2.",
            Opcode::Subtract => "Set $target to $value1 - $value2.",
            Opcode::Multiply => "Set $target to $value1 * $value2.",
            Opcode::Divide => "Set $target to $value1 / $value2. Remainder in a dedicated register.",
            Opcode::And => "Set $target to $value1 & $value2.",
            Opcode::Or => "Set $target to $value1 | $value2.",
            Opcode::XOR => "Set $target to $value1 ^ $value2.",
            Opcode::ShiftLeft => "Bit shift $target $count left.",
            Opcode::ShiftRight => "Bit shift $target $count right.",
            Opcode::Increment => "Increment $target by 1.",
            Opcode::Decrement => "Decrement $target by 1.",
            Opcode::Equal => "Sets Z flag if $value1 == $value2.",
            Opcode::NotEqual => "Sets Z flag if $value1 != $value2.",
            Opcode::GreaterThan => "Sets Z flag if $value1 > $value2.",
            Opcode::LessThan => "Sets Z flag if $value1 < $value2.",
            Opcode::GreaterThanOrEqual => "Sets Z flag if $value1 >= $value2.",
            Opcode::LessThanOrEqual => "Sets Z flag if $value1 <= $value2.",
            Opcode::SetF64 => "Set $target using constant bytes.",
            Opcode::LoadF64 => "Set $target to #value.",
            Opcode::StoreF64 => "Set #target to $value.",
            Opcode::MoveF64 => "Set $target to $value.",
            Opcode::AddF64 => "Set $target to $value1 + $value2.",
            Opcode::SubtractF64 => "Set $target to $value1 - $value2.",
            Opcode::MultiplyF64 => "Set $target to $value1 * $value2.",
            Opcode::DivideF64 => "Set $target to $value1 / $value2.",
            Opcode::EqualF64 => "Sets Z flag if $value1 == $value2.",
            Opcode::NotEqualF64 => "Sets Z flag if $value1 != $value2.",
            Opcode::GreaterThanF64 => "Sets Z flag if $value1 > $value2.",
            Opcode::LessThanF64 => "Sets Z flag if $value1 < $value2.",
            Opcode::GreaterThanOrEqualF64 => "Sets Z flag if $value1 >= $value2.",
            Opcode::LessThanOrEqualF64 => "Sets Z flag if $value1 <= $value2.",
            Opcode::Jump => "Jump to #byte.",
            Opcode::JumpForward => "Jump forward $bytes.",
            Opcode::JumpBackward => "Jump backward $bytes.",
            Opcode::JumpIfEqual => "If the Z flag is set, jump to $bytes.",
        }
    }

    /// The mnemonic of the instruction.
    pub fn instruction(&self) -> (mnemonic: &'static str)
        ensures
            mnemonic@ == self.mnemonic(),
    {
        match self {
            Opcode::Halt => "HLT",
            Opcode::SetI32 => "SET",
            Opcode::Load => "LOAD",
            Opcode::Store => "STOR",
            Opcode::Move => "MOV",
            Opcode::Add => "ADD",
            Opcode::Subtract => "SUB",
            Opcode::Multiply => "MUL",
            Opcode::Divide => "DIV",
            Opcode::And => "AND",
            Opcode::Or => "OR",
            Opcode::XOR => "XOR",
            Opcode::ShiftLeft => "SHL",
            Opcode::ShiftRight => "SHR",
            Opcode::Increment => "INC",
            Opcode::Decrement => "DEC",
            Opcode::Equal => "EQ",
            Opcode::NotEqual => "NEQ",
            Opcode::GreaterThan => "GT",
            Opcode::LessThan => "LT",
            Opcode::GreaterThanOrEqual => "GEQ",
            Opcode::LessThanOrEqual => "LEQ",
            Opcode::SetF64 => "SETF",
            Opcode::LoadF64 => "LOADF",
            Opcode::StoreF64 => "STORF",
            Opcode::MoveF64 => "MOVF",
            Opcode::AddF64 => "ADDF",
            Opcode::SubtractF64 => "SUBF",
            Opcode::MultiplyF64 => "MULF",
            Opcode::DivideF64 => "DIVF",
            Opcode::EqualF64 => "EQF",
            Opcode::NotEqualF64 => "NEQF",
            Opcode::GreaterThanF64 => "GTF",
            Opcode::LessThanF64 => "LTF",
            Opcode::GreaterThanOrEqualF64 => "GEQF",
            Opcode::LessThanOrEqualF64 => "LEQF",
            Opcode::Jump => "JMP",
            Opcode::JumpForward => "JMPF",
            Opcode::JumpBackward => "JMPB",
            Opcode::JumpIfEqual => "JEQ",
        }
    }

    /// Every instruction, in the order of the codes.
    pub fn all() -> (list: Vec<Opcode>)
        ensures
            list@ == Opcode::catalog(),
    {
        let mut list: Vec<Opcode> = Vec::new();
        list.push(Opcode::Halt);
        list.push(Opcode::SetI32);
        list.push(Opcode::Load);
        list.push(Opcode::Store);
        list.push(Opcode::Move);
        list.push(Opcode::Add);
        list.push(Opcode::Subtract);
        list.push(Opcode::Multiply);
        list.push(Opcode::Divide);
        list.push(Opcode::And);
        list.push(Opcode::Or);
        list.push(Opcode::XOR);
        list.push(Opcode::ShiftLeft);
        list.push(Opcode::ShiftRight);
        list.push(Opcode::Increment);
        list.push(Opcode::Decrement);
        list.push(Opcode::Equal);
        list.push(Opcode::NotEqual);
        list.push(Opcode::GreaterThan);
        list.push(Opcode::LessThan);
        list.push(Opcode::GreaterThanOrEqual);
        list.push(Opcode::LessThanOrEqual);
        list.push(Opcode::SetF64);
        list.push(Opcode::LoadF64);
        list.push(Opcode::StoreF64);
        list.push(Opcode::MoveF64);
        list.push(Opcode::AddF64);
        list.push(Opcode::SubtractF64);
        list.push(Opcode::MultiplyF64);
        list.push(Opcode::DivideF64);
        list.push(Opcode::EqualF64);
        list.push(Opcode::NotEqualF64);
        list.push(Opcode::GreaterThanF64);
        list.push(Opcode::LessThanF64);
        list.push(Opcode::GreaterThanOrEqualF64);
        list.push(Opcode::LessThanOrEqualF64);
        list.push(Opcode::Jump);
        list.push(Opcode::JumpForward);
        list.push(Opcode::JumpBackward);
        list.push(Opcode::JumpIfEqual);
        assert(list@ =~= Opcode::catalog());
        list
    }
}

/// The catalog holds every instruction, and each of them once.
pub proof fn lemma_catalog_is_complete(op: Opcode)
    ensures
        Opcode::catalog().contains(op),
        forall|i: int, j: int|
            0 <= i < j < Opcode::catalog().len() ==> Opcode::catalog()[i] != Opcode::catalog()[j],
{
    let catalog = Opcode::catalog();
    let at: int = match op {
        Opcode::Halt => 0,
        Opcode::SetI32 => 1,
        Opcode::Load => 2,
        Opcode::Store => 3,
        Opcode::Move => 4,
        Opcode::Add => 5,
        Opcode::Subtract => 6,
        Opcode::Multiply => 7,
        Opcode::Divide => 8,
        Opcode::And => 9,
        Opcode::Or => 10,
        Opcode::XOR => 11,
        Opcode::ShiftLeft => 12,
        Opcode::ShiftRight => 13,
        Opcode::Increment => 14,
        Opcode::Decrement => 15,
        Opcode::Equal => 16,
        Opcode::NotEqual => 17,
        Opcode::GreaterThan => 18,
        Opcode::LessThan => 19,
        Opcode::GreaterThanOrEqual => 20,
        Opcode::LessThanOrEqual => 21,
        Opcode::SetF64 => 22,
        Opcode::LoadF64 => 23,
        Opcode::StoreF64 => 24,
        Opcode::MoveF64 => 25,
        Opcode::AddF64 => 26,
        Opcode::SubtractF64 => 27,
        Opcode::MultiplyF64 => 28,
        Opcode::DivideF64 => 29,
        Opcode::EqualF64 => 30,
        Opcode::NotEqualF64 => 31,
        Opcode::GreaterThanF64 => 32,
        Opcode::LessThanF64 => 33,
        Opcode::GreaterThanOrEqualF64 => 34,
        Opcode::LessThanOrEqualF64 => 35,
        Opcode::Jump => 36,
        Opcode::JumpForward => 37,
        Opcode::JumpBackward => 38,
        Opcode::JumpIfEqual => 39,
    };
    assert(catalog[at] == op);
}

/// `c` with a small Latin letter made a capital one.
pub open spec fn fold(c: char) -> char {
    if 'a' <= c && c <= 'z' {
        ((c as u8) - 32) as char
    } else {
        c
    }
}

/// Whether the bytes of `word` spell `name`, letters counting the same in
/// upper and lower case.
pub open spec fn spells(word: Seq<u8>, name: Seq<char>) -> bool {
    word.len() == name.len() && forall|i: int|
        0 <= i < word.len() ==> fold(word[i] as char) == fold(name[i])
}

/// The first instruction of the catalog, from entry `k` on, whose mnemonic
/// `word` spells.
pub open spec fn by_mnemonic(word: Seq<u8>, k: int) -> Option<Opcode>
    decreases Opcode::catalog().len() - k,
{
    if k < 0 || k >= Opcode::catalog().len() {
        None
    } else if spells(word, Opcode::catalog()[k].mnemonic()) {
        Some(Opcode::catalog()[k])
    } else {
        by_mnemonic(word, k + 1)
    }
}

/// The first instruction of the catalog, from entry `k` on, whose name
/// `word` spells.
pub open spec fn by_title(word: Seq<u8>, k: int) -> Option<Opcode>
    decreases Opcode::catalog().len() - k,
{
    if k < 0 || k >= Opcode::catalog().len() {
        None
    } else if spells(word, Opcode::catalog()[k].title()) {
        Some(Opcode::catalog()[k])
    } else {
        by_title(word, k + 1)
    }
}

/// The instruction that `word` stands for: the one with that mnemonic, or
/// else the one with that name.
pub open spec fn lookup(word: Seq<u8>) -> Option<Opcode> {
    match by_mnemonic(word, 0) {
        Some(op) => Some(op),
        None => by_title(word, 0),
    }
}

fn fold_char(c: char) -> (r: char)
    ensures
        r == fold(c),
{
    if 'a' <= c && c <= 'z' {
        ((c as u8) - 32) as char
    } else {
        c
    }
}

/// Whether the bytes of `word` spell `name`, letters counting the same in
/// upper and lower case.
pub fn spelled(word: &[u8], name: &str) -> (r: bool)
    ensures
        r == spells(word@, name@),
{
    let n = name.unicode_len();
    if word.len() != n {
        return false;
    }
    let mut i: usize = 0;
    while i < n
        invariant
            i <= n,
            n == word@.len(),
            n == name@.len(),
            forall|k: int| 0 <= k < i ==> fold(word@[k] as char) == fold(name@[k]),
        decreases n - i,
    {
        if fold_char(word[i] as char) != fold_char(name.get_char(i)) {
            return false;
        }
        i += 1;
    }
    true
}

impl Opcode {
    /// The instruction that `word` stands for, or `None` where it stands
    /// for none.
    ///
    /// `word` is taken for a mnemonic first and for a name second, and
    /// letters count the same in upper and lower case.
    pub fn named(word: &[u8]) -> (found: Option<Opcode>)
        ensures
            found == lookup(word@),
    {
        let list = Opcode::all();
        let mut k: usize = 0;
        while k < list.len()
            invariant
                k <= list.len(),
                list@ == Opcode::catalog(),
                by_mnemonic(word@, k as int) == by_mnemonic(word@, 0),
            decreases list.len() - k,
        {
            if spelled(word, list[k].instruction()) {
                return Some(list[k]);
            }
            k += 1;
        }
        k = 0;
        while k < list.len()
            invariant
                k <= list.len(),
                list@ == Opcode::catalog(),
                by_mnemonic(word@, 0) is None,
                by_title(word@, k as int) == by_title(word@, 0),
            decreases list.len() - k,
        {
            if spelled(word, list[k].name()) {
                return Some(list[k]);
            }
            k += 1;
        }
        None
    }
}

} // verus!
