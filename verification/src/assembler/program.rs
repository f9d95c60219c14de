//! A program as the assembler hands it over.

use vstd::prelude::*;
use crate::assembler::header::Header;

verus! {

/// A program: its header, its constant data and its instruction bytes.
pub struct Program {
    pub header: Header,
    pub read_only: Vec<u8>,
    pub bytecode: Vec<u8>,
}

impl Default for Program {
    /// An empty program under the default header.
    fn default() -> (program: Program)
        ensures
            program.header == Header::initial(),
            program.read_only@ == Seq::<u8>::empty(),
            program.bytecode@ == Seq::<u8>::empty(),
    {
        Program { header: Header::default(), read_only: Vec::new(), bytecode: Vec::new() }
    }
}

impl Program {
    /// Loads nothing: a program is put together from its parts.
    pub fn load() {
    }
}

} // verus!
