//! The container that wraps a program for storage: a fixed-length header
//! followed by the instruction bytes.

pub mod header;
pub mod program;
