//! A register-based virtual machine with a verified execution engine.
//!
//! The crate has these parts:
//!
//! * [`vm`] is the machine itself: sixteen integer registers, thirty-two
//!   floating-point registers, a byte-addressable heap, a comparison flag
//!   and a dispatch loop over a flat stream of instruction bytes.
//! * [`assembler`] holds the container format that wraps a program with a
//!   fixed-length header.
//! * [`monitor`] is the grammar of the interactive front end: it turns a
//!   typed line into a command or into instruction bytes.
//! * [`cpu`] is a small stack evaluator for arithmetic expressions.
//! * [`bytes`] and [`division`] say what little-endian encoding and
//!   division rounded toward zero are, for the parts above.
//!
//! Every function states in its contract what it returns for every input,
//! and no function of this crate panics.

pub mod assembler;
pub mod bytes;
pub mod cpu;
pub mod division;
pub mod monitor;
pub mod vm;
