//! A small byte-slice view with a bounds-checked split, and the logic of a
//! minimal `cat` / `grep` command-line tool: classifying the argument tokens
//! into a command, and filtering lines by literal substring.
use vstd::prelude::*;

pub mod bytes;
pub mod command;
pub mod error;
pub mod text;
pub mod grep;

verus! {

} // verus!
