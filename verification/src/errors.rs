//! The failures that the validator reports.

use crate::types::Instruction;
use vstd::prelude::*;

verus! {

/// Why a module was rejected. Each error ends the validation of the whole
/// module at the point where it was found.
#[derive(Clone, Copy, Debug, PartialEq, Eq, Structural)]
pub enum InstructionError {
    /// The operand stack does not hold what the instruction pops: a type
    /// differs, or the stack is too short.
    InvalidOperation(Instruction),
    /// A local accessor addresses a slot beyond the parameters and locals of
    /// its function.
    LocalNotFound,
    /// A global accessor addresses a slot beyond the module's globals.
    GlobalNotFound,
    /// An instruction was handed to accessor resolution that is neither a
    /// local nor a global accessor.
    UnmatchedInstruction,
}

} // verus!
