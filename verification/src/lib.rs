//! A type-soundness validator for the function bodies of a stack-machine
//! module.
//!
//! The validator walks every function body of a [`ModuleData`], keeps a
//! simulated operand stack of value types, and reports the first instruction
//! whose operands are not on the stack with the types it asks for. Only
//! accessors, constant pushes and binary operators have a modelled stack
//! effect; every other instruction is passed over, and control flow is not
//! followed.
//!
//! - [`types`]: value types, instructions, function bodies, the module.
//! - [`classifications`]: the category of each operation kind.
//! - [`signature`]: the stack effect of an instruction.
//! - [`semantics`]: what a validation computes, over sequences.
//! - [`validator`]: the engine, [`ModuleValidator`].
//! - [`guarantees`]: what holds of every validation.
//! - [`parity`]: reading a module that `parity_wasm` has decoded.

pub mod classifications;
pub mod errors;
pub mod guarantees;
pub mod parity;
pub mod semantics;
pub mod signature;
pub mod types;
pub mod validator;

pub use classifications::{category_of, classify, contains, Category};
pub use errors::InstructionError;
pub use parity::from_parity;
pub use semantics::Filter;
pub use signature::{get_const_signature, get_instruction_signature, signature_of, Signature};
pub use types::{FuncBody, FunctionType, Instruction, ModuleData, ValueType};
pub use validator::ModuleValidator;
