//! What the validator computes, stated over sequences of value types.
//!
//! The simulated operand stack is a sequence whose last element is the top.

use crate::classifications::{category_of, Category, GLOBAL_GET, LOCAL_GET};
use crate::errors::InstructionError;
use crate::signature::{signature_of, SignatureView};
use crate::types::{FuncBody, Instruction, ModuleData, ValueType};
use vstd::prelude::*;

verus! {

/// Which instruction categories a validation pass checks.
#[derive(Clone, Copy, Debug, PartialEq, Eq, Structural)]
pub enum Filter {
    /// Check the binary operators and the constant pushes of the four value
    /// types.
    NumericInstructions,
    /// Check no instruction. Accessors are still resolved.
    NoFilter,
}

/// The local environment of function `index` with body `body`: the parameter
/// types of the function's signature, then the body's declared locals.
pub open spec fn environment(module: ModuleData, body: FuncBody, index: int) -> Seq<ValueType> {
    module.params_of(index) + body.locals@
}

/// Whether the top of `stack` holds the types of `pop`, the first of them on
/// top, the next one below it, and so on.
pub open spec fn pop_matches(stack: Seq<ValueType>, pop: Seq<ValueType>) -> bool {
    &&& pop.len() <= stack.len()
    &&& forall|k: int| 0 <= k < pop.len() ==> stack[stack.len() - 1 - k] == #[trigger] pop[k]
}

/// The stack after an accessor has pushed the type of the slot it addresses:
/// a slot of the local environment for a local accessor, a global of the
/// module for a global accessor.
pub open spec fn access(
    env: Seq<ValueType>,
    globals: Seq<ValueType>,
    stack: Seq<ValueType>,
    instruction: Instruction,
) -> Result<Seq<ValueType>, InstructionError> {
    if instruction.opcode == LOCAL_GET {
        if (instruction.index as int) < env.len() {
            Ok(stack.push(env[instruction.index as int]))
        } else {
            Err(InstructionError::LocalNotFound)
        }
    } else if instruction.opcode == GLOBAL_GET {
        if (instruction.index as int) < globals.len() {
            Ok(stack.push(globals[instruction.index as int]))
        } else {
            Err(InstructionError::GlobalNotFound)
        }
    } else {
        Err(InstructionError::UnmatchedInstruction)
    }
}

/// The stack after `instruction` has applied the stack effect `signature`:
/// the popped types leave, the pushed types follow. Where the stack does not
/// hold the popped types, the instruction is an invalid operation.
pub open spec fn apply(
    stack: Seq<ValueType>,
    signature: SignatureView,
    instruction: Instruction,
) -> Result<Seq<ValueType>, InstructionError> {
    if pop_matches(stack, signature.pop) {
        Ok(stack.subrange(0, stack.len() - signature.pop.len()) + signature.push)
    } else {
        Err(InstructionError::InvalidOperation(instruction))
    }
}

/// The stack after the numeric check of one instruction: its stack effect is
/// applied where it has one; any other instruction leaves the stack as it is.
pub open spec fn check_numeric(stack: Seq<ValueType>, instruction: Instruction) -> Result<
    Seq<ValueType>,
    InstructionError,
> {
    match signature_of(instruction) {
        Some(signature) => apply(stack, signature, instruction),
        None => Ok(stack),
    }
}

/// The stack after one instruction: an accessor first pushes the type of its
/// slot; then, under the numeric filter, the instruction's stack effect is
/// checked and applied.
pub open spec fn step(
    env: Seq<ValueType>,
    globals: Seq<ValueType>,
    filter: Filter,
    stack: Seq<ValueType>,
    instruction: Instruction,
) -> Result<Seq<ValueType>, InstructionError> {
    let resolved = if category_of(instruction.opcode) == Category::Accessor {
        access(env, globals, stack, instruction)
    } else {
        Ok(stack)
    };
    match resolved {
        Err(e) => Err(e),
        Ok(pushed) => match filter {
            Filter::NumericInstructions => check_numeric(pushed, instruction),
            Filter::NoFilter => Ok(pushed),
        },
    }
}

/// The stack after the first `n` instructions of `code`, starting from an
/// empty stack, or the error of the first instruction that fails.
pub open spec fn run(
    env: Seq<ValueType>,
    globals: Seq<ValueType>,
    filter: Filter,
    code: Seq<Instruction>,
    n: nat,
) -> Result<Seq<ValueType>, InstructionError>
    decreases n,
{
    if n == 0 {
        Ok(Seq::empty())
    } else {
        match run(env, globals, filter, code, (n - 1) as nat) {
            Err(e) => Err(e),
            Ok(stack) => step(env, globals, filter, stack, code[n - 1]),
        }
    }
}

/// The result of checking `body` as function `index` of `module`: the stack
/// after its last instruction, or the first error.
pub open spec fn check_body(module: ModuleData, filter: Filter, body: FuncBody, index: int) -> Result<
    Seq<ValueType>,
    InstructionError,
> {
    run(environment(module, body, index), module.globals@, filter, body.code@, body.code@.len())
}

/// The result of checking function `f` of a module that has a code section.
pub open spec fn check_function(module: ModuleData, filter: Filter, f: int) -> Result<
    Seq<ValueType>,
    InstructionError,
> {
    check_body(module, filter, module.body(f), f)
}

/// The result of validating the first `n` functions of a module that has a
/// code section: `Ok(true)` where each of them passes, else the error of the
/// first one that fails.
pub open spec fn validate_first(module: ModuleData, filter: Filter, n: nat) -> Result<
    bool,
    InstructionError,
>
    decreases n,
{
    if n == 0 {
        Ok(true)
    } else {
        match validate_first(module, filter, (n - 1) as nat) {
            Err(e) => Err(e),
            Ok(_) => match check_function(module, filter, n - 1) {
                Err(e) => Err(e),
                Ok(_) => Ok(true),
            },
        }
    }
}

/// The result of validating a module: `Ok(true)` where it has no code section
/// or every function passes, else the error of the first function that fails.
pub open spec fn validate_module(module: ModuleData, filter: Filter) -> Result<bool, InstructionError> {
    match module.code {
        None => Ok(true),
        Some(bodies) => validate_first(module, filter, bodies@.len()),
    }
}

/// The simulated stack that a successful validation leaves behind: that of
/// the last function checked, or `before` where no function was checked.
pub open spec fn stack_after(module: ModuleData, filter: Filter, before: Seq<ValueType>) -> Seq<
    ValueType,
> {
    match module.code {
        Some(bodies) if bodies@.len() > 0 => {
            match check_function(module, filter, bodies@.len() - 1) {
                Ok(stack) => stack,
                Err(_) => before,
            }
        },
        _ => before,
    }
}

/// Once an instruction has failed, the rest of the body changes nothing: the
/// run over any longer prefix ends in the same error.
pub proof fn lemma_run_error_persists(
    env: Seq<ValueType>,
    globals: Seq<ValueType>,
    filter: Filter,
    code: Seq<Instruction>,
    m: nat,
    n: nat,
)
    requires
        m <= n,
        run(env, globals, filter, code, m) is Err,
    ensures
        run(env, globals, filter, code, n) == run(env, globals, filter, code, m),
    decreases n,
{
    if m < n {
        lemma_run_error_persists(env, globals, filter, code, m, (n - 1) as nat);
    }
}

/// Once a function has failed, the functions after it change nothing: the
/// validation of any longer prefix ends in the same error.
pub proof fn lemma_validate_error_persists(module: ModuleData, filter: Filter, m: nat, n: nat)
    requires
        m <= n,
        validate_first(module, filter, m) is Err,
    ensures
        validate_first(module, filter, n) == validate_first(module, filter, m),
    decreases n,
{
    if m < n {
        lemma_validate_error_persists(module, filter, m, (n - 1) as nat);
    }
}

} // verus!
