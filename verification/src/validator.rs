//! The stack simulation engine.

use crate::classifications::{contains, Category, GLOBAL_GET, LOCAL_GET};
use crate::errors::InstructionError;
use crate::semantics::{
    access, apply, check_body, check_function, environment, lemma_run_error_persists,
    lemma_validate_error_persists, pop_matches, run, stack_after, step, validate_first,
    validate_module, Filter,
};
use crate::signature::{get_instruction_signature, Signature};
use crate::types::{FuncBody, Instruction, ModuleData, ValueType};
use vstd::prelude::*;

verus! {

/// Validates the function bodies of one module against a simulated operand
/// stack. The validator borrows the module and owns the stack.
pub struct ModuleValidator<'a> {
    module: &'a ModuleData,
    filter: Filter,
    stack: Vec<ValueType>,
}

/// Pushes the types of `source` onto `target`, in order.
fn push_all(target: &mut Vec<ValueType>, source: &Vec<ValueType>)
    ensures
        final(target)@ == old(target)@ + source@,
{
    let n: usize = source.len();
    let mut i: usize = 0;
    while i < n
        invariant
            i <= n,
            n == source@.len(),
            target@ == old(target)@ + source@.subrange(0, i as int),
        decreases n - i,
    {
        target.push(source[i]);
        i += 1;
        assert(target@ =~= old(target)@ + source@.subrange(0, i as int));
    }
    assert(source@.subrange(0, n as int) =~= source@);
}

impl<'a> ModuleValidator<'a> {
    /// The module under validation.
    pub closed spec fn module(&self) -> ModuleData {
        *self.module
    }

    /// The filter that the validator was made with.
    pub closed spec fn filter(&self) -> Filter {
        self.filter
    }

    /// The simulated operand stack, its top last.
    pub closed spec fn stack_types(&self) -> Seq<ValueType> {
        self.stack@
    }

    /// A validator for `module` with an empty stack.
    pub fn new(module: &'a ModuleData, filter: Filter) -> (validator: Self)
        ensures
            validator.module() == *module,
            validator.filter() == filter,
            validator.stack_types() == Seq::<ValueType>::empty(),
    {
        ModuleValidator { module, filter, stack: Vec::new() }
    }

    /// The simulated operand stack as the last check left it, its top last.
    pub fn stack(&self) -> (stack: &Vec<ValueType>)
        ensures
            stack@ == self.stack_types(),
    {
        &self.stack
    }

    /// Checks every function body of the module in declaration order and
    /// stops at the first error.
    ///
    /// A module without a code section is valid. The result depends on the
    /// module and the filter alone, not on the stack that an earlier call
    /// left behind.
    pub fn validate(&mut self) -> (result: Result<bool, InstructionError>)
        ensures
            final(self).module() == old(self).module(),
            final(self).filter() == old(self).filter(),
            result == validate_module(old(self).module(), old(self).filter()),
            result is Ok ==> final(self).stack_types() == stack_after(
                old(self).module(),
                old(self).filter(),
                old(self).stack_types(),
            ),
    {
        let module: &'a ModuleData = self.module;
        match &module.code {
            Some(bodies) => {
                let n: usize = bodies.len();
                let mut index: usize = 0;
                while index < n
                    invariant
                        index <= n,
                        n == bodies@.len(),
                        module.code == Some(*bodies),
                        self.module() == *module,
                        old(self).module() == *module,
                        self.filter() == old(self).filter(),
                        validate_first(*module, self.filter(), index as nat) == Ok::<
                            bool,
                            InstructionError,
                        >(true),
                        index == 0 ==> self.stack_types() == old(self).stack_types(),
                        index > 0 ==> check_function(*module, self.filter(), index - 1) == Ok::<
                            Seq<ValueType>,
                            InstructionError,
                        >(self.stack_types()),
                    decreases n - index,
                {
                    let checked = self.check_instructions(&bodies[index], index);
                    match checked {
                        Err(e) => {
                            proof {
                                lemma_validate_error_persists(
                                    *module,
                                    self.filter(),
                                    (index + 1) as nat,
                                    n as nat,
                                );
                            }
                            return Err(e);
                        },
                        Ok(is_function_valid) => {
                            if !is_function_valid {
                                return Ok(false);
                            }
                        },
                    }
                    index += 1;
                }
                Ok(true)
            },
            None => Ok(true),
        }
    }

    /// Checks one function body, instruction by instruction, on a stack that
    /// starts empty. `index` is the function's position in the module.
    pub fn check_instructions(&mut self, body: &FuncBody, index: usize) -> (result: Result<
        bool,
        InstructionError,
    >)
        ensures
            final(self).module() == old(self).module(),
            final(self).filter() == old(self).filter(),
            match result {
                Ok(valid) => valid && check_body(
                    old(self).module(),
                    old(self).filter(),
                    *body,
                    index as int,
                ) == Ok::<Seq<ValueType>, InstructionError>(final(self).stack_types()),
                Err(e) => check_body(old(self).module(), old(self).filter(), *body, index as int)
                    == Err::<Seq<ValueType>, InstructionError>(e),
            },
    {
        self.stack.clear();
        let env = self.local_environment(body, index);
        let n: usize = body.code.len();
        let mut i: usize = 0;
        while i < n
            invariant
                i <= n,
                n == body.code@.len(),
                env@ == environment(self.module(), *body, index as int),
                self.module() == old(self).module(),
                self.filter() == old(self).filter(),
                run(env@, self.module().globals@, self.filter(), body.code@, i as nat) == Ok::<
                    Seq<ValueType>,
                    InstructionError,
                >(self.stack_types()),
            decreases n - i,
        {
            let instruction = &body.code[i];
            let ghost before = self.stack_types();
            if contains(instruction, Category::Accessor) {
                match self.push_global_or_local(instruction, &env) {
                    Err(e) => {
                        proof {
                            assert(step(env@, self.module().globals@, self.filter(), before, *instruction)
                                == Err::<Seq<ValueType>, InstructionError>(e));
                            lemma_run_error_persists(
                                env@,
                                self.module().globals@,
                                self.filter(),
                                body.code@,
                                (i + 1) as nat,
                                n as nat,
                            );
                        }
                        return Err(e);
                    },
                    Ok(pushed) => {
                        if !pushed {
                            return Ok(false);
                        }
                    },
                }
            }
            match self.filter {
                Filter::NumericInstructions => {
                    match get_instruction_signature(instruction) {
                        Some(signature) => {
                            match self.validate_instruction(&signature, instruction) {
                                Err(e) => {
                                    proof {
                                        lemma_run_error_persists(
                                            env@,
                                            self.module().globals@,
                                            self.filter(),
                                            body.code@,
                                            (i + 1) as nat,
                                            n as nat,
                                        );
                                    }
                                    return Err(e);
                                },
                                Ok(matched) => {
                                    if !matched {
                                        return Ok(false);
                                    }
                                },
                            }
                        },
                        None => {},
                    }
                },
                Filter::NoFilter => {},
            }
            i += 1;
        }
        Ok(true)
    }

    /// Builds the local environment of function `index` with body `body`: one
    /// table that holds the parameter types first and the declared locals
    /// after them.
    pub fn local_environment(&self, body: &FuncBody, index: usize) -> (env: Vec<ValueType>)
        ensures
            env@ == environment(self.module(), *body, index as int),
    {
        let mut env: Vec<ValueType> = Vec::new();
        match self.module.params(index) {
            Some(params) => {
                push_all(&mut env, params);
            },
            None => {},
        }
        assert(env@ =~= self.module().params_of(index as int));
        push_all(&mut env, &body.locals);
        env
    }

    /// Checks the stack against a stack effect and applies it: pops one type
    /// for each popped type of the signature, the first from the top, and
    /// then pushes the pushed types in order.
    ///
    /// Fails with `InvalidOperation` on `instruction` at the first popped
    /// type that differs or is missing.
    pub fn validate_instruction(&mut self, signature: &Signature, instruction: &Instruction) -> (result:
        Result<bool, InstructionError>)
        ensures
            final(self).module() == old(self).module(),
            final(self).filter() == old(self).filter(),
            match result {
                Ok(valid) => valid && apply(old(self).stack_types(), signature@, *instruction)
                    == Ok::<Seq<ValueType>, InstructionError>(final(self).stack_types()),
                Err(e) => apply(old(self).stack_types(), signature@, *instruction) == Err::<
                    Seq<ValueType>,
                    InstructionError,
                >(e),
            },
    {
        let n: usize = signature.pop.len();
        let mut k: usize = 0;
        while k < n
            invariant
                k <= n,
                n == signature.pop@.len(),
                k <= old(self).stack_types().len(),
                self.module() == old(self).module(),
                self.filter() == old(self).filter(),
                self.stack_types() == old(self).stack_types().subrange(
                    0,
                    old(self).stack_types().len() - k,
                ),
                forall|j: int|
                    0 <= j < k ==> old(self).stack_types()[old(self).stack_types().len() - 1 - j]
                        == #[trigger] signature.pop@[j],
            decreases n - k,
        {
            match self.stack.pop() {
                Some(stack_value) => {
                    if stack_value != signature.pop[k] {
                        assert(!pop_matches(old(self).stack_types(), signature.pop@));
                        return Err(InstructionError::InvalidOperation(*instruction));
                    }
                },
                None => {
                    assert(!pop_matches(old(self).stack_types(), signature.pop@));
                    return Err(InstructionError::InvalidOperation(*instruction));
                },
            }
            k += 1;
        }
        push_all(&mut self.stack, &signature.push);
        Ok(true)
    }

    /// Resolves an accessor against `env`, the local environment of the
    /// function under check, or against the module's globals, and pushes the
    /// type of the slot it addresses.
    ///
    /// Fails with `LocalNotFound` or `GlobalNotFound` where the slot does not
    /// exist, and with `UnmatchedInstruction` where the instruction is
    /// neither accessor; the stack is then left as it was.
    pub fn push_global_or_local(&mut self, instruction: &Instruction, env: &Vec<ValueType>) -> (result:
        Result<bool, InstructionError>)
        ensures
            final(self).module() == old(self).module(),
            final(self).filter() == old(self).filter(),
            match result {
                Ok(pushed) => pushed && access(
                    env@,
                    old(self).module().globals@,
                    old(self).stack_types(),
                    *instruction,
                ) == Ok::<Seq<ValueType>, InstructionError>(final(self).stack_types()),
                Err(e) => access(
                    env@,
                    old(self).module().globals@,
                    old(self).stack_types(),
                    *instruction,
                ) == Err::<Seq<ValueType>, InstructionError>(e)
                    && final(self).stack_types() == old(self).stack_types(),
            },
    {
        let slot: usize = instruction.index as usize;
        if instruction.opcode == GLOBAL_GET {
            if slot < self.module.globals.len() {
                self.stack.push(self.module.globals[slot]);
                Ok(true)
            } else {
                Err(InstructionError::GlobalNotFound)
            }
        } else if instruction.opcode == LOCAL_GET {
            if slot < env.len() {
                self.stack.push(env[slot]);
                Ok(true)
            } else {
                Err(InstructionError::LocalNotFound)
            }
        } else {
            Err(InstructionError::UnmatchedInstruction)
        }
    }
}

} // verus!
