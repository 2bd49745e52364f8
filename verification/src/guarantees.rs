//! What holds of every validation, proved from the definitions of
//! [`crate::semantics`].

use crate::classifications::{category_of, Category, GLOBAL_GET, LOCAL_GET};
use crate::errors::InstructionError;
use crate::semantics::{
    check_function, environment, lemma_run_error_persists,
    lemma_validate_error_persists, run, step, validate_first, validate_module, Filter,
};
use crate::signature::{binary_signature, const_signature};
use crate::types::{Instruction, ModuleData, ValueType};
use vstd::prelude::*;

verus! {

/// The operand depth after the first `n` instructions of a body whose
/// classified instructions are constant pushes and binary operators of the
/// one type `t`, where each binary operator finds two operands; an
/// unclassified instruction leaves the depth as it is. `None` where the
/// prefix holds an accessor, a constant push or an operator of another type,
/// or a binary operator that finds fewer than two operands.
pub open spec fn numeric_depth(code: Seq<Instruction>, t: ValueType, n: nat) -> Option<nat>
    decreases n,
{
    if n == 0 {
        Some(0)
    } else {
        match numeric_depth(code, t, (n - 1) as nat) {
            None => None,
            Some(depth) => {
                let category = category_of(code[n - 1].opcode);
                if category == Category::ConstantPush(t) {
                    Some(depth + 1)
                } else if category == Category::BinaryOperator(t) && depth >= 2 {
                    Some((depth - 1) as nat)
                } else if category == Category::Unclassified {
                    Some(depth)
                } else {
                    None
                }
            },
        }
    }
}

/// Whether a body is a well-typed sequence of constant pushes and binary
/// operators of one value type, with unclassified instructions between them
/// at most.
pub open spec fn well_typed_numeric(code: Seq<Instruction>) -> bool {
    exists|t: ValueType| (#[trigger] numeric_depth(code, t, code.len())) is Some
}

/// A stack of `depth` entries of type `t`.
pub open spec fn uniform_stack(t: ValueType, depth: nat) -> Seq<ValueType> {
    Seq::new(depth, |k: int| t)
}

/// A module without a code section is valid under any filter.
pub proof fn lemma_no_code_section_is_valid(module: ModuleData, filter: Filter)
    requires
        module.code is None,
    ensures
        validate_module(module, filter) == Ok::<bool, InstructionError>(true),
{
}

/// A validation never ends in `Ok(false)`: it is `Ok(true)` or an error.
pub proof fn lemma_valid_or_error(module: ModuleData, filter: Filter)
    ensures
        validate_module(module, filter) != Ok::<bool, InstructionError>(false),
{
    if module.code is Some {
        lemma_prefix_valid_or_error(module, filter, module.code->0@.len());
    }
}

/// The validation of the first `n` functions never ends in `Ok(false)`.
pub proof fn lemma_prefix_valid_or_error(module: ModuleData, filter: Filter, n: nat)
    ensures
        validate_first(module, filter, n) != Ok::<bool, InstructionError>(false),
    decreases n,
{
    if n > 0 {
        lemma_prefix_valid_or_error(module, filter, (n - 1) as nat);
    }
}

/// A module is valid where every one of its functions passes its check.
pub proof fn lemma_all_functions_pass(module: ModuleData, filter: Filter, n: nat)
    requires
        forall|f: int| 0 <= f < n ==> (#[trigger] check_function(module, filter, f)) is Ok,
    ensures
        validate_first(module, filter, n) == Ok::<bool, InstructionError>(true),
    decreases n,
{
    if n > 0 {
        lemma_all_functions_pass(module, filter, (n - 1) as nat);
        assert(check_function(module, filter, n - 1) is Ok);
    }
}

/// The first function that fails decides the result: where every function
/// before `f` passes and function `f` fails with `e`, the validation fails
/// with `e`, whatever the functions after `f` hold.
pub proof fn lemma_first_failure_decides(
    module: ModuleData,
    filter: Filter,
    f: int,
    e: InstructionError,
)
    requires
        module.code is Some,
        0 <= f < module.code->0@.len(),
        forall|g: int| 0 <= g < f ==> (#[trigger] check_function(module, filter, g)) is Ok,
        check_function(module, filter, f) == Err::<Seq<ValueType>, InstructionError>(e),
    ensures
        validate_module(module, filter) == Err::<bool, InstructionError>(e),
{
    lemma_all_functions_pass(module, filter, f as nat);
    assert(validate_first(module, filter, (f + 1) as nat) == Err::<bool, InstructionError>(e));
    lemma_validate_error_persists(module, filter, (f + 1) as nat, module.code->0@.len());
}

/// A well-typed prefix of constant pushes and binary operators of one type
/// runs without error, under either filter, and leaves a stack of that type
/// alone.
pub proof fn lemma_well_typed_prefix_runs(
    env: Seq<ValueType>,
    globals: Seq<ValueType>,
    filter: Filter,
    code: Seq<Instruction>,
    t: ValueType,
    n: nat,
)
    requires
        n <= code.len(),
        numeric_depth(code, t, n) is Some,
    ensures
        filter == Filter::NumericInstructions ==> run(env, globals, filter, code, n) == Ok::<
            Seq<ValueType>,
            InstructionError,
        >(uniform_stack(t, numeric_depth(code, t, n)->0)),
        run(env, globals, filter, code, n) is Ok,
    decreases n,
{
    if n > 0 {
        lemma_well_typed_prefix_runs(env, globals, filter, code, t, (n - 1) as nat);
        let depth = numeric_depth(code, t, (n - 1) as nat)->0;
        let instruction = code[n - 1];
        if filter == Filter::NumericInstructions {
            let before = uniform_stack(t, depth);
            let after = uniform_stack(t, numeric_depth(code, t, n)->0);
            if category_of(instruction.opcode) == Category::ConstantPush(t) {
                assert(before.subrange(0, before.len() - 0) + const_signature(t).push =~= after);
            } else if category_of(instruction.opcode) == Category::BinaryOperator(t) {
                assert(before.subrange(0, before.len() - 2) + binary_signature(t).push =~= after);
            }
            assert(step(env, globals, filter, before, instruction) == Ok::<
                Seq<ValueType>,
                InstructionError,
            >(after));
        }
    } else {
        assert(uniform_stack(t, 0) =~= Seq::<ValueType>::empty());
    }
}

/// A module whose every function body is a well-typed sequence of constant
/// pushes and binary operators of one value type is valid.
pub proof fn lemma_well_typed_numeric_module_is_valid(module: ModuleData, filter: Filter)
    requires
        module.code matches Some(bodies) ==> forall|f: int|
            0 <= f < bodies@.len() ==> well_typed_numeric((#[trigger] bodies@[f]).code@),
    ensures
        validate_module(module, filter) == Ok::<bool, InstructionError>(true),
{
    if module.code is Some {
        let n = module.code->0@.len();
        assert forall|f: int| 0 <= f < n implies (#[trigger] check_function(
            module,
            filter,
            f,
        )) is Ok by {
            let body = module.code->0@[f];
            assert(well_typed_numeric(body.code@));
            let t = choose|t: ValueType|
                (#[trigger] numeric_depth(body.code@, t, body.code@.len())) is Some;
            lemma_well_typed_prefix_runs(
                environment(module, body, f),
                module.globals@,
                filter,
                body.code@,
                t,
                body.code@.len(),
            );
        }
        lemma_all_functions_pass(module, filter, n);
    }
}

/// A binary operator that does not find two operands of its type on top of
/// the stack fails the body with `InvalidOperation` on that very
/// instruction: the first `i` instructions run to `stack`, instruction `i`
/// is a binary operator on type `t`, and `stack` is shorter than two or one
/// of its two topmost entries is not `t`.
pub proof fn lemma_operand_mismatch_fails_body(
    env: Seq<ValueType>,
    globals: Seq<ValueType>,
    code: Seq<Instruction>,
    i: int,
    stack: Seq<ValueType>,
    t: ValueType,
)
    requires
        0 <= i < code.len(),
        run(env, globals, Filter::NumericInstructions, code, i as nat) == Ok::<
            Seq<ValueType>,
            InstructionError,
        >(stack),
        category_of(code[i].opcode) == Category::BinaryOperator(t),
        stack.len() < 2 || stack[stack.len() - 1] != t || stack[stack.len() - 2] != t,
    ensures
        run(env, globals, Filter::NumericInstructions, code, code.len()) == Err::<
            Seq<ValueType>,
            InstructionError,
        >(InstructionError::InvalidOperation(code[i])),
{
    let pop = binary_signature(t).pop;
    assert(pop[0] == t && pop[1] == t);
    assert(run(env, globals, Filter::NumericInstructions, code, (i + 1) as nat) == Err::<
        Seq<ValueType>,
        InstructionError,
    >(InstructionError::InvalidOperation(code[i])));
    lemma_run_error_persists(
        env,
        globals,
        Filter::NumericInstructions,
        code,
        (i + 1) as nat,
        code.len(),
    );
}

/// A type mismatch at a binary operator rejects the module with
/// `InvalidOperation` on that instruction, whatever the later functions
/// hold: every function before `f` passes, the first `i` instructions of
/// function `f` run to `stack`, and instruction `i` is a binary operator on
/// type `t` that does not find two operands of type `t` on top of `stack`.
pub proof fn lemma_operand_mismatch_is_invalid_operation(
    module: ModuleData,
    f: int,
    i: int,
    stack: Seq<ValueType>,
    t: ValueType,
)
    requires
        module.code is Some,
        0 <= f < module.code->0@.len(),
        forall|g: int|
            0 <= g < f ==> (#[trigger] check_function(module, Filter::NumericInstructions, g)) is Ok,
        0 <= i < module.body(f).code@.len(),
        run(
            environment(module, module.body(f), f),
            module.globals@,
            Filter::NumericInstructions,
            module.body(f).code@,
            i as nat,
        ) == Ok::<Seq<ValueType>, InstructionError>(stack),
        category_of(module.body(f).code@[i].opcode) == Category::BinaryOperator(t),
        stack.len() < 2 || stack[stack.len() - 1] != t || stack[stack.len() - 2] != t,
    ensures
        validate_module(module, Filter::NumericInstructions) == Err::<bool, InstructionError>(
            InstructionError::InvalidOperation(module.body(f).code@[i]),
        ),
{
    let body = module.body(f);
    lemma_operand_mismatch_fails_body(
        environment(module, body, f),
        module.globals@,
        body.code@,
        i,
        stack,
        t,
    );
    lemma_first_failure_decides(
        module,
        Filter::NumericInstructions,
        f,
        InstructionError::InvalidOperation(body.code@[i]),
    );
}

/// An accessor that addresses a slot out of range fails the body, under
/// either filter: the first `i` instructions run without error, and
/// instruction `i` is a local accessor whose slot is beyond the local
/// environment (`LocalNotFound`) or a global accessor whose slot is beyond
/// the globals (`GlobalNotFound`).
pub proof fn lemma_slot_out_of_range_fails_body(
    env: Seq<ValueType>,
    globals: Seq<ValueType>,
    filter: Filter,
    code: Seq<Instruction>,
    i: int,
)
    requires
        0 <= i < code.len(),
        run(env, globals, filter, code, i as nat) is Ok,
        code[i].opcode == LOCAL_GET && code[i].index >= env.len() || code[i].opcode == GLOBAL_GET
            && code[i].index >= globals.len(),
    ensures
        code[i].opcode == LOCAL_GET ==> run(env, globals, filter, code, code.len()) == Err::<
            Seq<ValueType>,
            InstructionError,
        >(InstructionError::LocalNotFound),
        code[i].opcode == GLOBAL_GET ==> run(env, globals, filter, code, code.len()) == Err::<
            Seq<ValueType>,
            InstructionError,
        >(InstructionError::GlobalNotFound),
{
    assert(run(env, globals, filter, code, (i + 1) as nat) is Err);
    lemma_run_error_persists(env, globals, filter, code, (i + 1) as nat, code.len());
}

/// An accessor that addresses a slot out of range rejects the module, under
/// either filter, with `LocalNotFound` for a local accessor and
/// `GlobalNotFound` for a global accessor: every function before `f`
/// passes, and the first `i` instructions of function `f` run without error.
pub proof fn lemma_slot_out_of_range_is_not_found(module: ModuleData, filter: Filter, f: int, i: int)
    requires
        module.code is Some,
        0 <= f < module.code->0@.len(),
        forall|g: int| 0 <= g < f ==> (#[trigger] check_function(module, filter, g)) is Ok,
        0 <= i < module.body(f).code@.len(),
        run(
            environment(module, module.body(f), f),
            module.globals@,
            filter,
            module.body(f).code@,
            i as nat,
        ) is Ok,
        ({
            let instruction = module.body(f).code@[i];
            instruction.opcode == LOCAL_GET && instruction.index >= environment(
                module,
                module.body(f),
                f,
            ).len() || instruction.opcode == GLOBAL_GET && instruction.index
                >= module.globals@.len()
        }),
    ensures
        module.body(f).code@[i].opcode == LOCAL_GET ==> validate_module(module, filter) == Err::<
            bool,
            InstructionError,
        >(InstructionError::LocalNotFound),
        module.body(f).code@[i].opcode == GLOBAL_GET ==> validate_module(module, filter) == Err::<
            bool,
            InstructionError,
        >(InstructionError::GlobalNotFound),
{
    let body = module.body(f);
    lemma_slot_out_of_range_fails_body(
        environment(module, body, f),
        module.globals@,
        filter,
        body.code@,
        i,
    );
    let e = if body.code@[i].opcode == LOCAL_GET {
        InstructionError::LocalNotFound
    } else {
        InstructionError::GlobalNotFound
    };
    lemma_first_failure_decides(module, filter, f, e);
}

/// The check of a function sees nothing of the other functions: two modules
/// that agree on the globals, on the parameters of function `f` and on its
/// body give function `f` the same result, whatever stack the functions
/// before it have left.
pub proof fn lemma_function_check_is_local(first: ModuleData, second: ModuleData, filter: Filter, f: int)
    requires
        first.globals@ == second.globals@,
        first.params_of(f) == second.params_of(f),
        first.body(f) == second.body(f),
    ensures
        check_function(first, filter, f) == check_function(second, filter, f),
{
}

} // verus!
