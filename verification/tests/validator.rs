use wasm_chisel::classifications::{
    F32_CONST, F64_CONST, GLOBAL_GET, I32_CONST, I64_CONST, LOCAL_GET,
};
use wasm_chisel::parity::{decode_instruction, decode_value_type, push_locals};
use wasm_chisel::{
    classify, contains, get_const_signature, get_instruction_signature, Category, Filter,
    FuncBody, FunctionType, Instruction, InstructionError, ModuleData, ModuleValidator, ValueType,
};

const I32_ADD: u8 = 0x6a;
const I64_ADD: u8 = 0x7c;
const F32_ADD: u8 = 0x92;
const F64_ADD: u8 = 0xa0;
const END: u8 = 0x0b;

fn op(opcode: u8) -> Instruction {
    Instruction { opcode, index: 0 }
}

fn get_local(index: u32) -> Instruction {
    Instruction { opcode: LOCAL_GET, index }
}

fn get_global(index: u32) -> Instruction {
    Instruction { opcode: GLOBAL_GET, index }
}

fn body(code: Vec<Instruction>) -> FuncBody {
    FuncBody { locals: vec![], code }
}

/// A module whose functions all have the signature `params`.
fn module_of(params: Vec<ValueType>, bodies: Vec<FuncBody>) -> ModuleData {
    ModuleData {
        types: vec![FunctionType { params }],
        functions: bodies.iter().map(|_| 0u32).collect(),
        globals: vec![],
        code: Some(bodies),
    }
}

fn validate(module: &ModuleData, filter: Filter) -> Result<bool, InstructionError> {
    ModuleValidator::new(module, filter).validate()
}

#[test]
fn module_without_code_section_is_valid_under_any_filter() {
    let module = ModuleData {
        types: vec![FunctionType { params: vec![ValueType::I32] }],
        functions: vec![0, 0, 7],
        globals: vec![ValueType::F32],
        code: None,
    };
    assert_eq!(validate(&module, Filter::NumericInstructions), Ok(true));
    assert_eq!(validate(&module, Filter::NoFilter), Ok(true));
}

#[test]
fn module_with_empty_code_section_is_valid() {
    let module = module_of(vec![], vec![]);
    assert_eq!(validate(&module, Filter::NumericInstructions), Ok(true));
    assert_eq!(validate(&module, Filter::NoFilter), Ok(true));
}

#[test]
fn empty_body_is_valid_and_leaves_an_empty_stack() {
    let module = module_of(vec![], vec![body(vec![])]);
    let mut validator = ModuleValidator::new(&module, Filter::NumericInstructions);
    assert_eq!(validator.validate(), Ok(true));
    assert!(validator.stack().is_empty());
}

#[test]
fn new_validator_starts_with_an_empty_stack() {
    let module = module_of(vec![], vec![]);
    let validator = ModuleValidator::new(&module, Filter::NoFilter);
    assert!(validator.stack().is_empty());
}

#[test]
fn add_of_two_i32_parameters_is_valid() {
    let module = module_of(
        vec![ValueType::I32, ValueType::I32],
        vec![body(vec![get_local(0), get_local(1), op(I32_ADD), op(END)])],
    );
    let mut validator = ModuleValidator::new(&module, Filter::NumericInstructions);
    assert_eq!(validator.validate(), Ok(true));
    assert_eq!(validator.stack(), &vec![ValueType::I32]);
}

#[test]
fn add_of_f64_and_i32_is_an_invalid_operation() {
    let module = module_of(
        vec![ValueType::F64, ValueType::I32],
        vec![body(vec![get_local(0), get_local(1), op(I32_ADD), op(END)])],
    );
    assert_eq!(
        validate(&module, Filter::NumericInstructions),
        Err(InstructionError::InvalidOperation(op(I32_ADD)))
    );
}

#[test]
fn mismatch_below_the_top_is_an_invalid_operation() {
    let module = module_of(
        vec![ValueType::I32, ValueType::F64],
        vec![body(vec![get_local(0), get_local(1), op(F64_ADD)])],
    );
    assert_eq!(
        validate(&module, Filter::NumericInstructions),
        Err(InstructionError::InvalidOperation(op(F64_ADD)))
    );
    let swapped = module_of(
        vec![ValueType::I32, ValueType::F64],
        vec![body(vec![get_local(1), get_local(0), op(F64_ADD)])],
    );
    assert_eq!(
        validate(&swapped, Filter::NumericInstructions),
        Err(InstructionError::InvalidOperation(op(F64_ADD)))
    );
}

#[test]
fn operator_on_a_short_stack_is_an_invalid_operation() {
    let empty = module_of(vec![], vec![body(vec![op(I64_ADD)])]);
    assert_eq!(
        validate(&empty, Filter::NumericInstructions),
        Err(InstructionError::InvalidOperation(op(I64_ADD)))
    );
    let one = module_of(vec![], vec![body(vec![op(I64_CONST), op(I64_ADD)])]);
    assert_eq!(
        validate(&one, Filter::NumericInstructions),
        Err(InstructionError::InvalidOperation(op(I64_ADD)))
    );
}

#[test]
fn f64_constant_leaves_one_f64_on_the_stack() {
    let module = module_of(vec![], vec![body(vec![op(F64_CONST), op(END)])]);
    let mut validator = ModuleValidator::new(&module, Filter::NumericInstructions);
    assert_eq!(validator.validate(), Ok(true));
    assert_eq!(validator.stack(), &vec![ValueType::F64]);
}

#[test]
fn local_index_beyond_the_environment_is_not_found() {
    let module = module_of(
        vec![ValueType::I32, ValueType::I32],
        vec![body(vec![get_local(5), op(END)])],
    );
    assert_eq!(
        validate(&module, Filter::NumericInstructions),
        Err(InstructionError::LocalNotFound)
    );
    assert_eq!(validate(&module, Filter::NoFilter), Err(InstructionError::LocalNotFound));
}

#[test]
fn first_index_past_the_environment_is_not_found() {
    let mut module = module_of(
        vec![ValueType::I32, ValueType::I64],
        vec![FuncBody { locals: vec![ValueType::F32], code: vec![get_local(2)] }],
    );
    let mut validator = ModuleValidator::new(&module, Filter::NumericInstructions);
    assert_eq!(validator.validate(), Ok(true));
    assert_eq!(validator.stack(), &vec![ValueType::F32]);

    module.code = Some(vec![FuncBody { locals: vec![ValueType::F32], code: vec![get_local(3)] }]);
    assert_eq!(
        validate(&module, Filter::NumericInstructions),
        Err(InstructionError::LocalNotFound)
    );
}

#[test]
fn global_index_beyond_the_globals_is_not_found() {
    let mut module = module_of(vec![], vec![body(vec![get_global(1)])]);
    module.globals = vec![ValueType::I64];
    assert_eq!(
        validate(&module, Filter::NumericInstructions),
        Err(InstructionError::GlobalNotFound)
    );
    assert_eq!(validate(&module, Filter::NoFilter), Err(InstructionError::GlobalNotFound));
}

#[test]
fn global_accessor_pushes_the_type_of_the_global() {
    let mut module = module_of(
        vec![ValueType::I32],
        vec![body(vec![get_global(1), get_global(1), op(F32_ADD), get_global(0)])],
    );
    module.globals = vec![ValueType::I64, ValueType::F32];
    let mut validator = ModuleValidator::new(&module, Filter::NumericInstructions);
    assert_eq!(validator.validate(), Ok(true));
    assert_eq!(validator.stack(), &vec![ValueType::F32, ValueType::I64]);
}

#[test]
fn parameters_come_before_locals() {
    let module = ModuleData {
        types: vec![
            FunctionType { params: vec![] },
            FunctionType { params: vec![ValueType::F64, ValueType::I64] },
        ],
        functions: vec![1],
        globals: vec![],
        code: Some(vec![FuncBody {
            locals: vec![ValueType::I32, ValueType::F32],
            code: vec![get_local(3), get_local(2), get_local(1), get_local(0)],
        }]),
    };
    let mut validator = ModuleValidator::new(&module, Filter::NumericInstructions);
    assert_eq!(validator.validate(), Ok(true));
    assert_eq!(
        validator.stack(),
        &vec![ValueType::F32, ValueType::I32, ValueType::I64, ValueType::F64]
    );
}

#[test]
fn function_without_a_registered_signature_has_no_parameters() {
    let unregistered = ModuleData {
        types: vec![FunctionType { params: vec![ValueType::I32] }],
        functions: vec![],
        globals: vec![],
        code: Some(vec![FuncBody { locals: vec![ValueType::F64], code: vec![get_local(0)] }]),
    };
    let mut validator = ModuleValidator::new(&unregistered, Filter::NumericInstructions);
    assert_eq!(validator.validate(), Ok(true));
    assert_eq!(validator.stack(), &vec![ValueType::F64]);

    let dangling = ModuleData {
        types: vec![FunctionType { params: vec![ValueType::I32] }],
        functions: vec![1],
        globals: vec![],
        code: Some(vec![body(vec![get_local(0)])]),
    };
    assert_eq!(
        validate(&dangling, Filter::NumericInstructions),
        Err(InstructionError::LocalNotFound)
    );
}

#[test]
fn second_of_three_functions_fails_the_module() {
    let good = vec![get_local(0), get_local(1), op(I32_ADD), op(END)];
    let bad = vec![get_local(0), op(F32_CONST), op(I32_ADD), op(END)];
    let module = module_of(
        vec![ValueType::I32, ValueType::I32],
        vec![body(good.clone()), body(bad), body(good)],
    );
    assert_eq!(
        validate(&module, Filter::NumericInstructions),
        Err(InstructionError::InvalidOperation(op(I32_ADD)))
    );
}

#[test]
fn first_failing_function_decides_the_error() {
    let module = module_of(
        vec![ValueType::I32],
        vec![
            body(vec![get_local(0)]),
            body(vec![get_local(1)]),
            body(vec![op(F64_ADD)]),
        ],
    );
    assert_eq!(
        validate(&module, Filter::NumericInstructions),
        Err(InstructionError::LocalNotFound)
    );
}

#[test]
fn stack_is_reset_between_functions() {
    // The first function leaves two i32 behind; the second must not find them.
    let module = module_of(
        vec![],
        vec![body(vec![op(I32_CONST), op(I32_CONST)]), body(vec![op(I32_ADD)])],
    );
    assert_eq!(
        validate(&module, Filter::NumericInstructions),
        Err(InstructionError::InvalidOperation(op(I32_ADD)))
    );

    let module = module_of(
        vec![],
        vec![body(vec![op(I32_CONST), op(I32_CONST)]), body(vec![op(F32_CONST)])],
    );
    let mut validator = ModuleValidator::new(&module, Filter::NumericInstructions);
    assert_eq!(validator.validate(), Ok(true));
    assert_eq!(validator.stack(), &vec![ValueType::F32]);
}

#[test]
fn validating_twice_gives_the_same_result() {
    let valid = module_of(
        vec![ValueType::I64],
        vec![body(vec![get_local(0), op(I64_CONST), op(I64_ADD)])],
    );
    let mut validator = ModuleValidator::new(&valid, Filter::NumericInstructions);
    assert_eq!(validator.validate(), Ok(true));
    assert_eq!(validator.stack(), &vec![ValueType::I64]);
    assert_eq!(validator.validate(), Ok(true));
    assert_eq!(validator.stack(), &vec![ValueType::I64]);
    assert_eq!(validate(&valid, Filter::NumericInstructions), Ok(true));

    let invalid = module_of(vec![ValueType::I64], vec![body(vec![get_local(0), op(I64_ADD)])]);
    let mut validator = ModuleValidator::new(&invalid, Filter::NumericInstructions);
    let first = validator.validate();
    let second = validator.validate();
    assert_eq!(first, Err(InstructionError::InvalidOperation(op(I64_ADD))));
    assert_eq!(second, first);
}

#[test]
fn same_type_operators_and_constants_are_valid() {
    let kinds: [(u8, u8, ValueType); 4] = [
        (I32_CONST, I32_ADD, ValueType::I32),
        (I64_CONST, I64_ADD, ValueType::I64),
        (F32_CONST, F32_ADD, ValueType::F32),
        (F64_CONST, F64_ADD, ValueType::F64),
    ];
    for (constant, operator, value_type) in kinds {
        let code = vec![
            op(constant),
            op(constant),
            op(constant),
            op(operator),
            op(operator),
            op(constant),
        ];
        let module = module_of(vec![], vec![body(code)]);
        let mut validator = ModuleValidator::new(&module, Filter::NumericInstructions);
        assert_eq!(validator.validate(), Ok(true));
        assert_eq!(validator.stack(), &vec![value_type, value_type]);
    }
}

#[test]
fn no_filter_checks_no_operator() {
    let module = module_of(
        vec![ValueType::F64],
        vec![body(vec![op(I32_ADD), get_local(0), op(I64_CONST), op(F32_ADD)])],
    );
    let mut validator = ModuleValidator::new(&module, Filter::NoFilter);
    assert_eq!(validator.validate(), Ok(true));
    assert_eq!(validator.stack(), &vec![ValueType::F64]);
}

#[test]
fn unclassified_instructions_are_skipped() {
    // call, drop, i32.eqz, i32.clz and f64.sqrt have no modelled stack effect.
    let module = module_of(
        vec![],
        vec![body(vec![op(0x10), op(I32_CONST), op(0x1a), op(0x45), op(0x67), op(0x9f), op(END)])],
    );
    let mut validator = ModuleValidator::new(&module, Filter::NumericInstructions);
    assert_eq!(validator.validate(), Ok(true));
    assert_eq!(validator.stack(), &vec![ValueType::I32]);
}

#[test]
fn check_instructions_starts_from_an_empty_stack() {
    let module = module_of(vec![ValueType::I32], vec![]);
    let mut validator = ModuleValidator::new(&module, Filter::NumericInstructions);
    let first = body(vec![op(I32_CONST), op(I32_CONST)]);
    assert_eq!(validator.check_instructions(&first, 0), Ok(true));
    assert_eq!(validator.stack(), &vec![ValueType::I32, ValueType::I32]);
    let second = body(vec![op(I32_ADD)]);
    assert_eq!(
        validator.check_instructions(&second, 0),
        Err(InstructionError::InvalidOperation(op(I32_ADD)))
    );
}

#[test]
fn local_environment_holds_parameters_then_locals() {
    let module = module_of(vec![ValueType::I64, ValueType::F32], vec![]);
    let module = ModuleData { functions: vec![0], ..module };
    let validator = ModuleValidator::new(&module, Filter::NumericInstructions);
    let declared = FuncBody { locals: vec![ValueType::F64], code: vec![] };
    assert_eq!(
        validator.local_environment(&declared, 0),
        vec![ValueType::I64, ValueType::F32, ValueType::F64]
    );
    assert_eq!(validator.local_environment(&declared, 1), vec![ValueType::F64]);
}

#[test]
fn push_global_or_local_rejects_other_instructions() {
    let module = module_of(vec![], vec![]);
    let mut validator = ModuleValidator::new(&module, Filter::NumericInstructions);
    let env = vec![ValueType::I32];
    assert_eq!(
        validator.push_global_or_local(&op(I32_ADD), &env),
        Err(InstructionError::UnmatchedInstruction)
    );
    assert!(validator.stack().is_empty());
    assert_eq!(validator.push_global_or_local(&get_local(0), &env), Ok(true));
    assert_eq!(validator.stack(), &vec![ValueType::I32]);
    assert_eq!(
        validator.push_global_or_local(&get_local(1), &env),
        Err(InstructionError::LocalNotFound)
    );
    assert_eq!(
        validator.push_global_or_local(&get_global(0), &env),
        Err(InstructionError::GlobalNotFound)
    );
    assert_eq!(validator.stack(), &vec![ValueType::I32]);
}

#[test]
fn validate_instruction_pops_then_pushes() {
    let module = module_of(vec![], vec![]);
    let mut validator = ModuleValidator::new(&module, Filter::NumericInstructions);
    let env = vec![ValueType::F64, ValueType::I32];
    assert_eq!(validator.push_global_or_local(&get_local(0), &env), Ok(true));
    assert_eq!(validator.push_global_or_local(&get_local(1), &env), Ok(true));
    assert_eq!(validator.push_global_or_local(&get_local(1), &env), Ok(true));
    let signature = get_instruction_signature(&op(I32_ADD)).unwrap();
    assert_eq!(validator.validate_instruction(&signature, &op(I32_ADD)), Ok(true));
    assert_eq!(validator.stack(), &vec![ValueType::F64, ValueType::I32]);
    assert_eq!(
        validator.validate_instruction(&signature, &op(I32_ADD)),
        Err(InstructionError::InvalidOperation(op(I32_ADD)))
    );
}

#[test]
fn accessors_are_classified_whatever_their_slot() {
    assert_eq!(classify(LOCAL_GET), Category::Accessor);
    assert_eq!(classify(GLOBAL_GET), Category::Accessor);
    assert!(contains(&get_local(0), Category::Accessor));
    assert!(contains(&get_local(4_000_000_000), Category::Accessor));
    assert!(contains(&get_global(17), Category::Accessor));
    assert!(!contains(&op(0x21), Category::Accessor));
    assert!(!contains(&op(0x22), Category::Accessor));
    assert!(!contains(&op(0x24), Category::Accessor));
    assert!(!contains(&get_local(0), Category::Unclassified));
}

#[test]
fn constants_are_classified_by_type() {
    assert_eq!(classify(I32_CONST), Category::ConstantPush(ValueType::I32));
    assert_eq!(classify(I64_CONST), Category::ConstantPush(ValueType::I64));
    assert_eq!(classify(F32_CONST), Category::ConstantPush(ValueType::F32));
    assert_eq!(classify(F64_CONST), Category::ConstantPush(ValueType::F64));
    assert!(!contains(&op(I32_CONST), Category::ConstantPush(ValueType::I64)));
}

#[test]
fn binary_operators_are_classified_by_type() {
    let ranges: [(u8, u8, ValueType); 8] = [
        (0x46, 0x4f, ValueType::I32),
        (0x6a, 0x78, ValueType::I32),
        (0x51, 0x5a, ValueType::I64),
        (0x7c, 0x8a, ValueType::I64),
        (0x5b, 0x60, ValueType::F32),
        (0x92, 0x98, ValueType::F32),
        (0x61, 0x66, ValueType::F64),
        (0xa0, 0xa6, ValueType::F64),
    ];
    let mut binary: u32 = 0;
    for opcode in 0u8..=255 {
        let expected = ranges
            .iter()
            .find(|(first, last, _)| *first <= opcode && opcode <= *last)
            .map(|(_, _, value_type)| Category::BinaryOperator(*value_type));
        match expected {
            Some(category) => {
                assert_eq!(classify(opcode), category);
                binary += 1;
            }
            None => assert!(!matches!(classify(opcode), Category::BinaryOperator(_))),
        }
    }
    assert_eq!(binary, 76);
}

#[test]
fn unary_and_control_kinds_are_unclassified() {
    for opcode in [0x00u8, 0x0b, 0x10, 0x1a, 0x21, 0x28, 0x45, 0x50, 0x67, 0x69, 0x79, 0x7b, 0x8b,
        0x91, 0x99, 0x9f, 0xa7, 0xbf, 0xff]
    {
        assert_eq!(classify(opcode), Category::Unclassified);
        assert!(get_instruction_signature(&op(opcode)).is_none());
    }
}

#[test]
fn binary_operator_signature_pops_two_and_pushes_one() {
    let cases: [(u8, ValueType); 6] = [
        (I32_ADD, ValueType::I32),
        (I64_ADD, ValueType::I64),
        (F32_ADD, ValueType::F32),
        (F64_ADD, ValueType::F64),
        (0x51, ValueType::I64),
        (0x98, ValueType::F32),
    ];
    for (opcode, value_type) in cases {
        let signature = get_instruction_signature(&op(opcode)).unwrap();
        assert_eq!(signature.pop, vec![value_type, value_type]);
        assert_eq!(signature.push, vec![value_type]);
        assert!(get_const_signature(&op(opcode)).is_none());
    }
}

#[test]
fn constant_signature_pops_nothing_and_pushes_one() {
    let cases: [(u8, ValueType); 4] = [
        (I32_CONST, ValueType::I32),
        (I64_CONST, ValueType::I64),
        (F32_CONST, ValueType::F32),
        (F64_CONST, ValueType::F64),
    ];
    for (opcode, value_type) in cases {
        let resolved = get_instruction_signature(&op(opcode)).unwrap();
        assert!(resolved.pop.is_empty());
        assert_eq!(resolved.push, vec![value_type]);
        let constant = get_const_signature(&op(opcode)).unwrap();
        assert!(constant.pop.is_empty());
        assert_eq!(constant.push, vec![value_type]);
    }
    assert!(get_const_signature(&get_local(0)).is_none());
    assert!(get_instruction_signature(&get_local(0)).is_none());
}

#[test]
fn module_params_follow_the_type_index() {
    let module = ModuleData {
        types: vec![
            FunctionType { params: vec![ValueType::I32] },
            FunctionType { params: vec![ValueType::F64, ValueType::F64] },
        ],
        functions: vec![1, 0, 2],
        globals: vec![],
        code: None,
    };
    assert_eq!(module.params(0), Some(&vec![ValueType::F64, ValueType::F64]));
    assert_eq!(module.params(1), Some(&vec![ValueType::I32]));
    assert_eq!(module.params(2), None);
    assert_eq!(module.params(3), None);
}

#[test]
fn value_types_decode_from_one_byte() {
    assert_eq!(decode_value_type(&vec![0x7f]), Some(ValueType::I32));
    assert_eq!(decode_value_type(&vec![0x7e]), Some(ValueType::I64));
    assert_eq!(decode_value_type(&vec![0x7d]), Some(ValueType::F32));
    assert_eq!(decode_value_type(&vec![0x7c]), Some(ValueType::F64));
    assert_eq!(decode_value_type(&vec![0x7b]), None);
    assert_eq!(decode_value_type(&vec![]), None);
    assert_eq!(decode_value_type(&vec![0x7f, 0x7f]), None);
}

#[test]
fn instructions_decode_from_their_first_byte() {
    assert_eq!(decode_instruction(&vec![0x20, 0x85, 0x01], Some(133)), Some(get_local(133)));
    assert_eq!(decode_instruction(&vec![0x41, 0x2a], None), Some(op(I32_CONST)));
    assert_eq!(decode_instruction(&vec![], Some(3)), None);
}

#[test]
fn push_locals_writes_each_local_out() {
    let mut locals = vec![ValueType::I32];
    push_locals(&mut locals, 3, ValueType::F64);
    push_locals(&mut locals, 0, ValueType::I64);
    assert_eq!(
        locals,
        vec![ValueType::I32, ValueType::F64, ValueType::F64, ValueType::F64]
    );
}
