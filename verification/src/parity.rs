//! Reading a module that `parity_wasm` has decoded.
//!
//! A decoded `parity_wasm::elements::Module` is opaque to the proofs. The
//! functions at the head of this file hand out one plain value of it at a
//! time: a length, a type index, a slot, or the binary encoding of a value
//! type or of an instruction. Each such value has a name, and all that is
//! taken on trust is that the call returns the value of that name: the same
//! module always reads the same. [`from_parity`] walks the decoded module
//! through these calls and copies what the validator reads into a
//! [`ModuleData`]; what the copy holds is proved over the names.

use crate::types::{FuncBody, FunctionType, Instruction, ModuleData, ValueType};
use vstd::prelude::*;

verus! {

/// `parity_wasm::elements::Module`, carried through by reference.
#[verifier::external_type_specification]
#[verifier::external_body]
pub struct ExDecodedModule(parity_wasm::elements::Module);

/// The bytes of an encoding that was read, if one was.
pub open spec fn encoded(bytes: Option<Vec<u8>>) -> Option<Seq<u8>> {
    match bytes {
        Some(bytes) => Some(bytes@),
        None => None,
    }
}

/// The count of a group of locals and the bytes of its type's encoding, if
/// the group was read.
pub open spec fn encoded_group(group: Option<(u32, Vec<u8>)>) -> Option<(u32, Seq<u8>)> {
    match group {
        Some((count, bytes)) => Some((count, bytes@)),
        None => None,
    }
}

/// What `type_count` reads from a decoded module. Nothing is known
/// of it but through that call.
pub uninterp spec fn decoded_type_count(module: parity_wasm::elements::Module) -> Option<usize>;

/// The length of `Module::type_section().types()`, or `None` where the
/// module has no type section.
///
/// Taken on trust: the same module and indices always give the same result,
/// which the contracts call `decoded_type_count`.
#[verifier::external_body]
fn type_count(module: &parity_wasm::elements::Module) -> (r: Option<usize>)
    ensures
        r == decoded_type_count(*module),
{
    Some(module.type_section()?.types().len())
}

/// What `param_count` reads from a decoded module. Nothing is known
/// of it but through that call.
pub uninterp spec fn decoded_param_count(
    module: parity_wasm::elements::Module,
    t: usize,
) -> Option<usize>;

/// The length of `FunctionType::params()` of entry `t` of the type section,
/// or `None` where there is no such entry.
///
/// Taken on trust: the same module and indices always give the same result,
/// which the contracts call `decoded_param_count`.
#[verifier::external_body]
fn param_count(module: &parity_wasm::elements::Module, t: usize) -> (r: Option<usize>)
    ensures
        r == decoded_param_count(*module, t),
{
    match module.type_section()?.types().get(t)? {
        parity_wasm::elements::Type::Function(function_type) => Some(function_type.params().len()),
    }
}

/// What `param_encoding` reads from a decoded module. Nothing is known
/// of it but through that call.
pub uninterp spec fn decoded_param_encoding(
    module: parity_wasm::elements::Module,
    t: usize,
    p: usize,
) -> Option<Seq<u8>>;

/// The binary encoding that `parity_wasm::elements::serialize` gives entry
/// `p` of `FunctionType::params()` of entry `t` of the type section, or
/// `None` where there is no such entry or the encoder fails.
///
/// Taken on trust: the same module and indices always give the same result,
/// which the contracts call `decoded_param_encoding`.
#[verifier::external_body]
fn param_encoding(
    module: &parity_wasm::elements::Module,
    t: usize,
    p: usize,
) -> (r: Option<Vec<u8>>)
    ensures
        encoded(r) == decoded_param_encoding(*module, t, p),
{
    match module.type_section()?.types().get(t)? {
        parity_wasm::elements::Type::Function(function_type) => {
            parity_wasm::elements::serialize(*function_type.params().get(p)?).ok()
        },
    }
}

/// What `function_count` reads from a decoded module. Nothing is known
/// of it but through that call.
pub uninterp spec fn decoded_function_count(module: parity_wasm::elements::Module) -> Option<usize>;

/// The length of `Module::function_section().entries()`, or `None` where the
/// module has no function section.
///
/// Taken on trust: the same module and indices always give the same result,
/// which the contracts call `decoded_function_count`.
#[verifier::external_body]
fn function_count(module: &parity_wasm::elements::Module) -> (r: Option<usize>)
    ensures
        r == decoded_function_count(*module),
{
    Some(module.function_section()?.entries().len())
}

/// What `function_type_ref` reads from a decoded module. Nothing is known
/// of it but through that call.
pub uninterp spec fn decoded_function_type_ref(
    module: parity_wasm::elements::Module,
    f: usize,
) -> Option<u32>;

/// `Func::type_ref()` of entry `f` of the function section, or `None` where
/// there is no such entry.
///
/// Taken on trust: the same module and indices always give the same result,
/// which the contracts call `decoded_function_type_ref`.
#[verifier::external_body]
fn function_type_ref(module: &parity_wasm::elements::Module, f: usize) -> (r: Option<u32>)
    ensures
        r == decoded_function_type_ref(*module, f),
{
    Some(module.function_section()?.entries().get(f)?.type_ref())
}

/// What `global_count` reads from a decoded module. Nothing is known
/// of it but through that call.
pub uninterp spec fn decoded_global_count(module: parity_wasm::elements::Module) -> Option<usize>;

/// The length of `Module::global_section().entries()`, or `None` where the
/// module has no global section.
///
/// Taken on trust: the same module and indices always give the same result,
/// which the contracts call `decoded_global_count`.
#[verifier::external_body]
fn global_count(module: &parity_wasm::elements::Module) -> (r: Option<usize>)
    ensures
        r == decoded_global_count(*module),
{
    Some(module.global_section()?.entries().len())
}

/// What `global_encoding` reads from a decoded module. Nothing is known
/// of it but through that call.
pub uninterp spec fn decoded_global_encoding(
    module: parity_wasm::elements::Module,
    g: usize,
) -> Option<Seq<u8>>;

/// The binary encoding that `parity_wasm::elements::serialize` gives
/// `GlobalEntry::global_type().content_type()` of entry `g` of the global
/// section, or `None` where there is no such entry or the encoder fails.
///
/// Taken on trust: the same module and indices always give the same result,
/// which the contracts call `decoded_global_encoding`.
#[verifier::external_body]
fn global_encoding(module: &parity_wasm::elements::Module, g: usize) -> (r: Option<Vec<u8>>)
    ensures
        encoded(r) == decoded_global_encoding(*module, g),
{
    let entry = module.global_section()?.entries().get(g)?;
    parity_wasm::elements::serialize(entry.global_type().content_type()).ok()
}

/// What `body_count` reads from a decoded module. Nothing is known
/// of it but through that call.
pub uninterp spec fn decoded_body_count(module: parity_wasm::elements::Module) -> Option<usize>;

/// The length of `Module::code_section().bodies()`, or `None` where the
/// module has no code section.
///
/// Taken on trust: the same module and indices always give the same result,
/// which the contracts call `decoded_body_count`.
#[verifier::external_body]
fn body_count(module: &parity_wasm::elements::Module) -> (r: Option<usize>)
    ensures
        r == decoded_body_count(*module),
{
    Some(module.code_section()?.bodies().len())
}

/// What `local_group_count` reads from a decoded module. Nothing is known
/// of it but through that call.
pub uninterp spec fn decoded_local_group_count(
    module: parity_wasm::elements::Module,
    f: usize,
) -> Option<usize>;

/// The length of `FuncBody::locals()` of body `f`, or `None` where there is
/// no such body.
///
/// Taken on trust: the same module and indices always give the same result,
/// which the contracts call `decoded_local_group_count`.
#[verifier::external_body]
fn local_group_count(module: &parity_wasm::elements::Module, f: usize) -> (r: Option<usize>)
    ensures
        r == decoded_local_group_count(*module, f),
{
    Some(module.code_section()?.bodies().get(f)?.locals().len())
}

/// What `local_group` reads from a decoded module. Nothing is known
/// of it but through that call.
pub uninterp spec fn decoded_local_group(
    module: parity_wasm::elements::Module,
    f: usize,
    g: usize,
) -> Option<(u32, Seq<u8>)>;

/// `Local::count()` of entry `g` of `FuncBody::locals()` of body `f`, and
/// the binary encoding that `parity_wasm::elements::serialize` gives its
/// `Local::value_type()`; `None` where there is no such entry or the encoder
/// fails.
///
/// Taken on trust: the same module and indices always give the same result,
/// which the contracts call `decoded_local_group`.
#[verifier::external_body]
fn local_group(
    module: &parity_wasm::elements::Module,
    f: usize,
    g: usize,
) -> (r: Option<(u32, Vec<u8>)>)
    ensures
        encoded_group(r) == decoded_local_group(*module, f, g),
{
    let local = module.code_section()?.bodies().get(f)?.locals().get(g)?;
    Some((local.count(), parity_wasm::elements::serialize(local.value_type()).ok()?))
}

/// What `instruction_count` reads from a decoded module. Nothing is known
/// of it but through that call.
pub uninterp spec fn decoded_instruction_count(
    module: parity_wasm::elements::Module,
    f: usize,
) -> Option<usize>;

/// The length of `FuncBody::code().elements()` of body `f`, or `None` where
/// there is no such body.
///
/// Taken on trust: the same module and indices always give the same result,
/// which the contracts call `decoded_instruction_count`.
#[verifier::external_body]
fn instruction_count(module: &parity_wasm::elements::Module, f: usize) -> (r: Option<usize>)
    ensures
        r == decoded_instruction_count(*module, f),
{
    Some(module.code_section()?.bodies().get(f)?.code().elements().len())
}

/// What `instruction_encoding` reads from a decoded module. Nothing is known
/// of it but through that call.
pub uninterp spec fn decoded_instruction_encoding(
    module: parity_wasm::elements::Module,
    f: usize,
    i: usize,
) -> Option<Seq<u8>>;

/// The binary encoding that `parity_wasm::elements::serialize` gives
/// instruction `i` of body `f`, or `None` where there is no such instruction
/// or the encoder fails.
///
/// Taken on trust: the same module and indices always give the same result,
/// which the contracts call `decoded_instruction_encoding`.
#[verifier::external_body]
fn instruction_encoding(
    module: &parity_wasm::elements::Module,
    f: usize,
    i: usize,
) -> (r: Option<Vec<u8>>)
    ensures
        encoded(r) == decoded_instruction_encoding(*module, f, i),
{
    let instruction = module.code_section()?.bodies().get(f)?.code().elements().get(i)?;
    parity_wasm::elements::serialize(instruction.clone()).ok()
}

/// What `instruction_slot` reads from a decoded module. Nothing is known
/// of it but through that call.
pub uninterp spec fn decoded_instruction_slot(
    module: parity_wasm::elements::Module,
    f: usize,
    i: usize,
) -> Option<u32>;

/// The slot that instruction `i` of body `f` addresses where it is
/// `Instruction::GetLocal` or `Instruction::GetGlobal`, else `None`.
///
/// Taken on trust: the same module and indices always give the same result,
/// which the contracts call `decoded_instruction_slot`.
#[verifier::external_body]
fn instruction_slot(module: &parity_wasm::elements::Module, f: usize, i: usize) -> (r: Option<u32>)
    ensures
        r == decoded_instruction_slot(*module, f, i),
{
    match module.code_section()?.bodies().get(f)?.code().elements().get(i)? {
        parity_wasm::elements::Instruction::GetLocal(slot) => Some(*slot),
        parity_wasm::elements::Instruction::GetGlobal(slot) => Some(*slot),
        _ => None,
    }
}

/// The number that a length read from the decoded module stands for: none
/// where the section or the body is absent.
pub open spec fn total(count: Option<usize>) -> nat {
    match count {
        Some(count) => count as nat,
        None => 0,
    }
}

/// The value type with the given binary encoding: the single byte `0x7f`,
/// `0x7e`, `0x7d` or `0x7c` for the 32-bit integer, the 64-bit integer, the
/// 32-bit float and the 64-bit float. `None` for any other encoding.
pub open spec fn value_type_from(encoding: Seq<u8>) -> Option<ValueType> {
    if encoding.len() != 1 {
        None
    } else if encoding[0] == 0x7f {
        Some(ValueType::I32)
    } else if encoding[0] == 0x7e {
        Some(ValueType::I64)
    } else if encoding[0] == 0x7d {
        Some(ValueType::F32)
    } else if encoding[0] == 0x7c {
        Some(ValueType::F64)
    } else {
        None
    }
}

/// The instruction with the given encoding and slot: its kind is the first
/// byte of the encoding, and it addresses `slot`, or slot zero where there
/// is none. `None` where the encoding is empty.
pub open spec fn instruction_from(encoding: Seq<u8>, slot: Option<u32>) -> Option<Instruction> {
    if encoding.len() == 0 {
        None
    } else {
        Some(
            Instruction {
                opcode: encoding[0],
                index: match slot {
                    Some(index) => index,
                    None => 0,
                },
            },
        )
    }
}

/// The value type that an encoding read from the decoded module stands for.
pub open spec fn value_type_of(encoding: Option<Seq<u8>>) -> Option<ValueType> {
    match encoding {
        Some(encoding) => value_type_from(encoding),
        None => None,
    }
}

/// Parameter `p` of function type `t` of the decoded module.
pub open spec fn param_at(module: parity_wasm::elements::Module, t: usize, p: usize) -> Option<
    ValueType,
> {
    value_type_of(decoded_param_encoding(module, t, p))
}

/// The content type of global `g` of the decoded module.
pub open spec fn global_at(module: parity_wasm::elements::Module, g: usize) -> Option<ValueType> {
    value_type_of(decoded_global_encoding(module, g))
}

/// Group `g` of the locals of body `f` of the decoded module: how many
/// locals it declares, and their type.
pub open spec fn group_at(module: parity_wasm::elements::Module, f: usize, g: usize) -> Option<
    (u32, ValueType),
> {
    match decoded_local_group(module, f, g) {
        Some((count, encoding)) => match value_type_from(encoding) {
            Some(value_type) => Some((count, value_type)),
            None => None,
        },
        None => None,
    }
}

/// Instruction `i` of body `f` of the decoded module.
pub open spec fn instruction_at(module: parity_wasm::elements::Module, f: usize, i: usize) -> Option<
    Instruction,
> {
    match decoded_instruction_encoding(module, f, i) {
        Some(encoding) => instruction_from(encoding, decoded_instruction_slot(module, f, i)),
        None => None,
    }
}

/// The locals that the first `groups` groups of body `f` declare, each group
/// written out once per local.
pub open spec fn locals_from(module: parity_wasm::elements::Module, f: usize, groups: nat) -> Seq<
    ValueType,
>
    decreases groups,
{
    if groups == 0 {
        Seq::empty()
    } else {
        let group = group_at(module, f, (groups - 1) as usize)->0;
        locals_from(module, f, (groups - 1) as nat) + Seq::new(group.0 as nat, |k: int| group.1)
    }
}

/// Whether every part of the decoded module that the validator reads can be
/// read: each entry within the length of its list is there, each value type
/// is one of the four, and each instruction has an encoding.
pub open spec fn readable(module: parity_wasm::elements::Module) -> bool {
    &&& forall|t: usize, p: usize|
        t < total(decoded_type_count(module)) && p < total(decoded_param_count(module, t)) ==> (
        #[trigger] param_at(module, t, p)) is Some
    &&& forall|f: usize|
        f < total(decoded_function_count(module)) ==> (#[trigger] decoded_function_type_ref(
            module,
            f,
        )) is Some
    &&& forall|g: usize|
        g < total(decoded_global_count(module)) ==> (#[trigger] global_at(module, g)) is Some
    &&& forall|f: usize| f < total(decoded_body_count(module)) ==> #[trigger] body_readable(module, f)
}

/// Whether the locals and the instructions of body `f` can be read.
pub open spec fn body_readable(module: parity_wasm::elements::Module, f: usize) -> bool {
    &&& forall|g: usize|
        g < total(decoded_local_group_count(module, f)) ==> (#[trigger] group_at(module, f, g)) is Some
    &&& forall|i: usize|
        i < total(decoded_instruction_count(module, f)) ==> (#[trigger] instruction_at(
            module,
            f,
            i,
        )) is Some
}

/// Whether `params` holds the parameters of function type `t`, in order.
pub open spec fn params_copied(
    module: parity_wasm::elements::Module,
    t: usize,
    params: Seq<ValueType>,
) -> bool {
    &&& params.len() == total(decoded_param_count(module, t))
    &&& forall|p: usize|
        p < params.len() ==> #[trigger] param_at(module, t, p) == Some(params[p as int])
}

/// Whether `body` holds the locals of body `f`, each group written out, and
/// its instructions, in order.
pub open spec fn body_copied(module: parity_wasm::elements::Module, f: usize, body: FuncBody) -> bool {
    &&& body.locals@ == locals_from(module, f, total(decoded_local_group_count(module, f)))
    &&& body.code@.len() == total(decoded_instruction_count(module, f))
    &&& forall|i: usize|
        i < body.code@.len() ==> #[trigger] instruction_at(module, f, i) == Some(body.code@[i as int])
}

/// Whether `data` holds what the validator reads of the decoded module: the
/// parameters of each function type, the type index of each function, the
/// content type of each declared global and, where the decoded module has a
/// code section, each body.
pub open spec fn copied(module: parity_wasm::elements::Module, data: ModuleData) -> bool {
    &&& data.types@.len() == total(decoded_type_count(module))
    &&& forall|t: usize|
        t < data.types@.len() ==> params_copied(module, t, (#[trigger] data.types@[t as int]).params@)
    &&& data.functions@.len() == total(decoded_function_count(module))
    &&& forall|f: usize|
        f < data.functions@.len() ==> #[trigger] decoded_function_type_ref(module, f) == Some(
            data.functions@[f as int],
        )
    &&& data.globals@.len() == total(decoded_global_count(module))
    &&& forall|g: usize|
        g < data.globals@.len() ==> #[trigger] global_at(module, g) == Some(data.globals@[g as int])
    &&& match decoded_body_count(module) {
        Some(count) => data.code matches Some(bodies) && bodies@.len() == count && forall|f: usize|
            f < count ==> body_copied(module, f, #[trigger] bodies@[f as int]),
        None => data.code is None,
    }
}

/// Reads a value type from its binary encoding.
pub fn decode_value_type(encoding: &Vec<u8>) -> (r: Option<ValueType>)
    ensures
        r == value_type_from(encoding@),
{
    if encoding.len() != 1 {
        return None;
    }
    match encoding[0] {
        0x7f => Some(ValueType::I32),
        0x7e => Some(ValueType::I64),
        0x7d => Some(ValueType::F32),
        0x7c => Some(ValueType::F64),
        _ => None,
    }
}

/// Builds an instruction from its binary encoding and the slot it addresses.
pub fn decode_instruction(encoding: &Vec<u8>, slot: Option<u32>) -> (r: Option<Instruction>)
    ensures
        r == instruction_from(encoding@, slot),
{
    if encoding.len() == 0 {
        None
    } else {
        let index: u32 = match slot {
            Some(index) => index,
            None => 0,
        };
        Some(Instruction { opcode: encoding[0], index })
    }
}

/// Pushes `count` copies of `value_type` onto `locals`.
pub fn push_locals(locals: &mut Vec<ValueType>, count: u32, value_type: ValueType)
    ensures
        final(locals)@ == old(locals)@ + Seq::new(count as nat, |k: int| value_type),
{
    let mut done: u32 = 0;
    while done < count
        invariant
            done <= count,
            locals@ == old(locals)@ + Seq::new(done as nat, |k: int| value_type),
        decreases count - done,
    {
        locals.push(value_type);
        done += 1;
        assert(locals@ =~= old(locals)@ + Seq::new(done as nat, |k: int| value_type));
    }
}

/// A length read from the decoded module, as a number.
fn length(count: Option<usize>) -> (n: usize)
    ensures
        n == total(count),
{
    match count {
        Some(count) => count,
        None => 0,
    }
}

/// Copies the parameters of function type `t`.
fn read_params(decoded: &parity_wasm::elements::Module, t: usize) -> (r: Option<Vec<ValueType>>)
    ensures
        r is Some <==> forall|p: usize|
            p < total(decoded_param_count(*decoded, t)) ==> (#[trigger] param_at(*decoded, t, p)) is Some,
        r matches Some(params) ==> params_copied(*decoded, t, params@),
{
    let width: usize = length(param_count(decoded, t));
    let mut params: Vec<ValueType> = Vec::new();
    let mut p: usize = 0;
    while p < width
        invariant
            p <= width,
            width == total(decoded_param_count(*decoded, t)),
            params@.len() == p,
            forall|q: usize| q < p ==> #[trigger] param_at(*decoded, t, q) == Some(params@[q as int]),
        decreases width - p,
    {
        let found = match param_encoding(decoded, t, p) {
            Some(encoding) => decode_value_type(&encoding),
            None => None,
        };
        match found {
            Some(value_type) => params.push(value_type),
            None => {
                assert(param_at(*decoded, t, p) is None);
                return None;
            },
        }
        p += 1;
    }
    Some(params)
}

/// Copies the type section: the parameter types of each function type.
fn read_types(decoded: &parity_wasm::elements::Module) -> (r: Option<Vec<FunctionType>>)
    ensures
        r is Some <==> forall|t: usize, p: usize|
            t < total(decoded_type_count(*decoded)) && p < total(decoded_param_count(*decoded, t))
                ==> (#[trigger] param_at(*decoded, t, p)) is Some,
        r matches Some(types) ==> types@.len() == total(decoded_type_count(*decoded)) && forall|
            t: usize,
        |
            t < types@.len() ==> params_copied(*decoded, t, (#[trigger] types@[t as int]).params@),
{
    let count: usize = length(type_count(decoded));
    let mut types: Vec<FunctionType> = Vec::new();
    let mut t: usize = 0;
    while t < count
        invariant
            t <= count,
            count == total(decoded_type_count(*decoded)),
            types@.len() == t,
            forall|s: usize|
                s < t ==> params_copied(*decoded, s, (#[trigger] types@[s as int]).params@),
            forall|s: usize, p: usize|
                s < t && p < total(decoded_param_count(*decoded, s)) ==> (#[trigger] param_at(
                    *decoded,
                    s,
                    p,
                )) is Some,
        decreases count - t,
    {
        match read_params(decoded, t) {
            Some(params) => types.push(FunctionType { params }),
            None => {
                return None;
            },
        }
        t += 1;
    }
    Some(types)
}

/// Copies the function section: the type index of each function.
fn read_functions(decoded: &parity_wasm::elements::Module) -> (r: Option<Vec<u32>>)
    ensures
        r is Some <==> forall|f: usize|
            f < total(decoded_function_count(*decoded)) ==> (#[trigger] decoded_function_type_ref(
                *decoded,
                f,
            )) is Some,
        r matches Some(functions) ==> functions@.len() == total(decoded_function_count(*decoded))
            && forall|f: usize|
            f < functions@.len() ==> #[trigger] decoded_function_type_ref(*decoded, f) == Some(
                functions@[f as int],
            ),
{
    let count: usize = length(function_count(decoded));
    let mut functions: Vec<u32> = Vec::new();
    let mut f: usize = 0;
    while f < count
        invariant
            f <= count,
            count == total(decoded_function_count(*decoded)),
            functions@.len() == f,
            forall|e: usize|
                e < f ==> #[trigger] decoded_function_type_ref(*decoded, e) == Some(
                    functions@[e as int],
                ),
        decreases count - f,
    {
        match function_type_ref(decoded, f) {
            Some(type_ref) => functions.push(type_ref),
            None => {
                return None;
            },
        }
        f += 1;
    }
    Some(functions)
}

/// Copies the global section: the content type of each declared global.
fn read_globals(decoded: &parity_wasm::elements::Module) -> (r: Option<Vec<ValueType>>)
    ensures
        r is Some <==> forall|g: usize|
            g < total(decoded_global_count(*decoded)) ==> (#[trigger] global_at(*decoded, g)) is Some,
        r matches Some(globals) ==> globals@.len() == total(decoded_global_count(*decoded))
            && forall|g: usize|
            g < globals@.len() ==> #[trigger] global_at(*decoded, g) == Some(globals@[g as int]),
{
    let count: usize = length(global_count(decoded));
    let mut globals: Vec<ValueType> = Vec::new();
    let mut g: usize = 0;
    while g < count
        invariant
            g <= count,
            count == total(decoded_global_count(*decoded)),
            globals@.len() == g,
            forall|e: usize| e < g ==> #[trigger] global_at(*decoded, e) == Some(globals@[e as int]),
        decreases count - g,
    {
        let found = match global_encoding(decoded, g) {
            Some(encoding) => decode_value_type(&encoding),
            None => None,
        };
        match found {
            Some(value_type) => globals.push(value_type),
            None => {
                assert(global_at(*decoded, g) is None);
                return None;
            },
        }
        g += 1;
    }
    Some(globals)
}

/// Copies the locals of body `f`, each group written out once per local.
fn read_locals(decoded: &parity_wasm::elements::Module, f: usize) -> (r: Option<Vec<ValueType>>)
    ensures
        r is Some <==> forall|g: usize|
            g < total(decoded_local_group_count(*decoded, f)) ==> (#[trigger] group_at(
                *decoded,
                f,
                g,
            )) is Some,
        r matches Some(locals) ==> locals@ == locals_from(
            *decoded,
            f,
            total(decoded_local_group_count(*decoded, f)),
        ),
{
    let groups: usize = length(local_group_count(decoded, f));
    let mut locals: Vec<ValueType> = Vec::new();
    let mut g: usize = 0;
    while g < groups
        invariant
            g <= groups,
            groups == total(decoded_local_group_count(*decoded, f)),
            locals@ == locals_from(*decoded, f, g as nat),
            forall|e: usize| e < g ==> (#[trigger] group_at(*decoded, f, e)) is Some,
        decreases groups - g,
    {
        let found = match local_group(decoded, f, g) {
            Some((count, encoding)) => match decode_value_type(&encoding) {
                Some(value_type) => Some((count, value_type)),
                None => None,
            },
            None => None,
        };
        match found {
            Some((count, value_type)) => {
                assert(group_at(*decoded, f, g) == Some((count, value_type)));
                push_locals(&mut locals, count, value_type);
            },
            None => {
                assert(group_at(*decoded, f, g) is None);
                return None;
            },
        }
        g += 1;
    }
    Some(locals)
}

/// Copies the instructions of body `f`.
fn read_code(decoded: &parity_wasm::elements::Module, f: usize) -> (r: Option<Vec<Instruction>>)
    ensures
        r is Some <==> forall|i: usize|
            i < total(decoded_instruction_count(*decoded, f)) ==> (#[trigger] instruction_at(
                *decoded,
                f,
                i,
            )) is Some,
        r matches Some(code) ==> code@.len() == total(decoded_instruction_count(*decoded, f))
            && forall|i: usize|
            i < code@.len() ==> #[trigger] instruction_at(*decoded, f, i) == Some(code@[i as int]),
{
    let count: usize = length(instruction_count(decoded, f));
    let mut code: Vec<Instruction> = Vec::new();
    let mut i: usize = 0;
    while i < count
        invariant
            i <= count,
            count == total(decoded_instruction_count(*decoded, f)),
            code@.len() == i,
            forall|e: usize|
                e < i ==> #[trigger] instruction_at(*decoded, f, e) == Some(code@[e as int]),
        decreases count - i,
    {
        let found = match instruction_encoding(decoded, f, i) {
            Some(encoding) => decode_instruction(&encoding, instruction_slot(decoded, f, i)),
            None => None,
        };
        match found {
            Some(instruction) => code.push(instruction),
            None => {
                assert(instruction_at(*decoded, f, i) is None);
                return None;
            },
        }
        i += 1;
    }
    Some(code)
}

/// Copies body `f`: its locals and its instructions.
fn read_body(decoded: &parity_wasm::elements::Module, f: usize) -> (r: Option<FuncBody>)
    ensures
        r is Some <==> body_readable(*decoded, f),
        r matches Some(body) ==> body_copied(*decoded, f, body),
{
    match read_locals(decoded, f) {
        Some(locals) => match read_code(decoded, f) {
            Some(code) => Some(FuncBody { locals, code }),
            None => None,
        },
        None => None,
    }
}

/// Copies the code section, where the decoded module has one.
fn read_bodies(decoded: &parity_wasm::elements::Module) -> (r: Option<Option<Vec<FuncBody>>>)
    ensures
        r is Some <==> forall|f: usize|
            f < total(decoded_body_count(*decoded)) ==> #[trigger] body_readable(*decoded, f),
        r matches Some(code) ==> match decoded_body_count(*decoded) {
            Some(count) => code matches Some(bodies) && bodies@.len() == count && forall|f: usize|
                f < count ==> body_copied(*decoded, f, #[trigger] bodies@[f as int]),
            None => code is None,
        },
{
    match body_count(decoded) {
        Some(count) => {
            let mut bodies: Vec<FuncBody> = Vec::new();
            let mut f: usize = 0;
            while f < count
                invariant
                    f <= count,
                    decoded_body_count(*decoded) == Some(count),
                    bodies@.len() == f,
                    forall|e: usize|
                        e < f ==> body_copied(*decoded, e, #[trigger] bodies@[e as int]),
                    forall|e: usize| e < f ==> #[trigger] body_readable(*decoded, e),
                decreases count - f,
            {
                match read_body(decoded, f) {
                    Some(body) => bodies.push(body),
                    None => {
                        return None;
                    },
                }
                f += 1;
            }
            Some(Some(bodies))
        },
        None => Some(None),
    }
}

/// Copies from a decoded module what the validator reads: the parameter types
/// of each function type, the type index of each function, the content type
/// of each declared global and, where the module has a code section, the
/// locals and the instructions of each body.
///
/// Returns `None` where a part of the decoded module cannot be read: a value
/// type that is none of the four, or an entry that the module does not hand
/// out.
pub fn from_parity(decoded: &parity_wasm::elements::Module) -> (r: Option<ModuleData>)
    ensures
        r is Some <==> readable(*decoded),
        r matches Some(data) ==> copied(*decoded, data),
{
    let types = match read_types(decoded) {
        Some(types) => types,
        None => {
            return None;
        },
    };
    let functions = match read_functions(decoded) {
        Some(functions) => functions,
        None => {
            return None;
        },
    };
    let globals = match read_globals(decoded) {
        Some(globals) => globals,
        None => {
            return None;
        },
    };
    let code = match read_bodies(decoded) {
        Some(code) => code,
        None => {
            return None;
        },
    };
    Some(ModuleData { types, functions, globals, code })
}

} // verus!
