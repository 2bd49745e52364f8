//! The stack effect of a single instruction.

use crate::classifications::{category_of, classify, Category};
use crate::types::{Instruction, ValueType};
use vstd::prelude::*;

verus! {

/// The stack effect of an instruction: the types it pops, the first of them
/// from the top of the stack, and the types it then pushes, in order.
#[derive(Clone, Debug)]
pub struct Signature {
    pub pop: Vec<ValueType>,
    pub push: Vec<ValueType>,
}

/// The popped and the pushed types of a stack effect, as sequences.
pub struct SignatureView {
    pub pop: Seq<ValueType>,
    pub push: Seq<ValueType>,
}

impl View for Signature {
    type V = SignatureView;

    open spec fn view(&self) -> SignatureView {
        SignatureView { pop: self.pop@, push: self.push@ }
    }
}

/// The stack effect of a binary operator on operands of type `t`.
pub open spec fn binary_signature(t: ValueType) -> SignatureView {
    SignatureView { pop: seq![t, t], push: seq![t] }
}

/// The stack effect of a constant push of type `t`.
pub open spec fn const_signature(t: ValueType) -> SignatureView {
    SignatureView { pop: Seq::empty(), push: seq![t] }
}

/// The stack effect that the validator models for an instruction: two operands
/// in and one result out, all of one type, for a binary operator; one value
/// out for a constant push; none for any other instruction.
pub open spec fn signature_of(instruction: Instruction) -> Option<SignatureView> {
    match category_of(instruction.opcode) {
        Category::BinaryOperator(t) => Some(binary_signature(t)),
        Category::ConstantPush(t) => Some(const_signature(t)),
        _ => None,
    }
}

/// Resolves the stack effect of an instruction, or `None` where the validator
/// models none for it.
pub fn get_instruction_signature(instruction: &Instruction) -> (r: Option<Signature>)
    ensures
        r is Some <==> signature_of(*instruction) is Some,
        r matches Some(s) ==> Some(s@) == signature_of(*instruction),
{
    match classify(instruction.opcode) {
        Category::BinaryOperator(t) => {
            let signature = Signature { pop: vec![t, t], push: vec![t] };
            assert(signature.pop@ =~= binary_signature(t).pop);
            assert(signature.push@ =~= binary_signature(t).push);
            Some(signature)
        },
        Category::ConstantPush(_) => get_const_signature(instruction),
        _ => None,
    }
}

/// Resolves the stack effect of a constant push from the type that the
/// instruction itself declares, or `None` where the instruction is no
/// constant push.
pub fn get_const_signature(instruction: &Instruction) -> (r: Option<Signature>)
    ensures
        match category_of(instruction.opcode) {
            Category::ConstantPush(t) => r matches Some(s) && s@ == const_signature(t),
            _ => r is None,
        },
{
    match classify(instruction.opcode) {
        Category::ConstantPush(t) => {
            let signature = Signature { pop: Vec::new(), push: vec![t] };
            assert(signature.pop@ =~= const_signature(t).pop);
            assert(signature.push@ =~= const_signature(t).push);
            Some(signature)
        },
        _ => None,
    }
}

} // verus!
