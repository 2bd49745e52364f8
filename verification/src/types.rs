//! The data that the validator reads: value types, instructions, function
//! bodies and the module that holds them.

use vstd::prelude::*;

verus! {

/// A primitive operand type. Two value types are equal only if they are the
/// same variant; nothing is coerced.
#[derive(Clone, Copy, Debug, PartialEq, Eq, Structural)]
pub enum ValueType {
    /// 32-bit integer.
    I32,
    /// 64-bit integer.
    I64,
    /// 32-bit float.
    F32,
    /// 64-bit float.
    F64,
}

/// One decoded operation.
///
/// `opcode` is the operation kind, as the first byte of the instruction's
/// binary encoding. `index` is the slot number that an accessor instruction
/// addresses; other instructions carry zero there.
#[derive(Clone, Copy, Debug, PartialEq, Eq, Structural)]
pub struct Instruction {
    pub opcode: u8,
    pub index: u32,
}

/// The parameter types of a registered function signature, in order.
#[derive(Clone, Debug)]
pub struct FunctionType {
    pub params: Vec<ValueType>,
}

/// One function body: the declared local variable types, in order, and the
/// instruction stream.
#[derive(Clone, Debug)]
pub struct FuncBody {
    pub locals: Vec<ValueType>,
    pub code: Vec<Instruction>,
}

/// A decoded module, reduced to what the validator reads.
///
/// `functions[f]` is the index into `types` of the signature of function `f`;
/// `code`, where present, holds the body of function `f` at position `f`.
#[derive(Clone, Debug)]
pub struct ModuleData {
    pub types: Vec<FunctionType>,
    pub functions: Vec<u32>,
    pub globals: Vec<ValueType>,
    pub code: Option<Vec<FuncBody>>,
}

impl ModuleData {
    /// The parameter types of function `f`: those of the signature that the
    /// function is registered with, or none where the module registers no
    /// signature for it.
    pub open spec fn params_of(&self, f: int) -> Seq<ValueType> {
        if 0 <= f < self.functions@.len() && (self.functions@[f] as int) < self.types@.len() {
            self.types@[self.functions@[f] as int].params@
        } else {
            Seq::empty()
        }
    }

    /// The number of function bodies, or `None` where the module has no code
    /// section.
    pub open spec fn body_count(&self) -> Option<nat> {
        match self.code {
            Some(bodies) => Some(bodies@.len()),
            None => None,
        }
    }

    /// The body of function `f`.
    pub open spec fn body(&self, f: int) -> FuncBody
        recommends
            self.code is Some,
            0 <= f < self.code->0@.len(),
    {
        self.code->0@[f]
    }

    /// Looks up the parameter types of function `f`.
    pub fn params(&self, f: usize) -> (r: Option<&Vec<ValueType>>)
        ensures
            match r {
                Some(p) => p@ == self.params_of(f as int)
                    && f < self.functions@.len()
                    && (self.functions@[f as int] as int) < self.types@.len(),
                None => self.params_of(f as int) == Seq::<ValueType>::empty()
                    && !(f < self.functions@.len()
                        && (self.functions@[f as int] as int) < self.types@.len()),
            },
    {
        if f < self.functions.len() {
            let type_ref: usize = self.functions[f] as usize;
            if type_ref < self.types.len() {
                return Some(&self.types[type_ref].params);
            }
        }
        None
    }
}

} // verus!
