//! The classification table: which category an operation kind belongs to.
//!
//! An instruction is classified by its kind alone; the slot that it may
//! address plays no part. Every kind has exactly one category, so the
//! categories cannot overlap.

use crate::types::{Instruction, ValueType};
use vstd::prelude::*;

verus! {

/// Kind of the instruction that reads a parameter or a local.
pub const LOCAL_GET: u8 = 0x20;

/// Kind of the instruction that reads a global.
pub const GLOBAL_GET: u8 = 0x23;

/// Kind of the instruction that pushes a 32-bit integer constant.
pub const I32_CONST: u8 = 0x41;

/// Kind of the instruction that pushes a 64-bit integer constant.
pub const I64_CONST: u8 = 0x42;

/// Kind of the instruction that pushes a 32-bit float constant.
pub const F32_CONST: u8 = 0x43;

/// Kind of the instruction that pushes a 64-bit float constant.
pub const F64_CONST: u8 = 0x44;

/// The category of an operation kind.
#[derive(Clone, Copy, Debug, PartialEq, Eq, Structural)]
pub enum Category {
    /// Reads a parameter, a local or a global and pushes its type.
    Accessor,
    /// A binary comparison or arithmetic operator on two operands of the
    /// given type.
    BinaryOperator(ValueType),
    /// Pushes a constant of the given type.
    ConstantPush(ValueType),
    /// Any other kind; the validator models no stack effect for it.
    Unclassified,
}

/// The classification table, one row per range of operation kinds.
///
/// The binary operators of a type are its two-operand comparisons
/// (`eq` to `ge`) and its two-operand arithmetic (`add` to `rotr` for the
/// integers, `add` to `copysign` for the floats). Tests of one operand and
/// unary arithmetic (`eqz`, `clz`, `abs` and the like) are unclassified.
pub open spec fn category_of(opcode: u8) -> Category {
    if opcode == LOCAL_GET || opcode == GLOBAL_GET {
        Category::Accessor
    } else if opcode == I32_CONST {
        Category::ConstantPush(ValueType::I32)
    } else if opcode == I64_CONST {
        Category::ConstantPush(ValueType::I64)
    } else if opcode == F32_CONST {
        Category::ConstantPush(ValueType::F32)
    } else if opcode == F64_CONST {
        Category::ConstantPush(ValueType::F64)
    } else if 0x46 <= opcode <= 0x4f || 0x6a <= opcode <= 0x78 {
        Category::BinaryOperator(ValueType::I32)
    } else if 0x51 <= opcode <= 0x5a || 0x7c <= opcode <= 0x8a {
        Category::BinaryOperator(ValueType::I64)
    } else if 0x5b <= opcode <= 0x60 || 0x92 <= opcode <= 0x98 {
        Category::BinaryOperator(ValueType::F32)
    } else if 0x61 <= opcode <= 0x66 || 0xa0 <= opcode <= 0xa6 {
        Category::BinaryOperator(ValueType::F64)
    } else {
        Category::Unclassified
    }
}

/// Looks an operation kind up in the classification table.
pub fn classify(opcode: u8) -> (c: Category)
    ensures
        c == category_of(opcode),
{
    match opcode {
        0x20 | 0x23 => Category::Accessor,
        0x41 => Category::ConstantPush(ValueType::I32),
        0x42 => Category::ConstantPush(ValueType::I64),
        0x43 => Category::ConstantPush(ValueType::F32),
        0x44 => Category::ConstantPush(ValueType::F64),
        0x46..=0x4f | 0x6a..=0x78 => Category::BinaryOperator(ValueType::I32),
        0x51..=0x5a | 0x7c..=0x8a => Category::BinaryOperator(ValueType::I64),
        0x5b..=0x60 | 0x92..=0x98 => Category::BinaryOperator(ValueType::F32),
        0x61..=0x66 | 0xa0..=0xa6 => Category::BinaryOperator(ValueType::F64),
        _ => Category::Unclassified,
    }
}

/// Whether the instruction's kind belongs to `category`. The slot that the
/// instruction addresses is ignored.
pub fn contains(instruction: &Instruction, category: Category) -> (b: bool)
    ensures
        b == (category_of(instruction.opcode) == category),
{
    classify(instruction.opcode) == category
}

} // verus!
