//! The internal bytecode: a flat sequence of tagged instructions that an
//! interpreter walks. Structured control flow keeps its sentinels (`Block`,
//! `Loop`, `If`, `Else`, `End`); a branch table is one `BrTable` record
//! followed directly by one `BrLabel` record per table entry.

use vstd::prelude::*;
use crate::types::{BlockArgs, MemArg};

verus! {

/// One instruction of the internal bytecode.
///
/// `BrTable` holds only the default depth. The labels of the table follow it
/// in the stream as `BrLabel` records, in table order; how many there are is
/// not stored in the `BrTable` record.
#[derive(Clone, Copy, Debug, PartialEq, Eq, Structural)]
pub enum Instruction {
    // Branch-table entry; only ever emitted behind a `BrTable`
    BrLabel(u32),
    // Control
    Unreachable,
    Nop,
    Block(BlockArgs),
    Loop(BlockArgs),
    If(BlockArgs),
    Else,
    End,
    Br(u32),
    BrIf(u32),
    BrTable(u32),
    Return,
    Call(u32),
    CallIndirect(u32, u32),
    // Parametric
    Drop,
    Select,
    // Variable
    LocalGet(u32),
    LocalSet(u32),
    LocalTee(u32),
    GlobalGet(u32),
    GlobalSet(u32),
    // Memory loads
    I32Load(MemArg),
    I64Load(MemArg),
    F32Load(MemArg),
    F64Load(MemArg),
    I32Load8S(MemArg),
    I32Load8U(MemArg),
    I32Load16S(MemArg),
    I32Load16U(MemArg),
    I64Load8S(MemArg),
    I64Load8U(MemArg),
    I64Load16S(MemArg),
    I64Load16U(MemArg),
    I64Load32S(MemArg),
    I64Load32U(MemArg),
    // Memory stores
    I32Store(MemArg),
    I64Store(MemArg),
    F32Store(MemArg),
    F64Store(MemArg),
    I32Store8(MemArg),
    I32Store16(MemArg),
    I64Store8(MemArg),
    I64Store16(MemArg),
    I64Store32(MemArg),
    MemorySize,
    MemoryGrow,
    // Comparisons
    I32Eqz,
    I32Eq,
    I32Ne,
    I32LtS,
    I32LtU,
    I32GtS,
    I32GtU,
    I32LeS,
    I32LeU,
    I32GeS,
    I32GeU,
    I64Eqz,
    I64Eq,
    I64Ne,
    I64LtS,
    I64LtU,
    I64GtS,
    I64GtU,
    I64LeS,
    I64LeU,
    I64GeS,
    I64GeU,
    F32Eq,
    F32Ne,
    F32Lt,
    F32Gt,
    F32Le,
    F32Ge,
    F64Eq,
    F64Ne,
    F64Lt,
    F64Gt,
    F64Le,
    F64Ge,
    // Arithmetic
    I32Clz,
    I32Ctz,
    I32Popcnt,
    I32Add,
    I32Sub,
    I32Mul,
    I32DivS,
    I32DivU,
    I32RemS,
    I32RemU,
    I32And,
    I32Or,
    I32Xor,
    I32Shl,
    I32ShrS,
    I32ShrU,
    I32Rotl,
    I32Rotr,
    I64Clz,
    I64Ctz,
    I64Popcnt,
    I64Add,
    I64Sub,
    I64Mul,
    I64DivS,
    I64DivU,
    I64RemS,
    I64RemU,
    I64And,
    I64Or,
    I64Xor,
    I64Shl,
    I64ShrS,
    I64ShrU,
    I64Rotl,
    I64Rotr,
    F32Abs,
    F32Neg,
    F32Ceil,
    F32Floor,
    F32Trunc,
    F32Nearest,
    F32Sqrt,
    F32Add,
    F32Sub,
    F32Mul,
    F32Div,
    F32Min,
    F32Max,
    F32Copysign,
    F64Abs,
    F64Neg,
    F64Ceil,
    F64Floor,
    F64Trunc,
    F64Nearest,
    F64Sqrt,
    F64Add,
    F64Sub,
    F64Mul,
    F64Div,
    F64Min,
    F64Max,
    F64Copysign,
    // Conversions
    I32WrapI64,
    I32TruncF32S,
    I32TruncF32U,
    I32TruncF64S,
    I32TruncF64U,
    I64ExtendI32S,
    I64ExtendI32U,
    I64TruncF32S,
    I64TruncF32U,
    I64TruncF64S,
    I64TruncF64U,
    F32ConvertI32S,
    F32ConvertI32U,
    F32ConvertI64S,
    F32ConvertI64U,
    F32DemoteF64,
    F64ConvertI32S,
    F64ConvertI32U,
    F64ConvertI64S,
    F64ConvertI64U,
    F64PromoteF32,
    I32ReinterpretF32,
    I64ReinterpretF64,
    F32ReinterpretI32,
    F64ReinterpretI64,
}

impl Instruction {
    /// True for the record that carries one entry of a branch table.
    pub open spec fn is_label(self) -> bool {
        self is BrLabel
    }

    /// The index of the function type that the instruction refers to, if
    /// it refers to one: the type of an indirect call, or the type of a
    /// block that is given by index.
    pub open spec fn spec_type_index(&self) -> Option<u32> {
        match *self {
            Instruction::CallIndirect(ty, _) => Some(ty),
            Instruction::Block(BlockArgs::FuncType(ty)) => Some(ty),
            Instruction::Loop(BlockArgs::FuncType(ty)) => Some(ty),
            Instruction::If(BlockArgs::FuncType(ty)) => Some(ty),
            _ => None,
        }
    }

    /// The index of the function type that the instruction refers to, if
    /// it refers to one.
    #[verifier::when_used_as_spec(spec_type_index)]
    pub fn type_index(&self) -> (index: Option<u32>)
        ensures
            index == self.spec_type_index(),
    {
        match self {
            Instruction::CallIndirect(ty, _) => Some(*ty),
            Instruction::Block(BlockArgs::FuncType(ty)) => Some(*ty),
            Instruction::Loop(BlockArgs::FuncType(ty)) => Some(*ty),
            Instruction::If(BlockArgs::FuncType(ty)) => Some(*ty),
            _ => None,
        }
    }
}

} // verus!
