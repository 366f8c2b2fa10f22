//! What a binary decoder hands over, before any of it is converted: value
//! types, block types, memory immediates, exports, function types, operators
//! and function bodies, each as plain data. Items that the decoder reads
//! lazily come as `Result`s, one per item, so that a failure surfaces at the
//! item that caused it.

use vstd::prelude::*;

verus! {

/// A failure reported by the decoder: its message and the byte offset in the
/// binary at which it occurred.
#[derive(Clone, Debug, PartialEq, Eq)]
pub struct DecodeError {
    pub message: String,
    pub offset: usize,
}

/// A value type as it is written in the binary.
#[derive(Clone, Copy, Debug, PartialEq, Eq, Structural)]
pub enum ValType {
    I32,
    I64,
    F32,
    F64,
    V128,
    FuncRef,
    ExternRef,
}

/// The type annotation of a `block`, `loop` or `if`.
#[derive(Clone, Copy, Debug, PartialEq, Eq, Structural)]
pub enum BlockType {
    /// No parameters, no results.
    Empty,
    /// No parameters, one result of the given type.
    Type(ValType),
    /// Parameters and results of the function type at this index.
    FuncType(u32),
}

/// The immediate of a load or store.
#[derive(Clone, Copy, Debug, PartialEq, Eq, Structural)]
pub struct MemArg {
    /// Alignment, as the exponent of a power of two.
    pub align: u8,
    /// Largest alignment that the instruction allows, as an exponent.
    pub max_align: u8,
    /// Constant byte offset added to the address operand.
    pub offset: u64,
    /// Index of the memory that is accessed.
    pub memory: u32,
}

/// The kind of an exported or imported item.
#[derive(Clone, Copy, Debug, PartialEq, Eq, Structural)]
pub enum ExternalKind {
    Func,
    Table,
    Memory,
    Global,
    Tag,
}

/// One entry of the export section.
#[derive(Clone, Debug, PartialEq, Eq)]
pub struct Export {
    pub name: String,
    pub kind: ExternalKind,
    pub index: u32,
}

/// A function type of the type section.
#[derive(Clone, Debug, PartialEq, Eq)]
pub struct FuncType {
    pub params: Vec<ValType>,
    pub results: Vec<ValType>,
}

/// One entry of the type section.
#[derive(Clone, Debug, PartialEq, Eq)]
pub enum Type {
    Func(FuncType),
}

/// The immediates of `br_table`: the default depth, and the table's labels
/// in source order, each of which the decoder may fail to read.
#[derive(Clone, Debug, PartialEq, Eq)]
pub struct BrTable {
    pub default: u32,
    pub targets: Vec<Result<u32, DecodeError>>,
}

/// One decoded operator.
///
/// The variants with a name of their own are the instruction set that this
/// runtime executes. Every other operator arrives as `Other`, with the text
/// that describes it.
#[derive(Clone, Debug, PartialEq, Eq)]
pub enum Operator {
    // Control
    Unreachable,
    Nop,
    Block { blockty: BlockType },
    Loop { blockty: BlockType },
    If { blockty: BlockType },
    Else,
    End,
    Br { relative_depth: u32 },
    BrIf { relative_depth: u32 },
    BrTable { targets: BrTable },
    Return,
    Call { function_index: u32 },
    CallIndirect { type_index: u32, table_index: u32, table_byte: u8 },
    // Parametric
    Drop,
    Select,
    // Variable
    LocalGet { local_index: u32 },
    LocalSet { local_index: u32 },
    LocalTee { local_index: u32 },
    GlobalGet { global_index: u32 },
    GlobalSet { global_index: u32 },
    // Memory loads
    I32Load { memarg: MemArg },
    I64Load { memarg: MemArg },
    F32Load { memarg: MemArg },
    F64Load { memarg: MemArg },
    I32Load8S { memarg: MemArg },
    I32Load8U { memarg: MemArg },
    I32Load16S { memarg: MemArg },
    I32Load16U { memarg: MemArg },
    I64Load8S { memarg: MemArg },
    I64Load8U { memarg: MemArg },
    I64Load16S { memarg: MemArg },
    I64Load16U { memarg: MemArg },
    I64Load32S { memarg: MemArg },
    I64Load32U { memarg: MemArg },
    // Memory stores
    I32Store { memarg: MemArg },
    I64Store { memarg: MemArg },
    F32Store { memarg: MemArg },
    F64Store { memarg: MemArg },
    I32Store8 { memarg: MemArg },
    I32Store16 { memarg: MemArg },
    I64Store8 { memarg: MemArg },
    I64Store16 { memarg: MemArg },
    I64Store32 { memarg: MemArg },
    MemorySize { mem: u32, mem_byte: u8 },
    MemoryGrow { mem: u32, mem_byte: u8 },
    // Comparisons
    I32Eqz,
    I32Eq,
    I32Ne,
    I32LtS,
    I32LtU,
    I32GtS,
    I32GtU,
    I32LeS,
    I32LeU,
    I32GeS,
    I32GeU,
    I64Eqz,
    I64Eq,
    I64Ne,
    I64LtS,
    I64LtU,
    I64GtS,
    I64GtU,
    I64LeS,
    I64LeU,
    I64GeS,
    I64GeU,
    F32Eq,
    F32Ne,
    F32Lt,
    F32Gt,
    F32Le,
    F32Ge,
    F64Eq,
    F64Ne,
    F64Lt,
    F64Gt,
    F64Le,
    F64Ge,
    // Arithmetic
    I32Clz,
    I32Ctz,
    I32Popcnt,
    I32Add,
    I32Sub,
    I32Mul,
    I32DivS,
    I32DivU,
    I32RemS,
    I32RemU,
    I32And,
    I32Or,
    I32Xor,
    I32Shl,
    I32ShrS,
    I32ShrU,
    I32Rotl,
    I32Rotr,
    I64Clz,
    I64Ctz,
    I64Popcnt,
    I64Add,
    I64Sub,
    I64Mul,
    I64DivS,
    I64DivU,
    I64RemS,
    I64RemU,
    I64And,
    I64Or,
    I64Xor,
    I64Shl,
    I64ShrS,
    I64ShrU,
    I64Rotl,
    I64Rotr,
    F32Abs,
    F32Neg,
    F32Ceil,
    F32Floor,
    F32Trunc,
    F32Nearest,
    F32Sqrt,
    F32Add,
    F32Sub,
    F32Mul,
    F32Div,
    F32Min,
    F32Max,
    F32Copysign,
    F64Abs,
    F64Neg,
    F64Ceil,
    F64Floor,
    F64Trunc,
    F64Nearest,
    F64Sqrt,
    F64Add,
    F64Sub,
    F64Mul,
    F64Div,
    F64Min,
    F64Max,
    F64Copysign,
    // Conversions
    I32WrapI64,
    I32TruncF32S,
    I32TruncF32U,
    I32TruncF64S,
    I32TruncF64U,
    I64ExtendI32S,
    I64ExtendI32U,
    I64TruncF32S,
    I64TruncF32U,
    I64TruncF64S,
    I64TruncF64U,
    F32ConvertI32S,
    F32ConvertI32U,
    F32ConvertI64S,
    F32ConvertI64U,
    F32DemoteF64,
    F64ConvertI32S,
    F64ConvertI32U,
    F64ConvertI64S,
    F64ConvertI64U,
    F64PromoteF32,
    I32ReinterpretF32,
    I64ReinterpretF64,
    F32ReinterpretI32,
    F64ReinterpretI64,
    /// An operator outside the instruction set above.
    Other { description: String },
}

/// One declaration of locals in a function body: a run of `count` locals
/// of type `ty`. The count may be any number, zero too.
#[derive(Clone, Copy, Debug, PartialEq, Eq, Structural)]
pub struct LocalRun {
    pub count: u32,
    pub ty: ValType,
}

/// The locals of a function body as the decoder reads them.
///
/// `count` is the number of declarations that the body announces at its
/// head; it is not the number of locals, since one declaration stands for a
/// run of locals. `runs` holds the declarations in order, as far as the
/// decoder read them: each may have failed to decode, and after a failure
/// the decoder reads no further, so that fewer than `count` may be there.
#[derive(Clone, Debug, PartialEq, Eq)]
pub struct Locals {
    pub count: u32,
    pub runs: Vec<Result<LocalRun, DecodeError>>,
}

/// One entry of the code section. Opening either of its two parts can fail
/// as a whole; within a part, each item can fail on its own.
#[derive(Debug, PartialEq, Eq)]
pub struct FunctionBody {
    pub locals: Result<Locals, DecodeError>,
    pub operators: Result<Vec<Result<Operator, DecodeError>>, DecodeError>,
}

} // verus!
