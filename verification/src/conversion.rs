//! Conversion of decoded items into the runtime's own representation.
//!
//! Each conversion is a function of the decoded item alone. The operator
//! stream of a function body becomes a flat instruction sequence in a single
//! pass: one instruction per operator, except that a branch table is spread
//! over one `BrTable` record and one `BrLabel` record per label.

use vstd::prelude::*;
use vstd::string::StringExecFns;
use crate::decoded;
use crate::decoded::{DecodeError, LocalRun, Operator};
use crate::error::{ParseError, ParseErrorView};
use crate::instructions::Instruction;
use crate::types::{BlockArgs, ExternalKind, Export, FuncType, FuncTypeView, MemArg, ValType};

verus! {

/// The locals and the instructions of one function.
#[derive(Clone, Debug, PartialEq, Eq)]
pub struct CodeSection {
    pub locals: Vec<ValType>,
    pub body: Vec<Instruction>,
}

/// The locals and the instructions of one function, as sequences.
pub struct CodeSectionView {
    pub locals: Seq<ValType>,
    pub body: Seq<Instruction>,
}

impl View for CodeSection {
    type V = CodeSectionView;

    open spec fn view(&self) -> CodeSectionView {
        CodeSectionView { locals: self.locals@, body: self.body@ }
    }
}

/// An export as its name, kind and index.
pub struct ExportView {
    pub name: Seq<char>,
    pub kind: ExternalKind,
    pub index: u32,
}

impl View for Export {
    type V = ExportView;

    open spec fn view(&self) -> ExportView {
        ExportView { name: self.name@, kind: self.kind, index: self.index }
    }
}

/// The view of a result: the view of what it holds, on either side.
pub open spec fn result_view<T: View, E: View>(result: Result<T, E>) -> Result<T::V, E::V> {
    match result {
        Ok(value) => Ok(value@),
        Err(error) => Err(error@),
    }
}

/// The view of a result whose value is its own view.
pub open spec fn error_view<T, E: View>(result: Result<T, E>) -> Result<T, E::V> {
    match result {
        Ok(value) => Ok(value),
        Err(error) => Err(error@),
    }
}

// ---------------------------------------------------------------------------
// Value types, block types, memory immediates
// ---------------------------------------------------------------------------

/// The runtime's value type for a decoded one.
pub open spec fn val_type_of(valtype: decoded::ValType) -> ValType {
    match valtype {
        decoded::ValType::I32 => ValType::I32,
        decoded::ValType::I64 => ValType::I64,
        decoded::ValType::F32 => ValType::F32,
        decoded::ValType::F64 => ValType::F64,
        decoded::ValType::V128 => ValType::V128,
        decoded::ValType::FuncRef => ValType::FuncRef,
        decoded::ValType::ExternRef => ValType::ExternRef,
    }
}

/// Converts a value type.
pub fn convert_valtype(valtype: &decoded::ValType) -> (converted: ValType)
    ensures
        converted == val_type_of(*valtype),
{
    match valtype {
        decoded::ValType::I32 => ValType::I32,
        decoded::ValType::I64 => ValType::I64,
        decoded::ValType::F32 => ValType::F32,
        decoded::ValType::F64 => ValType::F64,
        decoded::ValType::V128 => ValType::V128,
        decoded::ValType::FuncRef => ValType::FuncRef,
        decoded::ValType::ExternRef => ValType::ExternRef,
    }
}

/// The error for a block type that refers to a function type by index.
pub open spec fn unsupported_block_type() -> ParseErrorView {
    ParseErrorView::UnsupportedOperator("Unsupported block type: FuncType"@)
}

/// The block arguments for a decoded block type. A block type that refers
/// to a function type by index is not supported.
pub open spec fn block_args_of(blocktype: decoded::BlockType) -> Result<BlockArgs, ParseErrorView> {
    match blocktype {
        decoded::BlockType::Empty => Ok(BlockArgs::Empty),
        decoded::BlockType::Type(ty) => Ok(BlockArgs::Type(val_type_of(ty))),
        decoded::BlockType::FuncType(_) => Err(unsupported_block_type()),
    }
}

/// Converts a block type.
pub fn convert_blocktype(blocktype: &decoded::BlockType) -> (converted: Result<
    BlockArgs,
    ParseError,
>)
    ensures
        error_view(converted) == block_args_of(*blocktype),
{
    match blocktype {
        decoded::BlockType::Empty => Ok(BlockArgs::Empty),
        decoded::BlockType::Type(ty) => Ok(BlockArgs::Type(convert_valtype(ty))),
        decoded::BlockType::FuncType(_) => Err(
            ParseError::UnsupportedOperator(String::from_str("Unsupported block type: FuncType")),
        ),
    }
}

/// The memory immediate of an instruction: the offset and the alignment of
/// the decoded one.
pub open spec fn mem_arg_of(memarg: decoded::MemArg) -> MemArg {
    MemArg { offset: memarg.offset, align: memarg.align as u32 }
}

/// Converts the immediate of a load or store.
pub fn convert_memarg(memarg: decoded::MemArg) -> (converted: MemArg)
    ensures
        converted == mem_arg_of(memarg),
{
    MemArg { offset: memarg.offset, align: memarg.align as u32 }
}

// ---------------------------------------------------------------------------
// Exports and function types
// ---------------------------------------------------------------------------

/// The error for an export of a tag.
pub open spec fn unsupported_export_kind() -> ParseErrorView {
    ParseErrorView::UnsupportedOperator("Unsupported export kind: Tag"@)
}

/// The export for a decoded one: the same name and index, and the same
/// kind. The export of a tag is not supported.
pub open spec fn export_of(export: decoded::Export) -> Result<ExportView, ParseErrorView> {
    match export.kind {
        decoded::ExternalKind::Func => Ok(
            ExportView { name: export.name@, kind: ExternalKind::Func, index: export.index },
        ),
        decoded::ExternalKind::Table => Ok(
            ExportView { name: export.name@, kind: ExternalKind::Table, index: export.index },
        ),
        decoded::ExternalKind::Memory => Ok(
            ExportView { name: export.name@, kind: ExternalKind::Memory, index: export.index },
        ),
        decoded::ExternalKind::Global => Ok(
            ExportView { name: export.name@, kind: ExternalKind::Global, index: export.index },
        ),
        decoded::ExternalKind::Tag => Err(unsupported_export_kind()),
    }
}

/// Converts an export.
pub fn convert_module_export(export: decoded::Export) -> (converted: Result<Export, ParseError>)
    ensures
        result_view(converted) == export_of(export),
{
    let kind = match export.kind {
        decoded::ExternalKind::Func => ExternalKind::Func,
        decoded::ExternalKind::Table => ExternalKind::Table,
        decoded::ExternalKind::Memory => ExternalKind::Memory,
        decoded::ExternalKind::Global => ExternalKind::Global,
        decoded::ExternalKind::Tag => {
            return Err(
                ParseError::UnsupportedOperator(String::from_str("Unsupported export kind: Tag")),
            );
        },
    };
    Ok(Export { name: export.name, kind, index: export.index })
}

/// The runtime's value types for a sequence of decoded ones, one for one.
pub open spec fn val_types_of(types: Seq<decoded::ValType>) -> Seq<ValType> {
    Seq::new(types.len(), |i: int| val_type_of(types[i]))
}

/// The function type for a decoded entry of the type section.
pub open spec fn func_type_of(ty: decoded::Type) -> FuncTypeView {
    match ty {
        decoded::Type::Func(func) => FuncTypeView {
            params: val_types_of(func.params@),
            results: val_types_of(func.results@),
        },
    }
}

/// Converts value types, one for one.
fn convert_valtypes(types: &Vec<decoded::ValType>) -> (converted: Vec<ValType>)
    ensures
        converted@ == val_types_of(types@),
{
    let mut converted: Vec<ValType> = Vec::new();
    let mut i: usize = 0;
    while i < types.len()
        invariant
            i <= types.len(),
            converted@.len() == i,
            forall|k: int| 0 <= k < i ==> converted@[k] == val_type_of(types@[k]),
        decreases types.len() - i,
    {
        converted.push(convert_valtype(&types[i]));
        i += 1;
    }
    converted
}

/// Converts an entry of the type section.
pub fn convert_module_type(ty: decoded::Type) -> (converted: FuncType)
    ensures
        converted@ == func_type_of(ty),
{
    match &ty {
        decoded::Type::Func(func) => FuncType {
            params: convert_valtypes(&func.params),
            results: convert_valtypes(&func.results),
        },
    }
}

// ---------------------------------------------------------------------------
// Operators
// ---------------------------------------------------------------------------

/// The error for an operator outside the instruction set, given the text
/// that describes the operator.
pub open spec fn unsupported_instruction(description: Seq<char>) -> ParseErrorView {
    ParseErrorView::UnsupportedOperator("Unsupported instruction: "@ + description)
}

/// The error for an operator outside the instruction set.
fn unsupported(description: &str) -> (error: ParseError)
    ensures
        error@ == unsupported_instruction(description@),
{
    ParseError::UnsupportedOperator(
        String::from_str("Unsupported instruction: ").concat(description),
    )
}

/// The instruction for one operator: the instruction of the same name, with
/// the operator's immediates. A branch table gives the `BrTable` record
/// alone, without its labels. An operator outside the instruction set, or a
/// block type that is not supported, gives an error.
pub open spec fn instruction_of(op: Operator) -> Result<Instruction, ParseErrorView> {
    match op {
        Operator::Unreachable => Ok(Instruction::Unreachable),
        Operator::Nop => Ok(Instruction::Nop),
        Operator::Block { blockty } => match block_args_of(blockty) {
            Ok(args) => Ok(Instruction::Block(args)),
            Err(e) => Err(e),
        },
        Operator::Loop { blockty } => match block_args_of(blockty) {
            Ok(args) => Ok(Instruction::Loop(args)),
            Err(e) => Err(e),
        },
        Operator::If { blockty } => match block_args_of(blockty) {
            Ok(args) => Ok(Instruction::If(args)),
            Err(e) => Err(e),
        },
        Operator::Else => Ok(Instruction::Else),
        Operator::End => Ok(Instruction::End),
        Operator::Br { relative_depth } => Ok(Instruction::Br(relative_depth)),
        Operator::BrIf { relative_depth } => Ok(Instruction::BrIf(relative_depth)),
        Operator::BrTable { targets } => Ok(Instruction::BrTable(targets.default)),
        Operator::Return => Ok(Instruction::Return),
        Operator::Call { function_index } => Ok(Instruction::Call(function_index)),
        Operator::CallIndirect { type_index, table_index, table_byte } => Ok(
            Instruction::CallIndirect(type_index, table_index),
        ),
        Operator::Drop => Ok(Instruction::Drop),
        Operator::Select => Ok(Instruction::Select),
        Operator::LocalGet { local_index } => Ok(Instruction::LocalGet(local_index)),
        Operator::LocalSet { local_index } => Ok(Instruction::LocalSet(local_index)),
        Operator::LocalTee { local_index } => Ok(Instruction::LocalTee(local_index)),
        Operator::GlobalGet { global_index } => Ok(Instruction::GlobalGet(global_index)),
        Operator::GlobalSet { global_index } => Ok(Instruction::GlobalSet(global_index)),
        Operator::I32Load { memarg } => Ok(Instruction::I32Load(mem_arg_of(memarg))),
        Operator::I64Load { memarg } => Ok(Instruction::I64Load(mem_arg_of(memarg))),
        Operator::F32Load { memarg } => Ok(Instruction::F32Load(mem_arg_of(memarg))),
        Operator::F64Load { memarg } => Ok(Instruction::F64Load(mem_arg_of(memarg))),
        Operator::I32Load8S { memarg } => Ok(Instruction::I32Load8S(mem_arg_of(memarg))),
        Operator::I32Load8U { memarg } => Ok(Instruction::I32Load8U(mem_arg_of(memarg))),
        Operator::I32Load16S { memarg } => Ok(Instruction::I32Load16S(mem_arg_of(memarg))),
        Operator::I32Load16U { memarg } => Ok(Instruction::I32Load16U(mem_arg_of(memarg))),
        Operator::I64Load8S { memarg } => Ok(Instruction::I64Load8S(mem_arg_of(memarg))),
        Operator::I64Load8U { memarg } => Ok(Instruction::I64Load8U(mem_arg_of(memarg))),
        Operator::I64Load16S { memarg } => Ok(Instruction::I64Load16S(mem_arg_of(memarg))),
        Operator::I64Load16U { memarg } => Ok(Instruction::I64Load16U(mem_arg_of(memarg))),
        Operator::I64Load32S { memarg } => Ok(Instruction::I64Load32S(mem_arg_of(memarg))),
        Operator::I64Load32U { memarg } => Ok(Instruction::I64Load32U(mem_arg_of(memarg))),
        Operator::I32Store { memarg } => Ok(Instruction::I32Store(mem_arg_of(memarg))),
        Operator::I64Store { memarg } => Ok(Instruction::I64Store(mem_arg_of(memarg))),
        Operator::F32Store { memarg } => Ok(Instruction::F32Store(mem_arg_of(memarg))),
        Operator::F64Store { memarg } => Ok(Instruction::F64Store(mem_arg_of(memarg))),
        Operator::I32Store8 { memarg } => Ok(Instruction::I32Store8(mem_arg_of(memarg))),
        Operator::I32Store16 { memarg } => Ok(Instruction::I32Store16(mem_arg_of(memarg))),
        Operator::I64Store8 { memarg } => Ok(Instruction::I64Store8(mem_arg_of(memarg))),
        Operator::I64Store16 { memarg } => Ok(Instruction::I64Store16(mem_arg_of(memarg))),
        Operator::I64Store32 { memarg } => Ok(Instruction::I64Store32(mem_arg_of(memarg))),
        Operator::MemorySize { mem, mem_byte } => Ok(Instruction::MemorySize),
        Operator::MemoryGrow { mem, mem_byte } => Ok(Instruction::MemoryGrow),
        Operator::I32Eqz => Ok(Instruction::I32Eqz),
        Operator::I32Eq => Ok(Instruction::I32Eq),
        Operator::I32Ne => Ok(Instruction::I32Ne),
        Operator::I32LtS => Ok(Instruction::I32LtS),
        Operator::I32LtU => Ok(Instruction::I32LtU),
        Operator::I32GtS => Ok(Instruction::I32GtS),
        Operator::I32GtU => Ok(Instruction::I32GtU),
        Operator::I32LeS => Ok(Instruction::I32LeS),
        Operator::I32LeU => Ok(Instruction::I32LeU),
        Operator::I32GeS => Ok(Instruction::I32GeS),
        Operator::I32GeU => Ok(Instruction::I32GeU),
        Operator::I64Eqz => Ok(Instruction::I64Eqz),
        Operator::I64Eq => Ok(Instruction::I64Eq),
        Operator::I64Ne => Ok(Instruction::I64Ne),
        Operator::I64LtS => Ok(Instruction::I64LtS),
        Operator::I64LtU => Ok(Instruction::I64LtU),
        Operator::I64GtS => Ok(Instruction::I64GtS),
        Operator::I64GtU => Ok(Instruction::I64GtU),
        Operator::I64LeS => Ok(Instruction::I64LeS),
        Operator::I64LeU => Ok(Instruction::I64LeU),
        Operator::I64GeS => Ok(Instruction::I64GeS),
        Operator::I64GeU => Ok(Instruction::I64GeU),
        Operator::F32Eq => Ok(Instruction::F32Eq),
        Operator::F32Ne => Ok(Instruction::F32Ne),
        Operator::F32Lt => Ok(Instruction::F32Lt),
        Operator::F32Gt => Ok(Instruction::F32Gt),
        Operator::F32Le => Ok(Instruction::F32Le),
        Operator::F32Ge => Ok(Instruction::F32Ge),
        Operator::F64Eq => Ok(Instruction::F64Eq),
        Operator::F64Ne => Ok(Instruction::F64Ne),
        Operator::F64Lt => Ok(Instruction::F64Lt),
        Operator::F64Gt => Ok(Instruction::F64Gt),
        Operator::F64Le => Ok(Instruction::F64Le),
        Operator::F64Ge => Ok(Instruction::F64Ge),
        Operator::I32Clz => Ok(Instruction::I32Clz),
        Operator::I32Ctz => Ok(Instruction::I32Ctz),
        Operator::I32Popcnt => Ok(Instruction::I32Popcnt),
        Operator::I32Add => Ok(Instruction::I32Add),
        Operator::I32Sub => Ok(Instruction::I32Sub),
        Operator::I32Mul => Ok(Instruction::I32Mul),
        Operator::I32DivS => Ok(Instruction::I32DivS),
        Operator::I32DivU => Ok(Instruction::I32DivU),
        Operator::I32RemS => Ok(Instruction::I32RemS),
        Operator::I32RemU => Ok(Instruction::I32RemU),
        Operator::I32And => Ok(Instruction::I32And),
        Operator::I32Or => Ok(Instruction::I32Or),
        Operator::I32Xor => Ok(Instruction::I32Xor),
        Operator::I32Shl => Ok(Instruction::I32Shl),
        Operator::I32ShrS => Ok(Instruction::I32ShrS),
        Operator::I32ShrU => Ok(Instruction::I32ShrU),
        Operator::I32Rotl => Ok(Instruction::I32Rotl),
        Operator::I32Rotr => Ok(Instruction::I32Rotr),
        Operator::I64Clz => Ok(Instruction::I64Clz),
        Operator::I64Ctz => Ok(Instruction::I64Ctz),
        Operator::I64Popcnt => Ok(Instruction::I64Popcnt),
        Operator::I64Add => Ok(Instruction::I64Add),
        Operator::I64Sub => Ok(Instruction::I64Sub),
        Operator::I64Mul => Ok(Instruction::I64Mul),
        Operator::I64DivS => Ok(Instruction::I64DivS),
        Operator::I64DivU => Ok(Instruction::I64DivU),
        Operator::I64RemS => Ok(Instruction::I64RemS),
        Operator::I64RemU => Ok(Instruction::I64RemU),
        Operator::I64And => Ok(Instruction::I64And),
        Operator::I64Or => Ok(Instruction::I64Or),
        Operator::I64Xor => Ok(Instruction::I64Xor),
        Operator::I64Shl => Ok(Instruction::I64Shl),
        Operator::I64ShrS => Ok(Instruction::I64ShrS),
        Operator::I64ShrU => Ok(Instruction::I64ShrU),
        Operator::I64Rotl => Ok(Instruction::I64Rotl),
        Operator::I64Rotr => Ok(Instruction::I64Rotr),
        Operator::F32Abs => Ok(Instruction::F32Abs),
        Operator::F32Neg => Ok(Instruction::F32Neg),
        Operator::F32Ceil => Ok(Instruction::F32Ceil),
        Operator::F32Floor => Ok(Instruction::F32Floor),
        Operator::F32Trunc => Ok(Instruction::F32Trunc),
        Operator::F32Nearest => Ok(Instruction::F32Nearest),
        Operator::F32Sqrt => Ok(Instruction::F32Sqrt),
        Operator::F32Add => Ok(Instruction::F32Add),
        Operator::F32Sub => Ok(Instruction::F32Sub),
        Operator::F32Mul => Ok(Instruction::F32Mul),
        Operator::F32Div => Ok(Instruction::F32Div),
        Operator::F32Min => Ok(Instruction::F32Min),
        Operator::F32Max => Ok(Instruction::F32Max),
        Operator::F32Copysign => Ok(Instruction::F32Copysign),
        Operator::F64Abs => Ok(Instruction::F64Abs),
        Operator::F64Neg => Ok(Instruction::F64Neg),
        Operator::F64Ceil => Ok(Instruction::F64Ceil),
        Operator::F64Floor => Ok(Instruction::F64Floor),
        Operator::F64Trunc => Ok(Instruction::F64Trunc),
        Operator::F64Nearest => Ok(Instruction::F64Nearest),
        Operator::F64Sqrt => Ok(Instruction::F64Sqrt),
        Operator::F64Add => Ok(Instruction::F64Add),
        Operator::F64Sub => Ok(Instruction::F64Sub),
        Operator::F64Mul => Ok(Instruction::F64Mul),
        Operator::F64Div => Ok(Instruction::F64Div),
        Operator::F64Min => Ok(Instruction::F64Min),
        Operator::F64Max => Ok(Instruction::F64Max),
        Operator::F64Copysign => Ok(Instruction::F64Copysign),
        Operator::I32WrapI64 => Ok(Instruction::I32WrapI64),
        Operator::I32TruncF32S => Ok(Instruction::I32TruncF32S),
        Operator::I32TruncF32U => Ok(Instruction::I32TruncF32U),
        Operator::I32TruncF64S => Ok(Instruction::I32TruncF64S),
        Operator::I32TruncF64U => Ok(Instruction::I32TruncF64U),
        Operator::I64ExtendI32S => Ok(Instruction::I64ExtendI32S),
        Operator::I64ExtendI32U => Ok(Instruction::I64ExtendI32U),
        Operator::I64TruncF32S => Ok(Instruction::I64TruncF32S),
        Operator::I64TruncF32U => Ok(Instruction::I64TruncF32U),
        Operator::I64TruncF64S => Ok(Instruction::I64TruncF64S),
        Operator::I64TruncF64U => Ok(Instruction::I64TruncF64U),
        Operator::F32ConvertI32S => Ok(Instruction::F32ConvertI32S),
        Operator::F32ConvertI32U => Ok(Instruction::F32ConvertI32U),
        Operator::F32ConvertI64S => Ok(Instruction::F32ConvertI64S),
        Operator::F32ConvertI64U => Ok(Instruction::F32ConvertI64U),
        Operator::F32DemoteF64 => Ok(Instruction::F32DemoteF64),
        Operator::F64ConvertI32S => Ok(Instruction::F64ConvertI32S),
        Operator::F64ConvertI32U => Ok(Instruction::F64ConvertI32U),
        Operator::F64ConvertI64S => Ok(Instruction::F64ConvertI64S),
        Operator::F64ConvertI64U => Ok(Instruction::F64ConvertI64U),
        Operator::F64PromoteF32 => Ok(Instruction::F64PromoteF32),
        Operator::I32ReinterpretF32 => Ok(Instruction::I32ReinterpretF32),
        Operator::I64ReinterpretF64 => Ok(Instruction::I64ReinterpretF64),
        Operator::F32ReinterpretI32 => Ok(Instruction::F32ReinterpretI32),
        Operator::F64ReinterpretI64 => Ok(Instruction::F64ReinterpretI64),
        Operator::Other { description } => Err(unsupported_instruction(description@)),
    }
}

/// Converts one operator. Of a branch table this gives the `BrTable` record
/// alone; `process_operators` adds the labels.
pub fn process_operator(op: &Operator) -> (converted: Result<Instruction, ParseError>)
    ensures
        error_view(converted) == instruction_of(*op),
{
    let instruction = match op {
        Operator::Unreachable => Instruction::Unreachable,
        Operator::Nop => Instruction::Nop,
        Operator::Block { blockty } => Instruction::Block(convert_blocktype(blockty)?),
        Operator::Loop { blockty } => Instruction::Loop(convert_blocktype(blockty)?),
        Operator::If { blockty } => Instruction::If(convert_blocktype(blockty)?),
        Operator::Else => Instruction::Else,
        Operator::End => Instruction::End,
        Operator::Br { relative_depth } => Instruction::Br(*relative_depth),
        Operator::BrIf { relative_depth } => Instruction::BrIf(*relative_depth),
        Operator::BrTable { targets } => Instruction::BrTable(targets.default),
        Operator::Return => Instruction::Return,
        Operator::Call { function_index } => Instruction::Call(*function_index),
        Operator::CallIndirect { type_index, table_index, table_byte: _ } => {
            Instruction::CallIndirect(*type_index, *table_index)
        },
        Operator::Drop => Instruction::Drop,
        Operator::Select => Instruction::Select,
        Operator::LocalGet { local_index } => Instruction::LocalGet(*local_index),
        Operator::LocalSet { local_index } => Instruction::LocalSet(*local_index),
        Operator::LocalTee { local_index } => Instruction::LocalTee(*local_index),
        Operator::GlobalGet { global_index } => Instruction::GlobalGet(*global_index),
        Operator::GlobalSet { global_index } => Instruction::GlobalSet(*global_index),
        Operator::I32Load { memarg } => Instruction::I32Load(convert_memarg(*memarg)),
        Operator::I64Load { memarg } => Instruction::I64Load(convert_memarg(*memarg)),
        Operator::F32Load { memarg } => Instruction::F32Load(convert_memarg(*memarg)),
        Operator::F64Load { memarg } => Instruction::F64Load(convert_memarg(*memarg)),
        Operator::I32Load8S { memarg } => Instruction::I32Load8S(convert_memarg(*memarg)),
        Operator::I32Load8U { memarg } => Instruction::I32Load8U(convert_memarg(*memarg)),
        Operator::I32Load16S { memarg } => Instruction::I32Load16S(convert_memarg(*memarg)),
        Operator::I32Load16U { memarg } => Instruction::I32Load16U(convert_memarg(*memarg)),
        Operator::I64Load8S { memarg } => Instruction::I64Load8S(convert_memarg(*memarg)),
        Operator::I64Load8U { memarg } => Instruction::I64Load8U(convert_memarg(*memarg)),
        Operator::I64Load16S { memarg } => Instruction::I64Load16S(convert_memarg(*memarg)),
        Operator::I64Load16U { memarg } => Instruction::I64Load16U(convert_memarg(*memarg)),
        Operator::I64Load32S { memarg } => Instruction::I64Load32S(convert_memarg(*memarg)),
        Operator::I64Load32U { memarg } => Instruction::I64Load32U(convert_memarg(*memarg)),
        Operator::I32Store { memarg } => Instruction::I32Store(convert_memarg(*memarg)),
        Operator::I64Store { memarg } => Instruction::I64Store(convert_memarg(*memarg)),
        Operator::F32Store { memarg } => Instruction::F32Store(convert_memarg(*memarg)),
        Operator::F64Store { memarg } => Instruction::F64Store(convert_memarg(*memarg)),
        Operator::I32Store8 { memarg } => Instruction::I32Store8(convert_memarg(*memarg)),
        Operator::I32Store16 { memarg } => Instruction::I32Store16(convert_memarg(*memarg)),
        Operator::I64Store8 { memarg } => Instruction::I64Store8(convert_memarg(*memarg)),
        Operator::I64Store16 { memarg } => Instruction::I64Store16(convert_memarg(*memarg)),
        Operator::I64Store32 { memarg } => Instruction::I64Store32(convert_memarg(*memarg)),
        Operator::MemorySize { mem: _, mem_byte: _ } => Instruction::MemorySize,
        Operator::MemoryGrow { mem: _, mem_byte: _ } => Instruction::MemoryGrow,
        Operator::I32Eqz => Instruction::I32Eqz,
        Operator::I32Eq => Instruction::I32Eq,
        Operator::I32Ne => Instruction::I32Ne,
        Operator::I32LtS => Instruction::I32LtS,
        Operator::I32LtU => Instruction::I32LtU,
        Operator::I32GtS => Instruction::I32GtS,
        Operator::I32GtU => Instruction::I32GtU,
        Operator::I32LeS => Instruction::I32LeS,
        Operator::I32LeU => Instruction::I32LeU,
        Operator::I32GeS => Instruction::I32GeS,
        Operator::I32GeU => Instruction::I32GeU,
        Operator::I64Eqz => Instruction::I64Eqz,
        Operator::I64Eq => Instruction::I64Eq,
        Operator::I64Ne => Instruction::I64Ne,
        Operator::I64LtS => Instruction::I64LtS,
        Operator::I64LtU => Instruction::I64LtU,
        Operator::I64GtS => Instruction::I64GtS,
        Operator::I64GtU => Instruction::I64GtU,
        Operator::I64LeS => Instruction::I64LeS,
        Operator::I64LeU => Instruction::I64LeU,
        Operator::I64GeS => Instruction::I64GeS,
        Operator::I64GeU => Instruction::I64GeU,
        Operator::F32Eq => Instruction::F32Eq,
        Operator::F32Ne => Instruction::F32Ne,
        Operator::F32Lt => Instruction::F32Lt,
        Operator::F32Gt => Instruction::F32Gt,
        Operator::F32Le => Instruction::F32Le,
        Operator::F32Ge => Instruction::F32Ge,
        Operator::F64Eq => Instruction::F64Eq,
        Operator::F64Ne => Instruction::F64Ne,
        Operator::F64Lt => Instruction::F64Lt,
        Operator::F64Gt => Instruction::F64Gt,
        Operator::F64Le => Instruction::F64Le,
        Operator::F64Ge => Instruction::F64Ge,
        Operator::I32Clz => Instruction::I32Clz,
        Operator::I32Ctz => Instruction::I32Ctz,
        Operator::I32Popcnt => Instruction::I32Popcnt,
        Operator::I32Add => Instruction::I32Add,
        Operator::I32Sub => Instruction::I32Sub,
        Operator::I32Mul => Instruction::I32Mul,
        Operator::I32DivS => Instruction::I32DivS,
        Operator::I32DivU => Instruction::I32DivU,
        Operator::I32RemS => Instruction::I32RemS,
        Operator::I32RemU => Instruction::I32RemU,
        Operator::I32And => Instruction::I32And,
        Operator::I32Or => Instruction::I32Or,
        Operator::I32Xor => Instruction::I32Xor,
        Operator::I32Shl => Instruction::I32Shl,
        Operator::I32ShrS => Instruction::I32ShrS,
        Operator::I32ShrU => Instruction::I32ShrU,
        Operator::I32Rotl => Instruction::I32Rotl,
        Operator::I32Rotr => Instruction::I32Rotr,
        Operator::I64Clz => Instruction::I64Clz,
        Operator::I64Ctz => Instruction::I64Ctz,
        Operator::I64Popcnt => Instruction::I64Popcnt,
        Operator::I64Add => Instruction::I64Add,
        Operator::I64Sub => Instruction::I64Sub,
        Operator::I64Mul => Instruction::I64Mul,
        Operator::I64DivS => Instruction::I64DivS,
        Operator::I64DivU => Instruction::I64DivU,
        Operator::I64RemS => Instruction::I64RemS,
        Operator::I64RemU => Instruction::I64RemU,
        Operator::I64And => Instruction::I64And,
        Operator::I64Or => Instruction::I64Or,
        Operator::I64Xor => Instruction::I64Xor,
        Operator::I64Shl => Instruction::I64Shl,
        Operator::I64ShrS => Instruction::I64ShrS,
        Operator::I64ShrU => Instruction::I64ShrU,
        Operator::I64Rotl => Instruction::I64Rotl,
        Operator::I64Rotr => Instruction::I64Rotr,
        Operator::F32Abs => Instruction::F32Abs,
        Operator::F32Neg => Instruction::F32Neg,
        Operator::F32Ceil => Instruction::F32Ceil,
        Operator::F32Floor => Instruction::F32Floor,
        Operator::F32Trunc => Instruction::F32Trunc,
        Operator::F32Nearest => Instruction::F32Nearest,
        Operator::F32Sqrt => Instruction::F32Sqrt,
        Operator::F32Add => Instruction::F32Add,
        Operator::F32Sub => Instruction::F32Sub,
        Operator::F32Mul => Instruction::F32Mul,
        Operator::F32Div => Instruction::F32Div,
        Operator::F32Min => Instruction::F32Min,
        Operator::F32Max => Instruction::F32Max,
        Operator::F32Copysign => Instruction::F32Copysign,
        Operator::F64Abs => Instruction::F64Abs,
        Operator::F64Neg => Instruction::F64Neg,
        Operator::F64Ceil => Instruction::F64Ceil,
        Operator::F64Floor => Instruction::F64Floor,
        Operator::F64Trunc => Instruction::F64Trunc,
        Operator::F64Nearest => Instruction::F64Nearest,
        Operator::F64Sqrt => Instruction::F64Sqrt,
        Operator::F64Add => Instruction::F64Add,
        Operator::F64Sub => Instruction::F64Sub,
        Operator::F64Mul => Instruction::F64Mul,
        Operator::F64Div => Instruction::F64Div,
        Operator::F64Min => Instruction::F64Min,
        Operator::F64Max => Instruction::F64Max,
        Operator::F64Copysign => Instruction::F64Copysign,
        Operator::I32WrapI64 => Instruction::I32WrapI64,
        Operator::I32TruncF32S => Instruction::I32TruncF32S,
        Operator::I32TruncF32U => Instruction::I32TruncF32U,
        Operator::I32TruncF64S => Instruction::I32TruncF64S,
        Operator::I32TruncF64U => Instruction::I32TruncF64U,
        Operator::I64ExtendI32S => Instruction::I64ExtendI32S,
        Operator::I64ExtendI32U => Instruction::I64ExtendI32U,
        Operator::I64TruncF32S => Instruction::I64TruncF32S,
        Operator::I64TruncF32U => Instruction::I64TruncF32U,
        Operator::I64TruncF64S => Instruction::I64TruncF64S,
        Operator::I64TruncF64U => Instruction::I64TruncF64U,
        Operator::F32ConvertI32S => Instruction::F32ConvertI32S,
        Operator::F32ConvertI32U => Instruction::F32ConvertI32U,
        Operator::F32ConvertI64S => Instruction::F32ConvertI64S,
        Operator::F32ConvertI64U => Instruction::F32ConvertI64U,
        Operator::F32DemoteF64 => Instruction::F32DemoteF64,
        Operator::F64ConvertI32S => Instruction::F64ConvertI32S,
        Operator::F64ConvertI32U => Instruction::F64ConvertI32U,
        Operator::F64ConvertI64S => Instruction::F64ConvertI64S,
        Operator::F64ConvertI64U => Instruction::F64ConvertI64U,
        Operator::F64PromoteF32 => Instruction::F64PromoteF32,
        Operator::I32ReinterpretF32 => Instruction::I32ReinterpretF32,
        Operator::I64ReinterpretF64 => Instruction::I64ReinterpretF64,
        Operator::F32ReinterpretI32 => Instruction::F32ReinterpretI32,
        Operator::F64ReinterpretI64 => Instruction::F64ReinterpretI64,
        Operator::Other { description } => {
            return Err(unsupported(description.as_str()));
        },
    };
    Ok(instruction)
}

/// The `BrLabel` records for the first `n` labels of a branch table, or
/// the error of the first of them that the decoder failed to read.
pub open spec fn labels_of(targets: Seq<Result<u32, DecodeError>>, n: nat) -> Result<
    Seq<Instruction>,
    ParseErrorView,
>
    decreases n,
{
    if n == 0 {
        Ok(Seq::empty())
    } else {
        match labels_of(targets, (n - 1) as nat) {
            Err(e) => Err(e),
            Ok(labels) => match targets[n - 1] {
                Err(e) => Err(ParseError::decode(e)),
                Ok(depth) => Ok(labels.push(Instruction::BrLabel(depth))),
            },
        }
    }
}

/// The instructions that one item of an operator stream gives: for a branch
/// table the `BrTable` record followed by its labels in source order, for
/// any other operator its one instruction. An item that failed to decode
/// gives the decoder's error.
pub open spec fn instructions_of(item: Result<Operator, DecodeError>) -> Result<
    Seq<Instruction>,
    ParseErrorView,
> {
    match item {
        Err(e) => Err(ParseError::decode(e)),
        Ok(Operator::BrTable { targets }) => match labels_of(
            targets.targets@,
            targets.targets@.len(),
        ) {
            Err(e) => Err(e),
            Ok(labels) => Ok(seq![Instruction::BrTable(targets.default)] + labels),
        },
        Ok(op) => match instruction_of(op) {
            Err(e) => Err(e),
            Ok(instruction) => Ok(seq![instruction]),
        },
    }
}

/// The instruction sequence for the first `n` items of an operator stream:
/// what each item gives, one after the other, or the error of the first
/// item that gives one.
pub open spec fn converted(ops: Seq<Result<Operator, DecodeError>>, n: nat) -> Result<
    Seq<Instruction>,
    ParseErrorView,
>
    decreases n,
{
    if n == 0 {
        Ok(Seq::empty())
    } else {
        match converted(ops, (n - 1) as nat) {
            Err(e) => Err(e),
            Ok(done) => match instructions_of(ops[n - 1]) {
                Err(e) => Err(e),
                Ok(next) => Ok(done + next),
            },
        }
    }
}

/// Once a prefix of the labels has failed, every longer prefix fails with
/// the same error.
proof fn lemma_labels_error_stays(targets: Seq<Result<u32, DecodeError>>, n: nat, m: nat)
    requires
        n <= m,
        labels_of(targets, n) is Err,
    ensures
        labels_of(targets, m) == labels_of(targets, n),
    decreases m,
{
    if n < m {
        lemma_labels_error_stays(targets, n, (m - 1) as nat);
    }
}

/// Once a prefix of the stream has failed, every longer prefix fails with
/// the same error.
pub proof fn lemma_converted_error_stays(ops: Seq<Result<Operator, DecodeError>>, n: nat, m: nat)
    requires
        n <= m,
        converted(ops, n) is Err,
    ensures
        converted(ops, m) == converted(ops, n),
    decreases m,
{
    if n < m {
        lemma_converted_error_stays(ops, n, (m - 1) as nat);
    }
}

/// Appends the labels of a branch table to `instructions`, as `BrLabel`
/// records in source order. On a label that failed to decode, returns its
/// error.
fn push_labels(instructions: &mut Vec<Instruction>, targets: &Vec<Result<u32, DecodeError>>) -> (done:
    Result<(), ParseError>)
    ensures
        match labels_of(targets@, targets@.len()) {
            Ok(labels) => done is Ok && final(instructions)@ == old(instructions)@ + labels,
            Err(e) => done matches Err(error) && error@ == e,
        },
{
    let mut j: usize = 0;
    while j < targets.len()
        invariant
            j <= targets.len(),
            labels_of(targets@, j as nat) matches Ok(labels) && instructions@ == old(
                instructions,
            )@ + labels,
        decreases targets.len() - j,
    {
        match &targets[j] {
            Err(e) => {
                let error = ParseError::from_decode(e);
                proof {
                    lemma_labels_error_stays(targets@, (j + 1) as nat, targets@.len());
                }
                return Err(error);
            },
            Ok(depth) => {
                instructions.push(Instruction::BrLabel(*depth));
            },
        }
        j += 1;
    }
    Ok(())
}

/// Converts an operator stream into the instruction sequence of the
/// runtime, in one pass and in order.
///
/// Every operator gives one instruction with the operator's immediates; a
/// branch table gives its `BrTable` record directly followed by one
/// `BrLabel` record per label. The first item that cannot be converted
/// ends the conversion with its error: an item or a label that failed to
/// decode, an operator outside the instruction set, a block type that is not
/// supported.
pub fn process_operators(ops: &Vec<Result<Operator, DecodeError>>) -> (instructions: Result<
    Vec<Instruction>,
    ParseError,
>)
    ensures
        result_view(instructions) == converted(ops@, ops@.len()),
{
    let mut instructions: Vec<Instruction> = Vec::new();
    let mut i: usize = 0;
    while i < ops.len()
        invariant
            i <= ops.len(),
            converted(ops@, i as nat) == Ok::<Seq<Instruction>, ParseErrorView>(instructions@),
        decreases ops.len() - i,
    {
        let ghost before = instructions@;
        match &ops[i] {
            Err(e) => {
                let error = ParseError::from_decode(e);
                proof {
                    lemma_converted_error_stays(ops@, (i + 1) as nat, ops@.len());
                }
                return Err(error);
            },
            Ok(Operator::BrTable { targets }) => {
                instructions.push(Instruction::BrTable(targets.default));
                match push_labels(&mut instructions, &targets.targets) {
                    Err(error) => {
                        proof {
                            lemma_converted_error_stays(ops@, (i + 1) as nat, ops@.len());
                        }
                        return Err(error);
                    },
                    Ok(()) => {
                        proof {
                            let labels = labels_of(targets.targets@, targets.targets@.len())->Ok_0;
                            assert(instructions@ == before + (seq![Instruction::BrTable(targets.default)] + labels));
                        }
                    },
                }
            },
            Ok(op) => {
                match process_operator(op) {
                    Err(error) => {
                        proof {
                            lemma_converted_error_stays(ops@, (i + 1) as nat, ops@.len());
                        }
                        return Err(error);
                    },
                    Ok(instruction) => {
                        instructions.push(instruction);
                        assert(instructions@ == before + seq![instruction]);
                    },
                }
            },
        }
        i += 1;
    }
    Ok(instructions)
}

// ---------------------------------------------------------------------------
// Function bodies
// ---------------------------------------------------------------------------

/// The locals that one run declares: `count` locals of the run's type.
pub open spec fn run_locals(run: LocalRun) -> Seq<ValType> {
    Seq::new(run.count as nat, |i: int| val_type_of(run.ty))
}

/// Every declaration of the sequence was read: none failed to decode.
pub open spec fn all_read(runs: Seq<Result<LocalRun, DecodeError>>) -> bool {
    forall|i: int| 0 <= i < runs.len() ==> (#[trigger] runs[i]) is Ok
}

/// The declarations of the locals were read completely: there are as many
/// of them as the body announces, and each of them was read.
pub open spec fn locals_complete(locals: decoded::Locals) -> bool {
    locals.runs@.len() == locals.count && all_read(locals.runs@)
}

/// The locals that the first `n` declarations declare, one value type per
/// local, in order: each run gives as many locals as it counts, which may
/// be none. A declaration that was not read gives none.
pub open spec fn expanded_locals(runs: Seq<Result<LocalRun, DecodeError>>, n: nat) -> Seq<ValType>
    decreases n,
{
    if n == 0 {
        Seq::empty()
    } else {
        expanded_locals(runs, (n - 1) as nat) + match runs[n - 1] {
            Ok(run) => run_locals(run),
            Err(_) => Seq::empty(),
        }
    }
}

/// The error for locals of which not every announced declaration was read.
pub open spec fn invalid_local_count() -> ParseErrorView {
    ParseErrorView::Other("Invalid local index"@)
}

/// The code section for a decoded function body.
///
/// The locals are the declarations expanded to one value type per local.
/// Every declaration that the body announces must have been read: if
/// there are fewer or more declarations than announced, or one of them
/// failed to decode, the result is the error `invalid_local_count`. No
/// limit applies to the number of locals: the expansion has as many as
/// the declarations count, however many that is.
///
/// The instructions are the converted operator stream. The first failure
/// in this order decides the error: the locals as a whole, their
/// declarations, the operators as a whole, the conversion of the
/// operators.
pub open spec fn code_section_of(func: decoded::FunctionBody) -> Result<
    CodeSectionView,
    ParseErrorView,
> {
    match func.locals {
        Err(e) => Err(ParseError::decode(e)),
        Ok(locals) => {
            if !locals_complete(locals) {
                Err(invalid_local_count())
            } else {
                match func.operators {
                    Err(e) => Err(ParseError::decode(e)),
                    Ok(ops) => match converted(ops@, ops@.len()) {
                        Err(e) => Err(e),
                        Ok(body) => Ok(
                            CodeSectionView {
                                locals: expanded_locals(locals.runs@, locals.runs@.len()),
                                body,
                            },
                        ),
                    },
                }
            }
        },
    }
}

/// Whether every declaration was read.
fn declarations_read(runs: &Vec<Result<LocalRun, DecodeError>>) -> (read: bool)
    ensures
        read == all_read(runs@),
{
    let mut i: usize = 0;
    while i < runs.len()
        invariant
            i <= runs.len(),
            forall|k: int| 0 <= k < i ==> (#[trigger] runs@[k]) is Ok,
        decreases runs.len() - i,
    {
        match &runs[i] {
            Err(_) => {
                return false;
            },
            Ok(_) => {},
        }
        i += 1;
    }
    true
}

/// Expands the declarations of locals to one value type per local.
fn expand_locals(runs: &Vec<Result<LocalRun, DecodeError>>) -> (locals: Vec<ValType>)
    ensures
        locals@ == expanded_locals(runs@, runs@.len()),
{
    let mut locals: Vec<ValType> = Vec::new();
    let mut i: usize = 0;
    while i < runs.len()
        invariant
            i <= runs.len(),
            locals@ == expanded_locals(runs@, i as nat),
        decreases runs.len() - i,
    {
        match &runs[i] {
            Err(_) => {},
            Ok(run) => {
                let ghost before = locals@;
                let ty = convert_valtype(&run.ty);
                let mut k: u32 = 0;
                while k < run.count
                    invariant
                        k <= run.count,
                        ty == val_type_of(run.ty),
                        locals@ == before + Seq::new(k as nat, |j: int| val_type_of(run.ty)),
                    decreases run.count - k,
                {
                    locals.push(ty);
                    k += 1;
                }
            },
        }
        i += 1;
    }
    locals
}

/// Converts a function body.
pub fn convert_module_code(func: decoded::FunctionBody) -> (converted: Result<
    CodeSection,
    ParseError,
>)
    ensures
        result_view(converted) == code_section_of(func),
{
    let locals = match &func.locals {
        Err(e) => {
            return Err(ParseError::from_decode(e));
        },
        Ok(decoded) => {
            if decoded.runs.len() != decoded.count as usize || !declarations_read(&decoded.runs) {
                return Err(ParseError::Other(String::from_str("Invalid local index")));
            }
            expand_locals(&decoded.runs)
        },
    };
    let body = match &func.operators {
        Err(e) => {
            return Err(ParseError::from_decode(e));
        },
        Ok(ops) => {
            match process_operators(ops) {
                Err(error) => {
                    return Err(error);
                },
                Ok(body) => body,
            }
        },
    };
    Ok(CodeSection { locals, body })
}

} // verus!
