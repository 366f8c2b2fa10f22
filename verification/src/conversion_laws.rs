//! Laws of the conversion: what an instruction keeps of its operator, what
//! the instruction stream looks like around a branch table, which failure
//! decides, and what the locals of a converted function body are.

use vstd::prelude::*;
use crate::conversion::{
    all_read, block_args_of, code_section_of, converted, expanded_locals, instruction_of,
    instructions_of, invalid_local_count, labels_of, lemma_converted_error_stays,
    locals_complete, mem_arg_of, CodeSectionView,
};
use crate::decoded::{DecodeError, FunctionBody, LocalRun, Operator};
use crate::error::ParseErrorView;
use crate::instructions::Instruction;
use crate::types::{BlockArgs, MemArg};

verus! {

/// The immediate operands that an instruction carries.
pub enum Immediates {
    Nothing,
    Block(BlockArgs),
    Index(u32),
    TypeAndTable(u32, u32),
    Memory(MemArg),
}

impl Instruction {
    /// The immediates of this instruction.
    pub open spec fn immediates(self) -> Immediates {
        match self {
            Instruction::Block(args) | Instruction::Loop(args) | Instruction::If(args) => {
                Immediates::Block(args)
            },
            Instruction::BrLabel(index)
            | Instruction::Br(index)
            | Instruction::BrIf(index)
            | Instruction::BrTable(index)
            | Instruction::Call(index)
            | Instruction::LocalGet(index)
            | Instruction::LocalSet(index)
            | Instruction::LocalTee(index)
            | Instruction::GlobalGet(index)
            | Instruction::GlobalSet(index) => Immediates::Index(index),
            Instruction::CallIndirect(ty, table) => Immediates::TypeAndTable(ty, table),
            Instruction::I32Load(arg)
            | Instruction::I64Load(arg)
            | Instruction::F32Load(arg)
            | Instruction::F64Load(arg)
            | Instruction::I32Load8S(arg)
            | Instruction::I32Load8U(arg)
            | Instruction::I32Load16S(arg)
            | Instruction::I32Load16U(arg)
            | Instruction::I64Load8S(arg)
            | Instruction::I64Load8U(arg)
            | Instruction::I64Load16S(arg)
            | Instruction::I64Load16U(arg)
            | Instruction::I64Load32S(arg)
            | Instruction::I64Load32U(arg)
            | Instruction::I32Store(arg)
            | Instruction::I64Store(arg)
            | Instruction::F32Store(arg)
            | Instruction::F64Store(arg)
            | Instruction::I32Store8(arg)
            | Instruction::I32Store16(arg)
            | Instruction::I64Store8(arg)
            | Instruction::I64Store16(arg)
            | Instruction::I64Store32(arg) => Immediates::Memory(arg),
            _ => Immediates::Nothing,
        }
    }
}

impl Operator {
    /// The immediates of this operator that an instruction has room for, in
    /// the runtime's own types: the block type, the index or depth, the type
    /// and table of an indirect call, the offset and alignment of a memory
    /// access. Of a branch table this is the default depth.
    pub open spec fn immediates(self) -> Immediates {
        match self {
            Operator::Block { blockty } | Operator::Loop { blockty } | Operator::If { blockty } => {
                match block_args_of(blockty) {
                    Ok(args) => Immediates::Block(args),
                    Err(_) => Immediates::Nothing,
                }
            },
            Operator::Br { relative_depth: index }
            | Operator::BrIf { relative_depth: index }
            | Operator::Call { function_index: index }
            | Operator::LocalGet { local_index: index }
            | Operator::LocalSet { local_index: index }
            | Operator::LocalTee { local_index: index }
            | Operator::GlobalGet { global_index: index }
            | Operator::GlobalSet { global_index: index } => Immediates::Index(index),
            Operator::BrTable { targets } => Immediates::Index(targets.default),
            Operator::CallIndirect { type_index, table_index, table_byte } => {
                Immediates::TypeAndTable(type_index, table_index)
            },
            Operator::I32Load { memarg }
            | Operator::I64Load { memarg }
            | Operator::F32Load { memarg }
            | Operator::F64Load { memarg }
            | Operator::I32Load8S { memarg }
            | Operator::I32Load8U { memarg }
            | Operator::I32Load16S { memarg }
            | Operator::I32Load16U { memarg }
            | Operator::I64Load8S { memarg }
            | Operator::I64Load8U { memarg }
            | Operator::I64Load16S { memarg }
            | Operator::I64Load16U { memarg }
            | Operator::I64Load32S { memarg }
            | Operator::I64Load32U { memarg }
            | Operator::I32Store { memarg }
            | Operator::I64Store { memarg }
            | Operator::F32Store { memarg }
            | Operator::F64Store { memarg }
            | Operator::I32Store8 { memarg }
            | Operator::I32Store16 { memarg }
            | Operator::I64Store8 { memarg }
            | Operator::I64Store16 { memarg }
            | Operator::I64Store32 { memarg } => Immediates::Memory(mem_arg_of(memarg)),
            _ => Immediates::Nothing,
        }
    }

    /// Whether the operator belongs to the instruction set: it has a name of
    /// its own, and its block type, if it has one, does not refer to a
    /// function type.
    pub open spec fn supported(self) -> bool {
        match self {
            Operator::Block { blockty } | Operator::Loop { blockty } | Operator::If { blockty } => {
                !(blockty is FuncType)
            },
            Operator::Other { description } => false,
            _ => true,
        }
    }
}

impl Instruction {
    /// The opcode of the instruction in the binary format. A `BrLabel`
    /// record has none: it is part of the `br_table` before it.
    pub open spec fn opcode(self) -> Option<u8> {
        match self {
            Instruction::BrLabel(_) => None,
            Instruction::Unreachable => Some(0x00u8),
            Instruction::Nop => Some(0x01u8),
            Instruction::Block(_) => Some(0x02u8),
            Instruction::Loop(_) => Some(0x03u8),
            Instruction::If(_) => Some(0x04u8),
            Instruction::Else => Some(0x05u8),
            Instruction::End => Some(0x0bu8),
            Instruction::Br(_) => Some(0x0cu8),
            Instruction::BrIf(_) => Some(0x0du8),
            Instruction::BrTable(_) => Some(0x0eu8),
            Instruction::Return => Some(0x0fu8),
            Instruction::Call(_) => Some(0x10u8),
            Instruction::CallIndirect(_, _) => Some(0x11u8),
            Instruction::Drop => Some(0x1au8),
            Instruction::Select => Some(0x1bu8),
            Instruction::LocalGet(_) => Some(0x20u8),
            Instruction::LocalSet(_) => Some(0x21u8),
            Instruction::LocalTee(_) => Some(0x22u8),
            Instruction::GlobalGet(_) => Some(0x23u8),
            Instruction::GlobalSet(_) => Some(0x24u8),
            Instruction::I32Load(_) => Some(0x28u8),
            Instruction::I64Load(_) => Some(0x29u8),
            Instruction::F32Load(_) => Some(0x2au8),
            Instruction::F64Load(_) => Some(0x2bu8),
            Instruction::I32Load8S(_) => Some(0x2cu8),
            Instruction::I32Load8U(_) => Some(0x2du8),
            Instruction::I32Load16S(_) => Some(0x2eu8),
            Instruction::I32Load16U(_) => Some(0x2fu8),
            Instruction::I64Load8S(_) => Some(0x30u8),
            Instruction::I64Load8U(_) => Some(0x31u8),
            Instruction::I64Load16S(_) => Some(0x32u8),
            Instruction::I64Load16U(_) => Some(0x33u8),
            Instruction::I64Load32S(_) => Some(0x34u8),
            Instruction::I64Load32U(_) => Some(0x35u8),
            Instruction::I32Store(_) => Some(0x36u8),
            Instruction::I64Store(_) => Some(0x37u8),
            Instruction::F32Store(_) => Some(0x38u8),
            Instruction::F64Store(_) => Some(0x39u8),
            Instruction::I32Store8(_) => Some(0x3au8),
            Instruction::I32Store16(_) => Some(0x3bu8),
            Instruction::I64Store8(_) => Some(0x3cu8),
            Instruction::I64Store16(_) => Some(0x3du8),
            Instruction::I64Store32(_) => Some(0x3eu8),
            Instruction::MemorySize => Some(0x3fu8),
            Instruction::MemoryGrow => Some(0x40u8),
            Instruction::I32Eqz => Some(0x45u8),
            Instruction::I32Eq => Some(0x46u8),
            Instruction::I32Ne => Some(0x47u8),
            Instruction::I32LtS => Some(0x48u8),
            Instruction::I32LtU => Some(0x49u8),
            Instruction::I32GtS => Some(0x4au8),
            Instruction::I32GtU => Some(0x4bu8),
            Instruction::I32LeS => Some(0x4cu8),
            Instruction::I32LeU => Some(0x4du8),
            Instruction::I32GeS => Some(0x4eu8),
            Instruction::I32GeU => Some(0x4fu8),
            Instruction::I64Eqz => Some(0x50u8),
            Instruction::I64Eq => Some(0x51u8),
            Instruction::I64Ne => Some(0x52u8),
            Instruction::I64LtS => Some(0x53u8),
            Instruction::I64LtU => Some(0x54u8),
            Instruction::I64GtS => Some(0x55u8),
            Instruction::I64GtU => Some(0x56u8),
            Instruction::I64LeS => Some(0x57u8),
            Instruction::I64LeU => Some(0x58u8),
            Instruction::I64GeS => Some(0x59u8),
            Instruction::I64GeU => Some(0x5au8),
            Instruction::F32Eq => Some(0x5bu8),
            Instruction::F32Ne => Some(0x5cu8),
            Instruction::F32Lt => Some(0x5du8),
            Instruction::F32Gt => Some(0x5eu8),
            Instruction::F32Le => Some(0x5fu8),
            Instruction::F32Ge => Some(0x60u8),
            Instruction::F64Eq => Some(0x61u8),
            Instruction::F64Ne => Some(0x62u8),
            Instruction::F64Lt => Some(0x63u8),
            Instruction::F64Gt => Some(0x64u8),
            Instruction::F64Le => Some(0x65u8),
            Instruction::F64Ge => Some(0x66u8),
            Instruction::I32Clz => Some(0x67u8),
            Instruction::I32Ctz => Some(0x68u8),
            Instruction::I32Popcnt => Some(0x69u8),
            Instruction::I32Add => Some(0x6au8),
            Instruction::I32Sub => Some(0x6bu8),
            Instruction::I32Mul => Some(0x6cu8),
            Instruction::I32DivS => Some(0x6du8),
            Instruction::I32DivU => Some(0x6eu8),
            Instruction::I32RemS => Some(0x6fu8),
            Instruction::I32RemU => Some(0x70u8),
            Instruction::I32And => Some(0x71u8),
            Instruction::I32Or => Some(0x72u8),
            Instruction::I32Xor => Some(0x73u8),
            Instruction::I32Shl => Some(0x74u8),
            Instruction::I32ShrS => Some(0x75u8),
            Instruction::I32ShrU => Some(0x76u8),
            Instruction::I32Rotl => Some(0x77u8),
            Instruction::I32Rotr => Some(0x78u8),
            Instruction::I64Clz => Some(0x79u8),
            Instruction::I64Ctz => Some(0x7au8),
            Instruction::I64Popcnt => Some(0x7bu8),
            Instruction::I64Add => Some(0x7cu8),
            Instruction::I64Sub => Some(0x7du8),
            Instruction::I64Mul => Some(0x7eu8),
            Instruction::I64DivS => Some(0x7fu8),
            Instruction::I64DivU => Some(0x80u8),
            Instruction::I64RemS => Some(0x81u8),
            Instruction::I64RemU => Some(0x82u8),
            Instruction::I64And => Some(0x83u8),
            Instruction::I64Or => Some(0x84u8),
            Instruction::I64Xor => Some(0x85u8),
            Instruction::I64Shl => Some(0x86u8),
            Instruction::I64ShrS => Some(0x87u8),
            Instruction::I64ShrU => Some(0x88u8),
            Instruction::I64Rotl => Some(0x89u8),
            Instruction::I64Rotr => Some(0x8au8),
            Instruction::F32Abs => Some(0x8bu8),
            Instruction::F32Neg => Some(0x8cu8),
            Instruction::F32Ceil => Some(0x8du8),
            Instruction::F32Floor => Some(0x8eu8),
            Instruction::F32Trunc => Some(0x8fu8),
            Instruction::F32Nearest => Some(0x90u8),
            Instruction::F32Sqrt => Some(0x91u8),
            Instruction::F32Add => Some(0x92u8),
            Instruction::F32Sub => Some(0x93u8),
            Instruction::F32Mul => Some(0x94u8),
            Instruction::F32Div => Some(0x95u8),
            Instruction::F32Min => Some(0x96u8),
            Instruction::F32Max => Some(0x97u8),
            Instruction::F32Copysign => Some(0x98u8),
            Instruction::F64Abs => Some(0x99u8),
            Instruction::F64Neg => Some(0x9au8),
            Instruction::F64Ceil => Some(0x9bu8),
            Instruction::F64Floor => Some(0x9cu8),
            Instruction::F64Trunc => Some(0x9du8),
            Instruction::F64Nearest => Some(0x9eu8),
            Instruction::F64Sqrt => Some(0x9fu8),
            Instruction::F64Add => Some(0xa0u8),
            Instruction::F64Sub => Some(0xa1u8),
            Instruction::F64Mul => Some(0xa2u8),
            Instruction::F64Div => Some(0xa3u8),
            Instruction::F64Min => Some(0xa4u8),
            Instruction::F64Max => Some(0xa5u8),
            Instruction::F64Copysign => Some(0xa6u8),
            Instruction::I32WrapI64 => Some(0xa7u8),
            Instruction::I32TruncF32S => Some(0xa8u8),
            Instruction::I32TruncF32U => Some(0xa9u8),
            Instruction::I32TruncF64S => Some(0xaau8),
            Instruction::I32TruncF64U => Some(0xabu8),
            Instruction::I64ExtendI32S => Some(0xacu8),
            Instruction::I64ExtendI32U => Some(0xadu8),
            Instruction::I64TruncF32S => Some(0xaeu8),
            Instruction::I64TruncF32U => Some(0xafu8),
            Instruction::I64TruncF64S => Some(0xb0u8),
            Instruction::I64TruncF64U => Some(0xb1u8),
            Instruction::F32ConvertI32S => Some(0xb2u8),
            Instruction::F32ConvertI32U => Some(0xb3u8),
            Instruction::F32ConvertI64S => Some(0xb4u8),
            Instruction::F32ConvertI64U => Some(0xb5u8),
            Instruction::F32DemoteF64 => Some(0xb6u8),
            Instruction::F64ConvertI32S => Some(0xb7u8),
            Instruction::F64ConvertI32U => Some(0xb8u8),
            Instruction::F64ConvertI64S => Some(0xb9u8),
            Instruction::F64ConvertI64U => Some(0xbau8),
            Instruction::F64PromoteF32 => Some(0xbbu8),
            Instruction::I32ReinterpretF32 => Some(0xbcu8),
            Instruction::I64ReinterpretF64 => Some(0xbdu8),
            Instruction::F32ReinterpretI32 => Some(0xbeu8),
            Instruction::F64ReinterpretI64 => Some(0xbfu8),
        }
    }
}

impl Operator {
    /// The opcode of the operator in the binary format, if the operator
    /// has a name of its own.
    pub open spec fn opcode(self) -> Option<u8> {
        match self {
            Operator::Unreachable => Some(0x00u8),
            Operator::Nop => Some(0x01u8),
            Operator::Block { blockty } => Some(0x02u8),
            Operator::Loop { blockty } => Some(0x03u8),
            Operator::If { blockty } => Some(0x04u8),
            Operator::Else => Some(0x05u8),
            Operator::End => Some(0x0bu8),
            Operator::Br { relative_depth } => Some(0x0cu8),
            Operator::BrIf { relative_depth } => Some(0x0du8),
            Operator::BrTable { targets } => Some(0x0eu8),
            Operator::Return => Some(0x0fu8),
            Operator::Call { function_index } => Some(0x10u8),
            Operator::CallIndirect { type_index, table_index, table_byte } => Some(0x11u8),
            Operator::Drop => Some(0x1au8),
            Operator::Select => Some(0x1bu8),
            Operator::LocalGet { local_index } => Some(0x20u8),
            Operator::LocalSet { local_index } => Some(0x21u8),
            Operator::LocalTee { local_index } => Some(0x22u8),
            Operator::GlobalGet { global_index } => Some(0x23u8),
            Operator::GlobalSet { global_index } => Some(0x24u8),
            Operator::I32Load { memarg } => Some(0x28u8),
            Operator::I64Load { memarg } => Some(0x29u8),
            Operator::F32Load { memarg } => Some(0x2au8),
            Operator::F64Load { memarg } => Some(0x2bu8),
            Operator::I32Load8S { memarg } => Some(0x2cu8),
            Operator::I32Load8U { memarg } => Some(0x2du8),
            Operator::I32Load16S { memarg } => Some(0x2eu8),
            Operator::I32Load16U { memarg } => Some(0x2fu8),
            Operator::I64Load8S { memarg } => Some(0x30u8),
            Operator::I64Load8U { memarg } => Some(0x31u8),
            Operator::I64Load16S { memarg } => Some(0x32u8),
            Operator::I64Load16U { memarg } => Some(0x33u8),
            Operator::I64Load32S { memarg } => Some(0x34u8),
            Operator::I64Load32U { memarg } => Some(0x35u8),
            Operator::I32Store { memarg } => Some(0x36u8),
            Operator::I64Store { memarg } => Some(0x37u8),
            Operator::F32Store { memarg } => Some(0x38u8),
            Operator::F64Store { memarg } => Some(0x39u8),
            Operator::I32Store8 { memarg } => Some(0x3au8),
            Operator::I32Store16 { memarg } => Some(0x3bu8),
            Operator::I64Store8 { memarg } => Some(0x3cu8),
            Operator::I64Store16 { memarg } => Some(0x3du8),
            Operator::I64Store32 { memarg } => Some(0x3eu8),
            Operator::MemorySize { mem, mem_byte } => Some(0x3fu8),
            Operator::MemoryGrow { mem, mem_byte } => Some(0x40u8),
            Operator::I32Eqz => Some(0x45u8),
            Operator::I32Eq => Some(0x46u8),
            Operator::I32Ne => Some(0x47u8),
            Operator::I32LtS => Some(0x48u8),
            Operator::I32LtU => Some(0x49u8),
            Operator::I32GtS => Some(0x4au8),
            Operator::I32GtU => Some(0x4bu8),
            Operator::I32LeS => Some(0x4cu8),
            Operator::I32LeU => Some(0x4du8),
            Operator::I32GeS => Some(0x4eu8),
            Operator::I32GeU => Some(0x4fu8),
            Operator::I64Eqz => Some(0x50u8),
            Operator::I64Eq => Some(0x51u8),
            Operator::I64Ne => Some(0x52u8),
            Operator::I64LtS => Some(0x53u8),
            Operator::I64LtU => Some(0x54u8),
            Operator::I64GtS => Some(0x55u8),
            Operator::I64GtU => Some(0x56u8),
            Operator::I64LeS => Some(0x57u8),
            Operator::I64LeU => Some(0x58u8),
            Operator::I64GeS => Some(0x59u8),
            Operator::I64GeU => Some(0x5au8),
            Operator::F32Eq => Some(0x5bu8),
            Operator::F32Ne => Some(0x5cu8),
            Operator::F32Lt => Some(0x5du8),
            Operator::F32Gt => Some(0x5eu8),
            Operator::F32Le => Some(0x5fu8),
            Operator::F32Ge => Some(0x60u8),
            Operator::F64Eq => Some(0x61u8),
            Operator::F64Ne => Some(0x62u8),
            Operator::F64Lt => Some(0x63u8),
            Operator::F64Gt => Some(0x64u8),
            Operator::F64Le => Some(0x65u8),
            Operator::F64Ge => Some(0x66u8),
            Operator::I32Clz => Some(0x67u8),
            Operator::I32Ctz => Some(0x68u8),
            Operator::I32Popcnt => Some(0x69u8),
            Operator::I32Add => Some(0x6au8),
            Operator::I32Sub => Some(0x6bu8),
            Operator::I32Mul => Some(0x6cu8),
            Operator::I32DivS => Some(0x6du8),
            Operator::I32DivU => Some(0x6eu8),
            Operator::I32RemS => Some(0x6fu8),
            Operator::I32RemU => Some(0x70u8),
            Operator::I32And => Some(0x71u8),
            Operator::I32Or => Some(0x72u8),
            Operator::I32Xor => Some(0x73u8),
            Operator::I32Shl => Some(0x74u8),
            Operator::I32ShrS => Some(0x75u8),
            Operator::I32ShrU => Some(0x76u8),
            Operator::I32Rotl => Some(0x77u8),
            Operator::I32Rotr => Some(0x78u8),
            Operator::I64Clz => Some(0x79u8),
            Operator::I64Ctz => Some(0x7au8),
            Operator::I64Popcnt => Some(0x7bu8),
            Operator::I64Add => Some(0x7cu8),
            Operator::I64Sub => Some(0x7du8),
            Operator::I64Mul => Some(0x7eu8),
            Operator::I64DivS => Some(0x7fu8),
            Operator::I64DivU => Some(0x80u8),
            Operator::I64RemS => Some(0x81u8),
            Operator::I64RemU => Some(0x82u8),
            Operator::I64And => Some(0x83u8),
            Operator::I64Or => Some(0x84u8),
            Operator::I64Xor => Some(0x85u8),
            Operator::I64Shl => Some(0x86u8),
            Operator::I64ShrS => Some(0x87u8),
            Operator::I64ShrU => Some(0x88u8),
            Operator::I64Rotl => Some(0x89u8),
            Operator::I64Rotr => Some(0x8au8),
            Operator::F32Abs => Some(0x8bu8),
            Operator::F32Neg => Some(0x8cu8),
            Operator::F32Ceil => Some(0x8du8),
            Operator::F32Floor => Some(0x8eu8),
            Operator::F32Trunc => Some(0x8fu8),
            Operator::F32Nearest => Some(0x90u8),
            Operator::F32Sqrt => Some(0x91u8),
            Operator::F32Add => Some(0x92u8),
            Operator::F32Sub => Some(0x93u8),
            Operator::F32Mul => Some(0x94u8),
            Operator::F32Div => Some(0x95u8),
            Operator::F32Min => Some(0x96u8),
            Operator::F32Max => Some(0x97u8),
            Operator::F32Copysign => Some(0x98u8),
            Operator::F64Abs => Some(0x99u8),
            Operator::F64Neg => Some(0x9au8),
            Operator::F64Ceil => Some(0x9bu8),
            Operator::F64Floor => Some(0x9cu8),
            Operator::F64Trunc => Some(0x9du8),
            Operator::F64Nearest => Some(0x9eu8),
            Operator::F64Sqrt => Some(0x9fu8),
            Operator::F64Add => Some(0xa0u8),
            Operator::F64Sub => Some(0xa1u8),
            Operator::F64Mul => Some(0xa2u8),
            Operator::F64Div => Some(0xa3u8),
            Operator::F64Min => Some(0xa4u8),
            Operator::F64Max => Some(0xa5u8),
            Operator::F64Copysign => Some(0xa6u8),
            Operator::I32WrapI64 => Some(0xa7u8),
            Operator::I32TruncF32S => Some(0xa8u8),
            Operator::I32TruncF32U => Some(0xa9u8),
            Operator::I32TruncF64S => Some(0xaau8),
            Operator::I32TruncF64U => Some(0xabu8),
            Operator::I64ExtendI32S => Some(0xacu8),
            Operator::I64ExtendI32U => Some(0xadu8),
            Operator::I64TruncF32S => Some(0xaeu8),
            Operator::I64TruncF32U => Some(0xafu8),
            Operator::I64TruncF64S => Some(0xb0u8),
            Operator::I64TruncF64U => Some(0xb1u8),
            Operator::F32ConvertI32S => Some(0xb2u8),
            Operator::F32ConvertI32U => Some(0xb3u8),
            Operator::F32ConvertI64S => Some(0xb4u8),
            Operator::F32ConvertI64U => Some(0xb5u8),
            Operator::F32DemoteF64 => Some(0xb6u8),
            Operator::F64ConvertI32S => Some(0xb7u8),
            Operator::F64ConvertI32U => Some(0xb8u8),
            Operator::F64ConvertI64S => Some(0xb9u8),
            Operator::F64ConvertI64U => Some(0xbau8),
            Operator::F64PromoteF32 => Some(0xbbu8),
            Operator::I32ReinterpretF32 => Some(0xbcu8),
            Operator::I64ReinterpretF64 => Some(0xbdu8),
            Operator::F32ReinterpretI32 => Some(0xbeu8),
            Operator::F64ReinterpretI64 => Some(0xbfu8),
            Operator::Other { description } => None,
        }
    }
}

/// An operator is converted exactly when it belongs to the instruction set,
/// and the instruction then carries the operator's immediates.
pub proof fn lemma_immediates_kept(op: Operator)
    ensures
        instruction_of(op) is Ok <==> op.supported(),
        instruction_of(op) matches Ok(instruction) ==> instruction.immediates()
            == op.immediates(),
{
}

/// The instruction that an operator is converted to has the operator's
/// opcode.
pub proof fn lemma_opcode_kept(op: Operator)
    ensures
        instruction_of(op) matches Ok(instruction) ==> instruction.opcode() is Some
            && instruction.opcode() == op.opcode(),
{
}

/// An instruction is determined by its opcode and its immediates: the
/// conversion of an operator gives the one instruction that has the
/// operator's opcode and immediates.
pub proof fn lemma_instruction_determined(first: Instruction, second: Instruction)
    requires
        first.opcode() is Some,
        first.opcode() == second.opcode(),
        first.immediates() == second.immediates(),
    ensures
        first == second,
{
}

/// The conversion of a single operator never gives a `BrLabel` record.
pub proof fn lemma_no_label_from_operator(op: Operator)
    ensures
        instruction_of(op) matches Ok(instruction) ==> !instruction.is_label(),
{
}

/// The number of instructions that one item of an operator stream gives:
/// for a branch table one more than it has labels, else one.
pub open spec fn emitted(item: Result<Operator, DecodeError>) -> nat {
    match item {
        Ok(Operator::BrTable { targets }) => 1 + targets.targets@.len(),
        _ => 1,
    }
}

/// The position in the instruction sequence at which the instructions of
/// item `k` of the stream begin.
pub open spec fn offset_of(ops: Seq<Result<Operator, DecodeError>>, k: nat) -> nat
    decreases k,
{
    if k == 0 {
        0
    } else {
        offset_of(ops, (k - 1) as nat) + emitted(ops[k - 1])
    }
}

/// Labels that were all read give one `BrLabel` record each, in order.
pub proof fn lemma_labels(targets: Seq<Result<u32, DecodeError>>, n: nat)
    requires
        n <= targets.len(),
        labels_of(targets, n) is Ok,
    ensures
        labels_of(targets, n)->Ok_0.len() == n,
        forall|j: int|
            0 <= j < n ==> targets[j] is Ok && #[trigger] labels_of(targets, n)->Ok_0[j]
                == Instruction::BrLabel(targets[j]->Ok_0),
    decreases n,
{
    if n > 0 {
        lemma_labels(targets, (n - 1) as nat);
    }
}

/// What one converted item looks like: as many instructions as `emitted`
/// says, of which the first is no `BrLabel` record; for a branch table, the
/// `BrTable` record with the default depth, then its labels.
pub proof fn lemma_item(item: Result<Operator, DecodeError>)
    requires
        instructions_of(item) is Ok,
    ensures
        instructions_of(item)->Ok_0.len() == emitted(item),
        !instructions_of(item)->Ok_0[0].is_label(),
        item matches Ok(Operator::BrTable { targets }) ==> {
            let out = instructions_of(item)->Ok_0;
            &&& out[0] == Instruction::BrTable(targets.default)
            &&& forall|j: int|
                0 <= j < targets.targets@.len() ==> targets.targets@[j] is Ok && #[trigger] out[1
                    + j] == Instruction::BrLabel(targets.targets@[j]->Ok_0)
        },
        !(item matches Ok(Operator::BrTable { targets })) ==> !(instructions_of(item)->Ok_0[0]
            is BrTable),
{
    match item {
        Ok(Operator::BrTable { targets }) => {
            let labels = labels_of(targets.targets@, targets.targets@.len())->Ok_0;
            lemma_labels(targets.targets@, targets.targets@.len());
            let out = instructions_of(item)->Ok_0;
        },
        Ok(op) => {
        },
        Err(_) => {},
    }
}

/// A stream that converts as a whole converts up to each of its items, and
/// the instructions of item `k` stand in the result from `offset_of(ops, k)`
/// on.
pub proof fn lemma_prefix(ops: Seq<Result<Operator, DecodeError>>, k: nat, n: nat)
    requires
        k < n <= ops.len(),
        converted(ops, n) is Ok,
    ensures
        converted(ops, k) is Ok,
        instructions_of(ops[k as int]) is Ok,
        converted(ops, k)->Ok_0.len() == offset_of(ops, k),
        converted(ops, n)->Ok_0.len() == offset_of(ops, n),
        offset_of(ops, k) + emitted(ops[k as int]) <= offset_of(ops, n),
        forall|j: int|
            0 <= j < emitted(ops[k as int]) ==> #[trigger] converted(ops, n)->Ok_0[offset_of(ops, k)
                + j] == instructions_of(ops[k as int])->Ok_0[j],
    decreases n,
{
    let last = (n - 1) as nat;
    lemma_item(ops[last as int]);
    if k == last {
        if k > 0 {
            lemma_prefix(ops, (k - 1) as nat, k);
        }
    } else {
        lemma_prefix(ops, k, last);
    }
}

/// A stream converts exactly when each of its items does.
pub proof fn lemma_converts_iff_items_do(ops: Seq<Result<Operator, DecodeError>>, n: nat)
    requires
        n <= ops.len(),
    ensures
        converted(ops, n) is Ok <==> forall|i: int|
            0 <= i < n ==> instructions_of(#[trigger] ops[i]) is Ok,
    decreases n,
{
    if n > 0 {
        lemma_converts_iff_items_do(ops, (n - 1) as nat);
        if converted(ops, n) is Ok {
            assert forall|i: int| 0 <= i < n implies instructions_of(#[trigger] ops[i]) is Ok by {
                if i < n - 1 {
                    assert(converted(ops, (n - 1) as nat) is Ok);
                }
            }
        } else {
            if converted(ops, (n - 1) as nat) is Ok {
                assert(instructions_of(ops[n - 1]) is Err);
            }
        }
    }
}

/// The error of a conversion is the error of the first item that does not
/// convert.
pub proof fn lemma_first_failure_decides(ops: Seq<Result<Operator, DecodeError>>, k: nat)
    requires
        k < ops.len(),
        forall|i: int| 0 <= i < k ==> instructions_of(#[trigger] ops[i]) is Ok,
        instructions_of(ops[k as int]) is Err,
    ensures
        converted(ops, ops.len()) == Err::<Seq<Instruction>, ParseErrorView>(
            instructions_of(ops[k as int])->Err_0,
        ),
{
    lemma_converts_iff_items_do(ops, k);
    assert(converted(ops, k + 1) is Err);
    lemma_converted_error_stays(ops, k + 1, ops.len());
}

/// Where the stream has a branch table, the instruction sequence has its
/// `BrTable` record with the default depth, directly followed by one
/// `BrLabel` record per label of the table, in the table's order, and by no
/// further `BrLabel` record.
pub proof fn lemma_br_table_layout(ops: Seq<Result<Operator, DecodeError>>, k: nat)
    requires
        converted(ops, ops.len()) is Ok,
        k < ops.len(),
        ops[k as int] matches Ok(Operator::BrTable { targets }),
    ensures
        ({
            let out = converted(ops, ops.len())->Ok_0;
            let table = ops[k as int]->Ok_0->targets;
            let at = offset_of(ops, k);
            let count = table.targets@.len();
            &&& at + count < out.len()
            &&& out[at as int] == Instruction::BrTable(table.default)
            &&& forall|j: int|
                0 <= j < count ==> table.targets@[j] is Ok && #[trigger] out[at + 1 + j]
                    == Instruction::BrLabel(table.targets@[j]->Ok_0)
            &&& at + 1 + count < out.len() ==> !out[(at + 1 + count) as int].is_label()
        }),
{
    let out = converted(ops, ops.len())->Ok_0;
    let table = ops[k as int]->Ok_0->targets;
    let at = offset_of(ops, k);
    let count = table.targets@.len();
    lemma_prefix(ops, k, ops.len());
    lemma_item(ops[k as int]);
    let item = instructions_of(ops[k as int])->Ok_0;
    assert(out[(at + 0) as int] == item[0]);
    assert forall|j: int| 0 <= j < count implies table.targets@[j] is Ok && #[trigger] out[at + 1
        + j] == Instruction::BrLabel(table.targets@[j]->Ok_0) by {
        assert(out[at + (1 + j)] == item[1 + j]);
    }
    if at + 1 + count < out.len() {
        lemma_prefix(ops, k + 1, ops.len());
        assert(out[(offset_of(ops, k + 1) + 0) as int] == instructions_of(ops[(k + 1) as int])->Ok_0[0]);
    }
}

/// Every `BrTable` record of the instruction sequence stands where a branch
/// table of the stream begins.
pub proof fn lemma_br_table_source(ops: Seq<Result<Operator, DecodeError>>, n: nat, at: int)
    requires
        n <= ops.len(),
        converted(ops, n) is Ok,
        0 <= at < converted(ops, n)->Ok_0.len(),
        converted(ops, n)->Ok_0[at] is BrTable,
    ensures
        exists|k: nat|
            k < n && offset_of(ops, k) == at && #[trigger] ops[k as int] matches Ok(
                Operator::BrTable { targets },
            ),
    decreases n,
{
    let last = (n - 1) as nat;
    lemma_prefix(ops, last, n);
    lemma_item(ops[last as int]);
    let out = converted(ops, n)->Ok_0;
    let start = offset_of(ops, last);
    if at < start {
        lemma_br_table_source(ops, last, at);
    } else {
        let j = at - start;
        if j == 0 {
        } else {
            assert(instructions_of(ops[last as int])->Ok_0[1 + (j - 1)].is_label());
        }
    }
}

/// The number of locals that the first `n` declarations count, taken
/// together.
pub open spec fn counted_locals(runs: Seq<Result<LocalRun, DecodeError>>, n: nat) -> nat
    decreases n,
{
    if n == 0 {
        0
    } else {
        counted_locals(runs, (n - 1) as nat) + match runs[n - 1] {
            Ok(run) => run.count as nat,
            Err(_) => 0,
        }
    }
}

/// The expansion of declarations has as many locals as the declarations
/// count, taken together: a declaration of several locals gives them all,
/// and a declaration of none gives none.
pub proof fn lemma_expansion_counts(runs: Seq<Result<LocalRun, DecodeError>>, n: nat)
    requires
        n <= runs.len(),
    ensures
        expanded_locals(runs, n).len() == counted_locals(runs, n),
    decreases n,
{
    if n > 0 {
        lemma_expansion_counts(runs, (n - 1) as nat);
    }
}

/// A code section is returned only for a body that was read in full.
///
/// The conversion of a function body succeeds exactly when the locals
/// could be opened, every declaration that the body announces was read,
/// the operators could be opened, and the operator stream converts. The
/// code section then has the locals of all the declarations and the
/// instructions of the whole stream: never a shortened list of locals, and
/// never a part of the body.
pub proof fn lemma_code_section_is_whole(func: FunctionBody)
    ensures
        code_section_of(func) is Ok <==> {
            &&& func.locals matches Ok(locals) && locals_complete(locals)
            &&& func.operators matches Ok(ops) && converted(ops@, ops@.len()) is Ok
        },
        code_section_of(func) matches Ok(code) ==> {
            &&& code.locals == expanded_locals(
                func.locals->Ok_0.runs@,
                func.locals->Ok_0.runs@.len(),
            )
            &&& code.locals.len() == counted_locals(
                func.locals->Ok_0.runs@,
                func.locals->Ok_0.runs@.len(),
            )
            &&& converted(func.operators->Ok_0@, func.operators->Ok_0@.len()) == Ok::<
                Seq<Instruction>,
                ParseErrorView,
            >(code.body)
        },
        (func.locals matches Ok(locals) && !all_read(locals.runs@)) ==> code_section_of(func)
            == Err::<CodeSectionView, ParseErrorView>(invalid_local_count()),
{
    if let Ok(locals) = func.locals {
        lemma_expansion_counts(locals.runs@, locals.runs@.len());
    }
}

} // verus!
