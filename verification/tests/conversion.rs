use tinywasm::conversion::{
    convert_blocktype, convert_memarg, convert_module_code, convert_module_export,
    convert_module_type, convert_valtype, process_operator, process_operators, CodeSection,
};
use tinywasm::decoded;
use tinywasm::decoded::{BrTable, DecodeError, FunctionBody, LocalRun, Locals, Operator};
use tinywasm::error::ParseError;
use tinywasm::instructions::Instruction;
use tinywasm::types::{BlockArgs, Export, ExternalKind, FuncType, MemArg, ValType};

fn decode_error(message: &str, offset: usize) -> DecodeError {
    DecodeError { message: message.to_string(), offset }
}

fn memarg(align: u8, offset: u64) -> decoded::MemArg {
    decoded::MemArg { align, max_align: 3, offset, memory: 0 }
}

#[test]
fn br_table_becomes_record_and_labels() {
    let table = BrTable { default: 3, targets: vec![Ok(1), Ok(2), Ok(0)] };
    let ops = vec![Ok(Operator::BrTable { targets: table })];
    assert_eq!(
        process_operators(&ops),
        Ok(vec![
            Instruction::BrTable(3),
            Instruction::BrLabel(1),
            Instruction::BrLabel(2),
            Instruction::BrLabel(0),
        ])
    );
}

#[test]
fn br_table_without_labels_is_one_record() {
    let table = BrTable { default: 7, targets: vec![] };
    let ops = vec![Ok(Operator::BrTable { targets: table }), Ok(Operator::End)];
    assert_eq!(process_operators(&ops), Ok(vec![Instruction::BrTable(7), Instruction::End]));
}

#[test]
fn labels_stand_between_their_table_and_the_next_instruction() {
    let first = BrTable { default: 0, targets: vec![Ok(4), Ok(5)] };
    let second = BrTable { default: 9, targets: vec![Ok(6)] };
    let ops = vec![
        Ok(Operator::Nop),
        Ok(Operator::BrTable { targets: first }),
        Ok(Operator::BrTable { targets: second }),
        Ok(Operator::Return),
    ];
    assert_eq!(
        process_operators(&ops),
        Ok(vec![
            Instruction::Nop,
            Instruction::BrTable(0),
            Instruction::BrLabel(4),
            Instruction::BrLabel(5),
            Instruction::BrTable(9),
            Instruction::BrLabel(6),
            Instruction::Return,
        ])
    );
}

#[test]
fn failing_label_fails_the_conversion() {
    let table = BrTable {
        default: 3,
        targets: vec![Ok(1), Err(decode_error("bad label", 17)), Ok(0)],
    };
    let ops = vec![Ok(Operator::Nop), Ok(Operator::BrTable { targets: table })];
    assert_eq!(
        process_operators(&ops),
        Err(ParseError::ParseError { message: "bad label".to_string(), offset: 17 })
    );
}

#[test]
fn unsupported_operator_is_rejected_with_its_description() {
    let description = "V128Const { value: V128([0, 0, 0, 0, 0, 0, 0, 0, 0, 0, 0, 0, 0, 0, 0, 0]) }";
    let ops = vec![
        Ok(Operator::LocalGet { local_index: 0 }),
        Ok(Operator::Other { description: description.to_string() }),
        Ok(Operator::End),
    ];
    let result = process_operators(&ops);
    match result {
        Err(ParseError::UnsupportedOperator(message)) => {
            assert_eq!(message, format!("Unsupported instruction: {}", description));
            assert!(message.contains("V128Const"));
        }
        other => panic!("expected an unsupported operator, got {:?}", other),
    }
}

#[test]
fn unsupported_simd_arithmetic_is_rejected() {
    let op = Operator::Other { description: "I32x4Add".to_string() };
    assert_eq!(
        process_operator(&op),
        Err(ParseError::UnsupportedOperator("Unsupported instruction: I32x4Add".to_string()))
    );
}

#[test]
fn first_failure_in_the_stream_decides() {
    let ops = vec![
        Ok(Operator::Nop),
        Err(decode_error("truncated", 5)),
        Ok(Operator::Other { description: "MemoryCopy".to_string() }),
    ];
    assert_eq!(
        process_operators(&ops),
        Err(ParseError::ParseError { message: "truncated".to_string(), offset: 5 })
    );
    let ops = vec![
        Ok(Operator::Other { description: "MemoryCopy".to_string() }),
        Err(decode_error("truncated", 5)),
    ];
    assert_eq!(
        process_operators(&ops),
        Err(ParseError::UnsupportedOperator("Unsupported instruction: MemoryCopy".to_string()))
    );
}

#[test]
fn empty_stream_gives_no_instructions() {
    assert_eq!(process_operators(&vec![]), Ok(vec![]));
}

#[test]
fn control_operators_keep_their_immediates() {
    assert_eq!(process_operator(&Operator::Unreachable), Ok(Instruction::Unreachable));
    assert_eq!(process_operator(&Operator::Nop), Ok(Instruction::Nop));
    assert_eq!(process_operator(&Operator::Else), Ok(Instruction::Else));
    assert_eq!(process_operator(&Operator::End), Ok(Instruction::End));
    assert_eq!(process_operator(&Operator::Return), Ok(Instruction::Return));
    assert_eq!(process_operator(&Operator::Drop), Ok(Instruction::Drop));
    assert_eq!(process_operator(&Operator::Select), Ok(Instruction::Select));
    assert_eq!(process_operator(&Operator::Br { relative_depth: 2 }), Ok(Instruction::Br(2)));
    assert_eq!(process_operator(&Operator::BrIf { relative_depth: 5 }), Ok(Instruction::BrIf(5)));
    assert_eq!(
        process_operator(&Operator::Call { function_index: 11 }),
        Ok(Instruction::Call(11))
    );
    assert_eq!(
        process_operator(&Operator::CallIndirect { type_index: 3, table_index: 1, table_byte: 0 }),
        Ok(Instruction::CallIndirect(3, 1))
    );
    assert_eq!(
        process_operator(&Operator::Block { blockty: decoded::BlockType::Empty }),
        Ok(Instruction::Block(BlockArgs::Empty))
    );
    assert_eq!(
        process_operator(&Operator::Loop { blockty: decoded::BlockType::Type(decoded::ValType::I64) }),
        Ok(Instruction::Loop(BlockArgs::Type(ValType::I64)))
    );
    assert_eq!(
        process_operator(&Operator::If { blockty: decoded::BlockType::Type(decoded::ValType::F32) }),
        Ok(Instruction::If(BlockArgs::Type(ValType::F32)))
    );
}

#[test]
fn single_branch_table_gives_its_record_alone() {
    let table = BrTable { default: 4, targets: vec![Ok(1), Ok(2)] };
    assert_eq!(
        process_operator(&Operator::BrTable { targets: table }),
        Ok(Instruction::BrTable(4))
    );
}

#[test]
fn variable_operators_keep_their_index() {
    assert_eq!(
        process_operator(&Operator::LocalGet { local_index: 1 }),
        Ok(Instruction::LocalGet(1))
    );
    assert_eq!(
        process_operator(&Operator::LocalSet { local_index: 2 }),
        Ok(Instruction::LocalSet(2))
    );
    assert_eq!(
        process_operator(&Operator::LocalTee { local_index: 3 }),
        Ok(Instruction::LocalTee(3))
    );
    assert_eq!(
        process_operator(&Operator::GlobalGet { global_index: 4 }),
        Ok(Instruction::GlobalGet(4))
    );
    assert_eq!(
        process_operator(&Operator::GlobalSet { global_index: u32::MAX }),
        Ok(Instruction::GlobalSet(u32::MAX))
    );
}

#[test]
fn memory_operators_keep_offset_and_alignment() {
    assert_eq!(
        process_operator(&Operator::I32Load { memarg: memarg(2, 16) }),
        Ok(Instruction::I32Load(MemArg { offset: 16, align: 2 }))
    );
    assert_eq!(
        process_operator(&Operator::I64Load32U { memarg: memarg(1, u64::MAX) }),
        Ok(Instruction::I64Load32U(MemArg { offset: u64::MAX, align: 1 }))
    );
    assert_eq!(
        process_operator(&Operator::F64Store { memarg: memarg(3, 8) }),
        Ok(Instruction::F64Store(MemArg { offset: 8, align: 3 }))
    );
    assert_eq!(
        process_operator(&Operator::I32Store8 { memarg: memarg(0, 0) }),
        Ok(Instruction::I32Store8(MemArg { offset: 0, align: 0 }))
    );
    assert_eq!(
        process_operator(&Operator::MemorySize { mem: 0, mem_byte: 0 }),
        Ok(Instruction::MemorySize)
    );
    assert_eq!(
        process_operator(&Operator::MemoryGrow { mem: 0, mem_byte: 0 }),
        Ok(Instruction::MemoryGrow)
    );
}

#[test]
fn numeric_operators_map_by_name() {
    assert_eq!(process_operator(&Operator::I32Eqz), Ok(Instruction::I32Eqz));
    assert_eq!(process_operator(&Operator::I32Add), Ok(Instruction::I32Add));
    assert_eq!(process_operator(&Operator::I64GeU), Ok(Instruction::I64GeU));
    assert_eq!(process_operator(&Operator::I64Rotr), Ok(Instruction::I64Rotr));
    assert_eq!(process_operator(&Operator::F32Copysign), Ok(Instruction::F32Copysign));
    assert_eq!(process_operator(&Operator::F64Nearest), Ok(Instruction::F64Nearest));
    assert_eq!(process_operator(&Operator::I32WrapI64), Ok(Instruction::I32WrapI64));
    assert_eq!(process_operator(&Operator::I64TruncF64U), Ok(Instruction::I64TruncF64U));
    assert_eq!(process_operator(&Operator::F32DemoteF64), Ok(Instruction::F32DemoteF64));
    assert_eq!(process_operator(&Operator::F64ReinterpretI64), Ok(Instruction::F64ReinterpretI64));
}

#[test]
fn add_function_body_converts() {
    let ops = vec![
        Ok(Operator::LocalGet { local_index: 0 }),
        Ok(Operator::LocalGet { local_index: 1 }),
        Ok(Operator::I32Add),
        Ok(Operator::End),
    ];
    assert_eq!(
        process_operators(&ops),
        Ok(vec![
            Instruction::LocalGet(0),
            Instruction::LocalGet(1),
            Instruction::I32Add,
            Instruction::End,
        ])
    );
}

#[test]
fn block_type_by_function_type_is_unsupported() {
    let expected =
        Err(ParseError::UnsupportedOperator("Unsupported block type: FuncType".to_string()));
    assert_eq!(convert_blocktype(&decoded::BlockType::FuncType(3)), expected);
    assert_eq!(
        process_operator(&Operator::Block { blockty: decoded::BlockType::FuncType(0) }),
        Err(ParseError::UnsupportedOperator("Unsupported block type: FuncType".to_string()))
    );
    assert_eq!(
        process_operators(&vec![
            Ok(Operator::Nop),
            Ok(Operator::If { blockty: decoded::BlockType::FuncType(1) })
        ]),
        Err(ParseError::UnsupportedOperator("Unsupported block type: FuncType".to_string()))
    );
}

#[test]
fn block_types_convert() {
    assert_eq!(convert_blocktype(&decoded::BlockType::Empty), Ok(BlockArgs::Empty));
    assert_eq!(
        convert_blocktype(&decoded::BlockType::Type(decoded::ValType::FuncRef)),
        Ok(BlockArgs::Type(ValType::FuncRef))
    );
}

#[test]
fn value_types_convert_one_for_one() {
    assert_eq!(convert_valtype(&decoded::ValType::I32), ValType::I32);
    assert_eq!(convert_valtype(&decoded::ValType::I64), ValType::I64);
    assert_eq!(convert_valtype(&decoded::ValType::F32), ValType::F32);
    assert_eq!(convert_valtype(&decoded::ValType::F64), ValType::F64);
    assert_eq!(convert_valtype(&decoded::ValType::V128), ValType::V128);
    assert_eq!(convert_valtype(&decoded::ValType::FuncRef), ValType::FuncRef);
    assert_eq!(convert_valtype(&decoded::ValType::ExternRef), ValType::ExternRef);
}

#[test]
fn memarg_keeps_offset_and_alignment_only() {
    let decoded = decoded::MemArg { align: 3, max_align: 4, offset: 1024, memory: 7 };
    assert_eq!(convert_memarg(decoded), MemArg { offset: 1024, align: 3 });
    let decoded = decoded::MemArg { align: 255, max_align: 0, offset: 0, memory: 0 };
    assert_eq!(convert_memarg(decoded), MemArg { offset: 0, align: 255 });
}

#[test]
fn exports_convert_by_kind() {
    let export = |kind| decoded::Export { name: "item".to_string(), kind, index: 4 };
    let converted = |kind| Ok(Export { name: "item".to_string(), kind, index: 4 });
    assert_eq!(
        convert_module_export(export(decoded::ExternalKind::Func)),
        converted(ExternalKind::Func)
    );
    assert_eq!(
        convert_module_export(export(decoded::ExternalKind::Table)),
        converted(ExternalKind::Table)
    );
    assert_eq!(
        convert_module_export(export(decoded::ExternalKind::Memory)),
        converted(ExternalKind::Memory)
    );
    assert_eq!(
        convert_module_export(export(decoded::ExternalKind::Global)),
        converted(ExternalKind::Global)
    );
}

#[test]
fn export_of_a_tag_is_unsupported() {
    let export =
        decoded::Export { name: "exn".to_string(), kind: decoded::ExternalKind::Tag, index: 0 };
    assert_eq!(
        convert_module_export(export),
        Err(ParseError::UnsupportedOperator("Unsupported export kind: Tag".to_string()))
    );
}

#[test]
fn function_type_converts() {
    let ty = decoded::Type::Func(decoded::FuncType {
        params: vec![decoded::ValType::I32, decoded::ValType::I32],
        results: vec![decoded::ValType::I32],
    });
    assert_eq!(
        convert_module_type(ty),
        FuncType { params: vec![ValType::I32, ValType::I32], results: vec![ValType::I32] }
    );
    let ty = decoded::Type::Func(decoded::FuncType { params: vec![], results: vec![] });
    assert_eq!(convert_module_type(ty), FuncType { params: vec![], results: vec![] });
}

fn run(count: u32, ty: decoded::ValType) -> Result<LocalRun, DecodeError> {
    Ok(LocalRun { count, ty })
}

#[test]
fn locals_are_expanded_one_per_slot() {
    let body = FunctionBody {
        locals: Ok(Locals {
            count: 3,
            runs: vec![run(2, decoded::ValType::I32), run(0, decoded::ValType::F32), run(
                2,
                decoded::ValType::I64,
            )],
        }),
        operators: Ok(vec![Ok(Operator::Nop), Ok(Operator::End)]),
    };
    assert_eq!(
        convert_module_code(body),
        Ok(CodeSection {
            locals: vec![ValType::I32, ValType::I32, ValType::I64, ValType::I64],
            body: vec![Instruction::Nop, Instruction::End],
        })
    );
}

#[test]
fn one_declaration_of_two_locals_gives_two_locals() {
    let body = FunctionBody {
        locals: Ok(Locals { count: 1, runs: vec![run(2, decoded::ValType::I32)] }),
        operators: Ok(vec![Ok(Operator::End)]),
    };
    assert_eq!(
        convert_module_code(body),
        Ok(CodeSection { locals: vec![ValType::I32, ValType::I32], body: vec![Instruction::End] })
    );
}

#[test]
fn declaration_of_no_locals_gives_none() {
    let body = FunctionBody {
        locals: Ok(Locals {
            count: 2,
            runs: vec![run(0, decoded::ValType::I32), run(0, decoded::ValType::F64)],
        }),
        operators: Ok(vec![Ok(Operator::End)]),
    };
    assert_eq!(
        convert_module_code(body),
        Ok(CodeSection { locals: vec![], body: vec![Instruction::End] })
    );
}

#[test]
fn long_run_is_expanded_in_full() {
    let body = FunctionBody {
        locals: Ok(Locals {
            count: 2,
            runs: vec![run(70000, decoded::ValType::F32), run(1, decoded::ValType::I64)],
        }),
        operators: Ok(vec![Ok(Operator::End)]),
    };
    let code = convert_module_code(body).unwrap();
    assert_eq!(code.locals.len(), 70001);
    assert!(code.locals[..70000].iter().all(|ty| *ty == ValType::F32));
    assert_eq!(code.locals[70000], ValType::I64);
}

#[test]
fn body_without_locals_converts() {
    let body = FunctionBody {
        locals: Ok(Locals { count: 0, runs: vec![] }),
        operators: Ok(vec![Ok(Operator::End)]),
    };
    assert_eq!(
        convert_module_code(body),
        Ok(CodeSection { locals: vec![], body: vec![Instruction::End] })
    );
}

#[test]
fn declarations_other_in_number_than_announced_are_an_error() {
    let invalid = Err(ParseError::Other("Invalid local index".to_string()));
    let too_few = FunctionBody {
        locals: Ok(Locals { count: 3, runs: vec![run(2, decoded::ValType::I32)] }),
        operators: Ok(vec![Ok(Operator::End)]),
    };
    assert_eq!(convert_module_code(too_few), invalid);
    let none_read = FunctionBody {
        locals: Ok(Locals { count: 2, runs: vec![] }),
        operators: Ok(vec![Ok(Operator::End)]),
    };
    assert_eq!(convert_module_code(none_read), invalid);
    let too_many = FunctionBody {
        locals: Ok(Locals {
            count: 1,
            runs: vec![run(1, decoded::ValType::I32), run(1, decoded::ValType::I32)],
        }),
        operators: Ok(vec![Ok(Operator::End)]),
    };
    assert_eq!(convert_module_code(too_many), invalid);
    let unannounced = FunctionBody {
        locals: Ok(Locals { count: 0, runs: vec![run(0, decoded::ValType::I32)] }),
        operators: Ok(vec![Ok(Operator::End)]),
    };
    assert_eq!(convert_module_code(unannounced), invalid);
}

#[test]
fn declaration_that_failed_to_decode_is_an_error() {
    let invalid = Err(ParseError::Other("Invalid local index".to_string()));
    let cut_short = FunctionBody {
        locals: Ok(Locals {
            count: 2,
            runs: vec![run(2, decoded::ValType::I32), Err(decode_error("bad run", 3))],
        }),
        operators: Ok(vec![Ok(Operator::End)]),
    };
    assert_eq!(convert_module_code(cut_short), invalid);
    let first_failed = FunctionBody {
        locals: Ok(Locals { count: 1, runs: vec![Err(decode_error("bad run", 1))] }),
        operators: Ok(vec![Ok(Operator::End)]),
    };
    assert_eq!(convert_module_code(first_failed), invalid);
    let failed_beyond_the_count = FunctionBody {
        locals: Ok(Locals {
            count: 1,
            runs: vec![run(1, decoded::ValType::I32), Err(decode_error("bad run", 3))],
        }),
        operators: Ok(vec![Ok(Operator::End)]),
    };
    assert_eq!(convert_module_code(failed_beyond_the_count), invalid);
    let failed_among_the_counted = FunctionBody {
        locals: Ok(Locals {
            count: 2,
            runs: vec![
                run(1, decoded::ValType::I32),
                Err(decode_error("bad run", 3)),
                run(1, decoded::ValType::I32),
            ],
        }),
        operators: Ok(vec![Ok(Operator::End)]),
    };
    assert_eq!(convert_module_code(failed_among_the_counted), invalid);
}

#[test]
fn decoder_failures_of_a_body_are_passed_on() {
    let body = FunctionBody {
        locals: Err(decode_error("no locals", 1)),
        operators: Err(decode_error("no operators", 2)),
    };
    assert_eq!(
        convert_module_code(body),
        Err(ParseError::ParseError { message: "no locals".to_string(), offset: 1 })
    );
    let body = FunctionBody {
        locals: Ok(Locals { count: 0, runs: vec![] }),
        operators: Err(decode_error("no operators", 2)),
    };
    assert_eq!(
        convert_module_code(body),
        Err(ParseError::ParseError { message: "no operators".to_string(), offset: 2 })
    );
    let body = FunctionBody {
        locals: Ok(Locals { count: 0, runs: vec![] }),
        operators: Ok(vec![Ok(Operator::Nop), Err(decode_error("cut short", 9))]),
    };
    assert_eq!(
        convert_module_code(body),
        Err(ParseError::ParseError { message: "cut short".to_string(), offset: 9 })
    );
}

#[test]
fn declarations_are_checked_before_the_operators() {
    let body = FunctionBody {
        locals: Ok(Locals { count: 1, runs: vec![] }),
        operators: Err(decode_error("no operators", 2)),
    };
    assert_eq!(convert_module_code(body), Err(ParseError::Other("Invalid local index".to_string())));
}

#[test]
fn parse_error_message_is_its_text() {
    assert_eq!(ParseError::Other("a".to_string()).message(), "a");
    assert_eq!(ParseError::UnsupportedOperator("b".to_string()).message(), "b");
    assert_eq!(ParseError::ParseError { message: "c".to_string(), offset: 1 }.message(), "c");
}
