use tinywasm::conversion::{convert_module_code, process_operators, CodeSection};
use tinywasm::decoded::{
    BrTable, DecodeError, FunctionBody, LocalRun, Locals, Operator, ValType as DecodedValType,
};
use tinywasm::error::ParseError;
use tinywasm::instructions::Instruction;
use tinywasm::types::ValType;

fn decode_error(error: wasmparser::BinaryReaderError) -> DecodeError {
    DecodeError { message: error.message().to_string(), offset: error.offset() }
}

/// The few operators that these tests decode, as plain data.
fn operator(op: wasmparser::Operator) -> Operator {
    match op {
        wasmparser::Operator::BrTable { targets } => Operator::BrTable {
            targets: BrTable {
                default: targets.default(),
                targets: targets.targets().map(|target| target.map_err(decode_error)).collect(),
            },
        },
        wasmparser::Operator::LocalGet { local_index } => Operator::LocalGet { local_index },
        wasmparser::Operator::I32Add => Operator::I32Add,
        wasmparser::Operator::End => Operator::End,
        other => Operator::Other { description: format!("{:?}", other) },
    }
}

fn operators(bytes: &[u8]) -> Vec<Result<Operator, DecodeError>> {
    let mut reader = wasmparser::BinaryReader::new(bytes);
    let mut ops = Vec::new();
    while !reader.eof() {
        match reader.read_operator() {
            Ok(op) => ops.push(Ok(operator(op))),
            Err(error) => {
                ops.push(Err(decode_error(error)));
                break;
            }
        }
    }
    ops
}

fn function_body(bytes: &[u8]) -> FunctionBody {
    let body = wasmparser::FunctionBody::new(0, bytes);
    let locals = match body.get_locals_reader() {
        Err(error) => Err(decode_error(error)),
        Ok(reader) => Ok(Locals {
            count: reader.get_count(),
            runs: reader
                .into_iter()
                .map(|run| match run {
                    Ok((count, wasmparser::ValType::I32)) => {
                        Ok(LocalRun { count, ty: DecodedValType::I32 })
                    }
                    Ok((count, _)) => Ok(LocalRun { count, ty: DecodedValType::I64 }),
                    Err(error) => Err(decode_error(error)),
                })
                .collect(),
        }),
    };
    let operators = match body.get_operators_reader() {
        Err(error) => Err(decode_error(error)),
        Ok(reader) => Ok(reader
            .into_iter()
            .map(|op| match op {
                Ok(op) => Ok(operator(op)),
                Err(error) => Err(decode_error(error)),
            })
            .collect()),
    };
    FunctionBody { locals, operators }
}

#[test]
fn decoded_branch_table_converts_to_record_and_labels() {
    let ops = operators(&[0x0e, 0x03, 0x01, 0x02, 0x00, 0x03]);
    assert_eq!(
        process_operators(&ops),
        Ok(vec![
            Instruction::BrTable(3),
            Instruction::BrLabel(1),
            Instruction::BrLabel(2),
            Instruction::BrLabel(0),
        ])
    );
}

#[test]
fn decoded_add_body_converts() {
    let ops = operators(&[0x20, 0x00, 0x20, 0x01, 0x6a, 0x0b]);
    assert_eq!(
        process_operators(&ops),
        Ok(vec![
            Instruction::LocalGet(0),
            Instruction::LocalGet(1),
            Instruction::I32Add,
            Instruction::End,
        ])
    );
}

#[test]
fn decoded_vector_constant_is_unsupported() {
    let mut bytes = vec![0xfd, 0x0c];
    bytes.extend([0u8; 16]);
    bytes.push(0x0b);
    match process_operators(&operators(&bytes)) {
        Err(ParseError::UnsupportedOperator(message)) => {
            assert!(message.starts_with("Unsupported instruction: V128Const"));
        }
        other => panic!("expected an unsupported operator, got {:?}", other),
    }
}

#[test]
fn truncated_operator_passes_the_decoder_error_on() {
    let ops = operators(&[0x0b, 0x20]);
    let decoder_error = match &ops[1] {
        Err(error) => error.clone(),
        Ok(op) => panic!("expected a decoder error, got {:?}", op),
    };
    match process_operators(&ops) {
        Err(ParseError::ParseError { message, offset }) => {
            assert!(!message.is_empty());
            assert_eq!(message, decoder_error.message);
            assert_eq!(offset, decoder_error.offset);
        }
        other => panic!("expected a decoder error, got {:?}", other),
    }
}

#[test]
fn decoded_function_body_with_single_locals_converts() {
    // two runs of one local each, then `local.get 0; end`
    let body = function_body(&[0x02, 0x01, 0x7f, 0x01, 0x7e, 0x20, 0x00, 0x0b]);
    assert_eq!(
        convert_module_code(body),
        Ok(CodeSection {
            locals: vec![ValType::I32, ValType::I64],
            body: vec![Instruction::LocalGet(0), Instruction::End],
        })
    );
}

#[test]
fn decoded_declaration_of_several_locals_is_expanded() {
    // one declaration of two i32 locals, then `end`
    let body = function_body(&[0x01, 0x02, 0x7f, 0x0b]);
    match &body.locals {
        Ok(locals) => {
            assert_eq!(locals.count, 1);
            assert_eq!(locals.runs, vec![Ok(LocalRun { count: 2, ty: DecodedValType::I32 })]);
        }
        Err(error) => panic!("expected the locals to decode, got {:?}", error),
    }
    assert_eq!(
        convert_module_code(body),
        Ok(CodeSection { locals: vec![ValType::I32, ValType::I32], body: vec![Instruction::End] })
    );
}

#[test]
fn decoded_declarations_of_different_lengths_are_expanded() {
    // three i32 locals, no i64 local, one i64 local, then `local.get 3; end`
    let body = function_body(&[0x03, 0x03, 0x7f, 0x00, 0x7e, 0x01, 0x7e, 0x20, 0x03, 0x0b]);
    assert_eq!(
        convert_module_code(body),
        Ok(CodeSection {
            locals: vec![ValType::I32, ValType::I32, ValType::I32, ValType::I64],
            body: vec![Instruction::LocalGet(3), Instruction::End],
        })
    );
}

#[test]
fn decoded_body_without_declarations_converts() {
    let body = function_body(&[0x00, 0x0b]);
    assert_eq!(
        convert_module_code(body),
        Ok(CodeSection { locals: vec![], body: vec![Instruction::End] })
    );
}

#[test]
fn malformed_declaration_is_an_error() {
    // two declarations announced; the second has a type that does not exist
    let body = function_body(&[0x02, 0x02, 0x7f, 0x01, 0x00, 0x0b]);
    match &body.locals {
        Ok(locals) => {
            assert_eq!(locals.count, 2);
            assert_eq!(locals.runs.len(), 2);
            assert_eq!(locals.runs[0], Ok(LocalRun { count: 2, ty: DecodedValType::I32 }));
            assert!(locals.runs[1].is_err());
        }
        Err(error) => panic!("expected the head of the locals to decode, got {:?}", error),
    }
    assert_eq!(convert_module_code(body), Err(ParseError::Other("Invalid local index".to_string())));
}

#[test]
fn declarations_cut_short_are_an_error() {
    // two declarations announced, the bytes end after the first
    let body = function_body(&[0x02, 0x02, 0x7f]);
    match &body.locals {
        Ok(locals) => {
            assert_eq!(locals.count, 2);
            assert!(locals.runs.len() < 2 || locals.runs.iter().any(|run| run.is_err()));
        }
        Err(error) => panic!("expected the head of the locals to decode, got {:?}", error),
    }
    assert_eq!(convert_module_code(body), Err(ParseError::Other("Invalid local index".to_string())));
}
