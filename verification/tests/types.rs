use weaselm::decoder::types::{
    decode_block_type, decode_function_type, decode_global_type, decode_limits,
    decode_memory_arg, decode_memory_type, decode_table_type, decode_value_type,
};
use weaselm::decoder::{Decoder, DecoderError};
use weaselm::types::{
    BlockType, ElementType, GlobalType, GlobalTypeMutability, Limits, MemoryArg, MemoryType,
    TableType, ValueType,
};

fn error(offset: usize, message: &str) -> DecoderError {
    DecoderError { offset, message: String::from(message) }
}

#[test]
fn value_types_by_byte() {
    let bytes = [0x7Fu8, 0x7E, 0x7D, 0x7C];
    let mut decoder = Decoder::new(&bytes);
    assert_eq!(decode_value_type(&mut decoder), Ok(ValueType::I32));
    assert_eq!(decode_value_type(&mut decoder), Ok(ValueType::I64));
    assert_eq!(decode_value_type(&mut decoder), Ok(ValueType::F32));
    assert_eq!(decode_value_type(&mut decoder), Ok(ValueType::F64));
    assert_eq!(decoder.offset, 4);
    assert_eq!(decode_value_type(&mut decoder), Err(error(4, "Unexpected end of file")));
}

#[test]
fn value_type_invalid_byte_is_not_consumed() {
    let bytes = [0x7Fu8, 0x7B];
    let mut decoder = Decoder::new(&bytes);
    assert_eq!(decode_value_type(&mut decoder), Ok(ValueType::I32));
    assert_eq!(decode_value_type(&mut decoder), Err(error(1, "Invalid value type")));
    assert_eq!(decoder.offset, 1);
}

#[test]
fn limits_without_maximum() {
    let bytes = [0x00u8, 0x05];
    let mut decoder = Decoder::new(&bytes);
    assert_eq!(decode_limits(&mut decoder), Ok(Limits { min: 5, max: None }));
    assert_eq!(decoder.offset, 2);
}

#[test]
fn limits_with_maximum() {
    let bytes = [0x01u8, 0x80, 0x01, 0x90, 0x03];
    let mut decoder = Decoder::new(&bytes);
    assert_eq!(decode_limits(&mut decoder), Ok(Limits { min: 128, max: Some(400) }));
    assert_eq!(decoder.offset, 5);
}

#[test]
fn limits_below_minimum_are_still_decoded() {
    let bytes = [0x01u8, 0x09, 0x02];
    let mut decoder = Decoder::new(&bytes);
    assert_eq!(decode_limits(&mut decoder), Ok(Limits { min: 9, max: Some(2) }));
}

#[test]
fn limits_invalid_tag() {
    let bytes = [0x02u8, 0x00];
    let mut decoder = Decoder::new(&bytes);
    assert_eq!(decode_limits(&mut decoder), Err(error(0, "Invalid limit")));
    assert_eq!(decoder.offset, 0);
}

#[test]
fn limits_cut_short() {
    let bytes = [0x01u8, 0x00];
    let mut decoder = Decoder::new(&bytes);
    assert_eq!(decode_limits(&mut decoder), Err(error(2, "Unexpected end of file")));
}

#[test]
fn function_type_with_parameters_and_result() {
    let bytes = [0x60u8, 0x02, 0x7F, 0x7E, 0x01, 0x7C];
    let mut decoder = Decoder::new(&bytes);
    assert_eq!(
        decode_function_type(&mut decoder),
        Ok((vec![ValueType::I32, ValueType::I64], vec![ValueType::F64]))
    );
    assert_eq!(decoder.offset, 6);
}

#[test]
fn function_type_empty() {
    let bytes = [0x60u8, 0x00, 0x00];
    let mut decoder = Decoder::new(&bytes);
    assert_eq!(decode_function_type(&mut decoder), Ok((vec![], vec![])));
}

#[test]
fn function_type_with_two_results_is_decoded() {
    let bytes = [0x60u8, 0x00, 0x02, 0x7F, 0x7F];
    let mut decoder = Decoder::new(&bytes);
    assert_eq!(
        decode_function_type(&mut decoder),
        Ok((vec![], vec![ValueType::I32, ValueType::I32]))
    );
}

#[test]
fn function_type_invalid_prefix() {
    let bytes = [0x61u8, 0x00, 0x00];
    let mut decoder = Decoder::new(&bytes);
    assert_eq!(decode_function_type(&mut decoder), Err(error(0, "Invalid function type prefix")));
    assert_eq!(decoder.offset, 0);
}

#[test]
fn function_type_invalid_parameter() {
    let bytes = [0x60u8, 0x02, 0x7F, 0x00, 0x00];
    let mut decoder = Decoder::new(&bytes);
    assert_eq!(decode_function_type(&mut decoder), Err(error(3, "Invalid value type")));
}

#[test]
fn function_type_count_beyond_input() {
    let bytes = [0x60u8, 0x03, 0x7F];
    let mut decoder = Decoder::new(&bytes);
    assert_eq!(decode_function_type(&mut decoder), Err(error(3, "Unexpected end of file")));
}

#[test]
fn memory_type_is_its_limits() {
    let bytes = [0x00u8, 0x01];
    let mut decoder = Decoder::new(&bytes);
    assert_eq!(
        decode_memory_type(&mut decoder),
        Ok(MemoryType { limits: Limits { min: 1, max: None } })
    );
}

#[test]
fn table_type_of_function_references() {
    let bytes = [0x70u8, 0x01, 0x00, 0x0A];
    let mut decoder = Decoder::new(&bytes);
    assert_eq!(
        decode_table_type(&mut decoder),
        Ok(TableType {
            limits: Limits { min: 0, max: Some(10) },
            element_type: ElementType::FuncRef
        })
    );
    assert_eq!(decoder.offset, 4);
}

#[test]
fn table_type_invalid_element_kind() {
    let bytes = [0x6Fu8, 0x00, 0x00];
    let mut decoder = Decoder::new(&bytes);
    assert_eq!(decode_table_type(&mut decoder), Err(error(0, "Invalid element type")));
}

#[test]
fn global_type_constant_and_variable() {
    let bytes = [0x7Fu8, 0x00, 0x7C, 0x01];
    let mut decoder = Decoder::new(&bytes);
    assert_eq!(
        decode_global_type(&mut decoder),
        Ok(GlobalType { value_type: ValueType::I32, mutability: GlobalTypeMutability::Const })
    );
    assert_eq!(
        decode_global_type(&mut decoder),
        Ok(GlobalType { value_type: ValueType::F64, mutability: GlobalTypeMutability::Var })
    );
}

#[test]
fn global_type_invalid_mutability() {
    let bytes = [0x7Fu8, 0x02];
    let mut decoder = Decoder::new(&bytes);
    assert_eq!(decode_global_type(&mut decoder), Err(error(1, "Invalid global type mutability")));
    assert_eq!(decoder.offset, 1);
}

#[test]
fn block_type_void_or_value() {
    let bytes = [0x40u8, 0x7E];
    let mut decoder = Decoder::new(&bytes);
    assert_eq!(decode_block_type(&mut decoder), Ok(BlockType::Void));
    assert_eq!(decode_block_type(&mut decoder), Ok(BlockType::Return(ValueType::I64)));
    assert_eq!(decode_block_type(&mut decoder), Err(error(2, "Unexpected end of file")));
}

#[test]
fn block_type_invalid() {
    let bytes = [0x41u8];
    let mut decoder = Decoder::new(&bytes);
    assert_eq!(decode_block_type(&mut decoder), Err(error(0, "Invalid value type")));
}

#[test]
fn memory_arg_alignment_then_offset() {
    let bytes = [0x02u8, 0x80, 0x02];
    let mut decoder = Decoder::new(&bytes);
    assert_eq!(decode_memory_arg(&mut decoder), Ok(MemoryArg { align: 2, offset: 256 }));
    assert_eq!(decoder.offset, 3);
}
