//! Value types, limits, and the types of functions, tables, memories, globals and blocks.

use crate::decoder::cursor::{
    byte_at, fault, reads, viewed, Decoder, DecoderResult, Parse, UNEXPECTED_END,
};
use crate::decoder::values::{decode_u32, u32_at};
use crate::decoder::vectors::{decode_vector, items_at, Item};
use crate::types::{
    views,
    BlockType, ElementType, FunctionType, GlobalType, GlobalTypeMutability, Limits, MemoryArg,
    MemoryType, TableType, ValueType,
};
use vstd::prelude::*;

verus! {

// The messages of the faults in types.
pub const INVALID_VALUE_TYPE: &'static str = "Invalid value type";
pub const INVALID_LIMIT: &'static str = "Invalid limit";
pub const INVALID_FUNCTION_TYPE: &'static str = "Invalid function type prefix";
pub const INVALID_ELEMENT_TYPE: &'static str = "Invalid element type";
pub const INVALID_MUTABILITY: &'static str = "Invalid global type mutability";

/// The value type that a byte stands for.
pub open spec fn value_type_of(byte: u8) -> Option<ValueType> {
    if byte == 0x7F {
        Some(ValueType::I32)
    } else if byte == 0x7E {
        Some(ValueType::I64)
    } else if byte == 0x7D {
        Some(ValueType::F32)
    } else if byte == 0x7C {
        Some(ValueType::F64)
    } else {
        None
    }
}

/// The value type at `pos`: one byte.
pub open spec fn value_type_at(bytes: Seq<u8>, pos: int) -> Parse<ValueType> {
    match byte_at(bytes, pos) {
        Err(f) => Err(f),
        Ok((byte, next)) => match value_type_of(byte) {
            Some(value_type) => Ok((value_type, next)),
            None => fault(pos, INVALID_VALUE_TYPE),
        },
    }
}

/// The limits at `pos`: a tag byte, the minimum, and with tag 1 the maximum.
pub open spec fn limits_at(bytes: Seq<u8>, pos: int) -> Parse<Limits> {
    match byte_at(bytes, pos) {
        Err(f) => Err(f),
        Ok((tag, next)) => {
            if tag == 0x00 {
                match u32_at(bytes, next) {
                    Err(f) => Err(f),
                    Ok((min, end)) => Ok((Limits { min, max: None }, end)),
                }
            } else if tag == 0x01 {
                match u32_at(bytes, next) {
                    Err(f) => Err(f),
                    Ok((min, middle)) => match u32_at(bytes, middle) {
                        Err(f) => Err(f),
                        Ok((max, end)) => Ok((Limits { min, max: Some(max) }, end)),
                    },
                }
            } else {
                fault(pos, INVALID_LIMIT)
            }
        },
    }
}

/// The vector of value types at `pos`: a `u32` count, then the types.
pub open spec fn value_types_at(bytes: Seq<u8>, pos: int) -> Parse<Seq<ValueType>> {
    items_at::<ValueType>(bytes, pos)
}

/// The function type at `pos`: the byte 0x60, the parameter types, the result types.
pub open spec fn function_type_at(bytes: Seq<u8>, pos: int) -> Parse<
    (Seq<ValueType>, Seq<ValueType>),
> {
    match byte_at(bytes, pos) {
        Err(f) => Err(f),
        Ok((prefix, next)) => {
            if prefix != 0x60 {
                fault(pos, INVALID_FUNCTION_TYPE)
            } else {
                match value_types_at(bytes, next) {
                    Err(f) => Err(f),
                    Ok((params, middle)) => match value_types_at(bytes, middle) {
                        Err(f) => Err(f),
                        Ok((results, end)) => Ok(((params, results), end)),
                    },
                }
            }
        },
    }
}

/// The memory type at `pos`: its limits.
pub open spec fn memory_type_at(bytes: Seq<u8>, pos: int) -> Parse<MemoryType> {
    match limits_at(bytes, pos) {
        Err(f) => Err(f),
        Ok((limits, end)) => Ok((MemoryType { limits }, end)),
    }
}

/// The table type at `pos`: the byte 0x70 for the element kind, then the limits.
pub open spec fn table_type_at(bytes: Seq<u8>, pos: int) -> Parse<TableType> {
    match byte_at(bytes, pos) {
        Err(f) => Err(f),
        Ok((kind, next)) => {
            if kind != 0x70 {
                fault(pos, INVALID_ELEMENT_TYPE)
            } else {
                match limits_at(bytes, next) {
                    Err(f) => Err(f),
                    Ok((limits, end)) => Ok(
                        (TableType { limits, element_type: ElementType::FuncRef }, end),
                    ),
                }
            }
        },
    }
}

/// The global type at `pos`: a value type, then 0 for a constant or 1 for a variable.
pub open spec fn global_type_at(bytes: Seq<u8>, pos: int) -> Parse<GlobalType> {
    match value_type_at(bytes, pos) {
        Err(f) => Err(f),
        Ok((value_type, next)) => match byte_at(bytes, next) {
            Err(f) => Err(f),
            Ok((flag, end)) => {
                if flag == 0x00 {
                    Ok((GlobalType { value_type, mutability: GlobalTypeMutability::Const }, end))
                } else if flag == 0x01 {
                    Ok((GlobalType { value_type, mutability: GlobalTypeMutability::Var }, end))
                } else {
                    fault(next, INVALID_MUTABILITY)
                }
            },
        },
    }
}

/// The block type at `pos`: the byte 0x40 for none, or a value type.
pub open spec fn block_type_at(bytes: Seq<u8>, pos: int) -> Parse<BlockType> {
    match byte_at(bytes, pos) {
        Err(f) => Err(f),
        Ok((byte, next)) => {
            if byte == 0x40 {
                Ok((BlockType::Void, next))
            } else {
                match value_type_of(byte) {
                    Some(value_type) => Ok((BlockType::Return(value_type), next)),
                    None => fault(pos, INVALID_VALUE_TYPE),
                }
            }
        },
    }
}

/// The memory argument at `pos`: the alignment, then the offset.
pub open spec fn memory_arg_at(bytes: Seq<u8>, pos: int) -> Parse<MemoryArg> {
    match u32_at(bytes, pos) {
        Err(f) => Err(f),
        Ok((align, next)) => match u32_at(bytes, next) {
            Err(f) => Err(f),
            Ok((offset, end)) => Ok((MemoryArg { align, offset }, end)),
        },
    }
}

/// Reads a value type.
pub fn decode_value_type(decoder: &mut Decoder) -> (r: DecoderResult<ValueType>)
    ensures
        reads(
            *old(decoder),
            *final(decoder),
            r,
            value_type_at(old(decoder).bytes@, old(decoder).offset as int),
        ),
{
    match decoder.pick_byte() {
        None => Err(decoder.produce_error(UNEXPECTED_END)),
        Some(byte) => {
            let value_type = match byte {
                0x7F => ValueType::I32,
                0x7E => ValueType::I64,
                0x7D => ValueType::F32,
                0x7C => ValueType::F64,
                _ => {
                    return Err(decoder.produce_error(INVALID_VALUE_TYPE));
                },
            };
            decoder.step();
            Ok(value_type)
        },
    }
}

/// Reads limits.
pub fn decode_limits(decoder: &mut Decoder) -> (r: DecoderResult<Limits>)
    ensures
        reads(
            *old(decoder),
            *final(decoder),
            r,
            limits_at(old(decoder).bytes@, old(decoder).offset as int),
        ),
{
    match decoder.pick_byte() {
        None => Err(decoder.produce_error(UNEXPECTED_END)),
        Some(tag) => {
            if tag == 0x00 {
                decoder.step();
                let min = decode_u32(decoder)?;
                Ok(Limits { min, max: None })
            } else if tag == 0x01 {
                decoder.step();
                let min = decode_u32(decoder)?;
                let max = decode_u32(decoder)?;
                Ok(Limits { min, max: Some(max) })
            } else {
                Err(decoder.produce_error(INVALID_LIMIT))
            }
        },
    }
}

/// Reads a function type.
pub fn decode_function_type(decoder: &mut Decoder) -> (r: DecoderResult<FunctionType>)
    ensures
        reads(
            *old(decoder),
            *final(decoder),
            viewed(r),
            function_type_at(old(decoder).bytes@, old(decoder).offset as int),
        ),
{
    match decoder.pick_byte() {
        None => Err(decoder.produce_error(UNEXPECTED_END)),
        Some(prefix) => {
            if prefix != 0x60 {
                return Err(decoder.produce_error(INVALID_FUNCTION_TYPE));
            }
            decoder.step();
            let params = decode_vector::<ValueType>(decoder)?;
            let results = decode_vector::<ValueType>(decoder)?;
            proof {
                assert(views(params@) =~= params@);
                assert(views(results@) =~= results@);
            }
            Ok((params, results))
        },
    }
}

/// Reads a memory type.
pub fn decode_memory_type(decoder: &mut Decoder) -> (r: DecoderResult<MemoryType>)
    ensures
        reads(
            *old(decoder),
            *final(decoder),
            r,
            memory_type_at(old(decoder).bytes@, old(decoder).offset as int),
        ),
{
    let limits = decode_limits(decoder)?;
    Ok(MemoryType { limits })
}

/// Reads a table type.
pub fn decode_table_type(decoder: &mut Decoder) -> (r: DecoderResult<TableType>)
    ensures
        reads(
            *old(decoder),
            *final(decoder),
            r,
            table_type_at(old(decoder).bytes@, old(decoder).offset as int),
        ),
{
    match decoder.pick_byte() {
        None => Err(decoder.produce_error(UNEXPECTED_END)),
        Some(kind) => {
            if kind != 0x70 {
                return Err(decoder.produce_error(INVALID_ELEMENT_TYPE));
            }
            decoder.step();
            let limits = decode_limits(decoder)?;
            Ok(TableType { limits, element_type: ElementType::FuncRef })
        },
    }
}

/// Reads a global type.
pub fn decode_global_type(decoder: &mut Decoder) -> (r: DecoderResult<GlobalType>)
    ensures
        reads(
            *old(decoder),
            *final(decoder),
            r,
            global_type_at(old(decoder).bytes@, old(decoder).offset as int),
        ),
{
    let value_type = decode_value_type(decoder)?;
    match decoder.pick_byte() {
        None => Err(decoder.produce_error(UNEXPECTED_END)),
        Some(flag) => {
            let mutability = if flag == 0x00 {
                GlobalTypeMutability::Const
            } else if flag == 0x01 {
                GlobalTypeMutability::Var
            } else {
                return Err(decoder.produce_error(INVALID_MUTABILITY));
            };
            decoder.step();
            Ok(GlobalType { value_type, mutability })
        },
    }
}

/// Reads a block type.
pub fn decode_block_type(decoder: &mut Decoder) -> (r: DecoderResult<BlockType>)
    ensures
        reads(
            *old(decoder),
            *final(decoder),
            r,
            block_type_at(old(decoder).bytes@, old(decoder).offset as int),
        ),
{
    if decoder.match_byte(0x40) {
        Ok(BlockType::Void)
    } else {
        let value_type = decode_value_type(decoder)?;
        Ok(BlockType::Return(value_type))
    }
}

/// Reads a memory argument.
pub fn decode_memory_arg(decoder: &mut Decoder) -> (r: DecoderResult<MemoryArg>)
    ensures
        reads(
            *old(decoder),
            *final(decoder),
            r,
            memory_arg_at(old(decoder).bytes@, old(decoder).offset as int),
        ),
{
    let align = decode_u32(decoder)?;
    let offset = decode_u32(decoder)?;
    Ok(MemoryArg { align, offset })
}

impl Item for ValueType {
    open spec fn at(bytes: Seq<u8>, pos: int) -> Parse<ValueType> {
        value_type_at(bytes, pos)
    }

    fn decode(decoder: &mut Decoder) -> (r: DecoderResult<ValueType>) {
        decode_value_type(decoder)
    }
}

impl Item for FunctionType {
    open spec fn at(bytes: Seq<u8>, pos: int) -> Parse<(Seq<ValueType>, Seq<ValueType>)> {
        function_type_at(bytes, pos)
    }

    fn decode(decoder: &mut Decoder) -> (r: DecoderResult<FunctionType>) {
        decode_function_type(decoder)
    }
}

} // verus!
