//! Instructions and expressions, with the bodies nested in `block`, `loop` and `if`.

use crate::decoder::cursor::{
    after, byte_at, fault, reads, repeat_at, viewed, Decoder, DecoderResult, Fault, Parse,
    UNEXPECTED_END,
};
use crate::decoder::types::{block_type_at, decode_block_type, decode_memory_arg, memory_arg_at};
use crate::decoder::values::{
    decode_f32, decode_f64, decode_i32, decode_i64, decode_u32, f32_at, f64_at, i32_at, i64_at,
    lemma_signed_leb128_bound, lemma_unsigned_leb128_bound, u32_at,
};
use crate::decoder::vectors::{decode_vector, item_reader, items_at};
use crate::types::{
    instruction_views, lemma_instruction_views_push, views, Expression, Immediate, Instruction,
    InstructionView, MemoryArg,
};
use vstd::prelude::*;

verus! {

// The messages of the faults in instructions.
pub const INVALID_INSTRUCTION: &'static str = "Invalid instruction";
pub const INVALID_CALL_INDIRECT: &'static str =
    "Invalid reserved byte after call_indirect instruction";
pub const INVALID_MEMORY_SIZE: &'static str =
    "Invalid reserved byte after memory_size instruction";
pub const INVALID_MEMORY_GROW: &'static str =
    "Invalid reserved byte after memory_grow instruction";

/// The opcodes that nothing follows.
pub open spec fn is_plain_opcode(opcode: u8) -> bool {
    opcode <= 0x01 || opcode == 0x0F || opcode == 0x1A || opcode == 0x1B || 0x45 <= opcode
        <= 0xBF
}

/// The opcodes that one index follows.
pub open spec fn is_index_opcode(opcode: u8) -> bool {
    opcode == 0x0C || opcode == 0x0D || opcode == 0x10 || 0x20 <= opcode <= 0x24
}

/// The opcodes of the loads and stores, which a memory argument follows.
pub open spec fn is_memory_opcode(opcode: u8) -> bool {
    0x28 <= opcode <= 0x3E
}

/// The reserved zero byte at `pos`; anything else there, or nothing, is a fault with
/// `message`.
pub open spec fn reserved_at(bytes: Seq<u8>, pos: int, message: &str) -> Parse<()> {
    if 0 <= pos < bytes.len() && bytes[pos] == 0x00 {
        Ok(((), pos + 1))
    } else {
        fault(pos, message)
    }
}

/// What follows the opcode `opcode`, which stands at `pos - 1`, for every opcode but
/// those of `block`, `loop` and `if`.
pub open spec fn flat_immediate_at(bytes: Seq<u8>, pos: int, opcode: u8) -> Parse<Immediate> {
    if is_plain_opcode(opcode) {
        Ok((Immediate::Nothing, pos))
    } else if is_index_opcode(opcode) {
        match u32_at(bytes, pos) {
            Err(f) => Err(f),
            Ok((index, end)) => Ok((Immediate::Index(index), end)),
        }
    } else if opcode == 0x0E {
        match items_at::<u32>(bytes, pos) {
            Err(f) => Err(f),
            Ok((labels, last)) => match u32_at(bytes, last) {
                Err(f) => Err(f),
                Ok((default, end)) => Ok((Immediate::Table(labels, default), end)),
            },
        }
    } else if opcode == 0x11 {
        match u32_at(bytes, pos) {
            Err(f) => Err(f),
            Ok((index, reserved)) => match reserved_at(bytes, reserved, INVALID_CALL_INDIRECT) {
                Err(f) => Err(f),
                Ok((_, end)) => Ok((Immediate::Index(index), end)),
            },
        }
    } else if is_memory_opcode(opcode) {
        match memory_arg_at(bytes, pos) {
            Err(f) => Err(f),
            Ok((arg, end)) => Ok((Immediate::Memory(arg), end)),
        }
    } else if opcode == 0x3F {
        match reserved_at(bytes, pos, INVALID_MEMORY_SIZE) {
            Err(f) => Err(f),
            Ok((_, end)) => Ok((Immediate::Nothing, end)),
        }
    } else if opcode == 0x40 {
        match reserved_at(bytes, pos, INVALID_MEMORY_GROW) {
            Err(f) => Err(f),
            Ok((_, end)) => Ok((Immediate::Nothing, end)),
        }
    } else if opcode == 0x41 {
        match i32_at(bytes, pos) {
            Err(f) => Err(f),
            Ok((value, end)) => Ok((Immediate::I32(value), end)),
        }
    } else if opcode == 0x42 {
        match i64_at(bytes, pos) {
            Err(f) => Err(f),
            Ok((value, end)) => Ok((Immediate::I64(value), end)),
        }
    } else if opcode == 0x43 {
        match f32_at(bytes, pos) {
            Err(f) => Err(f),
            Ok((bits, end)) => Ok((Immediate::F32(bits), end)),
        }
    } else if opcode == 0x44 {
        match f64_at(bytes, pos) {
            Err(f) => Err(f),
            Ok((bits, end)) => Ok((Immediate::F64(bits), end)),
        }
    } else {
        fault(pos - 1, INVALID_INSTRUCTION)
    }
}

/// The instruction at `pos`: an opcode and what follows it. A `block` or a `loop` holds a
/// block type and a body up to `end` (0x0B); an `if` holds a block type, a body up to
/// `else` (0x05) or `end`, and behind `else` a second body up to `end`.
pub open spec fn instruction_at(bytes: Seq<u8>, pos: int) -> Parse<InstructionView>
    decreases bytes.len() - pos, 0nat,
{
    match byte_at(bytes, pos) {
        Err(f) => Err(f),
        Ok((opcode, next)) => {
            if opcode == 0x02 || opcode == 0x03 {
                match block_type_at(bytes, next) {
                    Err(f) => Err(f),
                    Ok((block_type, start)) => match body_at(bytes, start, false) {
                        Err(f) => Err(f),
                        Ok((body, end)) => Ok(
                            (
                                InstructionView {
                                    opcode,
                                    immediate: Immediate::Block(block_type, body),
                                },
                                end + 1,
                            ),
                        ),
                    },
                }
            } else if opcode == 0x04 {
                match block_type_at(bytes, next) {
                    Err(f) => Err(f),
                    Ok((block_type, start)) => match body_at(bytes, start, true) {
                        Err(f) => Err(f),
                        Ok((then_body, stop)) => {
                            if pos < stop < bytes.len() && bytes[stop] == 0x05 {
                                match body_at(bytes, stop + 1, false) {
                                    Err(f) => Err(f),
                                    Ok((else_body, end)) => Ok(
                                        (
                                            InstructionView {
                                                opcode,
                                                immediate: Immediate::If(
                                                    block_type,
                                                    then_body,
                                                    Some(else_body),
                                                ),
                                            },
                                            end + 1,
                                        ),
                                    ),
                                }
                            } else {
                                Ok(
                                    (
                                        InstructionView {
                                            opcode,
                                            immediate: Immediate::If(block_type, then_body, None),
                                        },
                                        stop + 1,
                                    ),
                                )
                            }
                        },
                    },
                }
            } else {
                match flat_immediate_at(bytes, next, opcode) {
                    Err(f) => Err(f),
                    Ok((immediate, end)) => Ok((InstructionView { opcode, immediate }, end)),
                }
            }
        },
    }
}

/// The instructions from `pos` up to the byte that closes them, which is `end` (0x0B),
/// or inside the first body of an `if` also `else` (0x05). The position that comes back
/// is that of the closing byte.
///
/// The tests `pos < next <= bytes.len()` here and `pos < stop < bytes.len()` in
/// [`instruction_at`] make the two definitions well founded. They always hold: see
/// [`lemma_instruction_advances`] and [`lemma_body_advances`].
pub open spec fn body_at(bytes: Seq<u8>, pos: int, in_if: bool) -> Parse<Seq<InstructionView>>
    decreases bytes.len() - pos, 1nat,
{
    if !(0 <= pos < bytes.len()) {
        fault(pos, UNEXPECTED_END)
    } else if bytes[pos] == 0x0B || (in_if && bytes[pos] == 0x05) {
        Ok((Seq::empty(), pos))
    } else {
        match instruction_at(bytes, pos) {
            Err(f) => Err(f),
            Ok((first, next)) => {
                if pos < next <= bytes.len() {
                    match body_at(bytes, next, in_if) {
                        Err(f) => Err(f),
                        Ok((rest, end)) => Ok((seq![first] + rest, end)),
                    }
                } else {
                    fault(pos, INVALID_INSTRUCTION)
                }
            },
        }
    }
}

/// The expression at `pos`: instructions, then `end`.
pub open spec fn expression_at(bytes: Seq<u8>, pos: int) -> Parse<Seq<InstructionView>> {
    match body_at(bytes, pos, false) {
        Err(f) => Err(f),
        Ok((body, end)) => Ok((body, end + 1)),
    }
}

/// The result of a reader of instruction sequences, each instruction replaced by its model.
pub open spec fn viewed_instructions(got: DecoderResult<Vec<Instruction>>) -> DecoderResult<
    Seq<InstructionView>,
> {
    match got {
        Ok(instructions) => Ok(instruction_views(instructions@)),
        Err(error) => Err(error),
    }
}

/// `count` items end where they start or behind, within the input, when each item does.
pub proof fn lemma_u32s_advance(bytes: Seq<u8>, pos: int, count: nat)
    requires
        0 <= pos <= bytes.len(),
    ensures
        repeat_at(bytes, pos, count, item_reader::<u32>()) matches Ok((_, end)) ==> pos <= end
            <= bytes.len(),
    decreases count,
{
    if count > 0 {
        lemma_unsigned_leb128_bound(bytes, pos, 0x1_0000_0000);
        if let Ok((_, next)) = u32_at(bytes, pos) {
            lemma_u32s_advance(bytes, next, (count - 1) as nat);
        }
    }
}

/// An instruction ends behind its start, and a body is closed at or behind its start;
/// both end within the input.
pub proof fn lemma_instruction_advances(bytes: Seq<u8>, pos: int)
    ensures
        instruction_at(bytes, pos) matches Ok((_, next)) ==> pos < next <= bytes.len(),
    decreases bytes.len() - pos, 0nat,
{
    if let Ok((opcode, next)) = byte_at(bytes, pos) {
        if opcode == 0x02 || opcode == 0x03 || opcode == 0x04 {
            if let Ok((_, start)) = block_type_at(bytes, next) {
                lemma_body_advances(bytes, start, opcode == 0x04);
                if let Ok((_, stop)) = body_at(bytes, start, opcode == 0x04) {
                    if opcode == 0x04 && bytes[stop] == 0x05 {
                        lemma_body_advances(bytes, stop + 1, false);
                    }
                }
            }
        } else {
            lemma_unsigned_leb128_bound(bytes, next, 0x1_0000_0000);
            lemma_signed_leb128_bound(bytes, next, 0x8000_0000);
            lemma_signed_leb128_bound(bytes, next, 0x8000_0000_0000_0000);
            reveal_with_fuel(crate::decoder::values::little_endian_at, 9);
            if let Ok((first, after_first)) = u32_at(bytes, next) {
                lemma_unsigned_leb128_bound(bytes, after_first, 0x1_0000_0000);
                lemma_u32s_advance(bytes, after_first, first as nat);
                let labels = repeat_at(bytes, after_first, first as nat, item_reader::<u32>());
                if let Ok((_, last)) = labels {
                    lemma_unsigned_leb128_bound(bytes, last, 0x1_0000_0000);
                }
            }
        }
    }
}

/// See [`lemma_instruction_advances`].
pub proof fn lemma_body_advances(bytes: Seq<u8>, pos: int, in_if: bool)
    ensures
        body_at(bytes, pos, in_if) matches Ok((_, end)) ==> pos <= end < bytes.len() && (
        bytes[end] == 0x0B || (in_if && bytes[end] == 0x05)),
    decreases bytes.len() - pos, 1nat,
{
    if 0 <= pos < bytes.len() && !(bytes[pos] == 0x0B || (in_if && bytes[pos] == 0x05)) {
        lemma_instruction_advances(bytes, pos);
        if let Ok((_, next)) = instruction_at(bytes, pos) {
            lemma_body_advances(bytes, next, in_if);
        }
    }
}

/// Reading one more instruction of a body: a fault there is the fault of the body, and an
/// instruction goes behind what has been read.
pub proof fn lemma_body_step(bytes: Seq<u8>, pos: int, in_if: bool, done: Seq<InstructionView>)
    requires
        0 <= pos < bytes.len(),
        !(bytes[pos] == 0x0B || (in_if && bytes[pos] == 0x05)),
    ensures
        match instruction_at(bytes, pos) {
            Err(f) => after(done, body_at(bytes, pos, in_if)) == Err::<
                (Seq<InstructionView>, int),
                Fault,
            >(f),
            Ok((first, next)) => after(done, body_at(bytes, pos, in_if)) == after(
                done.push(first),
                body_at(bytes, next, in_if),
            ),
        },
{
    lemma_instruction_advances(bytes, pos);
    if let Ok((first, next)) = instruction_at(bytes, pos) {
        if let Ok((rest, end)) = body_at(bytes, next, in_if) {
            assert(done + (seq![first] + rest) =~= done.push(first) + rest);
        }
    }
}

/// The instruction of a plain opcode.
pub fn plain_instruction(opcode: u8) -> (r: Option<Instruction>)
    ensures
        r is Some <==> is_plain_opcode(opcode),
        r matches Some(instruction) ==> instruction@ == (InstructionView {
            opcode,
            immediate: Immediate::Nothing,
        }),
{
    Some(
        match opcode {
            0x00 => Instruction::Unreachable,
            0x01 => Instruction::Nop,
            0x0F => Instruction::Return,
            0x1A => Instruction::Drop,
            0x1B => Instruction::Select,
            0x45 => Instruction::I32Eqz,
            0x46 => Instruction::I32Eq,
            0x47 => Instruction::I32Ne,
            0x48 => Instruction::I32LtS,
            0x49 => Instruction::I32LtU,
            0x4A => Instruction::I32GtS,
            0x4B => Instruction::I32GtU,
            0x4C => Instruction::I32LeS,
            0x4D => Instruction::I32LeU,
            0x4E => Instruction::I32GeS,
            0x4F => Instruction::I32GeU,
            0x50 => Instruction::I64Eqz,
            0x51 => Instruction::I64Eq,
            0x52 => Instruction::I64Ne,
            0x53 => Instruction::I64LtS,
            0x54 => Instruction::I64LtU,
            0x55 => Instruction::I64GtS,
            0x56 => Instruction::I64GtU,
            0x57 => Instruction::I64LeS,
            0x58 => Instruction::I64LeU,
            0x59 => Instruction::I64GeS,
            0x5A => Instruction::I64GeU,
            0x5B => Instruction::F32Eq,
            0x5C => Instruction::F32Ne,
            0x5D => Instruction::F32Lt,
            0x5E => Instruction::F32Gt,
            0x5F => Instruction::F32Le,
            0x60 => Instruction::F32Ge,
            0x61 => Instruction::F64Eq,
            0x62 => Instruction::F64Ne,
            0x63 => Instruction::F64Lt,
            0x64 => Instruction::F64Gt,
            0x65 => Instruction::F64Le,
            0x66 => Instruction::F64Ge,
            0x67 => Instruction::I32Clz,
            0x68 => Instruction::I32Ctz,
            0x69 => Instruction::I32Popcnt,
            0x6A => Instruction::I32Add,
            0x6B => Instruction::I32Sub,
            0x6C => Instruction::I32Mul,
            0x6D => Instruction::I32DivS,
            0x6E => Instruction::I32DivU,
            0x6F => Instruction::I32RemS,
            0x70 => Instruction::I32RemU,
            0x71 => Instruction::I32And,
            0x72 => Instruction::I32Or,
            0x73 => Instruction::I32Xor,
            0x74 => Instruction::I32Shl,
            0x75 => Instruction::I32ShrS,
            0x76 => Instruction::I32ShrU,
            0x77 => Instruction::I32Rotl,
            0x78 => Instruction::I32Rotr,
            0x79 => Instruction::I64Clz,
            0x7A => Instruction::I64Ctz,
            0x7B => Instruction::I64Popcnt,
            0x7C => Instruction::I64Add,
            0x7D => Instruction::I64Sub,
            0x7E => Instruction::I64Mul,
            0x7F => Instruction::I64DivS,
            0x80 => Instruction::I64DivU,
            0x81 => Instruction::I64RemS,
            0x82 => Instruction::I64RemU,
            0x83 => Instruction::I64And,
            0x84 => Instruction::I64Or,
            0x85 => Instruction::I64Xor,
            0x86 => Instruction::I64Shl,
            0x87 => Instruction::I64ShrS,
            0x88 => Instruction::I64ShrU,
            0x89 => Instruction::I64Rotl,
            0x8A => Instruction::I64Rotr,
            0x8B => Instruction::F32Abs,
            0x8C => Instruction::F32Neg,
            0x8D => Instruction::F32Ceil,
            0x8E => Instruction::F32Floor,
            0x8F => Instruction::F32Trunc,
            0x90 => Instruction::F32Nearest,
            0x91 => Instruction::F32Sqrt,
            0x92 => Instruction::F32Add,
            0x93 => Instruction::F32Sub,
            0x94 => Instruction::F32Mul,
            0x95 => Instruction::F32Div,
            0x96 => Instruction::F32Min,
            0x97 => Instruction::F32Max,
            0x98 => Instruction::F32CopySign,
            0x99 => Instruction::F64Abs,
            0x9A => Instruction::F64Neg,
            0x9B => Instruction::F64Ceil,
            0x9C => Instruction::F64Floor,
            0x9D => Instruction::F64Trunc,
            0x9E => Instruction::F64Nearest,
            0x9F => Instruction::F64Sqrt,
            0xA0 => Instruction::F64Add,
            0xA1 => Instruction::F64Sub,
            0xA2 => Instruction::F64Mul,
            0xA3 => Instruction::F64Div,
            0xA4 => Instruction::F64Min,
            0xA5 => Instruction::F64Max,
            0xA6 => Instruction::F64CopySign,
            0xA7 => Instruction::I32WrapI64,
            0xA8 => Instruction::I32TruncSF32,
            0xA9 => Instruction::I32TruncUF32,
            0xAA => Instruction::I32TruncSF64,
            0xAB => Instruction::I32TruncUF64,
            0xAC => Instruction::I64ExtendSI32,
            0xAD => Instruction::I64ExtendUI32,
            0xAE => Instruction::I64TruncSF32,
            0xAF => Instruction::I64TruncUF32,
            0xB0 => Instruction::I64TruncSF64,
            0xB1 => Instruction::I64TruncUF64,
            0xB2 => Instruction::F32ConvertSI32,
            0xB3 => Instruction::F32ConvertUI32,
            0xB4 => Instruction::F32ConvertSI64,
            0xB5 => Instruction::F32ConvertUI64,
            0xB6 => Instruction::F32DemoteF64,
            0xB7 => Instruction::F64ConvertSI32,
            0xB8 => Instruction::F64ConvertUI32,
            0xB9 => Instruction::F64ConvertSI64,
            0xBA => Instruction::F64ConvertUI64,
            0xBB => Instruction::F64PromoteF32,
            0xBC => Instruction::I32ReinterpretF32,
            0xBD => Instruction::I64ReinterpretF64,
            0xBE => Instruction::F32ReinterpretI32,
            0xBF => Instruction::F64ReinterpretI64,
            _ => {
                return None;
            },
        },
    )
}

/// The load or store of a memory opcode.
pub fn memory_instruction(opcode: u8, arg: MemoryArg) -> (r: Option<Instruction>)
    ensures
        r is Some <==> is_memory_opcode(opcode),
        r matches Some(instruction) ==> instruction@ == (InstructionView {
            opcode,
            immediate: Immediate::Memory(arg),
        }),
{
    Some(
        match opcode {
            0x28 => Instruction::I32Load(arg),
            0x29 => Instruction::I64Load(arg),
            0x2A => Instruction::F32Load(arg),
            0x2B => Instruction::F64Load(arg),
            0x2C => Instruction::I32Load8S(arg),
            0x2D => Instruction::I32Load8U(arg),
            0x2E => Instruction::I32Load16S(arg),
            0x2F => Instruction::I32Load16U(arg),
            0x30 => Instruction::I64Load8S(arg),
            0x31 => Instruction::I64Load8U(arg),
            0x32 => Instruction::I64Load16S(arg),
            0x33 => Instruction::I64Load16U(arg),
            0x34 => Instruction::I64Load32S(arg),
            0x35 => Instruction::I64Load32U(arg),
            0x36 => Instruction::I32Store(arg),
            0x37 => Instruction::I64Store(arg),
            0x38 => Instruction::F32Store(arg),
            0x39 => Instruction::F64Store(arg),
            0x3A => Instruction::I32Store8(arg),
            0x3B => Instruction::I32Store16(arg),
            0x3C => Instruction::I64Store8(arg),
            0x3D => Instruction::I64Store16(arg),
            0x3E => Instruction::I64Store32(arg),
            _ => {
                return None;
            },
        },
    )
}

/// The instruction of an opcode that one index follows.
pub fn index_instruction(opcode: u8, index: u32) -> (r: Option<Instruction>)
    ensures
        r is Some <==> is_index_opcode(opcode),
        r matches Some(instruction) ==> instruction@ == (InstructionView {
            opcode,
            immediate: Immediate::Index(index),
        }),
{
    Some(
        match opcode {
            0x0C => Instruction::Br(index),
            0x0D => Instruction::BrIf(index),
            0x10 => Instruction::Call(index),
            0x20 => Instruction::LocalGet(index),
            0x21 => Instruction::LocalSet(index),
            0x22 => Instruction::LocalTee(index),
            0x23 => Instruction::GlobalGet(index),
            0x24 => Instruction::GlobalSet(index),
            _ => {
                return None;
            },
        },
    )
}

/// Reads the reserved zero byte that follows some instructions.
fn decode_reserved(decoder: &mut Decoder, message: &'static str) -> (r: DecoderResult<()>)
    ensures
        reads(
            *old(decoder),
            *final(decoder),
            r,
            reserved_at(old(decoder).bytes@, old(decoder).offset as int, message),
        ),
{
    if decoder.match_byte(0x00) {
        Ok(())
    } else {
        Err(decoder.produce_error(message))
    }
}

/// Reads the labels of a branch table and its default label.
fn decode_branch_table(decoder: &mut Decoder) -> (r: DecoderResult<Instruction>)
    ensures
        reads(
            *old(decoder),
            *final(decoder),
            viewed(r),
            match flat_immediate_at(old(decoder).bytes@, old(decoder).offset as int, 0x0E) {
                Ok((immediate, end)) => Ok((InstructionView { opcode: 0x0E, immediate }, end)),
                Err(f) => Err(f),
            },
        ),
{
    let labels = decode_vector::<u32>(decoder)?;
    proof {
        assert(views(labels@) =~= labels@);
    }
    let default = decode_u32(decoder)?;
    Ok(Instruction::BrTable(labels, default))
}

/// Reads what follows the opcode of an instruction other than `block`, `loop` and `if`,
/// and gives the instruction. The cursor stands behind the opcode.
fn decode_flat_instruction(decoder: &mut Decoder, opcode: u8) -> (r: DecoderResult<Instruction>)
    requires
        is_plain_opcode(opcode) || is_index_opcode(opcode) || is_memory_opcode(opcode) || (0x3F
            <= opcode <= 0x44) || opcode == 0x0E || opcode == 0x11,
    ensures
        reads(
            *old(decoder),
            *final(decoder),
            viewed(r),
            match flat_immediate_at(old(decoder).bytes@, old(decoder).offset as int, opcode) {
                Ok((immediate, end)) => Ok((InstructionView { opcode, immediate }, end)),
                Err(f) => Err(f),
            },
        ),
{
    if let Some(instruction) = plain_instruction(opcode) {
        return Ok(instruction);
    }
    if opcode == 0x0E {
        return decode_branch_table(decoder);
    }
    if opcode == 0x11 {
        let index = decode_u32(decoder)?;
        decode_reserved(decoder, INVALID_CALL_INDIRECT)?;
        return Ok(Instruction::CallIndirect(index));
    }
    if opcode == 0x3F {
        decode_reserved(decoder, INVALID_MEMORY_SIZE)?;
        return Ok(Instruction::MemorySize);
    }
    if opcode == 0x40 {
        decode_reserved(decoder, INVALID_MEMORY_GROW)?;
        return Ok(Instruction::MemoryGrow);
    }
    if opcode == 0x41 {
        return Ok(Instruction::I32Const(decode_i32(decoder)?));
    }
    if opcode == 0x42 {
        return Ok(Instruction::I64Const(decode_i64(decoder)?));
    }
    if opcode == 0x43 {
        return Ok(Instruction::F32Const(decode_f32(decoder)?));
    }
    if opcode == 0x44 {
        return Ok(Instruction::F64Const(decode_f64(decoder)?));
    }
    if 0x28 <= opcode && opcode <= 0x3E {
        let arg = decode_memory_arg(decoder)?;
        match memory_instruction(opcode, arg) {
            Some(instruction) => Ok(instruction),
            None => vstd::pervasive::unreached(),
        }
    } else {
        let index = decode_u32(decoder)?;
        match index_instruction(opcode, index) {
            Some(instruction) => Ok(instruction),
            None => vstd::pervasive::unreached(),
        }
    }
}

/// Whether `opcode` is the opcode of an instruction.
pub fn is_opcode(opcode: u8) -> (r: bool)
    ensures
        r == (is_plain_opcode(opcode) || is_index_opcode(opcode) || is_memory_opcode(opcode) || (
        0x02 <= opcode <= 0x04) || (0x3F <= opcode <= 0x44) || opcode == 0x0E || opcode == 0x11),
{
    opcode <= 0x04 || (0x0C <= opcode && opcode <= 0x11) || opcode == 0x1A || opcode == 0x1B || (
    0x20 <= opcode && opcode <= 0x24) || (0x28 <= opcode && opcode <= 0xBF)
}

/// Reads an instruction, with the instructions nested in it.
pub fn decode_instruction(decoder: &mut Decoder) -> (r: DecoderResult<Instruction>)
    ensures
        reads(
            *old(decoder),
            *final(decoder),
            viewed(r),
            instruction_at(old(decoder).bytes@, old(decoder).offset as int),
        ),
    decreases old(decoder).bytes@.len() - old(decoder).offset, 0nat,
{
    let ghost bytes = decoder.bytes@;
    let opcode = match decoder.pick_byte() {
        Some(opcode) => opcode,
        None => {
            return Err(decoder.produce_error(UNEXPECTED_END));
        },
    };
    if !is_opcode(opcode) {
        return Err(decoder.produce_error(INVALID_INSTRUCTION));
    }
    decoder.step();
    if opcode == 0x02 || opcode == 0x03 {
        let block_type = decode_block_type(decoder)?;
        proof {
            lemma_body_advances(bytes, decoder.offset as int, false);
        }
        let body = decode_body(decoder, false)?;
        decoder.step();
        if opcode == 0x02 {
            Ok(Instruction::Block(block_type, body))
        } else {
            Ok(Instruction::Loop(block_type, body))
        }
    } else if opcode == 0x04 {
        let block_type = decode_block_type(decoder)?;
        proof {
            lemma_body_advances(bytes, decoder.offset as int, true);
        }
        let then_body = decode_body(decoder, true)?;
        if decoder.match_byte(0x05) {
            proof {
                lemma_body_advances(bytes, decoder.offset as int, false);
            }
            let else_body = decode_body(decoder, false)?;
            decoder.step();
            Ok(Instruction::If(block_type, then_body, Some(else_body)))
        } else {
            decoder.step();
            Ok(Instruction::If(block_type, then_body, None))
        }
    } else {
        decode_flat_instruction(decoder, opcode)
    }
}

/// Reads instructions up to the byte that closes them: `end`, or with `in_if` also
/// `else`. The cursor stops at that byte.
#[verifier::loop_isolation(false)]
pub fn decode_body(decoder: &mut Decoder, in_if: bool) -> (r: DecoderResult<Vec<Instruction>>)
    ensures
        reads(
            *old(decoder),
            *final(decoder),
            viewed_instructions(r),
            body_at(old(decoder).bytes@, old(decoder).offset as int, in_if),
        ),
    decreases old(decoder).bytes@.len() - old(decoder).offset, 1nat,
{
    let ghost bytes = decoder.bytes@;
    let ghost start = decoder.offset as int;
    let ghost whole = body_at(bytes, start, in_if);
    let mut instructions: Vec<Instruction> = Vec::new();
    proof {
        assert(instruction_views(instructions@) + whole->Ok_0.0 =~= whole->Ok_0.0);
    }
    loop
        invariant
            decoder.bytes@ == bytes,
            start <= decoder.offset,
            whole == after(
                instruction_views(instructions@),
                body_at(bytes, decoder.offset as int, in_if),
            ),
        decreases bytes.len() - decoder.offset,
    {
        match decoder.pick_byte() {
            None => {
                return Err(decoder.produce_error(UNEXPECTED_END));
            },
            Some(byte) => {
                if byte == 0x0B || (in_if && byte == 0x05) {
                    proof {
                        assert(instruction_views(instructions@) + Seq::<InstructionView>::empty()
                            =~= instruction_views(instructions@));
                    }
                    return Ok(instructions);
                }
                proof {
                    lemma_body_step(
                        bytes,
                        decoder.offset as int,
                        in_if,
                        instruction_views(instructions@),
                    );
                    lemma_instruction_advances(bytes, decoder.offset as int);
                }
                let instruction = decode_instruction(decoder)?;
                proof {
                    lemma_instruction_views_push(instructions@, instruction);
                }
                instructions.push(instruction);
            },
        }
    }
}

/// Reads an expression: instructions up to `end`, and `end` itself.
pub fn decode_expression(decoder: &mut Decoder) -> (r: DecoderResult<Expression>)
    ensures
        reads(
            *old(decoder),
            *final(decoder),
            viewed_instructions(r),
            expression_at(old(decoder).bytes@, old(decoder).offset as int),
        ),
{
    proof {
        lemma_body_advances(decoder.bytes@, decoder.offset as int, false);
    }
    let body = decode_body(decoder, false)?;
    decoder.step();
    Ok(body)
}

} // verus!
