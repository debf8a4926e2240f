//! The rules for instructions: the validation algorithm over a stack of operands and a
//! stack of control frames.

use crate::types::{
    instruction_views, lemma_views_push, views, BlockType, Expression, GlobalTypeMutability,
    Immediate, Instruction, InstructionView, MemoryArg, ValueType,
};
use crate::validation::validation::{
    broken, entry, finds, first_broken, lemma_first_broken_step, Context, ContextView,
    ValidationError, ValidationResult, Verdict, INVALID_FUNCTION_REFERENCE,
    INVALID_FUNCTION_TYPE_REFERENCE, INVALID_GLOBAL_REFERENCE, INVALID_LOCAL_REFERENCE,
    INVALID_MEMORY_REFERENCE, INVALID_TABLE_REFERENCE,
};
use vstd::arithmetic::power2::pow2;
use vstd::prelude::*;
use vstd::string::StringExecFns;

verus! {

// The messages of the rules for instructions.
pub const EMPTY_FRAME_STACK: &'static str = "Unexpected empty frame stack";
pub const STACK_UNDERFLOW: &'static str = "stack underflow";
pub const MISMATCHING_TYPE: &'static str = "Mismatching type. Expected ";
pub const BUT_RECEIVED: &'static str = " but received ";
pub const MISMATCHING_FRAME_HEIGHT: &'static str = "Mismatching frame height";
pub const INVALID_LABEL_REFERENCE: &'static str = "Invalid label reference";
pub const MISMATCHING_LABEL_TYPES: &'static str = "Mismatching br_table label types";
pub const INVALID_SELECT: &'static str = "Invalid select instruction argument";
pub const INVALID_GLOBAL_SET: &'static str = "Invalid global.set on a non variable global";
pub const INVALID_ALIGNMENT: &'static str = "Invalid memory alignment";
pub const INVALID_IF: &'static str = "Invalid if without else";
pub const INVALID_CONSTANT: &'static str = "Invalid instruction in constant expression";

/// An entry of the operand stack: a value of a known type, or a value of any type, which
/// is what code that is never reached works on.
#[derive(Debug, Copy, Clone, PartialEq, Eq, Structural)]
pub enum Operand {
    Value(ValueType),
    Unknown,
}

/// A frame of the control stack.
#[derive(Debug)]
pub struct ControlFrame {
    /// The types that a branch to the frame takes.
    pub label_types: Vec<ValueType>,
    /// The types that are on the stack when the frame ends.
    pub end_types: Vec<ValueType>,
    /// The height of the operand stack when the frame was entered.
    pub height: usize,
    /// Whether the rest of the frame is never reached.
    pub unreachable: bool,
}

/// The model of a [`ControlFrame`].
pub struct FrameView {
    pub label_types: Seq<ValueType>,
    pub end_types: Seq<ValueType>,
    pub height: nat,
    pub unreachable: bool,
}

impl View for ControlFrame {
    type V = FrameView;

    open spec fn view(&self) -> FrameView {
        FrameView {
            label_types: self.label_types@,
            end_types: self.end_types@,
            height: self.height as nat,
            unreachable: self.unreachable,
        }
    }
}

/// The two stacks that the instructions of an expression are checked against.
#[derive(Debug)]
pub struct ExpressionContext {
    pub operands: Vec<Operand>,
    pub frames: Vec<ControlFrame>,
}

/// The model of an [`ExpressionContext`].
pub struct Stacks {
    pub operands: Seq<Operand>,
    pub frames: Seq<FrameView>,
}

impl View for ExpressionContext {
    type V = Stacks;

    open spec fn view(&self) -> Stacks {
        Stacks {
            operands: self.operands@,
            frames: views(self.frames@),
        }
    }
}

/// A broken rule: its message, and the stacks as they were when it was found broken.
pub struct Failure {
    pub message: Seq<char>,
    pub stacks: Stacks,
}

/// What a rule leaves: the stacks behind it, or the rule that is broken.
pub type Step = Result<Stacks, Failure>;

/// What a rule that takes an operand leaves: the operand and the stacks behind it.
pub type Popped = Result<(Operand, Stacks), Failure>;

/// The rule with `message` is broken on `stacks`.
pub open spec fn fails<T>(message: &str, stacks: Stacks) -> Result<T, Failure> {
    Err(Failure { message: message@, stacks })
}

/// The value types as operands.
pub open spec fn values(types: Seq<ValueType>) -> Seq<Operand> {
    Seq::new(types.len(), |i: int| Operand::Value(types[i]))
}

/// The result types of a block type.
pub open spec fn block_results(block_type: BlockType) -> Seq<ValueType> {
    match block_type {
        BlockType::Void => Seq::empty(),
        BlockType::Return(value_type) => seq![value_type],
    }
}

/// How an operand is written in a message.
pub open spec fn operand_name(operand: Operand) -> Seq<char> {
    match operand {
        Operand::Value(ValueType::I32) => "Value(I32)"@,
        Operand::Value(ValueType::I64) => "Value(I64)"@,
        Operand::Value(ValueType::F32) => "Value(F32)"@,
        Operand::Value(ValueType::F64) => "Value(F64)"@,
        Operand::Unknown => "Unknown"@,
    }
}

/// The message for an operand of another type than the one expected.
pub open spec fn mismatch_message(expected: Operand, actual: Operand) -> Seq<char> {
    MISMATCHING_TYPE@ + operand_name(expected) + BUT_RECEIVED@ + operand_name(actual)
}

/// The stacks with `operand` on top.
pub open spec fn push_operand(stacks: Stacks, operand: Operand) -> Stacks {
    Stacks { operands: stacks.operands.push(operand), ..stacks }
}

/// The stacks with `operands` on top, the last one topmost.
pub open spec fn push_operands(stacks: Stacks, operands: Seq<Operand>) -> Stacks {
    Stacks { operands: stacks.operands + operands, ..stacks }
}

/// Taking the top operand. At the height at which the top frame was entered nothing can
/// be taken, unless the frame is unreachable: then an operand of any type is there.
pub open spec fn pop_operand(stacks: Stacks) -> Popped {
    if stacks.frames.len() == 0 {
        fails(EMPTY_FRAME_STACK, stacks)
    } else if stacks.operands.len() <= stacks.frames.last().height {
        if stacks.frames.last().unreachable {
            Ok((Operand::Unknown, stacks))
        } else {
            fails(STACK_UNDERFLOW, stacks)
        }
    } else {
        Ok((stacks.operands.last(), Stacks { operands: stacks.operands.drop_last(), ..stacks }))
    }
}

/// Taking the top operand, which has to be `expected`. An operand of any type stands for
/// the expected one, and where any type is expected, the operand is what it is.
pub open spec fn pop_operand_expected(stacks: Stacks, expected: Operand) -> Popped {
    match pop_operand(stacks) {
        Err(failure) => Err(failure),
        Ok((actual, rest)) => {
            if actual == Operand::Unknown {
                Ok((expected, rest))
            } else if expected == Operand::Unknown {
                Ok((actual, rest))
            } else if actual != expected {
                Err(Failure { message: mismatch_message(expected, actual), stacks: rest })
            } else {
                Ok((actual, rest))
            }
        },
    }
}

/// Taking the operands `expected`, the last one first.
pub open spec fn pop_operands(stacks: Stacks, expected: Seq<Operand>) -> Step
    decreases expected.len(),
{
    if expected.len() == 0 {
        Ok(stacks)
    } else {
        match pop_operand_expected(stacks, expected.last()) {
            Err(failure) => Err(failure),
            Ok((_, rest)) => pop_operands(rest, expected.drop_last()),
        }
    }
}

/// Entering a frame at the present height.
pub open spec fn push_control(
    stacks: Stacks,
    label_types: Seq<ValueType>,
    end_types: Seq<ValueType>,
) -> Stacks {
    Stacks {
        frames: stacks.frames.push(
            FrameView {
                label_types,
                end_types,
                height: stacks.operands.len(),
                unreachable: false,
            },
        ),
        ..stacks
    }
}

/// Leaving the top frame: its end types are taken, the operand stack has to be back at
/// the height at which the frame was entered, and the end types come back.
pub open spec fn pop_control(stacks: Stacks) -> Result<(Seq<ValueType>, Stacks), Failure> {
    if stacks.frames.len() == 0 {
        fails(EMPTY_FRAME_STACK, stacks)
    } else {
        let frame = stacks.frames.last();
        match pop_operands(stacks, values(frame.end_types)) {
            Err(failure) => Err(failure),
            Ok(rest) => {
                if rest.operands.len() != frame.height {
                    fails(MISMATCHING_FRAME_HEIGHT, rest)
                } else {
                    Ok(
                        (
                            frame.end_types,
                            Stacks { operands: rest.operands, frames: rest.frames.drop_last() },
                        ),
                    )
                }
            },
        }
    }
}

/// Marking the rest of the top frame as never reached: the operand stack goes back to
/// the height at which the frame was entered.
pub open spec fn set_unreachable(stacks: Stacks) -> Step {
    if stacks.frames.len() == 0 {
        fails(EMPTY_FRAME_STACK, stacks)
    } else {
        let frame = stacks.frames.last();
        Ok(
            Stacks {
                operands: if stacks.operands.len() > frame.height {
                    stacks.operands.take(frame.height as int)
                } else {
                    stacks.operands
                },
                frames: stacks.frames.update(
                    stacks.frames.len() - 1,
                    FrameView { unreachable: true, ..frame },
                ),
            },
        )
    }
}

/// The types that a branch to the label `label` takes: labels count the frames from the
/// top one.
pub open spec fn label_types(stacks: Stacks, label: u32) -> Result<Seq<ValueType>, Seq<char>> {
    if label < stacks.frames.len() {
        Ok(stacks.frames[stacks.frames.len() - 1 - label].label_types)
    } else {
        Err(INVALID_LABEL_REFERENCE@)
    }
}

/// Taking one operand of the type `operand`, or two where `binary` holds, and leaving
/// one of the type `result`.
pub open spec fn after_operator(
    stacks: Stacks,
    operand: ValueType,
    binary: bool,
    result: ValueType,
) -> Step {
    match pop_operand_expected(stacks, Operand::Value(operand)) {
        Err(failure) => Err(failure),
        Ok((_, first)) => {
            if binary {
                match pop_operand_expected(first, Operand::Value(operand)) {
                    Err(failure) => Err(failure),
                    Ok((_, second)) => Ok(push_operand(second, Operand::Value(result))),
                }
            } else {
                Ok(push_operand(first, Operand::Value(result)))
            }
        },
    }
}

/// The type of a numeric operator: the type of its operands, whether it takes two, and
/// the type of its result.
pub open spec fn operator_type(opcode: u8) -> Option<(ValueType, bool, ValueType)> {
    if opcode == 0x45 {
        Some((ValueType::I32, false, ValueType::I32))
    } else if 0x46 <= opcode <= 0x4F {
        Some((ValueType::I32, true, ValueType::I32))
    } else if opcode == 0x50 {
        Some((ValueType::I64, false, ValueType::I32))
    } else if 0x51 <= opcode <= 0x5A {
        Some((ValueType::I64, true, ValueType::I32))
    } else if 0x5B <= opcode <= 0x60 {
        Some((ValueType::F32, true, ValueType::I32))
    } else if 0x61 <= opcode <= 0x66 {
        Some((ValueType::F64, true, ValueType::I32))
    } else if 0x67 <= opcode <= 0x69 {
        Some((ValueType::I32, false, ValueType::I32))
    } else if 0x6A <= opcode <= 0x78 {
        Some((ValueType::I32, true, ValueType::I32))
    } else if 0x79 <= opcode <= 0x7B {
        Some((ValueType::I64, false, ValueType::I64))
    } else if 0x7C <= opcode <= 0x8A {
        Some((ValueType::I64, true, ValueType::I64))
    } else if 0x8B <= opcode <= 0x91 {
        Some((ValueType::F32, false, ValueType::F32))
    } else if 0x92 <= opcode <= 0x98 {
        Some((ValueType::F32, true, ValueType::F32))
    } else if 0x99 <= opcode <= 0x9F {
        Some((ValueType::F64, false, ValueType::F64))
    } else if 0xA0 <= opcode <= 0xA6 {
        Some((ValueType::F64, true, ValueType::F64))
    } else if opcode == 0xA7 {
        Some((ValueType::I64, false, ValueType::I32))
    } else if opcode == 0xA8 || opcode == 0xA9 {
        Some((ValueType::F32, false, ValueType::I32))
    } else if opcode == 0xAA || opcode == 0xAB {
        Some((ValueType::F64, false, ValueType::I32))
    } else if opcode == 0xAC || opcode == 0xAD {
        Some((ValueType::I32, false, ValueType::I64))
    } else if opcode == 0xAE || opcode == 0xAF {
        Some((ValueType::F32, false, ValueType::I64))
    } else if opcode == 0xB0 || opcode == 0xB1 {
        Some((ValueType::F64, false, ValueType::I64))
    } else if opcode == 0xB2 || opcode == 0xB3 {
        Some((ValueType::I32, false, ValueType::F32))
    } else if opcode == 0xB4 || opcode == 0xB5 {
        Some((ValueType::I64, false, ValueType::F32))
    } else if opcode == 0xB6 {
        Some((ValueType::F64, false, ValueType::F32))
    } else if opcode == 0xB7 || opcode == 0xB8 {
        Some((ValueType::I32, false, ValueType::F64))
    } else if opcode == 0xB9 || opcode == 0xBA {
        Some((ValueType::I64, false, ValueType::F64))
    } else if opcode == 0xBB {
        Some((ValueType::F32, false, ValueType::F64))
    } else if opcode == 0xBC {
        Some((ValueType::F32, false, ValueType::I32))
    } else if opcode == 0xBD {
        Some((ValueType::F64, false, ValueType::I64))
    } else if opcode == 0xBE {
        Some((ValueType::I32, false, ValueType::F32))
    } else if opcode == 0xBF {
        Some((ValueType::I64, false, ValueType::F64))
    } else {
        None
    }
}

/// What a load or a store moves: the type of the value on the stack, and how many bytes
/// of memory.
pub open spec fn access_type(opcode: u8) -> (ValueType, nat) {
    if opcode == 0x28 || opcode == 0x36 {
        (ValueType::I32, 4)
    } else if opcode == 0x29 || opcode == 0x37 {
        (ValueType::I64, 8)
    } else if opcode == 0x2A || opcode == 0x38 {
        (ValueType::F32, 4)
    } else if opcode == 0x2B || opcode == 0x39 {
        (ValueType::F64, 8)
    } else if opcode == 0x2C || opcode == 0x2D || opcode == 0x3A {
        (ValueType::I32, 1)
    } else if opcode == 0x2E || opcode == 0x2F || opcode == 0x3B {
        (ValueType::I32, 2)
    } else if opcode == 0x30 || opcode == 0x31 || opcode == 0x3C {
        (ValueType::I64, 1)
    } else if opcode == 0x32 || opcode == 0x33 || opcode == 0x3D {
        (ValueType::I64, 2)
    } else {
        (ValueType::I64, 4)
    }
}

/// The alignment 2^`align` is more than an access of `width` bytes is wide.
pub open spec fn misaligned(align: u32, width: nat) -> bool {
    pow2(align as nat) > width
}

/// A load: memory 0 has to be there, the alignment may not be more than the access is
/// wide, an `i32` address is taken and the value is left.
pub open spec fn after_load(
    context: ContextView,
    stacks: Stacks,
    arg: MemoryArg,
    value_type: ValueType,
    width: nat,
) -> Step {
    if context.memories.len() == 0 {
        fails(INVALID_MEMORY_REFERENCE, stacks)
    } else if misaligned(arg.align, width) {
        fails(INVALID_ALIGNMENT, stacks)
    } else {
        match pop_operand_expected(stacks, Operand::Value(ValueType::I32)) {
            Err(failure) => Err(failure),
            Ok((_, rest)) => Ok(push_operand(rest, Operand::Value(value_type))),
        }
    }
}

/// A store: as a load, but the value and then the `i32` address are taken, and nothing
/// is left.
pub open spec fn after_store(
    context: ContextView,
    stacks: Stacks,
    arg: MemoryArg,
    value_type: ValueType,
    width: nat,
) -> Step {
    if context.memories.len() == 0 {
        fails(INVALID_MEMORY_REFERENCE, stacks)
    } else if misaligned(arg.align, width) {
        fails(INVALID_ALIGNMENT, stacks)
    } else {
        match pop_operand_expected(stacks, Operand::Value(value_type)) {
            Err(failure) => Err(failure),
            Ok((_, first)) => match pop_operand_expected(first, Operand::Value(ValueType::I32)) {
                Err(failure) => Err(failure),
                Ok((_, second)) => Ok(second),
            },
        }
    }
}

/// A branch to `label`: the types of the label are taken, and the rest of the frame is
/// never reached.
pub open spec fn after_branch(stacks: Stacks, label: u32) -> Step {
    match label_types(stacks, label) {
        Err(message) => Err(Failure { message, stacks }),
        Ok(types) => match pop_operands(stacks, values(types)) {
            Err(failure) => Err(failure),
            Ok(rest) => set_unreachable(rest),
        },
    }
}

/// A branch to `label` under a condition: an `i32` is taken, then the types of the
/// label, which are put back for the case that the branch is not taken.
pub open spec fn after_branch_if(stacks: Stacks, label: u32) -> Step {
    match pop_operand_expected(stacks, Operand::Value(ValueType::I32)) {
        Err(failure) => Err(failure),
        Ok((_, first)) => match label_types(first, label) {
            Err(message) => Err(Failure { message, stacks: first }),
            Ok(types) => match pop_operands(first, values(types)) {
                Err(failure) => Err(failure),
                Ok(rest) => Ok(push_operands(rest, values(types))),
            },
        },
    }
}

/// A label of a branch table has to be there and to take the types `expected`.
pub open spec fn table_label_verdict(
    stacks: Stacks,
    label: u32,
    expected: Seq<ValueType>,
) -> Verdict {
    match label_types(stacks, label) {
        Err(message) => Err(message),
        Ok(types) => {
            if types == expected {
                Ok(())
            } else {
                Err(MISMATCHING_LABEL_TYPES@)
            }
        },
    }
}

/// A branch table: an `i32` is taken; the default label and then each label has to be
/// there, each taking the types that the default label takes; those types are taken, and
/// the rest of the frame is never reached.
pub open spec fn after_branch_table(stacks: Stacks, labels: Seq<u32>, default: u32) -> Step {
    match pop_operand_expected(stacks, Operand::Value(ValueType::I32)) {
        Err(failure) => Err(failure),
        Ok((_, first)) => match label_types(first, default) {
            Err(message) => Err(Failure { message, stacks: first }),
            Ok(types) => match first_broken(
                labels,
                |label: u32| table_label_verdict(first, label, types),
            ) {
                Err(message) => Err(Failure { message, stacks: first }),
                Ok(_) => match pop_operands(first, values(types)) {
                    Err(failure) => Err(failure),
                    Ok(rest) => set_unreachable(rest),
                },
            },
        },
    }
}

/// A return: a branch to the outermost frame.
pub open spec fn after_return(stacks: Stacks) -> Step {
    if stacks.frames.len() == 0 {
        fails(EMPTY_FRAME_STACK, stacks)
    } else {
        match pop_operands(stacks, values(stacks.frames.first().label_types)) {
            Err(failure) => Err(failure),
            Ok(rest) => set_unreachable(rest),
        }
    }
}

/// A call of a function of the type `function_type`: the parameters are taken and the
/// results are left.
pub open spec fn after_call_of(
    stacks: Stacks,
    function_type: (Seq<ValueType>, Seq<ValueType>),
) -> Step {
    match pop_operands(stacks, values(function_type.0)) {
        Err(failure) => Err(failure),
        Ok(rest) => Ok(push_operands(rest, values(function_type.1))),
    }
}

/// A call of the function `function`.
pub open spec fn after_call(context: ContextView, stacks: Stacks, function: u32) -> Step {
    match entry(context.functions, function, INVALID_FUNCTION_REFERENCE) {
        Err(message) => Err(Failure { message, stacks }),
        Ok(type_index) => match entry(
            context.function_types,
            type_index,
            INVALID_FUNCTION_TYPE_REFERENCE,
        ) {
            Err(message) => Err(Failure { message, stacks }),
            Ok(function_type) => after_call_of(stacks, function_type),
        },
    }
}

/// A call through table 0 of a function of the type `type_index`: the table and the type
/// have to be there, an `i32` is taken, then the call is made.
pub open spec fn after_call_indirect(
    context: ContextView,
    stacks: Stacks,
    type_index: u32,
) -> Step {
    if context.tables.len() == 0 {
        fails(INVALID_TABLE_REFERENCE, stacks)
    } else {
        match entry(context.function_types, type_index, INVALID_FUNCTION_TYPE_REFERENCE) {
            Err(message) => Err(Failure { message, stacks }),
            Ok(function_type) => match pop_operand_expected(
                stacks,
                Operand::Value(ValueType::I32),
            ) {
                Err(failure) => Err(failure),
                Ok((_, rest)) => after_call_of(rest, function_type),
            },
        }
    }
}

/// A select: an `i32` is taken, then two operands, which have to be of one type, and one
/// of that type is left.
pub open spec fn after_select(stacks: Stacks) -> Step {
    match pop_operand_expected(stacks, Operand::Value(ValueType::I32)) {
        Err(failure) => Err(failure),
        Ok((_, first)) => match pop_operand(first) {
            Err(failure) => Err(failure),
            Ok((one, second)) => match pop_operand(second) {
                Err(failure) => Err(failure),
                Ok((other, third)) => {
                    if one == Operand::Unknown {
                        Ok(push_operand(third, other))
                    } else if other == Operand::Unknown || other == one {
                        Ok(push_operand(third, one))
                    } else {
                        fails(INVALID_SELECT, third)
                    }
                },
            },
        },
    }
}

/// The rule of an instruction that one index follows.
pub open spec fn after_indexed(
    context: ContextView,
    stacks: Stacks,
    opcode: u8,
    index: u32,
) -> Step {
    if opcode == 0x0C {
        after_branch(stacks, index)
    } else if opcode == 0x0D {
        after_branch_if(stacks, index)
    } else if opcode == 0x10 {
        after_call(context, stacks, index)
    } else if opcode == 0x11 {
        after_call_indirect(context, stacks, index)
    } else if opcode == 0x20 {
        match entry(context.locals, index, INVALID_LOCAL_REFERENCE) {
            Err(message) => Err(Failure { message, stacks }),
            Ok(local) => Ok(push_operand(stacks, Operand::Value(local))),
        }
    } else if opcode == 0x21 {
        match entry(context.locals, index, INVALID_LOCAL_REFERENCE) {
            Err(message) => Err(Failure { message, stacks }),
            Ok(local) => match pop_operand_expected(stacks, Operand::Value(local)) {
                Err(failure) => Err(failure),
                Ok((_, rest)) => Ok(rest),
            },
        }
    } else if opcode == 0x22 {
        match entry(context.locals, index, INVALID_LOCAL_REFERENCE) {
            Err(message) => Err(Failure { message, stacks }),
            Ok(local) => match pop_operand_expected(stacks, Operand::Value(local)) {
                Err(failure) => Err(failure),
                Ok((_, rest)) => Ok(push_operand(rest, Operand::Value(local))),
            },
        }
    } else if opcode == 0x23 {
        match entry(context.globals, index, INVALID_GLOBAL_REFERENCE) {
            Err(message) => Err(Failure { message, stacks }),
            Ok(global) => Ok(push_operand(stacks, Operand::Value(global.value_type))),
        }
    } else {
        match entry(context.globals, index, INVALID_GLOBAL_REFERENCE) {
            Err(message) => Err(Failure { message, stacks }),
            Ok(global) => {
                if global.mutability != GlobalTypeMutability::Var {
                    fails(INVALID_GLOBAL_SET, stacks)
                } else {
                    match pop_operand_expected(stacks, Operand::Value(global.value_type)) {
                        Err(failure) => Err(failure),
                        Ok((_, rest)) => Ok(rest),
                    }
                }
            },
        }
    }
}

/// The rule of an instruction that nothing follows.
pub open spec fn after_plain(context: ContextView, stacks: Stacks, opcode: u8) -> Step {
    if opcode == 0x00 {
        set_unreachable(stacks)
    } else if opcode == 0x01 {
        Ok(stacks)
    } else if opcode == 0x0F {
        after_return(stacks)
    } else if opcode == 0x1A {
        match pop_operand(stacks) {
            Err(failure) => Err(failure),
            Ok((_, rest)) => Ok(rest),
        }
    } else if opcode == 0x1B {
        after_select(stacks)
    } else if opcode == 0x3F {
        if context.memories.len() == 0 {
            fails(INVALID_MEMORY_REFERENCE, stacks)
        } else {
            Ok(push_operand(stacks, Operand::Value(ValueType::I32)))
        }
    } else if opcode == 0x40 {
        if context.memories.len() == 0 {
            fails(INVALID_MEMORY_REFERENCE, stacks)
        } else {
            after_operator(stacks, ValueType::I32, false, ValueType::I32)
        }
    } else {
        match operator_type(opcode) {
            Some((operand, binary, result)) => after_operator(stacks, operand, binary, result),
            None => Ok(stacks),
        }
    }
}

/// The rule of a load or a store.
pub open spec fn after_access(
    context: ContextView,
    stacks: Stacks,
    opcode: u8,
    arg: MemoryArg,
) -> Step {
    if opcode <= 0x35 {
        after_load(context, stacks, arg, access_type(opcode).0, access_type(opcode).1)
    } else {
        after_store(context, stacks, arg, access_type(opcode).0, access_type(opcode).1)
    }
}

/// The stacks behind an instruction, by the rule of the instruction.
pub open spec fn after_instruction(
    context: ContextView,
    stacks: Stacks,
    instruction: InstructionView,
) -> Step
    decreases instruction, 0nat,
{
    match instruction.immediate {
        Immediate::Nothing => after_plain(context, stacks, instruction.opcode),
        Immediate::Index(index) => after_indexed(context, stacks, instruction.opcode, index),
        Immediate::Table(labels, default) => after_branch_table(stacks, labels, default),
        Immediate::Memory(arg) => after_access(context, stacks, instruction.opcode, arg),
        Immediate::I32(_) => Ok(push_operand(stacks, Operand::Value(ValueType::I32))),
        Immediate::I64(_) => Ok(push_operand(stacks, Operand::Value(ValueType::I64))),
        Immediate::F32(_) => Ok(push_operand(stacks, Operand::Value(ValueType::F32))),
        Immediate::F64(_) => Ok(push_operand(stacks, Operand::Value(ValueType::F64))),
        Immediate::Block(block_type, body) => {
            // a branch to a loop goes to its start and takes nothing
            let results = block_results(block_type);
            let labels = if instruction.opcode == 0x03 {
                Seq::empty()
            } else {
                results
            };
            after_frame(context, push_control(stacks, labels, results), body)
        },
        Immediate::If(block_type, then_body, else_body) => {
            let results = block_results(block_type);
            match else_body {
                None => {
                    if block_type != BlockType::Void {
                        fails(INVALID_IF, stacks)
                    } else {
                        match pop_operand_expected(stacks, Operand::Value(ValueType::I32)) {
                            Err(failure) => Err(failure),
                            Ok((_, rest)) => after_frame(
                                context,
                                push_control(rest, results, results),
                                then_body,
                            ),
                        }
                    }
                },
                Some(else_body) => {
                    match pop_operand_expected(stacks, Operand::Value(ValueType::I32)) {
                        Err(failure) => Err(failure),
                        Ok((_, rest)) => match after_instructions(
                            context,
                            push_control(rest, results, results),
                            then_body,
                        ) {
                            Err(failure) => Err(failure),
                            Ok(middle) => match pop_control(middle) {
                                Err(failure) => Err(failure),
                                Ok((_, left)) => after_frame(
                                    context,
                                    push_control(left, results, results),
                                    else_body,
                                ),
                            },
                        },
                    }
                },
            }
        },
    }
}

/// The stacks behind the instructions of a frame that has just been entered: the
/// instructions are followed, the frame is left, and its end types are put on the stack.
pub open spec fn after_frame(
    context: ContextView,
    entered: Stacks,
    body: Seq<InstructionView>,
) -> Step
    decreases body, 1nat,
{
    match after_instructions(context, entered, body) {
        Err(failure) => Err(failure),
        Ok(inside) => match pop_control(inside) {
            Err(failure) => Err(failure),
            Ok((types, outside)) => Ok(push_operands(outside, values(types))),
        },
    }
}

/// The stacks behind a sequence of instructions, one after the other.
pub open spec fn after_instructions(
    context: ContextView,
    stacks: Stacks,
    instructions: Seq<InstructionView>,
) -> Step
    decreases instructions, 0nat,
{
    if instructions.len() == 0 {
        Ok(stacks)
    } else {
        match after_instruction(context, stacks, instructions.first()) {
            Err(failure) => Err(failure),
            Ok(next) => after_instructions(context, next, instructions.drop_first()),
        }
    }
}

/// Taking operands leaves the control stack as it is.
pub proof fn lemma_pop_operands_frames(stacks: Stacks, expected: Seq<Operand>)
    ensures
        pop_operands(stacks, expected) matches Ok(rest) ==> rest.frames == stacks.frames,
    decreases expected.len(),
{
    if expected.len() > 0 {
        if let Ok((_, rest)) = pop_operand_expected(stacks, expected.last()) {
            lemma_pop_operands_frames(rest, expected.drop_last());
        }
    }
}

/// A rule has done what `expected` says: it left the stacks that are expected, or it
/// failed with the expected message.
pub open spec fn steps(after: Stacks, got: ValidationResult, expected: Step) -> bool {
    match expected {
        Ok(stacks) => got is Ok && after == stacks,
        Err(failure) => got is Err && got->Err_0@ == failure.message && after == failure.stacks,
    }
}

/// A rule that takes an operand has done what `expected` says.
pub open spec fn pops(
    after: Stacks,
    got: Result<Operand, ValidationError>,
    expected: Popped,
) -> bool {
    match expected {
        Ok((operand, stacks)) => got == Ok::<Operand, ValidationError>(operand) && after == stacks,
        Err(failure) => got is Err && got->Err_0@ == failure.message && after == failure.stacks,
    }
}

/// How an operand is written in a message.
pub fn operand_text(operand: Operand) -> (text: &'static str)
    ensures
        text@ == operand_name(operand),
{
    match operand {
        Operand::Value(ValueType::I32) => "Value(I32)",
        Operand::Value(ValueType::I64) => "Value(I64)",
        Operand::Value(ValueType::F32) => "Value(F32)",
        Operand::Value(ValueType::F64) => "Value(F64)",
        Operand::Unknown => "Unknown",
    }
}

/// The error for an operand of another type than the one expected.
pub fn mismatch(expected: Operand, actual: Operand) -> (error: ValidationError)
    ensures
        error@ == mismatch_message(expected, actual),
{
    let message = String::from_str(MISMATCHING_TYPE).concat(operand_text(expected)).concat(
        BUT_RECEIVED,
    ).concat(operand_text(actual));
    ValidationError::from_string(message)
}

/// A copy of a vector of value types.
pub fn copy_types(types: &Vec<ValueType>) -> (copy: Vec<ValueType>)
    ensures
        copy@ == types@,
{
    let mut copy: Vec<ValueType> = Vec::new();
    let mut i: usize = 0;
    while i < types.len()
        invariant
            i <= types.len(),
            copy@ == types@.take(i as int),
        decreases types.len() - i,
    {
        copy.push(types[i]);
        i += 1;
        proof {
            assert(copy@ =~= types@.take(i as int));
        }
    }
    proof {
        assert(types@.take(i as int) =~= types@);
    }
    copy
}

/// The value types as operands.
pub fn as_operands(types: &Vec<ValueType>) -> (operands: Vec<Operand>)
    ensures
        operands@ == values(types@),
{
    let mut operands: Vec<Operand> = Vec::new();
    let mut i: usize = 0;
    while i < types.len()
        invariant
            i <= types.len(),
            operands@ == values(types@.take(i as int)),
        decreases types.len() - i,
    {
        operands.push(Operand::Value(types[i]));
        i += 1;
        proof {
            assert(operands@ =~= values(types@.take(i as int)));
        }
    }
    proof {
        assert(types@.take(i as int) =~= types@);
    }
    operands
}

/// Whether two vectors hold the same value types.
pub fn same_types(left: &Vec<ValueType>, right: &Vec<ValueType>) -> (same: bool)
    ensures
        same == (left@ == right@),
{
    if left.len() != right.len() {
        return false;
    }
    let mut i: usize = 0;
    while i < left.len()
        invariant
            i <= left.len(),
            left.len() == right.len(),
            left@.take(i as int) == right@.take(i as int),
        decreases left.len() - i,
    {
        if left[i] != right[i] {
            return false;
        }
        i += 1;
        proof {
            assert(left@.take(i as int) =~= left@.take(i - 1).push(left@[i - 1]));
            assert(right@.take(i as int) =~= right@.take(i - 1).push(right@[i - 1]));
        }
    }
    proof {
        assert(left@.take(i as int) =~= left@);
        assert(right@.take(i as int) =~= right@);
    }
    true
}

/// The result types of a block type.
pub fn block_type_results(block_type: BlockType) -> (results: Vec<ValueType>)
    ensures
        results@ == block_results(block_type),
{
    let mut results: Vec<ValueType> = Vec::new();
    match block_type {
        BlockType::Void => {},
        BlockType::Return(value_type) => {
            results.push(value_type);
        },
    }
    proof {
        assert(results@ =~= block_results(block_type));
    }
    results
}

impl ExpressionContext {
    /// Two empty stacks.
    pub fn new() -> (expression_context: ExpressionContext)
        ensures
            expression_context@ == (Stacks { operands: Seq::empty(), frames: Seq::empty() }),
    {
        let expression_context = ExpressionContext { operands: Vec::new(), frames: Vec::new() };
        proof {
            assert(expression_context@.frames =~= Seq::<FrameView>::empty());
        }
        expression_context
    }

    /// The top frame of the control stack.
    pub fn top_frame(&self) -> (r: Result<&ControlFrame, ValidationError>)
        ensures
            self@.frames.len() > 0 ==> (r matches Ok(frame) && frame@ == self@.frames.last()),
            self@.frames.len() == 0 ==> (r matches Err(error) && error@ == EMPTY_FRAME_STACK@),
    {
        if self.frames.len() == 0 {
            Err(ValidationError::from(EMPTY_FRAME_STACK))
        } else {
            Ok(&self.frames[self.frames.len() - 1])
        }
    }

    /// Puts `operand` on the operand stack.
    pub fn push_operand(&mut self, operand: Operand)
        ensures
            final(self)@ == push_operand(old(self)@, operand),
    {
        self.operands.push(operand);
    }

    /// Takes the top operand.
    pub fn pop_operand(&mut self) -> (r: Result<Operand, ValidationError>)
        ensures
            pops(final(self)@, r, pop_operand(old(self)@)),
    {
        let frame = self.top_frame()?;
        if self.operands.len() <= frame.height {
            if frame.unreachable {
                Ok(Operand::Unknown)
            } else {
                Err(ValidationError::from(STACK_UNDERFLOW))
            }
        } else {
            match self.operands.pop() {
                Some(operand) => Ok(operand),
                None => Err(ValidationError::from(STACK_UNDERFLOW)),
            }
        }
    }

    /// Takes the top operand, which has to be `expected`.
    pub fn pop_operand_expected(&mut self, expected: &Operand) -> (r: Result<
        Operand,
        ValidationError,
    >)
        ensures
            pops(final(self)@, r, pop_operand_expected(old(self)@, *expected)),
    {
        let actual = self.pop_operand()?;
        if actual == Operand::Unknown {
            Ok(*expected)
        } else if *expected == Operand::Unknown {
            Ok(actual)
        } else if actual != *expected {
            Err(mismatch(*expected, actual))
        } else {
            Ok(actual)
        }
    }

    /// Puts `operands` on the operand stack, the last one topmost.
    pub fn push_operands(&mut self, operands: Vec<Operand>)
        ensures
            final(self)@ == push_operands(old(self)@, operands@),
    {
        let mut operands = operands;
        self.operands.append(&mut operands);
    }

    /// Takes the operands `operands`, the last one first.
    #[verifier::loop_isolation(false)]
    pub fn pop_operands(&mut self, operands: &Vec<Operand>) -> (r: ValidationResult)
        ensures
            steps(final(self)@, r, pop_operands(old(self)@, operands@)),
    {
        let ghost whole = pop_operands(self@, operands@);
        let mut i: usize = operands.len();
        proof {
            assert(operands@.take(i as int) =~= operands@);
        }
        while i > 0
            invariant
                i <= operands.len(),
                whole == pop_operands(self@, operands@.take(i as int)),
            decreases i,
        {
            proof {
                assert(operands@.take(i as int).drop_last() =~= operands@.take(i - 1));
            }
            i -= 1;
            self.pop_operand_expected(&operands[i])?;
        }
        Ok(())
    }

    /// Enters a frame at the present height.
    pub fn push_control(&mut self, label_types: Vec<ValueType>, end_types: Vec<ValueType>)
        ensures
            final(self)@ == push_control(old(self)@, label_types@, end_types@),
    {
        let frame = ControlFrame {
            label_types,
            end_types,
            height: self.operands.len(),
            unreachable: false,
        };
        proof {
            lemma_views_push(self.frames@, frame);
        }
        self.frames.push(frame);
    }

    /// Leaves the top frame and gives its end types.
    pub fn pop_control(&mut self) -> (r: Result<Vec<ValueType>, ValidationError>)
        ensures
            match pop_control(old(self)@) {
                Ok((types, stacks)) => r matches Ok(end_types) && end_types@ == types
                    && final(self)@ == stacks,
                Err(failure) => r matches Err(error) && error@ == failure.message
                    && final(self)@ == failure.stacks,
            },
    {
        let frame = self.top_frame()?;
        let end_types = copy_types(&frame.end_types);
        let height = frame.height;
        proof {
            lemma_pop_operands_frames(self@, values(end_types@));
        }
        self.pop_operands(&as_operands(&end_types))?;
        if self.operands.len() != height {
            return Err(ValidationError::from(MISMATCHING_FRAME_HEIGHT));
        }
        let ghost before = self.frames@;
        self.frames.pop();
        proof {
            assert(self.frames@ =~= before.drop_last());
            assert(views(before.drop_last()) =~= views(before).drop_last());
        }
        Ok(end_types)
    }

    /// Marks the rest of the top frame as never reached.
    pub fn unreachable(&mut self) -> (r: ValidationResult)
        ensures
            steps(final(self)@, r, set_unreachable(old(self)@)),
    {
        match self.frames.pop() {
            None => Err(ValidationError::from(EMPTY_FRAME_STACK)),
            Some(frame) => {
                self.operands.truncate(frame.height);
                let marked = ControlFrame {
                    label_types: frame.label_types,
                    end_types: frame.end_types,
                    height: frame.height,
                    unreachable: true,
                };
                self.frames.push(marked);
                proof {
                    let before = old(self).frames@;
                    assert(views(old(self).frames@).last() == frame@);
                    assert(views(self.frames@) =~= views(before).update(
                        before.len() - 1,
                        marked@,
                    ));
                    let expected = set_unreachable(old(self)@)->Ok_0;
                    assert(self.operands@ =~= expected.operands);
                    assert(self@.frames =~= expected.frames);
                }
                Ok(())
            },
        }
    }

    /// The types that a branch to `label` takes.
    pub fn label_types(&self, label: u32) -> (r: Result<Vec<ValueType>, ValidationError>)
        ensures
            match label_types(self@, label) {
                Ok(types) => r matches Ok(found) && found@ == types,
                Err(message) => r matches Err(error) && error@ == message,
            },
    {
        if (label as usize) < self.frames.len() {
            Ok(copy_types(&self.frames[self.frames.len() - 1 - label as usize].label_types))
        } else {
            Err(ValidationError::from(INVALID_LABEL_REFERENCE))
        }
    }
}

/// How many bytes a value of a type takes in memory.
pub open spec fn byte_width(value_type: ValueType) -> nat {
    match value_type {
        ValueType::I32 | ValueType::F32 => 4,
        ValueType::I64 | ValueType::F64 => 8,
    }
}

/// Whether the alignment 2^`align` is more than an access of `width` bytes is wide.
pub fn is_misaligned(align: u32, width: u32) -> (r: bool)
    ensures
        r == misaligned(align, width as nat),
{
    let mut power: u64 = 1;
    let mut i: u32 = 0;
    proof {
        vstd::arithmetic::power2::lemma2_to64();
    }
    while i < align && power <= width as u64
        invariant
            i <= align,
            power == pow2(i as nat),
        decreases align - i,
    {
        power = power * 2;
        i += 1;
        proof {
            vstd::arithmetic::power2::lemma_pow2_unfold(i as nat);
        }
    }
    proof {
        if i < align {
            vstd::arithmetic::power2::lemma_pow2_strictly_increases(i as nat, align as nat);
        }
    }
    power > width as u64
}

/// Checks that memory 0 is there and that the alignment of an access of `width` bytes is
/// not more than the access is wide.
pub fn validate_access(context: &Context, memory_args: &MemoryArg, width: u32) -> (r:
    ValidationResult)
    ensures
        finds(
            r,
            if context@.memories.len() == 0 {
                broken(INVALID_MEMORY_REFERENCE)
            } else if misaligned(memory_args.align, width as nat) {
                broken(INVALID_ALIGNMENT)
            } else {
                Ok(())
            },
        ),
{
    context.get_memory(0)?;
    if is_misaligned(memory_args.align, width) {
        return Err(ValidationError::from(INVALID_ALIGNMENT));
    }
    Ok(())
}

/// Checks a load of a whole value of `value_type`.
pub fn validate_load_instruction(
    context: &Context,
    expression_context: &mut ExpressionContext,
    memory_args: &MemoryArg,
    value_type: ValueType,
) -> (r: ValidationResult)
    ensures
        steps(
            final(expression_context)@,
            r,
            after_load(
                context@,
                old(expression_context)@,
                *memory_args,
                value_type,
                byte_width(value_type),
            ),
        ),
{
    let bit_width: u32 = match value_type {
        ValueType::I32 | ValueType::F32 => 32,
        ValueType::I64 | ValueType::F64 => 64,
    };
    validate_load_instruction_n(context, expression_context, memory_args, value_type, bit_width)
}

/// Checks a load of `n` bits into a value of `value_type`.
pub fn validate_load_instruction_n(
    context: &Context,
    expression_context: &mut ExpressionContext,
    memory_args: &MemoryArg,
    value_type: ValueType,
    n: u32,
) -> (r: ValidationResult)
    ensures
        steps(
            final(expression_context)@,
            r,
            after_load(
                context@,
                old(expression_context)@,
                *memory_args,
                value_type,
                (n / 8) as nat,
            ),
        ),
{
    validate_access(context, memory_args, n / 8)?;
    expression_context.pop_operand_expected(&Operand::Value(ValueType::I32))?;
    expression_context.push_operand(Operand::Value(value_type));
    Ok(())
}

/// Checks a store of a whole value of `value_type`.
pub fn validate_store_instruction(
    context: &Context,
    expression_context: &mut ExpressionContext,
    memory_args: &MemoryArg,
    value_type: ValueType,
) -> (r: ValidationResult)
    ensures
        steps(
            final(expression_context)@,
            r,
            after_store(
                context@,
                old(expression_context)@,
                *memory_args,
                value_type,
                byte_width(value_type),
            ),
        ),
{
    let bit_width: u32 = match value_type {
        ValueType::I32 | ValueType::F32 => 32,
        ValueType::I64 | ValueType::F64 => 64,
    };
    validate_store_instruction_n(context, expression_context, memory_args, value_type, bit_width)
}

/// Checks a store of the low `n` bits of a value of `value_type`.
pub fn validate_store_instruction_n(
    context: &Context,
    expression_context: &mut ExpressionContext,
    memory_args: &MemoryArg,
    value_type: ValueType,
    n: u32,
) -> (r: ValidationResult)
    ensures
        steps(
            final(expression_context)@,
            r,
            after_store(
                context@,
                old(expression_context)@,
                *memory_args,
                value_type,
                (n / 8) as nat,
            ),
        ),
{
    validate_access(context, memory_args, n / 8)?;
    expression_context.pop_operand_expected(&Operand::Value(value_type))?;
    expression_context.pop_operand_expected(&Operand::Value(ValueType::I32))?;
    Ok(())
}

/// Checks a constant of `value_type`.
pub fn validate_const_instruction(
    expression_context: &mut ExpressionContext,
    value_type: ValueType,
) -> (r: ValidationResult)
    ensures
        steps(
            final(expression_context)@,
            r,
            Ok(push_operand(old(expression_context)@, Operand::Value(value_type))),
        ),
{
    expression_context.push_operand(Operand::Value(value_type));
    Ok(())
}

/// Checks an operator that takes one operand of `value_type` and leaves one.
pub fn validate_unary_instruction(
    expression_context: &mut ExpressionContext,
    value_type: ValueType,
) -> (r: ValidationResult)
    ensures
        steps(
            final(expression_context)@,
            r,
            after_operator(old(expression_context)@, value_type, false, value_type),
        ),
{
    validate_conversion_instruction(expression_context, value_type, value_type)
}

/// Checks an operator that takes two operands of `value_type` and leaves one.
pub fn validate_binary_instruction(
    expression_context: &mut ExpressionContext,
    value_type: ValueType,
) -> (r: ValidationResult)
    ensures
        steps(
            final(expression_context)@,
            r,
            after_operator(old(expression_context)@, value_type, true, value_type),
        ),
{
    expression_context.pop_operand_expected(&Operand::Value(value_type))?;
    expression_context.pop_operand_expected(&Operand::Value(value_type))?;
    expression_context.push_operand(Operand::Value(value_type));
    Ok(())
}

/// Checks a test: one operand of `value_type` is taken and an `i32` is left.
pub fn validate_test_instruction(
    expression_context: &mut ExpressionContext,
    value_type: ValueType,
) -> (r: ValidationResult)
    ensures
        steps(
            final(expression_context)@,
            r,
            after_operator(old(expression_context)@, value_type, false, ValueType::I32),
        ),
{
    validate_conversion_instruction(expression_context, value_type, ValueType::I32)
}

/// Checks a comparison: two operands of `value_type` are taken and an `i32` is left.
pub fn validate_comparison_instruction(
    expression_context: &mut ExpressionContext,
    value_type: ValueType,
) -> (r: ValidationResult)
    ensures
        steps(
            final(expression_context)@,
            r,
            after_operator(old(expression_context)@, value_type, true, ValueType::I32),
        ),
{
    expression_context.pop_operand_expected(&Operand::Value(value_type))?;
    expression_context.pop_operand_expected(&Operand::Value(value_type))?;
    expression_context.push_operand(Operand::Value(ValueType::I32));
    Ok(())
}

/// Checks a conversion: an operand of `input_value_type` is taken and one of
/// `output_value_type` is left.
pub fn validate_conversion_instruction(
    expression_context: &mut ExpressionContext,
    input_value_type: ValueType,
    output_value_type: ValueType,
) -> (r: ValidationResult)
    ensures
        steps(
            final(expression_context)@,
            r,
            after_operator(
                old(expression_context)@,
                input_value_type,
                false,
                output_value_type,
            ),
        ),
{
    expression_context.pop_operand_expected(&Operand::Value(input_value_type))?;
    expression_context.push_operand(Operand::Value(output_value_type));
    Ok(())
}

/// Checks a branch.
pub fn validate_branch(expression_context: &mut ExpressionContext, label: u32) -> (r:
    ValidationResult)
    ensures
        steps(final(expression_context)@, r, after_branch(old(expression_context)@, label)),
{
    let types = expression_context.label_types(label)?;
    expression_context.pop_operands(&as_operands(&types))?;
    expression_context.unreachable()
}

/// Checks a branch under a condition.
pub fn validate_branch_if(expression_context: &mut ExpressionContext, label: u32) -> (r:
    ValidationResult)
    ensures
        steps(final(expression_context)@, r, after_branch_if(old(expression_context)@, label)),
{
    expression_context.pop_operand_expected(&Operand::Value(ValueType::I32))?;
    let types = expression_context.label_types(label)?;
    expression_context.pop_operands(&as_operands(&types))?;
    expression_context.push_operands(as_operands(&types));
    Ok(())
}

/// Checks a branch table.
#[verifier::loop_isolation(false)]
pub fn validate_branch_table(
    expression_context: &mut ExpressionContext,
    labels: &Vec<u32>,
    default: u32,
) -> (r: ValidationResult)
    ensures
        steps(
            final(expression_context)@,
            r,
            after_branch_table(old(expression_context)@, labels@, default),
        ),
{
    expression_context.pop_operand_expected(&Operand::Value(ValueType::I32))?;
    let types = expression_context.label_types(default)?;
    let ghost stacks = expression_context@;
    let ghost check = |label: u32| table_label_verdict(stacks, label, types@);
    let mut i: usize = 0;
    proof {
        assert(labels@.skip(0) =~= labels@);
    }
    while i < labels.len()
        invariant
            i <= labels.len(),
            expression_context@ == stacks,
            first_broken(labels@, check) == first_broken(labels@.skip(i as int), check),
        decreases labels.len() - i,
    {
        proof {
            lemma_first_broken_step(labels@, check, i as int);
        }
        let found = expression_context.label_types(labels[i])?;
        if !same_types(&found, &types) {
            return Err(ValidationError::from(MISMATCHING_LABEL_TYPES));
        }
        i += 1;
    }
    expression_context.pop_operands(&as_operands(&types))?;
    expression_context.unreachable()
}

/// Checks a return.
pub fn validate_return(expression_context: &mut ExpressionContext) -> (r: ValidationResult)
    ensures
        steps(final(expression_context)@, r, after_return(old(expression_context)@)),
{
    if expression_context.frames.len() == 0 {
        return Err(ValidationError::from(EMPTY_FRAME_STACK));
    }
    let types = copy_types(&expression_context.frames[0].label_types);
    expression_context.pop_operands(&as_operands(&types))?;
    expression_context.unreachable()
}

/// Checks a call of a function of the type at `type_index`.
pub fn validate_call_of(
    context: &Context,
    expression_context: &mut ExpressionContext,
    type_index: u32,
) -> (r: ValidationResult)
    ensures
        steps(
            final(expression_context)@,
            r,
            match entry(context@.function_types, type_index, INVALID_FUNCTION_TYPE_REFERENCE) {
                Err(message) => Err(Failure { message, stacks: old(expression_context)@ }),
                Ok(function_type) => after_call_of(old(expression_context)@, function_type),
            },
        ),
{
    let function_type = context.get_function_type(type_index)?;
    expression_context.pop_operands(&as_operands(&function_type.0))?;
    expression_context.push_operands(as_operands(&function_type.1));
    Ok(())
}

/// Checks a call.
pub fn validate_call(
    context: &Context,
    expression_context: &mut ExpressionContext,
    function: u32,
) -> (r: ValidationResult)
    ensures
        steps(
            final(expression_context)@,
            r,
            after_call(context@, old(expression_context)@, function),
        ),
{
    let type_index = context.get_function(function)?;
    validate_call_of(context, expression_context, type_index)
}

/// Checks a call through table 0.
pub fn validate_call_indirect(
    context: &Context,
    expression_context: &mut ExpressionContext,
    type_index: u32,
) -> (r: ValidationResult)
    ensures
        steps(
            final(expression_context)@,
            r,
            after_call_indirect(context@, old(expression_context)@, type_index),
        ),
{
    context.get_table(0)?;
    context.get_function_type(type_index)?;
    expression_context.pop_operand_expected(&Operand::Value(ValueType::I32))?;
    validate_call_of(context, expression_context, type_index)
}

/// Checks a select.
pub fn validate_select(expression_context: &mut ExpressionContext) -> (r: ValidationResult)
    ensures
        steps(final(expression_context)@, r, after_select(old(expression_context)@)),
{
    expression_context.pop_operand_expected(&Operand::Value(ValueType::I32))?;
    let one = expression_context.pop_operand()?;
    let other = expression_context.pop_operand()?;
    if one == Operand::Unknown {
        expression_context.push_operand(other);
    } else if other == Operand::Unknown || other == one {
        expression_context.push_operand(one);
    } else {
        return Err(ValidationError::from(INVALID_SELECT));
    }
    Ok(())
}

/// Following one more instruction of a sequence.
pub proof fn lemma_after_instructions_step(
    context: ContextView,
    stacks: Stacks,
    instructions: Seq<InstructionView>,
    from: int,
)
    requires
        0 <= from < instructions.len(),
    ensures
        after_instructions(context, stacks, instructions.skip(from)) == match after_instruction(
            context,
            stacks,
            instructions[from],
        ) {
            Err(failure) => Err::<Stacks, Failure>(failure),
            Ok(next) => after_instructions(context, next, instructions.skip(from + 1)),
        },
{
    assert(instructions.skip(from).drop_first() =~= instructions.skip(from + 1));
}

/// The type of a numeric operator: see [`operator_type`].
pub fn operator_type_of(opcode: u8) -> (r: Option<(ValueType, bool, ValueType)>)
    ensures
        r == operator_type(opcode),
{
    if opcode == 0x45 {
        Some((ValueType::I32, false, ValueType::I32))
    } else if 0x46 <= opcode && opcode <= 0x4F {
        Some((ValueType::I32, true, ValueType::I32))
    } else if opcode == 0x50 {
        Some((ValueType::I64, false, ValueType::I32))
    } else if 0x51 <= opcode && opcode <= 0x5A {
        Some((ValueType::I64, true, ValueType::I32))
    } else if 0x5B <= opcode && opcode <= 0x60 {
        Some((ValueType::F32, true, ValueType::I32))
    } else if 0x61 <= opcode && opcode <= 0x66 {
        Some((ValueType::F64, true, ValueType::I32))
    } else if 0x67 <= opcode && opcode <= 0x69 {
        Some((ValueType::I32, false, ValueType::I32))
    } else if 0x6A <= opcode && opcode <= 0x78 {
        Some((ValueType::I32, true, ValueType::I32))
    } else if 0x79 <= opcode && opcode <= 0x7B {
        Some((ValueType::I64, false, ValueType::I64))
    } else if 0x7C <= opcode && opcode <= 0x8A {
        Some((ValueType::I64, true, ValueType::I64))
    } else if 0x8B <= opcode && opcode <= 0x91 {
        Some((ValueType::F32, false, ValueType::F32))
    } else if 0x92 <= opcode && opcode <= 0x98 {
        Some((ValueType::F32, true, ValueType::F32))
    } else if 0x99 <= opcode && opcode <= 0x9F {
        Some((ValueType::F64, false, ValueType::F64))
    } else if 0xA0 <= opcode && opcode <= 0xA6 {
        Some((ValueType::F64, true, ValueType::F64))
    } else if opcode == 0xA7 {
        Some((ValueType::I64, false, ValueType::I32))
    } else if opcode == 0xA8 || opcode == 0xA9 {
        Some((ValueType::F32, false, ValueType::I32))
    } else if opcode == 0xAA || opcode == 0xAB {
        Some((ValueType::F64, false, ValueType::I32))
    } else if opcode == 0xAC || opcode == 0xAD {
        Some((ValueType::I32, false, ValueType::I64))
    } else if opcode == 0xAE || opcode == 0xAF {
        Some((ValueType::F32, false, ValueType::I64))
    } else if opcode == 0xB0 || opcode == 0xB1 {
        Some((ValueType::F64, false, ValueType::I64))
    } else if opcode == 0xB2 || opcode == 0xB3 {
        Some((ValueType::I32, false, ValueType::F32))
    } else if opcode == 0xB4 || opcode == 0xB5 {
        Some((ValueType::I64, false, ValueType::F32))
    } else if opcode == 0xB6 {
        Some((ValueType::F64, false, ValueType::F32))
    } else if opcode == 0xB7 || opcode == 0xB8 {
        Some((ValueType::I32, false, ValueType::F64))
    } else if opcode == 0xB9 || opcode == 0xBA {
        Some((ValueType::I64, false, ValueType::F64))
    } else if opcode == 0xBB {
        Some((ValueType::F32, false, ValueType::F64))
    } else if opcode == 0xBC {
        Some((ValueType::F32, false, ValueType::I32))
    } else if opcode == 0xBD {
        Some((ValueType::F64, false, ValueType::I64))
    } else if opcode == 0xBE {
        Some((ValueType::I32, false, ValueType::F32))
    } else if opcode == 0xBF {
        Some((ValueType::I64, false, ValueType::F64))
    } else {
        None
    }
}

/// What a load or a store moves, the width in bits: see [`access_type`].
pub fn access_type_of(opcode: u8) -> (r: (ValueType, u32))
    ensures
        r.0 == access_type(opcode).0,
        r.1 == 8 * access_type(opcode).1,
{
    if opcode == 0x28 || opcode == 0x36 {
        (ValueType::I32, 32)
    } else if opcode == 0x29 || opcode == 0x37 {
        (ValueType::I64, 64)
    } else if opcode == 0x2A || opcode == 0x38 {
        (ValueType::F32, 32)
    } else if opcode == 0x2B || opcode == 0x39 {
        (ValueType::F64, 64)
    } else if opcode == 0x2C || opcode == 0x2D || opcode == 0x3A {
        (ValueType::I32, 8)
    } else if opcode == 0x2E || opcode == 0x2F || opcode == 0x3B {
        (ValueType::I32, 16)
    } else if opcode == 0x30 || opcode == 0x31 || opcode == 0x3C {
        (ValueType::I64, 8)
    } else if opcode == 0x32 || opcode == 0x33 || opcode == 0x3D {
        (ValueType::I64, 16)
    } else {
        (ValueType::I64, 32)
    }
}

/// Checks a load or a store.
pub fn validate_access_instruction(
    context: &Context,
    expression_context: &mut ExpressionContext,
    opcode: u8,
    memory_args: &MemoryArg,
) -> (r: ValidationResult)
    ensures
        steps(
            final(expression_context)@,
            r,
            after_access(context@, old(expression_context)@, opcode, *memory_args),
        ),
{
    let (value_type, bits) = access_type_of(opcode);
    let whole = (0x28 <= opcode && opcode <= 0x2B) || (0x36 <= opcode && opcode <= 0x39);
    if opcode <= 0x35 {
        if whole {
            validate_load_instruction(context, expression_context, memory_args, value_type)
        } else {
            validate_load_instruction_n(context, expression_context, memory_args, value_type, bits)
        }
    } else {
        if whole {
            validate_store_instruction(context, expression_context, memory_args, value_type)
        } else {
            validate_store_instruction_n(
                context,
                expression_context,
                memory_args,
                value_type,
                bits,
            )
        }
    }
}

/// Checks an instruction that one index follows.
pub fn validate_indexed_instruction(
    context: &Context,
    expression_context: &mut ExpressionContext,
    opcode: u8,
    index: u32,
) -> (r: ValidationResult)
    ensures
        steps(
            final(expression_context)@,
            r,
            after_indexed(context@, old(expression_context)@, opcode, index),
        ),
{
    if opcode == 0x0C {
        validate_branch(expression_context, index)
    } else if opcode == 0x0D {
        validate_branch_if(expression_context, index)
    } else if opcode == 0x10 {
        validate_call(context, expression_context, index)
    } else if opcode == 0x11 {
        validate_call_indirect(context, expression_context, index)
    } else if opcode == 0x20 {
        let local = context.get_local(index)?;
        expression_context.push_operand(Operand::Value(local));
        Ok(())
    } else if opcode == 0x21 {
        let local = context.get_local(index)?;
        expression_context.pop_operand_expected(&Operand::Value(local))?;
        Ok(())
    } else if opcode == 0x22 {
        let local = context.get_local(index)?;
        expression_context.pop_operand_expected(&Operand::Value(local))?;
        expression_context.push_operand(Operand::Value(local));
        Ok(())
    } else if opcode == 0x23 {
        let global = context.get_global(index)?;
        expression_context.push_operand(Operand::Value(global.value_type));
        Ok(())
    } else {
        let global = context.get_global(index)?;
        if global.mutability != GlobalTypeMutability::Var {
            return Err(ValidationError::from(INVALID_GLOBAL_SET));
        }
        expression_context.pop_operand_expected(&Operand::Value(global.value_type))?;
        Ok(())
    }
}

/// Checks an instruction that nothing follows.
pub fn validate_plain_instruction(
    context: &Context,
    expression_context: &mut ExpressionContext,
    opcode: u8,
) -> (r: ValidationResult)
    ensures
        steps(
            final(expression_context)@,
            r,
            after_plain(context@, old(expression_context)@, opcode),
        ),
{
    if opcode == 0x00 {
        expression_context.unreachable()
    } else if opcode == 0x01 {
        Ok(())
    } else if opcode == 0x0F {
        validate_return(expression_context)
    } else if opcode == 0x1A {
        expression_context.pop_operand()?;
        Ok(())
    } else if opcode == 0x1B {
        validate_select(expression_context)
    } else if opcode == 0x3F {
        context.get_memory(0)?;
        expression_context.push_operand(Operand::Value(ValueType::I32));
        Ok(())
    } else if opcode == 0x40 {
        context.get_memory(0)?;
        validate_unary_instruction(expression_context, ValueType::I32)
    } else {
        match operator_type_of(opcode) {
            None => Ok(()),
            Some((operand, binary, result)) => {
                if opcode == 0x45 || opcode == 0x50 {
                    validate_test_instruction(expression_context, operand)
                } else if !binary {
                    if result == operand {
                        validate_unary_instruction(expression_context, operand)
                    } else {
                        validate_conversion_instruction(expression_context, operand, result)
                    }
                } else if result == operand {
                    validate_binary_instruction(expression_context, operand)
                } else {
                    validate_comparison_instruction(expression_context, operand)
                }
            },
        }
    }
}

/// Checks an instruction against the stacks, with the instructions nested in it.
pub fn validate_instruction(
    context: &Context,
    expression_context: &mut ExpressionContext,
    instruction: &Instruction,
) -> (r: ValidationResult)
    ensures
        steps(
            final(expression_context)@,
            r,
            after_instruction(context@, old(expression_context)@, instruction@),
        ),
    decreases instruction, 0nat,
{
    match instruction {
        Instruction::Block(block_type, body) => {
            let results = block_type_results(*block_type);
            expression_context.push_control(copy_types(&results), results);
            validate_frame(context, expression_context, body)
        },
        Instruction::Loop(block_type, body) => {
            expression_context.push_control(Vec::new(), block_type_results(*block_type));
            validate_frame(context, expression_context, body)
        },
        Instruction::If(block_type, then_body, else_body) => {
            let results = block_type_results(*block_type);
            match else_body {
                None => {
                    if *block_type != BlockType::Void {
                        return Err(ValidationError::from(INVALID_IF));
                    }
                    expression_context.pop_operand_expected(&Operand::Value(ValueType::I32))?;
                    expression_context.push_control(copy_types(&results), results);
                    validate_frame(context, expression_context, then_body)
                },
                Some(else_body) => {
                    expression_context.pop_operand_expected(&Operand::Value(ValueType::I32))?;
                    expression_context.push_control(
                        copy_types(&results),
                        copy_types(&results),
                    );
                    validate_instructions(context, expression_context, then_body)?;
                    expression_context.pop_control()?;
                    expression_context.push_control(copy_types(&results), results);
                    validate_frame(context, expression_context, else_body)
                },
            }
        },
        Instruction::BrTable(labels, default) => validate_branch_table(
            expression_context,
            labels,
            *default,
        ),
        Instruction::I32Const(_) => validate_const_instruction(expression_context, ValueType::I32),
        Instruction::I64Const(_) => validate_const_instruction(expression_context, ValueType::I64),
        Instruction::F32Const(_) => validate_const_instruction(expression_context, ValueType::F32),
        Instruction::F64Const(_) => validate_const_instruction(expression_context, ValueType::F64),
        Instruction::Br(index)
        | Instruction::BrIf(index)
        | Instruction::Call(index)
        | Instruction::CallIndirect(index)
        | Instruction::LocalGet(index)
        | Instruction::LocalSet(index)
        | Instruction::LocalTee(index)
        | Instruction::GlobalGet(index)
        | Instruction::GlobalSet(index) => validate_indexed_instruction(
            context,
            expression_context,
            instruction.code(),
            *index,
        ),
        Instruction::I32Load(arg)
        | Instruction::I64Load(arg)
        | Instruction::F32Load(arg)
        | Instruction::F64Load(arg)
        | Instruction::I32Load8S(arg)
        | Instruction::I32Load8U(arg)
        | Instruction::I32Load16S(arg)
        | Instruction::I32Load16U(arg)
        | Instruction::I64Load8S(arg)
        | Instruction::I64Load8U(arg)
        | Instruction::I64Load16S(arg)
        | Instruction::I64Load16U(arg)
        | Instruction::I64Load32S(arg)
        | Instruction::I64Load32U(arg)
        | Instruction::I32Store(arg)
        | Instruction::I64Store(arg)
        | Instruction::F32Store(arg)
        | Instruction::F64Store(arg)
        | Instruction::I32Store8(arg)
        | Instruction::I32Store16(arg)
        | Instruction::I64Store8(arg)
        | Instruction::I64Store16(arg)
        | Instruction::I64Store32(arg) => validate_access_instruction(
            context,
            expression_context,
            instruction.code(),
            arg,
        ),
        _ => validate_plain_instruction(context, expression_context, instruction.code()),
    }
}

/// Checks the instructions of a frame that has just been entered, leaves the frame and
/// puts its end types on the stack.
pub fn validate_frame(
    context: &Context,
    expression_context: &mut ExpressionContext,
    body: &Vec<Instruction>,
) -> (r: ValidationResult)
    ensures
        steps(
            final(expression_context)@,
            r,
            after_frame(context@, old(expression_context)@, instruction_views(body@)),
        ),
    decreases body, 1nat,
{
    validate_instructions(context, expression_context, body)?;
    let types = expression_context.pop_control()?;
    expression_context.push_operands(as_operands(&types));
    Ok(())
}

/// Checks a sequence of instructions, one after the other.
#[verifier::loop_isolation(false)]
pub fn validate_instructions(
    context: &Context,
    expression_context: &mut ExpressionContext,
    instructions: &Vec<Instruction>,
) -> (r: ValidationResult)
    ensures
        steps(
            final(expression_context)@,
            r,
            after_instructions(
                context@,
                old(expression_context)@,
                instruction_views(instructions@),
            ),
        ),
    decreases instructions, 0nat,
{
    let ghost all = instruction_views(instructions@);
    let ghost whole = after_instructions(context@, expression_context@, all);
    let mut i: usize = 0;
    proof {
        assert(all.skip(0) =~= all);
    }
    while i < instructions.len()
        invariant
            i <= instructions.len(),
            whole == after_instructions(context@, expression_context@, all.skip(i as int)),
        decreases instructions.len() - i,
    {
        proof {
            lemma_after_instructions_step(context@, expression_context@, all, i as int);
        }
        validate_instruction(context, expression_context, &instructions[i])?;
        i += 1;
    }
    Ok(())
}

/// An expression is valid where its instructions can be followed from empty stacks, in a
/// frame that ends with `results`.
pub open spec fn expression_verdict(
    context: ContextView,
    expression: Seq<InstructionView>,
    results: Seq<ValueType>,
) -> Verdict {
    match after_frame(
        context,
        push_control(Stacks { operands: Seq::empty(), frames: Seq::empty() }, results, results),
        expression,
    ) {
        Err(failure) => Err(failure.message),
        Ok(_) => Ok(()),
    }
}

/// In a constant expression an instruction has to be a constant, or a `global.get` of an
/// imported global that is not a variable.
pub open spec fn constant_verdict(context: ContextView, instruction: InstructionView) -> Verdict {
    match instruction.immediate {
        Immediate::I32(_) | Immediate::I64(_) | Immediate::F32(_) | Immediate::F64(_) => Ok(()),
        Immediate::Index(index) => {
            if instruction.opcode != 0x23 {
                broken(INVALID_CONSTANT)
            } else {
                match entry(context.globals, index, INVALID_GLOBAL_REFERENCE) {
                    Err(message) => Err(message),
                    Ok(global) => {
                        if index < context.imported_globals && global.mutability
                            == GlobalTypeMutability::Const {
                            Ok(())
                        } else {
                            broken(INVALID_CONSTANT)
                        }
                    },
                }
            }
        },
        _ => broken(INVALID_CONSTANT),
    }
}

/// [`constant_verdict`] as a check of items.
pub open spec fn constant_check(context: ContextView) -> spec_fn(InstructionView) -> Verdict {
    |instruction: InstructionView| constant_verdict(context, instruction)
}

/// An expression is constant where each of its instructions is.
pub open spec fn constant_expression_verdict(
    context: ContextView,
    expression: Seq<InstructionView>,
) -> Verdict {
    first_broken(expression, constant_check(context))
}

/// Checks an expression in a frame that ends with `return_types`.
pub fn validate_expression(
    context: &Context,
    expression: &Expression,
    return_types: Vec<ValueType>,
) -> (r: ValidationResult)
    ensures
        finds(r, expression_verdict(context@, instruction_views(expression@), return_types@)),
{
    let mut expression_context = ExpressionContext::new();
    expression_context.push_control(copy_types(&return_types), return_types);
    validate_frame(context, &mut expression_context, expression)
}

/// Checks that an expression is constant.
#[verifier::loop_isolation(false)]
pub fn validate_constant_expression(context: &Context, expression: &Expression) -> (r:
    ValidationResult)
    ensures
        finds(r, constant_expression_verdict(context@, instruction_views(expression@))),
{
    let ghost all = instruction_views(expression@);
    let mut i: usize = 0;
    proof {
        assert(all.skip(0) =~= all);
    }
    while i < expression.len()
        invariant
            i <= expression.len(),
            constant_expression_verdict(context@, all) == first_broken(
                all.skip(i as int),
                constant_check(context@),
            ),
        decreases expression.len() - i,
    {
        proof {
            lemma_first_broken_step(all, constant_check(context@), i as int);
        }
        match &expression[i] {
            Instruction::I32Const(_) => {},
            Instruction::I64Const(_) => {},
            Instruction::F32Const(_) => {},
            Instruction::F64Const(_) => {},
            Instruction::GlobalGet(global) => {
                let global_type = context.get_global(*global)?;
                if !((*global as usize) < context.imported_globals && global_type.mutability
                    == GlobalTypeMutability::Const) {
                    return Err(ValidationError::from(INVALID_CONSTANT));
                }
            },
            _ => {
                return Err(ValidationError::from(INVALID_CONSTANT));
            },
        }
        i += 1;
    }
    Ok(())
}

} // verus!
