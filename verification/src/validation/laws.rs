//! What holds of every module that the validator judges, and of the stacks that the
//! rules for instructions work on.

use crate::types::{Data, Element, Global, Immediate, InstructionView, ModuleView, ValueType};
use crate::validation::instructions::{
    access_type, after_frame, after_instruction, after_instructions, block_results,
    constant_check, label_types, operator_type, pop_control, pop_operand, pop_operand_expected,
    pop_operands, push_control, push_operand, push_operands, set_unreachable, values, FrameView,
    Operand, Stacks,
};
use crate::validation::modules::{
    cardinality_verdict, check_of, data_verdict, element_verdict, global_verdict,
    module_verdict,
};
use crate::validation::validation::{
    context_of, entry, first_broken, imported_memories, imported_tables, ContextView, Verdict,
    INVALID_FUNCTION_REFERENCE, INVALID_FUNCTION_TYPE_REFERENCE, INVALID_GLOBAL_REFERENCE,
    INVALID_LOCAL_REFERENCE,
};
use vstd::prelude::*;

verus! {

/// Where one item breaks its rule, the sequence has a broken rule.
pub proof fn lemma_first_broken_any<T>(items: Seq<T>, check: spec_fn(T) -> Verdict, at: int)
    requires
        0 <= at < items.len(),
        check(items[at]) is Err,
    ensures
        first_broken(items, check) is Err,
    decreases items.len(),
{
    if at > 0 && check(items.first()) is Ok {
        lemma_first_broken_any(items.drop_first(), check, at - 1);
    }
}

/// A module with two or more tables, or with two or more memories, is rejected, whether
/// it defines them or imports them.
pub proof fn lemma_second_table_or_memory_rejected(module: ModuleView)
    requires
        imported_tables(module.imports).len() + module.tables.len() >= 2 || imported_memories(
            module.imports,
        ).len() + module.memories.len() >= 2,
    ensures
        module_verdict(module) is Err,
{
    assert(cardinality_verdict(context_of(module), module.exports) is Err);
}

/// A module with two exports of one name is rejected.
pub proof fn lemma_duplicate_export_rejected(module: ModuleView, first: int, second: int)
    requires
        0 <= first < second < module.exports.len(),
        module.exports[first].name == module.exports[second].name,
    ensures
        module_verdict(module) is Err,
{
    assert(cardinality_verdict(context_of(module), module.exports) is Err);
}

/// The instruction is a constant or a `global.get`.
pub open spec fn is_constant_or_global_get(instruction: InstructionView) -> bool {
    match instruction.immediate {
        Immediate::I32(_) | Immediate::I64(_) | Immediate::F32(_) | Immediate::F64(_) => true,
        Immediate::Index(_) => instruction.opcode == 0x23,
        _ => false,
    }
}

/// A module is rejected where the initializer of a global holds an instruction that is
/// neither a constant nor a `global.get`.
pub proof fn lemma_global_initializer_constant(module: ModuleView, global: int, at: int)
    requires
        0 <= global < module.globals.len(),
        0 <= at < module.globals[global].init.len(),
        !is_constant_or_global_get(module.globals[global].init[at]),
    ensures
        module_verdict(module) is Err,
{
    let context = context_of(module);
    lemma_first_broken_any(module.globals[global].init, constant_check(context), at);
    assert(global_verdict(context, module.globals[global]) is Err);
    lemma_first_broken_any(module.globals, check_of::<Global>(context), global);
}

/// A module is rejected where the offset of an element segment holds an instruction that
/// is neither a constant nor a `global.get`.
pub proof fn lemma_element_offset_constant(module: ModuleView, element: int, at: int)
    requires
        0 <= element < module.elements.len(),
        0 <= at < module.elements[element].offset.len(),
        !is_constant_or_global_get(module.elements[element].offset[at]),
    ensures
        module_verdict(module) is Err,
{
    let context = context_of(module);
    lemma_first_broken_any(module.elements[element].offset, constant_check(context), at);
    assert(element_verdict(context, module.elements[element]) is Err);
    lemma_first_broken_any(module.elements, check_of::<Element>(context), element);
}

/// A module is rejected where the offset of a data segment holds an instruction that is
/// neither a constant nor a `global.get`.
pub proof fn lemma_data_offset_constant(module: ModuleView, data: int, at: int)
    requires
        0 <= data < module.data.len(),
        0 <= at < module.data[data].offset.len(),
        !is_constant_or_global_get(module.data[data].offset[at]),
    ensures
        module_verdict(module) is Err,
{
    let context = context_of(module);
    lemma_first_broken_any(module.data[data].offset, constant_check(context), at);
    assert(data_verdict(context, module.data[data]) is Err);
    lemma_first_broken_any(module.data, check_of::<Data>(context), data);
}

/// The stacks are well formed: no frame was entered above the top of the operand stack,
/// and no frame was entered below a frame under it.
pub open spec fn well_formed(stacks: Stacks) -> bool {
    &&& forall|i: int|
        0 <= i < stacks.frames.len() ==> (#[trigger] stacks.frames[i]).height
            <= stacks.operands.len()
    &&& forall|i: int, j: int|
        0 <= i <= j < stacks.frames.len() ==> (#[trigger] stacks.frames[i]).height <= (
        #[trigger] stacks.frames[j]).height
}

/// The frames are the same but for what has become unreachable.
pub open spec fn same_frames(before: Seq<FrameView>, after: Seq<FrameView>) -> bool {
    &&& before.len() == after.len()
    &&& forall|i: int|
        0 <= i < before.len() ==> (#[trigger] after[i]) == (FrameView {
            unreachable: after[i].unreachable,
            ..before[i]
        })
}

proof fn lemma_pop_operand_expected_well_formed(stacks: Stacks, expected: Operand)
    requires
        well_formed(stacks),
    ensures
        pop_operand_expected(stacks, expected) matches Ok((_, rest)) ==> well_formed(rest)
            && rest.frames == stacks.frames,
        pop_operand(stacks) matches Ok((_, rest)) ==> well_formed(rest) && rest.frames
            == stacks.frames,
{
}

proof fn lemma_pop_operands_well_formed(stacks: Stacks, expected: Seq<Operand>)
    requires
        well_formed(stacks),
    ensures
        pop_operands(stacks, expected) matches Ok(rest) ==> well_formed(rest) && rest.frames
            == stacks.frames,
    decreases expected.len(),
{
    if expected.len() > 0 {
        lemma_pop_operand_expected_well_formed(stacks, expected.last());
        if let Ok((_, rest)) = pop_operand_expected(stacks, expected.last()) {
            lemma_pop_operands_well_formed(rest, expected.drop_last());
        }
    }
}

proof fn lemma_set_unreachable_well_formed(stacks: Stacks)
    requires
        well_formed(stacks),
    ensures
        set_unreachable(stacks) matches Ok(rest) ==> well_formed(rest) && same_frames(
            stacks.frames,
            rest.frames,
        ),
{
}

proof fn lemma_push_well_formed(stacks: Stacks, operands: Seq<Operand>, operand: Operand)
    requires
        well_formed(stacks),
    ensures
        well_formed(push_operands(stacks, operands)),
        well_formed(push_operand(stacks, operand)),
{
}

proof fn lemma_pop_control_well_formed(stacks: Stacks)
    requires
        well_formed(stacks),
    ensures
        pop_control(stacks) matches Ok((_, rest)) ==> well_formed(rest) && rest.frames
            == stacks.frames.drop_last(),
{
    if stacks.frames.len() > 0 {
        lemma_pop_operands_well_formed(stacks, values(stacks.frames.last().end_types));
    }
}

proof fn lemma_flat_well_formed(context: ContextView, stacks: Stacks, instruction: InstructionView)
    requires
        well_formed(stacks),
        !(instruction.immediate is Block),
        !(instruction.immediate is If),
    ensures
        after_instruction(context, stacks, instruction) matches Ok(next) ==> well_formed(next)
            && same_frames(stacks.frames, next.frames),
{
    let i32_operand = Operand::Value(ValueType::I32);
    lemma_pop_operand_expected_well_formed(stacks, i32_operand);
    match instruction.immediate {
        Immediate::Nothing => {
            let opcode = instruction.opcode;
            lemma_set_unreachable_well_formed(stacks);
            if opcode == 0x0F && stacks.frames.len() > 0 {
                lemma_pop_operands_well_formed(stacks, values(stacks.frames.first().label_types));
                if let Ok(rest) = pop_operands(stacks, values(stacks.frames.first().label_types)) {
                    lemma_set_unreachable_well_formed(rest);
                }
            } else if opcode == 0x1B {
                if let Ok((_, first)) = pop_operand_expected(stacks, i32_operand) {
                    lemma_pop_operand_expected_well_formed(first, i32_operand);
                    if let Ok((_, second)) = pop_operand(first) {
                        lemma_pop_operand_expected_well_formed(second, i32_operand);
                    }
                }
            } else if let Some((operand, binary, result)) = operator_type(opcode) {
                lemma_pop_operand_expected_well_formed(stacks, Operand::Value(operand));
                if let Ok((_, first)) = pop_operand_expected(stacks, Operand::Value(operand)) {
                    lemma_pop_operand_expected_well_formed(first, Operand::Value(operand));
                }
            }
        },
        Immediate::Index(index) => {
            let opcode = instruction.opcode;
            if opcode == 0x0C {
                if let Ok(types) = label_types(stacks, index) {
                    lemma_pop_operands_well_formed(stacks, values(types));
                    if let Ok(rest) = pop_operands(stacks, values(types)) {
                        lemma_set_unreachable_well_formed(rest);
                    }
                }
            } else if opcode == 0x0D {
                if let Ok((_, first)) = pop_operand_expected(stacks, i32_operand) {
                    if let Ok(types) = label_types(first, index) {
                        lemma_pop_operands_well_formed(first, values(types));
                    }
                }
            } else if opcode == 0x10 {
                if let Ok(type_index) = entry(context.functions, index, INVALID_FUNCTION_REFERENCE) {
                    if let Ok(function_type) = entry(
                        context.function_types,
                        type_index,
                        INVALID_FUNCTION_TYPE_REFERENCE,
                    ) {
                        lemma_pop_operands_well_formed(stacks, values(function_type.0));
                    }
                }
            } else if opcode == 0x11 {
                if let Ok(function_type) = entry(
                    context.function_types,
                    index,
                    INVALID_FUNCTION_TYPE_REFERENCE,
                ) {
                    if let Ok((_, first)) = pop_operand_expected(stacks, i32_operand) {
                        lemma_pop_operands_well_formed(first, values(function_type.0));
                    }
                }
            } else if opcode == 0x21 || opcode == 0x22 {
                if let Ok(local) = entry(context.locals, index, INVALID_LOCAL_REFERENCE) {
                    lemma_pop_operand_expected_well_formed(stacks, Operand::Value(local));
                }
            } else if opcode != 0x20 && opcode != 0x23 {
                if let Ok(global) = entry(context.globals, index, INVALID_GLOBAL_REFERENCE) {
                    lemma_pop_operand_expected_well_formed(stacks, Operand::Value(global.value_type));
                }
            }
        },
        Immediate::Table(labels, default) => {
            if let Ok((_, first)) = pop_operand_expected(stacks, i32_operand) {
                if let Ok(types) = label_types(first, default) {
                    lemma_pop_operands_well_formed(first, values(types));
                    if let Ok(rest) = pop_operands(first, values(types)) {
                        lemma_set_unreachable_well_formed(rest);
                    }
                }
            }
        },
        Immediate::Memory(arg) => {
            let value = Operand::Value(access_type(instruction.opcode).0);
            lemma_pop_operand_expected_well_formed(stacks, value);
            if let Ok((_, first)) = pop_operand_expected(stacks, value) {
                lemma_pop_operand_expected_well_formed(first, i32_operand);
            }
        },
        _ => {},
    }
}

/// Every instruction keeps well-formed stacks well formed, and leaves the frames that it
/// found, but for what has become unreachable.
pub proof fn lemma_instruction_keeps_well_formed(
    context: ContextView,
    stacks: Stacks,
    instruction: InstructionView,
)
    requires
        well_formed(stacks),
    ensures
        after_instruction(context, stacks, instruction) matches Ok(next) ==> well_formed(next)
            && same_frames(stacks.frames, next.frames),
    decreases instruction, 0nat,
{
    let i32_operand = Operand::Value(ValueType::I32);
    match instruction.immediate {
        Immediate::Block(block_type, body) => {
            let results = block_results(block_type);
            let labels = if instruction.opcode == 0x03 {
                Seq::empty()
            } else {
                results
            };
            lemma_frame_keeps_well_formed(context, stacks, labels, results, body);
        },
        Immediate::If(block_type, then_body, else_body) => {
            let results = block_results(block_type);
            lemma_pop_operand_expected_well_formed(stacks, i32_operand);
            if let Ok((_, rest)) = pop_operand_expected(stacks, i32_operand) {
                match else_body {
                    None => {
                        lemma_frame_keeps_well_formed(context, rest, results, results, then_body);
                    },
                    Some(else_body) => {
                        let entered = push_control(rest, results, results);
                        lemma_instructions_keep_well_formed(context, entered, then_body);
                        if let Ok(middle) = after_instructions(context, entered, then_body) {
                            lemma_pop_control_well_formed(middle);
                            if let Ok((_, left)) = pop_control(middle) {
                                lemma_frame_keeps_well_formed(
                                    context,
                                    left,
                                    results,
                                    results,
                                    else_body,
                                );
                                assert(same_frames(rest.frames, left.frames)) by {
                                    assert forall|i: int| 0 <= i < rest.frames.len() implies (
                                    #[trigger] left.frames[i]) == (FrameView {
                                        unreachable: left.frames[i].unreachable,
                                        ..rest.frames[i]
                                    }) by {
                                        assert(left.frames[i] == middle.frames[i]);
                                        assert(entered.frames[i] == rest.frames[i]);
                                    }
                                }
                            }
                        }
                    },
                }
            }
        },
        _ => {
            lemma_flat_well_formed(context, stacks, instruction);
        },
    }
}

/// See [`lemma_instruction_keeps_well_formed`]: entering a frame, following its
/// instructions and leaving it.
proof fn lemma_frame_keeps_well_formed(
    context: ContextView,
    stacks: Stacks,
    labels: Seq<ValueType>,
    results: Seq<ValueType>,
    body: Seq<InstructionView>,
)
    requires
        well_formed(stacks),
    ensures
        after_frame(context, push_control(stacks, labels, results), body) matches Ok(next)
            ==> well_formed(next) && same_frames(stacks.frames, next.frames),
    decreases body, 2nat,
{
    let entered = push_control(stacks, labels, results);
    lemma_instructions_keep_well_formed(context, entered, body);
    if let Ok(inside) = after_instructions(context, entered, body) {
        lemma_pop_control_well_formed(inside);
        if let Ok((types, outside)) = pop_control(inside) {
            lemma_push_well_formed(outside, values(types), Operand::Unknown);
            assert forall|i: int| 0 <= i < stacks.frames.len() implies (
            #[trigger] outside.frames[i]) == (FrameView {
                unreachable: outside.frames[i].unreachable,
                ..stacks.frames[i]
            }) by {
                assert(outside.frames[i] == inside.frames[i]);
                assert(entered.frames[i] == stacks.frames[i]);
            }
        }
    }
}

/// See [`lemma_instruction_keeps_well_formed`]: a sequence of instructions.
pub proof fn lemma_instructions_keep_well_formed(
    context: ContextView,
    stacks: Stacks,
    instructions: Seq<InstructionView>,
)
    requires
        well_formed(stacks),
    ensures
        after_instructions(context, stacks, instructions) matches Ok(next) ==> well_formed(next)
            && same_frames(stacks.frames, next.frames),
    decreases instructions, 1nat,
{
    if instructions.len() > 0 {
        lemma_instruction_keeps_well_formed(context, stacks, instructions.first());
        if let Ok(next) = after_instruction(context, stacks, instructions.first()) {
            lemma_instructions_keep_well_formed(context, next, instructions.drop_first());
        }
    }
}

/// The stacks that the check of an expression starts from are well formed.
pub proof fn lemma_entered_expression_well_formed(results: Seq<ValueType>)
    ensures
        well_formed(
            push_control(
                Stacks { operands: Seq::empty(), frames: Seq::empty() },
                results,
                results,
            ),
        ),
{
}

/// On well-formed stacks the operand stack is at the height of the top frame exactly
/// where it is not above it: nothing can be taken at that height and at no other.
pub proof fn lemma_bottom_of_frame(stacks: Stacks)
    requires
        well_formed(stacks),
        stacks.frames.len() > 0,
    ensures
        stacks.operands.len() <= stacks.frames.last().height <==> stacks.operands.len()
            == stacks.frames.last().height,
{
}

} // verus!
