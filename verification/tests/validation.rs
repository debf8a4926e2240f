use weaselm::decoder::modules::decode;
use weaselm::types::{
    BlockType, Data, Element, ElementType, Export, Function, Global, GlobalType,
    GlobalTypeMutability, Import, ImportDescriptor, Index, Instruction, Limits, Memory, MemoryArg,
    MemoryType, Module, StartFunction, Table, TableType, ValueType,
};
use weaselm::validation::instructions::{
    validate_constant_expression, validate_expression, ControlFrame, ExpressionContext, Operand,
};
use weaselm::validation::modules::{validate, validate_function};
use weaselm::validation::types::{
    validate_function_type, validate_global_type, validate_limits, validate_memory_type,
    validate_table_type,
};
use weaselm::validation::{Context, ValidationError};

fn broken(message: &str) -> Result<(), ValidationError> {
    Err(ValidationError { message: String::from(message) })
}

fn empty<'a>() -> Module<'a> {
    Module {
        custom_sections: vec![],
        function_types: vec![],
        functions: vec![],
        tables: vec![],
        memories: vec![],
        globals: vec![],
        elements: vec![],
        data: vec![],
        start: None,
        imports: vec![],
        exports: vec![],
    }
}

fn memory(min: u32) -> Memory {
    Memory { memory_type: MemoryType { limits: Limits { min, max: None } } }
}

fn table(min: u32) -> Table {
    Table {
        table_type: TableType {
            limits: Limits { min, max: None },
            element_type: ElementType::FuncRef,
        },
    }
}

fn global(
    value_type: ValueType,
    mutability: GlobalTypeMutability,
    init: Vec<Instruction>,
) -> Global {
    Global { global_type: GlobalType { value_type, mutability }, init }
}

fn import(descriptor: ImportDescriptor) -> Import {
    Import { module: String::from("env"), name: String::from("it"), descriptor }
}

/// A module with one memory, one table, a function type `(i32, i64) -> i32` at 0, `() -> ()`
/// at 1, and one function of type 0 with the given locals and body.
fn with_body<'a>(locals: Vec<(u32, ValueType)>, body: Vec<Instruction>) -> Module<'a> {
    let mut module = empty();
    module.function_types = vec![
        (vec![ValueType::I32, ValueType::I64], vec![ValueType::I32]),
        (vec![], vec![]),
    ];
    module.functions = vec![Function { function_type: 0, locals, body }];
    module.memories = vec![memory(1)];
    module.tables = vec![table(1)];
    module.globals = vec![
        global(ValueType::I32, GlobalTypeMutability::Const, vec![Instruction::I32Const(0)]),
        global(ValueType::F64, GlobalTypeMutability::Var, vec![Instruction::F64Const(0)]),
    ];
    module
}

fn check_body(body: Vec<Instruction>) -> Result<(), ValidationError> {
    validate(&with_body(vec![], body))
}

fn mismatch(expected: &str, received: &str) -> Result<(), ValidationError> {
    Err(ValidationError {
        message: format!("Mismatching type. Expected {} but received {}", expected, received),
    })
}

#[test]
fn error_constructors() {
    assert_eq!(ValidationError::from("a b").message, "a b");
    assert_eq!(ValidationError::from_string(String::from("c")).message, "c");
}

#[test]
fn limits_within_range() {
    assert_eq!(validate_limits(&Limits { min: 0, max: None }, 10), Ok(()));
    assert_eq!(validate_limits(&Limits { min: 10, max: None }, 10), Ok(()));
    assert_eq!(validate_limits(&Limits { min: 3, max: Some(3) }, 10), Ok(()));
    assert_eq!(validate_limits(&Limits { min: 3, max: Some(10) }, 10), Ok(()));
}

#[test]
fn limits_out_of_range() {
    assert_eq!(
        validate_limits(&Limits { min: 11, max: None }, 10),
        broken("Limit minimum is above valid range")
    );
    assert_eq!(
        validate_limits(&Limits { min: 11, max: Some(12) }, 10),
        broken("Limit minimum is above valid range")
    );
    assert_eq!(
        validate_limits(&Limits { min: 1, max: Some(11) }, 10),
        broken("Limit maximum is above valid range")
    );
    assert_eq!(
        validate_limits(&Limits { min: 5, max: Some(4) }, 10),
        broken("Limit maximum is below minimum")
    );
}

#[test]
fn memory_limits_count_pages_up_to_two_to_the_16() {
    let of = |min, max| MemoryType { limits: Limits { min, max } };
    assert_eq!(validate_memory_type(&of(65536, None)), Ok(()));
    assert_eq!(validate_memory_type(&of(0, Some(65536))), Ok(()));
    assert_eq!(
        validate_memory_type(&of(65537, None)),
        broken("Limit minimum is above valid range")
    );
    assert_eq!(
        validate_memory_type(&of(0, Some(65537))),
        broken("Limit maximum is above valid range")
    );
}

#[test]
fn table_limits_take_every_size() {
    let of = |min, max| TableType {
        limits: Limits { min, max },
        element_type: ElementType::FuncRef,
    };
    assert_eq!(validate_table_type(&of(u32::MAX, Some(u32::MAX))), Ok(()));
    assert_eq!(validate_table_type(&of(0, None)), Ok(()));
    assert_eq!(validate_table_type(&of(2, Some(1))), broken("Limit maximum is below minimum"));
}

#[test]
fn function_type_has_at_most_one_result() {
    assert_eq!(validate_function_type(&(vec![ValueType::I32; 5], vec![])), Ok(()));
    assert_eq!(validate_function_type(&(vec![], vec![ValueType::F32])), Ok(()));
    assert_eq!(
        validate_function_type(&(vec![], vec![ValueType::F32, ValueType::F32])),
        broken("Too many return value")
    );
}

#[test]
fn every_global_type_is_valid() {
    let global_type = GlobalType {
        value_type: ValueType::F32,
        mutability: GlobalTypeMutability::Var,
    };
    assert_eq!(validate_global_type(&global_type), Ok(()));
}

#[test]
fn context_puts_imports_first() {
    let mut module = with_body(vec![], vec![Instruction::Unreachable]);
    let imported_table = TableType {
        limits: Limits { min: 7, max: None },
        element_type: ElementType::FuncRef,
    };
    let imported_memory = MemoryType { limits: Limits { min: 9, max: None } };
    let imported_global = GlobalType {
        value_type: ValueType::I64,
        mutability: GlobalTypeMutability::Const,
    };
    module.imports = vec![
        import(ImportDescriptor::Global(imported_global)),
        import(ImportDescriptor::Function(1)),
        import(ImportDescriptor::Table(imported_table)),
        import(ImportDescriptor::Memory(imported_memory)),
        import(ImportDescriptor::Function(0)),
    ];
    let context = Context::new(&module);
    assert_eq!(context.functions, vec![1, 0, 0]);
    assert_eq!(context.get_function(0).unwrap(), 1);
    assert_eq!(context.get_function(2).unwrap(), 0);
    assert_eq!(context.get_table(0).unwrap(), imported_table);
    assert_eq!(context.get_table(1).unwrap(), module.tables[0].table_type);
    assert_eq!(context.get_memory(0).unwrap(), imported_memory);
    assert_eq!(context.get_global(0).unwrap(), imported_global);
    assert_eq!(context.get_global(1).unwrap(), module.globals[0].global_type);
    assert_eq!(context.imported_globals, 1);
    assert!(context.locals.is_empty());
    assert_eq!(context.get_function_type(1).unwrap(), &(vec![], vec![]));
}

#[test]
fn context_lookups_out_of_bounds() {
    let module = with_body(vec![], vec![]);
    let context = Context::new(&module);
    assert_eq!(
        context.get_function_type(2).err().unwrap().message,
        "Invalid function type reference",
    );
    assert_eq!(context.get_function(1).err().unwrap().message, "Invalid function reference");
    assert_eq!(context.get_table(1).err().unwrap().message, "Invalid table reference");
    assert_eq!(context.get_memory(1).err().unwrap().message, "Invalid memory reference");
    assert_eq!(context.get_global(2).err().unwrap().message, "Invalid global reference");
    assert_eq!(context.get_local(0).err().unwrap().message, "Invalid local reference");
}

#[test]
fn operand_stack_push_and_pop() {
    let mut stacks = ExpressionContext::new();
    assert_eq!(stacks.pop_operand().err().unwrap().message, "Unexpected empty frame stack");
    assert_eq!(stacks.top_frame().err().unwrap().message, "Unexpected empty frame stack");
    stacks.push_control(vec![], vec![]);
    assert_eq!(stacks.pop_operand().err().unwrap().message, "stack underflow");
    stacks.push_operand(Operand::Value(ValueType::I32));
    stacks.push_operand(Operand::Value(ValueType::F64));
    assert_eq!(stacks.pop_operand(), Ok(Operand::Value(ValueType::F64)));
    assert_eq!(stacks.pop_operand(), Ok(Operand::Value(ValueType::I32)));
    assert_eq!(stacks.pop_operand().err().unwrap().message, "stack underflow");
}

#[test]
fn operand_stack_inner_frame_cannot_take_outer_operands() {
    let mut stacks = ExpressionContext::new();
    stacks.push_control(vec![], vec![]);
    stacks.push_operand(Operand::Value(ValueType::I32));
    stacks.push_control(vec![], vec![]);
    assert_eq!(stacks.top_frame().unwrap().height, 1);
    assert_eq!(stacks.pop_operand().err().unwrap().message, "stack underflow");
    assert_eq!(stacks.operands.len(), 1);
}

#[test]
fn operand_stack_expected_types() {
    let i32_operand = Operand::Value(ValueType::I32);
    let i64_operand = Operand::Value(ValueType::I64);
    let mut stacks = ExpressionContext::new();
    stacks.push_control(vec![], vec![]);
    stacks.push_operand(i32_operand);
    assert_eq!(stacks.pop_operand_expected(&i32_operand), Ok(i32_operand));
    stacks.push_operand(i64_operand);
    assert_eq!(stacks.pop_operand_expected(&Operand::Unknown), Ok(i64_operand));
    stacks.push_operand(i64_operand);
    assert_eq!(
        stacks.pop_operand_expected(&i32_operand).err().unwrap().message,
        "Mismatching type. Expected Value(I32) but received Value(I64)"
    );
    stacks.push_operand(Operand::Value(ValueType::F32));
    assert_eq!(
        stacks.pop_operand_expected(&Operand::Value(ValueType::F64)).err().unwrap().message,
        "Mismatching type. Expected Value(F64) but received Value(F32)"
    );
}

#[test]
fn operand_stack_unknown_operands_after_unreachable() {
    let i32_operand = Operand::Value(ValueType::I32);
    let mut stacks = ExpressionContext::new();
    stacks.push_control(vec![], vec![]);
    stacks.push_operand(i32_operand);
    stacks.push_operand(i32_operand);
    stacks.push_control(vec![], vec![]);
    stacks.push_operand(Operand::Value(ValueType::F32));
    assert_eq!(stacks.unreachable(), Ok(()));
    assert_eq!(stacks.operands, vec![i32_operand, i32_operand]);
    assert!(stacks.top_frame().unwrap().unreachable);
    assert!(!stacks.frames[0].unreachable);
    assert_eq!(stacks.pop_operand(), Ok(Operand::Unknown));
    assert_eq!(stacks.pop_operand_expected(&i32_operand), Ok(i32_operand));
    assert_eq!(stacks.operands.len(), 2);
    stacks.push_operand(Operand::Value(ValueType::I64));
    assert_eq!(stacks.pop_operand(), Ok(Operand::Value(ValueType::I64)));
    assert_eq!(stacks.pop_operand(), Ok(Operand::Unknown));
}

#[test]
fn operand_stack_many_at_once() {
    let a = Operand::Value(ValueType::I32);
    let b = Operand::Value(ValueType::I64);
    let c = Operand::Value(ValueType::F32);
    let mut stacks = ExpressionContext::new();
    stacks.push_control(vec![], vec![]);
    stacks.push_operands(vec![a, b, c]);
    assert_eq!(stacks.operands, vec![a, b, c]);
    assert_eq!(stacks.pop_operands(&vec![b, c]), Ok(()));
    assert_eq!(stacks.operands, vec![a]);
    stacks.push_operands(vec![b, c]);
    assert_eq!(
        stacks.pop_operands(&vec![c, b]).err().unwrap().message,
        "Mismatching type. Expected Value(I64) but received Value(F32)"
    );
    assert_eq!(stacks.pop_operands(&vec![]), Ok(()));
}

#[test]
fn control_stack_push_and_pop() {
    let mut stacks = ExpressionContext::new();
    assert_eq!(stacks.pop_control().err().unwrap().message, "Unexpected empty frame stack");
    assert_eq!(stacks.unreachable().err().unwrap().message, "Unexpected empty frame stack");
    stacks.push_operand(Operand::Value(ValueType::F64));
    stacks.push_control(vec![ValueType::I32], vec![ValueType::I64]);
    {
        let frame: &ControlFrame = stacks.top_frame().unwrap();
        assert_eq!(frame.label_types, vec![ValueType::I32]);
        assert_eq!(frame.end_types, vec![ValueType::I64]);
        assert_eq!(frame.height, 1);
        assert!(!frame.unreachable);
    }
    assert_eq!(stacks.pop_control().err().unwrap().message, "stack underflow");
    stacks.push_operand(Operand::Value(ValueType::I64));
    assert_eq!(stacks.pop_control(), Ok(vec![ValueType::I64]));
    assert!(stacks.frames.is_empty());
    assert_eq!(stacks.operands, vec![Operand::Value(ValueType::F64)]);
}

#[test]
fn control_stack_height_has_to_match() {
    let mut stacks = ExpressionContext::new();
    stacks.push_control(vec![], vec![ValueType::I32]);
    stacks.push_operand(Operand::Value(ValueType::I32));
    stacks.push_operand(Operand::Value(ValueType::I32));
    assert_eq!(stacks.pop_control().err().unwrap().message, "Mismatching frame height");
}

#[test]
fn labels_count_from_the_top_frame() {
    let mut stacks = ExpressionContext::new();
    stacks.push_control(vec![ValueType::I32], vec![]);
    stacks.push_control(vec![ValueType::I64], vec![]);
    stacks.push_control(vec![], vec![ValueType::F32]);
    assert_eq!(stacks.label_types(0), Ok(vec![]));
    assert_eq!(stacks.label_types(1), Ok(vec![ValueType::I64]));
    assert_eq!(stacks.label_types(2), Ok(vec![ValueType::I32]));
    assert_eq!(stacks.label_types(3).err().unwrap().message, "Invalid label reference");
}

#[test]
fn empty_module_is_valid() {
    assert_eq!(validate(&empty()), Ok(()));
    let bytes = [0x00, 0x61, 0x73, 0x6D, 0x01, 0x00, 0x00, 0x00];
    assert_eq!(validate(&decode(&bytes).unwrap()), Ok(()));
}

#[test]
fn body_has_to_leave_the_results() {
    assert_eq!(check_body(vec![Instruction::I32Const(1)]), Ok(()));
    assert_eq!(check_body(vec![]), broken("stack underflow"));
    assert_eq!(check_body(vec![Instruction::I64Const(1)]), mismatch("Value(I32)", "Value(I64)"));
    assert_eq!(
        check_body(vec![Instruction::I32Const(1), Instruction::I32Const(1)]),
        broken("Mismatching frame height")
    );
}

#[test]
fn locals_are_the_parameters_then_the_groups() {
    let body = |index| vec![
        Instruction::LocalGet(index),
        Instruction::Drop,
        Instruction::I32Const(0),
    ];
    let groups = vec![(2, ValueType::F32), (0, ValueType::I32), (1, ValueType::F64)];
    for index in 0..5 {
        assert_eq!(validate(&with_body(groups.clone(), body(index))), Ok(()));
    }
    assert_eq!(validate(&with_body(groups.clone(), body(5))), broken("Invalid local reference"));
    let typed = |index, constant| vec![
        constant,
        Instruction::LocalSet(index),
        Instruction::I32Const(0),
    ];
    assert_eq!(validate(&with_body(groups.clone(), typed(0, Instruction::I32Const(0)))), Ok(()));
    assert_eq!(validate(&with_body(groups.clone(), typed(1, Instruction::I64Const(0)))), Ok(()));
    assert_eq!(validate(&with_body(groups.clone(), typed(2, Instruction::F32Const(0)))), Ok(()));
    assert_eq!(validate(&with_body(groups.clone(), typed(3, Instruction::F32Const(0)))), Ok(()));
    assert_eq!(validate(&with_body(groups.clone(), typed(4, Instruction::F64Const(0)))), Ok(()));
    assert_eq!(
        validate(&with_body(groups, typed(4, Instruction::F32Const(0)))),
        mismatch("Value(F64)", "Value(F32)")
    );
}

#[test]
fn validate_function_sets_and_clears_the_locals() {
    let module = with_body(vec![(1, ValueType::F32)], vec![Instruction::LocalGet(0)]);
    let mut context = Context::new(&module);
    context.locals = vec![ValueType::F64];
    assert_eq!(validate_function(&mut context, &module.functions[0]), Ok(()));
    assert!(context.locals.is_empty());
    let other = Function { function_type: 9, locals: vec![], body: vec![] };
    context.locals = vec![ValueType::F64];
    assert_eq!(
        validate_function(&mut context, &other),
        broken("Invalid function type reference")
    );
    assert!(context.locals.is_empty());
}

#[test]
fn local_tee_keeps_the_value() {
    assert_eq!(check_body(vec![Instruction::I32Const(1), Instruction::LocalTee(0)]), Ok(()));
    assert_eq!(
        check_body(vec![Instruction::I32Const(1), Instruction::LocalTee(1)]),
        mismatch("Value(I64)", "Value(I32)")
    );
}

#[test]
fn globals_get_and_set() {
    assert_eq!(check_body(vec![Instruction::GlobalGet(0)]), Ok(()));
    assert_eq!(check_body(vec![Instruction::GlobalGet(1)]), mismatch("Value(I32)", "Value(F64)"));
    assert_eq!(check_body(vec![Instruction::GlobalGet(2)]), broken("Invalid global reference"));
    assert_eq!(
        check_body(
            vec![Instruction::F64Const(0), Instruction::GlobalSet(1), Instruction::I32Const(0)],
        ),
        Ok(())
    );
    assert_eq!(
        check_body(
            vec![Instruction::I32Const(0), Instruction::GlobalSet(0), Instruction::I32Const(0)],
        ),
        broken("Invalid global.set on a non variable global")
    );
    assert_eq!(
        check_body(vec![Instruction::I32Const(0), Instruction::GlobalSet(1)]),
        mismatch("Value(F64)", "Value(I32)")
    );
}

#[test]
fn drop_and_select() {
    assert_eq!(
        check_body(vec![Instruction::F32Const(0), Instruction::Drop, Instruction::I32Const(0)]),
        Ok(())
    );
    assert_eq!(check_body(vec![Instruction::Drop]), broken("stack underflow"));
    let select = |first, second, condition| vec![first, second, condition, Instruction::Select];
    assert_eq!(
        check_body(
            select(Instruction::I32Const(1), Instruction::I32Const(2), Instruction::I32Const(0)),
        ),
        Ok(())
    );
    assert_eq!(
        check_body(
            select(Instruction::I32Const(1), Instruction::I64Const(2), Instruction::I32Const(0)),
        ),
        broken("Invalid select instruction argument")
    );
    assert_eq!(
        check_body(
            select(Instruction::I32Const(1), Instruction::I32Const(2), Instruction::I64Const(0)),
        ),
        mismatch("Value(I32)", "Value(I64)")
    );
    assert_eq!(
        check_body(
            select(Instruction::F64Const(1), Instruction::F64Const(2), Instruction::I32Const(0)),
        ),
        mismatch("Value(I32)", "Value(F64)")
    );
}

#[test]
fn select_in_code_that_is_never_reached() {
    assert_eq!(check_body(vec![Instruction::Unreachable, Instruction::Select]), Ok(()));
    assert_eq!(
        check_body(vec![Instruction::Unreachable, Instruction::I64Const(0), Instruction::Select]),
        mismatch("Value(I32)", "Value(I64)")
    );
    assert_eq!(
        check_body(vec![
            Instruction::Unreachable,
            Instruction::I64Const(0),
            Instruction::I32Const(0),
            Instruction::Select
        ]),
        mismatch("Value(I32)", "Value(I64)")
    );
    assert_eq!(
        check_body(vec![
            Instruction::Unreachable,
            Instruction::F32Const(0),
            Instruction::I32Const(0),
            Instruction::Select,
            Instruction::Drop,
            Instruction::I32Const(0)
        ]),
        Ok(())
    );
}

#[test]
fn numeric_operators() {
    let unary = |constant, operator| vec![
        constant,
        operator,
        Instruction::Drop,
        Instruction::I32Const(0),
    ];
    assert_eq!(check_body(vec![Instruction::I32Const(0), Instruction::I32Eqz]), Ok(()));
    assert_eq!(check_body(vec![Instruction::I64Const(0), Instruction::I64Eqz]), Ok(()));
    assert_eq!(check_body(vec![Instruction::I32Const(0), Instruction::I32Clz]), Ok(()));
    assert_eq!(check_body(unary(Instruction::I64Const(0), Instruction::I64Popcnt)), Ok(()));
    assert_eq!(check_body(unary(Instruction::F32Const(0), Instruction::F32Sqrt)), Ok(()));
    assert_eq!(check_body(unary(Instruction::F64Const(0), Instruction::F64Neg)), Ok(()));
    assert_eq!(
        check_body(unary(Instruction::F64Const(0), Instruction::F32Neg)),
        mismatch("Value(F32)", "Value(F64)")
    );
    let binary = |left, right, operator| vec![left, right, operator];
    assert_eq!(
        check_body(binary(Instruction::I32Const(0), Instruction::I32Const(0), Instruction::I32Add)),
        Ok(())
    );
    assert_eq!(
        check_body(binary(Instruction::I64Const(0), Instruction::I64Const(0), Instruction::I64LtS)),
        Ok(())
    );
    assert_eq!(
        check_body(binary(Instruction::F32Const(0), Instruction::F32Const(0), Instruction::F32Ge)),
        Ok(())
    );
    assert_eq!(
        check_body(binary(Instruction::F64Const(0), Instruction::F64Const(0), Instruction::F64Eq)),
        Ok(())
    );
    assert_eq!(
        check_body(binary(Instruction::I64Const(0), Instruction::I64Const(0), Instruction::I64Add)),
        mismatch("Value(I32)", "Value(I64)")
    );
    assert_eq!(
        check_body(binary(Instruction::I32Const(0), Instruction::I64Const(0), Instruction::I64Add)),
        mismatch("Value(I64)", "Value(I32)")
    );
    assert_eq!(
        check_body(vec![Instruction::I32Const(0), Instruction::I32Add]),
        broken("stack underflow"),
    );
}

#[test]
fn binary_float_operators_take_two_operands() {
    let operators = [
        Instruction::F64Add,
        Instruction::F64Sub,
        Instruction::F64Mul,
        Instruction::F64Div,
        Instruction::F64Min,
        Instruction::F64Max,
        Instruction::F64CopySign,
    ];
    for operator in operators {
        let code = operator.code();
        assert_eq!(
            check_body(
                vec![
                    Instruction::F64Const(0),
                    operator,
                    Instruction::Drop,
                    Instruction::I32Const(0),
                ],
            ),
            broken("stack underflow"),
            "opcode {}",
            code
        );
    }
    assert_eq!(
        check_body(vec![
            Instruction::F64Const(0),
            Instruction::F64Const(0),
            Instruction::F64CopySign,
            Instruction::Drop,
            Instruction::I32Const(0)
        ]),
        Ok(())
    );
}

#[test]
fn conversions_take_the_source_and_leave_the_target() {
    let cases = [
        (Instruction::I32WrapI64, Instruction::I64Const(0), Instruction::I32Eqz),
        (Instruction::I32TruncSF32, Instruction::F32Const(0), Instruction::I32Eqz),
        (Instruction::I32TruncUF64, Instruction::F64Const(0), Instruction::I32Eqz),
        (Instruction::I64ExtendSI32, Instruction::I32Const(0), Instruction::I64Eqz),
        (Instruction::I64ExtendUI32, Instruction::I32Const(0), Instruction::I64Eqz),
        (Instruction::I64TruncSF32, Instruction::F32Const(0), Instruction::I64Eqz),
        (Instruction::I64TruncUF64, Instruction::F64Const(0), Instruction::I64Eqz),
        (Instruction::I32ReinterpretF32, Instruction::F32Const(0), Instruction::I32Eqz),
        (Instruction::I64ReinterpretF64, Instruction::F64Const(0), Instruction::I64Eqz),
    ];
    for (conversion, source, test) in cases {
        assert_eq!(check_body(vec![source, conversion, test]), Ok(()));
    }
    let to_float = [
        (Instruction::F32ConvertSI32, Instruction::I32Const(0), Instruction::F32Neg),
        (Instruction::F32ConvertUI64, Instruction::I64Const(0), Instruction::F32Neg),
        (Instruction::F32DemoteF64, Instruction::F64Const(0), Instruction::F32Neg),
        (Instruction::F64ConvertSI32, Instruction::I32Const(0), Instruction::F64Neg),
        (Instruction::F64ConvertUI64, Instruction::I64Const(0), Instruction::F64Neg),
        (Instruction::F64PromoteF32, Instruction::F32Const(0), Instruction::F64Neg),
        (Instruction::F32ReinterpretI32, Instruction::I32Const(0), Instruction::F32Neg),
        (Instruction::F64ReinterpretI64, Instruction::I64Const(0), Instruction::F64Neg),
    ];
    for (conversion, source, operator) in to_float {
        assert_eq!(
            check_body(
                vec![source, conversion, operator, Instruction::Drop, Instruction::I32Const(0)],
            ),
            Ok(())
        );
    }
    assert_eq!(
        check_body(vec![Instruction::I64Const(0), Instruction::I64ExtendSI32]),
        mismatch("Value(I32)", "Value(I64)")
    );
}

#[test]
fn loads() {
    let load = |instruction| vec![Instruction::I32Const(0), instruction];
    let arg = |align| MemoryArg { align, offset: 0 };
    assert_eq!(check_body(load(Instruction::I32Load(arg(2)))), Ok(()));
    assert_eq!(check_body(load(Instruction::I32Load(arg(0)))), Ok(()));
    assert_eq!(check_body(load(Instruction::I32Load(arg(3)))), broken("Invalid memory alignment"));
    assert_eq!(check_body(load(Instruction::I32Load8S(arg(0)))), Ok(()));
    assert_eq!(
        check_body(load(Instruction::I32Load8U(arg(1)))),
        broken("Invalid memory alignment"),
    );
    assert_eq!(check_body(load(Instruction::I32Load16S(arg(1)))), Ok(()));
    assert_eq!(
        check_body(load(Instruction::I32Load16U(arg(2)))),
        broken("Invalid memory alignment"),
    );
    assert_eq!(
        check_body(load(Instruction::I64Load(arg(3)))),
        mismatch("Value(I32)", "Value(I64)"),
    );
    assert_eq!(check_body(load(Instruction::I64Load(arg(4)))), broken("Invalid memory alignment"));
    assert_eq!(check_body(load(Instruction::F64Load(arg(4)))), broken("Invalid memory alignment"));
    assert_eq!(check_body(load(Instruction::F32Load(arg(3)))), broken("Invalid memory alignment"));
    assert_eq!(
        check_body(load(Instruction::I64Load32U(arg(3)))),
        broken("Invalid memory alignment"),
    );
    assert_eq!(
        check_body(load(Instruction::I64Load32S(arg(2)))),
        mismatch("Value(I32)", "Value(I64)"),
    );
    assert_eq!(
        check_body(vec![Instruction::I64Const(0), Instruction::I32Load(arg(0))]),
        mismatch("Value(I32)", "Value(I64)")
    );
}

#[test]
fn alignment_far_beyond_any_width() {
    let load = |align| vec![
        Instruction::I32Const(0),
        Instruction::I64Load(MemoryArg { align, offset: 0 }),
    ];
    assert_eq!(check_body(load(31)), broken("Invalid memory alignment"));
    assert_eq!(check_body(load(32)), broken("Invalid memory alignment"));
    assert_eq!(check_body(load(33)), broken("Invalid memory alignment"));
    assert_eq!(check_body(load(u32::MAX)), broken("Invalid memory alignment"));
}

#[test]
fn stores() {
    let store = |value, instruction| vec![
        Instruction::I32Const(0),
        value,
        instruction,
        Instruction::I32Const(0),
    ];
    let arg = |align| MemoryArg { align, offset: 4 };
    assert_eq!(check_body(store(Instruction::I32Const(1), Instruction::I32Store(arg(2)))), Ok(()));
    assert_eq!(check_body(store(Instruction::I64Const(1), Instruction::I64Store(arg(3)))), Ok(()));
    assert_eq!(check_body(store(Instruction::F32Const(1), Instruction::F32Store(arg(2)))), Ok(()));
    assert_eq!(check_body(store(Instruction::F64Const(1), Instruction::F64Store(arg(3)))), Ok(()));
    assert_eq!(check_body(store(Instruction::I32Const(1), Instruction::I32Store8(arg(0)))), Ok(()));
    assert_eq!(
        check_body(store(Instruction::I32Const(1), Instruction::I32Store16(arg(1)))),
        Ok(()),
    );
    assert_eq!(check_body(store(Instruction::I64Const(1), Instruction::I64Store8(arg(0)))), Ok(()));
    assert_eq!(
        check_body(store(Instruction::I64Const(1), Instruction::I64Store16(arg(1)))),
        Ok(()),
    );
    assert_eq!(
        check_body(store(Instruction::I64Const(1), Instruction::I64Store32(arg(2)))),
        Ok(()),
    );
    assert_eq!(
        check_body(store(Instruction::I64Const(1), Instruction::I64Store32(arg(3)))),
        broken("Invalid memory alignment")
    );
    assert_eq!(
        check_body(store(Instruction::I32Const(1), Instruction::I64Store(arg(0)))),
        mismatch("Value(I64)", "Value(I32)")
    );
    assert_eq!(
        check_body(
            vec![Instruction::I64Const(1), Instruction::I32Const(0), Instruction::I32Store(arg(0))],
        ),
        mismatch("Value(I32)", "Value(I64)")
    );
}

#[test]
fn memory_instructions_need_a_memory() {
    let mut module = with_body(
        vec![],
        vec![Instruction::I32Const(0), Instruction::I32Load(MemoryArg { align: 9, offset: 0 })],
    );
    module.memories = vec![];
    assert_eq!(validate(&module), broken("Invalid memory reference"));
    module.functions[0].body = vec![Instruction::MemorySize];
    assert_eq!(validate(&module), broken("Invalid memory reference"));
    module.functions[0].body = vec![Instruction::I32Const(0), Instruction::MemoryGrow];
    assert_eq!(validate(&module), broken("Invalid memory reference"));
    module.functions[0].body = vec![
        Instruction::I32Const(0),
        Instruction::I32Const(0),
        Instruction::I32Store(MemoryArg { align: 0, offset: 0 }),
    ];
    assert_eq!(validate(&module), broken("Invalid memory reference"));
    module.imports = vec![
        import(ImportDescriptor::Memory(MemoryType { limits: Limits { min: 0, max: None } })),
    ];
    module.functions[0].body = vec![Instruction::MemorySize];
    assert_eq!(validate(&module), Ok(()));
}

#[test]
fn memory_size_and_grow() {
    assert_eq!(check_body(vec![Instruction::MemorySize]), Ok(()));
    assert_eq!(check_body(vec![Instruction::MemorySize, Instruction::MemoryGrow]), Ok(()));
    assert_eq!(
        check_body(vec![Instruction::I64Const(0), Instruction::MemoryGrow]),
        mismatch("Value(I32)", "Value(I64)")
    );
}

#[test]
fn blocks_leave_their_result() {
    let block = |block_type, body| vec![Instruction::Block(block_type, body)];
    assert_eq!(
        check_body(block(BlockType::Return(ValueType::I32), vec![Instruction::I32Const(0)])),
        Ok(())
    );
    assert_eq!(
        check_body(block(BlockType::Return(ValueType::I32), vec![])),
        broken("stack underflow")
    );
    assert_eq!(check_body(block(BlockType::Void, vec![])), broken("stack underflow"));
    assert_eq!(
        check_body(block(BlockType::Void, vec![Instruction::I32Const(0)])),
        broken("Mismatching frame height")
    );
    assert_eq!(
        check_body(block(BlockType::Return(ValueType::I64), vec![Instruction::I64Const(0)])),
        mismatch("Value(I32)", "Value(I64)")
    );
    assert_eq!(
        check_body(vec![
            Instruction::I32Const(0),
            Instruction::Block(BlockType::Void, vec![Instruction::Drop])
        ]),
        broken("stack underflow")
    );
}

#[test]
fn branch_out_of_a_block_takes_its_result() {
    assert_eq!(
        check_body(vec![Instruction::Block(
            BlockType::Return(ValueType::I32),
            vec![Instruction::I32Const(1), Instruction::Br(0)]
        )]),
        Ok(())
    );
    assert_eq!(
        check_body(vec![Instruction::Block(
            BlockType::Return(ValueType::I32),
            vec![Instruction::Br(0)]
        )]),
        broken("stack underflow")
    );
    assert_eq!(
        check_body(vec![Instruction::Block(
            BlockType::Void,
            vec![Instruction::I32Const(1), Instruction::Br(1), Instruction::F32Neg]
        )]),
        broken("Mismatching frame height")
    );
    assert_eq!(
        check_body(vec![Instruction::Block(
            BlockType::Void,
            vec![Instruction::I32Const(1), Instruction::Br(1)]
        ), Instruction::I32Const(0)]),
        Ok(())
    );
    assert_eq!(
        check_body(vec![Instruction::Block(BlockType::Void, vec![Instruction::Br(2)])]),
        broken("Invalid label reference")
    );
}

#[test]
fn branch_to_a_loop_takes_nothing() {
    assert_eq!(
        check_body(vec![Instruction::Loop(
            BlockType::Return(ValueType::I32),
            vec![Instruction::Br(0)]
        )]),
        Ok(())
    );
    assert_eq!(
        check_body(vec![Instruction::Loop(
            BlockType::Return(ValueType::I32),
            vec![Instruction::I32Const(0), Instruction::BrIf(0), Instruction::I32Const(7)]
        )]),
        Ok(())
    );
    assert_eq!(
        check_body(vec![Instruction::Loop(BlockType::Return(ValueType::I32), vec![])]),
        broken("stack underflow")
    );
}

#[test]
fn conditional_branch_falls_through() {
    assert_eq!(
        check_body(vec![Instruction::Block(
            BlockType::Return(ValueType::I32),
            vec![Instruction::I32Const(1), Instruction::I32Const(0), Instruction::BrIf(0)]
        )]),
        Ok(())
    );
    assert_eq!(
        check_body(vec![Instruction::Block(
            BlockType::Return(ValueType::I32),
            vec![Instruction::I32Const(0), Instruction::BrIf(0), Instruction::I32Const(1)]
        )]),
        broken("stack underflow")
    );
    assert_eq!(
        check_body(vec![Instruction::I64Const(0), Instruction::BrIf(0)]),
        mismatch("Value(I32)", "Value(I64)")
    );
    assert_eq!(
        check_body(vec![Instruction::I32Const(0), Instruction::BrIf(1)]),
        broken("Invalid label reference")
    );
}

#[test]
fn branch_table_labels_have_to_agree() {
    let table = |labels, default| {
        vec![Instruction::Block(
            BlockType::Void,
            vec![Instruction::Loop(
                BlockType::Void,
                vec![Instruction::I32Const(0), Instruction::BrTable(labels, default)],
            )],
        ), Instruction::I32Const(0)]
    };
    assert_eq!(check_body(table(vec![0, 1, 0], 1)), Ok(()));
    assert_eq!(check_body(table(vec![], 0)), Ok(()));
    assert_eq!(check_body(table(vec![0, 2], 1)), broken("Mismatching br_table label types"));
    assert_eq!(check_body(table(vec![0, 3], 1)), broken("Invalid label reference"));
    assert_eq!(check_body(table(vec![0], 3)), broken("Invalid label reference"));
    assert_eq!(check_body(table(vec![3, 2], 1)), broken("Invalid label reference"));
    assert_eq!(
        check_body(
            vec![
                Instruction::I32Const(5),
                Instruction::I32Const(0),
                Instruction::BrTable(vec![0], 0),
            ],
        ),
        Ok(())
    );
    assert_eq!(
        check_body(vec![Instruction::I32Const(0), Instruction::BrTable(vec![0], 0)]),
        broken("stack underflow")
    );
    assert_eq!(
        check_body(vec![Instruction::F32Const(0), Instruction::BrTable(vec![], 0)]),
        mismatch("Value(I32)", "Value(F32)")
    );
}

#[test]
fn return_takes_the_results_of_the_function() {
    assert_eq!(check_body(vec![Instruction::I32Const(0), Instruction::Return]), Ok(()));
    assert_eq!(check_body(vec![Instruction::Return]), broken("stack underflow"));
    assert_eq!(
        check_body(vec![Instruction::Block(
            BlockType::Void,
            vec![Instruction::Loop(
                BlockType::Void,
                vec![Instruction::I32Const(0), Instruction::Return]
            )]
        ), Instruction::I32Const(0)]),
        Ok(())
    );
    assert_eq!(
        check_body(vec![Instruction::Block(
            BlockType::Void,
            vec![Instruction::I64Const(0), Instruction::Return]
        ), Instruction::I32Const(0)]),
        mismatch("Value(I32)", "Value(I64)")
    );
}

#[test]
fn unreachable_makes_the_rest_of_the_frame_polymorphic() {
    assert_eq!(check_body(vec![Instruction::Unreachable]), Ok(()));
    assert_eq!(check_body(vec![Instruction::Unreachable, Instruction::I32Add]), Ok(()));
    assert_eq!(
        check_body(vec![Instruction::Unreachable, Instruction::I64Const(0)]),
        mismatch("Value(I32)", "Value(I64)")
    );
    assert_eq!(
        check_body(vec![
            Instruction::Block(BlockType::Void, vec![Instruction::Unreachable]),
            Instruction::I32Add
        ]),
        broken("stack underflow")
    );
    assert_eq!(
        check_body(vec![Instruction::Nop, Instruction::Nop, Instruction::I32Const(0)]),
        Ok(()),
    );
}

#[test]
fn if_with_and_without_else() {
    let condition = Instruction::I32Const(1);
    assert_eq!(
        check_body(vec![
            condition,
            Instruction::If(
                BlockType::Return(ValueType::I32),
                vec![Instruction::I32Const(1)],
                Some(vec![Instruction::I32Const(2)])
            )
        ]),
        Ok(())
    );
    assert_eq!(
        check_body(vec![
            Instruction::I32Const(1),
            Instruction::If(
                BlockType::Return(ValueType::I32),
                vec![Instruction::I32Const(1)],
                Some(vec![])
            )
        ]),
        broken("stack underflow")
    );
    assert_eq!(
        check_body(vec![
            Instruction::I32Const(1),
            Instruction::If(
                BlockType::Return(ValueType::I32),
                vec![Instruction::I64Const(1)],
                Some(vec![Instruction::I32Const(2)])
            )
        ]),
        mismatch("Value(I32)", "Value(I64)")
    );
    assert_eq!(
        check_body(vec![
            Instruction::I32Const(1),
            Instruction::If(BlockType::Void, vec![Instruction::Nop], None),
            Instruction::I32Const(0)
        ]),
        Ok(())
    );
    assert_eq!(
        check_body(vec![
            Instruction::I32Const(1),
            Instruction::If(BlockType::Return(ValueType::I32), vec![Instruction::I32Const(1)], None)
        ]),
        broken("Invalid if without else")
    );
    assert_eq!(
        check_body(vec![Instruction::If(BlockType::Void, vec![], None), Instruction::I32Const(0)]),
        broken("stack underflow")
    );
    assert_eq!(
        check_body(vec![
            Instruction::I64Const(1),
            Instruction::If(BlockType::Void, vec![], Some(vec![])),
            Instruction::I32Const(0)
        ]),
        mismatch("Value(I32)", "Value(I64)")
    );
}

#[test]
fn unreachable_in_one_branch_does_not_reach_the_other() {
    assert_eq!(
        check_body(vec![
            Instruction::I32Const(1),
            Instruction::If(
                BlockType::Return(ValueType::I32),
                vec![Instruction::Unreachable],
                Some(vec![])
            )
        ]),
        broken("stack underflow")
    );
    assert_eq!(
        check_body(vec![
            Instruction::I32Const(1),
            Instruction::If(
                BlockType::Return(ValueType::I32),
                vec![Instruction::Unreachable],
                Some(vec![Instruction::I32Const(0)])
            )
        ]),
        Ok(())
    );
}

#[test]
fn calls_take_parameters_and_leave_results() {
    let call = vec![Instruction::I32Const(0), Instruction::I64Const(0), Instruction::Call(0)];
    assert_eq!(check_body(call), Ok(()));
    assert_eq!(
        check_body(vec![Instruction::I64Const(0), Instruction::I32Const(0), Instruction::Call(0)]),
        mismatch("Value(I64)", "Value(I32)")
    );
    assert_eq!(
        check_body(vec![Instruction::I64Const(0), Instruction::Call(0)]),
        broken("stack underflow"),
    );
    assert_eq!(check_body(vec![Instruction::Call(1)]), broken("Invalid function reference"));
    let mut module = with_body(vec![], vec![Instruction::Call(0), Instruction::I32Const(0)]);
    module.imports = vec![import(ImportDescriptor::Function(1))];
    assert_eq!(validate(&module), Ok(()));
    module.functions[0].body = vec![Instruction::Call(1)];
    assert_eq!(validate(&module), broken("stack underflow"));
}

#[test]
fn call_of_a_function_with_a_missing_type() {
    let mut module = with_body(vec![], vec![Instruction::Call(0)]);
    module.imports = vec![import(ImportDescriptor::Function(7))];
    assert_eq!(validate(&module), broken("Invalid function type reference"));
}

#[test]
fn indirect_calls_need_a_table() {
    let body = vec![
        Instruction::I32Const(0),
        Instruction::I64Const(0),
        Instruction::I32Const(3),
        Instruction::CallIndirect(0),
    ];
    assert_eq!(check_body(body), Ok(()));
    assert_eq!(
        check_body(
            vec![Instruction::I32Const(3), Instruction::CallIndirect(1), Instruction::I32Const(0)],
        ),
        Ok(())
    );
    assert_eq!(
        check_body(vec![Instruction::I64Const(3), Instruction::CallIndirect(1)]),
        mismatch("Value(I32)", "Value(I64)")
    );
    assert_eq!(
        check_body(vec![Instruction::I32Const(3), Instruction::CallIndirect(2)]),
        broken("Invalid function type reference")
    );
    let mut module = with_body(
        vec![],
        vec![Instruction::I32Const(3), Instruction::CallIndirect(1)],
    );
    module.tables = vec![];
    assert_eq!(validate(&module), broken("Invalid table reference"));
}

#[test]
fn expressions_in_a_frame_of_their_own() {
    let module = with_body(vec![], vec![]);
    let context = Context::new(&module);
    assert_eq!(validate_expression(&context, &vec![], vec![]), Ok(()));
    assert_eq!(
        validate_expression(&context, &vec![Instruction::F32Const(0)], vec![ValueType::F32]),
        Ok(())
    );
    assert_eq!(
        validate_expression(&context, &vec![Instruction::F32Const(0)], vec![]),
        broken("Mismatching frame height")
    );
    assert_eq!(
        validate_expression(
            &context,
            &vec![Instruction::I32Const(0), Instruction::F32Const(0)],
            vec![ValueType::I32, ValueType::F32]
        ),
        Ok(())
    );
    assert_eq!(
        validate_expression(
            &context,
            &vec![Instruction::F32Const(0), Instruction::I32Const(0)],
            vec![ValueType::I32, ValueType::F32]
        ),
        mismatch("Value(F32)", "Value(I32)")
    );
    assert_eq!(
        validate_expression(&context, &vec![Instruction::LocalGet(0)], vec![]),
        broken("Invalid local reference")
    );
}

#[test]
fn constant_expressions() {
    let mut module = with_body(vec![], vec![]);
    module.imports = vec![
        import(ImportDescriptor::Global(GlobalType {
            value_type: ValueType::I32,
            mutability: GlobalTypeMutability::Const,
        })),
        import(ImportDescriptor::Global(GlobalType {
            value_type: ValueType::I32,
            mutability: GlobalTypeMutability::Var,
        })),
    ];
    let context = Context::new(&module);
    let constant = |expression: Vec<Instruction>| validate_constant_expression(
        &context,
        &expression,
    );
    assert_eq!(constant(vec![]), Ok(()));
    assert_eq!(constant(vec![Instruction::I32Const(0)]), Ok(()));
    assert_eq!(constant(vec![Instruction::I64Const(0)]), Ok(()));
    assert_eq!(constant(vec![Instruction::F32Const(0)]), Ok(()));
    assert_eq!(constant(vec![Instruction::F64Const(0)]), Ok(()));
    assert_eq!(constant(vec![Instruction::GlobalGet(0)]), Ok(()));
    let invalid = broken("Invalid instruction in constant expression");
    assert_eq!(constant(vec![Instruction::GlobalGet(1)]), invalid);
    assert_eq!(constant(vec![Instruction::GlobalGet(2)]), invalid);
    assert_eq!(constant(vec![Instruction::GlobalGet(4)]), broken("Invalid global reference"));
    assert_eq!(constant(vec![Instruction::Nop]), invalid);
    assert_eq!(constant(vec![Instruction::I32Const(0), Instruction::I32Eqz]), invalid);
    assert_eq!(constant(vec![Instruction::LocalGet(0)]), invalid);
    assert_eq!(constant(vec![Instruction::GlobalSet(0)]), invalid);
    assert_eq!(constant(vec![Instruction::Block(BlockType::Void, vec![])]), invalid);
    assert_eq!(
        constant(vec![Instruction::I32Load(MemoryArg { align: 0, offset: 0 })]),
        invalid
    );
}

#[test]
fn every_instruction_but_constants_and_global_get_is_rejected_in_initializers() {
    for opcode in 0u8..=255 {
        let bytes = [opcode, 0x00, 0x00, 0x00, 0x00, 0x00, 0x00, 0x00, 0x00, 0x0B, 0x0B];
        let mut decoder = weaselm::decoder::Decoder::new(&bytes);
        let instruction = match weaselm::decoder::instructions::decode_instruction(&mut decoder) {
            Ok(instruction) => instruction,
            Err(_) => continue,
        };
        let constant = matches!(
            instruction,
            Instruction::I32Const(_)
                | Instruction::I64Const(_)
                | Instruction::F32Const(_)
                | Instruction::F64Const(_)
                | Instruction::GlobalGet(_)
        );
        if constant {
            continue;
        }
        let mut module = empty();
        module.memories = vec![memory(1)];
        module.tables = vec![table(1)];
        module.globals = vec![
            global(ValueType::I32, GlobalTypeMutability::Const, vec![instruction]),
        ];
        assert!(validate(&module).is_err(), "opcode {}", opcode);
    }
}

#[test]
fn global_initializers() {
    let mut module = empty();
    module.globals = vec![
        global(ValueType::I32, GlobalTypeMutability::Var, vec![Instruction::I32Const(1)]),
    ];
    assert_eq!(validate(&module), Ok(()));
    module.globals = vec![
        global(ValueType::I32, GlobalTypeMutability::Var, vec![Instruction::I64Const(1)]),
    ];
    assert_eq!(validate(&module), mismatch("Value(I32)", "Value(I64)"));
    module.globals = vec![global(ValueType::I32, GlobalTypeMutability::Var, vec![])];
    assert_eq!(validate(&module), broken("stack underflow"));
    module.globals = vec![global(
        ValueType::I32,
        GlobalTypeMutability::Const,
        vec![Instruction::I32Const(1), Instruction::I32Const(1), Instruction::I32Add],
    )];
    assert_eq!(validate(&module), broken("Invalid instruction in constant expression"));
    module.globals = vec![
        global(ValueType::I32, GlobalTypeMutability::Const, vec![Instruction::I32Const(1)]),
        global(ValueType::I32, GlobalTypeMutability::Const, vec![Instruction::GlobalGet(0)]),
    ];
    assert_eq!(validate(&module), broken("Invalid instruction in constant expression"));
    module.imports = vec![import(ImportDescriptor::Global(GlobalType {
        value_type: ValueType::I32,
        mutability: GlobalTypeMutability::Const,
    }))];
    assert_eq!(validate(&module), Ok(()));
}

#[test]
fn element_segments() {
    let mut module = with_body(vec![], vec![Instruction::I32Const(0)]);
    let element = |table, offset, init| Element { table, offset, init };
    module.elements = vec![element(0, vec![Instruction::I32Const(0)], vec![0, 0])];
    assert_eq!(validate(&module), Ok(()));
    module.elements = vec![element(1, vec![Instruction::I32Const(0)], vec![])];
    assert_eq!(validate(&module), broken("Invalid table reference"));
    module.elements = vec![element(0, vec![Instruction::I64Const(0)], vec![])];
    assert_eq!(validate(&module), mismatch("Value(I32)", "Value(I64)"));
    module.elements = vec![element(0, vec![Instruction::GlobalGet(0)], vec![])];
    assert_eq!(validate(&module), broken("Invalid instruction in constant expression"));
    module.elements = vec![element(0, vec![Instruction::MemorySize], vec![])];
    assert_eq!(validate(&module), broken("Invalid instruction in constant expression"));
    module.elements = vec![element(0, vec![Instruction::I32Const(0)], vec![0, 1])];
    assert_eq!(validate(&module), broken("Invalid function reference"));
}

#[test]
fn data_segments() {
    let mut module = with_body(vec![], vec![Instruction::I32Const(0)]);
    let data = |index, offset| Data { data: index, offset, init: vec![1, 2, 3] };
    module.data = vec![data(0, vec![Instruction::I32Const(0)])];
    assert_eq!(validate(&module), Ok(()));
    module.data = vec![data(1, vec![Instruction::I32Const(0)])];
    assert_eq!(validate(&module), broken("Invalid memory reference"));
    module.data = vec![data(0, vec![Instruction::F32Const(0)])];
    assert_eq!(validate(&module), mismatch("Value(I32)", "Value(F32)"));
    module.data = vec![
        data(0, vec![Instruction::I32Const(0), Instruction::Drop, Instruction::I32Const(0)]),
    ];
    assert_eq!(validate(&module), broken("Invalid instruction in constant expression"));
}

#[test]
fn start_function() {
    let mut module = with_body(vec![], vec![Instruction::I32Const(0)]);
    module.start = Some(StartFunction { function: 0 });
    assert_eq!(validate(&module), broken("Invalid start function"));
    module.start = Some(StartFunction { function: 1 });
    assert_eq!(validate(&module), broken("Invalid function reference"));
    module.functions.push(Function { function_type: 1, locals: vec![], body: vec![] });
    assert_eq!(validate(&module), Ok(()));
    module.function_types.push((vec![], vec![ValueType::I32]));
    module.functions.push(
        Function { function_type: 2, locals: vec![], body: vec![Instruction::I32Const(0)] },
    );
    module.start = Some(StartFunction { function: 2 });
    assert_eq!(validate(&module), broken("Invalid start function"));
}

#[test]
fn imports() {
    let mut module = with_body(vec![], vec![Instruction::I32Const(0)]);
    module.memories = vec![];
    module.tables = vec![];
    module.imports = vec![
        import(ImportDescriptor::Function(1)),
        import(ImportDescriptor::Table(table(0).table_type)),
        import(ImportDescriptor::Memory(memory(0).memory_type)),
    ];
    assert_eq!(validate(&module), Ok(()));
    module.imports = vec![import(ImportDescriptor::Function(2))];
    assert_eq!(validate(&module), broken("Invalid function type reference"));
    module.imports = vec![import(ImportDescriptor::Memory(memory(65537).memory_type))];
    assert_eq!(validate(&module), broken("Limit minimum is above valid range"));
    module.imports = vec![import(ImportDescriptor::Table(TableType {
        limits: Limits { min: 2, max: Some(1) },
        element_type: ElementType::FuncRef,
    }))];
    assert_eq!(validate(&module), broken("Limit maximum is below minimum"));
}

#[test]
fn exports() {
    let mut module = with_body(vec![], vec![Instruction::I32Const(0)]);
    let export = |name: &str, descriptor| Export { name: String::from(name), descriptor };
    module.exports = vec![
        export("f", Index::Function(0)),
        export("t", Index::Table(0)),
        export("m", Index::Memory(0)),
        export("g", Index::Global(1)),
    ];
    assert_eq!(validate(&module), Ok(()));
    module.exports = vec![export("f", Index::Function(1))];
    assert_eq!(validate(&module), broken("Invalid function reference"));
    module.exports = vec![export("t", Index::Table(1))];
    assert_eq!(validate(&module), broken("Invalid table reference"));
    module.exports = vec![export("m", Index::Memory(1))];
    assert_eq!(validate(&module), broken("Invalid memory reference"));
    module.exports = vec![export("g", Index::Global(2))];
    assert_eq!(validate(&module), broken("Invalid global reference"));
    module.exports = vec![export("x", Index::Type(0))];
    assert_eq!(validate(&module), broken("Invalid export descriptor"));
    module.exports = vec![export("x", Index::Local(0))];
    assert_eq!(validate(&module), broken("Invalid export descriptor"));
    module.exports = vec![export("x", Index::Label(0))];
    assert_eq!(validate(&module), broken("Invalid export descriptor"));
}

#[test]
fn export_names_have_to_differ() {
    let mut module = with_body(vec![], vec![Instruction::I32Const(0)]);
    let export = |name: &str, descriptor| Export { name: String::from(name), descriptor };
    module.exports = vec![export("foo", Index::Function(0)), export("foo", Index::Memory(0))];
    assert_eq!(validate(&module), broken("Duplicate export names"));
    module.exports = vec![
        export("a", Index::Function(0)),
        export("b", Index::Function(0)),
        export("c", Index::Function(0)),
        export("b", Index::Function(0)),
    ];
    assert_eq!(validate(&module), broken("Duplicate export names"));
    module.exports = vec![
        export("a", Index::Function(0)),
        export("b", Index::Function(0)),
        export("", Index::Function(0)),
        export("A", Index::Function(0)),
    ];
    assert_eq!(validate(&module), Ok(()));
}

#[test]
fn at_most_one_table() {
    let mut module = empty();
    module.tables = vec![table(1), table(1)];
    assert_eq!(validate(&module), broken("Too many tables"));
    module.tables = vec![table(1)];
    assert_eq!(validate(&module), Ok(()));
    module.imports = vec![import(ImportDescriptor::Table(table(1).table_type))];
    assert_eq!(validate(&module), broken("Too many tables"));
    module.tables = vec![];
    assert_eq!(validate(&module), Ok(()));
    module.imports.push(import(ImportDescriptor::Table(table(1).table_type)));
    assert_eq!(validate(&module), broken("Too many tables"));
}

#[test]
fn at_most_one_memory() {
    let mut module = empty();
    module.memories = vec![memory(1), memory(2)];
    assert_eq!(validate(&module), broken("Too many memories"));
    module.memories = vec![memory(1), memory(2), memory(3)];
    assert_eq!(validate(&module), broken("Too many memories"));
    module.memories = vec![memory(1)];
    module.imports = vec![import(ImportDescriptor::Memory(memory(1).memory_type))];
    assert_eq!(validate(&module), broken("Too many memories"));
    module.tables = vec![table(0), table(0)];
    assert_eq!(validate(&module), broken("Too many tables"));
}

#[test]
fn the_first_broken_rule_is_reported() {
    let mut module = with_body(vec![], vec![Instruction::Drop]);
    module.function_types.push((vec![], vec![ValueType::I32, ValueType::I32]));
    module.memories.push(memory(70000));
    module.exports = vec![Export { name: String::new(), descriptor: Index::Label(0) }];
    assert_eq!(validate(&module), broken("Too many return value"));
    module.function_types.pop();
    assert_eq!(validate(&module), broken("stack underflow"));
    module.functions[0].body = vec![Instruction::I32Const(0)];
    assert_eq!(validate(&module), broken("Limit minimum is above valid range"));
    module.memories[1] = memory(1);
    assert_eq!(validate(&module), broken("Invalid export descriptor"));
    module.exports.clear();
    assert_eq!(validate(&module), broken("Too many memories"));
}

#[test]
fn validate_takes_whatever_decode_gives() {
    let mut seed: u32 = 0xC0FF_EE00;
    let mut decoded = 0;
    for _ in 0..3000 {
        let mut bytes = vec![0x00, 0x61, 0x73, 0x6D, 0x01, 0x00, 0x00, 0x00];
        seed = seed.wrapping_mul(1664525).wrapping_add(1013904223);
        let id = 1 + (seed >> 28) as u8 % 11;
        let len = (seed >> 20) as usize % 12;
        bytes.push(id);
        bytes.push(len as u8);
        for _ in 0..len {
            seed = seed.wrapping_mul(1664525).wrapping_add(1013904223);
            bytes.push((seed >> 16) as u8 % 8);
        }
        if let Ok(module) = decode(&bytes) {
            decoded += 1;
            match validate(&module) {
                Ok(()) => {}
                Err(found) => assert!(!found.message.is_empty()),
            }
        }
    }
    assert!(decoded > 0);
}
