//! The rules for the parts of a module and for the module as a whole.

use crate::types::{
    views, Data, DataView, Element, ElementView, Export, ExportView, Function, FunctionType,
    FunctionView, Global, GlobalView, Import, ImportDescriptor, ImportView, Index, Memory,
    Module, ModuleView, StartFunction, Table, ValueType,
};
use crate::validation::instructions::{
    constant_expression_verdict, copy_types, expression_verdict, validate_constant_expression,
    validate_expression,
};
use crate::validation::types::{
    function_type_verdict, memory_type_verdict, table_type_verdict, validate_function_type,
    validate_global_type, validate_memory_type, validate_table_type,
};
use crate::validation::validation::{
    broken, context_of, entry, finds, first_broken, lemma_first_broken_step, Context,
    ContextView, ValidationError, ValidationResult, Verdict, INVALID_FUNCTION_REFERENCE,
    INVALID_FUNCTION_TYPE_REFERENCE, INVALID_GLOBAL_REFERENCE, INVALID_MEMORY_REFERENCE,
    INVALID_TABLE_REFERENCE,
};
use vstd::prelude::*;

verus! {

// The messages of the rules for the parts of a module.
pub const INVALID_START: &'static str = "Invalid start function";
pub const INVALID_EXPORT: &'static str = "Invalid export descriptor";
pub const TOO_MANY_TABLES: &'static str = "Too many tables";
pub const TOO_MANY_MEMORIES: &'static str = "Too many memories";
pub const DUPLICATE_EXPORT_NAMES: &'static str = "Duplicate export names";

/// The first of two verdicts that names a broken rule.
pub open spec fn both(first: Verdict, second: Verdict) -> Verdict {
    match first {
        Err(message) => Err(message),
        Ok(_) => second,
    }
}

/// An index space has to have the entry `index`.
pub open spec fn has_entry<T>(space: Seq<T>, index: u32, message: &str) -> Verdict {
    if index < space.len() {
        Ok(())
    } else {
        Err(message@)
    }
}

/// The locals that groups of `(count, type)` declare, one by one.
pub open spec fn expanded(groups: Seq<(u32, ValueType)>) -> Seq<ValueType>
    decreases groups.len(),
{
    if groups.len() == 0 {
        Seq::empty()
    } else {
        expanded(groups.drop_last()) + Seq::new(
            groups.last().0 as nat,
            |i: int| groups.last().1,
        )
    }
}

/// A function is valid where its type is there and its body is valid, with the
/// parameters and then the declared locals as locals, in a frame that ends with the
/// results of the type.
pub open spec fn function_verdict(context: ContextView, function: FunctionView) -> Verdict {
    match entry(context.function_types, function.function_type, INVALID_FUNCTION_TYPE_REFERENCE) {
        Err(message) => Err(message),
        Ok(function_type) => expression_verdict(
            ContextView { locals: function_type.0 + expanded(function.locals), ..context },
            function.body,
            function_type.1,
        ),
    }
}

/// A global is valid where its initializer yields a value of its type and is constant.
pub open spec fn global_verdict(context: ContextView, global: GlobalView) -> Verdict {
    both(
        expression_verdict(context, global.init, seq![global.global_type.value_type]),
        constant_expression_verdict(context, global.init),
    )
}

/// A function index as an item to check.
pub open spec fn function_check(context: ContextView) -> spec_fn(u32) -> Verdict {
    |function: u32| has_entry(context.functions, function, INVALID_FUNCTION_REFERENCE)
}

/// An element segment is valid where its table is there, its offset yields an `i32` and
/// is constant, and each of its functions is there.
pub open spec fn element_verdict(context: ContextView, element: ElementView) -> Verdict {
    both(
        has_entry(context.tables, element.table, INVALID_TABLE_REFERENCE),
        both(
            expression_verdict(context, element.offset, seq![ValueType::I32]),
            both(
                constant_expression_verdict(context, element.offset),
                first_broken(element.init, function_check(context)),
            ),
        ),
    )
}

/// A data segment is valid where its memory is there and its offset yields an `i32` and
/// is constant.
pub open spec fn data_verdict(context: ContextView, data: DataView) -> Verdict {
    both(
        has_entry(context.memories, data.data, INVALID_MEMORY_REFERENCE),
        both(
            expression_verdict(context, data.offset, seq![ValueType::I32]),
            constant_expression_verdict(context, data.offset),
        ),
    )
}

/// A start function is valid where it is there and takes and gives nothing.
pub open spec fn start_verdict(context: ContextView, start: Option<StartFunction>) -> Verdict {
    match start {
        None => Ok(()),
        Some(start) => match entry(context.functions, start.function, INVALID_FUNCTION_REFERENCE) {
            Err(message) => Err(message),
            Ok(type_index) => match entry(
                context.function_types,
                type_index,
                INVALID_FUNCTION_TYPE_REFERENCE,
            ) {
                Err(message) => Err(message),
                Ok(function_type) => {
                    if function_type.0.len() != 0 || function_type.1.len() != 0 {
                        broken(INVALID_START)
                    } else {
                        Ok(())
                    }
                },
            },
        },
    }
}

/// An import is valid where the type of an imported function is there, and where the
/// type of an imported table or memory is valid.
pub open spec fn import_verdict(context: ContextView, import: ImportView) -> Verdict {
    match import.descriptor {
        ImportDescriptor::Function(type_index) => has_entry(
            context.function_types,
            type_index,
            INVALID_FUNCTION_TYPE_REFERENCE,
        ),
        ImportDescriptor::Table(table_type) => table_type_verdict(table_type),
        ImportDescriptor::Memory(memory_type) => memory_type_verdict(memory_type),
        ImportDescriptor::Global(_) => Ok(()),
    }
}

/// An export is valid where it names a function, a table, a memory or a global that is
/// there.
pub open spec fn export_verdict(context: ContextView, export: ExportView) -> Verdict {
    match export.descriptor {
        Index::Function(index) => has_entry(context.functions, index, INVALID_FUNCTION_REFERENCE),
        Index::Table(index) => has_entry(context.tables, index, INVALID_TABLE_REFERENCE),
        Index::Memory(index) => has_entry(context.memories, index, INVALID_MEMORY_REFERENCE),
        Index::Global(index) => has_entry(context.globals, index, INVALID_GLOBAL_REFERENCE),
        _ => broken(INVALID_EXPORT),
    }
}

/// No two exports have the same name.
pub open spec fn distinct_names(exports: Seq<ExportView>) -> bool {
    forall|i: int, j: int| 0 <= i < j < exports.len() ==> exports[i].name != exports[j].name
}

/// What can be held to a rule in the index spaces of a module.
pub trait Checked: View + Sized {
    /// The verdict on an item.
    spec fn verdict(context: ContextView, item: Self::V) -> Verdict;

    /// Checks an item.
    fn check(context: &Context, item: &Self) -> (r: ValidationResult)
        ensures
            finds(r, Self::verdict(context@, item@)),
    ;
}

/// The rule of a kind of item as a check of items.
pub open spec fn check_of<T: Checked>(context: ContextView) -> spec_fn(T::V) -> Verdict {
    |item: T::V| T::verdict(context, item)
}

/// The first broken rule among items of one kind.
pub open spec fn all_verdict<T: Checked>(context: ContextView, items: Seq<T::V>) -> Verdict {
    first_broken(items, check_of::<T>(context))
}

/// Checks each item, up to the first that breaks its rule.
#[verifier::loop_isolation(false)]
pub fn validate_all<T: Checked>(context: &Context, items: &Vec<T>) -> (r: ValidationResult)
    ensures
        finds(r, all_verdict::<T>(context@, views(items@))),
{
    let ghost all = views(items@);
    let mut i: usize = 0;
    proof {
        assert(all.skip(0) =~= all);
    }
    while i < items.len()
        invariant
            i <= items.len(),
            all_verdict::<T>(context@, all) == first_broken(
                all.skip(i as int),
                check_of::<T>(context@),
            ),
        decreases items.len() - i,
    {
        proof {
            lemma_first_broken_step(all, check_of::<T>(context@), i as int);
        }
        T::check(context, &items[i])?;
        i += 1;
    }
    Ok(())
}

/// Puts the locals that `groups` declare behind those in `locals`.
pub fn expand_locals(locals: &mut Vec<ValueType>, groups: &Vec<(u32, ValueType)>)
    ensures
        final(locals)@ == old(locals)@ + expanded(groups@),
{
    let ghost base = locals@;
    let mut i: usize = 0;
    proof {
        assert(groups@.take(0) =~= Seq::<(u32, ValueType)>::empty());
        assert(base + expanded(groups@.take(0)) =~= base);
    }
    while i < groups.len()
        invariant
            i <= groups.len(),
            locals@ == base + expanded(groups@.take(i as int)),
        decreases groups.len() - i,
    {
        let (count, value_type) = groups[i];
        let ghost before = locals@;
        let mut j: u32 = 0;
        proof {
            assert(before + Seq::new(0, |k: int| value_type) =~= before);
        }
        while j < count
            invariant
                j <= count,
                locals@ == before + Seq::new(j as nat, |k: int| value_type),
            decreases count - j,
        {
            locals.push(value_type);
            j += 1;
            proof {
                assert(locals@ =~= before + Seq::new(j as nat, |k: int| value_type));
            }
        }
        proof {
            let next = groups@.take(i + 1);
            assert(next.drop_last() =~= groups@.take(i as int));
            assert(next.last() == groups@[i as int]);
            assert(Seq::new(next.last().0 as nat, |k: int| next.last().1) =~= Seq::new(
                count as nat,
                |k: int| value_type,
            ));
            assert(locals@ =~= base + expanded(next));
        }
        i += 1;
    }
    proof {
        assert(groups@.take(i as int) =~= groups@);
    }
}

/// Checks a function. The locals of the context are those of the function while its body
/// is checked, and none afterwards.
pub fn validate_function(context: &mut Context, function: &Function) -> (r: ValidationResult)
    ensures
        finds(r, function_verdict(old(context)@, function@)),
        final(context)@ == (ContextView { locals: Seq::empty(), ..old(context)@ }),
{
    let function_type = match context.get_function_type(function.function_type) {
        Ok(function_type) => function_type,
        Err(error) => {
            context.locals = Vec::new();
            return Err(error);
        },
    };
    let mut locals = copy_types(&function_type.0);
    expand_locals(&mut locals, &function.locals);
    context.locals = locals;
    let result = validate_expression(context, &function.body, copy_types(&function_type.1));
    context.locals = Vec::new();
    result
}

/// Checks a table.
pub fn validate_table(table: &Table) -> (r: ValidationResult)
    ensures
        finds(r, table_type_verdict(table.table_type)),
{
    validate_table_type(&table.table_type)
}

/// Checks a memory.
pub fn validate_memory(memory: &Memory) -> (r: ValidationResult)
    ensures
        finds(r, memory_type_verdict(memory.memory_type)),
{
    validate_memory_type(&memory.memory_type)
}

/// A vector with one value type.
fn one_type(value_type: ValueType) -> (types: Vec<ValueType>)
    ensures
        types@ == seq![value_type],
{
    let mut types: Vec<ValueType> = Vec::new();
    types.push(value_type);
    proof {
        assert(types@ =~= seq![value_type]);
    }
    types
}

/// Checks a global.
pub fn validate_global(context: &Context, global: &Global) -> (r: ValidationResult)
    ensures
        finds(r, global_verdict(context@, global@)),
{
    validate_global_type(&global.global_type)?;
    validate_expression(context, &global.init, one_type(global.global_type.value_type))?;
    validate_constant_expression(context, &global.init)
}

/// Checks an element segment.
#[verifier::loop_isolation(false)]
pub fn validate_element(context: &Context, element: &Element) -> (r: ValidationResult)
    ensures
        finds(r, element_verdict(context@, element@)),
{
    context.get_table(element.table)?;
    validate_expression(context, &element.offset, one_type(ValueType::I32))?;
    validate_constant_expression(context, &element.offset)?;
    let mut i: usize = 0;
    proof {
        assert(element.init@.skip(0) =~= element.init@);
    }
    while i < element.init.len()
        invariant
            i <= element.init.len(),
            first_broken(element.init@, function_check(context@)) == first_broken(
                element.init@.skip(i as int),
                function_check(context@),
            ),
        decreases element.init.len() - i,
    {
        proof {
            lemma_first_broken_step(element.init@, function_check(context@), i as int);
        }
        context.get_function(element.init[i])?;
        i += 1;
    }
    Ok(())
}

/// Checks a data segment.
pub fn validate_data(context: &Context, data: &Data) -> (r: ValidationResult)
    ensures
        finds(r, data_verdict(context@, data@)),
{
    context.get_memory(data.data)?;
    validate_expression(context, &data.offset, one_type(ValueType::I32))?;
    validate_constant_expression(context, &data.offset)
}

/// Checks the start function.
pub fn validate_start(context: &Context, start: &StartFunction) -> (r: ValidationResult)
    ensures
        finds(r, start_verdict(context@, Some(*start))),
{
    let type_index = context.get_function(start.function)?;
    let function_type = context.get_function_type(type_index)?;
    if function_type.0.len() != 0 || function_type.1.len() != 0 {
        return Err(ValidationError::from(INVALID_START));
    }
    Ok(())
}

/// Checks an import.
pub fn validate_import(context: &Context, import: &Import) -> (r: ValidationResult)
    ensures
        finds(r, import_verdict(context@, import@)),
{
    match &import.descriptor {
        ImportDescriptor::Function(type_index) => {
            context.get_function_type(*type_index)?;
            Ok(())
        },
        ImportDescriptor::Table(table_type) => validate_table_type(table_type),
        ImportDescriptor::Memory(memory_type) => validate_memory_type(memory_type),
        ImportDescriptor::Global(global_type) => validate_global_type(global_type),
    }
}

/// Checks an export.
pub fn validate_export(context: &Context, export: &Export) -> (r: ValidationResult)
    ensures
        finds(r, export_verdict(context@, export@)),
{
    match export.descriptor {
        Index::Function(function) => {
            context.get_function(function)?;
        },
        Index::Table(table) => {
            context.get_table(table)?;
        },
        Index::Memory(memory) => {
            context.get_memory(memory)?;
        },
        Index::Global(global) => {
            context.get_global(global)?;
        },
        _ => {
            return Err(ValidationError::from(INVALID_EXPORT));
        },
    }
    Ok(())
}

impl Checked for FunctionType {
    open spec fn verdict(context: ContextView, item: (Seq<ValueType>, Seq<ValueType>)) -> Verdict {
        function_type_verdict(item)
    }

    fn check(context: &Context, item: &FunctionType) -> (r: ValidationResult) {
        validate_function_type(item)
    }
}

impl Checked for Table {
    open spec fn verdict(context: ContextView, item: Table) -> Verdict {
        table_type_verdict(item.table_type)
    }

    fn check(context: &Context, item: &Table) -> (r: ValidationResult) {
        validate_table(item)
    }
}

impl Checked for Memory {
    open spec fn verdict(context: ContextView, item: Memory) -> Verdict {
        memory_type_verdict(item.memory_type)
    }

    fn check(context: &Context, item: &Memory) -> (r: ValidationResult) {
        validate_memory(item)
    }
}

impl Checked for Global {
    open spec fn verdict(context: ContextView, item: GlobalView) -> Verdict {
        global_verdict(context, item)
    }

    fn check(context: &Context, item: &Global) -> (r: ValidationResult) {
        validate_global(context, item)
    }
}

impl Checked for Element {
    open spec fn verdict(context: ContextView, item: ElementView) -> Verdict {
        element_verdict(context, item)
    }

    fn check(context: &Context, item: &Element) -> (r: ValidationResult) {
        validate_element(context, item)
    }
}

impl Checked for Data {
    open spec fn verdict(context: ContextView, item: DataView) -> Verdict {
        data_verdict(context, item)
    }

    fn check(context: &Context, item: &Data) -> (r: ValidationResult) {
        validate_data(context, item)
    }
}

impl Checked for Import {
    open spec fn verdict(context: ContextView, item: ImportView) -> Verdict {
        import_verdict(context, item)
    }

    fn check(context: &Context, item: &Import) -> (r: ValidationResult) {
        validate_import(context, item)
    }
}

impl Checked for Export {
    open spec fn verdict(context: ContextView, item: ExportView) -> Verdict {
        export_verdict(context, item)
    }

    fn check(context: &Context, item: &Export) -> (r: ValidationResult) {
        validate_export(context, item)
    }
}

/// [`function_verdict`] as a check of items.
pub open spec fn function_body_check(context: ContextView) -> spec_fn(FunctionView) -> Verdict {
    |function: FunctionView| function_verdict(context, function)
}

/// Checks each function, up to the first that breaks a rule. The context has no locals
/// afterwards.
#[verifier::loop_isolation(false)]
pub fn validate_functions(context: &mut Context, functions: &Vec<Function>) -> (r:
    ValidationResult)
    ensures
        finds(r, first_broken(views(functions@), function_body_check(old(context)@))),
        final(context)@ == (ContextView { locals: Seq::empty(), ..old(context)@ }),
{
    let ghost all = views(functions@);
    let ghost check = function_body_check(context@);
    let mut i: usize = 0;
    proof {
        assert(all.skip(0) =~= all);
    }
    context.locals = Vec::new();
    while i < functions.len()
        invariant
            i <= functions.len(),
            context@ == (ContextView { locals: Seq::empty(), ..old(context)@ }),
            first_broken(all, check) == first_broken(all.skip(i as int), check),
        decreases functions.len() - i,
    {
        proof {
            lemma_first_broken_step(all, check, i as int);
        }
        validate_function(context, &functions[i])?;
        i += 1;
    }
    Ok(())
}

/// Whether no two exports have the same name.
pub fn has_distinct_names(exports: &Vec<Export>) -> (r: bool)
    ensures
        r == distinct_names(views(exports@)),
{
    let ghost all = views(exports@);
    let mut i: usize = 0;
    while i < exports.len()
        invariant
            i <= exports.len(),
            all == views(exports@),
            forall|a: int, b: int| 0 <= a < i && a < b < all.len() ==> all[a].name != all[b].name,
        decreases exports.len() - i,
    {
        let mut j: usize = i + 1;
        while j < exports.len()
            invariant
                i < j <= exports.len(),
                all == views(exports@),
                forall|b: int| i < b < j ==> all[i as int].name != all[b].name,
            decreases exports.len() - j,
        {
            if exports[i].name == exports[j].name {
                proof {
                    assert(all[i as int].name == all[j as int].name);
                }
                return false;
            }
            j += 1;
        }
        i += 1;
    }
    true
}

/// The verdict on a module: its function types, functions, tables, memories, globals,
/// element segments, data segments, start function, imports and exports, in this order,
/// each held to its rule; then at most one table and at most one memory, imported ones
/// counted in; then no two exports of one name.
pub open spec fn module_verdict(module: ModuleView) -> Verdict {
    let context = context_of(module);
    both(
        all_verdict::<FunctionType>(context, module.function_types),
        both(
            first_broken(module.functions, function_body_check(context)),
            both(
                all_verdict::<Table>(context, module.tables),
                both(
                    all_verdict::<Memory>(context, module.memories),
                    both(
                        all_verdict::<Global>(context, module.globals),
                        both(
                            all_verdict::<Element>(context, module.elements),
                            both(
                                all_verdict::<Data>(context, module.data),
                                both(
                                    start_verdict(context, module.start),
                                    both(
                                        all_verdict::<Import>(context, module.imports),
                                        both(
                                            all_verdict::<Export>(context, module.exports),
                                            cardinality_verdict(context, module.exports),
                                        ),
                                    ),
                                ),
                            ),
                        ),
                    ),
                ),
            ),
        ),
    )
}

/// At most one table and at most one memory, and no two exports of one name.
pub open spec fn cardinality_verdict(context: ContextView, exports: Seq<ExportView>) -> Verdict {
    if context.tables.len() > 1 {
        broken(TOO_MANY_TABLES)
    } else if context.memories.len() > 1 {
        broken(TOO_MANY_MEMORIES)
    } else if !distinct_names(exports) {
        broken(DUPLICATE_EXPORT_NAMES)
    } else {
        Ok(())
    }
}

/// Validates a module: it is accepted where no rule is broken, and else the error names
/// the first rule that is.
pub fn validate(module: &Module) -> (r: ValidationResult)
    ensures
        finds(r, module_verdict(module@)),
{
    let mut context = Context::new(module);
    validate_all::<FunctionType>(&context, &module.function_types)?;
    validate_functions(&mut context, &module.functions)?;
    validate_all::<Table>(&context, &module.tables)?;
    validate_all::<Memory>(&context, &module.memories)?;
    validate_all::<Global>(&context, &module.globals)?;
    validate_all::<Element>(&context, &module.elements)?;
    validate_all::<Data>(&context, &module.data)?;
    match &module.start {
        Some(start) => {
            validate_start(&context, start)?;
        },
        None => {},
    }
    validate_all::<Import>(&context, &module.imports)?;
    validate_all::<Export>(&context, &module.exports)?;
    if context.tables.len() > 1 {
        return Err(ValidationError::from(TOO_MANY_TABLES));
    }
    if context.memories.len() > 1 {
        return Err(ValidationError::from(TOO_MANY_MEMORIES));
    }
    if !has_distinct_names(&module.exports) {
        return Err(ValidationError::from(DUPLICATE_EXPORT_NAMES));
    }
    Ok(())
}

} // verus!
