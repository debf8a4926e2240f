//! Errors, verdicts, and the index spaces that a module is checked in.

use crate::types::{
    views, Function, FunctionType, Global, GlobalType, ImportDescriptor, ImportView, Memory,
    MemoryType, Module, ModuleView, Table, TableType, ValueType,
};
use vstd::prelude::*;

verus! {

// The messages for an index with no entry in its index space.
pub const INVALID_FUNCTION_TYPE_REFERENCE: &'static str = "Invalid function type reference";
pub const INVALID_FUNCTION_REFERENCE: &'static str = "Invalid function reference";
pub const INVALID_TABLE_REFERENCE: &'static str = "Invalid table reference";
pub const INVALID_MEMORY_REFERENCE: &'static str = "Invalid memory reference";
pub const INVALID_GLOBAL_REFERENCE: &'static str = "Invalid global reference";
pub const INVALID_LOCAL_REFERENCE: &'static str = "Invalid local reference";

/// Why a module is not valid.
#[derive(Debug, PartialEq, Eq)]
pub struct ValidationError {
    pub message: String,
}

impl View for ValidationError {
    type V = Seq<char>;

    open spec fn view(&self) -> Seq<char> {
        self.message@
    }
}

impl ValidationError {
    /// The error with `message`.
    pub fn from(message: &str) -> (error: ValidationError)
        ensures
            error@ == message@,
    {
        ValidationError { message: message.to_owned() }
    }

    /// The error with `message`.
    pub fn from_string(message: String) -> (error: ValidationError)
        ensures
            error@ == message@,
    {
        ValidationError { message }
    }
}

pub type ValidationResult = Result<(), ValidationError>;

/// What a check finds: nothing, or the message of the first rule that is broken.
pub type Verdict = Result<(), Seq<char>>;

/// The verdict with `message`.
pub open spec fn broken(message: &str) -> Verdict {
    Err(message@)
}

/// The result of a check is what `expected` says.
pub open spec fn finds(got: ValidationResult, expected: Verdict) -> bool {
    match expected {
        Ok(_) => got is Ok,
        Err(message) => got is Err && got->Err_0@ == message,
    }
}

/// The first broken rule among the items of a sequence, each held to `check`.
pub open spec fn first_broken<T>(items: Seq<T>, check: spec_fn(T) -> Verdict) -> Verdict
    decreases items.len(),
{
    if items.len() == 0 {
        Ok(())
    } else {
        match check(items.first()) {
            Err(message) => Err(message),
            Ok(_) => first_broken(items.drop_first(), check),
        }
    }
}

/// Checking the items from `from` on: the item at `from` first, then those behind it.
pub proof fn lemma_first_broken_step<T>(items: Seq<T>, check: spec_fn(T) -> Verdict, from: int)
    requires
        0 <= from < items.len(),
    ensures
        first_broken(items.skip(from), check) == match check(items[from]) {
            Err(message) => Err::<(), Seq<char>>(message),
            Ok(_) => first_broken(items.skip(from + 1), check),
        },
{
    assert(items.skip(from).drop_first() =~= items.skip(from + 1));
}

/// The index spaces that the instructions and the other parts of a module refer to. In
/// each of them what the module imports comes first, then what it defines.
pub struct ContextView {
    pub function_types: Seq<(Seq<ValueType>, Seq<ValueType>)>,
    /// The type index of each function.
    pub functions: Seq<u32>,
    pub tables: Seq<TableType>,
    pub memories: Seq<MemoryType>,
    pub globals: Seq<GlobalType>,
    /// How many of the globals are imported.
    pub imported_globals: nat,
    /// The parameters and the locals of the function whose body is checked.
    pub locals: Seq<ValueType>,
}

/// The type indices of the imported functions, in the order of the imports.
pub open spec fn imported_functions(imports: Seq<ImportView>) -> Seq<u32>
    decreases imports.len(),
{
    if imports.len() == 0 {
        Seq::empty()
    } else {
        let before = imported_functions(imports.drop_last());
        match imports.last().descriptor {
            ImportDescriptor::Function(index) => before.push(index),
            _ => before,
        }
    }
}

/// The types of the imported tables, in the order of the imports.
pub open spec fn imported_tables(imports: Seq<ImportView>) -> Seq<TableType>
    decreases imports.len(),
{
    if imports.len() == 0 {
        Seq::empty()
    } else {
        let before = imported_tables(imports.drop_last());
        match imports.last().descriptor {
            ImportDescriptor::Table(table_type) => before.push(table_type),
            _ => before,
        }
    }
}

/// The types of the imported memories, in the order of the imports.
pub open spec fn imported_memories(imports: Seq<ImportView>) -> Seq<MemoryType>
    decreases imports.len(),
{
    if imports.len() == 0 {
        Seq::empty()
    } else {
        let before = imported_memories(imports.drop_last());
        match imports.last().descriptor {
            ImportDescriptor::Memory(memory_type) => before.push(memory_type),
            _ => before,
        }
    }
}

/// The types of the imported globals, in the order of the imports.
pub open spec fn imported_globals(imports: Seq<ImportView>) -> Seq<GlobalType>
    decreases imports.len(),
{
    if imports.len() == 0 {
        Seq::empty()
    } else {
        let before = imported_globals(imports.drop_last());
        match imports.last().descriptor {
            ImportDescriptor::Global(global_type) => before.push(global_type),
            _ => before,
        }
    }
}

/// The index spaces of a module, with no locals.
pub open spec fn context_of(module: ModuleView) -> ContextView {
    ContextView {
        function_types: module.function_types,
        functions: imported_functions(module.imports) + Seq::new(
            module.functions.len(),
            |i: int| module.functions[i].function_type,
        ),
        tables: imported_tables(module.imports) + Seq::new(
            module.tables.len(),
            |i: int| module.tables[i].table_type,
        ),
        memories: imported_memories(module.imports) + Seq::new(
            module.memories.len(),
            |i: int| module.memories[i].memory_type,
        ),
        globals: imported_globals(module.imports) + Seq::new(
            module.globals.len(),
            |i: int| module.globals[i].global_type,
        ),
        imported_globals: imported_globals(module.imports).len(),
        locals: Seq::empty(),
    }
}

/// What `index` refers to in an index space, or the verdict with `message` where the
/// space has no such entry.
pub open spec fn entry<T>(space: Seq<T>, index: u32, message: &str) -> Result<T, Seq<char>> {
    if index < space.len() {
        Ok(space[index as int])
    } else {
        Err(message@)
    }
}

/// The result of a lookup is what `expected` says.
pub open spec fn looks_up<T>(
    got: Result<T, ValidationError>,
    expected: Result<T, Seq<char>>,
) -> bool {
    match expected {
        Ok(value) => got == Ok::<T, ValidationError>(value),
        Err(message) => got is Err && got->Err_0@ == message,
    }
}

/// The index spaces of a module, and the locals of the function whose body is checked.
#[derive(Debug)]
pub struct Context<'a> {
    pub function_types: &'a Vec<FunctionType>,
    pub functions: Vec<u32>,
    pub tables: Vec<TableType>,
    pub memories: Vec<MemoryType>,
    pub globals: Vec<GlobalType>,
    pub imported_globals: usize,
    pub locals: Vec<ValueType>,
}

impl<'a> View for Context<'a> {
    type V = ContextView;

    open spec fn view(&self) -> ContextView {
        ContextView {
            function_types: views(self.function_types@),
            functions: self.functions@,
            tables: self.tables@,
            memories: self.memories@,
            globals: self.globals@,
            imported_globals: self.imported_globals as nat,
            locals: self.locals@,
        }
    }
}

impl<'a> Context<'a> {
    /// The index spaces of `module`, with no locals.
    pub fn new(module: &'a Module) -> (context: Context<'a>)
        ensures
            context@ == context_of(module@),
    {
        let mut functions: Vec<u32> = Vec::new();
        let mut tables: Vec<TableType> = Vec::new();
        let mut memories: Vec<MemoryType> = Vec::new();
        let mut globals: Vec<GlobalType> = Vec::new();
        let ghost imports = views(module.imports@);
        let mut i: usize = 0;
        proof {
            assert(imports.take(0) =~= Seq::<ImportView>::empty());
        }
        while i < module.imports.len()
            invariant
                i <= module.imports.len(),
                imports == views(module.imports@),
                functions@ == imported_functions(imports.take(i as int)),
                tables@ == imported_tables(imports.take(i as int)),
                memories@ == imported_memories(imports.take(i as int)),
                globals@ == imported_globals(imports.take(i as int)),
            decreases module.imports.len() - i,
        {
            proof {
                assert(imports.take(i + 1).drop_last() =~= imports.take(i as int));
                assert(imports.take(i + 1).last() == module.imports[i as int]@);
            }
            match module.imports[i].descriptor {
                ImportDescriptor::Function(index) => functions.push(index),
                ImportDescriptor::Table(table_type) => tables.push(table_type),
                ImportDescriptor::Memory(memory_type) => memories.push(memory_type),
                ImportDescriptor::Global(global_type) => globals.push(global_type),
            }
            i += 1;
        }
        proof {
            assert(imports.take(i as int) =~= imports);
        }
        let imported_globals = globals.len();
        let ghost imported_function_types = functions@;
        let ghost imported_table_types = tables@;
        let ghost imported_memory_types = memories@;
        let ghost imported_global_types = globals@;
        let mut j: usize = 0;
        while j < module.functions.len()
            invariant
                j <= module.functions.len(),
                functions@ == imported_function_types + Seq::new(
                    j as nat,
                    |k: int| module.functions[k].function_type,
                ),
            decreases module.functions.len() - j,
        {
            functions.push(module.functions[j].function_type);
            j += 1;
            proof {
                assert(functions@ =~= imported_function_types + Seq::new(
                    j as nat,
                    |k: int| module.functions[k].function_type,
                ));
            }
        }
        let mut j: usize = 0;
        while j < module.tables.len()
            invariant
                j <= module.tables.len(),
                tables@ == imported_table_types + Seq::new(
                    j as nat,
                    |k: int| module.tables[k].table_type,
                ),
            decreases module.tables.len() - j,
        {
            tables.push(module.tables[j].table_type);
            j += 1;
            proof {
                assert(tables@ =~= imported_table_types + Seq::new(
                    j as nat,
                    |k: int| module.tables[k].table_type,
                ));
            }
        }
        let mut j: usize = 0;
        while j < module.memories.len()
            invariant
                j <= module.memories.len(),
                memories@ == imported_memory_types + Seq::new(
                    j as nat,
                    |k: int| module.memories[k].memory_type,
                ),
            decreases module.memories.len() - j,
        {
            memories.push(module.memories[j].memory_type);
            j += 1;
            proof {
                assert(memories@ =~= imported_memory_types + Seq::new(
                    j as nat,
                    |k: int| module.memories[k].memory_type,
                ));
            }
        }
        let mut j: usize = 0;
        while j < module.globals.len()
            invariant
                j <= module.globals.len(),
                globals@ == imported_global_types + Seq::new(
                    j as nat,
                    |k: int| module.globals[k].global_type,
                ),
            decreases module.globals.len() - j,
        {
            globals.push(module.globals[j].global_type);
            j += 1;
            proof {
                assert(globals@ =~= imported_global_types + Seq::new(
                    j as nat,
                    |k: int| module.globals[k].global_type,
                ));
            }
        }
        let context = Context {
            function_types: &module.function_types,
            functions,
            tables,
            memories,
            globals,
            imported_globals,
            locals: Vec::new(),
        };
        proof {
            let expected = context_of(module@);
            assert(context@.functions =~= expected.functions);
            assert(context@.tables =~= expected.tables);
            assert(context@.memories =~= expected.memories);
            assert(context@.globals =~= expected.globals);
        }
        context
    }

    /// The function type at `function_type_index`.
    pub fn get_function_type(&self, function_type_index: u32) -> (r: Result<
        &'a FunctionType,
        ValidationError,
    >)
        ensures
            match entry(
                self@.function_types,
                function_type_index,
                INVALID_FUNCTION_TYPE_REFERENCE,
            ) {
                Ok(function_type) => r matches Ok(found) && found@ == function_type,
                Err(message) => r matches Err(error) && error@ == message,
            },
    {
        if (function_type_index as usize) < self.function_types.len() {
            Ok(&self.function_types[function_type_index as usize])
        } else {
            Err(ValidationError::from(INVALID_FUNCTION_TYPE_REFERENCE))
        }
    }

    /// The type index of the function at `function_index`.
    pub fn get_function(&self, function_index: u32) -> (r: Result<u32, ValidationError>)
        ensures
            looks_up(r, entry(self@.functions, function_index, INVALID_FUNCTION_REFERENCE)),
    {
        if (function_index as usize) < self.functions.len() {
            Ok(self.functions[function_index as usize])
        } else {
            Err(ValidationError::from(INVALID_FUNCTION_REFERENCE))
        }
    }

    /// The type of the table at `table_index`.
    pub fn get_table(&self, table_index: u32) -> (r: Result<TableType, ValidationError>)
        ensures
            looks_up(r, entry(self@.tables, table_index, INVALID_TABLE_REFERENCE)),
    {
        if (table_index as usize) < self.tables.len() {
            Ok(self.tables[table_index as usize])
        } else {
            Err(ValidationError::from(INVALID_TABLE_REFERENCE))
        }
    }

    /// The type of the memory at `memory_index`.
    pub fn get_memory(&self, memory_index: u32) -> (r: Result<MemoryType, ValidationError>)
        ensures
            looks_up(r, entry(self@.memories, memory_index, INVALID_MEMORY_REFERENCE)),
    {
        if (memory_index as usize) < self.memories.len() {
            Ok(self.memories[memory_index as usize])
        } else {
            Err(ValidationError::from(INVALID_MEMORY_REFERENCE))
        }
    }

    /// The type of the global at `global_index`.
    pub fn get_global(&self, global_index: u32) -> (r: Result<GlobalType, ValidationError>)
        ensures
            looks_up(r, entry(self@.globals, global_index, INVALID_GLOBAL_REFERENCE)),
    {
        if (global_index as usize) < self.globals.len() {
            Ok(self.globals[global_index as usize])
        } else {
            Err(ValidationError::from(INVALID_GLOBAL_REFERENCE))
        }
    }

    /// The type of the local at `local_index`.
    pub fn get_local(&self, local_index: u32) -> (r: Result<ValueType, ValidationError>)
        ensures
            looks_up(r, entry(self@.locals, local_index, INVALID_LOCAL_REFERENCE)),
    {
        if (local_index as usize) < self.locals.len() {
            Ok(self.locals[local_index as usize])
        } else {
            Err(ValidationError::from(INVALID_LOCAL_REFERENCE))
        }
    }
}

} // verus!
